//! The tasks and the objects which the task configuration refers to.
use vstd::prelude::*;
use crate::objs::object::{ObjId, Object, UserCreatable};
use crate::objs::types::ObjType;
use crate::task::thread::TaskId;

verus! {

/// Common interface of the tasks.
pub trait Task: Sized {
    /// The identifier of the task.
    spec fn spec_task_id(&self) -> TaskId;

    /// Returns the identifier of the task.
    fn task_id(&self) -> (id: TaskId)
        ensures
            id == self.spec_task_id(),
    ;

    /// Takes the identifier given by the kernel as a task.
    fn from_task_id(id: TaskId) -> (task: Self)
        ensures
            task.spec_task_id() == id,
    ;
}

/// Reference to a process.
#[derive(Debug, Clone, Copy, PartialEq, Eq, Structural)]
pub struct Proc {
    m_id: TaskId,
}

impl Task for Proc {
    closed spec fn spec_task_id(&self) -> TaskId {
        self.m_id
    }

    fn task_id(&self) -> (id: TaskId) {
        self.m_id
    }

    fn from_task_id(id: TaskId) -> (task: Self) {
        Proc { m_id: id }
    }
}

/// Reference to a thread.
#[derive(Debug, Clone, Copy, PartialEq, Eq, Structural)]
pub struct Thread {
    m_id: TaskId,
}

impl Task for Thread {
    closed spec fn spec_task_id(&self) -> TaskId {
        self.m_id
    }

    fn task_id(&self) -> (id: TaskId) {
        self.m_id
    }

    fn from_task_id(id: TaskId) -> (task: Self) {
        Thread { m_id: id }
    }
}

/// Reference to an open file.
#[derive(Debug, PartialEq, Eq, Structural)]
pub struct File {
    m_handle: ObjId,
}

impl Object for File {
    closed spec fn spec_handle(&self) -> ObjId {
        self.m_handle
    }

    open spec fn spec_type() -> ObjType {
        ObjType::File
    }

    fn obj_type() -> (obj_type: ObjType) {
        ObjType::File
    }

    fn obj_handle(&self) -> (handle: &ObjId) {
        &self.m_handle
    }

    fn from_id(id: ObjId) -> (obj: Self) {
        Self { m_handle: id }
    }

    fn into_id(self) -> (id: ObjId) {
        self.m_handle
    }
}

impl UserCreatable for File {

}

} // verus!
