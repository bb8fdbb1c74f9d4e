//! `Task` configuration.
//!
//! Implements the standard and unique way to find existing tasks or to
//! spawn new ones: a chain of calls, each of which enables or customizes a
//! feature of the new task in creation mode, or a filter in find mode.
use vstd::prelude::*;
use crate::ent::impls::{OSGroup, OSUser};
use crate::error::class::OsErrorClass;
use crate::objs::object::{Object, spec_raw_obj_id};
use crate::sys::call::{KernCall, read_call_result, spec_call_result};
use crate::sys::codes::KernTaskConfigFnId;
use crate::sys::fn_path::KernFnPath;
use crate::task::thread::TaskId;
use crate::tasks::bits::{SchedPolicy, TaskCpu, TaskPrio, TaskSpecData};
use crate::tasks::impls::{File, Proc, Task, Thread};

verus! {

/// Marker of the modes of a configuration.
pub trait ConfigMode {

}

/// Marks the configurations which create.
#[derive(Debug, Clone, Copy)]
pub struct CreatMode;

/// Marks the configurations which find.
#[derive(Debug, Clone, Copy)]
pub struct FindMode;

impl ConfigMode for CreatMode {

}

impl ConfigMode for FindMode {

}

/// What a `TaskConfig` holds.
pub struct TaskConfigData<T> {
    /// The identifier of the searched task.
    pub id: Option<u32>,
    /// The parent of the searched tasks.
    pub children_of: Option<T>,
    /// The scheduling policy of the new task.
    pub sched_policy: SchedPolicy,
    /// The priority class of the new task.
    pub prio: TaskPrio,
    /// The CPU affinity of the new task.
    pub cpu: TaskCpu,
    /// The data which depend on the kind of the task.
    pub spec: TaskSpecData,
    /// The owner user.
    pub os_user: Option<OSUser>,
    /// The owner group.
    pub os_group: Option<OSGroup>,
}

/// Functional standard interface to find existing tasks or to spawn new
/// ones.
pub struct TaskConfig<T: Task, M: ConfigMode> {
    m_id: Option<u32>,
    m_children_of: Option<T>,
    m_sched_policy: SchedPolicy,
    m_prio: TaskPrio,
    m_cpu: TaskCpu,
    m_spec: TaskSpecData,
    m_os_user: Option<OSUser>,
    m_os_group: Option<OSGroup>,
    _unused: Ghost<Option<M>>,
}

impl<T: Task, M: ConfigMode> TaskConfig<T, M> {
    /// What the configuration holds.
    pub closed spec fn view(&self) -> TaskConfigData<T> {
        TaskConfigData {
            id: self.m_id,
            children_of: self.m_children_of,
            sched_policy: self.m_sched_policy,
            prio: self.m_prio,
            cpu: self.m_cpu,
            spec: self.m_spec,
            os_user: self.m_os_user,
            os_group: self.m_os_group,
        }
    }

    /// What a blank configuration holds.
    pub open spec fn spec_blank() -> TaskConfigData<T> {
        TaskConfigData {
            id: None,
            children_of: None,
            sched_policy: SchedPolicy::Preemptive,
            prio: TaskPrio::Normal,
            cpu: TaskCpu::Any,
            spec: TaskSpecData::Unset,
            os_user: None,
            os_group: None,
        }
    }

    /// Constructs a new `TaskConfig`. The instance is blank: no filter is
    /// enabled, the new task is preemptive, of normal priority and runs on
    /// any CPU.
    pub fn new() -> (config: Self)
        ensures
            config@ == Self::spec_blank(),
    {
        Self {
            m_id: None,
            m_children_of: None,
            m_sched_policy: SchedPolicy::Preemptive,
            m_prio: TaskPrio::Normal,
            m_cpu: TaskCpu::Any,
            m_spec: TaskSpecData::Unset,
            m_os_user: None,
            m_os_group: None,
            _unused: Ghost(None),
        }
    }

    /// Returns the optional id for searching.
    pub fn id(&self) -> (id: Option<u32>)
        ensures
            id == self@.id,
    {
        self.m_id
    }

    /// Returns the task to use as parent for searching.
    pub fn children_parent(&self) -> (parent: Option<&T>)
        ensures
            match parent {
                Some(task) => self@.children_of == Some(*task),
                None => self@.children_of is None,
            },
    {
        self.m_children_of.as_ref()
    }

    /// Returns the `SchedPolicy` chosen for the new task.
    pub fn sched_policy(&self) -> (sched_policy: SchedPolicy)
        ensures
            sched_policy == self@.sched_policy,
    {
        self.m_sched_policy
    }

    /// Returns the `TaskPrio` chosen for the new task.
    pub fn task_prio(&self) -> (prio: TaskPrio)
        ensures
            prio == self@.prio,
    {
        self.m_prio
    }

    /// Returns the `TaskCpu` chosen for the new task.
    pub fn task_cpu(&self) -> (cpu: TaskCpu)
        ensures
            cpu == self@.cpu,
    {
        self.m_cpu
    }

    /// Returns the reference to the `TaskSpecData`.
    pub fn task_spec_data(&self) -> (spec: &TaskSpecData)
        ensures
            *spec == self@.spec,
    {
        &self.m_spec
    }

    /// Returns the optional `OSUser` chosen.
    pub fn os_user(&self) -> (os_user: Option<OSUser>)
        ensures
            os_user == self@.os_user,
    {
        self.m_os_user
    }

    /// Returns the optional `OSGroup` chosen.
    pub fn os_group(&self) -> (os_group: Option<OSGroup>)
        ensures
            os_group == self@.os_group,
    {
        self.m_os_group
    }
}

/// Reads the result word of the call which spawns a task: the new task,
/// or the class of the error.
pub fn task_from_result<T: Task>(result: isize) -> (task: Result<T, OsErrorClass>)
    ensures
        match spec_call_result(result) {
            Ok(word) => task is Ok && task->Ok_0.spec_task_id() == spec_raw_obj_id(word),
            Err(class) => task is Err && task->Err_0 == class,
        },
{
    match read_call_result(result) {
        Ok(word) => {
            let low: u64 = (word as u64) % 0x1_0000_0000;
            Ok(T::from_task_id(low as u32))
        },
        Err(class) => Err(class),
    }
}

/// Reads the result word of the call which starts a search: the raw
/// identifier of the kernel iterator which fetches the found tasks, or
/// the class of the error.
pub fn finder_from_result(result: isize) -> (iter_id: Result<u32, OsErrorClass>)
    ensures
        match spec_call_result(result) {
            Ok(word) => iter_id == Ok::<u32, OsErrorClass>(spec_raw_obj_id(word)),
            Err(class) => iter_id == Err::<u32, OsErrorClass>(class),
        },
{
    match read_call_result(result) {
        Ok(word) => {
            let low: u64 = (word as u64) % 0x1_0000_0000;
            Ok(low as u32)
        },
        Err(class) => Err(class),
    }
}

impl<T: Task> TaskConfig<T, CreatMode> {
    /// Specifies the scheduling policy: which scheduling algorithm the
    /// kernel must use for the new task.
    pub fn with_sched_policy(&mut self, sched_policy: SchedPolicy)
        ensures
            final(self)@ == (TaskConfigData { sched_policy, ..old(self)@ }),
    {
        self.m_sched_policy = sched_policy;
    }

    /// Specifies the priority class which the new task must have for all
    /// his execution life.
    pub fn with_prio(&mut self, priority: TaskPrio)
        ensures
            final(self)@ == (TaskConfigData { prio: priority, ..old(self)@ }),
    {
        self.m_prio = priority;
    }

    /// Specifies the CPU affinity: whether and how the new task must be
    /// affine to a subset of the available CPUs.
    pub fn with_cpu(&mut self, cpu: TaskCpu)
        ensures
            final(self)@ == (TaskConfigData { cpu, ..old(self)@ }),
    {
        self.m_cpu = cpu;
    }

    /// Builds the call which asks the kernel to apply the configuration,
    /// stored at `config_addr`, to spawn a new task.
    pub fn run_task(&self, config_addr: usize) -> (call: KernCall)
        ensures
            call.is(KernFnPath::TaskConfig(KernTaskConfigFnId::CreateTask), 0, seq![config_addr]),
    {
        KernCall::with_1_arg(
            KernFnPath::TaskConfig(KernTaskConfigFnId::CreateTask),
            0,
            config_addr,
        )
    }
}

impl<T: Task> TaskConfig<T, FindMode> {
    /// Specifies the identifier of the task: tells to the kernel exactly
    /// which task is requested.
    pub fn with_id(&mut self, id: u32)
        ensures
            final(self)@ == (TaskConfigData { id: Some(id), ..old(self)@ }),
    {
        self.m_id = Some(id);
    }

    /// Specifies the parent task: tells the kernel on which children to
    /// iterate.
    pub fn children_of(&mut self, task: T)
        ensures
            final(self)@ == (TaskConfigData { children_of: Some(task), ..old(self)@ }),
    {
        self.m_children_of = Some(task);
    }

    /// Specifies the owner user of the searched tasks.
    pub fn owned_by_user(&mut self, user: OSUser)
        ensures
            final(self)@ == (TaskConfigData { os_user: Some(user), ..old(self)@ }),
    {
        self.m_os_user = Some(user);
    }

    /// Specifies the owner group of the searched tasks.
    pub fn owned_by_group(&mut self, group: OSGroup)
        ensures
            final(self)@ == (TaskConfigData { os_group: Some(group), ..old(self)@ }),
    {
        self.m_os_group = Some(group);
    }

    /// Builds the call which dispatches the configuration, stored at
    /// `config_addr`, to the kernel to start a search for existing tasks.
    pub fn search(&self, config_addr: usize) -> (call: KernCall)
        ensures
            call.is(KernFnPath::TaskConfig(KernTaskConfigFnId::InitFind), 0, seq![config_addr]),
    {
        KernCall::with_1_arg(KernFnPath::TaskConfig(KernTaskConfigFnId::InitFind), 0, config_addr)
    }
}

impl TaskConfig<Proc, CreatMode> {
    /// Overrides the owner user which, otherwise, will be inherited by
    /// the parent process.
    pub fn owned_by_user(&mut self, user: OSUser)
        ensures
            final(self)@ == (TaskConfigData { os_user: Some(user), ..old(self)@ }),
    {
        self.m_os_user = Some(user);
    }

    /// Overrides the owner group which, otherwise, will be inherited by
    /// the parent process.
    pub fn owned_by_group(&mut self, group: OSGroup)
        ensures
            final(self)@ == (TaskConfigData { os_group: Some(group), ..old(self)@ }),
    {
        self.m_os_group = Some(group);
    }

    /// Stores what the new process executes, the given file with the
    /// `args_count` arguments stored at `args_addr`, and builds the call
    /// which spawns it from the configuration stored at `config_addr`.
    pub fn run(&mut self, file: &File, args_addr: usize, args_count: usize, config_addr: usize) -> (call:
        KernCall)
        ensures
            final(self)@ == (TaskConfigData {
                spec: TaskSpecData::Proc {
                    m_file: file.spec_handle()@,
                    m_args_addr: args_addr,
                    m_args_count: args_count,
                },
                ..old(self)@
            }),
            call.is(KernFnPath::TaskConfig(KernTaskConfigFnId::CreateTask), 0, seq![config_addr]),
    {
        self.m_spec = TaskSpecData::new_proc(file.obj_handle().as_raw(), args_addr, args_count);
        self.run_task(config_addr)
    }
}

impl TaskConfig<Proc, FindMode> {
    /// Specifies the executed file: tells the kernel to iterate on the
    /// processes which execute it.
    pub fn executor_of(&mut self, file: &File)
        ensures
            final(self)@ == (TaskConfigData {
                spec: TaskSpecData::Proc {
                    m_file: file.spec_handle()@,
                    m_args_addr: 0,
                    m_args_count: 0,
                },
                ..old(self)@
            }),
    {
        self.m_spec = TaskSpecData::new_proc(file.obj_handle().as_raw(), 0, 0);
    }
}

impl TaskConfig<Thread, CreatMode> {
    /// Stores what the new thread executes, the function at
    /// `entry_point` with `arg` as argument, and its name, then builds
    /// the call which spawns it from the configuration stored at
    /// `config_addr`.
    pub fn run(
        &mut self,
        entry_point: usize,
        arg: usize,
        name_addr: usize,
        name_len: usize,
        config_addr: usize,
    ) -> (call: KernCall)
        ensures
            final(self)@ == (TaskConfigData {
                spec: TaskSpecData::Thread {
                    m_entry_point: Some(entry_point),
                    m_arg: Some(arg),
                    m_name_addr: name_addr,
                    m_name_len: name_len,
                },
                ..old(self)@
            }),
            call.is(KernFnPath::TaskConfig(KernTaskConfigFnId::CreateTask), 0, seq![config_addr]),
    {
        self.m_spec = TaskSpecData::new_thread(Some(entry_point), Some(arg), name_addr, name_len);
        self.run_task(config_addr)
    }
}

impl TaskConfig<Thread, FindMode> {
    /// Specifies the name of the searched threads, stored at `name_addr`.
    pub fn with_name(&mut self, name_addr: usize, name_len: usize)
        ensures
            final(self)@ == (TaskConfigData {
                spec: TaskSpecData::Thread {
                    m_entry_point: None,
                    m_arg: None,
                    m_name_addr: name_addr,
                    m_name_len: name_len,
                },
                ..old(self)@
            }),
    {
        self.m_spec = TaskSpecData::new_thread(None, None, name_addr, name_len);
    }
}

} // verus!
