//! `Object` handle.
//!
//! An `ObjId` names a kernel object. The kernel counts the references to
//! each object: a handle is never copied bit for bit, a second handle is
//! made with a call which adds a reference, and a handle which goes away
//! gives its reference back. Each operation of the handle is split in two:
//! one function builds the kernel call, another one reads the result word
//! which the kernel gave for it.
use vstd::prelude::*;
use vstd::std_specs::convert::FromSpecImpl;
use crate::error::class::OsErrorClass;
use crate::objs::modes::RecvMode;
use crate::objs::types::ObjType;
use crate::objs::uses::ObjUseBits;
use crate::sys::call::{KernCall, read_call_result, spec_call_result};
use crate::sys::codes::KernObjectFnId;
use crate::sys::fn_path::KernFnPath;

verus! {

/// The raw identifier which a word read from the kernel stands for: its
/// low 32 bits.
pub open spec fn spec_raw_obj_id(word: usize) -> u32 {
    ((word as u64) % 0x1_0000_0000) as u32
}

/// Object opaque handle.
///
/// Takes the place of the file descriptor integer which the Unix-like
/// systems use to keep a reference to an open resource. The raw
/// identifier zero names no object: it marks the empty handle.
#[derive(Debug, PartialEq, Eq, Structural)]
pub struct ObjId {
    m_raw: u32,
}

impl ObjId {
    /// The raw identifier of the handle.
    pub closed spec fn view(&self) -> u32 {
        self.m_raw
    }

    /// The handle with the raw identifier `raw_id`.
    pub closed spec fn spec_from_raw(raw_id: u32) -> ObjId {
        ObjId { m_raw: raw_id }
    }

    /// The raw identifier of `spec_from_raw(raw_id)` is `raw_id`.
    pub broadcast proof fn lemma_spec_from_raw_view(raw_id: u32)
        ensures
            #[trigger] Self::spec_from_raw(raw_id)@ == raw_id,
    {
    }

    /// Two handles with the same raw identifier are the same handle.
    pub proof fn lemma_same_raw(first: ObjId, second: ObjId)
        requires
            first@ == second@,
        ensures
            first == second,
    {
    }

    /// Takes the raw identifier given by the kernel as a handle.
    pub fn from_raw(raw_id: u32) -> (id: ObjId)
        ensures
            id@ == raw_id,
            id == Self::spec_from_raw(raw_id),
    {
        ObjId { m_raw: raw_id }
    }

    /// Whether the kernel call is the call of `fn_id` on this handle with
    /// the given arguments.
    pub open spec fn calls(&self, call: KernCall, fn_id: KernObjectFnId, args: Seq<usize>) -> bool {
        call.is(KernFnPath::Object(fn_id), self@, args)
    }

    /// Builds the call which shares the object with the task
    /// `receiver_task`. The caller keeps its handle.
    pub fn send(&self, receiver_task: usize) -> (call: KernCall)
        ensures
            self.calls(call, KernObjectFnId::Send, seq![receiver_task]),
    {
        KernCall::with_1_arg(KernFnPath::Object(KernObjectFnId::Send), self.m_raw, receiver_task)
    }

    /// Builds the call which accepts an incoming object of `obj_type`.
    pub fn recv(&self, obj_type: ObjType, mode: RecvMode) -> (call: KernCall)
        ensures
            self.calls(call, KernObjectFnId::Recv, seq![obj_type.spec_raw(), mode.spec_raw()]),
    {
        KernCall::with_2_args(
            KernFnPath::Object(KernObjectFnId::Recv),
            self.m_raw,
            obj_type.as_raw(),
            mode.as_raw(),
        )
    }

    /// Reads the result word of the call built by `recv`.
    ///
    /// On success the handle becomes the handle of the received object;
    /// on failure it stays as it was and the class of the error is
    /// returned.
    pub fn recv_done(&mut self, result: isize) -> (outcome: Result<(), OsErrorClass>)
        ensures
            match spec_call_result(result) {
                Ok(word) => outcome is Ok && final(self)@ == spec_raw_obj_id(word),
                Err(class) => outcome == Err::<(), OsErrorClass>(class) && final(self)@ == old(
                    self,
                )@,
            },
    {
        match read_call_result(result) {
            Ok(word) => {
                let id = Self::from(word);
                self.m_raw = id.m_raw;
                Ok(())
            },
            Err(class) => Err(class),
        }
    }

    /// Builds the call which updates the info of the object with the info
    /// stored at `info_addr`.
    pub fn update_info(&self, info_addr: usize) -> (call: KernCall)
        ensures
            self.calls(call, KernObjectFnId::UpdateInfo, seq![info_addr]),
    {
        KernCall::with_1_arg(KernFnPath::Object(KernObjectFnId::UpdateInfo), self.m_raw, info_addr)
    }

    /// Builds the call which makes the object no longer reachable by
    /// name. When all the tasks which keep a reference to it drop it, the
    /// kernel destroys it.
    pub fn drop_name(&self) -> (call: KernCall)
        ensures
            self.calls(call, KernObjectFnId::DropName, seq![]),
    {
        KernCall::with_no_args(KernFnPath::Object(KernObjectFnId::DropName), self.m_raw)
    }

    /// Builds the call which registers the callback described at
    /// `entry_data_addr` to be run whenever one of the uses in `filter`
    /// happens.
    pub fn watch(&self, filter: ObjUseBits, entry_data_addr: usize) -> (call: KernCall)
        ensures
            self.calls(call, KernObjectFnId::Watch, seq![filter@ as usize, entry_data_addr]),
    {
        let filter_bits: u32 = filter.raw_bits();
        KernCall::with_2_args(
            KernFnPath::Object(KernObjectFnId::Watch),
            self.m_raw,
            filter_bits as usize,
            entry_data_addr,
        )
    }

    /// Builds the call which stores the info of the object at
    /// `info_addr`.
    pub fn info(&self, info_addr: usize) -> (call: KernCall)
        ensures
            self.calls(call, KernObjectFnId::Info, seq![info_addr]),
    {
        KernCall::with_1_arg(KernFnPath::Object(KernObjectFnId::Info), self.m_raw, info_addr)
    }

    /// Builds the call which adds a reference to the object, for a second
    /// handle to it.
    pub fn add_ref(&self) -> (call: KernCall)
        ensures
            self.calls(call, KernObjectFnId::AddRef, seq![]),
    {
        KernCall::with_no_args(KernFnPath::Object(KernObjectFnId::AddRef), self.m_raw)
    }

    /// Reads the result word of the call built by `add_ref`.
    ///
    /// On success returns the second handle, which has the raw identifier
    /// of this one; on failure returns the class of the error and no
    /// handle.
    pub fn clone_done(&self, result: isize) -> (outcome: Result<ObjId, OsErrorClass>)
        ensures
            match spec_call_result(result) {
                Ok(_) => outcome is Ok && outcome->Ok_0@ == self@,
                Err(class) => outcome == Err::<ObjId, OsErrorClass>(class),
            },
    {
        match read_call_result(result) {
            Ok(_) => Ok(Self::from_raw(self.m_raw)),
            Err(class) => Err(class),
        }
    }

    /// Builds the call which asks the kernel whether the handle references
    /// a live object. Returns `None` for the empty handle, which
    /// references none: the kernel is not asked.
    pub fn is_valid_query(&self) -> (call: Option<KernCall>)
        ensures
            call is Some <==> self@ != 0,
            call is Some ==> self.calls(call->0, KernObjectFnId::IsValid, seq![]),
    {
        if self.m_raw != 0 {
            Some(KernCall::with_no_args(KernFnPath::Object(KernObjectFnId::IsValid), self.m_raw))
        } else {
            None
        }
    }

    /// Returns whether this handle references a still valid kernel
    /// object, given the result word of the call built by
    /// `is_valid_query`, or `None` when there was no call to make.
    pub fn is_valid(&self, answer: Option<isize>) -> (valid: bool)
        ensures
            valid == (self@ != 0 && answer is Some && spec_call_result(answer->0) is Ok),
    {
        if self.m_raw == 0 {
            return false;
        }
        match answer {
            Some(result) => read_call_result(result).is_ok(),
            None => false,
        }
    }

    /// Gives the handle up, given the answer of the kernel to the call
    /// built by `is_valid_query`.
    ///
    /// Returns the call which drops the reference when the handle is
    /// valid. An empty handle, and one whose object is gone, is given up
    /// without a call.
    pub fn release(self, answer: Option<isize>) -> (call: Option<KernCall>)
        ensures
            call is Some <==> self@ != 0 && answer is Some && spec_call_result(answer->0) is Ok,
            call is Some ==> self.calls(call->0, KernObjectFnId::Drop, seq![]),
    {
        if self.is_valid(answer) {
            Some(KernCall::with_no_args(KernFnPath::Object(KernObjectFnId::Drop), self.m_raw))
        } else {
            None
        }
    }

    /// Gives the handle up and returns its raw identifier. The reference
    /// is not given back: it goes to whom takes the identifier.
    pub fn into_raw(self) -> (raw_id: u32)
        ensures
            raw_id == self@,
    {
        self.m_raw
    }

    /// Returns whether this is the empty handle.
    pub fn is_null(&self) -> (null: bool)
        ensures
            null == (self@ == 0),
    {
        self.m_raw == 0
    }

    /// Returns the raw identifier of this `ObjId`.
    pub fn as_raw(&self) -> (raw_id: u32)
        ensures
            raw_id == self@,
    {
        self.m_raw
    }

    /// Returns the raw identifier of this `ObjId` as `usize`.
    pub fn as_raw_usize(&self) -> (raw_id: usize)
        ensures
            raw_id == self@,
    {
        self.m_raw as usize
    }
}

/// Reads the result word of a call which returns no value: success, or
/// the class of the error.
pub fn unit_call_done(result: isize) -> (outcome: Result<(), OsErrorClass>)
    ensures
        match spec_call_result(result) {
            Ok(_) => outcome is Ok,
            Err(class) => outcome == Err::<(), OsErrorClass>(class),
        },
{
    match read_call_result(result) {
        Ok(_) => Ok(()),
        Err(class) => Err(class),
    }
}

impl Default for ObjId {
    /// The empty handle.
    fn default() -> (id: Self)
        ensures
            id@ == 0,
    {
        ObjId { m_raw: 0 }
    }
}

impl From<u32> for ObjId {
    fn from(raw_id: u32) -> (id: Self) {
        ObjId { m_raw: raw_id }
    }
}

impl FromSpecImpl<u32> for ObjId {
    open spec fn obeys_from_spec() -> bool {
        true
    }

    open spec fn from_spec(raw_id: u32) -> Self {
        Self::spec_from_raw(raw_id)
    }
}

impl From<usize> for ObjId {
    fn from(raw_id: usize) -> (id: Self) {
        let low: u64 = (raw_id as u64) % 0x1_0000_0000;
        ObjId { m_raw: low as u32 }
    }
}

impl FromSpecImpl<usize> for ObjId {
    open spec fn obeys_from_spec() -> bool {
        true
    }

    open spec fn from_spec(raw_id: usize) -> Self {
        Self::spec_from_raw(spec_raw_obj_id(raw_id))
    }
}

/// Common interface implemented by all the `ObjId` based objects.
pub trait Object: Sized {
    /// The handle of the object.
    spec fn spec_handle(&self) -> ObjId;

    /// The type of the objects of the implementation.
    spec fn spec_type() -> ObjType;

    /// Returns the value of the `ObjType` that matches the
    /// implementation.
    fn obj_type() -> (obj_type: ObjType)
        ensures
            obj_type == Self::spec_type(),
    ;

    /// Returns the immutable reference to the underling `ObjId` instance.
    fn obj_handle(&self) -> (handle: &ObjId)
        ensures
            *handle == self.spec_handle(),
    ;

    /// Wraps the handle into the object.
    fn from_id(id: ObjId) -> (obj: Self)
        ensures
            obj.spec_handle() == id,
    ;

    /// Consumes the obj into his `ObjId` instance.
    fn into_id(self) -> (id: ObjId)
        ensures
            id == self.spec_handle(),
    ;
}

/// Interface implemented for all the user creatable objects.
pub trait UserCreatable: Object {

}

/// Builds the call which makes `obj` no longer reachable by name.
pub fn obj_drop_name<T: Object>(obj: &T) -> (call: KernCall)
    ensures
        obj.spec_handle().calls(call, KernObjectFnId::DropName, seq![]),
{
    obj.obj_handle().drop_name()
}

/// Builds the call which registers a watcher on `obj`.
pub fn obj_watch<T: Object>(obj: &T, filter: ObjUseBits, entry_data_addr: usize) -> (call: KernCall)
    ensures
        obj.spec_handle().calls(
            call,
            KernObjectFnId::Watch,
            seq![filter@ as usize, entry_data_addr],
        ),
{
    obj.obj_handle().watch(filter, entry_data_addr)
}

/// Builds the call which shares `obj` with the task `receiver_task`.
pub fn obj_send<T: Object>(obj: &T, receiver_task: usize) -> (call: KernCall)
    ensures
        obj.spec_handle().calls(call, KernObjectFnId::Send, seq![receiver_task]),
{
    obj.obj_handle().send(receiver_task)
}

/// Builds the call which accepts an incoming object of the type of
/// `obj`.
pub fn obj_recv<T: Object>(obj: &T, mode: RecvMode) -> (call: KernCall)
    ensures
        obj.spec_handle().calls(
            call,
            KernObjectFnId::Recv,
            seq![T::spec_type().spec_raw(), mode.spec_raw()],
        ),
{
    obj.obj_handle().recv(T::obj_type(), mode)
}

/// Builds the call which stores the info of `obj` at `info_addr`.
pub fn obj_info<T: Object>(obj: &T, info_addr: usize) -> (call: KernCall)
    ensures
        obj.spec_handle().calls(call, KernObjectFnId::Info, seq![info_addr]),
{
    obj.obj_handle().info(info_addr)
}

} // verus!
