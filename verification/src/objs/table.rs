//! Kernel side table of the objects.
//!
//! The references to an object are counted where the object lives, on the
//! kernel side of the call boundary. The table keeps, for each raw
//! identifier it has given out, the type of the object, the count of the
//! references to it, whether it still has a name, and the uses which are
//! watched. It serves the calls of the `Object` class which act on these.
use vstd::prelude::*;
use crate::error::class::OsErrorClass;
use crate::objs::object::ObjId;
use crate::objs::types::ObjType;
use crate::sys::call::{KernCall, error_word, spec_error_word};
use crate::sys::codes::KernObjectFnId;
use crate::sys::fn_path::KernFnPath;

verus! {

/// What the kernel keeps for an object.
#[derive(Debug, Clone, Copy, PartialEq, Eq, Structural)]
pub struct KernObj {
    /// The type of the object.
    pub obj_type: ObjType,
    /// The count of the references to the object.
    pub refs: u32,
    /// Whether the object is reachable by name.
    pub named: bool,
    /// The uses of the object which are watched, one bit for each.
    pub watched: u32,
}

impl KernObj {
    /// Whether the object goes on existing: it is referenced, or it is a
    /// permanent one which still has a name.
    pub open spec fn persists(self) -> bool {
        self.refs > 0 || (self.obj_type.spec_is_permanent() && self.named)
    }
}

/// The object which the raw identifier `raw_id` names in `slots`, if it
/// names one: the identifier zero names none, the identifier `n` names
/// what the slot `n - 1` holds.
pub open spec fn obj_of(slots: Seq<Option<KernObj>>, raw_id: u32) -> Option<KernObj> {
    if 1 <= raw_id <= slots.len() {
        slots[raw_id - 1]
    } else {
        None
    }
}

/// `slots` with `obj` in place of the object named by `raw_id`, which is
/// destroyed when `obj` does not persist.
pub open spec fn with_obj(slots: Seq<Option<KernObj>>, raw_id: u32, obj: KernObj) -> Seq<
    Option<KernObj>,
> {
    slots.update(
        raw_id - 1,
        if obj.persists() {
            Some(obj)
        } else {
            None
        },
    )
}

/// The table and the outcome after a reference was added to the object
/// named by `raw_id`.
pub open spec fn spec_add_ref(slots: Seq<Option<KernObj>>, raw_id: u32) -> (
    Seq<Option<KernObj>>,
    Result<(), OsErrorClass>,
) {
    match obj_of(slots, raw_id) {
        None => (slots, Err(OsErrorClass::InvalidHandle)),
        Some(obj) => if obj.refs == u32::MAX {
            (slots, Err(OsErrorClass::LimitReached))
        } else {
            (
                with_obj(
                    slots,
                    raw_id,
                    KernObj {
                        obj_type: obj.obj_type,
                        refs: (obj.refs + 1) as u32,
                        named: obj.named,
                        watched: obj.watched,
                    },
                ),
                Ok(()),
            )
        },
    }
}

/// The table and the outcome after a reference to the object named by
/// `raw_id` was dropped.
pub open spec fn spec_drop_ref(slots: Seq<Option<KernObj>>, raw_id: u32) -> (
    Seq<Option<KernObj>>,
    Result<(), OsErrorClass>,
) {
    match obj_of(slots, raw_id) {
        None => (slots, Err(OsErrorClass::InvalidHandle)),
        Some(obj) => if obj.refs == 0 {
            (slots, Err(OsErrorClass::InvalidHandle))
        } else {
            (
                with_obj(
                    slots,
                    raw_id,
                    KernObj {
                        obj_type: obj.obj_type,
                        refs: (obj.refs - 1) as u32,
                        named: obj.named,
                        watched: obj.watched,
                    },
                ),
                Ok(()),
            )
        },
    }
}

/// The table and the outcome after the name of the object named by
/// `raw_id` was dropped.
pub open spec fn spec_drop_name(slots: Seq<Option<KernObj>>, raw_id: u32) -> (
    Seq<Option<KernObj>>,
    Result<(), OsErrorClass>,
) {
    match obj_of(slots, raw_id) {
        None => (slots, Err(OsErrorClass::InvalidHandle)),
        Some(obj) => if !obj.obj_type.spec_is_permanent() {
            (slots, Err(OsErrorClass::IllegalOperation))
        } else {
            (
                with_obj(
                    slots,
                    raw_id,
                    KernObj {
                        obj_type: obj.obj_type,
                        refs: obj.refs,
                        named: false,
                        watched: obj.watched,
                    },
                ),
                Ok(()),
            )
        },
    }
}

/// The table and the outcome after a watcher of the uses in `filter` was
/// registered on the object named by `raw_id`: a filter which shares a
/// use with a registered one is an error, the filters are never merged.
pub open spec fn spec_watch(slots: Seq<Option<KernObj>>, raw_id: u32, filter: u32) -> (
    Seq<Option<KernObj>>,
    Result<(), OsErrorClass>,
) {
    match obj_of(slots, raw_id) {
        None => (slots, Err(OsErrorClass::InvalidHandle)),
        Some(obj) => if filter == 0 {
            (slots, Err(OsErrorClass::InvalidArgument))
        } else if obj.watched & filter != 0 {
            (slots, Err(OsErrorClass::AlreadyExists))
        } else {
            (
                with_obj(
                    slots,
                    raw_id,
                    KernObj {
                        obj_type: obj.obj_type,
                        refs: obj.refs,
                        named: obj.named,
                        watched: obj.watched | filter,
                    },
                ),
                Ok(()),
            )
        },
    }
}

/// The table after the callback of the watcher of the uses in `filter`
/// on the object named by `raw_id` has run and returned `rearm`: the
/// watcher stays registered when `rearm` is true, else it is removed.
pub open spec fn spec_watch_fired(
    slots: Seq<Option<KernObj>>,
    raw_id: u32,
    filter: u32,
    rearm: bool,
) -> Seq<Option<KernObj>> {
    match obj_of(slots, raw_id) {
        None => slots,
        Some(obj) => if rearm {
            slots
        } else {
            with_obj(
                slots,
                raw_id,
                KernObj {
                    obj_type: obj.obj_type,
                    refs: obj.refs,
                    named: obj.named,
                    watched: obj.watched & !filter,
                },
            )
        },
    }
}

/// The result word for the outcome of a call which returns no value.
pub open spec fn spec_outcome_word(outcome: Result<(), OsErrorClass>) -> isize {
    match outcome {
        Ok(_) => 0,
        Err(class) => spec_error_word(class),
    }
}

/// The table and the result word after the kernel call of `fn_id` of the
/// `Object` class on `raw_id` with the first argument `arg_0`. The calls
/// which the table does not serve are illegal operations.
pub open spec fn spec_object_call(
    slots: Seq<Option<KernObj>>,
    fn_id: KernObjectFnId,
    raw_id: u32,
    arg_0: usize,
) -> (Seq<Option<KernObj>>, isize) {
    match fn_id {
        KernObjectFnId::AddRef => (
            spec_add_ref(slots, raw_id).0,
            spec_outcome_word(spec_add_ref(slots, raw_id).1),
        ),
        KernObjectFnId::Drop => (
            spec_drop_ref(slots, raw_id).0,
            spec_outcome_word(spec_drop_ref(slots, raw_id).1),
        ),
        KernObjectFnId::DropName => (
            spec_drop_name(slots, raw_id).0,
            spec_outcome_word(spec_drop_name(slots, raw_id).1),
        ),
        KernObjectFnId::IsValid => (
            slots,
            if obj_of(slots, raw_id) is Some {
                0
            } else {
                spec_error_word(OsErrorClass::InvalidHandle)
            },
        ),
        KernObjectFnId::Watch => if arg_0 > u32::MAX {
            (slots, spec_error_word(OsErrorClass::InvalidArgument))
        } else {
            (
                spec_watch(slots, raw_id, arg_0 as u32).0,
                spec_outcome_word(spec_watch(slots, raw_id, arg_0 as u32).1),
            )
        },
        _ => (slots, spec_error_word(OsErrorClass::IllegalOperation)),
    }
}

/// Whether every object of `slots` persists.
pub open spec fn slots_wf(slots: Seq<Option<KernObj>>) -> bool {
    &&& slots.len() < u32::MAX
    &&& forall|i: int| 0 <= i < slots.len() && (#[trigger] slots[i]) is Some ==> slots[i]->0.persists()
}

/// Kernel side table of the objects and of the references to them.
pub struct ObjTable {
    m_slots: Vec<Option<KernObj>>,
}

impl ObjTable {
    /// The slots of the table: the slot `n - 1` holds the object named by
    /// the raw identifier `n`, or nothing when that object was destroyed.
    pub closed spec fn view(&self) -> Seq<Option<KernObj>> {
        self.m_slots@
    }

    /// The invariant of the table: every object in it persists, and the
    /// raw identifiers fit 32 bits.
    pub open spec fn wf(&self) -> bool {
        slots_wf(self@)
    }

    /// The object which `raw_id` names, if it names one.
    pub open spec fn spec_obj(&self, raw_id: u32) -> Option<KernObj> {
        obj_of(self@, raw_id)
    }

    /// The count of the references to the object which `raw_id` names,
    /// zero when it names none.
    pub open spec fn spec_refs(&self, raw_id: u32) -> nat {
        match obj_of(self@, raw_id) {
            Some(obj) => obj.refs as nat,
            None => 0,
        }
    }

    /// Constructs a table without objects.
    pub fn new() -> (table: Self)
        ensures
            table.wf(),
            table@ == Seq::<Option<KernObj>>::empty(),
    {
        ObjTable { m_slots: Vec::new() }
    }

    /// Returns what the table keeps for the object named by `raw_id`.
    pub fn obj(&self, raw_id: u32) -> (obj: Option<KernObj>)
        ensures
            obj == self.spec_obj(raw_id),
    {
        if raw_id == 0 || raw_id as usize > self.m_slots.len() {
            None
        } else {
            self.m_slots[(raw_id - 1) as usize]
        }
    }

    /// Returns the count of the references to the object named by
    /// `raw_id`, zero when it names none.
    pub fn refs(&self, raw_id: u32) -> (refs: u32)
        ensures
            refs == self.spec_refs(raw_id),
    {
        match self.obj(raw_id) {
            Some(obj) => obj.refs,
            None => 0,
        }
    }

    /// Stores `obj` for the raw identifier `raw_id`, or destroys the
    /// object when `obj` does not persist.
    fn put(&mut self, raw_id: u32, obj: KernObj)
        requires
            old(self).wf(),
            old(self).spec_obj(raw_id) is Some,
        ensures
            final(self).wf(),
            final(self)@ == with_obj(old(self)@, raw_id, obj),
    {
        let index: usize = (raw_id - 1) as usize;
        let persists: bool = obj.refs > 0 || (obj.obj_type.is_permanent() && obj.named);
        if persists {
            self.m_slots.set(index, Some(obj));
        } else {
            self.m_slots.set(index, None);
        }
    }

    /// Creates an object of `obj_type` and returns its raw identifier,
    /// which was never given out before. The object has one reference,
    /// that of the handle of whom created it; it has a name when `named`
    /// is true and the type is permanent.
    pub fn create(&mut self, obj_type: ObjType, named: bool) -> (raw_id: Result<u32, OsErrorClass>)
        requires
            old(self).wf(),
        ensures
            final(self).wf(),
            match raw_id {
                Ok(raw_id) => {
                    &&& raw_id == old(self)@.len() + 1
                    &&& final(self)@ == old(self)@.push(
                        Some(
                            KernObj {
                                obj_type,
                                refs: 1,
                                named: named && obj_type.spec_is_permanent(),
                                watched: 0,
                            },
                        ),
                    )
                },
                Err(class) => {
                    &&& class == OsErrorClass::LimitReached
                    &&& old(self)@.len() + 1 >= u32::MAX
                    &&& final(self)@ == old(self)@
                },
            },
    {
        let len: usize = self.m_slots.len();
        if len >= 0xFFFF_FFFE {
            return Err(OsErrorClass::LimitReached);
        }
        let obj = KernObj {
            obj_type,
            refs: 1,
            named: named && obj_type.is_permanent(),
            watched: 0,
        };
        self.m_slots.push(Some(obj));
        Ok((len + 1) as u32)
    }

    /// Adds a reference to the object named by `raw_id`.
    pub fn add_ref(&mut self, raw_id: u32) -> (outcome: Result<(), OsErrorClass>)
        requires
            old(self).wf(),
        ensures
            final(self).wf(),
            (final(self)@, outcome) == spec_add_ref(old(self)@, raw_id),
    {
        match self.obj(raw_id) {
            None => Err(OsErrorClass::InvalidHandle),
            Some(obj) => {
                if obj.refs == u32::MAX {
                    Err(OsErrorClass::LimitReached)
                } else {
                    self.put(
                        raw_id,
                        KernObj {
                            obj_type: obj.obj_type,
                            refs: obj.refs + 1,
                            named: obj.named,
                            watched: obj.watched,
                        },
                    );
                    Ok(())
                }
            },
        }
    }

    /// Drops a reference to the object named by `raw_id`. An object
    /// without references is destroyed, unless it is a permanent one
    /// which still has a name.
    pub fn drop_ref(&mut self, raw_id: u32) -> (outcome: Result<(), OsErrorClass>)
        requires
            old(self).wf(),
        ensures
            final(self).wf(),
            (final(self)@, outcome) == spec_drop_ref(old(self)@, raw_id),
    {
        match self.obj(raw_id) {
            None => Err(OsErrorClass::InvalidHandle),
            Some(obj) => {
                if obj.refs == 0 {
                    Err(OsErrorClass::InvalidHandle)
                } else {
                    self.put(
                        raw_id,
                        KernObj {
                            obj_type: obj.obj_type,
                            refs: obj.refs - 1,
                            named: obj.named,
                            watched: obj.watched,
                        },
                    );
                    Ok(())
                }
            },
        }
    }

    /// Drops the name of the permanent object named by `raw_id`. The
    /// object goes on existing while it is referenced.
    pub fn drop_name(&mut self, raw_id: u32) -> (outcome: Result<(), OsErrorClass>)
        requires
            old(self).wf(),
        ensures
            final(self).wf(),
            (final(self)@, outcome) == spec_drop_name(old(self)@, raw_id),
    {
        match self.obj(raw_id) {
            None => Err(OsErrorClass::InvalidHandle),
            Some(obj) => {
                if !obj.obj_type.is_permanent() {
                    Err(OsErrorClass::IllegalOperation)
                } else {
                    self.put(
                        raw_id,
                        KernObj {
                            obj_type: obj.obj_type,
                            refs: obj.refs,
                            named: false,
                            watched: obj.watched,
                        },
                    );
                    Ok(())
                }
            },
        }
    }

    /// Returns whether `raw_id` names an object which exists.
    pub fn is_valid(&self, raw_id: u32) -> (valid: bool)
        ensures
            valid == (self.spec_obj(raw_id) is Some),
    {
        self.obj(raw_id).is_some()
    }

    /// Registers a watcher of the uses in `filter` on the object named by
    /// `raw_id`.
    pub fn watch(&mut self, raw_id: u32, filter: u32) -> (outcome: Result<(), OsErrorClass>)
        requires
            old(self).wf(),
        ensures
            final(self).wf(),
            (final(self)@, outcome) == spec_watch(old(self)@, raw_id, filter),
    {
        match self.obj(raw_id) {
            None => Err(OsErrorClass::InvalidHandle),
            Some(obj) => {
                if filter == 0 {
                    Err(OsErrorClass::InvalidArgument)
                } else if obj.watched & filter != 0 {
                    Err(OsErrorClass::AlreadyExists)
                } else {
                    self.put(
                        raw_id,
                        KernObj {
                            obj_type: obj.obj_type,
                            refs: obj.refs,
                            named: obj.named,
                            watched: obj.watched | filter,
                        },
                    );
                    Ok(())
                }
            },
        }
    }

    /// Takes note that the callback of the watcher of the uses in
    /// `filter` on the object named by `raw_id` has run and returned
    /// `rearm`.
    pub fn watch_fired(&mut self, raw_id: u32, filter: u32, rearm: bool)
        requires
            old(self).wf(),
        ensures
            final(self).wf(),
            final(self)@ == spec_watch_fired(old(self)@, raw_id, filter, rearm),
    {
        if rearm {
            return ;
        }
        match self.obj(raw_id) {
            None => {},
            Some(obj) => {
                self.put(
                    raw_id,
                    KernObj {
                        obj_type: obj.obj_type,
                        refs: obj.refs,
                        named: obj.named,
                        watched: obj.watched & !filter,
                    },
                );
            },
        }
    }

    /// Makes a second handle to the object of `id`: makes the call which
    /// `id` builds to add a reference, and reads its result word.
    ///
    /// For a handle whose object exists, and whose count of references
    /// is not at its limit, the count becomes one larger and the second
    /// handle has the raw identifier of the first; every other object
    /// stays as it is. For any other handle nothing changes and the
    /// class of the error is returned.
    pub fn clone_handle(&mut self, id: &ObjId) -> (second: Result<ObjId, OsErrorClass>)
        requires
            old(self).wf(),
        ensures
            final(self).wf(),
            final(self)@ == spec_add_ref(old(self)@, id@).0,
            match spec_add_ref(old(self)@, id@).1 {
                Ok(_) => second is Ok && second->Ok_0@ == id@,
                Err(class) => second == Err::<ObjId, OsErrorClass>(class),
            },
            old(self).spec_obj(id@) is Some && old(self).spec_refs(id@) < u32::MAX ==> {
                &&& second is Ok
                &&& final(self).spec_refs(id@) == old(self).spec_refs(id@) + 1
                &&& forall|other: u32|
                    other != id@ ==> final(self).spec_obj(other) == old(self).spec_obj(other)
            },
    {
        let call = id.add_ref();
        let result = self.kern_call(&call);
        proof {
            if old(self).spec_obj(id@) is Some && old(self).spec_refs(id@) < u32::MAX {
                lemma_add_ref_counts(old(self)@, id@);
            }
        }
        id.clone_done(result)
    }

    /// Gives the handle `id` up: asks whether it is valid and, when it
    /// is, makes the call which drops its reference. Returns how many
    /// kernel calls were made.
    ///
    /// The empty handle is given up without a call and nothing changes.
    /// A handle whose object is gone costs the question alone. For a
    /// handle whose object is referenced the count becomes one smaller,
    /// and the object is destroyed with its last reference unless it is
    /// a permanent one which still has a name.
    pub fn drop_handle(&mut self, id: ObjId) -> (calls: usize)
        requires
            old(self).wf(),
        ensures
            final(self).wf(),
            calls == if id@ == 0 {
                0usize
            } else if old(self).spec_obj(id@) is None {
                1usize
            } else {
                2usize
            },
            final(self)@ == if old(self).spec_obj(id@) is Some {
                spec_drop_ref(old(self)@, id@).0
            } else {
                old(self)@
            },
            old(self).spec_obj(id@) is Some && old(self).spec_refs(id@) > 0
                ==> final(self).spec_refs(id@) == old(self).spec_refs(id@) - 1,
    {
        let mut calls: usize = 0;
        let answer = match id.is_valid_query() {
            Some(query) => {
                calls = calls + 1;
                Some(self.kern_call(&query))
            },
            None => None,
        };
        proof {
            if old(self).spec_obj(id@) is Some && old(self).spec_refs(id@) > 0 {
                lemma_drop_ref_counts(old(self)@, id@);
            }
        }
        match id.release(answer) {
            Some(call) => {
                calls = calls + 1;
                let result = self.kern_call(&call);
            },
            None => {},
        }
        calls
    }

    /// Serves a kernel call and returns its result word.
    ///
    /// The table serves the calls of the `Object` class which add and drop
    /// a reference, drop the name, ask for validity and register a
    /// watcher. Every other call is answered with the error of the illegal
    /// operations and changes nothing.
    pub fn kern_call(&mut self, call: &KernCall) -> (word: isize)
        requires
            old(self).wf(),
        ensures
            final(self).wf(),
            match call.spec_fn_path() {
                KernFnPath::Object(fn_id) => (final(self)@, word) == spec_object_call(
                    old(self)@,
                    fn_id,
                    call.spec_handle_bits(),
                    if call.spec_args().len() > 0 {
                        call.spec_args()[0]
                    } else {
                        0
                    },
                ),
                _ => final(self)@ == old(self)@ && word == spec_error_word(
                    OsErrorClass::IllegalOperation,
                ),
            },
    {
        let raw_id: u32 = call.handle_bits();
        let arg_0: usize = call.arg(0);
        match call.fn_path() {
            KernFnPath::Object(fn_id) => {
                match fn_id {
                    KernObjectFnId::AddRef => outcome_word(self.add_ref(raw_id)),
                    KernObjectFnId::Drop => outcome_word(self.drop_ref(raw_id)),
                    KernObjectFnId::DropName => outcome_word(self.drop_name(raw_id)),
                    KernObjectFnId::IsValid => {
                        if self.is_valid(raw_id) {
                            0
                        } else {
                            error_word(OsErrorClass::InvalidHandle)
                        }
                    },
                    KernObjectFnId::Watch => {
                        if arg_0 > 0xFFFF_FFFF {
                            error_word(OsErrorClass::InvalidArgument)
                        } else {
                            outcome_word(self.watch(raw_id, arg_0 as u32))
                        }
                    },
                    _ => error_word(OsErrorClass::IllegalOperation),
                }
            },
            _ => error_word(OsErrorClass::IllegalOperation),
        }
    }
}

/// Returns the result word for the outcome of a call which returns no
/// value.
pub fn outcome_word(outcome: Result<(), OsErrorClass>) -> (word: isize)
    ensures
        word == spec_outcome_word(outcome),
{
    match outcome {
        Ok(_) => 0,
        Err(class) => error_word(class),
    }
}

/// Adding a reference to an object which exists, and whose count is not
/// at its limit, succeeds and makes the count one larger; every other
/// object stays as it is.
pub proof fn lemma_add_ref_counts(slots: Seq<Option<KernObj>>, raw_id: u32)
    requires
        slots_wf(slots),
        obj_of(slots, raw_id) is Some,
        obj_of(slots, raw_id)->0.refs < u32::MAX,
    ensures
        spec_add_ref(slots, raw_id).1 is Ok,
        slots_wf(spec_add_ref(slots, raw_id).0),
        obj_of(spec_add_ref(slots, raw_id).0, raw_id) is Some,
        obj_of(spec_add_ref(slots, raw_id).0, raw_id)->0.refs == obj_of(slots, raw_id)->0.refs + 1,
        forall|other: u32|
            other != raw_id ==> obj_of(spec_add_ref(slots, raw_id).0, other) == obj_of(
                slots,
                other,
            ),
{
}

/// Dropping a reference to an object which is referenced succeeds and
/// makes the count one smaller, or destroys the object when no reference
/// and no name is left; every other object stays as it is.
pub proof fn lemma_drop_ref_counts(slots: Seq<Option<KernObj>>, raw_id: u32)
    requires
        slots_wf(slots),
        obj_of(slots, raw_id) is Some,
        obj_of(slots, raw_id)->0.refs > 0,
    ensures
        spec_drop_ref(slots, raw_id).1 is Ok,
        slots_wf(spec_drop_ref(slots, raw_id).0),
        match obj_of(spec_drop_ref(slots, raw_id).0, raw_id) {
            Some(obj) => obj.refs == obj_of(slots, raw_id)->0.refs - 1,
            None => obj_of(slots, raw_id)->0.refs == 1 && !(obj_of(
                slots,
                raw_id,
            )->0.obj_type.spec_is_permanent() && obj_of(slots, raw_id)->0.named),
        },
        forall|other: u32|
            other != raw_id ==> obj_of(spec_drop_ref(slots, raw_id).0, other) == obj_of(
                slots,
                other,
            ),
{
}

/// The call which a valid handle makes for a second handle succeeds and
/// makes the count of the references to its object one larger: the
/// handle is valid when its object exists, and the count must not be at
/// its limit.
pub proof fn lemma_clone_adds_a_reference(slots: Seq<Option<KernObj>>, raw_id: u32)
    requires
        slots_wf(slots),
        obj_of(slots, raw_id) is Some,
        obj_of(slots, raw_id)->0.refs < u32::MAX,
    ensures
        spec_object_call(slots, KernObjectFnId::AddRef, raw_id, 0).1 == 0,
        obj_of(spec_object_call(slots, KernObjectFnId::AddRef, raw_id, 0).0, raw_id) is Some,
        obj_of(spec_object_call(slots, KernObjectFnId::AddRef, raw_id, 0).0, raw_id)->0.refs
            == obj_of(slots, raw_id)->0.refs + 1,
{
}

/// The call which a valid handle makes when it goes away succeeds and
/// makes the count of the references to its object one smaller; the
/// object is destroyed with its last reference unless it is a permanent
/// one which still has a name.
pub proof fn lemma_drop_removes_a_reference(slots: Seq<Option<KernObj>>, raw_id: u32)
    requires
        slots_wf(slots),
        obj_of(slots, raw_id) is Some,
        obj_of(slots, raw_id)->0.refs > 0,
    ensures
        spec_object_call(slots, KernObjectFnId::Drop, raw_id, 0).1 == 0,
        match obj_of(spec_object_call(slots, KernObjectFnId::Drop, raw_id, 0).0, raw_id) {
            Some(obj) => obj.refs == obj_of(slots, raw_id)->0.refs - 1,
            None => obj_of(slots, raw_id)->0.refs == 1,
        },
{
}

/// Dropping the reference which was just added leaves the table as it
/// was before the reference was added.
pub proof fn lemma_add_then_drop_ref(slots: Seq<Option<KernObj>>, raw_id: u32)
    requires
        slots_wf(slots),
        obj_of(slots, raw_id) is Some,
        obj_of(slots, raw_id)->0.refs < u32::MAX,
    ensures
        spec_drop_ref(spec_add_ref(slots, raw_id).0, raw_id).1 is Ok,
        spec_drop_ref(spec_add_ref(slots, raw_id).0, raw_id).0 == slots,
{
    let added = spec_add_ref(slots, raw_id).0;
    let back = spec_drop_ref(added, raw_id).0;
    assert(back =~= slots);
}

/// A call on the raw identifier zero, and on one which was never given
/// out, changes nothing.
pub proof fn lemma_unknown_id_changes_nothing(
    slots: Seq<Option<KernObj>>,
    fn_id: KernObjectFnId,
    raw_id: u32,
    arg_0: usize,
)
    requires
        obj_of(slots, raw_id) is None,
    ensures
        spec_object_call(slots, fn_id, raw_id, arg_0).0 == slots,
        spec_object_call(slots, fn_id, raw_id, arg_0).1 < 0,
{
}

/// An object which was destroyed is never brought back: no call of the
/// `Object` class makes its raw identifier name an object again.
pub proof fn lemma_destroyed_stays_destroyed(
    slots: Seq<Option<KernObj>>,
    fn_id: KernObjectFnId,
    raw_id: u32,
    arg_0: usize,
    destroyed: u32,
)
    requires
        obj_of(slots, destroyed) is None,
    ensures
        obj_of(spec_object_call(slots, fn_id, raw_id, arg_0).0, destroyed) is None,
{
}

/// A watcher whose filter shares a use with a registered watcher of the
/// same object is refused and nothing changes; one which shares none is
/// registered beside the others.
pub proof fn lemma_watch_overlap(slots: Seq<Option<KernObj>>, raw_id: u32, filter: u32)
    requires
        obj_of(slots, raw_id) is Some,
        filter != 0,
    ensures
        obj_of(slots, raw_id)->0.watched & filter != 0 ==> spec_watch(slots, raw_id, filter)
            == (slots, Err::<(), OsErrorClass>(OsErrorClass::AlreadyExists)),
        obj_of(slots, raw_id)->0.watched & filter == 0 ==> spec_watch(slots, raw_id, filter).1
            is Ok,
{
}

} // verus!
