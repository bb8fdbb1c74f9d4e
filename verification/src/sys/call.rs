//! Kernel calls.
//!
//! A kernel call is carried by the number of its class, the code of its
//! function, the handle of the instance it is made on and up to six word
//! sized arguments. The kernel answers with a signed result word: a
//! negative word reports an error, any other word is the value of the
//! call. This module builds the calls and reads the answers; the trap
//! into the kernel is made by whom owns the call.
use vstd::prelude::*;
use crate::error::class::OsErrorClass;
use crate::limit::SYSCALL_ARGS_COUNT_MAX;
use crate::sys::fn_path::KernFnPath;

verus! {

/// The 64 bit identifier of the kernel call made on the handle
/// `handle_bits` for the function `fn_id` of the class `fn_class`: the
/// handle in the upper 32 bits, then the class, then the function code.
pub open spec fn spec_raw_call_id(handle_bits: u32, fn_class: u16, fn_id: u16) -> u64 {
    ((handle_bits as u64) << 32) | ((fn_class as u64) << 16) | (fn_id as u64)
}

/// The handle which the identifier `raw_id` carries.
pub open spec fn spec_call_id_handle(raw_id: u64) -> u32 {
    (raw_id >> 32) as u32
}

/// The class number which the identifier `raw_id` carries.
pub open spec fn spec_call_id_class(raw_id: u64) -> u16 {
    ((raw_id >> 16) & 0xFFFF) as u16
}

/// The function code which the identifier `raw_id` carries.
pub open spec fn spec_call_id_fn(raw_id: u64) -> u16 {
    (raw_id & 0xFFFF) as u16
}

/// What the result word `raw` of a kernel call stands for: the value of
/// the call when it is not negative, else the class of the error whose
/// raw code is its magnitude.
pub open spec fn spec_call_result(raw: isize) -> Result<usize, OsErrorClass> {
    if raw >= 0 {
        Ok(raw as usize)
    } else {
        Err(OsErrorClass::spec_from_raw((-raw) as usize))
    }
}

/// The result word with which a kernel call reports an error of `class`.
pub open spec fn spec_error_word(class: OsErrorClass) -> isize {
    (-class.spec_raw()) as isize
}

/// A kernel call which is ready to be made.
#[derive(Debug)]
pub struct KernCall {
    m_fn_path: KernFnPath,
    m_handle_bits: u32,
    m_args: Vec<usize>,
}

impl KernCall {
    /// The path of the function which is called.
    pub closed spec fn spec_fn_path(&self) -> KernFnPath {
        self.m_fn_path
    }

    /// The handle of the instance the call is made on, zero when the call
    /// is made on no instance.
    pub closed spec fn spec_handle_bits(&self) -> u32 {
        self.m_handle_bits
    }

    /// The arguments of the call.
    pub closed spec fn spec_args(&self) -> Seq<usize> {
        self.m_args@
    }

    #[verifier::type_invariant]
    spec fn within_args_limit(self) -> bool {
        self.m_args.len() <= SYSCALL_ARGS_COUNT_MAX
    }

    /// Whether the call is for `fn_path`, on `handle_bits`, with `args`.
    pub open spec fn is(&self, fn_path: KernFnPath, handle_bits: u32, args: Seq<usize>) -> bool {
        &&& self.spec_fn_path() == fn_path
        &&& self.spec_handle_bits() == handle_bits
        &&& self.spec_args() =~= args
    }

    /// Builds the call of `fn_path` on the instance `handle_bits` with the
    /// given arguments. Returns `None` when the arguments are more than
    /// the kernel accepts.
    pub fn new(fn_path: KernFnPath, handle_bits: u32, args: Vec<usize>) -> (call: Option<KernCall>)
        ensures
            call is Some <==> args.len() <= SYSCALL_ARGS_COUNT_MAX,
            call is Some ==> call->0.is(fn_path, handle_bits, args@),
    {
        if args.len() > SYSCALL_ARGS_COUNT_MAX {
            None
        } else {
            Some(KernCall { m_fn_path: fn_path, m_handle_bits: handle_bits, m_args: args })
        }
    }

    /// Builds the call of `fn_path` on the instance `handle_bits` without
    /// arguments.
    pub fn with_no_args(fn_path: KernFnPath, handle_bits: u32) -> (call: KernCall)
        ensures
            call.is(fn_path, handle_bits, seq![]),
    {
        KernCall { m_fn_path: fn_path, m_handle_bits: handle_bits, m_args: Vec::new() }
    }

    /// Builds the call of `fn_path` on the instance `handle_bits` with one
    /// argument.
    pub fn with_1_arg(fn_path: KernFnPath, handle_bits: u32, arg_0: usize) -> (call: KernCall)
        ensures
            call.is(fn_path, handle_bits, seq![arg_0]),
    {
        let args = vec![arg_0];
        KernCall { m_fn_path: fn_path, m_handle_bits: handle_bits, m_args: args }
    }

    /// Builds the call of `fn_path` on the instance `handle_bits` with two
    /// arguments.
    pub fn with_2_args(fn_path: KernFnPath, handle_bits: u32, arg_0: usize, arg_1: usize) -> (call:
        KernCall)
        ensures
            call.is(fn_path, handle_bits, seq![arg_0, arg_1]),
    {
        let args = vec![arg_0, arg_1];
        KernCall { m_fn_path: fn_path, m_handle_bits: handle_bits, m_args: args }
    }

    /// Builds the call of `fn_path` on the instance `handle_bits` with
    /// three arguments.
    pub fn with_3_args(
        fn_path: KernFnPath,
        handle_bits: u32,
        arg_0: usize,
        arg_1: usize,
        arg_2: usize,
    ) -> (call: KernCall)
        ensures
            call.is(fn_path, handle_bits, seq![arg_0, arg_1, arg_2]),
    {
        let args = vec![arg_0, arg_1, arg_2];
        KernCall { m_fn_path: fn_path, m_handle_bits: handle_bits, m_args: args }
    }

    /// Builds the call of `fn_path` on the instance `handle_bits` with
    /// four arguments.
    pub fn with_4_args(
        fn_path: KernFnPath,
        handle_bits: u32,
        arg_0: usize,
        arg_1: usize,
        arg_2: usize,
        arg_3: usize,
    ) -> (call: KernCall)
        ensures
            call.is(fn_path, handle_bits, seq![arg_0, arg_1, arg_2, arg_3]),
    {
        let args = vec![arg_0, arg_1, arg_2, arg_3];
        KernCall { m_fn_path: fn_path, m_handle_bits: handle_bits, m_args: args }
    }

    /// Returns the path of the function which is called.
    pub fn fn_path(&self) -> (fn_path: KernFnPath)
        ensures
            fn_path == self.spec_fn_path(),
    {
        self.m_fn_path
    }

    /// Returns the handle of the instance the call is made on.
    pub fn handle_bits(&self) -> (handle_bits: u32)
        ensures
            handle_bits == self.spec_handle_bits(),
    {
        self.m_handle_bits
    }

    /// Returns the amount of the arguments, which is six at most.
    pub fn args_count(&self) -> (count: usize)
        ensures
            count == self.spec_args().len(),
            count <= SYSCALL_ARGS_COUNT_MAX,
    {
        proof {
            use_type_invariant(self);
        }
        self.m_args.len()
    }

    /// Returns the argument `index` of the call, zero when the call has no
    /// such argument: the kernel reads the unused argument words as
    /// zero.
    pub fn arg(&self, index: usize) -> (arg: usize)
        ensures
            arg == if index < self.spec_args().len() {
                self.spec_args()[index as int]
            } else {
                0
            },
    {
        if index < self.m_args.len() {
            self.m_args[index]
        } else {
            0
        }
    }

    /// Returns the 64 bit identifier of the call: the handle in the upper
    /// 32 bits, then the class number, then the function code.
    pub fn raw_id(&self) -> (raw_id: u64)
        ensures
            raw_id == spec_raw_call_id(
                self.spec_handle_bits(),
                self.spec_fn_path().spec_raw_fn_class(),
                self.spec_fn_path().spec_raw_fn_id(),
            ),
    {
        let handle: u64 = self.m_handle_bits as u64;
        let class: u64 = self.m_fn_path.raw_fn_class() as u64;
        let fn_id: u64 = self.m_fn_path.raw_fn_id() as u64;
        (handle << 32) | (class << 16) | fn_id
    }

    /// Rebuilds the call from its 64 bit identifier and its arguments.
    ///
    /// Fails when the identifier names no declared function, and when the
    /// arguments are more than the kernel accepts.
    pub fn from_raw(raw_id: u64, args: Vec<usize>) -> (call: Result<KernCall, ()>)
        ensures
            call is Ok <==> args.len() <= SYSCALL_ARGS_COUNT_MAX && KernFnPath::spec_from_raw(
                spec_call_id_class(raw_id) as usize,
                spec_call_id_fn(raw_id) as usize,
            ) is Ok,
            call is Ok ==> call->Ok_0.is(
                KernFnPath::spec_from_raw(
                    spec_call_id_class(raw_id) as usize,
                    spec_call_id_fn(raw_id) as usize,
                )->Ok_0,
                spec_call_id_handle(raw_id),
                args@,
            ),
    {
        if args.len() > SYSCALL_ARGS_COUNT_MAX {
            return Err(());
        }
        let (handle_bits, fn_class, fn_id) = split_raw_call_id(raw_id);
        match KernFnPath::try_from((fn_class as usize, fn_id as usize)) {
            Ok(fn_path) => Ok(
                KernCall { m_fn_path: fn_path, m_handle_bits: handle_bits, m_args: args },
            ),
            Err(_) => Err(()),
        }
    }
}

/// Splits the 64 bit identifier of a kernel call into the handle, the
/// class number and the function code.
pub fn split_raw_call_id(raw_id: u64) -> (parts: (u32, u16, u16))
    ensures
        parts.0 == spec_call_id_handle(raw_id),
        parts.1 == spec_call_id_class(raw_id),
        parts.2 == spec_call_id_fn(raw_id),
{
    let handle: u64 = raw_id >> 32;
    let class: u64 = (raw_id >> 16) & 0xFFFF;
    let fn_id: u64 = raw_id & 0xFFFF;
    assert(raw_id >> 32 <= 0xFFFF_FFFF) by (bit_vector);
    assert((raw_id >> 16) & 0xFFFF <= 0xFFFF) by (bit_vector);
    assert(raw_id & 0xFFFF <= 0xFFFF) by (bit_vector);
    (handle as u32, class as u16, fn_id as u16)
}

/// Reads the result word of a kernel call: the value of the call when the
/// word is not negative, else the class of the error.
pub fn read_call_result(raw: isize) -> (result: Result<usize, OsErrorClass>)
    ensures
        result == spec_call_result(raw),
{
    if raw >= 0 {
        Ok(raw as usize)
    } else if raw == isize::MIN {
        assert(OsErrorClass::spec_from_raw((-raw) as usize) == OsErrorClass::Unknown);
        Err(OsErrorClass::Unknown)
    } else {
        let code: isize = -raw;
        Err(OsErrorClass::from_raw(code as usize))
    }
}

/// Returns the result word with which a kernel call reports an error of
/// `class`.
pub fn error_word(class: OsErrorClass) -> (raw: isize)
    ensures
        raw == spec_error_word(class),
        class != OsErrorClass::Unknown ==> raw < 0 && spec_call_result(raw) == Err::<
            usize,
            OsErrorClass,
        >(class),
{
    let code: usize = class.as_raw();
    let word: isize = code as isize;
    0 - word
}

/// The handle, the class number and the function code are read back
/// from the identifier built from them.
pub proof fn lemma_raw_call_id_round_trip(handle_bits: u32, fn_class: u16, fn_id: u16)
    ensures
        spec_call_id_handle(spec_raw_call_id(handle_bits, fn_class, fn_id)) == handle_bits,
        spec_call_id_class(spec_raw_call_id(handle_bits, fn_class, fn_id)) == fn_class,
        spec_call_id_fn(spec_raw_call_id(handle_bits, fn_class, fn_id)) == fn_id,
{
    let raw_id = spec_raw_call_id(handle_bits, fn_class, fn_id);
    assert((((handle_bits as u64) << 32) | ((fn_class as u64) << 16) | (fn_id as u64)) >> 32
        == handle_bits as u64) by (bit_vector);
    assert(((((handle_bits as u64) << 32) | ((fn_class as u64) << 16) | (fn_id as u64)) >> 16)
        & 0xFFFF == fn_class as u64) by (bit_vector);
    assert((((handle_bits as u64) << 32) | ((fn_class as u64) << 16) | (fn_id as u64)) & 0xFFFF
        == fn_id as u64) by (bit_vector);
}

/// An identifier is built again from the handle, the class number and the
/// function code it carries.
pub proof fn lemma_raw_call_id_rebuilt(raw_id: u64)
    ensures
        spec_raw_call_id(
            spec_call_id_handle(raw_id),
            spec_call_id_class(raw_id),
            spec_call_id_fn(raw_id),
        ) == raw_id,
{
    assert(raw_id >> 32 <= 0xFFFF_FFFF) by (bit_vector);
    assert((raw_id >> 16) & 0xFFFF <= 0xFFFF) by (bit_vector);
    assert(raw_id & 0xFFFF <= 0xFFFF) by (bit_vector);
    assert((((raw_id >> 32) << 32) | (((raw_id >> 16) & 0xFFFF) << 16) | (raw_id & 0xFFFF))
        == raw_id) by (bit_vector);
}

/// A value which fits the positive half of the result words is read back
/// from its word as the value of the call.
pub proof fn lemma_value_word_round_trip(value: usize)
    requires
        value <= isize::MAX,
    ensures
        spec_call_result(value as isize) == Ok::<usize, OsErrorClass>(value),
{
}

} // verus!
