//! Kernel function call paths.
use vstd::prelude::*;
use vstd::std_specs::convert::TryFromSpecImpl;
use crate::sys::codes::{
    KernDeviceFnId,
    KernDirFnId,
    KernFileFnId,
    KernIpcChanFnId,
    KernLinkFnId,
    KernMMapFnId,
    KernMutexFnId,
    KernObjConfigFnId,
    KernObjectFnId,
    KernOsEntConfigFnId,
    KernOsEntFnId,
    KernOsGroupFnId,
    KernOsUserFnId,
    KernPathFnId,
    KernProcFnId,
    KernTaskConfigFnId,
    KernTaskFnId,
    KernThreadFnId,
    KernTimeInstFnId,
    KrnIteratorFnId,
};

verus! {

/// Number of kernel call classes.
pub const KERN_FN_CLASS_COUNT: u16 = 20;

/// Lists the callable kernel function paths.
///
/// Each variant stands for a kernel call class, which is the primary key
/// of the kernel's routine table, and carries the code of the function
/// inside the class, which is the secondary key.
#[derive(Debug, Copy, Clone, PartialEq, Eq, Structural)]
pub enum KernFnPath {
    ObjConfig(KernObjConfigFnId),
    TaskConfig(KernTaskConfigFnId),
    OsEntConfig(KernOsEntConfigFnId),
    Object(KernObjectFnId),
    Task(KernTaskFnId),
    Device(KernDeviceFnId),
    Dir(KernDirFnId),
    File(KernFileFnId),
    IpcChan(KernIpcChanFnId),
    Iterator(KrnIteratorFnId),
    Link(KernLinkFnId),
    MMap(KernMMapFnId),
    Mutex(KernMutexFnId),
    TimeInst(KernTimeInstFnId),
    Path(KernPathFnId),
    OsEntity(KernOsEntFnId),
    OsUser(KernOsUserFnId),
    OsGroup(KernOsGroupFnId),
    Proc(KernProcFnId),
    Thread(KernThreadFnId),
}

impl KernFnPath {
    /// The raw number of the call class.
    pub open spec fn spec_raw_fn_class(self) -> u16 {
        match self {
            Self::ObjConfig(_) => 0,
            Self::TaskConfig(_) => 1,
            Self::OsEntConfig(_) => 2,
            Self::Object(_) => 3,
            Self::Task(_) => 4,
            Self::Device(_) => 5,
            Self::Dir(_) => 6,
            Self::File(_) => 7,
            Self::IpcChan(_) => 8,
            Self::Iterator(_) => 9,
            Self::Link(_) => 10,
            Self::MMap(_) => 11,
            Self::Mutex(_) => 12,
            Self::TimeInst(_) => 13,
            Self::Path(_) => 14,
            Self::OsEntity(_) => 15,
            Self::OsUser(_) => 16,
            Self::OsGroup(_) => 17,
            Self::Proc(_) => 18,
            Self::Thread(_) => 19,
        }
    }

    /// The raw code of the function inside its class.
    pub open spec fn spec_raw_fn_id(self) -> u16 {
        match self {
            Self::ObjConfig(fn_id) => fn_id.spec_raw(),
            Self::TaskConfig(fn_id) => fn_id.spec_raw(),
            Self::OsEntConfig(fn_id) => fn_id.spec_raw(),
            Self::Object(fn_id) => fn_id.spec_raw(),
            Self::Task(fn_id) => fn_id.spec_raw(),
            Self::Device(fn_id) => fn_id.spec_raw(),
            Self::Dir(fn_id) => fn_id.spec_raw(),
            Self::File(fn_id) => fn_id.spec_raw(),
            Self::IpcChan(fn_id) => fn_id.spec_raw(),
            Self::Iterator(fn_id) => fn_id.spec_raw(),
            Self::Link(fn_id) => fn_id.spec_raw(),
            Self::MMap(fn_id) => fn_id.spec_raw(),
            Self::Mutex(fn_id) => fn_id.spec_raw(),
            Self::TimeInst(fn_id) => fn_id.spec_raw(),
            Self::Path(fn_id) => fn_id.spec_raw(),
            Self::OsEntity(fn_id) => fn_id.spec_raw(),
            Self::OsUser(fn_id) => fn_id.spec_raw(),
            Self::OsGroup(fn_id) => fn_id.spec_raw(),
            Self::Proc(fn_id) => fn_id.spec_raw(),
            Self::Thread(fn_id) => fn_id.spec_raw(),
        }
    }

    /// The path which the pair `(class, fn_id)` stands for.
    ///
    /// The pair is an error when `class` is no class number, and when
    /// `fn_id` is no code of that class: a value above 16 bits is never a
    /// code.
    pub open spec fn spec_from_raw(class: usize, fn_id: usize) -> Result<KernFnPath, ()> {
        if fn_id > u16::MAX {
            Err(())
        } else if class == 0 {
            match KernObjConfigFnId::spec_from_raw(fn_id as u16) {
                Some(code) => Ok(Self::ObjConfig(code)),
                None => Err(()),
            }
        } else if class == 1 {
            match KernTaskConfigFnId::spec_from_raw(fn_id as u16) {
                Some(code) => Ok(Self::TaskConfig(code)),
                None => Err(()),
            }
        } else if class == 2 {
            match KernOsEntConfigFnId::spec_from_raw(fn_id as u16) {
                Some(code) => Ok(Self::OsEntConfig(code)),
                None => Err(()),
            }
        } else if class == 3 {
            match KernObjectFnId::spec_from_raw(fn_id as u16) {
                Some(code) => Ok(Self::Object(code)),
                None => Err(()),
            }
        } else if class == 4 {
            match KernTaskFnId::spec_from_raw(fn_id as u16) {
                Some(code) => Ok(Self::Task(code)),
                None => Err(()),
            }
        } else if class == 5 {
            match KernDeviceFnId::spec_from_raw(fn_id as u16) {
                Some(code) => Ok(Self::Device(code)),
                None => Err(()),
            }
        } else if class == 6 {
            match KernDirFnId::spec_from_raw(fn_id as u16) {
                Some(code) => Ok(Self::Dir(code)),
                None => Err(()),
            }
        } else if class == 7 {
            match KernFileFnId::spec_from_raw(fn_id as u16) {
                Some(code) => Ok(Self::File(code)),
                None => Err(()),
            }
        } else if class == 8 {
            match KernIpcChanFnId::spec_from_raw(fn_id as u16) {
                Some(code) => Ok(Self::IpcChan(code)),
                None => Err(()),
            }
        } else if class == 9 {
            match KrnIteratorFnId::spec_from_raw(fn_id as u16) {
                Some(code) => Ok(Self::Iterator(code)),
                None => Err(()),
            }
        } else if class == 10 {
            match KernLinkFnId::spec_from_raw(fn_id as u16) {
                Some(code) => Ok(Self::Link(code)),
                None => Err(()),
            }
        } else if class == 11 {
            match KernMMapFnId::spec_from_raw(fn_id as u16) {
                Some(code) => Ok(Self::MMap(code)),
                None => Err(()),
            }
        } else if class == 12 {
            match KernMutexFnId::spec_from_raw(fn_id as u16) {
                Some(code) => Ok(Self::Mutex(code)),
                None => Err(()),
            }
        } else if class == 13 {
            match KernTimeInstFnId::spec_from_raw(fn_id as u16) {
                Some(code) => Ok(Self::TimeInst(code)),
                None => Err(()),
            }
        } else if class == 14 {
            match KernPathFnId::spec_from_raw(fn_id as u16) {
                Some(code) => Ok(Self::Path(code)),
                None => Err(()),
            }
        } else if class == 15 {
            match KernOsEntFnId::spec_from_raw(fn_id as u16) {
                Some(code) => Ok(Self::OsEntity(code)),
                None => Err(()),
            }
        } else if class == 16 {
            match KernOsUserFnId::spec_from_raw(fn_id as u16) {
                Some(code) => Ok(Self::OsUser(code)),
                None => Err(()),
            }
        } else if class == 17 {
            match KernOsGroupFnId::spec_from_raw(fn_id as u16) {
                Some(code) => Ok(Self::OsGroup(code)),
                None => Err(()),
            }
        } else if class == 18 {
            match KernProcFnId::spec_from_raw(fn_id as u16) {
                Some(code) => Ok(Self::Proc(code)),
                None => Err(()),
            }
        } else if class == 19 {
            match KernThreadFnId::spec_from_raw(fn_id as u16) {
                Some(code) => Ok(Self::Thread(code)),
                None => Err(()),
            }
        } else {
            Err(())
        }
    }

    /// Returns the name of the current function class, as it is printed.
    pub fn class_name(&self) -> (name: &'static str)
        ensures
            name@ == match *self {
                Self::ObjConfig(_) => "KernFnPath::ObjConfig"@,
                Self::TaskConfig(_) => "KernFnPath::TaskConfig"@,
                Self::OsEntConfig(_) => "KernFnPath::OSEntConfig"@,
                Self::Object(_) => "KernFnPath::Object"@,
                Self::Task(_) => "KernFnPath::Task"@,
                Self::Device(_) => "KernFnPath::Device"@,
                Self::Dir(_) => "KernFnPath::Dir"@,
                Self::File(_) => "KernFnPath::File"@,
                Self::IpcChan(_) => "KernFnPath::IpcChan"@,
                Self::Iterator(_) => "KernFnPath::Iterator"@,
                Self::Link(_) => "KernFnPath::Link"@,
                Self::MMap(_) => "KernFnPath::MMap"@,
                Self::Mutex(_) => "KernFnPath::Mutex"@,
                Self::TimeInst(_) => "KernFnPath::Time"@,
                Self::Path(_) => "KernFnPath::Path"@,
                Self::OsEntity(_) => "KernFnPath::OSEntity"@,
                Self::OsUser(_) => "KernFnPath::OSUser"@,
                Self::OsGroup(_) => "KernFnPath::OSGroup"@,
                Self::Proc(_) => "KernFnPath::Proc"@,
                Self::Thread(_) => "KernFnPath::Thread"@,
            },
    {
        match self {
            Self::ObjConfig(_) => "KernFnPath::ObjConfig",
            Self::TaskConfig(_) => "KernFnPath::TaskConfig",
            Self::OsEntConfig(_) => "KernFnPath::OSEntConfig",
            Self::Object(_) => "KernFnPath::Object",
            Self::Task(_) => "KernFnPath::Task",
            Self::Device(_) => "KernFnPath::Device",
            Self::Dir(_) => "KernFnPath::Dir",
            Self::File(_) => "KernFnPath::File",
            Self::IpcChan(_) => "KernFnPath::IpcChan",
            Self::Iterator(_) => "KernFnPath::Iterator",
            Self::Link(_) => "KernFnPath::Link",
            Self::MMap(_) => "KernFnPath::MMap",
            Self::Mutex(_) => "KernFnPath::Mutex",
            Self::TimeInst(_) => "KernFnPath::Time",
            Self::Path(_) => "KernFnPath::Path",
            Self::OsEntity(_) => "KernFnPath::OSEntity",
            Self::OsUser(_) => "KernFnPath::OSUser",
            Self::OsGroup(_) => "KernFnPath::OSGroup",
            Self::Proc(_) => "KernFnPath::Proc",
            Self::Thread(_) => "KernFnPath::Thread",
        }
    }

    /// Returns the current function class as `u16`.
    pub fn raw_fn_class(&self) -> (class: u16)
        ensures
            class == self.spec_raw_fn_class(),
            class < KERN_FN_CLASS_COUNT,
    {
        match self {
            Self::ObjConfig(_) => 0,
            Self::TaskConfig(_) => 1,
            Self::OsEntConfig(_) => 2,
            Self::Object(_) => 3,
            Self::Task(_) => 4,
            Self::Device(_) => 5,
            Self::Dir(_) => 6,
            Self::File(_) => 7,
            Self::IpcChan(_) => 8,
            Self::Iterator(_) => 9,
            Self::Link(_) => 10,
            Self::MMap(_) => 11,
            Self::Mutex(_) => 12,
            Self::TimeInst(_) => 13,
            Self::Path(_) => 14,
            Self::OsEntity(_) => 15,
            Self::OsUser(_) => 16,
            Self::OsGroup(_) => 17,
            Self::Proc(_) => 18,
            Self::Thread(_) => 19,
        }
    }

    /// Returns the current function id as `u16`.
    pub fn raw_fn_id(&self) -> (fn_id: u16)
        ensures
            fn_id == self.spec_raw_fn_id(),
    {
        match *self {
            Self::ObjConfig(fn_id) => fn_id.as_raw(),
            Self::TaskConfig(fn_id) => fn_id.as_raw(),
            Self::OsEntConfig(fn_id) => fn_id.as_raw(),
            Self::Object(fn_id) => fn_id.as_raw(),
            Self::Task(fn_id) => fn_id.as_raw(),
            Self::Device(fn_id) => fn_id.as_raw(),
            Self::Dir(fn_id) => fn_id.as_raw(),
            Self::File(fn_id) => fn_id.as_raw(),
            Self::IpcChan(fn_id) => fn_id.as_raw(),
            Self::Iterator(fn_id) => fn_id.as_raw(),
            Self::Link(fn_id) => fn_id.as_raw(),
            Self::MMap(fn_id) => fn_id.as_raw(),
            Self::Mutex(fn_id) => fn_id.as_raw(),
            Self::TimeInst(fn_id) => fn_id.as_raw(),
            Self::Path(fn_id) => fn_id.as_raw(),
            Self::OsEntity(fn_id) => fn_id.as_raw(),
            Self::OsUser(fn_id) => fn_id.as_raw(),
            Self::OsGroup(fn_id) => fn_id.as_raw(),
            Self::Proc(fn_id) => fn_id.as_raw(),
            Self::Thread(fn_id) => fn_id.as_raw(),
        }
    }
}

impl TryFrom<(usize, usize)> for KernFnPath {
    type Error = ();

    /// Rebuilds the path from the pair of the raw class number and the raw
    /// function code. A pair which names no declared function is an
    /// error.
    fn try_from(value: (usize, usize)) -> (path: Result<Self, ()>) {
        let (variant, value) = value;
        if value > 0xFFFF {
            return Err(());
        }
        let raw: u16 = value as u16;
        match variant {
            0 => {
                if let Some(fn_id) = KernObjConfigFnId::from_raw(raw) {
                    Ok(Self::ObjConfig(fn_id))
                } else {
                    Err(())
                }
            },
            1 => {
                if let Some(fn_id) = KernTaskConfigFnId::from_raw(raw) {
                    Ok(Self::TaskConfig(fn_id))
                } else {
                    Err(())
                }
            },
            2 => {
                if let Some(fn_id) = KernOsEntConfigFnId::from_raw(raw) {
                    Ok(Self::OsEntConfig(fn_id))
                } else {
                    Err(())
                }
            },
            3 => {
                if let Some(fn_id) = KernObjectFnId::from_raw(raw) {
                    Ok(Self::Object(fn_id))
                } else {
                    Err(())
                }
            },
            4 => {
                if let Some(fn_id) = KernTaskFnId::from_raw(raw) {
                    Ok(Self::Task(fn_id))
                } else {
                    Err(())
                }
            },
            5 => {
                if let Some(fn_id) = KernDeviceFnId::from_raw(raw) {
                    Ok(Self::Device(fn_id))
                } else {
                    Err(())
                }
            },
            6 => {
                if let Some(fn_id) = KernDirFnId::from_raw(raw) {
                    Ok(Self::Dir(fn_id))
                } else {
                    Err(())
                }
            },
            7 => {
                if let Some(fn_id) = KernFileFnId::from_raw(raw) {
                    Ok(Self::File(fn_id))
                } else {
                    Err(())
                }
            },
            8 => {
                if let Some(fn_id) = KernIpcChanFnId::from_raw(raw) {
                    Ok(Self::IpcChan(fn_id))
                } else {
                    Err(())
                }
            },
            9 => {
                if let Some(fn_id) = KrnIteratorFnId::from_raw(raw) {
                    Ok(Self::Iterator(fn_id))
                } else {
                    Err(())
                }
            },
            10 => {
                if let Some(fn_id) = KernLinkFnId::from_raw(raw) {
                    Ok(Self::Link(fn_id))
                } else {
                    Err(())
                }
            },
            11 => {
                if let Some(fn_id) = KernMMapFnId::from_raw(raw) {
                    Ok(Self::MMap(fn_id))
                } else {
                    Err(())
                }
            },
            12 => {
                if let Some(fn_id) = KernMutexFnId::from_raw(raw) {
                    Ok(Self::Mutex(fn_id))
                } else {
                    Err(())
                }
            },
            13 => {
                if let Some(fn_id) = KernTimeInstFnId::from_raw(raw) {
                    Ok(Self::TimeInst(fn_id))
                } else {
                    Err(())
                }
            },
            14 => {
                if let Some(fn_id) = KernPathFnId::from_raw(raw) {
                    Ok(Self::Path(fn_id))
                } else {
                    Err(())
                }
            },
            15 => {
                if let Some(fn_id) = KernOsEntFnId::from_raw(raw) {
                    Ok(Self::OsEntity(fn_id))
                } else {
                    Err(())
                }
            },
            16 => {
                if let Some(fn_id) = KernOsUserFnId::from_raw(raw) {
                    Ok(Self::OsUser(fn_id))
                } else {
                    Err(())
                }
            },
            17 => {
                if let Some(fn_id) = KernOsGroupFnId::from_raw(raw) {
                    Ok(Self::OsGroup(fn_id))
                } else {
                    Err(())
                }
            },
            18 => {
                if let Some(fn_id) = KernProcFnId::from_raw(raw) {
                    Ok(Self::Proc(fn_id))
                } else {
                    Err(())
                }
            },
            19 => {
                if let Some(fn_id) = KernThreadFnId::from_raw(raw) {
                    Ok(Self::Thread(fn_id))
                } else {
                    Err(())
                }
            },
            _ => Err(()),
        }
    }
}

impl TryFromSpecImpl<(usize, usize)> for KernFnPath {
    open spec fn obeys_try_from_spec() -> bool {
        true
    }

    open spec fn try_from_spec(value: (usize, usize)) -> Result<Self, ()> {
        Self::spec_from_raw(value.0, value.1)
    }
}

/// Every path is rebuilt from its raw class number and its raw function
/// code.
pub proof fn lemma_fn_path_round_trip(path: KernFnPath)
    ensures
        KernFnPath::spec_from_raw(
            path.spec_raw_fn_class() as usize,
            path.spec_raw_fn_id() as usize,
        ) == Ok::<KernFnPath, ()>(path),
{
}

/// A pair is accepted only when it is the raw class number and the raw
/// function code of the path it gives: every other pair is an error.
pub proof fn lemma_fn_path_accepts_declared_only(class: usize, fn_id: usize)
    ensures
        KernFnPath::spec_from_raw(class, fn_id) matches Ok(path) ==> path.spec_raw_fn_class()
            == class && path.spec_raw_fn_id() == fn_id,
        KernFnPath::spec_from_raw(class, fn_id) is Err <==> forall|path: KernFnPath|
            !(path.spec_raw_fn_class() == class && path.spec_raw_fn_id() == fn_id),
{
    if KernFnPath::spec_from_raw(class, fn_id) is Err {
        assert forall|path: KernFnPath|
            !(path.spec_raw_fn_class() == class && path.spec_raw_fn_id() == fn_id) by {
            if path.spec_raw_fn_class() == class && path.spec_raw_fn_id() == fn_id {
                lemma_fn_path_round_trip(path);
            }
        }
    } else {
        let path = KernFnPath::spec_from_raw(class, fn_id)->Ok_0;
        assert(path.spec_raw_fn_class() == class && path.spec_raw_fn_id() == fn_id);
    }
}

/// Two paths with the same raw class number and the same raw function
/// code are the same path.
pub proof fn lemma_fn_path_raw_injective(first: KernFnPath, second: KernFnPath)
    requires
        first.spec_raw_fn_class() == second.spec_raw_fn_class(),
        first.spec_raw_fn_id() == second.spec_raw_fn_id(),
    ensures
        first == second,
{
    lemma_fn_path_round_trip(first);
    lemma_fn_path_round_trip(second);
}

} // verus!
