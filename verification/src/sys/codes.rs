//! Kernel function call codes.
//!
//! Each enumeration lists the functions of one call class. The raw code
//! of a function is its position in the list, starting from zero: the
//! kernel indexes its routine tables with it, so the order is part of the
//! binary interface.
use vstd::prelude::*;

verus! {

/// Lists the system call codes for the kernel handle.
#[derive(Debug, Clone, Copy, PartialEq, Eq, Structural, PartialOrd, Ord)]
pub enum KernHandleFnId {
    IsValid,
    Drop,
}

impl KernHandleFnId {
    /// Number of codes of the class.
    pub const COUNT: u16 = 2;

    /// The raw code of the function.
    pub open spec fn spec_raw(self) -> u16 {
        match self {
            Self::IsValid => 0,
            Self::Drop => 1,
        }
    }

    /// The function for the raw code, if the class has one for it.
    pub open spec fn spec_from_raw(raw: u16) -> Option<Self> {
        if raw == 0 {
            Some(Self::IsValid)
        } else if raw == 1 {
            Some(Self::Drop)
        } else {
            None
        }
    }

    /// Returns the raw code of the function.
    pub fn as_raw(self) -> (raw: u16)
        ensures
            raw == self.spec_raw(),
            raw < Self::COUNT,
    {
        match self {
            Self::IsValid => 0,
            Self::Drop => 1,
        }
    }

    /// Returns the function for the raw code, `None` when the code names
    /// no function of the class.
    pub fn from_raw(raw: u16) -> (fn_id: Option<Self>)
        ensures
            fn_id == Self::spec_from_raw(raw),
            fn_id is Some <==> raw < Self::COUNT,
            fn_id is Some ==> fn_id->0.spec_raw() == raw,
    {
        match raw {
            0 => Some(Self::IsValid),
            1 => Some(Self::Drop),
            _ => None,
        }
    }
}

/// Lists the system call codes for the object configuration.
#[derive(Debug, Clone, Copy, PartialEq, Eq, Structural, PartialOrd, Ord)]
pub enum KernObjConfigFnId {
    ApplyConfig,
}

impl KernObjConfigFnId {
    /// Number of codes of the class.
    pub const COUNT: u16 = 1;

    /// The raw code of the function.
    pub open spec fn spec_raw(self) -> u16 {
        match self {
            Self::ApplyConfig => 0,
        }
    }

    /// The function for the raw code, if the class has one for it.
    pub open spec fn spec_from_raw(raw: u16) -> Option<Self> {
        if raw == 0 {
            Some(Self::ApplyConfig)
        } else {
            None
        }
    }

    /// Returns the raw code of the function.
    pub fn as_raw(self) -> (raw: u16)
        ensures
            raw == self.spec_raw(),
            raw < Self::COUNT,
    {
        match self {
            Self::ApplyConfig => 0,
        }
    }

    /// Returns the function for the raw code, `None` when the code names
    /// no function of the class.
    pub fn from_raw(raw: u16) -> (fn_id: Option<Self>)
        ensures
            fn_id == Self::spec_from_raw(raw),
            fn_id is Some <==> raw < Self::COUNT,
            fn_id is Some ==> fn_id->0.spec_raw() == raw,
    {
        match raw {
            0 => Some(Self::ApplyConfig),
            _ => None,
        }
    }
}

/// Lists the system call codes for the task configuration.
#[derive(Debug, Clone, Copy, PartialEq, Eq, Structural, PartialOrd, Ord)]
pub enum KernTaskConfigFnId {
    CreateTask,
    InitFind,
}

impl KernTaskConfigFnId {
    /// Number of codes of the class.
    pub const COUNT: u16 = 2;

    /// The raw code of the function.
    pub open spec fn spec_raw(self) -> u16 {
        match self {
            Self::CreateTask => 0,
            Self::InitFind => 1,
        }
    }

    /// The function for the raw code, if the class has one for it.
    pub open spec fn spec_from_raw(raw: u16) -> Option<Self> {
        if raw == 0 {
            Some(Self::CreateTask)
        } else if raw == 1 {
            Some(Self::InitFind)
        } else {
            None
        }
    }

    /// Returns the raw code of the function.
    pub fn as_raw(self) -> (raw: u16)
        ensures
            raw == self.spec_raw(),
            raw < Self::COUNT,
    {
        match self {
            Self::CreateTask => 0,
            Self::InitFind => 1,
        }
    }

    /// Returns the function for the raw code, `None` when the code names
    /// no function of the class.
    pub fn from_raw(raw: u16) -> (fn_id: Option<Self>)
        ensures
            fn_id == Self::spec_from_raw(raw),
            fn_id is Some <==> raw < Self::COUNT,
            fn_id is Some ==> fn_id->0.spec_raw() == raw,
    {
        match raw {
            0 => Some(Self::CreateTask),
            1 => Some(Self::InitFind),
            _ => None,
        }
    }
}

/// Lists the system call codes for the OS entity configuration.
#[derive(Debug, Clone, Copy, PartialEq, Eq, Structural, PartialOrd, Ord)]
pub enum KernOsEntConfigFnId {
    CreateEntity,
    InitFind,
}

impl KernOsEntConfigFnId {
    /// Number of codes of the class.
    pub const COUNT: u16 = 2;

    /// The raw code of the function.
    pub open spec fn spec_raw(self) -> u16 {
        match self {
            Self::CreateEntity => 0,
            Self::InitFind => 1,
        }
    }

    /// The function for the raw code, if the class has one for it.
    pub open spec fn spec_from_raw(raw: u16) -> Option<Self> {
        if raw == 0 {
            Some(Self::CreateEntity)
        } else if raw == 1 {
            Some(Self::InitFind)
        } else {
            None
        }
    }

    /// Returns the raw code of the function.
    pub fn as_raw(self) -> (raw: u16)
        ensures
            raw == self.spec_raw(),
            raw < Self::COUNT,
    {
        match self {
            Self::CreateEntity => 0,
            Self::InitFind => 1,
        }
    }

    /// Returns the function for the raw code, `None` when the code names
    /// no function of the class.
    pub fn from_raw(raw: u16) -> (fn_id: Option<Self>)
        ensures
            fn_id == Self::spec_from_raw(raw),
            fn_id is Some <==> raw < Self::COUNT,
            fn_id is Some ==> fn_id->0.spec_raw() == raw,
    {
        match raw {
            0 => Some(Self::CreateEntity),
            1 => Some(Self::InitFind),
            _ => None,
        }
    }
}

/// Lists the system call codes common to every object.
#[derive(Debug, Clone, Copy, PartialEq, Eq, Structural, PartialOrd, Ord)]
pub enum KernObjectFnId {
    AddRef,
    DropName,
    Info,
    UpdateInfo,
    Send,
    Recv,
    Watch,
    IsValid,
    Drop,
}

impl KernObjectFnId {
    /// Number of codes of the class.
    pub const COUNT: u16 = 9;

    /// The raw code of the function.
    pub open spec fn spec_raw(self) -> u16 {
        match self {
            Self::AddRef => 0,
            Self::DropName => 1,
            Self::Info => 2,
            Self::UpdateInfo => 3,
            Self::Send => 4,
            Self::Recv => 5,
            Self::Watch => 6,
            Self::IsValid => 7,
            Self::Drop => 8,
        }
    }

    /// The function for the raw code, if the class has one for it.
    pub open spec fn spec_from_raw(raw: u16) -> Option<Self> {
        if raw == 0 {
            Some(Self::AddRef)
        } else if raw == 1 {
            Some(Self::DropName)
        } else if raw == 2 {
            Some(Self::Info)
        } else if raw == 3 {
            Some(Self::UpdateInfo)
        } else if raw == 4 {
            Some(Self::Send)
        } else if raw == 5 {
            Some(Self::Recv)
        } else if raw == 6 {
            Some(Self::Watch)
        } else if raw == 7 {
            Some(Self::IsValid)
        } else if raw == 8 {
            Some(Self::Drop)
        } else {
            None
        }
    }

    /// Returns the raw code of the function.
    pub fn as_raw(self) -> (raw: u16)
        ensures
            raw == self.spec_raw(),
            raw < Self::COUNT,
    {
        match self {
            Self::AddRef => 0,
            Self::DropName => 1,
            Self::Info => 2,
            Self::UpdateInfo => 3,
            Self::Send => 4,
            Self::Recv => 5,
            Self::Watch => 6,
            Self::IsValid => 7,
            Self::Drop => 8,
        }
    }

    /// Returns the function for the raw code, `None` when the code names
    /// no function of the class.
    pub fn from_raw(raw: u16) -> (fn_id: Option<Self>)
        ensures
            fn_id == Self::spec_from_raw(raw),
            fn_id is Some <==> raw < Self::COUNT,
            fn_id is Some ==> fn_id->0.spec_raw() == raw,
    {
        match raw {
            0 => Some(Self::AddRef),
            1 => Some(Self::DropName),
            2 => Some(Self::Info),
            3 => Some(Self::UpdateInfo),
            4 => Some(Self::Send),
            5 => Some(Self::Recv),
            6 => Some(Self::Watch),
            7 => Some(Self::IsValid),
            8 => Some(Self::Drop),
            _ => None,
        }
    }
}

/// Lists the system call codes common to every task.
#[derive(Debug, Clone, Copy, PartialEq, Eq, Structural, PartialOrd, Ord)]
pub enum KernTaskFnId {
    This,
    Terminate,
    Yield,
    IsAlive,
}

impl KernTaskFnId {
    /// Number of codes of the class.
    pub const COUNT: u16 = 4;

    /// The raw code of the function.
    pub open spec fn spec_raw(self) -> u16 {
        match self {
            Self::This => 0,
            Self::Terminate => 1,
            Self::Yield => 2,
            Self::IsAlive => 3,
        }
    }

    /// The function for the raw code, if the class has one for it.
    pub open spec fn spec_from_raw(raw: u16) -> Option<Self> {
        if raw == 0 {
            Some(Self::This)
        } else if raw == 1 {
            Some(Self::Terminate)
        } else if raw == 2 {
            Some(Self::Yield)
        } else if raw == 3 {
            Some(Self::IsAlive)
        } else {
            None
        }
    }

    /// Returns the raw code of the function.
    pub fn as_raw(self) -> (raw: u16)
        ensures
            raw == self.spec_raw(),
            raw < Self::COUNT,
    {
        match self {
            Self::This => 0,
            Self::Terminate => 1,
            Self::Yield => 2,
            Self::IsAlive => 3,
        }
    }

    /// Returns the function for the raw code, `None` when the code names
    /// no function of the class.
    pub fn from_raw(raw: u16) -> (fn_id: Option<Self>)
        ensures
            fn_id == Self::spec_from_raw(raw),
            fn_id is Some <==> raw < Self::COUNT,
            fn_id is Some ==> fn_id->0.spec_raw() == raw,
    {
        match raw {
            0 => Some(Self::This),
            1 => Some(Self::Terminate),
            2 => Some(Self::Yield),
            3 => Some(Self::IsAlive),
            _ => None,
        }
    }
}

/// Lists the system call codes for the devices.
#[derive(Debug, Clone, Copy, PartialEq, Eq, Structural, PartialOrd, Ord)]
pub enum KernDeviceFnId {
    Read,
    Write,
    SetPos,
    MapToMem,
    IOSetup,
}

impl KernDeviceFnId {
    /// Number of codes of the class.
    pub const COUNT: u16 = 5;

    /// The raw code of the function.
    pub open spec fn spec_raw(self) -> u16 {
        match self {
            Self::Read => 0,
            Self::Write => 1,
            Self::SetPos => 2,
            Self::MapToMem => 3,
            Self::IOSetup => 4,
        }
    }

    /// The function for the raw code, if the class has one for it.
    pub open spec fn spec_from_raw(raw: u16) -> Option<Self> {
        if raw == 0 {
            Some(Self::Read)
        } else if raw == 1 {
            Some(Self::Write)
        } else if raw == 2 {
            Some(Self::SetPos)
        } else if raw == 3 {
            Some(Self::MapToMem)
        } else if raw == 4 {
            Some(Self::IOSetup)
        } else {
            None
        }
    }

    /// Returns the raw code of the function.
    pub fn as_raw(self) -> (raw: u16)
        ensures
            raw == self.spec_raw(),
            raw < Self::COUNT,
    {
        match self {
            Self::Read => 0,
            Self::Write => 1,
            Self::SetPos => 2,
            Self::MapToMem => 3,
            Self::IOSetup => 4,
        }
    }

    /// Returns the function for the raw code, `None` when the code names
    /// no function of the class.
    pub fn from_raw(raw: u16) -> (fn_id: Option<Self>)
        ensures
            fn_id == Self::spec_from_raw(raw),
            fn_id is Some <==> raw < Self::COUNT,
            fn_id is Some ==> fn_id->0.spec_raw() == raw,
    {
        match raw {
            0 => Some(Self::Read),
            1 => Some(Self::Write),
            2 => Some(Self::SetPos),
            3 => Some(Self::MapToMem),
            4 => Some(Self::IOSetup),
            _ => None,
        }
    }
}

/// Lists the system call codes for the directories.
#[derive(Debug, Clone, Copy, PartialEq, Eq, Structural, PartialOrd, Ord)]
pub enum KernDirFnId {
    InitIter,
}

impl KernDirFnId {
    /// Number of codes of the class.
    pub const COUNT: u16 = 1;

    /// The raw code of the function.
    pub open spec fn spec_raw(self) -> u16 {
        match self {
            Self::InitIter => 0,
        }
    }

    /// The function for the raw code, if the class has one for it.
    pub open spec fn spec_from_raw(raw: u16) -> Option<Self> {
        if raw == 0 {
            Some(Self::InitIter)
        } else {
            None
        }
    }

    /// Returns the raw code of the function.
    pub fn as_raw(self) -> (raw: u16)
        ensures
            raw == self.spec_raw(),
            raw < Self::COUNT,
    {
        match self {
            Self::InitIter => 0,
        }
    }

    /// Returns the function for the raw code, `None` when the code names
    /// no function of the class.
    pub fn from_raw(raw: u16) -> (fn_id: Option<Self>)
        ensures
            fn_id == Self::spec_from_raw(raw),
            fn_id is Some <==> raw < Self::COUNT,
            fn_id is Some ==> fn_id->0.spec_raw() == raw,
    {
        match raw {
            0 => Some(Self::InitIter),
            _ => None,
        }
    }
}

/// Lists the system call codes for the files.
#[derive(Debug, Clone, Copy, PartialEq, Eq, Structural, PartialOrd, Ord)]
pub enum KernFileFnId {
    ReadData,
    WriteData,
    Copy,
    Move,
    SetPos,
    MapToMem,
}

impl KernFileFnId {
    /// Number of codes of the class.
    pub const COUNT: u16 = 6;

    /// The raw code of the function.
    pub open spec fn spec_raw(self) -> u16 {
        match self {
            Self::ReadData => 0,
            Self::WriteData => 1,
            Self::Copy => 2,
            Self::Move => 3,
            Self::SetPos => 4,
            Self::MapToMem => 5,
        }
    }

    /// The function for the raw code, if the class has one for it.
    pub open spec fn spec_from_raw(raw: u16) -> Option<Self> {
        if raw == 0 {
            Some(Self::ReadData)
        } else if raw == 1 {
            Some(Self::WriteData)
        } else if raw == 2 {
            Some(Self::Copy)
        } else if raw == 3 {
            Some(Self::Move)
        } else if raw == 4 {
            Some(Self::SetPos)
        } else if raw == 5 {
            Some(Self::MapToMem)
        } else {
            None
        }
    }

    /// Returns the raw code of the function.
    pub fn as_raw(self) -> (raw: u16)
        ensures
            raw == self.spec_raw(),
            raw < Self::COUNT,
    {
        match self {
            Self::ReadData => 0,
            Self::WriteData => 1,
            Self::Copy => 2,
            Self::Move => 3,
            Self::SetPos => 4,
            Self::MapToMem => 5,
        }
    }

    /// Returns the function for the raw code, `None` when the code names
    /// no function of the class.
    pub fn from_raw(raw: u16) -> (fn_id: Option<Self>)
        ensures
            fn_id == Self::spec_from_raw(raw),
            fn_id is Some <==> raw < Self::COUNT,
            fn_id is Some ==> fn_id->0.spec_raw() == raw,
    {
        match raw {
            0 => Some(Self::ReadData),
            1 => Some(Self::WriteData),
            2 => Some(Self::Copy),
            3 => Some(Self::Move),
            4 => Some(Self::SetPos),
            5 => Some(Self::MapToMem),
            _ => None,
        }
    }
}

/// Lists the system call codes for the IPC channels.
#[derive(Debug, Clone, Copy, PartialEq, Eq, Structural, PartialOrd, Ord)]
pub enum KernIpcChanFnId {
    Send,
    Recv,
}

impl KernIpcChanFnId {
    /// Number of codes of the class.
    pub const COUNT: u16 = 2;

    /// The raw code of the function.
    pub open spec fn spec_raw(self) -> u16 {
        match self {
            Self::Send => 0,
            Self::Recv => 1,
        }
    }

    /// The function for the raw code, if the class has one for it.
    pub open spec fn spec_from_raw(raw: u16) -> Option<Self> {
        if raw == 0 {
            Some(Self::Send)
        } else if raw == 1 {
            Some(Self::Recv)
        } else {
            None
        }
    }

    /// Returns the raw code of the function.
    pub fn as_raw(self) -> (raw: u16)
        ensures
            raw == self.spec_raw(),
            raw < Self::COUNT,
    {
        match self {
            Self::Send => 0,
            Self::Recv => 1,
        }
    }

    /// Returns the function for the raw code, `None` when the code names
    /// no function of the class.
    pub fn from_raw(raw: u16) -> (fn_id: Option<Self>)
        ensures
            fn_id == Self::spec_from_raw(raw),
            fn_id is Some <==> raw < Self::COUNT,
            fn_id is Some ==> fn_id->0.spec_raw() == raw,
    {
        match raw {
            0 => Some(Self::Send),
            1 => Some(Self::Recv),
            _ => None,
        }
    }
}

/// Lists the system call codes for the kernel iterators.
#[derive(Debug, Clone, Copy, PartialEq, Eq, Structural, PartialOrd, Ord)]
pub enum KrnIteratorFnId {
    NextValue,
    SetBeginToEndPos,
    SetEndToBeginPos,
}

impl KrnIteratorFnId {
    /// Number of codes of the class.
    pub const COUNT: u16 = 3;

    /// The raw code of the function.
    pub open spec fn spec_raw(self) -> u16 {
        match self {
            Self::NextValue => 0,
            Self::SetBeginToEndPos => 1,
            Self::SetEndToBeginPos => 2,
        }
    }

    /// The function for the raw code, if the class has one for it.
    pub open spec fn spec_from_raw(raw: u16) -> Option<Self> {
        if raw == 0 {
            Some(Self::NextValue)
        } else if raw == 1 {
            Some(Self::SetBeginToEndPos)
        } else if raw == 2 {
            Some(Self::SetEndToBeginPos)
        } else {
            None
        }
    }

    /// Returns the raw code of the function.
    pub fn as_raw(self) -> (raw: u16)
        ensures
            raw == self.spec_raw(),
            raw < Self::COUNT,
    {
        match self {
            Self::NextValue => 0,
            Self::SetBeginToEndPos => 1,
            Self::SetEndToBeginPos => 2,
        }
    }

    /// Returns the function for the raw code, `None` when the code names
    /// no function of the class.
    pub fn from_raw(raw: u16) -> (fn_id: Option<Self>)
        ensures
            fn_id == Self::spec_from_raw(raw),
            fn_id is Some <==> raw < Self::COUNT,
            fn_id is Some ==> fn_id->0.spec_raw() == raw,
    {
        match raw {
            0 => Some(Self::NextValue),
            1 => Some(Self::SetBeginToEndPos),
            2 => Some(Self::SetEndToBeginPos),
            _ => None,
        }
    }
}

/// Lists the system call codes for the links.
#[derive(Debug, Clone, Copy, PartialEq, Eq, Structural, PartialOrd, Ord)]
pub enum KernLinkFnId {
    Deref,
    ReferTo,
}

impl KernLinkFnId {
    /// Number of codes of the class.
    pub const COUNT: u16 = 2;

    /// The raw code of the function.
    pub open spec fn spec_raw(self) -> u16 {
        match self {
            Self::Deref => 0,
            Self::ReferTo => 1,
        }
    }

    /// The function for the raw code, if the class has one for it.
    pub open spec fn spec_from_raw(raw: u16) -> Option<Self> {
        if raw == 0 {
            Some(Self::Deref)
        } else if raw == 1 {
            Some(Self::ReferTo)
        } else {
            None
        }
    }

    /// Returns the raw code of the function.
    pub fn as_raw(self) -> (raw: u16)
        ensures
            raw == self.spec_raw(),
            raw < Self::COUNT,
    {
        match self {
            Self::Deref => 0,
            Self::ReferTo => 1,
        }
    }

    /// Returns the function for the raw code, `None` when the code names
    /// no function of the class.
    pub fn from_raw(raw: u16) -> (fn_id: Option<Self>)
        ensures
            fn_id == Self::spec_from_raw(raw),
            fn_id is Some <==> raw < Self::COUNT,
            fn_id is Some ==> fn_id->0.spec_raw() == raw,
    {
        match raw {
            0 => Some(Self::Deref),
            1 => Some(Self::ReferTo),
            _ => None,
        }
    }
}

/// Lists the system call codes for the memory mappings.
#[derive(Debug, Clone, Copy, PartialEq, Eq, Structural, PartialOrd, Ord)]
pub enum KernMMapFnId {
    GetPtr,
    DropPtr,
    IsFile,
    IsDevice,
}

impl KernMMapFnId {
    /// Number of codes of the class.
    pub const COUNT: u16 = 4;

    /// The raw code of the function.
    pub open spec fn spec_raw(self) -> u16 {
        match self {
            Self::GetPtr => 0,
            Self::DropPtr => 1,
            Self::IsFile => 2,
            Self::IsDevice => 3,
        }
    }

    /// The function for the raw code, if the class has one for it.
    pub open spec fn spec_from_raw(raw: u16) -> Option<Self> {
        if raw == 0 {
            Some(Self::GetPtr)
        } else if raw == 1 {
            Some(Self::DropPtr)
        } else if raw == 2 {
            Some(Self::IsFile)
        } else if raw == 3 {
            Some(Self::IsDevice)
        } else {
            None
        }
    }

    /// Returns the raw code of the function.
    pub fn as_raw(self) -> (raw: u16)
        ensures
            raw == self.spec_raw(),
            raw < Self::COUNT,
    {
        match self {
            Self::GetPtr => 0,
            Self::DropPtr => 1,
            Self::IsFile => 2,
            Self::IsDevice => 3,
        }
    }

    /// Returns the function for the raw code, `None` when the code names
    /// no function of the class.
    pub fn from_raw(raw: u16) -> (fn_id: Option<Self>)
        ensures
            fn_id == Self::spec_from_raw(raw),
            fn_id is Some <==> raw < Self::COUNT,
            fn_id is Some ==> fn_id->0.spec_raw() == raw,
    {
        match raw {
            0 => Some(Self::GetPtr),
            1 => Some(Self::DropPtr),
            2 => Some(Self::IsFile),
            3 => Some(Self::IsDevice),
            _ => None,
        }
    }
}

/// Lists the system call codes for the mutexes.
#[derive(Debug, Clone, Copy, PartialEq, Eq, Structural, PartialOrd, Ord)]
pub enum KernMutexFnId {
    Lock,
    TryLock,
    Unlock,
    IsLocked,
}

impl KernMutexFnId {
    /// Number of codes of the class.
    pub const COUNT: u16 = 4;

    /// The raw code of the function.
    pub open spec fn spec_raw(self) -> u16 {
        match self {
            Self::Lock => 0,
            Self::TryLock => 1,
            Self::Unlock => 2,
            Self::IsLocked => 3,
        }
    }

    /// The function for the raw code, if the class has one for it.
    pub open spec fn spec_from_raw(raw: u16) -> Option<Self> {
        if raw == 0 {
            Some(Self::Lock)
        } else if raw == 1 {
            Some(Self::TryLock)
        } else if raw == 2 {
            Some(Self::Unlock)
        } else if raw == 3 {
            Some(Self::IsLocked)
        } else {
            None
        }
    }

    /// Returns the raw code of the function.
    pub fn as_raw(self) -> (raw: u16)
        ensures
            raw == self.spec_raw(),
            raw < Self::COUNT,
    {
        match self {
            Self::Lock => 0,
            Self::TryLock => 1,
            Self::Unlock => 2,
            Self::IsLocked => 3,
        }
    }

    /// Returns the function for the raw code, `None` when the code names
    /// no function of the class.
    pub fn from_raw(raw: u16) -> (fn_id: Option<Self>)
        ensures
            fn_id == Self::spec_from_raw(raw),
            fn_id is Some <==> raw < Self::COUNT,
            fn_id is Some ==> fn_id->0.spec_raw() == raw,
    {
        match raw {
            0 => Some(Self::Lock),
            1 => Some(Self::TryLock),
            2 => Some(Self::Unlock),
            3 => Some(Self::IsLocked),
            _ => None,
        }
    }
}

/// Lists the system call codes for the time instants.
#[derive(Debug, Clone, Copy, PartialEq, Eq, Structural, PartialOrd, Ord)]
pub enum KernTimeInstFnId {
    Now,
}

impl KernTimeInstFnId {
    /// Number of codes of the class.
    pub const COUNT: u16 = 1;

    /// The raw code of the function.
    pub open spec fn spec_raw(self) -> u16 {
        match self {
            Self::Now => 0,
        }
    }

    /// The function for the raw code, if the class has one for it.
    pub open spec fn spec_from_raw(raw: u16) -> Option<Self> {
        if raw == 0 {
            Some(Self::Now)
        } else {
            None
        }
    }

    /// Returns the raw code of the function.
    pub fn as_raw(self) -> (raw: u16)
        ensures
            raw == self.spec_raw(),
            raw < Self::COUNT,
    {
        match self {
            Self::Now => 0,
        }
    }

    /// Returns the function for the raw code, `None` when the code names
    /// no function of the class.
    pub fn from_raw(raw: u16) -> (fn_id: Option<Self>)
        ensures
            fn_id == Self::spec_from_raw(raw),
            fn_id is Some <==> raw < Self::COUNT,
            fn_id is Some ==> fn_id->0.spec_raw() == raw,
    {
        match raw {
            0 => Some(Self::Now),
            _ => None,
        }
    }
}

/// Lists the system call codes for the paths.
#[derive(Debug, Clone, Copy, PartialEq, Eq, Structural, PartialOrd, Ord)]
pub enum KernPathFnId {
    Exists,
}

impl KernPathFnId {
    /// Number of codes of the class.
    pub const COUNT: u16 = 1;

    /// The raw code of the function.
    pub open spec fn spec_raw(self) -> u16 {
        match self {
            Self::Exists => 0,
        }
    }

    /// The function for the raw code, if the class has one for it.
    pub open spec fn spec_from_raw(raw: u16) -> Option<Self> {
        if raw == 0 {
            Some(Self::Exists)
        } else {
            None
        }
    }

    /// Returns the raw code of the function.
    pub fn as_raw(self) -> (raw: u16)
        ensures
            raw == self.spec_raw(),
            raw < Self::COUNT,
    {
        match self {
            Self::Exists => 0,
        }
    }

    /// Returns the function for the raw code, `None` when the code names
    /// no function of the class.
    pub fn from_raw(raw: u16) -> (fn_id: Option<Self>)
        ensures
            fn_id == Self::spec_from_raw(raw),
            fn_id is Some <==> raw < Self::COUNT,
            fn_id is Some ==> fn_id->0.spec_raw() == raw,
    {
        match raw {
            0 => Some(Self::Exists),
            _ => None,
        }
    }
}

/// Lists the system call codes common to every OS entity.
#[derive(Debug, Clone, Copy, PartialEq, Eq, Structural, PartialOrd, Ord)]
pub enum KernOsEntFnId {
    Name,
}

impl KernOsEntFnId {
    /// Number of codes of the class.
    pub const COUNT: u16 = 1;

    /// The raw code of the function.
    pub open spec fn spec_raw(self) -> u16 {
        match self {
            Self::Name => 0,
        }
    }

    /// The function for the raw code, if the class has one for it.
    pub open spec fn spec_from_raw(raw: u16) -> Option<Self> {
        if raw == 0 {
            Some(Self::Name)
        } else {
            None
        }
    }

    /// Returns the raw code of the function.
    pub fn as_raw(self) -> (raw: u16)
        ensures
            raw == self.spec_raw(),
            raw < Self::COUNT,
    {
        match self {
            Self::Name => 0,
        }
    }

    /// Returns the function for the raw code, `None` when the code names
    /// no function of the class.
    pub fn from_raw(raw: u16) -> (fn_id: Option<Self>)
        ensures
            fn_id == Self::spec_from_raw(raw),
            fn_id is Some <==> raw < Self::COUNT,
            fn_id is Some ==> fn_id->0.spec_raw() == raw,
    {
        match raw {
            0 => Some(Self::Name),
            _ => None,
        }
    }
}

/// Lists the system call codes for the OS users.
#[derive(Debug, Clone, Copy, PartialEq, Eq, Structural, PartialOrd, Ord)]
pub enum KernOsUserFnId {
    Groups,
}

impl KernOsUserFnId {
    /// Number of codes of the class.
    pub const COUNT: u16 = 1;

    /// The raw code of the function.
    pub open spec fn spec_raw(self) -> u16 {
        match self {
            Self::Groups => 0,
        }
    }

    /// The function for the raw code, if the class has one for it.
    pub open spec fn spec_from_raw(raw: u16) -> Option<Self> {
        if raw == 0 {
            Some(Self::Groups)
        } else {
            None
        }
    }

    /// Returns the raw code of the function.
    pub fn as_raw(self) -> (raw: u16)
        ensures
            raw == self.spec_raw(),
            raw < Self::COUNT,
    {
        match self {
            Self::Groups => 0,
        }
    }

    /// Returns the function for the raw code, `None` when the code names
    /// no function of the class.
    pub fn from_raw(raw: u16) -> (fn_id: Option<Self>)
        ensures
            fn_id == Self::spec_from_raw(raw),
            fn_id is Some <==> raw < Self::COUNT,
            fn_id is Some ==> fn_id->0.spec_raw() == raw,
    {
        match raw {
            0 => Some(Self::Groups),
            _ => None,
        }
    }
}

/// Lists the system call codes for the OS groups.
#[derive(Debug, Clone, Copy, PartialEq, Eq, Structural, PartialOrd, Ord)]
pub enum KernOsGroupFnId {
    AddUser,
}

impl KernOsGroupFnId {
    /// Number of codes of the class.
    pub const COUNT: u16 = 1;

    /// The raw code of the function.
    pub open spec fn spec_raw(self) -> u16 {
        match self {
            Self::AddUser => 0,
        }
    }

    /// The function for the raw code, if the class has one for it.
    pub open spec fn spec_from_raw(raw: u16) -> Option<Self> {
        if raw == 0 {
            Some(Self::AddUser)
        } else {
            None
        }
    }

    /// Returns the raw code of the function.
    pub fn as_raw(self) -> (raw: u16)
        ensures
            raw == self.spec_raw(),
            raw < Self::COUNT,
    {
        match self {
            Self::AddUser => 0,
        }
    }

    /// Returns the function for the raw code, `None` when the code names
    /// no function of the class.
    pub fn from_raw(raw: u16) -> (fn_id: Option<Self>)
        ensures
            fn_id == Self::spec_from_raw(raw),
            fn_id is Some <==> raw < Self::COUNT,
            fn_id is Some ==> fn_id->0.spec_raw() == raw,
    {
        match raw {
            0 => Some(Self::AddUser),
            _ => None,
        }
    }
}

/// Lists the system call codes for the processes.
#[derive(Debug, Clone, Copy, PartialEq, Eq, Structural, PartialOrd, Ord)]
pub enum KernProcFnId {
    MainThread,
    Mount,
    UnMount,
}

impl KernProcFnId {
    /// Number of codes of the class.
    pub const COUNT: u16 = 3;

    /// The raw code of the function.
    pub open spec fn spec_raw(self) -> u16 {
        match self {
            Self::MainThread => 0,
            Self::Mount => 1,
            Self::UnMount => 2,
        }
    }

    /// The function for the raw code, if the class has one for it.
    pub open spec fn spec_from_raw(raw: u16) -> Option<Self> {
        if raw == 0 {
            Some(Self::MainThread)
        } else if raw == 1 {
            Some(Self::Mount)
        } else if raw == 2 {
            Some(Self::UnMount)
        } else {
            None
        }
    }

    /// Returns the raw code of the function.
    pub fn as_raw(self) -> (raw: u16)
        ensures
            raw == self.spec_raw(),
            raw < Self::COUNT,
    {
        match self {
            Self::MainThread => 0,
            Self::Mount => 1,
            Self::UnMount => 2,
        }
    }

    /// Returns the function for the raw code, `None` when the code names
    /// no function of the class.
    pub fn from_raw(raw: u16) -> (fn_id: Option<Self>)
        ensures
            fn_id == Self::spec_from_raw(raw),
            fn_id is Some <==> raw < Self::COUNT,
            fn_id is Some ==> fn_id->0.spec_raw() == raw,
    {
        match raw {
            0 => Some(Self::MainThread),
            1 => Some(Self::Mount),
            2 => Some(Self::UnMount),
            _ => None,
        }
    }
}

/// Lists the system call codes for the threads.
#[derive(Debug, Clone, Copy, PartialEq, Eq, Structural, PartialOrd, Ord)]
pub enum KernThreadFnId {
    WaitFor,
    AddCleaner,
    CallbackReturn,
    GetEntryData,
}

impl KernThreadFnId {
    /// Number of codes of the class.
    pub const COUNT: u16 = 4;

    /// The raw code of the function.
    pub open spec fn spec_raw(self) -> u16 {
        match self {
            Self::WaitFor => 0,
            Self::AddCleaner => 1,
            Self::CallbackReturn => 2,
            Self::GetEntryData => 3,
        }
    }

    /// The function for the raw code, if the class has one for it.
    pub open spec fn spec_from_raw(raw: u16) -> Option<Self> {
        if raw == 0 {
            Some(Self::WaitFor)
        } else if raw == 1 {
            Some(Self::AddCleaner)
        } else if raw == 2 {
            Some(Self::CallbackReturn)
        } else if raw == 3 {
            Some(Self::GetEntryData)
        } else {
            None
        }
    }

    /// Returns the raw code of the function.
    pub fn as_raw(self) -> (raw: u16)
        ensures
            raw == self.spec_raw(),
            raw < Self::COUNT,
    {
        match self {
            Self::WaitFor => 0,
            Self::AddCleaner => 1,
            Self::CallbackReturn => 2,
            Self::GetEntryData => 3,
        }
    }

    /// Returns the function for the raw code, `None` when the code names
    /// no function of the class.
    pub fn from_raw(raw: u16) -> (fn_id: Option<Self>)
        ensures
            fn_id == Self::spec_from_raw(raw),
            fn_id is Some <==> raw < Self::COUNT,
            fn_id is Some ==> fn_id->0.spec_raw() == raw,
    {
        match raw {
            0 => Some(Self::WaitFor),
            1 => Some(Self::AddCleaner),
            2 => Some(Self::CallbackReturn),
            3 => Some(Self::GetEntryData),
            _ => None,
        }
    }
}

} // verus!
