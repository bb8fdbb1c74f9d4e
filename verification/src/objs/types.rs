//! `Object` types.
use vstd::prelude::*;

verus! {

/// Lists the available object types represented by an `ObjId`.
#[derive(Debug, Clone, Copy, PartialEq, Eq, Structural, PartialOrd, Ord)]
pub enum ObjType {
    /// No real uses, used as default value.
    Unknown,
    /// Identifies a file.
    File,
    /// Identifies a directory.
    Dir,
    /// Identifies a link.
    Link,
    /// Identifies a memory mapping.
    MMap,
    /// Identifies an IPC channel.
    IpcChan,
    /// Identifies a mutex.
    OsRawMutex,
    /// Identifies a kernel iterator.
    KrnIterator,
}

impl ObjType {
    /// Number of the object types.
    pub const COUNT: usize = 8;

    /// The raw code of the type.
    pub open spec fn spec_raw(self) -> usize {
        match self {
            Self::Unknown => 0,
            Self::File => 1,
            Self::Dir => 2,
            Self::Link => 3,
            Self::MMap => 4,
            Self::IpcChan => 5,
            Self::OsRawMutex => 6,
            Self::KrnIterator => 7,
        }
    }

    /// The type for the raw code, if there is one for it.
    pub open spec fn spec_from_raw(raw: usize) -> Option<Self> {
        if raw == 0 {
            Some(Self::Unknown)
        } else if raw == 1 {
            Some(Self::File)
        } else if raw == 2 {
            Some(Self::Dir)
        } else if raw == 3 {
            Some(Self::Link)
        } else if raw == 4 {
            Some(Self::MMap)
        } else if raw == 5 {
            Some(Self::IpcChan)
        } else if raw == 6 {
            Some(Self::OsRawMutex)
        } else if raw == 7 {
            Some(Self::KrnIterator)
        } else {
            None
        }
    }

    /// Whether the objects of the type are permanent: they persist until
    /// their name is dropped, also while nothing references them. The
    /// objects of the other types live only while they are referenced.
    pub open spec fn spec_is_permanent(self) -> bool {
        self == Self::File || self == Self::Dir || self == Self::Link || self == Self::OsRawMutex
    }

    /// Returns the raw code of the type.
    pub fn as_raw(self) -> (raw: usize)
        ensures
            raw == self.spec_raw(),
            raw < Self::COUNT,
    {
        match self {
            Self::Unknown => 0,
            Self::File => 1,
            Self::Dir => 2,
            Self::Link => 3,
            Self::MMap => 4,
            Self::IpcChan => 5,
            Self::OsRawMutex => 6,
            Self::KrnIterator => 7,
        }
    }

    /// Returns the type for the raw code, `None` when the code names no
    /// type.
    pub fn from_raw(raw: usize) -> (obj_type: Option<Self>)
        ensures
            obj_type == Self::spec_from_raw(raw),
            obj_type is Some <==> raw < Self::COUNT,
            obj_type is Some ==> obj_type->0.spec_raw() == raw,
    {
        match raw {
            0 => Some(Self::Unknown),
            1 => Some(Self::File),
            2 => Some(Self::Dir),
            3 => Some(Self::Link),
            4 => Some(Self::MMap),
            5 => Some(Self::IpcChan),
            6 => Some(Self::OsRawMutex),
            7 => Some(Self::KrnIterator),
            _ => None,
        }
    }

    /// Returns whether the objects of the type are permanent.
    pub fn is_permanent(self) -> (permanent: bool)
        ensures
            permanent == self.spec_is_permanent(),
    {
        match self {
            Self::File | Self::Dir | Self::Link | Self::OsRawMutex => true,
            _ => false,
        }
    }

    /// Returns the name of the type.
    pub fn name(self) -> (name: &'static str)
        ensures
            name@ == match self {
                Self::Unknown => "Unknown"@,
                Self::File => "File"@,
                Self::Dir => "Dir"@,
                Self::Link => "Link"@,
                Self::MMap => "MMap"@,
                Self::IpcChan => "IpcChan"@,
                Self::OsRawMutex => "OsRawMutex"@,
                Self::KrnIterator => "KrnIterator"@,
            },
    {
        match self {
            Self::Unknown => "Unknown",
            Self::File => "File",
            Self::Dir => "Dir",
            Self::Link => "Link",
            Self::MMap => "MMap",
            Self::IpcChan => "IpcChan",
            Self::OsRawMutex => "OsRawMutex",
            Self::KrnIterator => "KrnIterator",
        }
    }
}

impl Default for ObjType {
    fn default() -> (obj_type: Self)
        ensures
            obj_type == ObjType::Unknown,
    {
        Self::Unknown
    }
}

/// Every type is found again from its raw code.
pub proof fn lemma_obj_type_round_trip(obj_type: ObjType)
    ensures
        ObjType::spec_from_raw(obj_type.spec_raw()) == Some(obj_type),
{
}

} // verus!
