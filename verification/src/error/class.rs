//! Classes of the errors which the kernel reports.
use vstd::prelude::*;

verus! {

/// Lists the classes of the errors which a kernel call reports.
///
/// A failed kernel call returns a negative result word: its magnitude is
/// the raw code of the class of the error.
#[derive(Debug, Clone, Copy, PartialEq, Eq, Structural)]
pub enum OsErrorClass {
    /// The kernel gave a code which names no class.
    Unknown,
    /// An argument of the call is not valid.
    InvalidArgument,
    /// The handle of the call references no live kernel instance.
    InvalidHandle,
    /// The call is not allowed on this instance or in this state.
    IllegalOperation,
    /// The caller lacks the grants for the call.
    NoPermission,
    /// The kernel has no memory left to serve the call.
    OutOfMemory,
    /// A limit of the system was reached.
    LimitReached,
    /// What the call looks for does not exist.
    NotFound,
    /// What the call has to create exists already.
    AlreadyExists,
}

impl OsErrorClass {
    /// Number of the classes which have a raw code of their own.
    pub const COUNT: usize = 9;

    /// The raw code of the class.
    pub open spec fn spec_raw(self) -> usize {
        match self {
            Self::Unknown => 0,
            Self::InvalidArgument => 1,
            Self::InvalidHandle => 2,
            Self::IllegalOperation => 3,
            Self::NoPermission => 4,
            Self::OutOfMemory => 5,
            Self::LimitReached => 6,
            Self::NotFound => 7,
            Self::AlreadyExists => 8,
        }
    }

    /// The class for the raw code: `Unknown` for every code which names
    /// no class.
    pub open spec fn spec_from_raw(raw: usize) -> Self {
        if raw == 1 {
            Self::InvalidArgument
        } else if raw == 2 {
            Self::InvalidHandle
        } else if raw == 3 {
            Self::IllegalOperation
        } else if raw == 4 {
            Self::NoPermission
        } else if raw == 5 {
            Self::OutOfMemory
        } else if raw == 6 {
            Self::LimitReached
        } else if raw == 7 {
            Self::NotFound
        } else if raw == 8 {
            Self::AlreadyExists
        } else {
            Self::Unknown
        }
    }

    /// Returns the raw code of the class.
    pub fn as_raw(self) -> (raw: usize)
        ensures
            raw == self.spec_raw(),
            raw < Self::COUNT,
    {
        match self {
            Self::Unknown => 0,
            Self::InvalidArgument => 1,
            Self::InvalidHandle => 2,
            Self::IllegalOperation => 3,
            Self::NoPermission => 4,
            Self::OutOfMemory => 5,
            Self::LimitReached => 6,
            Self::NotFound => 7,
            Self::AlreadyExists => 8,
        }
    }

    /// Returns the class for the raw code.
    pub fn from_raw(raw: usize) -> (class: Self)
        ensures
            class == Self::spec_from_raw(raw),
    {
        match raw {
            1 => Self::InvalidArgument,
            2 => Self::InvalidHandle,
            3 => Self::IllegalOperation,
            4 => Self::NoPermission,
            5 => Self::OutOfMemory,
            6 => Self::LimitReached,
            7 => Self::NotFound,
            8 => Self::AlreadyExists,
            _ => Self::Unknown,
        }
    }
}

impl Default for OsErrorClass {
    fn default() -> (class: Self)
        ensures
            class == OsErrorClass::Unknown,
    {
        Self::Unknown
    }
}

/// Every class is found again from its raw code.
pub proof fn lemma_error_class_round_trip(class: OsErrorClass)
    ensures
        OsErrorClass::spec_from_raw(class.spec_raw()) == class,
{
}

} // verus!
