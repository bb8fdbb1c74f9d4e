//! `OsEntity` types.
use vstd::prelude::*;

verus! {

/// Lists the available types of the OS entities.
#[derive(Debug, Clone, Copy, PartialEq, Eq, Structural, PartialOrd, Ord)]
pub enum OsEntityType {
    /// Default value.
    Unknown,
    /// Identifies a user.
    User,
    /// Identifies a group.
    Group,
}

impl OsEntityType {
    /// The raw code of the type.
    pub open spec fn spec_raw(self) -> usize {
        match self {
            Self::Unknown => 0,
            Self::User => 1,
            Self::Group => 2,
        }
    }

    /// The type for the raw code, if there is one for it.
    pub open spec fn spec_from_raw(raw: usize) -> Option<Self> {
        if raw == 0 {
            Some(Self::Unknown)
        } else if raw == 1 {
            Some(Self::User)
        } else if raw == 2 {
            Some(Self::Group)
        } else {
            None
        }
    }

    /// Returns the raw code of the type.
    pub fn as_raw(self) -> (raw: usize)
        ensures
            raw == self.spec_raw(),
    {
        match self {
            Self::Unknown => 0,
            Self::User => 1,
            Self::Group => 2,
        }
    }

    /// Returns the type for the raw code, `None` when the code names no
    /// type.
    pub fn from_raw(raw: usize) -> (ent_type: Option<Self>)
        ensures
            ent_type == Self::spec_from_raw(raw),
            ent_type is Some ==> ent_type->0.spec_raw() == raw,
    {
        match raw {
            0 => Some(Self::Unknown),
            1 => Some(Self::User),
            2 => Some(Self::Group),
            _ => None,
        }
    }

    /// Returns the name of the type.
    pub fn name(self) -> (name: &'static str)
        ensures
            name@ == match self {
                Self::Unknown => "Unknown"@,
                Self::User => "User"@,
                Self::Group => "Group"@,
            },
    {
        match self {
            Self::Unknown => "Unknown",
            Self::User => "User",
            Self::Group => "Group",
        }
    }
}

impl Default for OsEntityType {
    fn default() -> (ent_type: Self)
        ensures
            ent_type == OsEntityType::Unknown,
    {
        Self::Unknown
    }
}

} // verus!
