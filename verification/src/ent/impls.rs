//! The OS entities.
use vstd::prelude::*;
use crate::ent::types::OsEntityType;

verus! {

/// A user of the system, named by its identifier.
#[derive(Debug, Clone, Copy, PartialEq, Eq, Structural)]
pub struct OSUser {
    m_id: u32,
}

impl OSUser {
    /// The identifier of the user.
    pub closed spec fn view(&self) -> u32 {
        self.m_id
    }

    /// Takes the identifier as a user.
    pub fn from_raw(id: u32) -> (user: Self)
        ensures
            user@ == id,
    {
        OSUser { m_id: id }
    }

    /// Returns the identifier of the user.
    pub fn id(&self) -> (id: u32)
        ensures
            id == self@,
    {
        self.m_id
    }

    /// Returns the type of the entity.
    pub fn ent_type(&self) -> (ent_type: OsEntityType)
        ensures
            ent_type == OsEntityType::User,
    {
        OsEntityType::User
    }
}

impl Default for OSUser {
    fn default() -> (user: Self)
        ensures
            user@ == 0,
    {
        OSUser { m_id: 0 }
    }
}

/// A group of users of the system, named by its identifier.
#[derive(Debug, Clone, Copy, PartialEq, Eq, Structural)]
pub struct OSGroup {
    m_id: u32,
}

impl OSGroup {
    /// The identifier of the group.
    pub closed spec fn view(&self) -> u32 {
        self.m_id
    }

    /// Takes the identifier as a group.
    pub fn from_raw(id: u32) -> (group: Self)
        ensures
            group@ == id,
    {
        OSGroup { m_id: id }
    }

    /// Returns the identifier of the group.
    pub fn id(&self) -> (id: u32)
        ensures
            id == self@,
    {
        self.m_id
    }

    /// Returns the type of the entity.
    pub fn ent_type(&self) -> (ent_type: OsEntityType)
        ensures
            ent_type == OsEntityType::Group,
    {
        OsEntityType::Group
    }
}

impl Default for OSGroup {
    fn default() -> (group: Self)
        ensures
            group@ == 0,
    {
        OSGroup { m_id: 0 }
    }
}

} // verus!
