//! `Object` owner user.
use vstd::prelude::*;
use crate::ent::impls::{OSGroup, OSUser};

verus! {

/// Protection grants of an object: who may do what with it, one bit for
/// each grant.
#[derive(Debug, Clone, Copy, PartialEq, Eq, Structural)]
pub struct Grants {
    /// The raw bits of the grants.
    pub bits: u32,
}

impl Default for Grants {
    fn default() -> (grants: Self)
        ensures
            grants.bits == 0,
    {
        Grants { bits: 0 }
    }
}

/// Stores the `Object` owner(s) with the protection `Grants`.
#[derive(Debug, Clone, Copy, PartialEq, Eq, Structural)]
pub struct ObjOwner {
    m_os_user: OSUser,
    m_os_group: OSGroup,
    m_protection: Grants,
}

impl ObjOwner {
    /// The owner user.
    pub closed spec fn spec_os_user(&self) -> OSUser {
        self.m_os_user
    }

    /// The owner group.
    pub closed spec fn spec_os_group(&self) -> OSGroup {
        self.m_os_group
    }

    /// The protection grants.
    pub closed spec fn spec_protection(&self) -> Grants {
        self.m_protection
    }

    /// Constructs a `ObjOwner` with the given parameters.
    pub fn new(os_user: OSUser, os_group: OSGroup, protection: Grants) -> (owner: Self)
        ensures
            owner.spec_os_user() == os_user,
            owner.spec_os_group() == os_group,
            owner.spec_protection() == protection,
    {
        Self { m_os_user: os_user, m_os_group: os_group, m_protection: protection }
    }

    /// Returns the owner `OSUser` reference.
    pub fn os_user(&self) -> (os_user: &OSUser)
        ensures
            *os_user == self.spec_os_user(),
    {
        &self.m_os_user
    }

    /// Updates the owner `OSUser`.
    pub fn set_os_user(&mut self, new_owner_user: OSUser)
        ensures
            final(self).spec_os_user() == new_owner_user,
            final(self).spec_os_group() == old(self).spec_os_group(),
            final(self).spec_protection() == old(self).spec_protection(),
    {
        self.m_os_user = new_owner_user;
    }

    /// Returns the owner `OSGroup` reference.
    pub fn os_group(&self) -> (os_group: &OSGroup)
        ensures
            *os_group == self.spec_os_group(),
    {
        &self.m_os_group
    }

    /// Updates the owner `OSGroup`.
    pub fn set_os_group(&mut self, new_owner_group: OSGroup)
        ensures
            final(self).spec_os_group() == new_owner_group,
            final(self).spec_os_user() == old(self).spec_os_user(),
            final(self).spec_protection() == old(self).spec_protection(),
    {
        self.m_os_group = new_owner_group;
    }

    /// Returns the protection `Grants` reference.
    pub fn protection(&self) -> (protection: &Grants)
        ensures
            *protection == self.spec_protection(),
    {
        &self.m_protection
    }

    /// Returns the mutable protection `Grants` reference: what is written
    /// through it becomes the protection of the owner, the user and the
    /// group stay as they are.
    pub fn protection_mut(&mut self) -> (protection: &mut Grants)
        ensures
            *protection == old(self).spec_protection(),
            final(self).spec_protection() == *final(protection),
            final(self).spec_os_user() == old(self).spec_os_user(),
            final(self).spec_os_group() == old(self).spec_os_group(),
    {
        &mut self.m_protection
    }
}

impl Default for ObjOwner {
    fn default() -> (owner: Self)
        ensures
            owner.spec_os_user()@ == 0,
            owner.spec_os_group()@ == 0,
            owner.spec_protection().bits == 0,
    {
        Self {
            m_os_user: OSUser::default(),
            m_os_group: OSGroup::default(),
            m_protection: Grants::default(),
        }
    }
}

} // verus!
