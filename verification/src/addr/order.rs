//! Order of the addresses: by their raw value.
use vstd::prelude::*;
use vstd::std_specs::cmp::PartialOrdSpecImpl;
use core::cmp::Ordering;
use crate::addr::phys_addr::PhysAddr;
use crate::addr::virt_addr::VirtAddr;

verus! {

impl PartialOrd for VirtAddr {
    fn partial_cmp(&self, other: &Self) -> (order: Option<Ordering>) {
        let first: usize = self.raw();
        let second: usize = other.raw();
        if first < second {
            Some(Ordering::Less)
        } else if first == second {
            Some(Ordering::Equal)
        } else {
            Some(Ordering::Greater)
        }
    }
}

impl PartialOrdSpecImpl for VirtAddr {
    open spec fn obeys_partial_cmp_spec() -> bool {
        true
    }

    open spec fn partial_cmp_spec(&self, other: &Self) -> Option<Ordering> {
        if self@ < other@ {
            Some(Ordering::Less)
        } else if self@ == other@ {
            Some(Ordering::Equal)
        } else {
            Some(Ordering::Greater)
        }
    }
}

impl PartialOrd for PhysAddr {
    fn partial_cmp(&self, other: &Self) -> (order: Option<Ordering>) {
        let first: usize = self.raw();
        let second: usize = other.raw();
        if first < second {
            Some(Ordering::Less)
        } else if first == second {
            Some(Ordering::Equal)
        } else {
            Some(Ordering::Greater)
        }
    }
}

impl PartialOrdSpecImpl for PhysAddr {
    open spec fn obeys_partial_cmp_spec() -> bool {
        true
    }

    open spec fn partial_cmp_spec(&self, other: &Self) -> Option<Ordering> {
        if self@ < other@ {
            Some(Ordering::Less)
        } else if self@ == other@ {
            Some(Ordering::Equal)
        } else {
            Some(Ordering::Greater)
        }
    }
}

/// Returns whether `first` comes before `second`, whether they are the
/// same address, and whether `first` comes after `second`: the order of
/// the virtual addresses is the order of their raw values, and it is
/// total.
pub fn virt_addr_order(first: VirtAddr, second: VirtAddr) -> (order: (bool, bool, bool))
    ensures
        order.0 == (first@ < second@),
        order.1 == (first@ == second@),
        order.2 == (first@ > second@),
        order.0 || order.1 || order.2,
{
    (first < second, first.raw() == second.raw(), first > second)
}

} // verus!
