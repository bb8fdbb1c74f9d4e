//! Virtual address.
use vstd::prelude::*;
use vstd::std_specs::convert::FromSpecImpl;
use crate::addr::hw_virt_addr::{
    HwVirtAddr, canonical_virt, canonical_word, is_canonical_virt, lemma_canonical_idempotent,
};

verus! {

/// Raw value of the largest canonical virtual address.
pub const VIRT_ADDR_MAX: u64 = 0xFFFF_FFFF_FFFF_FFFF;

/// Hardware wide virtual address.
///
/// Wraps the hardware implementation of the virtual address, which keeps
/// the value canonical. A `VirtAddr` is a plain value: it is built by
/// conversion, never changes afterwards and is copied freely.
#[derive(Copy, Clone, Debug, PartialEq, Eq, Structural, Ord, Hash)]
pub struct VirtAddr {
    m_hw_virt_addr: HwVirtAddr,
}

impl VirtAddr {
    /// The raw value of the address.
    pub closed spec fn view(&self) -> usize {
        self.m_hw_virt_addr@
    }

    /// The address which `new` and `from` build from `raw_virt_addr`.
    pub closed spec fn spec_new(raw_virt_addr: usize) -> Self {
        VirtAddr { m_hw_virt_addr: HwVirtAddr::spec_new(raw_virt_addr) }
    }

    /// The raw value of `spec_new(raw)` is the canonical form of `raw`.
    pub broadcast proof fn lemma_spec_new_view(raw_virt_addr: usize)
        ensures
            #[trigger] Self::spec_new(raw_virt_addr)@ == canonical_virt(raw_virt_addr),
    {
        HwVirtAddr::lemma_spec_new_view(raw_virt_addr);
    }

    /// Builds the address for `raw_virt_addr`. Never fails: a word which is
    /// not canonical is brought to canonical form.
    pub fn new(raw_virt_addr: usize) -> (addr: Self)
        ensures
            addr == Self::spec_new(raw_virt_addr),
            addr@ == canonical_virt(raw_virt_addr),
    {
        Self { m_hw_virt_addr: HwVirtAddr::new(raw_virt_addr) }
    }

    /// Returns the null address.
    pub fn null() -> (addr: Self)
        ensures
            addr@ == 0,
    {
        let addr = Self::new(0);
        assert(canonical_virt(0) == 0) by (bit_vector);
        addr
    }

    /// Returns the largest canonical address.
    pub fn max() -> (addr: Self)
        ensures
            addr@ == usize::MAX,
            forall|other: VirtAddr| other@ <= addr@,
    {
        let addr = Self::new(usize::MAX);
        assert(canonical_virt(usize::MAX) == usize::MAX) by {
            assert(usize::MAX == 0xFFFF_FFFF || usize::MAX == 0xFFFF_FFFF_FFFF_FFFF);
            assert(canonical_word(0xFFFF_FFFFu64) == 0xFFFF_FFFFu64) by (bit_vector);
            assert(canonical_word(0xFFFF_FFFF_FFFF_FFFFu64) == 0xFFFF_FFFF_FFFF_FFFFu64)
                by (bit_vector);
        }
        addr
    }

    /// Returns the raw value of the address, which is always canonical.
    pub fn raw(&self) -> (raw: usize)
        ensures
            raw == self@,
            is_canonical_virt(raw),
    {
        self.m_hw_virt_addr.raw()
    }

    /// Returns the address as the value of a constant pointer.
    pub fn as_ptr(&self) -> (ptr: usize)
        ensures
            ptr == self@,
            is_canonical_virt(ptr),
    {
        self.m_hw_virt_addr.raw()
    }

    /// Returns the address as the value of a mutable pointer.
    pub fn as_ptr_mut(&self) -> (ptr: usize)
        ensures
            ptr == self@,
            is_canonical_virt(ptr),
    {
        self.m_hw_virt_addr.raw()
    }

    /// Returns whether this is the null address.
    pub fn is_null(&self) -> (null: bool)
        ensures
            null == (self@ == 0),
    {
        self.m_hw_virt_addr.raw() == 0
    }

    /// Returns whether this address comes before `other`.
    pub fn is_below(&self, other: &VirtAddr) -> (below: bool)
        ensures
            below == (self@ < other@),
    {
        self.m_hw_virt_addr.raw() < other.m_hw_virt_addr.raw()
    }

    /// Number of single steps from `start` up to `end`, when `end` does not
    /// come before `start`.
    pub fn steps_between(start: &VirtAddr, end: &VirtAddr) -> (steps: Option<usize>)
        ensures
            steps == if start@ <= end@ {
                Some((end@ - start@) as usize)
            } else {
                None
            },
    {
        let first: usize = start.raw();
        let last: usize = end.raw();
        if first <= last {
            Some(last - first)
        } else {
            None
        }
    }

    /// The address `count` bytes after `start`.
    ///
    /// Returns `None` instead of wrapping when the sum does not fit the
    /// machine word, and also when it is no canonical address.
    pub fn forward_checked(start: VirtAddr, count: usize) -> (next: Option<VirtAddr>)
        ensures
            next is Some <==> start@ + count <= usize::MAX && is_canonical_virt(
                (start@ + count) as usize,
            ),
            next is Some ==> next->0@ == start@ + count,
    {
        let raw: usize = start.raw();
        if count > usize::MAX - raw {
            return None;
        }
        let sum: usize = raw + count;
        let addr = Self::new(sum);
        if addr.raw() == sum {
            Some(addr)
        } else {
            None
        }
    }

    /// The address `count` bytes before `start`.
    ///
    /// Returns `None` instead of wrapping when `count` is larger than the
    /// raw value of `start`, and also when the difference is no canonical
    /// address.
    pub fn backward_checked(start: VirtAddr, count: usize) -> (prev: Option<VirtAddr>)
        ensures
            prev is Some <==> count <= start@ && is_canonical_virt((start@ - count) as usize),
            prev is Some ==> prev->0@ == start@ - count,
    {
        let raw: usize = start.raw();
        if count > raw {
            return None;
        }
        let diff: usize = raw - count;
        let addr = Self::new(diff);
        if addr.raw() == diff {
            Some(addr)
        } else {
            None
        }
    }
}

impl Default for VirtAddr {
    /// The null address.
    fn default() -> (addr: Self)
        ensures
            addr@ == 0,
    {
        Self::null()
    }
}

impl From<usize> for VirtAddr {
    fn from(raw_virt_addr: usize) -> (addr: Self) {
        Self::new(raw_virt_addr)
    }
}

impl FromSpecImpl<usize> for VirtAddr {
    open spec fn obeys_from_spec() -> bool {
        true
    }

    open spec fn from_spec(raw_virt_addr: usize) -> Self {
        Self::spec_new(raw_virt_addr)
    }
}

/// Building an address from the raw value of an address gives that
/// address again: a second canonicalisation changes nothing.
pub proof fn lemma_virt_addr_from_raw_idempotent(raw: usize)
    ensures
        VirtAddr::spec_new(VirtAddr::spec_new(raw)@)@ == VirtAddr::spec_new(raw)@,
        VirtAddr::spec_new(VirtAddr::spec_new(raw)@) == VirtAddr::spec_new(raw),
{
    VirtAddr::lemma_spec_new_view(raw);
    VirtAddr::lemma_spec_new_view(canonical_virt(raw));
    HwVirtAddr::lemma_spec_new_view(raw);
    HwVirtAddr::lemma_spec_new_view(canonical_virt(raw));
    lemma_canonical_idempotent(raw);
    HwVirtAddr::lemma_spec_new_eq(canonical_virt(raw), raw);
}

/// The raw value of an address goes through the machine word unchanged:
/// an address built from a canonical word holds exactly that word.
pub proof fn lemma_virt_addr_keeps_canonical(raw: usize)
    requires
        is_canonical_virt(raw),
    ensures
        VirtAddr::spec_new(raw)@ == raw,
{
    VirtAddr::lemma_spec_new_view(raw);
}

} // verus!
