//! Physical address.
use vstd::prelude::*;
use vstd::std_specs::convert::FromSpecImpl;

verus! {

/// Number of implemented physical address bits.
pub const PHYS_ADDR_BITS: u64 = 52;

/// Mask of the implemented physical address bits, which is also the raw
/// value of the largest physical address.
pub const PHYS_ADDR_MASK: u64 = 0x000F_FFFF_FFFF_FFFF;

/// The 64 bit word `raw` cut down to the physical address width.
pub open spec fn truncated_word(raw: u64) -> u64 {
    raw & PHYS_ADDR_MASK
}

/// The machine word `raw` cut down to the physical address width.
pub open spec fn truncated_phys(raw: usize) -> usize {
    truncated_word(raw as u64) as usize
}

/// Whether `raw` fits the physical address width.
pub open spec fn is_valid_phys(raw: usize) -> bool {
    truncated_phys(raw) == raw
}

/// Hardware wide physical address.
///
/// A physical address has no canonical form to respect, only a largest
/// width: the bits above it are masked away when the address is built,
/// never rejected.
#[derive(Copy, Clone, Debug, PartialEq, Eq, Structural, Ord, Hash)]
pub struct PhysAddr {
    m_raw_phys_addr: usize,
}

impl PhysAddr {
    /// The raw value of the address.
    pub closed spec fn view(&self) -> usize {
        self.m_raw_phys_addr
    }

    #[verifier::type_invariant]
    spec fn in_width(self) -> bool {
        is_valid_phys(self.m_raw_phys_addr)
    }

    /// The address which `new` and `from` build from `raw_phys_addr`.
    pub closed spec fn spec_new(raw_phys_addr: usize) -> Self {
        PhysAddr { m_raw_phys_addr: truncated_phys(raw_phys_addr) }
    }

    /// The raw value of `spec_new(raw)` is `raw` cut down to the width.
    pub broadcast proof fn lemma_spec_new_view(raw_phys_addr: usize)
        ensures
            #[trigger] Self::spec_new(raw_phys_addr)@ == truncated_phys(raw_phys_addr),
    {
    }

    /// Builds the address for `raw_phys_addr`. Never fails: the bits above
    /// the physical address width are masked away.
    pub fn new(raw_phys_addr: usize) -> (addr: Self)
        ensures
            addr == Self::spec_new(raw_phys_addr),
            addr@ == truncated_phys(raw_phys_addr),
    {
        let wide: u64 = raw_phys_addr as u64;
        let word: u64 = wide & PHYS_ADDR_MASK;
        proof {
            lemma_truncated_fits(raw_phys_addr);
            lemma_truncated_idempotent(raw_phys_addr);
        }
        Self { m_raw_phys_addr: word as usize }
    }

    /// Returns the null address.
    pub fn null() -> (addr: Self)
        ensures
            addr@ == 0,
    {
        let addr = Self::new(0);
        assert(truncated_phys(0) == 0) by (bit_vector);
        addr
    }

    /// Returns the raw value of the address, which always fits the width.
    pub fn raw(&self) -> (raw: usize)
        ensures
            raw == self@,
            is_valid_phys(raw),
    {
        proof {
            use_type_invariant(self);
        }
        self.m_raw_phys_addr
    }

    /// Returns whether this address comes before `other`.
    pub fn is_below(&self, other: &PhysAddr) -> (below: bool)
        ensures
            below == (self@ < other@),
    {
        self.m_raw_phys_addr < other.m_raw_phys_addr
    }

    /// Number of single steps from `start` up to `end`, when `end` does not
    /// come before `start`.
    pub fn steps_between(start: &PhysAddr, end: &PhysAddr) -> (steps: Option<usize>)
        ensures
            steps == if start@ <= end@ {
                Some((end@ - start@) as usize)
            } else {
                None
            },
    {
        let first: usize = start.raw();
        let last: usize = end.raw();
        if first <= last {
            Some(last - first)
        } else {
            None
        }
    }

    /// The address `count` bytes after `start`, or `None` when the sum
    /// leaves the machine word or the physical address width.
    pub fn forward_checked(start: PhysAddr, count: usize) -> (next: Option<PhysAddr>)
        ensures
            next is Some <==> start@ + count <= usize::MAX && is_valid_phys(
                (start@ + count) as usize,
            ),
            next is Some ==> next->0@ == start@ + count,
    {
        let raw: usize = start.raw();
        if count > usize::MAX - raw {
            return None;
        }
        let sum: usize = raw + count;
        let addr = Self::new(sum);
        if addr.raw() == sum {
            Some(addr)
        } else {
            None
        }
    }

    /// The address `count` bytes before `start`, or `None` when `count` is
    /// larger than the raw value of `start`.
    pub fn backward_checked(start: PhysAddr, count: usize) -> (prev: Option<PhysAddr>)
        ensures
            prev is Some <==> count <= start@,
            prev is Some ==> prev->0@ == start@ - count,
    {
        let raw: usize = start.raw();
        if count > raw {
            return None;
        }
        let diff: usize = raw - count;
        let wide: u64 = diff as u64;
        let top: u64 = raw as u64;
        proof {
            lemma_truncated_fits(raw);
        }
        assert(wide & PHYS_ADDR_MASK == wide) by (bit_vector)
            requires
                wide <= top,
                top & PHYS_ADDR_MASK == top,
        ;
        Some(Self::new(diff))
    }
}

impl Default for PhysAddr {
    /// The null address.
    fn default() -> (addr: Self)
        ensures
            addr@ == 0,
    {
        Self::null()
    }
}

impl From<usize> for PhysAddr {
    fn from(raw_phys_addr: usize) -> (addr: Self) {
        Self::new(raw_phys_addr)
    }
}

impl FromSpecImpl<usize> for PhysAddr {
    open spec fn obeys_from_spec() -> bool {
        true
    }

    open spec fn from_spec(raw_phys_addr: usize) -> Self {
        Self::spec_new(raw_phys_addr)
    }
}

/// A machine word cut down to the physical address width is a machine
/// word again.
pub proof fn lemma_truncated_fits(raw: usize)
    ensures
        truncated_word(raw as u64) <= raw,
{
    let wide = raw as u64;
    assert(truncated_word(wide) <= wide) by (bit_vector);
}

/// Cutting down twice gives what cutting down once gives.
pub proof fn lemma_truncated_idempotent(raw: usize)
    ensures
        truncated_phys(truncated_phys(raw)) == truncated_phys(raw),
{
    let wide = raw as u64;
    lemma_truncated_fits(raw);
    assert(truncated_word(truncated_word(wide)) == truncated_word(wide)) by (bit_vector);
}

} // verus!
