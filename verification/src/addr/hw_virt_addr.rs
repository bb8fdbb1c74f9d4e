//! x86_64 virtual address: a machine word kept in canonical form.
use vstd::prelude::*;

verus! {

/// Number of implemented virtual address bits.
pub const VIRT_ADDR_BITS: u64 = 48;

/// Mask of the implemented virtual address bits.
pub const VIRT_ADDR_LOW_MASK: u64 = 0x0000_FFFF_FFFF_FFFF;

/// Mask of the bits which must repeat the highest implemented bit.
pub const VIRT_ADDR_HIGH_MASK: u64 = 0xFFFF_0000_0000_0000;

/// The highest implemented bit, which decides the value of the upper bits.
pub const VIRT_ADDR_SIGN_BIT: u64 = 0x0000_8000_0000_0000;

/// The canonical form of a 64 bit word: the low 48 bits are kept, the
/// upper 16 bits all repeat bit 47.
pub open spec fn canonical_word(raw: u64) -> u64 {
    if raw & VIRT_ADDR_SIGN_BIT != 0 {
        raw | VIRT_ADDR_HIGH_MASK
    } else {
        raw & VIRT_ADDR_LOW_MASK
    }
}

/// The canonical form of the machine word `raw`.
pub open spec fn canonical_virt(raw: usize) -> usize {
    canonical_word(raw as u64) as usize
}

/// Whether `raw` is already in canonical form.
pub open spec fn is_canonical_virt(raw: usize) -> bool {
    canonical_virt(raw) == raw
}

/// Bit `index` of `raw`.
pub open spec fn bit_of(raw: u64, index: u64) -> bool {
    (raw >> index) & 1 == 1
}

/// x86_64 implementation of the virtual address.
///
/// Every value holds a canonical address: whatever word it is built from
/// is truncated to 48 bits and sign extended.
#[derive(Copy, Clone, Debug, PartialEq, Eq, Structural, PartialOrd, Ord, Hash)]
pub struct HwVirtAddr {
    m_raw_virt_addr: usize,
}

impl HwVirtAddr {
    /// The raw value of the address.
    pub closed spec fn view(&self) -> usize {
        self.m_raw_virt_addr
    }

    /// The address which `new` builds from `raw_virt_addr`.
    pub closed spec fn spec_new(raw_virt_addr: usize) -> Self {
        HwVirtAddr { m_raw_virt_addr: canonical_virt(raw_virt_addr) }
    }

    /// The raw value of `spec_new(raw)` is the canonical form of `raw`.
    pub broadcast proof fn lemma_spec_new_view(raw_virt_addr: usize)
        ensures
            #[trigger] Self::spec_new(raw_virt_addr)@ == canonical_virt(raw_virt_addr),
    {
    }

    #[verifier::type_invariant]
    spec fn canonical(self) -> bool {
        is_canonical_virt(self.m_raw_virt_addr)
    }

    /// Two words with the same canonical form give the same address.
    pub proof fn lemma_spec_new_eq(first: usize, second: usize)
        requires
            canonical_virt(first) == canonical_virt(second),
        ensures
            Self::spec_new(first) == Self::spec_new(second),
    {
    }

    /// Builds the address for `raw_virt_addr`, bringing it to canonical
    /// form: shifts out the upper 16 bits, then shifts back arithmetically.
    pub fn new(raw_virt_addr: usize) -> (addr: Self)
        ensures
            addr == Self::spec_new(raw_virt_addr),
            addr@ == canonical_virt(raw_virt_addr),
    {
        let wide: u64 = raw_virt_addr as u64;
        let shifted: u64 = wide << 16;
        let extended: i64 = (shifted as i64) >> 16;
        let word: u64 = extended as u64;
        assert(word == canonical_word(wide)) by (bit_vector)
            requires
                word == (((wide << 16) as i64) >> 16) as u64,
        ;
        assert(word <= usize::MAX) by {
            lemma_canonical_fits(raw_virt_addr);
        }
        proof {
            lemma_canonical_idempotent(raw_virt_addr);
        }
        Self { m_raw_virt_addr: word as usize }
    }

    /// Returns the raw value, which is always canonical.
    pub fn raw(&self) -> (raw: usize)
        ensures
            raw == self@,
            is_canonical_virt(raw),
    {
        proof {
            use_type_invariant(self);
        }
        self.m_raw_virt_addr
    }
}

/// The canonical form of a machine word is a machine word again.
pub proof fn lemma_canonical_fits(raw: usize)
    ensures
        canonical_word(raw as u64) <= usize::MAX,
{
    let wide = raw as u64;
    assert(wide < 0x1_0000_0000 ==> canonical_word(wide) == wide) by (bit_vector);
    assert(usize::MAX == 0xFFFF_FFFF || usize::MAX == 0xFFFF_FFFF_FFFF_FFFF);
}

/// Canonicalising twice gives what canonicalising once gives.
pub proof fn lemma_canonical_idempotent(raw: usize)
    ensures
        canonical_virt(canonical_virt(raw)) == canonical_virt(raw),
{
    let wide = raw as u64;
    lemma_canonical_fits(raw);
    assert(canonical_word(canonical_word(wide)) == canonical_word(wide)) by (bit_vector);
}

/// In a canonical address the bits 47 to 63 are all equal.
pub proof fn lemma_canonical_sign_extended(raw: usize, index: u64)
    requires
        47 <= index < 64,
    ensures
        bit_of(canonical_virt(raw) as u64, index) == bit_of(canonical_virt(raw) as u64, 47),
{
    let wide = raw as u64;
    lemma_canonical_fits(raw);
    assert(47 <= index < 64 ==> bit_of(canonical_word(wide), index) == bit_of(
        canonical_word(wide),
        47,
    )) by (bit_vector);
}

} // verus!
