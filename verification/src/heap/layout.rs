//! Layout of a block of memory.
use vstd::prelude::*;

verus! {

/// Whether `value` is a power of two.
pub open spec fn is_power_of_two(value: usize) -> bool {
    value != 0 && value & ((value - 1) as usize) == 0
}

/// Size and alignment of a requested block of memory.
///
/// The alignment is always a power of two.
#[derive(Copy, Clone, Debug, PartialEq, Eq, Structural)]
pub struct Layout {
    m_size: usize,
    m_align: usize,
}

impl Layout {
    /// The requested size in bytes.
    pub closed spec fn spec_size(&self) -> usize {
        self.m_size
    }

    /// The requested alignment in bytes.
    pub closed spec fn spec_align(&self) -> usize {
        self.m_align
    }

    #[verifier::type_invariant]
    spec fn aligned_to_power_of_two(self) -> bool {
        is_power_of_two(self.m_align)
    }

    /// Builds the layout for `size` bytes aligned to `align` bytes.
    ///
    /// Returns `None` when `align` is not a power of two.
    pub fn from_size_align(size: usize, align: usize) -> (layout: Option<Layout>)
        ensures
            layout is Some <==> is_power_of_two(align),
            layout is Some ==> layout->0.spec_size() == size && layout->0.spec_align() == align,
    {
        if align == 0 {
            return None;
        }
        let below: usize = align - 1;
        if align & below != 0 {
            return None;
        }
        Some(Layout { m_size: size, m_align: align })
    }

    /// Returns the requested size in bytes.
    pub fn size(&self) -> (size: usize)
        ensures
            size == self.spec_size(),
    {
        self.m_size
    }

    /// Returns the requested alignment in bytes, a power of two.
    pub fn align(&self) -> (align: usize)
        ensures
            align == self.spec_align(),
            is_power_of_two(align),
    {
        proof {
            use_type_invariant(self);
        }
        self.m_align
    }
}

} // verus!
