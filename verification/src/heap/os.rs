//! Memory supplier of the userspace heap.
//!
//! The heap of a process obtains its memory as anonymous memory mappings
//! of whole pages, which are never given back to the kernel.
use vstd::prelude::*;
use crate::heap::heap::PAGE_SIZE;
use crate::heap::layout::is_power_of_two;

verus! {

/// Rounds `addr` up to the next multiple of `align`.
///
/// Calls `linked_list_allocator::align_up`, which returns the smallest
/// multiple of `align` which is no less than `addr`. It adds `align` to
/// `addr` before it rounds down: the alignment must be a power of two and
/// that sum must fit the machine word, the function panics otherwise.
#[verifier::external_body]
fn align_up(addr: usize, align: usize) -> (aligned: usize)
    requires
        is_power_of_two(align),
        addr + align <= usize::MAX,
    ensures
        addr <= aligned < addr + align,
        aligned % align == 0,
{
    linked_list_allocator::align_up(addr, align)
}

/// Returns the size of the memory mapping to create for a request of
/// `requested_size` bytes: the size rounded up to whole pages. Returns
/// `None` when the size and one page more do not fit the machine word.
pub fn mem_supplier_size(requested_size: usize) -> (aligned_size: Option<usize>)
    ensures
        aligned_size is Some <==> requested_size + PAGE_SIZE <= usize::MAX,
        aligned_size is Some ==> {
            &&& requested_size <= aligned_size->0 < requested_size + PAGE_SIZE
            &&& aligned_size->0 % PAGE_SIZE == 0
        },
{
    if requested_size > usize::MAX - PAGE_SIZE {
        return None;
    }
    assert(is_power_of_two(PAGE_SIZE)) by {
        assert(4096usize & 4095usize == 0) by (bit_vector);
    }
    Some(align_up(requested_size, PAGE_SIZE))
}

/// Returns the region which the memory supplier hands to the heap, given
/// the size of the mapping and the address at which the kernel mapped it,
/// `None` when the kernel created no mapping.
pub fn mem_supplier_region(aligned_size: usize, mapped_at: Option<usize>) -> (region: Option<
    (usize, usize),
>)
    ensures
        region == match mapped_at {
            Some(base) => Some((base, aligned_size)),
            None => None,
        },
{
    match mapped_at {
        Some(base) => Some((base, aligned_size)),
        None => None,
    }
}

} // verus!
