//! `&str` and `&[u8]` utilities.
use vstd::prelude::*;
use vstd::slice::*;
use vstd::string::StringSliceAdditionalSpecFns;

verus! {

/// The smaller of two lengths.
pub open spec fn spec_min(first: int, second: int) -> int {
    if first <= second {
        first
    } else {
        second
    }
}

/// Index of the first zero byte of `bytes`, or zero when there is none.
pub open spec fn spec_str_len(bytes: Seq<u8>) -> int {
    if exists|i: int| 0 <= i < bytes.len() && bytes[i] == 0 {
        choose|i: int|
            0 <= i < bytes.len() && bytes[i] == 0 && forall|j: int| 0 <= j < i ==> bytes[j] != 0
    } else {
        0
    }
}

/// Copies an `&str` into a `&mut [u8]` buffer using the min of the two
/// lengths: the bytes of the buffer after the copied ones stay as they
/// are.
pub fn copy_str_to_u8_buf(dst: &mut [u8], src: &str)
    ensures
        final(dst)@.len() == old(dst)@.len(),
        forall|i: int|
            0 <= i < spec_min(old(dst)@.len() as int, src.spec_bytes().len() as int)
                ==> final(dst)@[i] == src.spec_bytes()[i],
        forall|i: int|
            spec_min(old(dst)@.len() as int, src.spec_bytes().len() as int) <= i < old(dst)@.len()
                ==> final(dst)@[i] == old(dst)@[i],
{
    let bytes = src.as_bytes();
    let min: usize = if dst.len() <= bytes.len() {
        dst.len()
    } else {
        bytes.len()
    };
    let mut index: usize = 0;
    while index < min
        invariant
            index <= min,
            min == spec_min(old(dst)@.len() as int, src.spec_bytes().len() as int),
            bytes@ == src.spec_bytes(),
            dst@.len() == old(dst)@.len(),
            forall|i: int| 0 <= i < index ==> dst@[i] == src.spec_bytes()[i],
            forall|i: int| index <= i < old(dst)@.len() ==> dst@[i] == old(dst)@[i],
        decreases min - index,
    {
        let byte: u8 = bytes[index];
        dst[index] = byte;
        index = index + 1;
    }
}

/// Returns the length of the given slice interpreting it as ascii
/// string-slice: the index of its first zero byte. Returns zero when the
/// slice holds no zero byte.
pub fn str_len(slice: &[u8]) -> (len: usize)
    ensures
        len == spec_str_len(slice@),
        len < slice@.len() || len == 0,
        (exists|i: int| 0 <= i < slice@.len() && slice@[i] == 0) ==> slice@[len as int] == 0
            && forall|j: int| 0 <= j < len ==> slice@[j] != 0,
{
    let mut index: usize = 0;
    while index < slice.len()
        invariant
            index <= slice@.len(),
            forall|j: int| 0 <= j < index ==> slice@[j] != 0,
        decreases slice@.len() - index,
    {
        if slice[index] == 0 {
            proof {
                lemma_first_zero(slice@, index as int);
            }
            return index;
        }
        index = index + 1;
    }
    0
}

/// The index of the first zero byte is the only index which holds a zero
/// byte after non-zero bytes only.
pub proof fn lemma_first_zero(bytes: Seq<u8>, index: int)
    requires
        0 <= index < bytes.len(),
        bytes[index] == 0,
        forall|j: int| 0 <= j < index ==> bytes[j] != 0,
    ensures
        spec_str_len(bytes) == index,
{
    let found = spec_str_len(bytes);
    assert(0 <= found < bytes.len() && bytes[found] == 0 && forall|j: int|
        0 <= j < found ==> bytes[j] != 0);
    if found < index {
        assert(bytes[found] != 0);
    }
    if index < found {
        assert(bytes[index] != 0);
    }
}

} // verus!
