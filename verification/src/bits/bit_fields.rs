//! Bit fields: machine integers read and written bit by bit.
use vstd::prelude::*;

verus! {

/// Interface of the integers which are used as fields of bits.
pub trait TBitFields: Copy {
    /// The amount of bits of the field.
    spec fn spec_bit_len() -> usize;

    /// Whether the bit `index` of the field is set.
    spec fn spec_bit_at(&self, index: usize) -> bool;

    /// Returns the amount of bits of the field.
    fn bit_len() -> (len: usize)
        ensures
            len == Self::spec_bit_len(),
    ;

    /// Returns the field with no bit set.
    fn zero() -> (field: Self)
        ensures
            forall|index: usize| index < Self::spec_bit_len() ==> !field.spec_bit_at(index),
    ;

    /// Returns whether the bit `index` is set.
    fn bit_at(&self, index: usize) -> (bit: bool)
        requires
            index < Self::spec_bit_len(),
        ensures
            bit == self.spec_bit_at(index),
    ;

    /// Sets the bit `index` to `value` and leaves the other bits alone.
    fn set_bit(&mut self, index: usize, value: bool)
        requires
            index < Self::spec_bit_len(),
        ensures
            final(self).spec_bit_at(index) == value,
            forall|other: usize|
                other < Self::spec_bit_len() && other != index ==> final(self).spec_bit_at(other)
                    == old(self).spec_bit_at(other),
    ;

    /// Two fields with the same bits are the same field.
    proof fn lemma_same_bits(first: Self, second: Self)
        requires
            forall|index: usize|
                index < Self::spec_bit_len() ==> first.spec_bit_at(index) == second.spec_bit_at(
                    index,
                ),
        ensures
            first == second,
    ;
}

/// Whether the bit `index` of `raw` is set.
pub open spec fn u8_bit_at(raw: u8, index: u8) -> bool {
    (raw >> index) & 1 == 1
}

/// Two words whose bits agree at every index are equal.
pub proof fn lemma_u8_equal(first: u8, second: u8)
    requires
        forall|lower: u8| lower < 8 ==> u8_bit_at(first, lower) == u8_bit_at(second, lower),
    ensures
        first == second,
{
    assert(u8_bit_at(first, 0) == u8_bit_at(second, 0));
    assert(u8_bit_at(first, 1) == u8_bit_at(second, 1));
    assert(u8_bit_at(first, 2) == u8_bit_at(second, 2));
    assert(u8_bit_at(first, 3) == u8_bit_at(second, 3));
    assert(u8_bit_at(first, 4) == u8_bit_at(second, 4));
    assert(u8_bit_at(first, 5) == u8_bit_at(second, 5));
    assert(u8_bit_at(first, 6) == u8_bit_at(second, 6));
    assert(u8_bit_at(first, 7) == u8_bit_at(second, 7));
    assert(first == second) by (bit_vector)
        requires
            ((first >> 0u8) & 1 == 1) == ((second >> 0u8) & 1 == 1),
            ((first >> 1u8) & 1 == 1) == ((second >> 1u8) & 1 == 1),
            ((first >> 2u8) & 1 == 1) == ((second >> 2u8) & 1 == 1),
            ((first >> 3u8) & 1 == 1) == ((second >> 3u8) & 1 == 1),
            ((first >> 4u8) & 1 == 1) == ((second >> 4u8) & 1 == 1),
            ((first >> 5u8) & 1 == 1) == ((second >> 5u8) & 1 == 1),
            ((first >> 6u8) & 1 == 1) == ((second >> 6u8) & 1 == 1),
            ((first >> 7u8) & 1 == 1) == ((second >> 7u8) & 1 == 1),
    ;
}

impl TBitFields for u8 {
    open spec fn spec_bit_len() -> usize {
        8
    }

    open spec fn spec_bit_at(&self, index: usize) -> bool {
        index < 8 && u8_bit_at(*self, index as u8)
    }

    fn bit_len() -> (len: usize) {
        8
    }

    fn zero() -> (field: Self) {
        assert(forall|index: u8| index < 8 ==> !u8_bit_at(0, index)) by (bit_vector);
        0
    }

    fn bit_at(&self, index: usize) -> (bit: bool) {
        let shift: u8 = index as u8;
        (*self >> shift) & 1 == 1
    }

    fn set_bit(&mut self, index: usize, value: bool) {
        let shift: u8 = index as u8;
        let before: u8 = *self;
        let mask: u8 = 1 << shift;
        let after: u8 = if value {
            before | mask
        } else {
            before & !mask
        };
        assert(u8_bit_at(after, shift) == value) by (bit_vector)
            requires
                shift < 8,
                after == if value {
                    before | (1u8 << shift)
                } else {
                    before & !(1u8 << shift)
                },
        ;
        assert(forall|other: u8|
            other < 8 && other != shift ==> u8_bit_at(after, other) == u8_bit_at(
                before,
                other,
            )) by (bit_vector)
            requires
                shift < 8,
                after == if value {
                    before | (1u8 << shift)
                } else {
                    before & !(1u8 << shift)
                },
        ;
        *self = after;
        assert forall|other: usize|
            other < Self::spec_bit_len() && other != index implies self.spec_bit_at(other)
                == old(self).spec_bit_at(other) by {
            assert(u8_bit_at(after, other as u8) == u8_bit_at(before, other as u8));
        }
    }

    proof fn lemma_same_bits(first: Self, second: Self) {
        assert forall|lower: u8| lower < 8 implies u8_bit_at(first, lower) == u8_bit_at(
            second,
            lower,
        ) by {
            assert(first.spec_bit_at(lower as usize) == second.spec_bit_at(lower as usize));
        }
        lemma_u8_equal(first, second);
    }
}

/// Whether the bit `index` of `raw` is set.
pub open spec fn u16_bit_at(raw: u16, index: u16) -> bool {
    (raw >> index) & 1 == 1
}

/// Two words whose bits agree at every index are equal.
pub proof fn lemma_u16_equal(first: u16, second: u16)
    requires
        forall|lower: u16| lower < 16 ==> u16_bit_at(first, lower) == u16_bit_at(second, lower),
    ensures
        first == second,
{
    assert(u16_bit_at(first, 0) == u16_bit_at(second, 0));
    assert(u16_bit_at(first, 1) == u16_bit_at(second, 1));
    assert(u16_bit_at(first, 2) == u16_bit_at(second, 2));
    assert(u16_bit_at(first, 3) == u16_bit_at(second, 3));
    assert(u16_bit_at(first, 4) == u16_bit_at(second, 4));
    assert(u16_bit_at(first, 5) == u16_bit_at(second, 5));
    assert(u16_bit_at(first, 6) == u16_bit_at(second, 6));
    assert(u16_bit_at(first, 7) == u16_bit_at(second, 7));
    assert(u16_bit_at(first, 8) == u16_bit_at(second, 8));
    assert(u16_bit_at(first, 9) == u16_bit_at(second, 9));
    assert(u16_bit_at(first, 10) == u16_bit_at(second, 10));
    assert(u16_bit_at(first, 11) == u16_bit_at(second, 11));
    assert(u16_bit_at(first, 12) == u16_bit_at(second, 12));
    assert(u16_bit_at(first, 13) == u16_bit_at(second, 13));
    assert(u16_bit_at(first, 14) == u16_bit_at(second, 14));
    assert(u16_bit_at(first, 15) == u16_bit_at(second, 15));
    assert(first == second) by (bit_vector)
        requires
            ((first >> 0u16) & 1 == 1) == ((second >> 0u16) & 1 == 1),
            ((first >> 1u16) & 1 == 1) == ((second >> 1u16) & 1 == 1),
            ((first >> 2u16) & 1 == 1) == ((second >> 2u16) & 1 == 1),
            ((first >> 3u16) & 1 == 1) == ((second >> 3u16) & 1 == 1),
            ((first >> 4u16) & 1 == 1) == ((second >> 4u16) & 1 == 1),
            ((first >> 5u16) & 1 == 1) == ((second >> 5u16) & 1 == 1),
            ((first >> 6u16) & 1 == 1) == ((second >> 6u16) & 1 == 1),
            ((first >> 7u16) & 1 == 1) == ((second >> 7u16) & 1 == 1),
            ((first >> 8u16) & 1 == 1) == ((second >> 8u16) & 1 == 1),
            ((first >> 9u16) & 1 == 1) == ((second >> 9u16) & 1 == 1),
            ((first >> 10u16) & 1 == 1) == ((second >> 10u16) & 1 == 1),
            ((first >> 11u16) & 1 == 1) == ((second >> 11u16) & 1 == 1),
            ((first >> 12u16) & 1 == 1) == ((second >> 12u16) & 1 == 1),
            ((first >> 13u16) & 1 == 1) == ((second >> 13u16) & 1 == 1),
            ((first >> 14u16) & 1 == 1) == ((second >> 14u16) & 1 == 1),
            ((first >> 15u16) & 1 == 1) == ((second >> 15u16) & 1 == 1),
    ;
}

impl TBitFields for u16 {
    open spec fn spec_bit_len() -> usize {
        16
    }

    open spec fn spec_bit_at(&self, index: usize) -> bool {
        index < 16 && u16_bit_at(*self, index as u16)
    }

    fn bit_len() -> (len: usize) {
        16
    }

    fn zero() -> (field: Self) {
        assert(forall|index: u16| index < 16 ==> !u16_bit_at(0, index)) by (bit_vector);
        0
    }

    fn bit_at(&self, index: usize) -> (bit: bool) {
        let shift: u16 = index as u16;
        (*self >> shift) & 1 == 1
    }

    fn set_bit(&mut self, index: usize, value: bool) {
        let shift: u16 = index as u16;
        let before: u16 = *self;
        let mask: u16 = 1 << shift;
        let after: u16 = if value {
            before | mask
        } else {
            before & !mask
        };
        assert(u16_bit_at(after, shift) == value) by (bit_vector)
            requires
                shift < 16,
                after == if value {
                    before | (1u16 << shift)
                } else {
                    before & !(1u16 << shift)
                },
        ;
        assert(forall|other: u16|
            other < 16 && other != shift ==> u16_bit_at(after, other) == u16_bit_at(
                before,
                other,
            )) by (bit_vector)
            requires
                shift < 16,
                after == if value {
                    before | (1u16 << shift)
                } else {
                    before & !(1u16 << shift)
                },
        ;
        *self = after;
        assert forall|other: usize|
            other < Self::spec_bit_len() && other != index implies self.spec_bit_at(other)
                == old(self).spec_bit_at(other) by {
            assert(u16_bit_at(after, other as u16) == u16_bit_at(before, other as u16));
        }
    }

    proof fn lemma_same_bits(first: Self, second: Self) {
        assert forall|lower: u16| lower < 16 implies u16_bit_at(first, lower) == u16_bit_at(
            second,
            lower,
        ) by {
            assert(first.spec_bit_at(lower as usize) == second.spec_bit_at(lower as usize));
        }
        lemma_u16_equal(first, second);
    }
}

/// Whether the bit `index` of `raw` is set.
pub open spec fn u32_bit_at(raw: u32, index: u32) -> bool {
    (raw >> index) & 1 == 1
}

/// Two words whose bits agree at every index are equal.
pub proof fn lemma_u32_equal(first: u32, second: u32)
    requires
        forall|lower: u32| lower < 32 ==> u32_bit_at(first, lower) == u32_bit_at(second, lower),
    ensures
        first == second,
{
    assert(u32_bit_at(first, 0) == u32_bit_at(second, 0));
    assert(u32_bit_at(first, 1) == u32_bit_at(second, 1));
    assert(u32_bit_at(first, 2) == u32_bit_at(second, 2));
    assert(u32_bit_at(first, 3) == u32_bit_at(second, 3));
    assert(u32_bit_at(first, 4) == u32_bit_at(second, 4));
    assert(u32_bit_at(first, 5) == u32_bit_at(second, 5));
    assert(u32_bit_at(first, 6) == u32_bit_at(second, 6));
    assert(u32_bit_at(first, 7) == u32_bit_at(second, 7));
    assert(u32_bit_at(first, 8) == u32_bit_at(second, 8));
    assert(u32_bit_at(first, 9) == u32_bit_at(second, 9));
    assert(u32_bit_at(first, 10) == u32_bit_at(second, 10));
    assert(u32_bit_at(first, 11) == u32_bit_at(second, 11));
    assert(u32_bit_at(first, 12) == u32_bit_at(second, 12));
    assert(u32_bit_at(first, 13) == u32_bit_at(second, 13));
    assert(u32_bit_at(first, 14) == u32_bit_at(second, 14));
    assert(u32_bit_at(first, 15) == u32_bit_at(second, 15));
    assert(u32_bit_at(first, 16) == u32_bit_at(second, 16));
    assert(u32_bit_at(first, 17) == u32_bit_at(second, 17));
    assert(u32_bit_at(first, 18) == u32_bit_at(second, 18));
    assert(u32_bit_at(first, 19) == u32_bit_at(second, 19));
    assert(u32_bit_at(first, 20) == u32_bit_at(second, 20));
    assert(u32_bit_at(first, 21) == u32_bit_at(second, 21));
    assert(u32_bit_at(first, 22) == u32_bit_at(second, 22));
    assert(u32_bit_at(first, 23) == u32_bit_at(second, 23));
    assert(u32_bit_at(first, 24) == u32_bit_at(second, 24));
    assert(u32_bit_at(first, 25) == u32_bit_at(second, 25));
    assert(u32_bit_at(first, 26) == u32_bit_at(second, 26));
    assert(u32_bit_at(first, 27) == u32_bit_at(second, 27));
    assert(u32_bit_at(first, 28) == u32_bit_at(second, 28));
    assert(u32_bit_at(first, 29) == u32_bit_at(second, 29));
    assert(u32_bit_at(first, 30) == u32_bit_at(second, 30));
    assert(u32_bit_at(first, 31) == u32_bit_at(second, 31));
    assert(first == second) by (bit_vector)
        requires
            ((first >> 0u32) & 1 == 1) == ((second >> 0u32) & 1 == 1),
            ((first >> 1u32) & 1 == 1) == ((second >> 1u32) & 1 == 1),
            ((first >> 2u32) & 1 == 1) == ((second >> 2u32) & 1 == 1),
            ((first >> 3u32) & 1 == 1) == ((second >> 3u32) & 1 == 1),
            ((first >> 4u32) & 1 == 1) == ((second >> 4u32) & 1 == 1),
            ((first >> 5u32) & 1 == 1) == ((second >> 5u32) & 1 == 1),
            ((first >> 6u32) & 1 == 1) == ((second >> 6u32) & 1 == 1),
            ((first >> 7u32) & 1 == 1) == ((second >> 7u32) & 1 == 1),
            ((first >> 8u32) & 1 == 1) == ((second >> 8u32) & 1 == 1),
            ((first >> 9u32) & 1 == 1) == ((second >> 9u32) & 1 == 1),
            ((first >> 10u32) & 1 == 1) == ((second >> 10u32) & 1 == 1),
            ((first >> 11u32) & 1 == 1) == ((second >> 11u32) & 1 == 1),
            ((first >> 12u32) & 1 == 1) == ((second >> 12u32) & 1 == 1),
            ((first >> 13u32) & 1 == 1) == ((second >> 13u32) & 1 == 1),
            ((first >> 14u32) & 1 == 1) == ((second >> 14u32) & 1 == 1),
            ((first >> 15u32) & 1 == 1) == ((second >> 15u32) & 1 == 1),
            ((first >> 16u32) & 1 == 1) == ((second >> 16u32) & 1 == 1),
            ((first >> 17u32) & 1 == 1) == ((second >> 17u32) & 1 == 1),
            ((first >> 18u32) & 1 == 1) == ((second >> 18u32) & 1 == 1),
            ((first >> 19u32) & 1 == 1) == ((second >> 19u32) & 1 == 1),
            ((first >> 20u32) & 1 == 1) == ((second >> 20u32) & 1 == 1),
            ((first >> 21u32) & 1 == 1) == ((second >> 21u32) & 1 == 1),
            ((first >> 22u32) & 1 == 1) == ((second >> 22u32) & 1 == 1),
            ((first >> 23u32) & 1 == 1) == ((second >> 23u32) & 1 == 1),
            ((first >> 24u32) & 1 == 1) == ((second >> 24u32) & 1 == 1),
            ((first >> 25u32) & 1 == 1) == ((second >> 25u32) & 1 == 1),
            ((first >> 26u32) & 1 == 1) == ((second >> 26u32) & 1 == 1),
            ((first >> 27u32) & 1 == 1) == ((second >> 27u32) & 1 == 1),
            ((first >> 28u32) & 1 == 1) == ((second >> 28u32) & 1 == 1),
            ((first >> 29u32) & 1 == 1) == ((second >> 29u32) & 1 == 1),
            ((first >> 30u32) & 1 == 1) == ((second >> 30u32) & 1 == 1),
            ((first >> 31u32) & 1 == 1) == ((second >> 31u32) & 1 == 1),
    ;
}

impl TBitFields for u32 {
    open spec fn spec_bit_len() -> usize {
        32
    }

    open spec fn spec_bit_at(&self, index: usize) -> bool {
        index < 32 && u32_bit_at(*self, index as u32)
    }

    fn bit_len() -> (len: usize) {
        32
    }

    fn zero() -> (field: Self) {
        assert(forall|index: u32| index < 32 ==> !u32_bit_at(0, index)) by (bit_vector);
        0
    }

    fn bit_at(&self, index: usize) -> (bit: bool) {
        let shift: u32 = index as u32;
        (*self >> shift) & 1 == 1
    }

    fn set_bit(&mut self, index: usize, value: bool) {
        let shift: u32 = index as u32;
        let before: u32 = *self;
        let mask: u32 = 1 << shift;
        let after: u32 = if value {
            before | mask
        } else {
            before & !mask
        };
        assert(u32_bit_at(after, shift) == value) by (bit_vector)
            requires
                shift < 32,
                after == if value {
                    before | (1u32 << shift)
                } else {
                    before & !(1u32 << shift)
                },
        ;
        assert(forall|other: u32|
            other < 32 && other != shift ==> u32_bit_at(after, other) == u32_bit_at(
                before,
                other,
            )) by (bit_vector)
            requires
                shift < 32,
                after == if value {
                    before | (1u32 << shift)
                } else {
                    before & !(1u32 << shift)
                },
        ;
        *self = after;
        assert forall|other: usize|
            other < Self::spec_bit_len() && other != index implies self.spec_bit_at(other)
                == old(self).spec_bit_at(other) by {
            assert(u32_bit_at(after, other as u32) == u32_bit_at(before, other as u32));
        }
    }

    proof fn lemma_same_bits(first: Self, second: Self) {
        assert forall|lower: u32| lower < 32 implies u32_bit_at(first, lower) == u32_bit_at(
            second,
            lower,
        ) by {
            assert(first.spec_bit_at(lower as usize) == second.spec_bit_at(lower as usize));
        }
        lemma_u32_equal(first, second);
    }
}

/// Whether the bit `index` of `raw` is set.
pub open spec fn u64_bit_at(raw: u64, index: u64) -> bool {
    (raw >> index) & 1 == 1
}

/// Two words whose bits agree at every index are equal.
pub proof fn lemma_u64_equal(first: u64, second: u64)
    requires
        forall|lower: u64| lower < 64 ==> u64_bit_at(first, lower) == u64_bit_at(second, lower),
    ensures
        first == second,
{
    assert(u64_bit_at(first, 0) == u64_bit_at(second, 0));
    assert(u64_bit_at(first, 1) == u64_bit_at(second, 1));
    assert(u64_bit_at(first, 2) == u64_bit_at(second, 2));
    assert(u64_bit_at(first, 3) == u64_bit_at(second, 3));
    assert(u64_bit_at(first, 4) == u64_bit_at(second, 4));
    assert(u64_bit_at(first, 5) == u64_bit_at(second, 5));
    assert(u64_bit_at(first, 6) == u64_bit_at(second, 6));
    assert(u64_bit_at(first, 7) == u64_bit_at(second, 7));
    assert(u64_bit_at(first, 8) == u64_bit_at(second, 8));
    assert(u64_bit_at(first, 9) == u64_bit_at(second, 9));
    assert(u64_bit_at(first, 10) == u64_bit_at(second, 10));
    assert(u64_bit_at(first, 11) == u64_bit_at(second, 11));
    assert(u64_bit_at(first, 12) == u64_bit_at(second, 12));
    assert(u64_bit_at(first, 13) == u64_bit_at(second, 13));
    assert(u64_bit_at(first, 14) == u64_bit_at(second, 14));
    assert(u64_bit_at(first, 15) == u64_bit_at(second, 15));
    assert(u64_bit_at(first, 16) == u64_bit_at(second, 16));
    assert(u64_bit_at(first, 17) == u64_bit_at(second, 17));
    assert(u64_bit_at(first, 18) == u64_bit_at(second, 18));
    assert(u64_bit_at(first, 19) == u64_bit_at(second, 19));
    assert(u64_bit_at(first, 20) == u64_bit_at(second, 20));
    assert(u64_bit_at(first, 21) == u64_bit_at(second, 21));
    assert(u64_bit_at(first, 22) == u64_bit_at(second, 22));
    assert(u64_bit_at(first, 23) == u64_bit_at(second, 23));
    assert(u64_bit_at(first, 24) == u64_bit_at(second, 24));
    assert(u64_bit_at(first, 25) == u64_bit_at(second, 25));
    assert(u64_bit_at(first, 26) == u64_bit_at(second, 26));
    assert(u64_bit_at(first, 27) == u64_bit_at(second, 27));
    assert(u64_bit_at(first, 28) == u64_bit_at(second, 28));
    assert(u64_bit_at(first, 29) == u64_bit_at(second, 29));
    assert(u64_bit_at(first, 30) == u64_bit_at(second, 30));
    assert(u64_bit_at(first, 31) == u64_bit_at(second, 31));
    assert(u64_bit_at(first, 32) == u64_bit_at(second, 32));
    assert(u64_bit_at(first, 33) == u64_bit_at(second, 33));
    assert(u64_bit_at(first, 34) == u64_bit_at(second, 34));
    assert(u64_bit_at(first, 35) == u64_bit_at(second, 35));
    assert(u64_bit_at(first, 36) == u64_bit_at(second, 36));
    assert(u64_bit_at(first, 37) == u64_bit_at(second, 37));
    assert(u64_bit_at(first, 38) == u64_bit_at(second, 38));
    assert(u64_bit_at(first, 39) == u64_bit_at(second, 39));
    assert(u64_bit_at(first, 40) == u64_bit_at(second, 40));
    assert(u64_bit_at(first, 41) == u64_bit_at(second, 41));
    assert(u64_bit_at(first, 42) == u64_bit_at(second, 42));
    assert(u64_bit_at(first, 43) == u64_bit_at(second, 43));
    assert(u64_bit_at(first, 44) == u64_bit_at(second, 44));
    assert(u64_bit_at(first, 45) == u64_bit_at(second, 45));
    assert(u64_bit_at(first, 46) == u64_bit_at(second, 46));
    assert(u64_bit_at(first, 47) == u64_bit_at(second, 47));
    assert(u64_bit_at(first, 48) == u64_bit_at(second, 48));
    assert(u64_bit_at(first, 49) == u64_bit_at(second, 49));
    assert(u64_bit_at(first, 50) == u64_bit_at(second, 50));
    assert(u64_bit_at(first, 51) == u64_bit_at(second, 51));
    assert(u64_bit_at(first, 52) == u64_bit_at(second, 52));
    assert(u64_bit_at(first, 53) == u64_bit_at(second, 53));
    assert(u64_bit_at(first, 54) == u64_bit_at(second, 54));
    assert(u64_bit_at(first, 55) == u64_bit_at(second, 55));
    assert(u64_bit_at(first, 56) == u64_bit_at(second, 56));
    assert(u64_bit_at(first, 57) == u64_bit_at(second, 57));
    assert(u64_bit_at(first, 58) == u64_bit_at(second, 58));
    assert(u64_bit_at(first, 59) == u64_bit_at(second, 59));
    assert(u64_bit_at(first, 60) == u64_bit_at(second, 60));
    assert(u64_bit_at(first, 61) == u64_bit_at(second, 61));
    assert(u64_bit_at(first, 62) == u64_bit_at(second, 62));
    assert(u64_bit_at(first, 63) == u64_bit_at(second, 63));
    assert(first == second) by (bit_vector)
        requires
            ((first >> 0u64) & 1 == 1) == ((second >> 0u64) & 1 == 1),
            ((first >> 1u64) & 1 == 1) == ((second >> 1u64) & 1 == 1),
            ((first >> 2u64) & 1 == 1) == ((second >> 2u64) & 1 == 1),
            ((first >> 3u64) & 1 == 1) == ((second >> 3u64) & 1 == 1),
            ((first >> 4u64) & 1 == 1) == ((second >> 4u64) & 1 == 1),
            ((first >> 5u64) & 1 == 1) == ((second >> 5u64) & 1 == 1),
            ((first >> 6u64) & 1 == 1) == ((second >> 6u64) & 1 == 1),
            ((first >> 7u64) & 1 == 1) == ((second >> 7u64) & 1 == 1),
            ((first >> 8u64) & 1 == 1) == ((second >> 8u64) & 1 == 1),
            ((first >> 9u64) & 1 == 1) == ((second >> 9u64) & 1 == 1),
            ((first >> 10u64) & 1 == 1) == ((second >> 10u64) & 1 == 1),
            ((first >> 11u64) & 1 == 1) == ((second >> 11u64) & 1 == 1),
            ((first >> 12u64) & 1 == 1) == ((second >> 12u64) & 1 == 1),
            ((first >> 13u64) & 1 == 1) == ((second >> 13u64) & 1 == 1),
            ((first >> 14u64) & 1 == 1) == ((second >> 14u64) & 1 == 1),
            ((first >> 15u64) & 1 == 1) == ((second >> 15u64) & 1 == 1),
            ((first >> 16u64) & 1 == 1) == ((second >> 16u64) & 1 == 1),
            ((first >> 17u64) & 1 == 1) == ((second >> 17u64) & 1 == 1),
            ((first >> 18u64) & 1 == 1) == ((second >> 18u64) & 1 == 1),
            ((first >> 19u64) & 1 == 1) == ((second >> 19u64) & 1 == 1),
            ((first >> 20u64) & 1 == 1) == ((second >> 20u64) & 1 == 1),
            ((first >> 21u64) & 1 == 1) == ((second >> 21u64) & 1 == 1),
            ((first >> 22u64) & 1 == 1) == ((second >> 22u64) & 1 == 1),
            ((first >> 23u64) & 1 == 1) == ((second >> 23u64) & 1 == 1),
            ((first >> 24u64) & 1 == 1) == ((second >> 24u64) & 1 == 1),
            ((first >> 25u64) & 1 == 1) == ((second >> 25u64) & 1 == 1),
            ((first >> 26u64) & 1 == 1) == ((second >> 26u64) & 1 == 1),
            ((first >> 27u64) & 1 == 1) == ((second >> 27u64) & 1 == 1),
            ((first >> 28u64) & 1 == 1) == ((second >> 28u64) & 1 == 1),
            ((first >> 29u64) & 1 == 1) == ((second >> 29u64) & 1 == 1),
            ((first >> 30u64) & 1 == 1) == ((second >> 30u64) & 1 == 1),
            ((first >> 31u64) & 1 == 1) == ((second >> 31u64) & 1 == 1),
            ((first >> 32u64) & 1 == 1) == ((second >> 32u64) & 1 == 1),
            ((first >> 33u64) & 1 == 1) == ((second >> 33u64) & 1 == 1),
            ((first >> 34u64) & 1 == 1) == ((second >> 34u64) & 1 == 1),
            ((first >> 35u64) & 1 == 1) == ((second >> 35u64) & 1 == 1),
            ((first >> 36u64) & 1 == 1) == ((second >> 36u64) & 1 == 1),
            ((first >> 37u64) & 1 == 1) == ((second >> 37u64) & 1 == 1),
            ((first >> 38u64) & 1 == 1) == ((second >> 38u64) & 1 == 1),
            ((first >> 39u64) & 1 == 1) == ((second >> 39u64) & 1 == 1),
            ((first >> 40u64) & 1 == 1) == ((second >> 40u64) & 1 == 1),
            ((first >> 41u64) & 1 == 1) == ((second >> 41u64) & 1 == 1),
            ((first >> 42u64) & 1 == 1) == ((second >> 42u64) & 1 == 1),
            ((first >> 43u64) & 1 == 1) == ((second >> 43u64) & 1 == 1),
            ((first >> 44u64) & 1 == 1) == ((second >> 44u64) & 1 == 1),
            ((first >> 45u64) & 1 == 1) == ((second >> 45u64) & 1 == 1),
            ((first >> 46u64) & 1 == 1) == ((second >> 46u64) & 1 == 1),
            ((first >> 47u64) & 1 == 1) == ((second >> 47u64) & 1 == 1),
            ((first >> 48u64) & 1 == 1) == ((second >> 48u64) & 1 == 1),
            ((first >> 49u64) & 1 == 1) == ((second >> 49u64) & 1 == 1),
            ((first >> 50u64) & 1 == 1) == ((second >> 50u64) & 1 == 1),
            ((first >> 51u64) & 1 == 1) == ((second >> 51u64) & 1 == 1),
            ((first >> 52u64) & 1 == 1) == ((second >> 52u64) & 1 == 1),
            ((first >> 53u64) & 1 == 1) == ((second >> 53u64) & 1 == 1),
            ((first >> 54u64) & 1 == 1) == ((second >> 54u64) & 1 == 1),
            ((first >> 55u64) & 1 == 1) == ((second >> 55u64) & 1 == 1),
            ((first >> 56u64) & 1 == 1) == ((second >> 56u64) & 1 == 1),
            ((first >> 57u64) & 1 == 1) == ((second >> 57u64) & 1 == 1),
            ((first >> 58u64) & 1 == 1) == ((second >> 58u64) & 1 == 1),
            ((first >> 59u64) & 1 == 1) == ((second >> 59u64) & 1 == 1),
            ((first >> 60u64) & 1 == 1) == ((second >> 60u64) & 1 == 1),
            ((first >> 61u64) & 1 == 1) == ((second >> 61u64) & 1 == 1),
            ((first >> 62u64) & 1 == 1) == ((second >> 62u64) & 1 == 1),
            ((first >> 63u64) & 1 == 1) == ((second >> 63u64) & 1 == 1),
    ;
}

impl TBitFields for u64 {
    open spec fn spec_bit_len() -> usize {
        64
    }

    open spec fn spec_bit_at(&self, index: usize) -> bool {
        index < 64 && u64_bit_at(*self, index as u64)
    }

    fn bit_len() -> (len: usize) {
        64
    }

    fn zero() -> (field: Self) {
        assert(forall|index: u64| index < 64 ==> !u64_bit_at(0, index)) by (bit_vector);
        0
    }

    fn bit_at(&self, index: usize) -> (bit: bool) {
        let shift: u64 = index as u64;
        (*self >> shift) & 1 == 1
    }

    fn set_bit(&mut self, index: usize, value: bool) {
        let shift: u64 = index as u64;
        let before: u64 = *self;
        let mask: u64 = 1 << shift;
        let after: u64 = if value {
            before | mask
        } else {
            before & !mask
        };
        assert(u64_bit_at(after, shift) == value) by (bit_vector)
            requires
                shift < 64,
                after == if value {
                    before | (1u64 << shift)
                } else {
                    before & !(1u64 << shift)
                },
        ;
        assert(forall|other: u64|
            other < 64 && other != shift ==> u64_bit_at(after, other) == u64_bit_at(
                before,
                other,
            )) by (bit_vector)
            requires
                shift < 64,
                after == if value {
                    before | (1u64 << shift)
                } else {
                    before & !(1u64 << shift)
                },
        ;
        *self = after;
        assert forall|other: usize|
            other < Self::spec_bit_len() && other != index implies self.spec_bit_at(other)
                == old(self).spec_bit_at(other) by {
            assert(u64_bit_at(after, other as u64) == u64_bit_at(before, other as u64));
        }
    }

    proof fn lemma_same_bits(first: Self, second: Self) {
        assert forall|lower: u64| lower < 64 implies u64_bit_at(first, lower) == u64_bit_at(
            second,
            lower,
        ) by {
            assert(first.spec_bit_at(lower as usize) == second.spec_bit_at(lower as usize));
        }
        lemma_u64_equal(first, second);
    }
}

} // verus!
