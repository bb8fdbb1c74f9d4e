//! Bit flags wrapper.
use vstd::prelude::*;
use vstd::std_specs::convert::FromSpecImpl;
use crate::bits::bit_fields::TBitFields;

verus! {

/// Interface which must be implemented by the enumerations whose values
/// name the bits of a `BitFlags`.
pub trait TBitFlagsValues: Copy {
    /// The index of the bit which the value names.
    spec fn spec_index(self) -> usize;

    /// The value which names the bit `index`, if one does.
    spec fn spec_from_index(index: usize) -> Option<Self>;

    /// Returns the index of the bit which the value names.
    fn index(self) -> (index: usize)
        ensures
            index == self.spec_index(),
    ;

    /// Returns the value which names the bit `index`, `None` when the bit
    /// has no name.
    fn try_from_index(index: usize) -> (value: Option<Self>)
        ensures
            value == Self::spec_from_index(index),
    ;

    /// Every value is found again from the index of its bit.
    proof fn lemma_index_round_trip(value: Self)
        ensures
            Self::spec_from_index(value.spec_index()) == Some(value),
    ;
}

/// Safe wrapper for a field of bits, each named by a value of `T`.
#[derive(Clone, Copy)]
pub struct BitFlags<B: TBitFields, T: TBitFlagsValues> {
    m_raw_bits: B,
    _unused: Ghost<Option<T>>,
}

impl<B: TBitFields, T: TBitFlagsValues> BitFlags<B, T> {
    /// The raw field of bits.
    pub closed spec fn view(&self) -> B {
        self.m_raw_bits
    }

    /// Whether the bit `index` is enabled.
    pub open spec fn spec_bit(&self, index: usize) -> bool {
        self@.spec_bit_at(index)
    }

    /// Whether the bit which `bit` names is enabled.
    pub open spec fn spec_is_enabled(&self, bit: T) -> bool {
        self@.spec_bit_at(bit.spec_index())
    }

    /// Whether every bit of the raw field has a name.
    pub open spec fn all_bits_named() -> bool {
        forall|index: usize|
            index < B::spec_bit_len() ==> (#[trigger] T::spec_from_index(index)) is Some
    }

    /// Whether `bits` is the raw field `raw_bits` without the bits which
    /// have no name.
    pub open spec fn is_truncation(raw_bits: B, bits: B) -> bool {
        forall|index: usize|
            index < B::spec_bit_len() ==> bits.spec_bit_at(index) == (raw_bits.spec_bit_at(index)
                && (#[trigger] T::spec_from_index(index)) is Some)
    }

    /// The flags for the raw field `raw_bits` without the bits which have
    /// no name.
    pub closed spec fn spec_from_raw_truncate(raw_bits: B) -> Self {
        BitFlags {
            m_raw_bits: choose|bits: B| Self::is_truncation(raw_bits, bits),
            _unused: Ghost(None),
        }
    }

    /// Constructs a zeroed `BitFlags`.
    pub fn new_zero() -> (flags: Self)
        ensures
            forall|index: usize| index < B::spec_bit_len() ==> !flags.spec_bit(index),
    {
        Self { m_raw_bits: B::zero(), _unused: Ghost(None) }
    }

    /// Constructs a `BitFlags` interpreting the raw value given.
    ///
    /// Fails when a bit of the raw field has no name, whatever the bits
    /// which `raw_bits` enables.
    pub fn from_raw(raw_bits: B) -> (flags: Option<Self>)
        ensures
            flags is Some <==> Self::all_bits_named(),
            flags is Some ==> flags->0@ == raw_bits,
    {
        let bit_len: usize = B::bit_len();
        let mut bit_index: usize = 0;
        while bit_index < bit_len
            invariant
                bit_len == B::spec_bit_len(),
                bit_index <= bit_len,
                forall|index: usize|
                    index < bit_index ==> (#[trigger] T::spec_from_index(index)) is Some,
            decreases bit_len - bit_index,
        {
            if T::try_from_index(bit_index).is_none() {
                return None;
            }
            bit_index = bit_index + 1;
        }
        Some(Self { m_raw_bits: raw_bits, _unused: Ghost(None) })
    }

    /// Constructs a `BitFlags` interpreting the raw value given and
    /// truncating out the bits which have no name.
    pub fn from_raw_truncate(raw_bits: B) -> (flags: Self)
        ensures
            forall|index: usize|
                index < B::spec_bit_len() ==> flags.spec_bit(index) == (raw_bits.spec_bit_at(index)
                    && (#[trigger] T::spec_from_index(index)) is Some),
            flags == Self::spec_from_raw_truncate(raw_bits),
    {
        let ghost given = raw_bits;
        let mut raw_bits = raw_bits;
        let bit_len: usize = B::bit_len();
        let mut bit_index: usize = 0;
        while bit_index < bit_len
            invariant
                bit_len == B::spec_bit_len(),
                bit_index <= bit_len,
                forall|index: usize|
                    index < bit_index ==> raw_bits.spec_bit_at(index) == (given.spec_bit_at(index)
                        && (#[trigger] T::spec_from_index(index)) is Some),
                forall|index: usize|
                    bit_index <= index < bit_len ==> raw_bits.spec_bit_at(index)
                        == given.spec_bit_at(index),
            decreases bit_len - bit_index,
        {
            if T::try_from_index(bit_index).is_none() {
                raw_bits.set_bit(bit_index, false);
            }
            bit_index = bit_index + 1;
        }
        proof {
            assert(Self::is_truncation(given, raw_bits));
            let chosen = choose|bits: B| Self::is_truncation(given, bits);
            assert forall|index: usize| index < B::spec_bit_len() implies raw_bits.spec_bit_at(
                index,
            ) == chosen.spec_bit_at(index) by {
                let named = T::spec_from_index(index) is Some;
                assert(raw_bits.spec_bit_at(index) == (given.spec_bit_at(index) && named));
                assert(chosen.spec_bit_at(index) == (given.spec_bit_at(index) && named));
            }
            B::lemma_same_bits(raw_bits, chosen);
        }
        Self { m_raw_bits: raw_bits, _unused: Ghost(None) }
    }

    /// Returns whether the bit corresponding to `bit` is enabled.
    pub fn is_enabled(&self, bit: T) -> (enabled: bool)
        requires
            bit.spec_index() < B::spec_bit_len(),
        ensures
            enabled == self.spec_is_enabled(bit),
    {
        let bit_index: usize = bit.index();
        self.m_raw_bits.bit_at(bit_index)
    }

    /// Returns whether the bit corresponding to `bit` is disabled.
    pub fn is_disabled(&self, bit: T) -> (disabled: bool)
        requires
            bit.spec_index() < B::spec_bit_len(),
        ensures
            disabled == !self.spec_is_enabled(bit),
    {
        !self.is_enabled(bit)
    }

    /// Returns whether any of the given bits is enabled.
    pub fn is_any_of(&self, bits: &[T]) -> (any: bool)
        requires
            forall|i: int| 0 <= i < bits@.len() ==> (#[trigger] bits@[i]).spec_index()
                < B::spec_bit_len(),
        ensures
            any == exists|i: int| 0 <= i < bits@.len() && self.spec_is_enabled(#[trigger] bits@[i]),
    {
        let mut position: usize = 0;
        while position < bits.len()
            invariant
                position <= bits@.len(),
                forall|i: int| 0 <= i < bits@.len() ==> (#[trigger] bits@[i]).spec_index()
                    < B::spec_bit_len(),
                forall|i: int| 0 <= i < position ==> !self.spec_is_enabled(#[trigger] bits@[i]),
            decreases bits@.len() - position,
        {
            if self.is_enabled(bits[position]) {
                return true;
            }
            position = position + 1;
        }
        false
    }

    /// Returns whether all the given bits are enabled.
    pub fn is_all_of(&self, bits: &[T]) -> (all: bool)
        requires
            forall|i: int| 0 <= i < bits@.len() ==> (#[trigger] bits@[i]).spec_index()
                < B::spec_bit_len(),
        ensures
            all == forall|i: int| 0 <= i < bits@.len() ==> self.spec_is_enabled(#[trigger] bits@[i]),
    {
        let mut position: usize = 0;
        while position < bits.len()
            invariant
                position <= bits@.len(),
                forall|i: int| 0 <= i < bits@.len() ==> (#[trigger] bits@[i]).spec_index()
                    < B::spec_bit_len(),
                forall|i: int| 0 <= i < position ==> self.spec_is_enabled(#[trigger] bits@[i]),
            decreases bits@.len() - position,
        {
            if self.is_disabled(bits[position]) {
                return false;
            }
            position = position + 1;
        }
        true
    }

    /// Returns the flags with the bits which are enabled in `self` or in
    /// `rhs`.
    pub fn bitor(self, rhs: Self) -> (flags: Self)
        ensures
            forall|index: usize|
                index < B::spec_bit_len() ==> flags.spec_bit(index) == (self.spec_bit(index)
                    || rhs.spec_bit(index)),
    {
        let mut raw_bits = self.m_raw_bits;
        let bit_len: usize = B::bit_len();
        let mut bit_index: usize = 0;
        while bit_index < bit_len
            invariant
                bit_len == B::spec_bit_len(),
                bit_index <= bit_len,
                forall|index: usize|
                    index < bit_index ==> raw_bits.spec_bit_at(index) == (self.spec_bit(index)
                        || rhs.spec_bit(index)),
                forall|index: usize|
                    bit_index <= index < bit_len ==> raw_bits.spec_bit_at(index) == self.spec_bit(
                        index,
                    ),
            decreases bit_len - bit_index,
        {
            if rhs.m_raw_bits.bit_at(bit_index) {
                raw_bits.set_bit(bit_index, true);
            }
            bit_index = bit_index + 1;
        }
        Self { m_raw_bits: raw_bits, _unused: Ghost(None) }
    }

    /// Returns the flags with the bits which are enabled in `self` and in
    /// `rhs`.
    pub fn bitand(self, rhs: Self) -> (flags: Self)
        ensures
            forall|index: usize|
                index < B::spec_bit_len() ==> flags.spec_bit(index) == (self.spec_bit(index)
                    && rhs.spec_bit(index)),
    {
        let mut raw_bits = self.m_raw_bits;
        let bit_len: usize = B::bit_len();
        let mut bit_index: usize = 0;
        while bit_index < bit_len
            invariant
                bit_len == B::spec_bit_len(),
                bit_index <= bit_len,
                forall|index: usize|
                    index < bit_index ==> raw_bits.spec_bit_at(index) == (self.spec_bit(index)
                        && rhs.spec_bit(index)),
                forall|index: usize|
                    bit_index <= index < bit_len ==> raw_bits.spec_bit_at(index) == self.spec_bit(
                        index,
                    ),
            decreases bit_len - bit_index,
        {
            if !rhs.m_raw_bits.bit_at(bit_index) {
                raw_bits.set_bit(bit_index, false);
            }
            bit_index = bit_index + 1;
        }
        Self { m_raw_bits: raw_bits, _unused: Ghost(None) }
    }

    /// Returns the flags with the bits which are enabled in one of `self`
    /// and `rhs` and not in the other.
    pub fn bitxor(self, rhs: Self) -> (flags: Self)
        ensures
            forall|index: usize|
                index < B::spec_bit_len() ==> flags.spec_bit(index) == (self.spec_bit(index)
                    != rhs.spec_bit(index)),
    {
        let mut raw_bits = self.m_raw_bits;
        let bit_len: usize = B::bit_len();
        let mut bit_index: usize = 0;
        while bit_index < bit_len
            invariant
                bit_len == B::spec_bit_len(),
                bit_index <= bit_len,
                forall|index: usize|
                    index < bit_index ==> raw_bits.spec_bit_at(index) == (self.spec_bit(index)
                        != rhs.spec_bit(index)),
                forall|index: usize|
                    bit_index <= index < bit_len ==> raw_bits.spec_bit_at(index) == self.spec_bit(
                        index,
                    ),
            decreases bit_len - bit_index,
        {
            if rhs.m_raw_bits.bit_at(bit_index) {
                let enabled: bool = raw_bits.bit_at(bit_index);
                raw_bits.set_bit(bit_index, !enabled);
            }
            bit_index = bit_index + 1;
        }
        Self { m_raw_bits: raw_bits, _unused: Ghost(None) }
    }

    /// Returns the flags with every bit of the raw field turned over.
    pub fn not(self) -> (flags: Self)
        ensures
            forall|index: usize|
                index < B::spec_bit_len() ==> flags.spec_bit(index) == !self.spec_bit(index),
    {
        let mut raw_bits = self.m_raw_bits;
        let bit_len: usize = B::bit_len();
        let mut bit_index: usize = 0;
        while bit_index < bit_len
            invariant
                bit_len == B::spec_bit_len(),
                bit_index <= bit_len,
                forall|index: usize|
                    index < bit_index ==> raw_bits.spec_bit_at(index) == !self.spec_bit(index),
                forall|index: usize|
                    bit_index <= index < bit_len ==> raw_bits.spec_bit_at(index) == self.spec_bit(
                        index,
                    ),
            decreases bit_len - bit_index,
        {
            let enabled: bool = raw_bits.bit_at(bit_index);
            raw_bits.set_bit(bit_index, !enabled);
            bit_index = bit_index + 1;
        }
        Self { m_raw_bits: raw_bits, _unused: Ghost(None) }
    }

    /// Returns the flags with the bit corresponding to `rhs` enabled too.
    pub fn bitor_bit(self, rhs: T) -> (flags: Self)
        requires
            rhs.spec_index() < B::spec_bit_len(),
        ensures
            flags.spec_is_enabled(rhs),
            forall|other: usize|
                other < B::spec_bit_len() && other != rhs.spec_index() ==> flags.spec_bit(other)
                    == self.spec_bit(other),
    {
        let mut flags = self;
        flags.set_enabled(rhs);
        flags
    }

    /// Returns the flags with the bit corresponding to `rhs` alone, when
    /// it is enabled in `self`, and the zeroed flags when it is not.
    pub fn bitand_bit(self, rhs: T) -> (flags: Self)
        requires
            rhs.spec_index() < B::spec_bit_len(),
        ensures
            flags.spec_is_enabled(rhs) == self.spec_is_enabled(rhs),
            forall|other: usize|
                other < B::spec_bit_len() && other != rhs.spec_index() ==> !flags.spec_bit(other),
    {
        let mut flags = Self::new_zero();
        assert(!flags.spec_bit(rhs.spec_index()));
        if self.is_enabled(rhs) {
            flags.set_enabled(rhs);
        }
        flags
    }

    /// Returns the flags with the bit corresponding to `rhs` turned over.
    pub fn bitxor_bit(self, rhs: T) -> (flags: Self)
        requires
            rhs.spec_index() < B::spec_bit_len(),
        ensures
            flags.spec_is_enabled(rhs) == !self.spec_is_enabled(rhs),
            forall|other: usize|
                other < B::spec_bit_len() && other != rhs.spec_index() ==> flags.spec_bit(other)
                    == self.spec_bit(other),
    {
        let mut flags = self;
        let enabled: bool = self.is_enabled(rhs);
        flags.set(rhs, !enabled);
        flags
    }

    /// Enables in these flags the bits which are enabled in `rhs`.
    pub fn bitor_assign(&mut self, rhs: Self)
        ensures
            forall|index: usize|
                index < B::spec_bit_len() ==> final(self).spec_bit(index) == (old(self).spec_bit(index) || rhs.spec_bit(index)),
    {
        let flags = self.bitor(rhs);
        self.m_raw_bits = flags.m_raw_bits;
    }

    /// Disables in these flags the bits which are not enabled in `rhs`.
    pub fn bitand_assign(&mut self, rhs: Self)
        ensures
            forall|index: usize|
                index < B::spec_bit_len() ==> final(self).spec_bit(index) == (old(self).spec_bit(index) && rhs.spec_bit(index)),
    {
        let flags = self.bitand(rhs);
        self.m_raw_bits = flags.m_raw_bits;
    }

    /// Turns over in these flags the bits which are enabled in `rhs`.
    pub fn bitxor_assign(&mut self, rhs: Self)
        ensures
            forall|index: usize|
                index < B::spec_bit_len() ==> final(self).spec_bit(index) == (old(self).spec_bit(index) != rhs.spec_bit(index)),
    {
        let flags = self.bitxor(rhs);
        self.m_raw_bits = flags.m_raw_bits;
    }

    /// Enables in these flags the bit corresponding to `rhs`.
    pub fn bitor_assign_bit(&mut self, rhs: T)
        requires
            rhs.spec_index() < B::spec_bit_len(),
        ensures
            final(self).spec_is_enabled(rhs),
            forall|other: usize|
                other < B::spec_bit_len() && other != rhs.spec_index() ==> final(self).spec_bit(other) == old(self).spec_bit(other),
    {
        self.set_enabled(rhs);
    }

    /// Sets the bit corresponding to `rhs` to what it is: the flags stay
    /// as they are.
    pub fn bitand_assign_bit(&mut self, rhs: T)
        requires
            rhs.spec_index() < B::spec_bit_len(),
        ensures
            forall|index: usize|
                index < B::spec_bit_len() ==> final(self).spec_bit(index) == old(self).spec_bit(index),
    {
        let enabled: bool = self.is_enabled(rhs);
        self.set(rhs, enabled);
    }

    /// Turns over in these flags the bit corresponding to `rhs`.
    pub fn bitxor_assign_bit(&mut self, rhs: T)
        requires
            rhs.spec_index() < B::spec_bit_len(),
        ensures
            final(self).spec_is_enabled(rhs) == !old(self).spec_is_enabled(rhs),
            forall|other: usize|
                other < B::spec_bit_len() && other != rhs.spec_index() ==> final(self).spec_bit(other) == old(self).spec_bit(other),
    {
        let enabled: bool = self.is_enabled(rhs);
        self.set(rhs, !enabled);
    }

    /// Returns the values which name the enabled bits, by ascending index
    /// of their bits: what is shown when the flags are printed.
    pub fn values(&self) -> (values: Vec<T>)
        ensures
            forall|k: int|
                0 <= k < values@.len() ==> {
                    &&& (#[trigger] values@[k]).spec_index() < B::spec_bit_len()
                    &&& self.spec_bit(values@[k].spec_index())
                    &&& T::spec_from_index(values@[k].spec_index()) == Some(values@[k])
                },
            forall|j: int, k: int|
                0 <= j < k < values@.len() ==> (#[trigger] values@[j]).spec_index() < (
                #[trigger] values@[k]).spec_index(),
            forall|index: usize|
                index < B::spec_bit_len() && self.spec_bit(index) && (#[trigger] T::spec_from_index(
                    index,
                )) is Some && T::spec_from_index(index)->0.spec_index() == index ==> exists|k: int|
                    0 <= k < values@.len() && values@[k] == T::spec_from_index(index)->0,
    {
        let mut values: Vec<T> = Vec::new();
        let bit_len: usize = B::bit_len();
        let mut bit_index: usize = 0;
        while bit_index < bit_len
            invariant
                bit_len == B::spec_bit_len(),
                bit_index <= bit_len,
                forall|k: int|
                    0 <= k < values@.len() ==> {
                        &&& (#[trigger] values@[k]).spec_index() < bit_index
                        &&& self.spec_bit(values@[k].spec_index())
                        &&& T::spec_from_index(values@[k].spec_index()) == Some(values@[k])
                    },
                forall|j: int, k: int|
                    0 <= j < k < values@.len() ==> (#[trigger] values@[j]).spec_index() < (
                    #[trigger] values@[k]).spec_index(),
                forall|index: usize|
                    index < bit_index && self.spec_bit(index) && (#[trigger] T::spec_from_index(
                        index,
                    )) is Some && T::spec_from_index(index)->0.spec_index() == index
                        ==> exists|k: int|
                        0 <= k < values@.len() && values@[k] == T::spec_from_index(index)->0,
            decreases bit_len - bit_index,
        {
            if self.m_raw_bits.bit_at(bit_index) {
                if let Some(bit_value) = T::try_from_index(bit_index) {
                    if bit_value.index() == bit_index {
                        let ghost before = values@;
                        values.push(bit_value);
                        proof {
                            let last = before.len() as int;
                            assert(values@[last] == bit_value);
                            assert forall|index: usize|
                                index < bit_index + 1 && self.spec_bit(index) && (
                                #[trigger] T::spec_from_index(index)) is Some
                                    && T::spec_from_index(index)->0.spec_index()
                                    == index implies exists|k: int|
                                0 <= k < values@.len() && values@[k] == T::spec_from_index(
                                    index,
                                )->0 by {
                                if index < bit_index {
                                    let k = choose|k: int|
                                        0 <= k < before.len() && before[k] == T::spec_from_index(
                                            index,
                                        )->0;
                                    assert(values@[k] == before[k]);
                                } else {
                                    assert(values@[last] == T::spec_from_index(index)->0);
                                }
                            }
                        }
                    }
                }
            }
            bit_index = bit_index + 1;
        }
        values
    }

    /// Returns this `BitFlags` as raw value.
    pub fn raw_bits(&self) -> (raw_bits: B)
        ensures
            raw_bits == self@,
    {
        self.m_raw_bits
    }

    /// Enables the bit corresponding to the given `bit`.
    pub fn set_enabled(&mut self, bit: T)
        requires
            bit.spec_index() < B::spec_bit_len(),
        ensures
            final(self).spec_is_enabled(bit),
            forall|other: usize|
                other < B::spec_bit_len() && other != bit.spec_index() ==> final(self).spec_bit(other) == old(self).spec_bit(other),
    {
        self.set(bit, true)
    }

    /// Disables the bit corresponding to the given `bit`.
    pub fn set_disabled(&mut self, bit: T)
        requires
            bit.spec_index() < B::spec_bit_len(),
        ensures
            !final(self).spec_is_enabled(bit),
            forall|other: usize|
                other < B::spec_bit_len() && other != bit.spec_index() ==> final(self).spec_bit(other) == old(self).spec_bit(other),
    {
        self.set(bit, false)
    }

    /// Sets for the bit corresponding to `bit` the `bit_value` value.
    pub fn set(&mut self, bit: T, bit_value: bool)
        requires
            bit.spec_index() < B::spec_bit_len(),
        ensures
            final(self).spec_is_enabled(bit) == bit_value,
            forall|other: usize|
                other < B::spec_bit_len() && other != bit.spec_index() ==> final(self).spec_bit(other) == old(self).spec_bit(other),
    {
        let bit_index: usize = bit.index();
        let mut raw_bits = self.m_raw_bits;
        raw_bits.set_bit(bit_index, bit_value);
        self.m_raw_bits = raw_bits;
    }
}

impl<B: TBitFields, T: TBitFlagsValues> Default for BitFlags<B, T> {
    /// The zeroed flags.
    fn default() -> (flags: Self)
        ensures
            forall|index: usize| index < B::spec_bit_len() ==> !flags.spec_bit(index),
    {
        Self::new_zero()
    }
}

impl<B: TBitFields, T: TBitFlagsValues> From<B> for BitFlags<B, T> {
    /// The flags for the raw field without the bits which have no name.
    fn from(raw_bits: B) -> (flags: Self) {
        Self::from_raw_truncate(raw_bits)
    }
}

impl<B: TBitFields, T: TBitFlagsValues> FromSpecImpl<B> for BitFlags<B, T> {
    open spec fn obeys_from_spec() -> bool {
        true
    }

    open spec fn from_spec(raw_bits: B) -> Self {
        Self::spec_from_raw_truncate(raw_bits)
    }
}

/// The flags which `from` and `from_raw_truncate` give for a raw field
/// are the raw field without the bits which have no name.
pub proof fn lemma_truncated_flags<B: TBitFields, T: TBitFlagsValues>(raw_bits: B, witness: B)
    requires
        BitFlags::<B, T>::is_truncation(raw_bits, witness),
    ensures
        BitFlags::<B, T>::is_truncation(
            raw_bits,
            BitFlags::<B, T>::spec_from_raw_truncate(raw_bits)@,
        ),
        BitFlags::<B, T>::spec_from_raw_truncate(raw_bits)@ == witness,
{
    let chosen = choose|bits: B| BitFlags::<B, T>::is_truncation(raw_bits, bits);
    assert forall|index: usize| index < B::spec_bit_len() implies witness.spec_bit_at(index)
        == chosen.spec_bit_at(index) by {
        let named = T::spec_from_index(index) is Some;
        assert(witness.spec_bit_at(index) == (raw_bits.spec_bit_at(index) && named));
        assert(chosen.spec_bit_at(index) == (raw_bits.spec_bit_at(index) && named));
    }
    B::lemma_same_bits(witness, chosen);
}

/// Two flags with the same enabled bits hold the same raw field.
pub proof fn lemma_flags_same_bits<B: TBitFields, T: TBitFlagsValues>(
    first: BitFlags<B, T>,
    second: BitFlags<B, T>,
)
    requires
        forall|index: usize|
            index < B::spec_bit_len() ==> first.spec_bit(index) == second.spec_bit(index),
    ensures
        first@ == second@,
{
    assert forall|index: usize| index < B::spec_bit_len() implies first@.spec_bit_at(index)
        == second@.spec_bit_at(index) by {
        assert(first.spec_bit(index) == second.spec_bit(index));
    }
    B::lemma_same_bits(first@, second@);
}

} // verus!
