use meetix::bits::bit_fields::TBitFields;
use meetix::bits::bit_flags::BitFlags;
use meetix::objs::uses::{ObjUse, ObjUseBits};
use meetix::bits::bit_flags::TBitFlagsValues;

#[test]
fn bit_fields_of_the_integers() {
    assert_eq!(<u8 as TBitFields>::bit_len(), 8);
    assert_eq!(<u16 as TBitFields>::bit_len(), 16);
    assert_eq!(<u32 as TBitFields>::bit_len(), 32);
    assert_eq!(<u64 as TBitFields>::bit_len(), 64);
    assert_eq!(<u64 as TBitFields>::zero(), 0);
    let mut field: u8 = 0;
    field.set_bit(0, true);
    field.set_bit(7, true);
    assert_eq!(field, 0b1000_0001);
    assert!(field.bit_at(0));
    assert!(!field.bit_at(1));
    assert!(field.bit_at(7));
    field.set_bit(0, false);
    field.set_bit(3, false);
    assert_eq!(field, 0b1000_0000);
    let mut wide: u64 = 0;
    wide.set_bit(63, true);
    wide.set_bit(32, true);
    assert_eq!(wide, 0x8000_0001_0000_0000);
    assert!(wide.bit_at(63));
    assert!(!wide.bit_at(62));
    let mut word: u32 = u32::MAX;
    word.set_bit(31, false);
    assert_eq!(word, 0x7FFF_FFFF);
    let mut half: u16 = 0;
    half.set_bit(15, true);
    half.set_bit(15, true);
    assert_eq!(half, 0x8000);
}

#[test]
fn bit_flags_set_and_test() {
    let mut flags = ObjUseBits::new_zero();
    assert_eq!(flags.raw_bits(), 0);
    assert!(flags.is_disabled(ObjUse::Opening));
    flags.set_enabled(ObjUse::ReadingData);
    flags.set(ObjUse::Dropping, true);
    assert_eq!(flags.raw_bits(), 0b1000_0010);
    assert!(flags.is_enabled(ObjUse::ReadingData));
    assert!(flags.is_enabled(ObjUse::Dropping));
    assert!(!flags.is_enabled(ObjUse::WritingData));
    assert!(flags.is_disabled(ObjUse::WritingData));
    flags.set_disabled(ObjUse::ReadingData);
    flags.set(ObjUse::Opening, false);
    assert_eq!(flags.raw_bits(), 0b1000_0000);
    let copy = flags;
    assert_eq!(copy.raw_bits(), flags.clone().raw_bits());
}

#[test]
fn bit_flags_any_and_all() {
    let mut flags = ObjUseBits::new_zero();
    flags.set_enabled(ObjUse::Sending);
    flags.set_enabled(ObjUse::Receiving);
    assert!(flags.is_any_of(&[ObjUse::Opening, ObjUse::Sending]));
    assert!(!flags.is_any_of(&[ObjUse::Opening, ObjUse::Deleting]));
    assert!(!flags.is_any_of(&[]));
    assert!(flags.is_all_of(&[ObjUse::Sending, ObjUse::Receiving]));
    assert!(!flags.is_all_of(&[ObjUse::Sending, ObjUse::Opening]));
    assert!(flags.is_all_of(&[]));
}

#[test]
fn bit_flags_from_raw() {
    let flags: BitFlags<u32, ObjUse> = BitFlags::from_raw_truncate(0b10_0000_0101);
    assert_eq!(flags.raw_bits(), 0b0000_0101);
    assert!(flags.is_enabled(ObjUse::Opening));
    assert!(flags.is_enabled(ObjUse::WritingData));
    let refused: Option<BitFlags<u32, ObjUse>> = BitFlags::from_raw(0b101);
    assert!(refused.is_none());
    let narrow: Option<BitFlags<u8, ObjUse>> = BitFlags::from_raw(0b101);
    assert_eq!(narrow.map(|flags| flags.raw_bits()), Some(0b101));
    let kept: BitFlags<u8, ObjUse> = BitFlags::from_raw_truncate(0xFF);
    assert_eq!(kept.raw_bits(), 0xFF);
}

#[test]
fn obj_use_indexes() {
    assert_eq!(ObjUse::Opening.index(), 0);
    assert_eq!(ObjUse::Deleting.index(), 8);
    assert_eq!(ObjUse::try_from_index(5), Some(ObjUse::Sending));
    assert_eq!(ObjUse::try_from_index(9), None);
    for index in 0..9 {
        assert_eq!(ObjUse::try_from_index(index).unwrap().index(), index);
    }
}

#[test]
fn bit_flags_operators() {
    let first: BitFlags<u8, ObjUse> = BitFlags::from_raw_truncate(0b0000_1100);
    let second: BitFlags<u8, ObjUse> = BitFlags::from_raw_truncate(0b0000_1010);
    assert_eq!(first.bitor(second).raw_bits(), 0b0000_1110);
    assert_eq!(first.bitand(second).raw_bits(), 0b0000_1000);
    assert_eq!(first.bitxor(second).raw_bits(), 0b0000_0110);
    assert_eq!(first.not().raw_bits(), 0b1111_0011);
    assert_eq!(first.not().not().raw_bits(), first.raw_bits());
    let wide: BitFlags<u32, ObjUse> = BitFlags::from_raw_truncate(0b1_0000_0001);
    assert_eq!(wide.not().raw_bits(), 0xFFFF_FEFE);
}

#[test]
fn bit_flags_values_are_the_named_enabled_bits() {
    let flags: BitFlags<u32, ObjUse> = BitFlags::from_raw_truncate(0b1_0010_0001);
    assert_eq!(flags.values(), vec![ObjUse::Opening, ObjUse::Sending, ObjUse::Deleting]);
    assert!(ObjUseBits::new_zero().values().is_empty());
    assert_eq!(flags.not().values().len(), 6);
}

#[test]
fn bit_flags_single_flag_operators() {
    let flags: BitFlags<u8, ObjUse> = BitFlags::from_raw_truncate(0b0000_0100);
    assert_eq!(flags.bitor_bit(ObjUse::Opening).raw_bits(), 0b0000_0101);
    assert_eq!(flags.bitor_bit(ObjUse::WritingData).raw_bits(), 0b0000_0100);
    assert_eq!(flags.bitand_bit(ObjUse::WritingData).raw_bits(), 0b0000_0100);
    assert_eq!(flags.bitor_bit(ObjUse::Opening).bitand_bit(ObjUse::Opening).raw_bits(), 1);
    assert_eq!(flags.bitand_bit(ObjUse::Opening).raw_bits(), 0);
    assert_eq!(flags.bitxor_bit(ObjUse::WritingData).raw_bits(), 0);
    assert_eq!(flags.bitxor_bit(ObjUse::Dropping).raw_bits(), 0b1000_0100);
}

#[test]
fn bit_flags_assigning_operators() {
    let mut flags: BitFlags<u8, ObjUse> = BitFlags::from_raw_truncate(0b0000_1100);
    flags.bitor_assign(BitFlags::from_raw_truncate(0b0000_0011));
    assert_eq!(flags.raw_bits(), 0b0000_1111);
    flags.bitand_assign(BitFlags::from_raw_truncate(0b0000_0110));
    assert_eq!(flags.raw_bits(), 0b0000_0110);
    flags.bitxor_assign(BitFlags::from_raw_truncate(0b0000_0101));
    assert_eq!(flags.raw_bits(), 0b0000_0011);
    flags.bitor_assign_bit(ObjUse::Dropping);
    assert_eq!(flags.raw_bits(), 0b1000_0011);
    flags.bitand_assign_bit(ObjUse::Dropping);
    flags.bitand_assign_bit(ObjUse::WritingData);
    assert_eq!(flags.raw_bits(), 0b1000_0011);
    flags.bitxor_assign_bit(ObjUse::Opening);
    flags.bitxor_assign_bit(ObjUse::Sending);
    assert_eq!(flags.raw_bits(), 0b1010_0010);
}

#[test]
fn bit_flags_default_and_from() {
    let zero: BitFlags<u32, ObjUse> = BitFlags::default();
    assert_eq!(zero.raw_bits(), 0);
    let flags: BitFlags<u32, ObjUse> = BitFlags::from(0xFFFF_0003);
    assert_eq!(flags.raw_bits(), 3);
    let narrow: BitFlags<u8, ObjUse> = 0x81u8.into();
    assert_eq!(narrow.raw_bits(), 0x81);
}
