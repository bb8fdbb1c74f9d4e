use meetix::addr::order::virt_addr_order;
use meetix::addr::phys_addr::PhysAddr;
use meetix::addr::virt_addr::VirtAddr;

#[test]
fn virt_addr_keeps_canonical_low_half() {
    assert_eq!(VirtAddr::from(0x0000_7FFF_FFFF_F000usize).raw(), 0x0000_7FFF_FFFF_F000);
    assert_eq!(VirtAddr::new(0x1000).raw(), 0x1000);
    assert_eq!(VirtAddr::new(0).raw(), 0);
}

#[test]
fn virt_addr_sign_extends_bit_47() {
    assert_eq!(VirtAddr::from(0x0000_8000_0000_0000usize).raw(), 0xFFFF_8000_0000_0000);
    assert_eq!(VirtAddr::from(0x0000_FFFF_FFFF_FFFFusize).raw(), 0xFFFF_FFFF_FFFF_FFFF);
    assert_eq!(VirtAddr::from(0x1234_8000_0000_0001usize).raw(), 0xFFFF_8000_0000_0001);
}

#[test]
fn virt_addr_truncates_upper_bits_when_bit_47_is_clear() {
    assert_eq!(VirtAddr::from(0xFFFF_0000_0000_1000usize).raw(), 0x0000_0000_0000_1000);
    assert_eq!(VirtAddr::from(0xABCD_7FFF_FFFF_FFFFusize).raw(), 0x0000_7FFF_FFFF_FFFF);
}

#[test]
fn virt_addr_canonicalization_is_idempotent() {
    let samples: [usize; 8] = [
        0,
        1,
        0x0000_7FFF_FFFF_FFFF,
        0x0000_8000_0000_0000,
        0x8000_0000_0000_0000,
        0xFFFF_FFFF_FFFF_FFFF,
        0x1234_5678_9ABC_DEF0,
        0xDEAD_BEEF_CAFE_F00D,
    ];
    for x in samples {
        let once = VirtAddr::from(x).raw();
        assert_eq!(VirtAddr::from(once).raw(), once);
    }
}

#[test]
fn virt_addr_upper_bits_repeat_bit_47() {
    let samples: [usize; 6] = [
        0,
        0x0000_8000_0000_0000,
        0x7FFF_7FFF_FFFF_FFFF,
        0xFFFF_FFFF_FFFF_FFFF,
        0x1234_5678_9ABC_DEF0,
        0xDEAD_BEEF_CAFE_F00D,
    ];
    for x in samples {
        let raw = VirtAddr::from(x).raw();
        let sign = (raw >> 47) & 1;
        for bit in 47..64 {
            assert_eq!((raw >> bit) & 1, sign);
        }
        assert_eq!(raw & 0x0000_FFFF_FFFF_FFFF, x & 0x0000_FFFF_FFFF_FFFF);
    }
}

#[test]
fn virt_addr_default_is_null_and_max_is_largest() {
    assert_eq!(VirtAddr::default().raw(), 0);
    assert!(VirtAddr::default().is_null());
    assert_eq!(VirtAddr::max().raw(), usize::MAX);
    assert!(VirtAddr::null().is_below(&VirtAddr::max()));
    assert!(!VirtAddr::max().is_below(&VirtAddr::max()));
}

#[test]
fn virt_addr_pointer_values_are_the_raw_value() {
    let addr = VirtAddr::from(0x0000_8000_0000_0010usize);
    assert_eq!(addr.as_ptr(), 0xFFFF_8000_0000_0010);
    assert_eq!(addr.as_ptr_mut(), 0xFFFF_8000_0000_0010);
}

#[test]
fn virt_addr_equality_is_by_raw_value() {
    assert_eq!(VirtAddr::from(0x0000_8000_0000_0000usize), VirtAddr::from(0xFFFF_8000_0000_0000usize));
    assert_ne!(VirtAddr::from(1usize), VirtAddr::from(2usize));
}

#[test]
fn virt_addr_steps() {
    let start = VirtAddr::new(0x1000);
    let end = VirtAddr::new(0x3000);
    assert_eq!(VirtAddr::steps_between(&start, &end), Some(0x2000));
    assert_eq!(VirtAddr::steps_between(&end, &start), None);
    assert_eq!(VirtAddr::steps_between(&start, &start), Some(0));
    assert_eq!(VirtAddr::forward_checked(start, 0x2000), Some(end));
    assert_eq!(VirtAddr::backward_checked(end, 0x2000), Some(start));
    assert_eq!(VirtAddr::backward_checked(start, 0x1001), None);
    assert_eq!(VirtAddr::forward_checked(VirtAddr::max(), 1), None);
    assert_eq!(VirtAddr::forward_checked(VirtAddr::max(), 0), Some(VirtAddr::max()));
}

#[test]
fn virt_addr_steps_do_not_enter_the_hole() {
    let last_low = VirtAddr::new(0x0000_7FFF_FFFF_FFFF);
    assert_eq!(VirtAddr::forward_checked(last_low, 1), None);
    let first_high = VirtAddr::new(0xFFFF_8000_0000_0000);
    assert_eq!(VirtAddr::backward_checked(first_high, 1), None);
    assert_eq!(
        VirtAddr::forward_checked(first_high, 0x10).map(|addr| addr.raw()),
        Some(0xFFFF_8000_0000_0010)
    );
}

#[test]
fn phys_addr_masks_upper_bits() {
    assert_eq!(PhysAddr::from(0xFFFF_FFFF_FFFF_FFFFusize).raw(), 0x000F_FFFF_FFFF_FFFF);
    assert_eq!(PhysAddr::from(0x0010_0000_0000_0000usize).raw(), 0);
    assert_eq!(PhysAddr::new(0x1000).raw(), 0x1000);
    assert_eq!(PhysAddr::default().raw(), 0);
    let once = PhysAddr::new(0xABCD_EF01_2345_6789).raw();
    assert_eq!(PhysAddr::new(once).raw(), once);
}

#[test]
fn phys_addr_steps() {
    let start = PhysAddr::new(0x1000);
    let end = PhysAddr::new(0x3000);
    assert_eq!(PhysAddr::steps_between(&start, &end), Some(0x2000));
    assert_eq!(PhysAddr::steps_between(&end, &start), None);
    assert_eq!(PhysAddr::forward_checked(start, 0x2000), Some(end));
    assert_eq!(PhysAddr::backward_checked(end, 0x2000), Some(start));
    assert_eq!(PhysAddr::backward_checked(start, 0x1001), None);
    let last = PhysAddr::new(0x000F_FFFF_FFFF_FFFF);
    assert_eq!(PhysAddr::forward_checked(last, 1), None);
    assert!(start.is_below(&end));
}

#[test]
fn addresses_are_ordered_by_raw_value() {
    let low = VirtAddr::new(0x1000);
    let high = VirtAddr::new(0xFFFF_8000_0000_0000);
    assert!(low < high);
    assert!(high > low);
    assert!(low <= low);
    assert_eq!(low.max(high), high);
    assert_eq!(virt_addr_order(low, high), (true, false, false));
    assert_eq!(virt_addr_order(high, low), (false, false, true));
    assert_eq!(virt_addr_order(low, low), (false, true, false));
    let mut addrs = vec![high, low, VirtAddr::new(0x2000)];
    addrs.sort();
    assert_eq!(addrs, vec![low, VirtAddr::new(0x2000), high]);
    assert!(PhysAddr::new(1) < PhysAddr::new(2));
    assert!(PhysAddr::new(2) >= PhysAddr::new(2));
}
