use meetix::heap::layout::Layout;
use meetix::heap::slab::{FreeBlockList, Slab, SlabBlock};

const BLOCK_SIZE: usize = 64;

fn layout(size: usize) -> Layout {
    Layout::from_size_align(size, 8).unwrap()
}

#[test]
fn slab_round_trip() {
    let mut slab = Slab::<BLOCK_SIZE>::new(0x1000, 4 * BLOCK_SIZE);
    assert_eq!(slab.free_count(), 4);
    let ptr = slab.allocate(layout(BLOCK_SIZE)).unwrap();
    assert_eq!(slab.free_count(), 3);
    slab.deallocate(ptr, layout(BLOCK_SIZE));
    assert_eq!(slab.free_count(), 4);
    assert_eq!(slab.allocate(layout(BLOCK_SIZE)), Some(ptr));
}

#[test]
fn slab_remainder() {
    let mut slab = Slab::<BLOCK_SIZE>::new(0x1000, 4 * BLOCK_SIZE);
    let before = slab.free_count();
    let ptr = 0x10_0000usize;
    let remainder = slab.add_region(ptr, 10 * BLOCK_SIZE + 3);
    assert_eq!(remainder, Some((ptr + 10 * BLOCK_SIZE, 3)));
    assert_eq!(slab.free_count(), before + 10);
}

#[test]
fn slab_region_without_remainder() {
    let mut slab = Slab::<BLOCK_SIZE>::empty();
    assert!(slab.is_empty());
    assert_eq!(slab.add_region(0x4000, 2 * BLOCK_SIZE), None);
    assert_eq!(slab.free_count(), 2);
    assert!(!slab.is_empty());
}

#[test]
fn slab_region_smaller_than_a_block() {
    let mut slab = Slab::<BLOCK_SIZE>::empty();
    assert_eq!(slab.add_region(0x4000, 63), Some((0x4000, 63)));
    assert_eq!(slab.free_count(), 0);
    assert_eq!(slab.add_region(0x5000, 0), None);
    assert_eq!(slab.free_count(), 0);
}

#[test]
fn slab_pops_lowest_address_first() {
    let mut slab = Slab::<BLOCK_SIZE>::new(0x1000, 3 * BLOCK_SIZE + 5);
    assert_eq!(slab.free_count(), 3);
    assert_eq!(slab.allocate(layout(1)), Some(0x1000));
    assert_eq!(slab.allocate(layout(1)), Some(0x1000 + BLOCK_SIZE));
    assert_eq!(slab.allocate(layout(1)), Some(0x1000 + 2 * BLOCK_SIZE));
    assert_eq!(slab.allocate(layout(1)), None);
    assert!(slab.is_empty());
}

#[test]
fn slab_new_region_comes_before_the_free_blocks() {
    let mut slab = Slab::<BLOCK_SIZE>::new(0x1000, 2 * BLOCK_SIZE);
    slab.add_region(0x8000, 2 * BLOCK_SIZE);
    assert_eq!(slab.allocate(layout(8)), Some(0x8000));
    assert_eq!(slab.allocate(layout(8)), Some(0x8000 + BLOCK_SIZE));
    assert_eq!(slab.allocate(layout(8)), Some(0x1000));
    assert_eq!(slab.allocate(layout(8)), Some(0x1000 + BLOCK_SIZE));
    assert_eq!(slab.allocate(layout(8)), None);
}

#[test]
fn slab_is_last_in_first_out() {
    let mut slab = Slab::<BLOCK_SIZE>::new(0x1000, 4 * BLOCK_SIZE);
    let first = slab.allocate(layout(8)).unwrap();
    let second = slab.allocate(layout(8)).unwrap();
    slab.deallocate(first, layout(8));
    slab.deallocate(second, layout(8));
    assert_eq!(slab.allocate(layout(8)), Some(second));
    assert_eq!(slab.allocate(layout(8)), Some(first));
}

#[test]
fn slab_refuses_a_layout_larger_than_a_block() {
    let mut slab = Slab::<BLOCK_SIZE>::new(0x1000, 4 * BLOCK_SIZE);
    assert_eq!(slab.allocate(layout(BLOCK_SIZE + 1)), None);
    assert_eq!(slab.free_count(), 4);
    assert_eq!(slab.allocate(layout(BLOCK_SIZE)), Some(0x1000));
}

#[test]
fn slab_block_size_and_preferred_size() {
    let slab = Slab::<256>::with_preferred_size(0x2000);
    assert_eq!(slab.block_size(), 256);
    assert_eq!(slab.free_count(), 4);
    assert_eq!(Slab::<256>::preferred_extend_size(), 1024);
    assert_eq!(Slab::<BLOCK_SIZE>::preferred_extend_size(), 4 * BLOCK_SIZE);
}

#[test]
fn free_block_list_push_pop_count() {
    let mut list = FreeBlockList::new(0x1000, 3 * 16 + 1, 16);
    assert_eq!(list.count(), 3);
    assert!(!list.is_emtpy());
    assert_eq!(list.pop().map(|block| block.as_ptr()), Some(0x1000));
    list.push(SlabBlock::new(0x9000));
    assert_eq!(list.count(), 3);
    assert_eq!(list.pop().map(|block| block.as_ptr()), Some(0x9000));
    assert_eq!(list.pop().map(|block| block.as_ptr()), Some(0x1010));
    assert_eq!(list.pop().map(|block| block.as_ptr()), Some(0x1020));
    assert!(list.pop().is_none());
    assert!(list.is_emtpy());
    assert_eq!(list.count(), 0);
    list.extend(0x2000, 32, 16);
    assert_eq!(list.count(), 2);
    assert!(FreeBlockList::empty().is_emtpy());
}

#[test]
fn layout_needs_a_power_of_two_alignment() {
    assert!(Layout::from_size_align(10, 0).is_none());
    assert!(Layout::from_size_align(10, 3).is_none());
    assert!(Layout::from_size_align(10, 12).is_none());
    let layout = Layout::from_size_align(10, 16).unwrap();
    assert_eq!(layout.size(), 10);
    assert_eq!(layout.align(), 16);
    assert!(Layout::from_size_align(0, 1).is_some());
}
