use std::cell::Cell;

use meetix::heap::heap::{BigBlock, Heap, SizeClass, PAGE_SIZE};
use meetix::heap::layout::Layout;
use meetix::heap::os::{mem_supplier_region, mem_supplier_size};

fn layout(size: usize, align: usize) -> Layout {
    Layout::from_size_align(size, align).unwrap()
}

fn round_up_to_page(size: usize) -> usize {
    (size + PAGE_SIZE - 1) / PAGE_SIZE * PAGE_SIZE
}

#[test]
fn heap_end_to_end_scenario() {
    let next = Cell::new(0x10_0000usize);
    let calls = Cell::new(0usize);
    let supplier = |requested: usize| {
        calls.set(calls.get() + 1);
        let size = round_up_to_page(requested);
        let base = next.get();
        next.set(base + size);
        Some((base, size))
    };
    let mut heap = Heap::new(supplier).unwrap();
    let request = layout(64, 64);
    let mut first = Vec::new();
    for _ in 0..100 {
        let ptr = heap.allocate(request).unwrap();
        assert_ne!(ptr, 0);
        assert_eq!(ptr % 64, 0);
        assert!(!first.contains(&ptr));
        first.push(ptr);
    }
    assert_eq!(heap.memory_in_use(), 100 * 64);
    for ptr in first.iter() {
        heap.deallocate(*ptr, request);
    }
    assert_eq!(heap.memory_in_use(), 0);
    let supplied = heap.memory_from_supplier();
    let mut second = Vec::new();
    for _ in 0..100 {
        second.push(heap.allocate(request).unwrap());
    }
    assert_eq!(heap.memory_from_supplier(), supplied);
    first.sort();
    second.sort();
    assert_eq!(first, second);
}

#[test]
fn heap_new_asks_for_one_page() {
    let calls = Cell::new(0usize);
    let asked = Cell::new(0usize);
    let supplier = |requested: usize| {
        calls.set(calls.get() + 1);
        asked.set(requested);
        Some((0x20_0000usize, PAGE_SIZE))
    };
    let heap = Heap::new(supplier).unwrap();
    assert_eq!(calls.get(), 1);
    assert_eq!(asked.get(), PAGE_SIZE);
    assert_eq!(heap.memory_from_supplier(), PAGE_SIZE);
    assert_eq!(heap.memory_in_use(), 0);
    assert_eq!(heap.memory_available(), PAGE_SIZE);
}

#[test]
fn heap_new_fails_without_memory() {
    assert!(Heap::new(|_requested: usize| None).is_none());
    assert!(Heap::new(|_requested: usize| Some((0usize, PAGE_SIZE))).is_none());
    assert!(Heap::new(|_requested: usize| Some((0x1001usize, PAGE_SIZE))).is_none());
    assert!(Heap::new(|_requested: usize| Some((0x1000usize, PAGE_SIZE - 1))).is_none());
    assert!(Heap::new(|_requested: usize| Some((usize::MAX - 0xFFF, PAGE_SIZE))).is_none());
}

#[test]
fn heap_medium_blocks_come_from_the_first_page() {
    let calls = Cell::new(0usize);
    let supplier = |_requested: usize| {
        calls.set(calls.get() + 1);
        if calls.get() == 1 {
            Some((0x20_0000usize, PAGE_SIZE))
        } else {
            None
        }
    };
    let mut heap = Heap::new(supplier).unwrap();
    let request = layout(200, 8);
    assert_eq!(SizeClass::of(&request), SizeClass::Medium);
    for index in 0..16 {
        assert_eq!(heap.allocate(request), Some(0x20_0000 + index * 256));
    }
    assert_eq!(calls.get(), 1);
    assert_eq!(heap.memory_in_use(), PAGE_SIZE);
    assert_eq!(heap.memory_available(), 0);
    assert_eq!(heap.allocate(request), None);
    assert_eq!(calls.get(), 2);
    assert_eq!(heap.memory_in_use(), PAGE_SIZE);
    heap.deallocate(0x20_0000 + 3 * 256, request);
    assert_eq!(heap.memory_in_use(), PAGE_SIZE - 256);
    assert_eq!(heap.allocate(request), Some(0x20_0000 + 3 * 256));
    assert_eq!(calls.get(), 2);
}

#[test]
fn heap_small_slab_grows_by_four_blocks() {
    let asked = Cell::new(0usize);
    let calls = Cell::new(0usize);
    let supplier = |requested: usize| {
        calls.set(calls.get() + 1);
        asked.set(requested);
        if calls.get() == 1 {
            Some((0x20_0000usize, PAGE_SIZE))
        } else {
            Some((0x30_0000usize, requested))
        }
    };
    let mut heap = Heap::new(supplier).unwrap();
    let request = layout(10, 2);
    assert_eq!(SizeClass::of(&request), SizeClass::Small);
    assert_eq!(heap.allocate(request), Some(0x30_0000));
    assert_eq!(asked.get(), 4 * 64);
    assert_eq!(heap.memory_from_supplier(), PAGE_SIZE + 256);
    assert_eq!(heap.memory_in_use(), 64);
    assert_eq!(heap.allocate(request), Some(0x30_0040));
    assert_eq!(heap.allocate(request), Some(0x30_0080));
    assert_eq!(heap.allocate(request), Some(0x30_00C0));
    assert_eq!(calls.get(), 2);
    assert_eq!(heap.memory_available(), PAGE_SIZE);
}

#[test]
fn heap_remainder_of_a_medium_region_goes_to_the_small_slab() {
    let supplier = |_requested: usize| Some((0x20_0000usize, PAGE_SIZE + 200));
    let mut heap = Heap::new(supplier).unwrap();
    let small = layout(64, 1);
    assert_eq!(heap.allocate(small), Some(0x20_0000 + PAGE_SIZE));
    assert_eq!(heap.allocate(small), Some(0x20_0000 + PAGE_SIZE + 64));
    assert_eq!(heap.allocate(small), Some(0x20_0000 + PAGE_SIZE + 128));
    assert_eq!(heap.memory_in_use(), 3 * 64);
    assert_eq!(heap.memory_from_supplier(), PAGE_SIZE + 200);
}

#[test]
fn heap_rejects_a_region_which_overlaps() {
    let calls = Cell::new(0usize);
    let supplier = |_requested: usize| {
        calls.set(calls.get() + 1);
        Some((0x20_0000usize, PAGE_SIZE))
    };
    let mut heap = Heap::new(supplier).unwrap();
    assert!(heap.is_acceptable(256, (0x30_0000, 256)));
    assert!(!heap.is_acceptable(256, (0x20_0000, 256)));
    assert!(!heap.is_acceptable(256, (0x1F_F000, 2 * PAGE_SIZE)));
    assert!(!heap.is_acceptable(256, (0x30_0000, 255)));
    assert!(!heap.is_acceptable(0, (0x30_0000, 0)));
    assert!(!heap.is_acceptable(256, (0x30_0010, 256)));
    assert!(!heap.is_acceptable(256, (0, 256)));
    assert_eq!(heap.allocate(layout(8, 8)), None);
    assert_eq!(calls.get(), 2);
    assert_eq!(heap.memory_from_supplier(), PAGE_SIZE);
    assert!(!heap.accept_region(SizeClass::Small, 256, Some((0x20_0800, 256))));
    assert!(!heap.accept_region(SizeClass::Small, 256, None));
    assert!(heap.accept_region(SizeClass::Small, 256, Some((0x40_0000, 300))));
    assert_eq!(heap.memory_from_supplier(), PAGE_SIZE + 300);
    assert_eq!(heap.allocate(layout(8, 8)), Some(0x40_0000));
}

#[test]
fn heap_big_requests_get_a_region_of_their_own() {
    let next = Cell::new(0x10_0000usize);
    let calls = Cell::new(0usize);
    let supplier = |requested: usize| {
        calls.set(calls.get() + 1);
        let size = round_up_to_page(requested);
        let base = next.get();
        next.set(base + size);
        Some((base, size))
    };
    let mut heap = Heap::new(supplier).unwrap();
    let big = layout(5000, 16);
    assert_eq!(SizeClass::of(&big), SizeClass::Big);
    let first = heap.allocate(big).unwrap();
    assert_eq!(first, 0x10_1000);
    assert_eq!(calls.get(), 2);
    assert_eq!(heap.memory_in_use(), 2 * PAGE_SIZE);
    let second = heap.allocate(big).unwrap();
    assert_eq!(second, 0x10_3000);
    assert_ne!(first, second);
    heap.deallocate(first, big);
    assert_eq!(heap.memory_in_use(), 2 * PAGE_SIZE);
    assert_eq!(heap.allocate(layout(8000, 8)), Some(first));
    assert_eq!(calls.get(), 3);
    heap.deallocate(second, big);
    assert_eq!(heap.allocate(layout(9000, 8)), Some(0x10_5000));
    assert_eq!(calls.get(), 4);
    assert_eq!(heap.memory_from_supplier(), PAGE_SIZE + 2 * PAGE_SIZE + 2 * PAGE_SIZE + 3 * PAGE_SIZE);
}

#[test]
fn heap_big_request_by_alignment() {
    let next = Cell::new(0x10_0000usize);
    let supplier = |requested: usize| {
        let size = round_up_to_page(requested.max(1));
        let base = next.get();
        next.set(base + size);
        Some((base, size))
    };
    let mut heap = Heap::new(supplier).unwrap();
    let aligned = layout(8, 4096);
    assert_eq!(SizeClass::of(&aligned), SizeClass::Big);
    let ptr = heap.allocate(aligned).unwrap();
    assert_eq!(ptr % 4096, 0);
    assert_eq!(heap.allocate(layout(8, 0x100_0000)), None);
}

#[test]
fn heap_accept_big_region() {
    let supplier = |_requested: usize| Some((0x20_0000usize, PAGE_SIZE));
    let mut heap = Heap::new(supplier).unwrap();
    let big = layout(5000, 8192);
    assert_eq!(heap.accept_big_region(big, None), None);
    assert_eq!(heap.accept_big_region(big, Some((0x30_0000, 4999))), None);
    assert_eq!(heap.accept_big_region(big, Some((0x30_1000, 5000))), None);
    assert_eq!(heap.accept_big_region(big, Some((0x20_0000, 5000))), None);
    assert_eq!(heap.memory_in_use(), 0);
    assert_eq!(heap.accept_big_region(big, Some((0x30_0000, 6000))), Some(0x30_0000));
    assert_eq!(heap.memory_in_use(), 6000);
    assert_eq!(heap.memory_from_supplier(), PAGE_SIZE + 6000);
    let block = BigBlock { base: 0x30_0000, size: 6000, used: true };
    assert_eq!(block.size, 6000);
}

#[test]
fn heap_size_classes() {
    assert_eq!(SizeClass::of(&layout(0, 1)), SizeClass::Small);
    assert_eq!(SizeClass::of(&layout(64, 64)), SizeClass::Small);
    assert_eq!(SizeClass::of(&layout(65, 1)), SizeClass::Medium);
    assert_eq!(SizeClass::of(&layout(1, 128)), SizeClass::Medium);
    assert_eq!(SizeClass::of(&layout(256, 256)), SizeClass::Medium);
    assert_eq!(SizeClass::of(&layout(257, 1)), SizeClass::Big);
    assert_eq!(SizeClass::of(&layout(1, 512)), SizeClass::Big);
}

#[test]
fn unsupplied_heap_has_nothing() {
    let mut heap = Heap::unsupplied(|_requested: usize| None);
    assert_eq!(heap.memory_from_supplier(), 0);
    assert_eq!(heap.memory_in_use(), 0);
    assert_eq!(heap.memory_available(), 0);
    assert_eq!(heap.allocate(layout(8, 8)), None);
    assert_eq!(heap.allocate(layout(100, 8)), None);
    assert_eq!(heap.allocate(layout(1000, 8)), None);
}

#[test]
fn mem_supplier_size_rounds_up_to_pages() {
    assert_eq!(mem_supplier_size(1), Some(4096));
    assert_eq!(mem_supplier_size(0), Some(0));
    assert_eq!(mem_supplier_size(4096), Some(4096));
    assert_eq!(mem_supplier_size(4097), Some(8192));
    assert_eq!(mem_supplier_size(256), Some(4096));
    assert_eq!(mem_supplier_size(usize::MAX), None);
    assert_eq!(mem_supplier_size(usize::MAX - 4095), None);
    assert_eq!(mem_supplier_size(usize::MAX - 4096), Some(usize::MAX - 4095));
    assert_eq!(mem_supplier_size(usize::MAX - 8191), Some(usize::MAX - 8191));
}

#[test]
fn mem_supplier_region_pairs_address_and_size() {
    assert_eq!(mem_supplier_region(8192, Some(0x7000_0000)), Some((0x7000_0000, 8192)));
    assert_eq!(mem_supplier_region(8192, None), None);
}
