use std::cell::Cell;

use meetix::heap::heap::{Heap, PAGE_SIZE};
use meetix::heap::layout::Layout;
use meetix::heap::locked::{LazyAction, LazyHeapError, LazyState, RawLazyLockedHeap};
use meetix::sync::mutex::{do_is_locked, Mutex, TBackRawMutex, TConstCreatBackRawMutex, TCreatMayFailBackRawMutex};

struct CountingMutex<'a> {
    locked: Cell<bool>,
    locks: &'a Cell<usize>,
    unlocks: &'a Cell<usize>,
}

impl<'a> TBackRawMutex for CountingMutex<'a> {
    fn do_lock(&self) {
        assert!(!self.locked.get());
        self.locked.set(true);
        self.locks.set(self.locks.get() + 1);
    }

    fn do_try_lock(&self) -> bool {
        if self.locked.get() {
            false
        } else {
            self.locked.set(true);
            self.locks.set(self.locks.get() + 1);
            true
        }
    }

    fn do_unlock(&self) {
        assert!(self.locked.get());
        self.locked.set(false);
        self.unlocks.set(self.unlocks.get() + 1);
    }
}

fn layout(size: usize) -> Layout {
    Layout::from_size_align(size, 8).unwrap()
}

#[test]
fn lazy_heap_single_init() {
    let factory_calls = Cell::new(0usize);
    let supplier_calls = Cell::new(0usize);
    let locks = Cell::new(0usize);
    let unlocks = Cell::new(0usize);
    let factory = || {
        factory_calls.set(factory_calls.get() + 1);
        Some(CountingMutex { locked: Cell::new(false), locks: &locks, unlocks: &unlocks })
    };
    let supplier = |_requested: usize| {
        supplier_calls.set(supplier_calls.get() + 1);
        Some((0x20_0000usize, PAGE_SIZE))
    };
    let mut heap = RawLazyLockedHeap::new(factory, supplier);
    assert_eq!(factory_calls.get(), 0);
    assert_eq!(supplier_calls.get(), 0);
    for _ in 0..8 {
        assert_eq!(heap.force_init(), Ok(()));
        assert_eq!(heap.memory_in_use(), Ok(0));
        assert_eq!(heap.memory_from_supplier(), Ok(PAGE_SIZE));
        assert_eq!(heap.memory_available(), Ok(PAGE_SIZE));
    }
    assert_eq!(factory_calls.get(), 1);
    assert_eq!(supplier_calls.get(), 1);
}

#[test]
fn lazy_heap_first_allocation_initializes() {
    let factory_calls = Cell::new(0usize);
    let locks = Cell::new(0usize);
    let unlocks = Cell::new(0usize);
    let factory = || {
        factory_calls.set(factory_calls.get() + 1);
        Some(CountingMutex { locked: Cell::new(false), locks: &locks, unlocks: &unlocks })
    };
    let supplier = |_requested: usize| Some((0x20_0000usize, PAGE_SIZE));
    let mut heap = RawLazyLockedHeap::new(factory, supplier);
    let ptr = heap.allocate(layout(100)).unwrap();
    assert_eq!(ptr, 0x20_0000);
    assert_eq!(factory_calls.get(), 1);
    assert_eq!(locks.get(), 1);
    assert_eq!(unlocks.get(), 1);
    assert_eq!(heap.memory_in_use(), Ok(256));
    heap.deallocate(ptr, layout(100));
    assert_eq!(locks.get(), 2);
    assert_eq!(unlocks.get(), 2);
    assert_eq!(heap.memory_in_use(), Ok(0));
    assert_eq!(heap.allocate(layout(100)), Ok(ptr));
    assert_eq!(factory_calls.get(), 1);
}

#[test]
fn lazy_heap_returns_null_when_memory_is_exhausted() {
    let calls = Cell::new(0usize);
    let locks = Cell::new(0usize);
    let unlocks = Cell::new(0usize);
    let factory =
        || Some(CountingMutex { locked: Cell::new(false), locks: &locks, unlocks: &unlocks });
    let supplier = |_requested: usize| {
        calls.set(calls.get() + 1);
        if calls.get() == 1 {
            Some((0x20_0000usize, PAGE_SIZE))
        } else {
            None
        }
    };
    let mut heap = RawLazyLockedHeap::new(factory, supplier);
    assert_eq!(heap.allocate(layout(8)), Ok(0));
    assert_eq!(heap.allocate(layout(100_000)), Ok(0));
    assert_eq!(heap.allocate(layout(200)), Ok(0x20_0000));
}

#[test]
fn lazy_heap_without_mutex_fails() {
    let factory_calls = Cell::new(0usize);
    let supplier_calls = Cell::new(0usize);
    let factory = || -> Option<CountingMutex<'static>> {
        factory_calls.set(factory_calls.get() + 1);
        None
    };
    let supplier = |_requested: usize| {
        supplier_calls.set(supplier_calls.get() + 1);
        Some((0x20_0000usize, PAGE_SIZE))
    };
    let mut heap = RawLazyLockedHeap::new(factory, supplier);
    assert_eq!(heap.force_init(), Err(LazyHeapError::NoMutex));
    assert_eq!(heap.force_init(), Err(LazyHeapError::InitFailed));
    assert_eq!(heap.allocate(layout(8)), Err(LazyHeapError::InitFailed));
    assert_eq!(heap.memory_in_use(), Err(LazyHeapError::InitFailed));
    assert_eq!(factory_calls.get(), 1);
    assert_eq!(supplier_calls.get(), 0);
}

#[test]
fn lazy_heap_without_memory_fails() {
    let factory_calls = Cell::new(0usize);
    let supplier_calls = Cell::new(0usize);
    let locks = Cell::new(0usize);
    let unlocks = Cell::new(0usize);
    let factory = || {
        factory_calls.set(factory_calls.get() + 1);
        Some(CountingMutex { locked: Cell::new(false), locks: &locks, unlocks: &unlocks })
    };
    let supplier = |_requested: usize| -> Option<(usize, usize)> {
        supplier_calls.set(supplier_calls.get() + 1);
        None
    };
    let mut heap = RawLazyLockedHeap::new(factory, supplier);
    assert_eq!(heap.memory_from_supplier(), Err(LazyHeapError::NoMemory));
    assert_eq!(heap.memory_available(), Err(LazyHeapError::InitFailed));
    assert_eq!(factory_calls.get(), 1);
    assert_eq!(supplier_calls.get(), 1);
}

#[test]
fn lazy_state_machine() {
    assert_eq!(
        LazyState::Uninitialized.touch(),
        (LazyState::Initializing, LazyAction::RunInitializer)
    );
    assert_eq!(LazyState::Initializing.touch(), (LazyState::Initializing, LazyAction::Wait));
    assert_eq!(LazyState::Ready.touch(), (LazyState::Ready, LazyAction::Proceed));
    assert_eq!(LazyState::Uninitialized.init_done(), LazyState::Uninitialized);
    assert_eq!(LazyState::Initializing.init_done(), LazyState::Ready);
    assert_eq!(LazyState::Ready.init_done(), LazyState::Ready);
}

#[test]
fn lazy_state_runs_the_initializer_once_for_many_touches() {
    let mut state = LazyState::Uninitialized;
    let mut runs = 0;
    for round in 0..10 {
        let (next, action) = state.touch();
        state = next;
        if action == LazyAction::RunInitializer {
            runs += 1;
        }
        if round == 4 {
            state = state.init_done();
        }
        assert_ne!(state, LazyState::Uninitialized);
    }
    assert_eq!(runs, 1);
    assert_eq!(state, LazyState::Ready);
}

struct PlainMutex {
    locked: Cell<bool>,
}

impl TBackRawMutex for PlainMutex {
    fn do_lock(&self) {
        self.locked.set(true);
    }

    fn do_try_lock(&self) -> bool {
        !self.locked.replace(true)
    }

    fn do_unlock(&self) {
        self.locked.set(false);
    }
}

impl TConstCreatBackRawMutex for PlainMutex {
    fn const_creat() -> Self {
        PlainMutex { locked: Cell::new(false) }
    }
}

struct FailingMutex;

impl TBackRawMutex for FailingMutex {
    fn do_lock(&self) {}

    fn do_try_lock(&self) -> bool {
        false
    }

    fn do_unlock(&self) {}
}

impl TCreatMayFailBackRawMutex for FailingMutex {
    type CreatError = &'static str;

    fn try_creat() -> Result<Self, Self::CreatError> {
        Err("no kernel object")
    }
}

impl TCreatMayFailBackRawMutex for PlainMutex {
    type CreatError = ();

    fn try_creat() -> Result<Self, Self::CreatError> {
        Ok(PlainMutex { locked: Cell::new(false) })
    }
}

#[test]
fn mutex_holds_and_guards_the_data() {
    let mut mutex: Mutex<PlainMutex, u32> = Mutex::const_new(7);
    assert!(!mutex.is_locked());
    {
        let data = mutex.lock();
        assert_eq!(*data, 7);
        *data = 9;
    }
    assert!(mutex.is_locked());
    assert!(mutex.try_lock().is_none());
    mutex.unlock();
    assert!(!mutex.is_locked());
    {
        let data = mutex.try_lock().unwrap();
        assert_eq!(*data, 9);
        *data += 1;
    }
    mutex.unlock();
    *mutex.data_mut() += 1;
    assert_eq!(*mutex.get(), 11);
    assert_eq!(mutex.into_inner(), 11);
}

#[test]
fn mutex_constructors() {
    let raw: Mutex<PlainMutex, &str> = Mutex::raw_new(PlainMutex { locked: Cell::new(true) }, "x");
    assert!(raw.is_locked());
    assert_eq!(raw.into_inner(), "x");
    let failing: Result<Mutex<FailingMutex, u8>, &'static str> = Mutex::new(1);
    assert_eq!(failing.err(), Some("no kernel object"));
    let created: Result<Mutex<PlainMutex, u8>, ()> = Mutex::new(1);
    assert_eq!(created.ok().unwrap().into_inner(), 1);
}

#[test]
fn is_locked_probe_leaves_the_mutex_as_it_was() {
    let free = PlainMutex { locked: Cell::new(false) };
    assert!(!do_is_locked(&free));
    assert!(!free.locked.get());
    let held = PlainMutex { locked: Cell::new(true) };
    assert!(do_is_locked(&held));
    assert!(held.locked.get());
}

#[test]
fn lazy_heap_initialization_is_completed_with_both_answers() {
    let none = || -> Option<PlainMutex> { None };
    let supplier = |_requested: usize| Some((0x20_0000usize, PAGE_SIZE));
    let mut without_mutex = RawLazyLockedHeap::new(none, supplier);
    assert_eq!(without_mutex.force_init(), Err(LazyHeapError::NoMutex));
    assert_eq!(without_mutex.complete_init(None, None), Err(LazyHeapError::NoMutex));
    assert_eq!(
        without_mutex.complete_init(None, Heap::new(supplier)),
        Err(LazyHeapError::NoMutex)
    );
    assert_eq!(
        without_mutex.complete_init(Some(PlainMutex { locked: Cell::new(false) }), None),
        Err(LazyHeapError::NoMemory)
    );
    assert_eq!(without_mutex.force_init(), Err(LazyHeapError::InitFailed));
    assert_eq!(
        without_mutex
            .complete_init(Some(PlainMutex { locked: Cell::new(false) }), Heap::new(supplier)),
        Ok(())
    );
    assert_eq!(without_mutex.force_init(), Ok(()));
    assert_eq!(without_mutex.allocate(layout(200)), Ok(0x20_0000));
    assert_eq!(without_mutex.allocate(layout(200)), Ok(0x20_0100));
    assert_eq!(without_mutex.memory_in_use(), Ok(512));
}

#[test]
fn lazy_heap_serves_what_the_heap_serves() {
    let factory = || Some(PlainMutex { locked: Cell::new(false) });
    let calls = Cell::new(0usize);
    let supplier = |requested: usize| {
        calls.set(calls.get() + 1);
        if calls.get() == 1 {
            Some((0x20_0000usize, PAGE_SIZE))
        } else if requested == 256 {
            Some((0x30_0000usize, 256usize))
        } else {
            None
        }
    };
    let mut heap = RawLazyLockedHeap::new(factory, supplier);
    for index in 0..16 {
        assert_eq!(heap.allocate(layout(256)), Ok(0x20_0000 + index * 256));
    }
    assert_eq!(heap.allocate(layout(256)), Ok(0));
    assert_eq!(heap.allocate(layout(64)), Ok(0x30_0000));
    assert_eq!(heap.allocate(layout(64)), Ok(0x30_0040));
    heap.deallocate(0x30_0000, layout(64));
    assert_eq!(heap.memory_in_use(), Ok(16 * 256 + 64));
    assert_eq!(heap.allocate(layout(1)), Ok(0x30_0000));
    assert_eq!(heap.allocate(layout(5000)), Ok(0));
}
