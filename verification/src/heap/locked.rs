//! Lazily initialised locked heap.
//!
//! The heap of a process, or of the kernel, has to serve before anything
//! else is ready, the provider of its mutex included. It is therefore
//! built on its first use: the mutex is obtained from a factory and the
//! heap is constructed over the memory supplier, once.
use vstd::prelude::*;
use crate::heap::heap::Heap;
use crate::heap::layout::Layout;
use crate::sync::mutex::{Mutex, TBackRawMutex};

verus! {

/// The states of a lazily initialised value.
#[derive(Copy, Clone, Debug, PartialEq, Eq, Structural)]
pub enum LazyState {
    /// Nobody has used the value yet.
    Uninitialized,
    /// The initializer was started and has not finished.
    Initializing,
    /// The value is constructed.
    Ready,
}

/// What happens to a lazily initialised value.
#[derive(Copy, Clone, Debug, PartialEq, Eq, Structural)]
pub enum LazyEvent {
    /// Somebody wants to use the value.
    Touch,
    /// The initializer has finished.
    InitDone,
}

/// What whoever touches a lazily initialised value has to do.
#[derive(Copy, Clone, Debug, PartialEq, Eq, Structural)]
pub enum LazyAction {
    /// Run the initializer, then report that it has finished.
    RunInitializer,
    /// Wait until the initializer which somebody else runs has finished.
    Wait,
    /// Use the value.
    Proceed,
}

impl LazyState {
    /// The state after the value was touched, and what whoever touched it
    /// has to do.
    pub open spec fn spec_touch(self) -> (LazyState, LazyAction) {
        match self {
            LazyState::Uninitialized => (LazyState::Initializing, LazyAction::RunInitializer),
            LazyState::Initializing => (LazyState::Initializing, LazyAction::Wait),
            LazyState::Ready => (LazyState::Ready, LazyAction::Proceed),
        }
    }

    /// The state after the initializer has finished.
    pub open spec fn spec_init_done(self) -> LazyState {
        match self {
            LazyState::Initializing => LazyState::Ready,
            other => other,
        }
    }

    /// The state after `event`.
    pub open spec fn spec_step(self, event: LazyEvent) -> LazyState {
        match event {
            LazyEvent::Touch => self.spec_touch().0,
            LazyEvent::InitDone => self.spec_init_done(),
        }
    }

    /// The state after all of `events`, in their order.
    pub open spec fn spec_after(self, events: Seq<LazyEvent>) -> LazyState
        decreases events.len(),
    {
        if events.len() == 0 {
            self
        } else {
            self.spec_step(events[0]).spec_after(events.skip(1))
        }
    }

    /// How many times the initializer is run over all of `events`.
    pub open spec fn spec_runs(self, events: Seq<LazyEvent>) -> nat
        decreases events.len(),
    {
        if events.len() == 0 {
            0
        } else {
            let run: nat = if events[0] == LazyEvent::Touch && self.spec_touch().1
                == LazyAction::RunInitializer {
                1
            } else {
                0
            };
            run + self.spec_step(events[0]).spec_runs(events.skip(1))
        }
    }

    /// Takes note that somebody wants to use the value: returns the next
    /// state and what that one has to do.
    pub fn touch(self) -> (next: (LazyState, LazyAction))
        ensures
            next == self.spec_touch(),
    {
        match self {
            LazyState::Uninitialized => (LazyState::Initializing, LazyAction::RunInitializer),
            LazyState::Initializing => (LazyState::Initializing, LazyAction::Wait),
            LazyState::Ready => (LazyState::Ready, LazyAction::Proceed),
        }
    }

    /// Takes note that the initializer has finished: returns the next
    /// state.
    pub fn init_done(self) -> (next: LazyState)
        ensures
            next == self.spec_init_done(),
    {
        match self {
            LazyState::Initializing => LazyState::Ready,
            other => other,
        }
    }
}

/// A value which has left the uninitialized state never goes back to it,
/// and its initializer is never run again.
pub proof fn lemma_lazy_no_way_back(state: LazyState, events: Seq<LazyEvent>)
    requires
        state != LazyState::Uninitialized,
    ensures
        state.spec_after(events) != LazyState::Uninitialized,
        state.spec_runs(events) == 0,
    decreases events.len(),
{
    if events.len() > 0 {
        lemma_lazy_no_way_back(state.spec_step(events[0]), events.skip(1));
    }
}

/// Whatever the touches and however they are interleaved, the initializer
/// is run once, by the first touch, and never when nobody touches the
/// value.
pub proof fn lemma_lazy_single_init(events: Seq<LazyEvent>)
    ensures
        LazyState::Uninitialized.spec_runs(events) <= 1,
        LazyState::Uninitialized.spec_runs(events) == 1 <==> events.contains(LazyEvent::Touch),
    decreases events.len(),
{
    let state = LazyState::Uninitialized;
    if events.len() > 0 {
        let rest = events.skip(1);
        if events[0] == LazyEvent::Touch {
            lemma_lazy_no_way_back(LazyState::Initializing, rest);
            assert(events.contains(LazyEvent::Touch));
        } else {
            lemma_lazy_single_init(rest);
            if rest.contains(LazyEvent::Touch) {
                let i = choose|i: int| 0 <= i < rest.len() && rest[i] == LazyEvent::Touch;
                assert(events[i + 1] == LazyEvent::Touch);
            }
            if events.contains(LazyEvent::Touch) {
                let i = choose|i: int| 0 <= i < events.len() && events[i] == LazyEvent::Touch;
                assert(rest[i - 1] == LazyEvent::Touch);
            }
        }
    }
}

/// The value is ready only after the initializer was started by a touch
/// and has finished.
pub proof fn lemma_lazy_ready_needs_init(events: Seq<LazyEvent>)
    requires
        LazyState::Uninitialized.spec_after(events) == LazyState::Ready,
    ensures
        events.contains(LazyEvent::Touch),
        events.contains(LazyEvent::InitDone),
        LazyState::Uninitialized.spec_runs(events) == 1,
    decreases events.len(),
{
    lemma_lazy_single_init(events);
    lemma_lazy_ready_after(LazyState::Uninitialized, events);
}

/// A value which is not ready at first and is ready after `events` has
/// seen the initializer finish; one which was uninitialized at first has
/// also been touched.
pub proof fn lemma_lazy_ready_after(state: LazyState, events: Seq<LazyEvent>)
    requires
        state != LazyState::Ready,
        state.spec_after(events) == LazyState::Ready,
    ensures
        events.contains(LazyEvent::InitDone),
        state == LazyState::Uninitialized ==> events.contains(LazyEvent::Touch),
    decreases events.len(),
{
    if events.len() > 0 {
        let rest = events.skip(1);
        let next = state.spec_step(events[0]);
        if next == LazyState::Ready {
            assert(events[0] == LazyEvent::InitDone);
            assert(state == LazyState::Initializing);
        } else {
            lemma_lazy_ready_after(next, rest);
            let i = choose|i: int| 0 <= i < rest.len() && rest[i] == LazyEvent::InitDone;
            assert(events[i + 1] == LazyEvent::InitDone);
            if state == LazyState::Uninitialized {
                if events[0] != LazyEvent::Touch {
                    let j = choose|j: int| 0 <= j < rest.len() && rest[j] == LazyEvent::Touch;
                    assert(events[j + 1] == LazyEvent::Touch);
                }
            }
        }
    }
}

/// Why a lazily initialised heap cannot be used.
#[derive(Copy, Clone, Debug, PartialEq, Eq, Structural)]
pub enum LazyHeapError {
    /// The factory gave no mutex.
    NoMutex,
    /// The memory supplier gave no memory to construct the heap.
    NoMemory,
    /// An earlier initialization has failed: it is not tried again.
    InitFailed,
}

/// Locked heap with a customizable mutex backend that is lazily
/// initialized.
///
/// `F` is the factory of the mutex backend and `S` the memory supplier of
/// the heap. Both are called by the first use of the heap and never
/// again.
#[verifier::reject_recursive_types(M)]
pub struct RawLazyLockedHeap<
    M: TBackRawMutex,
    F: Fn() -> Option<M>,
    S: Fn(usize) -> Option<(usize, usize)>,
> {
    m_state: LazyState,
    m_raw_mutex_supplier: F,
    m_mem_supplier: Option<S>,
    m_locked_heap: Option<Mutex<M, Heap<S>>>,
}

impl<
    M: TBackRawMutex,
    F: Fn() -> Option<M>,
    S: Fn(usize) -> Option<(usize, usize)>,
> RawLazyLockedHeap<M, F, S> {
    /// The state of the initialization.
    pub closed spec fn spec_state(&self) -> LazyState {
        self.m_state
    }

    /// The factory of the mutex backend.
    pub closed spec fn spec_raw_mutex_supplier(&self) -> F {
        self.m_raw_mutex_supplier
    }

    /// The memory supplier, until the heap is constructed over it.
    pub closed spec fn spec_mem_supplier(&self) -> Option<S> {
        self.m_mem_supplier
    }

    /// The mutex backend which guards the heap, once the factory has
    /// given it.
    pub closed spec fn spec_raw_mutex(&self) -> Option<M> {
        match self.m_locked_heap {
            Some(locked_heap) => Some(locked_heap.spec_raw_mutex()),
            None => None,
        }
    }

    /// The heap, once it is constructed.
    pub closed spec fn spec_heap(&self) -> Option<Heap<S>> {
        match self.m_locked_heap {
            Some(locked_heap) => Some(locked_heap@),
            None => None,
        }
    }

    /// The invariant of the lazy heap: the heap exists when the state is
    /// ready and only then, and it meets its own invariant.
    pub closed spec fn wf(&self) -> bool {
        &&& call_requires(self.m_raw_mutex_supplier, ())
        &&& self.m_state == LazyState::Ready <==> self.m_locked_heap is Some
        &&& self.m_locked_heap is Some ==> self.m_locked_heap->0@.wf()
        &&& self.m_state == LazyState::Uninitialized ==> self.m_mem_supplier is Some && forall|
            n: usize,
        | call_requires(self.m_mem_supplier->0, (n,))
    }

    /// In a lazy heap which meets its invariant the heap exists when the
    /// state is ready and only then, and it meets its own invariant.
    pub proof fn lemma_ready_has_heap(&self)
        requires
            self.wf(),
        ensures
            self.spec_state() == LazyState::Ready <==> self.spec_heap() is Some,
            self.spec_heap() is Some ==> self.spec_heap()->0.wf(),
    {
    }

    /// Whether `ptr` is allocated from the heap in the size class of
    /// `layout`.
    pub open spec fn is_live(&self, ptr: usize, layout: Layout) -> bool {
        self.spec_heap() is Some && self.spec_heap()->0.is_live(ptr, layout)
    }

    /// Constructs a `RawLazyLockedHeap` without initializing the mutex
    /// and the heap: neither the factory nor the supplier is called.
    pub fn new(raw_mutex_supplier: F, mem_supplier: S) -> (lazy_heap: Self)
        requires
            call_requires(raw_mutex_supplier, ()),
            forall|n: usize| call_requires(mem_supplier, (n,)),
        ensures
            lazy_heap.wf(),
            lazy_heap.spec_state() == LazyState::Uninitialized,
            lazy_heap.spec_heap() is None,
            lazy_heap.spec_raw_mutex_supplier() == raw_mutex_supplier,
            lazy_heap.spec_mem_supplier() == Some(mem_supplier),
    {
        Self {
            m_state: LazyState::Uninitialized,
            m_raw_mutex_supplier: raw_mutex_supplier,
            m_mem_supplier: Some(mem_supplier),
            m_locked_heap: None,
        }
    }

    /// Whether `raw_mutex` is what the factory of this lazy heap has
    /// answered, and `built` what the construction of the heap over its
    /// memory supplier has given: a heap which `Heap::new` constructs, or
    /// none, either because there was no mutex to guard it or because
    /// the supplier refused the page.
    pub open spec fn init_answers(&self, raw_mutex: Option<M>, built: Option<Heap<S>>) -> bool {
        &&& self.spec_mem_supplier() is Some
        &&& call_ensures(self.spec_raw_mutex_supplier(), (), raw_mutex)
        &&& match built {
            Some(heap) => raw_mutex is Some && heap.is_built_over(self.spec_mem_supplier()->0),
            None => raw_mutex is Some ==> Heap::<S>::refused_page(self.spec_mem_supplier()->0),
        }
    }

    /// The outcome of the initialization for what the factory and the
    /// construction of the heap have given: the heap is ready with both,
    /// without a mutex the heap is not even constructed.
    pub open spec fn spec_init_outcome(raw_mutex: Option<M>, built: Option<Heap<S>>) -> Result<
        (),
        LazyHeapError,
    > {
        if raw_mutex is None {
            Err(LazyHeapError::NoMutex)
        } else if built is None {
            Err(LazyHeapError::NoMemory)
        } else {
            Ok(())
        }
    }

    /// What the first touch of the lazy heap `before` has done when its
    /// outcome is `outcome` and the heap after it is `heap`: the factory
    /// and the construction of the heap have given answers of which
    /// `outcome` is the outcome, and `heap` is the heap constructed.
    pub open spec fn first_touch(
        before: Self,
        outcome: Result<(), LazyHeapError>,
        heap: Option<Heap<S>>,
    ) -> bool {
        exists|raw_mutex: Option<M>, built: Option<Heap<S>>|
            {
                &&& #[trigger] before.init_answers(raw_mutex, built)
                &&& outcome == Self::spec_init_outcome(raw_mutex, built)
                &&& outcome is Ok ==> heap == built
            }
    }

    /// Ends the initialization which the first touch has started, given
    /// what the factory answered and the heap which was constructed.
    ///
    /// With a mutex and a heap the lazy heap becomes ready and holds
    /// both. Without one of them it never becomes ready: the error says
    /// which one was missing, the mutex first.
    pub fn complete_init(&mut self, raw_mutex: Option<M>, built: Option<Heap<S>>) -> (outcome:
        Result<(), LazyHeapError>)
        requires
            old(self).wf(),
            old(self).spec_state() == LazyState::Initializing,
            built is Some ==> built->0.wf(),
        ensures
            final(self).wf(),
            outcome == Self::spec_init_outcome(raw_mutex, built),
            final(self).spec_raw_mutex_supplier() == old(self).spec_raw_mutex_supplier(),
            final(self).spec_mem_supplier() == old(self).spec_mem_supplier(),
            match outcome {
                Ok(_) => {
                    &&& final(self).spec_state() == LazyState::Ready
                    &&& final(self).spec_heap() == built
                    &&& final(self).spec_raw_mutex() == raw_mutex
                },
                Err(_) => {
                    &&& final(self).spec_state() == LazyState::Initializing
                    &&& final(self).spec_heap() is None
                },
            },
    {
        let raw_mutex = match raw_mutex {
            Some(raw_mutex) => raw_mutex,
            None => {
                return Err(LazyHeapError::NoMutex);
            },
        };
        match built {
            Some(heap) => {
                self.m_locked_heap = Some(Mutex::raw_new(raw_mutex, heap));
                self.m_state = self.m_state.init_done();
                Ok(())
            },
            None => Err(LazyHeapError::NoMemory),
        }
    }

    /// Forces the initialization of this lazy heap.
    ///
    /// Nothing happens when the heap is ready. The first call asks the
    /// factory for the mutex, then, when it got one, constructs the heap
    /// over the memory supplier. When one of the two fails the error is
    /// returned, the heap never becomes ready and every later call reports
    /// `InitFailed` without calling the factory or the supplier again.
    pub fn force_init(&mut self) -> (outcome: Result<(), LazyHeapError>)
        requires
            old(self).wf(),
        ensures
            final(self).wf(),
            outcome is Ok <==> final(self).spec_state() == LazyState::Ready,
            final(self).spec_raw_mutex_supplier() == old(self).spec_raw_mutex_supplier(),
            match old(self).spec_state() {
                LazyState::Ready => {
                    &&& final(self).spec_heap() == old(self).spec_heap()
                    &&& final(self).spec_raw_mutex() == old(self).spec_raw_mutex()
                },
                LazyState::Initializing => {
                    &&& outcome == Err::<(), LazyHeapError>(LazyHeapError::InitFailed)
                    &&& final(self).spec_state() == LazyState::Initializing
                },
                LazyState::Uninitialized => {
                    &&& Self::first_touch(*old(self), outcome, final(self).spec_heap())
                    &&& outcome is Ok ==> call_ensures(
                        old(self).spec_raw_mutex_supplier(),
                        (),
                        final(self).spec_raw_mutex(),
                    )
                    &&& outcome is Err ==> final(self).spec_state() == LazyState::Initializing
                },
            },
    {
        let (next, action) = self.m_state.touch();
        self.m_state = next;
        match action {
            LazyAction::Proceed => Ok(()),
            LazyAction::Wait => Err(LazyHeapError::InitFailed),
            LazyAction::RunInitializer => {
                let mem_supplier = match self.m_mem_supplier.take() {
                    Some(mem_supplier) => mem_supplier,
                    None => {
                        return Err(LazyHeapError::InitFailed);
                    },
                };
                let raw_mutex = (self.m_raw_mutex_supplier)();
                let built = if raw_mutex.is_some() {
                    Heap::new(mem_supplier)
                } else {
                    None
                };
                let ghost given_mutex = raw_mutex;
                let ghost given_heap = built;
                proof {
                    assert(old(self).init_answers(given_mutex, given_heap));
                }
                let outcome = self.complete_init(raw_mutex, built);
                proof {
                    assert(Self::first_touch(*old(self), outcome, self.spec_heap()));
                }
                outcome
            },
        }
    }

    /// The request which is served with the address `word`: none when the
    /// address is null.
    pub open spec fn spec_served(word: usize) -> Option<usize> {
        if word != 0 {
            Some(word)
        } else {
            None
        }
    }

    /// Allocates memory for `layout`, initializing the heap first when
    /// this is its first use.
    ///
    /// Returns the address of the memory, or null when the heap has none
    /// to give: what the heap itself does for the request, the heap
    /// which is ready or the one which the first touch has constructed.
    /// Fails when the heap cannot be initialized.
    pub fn allocate(&mut self, layout: Layout) -> (ptr: Result<usize, LazyHeapError>)
        requires
            old(self).wf(),
        ensures
            final(self).wf(),
            ptr is Ok <==> final(self).spec_state() == LazyState::Ready,
            final(self).spec_raw_mutex_supplier() == old(self).spec_raw_mutex_supplier(),
            ptr is Ok && ptr->Ok_0 != 0 ==> {
                &&& ptr->Ok_0 % layout.spec_align() == 0
                &&& !old(self).is_live(ptr->Ok_0, layout)
                &&& final(self).is_live(ptr->Ok_0, layout)
            },
            match old(self).spec_state() {
                LazyState::Ready => {
                    &&& ptr is Ok
                    &&& final(self).spec_heap()->0.allocated(
                        old(self).spec_heap()->0,
                        layout,
                        Self::spec_served(ptr->Ok_0),
                    )
                    &&& Heap::step(
                        old(self).spec_heap()->0,
                        final(self).spec_heap()->0,
                        layout,
                        Self::spec_served(ptr->Ok_0),
                    )
                },
                LazyState::Initializing => ptr == Err::<usize, LazyHeapError>(
                    LazyHeapError::InitFailed,
                ),
                LazyState::Uninitialized => exists|raw_mutex: Option<M>, built: Option<Heap<S>>|
                    {
                        &&& #[trigger] old(self).init_answers(raw_mutex, built)
                        &&& match Self::spec_init_outcome(raw_mutex, built) {
                            Ok(_) => {
                                &&& ptr is Ok
                                &&& final(self).spec_heap()->0.allocated(
                                    built->0,
                                    layout,
                                    Self::spec_served(ptr->Ok_0),
                                )
                                &&& Heap::step(
                                    built->0,
                                    final(self).spec_heap()->0,
                                    layout,
                                    Self::spec_served(ptr->Ok_0),
                                )
                            },
                            Err(error) => ptr == Err::<usize, LazyHeapError>(error),
                        }
                    },
            },
    {
        match self.force_init() {
            Ok(_) => {},
            Err(error) => {
                proof {
                    if old(self).spec_state() == LazyState::Uninitialized {
                        let (raw_mutex, built) = choose|
                            raw_mutex: Option<M>,
                            built: Option<Heap<S>>,
                        |
                            {
                                &&& #[trigger] old(self).init_answers(raw_mutex, built)
                                &&& Err::<(), LazyHeapError>(error) == Self::spec_init_outcome(
                                    raw_mutex,
                                    built,
                                )
                            };
                        assert(old(self).init_answers(raw_mutex, built));
                    }
                }
                return Err(error);
            },
        }
        let ghost ready = *self;
        match &mut self.m_locked_heap {
            Some(locked_heap) => {
                let heap = locked_heap.lock();
                let allocated = heap.allocate(layout);
                locked_heap.unlock();
                proof {
                    if old(self).spec_heap() is Some {
                        assert(ready.spec_heap() == old(self).spec_heap());
                    }
                    if allocated is Some && old(self).is_live(allocated->0, layout) {
                        assert(ready.spec_heap()->0.is_live_ptr(allocated->0));
                    }
                    if old(self).spec_state() == LazyState::Uninitialized {
                        let (raw_mutex, built) = choose|
                            raw_mutex: Option<M>,
                            built: Option<Heap<S>>,
                        |
                            {
                                &&& #[trigger] old(self).init_answers(raw_mutex, built)
                                &&& Ok::<(), LazyHeapError>(()) == Self::spec_init_outcome(
                                    raw_mutex,
                                    built,
                                )
                                &&& ready.spec_heap() == built
                            };
                        assert(old(self).init_answers(raw_mutex, built));
                    }
                }
                match allocated {
                    Some(ptr) => Ok(ptr),
                    None => Ok(0),
                }
            },
            None => Err(LazyHeapError::InitFailed),
        }
    }

    /// Gives the memory at `ptr`, which was allocated for `layout`, back
    /// to the heap: what the heap itself does when the memory is given
    /// back to it.
    ///
    /// The pointer must not be null, and the memory must be allocated
    /// from this heap with a layout of the same size class.
    pub fn deallocate(&mut self, ptr: usize, layout: Layout)
        requires
            old(self).wf(),
            ptr != 0,
            old(self).is_live(ptr, layout),
        ensures
            final(self).wf(),
            final(self).spec_state() == LazyState::Ready,
            final(self).spec_raw_mutex_supplier() == old(self).spec_raw_mutex_supplier(),
            final(self).spec_raw_mutex() == old(self).spec_raw_mutex(),
            !final(self).is_live(ptr, layout),
            Heap::freed_step(
                old(self).spec_heap()->0,
                final(self).spec_heap()->0,
                layout,
                ptr,
            ),
            final(self).spec_heap()->0.spec_in_use() < old(self).spec_heap()->0.spec_in_use(),
    {
        match &mut self.m_locked_heap {
            Some(locked_heap) => {
                let heap = locked_heap.lock();
                let ghost before = *heap;
                heap.deallocate(ptr, layout);
                proof {
                    before.lemma_freed_bytes(*heap, ptr, layout);
                }
                locked_heap.unlock();
            },
            None => {},
        }
    }

    /// Returns the total amount of memory returned by the memory
    /// supplier, initializing the heap first when this is its first use.
    pub fn memory_from_supplier(&mut self) -> (bytes: Result<usize, LazyHeapError>)
        requires
            old(self).wf(),
        ensures
            final(self).wf(),
            bytes is Ok <==> final(self).spec_state() == LazyState::Ready,
            final(self).spec_raw_mutex_supplier() == old(self).spec_raw_mutex_supplier(),
            old(self).spec_state() == LazyState::Initializing ==> bytes == Err::<
                usize,
                LazyHeapError,
            >(LazyHeapError::InitFailed),
            old(self).spec_state() == LazyState::Uninitialized ==> Self::first_touch(
                *old(self),
                match bytes {
                    Ok(_) => Ok(()),
                    Err(error) => Err(error),
                },
                final(self).spec_heap(),
            ),
            bytes is Ok ==> bytes->Ok_0 == final(self).spec_heap()->0.spec_from_supplier(),
            old(self).spec_heap() is Some ==> final(self).spec_heap() == old(self).spec_heap(),
    {
        match self.force_init() {
            Ok(_) => {},
            Err(error) => {
                return Err(error);
            },
        }
        match &self.m_locked_heap {
            Some(locked_heap) => {
                let bytes: usize = locked_heap.get().memory_from_supplier();
                Ok(bytes)
            },
            None => Err(LazyHeapError::InitFailed),
        }
    }

    /// Returns the total amount of in-use memory (allocated),
    /// initializing the heap first when this is its first use.
    pub fn memory_in_use(&mut self) -> (bytes: Result<usize, LazyHeapError>)
        requires
            old(self).wf(),
        ensures
            final(self).wf(),
            bytes is Ok <==> final(self).spec_state() == LazyState::Ready,
            final(self).spec_raw_mutex_supplier() == old(self).spec_raw_mutex_supplier(),
            old(self).spec_state() == LazyState::Initializing ==> bytes == Err::<
                usize,
                LazyHeapError,
            >(LazyHeapError::InitFailed),
            old(self).spec_state() == LazyState::Uninitialized ==> Self::first_touch(
                *old(self),
                match bytes {
                    Ok(_) => Ok(()),
                    Err(error) => Err(error),
                },
                final(self).spec_heap(),
            ),
            bytes is Ok ==> bytes->Ok_0 == final(self).spec_heap()->0.spec_in_use(),
            old(self).spec_heap() is Some ==> final(self).spec_heap() == old(self).spec_heap(),
    {
        match self.force_init() {
            Ok(_) => {},
            Err(error) => {
                return Err(error);
            },
        }
        match &self.m_locked_heap {
            Some(locked_heap) => {
                let bytes: usize = locked_heap.get().memory_in_use();
                Ok(bytes)
            },
            None => Err(LazyHeapError::InitFailed),
        }
    }

    /// Returns the amount of currently available memory, initializing
    /// the heap first when this is its first use.
    pub fn memory_available(&mut self) -> (bytes: Result<usize, LazyHeapError>)
        requires
            old(self).wf(),
        ensures
            final(self).wf(),
            bytes is Ok <==> final(self).spec_state() == LazyState::Ready,
            final(self).spec_raw_mutex_supplier() == old(self).spec_raw_mutex_supplier(),
            old(self).spec_state() == LazyState::Initializing ==> bytes == Err::<
                usize,
                LazyHeapError,
            >(LazyHeapError::InitFailed),
            old(self).spec_state() == LazyState::Uninitialized ==> Self::first_touch(
                *old(self),
                match bytes {
                    Ok(_) => Ok(()),
                    Err(error) => Err(error),
                },
                final(self).spec_heap(),
            ),
            bytes is Ok ==> bytes->Ok_0 == final(self).spec_heap()->0.spec_from_supplier()
                - final(self).spec_heap()->0.spec_in_use(),
            old(self).spec_heap() is Some ==> final(self).spec_heap() == old(self).spec_heap(),
    {
        match self.force_init() {
            Ok(_) => {},
            Err(error) => {
                return Err(error);
            },
        }
        match &self.m_locked_heap {
            Some(locked_heap) => {
                let bytes: usize = locked_heap.get().memory_available();
                Ok(bytes)
            },
            None => Err(LazyHeapError::InitFailed),
        }
    }
}

} // verus!
