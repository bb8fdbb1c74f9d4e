//! Heap which multiplexes the slab allocators.
//!
//! A request is served by the slab of its size class. A slab which has
//! run out of blocks is grown with a region obtained from the memory
//! supplier. A request which is too large for every slab gets a region of
//! its own.
use vstd::prelude::*;
use crate::heap::layout::{Layout, is_power_of_two};
use crate::heap::slab::{
    Slab, after_allocate, after_deallocate, lemma_region_blocks_apart, lemma_whole_blocks,
    region_blocks,
};

verus! {

/// Block size of the slab which serves the small requests.
pub const SMALL_BLOCK_SIZE: usize = 64;

/// Block size of the slab which serves the medium requests.
pub const MEDIUM_BLOCK_SIZE: usize = 256;

/// Size of a memory page: every region of the memory supplier starts at a
/// multiple of it.
pub const PAGE_SIZE: usize = 4096;

/// The way a request is served, chosen by its size and its alignment.
#[derive(Copy, Clone, Debug, PartialEq, Eq, Structural)]
pub enum SizeClass {
    /// Served by the slab of 64 byte blocks.
    Small,
    /// Served by the slab of 256 byte blocks.
    Medium,
    /// Served by a region of its own.
    Big,
}

impl SizeClass {
    /// The class of the requests with the given layout: the smallest block
    /// size which is no less than the size and the alignment.
    pub open spec fn spec_of(layout: Layout) -> SizeClass {
        if layout.spec_size() <= SMALL_BLOCK_SIZE && layout.spec_align() <= SMALL_BLOCK_SIZE {
            SizeClass::Small
        } else if layout.spec_size() <= MEDIUM_BLOCK_SIZE && layout.spec_align()
            <= MEDIUM_BLOCK_SIZE {
            SizeClass::Medium
        } else {
            SizeClass::Big
        }
    }

    /// Returns the class of the requests with the given layout.
    pub fn of(layout: &Layout) -> (class: SizeClass)
        ensures
            class == Self::spec_of(*layout),
    {
        if layout.size() <= SMALL_BLOCK_SIZE && layout.align() <= SMALL_BLOCK_SIZE {
            SizeClass::Small
        } else if layout.size() <= MEDIUM_BLOCK_SIZE && layout.align() <= MEDIUM_BLOCK_SIZE {
            SizeClass::Medium
        } else {
            SizeClass::Big
        }
    }
}

/// A region which serves one big request at a time.
#[derive(Copy, Clone, Debug, PartialEq, Eq, Structural)]
pub struct BigBlock {
    /// First address of the region.
    pub base: usize,
    /// Size of the region in bytes.
    pub size: usize,
    /// Whether the region is allocated.
    pub used: bool,
}

/// Whether two regions, each given by its first address and its size,
/// share no byte.
pub open spec fn regions_apart(first: (usize, usize), second: (usize, usize)) -> bool {
    first.0 + first.1 <= second.0 || second.0 + second.1 <= first.0
}

/// Whether the block of `block_size` bytes at `block` lies inside
/// `region`.
pub open spec fn block_in_region(block: usize, block_size: usize, region: (usize, usize)) -> bool {
    region.0 <= block && block + block_size <= region.0 + region.1
}

/// Whether the block of `block_size` bytes at `block` lies inside one of
/// `regions`.
pub open spec fn block_covered(block: usize, block_size: usize, regions: Seq<(usize, usize)>) -> bool {
    exists|i: int| 0 <= i < regions.len() && block_in_region(block, block_size, #[trigger] regions[i])
}

/// The bytes of all of `regions` together.
pub open spec fn regions_total(regions: Seq<(usize, usize)>) -> nat
    decreases regions.len(),
{
    if regions.len() == 0 {
        0
    } else {
        regions_total(regions.drop_last()) + regions.last().1 as nat
    }
}

/// The bytes of those of `blocks` which are allocated, when `used` is
/// true, or of those which are free, when it is false.
pub open spec fn big_bytes(blocks: Seq<BigBlock>, used: bool) -> nat
    decreases blocks.len(),
{
    if blocks.len() == 0 {
        0
    } else {
        big_bytes(blocks.drop_last(), used) + if blocks.last().used == used {
            blocks.last().size as nat
        } else {
            0
        }
    }
}

/// Whether the heap takes what the memory supplier returned for a request
/// of `requested` bytes.
///
/// The region must start at a multiple of the page size which is not
/// null, hold at least one byte and at least the bytes asked for, lie
/// inside the address space, share no byte with a region taken before,
/// and leave the count of the supplied bytes inside the machine word.
pub open spec fn region_acceptable(
    regions: Seq<(usize, usize)>,
    from_supplier: usize,
    requested: usize,
    region: (usize, usize),
) -> bool {
    &&& region.0 != 0
    &&& region.0 % PAGE_SIZE == 0
    &&& region.1 > 0
    &&& region.1 >= requested
    &&& region.0 + region.1 <= usize::MAX
    &&& from_supplier + region.1 <= usize::MAX
    &&& forall|i: int| 0 <= i < regions.len() ==> regions_apart(#[trigger] regions[i], region)
}

/// Whether `block` is free and can serve a request with `layout`.
pub open spec fn big_block_fits(block: BigBlock, layout: Layout) -> bool {
    !block.used && block.size >= layout.spec_size() && block.base % layout.spec_align() == 0
}

/// Whether `blocks[index]` is the first of `blocks` which is free and can
/// serve a request with `layout`.
pub open spec fn is_first_fit(blocks: Seq<BigBlock>, layout: Layout, index: int) -> bool {
    &&& 0 <= index < blocks.len()
    &&& big_block_fits(blocks[index], layout)
    &&& forall|i: int| 0 <= i < index ==> !big_block_fits(#[trigger] blocks[i], layout)
}

/// `block` with its mark set to `used`.
pub open spec fn marked(block: BigBlock, used: bool) -> BigBlock {
    BigBlock { base: block.base, size: block.size, used }
}

/// The blocks which the slab of the small blocks gets from `region` when
/// the region was obtained for the slab of `class`: all its whole blocks
/// for the small class, those of what the medium blocks left for the
/// medium class.
pub open spec fn small_blocks_of(class: SizeClass, region: (usize, usize)) -> Seq<usize> {
    match class {
        SizeClass::Small => region_blocks(
            region.0,
            (region.1 / SMALL_BLOCK_SIZE) as nat,
            SMALL_BLOCK_SIZE,
        ),
        SizeClass::Medium => if region.1 % MEDIUM_BLOCK_SIZE == 0 {
            Seq::empty()
        } else {
            region_blocks(
                (region.0 + region.1 - region.1 % MEDIUM_BLOCK_SIZE) as usize,
                ((region.1 % MEDIUM_BLOCK_SIZE) / SMALL_BLOCK_SIZE) as nat,
                SMALL_BLOCK_SIZE,
            )
        },
        SizeClass::Big => Seq::empty(),
    }
}

/// The blocks which the slab of the medium blocks gets from `region` when
/// the region was obtained for the slab of `class`.
pub open spec fn medium_blocks_of(class: SizeClass, region: (usize, usize)) -> Seq<usize> {
    match class {
        SizeClass::Medium => region_blocks(
            region.0,
            (region.1 / MEDIUM_BLOCK_SIZE) as nat,
            MEDIUM_BLOCK_SIZE,
        ),
        _ => Seq::empty(),
    }
}

/// An address other than the first of a list is in the list without its
/// first address when it is in the list.
pub proof fn lemma_skip_contains(blocks: Seq<usize>, ptr: usize)
    requires
        blocks.len() > 0,
    ensures
        ptr != blocks[0] ==> (blocks.skip(1).contains(ptr) <==> blocks.contains(ptr)),
        blocks.skip(1).contains(ptr) ==> blocks.contains(ptr),
{
    let rest = blocks.skip(1);
    if rest.contains(ptr) {
        let i = choose|i: int| 0 <= i < rest.len() && rest[i] == ptr;
        assert(blocks[i + 1] == ptr);
    }
    if blocks.contains(ptr) && ptr != blocks[0] {
        let i = choose|i: int| 0 <= i < blocks.len() && blocks[i] == ptr;
        assert(rest[i - 1] == ptr);
    }
}

/// The bytes of the regions of the big requests with one more region.
pub proof fn lemma_big_bytes_push(blocks: Seq<BigBlock>, block: BigBlock)
    ensures
        big_bytes(blocks.push(block), block.used) == big_bytes(blocks, block.used) + block.size,
        big_bytes(blocks.push(block), !block.used) == big_bytes(blocks, !block.used),
{
    assert(blocks.push(block).drop_last() == blocks);
}

/// The bytes of the regions of the big requests after the mark of the
/// region `index` was turned over to `used`: they move from one count to
/// the other, and the count they leave held them.
pub proof fn lemma_big_bytes_update(blocks: Seq<BigBlock>, index: int, used: bool)
    requires
        0 <= index < blocks.len(),
        blocks[index].used != used,
    ensures
        big_bytes(blocks, !used) >= blocks[index].size,
        big_bytes(blocks.update(index, marked(blocks[index], used)), used) == big_bytes(
            blocks,
            used,
        ) + blocks[index].size,
        big_bytes(blocks.update(index, marked(blocks[index], used)), !used) == big_bytes(
            blocks,
            !used,
        ) - blocks[index].size,
    decreases blocks.len(),
{
    let updated = blocks.update(index, marked(blocks[index], used));
    if index == blocks.len() - 1 {
        assert(updated.drop_last() == blocks.drop_last());
    } else {
        lemma_big_bytes_update(blocks.drop_last(), index, used);
        assert(updated.drop_last() == blocks.drop_last().update(
            index,
            marked(blocks[index], used),
        ));
    }
}

/// The bytes of the regions with one more region are the bytes before
/// plus the bytes of that region.
pub proof fn lemma_regions_total_push(regions: Seq<(usize, usize)>, region: (usize, usize))
    ensures
        regions_total(regions.push(region)) == regions_total(regions) + region.1,
{
    assert(regions.push(region).drop_last() == regions);
}

/// An address is in the concatenation of two lists when it is in one of
/// them.
pub proof fn lemma_concat_contains(front: Seq<usize>, back: Seq<usize>, ptr: usize)
    ensures
        (front + back).contains(ptr) <==> front.contains(ptr) || back.contains(ptr),
{
    let both = front + back;
    if both.contains(ptr) {
        let i = choose|i: int| 0 <= i < both.len() && both[i] == ptr;
        if i < front.len() {
            assert(front[i] == ptr);
        } else {
            assert(back[i - front.len()] == ptr);
        }
    }
    if front.contains(ptr) {
        let i = choose|i: int| 0 <= i < front.len() && front[i] == ptr;
        assert(both[i] == ptr);
    }
    if back.contains(ptr) {
        let i = choose|i: int| 0 <= i < back.len() && back[i] == ptr;
        assert(both[i + front.len()] == ptr);
    }
}

/// The blocks of a region which starts at a multiple of the block size
/// start at multiples of the block size, and lie inside the region.
pub proof fn lemma_blocks_aligned(start: usize, area_size: usize, block_size: usize)
    requires
        block_size > 0,
        start != 0,
        start % block_size == 0,
        start + area_size <= usize::MAX,
    ensures
        ({
            let region = region_blocks(start, (area_size / block_size) as nat, block_size);
            forall|i: int|
                0 <= i < region.len() ==> (#[trigger] region[i]) % block_size == 0
                    && block_in_region(region[i], block_size, (start, area_size))
        }),
{
    let region = region_blocks(start, (area_size / block_size) as nat, block_size);
    lemma_region_blocks_apart(start, area_size, block_size);
    assert forall|i: int| 0 <= i < region.len() implies (#[trigger] region[i]) % block_size == 0
        && block_in_region(region[i], block_size, (start, area_size)) by {
        assert(start <= region[i] && region[i] + block_size <= start + area_size);
        crate::heap::slab::lemma_region_fits(area_size, block_size, i);
        assert(region[i] == start + i * block_size);
        vstd::arithmetic::div_mod::lemma_mod_multiples_vanish(
            i,
            start as int,
            block_size as int,
        );
        assert(i * block_size == block_size * i) by (nonlinear_arith);
    }
}

/// Multiplexer of the slab allocators.
///
/// `S` is the memory supplier: called with the amount of bytes which the
/// heap needs, it returns the first address and the size of a new region,
/// or `None` when the memory is exhausted.
pub struct Heap<S: Fn(usize) -> Option<(usize, usize)>> {
    m_mem_supplier: S,
    m_small: Slab<SMALL_BLOCK_SIZE>,
    m_medium: Slab<MEDIUM_BLOCK_SIZE>,
    m_big: Vec<BigBlock>,
    m_regions: Vec<(usize, usize)>,
    m_from_supplier: usize,
    m_in_use: usize,
    m_live_small: Ghost<Set<usize>>,
    m_live_medium: Ghost<Set<usize>>,
    m_wasted: Ghost<nat>,
}

impl<S: Fn(usize) -> Option<(usize, usize)>> Heap<S> {
    /// The memory supplier of the heap.
    pub closed spec fn spec_mem_supplier(&self) -> S {
        self.m_mem_supplier
    }

    /// The free blocks of 64 bytes, the next to be allocated first.
    pub closed spec fn small_free(&self) -> Seq<usize> {
        self.m_small@
    }

    /// The free blocks of 256 bytes, the next to be allocated first.
    pub closed spec fn medium_free(&self) -> Seq<usize> {
        self.m_medium@
    }

    /// The regions of the big requests, by the order they were obtained.
    pub closed spec fn big_blocks(&self) -> Seq<BigBlock> {
        self.m_big@
    }

    /// The regions obtained from the memory supplier, by the order they
    /// were obtained.
    pub closed spec fn regions(&self) -> Seq<(usize, usize)> {
        self.m_regions@
    }

    /// The allocated blocks of 64 bytes.
    pub closed spec fn live_small(&self) -> Set<usize> {
        self.m_live_small@
    }

    /// The allocated blocks of 256 bytes.
    pub closed spec fn live_medium(&self) -> Set<usize> {
        self.m_live_medium@
    }

    /// The total amount of bytes obtained from the memory supplier.
    pub closed spec fn spec_from_supplier(&self) -> usize {
        self.m_from_supplier
    }

    /// The total amount of allocated bytes.
    pub closed spec fn spec_in_use(&self) -> usize {
        self.m_in_use
    }

    /// The bytes which were obtained and which no block holds: what was
    /// left of a region after it was cut into blocks.
    pub closed spec fn wasted(&self) -> nat {
        self.m_wasted@
    }

    /// Whether a big request is being served at `ptr`.
    pub open spec fn is_live_big(&self, ptr: usize) -> bool {
        exists|i: int|
            0 <= i < self.big_blocks().len() && (#[trigger] self.big_blocks()[i]).base == ptr
                && self.big_blocks()[i].used
    }

    /// Whether `ptr` is allocated, whatever its size class.
    pub open spec fn is_live_ptr(&self, ptr: usize) -> bool {
        self.live_small().contains(ptr) || self.live_medium().contains(ptr) || self.is_live_big(
            ptr,
        )
    }

    /// Whether `ptr` is allocated in the size class of `layout`.
    pub open spec fn is_live(&self, ptr: usize, layout: Layout) -> bool {
        match SizeClass::spec_of(layout) {
            SizeClass::Small => self.live_small().contains(ptr),
            SizeClass::Medium => self.live_medium().contains(ptr),
            SizeClass::Big => self.is_live_big(ptr),
        }
    }

    /// The invariant of the heap.
    pub closed spec fn wf(&self) -> bool {
        &&& forall|n: usize| call_requires(self.m_mem_supplier, (n,))
        &&& self.m_small.wf()
        &&& self.m_medium.wf()
        &&& self.regions_wf()
        &&& self.blocks_wf()
        &&& self.big_wf()
        &&& self.live_wf()
        &&& self.accounts_wf()
    }

    /// No region is null, empty or leaves the address space, and no two
    /// regions share a byte.
    pub closed spec fn regions_wf(&self) -> bool {
        &&& forall|i: int|
            0 <= i < self.m_regions.len() ==> (#[trigger] self.m_regions[i]).0 != 0
                && self.m_regions[i].1 > 0 && self.m_regions[i].0 + self.m_regions[i].1
                <= usize::MAX
        &&& forall|i: int, j: int|
            0 <= i < self.m_regions.len() && 0 <= j < self.m_regions.len() && i != j
                ==> regions_apart(#[trigger] self.m_regions[i], #[trigger] self.m_regions[j])
    }

    /// Every block of a slab lies inside a region and starts at a
    /// multiple of its size; no block shares a byte with a block of the
    /// other slab.
    pub closed spec fn blocks_wf(&self) -> bool {
        &&& forall|block: usize| #[trigger]
            self.m_small.owned().contains(block) ==> block % SMALL_BLOCK_SIZE == 0
                && block_covered(block, SMALL_BLOCK_SIZE, self.m_regions@)
        &&& forall|block: usize| #[trigger]
            self.m_medium.owned().contains(block) ==> block % MEDIUM_BLOCK_SIZE == 0
                && block_covered(block, MEDIUM_BLOCK_SIZE, self.m_regions@)
        &&& forall|small: usize, medium: usize|
            #![trigger self.m_small.owned().contains(small), self.m_medium.owned().contains(medium)]
            self.m_small.owned().contains(small) && self.m_medium.owned().contains(medium)
                ==> small + SMALL_BLOCK_SIZE <= medium || medium + MEDIUM_BLOCK_SIZE <= small
    }

    /// Every region of a big request is one of the regions obtained and
    /// shares no byte with a block of a slab; no two of them start at the
    /// same address.
    pub closed spec fn big_wf(&self) -> bool {
        &&& forall|i: int|
            0 <= i < self.m_big.len() ==> exists|j: int|
                0 <= j < self.m_regions.len() && #[trigger] self.m_regions[j] == (
                    (#[trigger] self.m_big[i]).base,
                    self.m_big[i].size,
                )
        &&& forall|i: int, j: int|
            0 <= i < self.m_big.len() && 0 <= j < self.m_big.len() && i != j ==> (
            #[trigger] self.m_big[i]).base != (#[trigger] self.m_big[j]).base
        &&& forall|i: int, block: usize|
            0 <= i < self.m_big.len() && #[trigger] self.m_small.owned().contains(block)
                ==> regions_apart(
                ((#[trigger] self.m_big[i]).base, self.m_big[i].size),
                (block, SMALL_BLOCK_SIZE),
            )
        &&& forall|i: int, block: usize|
            0 <= i < self.m_big.len() && #[trigger] self.m_medium.owned().contains(block)
                ==> regions_apart(
                ((#[trigger] self.m_big[i]).base, self.m_big[i].size),
                (block, MEDIUM_BLOCK_SIZE),
            )
    }

    /// The allocated blocks are the blocks of the slabs which are not
    /// free.
    pub closed spec fn live_wf(&self) -> bool {
        &&& self.m_live_small@.finite()
        &&& self.m_live_medium@.finite()
        &&& forall|ptr: usize|
            self.m_live_small@.contains(ptr) <==> #[trigger] self.m_small.is_allocated(ptr)
        &&& forall|ptr: usize|
            self.m_live_medium@.contains(ptr) <==> #[trigger] self.m_medium.is_allocated(ptr)
    }

    /// The two counts agree with the blocks: what is in use is what the
    /// allocated blocks hold, and every byte obtained is in use, free or
    /// wasted.
    pub closed spec fn accounts_wf(&self) -> bool {
        &&& self.m_from_supplier == regions_total(self.m_regions@)
        &&& self.m_in_use == SMALL_BLOCK_SIZE * self.m_live_small@.len() + MEDIUM_BLOCK_SIZE
            * self.m_live_medium@.len() + big_bytes(self.m_big@, true)
        &&& self.m_in_use + SMALL_BLOCK_SIZE * self.m_small@.len() + MEDIUM_BLOCK_SIZE
            * self.m_medium@.len() + big_bytes(self.m_big@, false) + self.m_wasted@
            == self.m_from_supplier
    }

    /// In a heap which meets its invariant no more bytes are in use than
    /// were obtained, and the bytes in use are those of the allocated
    /// blocks.
    pub proof fn lemma_accounts(&self)
        requires
            self.wf(),
        ensures
            self.spec_in_use() <= self.spec_from_supplier(),
            self.spec_from_supplier() == regions_total(self.regions()),
            self.spec_in_use() == SMALL_BLOCK_SIZE * self.live_small().len() + MEDIUM_BLOCK_SIZE
                * self.live_medium().len() + big_bytes(self.big_blocks(), true),
            self.spec_in_use() + SMALL_BLOCK_SIZE * self.small_free().len() + MEDIUM_BLOCK_SIZE
                * self.medium_free().len() + big_bytes(self.big_blocks(), false) + self.wasted()
                == self.spec_from_supplier(),
    {
    }

    /// In a heap which meets its invariant an allocated pointer is not
    /// null, and no free block is allocated.
    pub proof fn lemma_live_not_free(&self, ptr: usize)
        requires
            self.wf(),
            self.live_small().contains(ptr) || self.live_medium().contains(ptr),
        ensures
            ptr != 0,
            !self.small_free().contains(ptr),
            !self.medium_free().contains(ptr),
    {
        if self.live_small().contains(ptr) {
            assert(self.m_small.is_allocated(ptr));
            if self.m_medium@.contains(ptr) {
                let i = choose|i: int| 0 <= i < self.m_medium@.len() && self.m_medium@[i] == ptr;
                assert(self.m_medium.owned().contains(self.m_medium@[i]));
            }
        } else {
            assert(self.m_medium.is_allocated(ptr));
            if self.m_small@.contains(ptr) {
                let i = choose|i: int| 0 <= i < self.m_small@.len() && self.m_small@[i] == ptr;
                assert(self.m_small.owned().contains(self.m_small@[i]));
            }
        }
    }

    /// Returns whether the heap takes `region` as the answer of the memory
    /// supplier to a request of `requested` bytes.
    pub fn is_acceptable(&self, requested: usize, region: (usize, usize)) -> (acceptable: bool)
        requires
            self.wf(),
        ensures
            acceptable == region_acceptable(
                self.regions(),
                self.spec_from_supplier(),
                requested,
                region,
            ),
    {
        let (base, size) = region;
        if base == 0 || base % PAGE_SIZE != 0 || size == 0 || size < requested {
            return false;
        }
        if size > usize::MAX - base || size > usize::MAX - self.m_from_supplier {
            return false;
        }
        let mut index: usize = 0;
        while index < self.m_regions.len()
            invariant
                self.regions_wf(),
                index <= self.m_regions.len(),
                region == (base, size),
                base + size <= usize::MAX,
                forall|i: int| 0 <= i < index ==> regions_apart(#[trigger] self.m_regions[i], region),
            decreases self.m_regions.len() - index,
        {
            let other = self.m_regions[index];
            if !(other.0 + other.1 <= base || base + size <= other.0) {
                assert(!regions_apart(self.m_regions[index as int], region));
                return false;
            }
            index = index + 1;
        }
        true
    }

    /// Whether the heap is one which `new` constructs over
    /// `mem_supplier`: the supplier has returned its first region for a
    /// page, the region is acceptable and was cut into blocks for the
    /// slab of the medium blocks, and nothing is allocated.
    pub open spec fn is_built_over(&self, mem_supplier: S) -> bool {
        &&& self.spec_mem_supplier() == mem_supplier
        &&& self.wf()
        &&& self.regions().len() == 1
        &&& call_ensures(mem_supplier, (PAGE_SIZE,), Some(self.regions()[0]))
        &&& region_acceptable(Seq::empty(), 0, PAGE_SIZE, self.regions()[0])
        &&& self.spec_in_use() == 0
        &&& self.live_small() == Set::<usize>::empty()
        &&& self.live_medium() == Set::<usize>::empty()
        &&& self.big_blocks() == Seq::<BigBlock>::empty()
        &&& self.spec_from_supplier() == self.regions()[0].1
        &&& self.medium_free() == medium_blocks_of(SizeClass::Medium, self.regions()[0])
        &&& self.small_free() == small_blocks_of(SizeClass::Medium, self.regions()[0])
    }

    /// Whether `mem_supplier`, asked for a page, has returned nothing, or
    /// a region which a heap without regions cannot take.
    pub open spec fn refused_page(mem_supplier: S) -> bool {
        exists|supplied: Option<(usize, usize)>|
            {
                &&& #[trigger] call_ensures(mem_supplier, (PAGE_SIZE,), supplied)
                &&& !(supplied is Some && region_acceptable(
                    Seq::empty(),
                    0,
                    PAGE_SIZE,
                    supplied->0,
                ))
            }
    }

    /// Constructs a `Heap` which obtains its memory from `mem_supplier`.
    ///
    /// The supplier is called once, for a page which goes to the slab of
    /// the medium blocks. The heap is constructed exactly when what the
    /// supplier returned for the page is a region which the heap can
    /// take: `None` is returned when it gave none, or one which is not
    /// acceptable.
    pub fn new(mem_supplier: S) -> (heap: Option<Self>)
        requires
            forall|n: usize| call_requires(mem_supplier, (n,)),
        ensures
            heap is Some ==> heap->0.is_built_over(mem_supplier),
            heap is None ==> Self::refused_page(mem_supplier),
    {
        let mut heap = Self::unsupplied(mem_supplier);
        let supplied = (heap.m_mem_supplier)(PAGE_SIZE);
        if heap.accept_region(SizeClass::Medium, PAGE_SIZE, supplied) {
            assert(heap.regions() == Seq::<(usize, usize)>::empty().push(supplied->0));
            Some(heap)
        } else {
            None
        }
    }

    /// Constructs a `Heap` which has obtained no memory yet.
    pub fn unsupplied(mem_supplier: S) -> (heap: Self)
        requires
            forall|n: usize| call_requires(mem_supplier, (n,)),
        ensures
            heap.spec_mem_supplier() == mem_supplier,
            heap.wf(),
            heap.spec_in_use() == 0,
            heap.spec_from_supplier() == 0,
            heap.live_small() == Set::<usize>::empty(),
            heap.live_medium() == Set::<usize>::empty(),
            heap.big_blocks() == Seq::<BigBlock>::empty(),
            heap.regions() == Seq::<(usize, usize)>::empty(),
            heap.small_free() == Seq::<usize>::empty(),
            heap.medium_free() == Seq::<usize>::empty(),
    {
        Heap {
            m_mem_supplier: mem_supplier,
            m_small: Slab::empty(),
            m_medium: Slab::empty(),
            m_big: Vec::new(),
            m_regions: Vec::new(),
            m_from_supplier: 0,
            m_in_use: 0,
            m_live_small: Ghost(Set::empty()),
            m_live_medium: Ghost(Set::empty()),
            m_wasted: Ghost(0),
        }
    }

    /// Takes what the memory supplier returned for a request of
    /// `requested` bytes made to grow the slab of `class`.
    ///
    /// A region which is acceptable is recorded and cut into blocks for
    /// the slab. What is left after the last medium block goes to the slab
    /// of the small blocks; what is left after the last small block is
    /// wasted. Nothing changes when the supplier gave no region, or one
    /// which is not acceptable.
    #[verifier::rlimit(40)]
    pub fn accept_region(
        &mut self,
        class: SizeClass,
        requested: usize,
        supplied: Option<(usize, usize)>,
    ) -> (accepted: bool)
        requires
            old(self).wf(),
            class != SizeClass::Big,
        ensures
            final(self).wf(),
            accepted == (supplied is Some && region_acceptable(
                old(self).regions(),
                old(self).spec_from_supplier(),
                requested,
                supplied->0,
            )),
            final(self).spec_mem_supplier() == old(self).spec_mem_supplier(),
            final(self).live_small() == old(self).live_small(),
            final(self).live_medium() == old(self).live_medium(),
            final(self).big_blocks() == old(self).big_blocks(),
            final(self).spec_in_use() == old(self).spec_in_use(),
            accepted ==> {
                &&& final(self).regions() == old(self).regions().push(supplied->0)
                &&& final(self).spec_from_supplier() == old(self).spec_from_supplier()
                    + (supplied->0).1
                &&& final(self).small_free() == small_blocks_of(class, supplied->0) + old(
                    self,
                ).small_free()
                &&& final(self).medium_free() == medium_blocks_of(class, supplied->0) + old(
                    self,
                ).medium_free()
            },
            !accepted ==> {
                &&& final(self).regions() == old(self).regions()
                &&& final(self).spec_from_supplier() == old(self).spec_from_supplier()
                &&& final(self).small_free() == old(self).small_free()
                &&& final(self).medium_free() == old(self).medium_free()
                &&& final(self).wasted() == old(self).wasted()
            },
    {
        let region = match supplied {
            Some(region) => region,
            None => {
                return false;
            },
        };
        if !self.is_acceptable(requested, region) {
            return false;
        }
        let (base, size) = region;
        proof {
            self.lemma_region_apart_from_blocks(region);
            lemma_regions_total_push(self.m_regions@, region);
            lemma_whole_blocks(size, SMALL_BLOCK_SIZE);
            lemma_whole_blocks(size, MEDIUM_BLOCK_SIZE);
            lemma_region_blocks_apart(base, size, SMALL_BLOCK_SIZE);
            lemma_region_blocks_apart(base, size, MEDIUM_BLOCK_SIZE);
        }
        self.m_regions.push(region);
        self.m_from_supplier = self.m_from_supplier + size;
        match class {
            SizeClass::Small => {
                let exceeding = self.m_small.add_region(base, size);
                proof {
                    self.m_wasted@ = self.m_wasted@ + (size % SMALL_BLOCK_SIZE) as nat;
                    let added = region_blocks(
                        base,
                        (size / SMALL_BLOCK_SIZE) as nat,
                        SMALL_BLOCK_SIZE,
                    );
                    assert(self.m_small@.len() == added.len() + old(self).m_small@.len());
                    lemma_blocks_aligned(base, size, SMALL_BLOCK_SIZE);
                    assert(self.m_medium.owned() =~= old(self).m_medium.owned().union(
                        Seq::<usize>::empty().to_set(),
                    ));
                    assert(self.m_medium@ =~= Seq::<usize>::empty() + old(self).m_medium@);
                    old(self).lemma_grown(*self, region, added, Seq::empty());
                }
            },
            _ => {
                let exceeding = self.m_medium.add_region(base, size);
                let ghost medium_added = region_blocks(
                    base,
                    (size / MEDIUM_BLOCK_SIZE) as nat,
                    MEDIUM_BLOCK_SIZE,
                );
                let ghost mut small_added = Seq::<usize>::empty();
                proof {
                    lemma_blocks_aligned(base, size, MEDIUM_BLOCK_SIZE);
                }
                match exceeding {
                    Some((rest_ptr, rest_size)) => {
                        proof {
                            lemma_whole_blocks(rest_size, SMALL_BLOCK_SIZE);
                            lemma_region_blocks_apart(rest_ptr, rest_size, SMALL_BLOCK_SIZE);
                            lemma_blocks_aligned(rest_ptr, rest_size, SMALL_BLOCK_SIZE);
                            small_added = region_blocks(
                                rest_ptr,
                                (rest_size / SMALL_BLOCK_SIZE) as nat,
                                SMALL_BLOCK_SIZE,
                            );
                            assert(self.m_small.is_apart_from(rest_ptr, rest_size));
                        }
                        let wasted = self.m_small.add_region(rest_ptr, rest_size);
                        proof {
                            self.m_wasted@ = self.m_wasted@ + (rest_size % SMALL_BLOCK_SIZE) as nat;
                            assert(self.m_small@.len() == small_added.len() + old(
                                self,
                            ).m_small@.len());
                        }
                    },
                    None => {
                        assert(small_blocks_of(class, region) == Seq::<usize>::empty());
                        assert(self.m_small.owned() =~= old(self).m_small.owned().union(
                            Seq::<usize>::empty().to_set(),
                        ));
                        assert(self.m_small@ =~= Seq::<usize>::empty() + old(self).m_small@);
                    },
                }
                proof {
                    assert(self.m_medium@.len() == medium_added.len() + old(self).m_medium@.len());
                    old(self).lemma_grown(*self, region, small_added, medium_added);
                }
            },
        }
        true
    }

    /// A region which is acceptable shares no byte with a block of a slab
    /// nor with the region of a big request.
    proof fn lemma_region_apart_from_blocks(&self, region: (usize, usize))
        requires
            self.wf(),
            region_acceptable(self.regions(), self.spec_from_supplier(), 0, region),
        ensures
            self.m_small.is_apart_from(region.0, region.1),
            self.m_medium.is_apart_from(region.0, region.1),
            forall|i: int|
                0 <= i < self.m_big.len() ==> regions_apart(
                    ((#[trigger] self.m_big[i]).base, self.m_big[i].size),
                    region,
                ),
    {
        assert forall|block: usize| #[trigger]
            self.m_small.owned().contains(block) implies block + SMALL_BLOCK_SIZE <= region.0
            || region.0 + region.1 <= block by {
            let i = choose|i: int|
                0 <= i < self.m_regions.len() && block_in_region(
                    block,
                    SMALL_BLOCK_SIZE,
                    #[trigger] self.m_regions[i],
                );
            assert(regions_apart(self.m_regions[i], region));
        }
        assert forall|block: usize| #[trigger]
            self.m_medium.owned().contains(block) implies block + MEDIUM_BLOCK_SIZE <= region.0
            || region.0 + region.1 <= block by {
            let i = choose|i: int|
                0 <= i < self.m_regions.len() && block_in_region(
                    block,
                    MEDIUM_BLOCK_SIZE,
                    #[trigger] self.m_regions[i],
                );
            assert(regions_apart(self.m_regions[i], region));
        }
        assert forall|i: int| 0 <= i < self.m_big.len() implies regions_apart(
            ((#[trigger] self.m_big[i]).base, self.m_big[i].size),
            region,
        ) by {
            let j = choose|j: int|
                0 <= j < self.m_regions.len() && #[trigger] self.m_regions[j] == (
                    self.m_big[i].base,
                    self.m_big[i].size,
                );
            assert(regions_apart(self.m_regions[j], region));
        }
    }

    /// The heap keeps its invariant when a slab is grown with the blocks
    /// of a new region.
    ///
    /// `self` is the heap before and `after` the heap after the region was
    /// recorded and `small_added` and `medium_added`, blocks inside the
    /// region which share no byte, were put in front of the free lists.
    proof fn lemma_grown(
        &self,
        after: Self,
        region: (usize, usize),
        small_added: Seq<usize>,
        medium_added: Seq<usize>,
    )
        requires
            self.wf(),
            region_acceptable(self.regions(), self.spec_from_supplier(), 0, region),
            after.m_mem_supplier == self.m_mem_supplier,
            after.m_small.wf(),
            after.m_medium.wf(),
            after.m_small@ == small_added + self.m_small@,
            after.m_medium@ == medium_added + self.m_medium@,
            after.m_small.owned() == self.m_small.owned().union(small_added.to_set()),
            after.m_medium.owned() == self.m_medium.owned().union(medium_added.to_set()),
            after.m_big == self.m_big,
            after.m_regions@ == self.m_regions@.push(region),
            after.m_from_supplier == self.m_from_supplier + region.1,
            after.m_in_use == self.m_in_use,
            after.m_live_small == self.m_live_small,
            after.m_live_medium == self.m_live_medium,
            after.m_wasted@ + SMALL_BLOCK_SIZE * small_added.len() + MEDIUM_BLOCK_SIZE
                * medium_added.len() == self.m_wasted@ + region.1,
            forall|i: int|
                0 <= i < small_added.len() ==> (#[trigger] small_added[i]) % SMALL_BLOCK_SIZE == 0
                    && block_in_region(small_added[i], SMALL_BLOCK_SIZE, region),
            forall|i: int|
                0 <= i < medium_added.len() ==> (#[trigger] medium_added[i]) % MEDIUM_BLOCK_SIZE
                    == 0 && block_in_region(medium_added[i], MEDIUM_BLOCK_SIZE, region),
            forall|i: int, j: int|
                0 <= i < small_added.len() && 0 <= j < medium_added.len() ==> (
                #[trigger] small_added[i]) + SMALL_BLOCK_SIZE <= (#[trigger] medium_added[j])
                    || medium_added[j] + MEDIUM_BLOCK_SIZE <= small_added[i],
        ensures
            after.wf(),
    {
        self.lemma_region_apart_from_blocks(region);
        lemma_regions_total_push(self.m_regions@, region);
        let last = self.m_regions.len() as int;
        assert(after.m_regions@[last] == region);
        assert forall|i: int| 0 <= i < self.m_regions.len() implies after.m_regions@[i]
            == self.m_regions@[i] by {}
        assert(after.regions_wf());
        assert forall|block: usize| #[trigger]
            after.m_small.owned().contains(block) implies block % SMALL_BLOCK_SIZE == 0
            && block_covered(block, SMALL_BLOCK_SIZE, after.m_regions@) by {
            if self.m_small.owned().contains(block) {
                let i = choose|i: int|
                    0 <= i < self.m_regions.len() && block_in_region(
                        block,
                        SMALL_BLOCK_SIZE,
                        #[trigger] self.m_regions[i],
                    );
                assert(block_in_region(block, SMALL_BLOCK_SIZE, after.m_regions@[i]));
            } else {
                let i = choose|i: int| 0 <= i < small_added.len() && small_added[i] == block;
                assert(block_in_region(block, SMALL_BLOCK_SIZE, after.m_regions@[last]));
            }
        }
        assert forall|block: usize| #[trigger]
            after.m_medium.owned().contains(block) implies block % MEDIUM_BLOCK_SIZE == 0
            && block_covered(block, MEDIUM_BLOCK_SIZE, after.m_regions@) by {
            if self.m_medium.owned().contains(block) {
                let i = choose|i: int|
                    0 <= i < self.m_regions.len() && block_in_region(
                        block,
                        MEDIUM_BLOCK_SIZE,
                        #[trigger] self.m_regions[i],
                    );
                assert(block_in_region(block, MEDIUM_BLOCK_SIZE, after.m_regions@[i]));
            } else {
                let i = choose|i: int| 0 <= i < medium_added.len() && medium_added[i] == block;
                assert(block_in_region(block, MEDIUM_BLOCK_SIZE, after.m_regions@[last]));
            }
        }
        assert forall|small: usize, medium: usize|
            #![trigger after.m_small.owned().contains(small), after.m_medium.owned().contains(medium)]
            after.m_small.owned().contains(small) && after.m_medium.owned().contains(
                medium,
            ) implies small + SMALL_BLOCK_SIZE <= medium || medium + MEDIUM_BLOCK_SIZE
            <= small by {
            if !self.m_small.owned().contains(small) {
                let i = choose|i: int| 0 <= i < small_added.len() && small_added[i] == small;
                assert(block_in_region(small_added[i], SMALL_BLOCK_SIZE, region));
            }
            if !self.m_medium.owned().contains(medium) {
                let j = choose|j: int| 0 <= j < medium_added.len() && medium_added[j] == medium;
                assert(block_in_region(medium_added[j], MEDIUM_BLOCK_SIZE, region));
            }
        }
        assert(after.blocks_wf());
        assert(after.big_wf()) by {
            assert forall|i: int| 0 <= i < after.m_big.len() implies exists|j: int|
                0 <= j < after.m_regions.len() && #[trigger] after.m_regions[j] == (
                    (#[trigger] after.m_big[i]).base,
                    after.m_big[i].size,
                ) by {
                let j = choose|j: int|
                    0 <= j < self.m_regions.len() && #[trigger] self.m_regions[j] == (
                        self.m_big[i].base,
                        self.m_big[i].size,
                    );
                assert(after.m_regions[j] == (after.m_big[i].base, after.m_big[i].size));
            }
            assert forall|i: int, block: usize|
                0 <= i < after.m_big.len() && #[trigger] after.m_small.owned().contains(
                    block,
                ) implies regions_apart(
                ((#[trigger] after.m_big[i]).base, after.m_big[i].size),
                (block, SMALL_BLOCK_SIZE),
            ) by {
                if !self.m_small.owned().contains(block) {
                    let k = choose|k: int| 0 <= k < small_added.len() && small_added[k] == block;
                    assert(block_in_region(small_added[k], SMALL_BLOCK_SIZE, region));
                }
            }
            assert forall|i: int, block: usize|
                0 <= i < after.m_big.len() && #[trigger] after.m_medium.owned().contains(
                    block,
                ) implies regions_apart(
                ((#[trigger] after.m_big[i]).base, after.m_big[i].size),
                (block, MEDIUM_BLOCK_SIZE),
            ) by {
                if !self.m_medium.owned().contains(block) {
                    let k = choose|k: int| 0 <= k < medium_added.len() && medium_added[k] == block;
                    assert(block_in_region(medium_added[k], MEDIUM_BLOCK_SIZE, region));
                }
            }
        }
        assert(after.live_wf()) by {
            assert forall|ptr: usize|
                after.m_live_small@.contains(ptr) <==> #[trigger] after.m_small.is_allocated(
                    ptr,
                ) by {
                if small_added.contains(ptr) {
                    let k = choose|k: int| 0 <= k < small_added.len() && small_added[k] == ptr;
                    assert(block_in_region(small_added[k], SMALL_BLOCK_SIZE, region));
                    assert(after.m_small@[k] == ptr);
                    assert(!self.m_small.owned().contains(ptr));
                    assert(!self.m_small.is_allocated(ptr));
                } else {
                    assert(after.m_small.owned().contains(ptr) == self.m_small.owned().contains(
                        ptr,
                    ));
                    lemma_concat_contains(small_added, self.m_small@, ptr);
                    assert(self.m_small.is_allocated(ptr) == after.m_small.is_allocated(ptr));
                }
            }
            assert forall|ptr: usize|
                after.m_live_medium@.contains(ptr) <==> #[trigger] after.m_medium.is_allocated(
                    ptr,
                ) by {
                if medium_added.contains(ptr) {
                    let k = choose|k: int| 0 <= k < medium_added.len() && medium_added[k] == ptr;
                    assert(block_in_region(medium_added[k], MEDIUM_BLOCK_SIZE, region));
                    assert(after.m_medium@[k] == ptr);
                    assert(!self.m_medium.owned().contains(ptr));
                    assert(!self.m_medium.is_allocated(ptr));
                } else {
                    assert(after.m_medium.owned().contains(ptr) == self.m_medium.owned().contains(
                        ptr,
                    ));
                    lemma_concat_contains(medium_added, self.m_medium@, ptr);
                    assert(self.m_medium.is_allocated(ptr) == after.m_medium.is_allocated(ptr));
                }
            }
        }
        assert(after.accounts_wf());
    }

    /// The heap keeps its invariant when its slabs change into slabs with
    /// the same blocks.
    proof fn lemma_same_blocks(&self, after: Self)
        requires
            self.wf(),
            after.m_mem_supplier == self.m_mem_supplier,
            after.m_small.wf(),
            after.m_medium.wf(),
            after.m_small@ == self.m_small@,
            after.m_medium@ == self.m_medium@,
            after.m_small.owned() == self.m_small.owned(),
            after.m_medium.owned() == self.m_medium.owned(),
            after.m_big == self.m_big,
            after.m_regions == self.m_regions,
            after.m_from_supplier == self.m_from_supplier,
            after.m_in_use == self.m_in_use,
            after.m_live_small == self.m_live_small,
            after.m_live_medium == self.m_live_medium,
            after.m_wasted == self.m_wasted,
        ensures
            after.wf(),
    {
        assert(after.blocks_wf());
        assert(after.big_wf());
        assert(after.live_wf()) by {
            assert forall|ptr: usize|
                after.m_live_small@.contains(ptr) <==> #[trigger] after.m_small.is_allocated(
                    ptr,
                ) by {
                assert(self.m_small.is_allocated(ptr) == after.m_small.is_allocated(ptr));
            }
            assert forall|ptr: usize|
                after.m_live_medium@.contains(ptr) <==> #[trigger] after.m_medium.is_allocated(
                    ptr,
                ) by {
                assert(self.m_medium.is_allocated(ptr) == after.m_medium.is_allocated(ptr));
            }
        }
        assert(after.accounts_wf());
    }

    /// In a heap which meets its invariant the blocks of a size class
    /// start at multiples of every alignment of the class.
    proof fn lemma_aligned(&self, ptr: usize, layout: Layout)
        requires
            is_power_of_two(layout.spec_align()),
            SizeClass::spec_of(layout) == SizeClass::Small && ptr % SMALL_BLOCK_SIZE == 0
                || SizeClass::spec_of(layout) == SizeClass::Medium && ptr % MEDIUM_BLOCK_SIZE == 0,
        ensures
            ptr % layout.spec_align() == 0,
    {
        let align = layout.spec_align();
        assert(align != 0 && align & ((align - 1) as usize) == 0 && align <= 256 ==> align == 1
            || align == 2 || align == 4 || align == 8 || align == 16 || align == 32 || align == 64
            || align == 128 || align == 256) by (bit_vector);
        assert(ptr % 64 == 0 ==> ptr % 1 == 0 && ptr % 2 == 0 && ptr % 4 == 0 && ptr % 8 == 0
            && ptr % 16 == 0 && ptr % 32 == 0) by (bit_vector);
        assert(ptr % 256 == 0 ==> ptr % 64 == 0 && ptr % 128 == 0) by (bit_vector);
    }

    /// What holds of every request which was served with `ptr`: the
    /// pointer is not null, is aligned as asked, was not allocated before
    /// and is allocated now in the class of `layout`.
    pub open spec fn allocated(&self, before: Self, layout: Layout, ptr: Option<usize>) -> bool {
        ptr is Some ==> {
            &&& ptr->0 != 0
            &&& ptr->0 % layout.spec_align() == 0
            &&& !before.is_live_ptr(ptr->0)
            &&& self.is_live(ptr->0, layout)
        }
    }

    /// How the heap changes when a request with `layout` is served with
    /// `ptr`, or is not served when `ptr` is `None`: the step of the size
    /// class of the layout.
    pub open spec fn step(before: Self, after: Self, layout: Layout, ptr: Option<usize>) -> bool {
        match SizeClass::spec_of(layout) {
            SizeClass::Small => Self::small_step(before, after, ptr),
            SizeClass::Medium => Self::medium_step(before, after, ptr),
            SizeClass::Big => Self::big_step(before, after, layout, ptr),
        }
    }

    /// How the heap changes when the memory at `ptr`, allocated for
    /// `layout`, is given back: the change of the size class of the
    /// layout.
    pub open spec fn freed_step(before: Self, after: Self, layout: Layout, ptr: usize) -> bool {
        match SizeClass::spec_of(layout) {
            SizeClass::Small => Self::small_freed(before, after, ptr),
            SizeClass::Medium => Self::medium_freed(before, after, ptr),
            SizeClass::Big => Self::big_freed(before, after, ptr),
        }
    }

    /// Allocates memory for `layout`.
    ///
    /// The request is served by the slab of its size class, which is grown
    /// through the memory supplier when it has no free block, or by a
    /// region of its own when it is too large for the slabs. The supplier
    /// is asked only when the heap has nothing to serve with. Returns
    /// `None` exactly when the supplier was asked and gave no region
    /// which the heap can take.
    pub fn allocate(&mut self, layout: Layout) -> (ptr: Option<usize>)
        requires
            old(self).wf(),
        ensures
            final(self).wf(),
            final(self).allocated(*old(self), layout, ptr),
            Self::step(*old(self), *final(self), layout, ptr),
    {
        match SizeClass::of(&layout) {
            SizeClass::Small => self.allocate_small(layout),
            SizeClass::Medium => self.allocate_medium(layout),
            SizeClass::Big => self.allocate_big(layout),
        }
    }

    /// Gives the memory at `ptr`, which was allocated for `layout`, back
    /// to the heap.
    ///
    /// The memory must be allocated, and `layout` must be of the size
    /// class it was allocated for. The memory is kept by the heap for the
    /// next requests: nothing goes back to the memory supplier.
    pub fn deallocate(&mut self, ptr: usize, layout: Layout)
        requires
            old(self).wf(),
            old(self).is_live(ptr, layout),
        ensures
            final(self).wf(),
            !final(self).is_live(ptr, layout),
            Self::freed_step(*old(self), *final(self), layout, ptr),
    {
        match SizeClass::of(&layout) {
            SizeClass::Small => self.deallocate_small(ptr, layout),
            SizeClass::Medium => self.deallocate_medium(ptr, layout),
            SizeClass::Big => self.deallocate_big(ptr),
        }
    }

    /// Allocates the first free block of the slab of the small blocks,
    /// which is grown first when it has none.
    fn allocate_small(&mut self, layout: Layout) -> (ptr: Option<usize>)
        requires
            old(self).wf(),
            SizeClass::spec_of(layout) == SizeClass::Small,
        ensures
            final(self).wf(),
            final(self).allocated(*old(self), layout, ptr),
            Self::small_step(*old(self), *final(self), ptr),
    {
        if self.m_small.is_empty() {
            let request: usize = 4 * SMALL_BLOCK_SIZE;
            let supplied = (self.m_mem_supplier)(request);
            let accepted = self.accept_region(SizeClass::Small, request, supplied);
            proof {
                if accepted {
                    let region = supplied->0;
                    lemma_whole_blocks(region.1, SMALL_BLOCK_SIZE);
                    crate::heap::slab::lemma_region_fits(region.1, SMALL_BLOCK_SIZE, 0);
                    assert(region.1 / SMALL_BLOCK_SIZE >= 4);
                    assert(small_blocks_of(SizeClass::Small, region)[0] == region.0);
                    assert(self.m_small@[0] == region.0);
                    assert(self.regions().last() == region);
                }
            }
        }
        let ghost grown = *self;
        let align: usize = layout.align();
        proof {
            grown.lemma_small_room();
        }
        let popped = self.m_small.allocate(layout);
        match popped {
            Some(ptr) => {
                self.m_in_use = self.m_in_use + SMALL_BLOCK_SIZE;
                proof {
                    self.m_live_small@ = self.m_live_small@.insert(ptr);
                    grown.lemma_small_allocated(*self, ptr);
                    grown.lemma_aligned(ptr, layout);
                }
                Some(ptr)
            },
            None => {
                proof {
                    grown.lemma_same_blocks(*self);
                }
                None
            },
        }
    }

    /// How the heap changes when a request of the small class is served
    /// with `ptr`, or is not served when `ptr` is `None`.
    ///
    /// When the slab had a free block the request is served with the
    /// first one and nothing is obtained. When it had none the supplier
    /// is asked for four blocks and decides: the request is served with
    /// the first address of the region it returned when that region is
    /// acceptable, else it is not served and no region is recorded.
    pub open spec fn small_step(before: Self, after: Self, ptr: Option<usize>) -> bool {
        &&& after.spec_mem_supplier() == before.spec_mem_supplier()
        &&& after.live_medium() == before.live_medium()
        &&& after.big_blocks() == before.big_blocks()
        &&& after.live_small() == if ptr is Some {
            before.live_small().insert(ptr->0)
        } else {
            before.live_small()
        }
        &&& after.spec_in_use() == before.spec_in_use() + if ptr is Some {
            SMALL_BLOCK_SIZE as int
        } else {
            0
        }
        &&& before.small_free().len() > 0 ==> {
            &&& ptr == Some(before.small_free()[0])
            &&& after.small_free() == after_allocate(before.small_free())
            &&& after.medium_free() == before.medium_free()
            &&& after.regions() == before.regions()
            &&& after.spec_from_supplier() == before.spec_from_supplier()
        }
        &&& before.small_free().len() == 0 && ptr is Some ==> {
            &&& call_ensures(
                before.spec_mem_supplier(),
                ((4 * SMALL_BLOCK_SIZE) as usize,),
                Some(after.regions().last()),
            )
            &&& after.regions() == before.regions().push(after.regions().last())
            &&& region_acceptable(
                before.regions(),
                before.spec_from_supplier(),
                (4 * SMALL_BLOCK_SIZE) as usize,
                after.regions().last(),
            )
            &&& ptr->0 == after.regions().last().0
            &&& after.spec_from_supplier() == before.spec_from_supplier()
                + after.regions().last().1
            &&& after.small_free() == after_allocate(
                small_blocks_of(SizeClass::Small, after.regions().last()),
            )
            &&& after.medium_free() == medium_blocks_of(
                SizeClass::Small,
                after.regions().last(),
            ) + before.medium_free()
        }
        &&& before.small_free().len() == 0 && ptr is None ==> {
            &&& exists|supplied: Option<(usize, usize)>|
                {
                    &&& #[trigger] call_ensures(
                        before.spec_mem_supplier(),
                        ((4 * SMALL_BLOCK_SIZE) as usize,),
                        supplied,
                    )
                    &&& !(supplied is Some && region_acceptable(
                        before.regions(),
                        before.spec_from_supplier(),
                        (4 * SMALL_BLOCK_SIZE) as usize,
                        supplied->0,
                    ))
                }
            &&& after.regions() == before.regions()
            &&& after.spec_from_supplier() == before.spec_from_supplier()
            &&& after.small_free() == before.small_free()
            &&& after.medium_free() == before.medium_free()
        }
    }

    /// While the slab of the small blocks has a free block, one more
    /// block in use leaves the count of the bytes in use inside what was
    /// obtained.
    proof fn lemma_small_room(&self)
        requires
            self.wf(),
        ensures
            self.m_small@.len() > 0 ==> self.m_in_use + SMALL_BLOCK_SIZE <= self.m_from_supplier,
    {
    }

    /// The heap keeps its invariant when the first free block of the slab
    /// of the small blocks becomes allocated; that block was not
    /// allocated before.
    proof fn lemma_small_allocated(&self, after: Self, ptr: usize)
        requires
            self.wf(),
            self.m_small@.len() > 0,
            ptr == self.m_small@[0],
            after.m_mem_supplier == self.m_mem_supplier,
            after.m_small.wf(),
            after.m_small@ == self.m_small@.skip(1),
            after.m_small.owned() == self.m_small.owned(),
            after.m_medium == self.m_medium,
            after.m_big == self.m_big,
            after.m_regions == self.m_regions,
            after.m_from_supplier == self.m_from_supplier,
            after.m_in_use == self.m_in_use + SMALL_BLOCK_SIZE,
            after.m_live_small@ == self.m_live_small@.insert(ptr),
            after.m_live_medium == self.m_live_medium,
            after.m_wasted == self.m_wasted,
        ensures
            after.wf(),
            ptr != 0,
            ptr % SMALL_BLOCK_SIZE == 0,
            !self.is_live_ptr(ptr),
    {
        assert(self.m_small.owned().contains(self.m_small@[0]));
        assert(self.m_small@.contains(ptr));
        assert(!self.m_small.is_allocated(ptr));
        assert(!self.m_live_small@.contains(ptr));
        if self.m_live_medium@.contains(ptr) {
            assert(self.m_medium.is_allocated(ptr));
        }
        if self.is_live_big(ptr) {
            let i = choose|i: int|
                0 <= i < self.big_blocks().len() && (#[trigger] self.big_blocks()[i]).base == ptr
                    && self.big_blocks()[i].used;
            assert(regions_apart(
                (self.m_big[i].base, self.m_big[i].size),
                (ptr, SMALL_BLOCK_SIZE),
            ));
            let j = choose|j: int|
                0 <= j < self.m_regions.len() && #[trigger] self.m_regions[j] == (
                    self.m_big[i].base,
                    self.m_big[i].size,
                );
            assert(self.m_regions[j].1 > 0);
        }
        assert(after.blocks_wf());
        assert(after.big_wf());
        assert(after.live_wf()) by {
            assert forall|other: usize|
                after.m_live_small@.contains(other) <==> #[trigger] after.m_small.is_allocated(
                    other,
                ) by {
                lemma_skip_contains(self.m_small@, other);
                if other == ptr {
                    if after.m_small@.contains(ptr) {
                        let i = choose|i: int|
                            0 <= i < after.m_small@.len() && after.m_small@[i] == ptr;
                        assert(self.m_small@[i + 1] == self.m_small@[0]);
                    }
                    assert(after.m_small.is_allocated(other));
                } else {
                    assert(self.m_small.is_allocated(other) == after.m_small.is_allocated(other));
                }
            }
        }
        assert(after.accounts_wf());
    }

    /// Gives the block at `ptr` back to the slab of the small blocks.
    fn deallocate_small(&mut self, ptr: usize, layout: Layout)
        requires
            old(self).wf(),
            old(self).live_small().contains(ptr),
        ensures
            final(self).wf(),
            Self::small_freed(*old(self), *final(self), ptr),
    {
        proof {
            assert(self.m_small.is_allocated(ptr));
            self.lemma_small_live_counts(ptr);
        }
        self.m_small.deallocate(ptr, layout);
        self.m_in_use = self.m_in_use - SMALL_BLOCK_SIZE;
        proof {
            self.m_live_small@ = self.m_live_small@.remove(ptr);
            old(self).lemma_small_deallocated(*self, ptr);
        }
    }

    /// How the heap changes when the allocated block of the small class
    /// at `ptr` is given back: the block becomes the first free block of
    /// its slab and its bytes are no longer in use.
    pub open spec fn small_freed(before: Self, after: Self, ptr: usize) -> bool {
        &&& after.spec_mem_supplier() == before.spec_mem_supplier()
        &&& after.live_small() == before.live_small().remove(ptr)
        &&& after.live_medium() == before.live_medium()
        &&& after.big_blocks() == before.big_blocks()
        &&& after.small_free() == after_deallocate(before.small_free(), ptr)
        &&& after.medium_free() == before.medium_free()
        &&& after.regions() == before.regions()
        &&& after.spec_from_supplier() == before.spec_from_supplier()
        &&& after.spec_in_use() == before.spec_in_use() - SMALL_BLOCK_SIZE
    }

    /// While a block of the small class is allocated, at least the bytes
    /// of one such block are in use.
    proof fn lemma_small_live_counts(&self, ptr: usize)
        requires
            self.wf(),
            self.m_live_small@.contains(ptr),
        ensures
            self.m_in_use >= SMALL_BLOCK_SIZE,
            self.m_live_small@.remove(ptr).len() + 1 == self.m_live_small@.len(),
    {
        vstd::set::axiom_set_remove_len(self.m_live_small@, ptr);
    }

    /// The heap keeps its invariant when an allocated block of the small
    /// class becomes the first free block of its slab.
    proof fn lemma_small_deallocated(&self, after: Self, ptr: usize)
        requires
            self.wf(),
            self.m_live_small@.contains(ptr),
            after.m_mem_supplier == self.m_mem_supplier,
            after.m_small.wf(),
            after.m_small@ == seq![ptr] + self.m_small@,
            after.m_small.owned() == self.m_small.owned(),
            after.m_medium == self.m_medium,
            after.m_big == self.m_big,
            after.m_regions == self.m_regions,
            after.m_from_supplier == self.m_from_supplier,
            after.m_in_use == self.m_in_use - SMALL_BLOCK_SIZE,
            after.m_live_small@ == self.m_live_small@.remove(ptr),
            after.m_live_medium == self.m_live_medium,
            after.m_wasted == self.m_wasted,
        ensures
            after.wf(),
    {
        self.lemma_small_live_counts(ptr);
        assert(after.blocks_wf());
        assert(after.big_wf());
        assert(after.live_wf()) by {
            assert forall|other: usize|
                after.m_live_small@.contains(other) <==> #[trigger] after.m_small.is_allocated(
                    other,
                ) by {
                lemma_concat_contains(seq![ptr], self.m_small@, other);
                assert(seq![ptr].contains(other) <==> other == ptr) by {
                    assert(seq![ptr][0] == ptr);
                }
                assert(self.m_small.is_allocated(other) || !after.m_small.is_allocated(other));
            }
        }
        assert(after.accounts_wf());
    }

    /// Allocates the first free block of the slab of the medium blocks,
    /// which is grown first when it has none.
    fn allocate_medium(&mut self, layout: Layout) -> (ptr: Option<usize>)
        requires
            old(self).wf(),
            SizeClass::spec_of(layout) == SizeClass::Medium,
        ensures
            final(self).wf(),
            final(self).allocated(*old(self), layout, ptr),
            Self::medium_step(*old(self), *final(self), ptr),
    {
        if self.m_medium.is_empty() {
            let request: usize = 4 * MEDIUM_BLOCK_SIZE;
            let supplied = (self.m_mem_supplier)(request);
            let accepted = self.accept_region(SizeClass::Medium, request, supplied);
            proof {
                if accepted {
                    let region = supplied->0;
                    lemma_whole_blocks(region.1, MEDIUM_BLOCK_SIZE);
                    crate::heap::slab::lemma_region_fits(region.1, MEDIUM_BLOCK_SIZE, 0);
                    assert(region.1 / MEDIUM_BLOCK_SIZE >= 4);
                    assert(medium_blocks_of(SizeClass::Medium, region)[0] == region.0);
                    assert(self.m_medium@[0] == region.0);
                    assert(self.regions().last() == region);
                }
            }
        }
        let ghost grown = *self;
        let align: usize = layout.align();
        proof {
            grown.lemma_medium_room();
        }
        let popped = self.m_medium.allocate(layout);
        match popped {
            Some(ptr) => {
                self.m_in_use = self.m_in_use + MEDIUM_BLOCK_SIZE;
                proof {
                    self.m_live_medium@ = self.m_live_medium@.insert(ptr);
                    grown.lemma_medium_allocated(*self, ptr);
                    grown.lemma_aligned(ptr, layout);
                }
                Some(ptr)
            },
            None => {
                proof {
                    grown.lemma_same_blocks(*self);
                }
                None
            },
        }
    }

    /// How the heap changes when a request of the medium class is served
    /// with `ptr`, or is not served when `ptr` is `None`.
    ///
    /// When the slab had a free block the request is served with the
    /// first one and nothing is obtained. When it had none the supplier
    /// is asked for four blocks and decides: the request is served with
    /// the first address of the region it returned when that region is
    /// acceptable, else it is not served and no region is recorded.
    pub open spec fn medium_step(before: Self, after: Self, ptr: Option<usize>) -> bool {
        &&& after.spec_mem_supplier() == before.spec_mem_supplier()
        &&& after.live_small() == before.live_small()
        &&& after.big_blocks() == before.big_blocks()
        &&& after.live_medium() == if ptr is Some {
            before.live_medium().insert(ptr->0)
        } else {
            before.live_medium()
        }
        &&& after.spec_in_use() == before.spec_in_use() + if ptr is Some {
            MEDIUM_BLOCK_SIZE as int
        } else {
            0
        }
        &&& before.medium_free().len() > 0 ==> {
            &&& ptr == Some(before.medium_free()[0])
            &&& after.medium_free() == after_allocate(before.medium_free())
            &&& after.small_free() == before.small_free()
            &&& after.regions() == before.regions()
            &&& after.spec_from_supplier() == before.spec_from_supplier()
        }
        &&& before.medium_free().len() == 0 && ptr is Some ==> {
            &&& call_ensures(
                before.spec_mem_supplier(),
                ((4 * MEDIUM_BLOCK_SIZE) as usize,),
                Some(after.regions().last()),
            )
            &&& after.regions() == before.regions().push(after.regions().last())
            &&& region_acceptable(
                before.regions(),
                before.spec_from_supplier(),
                (4 * MEDIUM_BLOCK_SIZE) as usize,
                after.regions().last(),
            )
            &&& ptr->0 == after.regions().last().0
            &&& after.spec_from_supplier() == before.spec_from_supplier()
                + after.regions().last().1
            &&& after.medium_free() == after_allocate(
                medium_blocks_of(SizeClass::Medium, after.regions().last()),
            )
            &&& after.small_free() == small_blocks_of(
                SizeClass::Medium,
                after.regions().last(),
            ) + before.small_free()
        }
        &&& before.medium_free().len() == 0 && ptr is None ==> {
            &&& exists|supplied: Option<(usize, usize)>|
                {
                    &&& #[trigger] call_ensures(
                        before.spec_mem_supplier(),
                        ((4 * MEDIUM_BLOCK_SIZE) as usize,),
                        supplied,
                    )
                    &&& !(supplied is Some && region_acceptable(
                        before.regions(),
                        before.spec_from_supplier(),
                        (4 * MEDIUM_BLOCK_SIZE) as usize,
                        supplied->0,
                    ))
                }
            &&& after.regions() == before.regions()
            &&& after.spec_from_supplier() == before.spec_from_supplier()
            &&& after.medium_free() == before.medium_free()
            &&& after.small_free() == before.small_free()
        }
    }

    /// While the slab of the medium blocks has a free block, one more
    /// block in use leaves the count of the bytes in use inside what was
    /// obtained.
    proof fn lemma_medium_room(&self)
        requires
            self.wf(),
        ensures
            self.m_medium@.len() > 0 ==> self.m_in_use + MEDIUM_BLOCK_SIZE <= self.m_from_supplier,
    {
    }

    /// The heap keeps its invariant when the first free block of the slab
    /// of the medium blocks becomes allocated; that block was not
    /// allocated before.
    proof fn lemma_medium_allocated(&self, after: Self, ptr: usize)
        requires
            self.wf(),
            self.m_medium@.len() > 0,
            ptr == self.m_medium@[0],
            after.m_mem_supplier == self.m_mem_supplier,
            after.m_medium.wf(),
            after.m_medium@ == self.m_medium@.skip(1),
            after.m_medium.owned() == self.m_medium.owned(),
            after.m_small == self.m_small,
            after.m_big == self.m_big,
            after.m_regions == self.m_regions,
            after.m_from_supplier == self.m_from_supplier,
            after.m_in_use == self.m_in_use + MEDIUM_BLOCK_SIZE,
            after.m_live_medium@ == self.m_live_medium@.insert(ptr),
            after.m_live_small == self.m_live_small,
            after.m_wasted == self.m_wasted,
        ensures
            after.wf(),
            ptr != 0,
            ptr % MEDIUM_BLOCK_SIZE == 0,
            !self.is_live_ptr(ptr),
    {
        assert(self.m_medium.owned().contains(self.m_medium@[0]));
        assert(self.m_medium@.contains(ptr));
        assert(!self.m_medium.is_allocated(ptr));
        assert(!self.m_live_medium@.contains(ptr));
        if self.m_live_small@.contains(ptr) {
            assert(self.m_small.is_allocated(ptr));
        }
        if self.is_live_big(ptr) {
            let i = choose|i: int|
                0 <= i < self.big_blocks().len() && (#[trigger] self.big_blocks()[i]).base == ptr
                    && self.big_blocks()[i].used;
            assert(regions_apart(
                (self.m_big[i].base, self.m_big[i].size),
                (ptr, MEDIUM_BLOCK_SIZE),
            ));
            let j = choose|j: int|
                0 <= j < self.m_regions.len() && #[trigger] self.m_regions[j] == (
                    self.m_big[i].base,
                    self.m_big[i].size,
                );
            assert(self.m_regions[j].1 > 0);
        }
        assert(after.blocks_wf());
        assert(after.big_wf());
        assert(after.live_wf()) by {
            assert forall|other: usize|
                after.m_live_medium@.contains(other) <==> #[trigger] after.m_medium.is_allocated(
                    other,
                ) by {
                lemma_skip_contains(self.m_medium@, other);
                if other == ptr {
                    if after.m_medium@.contains(ptr) {
                        let i = choose|i: int|
                            0 <= i < after.m_medium@.len() && after.m_medium@[i] == ptr;
                        assert(self.m_medium@[i + 1] == self.m_medium@[0]);
                    }
                    assert(after.m_medium.is_allocated(other));
                } else {
                    assert(self.m_medium.is_allocated(other) == after.m_medium.is_allocated(other));
                }
            }
        }
        assert(after.accounts_wf());
    }

    /// Gives the block at `ptr` back to the slab of the medium blocks.
    fn deallocate_medium(&mut self, ptr: usize, layout: Layout)
        requires
            old(self).wf(),
            old(self).live_medium().contains(ptr),
        ensures
            final(self).wf(),
            Self::medium_freed(*old(self), *final(self), ptr),
    {
        proof {
            assert(self.m_medium.is_allocated(ptr));
            self.lemma_medium_live_counts(ptr);
        }
        self.m_medium.deallocate(ptr, layout);
        self.m_in_use = self.m_in_use - MEDIUM_BLOCK_SIZE;
        proof {
            self.m_live_medium@ = self.m_live_medium@.remove(ptr);
            old(self).lemma_medium_deallocated(*self, ptr);
        }
    }

    /// How the heap changes when the allocated block of the medium class
    /// at `ptr` is given back: the block becomes the first free block of
    /// its slab and its bytes are no longer in use.
    pub open spec fn medium_freed(before: Self, after: Self, ptr: usize) -> bool {
        &&& after.spec_mem_supplier() == before.spec_mem_supplier()
        &&& after.live_medium() == before.live_medium().remove(ptr)
        &&& after.live_small() == before.live_small()
        &&& after.big_blocks() == before.big_blocks()
        &&& after.medium_free() == after_deallocate(before.medium_free(), ptr)
        &&& after.small_free() == before.small_free()
        &&& after.regions() == before.regions()
        &&& after.spec_from_supplier() == before.spec_from_supplier()
        &&& after.spec_in_use() == before.spec_in_use() - MEDIUM_BLOCK_SIZE
    }

    /// While a block of the medium class is allocated, at least the bytes
    /// of one such block are in use.
    proof fn lemma_medium_live_counts(&self, ptr: usize)
        requires
            self.wf(),
            self.m_live_medium@.contains(ptr),
        ensures
            self.m_in_use >= MEDIUM_BLOCK_SIZE,
            self.m_live_medium@.remove(ptr).len() + 1 == self.m_live_medium@.len(),
    {
        vstd::set::axiom_set_remove_len(self.m_live_medium@, ptr);
    }

    /// The heap keeps its invariant when an allocated block of the medium
    /// class becomes the first free block of its slab.
    proof fn lemma_medium_deallocated(&self, after: Self, ptr: usize)
        requires
            self.wf(),
            self.m_live_medium@.contains(ptr),
            after.m_mem_supplier == self.m_mem_supplier,
            after.m_medium.wf(),
            after.m_medium@ == seq![ptr] + self.m_medium@,
            after.m_medium.owned() == self.m_medium.owned(),
            after.m_small == self.m_small,
            after.m_big == self.m_big,
            after.m_regions == self.m_regions,
            after.m_from_supplier == self.m_from_supplier,
            after.m_in_use == self.m_in_use - MEDIUM_BLOCK_SIZE,
            after.m_live_medium@ == self.m_live_medium@.remove(ptr),
            after.m_live_small == self.m_live_small,
            after.m_wasted == self.m_wasted,
        ensures
            after.wf(),
    {
        self.lemma_medium_live_counts(ptr);
        assert(after.blocks_wf());
        assert(after.big_wf());
        assert(after.live_wf()) by {
            assert forall|other: usize|
                after.m_live_medium@.contains(other) <==> #[trigger] after.m_medium.is_allocated(
                    other,
                ) by {
                lemma_concat_contains(seq![ptr], self.m_medium@, other);
                assert(seq![ptr].contains(other) <==> other == ptr) by {
                    assert(seq![ptr][0] == ptr);
                }
                assert(self.m_medium.is_allocated(other) || !after.m_medium.is_allocated(other));
            }
        }
        assert(after.accounts_wf());
    }

    /// How the heap changes when a big request with `layout` is served
    /// with `ptr`, or is not served when `ptr` is `None`.
    ///
    /// When a free region fits the request is served with the first one
    /// which does. When none fits the supplier decides: the request is
    /// served with a new region which is acceptable and aligned as asked,
    /// or it is not served and no region is recorded.
    pub open spec fn big_step(before: Self, after: Self, layout: Layout, ptr: Option<usize>) -> bool {
        &&& after.spec_mem_supplier() == before.spec_mem_supplier()
        &&& after.live_small() == before.live_small()
        &&& after.live_medium() == before.live_medium()
        &&& after.small_free() == before.small_free()
        &&& after.medium_free() == before.medium_free()
        &&& forall|index: int| #[trigger]
            is_first_fit(before.big_blocks(), layout, index) ==> {
                &&& ptr == Some(before.big_blocks()[index].base)
                &&& after.big_blocks() == before.big_blocks().update(
                    index,
                    marked(before.big_blocks()[index], true),
                )
                &&& after.regions() == before.regions()
                &&& after.spec_from_supplier() == before.spec_from_supplier()
                &&& after.spec_in_use() == before.spec_in_use() + before.big_blocks()[index].size
            }
        &&& (forall|index: int|
            0 <= index < before.big_blocks().len() ==> !big_block_fits(
                #[trigger] before.big_blocks()[index],
                layout,
            )) ==> Self::big_supplied(before, after, layout, ptr) && Self::big_asked(
            before,
            after,
            layout,
            ptr,
        )
    }

    /// What the supplier has answered when it was asked for the region
    /// of a big request with `layout`: the region which serves the
    /// request, or, when the request is not served, nothing or a region
    /// which is not acceptable or not aligned as asked.
    pub open spec fn big_asked(before: Self, after: Self, layout: Layout, ptr: Option<usize>) -> bool {
        &&& ptr is Some ==> call_ensures(
            before.spec_mem_supplier(),
            (layout.spec_size(),),
            Some(after.regions().last()),
        )
        &&& ptr is None ==> exists|supplied: Option<(usize, usize)>|
            {
                &&& #[trigger] call_ensures(
                    before.spec_mem_supplier(),
                    (layout.spec_size(),),
                    supplied,
                )
                &&& !(supplied is Some && region_acceptable(
                    before.regions(),
                    before.spec_from_supplier(),
                    layout.spec_size(),
                    supplied->0,
                ) && (supplied->0).0 % layout.spec_align() == 0)
            }
    }

    /// How the heap changes when the supplier was asked for the region of
    /// a big request with `layout`.
    pub open spec fn big_supplied(before: Self, after: Self, layout: Layout, ptr: Option<usize>) -> bool {
        &&& ptr is Some ==> {
            &&& after.regions().last().0 % layout.spec_align() == 0
            &&& after.regions() == before.regions().push(after.regions().last())
            &&& region_acceptable(
                before.regions(),
                before.spec_from_supplier(),
                layout.spec_size(),
                after.regions().last(),
            )
            &&& ptr->0 == after.regions().last().0
            &&& after.big_blocks() == before.big_blocks().push(
                BigBlock {
                    base: after.regions().last().0,
                    size: after.regions().last().1,
                    used: true,
                },
            )
            &&& after.spec_from_supplier() == before.spec_from_supplier()
                + after.regions().last().1
            &&& after.spec_in_use() == before.spec_in_use() + after.regions().last().1
        }
        &&& ptr is None ==> {
            &&& after.regions() == before.regions()
            &&& after.big_blocks() == before.big_blocks()
            &&& after.spec_from_supplier() == before.spec_from_supplier()
            &&& after.spec_in_use() == before.spec_in_use()
        }
    }

    /// Serves a big request: with the first free region which fits, else
    /// with a new region obtained from the memory supplier.
    fn allocate_big(&mut self, layout: Layout) -> (ptr: Option<usize>)
        requires
            old(self).wf(),
            SizeClass::spec_of(layout) == SizeClass::Big,
        ensures
            final(self).wf(),
            final(self).allocated(*old(self), layout, ptr),
            Self::big_step(*old(self), *final(self), layout, ptr),
    {
        let size: usize = layout.size();
        let align: usize = layout.align();
        let mut index: usize = 0;
        while index < self.m_big.len()
            invariant
                *self == *old(self),
                self.wf(),
                index <= self.m_big.len(),
                SizeClass::spec_of(layout) == SizeClass::Big,
                size == layout.spec_size(),
                align == layout.spec_align(),
                align != 0,
                forall|i: int| 0 <= i < index ==> !big_block_fits(#[trigger] self.m_big[i], layout),
            decreases self.m_big.len() - index,
        {
            let block = self.m_big[index];
            if !block.used && block.size >= size && block.base % align == 0 {
                let taken = BigBlock { base: block.base, size: block.size, used: true };
                proof {
                    lemma_big_bytes_update(self.m_big@, index as int, true);
                    assert(is_first_fit(self.m_big@, layout, index as int));
                }
                self.m_big.set(index, taken);
                self.m_in_use = self.m_in_use + block.size;
                proof {
                    old(self).lemma_big_marked(*self, index as int, true);
                    assert forall|other: int| #[trigger]
                        is_first_fit(old(self).big_blocks(), layout, other) implies other
                        == index by {
                        if other < index {
                            assert(!big_block_fits(old(self).m_big[other], layout));
                        }
                    }
                    assert(taken == marked(old(self).m_big[index as int], true));
                    assert(self.big_blocks()[index as int].base == block.base
                        && self.big_blocks()[index as int].used);
                    assert(self.is_live_big(block.base));
                    assert(big_block_fits(old(self).big_blocks()[index as int], layout));
                    old(self).lemma_free_big_not_live(index as int);
                }
                return Some(block.base);
            }
            index = index + 1;
        }
        let supplied = (self.m_mem_supplier)(size);
        let ptr = self.accept_big_region(layout, supplied);
        proof {
            assert forall|other: int| #[trigger]
                is_first_fit(old(self).big_blocks(), layout, other) implies false by {
                assert(!big_block_fits(old(self).m_big[other], layout));
            }
        }
        ptr
    }

    /// Takes what the memory supplier returned for a big request with
    /// `layout`.
    ///
    /// A region which is acceptable and starts at a multiple of the
    /// alignment asked for is recorded and serves the request. Nothing
    /// changes when the supplier gave no region, or one which does not
    /// serve.
    pub fn accept_big_region(&mut self, layout: Layout, supplied: Option<(usize, usize)>) -> (ptr:
        Option<usize>)
        requires
            old(self).wf(),
            SizeClass::spec_of(layout) == SizeClass::Big,
        ensures
            final(self).wf(),
            ptr is Some <==> supplied is Some && region_acceptable(
                old(self).regions(),
                old(self).spec_from_supplier(),
                layout.spec_size(),
                supplied->0,
            ) && (supplied->0).0 % layout.spec_align() == 0,
            ptr is Some ==> final(self).regions().last() == supplied->0,
            final(self).spec_mem_supplier() == old(self).spec_mem_supplier(),
            final(self).allocated(*old(self), layout, ptr),
            final(self).live_small() == old(self).live_small(),
            final(self).live_medium() == old(self).live_medium(),
            final(self).small_free() == old(self).small_free(),
            final(self).medium_free() == old(self).medium_free(),
            Self::big_supplied(*old(self), *final(self), layout, ptr),
    {
        let region = match supplied {
            Some(region) => region,
            None => {
                return None;
            },
        };
        if !self.is_acceptable(layout.size(), region) {
            return None;
        }
        let (base, size) = region;
        if base % layout.align() != 0 {
            return None;
        }
        proof {
            self.lemma_region_apart_from_blocks(region);
            lemma_regions_total_push(self.m_regions@, region);
            lemma_big_bytes_push(self.m_big@, BigBlock { base, size, used: true });
        }
        self.m_regions.push(region);
        self.m_from_supplier = self.m_from_supplier + size;
        self.m_big.push(BigBlock { base, size, used: true });
        self.m_in_use = self.m_in_use + size;
        proof {
            old(self).lemma_big_added(*self, region);
            let last = old(self).m_big.len() as int;
            assert(self.big_blocks()[last].base == base && self.big_blocks()[last].used);
        }
        Some(base)
    }

    /// The heap keeps its invariant when a new region is recorded for a
    /// big request; the region was not allocated before.
    proof fn lemma_big_added(&self, after: Self, region: (usize, usize))
        requires
            self.wf(),
            region_acceptable(self.regions(), self.spec_from_supplier(), 0, region),
            after.m_mem_supplier == self.m_mem_supplier,
            after.m_small == self.m_small,
            after.m_medium == self.m_medium,
            after.m_big@ == self.m_big@.push(
                BigBlock { base: region.0, size: region.1, used: true },
            ),
            after.m_regions@ == self.m_regions@.push(region),
            after.m_from_supplier == self.m_from_supplier + region.1,
            after.m_in_use == self.m_in_use + region.1,
            after.m_live_small == self.m_live_small,
            after.m_live_medium == self.m_live_medium,
            after.m_wasted == self.m_wasted,
        ensures
            after.wf(),
            !self.is_live_ptr(region.0),
    {
        self.lemma_region_apart_from_blocks(region);
        lemma_regions_total_push(self.m_regions@, region);
        lemma_big_bytes_push(self.m_big@, BigBlock { base: region.0, size: region.1, used: true });
        let last_region = self.m_regions.len() as int;
        let last_big = self.m_big.len() as int;
        assert(after.m_regions@[last_region] == region);
        assert forall|i: int| 0 <= i < self.m_regions.len() implies after.m_regions@[i]
            == self.m_regions@[i] by {}
        assert forall|i: int| 0 <= i < self.m_big.len() implies after.m_big@[i]
            == self.m_big@[i] by {}
        assert(after.regions_wf());
        assert(after.blocks_wf()) by {
            assert forall|block: usize| #[trigger]
                after.m_small.owned().contains(block) implies block_covered(
                block,
                SMALL_BLOCK_SIZE,
                after.m_regions@,
            ) by {
                let i = choose|i: int|
                    0 <= i < self.m_regions.len() && block_in_region(
                        block,
                        SMALL_BLOCK_SIZE,
                        #[trigger] self.m_regions[i],
                    );
                assert(block_in_region(block, SMALL_BLOCK_SIZE, after.m_regions@[i]));
            }
            assert forall|block: usize| #[trigger]
                after.m_medium.owned().contains(block) implies block_covered(
                block,
                MEDIUM_BLOCK_SIZE,
                after.m_regions@,
            ) by {
                let i = choose|i: int|
                    0 <= i < self.m_regions.len() && block_in_region(
                        block,
                        MEDIUM_BLOCK_SIZE,
                        #[trigger] self.m_regions[i],
                    );
                assert(block_in_region(block, MEDIUM_BLOCK_SIZE, after.m_regions@[i]));
            }
        }
        assert forall|i: int| 0 <= i < self.m_big.len() implies self.m_big[i].base
            != region.0 by {
            let j = choose|j: int|
                0 <= j < self.m_regions.len() && #[trigger] self.m_regions[j] == (
                    self.m_big[i].base,
                    self.m_big[i].size,
                );
            assert(regions_apart(self.m_regions[j], region));
            assert(self.m_regions[j].1 > 0);
        }
        assert(after.big_wf()) by {
            assert forall|i: int| 0 <= i < after.m_big.len() implies exists|j: int|
                0 <= j < after.m_regions.len() && #[trigger] after.m_regions[j] == (
                    (#[trigger] after.m_big[i]).base,
                    after.m_big[i].size,
                ) by {
                if i < last_big {
                    let j = choose|j: int|
                        0 <= j < self.m_regions.len() && #[trigger] self.m_regions[j] == (
                            self.m_big[i].base,
                            self.m_big[i].size,
                        );
                    assert(after.m_regions[j] == (after.m_big[i].base, after.m_big[i].size));
                } else {
                    assert(after.m_regions[last_region] == (
                        after.m_big[i].base,
                        after.m_big[i].size,
                    ));
                }
            }
        }
        assert(after.live_wf());
        assert(after.accounts_wf());
        if self.live_small().contains(region.0) {
            assert(self.m_small.is_allocated(region.0));
        }
        if self.live_medium().contains(region.0) {
            assert(self.m_medium.is_allocated(region.0));
        }
    }

    /// The heap keeps its invariant when the mark of the region
    /// `index` of the big requests is turned over and the bytes of the
    /// region are counted accordingly.
    proof fn lemma_big_marked(&self, after: Self, index: int, used: bool)
        requires
            self.wf(),
            0 <= index < self.m_big.len(),
            self.m_big[index].used != used,
            after.m_mem_supplier == self.m_mem_supplier,
            after.m_small == self.m_small,
            after.m_medium == self.m_medium,
            after.m_big@ == self.m_big@.update(index, marked(self.m_big[index], used)),
            after.m_regions == self.m_regions,
            after.m_from_supplier == self.m_from_supplier,
            after.m_in_use == if used {
                self.m_in_use + self.m_big[index].size
            } else {
                self.m_in_use - self.m_big[index].size
            },
            after.m_live_small == self.m_live_small,
            after.m_live_medium == self.m_live_medium,
            after.m_wasted == self.m_wasted,
        ensures
            after.wf(),
    {
        lemma_big_bytes_update(self.m_big@, index, used);
        assert forall|i: int| 0 <= i < self.m_big.len() implies (#[trigger] after.m_big@[i]).base
            == self.m_big@[i].base && after.m_big@[i].size == self.m_big@[i].size by {}
        assert(after.big_wf()) by {
            assert forall|i: int| 0 <= i < after.m_big.len() implies exists|j: int|
                0 <= j < after.m_regions.len() && #[trigger] after.m_regions[j] == (
                    (#[trigger] after.m_big[i]).base,
                    after.m_big[i].size,
                ) by {
                let j = choose|j: int|
                    0 <= j < self.m_regions.len() && #[trigger] self.m_regions[j] == (
                        self.m_big[i].base,
                        self.m_big[i].size,
                    );
                assert(after.m_regions[j] == (after.m_big[i].base, after.m_big[i].size));
            }
            assert forall|i: int, j: int|
                0 <= i < after.m_big.len() && 0 <= j < after.m_big.len() && i != j implies (
            #[trigger] after.m_big[i]).base != (#[trigger] after.m_big[j]).base by {
                assert(self.m_big[i].base != self.m_big[j].base);
            }
            assert forall|i: int, block: usize|
                0 <= i < after.m_big.len() && #[trigger] after.m_small.owned().contains(
                    block,
                ) implies regions_apart(
                ((#[trigger] after.m_big[i]).base, after.m_big[i].size),
                (block, SMALL_BLOCK_SIZE),
            ) by {
                assert(regions_apart(
                    (self.m_big[i].base, self.m_big[i].size),
                    (block, SMALL_BLOCK_SIZE),
                ));
            }
            assert forall|i: int, block: usize|
                0 <= i < after.m_big.len() && #[trigger] after.m_medium.owned().contains(
                    block,
                ) implies regions_apart(
                ((#[trigger] after.m_big[i]).base, after.m_big[i].size),
                (block, MEDIUM_BLOCK_SIZE),
            ) by {
                assert(regions_apart(
                    (self.m_big[i].base, self.m_big[i].size),
                    (block, MEDIUM_BLOCK_SIZE),
                ));
            }
        }
        assert(after.accounts_wf());
    }

    /// In a heap which meets its invariant the first address of a free
    /// region of the big requests is not allocated.
    proof fn lemma_free_big_not_live(&self, index: int)
        requires
            self.wf(),
            0 <= index < self.m_big.len(),
            !self.m_big[index].used,
        ensures
            self.m_big[index].base != 0,
            !self.is_live_ptr(self.m_big[index].base),
    {
        let ptr = self.m_big[index].base;
        let j = choose|j: int|
            0 <= j < self.m_regions.len() && #[trigger] self.m_regions[j] == (
                self.m_big[index].base,
                self.m_big[index].size,
            );
        assert(self.m_regions[j].1 > 0 && self.m_regions[j].0 != 0);
        if self.live_small().contains(ptr) {
            assert(self.m_small.is_allocated(ptr));
            assert(regions_apart(
                (self.m_big[index].base, self.m_big[index].size),
                (ptr, SMALL_BLOCK_SIZE),
            ));
        }
        if self.live_medium().contains(ptr) {
            assert(self.m_medium.is_allocated(ptr));
            assert(regions_apart(
                (self.m_big[index].base, self.m_big[index].size),
                (ptr, MEDIUM_BLOCK_SIZE),
            ));
        }
        if self.is_live_big(ptr) {
            let i = choose|i: int|
                0 <= i < self.big_blocks().len() && (#[trigger] self.big_blocks()[i]).base == ptr
                    && self.big_blocks()[i].used;
            assert(self.m_big[i].base == self.m_big[index].base);
        }
    }

    /// How the heap changes when the region of a big request which
    /// starts at `ptr` is given back: the region becomes free and its
    /// bytes are no longer in use.
    pub open spec fn big_freed(before: Self, after: Self, ptr: usize) -> bool {
        &&& after.spec_mem_supplier() == before.spec_mem_supplier()
        &&& after.live_small() == before.live_small()
        &&& after.live_medium() == before.live_medium()
        &&& after.small_free() == before.small_free()
        &&& after.medium_free() == before.medium_free()
        &&& after.regions() == before.regions()
        &&& after.spec_from_supplier() == before.spec_from_supplier()
        &&& forall|index: int|
            0 <= index < before.big_blocks().len() && (#[trigger] before.big_blocks()[index]).base
                == ptr ==> {
                &&& after.big_blocks() == before.big_blocks().update(
                    index,
                    marked(before.big_blocks()[index], false),
                )
                &&& after.spec_in_use() == before.spec_in_use() - before.big_blocks()[index].size
            }
    }

    /// Gives the region of a big request which starts at `ptr` back to
    /// the heap.
    fn deallocate_big(&mut self, ptr: usize)
        requires
            old(self).wf(),
            old(self).is_live_big(ptr),
        ensures
            final(self).wf(),
            !final(self).is_live_big(ptr),
            Self::big_freed(*old(self), *final(self), ptr),
    {
        let mut index: usize = 0;
        while index < self.m_big.len()
            invariant
                *self == *old(self),
                self.wf(),
                self.is_live_big(ptr),
                index <= self.m_big.len(),
                forall|i: int| 0 <= i < index ==> (#[trigger] self.m_big[i]).base != ptr,
            decreases self.m_big.len() - index,
        {
            let block = self.m_big[index];
            if block.base == ptr {
                proof {
                    let live = choose|i: int|
                        0 <= i < self.big_blocks().len() && (#[trigger] self.big_blocks()[i]).base
                            == ptr && self.big_blocks()[i].used;
                    assert(self.m_big[live].base == self.m_big[index as int].base);
                    assert(live == index);
                    lemma_big_bytes_update(self.m_big@, index as int, false);
                }
                let given_back = BigBlock { base: block.base, size: block.size, used: false };
                self.m_big.set(index, given_back);
                self.m_in_use = self.m_in_use - block.size;
                proof {
                    old(self).lemma_big_marked(*self, index as int, false);
                    assert forall|other: int|
                        0 <= other < old(self).big_blocks().len() && (#[trigger] old(
                            self,
                        ).big_blocks()[other]).base == ptr implies other == index by {
                        assert(old(self).m_big[other].base == old(self).m_big[index as int].base);
                    }
                    if self.is_live_big(ptr) {
                        let i = choose|i: int|
                            0 <= i < self.big_blocks().len() && (#[trigger] self.big_blocks()[i]).base
                                == ptr && self.big_blocks()[i].used;
                        assert(self.m_big[i].base == self.m_big[index as int].base);
                    }
                }
                return ;
            }
            index = index + 1;
        }
        proof {
            let live = choose|i: int|
                0 <= i < self.big_blocks().len() && (#[trigger] self.big_blocks()[i]).base == ptr
                    && self.big_blocks()[i].used;
            assert(self.m_big[live].base != ptr);
        }
    }

    /// Giving allocated memory back makes the count of the bytes in use
    /// smaller.
    pub proof fn lemma_freed_bytes(&self, after: Self, ptr: usize, layout: Layout)
        requires
            self.wf(),
            self.is_live(ptr, layout),
            Self::freed_step(*self, after, layout, ptr),
        ensures
            after.spec_in_use() < self.spec_in_use(),
    {
        if SizeClass::spec_of(layout) == SizeClass::Big {
            let i = choose|i: int|
                0 <= i < self.big_blocks().len() && (#[trigger] self.big_blocks()[i]).base == ptr
                    && self.big_blocks()[i].used;
            let j = choose|j: int|
                0 <= j < self.m_regions.len() && #[trigger] self.m_regions[j] == (
                    self.m_big[i].base,
                    self.m_big[i].size,
                );
            assert(self.m_regions[j].1 > 0);
        }
    }

    /// Returns the total amount of memory returned by the memory supplier.
    pub fn memory_from_supplier(&self) -> (bytes: usize)
        ensures
            bytes == self.spec_from_supplier(),
    {
        self.m_from_supplier
    }

    /// Returns the total amount of in-use memory (allocated).
    pub fn memory_in_use(&self) -> (bytes: usize)
        ensures
            bytes == self.spec_in_use(),
    {
        self.m_in_use
    }

    /// Returns the amount of currently available memory: what was obtained
    /// and is not allocated.
    pub fn memory_available(&self) -> (bytes: usize)
        requires
            self.wf(),
        ensures
            bytes == self.spec_from_supplier() - self.spec_in_use(),
    {
        self.m_from_supplier - self.m_in_use
    }
}

} // verus!
