//! Slab allocator: one list of free blocks of a single size.
use vstd::prelude::*;
use crate::heap::layout::Layout;

verus! {

/// The address of block `index` of a region which starts at `start` and
/// is cut into blocks of `block_size` bytes.
pub open spec fn block_addr(start: usize, index: int, block_size: usize) -> int {
    start + index * block_size
}

/// The blocks of a region of `count` blocks, by ascending address.
pub open spec fn region_blocks(start: usize, count: nat, block_size: usize) -> Seq<usize> {
    Seq::new(count, |index: int| block_addr(start, index, block_size) as usize)
}

/// Whether the blocks of `block_size` bytes at `first` and at `second`
/// share no byte.
pub open spec fn blocks_apart(first: usize, second: usize, block_size: usize) -> bool {
    first + block_size <= second || second + block_size <= first
}

/// Whether no address occurs twice in `blocks`.
pub open spec fn all_distinct(blocks: Seq<usize>) -> bool {
    forall|i: int, j: int| 0 <= i < j < blocks.len() ==> blocks[i] != blocks[j]
}

/// A free block of memory, named by its address.
#[derive(Debug)]
pub struct SlabBlock {
    m_addr: usize,
}

impl SlabBlock {
    /// The address of the block.
    pub closed spec fn view(&self) -> usize {
        self.m_addr
    }

    /// Takes the memory at `addr` as a free block.
    pub fn new(addr: usize) -> (block: SlabBlock)
        ensures
            block@ == addr,
    {
        SlabBlock { m_addr: addr }
    }

    /// Returns the address of the block.
    pub fn as_ptr(&self) -> (ptr: usize)
        ensures
            ptr == self@,
    {
        self.m_addr
    }
}

/// List of free blocks, which hands out first what was put in last.
#[derive(Debug)]
pub struct FreeBlockList {
    m_blocks: Vec<usize>,
}

impl FreeBlockList {
    /// The addresses of the free blocks, the next to leave first.
    pub closed spec fn view(&self) -> Seq<usize> {
        self.m_blocks@.reverse()
    }

    /// Builds a list without blocks.
    pub fn empty() -> (list: Self)
        ensures
            list@ == Seq::<usize>::empty(),
    {
        let list = FreeBlockList { m_blocks: Vec::new() };
        assert(list@ == Seq::<usize>::empty());
        list
    }

    /// Builds the list of the blocks of the given region: see `extend`.
    pub fn new(start_area_addr: usize, area_size: usize, block_size: usize) -> (list: Self)
        requires
            block_size > 0,
            start_area_addr + area_size <= usize::MAX,
        ensures
            list@ == region_blocks(start_area_addr, (area_size / block_size) as nat, block_size),
    {
        let mut free_list = Self::empty();
        free_list.extend(start_area_addr, area_size, block_size);
        free_list
    }

    /// Adds the blocks of the given region to the list.
    ///
    /// The region is cut into `area_size / block_size` blocks, which are
    /// put in from the highest address down, so that the block at the
    /// lowest address leaves first. The bytes after the last whole block
    /// are left alone.
    pub fn extend(&mut self, start_area_addr: usize, area_size: usize, block_size: usize)
        requires
            block_size > 0,
            start_area_addr + area_size <= usize::MAX,
        ensures
            final(self)@ == region_blocks(
                start_area_addr,
                (area_size / block_size) as nat,
                block_size,
            ) + old(self)@,
    {
        let count: usize = area_size / block_size;
        let mut index: usize = count;
        proof {
            lemma_region_fits(area_size, block_size, count as int);
        }
        while index > 0
            invariant
                block_size > 0,
                index <= count,
                count == area_size / block_size,
                start_area_addr + area_size <= usize::MAX,
                self@ == region_blocks(start_area_addr, count as nat, block_size).subrange(
                    index as int,
                    count as int,
                ) + old(self)@,
            decreases index,
        {
            index = index - 1;
            proof {
                lemma_region_fits(area_size, block_size, index as int);
            }
            let ghost before = self@;
            let offset: usize = index * block_size;
            let addr: usize = start_area_addr + offset;
            self.push(SlabBlock::new(addr));
            assert(self@ == region_blocks(start_area_addr, count as nat, block_size).subrange(
                index as int,
                count as int,
            ) + old(self)@) by {
                let region = region_blocks(start_area_addr, count as nat, block_size);
                assert(region[index as int] == addr);
                assert(region.subrange(index as int, count as int) == seq![addr] + region.subrange(
                    index + 1,
                    count as int,
                ));
            }
        }
        assert(region_blocks(start_area_addr, count as nat, block_size).subrange(0, count as int)
            == region_blocks(start_area_addr, count as nat, block_size));
    }

    /// Takes the first free block off the list, if there is one.
    pub fn pop(&mut self) -> (block: Option<SlabBlock>)
        ensures
            old(self)@.len() == 0 ==> block is None && final(self)@ == old(self)@,
            old(self)@.len() > 0 ==> block is Some && block->0@ == old(self)@[0] && final(self)@
                == old(self)@.skip(1),
    {
        let ghost before = self.m_blocks@;
        match self.m_blocks.pop() {
            Some(addr) => {
                proof {
                    assert(self.m_blocks@ == before.drop_last());
                    assert(before.reverse()[0] == addr);
                    assert(before.drop_last().reverse() == before.reverse().skip(1));
                }
                Some(SlabBlock::new(addr))
            },
            None => None,
        }
    }

    /// Puts the given block in front of the list.
    pub fn push(&mut self, block: SlabBlock)
        ensures
            final(self)@ == seq![block@] + old(self)@,
    {
        let ghost before = self.m_blocks@;
        let addr: usize = block.as_ptr();
        self.m_blocks.push(addr);
        proof {
            assert(before.push(addr).reverse() == seq![addr] + before.reverse());
        }
    }

    /// Returns the amount of free blocks.
    pub fn count(&self) -> (count: usize)
        ensures
            count == self@.len(),
    {
        self.m_blocks.len()
    }

    /// Returns whether the list holds no block.
    pub fn is_emtpy(&self) -> (empty: bool)
        ensures
            empty == (self@.len() == 0),
    {
        self.m_blocks.len() == 0
    }
}

/// What is left of a list of free blocks after its first block was taken.
pub open spec fn after_allocate(free: Seq<usize>) -> Seq<usize> {
    if free.len() == 0 {
        free
    } else {
        free.skip(1)
    }
}

/// The list of free blocks after the block at `ptr` was given back.
pub open spec fn after_deallocate(free: Seq<usize>, ptr: usize) -> Seq<usize> {
    seq![ptr] + free
}

/// Single size block allocator that serves the requests in `O(1)`.
///
/// The slab keeps the list of its free blocks. It also knows, as ghost
/// state, every block which was ever handed to it with a region: such a
/// block is either on the free list, exactly once, or owned by whom it
/// was allocated to.
pub struct Slab<const BLOCK_SIZE: usize> {
    m_free_blocks: FreeBlockList,
    m_owned: Ghost<Set<usize>>,
}

impl<const BLOCK_SIZE: usize> Slab<BLOCK_SIZE> {
    /// The addresses of the free blocks, the next to be allocated first.
    pub closed spec fn view(&self) -> Seq<usize> {
        self.m_free_blocks@
    }

    /// The addresses of all the blocks of the regions handed to the slab.
    pub closed spec fn owned(&self) -> Set<usize> {
        self.m_owned@
    }

    /// Whether the block at `ptr` is on the free list.
    pub open spec fn is_free(&self, ptr: usize) -> bool {
        self@.contains(ptr)
    }

    /// Whether the block at `ptr` belongs to the slab and is allocated.
    pub open spec fn is_allocated(&self, ptr: usize) -> bool {
        self.owned().contains(ptr) && !self@.contains(ptr)
    }

    /// Whether the bytes from `start` up to `start + size` touch no block
    /// of the slab.
    pub open spec fn is_apart_from(&self, start: usize, size: usize) -> bool {
        forall|block: usize| #[trigger]
            self.owned().contains(block) ==> block + BLOCK_SIZE <= start || start + size <= block
    }

    /// The invariant of the slab.
    ///
    /// Every free block is a block of the slab and is on the list once;
    /// no block of the slab is null or leaves the address space; no two
    /// blocks of the slab share a byte.
    pub open spec fn wf(&self) -> bool {
        &&& BLOCK_SIZE > 0
        &&& all_distinct(self@)
        &&& forall|i: int| 0 <= i < self@.len() ==> self.owned().contains(#[trigger] self@[i])
        &&& forall|block: usize| #[trigger]
            self.owned().contains(block) ==> block != 0 && block + BLOCK_SIZE - 1 <= usize::MAX
        &&& forall|first: usize, second: usize|
            #![trigger self.owned().contains(first), self.owned().contains(second)]
            self.owned().contains(first) && self.owned().contains(second) && first != second
                ==> blocks_apart(first, second, BLOCK_SIZE)
    }

    /// Constructs a `Slab` which has no block yet.
    pub fn empty() -> (slab: Self)
        requires
            BLOCK_SIZE > 0,
        ensures
            slab.wf(),
            slab@ == Seq::<usize>::empty(),
            slab.owned() == Set::<usize>::empty(),
    {
        let free_blocks = FreeBlockList::empty();
        Self { m_free_blocks: free_blocks, m_owned: Ghost(Set::empty()) }
    }

    /// Constructs a `Slab` over the given region.
    ///
    /// The region is cut into blocks as `add_region` does; the bytes after
    /// the last whole block stay unused.
    pub fn new(start_area_addr: usize, area_size: usize) -> (slab: Self)
        requires
            BLOCK_SIZE > 0,
            start_area_addr != 0,
            start_area_addr + area_size <= usize::MAX,
        ensures
            slab.wf(),
            slab@ == region_blocks(start_area_addr, (area_size / BLOCK_SIZE) as nat, BLOCK_SIZE),
            slab.owned() == slab@.to_set(),
    {
        let free_blocks = FreeBlockList::new(start_area_addr, area_size, BLOCK_SIZE);
        let slab = Self { m_free_blocks: free_blocks, m_owned: Ghost(free_blocks@.to_set()) };
        proof {
            lemma_region_blocks_apart(start_area_addr, area_size, BLOCK_SIZE);
        }
        slab
    }

    /// Constructs a `Slab` over a region of the preferred extension size,
    /// which is four blocks.
    pub fn with_preferred_size(start_area_addr: usize) -> (slab: Self)
        requires
            BLOCK_SIZE > 0,
            start_area_addr != 0,
            start_area_addr + 4 * BLOCK_SIZE <= usize::MAX,
        ensures
            slab.wf(),
            slab@ == region_blocks(start_area_addr, 4, BLOCK_SIZE),
            slab.owned() == slab@.to_set(),
    {
        let area_size: usize = Self::preferred_extend_size();
        assert(area_size / BLOCK_SIZE == 4) by (nonlinear_arith)
            requires
                area_size == 4 * BLOCK_SIZE,
                BLOCK_SIZE > 0,
        ;
        Self::new(start_area_addr, area_size)
    }

    /// Returns the size of the region to ask for when the slab has to
    /// grow and no size is given: four blocks.
    pub fn preferred_extend_size() -> (size: usize)
        requires
            4 * BLOCK_SIZE <= usize::MAX,
        ensures
            size == 4 * BLOCK_SIZE,
    {
        BLOCK_SIZE * 4
    }

    /// Returns the amount of free blocks.
    pub fn free_count(&self) -> (count: usize)
        ensures
            count == self@.len(),
    {
        self.m_free_blocks.count()
    }

    /// Returns whether the slab has no free block.
    pub fn is_empty(&self) -> (empty: bool)
        ensures
            empty == (self@.len() == 0),
    {
        self.m_free_blocks.is_emtpy()
    }

    /// Returns the allocation block size.
    pub fn block_size(&self) -> (size: usize)
        ensures
            size == BLOCK_SIZE,
    {
        BLOCK_SIZE
    }

    /// Allocates the first free block.
    ///
    /// Returns `None` when the slab has no free block, and when a block is
    /// too small for `layout`: the slab never grows by itself.
    pub fn allocate(&mut self, layout: Layout) -> (ptr: Option<usize>)
        requires
            old(self).wf(),
        ensures
            final(self).wf(),
            final(self).owned() == old(self).owned(),
            ptr == if old(self)@.len() == 0 || layout.spec_size() > BLOCK_SIZE {
                None
            } else {
                Some(old(self)@[0])
            },
            final(self)@ == if ptr is Some {
                after_allocate(old(self)@)
            } else {
                old(self)@
            },
            ptr is Some ==> ptr->0 != 0 && old(self).is_free(ptr->0) && final(self).is_allocated(
                ptr->0,
            ),
    {
        if layout.size() > BLOCK_SIZE {
            return None;
        }
        let popped = self.m_free_blocks.pop();
        assert(self.owned() == old(self).owned());
        match popped {
            Some(block) => {
                let addr: usize = block.as_ptr();
                proof {
                    let before = old(self)@;
                    assert(before[0] == addr);
                    assert(before.contains(addr));
                    assert forall|i: int| 0 <= i < self@.len() implies self.owned().contains(
                        #[trigger] self@[i],
                    ) by {
                        assert(self@[i] == before[i + 1]);
                    }
                    assert(all_distinct(self@)) by {
                        assert forall|i: int, j: int| 0 <= i < j < self@.len() implies self@[i]
                            != self@[j] by {
                            assert(self@[i] == before[i + 1]);
                            assert(self@[j] == before[j + 1]);
                        }
                    }
                    assert(!self@.contains(addr)) by {
                        if self@.contains(addr) {
                            let i = choose|i: int| 0 <= i < self@.len() && self@[i] == addr;
                            assert(self@[i] == before[i + 1]);
                        }
                    }
                }
                Some(addr)
            },
            None => None,
        }
    }

    /// Gives the block at `ptr` back to the slab: it becomes the first
    /// free block.
    ///
    /// The block must be one which this slab has allocated and which has
    /// not been given back since.
    pub fn deallocate(&mut self, ptr: usize, layout: Layout)
        requires
            old(self).wf(),
            old(self).is_allocated(ptr),
        ensures
            final(self).wf(),
            final(self).owned() == old(self).owned(),
            final(self)@ == after_deallocate(old(self)@, ptr),
            final(self).is_free(ptr),
    {
        self.m_free_blocks.push(SlabBlock::new(ptr));
        assert(self.owned() == old(self).owned());
        proof {
            let before = old(self)@;
            assert(self@[0] == ptr);
            assert forall|i: int| 0 <= i < self@.len() implies self.owned().contains(
                #[trigger] self@[i],
            ) by {
                if i > 0 {
                    assert(self@[i] == before[i - 1]);
                }
            }
            assert(all_distinct(self@)) by {
                assert forall|i: int, j: int| 0 <= i < j < self@.len() implies self@[i] != self@[j] by {
                    assert(self@[j] == before[j - 1]);
                    if i > 0 {
                        assert(self@[i] == before[i - 1]);
                    }
                }
            }
        }
    }

    /// Hands the given region to the slab.
    ///
    /// The region is cut into `area_size / BLOCK_SIZE` blocks, which come
    /// before the blocks already free, the one at the lowest address
    /// first. When `area_size` is no multiple of the block size, the
    /// bytes after the last whole block are not taken: their address and
    /// their amount are returned.
    ///
    /// The region must share no byte with a block of the slab.
    pub fn add_region(&mut self, start_area_ptr: usize, area_size: usize) -> (exceeding: Option<
        (usize, usize),
    >)
        requires
            old(self).wf(),
            start_area_ptr != 0,
            start_area_ptr + area_size <= usize::MAX,
            old(self).is_apart_from(start_area_ptr, area_size),
        ensures
            final(self).wf(),
            final(self)@ == region_blocks(
                start_area_ptr,
                (area_size / BLOCK_SIZE) as nat,
                BLOCK_SIZE,
            ) + old(self)@,
            final(self).owned() == old(self).owned().union(
                region_blocks(
                    start_area_ptr,
                    (area_size / BLOCK_SIZE) as nat,
                    BLOCK_SIZE,
                ).to_set(),
            ),
            exceeding == if area_size % BLOCK_SIZE != 0 {
                Some(
                    (
                        (start_area_ptr + area_size - area_size % BLOCK_SIZE) as usize,
                        (area_size % BLOCK_SIZE) as usize,
                    ),
                )
            } else {
                None
            },
    {
        /* calculate the right area size and the eventual exceeding */
        let exceeding_area_size: usize = area_size % BLOCK_SIZE;
        proof {
            lemma_region_fits(area_size, BLOCK_SIZE, area_size as int / BLOCK_SIZE as int);
            lemma_whole_blocks(area_size, BLOCK_SIZE);
        }
        let usable_area_size: usize = area_size - exceeding_area_size;

        /* extend the free-list of the slab */
        self.m_free_blocks.extend(start_area_ptr, usable_area_size, BLOCK_SIZE);
        proof {
            let region = region_blocks(
                start_area_ptr,
                (area_size / BLOCK_SIZE) as nat,
                BLOCK_SIZE,
            );
            let before = old(self)@;
            lemma_region_blocks_apart(start_area_ptr, area_size, BLOCK_SIZE);
            self.m_owned@ = old(self).owned().union(region.to_set());
            assert(self@ == region + before);
            assert forall|i: int| 0 <= i < self@.len() implies self.owned().contains(
                #[trigger] self@[i],
            ) by {
                if i < region.len() {
                    assert(self@[i] == region[i]);
                    assert(region.to_set().contains(region[i]));
                } else {
                    assert(self@[i] == before[i - region.len()]);
                }
            }
            assert(all_distinct(self@)) by {
                assert forall|i: int, j: int| 0 <= i < j < self@.len() implies self@[i] != self@[j] by {
                    if j < region.len() {
                        assert(self@[i] == region[i] && self@[j] == region[j]);
                    } else if i < region.len() {
                        assert(self@[i] == region[i]);
                        assert(self@[j] == before[j - region.len()]);
                        assert(old(self).owned().contains(before[j - region.len()]));
                        assert(region.to_set().contains(region[i]));
                    } else {
                        assert(self@[i] == before[i - region.len()]);
                        assert(self@[j] == before[j - region.len()]);
                    }
                }
            }
        }

        /* return the exceeded if any */
        if exceeding_area_size > 0 {
            Some((start_area_ptr + usable_area_size, exceeding_area_size))
        } else {
            None
        }
    }
}

/// The whole blocks of a region take all of it but the remainder of the
/// division of its size by the block size.
pub proof fn lemma_whole_blocks(area_size: usize, block_size: usize)
    requires
        block_size > 0,
    ensures
        (area_size - area_size % block_size) / (block_size as int) == area_size / block_size,
        0 <= area_size % block_size < block_size,
        area_size - area_size % block_size == (area_size / block_size) * block_size,
{
    let count = area_size as int / block_size as int;
    vstd::arithmetic::div_mod::lemma_fundamental_div_mod(area_size as int, block_size as int);
    vstd::arithmetic::div_mod::lemma_mod_bound(area_size as int, block_size as int);
    assert(block_size * count == count * block_size) by (nonlinear_arith);
    vstd::arithmetic::div_mod::lemma_div_multiples_vanish(count, block_size as int);
}

/// The blocks of a region which lies in the address space and does not
/// start at null: none is null, each lies inside the region, and no two
/// of them share a byte.
pub proof fn lemma_region_blocks_apart(start: usize, area_size: usize, block_size: usize)
    requires
        block_size > 0,
        start != 0,
        start + area_size <= usize::MAX,
    ensures
        ({
            let region = region_blocks(start, (area_size / block_size) as nat, block_size);
            &&& all_distinct(region)
            &&& forall|i: int|
                0 <= i < region.len() ==> start <= #[trigger] region[i] && region[i] + block_size
                    <= start + area_size
            &&& forall|i: int, j: int|
                0 <= i < region.len() && 0 <= j < region.len() && i != j ==> blocks_apart(
                    #[trigger] region[i],
                    #[trigger] region[j],
                    block_size,
                )
            &&& forall|block: usize| #[trigger]
                region.to_set().contains(block) ==> start <= block && block + block_size <= start
                    + area_size
            &&& forall|first: usize, second: usize|
                #![trigger region.to_set().contains(first), region.to_set().contains(second)]
                region.to_set().contains(first) && region.to_set().contains(second) && first
                    != second ==> blocks_apart(first, second, block_size)
        }),
{
    let count = area_size as int / block_size as int;
    let region = region_blocks(start, count as nat, block_size);
    assert forall|i: int| 0 <= i < region.len() implies start <= #[trigger] region[i] && region[i]
        + block_size <= start + area_size by {
        lemma_region_fits(area_size, block_size, i);
    }
    assert forall|i: int, j: int|
        0 <= i < region.len() && 0 <= j < region.len() && i != j implies blocks_apart(
        #[trigger] region[i],
        #[trigger] region[j],
        block_size,
    ) by {
        lemma_region_fits(area_size, block_size, i);
        lemma_region_fits(area_size, block_size, j);
        if i < j {
            assert(i * block_size + block_size <= j * block_size) by (nonlinear_arith)
                requires
                    0 <= i < j,
                    block_size > 0,
            ;
        } else {
            assert(j * block_size + block_size <= i * block_size) by (nonlinear_arith)
                requires
                    0 <= j < i,
                    block_size > 0,
            ;
        }
    }
    assert(all_distinct(region)) by {
        assert forall|i: int, j: int| 0 <= i < j < region.len() implies region[i] != region[j] by {
            assert(blocks_apart(region[i], region[j], block_size));
        }
    }
    assert forall|block: usize| #[trigger] region.to_set().contains(block) implies start <= block
        && block + block_size <= start + area_size by {
        let i = choose|i: int| 0 <= i < region.len() && region[i] == block;
        assert(region[i] == block);
    }
    assert forall|first: usize, second: usize|
        #![trigger region.to_set().contains(first), region.to_set().contains(second)]
        region.to_set().contains(first) && region.to_set().contains(second) && first
            != second implies blocks_apart(first, second, block_size) by {
        let i = choose|i: int| 0 <= i < region.len() && region[i] == first;
        let j = choose|j: int| 0 <= j < region.len() && region[j] == second;
        assert(blocks_apart(region[i], region[j], block_size));
    }
}

/// A block which was given back is the next to be allocated, and taking
/// it leaves the free blocks as they were before it was given back.
pub proof fn lemma_deallocate_then_allocate(free: Seq<usize>, ptr: usize)
    ensures
        after_deallocate(free, ptr)[0] == ptr,
        after_allocate(after_deallocate(free, ptr)) == free,
{
}

/// Giving back the block which was allocated last brings the free blocks
/// back to what they were before the allocation.
pub proof fn lemma_allocate_then_deallocate(free: Seq<usize>)
    requires
        free.len() > 0,
    ensures
        after_deallocate(after_allocate(free), free[0]) == free,
{
}

/// The blocks of a region come out by ascending address, one block size
/// apart.
pub proof fn lemma_region_blocks_ascending(start: usize, count: nat, block_size: usize, i: int)
    requires
        0 <= i < count,
        start + count * block_size <= usize::MAX,
    ensures
        region_blocks(start, count, block_size)[i] == start + i * block_size,
        i + 1 < count ==> region_blocks(start, count, block_size)[i + 1] == region_blocks(
            start,
            count,
            block_size,
        )[i] + block_size,
{
    assert(0 <= i * block_size <= count * block_size) by (nonlinear_arith)
        requires
            0 <= i < count,
    ;
    if i + 1 < count {
        assert((i + 1) * block_size == i * block_size + block_size) by (nonlinear_arith);
        assert((i + 1) * block_size <= count * block_size) by (nonlinear_arith)
            requires
                0 <= i + 1 < count,
        ;
    }
}

/// The first `index` blocks of a region end before its last byte.
pub proof fn lemma_region_fits(area_size: usize, block_size: usize, index: int)
    requires
        block_size > 0,
        0 <= index <= area_size / block_size,
    ensures
        0 <= index * block_size <= area_size,
        index < area_size / block_size ==> index * block_size + block_size <= area_size,
        (area_size / block_size) * block_size + area_size % block_size == area_size,
{
    let count = area_size as int / block_size as int;
    vstd::arithmetic::div_mod::lemma_fundamental_div_mod(area_size as int, block_size as int);
    assert(0 <= index * block_size <= count * block_size) by (nonlinear_arith)
        requires
            0 <= index <= count,
            block_size > 0,
    ;
    if index < count {
        assert(index * block_size + block_size <= count * block_size) by (nonlinear_arith)
            requires
                0 <= index < count,
                block_size > 0,
        ;
    }
    assert(count * block_size == block_size * count) by (nonlinear_arith);
}

} // verus!
