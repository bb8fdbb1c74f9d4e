//! Kernel pre-load cache.
use vstd::prelude::*;
use crate::addr::virt_addr::VirtAddr;
use crate::addr::hw_virt_addr::canonical_virt;

verus! {

/// Lists the types of the program headers of an ELF file which the loader
/// tells apart.
#[derive(Debug, Clone, Copy, PartialEq, Eq, Structural)]
pub enum ProgramType {
    /// The segment is loaded into memory.
    Load,
    /// Any other segment.
    Other,
}

/// What the loader reads from a program header of an ELF file.
#[derive(Debug, Clone, Copy, PartialEq, Eq, Structural)]
pub struct ProgramHeader {
    /// The type of the segment.
    pub hdr_type: ProgramType,
    /// The size of the segment in memory.
    pub mem_size: u64,
    /// The virtual address at which the segment is loaded.
    pub virtual_addr: u64,
}

/// The memory needed to load the segments of `headers` which are loaded.
pub open spec fn spec_load_size(headers: Seq<ProgramHeader>) -> nat
    decreases headers.len(),
{
    if headers.len() == 0 {
        0
    } else {
        spec_load_size(headers.drop_last()) + if headers.last().hdr_type == ProgramType::Load {
            headers.last().mem_size as nat
        } else {
            0
        }
    }
}

/// Whether `headers[index]` is the first header of a loaded segment.
pub open spec fn is_first_load(headers: Seq<ProgramHeader>, index: int) -> bool {
    &&& 0 <= index < headers.len()
    &&& headers[index].hdr_type == ProgramType::Load
    &&& forall|i: int| 0 <= i < index ==> (#[trigger] headers[i]).hdr_type != ProgramType::Load
}

/// Collector of commonly requested information about the kernel core,
/// pre-loaded to serve them without recalculating each time.
#[derive(Debug)]
pub struct KernelPreLoadCache {
    m_elf_file: Vec<ProgramHeader>,
    m_load_size: usize,
    m_load_address: VirtAddr,
}

impl KernelPreLoadCache {
    /// The program headers of the kernel core.
    pub closed spec fn spec_elf_file(&self) -> Seq<ProgramHeader> {
        self.m_elf_file@
    }

    /// The memory load size for the kernel.
    pub closed spec fn spec_load_size(&self) -> usize {
        self.m_load_size
    }

    /// The load address of the kernel.
    pub closed spec fn spec_load_address(&self) -> VirtAddr {
        self.m_load_address
    }

    /// Constructs a `KernelPreLoadCache` from the program headers of the
    /// kernel core.
    ///
    /// The load size is the memory size of all the loaded segments
    /// together, the load address is the virtual address of the first
    /// one. Returns `None` when no segment is loaded, and when the load
    /// size or the load address does not fit the machine word.
    pub fn new(core_elf: Vec<ProgramHeader>) -> (cache: Option<Self>)
        ensures
            cache is Some <==> spec_load_size(core_elf@) <= usize::MAX && exists|index: int|
                is_first_load(core_elf@, index) && core_elf@[index].virtual_addr <= usize::MAX,
            cache is Some ==> {
                &&& cache->0.spec_elf_file() == core_elf@
                &&& cache->0.spec_load_size() == spec_load_size(core_elf@)
                &&& forall|index: int| #[trigger]
                    is_first_load(core_elf@, index) ==> cache->0.spec_load_address()@
                        == canonical_virt(core_elf@[index].virtual_addr as usize)
            },
    {
        let mut load_size: usize = 0;
        let mut first_load: Option<u64> = None;
        let mut index: usize = 0;
        while index < core_elf.len()
            invariant
                index <= core_elf.len(),
                load_size == spec_load_size(core_elf@.subrange(0, index as int)),
                match first_load {
                    Some(addr) => exists|i: int|
                        is_first_load(core_elf@, i) && i < index && core_elf@[i].virtual_addr
                            == addr,
                    None => forall|i: int|
                        0 <= i < index ==> (#[trigger] core_elf@[i]).hdr_type != ProgramType::Load,
                },
            decreases core_elf.len() - index,
        {
            let header = core_elf[index];
            proof {
                assert(core_elf@.subrange(0, index + 1).drop_last() == core_elf@.subrange(
                    0,
                    index as int,
                ));
                lemma_load_size_grows(core_elf@, index + 1);
            }
            if header.hdr_type == ProgramType::Load {
                if header.mem_size > (usize::MAX - load_size) as u64 {
                    return None;
                }
                load_size = load_size + header.mem_size as usize;
                if first_load.is_none() {
                    first_load = Some(header.virtual_addr);
                    assert(is_first_load(core_elf@, index as int));
                }
            }
            index = index + 1;
        }
        assert(core_elf@.subrange(0, index as int) == core_elf@);
        match first_load {
            Some(addr) => {
                proof {
                    let found = choose|i: int|
                        is_first_load(core_elf@, i) && i < index && core_elf@[i].virtual_addr
                            == addr;
                    assert forall|other: int| #[trigger]
                        is_first_load(core_elf@, other) implies other == found by {
                        if other < found {
                            assert(core_elf@[other].hdr_type != ProgramType::Load);
                        }
                        if found < other {
                            assert(core_elf@[found].hdr_type != ProgramType::Load);
                        }
                    }
                }
                if addr > usize::MAX as u64 {
                    return None;
                }
                Some(
                    Self {
                        m_elf_file: core_elf,
                        m_load_size: load_size,
                        m_load_address: VirtAddr::new(addr as usize),
                    },
                )
            },
            None => {
                assert forall|i: int| !is_first_load(core_elf@, i) by {
                    if is_first_load(core_elf@, i) {
                        assert(core_elf@[i].hdr_type != ProgramType::Load);
                    }
                }
                None
            },
        }
    }

    /// Returns the program headers of the kernel core.
    pub fn elf_file(&self) -> (elf_file: &Vec<ProgramHeader>)
        ensures
            elf_file@ == self.spec_elf_file(),
    {
        &self.m_elf_file
    }

    /// Returns the memory load size for the kernel.
    pub fn load_size(&self) -> (load_size: usize)
        ensures
            load_size == self.spec_load_size(),
    {
        self.m_load_size
    }

    /// Returns the load `VirtAddr`.
    pub fn load_address(&self) -> (load_address: VirtAddr)
        ensures
            load_address == self.spec_load_address(),
    {
        self.m_load_address
    }
}

/// The memory needed for the first headers is no more than the memory
/// needed for all of them.
pub proof fn lemma_load_size_grows(headers: Seq<ProgramHeader>, count: int)
    requires
        0 <= count <= headers.len(),
    ensures
        spec_load_size(headers.subrange(0, count)) <= spec_load_size(headers),
    decreases headers.len() - count,
{
    if count < headers.len() {
        lemma_load_size_grows(headers, count + 1);
        assert(headers.subrange(0, count + 1).drop_last() == headers.subrange(0, count));
    } else {
        assert(headers.subrange(0, count) == headers);
    }
}

} // verus!
