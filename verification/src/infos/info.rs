//! Bootloader independent informations structure.
use vstd::prelude::*;
use vstd::string::StringSliceAdditionalSpecFns;
use crate::addr::phys_addr::PhysAddr;
use crate::addr::virt_addr::VirtAddr;

verus! {

/// Size in bytes of the bootloader name stored into `BootInfosInner`.
pub const BOOTLOADER_NAME_LEN_MAX: usize = 64;

/// The buffer of `size` bytes for the bytes `name`: the first bytes of
/// the name, followed by zero bytes.
pub open spec fn spec_name_buf(name: Seq<u8>, size: nat) -> Seq<u8> {
    Seq::new(
        size,
        |i: int|
            if i < name.len() {
                name[i]
            } else {
                0u8
            },
    )
}

/// The command line of the kernel.
#[derive(Debug)]
pub struct CmdLineArgs {
    m_raw: Vec<u8>,
}

impl CmdLineArgs {
    /// The bytes of the command line.
    pub closed spec fn view(&self) -> Seq<u8> {
        self.m_raw@
    }

    /// Constructs the command line from the raw string given by the
    /// bootloader.
    pub fn new(raw_cmdline: &str) -> (args: Self)
        ensures
            args@ == raw_cmdline.spec_bytes(),
    {
        let bytes = raw_cmdline.as_bytes();
        Self { m_raw: vstd::slice::slice_to_vec(bytes) }
    }

    /// Returns the bytes of the command line.
    pub fn as_bytes(&self) -> (bytes: &[u8])
        ensures
            bytes@ == self@,
    {
        self.m_raw.as_slice()
    }
}

/// An area of the physical memory which the bootloader reports.
#[derive(Debug, Clone, Copy, PartialEq, Eq, Structural)]
pub struct BootMemArea {
    /// The first address of the area.
    pub start: PhysAddr,
    /// The size of the area in bytes.
    pub size: usize,
}

/// The layout of the virtual memory of the kernel.
#[derive(Debug, Clone, Copy, PartialEq, Eq, Structural)]
pub struct VMLayout {
    /// The first address of the area of the kernel.
    pub kern_start: VirtAddr,
    /// The size of the area of the kernel in bytes.
    pub kern_size: usize,
}

impl VMLayout {
    /// Constructs the layout which is not decided yet: the area of the
    /// kernel starts at null and is empty.
    pub fn new_zero() -> (layout: Self)
        ensures
            layout.kern_start@ == 0,
            layout.kern_size == 0,
    {
        Self { kern_start: VirtAddr::null(), kern_size: 0 }
    }
}

/// Container of the common boot informations.
#[derive(Debug)]
pub struct BootInfosInner {
    m_mem_areas: Vec<BootMemArea>,
    m_cmdline_args: CmdLineArgs,
    m_vm_layout: VMLayout,
    m_bootloader_name: Vec<u8>,
}

impl BootInfosInner {
    /// The areas of the physical memory.
    pub closed spec fn spec_mem_areas(&self) -> Seq<BootMemArea> {
        self.m_mem_areas@
    }

    /// The bytes of the command line.
    pub closed spec fn spec_cmdline(&self) -> Seq<u8> {
        self.m_cmdline_args@
    }

    /// The layout of the virtual memory.
    pub closed spec fn spec_vm_layout(&self) -> VMLayout {
        self.m_vm_layout
    }

    /// The buffer of the name of the bootloader.
    pub closed spec fn spec_bootloader_name(&self) -> Seq<u8> {
        self.m_bootloader_name@
    }

    /// Constructs a `BootInfosInner`. The returned instance copies the
    /// given buffers into his: the name of the bootloader goes into a
    /// buffer of 64 bytes, what does not fit is cut off.
    pub fn new(raw_cmdline: &str, mem_areas: Vec<BootMemArea>, bootloader_name: &str) -> (inner:
        Self)
        ensures
            inner.spec_cmdline() == raw_cmdline.spec_bytes(),
            inner.spec_mem_areas() == mem_areas@,
            inner.spec_vm_layout().kern_start@ == 0,
            inner.spec_vm_layout().kern_size == 0,
            inner.spec_bootloader_name() == spec_name_buf(
                bootloader_name.spec_bytes(),
                BOOTLOADER_NAME_LEN_MAX as nat,
            ),
    {
        let name = bootloader_name.as_bytes();
        let mut name_buffer: Vec<u8> = Vec::new();
        let mut index: usize = 0;
        while index < BOOTLOADER_NAME_LEN_MAX
            invariant
                index <= BOOTLOADER_NAME_LEN_MAX,
                name@ == bootloader_name.spec_bytes(),
                name_buffer@.len() == index,
                forall|i: int|
                    0 <= i < index ==> name_buffer@[i] == spec_name_buf(
                        name@,
                        BOOTLOADER_NAME_LEN_MAX as nat,
                    )[i],
            decreases BOOTLOADER_NAME_LEN_MAX - index,
        {
            let byte: u8 = if index < name.len() {
                name[index]
            } else {
                0
            };
            name_buffer.push(byte);
            index = index + 1;
        }
        assert(name_buffer@ =~= spec_name_buf(name@, BOOTLOADER_NAME_LEN_MAX as nat));
        Self {
            m_cmdline_args: CmdLineArgs::new(raw_cmdline),
            m_mem_areas: mem_areas,
            m_vm_layout: VMLayout::new_zero(),
            m_bootloader_name: name_buffer,
        }
    }
}

/// Reference to the common informations of the bootloader.
#[derive(Debug)]
pub struct BootInfos {
    m_inner: BootInfosInner,
}

impl BootInfos {
    /// The informations which are referenced.
    pub closed spec fn view(&self) -> BootInfosInner {
        self.m_inner
    }

    /// Constructs a `BootInfos` over the informations obtained from the
    /// bootloader.
    pub fn from_inner(inner: BootInfosInner) -> (infos: Self)
        ensures
            infos@ == inner,
    {
        Self { m_inner: inner }
    }

    /// Returns the kernel's command line.
    pub fn cmdline_args(&self) -> (args: &CmdLineArgs)
        ensures
            args@ == self@.spec_cmdline(),
    {
        &self.m_inner.m_cmdline_args
    }

    /// Returns the collection of the memory areas.
    pub fn mem_areas(&self) -> (areas: &Vec<BootMemArea>)
        ensures
            areas@ == self@.spec_mem_areas(),
    {
        &self.m_inner.m_mem_areas
    }

    /// Returns the layout of the virtual memory.
    pub fn vm_layout(&self) -> (layout: &VMLayout)
        ensures
            *layout == self@.spec_vm_layout(),
    {
        &self.m_inner.m_vm_layout
    }
}

/// Holder of the boot informations of the kernel, which are stored once
/// and read many times.
#[derive(Debug)]
pub struct BootInfosStore {
    m_infos: Option<BootInfos>,
}

impl BootInfosStore {
    /// The informations which are stored, if any.
    pub closed spec fn view(&self) -> Option<BootInfos> {
        self.m_infos
    }

    /// Constructs the holder without informations.
    pub fn new() -> (store: Self)
        ensures
            store@ is None,
    {
        Self { m_infos: None }
    }

    /// Stores the informations. They are stored once: when the holder has
    /// informations already, nothing changes and `false` is returned.
    pub fn init(&mut self, inner: BootInfosInner) -> (stored: bool)
        ensures
            stored == (old(self)@ is None),
            stored ==> final(self)@ is Some && final(self)@->0@ == inner,
            !stored ==> final(self)@ == old(self)@,
    {
        if self.m_infos.is_some() {
            return false;
        }
        self.m_infos = Some(BootInfos::from_inner(inner));
        true
    }

    /// Returns the stored informations, `None` before they are stored.
    pub fn obtain(&self) -> (infos: Option<&BootInfos>)
        ensures
            match infos {
                Some(infos) => self@ == Some(*infos),
                None => self@ is None,
            },
    {
        self.m_infos.as_ref()
    }
}

/// Returns the command line of the kernel: the one which the bootloader
/// gave, or the one which only sets the debug log level when it gave
/// none.
pub fn cmdline_or_default<'a>(given: Option<&'a str>) -> (raw_cmdline: &'a str)
    ensures
        raw_cmdline@ == match given {
            Some(cmdline) => cmdline@,
            None => "-log-level=Debug"@,
        },
{
    match given {
        Some(cmdline) => cmdline,
        None => "-log-level=Debug",
    }
}

} // verus!
