use vstd::prelude::*;
use vstd::arithmetic::power2::is_pow2;
use vstd::layout::valid_layout;
use vstd::std_specs::bits::{axiom_u64_trailing_zeros, u64_trailing_zeros};
use crate::memory::aligned::{AlignedMemory, DEFAULT_CACHE_LINE_SIZE};
use crate::memory::hugepage::HugepageMemory;
use crate::memory::ops::{MemoryError, MemoryOps};
use crate::memory::system::SystemMemory;

verus! {

/// What every kind of buffer is configured with: its size, and the NUMA
/// node it is wanted on.
#[derive(Debug, Clone, Copy)]
pub struct MemoryConfig {
    pub size: usize,
    pub numa_node: Option<i32>,
}

impl MemoryConfig {
    /// `size` bytes on no particular node.
    pub fn new(size: usize) -> (r: MemoryConfig)
        ensures
            r.size == size,
            r.numa_node is None,
    {
        MemoryConfig { size, numa_node: None }
    }

    /// The same configuration on node `node`.
    pub fn with_numa_node(self, node: i32) -> (r: MemoryConfig)
        ensures
            r.size == self.size,
            r.numa_node == Some(node),
    {
        let mut c = self;
        c.numa_node = Some(node);
        c
    }
}

/// Configuration of ordinary heap memory.
#[derive(Debug, Clone, Copy)]
pub struct SystemConfig {
    pub config: MemoryConfig,
}

impl SystemConfig {
    pub fn new(size: usize) -> (r: SystemConfig)
        ensures
            r.config.size == size,
            r.config.numa_node is None,
    {
        SystemConfig { config: MemoryConfig::new(size) }
    }

    pub fn with_numa_node(self, node: i32) -> (r: SystemConfig)
        ensures
            r.config.size == self.config.size,
            r.config.numa_node == Some(node),
    {
        let mut c = self;
        c.config = c.config.with_numa_node(node);
        c
    }
}

/// Configuration of aligned memory.
#[derive(Debug, Clone, Copy)]
pub struct AlignedConfig {
    pub config: MemoryConfig,
    pub alignment: usize,
}

impl AlignedConfig {
    pub fn new(size: usize, alignment: usize) -> (r: AlignedConfig)
        ensures
            r.config.size == size,
            r.config.numa_node is None,
            r.alignment == alignment,
    {
        AlignedConfig { config: MemoryConfig::new(size), alignment }
    }

    pub fn with_numa_node(self, node: i32) -> (r: AlignedConfig)
        ensures
            r.config.size == self.config.size,
            r.config.numa_node == Some(node),
            r.alignment == self.alignment,
    {
        let mut c = self;
        c.config = c.config.with_numa_node(node);
        c
    }
}

/// Configuration of huge page memory: a page size in MiB, or the system's
/// default.
#[derive(Debug, Clone, Copy)]
pub struct HugepageConfig {
    pub config: MemoryConfig,
    pub page_size_mb: Option<usize>,
}

impl HugepageConfig {
    pub fn new(size: usize) -> (r: HugepageConfig)
        ensures
            r.config.size == size,
            r.config.numa_node is None,
            r.page_size_mb is None,
    {
        HugepageConfig { config: MemoryConfig::new(size), page_size_mb: None }
    }

    pub fn with_numa_node(self, node: i32) -> (r: HugepageConfig)
        ensures
            r.config.size == self.config.size,
            r.config.numa_node == Some(node),
            r.page_size_mb == self.page_size_mb,
    {
        let mut c = self;
        c.config = c.config.with_numa_node(node);
        c
    }

    /// The same configuration with pages of `size_mb` MiB.
    pub fn with_page_size(self, size_mb: usize) -> (r: HugepageConfig)
        ensures
            r.config == self.config,
            r.page_size_mb == Some(size_mb),
    {
        let mut c = self;
        c.page_size_mb = Some(size_mb);
        c
    }
}

/// The kind of buffer to allocate, with its configuration.
#[derive(Debug, Clone, Copy)]
pub enum MemoryType {
    System(SystemConfig),
    Aligned(AlignedConfig),
    Hugepages(HugepageConfig),
}

/// An allocated buffer of one of the kinds.
pub enum Memory {
    System(SystemMemory),
    Aligned(AlignedMemory),
    Hugepages(HugepageMemory),
}

impl MemoryOps for Memory {
    open spec fn contents(&self) -> Seq<u8> {
        match self {
            Memory::System(m) => m.contents(),
            Memory::Aligned(m) => m.contents(),
            Memory::Hugepages(m) => m.contents(),
        }
    }

    open spec fn wf(&self) -> bool {
        match self {
            Memory::System(m) => m.wf(),
            Memory::Aligned(m) => m.wf(),
            Memory::Hugepages(m) => m.wf(),
        }
    }

    open spec fn admits(&self, offset: usize, len: nat) -> bool {
        match self {
            Memory::System(m) => m.admits(offset, len),
            Memory::Aligned(m) => m.admits(offset, len),
            Memory::Hugepages(m) => m.admits(offset, len),
        }
    }

    fn size(&self) -> (r: usize) {
        match self {
            Memory::System(m) => m.size(),
            Memory::Aligned(m) => m.size(),
            Memory::Hugepages(m) => m.size(),
        }
    }

    /// Writes through to the buffer of its kind: heap memory writes what
    /// fits and never fails; aligned and mapped memory fail exactly when the
    /// data would reach past the end. The kind stays.
    fn write(&mut self, offset: usize, src: &[u8]) -> (r: Result<(), MemoryError>)
        ensures
            ((*final(self)) is System) == ((*old(self)) is System),
            ((*final(self)) is Aligned) == ((*old(self)) is Aligned),
            ((*final(self)) is Hugepages) == ((*old(self)) is Hugepages),
            (*old(self)) is System ==> r is Ok,
            !((*old(self)) is System) ==> (r is Err <==> offset + src@.len() > old(self).contents().len()),
            r is Err ==> r == Err::<(), MemoryError>(MemoryError::WriteOutOfBounds),
    {
        match self {
            Memory::System(m) => m.write(offset, src),
            Memory::Aligned(m) => m.write(offset, src),
            Memory::Hugepages(m) => m.write(offset, src),
        }
    }

    /// Reads from the buffer of its kind: heap memory reads what it holds
    /// and never fails; aligned and mapped memory fail exactly when the read
    /// would reach past the end.
    fn read(&self, offset: usize, dst: &mut [u8]) -> (r: Result<(), MemoryError>)
        ensures
            (*self) is System ==> r is Ok,
            !((*self) is System) ==> (r is Err <==> offset + old(dst)@.len() > self.contents().len()),
            r is Err ==> r == Err::<(), MemoryError>(MemoryError::ReadOutOfBounds),
    {
        match self {
            Memory::System(m) => m.read(offset, dst),
            Memory::Aligned(m) => m.read(offset, dst),
            Memory::Hugepages(m) => m.read(offset, dst),
        }
    }

    /// The address of the buffer of its kind.
    fn get_handle(&self) -> (r: usize)
        ensures
            r == (match *self {
                Memory::System(m) => m.spec_address(),
                Memory::Aligned(m) => m.spec_address(),
                Memory::Hugepages(m) => m.spec_address(),
            }),
    {
        match self {
            Memory::System(m) => m.get_handle(),
            Memory::Aligned(m) => m.get_handle(),
            Memory::Hugepages(m) => m.get_handle(),
        }
    }
}

/// Page size shift of a huge page size in MiB: the number of trailing zero
/// bits of its size in bytes (the width of `usize` for zero).
pub open spec fn page_shift_of(size_mb: usize) -> u8 {
    let bytes = size_mb * 1024 * 1024;
    (if bytes == 0 { usize::BITS } else { u64_trailing_zeros(bytes as u64) }) as u8
}

/// The page size shift of `size_mb` MiB pages.
fn page_shift(size_mb: usize) -> (r: u8)
    requires
        size_mb * 1024 * 1024 <= usize::MAX,
    ensures
        r == page_shift_of(size_mb),
{
    let bytes = size_mb * 1024 * 1024;
    if bytes == 0 {
        usize::BITS as u8
    } else {
        proof {
            axiom_u64_trailing_zeros(bytes as u64);
        }
        (bytes as u64).trailing_zeros() as u8
    }
}

/// Allocates buffers of the configured kinds.
pub struct MemoryAllocator;

impl MemoryAllocator {
    /// A buffer as `mem_type` describes it: zero-filled heap memory, aligned
    /// memory (whose alignment must be a power of two that makes a valid
    /// layout with the size), or mapped memory in huge pages where possible.
    pub fn allocate(mem_type: MemoryType) -> (r: Result<Memory, MemoryError>)
        requires
            mem_type matches MemoryType::Hugepages(c) ==> (c.page_size_mb matches Some(mb) ==> mb * 1024 * 1024
                <= usize::MAX),
        ensures
            r matches Ok(m) ==> m.wf(),
            mem_type matches MemoryType::System(c) ==> (r matches Ok(Memory::System(m)) && m.contents() == Seq::new(
                c.config.size as nat,
                |i: int| 0u8,
            )),
            mem_type matches MemoryType::Aligned(c) ==> {
                &&& (!is_pow2(c.alignment as int) <==> r == Err::<Memory, MemoryError>(MemoryError::InvalidAlignment))
                &&& is_pow2(c.alignment as int) ==> (r == Err::<Memory, MemoryError>(MemoryError::InvalidLayout) <==> (
                !valid_layout(c.config.size, c.alignment) || c.config.size + c.alignment - 1 > usize::MAX))
                &&& r is Ok ==> (r matches Ok(Memory::Aligned(m)) && m.contents() == Seq::new(
                    c.config.size as nat,
                    |i: int| 0u8,
                ) && m.spec_alignment() == c.alignment && m.spec_address() % c.alignment == 0)
                &&& r is Err ==> (r == Err::<Memory, MemoryError>(MemoryError::InvalidAlignment) || r == Err::<
                    Memory,
                    MemoryError,
                >(MemoryError::InvalidLayout) || r == Err::<Memory, MemoryError>(MemoryError::OutOfMemory))
            },
            mem_type matches MemoryType::Hugepages(c) ==> {
                let shift = match c.page_size_mb {
                    Some(mb) => Some(page_shift_of(mb)),
                    None => None,
                };
                &&& r is Ok ==> (r matches Ok(Memory::Hugepages(m)) && m.allocated_as(c.config.size, shift))
                &&& r matches Err(e) ==> e is AllocationFailed
            },
    {
        match mem_type {
            MemoryType::System(config) => {
                match SystemMemory::new(config.config.size, config.config.numa_node) {
                    Ok(m) => Ok(Memory::System(m)),
                    Err(e) => Err(e),
                }
            },
            MemoryType::Aligned(config) => {
                match AlignedMemory::new(config.config.size, Some(config.alignment), false) {
                    Ok(m) => Ok(Memory::Aligned(m)),
                    Err(e) => Err(e),
                }
            },
            MemoryType::Hugepages(config) => {
                let page_size_shift = match config.page_size_mb {
                    Some(size_mb) => Some(page_shift(size_mb)),
                    None => None,
                };
                match HugepageMemory::new(config.config.size, page_size_shift) {
                    Ok(m) => Ok(Memory::Hugepages(m)),
                    Err(e) => Err(e),
                }
            },
        }
    }

    /// Zero-filled heap memory of `size` bytes.
    pub fn system(size: usize) -> (r: Result<Memory, MemoryError>)
        ensures
            r matches Ok(Memory::System(m)) && m.wf() && m.contents() == Seq::new(size as nat, |i: int| 0u8),
    {
        Self::allocate(MemoryType::System(SystemConfig::new(size)))
    }

    /// Zero-filled memory of `size` bytes at a multiple of `alignment`.
    pub fn aligned(size: usize, alignment: usize) -> (r: Result<Memory, MemoryError>)
        ensures
            r matches Ok(m) ==> m.wf(),
            (!is_pow2(alignment as int) <==> r == Err::<Memory, MemoryError>(MemoryError::InvalidAlignment)),
            is_pow2(alignment as int) ==> (r == Err::<Memory, MemoryError>(MemoryError::InvalidLayout) <==> (
            !valid_layout(size, alignment) || size + alignment - 1 > usize::MAX)),
            r is Ok ==> (r matches Ok(Memory::Aligned(m)) && m.contents() == Seq::new(size as nat, |i: int| 0u8)
                && m.spec_alignment() == alignment && m.spec_address() % alignment == 0),
    {
        Self::allocate(MemoryType::Aligned(AlignedConfig::new(size, alignment)))
    }

    /// Mapped memory of `size` bytes in 2 MiB huge pages, or ordinary pages.
    pub fn hugepages(size: usize) -> (r: Result<Memory, MemoryError>)
        ensures
            r is Ok ==> (r matches Ok(Memory::Hugepages(m)) && m.allocated_as(size, None)),
            r matches Err(e) ==> e is AllocationFailed,
    {
        Self::allocate(MemoryType::Hugepages(HugepageConfig::new(size)))
    }
}

} // verus!
