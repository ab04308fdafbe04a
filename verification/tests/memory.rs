use stride::memory::aligned::{is_power_of_two, AlignedMemory, HUGE_PAGE_SIZE};
use stride::memory::hugepage::{next_hugepage_attempt, HugepageMemory};
use stride::memory::system::SystemMemory;
use stride::memory::{
    AlignedConfig, HugepageConfig, Memory, MemoryAllocator, MemoryConfig, MemoryError, MemoryOps,
    MemoryType, SystemConfig,
};

#[test]
fn system_memory_write_then_read() {
    let mut m = SystemMemory::new(8, None).unwrap();
    assert_eq!(m.size(), 8);
    assert!(m.write(2, &[1, 2, 3]).is_ok());
    let mut out = [9u8; 8];
    assert!(m.read(0, &mut out).is_ok());
    assert_eq!(out, [0, 0, 1, 2, 3, 0, 0, 0]);
}

#[test]
fn system_memory_clips_at_the_end() {
    let mut m = SystemMemory::new(8, Some(0)).unwrap();
    assert!(m.write(6, &[7, 7, 7]).is_ok());
    let mut out = [5u8; 4];
    assert!(m.read(6, &mut out).is_ok());
    assert_eq!(out, [7, 7, 5, 5]);
    let mut out = [5u8; 2];
    assert!(m.read(8, &mut out).is_ok());
    assert_eq!(out, [5, 5]);
}

#[test]
fn power_of_two_check() {
    assert!(is_power_of_two(1));
    assert!(is_power_of_two(64));
    assert!(is_power_of_two(1 << 40));
    assert!(!is_power_of_two(0));
    assert!(!is_power_of_two(3));
    assert!(!is_power_of_two(96));
}

#[test]
fn aligned_memory_is_aligned_and_bounded() {
    let mut m = AlignedMemory::new(100, None, false).unwrap();
    assert_eq!(m.size(), 100);
    assert_eq!(m.get_handle() % 64, 0);
    assert_eq!(m.write(98, &[1, 2, 3]), Err(MemoryError::WriteOutOfBounds));
    assert!(m.write(97, &[1, 2, 3]).is_ok());
    let mut out = [0u8; 3];
    assert!(m.read(97, &mut out).is_ok());
    assert_eq!(out, [1, 2, 3]);
    let mut big = [0u8; 4];
    assert_eq!(m.read(97, &mut big), Err(MemoryError::ReadOutOfBounds));
    assert_eq!(big, [0, 0, 0, 0]);
    assert_eq!(m.as_slice().len(), 100);
    assert_eq!(m.as_slice()[98], 2);
}

#[test]
fn aligned_memory_with_large_alignment() {
    let m = AlignedMemory::new(10, Some(4096), false).unwrap();
    assert_eq!(m.get_handle() % 4096, 0);
    assert!(m.as_slice().iter().all(|b| *b == 0));
}

#[test]
fn aligned_memory_errors() {
    assert_eq!(AlignedMemory::new(100, Some(3), false).err(), Some(MemoryError::InvalidAlignment));
    assert_eq!(AlignedMemory::new(100, Some(0), false).err(), Some(MemoryError::InvalidAlignment));
    assert_eq!(
        AlignedMemory::new(usize::MAX / 2, Some(64), false).err(),
        Some(MemoryError::InvalidLayout)
    );
}

#[test]
fn aligned_memory_rounds_to_huge_pages() {
    let m = AlignedMemory::new(1, None, true).unwrap();
    assert_eq!(m.size(), HUGE_PAGE_SIZE);
}

#[test]
fn hugepage_memory_roundtrip() {
    let mut m = HugepageMemory::new(8192, None).unwrap();
    assert_eq!(m.size(), 8192);
    if m.is_using_hugepages() {
        assert_eq!(m.page_size_shift(), Some(21));
        assert_eq!(m.page_size_mb(), Some(2));
    } else {
        assert_eq!(m.page_size_shift(), None);
        assert_eq!(m.page_size_mb(), None);
    }
    assert!(m.write(4000, &[1, 2, 3, 4]).is_ok());
    let mut out = [0u8; 4];
    assert!(m.read(4000, &mut out).is_ok());
    assert_eq!(out, [1, 2, 3, 4]);
    assert_eq!(m.write(8190, &[1, 2, 3]), Err(MemoryError::WriteOutOfBounds));
}

#[test]
fn allocator_kinds() {
    let m = MemoryAllocator::system(16).unwrap();
    assert!(matches!(m, Memory::System(_)));
    assert_eq!(m.size(), 16);
    let m = MemoryAllocator::aligned(16, 128).unwrap();
    assert!(matches!(m, Memory::Aligned(_)));
    assert_eq!(m.get_handle() % 128, 0);
    assert_eq!(MemoryAllocator::aligned(16, 100).err(), Some(MemoryError::InvalidAlignment));
    let mut m = MemoryAllocator::hugepages(4096).unwrap();
    assert!(matches!(m, Memory::Hugepages(_)));
    assert!(m.write(0, &[42]).is_ok());
    let mut out = [0u8; 1];
    assert!(m.read(0, &mut out).is_ok());
    assert_eq!(out, [42]);
}

#[test]
fn allocator_with_page_size() {
    let c = HugepageConfig::new(4096).with_page_size(2).with_numa_node(1);
    assert_eq!(c.page_size_mb, Some(2));
    assert_eq!(c.config.numa_node, Some(1));
    let m = MemoryAllocator::allocate(MemoryType::Hugepages(c)).unwrap();
    assert_eq!(m.size(), 4096);
}

#[test]
fn config_builders() {
    let c = MemoryConfig::new(10).with_numa_node(3);
    assert_eq!(c.size, 10);
    assert_eq!(c.numa_node, Some(3));
    let s = SystemConfig::new(20).with_numa_node(1);
    assert_eq!(s.config.size, 20);
    assert_eq!(s.config.numa_node, Some(1));
    let a = AlignedConfig::new(30, 64).with_numa_node(0);
    assert_eq!(a.alignment, 64);
    assert_eq!(a.config.numa_node, Some(0));
    let h = HugepageConfig::new(40);
    assert_eq!(h.page_size_mb, None);
    assert_eq!(h.config.size, 40);
}

#[test]
fn memory_error_messages() {
    assert_eq!(MemoryError::WriteOutOfBounds.message(), "Write operation would exceed buffer size");
    assert_eq!(MemoryError::ReadOutOfBounds.message(), "Read operation would exceed buffer size");
    assert_eq!(MemoryError::InvalidAlignment.message(), "Alignment must be a power of two");
    assert_eq!(MemoryError::OutOfMemory.message(), "Memory allocation failed");
    assert_eq!(
        MemoryError::AllocationFailed("no space".to_string()).message(),
        "Failed to allocate memory: no space"
    );
}

#[test]
fn aligned_memory_changed_in_place() {
    let mut m = AlignedMemory::new(16, Some(128), false).unwrap();
    {
        let bytes = m.as_slice_mut();
        assert_eq!(bytes.len(), 16);
        bytes[0] = 7;
        bytes[15] = 9;
    }
    let mut out = [0u8; 2];
    assert!(m.read(14, &mut out).is_ok());
    assert_eq!(out, [0, 9]);
    assert_eq!(m.as_slice()[0], 7);
    assert_eq!(m.get_handle() % 128, 0);
}

#[test]
fn memory_kinds_answer_out_of_bounds_accesses() {
    let mut sys = MemoryAllocator::system(4).unwrap();
    assert!(sys.write(2, &[1, 2, 3]).is_ok());
    let mut out = [9u8; 3];
    assert!(sys.read(2, &mut out).is_ok());
    assert_eq!(out, [1, 2, 9]);
    let mut aligned = MemoryAllocator::aligned(4, 64).unwrap();
    assert_eq!(aligned.write(2, &[1, 2, 3]), Err(MemoryError::WriteOutOfBounds));
    assert_eq!(aligned.read(2, &mut out), Err(MemoryError::ReadOutOfBounds));
    assert_eq!(aligned.get_handle(), aligned.get_handle());
    assert_eq!(sys.get_handle(), sys.get_handle());
}

#[test]
fn aligned_allocation_refuses_only_bad_alignments() {
    for alignment in [1usize, 2, 8, 64, 4096] {
        let m = MemoryAllocator::aligned(100, alignment).unwrap();
        assert_eq!(m.get_handle() % alignment, 0);
    }
    assert_eq!(MemoryAllocator::aligned(100, 48).err(), Some(MemoryError::InvalidAlignment));
}

#[test]
fn hugepage_fallback_order() {
    assert_eq!(next_hugepage_attempt(Some(30)), Some(Some(21)));
    assert_eq!(next_hugepage_attempt(Some(21)), Some(None));
    assert_eq!(next_hugepage_attempt(None), None);
}

#[test]
fn hugepage_memory_records_its_tries() {
    let m = HugepageMemory::new(4096, Some(30)).unwrap();
    let tries = m.tried_page_sizes();
    assert_eq!(tries[0], Some(30));
    assert_eq!(*tries.last().unwrap(), m.page_size_shift());
    match m.page_size_shift() {
        Some(30) => assert_eq!(tries, vec![Some(30)]),
        Some(21) => assert_eq!(tries, vec![Some(30), Some(21)]),
        _ => assert_eq!(tries, vec![Some(30), Some(21), None]),
    }
    let d = HugepageMemory::new(4096, None).unwrap();
    match d.page_size_shift() {
        Some(21) => assert_eq!(d.tried_page_sizes(), vec![Some(21)]),
        _ => assert_eq!(d.tried_page_sizes(), vec![Some(21), None]),
    }
}
