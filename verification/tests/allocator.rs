//! The bootstrap frame allocator, driven through its public contract.

use pms_rust_os::memory::physical::PhysicalMemoryManager;
use pms_rust_os::memory::{MemoryMap, MemoryRegion, MemoryRegionType};

fn usable(start: u64, end: u64) -> MemoryRegion {
    MemoryRegion {
        start_frame_number: start,
        end_frame_number: end,
        region_type: MemoryRegionType::Usable,
    }
}

fn reserved(start: u64, end: u64) -> MemoryRegion {
    MemoryRegion {
        start_frame_number: start,
        end_frame_number: end,
        region_type: MemoryRegionType::Reserved,
    }
}

/// A single-frame usable region yields a frame.
#[test]
fn get_page_simple() {
    let mut map = MemoryMap::new();
    map.add_region(usable(2, 3));
    let mut pmm = PhysicalMemoryManager::new();
    pmm.init(0, map);
    let frame = pmm.allocate_frame().unwrap();
    assert_eq!(frame.number, 2);
    assert_eq!(frame.start_address(), 2 * 4096);
}

/// An empty memory map yields nothing, however often it is asked.
#[test]
fn get_no_page_simple() {
    let map = MemoryMap::new();
    let mut pmm = PhysicalMemoryManager::new();
    pmm.init(0, map);
    assert!(pmm.allocate_frame().is_none());
    assert!(pmm.allocate_frame().is_none());
    assert!(pmm.allocate_frame().is_none());
}

/// A single-frame region starting anywhere yields exactly its frame, once.
#[test]
fn single_frame_region_any_position() {
    for f in [0u64, 1, 123_456, 0xF_FFFF_FFFF_FFFE] {
        let mut map = MemoryMap::new();
        map.add_region(usable(f, f + 1));
        let mut pmm = PhysicalMemoryManager::new();
        pmm.init(0, map);
        assert_eq!(pmm.allocate_frame().unwrap().number, f);
        assert!(pmm.allocate_frame().is_none());
    }
}

/// A map with exactly one usable frame yields it exactly once.
#[test]
fn get_exact_one_page_simple() {
    let mut map = MemoryMap::new();
    map.add_region(usable(2, 3));
    let mut pmm = PhysicalMemoryManager::new();
    pmm.init(0, map);
    assert!(pmm.allocate_frame().is_some());
    assert!(pmm.allocate_frame().is_none());
}

/// A map with k usable frames yields exactly k frames, each strictly greater
/// than the one before, and nothing afterwards.
#[test]
fn exactly_k_ascending_allocations() {
    let mut map = MemoryMap::new();
    map.add_region(usable(2, 5));
    map.add_region(reserved(5, 7));
    map.add_region(usable(7, 9));
    let mut pmm = PhysicalMemoryManager::new();
    pmm.init(0, map);

    let mut previous: Option<u64> = None;
    let mut count = 0;
    while let Some(frame) = pmm.allocate_frame() {
        if let Some(p) = previous {
            assert!(frame.number > p);
        }
        previous = Some(frame.number);
        count += 1;
        assert!(count <= 5);
    }
    assert_eq!(count, 5);
    assert!(pmm.allocate_frame().is_none());
}

/// The exact frames come out in ascending order across the usable regions.
#[test]
fn frames_come_in_map_order() {
    let mut map = MemoryMap::new();
    map.add_region(usable(2, 5));
    map.add_region(reserved(5, 7));
    map.add_region(usable(7, 9));
    let mut pmm = PhysicalMemoryManager::new();
    pmm.init(0, map);
    for expected in [2u64, 3, 4, 7, 8] {
        assert_eq!(pmm.allocate_frame().unwrap().number, expected);
    }
    assert!(pmm.allocate_frame().is_none());
}

/// A map whose regions are all reserved yields nothing on the first call.
#[test]
fn fully_reserved_map_yields_nothing() {
    let mut map = MemoryMap::new();
    map.add_region(reserved(0, 100));
    map.add_region(reserved(100, 200));
    let mut pmm = PhysicalMemoryManager::new();
    pmm.init(0, map);
    assert!(pmm.allocate_frame().is_none());
}

/// Exhaustion does not use up a slot: a failed allocation leaves the counter
/// alone, and the allocator still reports none afterwards.
#[test]
fn exhaustion_does_not_latch_extra_slots() {
    let mut map = MemoryMap::new();
    map.add_region(usable(4, 6));
    let mut pmm = PhysicalMemoryManager::new();
    pmm.init(0, map);
    assert_eq!(pmm.allocate_frame().unwrap().number, 4);
    assert_eq!(pmm.allocate_frame().unwrap().number, 5);
    for _ in 0..3 {
        assert!(pmm.allocate_frame().is_none());
    }
}

/// Requests at 2 MiB granularity are unsupported and yield nothing, without
/// disturbing the 4 KiB accounting.
#[test]
fn two_mebibyte_requests_unsupported() {
    let mut map = MemoryMap::new();
    map.add_region(usable(2, 4));
    let mut pmm = PhysicalMemoryManager::new();
    pmm.init(0, map);
    assert!(pmm.allocate_frame_2mib().is_none());
    assert_eq!(pmm.allocate_frame().unwrap().number, 2);
    assert!(pmm.allocate_frame_2mib().is_none());
    assert_eq!(pmm.allocate_frame().unwrap().number, 3);
}

/// The frame iterator flattens exactly the usable regions.
#[test]
fn frame_iterator_flattens_usable_regions() {
    let mut map = MemoryMap::new();
    map.add_region(reserved(0, 2));
    map.add_region(usable(2, 4));
    map.add_region(usable(4, 5));
    map.add_region(reserved(5, 9));
    let frames = PhysicalMemoryManager::get_frame_iterator(&map);
    assert_eq!(frames, vec![2, 3, 4]);
}

/// The highest physical frame is the last frame of the last usable region,
/// even when reserved regions follow it.
#[test]
fn highest_frame_of_last_usable_region() {
    let mut map = MemoryMap::new();
    map.add_region(usable(2, 4));
    map.add_region(usable(8, 16));
    map.add_region(reserved(16, 64));
    assert_eq!(PhysicalMemoryManager::get_higest_physical_frame(&map), 15);
}

/// The bitmap sizing formula: one frame of bitmap per 0x8000 frames of
/// memory, rounded up by one.
#[test]
fn bitmap_frames_needed() {
    let mut map = MemoryMap::new();
    map.add_region(usable(0, 0x10001));
    // highest frame 0x10000; 0x10000 * 0x1000 / 0x8000000 + 1 == 3
    assert_eq!(PhysicalMemoryManager::register_pages_for_allocation_map(&map), 3);

    let mut small = MemoryMap::new();
    small.add_region(usable(0, 1));
    assert_eq!(PhysicalMemoryManager::register_pages_for_allocation_map(&small), 1);
}

/// The diagnostic listing reports byte addresses and sizes per region.
#[test]
fn region_listing_rows() {
    let mut map = MemoryMap::new();
    map.add_region(usable(2, 4));
    map.add_region(reserved(4, 10));
    let rows = PhysicalMemoryManager::list_memory_regions(&map);
    assert_eq!(rows.len(), 2);
    assert_eq!(rows[0].start_addr, 2 * 4096);
    assert_eq!(rows[0].end_addr, 4 * 4096);
    assert_eq!(rows[0].size_kib, 8);
    assert_eq!(rows[0].region_type, MemoryRegionType::Usable);
    assert_eq!(rows[1].start_addr, 4 * 4096);
    assert_eq!(rows[1].end_addr, 10 * 4096);
    assert_eq!(rows[1].size_kib, 24);
    assert_eq!(rows[1].region_type, MemoryRegionType::Reserved);
}

/// A trivial check that the harness itself runs.
#[test]
fn trivial_assertion() {
    assert_eq!(1, 1);
}
