use hyperlight_vcpu::error::HyperlightError;
use hyperlight_vcpu::exit::HyperlightExit;
use hyperlight_vcpu::memory_map::{is_page_aligned, GuestMemoryMap};
use hyperlight_vcpu::memory_region::{MemoryRegion, MemoryRegionFlags};

fn bounds(map: &GuestMemoryMap) -> Vec<(usize, usize, u32)> {
    map.regions().iter().map(|r| (r.guest_region.start, r.guest_region.end, r.flags.bits())).collect()
}

fn region(page: usize, flags: MemoryRegionFlags) -> MemoryRegion {
    MemoryRegion::new(page * 0x1000, (page + 1) * 0x1000, flags)
}

#[test]
fn page_alignment() {
    assert!(is_page_aligned(&MemoryRegion::new(0x1000, 0x3000, MemoryRegionFlags::read()), 0x1000));
    assert!(is_page_aligned(&MemoryRegion::new(0x1000, 0x1000, MemoryRegionFlags::read()), 0x1000));
    assert!(is_page_aligned(&MemoryRegion::new(0, 0x1000, MemoryRegionFlags::read()), 0x1000));
    assert!(!is_page_aligned(&MemoryRegion::new(0x1001, 0x2001, MemoryRegionFlags::read()), 0x1000));
    assert!(!is_page_aligned(&MemoryRegion::new(0x1000, 0x2800, MemoryRegionFlags::read()), 0x1000));
    assert!(!is_page_aligned(&MemoryRegion::new(0x2000, 0x1000, MemoryRegionFlags::read()), 0x1000));
    assert!(!is_page_aligned(&MemoryRegion::new(0x1000, 0x2000, MemoryRegionFlags::read()), 0));
}

#[test]
fn new_map_is_empty() {
    let map = GuestMemoryMap::new(0x1000);
    assert_eq!(map.page_size(), 0x1000);
    assert!(map.regions().is_empty());
}

#[test]
fn map_then_unmap_restores_the_map() {
    let mut map = GuestMemoryMap::new(0x1000);
    map.map_region(region(1, MemoryRegionFlags::read()));
    map.map_region(region(2, MemoryRegionFlags::write()));
    let before = bounds(&map);
    map.map_region(region(7, MemoryRegionFlags::execute()));
    assert_eq!(bounds(&map).len(), 3);
    let removed = map.unmap_regions(1).unwrap();
    assert_eq!(removed.len(), 1);
    assert_eq!(removed[0].guest_region, 0x7000..0x8000);
    assert_eq!(removed[0].flags, MemoryRegionFlags::execute());
    assert_eq!(bounds(&map), before);
    assert_eq!(before, vec![(0x1000, 0x2000, 1), (0x2000, 0x3000, 2)]);
}

#[test]
fn unmap_hands_back_most_recent_first() {
    let mut map = GuestMemoryMap::new(0x1000);
    for page in 1..=4 {
        map.map_region(region(page, MemoryRegionFlags::read()));
    }
    let removed = map.unmap_regions(3).unwrap();
    let starts: Vec<usize> = removed.iter().map(|r| r.guest_region.start).collect();
    assert_eq!(starts, vec![0x4000, 0x3000, 0x2000]);
    assert_eq!(bounds(&map), vec![(0x1000, 0x2000, 1)]);
}

#[test]
fn unmap_nothing_and_everything() {
    let mut map = GuestMemoryMap::new(0x1000);
    map.map_region(region(1, MemoryRegionFlags::read()));
    map.map_region(region(2, MemoryRegionFlags::read()));
    assert!(map.unmap_regions(0).unwrap().is_empty());
    assert_eq!(bounds(&map).len(), 2);
    assert_eq!(map.unmap_regions(2).unwrap().len(), 2);
    assert!(map.regions().is_empty());
}

#[test]
fn unmap_more_than_mapped_fails() {
    let mut map = GuestMemoryMap::new(0x1000);
    map.map_region(region(1, MemoryRegionFlags::read()));
    let before = bounds(&map);
    assert!(matches!(map.unmap_regions(2), Err(HyperlightError::BackendFailure(_))));
    assert_eq!(bounds(&map), before);
    assert!(matches!(map.unmap_regions(u64::MAX), Err(HyperlightError::BackendFailure(_))));
    assert_eq!(bounds(&map), before);
    let mut empty = GuestMemoryMap::new(0x1000);
    assert!(matches!(empty.unmap_regions(1), Err(HyperlightError::BackendFailure(_))));
}

#[test]
fn map_arbitrates_accesses() {
    let mut map = GuestMemoryMap::new(0x1000);
    map.map_region(region(1, MemoryRegionFlags::read()));
    assert_eq!(map.get_memory_access_violation(0x1800, MemoryRegionFlags::read()), None);
    assert_eq!(
        map.get_memory_access_violation(0x1800, MemoryRegionFlags::write()),
        Some(HyperlightExit::AccessViolation(0x1800, MemoryRegionFlags::write(), MemoryRegionFlags::read()))
    );
    assert_eq!(map.get_memory_access_violation(0x2000, MemoryRegionFlags::write()), None);
    map.unmap_regions(1).unwrap();
    assert_eq!(map.get_memory_access_violation(0x1800, MemoryRegionFlags::write()), None);
}
