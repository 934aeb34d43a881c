use hyperlight_vcpu::exit::HyperlightExit;
use hyperlight_vcpu::mem_access::get_memory_access_violation;
use hyperlight_vcpu::memory_region::{MemoryRegion, MemoryRegionFlags};

fn rw() -> MemoryRegionFlags {
    MemoryRegionFlags::read().union(MemoryRegionFlags::write())
}

fn layout() -> Vec<MemoryRegion> {
    vec![
        MemoryRegion::new(0x1000, 0x2000, MemoryRegionFlags::read().union(MemoryRegionFlags::execute())),
        MemoryRegion::new(0x2000, 0x3000, rw()),
        MemoryRegion::new(0x3000, 0x4000, rw().union(MemoryRegionFlags::stack_guard())),
        MemoryRegion::new(0x8000, 0x9000, MemoryRegionFlags::none()),
    ]
}

#[test]
fn flag_bits_are_one_bit_each() {
    assert_eq!(MemoryRegionFlags::none().bits(), 0);
    assert_eq!(MemoryRegionFlags::read().bits(), 1);
    assert_eq!(MemoryRegionFlags::write().bits(), 2);
    assert_eq!(MemoryRegionFlags::execute().bits(), 4);
    assert_eq!(MemoryRegionFlags::stack_guard().bits(), 8);
    assert_eq!(rw().bits(), 3);
    assert_eq!(MemoryRegionFlags::from_bits(0b1010), MemoryRegionFlags::write().union(MemoryRegionFlags::stack_guard()));
}

#[test]
fn flags_contains_is_subset() {
    assert!(rw().contains(MemoryRegionFlags::read()));
    assert!(rw().contains(rw()));
    assert!(rw().contains(MemoryRegionFlags::none()));
    assert!(!rw().contains(MemoryRegionFlags::execute()));
    assert!(!MemoryRegionFlags::read().contains(rw()));
    assert!(MemoryRegionFlags::none().contains(MemoryRegionFlags::none()));
}

#[test]
fn flags_intersects_is_overlap() {
    assert!(rw().intersects(MemoryRegionFlags::read()));
    assert!(rw().intersects(MemoryRegionFlags::write().union(MemoryRegionFlags::execute())));
    assert!(!rw().intersects(MemoryRegionFlags::execute()));
    assert!(!rw().intersects(MemoryRegionFlags::none()));
    assert!(!MemoryRegionFlags::none().intersects(MemoryRegionFlags::none()));
}

#[test]
fn region_contains_is_half_open() {
    let region = MemoryRegion::new(0x2000, 0x3000, rw());
    assert!(!region.contains(0x1fff));
    assert!(region.contains(0x2000));
    assert!(region.contains(0x2fff));
    assert!(!region.contains(0x3000));
    let empty = MemoryRegion::new(0x2000, 0x2000, rw());
    assert!(!empty.contains(0x2000));
}

#[test]
fn permitted_access_is_no_violation() {
    let regions = layout();
    assert_eq!(get_memory_access_violation(0x2010, &regions, MemoryRegionFlags::read()), None);
    assert_eq!(get_memory_access_violation(0x2010, &regions, MemoryRegionFlags::write()), None);
    assert_eq!(get_memory_access_violation(0x2010, &regions, rw()), None);
    assert_eq!(get_memory_access_violation(0x1010, &regions, MemoryRegionFlags::execute()), None);
    assert_eq!(get_memory_access_violation(0x2010, &regions, MemoryRegionFlags::none()), None);
}

#[test]
fn missing_permission_is_a_violation() {
    let regions = layout();
    assert_eq!(
        get_memory_access_violation(0x1010, &regions, MemoryRegionFlags::write()),
        Some(HyperlightExit::AccessViolation(
            0x1010,
            MemoryRegionFlags::write(),
            MemoryRegionFlags::read().union(MemoryRegionFlags::execute())
        ))
    );
    assert_eq!(
        get_memory_access_violation(0x2010, &regions, MemoryRegionFlags::execute()),
        Some(HyperlightExit::AccessViolation(0x2010, MemoryRegionFlags::execute(), rw()))
    );
    assert_eq!(
        get_memory_access_violation(0x2010, &regions, rw().union(MemoryRegionFlags::execute())),
        Some(HyperlightExit::AccessViolation(0x2010, rw().union(MemoryRegionFlags::execute()), rw()))
    );
    assert_eq!(
        get_memory_access_violation(0x8000, &regions, MemoryRegionFlags::read()),
        Some(HyperlightExit::AccessViolation(0x8000, MemoryRegionFlags::read(), MemoryRegionFlags::none()))
    );
}

#[test]
fn stack_guard_is_always_a_violation() {
    let regions = layout();
    let guard = rw().union(MemoryRegionFlags::stack_guard());
    assert_eq!(
        get_memory_access_violation(0x3008, &regions, MemoryRegionFlags::write()),
        Some(HyperlightExit::AccessViolation(0x3008, MemoryRegionFlags::write(), guard))
    );
    assert_eq!(
        get_memory_access_violation(0x3008, &regions, MemoryRegionFlags::read()),
        Some(HyperlightExit::AccessViolation(0x3008, MemoryRegionFlags::read(), guard))
    );
    assert_eq!(
        get_memory_access_violation(0x3008, &regions, MemoryRegionFlags::none()),
        Some(HyperlightExit::AccessViolation(0x3008, MemoryRegionFlags::none(), guard))
    );
}

#[test]
fn unmapped_address_is_no_violation() {
    let regions = layout();
    assert_eq!(get_memory_access_violation(0x0, &regions, MemoryRegionFlags::read()), None);
    assert_eq!(get_memory_access_violation(0x5000, &regions, MemoryRegionFlags::write()), None);
    assert_eq!(get_memory_access_violation(usize::MAX, &regions, MemoryRegionFlags::read()), None);
    assert_eq!(get_memory_access_violation(0x2000, &[], MemoryRegionFlags::read()), None);
}

#[test]
fn violation_at_region_boundary() {
    let regions = vec![MemoryRegion::new(0x8000, 0x9000, MemoryRegionFlags::read())];
    assert_eq!(
        get_memory_access_violation(0x8fff, &regions, MemoryRegionFlags::write()),
        Some(HyperlightExit::AccessViolation(0x8fff, MemoryRegionFlags::write(), MemoryRegionFlags::read()))
    );
    assert_eq!(get_memory_access_violation(0x9000, &regions, MemoryRegionFlags::write()), None);
    assert_eq!(
        get_memory_access_violation(0x8000, &regions, MemoryRegionFlags::write()),
        Some(HyperlightExit::AccessViolation(0x8000, MemoryRegionFlags::write(), MemoryRegionFlags::read()))
    );
    assert_eq!(get_memory_access_violation(0x7fff, &regions, MemoryRegionFlags::write()), None);
}

#[test]
fn first_covering_region_decides() {
    let regions = vec![
        MemoryRegion::new(0x1000, 0x3000, MemoryRegionFlags::read()),
        MemoryRegion::new(0x2000, 0x4000, rw()),
    ];
    assert_eq!(
        get_memory_access_violation(0x2800, &regions, MemoryRegionFlags::write()),
        Some(HyperlightExit::AccessViolation(0x2800, MemoryRegionFlags::write(), MemoryRegionFlags::read()))
    );
    assert_eq!(get_memory_access_violation(0x3800, &regions, MemoryRegionFlags::write()), None);
}

#[test]
fn region_clone_is_equal() {
    let region = MemoryRegion::new(0x1000, 0x2000, rw());
    let copy = region.clone();
    assert_eq!(copy.guest_region, 0x1000..0x2000);
    assert_eq!(copy.flags, rw());
}
