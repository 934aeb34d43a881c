//! The arbiter of guest memory accesses: whether an access to a guest
//! physical address must be reported as a violation.

use crate::exit::HyperlightExit;
use crate::memory_region::{lemma_named_flags, MemoryRegion, MemoryRegionFlags};
use vstd::prelude::*;

verus! {

/// Whether an access with the flags `attempted` to a region with the flags
/// `region` is forbidden: the region lacks one of the attempted flags, or it
/// is a stack guard, which may never be touched.
pub open spec fn access_denied(region: MemoryRegionFlags, attempted: MemoryRegionFlags) -> bool {
    !attempted@.subset_of(region@) || MemoryRegionFlags::stack_guard()@.subset_of(region@)
}

/// Whether `regions[i]` is the first region that covers `gpa`.
pub open spec fn first_covering(regions: Seq<MemoryRegion>, gpa: usize, i: int) -> bool {
    &&& 0 <= i < regions.len()
    &&& regions[i].covers(gpa)
    &&& forall|j: int| 0 <= j < i ==> !(#[trigger] regions[j]).covers(gpa)
}

/// Whether no region covers `gpa`.
pub open spec fn unmapped(regions: Seq<MemoryRegion>, gpa: usize) -> bool {
    forall|j: int| 0 <= j < regions.len() ==> !(#[trigger] regions[j]).covers(gpa)
}

/// What the arbiter answers for an access to `gpa` that falls into a region
/// with the flags `region`.
pub open spec fn verdict(gpa: usize, region: MemoryRegionFlags, attempted: MemoryRegionFlags)
    -> Option<HyperlightExit> {
    if access_denied(region, attempted) {
        Some(HyperlightExit::AccessViolation(gpa as u64, attempted, region))
    } else {
        None
    }
}

/// Decides whether the access `access_info` to the guest physical address
/// `gpa` violates the permissions of the region that holds it. The regions are
/// searched in order and the first that covers `gpa` decides. An address that
/// no region covers is no violation here: the caller treats it as MMIO.
pub fn get_memory_access_violation(
    gpa: usize,
    mem_regions: &[MemoryRegion],
    access_info: MemoryRegionFlags,
) -> (violation: Option<HyperlightExit>)
    ensures
        unmapped(mem_regions@, gpa) ==> violation is None,
        forall|i: int|
            first_covering(mem_regions@, gpa, i) ==> violation == verdict(
                gpa,
                mem_regions@[i].flags,
                access_info,
            ),
{
    let mut k: usize = 0;
    while k < mem_regions.len()
        invariant
            k <= mem_regions.len(),
            forall|j: int| 0 <= j < k ==> !(#[trigger] mem_regions@[j]).covers(gpa),
        decreases mem_regions.len() - k,
    {
        let region = &mem_regions[k];
        if region.contains(gpa) {
            if !region.flags.contains(access_info) || region.flags.contains(
                MemoryRegionFlags::stack_guard(),
            ) {
                return Some(HyperlightExit::AccessViolation(gpa as u64, access_info, region.flags));
            }
            return None;
        }
        k += 1;
    }
    None
}

proof fn lemma_first_covering_from(regions: Seq<MemoryRegion>, gpa: usize, k: int)
    requires
        0 <= k <= regions.len(),
        forall|j: int| 0 <= j < k ==> !(#[trigger] regions[j]).covers(gpa),
    ensures
        unmapped(regions, gpa) || exists|i: int| first_covering(regions, gpa, i),
    decreases regions.len() - k,
{
    if k < regions.len() {
        if regions[k].covers(gpa) {
            assert(first_covering(regions, gpa, k));
        } else {
            lemma_first_covering_from(regions, gpa, k + 1);
        }
    }
}

/// Every address is decided: either no region covers it, or exactly one
/// region is the first to cover it. So the two cases in which the arbiter's
/// answer is stated leave no address out and never disagree.
pub proof fn law_every_address_is_decided(regions: Seq<MemoryRegion>, gpa: usize)
    ensures
        unmapped(regions, gpa) <==> !exists|i: int| first_covering(regions, gpa, i),
        forall|i: int, j: int|
            first_covering(regions, gpa, i) && first_covering(regions, gpa, j) ==> i == j,
{
    lemma_first_covering_from(regions, gpa, 0);
    assert forall|i: int, j: int|
        first_covering(regions, gpa, i) && first_covering(regions, gpa, j) implies i == j by {
        if i < j {
            assert(!regions[i].covers(gpa));
        }
        if j < i {
            assert(!regions[j].covers(gpa));
        }
    }
}

/// For an address inside a region that is the first to cover it, the arbiter
/// reports a violation exactly when the region lacks one of the attempted
/// flags or holds the stack guard flag; the violation names the address, the
/// attempted flags and the flags of the region.
pub proof fn law_violation_iff_denied(
    regions: Seq<MemoryRegion>,
    i: int,
    gpa: usize,
    attempted: MemoryRegionFlags,
)
    requires
        first_covering(regions, gpa, i),
    ensures
        verdict(gpa, regions[i].flags, attempted) is Some <==> (!attempted@.subset_of(
            regions[i].flags@,
        ) || exists|flag: u32|
            MemoryRegionFlags::stack_guard()@.contains(flag) && regions[i].flags@.contains(flag)),
        verdict(gpa, regions[i].flags, attempted) is Some ==> verdict(
            gpa,
            regions[i].flags,
            attempted,
        ) == Some(HyperlightExit::AccessViolation(gpa as u64, attempted, regions[i].flags)),
{
    lemma_named_flags();
    let guard = MemoryRegionFlags::stack_guard();
    assert(guard@.contains(3));
    assert(guard@.subset_of(regions[i].flags@) <==> regions[i].flags@.contains(3));
}

/// The last address of a region is inside it and the first address past it is
/// not: where no other region covers that address, it is unmapped.
pub proof fn law_region_boundary(region: MemoryRegion)
    requires
        region.guest_region.start < region.guest_region.end,
    ensures
        region.covers((region.guest_region.end - 1) as usize),
        !region.covers(region.guest_region.end),
        unmapped(seq![region], region.guest_region.end),
        first_covering(seq![region], (region.guest_region.end - 1) as usize, 0),
{
}

} // verus!
