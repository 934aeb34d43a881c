//! The guest physical map of a backend: the regions that are mapped, in the
//! order in which they were mapped.

use crate::error::HyperlightError;
use crate::exit::HyperlightExit;
use crate::mem_access::{first_covering, get_memory_access_violation, unmapped, verdict};
use crate::memory_region::{MemoryRegion, MemoryRegionFlags};
use vstd::prelude::*;

verus! {

/// Whether the region starts at a multiple of `page_size` and is a whole
/// number of pages long.
pub open spec fn page_aligned(region: MemoryRegion, page_size: usize) -> bool {
    &&& page_size > 0
    &&& region.guest_region.start <= region.guest_region.end
    &&& region.guest_region.start % page_size == 0
    &&& (region.guest_region.end - region.guest_region.start) % (page_size as int) == 0
}

/// Tests whether the region starts at a multiple of `page_size` and is a
/// whole number of pages long, as a region must before it is mapped.
pub fn is_page_aligned(region: &MemoryRegion, page_size: usize) -> (aligned: bool)
    ensures
        aligned == page_aligned(*region, page_size),
{
    if page_size == 0 || region.guest_region.start > region.guest_region.end {
        return false;
    }
    let len = region.guest_region.end - region.guest_region.start;
    region.guest_region.start % page_size == 0 && len % page_size == 0
}

/// The map after `n` regions were unmapped: all but the last `n`.
pub open spec fn without_last(regions: Seq<MemoryRegion>, n: int) -> Seq<MemoryRegion>
    recommends
        0 <= n <= regions.len(),
{
    regions.take(regions.len() - n)
}

/// The last `n` regions of the map, the most recent first.
pub open spec fn last_mapped(regions: Seq<MemoryRegion>, n: int) -> Seq<MemoryRegion>
    recommends
        0 <= n <= regions.len(),
{
    regions.skip(regions.len() - n).reverse()
}

/// The regions of a guest, kept as a stack: what was mapped last is unmapped
/// first.
#[derive(Debug)]
pub struct GuestMemoryMap {
    page_size: usize,
    regions: Vec<MemoryRegion>,
}

impl View for GuestMemoryMap {
    type V = Seq<MemoryRegion>;

    /// The mapped regions, the oldest first.
    closed spec fn view(&self) -> Seq<MemoryRegion> {
        self.regions@
    }
}

impl GuestMemoryMap {
    /// The page size of the backend, to which every mapped region is
    /// aligned.
    pub closed spec fn spec_page_size(&self) -> usize {
        self.page_size
    }

    /// A map without regions for a backend with pages of `page_size` bytes.
    pub fn new(page_size: usize) -> (map: GuestMemoryMap)
        ensures
            map@ == Seq::<MemoryRegion>::empty(),
            map.spec_page_size() == page_size,
    {
        GuestMemoryMap { page_size, regions: Vec::new() }
    }

    /// The page size of the backend.
    pub fn page_size(&self) -> (page_size: usize)
        ensures
            page_size == self.spec_page_size(),
    {
        self.page_size
    }

    /// The mapped regions, the oldest first.
    pub fn regions(&self) -> (regions: &Vec<MemoryRegion>)
        ensures
            regions@ == self@,
    {
        &self.regions
    }

    /// Maps `region` on top of the regions that are mapped.
    pub fn map_region(&mut self, region: MemoryRegion)
        requires
            page_aligned(region, old(self).spec_page_size()),
        ensures
            final(self)@ == old(self)@.push(region),
            final(self).spec_page_size() == old(self).spec_page_size(),
    {
        self.regions.push(region);
    }

    /// Unmaps the `n` regions that were mapped last and hands them back, the
    /// most recent first: the order in which the backend is to remove them.
    /// Where fewer than `n` regions are mapped, nothing is unmapped and the
    /// call fails.
    pub fn unmap_regions(&mut self, n: u64) -> (removed: Result<Vec<MemoryRegion>, HyperlightError>)
        ensures
            final(self).spec_page_size() == old(self).spec_page_size(),
            n <= old(self)@.len() ==> {
                &&& removed matches Ok(regions)
                &&& final(self)@ == without_last(old(self)@, n as int)
                &&& regions@ == last_mapped(old(self)@, n as int)
            },
            n > old(self)@.len() ==> {
                &&& removed matches Err(HyperlightError::BackendFailure(_))
                &&& final(self)@ == old(self)@
            },
    {
        let len = self.regions.len();
        if n > len as u64 {
            return Err(
                HyperlightError::BackendFailure(
                    "more regions to unmap than are mapped".to_owned(),
                ),
            );
        }
        let keep = len - n as usize;
        let mut removed: Vec<MemoryRegion> = Vec::new();
        while self.regions.len() > keep
            invariant
                keep <= self.regions.len() <= len,
                len == old(self)@.len(),
                self.page_size == old(self).page_size,
                self.regions@ == old(self)@.take(self.regions.len() as int),
                removed@ == old(self)@.skip(self.regions.len() as int).reverse(),
            decreases self.regions.len(),
        {
            let ghost before = self.regions@;
            let ghost taken = removed@;
            let last = self.regions.pop();
            match last {
                Some(region) => {
                    removed.push(region);
                    proof {
                        let rest = self.regions.len() as int;
                        assert(self.regions@ =~= old(self)@.take(rest));
                        assert(region == old(self)@[rest]);
                        assert(removed@ =~= old(self)@.skip(rest).reverse());
                    }
                },
                None => {},
            }
        }
        Ok(removed)
    }

    /// Decides whether the access `access_info` to the guest physical address
    /// `gpa` violates the permissions of the first mapped region that holds
    /// it. An address that no mapped region holds is no violation here.
    pub fn get_memory_access_violation(
        &self,
        gpa: usize,
        access_info: MemoryRegionFlags,
    ) -> (violation: Option<HyperlightExit>)
        ensures
            unmapped(self@, gpa) ==> violation is None,
            forall|i: int|
                first_covering(self@, gpa, i) ==> violation == verdict(
                    gpa,
                    self@[i].flags,
                    access_info,
                ),
    {
        get_memory_access_violation(gpa, self.regions.as_slice(), access_info)
    }
}

/// Mapping a region and unmapping one region right after leaves the map as
/// it was, and hands back the region that was mapped.
pub proof fn law_map_then_unmap(before: Seq<MemoryRegion>, region: MemoryRegion)
    ensures
        without_last(before.push(region), 1) == before,
        last_mapped(before.push(region), 1) == seq![region],
{
    let after = before.push(region);
    assert(after.take(after.len() - 1) =~= before);
    assert(after.skip(after.len() - 1).reverse() =~= seq![region]);
}

/// Unmapping follows the order of a stack: to unmap `n + 1` regions is to
/// unmap the one mapped last and then `n` more.
pub proof fn law_unmap_is_lifo(regions: Seq<MemoryRegion>, n: int)
    requires
        0 <= n < regions.len(),
    ensures
        without_last(regions, n + 1) == without_last(without_last(regions, 1), n),
        last_mapped(regions, n + 1) == seq![regions.last()] + last_mapped(
            without_last(regions, 1),
            n,
        ),
{
    assert(without_last(regions, n + 1) =~= without_last(without_last(regions, 1), n));
    assert(last_mapped(regions, n + 1) =~= seq![regions.last()] + last_mapped(
        without_last(regions, 1),
        n,
    ));
}

} // verus!
