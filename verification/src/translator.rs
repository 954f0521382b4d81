//! Guest-physical to host address translation.
//!
//! A guest address space is a snapshot of ordered, disjoint, contiguous
//! backing regions. A byte range is translated only when it lies entirely
//! inside one region: a range that runs off the end of its region is
//! rejected even when the next region is numerically adjacent, because the
//! two regions' lifetimes are independent and hardware handed a pointer
//! across the seam could outlive one of them.

use vstd::prelude::*;

use crate::errors::VfioError;

verus! {

/// One contiguous guest-physical region and the host address backing it.
#[derive(Clone, Copy, Debug, PartialEq, Eq, Structural)]
pub struct GuestRegion {
    /// First guest-physical address of the region.
    pub start: u64,
    /// Length in bytes; never zero in a well-formed region.
    pub size: u64,
    /// Host address of the byte at `start`.
    pub host_base: u64,
}

/// A region is non-empty and neither its guest range nor its host range
/// wraps past the top of the 64-bit address space.
pub open spec fn region_wf(r: GuestRegion) -> bool {
    &&& r.size > 0
    &&& r.start + r.size <= u64::MAX + 1
    &&& r.host_base + r.size <= u64::MAX + 1
}

/// `addr` lies inside `r`.
pub open spec fn region_contains(r: GuestRegion, addr: u64) -> bool {
    r.start <= addr < r.start + r.size
}

/// The byte range `[addr, addr + size)` lies entirely inside `r`.
pub open spec fn region_contains_range(r: GuestRegion, addr: u64, size: int) -> bool {
    region_contains(r, addr) && addr - r.start + size <= r.size
}

/// Regions are individually well formed, ordered by start address, and each
/// ends at or before its successor's start.
pub open spec fn regions_wf(rs: Seq<GuestRegion>) -> bool {
    &&& forall|i: int| 0 <= i < rs.len() ==> region_wf(#[trigger] rs[i])
    &&& forall|i: int|
        0 <= i < rs.len() - 1 ==> (#[trigger] rs[i].start) + rs[i].size <= rs[i + 1].start
}

/// In a well-formed sequence every earlier region ends at or before every
/// later region's start, not just its immediate successor's.
pub proof fn lemma_regions_separated(rs: Seq<GuestRegion>, i: int, j: int)
    requires
        regions_wf(rs),
        0 <= i < j < rs.len(),
    ensures
        rs[i].start + rs[i].size <= rs[j].start,
    decreases j - i,
{
    if j > i + 1 {
        lemma_regions_separated(rs, i, j - 1);
    }
}

/// In a well-formed sequence an address lies in at most one region.
pub proof fn lemma_at_most_one_region(rs: Seq<GuestRegion>, addr: u64, i: int)
    requires
        regions_wf(rs),
        0 <= i < rs.len(),
        region_contains(rs[i], addr),
    ensures
        forall|j: int| 0 <= j < rs.len() && j != i ==> !region_contains(#[trigger] rs[j], addr),
{
    assert forall|j: int| 0 <= j < rs.len() && j != i implies !region_contains(
        #[trigger] rs[j],
        addr,
    ) by {
        if j < i {
            lemma_regions_separated(rs, j, i);
        } else {
            lemma_regions_separated(rs, i, j);
        }
    }
}

/// Some region holds the whole byte range `[addr, addr + size)`.
pub open spec fn translatable(rs: Seq<GuestRegion>, addr: u64, size: int) -> bool {
    exists|i: int| 0 <= i < rs.len() && region_contains_range(#[trigger] rs[i], addr, size)
}

/// Some region holds the whole byte range and backs `addr` at host address
/// `host`: `host` sits at the same offset from the region's host base as
/// `addr` does from the region's start.
pub open spec fn translates_to(rs: Seq<GuestRegion>, addr: u64, size: int, host: int) -> bool {
    exists|i: int|
        0 <= i < rs.len() && region_contains_range(#[trigger] rs[i], addr, size) && host
            == rs[i].host_base + (addr - rs[i].start)
}

/// A translated host address preserves the offset within the owning
/// region: whenever a range starting at `addr` translates to `host` and
/// `addr` lies in the region at index `i`, the whole range lies in that
/// region and `host` sits at the same offset from the region's host base
/// as `addr` does from the region's start.
pub proof fn lemma_translation_preserves_offset(
    rs: Seq<GuestRegion>,
    addr: u64,
    size: int,
    host: int,
    i: int,
)
    requires
        regions_wf(rs),
        translates_to(rs, addr, size, host),
        0 <= i < rs.len(),
        region_contains(rs[i], addr),
    ensures
        region_contains_range(rs[i], addr, size),
        host == rs[i].host_base + (addr - rs[i].start),
{
    let w = choose|w: int|
        0 <= w < rs.len() && region_contains_range(#[trigger] rs[w], addr, size) && host
            == rs[w].host_base + (addr - rs[w].start);
    lemma_at_most_one_region(rs, addr, i);
}

/// A range that starts inside a region and runs past that region's bound
/// translates to nothing, however the neighbouring regions lie: no region
/// of a well-formed address space can hold it.
pub proof fn lemma_straddling_range_untranslatable(
    rs: Seq<GuestRegion>,
    addr: u64,
    size: int,
    i: int,
)
    requires
        regions_wf(rs),
        0 <= i < rs.len(),
        region_contains(rs[i], addr),
        addr - rs[i].start + size > rs[i].size,
    ensures
        !translatable(rs, addr, size),
{
    lemma_at_most_one_region(rs, addr, i);
}

/// A guest address space: the ordered, disjoint backing regions an external
/// memory provider reported, snapshotted as plain values.
#[derive(Clone, Debug)]
pub struct AddressSpace {
    regions: Vec<GuestRegion>,
}

impl View for AddressSpace {
    type V = Seq<GuestRegion>;

    closed spec fn view(&self) -> Seq<GuestRegion> {
        self.regions@
    }
}

impl AddressSpace {
    /// The snapshot is ordered and disjoint; established by `from_ranges`
    /// and never mutated afterwards.
    pub open spec fn wf(self) -> bool {
        regions_wf(self@)
    }

    /// Builds an address space from a region list, rejecting a list with a
    /// malformed region, or one that is unordered or overlapping.
    pub fn from_ranges(regions: Vec<GuestRegion>) -> (r: Result<AddressSpace, VfioError>)
        ensures
            match r {
                Ok(s) => s@ == regions@ && s.wf(),
                Err(VfioError::OutOfRange) => exists|i: int|
                    0 <= i < regions@.len() && !region_wf(#[trigger] regions@[i]),
                Err(VfioError::Overlap) => (forall|i: int|
                    0 <= i < regions@.len() ==> region_wf(#[trigger] regions@[i])) && exists|i: int|
                    0 <= i < regions@.len() - 1 && (#[trigger] regions@[i].start) + regions@[i].size
                        > regions@[i + 1].start,
                Err(_) => false,
            },
    {
        let n = regions.len();
        let mut i: usize = 0;
        while i < n
            invariant
                n == regions@.len(),
                0 <= i <= n,
                forall|k: int| 0 <= k < i ==> region_wf(#[trigger] regions@[k]),
            decreases n - i,
        {
            let r = regions[i];
            if !(r.size > 0 && r.start <= u64::MAX - (r.size - 1) && r.host_base <= u64::MAX - (
            r.size - 1)) {
                return Err(VfioError::OutOfRange);
            }
            i = i + 1;
        }
        let mut j: usize = 1;
        while j < n
            invariant
                n == regions@.len(),
                1 <= j || n == 0,
                j <= n || n == 0,
                forall|k: int| 0 <= k < n ==> region_wf(#[trigger] regions@[k]),
                forall|k: int|
                    0 <= k < j - 1 ==> (#[trigger] regions@[k].start) + regions@[k].size
                        <= regions@[k + 1].start,
            decreases n - j,
        {
            let prev = regions[j - 1];
            let cur = regions[j];
            if !(cur.start >= prev.start && cur.start - prev.start >= prev.size) {
                return Err(VfioError::Overlap);
            }
            j = j + 1;
        }
        Ok(AddressSpace { regions })
    }

    /// Resolves an address to the index of its owning region and the
    /// region-relative offset, or to nothing when no region holds it.
    pub fn resolve(&self, addr: u64) -> (r: Option<(usize, u64)>)
        requires
            self.wf(),
        ensures
            match r {
                Some((i, off)) => 0 <= i < self@.len() && region_contains(self@[i as int], addr)
                    && off == addr - self@[i as int].start,
                None => forall|i: int| 0 <= i < self@.len() ==> !region_contains(
                    #[trigger] self@[i],
                    addr,
                ),
            },
    {
        let n = self.regions.len();
        let mut i: usize = 0;
        while i < n
            invariant
                n == self@.len(),
                0 <= i <= n,
                self.wf(),
                forall|k: int| 0 <= k < i ==> !region_contains(#[trigger] self@[k], addr),
            decreases n - i,
        {
            let r = self.regions[i];
            if r.start <= addr && addr - r.start < r.size {
                return Some((i, addr - r.start));
            }
            i = i + 1;
        }
        None
    }
}

/// Translates a region-relative byte range to the host address of its first
/// byte, or to nothing when the range does not fit inside the region.
fn get_region_host_address_range(region: &GuestRegion, addr: u64, size: usize) -> (r: Option<u64>)
    requires
        region_wf(*region),
    ensures
        match r {
            Some(h) => addr < region.size && addr + size <= region.size && h == region.host_base
                + addr,
            None => !(addr < region.size && addr + size <= region.size),
        },
{
    if addr < region.size && size as u64 <= region.size - addr {
        Some(region.host_base + addr)
    } else {
        None
    }
}

/// Translates the guest-physical byte range `[addr, addr + size)` to the
/// host address of its first byte.
///
/// The range must lie entirely inside one backing region: a range outside
/// every region, or one that starts in a region and runs past that region's
/// bound — even into a numerically adjacent region — yields nothing. On
/// success the returned host address sits at the same offset from the owning
/// region's host base as `addr` does from the region's start.
pub fn get_host_address_range(mem: &AddressSpace, addr: u64, size: usize) -> (r: Option<u64>)
    requires
        mem.wf(),
    ensures
        match r {
            Some(h) => translates_to(mem@, addr, size as int, h as int),
            None => !translatable(mem@, addr, size as int),
        },
{
    match mem.resolve(addr) {
        None => None,
        Some((i, off)) => {
            let region = region_at(mem, i);
            let r = get_region_host_address_range(&region, off, size);
            proof {
                lemma_at_most_one_region(mem@, addr, i as int);
            }
            r
        },
    }
}

/// Copies out the region at a resolved index.
fn region_at(mem: &AddressSpace, i: usize) -> (r: GuestRegion)
    requires
        i < mem@.len(),
    ensures
        r == mem@[i as int],
{
    mem.regions[i]
}

} // verus!
