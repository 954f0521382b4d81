//! The DMA mapping bridge: guest translation-table updates, applied to the
//! real IOMMU translation context.
//!
//! An external device-emulation layer (typically a virtual IOMMU) calls
//! `map` and `unmap` whenever the guest edits its own I/O address
//! translations. `map` first resolves the guest-physical range through the
//! address translator; only a range wholly inside one backing region
//! reaches the container's map entry point, so a request over unmapped or
//! straddling guest memory is rejected as an invalid argument before it
//! could touch the kernel. `unmap` needs no translation and goes straight
//! to the container.

use vstd::prelude::*;

use crate::container::{
    dma_entry_wf, dma_overlap, entry_inside, entry_outside, keep_outside, window_wf, DmaEntry,
    VfioContainer,
};
use crate::errors::{VfioError, ERRNO_INVALID};
use crate::translator::{
    get_host_address_range, region_contains_range, region_wf, translatable, translates_to,
    AddressSpace,
};

verus! {

/// The DMA entry a successful map of `iova` to the resolved host address
/// installs: device-visible, readable and writable.
pub open spec fn mapped_entry(iova: u64, size: u64, host: u64) -> DmaEntry {
    DmaEntry { iova, size, host, readable: true, writable: true }
}

/// Routes guest-driven DMA translation updates through the address
/// translator into one container's translation context.
pub struct VfioDmaMapping {
    /// The translation context the updates are applied to.
    pub container: VfioContainer,
    /// The guest address space the updates are resolved against.
    pub mem: AddressSpace,
}

impl VfioDmaMapping {
    /// The container's invariants hold and the address-space snapshot is
    /// ordered and disjoint.
    pub open spec fn wf(self) -> bool {
        self.container.wf() && self.mem.wf()
    }

    /// Pairs a translation context with the guest address space whose
    /// updates it will mirror.
    pub fn new(container: VfioContainer, mem: AddressSpace) -> (r: VfioDmaMapping)
        ensures
            r.container == container,
            r.mem == mem,
    {
        VfioDmaMapping { container, mem }
    }

    /// Maps the guest-physical range `[gpa, gpa + size)` at the
    /// device-visible window `[iova, iova + size)`.
    ///
    /// The range is first resolved through the address translator; a range
    /// not wholly inside one backing region is rejected without touching
    /// the translation context. A resolved range is installed through
    /// [`VfioContainer::map_dma`] and inherits its overlap rejection.
    pub fn map(&mut self, iova: u64, gpa: u64, size: u64) -> (r: Result<(), VfioError>)
        requires
            old(self).wf(),
        ensures
            final(self).wf(),
            final(self).mem == old(self).mem,
            final(self).container.attached_groups@ == old(self).container.attached_groups@,
            final(self).container.supported_features@ == old(self).container.supported_features@,
            final(self).container.generation == old(self).container.generation,
            match r {
                Ok(()) => size <= usize::MAX && (exists|h: u64|
                    translates_to(old(self).mem@, gpa, size as int, h as int) && dma_entry_wf(
                        mapped_entry(iova, size, h),
                    ) && (forall|i: int|
                        0 <= i < old(self).container.dma_entries@.len() ==> !dma_overlap(
                            #[trigger] old(self).container.dma_entries@[i],
                            mapped_entry(iova, size, h),
                        )) && final(self).container.dma_entries@ == old(self).container.dma_entries@.push(mapped_entry(iova, size, h))),
                Err(VfioError::OutOfRange) => (size > usize::MAX || !translatable(
                    old(self).mem@,
                    gpa,
                    size as int,
                ) || size == 0 || iova + size > u64::MAX + 1) && final(self).container.dma_entries@
                    == old(self).container.dma_entries@,
                Err(VfioError::Overlap) => (exists|h: u64|
                    translates_to(old(self).mem@, gpa, size as int, h as int) && dma_entry_wf(
                        mapped_entry(iova, size, h),
                    ) && (exists|i: int|
                        0 <= i < old(self).container.dma_entries@.len() && dma_overlap(
                            #[trigger] old(self).container.dma_entries@[i],
                            mapped_entry(iova, size, h),
                        ))) && final(self).container.dma_entries@ == old(self).container.dma_entries@,
                Err(_) => false,
            },
    {
        if size > usize::MAX as u64 {
            return Err(VfioError::OutOfRange);
        }
        match get_host_address_range(&self.mem, gpa, size as usize) {
            None => Err(VfioError::OutOfRange),
            Some(host) => {
                proof {
                    let rs = self.mem@;
                    let w = choose|w: int|
                        0 <= w < rs.len() && region_contains_range(rs[w], gpa, size as int) && (
                        host as int) == rs[w].host_base + (gpa - rs[w].start);
                    assert(region_wf(rs[w]));
                    assert(host + size <= u64::MAX + 1);
                }
                self.container.map_dma(
                    DmaEntry { iova, size, host, readable: true, writable: true },
                )
            },
        }
    }

    /// Removes the device-visible window `[iova, iova + size)`; the exact
    /// contract, including the exact-or-superset rule and the conservative
    /// keep-on-failure behaviour, is [`VfioContainer::unmap_dma`]'s.
    pub fn unmap(&mut self, iova: u64, size: u64) -> (r: Result<(), VfioError>)
        requires
            old(self).wf(),
        ensures
            final(self).wf(),
            final(self).mem == old(self).mem,
            final(self).container.attached_groups@ == old(self).container.attached_groups@,
            final(self).container.supported_features@ == old(self).container.supported_features@,
            final(self).container.generation == old(self).container.generation,
            match r {
                Ok(()) => window_wf(iova, size) && (forall|i: int|
                    0 <= i < old(self).container.dma_entries@.len() ==> entry_inside(
                        #[trigger] old(self).container.dma_entries@[i],
                        iova,
                        size,
                    ) || entry_outside(old(self).container.dma_entries@[i], iova, size)) && (
                exists|i: int|
                    0 <= i < old(self).container.dma_entries@.len() && entry_inside(
                        #[trigger] old(self).container.dma_entries@[i],
                        iova,
                        size,
                    )) && final(self).container.dma_entries@ == keep_outside(
                    old(self).container.dma_entries@,
                    iova,
                    size,
                ),
                Err(VfioError::NotMapped) => window_wf(iova, size) && (forall|i: int|
                    0 <= i < old(self).container.dma_entries@.len() ==> entry_outside(
                        #[trigger] old(self).container.dma_entries@[i],
                        iova,
                        size,
                    )) && final(self).container.dma_entries@ == old(self).container.dma_entries@,
                Err(VfioError::Kernel(c)) => c == ERRNO_INVALID && (!window_wf(iova, size) || (
                exists|i: int|
                    0 <= i < old(self).container.dma_entries@.len() && !entry_inside(
                        #[trigger] old(self).container.dma_entries@[i],
                        iova,
                        size,
                    ) && !entry_outside(old(self).container.dma_entries@[i], iova, size))) && final(self).container.dma_entries@ == old(self).container.dma_entries@,
                Err(_) => false,
            },
    {
        self.container.unmap_dma(iova, size)
    }
}

} // verus!
