//! Containers: one shared IOMMU translation context.
//!
//! A container aggregates attached isolation groups and owns the active
//! DMA translation entries. The two invariants that keep passthrough DMA
//! safe are enforced here: no two active entries overlap in I/O-virtual
//! address space, and a group identifier is attached at most once. A
//! container can be closed only after every attached group has been
//! detached, so kernel-side teardown always happens children-first.

use vstd::prelude::*;

use crate::errors::{VfioError, ERRNO_INVALID};
use crate::group::VfioGroup;

verus! {

/// One active DMA translation: the device-visible window
/// `[iova, iova + size)` reaches host memory at `host`.
#[derive(Clone, Copy, Debug, PartialEq, Eq, Structural)]
pub struct DmaEntry {
    /// First I/O-virtual address of the window.
    pub iova: u64,
    /// Length of the window in bytes; never zero in an active entry.
    pub size: u64,
    /// Host address backing the first byte.
    pub host: u64,
    /// The device may read through the window.
    pub readable: bool,
    /// The device may write through the window.
    pub writable: bool,
}

/// An entry is non-empty and neither its I/O-virtual window nor its host
/// range wraps past the top of the 64-bit address space.
pub open spec fn dma_entry_wf(e: DmaEntry) -> bool {
    &&& e.size > 0
    &&& e.iova + e.size <= u64::MAX + 1
    &&& e.host + e.size <= u64::MAX + 1
}

/// The I/O-virtual windows of `a` and `b` share at least one address.
pub open spec fn dma_overlap(a: DmaEntry, b: DmaEntry) -> bool {
    a.iova < b.iova + b.size && b.iova < a.iova + a.size
}

/// Every entry is well formed and no two entries overlap.
pub open spec fn dma_entries_wf(es: Seq<DmaEntry>) -> bool {
    &&& forall|i: int| 0 <= i < es.len() ==> dma_entry_wf(#[trigger] es[i])
    &&& forall|i: int, j: int|
        0 <= i < es.len() && 0 <= j < es.len() && i != j ==> !dma_overlap(
            #[trigger] es[i],
            #[trigger] es[j],
        )
}

/// An unmap window is non-empty and does not wrap.
pub open spec fn window_wf(iova: u64, size: u64) -> bool {
    size > 0 && iova + size <= u64::MAX + 1
}

/// The entry lies wholly inside the window `[iova, iova + size)`.
pub open spec fn entry_inside(e: DmaEntry, iova: u64, size: u64) -> bool {
    iova <= e.iova && e.iova + e.size <= iova + size
}

/// The entry lies wholly outside the window `[iova, iova + size)`.
pub open spec fn entry_outside(e: DmaEntry, iova: u64, size: u64) -> bool {
    e.iova + e.size <= iova || iova + size <= e.iova
}

/// The entries that an unmap of `[iova, iova + size)` leaves active: those
/// not wholly inside the window, in their original order.
pub open spec fn keep_outside(es: Seq<DmaEntry>, iova: u64, size: u64) -> Seq<DmaEntry>
    decreases es.len(),
{
    if es.len() == 0 {
        Seq::empty()
    } else {
        let rest = keep_outside(es.drop_last(), iova, size);
        if entry_inside(es.last(), iova, size) {
            rest
        } else {
            rest.push(es.last())
        }
    }
}

/// Removing the entries inside a window keeps the remainder well formed,
/// and invents no entry.
pub proof fn lemma_keep_outside_wf(es: Seq<DmaEntry>, iova: u64, size: u64)
    requires
        dma_entries_wf(es),
    ensures
        dma_entries_wf(keep_outside(es, iova, size)),
        forall|k: int|
            0 <= k < keep_outside(es, iova, size).len() ==> es.contains(
                #[trigger] keep_outside(es, iova, size)[k],
            ),
    decreases es.len(),
{
    if es.len() > 0 {
        let prefix = es.drop_last();
        assert(forall|i: int| 0 <= i < prefix.len() ==> prefix[i] == es[i]);
        lemma_keep_outside_wf(prefix, iova, size);
        let kept = keep_outside(es, iova, size);
        let kept_prefix = keep_outside(prefix, iova, size);
        assert forall|k: int| 0 <= k < kept.len() implies es.contains(#[trigger] kept[k]) by {
            if k < kept_prefix.len() {
                let m = choose|m: int| 0 <= m < prefix.len() && prefix[m] == kept_prefix[k];
                assert(es[m] == kept[k]);
            } else {
                assert(kept[k] == es[es.len() - 1]);
            }
        }
        assert forall|i: int, j: int|
            0 <= i < kept.len() && 0 <= j < kept.len() && i != j implies !dma_overlap(
            #[trigger] kept[i],
            #[trigger] kept[j],
        ) by {
            if i < kept_prefix.len() && j < kept_prefix.len() {
            } else {
                // One of the two indices names the pushed last element;
                // the other names a kept prefix entry.
                let p = if i < j {
                    i
                } else {
                    j
                };
                let m = choose|m: int| 0 <= m < prefix.len() && prefix[m] == kept_prefix[p];
                assert(!dma_overlap(es[m], es[es.len() - 1]));
            }
        }
    }
}

/// The generation counter after one more attachment.
pub open spec fn next_generation(g: u64) -> u64 {
    if g == u64::MAX {
        0
    } else {
        (g + 1) as u64
    }
}

/// Both containers hold the same groups, entries, features and generation.
pub open spec fn container_state_eq(a: VfioContainer, b: VfioContainer) -> bool {
    &&& a.attached_groups@ == b.attached_groups@
    &&& a.dma_entries@ == b.dma_entries@
    &&& a.supported_features@ == b.supported_features@
    &&& a.generation == b.generation
}

/// Both groups agree on everything but their attachment flag.
pub open spec fn group_core_eq(a: VfioGroup, b: VfioGroup) -> bool {
    a.id == b.id && a.viable == b.viable && a.live_devices == b.live_devices
}

/// Neither the container's state nor the group's attachment changed.
pub open spec fn attach_unchanged(
    c0: VfioContainer,
    c1: VfioContainer,
    g0: VfioGroup,
    g1: VfioGroup,
) -> bool {
    g1.attached == g0.attached && container_state_eq(c0, c1)
}

/// An attach of `g` to `c` is allowed: the handle is not yet attached, the
/// group is viable, and its identifier is not attached through another
/// handle.
pub open spec fn attach_allowed(c: VfioContainer, g: VfioGroup) -> bool {
    !g.attached && g.viable && !c.attached_groups@.contains(g.id)
}

/// The one step a successful attach takes: the group is marked attached,
/// its identifier joins the container's set, the generation advances, and
/// nothing else moves.
pub open spec fn attach_applied(
    c0: VfioContainer,
    c1: VfioContainer,
    g0: VfioGroup,
    g1: VfioGroup,
) -> bool {
    &&& g1.attached
    &&& c1.attached_groups@ == c0.attached_groups@.push(g0.id)
    &&& c1.dma_entries@ == c0.dma_entries@
    &&& c1.supported_features@ == c0.supported_features@
    &&& c1.generation == next_generation(c0.generation)
}

/// The one step a successful detach takes: the group is marked detached,
/// its identifier leaves the container's set, and nothing else moves.
pub open spec fn detach_applied(
    c0: VfioContainer,
    c1: VfioContainer,
    g0: VfioGroup,
    g1: VfioGroup,
) -> bool {
    &&& !g1.attached
    &&& c1.attached_groups@ == c0.attached_groups@.remove_value(g0.id)
    &&& c1.dma_entries@ == c0.dma_entries@
    &&& c1.supported_features@ == c0.supported_features@
    &&& c1.generation == c0.generation
}

/// The top-level passthrough resource: groups sharing one IOMMU
/// translation context, and the context's active DMA entries.
pub struct VfioContainer {
    /// Identifiers of the groups currently attached, each at most once.
    pub attached_groups: Vec<u32>,
    /// The active DMA translation entries, pairwise non-overlapping.
    pub dma_entries: Vec<DmaEntry>,
    /// Optional IOMMU capabilities the platform reported as available.
    pub supported_features: Vec<u32>,
    /// Counts the attachments made to this translation context.
    pub generation: u64,
}

impl VfioContainer {
    /// The container's two safety invariants: active DMA entries are well
    /// formed and pairwise non-overlapping, and no group identifier is
    /// attached twice.
    pub open spec fn wf(self) -> bool {
        &&& dma_entries_wf(self.dma_entries@)
        &&& forall|i: int, j: int|
            0 <= i < j < self.attached_groups@.len() ==> (#[trigger] self.attached_groups@[i])
                != #[trigger] self.attached_groups@[j]
    }

    /// Records a freshly opened control handle, with the optional IOMMU
    /// capabilities the platform probe reported.
    pub fn new(supported_features: Vec<u32>) -> (c: VfioContainer)
        ensures
            c.wf(),
            c.attached_groups@.len() == 0,
            c.dma_entries@.len() == 0,
            c.supported_features@ == supported_features@,
            c.generation == 0,
    {
        VfioContainer {
            attached_groups: Vec::new(),
            dma_entries: Vec::new(),
            supported_features,
            generation: 0,
        }
    }

    /// Negotiates an optional IOMMU capability: succeeds exactly when the
    /// platform reported the capability, and is never required for basic
    /// map and unmap.
    pub fn enable_iommu_feature(&self, feature: u32) -> (r: Result<(), VfioError>)
        ensures
            match r {
                Ok(()) => self.supported_features@.contains(feature),
                Err(e) => e == VfioError::Unsupported && !self.supported_features@.contains(
                    feature,
                ),
            },
    {
        let n = self.supported_features.len();
        let mut i: usize = 0;
        while i < n
            invariant
                n == self.supported_features@.len(),
                0 <= i <= n,
                forall|k: int| 0 <= k < i ==> #[trigger] self.supported_features@[k] != feature,
            decreases n - i,
        {
            if self.supported_features[i] == feature {
                return Ok(());
            }
            i = i + 1;
        }
        Err(VfioError::Unsupported)
    }

    /// Attaches `group` to this translation context.
    ///
    /// Fails when the group handle is already attached, when the group is
    /// not viable, or when its identifier is already attached through
    /// another handle; a failed attach changes nothing.
    pub fn attach_group(&mut self, group: &mut VfioGroup) -> (r: Result<(), VfioError>)
        requires
            old(self).wf(),
        ensures
            final(self).wf(),
            group_core_eq(*old(group), *final(group)),
            match r {
                Ok(()) => attach_allowed(*old(self), *old(group)) && attach_applied(*old(self), *final(self), *old(group), *final(group)),
                Err(VfioError::AlreadyAttached) => (old(group).attached || (old(group).viable && old(self).attached_groups@.contains(old(group).id))) && attach_unchanged(*old(self), *final(self), *old(group), *final(group)),
                Err(VfioError::NotViable) => !old(group).attached && !old(group).viable && attach_unchanged(*old(self), *final(self), *old(group), *final(group)),
                Err(_) => false,
            },
    {
        if group.attached {
            return Err(VfioError::AlreadyAttached);
        }
        if !group.viable {
            return Err(VfioError::NotViable);
        }
        if contains_u32(&self.attached_groups, group.id) {
            return Err(VfioError::AlreadyAttached);
        }
        self.attached_groups.push(group.id);
        group.attached = true;
        self.generation = if self.generation == u64::MAX {
            0
        } else {
            self.generation + 1
        };
        Ok(())
    }

    /// Detaches `group` from this translation context.
    ///
    /// Fails when the group is not attached, or while a device opened
    /// through it is still open; a failed detach changes nothing.
    pub fn detach_group(&mut self, group: &mut VfioGroup) -> (r: Result<(), VfioError>)
        requires
            old(self).wf(),
            old(group).attached ==> old(self).attached_groups@.contains(old(group).id),
        ensures
            final(self).wf(),
            group_core_eq(*old(group), *final(group)),
            match r {
                Ok(()) => old(group).attached && old(group).live_devices == 0 && detach_applied(*old(self), *final(self), *old(group), *final(group)),
                Err(VfioError::NotAttached) => !old(group).attached && attach_unchanged(*old(self), *final(self), *old(group), *final(group)),
                Err(VfioError::StillInUse) => old(group).attached && old(group).live_devices > 0 && attach_unchanged(*old(self), *final(self), *old(group), *final(group)),
                Err(_) => false,
            },
    {
        if !group.attached {
            return Err(VfioError::NotAttached);
        }
        if group.live_devices > 0 {
            return Err(VfioError::StillInUse);
        }
        match find_u32(&self.attached_groups, group.id) {
            Some(k) => {
                proof {
                    self.attached_groups@.index_of_first_ensures(group.id);
                    let es = self.attached_groups@.remove(k as int);
                    assert forall|i: int, j: int| 0 <= i < j < es.len() implies (#[trigger] es[i])
                        != #[trigger] es[j] by {
                        let ids = self.attached_groups@;
                        let i0: int = if i < k { i } else { i + 1 };
                        let j0: int = if j < k { j } else { j + 1 };
                        assert(es[i] == ids[i0] && es[j] == ids[j0]);
                    }
                }
                self.attached_groups.remove(k);
                group.attached = false;
                Ok(())
            },
            None => Err(VfioError::NotAttached),
        }
    }

    /// Installs one DMA translation entry.
    ///
    /// Fails with `OutOfRange` when the entry is empty or either of its
    /// ranges wraps past the top of the address space, and with `Overlap`
    /// when its window collides with an active entry; a failed map changes
    /// nothing, and a successful one appends exactly the given entry.
    pub fn map_dma(&mut self, entry: DmaEntry) -> (r: Result<(), VfioError>)
        requires
            old(self).wf(),
        ensures
            final(self).wf(),
            final(self).attached_groups@ == old(self).attached_groups@,
            final(self).supported_features@ == old(self).supported_features@,
            final(self).generation == old(self).generation,
            match r {
                Ok(()) => dma_entry_wf(entry) && (forall|i: int|
                    0 <= i < old(self).dma_entries@.len() ==> !dma_overlap(
                        #[trigger] old(self).dma_entries@[i],
                        entry,
                    )) && final(self).dma_entries@ == old(self).dma_entries@.push(entry),
                Err(VfioError::OutOfRange) => !dma_entry_wf(entry) && final(self).dma_entries@
                    == old(self).dma_entries@,
                Err(VfioError::Overlap) => dma_entry_wf(entry) && (exists|i: int|
                    0 <= i < old(self).dma_entries@.len() && dma_overlap(
                        #[trigger] old(self).dma_entries@[i],
                        entry,
                    )) && final(self).dma_entries@ == old(self).dma_entries@,
                Err(_) => false,
            },
    {
        if !(entry.size > 0 && entry.iova <= u64::MAX - (entry.size - 1) && entry.host <= u64::MAX
            - (entry.size - 1)) {
            return Err(VfioError::OutOfRange);
        }
        let end_incl = entry.iova + (entry.size - 1);
        let n = self.dma_entries.len();
        let mut i: usize = 0;
        while i < n
            invariant
                *self == *old(self),
                old(self).wf(),
                n == self.dma_entries@.len(),
                0 <= i <= n,
                dma_entry_wf(entry),
                end_incl == entry.iova + entry.size - 1,
                forall|k: int| 0 <= k < i ==> !dma_overlap(#[trigger] self.dma_entries@[k], entry),
            decreases n - i,
        {
            let e = self.dma_entries[i];
            let e_end_incl = e.iova + (e.size - 1);
            if entry.iova <= e_end_incl && e.iova <= end_incl {
                return Err(VfioError::Overlap);
            }
            i = i + 1;
        }
        self.dma_entries.push(entry);
        Ok(())
    }

    /// Removes DMA translation entries.
    ///
    /// The window must name active entries exactly: every active entry
    /// must lie wholly inside the window or wholly outside it, and at
    /// least one inside. A window that cuts an entry is rejected with the
    /// kernel's invalid-request diagnostic, a window that holds no entry
    /// with `NotMapped`, and in both cases nothing changes — an entry is
    /// never dropped from the local set on a failed unmap. On success
    /// exactly the entries inside the window are removed.
    pub fn unmap_dma(&mut self, iova: u64, size: u64) -> (r: Result<(), VfioError>)
        requires
            old(self).wf(),
        ensures
            final(self).wf(),
            final(self).attached_groups@ == old(self).attached_groups@,
            final(self).supported_features@ == old(self).supported_features@,
            final(self).generation == old(self).generation,
            match r {
                Ok(()) => window_wf(iova, size) && (forall|i: int|
                    0 <= i < old(self).dma_entries@.len() ==> entry_inside(
                        #[trigger] old(self).dma_entries@[i],
                        iova,
                        size,
                    ) || entry_outside(old(self).dma_entries@[i], iova, size)) && (exists|i: int|
                    0 <= i < old(self).dma_entries@.len() && entry_inside(
                        #[trigger] old(self).dma_entries@[i],
                        iova,
                        size,
                    )) && final(self).dma_entries@ == keep_outside(
                    old(self).dma_entries@,
                    iova,
                    size,
                ),
                Err(VfioError::NotMapped) => window_wf(iova, size) && (forall|i: int|
                    0 <= i < old(self).dma_entries@.len() ==> entry_outside(
                        #[trigger] old(self).dma_entries@[i],
                        iova,
                        size,
                    )) && final(self).dma_entries@ == old(self).dma_entries@,
                Err(VfioError::Kernel(c)) => c == ERRNO_INVALID && (!window_wf(iova, size) || (
                exists|i: int|
                    0 <= i < old(self).dma_entries@.len() && !entry_inside(
                        #[trigger] old(self).dma_entries@[i],
                        iova,
                        size,
                    ) && !entry_outside(old(self).dma_entries@[i], iova, size)))
                    && final(self).dma_entries@ == old(self).dma_entries@,
                Err(_) => false,
            },
    {
        if size == 0 || iova > u64::MAX - (size - 1) {
            return Err(VfioError::Kernel(ERRNO_INVALID));
        }
        let end_incl = iova + (size - 1);
        let n = self.dma_entries.len();
        let mut i: usize = 0;
        let mut any_inside = false;
        while i < n
            invariant
                *self == *old(self),
                old(self).wf(),
                n == self.dma_entries@.len(),
                0 <= i <= n,
                window_wf(iova, size),
                end_incl == iova + size - 1,
                forall|k: int|
                    0 <= k < i ==> entry_inside(#[trigger] self.dma_entries@[k], iova, size)
                        || entry_outside(self.dma_entries@[k], iova, size),
                any_inside <==> exists|k: int|
                    0 <= k < i && entry_inside(#[trigger] self.dma_entries@[k], iova, size),
            decreases n - i,
        {
            let e = self.dma_entries[i];
            let e_end_incl = e.iova + (e.size - 1);
            let intersects = e.iova <= end_incl && iova <= e_end_incl;
            let inside = iova <= e.iova && e_end_incl <= end_incl;
            if intersects && !inside {
                return Err(VfioError::Kernel(ERRNO_INVALID));
            }
            if inside {
                any_inside = true;
            }
            i = i + 1;
        }
        if !any_inside {
            return Err(VfioError::NotMapped);
        }
        let ghost es0 = self.dma_entries@;
        let mut kept: Vec<DmaEntry> = Vec::new();
        let mut j: usize = 0;
        while j < n
            invariant
                *self == *old(self),
                old(self).wf(),
                es0 == self.dma_entries@,
                n == es0.len(),
                0 <= j <= n,
                window_wf(iova, size),
                end_incl == iova + size - 1,
                kept@ == keep_outside(es0.subrange(0, j as int), iova, size),
            decreases n - j,
        {
            let e = self.dma_entries[j];
            let e_end_incl = e.iova + (e.size - 1);
            let inside = iova <= e.iova && e_end_incl <= end_incl;
            proof {
                assert(es0.subrange(0, j as int + 1).drop_last() =~= es0.subrange(0, j as int));
                assert(es0.subrange(0, j as int + 1).last() == es0[j as int]);
            }
            if !inside {
                kept.push(e);
            }
            j = j + 1;
        }
        proof {
            assert(es0.subrange(0, n as int) =~= es0);
            lemma_keep_outside_wf(es0, iova, size);
        }
        self.dma_entries = kept;
        Ok(())
    }

    /// Closes the container's control handle.
    ///
    /// Fails while any group is still attached, so that teardown is always
    /// children-first; on success the translation context and its active
    /// DMA entries are gone.
    pub fn close(&mut self) -> (r: Result<(), VfioError>)
        requires
            old(self).wf(),
        ensures
            final(self).wf(),
            match r {
                Ok(()) => old(self).attached_groups@.len() == 0 && final(self).attached_groups@.len() == 0 && final(self).dma_entries@.len() == 0 && final(self).supported_features@ == old(self).supported_features@ && final(self).generation == old(self).generation,
                Err(e) => e == VfioError::StillInUse && old(self).attached_groups@.len() > 0 && container_state_eq(*old(self), *final(self)),
            },
    {
        if self.attached_groups.len() > 0 {
            return Err(VfioError::StillInUse);
        }
        self.dma_entries = Vec::new();
        Ok(())
    }
}

/// The index of the first occurrence of `x` in `v`, when there is one.
fn find_u32(v: &Vec<u32>, x: u32) -> (r: Option<usize>)
    ensures
        match r {
            Some(k) => k < v@.len() && v@[k as int] == x && (forall|m: int|
                0 <= m < k ==> #[trigger] v@[m] != x),
            None => !v@.contains(x),
        },
{
    let n = v.len();
    let mut i: usize = 0;
    while i < n
        invariant
            n == v@.len(),
            0 <= i <= n,
            forall|k: int| 0 <= k < i ==> #[trigger] v@[k] != x,
        decreases n - i,
    {
        if v[i] == x {
            return Some(i);
        }
        i = i + 1;
    }
    None
}

/// Whether `v` holds `x`.
fn contains_u32(v: &Vec<u32>, x: u32) -> (r: bool)
    ensures
        r == v@.contains(x),
{
    let n = v.len();
    let mut i: usize = 0;
    while i < n
        invariant
            n == v@.len(),
            0 <= i <= n,
            forall|k: int| 0 <= k < i ==> #[trigger] v@[k] != x,
        decreases n - i,
    {
        if v[i] == x {
            return true;
        }
        i = i + 1;
    }
    false
}

} // verus!
