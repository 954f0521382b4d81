//! Devices: the region and interrupt surface opened through a group.
//!
//! A device handle carries the region and interrupt descriptors the kernel
//! enumerated at open time; both are fixed by the hardware and never change
//! afterwards. Only the enablement state of each interrupt index is
//! mutable. The owning group counts its open devices so that it cannot be
//! closed out from under one.

use vstd::prelude::*;

use crate::errors::VfioError;
use crate::group::VfioGroup;
use crate::record::{build_record, RecordHeader, MAX_RECORD_ENTRIES};

verus! {

/// One memory region a device exposes: its size, the kernel-assigned
/// offset used to memory-map it, and whether mapping it is allowed.
#[derive(Clone, Copy, Debug, PartialEq, Eq, Structural)]
pub struct VfioRegion {
    /// Length of the region in bytes.
    pub size: u64,
    /// Kernel-assigned offset a memory-mapping primitive uses.
    pub offset: u64,
    /// Whether the region may be memory-mapped.
    pub mappable: bool,
}

/// One interrupt index a device exposes and its number of sub-lines.
#[derive(Clone, Copy, Debug, PartialEq, Eq, Structural)]
pub struct VfioIrq {
    /// The interrupt index, equal to the descriptor's position.
    pub index: u32,
    /// How many sub-lines the index carries.
    pub count: u32,
    /// Capability bits the kernel reported for the index.
    pub flags: u32,
}

/// Flag bit of an interrupt-set record: the trailing elements are
/// event-notification handles.
pub const IRQ_SET_DATA_EVENTFD: u32 = 4;

/// Flag bit of an interrupt-set record: associate the handles so that
/// hardware interrupts trigger them.
pub const IRQ_SET_ACTION_TRIGGER: u32 = 32;

/// One opened device handle and its enumerated surface.
pub struct VfioDevice {
    /// Identifier of the group the device was opened through.
    pub group_id: u32,
    /// The memory regions, fixed at open.
    pub regions: Vec<VfioRegion>,
    /// The interrupt descriptors, fixed at open, one per index.
    pub irqs: Vec<VfioIrq>,
    /// Current enablement of each interrupt index.
    pub irq_enabled: Vec<bool>,
    /// Whether the device supports a hardware reset.
    pub reset_supported: bool,
}

impl VfioDevice {
    /// Enablement state exists for exactly the enumerated interrupt
    /// indices, and each descriptor sits at the index it names.
    pub open spec fn wf(self) -> bool {
        &&& self.irq_enabled@.len() == self.irqs@.len()
        &&& forall|i: int| 0 <= i < self.irqs@.len() ==> (#[trigger] self.irqs@[i]).index == i
    }

    /// The descriptors, reset capability and group identifier are the same
    /// in both device values.
    pub open spec fn surface_eq(a: VfioDevice, b: VfioDevice) -> bool {
        &&& a.group_id == b.group_id
        &&& a.regions@ == b.regions@
        &&& a.irqs@ == b.irqs@
        &&& a.reset_supported == b.reset_supported
    }

    /// Records a device the application has opened through `group`, with
    /// the region and interrupt descriptors and the reset capability the
    /// kernel enumerated. Fails when the group is not attached to a
    /// container, since an unattached group has no translation context for
    /// the device to inherit; on success the group gains one live device.
    pub fn new(
        group: &mut VfioGroup,
        regions: Vec<VfioRegion>,
        irqs: Vec<VfioIrq>,
        reset_supported: bool,
    ) -> (r: Result<VfioDevice, VfioError>)
        requires
            old(group).live_devices < u64::MAX,
            forall|i: int| 0 <= i < irqs@.len() ==> (#[trigger] irqs@[i]).index == i,
        ensures
            final(group).id == old(group).id,
            final(group).viable == old(group).viable,
            final(group).attached == old(group).attached,
            match r {
                Ok(d) => old(group).attached && d.wf() && d.group_id == old(group).id && d.regions@
                    == regions@ && d.irqs@ == irqs@ && d.reset_supported == reset_supported && (
                forall|i: int| 0 <= i < d.irq_enabled@.len() ==> !(#[trigger] d.irq_enabled@[i]))
                    && final(group).live_devices == old(group).live_devices + 1,
                Err(e) => e == VfioError::NotAttached && !old(group).attached && final(group).live_devices == old(group).live_devices,
            },
    {
        if !group.attached {
            return Err(VfioError::NotAttached);
        }
        let n = irqs.len();
        let mut irq_enabled: Vec<bool> = Vec::new();
        let mut i: usize = 0;
        while i < n
            invariant
                0 <= i <= n,
                irq_enabled@.len() == i,
                forall|k: int| 0 <= k < i ==> !(#[trigger] irq_enabled@[k]),
            decreases n - i,
        {
            irq_enabled.push(false);
            i = i + 1;
        }
        let device = VfioDevice { group_id: group.id, regions, irqs, irq_enabled, reset_supported };
        group.live_devices = group.live_devices + 1;
        Ok(device)
    }

    /// How many memory regions the device exposes.
    pub fn region_count(&self) -> (r: usize)
        ensures
            r == self.regions@.len(),
    {
        self.regions.len()
    }

    /// The descriptor of one memory region; an index past the enumerated
    /// regions is rejected.
    pub fn region(&self, index: usize) -> (r: Result<VfioRegion, VfioError>)
        ensures
            match r {
                Ok(reg) => index < self.regions@.len() && reg == self.regions@[index as int],
                Err(e) => e == VfioError::OutOfRange && index >= self.regions@.len(),
            },
    {
        if index < self.regions.len() {
            Ok(self.regions[index])
        } else {
            Err(VfioError::OutOfRange)
        }
    }

    /// How many interrupt indices the device exposes.
    pub fn interrupt_count(&self) -> (r: usize)
        ensures
            r == self.irqs@.len(),
    {
        self.irqs.len()
    }

    /// Associates event-notification handles with one interrupt index, so
    /// that hardware interrupts on it become observable as events.
    ///
    /// The request is carried by a capability record holding one handle
    /// per sub-line; it is rejected when the index names no interrupt,
    /// or when the handles outnumber the index's sub-lines or overflow
    /// what a record can declare. On success exactly that index is
    /// enabled.
    pub fn set_interrupt(&mut self, index: u32, fds: &Vec<i32>) -> (r: Result<(), VfioError>)
        requires
            old(self).wf(),
        ensures
            final(self).wf(),
            VfioDevice::surface_eq(*old(self), *final(self)),
            match r {
                Ok(()) => index < old(self).irqs@.len() && fds@.len() <= old(self).irqs@[index as int].count && fds@.len() <= MAX_RECORD_ENTRIES && final(self).irq_enabled@ == old(self).irq_enabled@.update(index as int, true),
                Err(VfioError::NoSuchResource) => index >= old(self).irqs@.len() && final(self).irq_enabled@ == old(self).irq_enabled@,
                Err(VfioError::TooManyHandles) => index < old(self).irqs@.len() && (fds@.len()
                    > old(self).irqs@[index as int].count || fds@.len() > MAX_RECORD_ENTRIES)
                    && final(self).irq_enabled@ == old(self).irq_enabled@,
                Err(_) => false,
            },
    {
        if index as usize >= self.irqs.len() {
            return Err(VfioError::NoSuchResource);
        }
        let irq = self.irqs[index as usize];
        if fds.len() > irq.count as usize {
            return Err(VfioError::TooManyHandles);
        }
        let n = fds.len();
        let mut entries: Vec<u32> = Vec::new();
        let mut i: usize = 0;
        while i < n
            invariant
                n == fds@.len(),
                0 <= i <= n,
                entries@.len() == i,
            decreases n - i,
        {
            let fd = fds[i];
            entries.push(#[verifier::truncate] (fd as u32));
            i = i + 1;
        }
        let header = RecordHeader { flags: IRQ_SET_DATA_EVENTFD | IRQ_SET_ACTION_TRIGGER, index };
        match build_record(header, entries) {
            Ok(_record) => {
                self.irq_enabled.set(index as usize, true);
                Ok(())
            },
            Err(_) => Err(VfioError::TooManyHandles),
        }
    }

    /// Disables one interrupt index; an index that names no interrupt is
    /// rejected.
    pub fn unset_interrupt(&mut self, index: u32) -> (r: Result<(), VfioError>)
        requires
            old(self).wf(),
        ensures
            final(self).wf(),
            VfioDevice::surface_eq(*old(self), *final(self)),
            match r {
                Ok(()) => index < old(self).irqs@.len() && final(self).irq_enabled@ == old(self).irq_enabled@.update(index as int, false),
                Err(e) => e == VfioError::NoSuchResource && index >= old(self).irqs@.len()
                    && final(self).irq_enabled@ == old(self).irq_enabled@,
            },
    {
        if index as usize >= self.irqs.len() {
            return Err(VfioError::NoSuchResource);
        }
        self.irq_enabled.set(index as usize, false);
        Ok(())
    }

    /// Requests a best-effort hardware reset; succeeds exactly when the
    /// device reported the capability.
    pub fn reset(&self) -> (r: Result<(), VfioError>)
        ensures
            match r {
                Ok(()) => self.reset_supported,
                Err(e) => e == VfioError::Unsupported && !self.reset_supported,
            },
    {
        if self.reset_supported {
            Ok(())
        } else {
            Err(VfioError::Unsupported)
        }
    }

    /// Closes the device handle: the owning group loses one live device.
    pub fn close(self, group: &mut VfioGroup)
        requires
            self.group_id == old(group).id,
            old(group).live_devices >= 1,
        ensures
            final(group).id == old(group).id,
            final(group).viable == old(group).viable,
            final(group).attached == old(group).attached,
            final(group).live_devices == old(group).live_devices - 1,
    {
        group.live_devices = group.live_devices - 1;
    }
}

} // verus!
