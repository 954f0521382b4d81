//! Isolation groups: the unit of device ownership.
//!
//! A group stands for the smallest set of devices the platform can isolate
//! as one unit. A freshly opened group handle records the identifier and
//! the viability the kernel reported; it becomes usable for device access
//! only once attached to a container, and it can be closed only after every
//! device opened through it has been closed.

use vstd::prelude::*;

use crate::container::{
    attach_applied, attach_allowed, attach_unchanged, container_state_eq, detach_applied,
    group_core_eq, VfioContainer,
};
use crate::errors::VfioError;

verus! {

/// One opened isolation-group handle.
pub struct VfioGroup {
    /// The numeric identifier the group was opened by.
    pub id: u32,
    /// Whether every member device is bound to the passthrough driver.
    pub viable: bool,
    /// Whether this handle is attached to a container.
    pub attached: bool,
    /// How many devices opened through this handle are still open.
    pub live_devices: u64,
}

impl VfioGroup {
    /// Records a group handle the application has opened, with the
    /// viability the kernel reported for it.
    pub fn new(id: u32, viable: bool) -> (g: VfioGroup)
        ensures
            g.id == id,
            g.viable == viable,
            !g.attached,
            g.live_devices == 0,
    {
        VfioGroup { id, viable, attached: false, live_devices: 0 }
    }

    /// Reports the group's viability.
    pub fn status(&self) -> (r: bool)
        ensures
            r == self.viable,
    {
        self.viable
    }

    /// Binds this group to `container`; same contract as
    /// [`VfioContainer::attach_group`].
    pub fn attach(&mut self, container: &mut VfioContainer) -> (r: Result<(), VfioError>)
        requires
            old(container).wf(),
        ensures
            final(container).wf(),
            group_core_eq(*old(self), *final(self)),
            match r {
                Ok(()) => attach_allowed(*old(container), *old(self)) && attach_applied(*old(container), *final(container), *old(self), *final(self)),
                Err(VfioError::AlreadyAttached) => (old(self).attached || (old(self).viable && old(container).attached_groups@.contains(old(self).id))) && attach_unchanged(*old(container), *final(container), *old(self), *final(self)),
                Err(VfioError::NotViable) => !old(self).attached && !old(self).viable && attach_unchanged(*old(container), *final(container), *old(self), *final(self)),
                Err(_) => false,
            },
    {
        container.attach_group(self)
    }

    /// Closes this group handle.
    ///
    /// Fails while a device opened through the handle is still open; on
    /// success the group is detached from `container` (when it was
    /// attached) and is no longer usable.
    pub fn close(&mut self, container: &mut VfioContainer) -> (r: Result<(), VfioError>)
        requires
            old(container).wf(),
            old(self).attached ==> old(container).attached_groups@.contains(old(self).id),
        ensures
            final(container).wf(),
            group_core_eq(*old(self), *final(self)),
            match r {
                Ok(()) => old(self).live_devices == 0 && !final(self).attached && (if old(self).attached {
                    detach_applied(*old(container), *final(container), *old(self), *final(self))
                } else {
                    container_state_eq(*old(container), *final(container))
                }),
                Err(e) => e == VfioError::StillInUse && old(self).live_devices > 0 && attach_unchanged(*old(container), *final(container), *old(self), *final(self)),
            },
    {
        if self.live_devices > 0 {
            return Err(VfioError::StillInUse);
        }
        if self.attached {
            container.detach_group(self)
        } else {
            Ok(())
        }
    }
}

} // verus!
