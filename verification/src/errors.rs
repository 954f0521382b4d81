//! The closed set of failure values surfaced by this crate.

use vstd::prelude::*;

verus! {

/// Diagnostic code a host kernel reports for an invalid request.
pub const ERRNO_INVALID: i32 = 22;

/// Diagnostic code for an operation attempted without privilege.
pub const ERRNO_NOT_PERMITTED: i32 = 1;

/// Diagnostic code for a file access denied by permissions.
pub const ERRNO_ACCESS_DENIED: i32 = 13;

/// Diagnostic code for a path that names no resource.
pub const ERRNO_NO_ENTRY: i32 = 2;

/// Diagnostic code for a missing device node.
pub const ERRNO_NO_DEVICE: i32 = 19;

/// Every failure this crate can surface, as a distinct inspectable value.
///
/// Raw kernel diagnostics are carried only as the payload of `Kernel`;
/// everything else is classified before it reaches a caller.
#[derive(Clone, Copy, Debug, PartialEq, Eq, Structural)]
pub enum VfioError {
    /// Insufficient privilege to open a control, group or device handle.
    PermissionDenied,
    /// A group identifier or device name unknown to the host.
    NoSuchResource,
    /// A group with a member device not yet released to the passthrough driver.
    NotViable,
    /// A container/group binding that already exists was requested again.
    AlreadyAttached,
    /// An operation that needs an attached group found none.
    NotAttached,
    /// A DMA window that collides with an active one.
    Overlap,
    /// An unmap request whose window holds no active DMA entry.
    NotMapped,
    /// An address, size or index outside addressable or backed bounds.
    OutOfRange,
    /// An interrupt-set request beyond what the platform record can carry.
    TooManyHandles,
    /// An optional capability not present on this platform.
    Unsupported,
    /// A parent handle close attempted while a child handle is live.
    StillInUse,
    /// A not-otherwise-classified failure, with the kernel's diagnostic code.
    Kernel(i32),
}

impl VfioError {
    /// Classifies the diagnostic code a failed handle-open reports.
    pub fn from_open_code(code: i32) -> (r: VfioError)
        ensures
            r == VfioError::spec_from_open_code(code),
    {
        if code == ERRNO_NOT_PERMITTED || code == ERRNO_ACCESS_DENIED {
            VfioError::PermissionDenied
        } else if code == ERRNO_NO_ENTRY || code == ERRNO_NO_DEVICE {
            VfioError::NoSuchResource
        } else {
            VfioError::Kernel(code)
        }
    }

    /// What `from_open_code` yields for each diagnostic code.
    pub open spec fn spec_from_open_code(code: i32) -> VfioError {
        if code == ERRNO_NOT_PERMITTED || code == ERRNO_ACCESS_DENIED {
            VfioError::PermissionDenied
        } else if code == ERRNO_NO_ENTRY || code == ERRNO_NO_DEVICE {
            VfioError::NoSuchResource
        } else {
            VfioError::Kernel(code)
        }
    }
}

} // verus!
