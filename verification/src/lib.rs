//! Verified bookkeeping core for VFIO-style userspace device passthrough.
//!
//! The crate models the ownership and address-translation rules that keep
//! direct device assignment safe: a container aggregates isolation groups
//! that share one IOMMU translation context, devices are opened through
//! groups, and every DMA window installed for a device is accounted for so
//! that no two active windows overlap and teardown happens children-first.
//! The host-kernel calls themselves (opening handles, issuing requests) are
//! the embedding application's job; this crate decides what those calls are
//! allowed to do and keeps the local view of kernel state consistent.

use vstd::prelude::*;

pub mod container;
pub mod device;
pub mod dma_mapping;
pub mod errors;
pub mod group;
pub mod record;
pub mod translator;

pub use container::VfioContainer;
pub use device::{VfioDevice, VfioIrq, VfioRegion};
pub use dma_mapping::VfioDmaMapping;
pub use errors::VfioError;
pub use group::VfioGroup;
pub use translator::{get_host_address_range, AddressSpace, GuestRegion};

verus! {

/// The control-interface revision this crate's record layouts and request
/// semantics assume. A host kernel reporting any other revision is an
/// unsupported platform: the embedding application must treat the mismatch
/// as fatal at startup, not as a per-call error.
pub const VFIO_API_VERSION: i32 = 0;

/// Whether the interface revision a host kernel reports is the one this
/// crate was built against.
pub fn api_version_compatible(reported: i32) -> (r: bool)
    ensures
        r == (reported == VFIO_API_VERSION),
{
    reported == VFIO_API_VERSION
}

/// `std::io::Error`, declared so the DMA-update interface below can name it.
/// Values of it are created and inspected only outside this crate.
#[verifier::external_type_specification]
#[verifier::external_body]
pub struct ExIoError(std::io::Error);

/// Interface for triggering DMA mapping updates on behalf of a device that
/// is not fully managed through the usual guest memory registration, such as
/// a virtual IOMMU: the guest edits its translation tables and the holder of
/// an implementation mirrors each edit into the real translation context.
pub trait ExternalDmaMapping: Send + Sync {
    /// Map a memory range.
    fn map(&self, iova: u64, gpa: u64, size: u64) -> Result<(), std::io::Error>;

    /// Unmap a memory range.
    fn unmap(&self, iova: u64, size: u64) -> Result<(), std::io::Error>;
}

} // verus!
