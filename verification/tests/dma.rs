use vfio::container::DmaEntry;
use vfio::errors::ERRNO_INVALID;
use vfio::{AddressSpace, GuestRegion, VfioContainer, VfioDmaMapping, VfioError};

fn entry(iova: u64, size: u64, host: u64) -> DmaEntry {
    DmaEntry { iova, size, host, readable: true, writable: true }
}

fn two_region_space() -> AddressSpace {
    let regions = vec![
        GuestRegion { start: 0x0, size: 0x400, host_base: 0x10_0000 },
        GuestRegion { start: 0x1000, size: 0x400, host_base: 0x20_0000 },
    ];
    AddressSpace::from_ranges(regions).unwrap()
}

#[test]
fn map_dma_rejects_overlap() {
    let mut container = VfioContainer::new(Vec::new());
    assert_eq!(container.map_dma(entry(0x1000, 0x1000, 0xA0000)), Ok(()));
    assert_eq!(container.map_dma(entry(0x3000, 0x1000, 0xB0000)), Ok(()));
    // Overlaps the first entry's window.
    assert_eq!(container.map_dma(entry(0x1800, 0x1000, 0xC0000)), Err(VfioError::Overlap));
    // Overlaps the second entry's window from below.
    assert_eq!(container.map_dma(entry(0x2FFF, 0x2, 0xC0000)), Err(VfioError::Overlap));
    assert_eq!(container.dma_entries.len(), 2);
}

#[test]
fn map_dma_rejects_empty_and_wrapping_entries() {
    let mut container = VfioContainer::new(Vec::new());
    assert_eq!(container.map_dma(entry(0x1000, 0, 0xA0000)), Err(VfioError::OutOfRange));
    assert_eq!(
        container.map_dma(entry(u64::MAX - 0xFF, 0x200, 0xA0000)),
        Err(VfioError::OutOfRange)
    );
    assert_eq!(container.dma_entries.len(), 0);
}

#[test]
fn unmap_dma_exact_match() {
    let mut container = VfioContainer::new(Vec::new());
    assert_eq!(container.map_dma(entry(0x1000, 0x1000, 0xA0000)), Ok(()));
    assert_eq!(container.unmap_dma(0x1000, 0x1000), Ok(()));
    assert_eq!(container.dma_entries.len(), 0);
    // The window no longer names anything.
    assert_eq!(container.unmap_dma(0x1000, 0x1000), Err(VfioError::NotMapped));
}

#[test]
fn unmap_dma_never_mapped_iova() {
    let mut container = VfioContainer::new(Vec::new());
    assert_eq!(container.map_dma(entry(0x1000, 0x1000, 0xA0000)), Ok(()));
    assert_eq!(container.unmap_dma(0x9000, 0x1000), Err(VfioError::NotMapped));
    assert_eq!(container.dma_entries.len(), 1);
}

#[test]
fn unmap_dma_superset_removes_all_inside() {
    let mut container = VfioContainer::new(Vec::new());
    assert_eq!(container.map_dma(entry(0x1000, 0x1000, 0xA0000)), Ok(()));
    assert_eq!(container.map_dma(entry(0x2000, 0x1000, 0xB0000)), Ok(()));
    assert_eq!(container.map_dma(entry(0x8000, 0x1000, 0xC0000)), Ok(()));
    // One window spanning exactly the first two entries.
    assert_eq!(container.unmap_dma(0x1000, 0x2000), Ok(()));
    assert_eq!(container.dma_entries, vec![entry(0x8000, 0x1000, 0xC0000)]);
}

#[test]
fn unmap_dma_partial_overlap_is_kernel_error() {
    let mut container = VfioContainer::new(Vec::new());
    assert_eq!(container.map_dma(entry(0x1000, 0x1000, 0xA0000)), Ok(()));
    // The window cuts the entry in half.
    assert_eq!(container.unmap_dma(0x1000, 0x800), Err(VfioError::Kernel(ERRNO_INVALID)));
    // The entry stays until the kernel would confirm removal.
    assert_eq!(container.dma_entries.len(), 1);
    // An empty window is rejected the same way.
    assert_eq!(container.unmap_dma(0x1000, 0), Err(VfioError::Kernel(ERRNO_INVALID)));
}

#[test]
fn bridge_map_resolves_through_translator() {
    let bridge_mem = two_region_space();
    let container = VfioContainer::new(Vec::new());
    let mut bridge = VfioDmaMapping::new(container, bridge_mem);

    assert_eq!(bridge.map(0x5000, 0x1100, 0x100), Ok(()));
    assert_eq!(bridge.container.dma_entries, vec![entry(0x5000, 0x100, 0x20_0100)]);

    // Unresolved guest address: rejected before the translation context.
    assert_eq!(bridge.map(0x9000, 0x600, 0x100), Err(VfioError::OutOfRange));
    // Straddles past the first region's bound: also rejected.
    assert_eq!(bridge.map(0x7000, 0x0, 0x500), Err(VfioError::OutOfRange));
    assert_eq!(bridge.container.dma_entries.len(), 1);
}

#[test]
fn bridge_map_rejects_overlapping_iova() {
    let bridge_mem = two_region_space();
    let container = VfioContainer::new(Vec::new());
    let mut bridge = VfioDmaMapping::new(container, bridge_mem);
    assert_eq!(bridge.map(0x5000, 0x1000, 0x100), Ok(()));
    assert_eq!(bridge.map(0x5080, 0x0, 0x100), Err(VfioError::Overlap));
    assert_eq!(bridge.container.dma_entries.len(), 1);
}

#[test]
fn bridge_unmap_forwards_to_container() {
    let bridge_mem = two_region_space();
    let container = VfioContainer::new(Vec::new());
    let mut bridge = VfioDmaMapping::new(container, bridge_mem);
    assert_eq!(bridge.map(0x5000, 0x1000, 0x100), Ok(()));
    assert_eq!(bridge.unmap(0x5000, 0x100), Ok(()));
    assert_eq!(bridge.container.dma_entries.len(), 0);
    assert_eq!(bridge.unmap(0x5000, 0x100), Err(VfioError::NotMapped));
}

#[test]
fn open_code_classification() {
    assert_eq!(VfioError::from_open_code(1), VfioError::PermissionDenied);
    assert_eq!(VfioError::from_open_code(13), VfioError::PermissionDenied);
    assert_eq!(VfioError::from_open_code(2), VfioError::NoSuchResource);
    assert_eq!(VfioError::from_open_code(19), VfioError::NoSuchResource);
    assert_eq!(VfioError::from_open_code(5), VfioError::Kernel(5));
}

#[test]
fn map_dma_window_ending_at_address_space_top() {
    let mut container = VfioContainer::new(Vec::new());
    // The window's end is exactly the top of the 64-bit space.
    assert_eq!(container.map_dma(entry(u64::MAX - 0xFF, 0x100, 0xA0000)), Ok(()));
    assert_eq!(container.unmap_dma(u64::MAX - 0xFF, 0x100), Ok(()));
    assert_eq!(container.dma_entries.len(), 0);
}

#[test]
fn unmap_dma_superset_with_slack() {
    let mut container = VfioContainer::new(Vec::new());
    assert_eq!(container.map_dma(entry(0x1000, 0x100, 0xA0000)), Ok(()));
    // A window with slack on both sides of the only entry still removes it.
    assert_eq!(container.unmap_dma(0x800, 0x1000), Ok(()));
    assert_eq!(container.dma_entries.len(), 0);
}

#[test]
fn bridge_map_rejects_empty_range() {
    let bridge_mem = two_region_space();
    let container = VfioContainer::new(Vec::new());
    let mut bridge = VfioDmaMapping::new(container, bridge_mem);
    // The guest address resolves, but an empty window installs nothing.
    assert_eq!(bridge.map(0x5000, 0x1000, 0), Err(VfioError::OutOfRange));
    assert_eq!(bridge.container.dma_entries.len(), 0);
}
