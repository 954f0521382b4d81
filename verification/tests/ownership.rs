use vfio::{VfioContainer, VfioDevice, VfioError, VfioGroup, VfioIrq, VfioRegion};

fn sample_regions() -> Vec<VfioRegion> {
    vec![
        VfioRegion { size: 0x1000, offset: 0x0, mappable: true },
        VfioRegion { size: 0x100, offset: 0x1000, mappable: false },
    ]
}

fn sample_irqs() -> Vec<VfioIrq> {
    vec![VfioIrq { index: 0, count: 1, flags: 0 }, VfioIrq { index: 1, count: 2, flags: 0 }]
}

#[test]
fn attach_rejects_non_viable_group() {
    let mut container = VfioContainer::new(Vec::new());
    let mut group = VfioGroup::new(7, false);
    assert!(!group.status());
    assert_eq!(group.attach(&mut container), Err(VfioError::NotViable));
    assert!(!group.attached);
    assert_eq!(container.attached_groups.len(), 0);
}

#[test]
fn attach_twice_rejected() {
    let mut container = VfioContainer::new(Vec::new());
    let mut group = VfioGroup::new(7, true);
    assert!(group.status());
    assert_eq!(group.attach(&mut container), Ok(()));
    assert!(group.attached);
    assert_eq!(container.attached_groups, vec![7]);
    assert_eq!(group.attach(&mut container), Err(VfioError::AlreadyAttached));

    // A second handle for the same identifier is also refused.
    let mut second = VfioGroup::new(7, true);
    assert_eq!(second.attach(&mut container), Err(VfioError::AlreadyAttached));
    assert_eq!(container.attached_groups, vec![7]);
}

#[test]
fn attach_advances_generation() {
    let mut container = VfioContainer::new(Vec::new());
    assert_eq!(container.generation, 0);
    let mut g1 = VfioGroup::new(1, true);
    let mut g2 = VfioGroup::new(2, true);
    assert_eq!(g1.attach(&mut container), Ok(()));
    assert_eq!(g2.attach(&mut container), Ok(()));
    assert_eq!(container.generation, 2);
    assert_eq!(container.attached_groups, vec![1, 2]);
}

#[test]
fn detach_unattached_group_fails() {
    let mut container = VfioContainer::new(Vec::new());
    let mut group = VfioGroup::new(3, true);
    assert_eq!(container.detach_group(&mut group), Err(VfioError::NotAttached));
}

#[test]
fn close_order_is_enforced() {
    let mut container = VfioContainer::new(Vec::new());
    let mut group = VfioGroup::new(1, true);
    assert_eq!(group.attach(&mut container), Ok(()));
    let device = VfioDevice::new(&mut group, sample_regions(), sample_irqs(), true).unwrap();
    assert_eq!(group.live_devices, 1);

    // The group cannot close while the device is open.
    assert_eq!(group.close(&mut container), Err(VfioError::StillInUse));
    // The container cannot close while the group is attached.
    assert_eq!(container.close(), Err(VfioError::StillInUse));

    // Device first, then group, then container.
    device.close(&mut group);
    assert_eq!(group.live_devices, 0);
    assert_eq!(group.close(&mut container), Ok(()));
    assert!(!group.attached);
    assert_eq!(container.attached_groups.len(), 0);
    assert_eq!(container.close(), Ok(()));
}

#[test]
fn device_open_requires_attached_group() {
    let mut group = VfioGroup::new(4, true);
    let r = VfioDevice::new(&mut group, sample_regions(), sample_irqs(), false);
    assert_eq!(r.err(), Some(VfioError::NotAttached));
    assert_eq!(group.live_devices, 0);
}

#[test]
fn device_region_lookup() {
    let mut container = VfioContainer::new(Vec::new());
    let mut group = VfioGroup::new(1, true);
    group.attach(&mut container).unwrap();
    let device = VfioDevice::new(&mut group, sample_regions(), sample_irqs(), false).unwrap();
    assert_eq!(device.region_count(), 2);
    let r0 = device.region(0).unwrap();
    assert_eq!(r0.size, 0x1000);
    assert_eq!(r0.offset, 0x0);
    assert!(r0.mappable);
    let r1 = device.region(1).unwrap();
    assert_eq!(r1.size, 0x100);
    assert!(!r1.mappable);
    assert_eq!(device.region(2), Err(VfioError::OutOfRange));
}

#[test]
fn device_interrupt_set_and_unset() {
    let mut container = VfioContainer::new(Vec::new());
    let mut group = VfioGroup::new(1, true);
    group.attach(&mut container).unwrap();
    let mut device = VfioDevice::new(&mut group, sample_regions(), sample_irqs(), false).unwrap();
    assert_eq!(device.interrupt_count(), 2);
    assert_eq!(device.irq_enabled, vec![false, false]);

    // Index 1 has two sub-lines, so two handles fit.
    assert_eq!(device.set_interrupt(1, &vec![5, 6]), Ok(()));
    assert_eq!(device.irq_enabled, vec![false, true]);

    // Index 0 has one sub-line, so two handles do not.
    assert_eq!(device.set_interrupt(0, &vec![5, 6]), Err(VfioError::TooManyHandles));
    assert_eq!(device.irq_enabled, vec![false, true]);

    // An index past the enumerated interrupts names nothing.
    assert_eq!(device.set_interrupt(9, &vec![5]), Err(VfioError::NoSuchResource));
    assert_eq!(device.unset_interrupt(9), Err(VfioError::NoSuchResource));

    assert_eq!(device.unset_interrupt(1), Ok(()));
    assert_eq!(device.irq_enabled, vec![false, false]);
}

#[test]
fn device_reset_follows_capability() {
    let mut container = VfioContainer::new(Vec::new());
    let mut group = VfioGroup::new(1, true);
    group.attach(&mut container).unwrap();
    let with_reset = VfioDevice::new(&mut group, sample_regions(), sample_irqs(), true).unwrap();
    assert_eq!(with_reset.reset(), Ok(()));
    let without_reset = VfioDevice::new(&mut group, sample_regions(), sample_irqs(), false).unwrap();
    assert_eq!(without_reset.reset(), Err(VfioError::Unsupported));
}

#[test]
fn iommu_feature_negotiation() {
    let container = VfioContainer::new(vec![1, 4]);
    assert_eq!(container.enable_iommu_feature(1), Ok(()));
    assert_eq!(container.enable_iommu_feature(4), Ok(()));
    assert_eq!(container.enable_iommu_feature(2), Err(VfioError::Unsupported));
}
