use panthor::error::Error;
use panthor::iomem::IoMem;
use panthor::pci::{Bar, BarSetup, BarStep, DeviceId, RawDeviceId, PCI_ANY_ID};

#[test]
fn errno_values() {
    assert_eq!(Error::InvalidArgument.to_errno(), -22);
    assert_eq!(Error::OutOfMemory.to_errno(), -12);
}

#[test]
fn iomem_refuses_null_and_empty_windows() {
    assert!(matches!(IoMem::new(0, 16), Err(Error::InvalidArgument)));
    assert!(matches!(IoMem::new(0x1000, 0), Err(Error::InvalidArgument)));
    assert!(matches!(IoMem::new(0, 0), Err(Error::InvalidArgument)));
    let mem = IoMem::new(0x1000, 16).unwrap();
    assert_eq!(mem.ioptr, 0x1000);
    assert_eq!(mem.ioptr(), 0x1000);
    assert_eq!(mem.maxlen(), 16);
}

#[test]
fn iomem_checks_accesses_against_the_window() {
    let mem = IoMem::new(0x4000, 0x20).unwrap();
    assert_eq!(mem.get_io_addr(0, 1), Ok(0x4000));
    assert_eq!(mem.get_io_addr(0x1c, 4), Ok(0x401c));
    assert_eq!(mem.get_io_addr(0x18, 8), Ok(0x4018));
    assert_eq!(mem.get_io_addr(0x20, 0), Ok(0x4020));
    assert_eq!(mem.get_io_addr(0x1d, 4), Err(Error::InvalidArgument));
    assert_eq!(mem.get_io_addr(0x20, 1), Err(Error::InvalidArgument));
    assert_eq!(mem.get_io_addr(0x1000, 8), Err(Error::InvalidArgument));
}

#[test]
fn device_id_of_a_device() {
    let id = DeviceId::new(0x13b5, 0x0042);
    assert_eq!(
        id,
        DeviceId {
            vendor: 0x13b5,
            device: 0x0042,
            subvendor: PCI_ANY_ID,
            subdevice: PCI_ANY_ID,
            class: 0,
            class_mask: 0,
        }
    );
    assert_eq!(PCI_ANY_ID, !0u32);
}

#[test]
fn device_id_of_a_class() {
    let id = DeviceId::with_class(0x010802, 0xffffff);
    assert_eq!(
        id,
        DeviceId {
            vendor: PCI_ANY_ID,
            device: PCI_ANY_ID,
            subvendor: PCI_ANY_ID,
            subdevice: PCI_ANY_ID,
            class: 0x010802,
            class_mask: 0xffffff,
        }
    );
}

#[test]
fn raw_device_id_carries_the_offset() {
    let id = DeviceId::new(1, 2);
    let raw = id.to_rawid(0x40);
    assert_eq!(
        raw,
        RawDeviceId {
            vendor: 1,
            device: 2,
            subvendor: PCI_ANY_ID,
            subdevice: PCI_ANY_ID,
            class: 0,
            class_mask: 0,
            driver_data: 0x40,
            override_only: 0,
        }
    );
    let back = DeviceId::with_class(3, 4).to_rawid(-8);
    assert_eq!(back.driver_data, usize::MAX - 7);
    assert_eq!(back.driver_data as isize, -8);
    assert_eq!(back.class, 3);
    assert_eq!(back.class_mask, 4);
}

#[test]
fn raw_device_id_zero_ends_a_table() {
    let zero = RawDeviceId::zero();
    assert_eq!(
        zero,
        RawDeviceId {
            vendor: 0,
            device: 0,
            subvendor: 0,
            subdevice: 0,
            class: 0,
            class_mask: 0,
            driver_data: 0,
            override_only: 0,
        }
    );
}

#[test]
fn errno_of_busy() {
    assert_eq!(Error::Busy.to_errno(), -16);
}

#[test]
fn bar_index_is_checked_against_the_number_of_resources() {
    assert!(Bar::index_is_valid(0, 17));
    assert!(Bar::index_is_valid(16, 17));
    assert!(!Bar::index_is_valid(17, 17));
    assert!(!Bar::index_is_valid(255, 17));
    assert!(!Bar::index_is_valid(0, 0));
    assert!(Bar::index_is_valid(255, 256));
}

#[test]
fn bar_setup_runs_through_to_a_mapped_bar() {
    let mut setup = BarSetup::new(2, 17);
    assert_eq!(
        setup,
        BarSetup { num: 2, num_resources: 17, len: None, requested: None, ioptr: None }
    );
    assert!(matches!(setup.next(), BarStep::QueryLength));
    setup.len = Some(0x4000);
    assert!(matches!(setup.next(), BarStep::RequestRegion));
    setup.requested = Some(0);
    assert!(matches!(setup.next(), BarStep::Iomap));
    setup.ioptr = Some(0xffff_0000);
    match setup.next() {
        BarStep::Done(bar) => {
            assert_eq!(bar.num(), 2);
            assert_eq!(bar.iomem().ioptr, 0xffff_0000);
            assert_eq!(bar.iomem().maxlen(), 0x4000);
            assert_eq!(bar.iomem().get_io_addr(0x3ffc, 4), Ok(0xffff_3ffc));
            assert_eq!(bar.iomem().get_io_addr(0x3ffd, 4), Err(Error::InvalidArgument));
        }
        _ => panic!("the BAR should be set up"),
    }
}

#[test]
fn bar_setup_refuses_an_invalid_index() {
    let setup = BarSetup::new(17, 17);
    assert!(matches!(setup.next(), BarStep::Fail(Error::InvalidArgument)));
}

#[test]
fn bar_setup_refuses_an_empty_resource() {
    let mut setup = BarSetup::new(0, 17);
    setup.len = Some(0);
    assert!(matches!(setup.next(), BarStep::Fail(Error::OutOfMemory)));
}

#[test]
fn bar_setup_reports_a_busy_region() {
    let mut setup = BarSetup::new(0, 17);
    setup.len = Some(64);
    setup.requested = Some(-16);
    assert!(matches!(setup.next(), BarStep::Fail(Error::Busy)));
    setup.requested = Some(1);
    assert!(matches!(setup.next(), BarStep::Fail(Error::Busy)));
}

#[test]
fn bar_setup_releases_the_region_where_mapping_fails() {
    let mut setup = BarSetup::new(5, 17);
    setup.len = Some(64);
    setup.requested = Some(0);
    setup.ioptr = Some(0);
    assert!(matches!(setup.next(), BarStep::ReleaseRegion(Error::OutOfMemory)));
}
