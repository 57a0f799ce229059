use virtio_transport::config::SetupError;
use virtio_transport::header::{StatusField, VirtHeader, MAGIC_VALUE};

#[test]
fn fresh_register_block_is_reset() {
    let h = VirtHeader::new(0x1000_1000, 2, 0xff, 128);
    assert_eq!(h.magicvalue, MAGIC_VALUE);
    assert_eq!(h.version, 1);
    assert_eq!(h.deviceid, 2);
    assert_eq!(h.host_features, 0xff);
    assert_eq!(h.queue_num_max, 128);
    assert_eq!(h.status, 0);
    assert_eq!(h.queue_num, 0);
    assert_eq!(h.status_latch, 0xffff_ffff);
}

#[test]
fn negotiation_keeps_what_both_sides_have() {
    let mut h = VirtHeader::new(0x1000_1000, 2, 0b1011, 128);
    assert_eq!(h.set_feature(0b0111), Ok(()));
    assert_eq!(h.guest_features, 0b0011);
    assert_eq!(h.status, 1 | 2 | 8);
}

#[test]
fn ring_larger_than_the_device_takes_is_refused() {
    let mut h = VirtHeader::new(0x1000_1000, 2, 0b1011, 128);
    assert_eq!(h.set_feature(0b0111), Ok(()));
    let before = h;
    assert_eq!(h.set_ring_size(256), Err(SetupError::RingSizeTooSmall));
    assert_eq!(h.queue_num, 0);
    assert_eq!(h, before);
}

#[test]
fn ring_as_large_as_the_device_takes_is_committed() {
    let mut h = VirtHeader::new(0x1000_1000, 2, 0, 128);
    assert_eq!(h.set_ring_size(128), Ok(()));
    assert_eq!(h.queue_num, 128);
    assert_eq!(h.set_ring_size(1), Ok(()));
    assert_eq!(h.queue_num, 1);
    assert_eq!(h.set_ring_size(129), Err(SetupError::RingSizeTooSmall));
    assert_eq!(h.queue_num, 1);
}

#[test]
fn device_that_drops_features_ok_fails_the_negotiation() {
    let mut h = VirtHeader::new(0x1000_1000, 2, 0b1011, 128);
    h.status_latch = !StatusField::FeaturesOk.val32();
    assert_eq!(h.set_feature(0b0111), Err(SetupError::FeatureFail));
    assert_eq!(h.status, 1 | 2);
    assert_eq!(h.guest_features, 0b0011);
}

#[test]
fn negotiation_starts_from_a_cleared_status() {
    let mut h = VirtHeader::new(0x1000_1000, 2, 0xffff_ffff, 128);
    h.status = 0x80 | 0x40 | 4;
    assert_eq!(h.set_feature(0xffff_ffff), Ok(()));
    assert_eq!(h.status, 11);
    assert_eq!(h.guest_features, 0xffff_ffff);
}

#[test]
fn configure_ring_commits_all_or_nothing() {
    let mut h = VirtHeader::new(0x1000_1000, 2, 0, 128);
    assert_eq!(h.configure_ring(1, 128, 4096, 0x8_0000), Ok(()));
    assert_eq!(h.queue_sel, 1);
    assert_eq!(h.queue_num, 128);
    assert_eq!(h.guest_page_size, 4096);
    assert_eq!(h.queue_pfn, 0x8_0000);
    let before = h;
    assert_eq!(h.configure_ring(0, 256, 8192, 7), Err(SetupError::RingSizeTooSmall));
    assert_eq!(h, before);
}

#[test]
fn setters_write_their_registers_only() {
    let mut h = VirtHeader::new(0x1000_1000, 2, 0, 128);
    let start = h;
    h.set_pfn(1, 0x1234);
    assert_eq!(h.queue_sel, 1);
    assert_eq!(h.queue_pfn, 0x1234);
    h.set_page_size(4096);
    assert_eq!(h.guest_page_size, 4096);
    h.notify(1);
    assert_eq!(h.queue_notify, 1);
    h.driver_ok();
    assert_eq!(h.status, 4);
    let mut expected = start;
    expected.queue_sel = 1;
    expected.queue_pfn = 0x1234;
    expected.guest_page_size = 4096;
    expected.queue_notify = 1;
    expected.status = 4;
    assert_eq!(h, expected);
}

#[test]
fn driver_ok_joins_the_bits_that_negotiation_set() {
    let mut h = VirtHeader::new(0x1000_1000, 2, 0b1011, 128);
    assert_eq!(h.set_feature(0b0111), Ok(()));
    assert_eq!(h.status, 11);
    let before = h;
    h.driver_ok();
    assert_eq!(h.status, 15);
    let mut expected = before;
    expected.status = 15;
    assert_eq!(h, expected);
    h.driver_ok();
    assert_eq!(h.status, 15);
}

#[test]
fn driver_ok_is_held_as_far_as_the_device_keeps_it() {
    let mut h = VirtHeader::new(0x1000_1000, 2, 0, 128);
    h.status_latch = 0xffff_fffb;
    h.driver_ok();
    assert_eq!(h.status, 0);
    assert_eq!(h.set_feature(0), Ok(()));
    h.driver_ok();
    assert_eq!(h.status, 11);
}

#[test]
fn notify_may_be_called_again_and_again() {
    let mut h = VirtHeader::new(0x1000_1000, 2, 0, 128);
    for i in 0..1000u32 {
        h.notify(i % 2);
        assert_eq!(h.queue_notify, i % 2);
    }
}

#[test]
fn configuration_space_lies_behind_the_registers() {
    let h = VirtHeader::new(0x1000_1000, 1, 0, 128);
    assert_eq!(h.config_address(), 0x1000_1100);
}

#[test]
fn status_bits_have_their_wire_values() {
    assert_eq!(StatusField::Acknowledge.val32(), 1);
    assert_eq!(StatusField::Driver.val32(), 2);
    assert_eq!(StatusField::DriverOk.val32(), 4);
    assert_eq!(StatusField::FeaturesOk.val32(), 8);
    assert_eq!(StatusField::DeviceNeedsReset.val32(), 64);
    assert_eq!(StatusField::Failed.val32(), 128);
}
