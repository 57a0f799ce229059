use virtio_transport::config::{page_frame, PhysBuf, PAGE_SIZE};
use virtio_transport::{DeviceType, Pixel};

#[test]
fn named_colours() {
    assert_eq!(Pixel::new(1, 2, 3, 4), Pixel { r: 1, g: 2, b: 3, a: 4 });
    assert_eq!(Pixel::red(), Pixel { r: 255, g: 0, b: 0, a: 255 });
    assert_eq!(Pixel::green(), Pixel { r: 0, g: 255, b: 0, a: 255 });
    assert_eq!(Pixel::blue(), Pixel { r: 0, g: 0, b: 255, a: 255 });
    assert_eq!(Pixel::yellow(), Pixel { r: 255, g: 255, b: 0, a: 255 });
    assert_eq!(Pixel::grey(), Pixel { r: 55, g: 55, b: 55, a: 255 });
    assert_eq!(Pixel::white(), Pixel { r: 255, g: 255, b: 255, a: 255 });
    assert_eq!(Pixel::black(), Pixel { r: 0, g: 0, b: 0, a: 255 });
    assert_eq!(Pixel::shallow_grey(), Pixel { r: 122, g: 122, b: 122, a: 255 });
}

#[test]
fn device_kinds_by_id() {
    assert_eq!(DeviceType::from(1), DeviceType::Network);
    assert_eq!(DeviceType::from(2), DeviceType::Block);
    assert_eq!(DeviceType::from(16), DeviceType::Gpu);
    assert_eq!(DeviceType::from(18), DeviceType::Input);
    assert_eq!(DeviceType::from(0), DeviceType::Unknown);
    assert_eq!(DeviceType::from(3), DeviceType::Unknown);
    assert_eq!(DeviceType::from(4), DeviceType::Unknown);
    assert_eq!(DeviceType::from(24), DeviceType::Unknown);
    assert_eq!(DeviceType::from(usize::MAX), DeviceType::Unknown);
}

#[test]
fn page_frames() {
    assert_eq!(PAGE_SIZE, 4096);
    assert_eq!(page_frame(0), Some(0));
    assert_eq!(page_frame(4095), Some(0));
    assert_eq!(page_frame(4096), Some(1));
    assert_eq!(page_frame(0x8000_0000), Some(0x8_0000));
    assert_eq!(page_frame(0xffff_ffff_fff), Some(0xffff_ffff));
    assert_eq!(page_frame(0x1000_0000_0000), None);
    assert_eq!(page_frame(u64::MAX), None);
}

#[test]
fn buffer_handle_keeps_address_and_length() {
    assert_eq!(PhysBuf::new(0x7000, 512), PhysBuf { addr: 0x7000, len: 512 });
}
