use virtio_transport::config::SetupError;
use virtio_transport::input::{
    EventType, InputABSInfo, BAD_SLOT, BUFFER_OUT_OF_REACH, INPUT_FEATURES, NO_BUFFER,
    QUEUE_OUT_OF_REACH,
};
use virtio_transport::queue::{Descriptor, UsedElem};
use virtio_transport::{Driver, InputDevice, InputEvent, InterruptError, InterruptOk, VirtHeader};

const EVENTS: u64 = 0x8000_0000;
const STATUS: u64 = 0x8000_2000;
const BUFFERS: u64 = 0x9000_0000;

fn device() -> InputDevice {
    InputDevice::new(VirtHeader::new(0x1000_8000, 18, 0xffff_ffff, 128), EVENTS, STATUS, BUFFERS)
        .unwrap()
}

fn key(code: u16, value: u32) -> InputEvent {
    InputEvent { etype: EventType::Key, code, value }
}

#[test]
fn bring_up_posts_every_buffer() {
    let d = device();
    let h = d.header();
    assert_eq!(h.guest_features, !(1u32 << 29));
    assert_eq!(INPUT_FEATURES, !(1u32 << 29));
    assert_eq!(h.queue_num, 128);
    assert_eq!(h.guest_page_size, 4096);
    assert_eq!(h.queue_sel, 1);
    assert_eq!(h.queue_pfn, 0x8_0002);
    assert_eq!(h.status, 1 | 2 | 8 | 4);
    let q = d.event_queue();
    assert_eq!(q.avail().idx, 128);
    assert_eq!(q.desc_idx(), 0);
    for i in 0..128 {
        assert_eq!(q.avail().ring[i] as usize, i);
        assert_eq!(
            q.desc()[i],
            Descriptor { addr: BUFFERS + 8 * i as u64, len: 8, flags: 2, next: 0 }
        );
    }
    assert!(!q.is_pending());
    assert_eq!(d.status_queue().avail().idx, 0);
}

#[test]
fn input_bring_up_errors() {
    let h = VirtHeader::new(0x1000_8000, 18, 0xffff_ffff, 128);
    assert_eq!(
        InputDevice::new(h, 1 << 44, STATUS, BUFFERS).err(),
        Some(SetupError::Info(QUEUE_OUT_OF_REACH))
    );
    assert_eq!(
        InputDevice::new(h, EVENTS, 1 << 44, BUFFERS).err(),
        Some(SetupError::Info(QUEUE_OUT_OF_REACH))
    );
    assert_eq!(
        InputDevice::new(h, EVENTS, STATUS, u64::MAX - 1023).err(),
        Some(SetupError::Info(BUFFER_OUT_OF_REACH))
    );
    let mut refusing = h;
    refusing.status_latch = 0xffff_fff7;
    assert_eq!(
        InputDevice::new(refusing, EVENTS, STATUS, BUFFERS).err(),
        Some(SetupError::FeatureFail)
    );
    let small = VirtHeader::new(0x1000_8000, 18, 0xffff_ffff, 127);
    assert_eq!(
        InputDevice::new(small, EVENTS, STATUS, BUFFERS).err(),
        Some(SetupError::RingSizeTooSmall)
    );
}

#[test]
fn handler_with_nothing_to_take_answers_null() {
    let mut d = device();
    assert_eq!(d.handler(), Ok(InterruptOk::Null));
}

#[test]
fn handler_hands_out_the_event_and_posts_the_buffer_again() {
    let mut d = device();
    d.device_event(0, key(30, 1));
    assert_eq!(d.handler(), Ok(InterruptOk::Input(key(30, 1))));
    let q = d.event_queue();
    assert!(!q.is_pending());
    assert_eq!(q.avail().idx, 129);
    assert_eq!(q.avail().ring[0], 0);
    assert_eq!(q.desc()[0], Descriptor { addr: BUFFERS, len: 8, flags: 2, next: 0 });
    assert_eq!(q.desc_idx(), 1);
    assert_eq!(d.handler(), Ok(InterruptOk::Null));
}

#[test]
fn handler_passes_over_empty_events() {
    let mut d = device();
    d.device_event(0, InputEvent { etype: EventType::Syn, code: 0, value: 0 });
    d.device_event(1, InputEvent { etype: EventType::Abs, code: 0, value: 0 });
    d.device_event(2, key(30, 0));
    d.device_event(3, key(31, 1));
    assert_eq!(d.handler(), Ok(InterruptOk::Input(key(30, 0))));
    assert!(d.event_queue().is_pending());
    assert_eq!(d.event_queue().avail().idx, 131);
    assert_eq!(d.handler(), Ok(InterruptOk::Input(key(31, 1))));
    assert!(!d.event_queue().is_pending());
    assert_eq!(d.handler(), Ok(InterruptOk::Null));
}

#[test]
fn event_with_a_code_alone_says_something() {
    let mut d = device();
    d.device_event(5, key(30, 0));
    assert_eq!(d.handler(), Ok(InterruptOk::Input(key(30, 0))));
    let mut d = device();
    d.device_event(5, key(0, 1));
    assert_eq!(d.handler(), Ok(InterruptOk::Input(key(0, 1))));
}

#[test]
fn event_outside_the_table_is_an_error() {
    let mut d = device();
    d.device_event(128, key(1, 1));
    assert_eq!(d.handler(), Err(InterruptError::Info(BAD_SLOT)));
    assert!(!d.event_queue().is_pending());
}

#[test]
fn pending_looks_at_the_status_queue_only_when_no_event_waits() {
    let mut d = device();
    assert_eq!(d.pending(), Err(InterruptError::NoInterrupt));
    d.device_status(UsedElem { id: 0, len: 8 });
    d.device_event(0, key(2, 1));
    assert_eq!(d.pending(), Ok(InterruptOk::Null));
    assert!(d.status_queue().is_pending());
    assert_eq!(d.handler(), Ok(InterruptOk::Input(key(2, 1))));
    assert_eq!(d.pending(), Err(InterruptError::Info(NO_BUFFER)));
    assert!(!d.status_queue().is_pending());
    d.device_status(UsedElem { id: 300, len: 8 });
    assert_eq!(d.pending(), Err(InterruptError::Info(BAD_SLOT)));
    assert_eq!(d.pending(), Err(InterruptError::NoInterrupt));
}

#[test]
fn event_types_have_their_wire_values() {
    let all = [
        (EventType::Syn, 0x00),
        (EventType::Key, 0x01),
        (EventType::Rel, 0x02),
        (EventType::Abs, 0x03),
        (EventType::Msc, 0x04),
        (EventType::Sw, 0x05),
        (EventType::Led, 0x11),
        (EventType::Snd, 0x12),
        (EventType::Rep, 0x14),
        (EventType::Ff, 0x15),
        (EventType::Pwr, 0x16),
        (EventType::FfStatus, 0x17),
        (EventType::Max, 0x1f),
    ];
    for (t, v) in all {
        assert_eq!(t.val16(), v);
        assert_eq!(EventType::from16(v), Some(t));
    }
    assert_eq!(EventType::from16(0x06), None);
    assert_eq!(EventType::from16(0x13), None);
    assert_eq!(EventType::from16(0xffff), None);
}

#[test]
fn axis_range_is_plain_data() {
    let info = InputABSInfo { min: 0, max: 32767, fuzz: 0, flat: 0, res: 1 };
    assert_eq!(info.max, 32767);
}
