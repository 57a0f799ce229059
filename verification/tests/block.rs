use virtio_transport::block::{
    Request, BAD_SLOT, BLOCK_FEATURES, DEVICE_FAILED, POOL_OUT_OF_REACH, QUEUE_OUT_OF_REACH,
};
use virtio_transport::config::{IoError, PhysBuf, SetupError};
use virtio_transport::queue::{BlockFlag, Descriptor, Header, UsedElem};
use virtio_transport::{Block, Driver, InterruptError, InterruptOk, VirtHeader};

const QUEUE: u64 = 0x8000_0000;
const POOL: u64 = 0x9000_0000;

fn device() -> Block {
    Block::new(VirtHeader::new(0x1000_1000, 2, 0xffff_ffff, 128), QUEUE, POOL).unwrap()
}

#[test]
fn bring_up_does_the_handshake() {
    let b = device();
    let h = b.header();
    assert_eq!(h.guest_features, !(1u32 << 5));
    assert_eq!(BLOCK_FEATURES, !(1u32 << 5));
    assert_eq!(h.queue_num, 128);
    assert_eq!(h.guest_page_size, 4096);
    assert_eq!(h.queue_sel, 0);
    assert_eq!(h.queue_pfn, 0x8_0000);
    assert_eq!(h.status, 1 | 2 | 8 | 4);
    assert!(!b.queue().is_pending());
    for slot in 0..128 {
        assert_eq!(b.request(slot), Request::default());
    }
}

#[test]
fn bring_up_fails_when_the_device_refuses_the_features() {
    let mut h = VirtHeader::new(0x1000_1000, 2, 0xffff_ffff, 128);
    h.status_latch = !8;
    assert_eq!(Block::new(h, QUEUE, POOL).err(), Some(SetupError::FeatureFail));
}

#[test]
fn bring_up_fails_when_the_ring_is_too_large_for_the_device() {
    let h = VirtHeader::new(0x1000_1000, 2, 0xffff_ffff, 64);
    assert_eq!(Block::new(h, QUEUE, POOL).err(), Some(SetupError::RingSizeTooSmall));
}

#[test]
fn bring_up_fails_when_the_addresses_are_out_of_reach() {
    let h = VirtHeader::new(0x1000_1000, 2, 0xffff_ffff, 128);
    assert_eq!(
        Block::new(h, 0x1000_0000_0000, POOL).err(),
        Some(SetupError::Info(QUEUE_OUT_OF_REACH))
    );
    assert_eq!(
        Block::new(h, QUEUE, u64::MAX - 4095).err(),
        Some(SetupError::Info(POOL_OUT_OF_REACH))
    );
    assert!(Block::new(h, QUEUE, u64::MAX - 4096).is_ok());
}

#[test]
fn new_request_names_the_sector_of_the_offset() {
    let w = Request::new(0x7000, 1024, true);
    assert_eq!(w.header, Header { blktype: BlockFlag::Out, reserved: 0, sector: 2 });
    assert_eq!(w.data, 0x7000);
    assert_eq!(w.status, 111);
    assert!(w.waiting);
    let r = Request::new(0x7000, 1535, false);
    assert_eq!(r.header, Header { blktype: BlockFlag::In, reserved: 0, sector: 2 });
    assert_eq!(Request::new(0, 511, false).header.sector, 0);
    assert_eq!(Request::new(0, 512, false).header.sector, 1);
}

#[test]
fn write_builds_a_chain_of_header_data_and_status() {
    let mut b = device();
    assert_eq!(b.submit_write(1024, PhysBuf::new(0x7000, 512)), Ok(0));
    let q = b.queue();
    assert_eq!(q.desc()[0], Descriptor { addr: POOL, len: 16, flags: 1, next: 1 });
    assert_eq!(q.desc()[1], Descriptor { addr: 0x7000, len: 512, flags: 1, next: 2 });
    assert_eq!(q.desc()[2], Descriptor { addr: POOL + 24, len: 1, flags: 2, next: 0 });
    assert_eq!(q.avail().idx, 1);
    assert_eq!(q.avail().ring[0], 0);
    assert_eq!(q.desc_idx(), 3);
    assert_eq!(b.header().queue_notify, 0);
    assert_eq!(b.request(0), Request::new(0x7000, 1024, true));
}

#[test]
fn read_lets_the_device_write_the_data() {
    let mut b = device();
    assert_eq!(b.submit_read(0, PhysBuf::new(0x7000, 512)), Ok(0));
    assert_eq!(b.submit_read(512, PhysBuf::new(0x7200, 512)), Ok(3));
    let q = b.queue();
    assert_eq!(q.desc()[1].flags, 3);
    assert_eq!(q.desc()[3], Descriptor { addr: POOL + 3 * 32, len: 16, flags: 1, next: 4 });
    assert_eq!(q.desc()[4], Descriptor { addr: 0x7200, len: 512, flags: 3, next: 5 });
    assert_eq!(q.desc()[5], Descriptor { addr: POOL + 3 * 32 + 24, len: 1, flags: 2, next: 0 });
    assert_eq!(q.avail().ring[1], 3);
    assert_eq!(b.request(3).header.blktype, BlockFlag::In);
    assert_eq!(b.request(3).header.sector, 1);
}

#[test]
fn three_descriptor_chain_completes_and_signals_once() {
    let mut b = device();
    assert_eq!(b.submit_read(0, PhysBuf::new(0x7000, 512)), Ok(0));
    assert!(b.request(0).waiting);
    assert!(!b.queue().is_pending());
    b.device_complete(0, 513, 0);
    assert!(b.queue().is_pending());
    assert_eq!(b.pending(), Ok(InterruptOk::Block));
    assert_eq!(b.handler(), Ok(InterruptOk::Block));
    assert!(!b.request(0).waiting);
    assert!(!b.queue().is_pending());
    assert_eq!(b.complete(0), Ok(()));
    for slot in 1..128 {
        assert!(!b.request(slot).waiting);
    }
    assert_eq!(b.handler(), Err(InterruptError::NoInterrupt));
    assert_eq!(b.pending(), Ok(InterruptOk::Block));
    assert_eq!(b.handler(), Ok(InterruptOk::Block));
    assert!(!b.request(0).waiting);
    assert!(!b.queue().is_pending());
}

#[test]
fn handler_without_an_interrupt_takes_nothing() {
    let mut b = device();
    b.submit_write(0, PhysBuf::new(0x7000, 512)).unwrap();
    b.device_complete(0, 1, 0);
    assert_eq!(b.handler(), Err(InterruptError::NoInterrupt));
    assert!(b.queue().is_pending());
    assert!(b.request(0).waiting);
}

#[test]
fn slot_in_flight_turns_the_next_request_away() {
    let mut b = device();
    for i in 0..42u16 {
        assert_eq!(b.submit_write(0, PhysBuf::new(0x7000, 512)), Ok(3 * i));
    }
    assert_eq!(b.submit_write(0, PhysBuf::new(0x7000, 512)), Ok(126));
    assert_eq!(b.queue().desc_idx(), 1);
    assert_eq!(b.submit_write(0, PhysBuf::new(0x7000, 512)), Ok(1));
    assert_eq!(b.submit_write(0, PhysBuf::new(0x7000, 512)), Ok(4));
    for _ in 0..41 {
        b.submit_write(0, PhysBuf::new(0x7000, 512)).unwrap();
    }
    assert_eq!(b.submit_write(0, PhysBuf::new(0x7000, 512)), Ok(2));
    for _ in 0..41 {
        b.submit_write(0, PhysBuf::new(0x7000, 512)).unwrap();
    }
    assert_eq!(b.queue().desc_idx(), 0);
    assert!(b.request(0).waiting);
    let avail_before = *b.queue().avail();
    let desc_before = *b.queue().desc();
    let header_before = *b.header();
    let request_before = b.request(0);
    assert_eq!(b.submit_write(4096, PhysBuf::new(0xa000, 512)), Err(IoError::RequestError));
    assert_eq!(b.submit_read(4096, PhysBuf::new(0xa000, 512)), Err(IoError::RequestError));
    assert_eq!(b.queue().avail().idx, avail_before.idx);
    assert_eq!(b.queue().avail().ring, avail_before.ring);
    assert_eq!(*b.queue().desc(), desc_before);
    assert_eq!(b.queue().desc_idx(), 0);
    assert_eq!(*b.header(), header_before);
    assert_eq!(b.request(0), request_before);
    b.device_complete(0, 1, 0);
    b.pending().unwrap();
    assert_eq!(b.handler(), Ok(InterruptOk::Block));
    assert_eq!(b.submit_write(4096, PhysBuf::new(0xa000, 512)), Ok(0));
    assert_eq!(b.request(0).header.sector, 8);
}

#[test]
fn status_byte_decides_the_outcome() {
    let mut b = device();
    b.submit_write(0, PhysBuf::new(0x7000, 512)).unwrap();
    b.submit_write(0, PhysBuf::new(0x7000, 512)).unwrap();
    b.device_complete(0, 1, 1);
    b.device_complete(3, 1, 0);
    b.pending().unwrap();
    assert_eq!(b.handler(), Err(InterruptError::NoInterrupt));
    assert!(!b.request(0).waiting);
    assert_eq!(b.complete(0), Err(IoError::Info(DEVICE_FAILED)));
    assert!(b.queue().is_pending());
    assert!(b.request(3).waiting);
    b.pending().unwrap();
    assert_eq!(b.handler(), Ok(InterruptOk::Block));
    assert!(!b.request(3).waiting);
    assert_eq!(b.complete(3), Ok(()));
    assert_eq!(b.complete(128), Err(IoError::Info(BAD_SLOT)));
}

#[test]
fn completion_for_a_slot_outside_the_table_is_an_error() {
    let mut b = device();
    b.device_complete(128, 0, 0);
    b.pending().unwrap();
    assert_eq!(b.handler(), Err(InterruptError::Info(BAD_SLOT)));
    assert!(!b.queue().is_pending());
    assert_eq!(b.queue().used().ring[0], UsedElem { id: 128, len: 0 });
}

#[test]
fn completions_are_signalled_whatever_their_order() {
    let mut b = device();
    for _ in 0..4 {
        b.submit_read(0, PhysBuf::new(0x7000, 512)).unwrap();
    }
    b.device_complete(9, 513, 0);
    b.device_complete(0, 513, 0);
    b.pending().unwrap();
    assert_eq!(b.handler(), Ok(InterruptOk::Block));
    assert!(!b.request(0).waiting);
    assert!(b.request(3).waiting);
    assert!(b.request(6).waiting);
    assert!(!b.request(9).waiting);
}
