use virtio_transport::config::{GraphicError, SetupError};
use virtio_transport::gpu::{
    BAD_CHAIN, BAD_SLOT, FRAME_TOO_LARGE, NO_RESPONSE, POOL_OUT_OF_REACH, QUEUE_OUT_OF_REACH,
};
use virtio_transport::gpu_command::{
    to_u32, AttachBacking, ControllHeader, ControllType, Create2D, MemEntry, PixelFormat,
    ResourceFlush, Scanout, TransferToHost2d,
};
use virtio_transport::queue::Descriptor;
use virtio_transport::{Driver, InterruptError, InterruptOk, Pixel, Rect, VirtHeader, GPU};

const QUEUE: u64 = 0x8000_0000;
const FRAME: u64 = 0x8800_0000;
const POOLS: u64 = 0x9000_0000;
const BACKGROUND: Pixel = Pixel { r: 10, g: 10, b: 10, a: 255 };

fn device(width: usize, height: usize) -> GPU {
    GPU::new(VirtHeader::new(0x1000_6000, 16, 0xffff_ffff, 128), width, height, QUEUE, FRAME, POOLS)
        .unwrap()
}

fn rect(x1: u32, y1: u32, x2: u32, y2: u32) -> Rect {
    Rect { x1, y1, x2, y2 }
}

fn numbered(n: usize) -> Vec<Pixel> {
    (0..n).map(|i| Pixel { r: i as u8, g: 1, b: 2, a: 200 }).collect()
}

#[test]
fn bring_up_resets_the_screen() {
    let g = device(4, 3);
    let h = g.header();
    assert_eq!(h.guest_features, 0xffff_ffff);
    assert_eq!(h.queue_num, 128);
    assert_eq!(h.queue_pfn, 0x8_0000);
    assert_eq!(h.status, 1 | 2 | 8 | 4);
    assert_eq!(g.frame().len(), 12);
    assert!(g.frame().iter().all(|p| *p == BACKGROUND));
    let q = g.queue();
    assert_eq!(q.avail().idx, 5);
    assert_eq!(q.desc_idx(), 11);
    let heads: Vec<u16> = q.avail().ring[..5].to_vec();
    assert_eq!(heads, vec![0, 2, 5, 7, 9]);
    assert_eq!(q.desc()[0], Descriptor { addr: POOLS + 19456, len: 40, flags: 1, next: 1 });
    assert_eq!(q.desc()[1], Descriptor { addr: POOLS + 30720, len: 24, flags: 2, next: 0 });
    assert_eq!(q.desc()[2], Descriptor { addr: POOLS + 24576 + 2 * 32, len: 32, flags: 1, next: 3 });
    assert_eq!(q.desc()[3], Descriptor { addr: POOLS + 28672 + 3 * 16, len: 16, flags: 1, next: 4 });
    assert_eq!(q.desc()[4], Descriptor { addr: POOLS + 30720 + 4 * 24, len: 24, flags: 2, next: 0 });
    assert_eq!(q.desc()[5], Descriptor { addr: POOLS + 13312 + 5 * 48, len: 48, flags: 1, next: 6 });
    assert_eq!(q.desc()[7], Descriptor { addr: POOLS + 6144 + 7 * 56, len: 56, flags: 1, next: 8 });
    assert_eq!(q.desc()[9], Descriptor { addr: POOLS + 9 * 48, len: 48, flags: 1, next: 10 });
    assert_eq!(q.desc()[10], Descriptor { addr: POOLS + 30720 + 9 * 24, len: 24, flags: 2, next: 0 });
    assert_eq!(g.response(0).ctype, ControllType::ResourceCreate2d);
    assert_eq!(g.response(4).ctype, ControllType::ResourceAttachBacking);
    assert_eq!(g.response(9).ctype, ControllType::ResourceFlush);
}

#[test]
fn gpu_bring_up_errors() {
    let h = VirtHeader::new(0x1000_6000, 16, 0xffff_ffff, 128);
    assert_eq!(
        GPU::new(h, 4, 4, 1 << 44, FRAME, POOLS).err(),
        Some(SetupError::Info(QUEUE_OUT_OF_REACH))
    );
    assert_eq!(
        GPU::new(h, 4, 4, QUEUE, FRAME, u64::MAX - 33791).err(),
        Some(SetupError::Info(POOL_OUT_OF_REACH))
    );
    assert_eq!(
        GPU::new(h, 1 << 15, 1 << 15, QUEUE, FRAME, POOLS).err(),
        Some(SetupError::Info(FRAME_TOO_LARGE))
    );
    let mut refusing = h;
    refusing.status_latch = 7;
    assert_eq!(GPU::new(refusing, 4, 4, QUEUE, FRAME, POOLS).err(), Some(SetupError::FeatureFail));
    let small = VirtHeader::new(0x1000_6000, 16, 0xffff_ffff, 16);
    assert_eq!(GPU::new(small, 4, 4, QUEUE, FRAME, POOLS).err(), Some(SetupError::RingSizeTooSmall));
}

#[test]
fn empty_screen_is_allowed() {
    let g = device(0, 7);
    assert_eq!(g.frame().len(), 0);
    assert_eq!(g.queue().avail().idx, 5);
}

#[test]
fn refresh_transfers_flushes_and_notifies() {
    let mut g = device(4, 3);
    g.refresh();
    let q = g.queue();
    assert_eq!(q.avail().idx, 7);
    assert_eq!(q.avail().ring[5], 11);
    assert_eq!(q.avail().ring[6], 13);
    assert_eq!(q.desc()[11], Descriptor { addr: POOLS + 6144 + 11 * 56, len: 56, flags: 1, next: 12 });
    assert_eq!(q.desc()[13], Descriptor { addr: POOLS + 13 * 48, len: 48, flags: 1, next: 14 });
    assert_eq!(g.header().queue_notify, 0);
}

#[test]
fn handler_checks_each_response() {
    let mut g = device(2, 2);
    assert_eq!(g.handler(), Err(InterruptError::NoInterrupt));
    for head in [0u32, 2, 5, 7, 9] {
        g.device_respond(head, ControllType::RespOkNoData);
    }
    assert_eq!(g.response(4).ctype, ControllType::RespOkNoData);
    assert_eq!(g.pending(), Ok(InterruptOk::Graphic));
    assert_eq!(g.handler(), Ok(InterruptOk::Graphic));
    assert!(!g.queue().is_pending());
    assert_eq!(g.handler(), Err(InterruptError::NoInterrupt));
}

#[test]
fn handler_stops_at_the_first_failed_command() {
    let mut g = device(2, 2);
    g.device_respond(0, ControllType::RespOkNoData);
    g.device_respond(2, ControllType::RespErrInvalidResourceId);
    g.device_respond(5, ControllType::RespOkNoData);
    g.pending().unwrap();
    assert_eq!(g.handler(), Err(InterruptError::NoInterrupt));
    assert!(g.queue().is_pending());
    g.pending().unwrap();
    assert_eq!(g.handler(), Ok(InterruptOk::Graphic));
    assert!(!g.queue().is_pending());
}

#[test]
fn handler_reports_completions_it_cannot_place() {
    let mut g = device(2, 2);
    g.device_respond(500, ControllType::RespOkNoData);
    g.pending().unwrap();
    assert_eq!(g.handler(), Err(InterruptError::Info(BAD_SLOT)));
    g.device_respond(11, ControllType::RespOkNoData);
    g.pending().unwrap();
    assert_eq!(g.handler(), Err(InterruptError::Info(NO_RESPONSE)));
    assert!(!g.queue().is_pending());
    assert_ne!(BAD_CHAIN, NO_RESPONSE);
}

#[test]
fn draw_override_copies_the_rectangle() {
    let mut g = device(4, 4);
    let buf = numbered(4);
    assert_eq!(g.draw_override(rect(1, 1, 3, 3), &buf), Ok(()));
    let f = g.frame();
    for p in 0..16 {
        let expected = match p {
            5 => buf[0],
            6 => buf[1],
            9 => buf[2],
            10 => buf[3],
            _ => BACKGROUND,
        };
        assert_eq!(f[p], expected);
    }
}

#[test]
fn draw_override_clips_at_the_screen() {
    let mut g = device(4, 4);
    let buf = numbered(9);
    assert_eq!(g.draw_override(rect(2, 3, 5, 6), &buf[..2]), Ok(()));
    let f = g.frame();
    assert_eq!(f[14], buf[0]);
    assert_eq!(f[15], buf[1]);
    assert_eq!(f[13], BACKGROUND);
    let mut g = device(4, 4);
    assert_eq!(g.draw_override(rect(2, 2, 5, 5), &buf), Ok(()));
    let f = g.frame();
    assert_eq!(f[10], buf[0]);
    assert_eq!(f[11], buf[1]);
    assert_eq!(f[14], buf[3]);
    assert_eq!(f[15], buf[4]);
    assert_eq!(f[9], BACKGROUND);
}

#[test]
fn draw_override_errors() {
    let mut g = device(4, 4);
    let buf = numbered(16);
    let before = g.frame().clone();
    assert_eq!(
        g.draw_override(rect(4, 0, 5, 1), &buf),
        Err(GraphicError::InvalidRect(rect(4, 0, 5, 1)))
    );
    assert_eq!(
        g.draw_override(rect(0, 5, 1, 6), &buf),
        Err(GraphicError::InvalidRect(rect(0, 5, 1, 6)))
    );
    assert_eq!(
        g.draw_override(rect(2, 0, 1, 1), &buf),
        Err(GraphicError::InvalidRect(rect(2, 0, 1, 1)))
    );
    assert_eq!(g.draw_override(rect(1, 1, 3, 3), &buf[..3]), Err(GraphicError::BufferTooSmall(4)));
    assert_eq!(g.draw_override(rect(2, 2, 5, 5), &buf[..4]), Err(GraphicError::BufferTooSmall(5)));
    assert_eq!(*g.frame(), before);
    assert_eq!(g.draw_override(rect(0, 4, 4, 9), &[]), Ok(()));
    assert_eq!(g.draw_override(rect(1, 3, 3, 1), &[]), Ok(()));
    assert_eq!(*g.frame(), before);
}

#[test]
fn draw_blend_gives_each_pixel_pair_to_the_blend() {
    let mut g = device(4, 4);
    let buf = numbered(4);
    let add_red = |src: Pixel, dst: Pixel| Pixel { r: src.r + dst.r, g: dst.g, b: src.b, a: src.a };
    assert_eq!(g.draw_blend_with(rect(2, 1, 9, 3), &buf, add_red), Ok(()));
    let f = g.frame();
    assert_eq!(f[6], Pixel { r: 10, g: 10, b: 2, a: 200 });
    assert_eq!(f[7], Pixel { r: 11, g: 10, b: 2, a: 200 });
    assert_eq!(f[10], Pixel { r: 12, g: 10, b: 2, a: 200 });
    assert_eq!(f[11], Pixel { r: 13, g: 10, b: 2, a: 200 });
    assert_eq!(f[5], BACKGROUND);
    assert_eq!(f[2], BACKGROUND);
    assert_eq!(f[14], BACKGROUND);
}

#[test]
fn draw_blend_errors() {
    let mut g = device(4, 4);
    let buf = numbered(4);
    let keep = |_src: Pixel, dst: Pixel| dst;
    assert_eq!(
        g.draw_blend_with(rect(4, 0, 5, 1), &buf, keep),
        Err(GraphicError::InvalidRect(rect(4, 0, 5, 1)))
    );
    assert_eq!(
        g.draw_blend_with(rect(0, 0, 3, 2), &buf, keep),
        Err(GraphicError::BufferTooSmall(6))
    );
    assert_eq!(g.draw_blend_with(rect(2, 0, 1, 4), &[], keep), Ok(()));
}

#[test]
fn commands_carry_their_type() {
    let h = ControllHeader::default_val(ControllType::GetDisplayInfo);
    assert_eq!(
        h,
        ControllHeader {
            ctype: ControllType::GetDisplayInfo,
            flag: 0,
            fence_idx: 0,
            ctx_id: 0,
            padding: 0
        }
    );
    assert_eq!(ControllHeader::default().ctype, ControllType::ResourceFlush);
    let c = Create2D::new(640, 480, 1);
    assert_eq!(c.header.ctype, ControllType::ResourceCreate2d);
    assert_eq!((c.width, c.height, c.resource_idx), (640, 480, 1));
    assert_eq!(c.format, PixelFormat::R8G8B8A8);
    assert_eq!(Create2D::default().format, PixelFormat::A8B8G8R8);
    let t = TransferToHost2d::new(rect(0, 0, 640, 480), 1);
    assert_eq!(t.header.ctype, ControllType::TransferToHost2d);
    assert_eq!((t.rect, t.offset, t.resource_id, t.padding), (rect(0, 0, 640, 480), 0, 1, 0));
    let a = AttachBacking::new(1, 1);
    assert_eq!(a.header.ctype, ControllType::ResourceAttachBacking);
    assert_eq!((a.resource_id, a.entries), (1, 1));
    let s = Scanout::new(rect(0, 0, 640, 480), 1, 0);
    assert_eq!(s.header.ctype, ControllType::SetScanout);
    assert_eq!((s.resource_id, s.scanout_id), (1, 0));
    let f = ResourceFlush::new(rect(1, 2, 3, 4), 7);
    assert_eq!(f.header.ctype, ControllType::ResourceFlush);
    assert_eq!((f.rect, f.resource_id, f.padding), (rect(1, 2, 3, 4), 7, 0));
    assert_eq!(MemEntry::new(0x8800_0000, 4096), MemEntry { addr: 0x8800_0000, length: 4096, padding: 0 });
}

#[test]
fn wide_numbers_keep_their_low_half() {
    assert_eq!(to_u32(7), 7);
    assert_eq!(to_u32(0xffff_ffff), 0xffff_ffff);
    assert_eq!(to_u32(usize::MAX), 0xffff_ffff);
    assert_eq!(Create2D::new(usize::MAX, 0, 0).width, 0xffff_ffff);
}

#[test]
fn command_types_have_their_wire_values() {
    let all = [
        (ControllType::GetDisplayInfo, 0x0100),
        (ControllType::ResourceCreate2d, 0x0101),
        (ControllType::ResourceUref, 0x0102),
        (ControllType::SetScanout, 0x0103),
        (ControllType::ResourceFlush, 0x0104),
        (ControllType::TransferToHost2d, 0x0105),
        (ControllType::ResourceAttachBacking, 0x0106),
        (ControllType::ResourceDetachBacking, 0x0107),
        (ControllType::GetCapsetInfo, 0x0108),
        (ControllType::GetCapset, 0x0109),
        (ControllType::GetEdid, 0x010a),
        (ControllType::UpdateCursor, 0x0300),
        (ControllType::MoveCursor, 0x0301),
        (ControllType::RespOkNoData, 0x1100),
        (ControllType::RespOkDisplayInfo, 0x1101),
        (ControllType::RespOkCapsetInfo, 0x1102),
        (ControllType::RespOkCapset, 0x1103),
        (ControllType::RespOkEdid, 0x1104),
        (ControllType::RespErrUnspec, 0x1200),
        (ControllType::RespErrOutOfMemory, 0x1201),
        (ControllType::RespErrInvalidScanoutId, 0x1202),
        (ControllType::RespErrInvalidResourceId, 0x1203),
        (ControllType::RespErrInvalidContextId, 0x1204),
        (ControllType::RespErrInvalidParameter, 0x1205),
    ];
    for (t, v) in all {
        assert_eq!(t.val32(), v);
        assert_eq!(ControllType::from32(v), Some(t));
    }
    assert_eq!(ControllType::from32(0), None);
    assert_eq!(ControllType::from32(0x010b), None);
    assert_eq!(PixelFormat::B8G8R8A8.val32(), 1);
    assert_eq!(PixelFormat::R8G8B8A8.val32(), 67);
    assert_eq!(PixelFormat::R8G8B8X8.val32(), 134);
}
