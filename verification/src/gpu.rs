//! Graphics front end: a frame buffer in guest memory and the commands that
//! put it on the screen.
use crate::config::{
    frame_of, page_frame, GraphicError, InterruptError, InterruptOk, Pixel, Rect, SetupError,
};
use crate::gpu_command::{
    AttachBacking, ControllHeader, ControllType, Create2D, MemEntry, ResourceFlush, Scanout,
    TransferToHost2d, ATTACH_BACKING_SIZE, CONTROLL_HEADER_SIZE, CREATE_2D_SIZE, MEM_ENTRY_SIZE,
    RESOURCE_FLUSH_SIZE, SCANOUT_SIZE, TRANSFER_TO_HOST_2D_SIZE,
};
use crate::header::VirtHeader;
use crate::pool::Pool;
use crate::queue::{
    slot_after, QueueView, UsedElem, VirtQueue, DESC_F_NEXT, DESC_F_WRITE, VIRTIO_RING_SIZE,
};
use crate::queue_laws::{build, lemma_built_chain_tail, lemma_submit_chain, slot_at, DescArgs};
use crate::require::Driver;
use crate::{GraphicResult, InterruptResult};
use vstd::arithmetic::div_mod::{lemma_fundamental_div_mod, lemma_fundamental_div_mod_converse};
use vstd::prelude::*;

verus! {

/// The features that the graphics driver asks for: all that are offered.
pub const GPU_FEATURES: u32 = !0u32;

/// Bytes of one pixel.
pub const PIXEL_SIZE: usize = 4;

/// Where each pool of records starts, counted from the start of the first.
pub const FLUSH_OFFSET: u64 = 0;

pub const TRANSFER_OFFSET: u64 = 6144;

pub const SCANOUT_OFFSET: u64 = 13312;

pub const CREATE_OFFSET: u64 = 19456;

pub const ATTACH_OFFSET: u64 = 24576;

pub const ENTRY_OFFSET: u64 = 28672;

pub const RESPONSE_OFFSET: u64 = 30720;

/// Bytes that the pools take together.
pub const POOLS_SIZE: u64 = 33792;

pub const BAD_SLOT: &'static str = "the used ring names a slot outside the table";

pub const BAD_CHAIN: &'static str = "the chain has no end";

pub const NO_RESPONSE: &'static str = "the chain ends in no response header";

pub const QUEUE_OUT_OF_REACH: &'static str = "the queue lies beyond the page frame register";

pub const POOL_OUT_OF_REACH: &'static str = "the command records do not fit in the address space";

pub const FRAME_TOO_LARGE: &'static str = "the frame buffer is larger than a memory entry can say";

/// The colour of the screen after a reset.
pub open spec fn background() -> Pixel {
    Pixel { r: 10, g: 10, b: 10, a: 255 }
}

/// The row in which pixel `p` of a frame `width` wide lies.
pub open spec fn row_of(width: usize, p: int) -> int {
    p / (width as int)
}

/// The column in which pixel `p` of a frame `width` wide lies.
pub open spec fn col_of(width: usize, p: int) -> int {
    p % (width as int)
}

/// Pixel `p` of a frame `width` wide lies in the columns from `x1` up to
/// `x_end` and in the rows from `y1` up to `y_end`, both ends excluded.
pub open spec fn in_rect(width: usize, p: int, x1: int, y1: int, x_end: int, y_end: int) -> bool {
    x1 <= col_of(width, p) < x_end && y1 <= row_of(width, p) < y_end
}

/// Pixel `p` comes before row `r`, column `c`, going row by row.
pub open spec fn before(width: usize, p: int, r: int, c: int) -> bool {
    row_of(width, p) < r || (row_of(width, p) == r && col_of(width, p) < c)
}

/// The pixel in row `r` and column `c` is the pixel number `r * width + c`.
pub proof fn lemma_pixel_place(width: int, r: int, c: int)
    requires
        0 <= c < width,
        0 <= r,
    ensures
        (r * width + c) / width == r,
        (r * width + c) % width == c,
{
    lemma_fundamental_div_mod_converse(r * width + c, width, r, c);
}

/// Pixel number `p` is the pixel in row `p / width` and column `p % width`.
pub proof fn lemma_pixel_of_place(width: int, p: int)
    requires
        width > 0,
        0 <= p,
    ensures
        p == (p / width) * width + p % width,
        0 <= p % width < width,
        0 <= p / width,
{
    lemma_fundamental_div_mod(p, width);
    assert(width * (p / width) == (p / width) * width) by (nonlinear_arith);
    assert(0 <= p / width) by (nonlinear_arith)
        requires
            width > 0,
            0 <= p,
    ;
}

/// A pixel of the screen lies in the frame buffer.
pub proof fn lemma_pixel_in_frame(width: int, height: int, r: int, c: int)
    by (nonlinear_arith)
    requires
        0 <= r < height,
        0 <= c < width,
    ensures
        0 <= r * width + c < width * height,
{
}

/// `b` is `a` with the pixels of a rectangle painted by `f`, which is given the
/// row, the column and the pixel that was there; every other pixel, and all
/// besides the frame buffer, is as in `a`.
pub open spec fn painted<F: Fn(usize, usize, Pixel) -> Pixel>(
    a: GpuView,
    b: GpuView,
    x1: usize,
    y1: usize,
    x_end: usize,
    y_end: usize,
    f: F,
) -> bool {
    &&& b == (GpuView { frame: b.frame, ..a })
    &&& b.frame.len() == a.frame.len()
    &&& forall|p: int|
        0 <= p < a.frame.len() ==> if in_rect(a.width, p, x1 as int, y1 as int, x_end as int, y_end as int) {
            call_ensures(
                f,
                (row_of(a.width, p) as usize, col_of(a.width, p) as usize, a.frame[p]),
                #[trigger] b.frame[p],
            )
        } else {
            b.frame[p] == a.frame[p]
        }
}

/// `n` as a machine word, or the largest machine word where `n` is larger.
pub open spec fn clip_to_word(n: int) -> usize {
    if n <= usize::MAX {
        n as usize
    } else {
        usize::MAX
    }
}

/// `b` is `a` with `buffer` blended by `blend` into the part of `rect` that
/// lies on the screen. The buffer holds the pixels of that part row after row,
/// and `blend` is given the buffer's pixel and the pixel that was on the
/// screen; every other pixel, and all besides the frame buffer, is as in `a`.
pub open spec fn blended<F: Fn(Pixel, Pixel) -> Pixel>(
    a: GpuView,
    b: GpuView,
    rect: Rect,
    buffer: Seq<Pixel>,
    blend: F,
) -> bool {
    &&& b == (GpuView { frame: b.frame, ..a })
    &&& b.frame.len() == a.frame.len()
    &&& forall|p: int|
        0 <= p < a.frame.len() ==> if in_rect(
            a.width,
            p,
            rect.x1 as int,
            rect.y1 as int,
            a.x_end(rect),
            a.y_end(rect),
        ) {
            call_ensures(
                blend,
                (
                    buffer[(row_of(a.width, p) - rect.y1) * a.line(rect) + (col_of(a.width, p)
                        - rect.x1)],
                    a.frame[p],
                ),
                #[trigger] b.frame[p],
            )
        } else {
            b.frame[p] == a.frame[p]
        }
}

/// What a graphics device is, as mathematics.
#[verifier::ext_equal]
pub struct GpuView {
    pub header: VirtHeader,
    pub queue: QueueView,
    /// The frame buffer, row after row.
    pub frame: Seq<Pixel>,
    pub frame_addr: u64,
    pub width: usize,
    pub height: usize,
    /// The interrupt line fired and was not handled yet.
    pub int: bool,
    pub pools_base: u64,
    pub flushes: Seq<ResourceFlush>,
    pub transfers: Seq<TransferToHost2d>,
    pub scanouts: Seq<Scanout>,
    pub creates: Seq<Create2D>,
    pub attaches: Seq<AttachBacking>,
    pub entries: Seq<MemEntry>,
    /// The headers into which the device writes its responses.
    pub responses: Seq<ControllHeader>,
}

/// Why a graphics device with these registers, this screen, this queue and
/// these pools cannot be brought up, if anything.
pub open spec fn setup_failure(
    header: VirtHeader,
    width: usize,
    height: usize,
    queue_addr: u64,
    pools_addr: u64,
) -> Option<SetupError> {
    if frame_of(queue_addr) > u32::MAX {
        Some(SetupError::Info(QUEUE_OUT_OF_REACH))
    } else if pools_addr + POOLS_SIZE > u64::MAX {
        Some(SetupError::Info(POOL_OUT_OF_REACH))
    } else if width > u32::MAX || height > u32::MAX || width * height * 4 > u32::MAX {
        Some(SetupError::Info(FRAME_TOO_LARGE))
    } else if !header.latches_features() {
        Some(SetupError::FeatureFail)
    } else if header.queue_num_max < 128 {
        Some(SetupError::RingSizeTooSmall)
    } else {
        None
    }
}

impl GpuView {
    pub open spec fn wf(self) -> bool {
        &&& self.queue.wf()
        &&& self.queue.chain_len == 0
        &&& self.frame.len() == self.width * self.height
        &&& self.width <= u32::MAX
        &&& self.height <= u32::MAX
        &&& self.width * self.height * 4 <= u32::MAX
        &&& self.pools_base + POOLS_SIZE <= u64::MAX
        &&& self.flushes.len() == 128
        &&& self.transfers.len() == 128
        &&& self.scanouts.len() == 128
        &&& self.creates.len() == 128
        &&& self.attaches.len() == 128
        &&& self.entries.len() == 128
        &&& self.responses.len() == 128
    }

    /// The address of the record of `slot` in the pool that starts `offset`
    /// bytes into the pools and holds records of `size` bytes.
    pub open spec fn record_addr(self, offset: u64, size: u32, slot: int) -> u64 {
        (self.pools_base + offset + slot * size) as u64
    }

    /// The slot of the response header that lies at `addr`, if one does.
    pub open spec fn response_at(self, addr: u64) -> Option<int> {
        let first = self.pools_base + RESPONSE_OFFSET;
        if addr >= first && (addr - first) % 24 == 0 && (addr - first) / 24 < 128 {
            Some((addr - first) / 24)
        } else {
            None
        }
    }

    /// The whole screen.
    pub open spec fn screen(self) -> Rect {
        Rect { x1: 0, y1: 0, x2: self.width as u32, y2: self.height as u32 }
    }

    /// The device after a command of two descriptors was issued: the record at
    /// `cmd_addr`, which the device reads, and the response header of the next
    /// slot, which the device writes. The header is preset to `ctype`.
    pub open spec fn issued(self, cmd_addr: u64, cmd_size: u32, ctype: ControllType) -> GpuView {
        let slot = self.queue.next_free as int;
        GpuView {
            responses: self.responses.update(slot, ControllHeader::spec_default_val(ctype)),
            queue: self.queue.add_desc(cmd_addr, cmd_size, DESC_F_NEXT).add_desc(
                self.record_addr(RESPONSE_OFFSET, CONTROLL_HEADER_SIZE, slot),
                CONTROLL_HEADER_SIZE,
                DESC_F_WRITE,
            ).publish(),
            ..self
        }
    }

    pub open spec fn flushed(self, rect: Rect, resource_idx: usize) -> GpuView {
        let slot = self.queue.next_free as int;
        (GpuView {
            flushes: self.flushes.update(slot, ResourceFlush::spec_new(rect, resource_idx)),
            ..self
        }).issued(
            self.record_addr(FLUSH_OFFSET, RESOURCE_FLUSH_SIZE, slot),
            RESOURCE_FLUSH_SIZE,
            ControllType::ResourceFlush,
        )
    }

    pub open spec fn transferred(self, rect: Rect, resource_idx: usize) -> GpuView {
        let slot = self.queue.next_free as int;
        (GpuView {
            transfers: self.transfers.update(slot, TransferToHost2d::spec_new(rect, resource_idx)),
            ..self
        }).issued(
            self.record_addr(TRANSFER_OFFSET, TRANSFER_TO_HOST_2D_SIZE, slot),
            TRANSFER_TO_HOST_2D_SIZE,
            ControllType::TransferToHost2d,
        )
    }

    pub open spec fn scanned(self, rect: Rect, resource_idx: usize, scanout_idx: usize) -> GpuView {
        let slot = self.queue.next_free as int;
        (GpuView {
            scanouts: self.scanouts.update(slot, Scanout::spec_new(rect, resource_idx, scanout_idx)),
            ..self
        }).issued(
            self.record_addr(SCANOUT_OFFSET, SCANOUT_SIZE, slot),
            SCANOUT_SIZE,
            ControllType::SetScanout,
        )
    }

    pub open spec fn created(self, width: usize, height: usize, resource_idx: usize) -> GpuView {
        let slot = self.queue.next_free as int;
        (GpuView {
            creates: self.creates.update(slot, Create2D::spec_new(width, height, resource_idx)),
            ..self
        }).issued(
            self.record_addr(CREATE_OFFSET, CREATE_2D_SIZE, slot),
            CREATE_2D_SIZE,
            ControllType::ResourceCreate2d,
        )
    }

    /// The device after the frame buffer was attached to a resource: a chain of
    /// the command, the memory entry that names the frame buffer, and the
    /// response header, each in the pool slot of its own descriptor.
    pub open spec fn attached(self, resource_idx: u32) -> GpuView {
        let s0 = self.queue.next_free as int;
        let s1 = slot_after(s0);
        let s2 = slot_after(s1);
        GpuView {
            attaches: self.attaches.update(s0, AttachBacking::spec_new(resource_idx, resource_idx)),
            entries: self.entries.update(
                s1,
                MemEntry::spec_new(self.frame_addr, (self.width * self.height * 4) as u32),
            ),
            responses: self.responses.update(
                s2,
                ControllHeader::spec_default_val(ControllType::ResourceAttachBacking),
            ),
            queue: self.queue.add_desc(
                self.record_addr(ATTACH_OFFSET, ATTACH_BACKING_SIZE, s0),
                ATTACH_BACKING_SIZE,
                DESC_F_NEXT,
            ).add_desc(
                self.record_addr(ENTRY_OFFSET, MEM_ENTRY_SIZE, s1),
                MEM_ENTRY_SIZE,
                DESC_F_NEXT,
            ).add_desc(
                self.record_addr(RESPONSE_OFFSET, CONTROLL_HEADER_SIZE, s2),
                CONTROLL_HEADER_SIZE,
                DESC_F_WRITE,
            ).publish(),
            ..self
        }
    }

    /// The device after the rectangle of `width` columns from `x` on and
    /// `height` rows from `y` on was filled with `color`.
    pub open spec fn filled(self, x: usize, y: usize, width: usize, height: usize, color: Pixel) -> GpuView {
        GpuView {
            frame: Seq::new(
                self.frame.len(),
                |p: int|
                    if in_rect(self.width, p, x as int, y as int, x + width, y + height) {
                        color
                    } else {
                        self.frame[p]
                    },
            ),
            ..self
        }
    }

    /// The column at which drawing `rect` stops: the rectangle's right edge or
    /// the screen's, whichever comes first.
    pub open spec fn x_end(self, rect: Rect) -> int {
        if rect.x2 < self.width {
            rect.x2 as int
        } else {
            self.width as int
        }
    }

    /// The row at which drawing `rect` stops: the rectangle's lower edge or the
    /// screen's, whichever comes first.
    pub open spec fn y_end(self, rect: Rect) -> int {
        if rect.y2 < self.height {
            rect.y2 as int
        } else {
            self.height as int
        }
    }

    /// Rows of `rect` that lie on the screen.
    pub open spec fn rows(self, rect: Rect) -> int {
        if self.y_end(rect) > rect.y1 {
            self.y_end(rect) - rect.y1
        } else {
            0
        }
    }

    /// Pixels of a row of `rect` that lie on the screen.
    pub open spec fn line(self, rect: Rect) -> int {
        if self.x_end(rect) > rect.x1 {
            self.x_end(rect) - rect.x1
        } else {
            0
        }
    }

    /// Pixels that a buffer must hold to be drawn over `rect` by
    /// `draw_override`: its rows are as wide as the rectangle, and the last
    /// one is needed as far as the screen goes.
    pub open spec fn override_needs(self, rect: Rect) -> int {
        if self.rows(rect) == 0 || self.line(rect) == 0 {
            0
        } else {
            (self.rows(rect) - 1) * (rect.x2 - rect.x1) + self.line(rect)
        }
    }

    /// Why `draw_override` refuses `rect` with a buffer of `len` pixels, if it
    /// does.
    pub open spec fn override_failure(self, rect: Rect, len: int) -> Option<GraphicError> {
        if rect.x1 >= self.width || rect.y1 > self.height || rect.x2 < rect.x1 {
            Some(GraphicError::InvalidRect(rect))
        } else if len < self.override_needs(rect) {
            Some(GraphicError::BufferTooSmall(clip_to_word(self.override_needs(rect))))
        } else {
            None
        }
    }

    /// The device after `buffer`, whose rows are as wide as `rect`, was drawn
    /// over the part of `rect` that lies on the screen.
    pub open spec fn overridden(self, rect: Rect, buffer: Seq<Pixel>) -> GpuView {
        GpuView {
            frame: Seq::new(
                self.frame.len(),
                |p: int|
                    if in_rect(
                        self.width,
                        p,
                        rect.x1 as int,
                        rect.y1 as int,
                        self.x_end(rect),
                        self.y_end(rect),
                    ) {
                        buffer[(row_of(self.width, p) - rect.y1) * (rect.x2 - rect.x1) + (col_of(
                            self.width,
                            p,
                        ) - rect.x1)]
                    } else {
                        self.frame[p]
                    },
            ),
            ..self
        }
    }

    /// Why `draw_blend_with` refuses `rect` with a buffer of `len` pixels, if it
    /// does.
    pub open spec fn blend_failure(self, rect: Rect, len: int) -> Option<GraphicError> {
        if rect.x1 >= self.width || rect.y1 > self.height {
            Some(GraphicError::InvalidRect(rect))
        } else if len < self.rows(rect) * self.line(rect) {
            Some(GraphicError::BufferTooSmall(clip_to_word(self.rows(rect) * self.line(rect))))
        } else {
            None
        }
    }

    /// The device after a reset: the screen is cleared, and a resource the size
    /// of the screen is created, backed by the frame buffer, shown on scanout
    /// 0, transferred and flushed.
    pub open spec fn reset(self) -> GpuView {
        self.filled(0, 0, self.width, self.height, background()).created(self.width, self.height, 1).attached(1).scanned(self.screen(), 1, 0).transferred(
            self.screen(),
            1,
        ).flushed(self.screen(), 1)
    }

    /// The device after the whole screen was transferred and flushed, and the
    /// device notified.
    pub open spec fn refreshed(self) -> GpuView {
        let sent = self.transferred(self.screen(), 1).flushed(self.screen(), 1);
        GpuView { header: VirtHeader { queue_notify: 0, ..sent.header }, ..sent }
    }

    /// The device right after it was brought up.
    pub open spec fn initial(
        header: VirtHeader,
        width: usize,
        height: usize,
        queue_addr: u64,
        frame_addr: u64,
        pools_addr: u64,
    ) -> GpuView {
        Self::initial_state(header, width, height, queue_addr, frame_addr, pools_addr).reset()
    }

    /// The device after the handshake and before the screen is reset: the frame
    /// buffer and the pools are as fresh memory is.
    pub open spec fn initial_state(
        header: VirtHeader,
        width: usize,
        height: usize,
        queue_addr: u64,
        frame_addr: u64,
        pools_addr: u64,
    ) -> GpuView {
        GpuView {
            header: header.negotiated(GPU_FEATURES).ring_configured(
                0,
                128,
                4096,
                frame_of(queue_addr) as u32,
            ).driver_ready(),
            queue: QueueView::fresh(),
            frame: Seq::new((width * height) as nat, |i: int| Pixel { r: 0, g: 0, b: 0, a: 0 }),
            frame_addr,
            width,
            height,
            int: false,
            pools_base: pools_addr,
            flushes: Seq::new(
                128,
                |i: int| ResourceFlush::spec_new(Rect { x1: 0, y1: 0, x2: 0, y2: 0 }, 0),
            ),
            transfers: Seq::new(
                128,
                |i: int| TransferToHost2d::spec_new(Rect { x1: 0, y1: 0, x2: 0, y2: 0 }, 0),
            ),
            scanouts: Seq::new(
                128,
                |i: int| Scanout::spec_new(Rect { x1: 0, y1: 0, x2: 0, y2: 0 }, 0, 0),
            ),
            creates: Seq::new(128, |i: int| Create2D::spec_new(0, 0, 0)),
            attaches: Seq::new(128, |i: int| AttachBacking::spec_new(0, 0)),
            entries: Seq::new(128, |i: int| MemEntry::spec_new(0, 0)),
            responses: Seq::new(
                128,
                |i: int| ControllHeader::spec_default_val(ControllType::ResourceFlush),
            ),
        }
    }

    /// The slot of the response header of the chain that starts at `head`: the
    /// header that the last descriptor of the chain names.
    pub open spec fn response_of(self, head: u32) -> Result<int, InterruptError> {
        if head >= 128 {
            Err(InterruptError::Info(BAD_SLOT))
        } else {
            match self.queue.tail_of(head as int, 128) {
                None => Err(InterruptError::Info(BAD_CHAIN)),
                Some(t) => match self.response_at(self.queue.desc[t].addr) {
                    None => Err(InterruptError::Info(NO_RESPONSE)),
                    Some(i) => Ok(i),
                },
            }
        }
    }

    /// What is wrong with the oldest untaken completion, if anything: its
    /// response cannot be found, or it is not the plain success.
    pub open spec fn front_failure(self) -> Option<InterruptError> {
        match self.response_of(self.queue.front().id) {
            Err(e) => Some(e),
            Ok(i) => if self.responses[i].ctype != ControllType::RespOkNoData {
                Some(InterruptError::NoInterrupt)
            } else {
                None
            },
        }
    }

    /// The device and the handler's answer after the completions were taken one
    /// by one, oldest first, up to the first that is at fault or, with none at
    /// fault, until nothing is pending.
    pub open spec fn drained(self) -> (GpuView, InterruptResult)
        decreases self.queue.pending(),
    {
        if !self.queue.is_pending() {
            (self, Ok(InterruptOk::Graphic))
        } else {
            let taken = GpuView { queue: self.queue.take(), ..self };
            match self.front_failure() {
                Some(e) => (taken, Err(e)),
                None => taken.drained(),
            }
        }
    }

    /// The device and the handler's answer after one call of the handler.
    pub open spec fn handled(self) -> (GpuView, InterruptResult) {
        if !self.int {
            (self, Err(InterruptError::NoInterrupt))
        } else {
            (GpuView { int: false, ..self }).drained()
        }
    }

    /// The device after the device itself answered the chain that starts at
    /// `head` with `ctype`: it wrote the type into the response header, if the
    /// chain ends in one, and reported the chain on the used ring.
    pub open spec fn device_responded(self, head: u32, ctype: ControllType) -> GpuView {
        GpuView {
            queue: self.queue.device_complete(UsedElem { id: head, len: CONTROLL_HEADER_SIZE }),
            responses: match self.response_of(head) {
                Ok(i) => self.responses.update(i, ControllHeader { ctype, ..self.responses[i] }),
                Err(_) => self.responses,
            },
            ..self
        }
    }
}

/// What a command of two descriptors gives to `add_desc`: the record for the
/// device to read, and the response header of the next slot for it to write.
pub open spec fn command_chain(g: GpuView, cmd_addr: u64, cmd_size: u32) -> Seq<DescArgs> {
    seq![
        (cmd_addr, cmd_size, DESC_F_NEXT),
        (
            g.record_addr(RESPONSE_OFFSET, CONTROLL_HEADER_SIZE, g.queue.next_free as int),
            CONTROLL_HEADER_SIZE,
            DESC_F_WRITE,
        ),
    ]
}

/// What attaching the frame buffer gives to `add_desc`: the command, the memory
/// entry and the response header, each in the pool slot of its own descriptor.
pub open spec fn attach_chain(g: GpuView) -> Seq<DescArgs> {
    let s0 = g.queue.next_free as int;
    let s1 = slot_after(s0);
    let s2 = slot_after(s1);
    seq![
        (g.record_addr(ATTACH_OFFSET, ATTACH_BACKING_SIZE, s0), ATTACH_BACKING_SIZE, DESC_F_NEXT),
        (g.record_addr(ENTRY_OFFSET, MEM_ENTRY_SIZE, s1), MEM_ENTRY_SIZE, DESC_F_NEXT),
        (g.record_addr(RESPONSE_OFFSET, CONTROLL_HEADER_SIZE, s2), CONTROLL_HEADER_SIZE, DESC_F_WRITE),
    ]
}

/// The response header of a command that was issued is found again from the
/// head of its chain: it is the header of the head's own slot, preset to the
/// type of the command; and the availability ring names the head.
pub proof fn lemma_issued_response(g: GpuView, cmd_addr: u64, cmd_size: u32, ctype: ControllType)
    requires
        g.wf(),
    ensures
        ({
            let a = g.issued(cmd_addr, cmd_size, ctype);
            let s = g.queue.next_free as int;
            &&& a.wf()
            &&& a.response_of(s as u32) == Ok::<int, InterruptError>(s)
            &&& a.responses[s] == ControllHeader::spec_default_val(ctype)
            &&& a.queue.avail_ring[g.queue.avail_idx as int % 128] == s
            &&& a.queue.next_free == slot_at(s, 2)
        }),
{
    let q = g.queue;
    let s = q.next_free as int;
    let descs = command_chain(g, cmd_addr, cmd_size);
    assert(1u16 & 1u16 != 0 && 2u16 & 1u16 == 0) by (bit_vector);
    assert(build(q, descs) == q.add_desc(descs[0].0, descs[0].1, descs[0].2).add_desc(
        descs[1].0,
        descs[1].1,
        descs[1].2,
    )) by {
        reveal_with_fuel(build, 3);
        assert(descs.drop_last().drop_last() =~= Seq::<DescArgs>::empty());
        assert(descs.drop_last().last() == descs[0]);
    }
    crate::queue_laws::lemma_build_chain(q, descs);
    lemma_submit_chain(q, descs);
    lemma_built_chain_tail(q, descs);
    crate::queue_laws::lemma_slot_at_step(s, 0);
    let a = g.issued(cmd_addr, cmd_size, ctype);
    assert(a.queue.desc[slot_at(s, 1)].addr == descs[1].0);
    assert(a.response_at(descs[1].0) == Some(s));
}

/// The response header of an attach command is found again from the head of
/// its chain: it is the header of the slot two behind the head, where the
/// chain's last descriptor lies.
pub proof fn lemma_attached_response(g: GpuView, resource_idx: u32)
    requires
        g.wf(),
    ensures
        ({
            let a = g.attached(resource_idx);
            let s = g.queue.next_free as int;
            &&& a.wf()
            &&& a.response_of(s as u32) == Ok::<int, InterruptError>(slot_at(s, 2))
            &&& a.responses[slot_at(s, 2)] == ControllHeader::spec_default_val(
                ControllType::ResourceAttachBacking,
            )
            &&& a.queue.avail_ring[g.queue.avail_idx as int % 128] == s
            &&& a.queue.next_free == slot_at(s, 3)
        }),
{
    let q = g.queue;
    let s = q.next_free as int;
    let descs = attach_chain(g);
    assert(1u16 & 1u16 != 0 && 2u16 & 1u16 == 0) by (bit_vector);
    assert(build(q, descs) == q.add_desc(descs[0].0, descs[0].1, descs[0].2).add_desc(
        descs[1].0,
        descs[1].1,
        descs[1].2,
    ).add_desc(descs[2].0, descs[2].1, descs[2].2)) by {
        reveal_with_fuel(build, 4);
        assert(descs.drop_last().drop_last().drop_last() =~= Seq::<DescArgs>::empty());
        assert(descs.drop_last().last() == descs[1]);
        assert(descs.drop_last().drop_last().last() == descs[0]);
    }
    crate::queue_laws::lemma_build_chain(q, descs);
    lemma_submit_chain(q, descs);
    lemma_built_chain_tail(q, descs);
    crate::queue_laws::lemma_slot_at_step(s, 0);
    crate::queue_laws::lemma_slot_at_step(s, 1);
    let a = g.attached(resource_idx);
    assert(a.queue.desc[slot_at(s, 2)].addr == descs[2].0);
    assert(a.response_at(descs[2].0) == Some(slot_at(s, 2)));
}

/// A graphics device: its registers, its queue, the frame buffer, and a pool
/// for each kind of record that the device reads or writes.
pub struct GPU {
    header: VirtHeader,
    queue: VirtQueue,
    frame_buffer: Vec<Pixel>,
    frame_addr: u64,
    res_pool: Pool<ResourceFlush>,
    trans_pool: Pool<TransferToHost2d>,
    scan_pool: Pool<Scanout>,
    create_pool: Pool<Create2D>,
    attach_pool: Pool<AttachBacking>,
    entry_pool: Pool<MemEntry>,
    header_pool: Pool<ControllHeader>,
    width: usize,
    height: usize,
    int: bool,
}

impl View for GPU {
    type V = GpuView;

    closed spec fn view(&self) -> GpuView {
        GpuView {
            header: self.header,
            queue: self.queue@,
            frame: self.frame_buffer@,
            frame_addr: self.frame_addr,
            width: self.width,
            height: self.height,
            int: self.int,
            pools_base: self.res_pool.base(),
            flushes: self.res_pool.entries(),
            transfers: self.trans_pool.entries(),
            scanouts: self.scan_pool.entries(),
            creates: self.create_pool.entries(),
            attaches: self.attach_pool.entries(),
            entries: self.entry_pool.entries(),
            responses: self.header_pool.entries(),
        }
    }
}

impl GPU {
    /// The pools lie one after the other, each with the stride of its records.
    closed spec fn pools_laid_out(&self) -> bool {
        let base = self.res_pool.base();
        &&& self.res_pool.wf() && self.res_pool.stride() == RESOURCE_FLUSH_SIZE
        &&& self.trans_pool.wf() && self.trans_pool.stride() == TRANSFER_TO_HOST_2D_SIZE
            && self.trans_pool.base() == base + TRANSFER_OFFSET
        &&& self.scan_pool.wf() && self.scan_pool.stride() == SCANOUT_SIZE && self.scan_pool.base()
            == base + SCANOUT_OFFSET
        &&& self.create_pool.wf() && self.create_pool.stride() == CREATE_2D_SIZE
            && self.create_pool.base() == base + CREATE_OFFSET
        &&& self.attach_pool.wf() && self.attach_pool.stride() == ATTACH_BACKING_SIZE
            && self.attach_pool.base() == base + ATTACH_OFFSET
        &&& self.entry_pool.wf() && self.entry_pool.stride() == MEM_ENTRY_SIZE
            && self.entry_pool.base() == base + ENTRY_OFFSET
        &&& self.header_pool.wf() && self.header_pool.stride() == CONTROLL_HEADER_SIZE
            && self.header_pool.base() == base + RESPONSE_OFFSET
    }

    /// The device's state is consistent.
    pub closed spec fn wf(&self) -> bool {
        &&& self@.wf()
        &&& self.pools_laid_out()
    }

    /// A consistent device has a well-formed view.
    pub proof fn lemma_wf(&self)
        requires
            self.wf(),
        ensures
            self@.wf(),
    {
    }

    /// Brings the device up: negotiates the features, configures the ring of
    /// queue 0 with the table at `queue_addr`, tells the device that the driver
    /// is ready, and resets the screen of `width` by `height` pixels. The
    /// frame buffer is known to the device as `frame_addr`, and the command
    /// records will lie at `pools_addr`.
    pub fn new(
        header: VirtHeader,
        width: usize,
        height: usize,
        queue_addr: u64,
        frame_addr: u64,
        pools_addr: u64,
    ) -> (r: Result<GPU, SetupError>)
        ensures
            match r {
                Ok(g) => setup_failure(header, width, height, queue_addr, pools_addr) is None
                    && g.wf() && g@ == GpuView::initial(
                    header,
                    width,
                    height,
                    queue_addr,
                    frame_addr,
                    pools_addr,
                ),
                Err(e) => setup_failure(header, width, height, queue_addr, pools_addr) == Some(e),
            },
    {
        let pfn = match page_frame(queue_addr) {
            Some(pfn) => pfn,
            None => {
                return Err(SetupError::Info(QUEUE_OUT_OF_REACH));
            },
        };
        if pools_addr > u64::MAX - POOLS_SIZE {
            return Err(SetupError::Info(POOL_OUT_OF_REACH));
        }
        if width > 0xffff_ffff || height > 0xffff_ffff {
            return Err(SetupError::Info(FRAME_TOO_LARGE));
        }
        assert(width * height <= 0xffff_ffff * 0xffff_ffff) by (nonlinear_arith)
            requires
                0 <= width <= 0xffff_ffff,
                0 <= height <= 0xffff_ffff,
        ;
        let pixels: u64 = width as u64 * (height as u64);
        if pixels > 0x3fff_ffff {
            return Err(SetupError::Info(FRAME_TOO_LARGE));
        }
        let mut header = header;
        match header.set_feature(GPU_FEATURES) {
            Err(e) => {
                return Err(e);
            },
            Ok(()) => {},
        }
        match header.configure_ring(0, VIRTIO_RING_SIZE as u32, crate::config::PAGE_SIZE as u32, pfn) {
            Err(e) => {
                return Err(e);
            },
            Ok(()) => {},
        }
        header.driver_ok();
        let blank = Rect { x1: 0, y1: 0, x2: 0, y2: 0 };
        let mut frame_buffer: Vec<Pixel> = Vec::new();
        let mut i: u64 = 0;
        while i < pixels
            invariant
                i <= pixels <= 0x3fff_ffff,
                frame_buffer@.len() == i,
                forall|k: int| 0 <= k < i ==> frame_buffer@[k] == (Pixel { r: 0, g: 0, b: 0, a: 0 }),
            decreases pixels - i,
        {
            frame_buffer.push(Pixel { r: 0, g: 0, b: 0, a: 0 });
            i += 1;
        }
        let mut g = GPU {
            header,
            queue: VirtQueue::new(),
            frame_buffer,
            frame_addr,
            res_pool: Pool::new(pools_addr + FLUSH_OFFSET, RESOURCE_FLUSH_SIZE, ResourceFlush::new(blank, 0)),
            trans_pool: Pool::new(
                pools_addr + TRANSFER_OFFSET,
                TRANSFER_TO_HOST_2D_SIZE,
                TransferToHost2d::new(blank, 0),
            ),
            scan_pool: Pool::new(pools_addr + SCANOUT_OFFSET, SCANOUT_SIZE, Scanout::new(blank, 0, 0)),
            create_pool: Pool::new(pools_addr + CREATE_OFFSET, CREATE_2D_SIZE, Create2D::new(0, 0, 0)),
            attach_pool: Pool::new(pools_addr + ATTACH_OFFSET, ATTACH_BACKING_SIZE, AttachBacking::new(0, 0)),
            entry_pool: Pool::new(pools_addr + ENTRY_OFFSET, MEM_ENTRY_SIZE, MemEntry::new(0, 0)),
            header_pool: Pool::new(
                pools_addr + RESPONSE_OFFSET,
                CONTROLL_HEADER_SIZE,
                ControllHeader::default(),
            ),
            width,
            height,
            int: false,
        };
        proof {
            crate::queue_laws::lemma_fresh_wf();
        }
        assert(g@ =~= GpuView::initial_state(header, width, height, queue_addr, frame_addr, pools_addr));
        g.reset();
        Ok(g)
    }

    /// Clears the screen and sets the resource up that shows it.
    fn reset(&mut self)
        requires
            old(self).wf(),
        ensures
            final(self).wf(),
            final(self)@ == old(self)@.reset(),
    {
        let rect = Rect { x1: 0, y1: 0, x2: self.width as u32, y2: self.height as u32 };
        self.fill_rect(0, 0, self.width, self.height, Pixel { r: 10, g: 10, b: 10, a: 255 });
        self.create_resouce_id(self.width, self.height, 1);
        self.attach(1);
        self.set_scanout(rect, 1, 0);
        self.transfer(rect, 1);
        self.flush(rect, 1);
    }

    /// Issues a command of two descriptors: the record at `cmd_addr` and the
    /// response header of the next slot.
    fn add_desc(&mut self, cmd_addr: u64, cmd_size: u32, ctype: ControllType)
        requires
            old(self).wf(),
        ensures
            final(self).wf(),
            final(self)@ == old(self)@.issued(cmd_addr, cmd_size, ctype),
    {
        let header = ControllHeader::default_val(ctype);
        let idx = self.queue.desc_idx() as usize;
        let addr = self.header_pool.replace_u64(idx, header);
        assert(1u16 & 1u16 != 0 && 2u16 & 1u16 == 0) by (bit_vector);
        self.queue.add_desc(cmd_addr, cmd_size, DESC_F_NEXT);
        self.queue.add_desc(addr, CONTROLL_HEADER_SIZE, DESC_F_WRITE);
        self.queue.add_avail();
        assert(self@ =~= old(self)@.issued(cmd_addr, cmd_size, ctype));
    }

    /// Puts the rectangle `rect` of the resource on the screen.
    pub fn flush(&mut self, rect: Rect, resource_idx: usize)
        requires
            old(self).wf(),
        ensures
            final(self).wf(),
            final(self)@ == old(self)@.flushed(rect, resource_idx),
    {
        let flush = ResourceFlush::new(rect, resource_idx);
        let idx = self.queue.desc_idx() as usize;
        let addr = self.res_pool.replace_u64(idx, flush);
        self.add_desc(addr, RESOURCE_FLUSH_SIZE, ControllType::ResourceFlush);
    }

    /// Copies the rectangle `rect` of the frame buffer to the host.
    pub fn transfer(&mut self, rect: Rect, resource_idx: usize)
        requires
            old(self).wf(),
        ensures
            final(self).wf(),
            final(self)@ == old(self)@.transferred(rect, resource_idx),
    {
        let trans = TransferToHost2d::new(rect, resource_idx);
        let idx = self.queue.desc_idx() as usize;
        let addr = self.trans_pool.replace_u64(idx, trans);
        self.add_desc(addr, TRANSFER_TO_HOST_2D_SIZE, ControllType::TransferToHost2d);
    }

    /// Shows the rectangle `rect` of the resource on the scanout.
    pub fn set_scanout(&mut self, rect: Rect, resource_idx: usize, scanout_idx: usize)
        requires
            old(self).wf(),
        ensures
            final(self).wf(),
            final(self)@ == old(self)@.scanned(rect, resource_idx, scanout_idx),
    {
        let scan = Scanout::new(rect, resource_idx, scanout_idx);
        let idx = self.queue.desc_idx() as usize;
        let addr = self.scan_pool.replace_u64(idx, scan);
        self.add_desc(addr, SCANOUT_SIZE, ControllType::SetScanout);
    }

    /// Creates the resource `resource_idx` with the given size.
    pub fn create_resouce_id(&mut self, width: usize, height: usize, resource_idx: usize)
        requires
            old(self).wf(),
        ensures
            final(self).wf(),
            final(self)@ == old(self)@.created(width, height, resource_idx),
    {
        let create = Create2D::new(width, height, resource_idx);
        let idx = self.queue.desc_idx() as usize;
        let addr = self.create_pool.replace_u64(idx, create);
        self.add_desc(addr, CREATE_2D_SIZE, ControllType::ResourceCreate2d);
    }

    /// Makes the frame buffer the backing memory of the resource.
    pub fn attach(&mut self, resource_idx: u32)
        requires
            old(self).wf(),
        ensures
            final(self).wf(),
            final(self)@ == old(self)@.attached(resource_idx),
    {
        let at = AttachBacking::new(resource_idx, resource_idx);
        assert(self.width * self.height * 4 <= u32::MAX);
        assert(self.width * self.height <= self.width * self.height * 4) by (nonlinear_arith);
        let bytes: u32 = (self.width * self.height * PIXEL_SIZE) as u32;
        let entry = MemEntry::new(self.frame_addr, bytes);
        let header = ControllHeader::default_val(ControllType::ResourceAttachBacking);
        assert(1u16 & 1u16 != 0 && 2u16 & 1u16 == 0) by (bit_vector);
        let idx = self.queue.desc_idx() as usize;
        let addr1 = self.attach_pool.replace_u64(idx, at);
        self.queue.add_desc(addr1, ATTACH_BACKING_SIZE, DESC_F_NEXT);
        let idx = self.queue.desc_idx() as usize;
        let addr = self.entry_pool.replace_u64(idx, entry);
        self.queue.add_desc(addr, MEM_ENTRY_SIZE, DESC_F_NEXT);
        let idx = self.queue.desc_idx() as usize;
        let addr = self.header_pool.replace_u64(idx, header);
        self.queue.add_desc(addr, CONTROLL_HEADER_SIZE, DESC_F_WRITE);
        self.queue.add_avail();
        assert(self@ =~= old(self)@.attached(resource_idx));
    }

    /// Paints the pixels in the columns from `x1` up to `x_end` and the rows
    /// from `y1` up to `y_end`, row by row: each becomes what `f` makes of its
    /// row, its column and the pixel that was there.
    fn paint<F: Fn(usize, usize, Pixel) -> Pixel>(
        &mut self,
        x1: usize,
        y1: usize,
        x_end: usize,
        y_end: usize,
        f: F,
    )
        requires
            old(self).wf(),
            x1 <= x_end <= old(self)@.width,
            y1 <= y_end <= old(self)@.height,
            forall|r: usize, c: usize, px: Pixel|
                y1 <= r < y_end && x1 <= c < x_end ==> call_requires(f, (r, c, px)),
        ensures
            final(self).wf(),
            painted(old(self)@, final(self)@, x1, y1, x_end, y_end, f),
    {
        let width = self.width;
        let ghost len = self.frame_buffer@.len() as int;
        let mut r = y1;
        while r < y_end
            invariant
                self.wf(),
                self@ == (GpuView { frame: self@.frame, ..old(self)@ }),
                self@.frame.len() == len,
                old(self)@.frame.len() == len,
                width == self@.width,
                x1 <= x_end <= width,
                y1 <= r <= y_end <= self@.height,
                forall|r: usize, c: usize, px: Pixel|
                    y1 <= r < y_end && x1 <= c < x_end ==> call_requires(f, (r, c, px)),
                forall|p: int|
                    0 <= p < len ==> if in_rect(width, p, x1 as int, y1 as int, x_end as int, y_end as int)
                        && before(width, p, r as int, x1 as int) {
                        call_ensures(
                            f,
                            (row_of(width, p) as usize, col_of(width, p) as usize, old(self)@.frame[p]),
                            #[trigger] self@.frame[p],
                        )
                    } else {
                        self@.frame[p] == old(self)@.frame[p]
                    },
            decreases y_end - r,
        {
            let mut c = x1;
            while c < x_end
                invariant
                    self.wf(),
                    self@ == (GpuView { frame: self@.frame, ..old(self)@ }),
                    self@.frame.len() == len,
                    old(self)@.frame.len() == len,
                    width == self@.width,
                    x1 <= c <= x_end <= width,
                    y1 <= r < y_end <= self@.height,
                    forall|r: usize, c: usize, px: Pixel|
                        y1 <= r < y_end && x1 <= c < x_end ==> call_requires(f, (r, c, px)),
                    forall|p: int|
                        0 <= p < len ==> if in_rect(
                            width,
                            p,
                            x1 as int,
                            y1 as int,
                            x_end as int,
                            y_end as int,
                        ) && before(width, p, r as int, c as int) {
                            call_ensures(
                                f,
                                (
                                    row_of(width, p) as usize,
                                    col_of(width, p) as usize,
                                    old(self)@.frame[p],
                                ),
                                #[trigger] self@.frame[p],
                            )
                        } else {
                            self@.frame[p] == old(self)@.frame[p]
                        },
                decreases x_end - c,
            {
                proof {
                    lemma_pixel_in_frame(width as int, self@.height as int, r as int, c as int);
                    lemma_pixel_place(width as int, r as int, c as int);
                }
                let at = r * width + c;
                let ghost prev = self@.frame;
                let px = f(r, c, self.frame_buffer[at]);
                self.frame_buffer[at] = px;
                assert(self@ =~= (GpuView { frame: self@.frame, ..old(self)@ }));
                assert forall|p: int| 0 <= p < len implies if in_rect(
                    width,
                    p,
                    x1 as int,
                    y1 as int,
                    x_end as int,
                    y_end as int,
                ) && before(width, p, r as int, c + 1) {
                    call_ensures(
                        f,
                        (row_of(width, p) as usize, col_of(width, p) as usize, old(self)@.frame[p]),
                        #[trigger] self@.frame[p],
                    )
                } else {
                    self@.frame[p] == old(self)@.frame[p]
                } by {
                    lemma_pixel_of_place(width as int, p);
                    if p != at {
                        assert(self@.frame[p] == prev[p]);
                    }
                }
                c += 1;
            }
            r += 1;
        }
    }

    /// Fills the rectangle of `width` columns from `x` on and `height` rows
    /// from `y` on with `color`.
    fn fill_rect(&mut self, x: usize, y: usize, width: usize, height: usize, color: Pixel)
        requires
            old(self).wf(),
            x + width <= old(self)@.width,
            y + height <= old(self)@.height,
        ensures
            final(self).wf(),
            final(self)@ == old(self)@.filled(x, y, width, height, color),
    {
        let f = |r: usize, c: usize, px: Pixel| -> (out: Pixel)
            ensures
                out == color,
            { color };
        self.paint(x, y, x + width, y + height, f);
        assert(self@.frame =~= old(self)@.filled(x, y, width, height, color).frame);
    }

    /// Draws `buffer` over the part of `rect` that lies on the screen. The
    /// buffer holds the rectangle row after row, each row as wide as the
    /// rectangle.
    pub fn draw_override(&mut self, rect: Rect, buffer: &[Pixel]) -> (r: GraphicResult)
        requires
            old(self).wf(),
        ensures
            final(self).wf(),
            match r {
                Ok(()) => old(self)@.override_failure(rect, buffer@.len() as int) is None && final(self)@ == old(self)@.overridden(rect, buffer@),
                Err(e) => old(self)@.override_failure(rect, buffer@.len() as int) == Some(e)
                    && final(self)@ == old(self)@,
            },
    {
        let x1 = rect.x1 as usize;
        let y1 = rect.y1 as usize;
        let x2 = rect.x2 as usize;
        let y2 = rect.y2 as usize;
        if x1 >= self.width || y1 > self.height || x2 < x1 {
            return Err(GraphicError::InvalidRect(rect));
        }
        let x_end = if x2 < self.width {
            x2
        } else {
            self.width
        };
        let y_stop = if y2 < self.height {
            y2
        } else {
            self.height
        };
        let y_end = if y_stop < y1 {
            y1
        } else {
            y_stop
        };
        let rows = y_end - y1;
        let line = x_end - x1;
        let width = x2 - x1;
        let needed: u64 = if rows == 0 || line == 0 {
            0
        } else {
            assert((rows - 1) * width <= 0xffff_ffff * 0xffff_ffff) by (nonlinear_arith)
                requires
                    0 <= rows - 1 <= 0xffff_ffff,
                    0 <= width <= 0xffff_ffff,
            ;
            (rows - 1) as u64 * (width as u64) + line as u64
        };
        if (buffer.len() as u64) < needed {
            let word = if needed > usize::MAX as u64 {
                usize::MAX
            } else {
                needed as usize
            };
            return Err(GraphicError::BufferTooSmall(word));
        }
        let f = |r: usize, c: usize, px: Pixel| -> (out: Pixel)
            requires
                y1 <= r < y_end,
                x1 <= c < x_end,
                x_end <= x2,
                width == x2 - x1,
                (y_end - y1 - 1) * width + (x_end - x1) <= buffer@.len(),
            ensures
                out == buffer@[(r - y1) * width + (c - x1)],
            {
                assert((r - y1) * width <= (y_end - y1 - 1) * width) by (nonlinear_arith)
                    requires
                        0 <= r - y1 <= y_end - y1 - 1,
                        0 <= width,
                ;
                buffer[(r - y1) * width + (c - x1)]
            };
        self.paint(x1, y1, x_end, y_end, f);
        assert(self@.frame =~= old(self)@.overridden(rect, buffer@).frame);
        Ok(())
    }

    /// Blends `buffer` into the part of `rect` that lies on the screen. The
    /// buffer holds the pixels of that part row after row. Each pixel on the
    /// screen becomes what `blend` makes of the buffer's pixel and of it.
    pub fn draw_blend_with<F: Fn(Pixel, Pixel) -> Pixel>(
        &mut self,
        rect: Rect,
        buffer: &[Pixel],
        blend: F,
    ) -> (r: GraphicResult)
        requires
            old(self).wf(),
            forall|a: Pixel, b: Pixel| call_requires(blend, (a, b)),
        ensures
            final(self).wf(),
            match r {
                Ok(()) => old(self)@.blend_failure(rect, buffer@.len() as int) is None && blended(
                    old(self)@,
                    final(self)@,
                    rect,
                    buffer@,
                    blend,
                ),
                Err(e) => old(self)@.blend_failure(rect, buffer@.len() as int) == Some(e) && final(self)@ == old(self)@,
            },
    {
        let x1 = rect.x1 as usize;
        let y1 = rect.y1 as usize;
        let x2 = rect.x2 as usize;
        let y2 = rect.y2 as usize;
        if x1 >= self.width || y1 > self.height {
            return Err(GraphicError::InvalidRect(rect));
        }
        let x_stop = if x2 < self.width {
            x2
        } else {
            self.width
        };
        let x_end = if x_stop < x1 {
            x1
        } else {
            x_stop
        };
        let y_stop = if y2 < self.height {
            y2
        } else {
            self.height
        };
        let y_end = if y_stop < y1 {
            y1
        } else {
            y_stop
        };
        let rows = y_end - y1;
        let line = x_end - x1;
        assert(rows * line <= 0xffff_ffff * 0xffff_ffff) by (nonlinear_arith)
            requires
                0 <= rows <= 0xffff_ffff,
                0 <= line <= 0xffff_ffff,
        ;
        let needed: u64 = rows as u64 * (line as u64);
        if (buffer.len() as u64) < needed {
            let word = if needed > usize::MAX as u64 {
                usize::MAX
            } else {
                needed as usize
            };
            return Err(GraphicError::BufferTooSmall(word));
        }
        let mix = &blend;
        let f = |r: usize, c: usize, px: Pixel| -> (out: Pixel)
            requires
                y1 <= r < y_end,
                x1 <= c < x_end,
                line == x_end - x1,
                (y_end - y1) * line <= buffer@.len(),
                forall|a: Pixel, b: Pixel| call_requires(*mix, (a, b)),
            ensures
                call_ensures(*mix, (buffer@[(r - y1) * line + (c - x1)], px), out),
            {
                assert((r - y1) * line + line <= (y_end - y1) * line) by (nonlinear_arith)
                    requires
                        0 <= r - y1 < y_end - y1,
                        0 <= line,
                ;
                mix(buffer[(r - y1) * line + (c - x1)], px)
            };
        self.paint(x1, y1, x_end, y_end, f);
        Ok(())
    }

    /// Tells the device that the queue has new chains.
    fn run(&mut self)
        requires
            old(self).wf(),
        ensures
            final(self).wf(),
            final(self)@ == (GpuView {
                header: VirtHeader { queue_notify: 0, ..old(self)@.header },
                ..old(self)@
            }),
    {
        self.header.notify(0);
        assert(self@ =~= (GpuView {
            header: VirtHeader { queue_notify: 0, ..old(self)@.header },
            ..old(self)@
        }));
    }

    /// Sends the whole frame buffer to the screen.
    pub fn refresh(&mut self)
        requires
            old(self).wf(),
        ensures
            final(self).wf(),
            final(self)@ == old(self)@.refreshed(),
    {
        let rect = Rect { x1: 0, y1: 0, x2: self.width as u32, y2: self.height as u32 };
        self.transfer(rect, 1);
        self.flush(rect, 1);
        self.run();
    }

    /// The slot of the response header of the chain that starts at `head`.
    fn response_slot(&self, head: u32) -> (r: Result<usize, InterruptError>)
        requires
            self.wf(),
        ensures
            match r {
                Ok(i) => self@.response_of(head) == Ok::<int, InterruptError>(i as int) && i < 128,
                Err(e) => self@.response_of(head) == Err::<int, InterruptError>(e),
            },
    {
        if head as usize >= VIRTIO_RING_SIZE {
            return Err(InterruptError::Info(BAD_SLOT));
        }
        let tail = match self.queue.chain_tail(head as u16) {
            None => {
                return Err(InterruptError::Info(BAD_CHAIN));
            },
            Some(t) => t,
        };
        proof {
            crate::queue::lemma_tail_in_table(self@.queue, head as int, 128);
        }
        let addr = self.queue.desc()[tail as usize].addr;
        match self.header_pool.index_of(addr) {
            None => Err(InterruptError::Info(NO_RESPONSE)),
            Some(i) => Ok(i),
        }
    }

    /// The control registers.
    pub fn header(&self) -> (h: &VirtHeader)
        ensures
            *h == self@.header,
    {
        &self.header
    }

    /// The queue.
    pub fn queue(&self) -> (q: &VirtQueue)
        ensures
            q@ == self@.queue,
    {
        &self.queue
    }

    /// The frame buffer, row after row.
    pub fn frame(&self) -> (f: &Vec<Pixel>)
        ensures
            f@ == self@.frame,
    {
        &self.frame_buffer
    }

    /// The response header of `slot`.
    pub fn response(&self, slot: u16) -> (h: ControllHeader)
        requires
            self.wf(),
            slot < 128,
        ensures
            h == self@.responses[slot as int],
    {
        *self.header_pool.peek(slot as usize)
    }

    /// The device's half of a command, for a device that lives in this process:
    /// it writes `ctype` into the response header of the chain that starts at
    /// `head`, and reports the chain on the used ring.
    pub fn device_respond(&mut self, head: u32, ctype: ControllType)
        requires
            old(self).wf(),
        ensures
            final(self).wf(),
            final(self)@ == old(self)@.device_responded(head, ctype),
    {
        match self.response_slot(head) {
            Ok(i) => {
                let h = self.header_pool.get(i);
                h.ctype = ctype;
            },
            Err(_) => {},
        }
        self.queue.device_complete(UsedElem { id: head, len: CONTROLL_HEADER_SIZE });
        assert(self@ =~= old(self)@.device_responded(head, ctype));
    }
}

impl Driver for GPU {
    open spec fn ready(&self) -> bool {
        self.wf()
    }

    /// Takes the completions that the device wrote, oldest first, and looks at
    /// the response of each. Without a recorded interrupt there is nothing to
    /// do, and the answer is `NoInterrupt`. A completion whose response cannot
    /// be found or is not the plain success ends the call with an error; what
    /// was pending behind it stays pending.
    fn handler(&mut self) -> (r: InterruptResult)
        ensures
            (final(self)@, r) == old(self)@.handled(),
    {
        if !self.int {
            return Err(InterruptError::NoInterrupt);
        }
        self.int = false;
        let ghost start = self@;
        while self.queue.is_pending()
            invariant
                self.wf(),
                old(self)@.int,
                start == (GpuView { int: false, ..old(self)@ }),
                self@.drained() == start.drained(),
            decreases self@.queue.pending(),
        {
            let ghost before = self@;
            let elem = self.queue.next_elem();
            assert(self@ =~= (GpuView { queue: before.queue.take(), ..before }));
            proof {
                crate::queue::lemma_tail_same_table(before.queue, self@.queue, elem.id as int, 128);
            }
            let slot = match self.response_slot(elem.id) {
                Err(e) => {
                    return Err(e);
                },
                Ok(slot) => slot,
            };
            match self.header_pool.peek(slot).ctype {
                ControllType::RespOkNoData => {},
                _ => {
                    return Err(InterruptError::NoInterrupt);
                },
            }
        }
        Ok(InterruptOk::Graphic)
    }

    /// Records that the device's interrupt line fired.
    fn pending(&mut self) -> (r: InterruptResult)
        ensures
            final(self)@ == (GpuView { int: true, ..old(self)@ }),
            r == Ok::<InterruptOk, InterruptError>(InterruptOk::Graphic),
    {
        self.int = true;
        assert(self@ =~= (GpuView { int: true, ..old(self)@ }));
        Ok(InterruptOk::Graphic)
    }
}

} // verus!
