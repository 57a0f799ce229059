//! Block front end: requests to read and write sectors, one per slot.
use crate::config::{page_frame, frame_of, InterruptError, InterruptOk, IoError, PhysBuf, SetupError};
use crate::header::VirtHeader;
use crate::pool::Pool;
use crate::queue::{
    BlockFlag, Descriptor, Header, QueueView, VirtQueue, DESC_F_NEXT, DESC_F_WRITE,
    VIRTIO_RING_SIZE,
};
use crate::queue_laws::{build, lemma_build_chain, lemma_submit_chain, slot_at, DescArgs};
use crate::require::Driver;
use crate::{InterruptResult, IoResult};
use vstd::prelude::*;

verus! {

/// Bytes from one request of the pool to the next.
pub const REQUEST_STRIDE: u32 = 32;

/// Bytes of the header that opens a request.
pub const HEADER_SIZE: u32 = 16;

/// Where in a request its status byte lies.
pub const STATUS_OFFSET: u64 = 24;

/// Bytes in a sector.
pub const SECTOR_SIZE: usize = 512;

/// The status byte of a request that the device has not answered.
pub const STATUS_IN_FLIGHT: u8 = 111;

/// The features that the block driver asks for: all but the read-only bit.
pub const BLOCK_FEATURES: u32 = !(1u32 << 5);

pub const BAD_SLOT: &'static str = "the used ring names a slot outside the table";

pub const DEVICE_FAILED: &'static str = "the device reports that the request failed";

pub const QUEUE_OUT_OF_REACH: &'static str = "the queue lies beyond the page frame register";

pub const POOL_OUT_OF_REACH: &'static str = "the pool does not fit in the address space";

/// One request as it lies in the pool: the header and the status byte are read
/// and written by the device, `data` is where the sectors come from or go to,
/// and `waiting` says that the request's completion has not been signalled yet.
#[derive(Clone, Copy, Debug, PartialEq, Eq, Structural)]
pub struct Request {
    pub header: Header,
    pub data: u64,
    pub status: u8,
    pub waiting: bool,
}

impl Request {
    /// The request for the sector in which byte `offset` lies.
    pub open spec fn spec_new(data: u64, offset: usize, write: bool) -> Request {
        Request {
            header: Header {
                blktype: if write {
                    BlockFlag::Out
                } else {
                    BlockFlag::In
                },
                reserved: 0,
                sector: (offset / 512) as u64,
            },
            data,
            status: STATUS_IN_FLIGHT,
            waiting: true,
        }
    }

    /// A request to write (`write`) or read the sector in which byte `offset`
    /// lies, from or into the buffer at `data`. It waits for its completion.
    pub fn new(data: u64, offset: usize, write: bool) -> (rq: Self)
        ensures
            rq == Self::spec_new(data, offset, write),
    {
        Request {
            header: Header {
                blktype: if write {
                    BlockFlag::Out
                } else {
                    BlockFlag::In
                },
                reserved: 0,
                sector: (offset / SECTOR_SIZE) as u64,
            },
            data,
            status: STATUS_IN_FLIGHT,
            waiting: true,
        }
    }

}

impl Default for Request {
    /// The entry of a slot that was never used: nothing waits on it.
    fn default() -> (rq: Self)
        ensures
            rq == (Request {
                header: Header { blktype: BlockFlag::In, reserved: 0, sector: 0 },
                data: 0,
                status: 0,
                waiting: false,
            }),
    {
        Request { header: Header::default(), data: 0, status: 0, waiting: false }
    }
}

/// What a block device is, as mathematics.
#[verifier::ext_equal]
pub struct BlockView {
    pub header: VirtHeader,
    pub queue: QueueView,
    pub requests: Seq<Request>,
    pub pool_base: u64,
    /// The interrupt line fired and was not handled yet.
    pub int: bool,
}

/// Why a block device with these registers, this queue and this pool cannot be
/// brought up, if anything.
pub open spec fn setup_failure(header: VirtHeader, queue_addr: u64, pool_addr: u64) -> Option<SetupError> {
    if frame_of(queue_addr) > u32::MAX {
        Some(SetupError::Info(QUEUE_OUT_OF_REACH))
    } else if pool_addr + 128 * REQUEST_STRIDE > u64::MAX {
        Some(SetupError::Info(POOL_OUT_OF_REACH))
    } else if !header.latches_features() {
        Some(SetupError::FeatureFail)
    } else if header.queue_num_max < 128 {
        Some(SetupError::RingSizeTooSmall)
    } else {
        None
    }
}

impl BlockView {
    /// The device right after it was brought up.
    pub open spec fn initial(header: VirtHeader, queue_addr: u64, pool_addr: u64) -> BlockView {
        BlockView {
            header: header.negotiated(BLOCK_FEATURES).ring_configured(
                0,
                128,
                4096,
                frame_of(queue_addr) as u32,
            ).driver_ready(),
            queue: QueueView::fresh(),
            requests: Seq::new(
                128,
                |i: int|
                    Request {
                        header: Header { blktype: BlockFlag::In, reserved: 0, sector: 0 },
                        data: 0,
                        status: 0,
                        waiting: false,
                    },
            ),
            pool_base: pool_addr,
            int: false,
        }
    }

    pub open spec fn wf(self) -> bool {
        &&& self.queue.wf()
        &&& self.queue.chain_len == 0
        &&& self.requests.len() == 128
        &&& self.pool_base + 128 * REQUEST_STRIDE <= u64::MAX
    }

    /// The address of the request of `slot`.
    pub open spec fn request_addr(self, slot: int) -> u64 {
        (self.pool_base + slot * REQUEST_STRIDE) as u64
    }

    /// The slot that the next request takes.
    pub open spec fn next_slot(self) -> int {
        self.queue.next_free as int
    }

    /// The slot that the next request takes holds a request whose completion
    /// was not signalled yet.
    pub open spec fn collides(self) -> bool {
        self.requests[self.next_slot()].waiting
    }

    /// The flags of the descriptor for the data: the device reads what is
    /// written to the disk, and writes what is read from it.
    pub open spec fn data_flags(write: bool) -> u16 {
        if write {
            DESC_F_NEXT
        } else {
            DESC_F_NEXT | DESC_F_WRITE
        }
    }

    /// The device after a request was installed in the next slot, its chain of
    /// header, data and status byte was built and published, and the device was
    /// notified.
    pub open spec fn submitted(self, offset: usize, buf: PhysBuf, write: bool) -> BlockView {
        let slot = self.next_slot();
        BlockView {
            requests: self.requests.update(slot, Request::spec_new(buf.addr, offset, write)),
            queue: self.queue.add_desc(self.request_addr(slot), HEADER_SIZE, DESC_F_NEXT).add_desc(
                buf.addr,
                buf.len,
                Self::data_flags(write),
            ).add_desc((self.request_addr(slot) + STATUS_OFFSET) as u64, 1, DESC_F_WRITE).publish(),
            header: VirtHeader { queue_notify: 0, ..self.header },
            ..self
        }
    }

    /// What is wrong with the oldest untaken completion, if anything: it names
    /// no slot of the table, or the status byte of its request is not 0.
    pub open spec fn front_failure(self) -> Option<InterruptError> {
        let elem = self.queue.front();
        if elem.id >= 128 {
            Some(InterruptError::Info(BAD_SLOT))
        } else if self.requests[elem.id as int].status != 0 {
            Some(InterruptError::NoInterrupt)
        } else {
            None
        }
    }

    /// The device after the oldest untaken completion was taken and the request
    /// that it names was signalled.
    pub open spec fn completed_one(self) -> BlockView {
        let elem = self.queue.front();
        BlockView {
            queue: self.queue.take(),
            requests: if elem.id < 128 {
                self.requests.update(
                    elem.id as int,
                    Request { waiting: false, ..self.requests[elem.id as int] },
                )
            } else {
                self.requests
            },
            ..self
        }
    }

    /// The device and the handler's answer after the completions were taken one
    /// by one, oldest first, up to the first that is at fault or, with none at
    /// fault, until nothing is pending.
    pub open spec fn drained(self) -> (BlockView, InterruptResult)
        decreases self.queue.pending(),
    {
        if !self.queue.is_pending() {
            (self, Ok(InterruptOk::Block))
        } else {
            match self.front_failure() {
                Some(e) => (self.completed_one(), Err(e)),
                None => self.completed_one().drained(),
            }
        }
    }

    /// The device and the handler's answer after one call of the handler.
    pub open spec fn handled(self) -> (BlockView, InterruptResult) {
        if !self.int {
            (self, Err(InterruptError::NoInterrupt))
        } else {
            (BlockView { int: false, ..self }).drained()
        }
    }

    /// The device after the device itself answered the request of slot `id`: it
    /// wrote the status byte, if there is such a slot, and reported `len` bytes
    /// on the used ring.
    pub open spec fn device_completed(self, id: u32, len: u32, status: u8) -> BlockView {
        BlockView {
            queue: self.queue.device_complete(crate::queue::UsedElem { id, len }),
            requests: if id < 128 {
                self.requests.update(id as int, Request { status, ..self.requests[id as int] })
            } else {
                self.requests
            },
            ..self
        }
    }
}

/// A block device: its registers, its one queue, and the pool of its requests.
pub struct Block {
    header: VirtHeader,
    queue: VirtQueue,
    request_pool: Pool<Request>,
    int: bool,
}

impl View for Block {
    type V = BlockView;

    closed spec fn view(&self) -> BlockView {
        BlockView {
            header: self.header,
            queue: self.queue@,
            requests: self.request_pool.entries(),
            pool_base: self.request_pool.base(),
            int: self.int,
        }
    }
}

impl Block {
    /// The device's state is consistent: the view is well formed, and the pool
    /// is laid out as the requests are.
    pub closed spec fn wf(&self) -> bool {
        &&& self@.wf()
        &&& self.request_pool.wf()
        &&& self.request_pool.stride() == REQUEST_STRIDE
    }

    /// A consistent device has a well-formed view.
    pub proof fn lemma_wf(&self)
        requires
            self.wf(),
        ensures
            self@.wf(),
    {
    }

    /// Brings the device up: negotiates the features, configures the ring of
    /// queue 0 with the table at `queue_addr`, and tells the device that the
    /// driver is ready. The requests will lie at `pool_addr`.
    pub fn new(header: VirtHeader, queue_addr: u64, pool_addr: u64) -> (r: Result<Block, SetupError>)
        ensures
            match r {
                Ok(b) => setup_failure(header, queue_addr, pool_addr) is None && b.wf() && b@
                    == BlockView::initial(header, queue_addr, pool_addr),
                Err(e) => setup_failure(header, queue_addr, pool_addr) == Some(e),
            },
    {
        let pfn = match page_frame(queue_addr) {
            Some(pfn) => pfn,
            None => {
                return Err(SetupError::Info(QUEUE_OUT_OF_REACH));
            },
        };
        if pool_addr > u64::MAX - 128 * (REQUEST_STRIDE as u64) {
            return Err(SetupError::Info(POOL_OUT_OF_REACH));
        }
        let mut header = header;
        match header.set_feature(BLOCK_FEATURES) {
            Err(e) => {
                return Err(e);
            },
            Ok(()) => {},
        }
        match header.configure_ring(0, VIRTIO_RING_SIZE as u32, crate::config::PAGE_SIZE as u32, pfn) {
            Err(e) => {
                return Err(e);
            },
            Ok(()) => {},
        }
        header.driver_ok();
        let b = Block {
            header,
            queue: VirtQueue::new(),
            request_pool: Pool::new(pool_addr, REQUEST_STRIDE, Request::default()),
            int: false,
        };
        assert(b@ =~= BlockView::initial(header, queue_addr, pool_addr));
        Ok(b)
    }

    /// Steps two to six of a synchronous request: takes the next slot, turns
    /// the request away if the slot still waits for a completion, and otherwise
    /// installs the request, builds and publishes its chain and notifies the
    /// device.
    fn submit(&mut self, offset: usize, buf: PhysBuf, write: bool) -> (r: Result<u16, IoError>)
        requires
            old(self).wf(),
        ensures
            final(self).wf(),
            match r {
                Ok(slot) => !old(self)@.collides() && slot == old(self)@.next_slot() && final(self)@
                    == old(self)@.submitted(offset, buf, write),
                Err(e) => old(self)@.collides() && e == IoError::RequestError && final(self)@
                    == old(self)@,
            },
    {
        let slot = self.queue.desc_idx();
        let idx = slot as usize;
        if self.request_pool.peek(idx).waiting {
            return Err(IoError::RequestError);
        }
        let head = self.request_pool.replace_u64(idx, Request::new(buf.addr, offset, write));
        let data_flags = if write {
            DESC_F_NEXT
        } else {
            DESC_F_NEXT | DESC_F_WRITE
        };
        assert(1u16 & 1u16 != 0 && (1u16 | 2u16) & 1u16 != 0 && 2u16 & 1u16 == 0) by (bit_vector);
        assert(idx * REQUEST_STRIDE <= 127 * REQUEST_STRIDE) by (nonlinear_arith)
            requires
                idx <= 127,
        ;
        self.queue.add_desc(head, HEADER_SIZE, DESC_F_NEXT);
        self.queue.add_desc(buf.addr, buf.len, data_flags);
        self.queue.add_desc(head + STATUS_OFFSET, 1, DESC_F_WRITE);
        self.queue.add_avail();
        self.header.notify(0);
        assert(self@ =~= old(self)@.submitted(offset, buf, write));
        Ok(slot)
    }

    /// Submits the request to write the buffer `buf` to the sector in which
    /// byte `offset` lies, and returns the slot on whose completion the caller
    /// is to wait. Where that slot still waits for an earlier completion, the
    /// request is turned away and nothing has changed.
    pub fn submit_write(&mut self, offset: usize, buf: PhysBuf) -> (r: Result<u16, IoError>)
        requires
            old(self).wf(),
        ensures
            final(self).wf(),
            match r {
                Ok(slot) => !old(self)@.collides() && slot == old(self)@.next_slot() && final(self)@
                    == old(self)@.submitted(offset, buf, true),
                Err(e) => old(self)@.collides() && e == IoError::RequestError && final(self)@
                    == old(self)@,
            },
    {
        self.submit(offset, buf, true)
    }

    /// Submits the request to read the sector in which byte `offset` lies into
    /// the buffer `buf`, and returns the slot on whose completion the caller is
    /// to wait. Where that slot still waits for an earlier completion, the
    /// request is turned away and nothing has changed.
    pub fn submit_read(&mut self, offset: usize, buf: PhysBuf) -> (r: Result<u16, IoError>)
        requires
            old(self).wf(),
        ensures
            final(self).wf(),
            match r {
                Ok(slot) => !old(self)@.collides() && slot == old(self)@.next_slot() && final(self)@
                    == old(self)@.submitted(offset, buf, false),
                Err(e) => old(self)@.collides() && e == IoError::RequestError && final(self)@
                    == old(self)@,
            },
    {
        self.submit(offset, buf, false)
    }

    /// The outcome of the request of `slot`, once its completion was signalled:
    /// the request went through if the device left 0 in its status byte.
    pub fn complete(&self, slot: u16) -> (r: IoResult)
        requires
            self.wf(),
        ensures
            r is Ok <==> slot < 128 && self@.requests[slot as int].status == 0,
            r is Err ==> r == Err::<(), IoError>(
                IoError::Info(
                    if slot < 128 {
                        DEVICE_FAILED
                    } else {
                        BAD_SLOT
                    },
                ),
            ),
    {
        if slot as usize >= VIRTIO_RING_SIZE {
            Err(IoError::Info(BAD_SLOT))
        } else if self.request_pool.peek(slot as usize).status != 0 {
            Err(IoError::Info(DEVICE_FAILED))
        } else {
            Ok(())
        }
    }

    /// The request of `slot`.
    pub fn request(&self, slot: u16) -> (rq: Request)
        requires
            self.wf(),
            slot < 128,
        ensures
            rq == self@.requests[slot as int],
    {
        *self.request_pool.peek(slot as usize)
    }

    /// The control registers.
    pub fn header(&self) -> (h: &VirtHeader)
        ensures
            *h == self@.header,
    {
        &self.header
    }

    /// The queue.
    pub fn queue(&self) -> (q: &VirtQueue)
        ensures
            q@ == self@.queue,
    {
        &self.queue
    }

    /// The device's half of a request, for a device that lives in this process:
    /// it writes `status` into the request of slot `id`, if there is such a
    /// slot, and reports `len` written bytes on the used ring.
    pub fn device_complete(&mut self, id: u32, len: u32, status: u8)
        requires
            old(self).wf(),
        ensures
            final(self).wf(),
            final(self)@ == old(self)@.device_completed(id, len, status),
    {
        if (id as usize) < VIRTIO_RING_SIZE {
            let rq = self.request_pool.get(id as usize);
            rq.status = status;
        }
        self.queue.device_complete(crate::queue::UsedElem { id, len });
        assert(self@ =~= old(self)@.device_completed(id, len, status));
    }
}

impl Driver for Block {
    open spec fn ready(&self) -> bool {
        self.wf()
    }

    /// Takes the completions that the device wrote, oldest first, and signals
    /// the request that each of them names. Without a recorded interrupt there
    /// is nothing to do, and the answer is `NoInterrupt`. A completion that
    /// names no slot, or whose request the device marked as failed, ends the
    /// call with an error; what was pending behind it stays pending.
    fn handler(&mut self) -> (r: InterruptResult)
        ensures
            (final(self)@, r) == old(self)@.handled(),
    {
        if !self.int {
            return Err(InterruptError::NoInterrupt);
        }
        self.int = false;
        let ghost start = self@;
        while self.queue.is_pending()
            invariant
                self.wf(),
                old(self)@.int,
                start == (BlockView { int: false, ..old(self)@ }),
                self@.drained() == start.drained(),
            decreases self@.queue.pending(),
        {
            let ghost before = self@;
            let elem = self.queue.next_elem();
            if elem.id as usize >= VIRTIO_RING_SIZE {
                assert(self@ =~= before.completed_one());
                return Err(InterruptError::Info(BAD_SLOT));
            }
            let rq = self.request_pool.get(elem.id as usize);
            rq.waiting = false;
            let status = rq.status;
            assert(self@ =~= before.completed_one());
            if status != 0 {
                return Err(InterruptError::NoInterrupt);
            }
        }
        Ok(InterruptOk::Block)
    }

    /// Records that the device's interrupt line fired.
    fn pending(&mut self) -> (r: InterruptResult)
        ensures
            final(self)@ == (BlockView { int: true, ..old(self)@ }),
            r == Ok::<InterruptOk, InterruptError>(InterruptOk::Block),
    {
        self.int = true;
        Ok(InterruptOk::Block)
    }
}

/// What a request gives to `add_desc`, descriptor by descriptor: the header for
/// the device to read, the data, and the status byte for the device to write.
pub open spec fn request_chain(b: BlockView, buf: PhysBuf, write: bool) -> Seq<DescArgs> {
    seq![
        (b.request_addr(b.next_slot()), HEADER_SIZE, DESC_F_NEXT),
        (buf.addr, buf.len, BlockView::data_flags(write)),
        ((b.request_addr(b.next_slot()) + STATUS_OFFSET) as u64, 1u32, DESC_F_WRITE),
    ]
}

/// A submitted request lies in the table as one chain of three descriptors from
/// the slot that was free on, each linked to the slot after it and the last
/// one ending the chain; the availability ring names the head, which is the
/// slot of the request in the pool; and nothing has become pending.
pub proof fn lemma_submitted_chain(b: BlockView, offset: usize, buf: PhysBuf, write: bool)
    requires
        b.wf(),
    ensures
        ({
            let a = b.submitted(offset, buf, write);
            let s = b.next_slot();
            &&& a.wf()
            &&& a.queue.desc[s] == (Descriptor {
                addr: b.request_addr(s),
                len: HEADER_SIZE,
                flags: DESC_F_NEXT,
                next: slot_at(s, 1) as u16,
            })
            &&& a.queue.desc[slot_at(s, 1)] == (Descriptor {
                addr: buf.addr,
                len: buf.len,
                flags: BlockView::data_flags(write),
                next: slot_at(s, 2) as u16,
            })
            &&& a.queue.desc[slot_at(s, 2)] == (Descriptor {
                addr: (b.request_addr(s) + STATUS_OFFSET) as u64,
                len: 1,
                flags: DESC_F_WRITE,
                next: 0,
            })
            &&& a.queue.avail_ring[b.queue.avail_idx as int % 128] == s
            &&& a.queue.avail_idx == (b.queue.avail_idx + 1) % 0x1_0000
            &&& a.queue.next_free == slot_at(s, 3)
            &&& a.queue.is_pending() == b.queue.is_pending()
            &&& a.requests[s] == Request::spec_new(buf.addr, offset, write)
            &&& a.requests[s].waiting
        }),
{
    let q = b.queue;
    let s = b.next_slot();
    let descs = request_chain(b, buf, write);
    assert(1u16 & 1u16 != 0 && (1u16 | 2u16) & 1u16 != 0 && 2u16 & 1u16 == 0) by (bit_vector);
    assert(build(q, descs) == q.add_desc(descs[0].0, descs[0].1, descs[0].2).add_desc(
        descs[1].0,
        descs[1].1,
        descs[1].2,
    ).add_desc(descs[2].0, descs[2].1, descs[2].2)) by {
        reveal_with_fuel(build, 4);
        assert(descs.drop_last().drop_last().drop_last() =~= Seq::<DescArgs>::empty());
        assert(descs.drop_last().last() == descs[1]);
        assert(descs.drop_last().drop_last().last() == descs[0]);
    }
    lemma_build_chain(q, descs);
    lemma_submit_chain(q, descs);
    crate::queue_laws::lemma_slot_at_step(s, 0);
    crate::queue_laws::lemma_slot_at_step(s, 1);
}

/// A handler that answers `Ok` has left nothing pending.
pub proof fn lemma_drained_ok_leaves_nothing(b: BlockView)
    requires
        b.drained().1 is Ok,
    ensures
        !b.drained().0.queue.is_pending(),
        b.drained().1 == Ok::<InterruptOk, InterruptError>(InterruptOk::Block),
    decreases b.queue.pending(),
{
    if b.queue.is_pending() {
        lemma_drained_ok_leaves_nothing(b.completed_one());
    }
}

/// Slot `s` is named by a completion that was not taken yet.
pub open spec fn names(q: QueueView, s: int) -> bool {
    exists|k: int| 0 <= k < q.pending() && (#[trigger] q.pending_entries()[k]).id == s
}

/// Every completion that was not taken yet names a slot of the table whose
/// request the device marked as done.
pub open spec fn all_done(b: BlockView) -> bool {
    forall|k: int|
        0 <= k < b.queue.pending() ==> {
            let elem = #[trigger] b.queue.pending_entries()[k];
            elem.id < 128 && b.requests[elem.id as int].status == 0
        }
}

/// What is left of `b` when every pending completion was taken and the request
/// that it names was signalled: the requests that are named no longer wait,
/// the consumer cursor has caught up with the device, and all else is as it
/// was.
pub open spec fn all_signalled(b: BlockView, r: BlockView) -> bool {
    &&& r.header == b.header
    &&& r.int == b.int
    &&& r.pool_base == b.pool_base
    &&& r.queue == (QueueView { last_used: b.queue.used_idx, ..b.queue })
    &&& r.requests.len() == b.requests.len()
    &&& forall|s: int|
        0 <= s < b.requests.len() ==> #[trigger] r.requests[s] == (if names(b.queue, s) {
            Request { waiting: false, ..b.requests[s] }
        } else {
            b.requests[s]
        })
}

/// Where every pending completion names a slot of the table whose request the
/// device marked as done, taking them leaves nothing pending and answers `Ok`;
/// each request that is named no longer waits, every other request and all of
/// the table, the availability ring and the driver's cursors for them are as
/// before.
pub proof fn lemma_drained_signals_all(b: BlockView)
    requires
        b.wf(),
        all_done(b),
    ensures
        b.drained().1 == Ok::<InterruptOk, InterruptError>(InterruptOk::Block),
        !b.drained().0.queue.is_pending(),
        all_signalled(b, b.drained().0),
    decreases b.queue.pending(),
{
    if !b.queue.is_pending() {
        assert(b.queue.pending() == 0);
        assert(b.queue =~= (QueueView { last_used: b.queue.used_idx, ..b.queue }));
    } else {
        let elem = b.queue.front();
        let c = b.completed_one();
        crate::queue_laws::lemma_take_removes_oldest(b.queue);
        assert(elem == b.queue.pending_entries()[0]);
        assert forall|k: int| 0 <= k < c.queue.pending() implies {
            let e = #[trigger] c.queue.pending_entries()[k];
            e.id < 128 && c.requests[e.id as int].status == 0
        } by {
            assert(c.queue.pending_entries()[k] == b.queue.pending_entries()[k + 1]);
        }
        lemma_drained_signals_all(c);
        let r = c.drained().0;
        assert(b.drained() == c.drained());
        assert(r.queue =~= (QueueView { last_used: b.queue.used_idx, ..b.queue }));
        assert forall|s: int| 0 <= s < b.requests.len() implies #[trigger] r.requests[s] == (if names(
            b.queue,
            s,
        ) {
            Request { waiting: false, ..b.requests[s] }
        } else {
            b.requests[s]
        }) by {
            if names(c.queue, s) {
                let k = choose|k: int|
                    0 <= k < c.queue.pending() && (#[trigger] c.queue.pending_entries()[k]).id == s;
                assert(b.queue.pending_entries()[k + 1].id == s);
            }
            if names(b.queue, s) && s != elem.id {
                let k = choose|k: int|
                    0 <= k < b.queue.pending() && (#[trigger] b.queue.pending_entries()[k]).id == s;
                assert(k > 0);
                assert(c.queue.pending_entries()[k - 1].id == s);
            }
        }
    }
}

/// After a recorded interrupt, with every pending completion naming a slot of
/// the table whose request the device marked as done, the handler answers
/// `Ok(Block)`, leaves nothing pending, has signalled each request that was
/// named and no other, and has changed neither the descriptor table nor the
/// availability ring nor the registers.
pub proof fn lemma_handler_signals_all(b: BlockView)
    requires
        b.wf(),
        b.int,
        all_done(b),
    ensures
        b.handled().1 == Ok::<InterruptOk, InterruptError>(InterruptOk::Block),
        !b.handled().0.queue.is_pending(),
        !b.handled().0.int,
        all_signalled(BlockView { int: false, ..b }, b.handled().0),
        b.handled().0.queue.desc == b.queue.desc,
        b.handled().0.queue.avail_ring == b.queue.avail_ring,
        b.handled().0.queue.avail_idx == b.queue.avail_idx,
        b.handled().0.queue.next_free == b.queue.next_free,
        b.handled().0.header == b.header,
{
    lemma_drained_signals_all(BlockView { int: false, ..b });
}

/// With one completion pending, for a request that the device marked as done,
/// the handler signals that request and no other, takes that one completion,
/// and leaves nothing pending.
pub proof fn lemma_one_completion_signals_once(b: BlockView)
    requires
        b.wf(),
        b.int,
        b.queue.pending() == 1,
        b.queue.front().id < 128,
        b.requests[b.queue.front().id as int].status == 0,
    ensures
        b.handled().1 == Ok::<InterruptOk, InterruptError>(InterruptOk::Block),
        !b.handled().0.queue.is_pending(),
        b.handled().0.queue.last_used == (b.queue.last_used + 1) % 0x1_0000,
        !b.handled().0.int,
        b.handled().0.requests == b.requests.update(
            b.queue.front().id as int,
            Request { waiting: false, ..b.requests[b.queue.front().id as int] },
        ),
        b.handled().0.header == b.header,
        !(BlockView { int: true, ..b.handled().0 }).handled().0.queue.is_pending(),
        (BlockView { int: true, ..b.handled().0 }).handled().0.requests == b.handled().0.requests,
{
    let c = BlockView { int: false, ..b };
    assert(c.queue.is_pending());
    let d = c.completed_one();
    assert(!d.queue.is_pending());
    assert(c.drained() == d.drained());
    assert(d.drained() == (d, Ok::<InterruptOk, InterruptError>(InterruptOk::Block)));
    let e = BlockView { int: true, ..d };
    assert((BlockView { int: false, ..e }) =~= d);
}

} // verus!
