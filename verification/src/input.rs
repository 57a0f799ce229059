//! Input front end: keyboard, mouse and tablet events.
use crate::config::{frame_of, page_frame, InterruptError, InterruptOk, SetupError};
use crate::header::VirtHeader;
use crate::pool::Pool;
use crate::queue::{
    Descriptor, QueueView, UsedElem, VirtQueue, DESC_F_WRITE, VIRTIO_F_RING_EVENT_IDX,
    VIRTIO_RING_SIZE,
};
use crate::queue_laws::{
    lemma_submit_singles_cursors, lemma_submit_singles_desc, lemma_submit_singles_ring, slot_at,
    submit_singles, DescArgs,
};
use crate::require::Driver;
use crate::InterruptResult;
use vstd::prelude::*;

verus! {

/// Bytes of one event on the wire.
pub const EVENT_SIZE: u32 = 8;

/// Buffers that the driver keeps posted for the device to write events into.
pub const EVENT_BUFFER_SIZE: usize = 128;

/// The features that the input driver asks for: all but the event index.
pub const INPUT_FEATURES: u32 = !(1u32 << VIRTIO_F_RING_EVENT_IDX);

pub const BAD_SLOT: &'static str = "the used ring names a slot outside the table";

pub const NO_BUFFER: &'static str = "the descriptor names no event buffer";

pub const QUEUE_OUT_OF_REACH: &'static str = "a queue lies beyond the page frame register";

pub const BUFFER_OUT_OF_REACH: &'static str = "the event buffers do not fit in the address space";

/// The range of an absolute axis, as the device's configuration gives it.
#[derive(Clone, Copy, Debug, PartialEq, Eq, Structural)]
pub struct InputABSInfo {
    pub min: u32,
    pub max: u32,
    pub fuzz: u32,
    pub flat: u32,
    pub res: u32,
}

#[derive(Clone, Copy, Debug, PartialEq, Eq, Structural)]
pub enum EventType {
    Syn,
    Key,
    Rel,
    Abs,
    Msc,
    Sw,
    Led,
    Snd,
    Rep,
    Ff,
    Pwr,
    FfStatus,
    Max,
}

impl EventType {
    pub open spec fn spec_val16(self) -> u16 {
        match self {
            EventType::Syn => 0x00,
            EventType::Key => 0x01,
            EventType::Rel => 0x02,
            EventType::Abs => 0x03,
            EventType::Msc => 0x04,
            EventType::Sw => 0x05,
            EventType::Led => 0x11,
            EventType::Snd => 0x12,
            EventType::Rep => 0x14,
            EventType::Ff => 0x15,
            EventType::Pwr => 0x16,
            EventType::FfStatus => 0x17,
            EventType::Max => 0x1f,
        }
    }

    /// The number that stands for this type on the wire.
    #[verifier::when_used_as_spec(spec_val16)]
    pub fn val16(self) -> (v: u16)
        ensures
            v == self.spec_val16(),
    {
        match self {
            EventType::Syn => 0x00,
            EventType::Key => 0x01,
            EventType::Rel => 0x02,
            EventType::Abs => 0x03,
            EventType::Msc => 0x04,
            EventType::Sw => 0x05,
            EventType::Led => 0x11,
            EventType::Snd => 0x12,
            EventType::Rep => 0x14,
            EventType::Ff => 0x15,
            EventType::Pwr => 0x16,
            EventType::FfStatus => 0x17,
            EventType::Max => 0x1f,
        }
    }

    /// The type that `v` stands for on the wire, if it stands for one.
    pub fn from16(v: u16) -> (t: Option<Self>)
        ensures
            match t {
                Some(e) => e.spec_val16() == v,
                None => forall|e: EventType| e.spec_val16() != v,
            },
    {
        match v {
            0x00 => Some(EventType::Syn),
            0x01 => Some(EventType::Key),
            0x02 => Some(EventType::Rel),
            0x03 => Some(EventType::Abs),
            0x04 => Some(EventType::Msc),
            0x05 => Some(EventType::Sw),
            0x11 => Some(EventType::Led),
            0x12 => Some(EventType::Snd),
            0x14 => Some(EventType::Rep),
            0x15 => Some(EventType::Ff),
            0x16 => Some(EventType::Pwr),
            0x17 => Some(EventType::FfStatus),
            0x1f => Some(EventType::Max),
            _ => None,
        }
    }
}

/// One event as the device writes it into an event buffer.
#[derive(Clone, Copy, Debug, PartialEq, Eq, Structural)]
pub struct InputEvent {
    pub etype: EventType,
    pub code: u16,
    pub value: u32,
}

impl InputEvent {
    /// The event that says nothing: the content of a buffer that the device has
    /// not written, and what the handler passes over.
    pub open spec fn blank() -> InputEvent {
        InputEvent { etype: EventType::Syn, code: 0, value: 0 }
    }

    /// Whether the handler passes over this event.
    pub open spec fn is_empty(self) -> bool {
        self.code == 0 && self.value == 0
    }
}

/// What an input device is, as mathematics.
#[verifier::ext_equal]
pub struct InputView {
    pub header: VirtHeader,
    /// Queue 0: the device writes events into the buffers posted there.
    pub events: QueueView,
    /// Queue 1: the status queue.
    pub status: QueueView,
    pub buffers: Seq<InputEvent>,
    pub buffer_base: u64,
}

/// Why an input device with these registers, queues and buffers cannot be
/// brought up, if anything.
pub open spec fn setup_failure(
    header: VirtHeader,
    event_queue_addr: u64,
    status_queue_addr: u64,
    buffer_addr: u64,
) -> Option<SetupError> {
    if frame_of(event_queue_addr) > u32::MAX || frame_of(status_queue_addr) > u32::MAX {
        Some(SetupError::Info(QUEUE_OUT_OF_REACH))
    } else if buffer_addr + 128 * EVENT_SIZE > u64::MAX {
        Some(SetupError::Info(BUFFER_OUT_OF_REACH))
    } else if !header.latches_features() {
        Some(SetupError::FeatureFail)
    } else if header.queue_num_max < 128 {
        Some(SetupError::RingSizeTooSmall)
    } else {
        None
    }
}

impl InputView {
    pub open spec fn wf(self) -> bool {
        &&& self.events.wf()
        &&& self.events.chain_len == 0
        &&& self.status.wf()
        &&& self.buffers.len() == 128
        &&& self.buffer_base + 128 * EVENT_SIZE <= u64::MAX
    }

    /// The address of event buffer `idx`.
    pub open spec fn buffer_addr(self, idx: int) -> u64 {
        (self.buffer_base + idx * EVENT_SIZE) as u64
    }

    /// The buffer that lies at `addr`, if one does.
    pub open spec fn buffer_at(self, addr: u64) -> Option<int> {
        if addr >= self.buffer_base && (addr - self.buffer_base) % 8 == 0 && (addr
            - self.buffer_base) / 8 < 128 {
            Some((addr - self.buffer_base) / 8)
        } else {
            None
        }
    }

    /// The device after buffer `idx % 128` was posted: a chain of one
    /// descriptor that the device may write, published at once.
    pub open spec fn filled(self, idx: int) -> InputView {
        InputView {
            events: self.events.add_desc(self.buffer_addr(idx % 128), EVENT_SIZE, DESC_F_WRITE).publish(),
            ..self
        }
    }

    /// The device after the buffers `0` to `n - 1` were posted in turn.
    pub open spec fn filled_upto(self, n: nat) -> InputView
        decreases n,
    {
        if n == 0 {
            self
        } else {
            self.filled_upto((n - 1) as nat).filled(n - 1)
        }
    }

    /// The device right after it was brought up, with every buffer posted.
    pub open spec fn initial(
        header: VirtHeader,
        event_queue_addr: u64,
        status_queue_addr: u64,
        buffer_addr: u64,
    ) -> InputView {
        Self::configured(header, event_queue_addr, status_queue_addr, buffer_addr).filled_upto(128)
    }

    /// The device after the handshake, before any buffer is posted.
    pub open spec fn configured(
        header: VirtHeader,
        event_queue_addr: u64,
        status_queue_addr: u64,
        buffer_addr: u64,
    ) -> InputView {
        InputView {
            header: header.negotiated(INPUT_FEATURES).ring_configured(
                0,
                128,
                4096,
                frame_of(event_queue_addr) as u32,
            ).ring_configured(
                1,
                128,
                4096,
                frame_of(status_queue_addr) as u32,
            ).driver_ready(),
            events: QueueView::fresh(),
            status: QueueView::fresh(),
            buffers: Seq::new(128, |i: int| InputEvent::blank()),
            buffer_base: buffer_addr,
        }
    }

    /// What the completion `elem` of queue `q` carries: the event in the buffer
    /// that the descriptor of its slot names.
    pub open spec fn event_of(self, q: QueueView, elem: UsedElem) -> Result<InputEvent, InterruptError> {
        if elem.id >= 128 {
            Err(InterruptError::Info(BAD_SLOT))
        } else {
            match self.buffer_at(q.desc[elem.id as int].addr) {
                None => Err(InterruptError::Info(NO_BUFFER)),
                Some(i) => Ok(self.buffers[i]),
            }
        }
    }

    /// The device and the handler's answer after the events were taken one by
    /// one, oldest first, each buffer posted again under the number of its
    /// slot, up to the first event that is not empty.
    pub open spec fn polled(self) -> (InputView, InterruptResult)
        decreases self.events.pending(),
    {
        if !self.events.is_pending() {
            (self, Ok(InterruptOk::Null))
        } else {
            let elem = self.events.front();
            let taken = InputView { events: self.events.take(), ..self };
            match self.event_of(self.events, elem) {
                Err(e) => (taken, Err(e)),
                Ok(event) => {
                    let posted = taken.filled(elem.id as int);
                    if event.is_empty() {
                        posted.polled()
                    } else {
                        (posted, Ok(InterruptOk::Input(event)))
                    }
                },
            }
        }
    }

    /// The device and the answer after the status queue was looked at: nothing
    /// is taken while events are pending; else the oldest status completion is
    /// taken and its event handed out; with nothing pending at all there was no
    /// interrupt.
    pub open spec fn status_polled(self) -> (InputView, InterruptResult) {
        if self.events.is_pending() {
            (self, Ok(InterruptOk::Null))
        } else if self.status.is_pending() {
            let elem = self.status.front();
            let taken = InputView { status: self.status.take(), ..self };
            match self.event_of(self.status, elem) {
                Err(e) => (taken, Err(e)),
                Ok(event) => (taken, Ok(InterruptOk::Input(event))),
            }
        } else {
            (self, Err(InterruptError::NoInterrupt))
        }
    }

    /// The device after the device itself wrote `event` into the buffer that
    /// the descriptor of `slot` names, if it names one, and reported the slot
    /// on the used ring of the event queue.
    pub open spec fn device_wrote(self, slot: u32, event: InputEvent) -> InputView {
        let target = if slot < 128 {
            self.buffer_at(self.events.desc[slot as int].addr)
        } else {
            None
        };
        InputView {
            events: self.events.device_complete(UsedElem { id: slot, len: EVENT_SIZE }),
            buffers: match target {
                Some(i) => self.buffers.update(i, event),
                None => self.buffers,
            },
            ..self
        }
    }
}

/// What posting the buffers `0` to `n - 1` gives to `add_desc`, buffer by
/// buffer.
pub open spec fn posts(base: u64, n: nat) -> Seq<DescArgs> {
    Seq::new(n, |i: int| ((base + i * EVENT_SIZE) as u64, EVENT_SIZE, DESC_F_WRITE))
}

/// Posting the first `n` buffers is publishing `n` chains of one descriptor
/// each on the event queue, and touches nothing else.
pub proof fn lemma_filled_upto(v: InputView, n: nat)
    requires
        n <= 128,
    ensures
        v.filled_upto(n) == (InputView {
            events: submit_singles(v.events, posts(v.buffer_base, n)),
            ..v
        }),
    decreases n,
{
    if n > 0 {
        let m = (n - 1) as nat;
        lemma_filled_upto(v, m);
        assert(posts(v.buffer_base, n).drop_last() =~= posts(v.buffer_base, m));
        assert(v.filled_upto(m).buffer_addr(m as int % 128) == posts(v.buffer_base, n).last().0);
    }
}

/// A device that was just brought up has posted every buffer: slot `i` of the
/// event queue names buffer `i`, for the device to write, the availability ring
/// names the slots 0 to 127 in this order, and nothing is pending.
pub proof fn lemma_initial_posts_every_buffer(
    header: VirtHeader,
    event_queue_addr: u64,
    status_queue_addr: u64,
    buffer_addr: u64,
)
    requires
        buffer_addr + 128 * EVENT_SIZE <= u64::MAX,
    ensures
        ({
            let v = InputView::initial(header, event_queue_addr, status_queue_addr, buffer_addr);
            &&& v.wf()
            &&& v.events.avail_idx == 128
            &&& v.events.next_free == 0
            &&& !v.events.is_pending()
            &&& !v.status.is_pending()
            &&& forall|i: int| 0 <= i < 128 ==> #[trigger] v.events.avail_ring[i] == i
            &&& forall|i: int|
                0 <= i < 128 ==> #[trigger] v.events.desc[i] == (Descriptor {
                    addr: (buffer_addr + i * EVENT_SIZE) as u64,
                    len: EVENT_SIZE,
                    flags: DESC_F_WRITE,
                    next: 0,
                })
            &&& forall|i: int| 0 <= i < 128 ==> #[trigger] v.buffers[i] == InputEvent::blank()
        }),
{
    let v = InputView::initial(header, event_queue_addr, status_queue_addr, buffer_addr);
    let start = InputView::configured(header, event_queue_addr, status_queue_addr, buffer_addr);
    let bufs = posts(buffer_addr, 128);
    assert(2u16 & 1u16 == 0) by (bit_vector);
    crate::queue_laws::lemma_fresh_wf();
    lemma_filled_upto(start, 128);
    lemma_submit_singles_cursors(start.events, bufs);
    assert(slot_at(0, 128) == 0);
    assert forall|i: int| 0 <= i < 128 implies #[trigger] v.events.avail_ring[i] == i by {
        lemma_submit_singles_ring(start.events, bufs, i);
        assert(slot_at(0, i) == i);
    }
    assert forall|i: int| 0 <= i < 128 implies #[trigger] v.events.desc[i] == (Descriptor {
        addr: (buffer_addr + i * EVENT_SIZE) as u64,
        len: EVENT_SIZE,
        flags: DESC_F_WRITE,
        next: 0,
    }) by {
        lemma_submit_singles_desc(start.events, bufs, i);
        assert(slot_at(0, i) == i);
    }
}

/// An input device: its registers, its two queues, and the buffers that the
/// device writes events into.
pub struct InputDevice {
    buffer: Pool<InputEvent>,
    event_queue: VirtQueue,
    status_queue: VirtQueue,
    header: VirtHeader,
}

impl View for InputDevice {
    type V = InputView;

    closed spec fn view(&self) -> InputView {
        InputView {
            header: self.header,
            events: self.event_queue@,
            status: self.status_queue@,
            buffers: self.buffer.entries(),
            buffer_base: self.buffer.base(),
        }
    }
}

impl InputDevice {
    /// The device's state is consistent.
    pub closed spec fn wf(&self) -> bool {
        &&& self@.wf()
        &&& self.buffer.wf()
        &&& self.buffer.stride() == EVENT_SIZE
    }

    /// A consistent device has a well-formed view.
    pub proof fn lemma_wf(&self)
        requires
            self.wf(),
        ensures
            self@.wf(),
    {
    }

    /// Brings the device up: negotiates the features, configures the event
    /// queue (queue 0) and the status queue (queue 1), tells the device that
    /// the driver is ready, and posts every event buffer.
    pub fn new(header: VirtHeader, event_queue_addr: u64, status_queue_addr: u64, buffer_addr: u64) -> (r:
        Result<InputDevice, SetupError>)
        ensures
            match r {
                Ok(d) => setup_failure(header, event_queue_addr, status_queue_addr, buffer_addr)
                    is None && d.wf() && d@ == InputView::initial(
                    header,
                    event_queue_addr,
                    status_queue_addr,
                    buffer_addr,
                ),
                Err(e) => setup_failure(header, event_queue_addr, status_queue_addr, buffer_addr)
                    == Some(e),
            },
    {
        let eq = page_frame(event_queue_addr);
        let sq = page_frame(status_queue_addr);
        if eq.is_none() || sq.is_none() {
            return Err(SetupError::Info(QUEUE_OUT_OF_REACH));
        }
        if buffer_addr > u64::MAX - 128 * (EVENT_SIZE as u64) {
            return Err(SetupError::Info(BUFFER_OUT_OF_REACH));
        }
        let ghost old_header = header;
        let mut header = header;
        match header.set_feature(INPUT_FEATURES) {
            Err(e) => {
                return Err(e);
            },
            Ok(()) => {},
        }
        match header.configure_ring(0, VIRTIO_RING_SIZE as u32, crate::config::PAGE_SIZE as u32, eq.unwrap()) {
            Err(e) => {
                return Err(e);
            },
            Ok(()) => {},
        }
        match header.configure_ring(1, VIRTIO_RING_SIZE as u32, crate::config::PAGE_SIZE as u32, sq.unwrap()) {
            Err(e) => {
                return Err(e);
            },
            Ok(()) => {},
        }
        header.driver_ok();
        let mut d = InputDevice {
            buffer: Pool::new(
                buffer_addr,
                EVENT_SIZE,
                InputEvent { etype: EventType::Syn, code: 0, value: 0 },
            ),
            event_queue: VirtQueue::new(),
            status_queue: VirtQueue::new(),
            header,
        };
        let ghost start = d@;
        assert(start =~= InputView::configured(
            old_header,
            event_queue_addr,
            status_queue_addr,
            buffer_addr,
        ));
        let mut i: usize = 0;
        while i < EVENT_BUFFER_SIZE
            invariant
                i <= EVENT_BUFFER_SIZE,
                d.wf(),
                d@ == start.filled_upto(i as nat),
            decreases EVENT_BUFFER_SIZE - i,
        {
            d.fill_event(i);
            i += 1;
        }
        Ok(d)
    }

    /// Posts event buffer `buffer_idx % 128` for the device to write into.
    fn fill_event(&mut self, buffer_idx: usize)
        requires
            old(self).wf(),
        ensures
            final(self).wf(),
            final(self)@ == old(self)@.filled(buffer_idx as int),
    {
        let addr = self.buffer.addr(buffer_idx % EVENT_BUFFER_SIZE);
        assert(2u16 & 1u16 == 0) by (bit_vector);
        self.event_queue.add_desc(addr, EVENT_SIZE, DESC_F_WRITE);
        self.event_queue.add_avail();
        assert(self@ =~= old(self)@.filled(buffer_idx as int));
    }

    /// The event that the completion `elem` of `queue` carries.
    fn read_event(&self, queue: &VirtQueue, elem: UsedElem) -> (r: Result<InputEvent, InterruptError>)
        requires
            self.wf(),
        ensures
            r == self@.event_of(queue@, elem),
    {
        if elem.id as usize >= VIRTIO_RING_SIZE {
            return Err(InterruptError::Info(BAD_SLOT));
        }
        let addr = queue.desc()[elem.id as usize].addr;
        match self.buffer.index_of(addr) {
            None => Err(InterruptError::Info(NO_BUFFER)),
            Some(i) => Ok(*self.buffer.peek(i)),
        }
    }

    /// The control registers.
    pub fn header(&self) -> (h: &VirtHeader)
        ensures
            *h == self@.header,
    {
        &self.header
    }

    /// The event queue.
    pub fn event_queue(&self) -> (q: &VirtQueue)
        ensures
            q@ == self@.events,
    {
        &self.event_queue
    }

    /// The status queue.
    pub fn status_queue(&self) -> (q: &VirtQueue)
        ensures
            q@ == self@.status,
    {
        &self.status_queue
    }

    /// The device's half of an event, for a device that lives in this process:
    /// it writes `event` into the buffer that the descriptor of `slot` names,
    /// and reports the slot on the used ring of the event queue.
    pub fn device_event(&mut self, slot: u32, event: InputEvent)
        requires
            old(self).wf(),
        ensures
            final(self).wf(),
            final(self)@ == old(self)@.device_wrote(slot, event),
    {
        if (slot as usize) < VIRTIO_RING_SIZE {
            let addr = self.event_queue.desc()[slot as usize].addr;
            match self.buffer.index_of(addr) {
                Some(i) => {
                    let entry = self.buffer.get(i);
                    *entry = event;
                },
                None => {},
            }
        }
        self.event_queue.device_complete(UsedElem { id: slot, len: EVENT_SIZE });
        assert(self@ =~= old(self)@.device_wrote(slot, event));
    }

    /// The device's half of a status report, for a device that lives in this
    /// process: it reports `elem` on the used ring of the status queue.
    pub fn device_status(&mut self, elem: UsedElem)
        requires
            old(self).wf(),
        ensures
            final(self).wf(),
            final(self)@ == (InputView { status: old(self)@.status.device_complete(elem), ..old(self)@ }),
    {
        self.status_queue.device_complete(elem);
        assert(self@ =~= (InputView { status: old(self)@.status.device_complete(elem), ..old(self)@ }));
    }
}

impl Driver for InputDevice {
    open spec fn ready(&self) -> bool {
        self.wf()
    }

    /// Hands out the next event that says something. Every completion taken on
    /// the way has its buffer posted again; empty events are passed over. With
    /// nothing left to take the answer is `Null`.
    fn handler(&mut self) -> (r: InterruptResult)
        ensures
            (final(self)@, r) == old(self)@.polled(),
    {
        while self.event_queue.is_pending()
            invariant
                self.wf(),
                self@.polled() == old(self)@.polled(),
            decreases self@.events.pending(),
        {
            let ghost before = self@;
            let elem = self.event_queue.next_elem();
            let event = match self.read_event(&self.event_queue, elem) {
                Err(e) => {
                    assert(self@ =~= (InputView { events: before.events.take(), ..before }));
                    return Err(e);
                },
                Ok(event) => event,
            };
            self.fill_event(elem.id as usize);
            assert(self@ =~= (InputView { events: before.events.take(), ..before }).filled(
                elem.id as int,
            ));
            if event.code == 0 && event.value == 0 {
                continue ;
            }
            return Ok(InterruptOk::Input(event));
        }
        Ok(InterruptOk::Null)
    }

    /// Looks after the status queue; see `InputView::status_polled`.
    fn pending(&mut self) -> (r: InterruptResult)
        ensures
            (final(self)@, r) == old(self)@.status_polled(),
    {
        if self.event_queue.is_pending() {
            Ok(InterruptOk::Null)
        } else if self.status_queue.is_pending() {
            let elem = self.status_queue.next_elem();
            assert(self@ =~= (InputView { status: old(self)@.status.take(), ..old(self)@ }));
            match self.read_event(&self.status_queue, elem) {
                Err(e) => Err(e),
                Ok(event) => Ok(InterruptOk::Input(event)),
            }
        } else {
            Err(InterruptError::NoInterrupt)
        }
    }
}

} // verus!
