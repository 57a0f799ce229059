//! Network front end: a receive queue, a send queue, and the device's address.
use crate::config::{frame_of, page_frame, InterruptError, InterruptOk, PhysBuf, SetupError};
use crate::header::VirtHeader;
use crate::pool::Pool;
use crate::queue::{QueueView, VirtQueue, DESC_F_NEXT, DESC_F_WRITE, VIRTIO_RING_SIZE};
use crate::require::Driver;
use crate::InterruptResult;
use vstd::prelude::*;

verus! {

/// Bytes of the header that goes before every packet.
pub const NET_HEADER_SIZE: u32 = 12;

/// The features that the network driver asks for.
pub const NET_FEATURES: u32 = !22u32;

pub const QUEUE_OUT_OF_REACH: &'static str = "a queue lies beyond the page frame register";

pub const POOL_OUT_OF_REACH: &'static str = "the packet headers do not fit in the address space";

/// Feature bits of the network device.
#[derive(Clone, Copy, Debug, PartialEq, Eq, Structural)]
pub enum Feature {
    MQ,
}

impl Feature {
    pub open spec fn spec_v(self) -> u32 {
        22
    }

    /// The number of the feature.
    #[verifier::when_used_as_spec(spec_v)]
    pub fn v(self) -> (n: u32)
        ensures
            n == self.spec_v(),
    {
        match self {
            Feature::MQ => 22,
        }
    }
}

/// The header that goes before every packet.
#[derive(Clone, Copy, Debug, Default, PartialEq, Eq, Structural)]
pub struct NetHeader {
    pub ntype: u8,
    pub len: u16,
    pub size: u16,
    pub csum_start: u16,
    pub csum_offset: u16,
    pub num_buffer: u16,
}

/// The device's own configuration space.
#[derive(Clone, Copy, Debug, PartialEq, Eq)]
pub struct Config {
    pub mac: [u8; 6],
    pub status: u16,
    pub max_queue_pairs: u16,
    pub mtu: u16,
}

/// The number that the six bytes of a hardware address spell, first byte
/// first.
pub open spec fn mac_value(mac: Seq<u8>) -> int {
    mac[0] * 0x100_0000_0000 + mac[1] * 0x1_0000_0000 + mac[2] * 0x100_0000 + mac[3] * 0x1_0000
        + mac[4] * 0x100 + mac[5]
}

/// What a network device is, as mathematics.
#[verifier::ext_equal]
pub struct NetView {
    pub header: VirtHeader,
    /// Queue 0.
    pub receive: QueueView,
    /// Queue 1.
    pub send: QueueView,
    pub send_headers: Seq<NetHeader>,
    pub send_base: u64,
    pub receive_headers: Seq<NetHeader>,
    pub receive_base: u64,
    pub mac: Seq<u8>,
}

/// Why a network device with these registers, queues and pools cannot be
/// brought up, if anything.
pub open spec fn setup_failure(
    header: VirtHeader,
    receive_addr: u64,
    send_addr: u64,
    receive_pool_addr: u64,
    send_pool_addr: u64,
) -> Option<SetupError> {
    if frame_of(receive_addr) > u32::MAX || frame_of(send_addr) > u32::MAX {
        Some(SetupError::Info(QUEUE_OUT_OF_REACH))
    } else if receive_pool_addr + 128 * NET_HEADER_SIZE > u64::MAX || send_pool_addr + 128
        * NET_HEADER_SIZE > u64::MAX {
        Some(SetupError::Info(POOL_OUT_OF_REACH))
    } else if !header.latches_features() {
        Some(SetupError::FeatureFail)
    } else if header.queue_num_max < 128 {
        Some(SetupError::RingSizeTooSmall)
    } else {
        None
    }
}

impl NetView {
    pub open spec fn wf(self) -> bool {
        &&& self.receive.wf()
        &&& self.send.wf()
        &&& self.send.chain_len == 0
        &&& self.send_headers.len() == 128
        &&& self.receive_headers.len() == 128
        &&& self.send_base + 128 * NET_HEADER_SIZE <= u64::MAX
        &&& self.receive_base + 128 * NET_HEADER_SIZE <= u64::MAX
        &&& self.mac.len() == 6
    }

    /// The device right after it was brought up.
    pub open spec fn initial(
        header: VirtHeader,
        receive_addr: u64,
        send_addr: u64,
        receive_pool_addr: u64,
        send_pool_addr: u64,
        config: Config,
    ) -> NetView {
        NetView {
            header: header.negotiated(NET_FEATURES).ring_configured(
                0,
                128,
                4096,
                frame_of(receive_addr) as u32,
            ).ring_configured(
                1,
                128,
                4096,
                frame_of(send_addr) as u32,
            ).driver_ready(),
            receive: QueueView::fresh(),
            send: QueueView::fresh(),
            send_headers: Seq::new(128, |i: int| NetHeader { ntype: 0, len: 0, size: 0, csum_start: 0, csum_offset: 0, num_buffer: 0 }),
            send_base: send_pool_addr,
            receive_headers: Seq::new(128, |i: int| NetHeader { ntype: 0, len: 0, size: 0, csum_start: 0, csum_offset: 0, num_buffer: 0 }),
            receive_base: receive_pool_addr,
            mac: config.mac@,
        }
    }

    /// The device after a packet was handed to it: a chain of the packet header
    /// of the next slot and the packet itself on the send queue, published, and
    /// the device notified of queue 1.
    pub open spec fn sent(self, buf: PhysBuf) -> NetView {
        let slot = self.send.next_free as int;
        NetView {
            send: self.send.add_desc(
                (self.send_base + slot * NET_HEADER_SIZE) as u64,
                NET_HEADER_SIZE,
                DESC_F_NEXT,
            ).add_desc(buf.addr, buf.len, DESC_F_WRITE).publish(),
            header: VirtHeader { queue_notify: 1, ..self.header },
            ..self
        }
    }
}

/// A network device: its registers, its two queues, and a packet header for
/// each slot of either queue.
pub struct Net {
    receive: VirtQueue,
    send: VirtQueue,
    header: VirtHeader,
    send_header: Pool<NetHeader>,
    receive_header: Pool<NetHeader>,
    config: Config,
}

impl View for Net {
    type V = NetView;

    closed spec fn view(&self) -> NetView {
        NetView {
            header: self.header,
            receive: self.receive@,
            send: self.send@,
            send_headers: self.send_header.entries(),
            send_base: self.send_header.base(),
            receive_headers: self.receive_header.entries(),
            receive_base: self.receive_header.base(),
            mac: self.config.mac@,
        }
    }
}

impl Net {
    /// The device's state is consistent.
    pub closed spec fn wf(&self) -> bool {
        &&& self@.wf()
        &&& self.send_header.wf()
        &&& self.send_header.stride() == NET_HEADER_SIZE
        &&& self.receive_header.wf()
        &&& self.receive_header.stride() == NET_HEADER_SIZE
    }

    /// A consistent device has a well-formed view.
    pub proof fn lemma_wf(&self)
        requires
            self.wf(),
        ensures
            self@.wf(),
    {
    }

    /// Brings the device up: negotiates the features, configures the receive
    /// queue (queue 0) and the send queue (queue 1), and tells the device that
    /// the driver is ready. `config` is what the device's configuration space
    /// holds.
    pub fn new(
        header: VirtHeader,
        receive_addr: u64,
        send_addr: u64,
        receive_pool_addr: u64,
        send_pool_addr: u64,
        config: Config,
    ) -> (r: Result<Net, SetupError>)
        ensures
            match r {
                Ok(n) => setup_failure(header, receive_addr, send_addr, receive_pool_addr, send_pool_addr)
                    is None && n.wf() && n@ == NetView::initial(
                    header,
                    receive_addr,
                    send_addr,
                    receive_pool_addr,
                    send_pool_addr,
                    config,
                ),
                Err(e) => setup_failure(header, receive_addr, send_addr, receive_pool_addr, send_pool_addr)
                    == Some(e),
            },
    {
        let rq = page_frame(receive_addr);
        let sq = page_frame(send_addr);
        if rq.is_none() || sq.is_none() {
            return Err(SetupError::Info(QUEUE_OUT_OF_REACH));
        }
        let limit: u64 = u64::MAX - 128 * (NET_HEADER_SIZE as u64);
        if receive_pool_addr > limit || send_pool_addr > limit {
            return Err(SetupError::Info(POOL_OUT_OF_REACH));
        }
        let mut header = header;
        match header.set_feature(NET_FEATURES) {
            Err(e) => {
                return Err(e);
            },
            Ok(()) => {},
        }
        match header.configure_ring(0, VIRTIO_RING_SIZE as u32, crate::config::PAGE_SIZE as u32, rq.unwrap()) {
            Err(e) => {
                return Err(e);
            },
            Ok(()) => {},
        }
        match header.configure_ring(1, VIRTIO_RING_SIZE as u32, crate::config::PAGE_SIZE as u32, sq.unwrap()) {
            Err(e) => {
                return Err(e);
            },
            Ok(()) => {},
        }
        header.driver_ok();
        let blank = NetHeader { ntype: 0, len: 0, size: 0, csum_start: 0, csum_offset: 0, num_buffer: 0 };
        let n = Net {
            receive: VirtQueue::new(),
            send: VirtQueue::new(),
            header,
            send_header: Pool::new(send_pool_addr, NET_HEADER_SIZE, blank),
            receive_header: Pool::new(receive_pool_addr, NET_HEADER_SIZE, blank),
            config,
        };
        assert(n@ =~= NetView::initial(
            header,
            receive_addr,
            send_addr,
            receive_pool_addr,
            send_pool_addr,
            config,
        ));
        Ok(n)
    }

    /// Hands the packet in `buf` to the device: the packet header of the next
    /// slot and the packet form one chain on the send queue.
    pub fn send(&mut self, buf: PhysBuf)
        requires
            old(self).wf(),
        ensures
            final(self).wf(),
            final(self)@ == old(self)@.sent(buf),
    {
        let slot = self.send.desc_idx() as usize;
        let head = self.send_header.addr(slot);
        assert(1u16 & 1u16 != 0 && 2u16 & 1u16 == 0) by (bit_vector);
        self.send.add_desc(head, NET_HEADER_SIZE, DESC_F_NEXT);
        self.send.add_desc(buf.addr, buf.len, DESC_F_WRITE);
        self.send.add_avail();
        self.header.notify(1);
        assert(self@ =~= old(self)@.sent(buf));
    }

    /// The device's hardware address as one number, first byte first, as far as
    /// it fits the machine word.
    pub fn mac(&self) -> (m: usize)
        requires
            self.wf(),
        ensures
            m == mac_value(self@.mac) % (usize::MAX + 1),
    {
        let mut mac: u64 = 0;
        let mut i: usize = 0;
        let ghost bytes = self.config.mac@;
        while i < 6
            invariant
                i <= 6,
                bytes == self.config.mac@,
                bytes.len() == 6,
                mac == mac_prefix(bytes, i as int),
                mac < pow256(i as int),
            decreases 6 - i,
        {
            let byte = self.config.mac[i] as u64;
            assert((mac << 8) | byte == mac * 256 + byte) by (bit_vector)
                requires
                    mac < 0x1_0000_0000_0000,
                    byte < 256,
            ;
            mac = (mac << 8) | byte;
            i += 1;
        }
        assert(mac == mac_value(bytes)) by {
            reveal_with_fuel(mac_prefix, 7);
        }
        low_word(mac)
    }

    /// The control registers.
    pub fn header(&self) -> (h: &VirtHeader)
        ensures
            *h == self@.header,
    {
        &self.header
    }

    /// The send queue.
    pub fn send_queue(&self) -> (q: &VirtQueue)
        ensures
            q@ == self@.send,
    {
        &self.send
    }

    /// The receive queue.
    pub fn receive_queue(&self) -> (q: &VirtQueue)
        ensures
            q@ == self@.receive,
    {
        &self.receive
    }
}

/// 256 to the power of `n`, for the six bytes of an address.
pub open spec fn pow256(n: int) -> int {
    if n <= 0 {
        1
    } else if n == 1 {
        0x100
    } else if n == 2 {
        0x1_0000
    } else if n == 3 {
        0x100_0000
    } else if n == 4 {
        0x1_0000_0000
    } else if n == 5 {
        0x100_0000_0000
    } else {
        0x1_0000_0000_0000
    }
}

/// The number that the first `n` bytes spell, first byte first.
pub open spec fn mac_prefix(mac: Seq<u8>, n: int) -> int
    decreases n,
{
    if n <= 0 {
        0
    } else {
        mac_prefix(mac, n - 1) * 256 + mac[n - 1]
    }
}

/// The part of `x` that fits the machine word.
fn low_word(x: u64) -> (w: usize)
    ensures
        w == (x as int) % (usize::MAX + 1),
{
    if x <= usize::MAX as u64 {
        assert((x as int) % (usize::MAX + 1) == x) by (nonlinear_arith)
            requires
                0 <= x <= usize::MAX,
        ;
        x as usize
    } else {
        (x % (usize::MAX as u64 + 1)) as usize
    }
}

impl Driver for Net {
    open spec fn ready(&self) -> bool {
        self.wf()
    }

    /// The network device has nothing to take on an interrupt.
    fn handler(&mut self) -> (r: InterruptResult)
        ensures
            final(self)@ == old(self)@,
            r == Ok::<InterruptOk, InterruptError>(InterruptOk::Net),
    {
        Ok(InterruptOk::Net)
    }

    fn pending(&mut self) -> (r: InterruptResult)
        ensures
            final(self)@ == old(self)@,
            r == Ok::<InterruptOk, InterruptError>(InterruptOk::Net),
    {
        Ok(InterruptOk::Net)
    }
}

} // verus!
