//! The ring transport: descriptor table, availability ring and used ring, with the
//! cursors that the driver keeps for itself.
use vstd::prelude::*;

verus! {

/// Slots in the descriptor table, and entries in each ring.
pub const VIRTIO_RING_SIZE: usize = 128;

pub const VIRTIO_F_RING_EVENT_IDX: u32 = 29;

/// Descriptor flag: the chain goes on at `next`.
pub const DESC_F_NEXT: u16 = 1;

/// Descriptor flag: the device writes the buffer (otherwise it only reads it).
pub const DESC_F_WRITE: u16 = 2;

/// Descriptor flag: the buffer holds a table of further descriptors.
pub const DESC_F_INDIRECT: u16 = 4;

/// Request kinds and feature bits of the block device.
#[derive(Clone, Copy, Debug, PartialEq, Eq, Structural)]
pub enum BlockFlag {
    In,
    Out,
    Flush,
    Discard,
    WriteZeros,
    ReadOnly,
}

impl BlockFlag {
    pub open spec fn spec_val32(self) -> u32 {
        match self {
            BlockFlag::In => 0,
            BlockFlag::Out => 1,
            BlockFlag::Flush => 4,
            BlockFlag::Discard => 11,
            BlockFlag::WriteZeros => 13,
            BlockFlag::ReadOnly => 5,
        }
    }

    /// The number that stands for this flag on the wire.
    #[verifier::when_used_as_spec(spec_val32)]
    pub fn val32(self) -> (v: u32)
        ensures
            v == self.spec_val32(),
    {
        match self {
            BlockFlag::In => 0,
            BlockFlag::Out => 1,
            BlockFlag::Flush => 4,
            BlockFlag::Discard => 11,
            BlockFlag::WriteZeros => 13,
            BlockFlag::ReadOnly => 5,
        }
    }
}

#[derive(Clone, Copy, Debug, PartialEq, Eq, Structural)]
pub enum DescFlag {
    Next,
    Write,
    Indirect,
}

impl DescFlag {
    pub open spec fn spec_val16(self) -> u16 {
        match self {
            DescFlag::Next => DESC_F_NEXT,
            DescFlag::Write => DESC_F_WRITE,
            DescFlag::Indirect => DESC_F_INDIRECT,
        }
    }

    /// The bit that stands for this flag in a descriptor.
    #[verifier::when_used_as_spec(spec_val16)]
    pub fn val16(self) -> (v: u16)
        ensures
            v == self.spec_val16(),
    {
        match self {
            DescFlag::Next => DESC_F_NEXT,
            DescFlag::Write => DESC_F_WRITE,
            DescFlag::Indirect => DESC_F_INDIRECT,
        }
    }
}

/// One slot of the descriptor table: a buffer in guest-physical memory and the
/// link to the slot that continues the chain.
#[derive(Clone, Copy, Debug, PartialEq, Eq, Structural)]
pub struct Descriptor {
    pub addr: u64,
    pub len: u32,
    pub flags: u16,
    pub next: u16,
}

/// The ring on which the driver publishes chain heads.
#[derive(Clone, Copy, Debug)]
pub struct Available {
    pub flags: u16,
    pub idx: u16,
    pub ring: [u16; VIRTIO_RING_SIZE],
    pub event: u16,
}

/// The ring on which the device reports the chains it is done with.
#[derive(Clone, Copy, Debug)]
pub struct Used {
    pub flags: u16,
    pub idx: u16,
    pub ring: [UsedElem; VIRTIO_RING_SIZE],
    pub event: u16,
}

/// One completion: the head slot of the chain and the bytes the device wrote.
#[derive(Clone, Copy, Debug, PartialEq, Eq, Structural)]
pub struct UsedElem {
    pub id: u32,
    pub len: u32,
}

/// The header that opens a block request.
#[derive(Clone, Copy, Debug, PartialEq, Eq, Structural)]
pub struct Header {
    pub blktype: BlockFlag,
    pub reserved: u32,
    pub sector: u64,
}

impl Header {
    pub fn default() -> (h: Self)
        ensures
            h == (Header { blktype: BlockFlag::In, reserved: 0, sector: 0 }),
    {
        Header { blktype: BlockFlag::In, reserved: 0, sector: 0 }
    }
}

/// Whether a descriptor with these flags is followed by another one.
pub open spec fn has_next(flags: u16) -> bool {
    flags & DESC_F_NEXT != 0
}

/// The slot after `slot`, going round the table.
pub open spec fn slot_after(slot: int) -> int {
    (slot + 1) % 128
}

/// The link that a descriptor written at `slot` with `flags` carries.
pub open spec fn link_of(slot: int, flags: u16) -> u16 {
    if has_next(flags) {
        slot_after(slot) as u16
    } else {
        0
    }
}

/// What a queue is, as mathematics: the three shared structures and the driver's
/// own cursors.
#[verifier::ext_equal]
pub struct QueueView {
    pub desc: Seq<Descriptor>,
    pub avail_flags: u16,
    pub avail_idx: u16,
    pub avail_ring: Seq<u16>,
    pub avail_event: u16,
    pub used_flags: u16,
    pub used_idx: u16,
    pub used_ring: Seq<UsedElem>,
    pub used_event: u16,
    /// The slot that the next descriptor goes to.
    pub next_free: u16,
    /// Descriptors in the chain under construction: those added since a chain
    /// was last published or ended.
    pub chain_len: nat,
    /// Completions taken so far, modulo 2^16.
    pub last_used: u16,
}

impl QueueView {
    /// A queue that nothing has touched yet.
    pub open spec fn fresh() -> QueueView {
        QueueView {
            desc: Seq::new(128, |i: int| Descriptor { addr: 0, len: 0, flags: 0, next: 0 }),
            avail_flags: 0,
            avail_idx: 0,
            avail_ring: Seq::new(128, |i: int| 0u16),
            avail_event: 0,
            used_flags: 0,
            used_idx: 0,
            used_ring: Seq::new(128, |i: int| UsedElem { id: 0, len: 0 }),
            used_event: 0,
            next_free: 0,
            chain_len: 0,
            last_used: 0,
        }
    }

    /// The slot where the chain under construction starts. With no chain begun
    /// this is the free slot, at which the next chain will start.
    pub open spec fn head(self) -> int {
        (self.next_free + 128 - self.chain_len) % 128
    }

    /// The slot of the `i`-th descriptor of the chain under construction.
    pub open spec fn chain_slot(self, i: int) -> int {
        (self.head() + i) % 128
    }

    /// The `i`-th descriptor of the chain under construction links to the slot
    /// after its own, and every one but the last says that the chain goes on.
    pub open spec fn linked_at(self, i: int) -> bool {
        let d = self.desc[self.chain_slot(i)];
        &&& d.next == link_of(self.chain_slot(i), d.flags)
        &&& i < self.chain_len - 1 ==> has_next(d.flags)
    }

    /// Every descriptor of the chain under construction is linked as it should.
    #[verifier::opaque]
    pub open spec fn chain_linked(self) -> bool {
        forall|i: int| 0 <= i < self.chain_len ==> #[trigger] self.linked_at(i)
    }

    pub open spec fn wf(self) -> bool {
        &&& self.desc.len() == 128
        &&& self.avail_ring.len() == 128
        &&& self.used_ring.len() == 128
        &&& self.next_free < 128
        &&& self.chain_len <= 128
        &&& self.chain_linked()
    }

    /// The chain under construction has a descriptor, and its last one says that
    /// another follows.
    pub open spec fn chain_open(self) -> bool {
        self.chain_len > 0 && has_next(self.desc[self.chain_slot(self.chain_len - 1)].flags)
    }

    /// The chain under construction has a descriptor, and its last one ends it.
    pub open spec fn chain_complete(self) -> bool {
        self.chain_len > 0 && !has_next(self.desc[self.chain_slot(self.chain_len - 1)].flags)
    }

    /// A descriptor may be added: the chain that it would join is shorter than
    /// the table. Behind a chain that was ended, or with none begun, there is
    /// always room.
    pub open spec fn can_add(self) -> bool {
        self.chain_len < 128 || !self.chain_open()
    }

    /// Descriptors in the chain under construction once one more is added: it
    /// joins the chain that is open, and where none is open it begins a chain
    /// of its own, whether the chain before it was published or not.
    pub open spec fn grown_len(self) -> nat {
        if self.chain_open() {
            self.chain_len + 1
        } else {
            1
        }
    }

    pub open spec fn add_desc(self, addr: u64, len: u32, flag: u16) -> QueueView {
        QueueView {
            desc: self.desc.update(
                self.next_free as int,
                Descriptor { addr, len, flags: flag, next: link_of(self.next_free as int, flag) },
            ),
            next_free: slot_after(self.next_free as int) as u16,
            chain_len: self.grown_len(),
            ..self
        }
    }

    pub open spec fn publish(self) -> QueueView {
        QueueView {
            avail_ring: self.avail_ring.update(self.avail_idx as int % 128, self.head() as u16),
            avail_idx: self.avail_idx.wrapping_add(1),
            chain_len: 0,
            ..self
        }
    }

    /// The last slot of the chain that starts at `slot`: the first descriptor on
    /// the way along the links that does not say that the chain goes on. There
    /// is none where a link leads out of the table, or where more than `fuel`
    /// descriptors would have to be followed, as in a chain that runs in a
    /// circle.
    pub open spec fn tail_of(self, slot: int, fuel: nat) -> Option<int>
        decreases fuel,
    {
        if fuel == 0 || !(0 <= slot < 128) {
            None
        } else if !has_next(self.desc[slot].flags) {
            Some(slot)
        } else {
            self.tail_of(self.desc[slot].next as int, (fuel - 1) as nat)
        }
    }

    pub open spec fn is_pending(self) -> bool {
        self.last_used != self.used_idx
    }

    /// Completions that the device has written and the driver has not taken.
    pub open spec fn pending(self) -> int {
        (self.used_idx - self.last_used) % 0x1_0000
    }

    /// The completion that the driver takes next.
    pub open spec fn front(self) -> UsedElem {
        self.used_ring[self.last_used as int % 128]
    }

    /// The untaken completions, oldest first.
    pub open spec fn pending_entries(self) -> Seq<UsedElem> {
        Seq::new(self.pending() as nat, |k: int| self.used_ring[(self.last_used + k) % 128])
    }

    pub open spec fn take(self) -> QueueView {
        QueueView { last_used: self.last_used.wrapping_add(1), ..self }
    }

    /// The device's half of a completion: it writes the entry, then moves its
    /// index on.
    pub open spec fn device_complete(self, elem: UsedElem) -> QueueView {
        QueueView {
            used_ring: self.used_ring.update(self.used_idx as int % 128, elem),
            used_idx: self.used_idx.wrapping_add(1),
            ..self
        }
    }
}

/// Adding a descriptor keeps the chain linked. The chain that was open goes on
/// from its head; with none open the new descriptor is the head of its own.
pub proof fn lemma_add_desc_wf(q: QueueView, addr: u64, len: u32, flag: u16)
    requires
        q.wf(),
        q.can_add(),
    ensures
        q.add_desc(addr, len, flag).wf(),
        q.add_desc(addr, len, flag).chain_len == q.grown_len(),
        q.add_desc(addr, len, flag).head() == (if q.chain_open() {
            q.head()
        } else {
            q.next_free as int
        }),
        q.add_desc(addr, len, flag).chain_open() == has_next(flag),
        q.add_desc(addr, len, flag).chain_complete() == !has_next(flag),
{
    reveal(QueueView::chain_linked);
    let r = q.add_desc(addr, len, flag);
    if q.chain_open() {
        assert(r.head() == q.head());
        assert forall|i: int| 0 <= i < r.chain_len implies #[trigger] r.linked_at(i) by {
            if i < q.chain_len {
                assert(q.linked_at(i));
                assert(r.chain_slot(i) == q.chain_slot(i));
                assert(q.chain_slot(i) != q.next_free);
            } else {
                assert(r.chain_slot(i) == q.next_free);
            }
        }
    } else {
        assert(r.head() == q.next_free);
        assert forall|i: int| 0 <= i < r.chain_len implies #[trigger] r.linked_at(i) by {
            assert(r.chain_slot(i) == q.next_free);
        }
    }
    assert(r.chain_slot(r.chain_len - 1) == q.next_free);
}

/// A change that leaves the descriptor table and the chain under construction
/// alone keeps the chain linked.
pub proof fn lemma_same_chain_linked(q: QueueView, r: QueueView)
    requires
        q.chain_linked(),
        r.desc == q.desc,
        r.next_free == q.next_free,
        r.chain_len == q.chain_len,
    ensures
        r.chain_linked(),
{
    reveal(QueueView::chain_linked);
    assert forall|i: int| 0 <= i < r.chain_len implies #[trigger] r.linked_at(i) by {
        assert(q.linked_at(i));
    }
}

/// A queue with no chain under construction has nothing to link.
pub proof fn lemma_empty_chain_linked(q: QueueView)
    requires
        q.chain_len == 0,
    ensures
        q.chain_linked(),
{
    reveal(QueueView::chain_linked);
}

/// A chain's last slot is a slot of the table.
pub proof fn lemma_tail_in_table(q: QueueView, slot: int, fuel: nat)
    ensures
        q.tail_of(slot, fuel) is Some ==> 0 <= q.tail_of(slot, fuel)->0 < 128,
    decreases fuel,
{
    if fuel > 0 && 0 <= slot < 128 && has_next(q.desc[slot].flags) {
        lemma_tail_in_table(q, q.desc[slot].next as int, (fuel - 1) as nat);
    }
}

/// Where a chain ends depends on the descriptor table alone.
pub proof fn lemma_tail_same_table(q: QueueView, r: QueueView, slot: int, fuel: nat)
    requires
        q.desc == r.desc,
    ensures
        q.tail_of(slot, fuel) == r.tail_of(slot, fuel),
    decreases fuel,
{
    if fuel > 0 && 0 <= slot < 128 && has_next(q.desc[slot].flags) {
        lemma_tail_same_table(q, r, q.desc[slot].next as int, (fuel - 1) as nat);
    }
}

/// The transport of one queue. The three shared structures are laid out as the
/// device reads them; the cursors are the driver's own.
pub struct VirtQueue {
    desc: [Descriptor; VIRTIO_RING_SIZE],
    avail: Available,
    used: Used,
    desc_idx: u16,
    used_idx: u16,
    chain_len: u16,
}

impl View for VirtQueue {
    type V = QueueView;

    closed spec fn view(&self) -> QueueView {
        QueueView {
            desc: self.desc@,
            avail_flags: self.avail.flags,
            avail_idx: self.avail.idx,
            avail_ring: self.avail.ring@,
            avail_event: self.avail.event,
            used_flags: self.used.flags,
            used_idx: self.used.idx,
            used_ring: self.used.ring@,
            used_event: self.used.event,
            next_free: self.desc_idx,
            chain_len: self.chain_len as nat,
            last_used: self.used_idx,
        }
    }
}

impl VirtQueue {
    /// A queue that nothing has touched yet: every ring is zero, nothing is
    /// pending, and the first chain starts at slot 0.
    pub fn new() -> (q: Self)
        ensures
            q@ == QueueView::fresh(),
            q@.wf(),
    {
        let q = VirtQueue {
            desc: [Descriptor { addr: 0, len: 0, flags: 0, next: 0 }; VIRTIO_RING_SIZE],
            avail: Available { flags: 0, idx: 0, ring: [0u16; VIRTIO_RING_SIZE], event: 0 },
            used: Used {
                flags: 0,
                idx: 0,
                ring: [UsedElem { id: 0, len: 0 }; VIRTIO_RING_SIZE],
                event: 0,
            },
            desc_idx: 0,
            used_idx: 0,
            chain_len: 0,
        };
        proof {
            lemma_empty_chain_linked(QueueView::fresh());
        }
        assert(q@ =~= QueueView::fresh());
        q
    }

    /// Writes one descriptor at the next free slot. With `DESC_F_NEXT` in `flag`
    /// it is linked to the slot after it; without, its link is 0 and the chain
    /// ends with it. It continues the chain under construction while that is
    /// open, and begins a new chain otherwise.
    pub fn add_desc(&mut self, addr: u64, len: u32, flag: u16)
        requires
            old(self)@.wf(),
            old(self)@.can_add(),
        ensures
            final(self)@ == old(self)@.add_desc(addr, len, flag),
            final(self)@.wf(),
            final(self)@.chain_len == old(self)@.grown_len(),
            final(self)@.chain_open() == has_next(flag),
            final(self)@.chain_complete() == !has_next(flag),
    {
        proof {
            lemma_add_desc_wf(self@, addr, len, flag);
        }
        let slot = self.desc_idx;
        let open = self.chain_open();
        let after: u16 = (slot + 1) % 128;
        let next: u16 = if flag & DESC_F_NEXT == 0 {
            0
        } else {
            after
        };
        self.desc[slot as usize] = Descriptor { addr, len, flags: flag, next };
        self.desc_idx = after;
        self.chain_len = if open {
            self.chain_len + 1
        } else {
            1
        };
        assert(self@ =~= old(self)@.add_desc(addr, len, flag));
    }

    /// Publishes the chain just built: its head slot goes on the availability
    /// ring at the producer index, which then moves on by one.
    pub fn add_avail(&mut self)
        requires
            old(self)@.wf(),
            old(self)@.chain_complete(),
        ensures
            final(self)@ == old(self)@.publish(),
            final(self)@.wf(),
    {
        let len = self.chain_len;
        let head: u16 = ((self.desc_idx + 128 - len) % 128) as u16;
        self.avail.ring[self.avail.idx as usize % VIRTIO_RING_SIZE] = head;
        self.avail.idx = self.avail.idx.wrapping_add(1);
        self.chain_len = 0;
        proof {
            lemma_empty_chain_linked(old(self)@.publish());
        }
        assert(self@ =~= old(self)@.publish());
    }

    /// Whether the device has written a completion that was not taken yet.
    pub fn is_pending(&self) -> (b: bool)
        ensures
            b == self@.is_pending(),
    {
        self.used_idx != self.used.idx
    }

    /// Takes the oldest untaken completion off the used ring.
    pub fn next_elem(&mut self) -> (elem: UsedElem)
        requires
            old(self)@.wf(),
            old(self)@.is_pending(),
        ensures
            elem == old(self)@.front(),
            final(self)@ == old(self)@.take(),
            final(self)@.wf(),
    {
        let elem = self.used.ring[self.used_idx as usize % VIRTIO_RING_SIZE];
        self.used_idx = self.used_idx.wrapping_add(1);
        assert(self@ =~= old(self)@.take());
        proof {
            lemma_same_chain_linked(old(self)@, self@);
        }
        elem
    }

    /// The slot that the next descriptor goes to. Before a chain is begun this is
    /// the slot of the chain's head, and so of its entry in the slot pool.
    pub fn desc_idx(&self) -> (slot: u16)
        requires
            self@.wf(),
        ensures
            slot == self@.next_free,
            slot < VIRTIO_RING_SIZE,
    {
        self.desc_idx
    }

    /// Descriptors in the chain under construction.
    pub fn chain_len(&self) -> (n: u16)
        requires
            self@.wf(),
        ensures
            n == self@.chain_len,
    {
        self.chain_len
    }

    /// Whether the chain under construction waits for its next descriptor.
    pub fn chain_open(&self) -> (b: bool)
        requires
            self@.wf(),
        ensures
            b == self@.chain_open(),
    {
        if self.chain_len == 0 {
            false
        } else {
            let last: usize = (self.desc_idx as usize + 127) % VIRTIO_RING_SIZE;
            self.desc[last].flags & DESC_F_NEXT != 0
        }
    }

    /// Whether a descriptor may be added now: the chain that it would join is
    /// shorter than the table.
    pub fn can_add(&self) -> (b: bool)
        requires
            self@.wf(),
        ensures
            b == self@.can_add(),
    {
        self.chain_len < 128 || !self.chain_open()
    }

    /// Whether the chain under construction may be published.
    pub fn chain_complete(&self) -> (b: bool)
        requires
            self@.wf(),
        ensures
            b == self@.chain_complete(),
    {
        if self.chain_len == 0 {
            false
        } else {
            let last: usize = (self.desc_idx as usize + 127) % VIRTIO_RING_SIZE;
            self.desc[last].flags & DESC_F_NEXT == 0
        }
    }

    /// The last slot of the chain that starts at `head`, found by following
    /// the links through at most 128 descriptors.
    pub fn chain_tail(&self, head: u16) -> (tail: Option<u16>)
        requires
            self@.wf(),
        ensures
            match tail {
                Some(t) => self@.tail_of(head as int, 128) == Some(t as int),
                None => self@.tail_of(head as int, 128) is None,
            },
    {
        let mut slot = head;
        let mut fuel: u16 = 128;
        while fuel > 0
            invariant
                self@.wf(),
                fuel <= 128,
                self@.tail_of(slot as int, fuel as nat) == self@.tail_of(head as int, 128),
            decreases fuel,
        {
            if slot as usize >= VIRTIO_RING_SIZE {
                return None;
            }
            let d = self.desc[slot as usize];
            if d.flags & DESC_F_NEXT == 0 {
                return Some(slot);
            }
            slot = d.next;
            fuel -= 1;
        }
        None
    }

    /// The descriptor table.
    pub fn desc(&self) -> (table: &[Descriptor; VIRTIO_RING_SIZE])
        ensures
            table@ == self@.desc,
    {
        &self.desc
    }

    /// The availability ring.
    pub fn avail(&self) -> (ring: &Available)
        ensures
            ring.flags == self@.avail_flags,
            ring.idx == self@.avail_idx,
            ring.ring@ == self@.avail_ring,
            ring.event == self@.avail_event,
    {
        &self.avail
    }

    /// The used ring.
    pub fn used(&self) -> (ring: &Used)
        ensures
            ring.flags == self@.used_flags,
            ring.idx == self@.used_idx,
            ring.ring@ == self@.used_ring,
            ring.event == self@.used_event,
    {
        &self.used
    }

    /// The device's half of a completion, for a device that lives in this
    /// process: the entry is written at the device's index, which then moves on.
    pub fn device_complete(&mut self, elem: UsedElem)
        requires
            old(self)@.wf(),
        ensures
            final(self)@ == old(self)@.device_complete(elem),
            final(self)@.wf(),
    {
        self.used.ring[self.used.idx as usize % VIRTIO_RING_SIZE] = elem;
        self.used.idx = self.used.idx.wrapping_add(1);
        assert(self@ =~= old(self)@.device_complete(elem));
        proof {
            lemma_same_chain_linked(old(self)@, self@);
        }
    }
}

} // verus!
