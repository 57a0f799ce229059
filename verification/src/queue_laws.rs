//! What holds of every queue, whatever was done to it before: proved over the
//! mathematical view of the queue.
use crate::queue::{has_next, link_of, Descriptor, QueueView, UsedElem};
use vstd::prelude::*;

verus! {

/// What one call of `add_desc` is given: address, length and flags.
pub type DescArgs = (u64, u32, u16);

/// The descriptors form one chain: every one but the last says that the chain
/// goes on, and the last one ends it.
pub open spec fn is_chain(descs: Seq<DescArgs>) -> bool {
    &&& 1 <= descs.len() <= 128
    &&& forall|i: int| 0 <= i < descs.len() - 1 ==> has_next(#[trigger] descs[i].2)
    &&& !has_next(descs[descs.len() - 1].2)
}

/// The slot `k` places after `first`, going round the table.
pub open spec fn slot_at(first: int, k: int) -> int {
    (first + k) % 128
}

/// The queue after `add_desc` was called for each of `descs` in turn.
pub open spec fn build(q: QueueView, descs: Seq<DescArgs>) -> QueueView
    decreases descs.len(),
{
    if descs.len() == 0 {
        q
    } else {
        let d = descs.last();
        build(q, descs.drop_last()).add_desc(d.0, d.1, d.2)
    }
}

/// The queue after each of `bufs` was added as a chain of its own and published.
pub open spec fn submit_singles(q: QueueView, bufs: Seq<DescArgs>) -> QueueView
    decreases bufs.len(),
{
    if bufs.len() == 0 {
        q
    } else {
        let d = bufs.last();
        submit_singles(q, bufs.drop_last()).add_desc(d.0, d.1, d.2).publish()
    }
}

/// The queue after the device completed each of `elems` in turn.
pub open spec fn device_completes(q: QueueView, elems: Seq<UsedElem>) -> QueueView
    decreases elems.len(),
{
    if elems.len() == 0 {
        q
    } else {
        device_completes(q, elems.drop_last()).device_complete(elems.last())
    }
}

/// The queue after the driver took `n` completions.
pub open spec fn take_n(q: QueueView, n: nat) -> QueueView
    decreases n,
{
    if n == 0 {
        q
    } else {
        take_n(q, (n - 1) as nat).take()
    }
}

/// The completions that `n` calls of `next_elem` return, in the order of the
/// calls.
pub open spec fn taken(q: QueueView, n: nat) -> Seq<UsedElem>
    decreases n,
{
    if n == 0 {
        Seq::empty()
    } else {
        taken(q, (n - 1) as nat).push(take_n(q, (n - 1) as nat).front())
    }
}

/// Going one place further round the table is going to the slot after.
pub proof fn lemma_slot_at_step(first: int, k: int)
    requires
        0 <= first < 128,
        0 <= k,
    ensures
        0 <= slot_at(first, k) < 128,
        slot_at(first, 0) == first,
        slot_at(first, k + 1) == crate::queue::slot_after(slot_at(first, k)),
{
}

/// Fewer than 128 places apart, two slots differ.
pub proof fn lemma_slots_differ(first: int, j: int, k: int)
    requires
        0 <= j < k < j + 128,
    ensures
        slot_at(first, j) != slot_at(first, k),
{
}

/// What `build` leaves alone: the rings and the consumer cursor.
pub open spec fn same_rings(q: QueueView, r: QueueView) -> bool {
    &&& r.avail_flags == q.avail_flags
    &&& r.avail_idx == q.avail_idx
    &&& r.avail_ring == q.avail_ring
    &&& r.avail_event == q.avail_event
    &&& r.used_flags == q.used_flags
    &&& r.used_idx == q.used_idx
    &&& r.used_ring == q.used_ring
    &&& r.used_event == q.used_event
    &&& r.last_used == q.last_used
}

/// While a chain is built on a queue on which no chain is open, the
/// descriptors go to consecutive slots from the head on, each linked to the slot
/// after its own as long as it carries the continuation flag, and the chain
/// stays open until a descriptor without that flag ends it.
pub proof fn lemma_build_chain(q: QueueView, descs: Seq<DescArgs>)
    requires
        q.wf(),
        !q.chain_open(),
        descs.len() <= 128,
        forall|i: int| 0 <= i < descs.len() - 1 ==> has_next(#[trigger] descs[i].2),
    ensures
        build(q, descs).wf(),
        descs.len() > 0 ==> build(q, descs).chain_len == descs.len(),
        descs.len() > 0 ==> build(q, descs).head() == q.next_free,
        build(q, descs).next_free == slot_at(q.next_free as int, descs.len() as int),
        forall|i: int|
            0 <= i < descs.len() ==> #[trigger] build(q, descs).desc[slot_at(q.next_free as int, i)]
                == (Descriptor {
                addr: descs[i].0,
                len: descs[i].1,
                flags: descs[i].2,
                next: link_of(slot_at(q.next_free as int, i), descs[i].2),
            }),
        same_rings(q, build(q, descs)),
    decreases descs.len(),
{
    let first = q.next_free as int;
    if descs.len() == 0 {
    } else {
        let front = descs.drop_last();
        let d = descs.last();
        let n = front.len() as int;
        let p = build(q, front);
        assert forall|i: int| 0 <= i < front.len() - 1 implies has_next(#[trigger] front[i].2) by {
            assert(front[i] == descs[i]);
        }
        lemma_build_chain(q, front);
        lemma_slot_at_step(first, n);
        assert(p.can_add() && (n > 0 ==> p.chain_open())) by {
            if n > 0 {
                assert(p.chain_slot(n - 1) == slot_at(first, n - 1));
                assert(p.desc[slot_at(first, n - 1)].flags == front[n - 1].2);
                assert(front[n - 1] == descs[n - 1]);
            }
        }
        crate::queue::lemma_add_desc_wf(p, d.0, d.1, d.2);
        let r = p.add_desc(d.0, d.1, d.2);
        assert(build(q, descs) == r);
        assert forall|i: int| 0 <= i < descs.len() implies #[trigger] r.desc[slot_at(first, i)] == (
        Descriptor {
            addr: descs[i].0,
            len: descs[i].1,
            flags: descs[i].2,
            next: link_of(slot_at(first, i), descs[i].2),
        }) by {
            if i < n {
                lemma_slots_differ(first, i, n);
                assert(front[i] == descs[i]);
                assert(p.desc[slot_at(first, i)] == r.desc[slot_at(first, i)]);
            }
        }
    }
}

/// A chain built from descriptors of which all but the last carry the
/// continuation flag starts at the slot that was free before, each descriptor
/// but the last links to the slot of the one after it, and the last one carries
/// no continuation flag: the chain may be published.
pub proof fn lemma_chain_links(q: QueueView, descs: Seq<DescArgs>)
    requires
        q.wf(),
        !q.chain_open(),
        is_chain(descs),
    ensures
        build(q, descs).wf(),
        build(q, descs).chain_complete(),
        build(q, descs).head() == q.next_free,
        forall|i: int|
            0 <= i < descs.len() - 1 ==> (#[trigger] build(q, descs).desc[slot_at(
                q.next_free as int,
                i,
            )]).next == slot_at(q.next_free as int, i + 1),
        !has_next(build(q, descs).desc[slot_at(q.next_free as int, descs.len() - 1)].flags),
        build(q, descs).desc[slot_at(q.next_free as int, descs.len() - 1)].next == 0,
{
    lemma_build_chain(q, descs);
    let first = q.next_free as int;
    let r = build(q, descs);
    let k = descs.len() - 1;
    assert(r.chain_slot(k) == slot_at(first, k));
    assert(r.desc[slot_at(first, k)].flags == descs[k].2);
    assert forall|i: int| 0 <= i < descs.len() - 1 implies (#[trigger] r.desc[slot_at(
        first,
        i,
    )]).next == slot_at(first, i + 1) by {
        assert(has_next(descs[i].2));
        lemma_slot_at_step(first, i);
    }
}

/// Following the links from the `i`-th descriptor of a chain that was built
/// leads through the descriptors behind it to the last one and stops there,
/// within as many steps as descriptors are left.
pub proof fn lemma_built_chain_tail_from(q: QueueView, descs: Seq<DescArgs>, i: int, fuel: nat)
    requires
        q.wf(),
        !q.chain_open(),
        is_chain(descs),
        0 <= i < descs.len(),
        fuel >= descs.len() - i,
    ensures
        build(q, descs).tail_of(slot_at(q.next_free as int, i), fuel) == Some(
            slot_at(q.next_free as int, descs.len() - 1),
        ),
    decreases descs.len() - i,
{
    let first = q.next_free as int;
    let r = build(q, descs);
    lemma_build_chain(q, descs);
    lemma_slot_at_step(first, i);
    assert(r.desc[slot_at(first, i)].flags == descs[i].2);
    if i < descs.len() - 1 {
        assert(has_next(descs[i].2));
        lemma_built_chain_tail_from(q, descs, i + 1, (fuel - 1) as nat);
    }
}

/// A chain that was built does not run in a circle: followed from its head, it
/// passes through its descriptors, which lie in slots that all differ, and
/// ends at the last of them. Publishing it changes nothing of that.
pub proof fn lemma_built_chain_tail(q: QueueView, descs: Seq<DescArgs>)
    requires
        q.wf(),
        !q.chain_open(),
        is_chain(descs),
    ensures
        build(q, descs).tail_of(q.next_free as int, 128) == Some(
            slot_at(q.next_free as int, descs.len() - 1),
        ),
        build(q, descs).publish().tail_of(q.next_free as int, 128) == Some(
            slot_at(q.next_free as int, descs.len() - 1),
        ),
        forall|i: int, j: int|
            0 <= i < j < descs.len() ==> #[trigger] slot_at(q.next_free as int, i) != #[trigger] slot_at(
                q.next_free as int,
                j,
            ),
{
    lemma_built_chain_tail_from(q, descs, 0, 128);
    lemma_slot_at_step(q.next_free as int, 0);
    crate::queue::lemma_tail_same_table(
        build(q, descs),
        build(q, descs).publish(),
        q.next_free as int,
        128,
    );
    assert forall|i: int, j: int| 0 <= i < j < descs.len() implies #[trigger] slot_at(
        q.next_free as int,
        i,
    ) != #[trigger] slot_at(q.next_free as int, j) by {
        lemma_slots_differ(q.next_free as int, i, j);
    }
}

/// On a fresh queue the chain starts at slot 0, so that descriptor `i` links to
/// slot `i + 1`.
pub proof fn lemma_first_chain_links(descs: Seq<DescArgs>)
    requires
        is_chain(descs),
    ensures
        forall|i: int|
            0 <= i < descs.len() - 1 ==> (#[trigger] build(QueueView::fresh(), descs).desc[i]).next
                == i + 1,
        !has_next(build(QueueView::fresh(), descs).desc[descs.len() - 1].flags),
{
    let q = QueueView::fresh();
    lemma_fresh_wf();
    lemma_chain_links(q, descs);
    assert forall|i: int| 0 <= i < descs.len() - 1 implies (#[trigger] build(q, descs).desc[i]).next
        == i + 1 by {
        assert(slot_at(0, i) == i);
        assert(slot_at(0, i + 1) == i + 1);
    }
    assert(slot_at(0, descs.len() - 1) == descs.len() - 1);
}

/// A fresh queue is well formed, holds no chain and has nothing pending.
pub proof fn lemma_fresh_wf()
    ensures
        QueueView::fresh().wf(),
        QueueView::fresh().chain_len == 0,
        QueueView::fresh().next_free == 0,
        !QueueView::fresh().is_pending(),
        QueueView::fresh().pending() == 0,
{
    crate::queue::lemma_empty_chain_linked(QueueView::fresh());
}

/// Publishing moves the producer index on by exactly one, modulo 2^16, writes the
/// head of the chain at the place the index named before, and leaves every other
/// entry of the ring, the descriptor table and the used ring as they were.
pub proof fn lemma_publish(q: QueueView)
    requires
        q.wf(),
        q.chain_complete(),
    ensures
        q.publish().wf(),
        q.publish().avail_idx == (q.avail_idx + 1) % 0x1_0000,
        q.publish().avail_ring[q.avail_idx as int % 128] == q.head(),
        forall|i: int|
            0 <= i < 128 && i != q.avail_idx as int % 128 ==> #[trigger] q.publish().avail_ring[i]
                == q.avail_ring[i],
        q.publish().desc == q.desc,
        q.publish().next_free == q.next_free,
        q.publish().chain_len == 0,
        q.publish().head() == q.next_free,
        q.publish().used_ring == q.used_ring,
        q.publish().used_idx == q.used_idx,
        q.publish().last_used == q.last_used,
{
    crate::queue::lemma_empty_chain_linked(q.publish());
}

/// A chain that was built and published on a queue on which no chain was open
/// took the slots from the free one on, as many as it has
/// descriptors; its head is what the new entry of the availability ring names;
/// and the slot behind its last descriptor is free for the next chain.
pub proof fn lemma_submit_chain(q: QueueView, descs: Seq<DescArgs>)
    requires
        q.wf(),
        !q.chain_open(),
        is_chain(descs),
    ensures
        build(q, descs).chain_complete(),
        build(q, descs).publish().wf(),
        build(q, descs).publish().chain_len == 0,
        build(q, descs).publish().next_free == slot_at(q.next_free as int, descs.len() as int),
        build(q, descs).publish().avail_idx == (q.avail_idx + 1) % 0x1_0000,
        build(q, descs).publish().avail_ring == q.avail_ring.update(
            q.avail_idx as int % 128,
            q.next_free,
        ),
        build(q, descs).publish().desc == build(q, descs).desc,
        build(q, descs).publish().used_idx == q.used_idx,
        build(q, descs).publish().used_ring == q.used_ring,
        build(q, descs).publish().last_used == q.last_used,
{
    lemma_chain_links(q, descs);
    lemma_build_chain(q, descs);
    lemma_publish(build(q, descs));
}

/// A ring position taken from a 16-bit index that wrapped is the position taken
/// from the index that did not.
pub proof fn lemma_wrapped_index_slot(idx: int, k: int)
    requires
        0 <= idx < 0x1_0000,
        0 <= k,
    ensures
        ((idx + k) % 0x1_0000) % 128 == slot_at(idx, k),
        slot_at(idx, k) == slot_at(idx % 128, k),
{
}

/// One chain of a single descriptor, built and published on a queue on which
/// no chain is open: it takes the slot that was free, names it on the
/// availability ring, and leaves the next slot free.
pub proof fn lemma_submit_single(q: QueueView, addr: u64, len: u32, flag: u16)
    requires
        q.wf(),
        !q.chain_open(),
        !has_next(flag),
    ensures
        q.add_desc(addr, len, flag).wf(),
        q.add_desc(addr, len, flag).chain_complete(),
        q.add_desc(addr, len, flag).publish().wf(),
        q.add_desc(addr, len, flag).publish().chain_len == 0,
        q.add_desc(addr, len, flag).publish().next_free == crate::queue::slot_after(
            q.next_free as int,
        ),
        q.add_desc(addr, len, flag).publish().avail_idx == (q.avail_idx + 1) % 0x1_0000,
        q.add_desc(addr, len, flag).publish().avail_ring == q.avail_ring.update(
            q.avail_idx as int % 128,
            q.next_free,
        ),
{
    crate::queue::lemma_add_desc_wf(q, addr, len, flag);
    let a = q.add_desc(addr, len, flag);
    assert(a.chain_slot(0) == q.next_free);
    assert(a.head() == q.next_free);
    crate::queue::lemma_empty_chain_linked(a.publish());
}

/// After `n` chains of one descriptor each on a queue on which no chain was
/// open, no chain is open, the slot `n` places after the first is free, and the producer
/// index has moved on by `n`.
pub proof fn lemma_submit_singles_cursors(q: QueueView, bufs: Seq<DescArgs>)
    requires
        q.wf(),
        !q.chain_open(),
        forall|k: int| 0 <= k < bufs.len() ==> !has_next(#[trigger] bufs[k].2),
    ensures
        submit_singles(q, bufs).wf(),
        !submit_singles(q, bufs).chain_open(),
        bufs.len() > 0 ==> submit_singles(q, bufs).chain_len == 0,
        submit_singles(q, bufs).next_free == slot_at(q.next_free as int, bufs.len() as int),
        submit_singles(q, bufs).avail_idx == (q.avail_idx + bufs.len()) % 0x1_0000,
        submit_singles(q, bufs).used_idx == q.used_idx,
        submit_singles(q, bufs).used_ring == q.used_ring,
        submit_singles(q, bufs).last_used == q.last_used,
    decreases bufs.len(),
{
    if bufs.len() > 0 {
        let front = bufs.drop_last();
        let d = bufs.last();
        lemma_submit_singles_cursors(q, front);
        let p = submit_singles(q, front);
        lemma_submit_single(p, d.0, d.1, d.2);
        lemma_slot_at_step(q.next_free as int, front.len() as int);
        lemma_wrap_step(q.avail_idx as int, front.len() as int);
    }
}

/// After `n ≤ 128` chains of one descriptor each, the `k`-th new entry of the
/// availability ring names the slot `k` places after the first.
pub proof fn lemma_submit_singles_ring(q: QueueView, bufs: Seq<DescArgs>, k: int)
    requires
        q.wf(),
        !q.chain_open(),
        bufs.len() <= 128,
        forall|k: int| 0 <= k < bufs.len() ==> !has_next(#[trigger] bufs[k].2),
        0 <= k < bufs.len(),
    ensures
        submit_singles(q, bufs).avail_ring[slot_at(q.avail_idx as int, k)] == slot_at(
            q.next_free as int,
            k,
        ),
    decreases bufs.len(),
{
    let front = bufs.drop_last();
    let d = bufs.last();
    let n = front.len() as int;
    let p = submit_singles(q, front);
    lemma_submit_singles_cursors(q, front);
    lemma_submit_single(p, d.0, d.1, d.2);
    lemma_wrapped_index_slot(q.avail_idx as int, n);
    if k < n {
        lemma_submit_singles_ring(q, front, k);
        lemma_slots_differ(q.avail_idx as int, k, n);
    }
}

/// After `n ≤ 128` chains of one descriptor each, the slot `k` places after the
/// first holds the `k`-th descriptor, with no link.
pub proof fn lemma_submit_singles_desc(q: QueueView, bufs: Seq<DescArgs>, k: int)
    requires
        q.wf(),
        !q.chain_open(),
        bufs.len() <= 128,
        forall|k: int| 0 <= k < bufs.len() ==> !has_next(#[trigger] bufs[k].2),
        0 <= k < bufs.len(),
    ensures
        submit_singles(q, bufs).desc[slot_at(q.next_free as int, k)] == (Descriptor {
            addr: bufs[k].0,
            len: bufs[k].1,
            flags: bufs[k].2,
            next: 0,
        }),
    decreases bufs.len(),
{
    let front = bufs.drop_last();
    let d = bufs.last();
    let n = front.len() as int;
    let p = submit_singles(q, front);
    lemma_submit_singles_cursors(q, front);
    lemma_submit_single(p, d.0, d.1, d.2);
    if k < n {
        lemma_submit_singles_desc(q, front, k);
        lemma_slots_differ(q.next_free as int, k, n);
    }
}

/// Chains of one descriptor each, published one after the other on a queue on
/// which no chain is open, take consecutive slots: the `k`-th of them
/// starts at the slot `k` places after the first, and that slot is what the
/// `k`-th new entry of the availability ring names. At most 128 of them take
/// slots that all differ.
pub proof fn lemma_single_chains_take_consecutive_slots(q: QueueView, bufs: Seq<DescArgs>)
    requires
        q.wf(),
        !q.chain_open(),
        bufs.len() <= 128,
        forall|k: int| 0 <= k < bufs.len() ==> !has_next(#[trigger] bufs[k].2),
    ensures
        submit_singles(q, bufs).wf(),
        !submit_singles(q, bufs).chain_open(),
        bufs.len() > 0 ==> submit_singles(q, bufs).chain_len == 0,
        submit_singles(q, bufs).next_free == slot_at(q.next_free as int, bufs.len() as int),
        submit_singles(q, bufs).avail_idx == (q.avail_idx + bufs.len()) % 0x1_0000,
        forall|k: int|
            0 <= k < bufs.len() ==> (#[trigger] submit_singles(q, bufs.take(k))).next_free
                == slot_at(q.next_free as int, k),
        forall|k: int|
            0 <= k < bufs.len() ==> submit_singles(q, bufs).avail_ring[#[trigger] slot_at(
                q.avail_idx as int,
                k,
            )] == slot_at(q.next_free as int, k),
        forall|j: int, k: int|
            0 <= j < k < bufs.len() ==> #[trigger] slot_at(q.next_free as int, j) != #[trigger] slot_at(
                q.next_free as int,
                k,
            ),
{
    lemma_submit_singles_cursors(q, bufs);
    assert forall|k: int| 0 <= k < bufs.len() implies (#[trigger] submit_singles(
        q,
        bufs.take(k),
    )).next_free == slot_at(q.next_free as int, k) by {
        lemma_submit_singles_cursors(q, bufs.take(k));
    }
    assert forall|k: int| 0 <= k < bufs.len() implies submit_singles(
        q,
        bufs,
    ).avail_ring[#[trigger] slot_at(q.avail_idx as int, k)] == slot_at(q.next_free as int, k) by {
        lemma_submit_singles_ring(q, bufs, k);
    }
    assert forall|j: int, k: int| 0 <= j < k < bufs.len() implies #[trigger] slot_at(
        q.next_free as int,
        j,
    ) != #[trigger] slot_at(q.next_free as int, k) by {
        lemma_slots_differ(q.next_free as int, j, k);
    }
}

/// On a fresh queue, the `k`-th of up to 128 single-descriptor chains is
/// allocated slot `k`: the slots are 0, 1, 2, ... in the order of the calls.
pub proof fn lemma_fresh_queue_allocates_in_order(bufs: Seq<DescArgs>)
    requires
        bufs.len() <= 128,
        forall|k: int| 0 <= k < bufs.len() ==> !has_next(#[trigger] bufs[k].2),
    ensures
        forall|k: int|
            0 <= k < bufs.len() ==> (#[trigger] submit_singles(
                QueueView::fresh(),
                bufs.take(k),
            )).next_free == k,
        forall|k: int|
            0 <= k < bufs.len() ==> #[trigger] submit_singles(
                QueueView::fresh(),
                bufs,
            ).avail_ring[k] == k,
{
    let q = QueueView::fresh();
    lemma_fresh_wf();
    lemma_single_chains_take_consecutive_slots(q, bufs);
    assert forall|k: int| 0 <= k < bufs.len() implies (#[trigger] submit_singles(
        q,
        bufs.take(k),
    )).next_free == k by {
        assert(slot_at(0, k) == k);
    }
    assert forall|k: int| 0 <= k < bufs.len() implies #[trigger] submit_singles(
        q,
        bufs,
    ).avail_ring[k] == k by {
        assert(slot_at(0, k) == k);
    }
}

/// Nothing that the driver does to build or publish a chain makes a completion
/// appear: a queue with nothing pending stays so until the device writes.
pub proof fn lemma_pending_only_after_device(q: QueueView, addr: u64, len: u32, flag: u16, elem: UsedElem)
    ensures
        q.add_desc(addr, len, flag).is_pending() == q.is_pending(),
        q.publish().is_pending() == q.is_pending(),
        q.add_desc(addr, len, flag).pending() == q.pending(),
        q.publish().pending() == q.pending(),
        !q.is_pending() ==> q.device_complete(elem).is_pending(),
        q.is_pending() <==> q.pending() > 0,
{
}

/// A completion that the device writes while fewer than 128 are untaken joins
/// the untaken ones at the end.
pub proof fn lemma_device_complete_appends(q: QueueView, elem: UsedElem)
    requires
        q.wf(),
        q.pending() < 128,
    ensures
        q.device_complete(elem).wf(),
        q.device_complete(elem).pending() == q.pending() + 1,
        q.device_complete(elem).pending_entries() == q.pending_entries().push(elem),
{
    let r = q.device_complete(elem);
    crate::queue::lemma_same_chain_linked(q, r);
    assert(r.pending() == q.pending() + 1);
    assert(r.pending_entries() =~= q.pending_entries().push(elem)) by {
        assert forall|k: int| 0 <= k < q.pending() implies #[trigger] slot_at(q.last_used as int, k)
            != q.used_idx as int % 128 by {}
        assert(slot_at(q.last_used as int, q.pending()) == q.used_idx as int % 128);
        assert forall|k: int| 0 <= k < r.pending() implies #[trigger] r.pending_entries()[k]
            == q.pending_entries().push(elem)[k] by {
            assert(r.pending_entries()[k] == r.used_ring[slot_at(q.last_used as int, k)]);
        }
    }
}

/// Taking a completion returns the oldest untaken one, leaves the others in
/// their order, and moves the consumer cursor on by exactly one.
pub proof fn lemma_take_removes_oldest(q: QueueView)
    requires
        q.wf(),
        q.is_pending(),
    ensures
        q.take().wf(),
        q.front() == q.pending_entries()[0],
        q.take().pending_entries() == q.pending_entries().drop_first(),
        q.take().pending() == q.pending() - 1,
        q.take().last_used == (q.last_used + 1) % 0x1_0000,
{
    let r = q.take();
    crate::queue::lemma_same_chain_linked(q, r);
    assert(r.pending() == q.pending() - 1);
    assert(r.pending_entries() =~= q.pending_entries().drop_first()) by {
        assert forall|k: int| 0 <= k < r.pending() implies #[trigger] slot_at(r.last_used as int, k)
            == slot_at(q.last_used as int, k + 1) by {}
        assert forall|k: int| 0 <= k < r.pending() implies #[trigger] r.pending_entries()[k]
            == q.pending_entries().drop_first()[k] by {
            assert(r.pending_entries()[k] == r.used_ring[slot_at(r.last_used as int, k)]);
            assert(q.pending_entries()[k + 1] == q.used_ring[slot_at(q.last_used as int, k + 1)]);
        }
    }
}

/// What the device wrote, while at most 128 completions were untaken, is what is
/// pending, in the order of the writes, after what was pending before.
pub proof fn lemma_device_completes_in_order(q: QueueView, elems: Seq<UsedElem>)
    requires
        q.wf(),
        q.pending() + elems.len() <= 128,
    ensures
        device_completes(q, elems).wf(),
        device_completes(q, elems).pending() == q.pending() + elems.len(),
        device_completes(q, elems).pending_entries() == q.pending_entries() + elems,
        device_completes(q, elems).last_used == q.last_used,
    decreases elems.len(),
{
    if elems.len() == 0 {
        assert(q.pending_entries() + elems =~= q.pending_entries());
    } else {
        let front = elems.drop_last();
        lemma_device_completes_in_order(q, front);
        let p = device_completes(q, front);
        lemma_device_complete_appends(p, elems.last());
        assert((q.pending_entries() + front).push(elems.last()) =~= q.pending_entries() + elems);
    }
}

/// Moving a 16-bit cursor on one step at a time is moving it on by the sum.
pub proof fn lemma_wrap_step(a: int, m: int)
    requires
        0 <= a < 0x1_0000,
        0 <= m,
    ensures
        (((a + m) % 0x1_0000) + 1) % 0x1_0000 == (a + m + 1) % 0x1_0000,
{
}

/// `n` calls of `next_elem`, made while at least `n` completions are pending,
/// return the `n` oldest of them, oldest first, and move the consumer cursor on
/// by exactly `n`.
pub proof fn lemma_taken_in_order(q: QueueView, n: nat)
    requires
        q.wf(),
        n <= q.pending(),
    ensures
        take_n(q, n).wf(),
        taken(q, n) == q.pending_entries().take(n as int),
        take_n(q, n).pending_entries() == q.pending_entries().skip(n as int),
        take_n(q, n).pending() == q.pending() - n,
        take_n(q, n).last_used == (q.last_used + n) % 0x1_0000,
    decreases n,
{
    let all = q.pending_entries();
    assert(all.len() == q.pending());
    if n == 0 {
        assert(taken(q, n) =~= all.take(0));
        assert(all.skip(0) =~= all);
    } else {
        let m = (n - 1) as nat;
        lemma_taken_in_order(q, m);
        let p = take_n(q, m);
        let rest = p.pending_entries();
        assert(rest == all.skip(m as int));
        assert(p.pending() > 0);
        lemma_take_removes_oldest(p);
        lemma_wrap_step(q.last_used as int, m as int);
        assert(p.front() == rest[0]);
        assert(rest[0] == all[m as int]);
        assert(taken(q, n) == all.take(m as int).push(all[m as int]));
        assert(all.take(m as int).push(all[m as int]) =~= all.take(n as int));
        assert(rest.drop_first() =~= all.skip(n as int));
    }
}

/// With the consumer caught up, what the device then writes (up to a ring full)
/// is what the driver takes, entry for entry and in the same order; after as
/// many calls as there were writes, nothing is pending.
pub proof fn lemma_completions_arrive_in_order(q: QueueView, elems: Seq<UsedElem>)
    requires
        q.wf(),
        !q.is_pending(),
        elems.len() <= 128,
    ensures
        taken(device_completes(q, elems), elems.len()) == elems,
        take_n(device_completes(q, elems), elems.len()).last_used == (q.last_used + elems.len())
            % 0x1_0000,
        !take_n(device_completes(q, elems), elems.len()).is_pending(),
{
    lemma_device_completes_in_order(q, elems);
    let d = device_completes(q, elems);
    assert(q.pending_entries() =~= Seq::<UsedElem>::empty());
    assert(d.pending_entries() =~= elems);
    lemma_taken_in_order(d, elems.len());
    assert(elems.take(elems.len() as int) =~= elems);
}

} // verus!
