use virtio_transport::queue::{
    BlockFlag, DescFlag, Descriptor, Header, UsedElem, VirtQueue, DESC_F_NEXT, DESC_F_WRITE,
    VIRTIO_RING_SIZE,
};

fn submit_single(q: &mut VirtQueue, addr: u64) -> u16 {
    let slot = q.desc_idx();
    q.add_desc(addr, 8, DESC_F_WRITE);
    q.add_avail();
    slot
}

#[test]
fn fresh_queue_has_nothing_pending() {
    let q = VirtQueue::new();
    assert!(!q.is_pending());
    assert_eq!(q.desc_idx(), 0);
    assert_eq!(q.chain_len(), 0);
    assert_eq!(q.avail().idx, 0);
    assert_eq!(q.used().idx, 0);
    assert!(q.can_add());
    assert!(!q.chain_complete());
    for d in q.desc().iter() {
        assert_eq!(*d, Descriptor { addr: 0, len: 0, flags: 0, next: 0 });
    }
}

#[test]
fn chain_of_three_links_each_to_the_next() {
    let mut q = VirtQueue::new();
    let head = q.desc_idx();
    q.add_desc(0x1000, 16, DESC_F_NEXT);
    assert!(!q.chain_complete());
    assert!(q.chain_open());
    assert!(q.can_add());
    q.add_desc(0x2000, 512, DESC_F_NEXT | DESC_F_WRITE);
    q.add_desc(0x1018, 1, DESC_F_WRITE);
    assert_eq!(q.chain_len(), 3);
    assert!(q.chain_complete());
    assert!(!q.chain_open());
    assert!(q.can_add());
    q.add_avail();
    assert_eq!(head, 0);
    assert_eq!(q.desc()[0], Descriptor { addr: 0x1000, len: 16, flags: 1, next: 1 });
    assert_eq!(q.desc()[1], Descriptor { addr: 0x2000, len: 512, flags: 3, next: 2 });
    assert_eq!(q.desc()[2], Descriptor { addr: 0x1018, len: 1, flags: 2, next: 0 });
    assert_eq!(q.desc()[2].flags & DESC_F_NEXT, 0);
    assert_eq!(q.avail().idx, 1);
    assert_eq!(q.avail().ring[0], 0);
    assert_eq!(q.desc_idx(), 3);
    assert_eq!(q.chain_len(), 0);
    assert_eq!(q.chain_tail(0), Some(2));
    assert_eq!(q.chain_tail(1), Some(2));
    assert_eq!(q.chain_tail(2), Some(2));
}

#[test]
fn descriptor_behind_an_ended_chain_begins_the_next() {
    let mut q = VirtQueue::new();
    q.add_desc(0xa, 1, 0);
    assert_eq!(q.chain_len(), 1);
    assert!(q.chain_complete());
    q.add_desc(0xb, 2, 0);
    assert_eq!(q.chain_len(), 1);
    assert_eq!(q.desc_idx(), 2);
    assert_eq!(q.desc()[0], Descriptor { addr: 0xa, len: 1, flags: 0, next: 0 });
    assert_eq!(q.desc()[1], Descriptor { addr: 0xb, len: 2, flags: 0, next: 0 });
    q.add_desc(0xc, 3, DESC_F_NEXT);
    q.add_desc(0xd, 4, DESC_F_WRITE);
    assert_eq!(q.chain_len(), 2);
    q.add_avail();
    assert_eq!(q.avail().idx, 1);
    assert_eq!(q.avail().ring[0], 2);
    assert_eq!(q.desc()[2], Descriptor { addr: 0xc, len: 3, flags: 1, next: 3 });
    assert_eq!(q.desc()[3], Descriptor { addr: 0xd, len: 4, flags: 2, next: 0 });
    assert_eq!(q.chain_tail(2), Some(3));
}

#[test]
fn cursor_wraps_behind_slot_127() {
    let mut q = VirtQueue::new();
    for _ in 0..127 {
        q.add_desc(0, 0, 0);
    }
    assert_eq!(q.desc_idx(), 127);
    let avail = *q.avail();
    q.add_desc(0x2000, 512, 1);
    assert_eq!(q.desc()[127], Descriptor { addr: 0x2000, len: 512, flags: 1, next: 0 });
    assert_eq!(q.desc_idx(), 0);
    assert_eq!(q.desc()[126], Descriptor { addr: 0, len: 0, flags: 0, next: 0 });
    assert_eq!(q.avail().idx, avail.idx);
    assert_eq!(q.avail().ring, avail.ring);
    assert!(!q.is_pending());
}

#[test]
fn flags_are_stored_as_given() {
    let mut q = VirtQueue::new();
    q.add_desc(u64::MAX, u32::MAX, 0xfffe);
    assert_eq!(q.desc()[0], Descriptor { addr: u64::MAX, len: u32::MAX, flags: 0xfffe, next: 0 });
    q.add_desc(7, 9, 0xffff);
    assert_eq!(q.desc()[1], Descriptor { addr: 7, len: 9, flags: 0xffff, next: 2 });
}

#[test]
fn single_chains_take_the_slots_in_order() {
    let mut q = VirtQueue::new();
    for i in 0..VIRTIO_RING_SIZE {
        let slot = submit_single(&mut q, 0x4000 + 8 * i as u64);
        assert_eq!(slot as usize, i);
    }
    for i in 0..VIRTIO_RING_SIZE {
        assert_eq!(q.avail().ring[i] as usize, i);
        assert_eq!(q.desc()[i].addr, 0x4000 + 8 * i as u64);
        assert_eq!(q.desc()[i].next, 0);
    }
    assert_eq!(q.avail().idx, 128);
    assert_eq!(q.desc_idx(), 0);
}

#[test]
fn slots_go_round_the_table() {
    let mut q = VirtQueue::new();
    for _ in 0..127 {
        submit_single(&mut q, 1);
    }
    assert_eq!(q.desc_idx(), 127);
    q.add_desc(0xa, 1, DESC_F_NEXT);
    q.add_desc(0xb, 1, 0);
    q.add_avail();
    assert_eq!(q.desc()[127].next, 0);
    assert_eq!(q.desc()[127].addr, 0xa);
    assert_eq!(q.desc()[0].addr, 0xb);
    assert_eq!(q.avail().ring[127], 127);
    assert_eq!(q.desc_idx(), 1);
    assert_eq!(q.chain_tail(127), Some(0));
}

#[test]
fn publishing_moves_the_producer_index_by_one() {
    let mut q = VirtQueue::new();
    for n in 0..300u32 {
        let before = q.avail().idx;
        let head = q.desc_idx();
        q.add_desc(0, 0, 0);
        q.add_avail();
        assert_eq!(q.avail().idx, before.wrapping_add(1));
        assert_eq!(q.avail().ring[before as usize % 128], head);
        assert_eq!(q.avail().idx as u32, n + 1);
    }
}

#[test]
fn producer_index_wraps_at_sixteen_bits() {
    let mut q = VirtQueue::new();
    for _ in 0..65535u32 {
        submit_single(&mut q, 0);
    }
    assert_eq!(q.avail().idx, 65535);
    let head = submit_single(&mut q, 0);
    assert_eq!(q.avail().idx, 0);
    assert_eq!(q.avail().ring[65535 % 128], head);
}

#[test]
fn building_chains_makes_nothing_pending() {
    let mut q = VirtQueue::new();
    submit_single(&mut q, 1);
    q.add_desc(2, 2, DESC_F_NEXT);
    assert!(!q.is_pending());
    q.device_complete(UsedElem { id: 0, len: 8 });
    assert!(q.is_pending());
}

#[test]
fn completions_come_out_in_the_order_written() {
    let mut q = VirtQueue::new();
    q.device_complete(UsedElem { id: 5, len: 1 });
    q.device_complete(UsedElem { id: 2, len: 7 });
    q.device_complete(UsedElem { id: 9, len: 0 });
    assert_eq!(q.used().idx, 3);
    assert!(q.is_pending());
    assert_eq!(q.next_elem(), UsedElem { id: 5, len: 1 });
    assert!(q.is_pending());
    assert_eq!(q.next_elem(), UsedElem { id: 2, len: 7 });
    assert_eq!(q.next_elem(), UsedElem { id: 9, len: 0 });
    assert!(!q.is_pending());
}

#[test]
fn a_ring_full_of_completions_comes_out_in_order() {
    let mut q = VirtQueue::new();
    for round in 0..600u32 {
        for k in 0..128u32 {
            q.device_complete(UsedElem { id: k, len: round });
        }
        for k in 0..128u32 {
            assert!(q.is_pending());
            assert_eq!(q.next_elem(), UsedElem { id: k, len: round });
        }
        assert!(!q.is_pending());
    }
    assert_eq!(q.used().idx, (600u32 * 128 % 65536) as u16);
}

#[test]
fn chain_that_runs_in_a_circle_has_no_tail() {
    let mut q = VirtQueue::new();
    for _ in 0..128 {
        q.add_desc(0, 0, DESC_F_NEXT);
    }
    assert_eq!(q.chain_len(), 128);
    assert!(!q.can_add());
    assert!(!q.chain_complete());
    assert_eq!(q.chain_tail(0), None);
    assert_eq!(q.chain_tail(200), None);
}

#[test]
fn flags_have_their_wire_values() {
    assert_eq!(DescFlag::Next.val16(), 1);
    assert_eq!(DescFlag::Write.val16(), 2);
    assert_eq!(DescFlag::Indirect.val16(), 4);
    assert_eq!(BlockFlag::In.val32(), 0);
    assert_eq!(BlockFlag::Out.val32(), 1);
    assert_eq!(BlockFlag::Flush.val32(), 4);
    assert_eq!(BlockFlag::ReadOnly.val32(), 5);
    assert_eq!(BlockFlag::Discard.val32(), 11);
    assert_eq!(BlockFlag::WriteZeros.val32(), 13);
}

#[test]
fn default_header_reads_sector_zero() {
    assert_eq!(Header::default(), Header { blktype: BlockFlag::In, reserved: 0, sector: 0 });
}
