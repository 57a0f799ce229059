use virtio_transport::pool::Pool;

#[test]
fn new_pool_holds_the_fill_everywhere() {
    let mut p: Pool<u32> = Pool::new(0x9000, 4, 7);
    for i in 0..128 {
        assert_eq!(*p.peek(i), 7);
        assert_eq!(*p.get(i), 7);
    }
}

#[test]
fn get_hands_out_the_entry_itself() {
    let mut p: Pool<u32> = Pool::new(0x9000, 4, 0);
    *p.get(3) = 42;
    assert_eq!(*p.peek(3), 42);
    assert_eq!(*p.peek(2), 0);
    assert_eq!(*p.peek(4), 0);
}

#[test]
fn replace_ref_installs_and_hands_out() {
    let mut p: Pool<u32> = Pool::new(0x9000, 4, 0);
    let e = p.replace_ref(127, 5);
    assert_eq!(*e, 5);
    *e += 1;
    assert_eq!(*p.peek(127), 6);
}

#[test]
fn replace_u64_returns_the_address_of_the_entry() {
    let mut p: Pool<u32> = Pool::new(0x9000, 4, 0);
    assert_eq!(p.replace_u64(0, 1), 0x9000);
    assert_eq!(p.replace_u64(1, 2), 0x9004);
    assert_eq!(p.replace_u64(127, 3), 0x9000 + 127 * 4);
    assert_eq!(*p.peek(0), 1);
    assert_eq!(*p.peek(1), 2);
    assert_eq!(*p.peek(127), 3);
    assert_eq!(p.addr(5), 0x9014);
}

#[test]
fn entry_is_found_again_by_its_address() {
    let p: Pool<u32> = Pool::new(0x9000, 32, 0);
    for i in 0..128usize {
        assert_eq!(p.index_of(p.addr(i)), Some(i));
    }
    assert_eq!(p.index_of(0x8fff), None);
    assert_eq!(p.index_of(0x9001), None);
    assert_eq!(p.index_of(0x9000 + 128 * 32), None);
    assert_eq!(p.index_of(0), None);
}

#[test]
fn pool_may_end_at_the_top_of_the_address_space() {
    let p: Pool<u8> = Pool::new(u64::MAX - 128, 1, 0);
    assert_eq!(p.addr(127), u64::MAX - 1);
    assert_eq!(p.index_of(u64::MAX - 1), Some(127));
    assert_eq!(p.index_of(u64::MAX), None);
}

#[test]
fn entries_without_extent_all_lie_at_the_base() {
    let p: Pool<u8> = Pool::new(0x500, 0, 0);
    assert_eq!(p.addr(100), 0x500);
    assert_eq!(p.index_of(0x500), Some(0));
    assert_eq!(p.index_of(0x501), None);
}
