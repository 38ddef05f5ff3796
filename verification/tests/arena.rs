use linkcore::arena::{PacketArena, PacketBuffer};
use linkcore::Request;

#[test]
fn buffers_are_pdu_sized_and_zeroed() {
    let b = PacketBuffer::new();
    assert_eq!(b.len(), 39);
    for i in 0..b.len() {
        assert_eq!(b.get(i), 0);
    }
}

#[test]
fn writes_land_where_directed() {
    let mut b = PacketBuffer::new();
    b.set(0, 0xAB);
    b.set(38, 0xCD);
    assert_eq!(b.get(0), 0xAB);
    assert_eq!(b.get(38), 0xCD);
    assert_eq!(b.get(1), 0);
}

#[test]
fn arena_hands_back_the_same_buffers() {
    let mut tx = PacketBuffer::new();
    let mut rx = PacketBuffer::new();
    tx.set(3, 7);
    rx.set(5, 9);
    let arena = PacketArena::new(tx, rx);
    let (tx2, rx2) = arena.split();
    assert_eq!(tx2.get(3), 7);
    assert_eq!(rx2.get(5), 9);
    assert_eq!(tx2.get(5), 0);
    assert_eq!(rx2.get(3), 0);
}

#[test]
fn request_carries_a_value() {
    let r = Request { val: 513 };
    let s = r;
    assert_eq!(s.val, 513);
    assert_eq!(r, s);
}
