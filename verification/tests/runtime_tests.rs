use cait_sith::runtime::MessageHeader;
use cait_sith::protocol::Participant;

#[test]
fn test_next_waitpoint_counts_up() {
    let mut h = MessageHeader::shared();
    for n in 0u64..100 {
        assert_eq!(h.next_waitpoint(), n);
    }
}

#[test]
fn test_header_bytes_round_trip() {
    let mut h = MessageHeader::shared();
    let _ = h.next_waitpoint();
    let _ = h.next_waitpoint();
    let w = h.next_waitpoint();
    let at = h.with_waitpoint(w);
    let bytes = at.to_bytes();
    assert_eq!(bytes.len(), 28);
    let back = MessageHeader::from_bytes(&bytes).unwrap();
    assert_eq!(back.to_bytes(), bytes);
    // Short buffers are rejected.
    assert!(MessageHeader::from_bytes(&vec![0u8; 27]).is_none());
}

#[test]
fn test_child_channels_do_not_collide() {
    let c = MessageHeader::shared();
    let i = 3u64;
    let j = 5u64;
    let a = c.child(i).child(j);
    let b = c.child(j).child(i);
    let d = c.child(i * (1u64 << 32) + j);
    assert_ne!(a.to_bytes(), b.to_bytes());
    assert_ne!(a.to_bytes(), d.to_bytes());
    assert_ne!(b.to_bytes(), d.to_bytes());
}

#[test]
fn test_private_channels_are_symmetric() {
    let p0 = Participant::from(7u32);
    let p1 = Participant::from(11u32);
    let a = MessageHeader::private(p0, p1);
    let b = MessageHeader::private(p1, p0);
    assert_eq!(a.to_bytes(), b.to_bytes());
    // And distinct pairs get distinct channels.
    let c = MessageHeader::private(p0, Participant::from(12u32));
    assert_ne!(a.to_bytes(), c.to_bytes());
    // The shared root is its own namespace.
    assert_ne!(a.to_bytes(), MessageHeader::shared().to_bytes());
}
