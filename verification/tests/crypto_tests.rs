use cait_sith::crypto::{commit, hash, Commitment};

#[test]
fn test_commit_then_check() {
    let value = b"a value to commit to".to_vec();
    let (c, r) = commit(&value);
    assert!(c.check(&value, &r));
}

#[test]
fn test_commit_binding_on_other_value() {
    let value = b"a value to commit to".to_vec();
    let other = b"a different value".to_vec();
    let (c, r) = commit(&value);
    assert!(!c.check(&other, &r));
}

#[test]
fn test_commit_hiding_randomizers_differ() {
    // Two commitments to the same value use fresh randomizers, so the
    // commitment strings differ (statistically).
    let value = b"same value".to_vec();
    let (c1, _r1) = commit(&value);
    let (c2, _r2) = commit(&value);
    assert_ne!(c1.to_bytes(), c2.to_bytes());
}

#[test]
fn test_hash_deterministic() {
    let a = hash(&b"hello".to_vec());
    let b = hash(&b"hello".to_vec());
    let c = hash(&b"world".to_vec());
    assert_eq!(a.to_bytes(), b.to_bytes());
    assert_ne!(a.to_bytes(), c.to_bytes());
}

#[test]
fn test_commitment_bytes_round_trip() {
    let (c, _r) = commit(&b"x".to_vec());
    let bytes = c.to_bytes();
    let back = Commitment::from_bytes(&bytes).unwrap();
    assert_eq!(c, back);
}
