use cait_sith::bits::{BitVector, DoubleBitVector, BitMatrix, SquareBitMatrix};

#[test]
fn test_gf_multiplication() {
    let a = BitVector::from_words(0b10, 0b10);
    let b = BitVector::from_words(0b100, 0b100);
    let c = DoubleBitVector::from_words(0b1000, 0, 0b1000, 0);
    assert_eq!(a.gf_mul(&b), c);
}

#[test]
fn test_bitvector_bytes_round_trip() {
    let v = BitVector::from_words(0x0123_4567_89AB_CDEF, 0xFEDC_BA98_7654_3210);
    let bytes = v.bytes();
    assert_eq!(bytes.len(), 16);
    let back = BitVector::from_bytes(&bytes).unwrap();
    assert_eq!(v, back);
    // A wrong length is rejected.
    assert!(BitVector::from_bytes(&vec![0u8; 15]).is_none());
}

#[test]
fn test_bitvector_ops() {
    let a = BitVector::from_words(0b1100, 0);
    let b = BitVector::from_words(0b1010, 0);
    assert_eq!(a.xor(&b), BitVector::from_words(0b0110, 0));
    assert_eq!(a.and(&b), BitVector::from_words(0b1000, 0));
    assert_eq!(a.not().and(&b), BitVector::from_words(0b0010, 0));
    assert_eq!(BitVector::conditional_select(&a, &b, false), a);
    assert_eq!(BitVector::conditional_select(&a, &b, true), b);
    assert_eq!(a.bit(2), 1);
    assert_eq!(a.bit(0), 0);
}

#[test]
fn test_square_matrix() {
    let m = BitMatrix::random(128);
    assert!(SquareBitMatrix::new(m).is_some());
    let m = BitMatrix::random(64);
    assert!(SquareBitMatrix::new(m).is_none());
}
