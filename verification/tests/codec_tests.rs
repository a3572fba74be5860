use cait_sith::codec::{encode_group_poly, read_group_poly, read_point, append_point, read_scalar, append_scalar};
use cait_sith::math::Polynomial;
use cait_sith::scalars::{scalar_random, Scalar};
use cait_sith::points::{generator_mul, point_from_bytes, point_identity};
use cait_sith::transcript::FsTranscript;
use cait_sith::dlog;

#[test]
fn test_scalar_round_trip() {
    let s = scalar_random();
    let mut bytes = Vec::new();
    append_scalar(&mut bytes, &s);
    assert_eq!(bytes.len(), 32);
    let back = read_scalar(&bytes, 0).unwrap();
    assert_eq!(s, back);
    // Also through the type's own byte functions.
    let direct = Scalar::from_bytes(&s.to_bytes()).unwrap();
    assert_eq!(s, direct);
}

#[test]
fn test_point_round_trip() {
    let p = generator_mul(&scalar_random());
    let mut bytes = Vec::new();
    append_point(&mut bytes, &p);
    let (back, end) = read_point(&bytes, 0).unwrap();
    assert_eq!(end, bytes.len());
    assert_eq!(p, back);
    // The identity round-trips through its one-byte encoding too.
    let id = point_identity();
    assert_eq!(point_from_bytes(&id.to_bytes()).unwrap(), id);
}

#[test]
fn test_group_polynomial_round_trip() {
    let f = Polynomial::random(4);
    let big_f = f.commit();
    let bytes = encode_group_poly(&big_f);
    let (back, end) = read_group_poly(&bytes, 0).unwrap();
    assert_eq!(end, bytes.len());
    assert_eq!(back.len(), 4);
    for i in 0..4 {
        assert_eq!(*back.coefficient(i), *big_f.coefficient(i));
    }
    // Truncated encodings are rejected.
    let truncated = bytes[..bytes.len() - 1].to_vec();
    assert!(read_group_poly(&truncated, 0).is_none());
}

#[test]
fn test_proof_encoding_round_trip() {
    let x = scalar_random();
    let statement = dlog::Statement { public: generator_mul(&x) };
    let witness = dlog::Witness { x };
    let mut t = FsTranscript::new("codec check");
    let proof = dlog::prove(&mut t, &statement, &witness);
    let bytes = proof.to_bytes();
    assert_eq!(bytes.len(), 64);
    let back = dlog::Proof::read(&bytes, 0).unwrap();
    assert_eq!(back.e, proof.e);
    assert_eq!(back.s, proof.s);
}
