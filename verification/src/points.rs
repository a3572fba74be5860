//! Points of the secp256k1 group.
//!
//! A point is held as its canonical SEC1 encoding: 33 bytes for a compressed
//! point, or the single byte `0` for the identity. Group arithmetic is
//! delegated to the `k256` crate through trusted wrappers. Since the group
//! law has no short byte-level description, the results of the outside calls
//! are given names (`pt_add`, `pt_mul`, ...): two parties computing the same
//! operation on the same encodings get the same result, which is what the
//! protocol contracts need. Point equality is byte equality, because the
//! encoding is canonical.

use vstd::prelude::*;
use k256::elliptic_curve::Field;
use k256::elliptic_curve::PrimeField;
use k256::elliptic_curve::ops::Reduce;
use k256::elliptic_curve::point::AffineCoordinates;
use k256::elliptic_curve::sec1::{FromEncodedPoint, ToEncodedPoint};

verus! {

#[verifier::external_type_specification]
#[verifier::external_body]
pub struct ExProjectivePoint(k256::ProjectivePoint);

/// Whether a byte string is the canonical encoding of a group element:
/// what `k256`'s point decoder accepts and its compressed encoder re-emits.
pub uninterp spec fn valid_point(b: Seq<u8>) -> bool;

/// The canonical encoding of the sum of two points, by `k256` point addition.
pub uninterp spec fn pt_add(p: Seq<u8>, q: Seq<u8>) -> Seq<u8>;

/// The canonical encoding of the difference of two points, by `k256`.
pub uninterp spec fn pt_sub(p: Seq<u8>, q: Seq<u8>) -> Seq<u8>;

/// The canonical encoding of a point multiplied by the scalar with the given
/// representation, by `k256` scalar multiplication.
pub uninterp spec fn pt_mul(p: Seq<u8>, s: Seq<u8>) -> Seq<u8>;

/// The representation of the x-coordinate of a point, reduced into the
/// scalar field, as `k256`'s `Reduce` does it.
pub uninterp spec fn pt_x_scalar(p: Seq<u8>) -> Seq<u8>;

/// The canonical encoding of the identity element: a single zero byte.
pub open spec fn identity_bytes() -> Seq<u8> {
    seq![0u8]
}

/// The canonical compressed encoding of the secp256k1 generator.
pub open spec fn generator_bytes() -> Seq<u8> {
    seq![
        0x02u8, 0x79u8, 0xBEu8, 0x66u8, 0x7Eu8, 0xF9u8, 0xDCu8, 0xBBu8, 0xACu8,
        0x55u8, 0xA0u8, 0x62u8, 0x95u8, 0xCEu8, 0x87u8, 0x0Bu8, 0x07u8, 0x02u8,
        0x9Bu8, 0xFCu8, 0xDBu8, 0x2Du8, 0xCEu8, 0x28u8, 0xD9u8, 0x59u8, 0xF2u8,
        0x81u8, 0x5Bu8, 0x16u8, 0xF8u8, 0x17u8, 0x98u8,
    ]
}

/// A point of the secp256k1 group, in canonical SEC1 encoding.
#[derive(Debug)]
pub struct Point {
    bytes: Vec<u8>,
}

impl Point {
    /// A point always holds a canonical encoding: a compressed point of 33
    /// bytes, or the single zero byte for the identity.
    #[verifier::type_invariant]
    pub closed spec fn inv(self) -> bool {
        valid_point(self.bytes@) && (self.bytes@.len() == 1 || self.bytes@.len() == 33)
    }

    /// The canonical SEC1 encoding of this point.
    pub closed spec fn repr(self) -> Seq<u8> {
        self.bytes@
    }

    /// The encoding of every held point is canonical and short.
    pub proof fn lemma_canonical(self)
        requires
            self.inv(),
        ensures
            valid_point(self.repr()),
            self.repr().len() == 1 || self.repr().len() == 33,
    {
    }

    /// The canonical encoding, as bytes.
    pub fn to_bytes(&self) -> (r: Vec<u8>)
        ensures
            r@ == self.repr(),
    {
        crate::protocol::clone_bytes(&self.bytes)
    }

    /// Whether this point is the identity element.
    pub fn is_identity(&self) -> (r: bool)
        ensures
            r == (self.repr() == identity_bytes()),
    {
        proof {
            use_type_invariant(self);
        }
        let r = self.bytes.len() == 1 && self.bytes[0] == 0;
        proof {
            if r {
                assert(self.repr() =~= identity_bytes());
            }
            if self.repr() == identity_bytes() {
                assert(self.bytes@.len() == 1);
                assert(self.bytes@[0] == 0);
            }
        }
        r
    }
}

impl Clone for Point {
    fn clone(&self) -> (r: Self)
        ensures
            r.repr() == self.repr(),
    {
        proof {
            use_type_invariant(self);
        }
        Point { bytes: crate::protocol::clone_bytes(&self.bytes) }
    }
}

impl PartialEq for Point {
    fn eq(&self, other: &Self) -> (r: bool) {
        proof {
            use_type_invariant(self);
            use_type_invariant(other);
        }
        crate::scalars::bytes_eq(&self.bytes, &other.bytes)
    }
}

impl Eq for Point {}

impl vstd::std_specs::cmp::PartialEqSpecImpl for Point {
    open spec fn obeys_eq_spec() -> bool {
        true
    }

    open spec fn eq_spec(&self, other: &Self) -> bool {
        self.repr() == other.repr()
    }
}

/// Relies on `k256::ProjectivePoint` addition and the canonical compressed
/// SEC1 encoding.
#[verifier::external_body]
pub fn point_add(a: &Point, b: &Point) -> (r: Point)
    ensures
        r.repr() == pt_add(a.repr(), b.repr()),
        valid_point(r.repr()),
{
    let pa = decode_unchecked(&a.bytes);
    let pb = decode_unchecked(&b.bytes);
    let x = pa + pb;
    Point { bytes: x.to_affine().to_encoded_point(true).as_bytes().to_vec() }
}

/// Relies on `k256::ProjectivePoint` subtraction and the canonical
/// compressed SEC1 encoding.
#[verifier::external_body]
pub fn point_sub(a: &Point, b: &Point) -> (r: Point)
    ensures
        r.repr() == pt_sub(a.repr(), b.repr()),
        valid_point(r.repr()),
{
    let pa = decode_unchecked(&a.bytes);
    let pb = decode_unchecked(&b.bytes);
    let x = pa - pb;
    Point { bytes: x.to_affine().to_encoded_point(true).as_bytes().to_vec() }
}

/// Relies on `k256::ProjectivePoint` scalar multiplication and the canonical
/// compressed SEC1 encoding.
#[verifier::external_body]
pub fn point_mul(p: &Point, s: &crate::scalars::Scalar) -> (r: Point)
    ensures
        r.repr() == pt_mul(p.repr(), s.repr()),
        valid_point(r.repr()),
{
    let bytes = s.to_bytes();
    let k = k256::Scalar::from_repr(*k256::FieldBytes::from_slice(&bytes)).unwrap();
    let x = decode_unchecked(&p.bytes) * k;
    Point { bytes: x.to_affine().to_encoded_point(true).as_bytes().to_vec() }
}

/// Relies on `k256::ProjectivePoint::GENERATOR`, whose compressed encoding
/// is the well-known SEC1 generator constant, and scalar multiplication.
#[verifier::external_body]
pub fn generator_mul(s: &crate::scalars::Scalar) -> (r: Point)
    ensures
        r.repr() == pt_mul(generator_bytes(), s.repr()),
        valid_point(r.repr()),
{
    let bytes = s.to_bytes();
    let k = k256::Scalar::from_repr(*k256::FieldBytes::from_slice(&bytes)).unwrap();
    let x = k256::ProjectivePoint::GENERATOR * k;
    Point { bytes: x.to_affine().to_encoded_point(true).as_bytes().to_vec() }
}

/// Relies on `k256::ProjectivePoint::IDENTITY`: its SEC1 encoding is the
/// single zero byte.
#[verifier::external_body]
pub fn point_identity() -> (r: Point)
    ensures
        r.repr() == identity_bytes(),
        valid_point(r.repr()),
{
    let x = k256::ProjectivePoint::IDENTITY;
    Point { bytes: x.to_affine().to_encoded_point(true).as_bytes().to_vec() }
}

/// Relies on `AffinePoint::from_encoded_point`: accepts exactly the SEC1
/// encodings of curve points, and re-encoding a canonical encoding returns
/// it unchanged.
#[verifier::external_body]
pub fn point_from_bytes(b: &Vec<u8>) -> (r: Option<Point>)
    ensures
        r matches Some(p) ==> valid_point(p.repr()),
        valid_point(b@) ==> r is Some,
        r matches Some(p) ==> (valid_point(b@) ==> p.repr() == b@),
{
    let encoded = k256::EncodedPoint::from_bytes(b).ok()?;
    let affine: Option<k256::AffinePoint> =
        k256::AffinePoint::from_encoded_point(&encoded).into();
    let affine = affine?;
    Some(Point { bytes: affine.to_encoded_point(true).as_bytes().to_vec() })
}

/// Relies on `AffineCoordinates::x` and `Reduce` for `k256::Scalar`: the
/// x-coordinate of the point, reduced into the scalar field.
#[verifier::external_body]
pub fn x_coordinate(p: &Point) -> (r: crate::scalars::Scalar)
    ensures
        r.repr() == pt_x_scalar(p.repr()),
{
    let affine = decode_unchecked(&p.bytes).to_affine();
    let s = <k256::Scalar as Reduce<k256::U256>>::reduce_bytes(&affine.x());
    crate::scalars::Scalar::from_bytes(&s.to_bytes().to_vec()).unwrap()
}

/// Relies on `AffinePoint::from_encoded_point`: every canonical encoding
/// decodes; shared by the arithmetic wrappers above.
#[verifier::external_body]
fn decode_unchecked(bytes: &Vec<u8>) -> (r: k256::ProjectivePoint)
    requires
        valid_point(bytes@),
{
    let encoded = k256::EncodedPoint::from_bytes(bytes).unwrap();
    let affine = k256::AffinePoint::from_encoded_point(&encoded).unwrap();
    k256::ProjectivePoint::from(affine)
}

} // verus!
