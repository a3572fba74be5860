//! Scalars of the secp256k1 group order field.
//!
//! A scalar is held as its canonical 32-byte big-endian representation, with
//! the invariant that the value lies below the group order. All field
//! arithmetic is delegated to the `k256` crate through trusted wrappers whose
//! contracts speak about the integer value of the representation, so that
//! everything built on top can reason in plain modular arithmetic.

use vstd::prelude::*;
use k256::elliptic_curve::Field;
use k256::elliptic_curve::PrimeField;
use k256::elliptic_curve::scalar::IsHigh;

verus! {

/// The integer value of a big-endian byte string.
pub open spec fn be_val(s: Seq<u8>) -> nat
    decreases s.len(),
{
    if s.len() == 0 {
        0
    } else {
        (be_val(s.drop_last()) * 256 + s.last()) as nat
    }
}

/// The order of the secp256k1 group: the modulus of its scalar field.
pub open spec fn scalar_order() -> nat {
    0xFFFFFFFF_FFFFFFFF_FFFFFFFF_FFFFFFFE_BAAEDCE6_AF48A03B_BFD25E8C_D0364141nat
}

/// A scalar modulo the secp256k1 group order.
#[derive(Debug)]
pub struct Scalar {
    bytes: Vec<u8>,
}

impl Clone for Scalar {
    fn clone(&self) -> (r: Self)
        ensures
            r.repr() == self.repr(),
    {
        proof {
            use_type_invariant(self);
        }
        Scalar { bytes: crate::protocol::clone_bytes(&self.bytes) }
    }
}

impl Scalar {
    /// A scalar is always held in canonical reduced form.
    #[verifier::type_invariant]
    pub closed spec fn inv(self) -> bool {
        self.bytes@.len() == 32 && be_val(self.bytes@) < scalar_order()
    }

    /// The canonical 32-byte big-endian representation.
    pub closed spec fn repr(self) -> Seq<u8> {
        self.bytes@
    }

    /// The integer value of this scalar.
    pub open spec fn value(self) -> nat {
        be_val(self.repr())
    }

    /// The representation is 32 bytes and the value is reduced.
    pub proof fn lemma_canonical(self)
        requires
            self.inv(),
        ensures
            self.repr().len() == 32,
            self.value() < scalar_order(),
    {
    }

    /// The canonical representation, as bytes.
    pub fn to_bytes(&self) -> (r: Vec<u8>)
        ensures
            r@ == self.repr(),
    {
        crate::protocol::clone_bytes(&self.bytes)
    }

    /// Parse a canonical 32-byte representation; reject anything else.
    pub fn from_bytes(bytes: &Vec<u8>) -> (r: Option<Scalar>)
        ensures
            r is Some <==> (bytes@.len() == 32 && be_val(bytes@) < scalar_order()),
            r matches Some(s) ==> s.repr() == bytes@,
    {
        if bytes.len() != 32 {
            return None;
        }
        scalar_from_repr(bytes)
    }

    /// Whether this is the zero scalar.
    pub fn is_zero(&self) -> (r: bool)
        ensures
            r == (self.value() == 0),
    {
        proof {
            use_type_invariant(self);
        }
        let mut i: usize = 0;
        let mut all_zero = true;
        while i < 32
            invariant
                self.bytes@.len() == 32,
                i <= 32,
                all_zero == (forall|j: int| 0 <= j < i ==> self.bytes@[j] == 0),
            decreases 32 - i,
        {
            if self.bytes[i] != 0 {
                all_zero = false;
            }
            i = i + 1;
        }
        proof {
            lemma_be_val_zero_iff(self.bytes@);
        }
        all_zero
    }
}

/// A byte string has value zero exactly when every byte is zero.
proof fn lemma_be_val_zero_iff(s: Seq<u8>)
    ensures
        (be_val(s) == 0) <==> (forall|j: int| 0 <= j < s.len() ==> s[j] == 0),
    decreases s.len(),
{
    if s.len() > 0 {
        lemma_be_val_zero_iff(s.drop_last());
        if be_val(s) == 0 {
            assert(forall|j: int| 0 <= j < s.len() - 1 ==> s.drop_last()[j] == s[j]);
        } else {
            if forall|j: int| 0 <= j < s.len() ==> s[j] == 0 {
                assert(forall|j: int| 0 <= j < s.len() - 1 ==> s.drop_last()[j] == 0);
                assert(s.last() == 0);
            }
        }
    }
}

impl PartialEq for Scalar {
    fn eq(&self, other: &Self) -> (r: bool) {
        proof {
            use_type_invariant(self);
            use_type_invariant(other);
        }
        bytes_eq(&self.bytes, &other.bytes)
    }
}

impl Eq for Scalar {}

impl vstd::std_specs::cmp::PartialEqSpecImpl for Scalar {
    open spec fn obeys_eq_spec() -> bool {
        true
    }

    open spec fn eq_spec(&self, other: &Self) -> bool {
        self.repr() == other.repr()
    }
}

/// Compare two byte vectors for equality.
pub fn bytes_eq(a: &Vec<u8>, b: &Vec<u8>) -> (r: bool)
    ensures
        r == (a@ == b@),
{
    if a.len() != b.len() {
        proof {
            assert(a@.len() != b@.len());
        }
        return false;
    }
    let mut i: usize = 0;
    while i < a.len()
        invariant
            a@.len() == b@.len(),
            i <= a@.len(),
            forall|j: int| 0 <= j < i ==> a@[j] == b@[j],
        decreases a.len() - i,
    {
        if a[i] != b[i] {
            return false;
        }
        i = i + 1;
    }
    proof {
        assert(a@ =~= b@);
    }
    true
}

/// Relies on `k256::Scalar::from_repr`: accepts exactly the canonical
/// big-endian representations of values below the group order.
#[verifier::external_body]
fn scalar_from_repr(bytes: &Vec<u8>) -> (r: Option<Scalar>)
    requires
        bytes@.len() == 32,
    ensures
        r is Some <==> be_val(bytes@) < scalar_order(),
        r matches Some(s) ==> s.repr() == bytes@,
{
    let repr = *k256::FieldBytes::from_slice(bytes);
    let parsed: Option<k256::Scalar> = k256::Scalar::from_repr(repr).into();
    parsed.map(|s| Scalar { bytes: s.to_bytes().to_vec() })
}

/// Relies on `k256::Scalar::from(u64)`: embeds a 64-bit integer in the field.
#[verifier::external_body]
pub fn scalar_from_u64(x: u64) -> (r: Scalar)
    ensures
        r.value() == x,
{
    Scalar { bytes: k256::Scalar::from(x).to_bytes().to_vec() }
}

/// Relies on `k256::Scalar` addition: reduced modulo the group order.
#[verifier::external_body]
pub fn scalar_add(a: &Scalar, b: &Scalar) -> (r: Scalar)
    ensures
        r.value() == (a.value() + b.value()) % scalar_order(),
{
    let x = k256::Scalar::from_repr(*k256::FieldBytes::from_slice(&a.bytes)).unwrap();
    let y = k256::Scalar::from_repr(*k256::FieldBytes::from_slice(&b.bytes)).unwrap();
    Scalar { bytes: (x + y).to_bytes().to_vec() }
}

/// Relies on `k256::Scalar` subtraction: reduced modulo the group order.
#[verifier::external_body]
pub fn scalar_sub(a: &Scalar, b: &Scalar) -> (r: Scalar)
    ensures
        (r.value() + b.value()) % scalar_order() == a.value() % scalar_order(),
        r.value() < scalar_order(),
{
    let x = k256::Scalar::from_repr(*k256::FieldBytes::from_slice(&a.bytes)).unwrap();
    let y = k256::Scalar::from_repr(*k256::FieldBytes::from_slice(&b.bytes)).unwrap();
    Scalar { bytes: (x - y).to_bytes().to_vec() }
}

/// Relies on `k256::Scalar` multiplication: reduced modulo the group order.
#[verifier::external_body]
pub fn scalar_mul(a: &Scalar, b: &Scalar) -> (r: Scalar)
    ensures
        r.value() == (a.value() * b.value()) % scalar_order(),
{
    let x = k256::Scalar::from_repr(*k256::FieldBytes::from_slice(&a.bytes)).unwrap();
    let y = k256::Scalar::from_repr(*k256::FieldBytes::from_slice(&b.bytes)).unwrap();
    Scalar { bytes: (x * y).to_bytes().to_vec() }
}

/// Relies on `k256::Scalar` negation: the additive inverse mod the order.
#[verifier::external_body]
pub fn scalar_neg(a: &Scalar) -> (r: Scalar)
    ensures
        (r.value() + a.value()) % scalar_order() == 0,
        r.value() < scalar_order(),
{
    let x = k256::Scalar::from_repr(*k256::FieldBytes::from_slice(&a.bytes)).unwrap();
    Scalar { bytes: (-x).to_bytes().to_vec() }
}

/// Relies on `k256::Scalar::invert`: fails exactly on zero, and otherwise
/// returns the multiplicative inverse.
#[verifier::external_body]
pub fn scalar_invert(a: &Scalar) -> (r: Option<Scalar>)
    ensures
        r is Some <==> a.value() != 0,
        r matches Some(s) ==> (s.value() * a.value()) % scalar_order() == 1,
{
    let x = k256::Scalar::from_repr(*k256::FieldBytes::from_slice(&a.bytes)).unwrap();
    let inv: Option<k256::Scalar> = x.invert().into();
    inv.map(|s| Scalar { bytes: s.to_bytes().to_vec() })
}

/// Relies on `IsHigh for k256::Scalar`: whether the value exceeds half the
/// group order.
#[verifier::external_body]
pub fn scalar_is_high(a: &Scalar) -> (r: bool)
    ensures
        r == (a.value() > (scalar_order() - 1) / 2),
{
    let x = k256::Scalar::from_repr(*k256::FieldBytes::from_slice(&a.bytes)).unwrap();
    x.is_high().into()
}

/// Relies on `Field::random` for `k256::Scalar` over the system RNG:
/// a uniformly random field element.
#[verifier::external_body]
pub fn scalar_random() -> (r: Scalar)
{
    let s = k256::Scalar::random(&mut rand_core::OsRng);
    Scalar { bytes: s.to_bytes().to_vec() }
}

} // verus!
