//! Hashing and commitments over a duplex sponge.
//!
//! A commitment to a byte string is the sponge output over a domain label,
//! a 32-byte randomizer and the data; it is checked by recomputing. The
//! sponge itself lives in the `ck_meow` crate behind trusted wrappers whose
//! results are named: the names say nothing beyond determinism and length,
//! which is exactly what recomputing-and-comparing needs.

use vstd::prelude::*;
use rand_core::RngCore;
use crate::scalars::bytes_eq;
use crate::protocol::clone_bytes;

verus! {

/// The sponge output committing to `data` under randomizer `r`.
pub uninterp spec fn commit_of(r: Seq<u8>, data: Seq<u8>) -> Seq<u8>;

/// The sponge output hashing `data`.
pub uninterp spec fn hash_of(data: Seq<u8>) -> Seq<u8>;

/// The randomizer making a commitment hiding.
#[derive(Debug)]
pub struct Randomizer {
    bytes: Vec<u8>,
}

impl Randomizer {
    /// A randomizer is 32 bytes.
    #[verifier::type_invariant]
    pub closed spec fn inv(self) -> bool {
        self.bytes@.len() == 32
    }

    /// The randomizer bytes.
    pub closed spec fn repr(self) -> Seq<u8> {
        self.bytes@
    }

    /// The randomizer, as bytes.
    pub fn to_bytes(&self) -> (r: Vec<u8>)
        ensures
            r@ == self.repr(),
    {
        clone_bytes(&self.bytes)
    }

    /// Rebuild a randomizer from its 32 bytes.
    pub fn from_bytes(bytes: &Vec<u8>) -> (r: Option<Randomizer>)
        ensures
            r is Some <==> bytes@.len() == 32,
            r matches Some(x) ==> x.repr() == bytes@,
    {
        if bytes.len() == 32 {
            Some(Randomizer { bytes: clone_bytes(bytes) })
        } else {
            None
        }
    }

    /// A fresh random randomizer.
    pub fn random() -> (r: Randomizer) {
        Randomizer { bytes: random_bytes32() }
    }
}

impl Clone for Randomizer {
    fn clone(&self) -> (r: Self)
        ensures
            r.repr() == self.repr(),
    {
        proof {
            use_type_invariant(self);
        }
        Randomizer { bytes: clone_bytes(&self.bytes) }
    }
}

impl PartialEq for Randomizer {
    fn eq(&self, other: &Self) -> (r: bool) {
        proof {
            use_type_invariant(self);
            use_type_invariant(other);
        }
        bytes_eq(&self.bytes, &other.bytes)
    }
}

impl Eq for Randomizer {}

impl vstd::std_specs::cmp::PartialEqSpecImpl for Randomizer {
    open spec fn obeys_eq_spec() -> bool {
        true
    }

    open spec fn eq_spec(&self, other: &Self) -> bool {
        self.repr() == other.repr()
    }
}

/// A hiding and binding commitment to a byte string.
#[derive(Debug)]
pub struct Commitment {
    bytes: Vec<u8>,
}

impl Commitment {
    /// A commitment is 32 bytes.
    #[verifier::type_invariant]
    pub closed spec fn inv(self) -> bool {
        self.bytes@.len() == 32
    }

    /// The commitment bytes.
    pub closed spec fn repr(self) -> Seq<u8> {
        self.bytes@
    }

    /// The commitment, as bytes.
    pub fn to_bytes(&self) -> (r: Vec<u8>)
        ensures
            r@ == self.repr(),
    {
        clone_bytes(&self.bytes)
    }

    /// Rebuild a commitment from its 32 bytes.
    pub fn from_bytes(bytes: &Vec<u8>) -> (r: Option<Commitment>)
        ensures
            r is Some <==> bytes@.len() == 32,
            r matches Some(x) ==> x.repr() == bytes@,
    {
        if bytes.len() == 32 {
            Some(Commitment { bytes: clone_bytes(bytes) })
        } else {
            None
        }
    }

    /// Whether this commitment opens to `data` under randomizer `r`.
    ///
    /// True exactly when this commitment is the sponge output for the pair,
    /// so an opening to different data needs a sponge collision.
    #[must_use]
    pub fn check(&self, data: &Vec<u8>, r: &Randomizer) -> (ok: bool)
        ensures
            ok == (self.repr() == commit_of(r.repr(), data@)),
    {
        proof {
            use_type_invariant(self);
        }
        let rb = r.to_bytes();
        let expected = commit_compute(&rb, data);
        bytes_eq(&self.bytes, &expected)
    }
}

impl Clone for Commitment {
    fn clone(&self) -> (r: Self)
        ensures
            r.repr() == self.repr(),
    {
        proof {
            use_type_invariant(self);
        }
        Commitment { bytes: clone_bytes(&self.bytes) }
    }
}

impl PartialEq for Commitment {
    fn eq(&self, other: &Self) -> (r: bool) {
        proof {
            use_type_invariant(self);
            use_type_invariant(other);
        }
        bytes_eq(&self.bytes, &other.bytes)
    }
}

impl Eq for Commitment {}

impl vstd::std_specs::cmp::PartialEqSpecImpl for Commitment {
    open spec fn obeys_eq_spec() -> bool {
        true
    }

    open spec fn eq_spec(&self, other: &Self) -> bool {
        self.repr() == other.repr()
    }
}

/// Commit to a byte string: a fresh randomizer and the sponge output over it
/// and the data.
pub fn commit(data: &Vec<u8>) -> (r: (Commitment, Randomizer))
    ensures
        r.0.repr() == commit_of(r.1.repr(), data@),
{
    let randomizer = Randomizer::random();
    let rb = randomizer.to_bytes();
    let c = commit_compute(&rb, data);
    (Commitment { bytes: c }, randomizer)
}

/// What `Commitment::check` decides, over representations.
pub open spec fn check_ok(c: Seq<u8>, data: Seq<u8>, r: Seq<u8>) -> bool {
    c == commit_of(r, data)
}

/// A commitment opens under the data and randomizer it was built from.
///
/// That it opens under no other data rests on the sponge's collision
/// resistance, which is not modelled here.
pub proof fn lemma_commit_then_check(r: Seq<u8>, data: Seq<u8>)
    ensures
        check_ok(commit_of(r, data), data, r),
{
}

/// The output of hashing a byte string.
#[derive(Debug)]
pub struct Digest {
    bytes: Vec<u8>,
}

impl Digest {
    /// A digest is 32 bytes.
    #[verifier::type_invariant]
    pub closed spec fn inv(self) -> bool {
        self.bytes@.len() == 32
    }

    /// The digest bytes.
    pub closed spec fn repr(self) -> Seq<u8> {
        self.bytes@
    }

    /// The digest, as bytes.
    pub fn to_bytes(&self) -> (r: Vec<u8>)
        ensures
            r@ == self.repr(),
    {
        clone_bytes(&self.bytes)
    }

    /// Rebuild a digest from its 32 bytes.
    pub fn from_bytes(bytes: &Vec<u8>) -> (r: Option<Digest>)
        ensures
            r is Some <==> bytes@.len() == 32,
            r matches Some(x) ==> x.repr() == bytes@,
    {
        if bytes.len() == 32 {
            Some(Digest { bytes: clone_bytes(bytes) })
        } else {
            None
        }
    }
}

impl Clone for Digest {
    fn clone(&self) -> (r: Self)
        ensures
            r.repr() == self.repr(),
    {
        proof {
            use_type_invariant(self);
        }
        Digest { bytes: clone_bytes(&self.bytes) }
    }
}

impl PartialEq for Digest {
    fn eq(&self, other: &Self) -> (r: bool) {
        proof {
            use_type_invariant(self);
            use_type_invariant(other);
        }
        bytes_eq(&self.bytes, &other.bytes)
    }
}

impl Eq for Digest {}

impl vstd::std_specs::cmp::PartialEqSpecImpl for Digest {
    open spec fn obeys_eq_spec() -> bool {
        true
    }

    open spec fn eq_spec(&self, other: &Self) -> bool {
        self.repr() == other.repr()
    }
}

/// Hash a byte string to a short digest.
pub fn hash(data: &Vec<u8>) -> (r: Digest)
    ensures
        r.repr() == hash_of(data@),
{
    Digest { bytes: hash_compute(data) }
}

/// Relies on `ck_meow::Meow`: absorbing the randomizer and the data under
/// the commitment label and squeezing 32 bytes, a deterministic function of
/// both.
#[verifier::external_body]
fn commit_compute(r: &Vec<u8>, data: &Vec<u8>) -> (out: Vec<u8>)
    ensures
        out@ == commit_of(r@, data@),
        out@.len() == 32,
{
    let mut meow = ck_meow::Meow::new(b"cait-sith v0.8.0 commitment");
    meow.ad(r, false);
    meow.meta_ad(b"start data", false);
    meow.ad(data, false);
    let mut out = vec![0u8; 32];
    meow.prf(&mut out, false);
    out
}

/// Relies on `ck_meow::Meow`: absorbing the data under the hash label and
/// squeezing 32 bytes, a deterministic function of the data.
#[verifier::external_body]
fn hash_compute(data: &Vec<u8>) -> (out: Vec<u8>)
    ensures
        out@ == hash_of(data@),
        out@.len() == 32,
{
    let mut meow = ck_meow::Meow::new(b"cait-sith v0.8.0 generic hash");
    meow.ad(data, false);
    let mut out = vec![0u8; 32];
    meow.prf(&mut out, false);
    out
}

/// A fresh 32-byte seed from the system RNG.
pub fn random_seed() -> (out: Vec<u8>)
    ensures
        out@.len() == 32,
{
    random_bytes32()
}

/// Relies on `rand_core::OsRng::fill_bytes`: 32 bytes from the system RNG.
#[verifier::external_body]
fn random_bytes32() -> (out: Vec<u8>)
    ensures
        out@.len() == 32,
{
    let mut out = vec![0u8; 32];
    rand_core::OsRng.fill_bytes(&mut out);
    out
}

} // verus!
