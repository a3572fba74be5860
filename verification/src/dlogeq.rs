//! A non-interactive proof that two points share one discrete logarithm.
//!
//! The statement is `(Y_0, H, Y_1)`; the witness a scalar `x` with
//! `Y_0 = x G` and `Y_1 = x H`. The proof runs the Schnorr protocol over
//! both relations jointly under one challenge. As with the plain
//! discrete-log proof, the challenge comes from the opaque transcript, so
//! the accept/reject outcome is exercised by tests.

use vstd::prelude::*;
use crate::scalars::{Scalar, scalar_order, scalar_add, scalar_mul, scalar_random, be_val};
use crate::points::{Point, generator_mul, point_mul, point_sub, pt_mul, pt_sub, generator_bytes};
use crate::transcript::{FsTranscript, challenge_of};
use crate::codec::read_scalar;

verus! {

/// The public statement: `public0 = x G` and `public1 = x generator1`.
pub struct Statement {
    pub public0: Point,
    pub generator1: Point,
    pub public1: Point,
}

/// The private witness: the shared discrete log.
pub struct Witness {
    pub x: Scalar,
}

/// A proof of the statement: the challenge and the response.
#[derive(Debug)]
pub struct Proof {
    pub e: Scalar,
    pub s: Scalar,
}

impl Clone for Proof {
    fn clone(&self) -> (r: Self)
        ensures
            r.e.repr() == self.e.repr(),
            r.s.repr() == self.s.repr(),
    {
        Proof { e: self.e.clone(), s: self.s.clone() }
    }
}

impl Proof {
    /// The byte encoding of a proof: the challenge, then the response.
    pub open spec fn enc(self) -> Seq<u8> {
        self.e.repr() + self.s.repr()
    }

    /// Encode this proof as 64 bytes.
    pub fn to_bytes(&self) -> (r: Vec<u8>)
        ensures
            r@ == self.enc(),
    {
        let mut out = self.e.to_bytes();
        let sb = self.s.to_bytes();
        crate::codec::append_bytes(&mut out, &sb);
        out
    }

    /// Decode a proof from 64 bytes at `at`, validating both scalars.
    pub fn read(b: &Vec<u8>, at: usize) -> (r: Option<Proof>)
        requires
            at + 64 <= b@.len(),
        ensures
            r matches Some(p) ==> p.enc() == b@.subrange(at as int, at as int + 64),
            (be_val(b@.subrange(at as int, at as int + 32)) < scalar_order()
                && be_val(b@.subrange(at as int + 32, at as int + 64)) < scalar_order())
                ==> r is Some,
    {
        let total = b.len();
        proof {
            assert(at + 64 <= total);
        }
        let e = read_scalar(b, at);
        let s = read_scalar(b, at + 32);
        match (e, s) {
            (Some(e), Some(s)) => {
                let p = Proof { e, s };
                proof {
                    assert(p.enc() =~= b@.subrange(at as int, at as int + 64));
                }
                Some(p)
            }
            _ => None,
        }
    }
}

/// Absorb the statement into the transcript.
fn absorb_statement(transcript: &mut FsTranscript, statement: &Statement)
    ensures
        final(transcript).absorbed() == old(transcript).absorbed()
            .push((false, "dlogeq proof statement 0"@, statement.public0.repr()))
            .push((false, "dlogeq proof generator 1"@, statement.generator1.repr()))
            .push((false, "dlogeq proof statement 1"@, statement.public1.repr())),
{
    let b0 = statement.public0.to_bytes();
    transcript.message("dlogeq proof statement 0", &b0);
    let b1 = statement.generator1.to_bytes();
    transcript.message("dlogeq proof generator 1", &b1);
    let b2 = statement.public1.to_bytes();
    transcript.message("dlogeq proof statement 1", &b2);
}

/// The history a transcript holds just before the challenge is drawn:
/// the three statement points, then the two commitment points.
pub open spec fn dlogeq_challenge_log(
    log: Seq<(bool, Seq<char>, Seq<u8>)>,
    public0: Seq<u8>,
    generator1: Seq<u8>,
    public1: Seq<u8>,
    commitment0: Seq<u8>,
    commitment1: Seq<u8>,
) -> Seq<(bool, Seq<char>, Seq<u8>)> {
    log.push((false, "dlogeq proof statement 0"@, public0))
        .push((false, "dlogeq proof generator 1"@, generator1))
        .push((false, "dlogeq proof statement 1"@, public1))
        .push((false, "dlogeq proof commitment 0"@, commitment0))
        .push((false, "dlogeq proof commitment 1"@, commitment1))
}

/// Prove that the two public points share the witness's discrete log.
///
/// For some fresh nonce `k`: the challenge is the transcript's output
/// after absorbing the statement and the pair `(k G, k H)`, and the
/// response is `s = k + e x` in the scalar field.
pub fn prove(transcript: &mut FsTranscript, statement: &Statement, witness: &Witness)
    -> (r: Proof)
    ensures
        exists|k: Scalar| ({
            &&& r.e.repr() == challenge_of(dlogeq_challenge_log(
                old(transcript).absorbed(), statement.public0.repr(),
                statement.generator1.repr(), statement.public1.repr(),
                #[trigger] pt_mul(generator_bytes(), k.repr()),
                pt_mul(statement.generator1.repr(), k.repr())),
                "dlogeq proof challenge"@)
            &&& r.s.value() == (k.value()
                + (r.e.value() * witness.x.value()) % scalar_order()) % scalar_order()
        }),
{
    absorb_statement(transcript, statement);

    let k = scalar_random();
    let big_k0 = generator_mul(&k);
    let big_k1 = point_mul(&statement.generator1, &k);
    let c0 = big_k0.to_bytes();
    transcript.message("dlogeq proof commitment 0", &c0);
    let c1 = big_k1.to_bytes();
    transcript.message("dlogeq proof commitment 1", &c1);

    let e = transcript.challenge_scalar("dlogeq proof challenge");
    let ex = scalar_mul(&e, &witness.x);
    let s = scalar_add(&k, &ex);
    let r = Proof { e, s };
    proof {
        assert(r.e.repr() == challenge_of(dlogeq_challenge_log(
            old(transcript).absorbed(), statement.public0.repr(),
            statement.generator1.repr(), statement.public1.repr(),
            pt_mul(generator_bytes(), k.repr()),
            pt_mul(statement.generator1.repr(), k.repr())),
            "dlogeq proof challenge"@)
            && r.s.value() == (k.value()
                + (r.e.value() * witness.x.value()) % scalar_order())
                    % scalar_order());
    }
    r
}

/// Verify a proof against a statement.
///
/// Recomputes both commitments `s G - e Y_0` and `s H - e Y_1` and
/// accepts exactly when the transcript's challenge after absorbing the
/// statement and both equals the proof's.
#[must_use]
pub fn verify(transcript: &mut FsTranscript, statement: &Statement, proof: &Proof)
    -> (ok: bool)
    ensures
        ok == (proof.e.repr() == challenge_of(dlogeq_challenge_log(
            old(transcript).absorbed(), statement.public0.repr(),
            statement.generator1.repr(), statement.public1.repr(),
            pt_sub(pt_mul(generator_bytes(), proof.s.repr()),
                pt_mul(statement.public0.repr(), proof.e.repr())),
            pt_sub(pt_mul(statement.generator1.repr(), proof.s.repr()),
                pt_mul(statement.public1.repr(), proof.e.repr()))),
            "dlogeq proof challenge"@)),
{
    absorb_statement(transcript, statement);

    let sg = generator_mul(&proof.s);
    let ey0 = point_mul(&statement.public0, &proof.e);
    let big_k0 = point_sub(&sg, &ey0);
    let sh = point_mul(&statement.generator1, &proof.s);
    let ey1 = point_mul(&statement.public1, &proof.e);
    let big_k1 = point_sub(&sh, &ey1);
    let c0 = big_k0.to_bytes();
    transcript.message("dlogeq proof commitment 0", &c0);
    let c1 = big_k1.to_bytes();
    transcript.message("dlogeq proof commitment 1", &c1);

    let e = transcript.challenge_scalar("dlogeq proof challenge");
    e == proof.e
}

} // verus!
