//! A non-interactive Schnorr proof of knowledge of a discrete logarithm.
//!
//! The statement is a point `Y`; the witness a scalar `x` with `Y = x G`.
//! The prover commits `K = k G` for a fresh `k`, obtains the challenge `e`
//! from the transcript, and reveals `s = k + e x`. The verifier recomputes
//! `K = s G - e Y` and checks that the transcript yields the same
//! challenge. The challenge itself comes from the opaque transcript, so the
//! contracts pin the algebra of each step but not the accept/reject
//! outcome; the end-to-end behaviour is exercised by tests.

use vstd::prelude::*;
use crate::scalars::{Scalar, scalar_order, scalar_add, scalar_mul, scalar_random, be_val};
use crate::points::{Point, generator_mul, point_mul, point_sub, pt_mul, pt_sub, generator_bytes};
use crate::transcript::{FsTranscript, challenge_of};
use crate::codec::read_scalar;

verus! {

/// The public statement: a point whose discrete log is claimed known.
pub struct Statement {
    pub public: Point,
}

/// The private witness: the discrete log itself.
pub struct Witness {
    pub x: Scalar,
}

/// A proof of the statement: the challenge and the response.
#[derive(Debug)]
pub struct Proof {
    pub e: Scalar,
    pub s: Scalar,
}

impl Clone for Proof {
    fn clone(&self) -> (r: Self)
        ensures
            r.e.repr() == self.e.repr(),
            r.s.repr() == self.s.repr(),
    {
        Proof { e: self.e.clone(), s: self.s.clone() }
    }
}

impl Proof {
    /// The byte encoding of a proof: the challenge, then the response.
    pub open spec fn enc(self) -> Seq<u8> {
        self.e.repr() + self.s.repr()
    }

    /// Encode this proof as 64 bytes.
    pub fn to_bytes(&self) -> (r: Vec<u8>)
        ensures
            r@ == self.enc(),
    {
        let mut out = self.e.to_bytes();
        let sb = self.s.to_bytes();
        crate::codec::append_bytes(&mut out, &sb);
        out
    }

    /// Decode a proof from 64 bytes at `at`, validating both scalars.
    pub fn read(b: &Vec<u8>, at: usize) -> (r: Option<Proof>)
        requires
            at + 64 <= b@.len(),
        ensures
            r matches Some(p) ==> p.enc() == b@.subrange(at as int, at as int + 64),
            (be_val(b@.subrange(at as int, at as int + 32)) < scalar_order()
                && be_val(b@.subrange(at as int + 32, at as int + 64)) < scalar_order())
                ==> r is Some,
    {
        let total = b.len();
        proof {
            assert(at + 64 <= total);
        }
        let e = read_scalar(b, at);
        let s = read_scalar(b, at + 32);
        match (e, s) {
            (Some(e), Some(s)) => {
                let p = Proof { e, s };
                proof {
                    assert(p.enc() =~= b@.subrange(at as int, at as int + 64));
                }
                Some(p)
            }
            _ => None,
        }
    }
}

/// The history a transcript holds just before the challenge is drawn:
/// the statement's point, then the commitment point.
pub open spec fn dlog_challenge_log(
    log: Seq<(bool, Seq<char>, Seq<u8>)>,
    statement_y: Seq<u8>,
    commitment: Seq<u8>,
) -> Seq<(bool, Seq<char>, Seq<u8>)> {
    log.push((false, "dlog proof statement"@, statement_y))
        .push((false, "dlog proof commitment"@, commitment))
}

/// Prove knowledge of the discrete log of the statement's point.
///
/// For some fresh nonce `k`: the challenge is the transcript's output
/// after absorbing the statement and `K = k G`, and the response is
/// `s = k + e x` in the scalar field.
pub fn prove(transcript: &mut FsTranscript, statement: &Statement, witness: &Witness)
    -> (r: Proof)
    ensures
        exists|k: Scalar| ({
            &&& r.e.repr() == challenge_of(dlog_challenge_log(
                old(transcript).absorbed(), statement.public.repr(),
                #[trigger] pt_mul(generator_bytes(), k.repr())),
                "dlog proof challenge"@)
            &&& r.s.value() == (k.value()
                + (r.e.value() * witness.x.value()) % scalar_order()) % scalar_order()
        }),
{
    let stmt_bytes = statement.public.to_bytes();
    transcript.message("dlog proof statement", &stmt_bytes);

    let k = scalar_random();
    let big_k = generator_mul(&k);
    let commitment_bytes = big_k.to_bytes();
    transcript.message("dlog proof commitment", &commitment_bytes);

    let e = transcript.challenge_scalar("dlog proof challenge");
    let ex = scalar_mul(&e, &witness.x);
    let s = scalar_add(&k, &ex);
    let r = Proof { e, s };
    proof {
        assert(r.e.repr() == challenge_of(dlog_challenge_log(
            old(transcript).absorbed(), statement.public.repr(),
            pt_mul(generator_bytes(), k.repr())), "dlog proof challenge"@)
            && r.s.value() == (k.value()
                + (r.e.value() * witness.x.value()) % scalar_order())
                    % scalar_order());
    }
    r
}

/// Verify a proof against a statement.
///
/// Recomputes `K = s G - e Y` and accepts exactly when the transcript's
/// challenge after absorbing the statement and `K` equals the proof's.
#[must_use]
pub fn verify(transcript: &mut FsTranscript, statement: &Statement, proof: &Proof)
    -> (ok: bool)
    ensures
        ok == (proof.e.repr() == challenge_of(dlog_challenge_log(
            old(transcript).absorbed(), statement.public.repr(),
            pt_sub(pt_mul(generator_bytes(), proof.s.repr()),
                pt_mul(statement.public.repr(), proof.e.repr()))),
            "dlog proof challenge"@)),
{
    let stmt_bytes = statement.public.to_bytes();
    transcript.message("dlog proof statement", &stmt_bytes);

    let sg = generator_mul(&proof.s);
    let ey = point_mul(&statement.public, &proof.e);
    let big_k = point_sub(&sg, &ey);
    let commitment_bytes = big_k.to_bytes();
    transcript.message("dlog proof commitment", &commitment_bytes);

    let e = transcript.challenge_scalar("dlog proof challenge");
    e == proof.e
}

} // verus!
