//! Committed Beaver triples.
//!
//! A triple is a secret sharing of scalars `(a, b, c)` with `a b = c`,
//! together with the public points `(A, B, C) = (a G, b G, c G)`. Each
//! signature consumes two triples; they are generated without knowledge of
//! the signing key. The `deal` function builds triples at a trusted dealer;
//! the multi-party generation pipeline lives in the submodules reachable
//! from here.

use vstd::prelude::*;
use crate::protocol::Participant;
use crate::scalars::{Scalar, scalar_mul, scalar_random, scalar_order, be_val};
use crate::points::{Point, generator_mul, pt_mul, generator_bytes};
use crate::math::{Polynomial, poly_eval};

verus! {

/// The public part of a triple: the three points, and who can use it.
#[derive(Debug)]
pub struct TriplePub {
    pub big_a: Point,
    pub big_b: Point,
    pub big_c: Point,
    /// The participants the triple is shared among.
    pub participants: Vec<Participant>,
    /// How many of them can reconstruct it.
    pub threshold: usize,
}

impl Clone for TriplePub {
    fn clone(&self) -> (r: Self)
        ensures
            r.big_a.repr() == self.big_a.repr(),
            r.big_b.repr() == self.big_b.repr(),
            r.big_c.repr() == self.big_c.repr(),
            r.participants@ == self.participants@,
            r.threshold == self.threshold,
    {
        let mut participants: Vec<Participant> = Vec::new();
        let mut i: usize = 0;
        while i < self.participants.len()
            invariant
                i <= self.participants@.len(),
                participants@ == self.participants@.subrange(0, i as int),
            decreases self.participants@.len() - i,
        {
            participants.push(self.participants[i]);
            proof {
                assert(participants@ =~= self.participants@.subrange(0, i + 1));
            }
            i = i + 1;
        }
        proof {
            assert(participants@ =~= self.participants@);
        }
        TriplePub {
            big_a: self.big_a.clone(),
            big_b: self.big_b.clone(),
            big_c: self.big_c.clone(),
            participants,
            threshold: self.threshold,
        }
    }
}

impl PartialEq for TriplePub {
    fn eq(&self, other: &Self) -> (r: bool) {
        let points_eq = self.big_a == other.big_a && self.big_b == other.big_b
            && self.big_c == other.big_c;
        if !points_eq {
            return false;
        }
        if self.threshold != other.threshold {
            return false;
        }
        if self.participants.len() != other.participants.len() {
            proof {
                assert(self.participants@ != other.participants@);
            }
            return false;
        }
        let mut i: usize = 0;
        while i < self.participants.len()
            invariant
                self.participants@.len() == other.participants@.len(),
                i <= self.participants@.len(),
                forall|k: int| 0 <= k < i ==> self.participants@[k] == other.participants@[k],
            decreases self.participants@.len() - i,
        {
            if self.participants[i] != other.participants[i] {
                return false;
            }
            i = i + 1;
        }
        proof {
            assert(self.participants@ =~= other.participants@);
        }
        true
    }
}

impl Eq for TriplePub {}

impl vstd::std_specs::cmp::PartialEqSpecImpl for TriplePub {
    open spec fn obeys_eq_spec() -> bool {
        true
    }

    open spec fn eq_spec(&self, other: &Self) -> bool {
        self.big_a.repr() == other.big_a.repr()
            && self.big_b.repr() == other.big_b.repr()
            && self.big_c.repr() == other.big_c.repr()
            && self.participants@ == other.participants@
            && self.threshold == other.threshold
    }
}

/// One party's share of a triple: shares of each of `a`, `b` and `c`.
#[derive(Debug)]
pub struct TripleShare {
    pub a: Scalar,
    pub b: Scalar,
    pub c: Scalar,
}

impl Clone for TripleShare {
    fn clone(&self) -> (r: Self)
        ensures
            r.a.repr() == self.a.repr(),
            r.b.repr() == self.b.repr(),
            r.c.repr() == self.c.repr(),
    {
        TripleShare { a: self.a.clone(), b: self.b.clone(), c: self.c.clone() }
    }
}

/// The structure of a dealt triple: three polynomials of the sharing size
/// whose constant terms `a`, `b`, `c` satisfy `a b = c` in the scalar
/// field, with every share the evaluations at its participant's scalar and
/// the public points the generator images of the constant terms (given by
/// their canonical representations `ra`, `rb`, `rc`).
pub open spec fn dealt_triple(
    fa: Seq<nat>,
    fb: Seq<nat>,
    fc: Seq<nat>,
    ra: Seq<u8>,
    rb: Seq<u8>,
    rc: Seq<u8>,
    participants: Seq<Participant>,
    threshold: usize,
    tpub: TriplePub,
    shares: Seq<TripleShare>,
) -> bool {
    let sz: int = if threshold == 0 { 1 } else { threshold as int };
    &&& fa.len() == sz && fb.len() == sz && fc.len() == sz
    &&& fa.len() > 0
    &&& be_val(ra) == fa.first() && be_val(rb) == fb.first() && be_val(rc) == fc.first()
    &&& fc.first() == (fa.first() * fb.first()) % scalar_order()
    &&& tpub.big_a.repr() == pt_mul(generator_bytes(), ra)
    &&& tpub.big_b.repr() == pt_mul(generator_bytes(), rb)
    &&& tpub.big_c.repr() == pt_mul(generator_bytes(), rc)
    &&& shares.len() == participants.len()
    &&& forall|k: int| 0 <= k < shares.len() ==> {
        &&& (#[trigger] shares[k]).a.value()
            == poly_eval(fa, (participants[k].0 + 1) as nat)
        &&& shares[k].b.value() == poly_eval(fb, (participants[k].0 + 1) as nat)
        &&& shares[k].c.value() == poly_eval(fc, (participants[k].0 + 1) as nat)
    }
}

/// Deal a triple at a trusted dealer.
///
/// Samples `a` and `b`, sets `c = a b`, extends all three to random
/// polynomials of degree below the threshold, and hands participant `i` the
/// evaluations at its scalar. The dealer must be trusted to forget the
/// secrets. The public points are the generator images of `a`, `b` and `c`,
/// and share `i` is the evaluation of the three polynomials at participant
/// `i`'s scalar, which is what makes Lagrange reconstruction work: the
/// whole structure is pinned by `dealt_triple`.
pub fn deal(participants: &Vec<Participant>, threshold: usize)
    -> (r: (TriplePub, Vec<TripleShare>))
    ensures
        r.1@.len() == participants@.len(),
        r.0.participants@ == participants@,
        r.0.threshold == threshold,
        exists|fa: Seq<nat>, fb: Seq<nat>, fc: Seq<nat>,
            ra: Seq<u8>, rb: Seq<u8>, rc: Seq<u8>|
            dealt_triple(fa, fb, fc, ra, rb, rc, participants@, threshold, r.0, r.1@),
{
    let a = scalar_random();
    let b = scalar_random();
    let c = scalar_mul(&a, &b);

    let f_a = Polynomial::extend_random(threshold, &a);
    let f_b = Polynomial::extend_random(threshold, &b);
    let f_c = Polynomial::extend_random(threshold, &c);

    let mut shares: Vec<TripleShare> = Vec::new();
    let mut participants_owned: Vec<Participant> = Vec::new();
    let mut i: usize = 0;
    while i < participants.len()
        invariant
            i <= participants@.len(),
            shares@.len() == i,
            participants_owned@ == participants@.subrange(0, i as int),
            forall|k: int| 0 <= k < i ==> {
                &&& (#[trigger] shares@[k]).a.value()
                    == poly_eval(f_a.values(), (participants@[k].0 + 1) as nat)
                &&& shares@[k].b.value()
                    == poly_eval(f_b.values(), (participants@[k].0 + 1) as nat)
                &&& shares@[k].c.value()
                    == poly_eval(f_c.values(), (participants@[k].0 + 1) as nat)
            },
        decreases participants@.len() - i,
    {
        let p = participants[i];
        participants_owned.push(p);
        let p_scalar = p.scalar();
        shares.push(TripleShare {
            a: f_a.evaluate(&p_scalar),
            b: f_b.evaluate(&p_scalar),
            c: f_c.evaluate(&p_scalar),
        });
        proof {
            assert(participants_owned@ =~= participants@.subrange(0, i + 1));
        }
        i = i + 1;
    }
    proof {
        assert(participants_owned@ =~= participants@);
    }

    let triple_pub = TriplePub {
        big_a: generator_mul(&a),
        big_b: generator_mul(&b),
        big_c: generator_mul(&c),
        participants: participants_owned,
        threshold,
    };
    proof {
        assert(dealt_triple(f_a.values(), f_b.values(), f_c.values(),
            a.repr(), b.repr(), c.repr(), participants@, threshold,
            triple_pub, shares@));
    }
    (triple_pub, shares)
}

} // verus!
