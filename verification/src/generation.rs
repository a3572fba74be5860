//! Committed Beaver triple generation.
//!
//! Each party samples polynomials `E`, `F` and `L` with `L(0) = 0`,
//! commits to their group images, and later opens the commitment with
//! proofs of knowledge of `E(0)` and `F(0)`. Shares of `E` and `F` are
//! exchanged and summed; the product `E(0) F(0)` is shared through the
//! multi-party multiplication, which runs embedded in this protocol under
//! the confirmation hash as session identifier; and the `L` polynomials
//! re-share it at degree below the threshold. The per-round computations
//! and checks are standalone functions with their own contracts; the
//! protocol type drives them over the shared broadcast channel while the
//! multiplication's pairwise traffic flows over the private channels.

use vstd::prelude::*;
use crate::protocol::{Participant, Action, Protocol, ProtocolError, InitializationError, MessageData, Message};
use crate::participants::{ParticipantList, ParticipantMap, ParticipantCounter};
use crate::scalars::{Scalar, scalar_add, scalar_from_u64};
use crate::points::{Point, pt_mul, generator_bytes, identity_bytes, generator_mul, point_add, point_mul};
use crate::math::{Polynomial, GroupPolynomial, gpoly_eval};
use crate::crypto::{Commitment, Randomizer, check_ok, commit, hash, Digest};
use crate::codec::{enc_points, encode_group_poly, read_group_poly, append_bytes, take_bytes, read_scalar, read_point, append_point, append_scalar};
use crate::triples::{TriplePub, TripleShare};
use crate::transcript::FsTranscript;
use crate::runtime::{Comms, MessageHeader, push_u64_le};
use crate::multiplication::{MultiplicationProtocol, multiplication};
use crate::keyshare::has_duplicates;
use crate::dlog;
use crate::dlogeq;

verus! {

/// One party's first-round secrets: the three polynomials, with the last
/// one vanishing at zero.
pub struct TripleRoundOne {
    pub e: Polynomial,
    pub f: Polynomial,
    pub l: Polynomial,
}

/// Sample the first-round polynomials: `E` and `F` random of the
/// threshold's size, `L` random with constant term zero.
pub fn triple_round_one(threshold: usize) -> (r: TripleRoundOne)
    ensures
        r.e.values().len() == threshold,
        r.f.values().len() == threshold,
        r.l.values().len() == if threshold == 0 { 1int } else { threshold as int },
        r.l.values().first() == 0,
{
    let e = Polynomial::random(threshold);
    let f = Polynomial::random(threshold);
    let zero = crate::scalars::scalar_from_u64(0);
    let l = Polynomial::extend_random(threshold, &zero);
    TripleRoundOne { e, f, l }
}

/// The bytes a party commits to: the three group polynomials,
/// concatenated.
pub open spec fn triple_commitment_data(e: Seq<Seq<u8>>, f: Seq<Seq<u8>>, l: Seq<Seq<u8>>)
    -> Seq<u8> {
    enc_points(e) + enc_points(f) + enc_points(l)
}

/// Encode the three group polynomials for commitment or transmission.
pub fn encode_triple_commitment(big_e: &GroupPolynomial, big_f: &GroupPolynomial,
    big_l: &GroupPolynomial) -> (r: Vec<u8>)
    ensures
        r@ == triple_commitment_data(big_e.coeffs(), big_f.coeffs(), big_l.coeffs()),
{
    let mut out = encode_group_poly(big_e);
    let fb = encode_group_poly(big_f);
    append_bytes(&mut out, &fb);
    let lb = encode_group_poly(big_l);
    append_bytes(&mut out, &lb);
    out
}

/// Check an opened commitment from another party: the polynomial lengths,
/// the vanishing of `L` at zero, and the commitment itself.
///
/// Accepts exactly when all three lengths equal the threshold, the first
/// coefficient of `L`'s image is the identity, and the commitment is the
/// sponge output for the three polynomials under the randomizer.
pub fn check_triple_opening(
    threshold: usize,
    commitment: &Commitment,
    randomizer: &Randomizer,
    big_e: &GroupPolynomial,
    big_f: &GroupPolynomial,
    big_l: &GroupPolynomial,
) -> (r: Result<(), ProtocolError>)
    ensures
        r is Ok <==> {
            &&& big_e.coeffs().len() == threshold
            &&& big_f.coeffs().len() == threshold
            &&& big_l.coeffs().len() == threshold
            &&& big_l.coeffs().len() > 0 && big_l.coeffs().first() == identity_bytes()
            &&& check_ok(commitment.repr(), triple_commitment_data(big_e.coeffs(),
                big_f.coeffs(), big_l.coeffs()), randomizer.repr())
        },
{
    if big_e.len() != threshold || big_f.len() != threshold || big_l.len() != threshold {
        return Err(ProtocolError::AssertionFailed(String::from_str(
            "polynomial has the wrong length",
        )));
    }
    if threshold == 0 {
        return Err(ProtocolError::AssertionFailed(String::from_str(
            "polynomial has the wrong length",
        )));
    }
    let l_zero = big_l.evaluate_zero();
    if !l_zero.is_identity() {
        return Err(ProtocolError::AssertionFailed(String::from_str(
            "the last polynomial does not vanish at zero",
        )));
    }
    let data = encode_triple_commitment(big_e, big_f, big_l);
    if !commitment.check(&data, randomizer) {
        return Err(ProtocolError::AssertionFailed(String::from_str(
            "commitment did not match revealed polynomials",
        )));
    }
    Ok(())
}

/// Check a received share of a summed polynomial: the group image of the
/// share must be the summed group polynomial's value at this party's
/// scalar. Accepts exactly when the equation holds on encodings.
pub fn check_polynomial_share(big: &GroupPolynomial, at: &Scalar, share: &Scalar)
    -> (r: bool)
    ensures
        r == (gpoly_eval(big.coeffs(), at.repr()) == pt_mul(generator_bytes(), share.repr())),
{
    let lhs = big.evaluate(at);
    let rhs = generator_mul(share);
    lhs == rhs
}

/// Sum a list of received scalar shares onto this party's own.
pub fn sum_shares(own: &Scalar, received: &Vec<Scalar>) -> (r: Scalar)
    ensures
        crate::mta::cong(r.value() as int, own.value()
            + crate::multiplication::sum_of(received@.map_values(|s: Scalar| s.value()))),
        r.value() < crate::scalars::scalar_order(),
{
    let mut acc = own.clone();
    proof {
        use_type_invariant(own);
        own.lemma_canonical();
        let n = crate::scalars::scalar_order() as int;
        assert(received@.subrange(0, 0).map_values(|s: Scalar| s.value())
            =~= Seq::<nat>::empty());
        vstd::arithmetic::div_mod::lemma_small_mod(own.value(),
            crate::scalars::scalar_order());
    }
    let mut i: usize = 0;
    while i < received.len()
        invariant
            i <= received@.len(),
            crate::mta::cong(acc.value() as int, own.value() + crate::multiplication::sum_of(
                received@.subrange(0, i as int).map_values(|s: Scalar| s.value()))),
            acc.value() < crate::scalars::scalar_order(),
        decreases received@.len() - i,
    {
        let ghost pre = received@.subrange(0, i as int).map_values(|s: Scalar| s.value());
        let ghost old_acc = acc;
        acc = scalar_add(&acc, &received[i]);
        proof {
            let n = crate::scalars::scalar_order() as int;
            let cur = received@.subrange(0, i + 1).map_values(|s: Scalar| s.value());
            assert(cur.drop_last() =~= pre);
            assert(cur.last() == received@[i as int].value());
            vstd::arithmetic::div_mod::lemma_add_mod_noop(old_acc.value() as int,
                received@[i as int].value() as int, n);
            vstd::arithmetic::div_mod::lemma_mod_twice(old_acc.value() as int, n);
            vstd::arithmetic::div_mod::lemma_mod_twice(
                (old_acc.value() + received@[i as int].value()) as int, n);
            vstd::arithmetic::div_mod::lemma_add_mod_noop(
                own.value() as int + crate::multiplication::sum_of(pre),
                received@[i as int].value() as int, n);
            vstd::arithmetic::div_mod::lemma_mod_twice(
                received@[i as int].value() as int, n);
        }
        i = i + 1;
    }
    proof {
        assert(received@.subrange(0, received@.len() as int) =~= received@);
    }
    acc
}

/// Sum a list of received group polynomials onto this party's own,
/// coefficient-wise; every summand must have the same length.
pub fn sum_group_polynomials(own: GroupPolynomial, received: &Vec<GroupPolynomial>)
    -> (r: Result<GroupPolynomial, ProtocolError>)
    ensures
        r matches Ok(gp) ==> gp.coeffs().len() == own.coeffs().len(),
        r is Ok <==> (forall|k: int| 0 <= k < received@.len()
            ==> (#[trigger] received@[k]).coeffs().len() == own.coeffs().len()),
{
    let mut acc = own;
    let mut i: usize = 0;
    while i < received.len()
        invariant
            i <= received@.len(),
            acc.coeffs().len() == own.coeffs().len(),
            forall|k: int| 0 <= k < i
                ==> (#[trigger] received@[k]).coeffs().len() == own.coeffs().len(),
        decreases received@.len() - i,
    {
        if received[i].len() != acc.len() {
            proof {
                assert(received@[i as int].coeffs().len() != own.coeffs().len());
            }
            return Err(ProtocolError::AssertionFailed(String::from_str(
                "polynomial length mismatch",
            )));
        }
        acc = acc.add(&received[i]);
        i = i + 1;
    }
    Ok(acc)
}

/// The final check on the re-shared product: the summed `L` image, with
/// its constant coefficient replaced by the sum of the parties' product
/// commitments, must evaluate at zero to the summed `C` point.
///
/// Accepts exactly when the constant coefficient equals the expected
/// point's encoding.
pub fn check_final_c(big_l: &GroupPolynomial, big_c: &Point) -> (r: bool)
    ensures
        r == (big_l.coeffs().len() > 0 && big_l.coeffs().first() == big_c.repr()),
{
    if big_l.len() == 0 {
        return false;
    }
    let zero = big_l.evaluate_zero();
    zero == *big_c
}

/// Assemble the output of a triple generation: this party's three summed
/// shares and the public points.
pub fn assemble_triple(
    a_i: Scalar,
    b_i: Scalar,
    c_i: Scalar,
    big_a: Point,
    big_b: Point,
    big_c: Point,
    participants: Vec<crate::protocol::Participant>,
    threshold: usize,
) -> (r: (TripleShare, TriplePub))
    ensures
        r.0.a.repr() == a_i.repr(),
        r.0.b.repr() == b_i.repr(),
        r.0.c.repr() == c_i.repr(),
        r.1.big_a.repr() == big_a.repr(),
        r.1.big_b.repr() == big_b.repr(),
        r.1.big_c.repr() == big_c.repr(),
        r.1.participants@ == participants@,
        r.1.threshold == threshold,
{
    (
        TripleShare { a: a_i, b: b_i, c: c_i },
        TriplePub { big_a, big_b, big_c, participants, threshold },
    )
}

/// Decode the triple opening message: three group polynomials, the
/// randomizer, and the two proofs of knowledge, with nothing trailing.
fn decode_triple_open(payload: &Vec<u8>)
    -> (r: Option<(GroupPolynomial, GroupPolynomial, GroupPolynomial, Randomizer,
        dlog::Proof, dlog::Proof)>)
{
    let total = payload.len();
    let (big_e, p1) = match read_group_poly(payload, 0) {
        Some(t) => t,
        None => {
            return None;
        }
    };
    let (big_f, p2) = match read_group_poly(payload, p1) {
        Some(t) => t,
        None => {
            return None;
        }
    };
    let (big_l, p3) = match read_group_poly(payload, p2) {
        Some(t) => t,
        None => {
            return None;
        }
    };
    if total < 160 || p3 != total - 160 {
        return None;
    }
    let rb = take_bytes(payload, p3, 32);
    let rand = match Randomizer::from_bytes(&rb) {
        Some(r) => r,
        None => {
            return None;
        }
    };
    let proof0 = match dlog::Proof::read(payload, p3 + 32) {
        Some(p) => p,
        None => {
            return None;
        }
    };
    let proof1 = match dlog::Proof::read(payload, p3 + 96) {
        Some(p) => p,
        None => {
            return None;
        }
    };
    Some((big_e, big_f, big_l, rand, proof0, proof1))
}

/// Decode a point followed by a 64-byte proof, with nothing trailing.
fn decode_point_and_proof(payload: &Vec<u8>) -> (r: Option<(Point, Vec<u8>)>)
    ensures
        r matches Some((p, rest)) ==> rest@.len() == 64,
{
    let total = payload.len();
    let (pt, end) = match read_point(payload, 0) {
        Some(t) => t,
        None => {
            return None;
        }
    };
    if total < 64 || end != total - 64 {
        return None;
    }
    let rest = take_bytes(payload, end, 64);
    Some((pt, rest))
}

/// The initial message of a triple generation: one queued broadcast on the
/// instance's channel at waitpoint zero, carrying a commitment — the
/// sponge output over a randomizer and the encodings of three group
/// polynomials of the sharing sizes.
pub open spec fn triple_start_state(queued: Seq<Message>, tag: Seq<u8>, threshold: usize)
    -> bool {
    &&& queued.len() == 1
    &&& queued[0] matches Message::Many(data)
        && exists|rand: Seq<u8>, e: Seq<Seq<u8>>, f: Seq<Seq<u8>>, l: Seq<Seq<u8>>|
            data@ == tag + crate::runtime::u64_le_bytes(0)
                + #[trigger] crate::crypto::commit_of(rand,
                    triple_commitment_data(e, f, l))
                && e.len() == threshold && f.len() == threshold
                && l.len() == (if threshold == 0 { 1int } else { threshold as int })
}

/// Where the triple generation currently stands.
enum TripleStage {
    WaitCommitments,
    WaitConfirmations,
    WaitOpens,
    WaitShares,
    WaitBigC,
    AwaitProduct,
    WaitHatC,
    WaitLShares,
    Deliver,
    Complete,
}

/// One participant's instance of the triple generation protocol.
pub struct TripleGenerationProtocol {
    comms: Comms,
    lane: u64,
    chan_tag: Ghost<Seq<u8>>,
    h0: MessageHeader,
    h1: MessageHeader,
    h2: MessageHeader,
    h3: MessageHeader,
    h4: MessageHeader,
    h5: MessageHeader,
    h6: MessageHeader,
    participants: ParticipantList,
    me: Participant,
    threshold: usize,
    transcript: FsTranscript,
    e: Polynomial,
    f: Polynomial,
    l: Polynomial,
    my_big_e0: Point,
    my_randomizer: Randomizer,
    all_commitments: ParticipantMap<Commitment>,
    my_confirmation: Option<Digest>,
    big_e_j_zero: ParticipantMap<Point>,
    acc_big_e: GroupPolynomial,
    acc_big_f: GroupPolynomial,
    acc_big_l: GroupPolynomial,
    a_i: Scalar,
    b_i: Scalar,
    c_i: Scalar,
    big_c: Point,
    hat_big_c: Point,
    mul: Option<MultiplicationProtocol>,
    product: Option<Scalar>,
    log: Vec<(Participant, Vec<u8>)>,
    seen: ParticipantCounter,
    result: Option<(TripleShare, TriplePub)>,
    stage: TripleStage,
}

impl TripleGenerationProtocol {
    /// The messages queued to be sent.
    pub closed spec fn queued(self) -> Seq<Message> {
        self.comms.queued()
    }

    /// Start an instance on a broadcast channel: sample the polynomials,
    /// commit, and queue the commitment broadcast. The lane keeps the
    /// embedded multiplications of concurrent instances on disjoint
    /// channels.
    fn start(participants: ParticipantList, me: Participant, threshold: usize,
        lane: u64, chan: MessageHeader)
        -> (r: TripleGenerationProtocol)
        requires
            chan.waitpoint_spec() == 0,
        ensures
            triple_start_state(r.queued(), chan.tag_spec(), threshold),
    {
        let ghost chan_tag = chan.tag_spec();
        let mut chan = chan;
        let w0 = chan.next_waitpoint();
        let h0 = chan.with_waitpoint(w0);
        let w1 = chan.next_waitpoint();
        let h1 = chan.with_waitpoint(w1);
        let w2 = chan.next_waitpoint();
        let h2 = chan.with_waitpoint(w2);
        let w3 = chan.next_waitpoint();
        let h3 = chan.with_waitpoint(w3);
        let w4 = chan.next_waitpoint();
        let h4 = chan.with_waitpoint(w4);
        let w5 = chan.next_waitpoint();
        let h5 = chan.with_waitpoint(w5);
        let w6 = chan.next_waitpoint();
        let h6 = chan.with_waitpoint(w6);

        let mut transcript = FsTranscript::new("cait-sith v0.8.0 triple generation");
        transcript.message_str("group", "Secp256k1");
        let plist_bytes = crate::keyshare::encode_participants(&participants);
        transcript.message("participants", &plist_bytes);
        let mut threshold_bytes: Vec<u8> = Vec::new();
        push_u64_le(&mut threshold_bytes, threshold as u64);
        transcript.message("threshold", &threshold_bytes);

        let polys = triple_round_one(threshold);
        let big_e = polys.e.commit();
        let big_f = polys.f.commit();
        let big_l = polys.l.commit();
        let my_big_e0 = big_e.evaluate_zero();
        let data = encode_triple_commitment(&big_e, &big_f, &big_l);
        let (my_commitment, my_randomizer) = commit(&data);

        let mut comms = Comms::new();
        let cbytes = my_commitment.to_bytes();
        comms.send_many(&h0, &cbytes);
        proof {
            assert(comms.queued()[0] matches Message::Many(data)
                && data@ == chan_tag + crate::runtime::u64_le_bytes(0)
                    + crate::crypto::commit_of(my_randomizer.repr(),
                        triple_commitment_data(big_e.coeffs(), big_f.coeffs(),
                            big_l.coeffs()))
                && big_e.coeffs().len() == threshold
                && big_f.coeffs().len() == threshold
                && big_l.coeffs().len()
                    == (if threshold == 0 { 1int } else { threshold as int }));
        }

        let mut all_commitments = ParticipantMap::new(&participants);
        all_commitments.put(me, my_commitment);
        let big_e_j_zero = ParticipantMap::new(&participants);
        let seen = ParticipantCounter::new(&participants);
        let zero = scalar_from_u64(0);
        let id = crate::points::point_identity();

        TripleGenerationProtocol {
            comms,
            lane,
            chan_tag: Ghost(chan_tag),
            h0,
            h1,
            h2,
            h3,
            h4,
            h5,
            h6,
            participants,
            me,
            threshold,
            transcript,
            e: polys.e,
            f: polys.f,
            l: polys.l,
            my_big_e0,
            my_randomizer,
            all_commitments,
            my_confirmation: None,
            big_e_j_zero,
            acc_big_e: big_e,
            acc_big_f: big_f,
            acc_big_l: big_l,
            a_i: zero.clone(),
            b_i: zero.clone(),
            c_i: zero,
            big_c: id.clone(),
            hat_big_c: id,
            mul: None,
            product: None,
            log: Vec::new(),
            seen,
            result: None,
            stage: TripleStage::WaitCommitments,
        }
    }

    /// Every commitment is in: hash them into the confirmation, start the
    /// product protocol under it, open our commitment, and send the shares.
    fn advance_to_confirmations(&mut self)
        ensures
            final(self).comms.buffered() == old(self).comms.buffered(),
            final(self).stage is WaitConfirmations,
    {
        let data = crate::keyshare::encode_commitment_map(&self.all_commitments,
            &self.participants);
        let my_confirmation = hash(&data);
        let conf_bytes = my_confirmation.to_bytes();
        self.transcript.message("confirmation", &conf_bytes);

        // The pairwise multiplication of E(0) and F(0), under the
        // confirmation as session identifier.
        let e0 = self.e.evaluate_zero();
        let f0 = self.f.evaluate_zero();
        let mut mul = multiplication(&self.participants, self.me, self.lane, &conf_bytes, e0,
            f0);
        let mut i: usize = 0;
        while i < self.log.len()
            invariant
                self.comms.buffered() == old(self).comms.buffered(),
            decreases self.log@.len() - i,
        {
            let from = self.log[i].0;
            let data = crate::protocol::clone_bytes(&self.log[i].1);
            mul.message(from, data);
            i = i + 1;
        }
        self.mul = Some(mul);

        self.comms.send_many(&self.h1, &conf_bytes);

        // Open the commitment with the two proofs of knowledge.
        let big_e = self.e.commit();
        let big_f = self.f.commit();
        let big_l = self.l.commit();
        let me_bytes = self.me.bytes();
        let statement0 = dlog::Statement { public: big_e.evaluate_zero() };
        let witness0 = dlog::Witness { x: self.e.evaluate_zero() };
        let mut fork0 = self.transcript.forked("dlog0", &me_bytes);
        let proof0 = dlog::prove(&mut fork0, &statement0, &witness0);
        let statement1 = dlog::Statement { public: big_f.evaluate_zero() };
        let witness1 = dlog::Witness { x: self.f.evaluate_zero() };
        let mut fork1 = self.transcript.forked("dlog1", &me_bytes);
        let proof1 = dlog::prove(&mut fork1, &statement1, &witness1);

        let mut open_payload = encode_triple_commitment(&big_e, &big_f, &big_l);
        let rb = self.my_randomizer.to_bytes();
        append_bytes(&mut open_payload, &rb);
        let p0 = proof0.to_bytes();
        append_bytes(&mut open_payload, &p0);
        let p1 = proof1.to_bytes();
        append_bytes(&mut open_payload, &p1);
        self.comms.send_many(&self.h2, &open_payload);

        // The private shares of E and F.
        let others = self.participants.others(self.me);
        let mut j: usize = 0;
        while j < others.len()
            invariant
                self.comms.buffered() == old(self).comms.buffered(),
            decreases others@.len() - j,
        {
            let p = others[j];
            let mut share_payload = self.e.evaluate(&p.scalar()).to_bytes();
            let fb = self.f.evaluate(&p.scalar());
            append_scalar(&mut share_payload, &fb);
            self.comms.send_private(p, &self.h3, &share_payload);
            j = j + 1;
        }
        self.a_i = self.e.evaluate(&self.me.scalar());
        self.b_i = self.f.evaluate(&self.me.scalar());

        self.my_confirmation = Some(my_confirmation);
        self.seen.clear();
        let _ = self.seen.put(self.me);
        self.stage = TripleStage::WaitConfirmations;
    }

    /// Handle one confirmation message.
    fn handle_confirmation(&mut self, from: Participant, payload: Vec<u8>)
        -> (r: Result<(), ProtocolError>)
        requires
            old(self).stage is WaitConfirmations,
        ensures
            final(self).comms.buffered() == old(self).comms.buffered(),
            final(self).stage_rank() <= old(self).stage_rank(),
            (final(self).mul is Some) <==> (old(self).mul is Some),
    {
        let confirmation = match Digest::from_bytes(&payload) {
            Some(d) => d,
            None => {
                return Err(ProtocolError::Other(String::from_str(
                    "failed to decode message",
                )));
            }
        };
        if !self.seen.put(from) {
            return Ok(());
        }
        let matches_mine = match &self.my_confirmation {
            Some(mine) => *mine == confirmation,
            None => false,
        };
        if !matches_mine {
            return Err(ProtocolError::AssertionFailed(String::from_str(
                "confirmation did not match expectation",
            )));
        }
        if self.seen.full() {
            self.seen.clear();
            let _ = self.seen.put(self.me);
            self.stage = TripleStage::WaitOpens;
        }
        Ok(())
    }

    /// Handle one opened commitment: check it, verify the proofs, and
    /// accumulate the polynomials.
    fn handle_open(&mut self, from: Participant, payload: Vec<u8>)
        -> (r: Result<(), ProtocolError>)
        requires
            old(self).stage is WaitOpens,
        ensures
            final(self).comms.buffered() == old(self).comms.buffered(),
            final(self).stage_rank() <= old(self).stage_rank(),
            (final(self).mul is Some) <==> (old(self).mul is Some),
    {
        let (their_big_e, their_big_f, their_big_l, their_randomizer, proof0, proof1) =
            match decode_triple_open(&payload) {
                Some(t) => t,
                None => {
                    return Err(ProtocolError::Other(String::from_str(
                        "failed to decode message",
                    )));
                }
            };
        if !self.seen.put(from) {
            return Ok(());
        }
        let commitment_ok = match self.all_commitments.get(from) {
            Some(c) => {
                match check_triple_opening(self.threshold, c, &their_randomizer,
                    &their_big_e, &their_big_f, &their_big_l) {
                    Ok(()) => true,
                    Err(_) => false,
                }
            }
            None => false,
        };
        if !commitment_ok {
            return Err(ProtocolError::AssertionFailed(String::from_str(
                "commitment did not match revealed polynomials",
            )));
        }
        let from_bytes = from.bytes();
        let statement0 = dlog::Statement { public: their_big_e.evaluate_zero() };
        let mut fork0 = self.transcript.forked("dlog0", &from_bytes);
        if !dlog::verify(&mut fork0, &statement0, &proof0) {
            return Err(ProtocolError::AssertionFailed(String::from_str(
                "proof of knowledge failed to verify",
            )));
        }
        let statement1 = dlog::Statement { public: their_big_f.evaluate_zero() };
        let mut fork1 = self.transcript.forked("dlog1", &from_bytes);
        if !dlog::verify(&mut fork1, &statement1, &proof1) {
            return Err(ProtocolError::AssertionFailed(String::from_str(
                "proof of knowledge failed to verify",
            )));
        }
        self.big_e_j_zero.put(from, their_big_e.evaluate_zero());
        if self.acc_big_e.len() != their_big_e.len()
            || self.acc_big_f.len() != their_big_f.len()
            || self.acc_big_l.len() != their_big_l.len() {
            return Err(ProtocolError::AssertionFailed(String::from_str(
                "polynomial length mismatch",
            )));
        }
        self.acc_big_e = self.acc_big_e.add(&their_big_e);
        self.acc_big_f = self.acc_big_f.add(&their_big_f);
        self.acc_big_l = self.acc_big_l.add(&their_big_l);
        if self.seen.full() {
            self.seen.clear();
            let _ = self.seen.put(self.me);
            self.stage = TripleStage::WaitShares;
        }
        Ok(())
    }

    /// Handle one private share pair; once all are in, check them and
    /// broadcast this party's product commitment with its proof.
    fn handle_shares(&mut self, from: Participant, payload: Vec<u8>)
        -> (r: Result<(), ProtocolError>)
        requires
            old(self).stage is WaitShares,
        ensures
            final(self).comms.buffered() == old(self).comms.buffered(),
            final(self).stage_rank() <= old(self).stage_rank(),
            (final(self).mul is Some) <==> (old(self).mul is Some),
    {
        if payload.len() != 64 {
            return Err(ProtocolError::Other(String::from_str(
                "failed to decode message",
            )));
        }
        let a_j_i = match read_scalar(&payload, 0) {
            Some(s) => s,
            None => {
                return Err(ProtocolError::Other(String::from_str(
                    "failed to decode message",
                )));
            }
        };
        let b_j_i = match read_scalar(&payload, 32) {
            Some(s) => s,
            None => {
                return Err(ProtocolError::Other(String::from_str(
                    "failed to decode message",
                )));
            }
        };
        if !self.seen.put(from) {
            return Ok(());
        }
        self.a_i = scalar_add(&self.a_i, &a_j_i);
        self.b_i = scalar_add(&self.b_i, &b_j_i);
        if self.seen.full() {
            let me_scalar = self.me.scalar();
            if !check_polynomial_share(&self.acc_big_e, &me_scalar, &self.a_i)
                || !check_polynomial_share(&self.acc_big_f, &me_scalar, &self.b_i) {
                return Err(ProtocolError::AssertionFailed(String::from_str(
                    "received bad private share",
                )));
            }
            // C_i = F(0) E_i(0), with a proof that it shares E_i(0)'s log.
            let big_f0 = self.acc_big_f.evaluate_zero();
            let e0 = self.e.evaluate_zero();
            let big_c_i = point_mul(&big_f0, &e0);
            let statement = dlogeq::Statement {
                public0: self.my_big_e0.clone(),
                generator1: big_f0,
                public1: big_c_i.clone(),
            };
            let witness = dlogeq::Witness { x: e0 };
            let me_bytes = self.me.bytes();
            let mut fork = self.transcript.forked("dlogeq0", &me_bytes);
            let proof = dlogeq::prove(&mut fork, &statement, &witness);
            let mut payload_out: Vec<u8> = Vec::new();
            append_point(&mut payload_out, &big_c_i);
            let pb = proof.to_bytes();
            append_bytes(&mut payload_out, &pb);
            self.comms.send_many(&self.h4, &payload_out);
            self.big_c = big_c_i;
            self.seen.clear();
            let _ = self.seen.put(self.me);
            self.stage = TripleStage::WaitBigC;
        }
        Ok(())
    }

    /// Handle one product commitment with its shared-log proof.
    fn handle_big_c(&mut self, from: Participant, payload: Vec<u8>)
        -> (r: Result<(), ProtocolError>)
        requires
            old(self).stage is WaitBigC,
        ensures
            final(self).comms.buffered() == old(self).comms.buffered(),
            final(self).stage_rank() <= old(self).stage_rank(),
            (final(self).mul is Some) <==> (old(self).mul is Some),
    {
        let (big_c_j, proof_bytes) = match decode_point_and_proof(&payload) {
            Some(t) => t,
            None => {
                return Err(ProtocolError::Other(String::from_str(
                    "failed to decode message",
                )));
            }
        };
        let proof = match dlogeq::Proof::read(&proof_bytes, 0) {
            Some(p) => p,
            None => {
                return Err(ProtocolError::Other(String::from_str(
                    "failed to decode message",
                )));
            }
        };
        if !self.seen.put(from) {
            return Ok(());
        }
        let their_e0 = match self.big_e_j_zero.get(from) {
            Some(p) => p.clone(),
            None => {
                return Err(ProtocolError::AssertionFailed(String::from_str(
                    "no recorded polynomial for this sender",
                )));
            }
        };
        let statement = dlogeq::Statement {
            public0: their_e0,
            generator1: self.acc_big_f.evaluate_zero(),
            public1: big_c_j.clone(),
        };
        let from_bytes = from.bytes();
        let mut fork = self.transcript.forked("dlogeq0", &from_bytes);
        if !dlogeq::verify(&mut fork, &statement, &proof) {
            return Err(ProtocolError::AssertionFailed(String::from_str(
                "shared-log proof failed to verify",
            )));
        }
        self.big_c = point_add(&self.big_c, &big_c_j);
        if self.seen.full() {
            self.stage = TripleStage::AwaitProduct;
        }
        Ok(())
    }

    /// The product protocol has delivered this party's additive share of
    /// `E(0) F(0)`: commit to it, re-share it through `L`, and move on.
    fn finish_product(&mut self, l0: Scalar)
        ensures
            final(self).comms.buffered() == old(self).comms.buffered(),
            final(self).stage is WaitHatC,
            (final(self).mul is Some) <==> (old(self).mul is Some),
    {
        let hat_big_c_i = generator_mul(&l0);
        let statement = dlog::Statement { public: hat_big_c_i.clone() };
        let witness = dlog::Witness { x: l0.clone() };
        let me_bytes = self.me.bytes();
        let mut fork = self.transcript.forked("dlog2", &me_bytes);
        let proof = dlog::prove(&mut fork, &statement, &witness);
        let mut payload: Vec<u8> = Vec::new();
        append_point(&mut payload, &hat_big_c_i);
        let pb = proof.to_bytes();
        append_bytes(&mut payload, &pb);
        self.comms.send_many(&self.h5, &payload);

        self.l.set_zero(l0);
        let others = self.participants.others(self.me);
        let mut j: usize = 0;
        while j < others.len()
            invariant
                self.comms.buffered() == old(self).comms.buffered(),
                (self.mul is Some) <==> (old(self).mul is Some),
            decreases others@.len() - j,
        {
            let p = others[j];
            let share = self.l.evaluate(&p.scalar());
            let sb = share.to_bytes();
            self.comms.send_private(p, &self.h6, &sb);
            j = j + 1;
        }
        self.c_i = self.l.evaluate(&self.me.scalar());
        self.hat_big_c = hat_big_c_i;
        self.seen.clear();
        let _ = self.seen.put(self.me);
        self.stage = TripleStage::WaitHatC;
    }

    /// Handle one re-share commitment with its proof of knowledge.
    fn handle_hat_c(&mut self, from: Participant, payload: Vec<u8>)
        -> (r: Result<(), ProtocolError>)
        requires
            old(self).stage is WaitHatC,
        ensures
            final(self).comms.buffered() == old(self).comms.buffered(),
            final(self).stage_rank() <= old(self).stage_rank(),
            (final(self).mul is Some) <==> (old(self).mul is Some),
    {
        let (hat_c_j, proof_bytes) = match decode_point_and_proof(&payload) {
            Some(t) => t,
            None => {
                return Err(ProtocolError::Other(String::from_str(
                    "failed to decode message",
                )));
            }
        };
        let proof = match dlog::Proof::read(&proof_bytes, 0) {
            Some(p) => p,
            None => {
                return Err(ProtocolError::Other(String::from_str(
                    "failed to decode message",
                )));
            }
        };
        if !self.seen.put(from) {
            return Ok(());
        }
        let statement = dlog::Statement { public: hat_c_j.clone() };
        let from_bytes = from.bytes();
        let mut fork = self.transcript.forked("dlog2", &from_bytes);
        if !dlog::verify(&mut fork, &statement, &proof) {
            return Err(ProtocolError::AssertionFailed(String::from_str(
                "proof of knowledge failed to verify",
            )));
        }
        self.hat_big_c = point_add(&self.hat_big_c, &hat_c_j);
        if self.seen.full() {
            self.acc_big_l.set_zero(self.hat_big_c.clone());
            if !check_final_c(&self.acc_big_l, &self.big_c) {
                return Err(ProtocolError::AssertionFailed(String::from_str(
                    "final polynomial does not match the product commitment",
                )));
            }
            self.seen.clear();
            let _ = self.seen.put(self.me);
            self.stage = TripleStage::WaitLShares;
        }
        Ok(())
    }

    /// Handle one private re-share; once all are in, check and deliver.
    fn handle_l_share(&mut self, from: Participant, payload: Vec<u8>)
        -> (r: Result<(), ProtocolError>)
        requires
            old(self).stage is WaitLShares,
        ensures
            final(self).comms.buffered() == old(self).comms.buffered(),
            final(self).stage_rank() <= old(self).stage_rank(),
            (final(self).mul is Some) <==> (old(self).mul is Some),
    {
        let c_j_i = match Scalar::from_bytes(&payload) {
            Some(s) => s,
            None => {
                return Err(ProtocolError::Other(String::from_str(
                    "failed to decode message",
                )));
            }
        };
        if !self.seen.put(from) {
            return Ok(());
        }
        self.c_i = scalar_add(&self.c_i, &c_j_i);
        if self.seen.full() {
            let me_scalar = self.me.scalar();
            if !check_polynomial_share(&self.acc_big_l, &me_scalar, &self.c_i) {
                return Err(ProtocolError::AssertionFailed(String::from_str(
                    "received bad share of the product",
                )));
            }
            let mut members: Vec<Participant> = Vec::new();
            let count = self.participants.len();
            let mut k: usize = 0;
            while k < count
                invariant
                    count == self.participants.members().len(),
                    k <= count,
                    self.comms.buffered() == old(self).comms.buffered(),
                    (self.mul is Some) <==> (old(self).mul is Some),
                    self.stage is WaitLShares,
                decreases count - k,
            {
                members.push(self.participants.get(k));
                k = k + 1;
            }
            let out = assemble_triple(
                self.a_i.clone(),
                self.b_i.clone(),
                self.c_i.clone(),
                self.acc_big_e.evaluate_zero(),
                self.acc_big_f.evaluate_zero(),
                self.big_c.clone(),
                members,
                self.threshold,
            );
            self.result = Some(out);
            self.stage = TripleStage::Deliver;
        }
        Ok(())
    }

    /// Drive the protocol. A delivered triple's public part names this
    /// run's threshold and participant list.
    fn poke_machine(&mut self)
        -> (r: Result<Action<(TripleShare, TriplePub)>, ProtocolError>)
        ensures
            r matches Ok(Action::Return(out)) ==> (
                out.1.threshold == final(self).threshold
                    && out.1.participants@ == final(self).participants.members()),
    {
        loop
            decreases self.stage_rank(), self.mul_pending(), self.comms.buffered().len(),
        {
            match self.comms.pop_outgoing() {
                Some(crate::protocol::Message::Many(data)) => {
                    return Ok(Action::SendMany(data));
                }
                Some(crate::protocol::Message::Private(to, data)) => {
                    return Ok(Action::SendPrivate(to, data));
                }
                None => {}
            }
            // Give the embedded product protocol a chance to speak.
            let mut mul_taken: Option<MultiplicationProtocol> = None;
            std::mem::swap(&mut mul_taken, &mut self.mul);
            match mul_taken {
                Some(mut mul) => {
                    match mul.poke() {
                        Ok(Action::Return(l0)) => {
                            // Hold the output until the protocol is ready
                            // for it; the multiplication is complete.
                            match self.stage {
                                TripleStage::AwaitProduct => {
                                    self.finish_product(l0);
                                    continue;
                                }
                                _ => {
                                    // Not yet at the product stage: hold
                                    // the value until the protocol is.
                                    self.mul = None;
                                    self.product = Some(l0);
                                }
                            }
                        }
                        Ok(Action::Wait) => {
                            self.mul = Some(mul);
                        }
                        Ok(Action::SendMany(m)) => {
                            self.mul = Some(mul);
                            return Ok(Action::SendMany(m));
                        }
                        Ok(Action::SendPrivate(to, m)) => {
                            self.mul = Some(mul);
                            return Ok(Action::SendPrivate(to, m));
                        }
                        Err(e) => {
                            self.stage = TripleStage::Complete;
                            return Err(e);
                        }
                    }
                }
                None => {}
            }
            let step = match self.stage {
                TripleStage::WaitCommitments => {
                    match self.comms.recv(&self.h0) {
                        Some((from, payload)) => {
                            match Commitment::from_bytes(&payload) {
                                Some(c) => {
                                    self.all_commitments.put(from, c);
                                    if self.all_commitments.full() {
                                        self.advance_to_confirmations();
                                    }
                                    Ok(true)
                                }
                                None => Err(ProtocolError::Other(String::from_str(
                                    "failed to decode message",
                                ))),
                            }
                        }
                        None => Ok(false),
                    }
                }
                TripleStage::WaitConfirmations => {
                    match self.comms.recv(&self.h1) {
                        Some((from, payload)) => {
                            match self.handle_confirmation(from, payload) {
                                Ok(()) => Ok(true),
                                Err(e) => Err(e),
                            }
                        }
                        None => Ok(false),
                    }
                }
                TripleStage::WaitOpens => {
                    match self.comms.recv(&self.h2) {
                        Some((from, payload)) => {
                            match self.handle_open(from, payload) {
                                Ok(()) => Ok(true),
                                Err(e) => Err(e),
                            }
                        }
                        None => Ok(false),
                    }
                }
                TripleStage::WaitShares => {
                    match self.comms.recv(&self.h3) {
                        Some((from, payload)) => {
                            match self.handle_shares(from, payload) {
                                Ok(()) => Ok(true),
                                Err(e) => Err(e),
                            }
                        }
                        None => Ok(false),
                    }
                }
                TripleStage::WaitBigC => {
                    match self.comms.recv(&self.h4) {
                        Some((from, payload)) => {
                            match self.handle_big_c(from, payload) {
                                Ok(()) => Ok(true),
                                Err(e) => Err(e),
                            }
                        }
                        None => Ok(false),
                    }
                }
                TripleStage::AwaitProduct => {
                    let mut taken: Option<Scalar> = None;
                    std::mem::swap(&mut taken, &mut self.product);
                    match taken {
                        Some(l0) => {
                            self.finish_product(l0);
                            Ok(true)
                        }
                        None => Ok(false),
                    }
                }
                TripleStage::WaitHatC => {
                    match self.comms.recv(&self.h5) {
                        Some((from, payload)) => {
                            match self.handle_hat_c(from, payload) {
                                Ok(()) => Ok(true),
                                Err(e) => Err(e),
                            }
                        }
                        None => Ok(false),
                    }
                }
                TripleStage::WaitLShares => {
                    match self.comms.recv(&self.h6) {
                        Some((from, payload)) => {
                            match self.handle_l_share(from, payload) {
                                Ok(()) => Ok(true),
                                Err(e) => Err(e),
                            }
                        }
                        None => Ok(false),
                    }
                }
                TripleStage::Deliver => {
                    let mut taken: Option<(TripleShare, TriplePub)> = None;
                    std::mem::swap(&mut taken, &mut self.result);
                    self.stage = TripleStage::Complete;
                    match taken {
                        Some(out) => {
                            // Re-establish where the value leaves the
                            // machine that the public part names this run's
                            // threshold, participants, and summed points.
                            if out.1.threshold != self.threshold {
                                return Err(ProtocolError::AssertionFailed(
                                    String::from_str("triple has the wrong threshold")));
                            }
                            let n = self.participants.len();
                            if out.1.participants.len() != n {
                                return Err(ProtocolError::AssertionFailed(
                                    String::from_str("triple names the wrong parties")));
                            }
                            let mut k: usize = 0;
                            while k < n
                                invariant
                                    n == self.participants.members().len(),
                                    out.1.participants@.len() == n,
                                    k <= n,
                                    forall|j: int| 0 <= j < k ==> out.1.participants@[j]
                                        == self.participants.members()[j],
                                decreases n - k,
                            {
                                if out.1.participants[k] != self.participants.get(k) {
                                    return Err(ProtocolError::AssertionFailed(
                                        String::from_str(
                                            "triple names the wrong parties")));
                                }
                                k = k + 1;
                            }
                            proof {
                                assert(out.1.participants@
                                    =~= self.participants.members());
                            }
                            return Ok(Action::Return(out));
                        }
                        None => {
                            return Ok(Action::Wait);
                        }
                    }
                }
                TripleStage::Complete => {
                    return Ok(Action::Wait);
                }
            };
            match step {
                Ok(true) => {}
                Ok(false) => {
                    return Ok(Action::Wait);
                }
                Err(e) => {
                    self.stage = TripleStage::Complete;
                    return Err(e);
                }
            }
        }
    }

    /// Whether the embedded product protocol is still running.
    spec fn mul_pending(&self) -> int {
        if self.mul is Some {
            1
        } else {
            0
        }
    }

    /// How far the protocol still has to go.
    spec fn stage_rank(&self) -> int {
        match self.stage {
            TripleStage::WaitCommitments => 9,
            TripleStage::WaitConfirmations => 8,
            TripleStage::WaitOpens => 7,
            TripleStage::WaitShares => 6,
            TripleStage::WaitBigC => 5,
            TripleStage::AwaitProduct => 4,
            TripleStage::WaitHatC => 3,
            TripleStage::WaitLShares => 2,
            TripleStage::Deliver => 1,
            TripleStage::Complete => 0,
        }
    }
}

impl Protocol for TripleGenerationProtocol {
    type Output = (TripleShare, TriplePub);

    fn poke(&mut self) -> Result<Action<(TripleShare, TriplePub)>, ProtocolError> {
        self.poke_machine()
    }

    fn message(&mut self, from: Participant, data: MessageData) {
        let copy = crate::protocol::clone_bytes(&data);
        let copy2 = crate::protocol::clone_bytes(&data);
        self.log.push((from, copy));
        let mut mul_taken: Option<MultiplicationProtocol> = None;
        std::mem::swap(&mut mul_taken, &mut self.mul);
        match mul_taken {
            Some(mut mul) => {
                mul.message(from, copy2);
                self.mul = Some(mul);
            }
            None => {}
        }
        self.comms.push_message(from, data);
    }
}

/// The triple generation protocol.
///
/// Fails exactly when fewer than two participants are given, the threshold
/// exceeds the participant count, the list holds a duplicate, or `me` is
/// not in the list.
pub fn generate_triple(
    participants: &Vec<Participant>,
    me: Participant,
    threshold: usize,
) -> (r: Result<TripleGenerationProtocol, InitializationError>)
    ensures
        r is Err <==> (participants@.len() < 2
            || threshold > participants@.len()
            || has_duplicates(participants@)
            || !participants@.contains(me)),
        r matches Ok(m) ==> triple_start_state(m.queued(),
            crate::runtime::shared_root_spec(), threshold),
{
    if participants.len() < 2 {
        return Err(InitializationError::BadParameters(String::from_str(
            "participant count cannot be < 2",
        )));
    }
    if threshold > participants.len() {
        return Err(InitializationError::BadParameters(String::from_str(
            "threshold must be at most the participant count",
        )));
    }
    let list = match ParticipantList::new(participants) {
        Some(l) => l,
        None => {
            proof {
                assert(has_duplicates(participants@));
            }
            return Err(InitializationError::BadParameters(String::from_str(
                "participant list cannot contain duplicates",
            )));
        }
    };
    if !list.contains(me) {
        proof {
            if participants@.contains(me) {
                let k = choose|k: int|
                    0 <= k < participants@.len() && participants@[k] == me;
                assert(participants@.to_set().contains(me));
                assert(list.members().to_set().contains(me));
                let m = choose|m: int|
                    0 <= m < list.members().len() && list.members()[m] == me;
            }
        }
        return Err(InitializationError::BadParameters(String::from_str(
            "participant list must contain this participant",
        )));
    }
    proof {
        let k = choose|k: int|
            0 <= k < list.members().len() && list.members()[k] == me;
        assert(list.members().to_set().contains(me));
        assert(participants@.to_set().contains(me));
    }
    Ok(TripleGenerationProtocol::start(list, me, threshold, 0, MessageHeader::shared()))
}

/// One instance of a batched triple generation.
enum TripleInstance {
    Running(TripleGenerationProtocol),
    Finished(TripleShare, TriplePub),
}

/// A placeholder finished instance, used only while an element is swapped
/// out for poking.
fn placeholder_instance() -> (r: TripleInstance) {
    let zero = scalar_from_u64(0);
    let id = crate::points::point_identity();
    TripleInstance::Finished(
        TripleShare { a: zero.clone(), b: zero.clone(), c: zero },
        TriplePub {
            big_a: id.clone(),
            big_b: id.clone(),
            big_c: id,
            participants: Vec::new(),
            threshold: 0,
        },
    )
}

/// Several triple generations run at once: each instance runs the full
/// protocol on its own child of the shared channel, with its embedded
/// multiplications on their own private lanes, so the instances never
/// contend for a waitpoint.
pub struct TripleGenerationManyProtocol {
    instances: Vec<TripleInstance>,
    done: bool,
}

impl TripleGenerationManyProtocol {
    /// How many triples are generated together.
    pub closed spec fn instances(self) -> int {
        self.instances@.len() as int
    }

    fn poke_machine(&mut self)
        -> (r: Result<Action<Vec<(TripleShare, TriplePub)>>, ProtocolError>)
        ensures
            r matches Ok(Action::Return(out)) ==> out@.len() == final(self).instances(),
    {
        if self.done {
            return Ok(Action::Wait);
        }
        let n = self.instances.len();
        let mut i: usize = 0;
        let mut all_finished = true;
        while i < n
            invariant
                n == self.instances@.len(),
                i <= n,
            decreases n - i,
        {
            let mut state = placeholder_instance();
            let slot = &mut self.instances[i];
            std::mem::swap(&mut state, slot);
            match state {
                TripleInstance::Running(mut p) => {
                    match p.poke() {
                        Ok(Action::Return((share, tpub))) => {
                            self.instances.set(i, TripleInstance::Finished(share, tpub));
                        }
                        Ok(Action::Wait) => {
                            self.instances.set(i, TripleInstance::Running(p));
                            all_finished = false;
                        }
                        Ok(Action::SendMany(m)) => {
                            self.instances.set(i, TripleInstance::Running(p));
                            return Ok(Action::SendMany(m));
                        }
                        Ok(Action::SendPrivate(to, m)) => {
                            self.instances.set(i, TripleInstance::Running(p));
                            return Ok(Action::SendPrivate(to, m));
                        }
                        Err(e) => {
                            self.done = true;
                            return Err(e);
                        }
                    }
                }
                TripleInstance::Finished(share, tpub) => {
                    self.instances.set(i, TripleInstance::Finished(share, tpub));
                }
            }
            i = i + 1;
        }
        if all_finished {
            let mut out: Vec<(TripleShare, TriplePub)> = Vec::new();
            let mut j: usize = 0;
            while j < self.instances.len()
                invariant
                    j <= self.instances@.len(),
                    out@.len() == j,
                decreases self.instances@.len() - j,
            {
                match &self.instances[j] {
                    TripleInstance::Finished(share, tpub) => {
                        out.push((share.clone(), tpub.clone()));
                    }
                    TripleInstance::Running(_) => {
                        return Ok(Action::Wait);
                    }
                }
                j = j + 1;
            }
            self.done = true;
            return Ok(Action::Return(out));
        }
        Ok(Action::Wait)
    }
}

impl Protocol for TripleGenerationManyProtocol {
    type Output = Vec<(TripleShare, TriplePub)>;

    fn poke(&mut self) -> Result<Action<Vec<(TripleShare, TriplePub)>>, ProtocolError> {
        self.poke_machine()
    }

    fn message(&mut self, from: Participant, data: MessageData) {
        let n = self.instances.len();
        let mut i: usize = 0;
        while i < n
            invariant
                n == self.instances@.len(),
                i <= n,
            decreases n - i,
        {
            let d = crate::protocol::clone_bytes(&data);
            let mut state = placeholder_instance();
            let slot = &mut self.instances[i];
            std::mem::swap(&mut state, slot);
            match state {
                TripleInstance::Running(mut p) => {
                    p.message(from, d);
                    self.instances.set(i, TripleInstance::Running(p));
                }
                TripleInstance::Finished(share, tpub) => {
                    self.instances.set(i, TripleInstance::Finished(share, tpub));
                }
            }
            i = i + 1;
        }
    }
}

/// Generate several triples at once.
///
/// Fails exactly when no triples are asked for, fewer than two participants
/// are given, the threshold exceeds the participant count, the list holds a
/// duplicate, or `me` is not in the list.
pub fn generate_triple_many(
    participants: &Vec<Participant>,
    me: Participant,
    threshold: usize,
    n: usize,
) -> (r: Result<TripleGenerationManyProtocol, InitializationError>)
    ensures
        r is Err <==> (n == 0 || participants@.len() < 2
            || threshold > participants@.len()
            || has_duplicates(participants@)
            || !participants@.contains(me)),
        r matches Ok(m) ==> m.instances() == n,
{
    if n == 0 {
        return Err(InitializationError::BadParameters(String::from_str(
            "at least one triple must be asked for",
        )));
    }
    if participants.len() < 2 {
        return Err(InitializationError::BadParameters(String::from_str(
            "participant count cannot be < 2",
        )));
    }
    if threshold > participants.len() {
        return Err(InitializationError::BadParameters(String::from_str(
            "threshold must be at most the participant count",
        )));
    }
    let list = match ParticipantList::new(participants) {
        Some(l) => l,
        None => {
            proof {
                assert(has_duplicates(participants@));
            }
            return Err(InitializationError::BadParameters(String::from_str(
                "participant list cannot contain duplicates",
            )));
        }
    };
    if !list.contains(me) {
        proof {
            if participants@.contains(me) {
                let k = choose|k: int|
                    0 <= k < participants@.len() && participants@[k] == me;
                assert(participants@.to_set().contains(me));
                assert(list.members().to_set().contains(me));
                let m = choose|m: int|
                    0 <= m < list.members().len() && list.members()[m] == me;
            }
        }
        return Err(InitializationError::BadParameters(String::from_str(
            "participant list must contain this participant",
        )));
    }
    proof {
        let k = choose|k: int|
            0 <= k < list.members().len() && list.members()[k] == me;
        assert(list.members().to_set().contains(me));
        assert(participants@.to_set().contains(me));
    }
    let mut instances: Vec<TripleInstance> = Vec::new();
    let mut t: usize = 0;
    while t < n
        invariant
            t <= n,
            instances@.len() == t,
        decreases n - t,
    {
        let chan = MessageHeader::shared().child(t as u64);
        let instance = TripleGenerationProtocol::start(list.clone(), me, threshold,
            t as u64, chan);
        instances.push(TripleInstance::Running(instance));
        t = t + 1;
    }
    Ok(TripleGenerationManyProtocol { instances, done: false })
}

} // verus!
