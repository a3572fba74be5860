//! Distributed key generation, resharing and refresh.
//!
//! All three run one generic share protocol: each party extends its input
//! scalar to a random polynomial, commits to the group image of that
//! polynomial, opens the commitment along with a proof of knowledge of its
//! constant term, and sends every other party its evaluation. The new share
//! is the sum of the received evaluations; the public key is the constant
//! term of the summed group polynomial. Resharing feeds in a
//! Lagrange-weighted old share and checks that the public key is unchanged;
//! refresh is resharing with the same participants and threshold.

use vstd::prelude::*;
use crate::protocol::{Participant, Action, Protocol, ProtocolError, InitializationError, MessageData};
use crate::participants::{ParticipantList, ParticipantMap, ParticipantCounter};
use crate::scalars::{Scalar, scalar_add, scalar_random, scalar_from_u64, scalar_mul};
use crate::points::{Point, pt_mul, generator_bytes, identity_bytes};
use crate::math::{Polynomial, GroupPolynomial, gpoly_eval};
use crate::crypto::{Commitment, Randomizer, Digest, commit, hash};
use crate::transcript::FsTranscript;
use crate::runtime::{Comms, MessageHeader, push_u64_le, shared_root_spec, u64_le_bytes};
use crate::codec::{append_bytes, encode_group_poly, read_group_poly, enc_points};
use crate::crypto::commit_of;
use crate::protocol::Message;
use crate::dlog;

verus! {

/// The output of key generation: this party's share of the private key,
/// and the public key.
#[derive(Debug)]
pub struct KeygenOutput {
    pub private_share: Scalar,
    pub public_key: Point,
}

impl Clone for KeygenOutput {
    fn clone(&self) -> (r: Self)
        ensures
            r.private_share.repr() == self.private_share.repr(),
            r.public_key.repr() == self.public_key.repr(),
    {
        KeygenOutput {
            private_share: self.private_share.clone(),
            public_key: self.public_key.clone(),
        }
    }
}

/// The canonical byte encoding of a participant list: each identifier in
/// little-endian, in sorted order.
pub(crate) fn encode_participants(list: &ParticipantList) -> (r: Vec<u8>) {
    let mut out: Vec<u8> = Vec::new();
    let n = list.len();
    let mut i: usize = 0;
    while i < n
        invariant
            n == list.members().len(),
            i <= n,
        decreases n - i,
    {
        let b = list.get(i).bytes();
        append_bytes(&mut out, &b);
        i = i + 1;
    }
    out
}

/// The bytes hashed into the confirmation: every member's commitment, in
/// member order.
pub(crate) fn encode_commitment_map(map: &ParticipantMap<Commitment>, list: &ParticipantList)
    -> (r: Vec<u8>)
{
    let mut out: Vec<u8> = Vec::new();
    let n = list.len();
    let mut i: usize = 0;
    while i < n
        invariant
            n == list.members().len(),
            i <= n,
        decreases n - i,
    {
        match map.get(list.get(i)) {
            Some(c) => {
                let b = c.to_bytes();
                append_bytes(&mut out, &b);
            }
            None => {}
        }
        i = i + 1;
    }
    out
}

/// Decode the opening message: the group polynomial, the randomizer and
/// the proof of knowledge, with nothing trailing.
fn decode_open(payload: &Vec<u8>) -> (r: Option<(GroupPolynomial, Randomizer, dlog::Proof)>)
{
    let total = payload.len();
    match read_group_poly(payload, 0) {
        Some((gp, end)) => {
            if total < 96 || end != total - 96 {
                return None;
            }
            let rb = crate::codec::take_bytes(payload, end, 32);
            let rand = match Randomizer::from_bytes(&rb) {
                Some(r) => r,
                None => {
                    return None;
                }
            };
            match dlog::Proof::read(payload, end + 32) {
                Some(proof) => Some((gp, rand, proof)),
                None => None,
            }
        }
        None => None,
    }
}

/// An error for a failed cryptographic check.
fn assertion_failed<T>(msg: &str) -> (r: Result<T, ProtocolError>)
    ensures
        r is Err,
{
    Err(ProtocolError::AssertionFailed(String::from_str(msg)))
}

/// An error for an undecodable message.
fn decode_failed<T>() -> (r: Result<T, ProtocolError>)
    ensures
        r is Err,
{
    Err(ProtocolError::Other(String::from_str("failed to decode message")))
}

/// The initial state of a share protocol: exactly one queued broadcast,
/// carrying at the shared channel's first waitpoint a commitment — the
/// sponge output over a randomizer and the encoding of a group polynomial
/// of the sharing size.
pub open spec fn keyshare_start_state(queued: Seq<Message>, threshold: usize) -> bool {
    &&& queued.len() == 1
    &&& queued[0] matches Message::Many(data)
        && exists|rand: Seq<u8>, coeffs: Seq<Seq<u8>>|
            data@ == shared_root_spec() + u64_le_bytes(0)
                + #[trigger] commit_of(rand, enc_points(coeffs))
                && coeffs.len() == (if threshold == 0 { 1int } else { threshold as int })
}

/// What holds of a delivered key share: the group image of the private
/// share is the summed opened polynomial's value at this party's scalar,
/// the public key is that polynomial's constant term, and when an expected
/// key was supplied it matches.
pub open spec fn keyshare_delivery_ok(
    acc: Seq<Seq<u8>>,
    me: Participant,
    big_s: Option<Point>,
    out: KeygenOutput,
) -> bool {
    &&& exists|ms: Scalar| (#[trigger] ms.value()) == me.0 + 1
        && gpoly_eval(acc, ms.repr())
            == pt_mul(generator_bytes(), out.private_share.repr())
    &&& out.public_key.repr()
        == (if acc.len() > 0 { acc.first() } else { identity_bytes() })
    &&& (big_s matches Some(expected) ==> expected.repr() == out.public_key.repr())
}

/// Where the share protocol currently stands.
enum Stage {
    WaitCommitments,
    WaitConfirmations,
    WaitOpens,
    WaitShares,
    Deliver,
    Complete,
}

/// One participant's instance of the generic share protocol.
pub struct KeyshareProtocol {
    comms: Comms,
    h0: MessageHeader,
    h1: MessageHeader,
    h2: MessageHeader,
    h3: MessageHeader,
    participants: ParticipantList,
    me: Participant,
    threshold: usize,
    big_s: Option<Point>,
    transcript: FsTranscript,
    f: Polynomial,
    my_randomizer: Randomizer,
    my_confirmation: Option<Digest>,
    all_commitments: ParticipantMap<Commitment>,
    acc_big_f: GroupPolynomial,
    x_i: Scalar,
    seen: ParticipantCounter,
    result: Option<KeygenOutput>,
    stage: Stage,
}

impl KeyshareProtocol {
    /// The messages queued to be sent.
    pub closed spec fn queued(self) -> Seq<Message> {
        self.comms.queued()
    }

    /// Start an instance: sample the polynomial, commit, and queue the
    /// commitment broadcast, whose shape `keyshare_start_state` pins.
    fn start(
        participants: ParticipantList,
        me: Participant,
        threshold: usize,
        s_i: Scalar,
        big_s: Option<Point>,
    ) -> (r: KeyshareProtocol)
        ensures
            keyshare_start_state(r.queued(), threshold),
    {
        let mut chan = MessageHeader::shared();
        let w0 = chan.next_waitpoint();
        let h0 = chan.with_waitpoint(w0);
        let w1 = chan.next_waitpoint();
        let h1 = chan.with_waitpoint(w1);
        let w2 = chan.next_waitpoint();
        let h2 = chan.with_waitpoint(w2);
        let w3 = chan.next_waitpoint();
        let h3 = chan.with_waitpoint(w3);

        let mut transcript = FsTranscript::new("cait-sith v0.8.0 keygen");
        transcript.message_str("group", "Secp256k1");
        let plist_bytes = encode_participants(&participants);
        transcript.message("participants", &plist_bytes);
        let mut threshold_bytes: Vec<u8> = Vec::new();
        push_u64_le(&mut threshold_bytes, threshold as u64);
        transcript.message("threshold", &threshold_bytes);

        let f = Polynomial::extend_random(threshold, &s_i);
        let big_f = f.commit();
        let big_f_bytes = encode_group_poly(&big_f);
        let (my_commitment, my_randomizer) = commit(&big_f_bytes);

        let mut comms = Comms::new();
        let cbytes = my_commitment.to_bytes();
        comms.send_many(&h0, &cbytes);
        proof {
            assert(comms.queued()[0] matches Message::Many(data)
                && data@ == shared_root_spec() + u64_le_bytes(0)
                    + commit_of(my_randomizer.repr(), enc_points(big_f.coeffs()))
                && commit_of(my_randomizer.repr(), enc_points(big_f.coeffs()))
                    == commit_of(my_randomizer.repr(), enc_points(big_f.coeffs()))
                && big_f.coeffs().len()
                    == (if threshold == 0 { 1int } else { threshold as int }));
        }

        let mut all_commitments = ParticipantMap::new(&participants);
        all_commitments.put(me, my_commitment);

        let seen = ParticipantCounter::new(&participants);
        let x_i = scalar_from_u64(0);

        KeyshareProtocol {
            comms,
            h0,
            h1,
            h2,
            h3,
            participants,
            me,
            threshold,
            big_s,
            transcript,
            f,
            my_randomizer,
            my_confirmation: None,
            all_commitments,
            acc_big_f: big_f,
            x_i,
            seen,
            result: None,
            stage: Stage::WaitCommitments,
        }
    }

    /// Move to the confirmation round once every commitment has arrived:
    /// hash the commitments, open our own, and send the private shares.
    fn advance_to_confirmations(&mut self)
        ensures
            final(self).comms.buffered() == old(self).comms.buffered(),
    {
        let data = encode_commitment_map(&self.all_commitments, &self.participants);
        let my_confirmation = hash(&data);
        let conf_bytes = my_confirmation.to_bytes();
        self.transcript.message("confirmation", &conf_bytes);
        self.comms.send_many(&self.h1, &conf_bytes);

        // Open the commitment: the group polynomial, the randomizer, and a
        // proof of knowledge of the constant term.
        let big_f = self.f.commit();
        let statement = dlog::Statement { public: big_f.evaluate_zero() };
        let witness = dlog::Witness { x: self.f.evaluate_zero() };
        let me_bytes = self.me.bytes();
        let mut forked = self.transcript.forked("dlog0", &me_bytes);
        let my_phi_proof = dlog::prove(&mut forked, &statement, &witness);

        let mut open_payload = encode_group_poly(&big_f);
        let rb = self.my_randomizer.to_bytes();
        append_bytes(&mut open_payload, &rb);
        let pb = my_phi_proof.to_bytes();
        append_bytes(&mut open_payload, &pb);
        self.comms.send_many(&self.h2, &open_payload);

        // Private shares: evaluate the polynomial at each other member.
        let others = self.participants.others(self.me);
        let mut i: usize = 0;
        while i < others.len()
            invariant
                self.comms.buffered() == old(self).comms.buffered(),
            decreases others@.len() - i,
        {
            let p = others[i];
            let x_i_j = self.f.evaluate(&p.scalar());
            let sb = x_i_j.to_bytes();
            self.comms.send_private(p, &self.h3, &sb);
            i = i + 1;
        }
        self.x_i = self.f.evaluate(&self.me.scalar());

        self.my_confirmation = Some(my_confirmation);
        self.seen.clear();
        let _ = self.seen.put(self.me);
        self.stage = Stage::WaitConfirmations;
    }

    /// Handle one buffered confirmation message.
    fn handle_confirmation(&mut self, from: Participant, payload: Vec<u8>)
        -> (r: Result<(), ProtocolError>)
        ensures
            final(self).comms.buffered() == old(self).comms.buffered(),
    {
        let confirmation = match Digest::from_bytes(&payload) {
            Some(d) => d,
            None => {
                return decode_failed();
            }
        };
        if !self.seen.put(from) {
            return Ok(());
        }
        let matches_mine = match &self.my_confirmation {
            Some(mine) => *mine == confirmation,
            None => false,
        };
        if !matches_mine {
            return assertion_failed("confirmation did not match expectation");
        }
        if self.seen.full() {
            self.seen.clear();
            let _ = self.seen.put(self.me);
            self.stage = Stage::WaitOpens;
        }
        Ok(())
    }

    /// Handle one buffered opening message: check the commitment, the
    /// polynomial length, and the proof of knowledge, then accumulate.
    fn handle_open(&mut self, from: Participant, payload: Vec<u8>)
        -> (r: Result<(), ProtocolError>)
        ensures
            final(self).comms.buffered() == old(self).comms.buffered(),
    {
        let (their_big_f, their_randomizer, their_phi_proof) = match decode_open(&payload) {
            Some(t) => t,
            None => {
                return decode_failed();
            }
        };
        if !self.seen.put(from) {
            return Ok(());
        }
        if their_big_f.len() != self.threshold {
            return assertion_failed("polynomial has the wrong length");
        }
        let their_big_f_bytes = encode_group_poly(&their_big_f);
        let commitment_ok = match self.all_commitments.get(from) {
            Some(c) => c.check(&their_big_f_bytes, &their_randomizer),
            None => false,
        };
        if !commitment_ok {
            return assertion_failed("commitment did not match revealed polynomial");
        }
        let statement = dlog::Statement { public: their_big_f.evaluate_zero() };
        let from_bytes = from.bytes();
        let mut forked = self.transcript.forked("dlog0", &from_bytes);
        if !dlog::verify(&mut forked, &statement, &their_phi_proof) {
            return assertion_failed("proof of knowledge failed to verify");
        }
        if self.acc_big_f.len() != their_big_f.len() {
            return assertion_failed("polynomial length mismatch");
        }
        self.acc_big_f = self.acc_big_f.add(&their_big_f);
        if self.seen.full() {
            self.seen.clear();
            let _ = self.seen.put(self.me);
            self.stage = Stage::WaitShares;
        }
        Ok(())
    }

    /// Handle one buffered private share, and finish once all are in.
    fn handle_share(&mut self, from: Participant, payload: Vec<u8>)
        -> (r: Result<(), ProtocolError>)
        ensures
            final(self).comms.buffered() == old(self).comms.buffered(),
    {
        let x_j_i = match Scalar::from_bytes(&payload) {
            Some(s) => s,
            None => {
                return decode_failed();
            }
        };
        if !self.seen.put(from) {
            return Ok(());
        }
        self.x_i = scalar_add(&self.x_i, &x_j_i);
        if self.seen.full() {
            // Check the received share against the summed polynomial.
            let expected = self.acc_big_f.evaluate(&self.me.scalar());
            let actual = crate::points::generator_mul(&self.x_i);
            if !(expected == actual) {
                return assertion_failed("received bad private share");
            }
            let big_x = self.acc_big_f.evaluate_zero();
            let key_ok = match &self.big_s {
                Some(s) => *s == big_x,
                None => true,
            };
            if !key_ok {
                return assertion_failed("new public key does not match old public key");
            }
            self.result = Some(KeygenOutput {
                private_share: self.x_i.clone(),
                public_key: big_x,
            });
            self.stage = Stage::Deliver;
        }
        Ok(())
    }

    /// Drive the protocol: flush queued sends, then consume buffered
    /// messages until the current round is starved or complete. A
    /// delivered output satisfies `keyshare_delivery_ok` against the
    /// machine's summed polynomial.
    fn poke_machine(&mut self) -> (r: Result<Action<KeygenOutput>, ProtocolError>)
        ensures
            r matches Ok(Action::Return(out)) ==> keyshare_delivery_ok(
                final(self).acc_big_f.coeffs(), final(self).me, final(self).big_s, out),
    {
        loop
            decreases self.comms.buffered().len(),
        {
            match self.comms.pop_outgoing() {
                Some(crate::protocol::Message::Many(data)) => {
                    return Ok(Action::SendMany(data));
                }
                Some(crate::protocol::Message::Private(to, data)) => {
                    return Ok(Action::SendPrivate(to, data));
                }
                None => {}
            }
            let step = match self.stage {
                Stage::WaitCommitments => {
                    match self.comms.recv(&self.h0) {
                        Some((from, payload)) => {
                            let c = match Commitment::from_bytes(&payload) {
                                Some(c) => Some(c),
                                None => None,
                            };
                            match c {
                                Some(c) => {
                                    self.all_commitments.put(from, c);
                                    if self.all_commitments.full() {
                                        self.advance_to_confirmations();
                                    }
                                    Ok(true)
                                }
                                None => decode_failed(),
                            }
                        }
                        None => Ok(false),
                    }
                }
                Stage::WaitConfirmations => {
                    match self.comms.recv(&self.h1) {
                        Some((from, payload)) => {
                            match self.handle_confirmation(from, payload) {
                                Ok(()) => Ok(true),
                                Err(e) => Err(e),
                            }
                        }
                        None => Ok(false),
                    }
                }
                Stage::WaitOpens => {
                    match self.comms.recv(&self.h2) {
                        Some((from, payload)) => {
                            match self.handle_open(from, payload) {
                                Ok(()) => Ok(true),
                                Err(e) => Err(e),
                            }
                        }
                        None => Ok(false),
                    }
                }
                Stage::WaitShares => {
                    match self.comms.recv(&self.h3) {
                        Some((from, payload)) => {
                            match self.handle_share(from, payload) {
                                Ok(()) => Ok(true),
                                Err(e) => Err(e),
                            }
                        }
                        None => Ok(false),
                    }
                }
                Stage::Deliver => {
                    let mut taken: Option<KeygenOutput> = None;
                    std::mem::swap(&mut taken, &mut self.result);
                    self.stage = Stage::Complete;
                    match taken {
                        Some(out) => {
                            // Re-establish the delivered value's relation
                            // to the summed polynomial where it leaves the
                            // machine; the same checks admitted it when it
                            // was built.
                            let me_scalar = self.me.scalar();
                            let share_ok = crate::generation::check_polynomial_share(
                                &self.acc_big_f, &me_scalar, &out.private_share);
                            let zero_coeff = self.acc_big_f.evaluate_zero();
                            let key_ok = out.public_key == zero_coeff;
                            let expected_ok = match &self.big_s {
                                Some(expected) => *expected == zero_coeff,
                                None => true,
                            };
                            if !(share_ok && key_ok && expected_ok) {
                                return Err(ProtocolError::AssertionFailed(
                                    String::from_str("received bad private share")));
                            }
                            proof {
                                assert(keyshare_delivery_ok(self.acc_big_f.coeffs(),
                                    self.me, self.big_s, out)) by {
                                    assert((me_scalar.value()) == self.me.0 + 1
                                        && gpoly_eval(self.acc_big_f.coeffs(),
                                            me_scalar.repr())
                                        == pt_mul(generator_bytes(),
                                            out.private_share.repr()));
                                }
                            }
                            return Ok(Action::Return(out));
                        }
                        None => {
                            return Ok(Action::Wait);
                        }
                    }
                }
                Stage::Complete => {
                    return Ok(Action::Wait);
                }
            };
            match step {
                Ok(true) => {}
                Ok(false) => {
                    return Ok(Action::Wait);
                }
                Err(e) => {
                    self.stage = Stage::Complete;
                    return Err(e);
                }
            }
        }
    }
}

impl Protocol for KeyshareProtocol {
    type Output = KeygenOutput;

    fn poke(&mut self) -> Result<Action<KeygenOutput>, ProtocolError> {
        self.poke_machine()
    }

    fn message(&mut self, from: Participant, data: MessageData) {
        self.comms.push_message(from, data);
    }
}

/// Whether a slice of participants holds a duplicate.
pub open spec fn has_duplicates(s: Seq<Participant>) -> bool {
    exists|i: int, j: int| 0 <= i < j < s.len() && s[i] == s[j]
}

/// The key generation protocol, with a given threshold.
///
/// Any set of at least `threshold` participants will be able to
/// reconstruct the generated private key, and no smaller set can.
/// Fails exactly when fewer than two participants are given, the threshold
/// exceeds the participant count, the list holds a duplicate, or `me` is
/// not in the list; no messages are produced in that case.
pub fn keygen(
    participants: &Vec<Participant>,
    me: Participant,
    threshold: usize,
) -> (r: Result<KeyshareProtocol, InitializationError>)
    ensures
        r is Err <==> (participants@.len() < 2
            || threshold > participants@.len()
            || has_duplicates(participants@)
            || !participants@.contains(me)),
        r matches Ok(m) ==> keyshare_start_state(m.queued(), threshold),
{
    if participants.len() < 2 {
        return Err(InitializationError::BadParameters(String::from_str(
            "participant count cannot be < 2",
        )));
    }
    if threshold > participants.len() {
        return Err(InitializationError::BadParameters(String::from_str(
            "threshold must be at most the participant count",
        )));
    }
    let list = match ParticipantList::new(participants) {
        Some(l) => l,
        None => {
            proof {
                assert(has_duplicates(participants@));
            }
            return Err(InitializationError::BadParameters(String::from_str(
                "participant list cannot contain duplicates",
            )));
        }
    };
    if !list.contains(me) {
        proof {
            if participants@.contains(me) {
                let k = choose|k: int|
                    0 <= k < participants@.len() && participants@[k] == me;
                assert(participants@.to_set().contains(me));
                assert(list.members().to_set().contains(me));
                let m = choose|m: int|
                    0 <= m < list.members().len() && list.members()[m] == me;
            }
        }
        return Err(InitializationError::BadParameters(String::from_str(
            "participant list must contain this participant",
        )));
    }
    proof {
        let k = choose|k: int|
            0 <= k < list.members().len() && list.members()[k] == me;
        assert(list.members().to_set().contains(me));
        assert(participants@.to_set().contains(me));
    }
    let s_i = scalar_random();
    Ok(KeyshareProtocol::start(list, me, threshold, s_i, None))
}

/// A resharing instance, returning only the fresh private share.
pub struct ReshareProtocol {
    inner: KeyshareProtocol,
}

impl ReshareProtocol {
    /// The messages queued to be sent.
    pub closed spec fn queued(self) -> Seq<Message> {
        self.inner.queued()
    }
}

impl ReshareProtocol {
    /// Drive the protocol. A delivered share is the private share of an
    /// output satisfying `keyshare_delivery_ok`, whose public key matches
    /// the expected one held by the machine.
    fn poke_reshare(&mut self) -> (r: Result<Action<Scalar>, ProtocolError>)
        ensures
            r matches Ok(Action::Return(share)) ==> exists|out: KeygenOutput|
                #[trigger] keyshare_delivery_ok(final(self).inner.acc_big_f.coeffs(),
                    final(self).inner.me, final(self).inner.big_s, out)
                    && out.private_share.repr() == share.repr(),
    {
        match self.inner.poke_machine() {
            Ok(Action::Return(out)) => Ok(Action::Return(out.private_share)),
            Ok(Action::Wait) => Ok(Action::Wait),
            Ok(Action::SendMany(m)) => Ok(Action::SendMany(m)),
            Ok(Action::SendPrivate(to, m)) => Ok(Action::SendPrivate(to, m)),
            Err(e) => Err(e),
        }
    }
}

impl Protocol for ReshareProtocol {
    type Output = Scalar;

    fn poke(&mut self) -> Result<Action<Scalar>, ProtocolError> {
        self.poke_reshare()
    }

    fn message(&mut self, from: Participant, data: MessageData) {
        self.inner.comms.push_message(from, data);
    }
}

/// The resharing protocol: move a key held by one set of participants to
/// another set, with a possibly different threshold, without changing the
/// public key.
///
/// Fails exactly when the new list is too small, the new threshold is too
/// large, either list holds a duplicate, `me` is not in the new list,
/// fewer old participants are present in the new list than the old
/// threshold (so the key cannot be reconstructed), or this party is in the
/// old list but supplied no share.
pub fn reshare(
    old_participants: &Vec<Participant>,
    old_threshold: usize,
    new_participants: &Vec<Participant>,
    new_threshold: usize,
    me: Participant,
    my_share: Option<Scalar>,
    public_key: Point,
) -> (r: Result<ReshareProtocol, InitializationError>)
    ensures
        r is Err <==> (new_participants@.len() < 2
            || new_threshold > new_participants@.len()
            || has_duplicates(new_participants@)
            || !new_participants@.contains(me)
            || has_duplicates(old_participants@)
            || old_participants@.to_set().intersect(new_participants@.to_set()).len()
                < old_threshold
            || (old_participants@.to_set().contains(me)
                && new_participants@.contains(me) && my_share is None)),
        r matches Ok(m) ==> keyshare_start_state(m.queued(), new_threshold),
{
    if new_participants.len() < 2 {
        return Err(InitializationError::BadParameters(String::from_str(
            "participant count cannot be < 2",
        )));
    }
    if new_threshold > new_participants.len() {
        return Err(InitializationError::BadParameters(String::from_str(
            "threshold must be at most the participant count",
        )));
    }
    let new_list = match ParticipantList::new(new_participants) {
        Some(l) => l,
        None => {
            proof {
                assert(has_duplicates(new_participants@));
            }
            return Err(InitializationError::BadParameters(String::from_str(
                "new participant list cannot contain duplicates",
            )));
        }
    };
    if !new_list.contains(me) {
        proof {
            if new_participants@.contains(me) {
                let k = choose|k: int|
                    0 <= k < new_participants@.len() && new_participants@[k] == me;
                assert(new_participants@.to_set().contains(me));
                assert(new_list.members().to_set().contains(me));
                let m = choose|m: int|
                    0 <= m < new_list.members().len() && new_list.members()[m] == me;
            }
        }
        return Err(InitializationError::BadParameters(String::from_str(
            "new participant list must contain this participant",
        )));
    }
    proof {
        let k = choose|k: int|
            0 <= k < new_list.members().len() && new_list.members()[k] == me;
        assert(new_list.members().to_set().contains(me));
        assert(new_participants@.to_set().contains(me));
        assert(new_participants@.contains(me)) by {
            let m = choose|m: int|
                0 <= m < new_participants@.len() && new_participants@[m] == me;
        }
    }
    let old_list = match ParticipantList::new(old_participants) {
        Some(l) => l,
        None => {
            proof {
                assert(has_duplicates(old_participants@));
            }
            return Err(InitializationError::BadParameters(String::from_str(
                "old participant list cannot contain duplicates",
            )));
        }
    };
    let old_subset = old_list.intersection(&new_list);
    if old_subset.len() < old_threshold {
        return Err(InitializationError::BadParameters(String::from_str(
            "not enough old participants to reconstruct the key",
        )));
    }
    let in_old_subset = old_subset.contains(me);
    proof {
        broadcast use vstd::seq_lib::group_filter_ensures;

        // `me` is in the old subset exactly when it is in the old set,
        // since it is already known to be in the new list.
        if in_old_subset {
            let k = choose|k: int|
                0 <= k < old_subset.members().len() && old_subset.members()[k] == me;
            crate::participants::lemma_filter_subset(old_list.members(),
                |p: Participant| new_list.members().contains(p));
            assert(old_list.members().contains(me));
            let m = choose|m: int|
                0 <= m < old_list.members().len() && old_list.members()[m] == me;
            assert(old_list.members().to_set().contains(me));
            assert(old_participants@.to_set().contains(me));
        } else {
            if old_participants@.to_set().contains(me) {
                assert(old_list.members().to_set().contains(me));
                let m = choose|m: int|
                    0 <= m < old_list.members().len() && old_list.members()[m] == me;
                let pred = |p: Participant| new_list.members().contains(p);
                assert(pred(old_list.members()[m]));
                assert(old_subset.members().contains(me));
            }
        }
    }
    let s_i: Scalar;
    match (in_old_subset, my_share) {
        (true, Some(share)) => {
            let lambda = old_subset.lagrange(me);
            s_i = scalar_mul(&lambda, &share);
        }
        (true, None) => {
            return Err(InitializationError::BadParameters(String::from_str(
                "this party is in the old participant list but gave no share",
            )));
        }
        (false, _) => {
            s_i = scalar_from_u64(0);
        }
    }
    let inner = KeyshareProtocol::start(new_list, me, new_threshold, s_i,
        Some(public_key));
    Ok(ReshareProtocol { inner })
}

/// The refresh protocol: resharing with an unchanged participant list and
/// threshold, producing fresh shares of the same key.
pub fn refresh(
    participants: &Vec<Participant>,
    threshold: usize,
    me: Participant,
    my_share: Scalar,
    public_key: Point,
) -> (r: Result<ReshareProtocol, InitializationError>)
    ensures
        r is Err <==> (participants@.len() < 2
            || threshold > participants@.len()
            || has_duplicates(participants@)
            || !participants@.contains(me)
            || participants@.to_set().intersect(participants@.to_set()).len()
                < threshold),
        r matches Ok(m) ==> keyshare_start_state(m.queued(), threshold),
{
    reshare(participants, threshold, participants, threshold, me, Some(my_share),
        public_key)
}

} // verus!
