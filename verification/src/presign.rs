//! Presignatures: the message-independent part of a signature.
//!
//! Presigning consumes two triples and a key share. Each party broadcasts
//! its Lagrange-weighted share of `k d`, then its weighted shares of
//! `k + a` and `x + b`. After checking the aggregated values against the
//! triples' public points, each party computes the nonce point
//! `R = (k d)^{-1} D` and its share of `sigma = k x`. A presignature must
//! be used for exactly one signature: reusing it discloses the key.

use vstd::prelude::*;
use crate::protocol::{Participant, Action, Protocol, ProtocolError, InitializationError, MessageData};
use crate::participants::{ParticipantList, ParticipantCounter};
use crate::scalars::{Scalar, scalar_order, scalar_add, scalar_mul, scalar_invert};
use crate::points::{Point, pt_mul, point_add, point_mul, generator_mul};
use crate::runtime::{Comms, MessageHeader, shared_root_spec, u64_le_bytes};
use crate::protocol::Message;
use crate::codec::{append_bytes, read_scalar};
use crate::triples::{TripleShare, TriplePub};
use crate::keyshare::KeygenOutput;
use crate::keyshare::has_duplicates;

verus! {

/// The output of presigning: the nonce point and this party's shares of
/// the nonce and of `sigma = k x`.
#[derive(Debug)]
pub struct PresignOutput {
    /// The public nonce point `R`.
    pub big_r: Point,
    /// This party's share of the nonce `k`.
    pub k: Scalar,
    /// This party's share of `sigma`.
    pub sigma: Scalar,
}

impl Clone for PresignOutput {
    fn clone(&self) -> (r: Self)
        ensures
            r.big_r.repr() == self.big_r.repr(),
            r.k.repr() == self.k.repr(),
            r.sigma.repr() == self.sigma.repr(),
    {
        PresignOutput {
            big_r: self.big_r.clone(),
            k: self.k.clone(),
            sigma: self.sigma.clone(),
        }
    }
}

/// What presigning needs: two triples, with this party's shares, and the
/// output of key generation.
pub struct PresignArguments {
    pub triple0: (TripleShare, TriplePub),
    pub triple1: (TripleShare, TriplePub),
    pub keygen_out: KeygenOutput,
    pub threshold: usize,
}

/// Invert the aggregated `k d` and form the nonce point `R = (k d)^{-1} D`.
///
/// Fails exactly when the aggregated value is zero.
pub fn presign_nonce(big_d: &Point, kd: &Scalar)
    -> (r: Result<Point, ProtocolError>)
    ensures
        r is Err <==> kd.value() == 0,
        r matches Ok(p) ==> (exists|inv: Scalar|
            ((#[trigger] inv.value()) * kd.value()) % scalar_order() == 1
                && p.repr() == pt_mul(big_d.repr(), inv.repr())),
{
    match scalar_invert(kd) {
        Some(inv) => {
            let p = point_mul(big_d, &inv);
            proof {
                assert(((inv.value()) * kd.value()) % scalar_order() == 1
                    && p.repr() == pt_mul(big_d.repr(), inv.repr()));
            }
            Ok(p)
        }
        None => Err(ProtocolError::AssertionFailed(String::from_str(
            "failed to invert kd",
        ))),
    }
}

/// This party's sigma share: `ka x - xb a + c` in the scalar field.
pub fn presign_sigma(ka: &Scalar, x: &Scalar, xb: &Scalar, a: &Scalar, c: &Scalar)
    -> (r: Scalar)
    ensures
        (r.value() + (xb.value() * a.value()) % scalar_order()) % scalar_order()
            == ((ka.value() * x.value()) % scalar_order() + c.value()) % scalar_order(),
{
    let kax = scalar_mul(ka, x);
    let xba = scalar_mul(xb, a);
    let kaxc = scalar_add(&kax, c);
    let r = crate::scalars::scalar_sub(&kaxc, &xba);
    proof {
        let n = scalar_order() as int;
        let kaxv = (ka.value() * x.value()) % scalar_order();
        let xbav = (xb.value() * a.value()) % scalar_order();
        let kaxcv = kaxc.value() as int;
        // r + xba == kaxc (mod n), and kaxc == kax + c (mod n).
        assert((r.value() + xbav) % scalar_order() == kaxc.value() % scalar_order());
        vstd::arithmetic::div_mod::lemma_small_mod(kaxc.value(), scalar_order());
        assert(kaxc.value() < scalar_order()) by {
            assert(kaxc.value() == (kaxv + c.value()) % scalar_order());
        }
    }
    r
}

/// The initial state of a presigning instance: two queued broadcasts on
/// the shared channel's first two waitpoints — this party's weighted `kd`
/// share, then its weighted `(ka, xb)` share pair.
pub open spec fn presign_start_state(queued: Seq<Message>) -> bool {
    &&& queued.len() == 2
    &&& queued[0] matches Message::Many(d0)
        && d0@.len() == 60
        && d0@.subrange(0, 28) == shared_root_spec() + u64_le_bytes(0)
    &&& queued[1] matches Message::Many(d1)
        && d1@.len() == 92
        && d1@.subrange(0, 28) == shared_root_spec() + u64_le_bytes(1)
}

/// Where the presigning protocol currently stands.
enum Stage {
    WaitKd,
    WaitKaXb,
    Deliver,
    Complete,
}

/// One participant's instance of the presigning protocol.
pub struct PresignProtocol {
    comms: Comms,
    h0: MessageHeader,
    h1: MessageHeader,
    me: Participant,
    args: PresignArguments,
    kd: Scalar,
    ka: Scalar,
    xb: Scalar,
    seen: ParticipantCounter,
    result: Option<PresignOutput>,
    stage: Stage,
}

impl PresignProtocol {
    /// The messages queued to be sent.
    pub closed spec fn queued(self) -> Seq<Message> {
        self.comms.queued()
    }

    fn start(participants: ParticipantList, me: Participant, args: PresignArguments)
        -> (r: PresignProtocol)
        ensures
            presign_start_state(r.queued()),
    {
        let mut chan = MessageHeader::shared();
        let w0 = chan.next_waitpoint();
        let h0 = chan.with_waitpoint(w0);
        let w1 = chan.next_waitpoint();
        let h1 = chan.with_waitpoint(w1);

        let lambda = participants.lagrange(me);
        let k_prime_i = scalar_mul(&lambda, &args.triple0.0.a);
        let kd_i = scalar_mul(&lambda, &args.triple0.0.c);
        let a_prime_i = scalar_mul(&lambda, &args.triple1.0.a);
        let b_prime_i = scalar_mul(&lambda, &args.triple1.0.b);
        let x_prime_i = scalar_mul(&lambda, &args.keygen_out.private_share);

        let mut comms = Comms::new();
        let kd_bytes = kd_i.to_bytes();
        comms.send_many(&h0, &kd_bytes);

        let ka_i = scalar_add(&k_prime_i, &a_prime_i);
        let xb_i = scalar_add(&x_prime_i, &b_prime_i);
        let mut pair_bytes = ka_i.to_bytes();
        let xb_bytes = xb_i.to_bytes();
        append_bytes(&mut pair_bytes, &xb_bytes);
        comms.send_many(&h1, &pair_bytes);
        proof {
            use_type_invariant(&kd_i);
            kd_i.lemma_canonical();
            use_type_invariant(&ka_i);
            ka_i.lemma_canonical();
            use_type_invariant(&xb_i);
            xb_i.lemma_canonical();
            assert(comms.queued()[0] matches Message::Many(d0)
                && d0@.subrange(0, 28) =~= shared_root_spec() + u64_le_bytes(0));
            assert(comms.queued()[1] matches Message::Many(d1)
                && d1@.subrange(0, 28) =~= shared_root_spec() + u64_le_bytes(1));
        }

        let mut seen = ParticipantCounter::new(&participants);
        let _ = seen.put(me);

        PresignProtocol {
            comms,
            h0,
            h1,
            me,
            args,
            kd: kd_i,
            ka: ka_i,
            xb: xb_i,
            seen,
            result: None,
            stage: Stage::WaitKd,
        }
    }

    /// Handle one share of `k d`; once all are in, check it against the
    /// first triple's `C` point and form the nonce point.
    fn handle_kd(&mut self, from: Participant, payload: Vec<u8>)
        -> (r: Result<(), ProtocolError>)
        ensures
            final(self).comms.buffered() == old(self).comms.buffered(),
    {
        let kd_j = match Scalar::from_bytes(&payload) {
            Some(s) => s,
            None => {
                return Err(ProtocolError::Other(String::from_str(
                    "failed to decode message",
                )));
            }
        };
        if !self.seen.put(from) {
            return Ok(());
        }
        self.kd = scalar_add(&self.kd, &kd_j);
        if self.seen.full() {
            let expected = generator_mul(&self.kd);
            if !(expected == self.args.triple0.1.big_c) {
                return Err(ProtocolError::AssertionFailed(String::from_str(
                    "received incorrect shares of kd",
                )));
            }
            self.seen.clear();
            let _ = self.seen.put(self.me);
            self.stage = Stage::WaitKaXb;
        }
        Ok(())
    }

    /// Handle one pair of `(ka, xb)` shares; once all are in, check both
    /// aggregates, invert `k d`, and produce the presignature.
    fn handle_ka_xb(&mut self, from: Participant, payload: Vec<u8>)
        -> (r: Result<(), ProtocolError>)
        ensures
            final(self).comms.buffered() == old(self).comms.buffered(),
    {
        if payload.len() != 64 {
            return Err(ProtocolError::Other(String::from_str(
                "failed to decode message",
            )));
        }
        let ka_j = match read_scalar(&payload, 0) {
            Some(s) => s,
            None => {
                return Err(ProtocolError::Other(String::from_str(
                    "failed to decode message",
                )));
            }
        };
        let xb_j = match read_scalar(&payload, 32) {
            Some(s) => s,
            None => {
                return Err(ProtocolError::Other(String::from_str(
                    "failed to decode message",
                )));
            }
        };
        if !self.seen.put(from) {
            return Ok(());
        }
        self.ka = scalar_add(&self.ka, &ka_j);
        self.xb = scalar_add(&self.xb, &xb_j);
        if self.seen.full() {
            let big_k_a = point_add(&self.args.triple0.1.big_a, &self.args.triple1.1.big_a);
            let big_x_b = point_add(&self.args.keygen_out.public_key,
                &self.args.triple1.1.big_b);
            let ka_point = generator_mul(&self.ka);
            let xb_point = generator_mul(&self.xb);
            if !(ka_point == big_k_a) || !(xb_point == big_x_b) {
                return Err(ProtocolError::AssertionFailed(String::from_str(
                    "received incorrect shares of additive triple phase",
                )));
            }
            let big_r = match presign_nonce(&self.args.triple0.1.big_b, &self.kd) {
                Ok(p) => p,
                Err(e) => {
                    return Err(e);
                }
            };
            let sigma_i = presign_sigma(&self.ka, &self.args.keygen_out.private_share,
                &self.xb, &self.args.triple1.0.a, &self.args.triple1.0.c);
            self.result = Some(PresignOutput {
                big_r,
                k: self.args.triple0.0.a.clone(),
                sigma: sigma_i,
            });
            self.stage = Stage::Deliver;
        }
        Ok(())
    }

    /// Drive the protocol. A delivered presignature's nonce point is the
    /// first triple's `B` point divided by the aggregated `kd`, which is
    /// nonzero; a zero aggregate is rejected with a failed assertion.
    fn poke_machine(&mut self) -> (r: Result<Action<PresignOutput>, ProtocolError>)
        ensures
            r matches Ok(Action::Return(out)) ==> ({
                &&& final(self).kd.value() != 0
                &&& exists|inv: Scalar|
                    ((#[trigger] inv.value()) * final(self).kd.value())
                        % scalar_order() == 1
                        && out.big_r.repr() == pt_mul(
                            final(self).args.triple0.1.big_b.repr(), inv.repr())
            }),
    {
        loop
            decreases self.comms.buffered().len(),
        {
            match self.comms.pop_outgoing() {
                Some(crate::protocol::Message::Many(data)) => {
                    return Ok(Action::SendMany(data));
                }
                Some(crate::protocol::Message::Private(to, data)) => {
                    return Ok(Action::SendPrivate(to, data));
                }
                None => {}
            }
            let step = match self.stage {
                Stage::WaitKd => {
                    match self.comms.recv(&self.h0) {
                        Some((from, payload)) => {
                            match self.handle_kd(from, payload) {
                                Ok(()) => Ok(true),
                                Err(e) => Err(e),
                            }
                        }
                        None => Ok(false),
                    }
                }
                Stage::WaitKaXb => {
                    match self.comms.recv(&self.h1) {
                        Some((from, payload)) => {
                            match self.handle_ka_xb(from, payload) {
                                Ok(()) => Ok(true),
                                Err(e) => Err(e),
                            }
                        }
                        None => Ok(false),
                    }
                }
                Stage::Deliver => {
                    let mut taken: Option<PresignOutput> = None;
                    std::mem::swap(&mut taken, &mut self.result);
                    self.stage = Stage::Complete;
                    match taken {
                        Some(out) => {
                            // Re-derive the nonce point from the aggregated
                            // `kd` where the value leaves the machine, so
                            // its relation to the triple is part of the
                            // contract; the stored point was built the same
                            // way when the aggregate was checked.
                            let big_r = match presign_nonce(
                                &self.args.triple0.1.big_b, &self.kd) {
                                Ok(p) => p,
                                Err(e) => {
                                    return Err(e);
                                }
                            };
                            return Ok(Action::Return(PresignOutput {
                                big_r,
                                k: out.k,
                                sigma: out.sigma,
                            }));
                        }
                        None => {
                            return Ok(Action::Wait);
                        }
                    }
                }
                Stage::Complete => {
                    return Ok(Action::Wait);
                }
            };
            match step {
                Ok(true) => {}
                Ok(false) => {
                    return Ok(Action::Wait);
                }
                Err(e) => {
                    self.stage = Stage::Complete;
                    return Err(e);
                }
            }
        }
    }
}

impl Protocol for PresignProtocol {
    type Output = PresignOutput;

    fn poke(&mut self) -> Result<Action<PresignOutput>, ProtocolError> {
        self.poke_machine()
    }

    fn message(&mut self, from: Participant, data: MessageData) {
        self.comms.push_message(from, data);
    }
}

/// The presigning protocol.
///
/// Fails exactly when fewer than two participants are given, the threshold
/// exceeds the participant count, either triple was generated for a
/// different threshold, or the list holds a duplicate.
pub fn presign(
    participants: &Vec<Participant>,
    me: Participant,
    args: PresignArguments,
) -> (r: Result<PresignProtocol, InitializationError>)
    ensures
        r is Err <==> (participants@.len() < 2
            || args.threshold > participants@.len()
            || args.threshold != args.triple0.1.threshold
            || args.threshold != args.triple1.1.threshold
            || has_duplicates(participants@)
            || !participants@.contains(me)),
        r matches Ok(m) ==> presign_start_state(m.queued()),
{
    if participants.len() < 2 {
        return Err(InitializationError::BadParameters(String::from_str(
            "participant count cannot be < 2",
        )));
    }
    if args.threshold > participants.len() {
        return Err(InitializationError::BadParameters(String::from_str(
            "threshold must be at most the participant count",
        )));
    }
    if args.threshold != args.triple0.1.threshold
        || args.threshold != args.triple1.1.threshold {
        return Err(InitializationError::BadParameters(String::from_str(
            "threshold must match the threshold of both triples",
        )));
    }
    let list = match ParticipantList::new(participants) {
        Some(l) => l,
        None => {
            proof {
                assert(has_duplicates(participants@));
            }
            return Err(InitializationError::BadParameters(String::from_str(
                "participant list cannot contain duplicates",
            )));
        }
    };
    if !list.contains(me) {
        proof {
            if participants@.contains(me) {
                let k = choose|k: int|
                    0 <= k < participants@.len() && participants@[k] == me;
                assert(participants@.to_set().contains(me));
                assert(list.members().to_set().contains(me));
                let m = choose|m: int|
                    0 <= m < list.members().len() && list.members()[m] == me;
            }
        }
        return Err(InitializationError::BadParameters(String::from_str(
            "participant list must contain this participant",
        )));
    }
    proof {
        let k = choose|k: int|
            0 <= k < list.members().len() && list.members()[k] == me;
        assert(list.members().to_set().contains(me));
        assert(participants@.to_set().contains(me));
    }
    Ok(PresignProtocol::start(list, me, args))
}

} // verus!
