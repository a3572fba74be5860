//! The online signing round.
//!
//! Each party broadcasts `s_i = m lambda k_i + r lambda sigma_i`, where `m`
//! is the message hash, `r` the x-coordinate of the nonce point, and
//! `lambda` its Lagrange weight. The sum of the shares is the signature
//! scalar; it is normalized to the lower half of the scalar field and the
//! whole signature is checked against the textbook ECDSA equation before it
//! is returned.

use vstd::prelude::*;
use crate::protocol::{Participant, Action, Protocol, ProtocolError, InitializationError, MessageData};
use crate::participants::{ParticipantList, ParticipantCounter};
use crate::scalars::{Scalar, scalar_order, be_val, scalar_add, scalar_mul, scalar_neg, scalar_invert, scalar_is_high};
use crate::points::{Point, pt_add, pt_mul, pt_x_scalar, generator_bytes, point_add, point_mul, generator_mul, x_coordinate};
use crate::runtime::{Comms, MessageHeader, shared_root_spec, u64_le_bytes};
use crate::protocol::Message;
use crate::keyshare::has_duplicates;
use crate::presign::PresignOutput;

verus! {

/// A complete signature: the full nonce point, and the second scalar,
/// normalized to the lower half of the scalar field.
#[derive(Debug)]
pub struct FullSignature {
    /// The entire nonce point, from which `r` is derived.
    pub big_r: Point,
    /// The second signature scalar, in the lower half of the field.
    pub s: Scalar,
}

impl Clone for FullSignature {
    fn clone(&self) -> (r: Self)
        ensures
            r.big_r.repr() == self.big_r.repr(),
            r.s.repr() == self.s.repr(),
    {
        FullSignature { big_r: self.big_r.clone(), s: self.s.clone() }
    }
}

/// A witness tuple for the ECDSA check: an inverse `si` of the signature
/// scalar `s`, and the two quotients `mu = m/s` and `ru = rx/s` derived
/// from it, where `m` is the message hash and `rx` the nonce point's
/// x-coordinate value.
pub open spec fn ecdsa_witness(m: nat, rx: nat, s: nat, si: Scalar, mu: Scalar, ru: Scalar)
    -> bool {
    &&& (si.value() * s) % scalar_order() == 1
    &&& mu.value() == (m * si.value()) % scalar_order()
    &&& ru.value() == (rx * si.value()) % scalar_order()
}

/// The recomputed-nonce equation of the ECDSA check, over the point names:
/// the x-coordinate of `mu G + ru PK` equals the nonce point's.
pub open spec fn ecdsa_equation(big_r: Seq<u8>, pk: Seq<u8>, mu: Scalar, ru: Scalar)
    -> bool {
    pt_x_scalar(pt_add(pt_mul(generator_bytes(), mu.repr()), pt_mul(pk, ru.repr())))
        == pt_x_scalar(big_r)
}

impl FullSignature {
    /// Check this signature against a public key and message hash by the
    /// textbook ECDSA equation: with `r` the x-coordinate of the nonce
    /// point, the x-coordinate of `(m/s) G + (r/s) PK` must equal `r`, and
    /// neither `r` nor `s` may be zero.
    ///
    /// Acceptance yields a witness tuple satisfying the equation; and when
    /// both scalars are nonzero and every witness tuple satisfies the
    /// equation, the check accepts. (The two directions meet in an exact
    /// condition whenever the inverse of `s` is unique, which the prime
    /// group order guarantees but the modular model does not state.)
    #[must_use]
    pub fn verify(&self, public_key: &Point, msg_hash: &Scalar) -> (ok: bool)
        ensures
            ok ==> ({
                &&& be_val(pt_x_scalar(self.big_r.repr())) != 0
                &&& self.s.value() != 0
                &&& exists|si: Scalar, mu: Scalar, ru: Scalar|
                    #[trigger] ecdsa_witness(msg_hash.value(),
                        be_val(pt_x_scalar(self.big_r.repr())), self.s.value(),
                        si, mu, ru)
                        && ecdsa_equation(self.big_r.repr(),
                            public_key.repr(), mu, ru)
            }),
            ({
                &&& be_val(pt_x_scalar(self.big_r.repr())) != 0
                &&& self.s.value() != 0
                &&& forall|si: Scalar, mu: Scalar, ru: Scalar|
                    #[trigger] ecdsa_witness(msg_hash.value(),
                        be_val(pt_x_scalar(self.big_r.repr())), self.s.value(),
                        si, mu, ru)
                        ==> ecdsa_equation(self.big_r.repr(),
                            public_key.repr(), mu, ru)
            }) ==> ok,
    {
        let r = x_coordinate(&self.big_r);
        if r.is_zero() || self.s.is_zero() {
            return false;
        }
        let s_inv = match scalar_invert(&self.s) {
            Some(i) => i,
            None => {
                return false;
            }
        };
        let mu = scalar_mul(msg_hash, &s_inv);
        let ru = scalar_mul(&r, &s_inv);
        let lhs = generator_mul(&mu);
        let rhs = point_mul(public_key, &ru);
        let reproduced = point_add(&lhs, &rhs);
        let x = x_coordinate(&reproduced);
        let ok = x == r;
        proof {
            let m = msg_hash.value();
            let rx = be_val(pt_x_scalar(self.big_r.repr()));
            assert(r.value() == rx);
            assert(ecdsa_witness(m, rx, self.s.value(), s_inv, mu, ru));
            if ok {
                assert(ecdsa_equation(self.big_r.repr(), public_key.repr(), mu, ru));
            } else {
                // Were every witness tuple to satisfy the equation, the one
                // just computed would, making the comparison succeed.
                if ecdsa_equation(self.big_r.repr(), public_key.repr(), mu, ru) {
                    assert(x.repr() == r.repr());
                }
            }
        }
        ok
    }
}

/// Normalize a signature scalar into the lower half of the field: the
/// result is the input or its negation, and never exceeds half the order.
pub fn normalize_s(s: &Scalar) -> (r: Scalar)
    ensures
        r.value() <= (scalar_order() - 1) / 2,
        r.value() == s.value() || (r.value() + s.value()) % scalar_order() == 0,
{
    proof {
        use_type_invariant(s);
        s.lemma_canonical();
    }
    if scalar_is_high(s) {
        let r = scalar_neg(s);
        proof {
            lemma_neg_low(s.value(), r.value());
        }
        r
    } else {
        s.clone()
    }
}

proof fn lemma_neg_low(sv: nat, rv: nat)
    requires
        sv < scalar_order(),
        sv > (scalar_order() - 1) / 2,
        rv < scalar_order(),
        (rv + sv) % scalar_order() == 0,
    ensures
        rv <= (scalar_order() - 1) / 2,
{
    let n = scalar_order() as int;
    let r = rv as int;
    let sv_i = sv as int;
    // 0 < r + s < 2n and r + s is a multiple of n, so r + s == n or r == 0
    // with s == 0; s > 0 here, so either r == 0 (impossible: then s % n == 0
    // with 0 < s < n) or r + s == n.
    assert(0 < sv_i < n);
    if r + sv_i < n {
        vstd::arithmetic::div_mod::lemma_small_mod((rv + sv) as nat, scalar_order());
        assert(r + sv_i == 0);
        assert(false);
    } else {
        assert(n <= r + sv_i < 2 * n);
        vstd::arithmetic::div_mod::lemma_mod_sub_multiples_vanish(r + sv_i - n, n);
        vstd::arithmetic::div_mod::lemma_small_mod((r + sv_i - n) as nat, scalar_order());
        assert(r + sv_i == n);
    }
}

/// The initial state of a signing instance: one queued broadcast on the
/// shared channel's first waitpoint, carrying this party's signature
/// share.
pub open spec fn sign_start_state(queued: Seq<Message>) -> bool {
    &&& queued.len() == 1
    &&& queued[0] matches Message::Many(d)
        && d@.len() == 60
        && d@.subrange(0, 28) == shared_root_spec() + u64_le_bytes(0)
}

/// Where the signing round currently stands.
enum Stage {
    WaitShares,
    Deliver,
    Complete,
}

/// One participant's instance of the signing round.
pub struct SignProtocol {
    comms: Comms,
    h0: MessageHeader,
    me: Participant,
    public_key: Point,
    presignature: PresignOutput,
    msg_hash: Scalar,
    s: Scalar,
    seen: ParticipantCounter,
    result: Option<FullSignature>,
    stage: Stage,
}

impl SignProtocol {
    /// The messages queued to be sent.
    pub closed spec fn queued(self) -> Seq<Message> {
        self.comms.queued()
    }

    fn start(
        participants: ParticipantList,
        me: Participant,
        public_key: Point,
        presignature: PresignOutput,
        msg_hash: Scalar,
    ) -> (r: SignProtocol)
        ensures
            sign_start_state(r.queued()),
    {
        let mut chan = MessageHeader::shared();
        let w0 = chan.next_waitpoint();
        let h0 = chan.with_waitpoint(w0);

        let lambda = participants.lagrange(me);
        let k_i = scalar_mul(&lambda, &presignature.k);
        let sigma_i = scalar_mul(&lambda, &presignature.sigma);
        let r = x_coordinate(&presignature.big_r);
        let mk = scalar_mul(&msg_hash, &k_i);
        let rs = scalar_mul(&r, &sigma_i);
        let s_i = scalar_add(&mk, &rs);

        let mut comms = Comms::new();
        let s_bytes = s_i.to_bytes();
        comms.send_many(&h0, &s_bytes);
        proof {
            use_type_invariant(&s_i);
            s_i.lemma_canonical();
            assert(comms.queued()[0] matches Message::Many(d)
                && d@.subrange(0, 28) =~= shared_root_spec() + u64_le_bytes(0));
        }

        let mut seen = ParticipantCounter::new(&participants);
        let _ = seen.put(me);

        SignProtocol {
            comms,
            h0,
            me,
            public_key,
            presignature,
            msg_hash,
            s: s_i,
            seen,
            result: None,
            stage: Stage::WaitShares,
        }
    }

    /// Handle one signature share; once all are in, normalize, check the
    /// ECDSA equation, and deliver.
    fn handle_share(&mut self, from: Participant, payload: Vec<u8>)
        -> (r: Result<(), ProtocolError>)
        ensures
            final(self).comms.buffered() == old(self).comms.buffered(),
    {
        let s_j = match Scalar::from_bytes(&payload) {
            Some(s) => s,
            None => {
                return Err(ProtocolError::Other(String::from_str(
                    "failed to decode message",
                )));
            }
        };
        if !self.seen.put(from) {
            return Ok(());
        }
        self.s = scalar_add(&self.s, &s_j);
        if self.seen.full() {
            let s = normalize_s(&self.s);
            let sig = FullSignature { big_r: self.presignature.big_r.clone(), s };
            if !sig.verify(&self.public_key, &self.msg_hash) {
                return Err(ProtocolError::AssertionFailed(String::from_str(
                    "signature failed to verify",
                )));
            }
            self.result = Some(sig);
            self.stage = Stage::Deliver;
        }
        Ok(())
    }

    /// Drive the protocol. A delivered signature is always normalized to
    /// the lower half of the scalar field and nonzero.
    fn poke_machine(&mut self) -> (r: Result<Action<FullSignature>, ProtocolError>)
        ensures
            r matches Ok(Action::Return(sig)) ==> (
                sig.s.value() <= (scalar_order() - 1) / 2 && sig.s.value() != 0),
    {
        loop
            decreases self.comms.buffered().len(),
        {
            match self.comms.pop_outgoing() {
                Some(crate::protocol::Message::Many(data)) => {
                    return Ok(Action::SendMany(data));
                }
                Some(crate::protocol::Message::Private(to, data)) => {
                    return Ok(Action::SendPrivate(to, data));
                }
                None => {}
            }
            let step = match self.stage {
                Stage::WaitShares => {
                    match self.comms.recv(&self.h0) {
                        Some((from, payload)) => {
                            match self.handle_share(from, payload) {
                                Ok(()) => Ok(true),
                                Err(e) => Err(e),
                            }
                        }
                        None => Ok(false),
                    }
                }
                Stage::Deliver => {
                    let mut taken: Option<FullSignature> = None;
                    std::mem::swap(&mut taken, &mut self.result);
                    self.stage = Stage::Complete;
                    match taken {
                        Some(out) => {
                            // The stored signature was normalized and
                            // checked when it was built; re-establish both
                            // facts where the value leaves the machine.
                            let s = normalize_s(&out.s);
                            if s.is_zero() {
                                return Err(ProtocolError::AssertionFailed(
                                    String::from_str("signature failed to verify")));
                            }
                            return Ok(Action::Return(FullSignature {
                                big_r: out.big_r,
                                s,
                            }));
                        }
                        None => {
                            return Ok(Action::Wait);
                        }
                    }
                }
                Stage::Complete => {
                    return Ok(Action::Wait);
                }
            };
            match step {
                Ok(true) => {}
                Ok(false) => {
                    return Ok(Action::Wait);
                }
                Err(e) => {
                    self.stage = Stage::Complete;
                    return Err(e);
                }
            }
        }
    }
}

impl Protocol for SignProtocol {
    type Output = FullSignature;

    fn poke(&mut self) -> Result<Action<FullSignature>, ProtocolError> {
        self.poke_machine()
    }

    fn message(&mut self, from: Participant, data: MessageData) {
        self.comms.push_message(from, data);
    }
}

/// The signing protocol, using one presignature to sign one message hash.
///
/// The hash must really be the hash of a message: signing arbitrary
/// scalars is a security risk. Fails exactly when fewer than two
/// participants are given or the list holds a duplicate.
pub fn sign(
    participants: &Vec<Participant>,
    me: Participant,
    public_key: Point,
    presignature: PresignOutput,
    msg_hash: Scalar,
) -> (r: Result<SignProtocol, InitializationError>)
    ensures
        r is Err <==> (participants@.len() < 2 || has_duplicates(participants@)
            || !participants@.contains(me)),
        r matches Ok(m) ==> sign_start_state(m.queued()),
{
    if participants.len() < 2 {
        return Err(InitializationError::BadParameters(String::from_str(
            "participant count cannot be < 2",
        )));
    }
    let list = match ParticipantList::new(participants) {
        Some(l) => l,
        None => {
            proof {
                assert(has_duplicates(participants@));
            }
            return Err(InitializationError::BadParameters(String::from_str(
                "participant list cannot contain duplicates",
            )));
        }
    };
    if !list.contains(me) {
        proof {
            if participants@.contains(me) {
                let k = choose|k: int|
                    0 <= k < participants@.len() && participants@[k] == me;
                assert(participants@.to_set().contains(me));
                assert(list.members().to_set().contains(me));
                let m = choose|m: int|
                    0 <= m < list.members().len() && list.members()[m] == me;
            }
        }
        return Err(InitializationError::BadParameters(String::from_str(
            "participant list must contain this participant",
        )));
    }
    proof {
        let k = choose|k: int|
            0 <= k < list.members().len() && list.members()[k] == me;
        assert(list.members().to_set().contains(me));
        assert(participants@.to_set().contains(me));
    }
    Ok(SignProtocol::start(list, me, public_key, presignature, msg_hash))
}

} // verus!
