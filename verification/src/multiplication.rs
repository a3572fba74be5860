//! Multi-party multiplication of secret-shared values.
//!
//! Each pair of parties converts the cross products of their shares into
//! additive shares with two multiplicative-to-additive conversions; each
//! party then adds its own local product and the pairwise results. The sum
//! of every party's output share is the product of the summed inputs.

use vstd::prelude::*;
use crate::scalars::{Scalar, scalar_order, scalar_add, scalar_mul, scalar_from_u64};
use crate::participants::ParticipantList;
use crate::mta::{cong, MtaSender, MtaReceiver, mta_sender, mta_receiver};
use crate::batch_random_ot::{BatchRandomOtSender, BatchRandomOtReceiver, batch_random_ot_sender, batch_random_ot_receiver, BatchRandomOtSenderMany, BatchRandomOtReceiverMany, batch_random_ot_sender_many, batch_random_ot_receiver_many};
use crate::bits::{BitVector, SquareBitMatrix};
use crate::random_ot_extension::{RandomOtExtSender, RandomOtExtReceiver, RandomOtExtensionParams, random_ot_extension_sender, random_ot_extension_receiver};
use crate::protocol::{Participant, Action, Protocol, ProtocolError, MessageData};

verus! {

/// The plain integer sum of a sequence of values.
pub open spec fn sum_of(s: Seq<nat>) -> int
    decreases s.len(),
{
    if s.len() == 0 {
        0
    } else {
        sum_of(s.drop_last()) + s.last()
    }
}

/// Combine the two halves of one pairwise conversion: the share of
/// `a_me b_peer` plus the share of `b_me a_peer`.
pub fn pairwise_share(gamma0: &Scalar, gamma1: &Scalar) -> (r: Scalar)
    ensures
        r.value() == (gamma0.value() + gamma1.value()) % scalar_order(),
{
    scalar_add(gamma0, gamma1)
}

/// A party's output share: its own product `a_i b_i` plus every pairwise
/// conversion result.
pub fn multiplication_combine(a_i: &Scalar, b_i: &Scalar, pairwise: &Vec<Scalar>)
    -> (r: Scalar)
    ensures
        cong(r.value() as int,
            a_i.value() * b_i.value() + sum_of(pairwise@.map_values(|s: Scalar| s.value()))),
{
    let mut acc = scalar_mul(a_i, b_i);
    proof {
        let n = scalar_order() as int;
        assert(pairwise@.subrange(0, 0).map_values(|s: Scalar| s.value())
            =~= Seq::<nat>::empty());
        vstd::arithmetic::div_mod::lemma_mod_twice(
            (a_i.value() * b_i.value()) as int, n);
    }
    let mut i: usize = 0;
    while i < pairwise.len()
        invariant
            i <= pairwise@.len(),
            cong(acc.value() as int, a_i.value() * b_i.value()
                + sum_of(pairwise@.subrange(0, i as int).map_values(|s: Scalar| s.value()))),
            acc.value() < scalar_order(),
        decreases pairwise@.len() - i,
    {
        let ghost pre = pairwise@.subrange(0, i as int).map_values(|s: Scalar| s.value());
        let ghost old_acc = acc;
        acc = scalar_add(&acc, &pairwise[i]);
        proof {
            let n = scalar_order() as int;
            let cur = pairwise@.subrange(0, i + 1).map_values(|s: Scalar| s.value());
            assert(cur.drop_last() =~= pre);
            assert(cur.last() == pairwise@[i as int].value());
            vstd::arithmetic::div_mod::lemma_add_mod_noop(old_acc.value() as int,
                pairwise@[i as int].value() as int, n);
            vstd::arithmetic::div_mod::lemma_mod_twice(old_acc.value() as int, n);
            vstd::arithmetic::div_mod::lemma_mod_twice(
                (old_acc.value() + pairwise@[i as int].value()) as int, n);
            vstd::arithmetic::div_mod::lemma_add_mod_noop(
                (a_i.value() * b_i.value()) as int + sum_of(pre),
                pairwise@[i as int].value() as int, n);
            vstd::arithmetic::div_mod::lemma_mod_twice(
                pairwise@[i as int].value() as int, n);
        }
        i = i + 1;
    }
    proof {
        assert(pairwise@.subrange(0, pairwise@.len() as int) =~= pairwise@);
    }
    acc
}

/// How many random transfers one conversion consumes: the curve's bit
/// length plus the security parameter.
pub const MTA_BATCH_SIZE: usize = 384;

/// Where the multiplication sender currently stands: which sub-protocol
/// of the pipeline is running.
enum MulSenderStage {
    Base(BatchRandomOtReceiver),
    Extension(RandomOtExtSender),
    FirstShare(MtaSender, Vec<(Scalar, Scalar)>),
    SecondShare(MtaSender, Scalar),
    Complete,
}

/// The sender's side of the two-party multiplication: a fresh base OT,
/// its extension to twice the conversion size, and one conversion for each
/// cross product. The output share, added to the receiver's, is
/// `a_me b_peer + b_me a_peer`.
pub struct MultiplicationSender {
    me: Participant,
    to: Participant,
    lane: u64,
    sid: Vec<u8>,
    a: Scalar,
    b: Scalar,
    log: Vec<(Participant, Vec<u8>)>,
    stage: MulSenderStage,
}

/// Start the multiplication sender. The lane keeps concurrent
/// multiplications between one pair of parties on disjoint channels.
pub fn multiplication_sender(me: Participant, to: Participant, lane: u64, sid: Vec<u8>,
    a: Scalar, b: Scalar) -> (r: MultiplicationSender)
{
    let base = batch_random_ot_receiver(me, to, 4 * (lane % 0x2000_0000_0000_0000));
    MultiplicationSender {
        me,
        to,
        lane,
        sid,
        a,
        b,
        log: Vec::new(),
        stage: MulSenderStage::Base(base),
    }
}

/// Replay logged messages into a newly started sub-protocol.
fn replay<P: Protocol>(log: &Vec<(Participant, Vec<u8>)>, p: &mut P) {
    let mut i: usize = 0;
    while i < log.len()
        decreases log@.len() - i,
    {
        let from = log[i].0;
        let data = crate::protocol::clone_bytes(&log[i].1);
        p.message(from, data);
        i = i + 1;
    }
}

impl MultiplicationSender {
    fn poke_machine(&mut self) -> (r: Result<Action<Scalar>, ProtocolError>) {
        loop
            decreases self.stage_rank(),
        {
            let mut stage = MulSenderStage::Complete;
            std::mem::swap(&mut stage, &mut self.stage);
            let ghost pre_rank = self.stage_rank_of(&stage);
            match stage {
                MulSenderStage::Base(mut base) => {
                    match base.poke() {
                        Ok(Action::Return((delta, k))) => {
                            let params = RandomOtExtensionParams {
                                sid: crate::protocol::clone_bytes(&self.sid),
                                batch_size: 2 * MTA_BATCH_SIZE,
                            };
                            let mut ext = random_ot_extension_sender(self.me, self.to,
                                self.lane, params, delta, k);
                            replay(&self.log, &mut ext);
                            self.stage = MulSenderStage::Extension(ext);
                        }
                        Ok(Action::Wait) => {
                            self.stage = MulSenderStage::Base(base);
                            return Ok(Action::Wait);
                        }
                        Ok(Action::SendMany(m)) => {
                            self.stage = MulSenderStage::Base(base);
                            return Ok(Action::SendMany(m));
                        }
                        Ok(Action::SendPrivate(to, m)) => {
                            self.stage = MulSenderStage::Base(base);
                            return Ok(Action::SendPrivate(to, m));
                        }
                        Err(e) => {
                            return Err(e);
                        }
                    }
                }
                MulSenderStage::Extension(mut ext) => {
                    match ext.poke() {
                        Ok(Action::Return(mut v)) => {
                            if v.len() != 2 * MTA_BATCH_SIZE {
                                return Err(ProtocolError::AssertionFailed(
                                    String::from_str("extension output too short")));
                            }
                            let second = v.split_off(MTA_BATCH_SIZE);
                            let mut conv = mta_sender(self.me, self.to,
                                4 * (self.lane % 0x2000_0000_0000_0000) + 2, &v, &self.a);
                            replay(&self.log, &mut conv);
                            self.stage = MulSenderStage::FirstShare(conv, second);
                        }
                        Ok(Action::Wait) => {
                            self.stage = MulSenderStage::Extension(ext);
                            return Ok(Action::Wait);
                        }
                        Ok(Action::SendMany(m)) => {
                            self.stage = MulSenderStage::Extension(ext);
                            return Ok(Action::SendMany(m));
                        }
                        Ok(Action::SendPrivate(to, m)) => {
                            self.stage = MulSenderStage::Extension(ext);
                            return Ok(Action::SendPrivate(to, m));
                        }
                        Err(e) => {
                            return Err(e);
                        }
                    }
                }
                MulSenderStage::FirstShare(mut conv, second) => {
                    match conv.poke() {
                        Ok(Action::Return(gamma0)) => {
                            let mut conv1 = mta_sender(self.me, self.to,
                                4 * (self.lane % 0x2000_0000_0000_0000) + 3, &second, &self.b);
                            replay(&self.log, &mut conv1);
                            self.stage = MulSenderStage::SecondShare(conv1, gamma0);
                        }
                        Ok(Action::Wait) => {
                            self.stage = MulSenderStage::FirstShare(conv, second);
                            return Ok(Action::Wait);
                        }
                        Ok(Action::SendMany(m)) => {
                            self.stage = MulSenderStage::FirstShare(conv, second);
                            return Ok(Action::SendMany(m));
                        }
                        Ok(Action::SendPrivate(to, m)) => {
                            self.stage = MulSenderStage::FirstShare(conv, second);
                            return Ok(Action::SendPrivate(to, m));
                        }
                        Err(e) => {
                            return Err(e);
                        }
                    }
                }
                MulSenderStage::SecondShare(mut conv, gamma0) => {
                    match conv.poke() {
                        Ok(Action::Return(gamma1)) => {
                            return Ok(Action::Return(pairwise_share(&gamma0, &gamma1)));
                        }
                        Ok(Action::Wait) => {
                            self.stage = MulSenderStage::SecondShare(conv, gamma0);
                            return Ok(Action::Wait);
                        }
                        Ok(Action::SendMany(m)) => {
                            self.stage = MulSenderStage::SecondShare(conv, gamma0);
                            return Ok(Action::SendMany(m));
                        }
                        Ok(Action::SendPrivate(to, m)) => {
                            self.stage = MulSenderStage::SecondShare(conv, gamma0);
                            return Ok(Action::SendPrivate(to, m));
                        }
                        Err(e) => {
                            return Err(e);
                        }
                    }
                }
                MulSenderStage::Complete => {
                    return Ok(Action::Wait);
                }
            }
            proof {
                assert(self.stage_rank() < pre_rank);
            }
        }
    }

    /// How far the pipeline still has to go.
    spec fn stage_rank(&self) -> int {
        self.stage_rank_of(&self.stage)
    }

    spec fn stage_rank_of(&self, stage: &MulSenderStage) -> int {
        match stage {
            MulSenderStage::Base(_) => 4,
            MulSenderStage::Extension(_) => 3,
            MulSenderStage::FirstShare(_, _) => 2,
            MulSenderStage::SecondShare(_, _) => 1,
            MulSenderStage::Complete => 0,
        }
    }
}

impl Protocol for MultiplicationSender {
    type Output = Scalar;

    fn poke(&mut self) -> Result<Action<Scalar>, ProtocolError> {
        self.poke_machine()
    }

    fn message(&mut self, from: Participant, data: MessageData) {
        let copy = crate::protocol::clone_bytes(&data);
        self.log.push((from, copy));
        match &mut self.stage {
            MulSenderStage::Base(p) => p.message(from, data),
            MulSenderStage::Extension(p) => p.message(from, data),
            MulSenderStage::FirstShare(p, _) => p.message(from, data),
            MulSenderStage::SecondShare(p, _) => p.message(from, data),
            MulSenderStage::Complete => {}
        }
    }
}

/// Where the multiplication receiver currently stands.
enum MulReceiverStage {
    Base(BatchRandomOtSender),
    Extension(RandomOtExtReceiver),
    FirstShare(MtaReceiver, Vec<(bool, Scalar)>),
    SecondShare(MtaReceiver, Scalar),
    Complete,
}

/// The receiver's side of the two-party multiplication.
pub struct MultiplicationReceiver {
    me: Participant,
    to: Participant,
    lane: u64,
    sid: Vec<u8>,
    a: Scalar,
    b: Scalar,
    log: Vec<(Participant, Vec<u8>)>,
    stage: MulReceiverStage,
}

/// Start the multiplication receiver. The lane keeps concurrent
/// multiplications between one pair of parties on disjoint channels.
pub fn multiplication_receiver(me: Participant, to: Participant, lane: u64, sid: Vec<u8>,
    a: Scalar, b: Scalar) -> (r: MultiplicationReceiver)
{
    let base = batch_random_ot_sender(me, to, 4 * (lane % 0x2000_0000_0000_0000));
    MultiplicationReceiver {
        me,
        to,
        lane,
        sid,
        a,
        b,
        log: Vec::new(),
        stage: MulReceiverStage::Base(base),
    }
}

impl MultiplicationReceiver {
    fn poke_machine(&mut self) -> (r: Result<Action<Scalar>, ProtocolError>) {
        loop
            decreases self.stage_rank(),
        {
            let mut stage = MulReceiverStage::Complete;
            std::mem::swap(&mut stage, &mut self.stage);
            let ghost pre_rank = self.stage_rank_of(&stage);
            match stage {
                MulReceiverStage::Base(mut base) => {
                    match base.poke() {
                        Ok(Action::Return((k0, k1))) => {
                            let params = RandomOtExtensionParams {
                                sid: crate::protocol::clone_bytes(&self.sid),
                                batch_size: 2 * MTA_BATCH_SIZE,
                            };
                            let ext = match random_ot_extension_receiver(self.me,
                                self.to, self.lane, params, k0, k1) {
                                Ok(e) => e,
                                Err(e) => {
                                    return Err(e);
                                }
                            };
                            let mut ext = ext;
                            replay(&self.log, &mut ext);
                            self.stage = MulReceiverStage::Extension(ext);
                        }
                        Ok(Action::Wait) => {
                            self.stage = MulReceiverStage::Base(base);
                            return Ok(Action::Wait);
                        }
                        Ok(Action::SendMany(m)) => {
                            self.stage = MulReceiverStage::Base(base);
                            return Ok(Action::SendMany(m));
                        }
                        Ok(Action::SendPrivate(to, m)) => {
                            self.stage = MulReceiverStage::Base(base);
                            return Ok(Action::SendPrivate(to, m));
                        }
                        Err(e) => {
                            return Err(e);
                        }
                    }
                }
                MulReceiverStage::Extension(mut ext) => {
                    match ext.poke() {
                        Ok(Action::Return(mut tv)) => {
                            if tv.len() != 2 * MTA_BATCH_SIZE {
                                return Err(ProtocolError::AssertionFailed(
                                    String::from_str("extension output too short")));
                            }
                            let second = tv.split_off(MTA_BATCH_SIZE);
                            let mut conv = mta_receiver(self.me, self.to,
                                4 * (self.lane % 0x2000_0000_0000_0000) + 2, tv, self.b.clone());
                            replay(&self.log, &mut conv);
                            self.stage = MulReceiverStage::FirstShare(conv, second);
                        }
                        Ok(Action::Wait) => {
                            self.stage = MulReceiverStage::Extension(ext);
                            return Ok(Action::Wait);
                        }
                        Ok(Action::SendMany(m)) => {
                            self.stage = MulReceiverStage::Extension(ext);
                            return Ok(Action::SendMany(m));
                        }
                        Ok(Action::SendPrivate(to, m)) => {
                            self.stage = MulReceiverStage::Extension(ext);
                            return Ok(Action::SendPrivate(to, m));
                        }
                        Err(e) => {
                            return Err(e);
                        }
                    }
                }
                MulReceiverStage::FirstShare(mut conv, second) => {
                    match conv.poke() {
                        Ok(Action::Return(gamma0)) => {
                            let mut conv1 = mta_receiver(self.me, self.to,
                                4 * (self.lane % 0x2000_0000_0000_0000) + 3, second, self.a.clone());
                            replay(&self.log, &mut conv1);
                            self.stage = MulReceiverStage::SecondShare(conv1, gamma0);
                        }
                        Ok(Action::Wait) => {
                            self.stage = MulReceiverStage::FirstShare(conv, second);
                            return Ok(Action::Wait);
                        }
                        Ok(Action::SendMany(m)) => {
                            self.stage = MulReceiverStage::FirstShare(conv, second);
                            return Ok(Action::SendMany(m));
                        }
                        Ok(Action::SendPrivate(to, m)) => {
                            self.stage = MulReceiverStage::FirstShare(conv, second);
                            return Ok(Action::SendPrivate(to, m));
                        }
                        Err(e) => {
                            return Err(e);
                        }
                    }
                }
                MulReceiverStage::SecondShare(mut conv, gamma0) => {
                    match conv.poke() {
                        Ok(Action::Return(gamma1)) => {
                            return Ok(Action::Return(pairwise_share(&gamma0, &gamma1)));
                        }
                        Ok(Action::Wait) => {
                            self.stage = MulReceiverStage::SecondShare(conv, gamma0);
                            return Ok(Action::Wait);
                        }
                        Ok(Action::SendMany(m)) => {
                            self.stage = MulReceiverStage::SecondShare(conv, gamma0);
                            return Ok(Action::SendMany(m));
                        }
                        Ok(Action::SendPrivate(to, m)) => {
                            self.stage = MulReceiverStage::SecondShare(conv, gamma0);
                            return Ok(Action::SendPrivate(to, m));
                        }
                        Err(e) => {
                            return Err(e);
                        }
                    }
                }
                MulReceiverStage::Complete => {
                    return Ok(Action::Wait);
                }
            }
            proof {
                assert(self.stage_rank() < pre_rank);
            }
        }
    }

    /// How far the pipeline still has to go.
    spec fn stage_rank(&self) -> int {
        self.stage_rank_of(&self.stage)
    }

    spec fn stage_rank_of(&self, stage: &MulReceiverStage) -> int {
        match stage {
            MulReceiverStage::Base(_) => 4,
            MulReceiverStage::Extension(_) => 3,
            MulReceiverStage::FirstShare(_, _) => 2,
            MulReceiverStage::SecondShare(_, _) => 1,
            MulReceiverStage::Complete => 0,
        }
    }
}

impl Protocol for MultiplicationReceiver {
    type Output = Scalar;

    fn poke(&mut self) -> Result<Action<Scalar>, ProtocolError> {
        self.poke_machine()
    }

    fn message(&mut self, from: Participant, data: MessageData) {
        let copy = crate::protocol::clone_bytes(&data);
        self.log.push((from, copy));
        match &mut self.stage {
            MulReceiverStage::Base(p) => p.message(from, data),
            MulReceiverStage::Extension(p) => p.message(from, data),
            MulReceiverStage::FirstShare(p, _) => p.message(from, data),
            MulReceiverStage::SecondShare(p, _) => p.message(from, data),
            MulReceiverStage::Complete => {}
        }
    }
}

/// One counterparty's pipeline within the multi-party multiplication.
enum MulPipeline {
    Sender(MultiplicationSender),
    Receiver(MultiplicationReceiver),
    Finished(Scalar),
}

/// The multi-party multiplication: against every other participant, run
/// the two-party protocol (the lower-numbered party as sender), and add
/// the local product to the pairwise shares. The parties' outputs sum to
/// the product of the summed inputs.
pub struct MultiplicationProtocol {
    pipelines: Vec<(Participant, MulPipeline)>,
    a: Scalar,
    b: Scalar,
    done: bool,
}

/// Start a party's multi-party multiplication for inputs `a` and `b`,
/// under a session identifier all parties share. The lane keeps
/// concurrent multiplications on disjoint channels.
pub fn multiplication(participants: &ParticipantList, me: Participant, lane: u64,
    sid: &Vec<u8>, a: Scalar, b: Scalar) -> (r: MultiplicationProtocol)
{
    let others = participants.others(me);
    let mut pipelines: Vec<(Participant, MulPipeline)> = Vec::new();
    let mut i: usize = 0;
    while i < others.len()
        decreases others@.len() - i,
    {
        let p = others[i];
        let sid_copy = crate::protocol::clone_bytes(sid);
        let pipeline = if p.id() < me.id() {
            MulPipeline::Sender(multiplication_sender(me, p, lane, sid_copy, a.clone(),
                b.clone()))
        } else {
            MulPipeline::Receiver(multiplication_receiver(me, p, lane, sid_copy,
                a.clone(), b.clone()))
        };
        pipelines.push((p, pipeline));
        i = i + 1;
    }
    MultiplicationProtocol { pipelines, a, b, done: false }
}

impl MultiplicationProtocol {
    fn poke_machine(&mut self) -> (r: Result<Action<Scalar>, ProtocolError>) {
        if self.done {
            return Ok(Action::Wait);
        }
        let n = self.pipelines.len();
        let mut i: usize = 0;
        let mut all_finished = true;
        while i < n
            invariant
                n == self.pipelines@.len(),
                i <= n,
            decreases n - i,
        {
            let who = self.pipelines[i].0;
            let mut state = MulPipeline::Finished(scalar_from_u64(0));
            let slot = &mut self.pipelines[i].1;
            std::mem::swap(&mut state, slot);
            match state {
                MulPipeline::Sender(mut p) => {
                    match p.poke() {
                        Ok(Action::Return(gamma)) => {
                            self.pipelines.set(i, (who, MulPipeline::Finished(gamma)));
                        }
                        Ok(Action::Wait) => {
                            self.pipelines.set(i, (who, MulPipeline::Sender(p)));
                            all_finished = false;
                        }
                        Ok(Action::SendMany(m)) => {
                            self.pipelines.set(i, (who, MulPipeline::Sender(p)));
                            return Ok(Action::SendMany(m));
                        }
                        Ok(Action::SendPrivate(to, m)) => {
                            self.pipelines.set(i, (who, MulPipeline::Sender(p)));
                            return Ok(Action::SendPrivate(to, m));
                        }
                        Err(e) => {
                            self.done = true;
                            return Err(e);
                        }
                    }
                }
                MulPipeline::Receiver(mut p) => {
                    match p.poke() {
                        Ok(Action::Return(gamma)) => {
                            self.pipelines.set(i, (who, MulPipeline::Finished(gamma)));
                        }
                        Ok(Action::Wait) => {
                            self.pipelines.set(i, (who, MulPipeline::Receiver(p)));
                            all_finished = false;
                        }
                        Ok(Action::SendMany(m)) => {
                            self.pipelines.set(i, (who, MulPipeline::Receiver(p)));
                            return Ok(Action::SendMany(m));
                        }
                        Ok(Action::SendPrivate(to, m)) => {
                            self.pipelines.set(i, (who, MulPipeline::Receiver(p)));
                            return Ok(Action::SendPrivate(to, m));
                        }
                        Err(e) => {
                            self.done = true;
                            return Err(e);
                        }
                    }
                }
                MulPipeline::Finished(gamma) => {
                    self.pipelines.set(i, (who, MulPipeline::Finished(gamma)));
                }
            }
            i = i + 1;
        }
        if all_finished {
            let mut gammas: Vec<Scalar> = Vec::new();
            let mut j: usize = 0;
            while j < self.pipelines.len()
                decreases self.pipelines@.len() - j,
            {
                match &self.pipelines[j].1 {
                    MulPipeline::Finished(g) => {
                        gammas.push(g.clone());
                    }
                    _ => {}
                }
                j = j + 1;
            }
            self.done = true;
            return Ok(Action::Return(multiplication_combine(&self.a, &self.b, &gammas)));
        }
        Ok(Action::Wait)
    }
}

impl Protocol for MultiplicationProtocol {
    type Output = Scalar;

    fn poke(&mut self) -> Result<Action<Scalar>, ProtocolError> {
        self.poke_machine()
    }

    fn message(&mut self, from: Participant, data: MessageData) {
        let n = self.pipelines.len();
        let mut i: usize = 0;
        while i < n
            invariant
                n == self.pipelines@.len(),
                i <= n,
            decreases n - i,
        {
            if self.pipelines[i].0 == from {
                let who = self.pipelines[i].0;
                let mut state = MulPipeline::Finished(scalar_from_u64(0));
                let slot = &mut self.pipelines[i].1;
                std::mem::swap(&mut state, slot);
                match state {
                    MulPipeline::Sender(mut p) => {
                        p.message(from, data);
                        self.pipelines.set(i, (who, MulPipeline::Sender(p)));
                    }
                    MulPipeline::Receiver(mut p) => {
                        p.message(from, data);
                        self.pipelines.set(i, (who, MulPipeline::Receiver(p)));
                    }
                    MulPipeline::Finished(g) => {
                        self.pipelines.set(i, (who, MulPipeline::Finished(g)));
                    }
                }
                return;
            }
            i = i + 1;
        }
    }
}

/// One instance's pipeline on the multiplication sender's side, after the
/// lock-step base transfer.
enum SenderLane {
    Extension(RandomOtExtSender),
    FirstShare(MtaSender, Vec<(Scalar, Scalar)>),
    SecondShare(MtaSender, Scalar),
    Finished(Scalar),
}

/// The sender's side of `n` two-party multiplications run together: one
/// lock-step base transfer, then per-instance extensions and conversions
/// on disjoint channels.
pub struct MultiplicationSenderMany {
    me: Participant,
    to: Participant,
    sid: Vec<u8>,
    pairs: Vec<(Scalar, Scalar)>,
    log: Vec<(Participant, Vec<u8>)>,
    base: Option<BatchRandomOtReceiverMany>,
    lanes: Vec<SenderLane>,
}

impl MultiplicationSenderMany {
    /// How many instances run together.
    pub closed spec fn instances(self) -> int {
        self.pairs@.len() as int
    }
}

/// Start the many-instance multiplication sender for the given input pairs.
pub fn multiplication_sender_many(me: Participant, to: Participant, sid: Vec<u8>,
    pairs: Vec<(Scalar, Scalar)>) -> (r: MultiplicationSenderMany)
    ensures
        r.instances() == pairs@.len(),
{
    let n = pairs.len();
    let base = batch_random_ot_receiver_many(me, to, n);
    MultiplicationSenderMany {
        me,
        to,
        sid,
        pairs,
        log: Vec::new(),
        base: Some(base),
        lanes: Vec::new(),
    }
}

impl MultiplicationSenderMany {
    fn poke_machine(&mut self) -> (r: Result<Action<Vec<Scalar>>, ProtocolError>) {
        // First drive the lock-step base transfer.
        let mut base_taken: Option<BatchRandomOtReceiverMany> = None;
        std::mem::swap(&mut base_taken, &mut self.base);
        match base_taken {
            Some(mut base) => {
                match base.poke() {
                    Ok(Action::Return(outs)) => {
                        if outs.len() != self.pairs.len() {
                            return Err(ProtocolError::AssertionFailed(
                                String::from_str("transfer output too short")));
                        }
                        let mut lanes: Vec<SenderLane> = Vec::new();
                        let mut i: usize = 0;
                        while i < outs.len()
                            decreases outs@.len() - i,
                        {
                            let params = RandomOtExtensionParams {
                                sid: crate::protocol::clone_bytes(&self.sid),
                                batch_size: 2 * MTA_BATCH_SIZE,
                            };
                            let delta = outs[i].0;
                            let k = outs[i].1.clone();
                            let mut ext = random_ot_extension_sender(self.me,
                                self.to, i as u64, params, delta, k);
                            replay(&self.log, &mut ext);
                            lanes.push(SenderLane::Extension(ext));
                            i = i + 1;
                        }
                        self.lanes = lanes;
                    }
                    Ok(Action::Wait) => {
                        self.base = Some(base);
                        return Ok(Action::Wait);
                    }
                    Ok(Action::SendMany(m)) => {
                        self.base = Some(base);
                        return Ok(Action::SendMany(m));
                    }
                    Ok(Action::SendPrivate(to, m)) => {
                        self.base = Some(base);
                        return Ok(Action::SendPrivate(to, m));
                    }
                    Err(e) => {
                        return Err(e);
                    }
                }
            }
            None => {}
        }
        // Then drive every lane; the pass ends with a send, or with every
        // lane finished, or with a wait.
        let n = self.lanes.len();
        if n != self.pairs.len() {
            return Ok(Action::Wait);
        }
        let mut i: usize = 0;
        let mut all_finished = true;
        while i < n
            invariant
                n == self.lanes@.len(),
                n == self.pairs@.len(),
                i <= n,
            decreases n - i,
        {
            let mut lane = SenderLane::Finished(scalar_from_u64(0));
            let slot = &mut self.lanes[i];
            std::mem::swap(&mut lane, slot);
            match lane {
                SenderLane::Extension(mut ext) => {
                    match ext.poke() {
                        Ok(Action::Return(mut v)) => {
                            if v.len() != 2 * MTA_BATCH_SIZE {
                                return Err(ProtocolError::AssertionFailed(
                                    String::from_str("extension output too short")));
                            }
                            let second = v.split_off(MTA_BATCH_SIZE);
                            if i as u64 >= (u64::MAX - 3) / 2 {
                                return Err(ProtocolError::AssertionFailed(
                                    String::from_str("too many instances")));
                            }
                            let mut conv = mta_sender(self.me, self.to,
                                2 + 2 * (i as u64), &v, &self.pairs[i].0);
                            replay(&self.log, &mut conv);
                            self.lanes.set(i, SenderLane::FirstShare(conv, second));
                            all_finished = false;
                        }
                        Ok(Action::Wait) => {
                            self.lanes.set(i, SenderLane::Extension(ext));
                            all_finished = false;
                        }
                        Ok(Action::SendMany(m)) => {
                            self.lanes.set(i, SenderLane::Extension(ext));
                            return Ok(Action::SendMany(m));
                        }
                        Ok(Action::SendPrivate(to, m)) => {
                            self.lanes.set(i, SenderLane::Extension(ext));
                            return Ok(Action::SendPrivate(to, m));
                        }
                        Err(e) => {
                            return Err(e);
                        }
                    }
                }
                SenderLane::FirstShare(mut conv, second) => {
                    match conv.poke() {
                        Ok(Action::Return(gamma0)) => {
                            if i as u64 >= (u64::MAX - 3) / 2 {
                                return Err(ProtocolError::AssertionFailed(
                                    String::from_str("too many instances")));
                            }
                            let mut conv1 = mta_sender(self.me, self.to,
                                3 + 2 * (i as u64), &second, &self.pairs[i].1);
                            replay(&self.log, &mut conv1);
                            self.lanes.set(i, SenderLane::SecondShare(conv1, gamma0));
                            all_finished = false;
                        }
                        Ok(Action::Wait) => {
                            self.lanes.set(i, SenderLane::FirstShare(conv, second));
                            all_finished = false;
                        }
                        Ok(Action::SendMany(m)) => {
                            self.lanes.set(i, SenderLane::FirstShare(conv, second));
                            return Ok(Action::SendMany(m));
                        }
                        Ok(Action::SendPrivate(to, m)) => {
                            self.lanes.set(i, SenderLane::FirstShare(conv, second));
                            return Ok(Action::SendPrivate(to, m));
                        }
                        Err(e) => {
                            return Err(e);
                        }
                    }
                }
                SenderLane::SecondShare(mut conv, gamma0) => {
                    match conv.poke() {
                        Ok(Action::Return(gamma1)) => {
                            self.lanes.set(i, SenderLane::Finished(
                                pairwise_share(&gamma0, &gamma1)));
                        }
                        Ok(Action::Wait) => {
                            self.lanes.set(i, SenderLane::SecondShare(conv, gamma0));
                            all_finished = false;
                        }
                        Ok(Action::SendMany(m)) => {
                            self.lanes.set(i, SenderLane::SecondShare(conv, gamma0));
                            return Ok(Action::SendMany(m));
                        }
                        Ok(Action::SendPrivate(to, m)) => {
                            self.lanes.set(i, SenderLane::SecondShare(conv, gamma0));
                            return Ok(Action::SendPrivate(to, m));
                        }
                        Err(e) => {
                            return Err(e);
                        }
                    }
                }
                SenderLane::Finished(g) => {
                    self.lanes.set(i, SenderLane::Finished(g));
                }
            }
            i = i + 1;
        }
        if all_finished && n > 0 {
            let mut out: Vec<Scalar> = Vec::new();
            let mut j: usize = 0;
            while j < self.lanes.len()
                decreases self.lanes@.len() - j,
            {
                match &self.lanes[j] {
                    SenderLane::Finished(g) => {
                        out.push(g.clone());
                    }
                    _ => {}
                }
                j = j + 1;
            }
            if out.len() != self.pairs.len() {
                return Ok(Action::Wait);
            }
            return Ok(Action::Return(out));
        }
        Ok(Action::Wait)
    }
}

impl Protocol for MultiplicationSenderMany {
    type Output = Vec<Scalar>;

    fn poke(&mut self) -> Result<Action<Vec<Scalar>>, ProtocolError> {
        self.poke_machine()
    }

    fn message(&mut self, from: Participant, data: MessageData) {
        let copy = crate::protocol::clone_bytes(&data);
        self.log.push((from, copy));
        let mut base_taken: Option<BatchRandomOtReceiverMany> = None;
        std::mem::swap(&mut base_taken, &mut self.base);
        match base_taken {
            Some(mut base) => {
                let d = crate::protocol::clone_bytes(&data);
                base.message(from, d);
                self.base = Some(base);
            }
            None => {}
        }
        let n = self.lanes.len();
        let mut i: usize = 0;
        while i < n
            invariant
                n == self.lanes@.len(),
                i <= n,
            decreases n - i,
        {
            let d = crate::protocol::clone_bytes(&data);
            let mut lane = SenderLane::Finished(scalar_from_u64(0));
            let slot = &mut self.lanes[i];
            std::mem::swap(&mut lane, slot);
            match lane {
                SenderLane::Extension(mut p) => {
                    p.message(from, d);
                    self.lanes.set(i, SenderLane::Extension(p));
                }
                SenderLane::FirstShare(mut p, second) => {
                    p.message(from, d);
                    self.lanes.set(i, SenderLane::FirstShare(p, second));
                }
                SenderLane::SecondShare(mut p, g) => {
                    p.message(from, d);
                    self.lanes.set(i, SenderLane::SecondShare(p, g));
                }
                SenderLane::Finished(g) => {
                    self.lanes.set(i, SenderLane::Finished(g));
                }
            }
            i = i + 1;
        }
    }
}

/// One instance's pipeline on the multiplication receiver's side.
enum ReceiverLane {
    Extension(RandomOtExtReceiver),
    FirstShare(MtaReceiver, Vec<(bool, Scalar)>),
    SecondShare(MtaReceiver, Scalar),
    Finished(Scalar),
}

/// The receiver's side of `n` two-party multiplications run together.
pub struct MultiplicationReceiverMany {
    me: Participant,
    to: Participant,
    sid: Vec<u8>,
    pairs: Vec<(Scalar, Scalar)>,
    log: Vec<(Participant, Vec<u8>)>,
    base: Option<BatchRandomOtSenderMany>,
    lanes: Vec<ReceiverLane>,
}

impl MultiplicationReceiverMany {
    /// How many instances run together.
    pub closed spec fn instances(self) -> int {
        self.pairs@.len() as int
    }
}

/// Start the many-instance multiplication receiver for the given pairs.
pub fn multiplication_receiver_many(me: Participant, to: Participant, sid: Vec<u8>,
    pairs: Vec<(Scalar, Scalar)>) -> (r: MultiplicationReceiverMany)
    ensures
        r.instances() == pairs@.len(),
{
    let n = pairs.len();
    let base = batch_random_ot_sender_many(me, to, n);
    MultiplicationReceiverMany {
        me,
        to,
        sid,
        pairs,
        log: Vec::new(),
        base: Some(base),
        lanes: Vec::new(),
    }
}

impl MultiplicationReceiverMany {
    fn poke_machine(&mut self) -> (r: Result<Action<Vec<Scalar>>, ProtocolError>) {
        let mut base_taken: Option<BatchRandomOtSenderMany> = None;
        std::mem::swap(&mut base_taken, &mut self.base);
        match base_taken {
            Some(mut base) => {
                match base.poke() {
                    Ok(Action::Return(outs)) => {
                        if outs.len() != self.pairs.len() {
                            return Err(ProtocolError::AssertionFailed(
                                String::from_str("transfer output too short")));
                        }
                        let mut lanes: Vec<ReceiverLane> = Vec::new();
                        let mut i: usize = 0;
                        while i < outs.len()
                            decreases outs@.len() - i,
                        {
                            let params = RandomOtExtensionParams {
                                sid: crate::protocol::clone_bytes(&self.sid),
                                batch_size: 2 * MTA_BATCH_SIZE,
                            };
                            let k0 = outs[i].0.clone();
                            let k1 = outs[i].1.clone();
                            let ext = match random_ot_extension_receiver(self.me,
                                self.to, i as u64, params, k0, k1) {
                                Ok(e) => e,
                                Err(e) => {
                                    return Err(e);
                                }
                            };
                            let mut ext = ext;
                            replay(&self.log, &mut ext);
                            lanes.push(ReceiverLane::Extension(ext));
                            i = i + 1;
                        }
                        self.lanes = lanes;
                    }
                    Ok(Action::Wait) => {
                        self.base = Some(base);
                        return Ok(Action::Wait);
                    }
                    Ok(Action::SendMany(m)) => {
                        self.base = Some(base);
                        return Ok(Action::SendMany(m));
                    }
                    Ok(Action::SendPrivate(to, m)) => {
                        self.base = Some(base);
                        return Ok(Action::SendPrivate(to, m));
                    }
                    Err(e) => {
                        return Err(e);
                    }
                }
            }
            None => {}
        }
        let n = self.lanes.len();
        if n != self.pairs.len() {
            return Ok(Action::Wait);
        }
        let mut i: usize = 0;
        let mut all_finished = true;
        while i < n
            invariant
                n == self.lanes@.len(),
                n == self.pairs@.len(),
                i <= n,
            decreases n - i,
        {
            let mut lane = ReceiverLane::Finished(scalar_from_u64(0));
            let slot = &mut self.lanes[i];
            std::mem::swap(&mut lane, slot);
            match lane {
                ReceiverLane::Extension(mut ext) => {
                    match ext.poke() {
                        Ok(Action::Return(mut tv)) => {
                            if tv.len() != 2 * MTA_BATCH_SIZE {
                                return Err(ProtocolError::AssertionFailed(
                                    String::from_str("extension output too short")));
                            }
                            let second = tv.split_off(MTA_BATCH_SIZE);
                            if i as u64 >= (u64::MAX - 3) / 2 {
                                return Err(ProtocolError::AssertionFailed(
                                    String::from_str("too many instances")));
                            }
                            let mut conv = mta_receiver(self.me, self.to,
                                2 + 2 * (i as u64), tv, self.pairs[i].1.clone());
                            replay(&self.log, &mut conv);
                            self.lanes.set(i, ReceiverLane::FirstShare(conv, second));
                            all_finished = false;
                        }
                        Ok(Action::Wait) => {
                            self.lanes.set(i, ReceiverLane::Extension(ext));
                            all_finished = false;
                        }
                        Ok(Action::SendMany(m)) => {
                            self.lanes.set(i, ReceiverLane::Extension(ext));
                            return Ok(Action::SendMany(m));
                        }
                        Ok(Action::SendPrivate(to, m)) => {
                            self.lanes.set(i, ReceiverLane::Extension(ext));
                            return Ok(Action::SendPrivate(to, m));
                        }
                        Err(e) => {
                            return Err(e);
                        }
                    }
                }
                ReceiverLane::FirstShare(mut conv, second) => {
                    match conv.poke() {
                        Ok(Action::Return(gamma0)) => {
                            if i as u64 >= (u64::MAX - 3) / 2 {
                                return Err(ProtocolError::AssertionFailed(
                                    String::from_str("too many instances")));
                            }
                            let mut conv1 = mta_receiver(self.me, self.to,
                                3 + 2 * (i as u64), second, self.pairs[i].0.clone());
                            replay(&self.log, &mut conv1);
                            self.lanes.set(i, ReceiverLane::SecondShare(conv1, gamma0));
                            all_finished = false;
                        }
                        Ok(Action::Wait) => {
                            self.lanes.set(i, ReceiverLane::FirstShare(conv, second));
                            all_finished = false;
                        }
                        Ok(Action::SendMany(m)) => {
                            self.lanes.set(i, ReceiverLane::FirstShare(conv, second));
                            return Ok(Action::SendMany(m));
                        }
                        Ok(Action::SendPrivate(to, m)) => {
                            self.lanes.set(i, ReceiverLane::FirstShare(conv, second));
                            return Ok(Action::SendPrivate(to, m));
                        }
                        Err(e) => {
                            return Err(e);
                        }
                    }
                }
                ReceiverLane::SecondShare(mut conv, gamma0) => {
                    match conv.poke() {
                        Ok(Action::Return(gamma1)) => {
                            self.lanes.set(i, ReceiverLane::Finished(
                                pairwise_share(&gamma0, &gamma1)));
                        }
                        Ok(Action::Wait) => {
                            self.lanes.set(i, ReceiverLane::SecondShare(conv, gamma0));
                            all_finished = false;
                        }
                        Ok(Action::SendMany(m)) => {
                            self.lanes.set(i, ReceiverLane::SecondShare(conv, gamma0));
                            return Ok(Action::SendMany(m));
                        }
                        Ok(Action::SendPrivate(to, m)) => {
                            self.lanes.set(i, ReceiverLane::SecondShare(conv, gamma0));
                            return Ok(Action::SendPrivate(to, m));
                        }
                        Err(e) => {
                            return Err(e);
                        }
                    }
                }
                ReceiverLane::Finished(g) => {
                    self.lanes.set(i, ReceiverLane::Finished(g));
                }
            }
            i = i + 1;
        }
        if all_finished && n > 0 {
            let mut out: Vec<Scalar> = Vec::new();
            let mut j: usize = 0;
            while j < self.lanes.len()
                decreases self.lanes@.len() - j,
            {
                match &self.lanes[j] {
                    ReceiverLane::Finished(g) => {
                        out.push(g.clone());
                    }
                    _ => {}
                }
                j = j + 1;
            }
            if out.len() != self.pairs.len() {
                return Ok(Action::Wait);
            }
            return Ok(Action::Return(out));
        }
        Ok(Action::Wait)
    }
}

impl Protocol for MultiplicationReceiverMany {
    type Output = Vec<Scalar>;

    fn poke(&mut self) -> Result<Action<Vec<Scalar>>, ProtocolError> {
        self.poke_machine()
    }

    fn message(&mut self, from: Participant, data: MessageData) {
        let copy = crate::protocol::clone_bytes(&data);
        self.log.push((from, copy));
        let mut base_taken: Option<BatchRandomOtSenderMany> = None;
        std::mem::swap(&mut base_taken, &mut self.base);
        match base_taken {
            Some(mut base) => {
                let d = crate::protocol::clone_bytes(&data);
                base.message(from, d);
                self.base = Some(base);
            }
            None => {}
        }
        let n = self.lanes.len();
        let mut i: usize = 0;
        while i < n
            invariant
                n == self.lanes@.len(),
                i <= n,
            decreases n - i,
        {
            let d = crate::protocol::clone_bytes(&data);
            let mut lane = ReceiverLane::Finished(scalar_from_u64(0));
            let slot = &mut self.lanes[i];
            std::mem::swap(&mut lane, slot);
            match lane {
                ReceiverLane::Extension(mut p) => {
                    p.message(from, d);
                    self.lanes.set(i, ReceiverLane::Extension(p));
                }
                ReceiverLane::FirstShare(mut p, second) => {
                    p.message(from, d);
                    self.lanes.set(i, ReceiverLane::FirstShare(p, second));
                }
                ReceiverLane::SecondShare(mut p, g) => {
                    p.message(from, d);
                    self.lanes.set(i, ReceiverLane::SecondShare(p, g));
                }
                ReceiverLane::Finished(g) => {
                    self.lanes.set(i, ReceiverLane::Finished(g));
                }
            }
            i = i + 1;
        }
    }
}

/// One counterparty's many-instance pipeline within the multi-party
/// multiplication of many pairs.
enum ManyPipeline {
    Sender(MultiplicationSenderMany),
    Receiver(MultiplicationReceiverMany),
    Finished(Vec<Scalar>),
}

/// The multi-party multiplication of many input pairs at once: against
/// every other participant, run the many-instance two-party protocol, and
/// per instance add the local product to the pairwise shares.
pub struct MultiplicationManyProtocol {
    pairs: Vec<(Scalar, Scalar)>,
    peers: Vec<(Participant, ManyPipeline)>,
    done: bool,
}

impl MultiplicationManyProtocol {
    /// How many instances run together.
    pub closed spec fn instances(self) -> int {
        self.pairs@.len() as int
    }
}

/// Start a party's multi-party multiplication for the input pairs, under a
/// session identifier all parties share.
pub fn multiplication_many(participants: &ParticipantList, me: Participant,
    sid: &Vec<u8>, pairs: &Vec<(Scalar, Scalar)>) -> (r: MultiplicationManyProtocol)
    ensures
        r.instances() == pairs@.len(),
{
    let others = participants.others(me);
    let mut peers: Vec<(Participant, ManyPipeline)> = Vec::new();
    let mut i: usize = 0;
    while i < others.len()
        decreases others@.len() - i,
    {
        let p = others[i];
        let sid_copy = crate::protocol::clone_bytes(sid);
        let own = clone_pairs(pairs);
        let pipeline = if p.id() < me.id() {
            ManyPipeline::Sender(multiplication_sender_many(me, p, sid_copy, own))
        } else {
            ManyPipeline::Receiver(multiplication_receiver_many(me, p, sid_copy, own))
        };
        peers.push((p, pipeline));
        i = i + 1;
    }
    MultiplicationManyProtocol { pairs: clone_pairs(pairs), peers, done: false }
}

/// Copy a list of scalar pairs.
fn clone_pairs(pairs: &Vec<(Scalar, Scalar)>) -> (r: Vec<(Scalar, Scalar)>)
    ensures
        r@.len() == pairs@.len(),
{
    let mut out: Vec<(Scalar, Scalar)> = Vec::new();
    let mut i: usize = 0;
    while i < pairs.len()
        invariant
            i <= pairs@.len(),
            out@.len() == i,
        decreases pairs@.len() - i,
    {
        out.push((pairs[i].0.clone(), pairs[i].1.clone()));
        i = i + 1;
    }
    out
}

impl MultiplicationManyProtocol {
    fn poke_machine(&mut self) -> (r: Result<Action<Vec<Scalar>>, ProtocolError>)
        ensures
            r matches Ok(Action::Return(out)) ==> out@.len() == final(self).instances(),
    {
        if self.done {
            return Ok(Action::Wait);
        }
        let n = self.peers.len();
        let mut i: usize = 0;
        let mut all_finished = true;
        while i < n
            invariant
                n == self.peers@.len(),
                i <= n,
            decreases n - i,
        {
            let who = self.peers[i].0;
            let mut state = ManyPipeline::Finished(Vec::new());
            let slot = &mut self.peers[i].1;
            std::mem::swap(&mut state, slot);
            match state {
                ManyPipeline::Sender(mut p) => {
                    match p.poke() {
                        Ok(Action::Return(gammas)) => {
                            self.peers.set(i, (who, ManyPipeline::Finished(gammas)));
                        }
                        Ok(Action::Wait) => {
                            self.peers.set(i, (who, ManyPipeline::Sender(p)));
                            all_finished = false;
                        }
                        Ok(Action::SendMany(m)) => {
                            self.peers.set(i, (who, ManyPipeline::Sender(p)));
                            return Ok(Action::SendMany(m));
                        }
                        Ok(Action::SendPrivate(to, m)) => {
                            self.peers.set(i, (who, ManyPipeline::Sender(p)));
                            return Ok(Action::SendPrivate(to, m));
                        }
                        Err(e) => {
                            self.done = true;
                            return Err(e);
                        }
                    }
                }
                ManyPipeline::Receiver(mut p) => {
                    match p.poke() {
                        Ok(Action::Return(gammas)) => {
                            self.peers.set(i, (who, ManyPipeline::Finished(gammas)));
                        }
                        Ok(Action::Wait) => {
                            self.peers.set(i, (who, ManyPipeline::Receiver(p)));
                            all_finished = false;
                        }
                        Ok(Action::SendMany(m)) => {
                            self.peers.set(i, (who, ManyPipeline::Receiver(p)));
                            return Ok(Action::SendMany(m));
                        }
                        Ok(Action::SendPrivate(to, m)) => {
                            self.peers.set(i, (who, ManyPipeline::Receiver(p)));
                            return Ok(Action::SendPrivate(to, m));
                        }
                        Err(e) => {
                            self.done = true;
                            return Err(e);
                        }
                    }
                }
                ManyPipeline::Finished(g) => {
                    self.peers.set(i, (who, ManyPipeline::Finished(g)));
                }
            }
            i = i + 1;
        }
        if all_finished {
            // Per instance, the local product plus every peer's share.
            let count = self.pairs.len();
            let mut out: Vec<Scalar> = Vec::new();
            let mut inst: usize = 0;
            while inst < count
                invariant
                    count == self.pairs@.len(),
                    inst <= count,
                    out@.len() == inst,
                decreases count - inst,
            {
                let mut column: Vec<Scalar> = Vec::new();
                let mut j: usize = 0;
                while j < self.peers.len()
                    invariant
                        count == self.pairs@.len(),
                        inst < count,
                        j <= self.peers@.len(),
                    decreases self.peers@.len() - j,
                {
                    match &self.peers[j].1 {
                        ManyPipeline::Finished(gammas) => {
                            if gammas.len() != count {
                                return Err(ProtocolError::AssertionFailed(
                                    String::from_str("conversion output too short")));
                            }
                            column.push(gammas[inst].clone());
                        }
                        _ => {}
                    }
                    j = j + 1;
                }
                out.push(multiplication_combine(&self.pairs[inst].0,
                    &self.pairs[inst].1, &column));
                inst = inst + 1;
            }
            self.done = true;
            return Ok(Action::Return(out));
        }
        Ok(Action::Wait)
    }
}

impl Protocol for MultiplicationManyProtocol {
    type Output = Vec<Scalar>;

    fn poke(&mut self) -> Result<Action<Vec<Scalar>>, ProtocolError> {
        self.poke_machine()
    }

    fn message(&mut self, from: Participant, data: MessageData) {
        let n = self.peers.len();
        let mut i: usize = 0;
        while i < n
            invariant
                n == self.peers@.len(),
                i <= n,
            decreases n - i,
        {
            if self.peers[i].0 == from {
                let who = self.peers[i].0;
                let mut state = ManyPipeline::Finished(Vec::new());
                let slot = &mut self.peers[i].1;
                std::mem::swap(&mut state, slot);
                match state {
                    ManyPipeline::Sender(mut p) => {
                        p.message(from, data);
                        self.peers.set(i, (who, ManyPipeline::Sender(p)));
                    }
                    ManyPipeline::Receiver(mut p) => {
                        p.message(from, data);
                        self.peers.set(i, (who, ManyPipeline::Receiver(p)));
                    }
                    ManyPipeline::Finished(g) => {
                        self.peers.set(i, (who, ManyPipeline::Finished(g)));
                    }
                }
                return;
            }
            i = i + 1;
        }
    }
}

} // verus!
