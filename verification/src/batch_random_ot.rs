//! The batch random oblivious transfer at the base of the extension.
//!
//! The sender publishes `Y = y G`; for each of the 128 instances the
//! receiver picks `x_i` and sends `X_i = x_i G + delta_i Y`. The sender
//! derives the key pair `K_0 = H(i, X_i, Y, y X_i)` and
//! `K_1 = H(i, X_i, Y, y X_i - y Y)`; the receiver derives
//! `H(i, X_i, Y, x_i Y)`, which equals the component its bit selects
//! because `y X_i = x_i Y + delta_i y Y`. That group identity lies outside
//! the byte-level model of points, so the selection property is checked by
//! tests rather than proved here; the derivations themselves are pinned to
//! the named hash.

use vstd::prelude::*;
use crate::bits::{BitVector, BitMatrix, SquareBitMatrix};
use crate::points::{Point, point_sub, pt_sub, point_add, point_mul, generator_mul, point_from_bytes};
use crate::scalars::{Scalar, scalar_random};
use crate::protocol::{Participant, Action, Protocol, ProtocolError, MessageData};
use crate::runtime::{Comms, MessageHeader};
use crate::codec::{encode_point_list, read_point_list};

verus! {

/// The 16 key bytes the instance hash derives from an index, the
/// receiver's point, the sender's point and the shared secret point.
pub uninterp spec fn rot_key_of(i: u64, x: Seq<u8>, y: Seq<u8>, p: Seq<u8>) -> Seq<u8>;

/// Relies on `ck_meow::Meow`: the base-OT instance hash, a deterministic
/// function of the index and the three point encodings.
#[verifier::external_body]
fn rot_hash(i: u64, big_x: &Point, big_y: &Point, p: &Point) -> (r: BitVector)
    ensures
        crate::runtime::u64_le_bytes(r.lo_spec()) + crate::runtime::u64_le_bytes(r.hi_spec())
            == rot_key_of(i, big_x.repr(), big_y.repr(), p.repr()),
{
    let mut meow = ck_meow::Meow::new(b"cait-sith v0.8.0 batch ROT");
    meow.ad(&i.to_le_bytes(), false);
    meow.ad(&big_x.to_bytes(), false);
    meow.ad(&big_y.to_bytes(), false);
    meow.ad(&p.to_bytes(), false);
    let mut bytes = vec![0u8; 16];
    meow.prf(&mut bytes, false);
    BitVector::from_bytes(&bytes).unwrap()
}

/// The sender's key pair for one instance: the hashes of `y X_i` and of
/// `y X_i - y Y`.
pub fn sender_keys(i: u64, big_x: &Point, big_y: &Point, y_big_x: &Point, big_z: &Point)
    -> (r: (BitVector, BitVector))
    ensures
        crate::runtime::u64_le_bytes(r.0.lo_spec())
            + crate::runtime::u64_le_bytes(r.0.hi_spec())
            == rot_key_of(i, big_x.repr(), big_y.repr(), y_big_x.repr()),
        crate::runtime::u64_le_bytes(r.1.lo_spec())
            + crate::runtime::u64_le_bytes(r.1.hi_spec())
            == rot_key_of(i, big_x.repr(), big_y.repr(),
                pt_sub(y_big_x.repr(), big_z.repr())),
{
    let k0 = rot_hash(i, big_x, big_y, y_big_x);
    let shifted = point_sub(y_big_x, big_z);
    let k1 = rot_hash(i, big_x, big_y, &shifted);
    (k0, k1)
}

/// The receiver's key for one instance: the hash of `x_i Y`.
pub fn receiver_key(i: u64, big_x: &Point, big_y: &Point, x_big_y: &Point)
    -> (r: BitVector)
    ensures
        crate::runtime::u64_le_bytes(r.lo_spec())
            + crate::runtime::u64_le_bytes(r.hi_spec())
            == rot_key_of(i, big_x.repr(), big_y.repr(), x_big_y.repr()),
{
    rot_hash(i, big_x, big_y, x_big_y)
}

/// The sender's side of the batch random OT, as a message-driven state
/// machine: it publishes `Y = y G` and then, for each of the 128
/// instances, hashes the receiver's point into the key pair.
pub struct BatchRandomOtSender {
    comms: Comms,
    root: MessageHeader,
    to: Participant,
    y: Scalar,
    big_y: Point,
    big_z: Point,
    next: usize,
    k0_rows: Vec<BitVector>,
    k1_rows: Vec<BitVector>,
    result: Option<(SquareBitMatrix, SquareBitMatrix)>,
    done: bool,
}

/// Start the sender: sample `y` and queue the broadcast of `Y`. The
/// namespace keeps concurrent transfers between one pair on disjoint
/// channels.
pub fn batch_random_ot_sender(me: Participant, to: Participant, namespace: u64)
    -> (r: BatchRandomOtSender)
{
    let mut root = MessageHeader::private(me, to).child(namespace);
    let w0 = root.next_waitpoint();
    let h0 = root.with_waitpoint(w0);
    let y = scalar_random();
    let big_y = generator_mul(&y);
    let big_z = point_mul(&big_y, &y);
    let mut comms = Comms::new();
    let yb = big_y.to_bytes();
    comms.send_private(to, &h0, &yb);
    BatchRandomOtSender {
        comms,
        root,
        to,
        y,
        big_y,
        big_z,
        next: 0,
        k0_rows: Vec::new(),
        k1_rows: Vec::new(),
        result: None,
        done: false,
    }
}

impl BatchRandomOtSender {
    /// Consume one received point: derive the instance's key pair.
    fn handle_x(&mut self, payload: Vec<u8>) -> (r: Result<(), ProtocolError>)
        ensures
            final(self).comms.buffered() == old(self).comms.buffered(),
    {
        let big_x = match point_from_bytes(&payload) {
            Some(p) => p,
            None => {
                return Err(ProtocolError::Other(String::from_str(
                    "failed to decode message",
                )));
            }
        };
        let y_big_x = point_mul(&big_x, &self.y);
        let (k0, k1) = sender_keys(self.next as u64, &big_x, &self.big_y, &y_big_x,
            &self.big_z);
        self.k0_rows.push(k0);
        self.k1_rows.push(k1);
        self.next = if self.next < 128 { self.next + 1 } else { self.next };
        if self.next == 128 && self.k0_rows.len() == 128 && self.k1_rows.len() == 128 {
            let m0 = BitMatrix::from_rows(crate::bits::copy_rows(&self.k0_rows));
            let m1 = BitMatrix::from_rows(crate::bits::copy_rows(&self.k1_rows));
            match (SquareBitMatrix::new(m0), SquareBitMatrix::new(m1)) {
                (Some(s0), Some(s1)) => {
                    self.result = Some((s0, s1));
                }
                _ => {}
            }
        }
        Ok(())
    }

    fn poke_machine(&mut self)
        -> (r: Result<Action<(SquareBitMatrix, SquareBitMatrix)>, ProtocolError>)
    {
        loop
            decreases self.comms.buffered().len(),
        {
            match self.comms.pop_outgoing() {
                Some(crate::protocol::Message::Many(data)) => {
                    return Ok(Action::SendMany(data));
                }
                Some(crate::protocol::Message::Private(to, data)) => {
                    return Ok(Action::SendPrivate(to, data));
                }
                None => {}
            }
            if self.done {
                return Ok(Action::Wait);
            }
            match &self.result {
                Some(_) => {
                    let mut taken: Option<(SquareBitMatrix, SquareBitMatrix)> = None;
                    std::mem::swap(&mut taken, &mut self.result);
                    self.done = true;
                    match taken {
                        Some(out) => {
                            return Ok(Action::Return(out));
                        }
                        None => {
                            return Ok(Action::Wait);
                        }
                    }
                }
                None => {}
            }
            if self.next >= 128 {
                return Ok(Action::Wait);
            }
            let header = self.root.child(self.next as u64);
            match self.comms.recv(&header) {
                Some((from, payload)) => {
                    if from == self.to {
                        match self.handle_x(payload) {
                            Ok(()) => {}
                            Err(e) => {
                                self.done = true;
                                return Err(e);
                            }
                        }
                    }
                }
                None => {
                    return Ok(Action::Wait);
                }
            }
        }
    }
}

impl Protocol for BatchRandomOtSender {
    type Output = (SquareBitMatrix, SquareBitMatrix);

    fn poke(&mut self) -> Result<Action<(SquareBitMatrix, SquareBitMatrix)>, ProtocolError> {
        self.poke_machine()
    }

    fn message(&mut self, from: Participant, data: MessageData) {
        self.comms.push_message(from, data);
    }
}

/// The receiver's side of the batch random OT: on the sender's `Y` it
/// picks its choice bits, sends `X_i = x_i G + delta_i Y` for each
/// instance, and keeps the keys its bits select.
pub struct BatchRandomOtReceiver {
    comms: Comms,
    root: MessageHeader,
    to: Participant,
    delta: BitVector,
    result: Option<(BitVector, SquareBitMatrix)>,
    started: bool,
    done: bool,
}

/// Start the receiver: sample the choice bits and wait for `Y`. The
/// namespace keeps concurrent transfers between one pair on disjoint
/// channels.
pub fn batch_random_ot_receiver(me: Participant, to: Participant, namespace: u64)
    -> (r: BatchRandomOtReceiver)
{
    let root = MessageHeader::private(me, to).child(namespace);
    let delta = BitVector::random();
    BatchRandomOtReceiver {
        comms: Comms::new(),
        root,
        to,
        delta,
        result: None,
        started: false,
        done: false,
    }
}

impl BatchRandomOtReceiver {
    /// Consume the sender's point: queue every instance's point and keep
    /// the selected keys.
    fn handle_y(&mut self, payload: Vec<u8>) -> (r: Result<(), ProtocolError>)
        ensures
            final(self).comms.buffered() == old(self).comms.buffered(),
    {
        let big_y = match point_from_bytes(&payload) {
            Some(p) => p,
            None => {
                return Err(ProtocolError::Other(String::from_str(
                    "failed to decode message",
                )));
            }
        };
        if big_y.is_identity() {
            return Err(ProtocolError::AssertionFailed(String::from_str(
                "the sender's point was the identity",
            )));
        }
        let mut rows: Vec<BitVector> = Vec::new();
        let mut i: usize = 0;
        while i < 128
            invariant
                i <= 128,
                self.comms.buffered() == old(self).comms.buffered(),
            decreases 128 - i,
        {
            let x_i = scalar_random();
            let base = generator_mul(&x_i);
            let big_x_i = if self.delta.bit(i) == 1 {
                point_add(&base, &big_y)
            } else {
                base
            };
            let header = self.root.child(i as u64).with_waitpoint(0);
            let xb = big_x_i.to_bytes();
            self.comms.send_private(self.to, &header, &xb);
            let x_big_y = point_mul(&big_y, &x_i);
            rows.push(receiver_key(i as u64, &big_x_i, &big_y, &x_big_y));
            i = i + 1;
        }
        let m = BitMatrix::from_rows(rows);
        match SquareBitMatrix::new(m) {
            Some(sq) => {
                self.result = Some((self.delta, sq));
            }
            None => {}
        }
        Ok(())
    }

    fn poke_machine(&mut self)
        -> (r: Result<Action<(BitVector, SquareBitMatrix)>, ProtocolError>)
    {
        loop
            decreases self.comms.buffered().len(),
        {
            match self.comms.pop_outgoing() {
                Some(crate::protocol::Message::Many(data)) => {
                    return Ok(Action::SendMany(data));
                }
                Some(crate::protocol::Message::Private(to, data)) => {
                    return Ok(Action::SendPrivate(to, data));
                }
                None => {}
            }
            if self.done {
                return Ok(Action::Wait);
            }
            match &self.result {
                Some(_) => {
                    let mut taken: Option<(BitVector, SquareBitMatrix)> = None;
                    std::mem::swap(&mut taken, &mut self.result);
                    self.done = true;
                    match taken {
                        Some(out) => {
                            return Ok(Action::Return(out));
                        }
                        None => {
                            return Ok(Action::Wait);
                        }
                    }
                }
                None => {}
            }
            if self.started {
                return Ok(Action::Wait);
            }
            let header = self.root.with_waitpoint(0);
            match self.comms.recv(&header) {
                Some((from, payload)) => {
                    if from == self.to {
                        self.started = true;
                        match self.handle_y(payload) {
                            Ok(()) => {}
                            Err(e) => {
                                self.done = true;
                                return Err(e);
                            }
                        }
                    }
                }
                None => {
                    return Ok(Action::Wait);
                }
            }
        }
    }
}

impl Protocol for BatchRandomOtReceiver {
    type Output = (BitVector, SquareBitMatrix);

    fn poke(&mut self) -> Result<Action<(BitVector, SquareBitMatrix)>, ProtocolError> {
        self.poke_machine()
    }

    fn message(&mut self, from: Participant, data: MessageData) {
        self.comms.push_message(from, data);
    }
}

/// The sender's side of `n` batch random OTs run in lock step: one message
/// carries every instance's `Y`, and each of the 128 per-bit channels
/// carries every instance's point at once.
pub struct BatchRandomOtSenderMany {
    comms: Comms,
    root: MessageHeader,
    to: Participant,
    n: usize,
    ys: Vec<Scalar>,
    big_ys: Vec<Point>,
    big_zs: Vec<Point>,
    next: usize,
    k0_bits: Vec<Vec<BitVector>>,
    k1_bits: Vec<Vec<BitVector>>,
    result: Option<Vec<(SquareBitMatrix, SquareBitMatrix)>>,
    done: bool,
}

impl BatchRandomOtSenderMany {
    /// How many instances run in lock step.
    pub closed spec fn instances(self) -> int {
        self.n as int
    }
}

/// Start the lock-step sender for `n` instances: sample every `y` and
/// queue the single broadcast of all the `Y` points.
pub fn batch_random_ot_sender_many(me: Participant, to: Participant, n: usize)
    -> (r: BatchRandomOtSenderMany)
    ensures
        r.instances() == n,
{
    let mut root = MessageHeader::private(me, to).child(0);
    let w0 = root.next_waitpoint();
    let h0 = root.with_waitpoint(w0);
    let mut ys: Vec<Scalar> = Vec::new();
    let mut big_ys: Vec<Point> = Vec::new();
    let mut big_zs: Vec<Point> = Vec::new();
    let mut j: usize = 0;
    while j < n
        decreases n - j,
    {
        let y = scalar_random();
        let big_y = generator_mul(&y);
        let big_z = point_mul(&big_y, &y);
        ys.push(y);
        big_ys.push(big_y);
        big_zs.push(big_z);
        j = j + 1;
    }
    let mut comms = Comms::new();
    let payload = encode_point_list(&big_ys);
    comms.send_private(to, &h0, &payload);
    BatchRandomOtSenderMany {
        comms,
        root,
        to,
        n,
        ys,
        big_ys,
        big_zs,
        next: 0,
        k0_bits: Vec::new(),
        k1_bits: Vec::new(),
        result: None,
        done: false,
    }
}

impl BatchRandomOtSenderMany {
    /// Consume one per-bit message: derive every instance's key pair for
    /// this bit.
    fn handle_x(&mut self, payload: Vec<u8>) -> (r: Result<(), ProtocolError>)
        ensures
            final(self).comms.buffered() == old(self).comms.buffered(),
    {
        let big_xs = match read_point_list(&payload) {
            Some(ps) => ps,
            None => {
                return Err(ProtocolError::Other(String::from_str(
                    "failed to decode message",
                )));
            }
        };
        if big_xs.len() != self.n || self.ys.len() != self.n
            || self.big_ys.len() != self.n || self.big_zs.len() != self.n {
            return Err(ProtocolError::Other(String::from_str(
                "failed to decode message",
            )));
        }
        let mut row0: Vec<BitVector> = Vec::new();
        let mut row1: Vec<BitVector> = Vec::new();
        let mut j: usize = 0;
        while j < self.n
            invariant
                self.comms.buffered() == old(self).comms.buffered(),
                big_xs@.len() == self.n,
                self.ys@.len() == self.n,
                self.big_ys@.len() == self.n,
                self.big_zs@.len() == self.n,
                j <= self.n,
            decreases self.n - j,
        {
            let y_big_x = point_mul(&big_xs[j], &self.ys[j]);
            let (k0, k1) = sender_keys(self.next as u64, &big_xs[j], &self.big_ys[j],
                &y_big_x, &self.big_zs[j]);
            row0.push(k0);
            row1.push(k1);
            j = j + 1;
        }
        self.k0_bits.push(row0);
        self.k1_bits.push(row1);
        self.next = if self.next < 128 { self.next + 1 } else { self.next };
        if self.next == 128 && self.k0_bits.len() == 128 && self.k1_bits.len() == 128 {
            match transpose_bit_rows(&self.k0_bits, &self.k1_bits, self.n) {
                Some(out) => {
                    self.result = Some(out);
                }
                None => {}
            }
        }
        Ok(())
    }

    fn poke_machine(&mut self)
        -> (r: Result<Action<Vec<(SquareBitMatrix, SquareBitMatrix)>>, ProtocolError>)
        ensures
            r matches Ok(Action::Return(out)) ==> out@.len() == final(self).instances(),
    {
        loop
            decreases self.comms.buffered().len(),
        {
            match self.comms.pop_outgoing() {
                Some(crate::protocol::Message::Many(data)) => {
                    return Ok(Action::SendMany(data));
                }
                Some(crate::protocol::Message::Private(to, data)) => {
                    return Ok(Action::SendPrivate(to, data));
                }
                None => {}
            }
            if self.done {
                return Ok(Action::Wait);
            }
            match &self.result {
                Some(_) => {
                    let mut taken: Option<Vec<(SquareBitMatrix, SquareBitMatrix)>> = None;
                    std::mem::swap(&mut taken, &mut self.result);
                    self.done = true;
                    match taken {
                        Some(out) => {
                            if out.len() != self.n {
                                return Err(ProtocolError::AssertionFailed(
                                    String::from_str("transfer output too short")));
                            }
                            return Ok(Action::Return(out));
                        }
                        None => {
                            return Ok(Action::Wait);
                        }
                    }
                }
                None => {}
            }
            if self.next >= 128 {
                return Ok(Action::Wait);
            }
            let header = self.root.child(self.next as u64);
            match self.comms.recv(&header) {
                Some((from, payload)) => {
                    if from == self.to {
                        match self.handle_x(payload) {
                            Ok(()) => {}
                            Err(e) => {
                                self.done = true;
                                return Err(e);
                            }
                        }
                    }
                }
                None => {
                    return Ok(Action::Wait);
                }
            }
        }
    }
}

/// Turn per-bit key rows into one square matrix pair per instance: row `i`
/// of instance `j`'s matrices is bit row `i`'s entry `j`.
fn transpose_bit_rows(
    k0_bits: &Vec<Vec<BitVector>>,
    k1_bits: &Vec<Vec<BitVector>>,
    n: usize,
) -> (r: Option<Vec<(SquareBitMatrix, SquareBitMatrix)>>)
    ensures
        r matches Some(out) ==> out@.len() == n,
{
    if k0_bits.len() != 128 || k1_bits.len() != 128 {
        return None;
    }
    let mut out: Vec<(SquareBitMatrix, SquareBitMatrix)> = Vec::new();
    let mut j: usize = 0;
    while j < n
        invariant
            k0_bits@.len() == 128,
            k1_bits@.len() == 128,
            j <= n,
            out@.len() == j,
        decreases n - j,
    {
        let mut rows0: Vec<BitVector> = Vec::new();
        let mut rows1: Vec<BitVector> = Vec::new();
        let mut i: usize = 0;
        while i < 128
            invariant
                k0_bits@.len() == 128,
                k1_bits@.len() == 128,
                i <= 128,
                rows0@.len() == i,
                rows1@.len() == i,
            decreases 128 - i,
        {
            if k0_bits[i].len() <= j || k1_bits[i].len() <= j {
                return None;
            }
            rows0.push(k0_bits[i][j]);
            rows1.push(k1_bits[i][j]);
            i = i + 1;
        }
        let m0 = match SquareBitMatrix::new(BitMatrix::from_rows(rows0)) {
            Some(m) => m,
            None => {
                return None;
            }
        };
        let m1 = match SquareBitMatrix::new(BitMatrix::from_rows(rows1)) {
            Some(m) => m,
            None => {
                return None;
            }
        };
        out.push((m0, m1));
        j = j + 1;
    }
    Some(out)
}

impl Protocol for BatchRandomOtSenderMany {
    type Output = Vec<(SquareBitMatrix, SquareBitMatrix)>;

    fn poke(&mut self)
        -> Result<Action<Vec<(SquareBitMatrix, SquareBitMatrix)>>, ProtocolError> {
        self.poke_machine()
    }

    fn message(&mut self, from: Participant, data: MessageData) {
        self.comms.push_message(from, data);
    }
}

/// The receiver's side of `n` lock-step batch random OTs: on the senders'
/// `Y` points it picks per-instance choice bits and answers each of the
/// 128 per-bit channels with every instance's point at once.
pub struct BatchRandomOtReceiverMany {
    comms: Comms,
    root: MessageHeader,
    to: Participant,
    n: usize,
    deltas: Vec<BitVector>,
    result: Option<Vec<(BitVector, SquareBitMatrix)>>,
    started: bool,
    done: bool,
}

impl BatchRandomOtReceiverMany {
    /// How many instances run in lock step.
    pub closed spec fn instances(self) -> int {
        self.n as int
    }
}

/// Start the lock-step receiver for `n` instances.
pub fn batch_random_ot_receiver_many(me: Participant, to: Participant, n: usize)
    -> (r: BatchRandomOtReceiverMany)
    ensures
        r.instances() == n,
{
    let root = MessageHeader::private(me, to).child(0);
    let mut deltas: Vec<BitVector> = Vec::new();
    let mut j: usize = 0;
    while j < n
        decreases n - j,
    {
        deltas.push(BitVector::random());
        j = j + 1;
    }
    BatchRandomOtReceiverMany {
        comms: Comms::new(),
        root,
        to,
        n,
        deltas,
        result: None,
        started: false,
        done: false,
    }
}

impl BatchRandomOtReceiverMany {
    /// Consume the senders' points: queue every per-bit message and keep
    /// every instance's selected keys.
    fn handle_y(&mut self, payload: Vec<u8>) -> (r: Result<(), ProtocolError>)
        ensures
            final(self).comms.buffered() == old(self).comms.buffered(),
    {
        let big_ys = match read_point_list(&payload) {
            Some(ps) => ps,
            None => {
                return Err(ProtocolError::Other(String::from_str(
                    "failed to decode message",
                )));
            }
        };
        if big_ys.len() != self.n || self.deltas.len() != self.n {
            return Err(ProtocolError::Other(String::from_str(
                "failed to decode message",
            )));
        }
        let mut j0: usize = 0;
        while j0 < self.n
            invariant
                big_ys@.len() == self.n,
                j0 <= self.n,
                self.comms.buffered() == old(self).comms.buffered(),
            decreases self.n - j0,
        {
            if big_ys[j0].is_identity() {
                return Err(ProtocolError::AssertionFailed(String::from_str(
                    "a sender's point was the identity",
                )));
            }
            j0 = j0 + 1;
        }
        let mut key_bits: Vec<Vec<BitVector>> = Vec::new();
        let mut i: usize = 0;
        while i < 128
            invariant
                big_ys@.len() == self.n,
                self.deltas@.len() == self.n,
                i <= 128,
                key_bits@.len() == i,
                self.comms.buffered() == old(self).comms.buffered(),
            decreases 128 - i,
        {
            let mut xs: Vec<Point> = Vec::new();
            let mut keys: Vec<BitVector> = Vec::new();
            let mut j: usize = 0;
            while j < self.n
                invariant
                    big_ys@.len() == self.n,
                    self.deltas@.len() == self.n,
                    i < 128,
                    j <= self.n,
                    self.comms.buffered() == old(self).comms.buffered(),
                decreases self.n - j,
            {
                let x_j = scalar_random();
                let base = generator_mul(&x_j);
                let big_x = if self.deltas[j].bit(i) == 1 {
                    point_add(&base, &big_ys[j])
                } else {
                    base
                };
                let x_big_y = point_mul(&big_ys[j], &x_j);
                keys.push(receiver_key(i as u64, &big_x, &big_ys[j], &x_big_y));
                xs.push(big_x);
                j = j + 1;
            }
            let header = self.root.child(i as u64).with_waitpoint(0);
            let xb = encode_point_list(&xs);
            self.comms.send_private(self.to, &header, &xb);
            key_bits.push(keys);
            i = i + 1;
        }
        // Transpose the per-bit keys into one matrix per instance.
        let mut out: Vec<(BitVector, SquareBitMatrix)> = Vec::new();
        let mut j: usize = 0;
        while j < self.n
            invariant
                key_bits@.len() == 128,
                self.deltas@.len() == self.n,
                j <= self.n,
                out@.len() == j,
                self.comms.buffered() == old(self).comms.buffered(),
            decreases self.n - j,
        {
            let mut rows: Vec<BitVector> = Vec::new();
            let mut i2: usize = 0;
            while i2 < 128
                invariant
                    key_bits@.len() == 128,
                    i2 <= 128,
                    rows@.len() == i2,
                    self.comms.buffered() == old(self).comms.buffered(),
                decreases 128 - i2,
            {
                if key_bits[i2].len() <= j {
                    return Err(ProtocolError::AssertionFailed(String::from_str(
                        "transfer output too short",
                    )));
                }
                rows.push(key_bits[i2][j]);
                i2 = i2 + 1;
            }
            match SquareBitMatrix::new(BitMatrix::from_rows(rows)) {
                Some(m) => {
                    out.push((self.deltas[j], m));
                }
                None => {
                    return Err(ProtocolError::AssertionFailed(String::from_str(
                        "transfer output too short",
                    )));
                }
            }
            j = j + 1;
        }
        self.result = Some(out);
        Ok(())
    }

    fn poke_machine(&mut self)
        -> (r: Result<Action<Vec<(BitVector, SquareBitMatrix)>>, ProtocolError>)
        ensures
            r matches Ok(Action::Return(out)) ==> out@.len() == final(self).instances(),
    {
        loop
            decreases self.comms.buffered().len(),
        {
            match self.comms.pop_outgoing() {
                Some(crate::protocol::Message::Many(data)) => {
                    return Ok(Action::SendMany(data));
                }
                Some(crate::protocol::Message::Private(to, data)) => {
                    return Ok(Action::SendPrivate(to, data));
                }
                None => {}
            }
            if self.done {
                return Ok(Action::Wait);
            }
            match &self.result {
                Some(_) => {
                    let mut taken: Option<Vec<(BitVector, SquareBitMatrix)>> = None;
                    std::mem::swap(&mut taken, &mut self.result);
                    self.done = true;
                    match taken {
                        Some(out) => {
                            if out.len() != self.n {
                                return Err(ProtocolError::AssertionFailed(
                                    String::from_str("transfer output too short")));
                            }
                            return Ok(Action::Return(out));
                        }
                        None => {
                            return Ok(Action::Wait);
                        }
                    }
                }
                None => {}
            }
            if self.started {
                return Ok(Action::Wait);
            }
            let header = self.root.with_waitpoint(0);
            match self.comms.recv(&header) {
                Some((from, payload)) => {
                    if from == self.to {
                        self.started = true;
                        match self.handle_y(payload) {
                            Ok(()) => {}
                            Err(e) => {
                                self.done = true;
                                return Err(e);
                            }
                        }
                    }
                }
                None => {
                    return Ok(Action::Wait);
                }
            }
        }
    }
}

impl Protocol for BatchRandomOtReceiverMany {
    type Output = Vec<(BitVector, SquareBitMatrix)>;

    fn poke(&mut self)
        -> Result<Action<Vec<(BitVector, SquareBitMatrix)>>, ProtocolError> {
        self.poke_machine()
    }

    fn message(&mut self, from: Participant, data: MessageData) {
        self.comms.push_message(from, data);
    }
}

} // verus!
