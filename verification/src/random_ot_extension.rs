//! Random oblivious-transfer extension.
//!
//! Correlated OTs are upgraded to random OTs: the batch is padded to
//! absorb a consistency check, both sides derive check weights from a
//! shared seed, the receiver reveals weighted sums of its rows, and the
//! sender verifies them column by column against its own rows. The
//! surviving rows are hashed into the scalar field: the sender keeps the
//! pair `(H(i, q_i), H(i, q_i xor delta))` and the receiver keeps
//! `H(i, t_i)`, which equals the component its choice bit selects.

use vstd::prelude::*;
use crate::scalars::Scalar;
use crate::bits::{BitVector, DoubleBitVector, BitMatrix, SquareBitMatrix, ChoiceVector, gf_bit, lemma_dxor_bits, lemma_dzero_bits, lemma_xor_bits, enc_double, copy_rows};
use crate::protocol::{Participant, Action, Protocol, ProtocolError, MessageData};
use crate::runtime::{Comms, MessageHeader};
use crate::correlated_ot::{CorrelatedOtParams, correlated_ot_sender, correlated_ot_receiver};
use crate::codec::append_bytes;

verus! {

/// What the random OT extension needs: a session identifier and how many
/// random OTs to produce.
#[derive(Debug, Clone)]
pub struct RandomOtExtensionParams {
    pub sid: Vec<u8>,
    pub batch_size: usize,
}

/// Pad a batch size up to a multiple of the security parameter, plus two
/// extra blocks to absorb the consistency check.
pub fn adjust_size(size: usize) -> (r: usize)
    requires
        size + 383 < usize::MAX,
    ensures
        r % 128 == 0,
        r >= size + 256,
        r < size + 384,
        r == (if size % 128 == 0 { size as int } else { size + 128 - size % 128 }) + 256,
{
    let rem = size % 128;
    let padded = if rem == 0 { size } else { size + (128 - rem) };
    padded + 256
}

/// Bit `pos` of the weighted sum of the first `n` chunks: the xor over
/// `c < n` of the carry-less product of chunk `c` and weight `c`.
pub open spec fn col_sum_bit(chunks: Seq<BitVector>, chi: Seq<BitVector>, n: int, pos: int)
    -> bool
    decreases n,
{
    if n <= 0 {
        false
    } else {
        col_sum_bit(chunks, chi, n - 1, pos) != gf_bit(chunks[n - 1], chi[n - 1], pos)
    }
}

/// The weighted sum of a list of chunks under a list of weights, in the
/// carry-less algebra: the xor of the unreduced products.
pub fn weighted_col_sum(chunks: &Vec<BitVector>, chi: &Vec<BitVector>) -> (r: DoubleBitVector)
    requires
        chunks@.len() == chi@.len(),
    ensures
        forall|pos: int| 0 <= pos < 256
            ==> r.bit_spec(pos) == col_sum_bit(chunks@, chi@, chunks@.len() as int, pos),
{
    let mut acc = DoubleBitVector::zero();
    proof {
        lemma_dzero_bits();
    }
    let mut c: usize = 0;
    while c < chunks.len()
        invariant
            chunks@.len() == chi@.len(),
            c <= chunks@.len(),
            forall|pos: int| 0 <= pos < 256
                ==> acc.bit_spec(pos) == col_sum_bit(chunks@, chi@, c as int, pos),
        decreases chunks@.len() - c,
    {
        let ghost old_acc = acc;
        let prod = chunks[c].gf_mul(&chi[c]);
        acc = acc.xor(&prod);
        proof {
            lemma_dxor_bits(old_acc, prod);
            assert forall|pos: int| 0 <= pos < 256
                implies acc.bit_spec(pos) == col_sum_bit(chunks@, chi@, c + 1, pos) by {
                assert(col_sum_bit(chunks@, chi@, c + 1, pos)
                    == (col_sum_bit(chunks@, chi@, c as int, pos)
                        != gf_bit(chunks@[c as int], chi@[c as int], pos)));
                assert(acc == old_acc.xor_spec(prod));
                assert(acc.bit_spec(pos) == (old_acc.bit_spec(pos) != prod.bit_spec(pos)));
            }
        }
        c = c + 1;
    }
    acc
}

/// Masking with the all-ones mask keeps a word; the all-ones mask of a
/// word is built by shifting.
proof fn lemma_prefix_eq(x: u64, y: u64, k: u64)
    requires
        k < 64,
        forall|i: u64| i <= k ==> ((x >> i) & 1) == ((y >> i) & 1),
    ensures
        (x & vstd::prelude::sub((1u64 << k) << 1u64, 1))
            == (y & vstd::prelude::sub((1u64 << k) << 1u64, 1)),
    decreases k,
{
    if k == 0 {
        assert((x & vstd::prelude::sub((1u64 << 0u64) << 1u64, 1))
            == (y & vstd::prelude::sub((1u64 << 0u64) << 1u64, 1)))
            by (bit_vector)
            requires
                ((x >> 0u64) & 1) == ((y >> 0u64) & 1),
        ;
    } else {
        assert(((x >> (k - 1) as u64) & 1) == ((y >> (k - 1) as u64) & 1));
        lemma_prefix_eq(x, y, (k - 1) as u64);
        assert((x & vstd::prelude::sub((1u64 << k) << 1u64, 1))
            == (y & vstd::prelude::sub((1u64 << k) << 1u64, 1)))
            by (bit_vector)
            requires
                1u64 <= k < 64,
                (x & vstd::prelude::sub((1u64 << vstd::prelude::sub(k, 1)) << 1u64, 1))
                    == (y & vstd::prelude::sub((1u64 << vstd::prelude::sub(k, 1)) << 1u64, 1)),
                ((x >> k) & 1) == ((y >> k) & 1),
        ;
    }
}

/// Two words with the same bits are the same word.
proof fn lemma_word_from_bits(x: u64, y: u64)
    requires
        forall|i: u64| i < 64 ==> ((x >> i) & 1) == ((y >> i) & 1),
    ensures
        x == y,
{
    lemma_prefix_eq(x, y, 63);
    assert(x == y) by (bit_vector)
        requires
            (x & vstd::prelude::sub((1u64 << 63u64) << 1u64, 1))
                == (y & vstd::prelude::sub((1u64 << 63u64) << 1u64, 1)),
    ;
}

/// Two double vectors with the same bits are the same vector.
pub proof fn lemma_double_from_bits(a: DoubleBitVector, b: DoubleBitVector)
    requires
        forall|pos: int| 0 <= pos < 256 ==> a.bit_spec(pos) == b.bit_spec(pos),
    ensures
        a == b,
{
    assert(forall|x: u64, i: u64| i < 64 ==> ((x >> i) & 1 == 0 || (x >> i) & 1 == 1))
        by (bit_vector);
    assert forall|i: u64| i < 64 implies ((a.w0 >> i) & 1) == ((b.w0 >> i) & 1) by {
        assert(a.bit_spec(i as int) == b.bit_spec(i as int));
    }
    assert forall|i: u64| i < 64 implies ((a.w1 >> i) & 1) == ((b.w1 >> i) & 1) by {
        assert(a.bit_spec(i + 64) == b.bit_spec(i + 64));
    }
    assert forall|i: u64| i < 64 implies ((a.w2 >> i) & 1) == ((b.w2 >> i) & 1) by {
        assert(a.bit_spec(i + 128) == b.bit_spec(i + 128));
    }
    assert forall|i: u64| i < 64 implies ((a.w3 >> i) & 1) == ((b.w3 >> i) & 1) by {
        assert(a.bit_spec(i + 192) == b.bit_spec(i + 192));
    }
    lemma_word_from_bits(a.w0, b.w0);
    lemma_word_from_bits(a.w1, b.w1);
    lemma_word_from_bits(a.w2, b.w2);
    lemma_word_from_bits(a.w3, b.w3);
}

/// Check one column of the consistency test: the weighted sum of the
/// column chunks must equal the expected vector.
pub fn check_column(chunks: &Vec<BitVector>, chi: &Vec<BitVector>, expected: &DoubleBitVector)
    -> (r: bool)
    requires
        chunks@.len() == chi@.len(),
    ensures
        r == (forall|pos: int| 0 <= pos < 256
            ==> col_sum_bit(chunks@, chi@, chunks@.len() as int, pos)
                == expected.bit_spec(pos)),
{
    let sum = weighted_col_sum(chunks, chi);
    let eq = sum == *expected;
    proof {
        if eq {
        } else {
            if forall|pos: int| 0 <= pos < 256
                ==> col_sum_bit(chunks@, chi@, chunks@.len() as int, pos)
                    == expected.bit_spec(pos) {
                lemma_double_from_bits(sum, *expected);
            }
        }
    }
    eq
}

/// The representation of the scalar the row hash derives from a row index
/// and a row.
pub uninterp spec fn row_hash_of(i: u64, lo: u64, hi: u64) -> Seq<u8>;

/// Relies on `ck_meow::Meow` and constant-time reduction into
/// `k256::Scalar`: hash a row into the scalar field, a deterministic
/// function of the index and the row.
#[verifier::external_body]
pub fn hash_to_scalar(i: u64, v: &BitVector) -> (r: Scalar)
    ensures
        r.repr() == row_hash_of(i, v.lo_spec(), v.hi_spec()),
{
    let mut meow = ck_meow::Meow::new(b"Random OT Extension Hash");
    meow.meta_ad(&i.to_le_bytes(), false);
    meow.ad(&v.bytes(), false);
    let mut seed = [0u8; 32];
    meow.prf(&mut seed, false);
    let mut rng = magikitten::MeowRng::new(&seed);
    let mut wide = [0u8; 64];
    rand_core::RngCore::fill_bytes(&mut rng, &mut wide);
    let s = <k256::Scalar as k256::elliptic_curve::ops::Reduce<k256::elliptic_curve::bigint::U512>>::reduce_bytes(
        &wide.into());
    Scalar::from_bytes(&s.to_bytes().to_vec()).unwrap()
}

/// The sender's outputs: for each of the first `m` rows of `q`, the pair
/// of hashes of the row and of the row xor `delta`.
pub fn sender_outputs(q: &BitMatrix, delta: &BitVector, m: usize)
    -> (r: Vec<(Scalar, Scalar)>)
    requires
        m <= q.rows_spec().len(),
        m < u64::MAX,
    ensures
        r@.len() == m,
        forall|i: int| 0 <= i < m ==> (#[trigger] r@[i]).0.repr() == row_hash_of(i as u64,
            q.rows_spec()[i].lo_spec(), q.rows_spec()[i].hi_spec()),
        forall|i: int| 0 <= i < m ==> (#[trigger] r@[i]).1.repr() == row_hash_of(i as u64,
            q.rows_spec()[i].xor_spec(*delta).lo_spec(),
            q.rows_spec()[i].xor_spec(*delta).hi_spec()),
{
    let mut out: Vec<(Scalar, Scalar)> = Vec::new();
    let mut i: usize = 0;
    while i < m
        invariant
            m <= q.rows_spec().len(),
            m < u64::MAX,
            i <= m,
            out@.len() == i,
            forall|k: int| 0 <= k < i ==> (#[trigger] out@[k]).0.repr() == row_hash_of(
                k as u64, q.rows_spec()[k].lo_spec(), q.rows_spec()[k].hi_spec()),
            forall|k: int| 0 <= k < i ==> (#[trigger] out@[k]).1.repr() == row_hash_of(
                k as u64, q.rows_spec()[k].xor_spec(*delta).lo_spec(),
                q.rows_spec()[k].xor_spec(*delta).hi_spec()),
        decreases m - i,
    {
        let row = q.row(i);
        let v0 = hash_to_scalar(i as u64, &row);
        let masked = row.xor(delta);
        let v1 = hash_to_scalar(i as u64, &masked);
        out.push((v0, v1));
        i = i + 1;
    }
    out
}

/// The receiver's outputs: for each of the first `m` rows of `t`, its
/// choice bit and the hash of the row.
pub fn receiver_outputs(t: &BitMatrix, b: &crate::bits::ChoiceVector, m: usize)
    -> (r: Vec<(bool, Scalar)>)
    requires
        m <= t.rows_spec().len(),
        m < u64::MAX,
        m <= b.chunks_spec().len() * 128,
    ensures
        r@.len() == m,
        forall|i: int| 0 <= i < m ==> (#[trigger] r@[i]).0 == b.bit_spec(i),
        forall|i: int| 0 <= i < m ==> (#[trigger] r@[i]).1.repr() == row_hash_of(i as u64,
            t.rows_spec()[i].lo_spec(), t.rows_spec()[i].hi_spec()),
{
    let mut out: Vec<(bool, Scalar)> = Vec::new();
    let mut i: usize = 0;
    while i < m
        invariant
            m <= t.rows_spec().len(),
            m < u64::MAX,
            m <= b.chunks_spec().len() * 128,
            i <= m,
            out@.len() == i,
            forall|k: int| 0 <= k < i ==> (#[trigger] out@[k]).0 == b.bit_spec(k),
            forall|k: int| 0 <= k < i ==> (#[trigger] out@[k]).1.repr() == row_hash_of(
                k as u64, t.rows_spec()[k].lo_spec(), t.rows_spec()[k].hi_spec()),
        decreases m - i,
    {
        proof {
            assert(i / 128 < b.chunks_spec().len()) by (nonlinear_arith)
                requires
                    i < m,
                    m <= b.chunks_spec().len() * 128,
            ;
        }
        let bit = b.bit(i);
        let row = t.row(i);
        let v = hash_to_scalar(i as u64, &row);
        out.push((bit, v));
        i = i + 1;
    }
    out
}

/// The random OT guarantee at the extension's output: when the receiver's
/// row satisfies the correlation `t_i = q_i xor (x_i and delta)` with
/// `x_i` all ones exactly when the choice bit is set, the receiver's hash
/// equals the component of the sender's pair that the choice bit selects.
pub proof fn lemma_random_ot_pair(
    q_row: BitVector,
    t_row: BitVector,
    x_row: BitVector,
    delta: BitVector,
    choice: bool,
    i: u64,
)
    requires
        forall|j: int| 0 <= j < 128 ==> x_row.bit_spec(j) == choice,
        forall|j: int| 0 <= j < 128
            ==> q_row.bit_spec(j) == (t_row.bit_spec(j)
                != (x_row.bit_spec(j) && delta.bit_spec(j))),
    ensures
        !choice ==> row_hash_of(i, t_row.lo_spec(), t_row.hi_spec())
            == row_hash_of(i, q_row.lo_spec(), q_row.hi_spec()),
        choice ==> row_hash_of(i, t_row.lo_spec(), t_row.hi_spec())
            == row_hash_of(i, q_row.xor_spec(delta).lo_spec(),
                q_row.xor_spec(delta).hi_spec()),
{
    assert(forall|x: u64, j: u64| j < 64 ==> ((x >> j) & 1 == 0 || (x >> j) & 1 == 1))
        by (bit_vector);
    if !choice {
        // q and t agree on every bit, so they are the same row.
        assert forall|j: u64| j < 64
            implies ((q_row.lo_spec() >> j) & 1) == ((t_row.lo_spec() >> j) & 1) by {
            assert(q_row.bit_spec(j as int) == t_row.bit_spec(j as int));
        }
        assert forall|j: u64| j < 64
            implies ((q_row.hi_spec() >> j) & 1) == ((t_row.hi_spec() >> j) & 1) by {
            assert(q_row.bit_spec(j + 64) == t_row.bit_spec(j + 64));
        }
        lemma_word_from_bits(q_row.lo_spec(), t_row.lo_spec());
        lemma_word_from_bits(q_row.hi_spec(), t_row.hi_spec());
    } else {
        // q xor delta and t agree on every bit.
        let m = q_row.xor_spec(delta);
        lemma_xor_bits(q_row, delta);
        assert forall|j: u64| j < 64
            implies ((m.lo_spec() >> j) & 1) == ((t_row.lo_spec() >> j) & 1) by {
            assert(m.bit_spec(j as int) == (q_row.bit_spec(j as int)
                != delta.bit_spec(j as int)));
            assert(q_row.bit_spec(j as int) == (t_row.bit_spec(j as int)
                != delta.bit_spec(j as int)));
        }
        assert forall|j: u64| j < 64
            implies ((m.hi_spec() >> j) & 1) == ((t_row.hi_spec() >> j) & 1) by {
            assert(m.bit_spec(j + 64) == (q_row.bit_spec(j + 64)
                != delta.bit_spec(j + 64)));
            assert(q_row.bit_spec(j + 64) == (t_row.bit_spec(j + 64)
                != delta.bit_spec(j + 64)));
        }
        lemma_word_from_bits(m.lo_spec(), t_row.lo_spec());
        lemma_word_from_bits(m.hi_spec(), t_row.hi_spec());
    }
}

/// What the seeded check-weight stream yields at each position: the 16
/// bytes of the weight vector.
pub uninterp spec fn check_weight_of(seed: Seq<u8>, i: int) -> Seq<u8>;

/// Relies on `magikitten::MeowRng`: the check weights drawn from the
/// seeded deterministic stream, so both parties derive the same weights.
#[verifier::external_body]
fn derive_check_weights(seed: &Vec<u8>, count: usize) -> (r: Vec<BitVector>)
    requires
        seed@.len() == 32,
    ensures
        r@.len() == count,
        forall|i: int| 0 <= i < count ==> crate::runtime::u64_le_bytes(
            (#[trigger] r@[i]).lo_spec()) + crate::runtime::u64_le_bytes(r@[i].hi_spec())
            == check_weight_of(seed@, i),
{
    let mut seed_arr = [0u8; 32];
    seed_arr.copy_from_slice(seed);
    let mut rng = magikitten::MeowRng::new(&seed_arr);
    let mut out = Vec::with_capacity(count);
    for _ in 0..count {
        let lo = rand_core::RngCore::next_u64(&mut rng);
        let hi = rand_core::RngCore::next_u64(&mut rng);
        out.push(BitVector::from_words(lo, hi));
    }
    out
}

/// The sender's side of the random OT extension, as a state machine: run
/// the correlated OT on the padded size, reveal a weight seed, verify the
/// receiver's weighted sums column by column, and hash the surviving rows
/// into scalar pairs.
pub struct RandomOtExtSender {
    comms: Comms,
    root: MessageHeader,
    h_seed: MessageHeader,
    h_check: MessageHeader,
    to: Participant,
    params: RandomOtExtensionParams,
    delta: BitVector,
    k: SquareBitMatrix,
    q: Option<BitMatrix>,
    seed: Vec<u8>,
    result: Option<Vec<(Scalar, Scalar)>>,
    stage_check: bool,
    done: bool,
}

/// Start the extension sender with its base key material; the instance
/// number keeps concurrent extensions between one pair on disjoint
/// channels.
pub fn random_ot_extension_sender(
    me: Participant,
    to: Participant,
    instance: u64,
    params: RandomOtExtensionParams,
    delta: BitVector,
    k: SquareBitMatrix,
) -> (r: RandomOtExtSender)
{
    let mut root = MessageHeader::private(me, to).child(1).child(instance);
    let w0 = root.next_waitpoint();
    let h_seed = root.with_waitpoint(w0);
    let w1 = root.next_waitpoint();
    let h_check = root.with_waitpoint(w1);
    RandomOtExtSender {
        comms: Comms::new(),
        root,
        h_seed,
        h_check,
        to,
        params,
        delta,
        k,
        q: None,
        seed: Vec::new(),
        result: None,
        stage_check: false,
        done: false,
    }
}

impl RandomOtExtSender {
    /// Consume the receiver's masked matrix: derive `q`, and reveal a
    /// fresh weight seed.
    fn handle_u(&mut self, payload: Vec<u8>) -> (r: Result<(), ProtocolError>)
        ensures
            final(self).comms.buffered() == old(self).comms.buffered(),
    {
        if self.k.matrix.height() != 128 {
            return Err(ProtocolError::AssertionFailed(String::from_str(
                "base matrix of unexpected height",
            )));
        }
        let adjusted = match checked_adjust(self.params.batch_size) {
            Some(a) => a,
            None => {
                return Err(ProtocolError::AssertionFailed(String::from_str(
                    "batch size too large",
                )));
            }
        };
        let u = match BitMatrix::from_bytes(&payload) {
            Some(m) => m,
            None => {
                return Err(ProtocolError::Other(String::from_str(
                    "failed to decode message",
                )));
            }
        };
        let cot_params = CorrelatedOtParams {
            sid: crate::protocol::clone_bytes(&self.params.sid),
            batch_size: adjusted,
        };
        let q = match correlated_ot_sender(&cot_params, &self.delta, &self.k, &u) {
            Ok(q) => q,
            Err(e) => {
                return Err(e);
            }
        };
        self.q = Some(q);
        self.seed = crate::crypto::random_seed();
        let sb = crate::protocol::clone_bytes(&self.seed);
        self.comms.send_private(self.to, &self.h_seed, &sb);
        self.stage_check = true;
        Ok(())
    }

    /// Consume the receiver's check message: verify every column, then
    /// hash the first rows into the output pairs.
    fn handle_check(&mut self, payload: Vec<u8>) -> (r: Result<(), ProtocolError>)
        ensures
            final(self).comms.buffered() == old(self).comms.buffered(),
    {
        if payload.len() != 32 + 128 * 32 {
            return Err(ProtocolError::Other(String::from_str(
                "failed to decode message",
            )));
        }
        if self.seed.len() != 32 {
            return Err(ProtocolError::AssertionFailed(String::from_str(
                "check message before the seed was chosen",
            )));
        }
        let small_x = DoubleBitVector::read(&payload, 0);
        let q = match &self.q {
            Some(q) => q,
            None => {
                return Err(ProtocolError::AssertionFailed(String::from_str(
                    "check message before the correlated transfer",
                )));
            }
        };
        let mu = q.height() / 128;
        let chi = derive_check_weights(&self.seed, mu);
        let zero = DoubleBitVector::zero();
        let mut j: usize = 0;
        while j < 128
            invariant
                self.comms.buffered() == old(self).comms.buffered(),
                payload@.len() == 32 + 128 * 32,
                chi@.len() == mu,
                self.q matches Some(qq) && qq.rows_spec().len() / 128 == mu,
            decreases 128 - j,
        {
            let q_ref = match &self.q {
                Some(q) => q,
                None => {
                    return Err(ProtocolError::AssertionFailed(String::from_str(
                        "check message before the correlated transfer",
                    )));
                }
            };
            let chunks = q_ref.column_chunks(j);
            let small_t_j = DoubleBitVector::read(&payload, 32 + j * 32);
            let delta_j = self.delta.bit(j) == 1;
            let expected = if delta_j { small_t_j.xor(&small_x) } else { small_t_j };
            if !check_column(&chunks, &chi, &expected) {
                return Err(ProtocolError::AssertionFailed(String::from_str(
                    "the weighted column check failed",
                )));
            }
            j = j + 1;
        }
        let q_ref = match &self.q {
            Some(q) => q,
            None => {
                return Err(ProtocolError::AssertionFailed(String::from_str(
                    "check message before the correlated transfer",
                )));
            }
        };
        if self.params.batch_size > q_ref.height() || self.params.batch_size >= usize::MAX {
            return Err(ProtocolError::AssertionFailed(String::from_str(
                "batch size too large",
            )));
        }
        let out = sender_outputs(q_ref, &self.delta, self.params.batch_size);
        self.result = Some(out);
        Ok(())
    }

    /// Drive the protocol. A successful run delivers exactly `batch_size`
    /// scalar pairs; the per-column consistency conditions are decided by
    /// `check_column`, whose rejection surfaces as a failed assertion.
    fn poke_machine(&mut self)
        -> (r: Result<Action<Vec<(Scalar, Scalar)>>, ProtocolError>)
        ensures
            r matches Ok(Action::Return(out))
                ==> out@.len() == final(self).params.batch_size,
    {
        loop
            decreases self.comms.buffered().len(),
        {
            match self.comms.pop_outgoing() {
                Some(crate::protocol::Message::Many(data)) => {
                    return Ok(Action::SendMany(data));
                }
                Some(crate::protocol::Message::Private(to, data)) => {
                    return Ok(Action::SendPrivate(to, data));
                }
                None => {}
            }
            if self.done {
                return Ok(Action::Wait);
            }
            match &self.result {
                Some(_) => {
                    let mut taken: Option<Vec<(Scalar, Scalar)>> = None;
                    std::mem::swap(&mut taken, &mut self.result);
                    self.done = true;
                    match taken {
                        Some(out) => {
                            if out.len() != self.params.batch_size {
                                return Err(ProtocolError::AssertionFailed(
                                    String::from_str("extension output too short")));
                            }
                            return Ok(Action::Return(out));
                        }
                        None => {
                            return Ok(Action::Wait);
                        }
                    }
                }
                None => {}
            }
            let header = if self.stage_check {
                self.h_check.clone()
            } else {
                self.root.child(0)
            };
            match self.comms.recv(&header) {
                Some((from, payload)) => {
                    if from == self.to {
                        let step = if self.stage_check {
                            self.handle_check(payload)
                        } else {
                            self.handle_u(payload)
                        };
                        match step {
                            Ok(()) => {}
                            Err(e) => {
                                self.done = true;
                                return Err(e);
                            }
                        }
                    }
                }
                None => {
                    return Ok(Action::Wait);
                }
            }
        }
    }
}

impl Protocol for RandomOtExtSender {
    type Output = Vec<(Scalar, Scalar)>;

    fn poke(&mut self) -> Result<Action<Vec<(Scalar, Scalar)>>, ProtocolError> {
        self.poke_machine()
    }

    fn message(&mut self, from: Participant, data: MessageData) {
        self.comms.push_message(from, data);
    }
}

/// Pad the batch size, guarding the machine arithmetic.
fn checked_adjust(size: usize) -> (r: Option<usize>)
    ensures
        r matches Some(a) ==> (a % 128 == 0 && a >= size && a + 7 < usize::MAX),
{
    if size >= usize::MAX - 512 {
        return None;
    }
    Some(adjust_size(size))
}

/// The receiver's side of the random OT extension: choose the bits, run
/// the correlated OT, answer the consistency check, and keep the hash of
/// each surviving row with its choice bit.
pub struct RandomOtExtReceiver {
    comms: Comms,
    root: MessageHeader,
    h_seed: MessageHeader,
    h_check: MessageHeader,
    to: Participant,
    params: RandomOtExtensionParams,
    b: ChoiceVector,
    t0: Option<BitMatrix>,
    started: bool,
    result: Option<Vec<(bool, Scalar)>>,
    done: bool,
}

/// Start the extension receiver with its base key material: the choice
/// bits are sampled, the correlated transfer's message is queued at once.
pub fn random_ot_extension_receiver(
    me: Participant,
    to: Participant,
    instance: u64,
    params: RandomOtExtensionParams,
    k0: SquareBitMatrix,
    k1: SquareBitMatrix,
) -> (r: Result<RandomOtExtReceiver, ProtocolError>)
{
    let mut root = MessageHeader::private(me, to).child(1).child(instance);
    let w0 = root.next_waitpoint();
    let h_seed = root.with_waitpoint(w0);
    let w1 = root.next_waitpoint();
    let h_check = root.with_waitpoint(w1);
    if k0.matrix.height() != 128 || k1.matrix.height() != 128 {
        return Err(ProtocolError::AssertionFailed(String::from_str(
            "base matrix of unexpected height",
        )));
    }
    let adjusted = match checked_adjust(params.batch_size) {
        Some(a) => a,
        None => {
            return Err(ProtocolError::AssertionFailed(String::from_str(
                "batch size too large",
            )));
        }
    };
    if adjusted == 0 {
        return Err(ProtocolError::AssertionFailed(String::from_str(
            "batch size too small",
        )));
    }
    let b = ChoiceVector::random(adjusted);
    // Row i of x is all ones exactly when choice bit i is set.
    let ones = BitVector::zero().not();
    let zero_row = BitVector::zero();
    let mut rows: Vec<BitVector> = Vec::new();
    let mut i: usize = 0;
    proof {
        assert(adjusted / 128 * 128 == adjusted) by (nonlinear_arith)
            requires
                adjusted % 128 == 0,
                adjusted / 128 * 128 + adjusted % 128 == adjusted,
        ;
        vstd::arithmetic::div_mod::lemma_fundamental_div_mod(adjusted as int, 128);
    }
    while i < adjusted
        invariant
            rows@.len() == i,
            i <= adjusted,
            adjusted / 128 * 128 == adjusted,
            b.chunks_spec().len() == adjusted / 128,
        decreases adjusted - i,
    {
        proof {
            assert(i / 128 < adjusted / 128) by (nonlinear_arith)
                requires
                    i < adjusted,
                    adjusted / 128 * 128 == adjusted,
                    i / 128 * 128 + i % 128 == i,
                    0 <= i % 128 < 128,
            ;
            vstd::arithmetic::div_mod::lemma_fundamental_div_mod(i as int, 128);
        }
        let bit = b.bit(i);
        rows.push(if bit { ones } else { zero_row });
        i = i + 1;
    }
    let x = BitMatrix::from_rows(rows);
    let cot_params = CorrelatedOtParams {
        sid: crate::protocol::clone_bytes(&params.sid),
        batch_size: adjusted,
    };
    let (t0, u) = correlated_ot_receiver(&cot_params, &k0, &k1, &x);
    let mut comms = Comms::new();
    let ub = u.to_bytes();
    let h_u = root.child(0);
    comms.send_private(to, &h_u, &ub);
    Ok(RandomOtExtReceiver {
        comms,
        root,
        h_seed,
        h_check,
        to,
        params,
        b,
        t0: Some(t0),
        started: true,
        result: None,
        done: false,
    })
}

impl RandomOtExtReceiver {
    /// Consume the weight seed: answer the consistency check and finish.
    fn handle_seed(&mut self, payload: Vec<u8>) -> (r: Result<(), ProtocolError>)
        ensures
            final(self).comms.buffered() == old(self).comms.buffered(),
    {
        if payload.len() != 32 {
            return Err(ProtocolError::Other(String::from_str(
                "failed to decode message",
            )));
        }
        let t0 = match &self.t0 {
            Some(t) => t,
            None => {
                return Err(ProtocolError::AssertionFailed(String::from_str(
                    "seed before the correlated transfer",
                )));
            }
        };
        let mu = t0.height() / 128;
        if mu > self.b.chunks().len() {
            return Err(ProtocolError::AssertionFailed(String::from_str(
                "choice vector too short",
            )));
        }
        let chi = derive_check_weights(&payload, mu);
        // x-hat: the weighted sum of the choice chunks.
        let mut b_chunks: Vec<BitVector> = Vec::new();
        let mut c: usize = 0;
        while c < mu
            invariant
                self.comms.buffered() == old(self).comms.buffered(),
                mu <= self.b.chunks_spec().len(),
                c <= mu,
                b_chunks@.len() == c,
            decreases mu - c,
        {
            b_chunks.push(self.b.chunks()[c]);
            c = c + 1;
        }
        let small_x = weighted_col_sum(&b_chunks, &chi);
        let mut check_payload = small_x.bytes();
        let mut j: usize = 0;
        while j < 128
            invariant
                self.comms.buffered() == old(self).comms.buffered(),
                chi@.len() == mu,
                self.t0 matches Some(tt) && tt.rows_spec().len() / 128 == mu,
                j <= 128,
            decreases 128 - j,
        {
            let t0_ref = match &self.t0 {
                Some(t) => t,
                None => {
                    return Err(ProtocolError::AssertionFailed(String::from_str(
                        "seed before the correlated transfer",
                    )));
                }
            };
            let chunks = t0_ref.column_chunks(j);
            let small_t_j = weighted_col_sum(&chunks, &chi);
            let tb = small_t_j.bytes();
            append_bytes(&mut check_payload, &tb);
            j = j + 1;
        }
        self.comms.send_private(self.to, &self.h_check, &check_payload);
        // The outputs: the first rows, hashed, with their choice bits.
        let t0_ref = match &self.t0 {
            Some(t) => t,
            None => {
                return Err(ProtocolError::AssertionFailed(String::from_str(
                    "seed before the correlated transfer",
                )));
            }
        };
        if self.params.batch_size > t0_ref.height() || self.params.batch_size >= usize::MAX {
            return Err(ProtocolError::AssertionFailed(String::from_str(
                "batch size too large",
            )));
        }
        if self.b.chunks().len() >= usize::MAX / 128 {
            return Err(ProtocolError::AssertionFailed(String::from_str(
                "choice vector too long",
            )));
        }
        if self.params.batch_size > self.b.chunks().len() * 128 {
            return Err(ProtocolError::AssertionFailed(String::from_str(
                "choice vector too short",
            )));
        }
        let out = receiver_outputs(t0_ref, &self.b, self.params.batch_size);
        self.result = Some(out);
        Ok(())
    }

    /// Drive the protocol. A successful run delivers exactly `batch_size`
    /// choice-bit/scalar pairs.
    fn poke_machine(&mut self)
        -> (r: Result<Action<Vec<(bool, Scalar)>>, ProtocolError>)
        ensures
            r matches Ok(Action::Return(out))
                ==> out@.len() == final(self).params.batch_size,
    {
        loop
            decreases self.comms.buffered().len(),
        {
            match self.comms.pop_outgoing() {
                Some(crate::protocol::Message::Many(data)) => {
                    return Ok(Action::SendMany(data));
                }
                Some(crate::protocol::Message::Private(to, data)) => {
                    return Ok(Action::SendPrivate(to, data));
                }
                None => {}
            }
            if self.done {
                return Ok(Action::Wait);
            }
            match &self.result {
                Some(_) => {
                    let mut taken: Option<Vec<(bool, Scalar)>> = None;
                    std::mem::swap(&mut taken, &mut self.result);
                    self.done = true;
                    match taken {
                        Some(out) => {
                            if out.len() != self.params.batch_size {
                                return Err(ProtocolError::AssertionFailed(
                                    String::from_str("extension output too short")));
                            }
                            return Ok(Action::Return(out));
                        }
                        None => {
                            return Ok(Action::Wait);
                        }
                    }
                }
                None => {}
            }
            match self.comms.recv(&self.h_seed) {
                Some((from, payload)) => {
                    if from == self.to {
                        match self.handle_seed(payload) {
                            Ok(()) => {}
                            Err(e) => {
                                self.done = true;
                                return Err(e);
                            }
                        }
                    }
                }
                None => {
                    return Ok(Action::Wait);
                }
            }
        }
    }
}

impl Protocol for RandomOtExtReceiver {
    type Output = Vec<(bool, Scalar)>;

    fn poke(&mut self) -> Result<Action<Vec<(bool, Scalar)>>, ProtocolError> {
        self.poke_machine()
    }

    fn message(&mut self, from: Participant, data: MessageData) {
        self.comms.push_message(from, data);
    }
}

} // verus!
