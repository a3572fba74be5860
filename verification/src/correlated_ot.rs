//! Correlated oblivious-transfer extension.
//!
//! The receiver expands its two base matrices into `T_0` and `T_1` and
//! sends `u = T_0 xor T_1 xor x`, where row `i` of `x` is all ones exactly
//! when its `i`-th choice bit is set. The sender expands its chosen matrix
//! into `T` and computes `q = (u and delta) xor T`. Row-wise this makes
//! `q = T_0 xor (x and delta)`, which is the correlation the random-OT
//! extension builds on; that relation is proved below.

use vstd::prelude::*;
use crate::protocol::ProtocolError;
use crate::bits::{BitVector, BitMatrix, SquareBitMatrix, byte_bit, prg_of, lemma_xor_bits, lemma_and_bits};

verus! {

/// What the correlated OT needs: a session identifier and how many
/// correlated pairs to produce.
#[derive(Debug, Clone)]
pub struct CorrelatedOtParams {
    pub sid: Vec<u8>,
    pub batch_size: usize,
}

/// Bit `(i, j)` of the expansion of seed matrix `rows` under `sid` to
/// `n`-row matrices: bit `i` of the stream expanded from seed row `j`.
pub open spec fn expansion_bit(rows: Seq<BitVector>, sid: Seq<u8>, n: int, i: int, j: int)
    -> bool {
    byte_bit(prg_of(rows[j].lo_spec(), rows[j].hi_spec(), sid, (n + 7) / 8), i)
}

/// The sender's half: expand the chosen-key matrix and fold the receiver's
/// message into it.
///
/// Fails exactly when the received matrix has the wrong height. On success
/// `q[i][j] = (u[i][j] and delta[j]) xor T[i][j]`, where `T` is the
/// expansion of the sender's seed matrix.
pub fn correlated_ot_sender(
    params: &CorrelatedOtParams,
    delta: &BitVector,
    k: &SquareBitMatrix,
    u: &BitMatrix,
) -> (r: Result<BitMatrix, ProtocolError>)
    requires
        k.matrix.rows_spec().len() == 128,
        params.batch_size % 128 == 0,
        params.batch_size + 7 < usize::MAX,
    ensures
        r is Ok <==> u.rows_spec().len() == params.batch_size,
        r matches Ok(q) ==> {
            &&& q.rows_spec().len() == params.batch_size
            &&& forall|i: int, j: int| 0 <= i < params.batch_size && 0 <= j < 128
                ==> q.rows_spec()[i].bit_spec(j) == (
                    (u.rows_spec()[i].bit_spec(j) && delta.bit_spec(j))
                    != expansion_bit(k.matrix.rows_spec(), params.sid@,
                        params.batch_size as int, i, j))
        },
{
    let t = k.expand_transpose(&params.sid, params.batch_size);
    if u.height() != params.batch_size {
        return Err(ProtocolError::AssertionFailed(String::from_str(
            "received matrix of unexpected height",
        )));
    }
    let masked = u.and_vec(delta);
    let q = masked.xor(&t);
    proof {
        assert forall|i: int, j: int| 0 <= i < params.batch_size && 0 <= j < 128
            implies q.rows_spec()[i].bit_spec(j) == (
                (u.rows_spec()[i].bit_spec(j) && delta.bit_spec(j))
                != expansion_bit(k.matrix.rows_spec(), params.sid@,
                    params.batch_size as int, i, j)) by {
            lemma_and_bits(u.rows_spec()[i], *delta);
            lemma_xor_bits(masked.rows_spec()[i], t.rows_spec()[i]);
        }
    }
    Ok(q)
}

/// The receiver's half: expand both base matrices, and mask the choice
/// rows into their xor.
///
/// Returns `(t0, u)`: `t0` is the receiver's output and `u` the message to
/// send, with `u = T_0 xor T_1 xor x` bit for bit.
pub fn correlated_ot_receiver(
    params: &CorrelatedOtParams,
    k0: &SquareBitMatrix,
    k1: &SquareBitMatrix,
    x: &BitMatrix,
) -> (r: (BitMatrix, BitMatrix))
    requires
        k0.matrix.rows_spec().len() == 128,
        k1.matrix.rows_spec().len() == 128,
        x.rows_spec().len() == params.batch_size,
        params.batch_size % 128 == 0,
        params.batch_size + 7 < usize::MAX,
    ensures
        r.0.rows_spec().len() == params.batch_size,
        r.1.rows_spec().len() == params.batch_size,
        forall|i: int, j: int| 0 <= i < params.batch_size && 0 <= j < 128
            ==> r.0.rows_spec()[i].bit_spec(j) == expansion_bit(k0.matrix.rows_spec(),
                params.sid@, params.batch_size as int, i, j),
        forall|i: int, j: int| 0 <= i < params.batch_size && 0 <= j < 128
            ==> r.1.rows_spec()[i].bit_spec(j) == (
                (expansion_bit(k0.matrix.rows_spec(), params.sid@,
                    params.batch_size as int, i, j)
                != expansion_bit(k1.matrix.rows_spec(), params.sid@,
                    params.batch_size as int, i, j))
                != x.rows_spec()[i].bit_spec(j)),
{
    let t0 = k0.expand_transpose(&params.sid, params.batch_size);
    let t1 = k1.expand_transpose(&params.sid, params.batch_size);
    let mixed = t0.xor(&t1);
    let u = mixed.xor(x);
    proof {
        assert forall|i: int, j: int| 0 <= i < params.batch_size && 0 <= j < 128
            implies u.rows_spec()[i].bit_spec(j) == (
                (expansion_bit(k0.matrix.rows_spec(), params.sid@,
                    params.batch_size as int, i, j)
                != expansion_bit(k1.matrix.rows_spec(), params.sid@,
                    params.batch_size as int, i, j))
                != x.rows_spec()[i].bit_spec(j)) by {
            lemma_xor_bits(t0.rows_spec()[i], t1.rows_spec()[i]);
            lemma_xor_bits(mixed.rows_spec()[i], x.rows_spec()[i]);
            assert(mixed.rows_spec()[i]
                == t0.rows_spec()[i].xor_spec(t1.rows_spec()[i]));
            assert(u.rows_spec()[i]
                == mixed.rows_spec()[i].xor_spec(x.rows_spec()[i]));
            assert(t0.rows_spec()[i].bit_spec(j) == expansion_bit(
                k0.matrix.rows_spec(), params.sid@, params.batch_size as int, i, j));
            assert(t1.rows_spec()[i].bit_spec(j) == expansion_bit(
                k1.matrix.rows_spec(), params.sid@, params.batch_size as int, i, j));
        }
    }
    (t0, u)
}

/// The correlation of the correlated OT outputs.
///
/// When the sender's seed matrix holds, row for row, the base matrix the
/// sender's choice bit selects — which is what the base random OT
/// guarantees — the sender's output satisfies, row-wise,
/// `q = t_0 xor (x and delta)`.
pub proof fn lemma_correlated_ot(
    delta: BitVector,
    k_rows: Seq<BitVector>,
    k0_rows: Seq<BitVector>,
    k1_rows: Seq<BitVector>,
    sid: Seq<u8>,
    n: int,
    q: Seq<BitVector>,
    t0: Seq<BitVector>,
    u: Seq<BitVector>,
    x: Seq<BitVector>,
)
    requires
        k_rows.len() == 128,
        k0_rows.len() == 128,
        k1_rows.len() == 128,
        q.len() == n,
        t0.len() == n,
        u.len() == n,
        x.len() == n,
        // The base random OT guarantee: the sender's seed row is the base
        // row its choice bit selects.
        forall|j: int| 0 <= j < 128 ==> k_rows[j]
            == if delta.bit_spec(j) { k1_rows[j] } else { k0_rows[j] },
        // What the receiver computed.
        forall|i: int, j: int| 0 <= i < n && 0 <= j < 128
            ==> t0[i].bit_spec(j) == expansion_bit(k0_rows, sid, n, i, j),
        forall|i: int, j: int| 0 <= i < n && 0 <= j < 128
            ==> u[i].bit_spec(j) == ((expansion_bit(k0_rows, sid, n, i, j)
                != expansion_bit(k1_rows, sid, n, i, j)) != x[i].bit_spec(j)),
        // What the sender computed.
        forall|i: int, j: int| 0 <= i < n && 0 <= j < 128
            ==> q[i].bit_spec(j) == ((u[i].bit_spec(j) && delta.bit_spec(j))
                != expansion_bit(k_rows, sid, n, i, j)),
    ensures
        forall|i: int, j: int| 0 <= i < n && 0 <= j < 128
            ==> q[i].bit_spec(j) == (t0[i].bit_spec(j)
                != (x[i].bit_spec(j) && delta.bit_spec(j))),
{
    assert forall|i: int, j: int| 0 <= i < n && 0 <= j < 128
        implies q[i].bit_spec(j) == (t0[i].bit_spec(j)
            != (x[i].bit_spec(j) && delta.bit_spec(j))) by {
        if delta.bit_spec(j) {
            assert(k_rows[j] == k1_rows[j]);
            assert(expansion_bit(k_rows, sid, n, i, j)
                == expansion_bit(k1_rows, sid, n, i, j));
        } else {
            assert(k_rows[j] == k0_rows[j]);
            assert(expansion_bit(k_rows, sid, n, i, j)
                == expansion_bit(k0_rows, sid, n, i, j));
        }
    }
}

} // verus!
