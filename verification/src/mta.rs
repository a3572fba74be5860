//! Multiplicative-to-additive conversion.
//!
//! Two parties hold scalars `a` and `b` and a batch of random OTs: the
//! sender has pairs `(v0_i, v1_i)`, the receiver choice bits `t_i` and the
//! chosen values `v_{t_i, i}`. The sender masks `a` into the pairs with
//! fresh one-time pads; the receiver unmasks its chosen component, leaving
//! `m_i = delta_i + (-1)^{t_i} a`. Weights derived from a shared seed, with
//! the first weight chosen so that the signed weight sum is `b`, turn these
//! into additive shares: `alpha = -sum delta_i chi_i` for the sender and
//! `beta = sum chi_i m_i` for the receiver, with `alpha + beta = a b`. That
//! identity is proved below.

use vstd::prelude::*;
use crate::scalars::{Scalar, scalar_order, scalar_add, scalar_sub, scalar_mul, scalar_neg, scalar_from_u64};
use crate::protocol::{Participant, Action, Protocol, ProtocolError, MessageData};
use crate::runtime::{Comms, MessageHeader};
use crate::codec::{append_scalar, read_scalar, append_bytes};

verus! {

/// The dot product of two value sequences, as a plain integer.
pub open spec fn dot(x: Seq<nat>, y: Seq<nat>) -> int
    decreases x.len(),
{
    if x.len() == 0 || x.len() != y.len() {
        0
    } else {
        dot(x.drop_last(), y.drop_last()) + x.last() * y.last()
    }
}

/// The signed dot of a weight sequence under choice signs: weight `i`
/// counts negatively when the choice bit is set.
pub open spec fn signed_sum(ts: Seq<bool>, chi: Seq<nat>) -> int
    decreases ts.len(),
{
    if ts.len() == 0 || ts.len() != chi.len() {
        0
    } else {
        signed_sum(ts.drop_last(), chi.drop_last())
            + (if ts.last() { -1int } else { 1int }) * chi.last()
    }
}

/// Congruence modulo the scalar order.
pub open spec fn cong(x: int, y: int) -> bool {
    x % (scalar_order() as int) == y % (scalar_order() as int)
}

/// The values of a sequence of scalars.
pub open spec fn values_of(s: Seq<Scalar>) -> Seq<nat> {
    s.map_values(|x: Scalar| x.value())
}

proof fn lemma_cong_add(a: int, b: int, c: int, d: int)
    requires
        cong(a, b),
        cong(c, d),
    ensures
        cong(a + c, b + d),
{
    let n = scalar_order() as int;
    vstd::arithmetic::div_mod::lemma_add_mod_noop(a, c, n);
    vstd::arithmetic::div_mod::lemma_add_mod_noop(b, d, n);
}

proof fn lemma_cong_mul_left(k: int, a: int, b: int)
    requires
        cong(a, b),
    ensures
        cong(k * a, k * b),
{
    let n = scalar_order() as int;
    vstd::arithmetic::div_mod::lemma_mul_mod_noop_right(k, a, n);
    vstd::arithmetic::div_mod::lemma_mul_mod_noop_right(k, b, n);
}

proof fn lemma_cong_sub(a: int, b: int, c: int)
    requires
        cong(a, b),
    ensures
        cong(a - c, b - c),
{
    let n = scalar_order() as int;
    vstd::arithmetic::div_mod::lemma_sub_mod_noop(a, c, n);
    vstd::arithmetic::div_mod::lemma_sub_mod_noop(b, c, n);
}

/// One step of the signed accumulation: subtracting or adding a weight
/// keeps the accumulator congruent to the signed sum.
proof fn lemma_signed_step(new: nat, old: nat, v: nat, t: bool, spre: int)
    requires
        cong(old as int, spre),
        t ==> (new + v) % scalar_order() == old % scalar_order(),
        !t ==> new % scalar_order() == (old + v) % scalar_order(),
    ensures
        cong(new as int, spre + (if t { -1int } else { 1int }) * v),
{
    let n = scalar_order() as int;
    assert((if t { -1int } else { 1int }) * (v as int)
        == if t { -(v as int) } else { v as int }) by (nonlinear_arith);
    if t {
        assert(cong((new + v) as int, old as int));
        lemma_cong_sub((new + v) as int, old as int, v as int);
        assert(cong(new as int, old - v));
        lemma_cong_sub(old as int, spre, v as int);
        assert(cong(old - v, spre - v));
    } else {
        lemma_cong_add(old as int, spre, v as int, v as int);
        assert(cong((old + v) as int, spre + v));
        vstd::arithmetic::div_mod::lemma_mod_twice((old + v) as int, n);
        assert(cong(new as int, (old + v) as int));
    }
}

/// Unmasking the chosen pad leaves the pad plus a signed `a`: with the
/// message and oblivious-transfer relations elementwise, the weighted sum
/// of the unmasked values decomposes into the weighted pad sum plus `a`
/// times the signed weight sum.
proof fn lemma_mta_sum(
    ts: Seq<bool>,
    chi: Seq<nat>,
    delta: Seq<nat>,
    m: Seq<nat>,
    a: nat,
)
    requires
        ts.len() == chi.len(),
        ts.len() == delta.len(),
        ts.len() == m.len(),
        forall|i: int| 0 <= i < ts.len() ==> cong(
            #[trigger] m[i] as int,
            delta[i] + (if ts[i] { -1int } else { 1int }) * a),
    ensures
        cong(dot(chi, m), dot(chi, delta) + a * signed_sum(ts, chi)),
    decreases ts.len(),
{
    let n = scalar_order() as int;
    if ts.len() == 0 {
    } else {
        let pre_ts = ts.drop_last();
        let pre_chi = chi.drop_last();
        let pre_delta = delta.drop_last();
        let pre_m = m.drop_last();
        assert(forall|i: int| 0 <= i < pre_ts.len() ==> cong(
            #[trigger] pre_m[i] as int,
            pre_delta[i] + (if pre_ts[i] { -1int } else { 1int }) * a)) by {
            assert(forall|i: int| 0 <= i < pre_ts.len()
                ==> pre_m[i] == m[i] && pre_delta[i] == delta[i] && pre_ts[i] == ts[i]);
        }
        lemma_mta_sum(pre_ts, pre_chi, pre_delta, pre_m, a);
        let k = ts.len() - 1;
        let s: int = if ts[k] { -1int } else { 1int };
        // The last term: chi_k * m_k is congruent to chi_k * (delta_k + s a).
        lemma_cong_mul_left(chi[k] as int, m[k] as int, delta[k] + s * a);
        assert(chi[k] * (delta[k] + s * a) == chi[k] * delta[k] + a * (s * chi[k]))
            by (nonlinear_arith);
        lemma_cong_add(dot(pre_chi, pre_m), dot(pre_chi, pre_delta)
            + a * signed_sum(pre_ts, pre_chi), (chi[k] * m[k]) as int,
            chi[k] * delta[k] + a * (s * chi[k]));
        assert(dot(chi, m) == dot(pre_chi, pre_m) + chi[k] * m[k]);
        assert(dot(chi, delta) == dot(pre_chi, pre_delta) + chi[k] * delta[k]);
        assert(signed_sum(ts, chi) == signed_sum(pre_ts, pre_chi) + s * chi[k]);
        assert(a * signed_sum(ts, chi) == a * signed_sum(pre_ts, pre_chi)
            + a * (s * chi[k])) by (nonlinear_arith)
            requires
                signed_sum(ts, chi) == signed_sum(pre_ts, pre_chi) + s * chi[k],
        ;
    }
}

/// The additive shares of the conversion sum to the product.
///
/// Given the elementwise relations the conversion sets up — each unmasked
/// value is the pad plus a signed `a`, the sender's share cancels the
/// weighted pad sum, the receiver's share is the weighted unmasked sum,
/// and the signed weight sum is `b` — the two shares sum to `a b` in the
/// scalar field.
pub proof fn lemma_mta_shares(
    ts: Seq<bool>,
    chi: Seq<nat>,
    delta: Seq<nat>,
    m: Seq<nat>,
    a: nat,
    b: nat,
    alpha: nat,
    beta: nat,
)
    requires
        ts.len() == chi.len(),
        ts.len() == delta.len(),
        ts.len() == m.len(),
        forall|i: int| 0 <= i < ts.len() ==> cong(
            #[trigger] m[i] as int,
            delta[i] + (if ts[i] { -1int } else { 1int }) * a),
        cong(alpha + dot(chi, delta), 0),
        cong(beta as int, dot(chi, m)),
        cong(signed_sum(ts, chi), b as int),
    ensures
        cong((alpha + beta) as int, (a * b) as int),
{
    let n = scalar_order() as int;
    lemma_mta_sum(ts, chi, delta, m, a);
    // beta is congruent to the pad sum plus a times the signed sum.
    assert(cong(beta as int, dot(chi, delta) + a * signed_sum(ts, chi)));
    // Replacing the signed sum by b:
    lemma_cong_mul_left(a as int, signed_sum(ts, chi), b as int);
    lemma_cong_add(dot(chi, delta), dot(chi, delta), a * signed_sum(ts, chi), (a * b) as int);
    assert(cong(beta as int, dot(chi, delta) + (a * b) as int));
    // Adding alpha cancels the pad sum.
    lemma_cong_add(alpha as int, alpha as int, beta as int, dot(chi, delta) + a * b);
    lemma_cong_add((alpha + dot(chi, delta)) as int, 0, (a * b) as int, (a * b) as int);
    assert(alpha + (dot(chi, delta) + (a * b) as int) == (alpha + dot(chi, delta)) + (a * b) as int);
}

/// The sender's first move: mask `a` into the pair of each random OT with
/// a fresh pad, giving `(v0 + pad + a, v1 + pad - a)`.
pub fn mta_sender_msgs(v: &Vec<(Scalar, Scalar)>, pads: &Vec<Scalar>, a: &Scalar)
    -> (r: Vec<(Scalar, Scalar)>)
    requires
        v@.len() == pads@.len(),
    ensures
        r@.len() == v@.len(),
        forall|i: int| 0 <= i < r@.len() ==> cong(
            (#[trigger] r@[i]).0.value() as int,
            (v@[i].0.value() + pads@[i].value() + a.value()) as int),
        forall|i: int| 0 <= i < r@.len() ==> cong(
            ((#[trigger] r@[i]).1.value() + a.value()) as int,
            (v@[i].1.value() + pads@[i].value()) as int),
{
    let mut out: Vec<(Scalar, Scalar)> = Vec::new();
    let mut i: usize = 0;
    while i < v.len()
        invariant
            v@.len() == pads@.len(),
            i <= v@.len(),
            out@.len() == i,
            forall|k: int| 0 <= k < i ==> cong(
                (#[trigger] out@[k]).0.value() as int,
                (v@[k].0.value() + pads@[k].value() + a.value()) as int),
            forall|k: int| 0 <= k < i ==> cong(
                ((#[trigger] out@[k]).1.value() + a.value()) as int,
                (v@[k].1.value() + pads@[k].value()) as int),
        decreases v@.len() - i,
    {
        let mixed0 = scalar_add(&v[i].0, &pads[i]);
        let c0 = scalar_add(&mixed0, a);
        let mixed1 = scalar_add(&v[i].1, &pads[i]);
        let c1 = scalar_sub(&mixed1, a);
        proof {
            let n = scalar_order() as int;
            vstd::arithmetic::div_mod::lemma_add_mod_noop(
                (v@[i as int].0.value() + pads@[i as int].value()) as int,
                a.value() as int, n);
            vstd::arithmetic::div_mod::lemma_mod_twice(
                (v@[i as int].0.value() + pads@[i as int].value()) as int, n);
            vstd::arithmetic::div_mod::lemma_add_mod_noop(
                mixed0.value() as int, a.value() as int, n);
            vstd::arithmetic::div_mod::lemma_mod_twice(a.value() as int, n);
            // c1 + a is congruent to mixed1, which is congruent to v1 + pad.
            vstd::arithmetic::div_mod::lemma_mod_twice((c1.value() + a.value()) as int, n);
        }
        out.push((c0, c1));
        i = i + 1;
    }
    out
}

/// The receiver's unmasking: from its chosen value and the matching
/// component of the sender's pair, recover the pad plus a signed `a`.
pub fn mta_receiver_unmask(tv: &Vec<(bool, Scalar)>, c: &Vec<(Scalar, Scalar)>)
    -> (r: Vec<Scalar>)
    requires
        tv@.len() == c@.len(),
    ensures
        r@.len() == tv@.len(),
        forall|i: int| 0 <= i < r@.len() ==> cong(
            ((#[trigger] r@[i]).value() + tv@[i].1.value()) as int,
            if tv@[i].0 { c@[i].1.value() as int } else { c@[i].0.value() as int }),
{
    let mut out: Vec<Scalar> = Vec::new();
    let mut i: usize = 0;
    while i < tv.len()
        invariant
            tv@.len() == c@.len(),
            i <= tv@.len(),
            out@.len() == i,
            forall|k: int| 0 <= k < i ==> cong(
                ((#[trigger] out@[k]).value() + tv@[k].1.value()) as int,
                if tv@[k].0 { c@[k].1.value() as int } else { c@[k].0.value() as int }),
        decreases tv@.len() - i,
    {
        let chosen = if tv[i].0 { &c[i].1 } else { &c[i].0 };
        let m = scalar_sub(chosen, &tv[i].1);
        proof {
            let n = scalar_order() as int;
            vstd::arithmetic::div_mod::lemma_mod_twice((m.value() + tv@[i as int].1.value()) as int, n);
        }
        out.push(m);
        i = i + 1;
    }
    out
}

/// The sender's share: the negated weighted sum of its pads.
pub fn mta_sender_share(pads: &Vec<Scalar>, chi: &Vec<Scalar>) -> (r: Scalar)
    requires
        pads@.len() == chi@.len(),
    ensures
        cong(r.value() + dot(values_of(chi@), values_of(pads@)), 0),
{
    let acc = weighted_sum(chi, pads);
    let r = scalar_neg(&acc);
    proof {
        let n = scalar_order() as int;
        vstd::arithmetic::div_mod::lemma_mod_twice((r.value() + acc.value()) as int, n);
        vstd::arithmetic::div_mod::lemma_add_mod_noop(r.value() as int,
            dot(values_of(chi@), values_of(pads@)), n);
        vstd::arithmetic::div_mod::lemma_add_mod_noop(r.value() as int,
            acc.value() as int, n);
        vstd::arithmetic::div_mod::lemma_mod_twice(acc.value() as int, n);
        vstd::arithmetic::div_mod::lemma_small_mod(0nat, scalar_order());
    }
    r
}

/// The receiver's share: the weighted sum of the unmasked values.
pub fn mta_receiver_share(chi: &Vec<Scalar>, m: &Vec<Scalar>) -> (r: Scalar)
    requires
        chi@.len() == m@.len(),
    ensures
        cong(r.value() as int, dot(values_of(chi@), values_of(m@))),
{
    weighted_sum(chi, m)
}

/// The weighted sum of two scalar vectors, in the scalar field.
pub fn weighted_sum(x: &Vec<Scalar>, y: &Vec<Scalar>) -> (r: Scalar)
    requires
        x@.len() == y@.len(),
    ensures
        cong(r.value() as int, dot(values_of(x@), values_of(y@))),
        r.value() < scalar_order(),
{
    let mut acc = scalar_from_u64(0);
    proof {
        vstd::arithmetic::div_mod::lemma_small_mod(0nat, scalar_order());
        assert(values_of(x@.subrange(0, 0)) =~= Seq::<nat>::empty());
    }
    let mut i: usize = 0;
    while i < x.len()
        invariant
            x@.len() == y@.len(),
            i <= x@.len(),
            cong(acc.value() as int,
                dot(values_of(x@.subrange(0, i as int)), values_of(y@.subrange(0, i as int)))),
            acc.value() < scalar_order(),
        decreases x@.len() - i,
    {
        let ghost pre_x = values_of(x@.subrange(0, i as int));
        let ghost pre_y = values_of(y@.subrange(0, i as int));
        let prod = scalar_mul(&x[i], &y[i]);
        let ghost old_acc = acc;
        acc = scalar_add(&acc, &prod);
        proof {
            let n = scalar_order() as int;
            let cur_x = values_of(x@.subrange(0, i + 1));
            let cur_y = values_of(y@.subrange(0, i + 1));
            assert(cur_x.drop_last() =~= pre_x);
            assert(cur_y.drop_last() =~= pre_y);
            assert(cur_x.last() == x@[i as int].value());
            assert(cur_y.last() == y@[i as int].value());
            assert(dot(cur_x, cur_y) == dot(pre_x, pre_y)
                + x@[i as int].value() * y@[i as int].value());
            // acc' = (acc + prod) mod n, prod = (x_i y_i) mod n.
            vstd::arithmetic::div_mod::lemma_add_mod_noop(old_acc.value() as int,
                prod.value() as int, n);
            vstd::arithmetic::div_mod::lemma_mod_twice(prod.value() as int, n);
            vstd::arithmetic::div_mod::lemma_mod_twice(old_acc.value() as int, n);
            vstd::arithmetic::div_mod::lemma_add_mod_noop(old_acc.value() as int,
                (x@[i as int].value() * y@[i as int].value()) as int, n);
            vstd::arithmetic::div_mod::lemma_add_mod_noop(dot(pre_x, pre_y),
                (x@[i as int].value() * y@[i as int].value()) as int, n);
        }
        i = i + 1;
    }
    proof {
        assert(values_of(x@.subrange(0, x@.len() as int)) =~= values_of(x@));
        assert(values_of(y@.subrange(0, y@.len() as int)) =~= values_of(y@));
    }
    acc
}

/// What the seeded weight stream yields at each position.
pub uninterp spec fn weight_of(seed: Seq<u8>, i: int) -> Seq<u8>;

/// Relies on `magikitten::MeowRng` and `Field::random` for `k256::Scalar`:
/// the weights drawn from the seeded deterministic stream, so both parties
/// derive the same weights from the same seed.
#[verifier::external_body]
pub fn derive_weights(seed: &Vec<u8>, count: usize) -> (r: Vec<Scalar>)
    requires
        seed@.len() == 32,
    ensures
        r@.len() == count,
        forall|i: int| 0 <= i < count ==> (#[trigger] r@[i]).repr() == weight_of(seed@, i),
{
    let mut seed_arr = [0u8; 32];
    seed_arr.copy_from_slice(seed);
    let mut rng = magikitten::MeowRng::new(&seed_arr);
    let mut out = Vec::with_capacity(count);
    for _ in 0..count {
        let s = <k256::Scalar as k256::elliptic_curve::Field>::random(&mut rng);
        out.push(Scalar::from_bytes(&s.to_bytes().to_vec()).unwrap());
    }
    out
}


/// Choose the first weight so that the signed sum of all weights is `b`.
///
/// Takes the choice bits and the derived weights for positions past the
/// first, and returns the weight for position zero: the full weight vector
/// `[r] + rest` then has signed sum congruent to `b`.
#[verifier::rlimit(100)]
pub fn mta_choose_first_weight(ts: &Vec<bool>, rest: &Vec<Scalar>, b: &Scalar)
    -> (r: Scalar)
    requires
        ts@.len() == rest@.len() + 1,
        ts@.len() >= 1,
    ensures
        cong(signed_sum(ts@, seq![r.value()] + values_of(rest@)), b.value() as int),
{
    proof {
        use_type_invariant(b);
        b.lemma_canonical();
    }
    // s = sum over the rest of (-1)^{t_i} chi_i.
    let mut acc = scalar_from_u64(0);
    proof {
        vstd::arithmetic::div_mod::lemma_small_mod(0nat, scalar_order());
        assert(ts@.subrange(1, 1) =~= Seq::<bool>::empty());
        assert(values_of(rest@.subrange(0, 0)) =~= Seq::<nat>::empty());
    }
    let mut i: usize = 0;
    while i < rest.len()
        invariant
            ts@.len() == rest@.len() + 1,
            i <= rest@.len(),
            cong(acc.value() as int, signed_sum(ts@.subrange(1, i + 1),
                values_of(rest@.subrange(0, i as int)))),
            acc.value() < scalar_order(),
        decreases rest@.len() - i,
    {
        let ghost pre_ts = ts@.subrange(1, i + 1);
        let ghost pre_chi = values_of(rest@.subrange(0, i as int));
        let ghost old_acc = acc;
        let t = ts[i + 1];
        if t {
            acc = scalar_sub(&acc, &rest[i]);
        } else {
            acc = scalar_add(&acc, &rest[i]);
        }
        proof {
            let cur_ts = ts@.subrange(1, i + 2);
            let cur_chi = values_of(rest@.subrange(0, i + 1));
            assert(cur_ts.drop_last() =~= pre_ts);
            assert(cur_chi.drop_last() =~= pre_chi);
            assert(cur_ts.last() == ts@[i + 1]);
            assert(cur_chi.last() == rest@[i as int].value());
            if !t {
                vstd::arithmetic::div_mod::lemma_small_mod(acc.value(),
                    scalar_order());
            }
            lemma_signed_step(acc.value(), old_acc.value(),
                rest@[i as int].value(), t, signed_sum(pre_ts, pre_chi));
            assert(signed_sum(cur_ts, cur_chi) == signed_sum(pre_ts, pre_chi)
                + (if t { -1int } else { 1int }) * (rest@[i as int].value() as int));
        }
        i = i + 1;
    }
    proof {
        assert(ts@.subrange(1, ts@.len() as int) =~= ts@.subrange(1, (rest@.len() + 1) as int));
        assert(values_of(rest@.subrange(0, rest@.len() as int)) =~= values_of(rest@));
    }
    // chi1 = b - s, then negated when the first choice bit is set.
    let pre = scalar_sub(b, &acc);
    let t0 = ts[0];
    let r = if t0 { scalar_neg(&pre) } else { pre.clone() };
    proof {
        let n = scalar_order() as int;
        let full_ts = ts@;
        let full_chi = seq![r.value()] + values_of(rest@);
        let rest_ts = ts@.subrange(1, ts@.len() as int);
        let rest_chi = values_of(rest@);
        lemma_signed_sum_first(full_ts, full_chi);
        assert(full_chi.drop_first() =~= rest_chi);
        assert(full_chi.first() == r.value());
        assert(full_ts.drop_first() =~= rest_ts);
        assert(full_ts.first() == ts@[0]);
        assert((if t0 { -1int } else { 1int }) * (r.value() as int)
            == if t0 { -(r.value() as int) } else { r.value() as int })
            by (nonlinear_arith);
        assert(signed_sum(full_ts, full_chi)
            == (if t0 { -(r.value() as int) } else { r.value() as int })
                + signed_sum(rest_ts, rest_chi));
        // pre + acc == b (mod n)
        assert((pre.value() + acc.value()) % scalar_order()
            == b.value() % scalar_order());
        vstd::arithmetic::div_mod::lemma_small_mod(b.value(), scalar_order());
        if t0 {
            // r + pre == 0 (mod n): the signed first term is -r == pre - (r + pre).
            assert((r.value() + pre.value()) % scalar_order() == 0);
            assert(cong(-(r.value() as int) + signed_sum(rest_ts, rest_chi),
                b.value() as int)) by {
                // -(r) == pre (mod n) since r + pre == 0 (mod n).
                assert(cong(-(r.value() as int), pre.value() as int)) by {
                    vstd::arithmetic::div_mod::lemma_add_mod_noop(
                        -(r.value() as int), (r.value() + pre.value()) as int, n);
                    vstd::arithmetic::div_mod::lemma_mod_sub_multiples_vanish(
                        -(r.value() as int), n);
                    assert(-(r.value() as int) + (r.value() + pre.value())
                        == pre.value());
                    vstd::arithmetic::div_mod::lemma_small_mod(pre.value(),
                        scalar_order());
                    vstd::arithmetic::div_mod::lemma_add_mod_noop(
                        pre.value() as int, 0, n);
                    vstd::arithmetic::div_mod::lemma_mod_twice(
                        (r.value() + pre.value()) as int, n);
                    lemma_cong_add(-(r.value() as int) + (r.value() + pre.value()),
                        -(r.value() as int) + (r.value() + pre.value()), 0, 0);
                }
                lemma_cong_add(-(r.value() as int), pre.value() as int,
                    signed_sum(rest_ts, rest_chi), acc.value() as int);
                assert((pre.value() + acc.value()) % scalar_order()
                    == b.value() % scalar_order());
            }
        } else {
            assert(r.value() == pre.value());
            lemma_cong_add(r.value() as int, pre.value() as int,
                signed_sum(rest_ts, rest_chi), acc.value() as int);
            assert(cong((pre.value() + acc.value()) as int, b.value() as int));
        }
    }
    r
}

/// The signed sum unfolds at the front: the first term plus the signed
/// sum of the rest.
proof fn lemma_signed_sum_first(ts: Seq<bool>, chi: Seq<nat>)
    requires
        ts.len() == chi.len(),
        ts.len() >= 1,
    ensures
        signed_sum(ts, chi) == (if ts.first() { -1int } else { 1int }) * chi.first()
            + signed_sum(ts.drop_first(), chi.drop_first()),
    decreases ts.len(),
{
    if ts.len() == 1 {
        assert(ts.drop_last() =~= Seq::<bool>::empty());
        assert(chi.drop_last() =~= Seq::<nat>::empty());
        assert(ts.drop_first() =~= Seq::<bool>::empty());
        assert(chi.drop_first() =~= Seq::<nat>::empty());
        assert(ts.first() == ts.last());
        assert(chi.first() == chi.last());
        assert(signed_sum(ts, chi) == signed_sum(ts.drop_last(), chi.drop_last())
            + (if ts.last() { -1int } else { 1int }) * chi.last());
        assert(signed_sum(ts.drop_first(), chi.drop_first()) == 0);
    } else {
        lemma_signed_sum_first(ts.drop_last(), chi.drop_last());
        assert(ts.drop_last().first() == ts.first());
        assert(chi.drop_last().first() == chi.first());
        assert(ts.drop_last().drop_first() =~= ts.drop_first().drop_last());
        assert(chi.drop_last().drop_first() =~= chi.drop_first().drop_last());
        assert(signed_sum(ts.drop_first(), chi.drop_first())
            == signed_sum(ts.drop_first().drop_last(), chi.drop_first().drop_last())
                + (if ts.drop_first().last() { -1int } else { 1int })
                    * chi.drop_first().last());
        assert(ts.drop_first().last() == ts.last());
        assert(chi.drop_first().last() == chi.last());
    }
}

/// The sender's side of the conversion, as a state machine: it masks `a`
/// into the random-OT pairs at once, and on the receiver's chosen first
/// weight and weight seed computes its share.
pub struct MtaSender {
    comms: Comms,
    h_weights: MessageHeader,
    to: Participant,
    pads: Vec<Scalar>,
    count: usize,
    result: Option<Scalar>,
    done: bool,
}

/// Start the conversion sender: mask `a` into the pairs and queue them.
///
/// The instance number keeps concurrent conversions between one pair of
/// parties on disjoint channels.
pub fn mta_sender(me: Participant, to: Participant, instance: u64,
    v: &Vec<(Scalar, Scalar)>, a: &Scalar) -> (r: MtaSender)
{
    let mut root = MessageHeader::private(me, to).child(instance);
    let w0 = root.next_waitpoint();
    let h_msgs = root.with_waitpoint(w0);
    let w1 = root.next_waitpoint();
    let h_weights = root.with_waitpoint(w1);
    let mut pads: Vec<Scalar> = Vec::new();
    let mut i: usize = 0;
    while i < v.len()
        invariant
            pads@.len() == i,
            i <= v@.len(),
        decreases v@.len() - i,
    {
        pads.push(crate::scalars::scalar_random());
        i = i + 1;
    }
    let c = mta_sender_msgs(v, &pads, a);
    let mut payload: Vec<u8> = Vec::new();
    let mut j: usize = 0;
    while j < c.len()
        decreases c@.len() - j,
    {
        append_scalar(&mut payload, &c[j].0);
        append_scalar(&mut payload, &c[j].1);
        j = j + 1;
    }
    let mut comms = Comms::new();
    comms.send_private(to, &h_msgs, &payload);
    let count = v.len();
    MtaSender { comms, h_weights, to, pads, count, result: None, done: false }
}

impl MtaSender {
    /// Consume the receiver's first weight and seed: derive the rest of
    /// the weights and compute the share.
    fn handle_weights(&mut self, payload: Vec<u8>) -> (r: Result<(), ProtocolError>)
        ensures
            final(self).comms.buffered() == old(self).comms.buffered(),
    {
        if payload.len() != 64 || self.count == 0 {
            return Err(ProtocolError::Other(String::from_str(
                "failed to decode message",
            )));
        }
        let chi1 = match read_scalar(&payload, 0) {
            Some(s) => s,
            None => {
                return Err(ProtocolError::Other(String::from_str(
                    "failed to decode message",
                )));
            }
        };
        let seed = crate::codec::take_bytes(&payload, 32, 32);
        let rest = derive_weights(&seed, self.count - 1);
        let mut chi: Vec<Scalar> = Vec::new();
        chi.push(chi1);
        let mut i: usize = 0;
        while i < rest.len()
            decreases rest@.len() - i,
        {
            chi.push(rest[i].clone());
            i = i + 1;
        }
        if chi.len() != self.pads.len() {
            return Err(ProtocolError::Other(String::from_str(
                "failed to decode message",
            )));
        }
        self.result = Some(mta_sender_share(&self.pads, &chi));
        Ok(())
    }

    fn poke_machine(&mut self) -> (r: Result<Action<Scalar>, ProtocolError>) {
        loop
            decreases self.comms.buffered().len(),
        {
            match self.comms.pop_outgoing() {
                Some(crate::protocol::Message::Many(data)) => {
                    return Ok(Action::SendMany(data));
                }
                Some(crate::protocol::Message::Private(to, data)) => {
                    return Ok(Action::SendPrivate(to, data));
                }
                None => {}
            }
            if self.done {
                return Ok(Action::Wait);
            }
            match &self.result {
                Some(_) => {
                    let mut taken: Option<Scalar> = None;
                    std::mem::swap(&mut taken, &mut self.result);
                    self.done = true;
                    match taken {
                        Some(out) => {
                            return Ok(Action::Return(out));
                        }
                        None => {
                            return Ok(Action::Wait);
                        }
                    }
                }
                None => {}
            }
            match self.comms.recv(&self.h_weights) {
                Some((from, payload)) => {
                    if from == self.to {
                        match self.handle_weights(payload) {
                            Ok(()) => {}
                            Err(e) => {
                                self.done = true;
                                return Err(e);
                            }
                        }
                    }
                }
                None => {
                    return Ok(Action::Wait);
                }
            }
        }
    }
}

impl Protocol for MtaSender {
    type Output = Scalar;

    fn poke(&mut self) -> Result<Action<Scalar>, ProtocolError> {
        self.poke_machine()
    }

    fn message(&mut self, from: Participant, data: MessageData) {
        self.comms.push_message(from, data);
    }
}

/// The receiver's side of the conversion: on the sender's masked pairs it
/// unmasks its chosen components, picks the weights so that their signed
/// sum is `b`, reveals the first weight and the seed, and keeps its share.
pub struct MtaReceiver {
    comms: Comms,
    h_msgs: MessageHeader,
    h_weights: MessageHeader,
    to: Participant,
    tv: Vec<(bool, Scalar)>,
    b: Scalar,
    result: Option<Scalar>,
    done: bool,
}

/// Start the conversion receiver with its random-OT outputs and input.
///
/// The instance number keeps concurrent conversions between one pair of
/// parties on disjoint channels.
pub fn mta_receiver(me: Participant, to: Participant, instance: u64,
    tv: Vec<(bool, Scalar)>, b: Scalar) -> (r: MtaReceiver)
{
    let mut root = MessageHeader::private(me, to).child(instance);
    let w0 = root.next_waitpoint();
    let h_msgs = root.with_waitpoint(w0);
    let w1 = root.next_waitpoint();
    let h_weights = root.with_waitpoint(w1);
    MtaReceiver {
        comms: Comms::new(),
        h_msgs,
        h_weights,
        to,
        tv,
        b,
        result: None,
        done: false,
    }
}

impl MtaReceiver {
    /// Consume the masked pairs: unmask, choose and reveal the weights,
    /// and compute the share.
    fn handle_msgs(&mut self, payload: Vec<u8>) -> (r: Result<(), ProtocolError>)
        ensures
            final(self).comms.buffered() == old(self).comms.buffered(),
    {
        let count = self.tv.len();
        if count == 0 {
            return Err(ProtocolError::AssertionFailed(String::from_str(
                "no transfers to convert",
            )));
        }
        if count >= usize::MAX / 64 || payload.len() != count * 64 {
            return Err(ProtocolError::Other(String::from_str(
                "failed to decode message",
            )));
        }
        let mut c: Vec<(Scalar, Scalar)> = Vec::new();
        let mut i: usize = 0;
        while i < count
            invariant
                self.comms.buffered() == old(self).comms.buffered(),
                payload@.len() == count * 64,
                count < usize::MAX / 64,
                i <= count,
                c@.len() == i,
            decreases count - i,
        {
            proof {
                assert(i * 64 + 64 <= count * 64) by (nonlinear_arith)
                    requires
                        i < count,
                ;
            }
            let c0 = match read_scalar(&payload, i * 64) {
                Some(s) => s,
                None => {
                    return Err(ProtocolError::Other(String::from_str(
                        "failed to decode message",
                    )));
                }
            };
            let c1 = match read_scalar(&payload, i * 64 + 32) {
                Some(s) => s,
                None => {
                    return Err(ProtocolError::Other(String::from_str(
                        "failed to decode message",
                    )));
                }
            };
            c.push((c0, c1));
            i = i + 1;
        }
        let m = mta_receiver_unmask(&self.tv, &c);
        let mut ts: Vec<bool> = Vec::new();
        let mut j: usize = 0;
        while j < self.tv.len()
            invariant
                ts@.len() == j,
                j <= self.tv@.len(),
            decreases self.tv@.len() - j,
        {
            ts.push(self.tv[j].0);
            j = j + 1;
        }
        let seed = crate::crypto::random_seed();
        let rest = derive_weights(&seed, count - 1);
        if ts.len() != rest.len() + 1 {
            return Err(ProtocolError::Other(String::from_str(
                "failed to decode message",
            )));
        }
        let chi1 = mta_choose_first_weight(&ts, &rest, &self.b);
        let mut reply = chi1.to_bytes();
        append_bytes(&mut reply, &seed);
        self.comms.send_private(self.to, &self.h_weights, &reply);
        let mut chi: Vec<Scalar> = Vec::new();
        chi.push(chi1);
        let mut k: usize = 0;
        while k < rest.len()
            decreases rest@.len() - k,
        {
            chi.push(rest[k].clone());
            k = k + 1;
        }
        if chi.len() != m.len() {
            return Err(ProtocolError::Other(String::from_str(
                "failed to decode message",
            )));
        }
        self.result = Some(mta_receiver_share(&chi, &m));
        Ok(())
    }

    fn poke_machine(&mut self) -> (r: Result<Action<Scalar>, ProtocolError>) {
        loop
            decreases self.comms.buffered().len(),
        {
            match self.comms.pop_outgoing() {
                Some(crate::protocol::Message::Many(data)) => {
                    return Ok(Action::SendMany(data));
                }
                Some(crate::protocol::Message::Private(to, data)) => {
                    return Ok(Action::SendPrivate(to, data));
                }
                None => {}
            }
            if self.done {
                return Ok(Action::Wait);
            }
            match &self.result {
                Some(_) => {
                    let mut taken: Option<Scalar> = None;
                    std::mem::swap(&mut taken, &mut self.result);
                    self.done = true;
                    match taken {
                        Some(out) => {
                            return Ok(Action::Return(out));
                        }
                        None => {
                            return Ok(Action::Wait);
                        }
                    }
                }
                None => {}
            }
            match self.comms.recv(&self.h_msgs) {
                Some((from, payload)) => {
                    if from == self.to {
                        match self.handle_msgs(payload) {
                            Ok(()) => {}
                            Err(e) => {
                                self.done = true;
                                return Err(e);
                            }
                        }
                    }
                }
                None => {
                    return Ok(Action::Wait);
                }
            }
        }
    }
}

impl Protocol for MtaReceiver {
    type Output = Scalar;

    fn poke(&mut self) -> Result<Action<Scalar>, ProtocolError> {
        self.poke_machine()
    }

    fn message(&mut self, from: Participant, data: MessageData) {
        self.comms.push_message(from, data);
    }
}

} // verus!
