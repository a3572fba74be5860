use cait_sith::bits::{BitVector, BitMatrix, SquareBitMatrix};
use cait_sith::correlated_ot::{CorrelatedOtParams, correlated_ot_sender, correlated_ot_receiver};
use cait_sith::random_ot_extension::{adjust_size, check_column, weighted_col_sum, RandomOtExtensionParams, random_ot_extension_sender, random_ot_extension_receiver};
use cait_sith::mta::{mta_sender_msgs, mta_receiver_unmask, mta_sender_share, mta_receiver_share, mta_choose_first_weight, derive_weights};
use cait_sith::scalars::{Scalar, scalar_random, scalar_add, scalar_mul};
use cait_sith::multiplication::{multiplication_combine, multiplication};
use cait_sith::participants::ParticipantList;
use cait_sith::scalars::{scalar_neg, scalar_is_high};
use cait_sith::sign::normalize_s;
use cait_sith::protocol::run_two_party_protocol;
use cait_sith::batch_random_ot::{batch_random_ot_sender, batch_random_ot_receiver};

fn random_square() -> SquareBitMatrix {
    SquareBitMatrix::new(BitMatrix::random(128)).unwrap()
}

/// Run the correlated OT computations directly, with base key material
/// satisfying the base-OT selection relation, and check the correlation.
#[test]
fn test_correlated_ot() {
    let batch_size = 256usize;
    let k0 = random_square();
    let k1 = random_square();
    let delta = BitVector::random();
    // The sender's seed rows are the rows its choice bits select.
    let mut rows = Vec::new();
    for j in 0..128 {
        let selected = BitVector::conditional_select(
            &k0.matrix.rows()[j],
            &k1.matrix.rows()[j],
            delta.bit(j) == 1,
        );
        rows.push(selected);
    }
    let k = SquareBitMatrix::new(BitMatrix::from_rows(rows)).unwrap();

    let x = BitMatrix::random(batch_size);
    let params = CorrelatedOtParams { sid: b"test sid".to_vec(), batch_size };
    let (t0, u) = correlated_ot_receiver(&params, &k0, &k1, &x);
    let q = correlated_ot_sender(&params, &delta, &k, &u).unwrap();

    // Row-wise: t0 xor (x and delta) == q.
    let expected = t0.xor(&x.and_vec(&delta));
    assert_eq!(expected, q);
}

#[test]
fn test_adjust_size() {
    assert_eq!(adjust_size(16), 128 + 256);
    assert_eq!(adjust_size(128), 128 + 256);
    assert_eq!(adjust_size(129), 256 + 256);
}

#[test]
fn test_check_column() {
    let chunks = vec![BitVector::random(), BitVector::random()];
    let chi = vec![BitVector::random(), BitVector::random()];
    let good = weighted_col_sum(&chunks, &chi);
    assert!(check_column(&chunks, &chi, &good));
    let bad = good.xor(&cait_sith::bits::DoubleBitVector::from_words(1, 0, 0, 0));
    assert!(!check_column(&chunks, &chi, &bad));
}

/// Run one multiplicative-to-additive conversion on synthesized random
/// OTs, returning the two additive shares of `a * b`.
fn run_mta(a: &Scalar, b: &Scalar, size: usize) -> (Scalar, Scalar) {
    // Synthesize the random OT outputs.
    let mut v = Vec::new();
    let mut tv = Vec::new();
    let mut ts = Vec::new();
    for i in 0..size {
        let v0 = scalar_random();
        let v1 = scalar_random();
        let t = (i * 7 + 3) % 2 == 0;
        tv.push((t, if t { v1.clone() } else { v0.clone() }));
        ts.push(t);
        v.push((v0, v1));
    }
    // Sender: mask `a` into the pairs.
    let mut pads = Vec::new();
    for _ in 0..size {
        pads.push(scalar_random());
    }
    let c = mta_sender_msgs(&v, &pads, a);
    // Receiver: unmask, choose the weights.
    let m = mta_receiver_unmask(&tv, &c);
    let seed = vec![0xA5u8; 32];
    let rest = derive_weights(&seed, size - 1);
    let chi1 = mta_choose_first_weight(&ts, &rest, b);
    let mut chi = vec![chi1];
    chi.extend(rest);
    // Shares.
    let alpha = mta_sender_share(&pads, &chi);
    let beta = mta_receiver_share(&chi, &m);
    (alpha, beta)
}

#[test]
fn test_mta() {
    let size = 256 + 128;
    let a = scalar_random();
    let b = scalar_random();
    let (alpha, beta) = run_mta(&a, &b, size);
    assert_eq!(scalar_add(&alpha, &beta), scalar_mul(&a, &b));
}

/// Multi-party multiplication over the pure conversion functions: each
/// pair runs two conversions, each party adds its local product; the
/// shares sum to the product of the sums.
#[test]
fn test_multiplication_shares() {
    let a_vals = [1u64, 2, 3];
    let b_vals = [10u64, 20, 30];
    let a: Vec<Scalar> = a_vals.iter().map(|v| cait_sith::scalars::scalar_from_u64(*v)).collect();
    let b: Vec<Scalar> = b_vals.iter().map(|v| cait_sith::scalars::scalar_from_u64(*v)).collect();
    let size = 256 + 128;

    // pairwise[i] collects party i's conversion outputs.
    let mut pairwise: Vec<Vec<Scalar>> = vec![Vec::new(), Vec::new(), Vec::new()];
    for i in 0..3 {
        for j in (i + 1)..3 {
            // a_i * b_j, with i as sender.
            let (alpha, beta) = run_mta(&a[i], &b[j], size);
            pairwise[i].push(alpha);
            pairwise[j].push(beta);
            // b_i * a_j, with i as sender.
            let (alpha, beta) = run_mta(&b[i], &a[j], size);
            pairwise[i].push(alpha);
            pairwise[j].push(beta);
        }
    }
    let mut total = cait_sith::scalars::scalar_from_u64(0);
    for i in 0..3 {
        let c_i = multiplication_combine(&a[i], &b[i], &pairwise[i]);
        total = scalar_add(&total, &c_i);
    }
    // (1 + 2 + 3) * (10 + 20 + 30) = 360.
    assert_eq!(total, cait_sith::scalars::scalar_from_u64(360));
}

#[test]
fn test_presign_nonce_zero_fails() {
    let zero = cait_sith::scalars::scalar_from_u64(0);
    let one = cait_sith::scalars::scalar_from_u64(1);
    let d = cait_sith::points::generator_mul(&one);
    assert!(cait_sith::presign::presign_nonce(&d, &zero).is_err());
    assert!(cait_sith::presign::presign_nonce(&d, &one).is_ok());
}

#[test]
fn test_normalize_s_low_half() {
    let low = cait_sith::scalars::scalar_from_u64(5);
    // A high scalar: the negation of a small nonzero one.
    let high = scalar_neg(&low);
    assert!(scalar_is_high(&high));
    let normalized = normalize_s(&high);
    assert!(!scalar_is_high(&normalized));
    assert_eq!(normalized, low);
    // A low scalar is left alone.
    assert_eq!(normalize_s(&low), low);
}

/// Run the batch random OT between two parties and check that the
/// receiver's matrix holds, row for row, the sender's key its choice bit
/// selects.
#[test]
fn test_batch_random_ot() {
    let s = cait_sith::protocol::Participant::from(0u32);
    let r = cait_sith::protocol::Participant::from(1u32);
    let mut sender = batch_random_ot_sender(s, r, 0);
    let mut receiver = batch_random_ot_receiver(r, s, 0);
    let ((k0, k1), (delta, k_delta)) =
        run_two_party_protocol(s, r, &mut sender, &mut receiver).unwrap();

    for i in 0..128 {
        let expected = BitVector::conditional_select(
            &k0.matrix.rows()[i],
            &k1.matrix.rows()[i],
            delta.bit(i) == 1,
        );
        assert_eq!(expected, k_delta.matrix.rows()[i]);
    }
}

/// Ten instances run in lock step over shared per-bit channels; every
/// instance individually satisfies the selection property.
#[test]
fn test_batch_random_ot_many() {
    const N: usize = 10;
    let s = cait_sith::protocol::Participant::from(0u32);
    let r = cait_sith::protocol::Participant::from(1u32);
    let mut sender = cait_sith::batch_random_ot::batch_random_ot_sender_many(s, r, N);
    let mut receiver = cait_sith::batch_random_ot::batch_random_ot_receiver_many(r, s, N);
    let (a, b) = run_two_party_protocol(s, r, &mut sender, &mut receiver).unwrap();
    assert_eq!(a.len(), N);
    assert_eq!(b.len(), N);
    for j in 0..N {
        let (k0, k1) = &a[j];
        let (delta, k_delta) = &b[j];
        for i in 0..128 {
            let expected = BitVector::conditional_select(
                &k0.matrix.rows()[i],
                &k1.matrix.rows()[i],
                delta.bit(i) == 1,
            );
            assert_eq!(expected, k_delta.matrix.rows()[i]);
        }
    }
}

/// Run the base OT and the extension between two parties: the receiver's
/// scalar for each row is the component of the sender's pair that its
/// choice bit selects.
#[test]
fn test_random_ot() {
    let s = cait_sith::protocol::Participant::from(0u32);
    let r = cait_sith::protocol::Participant::from(1u32);
    // Base: the extension sender is the base receiver and vice versa.
    let mut base_sender = batch_random_ot_sender(s, r, 0);
    let mut base_receiver = batch_random_ot_receiver(r, s, 0);
    let ((k0, k1), (delta, k)) =
        run_two_party_protocol(s, r, &mut base_sender, &mut base_receiver).unwrap();

    let batch_size = 16usize;
    let mut ext_sender = random_ot_extension_sender(
        r,
        s,
        0,
        RandomOtExtensionParams { sid: b"test sid".to_vec(), batch_size },
        delta,
        k,
    );
    let mut ext_receiver = random_ot_extension_receiver(
        s,
        r,
        0,
        RandomOtExtensionParams { sid: b"test sid".to_vec(), batch_size },
        k0,
        k1,
    )
    .unwrap();
    let (sender_out, receiver_out) =
        run_two_party_protocol(r, s, &mut ext_sender, &mut ext_receiver).unwrap();

    assert_eq!(sender_out.len(), batch_size);
    assert_eq!(receiver_out.len(), batch_size);
    for ((v0_i, v1_i), (b_i, vb_i)) in sender_out.iter().zip(receiver_out.iter()) {
        let expected = if *b_i { v1_i } else { v0_i };
        assert_eq!(vb_i, expected);
    }
}

/// The whole pipeline as protocols: base OT, extension, then the
/// conversion; the two shares must sum to the product.
#[test]
fn test_mta_protocol() {
    let s = cait_sith::protocol::Participant::from(0u32);
    let r = cait_sith::protocol::Participant::from(1u32);
    let mut base_sender = batch_random_ot_sender(s, r, 0);
    let mut base_receiver = batch_random_ot_receiver(r, s, 0);
    let ((k0, k1), (delta, k)) =
        run_two_party_protocol(s, r, &mut base_sender, &mut base_receiver).unwrap();

    let batch_size = 256 + 128;
    let mut ext_sender = random_ot_extension_sender(
        r,
        s,
        0,
        RandomOtExtensionParams { sid: b"mta sid".to_vec(), batch_size },
        delta,
        k,
    );
    let mut ext_receiver = random_ot_extension_receiver(
        s,
        r,
        0,
        RandomOtExtensionParams { sid: b"mta sid".to_vec(), batch_size },
        k0,
        k1,
    )
    .unwrap();
    let (v, tv) = run_two_party_protocol(r, s, &mut ext_sender, &mut ext_receiver).unwrap();

    let a = scalar_random();
    let b = scalar_random();
    let mut conv_sender = cait_sith::mta::mta_sender(r, s, 2, &v, &a);
    let mut conv_receiver = cait_sith::mta::mta_receiver(s, r, 2, tv, b.clone());
    let (alpha, beta) =
        run_two_party_protocol(r, s, &mut conv_sender, &mut conv_receiver).unwrap();
    assert_eq!(scalar_add(&alpha, &beta), scalar_mul(&a, &b));
}


/// The full multi-party multiplication protocol: three parties, each pair
/// running base OT, extension and two conversions over the message-driven
/// machines; the outputs sum to the product of the summed inputs.
#[test]
fn test_multiplication() {
    let participants = vec![
        cait_sith::protocol::Participant::from(0u32),
        cait_sith::protocol::Participant::from(1u32),
        cait_sith::protocol::Participant::from(2u32),
    ];
    let list = ParticipantList::new(&participants).unwrap();
    let sid = cait_sith::crypto::hash(&b"sid".to_vec()).to_bytes();

    let prep: Vec<(cait_sith::protocol::Participant, Scalar, Scalar)> = participants
        .iter()
        .map(|p| (*p, scalar_random(), scalar_random()))
        .collect();
    let mut a = cait_sith::scalars::scalar_from_u64(0);
    let mut b = cait_sith::scalars::scalar_from_u64(0);
    for (_, a_i, b_i) in prep.iter() {
        a = scalar_add(&a, a_i);
        b = scalar_add(&b, b_i);
    }

    let mut protocols = Vec::new();
    for (p, a_i, b_i) in prep.into_iter() {
        let prot = multiplication(&list, p, 0, &sid, a_i, b_i);
        protocols.push((p, prot));
    }
    let result = cait_sith::protocol::run_protocol(protocols).unwrap();
    let mut c = cait_sith::scalars::scalar_from_u64(0);
    for (_, c_i) in result.into_iter() {
        c = scalar_add(&c, &c_i);
    }
    assert_eq!(scalar_mul(&a, &b), c);
}

/// The many-pair multi-party multiplication protocol: per instance, the
/// parties' outputs sum to the product of the summed inputs.
#[test]
fn test_multiplication_many() {
    let participants = vec![
        cait_sith::protocol::Participant::from(0u32),
        cait_sith::protocol::Participant::from(1u32),
        cait_sith::protocol::Participant::from(2u32),
    ];
    let list = ParticipantList::new(&participants).unwrap();
    let sid = cait_sith::crypto::hash(&b"sid many".to_vec()).to_bytes();
    const N: usize = 2;

    // Per party, N (a, b) input pairs.
    let mut inputs: Vec<Vec<(Scalar, Scalar)>> = Vec::new();
    for _ in 0..3 {
        let mut pairs = Vec::new();
        for _ in 0..N {
            pairs.push((scalar_random(), scalar_random()));
        }
        inputs.push(pairs);
    }
    let mut protocols = Vec::new();
    for (idx, p) in participants.iter().enumerate() {
        let prot = cait_sith::multiplication::multiplication_many(&list, *p, &sid, &inputs[idx]);
        protocols.push((*p, prot));
    }
    let mut result = cait_sith::protocol::run_protocol(protocols).unwrap();
    result.sort_by_key(|(p, _)| *p);

    for inst in 0..N {
        let mut a = cait_sith::scalars::scalar_from_u64(0);
        let mut b = cait_sith::scalars::scalar_from_u64(0);
        for party in 0..3 {
            a = scalar_add(&a, &inputs[party][inst].0);
            b = scalar_add(&b, &inputs[party][inst].1);
        }
        let mut c = cait_sith::scalars::scalar_from_u64(0);
        for (_, outs) in result.iter() {
            c = scalar_add(&c, &outs[inst]);
        }
        assert_eq!(scalar_mul(&a, &b), c);
    }
}
