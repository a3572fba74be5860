use cait_sith::protocol::{run_protocol, Participant};
use cait_sith::participants::ParticipantList;
use cait_sith::scalars::{scalar_add, scalar_mul};
use cait_sith::points::generator_mul;
use cait_sith::generation::generate_triple;
use cait_sith::triples::{TripleShare, TriplePub};
use cait_sith::Scalar;
use cait_sith::{keygen, presign, sign, PresignArguments};
use k256::elliptic_curve::ops::Reduce;
use sha2::Digest;
use cait_sith::triple_setup::setup;
use cait_sith::generation::generate_triple_many;

fn reconstruct(
    list: &ParticipantList,
    participants: &Vec<Participant>,
    shares: &Vec<Scalar>,
) -> Scalar {
    let mut acc = cait_sith::scalars::scalar_from_u64(0);
    for (p, s) in participants.iter().zip(shares.iter()) {
        acc = scalar_add(&acc, &scalar_mul(&list.lagrange(*p), s));
    }
    acc
}

#[test]
fn test_triple_generation() {
    let participants = vec![
        Participant::from(0u32),
        Participant::from(1u32),
        Participant::from(2u32),
    ];
    let threshold = 3;

    let mut protocols = Vec::with_capacity(participants.len());
    for &p in &participants {
        let protocol = generate_triple(&participants, p, threshold);
        assert!(protocol.is_ok());
        protocols.push((p, protocol.unwrap()));
    }

    let mut result: Vec<(Participant, (TripleShare, TriplePub))> =
        run_protocol(protocols).unwrap();
    result.sort_by_key(|(p, _)| *p);

    assert!(result.len() == participants.len());
    assert_eq!(result[0].1 .1, result[1].1 .1);
    assert_eq!(result[1].1 .1, result[2].1 .1);

    let triple_pub = result[2].1 .1.clone();

    let participants = vec![result[0].0, result[1].0, result[2].0];
    let triple_shares = vec![
        result[0].1 .0.clone(),
        result[1].1 .0.clone(),
        result[2].1 .0.clone(),
    ];
    let p_list = ParticipantList::new(&participants).unwrap();

    let a_shares = triple_shares.iter().map(|t| t.a.clone()).collect();
    let a = reconstruct(&p_list, &participants, &a_shares);
    assert_eq!(generator_mul(&a), triple_pub.big_a);

    let b_shares = triple_shares.iter().map(|t| t.b.clone()).collect();
    let b = reconstruct(&p_list, &participants, &b_shares);
    assert_eq!(generator_mul(&b), triple_pub.big_b);

    let c_shares = triple_shares.iter().map(|t| t.c.clone()).collect();
    let c = reconstruct(&p_list, &participants, &c_shares);
    assert_eq!(generator_mul(&c), triple_pub.big_c);

    assert_eq!(scalar_mul(&a, &b), c);
}

/// Generated triples feed the rest of the pipeline: presign with two
/// generated triples and sign, end to end.
#[test]
fn test_triple_generation_feeds_signing() {
    let participants = vec![
        Participant::from(0u32),
        Participant::from(1u32),
        Participant::from(2u32),
    ];
    let t = 3;

    let mut keygen_protocols = Vec::new();
    for &p in &participants {
        keygen_protocols.push((p, keygen(&participants, p, t).unwrap()));
    }
    let mut keygen_result = run_protocol(keygen_protocols).unwrap();
    keygen_result.sort_by_key(|(p, _)| *p);
    let public_key = keygen_result[0].1.public_key.clone();

    let mut triples0 = Vec::new();
    let mut triples1 = Vec::new();
    for round in 0..2 {
        let mut protocols = Vec::new();
        for &p in &participants {
            protocols.push((p, generate_triple(&participants, p, t).unwrap()));
        }
        let mut result = run_protocol(protocols).unwrap();
        result.sort_by_key(|(p, _)| *p);
        if round == 0 {
            triples0 = result;
        } else {
            triples1 = result;
        }
    }
    let pub0 = triples0[0].1 .1.clone();
    let pub1 = triples1[0].1 .1.clone();

    let mut presign_protocols = Vec::new();
    for (i, (p, keygen_out)) in keygen_result.into_iter().enumerate() {
        let protocol = presign(
            &participants,
            p,
            PresignArguments {
                triple0: (triples0[i].1 .0.clone(), pub0.clone()),
                triple1: (triples1[i].1 .0.clone(), pub1.clone()),
                keygen_out,
                threshold: t,
            },
        )
        .unwrap();
        presign_protocols.push((p, protocol));
    }
    let mut presign_result = run_protocol(presign_protocols).unwrap();
    presign_result.sort_by_key(|(p, _)| *p);

    let digest = sha2::Sha256::digest(b"hello world");
    let m = <k256::Scalar as Reduce<k256::U256>>::reduce_bytes(&digest);
    let msg_hash = Scalar::from_bytes(&m.to_bytes().to_vec()).unwrap();

    let mut sign_protocols = Vec::new();
    for (p, presign_out) in presign_result.into_iter() {
        let protocol = sign(
            &participants,
            p,
            public_key.clone(),
            presign_out,
            msg_hash.clone(),
        )
        .unwrap();
        sign_protocols.push((p, protocol));
    }
    let sign_result = run_protocol(sign_protocols).unwrap();
    let sig = sign_result[0].1.clone();
    assert!(sig.verify(&public_key, &msg_hash));
}

/// The one-time setup: every pair runs a base transfer, and the result
/// covers every other participant.
#[test]
fn test_setup() {
    let participants = vec![
        Participant::from(0u32),
        Participant::from(1u32),
        Participant::from(2u32),
    ];
    let mut protocols = Vec::new();
    for &p in &participants {
        protocols.push((p, setup(&participants, p).unwrap()));
    }
    let result = run_protocol(protocols).unwrap();
    let list = ParticipantList::new(&participants).unwrap();
    for (p, s) in result.iter() {
        assert!(s.can_be_used_for(*p, &list));
    }
    // A setup for one group does not cover a larger one.
    let bigger = vec![
        Participant::from(0u32),
        Participant::from(1u32),
        Participant::from(2u32),
        Participant::from(3u32),
    ];
    let bigger_list = ParticipantList::new(&bigger).unwrap();
    assert!(!result[0].1.can_be_used_for(result[0].0, &bigger_list));
}

#[test]
fn test_triple_generation_many() {
    const N: usize = 1;
    let participants = vec![
        Participant::from(0u32),
        Participant::from(1u32),
        Participant::from(2u32),
    ];
    let threshold = 3;

    let mut protocols = Vec::with_capacity(participants.len());
    for &p in &participants {
        let protocol = generate_triple_many(&participants, p, threshold, N);
        assert!(protocol.is_ok());
        protocols.push((p, protocol.unwrap()));
    }

    let mut result = run_protocol(protocols).unwrap();
    result.sort_by_key(|(p, _)| *p);

    assert!(result.len() == participants.len());
    assert_eq!(result[0].1[0].1, result[1].1[0].1);
    assert_eq!(result[1].1[0].1, result[2].1[0].1);

    let triple_pub = result[2].1[0].1.clone();

    let participants = vec![result[0].0, result[1].0, result[2].0];
    let triple_shares = vec![
        result[0].1[0].0.clone(),
        result[1].1[0].0.clone(),
        result[2].1[0].0.clone(),
    ];
    let p_list = ParticipantList::new(&participants).unwrap();

    let a_shares = triple_shares.iter().map(|t| t.a.clone()).collect();
    let a = reconstruct(&p_list, &participants, &a_shares);
    assert_eq!(generator_mul(&a), triple_pub.big_a);

    let b_shares = triple_shares.iter().map(|t| t.b.clone()).collect();
    let b = reconstruct(&p_list, &participants, &b_shares);
    assert_eq!(generator_mul(&b), triple_pub.big_b);

    let c_shares = triple_shares.iter().map(|t| t.c.clone()).collect();
    let c = reconstruct(&p_list, &participants, &c_shares);
    assert_eq!(generator_mul(&c), triple_pub.big_c);

    assert_eq!(scalar_mul(&a, &b), c);
}
