use cait_sith::{keygen, refresh, reshare, KeygenOutput, Scalar};
use cait_sith::protocol::{run_protocol, Participant};
use cait_sith::participants::ParticipantList;
use cait_sith::scalars::{scalar_add, scalar_mul};
use cait_sith::points::generator_mul;

fn do_keygen(
    participants: &Vec<Participant>,
    threshold: usize,
) -> Vec<(Participant, KeygenOutput)> {
    let mut protocols = Vec::with_capacity(participants.len());
    for p in participants.iter() {
        let protocol = keygen(participants, *p, threshold).unwrap();
        protocols.push((*p, protocol));
    }
    let mut result = run_protocol(protocols).unwrap();
    result.sort_by_key(|(p, _)| *p);
    result
}

fn reconstruct(participants: &Vec<Participant>, shares: &Vec<Scalar>) -> Scalar {
    let list = ParticipantList::new(participants).unwrap();
    let mut acc = cait_sith::scalars::scalar_from_u64(0);
    for (p, s) in participants.iter().zip(shares.iter()) {
        let lambda = list.lagrange(*p);
        acc = scalar_add(&acc, &scalar_mul(&lambda, s));
    }
    acc
}

#[test]
fn keygen_test_keygen() {
    let participants = vec![
        Participant::from(0u32),
        Participant::from(1u32),
        Participant::from(2u32),
    ];
    let threshold = 3;

    let result = do_keygen(&participants, threshold);
    assert!(result.len() == participants.len());
    assert_eq!(result[0].1.public_key, result[1].1.public_key);
    assert_eq!(result[1].1.public_key, result[2].1.public_key);

    let pub_key = result[2].1.public_key.clone();
    let participants = vec![result[0].0, result[1].0, result[2].0];
    let shares = vec![
        result[0].1.private_share.clone(),
        result[1].1.private_share.clone(),
        result[2].1.private_share.clone(),
    ];
    let x = reconstruct(&participants, &shares);
    assert_eq!(generator_mul(&x), pub_key);
}

#[test]
fn keyshare_test_keygen() {
    let participants = vec![
        Participant::from(0u32),
        Participant::from(1u32),
        Participant::from(2u32),
    ];
    let threshold = 3;

    let result = do_keygen(&participants, threshold);
    assert!(result.len() == participants.len());
    assert_eq!(result[0].1.public_key, result[1].1.public_key);
    assert_eq!(result[1].1.public_key, result[2].1.public_key);

    let pub_key = result[2].1.public_key.clone();

    let participants = vec![result[0].0, result[1].0, result[2].0];
    let shares = vec![
        result[0].1.private_share.clone(),
        result[1].1.private_share.clone(),
        result[2].1.private_share.clone(),
    ];
    let x = reconstruct(&participants, &shares);
    assert_eq!(generator_mul(&x), pub_key);
}

#[test]
fn test_refresh() {
    let participants = vec![
        Participant::from(0u32),
        Participant::from(1u32),
        Participant::from(2u32),
    ];
    let threshold = 3;

    let result0 = do_keygen(&participants, threshold);
    let pub_key = result0[2].1.public_key.clone();

    let mut protocols = Vec::with_capacity(participants.len());
    for (p, out) in result0.iter() {
        let protocol = refresh(
            &participants,
            threshold,
            *p,
            out.private_share.clone(),
            out.public_key.clone(),
        )
        .unwrap();
        protocols.push((*p, protocol));
    }
    let mut result1 = run_protocol(protocols).unwrap();
    result1.sort_by_key(|(p, _)| *p);

    let participants = vec![result1[0].0, result1[1].0, result1[2].0];
    let shares = vec![
        result1[0].1.clone(),
        result1[1].1.clone(),
        result1[2].1.clone(),
    ];
    let x = reconstruct(&participants, &shares);
    assert_eq!(generator_mul(&x), pub_key);
}

#[test]
fn test_reshare() {
    let participants = vec![
        Participant::from(0u32),
        Participant::from(1u32),
        Participant::from(2u32),
        Participant::from(3u32),
    ];
    let threshold0 = 3;
    let threshold1 = 4;

    let old_participants: Vec<Participant> = participants[..3].to_vec();
    let result0 = do_keygen(&old_participants, threshold0);
    let pub_key = result0[2].1.public_key.clone();

    let mut setup: Vec<(Participant, (Option<Scalar>, cait_sith::Point))> = result0
        .into_iter()
        .map(|(p, out)| (p, (Some(out.private_share), out.public_key)))
        .collect();
    setup.push((Participant::from(3u32), (None, pub_key.clone())));

    let mut protocols = Vec::with_capacity(participants.len());
    for (p, (share, key)) in setup.iter() {
        let protocol = reshare(
            &old_participants,
            threshold0,
            &participants,
            threshold1,
            *p,
            share.clone(),
            key.clone(),
        )
        .unwrap();
        protocols.push((*p, protocol));
    }
    let mut result1 = run_protocol(protocols).unwrap();
    result1.sort_by_key(|(p, _)| *p);

    let participants = vec![result1[0].0, result1[1].0, result1[2].0, result1[3].0];
    let shares = vec![
        result1[0].1.clone(),
        result1[1].1.clone(),
        result1[2].1.clone(),
        result1[3].1.clone(),
    ];
    let x = reconstruct(&participants, &shares);
    assert_eq!(generator_mul(&x), pub_key);
}

#[test]
fn test_keygen_bad_parameters() {
    let participants = vec![
        Participant::from(0u32),
        Participant::from(1u32),
        Participant::from(2u32),
    ];
    // Threshold larger than the count.
    assert!(keygen(&participants, participants[0], 4).is_err());
    // Duplicate participants.
    let dup = vec![
        Participant::from(0u32),
        Participant::from(0u32),
        Participant::from(2u32),
    ];
    assert!(keygen(&dup, dup[0], 2).is_err());
    // A participant who is not in the list.
    assert!(keygen(&participants, Participant::from(9u32), 2).is_err());
    // A zero threshold passes initialization; such a run aborts later,
    // when the opened polynomials fail the length check.
    assert!(keygen(&participants, participants[0], 0).is_ok());
    // All fine.
    assert!(keygen(&participants, participants[1], 2).is_ok());
}
