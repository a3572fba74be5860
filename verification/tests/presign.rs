use cait_sith::{presign, KeygenOutput, PresignArguments, PresignOutput};
use cait_sith::protocol::{run_protocol, Participant};
use cait_sith::participants::ParticipantList;
use cait_sith::math::Polynomial;
use cait_sith::scalars::{scalar_add, scalar_mul, scalar_invert};
use cait_sith::points::generator_mul;
use cait_sith::triples;

#[test]
fn test_presign() {
    let participants = vec![
        Participant::from(0u32),
        Participant::from(1u32),
        Participant::from(2u32),
        Participant::from(3u32),
    ];
    let original_threshold = 2;
    let f = Polynomial::random(original_threshold);
    let big_x = generator_mul(&f.evaluate_zero());
    let threshold = 2;

    let (triple0_pub, triple0_shares) = triples::deal(&participants, original_threshold);
    let (triple1_pub, triple1_shares) = triples::deal(&participants, original_threshold);

    let mut protocols = Vec::with_capacity(participants.len());
    for ((p, triple0), triple1) in participants
        .iter()
        .take(3)
        .zip(triple0_shares.into_iter())
        .zip(triple1_shares.into_iter())
    {
        let protocol = presign(
            &participants[..3].to_vec(),
            *p,
            PresignArguments {
                triple0: (triple0, triple0_pub.clone()),
                triple1: (triple1, triple1_pub.clone()),
                keygen_out: KeygenOutput {
                    private_share: f.evaluate(&p.scalar()),
                    public_key: big_x.clone(),
                },
                threshold,
            },
        );
        assert!(protocol.is_ok());
        protocols.push((*p, protocol.unwrap()));
    }

    let result = run_protocol(protocols);
    assert!(result.is_ok());
    let mut result: Vec<(Participant, PresignOutput)> = result.unwrap();
    result.sort_by_key(|(p, _)| *p);

    assert!(result.len() == 3);
    assert_eq!(result[0].1.big_r, result[1].1.big_r);
    assert_eq!(result[1].1.big_r, result[2].1.big_r);

    let big_k = result[2].1.big_r.clone();

    let participants = vec![result[0].0, result[1].0];
    let k_shares = vec![result[0].1.k.clone(), result[1].1.k.clone()];
    let sigma_shares = vec![result[0].1.sigma.clone(), result[1].1.sigma.clone()];
    let p_list = ParticipantList::new(&participants).unwrap();
    let k = scalar_add(
        &scalar_mul(&p_list.lagrange(participants[0]), &k_shares[0]),
        &scalar_mul(&p_list.lagrange(participants[1]), &k_shares[1]),
    );
    assert_eq!(generator_mul(&scalar_invert(&k).unwrap()), big_k);
    let sigma = scalar_add(
        &scalar_mul(&p_list.lagrange(participants[0]), &sigma_shares[0]),
        &scalar_mul(&p_list.lagrange(participants[1]), &sigma_shares[1]),
    );
    assert_eq!(sigma, scalar_mul(&k, &f.evaluate_zero()));
}

#[test]
fn test_presign_requires_membership() {
    let participants = vec![
        Participant::from(0u32),
        Participant::from(1u32),
        Participant::from(2u32),
    ];
    let (pub0, shares0) = triples::deal(&participants, 2);
    let (pub1, shares1) = triples::deal(&participants, 2);
    let f = Polynomial::random(2);
    let big_x = generator_mul(&f.evaluate_zero());
    let outsider = Participant::from(9u32);
    let result = presign(
        &participants,
        outsider,
        PresignArguments {
            triple0: (shares0[0].clone(), pub0),
            triple1: (shares1[0].clone(), pub1),
            keygen_out: KeygenOutput {
                private_share: f.evaluate(&outsider.scalar()),
                public_key: big_x,
            },
            threshold: 2,
        },
    );
    assert!(result.is_err());
}

#[test]
fn test_presign_mismatched_thresholds() {
    let participants = vec![
        Participant::from(0u32),
        Participant::from(1u32),
        Participant::from(2u32),
    ];
    let (pub0, shares0) = triples::deal(&participants, 2);
    let (pub1, shares1) = triples::deal(&participants, 3);
    let f = Polynomial::random(2);
    let big_x = generator_mul(&f.evaluate_zero());
    let p = participants[0];
    let result = presign(
        &participants,
        p,
        PresignArguments {
            triple0: (shares0[0].clone(), pub0),
            triple1: (shares1[0].clone(), pub1),
            keygen_out: KeygenOutput {
                private_share: f.evaluate(&p.scalar()),
                public_key: big_x,
            },
            threshold: 2,
        },
    );
    assert!(result.is_err());
}

/// A dealt triple reconstructs correctly: for a threshold subset, the
/// Lagrange-weighted share sums map to the public points under the
/// generator, and the product of the first two equals the third.
#[test]
fn test_deal_reconstruction() {
    let participants = vec![
        Participant::from(0u32),
        Participant::from(1u32),
        Participant::from(2u32),
    ];
    let threshold = 2;
    let (pub_part, shares) = triples::deal(&participants, threshold);

    // Any threshold-sized subset reconstructs: use the first two.
    let subset = vec![participants[0], participants[1]];
    let p_list = ParticipantList::new(&subset).unwrap();
    let l0 = p_list.lagrange(subset[0]);
    let l1 = p_list.lagrange(subset[1]);
    let a = scalar_add(&scalar_mul(&l0, &shares[0].a), &scalar_mul(&l1, &shares[1].a));
    let b = scalar_add(&scalar_mul(&l0, &shares[0].b), &scalar_mul(&l1, &shares[1].b));
    let c = scalar_add(&scalar_mul(&l0, &shares[0].c), &scalar_mul(&l1, &shares[1].c));
    assert_eq!(generator_mul(&a), pub_part.big_a);
    assert_eq!(generator_mul(&b), pub_part.big_b);
    assert_eq!(generator_mul(&c), pub_part.big_c);
    assert_eq!(scalar_mul(&a, &b), c);
}
