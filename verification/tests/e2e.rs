use cait_sith::{keygen, presign, sign, KeygenOutput, PresignArguments, PresignOutput, FullSignature, Scalar};
use cait_sith::protocol::{run_protocol, Participant};
use cait_sith::triples::{self, TriplePub, TripleShare};
use k256::elliptic_curve::ops::Reduce;
use sha2::Digest;

fn scalar_hash(msg: &[u8]) -> Scalar {
    let digest = sha2::Sha256::digest(msg);
    let m = <k256::Scalar as Reduce<k256::U256>>::reduce_bytes(&digest);
    Scalar::from_bytes(&m.to_bytes().to_vec()).unwrap()
}

fn run_keygen(
    participants: Vec<Participant>,
    threshold: usize,
) -> Vec<(Participant, KeygenOutput)> {
    let mut protocols = Vec::with_capacity(participants.len());
    for p in participants.iter() {
        let protocol = keygen(&participants, *p, threshold).unwrap();
        protocols.push((*p, protocol));
    }
    run_protocol(protocols).unwrap()
}

fn run_presign(
    participants: Vec<(Participant, KeygenOutput)>,
    shares0: Vec<TripleShare>,
    shares1: Vec<TripleShare>,
    pub0: &TriplePub,
    pub1: &TriplePub,
    threshold: usize,
) -> Vec<(Participant, PresignOutput)> {
    assert!(participants.len() == shares0.len());
    assert!(participants.len() == shares1.len());

    let mut protocols = Vec::with_capacity(participants.len());
    let participant_list: Vec<Participant> = participants.iter().map(|(p, _)| *p).collect();

    for (((p, keygen_out), share0), share1) in participants
        .into_iter()
        .zip(shares0.into_iter())
        .zip(shares1.into_iter())
    {
        let protocol = presign(
            &participant_list,
            p,
            PresignArguments {
                triple0: (share0, pub0.clone()),
                triple1: (share1, pub1.clone()),
                keygen_out,
                threshold,
            },
        );
        assert!(protocol.is_ok());
        protocols.push((p, protocol.unwrap()));
    }

    run_protocol(protocols).unwrap()
}

fn run_sign(
    participants: Vec<(Participant, PresignOutput)>,
    public_key: cait_sith::Point,
    msg: &[u8],
) -> Vec<(Participant, FullSignature)> {
    let mut protocols = Vec::with_capacity(participants.len());
    let participant_list: Vec<Participant> = participants.iter().map(|(p, _)| *p).collect();

    for (p, presign_out) in participants.into_iter() {
        let protocol = sign(
            &participant_list,
            p,
            public_key.clone(),
            presign_out,
            scalar_hash(msg),
        );
        assert!(protocol.is_ok());
        protocols.push((p, protocol.unwrap()));
    }

    run_protocol(protocols).unwrap()
}

#[test]
fn test_e2e() {
    let participants = vec![
        Participant::from(0u32),
        Participant::from(1u32),
        Participant::from(2u32),
    ];
    let t = 3;

    let mut keygen_result = run_keygen(participants.clone(), t);
    keygen_result.sort_by_key(|(p, _)| *p);

    let public_key = keygen_result[0].1.public_key.clone();
    assert_eq!(keygen_result[0].1.public_key, keygen_result[1].1.public_key);
    assert_eq!(keygen_result[1].1.public_key, keygen_result[2].1.public_key);

    let (pub0, shares0) = triples::deal(&participants, t);
    let (pub1, shares1) = triples::deal(&participants, t);

    let mut presign_result = run_presign(keygen_result, shares0, shares1, &pub0, &pub1, t);
    presign_result.sort_by_key(|(p, _)| *p);

    let msg = b"hello world";

    run_sign(presign_result, public_key, msg);
}
