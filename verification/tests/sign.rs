use cait_sith::{sign, FullSignature, PresignOutput, Scalar};
use cait_sith::protocol::{run_protocol, Participant};
use cait_sith::math::Polynomial;
use cait_sith::scalars::{scalar_invert, scalar_is_high};
use cait_sith::points::{generator_mul, x_coordinate};
use k256::elliptic_curve::ops::Reduce;
use k256::elliptic_curve::PrimeField;
use sha2::Digest;
use k256::ecdsa::signature::Verifier;

/// Hash a message into the scalar field, as standard ECDSA does.
fn scalar_hash(msg: &[u8]) -> Scalar {
    let digest = sha2::Sha256::digest(msg);
    let m = <k256::Scalar as Reduce<k256::U256>>::reduce_bytes(&digest);
    Scalar::from_bytes(&m.to_bytes().to_vec()).unwrap()
}

fn to_k256(s: &Scalar) -> k256::Scalar {
    let bytes = s.to_bytes();
    k256::Scalar::from_repr(*k256::FieldBytes::from_slice(&bytes)).unwrap()
}

#[test]
fn test_sign_requires_membership() {
    let participants = vec![Participant::from(0u32), Participant::from(1u32)];
    let f = Polynomial::random(2);
    let public_key = generator_mul(&f.evaluate_zero());
    let presignature = PresignOutput {
        big_r: public_key.clone(),
        k: f.evaluate_zero(),
        sigma: f.evaluate_zero(),
    };
    let outsider = Participant::from(9u32);
    let result = sign(
        &participants,
        outsider,
        public_key,
        presignature,
        scalar_hash(b"x"),
    );
    assert!(result.is_err());
}

#[test]
fn test_sign() {
    let threshold = 2;
    let msg = b"hello?";

    // Run 4 times for flakiness reasons
    for _ in 0..4 {
        let f = Polynomial::random(threshold);
        let x = f.evaluate_zero();
        let public_key = generator_mul(&x);

        let g = Polynomial::random(threshold);
        let k = g.evaluate_zero();
        let big_k = generator_mul(&scalar_invert(&k).unwrap());

        let sigma = cait_sith::scalars::scalar_mul(&k, &x);
        let h = Polynomial::extend_random(threshold, &sigma);

        let participants = vec![Participant::from(0u32), Participant::from(1u32)];
        let mut protocols = Vec::with_capacity(participants.len());
        for p in &participants {
            let p_scalar = p.scalar();
            let presignature = PresignOutput {
                big_r: big_k.clone(),
                k: g.evaluate(&p_scalar),
                sigma: h.evaluate(&p_scalar),
            };
            let protocol = sign(
                &participants,
                *p,
                public_key.clone(),
                presignature,
                scalar_hash(msg),
            )
            .unwrap();
            protocols.push((*p, protocol));
        }

        let result: Vec<(Participant, FullSignature)> = run_protocol(protocols).unwrap();
        let sig = result[0].1.clone();

        // Check against an independent ECDSA implementation.
        let r = x_coordinate(&sig.big_r);
        let k_sig = k256::ecdsa::Signature::from_scalars(
            to_k256(&r).to_bytes(),
            to_k256(&sig.s).to_bytes(),
        )
        .unwrap();
        let vk = k256::ecdsa::VerifyingKey::from_sec1_bytes(&public_key.to_bytes()).unwrap();
        vk.verify(&msg[..], &k_sig).unwrap();

        // The returned scalar is normalized to the lower half of the field.
        assert!(!scalar_is_high(&sig.s));
    }
}
