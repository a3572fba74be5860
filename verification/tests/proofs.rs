use cait_sith::transcript::FsTranscript;
use cait_sith::scalars::scalar_random;
use cait_sith::points::{generator_mul, point_mul};
use cait_sith::{dlog, dlogeq};

#[test]
fn dlog_test_valid_proof_verifies() {
    let x = scalar_random();
    let statement = dlog::Statement { public: generator_mul(&x) };
    let witness = dlog::Witness { x: x.clone() };

    let transcript = FsTranscript::new("protocol");

    let party = vec![1u8];
    let mut prover_transcript = transcript.forked("party", &party);
    let proof = dlog::prove(&mut prover_transcript, &statement, &witness);

    let mut verifier_transcript = transcript.forked("party", &party);
    let ok = dlog::verify(&mut verifier_transcript, &statement, &proof);
    assert!(ok);
}

#[test]
fn dlog_test_proof_on_wrong_statement_fails() {
    let x = scalar_random();
    let statement = dlog::Statement { public: generator_mul(&x) };
    let witness = dlog::Witness { x: x.clone() };

    let transcript = FsTranscript::new("protocol");
    let party = vec![1u8];
    let mut prover_transcript = transcript.forked("party", &party);
    let proof = dlog::prove(&mut prover_transcript, &statement, &witness);

    // The same proof against a different point must fail.
    let other = dlog::Statement { public: generator_mul(&scalar_random()) };
    let mut verifier_transcript = transcript.forked("party", &party);
    let ok = dlog::verify(&mut verifier_transcript, &other, &proof);
    assert!(!ok);
}

#[test]
fn dlogeq_test_valid_proof_verifies() {
    let x = scalar_random();
    let big_h = generator_mul(&scalar_random());
    let statement = dlogeq::Statement {
        public0: generator_mul(&x),
        generator1: big_h.clone(),
        public1: point_mul(&big_h, &x),
    };
    let witness = dlogeq::Witness { x: x.clone() };

    let transcript = FsTranscript::new("protocol");

    let party = vec![1u8];
    let mut prover_transcript = transcript.forked("party", &party);
    let proof = dlogeq::prove(&mut prover_transcript, &statement, &witness);

    let mut verifier_transcript = transcript.forked("party", &party);
    let ok = dlogeq::verify(&mut verifier_transcript, &statement, &proof);
    assert!(ok);
}

#[test]
fn dlogeq_test_unequal_logs_fail() {
    let x = scalar_random();
    let big_h = generator_mul(&scalar_random());
    // The second public point uses a different discrete log.
    let statement = dlogeq::Statement {
        public0: generator_mul(&x),
        generator1: big_h.clone(),
        public1: point_mul(&big_h, &scalar_random()),
    };
    let witness = dlogeq::Witness { x: x.clone() };

    let transcript = FsTranscript::new("protocol");
    let party = vec![1u8];
    let mut prover_transcript = transcript.forked("party", &party);
    let proof = dlogeq::prove(&mut prover_transcript, &statement, &witness);
    let mut verifier_transcript = transcript.forked("party", &party);
    assert!(!dlogeq::verify(&mut verifier_transcript, &statement, &proof));
}
