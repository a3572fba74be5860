//! A labelled transcript for the Fiat-Shamir transform.
//!
//! The transcript absorbs protocol messages and squeezes challenges. It is
//! the `magikitten` duplex-sponge transcript, held opaquely beside a ghost
//! log of everything absorbed: each record is a flag telling a challenge
//! draw from a message, the label, and the data. The challenge scalar is
//! pinned to the name `challenge_of` over that log, so two transcripts
//! with the same history yield the same challenges — which is what the
//! sigma-proof contracts need. Unpredictability of the challenges is not
//! modelled; it is what the Fiat-Shamir transform's security rests on.

use vstd::prelude::*;
use crate::scalars::Scalar;

verus! {

#[verifier::external_type_specification]
#[verifier::external_body]
pub struct ExTranscript(magikitten::Transcript);

/// The scalar representation the transcript squeezes after absorbing the
/// given history, at the given challenge label.
pub uninterp spec fn challenge_of(log: Seq<(bool, Seq<char>, Seq<u8>)>, label: Seq<char>)
    -> Seq<u8>;

/// The UTF-8 bytes of a string, as `str::as_bytes` yields them.
pub uninterp spec fn utf8_of(s: Seq<char>) -> Seq<u8>;

/// A Fiat-Shamir transcript: a labelled duplex sponge, with a ghost log
/// of its absorb history.
pub struct FsTranscript {
    inner: magikitten::Transcript,
    log: Ghost<Seq<(bool, Seq<char>, Seq<u8>)>>,
}

impl FsTranscript {
    /// The absorb history: challenge flag, label, data.
    pub closed spec fn absorbed(self) -> Seq<(bool, Seq<char>, Seq<u8>)> {
        self.log@
    }

    /// Relies on `magikitten::Transcript::new`: a fresh transcript under a
    /// protocol label.
    #[verifier::external_body]
    pub fn new(protocol: &'static str) -> (r: FsTranscript)
        ensures
            r.absorbed() == seq![(false, protocol@, Seq::<u8>::empty())],
    {
        FsTranscript {
            inner: magikitten::Transcript::new(protocol.as_bytes()),
            log: Ghost(Seq::empty()),
        }
    }

    /// Relies on `magikitten::Transcript::message`: absorb a labelled
    /// message, extending the history by one record.
    #[verifier::external_body]
    pub fn message(&mut self, label: &'static str, data: &Vec<u8>)
        ensures
            final(self).absorbed() == old(self).absorbed().push((false, label@, data@)),
    {
        self.inner.message(label.as_bytes(), data);
    }

    /// Relies on `magikitten::Transcript::message` and `str::as_bytes`:
    /// absorb a labelled static string as its UTF-8 bytes.
    #[verifier::external_body]
    pub fn message_str(&mut self, label: &'static str, data: &'static str)
        ensures
            final(self).absorbed() == old(self).absorbed().push(
                (false, label@, utf8_of(data@))),
    {
        self.inner.message(label.as_bytes(), data.as_bytes());
    }

    /// Relies on `magikitten::Transcript::forked`: an independent copy of
    /// the transcript, domain-separated by the label and data, with the
    /// fork recorded in its history.
    #[verifier::external_body]
    pub fn forked(&self, label: &'static str, data: &Vec<u8>) -> (r: FsTranscript)
        ensures
            r.absorbed() == self.absorbed().push((false, label@, data@)),
    {
        FsTranscript {
            inner: self.inner.forked(label.as_bytes(), data),
            log: Ghost(Seq::empty()),
        }
    }

    /// Relies on `magikitten::Transcript::challenge` and `Field::random`
    /// for `k256::Scalar`: a challenge scalar squeezed from the
    /// transcript, a deterministic function of the history and the label;
    /// the draw itself extends the history.
    #[verifier::external_body]
    pub fn challenge_scalar(&mut self, label: &'static str) -> (r: Scalar)
        ensures
            r.repr() == challenge_of(old(self).absorbed(), label@),
            final(self).absorbed() == old(self).absorbed().push(
                (true, label@, Seq::<u8>::empty())),
    {
        let mut rng = self.inner.challenge(label.as_bytes());
        let s = <k256::Scalar as k256::elliptic_curve::Field>::random(&mut rng);
        Scalar::from_bytes(&s.to_bytes().to_vec()).unwrap()
    }
}

} // verus!
