//! A threshold ECDSA signing library.
//!
//! A group of parties jointly holds a single ECDSA key pair; any subset of
//! size at least the threshold can cooperate to produce a signature. The
//! expensive work is pushed into message-independent preprocessing (Beaver
//! triples and presignatures), leaving the online signing round a linear
//! combination.
//!
//! Protocols are exposed as message-driven state machines: the host
//! alternates `poke` (asking the protocol for its next action) and `message`
//! (delivering bytes received from another party).

pub mod scalars;
pub mod points;
pub mod protocol;
pub mod participants;
pub mod crypto;
pub mod transcript;
pub mod runtime;
pub mod math;
pub mod codec;
pub mod dlog;
pub mod dlogeq;
pub mod keyshare;
pub mod presign;
pub mod sign;
pub mod triples;
pub mod bits;
pub mod triple_setup;
pub mod correlated_ot;
pub mod random_ot_extension;
pub mod mta;
pub mod batch_random_ot;
pub mod multiplication;
pub mod generation;

pub use scalars::Scalar;
pub use keyshare::{keygen, refresh, reshare, KeygenOutput};
pub use presign::{presign, PresignArguments, PresignOutput};
pub use sign::{sign, FullSignature};
pub use points::Point;
