//! Schnorr proofs of knowledge of a discrete logarithm over a prime-order
//! curve group.
//!
//! `compat` holds the interface that a curve offers, `zkp` the proof engine
//! written against it, and `secp256k1` the one curve that is supplied.

pub mod compat;
pub mod encoding;
pub mod error;
pub mod secp256k1;
pub mod zkp;

pub use compat::{x_coordinate, ECCurve, SerializablePoint};
pub use error::DecodeError;
pub use zkp::SchnorrProof;
