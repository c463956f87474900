//! FROST threshold Schnorr signatures: distributed key generation and
//! threshold signing for `n` participants of whom any `t` can sign.
//!
//! The protocol orchestration — participant creation, proof checking, secret
//! share routing, round transitions, quorum discipline — is verified; the
//! curve arithmetic, commitments, zero-knowledge proofs and randomness are
//! delegated to the `frost_dalek` crate behind the trusted boundary in
//! [`primitives`].

pub mod errors;
pub mod keygen;
pub mod params;
pub mod primitives;
pub mod sign;
