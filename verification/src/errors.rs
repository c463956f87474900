use vstd::prelude::*;

verus! {

/// Failure cases of distributed key generation.
#[derive(Clone, Copy, PartialEq, Eq, Structural, Debug)]
pub enum KeyGenError {
    /// A participant's zero-knowledge proof of its secret key failed to
    /// verify; the whole key generation run is aborted.
    ProofError,
    /// A public key or the group key could not be derived.
    PublicKeyDerivationFailed,
    /// A received secret share was misdelivered or failed verification.
    /// Carries the participant index the failure is attributed to: the
    /// sender of a share that arrived at the wrong participant, or the
    /// recipient whose inbound pool failed verification.
    VerificationFailed(u32),
    /// Two participants derived different group public keys.
    GroupPublicKeyMismatch,
}

/// Failure cases of a threshold signing session.
#[derive(PartialEq, Eq, Debug)]
pub enum SignError {
    /// Fewer than `t` signers were offered for the session.
    InsufficientSigners,
    /// The same participant index was offered twice for one session.
    DuplicateSigner,
    /// The signer with this index could not produce a partial signature.
    SigningFailed(u32),
    /// These signers' contributions were rejected during aggregation; each
    /// index comes with the reason the aggregator gave.
    PartialSignatureInvalid(Vec<(u32, String)>),
}

} // verus!
