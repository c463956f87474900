//! Trusted boundary around the cryptographic primitives.
//!
//! Everything that touches curve arithmetic, commitments, zero-knowledge
//! proofs or randomness is delegated to the `frost_dalek` crate behind the
//! declarations and wrappers in this module.  The rest of the crate works
//! only with the plain bookkeeping data (participant indices, share routing)
//! that these wrappers expose and keep in step with the opaque values.

use vstd::prelude::*;

use crate::params::Params;

verus! {

// ---------------------------------------------------------------------------
// Declarations of the outside types that appear in signatures and fields.
// ---------------------------------------------------------------------------

#[verifier::external_type_specification]
#[verifier::external_body]
pub struct ExParticipant(frost_dalek::Participant);

#[verifier::external_type_specification]
#[verifier::external_body]
pub struct ExCoefficients(frost_dalek::keygen::Coefficients);

#[verifier::external_type_specification]
#[verifier::external_body]
pub struct ExSecretShare(frost_dalek::keygen::SecretShare);

#[verifier::external_type_specification]
#[verifier::external_body]
pub struct ExGroupKey(frost_dalek::keygen::GroupKey);

#[verifier::external_type_specification]
#[verifier::external_body]
pub struct ExSecretKey(frost_dalek::keygen::SecretKey);

#[verifier::external_type_specification]
#[verifier::external_body]
pub struct ExIndividualPublicKey(frost_dalek::IndividualPublicKey);

#[verifier::external_type_specification]
#[verifier::external_body]
pub struct ExSecretCommitmentShareList(frost_dalek::precomputation::SecretCommitmentShareList);

#[verifier::external_type_specification]
#[verifier::external_body]
pub struct ExSigner(frost_dalek::signature::Signer);

#[verifier::external_type_specification]
#[verifier::external_body]
pub struct ExPartialThresholdSignature(frost_dalek::signature::PartialThresholdSignature);

#[verifier::external_type_specification]
#[verifier::external_body]
pub struct ExThresholdSignature(frost_dalek::signature::ThresholdSignature);

#[verifier::external_type_specification]
#[verifier::external_body]
pub struct ExRistrettoPoint(curve25519_dalek::ristretto::RistrettoPoint);

// ---------------------------------------------------------------------------
// Participants.
// ---------------------------------------------------------------------------

/// One participant's public protocol identity: its published commitments and
/// proof of knowledge, together with the index it was created for.
pub struct DkgParticipant {
    /// The published identity as the primitives library represents it.
    pub raw: frost_dalek::Participant,
    /// The participant's index, `1..=n`; its sole identity in the protocol.
    pub index: u32,
}

/// Relies on `frost_dalek::Participant::new`: draws `t` random polynomial
/// coefficients, commits to each of them, and proves knowledge of the
/// constant term; the returned participant carries exactly the index it was
/// constructed for.  The outside call reads the constant-term coefficient,
/// so it needs `t >= 1`.
#[verifier::external_body]
pub(crate) fn participant_new(params: &Params, index: u32) -> (r: (
    DkgParticipant,
    frost_dalek::keygen::Coefficients,
))
    requires
        params.t >= 1,
    ensures
        r.0.index == index,
{
    let frost_params = frost_dalek::Parameters { t: params.t, n: params.n };
    let (p, coefficients) = frost_dalek::Participant::new(&frost_params, index);
    (DkgParticipant { raw: p, index }, coefficients)
}

/// Relies on the derived `Clone` of `frost_dalek::Participant`: clones the
/// published identity; only the index is tracked.
#[verifier::external_body]
pub(crate) fn clone_participant(p: &DkgParticipant) -> (r: DkgParticipant)
    ensures
        r.index == p.index,
{
    DkgParticipant { raw: p.raw.clone(), index: p.index }
}

/// Relies on `frost_dalek::nizk::NizkOfSecretKey::verify`: checks the
/// participant's Schnorr proof of knowledge against its own index and its
/// constant-term commitment; a participant that published no commitments
/// fails the check.
#[verifier::external_body]
pub(crate) fn participant_proof_is_valid(p: &DkgParticipant) -> bool {
    match p.raw.commitments.get(0) {
        Some(public_key) => p.raw.proof_of_secret_key.verify(&p.raw.index, public_key).is_ok(),
        None => false,
    }
}

/// Relies on `frost_dalek::Participant::public_key`: the participant's
/// constant-term commitment, when any commitments were published.
#[verifier::external_body]
pub(crate) fn participant_commitment(p: &DkgParticipant) -> Option<
    curve25519_dalek::ristretto::RistrettoPoint,
> {
    p.raw.public_key().copied()
}

// ---------------------------------------------------------------------------
// The key-generation state machine, round one.
// ---------------------------------------------------------------------------

/// Holds `frost_dalek::DistributedKeyGeneration<RoundOne>`, whose generic
/// state parameter is bounded by a sealed trait of the outside crate and so
/// cannot be declared to the verifier directly.
#[verifier::external_body]
pub struct RoundOneHandle {
    inner: frost_dalek::DistributedKeyGeneration<frost_dalek::keygen::RoundOne>,
}

/// One participant's round-one state: the opaque protocol state plus the
/// bookkeeping this crate reasons about, namely the participant's own index
/// and the indices of its peers, in the order they were handed over.
pub struct RoundOneState {
    handle: RoundOneHandle,
    own_index: u32,
    peers: Vec<u32>,
}

impl RoundOneState {
    /// The index this state was created for.
    pub closed spec fn spec_own_index(&self) -> u32 {
        self.own_index
    }

    /// The indices of the other participants, in hand-over order.
    pub closed spec fn spec_peers(&self) -> Seq<u32> {
        self.peers@
    }

    /// The index this state was created for.
    pub fn own_index(&self) -> (r: u32)
        ensures
            r == self.spec_own_index(),
    {
        self.own_index
    }
}

/// A secret share in transit from one participant to another, labelled with
/// both endpoints so that delivery can be reasoned about.
pub struct RoutedShare {
    /// The share itself, opaque to everything but the primitives library.
    pub raw: frost_dalek::keygen::SecretShare,
    /// The index of the participant whose polynomial produced the share.
    pub sender: u32,
    /// The index of the participant the share is meant for.
    pub recipient: u32,
}

/// Relies on `frost_dalek::DistributedKeyGeneration::<RoundOne>::new`:
/// verifies every peer's proof of knowledge, records the peers' commitments,
/// and precomputes one outbound secret share per peer; on failure it reports
/// the indices of the misbehaving peers.  On success the state keeps exactly
/// the peer indices it was given, in the same order.  The outside call
/// computes `n - 1`, so it needs `n >= 1`.
#[verifier::external_body]
pub(crate) fn new_round_one_state(
    params: &Params,
    my_index: u32,
    my_coefficients: &frost_dalek::keygen::Coefficients,
    others: &Vec<DkgParticipant>,
) -> (r: Result<RoundOneState, Vec<u32>>)
    requires
        params.n >= 1,
    ensures
        r matches Ok(s) ==> s.spec_own_index() == my_index && s.spec_peers()
            =~= others@.map_values(|p: DkgParticipant| p.index),
{
    let mut raw: Vec<frost_dalek::Participant> = others.iter().map(|p| p.raw.clone()).collect();
    let peers: Vec<u32> = others.iter().map(|p| p.index).collect();
    let frost_params = frost_dalek::Parameters { t: params.t, n: params.n };
    match frost_dalek::DistributedKeyGeneration::new(
        &frost_params,
        &my_index,
        my_coefficients,
        &mut raw,
    ) {
        Ok(state) => Ok(
            RoundOneState { handle: RoundOneHandle { inner: state }, own_index: my_index, peers },
        ),
        Err(misbehaving) => Err(misbehaving),
    }
}

/// Relies on
/// `frost_dalek::DistributedKeyGeneration::<RoundOne>::their_secret_shares`:
/// a round-one state holds one precomputed outbound share per peer, in peer
/// order, each created for (and labelled by the crate with) that peer's
/// index.
#[verifier::external_body]
pub(crate) fn outbound_shares(s: &RoundOneState) -> (r: Result<Vec<RoutedShare>, ()>)
    ensures
        r matches Ok(v) ==> v@.len() == s.spec_peers().len() && (forall|k: int|
            0 <= k < v@.len() ==> (#[trigger] v@[k]).recipient == s.spec_peers()[k]
                && v@[k].sender == s.spec_own_index()),
{
    match s.handle.inner.their_secret_shares() {
        Ok(shares) => Ok(
            shares
                .iter()
                .map(
                    |sh| RoutedShare { raw: sh.clone(), sender: s.own_index, recipient: sh.index },
                )
                .collect(),
        ),
        Err(()) => Err(()),
    }
}

// ---------------------------------------------------------------------------
// The key-generation state machine, round two and finish.
// ---------------------------------------------------------------------------

/// Holds `frost_dalek::DistributedKeyGeneration<RoundTwo>`; see
/// [`RoundOneHandle`] for why the type itself cannot be declared.
#[verifier::external_body]
pub struct RoundTwoHandle {
    inner: frost_dalek::DistributedKeyGeneration<frost_dalek::keygen::RoundTwo>,
}

/// One participant's round-two state, after its inbound shares verified.
pub struct RoundTwoState {
    handle: RoundTwoHandle,
    own_index: u32,
}

impl RoundTwoState {
    /// The index this state was created for.
    pub closed spec fn spec_own_index(&self) -> u32 {
        self.own_index
    }
}

/// Relies on `frost_dalek::DistributedKeyGeneration::<RoundOne>::to_round_two`:
/// consumes the round-one state, rejects an inbound pool that does not hold
/// exactly `n - 1` shares, checks any share whose index names another
/// participant against that participant's published commitments (a share
/// addressed to this participant itself passes unchecked there, which is
/// why the callers scan the routing labels first), and zeroes the outbound
/// shares so they cannot be handed out twice.
#[verifier::external_body]
pub(crate) fn enter_round_two(s: RoundOneState, inbound: Vec<RoutedShare>) -> (r: Result<
    RoundTwoState,
    (),
>)
    ensures
        r matches Ok(s2) ==> s2.spec_own_index() == s.spec_own_index(),
{
    let raw: Vec<frost_dalek::keygen::SecretShare> =
        inbound.into_iter().map(|sh| sh.raw).collect();
    match s.handle.inner.to_round_two(raw) {
        Ok(next) => Ok(
            RoundTwoState { handle: RoundTwoHandle { inner: next }, own_index: s.own_index },
        ),
        Err(()) => Err(()),
    }
}

/// A participant's long-lived secret key share, labelled with the index of
/// the participant that exclusively owns it.  The key itself never leaves
/// the primitives library except through [`PrivateKeyShare::debug_string`].
pub struct PrivateKeyShare {
    raw: frost_dalek::keygen::SecretKey,
    index: u32,
}

/// A participant's long-lived public key, labelled with the index of the
/// participant it belongs to.
pub struct PublicKeyShare {
    raw: frost_dalek::IndividualPublicKey,
    index: u32,
}

impl PrivateKeyShare {
    /// The index of the participant that owns this key.
    pub closed spec fn spec_index(&self) -> u32 {
        self.index
    }

    /// The index of the participant that owns this key.
    pub fn index(&self) -> (r: u32)
        ensures
            r == self.spec_index(),
    {
        self.index
    }

    /// Relies on `frost_dalek::keygen::SecretKey::to_public`: derives the
    /// matching public key, which belongs to the same participant.
    #[verifier::external_body]
    pub fn to_public(&self) -> (r: PublicKeyShare)
        ensures
            r.spec_index() == self.spec_index(),
    {
        PublicKeyShare { raw: self.raw.to_public(), index: self.index }
    }

    /// Relies on the derived `Debug` of `frost_dalek::keygen::SecretKey`;
    /// for callers that persist the key material.
    #[verifier::external_body]
    pub fn debug_string(&self) -> String {
        format!("{:?}", self.raw)
    }
}

impl PublicKeyShare {
    /// The index of the participant this key belongs to.
    pub closed spec fn spec_index(&self) -> u32 {
        self.index
    }

    /// The index of the participant this key belongs to.
    pub fn index(&self) -> (r: u32)
        ensures
            r == self.spec_index(),
    {
        self.index
    }
}

/// Relies on `frost_dalek::DistributedKeyGeneration::<RoundTwo>::finish`:
/// sums the received shares into this participant's long-lived secret key
/// and sums all constant-term commitments into the group key; the secret key
/// belongs to the participant whose state finished.
#[verifier::external_body]
pub(crate) fn finish_dkg(
    s: RoundTwoState,
    my_commitment: &curve25519_dalek::ristretto::RistrettoPoint,
) -> (r: Result<(frost_dalek::keygen::GroupKey, PrivateKeyShare), ()>)
    ensures
        r matches Ok(pair) ==> pair.1.spec_index() == s.spec_own_index(),
{
    match s.handle.inner.finish(my_commitment) {
        Ok((group_key, secret_key)) => Ok(
            (group_key, PrivateKeyShare { raw: secret_key, index: s.own_index }),
        ),
        Err(()) => Err(()),
    }
}

/// Relies on `frost_dalek`'s `PartialEq` for `GroupKey`: compares the
/// compressed encodings of the two keys, so equal values always agree.
#[verifier::external_body]
pub(crate) fn group_keys_agree(
    a: &frost_dalek::keygen::GroupKey,
    b: &frost_dalek::keygen::GroupKey,
) -> (r: bool)
    ensures
        a == b ==> r,
{
    a == b
}

// ---------------------------------------------------------------------------
// Signing sessions.
// ---------------------------------------------------------------------------

/// A fresh one-time commitment pair for one signer in one session.  The
/// secret half is consumed, by move, when a partial signature is produced,
/// so a pair can never serve two messages.
pub struct OneTimeShare {
    secret: frost_dalek::precomputation::SecretCommitmentShareList,
    public_pair: (
        curve25519_dalek::ristretto::RistrettoPoint,
        curve25519_dalek::ristretto::RistrettoPoint,
    ),
    index: u32,
}

impl OneTimeShare {
    /// The index of the signer this pair was drawn for.
    pub closed spec fn spec_index(&self) -> u32 {
        self.index
    }
}

/// Relies on `frost_dalek::generate_commitment_share_lists` over a fresh
/// operating-system randomness source: draws one fresh nonce pair for this
/// signer and returns its published commitments together with the secret
/// half; nothing is promised of the random values themselves.
#[verifier::external_body]
pub(crate) fn generate_one_time_share(index: u32) -> (r: OneTimeShare)
    ensures
        r.spec_index() == index,
{
    let (public_list, secret_list) = frost_dalek::generate_commitment_share_lists(
        &mut rand::rngs::OsRng,
        index,
        1,
    );
    OneTimeShare { secret: secret_list, public_pair: public_list.commitments[0], index }
}

/// Holds `frost_dalek::SignatureAggregator<Initial>`, which borrows the
/// context and the message for the lifetime of the session; its generic
/// state parameter is bounded by a trait of the outside crate and so cannot
/// be declared to the verifier directly.
#[verifier::external_body]
pub struct AggregatorHandle<'a> {
    inner: frost_dalek::SignatureAggregator<frost_dalek::signature::Initial<'a>>,
}

/// Holds `frost_dalek::SignatureAggregator<Finalized>`; see
/// [`AggregatorHandle`].
#[verifier::external_body]
pub struct FinalizedAggregator {
    inner: frost_dalek::SignatureAggregator<frost_dalek::signature::Finalized>,
}

/// Relies on `frost_dalek::SignatureAggregator::new`: starts an empty
/// signing session over this context and message under the given group key.
#[verifier::external_body]
pub(crate) fn aggregator_new<'a>(
    params: &Params,
    group_key: &frost_dalek::keygen::GroupKey,
    context: &'a [u8],
    message: &'a [u8],
) -> AggregatorHandle<'a> {
    let frost_params = frost_dalek::Parameters { t: params.t, n: params.n };
    AggregatorHandle {
        inner: frost_dalek::SignatureAggregator::new(frost_params, *group_key, context, message),
    }
}

/// Relies on `frost_dalek::SignatureAggregator::include_signer`: registers a
/// signer with its published one-time commitments and its public key.  The
/// outside call asserts that the key carries the registered index, which
/// holds for every key and share this crate constructs for that index.
#[verifier::external_body]
pub(crate) fn aggregator_include_signer<'a>(
    aggregator: &mut AggregatorHandle<'a>,
    index: u32,
    share: &OneTimeShare,
    public_key: &PublicKeyShare,
)
    requires
        share.spec_index() == index,
        public_key.spec_index() == index,
{
    aggregator.inner.include_signer(index, share.public_pair, public_key.raw.clone());
}

/// Relies on `frost_dalek::SignatureAggregator::get_signers`: sorts the
/// registered signers by index, removes duplicates, and returns the list
/// that every signer must bind into its partial signature.
#[verifier::external_body]
pub(crate) fn aggregator_signers<'a>(aggregator: &mut AggregatorHandle<'a>) -> Vec<
    frost_dalek::signature::Signer,
> {
    aggregator.inner.get_signers().clone()
}

/// One signer's contribution to a threshold signature, labelled with the
/// index of the signer that produced it.
pub struct PartialSignatureShare {
    raw: frost_dalek::signature::PartialThresholdSignature,
    index: u32,
}

impl PartialSignatureShare {
    /// The index of the signer that produced this contribution.
    pub closed spec fn spec_index(&self) -> u32 {
        self.index
    }
}

/// Relies on `frost_dalek::keygen::SecretKey::sign`: produces this signer's
/// partial signature over the message hash, bound to the group key and the
/// full signer list, and labelled by the outside call with the signing key's
/// own index.  The one-time share is taken by value and dropped here after
/// the outside call zeroes its nonces, so it can never serve a second
/// message.
#[verifier::external_body]
pub(crate) fn sign_partial(
    key: &PrivateKeyShare,
    message_hash: &[u8; 64],
    group_key: &frost_dalek::keygen::GroupKey,
    share: OneTimeShare,
    signers: &Vec<frost_dalek::signature::Signer>,
) -> (r: Result<PartialSignatureShare, ()>)
    ensures
        r matches Ok(p) ==> p.spec_index() == key.spec_index(),
{
    let mut secret_list = share.secret;
    match key.raw.sign(message_hash, group_key, &mut secret_list, 0, signers) {
        Ok(partial) => Ok(PartialSignatureShare { raw: partial, index: key.index }),
        Err(_) => Err(()),
    }
}

/// Relies on `frost_dalek::SignatureAggregator::include_partial_signature`:
/// files the contribution under the index its signer embedded in it.
#[verifier::external_body]
pub(crate) fn aggregator_include_partial<'a>(
    aggregator: &mut AggregatorHandle<'a>,
    partial: PartialSignatureShare,
) {
    aggregator.inner.include_partial_signature(partial.raw);
}

/// Relies on `frost_dalek::SignatureAggregator::finalize`: checks that every
/// registered signer has a public key and a partial signature on file; on
/// failure it reports each offending index with the reason it gave, with
/// `0` standing for the aggregator itself.
#[verifier::external_body]
pub(crate) fn aggregator_finalize<'a>(aggregator: AggregatorHandle<'a>) -> (r: Result<
    FinalizedAggregator,
    Vec<(u32, String)>,
>) {
    match aggregator.inner.finalize() {
        Ok(finalized) => Ok(FinalizedAggregator { inner: finalized }),
        Err(report) => Err(report.into_iter().map(|(i, why)| (i, why.to_string())).collect()),
    }
}

/// Relies on `frost_dalek::SignatureAggregator::aggregate`: verifies each
/// partial signature individually against its signer's public key and, on
/// success, combines them via Lagrange interpolation over the registered
/// signer set into one threshold signature; otherwise it reports each index
/// whose contribution failed, with the reason it gave.
#[verifier::external_body]
pub(crate) fn aggregator_aggregate(aggregator: &FinalizedAggregator) -> (r: Result<
    frost_dalek::signature::ThresholdSignature,
    Vec<(u32, String)>,
>) {
    match aggregator.inner.aggregate() {
        Ok(signature) => Ok(signature),
        Err(report) => Err(report.into_iter().map(|(i, why)| (i, why.to_string())).collect()),
    }
}

/// The digest that `frost_dalek::signature::compute_message_hash` computes
/// for a context string and a message: a function of those bytes alone.
pub uninterp spec fn digest_of(context: Seq<u8>, message: Seq<u8>) -> Seq<u8>;

/// Relies on `frost_dalek::signature::compute_message_hash`: the 64-byte
/// digest binding the context string and the message, a pure function of
/// the two byte strings.
#[verifier::external_body]
pub fn message_hash(context: &[u8], message: &[u8]) -> (r: [u8; 64])
    ensures
        r@ == digest_of(context@, message@),
{
    frost_dalek::compute_message_hash(context, message)
}

/// Relies on `frost_dalek::signature::ThresholdSignature::verify`:
/// recomputes the Schnorr verification equation for the signature against
/// the group key and the message hash alone.
#[verifier::external_body]
pub fn verify_threshold_signature(
    signature: &frost_dalek::signature::ThresholdSignature,
    group_key: &frost_dalek::keygen::GroupKey,
    message_hash: &[u8; 64],
) -> bool {
    signature.verify(group_key, message_hash).is_ok()
}

} // verus!
