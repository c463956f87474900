//! Threshold signing.
//!
//! A signing session registers a quorum of signers, has each produce a
//! partial signature with a fresh one-time commitment pair, and aggregates
//! the contributions into one threshold signature.  What is proved here is
//! the session discipline spec-side: a session with fewer than `t` offered
//! signers never produces a signature, a duplicate signer index is rejected
//! before any registration, and every one-time secret is consumed by the one
//! partial signature it serves.

use vstd::prelude::*;

use crate::errors::SignError;
use crate::keygen::ParticipantWithKey;
use crate::params::Params;
use crate::primitives::{
    aggregator_aggregate, aggregator_finalize, aggregator_include_partial,
    aggregator_include_signer, aggregator_new, aggregator_signers, generate_one_time_share,
    message_hash, sign_partial, OneTimeShare, PartialSignatureShare,
};

verus! {

/// No two of the offered signers share a participant index.
pub open spec fn distinct_signers(signers: Seq<ParticipantWithKey>) -> bool {
    forall|a: int, b: int|
        0 <= a < b < signers.len() ==> signers[a].participant.index
            != signers[b].participant.index
}

/// Produce one threshold signature over `message` (hashed together with
/// `context`) from the offered signers.  Fails with
/// [`SignError::InsufficientSigners`] exactly when fewer than `t` signers
/// are offered, and with [`SignError::DuplicateSigner`] exactly when two of
/// them share an index; no signature is ever produced in either case.  Each
/// signer's one-time commitment pair is generated inside the session and
/// consumed by its single partial signature.
pub fn sign_with_threshold(
    context: &[u8],
    message: &[u8],
    params: Params,
    signers: &[ParticipantWithKey],
    group_key: &frost_dalek::keygen::GroupKey,
) -> (r: Result<frost_dalek::signature::ThresholdSignature, SignError>)
    requires
        distinct_signers(signers@) ==> forall|i: int|
            0 <= i < signers@.len() ==> (#[trigger] signers@[i]).consistent(),
    ensures
        signers@.len() < params.t ==> r == Err::<
            frost_dalek::signature::ThresholdSignature,
            SignError,
        >(SignError::InsufficientSigners),
        r == Err::<frost_dalek::signature::ThresholdSignature, SignError>(
            SignError::InsufficientSigners,
        ) ==> signers@.len() < params.t,
        signers@.len() >= params.t && !distinct_signers(signers@) ==> r == Err::<
            frost_dalek::signature::ThresholdSignature,
            SignError,
        >(SignError::DuplicateSigner),
        r == Err::<frost_dalek::signature::ThresholdSignature, SignError>(
            SignError::DuplicateSigner,
        ) ==> !distinct_signers(signers@),
        r matches Ok(_) ==> signers@.len() >= params.t && distinct_signers(signers@),
{
    if signers.len() < params.t as usize {
        return Err(SignError::InsufficientSigners);
    }
    let mut a: usize = 0;
    while a < signers.len()
        invariant
            a <= signers@.len(),
            params.t <= signers@.len(),
            forall|x: int, y: int|
                0 <= x < a && x < y < signers@.len() ==> (#[trigger] signers@[x]).participant.index
                    != (#[trigger] signers@[y]).participant.index,
        decreases signers@.len() - a,
    {
        let mut b: usize = a + 1;
        while b < signers.len()
            invariant
                a < b,
                b <= signers@.len(),
                a < signers@.len(),
                params.t <= signers@.len(),
                forall|y: int|
                    a < y < b ==> signers@[a as int].participant.index != (#[trigger] signers@[y]).participant.index,
            decreases signers@.len() - b,
        {
            if signers[a].participant.index == signers[b].participant.index {
                return Err(SignError::DuplicateSigner);
            }
            b = b + 1;
        }
        a = a + 1;
    }
    assert(distinct_signers(signers@));
    assert(forall|m: int| 0 <= m < signers@.len() ==> (#[trigger] signers@[m]).consistent());

    let hash = message_hash(context, message);
    let mut aggregator = aggregator_new(&params, group_key, context, message);
    let mut shares: Vec<OneTimeShare> = Vec::new();
    let mut i: usize = 0;
    while i < signers.len()
        invariant
            i <= signers@.len(),
            params.t <= signers@.len(),
            distinct_signers(signers@),
            forall|m: int| 0 <= m < signers@.len() ==> (#[trigger] signers@[m]).consistent(),
            shares@.len() == i,
            forall|k: int|
                0 <= k < i ==> (#[trigger] shares@[k]).spec_index() == signers@[k].participant.index,
        decreases signers@.len() - i,
    {
        let index = signers[i].participant.index;
        let share = generate_one_time_share(index);
        aggregator_include_signer(&mut aggregator, index, &share, &signers[i].public_key);
        shares.push(share);
        i = i + 1;
    }

    let signer_list = aggregator_signers(&mut aggregator);
    let mut partials: Vec<PartialSignatureShare> = Vec::new();
    let mut i: usize = 0;
    while i < signers.len()
        invariant
            i <= signers@.len(),
            params.t <= signers@.len(),
            distinct_signers(signers@),
            forall|m: int| 0 <= m < signers@.len() ==> (#[trigger] signers@[m]).consistent(),
            shares@.len() == signers@.len() - i,
            forall|k: int|
                0 <= k < shares@.len() ==> (#[trigger] shares@[k]).spec_index() == signers@[i + k].participant.index,
            partials@.len() == i,
        decreases signers@.len() - i,
    {
        let share = shares.remove(0);
        match sign_partial(&signers[i].private_key, &hash, group_key, share, &signer_list) {
            Ok(partial) => partials.push(partial),
            Err(_) => {
                return Err(SignError::SigningFailed(signers[i].participant.index));
            },
        }
        i = i + 1;
    }

    while partials.len() > 0
        decreases partials@.len(),
    {
        let partial = partials.remove(0);
        aggregator_include_partial(&mut aggregator, partial);
    }

    match aggregator_finalize(aggregator) {
        Ok(finalized) => match aggregator_aggregate(&finalized) {
            Ok(signature) => Ok(signature),
            Err(report) => Err(SignError::PartialSignatureInvalid(report)),
        },
        Err(report) => Err(SignError::PartialSignatureInvalid(report)),
    }
}

} // verus!
