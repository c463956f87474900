//! Distributed key generation.
//!
//! Drives every participant through round one (share distribution), round
//! two (share verification) and finalization (group-key derivation).  The
//! cryptographic work happens behind the wrappers in [`crate::primitives`];
//! what is proved here is the bookkeeping the protocol depends on: every
//! participant holds the index it was created for, every outbound share
//! reaches exactly the participant it was evaluated for, and every inbound
//! pool holds one share from each of the `n - 1` peers.

use vstd::prelude::*;

use crate::errors::KeyGenError;
use crate::params::Params;
use crate::primitives::{
    clone_participant, enter_round_two, finish_dkg, group_keys_agree, new_round_one_state,
    outbound_shares, participant_commitment, participant_new, participant_proof_is_valid,
    DkgParticipant, PrivateKeyShare, PublicKeyShare, RoundOneState, RoundTwoState, RoutedShare,
};

verus! {

/// The index of the `k`-th peer (0-based) of the participant with index
/// `own`, when all of `1..=n` except `own` are listed in increasing order.
pub open spec fn spec_peer_at(own: int, k: int) -> int {
    if k + 1 < own {
        k + 1
    } else {
        k + 2
    }
}

/// A participant together with the long-lived key pair it derived from the
/// distributed key generation run.
pub struct ParticipantWithKey {
    /// The participant's published protocol identity.
    pub participant: DkgParticipant,
    /// The participant's long-lived public key.
    pub public_key: PublicKeyShare,
    /// The participant's long-lived secret key, exclusively its own.
    pub private_key: PrivateKeyShare,
}

impl ParticipantWithKey {
    /// Both keys belong to the participant they are bundled with.
    pub open spec fn consistent(&self) -> bool {
        self.public_key.spec_index() == self.participant.index
            && self.private_key.spec_index() == self.participant.index
    }
}

/// Create the `n` participants of a run, with indices `1..=n` in order,
/// each holding its own secret polynomial coefficients.
pub fn create_participants(params: Params) -> (r: (
    Vec<DkgParticipant>,
    Vec<frost_dalek::keygen::Coefficients>,
))
    requires
        params.valid(),
    ensures
        r.0@.len() == params.n,
        r.1@.len() == params.n,
        forall|i: int| 0 <= i < params.n ==> (#[trigger] r.0@[i]).index == i + 1,
{
    let mut participants: Vec<DkgParticipant> = Vec::new();
    let mut coefficients: Vec<frost_dalek::keygen::Coefficients> = Vec::new();
    let mut i: u32 = 0;
    while i < params.n
        invariant
            params.t >= 1,
            i <= params.n,
            participants@.len() == i,
            coefficients@.len() == i,
            forall|j: int| 0 <= j < i ==> (#[trigger] participants@[j]).index == j + 1,
        decreases params.n - i,
    {
        let (participant, coeffs) = participant_new(&params, i + 1);
        participants.push(participant);
        coefficients.push(coeffs);
        i = i + 1;
    }
    (participants, coefficients)
}

/// Check every participant's proof of knowledge of its secret key.  This is
/// an all-or-nothing gate: a single failing proof aborts the whole run with
/// [`KeyGenError::ProofError`] before any secret share is exchanged.
pub fn verify_proofs(participants: &Vec<DkgParticipant>) -> (r: Result<(), KeyGenError>)
    ensures
        r matches Err(e) ==> e == KeyGenError::ProofError,
{
    let mut i: usize = 0;
    while i < participants.len()
        invariant
            i <= participants@.len(),
        decreases participants@.len() - i,
    {
        if !participant_proof_is_valid(&participants[i]) {
            return Err(KeyGenError::ProofError);
        }
        i = i + 1;
    }
    Ok(())
}

/// Start round one for every participant: each one receives the public
/// identities of all its peers, in increasing index order, and precomputes
/// its outbound secret shares.
pub fn run_round_one(
    params: Params,
    participants: &Vec<DkgParticipant>,
    coefficients: &Vec<frost_dalek::keygen::Coefficients>,
) -> (r: Result<Vec<RoundOneState>, KeyGenError>)
    requires
        params.valid(),
        participants@.len() == params.n,
        coefficients@.len() == params.n,
        forall|i: int| 0 <= i < params.n ==> (#[trigger] participants@[i]).index == i + 1,
    ensures
        r matches Ok(states) ==> {
            &&& states@.len() == params.n
            &&& forall|i: int|
                0 <= i < params.n ==> (#[trigger] states@[i]).spec_own_index() == i + 1
                    && states@[i].spec_peers().len() == params.n - 1
            &&& forall|i: int, k: int|
                0 <= i < params.n && 0 <= k < params.n - 1 ==> (#[trigger] states@[i].spec_peers()[k])
                    == spec_peer_at(i + 1, k)
        },
        r matches Err(e) ==> e == KeyGenError::PublicKeyDerivationFailed,
{
    let n = participants.len();
    let mut states: Vec<RoundOneState> = Vec::new();
    let mut i: usize = 0;
    while i < n
        invariant
            n == params.n,
            i <= n,
            participants@.len() == n,
            coefficients@.len() == n,
            forall|j: int| 0 <= j < n ==> (#[trigger] participants@[j]).index == j + 1,
            states@.len() == i,
            forall|j: int|
                0 <= j < i ==> (#[trigger] states@[j]).spec_own_index() == j + 1
                    && states@[j].spec_peers().len() == n - 1,
            forall|j: int, k: int|
                0 <= j < i && 0 <= k < n - 1 ==> (#[trigger] states@[j].spec_peers()[k])
                    == spec_peer_at(j + 1, k),
        decreases n - i,
    {
        let mut others: Vec<DkgParticipant> = Vec::new();
        let mut j: usize = 0;
        while j < n
            invariant
                i < n,
                j <= n,
                participants@.len() == n,
                forall|m: int| 0 <= m < n ==> (#[trigger] participants@[m]).index == m + 1,
                others@.len() == (if j <= i {
                    j as int
                } else {
                    j - 1
                }),
                forall|k: int|
                    0 <= k < others@.len() ==> (#[trigger] others@[k]).index == spec_peer_at(
                        i + 1,
                        k,
                    ),
            decreases n - j,
        {
            if j != i {
                others.push(clone_participant(&participants[j]));
            }
            j = j + 1;
        }
        match new_round_one_state(&params, participants[i].index, &coefficients[i], &others) {
            Ok(state) => {
                proof {
                    assert(state.spec_peers() =~= others@.map_values(
                        |p: DkgParticipant| p.index,
                    ));
                }
                states.push(state);
            },
            Err(_) => {
                return Err(KeyGenError::PublicKeyDerivationFailed);
            },
        }
        i = i + 1;
    }
    Ok(states)
}

/// Route every participant's outbound shares to their recipients.  On
/// success, pool `j` holds exactly the `n - 1` shares meant for participant
/// `j + 1`: one from every other participant, in increasing sender order.
pub fn collect_secret_shares_for_round_one(states: &Vec<RoundOneState>) -> (r: Result<
    Vec<Vec<RoutedShare>>,
    KeyGenError,
>)
    requires
        forall|i: int|
            0 <= i < states@.len() ==> (#[trigger] states@[i]).spec_own_index() == i + 1
                && states@[i].spec_peers().len() == states@.len() - 1,
        forall|i: int, k: int|
            0 <= i < states@.len() && 0 <= k < states@.len() - 1 ==> (#[trigger] states@[i].spec_peers()[k]) == spec_peer_at(i + 1, k),
    ensures
        r matches Ok(pools) ==> {
            &&& pools@.len() == states@.len()
            &&& forall|j: int|
                0 <= j < pools@.len() ==> (#[trigger] pools@[j])@.len() == states@.len() - 1
            &&& forall|j: int, k: int|
                0 <= j < pools@.len() && 0 <= k < states@.len() - 1 ==> (#[trigger] pools@[j]@[k]).recipient == j + 1 && pools@[j]@[k].sender == spec_peer_at(j + 1, k)
        },
        r matches Err(e) ==> e == KeyGenError::PublicKeyDerivationFailed,
{
    let n = states.len();
    let mut pools: Vec<Vec<RoutedShare>> = Vec::new();
    let mut j: usize = 0;
    while j < n
        invariant
            j <= n,
            n == states@.len(),
            forall|i: int|
                0 <= i < n ==> (#[trigger] states@[i]).spec_own_index() == i + 1 && states@[i].spec_peers().len() == n - 1,
            forall|i: int, k: int|
                0 <= i < n && 0 <= k < n - 1 ==> (#[trigger] states@[i].spec_peers()[k])
                    == spec_peer_at(i + 1, k),
            pools@.len() == j,
            forall|m: int| 0 <= m < j ==> (#[trigger] pools@[m])@.len() == n - 1,
            forall|m: int, k: int|
                0 <= m < j && 0 <= k < n - 1 ==> (#[trigger] pools@[m]@[k]).recipient == m + 1
                    && pools@[m]@[k].sender == spec_peer_at(m + 1, k),
        decreases n - j,
    {
        let mut pool: Vec<RoutedShare> = Vec::new();
        let mut i: usize = 0;
        while i < n
            invariant
                j < n,
                i <= n,
                n == states@.len(),
                forall|m: int|
                    0 <= m < n ==> (#[trigger] states@[m]).spec_own_index() == m + 1 && states@[m].spec_peers().len() == n - 1,
                forall|m: int, k: int|
                    0 <= m < n && 0 <= k < n - 1 ==> (#[trigger] states@[m].spec_peers()[k])
                        == spec_peer_at(m + 1, k),
                pool@.len() == (if i <= j {
                    i as int
                } else {
                    i - 1
                }),
                forall|k: int|
                    0 <= k < pool@.len() ==> (#[trigger] pool@[k]).recipient == j + 1 && pool@[k].sender == spec_peer_at(j + 1, k),
            decreases n - i,
        {
            if i != j {
                let mut shares = match outbound_shares(&states[i]) {
                    Ok(v) => v,
                    Err(_) => {
                        return Err(KeyGenError::PublicKeyDerivationFailed);
                    },
                };
                let pos: usize = if j < i {
                    j
                } else {
                    j - 1
                };
                let share = shares.remove(pos);
                pool.push(share);
            }
            i = i + 1;
        }
        pools.push(pool);
        j = j + 1;
    }
    Ok(pools)
}

/// Run round two for every participant.  Each participant first checks
/// that every share in its inbound pool is addressed to it — a misdelivered
/// share fails the run and names the sender it came from — and then has the
/// primitives library verify the pool.  The error carries the participant
/// index the failure is attributed to.
#[verifier::loop_isolation(false)]
pub fn run_round_two(states: Vec<RoundOneState>, pools: Vec<Vec<RoutedShare>>) -> (r: Result<
    Vec<RoundTwoState>,
    KeyGenError,
>)
    requires
        pools@.len() == states@.len(),
    ensures
        r matches Ok(v) ==> v@.len() == states@.len() && (forall|i: int|
            0 <= i < v@.len() ==> (#[trigger] v@[i]).spec_own_index()
                == states@[i].spec_own_index()),
        r matches Ok(_) ==> forall|i: int, k: int|
            0 <= i < pools@.len() && 0 <= k < pools@[i]@.len() ==> (#[trigger] pools@[i]@[k]).recipient == states@[i].spec_own_index(),
        r matches Err(e) ==> e matches KeyGenError::VerificationFailed(idx) && ((exists|
            i: int,
            k: int,
        |
            0 <= i < pools@.len() && 0 <= k < pools@[i]@.len() && (#[trigger] pools@[i]@[k]).recipient != states@[i].spec_own_index() && pools@[i]@[k].sender == idx) || (exists|
            i: int,
        | 0 <= i < states@.len() && (#[trigger] states@[i]).spec_own_index() == idx)),
{
    let ghost orig_states = states@;
    let ghost orig_pools = pools@;
    let mut states = states;
    let mut pools = pools;
    let mut advanced: Vec<RoundTwoState> = Vec::new();
    let n = states.len();
    let mut i: usize = 0;
    while i < n
        invariant
            i <= n,
            n == orig_states.len(),
            orig_pools.len() == n,
            states@ =~= orig_states.skip(i as int),
            pools@ =~= orig_pools.skip(i as int),
            advanced@.len() == i,
            forall|m: int|
                0 <= m < i ==> (#[trigger] advanced@[m]).spec_own_index()
                    == orig_states[m].spec_own_index(),
            forall|m: int, k: int|
                0 <= m < i && 0 <= k < orig_pools[m]@.len() ==> (#[trigger] orig_pools[m]@[k]).recipient == orig_states[m].spec_own_index(),
        decreases n - i,
    {
        let state = states.remove(0);
        let pool = pools.remove(0);
        proof {
            assert(orig_states.skip(i as int).remove(0) =~= orig_states.skip(i + 1));
            assert(orig_pools.skip(i as int).remove(0) =~= orig_pools.skip(i + 1));
            assert(pool@ == orig_pools[i as int]@);
        }
        let own = state.own_index();
        let mut k: usize = 0;
        while k < pool.len()
            invariant
                i < n,
                orig_pools.len() == n,
                k <= pool@.len(),
                pool@ == orig_pools[i as int]@,
                own == orig_states[i as int].spec_own_index(),
                n == orig_states.len(),
                forall|m: int|
                    0 <= m < k ==> (#[trigger] pool@[m]).recipient == own,
            decreases pool@.len() - k,
        {
            if pool[k].recipient != own {
                let sender = pool[k].sender;
                proof {
                    assert(orig_pools[i as int]@[k as int].recipient != orig_states[i as int].spec_own_index() && orig_pools[i as int]@[k as int].sender == sender);
                }
                return Err(KeyGenError::VerificationFailed(sender));
            }
            k = k + 1;
        }
        match enter_round_two(state, pool) {
            Ok(next) => advanced.push(next),
            Err(_) => {
                proof {
                    assert(exists|m: int|
                        0 <= m < orig_states.len() && (#[trigger] orig_states[m]).spec_own_index()
                            == own) by {
                        assert(orig_states[i as int].spec_own_index() == own);
                    }
                }
                return Err(KeyGenError::VerificationFailed(own));
            },
        }
        i = i + 1;
    }
    Ok(advanced)
}

/// Finish the run for every participant: derive each long-lived key pair and
/// the group key, and check that every participant derived the same group
/// key, failing with [`KeyGenError::GroupPublicKeyMismatch`] otherwise.
pub fn finalize_dkg(states: Vec<RoundTwoState>, participants: &Vec<DkgParticipant>) -> (r: Result<
    (frost_dalek::keygen::GroupKey, Vec<ParticipantWithKey>),
    KeyGenError,
>)
    requires
        states@.len() == participants@.len(),
        states@.len() >= 1,
        forall|i: int|
            0 <= i < states@.len() ==> (#[trigger] states@[i]).spec_own_index() == participants@[i].index,
    ensures
        r matches Ok(pair) ==> pair.1@.len() == states@.len() && (forall|i: int|
            0 <= i < states@.len() ==> (#[trigger] pair.1@[i]).participant.index == participants@[i].index && pair.1@[i].consistent()),
        r matches Err(e) ==> e == KeyGenError::PublicKeyDerivationFailed || e
            == KeyGenError::GroupPublicKeyMismatch,
{
    let ghost orig_states = states@;
    let mut states = states;
    let mut group: Option<frost_dalek::keygen::GroupKey> = None;
    let mut keyed: Vec<ParticipantWithKey> = Vec::new();
    let n = states.len();
    let mut i: usize = 0;
    while i < n
        invariant
            i <= n,
            n == orig_states.len(),
            participants@.len() == n,
            states@ =~= orig_states.skip(i as int),
            forall|m: int|
                0 <= m < n ==> (#[trigger] orig_states[m]).spec_own_index() == participants@[m].index,
            keyed@.len() == i,
            forall|m: int|
                0 <= m < i ==> (#[trigger] keyed@[m]).participant.index == participants@[m].index
                    && keyed@[m].consistent(),
            i >= 1 ==> group is Some,
        decreases n - i,
    {
        let state = states.remove(0);
        proof {
            assert(orig_states.skip(i as int).remove(0) =~= orig_states.skip(i + 1));
        }
        let commitment = match participant_commitment(&participants[i]) {
            Some(c) => c,
            None => {
                return Err(KeyGenError::PublicKeyDerivationFailed);
            },
        };
        let (group_key, private_key) = match finish_dkg(state, &commitment) {
            Ok(pair) => pair,
            Err(_) => {
                return Err(KeyGenError::PublicKeyDerivationFailed);
            },
        };
        match &group {
            Some(first) => {
                if !group_keys_agree(first, &group_key) {
                    return Err(KeyGenError::GroupPublicKeyMismatch);
                }
            },
            None => {
                group = Some(group_key);
            },
        }
        let public_key = private_key.to_public();
        keyed.push(
            ParticipantWithKey {
                participant: clone_participant(&participants[i]),
                public_key,
                private_key,
            },
        );
        i = i + 1;
    }
    match group {
        Some(group_key) => Ok((group_key, keyed)),
        None => Err(KeyGenError::PublicKeyDerivationFailed),
    }
}

/// Run a whole distributed key generation: create the participants, check
/// every proof of knowledge before any share is exchanged, distribute and
/// verify the secret shares, and derive one group key plus one long-lived
/// key pair per participant.  On success the participants come back with
/// indices `1..=n` in order, each bundled with keys of its own index.
pub fn generate_threshold_keypair(params: Params) -> (r: Result<
    (frost_dalek::keygen::GroupKey, Vec<ParticipantWithKey>),
    KeyGenError,
>)
    requires
        params.valid(),
    ensures
        r matches Ok(pair) ==> pair.1@.len() == params.n && (forall|i: int|
            0 <= i < params.n ==> (#[trigger] pair.1@[i]).participant.index == i + 1 && pair.1@[i].consistent()),
{
    let (participants, coefficients) = create_participants(params);
    match verify_proofs(&participants) {
        Ok(()) => (),
        Err(e) => {
            return Err(e);
        },
    }
    let states = match run_round_one(params, &participants, &coefficients) {
        Ok(v) => v,
        Err(e) => {
            return Err(e);
        },
    };
    let pools = match collect_secret_shares_for_round_one(&states) {
        Ok(v) => v,
        Err(e) => {
            return Err(e);
        },
    };
    let advanced = match run_round_two(states, pools) {
        Ok(v) => v,
        Err(e) => {
            return Err(e);
        },
    };
    finalize_dkg(advanced, &participants)
}

} // verus!
