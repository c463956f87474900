use frost_threshold::errors::KeyGenError;
use frost_threshold::keygen::{
    collect_secret_shares_for_round_one, create_participants, generate_threshold_keypair,
    run_round_one, run_round_two, verify_proofs,
};
use frost_threshold::params::Params;

#[test]
fn dkg_succeeds_for_minimum_configuration() {
    let params = Params::new(2, 3).unwrap();
    let (_group_key, keyed) = generate_threshold_keypair(params).expect("2-of-3 DKG succeeds");
    assert_eq!(keyed.len(), 3);
    for (i, k) in keyed.iter().enumerate() {
        assert_eq!(k.participant.index, i as u32 + 1);
        assert_eq!(k.public_key.index(), i as u32 + 1);
        assert_eq!(k.private_key.index(), i as u32 + 1);
    }
}

#[test]
fn dkg_succeeds_across_valid_configurations() {
    for (t, n) in [(2u32, 3u32), (3, 5), (4, 5), (2, 4)] {
        let params = Params::new(t, n).unwrap();
        let (_group_key, keyed) = generate_threshold_keypair(params).expect("valid DKG succeeds");
        assert_eq!(keyed.len(), n as usize);
    }
}

#[test]
fn corrupted_proof_aborts_dkg() {
    let params = Params::new(3, 5).unwrap();
    let (mut participants, _coefficients) = create_participants(params);
    // Replace one participant's proof of knowledge with another's: the proof
    // no longer matches the claimed index and commitment.
    let donor = participants[1].raw.clone();
    participants[0].raw.proof_of_secret_key = donor.proof_of_secret_key;
    assert_eq!(verify_proofs(&participants), Err(KeyGenError::ProofError));
}

#[test]
fn participant_without_commitments_fails_round_one() {
    let params = Params::new(2, 3).unwrap();
    let (mut participants, coefficients) = create_participants(params);
    participants[1].raw.commitments = Vec::new();
    let r = run_round_one(params, &participants, &coefficients);
    assert!(matches!(r, Err(KeyGenError::PublicKeyDerivationFailed)));
}

#[test]
fn tampered_share_fails_round_two() {
    let params = Params::new(2, 3).unwrap();
    let (participants, coefficients) = create_participants(params);
    verify_proofs(&participants).unwrap();
    let states = run_round_one(params, &participants, &coefficients).unwrap();
    let mut pools = collect_secret_shares_for_round_one(&states).unwrap();
    // Misdeliver in transit: participant 2 receives, in place of the share
    // sender 1 evaluated for it, the share sender 1 evaluated for
    // participant 3.
    let stray = pools[2].remove(0);
    pools[1][0] = stray;
    let r = run_round_two(states, pools);
    // The misdelivered share is attributed to the sender it came from.
    assert!(matches!(r, Err(KeyGenError::VerificationFailed(1))));
}

#[test]
fn short_pool_fails_round_two_naming_the_recipient() {
    let params = Params::new(2, 3).unwrap();
    let (participants, coefficients) = create_participants(params);
    verify_proofs(&participants).unwrap();
    let states = run_round_one(params, &participants, &coefficients).unwrap();
    let mut pools = collect_secret_shares_for_round_one(&states).unwrap();
    // Participant 2 loses one correctly-addressed share in transit: its
    // pool no longer holds n - 1 shares, and the failure names it.
    pools[1].pop();
    let r = run_round_two(states, pools);
    assert!(matches!(r, Err(KeyGenError::VerificationFailed(2))));
}

#[test]
fn untampered_pools_pass_round_two() {
    let params = Params::new(2, 3).unwrap();
    let (participants, coefficients) = create_participants(params);
    verify_proofs(&participants).unwrap();
    let states = run_round_one(params, &participants, &coefficients).unwrap();
    let pools = collect_secret_shares_for_round_one(&states).unwrap();
    assert_eq!(pools.len(), 3);
    for (j, pool) in pools.iter().enumerate() {
        assert_eq!(pool.len(), 2);
        for (k, share) in pool.iter().enumerate() {
            assert_eq!(share.recipient as usize, j + 1);
            // Senders come in increasing order, skipping the recipient.
            let expected_sender = if k + 1 < j + 1 { k + 1 } else { k + 2 };
            assert_eq!(share.sender as usize, expected_sender);
        }
    }
    let advanced = run_round_two(states, pools).unwrap();
    assert_eq!(advanced.len(), 3);
}
