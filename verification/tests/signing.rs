use frost_threshold::errors::SignError;
use frost_threshold::keygen::generate_threshold_keypair;
use frost_threshold::params::Params;
use frost_threshold::primitives::{message_hash, verify_threshold_signature};
use frost_threshold::sign::sign_with_threshold;

const CONTEXT: &[u8] = b"context";

#[test]
fn full_quorum_signs_and_verifies() {
    let params = Params::new(2, 3).unwrap();
    let (group_key, keyed) = generate_threshold_keypair(params).unwrap();
    let message = b"hello";
    let signature = sign_with_threshold(CONTEXT, message, params, &keyed, &group_key)
        .expect("all three signers make a valid session");
    let hash = message_hash(CONTEXT, message);
    assert!(verify_threshold_signature(&signature, &group_key, &hash));
}

#[test]
fn two_of_three_sign_and_verify() {
    let params = Params::new(2, 3).unwrap();
    let (group_key, keyed) = generate_threshold_keypair(params).unwrap();
    let message = b"hello";
    let signature = sign_with_threshold(CONTEXT, message, params, &keyed[0..2], &group_key)
        .expect("an exact 2-of-3 quorum suffices");
    let hash = message_hash(CONTEXT, message);
    assert!(verify_threshold_signature(&signature, &group_key, &hash));
}

#[test]
fn any_three_of_five_sign_and_verify() {
    let params = Params::new(3, 5).unwrap();
    let (group_key, keyed) = generate_threshold_keypair(params).unwrap();
    let message = b"hello";
    let hash = message_hash(CONTEXT, message);
    for quorum in [&keyed[0..3], &keyed[1..4], &keyed[2..5]] {
        let signature = sign_with_threshold(CONTEXT, message, params, quorum, &group_key)
            .expect("an exact 3-of-5 quorum suffices");
        assert!(verify_threshold_signature(&signature, &group_key, &hash));
    }
}

#[test]
fn two_of_five_fails_with_insufficient_signers() {
    let params = Params::new(3, 5).unwrap();
    let (group_key, keyed) = generate_threshold_keypair(params).unwrap();
    let r = sign_with_threshold(CONTEXT, b"hello", params, &keyed[0..2], &group_key);
    assert_eq!(r.err(), Some(SignError::InsufficientSigners));
}

#[test]
fn two_overlapping_quorums_verify_under_one_group_key() {
    let params = Params::new(3, 5).unwrap();
    let (group_key, keyed) = generate_threshold_keypair(params).unwrap();
    let message = b"hello";
    let hash = message_hash(CONTEXT, message);
    let first = sign_with_threshold(CONTEXT, message, params, &keyed[0..3], &group_key).unwrap();
    let second = sign_with_threshold(CONTEXT, message, params, &keyed[2..5], &group_key).unwrap();
    assert!(verify_threshold_signature(&first, &group_key, &hash));
    assert!(verify_threshold_signature(&second, &group_key, &hash));
}

#[test]
fn oversized_quorum_signs_and_verifies() {
    let params = Params::new(3, 5).unwrap();
    let (group_key, keyed) = generate_threshold_keypair(params).unwrap();
    let message = b"hello";
    let signature = sign_with_threshold(CONTEXT, message, params, &keyed[0..4], &group_key)
        .expect("a quorum larger than t is allowed");
    let hash = message_hash(CONTEXT, message);
    assert!(verify_threshold_signature(&signature, &group_key, &hash));
}

#[test]
fn duplicate_signer_index_is_rejected() {
    let params = Params::new(2, 3).unwrap();
    let (group_key, mut keyed) = generate_threshold_keypair(params).unwrap();
    // A registration that claims an index already registered for this
    // session must be turned away before any share is drawn.
    keyed[1].participant.index = keyed[0].participant.index;
    let r = sign_with_threshold(CONTEXT, b"hello", params, &keyed[0..2], &group_key);
    assert_eq!(r.err(), Some(SignError::DuplicateSigner));
}

#[test]
fn sessions_draw_fresh_nonces() {
    let params = Params::new(2, 3).unwrap();
    let (group_key, keyed) = generate_threshold_keypair(params).unwrap();
    let message = b"hello";
    let hash = message_hash(CONTEXT, message);
    let first = sign_with_threshold(CONTEXT, message, params, &keyed, &group_key).unwrap();
    let second = sign_with_threshold(CONTEXT, message, params, &keyed, &group_key).unwrap();
    assert!(verify_threshold_signature(&first, &group_key, &hash));
    assert!(verify_threshold_signature(&second, &group_key, &hash));
    // Each session consumed one-time commitment pairs of its own: the nonce
    // commitments, and with them the signatures, differ.
    assert_ne!(first.to_bytes().to_vec(), second.to_bytes().to_vec());
}

#[test]
fn signature_does_not_verify_under_wrong_message() {
    let params = Params::new(2, 3).unwrap();
    let (group_key, keyed) = generate_threshold_keypair(params).unwrap();
    let signature = sign_with_threshold(CONTEXT, b"hello", params, &keyed, &group_key).unwrap();
    let other_hash = message_hash(CONTEXT, b"goodbye");
    assert!(!verify_threshold_signature(&signature, &group_key, &other_hash));
}
