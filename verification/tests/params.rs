use frost_threshold::params::{message_is_signable, Params};

#[test]
fn accepts_minimum_configuration() {
    let p = Params::new(2, 3).expect("2-of-3 is the minimum valid configuration");
    assert_eq!(p.t, 2);
    assert_eq!(p.n, 3);
}

#[test]
fn accepts_three_of_five() {
    let p = Params::new(3, 5).expect("3-of-5 is valid");
    assert_eq!(p.t, 3);
    assert_eq!(p.n, 5);
}

#[test]
fn rejects_two_participants() {
    assert!(Params::new(2, 2).is_none());
}

#[test]
fn rejects_threshold_of_one() {
    assert!(Params::new(1, 5).is_none());
}

#[test]
fn rejects_threshold_above_participant_count() {
    assert!(Params::new(6, 5).is_none());
}

#[test]
fn rejects_empty_message() {
    assert!(!message_is_signable(b""));
    assert!(message_is_signable(b"hello"));
}
