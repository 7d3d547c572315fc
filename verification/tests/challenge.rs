use session_core::challenge::{
    normalize_challenge_payload, ChallengeOutcome, ChallengeRelay, CHALLENGE_TIMEOUT_SECS,
};
use session_core::errors::ChallengeError;

#[test]
fn quoted_payload_yields_bare_code() {
    assert_eq!(normalize_challenge_payload("\"123456\""), "123456");
}

#[test]
fn unquoted_payload_is_unchanged() {
    assert_eq!(normalize_challenge_payload("123456"), "123456");
}

#[test]
fn inner_quotes_are_kept() {
    assert_eq!(normalize_challenge_payload("\"12\"34\""), "12\"34");
}

#[test]
fn stacked_quotes_are_all_stripped() {
    assert_eq!(normalize_challenge_payload("\"\"007\"\""), "007");
}

#[test]
fn all_quotes_leaves_nothing() {
    assert_eq!(normalize_challenge_payload("\"\"\""), "");
}

#[test]
fn empty_payload_stays_empty() {
    assert_eq!(normalize_challenge_payload(""), "");
}

#[test]
fn received_payload_resolves_to_normalized_code() {
    let mut relay = ChallengeRelay::begin();
    let r = relay.resolve(ChallengeOutcome::Received(String::from("\"123456\"")));
    assert_eq!(r.unwrap(), "123456");
}

#[test]
fn timeout_resolves_to_timeout_error() {
    let mut relay = ChallengeRelay::begin();
    let r = relay.resolve(ChallengeOutcome::TimedOut);
    assert_eq!(r.unwrap_err(), ChallengeError::Timeout);
}

#[test]
fn disconnection_resolves_to_disconnected_error() {
    let mut relay = ChallengeRelay::begin();
    let r = relay.resolve(ChallengeOutcome::Disconnected);
    assert_eq!(r.unwrap_err(), ChallengeError::Disconnected);
}

#[test]
fn a_timed_out_exchange_does_not_taint_the_next_one() {
    let mut relay = ChallengeRelay::begin();
    assert!(relay.resolve(ChallengeOutcome::TimedOut).is_err());
    // Each exchange registers a fresh listener; a later one still succeeds.
    let mut relay = ChallengeRelay::begin();
    let r = relay.resolve(ChallengeOutcome::Received(String::from("\"654321\"")));
    assert_eq!(r.unwrap(), "654321");
}

#[test]
fn challenge_wait_is_two_minutes() {
    assert_eq!(CHALLENGE_TIMEOUT_SECS, 120);
}

#[test]
fn challenge_failure_messages() {
    assert_eq!(ChallengeError::Timeout.message(), "2FA cancelled or timed out");
    assert_eq!(ChallengeError::Disconnected.message(), "2FA disconnected");
}
