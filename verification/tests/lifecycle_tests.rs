use tgcaptcha::lifecycle::create_challenge;
use tgcaptcha::lifecycle::handle_response;
use tgcaptcha::lifecycle::handle_timeout;
use tgcaptcha::lifecycle::resolve_override_capability;
use tgcaptcha::lifecycle::ChallengeOutcome;
use tgcaptcha::lifecycle::ResponseAction;
use tgcaptcha::question::MathQuestion;
use tgcaptcha::question::Operator;
use tgcaptcha::registry::Registry;

const CHAT_MSG_KEY: i64 = 1001;
const USER_U: u64 = 42;

fn pending_seven_minus_three(reg: &mut Registry) {
    let q = MathQuestion::new(7, Operator::Sub, 3);
    create_challenge(reg, CHAT_MSG_KEY, USER_U, q);
}

#[test]
fn correct_answer_approves_and_removes() {
    let mut reg = Registry::new();
    pending_seven_minus_three(&mut reg);
    let outcome = handle_response(&mut reg, CHAT_MSG_KEY, USER_U, ResponseAction::Answer(4));
    assert_eq!(outcome, ChallengeOutcome::Approved { subject: USER_U });
    assert!(reg.get(CHAT_MSG_KEY).is_none());
}

#[test]
fn decoy_answer_rejects_and_removes() {
    let mut reg = Registry::new();
    pending_seven_minus_three(&mut reg);
    let outcome = handle_response(&mut reg, CHAT_MSG_KEY, USER_U, ResponseAction::Answer(9));
    assert_eq!(outcome, ChallengeOutcome::Rejected { subject: USER_U });
    assert!(reg.get(CHAT_MSG_KEY).is_none());
}

#[test]
fn timeout_rejects_a_pending_challenge() {
    let mut reg = Registry::new();
    pending_seven_minus_three(&mut reg);
    let outcome = handle_timeout(&mut reg, CHAT_MSG_KEY);
    assert_eq!(outcome, ChallengeOutcome::RejectedByTimeout { subject: USER_U });
    assert!(reg.get(CHAT_MSG_KEY).is_none());
}

#[test]
fn unauthorized_override_leaves_challenge_pending() {
    let mut reg = Registry::new();
    pending_seven_minus_three(&mut reg);
    let outcome = handle_response(
        &mut reg,
        CHAT_MSG_KEY,
        7777,
        ResponseAction::Override { capability_confirmed: false },
    );
    assert_eq!(outcome, ChallengeOutcome::Unauthorized);
    assert!(reg.get(CHAT_MSG_KEY).is_some());

    // The subject may still respond afterwards and is evaluated normally.
    let later = handle_response(&mut reg, CHAT_MSG_KEY, USER_U, ResponseAction::Answer(4));
    assert_eq!(later, ChallengeOutcome::Approved { subject: USER_U });
    assert!(reg.get(CHAT_MSG_KEY).is_none());
}

#[test]
fn confirmed_override_approves_then_subject_response_is_noop() {
    let mut reg = Registry::new();
    pending_seven_minus_three(&mut reg);
    let outcome = handle_response(
        &mut reg,
        CHAT_MSG_KEY,
        7777,
        ResponseAction::Override { capability_confirmed: true },
    );
    assert_eq!(outcome, ChallengeOutcome::Approved { subject: USER_U });
    assert!(reg.get(CHAT_MSG_KEY).is_none());

    let later = handle_response(&mut reg, CHAT_MSG_KEY, USER_U, ResponseAction::Answer(4));
    assert_eq!(later, ChallengeOutcome::Stale);
}

#[test]
fn mismatched_identity_changes_nothing() {
    let mut reg = Registry::new();
    pending_seven_minus_three(&mut reg);
    let outcome = handle_response(&mut reg, CHAT_MSG_KEY, 999, ResponseAction::Answer(4));
    assert_eq!(outcome, ChallengeOutcome::Mismatch);
    assert!(reg.get(CHAT_MSG_KEY).is_some());
}

#[test]
fn race_response_first_then_timeout() {
    let mut reg = Registry::new();
    pending_seven_minus_three(&mut reg);
    let first = handle_response(&mut reg, CHAT_MSG_KEY, USER_U, ResponseAction::Answer(4));
    let second = handle_timeout(&mut reg, CHAT_MSG_KEY);
    assert_eq!(first, ChallengeOutcome::Approved { subject: USER_U });
    assert_eq!(second, ChallengeOutcome::Stale);
    assert!(reg.get(CHAT_MSG_KEY).is_none());
}

#[test]
fn race_timeout_first_then_response() {
    let mut reg = Registry::new();
    pending_seven_minus_three(&mut reg);
    let first = handle_timeout(&mut reg, CHAT_MSG_KEY);
    let second = handle_response(&mut reg, CHAT_MSG_KEY, USER_U, ResponseAction::Answer(4));
    assert_eq!(first, ChallengeOutcome::RejectedByTimeout { subject: USER_U });
    assert_eq!(second, ChallengeOutcome::Stale);
    assert!(reg.get(CHAT_MSG_KEY).is_none());
}

#[test]
fn repeated_events_on_settled_key_are_noops() {
    let mut reg = Registry::new();
    pending_seven_minus_three(&mut reg);
    let _ = handle_timeout(&mut reg, CHAT_MSG_KEY);
    assert_eq!(handle_timeout(&mut reg, CHAT_MSG_KEY), ChallengeOutcome::Stale);
    assert_eq!(
        handle_response(&mut reg, CHAT_MSG_KEY, USER_U, ResponseAction::Answer(4)),
        ChallengeOutcome::Stale
    );
    assert_eq!(handle_timeout(&mut reg, CHAT_MSG_KEY), ChallengeOutcome::Stale);
}

#[test]
fn unknown_key_is_stale() {
    let mut reg = Registry::new();
    assert_eq!(handle_timeout(&mut reg, 5), ChallengeOutcome::Stale);
    assert_eq!(
        handle_response(&mut reg, 5, USER_U, ResponseAction::Answer(1)),
        ChallengeOutcome::Stale
    );
}

#[test]
fn challenges_are_independent() {
    let mut reg = Registry::new();
    let q1 = MathQuestion::new(2, Operator::Add, 2);
    let q2 = MathQuestion::new(3, Operator::Mul, 3);
    create_challenge(&mut reg, 1, 10, q1);
    create_challenge(&mut reg, 2, 20, q2);
    assert_eq!(
        handle_response(&mut reg, 1, 10, ResponseAction::Answer(4)),
        ChallengeOutcome::Approved { subject: 10 }
    );
    assert!(reg.get(1).is_none());
    assert!(reg.get(2).is_some());
    assert_eq!(
        handle_timeout(&mut reg, 2),
        ChallengeOutcome::RejectedByTimeout { subject: 20 }
    );
}

#[test]
fn override_capability_is_fail_closed() {
    let list = Some(vec![1u64, 2, 3]);
    assert!(resolve_override_capability(&list, 2, None));
    assert!(!resolve_override_capability(&list, 9, Some(true)));
    assert!(resolve_override_capability(&None, 9, Some(true)));
    assert!(!resolve_override_capability(&None, 9, Some(false)));
    assert!(!resolve_override_capability(&None, 9, None));
}
