use snapit_api::chain::TxHashSchema;
use snapit_api::classify::{classify, RetryDirective};
use snapit_api::fee::escalate;
use snapit_api::retry::{Action, Attempt, Event, Failure, SubmissionState, SubmitOutcome, MAX_RETRIES};

fn rejected(msg: &str) -> Event {
    Event::Submission(SubmitOutcome::Rejected(msg.to_string()))
}

fn submitted(state: &SubmissionState) -> Attempt {
    match state.next_action() {
        Action::Submit(a) => a,
        other => panic!("expected a submission, got {:?}", other),
    }
}

#[test]
fn nonce_42_followed_by_space() {
    let d = classify("nonce too low: next nonce 42 , tx nonce 40", 100);
    assert!(matches!(d, RetryDirective::RetryWithNonce(42)));
    let d = classify("next nonce 42\tagain", 0);
    assert!(matches!(d, RetryDirective::RetryWithNonce(42)));
}

#[test]
fn nonce_at_end_of_message() {
    let d = classify("invalid nonce; next nonce 9", 5);
    assert!(matches!(d, RetryDirective::RetryWithNonce(9)));
}

#[test]
fn nonce_checked_before_underpriced() {
    let d = classify("replacement transaction underpriced; next nonce 3 ", 100);
    assert!(matches!(d, RetryDirective::RetryWithNonce(3)));
}

#[test]
fn underpriced_raises_fee_by_ten_percent() {
    let d = classify("replacement transaction underpriced", 100);
    assert!(matches!(d, RetryDirective::RetryWithFee(110)));
    let d = classify("error: replacement transaction underpriced (code -32000)", 99);
    assert!(matches!(d, RetryDirective::RetryWithFee(108)));
}

#[test]
fn unparseable_nonce_is_fatal() {
    let msg = "next nonce abc";
    match classify(msg, 100) {
        RetryDirective::Fatal(reason) => assert_eq!(reason, msg),
        other => panic!("expected fatal, got {:?}", other),
    }
}

#[test]
fn overflowing_nonce_is_fatal() {
    let msg = "next nonce 99999999999999999999 is expected";
    assert!(matches!(classify(msg, 1), RetryDirective::Fatal(_)));
}

#[test]
fn largest_nonce_is_read() {
    let d = classify("next nonce 18446744073709551615 ", 1);
    assert!(matches!(d, RetryDirective::RetryWithNonce(18446744073709551615)));
}

#[test]
fn unmatched_error_is_fatal_with_message() {
    let msg = "execution reverted: token already minted";
    match classify(msg, 7) {
        RetryDirective::Fatal(reason) => assert_eq!(reason, msg),
        other => panic!("expected fatal, got {:?}", other),
    }
    assert!(matches!(classify("", 7), RetryDirective::Fatal(_)));
}

#[test]
fn escalate_twice_compounds() {
    assert_eq!(escalate(100), 110);
    assert_eq!(escalate(escalate(100)), 121);
    assert_eq!(escalate(99), 108);
    assert_eq!(escalate(0), 0);
    assert_eq!(escalate(9), 9);
    assert_eq!(escalate(10), 11);
}

#[test]
fn first_attempt_success_returns_hash() {
    let hash = TxHashSchema([7u8; 32]);
    let s = SubmissionState::start(Some(3), Some(50));
    let a = submitted(&s);
    assert_eq!((a.index, a.nonce, a.fee), (0, Some(3), 50));
    let s = s.step(Event::Submission(SubmitOutcome::Sent(hash)));
    assert!(matches!(s.next_action(), Action::Finish));
    match s.outcome() {
        Some(Ok(h)) => assert_eq!(h.0, [7u8; 32]),
        other => panic!("expected success, got {:?}", other),
    }
}

#[test]
fn fee_is_queried_only_when_absent() {
    let s = SubmissionState::start(None, None);
    assert!(matches!(s.next_action(), Action::QueryFee));
    let s = s.step(Event::FeeQuoted(1000));
    let a = submitted(&s);
    assert_eq!((a.index, a.nonce, a.fee), (0, None, 1000));
    let s = SubmissionState::start(None, Some(5));
    assert!(matches!(s.next_action(), Action::Submit(_)));
}

#[test]
fn nonce_then_underpriced_scenario() {
    let s = SubmissionState::start(None, None);
    let s = s.step(Event::FeeQuoted(1000));
    let s = s.step(rejected("nonce too low: next nonce 7, current nonce 5"));
    let a = submitted(&s);
    assert_eq!((a.index, a.nonce, a.fee), (1, Some(7), 1000));
    let s = s.step(rejected("replacement transaction underpriced"));
    let a = submitted(&s);
    assert_eq!((a.index, a.nonce, a.fee), (2, Some(7), 1100));
}

#[test]
fn transient_failures_exhaust_budget_after_five_calls() {
    let mut s = SubmissionState::start(Some(1), Some(100));
    let mut calls = 0u64;
    for i in 0..10 {
        match s.next_action() {
            Action::Submit(_) => calls += 1,
            _ => {}
        }
        let msg = if i % 2 == 0 { "replacement transaction underpriced" } else { "next nonce 8 " };
        s = s.step(rejected(msg));
    }
    assert_eq!(calls, MAX_RETRIES);
    assert!(matches!(s.next_action(), Action::Finish));
    match s.outcome() {
        Some(Err(Failure::RetryBudgetExhausted(last))) => assert_eq!(last, "replacement transaction underpriced"),
        other => panic!("expected an exhausted budget, got {:?}", other),
    }
}

#[test]
fn fees_compound_over_retries() {
    let mut s = SubmissionState::start(None, Some(100));
    let expected = [100u128, 110, 121, 133, 146];
    for (k, fee) in expected.iter().enumerate() {
        let a = submitted(&s);
        assert_eq!(a.index, k as u64);
        assert_eq!(a.fee, *fee);
        s = s.step(rejected("replacement transaction underpriced"));
    }
    assert!(matches!(s.outcome(), Some(Err(Failure::RetryBudgetExhausted(_)))));
}

#[test]
fn fatal_error_stops_at_once() {
    let s = SubmissionState::start(None, Some(100));
    let s = s.step(rejected("execution reverted"));
    assert!(matches!(s.next_action(), Action::Finish));
    match s.outcome() {
        Some(Err(Failure::Fatal(m))) => assert_eq!(m, "execution reverted"),
        other => panic!("expected fatal, got {:?}", other),
    }
}

#[test]
fn terminal_state_ignores_events() {
    let s = SubmissionState::start(None, Some(100));
    let s = s.step(rejected("execution reverted"));
    let s = s.step(rejected("next nonce 4 "));
    assert!(matches!(s.next_action(), Action::Finish));
    assert!(matches!(s.outcome(), Some(Err(Failure::Fatal(_)))));
}

#[test]
fn largest_fee_escalates_over_retries() {
    let mut s = SubmissionState::start(None, Some(u64::MAX));
    for _ in 0..4 {
        s = s.step(rejected("replacement transaction underpriced"));
    }
    let a = submitted(&s);
    assert_eq!(a.index, 4);
    assert!(a.fee > u64::MAX as u128);
}
