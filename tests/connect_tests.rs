use pgpool::{ConnectAction, ConnectOutcome, ConnectRetry};

#[test]
fn two_failures_then_success_within_three_retries() {
    let mut r = ConnectRetry::new(3);
    assert_eq!(r.attempt(), 1);
    assert_eq!(r.on_outcome(ConnectOutcome::Failed), ConnectAction::Retry);
    assert_eq!(r.attempt(), 2);
    assert_eq!(r.on_outcome(ConnectOutcome::Failed), ConnectAction::Retry);
    assert_eq!(r.attempt(), 3);
    assert_eq!(r.on_outcome(ConnectOutcome::Connected), ConnectAction::Done);
}

#[test]
fn one_retry_gives_up_after_first_failure() {
    let mut r = ConnectRetry::new(1);
    assert_eq!(r.on_outcome(ConnectOutcome::Failed), ConnectAction::GiveUp);
}

#[test]
fn third_failure_exhausts_three_retries() {
    let mut r = ConnectRetry::new(3);
    assert_eq!(r.on_outcome(ConnectOutcome::Failed), ConnectAction::Retry);
    assert_eq!(r.on_outcome(ConnectOutcome::Failed), ConnectAction::Retry);
    assert_eq!(r.on_outcome(ConnectOutcome::Failed), ConnectAction::GiveUp);
}

#[test]
fn refusals_do_not_count() {
    let mut r = ConnectRetry::new(2);
    for _ in 0..10 {
        assert_eq!(r.on_outcome(ConnectOutcome::Rejected), ConnectAction::Backoff);
    }
    assert_eq!(r.attempt(), 1);
    assert_eq!(r.on_outcome(ConnectOutcome::Failed), ConnectAction::Retry);
    assert_eq!(r.on_outcome(ConnectOutcome::Failed), ConnectAction::GiveUp);
}

#[test]
fn zero_retries_gives_up_at_once() {
    let mut r = ConnectRetry::new(0);
    assert_eq!(r.on_outcome(ConnectOutcome::Failed), ConnectAction::GiveUp);
}
