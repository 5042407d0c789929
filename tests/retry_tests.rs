use azeventhubs::error::{ErrorCategory, ErrorKind, RecoverableError};
use azeventhubs::retry::{recovery_outcome, RetryDecision, RetryMode, RetryOptions, RetryState};
use azeventhubs::scope::{CloseAction, ScopeLifecycle};

fn exponential(max_retries: u32) -> RetryOptions {
    RetryOptions {
        mode: RetryMode::Exponential,
        max_retries,
        delay_ms: 800,
        max_delay_ms: 60_000,
        try_timeout_ms: 60_000,
    }
}

#[test]
fn default_retry_options() {
    let o = RetryOptions::default();
    assert_eq!(o.mode, RetryMode::Exponential);
    assert_eq!(o.max_retries, 3);
    assert_eq!(o.delay_ms, 800);
    assert_eq!(o.max_delay_ms, 60_000);
    assert_eq!(o.calculate_try_timeout(0), 60_000);
    assert_eq!(o.calculate_try_timeout(7), 60_000);
}

#[test]
fn exponential_delay_doubles_and_applies_jitter() {
    let o = exponential(10);
    assert_eq!(o.calculate_retry_delay(&ErrorKind::Io, 1, 1000), Some(800));
    assert_eq!(o.calculate_retry_delay(&ErrorKind::Io, 2, 1000), Some(1600));
    assert_eq!(o.calculate_retry_delay(&ErrorKind::Io, 3, 1000), Some(3200));
    assert_eq!(o.calculate_retry_delay(&ErrorKind::Io, 1, 900), Some(720));
    assert_eq!(o.calculate_retry_delay(&ErrorKind::Io, 1, 1100), Some(880));
}

#[test]
fn exponential_delay_is_capped() {
    let o = exponential(100);
    assert_eq!(o.calculate_retry_delay(&ErrorKind::TryTimeout, 8, 1000), Some(60_000));
    assert_eq!(o.calculate_retry_delay(&ErrorKind::TryTimeout, 90, 1000), Some(60_000));
    assert_eq!(o.calculate_retry_delay(&ErrorKind::TryTimeout, 90, 1100), Some(66_000));
}

#[test]
fn fixed_delay_is_capped_and_has_no_jitter() {
    let o = RetryOptions { mode: RetryMode::Fixed, max_retries: 5, delay_ms: 5_000, max_delay_ms: 2_000, try_timeout_ms: 1 };
    assert_eq!(o.calculate_retry_delay(&ErrorKind::Io, 3, 900), Some(2_000));
    let o = RetryOptions { mode: RetryMode::Fixed, max_retries: 5, delay_ms: 500, max_delay_ms: 2_000, try_timeout_ms: 1 };
    assert_eq!(o.calculate_retry_delay(&ErrorKind::Io, 4, 1100), Some(500));
}

#[test]
fn no_delay_once_retries_are_used_up() {
    let o = exponential(3);
    assert_eq!(o.calculate_retry_delay(&ErrorKind::Io, 2, 1000), Some(1600));
    assert_eq!(o.calculate_retry_delay(&ErrorKind::Io, 3, 1000), None);
    assert_eq!(o.calculate_retry_delay(&ErrorKind::Io, 4, 1000), None);
}

#[test]
fn terminal_errors_are_not_retried() {
    let o = exponential(3);
    for e in [
        ErrorKind::AuthorizationDenied,
        ErrorKind::Unauthorized,
        ErrorKind::LinkNotFound,
        ErrorKind::QuotaExceeded,
        ErrorKind::MessageTooLarge,
        ErrorKind::Protocol,
        ErrorKind::ScopeDisposed,
        ErrorKind::Codec,
    ] {
        assert!(e.is_terminal());
        assert_eq!(o.calculate_retry_delay(&e, 1, 1000), None);
    }
    for e in [ErrorKind::Io, ErrorKind::TokenRejected, ErrorKind::LinkStolen, ErrorKind::TryTimeout] {
        assert!(!e.is_terminal());
        assert!(o.calculate_retry_delay(&e, 1, 1000).is_some());
    }
}

#[test]
fn connection_level_errors_ask_for_recovery() {
    assert!(ErrorKind::SessionEnded.should_try_recover());
    assert!(ErrorKind::IdleTimeout.should_try_recover());
    assert!(ErrorKind::Io.should_try_recover());
    assert!(ErrorKind::LinkDetached { closed: true, has_retry_after: false }.should_try_recover());
    assert!(!ErrorKind::LinkDetached { closed: true, has_retry_after: true }.should_try_recover());
    assert!(!ErrorKind::LinkDetached { closed: false, has_retry_after: false }.should_try_recover());
    assert!(!ErrorKind::TryTimeout.should_try_recover());
    assert!(ErrorKind::ScopeDisposed.is_scope_disposed());
    assert!(!ErrorKind::LinkClosed.is_scope_disposed());
    assert_eq!(ErrorKind::IdleTimeout.category(), ErrorCategory::Transport);
    assert_eq!(ErrorKind::BatchFull.category(), ErrorCategory::Validation);
    assert_eq!(ErrorKind::TryTimeout.category(), ErrorCategory::Timeout);
}

fn attempts_until_give_up(max_retries: u32, err: ErrorKind) -> u32 {
    let mut state = RetryState::new(exponential(max_retries));
    let mut attempts = 0;
    loop {
        attempts += 1;
        match state.on_failure(&err, 1000) {
            RetryDecision::Retry { .. } => continue,
            RetryDecision::GiveUp => return attempts,
        }
    }
}

#[test]
fn retry_bound_holds_for_every_attempt_failing() {
    for k in [0u32, 1, 2, 3, 7] {
        let attempts = attempts_until_give_up(k, ErrorKind::Io);
        assert!(attempts >= 1);
        assert!(attempts <= k + 1);
    }
    assert_eq!(attempts_until_give_up(3, ErrorKind::Io), 3);
    assert_eq!(attempts_until_give_up(3, ErrorKind::Unauthorized), 1);
}

#[test]
fn retry_state_tracks_recovery_and_timeout() {
    let mut state = RetryState::new(exponential(3));
    assert_eq!(state.try_timeout_ms, 60_000);
    let d = state.on_failure(&ErrorKind::SessionEnded, 1000);
    assert_eq!(d, RetryDecision::Retry { delay_ms: 800, recover: true });
    assert!(state.should_try_recover);
    let d = state.on_failure(&ErrorKind::TryTimeout, 1000);
    assert_eq!(d, RetryDecision::Retry { delay_ms: 1600, recover: false });
    assert_eq!(state.failed_attempts, 2);
}

#[test]
fn get_properties_idle_timeout_without_retries_closes_connection() {
    let mut scope = ScopeLifecycle::new_owned();
    let mut state = RetryState::new(exponential(0));
    let mut attempts = 0;
    let last_error = loop {
        attempts += 1;
        let err = ErrorKind::IdleTimeout;
        match state.on_failure(&err, 1000) {
            RetryDecision::Retry { .. } => continue,
            RetryDecision::GiveUp => break err,
        }
    };
    assert_eq!(attempts, 1);
    assert_eq!(last_error.category(), ErrorCategory::Transport);
    assert_eq!(scope.close_if_owned(), CloseAction::CloseConnection);
    assert!(scope.is_closed());
}

#[test]
fn receive_stops_at_once_on_disposed_scope() {
    let mut state = RetryState::new(exponential(5));
    assert_eq!(state.on_receive_failure(&ErrorKind::ScopeDisposed, 1000), RetryDecision::GiveUp);
    assert_eq!(state.failed_attempts, 0);
    let mut state = RetryState::new(exponential(5));
    assert_eq!(
        state.on_receive_failure(&ErrorKind::Io, 1000),
        RetryDecision::Retry { delay_ms: 800, recover: true }
    );
    assert_eq!(state.failed_attempts, 1);
}

#[test]
fn recovery_outcome_only_stops_on_disposed_scope() {
    assert_eq!(recovery_outcome(Ok(())), Ok(()));
    assert_eq!(recovery_outcome(Err(ErrorKind::Io)), Ok(()));
    assert_eq!(recovery_outcome(Err(ErrorKind::ScopeDisposed)), Err(ErrorKind::ScopeDisposed));
}
