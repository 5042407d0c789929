use azeventhubs::cbs::{refresh_at, CbsCommand, CbsState, Claim, DEFAULT_REFRESH_MARGIN_MS};
use azeventhubs::error::ErrorKind;
use azeventhubs::retry::{RetryMode, RetryOptions};

fn register(link_id: u32, expires_at_ms: u64) -> CbsCommand {
    CbsCommand::Register {
        link_id,
        endpoint: format!("amqps://ns.servicebus.windows.net/hub/Partitions/{}", link_id),
        resource: "amqps://ns.servicebus.windows.net/hub".to_string(),
        claims: vec![Claim::Send],
        expires_at_ms,
    }
}

#[test]
fn refresh_is_scheduled_before_expiry() {
    assert_eq!(DEFAULT_REFRESH_MARGIN_MS, 300_000);
    assert_eq!(refresh_at(3_600_000, 0), 3_300_000);
    // Close to expiry the refresh waits the minimum of one second.
    assert_eq!(refresh_at(1_000_000, 900_000), 901_000);
    assert_eq!(refresh_at(1_000, 5_000), 6_000);
    for (expiry, now) in [(3_600_000u64, 0u64), (400_000, 100_000), (700_000, 500_000), (10_000, 8_000)] {
        let at = refresh_at(expiry, now) as i128;
        let t = expiry as i128;
        assert!(at >= t - 300_000 && at <= t - 1_000);
    }
}

#[test]
fn claims_names() {
    assert_eq!(Claim::Send.as_str(), "Send");
    assert_eq!(Claim::Listen.as_str(), "Listen");
    assert_eq!(Claim::Manage.as_str(), "Manage");
}

#[test]
fn register_remove_and_wakeup() {
    let mut cbs = CbsState::new(RetryOptions::default());
    assert_eq!(cbs.next_wakeup(), None);
    cbs.handle_command(register(1, 3_600_000), 0);
    cbs.handle_command(register(2, 1_800_000), 0);
    assert_eq!(cbs.next_wakeup(), Some(1_500_000));
    assert_eq!(cbs.due(1_499_999), Vec::<u32>::new());
    assert_eq!(cbs.due(1_500_000), vec![2]);
    assert_eq!(cbs.due(4_000_000), vec![1, 2]);
    // Registering link 2 again replaces its record.
    cbs.handle_command(register(2, 7_200_000), 0);
    assert_eq!(cbs.next_wakeup(), Some(3_300_000));
    cbs.handle_command(CbsCommand::Remove(1), 0);
    assert_eq!(cbs.next_wakeup(), Some(6_900_000));
    assert!(!cbs.is_authorized(1));
    assert!(cbs.is_authorized(2));
    cbs.handle_command(CbsCommand::Stop, 0);
    assert!(cbs.is_stopped_exec());
}

#[test]
fn refresh_success_reschedules() {
    let mut cbs = CbsState::new(RetryOptions::default());
    cbs.handle_command(register(7, 3_600_000), 0);
    assert!(cbs.on_refreshed(7, 7_200_000, 3_300_000));
    assert_eq!(cbs.next_wakeup(), Some(6_900_000));
    assert!(!cbs.on_refreshed(8, 7_200_000, 3_300_000));
    let record = cbs.record(7).unwrap();
    assert_eq!(record.expires_at_ms, 7_200_000);
    assert_eq!(record.claims, vec![Claim::Send]);
    assert!(cbs.record(8).is_none());
}

#[test]
fn failed_refreshes_back_off_then_mark_unauthorized() {
    let retry = RetryOptions { mode: RetryMode::Exponential, max_retries: 3, delay_ms: 1_000, max_delay_ms: 60_000, try_timeout_ms: 60_000 };
    let mut cbs = CbsState::new(retry);
    cbs.handle_command(register(3, 3_600_000), 0);
    assert_eq!(cbs.on_refresh_failed(3, &ErrorKind::Io, 3_300_000, 1000), Some(3_301_000));
    assert_eq!(cbs.next_wakeup(), Some(3_301_000));
    assert_eq!(cbs.on_refresh_failed(3, &ErrorKind::Io, 3_301_000, 1000), Some(3_303_000));
    assert_eq!(cbs.on_refresh_failed(3, &ErrorKind::Io, 3_303_000, 1000), None);
    assert!(!cbs.is_authorized(3));
    assert_eq!(cbs.next_wakeup(), None);
    assert_eq!(cbs.on_refresh_failed(3, &ErrorKind::Io, 3_304_000, 1000), None);
    // A new registration authorizes the link again.
    cbs.handle_command(register(3, 7_200_000), 3_305_000);
    assert!(cbs.is_authorized(3));
}

#[test]
fn terminal_refresh_failure_marks_unauthorized_at_once() {
    let mut cbs = CbsState::new(RetryOptions::default());
    cbs.handle_command(register(4, 3_600_000), 0);
    assert_eq!(cbs.on_refresh_failed(4, &ErrorKind::AuthorizationDenied, 3_300_000, 1000), None);
    assert!(!cbs.is_authorized(4));
}
