use further_ng::span::Span;
use further_ng::systemd_utils::{
    watchdog, watchdog_tick, CheckOutcome, Notification, SystemdNotifier, SystemdState,
};

const FOREVER: Span = Span { secs: u64::MAX, nanos: 999_999_999 };

#[test]
fn a_disabled_notifier_is_silent() {
    let notifier = SystemdNotifier::new(false);
    assert!(!notifier.is_enabled());
    assert!(notifier.is_booted(false));
    assert!(notifier.is_booted(true));
    assert_eq!(notifier.report_state(SystemdState::Ready), None);
    assert_eq!(notifier.report_state(SystemdState::Errno(4000)), None);
    assert_eq!(notifier.get_watchdog_duration(Some(Span { secs: 3, nanos: 0 })), None);
    assert_eq!(watchdog(&notifier, Some(Span { secs: 3, nanos: 0 })), FOREVER);
    assert_eq!(
        watchdog_tick(&notifier, false),
        CheckOutcome { notification: None, fatal: true }
    );
}

#[test]
fn an_enabled_notifier_reports_each_state() {
    let notifier = SystemdNotifier::new(true);
    assert!(notifier.is_enabled());
    assert!(!notifier.is_booted(false));
    assert!(notifier.is_booted(true));
    assert_eq!(notifier.report_state(SystemdState::Ready), Some(Notification::Ready));
    assert_eq!(notifier.report_state(SystemdState::Watchdog), Some(Notification::Watchdog));
    assert_eq!(notifier.report_state(SystemdState::Stopping), Some(Notification::Stopping));
    assert_eq!(notifier.report_state(SystemdState::Errno(0)), Some(Notification::Errno(0)));
    assert_eq!(notifier.report_state(SystemdState::Errno(255)), Some(Notification::Errno(255)));
}

#[test]
fn only_unsigned_bytes_can_be_reported_as_error_numbers() {
    let enabled = SystemdNotifier::new(true);
    assert!(enabled.refuses(SystemdState::Errno(-1)));
    assert!(enabled.refuses(SystemdState::Errno(256)));
    assert!(!enabled.refuses(SystemdState::Errno(0)));
    assert!(!enabled.refuses(SystemdState::Errno(255)));
    assert!(!enabled.refuses(SystemdState::Stopping));
    let disabled = SystemdNotifier::new(false);
    assert!(!disabled.refuses(SystemdState::Errno(-1)));
    assert_eq!(disabled.report_state(SystemdState::Errno(-1)), None);
    assert_eq!(
        enabled.check_state(false, SystemdState::Errno(-1)),
        CheckOutcome { notification: Some(Notification::Errno(1)), fatal: true }
    );
}

#[test]
fn a_lost_connection_is_fatal() {
    let notifier = SystemdNotifier::new(true);
    assert_eq!(
        notifier.check_state(true, SystemdState::Ready),
        CheckOutcome { notification: Some(Notification::Ready), fatal: false }
    );
    assert_eq!(
        notifier.check_state(false, SystemdState::Ready),
        CheckOutcome { notification: Some(Notification::Errno(1)), fatal: true }
    );
    assert_eq!(
        watchdog_tick(&notifier, true),
        CheckOutcome { notification: Some(Notification::Watchdog), fatal: false }
    );
}

#[test]
fn the_watchdog_keeps_to_the_timeout() {
    let notifier = SystemdNotifier::new(true);
    let timeout = Span { secs: 3, nanos: 500_000_000 };
    assert_eq!(notifier.get_watchdog_duration(Some(timeout)), Some(timeout));
    assert_eq!(notifier.get_watchdog_duration(None), None);
    assert_eq!(watchdog(&notifier, Some(timeout)), timeout);
    assert_eq!(watchdog(&notifier, None), FOREVER);
}
