//! What the service manager is told, and when.

use crate::span::Span;
use vstd::prelude::*;

verus! {

/// Decides what the service manager hears. A notifier that is not enabled leaves the
/// service manager alone.
#[derive(Debug, Clone, Copy)]
pub struct SystemdNotifier {
    enabled: bool,
}

/// A state of the service.
#[derive(Debug, Clone, Copy)]
pub enum SystemdState {
    Ready,
    Watchdog,
    Stopping,
    /// An error number in the style of `errno`.
    Errno(i32),
}

/// A message to the service manager.
#[derive(Debug, Clone, Copy, PartialEq, Eq, Structural)]
pub enum Notification {
    Ready,
    Watchdog,
    Stopping,
    Errno(u8),
}

/// What follows from a look at the connection.
#[derive(Debug, Clone, Copy, PartialEq, Eq, Structural)]
pub struct CheckOutcome {
    /// The message to send, if any.
    pub notification: Option<Notification>,
    /// Whether the service has to give up once the message has been sent.
    pub fatal: bool,
}

impl SystemdState {
    /// A message carries error numbers from 0 to 255 only.
    pub open spec fn reportable(self) -> bool {
        self matches SystemdState::Errno(errno) ==> 0 <= errno <= 255
    }

    /// The message that reports this state.
    pub open spec fn message(self) -> Notification {
        match self {
            SystemdState::Ready => Notification::Ready,
            SystemdState::Watchdog => Notification::Watchdog,
            SystemdState::Stopping => Notification::Stopping,
            SystemdState::Errno(errno) => Notification::Errno(errno as u8),
        }
    }
}

/// Whether a service may start, with a notifier that is enabled or not.
pub open spec fn may_start(enabled: bool, daemon_booted: bool) -> bool {
    enabled ==> daemon_booted
}

/// Whether an enabled or disabled notifier refuses to report `state`: there is no
/// message for it. A notifier that is not enabled needs none.
pub open spec fn refused(enabled: bool, state: SystemdState) -> bool {
    enabled && !state.reportable()
}

/// What an enabled or disabled notifier sends to report `state`.
pub open spec fn reported(enabled: bool, state: SystemdState) -> Option<Notification> {
    if enabled && state.reportable() {
        Some(state.message())
    } else {
        None
    }
}

/// The outcome of a look at the connection: a connected service reports `state`, any
/// other reports the error number 1 and gives up.
pub open spec fn checked(enabled: bool, connected: bool, state: SystemdState) -> CheckOutcome {
    if connected {
        CheckOutcome { notification: reported(enabled, state), fatal: false }
    } else {
        CheckOutcome { notification: reported(enabled, SystemdState::Errno(1)), fatal: true }
    }
}

/// The longest length of time that there is.
pub open spec fn longest() -> Span {
    Span { secs: u64::MAX, nanos: 999_999_999 }
}

/// How often a service looks at its connection: as often as an enabled notifier's
/// service manager expects to hear from it, and otherwise never again after the start.
pub open spec fn watchdog_interval(enabled: bool, timeout: Option<Span>) -> Span {
    match timeout {
        Some(expected) if enabled => expected,
        _ => longest(),
    }
}

impl SystemdNotifier {
    pub closed spec fn enabled(self) -> bool {
        self.enabled
    }

    /// A notifier that is enabled or not.
    pub fn new(enabled: bool) -> (notifier: Self)
        ensures
            notifier.enabled() == enabled,
    {
        SystemdNotifier { enabled }
    }

    /// Whether the notifier is enabled. Only then is the service manager asked anything.
    pub fn is_enabled(&self) -> (enabled: bool)
        ensures
            enabled == self.enabled(),
    {
        self.enabled
    }

    /// Whether the service may start. `daemon_booted` is whether the machine was booted
    /// by the service manager, which only matters to an enabled notifier.
    pub fn is_booted(&self, daemon_booted: bool) -> (booted: bool)
        ensures
            booted == may_start(self.enabled(), daemon_booted),
    {
        if !self.enabled {
            return true;
        }
        daemon_booted
    }

    /// Whether the notifier refuses to report `state`.
    pub fn refuses(&self, state: SystemdState) -> (refuses: bool)
        ensures
            refuses == refused(self.enabled(), state),
    {
        match state {
            SystemdState::Errno(errno) => self.enabled && (errno < 0 || errno > 255),
            _ => false,
        }
    }

    /// The message to send to report `state`, if any. The notifier must not refuse to
    /// report it.
    pub fn report_state(&self, state: SystemdState) -> (notification: Option<Notification>)
        requires
            !refused(self.enabled(), state),
        ensures
            notification == reported(self.enabled(), state),
    {
        if !self.enabled {
            return None;
        }
        Some(
            match state {
                SystemdState::Ready => Notification::Ready,
                SystemdState::Watchdog => Notification::Watchdog,
                SystemdState::Stopping => Notification::Stopping,
                SystemdState::Errno(errno) => Notification::Errno(errno as u8),
            },
        )
    }

    /// What to do after a look at the connection: `connected` is whether it stands.
    pub fn check_state(&self, connected: bool, state: SystemdState) -> (outcome: CheckOutcome)
        requires
            connected ==> !refused(self.enabled(), state),
        ensures
            outcome == checked(self.enabled(), connected, state),
    {
        if connected {
            CheckOutcome { notification: self.report_state(state), fatal: false }
        } else {
            CheckOutcome {
                notification: self.report_state(SystemdState::Errno(1)),
                fatal: true,
            }
        }
    }

    /// The time within which the service manager expects to hear from the service.
    /// `timeout` is what the service manager has set, if anything; a notifier that is
    /// not enabled takes no notice of it.
    pub fn get_watchdog_duration(&self, timeout: Option<Span>) -> (duration: Option<Span>)
        ensures
            duration == (if self.enabled() { timeout } else { None }),
    {
        if !self.enabled {
            return None;
        }
        timeout
    }
}

/// How often the watchdog looks at the connection. `timeout` is what the service
/// manager has set, if anything.
pub fn watchdog(systemd_notifier: &SystemdNotifier, timeout: Option<Span>) -> (interval: Span)
    ensures
        interval == watchdog_interval(systemd_notifier.enabled(), timeout),
{
    match systemd_notifier.get_watchdog_duration(timeout) {
        Some(expected) => expected,
        None => Span { secs: u64::MAX, nanos: 999_999_999 },
    }
}

/// What the watchdog does each time: it reports that the service is alive, or gives up
/// on a lost connection.
pub fn watchdog_tick(systemd_notifier: &SystemdNotifier, connected: bool) -> (outcome: CheckOutcome)
    ensures
        outcome == checked(systemd_notifier.enabled(), connected, SystemdState::Watchdog),
{
    systemd_notifier.check_state(connected, SystemdState::Watchdog)
}

/// A notifier that is not enabled never has a message for the service manager, never
/// keeps the service from starting, and has no watchdog to serve.
pub proof fn law_disabled_is_silent(
    daemon_booted: bool,
    connected: bool,
    state: SystemdState,
    timeout: Option<Span>,
)
    ensures
        may_start(false, daemon_booted),
        reported(false, state) is None,
        checked(false, connected, state).notification is None,
        watchdog_interval(false, timeout) == longest(),
{
}

/// The service gives up exactly when the connection is lost, whatever it meant to
/// report and whether or not the service manager hears of it. An enabled notifier
/// reports a lost connection as the error number 1, and otherwise the state it was
/// asked to report, if there is a message for it.
pub proof fn law_lost_connection_is_fatal(enabled: bool, connected: bool, state: SystemdState)
    ensures
        checked(enabled, connected, state).fatal == !connected,
        enabled && !connected ==> checked(enabled, connected, state).notification == Some(
            Notification::Errno(1),
        ),
        connected && enabled && state.reportable() ==> checked(
            enabled,
            connected,
            state,
        ).notification == Some(state.message()),
{
}

/// A report is refused exactly by an enabled notifier for an error number that is not
/// an unsigned byte, so for every negative one; nothing is sent then. Every report that
/// is not refused is sent by an enabled notifier and no other.
pub proof fn law_refused_reports_are_not_sent(enabled: bool, state: SystemdState)
    ensures
        refused(enabled, state) <==> enabled && (state matches SystemdState::Errno(errno) && !(0
            <= errno <= 255)),
        enabled && (state matches SystemdState::Errno(errno) && errno < 0) ==> refused(
            enabled,
            state,
        ),
        refused(enabled, state) ==> reported(enabled, state) is None,
        !refused(enabled, state) ==> (reported(enabled, state) is Some <==> enabled),
{
}

/// Different states that can be reported are reported by different messages.
pub proof fn law_messages_differ(first: SystemdState, second: SystemdState)
    requires
        first.reportable(),
        second.reportable(),
        first.message() == second.message(),
    ensures
        first == second,
{
}

/// An enabled notifier starts only on a machine that the service manager has booted. It
/// reports each state by the message of that name, an error with its own number.
pub proof fn law_states_are_reported_by_name(daemon_booted: bool, errno: u8)
    ensures
        may_start(true, daemon_booted) == daemon_booted,
        reported(true, SystemdState::Ready) == Some(Notification::Ready),
        reported(true, SystemdState::Watchdog) == Some(Notification::Watchdog),
        reported(true, SystemdState::Stopping) == Some(Notification::Stopping),
        reported(true, SystemdState::Errno(errno as i32)) == Some(Notification::Errno(errno)),
{
}

/// While the connection stands, a look at it sends what reporting the state alone would
/// send, and the service goes on.
pub proof fn law_looking_at_a_connection_reports(enabled: bool, state: SystemdState)
    ensures
        checked(enabled, true, state).notification == reported(enabled, state),
        !checked(enabled, true, state).fatal,
        checked(enabled, false, state).notification == (if enabled {
            Some(Notification::Errno(1))
        } else {
            None
        }),
        checked(enabled, false, state).fatal,
{
}

/// The service looks at its connection exactly as often as the service manager expects
/// to hear from an enabled notifier. Where nothing is expected it waits for as long as a
/// length of time can be.
pub proof fn law_watchdog_keeps_to_the_timeout(enabled: bool, timeout: Option<Span>)
    ensures
        enabled ==> (timeout matches Some(expected) ==> watchdog_interval(enabled, timeout)
            == expected),
        !enabled || timeout is None ==> watchdog_interval(enabled, timeout) == (Span {
            secs: 0xffff_ffff_ffff_ffff,
            nanos: 999_999_999,
        }),
{
}

/// An enabled notifier answers for the machine, for what is reported and for the timeout;
/// any other lets the service start, sends nothing and has no timeout.
pub proof fn law_notifier_answers(
    notifier: SystemdNotifier,
    daemon_booted: bool,
    booted: bool,
    timeout: Option<Span>,
    duration: Option<Span>,
)
    requires
        call_ensures(SystemdNotifier::is_booted, (&notifier, daemon_booted), booted),
        call_ensures(SystemdNotifier::get_watchdog_duration, (&notifier, timeout), duration),
    ensures
        notifier.enabled() ==> booted == daemon_booted && duration == timeout,
        !notifier.enabled() ==> booted && duration is None,
{
}

/// Each time, the watchdog of an enabled notifier reports that the service is alive while
/// the connection stands, and else the error number 1, upon which the service gives up.
pub proof fn law_watchdog_reports_or_gives_up(
    notifier: SystemdNotifier,
    connected: bool,
    outcome: CheckOutcome,
)
    requires
        call_ensures(watchdog_tick, (&notifier, connected), outcome),
    ensures
        outcome.fatal == !connected,
        !notifier.enabled() ==> outcome.notification is None,
        notifier.enabled() && connected ==> outcome.notification == Some(Notification::Watchdog),
        notifier.enabled() && !connected ==> outcome.notification == Some(Notification::Errno(1)),
{
}

} // verus!
