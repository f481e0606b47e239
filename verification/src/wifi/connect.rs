//! The connect procedure.

use crate::wifi::{ConnectionSession, ConnectionState, WifiConnectionError, WifiFault};
use crate::wifi::{WIFI_POLL_DELAY_MS, WIFI_RECONNECT_DELAY_MS};
use vstd::prelude::*;

verus! {

/// What the caller learned while connecting.
#[derive(Clone, Copy, Debug, PartialEq, Eq, Structural)]
pub enum ConnectEvent {
    /// The procedure begins, or the delay before the next attempt is over.
    Begin,
    /// The radio was started and the connect call accepted, or not.
    ConnectIssued(bool),
    /// The link is up, or not yet.
    LinkPolled(bool),
    /// An address is there, or not yet.
    AddressPolled(bool),
    /// After the stabilization delay the radio says it is connected, or not.
    Verified(bool),
}

/// What the caller does next while connecting.
#[derive(Clone, Copy, Debug, PartialEq, Eq, Structural)]
pub enum ConnectAction {
    /// Initialize the controller, start the radio unless it runs, and issue
    /// the connect call.
    StartAndConnect,
    /// Wait this many milliseconds, then ask whether the link is up.
    PollLink { delay_ms: u64 },
    /// Wait this many milliseconds, then ask whether an address is there.
    PollAddress { delay_ms: u64 },
    /// Wait this many milliseconds for the link to settle, then ask the
    /// radio whether it is connected.
    VerifyAfterDelay { delay_ms: u64 },
    /// Wait the retry delay of the session, then begin the next attempt.
    RetryAfterDelay { delay_ms: u64 },
    /// The link is up and verified.
    Connected,
    /// The link could not be brought up.
    Failed(WifiConnectionError),
}

/// The session in `state` with the poll counter at `polls`.
pub open spec fn moved(session: ConnectionSession, state: ConnectionState, polls: u32)
    -> ConnectionSession {
    ConnectionSession { state, polls, ..session }
}

/// What follows when the attempt under way has failed: the next one after a
/// delay if one is left, else the end.
pub open spec fn attempt_failed(session: ConnectionSession) -> (ConnectionSession, ConnectAction) {
    if session.attempts < session.max_attempts {
        (
            moved(session, ConnectionState::Idle, 0),
            ConnectAction::RetryAfterDelay { delay_ms: session.retry_delay_ms },
        )
    } else {
        (
            moved(session, ConnectionState::Disconnected, 0),
            ConnectAction::Failed(WifiConnectionError::Exhausted),
        )
    }
}

/// What follows when an attempt is to begin: it starts if one is left, else
/// the procedure ends.
pub open spec fn attempt_begins(session: ConnectionSession) -> (ConnectionSession, ConnectAction) {
    if session.attempts < session.max_attempts {
        (
            ConnectionSession {
                state: ConnectionState::Starting,
                attempts: (session.attempts + 1) as u8,
                polls: 0,
                ..session
            },
            ConnectAction::StartAndConnect,
        )
    } else {
        (
            moved(session, ConnectionState::Disconnected, 0),
            ConnectAction::Failed(WifiConnectionError::Exhausted),
        )
    }
}

/// What follows a poll that found nothing: another poll after the delay, or
/// the failure of the attempt when the polls of this wait are used up.
pub open spec fn poll_missed(session: ConnectionSession, again: ConnectAction) -> (
    ConnectionSession,
    ConnectAction,
) {
    if session.polls + 1 < session.poll_limit {
        (ConnectionSession { polls: (session.polls + 1) as u32, ..session }, again)
    } else {
        attempt_failed(session)
    }
}

/// Why a session whose radio is off or on its way down cannot connect: it
/// has no attempt left, or else the radio is simply not connected.
pub open spec fn radio_off_error(session: ConnectionSession) -> WifiConnectionError {
    if session.attempts < session.max_attempts {
        WifiConnectionError::Wifi(WifiFault::Disconnected)
    } else {
        WifiConnectionError::Exhausted
    }
}

/// The next state and action of the connect procedure.
pub open spec fn connect_next(session: ConnectionSession, event: ConnectEvent) -> (
    ConnectionSession,
    ConnectAction,
) {
    match session.state {
        ConnectionState::Idle => attempt_begins(session),
        ConnectionState::Starting => match event {
            ConnectEvent::ConnectIssued(true) => (
                moved(session, ConnectionState::Connecting, 0),
                ConnectAction::PollLink { delay_ms: 0 },
            ),
            _ => attempt_failed(session),
        },
        ConnectionState::Connecting => match event {
            ConnectEvent::LinkPolled(true) => (
                moved(session, ConnectionState::LinkUp, 0),
                ConnectAction::PollAddress { delay_ms: 0 },
            ),
            ConnectEvent::LinkPolled(false) => poll_missed(
                session,
                ConnectAction::PollLink { delay_ms: WIFI_POLL_DELAY_MS },
            ),
            _ => attempt_failed(session),
        },
        ConnectionState::LinkUp => match event {
            ConnectEvent::AddressPolled(true) => (
                moved(session, ConnectionState::AddressAcquired, 0),
                ConnectAction::VerifyAfterDelay { delay_ms: WIFI_RECONNECT_DELAY_MS },
            ),
            ConnectEvent::AddressPolled(false) => poll_missed(
                session,
                ConnectAction::PollAddress { delay_ms: WIFI_POLL_DELAY_MS },
            ),
            _ => attempt_failed(session),
        },
        ConnectionState::AddressAcquired => match event {
            ConnectEvent::Verified(true) => (
                moved(session, ConnectionState::Stable, 0),
                ConnectAction::Connected,
            ),
            _ => attempt_failed(session),
        },
        ConnectionState::Stable | ConnectionState::Monitoring => (
            session,
            ConnectAction::Connected,
        ),
        ConnectionState::Disconnecting | ConnectionState::Disconnected => (
            session,
            ConnectAction::Failed(radio_off_error(session)),
        ),
    }
}

fn fail_attempt(session: ConnectionSession) -> (next: (ConnectionSession, ConnectAction))
    ensures
        next == attempt_failed(session),
{
    if session.attempts < session.max_attempts {
        (
            ConnectionSession { state: ConnectionState::Idle, polls: 0, ..session },
            ConnectAction::RetryAfterDelay { delay_ms: session.retry_delay_ms },
        )
    } else {
        (
            ConnectionSession { state: ConnectionState::Disconnected, polls: 0, ..session },
            ConnectAction::Failed(WifiConnectionError::Exhausted),
        )
    }
}

fn miss_poll(session: ConnectionSession, again: ConnectAction) -> (next: (
    ConnectionSession,
    ConnectAction,
))
    ensures
        next == poll_missed(session, again),
{
    if session.poll_limit > 0 && session.polls < session.poll_limit - 1 {
        (ConnectionSession { polls: session.polls + 1, ..session }, again)
    } else {
        fail_attempt(session)
    }
}

/// Advances the connect procedure by one event.
///
/// An attempt starts the radio and issues the connect call, polls for the
/// link and then for an address, `WIFI_POLL_DELAY_MS` between two polls,
/// and, `WIFI_RECONNECT_DELAY_MS` after the address is there, asks the radio
/// whether it is connected. Whatever fails on the way ends the
/// attempt, and so does an event that does not answer what was asked; the
/// next attempt begins after the retry delay of the session as long as
/// fewer than `max_attempts` were started, and after that the procedure
/// ends with `WifiConnectionError::Exhausted`.
pub fn connect_to_wifi(session: ConnectionSession, event: ConnectEvent) -> (next: (
    ConnectionSession,
    ConnectAction,
))
    ensures
        next == connect_next(session, event),
        session.wf() ==> next.0.wf(),
        next.0.max_attempts == session.max_attempts,
        next.0.retry_delay_ms == session.retry_delay_ms,
        next.0.poll_limit == session.poll_limit,
{
    match session.state {
        ConnectionState::Idle => {
            if session.attempts < session.max_attempts {
                (
                    ConnectionSession {
                        state: ConnectionState::Starting,
                        attempts: session.attempts + 1,
                        polls: 0,
                        ..session
                    },
                    ConnectAction::StartAndConnect,
                )
            } else {
                (
                    ConnectionSession { state: ConnectionState::Disconnected, polls: 0, ..session },
                    ConnectAction::Failed(WifiConnectionError::Exhausted),
                )
            }
        },
        ConnectionState::Starting => match event {
            ConnectEvent::ConnectIssued(true) => (
                ConnectionSession { state: ConnectionState::Connecting, polls: 0, ..session },
                ConnectAction::PollLink { delay_ms: 0 },
            ),
            _ => fail_attempt(session),
        },
        ConnectionState::Connecting => match event {
            ConnectEvent::LinkPolled(true) => (
                ConnectionSession { state: ConnectionState::LinkUp, polls: 0, ..session },
                ConnectAction::PollAddress { delay_ms: 0 },
            ),
            ConnectEvent::LinkPolled(false) => miss_poll(
                session,
                ConnectAction::PollLink { delay_ms: WIFI_POLL_DELAY_MS },
            ),
            _ => fail_attempt(session),
        },
        ConnectionState::LinkUp => match event {
            ConnectEvent::AddressPolled(true) => (
                ConnectionSession { state: ConnectionState::AddressAcquired, polls: 0, ..session },
                ConnectAction::VerifyAfterDelay { delay_ms: WIFI_RECONNECT_DELAY_MS },
            ),
            ConnectEvent::AddressPolled(false) => miss_poll(
                session,
                ConnectAction::PollAddress { delay_ms: WIFI_POLL_DELAY_MS },
            ),
            _ => fail_attempt(session),
        },
        ConnectionState::AddressAcquired => match event {
            ConnectEvent::Verified(true) => (
                ConnectionSession { state: ConnectionState::Stable, polls: 0, ..session },
                ConnectAction::Connected,
            ),
            _ => fail_attempt(session),
        },
        ConnectionState::Stable | ConnectionState::Monitoring => (
            session,
            ConnectAction::Connected,
        ),
        ConnectionState::Disconnecting | ConnectionState::Disconnected => {
            if session.attempts < session.max_attempts {
                (session, ConnectAction::Failed(WifiConnectionError::Wifi(WifiFault::Disconnected)))
            } else {
                (session, ConnectAction::Failed(WifiConnectionError::Exhausted))
            }
        },
    }
}

/// The session after a sequence of events of the connect procedure.
pub open spec fn connect_run(session: ConnectionSession, events: Seq<ConnectEvent>)
    -> ConnectionSession
    decreases events.len(),
{
    if events.len() == 0 {
        session
    } else {
        connect_next(connect_run(session, events.drop_last()), events.last()).0
    }
}

/// How many attempts a sequence of events of the connect procedure began.
pub open spec fn attempts_begun(session: ConnectionSession, events: Seq<ConnectEvent>) -> nat
    decreases events.len(),
{
    if events.len() == 0 {
        0
    } else {
        let before = connect_run(session, events.drop_last());
        let begun: nat = if connect_next(before, events.last()).1
            == ConnectAction::StartAndConnect {
            1
        } else {
            0
        };
        attempts_begun(session, events.drop_last()) + begun
    }
}

/// Whether an action ends the connect procedure.
pub open spec fn ends_connect(action: ConnectAction) -> bool {
    action is Connected || action is Failed
}

/// The polls that the current wait still allows to miss.
pub open spec fn polls_left(session: ConnectionSession) -> nat {
    if session.poll_limit > session.polls {
        (session.poll_limit - session.polls) as nat
    } else {
        0
    }
}

/// An upper bound on the events that the procedure still takes before it
/// ends: those of the attempt under way, and for each attempt that may still
/// begin one for the beginning, one for the connect call, the polls of two
/// waits, one more for each wait that ends well, and one for the
/// verification.
pub open spec fn connect_budget(session: ConnectionSession) -> nat {
    let each = 5 + 2 * session.poll_limit;
    let ahead: int = if session.attempts < session.max_attempts {
        (session.max_attempts - session.attempts) * each
    } else {
        0
    };
    let under_way: int = match session.state {
        ConnectionState::Starting => 4 + 2 * session.poll_limit,
        ConnectionState::Connecting => 3 + session.poll_limit + polls_left(session),
        ConnectionState::LinkUp => 2 + polls_left(session) as int,
        ConnectionState::AddressAcquired => 1,
        _ => 0,
    };
    (ahead + under_way) as nat
}

/// Whatever the radio reports and in whatever order, the procedure never
/// begins more attempts than the session allows.
pub proof fn lemma_attempts_never_exceed_limit(
    session: ConnectionSession,
    events: Seq<ConnectEvent>,
)
    requires
        session.attempts <= session.max_attempts,
    ensures
        connect_run(session, events).max_attempts == session.max_attempts,
        connect_run(session, events).attempts == session.attempts + attempts_begun(
            session,
            events,
        ),
        session.attempts + attempts_begun(session, events) <= session.max_attempts,
    decreases events.len(),
{
    if events.len() > 0 {
        lemma_attempts_never_exceed_limit(session, events.drop_last());
    }
}

/// The procedure reports the link as connected only when the radio has just
/// confirmed it after an address was acquired, or when the session was
/// connected already: no failure is ever turned into a success.
pub proof fn lemma_no_silent_success(session: ConnectionSession, event: ConnectEvent)
    ensures
        connect_next(session, event).1 == ConnectAction::Connected <==> session.connected() || (
        session.state == ConnectionState::AddressAcquired && event == ConnectEvent::Verified(true)),
        connect_next(session, event).0.connected() <==> connect_next(session, event).1
            == ConnectAction::Connected,
{
}

/// When an attempt ends without success and no attempt is left, the
/// procedure ends with `Exhausted`; and with no attempt left it never asks
/// for another one.
pub proof fn lemma_exhaustion_is_reported(session: ConnectionSession, event: ConnectEvent)
    requires
        session.attempts >= session.max_attempts,
        session.state == ConnectionState::Idle || session.attempting(),
    ensures
        connect_next(session, event).1 != ConnectAction::StartAndConnect,
        !(connect_next(session, event).1 is RetryAfterDelay),
        connect_next(session, event).0.state == ConnectionState::Disconnected <==> connect_next(
            session,
            event,
        ).1 == ConnectAction::Failed(WifiConnectionError::Exhausted),
        !connect_next(session, event).0.attempting() && !connect_next(session, event).0.connected()
            ==> connect_next(session, event).1 == ConnectAction::Failed(
            WifiConnectionError::Exhausted,
        ),
{
}

/// The procedure cannot go on for ever: whatever is reported, each event
/// either ends it or brings it closer to its end.
pub proof fn lemma_connect_makes_progress(session: ConnectionSession, event: ConnectEvent)
    ensures
        ends_connect(connect_next(session, event).1) || connect_budget(
            connect_next(session, event).0,
        ) < connect_budget(session),
{
    let next = connect_next(session, event).0;
    let each = 5 + 2 * session.poll_limit;
    if session.attempts < session.max_attempts {
        let left = session.max_attempts - session.attempts;
        assert(left * each == (left - 1) * each + each) by (nonlinear_arith);
        assert((left - 1) * each >= 0) by (nonlinear_arith)
            requires
                left >= 1,
                each >= 0,
        ;
    }
}

/// A procedure that has not ended after a sequence of events has used up as
/// much of its budget: it ends within `max_attempts * (5 + 2 * poll_limit)`
/// events of a new session.
pub proof fn lemma_connect_is_bounded(session: ConnectionSession, events: Seq<ConnectEvent>)
    requires
        connect_goes_on(session, events),
    ensures
        connect_budget(connect_run(session, events)) + events.len() <= connect_budget(session),
    decreases events.len(),
{
    if events.len() > 0 {
        lemma_connect_is_bounded(session, events.drop_last());
        lemma_connect_makes_progress(connect_run(session, events.drop_last()), events.last());
    }
}

/// Whether no event of a sequence has ended the procedure.
pub open spec fn connect_goes_on(session: ConnectionSession, events: Seq<ConnectEvent>) -> bool
    decreases events.len(),
{
    events.len() == 0 || (connect_goes_on(session, events.drop_last()) && !ends_connect(
        connect_next(connect_run(session, events.drop_last()), events.last()).1,
    ))
}

/// How many retry delays a sequence of events of the connect procedure asked
/// for.
pub open spec fn retry_delays(session: ConnectionSession, events: Seq<ConnectEvent>) -> nat
    decreases events.len(),
{
    if events.len() == 0 {
        0
    } else {
        let before = connect_run(session, events.drop_last());
        let delayed: nat = if connect_next(before, events.last()).1 is RetryAfterDelay {
            1
        } else {
            0
        };
        retry_delays(session, events.drop_last()) + delayed
    }
}

/// A session as it begins.
pub open spec fn connect_begins(max_attempts: u8, retry_delay_ms: u64, poll_limit: u32)
    -> ConnectionSession {
    ConnectionSession {
        state: ConnectionState::Idle,
        attempts: 0,
        max_attempts,
        retry_delay_ms,
        polls: 0,
        poll_limit,
        retries: 0,
        awaiting: crate::wifi::DisconnectStage::Status,
    }
}

/// The attempts of a new session are separated by retry delays and nothing
/// else: whatever is reported, one delay is asked for after each attempt
/// that fails while another is left, so there are fewer delays than attempts
/// allowed, and each is the retry delay of the session.
pub proof fn lemma_retry_delays_separate_attempts(
    max_attempts: u8,
    retry_delay_ms: u64,
    poll_limit: u32,
    events: Seq<ConnectEvent>,
    event: ConnectEvent,
)
    ensures
        ({
            let begun = connect_begins(max_attempts, retry_delay_ms, poll_limit);
            let session = connect_run(begun, events);
            let delays = retry_delays(begun, events);
            &&& delays == 0 || delays < max_attempts
            &&& session.attempts <= max_attempts
            &&& session.state == ConnectionState::Idle ==> delays == session.attempts
            &&& session.attempting() ==> delays + 1 == session.attempts
            &&& connect_next(session, event).1 is RetryAfterDelay ==> connect_next(
                session,
                event,
            ).1 == (ConnectAction::RetryAfterDelay { delay_ms: retry_delay_ms })
        }),
{
    let begun = connect_begins(max_attempts, retry_delay_ms, poll_limit);
    lemma_session_keeps_its_settings(begun, events);
    lemma_retry_delays_invariant(begun, events);
}

/// The procedure changes neither the retry delay nor the limits of a
/// session.
proof fn lemma_session_keeps_its_settings(session: ConnectionSession, events: Seq<ConnectEvent>)
    ensures
        connect_run(session, events).retry_delay_ms == session.retry_delay_ms,
        connect_run(session, events).max_attempts == session.max_attempts,
        connect_run(session, events).poll_limit == session.poll_limit,
    decreases events.len(),
{
    if events.len() > 0 {
        lemma_session_keeps_its_settings(session, events.drop_last());
    }
}

/// How the count of retry delays follows the count of attempts.
proof fn lemma_retry_delays_invariant(begun: ConnectionSession, events: Seq<ConnectEvent>)
    requires
        begun.state == ConnectionState::Idle,
        begun.attempts == 0,
    ensures
        ({
            let session = connect_run(begun, events);
            let delays = retry_delays(begun, events);
            &&& session.attempts <= begun.max_attempts
            &&& session.state == ConnectionState::Idle ==> delays == session.attempts && (delays
                == 0 || session.attempts < begun.max_attempts)
            &&& session.attempting() ==> delays + 1 == session.attempts
            &&& session.state != ConnectionState::Idle && !session.attempting() ==> delays == 0
                || delays < session.attempts
        }),
    decreases events.len(),
{
    lemma_attempts_never_exceed_limit(begun, events);
    if events.len() > 0 {
        lemma_retry_delays_invariant(begun, events.drop_last());
        lemma_attempts_never_exceed_limit(begun, events.drop_last());
    }
}

} // verus!
