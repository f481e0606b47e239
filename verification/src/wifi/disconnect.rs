//! The disconnect procedure.

use crate::wifi::{
    ConnectionSession, ConnectionState, DisconnectStage, WifiDisconnectError, WifiFault,
    DISCONNECT_RETRY_DELAY_MS, MAX_DISCONNECT_RETRIES,
};
use vstd::prelude::*;

verus! {

/// What the caller learned while disconnecting.
#[derive(Clone, Copy, Debug, PartialEq, Eq)]
pub enum DisconnectEvent {
    /// The procedure begins.
    Begin,
    /// The radio said whether it is connected, or the question failed.
    StatusChecked(Result<bool, WifiFault>),
    /// The disconnect call was accepted, or failed.
    DisconnectIssued(Result<(), WifiFault>),
    /// After the delay the radio said whether it is still connected, or the
    /// question failed.
    Verified(Result<bool, WifiFault>),
}

/// What the caller does next while disconnecting.
#[derive(Clone, Copy, Debug, PartialEq, Eq)]
pub enum DisconnectAction {
    /// Wait this many milliseconds, then ask the radio whether it is
    /// connected.
    CheckStatus { delay_ms: u64 },
    /// Issue the disconnect call.
    IssueDisconnect,
    /// Wait this many milliseconds, then ask the radio whether it is still
    /// connected.
    VerifyAfterDelay { delay_ms: u64 },
    /// The procedure is over.
    Done(Result<(), WifiDisconnectError>),
}

/// The session with the round of the disconnect procedure at `awaiting`.
pub open spec fn waiting_for(session: ConnectionSession, awaiting: DisconnectStage)
    -> ConnectionSession {
    ConnectionSession { awaiting, ..session }
}

/// The radio is off: the procedure has succeeded.
pub open spec fn disconnect_done(session: ConnectionSession) -> (
    ConnectionSession,
    DisconnectAction,
) {
    (
        ConnectionSession { state: ConnectionState::Disconnected, ..session },
        DisconnectAction::Done(Ok(())),
    )
}

/// A round has failed: the next one follows after the delay if one is left,
/// else the procedure ends with the radio still connected.
pub open spec fn round_failed(session: ConnectionSession) -> (
    ConnectionSession,
    DisconnectAction,
) {
    if session.retries + 1 < MAX_DISCONNECT_RETRIES {
        (
            ConnectionSession {
                retries: (session.retries + 1) as u8,
                awaiting: DisconnectStage::Status,
                ..session
            },
            DisconnectAction::CheckStatus { delay_ms: DISCONNECT_RETRY_DELAY_MS },
        )
    } else {
        (
            ConnectionSession {
                retries: MAX_DISCONNECT_RETRIES,
                awaiting: DisconnectStage::Status,
                ..session
            },
            DisconnectAction::Done(
                Err(WifiDisconnectError::Verification { attempts: MAX_DISCONNECT_RETRIES }),
            ),
        )
    }
}

/// The radio refused the disconnect call: in the last round that ends the
/// procedure, before it the round has failed.
pub open spec fn disconnect_refused(session: ConnectionSession) -> (
    ConnectionSession,
    DisconnectAction,
) {
    if session.retries + 1 == MAX_DISCONNECT_RETRIES {
        (
            ConnectionSession { retries: MAX_DISCONNECT_RETRIES, ..session },
            DisconnectAction::Done(Err(WifiDisconnectError::Disconnect)),
        )
    } else {
        round_failed(session)
    }
}

/// Whether an event tells that the radio is not connected.
pub open spec fn reports_radio_off(event: DisconnectEvent) -> bool {
    match event {
        DisconnectEvent::StatusChecked(Ok(false)) => true,
        DisconnectEvent::Verified(Ok(false)) => true,
        DisconnectEvent::StatusChecked(Err(WifiFault::Disconnected)) => true,
        DisconnectEvent::DisconnectIssued(Err(WifiFault::Disconnected)) => true,
        DisconnectEvent::Verified(Err(WifiFault::Disconnected)) => true,
        _ => false,
    }
}

/// The next state and action of a disconnect procedure that is under way.
pub open spec fn round_next(session: ConnectionSession, event: DisconnectEvent) -> (
    ConnectionSession,
    DisconnectAction,
) {
    if reports_radio_off(event) {
        disconnect_done(session)
    } else if session.retries >= MAX_DISCONNECT_RETRIES {
        round_failed(session)
    } else {
        match (session.awaiting, event) {
            (DisconnectStage::Status, DisconnectEvent::StatusChecked(Ok(true))) => (
                waiting_for(session, DisconnectStage::Disconnect),
                DisconnectAction::IssueDisconnect,
            ),
            (DisconnectStage::Disconnect, DisconnectEvent::DisconnectIssued(Ok(()))) => (
                waiting_for(session, DisconnectStage::Verification),
                DisconnectAction::VerifyAfterDelay { delay_ms: DISCONNECT_RETRY_DELAY_MS },
            ),
            (DisconnectStage::Disconnect, DisconnectEvent::DisconnectIssued(Err(_)))
                => disconnect_refused(session),
            _ => round_failed(session),
        }
    }
}

/// The next state and action of the disconnect procedure.
///
/// On a session that is not on its way down the procedure begins, whatever
/// the event: the first thing to do is to ask the radio whether it is
/// connected.
pub open spec fn disconnect_next(session: ConnectionSession, event: DisconnectEvent) -> (
    ConnectionSession,
    DisconnectAction,
) {
    match session.state {
        ConnectionState::Disconnected => disconnect_done(session),
        ConnectionState::Disconnecting => round_next(session, event),
        _ => (
            ConnectionSession {
                state: ConnectionState::Disconnecting,
                retries: 0,
                awaiting: DisconnectStage::Status,
                ..session
            },
            DisconnectAction::CheckStatus { delay_ms: 0 },
        ),
    }
}

fn finish_disconnect(session: ConnectionSession) -> (next: (ConnectionSession, DisconnectAction))
    ensures
        next == disconnect_done(session),
{
    (
        ConnectionSession { state: ConnectionState::Disconnected, ..session },
        DisconnectAction::Done(Ok(())),
    )
}

fn fail_round(session: ConnectionSession) -> (next: (ConnectionSession, DisconnectAction))
    ensures
        next == round_failed(session),
{
    if session.retries < MAX_DISCONNECT_RETRIES - 1 {
        (
            ConnectionSession {
                retries: session.retries + 1,
                awaiting: DisconnectStage::Status,
                ..session
            },
            DisconnectAction::CheckStatus { delay_ms: DISCONNECT_RETRY_DELAY_MS },
        )
    } else {
        (
            ConnectionSession {
                retries: MAX_DISCONNECT_RETRIES,
                awaiting: DisconnectStage::Status,
                ..session
            },
            DisconnectAction::Done(
                Err(WifiDisconnectError::Verification { attempts: MAX_DISCONNECT_RETRIES }),
            ),
        )
    }
}

fn radio_is_off(event: DisconnectEvent) -> (off: bool)
    ensures
        off == reports_radio_off(event),
{
    match event {
        DisconnectEvent::StatusChecked(Ok(false)) => true,
        DisconnectEvent::Verified(Ok(false)) => true,
        DisconnectEvent::StatusChecked(Err(WifiFault::Disconnected)) => true,
        DisconnectEvent::DisconnectIssued(Err(WifiFault::Disconnected)) => true,
        DisconnectEvent::Verified(Err(WifiFault::Disconnected)) => true,
        _ => false,
    }
}

/// Advances the disconnect procedure by one event.
///
/// A round asks the radio whether it is connected, issues the disconnect
/// call, waits `DISCONNECT_RETRY_DELAY_MS`, and asks again; the same delay
/// lies between two rounds. The procedure succeeds as soon as the radio
/// is reported as not connected, at once for a session that is disconnected
/// already. A round that leaves the radio connected, or in which an event
/// does not answer what was asked, is followed by another after the delay,
/// `MAX_DISCONNECT_RETRIES` rounds at most; then the procedure ends with an
/// error, which it repeats for whatever is reported after, unless that is
/// that the radio is off. After such an end the radio must not be left as
/// it is.
pub fn disconnect_from_wifi(session: ConnectionSession, event: DisconnectEvent) -> (next: (
    ConnectionSession,
    DisconnectAction,
))
    ensures
        next == disconnect_next(session, event),
        next.0.leaving(),
        session.wf() ==> next.0.wf(),
        next.0.attempts == session.attempts,
        next.0.max_attempts == session.max_attempts,
{
    match session.state {
        ConnectionState::Disconnected => finish_disconnect(session),
        ConnectionState::Disconnecting => {
            if radio_is_off(event) {
                return finish_disconnect(session);
            }
            if session.retries >= MAX_DISCONNECT_RETRIES {
                return fail_round(session);
            }
            match (session.awaiting, event) {
                (DisconnectStage::Status, DisconnectEvent::StatusChecked(Ok(true))) => (
                    ConnectionSession { awaiting: DisconnectStage::Disconnect, ..session },
                    DisconnectAction::IssueDisconnect,
                ),
                (DisconnectStage::Disconnect, DisconnectEvent::DisconnectIssued(Ok(()))) => (
                    ConnectionSession { awaiting: DisconnectStage::Verification, ..session },
                    DisconnectAction::VerifyAfterDelay { delay_ms: DISCONNECT_RETRY_DELAY_MS },
                ),
                (DisconnectStage::Disconnect, DisconnectEvent::DisconnectIssued(Err(_))) => {
                    if session.retries == MAX_DISCONNECT_RETRIES - 1 {
                        (
                            ConnectionSession { retries: MAX_DISCONNECT_RETRIES, ..session },
                            DisconnectAction::Done(Err(WifiDisconnectError::Disconnect)),
                        )
                    } else {
                        fail_round(session)
                    }
                },
                _ => fail_round(session),
            }
        },
        _ => (
            ConnectionSession {
                state: ConnectionState::Disconnecting,
                retries: 0,
                awaiting: DisconnectStage::Status,
                ..session
            },
            DisconnectAction::CheckStatus { delay_ms: 0 },
        ),
    }
}

/// Whether an action ends the disconnect procedure.
pub open spec fn ends_disconnect(action: DisconnectAction) -> bool {
    action is Done
}

/// An upper bound on the events that the procedure still takes before it
/// ends: three for each round that may still begin, one fewer for each step
/// the round under way has taken, and one for the beginning.
pub open spec fn disconnect_budget(session: ConnectionSession) -> nat {
    match session.state {
        ConnectionState::Disconnected => 0,
        ConnectionState::Disconnecting => if session.retries < MAX_DISCONNECT_RETRIES {
            let ahead = (MAX_DISCONNECT_RETRIES - 1 - session.retries) * 3;
            let under_way: int = match session.awaiting {
                DisconnectStage::Status => 3,
                DisconnectStage::Disconnect => 2,
                DisconnectStage::Verification => 1,
            };
            (ahead + under_way) as nat
        } else {
            0
        },
        _ => (3 * MAX_DISCONNECT_RETRIES + 1) as nat,
    }
}

/// The session after a sequence of events of the disconnect procedure.
pub open spec fn disconnect_run(session: ConnectionSession, events: Seq<DisconnectEvent>)
    -> ConnectionSession
    decreases events.len(),
{
    if events.len() == 0 {
        session
    } else {
        disconnect_next(disconnect_run(session, events.drop_last()), events.last()).0
    }
}

/// Whether no event of a sequence has ended the procedure.
pub open spec fn disconnect_goes_on(session: ConnectionSession, events: Seq<DisconnectEvent>)
    -> bool
    decreases events.len(),
{
    events.len() == 0 || (disconnect_goes_on(session, events.drop_last()) && !ends_disconnect(
        disconnect_next(disconnect_run(session, events.drop_last()), events.last()).1,
    ))
}

/// The procedure reports success exactly when the radio is known to be off:
/// the session was disconnected already, or the procedure is under way and
/// the event says that the radio is not connected. Only then is the session
/// `Disconnected`.
pub proof fn lemma_disconnect_success_means_radio_off(
    session: ConnectionSession,
    event: DisconnectEvent,
)
    ensures
        disconnect_next(session, event).1 == DisconnectAction::Done(Ok(())) <==> session.state
            == ConnectionState::Disconnected || (session.state == ConnectionState::Disconnecting
            && reports_radio_off(event)),
        disconnect_next(session, event).0.state == ConnectionState::Disconnected
            <==> disconnect_next(session, event).1 == DisconnectAction::Done(Ok(())),
{
}

/// Disconnecting a session that is disconnected already succeeds at once,
/// whatever the event, and changes nothing.
pub proof fn lemma_disconnect_is_idempotent(session: ConnectionSession, event: DisconnectEvent)
    requires
        session.state == ConnectionState::Disconnected,
    ensures
        disconnect_next(session, event) == (session, DisconnectAction::Done(Ok(()))),
{
}

/// The procedure cannot go on for ever: whatever is reported, each event
/// either ends it or brings it closer to its end.
pub proof fn lemma_disconnect_makes_progress(session: ConnectionSession, event: DisconnectEvent)
    ensures
        ends_disconnect(disconnect_next(session, event).1) || disconnect_budget(
            disconnect_next(session, event).0,
        ) < disconnect_budget(session),
{
}

/// A procedure that has not ended after a sequence of events has used up as
/// much of its budget: it ends within `3 * MAX_DISCONNECT_RETRIES + 1`
/// events, and asks for fewer than `MAX_DISCONNECT_RETRIES` further rounds.
pub proof fn lemma_disconnect_is_bounded(session: ConnectionSession, events: Seq<DisconnectEvent>)
    requires
        disconnect_goes_on(session, events),
    ensures
        disconnect_budget(disconnect_run(session, events)) + events.len() <= disconnect_budget(
            session,
        ),
        events.len() <= 3 * MAX_DISCONNECT_RETRIES + 1,
        session.wf() ==> disconnect_run(session, events).retries <= MAX_DISCONNECT_RETRIES,
    decreases events.len(),
{
    if events.len() > 0 {
        lemma_disconnect_is_bounded(session, events.drop_last());
        lemma_disconnect_makes_progress(
            disconnect_run(session, events.drop_last()),
            events.last(),
        );
    }
}

} // verus!
