use tank_sensor::wifi::{
    connect_to_wifi, disconnect_from_wifi, monitor_connection, wifi_monitor_task_with_channel,
    ConnectAction, ConnectEvent, ConnectionSession, ConnectionState, ConnectionStatus,
    DisconnectAction, DisconnectEvent, DisconnectStage, MonitorError, MonitorTaskResult, WifiConnectionError,
    WifiDisconnectError, WifiFault, MAX_CONSECUTIVE_FAILURES, MAX_DISCONNECT_RETRIES,
};

fn run_connect(
    session: ConnectionSession,
    events: &[ConnectEvent],
) -> (ConnectionSession, Vec<ConnectAction>) {
    let mut session = session;
    let mut actions: Vec<ConnectAction> = Vec::new();
    for event in events {
        let (next, action) = connect_to_wifi(session, *event);
        session = next;
        actions.push(action);
    }
    (session, actions)
}

fn connected_session() -> ConnectionSession {
    let events = [
        ConnectEvent::Begin,
        ConnectEvent::ConnectIssued(true),
        ConnectEvent::LinkPolled(true),
        ConnectEvent::AddressPolled(true),
        ConnectEvent::Verified(true),
    ];
    run_connect(ConnectionSession::new(3, 100, 10), &events).0
}

#[test]
fn new_session_is_idle() {
    let session = ConnectionSession::new(3, 100, 10);
    assert_eq!(session.state, ConnectionState::Idle);
    assert_eq!(session.attempts, 0);
    assert_eq!(session.max_attempts, 3);
    assert_eq!(session.retry_delay_ms, 100);
    assert_eq!(session.poll_limit, 10);
}

#[test]
fn connect_succeeds_on_first_attempt() {
    let events = [
        ConnectEvent::Begin,
        ConnectEvent::ConnectIssued(true),
        ConnectEvent::LinkPolled(false),
        ConnectEvent::LinkPolled(true),
        ConnectEvent::AddressPolled(false),
        ConnectEvent::AddressPolled(true),
        ConnectEvent::Verified(true),
    ];
    let (session, actions) = run_connect(ConnectionSession::new(3, 100, 10), &events);
    assert_eq!(
        actions,
        vec![
            ConnectAction::StartAndConnect,
            ConnectAction::PollLink { delay_ms: 0 },
            ConnectAction::PollLink { delay_ms: 500 },
            ConnectAction::PollAddress { delay_ms: 0 },
            ConnectAction::PollAddress { delay_ms: 500 },
            ConnectAction::VerifyAfterDelay { delay_ms: 100 },
            ConnectAction::Connected,
        ]
    );
    assert_eq!(session.state, ConnectionState::Stable);
    assert_eq!(session.attempts, 1);
}

#[test]
fn connect_retries_after_a_failed_verification() {
    let events = [
        ConnectEvent::Begin,
        ConnectEvent::ConnectIssued(true),
        ConnectEvent::LinkPolled(true),
        ConnectEvent::AddressPolled(true),
        ConnectEvent::Verified(false),
        ConnectEvent::Begin,
    ];
    let (session, actions) = run_connect(ConnectionSession::new(3, 100, 10), &events);
    assert_eq!(actions[4], ConnectAction::RetryAfterDelay { delay_ms: 100 });
    assert_eq!(actions[5], ConnectAction::StartAndConnect);
    assert_eq!(session.state, ConnectionState::Starting);
    assert_eq!(session.attempts, 2);
}

#[test]
fn connect_attempts_never_exceed_the_limit() {
    let mut session = ConnectionSession::new(3, 100, 10);
    let mut starts = 0;
    let mut last = ConnectAction::RetryAfterDelay { delay_ms: 100 };
    for _ in 0..20 {
        let (next, action) = connect_to_wifi(session, ConnectEvent::Begin);
        session = next;
        if action == ConnectAction::StartAndConnect {
            starts += 1;
            let (failed, after) = connect_to_wifi(session, ConnectEvent::ConnectIssued(false));
            session = failed;
            last = after;
        } else {
            last = action;
        }
        assert!(session.attempts <= session.max_attempts);
    }
    assert_eq!(starts, 3);
    assert_eq!(last, ConnectAction::Failed(WifiConnectionError::Exhausted));
}

#[test]
fn exhaustion_is_reported_when_the_last_attempt_fails() {
    let mut session = ConnectionSession::new(2, 100, 10);
    let mut actions: Vec<ConnectAction> = Vec::new();
    for event in [
        ConnectEvent::Begin,
        ConnectEvent::ConnectIssued(true),
        ConnectEvent::LinkPolled(true),
        ConnectEvent::AddressPolled(true),
        ConnectEvent::Verified(false),
        ConnectEvent::Begin,
        ConnectEvent::ConnectIssued(false),
    ] {
        let (next, action) = connect_to_wifi(session, event);
        session = next;
        actions.push(action);
    }
    assert_eq!(actions[4], ConnectAction::RetryAfterDelay { delay_ms: 100 });
    assert_eq!(actions[6], ConnectAction::Failed(WifiConnectionError::Exhausted));
    assert_eq!(session.state, ConnectionState::Disconnected);
    assert_eq!(session.attempts, 2);
}

#[test]
fn connect_without_attempts_is_exhausted_at_once() {
    let (session, action) = connect_to_wifi(ConnectionSession::new(0, 100, 10), ConnectEvent::Begin);
    assert_eq!(action, ConnectAction::Failed(WifiConnectionError::Exhausted));
    assert_eq!(session.state, ConnectionState::Disconnected);
}

#[test]
fn link_polls_are_bounded() {
    let mut events = vec![
        ConnectEvent::Begin,
        ConnectEvent::ConnectIssued(true),
    ];
    events.extend(vec![ConnectEvent::LinkPolled(false); 3]);
    let (session, actions) = run_connect(ConnectionSession::new(3, 100, 3), &events);
    assert_eq!(actions[2], ConnectAction::PollLink { delay_ms: 500 });
    assert_eq!(actions[3], ConnectAction::PollLink { delay_ms: 500 });
    assert_eq!(actions[4], ConnectAction::RetryAfterDelay { delay_ms: 100 });
    assert_eq!(session.state, ConnectionState::Idle);
    assert_eq!(session.polls, 0);
}

#[test]
fn address_polls_are_bounded() {
    let events = [
        ConnectEvent::Begin,
        ConnectEvent::ConnectIssued(true),
        ConnectEvent::LinkPolled(true),
        ConnectEvent::AddressPolled(false),
        ConnectEvent::AddressPolled(false),
    ];
    let (session, actions) = run_connect(ConnectionSession::new(1, 100, 2), &events);
    assert_eq!(actions[3], ConnectAction::PollAddress { delay_ms: 500 });
    assert_eq!(actions[4], ConnectAction::Failed(WifiConnectionError::Exhausted));
    assert_eq!(session.state, ConnectionState::Disconnected);
}

#[test]
fn unexpected_event_fails_the_attempt() {
    let events = [ConnectEvent::Begin, ConnectEvent::Verified(true)];
    let (session, actions) = run_connect(ConnectionSession::new(3, 100, 10), &events);
    assert_eq!(actions[1], ConnectAction::RetryAfterDelay { delay_ms: 100 });
    assert_eq!(session.state, ConnectionState::Idle);
}

#[test]
fn connected_session_stays_connected() {
    let session = connected_session();
    let (next, action) = connect_to_wifi(session, ConnectEvent::Verified(false));
    assert_eq!(action, ConnectAction::Connected);
    assert_eq!(next, session);
}

#[test]
fn monitoring_begins_on_a_stable_link_only() {
    assert_eq!(connected_session().start_monitoring().state, ConnectionState::Monitoring);
    assert_eq!(ConnectionSession::new(3, 100, 10).start_monitoring().state, ConnectionState::Idle);
}

#[test]
fn connect_on_a_disconnected_session_reports_the_radio_as_off() {
    let (session, _) = disconnect_from_wifi(connected_session(), DisconnectEvent::Begin);
    let (session, _) = disconnect_from_wifi(session, DisconnectEvent::StatusChecked(Ok(false)));
    let (_, action) = connect_to_wifi(session, ConnectEvent::Begin);
    assert_eq!(action, ConnectAction::Failed(WifiConnectionError::Wifi(WifiFault::Disconnected)));
    let (again, action) = connect_to_wifi(
        ConnectionSession { attempts: 3, ..session },
        ConnectEvent::Begin,
    );
    assert_eq!(action, ConnectAction::Failed(WifiConnectionError::Exhausted));
    assert_eq!(again.state, ConnectionState::Disconnected);
}

fn disconnecting_session() -> ConnectionSession {
    let (session, action) = disconnect_from_wifi(connected_session(), DisconnectEvent::Begin);
    assert_eq!(action, DisconnectAction::CheckStatus { delay_ms: 0 });
    assert_eq!(session.state, ConnectionState::Disconnecting);
    assert_eq!(session.awaiting, DisconnectStage::Status);
    session
}

#[test]
fn disconnect_of_a_connected_radio() {
    let session = disconnecting_session();
    let (session, action) = disconnect_from_wifi(session, DisconnectEvent::StatusChecked(Ok(true)));
    assert_eq!(action, DisconnectAction::IssueDisconnect);
    let (session, action) = disconnect_from_wifi(session, DisconnectEvent::DisconnectIssued(Ok(())));
    assert_eq!(action, DisconnectAction::VerifyAfterDelay { delay_ms: 100 });
    let (session, action) = disconnect_from_wifi(session, DisconnectEvent::Verified(Ok(false)));
    assert_eq!(action, DisconnectAction::Done(Ok(())));
    assert_eq!(session.state, ConnectionState::Disconnected);
}

#[test]
fn disconnect_begins_whatever_the_first_event() {
    let (session, action) =
        disconnect_from_wifi(connected_session(), DisconnectEvent::Verified(Ok(false)));
    assert_eq!(action, DisconnectAction::CheckStatus { delay_ms: 0 });
    assert_eq!(session.state, ConnectionState::Disconnecting);
    assert_eq!(session.retries, 0);
}

#[test]
fn disconnect_of_a_disconnected_radio_succeeds_at_once() {
    let (session, action) =
        disconnect_from_wifi(disconnecting_session(), DisconnectEvent::StatusChecked(Ok(false)));
    assert_eq!(action, DisconnectAction::Done(Ok(())));
    assert_eq!(session.state, ConnectionState::Disconnected);
    let (again, action) = disconnect_from_wifi(session, DisconnectEvent::Begin);
    assert_eq!(action, DisconnectAction::Done(Ok(())));
    assert_eq!(again, session);
}

#[test]
fn disconnect_treats_a_not_connected_fault_as_success() {
    let session = disconnecting_session();
    let (_, action) =
        disconnect_from_wifi(session, DisconnectEvent::StatusChecked(Err(WifiFault::Disconnected)));
    assert_eq!(action, DisconnectAction::Done(Ok(())));
    let (session, _) = disconnect_from_wifi(session, DisconnectEvent::StatusChecked(Ok(true)));
    let (_, action) = disconnect_from_wifi(
        session,
        DisconnectEvent::DisconnectIssued(Err(WifiFault::Disconnected)),
    );
    assert_eq!(action, DisconnectAction::Done(Ok(())));
    let (session, _) = disconnect_from_wifi(session, DisconnectEvent::DisconnectIssued(Ok(())));
    let (_, action) =
        disconnect_from_wifi(session, DisconnectEvent::Verified(Err(WifiFault::Disconnected)));
    assert_eq!(action, DisconnectAction::Done(Ok(())));
}

fn failing_round(session: ConnectionSession) -> (ConnectionSession, DisconnectAction) {
    let (session, action) = disconnect_from_wifi(session, DisconnectEvent::StatusChecked(Ok(true)));
    assert_eq!(action, DisconnectAction::IssueDisconnect);
    let (session, action) = disconnect_from_wifi(session, DisconnectEvent::DisconnectIssued(Ok(())));
    assert_eq!(action, DisconnectAction::VerifyAfterDelay { delay_ms: 100 });
    disconnect_from_wifi(session, DisconnectEvent::Verified(Ok(true)))
}

#[test]
fn disconnect_gives_up_after_three_rounds() {
    let mut session = disconnecting_session();
    let mut actions: Vec<DisconnectAction> = Vec::new();
    for _ in 0..MAX_DISCONNECT_RETRIES {
        let (next, action) = failing_round(session);
        session = next;
        actions.push(action);
    }
    assert_eq!(
        actions,
        vec![
            DisconnectAction::CheckStatus { delay_ms: 100 },
            DisconnectAction::CheckStatus { delay_ms: 100 },
            DisconnectAction::Done(Err(WifiDisconnectError::Verification { attempts: 3 })),
        ]
    );
    assert_eq!(session.state, ConnectionState::Disconnecting);
    assert_eq!(session.retries, MAX_DISCONNECT_RETRIES);
    let (_, action) = disconnect_from_wifi(session, DisconnectEvent::StatusChecked(Ok(true)));
    assert_eq!(
        action,
        DisconnectAction::Done(Err(WifiDisconnectError::Verification { attempts: 3 }))
    );
    let (session, action) = disconnect_from_wifi(session, DisconnectEvent::StatusChecked(Ok(false)));
    assert_eq!(action, DisconnectAction::Done(Ok(())));
    assert_eq!(session.state, ConnectionState::Disconnected);
}

#[test]
fn refused_disconnect_in_the_last_round_is_reported() {
    let mut session = disconnecting_session();
    for _ in 0..2 {
        let (next, _) = disconnect_from_wifi(session, DisconnectEvent::StatusChecked(Ok(true)));
        let (next, action) =
            disconnect_from_wifi(next, DisconnectEvent::DisconnectIssued(Err(WifiFault::Other)));
        assert_eq!(action, DisconnectAction::CheckStatus { delay_ms: 100 });
        session = next;
    }
    let (session, _) = disconnect_from_wifi(session, DisconnectEvent::StatusChecked(Ok(true)));
    let (session, action) =
        disconnect_from_wifi(session, DisconnectEvent::DisconnectIssued(Err(WifiFault::Other)));
    assert_eq!(action, DisconnectAction::Done(Err(WifiDisconnectError::Disconnect)));
    assert_eq!(session.retries, MAX_DISCONNECT_RETRIES);
}

#[test]
fn failed_status_check_counts_as_a_round() {
    let (session, action) = disconnect_from_wifi(
        disconnecting_session(),
        DisconnectEvent::StatusChecked(Err(WifiFault::Other)),
    );
    assert_eq!(action, DisconnectAction::CheckStatus { delay_ms: 100 });
    assert_eq!(session.retries, 1);
}

#[test]
fn event_that_answers_nothing_asked_counts_as_a_round() {
    let session = disconnecting_session();
    let (session, action) = disconnect_from_wifi(session, DisconnectEvent::DisconnectIssued(Ok(())));
    assert_eq!(action, DisconnectAction::CheckStatus { delay_ms: 100 });
    assert_eq!(session.retries, 1);
    let (session, action) = disconnect_from_wifi(session, DisconnectEvent::Begin);
    assert_eq!(action, DisconnectAction::CheckStatus { delay_ms: 100 });
    assert_eq!(session.retries, 2);
    let (_, action) = disconnect_from_wifi(session, DisconnectEvent::Verified(Ok(true)));
    assert_eq!(
        action,
        DisconnectAction::Done(Err(WifiDisconnectError::Verification { attempts: 3 }))
    );
}

#[test]
fn disconnect_ends_within_its_budget() {
    // The worst a radio can do: every round fails at its last step.
    let mut session = connected_session();
    let mut event = DisconnectEvent::Begin;
    let mut steps = 0;
    loop {
        let (next, action) = disconnect_from_wifi(session, event);
        session = next;
        steps += 1;
        event = match action {
            DisconnectAction::CheckStatus { .. } => DisconnectEvent::StatusChecked(Ok(true)),
            DisconnectAction::IssueDisconnect => DisconnectEvent::DisconnectIssued(Ok(())),
            DisconnectAction::VerifyAfterDelay { .. } => DisconnectEvent::Verified(Ok(true)),
            DisconnectAction::Done(outcome) => {
                assert!(outcome.is_err());
                break;
            }
        };
    }
    assert_eq!(steps, 3 * MAX_DISCONNECT_RETRIES as usize + 1);
}

#[test]
fn connect_ends_within_its_budget() {
    // The worst a radio can do: every attempt fails at the verification
    // after both waits have used all their polls but one.
    let limit: u32 = 4;
    let mut session = ConnectionSession::new(3, 100, limit);
    let mut event = ConnectEvent::Begin;
    let mut misses = 0;
    let mut steps = 0;
    loop {
        let (next, action) = connect_to_wifi(session, event);
        session = next;
        steps += 1;
        event = match action {
            ConnectAction::StartAndConnect => ConnectEvent::ConnectIssued(true),
            ConnectAction::PollLink { .. } => {
                misses += 1;
                ConnectEvent::LinkPolled(misses % limit == 0)
            }
            ConnectAction::PollAddress { .. } => {
                misses += 1;
                ConnectEvent::AddressPolled(misses % limit == 0)
            }
            ConnectAction::VerifyAfterDelay { .. } => ConnectEvent::Verified(false),
            ConnectAction::RetryAfterDelay { .. } => ConnectEvent::Begin,
            ConnectAction::Connected => panic!("the radio never confirmed the link"),
            ConnectAction::Failed(error) => {
                assert_eq!(error, WifiConnectionError::Exhausted);
                break;
            }
        };
    }
    assert_eq!(steps, 3 * (3 + 2 * limit as usize));
    assert!(steps <= 3 * (5 + 2 * limit as usize));
}

#[test]
fn monitor_reads_the_radio_status() {
    assert_eq!(monitor_connection(Ok(true)), Ok(ConnectionStatus::Connected));
    assert_eq!(monitor_connection(Ok(false)), Ok(ConnectionStatus::Disconnected));
    assert_eq!(
        monitor_connection(Err(WifiFault::Other)),
        Err(MonitorError::Connection(WifiConnectionError::Wifi(WifiFault::Other)))
    );
}

#[test]
fn monitor_reports_after_two_failures_in_a_row() {
    let (count, report) = wifi_monitor_task_with_channel(0, Ok(ConnectionStatus::Disconnected));
    assert_eq!((count, report), (1, None));
    let (count, report) = wifi_monitor_task_with_channel(count, Ok(ConnectionStatus::Failed));
    assert_eq!(count, MAX_CONSECUTIVE_FAILURES);
    assert_eq!(report, Some(MonitorTaskResult::ConnectionFailure));
}

#[test]
fn monitor_count_is_cleared_by_a_connected_look() {
    let (count, _) = wifi_monitor_task_with_channel(0, Ok(ConnectionStatus::Disconnected));
    let (count, report) = wifi_monitor_task_with_channel(count, Ok(ConnectionStatus::Connected));
    assert_eq!((count, report), (0, None));
    let (count, report) = wifi_monitor_task_with_channel(count, Ok(ConnectionStatus::Disconnected));
    assert_eq!((count, report), (1, None));
}

#[test]
fn monitor_reports_its_own_failure_at_once() {
    let error = MonitorError::Connection(WifiConnectionError::Wifi(WifiFault::Other));
    let (count, report) = wifi_monitor_task_with_channel(1, Err(error));
    assert_eq!(count, 1);
    assert_eq!(report, Some(MonitorTaskResult::InternalError(error)));
}
