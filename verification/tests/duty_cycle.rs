use tank_sensor::duty_cycle::{
    check_wifi_status, disconnect_wifi_and_put_device_to_sleep, CycleAction, CycleEvent,
    CyclePhase, DutyCycle, Error, DEEP_SLEEP_DURATION_IN_SECONDS,
};
use tank_sensor::wifi::{
    MonitorError, MonitorTaskResult, WifiConnectionError, WifiDisconnectError, WifiFault,
};

fn run(events: &[CycleEvent]) -> (DutyCycle, Vec<CycleAction>) {
    let (mut cycle, first) = DutyCycle::wake(12, DEEP_SLEEP_DURATION_IN_SECONDS);
    let mut actions = vec![first];
    for event in events {
        let (next, action) = cycle.step(*event, false);
        cycle = next;
        actions.push(action);
    }
    (cycle, actions)
}

fn until_clock_ready() -> Vec<CycleEvent> {
    vec![
        CycleEvent::LoggingInitialized(true),
        CycleEvent::ConnectFinished(Ok(())),
        CycleEvent::ClockFinished { synced: true, stale_available: false },
    ]
}

#[test]
fn cycle_begins_with_logging() {
    let (cycle, action) = DutyCycle::wake(12, 30);
    assert_eq!(cycle.phase, CyclePhase::Boot);
    assert_eq!(cycle.boot_count, 12);
    assert_eq!(action, CycleAction::InitLogging { boot_count: 12 });
}

#[test]
fn full_cycle_runs_every_step_in_order() {
    let mut events = until_clock_ready();
    events.extend(vec![
        CycleEvent::SamplingFinished(true),
        CycleEvent::TransmitFinished(true),
        CycleEvent::PersistFinished(true),
        CycleEvent::DisconnectFinished(Ok(())),
        CycleEvent::LinkLost,
    ]);
    let (cycle, actions) = run(&events);
    assert_eq!(
        actions,
        vec![
            CycleAction::InitLogging { boot_count: 12 },
            CycleAction::Connect,
            CycleAction::SyncClock,
            CycleAction::Sample,
            CycleAction::Transmit,
            CycleAction::FlushAndPersist,
            CycleAction::Disconnect,
            CycleAction::Sleep { seconds: 30 },
            CycleAction::Sleep { seconds: 30 },
        ]
    );
    assert_eq!(cycle.phase, CyclePhase::Asleep);
    assert_eq!(cycle.boot_count, 12);
}

#[test]
fn phases_follow_the_steps() {
    let mut events = until_clock_ready();
    assert_eq!(run(&events[..1]).0.phase, CyclePhase::LoggingReady);
    assert_eq!(run(&events[..2]).0.phase, CyclePhase::Connected);
    assert_eq!(run(&events).0.phase, CyclePhase::ClockReady);
    events.push(CycleEvent::SamplingFinished(true));
    assert_eq!(run(&events).0.phase, CyclePhase::Sampling);
    events.push(CycleEvent::TransmitFinished(false));
    assert_eq!(run(&events).0.phase, CyclePhase::Transmitted);
    events.push(CycleEvent::PersistFinished(false));
    assert_eq!(run(&events).0.phase, CyclePhase::Persisted);
    events.push(CycleEvent::DisconnectFinished(Ok(())));
    assert_eq!(run(&events).0.phase, CyclePhase::Disconnected);
}

#[test]
fn logger_failure_goes_straight_to_sleep() {
    let (cycle, actions) = run(&[CycleEvent::LoggingInitialized(false)]);
    assert_eq!(actions[1], CycleAction::Sleep { seconds: 30 });
    assert_eq!(cycle.phase, CyclePhase::Asleep);
}

#[test]
fn connect_exhaustion_goes_to_sleep() {
    let (cycle, actions) = run(&[
        CycleEvent::LoggingInitialized(true),
        CycleEvent::ConnectFinished(Err(WifiConnectionError::Exhausted)),
    ]);
    assert_eq!(actions[2], CycleAction::Sleep { seconds: 30 });
    assert_eq!(cycle.phase, CyclePhase::Asleep);
}

#[test]
fn clock_failure_with_a_stale_clock_goes_on() {
    let (cycle, actions) = run(&[
        CycleEvent::LoggingInitialized(true),
        CycleEvent::ConnectFinished(Ok(())),
        CycleEvent::ClockFinished { synced: false, stale_available: true },
    ]);
    assert_eq!(actions[3], CycleAction::Sample);
    assert_eq!(cycle.phase, CyclePhase::ClockReady);
    assert!(!cycle.aborting);
}

#[test]
fn clock_failure_without_any_clock_cuts_the_cycle_short() {
    let (cycle, actions) = run(&[
        CycleEvent::LoggingInitialized(true),
        CycleEvent::ConnectFinished(Ok(())),
        CycleEvent::ClockFinished { synced: false, stale_available: false },
        CycleEvent::DisconnectFinished(Ok(())),
    ]);
    assert_eq!(actions[3], CycleAction::Disconnect);
    assert_eq!(actions[4], CycleAction::Sleep { seconds: 30 });
    assert_eq!(cycle.phase, CyclePhase::Disconnected);
}

#[test]
fn link_loss_while_sampling_aborts_to_disconnect() {
    let mut events = until_clock_ready();
    events.push(CycleEvent::LinkLost);
    events.push(CycleEvent::SamplingFinished(true));
    let (cycle, actions) = run(&events);
    assert_eq!(actions[4], CycleAction::Disconnect);
    assert_eq!(actions[5], CycleAction::Disconnect);
    assert!(cycle.aborting);
    assert_eq!(cycle.phase, CyclePhase::ClockReady);
}

#[test]
fn failed_sampling_cuts_the_cycle_short() {
    let mut events = until_clock_ready();
    events.push(CycleEvent::SamplingFinished(false));
    let (cycle, actions) = run(&events);
    assert_eq!(actions[4], CycleAction::Disconnect);
    assert!(cycle.aborting);
}

#[test]
fn failed_transmission_is_not_fatal() {
    let mut events = until_clock_ready();
    events.push(CycleEvent::SamplingFinished(true));
    events.push(CycleEvent::TransmitFinished(false));
    let (cycle, actions) = run(&events);
    assert_eq!(actions[5], CycleAction::FlushAndPersist);
    assert!(!cycle.aborting);
}

#[test]
fn failed_disconnect_resets_and_never_sleeps() {
    let mut events = until_clock_ready();
    events.extend(vec![
        CycleEvent::SamplingFinished(true),
        CycleEvent::TransmitFinished(true),
        CycleEvent::PersistFinished(true),
        CycleEvent::DisconnectFinished(Err(WifiDisconnectError::Verification { attempts: 3 })),
        CycleEvent::DisconnectFinished(Ok(())),
        CycleEvent::LinkLost,
        CycleEvent::PersistFinished(true),
    ]);
    let (cycle, actions) = run(&events);
    assert_eq!(actions[7], CycleAction::Reset);
    assert_eq!(actions[8], CycleAction::Reset);
    assert_eq!(actions[9], CycleAction::Reset);
    assert_eq!(actions[10], CycleAction::Reset);
    assert_eq!(cycle.phase, CyclePhase::Reset);
    assert!(!actions.iter().any(|action| matches!(action, CycleAction::Sleep { .. })));
}

#[test]
fn failed_disconnect_after_an_abort_resets() {
    let mut events = until_clock_ready();
    events.push(CycleEvent::LinkLost);
    events.push(CycleEvent::DisconnectFinished(Err(WifiDisconnectError::Disconnect)));
    let (cycle, actions) = run(&events);
    assert_eq!(actions[5], CycleAction::Reset);
    assert_eq!(cycle.phase, CyclePhase::Reset);
}

#[test]
fn past_the_deadline_optional_steps_are_skipped() {
    let (cycle, _) = DutyCycle::wake(1, 30);
    let (cycle, _) = cycle.step(CycleEvent::LoggingInitialized(true), true);
    let (cycle, action) = cycle.step(CycleEvent::ConnectFinished(Ok(())), true);
    assert_eq!(action, CycleAction::SyncClock);
    let (cycle, action) =
        cycle.step(CycleEvent::ClockFinished { synced: true, stale_available: false }, true);
    assert_eq!(action, CycleAction::FlushAndPersist);
    let (cycle, action) = cycle.step(CycleEvent::PersistFinished(true), true);
    assert_eq!(action, CycleAction::Disconnect);
    assert_eq!(cycle.phase, CyclePhase::Persisted);
    let (cycle, action) = cycle.step(CycleEvent::DisconnectFinished(Ok(())), true);
    assert_eq!(action, CycleAction::Sleep { seconds: 30 });
    assert_eq!(cycle.phase, CyclePhase::Disconnected);
}

#[test]
fn deadline_after_sampling_skips_transmission() {
    let (mut cycle, _) = DutyCycle::wake(1, 30);
    for event in until_clock_ready() {
        cycle = cycle.step(event, false).0;
    }
    let (_, action) = cycle.step(CycleEvent::SamplingFinished(true), true);
    assert_eq!(action, CycleAction::FlushAndPersist);
}

#[test]
fn monitor_signal_is_read_as_link_status() {
    assert_eq!(check_wifi_status(None), Ok(()));
    assert_eq!(check_wifi_status(Some(MonitorTaskResult::Success)), Ok(()));
    assert_eq!(
        check_wifi_status(Some(MonitorTaskResult::ConnectionFailure)),
        Err(Error::NetworkDisconnected)
    );
    let internal = MonitorTaskResult::InternalError(MonitorError::Connection(
        WifiConnectionError::Wifi(WifiFault::Other),
    ));
    assert_eq!(check_wifi_status(Some(internal)), Err(Error::NetworkDisconnected));
}

#[test]
fn end_of_cycle_is_sleep_or_reset() {
    assert_eq!(
        disconnect_wifi_and_put_device_to_sleep(Ok(()), 30),
        CycleAction::Sleep { seconds: 30 }
    );
    assert_eq!(
        disconnect_wifi_and_put_device_to_sleep(Err(WifiDisconnectError::Disconnect), 30),
        CycleAction::Reset
    );
    assert_eq!(
        disconnect_wifi_and_put_device_to_sleep(
            Err(WifiDisconnectError::Verification { attempts: 3 }),
            30
        ),
        CycleAction::Reset
    );
}

#[test]
fn unexpected_outcome_after_persisting_cuts_the_cycle_short() {
    let mut events = until_clock_ready();
    events.extend(vec![
        CycleEvent::SamplingFinished(true),
        CycleEvent::TransmitFinished(true),
        CycleEvent::PersistFinished(true),
        CycleEvent::PersistFinished(true),
    ]);
    let (cycle, actions) = run(&events);
    assert_eq!(actions[6], CycleAction::Disconnect);
    assert_eq!(actions[7], CycleAction::Disconnect);
    assert_eq!(cycle.phase, CyclePhase::Persisted);
    assert!(cycle.aborting);
    let (cycle, action) = cycle.step(CycleEvent::DisconnectFinished(Ok(())), false);
    assert_eq!(action, CycleAction::Sleep { seconds: 30 });
    assert_eq!(cycle.phase, CyclePhase::Disconnected);
}

#[test]
fn every_cycle_ends_within_ten_steps() {
    // Each list of outcomes is followed until the cycle sleeps or resets.
    let happy = vec![
        CycleEvent::LoggingInitialized(true),
        CycleEvent::ConnectFinished(Ok(())),
        CycleEvent::ClockFinished { synced: true, stale_available: true },
        CycleEvent::SamplingFinished(true),
        CycleEvent::TransmitFinished(true),
        CycleEvent::PersistFinished(true),
        CycleEvent::DisconnectFinished(Ok(())),
    ];
    for failing in 0..happy.len() {
        let (mut cycle, mut action) = DutyCycle::wake(1, 30);
        let mut steps = 0;
        while !matches!(action, CycleAction::Sleep { .. } | CycleAction::Reset) {
            let event = if matches!(action, CycleAction::Disconnect) {
                CycleEvent::DisconnectFinished(Ok(()))
            } else if steps == failing {
                CycleEvent::LinkLost
            } else {
                happy[steps]
            };
            let (next, following) = cycle.step(event, false);
            cycle = next;
            action = following;
            steps += 1;
            assert!(steps <= 10);
        }
    }
}

#[test]
fn error_of_the_connect_procedure_becomes_an_error_of_the_cycle() {
    assert_eq!(
        Error::from(WifiConnectionError::Exhausted),
        Error::Wifi(WifiConnectionError::Exhausted)
    );
}
