use tank_sensor::cell::BootState;
use tank_sensor::clock::{
    duration_to_next_rounded_wakeup, finish_sync, load_clock, next_rounded_wakeup,
    time_of_exchange, Clock, ClockPlan, Error, NetworkTime, TimeExchange,
    NTP_SYNC_INTERVAL_IN_SECONDS,
};

// 2024-03-05 09:46:12 UTC.
const AT_09_46_12: u64 = 1_709_631_972;

#[test]
fn rounded_wakeup_with_one_minute_period() {
    assert_eq!(next_rounded_wakeup(AT_09_46_12, 60), Some(1_709_632_020));
}

#[test]
fn rounded_wakeup_with_five_minute_period() {
    assert_eq!(next_rounded_wakeup(AT_09_46_12, 300), Some(1_709_632_200));
}

#[test]
fn rounded_wakeup_with_one_hour_period() {
    assert_eq!(next_rounded_wakeup(AT_09_46_12, 3600), Some(1_709_632_800));
}

#[test]
fn rounded_wakeup_on_the_grid_moves_a_full_period() {
    assert_eq!(next_rounded_wakeup(1_709_632_020, 60), Some(1_709_632_080));
    assert_eq!(duration_to_next_rounded_wakeup(1_709_632_020, 60), Some(60));
}

#[test]
fn rounded_wakeup_refuses_zero_period_and_overflow() {
    assert_eq!(next_rounded_wakeup(AT_09_46_12, 0), None);
    assert_eq!(next_rounded_wakeup(u64::MAX, 1), None);
    assert_eq!(duration_to_next_rounded_wakeup(AT_09_46_12, 0), None);
    assert_eq!(duration_to_next_rounded_wakeup(u64::MAX - 5, 6), None);
}

#[test]
fn duration_to_rounded_wakeup_is_the_difference() {
    assert_eq!(duration_to_next_rounded_wakeup(AT_09_46_12, 60), Some(48));
    assert_eq!(duration_to_next_rounded_wakeup(AT_09_46_12, 300), Some(228));
    assert_eq!(duration_to_next_rounded_wakeup(AT_09_46_12, 3600), Some(828));
}

#[test]
fn now_adds_elapsed_time() {
    let clock = Clock::new_from_utc_seconds(1_700_000_000);
    assert_eq!(clock.now(0), 1_700_000_000);
    assert_eq!(clock.now(999_999), 1_700_000_000);
    assert_eq!(clock.now(2_500_000), 1_700_000_002);
    assert_eq!(clock.now_as_epoch(2_500_000), 1_700_000_002_500_000);
}

#[test]
fn now_stays_at_the_end_of_the_range() {
    let clock = Clock::new_from_utc_seconds(u64::MAX - 1);
    assert_eq!(clock.now(5_000_000), u64::MAX);
    assert_eq!(clock.now_as_epoch(0), u64::MAX);
}

#[test]
fn local_time_applies_the_offset() {
    let east = Clock::from_server(NetworkTime { unix_seconds: 1_000, utc_offset_seconds: 3600 });
    assert_eq!(east.now_local(0), 4_600);
    let west = Clock::from_server(NetworkTime { unix_seconds: 1_000, utc_offset_seconds: -3600 });
    assert_eq!(west.now_local(0), 0);
    assert_eq!(west.now_local(3_000_000_000), 400);
}

#[test]
fn persisted_clock_is_restored_after_sleep() {
    // Persisted epoch 1,700,000,000 s and a sleep of 30 s.
    let clock = Clock::new_from_utc_seconds(1_700_000_000);
    let saved = clock.save_to_rtc_memory(0, 30, BootState { boot_count: 5, ..BootState::zeroed() });
    assert_eq!(saved.last_epoch_seconds, 1_700_000_030);
    assert_eq!(saved.boot_count, 5);
    let restored = Clock::from_rtc_memory(&saved).unwrap();
    assert_eq!(restored.now(0), 1_700_000_030);
}

#[test]
fn persist_then_restore_loses_less_than_a_second() {
    let clock = Clock {
        epoch_seconds: 1_700_000_000,
        utc_offset_seconds: 46_800,
        last_sync_epoch_seconds: 1_699_999_000,
    };
    let awake: u64 = 7_654_321;
    let sleep: u64 = 30;
    let saved = clock.save_to_rtc_memory(awake, sleep, BootState::zeroed());
    let restored = Clock::from_rtc_memory(&saved).unwrap();
    let before = clock.now_as_epoch(awake + sleep * 1_000_000);
    let after = restored.now_as_epoch(0);
    assert!(after <= before);
    assert_eq!(before - after, 654_321);
    assert_eq!(restored.utc_offset_seconds, 46_800);
    assert_eq!(restored.last_sync_epoch_seconds, 1_699_999_000);
}

#[test]
fn nothing_is_restored_from_zeroed_state() {
    assert_eq!(Clock::from_rtc_memory(&BootState::zeroed()), None);
}

#[test]
fn clock_from_server_counts_as_synchronized() {
    let clock = Clock::from_server(NetworkTime { unix_seconds: 1_700_000_000, utc_offset_seconds: -18_000 });
    assert_eq!(clock.epoch_seconds, 1_700_000_000);
    assert_eq!(clock.utc_offset_seconds, -18_000);
    assert_eq!(clock.last_sync_epoch_seconds, 1_700_000_000);
}

#[test]
fn load_clock_restores_a_fresh_clock() {
    let state = BootState {
        boot_count: 3,
        last_epoch_seconds: 1_700_003_599,
        utc_offset_seconds: 0,
        last_sync_epoch_seconds: 1_700_000_000,
    };
    let expected = Clock {
        epoch_seconds: 1_700_003_599,
        utc_offset_seconds: 0,
        last_sync_epoch_seconds: 1_700_000_000,
    };
    assert_eq!(load_clock(&state, NTP_SYNC_INTERVAL_IN_SECONDS), ClockPlan::Restore(expected));
}

#[test]
fn load_clock_asks_the_network_after_the_interval() {
    let state = BootState {
        boot_count: 3,
        last_epoch_seconds: 1_700_003_600,
        utc_offset_seconds: 0,
        last_sync_epoch_seconds: 1_700_000_000,
    };
    let stale = Clock {
        epoch_seconds: 1_700_003_600,
        utc_offset_seconds: 0,
        last_sync_epoch_seconds: 1_700_000_000,
    };
    assert_eq!(
        load_clock(&state, NTP_SYNC_INTERVAL_IN_SECONDS),
        ClockPlan::Sync { stale: Some(stale) }
    );
}

#[test]
fn load_clock_asks_the_network_on_first_boot() {
    assert_eq!(
        load_clock(&BootState::zeroed(), NTP_SYNC_INTERVAL_IN_SECONDS),
        ClockPlan::Sync { stale: None }
    );
}

#[test]
fn finish_sync_makes_the_clock_from_the_network_time() {
    let time = NetworkTime { unix_seconds: 1_700_000_000, utc_offset_seconds: 60 };
    assert_eq!(finish_sync(Ok(time)), Ok(Clock::from_server(time)));
}

#[test]
fn finish_sync_hands_the_error_on() {
    assert_eq!(finish_sync(Err(Error::Dns)), Err(Error::Dns));
    assert_eq!(finish_sync(Err(Error::InvalidNtpTime)), Err(Error::InvalidNtpTime));
    assert_eq!(finish_sync(Err(Error::UdpBind)), Err(Error::UdpBind));
}

#[test]
fn failed_fetch_with_a_retained_clock_is_an_error() {
    // A time is retained, the last synchronization lies an hour back, and
    // the network gives no answer.
    let state = BootState {
        boot_count: 3,
        last_epoch_seconds: 1_700_003_600,
        utc_offset_seconds: 0,
        last_sync_epoch_seconds: 1_700_000_000,
    };
    match load_clock(&state, NTP_SYNC_INTERVAL_IN_SECONDS) {
        ClockPlan::Sync { stale } => {
            assert!(stale.is_some());
            assert_eq!(finish_sync(Err(Error::Http)), Err(Error::Http));
        }
        ClockPlan::Restore(_) => panic!("the retained clock is too old to be restored"),
    }
}

#[test]
fn failed_time_exchange_gives_the_error_of_its_step() {
    assert_eq!(time_of_exchange(TimeExchange::BindFailed), Err(Error::UdpBind));
    assert_eq!(time_of_exchange(TimeExchange::ResolveFailed), Err(Error::Dns));
    assert_eq!(time_of_exchange(TimeExchange::NoAddress), Err(Error::InvalidDnsAddress));
    assert_eq!(time_of_exchange(TimeExchange::NoAnswer), Err(Error::InvalidNtpTime));
}

#[test]
fn answered_time_exchange_gives_the_time_in_utc() {
    assert_eq!(
        time_of_exchange(TimeExchange::Answered { seconds: 1_700_000_000 }),
        Ok(NetworkTime { unix_seconds: 1_700_000_000, utc_offset_seconds: 0 })
    );
    let clock = finish_sync(time_of_exchange(TimeExchange::Answered { seconds: 1_700_000_000 }));
    assert_eq!(clock.map(|clock| clock.last_sync_epoch_seconds), Ok(1_700_000_000));
}
