use tank_sensor::cell::{begin_wake, BootState, SyncUnsafeCell};

#[test]
fn cell_holds_what_it_was_given() {
    let cell = SyncUnsafeCell::new(7u32);
    assert_eq!(*cell.get(), 7);
}

#[test]
fn cell_replace_returns_previous_value() {
    let mut cell = SyncUnsafeCell::new(7u32);
    assert_eq!(cell.replace(9), 7);
    assert_eq!(*cell.get(), 9);
}

#[test]
fn boot_state_starts_zeroed() {
    let state = BootState::zeroed();
    assert_eq!(state.boot_count, 0);
    assert_eq!(state.last_epoch_seconds, 0);
    assert_eq!(state.utc_offset_seconds, 0);
    assert_eq!(state.last_sync_epoch_seconds, 0);
}

#[test]
fn next_wake_counts_one_boot() {
    let state = BootState {
        boot_count: 41,
        last_epoch_seconds: 1_700_000_000,
        utc_offset_seconds: 3600,
        last_sync_epoch_seconds: 1_699_999_000,
    };
    let next = state.next_wake();
    assert_eq!(next, BootState { boot_count: 42, ..state });
}

#[test]
fn next_wake_wraps_after_largest_count() {
    let state = BootState { boot_count: u32::MAX, ..BootState::zeroed() };
    assert_eq!(state.next_wake().boot_count, 0);
}

#[test]
fn begin_wake_updates_the_store() {
    let mut store = SyncUnsafeCell::new(BootState::zeroed());
    assert_eq!(begin_wake(&mut store), 1);
    assert_eq!(begin_wake(&mut store), 2);
    assert_eq!(store.get().boot_count, 2);
    assert_eq!(store.get().last_epoch_seconds, 0);
}
