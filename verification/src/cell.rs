//! A cell for the one value that outlives a wake cycle.

use vstd::prelude::*;

verus! {

/// Holds a value that is kept in retained memory between wake cycles.
///
/// The node runs a single cooperative thread, so the cell hands out plain
/// references and needs no lock of its own.
pub struct SyncUnsafeCell<T> {
    inner: T,
}

impl<T> View for SyncUnsafeCell<T> {
    type V = T;

    closed spec fn view(&self) -> T {
        self.inner
    }
}

impl<T> SyncUnsafeCell<T> {
    /// Creates a cell that holds `inner`.
    #[must_use]
    pub fn new(inner: T) -> (cell: Self)
        ensures
            cell@ == inner,
    {
        Self { inner }
    }

    /// Reads the value in the cell.
    pub fn get(&self) -> (value: &T)
        ensures
            *value == self@,
    {
        &self.inner
    }

    /// Overwrites the value in the cell and hands back the one it held.
    pub fn replace(&mut self, value: T) -> (previous: T)
        ensures
            final(self)@ == value,
            previous == old(self)@,
    {
        let mut value = value;
        std::mem::swap(&mut self.inner, &mut value);
        value
    }
}

/// What the node keeps in retained memory across deep sleep. It is all zero
/// on the first power-up and lost when power is lost.
#[derive(Clone, Copy, Debug, PartialEq, Eq, Structural)]
pub struct BootState {
    /// Number of wake cycles so far.
    pub boot_count: u32,
    /// The time at which the node expects to wake next, in seconds since the
    /// Unix epoch; zero while no clock was ever persisted.
    pub last_epoch_seconds: u64,
    /// Offset of local time from UTC, in seconds.
    pub utc_offset_seconds: i32,
    /// The time of the last synchronization with a network time source, in
    /// seconds since the Unix epoch; zero while there was none.
    pub last_sync_epoch_seconds: u64,
}

impl BootState {
    /// The boot count that follows `count`; after the largest it starts
    /// again at zero.
    pub open spec fn following(count: u32) -> u32 {
        if count == u32::MAX {
            0
        } else {
            (count + 1) as u32
        }
    }

    /// The state of a node that has never run.
    pub fn zeroed() -> (state: Self)
        ensures
            state == (BootState {
                boot_count: 0,
                last_epoch_seconds: 0,
                utc_offset_seconds: 0,
                last_sync_epoch_seconds: 0,
            }),
    {
        BootState {
            boot_count: 0,
            last_epoch_seconds: 0,
            utc_offset_seconds: 0,
            last_sync_epoch_seconds: 0,
        }
    }

    /// Counts one more wake cycle and leaves the rest as it is.
    pub fn next_wake(self) -> (state: Self)
        ensures
            state == (BootState { boot_count: Self::following(self.boot_count), ..self }),
    {
        let boot_count = if self.boot_count == u32::MAX {
            0
        } else {
            self.boot_count + 1
        };
        BootState { boot_count, ..self }
    }
}

/// Counts the wake cycle that begins in the retained state and returns the
/// new boot count.
pub fn begin_wake(store: &mut SyncUnsafeCell<BootState>) -> (boot_count: u32)
    ensures
        final(store)@ == (BootState {
            boot_count: BootState::following(old(store)@.boot_count),
            ..old(store)@
        }),
        boot_count == final(store)@.boot_count,
{
    let state = store.get().next_wake();
    let _ = store.replace(state);
    state.boot_count
}

} // verus!
