//! The clock that survives deep sleep: restored from retained memory or set
//! from a network time source, read without suspending, and aligned to a
//! wall-clock grid for the next wakeup.

use crate::cell::BootState;
use crate::worldtimeapi::Error as TimeSourceError;
use vstd::prelude::*;
use vstd::std_specs::convert::FromSpecImpl;

verus! {

/// Seconds after which the clock is synchronized again.
pub const NTP_SYNC_INTERVAL_IN_SECONDS: u32 = 3600;

/// Microseconds in a second.
pub const MICROS_PER_SECOND: u64 = 1_000_000;

/// Why the clock could not be set from the network.
#[derive(Clone, Copy, Debug, PartialEq, Eq, Structural)]
pub enum Error {
    /// The name of the time server could not be resolved.
    Dns,
    /// The request to the time server failed.
    Http,
    /// The name of the time server resolved to no address.
    InvalidDnsAddress,
    /// The time exchange failed or gave no time.
    InvalidNtpTime,
    /// A number in the answer could not be read.
    ParseInt,
    /// A time or an offset in the answer is out of range.
    TimeComponentRange,
    /// The socket could not be bound.
    UdpBind,
    /// The answer is not valid UTF-8.
    Utf8,
    /// The answer lacks the time or the offset.
    MissingField,
}

impl From<TimeSourceError> for Error {
    /// Takes an error of the text time source as an error of the clock.
    fn from(error: TimeSourceError) -> (wrapped: Self) {
        match error {
            TimeSourceError::InvalidInOffset => Error::TimeComponentRange,
            TimeSourceError::Unknown => Error::MissingField,
            TimeSourceError::TimeComponentRange => Error::TimeComponentRange,
            TimeSourceError::Http => Error::Http,
            TimeSourceError::ParseInt => Error::ParseInt,
            TimeSourceError::Utf8 => Error::Utf8,
        }
    }
}

impl FromSpecImpl<TimeSourceError> for Error {
    open spec fn obeys_from_spec() -> bool {
        true
    }

    open spec fn from_spec(error: TimeSourceError) -> Self {
        match error {
            TimeSourceError::InvalidInOffset => Error::TimeComponentRange,
            TimeSourceError::Unknown => Error::MissingField,
            TimeSourceError::TimeComponentRange => Error::TimeComponentRange,
            TimeSourceError::Http => Error::Http,
            TimeSourceError::ParseInt => Error::ParseInt,
            TimeSourceError::Utf8 => Error::Utf8,
        }
    }
}

/// What a network time source returns.
#[derive(Clone, Copy, Debug, PartialEq, Eq, Structural)]
pub struct NetworkTime {
    /// Seconds since the Unix epoch, in UTC.
    pub unix_seconds: u64,
    /// Offset of local time from UTC, in seconds.
    pub utc_offset_seconds: i32,
}

/// How an exchange with a time server went.
#[derive(Clone, Copy, Debug, PartialEq, Eq, Structural)]
pub enum TimeExchange {
    /// The socket could not be bound.
    BindFailed,
    /// The name of the server could not be resolved.
    ResolveFailed,
    /// The name of the server resolved to no address.
    NoAddress,
    /// The server gave no answer, or one that cannot be used.
    NoAnswer,
    /// The server answered with the time, in seconds since the Unix epoch.
    Answered { seconds: u32 },
}

/// What an exchange with a time server gives: the time of the answer in
/// UTC, or the error of the step at which the exchange failed.
pub open spec fn exchanged_time(exchange: TimeExchange) -> Result<NetworkTime, Error> {
    match exchange {
        TimeExchange::BindFailed => Err(Error::UdpBind),
        TimeExchange::ResolveFailed => Err(Error::Dns),
        TimeExchange::NoAddress => Err(Error::InvalidDnsAddress),
        TimeExchange::NoAnswer => Err(Error::InvalidNtpTime),
        TimeExchange::Answered { seconds } => Ok(
            NetworkTime { unix_seconds: seconds as u64, utc_offset_seconds: 0 },
        ),
    }
}

/// The clock of one wake cycle: the time at which the node woke, to which
/// the time since then is added.
#[derive(Clone, Copy, Debug, PartialEq, Eq, Structural)]
pub struct Clock {
    /// Seconds since the Unix epoch at the moment the node woke, in UTC.
    pub epoch_seconds: u64,
    /// Offset of local time from UTC, in seconds.
    pub utc_offset_seconds: i32,
    /// When the clock was last set from the network, in seconds since the
    /// Unix epoch; zero if it never was.
    pub last_sync_epoch_seconds: u64,
}

/// What is to be done to have a clock.
#[derive(Clone, Copy, Debug, PartialEq, Eq)]
pub enum ClockPlan {
    /// The retained clock is fresh enough: use it.
    Restore(Clock),
    /// Ask the network; `stale` is the retained clock to fall back on, if
    /// there is one.
    Sync { stale: Option<Clock> },
}

/// `value` brought into the range of `u64`.
pub open spec fn saturate(value: int) -> u64 {
    if value < 0 {
        0
    } else if value > u64::MAX {
        u64::MAX
    } else {
        value as u64
    }
}

/// The instant that follows `now + period` rounded down to a multiple of
/// `period`.
pub open spec fn rounded_wakeup(now: int, period: int) -> int {
    ((now + period) / period) * period
}

impl Clock {
    /// Whole seconds since the Unix epoch when `micros_since_wake`
    /// microseconds have passed since the node woke.
    pub open spec fn seconds_at(&self, micros_since_wake: u64) -> int {
        self.epoch_seconds + micros_since_wake / MICROS_PER_SECOND
    }

    /// Microseconds since the Unix epoch when `micros_since_wake`
    /// microseconds have passed since the node woke.
    pub open spec fn micros_at(&self, micros_since_wake: u64) -> int {
        self.epoch_seconds * MICROS_PER_SECOND + micros_since_wake
    }

    /// The retained state after this clock was persisted for a sleep of
    /// `expected_sleep_seconds`.
    pub open spec fn persisted(
        &self,
        micros_since_wake: u64,
        expected_sleep_seconds: u64,
        state: BootState,
    ) -> BootState {
        BootState {
            boot_count: state.boot_count,
            last_epoch_seconds: saturate(self.seconds_at(micros_since_wake) + expected_sleep_seconds),
            utc_offset_seconds: self.utc_offset_seconds,
            last_sync_epoch_seconds: self.last_sync_epoch_seconds,
        }
    }

    /// The clock that retained state gives, if it holds one.
    pub open spec fn restored(state: BootState) -> Option<Clock> {
        if state.last_epoch_seconds == 0 {
            None
        } else {
            Some(
                Clock {
                    epoch_seconds: state.last_epoch_seconds,
                    utc_offset_seconds: state.utc_offset_seconds,
                    last_sync_epoch_seconds: state.last_sync_epoch_seconds,
                },
            )
        }
    }

    /// Creates a clock that reads `utc_time_in_seconds` at the moment the
    /// node woke, with no offset and no synchronization on record.
    pub fn new_from_utc_seconds(utc_time_in_seconds: u64) -> (clock: Self)
        ensures
            clock == (Clock {
                epoch_seconds: utc_time_in_seconds,
                utc_offset_seconds: 0,
                last_sync_epoch_seconds: 0,
            }),
    {
        Clock {
            epoch_seconds: utc_time_in_seconds,
            utc_offset_seconds: 0,
            last_sync_epoch_seconds: 0,
        }
    }

    /// Returns the time in whole seconds since the Unix epoch, given the
    /// microseconds that have passed since the node woke. At the end of the
    /// range of `u64` the result stays there.
    pub fn now(&self, micros_since_wake: u64) -> (seconds: u64)
        ensures
            seconds == saturate(self.seconds_at(micros_since_wake)),
            seconds >= self.epoch_seconds,
    {
        self.epoch_seconds.saturating_add(micros_since_wake / MICROS_PER_SECOND)
    }

    /// Returns the time in microseconds since the Unix epoch, given the
    /// microseconds that have passed since the node woke. At the end of the
    /// range of `u64` the result stays there.
    pub fn now_as_epoch(&self, micros_since_wake: u64) -> (micros: u64)
        ensures
            micros == saturate(self.micros_at(micros_since_wake)),
    {
        if self.epoch_seconds > u64::MAX / MICROS_PER_SECOND {
            assert(self.epoch_seconds * MICROS_PER_SECOND > u64::MAX) by (nonlinear_arith)
                requires
                    self.epoch_seconds >= u64::MAX / MICROS_PER_SECOND + 1,
                    MICROS_PER_SECOND == 1_000_000,
            ;
            return u64::MAX;
        }
        assert(self.epoch_seconds * MICROS_PER_SECOND <= u64::MAX) by (nonlinear_arith)
            requires
                self.epoch_seconds <= u64::MAX / MICROS_PER_SECOND,
                MICROS_PER_SECOND == 1_000_000,
        ;
        (self.epoch_seconds * MICROS_PER_SECOND).saturating_add(micros_since_wake)
    }

    /// Returns the local time in whole seconds: the time in UTC moved by the
    /// offset, and never below zero.
    pub fn now_local(&self, micros_since_wake: u64) -> (seconds: u64)
        ensures
            seconds == saturate(
                saturate(self.seconds_at(micros_since_wake)) + self.utc_offset_seconds,
            ),
    {
        let utc = self.now(micros_since_wake);
        if self.utc_offset_seconds >= 0 {
            utc.saturating_add(self.utc_offset_seconds as u64)
        } else {
            let back: u64 = (-(self.utc_offset_seconds as i64)) as u64;
            utc.saturating_sub(back)
        }
    }

    /// Creates the clock from what a network time source returned. The
    /// moment counts as the last synchronization.
    pub fn from_server(time: NetworkTime) -> (clock: Self)
        ensures
            clock == (Clock {
                epoch_seconds: time.unix_seconds,
                utc_offset_seconds: time.utc_offset_seconds,
                last_sync_epoch_seconds: time.unix_seconds,
            }),
    {
        Clock {
            epoch_seconds: time.unix_seconds,
            utc_offset_seconds: time.utc_offset_seconds,
            last_sync_epoch_seconds: time.unix_seconds,
        }
    }

    /// Restores the clock from retained state, or returns `None` where no
    /// clock was ever persisted.
    pub fn from_rtc_memory(state: &BootState) -> (clock: Option<Self>)
        ensures
            clock == Self::restored(*state),
    {
        if state.last_epoch_seconds == 0 {
            None
        } else {
            Some(
                Clock {
                    epoch_seconds: state.last_epoch_seconds,
                    utc_offset_seconds: state.utc_offset_seconds,
                    last_sync_epoch_seconds: state.last_sync_epoch_seconds,
                },
            )
        }
    }

    /// Persists the clock for a sleep of `expected_sleep_seconds`: the
    /// retained state gets the time at which the node expects to wake, the
    /// offset and the time of the last synchronization. The boot count stays.
    pub fn save_to_rtc_memory(
        &self,
        micros_since_wake: u64,
        expected_sleep_seconds: u64,
        state: BootState,
    ) -> (saved: BootState)
        ensures
            saved == self.persisted(micros_since_wake, expected_sleep_seconds, state),
            saved.boot_count == state.boot_count,
    {
        let then = self.now(micros_since_wake).saturating_add(expected_sleep_seconds);
        BootState {
            boot_count: state.boot_count,
            last_epoch_seconds: then,
            utc_offset_seconds: self.utc_offset_seconds,
            last_sync_epoch_seconds: self.last_sync_epoch_seconds,
        }
    }
}

/// Computes the next wakeup on the wall-clock grid: `now + period` rounded
/// down to a multiple of `period`, all in seconds. At 09:46:12 that is
/// 09:47:00 for a period of a minute, 09:50:00 for five minutes and 10:00:00
/// for an hour.
///
/// Returns `None` for a period of zero and where `now + period` is beyond
/// the range of `u64`.
pub fn next_rounded_wakeup(now: u64, period: u64) -> (then: Option<u64>)
    ensures
        period == 0 || now + period > u64::MAX ==> then.is_none(),
        period > 0 && now + period <= u64::MAX ==> then.is_some() && then.unwrap()
            == rounded_wakeup(now as int, period as int),
        then.is_some() ==> then.unwrap() % period == 0 && now < then.unwrap() <= now + period,
{
    if period == 0 {
        return None;
    }
    match now.checked_add(period) {
        None => None,
        Some(sum) => {
            proof {
                lemma_rounding_down(sum as int, period as int);
            }
            Some((sum / period) * period)
        },
    }
}

/// Computes the time from `now` to the next wakeup on the wall-clock grid,
/// in seconds: more than zero and at most `period`.
///
/// Returns `None` exactly where `next_rounded_wakeup` does.
pub fn duration_to_next_rounded_wakeup(now: u64, period: u64) -> (wait: Option<u64>)
    ensures
        period == 0 || now + period > u64::MAX ==> wait.is_none(),
        period > 0 && now + period <= u64::MAX ==> wait.is_some() && wait.unwrap()
            == rounded_wakeup(now as int, period as int) - now,
        wait.is_some() ==> 0 < wait.unwrap() <= period,
{
    match next_rounded_wakeup(now, period) {
        None => None,
        Some(then) => Some(then - now),
    }
}

/// Rounding `sum` down to a multiple of `period` gives a multiple of
/// `period` that lies less than `period` below `sum`.
pub proof fn lemma_rounding_down(sum: int, period: int)
    requires
        period > 0,
        sum >= 0,
    ensures
        0 <= (sum / period) * period <= sum,
        sum - period < (sum / period) * period,
        ((sum / period) * period) % period == 0,
{
    vstd::arithmetic::div_mod::lemma_fundamental_div_mod(sum, period);
    vstd::arithmetic::div_mod::lemma_mod_bound(sum, period);
    vstd::arithmetic::div_mod::lemma_mod_multiples_basic(sum / period, period);
    assert(period * (sum / period) == (sum / period) * period) by (nonlinear_arith);
    assert(sum / period >= 0) by (nonlinear_arith)
        requires
            sum >= 0,
            period > 0,
    ;
    assert((sum / period) * period >= 0) by (nonlinear_arith)
        requires
            sum / period >= 0,
            period > 0,
    ;
}

/// How to come by a clock, given what is retained.
pub open spec fn clock_plan(state: BootState, sync_interval_seconds: u32) -> ClockPlan {
    if state.last_epoch_seconds != 0 && state.last_epoch_seconds - state.last_sync_epoch_seconds
        < sync_interval_seconds {
        ClockPlan::Restore(Clock::restored(state).unwrap())
    } else {
        ClockPlan::Sync { stale: Clock::restored(state) }
    }
}

/// The clock that the answer of the time source gives, or its error.
pub open spec fn synced_clock(fetched: Result<NetworkTime, Error>) -> Result<Clock, Error> {
    match fetched {
        Ok(time) => Ok(
            Clock {
                epoch_seconds: time.unix_seconds,
                utc_offset_seconds: time.utc_offset_seconds,
                last_sync_epoch_seconds: time.unix_seconds,
            },
        ),
        Err(error) => Err(error),
    }
}

/// Decides how to come by a clock.
///
/// The retained clock is restored where one was persisted and less than
/// `sync_interval_seconds` lie between its last synchronization and the time
/// it holds. In every other case the network is to be asked, with the
/// retained clock, if there is one, to fall back on.
pub fn load_clock(state: &BootState, sync_interval_seconds: u32) -> (plan: ClockPlan)
    ensures
        plan == clock_plan(*state, sync_interval_seconds),
{
    match Clock::from_rtc_memory(state) {
        None => ClockPlan::Sync { stale: None },
        Some(clock) => {
            let fresh = state.last_epoch_seconds < state.last_sync_epoch_seconds
                || state.last_epoch_seconds - state.last_sync_epoch_seconds
                < sync_interval_seconds as u64;
            if fresh {
                ClockPlan::Restore(clock)
            } else {
                ClockPlan::Sync { stale: Some(clock) }
            }
        },
    }
}

/// Reads the outcome of an exchange with a time server: an answer gives the
/// time in UTC, a failure the error of the step that failed.
pub fn time_of_exchange(exchange: TimeExchange) -> (time: Result<NetworkTime, Error>)
    ensures
        time == exchanged_time(exchange),
{
    match exchange {
        TimeExchange::BindFailed => Err(Error::UdpBind),
        TimeExchange::ResolveFailed => Err(Error::Dns),
        TimeExchange::NoAddress => Err(Error::InvalidDnsAddress),
        TimeExchange::NoAnswer => Err(Error::InvalidNtpTime),
        TimeExchange::Answered { seconds } => Ok(
            NetworkTime { unix_seconds: seconds as u64, utc_offset_seconds: 0 },
        ),
    }
}

/// Makes the clock once the network was asked.
///
/// An answer gives a fresh clock, whose last synchronization is the time of
/// the answer. Without an answer there is no clock from here: the error of
/// the time source stands, also where a stale clock is retained. Whether the
/// cycle goes on with the stale clock of the plan is for the cycle to decide.
pub fn finish_sync(fetched: Result<NetworkTime, Error>) -> (clock: Result<Clock, Error>)
    ensures
        clock == synced_clock(fetched),
{
    match fetched {
        Ok(time) => Ok(Clock::from_server(time)),
        Err(error) => Err(error),
    }
}

/// Restoring or synchronizing, as a whole. A retained time that was
/// synchronized less than the interval ago is restored as it is, and the
/// network is not asked. In every other case the network is asked: its
/// answer becomes the clock and the time of the last synchronization, which
/// the next persisting writes into the retained state; its error is the
/// result, whether a stale clock is retained or not.
pub proof fn lemma_restore_or_sync(
    state: BootState,
    sync_interval_seconds: u32,
    fetched: Result<NetworkTime, Error>,
    micros_since_wake: u64,
    expected_sleep_seconds: u64,
)
    ensures
        state.last_epoch_seconds != 0 && state.last_epoch_seconds - state.last_sync_epoch_seconds
            < sync_interval_seconds <==> clock_plan(state, sync_interval_seconds) is Restore,
        clock_plan(state, sync_interval_seconds) matches ClockPlan::Restore(clock)
            ==> clock.epoch_seconds == state.last_epoch_seconds && clock.seconds_at(0)
            == state.last_epoch_seconds && clock.utc_offset_seconds == state.utc_offset_seconds
            && clock.last_sync_epoch_seconds == state.last_sync_epoch_seconds,
        clock_plan(state, sync_interval_seconds) matches ClockPlan::Sync { stale } ==> stale
            == Clock::restored(state),
        fetched matches Ok(time) ==> synced_clock(fetched).is_ok() && synced_clock(
            fetched,
        ).unwrap().seconds_at(0) == time.unix_seconds && synced_clock(fetched).unwrap().persisted(
            micros_since_wake,
            expected_sleep_seconds,
            state,
        ).last_sync_epoch_seconds == time.unix_seconds,
        fetched matches Err(error) ==> synced_clock(fetched) == Err::<Clock, Error>(error),
{
}

/// Within a wake cycle the clock never runs backwards.
pub proof fn lemma_clock_is_monotonic(clock: Clock, earlier: u64, later: u64)
    requires
        earlier <= later,
    ensures
        saturate(clock.seconds_at(earlier)) <= saturate(clock.seconds_at(later)),
        saturate(clock.micros_at(earlier)) <= saturate(clock.micros_at(later)),
{
    assert(earlier / MICROS_PER_SECOND <= later / MICROS_PER_SECOND) by (nonlinear_arith)
        requires
            earlier <= later,
            MICROS_PER_SECOND == 1_000_000,
    ;
}

/// A clock that is persisted before a sleep and restored after it reads, at
/// the moment of waking, less than one second behind what the clock read
/// before would read at that moment, and never ahead of it. The offset and
/// the time of the last synchronization come back as they were.
///
/// The node must have been awake for `micros_since_wake` microseconds when
/// it persisted, and the sleep must have lasted as long as expected. Times
/// beyond the range of the clock are left out.
pub proof fn lemma_persist_then_restore(
    clock: Clock,
    micros_since_wake: u64,
    expected_sleep_seconds: u64,
    state: BootState,
)
    requires
        clock.seconds_at(micros_since_wake) + expected_sleep_seconds > 0,
        clock.micros_at(micros_since_wake) + expected_sleep_seconds * MICROS_PER_SECOND
            <= u64::MAX,
    ensures
        Clock::restored(
            clock.persisted(micros_since_wake, expected_sleep_seconds, state),
        ).is_some(),
        ({
            let restored = Clock::restored(
                clock.persisted(micros_since_wake, expected_sleep_seconds, state),
            ).unwrap();
            let before = clock.micros_at(micros_since_wake) + expected_sleep_seconds
                * MICROS_PER_SECOND;
            &&& restored.utc_offset_seconds == clock.utc_offset_seconds
            &&& restored.last_sync_epoch_seconds == clock.last_sync_epoch_seconds
            &&& restored.epoch_seconds == clock.seconds_at(micros_since_wake)
                + expected_sleep_seconds
            &&& 0 <= before - restored.micros_at(0) < MICROS_PER_SECOND
        }),
{
    let whole = micros_since_wake / MICROS_PER_SECOND;
    let rest = micros_since_wake % MICROS_PER_SECOND;
    vstd::arithmetic::div_mod::lemma_fundamental_div_mod(
        micros_since_wake as int,
        MICROS_PER_SECOND as int,
    );
    let seconds = clock.epoch_seconds + whole + expected_sleep_seconds;
    assert(seconds * MICROS_PER_SECOND == clock.epoch_seconds * MICROS_PER_SECOND
        + MICROS_PER_SECOND * whole + expected_sleep_seconds * MICROS_PER_SECOND)
        by (nonlinear_arith)
        requires
            seconds == clock.epoch_seconds + whole + expected_sleep_seconds,
    ;
    assert(seconds * MICROS_PER_SECOND <= u64::MAX);
    assert(seconds <= u64::MAX) by (nonlinear_arith)
        requires
            seconds * MICROS_PER_SECOND <= u64::MAX,
            seconds >= 0,
            MICROS_PER_SECOND == 1_000_000,
    ;
}

/// Over a whole wake cycle the boot count goes up by exactly one, starting
/// again at zero after the largest: it is counted once when the node wakes,
/// and persisting the clock before the sleep leaves it alone.
pub proof fn lemma_boot_count_advances_once(
    before: BootState,
    clock: Clock,
    micros_since_wake: u64,
    expected_sleep_seconds: u64,
)
    ensures
        clock.persisted(
            micros_since_wake,
            expected_sleep_seconds,
            (BootState { boot_count: BootState::following(before.boot_count), ..before }),
        ).boot_count == BootState::following(before.boot_count),
        before.boot_count < u32::MAX ==> BootState::following(before.boot_count)
            == before.boot_count + 1,
{
}

} // verus!
