//! The order of one wake cycle: logging, link, clock, sampling,
//! transmission, persistence, disconnect, sleep.
//!
//! The orchestrator performs one step at a time and reports its outcome
//! here; the answer is the step to perform next. Failures before the link is
//! up end the cycle in sleep. Once the link is up every way to sleep leads
//! through a disconnect, and a disconnect that fails leads to a reset.

use crate::wifi::{MonitorTaskResult, WifiConnectionError, WifiDisconnectError};
use vstd::prelude::*;
use vstd::std_specs::convert::FromSpecImpl;

verus! {

/// Seconds the node sleeps between two wake cycles.
pub const DEEP_SLEEP_DURATION_IN_SECONDS: u32 = 30;

/// Why the cycle cannot go on as planned.
#[derive(Clone, Copy, Debug, PartialEq, Eq, Structural)]
pub enum Error {
    /// The monitor reported the link as lost.
    NetworkDisconnected,
    /// The link could not be brought up.
    Wifi(WifiConnectionError),
}

impl From<WifiConnectionError> for Error {
    /// Takes an error of the connect procedure as an error of the cycle.
    fn from(source: WifiConnectionError) -> (wrapped: Self) {
        Error::Wifi(source)
    }
}

impl FromSpecImpl<WifiConnectionError> for Error {
    open spec fn obeys_from_spec() -> bool {
        true
    }

    open spec fn from_spec(source: WifiConnectionError) -> Self {
        Error::Wifi(source)
    }
}

/// How far the cycle has come.
#[derive(Clone, Copy, Debug, PartialEq, Eq, Structural)]
pub enum CyclePhase {
    /// The node woke and counted the boot.
    Boot,
    /// The telemetry buffer is ready.
    LoggingReady,
    /// The link is up.
    Connected,
    /// There is a clock, fresh or stale.
    ClockReady,
    /// The reading was received.
    Sampling,
    /// The metrics were posted, or the attempt was made.
    Transmitted,
    /// The log was flushed once and the clock was persisted.
    Persisted,
    /// The radio is off.
    Disconnected,
    /// The node sleeps.
    Asleep,
    /// The node resets because the radio could not be switched off.
    Reset,
}

/// The outcome of the step that was performed.
#[derive(Clone, Copy, Debug, PartialEq, Eq)]
pub enum CycleEvent {
    /// The telemetry buffer was set up, or could not be.
    LoggingInitialized(bool),
    /// The connect procedure has ended.
    ConnectFinished(Result<(), WifiConnectionError>),
    /// The clock was asked for: `synced` tells whether it was restored fresh
    /// or set from the network, `stale_available` whether a retained clock
    /// is there to fall back on.
    ClockFinished { synced: bool, stale_available: bool },
    /// The monitor reported the link as lost.
    LinkLost,
    /// The acquisition pipeline delivered its reading, or failed.
    SamplingFinished(bool),
    /// The metrics were posted, or the post failed.
    TransmitFinished(bool),
    /// The log was flushed, or the flush failed, and the clock was
    /// persisted.
    PersistFinished(bool),
    /// The disconnect procedure has ended.
    DisconnectFinished(Result<(), WifiDisconnectError>),
}

/// The step to perform next.
#[derive(Clone, Copy, Debug, PartialEq, Eq, Structural)]
pub enum CycleAction {
    /// Set up the telemetry buffer with this boot count.
    InitLogging { boot_count: u32 },
    /// Bring the link up.
    Connect,
    /// Restore the clock or set it from the network.
    SyncClock,
    /// Run the acquisition pipeline and wait for its reading.
    Sample,
    /// Post the timing data and the metrics, once.
    Transmit,
    /// Flush the log once and persist the clock.
    FlushAndPersist,
    /// Take the link down.
    Disconnect,
    /// Enter deep sleep; this does not return.
    Sleep { seconds: u32 },
    /// Reset the device; this does not return.
    Reset,
}

/// One wake cycle.
#[derive(Clone, Copy, Debug, PartialEq, Eq, Structural)]
pub struct DutyCycle {
    pub phase: CyclePhase,
    /// Whether the cycle is being cut short and only the disconnect is left.
    pub aborting: bool,
    /// The boot count of this cycle.
    pub boot_count: u32,
    /// Seconds to sleep at the end.
    pub sleep_seconds: u32,
}

/// Whether the radio may be on in `phase`.
pub open spec fn radio_up(phase: CyclePhase) -> bool {
    phase == CyclePhase::Connected || phase == CyclePhase::ClockReady || phase
        == CyclePhase::Sampling || phase == CyclePhase::Transmitted || phase
        == CyclePhase::Persisted
}

/// The cycle in another phase.
pub open spec fn at(cycle: DutyCycle, phase: CyclePhase) -> DutyCycle {
    DutyCycle { phase, ..cycle }
}

/// The cycle goes to sleep without having had the radio on.
pub open spec fn sleep_now(cycle: DutyCycle) -> (DutyCycle, CycleAction) {
    (at(cycle, CyclePhase::Asleep), CycleAction::Sleep { seconds: cycle.sleep_seconds })
}

/// The cycle is cut short: only the disconnect is left.
pub open spec fn abort(cycle: DutyCycle) -> (DutyCycle, CycleAction) {
    (DutyCycle { aborting: true, ..cycle }, CycleAction::Disconnect)
}

/// What follows the disconnect: sleep when the radio is off, a reset when it
/// could not be switched off.
pub open spec fn after_disconnect(cycle: DutyCycle, outcome: Result<(), WifiDisconnectError>) -> (
    DutyCycle,
    CycleAction,
) {
    match outcome {
        Ok(()) => (
            at(cycle, CyclePhase::Disconnected),
            CycleAction::Sleep { seconds: cycle.sleep_seconds },
        ),
        Err(_) => (at(cycle, CyclePhase::Reset), CycleAction::Reset),
    }
}

/// An optional step, or the persistence in its place once the deadline has
/// passed.
pub open spec fn unless_late(action: CycleAction, past_deadline: bool) -> CycleAction {
    if past_deadline {
        CycleAction::FlushAndPersist
    } else {
        action
    }
}

/// What follows an event while the radio may be on and the cycle is not cut
/// short.
pub open spec fn connected_next(cycle: DutyCycle, event: CycleEvent, past_deadline: bool) -> (
    DutyCycle,
    CycleAction,
) {
    match (cycle.phase, event) {
        (CyclePhase::Persisted, _) => abort(cycle),
        (_, CycleEvent::PersistFinished(_)) => (
            at(cycle, CyclePhase::Persisted),
            CycleAction::Disconnect,
        ),
        (CyclePhase::Connected, CycleEvent::ClockFinished { synced, stale_available }) => if synced
            || stale_available {
            (at(cycle, CyclePhase::ClockReady), unless_late(CycleAction::Sample, past_deadline))
        } else {
            abort(cycle)
        },
        (CyclePhase::ClockReady, CycleEvent::SamplingFinished(true)) => (
            at(cycle, CyclePhase::Sampling),
            unless_late(CycleAction::Transmit, past_deadline),
        ),
        (CyclePhase::Sampling, CycleEvent::TransmitFinished(_)) => (
            at(cycle, CyclePhase::Transmitted),
            CycleAction::FlushAndPersist,
        ),
        _ => abort(cycle),
    }
}

/// The next phase and step of the cycle.
pub open spec fn cycle_next(cycle: DutyCycle, event: CycleEvent, past_deadline: bool) -> (
    DutyCycle,
    CycleAction,
) {
    match cycle.phase {
        CyclePhase::Asleep => (cycle, CycleAction::Sleep { seconds: cycle.sleep_seconds }),
        CyclePhase::Reset => (cycle, CycleAction::Reset),
        CyclePhase::Disconnected => sleep_now(cycle),
        CyclePhase::Boot => match event {
            CycleEvent::LoggingInitialized(true) => (
                at(cycle, CyclePhase::LoggingReady),
                CycleAction::Connect,
            ),
            _ => sleep_now(cycle),
        },
        CyclePhase::LoggingReady => match event {
            CycleEvent::ConnectFinished(Ok(())) => (
                at(cycle, CyclePhase::Connected),
                CycleAction::SyncClock,
            ),
            _ => sleep_now(cycle),
        },
        _ => match event {
            CycleEvent::DisconnectFinished(outcome) => after_disconnect(cycle, outcome),
            _ => if cycle.aborting {
                (cycle, CycleAction::Disconnect)
            } else {
                connected_next(cycle, event, past_deadline)
            },
        },
    }
}

/// Reads the signal of the monitor, if there is one: anything but success
/// means that the link is lost.
pub fn check_wifi_status(signal: Option<MonitorTaskResult>) -> (status: Result<(), Error>)
    ensures
        status == match signal {
            None => Ok::<(), Error>(()),
            Some(MonitorTaskResult::Success) => Ok(()),
            Some(_) => Err(Error::NetworkDisconnected),
        },
{
    match signal {
        None => Ok(()),
        Some(MonitorTaskResult::Success) => Ok(()),
        Some(_) => Err(Error::NetworkDisconnected),
    }
}

/// Decides how the cycle ends once the disconnect procedure is over: deep
/// sleep when the radio is off, a reset of the device when it is not, since
/// a radio left on would keep the node from waking.
pub fn disconnect_wifi_and_put_device_to_sleep(
    outcome: Result<(), WifiDisconnectError>,
    sleep_seconds: u32,
) -> (action: CycleAction)
    ensures
        outcome.is_ok() ==> action == (CycleAction::Sleep { seconds: sleep_seconds }),
        outcome.is_err() ==> action == CycleAction::Reset,
{
    match outcome {
        Ok(()) => CycleAction::Sleep { seconds: sleep_seconds },
        Err(_) => CycleAction::Reset,
    }
}

impl DutyCycle {
    /// Begins the cycle of a node that has just woken and counted its boot.
    /// The first step is to set up the telemetry buffer.
    pub fn wake(boot_count: u32, sleep_seconds: u32) -> (begun: (Self, CycleAction))
        ensures
            begun.0 == (DutyCycle {
                phase: CyclePhase::Boot,
                aborting: false,
                boot_count,
                sleep_seconds,
            }),
            begun.1 == (CycleAction::InitLogging { boot_count }),
    {
        (
            DutyCycle { phase: CyclePhase::Boot, aborting: false, boot_count, sleep_seconds },
            CycleAction::InitLogging { boot_count },
        )
    }

    /// Takes the outcome of the step that was performed and returns the
    /// step to perform next.
    ///
    /// `past_deadline` tells whether the node should be asleep by now: then
    /// no optional step is begun any more, and what would have been sampling
    /// or transmission is the persistence at once.
    pub fn step(self, event: CycleEvent, past_deadline: bool) -> (next: (Self, CycleAction))
        ensures
            next == cycle_next(self, event, past_deadline),
            next.0.boot_count == self.boot_count,
            next.0.sleep_seconds == self.sleep_seconds,
    {
        let sleep = CycleAction::Sleep { seconds: self.sleep_seconds };
        match self.phase {
            CyclePhase::Asleep => (self, sleep),
            CyclePhase::Reset => (self, CycleAction::Reset),
            CyclePhase::Disconnected => (DutyCycle { phase: CyclePhase::Asleep, ..self }, sleep),
            CyclePhase::Boot => match event {
                CycleEvent::LoggingInitialized(true) => (
                    DutyCycle { phase: CyclePhase::LoggingReady, ..self },
                    CycleAction::Connect,
                ),
                _ => (DutyCycle { phase: CyclePhase::Asleep, ..self }, sleep),
            },
            CyclePhase::LoggingReady => match event {
                CycleEvent::ConnectFinished(Ok(())) => (
                    DutyCycle { phase: CyclePhase::Connected, ..self },
                    CycleAction::SyncClock,
                ),
                _ => (DutyCycle { phase: CyclePhase::Asleep, ..self }, sleep),
            },
            _ => match event {
                CycleEvent::DisconnectFinished(outcome) => {
                    let action = disconnect_wifi_and_put_device_to_sleep(
                        outcome,
                        self.sleep_seconds,
                    );
                    match outcome {
                        Ok(()) => (DutyCycle { phase: CyclePhase::Disconnected, ..self }, action),
                        Err(_) => (DutyCycle { phase: CyclePhase::Reset, ..self }, action),
                    }
                },
                _ => {
                    if self.aborting {
                        (self, CycleAction::Disconnect)
                    } else {
                        self.step_connected(event, past_deadline)
                    }
                },
            },
        }
    }

    fn step_connected(self, event: CycleEvent, past_deadline: bool) -> (next: (Self, CycleAction))
        ensures
            next == connected_next(self, event, past_deadline),
    {
        let cut_short = (DutyCycle { aborting: true, ..self }, CycleAction::Disconnect);
        match (self.phase, event) {
            (CyclePhase::Persisted, _) => cut_short,
            (_, CycleEvent::PersistFinished(_)) => (
                DutyCycle { phase: CyclePhase::Persisted, ..self },
                CycleAction::Disconnect,
            ),
            (CyclePhase::Connected, CycleEvent::ClockFinished { synced, stale_available }) => {
                if synced || stale_available {
                    let action = if past_deadline {
                        CycleAction::FlushAndPersist
                    } else {
                        CycleAction::Sample
                    };
                    (DutyCycle { phase: CyclePhase::ClockReady, ..self }, action)
                } else {
                    cut_short
                }
            },
            (CyclePhase::ClockReady, CycleEvent::SamplingFinished(true)) => {
                let action = if past_deadline {
                    CycleAction::FlushAndPersist
                } else {
                    CycleAction::Transmit
                };
                (DutyCycle { phase: CyclePhase::Sampling, ..self }, action)
            },
            (CyclePhase::Sampling, CycleEvent::TransmitFinished(_)) => (
                DutyCycle { phase: CyclePhase::Transmitted, ..self },
                CycleAction::FlushAndPersist,
            ),
            _ => cut_short,
        }
    }
}

/// The cycle after a sequence of events.
pub open spec fn cycle_run(cycle: DutyCycle, events: Seq<(CycleEvent, bool)>) -> DutyCycle
    decreases events.len(),
{
    if events.len() == 0 {
        cycle
    } else {
        cycle_next(cycle_run(cycle, events.drop_last()), events.last().0, events.last().1).0
    }
}

/// Whether an event reports that the disconnect has succeeded.
pub open spec fn radio_reported_off(event: CycleEvent) -> bool {
    match event {
        CycleEvent::DisconnectFinished(outcome) => outcome.is_ok(),
        _ => false,
    }
}

/// Deep sleep is never entered with the radio on: from a phase in which the
/// radio may be on, sleep follows only the report that the disconnect has
/// succeeded.
pub proof fn lemma_no_sleep_with_radio_on(cycle: DutyCycle, event: CycleEvent, past_deadline: bool)
    requires
        radio_up(cycle.phase),
    ensures
        cycle_next(cycle, event, past_deadline).1 is Sleep <==> radio_reported_off(event),
        cycle_next(cycle, event, past_deadline).0.phase != CyclePhase::Asleep,
        cycle_next(cycle, event, past_deadline).0.phase == CyclePhase::Disconnected
            <==> radio_reported_off(event),
{
}

/// A disconnect that fails while the radio may be on makes the node reset,
/// and a node that resets never goes to sleep, whatever is reported after.
pub proof fn lemma_failed_disconnect_resets(
    cycle: DutyCycle,
    error: WifiDisconnectError,
    after: Seq<(CycleEvent, bool)>,
    event: CycleEvent,
    past_deadline: bool,
)
    requires
        radio_up(cycle.phase),
    ensures
        cycle_next(cycle, CycleEvent::DisconnectFinished(Err(error)), false).1
            == CycleAction::Reset,
        cycle_next(cycle, CycleEvent::DisconnectFinished(Err(error)), true).1
            == CycleAction::Reset,
        ({
            let failed = cycle_next(cycle, CycleEvent::DisconnectFinished(Err(error)), false).0;
            &&& failed.phase == CyclePhase::Reset
            &&& cycle_run(failed, after).phase == CyclePhase::Reset
            &&& cycle_next(cycle_run(failed, after), event, past_deadline).1 == CycleAction::Reset
        }),
    decreases after.len(),
{
    if after.len() > 0 {
        lemma_failed_disconnect_resets(
            cycle,
            error,
            after.drop_last(),
            after.last().0,
            after.last().1,
        );
    }
}

/// Once a cycle is cut short, only the disconnect is asked for until its
/// outcome is reported: no further work is begun on a lost link.
pub proof fn lemma_abort_leads_to_disconnect(
    cycle: DutyCycle,
    event: CycleEvent,
    past_deadline: bool,
)
    requires
        radio_up(cycle.phase),
        cycle.aborting,
    ensures
        !(event is DisconnectFinished) ==> cycle_next(cycle, event, past_deadline) == (
            cycle,
            CycleAction::Disconnect,
        ),
{
}

/// A lost link cuts the cycle short in every phase in which the radio may
/// be on.
pub proof fn lemma_link_loss_cuts_short(cycle: DutyCycle, past_deadline: bool)
    requires
        radio_up(cycle.phase),
    ensures
        cycle_next(cycle, CycleEvent::LinkLost, past_deadline).1 == CycleAction::Disconnect,
        cycle_next(cycle, CycleEvent::LinkLost, past_deadline).0.aborting,
{
}

/// Past the deadline no sampling and no transmission is begun.
pub proof fn lemma_deadline_stops_optional_steps(cycle: DutyCycle, event: CycleEvent)
    ensures
        cycle_next(cycle, event, true).1 != CycleAction::Sample,
        cycle_next(cycle, event, true).1 != CycleAction::Transmit,
{
}

/// How far a cycle is from its end: the steps that lie ahead of its phase,
/// counted twice, and one more while the cycle is not cut short.
pub open spec fn cycle_distance(cycle: DutyCycle) -> nat {
    let ahead: nat = match cycle.phase {
        CyclePhase::Boot => 9,
        CyclePhase::LoggingReady => 8,
        CyclePhase::Connected => 7,
        CyclePhase::ClockReady => 6,
        CyclePhase::Sampling => 5,
        CyclePhase::Transmitted => 4,
        CyclePhase::Persisted => 3,
        CyclePhase::Disconnected => 1,
        CyclePhase::Asleep => 0,
        CyclePhase::Reset => 0,
    };
    if cycle.aborting {
        2 * ahead
    } else {
        2 * ahead + 1
    }
}

/// Whether the cycle waits for the outcome of a disconnect that was asked
/// for because the cycle was cut short.
pub open spec fn waits_for_disconnect(cycle: DutyCycle) -> bool {
    radio_up(cycle.phase) && cycle.aborting
}

/// The cycle cannot go round in circles: every outcome that is reported
/// brings it closer to sleep or reset. The one exception is a cycle that was
/// cut short: it stays as it is, asking for the disconnect, until the
/// outcome of the disconnect is reported, since nothing else may follow
/// while the radio is on.
pub proof fn lemma_cycle_makes_progress(cycle: DutyCycle, event: CycleEvent, past_deadline: bool)
    requires
        cycle.phase != CyclePhase::Asleep,
        cycle.phase != CyclePhase::Reset,
        !(waits_for_disconnect(cycle) && !(event is DisconnectFinished)),
    ensures
        cycle_distance(cycle_next(cycle, event, past_deadline).0) < cycle_distance(cycle),
{
}

/// The boot count and the length of the sleep are fixed for the whole
/// cycle.
pub proof fn lemma_cycle_keeps_boot_count(cycle: DutyCycle, events: Seq<(CycleEvent, bool)>)
    ensures
        cycle_run(cycle, events).boot_count == cycle.boot_count,
        cycle_run(cycle, events).sleep_seconds == cycle.sleep_seconds,
    decreases events.len(),
{
    if events.len() > 0 {
        lemma_cycle_keeps_boot_count(cycle, events.drop_last());
    }
}

} // verus!
