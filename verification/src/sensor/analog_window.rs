//! One acquisition window of the converter: configuring it, waiting for a
//! stable supply of the pressure sensor, and taking the samples of one
//! reading.

use crate::sensor::conversion::{sample_voltage_data, synthetic_voltages, BoardComponents};
use crate::sensor::conversion::RawVoltages;
use crate::sensor::samples::{analog_mean, AnalogSamples};
use crate::sensor::stabilization::{
    stabilization_next, wait_for_pressure_sensor_voltage_to_stabilize, Stabilization,
    StabilizationStep, PRESSURE_SENSOR_VOLTAGE_STABILIZATION_CHECK_INTERVAL_IN_MILLISECONDS,
};
use crate::sensor::SensorError;
use crate::sensor_data::{Ads1115Data, NUMBER_OF_SAMPLES, TIME_BETWEEN_SAMPLES_IN_MILLISECONDS};
use vstd::prelude::*;

verus! {

/// How far a window of the converter has come.
#[derive(Clone, Copy, Debug, PartialEq, Eq, Structural)]
pub enum AnalogWindowPhase {
    /// The converter is being configured.
    Configuring,
    /// The supply of the pressure sensor is being watched.
    Stabilizing,
    /// A sample is being read.
    Sampling,
    /// Random numbers are being drawn for a sample that could not be read.
    Synthesizing,
    /// The window is over.
    Done,
}

/// What the caller has just done for the window.
#[derive(Clone, Copy, Debug, PartialEq, Eq)]
pub enum AnalogWindowEvent {
    /// The data rate and the range of the converter were set, or the range
    /// could not be.
    Configured(Result<(), SensorError>),
    /// The channel of the pressure sensor's supply was read, or could not be.
    SupplyRead(Result<i16, SensorError>),
    /// All four channels were read, or could not be.
    SampleRead(Result<RawVoltages, SensorError>),
    /// Four random numbers were drawn: for the brightness, the output of the
    /// pressure sensor, its supply and the battery.
    RandomDrawn(u32, u32, u32, u32),
}

/// What the caller does next for the window.
#[derive(Clone, Copy, Debug, PartialEq, Eq)]
pub enum AnalogWindowAction {
    /// Set the data rate and the range of the converter.
    Configure,
    /// Wait this many milliseconds, then read the channel of the pressure
    /// sensor's supply.
    PollSupply { delay_ms: u64 },
    /// Wait this many milliseconds, then read all four channels.
    ReadSample { delay_ms: u64 },
    /// Draw four random numbers.
    DrawRandom,
    /// The window is over: this is its reading, or why there is none.
    Done(Result<Ads1115Data, SensorError>),
}

/// A window of the converter.
pub struct AnalogWindow {
    phase: AnalogWindowPhase,
    stabilization: Stabilization,
    samples: AnalogSamples,
    outcome: Option<Result<Ads1115Data, SensorError>>,
}

/// What a window holds.
pub struct AnalogWindowView {
    pub phase: AnalogWindowPhase,
    /// The wait for a stable supply.
    pub stabilization: Stabilization,
    /// The samples recorded so far, in the order they were taken.
    pub samples: Seq<Ads1115Data>,
    /// How the window ended, once it is over.
    pub outcome: Option<Result<Ads1115Data, SensorError>>,
}

impl View for AnalogWindow {
    type V = AnalogWindowView;

    closed spec fn view(&self) -> AnalogWindowView {
        AnalogWindowView {
            phase: self.phase,
            stabilization: self.stabilization,
            samples: self.samples.samples(),
            outcome: self.outcome,
        }
    }
}

/// The window ends with `outcome`.
pub open spec fn analog_window_ends(
    window: AnalogWindowView,
    outcome: Result<Ads1115Data, SensorError>,
) -> (AnalogWindowView, AnalogWindowAction) {
    (
        AnalogWindowView { phase: AnalogWindowPhase::Done, outcome: Some(outcome), ..window },
        AnalogWindowAction::Done(outcome),
    )
}

/// A sample is recorded: the one that completes the window ends it with the
/// mean of all samples, any other is followed by the next after the time
/// between samples.
pub open spec fn analog_window_records(window: AnalogWindowView, sample: Ads1115Data) -> (
    AnalogWindowView,
    AnalogWindowAction,
) {
    let samples = window.samples.push(sample);
    if samples.len() >= NUMBER_OF_SAMPLES {
        analog_window_ends(AnalogWindowView { samples, ..window }, Ok(analog_mean(samples)))
    } else {
        (
            AnalogWindowView { phase: AnalogWindowPhase::Sampling, samples, ..window },
            AnalogWindowAction::ReadSample { delay_ms: TIME_BETWEEN_SAMPLES_IN_MILLISECONDS },
        )
    }
}

/// What follows a look at the supply of the pressure sensor.
pub open spec fn analog_window_looks(
    window: AnalogWindowView,
    measured_value: i16,
    board: BoardComponents,
) -> (AnalogWindowView, AnalogWindowAction) {
    let looked = stabilization_next(
        window.stabilization,
        board.supply_voltage(measured_value) as i64,
    );
    let window = AnalogWindowView { stabilization: looked.0, ..window };
    match looked.1 {
        StabilizationStep::PollAgain => (
            window,
            AnalogWindowAction::PollSupply {
                delay_ms: PRESSURE_SENSOR_VOLTAGE_STABILIZATION_CHECK_INTERVAL_IN_MILLISECONDS,
            },
        ),
        StabilizationStep::Stable => (
            AnalogWindowView { phase: AnalogWindowPhase::Sampling, ..window },
            AnalogWindowAction::ReadSample { delay_ms: 0 },
        ),
        StabilizationStep::Failed(error) => analog_window_ends(window, Err(error)),
    }
}

/// The next state and action of a window of the converter.
pub open spec fn analog_window_next(
    window: AnalogWindowView,
    event: AnalogWindowEvent,
    board: BoardComponents,
) -> (AnalogWindowView, AnalogWindowAction) {
    match (window.phase, event) {
        (AnalogWindowPhase::Done, _) => match window.outcome {
            Some(outcome) => (window, AnalogWindowAction::Done(outcome)),
            None => analog_window_ends(window, Err(SensorError::UnexpectedReport)),
        },
        (AnalogWindowPhase::Configuring, AnalogWindowEvent::Configured(Ok(()))) => (
            AnalogWindowView { phase: AnalogWindowPhase::Stabilizing, ..window },
            AnalogWindowAction::PollSupply { delay_ms: 0 },
        ),
        (AnalogWindowPhase::Configuring, AnalogWindowEvent::Configured(Err(error)))
            => analog_window_ends(window, Err(error)),
        (AnalogWindowPhase::Stabilizing, AnalogWindowEvent::SupplyRead(Ok(measured_value)))
            => analog_window_looks(window, measured_value, board),
        (AnalogWindowPhase::Stabilizing, AnalogWindowEvent::SupplyRead(Err(error)))
            => analog_window_ends(window, Err(error)),
        (AnalogWindowPhase::Sampling, AnalogWindowEvent::SampleRead(Ok(raw)))
            => analog_window_records(window, board.reading(raw)),
        (AnalogWindowPhase::Sampling, AnalogWindowEvent::SampleRead(Err(_))) => (
            AnalogWindowView { phase: AnalogWindowPhase::Synthesizing, ..window },
            AnalogWindowAction::DrawRandom,
        ),
        (AnalogWindowPhase::Synthesizing, AnalogWindowEvent::RandomDrawn(a, b, c, d))
            => analog_window_records(window, board.reading(synthetic_voltages(a, b, c, d))),
        _ => analog_window_ends(window, Err(SensorError::UnexpectedReport)),
    }
}

impl AnalogWindow {
    #[verifier::type_invariant]
    closed spec fn in_step(self) -> bool {
        &&& self.phase == AnalogWindowPhase::Done ==> self.outcome.is_some()
        &&& self.phase != AnalogWindowPhase::Done ==> self.samples.samples().len()
            < NUMBER_OF_SAMPLES
    }

    /// Begins a window in which the wait for a stable supply may take
    /// `poll_limit` looks; the first thing to do is to configure the
    /// converter.
    pub fn new(poll_limit: u32) -> (begun: (Self, AnalogWindowAction))
        ensures
            begun.0@ == (AnalogWindowView {
                phase: AnalogWindowPhase::Configuring,
                stabilization: (Stabilization { stable_count: 0, polls: 0, poll_limit }),
                samples: Seq::<Ads1115Data>::empty(),
                outcome: None,
            }),
            begun.1 == AnalogWindowAction::Configure,
    {
        (
            AnalogWindow {
                phase: AnalogWindowPhase::Configuring,
                stabilization: Stabilization::new(poll_limit),
                samples: AnalogSamples::new(),
                outcome: None,
            },
            AnalogWindowAction::Configure,
        )
    }

    fn end(self, outcome: Result<Ads1115Data, SensorError>) -> (next: (Self, AnalogWindowAction))
        ensures
            (next.0@, next.1) == analog_window_ends(self@, outcome),
    {
        let AnalogWindow { phase: _, stabilization, samples, outcome: _ } = self;
        (
            AnalogWindow {
                phase: AnalogWindowPhase::Done,
                stabilization,
                samples,
                outcome: Some(outcome),
            },
            AnalogWindowAction::Done(outcome),
        )
    }

    fn record(self, sample: Ads1115Data) -> (next: (Self, AnalogWindowAction))
        requires
            self@.phase != AnalogWindowPhase::Done,
        ensures
            (next.0@, next.1) == analog_window_records(self@, sample),
    {
        proof {
            use_type_invariant(&self);
        }
        let AnalogWindow { phase: _, stabilization, samples, outcome } = self;
        let mut samples = samples;
        let _ = samples.record(sample);
        if samples.len() >= NUMBER_OF_SAMPLES {
            let reading = samples.average().unwrap();
            (
                AnalogWindow {
                    phase: AnalogWindowPhase::Done,
                    stabilization,
                    samples,
                    outcome: Some(Ok(reading)),
                },
                AnalogWindowAction::Done(Ok(reading)),
            )
        } else {
            (
                AnalogWindow { phase: AnalogWindowPhase::Sampling, stabilization, samples, outcome },
                AnalogWindowAction::ReadSample { delay_ms: TIME_BETWEEN_SAMPLES_IN_MILLISECONDS },
            )
        }
    }

    fn look(self, measured_value: i16, board: &BoardComponents) -> (next: (
        Self,
        AnalogWindowAction,
    ))
        requires
            self@.phase == AnalogWindowPhase::Stabilizing,
        ensures
            (next.0@, next.1) == analog_window_looks(self@, measured_value, *board),
    {
        proof {
            use_type_invariant(&self);
        }
        let voltage = board.pressure_sensor_voltage(measured_value);
        let AnalogWindow { phase, stabilization, samples, outcome } = self;
        let (stabilization, step) = wait_for_pressure_sensor_voltage_to_stabilize(
            stabilization,
            voltage,
        );
        match step {
            StabilizationStep::PollAgain => (
                AnalogWindow { phase, stabilization, samples, outcome },
                AnalogWindowAction::PollSupply {
                    delay_ms: PRESSURE_SENSOR_VOLTAGE_STABILIZATION_CHECK_INTERVAL_IN_MILLISECONDS,
                },
            ),
            StabilizationStep::Stable => (
                AnalogWindow { phase: AnalogWindowPhase::Sampling, stabilization, samples, outcome },
                AnalogWindowAction::ReadSample { delay_ms: 0 },
            ),
            StabilizationStep::Failed(error) => (
                AnalogWindow {
                    phase: AnalogWindowPhase::Done,
                    stabilization,
                    samples,
                    outcome: Some(Err(error)),
                },
                AnalogWindowAction::Done(Err(error)),
            ),
        }
    }
}

/// Advances a window of the converter by one event.
///
/// The converter is configured; a range that cannot be set ends the window.
/// Then the supply of the pressure sensor is looked at until it is stable;
/// a wait that fails ends the window with its error, and no sample is taken.
/// After a stable supply exactly `NUMBER_OF_SAMPLES` samples are recorded,
/// the time between samples apart. A sample that cannot be read is replaced
/// by a synthetic one, made of four random numbers that are then asked for.
/// The sample that completes the window ends it with the mean of all
/// samples. An event that does not answer what was asked for ends the window
/// with `UnexpectedReport`; a window that is over repeats how it ended.
pub fn read_ads1115(window: AnalogWindow, event: AnalogWindowEvent, board: &BoardComponents) -> (next:
    (AnalogWindow, AnalogWindowAction))
    ensures
        (next.0@, next.1) == analog_window_next(window@, event, *board),
{
    proof {
        use_type_invariant(&window);
    }
    match (window.phase, event) {
        (AnalogWindowPhase::Done, _) => {
            let outcome = window.outcome.unwrap();
            (window, AnalogWindowAction::Done(outcome))
        },
        (AnalogWindowPhase::Configuring, AnalogWindowEvent::Configured(Ok(()))) => {
            let AnalogWindow { phase: _, stabilization, samples, outcome } = window;
            (
                AnalogWindow {
                    phase: AnalogWindowPhase::Stabilizing,
                    stabilization,
                    samples,
                    outcome,
                },
                AnalogWindowAction::PollSupply { delay_ms: 0 },
            )
        },
        (AnalogWindowPhase::Configuring, AnalogWindowEvent::Configured(Err(error))) => window.end(
            Err(error),
        ),
        (AnalogWindowPhase::Stabilizing, AnalogWindowEvent::SupplyRead(Ok(measured_value)))
            => window.look(measured_value, board),
        (AnalogWindowPhase::Stabilizing, AnalogWindowEvent::SupplyRead(Err(error))) => window.end(
            Err(error),
        ),
        (AnalogWindowPhase::Sampling, AnalogWindowEvent::SampleRead(Ok(raw))) => {
            let sample = sample_voltage_data(raw, board);
            window.record(sample)
        },
        (AnalogWindowPhase::Sampling, AnalogWindowEvent::SampleRead(Err(_))) => {
            let AnalogWindow { phase: _, stabilization, samples, outcome } = window;
            (
                AnalogWindow {
                    phase: AnalogWindowPhase::Synthesizing,
                    stabilization,
                    samples,
                    outcome,
                },
                AnalogWindowAction::DrawRandom,
            )
        },
        (AnalogWindowPhase::Synthesizing, AnalogWindowEvent::RandomDrawn(a, b, c, d)) => {
            let sample = sample_voltage_data(RawVoltages::random(a, b, c, d), board);
            window.record(sample)
        },
        _ => window.end(Err(SensorError::UnexpectedReport)),
    }
}

/// The window after a sequence of events.
pub open spec fn analog_window_run(
    window: AnalogWindowView,
    events: Seq<AnalogWindowEvent>,
    board: BoardComponents,
) -> AnalogWindowView
    decreases events.len(),
{
    if events.len() == 0 {
        window
    } else {
        analog_window_next(
            analog_window_run(window, events.drop_last(), board),
            events.last(),
            board,
        ).0
    }
}

/// How many samples a sequence of events made the window ask for.
pub open spec fn analog_samples_asked(
    window: AnalogWindowView,
    events: Seq<AnalogWindowEvent>,
    board: BoardComponents,
) -> nat
    decreases events.len(),
{
    if events.len() == 0 {
        0
    } else {
        let before = analog_window_run(window, events.drop_last(), board);
        let asked: nat = if analog_window_next(before, events.last(), board).1 is ReadSample {
            1
        } else {
            0
        };
        analog_samples_asked(window, events.drop_last(), board) + asked
    }
}

/// A window as it begins.
pub open spec fn analog_window_begins(poll_limit: u32) -> AnalogWindowView {
    AnalogWindowView {
        phase: AnalogWindowPhase::Configuring,
        stabilization: (Stabilization { stable_count: 0, polls: 0, poll_limit }),
        samples: Seq::<Ads1115Data>::empty(),
        outcome: None,
    }
}

/// A wait for a stable supply that fails ends the window with the error of
/// the wait.
pub proof fn lemma_failed_wait_ends_the_window(
    window: AnalogWindowView,
    measured_value: i16,
    board: BoardComponents,
)
    requires
        window.phase == AnalogWindowPhase::Stabilizing,
        stabilization_next(
            window.stabilization,
            board.supply_voltage(measured_value) as i64,
        ).1 is Failed,
    ensures
        analog_window_next(window, AnalogWindowEvent::SupplyRead(Ok(measured_value)), board).1
            == AnalogWindowAction::Done(Err(SensorError::PressureSensorVoltageNotStable)),
        analog_window_next(
            window,
            AnalogWindowEvent::SupplyRead(Ok(measured_value)),
            board,
        ).0.phase == AnalogWindowPhase::Done,
{
}

/// Nothing follows the end of a window: whatever is reported after, the
/// window stays over and answers with how it ended, so no sample is asked
/// for after a wait that failed.
pub proof fn lemma_nothing_follows_the_end(
    window: AnalogWindowView,
    events: Seq<AnalogWindowEvent>,
    event: AnalogWindowEvent,
    board: BoardComponents,
)
    requires
        window.phase == AnalogWindowPhase::Done,
        window.outcome.is_some(),
    ensures
        analog_window_run(window, events, board) == window,
        analog_window_next(analog_window_run(window, events, board), event, board) == (
            window,
            AnalogWindowAction::Done(window.outcome.unwrap()),
        ),
        analog_samples_asked(window, events, board) == 0,
    decreases events.len(),
{
    if events.len() > 0 {
        lemma_nothing_follows_the_end(window, events.drop_last(), events.last(), board);
    }
}

/// A window asks for no sample before the supply is stable, then for one
/// more than it has recorded while it goes on, and for exactly
/// `NUMBER_OF_SAMPLES` by the time it ends with a reading, which is the mean
/// of the samples it has recorded.
pub proof fn lemma_window_takes_all_its_samples(
    poll_limit: u32,
    events: Seq<AnalogWindowEvent>,
    board: BoardComponents,
)
    ensures
        ({
            let window = analog_window_run(analog_window_begins(poll_limit), events, board);
            let asked = analog_samples_asked(analog_window_begins(poll_limit), events, board);
            &&& window.phase == AnalogWindowPhase::Configuring || window.phase
                == AnalogWindowPhase::Stabilizing ==> asked == 0 && window.samples.len() == 0
            &&& window.phase == AnalogWindowPhase::Sampling || window.phase
                == AnalogWindowPhase::Synthesizing ==> asked == window.samples.len() + 1 && asked
                <= NUMBER_OF_SAMPLES
            &&& window.phase == AnalogWindowPhase::Done ==> window.outcome.is_some() && asked
                <= NUMBER_OF_SAMPLES
            &&& window.phase == AnalogWindowPhase::Done && window.outcome.unwrap().is_ok() ==> asked
                == NUMBER_OF_SAMPLES && window.samples.len() == NUMBER_OF_SAMPLES
                && window.outcome.unwrap().unwrap() == analog_mean(window.samples)
        }),
    decreases events.len(),
{
    if events.len() > 0 {
        lemma_window_takes_all_its_samples(poll_limit, events.drop_last(), board);
    }
}

} // verus!
