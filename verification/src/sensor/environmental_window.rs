//! One acquisition window of the environmental sensor: initializing it and
//! taking the samples of one reading.

use crate::sensor::samples::{environmental_mean, EnvironmentalSamples};
use crate::sensor::samples::WARMUP_INTERVAL_IN_MILLISECONDS;
use crate::sensor::SensorError;
use crate::sensor_data::{complete, synthetic, Bme280Data, Bme280Sample, NUMBER_OF_SAMPLES};
use crate::sensor_data::TIME_BETWEEN_SAMPLES_IN_MILLISECONDS;
use vstd::prelude::*;

verus! {

/// How far a window of the environmental sensor has come.
#[derive(Clone, Copy, Debug, PartialEq, Eq, Structural)]
pub enum EnvironmentalWindowPhase {
    /// The sensor is being initialized.
    Initializing,
    /// A sample is being read.
    Sampling,
    /// Random numbers are being drawn for a sample that could not be read.
    Synthesizing,
    /// The window is over.
    Done,
}

/// What the caller has just done for the window.
#[derive(Clone, Copy, Debug, PartialEq, Eq)]
pub enum EnvironmentalWindowEvent {
    /// The sensor was initialized and its oversampling set, or could not be.
    Initialized(Result<(), SensorError>),
    /// A sample was read, or could not be.
    SampleRead(Result<Bme280Sample, SensorError>),
    /// Three random numbers were drawn: for the temperature, the humidity
    /// and the pressure.
    RandomDrawn(u32, u32, u32),
}

/// What the caller does next for the window.
#[derive(Clone, Copy, Debug, PartialEq, Eq)]
pub enum EnvironmentalWindowAction {
    /// Initialize the sensor and set its oversampling.
    Initialize,
    /// Wait this many milliseconds, then read a sample.
    ReadSample { delay_ms: u64 },
    /// Draw three random numbers.
    DrawRandom,
    /// The window is over: this is its reading, or why there is none.
    Done(Result<Bme280Data, SensorError>),
}

/// A window of the environmental sensor.
pub struct EnvironmentalWindow {
    phase: EnvironmentalWindowPhase,
    samples: EnvironmentalSamples,
    outcome: Option<Result<Bme280Data, SensorError>>,
}

/// What a window holds.
pub struct EnvironmentalWindowView {
    pub phase: EnvironmentalWindowPhase,
    /// The samples recorded so far, in the order they were taken.
    pub samples: Seq<Bme280Data>,
    /// How the window ended, once it is over.
    pub outcome: Option<Result<Bme280Data, SensorError>>,
}

impl View for EnvironmentalWindow {
    type V = EnvironmentalWindowView;

    closed spec fn view(&self) -> EnvironmentalWindowView {
        EnvironmentalWindowView {
            phase: self.phase,
            samples: self.samples.samples(),
            outcome: self.outcome,
        }
    }
}

/// The window ends with `outcome`.
pub open spec fn environmental_window_ends(
    window: EnvironmentalWindowView,
    outcome: Result<Bme280Data, SensorError>,
) -> (EnvironmentalWindowView, EnvironmentalWindowAction) {
    (
        EnvironmentalWindowView {
            phase: EnvironmentalWindowPhase::Done,
            outcome: Some(outcome),
            ..window
        },
        EnvironmentalWindowAction::Done(outcome),
    )
}

/// A sample is recorded: the one that completes the window ends it with the
/// mean of all samples, any other is followed by the next after the time
/// between samples.
pub open spec fn environmental_window_records(window: EnvironmentalWindowView, sample: Bme280Data)
    -> (EnvironmentalWindowView, EnvironmentalWindowAction) {
    let samples = window.samples.push(sample);
    if samples.len() >= NUMBER_OF_SAMPLES {
        environmental_window_ends(
            EnvironmentalWindowView { samples, ..window },
            Ok(environmental_mean(samples)),
        )
    } else {
        (
            EnvironmentalWindowView { phase: EnvironmentalWindowPhase::Sampling, samples, ..window },
            EnvironmentalWindowAction::ReadSample {
                delay_ms: TIME_BETWEEN_SAMPLES_IN_MILLISECONDS,
            },
        )
    }
}

/// Whether a sample that was read can be recorded as it is.
pub open spec fn usable(reading: Result<Bme280Sample, SensorError>) -> bool {
    reading.is_ok() && complete(reading.unwrap()).is_ok()
}

/// The next state and action of a window of the environmental sensor.
pub open spec fn environmental_window_next(
    window: EnvironmentalWindowView,
    event: EnvironmentalWindowEvent,
) -> (EnvironmentalWindowView, EnvironmentalWindowAction) {
    match (window.phase, event) {
        (EnvironmentalWindowPhase::Done, _) => match window.outcome {
            Some(outcome) => (window, EnvironmentalWindowAction::Done(outcome)),
            None => environmental_window_ends(window, Err(SensorError::UnexpectedReport)),
        },
        (EnvironmentalWindowPhase::Initializing, EnvironmentalWindowEvent::Initialized(_)) => (
            EnvironmentalWindowView { phase: EnvironmentalWindowPhase::Sampling, ..window },
            EnvironmentalWindowAction::ReadSample { delay_ms: WARMUP_INTERVAL_IN_MILLISECONDS },
        ),
        (EnvironmentalWindowPhase::Sampling, EnvironmentalWindowEvent::SampleRead(reading))
            => if usable(reading) {
            environmental_window_records(window, complete(reading.unwrap()).unwrap())
        } else {
            (
                EnvironmentalWindowView {
                    phase: EnvironmentalWindowPhase::Synthesizing,
                    ..window
                },
                EnvironmentalWindowAction::DrawRandom,
            )
        },
        (EnvironmentalWindowPhase::Synthesizing, EnvironmentalWindowEvent::RandomDrawn(a, b, c))
            => environmental_window_records(window, synthetic(a, b, c)),
        _ => environmental_window_ends(window, Err(SensorError::UnexpectedReport)),
    }
}

impl EnvironmentalWindow {
    #[verifier::type_invariant]
    closed spec fn in_step(self) -> bool {
        &&& self.phase == EnvironmentalWindowPhase::Done ==> self.outcome.is_some()
        &&& self.phase != EnvironmentalWindowPhase::Done ==> self.samples.samples().len()
            < NUMBER_OF_SAMPLES
    }

    /// Begins a window; the first thing to do is to initialize the sensor.
    pub fn new() -> (begun: (Self, EnvironmentalWindowAction))
        ensures
            begun.0@ == (EnvironmentalWindowView {
                phase: EnvironmentalWindowPhase::Initializing,
                samples: Seq::<Bme280Data>::empty(),
                outcome: None,
            }),
            begun.1 == EnvironmentalWindowAction::Initialize,
    {
        (
            EnvironmentalWindow {
                phase: EnvironmentalWindowPhase::Initializing,
                samples: EnvironmentalSamples::new(),
                outcome: None,
            },
            EnvironmentalWindowAction::Initialize,
        )
    }

    fn end(self, outcome: Result<Bme280Data, SensorError>) -> (next: (
        Self,
        EnvironmentalWindowAction,
    ))
        ensures
            (next.0@, next.1) == environmental_window_ends(self@, outcome),
    {
        let EnvironmentalWindow { phase: _, samples, outcome: _ } = self;
        (
            EnvironmentalWindow {
                phase: EnvironmentalWindowPhase::Done,
                samples,
                outcome: Some(outcome),
            },
            EnvironmentalWindowAction::Done(outcome),
        )
    }

    fn record(self, sample: Bme280Data) -> (next: (Self, EnvironmentalWindowAction))
        requires
            self@.phase != EnvironmentalWindowPhase::Done,
        ensures
            (next.0@, next.1) == environmental_window_records(self@, sample),
    {
        proof {
            use_type_invariant(&self);
        }
        let EnvironmentalWindow { phase: _, samples, outcome } = self;
        let mut samples = samples;
        let _ = samples.record(sample);
        if samples.len() >= NUMBER_OF_SAMPLES {
            let reading = samples.average().unwrap();
            (
                EnvironmentalWindow {
                    phase: EnvironmentalWindowPhase::Done,
                    samples,
                    outcome: Some(Ok(reading)),
                },
                EnvironmentalWindowAction::Done(Ok(reading)),
            )
        } else {
            (
                EnvironmentalWindow { phase: EnvironmentalWindowPhase::Sampling, samples, outcome },
                EnvironmentalWindowAction::ReadSample {
                    delay_ms: TIME_BETWEEN_SAMPLES_IN_MILLISECONDS,
                },
            )
        }
    }
}

/// Advances a window of the environmental sensor by one event.
///
/// The sensor is initialized; whether that succeeds or not, sampling begins
/// after the warm-up interval, since the sensor may still answer in its
/// default mode. Exactly `NUMBER_OF_SAMPLES` samples are recorded, the time
/// between samples apart. A sample that cannot be read or lacks a
/// measurement is replaced by a synthetic one, made of three random numbers
/// that are then asked for. The sample that completes the window ends it
/// with the mean of all samples. An event that does not answer what was
/// asked for ends the window with `UnexpectedReport`; a window that is over
/// repeats how it ended.
pub fn read_bme280(window: EnvironmentalWindow, event: EnvironmentalWindowEvent) -> (next: (
    EnvironmentalWindow,
    EnvironmentalWindowAction,
))
    ensures
        (next.0@, next.1) == environmental_window_next(window@, event),
{
    proof {
        use_type_invariant(&window);
    }
    match (window.phase, event) {
        (EnvironmentalWindowPhase::Done, _) => {
            let outcome = window.outcome.unwrap();
            (window, EnvironmentalWindowAction::Done(outcome))
        },
        (EnvironmentalWindowPhase::Initializing, EnvironmentalWindowEvent::Initialized(_)) => {
            let EnvironmentalWindow { phase: _, samples, outcome } = window;
            (
                EnvironmentalWindow { phase: EnvironmentalWindowPhase::Sampling, samples, outcome },
                EnvironmentalWindowAction::ReadSample {
                    delay_ms: WARMUP_INTERVAL_IN_MILLISECONDS,
                },
            )
        },
        (
            EnvironmentalWindowPhase::Sampling,
            EnvironmentalWindowEvent::SampleRead(
                Ok(
                    Bme280Sample {
                        temperature: Some(temperature),
                        humidity: Some(humidity),
                        pressure: Some(pressure),
                    },
                ),
            ),
        ) => window.record(Bme280Data { temperature, humidity, pressure }),
        (EnvironmentalWindowPhase::Sampling, EnvironmentalWindowEvent::SampleRead(_)) => {
            let EnvironmentalWindow { phase: _, samples, outcome } = window;
            (
                EnvironmentalWindow {
                    phase: EnvironmentalWindowPhase::Synthesizing,
                    samples,
                    outcome,
                },
                EnvironmentalWindowAction::DrawRandom,
            )
        },
        (EnvironmentalWindowPhase::Synthesizing, EnvironmentalWindowEvent::RandomDrawn(a, b, c))
            => window.record(Bme280Data::random(a, b, c)),
        _ => window.end(Err(SensorError::UnexpectedReport)),
    }
}

/// The window after a sequence of events.
pub open spec fn environmental_window_run(
    window: EnvironmentalWindowView,
    events: Seq<EnvironmentalWindowEvent>,
) -> EnvironmentalWindowView
    decreases events.len(),
{
    if events.len() == 0 {
        window
    } else {
        environmental_window_next(
            environmental_window_run(window, events.drop_last()),
            events.last(),
        ).0
    }
}

/// How many samples a sequence of events made the window ask for.
pub open spec fn environmental_samples_asked(
    window: EnvironmentalWindowView,
    events: Seq<EnvironmentalWindowEvent>,
) -> nat
    decreases events.len(),
{
    if events.len() == 0 {
        0
    } else {
        let before = environmental_window_run(window, events.drop_last());
        let asked: nat = if environmental_window_next(before, events.last()).1 is ReadSample {
            1
        } else {
            0
        };
        environmental_samples_asked(window, events.drop_last()) + asked
    }
}

/// A window as it begins.
pub open spec fn environmental_window_begins() -> EnvironmentalWindowView {
    EnvironmentalWindowView {
        phase: EnvironmentalWindowPhase::Initializing,
        samples: Seq::<Bme280Data>::empty(),
        outcome: None,
    }
}

/// A sensor that cannot be initialized does not end the window: the samples
/// are taken all the same.
pub proof fn lemma_failed_initialization_goes_on(
    window: EnvironmentalWindowView,
    error: SensorError,
)
    requires
        window.phase == EnvironmentalWindowPhase::Initializing,
    ensures
        environmental_window_next(window, EnvironmentalWindowEvent::Initialized(Err(error)))
            == environmental_window_next(window, EnvironmentalWindowEvent::Initialized(Ok(()))),
        environmental_window_next(
            window,
            EnvironmentalWindowEvent::Initialized(Err(error)),
        ).1 is ReadSample,
{
}

/// A sample that cannot be read does not end the window: a synthetic one
/// takes its place, and it lies within the bounds of synthetic samples.
pub proof fn lemma_failed_sample_is_replaced(
    window: EnvironmentalWindowView,
    error: SensorError,
    seeds: (u32, u32, u32),
)
    requires
        window.phase == EnvironmentalWindowPhase::Sampling,
    ensures
        ({
            let asked = environmental_window_next(
                window,
                EnvironmentalWindowEvent::SampleRead(Err(error)),
            );
            let drawn = environmental_window_next(
                asked.0,
                EnvironmentalWindowEvent::RandomDrawn(seeds.0, seeds.1, seeds.2),
            );
            &&& asked.1 == EnvironmentalWindowAction::DrawRandom
            &&& asked.0.samples == window.samples
            &&& drawn.0.samples == window.samples.push(synthetic(seeds.0, seeds.1, seeds.2))
        }),
{
}

/// A window asks for one more sample than it has recorded while it goes on,
/// and for exactly `NUMBER_OF_SAMPLES` by the time it ends with a reading,
/// which is the mean of the samples it has recorded.
pub proof fn lemma_window_takes_all_its_samples(events: Seq<EnvironmentalWindowEvent>)
    ensures
        ({
            let window = environmental_window_run(environmental_window_begins(), events);
            let asked = environmental_samples_asked(environmental_window_begins(), events);
            &&& window.phase == EnvironmentalWindowPhase::Initializing ==> asked == 0
                && window.samples.len() == 0
            &&& window.phase == EnvironmentalWindowPhase::Sampling || window.phase
                == EnvironmentalWindowPhase::Synthesizing ==> asked == window.samples.len() + 1
                && asked <= NUMBER_OF_SAMPLES
            &&& window.phase == EnvironmentalWindowPhase::Done ==> window.outcome.is_some()
                && asked <= NUMBER_OF_SAMPLES
            &&& window.phase == EnvironmentalWindowPhase::Done && window.outcome.unwrap().is_ok()
                ==> asked == NUMBER_OF_SAMPLES && window.samples.len() == NUMBER_OF_SAMPLES
                && window.outcome.unwrap().unwrap() == environmental_mean(window.samples)
        }),
    decreases events.len(),
{
    if events.len() > 0 {
        lemma_window_takes_all_its_samples(events.drop_last());
    }
}

} // verus!
