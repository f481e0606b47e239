//! The order in which the two sensors are read.

use crate::sensor::SensorError;
use crate::sensor_data::{Ads1115Data, Bme280Data, Error as DomainError};
use vstd::prelude::*;

verus! {

/// How far the acquisition of one wake cycle has come.
#[derive(Clone, Copy, Debug, PartialEq, Eq, Structural)]
pub enum AcquisitionPhase {
    /// The environmental sensor is being read.
    Environmental,
    /// The pressure sensor is being powered up.
    PoweringUp,
    /// The converter is being read.
    Analog,
    /// The pressure sensor is being powered down.
    PoweringDown,
    /// The acquisition is over.
    Done,
}

/// The acquisition of one wake cycle: both sensors, one after the other,
/// with the pressure sensor powered only while the converter is read.
#[derive(Clone, Copy, Debug, PartialEq, Eq)]
pub struct Acquisition {
    pub phase: AcquisitionPhase,
    /// The reading of the environmental sensor, once it is there.
    pub environmental: Option<Bme280Data>,
    /// The reading of the converter, once it is there.
    pub analog: Option<Ads1115Data>,
    /// Why the acquisition fails: the error of the sensor that could not be
    /// read, if one could not.
    pub failure: Option<SensorError>,
}

/// What the pipeline has just done.
#[derive(Clone, Copy, Debug, PartialEq, Eq)]
pub enum AcquisitionEvent {
    /// The environmental sensor was read, or could not be.
    EnvironmentalRead(Result<Bme280Data, SensorError>),
    /// The pressure sensor is powered.
    PoweredUp,
    /// The converter was read, or could not be.
    AnalogRead(Result<Ads1115Data, SensorError>),
    /// The pressure sensor is without power.
    PoweredDown,
}

/// What the pipeline does next.
#[derive(Clone, Copy, Debug, PartialEq, Eq)]
pub enum AcquisitionAction {
    /// Read the environmental sensor.
    ReadEnvironmental,
    /// Power the pressure sensor up.
    PowerUp,
    /// Configure the converter, wait for a stable supply and read it.
    ReadAnalog,
    /// Power the pressure sensor down.
    PowerDown,
    /// Hand both readings to the main cycle.
    Deliver(Bme280Data, Ads1115Data),
    /// Tell the main cycle that there is no reading.
    Fail(SensorError),
}

/// How an acquisition ends, given what it has collected.
pub open spec fn acquisition_outcome(acquisition: Acquisition) -> AcquisitionAction {
    match (acquisition.failure, acquisition.environmental, acquisition.analog) {
        (Some(error), _, _) => AcquisitionAction::Fail(error),
        (None, Some(environmental), Some(analog)) => AcquisitionAction::Deliver(
            environmental,
            analog,
        ),
        _ => AcquisitionAction::Fail(SensorError::Domain(DomainError::MissingMeasurement)),
    }
}

/// The next state and action of the acquisition.
pub open spec fn acquisition_next(acquisition: Acquisition, event: AcquisitionEvent) -> (
    Acquisition,
    AcquisitionAction,
) {
    match acquisition.phase {
        AcquisitionPhase::Environmental => match event {
            AcquisitionEvent::EnvironmentalRead(Ok(reading)) => (
                Acquisition {
                    phase: AcquisitionPhase::PoweringUp,
                    environmental: Some(reading),
                    ..acquisition
                },
                AcquisitionAction::PowerUp,
            ),
            AcquisitionEvent::EnvironmentalRead(Err(error)) => (
                Acquisition {
                    phase: AcquisitionPhase::Done,
                    failure: Some(error),
                    ..acquisition
                },
                AcquisitionAction::Fail(error),
            ),
            _ => (acquisition, AcquisitionAction::ReadEnvironmental),
        },
        AcquisitionPhase::PoweringUp => match event {
            AcquisitionEvent::PoweredUp => (
                Acquisition { phase: AcquisitionPhase::Analog, ..acquisition },
                AcquisitionAction::ReadAnalog,
            ),
            _ => (acquisition, AcquisitionAction::PowerUp),
        },
        AcquisitionPhase::Analog => match event {
            AcquisitionEvent::AnalogRead(Ok(reading)) => (
                Acquisition {
                    phase: AcquisitionPhase::PoweringDown,
                    analog: Some(reading),
                    ..acquisition
                },
                AcquisitionAction::PowerDown,
            ),
            AcquisitionEvent::AnalogRead(Err(error)) => (
                Acquisition {
                    phase: AcquisitionPhase::PoweringDown,
                    failure: Some(error),
                    ..acquisition
                },
                AcquisitionAction::PowerDown,
            ),
            _ => (acquisition, AcquisitionAction::ReadAnalog),
        },
        AcquisitionPhase::PoweringDown => match event {
            AcquisitionEvent::PoweredDown => (
                Acquisition { phase: AcquisitionPhase::Done, ..acquisition },
                acquisition_outcome(acquisition),
            ),
            _ => (acquisition, AcquisitionAction::PowerDown),
        },
        AcquisitionPhase::Done => (acquisition, acquisition_outcome(acquisition)),
    }
}

impl Acquisition {
    /// Begins an acquisition; the first thing to do is to read the
    /// environmental sensor.
    pub fn new() -> (begun: (Self, AcquisitionAction))
        ensures
            begun.0 == (Acquisition {
                phase: AcquisitionPhase::Environmental,
                environmental: None,
                analog: None,
                failure: None,
            }),
            begun.1 == AcquisitionAction::ReadEnvironmental,
    {
        (
            Acquisition {
                phase: AcquisitionPhase::Environmental,
                environmental: None,
                analog: None,
                failure: None,
            },
            AcquisitionAction::ReadEnvironmental,
        )
    }

    fn outcome(&self) -> (action: AcquisitionAction)
        ensures
            action == acquisition_outcome(*self),
    {
        match (self.failure, self.environmental, self.analog) {
            (Some(error), _, _) => AcquisitionAction::Fail(error),
            (None, Some(environmental), Some(analog)) => AcquisitionAction::Deliver(
                environmental,
                analog,
            ),
            _ => AcquisitionAction::Fail(SensorError::Domain(DomainError::MissingMeasurement)),
        }
    }
}

/// Advances the acquisition by one event.
///
/// The environmental sensor is read first. Then the pressure sensor is
/// powered up, the converter is read, and the pressure sensor is powered
/// down again whether or not the converter could be read. Both readings are
/// delivered together; a sensor that could not be read ends the acquisition
/// with its error. An event that does not answer the action asked for
/// changes nothing, and the action is asked for again.
pub fn read_sensor_data_task(acquisition: Acquisition, event: AcquisitionEvent) -> (next: (
    Acquisition,
    AcquisitionAction,
))
    ensures
        next == acquisition_next(acquisition, event),
{
    match acquisition.phase {
        AcquisitionPhase::Environmental => match event {
            AcquisitionEvent::EnvironmentalRead(Ok(reading)) => (
                Acquisition {
                    phase: AcquisitionPhase::PoweringUp,
                    environmental: Some(reading),
                    ..acquisition
                },
                AcquisitionAction::PowerUp,
            ),
            AcquisitionEvent::EnvironmentalRead(Err(error)) => (
                Acquisition {
                    phase: AcquisitionPhase::Done,
                    failure: Some(error),
                    ..acquisition
                },
                AcquisitionAction::Fail(error),
            ),
            _ => (acquisition, AcquisitionAction::ReadEnvironmental),
        },
        AcquisitionPhase::PoweringUp => match event {
            AcquisitionEvent::PoweredUp => (
                Acquisition { phase: AcquisitionPhase::Analog, ..acquisition },
                AcquisitionAction::ReadAnalog,
            ),
            _ => (acquisition, AcquisitionAction::PowerUp),
        },
        AcquisitionPhase::Analog => match event {
            AcquisitionEvent::AnalogRead(Ok(reading)) => (
                Acquisition {
                    phase: AcquisitionPhase::PoweringDown,
                    analog: Some(reading),
                    ..acquisition
                },
                AcquisitionAction::PowerDown,
            ),
            AcquisitionEvent::AnalogRead(Err(error)) => (
                Acquisition {
                    phase: AcquisitionPhase::PoweringDown,
                    failure: Some(error),
                    ..acquisition
                },
                AcquisitionAction::PowerDown,
            ),
            _ => (acquisition, AcquisitionAction::ReadAnalog),
        },
        AcquisitionPhase::PoweringDown => match event {
            AcquisitionEvent::PoweredDown => {
                let action = acquisition.outcome();
                (Acquisition { phase: AcquisitionPhase::Done, ..acquisition }, action)
            },
            _ => (acquisition, AcquisitionAction::PowerDown),
        },
        AcquisitionPhase::Done => {
            let action = acquisition.outcome();
            (acquisition, action)
        },
    }
}

/// Whether the pressure sensor may be powered in `phase`.
pub open spec fn sensor_powered(phase: AcquisitionPhase) -> bool {
    phase == AcquisitionPhase::PoweringUp || phase == AcquisitionPhase::Analog || phase
        == AcquisitionPhase::PoweringDown
}

/// Whether an action ends the acquisition.
pub open spec fn ends_acquisition(action: AcquisitionAction) -> bool {
    action is Deliver || action is Fail
}

/// Once the pressure sensor may be powered, the acquisition ends only on the
/// report that it is without power again, whether the converter could be
/// read or not.
pub proof fn lemma_sensor_is_powered_down(acquisition: Acquisition, event: AcquisitionEvent)
    requires
        sensor_powered(acquisition.phase),
    ensures
        ends_acquisition(acquisition_next(acquisition, event).1) <==> acquisition.phase
            == AcquisitionPhase::PoweringDown && event == AcquisitionEvent::PoweredDown,
        acquisition_next(acquisition, event).0.phase == AcquisitionPhase::Done
            <==> ends_acquisition(acquisition_next(acquisition, event).1),
        acquisition.phase == AcquisitionPhase::Analog && event is AnalogRead ==> acquisition_next(
            acquisition,
            event,
        ).1 == AcquisitionAction::PowerDown,
{
}

/// Readings are delivered exactly when both sensors were read.
pub proof fn lemma_delivery_needs_both_readings(acquisition: Acquisition)
    ensures
        acquisition_outcome(acquisition) is Deliver <==> acquisition.failure.is_none()
            && acquisition.environmental.is_some() && acquisition.analog.is_some(),
{
}

} // verus!
