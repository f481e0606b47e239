//! The acquisition pipeline: converting what the analog-to-digital converter
//! counts into physical units, waiting for the pressure sensor to settle,
//! collecting samples and reducing them to one reading.
//!
//! Voltages are in microvolts, resistances in ohms, heights in micrometres.

pub mod acquisition;
pub mod analog_window;
pub mod conversion;
pub mod environmental_window;
pub mod samples;
pub mod stabilization;

pub use self::acquisition::{
    read_sensor_data_task, Acquisition, AcquisitionAction, AcquisitionEvent, AcquisitionPhase,
};
pub use self::analog_window::{
    read_ads1115, AnalogWindow, AnalogWindowAction, AnalogWindowEvent, AnalogWindowPhase,
};
pub use self::conversion::{
    calculate_ads1115_voltage, calculate_input_voltage_for_voltage_divider,
    calculate_water_height_from_pressure_sensor_voltage, sample_voltage_data, BoardComponents,
    RawVoltages, ADC_FULL_SCALE, CURRENT_RANGE_MICROVOLTS_PER_OHM, MIN_CURRENT_MICROVOLTS_PER_OHM,
};
pub use self::environmental_window::{
    read_bme280, EnvironmentalWindow, EnvironmentalWindowAction, EnvironmentalWindowEvent,
    EnvironmentalWindowPhase,
};
pub use self::samples::{
    sample_environmental_data, AnalogSamples, EnvironmentalSamples,
    WARMUP_INTERVAL_IN_MILLISECONDS,
};
pub use self::stabilization::{
    wait_for_pressure_sensor_voltage_to_stabilize, Stabilization, StabilizationStep,
    EXPECTED_PRESSURE_SENSOR_VOLTAGE,
    PRESSURE_SENSOR_VOLTAGE_STABILIZATION_CHECK_INTERVAL_IN_MILLISECONDS,
    PRESSURE_SENSOR_VOLTAGE_TOLERANCE, STABLE_POLLS_REQUIRED,
};
use crate::sensor_data::Error as DomainError;
use vstd::prelude::*;
use vstd::std_specs::convert::FromSpecImpl;

verus! {

/// Why the pipeline could not deliver.
#[derive(Clone, Copy, Debug, PartialEq, Eq, Structural)]
pub enum SensorError {
    /// A sample could not be turned into a reading.
    Domain(DomainError),
    /// The sensor bus reported an error.
    I2c,
    /// The range of the converter could not be set.
    FailedToSetAdcRange,
    /// A voltage is above what can be represented.
    VoltageTooHigh,
    /// A voltage is below what can be represented.
    VoltageTooLow,
    /// The voltage of the pressure sensor did not settle in time.
    PressureSensorVoltageNotStable,
    /// What was reported does not answer what was asked for.
    UnexpectedReport,
}

impl From<DomainError> for SensorError {
    /// Takes an error of the readings as an error of the pipeline.
    fn from(error: DomainError) -> (wrapped: Self) {
        SensorError::Domain(error)
    }
}

impl FromSpecImpl<DomainError> for SensorError {
    open spec fn obeys_from_spec() -> bool {
        true
    }

    open spec fn from_spec(error: DomainError) -> Self {
        SensorError::Domain(error)
    }
}

} // verus!
