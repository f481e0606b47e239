//! The readings of the two sensors, in whole millionths of their units.

use vstd::prelude::*;
use vstd::std_specs::convert::{FromSpecImpl, TryFromSpecImpl};

verus! {

/// Number of samples that go into one reading.
pub const NUMBER_OF_SAMPLES: usize = 5;

/// Time between two samples, in milliseconds.
pub const TIME_BETWEEN_SAMPLES_IN_MILLISECONDS: u64 = 100;

/// Why a sample could not be turned into a reading.
#[derive(Clone, Copy, Debug, PartialEq, Eq, Structural)]
pub enum Error {
    /// The sensor left a measurement out.
    MissingMeasurement,
}

/// What the analog-to-digital converter measures.
#[derive(Clone, Copy, Debug, PartialEq, Eq, Structural)]
pub struct Ads1115Data {
    /// Brightness in the enclosure as a share of the supply voltage, in
    /// millionths.
    pub enclosure_relative_brightness: i64,
    /// Battery voltage, in microvolts.
    pub battery_voltage: i64,
    /// Supply voltage of the pressure sensor, in microvolts.
    pub pressure_sensor_voltage: i64,
    /// Height of the liquid above the pressure sensor, in micrometres.
    pub height_above_sensor: i64,
}

/// What the environmental sensor measures in the enclosure.
#[derive(Clone, Copy, Debug, PartialEq, Eq, Structural)]
pub struct Bme280Data {
    /// Temperature, in millionths of a degree Celsius.
    pub temperature: i64,
    /// Relative humidity, in millionths of a percent.
    pub humidity: i64,
    /// Air pressure, in millionths of a hectopascal.
    pub pressure: i64,
}

/// One sample as the environmental sensor hands it out: each measurement is
/// there or left out. The units are those of `Bme280Data`.
#[derive(Clone, Copy, Debug, PartialEq, Eq)]
pub struct Bme280Sample {
    pub temperature: Option<i64>,
    pub humidity: Option<i64>,
    pub pressure: Option<i64>,
}

/// Lowest and highest temperature of a synthetic sample.
pub const RANDOM_TEMPERATURE_LOW: i64 = 15_000_000;

pub const RANDOM_TEMPERATURE_HIGH: i64 = 30_000_000;

/// Lowest and highest humidity of a synthetic sample.
pub const RANDOM_HUMIDITY_LOW: i64 = 20_000_000;

pub const RANDOM_HUMIDITY_HIGH: i64 = 80_000_000;

/// Lowest and highest pressure of a synthetic sample.
pub const RANDOM_PRESSURE_LOW: i64 = 990_000_000;

pub const RANDOM_PRESSURE_HIGH: i64 = 1_010_000_000;

/// The point between `low` and `high` that lies as far along as `seed` lies
/// between zero and the largest seed, rounded down.
pub open spec fn scaled(seed: u32, low: int, high: int) -> int {
    low + (seed * (high - low)) / (u32::MAX as int)
}

/// The synthetic reading that three random numbers give.
pub open spec fn synthetic(temperature_seed: u32, humidity_seed: u32, pressure_seed: u32)
    -> Bme280Data {
    Bme280Data {
        temperature: scaled(
            temperature_seed,
            RANDOM_TEMPERATURE_LOW as int,
            RANDOM_TEMPERATURE_HIGH as int,
        ) as i64,
        humidity: scaled(humidity_seed, RANDOM_HUMIDITY_LOW as int, RANDOM_HUMIDITY_HIGH as int)
            as i64,
        pressure: scaled(pressure_seed, RANDOM_PRESSURE_LOW as int, RANDOM_PRESSURE_HIGH as int)
            as i64,
    }
}

/// The reading that a complete sample gives.
pub open spec fn complete(sample: Bme280Sample) -> Result<Bme280Data, Error> {
    if sample.temperature.is_some() && sample.humidity.is_some() && sample.pressure.is_some() {
        Ok(
            Bme280Data {
                temperature: sample.temperature.unwrap(),
                humidity: sample.humidity.unwrap(),
                pressure: sample.pressure.unwrap(),
            },
        )
    } else {
        Err(Error::MissingMeasurement)
    }
}

fn scale(seed: u32, low: i64, high: i64) -> (value: i64)
    requires
        0 <= low <= high <= 2_000_000_000,
    ensures
        value == scaled(seed, low as int, high as int),
        low <= value <= high,
{
    let span: u64 = (high - low) as u64;
    assert(seed * span <= 0xffff_ffff * 2_000_000_000) by (nonlinear_arith)
        requires
            seed <= 0xffff_ffff,
            span <= 2_000_000_000,
    ;
    assert((seed * span) / 0xffff_ffff <= span) by (nonlinear_arith)
        requires
            seed <= 0xffff_ffff,
            0 <= span,
    ;
    let along: u64 = (seed as u64 * span) / (u32::MAX as u64);
    low + along as i64
}

impl Bme280Data {
    /// Makes a synthetic sample from three random numbers: a temperature
    /// between 15 and 30 degrees, a humidity between 20 and 80 percent and a
    /// pressure between 990 and 1010 hectopascal, each as far into its range
    /// as its seed is into the range of `u32`.
    pub fn random(temperature_seed: u32, humidity_seed: u32, pressure_seed: u32) -> (sample: Self)
        ensures
            sample == synthetic(temperature_seed, humidity_seed, pressure_seed),
            sample.temperature == scaled(
                temperature_seed,
                RANDOM_TEMPERATURE_LOW as int,
                RANDOM_TEMPERATURE_HIGH as int,
            ),
            sample.humidity == scaled(
                humidity_seed,
                RANDOM_HUMIDITY_LOW as int,
                RANDOM_HUMIDITY_HIGH as int,
            ),
            sample.pressure == scaled(
                pressure_seed,
                RANDOM_PRESSURE_LOW as int,
                RANDOM_PRESSURE_HIGH as int,
            ),
            RANDOM_TEMPERATURE_LOW <= sample.temperature <= RANDOM_TEMPERATURE_HIGH,
            RANDOM_HUMIDITY_LOW <= sample.humidity <= RANDOM_HUMIDITY_HIGH,
            RANDOM_PRESSURE_LOW <= sample.pressure <= RANDOM_PRESSURE_HIGH,
    {
        Bme280Data {
            temperature: scale(temperature_seed, RANDOM_TEMPERATURE_LOW, RANDOM_TEMPERATURE_HIGH),
            humidity: scale(humidity_seed, RANDOM_HUMIDITY_LOW, RANDOM_HUMIDITY_HIGH),
            pressure: scale(pressure_seed, RANDOM_PRESSURE_LOW, RANDOM_PRESSURE_HIGH),
        }
    }
}

impl From<(i64, i64, i64, i64)> for Ads1115Data {
    /// Makes the reading from brightness, battery voltage, voltage of the
    /// pressure sensor and height, in this order.
    fn from(parts: (i64, i64, i64, i64)) -> (data: Self) {
        Ads1115Data {
            enclosure_relative_brightness: parts.0,
            battery_voltage: parts.1,
            pressure_sensor_voltage: parts.2,
            height_above_sensor: parts.3,
        }
    }
}

impl FromSpecImpl<(i64, i64, i64, i64)> for Ads1115Data {
    open spec fn obeys_from_spec() -> bool {
        true
    }

    open spec fn from_spec(parts: (i64, i64, i64, i64)) -> Self {
        Ads1115Data {
            enclosure_relative_brightness: parts.0,
            battery_voltage: parts.1,
            pressure_sensor_voltage: parts.2,
            height_above_sensor: parts.3,
        }
    }
}

impl From<(i64, i64, i64)> for Bme280Data {
    /// Makes the reading from temperature, humidity and pressure, in this
    /// order.
    fn from(parts: (i64, i64, i64)) -> (data: Self) {
        Bme280Data { temperature: parts.0, humidity: parts.1, pressure: parts.2 }
    }
}

impl FromSpecImpl<(i64, i64, i64)> for Bme280Data {
    open spec fn obeys_from_spec() -> bool {
        true
    }

    open spec fn from_spec(parts: (i64, i64, i64)) -> Self {
        Bme280Data { temperature: parts.0, humidity: parts.1, pressure: parts.2 }
    }
}

impl TryFrom<Bme280Sample> for Bme280Data {
    type Error = Error;

    /// Makes the reading from a sample, which must hold all three
    /// measurements.
    fn try_from(sample: Bme280Sample) -> (data: Result<Self, Error>) {
        match (sample.temperature, sample.humidity, sample.pressure) {
            (Some(temperature), Some(humidity), Some(pressure)) => Ok(
                Bme280Data { temperature, humidity, pressure },
            ),
            _ => Err(Error::MissingMeasurement),
        }
    }
}

impl TryFromSpecImpl<Bme280Sample> for Bme280Data {
    open spec fn obeys_try_from_spec() -> bool {
        true
    }

    open spec fn try_from_spec(sample: Bme280Sample) -> Result<Self, Error> {
        complete(sample)
    }
}

} // verus!
