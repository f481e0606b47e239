//! The samples of one acquisition window and their reduction to one
//! reading.

use crate::sensor::conversion::{fits_i64, toward_zero};
use crate::sensor::SensorError;
use crate::sensor_data::{complete, synthetic, Ads1115Data, Bme280Data, Bme280Sample};
use crate::sensor_data::NUMBER_OF_SAMPLES;
use vstd::prelude::*;

verus! {

/// Time the environmental sensor is given to take up its configuration, in
/// milliseconds.
pub const WARMUP_INTERVAL_IN_MILLISECONDS: u64 = 10;

/// Takes the reading of a sample of the environmental sensor, or, where the
/// sample could not be read or lacks a measurement, the synthetic reading
/// that the three random numbers give.
pub fn sample_environmental_data(reading: Result<Bme280Sample, SensorError>, seeds: (u32, u32, u32))
    -> (sample: Bme280Data)
    ensures
        reading.is_ok() && complete(reading.unwrap()).is_ok() ==> sample == complete(
            reading.unwrap(),
        ).unwrap(),
        !(reading.is_ok() && complete(reading.unwrap()).is_ok()) ==> sample
            == synthetic(seeds.0, seeds.1, seeds.2),
{
    match reading {
        Ok(
            Bme280Sample { temperature: Some(temperature), humidity: Some(humidity), pressure: Some(
                pressure,
            ) },
        ) => Bme280Data { temperature, humidity, pressure },
        _ => Bme280Data::random(seeds.0, seeds.1, seeds.2),
    }
}

/// The sum of a sequence of values.
pub open spec fn total(values: Seq<i64>) -> int
    decreases values.len(),
{
    if values.len() == 0 {
        0
    } else {
        total(values.drop_last()) + values.last()
    }
}

/// The arithmetic mean of a sequence of values, rounded towards zero.
pub open spec fn mean(values: Seq<i64>) -> int {
    toward_zero(total(values), values.len() as int)
}

/// The sum of `values` lies within the range of `i64` times their number.
pub proof fn lemma_total_bounds(values: Seq<i64>)
    ensures
        values.len() * i64::MIN <= total(values) <= values.len() * i64::MAX,
    decreases values.len(),
{
    if values.len() > 0 {
        lemma_total_bounds(values.drop_last());
        let n = values.len() as int;
        assert((n - 1) * i64::MIN + i64::MIN == n * i64::MIN) by (nonlinear_arith);
        assert((n - 1) * i64::MAX + i64::MAX == n * i64::MAX) by (nonlinear_arith);
    }
}

/// The mean of at least one value is the arithmetic mean up to the rounding
/// to whole units: multiplied by the number of values it is less than that
/// number away from their sum; and it can be held in an `i64`.
pub proof fn lemma_mean_is_arithmetic_mean(values: Seq<i64>)
    requires
        values.len() > 0,
    ensures
        -values.len() < mean(values) * values.len() - total(values) < values.len(),
        total(values) % (values.len() as int) == 0 ==> mean(values) * values.len() == total(
            values,
        ),
        fits_i64(mean(values)),
{
    let n = values.len() as int;
    let sum = total(values);
    lemma_total_bounds(values);
    if sum >= 0 {
        vstd::arithmetic::div_mod::lemma_fundamental_div_mod(sum, n);
        vstd::arithmetic::div_mod::lemma_mod_bound(sum, n);
        assert(n * (sum / n) == (sum / n) * n) by (nonlinear_arith);
        assert(sum / n <= i64::MAX) by (nonlinear_arith)
            requires
                (sum / n) * n <= sum,
                sum <= n * i64::MAX,
                n > 0,
        ;
        assert(sum / n >= 0) by (nonlinear_arith)
            requires
                sum >= 0,
                n > 0,
        ;
    } else {
        let positive = -sum;
        vstd::arithmetic::div_mod::lemma_fundamental_div_mod(positive, n);
        vstd::arithmetic::div_mod::lemma_mod_bound(positive, n);
        assert(n * (positive / n) == (positive / n) * n) by (nonlinear_arith);
        assert((-(positive / n)) * n == -((positive / n) * n)) by (nonlinear_arith);
        assert(positive / n <= -i64::MIN) by (nonlinear_arith)
            requires
                (positive / n) * n <= positive,
                positive <= n * (-i64::MIN),
                n > 0,
        ;
        assert(positive / n >= 0) by (nonlinear_arith)
            requires
                positive >= 0,
                n > 0,
        ;
        if sum % n == 0 {
            vstd::arithmetic::div_mod::lemma_fundamental_div_mod(sum, n);
            assert(positive == (-(sum / n)) * n) by (nonlinear_arith)
                requires
                    positive == -sum,
                    sum == n * (sum / n),
            ;
            vstd::arithmetic::div_mod::lemma_mod_multiples_basic(-(sum / n), n);
        }
    }
}

/// Divides a sum by the number of its terms, rounding towards zero.
fn mean_of_sum(sum: i128, count: usize) -> (mean: i128)
    requires
        0 < count <= NUMBER_OF_SAMPLES,
        sum > i128::MIN,
    ensures
        mean == toward_zero(sum as int, count as int),
{
    let divisor: i128 = count as i128;
    if sum >= 0 {
        sum / divisor
    } else {
        -((-sum) / divisor)
    }
}

/// The temperatures of a sequence of readings.
pub open spec fn temperatures(samples: Seq<Bme280Data>) -> Seq<i64> {
    Seq::new(samples.len(), |i: int| samples[i].temperature)
}

/// The humidities of a sequence of readings.
pub open spec fn humidities(samples: Seq<Bme280Data>) -> Seq<i64> {
    Seq::new(samples.len(), |i: int| samples[i].humidity)
}

/// The pressures of a sequence of readings.
pub open spec fn pressures(samples: Seq<Bme280Data>) -> Seq<i64> {
    Seq::new(samples.len(), |i: int| samples[i].pressure)
}

/// The brightnesses of a sequence of readings.
pub open spec fn brightnesses(samples: Seq<Ads1115Data>) -> Seq<i64> {
    Seq::new(samples.len(), |i: int| samples[i].enclosure_relative_brightness)
}

/// The battery voltages of a sequence of readings.
pub open spec fn battery_voltages(samples: Seq<Ads1115Data>) -> Seq<i64> {
    Seq::new(samples.len(), |i: int| samples[i].battery_voltage)
}

/// The supply voltages of the pressure sensor of a sequence of readings.
pub open spec fn pressure_sensor_voltages(samples: Seq<Ads1115Data>) -> Seq<i64> {
    Seq::new(samples.len(), |i: int| samples[i].pressure_sensor_voltage)
}

/// The heights of a sequence of readings.
pub open spec fn heights(samples: Seq<Ads1115Data>) -> Seq<i64> {
    Seq::new(samples.len(), |i: int| samples[i].height_above_sensor)
}

/// The reading that holds, field by field, the mean of the samples.
pub open spec fn environmental_mean(samples: Seq<Bme280Data>) -> Bme280Data {
    Bme280Data {
        temperature: mean(temperatures(samples)) as i64,
        humidity: mean(humidities(samples)) as i64,
        pressure: mean(pressures(samples)) as i64,
    }
}

/// The reading that holds, field by field, the mean of the samples.
pub open spec fn analog_mean(samples: Seq<Ads1115Data>) -> Ads1115Data {
    Ads1115Data {
        enclosure_relative_brightness: mean(brightnesses(samples)) as i64,
        battery_voltage: mean(battery_voltages(samples)) as i64,
        pressure_sensor_voltage: mean(pressure_sensor_voltages(samples)) as i64,
        height_above_sensor: mean(heights(samples)) as i64,
    }
}

/// The samples of the environmental sensor that a set holds, in the order
/// they were taken.
pub uninterp spec fn environmental_items(items: heapless::Vec<Bme280Data, 5>) -> Seq<Bme280Data>;

/// The samples of the converter that a set holds, in the order they were
/// taken.
pub uninterp spec fn analog_items(items: heapless::Vec<Ads1115Data, 5>) -> Seq<Ads1115Data>;

/// `heapless::Vec::new`: the new vector is empty.
#[verifier::external_body]
fn environmental_new() -> (items: heapless::Vec<Bme280Data, 5>)
    ensures
        environmental_items(items) == Seq::<Bme280Data>::empty(),
{
    heapless::Vec::new()
}

/// `heapless::Vec::push`: appends the item, or hands it back and leaves the
/// vector as it is when it holds as many items as it has room for.
#[verifier::external_body]
fn environmental_push(items: &mut heapless::Vec<Bme280Data, 5>, item: Bme280Data) -> (pushed: Result<(), Bme280Data>)
    ensures
        environmental_items(*old(items)).len() < 5 ==> pushed.is_ok() && environmental_items(
            *final(items),
        ) == environmental_items(*old(items)).push(item),
        environmental_items(*old(items)).len() >= 5 ==> pushed.is_err() && pushed->Err_0 == item
            && environmental_items(*final(items)) == environmental_items(*old(items)),
{
    items.push(item)
}

/// `heapless::Vec::as_slice`: the items of the vector, in order, as a slice;
/// there are never more than the vector has room for.
#[verifier::external_body]
fn environmental_as_slice(items: &heapless::Vec<Bme280Data, 5>) -> (slice: &[Bme280Data])
    ensures
        slice@ == environmental_items(*items),
        slice@.len() <= 5,
{
    items.as_slice()
}

/// `heapless::Vec::new`: the new vector is empty.
#[verifier::external_body]
fn analog_new() -> (items: heapless::Vec<Ads1115Data, 5>)
    ensures
        analog_items(items) == Seq::<Ads1115Data>::empty(),
{
    heapless::Vec::new()
}

/// `heapless::Vec::push`: appends the item, or hands it back and leaves the
/// vector as it is when it holds as many items as it has room for.
#[verifier::external_body]
fn analog_push(items: &mut heapless::Vec<Ads1115Data, 5>, item: Ads1115Data) -> (pushed: Result<(), Ads1115Data>)
    ensures
        analog_items(*old(items)).len() < 5 ==> pushed.is_ok() && analog_items(*final(items))
            == analog_items(*old(items)).push(item),
        analog_items(*old(items)).len() >= 5 ==> pushed.is_err() && pushed->Err_0 == item
            && analog_items(*final(items)) == analog_items(*old(items)),
{
    items.push(item)
}

/// `heapless::Vec::as_slice`: the items of the vector, in order, as a slice;
/// there are never more than the vector has room for.
#[verifier::external_body]
fn analog_as_slice(items: &heapless::Vec<Ads1115Data, 5>) -> (slice: &[Ads1115Data])
    ensures
        slice@ == analog_items(*items),
        slice@.len() <= 5,
{
    items.as_slice()
}

/// The samples of the environmental sensor of one acquisition window.
pub struct EnvironmentalSamples {
    items: heapless::Vec<Bme280Data, 5>,
}

/// The samples of the converter of one acquisition window.
pub struct AnalogSamples {
    items: heapless::Vec<Ads1115Data, 5>,
}

impl EnvironmentalSamples {
    /// The samples collected so far, in the order they were taken.
    pub closed spec fn samples(&self) -> Seq<Bme280Data> {
        environmental_items(self.items)
    }

    /// Begins a window without samples.
    pub fn new() -> (set: Self)
        ensures
            set.samples() == Seq::<Bme280Data>::empty(),
    {
        EnvironmentalSamples { items: environmental_new() }
    }

    /// Returns the number of samples collected so far.
    pub fn len(&self) -> (count: usize)
        ensures
            count == self.samples().len(),
            count <= NUMBER_OF_SAMPLES,
    {
        environmental_as_slice(&self.items).len()
    }

    /// Adds a sample, and tells whether there was room for it. A window
    /// holds `NUMBER_OF_SAMPLES` samples; one that is full stays as it is.
    pub fn record(&mut self, sample: Bme280Data) -> (recorded: bool)
        ensures
            recorded == (old(self).samples().len() < NUMBER_OF_SAMPLES),
            recorded ==> final(self).samples() == old(self).samples().push(sample),
            !recorded ==> final(self).samples() == old(self).samples(),
    {
        let _ = environmental_as_slice(&self.items);
        environmental_push(&mut self.items, sample).is_ok()
    }

    /// Reduces the window to one reading that holds the mean of each
    /// measurement, or returns `None` for a window without samples.
    pub fn average(&self) -> (reading: Option<Bme280Data>)
        ensures
            self.samples().len() == 0 ==> reading.is_none(),
            self.samples().len() > 0 ==> reading == Some(environmental_mean(self.samples())),
    {
        let items = environmental_as_slice(&self.items);
        let count = items.len();
        if count == 0 {
            return None;
        }
        let mut sum_of_temperature: i128 = 0;
        let mut sum_of_humidity: i128 = 0;
        let mut sum_of_pressure: i128 = 0;
        let mut index: usize = 0;
        while index < count
            invariant
                index <= count == items@.len() <= 5,
                sum_of_temperature == total(temperatures(items@).subrange(0, index as int)),
                sum_of_humidity == total(humidities(items@).subrange(0, index as int)),
                sum_of_pressure == total(pressures(items@).subrange(0, index as int)),
            decreases count - index,
        {
            proof {
                let next = index as int + 1;
                lemma_total_bounds(temperatures(items@).subrange(0, index as int));
                lemma_total_bounds(humidities(items@).subrange(0, index as int));
                lemma_total_bounds(pressures(items@).subrange(0, index as int));
                assert(temperatures(items@).subrange(0, next).drop_last() =~= temperatures(
                    items@,
                ).subrange(0, index as int));
                assert(humidities(items@).subrange(0, next).drop_last() =~= humidities(
                    items@,
                ).subrange(0, index as int));
                assert(pressures(items@).subrange(0, next).drop_last() =~= pressures(
                    items@,
                ).subrange(0, index as int));
                assert(5 * i64::MIN <= index * i64::MIN && index * i64::MAX <= 5 * i64::MAX)
                    by (nonlinear_arith)
                    requires
                        0 <= index <= 5,
                ;
            }
            sum_of_temperature = sum_of_temperature + items[index].temperature as i128;
            sum_of_humidity = sum_of_humidity + items[index].humidity as i128;
            sum_of_pressure = sum_of_pressure + items[index].pressure as i128;
            index = index + 1;
        }
        proof {
            assert(temperatures(items@).subrange(0, count as int) =~= temperatures(items@));
            assert(humidities(items@).subrange(0, count as int) =~= humidities(items@));
            assert(pressures(items@).subrange(0, count as int) =~= pressures(items@));
            lemma_mean_is_arithmetic_mean(temperatures(items@));
            lemma_mean_is_arithmetic_mean(humidities(items@));
            lemma_mean_is_arithmetic_mean(pressures(items@));
            lemma_total_bounds(temperatures(items@));
            lemma_total_bounds(humidities(items@));
            lemma_total_bounds(pressures(items@));
            assert(5 * i64::MIN <= count * i64::MIN && count * i64::MAX <= 5 * i64::MAX)
                by (nonlinear_arith)
                requires
                    0 <= count <= 5,
            ;
        }
        Some(
            Bme280Data {
                temperature: mean_of_sum(sum_of_temperature, count) as i64,
                humidity: mean_of_sum(sum_of_humidity, count) as i64,
                pressure: mean_of_sum(sum_of_pressure, count) as i64,
            },
        )
    }
}

impl AnalogSamples {
    /// The samples collected so far, in the order they were taken.
    pub closed spec fn samples(&self) -> Seq<Ads1115Data> {
        analog_items(self.items)
    }

    /// Begins a window without samples.
    pub fn new() -> (set: Self)
        ensures
            set.samples() == Seq::<Ads1115Data>::empty(),
    {
        AnalogSamples { items: analog_new() }
    }

    /// Returns the number of samples collected so far.
    pub fn len(&self) -> (count: usize)
        ensures
            count == self.samples().len(),
            count <= NUMBER_OF_SAMPLES,
    {
        analog_as_slice(&self.items).len()
    }

    /// Adds a sample, and tells whether there was room for it. A window
    /// holds `NUMBER_OF_SAMPLES` samples; one that is full stays as it is.
    pub fn record(&mut self, sample: Ads1115Data) -> (recorded: bool)
        ensures
            recorded == (old(self).samples().len() < NUMBER_OF_SAMPLES),
            recorded ==> final(self).samples() == old(self).samples().push(sample),
            !recorded ==> final(self).samples() == old(self).samples(),
    {
        let _ = analog_as_slice(&self.items);
        analog_push(&mut self.items, sample).is_ok()
    }

    /// Reduces the window to one reading that holds the mean of each
    /// measurement, or returns `None` for a window without samples.
    pub fn average(&self) -> (reading: Option<Ads1115Data>)
        ensures
            self.samples().len() == 0 ==> reading.is_none(),
            self.samples().len() > 0 ==> reading == Some(analog_mean(self.samples())),
    {
        let items = analog_as_slice(&self.items);
        let count = items.len();
        if count == 0 {
            return None;
        }
        let mut sum_of_brightness: i128 = 0;
        let mut sum_of_battery_voltage: i128 = 0;
        let mut sum_of_sensor_voltage: i128 = 0;
        let mut sum_of_height: i128 = 0;
        let mut index: usize = 0;
        while index < count
            invariant
                index <= count == items@.len() <= 5,
                sum_of_brightness == total(brightnesses(items@).subrange(0, index as int)),
                sum_of_battery_voltage == total(
                    battery_voltages(items@).subrange(0, index as int),
                ),
                sum_of_sensor_voltage == total(
                    pressure_sensor_voltages(items@).subrange(0, index as int),
                ),
                sum_of_height == total(heights(items@).subrange(0, index as int)),
            decreases count - index,
        {
            proof {
                let next = index as int + 1;
                lemma_total_bounds(brightnesses(items@).subrange(0, index as int));
                lemma_total_bounds(battery_voltages(items@).subrange(0, index as int));
                lemma_total_bounds(pressure_sensor_voltages(items@).subrange(0, index as int));
                lemma_total_bounds(heights(items@).subrange(0, index as int));
                assert(brightnesses(items@).subrange(0, next).drop_last() =~= brightnesses(
                    items@,
                ).subrange(0, index as int));
                assert(battery_voltages(items@).subrange(0, next).drop_last()
                    =~= battery_voltages(items@).subrange(0, index as int));
                assert(pressure_sensor_voltages(items@).subrange(0, next).drop_last()
                    =~= pressure_sensor_voltages(items@).subrange(0, index as int));
                assert(heights(items@).subrange(0, next).drop_last() =~= heights(
                    items@,
                ).subrange(0, index as int));
                assert(5 * i64::MIN <= index * i64::MIN && index * i64::MAX <= 5 * i64::MAX)
                    by (nonlinear_arith)
                    requires
                        0 <= index <= 5,
                ;
            }
            sum_of_brightness = sum_of_brightness
                + items[index].enclosure_relative_brightness as i128;
            sum_of_battery_voltage = sum_of_battery_voltage + items[index].battery_voltage as i128;
            sum_of_sensor_voltage = sum_of_sensor_voltage
                + items[index].pressure_sensor_voltage as i128;
            sum_of_height = sum_of_height + items[index].height_above_sensor as i128;
            index = index + 1;
        }
        proof {
            assert(brightnesses(items@).subrange(0, count as int) =~= brightnesses(items@));
            assert(battery_voltages(items@).subrange(0, count as int) =~= battery_voltages(
                items@,
            ));
            assert(pressure_sensor_voltages(items@).subrange(0, count as int)
                =~= pressure_sensor_voltages(items@));
            assert(heights(items@).subrange(0, count as int) =~= heights(items@));
            lemma_mean_is_arithmetic_mean(brightnesses(items@));
            lemma_mean_is_arithmetic_mean(battery_voltages(items@));
            lemma_mean_is_arithmetic_mean(pressure_sensor_voltages(items@));
            lemma_mean_is_arithmetic_mean(heights(items@));
            lemma_total_bounds(brightnesses(items@));
            lemma_total_bounds(battery_voltages(items@));
            lemma_total_bounds(pressure_sensor_voltages(items@));
            lemma_total_bounds(heights(items@));
            assert(5 * i64::MIN <= count * i64::MIN && count * i64::MAX <= 5 * i64::MAX)
                by (nonlinear_arith)
                requires
                    0 <= count <= 5,
            ;
        }
        Some(
            Ads1115Data {
                enclosure_relative_brightness: mean_of_sum(sum_of_brightness, count) as i64,
                battery_voltage: mean_of_sum(sum_of_battery_voltage, count) as i64,
                pressure_sensor_voltage: mean_of_sum(sum_of_sensor_voltage, count) as i64,
                height_above_sensor: mean_of_sum(sum_of_height, count) as i64,
            },
        )
    }
}

} // verus!
