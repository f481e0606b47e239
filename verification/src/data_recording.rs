//! The metrics of one wake cycle as they go to the collector.

use crate::sensor_data::{Ads1115Data, Bme280Data};
use crate::timing::{decimal_digits, delivery_outcome, push_decimal, push_text};
use vstd::prelude::*;
use vstd::string::StringSliceAdditionalSpecFns;

verus! {

/// Path of the metrics endpoint at the collector.
pub const METRICS_URL_SUB_PATH: &'static str = "/api/v1/sensor";

/// Why a best-effort delivery did not arrive.
#[derive(Clone, Copy, Debug, PartialEq, Eq, Structural)]
pub enum Error {
    /// The collector answered with a status that is not a success.
    NonSuccessResponseCode,
    /// The request could not be sent or got no answer.
    RequestFailed,
}

/// Ten to the power of `exponent`.
pub open spec fn pow10(exponent: nat) -> nat
    decreases exponent,
{
    if exponent == 0 {
        1
    } else {
        10 * pow10((exponent - 1) as nat)
    }
}

/// The last `width` decimal digits of a number, with leading zeros.
pub open spec fn padded_digits(value: nat, width: nat) -> Seq<u8>
    decreases width,
{
    if width == 0 {
        Seq::<u8>::empty()
    } else {
        padded_digits(value / 10, (width - 1) as nat).push((48 + value % 10) as u8)
    }
}

/// A magnitude in millionths, in units of the last of `decimals` decimal
/// places, halves rounded up.
pub open spec fn rounded_to(magnitude: nat, decimals: nat) -> nat {
    (magnitude + pow10((6 - decimals) as nat) / 2) / pow10((6 - decimals) as nat)
}

/// A value in millionths written with `decimals` decimal places: a minus
/// sign where the value is negative and does not round to zero, the whole
/// part, a point, and the decimal places.
pub open spec fn fixed_point(value: int, decimals: nat) -> Seq<u8> {
    let magnitude = if value < 0 {
        (-value) as nat
    } else {
        value as nat
    };
    let rounded = rounded_to(magnitude, decimals);
    let sign = if value < 0 && rounded > 0 {
        seq![45u8]
    } else {
        Seq::<u8>::empty()
    };
    sign + decimal_digits(rounded / pow10(decimals)) + seq![46u8] + padded_digits(
        rounded % pow10(decimals),
        decimals,
    )
}

/// The body of the metrics report: one JSON object with the device and its
/// firmware, the boot count, the run time and the time the link took in
/// seconds, and the readings in degrees Celsius, percent, pascal, volts and
/// metres, followed by a line feed. The temperature of the tank is that of
/// the enclosure.
pub open spec fn metrics(
    device_id: Seq<u8>,
    firmware_version: Seq<u8>,
    boot_count: u32,
    bme280_data: Bme280Data,
    ads1115_data: Ads1115Data,
    run_time_in_micro_seconds: u64,
    wifi_start_time: u64,
) -> Seq<u8> {
    "{\"device_id\":\"".spec_bytes() + device_id + "\",\"firmware_version\":\"".spec_bytes()
        + firmware_version + "\",\"boot_count\":".spec_bytes() + decimal_digits(boot_count as nat)
        + ",\"run_time_in_seconds\":".spec_bytes() + fixed_point(
        run_time_in_micro_seconds as int,
        3,
    ) + ",\"wifi_start_time_in_seconds\":".spec_bytes() + fixed_point(wifi_start_time as int, 3)
        + ",\"temperature_in_celcius\":".spec_bytes() + fixed_point(
        bme280_data.temperature as int,
        2,
    ) + ",\"humidity_in_percent\":".spec_bytes() + fixed_point(bme280_data.humidity as int, 2)
        + ",\"pressure_in_pascal\":".spec_bytes() + fixed_point(bme280_data.pressure * 100, 1)
        + ",\"brightness_in_percent\":".spec_bytes() + fixed_point(
        ads1115_data.enclosure_relative_brightness as int,
        3,
    ) + ",\"battery_voltage\":".spec_bytes() + fixed_point(ads1115_data.battery_voltage as int, 3)
        + ",\"pressure_sensor_voltage\":".spec_bytes() + fixed_point(
        ads1115_data.pressure_sensor_voltage as int,
        3,
    ) + ",\"tank_level_in_meters\":".spec_bytes() + fixed_point(
        ads1115_data.height_above_sensor as int,
        3,
    ) + ",\"tank_temperature_in_celcius\":".spec_bytes() + fixed_point(
        bme280_data.temperature as int,
        2,
    ) + "}\n".spec_bytes()
}

/// The run time: the time from the start of the system to now, both in
/// microseconds on the same clock, and nothing where now lies before the
/// start.
pub open spec fn run_time(system_start_time: u64, current_time: u64) -> Option<u64> {
    if current_time >= system_start_time {
        Some((current_time - system_start_time) as u64)
    } else {
        None
    }
}

/// The first powers of ten.
proof fn lemma_pow10_values()
    ensures
        pow10(0) == 1,
        pow10(1) == 10,
        pow10(2) == 100,
        pow10(3) == 1_000,
        pow10(4) == 10_000,
        pow10(5) == 100_000,
        pow10(6) == 1_000_000,
{
    reveal_with_fuel(pow10, 8);
}

/// Appends the last `width` decimal digits of `value`, with leading zeros.
fn push_padded(buffer: &mut Vec<u8>, value: u64, width: u8)
    ensures
        final(buffer)@ == old(buffer)@ + padded_digits(value as nat, width as nat),
{
    let mut digits: Vec<u8> = Vec::new();
    let mut rest: u64 = value;
    let mut left: u8 = width;
    while left > 0
        invariant
            padded_digits(value as nat, width as nat) == padded_digits(rest as nat, left as nat)
                + digits@,
        decreases left,
    {
        let ghost before = digits@;
        digits.insert(0, 48 + (rest % 10) as u8);
        proof {
            let digit = (48 + rest % 10) as u8;
            assert(digits@ =~= seq![digit] + before);
            assert(padded_digits(rest as nat, left as nat) =~= padded_digits(
                (rest / 10) as nat,
                (left - 1) as nat,
            ) + seq![digit]);
            assert(padded_digits(value as nat, width as nat) =~= padded_digits(
                (rest / 10) as nat,
                (left - 1) as nat,
            ) + digits@);
        }
        rest = rest / 10;
        left = left - 1;
    }
    let mut index: usize = 0;
    while index < digits.len()
        invariant
            index <= digits@.len(),
            digits@ == padded_digits(value as nat, width as nat),
            buffer@ == old(buffer)@ + digits@.subrange(0, index as int),
        decreases digits@.len() - index,
    {
        buffer.push(digits[index]);
        index = index + 1;
        proof {
            assert(buffer@ =~= old(buffer)@ + digits@.subrange(0, index as int));
        }
    }
    proof {
        assert(padded_digits(rest as nat, 0) =~= Seq::<u8>::empty());
        assert(digits@.subrange(0, index as int) =~= digits@);
    }
}

/// Appends a value in millionths with one, two or three decimal places.
fn push_fixed(buffer: &mut Vec<u8>, value: i128, decimals: u8)
    requires
        1 <= decimals <= 3,
        -0x40_0000_0000_0000_0000 <= value <= 0x40_0000_0000_0000_0000,
    ensures
        final(buffer)@ == old(buffer)@ + fixed_point(value as int, decimals as nat),
{
    proof {
        lemma_pow10_values();
    }
    let negative = value < 0;
    let magnitude: u128 = if negative {
        (-value) as u128
    } else {
        value as u128
    };
    let unit: u128 = if decimals == 1 {
        100_000
    } else if decimals == 2 {
        10_000
    } else {
        1_000
    };
    let scale: u128 = if decimals == 1 {
        10
    } else if decimals == 2 {
        100
    } else {
        1_000
    };
    let rounded: u128 = (magnitude + unit / 2) / unit;
    let whole: u64 = (rounded / scale) as u64;
    let part: u64 = (rounded % scale) as u64;
    let ghost start = buffer@;
    if negative && rounded > 0 {
        buffer.push(45);
    }
    push_decimal(buffer, whole);
    buffer.push(46);
    push_padded(buffer, part, decimals);
    proof {
        assert(buffer@ =~= start + fixed_point(value as int, decimals as nat));
    }
}

/// Writes the body of the metrics report.
pub fn format_metrics(
    device_id: &str,
    firmware_version: &str,
    boot_count: u32,
    bme280_data: Bme280Data,
    ads1115_data: Ads1115Data,
    run_time_in_micro_seconds: u64,
    wifi_start_time: u64,
) -> (body: Vec<u8>)
    ensures
        body@ == metrics(
            device_id.spec_bytes(),
            firmware_version.spec_bytes(),
            boot_count,
            bme280_data,
            ads1115_data,
            run_time_in_micro_seconds,
            wifi_start_time,
        ),
{
    let mut body: Vec<u8> = Vec::new();
    push_text(&mut body, "{\"device_id\":\"");
    push_text(&mut body, device_id);
    push_text(&mut body, "\",\"firmware_version\":\"");
    push_text(&mut body, firmware_version);
    push_text(&mut body, "\",\"boot_count\":");
    push_decimal(&mut body, boot_count as u64);
    push_text(&mut body, ",\"run_time_in_seconds\":");
    push_fixed(&mut body, run_time_in_micro_seconds as i128, 3);
    push_text(&mut body, ",\"wifi_start_time_in_seconds\":");
    push_fixed(&mut body, wifi_start_time as i128, 3);
    push_text(&mut body, ",\"temperature_in_celcius\":");
    push_fixed(&mut body, bme280_data.temperature as i128, 2);
    push_text(&mut body, ",\"humidity_in_percent\":");
    push_fixed(&mut body, bme280_data.humidity as i128, 2);
    push_text(&mut body, ",\"pressure_in_pascal\":");
    push_fixed(&mut body, bme280_data.pressure as i128 * 100, 1);
    push_text(&mut body, ",\"brightness_in_percent\":");
    push_fixed(&mut body, ads1115_data.enclosure_relative_brightness as i128, 3);
    push_text(&mut body, ",\"battery_voltage\":");
    push_fixed(&mut body, ads1115_data.battery_voltage as i128, 3);
    push_text(&mut body, ",\"pressure_sensor_voltage\":");
    push_fixed(&mut body, ads1115_data.pressure_sensor_voltage as i128, 3);
    push_text(&mut body, ",\"tank_level_in_meters\":");
    push_fixed(&mut body, ads1115_data.height_above_sensor as i128, 3);
    push_text(&mut body, ",\"tank_temperature_in_celcius\":");
    push_fixed(&mut body, bme280_data.temperature as i128, 2);
    push_text(&mut body, "}\n");
    proof {
        assert(body@ =~= metrics(
            device_id.spec_bytes(),
            firmware_version.spec_bytes(),
            boot_count,
            bme280_data,
            ads1115_data,
            run_time_in_micro_seconds,
            wifi_start_time,
        ));
    }
    body
}

/// Computes the run time of the system for the metrics report, or `None`
/// where the current time lies before the start.
pub fn run_time_in_micro_seconds(system_start_time: u64, current_time: u64) -> (elapsed: Option<
    u64,
>)
    ensures
        elapsed == run_time(system_start_time, current_time),
{
    current_time.checked_sub(system_start_time)
}

/// Judges the one attempt to deliver the metrics: a status code from 200 to
/// 299 is a success, any other is `NonSuccessResponseCode`, and no answer at
/// all is `RequestFailed`. There is no second attempt.
pub fn send_metrics_to_server(response: Option<u16>) -> (outcome: Result<(), Error>)
    ensures
        outcome == match delivery_outcome(response) {
            Ok(()) => Ok::<(), Error>(()),
            Err(crate::timing::Error::NonSuccessResponseCode) => Err(
                Error::NonSuccessResponseCode,
            ),
            Err(crate::timing::Error::RequestFailed) => Err(Error::RequestFailed),
        },
{
    match response {
        Some(status) => {
            if 200 <= status && status < 300 {
                Ok(())
            } else {
                Err(Error::NonSuccessResponseCode)
            }
        },
        None => Err(Error::RequestFailed),
    }
}

} // verus!
