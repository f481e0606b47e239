//! From the counts of the converter to voltages and heights.

use crate::sensor_data::Ads1115Data;
use vstd::prelude::*;

verus! {

/// Full scale of the converter, in microvolts, reached at 32768 counts.
pub const ADC_FULL_SCALE: i64 = 2_048_000;

/// Voltage across the output resistor of the pressure sensor at the low end
/// of its range (4 mA), in microvolts per ohm.
pub const MIN_CURRENT_MICROVOLTS_PER_OHM: i64 = 4_000;

/// Span of the voltage across the output resistor over the range of the
/// pressure sensor (4 mA to 20 mA), in microvolts per ohm.
pub const CURRENT_RANGE_MICROVOLTS_PER_OHM: i64 = 16_000;

/// The quotient of `numerator` by a positive `denominator`, rounded towards
/// zero.
pub open spec fn toward_zero(numerator: int, denominator: int) -> int {
    if numerator >= 0 {
        numerator / denominator
    } else {
        -((-numerator) / denominator)
    }
}

/// The voltage at the input of the converter for a count: the full scale of
/// 2.048 V is spread over 32768 counts.
pub open spec fn ads1115_voltage(measured_value: int) -> int {
    toward_zero(measured_value * ADC_FULL_SCALE, 32768)
}

/// The voltage that lies across a voltage divider when `output_voltage` is
/// measured across the resistor after the probe.
pub open spec fn divider_input(
    output_voltage: int,
    resistor_before_probe: int,
    resistor_after_probe: int,
) -> int {
    toward_zero(
        output_voltage * (resistor_before_probe + resistor_after_probe),
        resistor_after_probe,
    )
}

/// The height of the liquid that a 4-20 mA pressure sensor reports by the
/// voltage across its output resistor: nothing at 4 mA, the maximum height
/// at 20 mA, and in proportion between and beyond.
pub open spec fn water_height(voltage: int, resistor: int, sensor_maximum_height: int) -> int {
    toward_zero(
        (voltage - MIN_CURRENT_MICROVOLTS_PER_OHM * resistor) * sensor_maximum_height,
        CURRENT_RANGE_MICROVOLTS_PER_OHM * resistor,
    )
}

/// Whether `value` can be held in an `i64`.
pub open spec fn fits_i64(value: int) -> bool {
    i64::MIN <= value <= i64::MAX
}

/// Divides a magnitude and puts the sign back, if the result can be held.
fn signed_quotient(negative: bool, magnitude: u128, denominator: u128) -> (quotient: Option<i64>)
    requires
        denominator > 0,
    ensures
        quotient == (if fits_i64(signed(negative, magnitude as int / denominator as int)) {
            Some(signed(negative, magnitude as int / denominator as int) as i64)
        } else {
            None
        }),
{
    let whole: u128 = magnitude / denominator;
    if negative {
        if whole > 0x8000_0000_0000_0000u128 {
            None
        } else if whole == 0x8000_0000_0000_0000u128 {
            Some(i64::MIN)
        } else {
            Some(-(whole as i64))
        }
    } else {
        if whole > 0x7fff_ffff_ffff_ffffu128 {
            None
        } else {
            Some(whole as i64)
        }
    }
}

/// `magnitude` with its sign.
pub open spec fn signed(negative: bool, magnitude: int) -> int {
    if negative {
        -magnitude
    } else {
        magnitude
    }
}

/// Converts a count of the converter into the voltage at its input.
pub fn calculate_ads1115_voltage(measured_value: i16) -> (voltage: i64)
    ensures
        voltage == ads1115_voltage(measured_value as int),
        -ADC_FULL_SCALE <= voltage < ADC_FULL_SCALE,
{
    // 2_048_000 / 32768 is 125 / 2.
    let scaled: i64 = (measured_value as i64) * 125;
    proof {
        let count = measured_value as int;
        assert(count * ADC_FULL_SCALE == (count * 125) * 16384) by (nonlinear_arith)
            requires
                ADC_FULL_SCALE == 2_048_000,
        ;
        if count >= 0 {
            assert(((count * 125) * 16384) / 32768 == (count * 125) / 2) by (nonlinear_arith)
                requires
                    count >= 0,
            ;
        } else {
            assert(-(count * ADC_FULL_SCALE) == ((-count) * 125) * 16384) by (nonlinear_arith)
                requires
                    ADC_FULL_SCALE == 2_048_000,
            ;
            assert((((-count) * 125) * 16384) / 32768 == ((-count) * 125) / 2)
                by (nonlinear_arith)
                requires
                    count < 0,
            ;
            assert(-(count * 125) == (-count) * 125) by (nonlinear_arith);
        }
    }
    if scaled >= 0 {
        scaled / 2
    } else {
        -((-scaled) / 2)
    }
}

/// Computes the voltage across a voltage divider from the voltage measured
/// across the resistor after the probe.
///
/// Returns `None` where the resistor after the probe is zero and where the
/// result cannot be held in an `i64`.
pub fn calculate_input_voltage_for_voltage_divider(
    output_voltage: i64,
    resistor_before_probe: u32,
    resistor_after_probe: u32,
) -> (input_voltage: Option<i64>)
    ensures
        input_voltage == (if resistor_after_probe != 0 && fits_i64(
            divider_input(
                output_voltage as int,
                resistor_before_probe as int,
                resistor_after_probe as int,
            ),
        ) {
            Some(
                divider_input(
                    output_voltage as int,
                    resistor_before_probe as int,
                    resistor_after_probe as int,
                ) as i64,
            )
        } else {
            None
        }),
{
    if resistor_after_probe == 0 {
        return None;
    }
    let total: u128 = resistor_before_probe as u128 + resistor_after_probe as u128;
    let negative = output_voltage < 0;
    let magnitude: u128 = if negative {
        (-(output_voltage as i128)) as u128
    } else {
        output_voltage as u128
    };
    assert(magnitude * total <= 0x8000_0000_0000_0000 * 0x2_0000_0000) by (nonlinear_arith)
        requires
            magnitude <= 0x8000_0000_0000_0000,
            total <= 0x2_0000_0000,
    ;
    proof {
        let out = output_voltage as int;
        let sum = resistor_before_probe as int + resistor_after_probe as int;
        if negative {
            assert(-(out * sum) == (-out) * sum) by (nonlinear_arith);
            assert(out * sum < 0) by (nonlinear_arith)
                requires
                    out < 0,
                    sum > 0,
            ;
        } else {
            assert(out * sum >= 0) by (nonlinear_arith)
                requires
                    out >= 0,
                    sum > 0,
            ;
        }
    }
    signed_quotient(negative, magnitude * total, resistor_after_probe as u128)
}

/// Computes the height of the liquid above a 4-20 mA pressure sensor from
/// the voltage across its output resistor.
///
/// Returns `None` where the resistor is zero and where the result cannot be
/// held in an `i64`.
pub fn calculate_water_height_from_pressure_sensor_voltage(
    voltage: i64,
    resistor: u32,
    sensor_maximum_height: u32,
) -> (height: Option<i64>)
    ensures
        height == (if resistor != 0 && fits_i64(
            water_height(voltage as int, resistor as int, sensor_maximum_height as int),
        ) {
            Some(
                water_height(voltage as int, resistor as int, sensor_maximum_height as int) as i64,
            )
        } else {
            None
        }),
{
    if resistor == 0 {
        return None;
    }
    assert(MIN_CURRENT_MICROVOLTS_PER_OHM == 4_000 && CURRENT_RANGE_MICROVOLTS_PER_OHM == 16_000);
    let min_voltage: i128 = 4_000i128 * resistor as i128;
    let range: u128 = 16_000u128 * resistor as u128;
    let above: i128 = voltage as i128 - min_voltage;
    let negative = above < 0;
    let magnitude: u128 = if negative {
        (-above) as u128
    } else {
        above as u128
    };
    assert(magnitude * sensor_maximum_height <= 0x8000_4000_0000_0000_0000 * 0x1_0000_0000)
        by (nonlinear_arith)
        requires
            magnitude <= 0x8000_4000_0000_0000_0000,
            sensor_maximum_height <= 0x1_0000_0000,
    ;
    proof {
        let rel = above as int;
        let top = sensor_maximum_height as int;
        if negative {
            assert(-(rel * top) == (-rel) * top) by (nonlinear_arith);
            assert(rel * top <= 0) by (nonlinear_arith)
                requires
                    rel < 0,
                    top >= 0,
            ;
            if rel * top == 0 {
                assert((-rel) * top == 0);
            }
        } else {
            assert(rel * top >= 0) by (nonlinear_arith)
                requires
                    rel >= 0,
                    top >= 0,
            ;
        }
    }
    signed_quotient(negative, magnitude * sensor_maximum_height as u128, range)
}

/// The constants of the board that the conversions depend on.
pub struct BoardComponents {
    mpu_output_voltage: u32,
    battery_resistor_before_probe: u32,
    battery_resistor_after_probe: u32,
    pressure_sensor_resistor_before_probe: u32,
    pressure_sensor_resistor_after_probe: u32,
    pressure_sensor_output_resistor: u32,
    pressure_sensor_maximum_height: u32,
}

/// The four counts of one sample of the converter.
#[derive(Clone, Copy, Debug, PartialEq, Eq, Structural)]
pub struct RawVoltages {
    /// Channel 0: the light-dependent resistor.
    pub brightness: i16,
    /// Channel 1: the output of the pressure sensor.
    pub pressure_sensor_output: i16,
    /// Channel 2: the supply of the pressure sensor, behind its divider.
    pub pressure_sensor_supply: i16,
    /// Channel 3: the battery, behind its divider.
    pub battery: i16,
}

/// The count that a random number stands for in a synthetic sample: as far
/// into the range from zero to the largest count as the seed is into the
/// range of `u32`, rounded down.
pub open spec fn synthetic_count(seed: u32) -> i16 {
    ((seed * 32767) / (u32::MAX as int)) as i16
}

/// The counts of a synthetic sample, made of four random numbers.
pub open spec fn synthetic_voltages(
    brightness_seed: u32,
    pressure_sensor_output_seed: u32,
    pressure_sensor_supply_seed: u32,
    battery_seed: u32,
) -> RawVoltages {
    RawVoltages {
        brightness: synthetic_count(brightness_seed),
        pressure_sensor_output: synthetic_count(pressure_sensor_output_seed),
        pressure_sensor_supply: synthetic_count(pressure_sensor_supply_seed),
        battery: synthetic_count(battery_seed),
    }
}

fn count_of(seed: u32) -> (count: i16)
    ensures
        count == synthetic_count(seed),
        0 <= count <= 32767,
{
    assert((seed * 32767) / 0xffff_ffff <= 32767) by (nonlinear_arith)
        requires
            0 <= seed <= 0xffff_ffff,
    ;
    assert(seed * 32767 <= 0xffff_ffff * 32767) by (nonlinear_arith)
        requires
            0 <= seed <= 0xffff_ffff,
    ;
    ((seed as u64 * 32767) / (u32::MAX as u64)) as i16
}

impl RawVoltages {
    /// Makes the counts of a synthetic sample from four random numbers: each
    /// count lies between zero and the largest the converter gives, as far
    /// into this range as its seed is into the range of `u32`.
    pub fn random(
        brightness_seed: u32,
        pressure_sensor_output_seed: u32,
        pressure_sensor_supply_seed: u32,
        battery_seed: u32,
    ) -> (raw: Self)
        ensures
            raw == synthetic_voltages(
                brightness_seed,
                pressure_sensor_output_seed,
                pressure_sensor_supply_seed,
                battery_seed,
            ),
            0 <= raw.brightness <= 32767,
            0 <= raw.pressure_sensor_output <= 32767,
            0 <= raw.pressure_sensor_supply <= 32767,
            0 <= raw.battery <= 32767,
    {
        RawVoltages {
            brightness: count_of(brightness_seed),
            pressure_sensor_output: count_of(pressure_sensor_output_seed),
            pressure_sensor_supply: count_of(pressure_sensor_supply_seed),
            battery: count_of(battery_seed),
        }
    }
}

impl BoardComponents {
    #[verifier::type_invariant]
    closed spec fn divisors_nonzero(self) -> bool {
        &&& self.mpu_output_voltage > 0
        &&& self.battery_resistor_after_probe > 0
        &&& self.pressure_sensor_resistor_after_probe > 0
        &&& self.pressure_sensor_output_resistor > 0
    }

    /// Supply voltage of the processor, in microvolts.
    pub closed spec fn mpu_output_voltage(&self) -> u32 {
        self.mpu_output_voltage
    }

    /// The divider in front of the battery channel: the resistor before the
    /// probe and the one after it.
    pub closed spec fn battery_divider(&self) -> (u32, u32) {
        (self.battery_resistor_before_probe, self.battery_resistor_after_probe)
    }

    /// The divider in front of the channel of the pressure sensor's supply.
    pub closed spec fn pressure_sensor_divider(&self) -> (u32, u32) {
        (self.pressure_sensor_resistor_before_probe, self.pressure_sensor_resistor_after_probe)
    }

    /// The output resistor of the pressure sensor.
    pub closed spec fn pressure_sensor_output_resistor(&self) -> u32 {
        self.pressure_sensor_output_resistor
    }

    /// The height at which the pressure sensor reaches the end of its range.
    pub closed spec fn pressure_sensor_maximum_height(&self) -> u32 {
        self.pressure_sensor_maximum_height
    }

    /// The reading that the four counts of a sample stand for on this board.
    pub open spec fn reading(&self, raw: RawVoltages) -> Ads1115Data {
        Ads1115Data {
            enclosure_relative_brightness: toward_zero(
                ads1115_voltage(raw.brightness as int) * 1_000_000,
                self.mpu_output_voltage() as int,
            ) as i64,
            battery_voltage: divider_input(
                ads1115_voltage(raw.battery as int),
                self.battery_divider().0 as int,
                self.battery_divider().1 as int,
            ) as i64,
            pressure_sensor_voltage: divider_input(
                ads1115_voltage(raw.pressure_sensor_supply as int),
                self.pressure_sensor_divider().0 as int,
                self.pressure_sensor_divider().1 as int,
            ) as i64,
            height_above_sensor: water_height(
                ads1115_voltage(raw.pressure_sensor_output as int),
                self.pressure_sensor_output_resistor() as int,
                self.pressure_sensor_maximum_height() as int,
            ) as i64,
        }
    }

    /// The supply voltage of the pressure sensor that a count stands for on
    /// this board.
    pub open spec fn supply_voltage(&self, measured_value: i16) -> int {
        divider_input(
            ads1115_voltage(measured_value as int),
            self.pressure_sensor_divider().0 as int,
            self.pressure_sensor_divider().1 as int,
        )
    }

    /// Takes the constants of a board, or returns `None` where one of those
    /// that a conversion divides by is zero: the supply voltage, a resistor
    /// after a probe, or the output resistor of the pressure sensor.
    pub fn new(
        mpu_output_voltage: u32,
        battery_divider: (u32, u32),
        pressure_sensor_divider: (u32, u32),
        pressure_sensor_output_resistor: u32,
        pressure_sensor_maximum_height: u32,
    ) -> (board: Option<Self>)
        ensures
            board.is_some() == (mpu_output_voltage > 0 && battery_divider.1 > 0
                && pressure_sensor_divider.1 > 0 && pressure_sensor_output_resistor > 0),
            board.is_some() ==> board.unwrap().mpu_output_voltage() == mpu_output_voltage
                && board.unwrap().battery_divider() == battery_divider
                && board.unwrap().pressure_sensor_divider() == pressure_sensor_divider
                && board.unwrap().pressure_sensor_output_resistor()
                == pressure_sensor_output_resistor
                && board.unwrap().pressure_sensor_maximum_height()
                == pressure_sensor_maximum_height,
    {
        if mpu_output_voltage == 0 || battery_divider.1 == 0 || pressure_sensor_divider.1 == 0
            || pressure_sensor_output_resistor == 0 {
            None
        } else {
            Some(
                BoardComponents {
                    mpu_output_voltage,
                    battery_resistor_before_probe: battery_divider.0,
                    battery_resistor_after_probe: battery_divider.1,
                    pressure_sensor_resistor_before_probe: pressure_sensor_divider.0,
                    pressure_sensor_resistor_after_probe: pressure_sensor_divider.1,
                    pressure_sensor_output_resistor,
                    pressure_sensor_maximum_height,
                },
            )
        }
    }

    /// Converts the count of the channel of the pressure sensor's supply
    /// into the supply voltage.
    pub fn pressure_sensor_voltage(&self, measured_value: i16) -> (voltage: i64)
        ensures
            voltage == self.supply_voltage(measured_value),
    {
        proof {
            use_type_invariant(self);
        }
        let at_probe = calculate_ads1115_voltage(measured_value);
        proof {
            lemma_divider_fits(
                at_probe as int,
                self.pressure_sensor_resistor_before_probe as int,
                self.pressure_sensor_resistor_after_probe as int,
            );
        }
        calculate_input_voltage_for_voltage_divider(
            at_probe,
            self.pressure_sensor_resistor_before_probe,
            self.pressure_sensor_resistor_after_probe,
        ).unwrap()
    }
}

/// The quotient rounded towards zero is no larger in magnitude than the
/// numerator.
pub proof fn lemma_toward_zero_bound(numerator: int, denominator: int)
    requires
        denominator > 0,
    ensures
        numerator >= 0 ==> 0 <= toward_zero(numerator, denominator) <= numerator,
        numerator <= 0 ==> numerator <= toward_zero(numerator, denominator) <= 0,
{
    if numerator >= 0 {
        assert(0 <= numerator / denominator <= numerator) by (nonlinear_arith)
            requires
                numerator >= 0,
                denominator > 0,
        ;
    } else {
        let positive = -numerator;
        assert(0 <= positive / denominator <= positive) by (nonlinear_arith)
            requires
                positive >= 0,
                denominator > 0,
        ;
    }
}

/// What a converter can count lies, seen through any divider of 32-bit
/// resistors, well within what an `i64` holds.
proof fn lemma_divider_fits(at_probe: int, before: int, after: int)
    requires
        -ADC_FULL_SCALE <= at_probe < ADC_FULL_SCALE,
        0 <= before <= u32::MAX,
        0 < after <= u32::MAX,
    ensures
        fits_i64(divider_input(at_probe, before, after)),
{
    let sum = before + after;
    let numerator = at_probe * sum;
    assert(-2_048_000 * 0x2_0000_0000 <= numerator <= 2_048_000 * 0x2_0000_0000)
        by (nonlinear_arith)
        requires
            numerator == at_probe * sum,
            -2_048_000 <= at_probe < 2_048_000,
            0 < sum <= 0x2_0000_0000,
    ;
    lemma_toward_zero_bound(numerator, after);
}

/// Converts the four counts of one sample into a reading: the brightness as
/// a share of the supply voltage, the battery and the supply of the
/// pressure sensor through their dividers, and the height of the liquid.
pub fn sample_voltage_data(raw: RawVoltages, board: &BoardComponents) -> (sample: Ads1115Data)
    ensures
        sample == board.reading(raw),
{
    proof {
        use_type_invariant(board);
    }
    let brightness_voltage = calculate_ads1115_voltage(raw.brightness);
    let battery_at_probe = calculate_ads1115_voltage(raw.battery);
    let supply_at_probe = calculate_ads1115_voltage(raw.pressure_sensor_supply);
    let output_voltage = calculate_ads1115_voltage(raw.pressure_sensor_output);
    proof {
        lemma_divider_fits(
            battery_at_probe as int,
            board.battery_resistor_before_probe as int,
            board.battery_resistor_after_probe as int,
        );
        lemma_divider_fits(
            supply_at_probe as int,
            board.pressure_sensor_resistor_before_probe as int,
            board.pressure_sensor_resistor_after_probe as int,
        );
        lemma_height_fits(
            output_voltage as int,
            board.pressure_sensor_output_resistor as int,
            board.pressure_sensor_maximum_height as int,
        );
        lemma_toward_zero_bound(brightness_voltage * 1_000_000, board.mpu_output_voltage as int);
    }
    let scaled: i64 = brightness_voltage * 1_000_000;
    let divisor: i64 = board.mpu_output_voltage as i64;
    let brightness: i64 = if scaled >= 0 {
        scaled / divisor
    } else {
        -((-scaled) / divisor)
    };
    let battery_voltage = calculate_input_voltage_for_voltage_divider(
        battery_at_probe,
        board.battery_resistor_before_probe,
        board.battery_resistor_after_probe,
    );
    let pressure_sensor_voltage = calculate_input_voltage_for_voltage_divider(
        supply_at_probe,
        board.pressure_sensor_resistor_before_probe,
        board.pressure_sensor_resistor_after_probe,
    );
    let height = calculate_water_height_from_pressure_sensor_voltage(
        output_voltage,
        board.pressure_sensor_output_resistor,
        board.pressure_sensor_maximum_height,
    );
    Ads1115Data {
        enclosure_relative_brightness: brightness,
        battery_voltage: battery_voltage.unwrap(),
        pressure_sensor_voltage: pressure_sensor_voltage.unwrap(),
        height_above_sensor: height.unwrap(),
    }
}

/// The height that a converter can count towards lies, for any 32-bit
/// resistor and maximum height, within what an `i64` holds.
proof fn lemma_height_fits(voltage: int, resistor: int, top: int)
    requires
        -ADC_FULL_SCALE <= voltage < ADC_FULL_SCALE,
        0 < resistor <= u32::MAX,
        0 <= top <= u32::MAX,
    ensures
        fits_i64(water_height(voltage, resistor, top)),
{
    let above = voltage - MIN_CURRENT_MICROVOLTS_PER_OHM * resistor;
    let numerator = above * top;
    let denominator = CURRENT_RANGE_MICROVOLTS_PER_OHM * resistor;
    // |above| is at most 2_048_000 + 4_000 * resistor, which is below
    // 16_000 * resistor * 129, so the quotient stays below 129 * top.
    if numerator >= 0 {
        assert(numerator / denominator <= 129 * top) by (nonlinear_arith)
            requires
                numerator == above * top,
                denominator == 16_000 * resistor,
                -2_048_000 - 4_000 * resistor <= above < 2_048_000,
                0 < resistor,
                0 <= top,
                numerator >= 0,
        {
            assert(above * top <= 2_048_000 * top);
            assert(numerator <= (129 * top) * denominator);
        }
    } else {
        let positive = -numerator;
        assert(positive / denominator <= 129 * top) by (nonlinear_arith)
            requires
                positive == -(above * top),
                denominator == 16_000 * resistor,
                -2_048_000 - 4_000 * resistor <= above < 2_048_000,
                0 < resistor,
                0 <= top,
                positive > 0,
        {
            assert((-above) * top <= (2_048_000 + 4_000 * resistor) * top);
            assert(2_048_000 + 4_000 * resistor <= 129 * denominator);
            assert(positive <= (129 * top) * denominator);
        }
        assert(positive / denominator >= 0) by (nonlinear_arith)
            requires
                positive > 0,
                denominator > 0,
        ;
    }
    if numerator >= 0 {
        assert(numerator / denominator >= 0) by (nonlinear_arith)
            requires
                numerator >= 0,
                denominator > 0,
        ;
    }
}

} // verus!
