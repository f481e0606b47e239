//! The bounded wait for a stable supply of the pressure sensor.

use crate::sensor::SensorError;
use vstd::prelude::*;

verus! {

/// Time between two looks at the voltage of the pressure sensor, in
/// milliseconds.
pub const PRESSURE_SENSOR_VOLTAGE_STABILIZATION_CHECK_INTERVAL_IN_MILLISECONDS: u64 = 10;

/// The voltage the pressure sensor is supplied with, in microvolts.
pub const EXPECTED_PRESSURE_SENSOR_VOLTAGE: i64 = 24_000_000;

/// How far from the expected voltage a look may be and still count as
/// stable, in microvolts; the bound itself does not count.
pub const PRESSURE_SENSOR_VOLTAGE_TOLERANCE: i64 = 200_000;

/// Looks in a row that must be stable before sampling begins.
pub const STABLE_POLLS_REQUIRED: u8 = 10;

/// How far the wait for a stable supply of the pressure sensor has come.
#[derive(Clone, Copy, Debug, PartialEq, Eq, Structural)]
pub struct Stabilization {
    /// Stable looks in a row, up to the last one.
    pub stable_count: u8,
    /// Looks taken.
    pub polls: u32,
    /// Looks allowed.
    pub poll_limit: u32,
}

/// What follows a look at the voltage.
#[derive(Clone, Copy, Debug, PartialEq, Eq, Structural)]
pub enum StabilizationStep {
    /// Wait the check interval and look again.
    PollAgain,
    /// The supply is stable: sampling may begin.
    Stable,
    /// The wait is over without a stable supply.
    Failed(SensorError),
}

/// Whether a voltage is within the tolerance of the expected supply.
pub open spec fn in_band(voltage: int) -> bool {
    -PRESSURE_SENSOR_VOLTAGE_TOLERANCE < EXPECTED_PRESSURE_SENSOR_VOLTAGE - voltage
        < PRESSURE_SENSOR_VOLTAGE_TOLERANCE
}

/// The state of the wait and what follows after one more look.
pub open spec fn stabilization_next(state: Stabilization, voltage: i64) -> (
    Stabilization,
    StabilizationStep,
) {
    let polls = if state.polls < u32::MAX {
        (state.polls + 1) as u32
    } else {
        state.polls
    };
    if in_band(voltage as int) && state.stable_count + 1 >= STABLE_POLLS_REQUIRED {
        (
            Stabilization { stable_count: STABLE_POLLS_REQUIRED, polls, ..state },
            StabilizationStep::Stable,
        )
    } else {
        let stable_count = if in_band(voltage as int) {
            (state.stable_count + 1) as u8
        } else {
            0u8
        };
        if state.polls + 1 >= state.poll_limit {
            (
                Stabilization { stable_count, polls, ..state },
                StabilizationStep::Failed(SensorError::PressureSensorVoltageNotStable),
            )
        } else {
            (Stabilization { stable_count, polls, ..state }, StabilizationStep::PollAgain)
        }
    }
}

impl Stabilization {
    /// Begins a wait that may take `poll_limit` looks.
    pub fn new(poll_limit: u32) -> (state: Self)
        ensures
            state == (Stabilization { stable_count: 0, polls: 0, poll_limit }),
    {
        Stabilization { stable_count: 0, polls: 0, poll_limit }
    }
}

/// Takes one look at the supply voltage of the pressure sensor into
/// account.
///
/// A look counts as stable when it is less than the tolerance away from the
/// expected voltage. `STABLE_POLLS_REQUIRED` stable looks in a row end the
/// wait with success; a look that is not stable starts the count anew. The
/// wait ends with `PressureSensorVoltageNotStable` at the look that uses up
/// the limit without completing such a run.
pub fn wait_for_pressure_sensor_voltage_to_stabilize(state: Stabilization, voltage: i64) -> (next:
    (Stabilization, StabilizationStep))
    ensures
        next == stabilization_next(state, voltage),
        next.0.poll_limit == state.poll_limit,
{
    let polls: u32 = if state.polls < u32::MAX {
        state.polls + 1
    } else {
        state.polls
    };
    let stable = voltage > EXPECTED_PRESSURE_SENSOR_VOLTAGE - PRESSURE_SENSOR_VOLTAGE_TOLERANCE
        && voltage < EXPECTED_PRESSURE_SENSOR_VOLTAGE + PRESSURE_SENSOR_VOLTAGE_TOLERANCE;
    if stable && state.stable_count >= STABLE_POLLS_REQUIRED - 1 {
        return (
            Stabilization { stable_count: STABLE_POLLS_REQUIRED, polls, ..state },
            StabilizationStep::Stable,
        );
    }
    let stable_count: u8 = if stable {
        state.stable_count + 1
    } else {
        0
    };
    if state.polls == u32::MAX || state.polls + 1 >= state.poll_limit {
        (
            Stabilization { stable_count, polls, ..state },
            StabilizationStep::Failed(SensorError::PressureSensorVoltageNotStable),
        )
    } else {
        (Stabilization { stable_count, polls, ..state }, StabilizationStep::PollAgain)
    }
}

/// The state of the wait after a sequence of looks.
pub open spec fn stabilization_run(state: Stabilization, voltages: Seq<i64>) -> Stabilization
    decreases voltages.len(),
{
    if voltages.len() == 0 {
        state
    } else {
        stabilization_next(stabilization_run(state, voltages.drop_last()), voltages.last()).0
    }
}

/// Whether every look of a sequence was answered with `PollAgain`.
pub open spec fn kept_polling(state: Stabilization, voltages: Seq<i64>) -> bool
    decreases voltages.len(),
{
    voltages.len() == 0 || (kept_polling(state, voltages.drop_last()) && stabilization_next(
        stabilization_run(state, voltages.drop_last()),
        voltages.last(),
    ).1 == StabilizationStep::PollAgain)
}

/// A supply that stays within the tolerance ends the wait with success at
/// the look that completes the required run, and not before, provided the
/// limit allows that many looks.
pub proof fn lemma_stable_supply_settles(poll_limit: u32, voltages: Seq<i64>, last: i64)
    requires
        poll_limit >= STABLE_POLLS_REQUIRED,
        voltages.len() == STABLE_POLLS_REQUIRED - 1,
        forall|i: int| 0 <= i < voltages.len() ==> in_band(#[trigger] voltages[i] as int),
        in_band(last as int),
    ensures
        kept_polling((Stabilization { stable_count: 0, polls: 0, poll_limit }), voltages),
        stabilization_next(
            stabilization_run((Stabilization { stable_count: 0, polls: 0, poll_limit }), voltages),
            last,
        ).1 == StabilizationStep::Stable,
{
    lemma_stable_run_counts(poll_limit, voltages);
}

/// While the supply stays within the tolerance and the required run is not
/// complete, each look is counted and answered with `PollAgain`.
proof fn lemma_stable_run_counts(poll_limit: u32, voltages: Seq<i64>)
    requires
        poll_limit >= STABLE_POLLS_REQUIRED,
        voltages.len() < STABLE_POLLS_REQUIRED,
        forall|i: int| 0 <= i < voltages.len() ==> in_band(#[trigger] voltages[i] as int),
    ensures
        kept_polling((Stabilization { stable_count: 0, polls: 0, poll_limit }), voltages),
        stabilization_run(
            (Stabilization { stable_count: 0, polls: 0, poll_limit }),
            voltages,
        ) == (Stabilization {
            stable_count: voltages.len() as u8,
            polls: voltages.len() as u32,
            poll_limit,
        }),
    decreases voltages.len(),
{
    if voltages.len() > 0 {
        let front = voltages.drop_last();
        assert forall|i: int| 0 <= i < front.len() implies in_band(#[trigger] front[i] as int) by {
            assert(front[i] == voltages[i]);
        }
        lemma_stable_run_counts(poll_limit, front);
        assert(in_band(voltages[voltages.len() - 1] as int));
    }
}

/// The wait is bounded: as long as every look is answered with `PollAgain`
/// the looks are counted, and their count stays below the limit. A look
/// that is not within the tolerance never ends the wait with success.
pub proof fn lemma_wait_is_bounded(state: Stabilization, voltages: Seq<i64>, voltage: i64)
    requires
        kept_polling(state, voltages),
    ensures
        stabilization_run(state, voltages).polls == state.polls + voltages.len(),
        stabilization_run(state, voltages).poll_limit == state.poll_limit,
        voltages.len() > 0 ==> state.polls + voltages.len() < state.poll_limit,
        !in_band(voltage as int) ==> stabilization_next(state, voltage).1
            != StabilizationStep::Stable,
    decreases voltages.len(),
{
    if voltages.len() > 0 {
        lemma_wait_is_bounded(state, voltages.drop_last(), voltage);
    }
}

} // verus!
