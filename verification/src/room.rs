//! A simulated heated room: how its temperature drifts, and when its heater
//! calls for heat. Temperatures are in 0.01 degrees Celsius.

use vstd::prelude::*;

use crate::cluster::SystemModeEnum;

verus! {

/// How far the room warms in one tick while it is heated.
pub const HEATING_RATE: i16 = 20;

/// How far the room cools towards [`AMBIENT`] in one tick while it is not.
pub const COOLING_RATE: i16 = 10;

/// The temperature that the room drifts to with the heating off.
pub const AMBIENT: i16 = 1600;

/// The value nearest to `value` that a temperature can hold.
pub open spec fn saturated(value: int) -> i16 {
    if value < i16::MIN {
        i16::MIN
    } else if value > i16::MAX {
        i16::MAX
    } else {
        value as i16
    }
}

/// The temperature one tick later.
pub open spec fn next_temperature(heating: bool, temperature: i16) -> i16 {
    if heating {
        saturated(temperature + HEATING_RATE)
    } else if temperature - COOLING_RATE > AMBIENT {
        (temperature - COOLING_RATE) as i16
    } else {
        AMBIENT
    }
}

/// Whether the heater calls for heat. A band around the setpoint, one notch to
/// either side, keeps the relay from chattering every tick.
pub open spec fn calls_for_heat(
    mode: SystemModeEnum,
    heating: bool,
    temperature: i16,
    setpoint: i16,
) -> bool {
    mode is Heat && temperature < if heating {
        saturated(setpoint + HEATING_RATE)
    } else {
        saturated(setpoint - HEATING_RATE)
    }
}

/// The sum of two temperatures, cut off at the ends of the scale.
fn saturating_sum(a: i16, b: i16) -> (sum: i16)
    ensures
        sum == saturated(a + b),
{
    let sum: i32 = a as i32 + b as i32;
    if sum < i16::MIN as i32 {
        i16::MIN
    } else if sum > i16::MAX as i32 {
        i16::MAX
    } else {
        sum as i16
    }
}

/// Computes [`next_temperature`].
pub fn drift(heating: bool, temperature: i16) -> (next: i16)
    ensures
        next == next_temperature(heating, temperature),
{
    if heating {
        saturating_sum(temperature, HEATING_RATE)
    } else {
        let cooled: i16 = saturating_sum(temperature, -COOLING_RATE);
        if cooled > AMBIENT {
            cooled
        } else {
            AMBIENT
        }
    }
}

/// Computes [`calls_for_heat`].
pub fn relay(mode: SystemModeEnum, heating: bool, temperature: i16, setpoint: i16) -> (on: bool)
    ensures
        on == calls_for_heat(mode, heating, temperature, setpoint),
{
    match mode {
        SystemModeEnum::Heat => if heating {
            temperature < saturating_sum(setpoint, HEATING_RATE)
        } else {
            temperature < saturating_sum(setpoint, -HEATING_RATE)
        },
        _ => false,
    }
}

} // verus!
