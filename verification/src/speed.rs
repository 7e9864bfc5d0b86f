//! The speed formulas, on plain numbers, and the rule that picks among them.
//!
//! A speed is a whole number of thousandths of a unit, a voltage a whole
//! number of millivolts. One volt on an unnailed Norwegian Blue is worth
//! `BASE_SPEED` units, so one millivolt is worth `BASE_SPEED` thousandths.

use crate::variant::ParrotVariant;
use vstd::math::{max, min};
use vstd::prelude::*;

verus! {

/// Thousandths in one unit of speed, and millivolts in one volt.
pub const MILLI: i64 = 1000;

/// Speed of an unladen parrot, in whole units.
pub const BASE_SPEED: i64 = 12;

/// Speed that each coconut costs, in whole units.
pub const LOAD_FACTOR: i64 = 9;

/// Highest speed that voltage can give, in whole units.
pub const FIXED_BASE_SPEED: i64 = 24;

/// Speed of an unladen parrot, in thousandths.
pub open spec fn base_speed() -> int {
    BASE_SPEED * MILLI
}

/// Speed of a parrot that carries `coconuts` coconuts, in thousandths: every
/// coconut costs `LOAD_FACTOR` units, and the speed never falls below zero.
pub open spec fn laden_speed(coconuts: nat) -> int {
    max(0, BASE_SPEED - LOAD_FACTOR * coconuts) * MILLI
}

/// Speed that `voltage` millivolts give, in thousandths: proportional to the
/// voltage, and capped at `FIXED_BASE_SPEED` units.
pub open spec fn base_speed_for_voltage(voltage: int) -> int {
    min(voltage * BASE_SPEED, FIXED_BASE_SPEED * MILLI)
}

/// Computes `laden_speed`. No count of coconuts overflows it.
pub fn compute_laden_speed(number_of_coconuts: usize) -> (speed: i64)
    ensures
        speed == laden_speed(number_of_coconuts as nat),
{
    let load: u128 = (LOAD_FACTOR as u128) * (number_of_coconuts as u128);
    if load < BASE_SPEED as u128 {
        (BASE_SPEED - load as i64) * MILLI
    } else {
        0
    }
}

/// Computes `base_speed_for_voltage`. Negative voltages give negative speeds.
pub fn compute_base_speed_for_voltage(voltage: i32) -> (speed: i64)
    ensures
        speed == base_speed_for_voltage(voltage as int),
{
    let fixed_base_speed: i64 = FIXED_BASE_SPEED * MILLI;
    let base_speed_for_voltage: i64 = voltage as i64 * BASE_SPEED;
    if base_speed_for_voltage < fixed_base_speed {
        base_speed_for_voltage
    } else {
        fixed_base_speed
    }
}

/// The speed of a parrot of kind `variant`, in thousandths.
///
/// A European parrot flies at the base speed. An African parrot is slowed by
/// its coconuts. A Norwegian Blue does not fly when nailed, and otherwise
/// flies as its voltage lets it. Each kind ignores the settings of the others.
pub open spec fn speed_of(
    variant: ParrotVariant,
    number_of_coconuts: nat,
    voltage: int,
    nailed: bool,
) -> int {
    match variant {
        ParrotVariant::European => base_speed(),
        ParrotVariant::African => laden_speed(number_of_coconuts),
        ParrotVariant::NorwegianBlue => if nailed {
            0
        } else {
            base_speed_for_voltage(voltage)
        },
    }
}

/// How a parrot's speed is obtained once its kind, its load and its nailed
/// flag are known: what is left to do with the voltage.
#[derive(Clone, Copy, Debug, PartialEq, Eq, Structural)]
pub enum SpeedRule {
    /// This many thousandths, whatever the voltage.
    Constant(i64),
    /// What the voltage gives: `base_speed_for_voltage`.
    ByVoltage,
}

/// The rule of a parrot of kind `variant`: `speed_of` before it looks at the
/// voltage.
pub open spec fn rule_of(variant: ParrotVariant, number_of_coconuts: nat, nailed: bool) -> SpeedRule {
    match variant {
        ParrotVariant::European => SpeedRule::Constant(base_speed() as i64),
        ParrotVariant::African => SpeedRule::Constant(laden_speed(number_of_coconuts) as i64),
        ParrotVariant::NorwegianBlue => if nailed {
            SpeedRule::Constant(0)
        } else {
            SpeedRule::ByVoltage
        },
    }
}

impl SpeedRule {
    /// The speed that the rule gives at `voltage` millivolts.
    pub open spec fn at(self, voltage: int) -> int {
        match self {
            SpeedRule::Constant(speed) => speed as int,
            SpeedRule::ByVoltage => base_speed_for_voltage(voltage),
        }
    }

    /// Picks the rule of a parrot.
    pub fn of(variant: ParrotVariant, number_of_coconuts: usize, nailed: bool) -> (rule: SpeedRule)
        ensures
            rule == rule_of(variant, number_of_coconuts as nat, nailed),
    {
        match variant {
            ParrotVariant::European => SpeedRule::Constant(BASE_SPEED * MILLI),
            ParrotVariant::African => SpeedRule::Constant(compute_laden_speed(number_of_coconuts)),
            ParrotVariant::NorwegianBlue => {
                if nailed {
                    SpeedRule::Constant(0)
                } else {
                    SpeedRule::ByVoltage
                }
            },
        }
    }

    /// Computes `at`.
    pub fn apply(&self, voltage: i32) -> (speed: i64)
        ensures
            speed == self.at(voltage as int),
    {
        match self {
            SpeedRule::Constant(speed) => *speed,
            SpeedRule::ByVoltage => compute_base_speed_for_voltage(voltage),
        }
    }
}

/// The rule of a parrot, taken at the parrot's voltage, gives its speed; and
/// the rule is `ByVoltage` for the unnailed Norwegian Blue alone.
pub proof fn lemma_rule_gives_speed(
    variant: ParrotVariant,
    number_of_coconuts: nat,
    voltage: int,
    nailed: bool,
)
    ensures
        rule_of(variant, number_of_coconuts, nailed).at(voltage) == speed_of(
            variant,
            number_of_coconuts,
            voltage,
            nailed,
        ),
        rule_of(variant, number_of_coconuts, nailed) == SpeedRule::ByVoltage <==> variant
            == ParrotVariant::NorwegianBlue && !nailed,
{
}

/// A laden parrot is never faster than one that carries less, never faster
/// than an unladen one, and never flies backwards.
pub proof fn lemma_laden_speed_non_increasing(fewer: nat, more: nat)
    requires
        fewer <= more,
    ensures
        0 <= laden_speed(more) <= laden_speed(fewer) <= base_speed(),
{
}

/// Below two volts the speed is proportional to the voltage; from two volts
/// on it is the cap, exactly. More voltage never gives less speed.
pub proof fn lemma_voltage_speed_is_capped(voltage: int, higher: int)
    requires
        voltage <= higher,
    ensures
        voltage < 2_000 ==> base_speed_for_voltage(voltage) == 12 * voltage,
        voltage >= 2_000 ==> base_speed_for_voltage(voltage) == 24_000,
        base_speed_for_voltage(voltage) <= base_speed_for_voltage(higher) <= 24_000,
{
}

} // verus!
