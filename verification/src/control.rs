//! Motor control by thresholds: a motor is switched on when the offset it
//! watches falls below one threshold and switched off when the offset rises
//! above another.

use vstd::prelude::*;

verus! {

/// What a controller asks of a motor.
#[derive(Clone, Copy, Debug, PartialEq, Eq, Structural)]
pub enum MotorCommand {
    /// Switch the motor on.
    Enable,
    /// Switch the motor off.
    Disable,
    /// Leave the motor as it is.
    Keep,
}

impl MotorCommand {
    /// Whether the motor is on once the command is carried out, given
    /// whether it was on before.
    pub open spec fn spec_outcome(self, enabled: bool) -> bool {
        match self {
            MotorCommand::Enable => true,
            MotorCommand::Disable => false,
            MotorCommand::Keep => enabled,
        }
    }

    /// Whether the motor is on once the command is carried out, given
    /// whether it was on before.
    #[verifier::when_used_as_spec(spec_outcome)]
    pub fn outcome(self, enabled: bool) -> (b: bool)
        ensures
            b == self.spec_outcome(enabled),
    {
        match self {
            MotorCommand::Enable => true,
            MotorCommand::Disable => false,
            MotorCommand::Keep => enabled,
        }
    }
}

/// An offset read off a running simulation, which need not be a whole
/// number of thousandths: the nearest whole numbers at or below it and at or
/// above it.
#[derive(Clone, Copy, Debug, PartialEq, Eq, Structural)]
pub struct Reading {
    pub floor: i64,
    pub ceil: i64,
}

impl Reading {
    /// The two bounds are the same number or neighbours, in order.
    pub open spec fn wf(self) -> bool {
        self.floor <= self.ceil <= self.floor + 1
    }

    /// The reading of an offset that is a whole number of thousandths.
    pub fn exact(offset: i64) -> (r: Reading)
        ensures
            r == (Reading { floor: offset, ceil: offset }),
            r.wf(),
    {
        Reading { floor: offset, ceil: offset }
    }
}

/// A pair of thresholds on an offset, in thousandths. The lower one is
/// looked at first.
#[derive(Clone, Copy, Debug, PartialEq, Eq, Structural)]
pub struct Hysteresis {
    pub enable_below: i64,
    pub disable_above: i64,
}

impl Hysteresis {
    /// The command for a motor whose watched offset gave `reading`: on
    /// when the offset is below the lower threshold, else off when it is
    /// above the upper threshold, else as it was.
    pub open spec fn decision(self, reading: Reading) -> MotorCommand {
        if reading.floor < self.enable_below {
            MotorCommand::Enable
        } else if reading.ceil > self.disable_above {
            MotorCommand::Disable
        } else {
            MotorCommand::Keep
        }
    }

    /// The command for a motor whose watched offset gave `reading`.
    pub fn decide(&self, reading: Reading) -> (c: MotorCommand)
        ensures
            c == self.decision(reading),
    {
        if reading.floor < self.enable_below {
            MotorCommand::Enable
        } else if reading.ceil > self.disable_above {
            MotorCommand::Disable
        } else {
            MotorCommand::Keep
        }
    }
}

/// With the thresholds in order, the motor is on after every reading below
/// the band, off after every reading above it, and unchanged by a reading
/// inside it.
pub proof fn lemma_hysteresis_band(rule: Hysteresis, reading: Reading, enabled: bool)
    requires
        rule.enable_below <= rule.disable_above,
        reading.wf(),
    ensures
        reading.floor < rule.enable_below ==> rule.decision(reading).spec_outcome(enabled),
        reading.ceil > rule.disable_above ==> !rule.decision(reading).spec_outcome(enabled),
        rule.enable_below <= reading.floor && reading.ceil <= rule.disable_above
            ==> rule.decision(reading).spec_outcome(enabled) == enabled,
{
}

/// With the thresholds in order, a reading that switches the motor on lies
/// wholly below the band and one that switches it off wholly above it, so
/// that no reading does both.
pub proof fn lemma_hysteresis_switches_across_band(
    rule: Hysteresis,
    first: Reading,
    second: Reading,
)
    requires
        rule.enable_below <= rule.disable_above,
        first.wf(),
        second.wf(),
        rule.decision(first) == MotorCommand::Enable,
        rule.decision(second) == MotorCommand::Disable,
    ensures
        first.ceil <= rule.enable_below,
        second.floor >= rule.disable_above,
        first.floor < second.floor,
        first != second,
{
}

} // verus!
