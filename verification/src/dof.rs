//! A controllable degree of freedom: its offset, its limits and its motor.

use vstd::prelude::*;
use crate::error::Error;

verus! {

/// A motor on one degree of freedom. A motor without a `max_force` may push
/// as hard as it takes.
#[derive(Clone, Copy, Debug, PartialEq, Eq)]
pub struct Motor {
    pub enabled: bool,
    pub desired_velocity: i64,
    pub max_force: Option<i64>,
}

impl Motor {
    /// A motor that is switched off, aims at rest and has no force bound.
    pub open spec fn idle() -> Motor {
        Motor { enabled: false, desired_velocity: 0, max_force: None }
    }

    /// A motor that is switched off, aims at rest and has no force bound.
    pub fn new() -> (m: Motor)
        ensures
            m == Motor::idle(),
    {
        Motor { enabled: false, desired_velocity: 0, max_force: None }
    }
}

/// One change to the limits or the motor of a degree of freedom.
#[derive(Clone, Copy, Debug, PartialEq, Eq)]
pub enum DofChange {
    EnableMin(i64),
    EnableMax(i64),
    DisableMin,
    DisableMax,
    EnableMotor,
    DisableMotor,
    SetDesiredVelocity(i64),
    SetMaxForce(Option<i64>),
}

/// A single controllable degree of freedom: its offset, optional lower and
/// upper limits, and its motor.
#[derive(Clone, Copy, Debug, PartialEq, Eq)]
pub struct UnitDof {
    pub offset: i64,
    pub min: Option<i64>,
    pub max: Option<i64>,
    pub motor: Motor,
}

impl UnitDof {
    /// The limits, where both are set, are in order.
    pub open spec fn wf(self) -> bool {
        (self.min is Some && self.max is Some) ==> self.min->0 <= self.max->0
    }

    /// A degree of freedom at `offset`, without limits, its motor idle.
    pub open spec fn fresh(offset: i64) -> UnitDof {
        UnitDof { offset, min: None, max: None, motor: Motor::idle() }
    }

    /// What `change` makes of this degree of freedom, or why it is refused.
    /// A limit is refused when it would cross the opposite limit.
    pub open spec fn applied(self, change: DofChange) -> Result<UnitDof, Error> {
        match change {
            DofChange::EnableMin(limit) => if self.max is Some && limit > self.max->0 {
                Err(Error::LimitsCrossed)
            } else {
                Ok(UnitDof { min: Some(limit), ..self })
            },
            DofChange::EnableMax(limit) => if self.min is Some && self.min->0 > limit {
                Err(Error::LimitsCrossed)
            } else {
                Ok(UnitDof { max: Some(limit), ..self })
            },
            DofChange::DisableMin => Ok(UnitDof { min: None, ..self }),
            DofChange::DisableMax => Ok(UnitDof { max: None, ..self }),
            DofChange::EnableMotor => Ok(
                UnitDof { motor: Motor { enabled: true, ..self.motor }, ..self },
            ),
            DofChange::DisableMotor => Ok(
                UnitDof { motor: Motor { enabled: false, ..self.motor }, ..self },
            ),
            DofChange::SetDesiredVelocity(v) => Ok(
                UnitDof { motor: Motor { desired_velocity: v, ..self.motor }, ..self },
            ),
            DofChange::SetMaxForce(f) => Ok(
                UnitDof { motor: Motor { max_force: f, ..self.motor }, ..self },
            ),
        }
    }

    /// A degree of freedom at `offset`, without limits, its motor idle.
    pub fn new(offset: i64) -> (u: UnitDof)
        ensures
            u == UnitDof::fresh(offset),
            u.wf(),
    {
        UnitDof { offset, min: None, max: None, motor: Motor::new() }
    }

    /// Whether the limits are in order.
    pub fn is_valid(&self) -> (b: bool)
        ensures
            b == self.wf(),
    {
        match (self.min, self.max) {
            (Some(lo), Some(hi)) => lo <= hi,
            _ => true,
        }
    }

    /// Carries out `change`, or leaves the degree of freedom untouched and
    /// reports why the change is refused.
    pub fn apply(&mut self, change: DofChange) -> (r: Result<(), Error>)
        ensures
            old(self).applied(change) is Ok ==> r is Ok,
            old(self).applied(change) is Err ==> r is Err,
            r is Err ==> r->Err_0 == old(self).applied(change)->Err_0,
            r is Err ==> *final(self) == *old(self),
            r is Ok ==> *final(self) == old(self).applied(change)->Ok_0,
    {
        match change {
            DofChange::EnableMin(limit) => {
                match self.max {
                    Some(hi) => {
                        if limit > hi {
                            return Err(Error::LimitsCrossed);
                        }
                    },
                    None => {},
                }
                self.min = Some(limit);
            },
            DofChange::EnableMax(limit) => {
                match self.min {
                    Some(lo) => {
                        if lo > limit {
                            return Err(Error::LimitsCrossed);
                        }
                    },
                    None => {},
                }
                self.max = Some(limit);
            },
            DofChange::DisableMin => {
                self.min = None;
            },
            DofChange::DisableMax => {
                self.max = None;
            },
            DofChange::EnableMotor => {
                self.motor.enabled = true;
            },
            DofChange::DisableMotor => {
                self.motor.enabled = false;
            },
            DofChange::SetDesiredVelocity(v) => {
                self.motor.desired_velocity = v;
            },
            DofChange::SetMaxForce(f) => {
                self.motor.max_force = f;
            },
        }
        Ok(())
    }
}

/// No accepted change can put the limits out of order.
pub proof fn lemma_change_keeps_limits_ordered(unit: UnitDof, change: DofChange)
    requires
        unit.wf(),
        unit.applied(change) is Ok,
    ensures
        unit.applied(change)->Ok_0.wf(),
{
}

/// A change is refused exactly when it sets a limit beyond the opposite one,
/// and the only refusal is `LimitsCrossed`.
pub proof fn lemma_change_refusal(unit: UnitDof, change: DofChange)
    ensures
        unit.applied(change) is Err <==> ((change is EnableMin && unit.max is Some
            && change->EnableMin_0 > unit.max->0) || (change is EnableMax && unit.min is Some
            && unit.min->0 > change->EnableMax_0)),
        unit.applied(change) is Err ==> unit.applied(change)->Err_0 == Error::LimitsCrossed,
{
}

} // verus!
