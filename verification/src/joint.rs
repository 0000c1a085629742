//! The joint catalogue: what each kind of joint lets move, and access to
//! the controllable degrees of freedom of a joint.

use vstd::prelude::*;
use crate::dof::{lemma_change_keeps_limits_ordered, DofChange, UnitDof};
use crate::error::Error;
use crate::vector::{collinear, Axis, Vec3};

verus! {

/// Damping given by default to a rotational degree of freedom, in thousandths.
pub const ANGULAR_DAMPING: i64 = 100;

/// Damping given by default to a translational degree of freedom.
pub const LINEAR_DAMPING: i64 = 0;

/// Whether a degree of freedom turns or slides.
#[derive(Clone, Copy, Debug, PartialEq, Eq, Structural)]
pub enum DofKind {
    Angular,
    Linear,
}

impl DofKind {
    /// The damping a degree of freedom of this kind starts with.
    pub open spec fn spec_default_damping(self) -> i64 {
        match self {
            DofKind::Angular => ANGULAR_DAMPING,
            DofKind::Linear => LINEAR_DAMPING,
        }
    }

    /// The damping a degree of freedom of this kind starts with.
    #[verifier::when_used_as_spec(spec_default_damping)]
    pub fn default_damping(self) -> (d: i64)
        ensures
            d == self.spec_default_damping(),
    {
        match self {
            DofKind::Angular => ANGULAR_DAMPING,
            DofKind::Linear => LINEAR_DAMPING,
        }
    }
}

/// The tag of a joint, without its parameters.
#[derive(Clone, Copy, Debug, PartialEq, Eq, Structural)]
pub enum JointKind {
    Fixed,
    Revolute,
    Prismatic,
    Ball,
    Universal,
    Helical,
    Planar,
    Rectangular,
    PinSlot,
}

/// A joint between a link and its parent. Controllable degrees of freedom
/// are numbered from zero in the order in which the variant lists them.
#[derive(Clone, Copy, Debug, PartialEq, Eq)]
pub enum Joint {
    /// No relative motion.
    Fixed,
    /// One rotation about `axis`.
    Revolute { axis: Axis, revo: UnitDof },
    /// One translation along `axis`.
    Prismatic { axis: Axis, prism: UnitDof },
    /// Free rotation; `axisangle` is the initial orientation.
    Ball { axisangle: Vec3 },
    /// Two rotations, about `axis1` and about `axis2`.
    Universal { axis1: Axis, axis2: Axis, revo1: UnitDof, revo2: UnitDof },
    /// One rotation about `axis` coupled to a translation along it: the
    /// translation is the angle times `pitch`.
    Helical { axis: Axis, pitch: i64, revo: UnitDof },
    /// Two translations, along `axis1` and `axis2`, and one rotation about
    /// the normal of the plane they span.
    Planar { axis1: Axis, axis2: Axis, prism1: UnitDof, prism2: UnitDof, revo: UnitDof },
    /// Two translations, along `axis1` and `axis2`, and no rotation.
    Rectangular { axis1: Axis, axis2: Axis, prism1: UnitDof, prism2: UnitDof },
    /// One translation along `axis_v` and, independently, one rotation about
    /// `axis_w`.
    PinSlot { axis_v: Axis, axis_w: Axis, prism: UnitDof, revo: UnitDof },
}

impl Joint {
    /// The tag of this joint.
    pub open spec fn spec_kind(&self) -> JointKind {
        match self {
            Joint::Fixed => JointKind::Fixed,
            Joint::Revolute { .. } => JointKind::Revolute,
            Joint::Prismatic { .. } => JointKind::Prismatic,
            Joint::Ball { .. } => JointKind::Ball,
            Joint::Universal { .. } => JointKind::Universal,
            Joint::Helical { .. } => JointKind::Helical,
            Joint::Planar { .. } => JointKind::Planar,
            Joint::Rectangular { .. } => JointKind::Rectangular,
            Joint::PinSlot { .. } => JointKind::PinSlot,
        }
    }

    /// The degrees of freedom of this joint, in the order of its generalized
    /// coordinates.
    pub open spec fn dof_kinds(self) -> Seq<DofKind> {
        match self {
            Joint::Fixed => seq![],
            Joint::Revolute { .. } => seq![DofKind::Angular],
            Joint::Prismatic { .. } => seq![DofKind::Linear],
            Joint::Ball { .. } => seq![DofKind::Angular, DofKind::Angular, DofKind::Angular],
            Joint::Universal { .. } => seq![DofKind::Angular, DofKind::Angular],
            Joint::Helical { .. } => seq![DofKind::Angular],
            Joint::Planar { .. } => seq![DofKind::Linear, DofKind::Linear, DofKind::Angular],
            Joint::Rectangular { .. } => seq![DofKind::Linear, DofKind::Linear],
            Joint::PinSlot { .. } => seq![DofKind::Linear, DofKind::Angular],
        }
    }

    /// The number of degrees of freedom.
    pub open spec fn dof_count(self) -> nat {
        self.dof_kinds().len()
    }

    /// The controllable degrees of freedom: those that carry limits and a
    /// motor.
    pub open spec fn units(self) -> Seq<UnitDof> {
        match self {
            Joint::Fixed => seq![],
            Joint::Revolute { revo, .. } => seq![revo],
            Joint::Prismatic { prism, .. } => seq![prism],
            Joint::Ball { .. } => seq![],
            Joint::Universal { revo1, revo2, .. } => seq![revo1, revo2],
            Joint::Helical { revo, .. } => seq![revo],
            Joint::Planar { prism1, prism2, revo, .. } => seq![prism1, prism2, revo],
            Joint::Rectangular { prism1, prism2, .. } => seq![prism1, prism2],
            Joint::PinSlot { prism, revo, .. } => seq![prism, revo],
        }
    }

    /// The axes the joint is defined by.
    pub open spec fn axes(self) -> Seq<Axis> {
        match self {
            Joint::Fixed => seq![],
            Joint::Revolute { axis, .. } => seq![axis],
            Joint::Prismatic { axis, .. } => seq![axis],
            Joint::Ball { .. } => seq![],
            Joint::Universal { axis1, axis2, .. } => seq![axis1, axis2],
            Joint::Helical { axis, .. } => seq![axis],
            Joint::Planar { axis1, axis2, .. } => seq![axis1, axis2],
            Joint::Rectangular { axis1, axis2, .. } => seq![axis1, axis2],
            Joint::PinSlot { axis_v, axis_w, .. } => seq![axis_v, axis_w],
        }
    }

    /// The same joint with its `index`-th controllable degree of freedom
    /// replaced by `unit`; unchanged when there is no such degree.
    pub open spec fn with_unit(self, index: int, unit: UnitDof) -> Joint {
        match self {
            Joint::Fixed => self,
            Joint::Revolute { axis, revo } => if index == 0 {
                Joint::Revolute { axis, revo: unit }
            } else {
                self
            },
            Joint::Prismatic { axis, prism } => if index == 0 {
                Joint::Prismatic { axis, prism: unit }
            } else {
                self
            },
            Joint::Ball { .. } => self,
            Joint::Universal { axis1, axis2, revo1, revo2 } => if index == 0 {
                Joint::Universal { axis1, axis2, revo1: unit, revo2 }
            } else if index == 1 {
                Joint::Universal { axis1, axis2, revo1, revo2: unit }
            } else {
                self
            },
            Joint::Helical { axis, pitch, revo } => if index == 0 {
                Joint::Helical { axis, pitch, revo: unit }
            } else {
                self
            },
            Joint::Planar { axis1, axis2, prism1, prism2, revo } => if index == 0 {
                Joint::Planar { axis1, axis2, prism1: unit, prism2, revo }
            } else if index == 1 {
                Joint::Planar { axis1, axis2, prism1, prism2: unit, revo }
            } else if index == 2 {
                Joint::Planar { axis1, axis2, prism1, prism2, revo: unit }
            } else {
                self
            },
            Joint::Rectangular { axis1, axis2, prism1, prism2 } => if index == 0 {
                Joint::Rectangular { axis1, axis2, prism1: unit, prism2 }
            } else if index == 1 {
                Joint::Rectangular { axis1, axis2, prism1, prism2: unit }
            } else {
                self
            },
            Joint::PinSlot { axis_v, axis_w, prism, revo } => if index == 0 {
                Joint::PinSlot { axis_v, axis_w, prism: unit, revo }
            } else if index == 1 {
                Joint::PinSlot { axis_v, axis_w, prism, revo: unit }
            } else {
                self
            },
        }
    }

    /// None of the axes is the zero vector.
    pub open spec fn axes_ok(self) -> bool {
        match self {
            Joint::Fixed => true,
            Joint::Ball { .. } => true,
            Joint::Revolute { axis, .. } => axis.wf(),
            Joint::Prismatic { axis, .. } => axis.wf(),
            Joint::Helical { axis, .. } => axis.wf(),
            Joint::Universal { axis1, axis2, .. } => axis1.wf() && axis2.wf(),
            Joint::Planar { axis1, axis2, .. } => axis1.wf() && axis2.wf(),
            Joint::Rectangular { axis1, axis2, .. } => axis1.wf() && axis2.wf(),
            Joint::PinSlot { axis_v, axis_w, .. } => axis_v.wf() && axis_w.wf(),
        }
    }

    /// The limits of each controllable degree of freedom are in order.
    pub open spec fn units_ok(self) -> bool {
        match self {
            Joint::Fixed => true,
            Joint::Ball { .. } => true,
            Joint::Revolute { revo, .. } => revo.wf(),
            Joint::Prismatic { prism, .. } => prism.wf(),
            Joint::Helical { revo, .. } => revo.wf(),
            Joint::Universal { revo1, revo2, .. } => revo1.wf() && revo2.wf(),
            Joint::Planar { prism1, prism2, revo, .. } => prism1.wf() && prism2.wf() && revo.wf(),
            Joint::Rectangular { prism1, prism2, .. } => prism1.wf() && prism2.wf(),
            Joint::PinSlot { prism, revo, .. } => prism.wf() && revo.wf(),
        }
    }

    /// The two axes of a planar joint span a plane.
    pub open spec fn plane_ok(self) -> bool {
        self matches Joint::Planar { axis1, axis2, .. } ==> !collinear(axis1, axis2)
    }

    /// What is wrong with this joint, if anything: a zero axis first, then
    /// limits out of order, then planar axes along one line.
    pub open spec fn defect(self) -> Option<Error> {
        if !self.axes_ok() {
            Some(Error::ZeroAxis)
        } else if !self.units_ok() {
            Some(Error::LimitsCrossed)
        } else if !self.plane_ok() {
            Some(Error::CollinearAxes)
        } else {
            None
        }
    }

    /// A joint is well formed when nothing is wrong with it.
    pub open spec fn wf(self) -> bool {
        self.defect() is None
    }

    /// The joint itself when it is well formed, else what is wrong with it.
    pub open spec fn checked(self) -> Result<Joint, Error> {
        match self.defect() {
            None => Ok(self),
            Some(e) => Err(e),
        }
    }

    /// What `change` on the `index`-th controllable degree of freedom makes
    /// of this joint, or why it is refused.
    pub open spec fn changed(self, index: int, change: DofChange) -> Result<Joint, Error> {
        if 0 <= index < self.units().len() {
            match self.units()[index].applied(change) {
                Ok(unit) => Ok(self.with_unit(index, unit)),
                Err(e) => Err(e),
            }
        } else {
            Err(Error::DofNotFound)
        }
    }

    /// The tag of this joint.
    #[verifier::when_used_as_spec(spec_kind)]
    pub fn kind(&self) -> (k: JointKind)
        ensures
            k == self.spec_kind(),
    {
        match self {
            Joint::Fixed => JointKind::Fixed,
            Joint::Revolute { .. } => JointKind::Revolute,
            Joint::Prismatic { .. } => JointKind::Prismatic,
            Joint::Ball { .. } => JointKind::Ball,
            Joint::Universal { .. } => JointKind::Universal,
            Joint::Helical { .. } => JointKind::Helical,
            Joint::Planar { .. } => JointKind::Planar,
            Joint::Rectangular { .. } => JointKind::Rectangular,
            Joint::PinSlot { .. } => JointKind::PinSlot,
        }
    }

    /// The number of degrees of freedom.
    pub fn degrees_of_freedom(&self) -> (n: usize)
        ensures
            n == self.dof_count(),
            n <= 3,
    {
        match self {
            Joint::Fixed => 0,
            Joint::Revolute { .. } => 1,
            Joint::Prismatic { .. } => 1,
            Joint::Ball { .. } => 3,
            Joint::Universal { .. } => 2,
            Joint::Helical { .. } => 1,
            Joint::Planar { .. } => 3,
            Joint::Rectangular { .. } => 2,
            Joint::PinSlot { .. } => 2,
        }
    }

    /// Whether the `index`-th degree of freedom turns or slides; `None`
    /// when the joint has no such degree.
    pub fn dof_kind(&self, index: usize) -> (k: Option<DofKind>)
        ensures
            index < self.dof_kinds().len() ==> k == Some(self.dof_kinds()[index as int]),
            index >= self.dof_kinds().len() ==> k is None,
    {
        match self {
            Joint::Fixed => None,
            Joint::Revolute { .. } | Joint::Helical { .. } => if index == 0 {
                Some(DofKind::Angular)
            } else {
                None
            },
            Joint::Prismatic { .. } => if index == 0 {
                Some(DofKind::Linear)
            } else {
                None
            },
            Joint::Ball { .. } => if index < 3 {
                Some(DofKind::Angular)
            } else {
                None
            },
            Joint::Universal { .. } => if index < 2 {
                Some(DofKind::Angular)
            } else {
                None
            },
            Joint::Planar { .. } => if index < 2 {
                Some(DofKind::Linear)
            } else if index == 2 {
                Some(DofKind::Angular)
            } else {
                None
            },
            Joint::Rectangular { .. } => if index < 2 {
                Some(DofKind::Linear)
            } else {
                None
            },
            Joint::PinSlot { .. } => if index == 0 {
                Some(DofKind::Linear)
            } else if index == 1 {
                Some(DofKind::Angular)
            } else {
                None
            },
        }
    }

    /// The `index`-th axis of the joint; `None` when it has no such axis.
    pub fn axis(&self, index: usize) -> (a: Option<Axis>)
        ensures
            index < self.axes().len() ==> a == Some(self.axes()[index as int]),
            index >= self.axes().len() ==> a is None,
            self.axes().len() <= 2,
    {
        match self {
            Joint::Fixed => None,
            Joint::Ball { .. } => None,
            Joint::Revolute { axis, .. }
            | Joint::Prismatic { axis, .. }
            | Joint::Helical { axis, .. } => if index == 0 {
                Some(*axis)
            } else {
                None
            },
            Joint::Universal { axis1, axis2, .. }
            | Joint::Planar { axis1, axis2, .. }
            | Joint::Rectangular { axis1, axis2, .. } => if index == 0 {
                Some(*axis1)
            } else if index == 1 {
                Some(*axis2)
            } else {
                None
            },
            Joint::PinSlot { axis_v, axis_w, .. } => if index == 0 {
                Some(*axis_v)
            } else if index == 1 {
                Some(*axis_w)
            } else {
                None
            },
        }
    }

    /// The `index`-th controllable degree of freedom; `None` when the joint
    /// has no such degree.
    pub fn unit(&self, index: usize) -> (u: Option<UnitDof>)
        ensures
            index < self.units().len() ==> u == Some(self.units()[index as int]),
            index >= self.units().len() ==> u is None,
            self.units().len() <= 3,
    {
        match self {
            Joint::Fixed => None,
            Joint::Ball { .. } => None,
            Joint::Revolute { revo, .. } | Joint::Helical { revo, .. } => if index == 0 {
                Some(*revo)
            } else {
                None
            },
            Joint::Prismatic { prism, .. } => if index == 0 {
                Some(*prism)
            } else {
                None
            },
            Joint::Universal { revo1, revo2, .. } => if index == 0 {
                Some(*revo1)
            } else if index == 1 {
                Some(*revo2)
            } else {
                None
            },
            Joint::Planar { prism1, prism2, revo, .. } => if index == 0 {
                Some(*prism1)
            } else if index == 1 {
                Some(*prism2)
            } else if index == 2 {
                Some(*revo)
            } else {
                None
            },
            Joint::Rectangular { prism1, prism2, .. } => if index == 0 {
                Some(*prism1)
            } else if index == 1 {
                Some(*prism2)
            } else {
                None
            },
            Joint::PinSlot { prism, revo, .. } => if index == 0 {
                Some(*prism)
            } else if index == 1 {
                Some(*revo)
            } else {
                None
            },
        }
    }

    /// Reports what is wrong with the joint, if anything.
    pub fn validate(&self) -> (r: Result<(), Error>)
        ensures
            self.defect() is None ==> r is Ok,
            self.defect() is Some ==> r == Err::<(), Error>(self.defect()->0),
    {
        proof {
            lemma_parts_ok(*self);
        }
        let mut i: usize = 0;
        while i < 2
            invariant
                i <= 2,
                forall|k: int|
                    0 <= k < i && k < self.axes().len() ==> (#[trigger] self.axes()[k]).wf(),
                self.axes_ok() <==> forall|k: int|
                    0 <= k < self.axes().len() ==> (#[trigger] self.axes()[k]).wf(),
                self.units_ok() <==> forall|k: int|
                    0 <= k < self.units().len() ==> (#[trigger] self.units()[k]).wf(),
            decreases 2 - i,
        {
            match self.axis(i) {
                Some(a) => {
                    if !a.is_valid() {
                        return Err(Error::ZeroAxis);
                    }
                },
                None => {},
            }
            i += 1;
        }
        let mut j: usize = 0;
        while j < 3
            invariant
                j <= 3,
                self.axes_ok(),
                self.units_ok() <==> forall|k: int|
                    0 <= k < self.units().len() ==> (#[trigger] self.units()[k]).wf(),
                forall|k: int|
                    0 <= k < j && k < self.units().len() ==> (#[trigger] self.units()[k]).wf(),
            decreases 3 - j,
        {
            match self.unit(j) {
                Some(u) => {
                    if !u.is_valid() {
                        return Err(Error::LimitsCrossed);
                    }
                },
                None => {},
            }
            j += 1;
        }
        match self {
            Joint::Planar { axis1, axis2, .. } => {
                if axis1.is_collinear_with(axis2) {
                    return Err(Error::CollinearAxes);
                }
            },
            _ => {},
        }
        Ok(())
    }

    /// Hands the joint back when it is well formed, and otherwise reports
    /// what is wrong with it.
    pub fn check(self) -> (r: Result<Joint, Error>)
        ensures
            r == self.checked(),
    {
        match self.validate() {
            Ok(()) => Ok(self),
            Err(e) => Err(e),
        }
    }

    /// A joint that allows no relative motion.
    pub fn fixed() -> (j: Joint)
        ensures
            j == Joint::Fixed,
            j.wf(),
    {
        Joint::Fixed
    }

    /// A joint that turns about `axis`, starting at `angle`. Rejected with
    /// `ZeroAxis` when the axis is the zero vector.
    pub fn revolute(axis: Axis, angle: i64) -> (r: Result<Joint, Error>)
        ensures
            axis.wf() ==> r == Ok::<Joint, Error>(
                Joint::Revolute { axis, revo: UnitDof::fresh(angle) },
            ),
            !axis.wf() ==> r == Err::<Joint, Error>(Error::ZeroAxis),
            r is Ok ==> r->Ok_0.wf(),
    {
        (Joint::Revolute { axis, revo: UnitDof::new(angle) }).check()
    }

    /// A joint that slides along `axis`, starting at `offset`. Rejected with
    /// `ZeroAxis` when the axis is the zero vector.
    pub fn prismatic(axis: Axis, offset: i64) -> (r: Result<Joint, Error>)
        ensures
            axis.wf() ==> r == Ok::<Joint, Error>(
                Joint::Prismatic { axis, prism: UnitDof::fresh(offset) },
            ),
            !axis.wf() ==> r == Err::<Joint, Error>(Error::ZeroAxis),
            r is Ok ==> r->Ok_0.wf(),
    {
        (Joint::Prismatic { axis, prism: UnitDof::new(offset) }).check()
    }

    /// A joint that turns freely, starting at the orientation `axisangle`.
    pub fn ball(axisangle: Vec3) -> (j: Joint)
        ensures
            j == (Joint::Ball { axisangle }),
            j.wf(),
    {
        Joint::Ball { axisangle }
    }

    /// A joint that turns about `axis1` and about `axis2`. Rejected with
    /// `ZeroAxis` when either axis is the zero vector.
    pub fn universal(axis1: Axis, axis2: Axis, angle1: i64, angle2: i64) -> (r: Result<
        Joint,
        Error,
    >)
        ensures
            axis1.wf() && axis2.wf() ==> r == Ok::<Joint, Error>(
                Joint::Universal {
                    axis1,
                    axis2,
                    revo1: UnitDof::fresh(angle1),
                    revo2: UnitDof::fresh(angle2),
                },
            ),
            !(axis1.wf() && axis2.wf()) ==> r == Err::<Joint, Error>(Error::ZeroAxis),
            r is Ok ==> r->Ok_0.wf(),
    {
        (Joint::Universal {
            axis1,
            axis2,
            revo1: UnitDof::new(angle1),
            revo2: UnitDof::new(angle2),
        }).check()
    }

    /// A screw joint about `axis`: turning by an angle slides by the angle
    /// times `pitch`. Rejected with `ZeroAxis` when the axis is the zero
    /// vector.
    pub fn helical(axis: Axis, pitch: i64, angle: i64) -> (r: Result<Joint, Error>)
        ensures
            axis.wf() ==> r == Ok::<Joint, Error>(
                Joint::Helical { axis, pitch, revo: UnitDof::fresh(angle) },
            ),
            !axis.wf() ==> r == Err::<Joint, Error>(Error::ZeroAxis),
            r is Ok ==> r->Ok_0.wf(),
    {
        (Joint::Helical { axis, pitch, revo: UnitDof::new(angle) }).check()
    }

    /// A joint that slides along `axis1` and `axis2` and turns about the
    /// normal of their plane. Rejected with `ZeroAxis` when either axis is
    /// the zero vector, and with `CollinearAxes` when they span no plane.
    pub fn planar(axis1: Axis, axis2: Axis, pos1: i64, pos2: i64, angle: i64) -> (r: Result<
        Joint,
        Error,
    >)
        ensures
            axis1.wf() && axis2.wf() && !collinear(axis1, axis2) ==> r == Ok::<Joint, Error>(
                Joint::Planar {
                    axis1,
                    axis2,
                    prism1: UnitDof::fresh(pos1),
                    prism2: UnitDof::fresh(pos2),
                    revo: UnitDof::fresh(angle),
                },
            ),
            !(axis1.wf() && axis2.wf()) ==> r == Err::<Joint, Error>(Error::ZeroAxis),
            axis1.wf() && axis2.wf() && collinear(axis1, axis2) ==> r == Err::<Joint, Error>(
                Error::CollinearAxes,
            ),
            r is Ok ==> r->Ok_0.wf(),
    {
        (Joint::Planar {
            axis1,
            axis2,
            prism1: UnitDof::new(pos1),
            prism2: UnitDof::new(pos2),
            revo: UnitDof::new(angle),
        }).check()
    }

    /// A joint that slides along `axis1` and `axis2` without turning.
    /// Rejected with `ZeroAxis` when either axis is the zero vector.
    pub fn rectangular(axis1: Axis, axis2: Axis, offset1: i64, offset2: i64) -> (r: Result<
        Joint,
        Error,
    >)
        ensures
            axis1.wf() && axis2.wf() ==> r == Ok::<Joint, Error>(
                Joint::Rectangular {
                    axis1,
                    axis2,
                    prism1: UnitDof::fresh(offset1),
                    prism2: UnitDof::fresh(offset2),
                },
            ),
            !(axis1.wf() && axis2.wf()) ==> r == Err::<Joint, Error>(Error::ZeroAxis),
            r is Ok ==> r->Ok_0.wf(),
    {
        (Joint::Rectangular {
            axis1,
            axis2,
            prism1: UnitDof::new(offset1),
            prism2: UnitDof::new(offset2),
        }).check()
    }

    /// A joint that slides along `axis_v` and turns about `axis_w`.
    /// Rejected with `ZeroAxis` when either axis is the zero vector.
    pub fn pin_slot(axis_v: Axis, axis_w: Axis, position: i64, angle: i64) -> (r: Result<
        Joint,
        Error,
    >)
        ensures
            axis_v.wf() && axis_w.wf() ==> r == Ok::<Joint, Error>(
                Joint::PinSlot {
                    axis_v,
                    axis_w,
                    prism: UnitDof::fresh(position),
                    revo: UnitDof::fresh(angle),
                },
            ),
            !(axis_v.wf() && axis_w.wf()) ==> r == Err::<Joint, Error>(Error::ZeroAxis),
            r is Ok ==> r->Ok_0.wf(),
    {
        (Joint::PinSlot {
            axis_v,
            axis_w,
            prism: UnitDof::new(position),
            revo: UnitDof::new(angle),
        }).check()
    }

    /// Replaces the `index`-th controllable degree of freedom.
    fn set_unit(&mut self, index: usize, unit: UnitDof)
        requires
            index < old(self).units().len(),
        ensures
            *final(self) == old(self).with_unit(index as int, unit),
    {
        let next = match *self {
            Joint::Fixed => Joint::Fixed,
            Joint::Ball { axisangle } => Joint::Ball { axisangle },
            Joint::Revolute { axis, .. } => Joint::Revolute { axis, revo: unit },
            Joint::Prismatic { axis, .. } => Joint::Prismatic { axis, prism: unit },
            Joint::Helical { axis, pitch, .. } => Joint::Helical { axis, pitch, revo: unit },
            Joint::Universal { axis1, axis2, revo1, revo2 } => if index == 0 {
                Joint::Universal { axis1, axis2, revo1: unit, revo2 }
            } else {
                Joint::Universal { axis1, axis2, revo1, revo2: unit }
            },
            Joint::Planar { axis1, axis2, prism1, prism2, revo } => if index == 0 {
                Joint::Planar { axis1, axis2, prism1: unit, prism2, revo }
            } else if index == 1 {
                Joint::Planar { axis1, axis2, prism1, prism2: unit, revo }
            } else {
                Joint::Planar { axis1, axis2, prism1, prism2, revo: unit }
            },
            Joint::Rectangular { axis1, axis2, prism1, prism2 } => if index == 0 {
                Joint::Rectangular { axis1, axis2, prism1: unit, prism2 }
            } else {
                Joint::Rectangular { axis1, axis2, prism1, prism2: unit }
            },
            Joint::PinSlot { axis_v, axis_w, prism, revo } => if index == 0 {
                Joint::PinSlot { axis_v, axis_w, prism: unit, revo }
            } else {
                Joint::PinSlot { axis_v, axis_w, prism, revo: unit }
            },
        };
        *self = next;
    }

    /// Carries out `change` on the `index`-th controllable degree of
    /// freedom, or leaves the joint untouched and reports why not:
    /// `DofNotFound` when the joint has no such degree, `LimitsCrossed`
    /// when the change would put a limit beyond the opposite one.
    pub fn change(&mut self, index: usize, change: DofChange) -> (r: Result<(), Error>)
        ensures
            old(self).changed(index as int, change) is Ok ==> r is Ok,
            old(self).changed(index as int, change) is Err ==> r is Err,
            r is Err ==> r->Err_0 == old(self).changed(index as int, change)->Err_0,
            r is Err ==> *final(self) == *old(self),
            r is Ok ==> *final(self) == old(self).changed(index as int, change)->Ok_0,
    {
        match self.unit(index) {
            None => Err(Error::DofNotFound),
            Some(unit) => {
                let mut next = unit;
                match next.apply(change) {
                    Ok(()) => {
                        self.set_unit(index, next);
                        Ok(())
                    },
                    Err(e) => Err(e),
                }
            },
        }
    }
}

/// The axes of a joint are all non-zero exactly when each entry of `axes`
/// is, and likewise for the limits of its controllable degrees of freedom.
pub proof fn lemma_parts_ok(joint: Joint)
    ensures
        joint.axes_ok() <==> forall|i: int|
            0 <= i < joint.axes().len() ==> (#[trigger] joint.axes()[i]).wf(),
        joint.units_ok() <==> forall|i: int|
            0 <= i < joint.units().len() ==> (#[trigger] joint.units()[i]).wf(),
{
    let axes = joint.axes();
    let units = joint.units();
    match joint {
        Joint::Fixed => {},
        Joint::Ball { .. } => {},
        Joint::Revolute { axis, revo } => {
            assert(axes.len() == 1 && axes[0] == axis);
            assert(units.len() == 1 && units[0] == revo);
        },
        Joint::Prismatic { axis, prism } => {
            assert(axes.len() == 1 && axes[0] == axis);
            assert(units.len() == 1 && units[0] == prism);
        },
        Joint::Helical { axis, revo, .. } => {
            assert(axes.len() == 1 && axes[0] == axis);
            assert(units.len() == 1 && units[0] == revo);
        },
        Joint::Universal { axis1, axis2, revo1, revo2 } => {
            assert(axes.len() == 2 && axes[0] == axis1 && axes[1] == axis2);
            assert(units.len() == 2 && units[0] == revo1 && units[1] == revo2);
        },
        Joint::Planar { axis1, axis2, prism1, prism2, revo } => {
            assert(axes.len() == 2 && axes[0] == axis1 && axes[1] == axis2);
            assert(units.len() == 3 && units[0] == prism1 && units[1] == prism2 && units[2]
                == revo);
        },
        Joint::Rectangular { axis1, axis2, prism1, prism2 } => {
            assert(axes.len() == 2 && axes[0] == axis1 && axes[1] == axis2);
            assert(units.len() == 2 && units[0] == prism1 && units[1] == prism2);
        },
        Joint::PinSlot { axis_v, axis_w, prism, revo } => {
            assert(axes.len() == 2 && axes[0] == axis_v && axes[1] == axis_w);
            assert(units.len() == 2 && units[0] == prism && units[1] == revo);
        },
    }
}

/// Replacing one controllable degree of freedom changes that degree and
/// nothing else: not the kind of the joint, its axes, nor how many degrees
/// of freedom it has.
pub proof fn lemma_with_unit(joint: Joint, index: int, unit: UnitDof)
    requires
        0 <= index < joint.units().len(),
    ensures
        joint.with_unit(index, unit).units() == joint.units().update(index, unit),
        joint.with_unit(index, unit).axes() == joint.axes(),
        joint.with_unit(index, unit).spec_kind() == joint.spec_kind(),
        joint.with_unit(index, unit).dof_kinds() == joint.dof_kinds(),
        joint.with_unit(index, unit).plane_ok() == joint.plane_ok(),
{
    assert(joint.with_unit(index, unit).units() =~= joint.units().update(index, unit));
}

/// An accepted change leaves a well-formed joint well formed, of the same
/// kind and with the same axes.
pub proof fn lemma_change_keeps_wf(joint: Joint, index: int, change: DofChange)
    requires
        joint.wf(),
        joint.changed(index, change) is Ok,
    ensures
        joint.changed(index, change)->Ok_0.wf(),
        joint.changed(index, change)->Ok_0.spec_kind() == joint.spec_kind(),
        joint.changed(index, change)->Ok_0.axes() == joint.axes(),
        joint.changed(index, change)->Ok_0.dof_kinds() == joint.dof_kinds(),
{
    let unit = joint.units()[index].applied(change)->Ok_0;
    let next = joint.with_unit(index, unit);
    lemma_with_unit(joint, index, unit);
    lemma_parts_ok(joint);
    lemma_parts_ok(next);
    lemma_change_keeps_limits_ordered(joint.units()[index], change);
    assert forall|i: int| 0 <= i < next.units().len() implies (#[trigger] next.units()[i]).wf() by {
        if i != index {
            assert(next.units()[i] == joint.units()[i]);
        }
    }
}

} // verus!
