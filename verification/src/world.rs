//! The world: the one owner of bodies and colliders. Everything in it is
//! reached through handles, and a handle whose body or collider is gone
//! finds nothing.

use vstd::prelude::*;
use crate::arena::{Arena, Handle};
use crate::control::{Hysteresis, MotorCommand, Reading};
use crate::dof::{DofChange, UnitDof};
use crate::error::Error;
use crate::multibody::{tree_wf, total_dofs, Link, Multibody, MultibodyView};
use crate::vector::{Axis, Vec3};

verus! {

/// A body of the world.
#[derive(Debug)]
pub enum Body {
    /// The immovable ground: a single part that never moves.
    Ground,
    /// An articulated body: one part for each link.
    Multibody(Multibody),
}

/// What a body is, seen from outside.
pub enum BodyView {
    Ground,
    Multibody(MultibodyView),
}

impl BodyView {
    /// The number of parts a collider can be attached to.
    pub open spec fn num_parts(self) -> nat {
        match self {
            BodyView::Ground => 1,
            BodyView::Multibody(m) => m.links.len(),
        }
    }

    /// A multibody is a tree with one damping coefficient for each degree
    /// of freedom.
    pub open spec fn wf(self) -> bool {
        match self {
            BodyView::Ground => true,
            BodyView::Multibody(m) => tree_wf(m.links) && m.damping.len() == total_dofs(m.links),
        }
    }
}

impl View for Body {
    type V = BodyView;

    open spec fn view(&self) -> BodyView {
        match self {
            Body::Ground => BodyView::Ground,
            Body::Multibody(m) => BodyView::Multibody(m@),
        }
    }
}

impl Body {
    /// A multibody inside is well formed.
    pub open spec fn wf(&self) -> bool {
        match self {
            Body::Ground => true,
            Body::Multibody(m) => m.wf(),
        }
    }

    /// The number of parts a collider can be attached to.
    pub fn num_parts(&self) -> (n: usize)
        ensures
            n == self@.num_parts(),
    {
        match self {
            Body::Ground => 1,
            Body::Multibody(m) => m.num_links(),
        }
    }
}

/// One part of one body: the body's handle and the index of the part.
#[derive(Clone, Copy, Debug, PartialEq, Eq, Hash, Structural)]
pub struct BodyPartHandle {
    pub body: Handle,
    pub part: usize,
}

/// The geometry of a collider.
#[derive(Clone, Copy, Debug, PartialEq, Eq, Structural)]
pub enum Shape {
    /// A box, given by half its extent along each coordinate axis.
    Cuboid { half_extents: Vec3 },
    /// The half-space below the plane through the origin with the given
    /// normal.
    Plane { normal: Axis },
}

impl Shape {
    /// What is wrong with the shape, if anything: a cuboid with a negative
    /// extent, or a plane without a normal.
    pub open spec fn defect(self) -> Option<Error> {
        match self {
            Shape::Cuboid { half_extents } => if half_extents.non_negative() {
                None
            } else {
                Some(Error::NegativeExtent)
            },
            Shape::Plane { normal } => if normal.wf() {
                None
            } else {
                Some(Error::ZeroAxis)
            },
        }
    }

    /// Reports what is wrong with the shape, if anything.
    pub fn validate(&self) -> (r: Result<(), Error>)
        ensures
            self.defect() is None ==> r is Ok,
            self.defect() is Some ==> r == Err::<(), Error>(self.defect()->0),
    {
        match self {
            Shape::Cuboid { half_extents } => if half_extents.is_non_negative() {
                Ok(())
            } else {
                Err(Error::NegativeExtent)
            },
            Shape::Plane { normal } => if normal.is_valid() {
                Ok(())
            } else {
                Err(Error::ZeroAxis)
            },
        }
    }
}

/// What a collider is made of, before it is attached to a body part.
#[derive(Clone, Copy, Debug, PartialEq, Eq, Structural)]
pub struct ColliderDesc {
    pub shape: Shape,
    /// Mass per unit of volume, in thousandths.
    pub density: i64,
}

impl ColliderDesc {
    /// The collider that this description makes on `part`.
    pub open spec fn on(self, part: BodyPartHandle) -> Collider {
        Collider { shape: self.shape, density: self.density, part }
    }

    /// What is wrong with the description, if anything: first the shape,
    /// then a density below zero.
    pub open spec fn defect(self) -> Option<Error> {
        if self.shape.defect() is Some {
            self.shape.defect()
        } else if self.density < 0 {
            Some(Error::NegativeDensity)
        } else {
            None
        }
    }

    /// A collider description of the given shape, with density zero.
    pub fn new(shape: Shape) -> (d: ColliderDesc)
        ensures
            d == (ColliderDesc { shape, density: 0 }),
    {
        ColliderDesc { shape, density: 0 }
    }

    /// The same description with the given density.
    pub fn density(self, density: i64) -> (d: ColliderDesc)
        ensures
            d == (ColliderDesc { shape: self.shape, density }),
    {
        ColliderDesc { shape: self.shape, density }
    }

    /// Reports what is wrong with the description, if anything.
    pub fn validate(&self) -> (r: Result<(), Error>)
        ensures
            self.defect() is None ==> r is Ok,
            self.defect() is Some ==> r == Err::<(), Error>(self.defect()->0),
    {
        match self.shape.validate() {
            Err(e) => Err(e),
            Ok(()) => if self.density < 0 {
                Err(Error::NegativeDensity)
            } else {
                Ok(())
            },
        }
    }
}

/// A collider attached to a body part.
#[derive(Clone, Copy, Debug, PartialEq, Eq, Structural)]
pub struct Collider {
    pub shape: Shape,
    pub density: i64,
    pub part: BodyPartHandle,
}

/// A motor under threshold control: the degree of freedom `dof` of the
/// joint of one body part, and the thresholds that switch its motor.
#[derive(Clone, Copy, Debug, PartialEq, Eq, Structural)]
pub struct Controller {
    pub part: BodyPartHandle,
    pub dof: usize,
    pub rule: Hysteresis,
}

/// What a world is, seen from outside.
pub struct WorldView {
    pub gravity: Vec3,
    pub bodies: Map<Handle, BodyView>,
    pub colliders: Map<Handle, Collider>,
}

impl WorldView {
    /// What keeps a collider from being attached to `part`, if anything: no
    /// such body (`BodyNotFound`), or no such part of it (`LinkNotFound`).
    pub open spec fn part_defect(self, part: BodyPartHandle) -> Option<Error> {
        if !self.bodies.dom().contains(part.body) {
            Some(Error::BodyNotFound)
        } else if part.part >= self.bodies[part.body].num_parts() {
            Some(Error::LinkNotFound)
        } else {
            None
        }
    }

    /// The multibody the handle names, or why there is none: no body
    /// (`BodyNotFound`), or a body of another kind (`NotAMultibody`).
    pub open spec fn multibody_at(self, body: Handle) -> Result<MultibodyView, Error> {
        if !self.bodies.dom().contains(body) {
            Err(Error::BodyNotFound)
        } else {
            match self.bodies[body] {
                BodyView::Ground => Err(Error::NotAMultibody),
                BodyView::Multibody(m) => Ok(m),
            }
        }
    }

    /// The link the part handle names, or why there is none.
    pub open spec fn link_at(self, part: BodyPartHandle) -> Result<Link, Error> {
        match self.multibody_at(part.body) {
            Err(e) => Err(e),
            Ok(m) => if part.part < m.links.len() {
                Ok(m.links[part.part as int])
            } else {
                Err(Error::LinkNotFound)
            },
        }
    }

    /// The `index`-th controllable degree of freedom of the joint of the
    /// given part, or what is missing on the way to it.
    pub open spec fn unit_at(self, part: BodyPartHandle, index: int) -> Result<UnitDof, Error> {
        match self.multibody_at(part.body) {
            Err(e) => Err(e),
            Ok(m) => m.unit_at(part.part as int, index),
        }
    }

    /// What `change` on the `index`-th controllable degree of freedom of
    /// the joint of the given part makes of the world, or why it is
    /// refused.
    pub open spec fn changed(self, part: BodyPartHandle, index: int, change: DofChange) -> Result<
        WorldView,
        Error,
    > {
        match self.multibody_at(part.body) {
            Err(e) => Err(e),
            Ok(m) => match m.changed(part.part as int, index, change) {
                Err(e) => Err(e),
                Ok(next) => Ok(
                    WorldView {
                        bodies: self.bodies.insert(part.body, BodyView::Multibody(next)),
                        ..self
                    },
                ),
            },
        }
    }

    /// What the world becomes when `controller` is given `reading`,
    /// together with the command it gave; or what is missing on the way to
    /// the motor.
    pub open spec fn reacted(self, controller: Controller, reading: Reading) -> Result<
        (WorldView, MotorCommand),
        Error,
    > {
        let command = controller.rule.decision(reading);
        match command {
            MotorCommand::Keep => match self.unit_at(controller.part, controller.dof as int) {
                Err(e) => Err(e),
                Ok(_) => Ok((self, command)),
            },
            MotorCommand::Enable => match self.changed(
                controller.part,
                controller.dof as int,
                DofChange::EnableMotor,
            ) {
                Err(e) => Err(e),
                Ok(next) => Ok((next, command)),
            },
            MotorCommand::Disable => match self.changed(
                controller.part,
                controller.dof as int,
                DofChange::DisableMotor,
            ) {
                Err(e) => Err(e),
                Ok(next) => Ok((next, command)),
            },
        }
    }

    /// The world with `body` under the handle `h`.
    pub open spec fn with_body(self, h: Handle, body: BodyView) -> WorldView {
        WorldView { bodies: self.bodies.insert(h, body), ..self }
    }

    /// The world with `collider` under the handle `h`.
    pub open spec fn with_collider(self, h: Handle, collider: Collider) -> WorldView {
        WorldView { colliders: self.colliders.insert(h, collider), ..self }
    }

    /// The world without the collider `h`.
    pub open spec fn without_collider(self, h: Handle) -> WorldView {
        WorldView { colliders: self.colliders.remove(h), ..self }
    }

    /// The world without the body `h` and without the colliders that sat
    /// on it.
    pub open spec fn without_body(self, h: Handle) -> WorldView {
        WorldView {
            bodies: self.bodies.remove(h),
            colliders: self.colliders.restrict(
                Set::new(|c: Handle| self.colliders[c].part.body != h),
            ),
            ..self
        }
    }

    /// Every multibody is a tree, and every collider is well formed and
    /// sits on a part that exists.
    pub open spec fn consistent(self) -> bool {
        &&& forall|h: Handle|
            self.bodies.dom().contains(h) ==> (#[trigger] self.bodies[h]).wf()
        &&& forall|c: Handle|
            self.colliders.dom().contains(c) ==> {
                &&& self.part_defect((#[trigger] self.colliders[c]).part) is None
                &&& (ColliderDesc {
                    shape: self.colliders[c].shape,
                    density: self.colliders[c].density,
                }).defect() is None
            }
    }
}

/// The owner of all bodies and colliders.
#[derive(Debug)]
pub struct World {
    gravity: Vec3,
    bodies: Arena<Body>,
    colliders: Arena<Collider>,
}

impl View for World {
    type V = WorldView;

    closed spec fn view(&self) -> WorldView {
        WorldView {
            gravity: self.gravity,
            bodies: self.bodies@.map_values(|b: Body| b@),
            colliders: self.colliders@,
        }
    }
}

impl World {
    /// The stores are in order, every multibody is well formed, and what
    /// is seen from outside is consistent.
    pub closed spec fn wf(&self) -> bool {
        &&& self.bodies.wf()
        &&& self.colliders.wf()
        &&& forall|h: Handle|
            self.bodies@.dom().contains(h) ==> (#[trigger] self.bodies@[h]).wf()
        &&& self@.consistent()
    }

    /// The handle once named a body that has since been removed.
    pub closed spec fn retired_body(&self, h: Handle) -> bool {
        self.bodies.retired(h)
    }

    /// The handle once named a collider that has since been removed.
    pub closed spec fn retired_collider(&self, h: Handle) -> bool {
        self.colliders.retired(h)
    }

    /// Nothing has ever been removed from the world.
    pub closed spec fn dense(&self) -> bool {
        self.bodies.dense() && self.colliders.dense()
    }

    /// The number of places for bodies, vacant or not.
    pub closed spec fn body_places(&self) -> nat {
        self.bodies.capacity()
    }

    /// The number of places for colliders, vacant or not.
    pub closed spec fn collider_places(&self) -> nat {
        self.colliders.capacity()
    }

    /// An empty world under the given gravity.
    pub fn new(gravity: Vec3) -> (w: World)
        ensures
            w.wf(),
            w@.gravity == gravity,
            w@.bodies == Map::<Handle, BodyView>::empty(),
            w@.colliders == Map::<Handle, Collider>::empty(),
            forall|h: Handle| !w.retired_body(h) && !w.retired_collider(h),
            w.dense(),
            w.body_places() == 0,
            w.collider_places() == 0,
    {
        let w = World { gravity, bodies: Arena::new(), colliders: Arena::new() };
        assert(w@.bodies =~= Map::<Handle, BodyView>::empty());
        w
    }

    /// The gravity the world was made with.
    pub fn gravity(&self) -> (g: Vec3)
        ensures
            g == self@.gravity,
    {
        self.gravity
    }

    /// Puts a body into the world and returns the handle that names it from
    /// now on. The handle has never named a body before.
    pub fn insert_body(&mut self, body: Body) -> (h: Handle)
        requires
            old(self).wf(),
            body.wf(),
        ensures
            final(self).wf(),
            !old(self)@.bodies.dom().contains(h),
            !old(self).retired_body(h),
            final(self)@ == old(self)@.with_body(h, body@),
            forall|g: Handle| old(self).retired_body(g) ==> final(self).retired_body(g),
            forall|g: Handle| old(self).retired_collider(g) == final(self).retired_collider(g),
            final(self).collider_places() == old(self).collider_places(),
            old(self).dense() ==> final(self).dense(),
            old(self).dense() ==> final(self).body_places() == old(self).body_places() + 1,
            old(self).dense() ==> h == (Handle {
                index: old(self).body_places() as usize,
                generation: 0,
            }),
    {
        assert(body@.wf());
        let h = self.bodies.insert(body);
        proof {
            assert(self@.bodies =~= old(self)@.bodies.insert(h, body@));
            assert forall|c: Handle| self@.colliders.dom().contains(c) implies self@.part_defect(
                (#[trigger] self@.colliders[c]).part,
            ) is None by {
                assert(old(self)@.part_defect(old(self)@.colliders[c].part) is None);
            }
        }
        h
    }

    /// Whether the handle names a body.
    pub fn contains_body(&self, h: Handle) -> (b: bool)
        ensures
            b == self@.bodies.dom().contains(h),
    {
        self.bodies.contains(h)
    }

    /// The body the handle names; `None` when it names nothing.
    pub fn body(&self, h: Handle) -> (r: Option<&Body>)
        requires
            self.wf(),
        ensures
            self@.bodies.dom().contains(h) ==> r is Some && r->0@ == self@.bodies[h] && r->0.wf(),
            !self@.bodies.dom().contains(h) ==> r is None,
    {
        self.bodies.get(h)
    }

    /// The multibody the handle names; `None` when it names nothing or a
    /// body of another kind.
    pub fn multibody(&self, h: Handle) -> (r: Option<&Multibody>)
        requires
            self.wf(),
        ensures
            self@.multibody_at(h) is Ok ==> r is Some && r->0@ == self@.multibody_at(h)->Ok_0
                && r->0.wf(),
            self@.multibody_at(h) is Err ==> r is None,
    {
        match self.bodies.get(h) {
            Some(Body::Multibody(m)) => Some(m),
            _ => None,
        }
    }

    /// The link the part handle names, or why there is none.
    pub fn link(&self, part: BodyPartHandle) -> (r: Result<Link, Error>)
        requires
            self.wf(),
        ensures
            r == self@.link_at(part),
    {
        match self.bodies.get(part.body) {
            None => Err(Error::BodyNotFound),
            Some(Body::Ground) => Err(Error::NotAMultibody),
            Some(Body::Multibody(m)) => match m.link(part.part) {
                Some(l) => Ok(l),
                None => Err(Error::LinkNotFound),
            },
        }
    }

    /// The `index`-th controllable degree of freedom of the joint of the
    /// given part, or what is missing on the way to it.
    pub fn unit(&self, part: BodyPartHandle, index: usize) -> (r: Result<UnitDof, Error>)
        requires
            self.wf(),
        ensures
            r == self@.unit_at(part, index as int),
    {
        match self.bodies.get(part.body) {
            None => Err(Error::BodyNotFound),
            Some(Body::Ground) => Err(Error::NotAMultibody),
            Some(Body::Multibody(m)) => m.unit(part.part, index),
        }
    }

    /// The live body handles, in the order of their places.
    pub fn body_handles(&self) -> (r: Vec<Handle>)
        ensures
            forall|h: Handle| r@.contains(h) <==> self@.bodies.dom().contains(h),
            forall|j: int, k: int| 0 <= j < k < r@.len() ==> r@[j].index < r@[k].index,
    {
        self.bodies.handles()
    }

    /// The live collider handles, in the order of their places.
    pub fn collider_handles(&self) -> (r: Vec<Handle>)
        ensures
            forall|h: Handle| r@.contains(h) <==> self@.colliders.dom().contains(h),
            forall|j: int, k: int| 0 <= j < k < r@.len() ==> r@[j].index < r@[k].index,
    {
        self.colliders.handles()
    }

    /// The collider the handle names; `None` when it names nothing.
    pub fn collider(&self, h: Handle) -> (r: Option<Collider>)
        ensures
            self@.colliders.dom().contains(h) ==> r == Some(self@.colliders[h]),
            !self@.colliders.dom().contains(h) ==> r is None,
    {
        match self.colliders.get(h) {
            Some(c) => Some(*c),
            None => None,
        }
    }

    /// Attaches a collider to a body part and returns its handle. Nothing
    /// is attached when the description is malformed or the part does not
    /// exist; the error says which.
    pub fn insert_collider(&mut self, desc: ColliderDesc, part: BodyPartHandle) -> (r: Result<
        Handle,
        Error,
    >)
        requires
            old(self).wf(),
        ensures
            final(self).wf(),
            desc.defect() is Some ==> r == Err::<Handle, Error>(desc.defect()->0),
            desc.defect() is None && old(self)@.part_defect(part) is Some ==> r == Err::<
                Handle,
                Error,
            >(old(self)@.part_defect(part)->0),
            desc.defect() is None && old(self)@.part_defect(part) is None ==> r is Ok,
            r is Err ==> final(self)@ == old(self)@,
            r is Ok ==> !old(self)@.colliders.dom().contains(r->Ok_0),
            r is Ok ==> !old(self).retired_collider(r->Ok_0),
            r is Ok ==> final(self)@ == old(self)@.with_collider(r->Ok_0, desc.on(part)),
            forall|g: Handle| old(self).retired_collider(g) ==> final(self).retired_collider(g),
            forall|g: Handle| old(self).retired_body(g) == final(self).retired_body(g),
            final(self).body_places() == old(self).body_places(),
            old(self).dense() ==> final(self).dense(),
            r is Err ==> final(self).collider_places() == old(self).collider_places(),
            r is Ok && old(self).dense() ==> final(self).collider_places()
                == old(self).collider_places() + 1,
            r is Ok && old(self).dense() ==> r->Ok_0 == (Handle {
                index: old(self).collider_places() as usize,
                generation: 0,
            }),
    {
        match desc.validate() {
            Err(e) => {
                return Err(e);
            },
            Ok(()) => {},
        }
        match self.bodies.get(part.body) {
            None => {
                return Err(Error::BodyNotFound);
            },
            Some(body) => {
                if part.part >= body.num_parts() {
                    return Err(Error::LinkNotFound);
                }
            },
        }
        let collider = Collider { shape: desc.shape, density: desc.density, part };
        let h = self.colliders.insert(collider);
        proof {
            assert(self@.bodies =~= old(self)@.bodies);
            assert forall|c: Handle| self@.colliders.dom().contains(c) implies self@.part_defect(
                (#[trigger] self@.colliders[c]).part,
            ) is None by {
                if c != h {
                    assert(old(self)@.part_defect(old(self)@.colliders[c].part) is None);
                }
            }
        }
        Ok(h)
    }

    /// Carries out `change` on the `index`-th controllable degree of
    /// freedom of the joint of the given part, or leaves the world
    /// untouched and reports why not: the body, the link or the degree of
    /// freedom is missing, or the change would cross the limits.
    pub fn change_dof(&mut self, part: BodyPartHandle, index: usize, change: DofChange) -> (r:
        Result<(), Error>)
        requires
            old(self).wf(),
        ensures
            final(self).wf(),
            old(self)@.changed(part, index as int, change) is Ok ==> r is Ok,
            old(self)@.changed(part, index as int, change) is Err ==> r is Err,
            r is Err ==> r->Err_0 == old(self)@.changed(part, index as int, change)->Err_0,
            r is Err ==> final(self)@ == old(self)@,
            r is Ok ==> final(self)@ == old(self)@.changed(part, index as int, change)->Ok_0,
            forall|g: Handle| old(self).retired_body(g) == final(self).retired_body(g),
            forall|g: Handle| old(self).retired_collider(g) == final(self).retired_collider(g),
            old(self).dense() ==> final(self).dense(),
            final(self).body_places() == old(self).body_places(),
            final(self).collider_places() == old(self).collider_places(),
    {
        let r = match self.bodies.get_mut(part.body) {
            None => Err(Error::BodyNotFound),
            Some(body) => match body {
                Body::Ground => Err(Error::NotAMultibody),
                Body::Multibody(m) => m.change_dof(part.part, index, change),
            },
        };
        proof {
            if old(self)@.bodies.dom().contains(part.body) {
                assert(self.bodies@.dom() =~= old(self).bodies@.dom());
                if r is Ok {
                    assert(self@.bodies =~= old(self)@.changed(
                        part,
                        index as int,
                        change,
                    )->Ok_0.bodies);
                } else {
                    assert(self@.bodies =~= old(self)@.bodies);
                }
                assert forall|c: Handle|
                    self@.colliders.dom().contains(c) implies self@.part_defect(
                    (#[trigger] self@.colliders[c]).part,
                ) is None by {
                    assert(old(self)@.part_defect(old(self)@.colliders[c].part) is None);
                }
            } else {
                assert(self@.bodies =~= old(self)@.bodies);
            }
        }
        r
    }

    /// Gives `controller` a reading: decides what its motor should do,
    /// switches the motor in the world accordingly, and returns the command
    /// so that the simulation can follow. When the body, the link or the
    /// degree of freedom is gone, nothing changes and the error says what
    /// is missing.
    pub fn react(&mut self, controller: Controller, reading: Reading) -> (r: Result<
        MotorCommand,
        Error,
    >)
        requires
            old(self).wf(),
        ensures
            final(self).wf(),
            old(self)@.reacted(controller, reading) is Ok ==> r is Ok,
            old(self)@.reacted(controller, reading) is Err ==> r is Err,
            r is Err ==> r->Err_0 == old(self)@.reacted(controller, reading)->Err_0,
            r is Err ==> final(self)@ == old(self)@,
            r is Ok ==> r->Ok_0 == old(self)@.reacted(controller, reading)->Ok_0.1,
            r is Ok ==> final(self)@ == old(self)@.reacted(controller, reading)->Ok_0.0,
            forall|g: Handle| old(self).retired_body(g) == final(self).retired_body(g),
            forall|g: Handle| old(self).retired_collider(g) == final(self).retired_collider(g),
            old(self).dense() ==> final(self).dense(),
            final(self).body_places() == old(self).body_places(),
            final(self).collider_places() == old(self).collider_places(),
    {
        let command = controller.rule.decide(reading);
        match command {
            MotorCommand::Keep => match self.unit(controller.part, controller.dof) {
                Ok(_) => Ok(command),
                Err(e) => Err(e),
            },
            MotorCommand::Enable => match self.change_dof(
                controller.part,
                controller.dof,
                DofChange::EnableMotor,
            ) {
                Ok(()) => Ok(command),
                Err(e) => Err(e),
            },
            MotorCommand::Disable => match self.change_dof(
                controller.part,
                controller.dof,
                DofChange::DisableMotor,
            ) {
                Ok(()) => Ok(command),
                Err(e) => Err(e),
            },
        }
    }

    /// Takes a collider out of the world and retires its handle. `None`,
    /// and nothing changes, when the handle names nothing.
    pub fn remove_collider(&mut self, h: Handle) -> (r: Option<Collider>)
        requires
            old(self).wf(),
        ensures
            final(self).wf(),
            old(self)@.colliders.dom().contains(h) ==> r == Some(old(self)@.colliders[h]),
            old(self)@.colliders.dom().contains(h) ==> final(self)@ == old(self)@.without_collider(
                h,
            ),
            old(self)@.colliders.dom().contains(h) ==> final(self).retired_collider(h),
            !old(self)@.colliders.dom().contains(h) ==> r is None && final(self)@ == old(self)@,
            forall|g: Handle| old(self).retired_collider(g) ==> final(self).retired_collider(g),
            forall|g: Handle| old(self).retired_body(g) == final(self).retired_body(g),
    {
        let r = self.colliders.remove(h);
        proof {
            assert(self@.bodies =~= old(self)@.bodies);
            assert forall|c: Handle| self@.colliders.dom().contains(c) implies self@.part_defect(
                (#[trigger] self@.colliders[c]).part,
            ) is None by {
                assert(old(self)@.part_defect(old(self)@.colliders[c].part) is None);
            }
        }
        r
    }

    /// Takes a body out of the world, together with every collider that
    /// sat on it, and retires their handles. `None`, and nothing changes,
    /// when the handle names nothing.
    pub fn remove_body(&mut self, h: Handle) -> (r: Option<Body>)
        requires
            old(self).wf(),
        ensures
            final(self).wf(),
            old(self)@.bodies.dom().contains(h) ==> r is Some,
            !old(self)@.bodies.dom().contains(h) ==> r is None,
            r is None ==> final(self)@ == old(self)@,
            r is Some ==> r->0@ == old(self)@.bodies[h] && r->0.wf(),
            r is Some ==> final(self)@ == old(self)@.without_body(h),
            r is Some ==> final(self).retired_body(h),
            forall|g: Handle| old(self).retired_body(g) ==> final(self).retired_body(g),
            forall|g: Handle| old(self).retired_collider(g) ==> final(self).retired_collider(g),
    {
        if !self.bodies.contains(h) {
            return None;
        }
        let handles = self.colliders.handles();
        let mut i: usize = 0;
        while i < handles.len()
            invariant
                i <= handles@.len(),
                self.gravity == old(self).gravity,
                self.bodies == old(self).bodies,
                self.colliders.wf(),
                forall|c: Handle| handles@.contains(c) <==> old(self).colliders@.dom().contains(c),
                forall|c: Handle| #[trigger]
                    self.colliders@.dom().contains(c) ==> old(self).colliders@.dom().contains(c)
                        && self.colliders@[c] == old(self).colliders@[c],
                forall|c: Handle| #[trigger]
                    old(self).colliders@.dom().contains(c) && old(self).colliders@[c].part.body
                        != h ==> self.colliders@.dom().contains(c),
                forall|j: int|
                    0 <= j < i ==> !(self.colliders@.dom().contains(#[trigger] handles@[j])
                        && old(self).colliders@[handles@[j]].part.body == h),
                forall|g: Handle| old(self).colliders.retired(g) ==> self.colliders.retired(g),
            decreases handles@.len() - i,
        {
            let c = handles[i];
            let attached = match self.colliders.get(c) {
                Some(collider) => collider.part.body == h,
                None => false,
            };
            if attached {
                let ghost prev = self.colliders@;
                let _ = self.colliders.remove(c);
                assert forall|d: Handle| #[trigger]
                    self.colliders@.dom().contains(d) implies prev.dom().contains(d)
                    && self.colliders@[d] == prev[d] by {}
            }
            i += 1;
        }
        let r = self.bodies.remove(h);
        proof {
            let before = old(self)@;
            assert forall|c: Handle|
                self.colliders@.dom().contains(c) implies old(self).colliders@[c].part.body
                != h by {
                assert(handles@.contains(c));
                let j = choose|j: int| 0 <= j < handles@.len() && handles@[j] == c;
                assert(handles@[j] == c);
            }
            assert(self@.bodies =~= before.without_body(h).bodies);
            assert(self@.colliders =~= before.without_body(h).colliders);
            assert forall|c: Handle| self@.colliders.dom().contains(c) implies self@.part_defect(
                (#[trigger] self@.colliders[c]).part,
            ) is None by {
                assert(before.part_defect(before.colliders[c].part) is None);
            }
        }
        r
    }
}

/// What a well-formed world shows is consistent.
pub proof fn lemma_world_consistent(world: World)
    requires
        world.wf(),
    ensures
        world@.consistent(),
{
}

/// In a world from which nothing has been removed, the live handles are
/// those of generation zero whose index is below the number of places.
pub proof fn lemma_dense_world(world: World, h: Handle)
    requires
        world.dense(),
    ensures
        world@.bodies.dom().contains(h) <==> (h.generation == 0 && h.index < world.body_places()),
        world@.colliders.dom().contains(h) <==> (h.generation == 0 && h.index
            < world.collider_places()),
{
    crate::arena::lemma_dense_handles(world.bodies, h);
    crate::arena::lemma_dense_handles(world.colliders, h);
}

/// A retired handle names nothing.
pub proof fn lemma_retired_names_nothing(world: World, h: Handle)
    ensures
        world.retired_body(h) ==> !world@.bodies.dom().contains(h),
        world.retired_collider(h) ==> !world@.colliders.dom().contains(h),
{
    crate::arena::lemma_live_is_not_retired(world.bodies, h);
    crate::arena::lemma_live_is_not_retired(world.colliders, h);
}

} // verus!
