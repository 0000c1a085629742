//! Fixed-point vectors and joint axes.
//!
//! Lengths, angles and speeds are held as whole numbers of thousandths, so
//! that every comparison and every sum in the library is exact.

use vstd::prelude::*;
use crate::error::Error;

verus! {

/// Number of fixed-point units in one whole unit of length, angle or speed.
pub const UNITS_PER_ONE: i64 = 1000;

/// A vector of three fixed-point components, in thousandths.
#[derive(Clone, Copy, Debug, PartialEq, Eq, Structural)]
pub struct Vec3 {
    pub x: i64,
    pub y: i64,
    pub z: i64,
}

impl Vec3 {
    /// The vector with the given components.
    pub fn new(x: i64, y: i64, z: i64) -> (v: Vec3)
        ensures
            v == (Vec3 { x, y, z }),
    {
        Vec3 { x, y, z }
    }

    /// The vector whose components are all zero.
    pub fn zeros() -> (v: Vec3)
        ensures
            v == (Vec3 { x: 0, y: 0, z: 0 }),
    {
        Vec3 { x: 0, y: 0, z: 0 }
    }

    /// The vector whose three components all equal `value`.
    pub fn repeat(value: i64) -> (v: Vec3)
        ensures
            v == (Vec3 { x: value, y: value, z: value }),
    {
        Vec3 { x: value, y: value, z: value }
    }

    /// Whether no component is below zero.
    pub open spec fn non_negative(self) -> bool {
        self.x >= 0 && self.y >= 0 && self.z >= 0
    }

    /// Whether no component is below zero.
    pub fn is_non_negative(&self) -> (b: bool)
        ensures
            b == self.non_negative(),
    {
        self.x >= 0 && self.y >= 0 && self.z >= 0
    }
}

/// The direction of a joint axis: any integer vector but the zero vector.
/// Only the direction counts, not the length.
#[derive(Clone, Copy, Debug, PartialEq, Eq, Structural)]
pub struct Axis {
    pub x: i32,
    pub y: i32,
    pub z: i32,
}

/// The cross product of two integer directions, component by component.
pub open spec fn cross(a: Axis, b: Axis) -> (int, int, int) {
    (a.y * b.z - a.z * b.y, a.z * b.x - a.x * b.z, a.x * b.y - a.y * b.x)
}

/// Two directions are collinear when their cross product vanishes.
pub open spec fn collinear(a: Axis, b: Axis) -> bool {
    cross(a, b) == (0int, 0int, 0int)
}

/// The product of two 32-bit numbers, which always fits in 64 bits.
fn wide_product(a: i32, b: i32) -> (p: i64)
    ensures
        p == a * b,
        -0x4000_0000_0000_0000 < p <= 0x4000_0000_0000_0000,
{
    assert(-0x4000_0000_0000_0000 < a * b <= 0x4000_0000_0000_0000) by (nonlinear_arith)
        requires
            -0x8000_0000 <= a <= 0x7fff_ffff,
            -0x8000_0000 <= b <= 0x7fff_ffff,
    ;
    let wa: i64 = a as i64;
    let wb: i64 = b as i64;
    wa * wb
}

impl Axis {
    /// An axis is well formed when it is not the zero vector.
    pub open spec fn wf(self) -> bool {
        self.x != 0 || self.y != 0 || self.z != 0
    }

    /// The axis along `(x, y, z)`, or `ZeroAxis` when all three are zero.
    pub fn new(x: i32, y: i32, z: i32) -> (r: Result<Axis, Error>)
        ensures
            (x != 0 || y != 0 || z != 0) ==> r == Ok::<Axis, Error>(Axis { x, y, z }),
            (x == 0 && y == 0 && z == 0) ==> r == Err::<Axis, Error>(Error::ZeroAxis),
    {
        if x == 0 && y == 0 && z == 0 {
            Err(Error::ZeroAxis)
        } else {
            Ok(Axis { x, y, z })
        }
    }

    /// The first coordinate axis.
    pub fn x_axis() -> (a: Axis)
        ensures
            a == (Axis { x: 1, y: 0, z: 0 }),
            a.wf(),
    {
        Axis { x: 1, y: 0, z: 0 }
    }

    /// The second coordinate axis.
    pub fn y_axis() -> (a: Axis)
        ensures
            a == (Axis { x: 0, y: 1, z: 0 }),
            a.wf(),
    {
        Axis { x: 0, y: 1, z: 0 }
    }

    /// The third coordinate axis.
    pub fn z_axis() -> (a: Axis)
        ensures
            a == (Axis { x: 0, y: 0, z: 1 }),
            a.wf(),
    {
        Axis { x: 0, y: 0, z: 1 }
    }

    /// Whether the axis is not the zero vector.
    pub fn is_valid(&self) -> (b: bool)
        ensures
            b == self.wf(),
    {
        self.x != 0 || self.y != 0 || self.z != 0
    }

    /// Whether `self` and `other` point along the same line.
    pub fn is_collinear_with(&self, other: &Axis) -> (b: bool)
        ensures
            b == collinear(*self, *other),
    {
        let cx: i64 = wide_product(self.y, other.z) - wide_product(self.z, other.y);
        let cy: i64 = wide_product(self.z, other.x) - wide_product(self.x, other.z);
        let cz: i64 = wide_product(self.x, other.y) - wide_product(self.y, other.x);
        cx == 0 && cy == 0 && cz == 0
    }
}

/// Collinearity does not depend on the order of the two axes.
pub proof fn lemma_collinear_symmetric(a: Axis, b: Axis)
    ensures
        collinear(a, b) == collinear(b, a),
{
    assert(a.y * b.z == b.z * a.y && a.z * b.y == b.y * a.z && a.z * b.x == b.x * a.z
        && a.x * b.z == b.z * a.x && a.x * b.y == b.y * a.x && a.y * b.x == b.x * a.y)
        by (nonlinear_arith);
}

/// Every axis is collinear with itself.
pub proof fn lemma_collinear_reflexive(a: Axis)
    ensures
        collinear(a, a),
{
    assert(a.y * a.z == a.z * a.y && a.z * a.x == a.x * a.z && a.x * a.y == a.y * a.x)
        by (nonlinear_arith);
}

} // verus!
