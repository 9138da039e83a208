//! Tuples, points, vectors and colours as carried data.
use vstd::prelude::*;
use crate::scalar::{Scalar, ONE_BITS};

verus! {

/// Four doubles. A point has `w` equal to 1, a vector has `w` equal to 0; a
/// colour is a tuple of red, green, blue and alpha.
#[derive(Clone, Copy, Debug, PartialEq, Eq, Structural)]
pub struct Tuple {
    pub x: Scalar,
    pub y: Scalar,
    pub z: Scalar,
    pub w: Scalar,
}

pub type Color = Tuple;

#[derive(Clone, Copy, Debug, PartialEq, Eq, Structural)]
pub struct Point {
    pub data: Tuple,
}

#[derive(Clone, Copy, Debug, PartialEq, Eq, Structural)]
pub struct Vector {
    pub data: Tuple,
}

impl Tuple {
    pub fn new(x: Scalar, y: Scalar, z: Scalar, w: Scalar) -> (r: Tuple)
        ensures
            r == (Tuple { x, y, z, w }),
    {
        Tuple { x, y, z, w }
    }

    /// The tuple with every component negated.
    pub open spec fn negated(self) -> Tuple {
        Tuple {
            x: self.x.negated(),
            y: self.y.negated(),
            z: self.z.negated(),
            w: self.w.negated(),
        }
    }

    /// The colour with every channel 0: black, and no contribution at all.
    pub open spec fn is_zero(self) -> bool {
        self.x.bits == 0 && self.y.bits == 0 && self.z.bits == 0 && self.w.bits == 0
    }

    pub fn zero() -> (r: Tuple)
        ensures
            r.is_zero(),
    {
        Tuple { x: Scalar::zero(), y: Scalar::zero(), z: Scalar::zero(), w: Scalar::zero() }
    }

    /// Whether `w` equals 1, as doubles compare.
    pub fn is_point(&self) -> (r: bool)
        ensures
            r == self.w.same_value(Scalar { bits: ONE_BITS }),
    {
        self.w.eq_value(&Scalar::one())
    }

    pub fn neg(&self) -> (r: Tuple)
        ensures
            r == self.negated(),
    {
        Tuple { x: self.x.neg(), y: self.y.neg(), z: self.z.neg(), w: self.w.neg() }
    }
}

impl Point {
    pub fn new(x: Scalar, y: Scalar, z: Scalar) -> (r: Point)
        ensures
            r.data == (Tuple { x, y, z, w: Scalar { bits: ONE_BITS } }),
    {
        Point { data: Tuple { x, y, z, w: Scalar::one() } }
    }

    /// Whether `w` equals 1, as doubles compare: true of what `new` makes.
    pub fn is_point(&self) -> (r: bool)
        ensures
            r == self.data.w.same_value(Scalar { bits: ONE_BITS }),
    {
        self.data.is_point()
    }

    pub fn x(&self) -> (r: Scalar)
        ensures
            r == self.data.x,
    {
        self.data.x
    }

    pub fn y(&self) -> (r: Scalar)
        ensures
            r == self.data.y,
    {
        self.data.y
    }

    pub fn z(&self) -> (r: Scalar)
        ensures
            r == self.data.z,
    {
        self.data.z
    }
}

impl Vector {
    pub fn new(x: Scalar, y: Scalar, z: Scalar) -> (r: Vector)
        ensures
            r.data == (Tuple { x, y, z, w: Scalar { bits: 0 } }),
    {
        Vector { data: Tuple { x, y, z, w: Scalar::zero() } }
    }

    /// Whether `w` equals 1, as doubles compare: false of what `new` makes.
    pub fn is_point(&self) -> (r: bool)
        ensures
            r == self.data.w.same_value(Scalar { bits: ONE_BITS }),
    {
        self.data.is_point()
    }

    pub fn x(&self) -> (r: Scalar)
        ensures
            r == self.data.x,
    {
        self.data.x
    }

    pub fn y(&self) -> (r: Scalar)
        ensures
            r == self.data.y,
    {
        self.data.y
    }

    pub fn z(&self) -> (r: Scalar)
        ensures
            r == self.data.z,
    {
        self.data.z
    }

    /// The vector that points the other way: every component negated, as
    /// multiplying by -1 leaves it.
    pub fn neg(&self) -> (r: Vector)
        ensures
            r.data == self.data.negated(),
    {
        Vector { data: self.data.neg() }
    }
}

} // verus!
