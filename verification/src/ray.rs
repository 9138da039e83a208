//! Rays.
use vstd::prelude::*;
use crate::tuple::{Point, Vector};

verus! {

/// An origin and a direction. The direction need not have unit length.
#[derive(Clone, Copy, Debug, PartialEq, Eq, Structural)]
pub struct Ray {
    pub origin: Point,
    pub direction: Vector,
}

impl Ray {
    pub fn new(origin: Point, direction: Vector) -> (r: Ray)
        ensures
            r.origin == origin,
            r.direction == direction,
    {
        Ray { origin, direction }
    }

    pub fn origin(&self) -> (r: Point)
        ensures
            r == self.origin,
    {
        self.origin
    }

    pub fn direction(&self) -> (r: Vector)
        ensures
            r == self.direction,
    {
        self.direction
    }
}

} // verus!
