//! The scene's single light.
use vstd::prelude::*;
use crate::tuple::{Point, Tuple};

verus! {

#[derive(Clone, Copy, Debug, PartialEq, Eq, Structural)]
pub struct PointLight {
    pub position: Point,
    pub intensity: Tuple,
}

impl PointLight {
    pub fn new(position: Point, intensity: Tuple) -> (r: PointLight)
        ensures
            r.position == position,
            r.intensity == intensity,
    {
        PointLight { position, intensity }
    }

    pub fn position(&self) -> (r: Point)
        ensures
            r == self.position,
    {
        self.position
    }

    pub fn intensity(&self) -> (r: Tuple)
        ensures
            r == self.intensity,
    {
        self.intensity
    }
}

} // verus!
