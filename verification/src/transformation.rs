//! Object-to-world transforms, as the list of steps that builds them.
//!
//! The matrix of a transform is the product of its steps' matrices, the last
//! step leftmost. Forming, inverting and transposing that matrix is numeric
//! work and is left to the caller; here a transform is the description that
//! such work starts from.
use vstd::prelude::*;
use crate::scalar::Scalar;
use crate::tuple::{Point, Vector};

verus! {

/// One elementary transform.
#[derive(Clone, Copy, Debug, PartialEq, Eq, Structural)]
pub enum Step {
    RotateX { radian: Scalar },
    RotateY { radian: Scalar },
    RotateZ { radian: Scalar },
    Translate { x: Scalar, y: Scalar, z: Scalar },
    Scaling { x: Scalar, y: Scalar, z: Scalar },
    Shear { x_y: Scalar, x_z: Scalar, y_x: Scalar, y_z: Scalar, z_x: Scalar, z_y: Scalar },
    /// The change of basis that puts the eye at `from`, looking at `to`.
    View { from: Point, to: Point, up: Vector },
}

/// A transform: the steps applied so far, first step first. No step is the
/// identity.
#[derive(Debug, PartialEq, Eq)]
pub struct Transform {
    pub steps: Vec<Step>,
}

impl View for Transform {
    type V = Seq<Step>;

    open spec fn view(&self) -> Seq<Step> {
        self.steps@
    }
}

impl Transform {
    /// The identity.
    pub fn new() -> (r: Transform)
        ensures
            r@ == Seq::<Step>::empty(),
    {
        Transform { steps: Vec::new() }
    }

    /// A transform with the same steps.
    pub fn duplicate(&self) -> (r: Transform)
        ensures
            r@ == self@,
    {
        let mut steps: Vec<Step> = Vec::new();
        let mut i: usize = 0;
        while i < self.steps.len()
            invariant
                i <= self.steps.len(),
                steps@ == self.steps@.take(i as int),
            decreases self.steps.len() - i,
        {
            steps.push(self.steps[i]);
            proof {
                assert(self.steps@.take(i + 1) =~= self.steps@.take(i as int).push(
                    self.steps@[i as int],
                ));
            }
            i = i + 1;
        }
        proof {
            assert(self.steps@.take(i as int) =~= self.steps@);
        }
        Transform { steps }
    }

    /// This transform followed by `step`.
    pub fn then_step(&self, step: Step) -> (r: Transform)
        ensures
            r@ == self@.push(step),
    {
        let mut r = self.duplicate();
        r.steps.push(step);
        r
    }

    /// Resets this transform to the identity and returns the identity.
    pub fn identity(&mut self) -> (r: Transform)
        ensures
            final(self)@ == Seq::<Step>::empty(),
            r@ == Seq::<Step>::empty(),
    {
        self.steps = Vec::new();
        Transform { steps: Vec::new() }
    }

    pub fn rotate_x(&self, radian: Scalar) -> (r: Transform)
        ensures
            r@ == self@.push(Step::RotateX { radian }),
    {
        self.then_step(Step::RotateX { radian })
    }

    pub fn rotate_y(&self, radian: Scalar) -> (r: Transform)
        ensures
            r@ == self@.push(Step::RotateY { radian }),
    {
        self.then_step(Step::RotateY { radian })
    }

    pub fn rotate_z(&self, radian: Scalar) -> (r: Transform)
        ensures
            r@ == self@.push(Step::RotateZ { radian }),
    {
        self.then_step(Step::RotateZ { radian })
    }

    pub fn translate(&self, x: Scalar, y: Scalar, z: Scalar) -> (r: Transform)
        ensures
            r@ == self@.push(Step::Translate { x, y, z }),
    {
        self.then_step(Step::Translate { x, y, z })
    }

    pub fn scaling(&self, x: Scalar, y: Scalar, z: Scalar) -> (r: Transform)
        ensures
            r@ == self@.push(Step::Scaling { x, y, z }),
    {
        self.then_step(Step::Scaling { x, y, z })
    }

    pub fn shear(
        &self,
        x_y: Scalar,
        x_z: Scalar,
        y_x: Scalar,
        y_z: Scalar,
        z_x: Scalar,
        z_y: Scalar,
    ) -> (r: Transform)
        ensures
            r@ == self@.push(Step::Shear { x_y, x_z, y_x, y_z, z_x, z_y }),
    {
        self.then_step(Step::Shear { x_y, x_z, y_x, y_z, z_x, z_y })
    }
}

/// The transform that views the world from `from` towards `to`, with `up`
/// giving the upward direction.
#[allow(non_snake_case)]
pub fn ViewTransform(from: Point, to: Point, up: Vector) -> (r: Transform)
    ensures
        r@ == seq![Step::View { from, to, up }],
{
    let r = Transform::new().then_step(Step::View { from, to, up });
    proof {
        assert(r@ =~= seq![Step::View { from, to, up }]);
    }
    r
}

} // verus!
