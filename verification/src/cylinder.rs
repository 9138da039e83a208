//! The unit-radius cylinder round the `y` axis, optionally truncated and
//! capped.
use vstd::prelude::*;
use crate::intersection::{ordered, Intersection};
use crate::material::Material;
use crate::scalar::{Scalar, MAX_BITS, MIN_BITS, ONE_BITS};
use crate::shape_props::{
    check_cap, is_negligible, is_sloped, is_within, negligible, order_roots, reported, root_pair,
    sloped, tag_roots, within, Root, RootProbe,
};
use crate::transformation::{Step, Transform};
use crate::tuple::{Point, Tuple, Vector};

verus! {

#[derive(Debug, PartialEq, Eq)]
pub struct Cylinder {
    pub material: Material,
    pub transform: Transform,
    pub cylinder_minimum: Scalar,
    pub cylinder_maximum: Scalar,
    pub cylinder_closed: bool,
}

/// Where the ray crosses the plane of a cap: the ray parameter, and the
/// squared distance of that point from the `y` axis.
#[derive(Clone, Copy, Debug, PartialEq, Eq, Structural)]
pub struct CapProbe {
    pub t: Scalar,
    pub radius_squared: Scalar,
}

/// What was computed of a ray in the cylinder's own space.
///
/// With direction `d` and origin `o`: `a = dx² + dz²`, and `first` and
/// `second` are `(−b ∓ √disc) / 2a` for `b = 2(ox·dx + oz·dz)`,
/// `c = ox² + oz² − 1` and `disc = b² − 4ac`, each with the height
/// `t·dy + oy` that it reaches. `low_cap` and `high_cap` are the crossings
/// of the planes `y = min` and `y = max`.
#[derive(Clone, Copy, Debug, PartialEq, Eq, Structural)]
pub struct CylinderProbe {
    pub direction_y: Scalar,
    pub low_cap: CapProbe,
    pub high_cap: CapProbe,
    pub a: Scalar,
    pub discriminant: Scalar,
    pub first: RootProbe,
    pub second: RootProbe,
}

/// What was computed of a point in the cylinder's own space: the point, its
/// squared distance from the `y` axis, `max − ε` and `min + ε` for the
/// machine epsilon `ε`.
#[derive(Clone, Copy, Debug, PartialEq, Eq, Structural)]
pub struct CylinderNormalProbe {
    pub point: Point,
    pub radius_squared: Scalar,
    pub upper: Scalar,
    pub lower: Scalar,
}

impl Cylinder {
    /// The transform from the cylinder's own space to world space.
    pub fn transform(&self) -> (r: Transform)
        ensures
            r@ == self.transform@,
    {
        self.transform.duplicate()
    }

    pub fn set_transform(&mut self, t: Transform)
        ensures
            final(self).transform == t,
            final(self).material == old(self).material,
            final(self).cylinder_minimum == old(self).cylinder_minimum,
            final(self).cylinder_maximum == old(self).cylinder_maximum,
            final(self).cylinder_closed == old(self).cylinder_closed,
    {
        self.transform = t;
    }

    pub fn material(&self) -> (r: Material)
        ensures
            r.same_as(self.material),
    {
        self.material.duplicate()
    }

    pub fn set_material(&mut self, m: Material)
        ensures
            final(self).material == m,
            final(self).transform == old(self).transform,
            final(self).cylinder_minimum == old(self).cylinder_minimum,
            final(self).cylinder_maximum == old(self).cylinder_maximum,
            final(self).cylinder_closed == old(self).cylinder_closed,
    {
        self.material = m;
    }

    /// An open cylinder without end: truncated at the smallest and the
    /// largest finite double.
    pub fn new() -> (r: Cylinder)
        ensures
            r.cylinder_minimum.bits == MIN_BITS,
            r.cylinder_maximum.bits == MAX_BITS,
            !r.cylinder_closed,
            r.transform@ == Seq::<Step>::empty(),
            r.material.is_default(),
    {
        Cylinder {
            transform: Transform::new(),
            material: Material::default(),
            cylinder_maximum: Scalar::max_value(),
            cylinder_minimum: Scalar::min_value(),
            cylinder_closed: false,
        }
    }

    pub fn set_cylinder_truncation(&mut self, min: Scalar, max: Scalar)
        ensures
            final(self).cylinder_minimum == min,
            final(self).cylinder_maximum == max,
            final(self).cylinder_closed == old(self).cylinder_closed,
            final(self).transform == old(self).transform,
            final(self).material == old(self).material,
    {
        self.cylinder_minimum = min;
        self.cylinder_maximum = max;
    }

    pub fn set_cylinder_closed(&mut self, closed: bool)
        ensures
            final(self).cylinder_closed == closed,
            final(self).cylinder_minimum == old(self).cylinder_minimum,
            final(self).cylinder_maximum == old(self).cylinder_maximum,
            final(self).transform == old(self).transform,
            final(self).material == old(self).material,
    {
        self.cylinder_closed = closed;
    }

    /// The candidate roots of a probed ray, in discovery order: the two cap
    /// crossings, then the two roots of the wall's quadratic.
    ///
    /// A cap crossing stands on a closed cylinder, for a ray that is not
    /// parallel to the caps, within unit radius of the axis. A wall root
    /// stands if `a` is not negligible (the ray does not run along the
    /// axis), the discriminant is not negative, and the root's height lies
    /// strictly between the truncation planes.
    pub open spec fn roots(self, p: CylinderProbe) -> Seq<Root> {
        let caps = self.cylinder_closed && sloped(p.direction_y);
        let wall = !negligible(p.a) && !p.discriminant.less(Scalar { bits: 0 });
        let (near, far) = root_pair(p.first, p.second);
        seq![
            Root {
                t: p.low_cap.t,
                keep: caps && p.low_cap.radius_squared.less_eq(Scalar { bits: ONE_BITS }),
            },
            Root {
                t: p.high_cap.t,
                keep: caps && p.high_cap.radius_squared.less_eq(Scalar { bits: ONE_BITS }),
            },
            Root {
                t: near.t,
                keep: wall && within(near.y, self.cylinder_minimum, self.cylinder_maximum),
            },
            Root {
                t: far.t,
                keep: wall && within(far.y, self.cylinder_minimum, self.cylinder_maximum),
            },
        ]
    }

    /// The crossings of a probed ray with this cylinder, ascending by `t`.
    pub fn intersect(&self, object: usize, p: &CylinderProbe) -> (r: Vec<Intersection>)
        ensures
            r@ == reported(object, self.roots(*p)),
            ordered(r@),
            forall|i: int| 0 <= i < r@.len() ==> (#[trigger] r@[i]).object == object,
    {
        let min = self.cylinder_minimum;
        let max = self.cylinder_maximum;
        let mut roots: Vec<Root> = Vec::new();

        let caps = self.cylinder_closed && is_sloped(&p.direction_y);
        roots.push(Root { t: p.low_cap.t, keep: caps && check_cap(&p.low_cap.radius_squared) });
        roots.push(Root { t: p.high_cap.t, keep: caps && check_cap(&p.high_cap.radius_squared) });

        let wall = !is_negligible(&p.a) && !p.discriminant.lt(&Scalar::zero());
        let (near, far) = order_roots(p.first, p.second);
        roots.push(Root { t: near.t, keep: wall && is_within(&near.y, &min, &max) });
        roots.push(Root { t: far.t, keep: wall && is_within(&far.y, &min, &max) });

        proof {
            assert(roots@ =~= self.roots(*p));
        }
        tag_roots(object, &roots)
    }

    /// The normal at a probed point, in the cylinder's own space.
    pub open spec fn local_normal(p: CylinderNormalProbe) -> Vector {
        let y = p.point.data.y;
        let zero = Scalar { bits: 0 };
        let one = Scalar { bits: ONE_BITS };
        let on_disc = p.radius_squared.less_eq(one);
        if on_disc && p.upper.less_eq(y) {
            Vector { data: Tuple { x: zero, y: one, z: zero, w: zero } }
        } else if on_disc && y.less_eq(p.lower) {
            Vector { data: Tuple { x: zero, y: one.negated(), z: zero, w: zero } }
        } else {
            Vector { data: Tuple { x: p.point.data.x, y: zero, z: p.point.data.z, w: zero } }
        }
    }

    /// The normal at a probed point, in the cylinder's own space:
    /// `(0, ±1, 0)` on a cap, `(x, 0, z)` on the wall.
    pub fn normal_at(&self, p: &CylinderNormalProbe) -> (r: Vector)
        ensures
            r == Self::local_normal(*p),
    {
        let y = p.point.y();
        let on_disc = p.radius_squared.le(&Scalar::one());
        if on_disc && y.ge(&p.upper) {
            Vector::new(Scalar::zero(), Scalar::one(), Scalar::zero())
        } else if on_disc && y.le(&p.lower) {
            Vector::new(Scalar::zero(), Scalar::one().neg(), Scalar::zero())
        } else {
            Vector::new(p.point.x(), Scalar::zero(), p.point.z())
        }
    }
}

pub fn cylinder() -> (r: Cylinder)
    ensures
        r.cylinder_minimum.bits == MIN_BITS,
        r.cylinder_maximum.bits == MAX_BITS,
        !r.cylinder_closed,
        r.transform@ == Seq::<Step>::empty(),
        r.material.is_default(),
{
    Cylinder::new()
}

} // verus!
