//! The double-napped cone: radius `|y|` at height `y`, optionally truncated
//! and capped.
use vstd::prelude::*;
use crate::intersection::{ordered, Intersection};
use crate::material::Material;
use crate::scalar::{Scalar, MACHINE_EPSILON_BITS, MAX_BITS, MIN_BITS, ONE_BITS};
use crate::shape_props::{
    check_cap_cone, is_sloped, is_within, order_roots, reported, root_pair, sloped, tag_roots,
    within, Root, RootProbe, EPSILON_BITS,
};
use crate::transformation::{Step, Transform};
use crate::tuple::{Point, Tuple, Vector};

verus! {

#[derive(Debug, PartialEq, Eq)]
pub struct Cone {
    pub material: Material,
    pub transform: Transform,
    pub cylinder_minimum: Scalar,
    pub cylinder_maximum: Scalar,
    pub cylinder_closed: bool,
}

/// Where the ray crosses the plane of a cap: the ray parameter, and the
/// distance of that point from the `y` axis.
#[derive(Clone, Copy, Debug, PartialEq, Eq, Structural)]
pub struct ConeCapProbe {
    pub t: Scalar,
    pub radius: Scalar,
}

/// What was computed of a ray in the cone's own space.
///
/// With direction `d` and origin `o`: `a = dx² − dy² + dz²`,
/// `b = 2(ox·dx − oy·dy + oz·dz)`, `c = ox² − oy² + oz²`. `linear` is the
/// root `−c / 2b` of the equation without its square term; `first` and
/// `second` are `(−b ∓ √disc) / 2a`, with `disc = b² − 4ac`. Each root comes
/// with the height `t·dy + oy` that it reaches. `low_cap` and `high_cap` are
/// the crossings of the planes `y = min` and `y = max`.
#[derive(Clone, Copy, Debug, PartialEq, Eq, Structural)]
pub struct ConeProbe {
    pub direction_y: Scalar,
    pub low_cap: ConeCapProbe,
    pub high_cap: ConeCapProbe,
    pub a: Scalar,
    pub b: Scalar,
    pub linear: RootProbe,
    pub discriminant: Scalar,
    pub first: RootProbe,
    pub second: RootProbe,
}

/// What was computed of a point in the cone's own space: the point, its
/// distance from the `y` axis, `max − ε` and `min + ε` for the machine
/// epsilon `ε`.
#[derive(Clone, Copy, Debug, PartialEq, Eq, Structural)]
pub struct ConeNormalProbe {
    pub point: Point,
    pub radius: Scalar,
    pub upper: Scalar,
    pub lower: Scalar,
}

/// `|v| <= 1e-5`: the coefficient counts as zero.
pub open spec fn vanishes(v: Scalar) -> bool {
    v.absolute().less_eq(Scalar { bits: EPSILON_BITS })
}

fn is_vanishing(v: &Scalar) -> (r: bool)
    ensures
        r == vanishes(*v),
{
    v.abs().le(&Scalar::from_bits(EPSILON_BITS))
}

/// `|y| <= ε` for the machine epsilon: the height of the apex.
pub open spec fn at_apex(y: Scalar) -> bool {
    y.absolute().less_eq(Scalar { bits: MACHINE_EPSILON_BITS })
}

fn is_at_apex(y: &Scalar) -> (r: bool)
    ensures
        r == at_apex(*y),
{
    y.abs().le(&Scalar::from_bits(MACHINE_EPSILON_BITS))
}

impl Cone {
    /// An open double cone without end: truncated at the smallest and the
    /// largest finite double.
    pub fn new() -> (r: Cone)
        ensures
            r.cylinder_minimum.bits == MIN_BITS,
            r.cylinder_maximum.bits == MAX_BITS,
            !r.cylinder_closed,
            r.transform@ == Seq::<Step>::empty(),
            r.material.is_default(),
    {
        Cone {
            transform: Transform::new(),
            material: Material::default(),
            cylinder_maximum: Scalar::max_value(),
            cylinder_minimum: Scalar::min_value(),
            cylinder_closed: false,
        }
    }

    /// The transform from the cone's own space to world space.
    pub fn transform(&self) -> (r: Transform)
        ensures
            r@ == self.transform@,
    {
        self.transform.duplicate()
    }

    pub fn set_transform(&mut self, t: Transform)
        ensures
            final(self).transform == t,
            final(self).material == old(self).material,
            final(self).cylinder_minimum == old(self).cylinder_minimum,
            final(self).cylinder_maximum == old(self).cylinder_maximum,
            final(self).cylinder_closed == old(self).cylinder_closed,
    {
        self.transform = t;
    }

    pub fn material(&self) -> (r: Material)
        ensures
            r.same_as(self.material),
    {
        self.material.duplicate()
    }

    pub fn set_material(&mut self, m: Material)
        ensures
            final(self).material == m,
            final(self).transform == old(self).transform,
            final(self).cylinder_minimum == old(self).cylinder_minimum,
            final(self).cylinder_maximum == old(self).cylinder_maximum,
            final(self).cylinder_closed == old(self).cylinder_closed,
    {
        self.material = m;
    }

    /// The candidate roots of a probed ray, in discovery order: the two cap
    /// crossings, the linear root, the two roots of the quadratic.
    ///
    /// A cap crossing stands on a closed cone, for a ray that is not
    /// parallel to the caps, within radius `|y|` of the axis. A coefficient
    /// vanishes where its size is at most 1e-5. With `a` and `b` both
    /// vanishing the wall has no root. With `a` alone vanishing it has the
    /// linear one. Otherwise it has the two of the quadratic, if the
    /// discriminant is not negative. A wall root stands if its height lies
    /// strictly between the truncation planes.
    pub open spec fn roots(self, p: ConeProbe) -> Seq<Root> {
        let caps = self.cylinder_closed && sloped(p.direction_y);
        let flat = vanishes(p.a);
        let curved = !flat && (Scalar { bits: 0 }).less_eq(p.discriminant);
        let (near, far) = root_pair(p.first, p.second);
        seq![
            Root {
                t: p.low_cap.t,
                keep: caps && p.low_cap.radius.less_eq(self.cylinder_minimum.absolute()),
            },
            Root {
                t: p.high_cap.t,
                keep: caps && p.high_cap.radius.less_eq(self.cylinder_maximum.absolute()),
            },
            Root {
                t: p.linear.t,
                keep: flat && !vanishes(p.b) && within(
                    p.linear.y,
                    self.cylinder_minimum,
                    self.cylinder_maximum,
                ),
            },
            Root {
                t: near.t,
                keep: curved && within(near.y, self.cylinder_minimum, self.cylinder_maximum),
            },
            Root {
                t: far.t,
                keep: curved && within(far.y, self.cylinder_minimum, self.cylinder_maximum),
            },
        ]
    }

    /// The crossings of a probed ray with this cone, ascending by `t`.
    pub fn intersect(&self, object: usize, p: &ConeProbe) -> (r: Vec<Intersection>)
        ensures
            r@ == reported(object, self.roots(*p)),
            ordered(r@),
            forall|i: int| 0 <= i < r@.len() ==> (#[trigger] r@[i]).object == object,
    {
        let min = self.cylinder_minimum;
        let max = self.cylinder_maximum;
        let mut roots: Vec<Root> = Vec::new();

        let caps = self.cylinder_closed && is_sloped(&p.direction_y);
        roots.push(Root { t: p.low_cap.t, keep: caps && check_cap_cone(&p.low_cap.radius, &min) });
        roots.push(
            Root { t: p.high_cap.t, keep: caps && check_cap_cone(&p.high_cap.radius, &max) },
        );

        let flat = is_vanishing(&p.a);
        let linear = flat && !is_vanishing(&p.b) && is_within(&p.linear.y, &min, &max);
        roots.push(Root { t: p.linear.t, keep: linear });

        let curved = !flat && p.discriminant.ge(&Scalar::zero());
        let (near, far) = order_roots(p.first, p.second);
        roots.push(Root { t: near.t, keep: curved && is_within(&near.y, &min, &max) });
        roots.push(Root { t: far.t, keep: curved && is_within(&far.y, &min, &max) });

        proof {
            assert(roots@ =~= self.roots(*p));
        }
        tag_roots(object, &roots)
    }

    /// The normal at a probed point, in the cone's own space. `None` at the
    /// apex, `|y| <= ε`, where the cone has no normal.
    pub open spec fn local_normal(p: ConeNormalProbe) -> Option<Vector> {
        let y = p.point.data.y;
        let zero = Scalar { bits: 0 };
        let one = Scalar { bits: ONE_BITS };
        let on_disc = p.radius.less_eq(y.absolute());
        if at_apex(y) {
            None
        } else if on_disc && p.upper.less_eq(y) {
            Some(Vector { data: Tuple { x: zero, y: one, z: zero, w: zero } })
        } else if on_disc && y.less_eq(p.lower) {
            Some(Vector { data: Tuple { x: zero, y: one.negated(), z: zero, w: zero } })
        } else if zero.less(y) {
            Some(
                Vector {
                    data: Tuple {
                        x: p.point.data.x,
                        y: p.radius.negated(),
                        z: p.point.data.z,
                        w: zero,
                    },
                },
            )
        } else {
            Some(
                Vector {
                    data: Tuple { x: p.point.data.x, y: p.radius, z: p.point.data.z, w: zero },
                },
            )
        }
    }

    /// The normal at a probed point, in the cone's own space: `(0, ±1, 0)`
    /// on a cap, else `(x, ∓radius, z)`, pointing away from the axis and
    /// against the slope. `None` at the apex.
    pub fn normal_at(&self, p: &ConeNormalProbe) -> (r: Option<Vector>)
        ensures
            r == Self::local_normal(*p),
    {
        let y = p.point.y();
        let on_disc = p.radius.le(&y.abs());
        if is_at_apex(&y) {
            None
        } else if on_disc && y.ge(&p.upper) {
            Some(Vector::new(Scalar::zero(), Scalar::one(), Scalar::zero()))
        } else if on_disc && y.le(&p.lower) {
            Some(Vector::new(Scalar::zero(), Scalar::one().neg(), Scalar::zero()))
        } else if y.gt(&Scalar::zero()) {
            Some(Vector::new(p.point.x(), p.radius.neg(), p.point.z()))
        } else {
            Some(Vector::new(p.point.x(), p.radius, p.point.z()))
        }
    }
}

} // verus!
