//! The plane `y = 0`.
use vstd::prelude::*;
use crate::intersection::{ordered, Intersection};
use crate::material::Material;
use crate::scalar::{Scalar, ONE_BITS};
use crate::shape_props::{
    is_sloped, lemma_reported_of_one, reported, sloped, tag_roots, Root, PARALLEL_BITS,
};
use crate::transformation::{Step, Transform};
use crate::tuple::{Tuple, Vector};

verus! {

#[derive(Debug, PartialEq, Eq)]
pub struct Plane {
    pub material: Material,
    pub transform: Transform,
}

/// What was computed of a ray in the plane's own space: the `y` component
/// of its direction, and the root `−oy / dy`.
#[derive(Clone, Copy, Debug, PartialEq, Eq, Structural)]
pub struct PlaneProbe {
    pub direction_y: Scalar,
    pub t: Scalar,
}

impl Plane {
    /// The transform from the plane's own space to world space.
    pub fn transform(&self) -> (r: Transform)
        ensures
            r@ == self.transform@,
    {
        self.transform.duplicate()
    }

    pub fn set_transform(&mut self, t: Transform)
        ensures
            final(self).transform == t,
            final(self).material == old(self).material,
    {
        self.transform = t;
    }

    pub fn material(&self) -> (r: Material)
        ensures
            r.same_as(self.material),
    {
        self.material.duplicate()
    }

    pub fn set_material(&mut self, m: Material)
        ensures
            final(self).material == m,
            final(self).transform == old(self).transform,
    {
        self.material = m;
    }

    /// The candidate root of a probed ray. It stands unless the ray is
    /// parallel to the plane, `|dy| <= 1e-4`.
    pub open spec fn roots(p: PlaneProbe) -> Seq<Root> {
        seq![Root { t: p.t, keep: sloped(p.direction_y) }]
    }

    /// The crossing of a probed ray with this plane: one, or none for a ray
    /// that is parallel to it or lies in it.
    pub fn intersect(&self, object: usize, p: &PlaneProbe) -> (r: Vec<Intersection>)
        ensures
            r@ == reported(object, Self::roots(*p)),
            ordered(r@),
            forall|i: int| 0 <= i < r@.len() ==> (#[trigger] r@[i]).object == object,
    {
        let mut roots: Vec<Root> = Vec::new();
        roots.push(Root { t: p.t, keep: is_sloped(&p.direction_y) });
        proof {
            assert(roots@ =~= Self::roots(*p));
        }
        tag_roots(object, &roots)
    }

    /// The normal, the same everywhere: `(0, 1, 0)`.
    pub fn normal_at(&self) -> (r: Vector)
        ensures
            r.data == (Tuple {
                x: Scalar { bits: 0 },
                y: Scalar { bits: ONE_BITS },
                z: Scalar { bits: 0 },
                w: Scalar { bits: 0 },
            }),
    {
        Vector::new(Scalar::zero(), Scalar::one(), Scalar::zero())
    }
}

/// A ray that is parallel to the plane or lies in it, `|dy| <= 1e-4`, has
/// no crossing with it. Any other ray has exactly one, at the probed root.
pub proof fn lemma_plane_crossings(object: usize, p: PlaneProbe)
    ensures
        p.direction_y.absolute().less_eq(Scalar { bits: PARALLEL_BITS }) ==> reported(
            object,
            Plane::roots(p),
        ) == Seq::<Intersection>::empty(),
        sloped(p.direction_y) ==> reported(object, Plane::roots(p)) == seq![
            Intersection { t: p.t, object },
        ],
{
    lemma_reported_of_one(object, Root { t: p.t, keep: sloped(p.direction_y) });
}

pub fn plane() -> (r: Plane)
    ensures
        r.transform@ == Seq::<Step>::empty(),
        r.material.is_default(),
{
    Plane { transform: Transform::new(), material: Material::default() }
}

} // verus!
