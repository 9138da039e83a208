//! The unit sphere at the origin.
use vstd::prelude::*;
use crate::intersection::{ordered, Intersection};
use crate::material::Material;
use crate::scalar::{Scalar, ONE_BITS};
use crate::shape_props::{
    is_negligible, lemma_reported_of_two, negligible, reported, tag_roots, Root,
};
use crate::transformation::{Step, Transform};
use crate::tuple::{Point, Tuple, Vector};

verus! {

/// Bit pattern of 1.5, the refractive index of glass.
pub const GLASS_BITS: u64 = 0x3FF8_0000_0000_0000;

#[derive(Debug, PartialEq, Eq)]
pub struct Sphere {
    pub transform: Transform,
    pub material: Material,
}

/// What was computed of a ray in the sphere's own space.
///
/// With direction `d` and origin `o`: `a = d·d`, and `first` and `second`
/// are `(−b ∓ √disc) / 2a` for `b = 2 d·o`, `c = o·o − 1` and
/// `disc = b² − 4ac`.
#[derive(Clone, Copy, Debug, PartialEq, Eq, Structural)]
pub struct SphereProbe {
    pub a: Scalar,
    pub discriminant: Scalar,
    pub first: Scalar,
    pub second: Scalar,
}

impl Sphere {
    /// The transform from the sphere's own space to world space.
    pub fn transform(&self) -> (r: Transform)
        ensures
            r@ == self.transform@,
    {
        self.transform.duplicate()
    }

    pub fn set_transform(&mut self, t: Transform)
        ensures
            final(self).transform == t,
            final(self).material == old(self).material,
    {
        self.transform = t;
    }

    pub fn material(&self) -> (r: Material)
        ensures
            r.same_as(self.material),
    {
        self.material.duplicate()
    }

    pub fn set_material(&mut self, m: Material)
        ensures
            final(self).material == m,
            final(self).transform == old(self).transform,
    {
        self.material = m;
    }

    /// The unit sphere with the identity transform and the default material.
    pub fn default() -> (r: Sphere)
        ensures
            r.transform@ == Seq::<Step>::empty(),
            r.material.is_default(),
    {
        Sphere { transform: Transform::new(), material: Material::default() }
    }

    /// The candidate roots of a probed ray. Both stand, or neither: there is
    /// no root where `a` is negligible or the discriminant is negative.
    pub open spec fn roots(p: SphereProbe) -> Seq<Root> {
        let solvable = !negligible(p.a) && !p.discriminant.less(Scalar { bits: 0 });
        seq![Root { t: p.first, keep: solvable }, Root { t: p.second, keep: solvable }]
    }

    /// The crossings of a probed ray with this sphere, ascending by `t`: two
    /// (which may be equal) or none.
    pub fn intersect(&self, object: usize, p: &SphereProbe) -> (r: Vec<Intersection>)
        ensures
            r@ == reported(object, Self::roots(*p)),
            ordered(r@),
            forall|i: int| 0 <= i < r@.len() ==> (#[trigger] r@[i]).object == object,
    {
        let solvable = !is_negligible(&p.a) && !p.discriminant.lt(&Scalar::zero());
        let mut roots: Vec<Root> = Vec::new();
        roots.push(Root { t: p.first, keep: solvable });
        roots.push(Root { t: p.second, keep: solvable });
        proof {
            assert(roots@ =~= Self::roots(*p));
        }
        tag_roots(object, &roots)
    }

    /// The normal at a point of the sphere's own space: the vector from the
    /// centre to the point.
    pub fn normal_at(&self, local_point: &Point) -> (r: Vector)
        ensures
            r.data == (Tuple {
                x: local_point.data.x,
                y: local_point.data.y,
                z: local_point.data.z,
                w: Scalar { bits: 0 },
            }),
    {
        Vector::new(local_point.x(), local_point.y(), local_point.z())
    }
}

/// A sphere is crossed twice or not at all: not at all where `a` is
/// negligible or the discriminant is negative, else at both roots, the
/// nearer first. The two may be equal, and are then both reported.
pub proof fn lemma_sphere_crossings(object: usize, p: SphereProbe)
    ensures
        negligible(p.a) || p.discriminant.less(Scalar { bits: 0 }) ==> reported(
            object,
            Sphere::roots(p),
        ) == Seq::<Intersection>::empty(),
        !negligible(p.a) && !p.discriminant.less(Scalar { bits: 0 }) ==> reported(
            object,
            Sphere::roots(p),
        ) == if p.first.sort_key() <= p.second.sort_key() {
            seq![Intersection { t: p.first, object }, Intersection { t: p.second, object }]
        } else {
            seq![Intersection { t: p.second, object }, Intersection { t: p.first, object }]
        },
{
    let solvable = !negligible(p.a) && !p.discriminant.less(Scalar { bits: 0 });
    lemma_reported_of_two(
        object,
        Root { t: p.first, keep: solvable },
        Root { t: p.second, keep: solvable },
    );
}

pub fn sphere() -> (r: Sphere)
    ensures
        r.transform@ == Seq::<Step>::empty(),
        r.material.is_default(),
{
    Sphere::default()
}

/// A fully transparent unit sphere with the refractive index of glass, 1.5.
pub fn glass_sphere() -> (r: Sphere)
    ensures
        r.transform@ == Seq::<Step>::empty(),
        r.material.default_surface(),
        r.material.reflective.bits == 0,
        r.material.transparency.bits == ONE_BITS,
        r.material.refractive_index.bits == GLASS_BITS,
{
    let mut s = Sphere::default();
    s.material.transparency = Scalar::one();
    s.material.refractive_index = Scalar::from_bits(GLASS_BITS);
    s
}

} // verus!
