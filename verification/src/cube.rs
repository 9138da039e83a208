//! The axis-aligned cube `[-1, 1]³`.
use vstd::prelude::*;
use crate::intersection::{ordered, Intersection};
use crate::material::Material;
use crate::scalar::Scalar;
use crate::shape_props::{
    axis_interval, check_axis, lemma_reported_of_two, reported, tag_roots, AxisProbe, Root,
};
use crate::transformation::{Step, Transform};
use crate::tuple::{Point, Tuple, Vector};

verus! {

#[derive(Debug, PartialEq, Eq)]
pub struct Cube {
    pub material: Material,
    pub transform: Transform,
}

/// What was computed of a ray in the cube's own space, axis by axis.
#[derive(Clone, Copy, Debug, PartialEq, Eq, Structural)]
pub struct CubeProbe {
    pub x: AxisProbe,
    pub y: AxisProbe,
    pub z: AxisProbe,
}

impl Cube {
    /// The transform from the cube's own space to world space.
    pub fn transform(&self) -> (r: Transform)
        ensures
            r@ == self.transform@,
    {
        self.transform.duplicate()
    }

    pub fn set_transform(&mut self, t: Transform)
        ensures
            final(self).transform == t,
            final(self).material == old(self).material,
    {
        self.transform = t;
    }

    pub fn material(&self) -> (r: Material)
        ensures
            r.same_as(self.material),
    {
        self.material.duplicate()
    }

    pub fn set_material(&mut self, m: Material)
        ensures
            final(self).material == m,
            final(self).transform == old(self).transform,
    {
        self.material = m;
    }

    pub fn default() -> (r: Cube)
        ensures
            r.transform@ == Seq::<Step>::empty(),
            r.material.is_default(),
    {
        Cube { transform: Transform::new(), material: Material::default() }
    }

    /// Where the ray enters the last of the three slabs.
    pub open spec fn entry(p: CubeProbe) -> Scalar {
        axis_interval(p.x).0.larger(axis_interval(p.y).0).larger(axis_interval(p.z).0)
    }

    /// Where the ray leaves the first of the three slabs.
    pub open spec fn exit(p: CubeProbe) -> Scalar {
        axis_interval(p.x).1.smaller(axis_interval(p.y).1).smaller(axis_interval(p.z).1)
    }

    /// The candidate roots of a probed ray: entry and exit. Both stand, or
    /// neither: the ray misses where it leaves one slab before it has
    /// entered another.
    pub open spec fn roots(p: CubeProbe) -> Seq<Root> {
        let crosses = !Self::exit(p).less(Self::entry(p));
        seq![Root { t: Self::entry(p), keep: crosses }, Root { t: Self::exit(p), keep: crosses }]
    }

    /// The crossings of a probed ray with this cube, ascending by `t`: two
    /// or none.
    pub fn intersect(&self, object: usize, p: &CubeProbe) -> (r: Vec<Intersection>)
        ensures
            r@ == reported(object, Self::roots(*p)),
            ordered(r@),
            forall|i: int| 0 <= i < r@.len() ==> (#[trigger] r@[i]).object == object,
    {
        let x_t = check_axis(&p.x);
        let y_t = check_axis(&p.y);
        let z_t = check_axis(&p.z);

        let t_min = x_t[0].max(&y_t[0]).max(&z_t[0]);
        let t_max = x_t[1].min(&y_t[1]).min(&z_t[1]);

        let crosses = !t_min.gt(&t_max);
        let mut roots: Vec<Root> = Vec::new();
        roots.push(Root { t: t_min, keep: crosses });
        roots.push(Root { t: t_max, keep: crosses });
        proof {
            assert(roots@ =~= Self::roots(*p));
        }
        tag_roots(object, &roots)
    }

    /// The normal at a point of the cube's own space: along the axis of the
    /// component that is largest in size, with that component's sign; `x`
    /// before `y` before `z` where two are equally large.
    pub open spec fn local_normal(point: Point) -> Vector {
        let zero = Scalar { bits: 0 };
        let x = point.data.x;
        let y = point.data.y;
        let z = point.data.z;
        let largest = x.absolute().larger(y.absolute().larger(z.absolute()));
        if largest.same_value(x.absolute()) {
            Vector { data: Tuple { x, y: zero, z: zero, w: zero } }
        } else if largest.same_value(y.absolute()) {
            Vector { data: Tuple { x: zero, y, z: zero, w: zero } }
        } else {
            Vector { data: Tuple { x: zero, y: zero, z, w: zero } }
        }
    }

    pub fn normal_at(&self, local_point: &Point) -> (r: Vector)
        ensures
            r == Self::local_normal(*local_point),
    {
        let abs_x = local_point.x().abs();
        let abs_y = local_point.y().abs();
        let abs_z = local_point.z().abs();
        let maxc = abs_x.max(&abs_y.max(&abs_z));
        if maxc.eq_value(&abs_x) {
            Vector::new(local_point.x(), Scalar::zero(), Scalar::zero())
        } else if maxc.eq_value(&abs_y) {
            Vector::new(Scalar::zero(), local_point.y(), Scalar::zero())
        } else {
            Vector::new(Scalar::zero(), Scalar::zero(), local_point.z())
        }
    }
}

/// A cube is crossed twice or not at all: not at all where the ray leaves
/// one slab before it has entered another, else at entry and at exit.
pub proof fn lemma_cube_crossings(object: usize, p: CubeProbe)
    ensures
        Cube::exit(p).less(Cube::entry(p)) ==> reported(object, Cube::roots(p)) == Seq::<
            Intersection,
        >::empty(),
        !Cube::exit(p).less(Cube::entry(p)) ==> reported(object, Cube::roots(p)) == if Cube::entry(
            p,
        ).sort_key() <= Cube::exit(p).sort_key() {
            seq![
                Intersection { t: Cube::entry(p), object },
                Intersection { t: Cube::exit(p), object },
            ]
        } else {
            seq![
                Intersection { t: Cube::exit(p), object },
                Intersection { t: Cube::entry(p), object },
            ]
        },
{
    let crosses = !Cube::exit(p).less(Cube::entry(p));
    lemma_reported_of_two(
        object,
        Root { t: Cube::entry(p), keep: crosses },
        Root { t: Cube::exit(p), keep: crosses },
    );
}

pub fn cube() -> (r: Cube)
    ensures
        r.transform@ == Seq::<Step>::empty(),
        r.material.is_default(),
{
    Cube::default()
}

} // verus!
