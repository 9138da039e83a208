//! What the primitives share: candidate roots, the slab and cap tests, and
//! the choice of the hit.
use vstd::prelude::*;
use crate::intersection::{
    insert_ordered, ordered, sort_by_distance, stable_sort, Intersection,
};
use crate::scalar::{Scalar, MAX_BITS, MIN_BITS, ONE_BITS};

verus! {

/// Bit pattern of 1e-5, the tolerance for a vanishing direction component
/// and the bias by which ray origins are moved off a surface.
pub const EPSILON_BITS: u64 = 0x3EE4_F8B5_88E3_68F1;

/// Bit pattern of 1e-4, the slope below which a ray counts as parallel to a
/// plane or a cap.
pub const PARALLEL_BITS: u64 = 0x3F1A_36E2_EB1C_432D;

/// A root of a primitive's equation, and whether the primitive's tests let
/// it stand.
#[derive(Clone, Copy, Debug, PartialEq, Eq, Structural)]
pub struct Root {
    pub t: Scalar,
    pub keep: bool,
}

/// A root together with the height `y` of the point that it gives.
#[derive(Clone, Copy, Debug, PartialEq, Eq, Structural)]
pub struct RootProbe {
    pub t: Scalar,
    pub y: Scalar,
}

/// The roots that stand, in discovery order.
pub open spec fn standing(roots: Seq<Root>) -> Seq<Root> {
    roots.filter(|r: Root| r.keep)
}

/// The roots that stand, in discovery order, as crossings of `object`.
pub open spec fn kept_roots(object: usize, roots: Seq<Root>) -> Seq<Intersection> {
    standing(roots).map_values(|r: Root| Intersection { t: r.t, object })
}

/// What a primitive reports for its roots: those that stand, ascending by
/// `t`, equal roots both kept and in discovery order.
pub open spec fn reported(object: usize, roots: Seq<Root>) -> Seq<Intersection> {
    stable_sort(kept_roots(object, roots))
}

/// Drops the roots that do not stand, tags the others with the primitive,
/// and orders them by ascending `t`.
pub fn tag_roots(object: usize, roots: &Vec<Root>) -> (r: Vec<Intersection>)
    ensures
        r@ == reported(object, roots@),
        ordered(r@),
        forall|i: int| 0 <= i < r@.len() ==> (#[trigger] r@[i]).object == object,
{
    let mut found: Vec<Intersection> = Vec::new();
    let mut i: usize = 0;
    while i < roots.len()
        invariant
            i <= roots.len(),
            found@ == kept_roots(object, roots@.take(i as int)),
            forall|j: int| 0 <= j < found@.len() ==> (#[trigger] found@[j]).object == object,
        decreases roots.len() - i,
    {
        let root = roots[i];
        proof {
            let before = roots@.take(i as int);
            assert(roots@.take(i + 1) =~= before.push(root));
            before.lemma_filter_push(root, |r: Root| r.keep);
            assert(standing(before.push(root)) == if root.keep {
                standing(before).push(root)
            } else {
                standing(before)
            });
            assert(standing(before).push(root).map_values(
                |r: Root| Intersection { t: r.t, object },
            ) =~= kept_roots(object, before).push(Intersection { t: root.t, object }));
        }
        if root.keep {
            found.push(Intersection { t: root.t, object });
        }
        i = i + 1;
    }
    proof {
        assert(roots@.take(i as int) =~= roots@);
    }
    let r = sort_by_distance(&found);
    proof {
        lemma_sorted_keeps_owner(found@, object);
    }
    r
}

/// What is reported of a single root: the root if it stands, else nothing.
pub proof fn lemma_reported_of_one(object: usize, a: Root)
    ensures
        reported(object, seq![a]) == if a.keep {
            seq![Intersection { t: a.t, object }]
        } else {
            Seq::<Intersection>::empty()
        },
{
    let none = Seq::<Root>::empty();
    none.lemma_filter_push(a, |r: Root| r.keep);
    assert(seq![a] =~= none.push(a));
    assert(none.filter(|r: Root| r.keep) =~= none) by {
        reveal(Seq::filter);
    }
    if a.keep {
        assert(kept_roots(object, seq![a]) =~= seq![Intersection { t: a.t, object }]);
        assert(seq![Intersection { t: a.t, object }].drop_last() =~= Seq::<Intersection>::empty());
        reveal_with_fuel(stable_sort, 2);
    } else {
        assert(kept_roots(object, seq![a]) =~= Seq::<Intersection>::empty());
    }
}

/// What is reported of two roots: those that stand, the nearer first, and
/// the first found first where both are equally near.
pub proof fn lemma_reported_of_two(object: usize, a: Root, b: Root)
    ensures
        reported(object, seq![a, b]) == if a.keep && b.keep {
            if a.t.sort_key() <= b.t.sort_key() {
                seq![Intersection { t: a.t, object }, Intersection { t: b.t, object }]
            } else {
                seq![Intersection { t: b.t, object }, Intersection { t: a.t, object }]
            }
        } else if a.keep {
            seq![Intersection { t: a.t, object }]
        } else if b.keep {
            seq![Intersection { t: b.t, object }]
        } else {
            Seq::<Intersection>::empty()
        },
{
    let none = Seq::<Root>::empty();
    let ia = Intersection { t: a.t, object };
    let ib = Intersection { t: b.t, object };
    none.lemma_filter_push(a, |r: Root| r.keep);
    none.push(a).lemma_filter_push(b, |r: Root| r.keep);
    assert(seq![a, b] =~= none.push(a).push(b));
    assert(none.filter(|r: Root| r.keep) =~= none) by {
        reveal(Seq::filter);
    }
    reveal_with_fuel(stable_sort, 3);
    reveal_with_fuel(insert_ordered, 3);
    if a.keep && b.keep {
        assert(kept_roots(object, seq![a, b]) =~= seq![ia, ib]);
        assert(seq![ia, ib].drop_last() =~= seq![ia]);
        assert(seq![ia].drop_last() =~= Seq::<Intersection>::empty());
        assert(stable_sort(seq![ia]) =~= seq![ia]);
        if a.t.sort_key() <= b.t.sort_key() {
            assert(seq![ia].push(ib) =~= seq![ia, ib]);
        } else {
            assert(Seq::<Intersection>::empty().push(ib).push(ia) =~= seq![ib, ia]);
            assert(insert_ordered(seq![ia].drop_last(), ib) =~= seq![ib]);
            assert(seq![ib].push(ia) =~= seq![ib, ia]);
        }
    } else if a.keep {
        assert(kept_roots(object, seq![a, b]) =~= seq![ia]);
        assert(seq![ia].drop_last() =~= Seq::<Intersection>::empty());
    } else if b.keep {
        assert(kept_roots(object, seq![a, b]) =~= seq![ib]);
        assert(seq![ib].drop_last() =~= Seq::<Intersection>::empty());
    } else {
        assert(kept_roots(object, seq![a, b]) =~= Seq::<Intersection>::empty());
    }
}

/// Ordering a list moves its candidates and invents none: if all belong to
/// one primitive before, all do after.
pub proof fn lemma_sorted_keeps_owner(s: Seq<Intersection>, object: usize)
    requires
        forall|j: int| 0 <= j < s.len() ==> (#[trigger] s[j]).object == object,
    ensures
        forall|i: int| 0 <= i < stable_sort(s).len() ==> (#[trigger] stable_sort(s)[i]).object
            == object,
    decreases s.len(),
{
    if s.len() > 0 {
        let front = s.drop_last();
        lemma_sorted_keeps_owner(front, object);
        crate::intersection::lemma_insert_ordered(stable_sort(front), s.last());
        crate::intersection::lemma_stable_sort(front);
        let r = stable_sort(s);
        assert forall|i: int| 0 <= i < r.len() implies (#[trigger] r[i]).object == object by {
            if r[i] != s.last() {
                assert(stable_sort(front).contains(r[i]));
            }
        }
    }
}

/// `i` is the first candidate of `s` with `t >= 0`.
pub open spec fn is_hit_at(s: Seq<Intersection>, i: int) -> bool {
    &&& 0 <= i < s.len()
    &&& s[i].t.non_negative()
    &&& forall|j: int| 0 <= j < i ==> !(#[trigger] s[j]).t.non_negative()
}

/// No candidate of `s` has `t >= 0`: the list is empty or lies behind the
/// ray.
pub open spec fn no_hit(s: Seq<Intersection>) -> bool {
    forall|j: int| 0 <= j < s.len() ==> !(#[trigger] s[j]).t.non_negative()
}

/// The place of the hit in a candidate list: the first candidate with
/// `t >= 0`, or `None` when there is none.
pub fn hit_position(ts: &Vec<Intersection>) -> (r: Option<usize>)
    ensures
        match r {
            Some(i) => is_hit_at(ts@, i as int),
            None => no_hit(ts@),
        },
{
    let mut i: usize = 0;
    while i < ts.len()
        invariant
            i <= ts.len(),
            forall|j: int| 0 <= j < i ==> !(#[trigger] ts@[j]).t.non_negative(),
        decreases ts.len() - i,
    {
        if ts[i].t.is_non_negative() {
            return Some(i);
        }
        i = i + 1;
    }
    None
}

/// The hit of a candidate list: the first candidate with `t >= 0`, or `None`
/// when there is none.
pub fn hit(ts: Vec<Intersection>) -> (r: Option<Intersection>)
    ensures
        match r {
            Some(h) => exists|i: int| is_hit_at(ts@, i) && ts@[i] == h,
            None => no_hit(ts@),
        },
{
    match hit_position(&ts) {
        Some(i) => Some(ts[i]),
        None => None,
    }
}

/// In an ordered candidate list the hit is the nearest crossing in front of
/// the ray: no candidate with `t >= 0` has a smaller `t`.
pub proof fn lemma_hit_is_nearest(s: Seq<Intersection>, i: int)
    requires
        ordered(s),
        is_hit_at(s, i),
    ensures
        forall|j: int|
            0 <= j < s.len() && (#[trigger] s[j]).t.non_negative() ==> s[i].t.less_eq(s[j].t),
{
    assert forall|j: int|
        0 <= j < s.len() && (#[trigger] s[j]).t.non_negative() implies s[i].t.less_eq(s[j].t) by {
        if j < i {
            assert(!s[j].t.non_negative());
        } else if j > i {
            assert(s[i].t.sort_key() <= s[j].t.sort_key());
        }
    }
}

/// A list has at most one hit position.
pub proof fn lemma_hit_is_unique(s: Seq<Intersection>, i: int, j: int)
    requires
        is_hit_at(s, i),
        is_hit_at(s, j),
    ensures
        i == j,
{
    if i < j {
        assert(!s[i].t.non_negative());
    } else if j < i {
        assert(!s[j].t.non_negative());
    }
}

/// `|v| < 1e-5`: the leading coefficient counts as zero, and the equation
/// as having no root.
pub open spec fn negligible(v: Scalar) -> bool {
    v.absolute().less(Scalar { bits: EPSILON_BITS })
}

pub fn is_negligible(v: &Scalar) -> (r: bool)
    ensures
        r == negligible(*v),
{
    v.abs().lt(&Scalar::from_bits(EPSILON_BITS))
}

/// `|dy| > 1e-4`: the ray is not parallel to the planes of constant height.
pub open spec fn sloped(direction_y: Scalar) -> bool {
    (Scalar { bits: PARALLEL_BITS }).less(direction_y.absolute())
}

pub fn is_sloped(direction_y: &Scalar) -> (r: bool)
    ensures
        r == sloped(*direction_y),
{
    direction_y.abs().gt(&Scalar::from_bits(PARALLEL_BITS))
}

/// The two roots of a quadratic, the smaller first.
pub open spec fn root_pair(first: RootProbe, second: RootProbe) -> (RootProbe, RootProbe) {
    if second.t.less(first.t) {
        (second, first)
    } else {
        (first, second)
    }
}

pub fn order_roots(first: RootProbe, second: RootProbe) -> (r: (RootProbe, RootProbe))
    ensures
        r == root_pair(first, second),
{
    if first.t.gt(&second.t) {
        (second, first)
    } else {
        (first, second)
    }
}

/// `min < y < max`, as doubles compare.
pub open spec fn within(y: Scalar, min: Scalar, max: Scalar) -> bool {
    min.less(y) && y.less(max)
}

/// Whether a height lies strictly between the two truncation planes.
pub fn is_within(y: &Scalar, min: &Scalar, max: &Scalar) -> (r: bool)
    ensures
        r == within(*y, *min, *max),
{
    min.lt(y) && y.lt(max)
}

/// Whether a point of a cap plane lies on the cap of a cylinder:
/// `radius_squared`, its squared distance from the axis, is at most 1.
pub fn check_cap(radius_squared: &Scalar) -> (r: bool)
    ensures
        r == radius_squared.less_eq(Scalar { bits: ONE_BITS }),
{
    radius_squared.le(&Scalar::one())
}

/// Whether a point of a cap plane at height `y` lies on the cap of a cone:
/// `radius`, its distance from the axis, is at most `|y|`.
pub fn check_cap_cone(radius: &Scalar, y: &Scalar) -> (r: bool)
    ensures
        r == radius.less_eq(y.absolute()),
{
    radius.le(&y.abs())
}

/// One axis of a ray against the slab `[-1, 1]`.
///
/// `near` is `-1 - origin` and `far` is `1 - origin`; `near_over_direction`
/// and `far_over_direction` are their quotients by `direction`, which are
/// read only where `|direction| >= 1e-5`.
#[derive(Clone, Copy, Debug, PartialEq, Eq, Structural)]
pub struct AxisProbe {
    pub direction: Scalar,
    pub near: Scalar,
    pub far: Scalar,
    pub near_over_direction: Scalar,
    pub far_over_direction: Scalar,
}

/// Where a ray with next to no slope stands against a slab plane: beyond
/// every finite `t` on the side of the numerator's sign.
pub open spec fn saturated(numerator: Scalar) -> Scalar {
    if (Scalar { bits: 0 }).less(numerator) {
        Scalar { bits: MAX_BITS }
    } else {
        Scalar { bits: MIN_BITS }
    }
}

/// The pair with the smaller value first.
pub open spec fn in_order(a: Scalar, b: Scalar) -> (Scalar, Scalar) {
    if b.less(a) {
        (b, a)
    } else {
        (a, b)
    }
}

/// The interval of `t` in which the ray is inside the slab of one axis.
pub open spec fn axis_interval(p: AxisProbe) -> (Scalar, Scalar) {
    if (Scalar { bits: EPSILON_BITS }).less_eq(p.direction.absolute()) {
        in_order(p.near_over_direction, p.far_over_direction)
    } else {
        in_order(saturated(p.near), saturated(p.far))
    }
}

fn saturate(numerator: &Scalar) -> (r: Scalar)
    ensures
        r == saturated(*numerator),
{
    if Scalar::zero().lt(numerator) {
        Scalar::max_value()
    } else {
        Scalar::min_value()
    }
}

/// The slab test of one axis: `[tmin, tmax]`, with a direction component
/// below 1e-5 in size pushed to the largest or smallest finite double.
pub fn check_axis(p: &AxisProbe) -> (r: Vec<Scalar>)
    ensures
        r@.len() == 2,
        (r@[0], r@[1]) == axis_interval(*p),
{
    let mut tmin: Scalar;
    let mut tmax: Scalar;
    if p.direction.abs().ge(&Scalar::from_bits(EPSILON_BITS)) {
        tmin = p.near_over_direction;
        tmax = p.far_over_direction;
    } else {
        tmin = saturate(&p.near);
        tmax = saturate(&p.far);
    }
    if tmin.gt(&tmax) {
        let swap = tmin;
        tmin = tmax;
        tmax = swap;
    }
    let mut r: Vec<Scalar> = Vec::new();
    r.push(tmin);
    r.push(tmax);
    r
}

} // verus!
