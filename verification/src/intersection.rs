//! Raw intersections and the ordered candidate list.
use vstd::prelude::*;
use crate::scalar::{Scalar, ONE_BITS};
use crate::tuple::{Point, Vector};
use crate::world::World;

verus! {

/// One crossing of a ray with a primitive: the ray parameter `t` and the
/// index of the primitive in the scene. Two crossings belong to the same
/// primitive exactly when their indices are equal.
#[derive(Clone, Copy, Debug, PartialEq, Eq, Structural)]
pub struct Intersection {
    pub t: Scalar,
    pub object: usize,
}

/// No candidate comes after one that lies farther along the ray.
pub open spec fn ordered(s: Seq<Intersection>) -> bool {
    forall|i: int, j: int| 0 <= i < j < s.len() ==> s[i].t.sort_key() <= s[j].t.sort_key()
}

/// The candidates with sort key `k`, in the order in which `s` holds them.
pub open spec fn with_key(s: Seq<Intersection>, k: int) -> Seq<Intersection> {
    s.filter(|x: Intersection| x.t.sort_key() == k)
}

/// `r` holds the candidates of `s`, and candidates with equal keys come in
/// the order in which `s` holds them.
pub open spec fn stable_rearrangement(r: Seq<Intersection>, s: Seq<Intersection>) -> bool {
    forall|k: int| with_key(r, k) == with_key(s, k)
}

/// `s` with `x` put behind the last candidate that is not farther than `x`.
pub open spec fn insert_ordered(s: Seq<Intersection>, x: Intersection) -> Seq<Intersection>
    decreases s.len(),
{
    if s.len() == 0 {
        seq![x]
    } else if s.last().t.sort_key() <= x.t.sort_key() {
        s.push(x)
    } else {
        insert_ordered(s.drop_last(), x).push(s.last())
    }
}

/// The candidate list of `s`: ascending by `t`, ties in discovery order.
pub open spec fn stable_sort(s: Seq<Intersection>) -> Seq<Intersection>
    decreases s.len(),
{
    if s.len() == 0 {
        Seq::empty()
    } else {
        insert_ordered(stable_sort(s.drop_last()), s.last())
    }
}

/// Inserting keeps the length plus one, the order, and the candidates of
/// every key in their order, with `x` last among its equals.
pub proof fn lemma_insert_ordered(s: Seq<Intersection>, x: Intersection)
    ensures
        insert_ordered(s, x).len() == s.len() + 1,
        ordered(s) ==> ordered(insert_ordered(s, x)),
        forall|k: int|
            #[trigger] with_key(insert_ordered(s, x), k) == if x.t.sort_key() == k {
                with_key(s, k).push(x)
            } else {
                with_key(s, k)
            },
        forall|i: int|
            0 <= i < s.len() + 1 ==> #[trigger] insert_ordered(s, x)[i] == x || s.contains(
                insert_ordered(s, x)[i],
            ),
    decreases s.len(),
{
    broadcast use Seq::lemma_filter_push;

    let r = insert_ordered(s, x);
    if s.len() == 0 {
        assert(s =~= Seq::empty());
        assert(seq![x] =~= Seq::<Intersection>::empty().push(x));
        assert forall|k: int|
            #[trigger] with_key(r, k) == if x.t.sort_key() == k {
                with_key(s, k).push(x)
            } else {
                with_key(s, k)
            } by {
            assert(with_key(s.push(x), k) == s.push(x).filter(
                |y: Intersection| y.t.sort_key() == k,
            ));
        }
    } else if s.last().t.sort_key() <= x.t.sort_key() {
        assert forall|k: int|
            #[trigger] with_key(r, k) == if x.t.sort_key() == k {
                with_key(s, k).push(x)
            } else {
                with_key(s, k)
            } by {
            assert(with_key(s.push(x), k) == s.push(x).filter(
                |y: Intersection| y.t.sort_key() == k,
            ));
        }
        assert forall|i: int| 0 <= i < s.len() + 1 implies #[trigger] r[i] == x || s.contains(
            r[i],
        ) by {
            if i < s.len() {
                assert(s[i] == r[i]);
            }
        }
    } else {
        let front = s.drop_last();
        let inner = insert_ordered(front, x);
        lemma_insert_ordered(front, x);
        assert(s =~= front.push(s.last()));
        assert forall|k: int|
            #[trigger] with_key(r, k) == if x.t.sort_key() == k {
                with_key(s, k).push(x)
            } else {
                with_key(s, k)
            } by {
            assert(with_key(inner.push(s.last()), k) == inner.push(s.last()).filter(
                |y: Intersection| y.t.sort_key() == k,
            ));
            assert(with_key(front.push(s.last()), k) == front.push(s.last()).filter(
                |y: Intersection| y.t.sort_key() == k,
            ));
            assert(with_key(inner, k) == if x.t.sort_key() == k {
                with_key(front, k).push(x)
            } else {
                with_key(front, k)
            });
        }
        assert forall|i: int| 0 <= i < s.len() + 1 implies #[trigger] r[i] == x || s.contains(
            r[i],
        ) by {
            if i < s.len() {
                if inner[i] != x {
                    assert(front.contains(inner[i]));
                    let j = choose|j: int| 0 <= j < front.len() && front[j] == inner[i];
                    assert(s[j] == r[i]);
                }
            } else {
                assert(s[s.len() - 1] == r[i]);
            }
        }
        if ordered(s) {
            assert(ordered(front)) by {
                assert forall|i: int, j: int| 0 <= i < j < front.len() implies front[i].t.sort_key()
                    <= front[j].t.sort_key() by {
                    assert(front[i] == s[i] && front[j] == s[j]);
                }
            }
            assert forall|i: int, j: int| 0 <= i < j < r.len() implies r[i].t.sort_key()
                <= r[j].t.sort_key() by {
                if j < inner.len() {
                    assert(r[i] == inner[i] && r[j] == inner[j]);
                } else {
                    assert(r[j] == s.last());
                    assert(r[i] == inner[i]);
                    if inner[i] != x {
                        assert(front.contains(inner[i]));
                        let m = choose|m: int| 0 <= m < front.len() && front[m] == inner[i];
                        assert(s[m] == inner[i]);
                        assert(s[m].t.sort_key() <= s[s.len() - 1].t.sort_key());
                    }
                }
            }
        }
    }
}

/// The candidate list is ordered, as long as what it was made from, and a
/// stable rearrangement of it.
pub proof fn lemma_stable_sort(s: Seq<Intersection>)
    ensures
        stable_sort(s).len() == s.len(),
        ordered(stable_sort(s)),
        stable_rearrangement(stable_sort(s), s),
    decreases s.len(),
{
    broadcast use Seq::lemma_filter_push;

    if s.len() == 0 {
        assert(s =~= Seq::empty());
    } else {
        let front = s.drop_last();
        lemma_stable_sort(front);
        lemma_insert_ordered(stable_sort(front), s.last());
        assert(s =~= front.push(s.last()));
        assert forall|k: int| with_key(stable_sort(s), k) == with_key(s, k) by {
            assert(with_key(stable_sort(front), k) == with_key(front, k));
            assert(with_key(front.push(s.last()), k) == front.push(s.last()).filter(
                |y: Intersection| y.t.sort_key() == k,
            ));
        }
    }
}

/// The place where `insert_ordered` puts `x`: behind `s[p - 1]`, which is not
/// farther than `x`, and before everything from `p` on, which is.
proof fn lemma_insert_at(s: Seq<Intersection>, x: Intersection, p: int)
    requires
        0 <= p <= s.len(),
        forall|j: int| p <= j < s.len() ==> s[j].t.sort_key() > x.t.sort_key(),
        p > 0 ==> s[p - 1].t.sort_key() <= x.t.sort_key(),
    ensures
        insert_ordered(s, x) == s.insert(p, x),
    decreases s.len() - p,
{
    if s.len() == 0 {
        assert(seq![x] =~= s.insert(p, x));
    } else if p == s.len() {
        assert(s.push(x) =~= s.insert(p, x));
    } else {
        lemma_insert_at(s.drop_last(), x, p);
        assert(s.drop_last().insert(p, x).push(s.last()) =~= s.insert(p, x));
    }
}

/// How `with_key` reads a list from its end.
proof fn lemma_with_key_step(r: Seq<Intersection>, k: int)
    ensures
        with_key(r, k) == if r.len() == 0 {
            Seq::<Intersection>::empty()
        } else if r.last().t.sort_key() == k {
            with_key(r.drop_last(), k).push(r.last())
        } else {
            with_key(r.drop_last(), k)
        },
{
    reveal(Seq::filter);
    if r.len() == 0 {
        assert(with_key(r, k) =~= Seq::<Intersection>::empty());
    }
}

/// The last candidate of `r` with key `k`, where there is one.
proof fn last_with_key(r: Seq<Intersection>, k: int) -> (p: int)
    requires
        with_key(r, k).len() > 0,
    ensures
        0 <= p < r.len(),
        r[p].t.sort_key() == k,
        forall|q: int| p < q < r.len() ==> r[q].t.sort_key() != k,
    decreases r.len(),
{
    lemma_with_key_step(r, k);
    if r.last().t.sort_key() == k {
        r.len() - 1
    } else {
        let p = last_with_key(r.drop_last(), k);
        assert(r.drop_last()[p] == r[p]);
        assert forall|q: int| p < q < r.len() implies r[q].t.sort_key() != k by {
            if q < r.len() - 1 {
                assert(r.drop_last()[q] == r[q]);
            }
        }
        p
    }
}

/// Taking a candidate out of a list takes it out of the candidates of its
/// key, where it was the last of them, and leaves those of other keys.
proof fn lemma_with_key_remove(r: Seq<Intersection>, p: int, k: int)
    requires
        0 <= p < r.len(),
        forall|q: int| p < q < r.len() ==> r[q].t.sort_key() != r[p].t.sort_key(),
    ensures
        r[p].t.sort_key() == k ==> with_key(r, k).len() > 0 && with_key(r, k).last() == r[p]
            && with_key(r.remove(p), k) == with_key(r, k).drop_last(),
        r[p].t.sort_key() != k ==> with_key(r.remove(p), k) == with_key(r, k),
    decreases r.len(),
{
    lemma_with_key_step(r, k);
    let front = r.drop_last();
    if p == r.len() - 1 {
        assert(r.remove(p) =~= front);
        if r[p].t.sort_key() == k {
            assert(with_key(front, k).push(r.last()).drop_last() =~= with_key(front, k));
        }
    } else {
        assert(front[p] == r[p]);
        assert forall|q: int| p < q < front.len() implies front[q].t.sort_key()
            != front[p].t.sort_key() by {
            assert(front[q] == r[q]);
        }
        lemma_with_key_remove(front, p, k);
        let cut = r.remove(p);
        assert(cut.drop_last() =~= front.remove(p));
        assert(cut.last() == r.last());
        lemma_with_key_step(cut, k);
        if r[p].t.sort_key() == k {
            assert(r.last().t.sort_key() != k);
        } else if r.last().t.sort_key() == k {
            assert(with_key(cut, k) == with_key(front.remove(p), k).push(r.last()));
        }
    }
}

/// The candidate list is the only ordered list that holds the candidates of
/// `s` with equal ones in discovery order: those two demands leave no
/// choice.
pub proof fn lemma_candidate_list_is_unique(r: Seq<Intersection>, s: Seq<Intersection>)
    requires
        ordered(r),
        stable_rearrangement(r, s),
    ensures
        r == stable_sort(s),
    decreases s.len(),
{
    if s.len() == 0 {
        if r.len() > 0 {
            let k = r[0].t.sort_key();
            lemma_with_key_step(s, k);
            assert(with_key(r, k) == with_key(s, k));
            lemma_with_key_nonempty(r, 0);
        }
        assert(r =~= Seq::<Intersection>::empty());
    } else {
        let x = s.last();
        let k = x.t.sort_key();
        let front = s.drop_last();
        lemma_with_key_step(s, k);
        assert(with_key(r, k) == with_key(s, k));
        let p = last_with_key(r, k);
        lemma_with_key_remove(r, p, k);
        assert(r[p] == x);
        let rest = r.remove(p);
        assert(with_key(front, k).push(x).drop_last() =~= with_key(front, k));
        assert forall|j: int| with_key(rest, j) == with_key(front, j) by {
            lemma_with_key_remove(r, p, j);
            lemma_with_key_step(s, j);
            assert(with_key(r, j) == with_key(s, j));
        }
        assert(ordered(rest)) by {
            assert forall|i: int, j: int| 0 <= i < j < rest.len() implies rest[i].t.sort_key()
                <= rest[j].t.sort_key() by {
                let a = if i < p { i } else { i + 1 };
                let b = if j < p { j } else { j + 1 };
                assert(rest[i] == r[a] && rest[j] == r[b]);
            }
        }
        lemma_candidate_list_is_unique(rest, front);
        assert forall|j: int| p <= j < rest.len() implies rest[j].t.sort_key() > k by {
            assert(rest[j] == r[j + 1]);
            assert(r[p].t.sort_key() <= r[j + 1].t.sort_key());
        }
        if p > 0 {
            assert(rest[p - 1] == r[p - 1]);
            assert(r[p - 1].t.sort_key() <= r[p].t.sort_key());
        }
        lemma_insert_at(rest, x, p);
        assert(rest.insert(p, x) =~= r);
    }
}

/// A list has a candidate of each key that occurs in it.
proof fn lemma_with_key_nonempty(r: Seq<Intersection>, i: int)
    requires
        0 <= i < r.len(),
    ensures
        with_key(r, r[i].t.sort_key()).len() > 0,
    decreases r.len(),
{
    let k = r[i].t.sort_key();
    lemma_with_key_step(r, k);
    if i < r.len() - 1 && r.last().t.sort_key() != k {
        assert(r.drop_last()[i] == r[i]);
        lemma_with_key_nonempty(r.drop_last(), i);
    }
}

/// A stable rearrangement holds the same candidates: nothing is lost and
/// nothing made up.
pub proof fn lemma_rearrangement_keeps_candidates(r: Seq<Intersection>, s: Seq<Intersection>)
    requires
        stable_rearrangement(r, s),
    ensures
        forall|e: Intersection| r.contains(e) <==> s.contains(e),
{
    assert forall|e: Intersection| r.contains(e) <==> s.contains(e) by {
        let k = e.t.sort_key();
        let has_key = |x: Intersection| x.t.sort_key() == k;
        assert(with_key(r, k) == with_key(s, k));
        if r.contains(e) {
            let i = choose|i: int| 0 <= i < r.len() && r[i] == e;
            r.lemma_filter_contains(has_key, i);
            s.lemma_filter_contains_rev(has_key, e);
        }
        if s.contains(e) {
            let i = choose|i: int| 0 <= i < s.len() && s[i] == e;
            s.lemma_filter_contains(has_key, i);
            r.lemma_filter_contains_rev(has_key, e);
        }
    }
}

/// Puts `x` into an ordered list, behind its equals.
pub fn insert_by_distance(list: &mut Vec<Intersection>, x: Intersection)
    ensures
        final(list)@ == insert_ordered(old(list)@, x),
{
    let key: i64 = x.t.key();
    let mut p: usize = list.len();
    while p > 0 && list[p - 1].t.key() > key
        invariant
            p <= list.len(),
            list@ == old(list)@,
            key == x.t.sort_key(),
            forall|j: int| p <= j < list.len() ==> list[j].t.sort_key() > key,
        decreases p,
    {
        p = p - 1;
    }
    proof {
        lemma_insert_at(list@, x, p as int);
    }
    list.insert(p, x);
}

/// Orders candidates by ascending `t`, keeping candidates with equal `t` in
/// the order in which they were found. A NaN counts as farther than any
/// number.
pub fn sort_by_distance(xs: &Vec<Intersection>) -> (r: Vec<Intersection>)
    ensures
        r@ == stable_sort(xs@),
        r@.len() == xs@.len(),
        ordered(r@),
        stable_rearrangement(r@, xs@),
{
    let mut r: Vec<Intersection> = Vec::new();
    let mut i: usize = 0;
    while i < xs.len()
        invariant
            i <= xs.len(),
            r@ == stable_sort(xs@.take(i as int)),
        decreases xs.len() - i,
    {
        proof {
            assert(xs@.take(i + 1).drop_last() =~= xs@.take(i as int));
        }
        insert_by_distance(&mut r, xs[i]);
        i = i + 1;
    }
    proof {
        assert(xs@.take(i as int) =~= xs@);
        lemma_stable_sort(xs@);
    }
    r
}

/// What shading needs to know of a hit.
///
/// `normalv` faces the eye: it is the surface normal, turned round where the
/// ray hits the surface from inside. `over_point` lies on the side of
/// `normalv`, `under_point` on the other side. `n1` and `n2` are the
/// refractive indices of the medium that the ray leaves and of the one that
/// it enters.
#[derive(Clone, Copy, Debug, PartialEq, Eq, Structural)]
pub struct AugIntersection {
    pub t: Scalar,
    pub object: usize,
    pub point: Point,
    pub eyev: Vector,
    pub normalv: Vector,
    pub inside: bool,
    pub over_point: Point,
    pub reflectv: Vector,
    pub n1: Scalar,
    pub n2: Scalar,
    pub under_point: Point,
}

/// What was computed of the surface at a hit.
///
/// `point` is the ray's position at the hit's `t`; `normal` is the
/// primitive's unit normal there, in world space; `eye_dot_normal` is the
/// dot product of the reversed ray direction with `normal`; `raised` and
/// `lowered` are `point` plus and minus `normal` times the bias 1e-5;
/// `reflected` is the ray direction reflected about `normal`.
///
/// Turning `normal` round swaps `raised` and `lowered` and leaves
/// `reflected` as it is, so the probe serves both sides of a surface.
#[derive(Clone, Copy, Debug, PartialEq, Eq, Structural)]
pub struct SurfaceProbe {
    pub point: Point,
    pub normal: Vector,
    pub eye_dot_normal: Scalar,
    pub raised: Point,
    pub lowered: Point,
    pub reflected: Vector,
}

/// The volumes that the ray is in once it passes a crossing of `object`:
/// a volume that it was in is left, any other is entered.
pub open spec fn cross(containers: Seq<usize>, object: usize) -> Seq<usize> {
    if containers.contains(object) {
        containers.remove_value(object)
    } else {
        containers.push(object)
    }
}

/// The volumes that the ray is in behind the first `n` candidates, the one
/// entered last at the end.
pub open spec fn containers_after(xs: Seq<Intersection>, n: int) -> Seq<usize>
    decreases n,
{
    if n <= 0 {
        Seq::empty()
    } else {
        cross(containers_after(xs, n - 1), xs[n - 1].object)
    }
}

/// The refractive index of the innermost volume: that of the primitive
/// entered last, or 1 in empty space.
pub open spec fn medium(w: World, containers: Seq<usize>) -> Scalar {
    if containers.len() == 0 {
        Scalar { bits: ONE_BITS }
    } else {
        w.refractive_index(containers.last() as int)
    }
}

/// Whether the ray looks at the back of the surface: `eyev · normal < 0`.
pub open spec fn from_inside(probe: SurfaceProbe) -> bool {
    probe.eye_dot_normal.less(Scalar { bits: 0 })
}

/// The shading context of candidate `hit` of the list `xs`.
pub open spec fn computations(
    w: World,
    hit: int,
    direction: Vector,
    probe: SurfaceProbe,
    xs: Seq<Intersection>,
) -> AugIntersection {
    let inside = from_inside(probe);
    AugIntersection {
        t: xs[hit].t,
        object: xs[hit].object,
        point: probe.point,
        eyev: Vector { data: direction.data.negated() },
        normalv: if inside {
            Vector { data: probe.normal.data.negated() }
        } else {
            probe.normal
        },
        inside,
        over_point: if inside {
            probe.lowered
        } else {
            probe.raised
        },
        reflectv: probe.reflected,
        n1: medium(w, containers_after(xs, hit)),
        n2: medium(w, containers_after(xs, hit + 1)),
        under_point: if inside {
            probe.raised
        } else {
            probe.lowered
        },
    }
}

/// Whatever the crossings, no volume is listed twice.
pub proof fn lemma_containers_distinct(xs: Seq<Intersection>, n: int)
    ensures
        containers_after(xs, n).no_duplicates(),
    decreases n,
{
    if n > 0 {
        let before = containers_after(xs, n - 1);
        let object = xs[n - 1].object;
        lemma_containers_distinct(xs, n - 1);
        if before.contains(object) {
            before.index_of_first_ensures(object);
        }
    }
}

/// How often the first `n` candidates cross the primitive `object`.
pub open spec fn crossings(xs: Seq<Intersection>, n: int, object: usize) -> nat
    decreases n,
{
    if n <= 0 {
        0
    } else if xs[n - 1].object == object {
        crossings(xs, n - 1, object) + 1
    } else {
        crossings(xs, n - 1, object)
    }
}

/// Passing a crossing of `object` changes whether the ray is in `object`,
/// and nothing else.
pub proof fn lemma_cross_toggles(containers: Seq<usize>, object: usize, other: usize)
    requires
        containers.no_duplicates(),
    ensures
        cross(containers, object).contains(object) == !containers.contains(object),
        other != object ==> cross(containers, object).contains(other) == containers.contains(
            other,
        ),
{
    let after = cross(containers, object);
    if containers.contains(object) {
        containers.index_of_first_ensures(object);
        let p = containers.index_of_first(object).unwrap();
        assert(after == containers.remove(p));
        if after.contains(object) {
            let i = choose|i: int| 0 <= i < after.len() && after[i] == object;
            let j = if i < p { i } else { i + 1 };
            assert(containers[j] == object && j != p);
        }
        if other != object {
            if containers.contains(other) {
                let j = choose|j: int| 0 <= j < containers.len() && containers[j] == other;
                let i = if j < p { j } else { j - 1 };
                assert(after[i] == other);
            }
            if after.contains(other) {
                let i = choose|i: int| 0 <= i < after.len() && after[i] == other;
                let j = if i < p { i } else { i + 1 };
                assert(containers[j] == other);
            }
        }
    } else {
        assert(after[after.len() - 1] == object);
        if other != object {
            if containers.contains(other) {
                let j = choose|j: int| 0 <= j < containers.len() && containers[j] == other;
                assert(after[j] == other);
            }
            if after.contains(other) {
                let i = choose|i: int| 0 <= i < after.len() && after[i] == other;
                assert(containers[i] == other);
            }
        }
    }
}

/// The ray is inside exactly those primitives that it has crossed an odd
/// number of times.
pub proof fn lemma_inside_means_odd_crossings(xs: Seq<Intersection>, n: int, object: usize)
    ensures
        containers_after(xs, n).contains(object) <==> crossings(xs, n, object) % 2 == 1,
    decreases n,
{
    if n > 0 {
        lemma_inside_means_odd_crossings(xs, n - 1, object);
        lemma_containers_distinct(xs, n - 1);
        lemma_cross_toggles(containers_after(xs, n - 1), xs[n - 1].object, object);
    }
}

/// Passes one crossing of `object`.
fn cross_boundary(containers: &mut Vec<usize>, object: usize)
    ensures
        final(containers)@ == cross(old(containers)@, object),
{
    let mut j: usize = 0;
    while j < containers.len()
        invariant
            j <= containers.len(),
            containers@ == old(containers)@,
            forall|k: int| 0 <= k < j ==> containers@[k] != object,
        decreases containers.len() - j,
    {
        if containers[j] == object {
            proof {
                containers@.index_of_first_ensures(object);
            }
            containers.remove(j);
            return ;
        }
        j = j + 1;
    }
    containers.push(object);
}

/// Builds the shading context of the candidate at position `hit` of the
/// ordered candidate list `xs`, for a ray with the given direction.
///
/// The candidates up to the hit are replayed to find the volumes that the
/// ray is in before and behind the hit; primitives are told apart by their
/// index, never by what they look like.
pub fn prepare_computations(
    hit: usize,
    direction: &Vector,
    probe: &SurfaceProbe,
    xs: &Vec<Intersection>,
    w: &World,
) -> (r: AugIntersection)
    requires
        hit < xs@.len(),
        w.admits(xs@),
    ensures
        r == computations(*w, hit as int, *direction, *probe, xs@),
{
    let mut containers: Vec<usize> = Vec::new();
    let mut n1 = Scalar::one();
    let mut i: usize = 0;
    while i < hit
        invariant
            i <= hit < xs@.len(),
            containers@ == containers_after(xs@, i as int),
        decreases hit - i,
    {
        cross_boundary(&mut containers, xs[i].object);
        i = i + 1;
    }
    proof {
        lemma_objects_admitted(*w, xs@, hit as int);
    }
    if containers.len() != 0 {
        n1 = w.objects[containers[containers.len() - 1]].material().refractive_index;
    }
    cross_boundary(&mut containers, xs[hit].object);
    proof {
        assert(containers@ == containers_after(xs@, hit + 1));
        lemma_objects_admitted(*w, xs@, hit + 1);
    }
    let mut n2 = Scalar::one();
    if containers.len() != 0 {
        n2 = w.objects[containers[containers.len() - 1]].material().refractive_index;
    }
    let inside = probe.eye_dot_normal.lt(&Scalar::zero());
    AugIntersection {
        t: xs[hit].t,
        object: xs[hit].object,
        point: probe.point,
        eyev: direction.neg(),
        normalv: if inside {
            probe.normal.neg()
        } else {
            probe.normal
        },
        inside,
        over_point: if inside {
            probe.lowered
        } else {
            probe.raised
        },
        reflectv: probe.reflected,
        n1,
        n2,
        under_point: if inside {
            probe.raised
        } else {
            probe.lowered
        },
    }
}

/// Every volume that the ray is in belongs to a primitive that was crossed,
/// and so to the scene.
pub proof fn lemma_objects_admitted(w: World, xs: Seq<Intersection>, n: int)
    requires
        0 <= n <= xs.len(),
        w.admits(xs),
    ensures
        forall|k: int|
            0 <= k < containers_after(xs, n).len() ==> (#[trigger] containers_after(xs, n)[k])
                < w.objects@.len(),
    decreases n,
{
    if n > 0 {
        let before = containers_after(xs, n - 1);
        let object = xs[n - 1].object;
        lemma_objects_admitted(w, xs, n - 1);
        assert(xs[n - 1].object < w.objects@.len());
        if before.contains(object) {
            before.index_of_first_ensures(object);
        }
    }
}

/// What was computed for the reflectance at a hit.
///
/// With `cos = eyev · normalv`: `sin2_t` is `(n1 / n2)² (1 − cos²)`;
/// `direct` is `r0 + (1 − r0)(1 − cos)⁵` for `r0 = ((n1 − n2) / (n1 + n2))²`;
/// `bent` is the same with `√(1 − sin2_t)` in the place of `cos`.
#[derive(Clone, Copy, Debug, PartialEq, Eq, Structural)]
pub struct SchlickProbe {
    pub sin2_t: Scalar,
    pub direct: Scalar,
    pub bent: Scalar,
}

/// The reflectance at a hit. Where the ray passes into a less dense medium,
/// `n1 > n2`, it is 1 under total internal reflection, `sin2_t > 1`, and
/// else taken at the angle of the refracted ray; where it does not, at the
/// angle of the eye.
pub open spec fn reflectance(comps: AugIntersection, probe: SchlickProbe) -> Scalar {
    if comps.n2.less(comps.n1) {
        if (Scalar { bits: ONE_BITS }).less(probe.sin2_t) {
            Scalar { bits: ONE_BITS }
        } else {
            probe.bent
        }
    } else {
        probe.direct
    }
}

/// Under total internal reflection, on the way into a less dense medium with
/// `sin2_t > 1`, the reflectance is exactly 1.
pub proof fn lemma_total_internal_reflection(comps: AugIntersection, probe: SchlickProbe)
    requires
        comps.n2.less(comps.n1),
        (Scalar { bits: ONE_BITS }).less(probe.sin2_t),
    ensures
        reflectance(comps, probe) == (Scalar { bits: ONE_BITS }),
{
}

/// Schlick's approximation of the reflectance at a hit.
pub fn schlick(comps: &AugIntersection, probe: &SchlickProbe) -> (r: Scalar)
    ensures
        r == reflectance(*comps, *probe),
{
    if comps.n1.gt(&comps.n2) {
        if probe.sin2_t.gt(&Scalar::one()) {
            return Scalar::one();
        }
        return probe.bent;
    }
    probe.direct
}

} // verus!
