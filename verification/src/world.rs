//! The scene, and what the compositor decides at each hit.
use vstd::prelude::*;
use crate::intersection::{
    lemma_rearrangement_keeps_candidates, lemma_stable_sort, ordered, sort_by_distance,
    stable_sort, AugIntersection, Intersection,
};
use crate::light::PointLight;
use crate::material::{lit_terms, phong_lighting, LightingProbe, LightingTerms};
use crate::scalar::{Scalar, ONE_BITS};
use crate::shape::Primitive;
use crate::shape_props::{hit_position, is_hit_at, lemma_hit_is_nearest, no_hit, EPSILON_BITS};
use crate::tuple::{Point, Vector};

verus! {

/// Bit pattern of 1e-6, the transparency up to which a surface counts as
/// opaque.
pub const OPAQUE_BITS: u64 = 0x3EB0_C6F7_A0B5_ED8D;

/// A secondary contribution to the colour at a hit.
#[derive(Clone, Copy, Debug, PartialEq, Eq, Structural)]
pub enum Bounce {
    /// No ray is cast: the contribution is the zero colour.
    Zero,
    /// The colour seen along the ray from `origin` in `direction`, traced
    /// with the budget `remaining`, times `weight`.
    Cast { origin: Point, direction: Vector, remaining: i32, weight: Scalar },
}

/// What was computed for the refracted ray at a hit, by Snell's law:
/// `sin2_t` is `(n1 / n2)² (1 − cos²)` for `cos = eyev · normalv`, and
/// `direction` is the direction of the refracted ray.
#[derive(Clone, Copy, Debug, PartialEq, Eq, Structural)]
pub struct RefractionProbe {
    pub sin2_t: Scalar,
    pub direction: Vector,
}

/// What was computed at a hit for its shading: what each primitive reported
/// for the ray from `over_point` towards the light, the distance from
/// `over_point` to the light, the dot products of the lighting model, and
/// the refracted ray.
#[derive(Debug, PartialEq, Eq)]
pub struct ShadeProbe {
    pub toward_light: Vec<Vec<Intersection>>,
    pub light_distance: Scalar,
    pub lighting: LightingProbe,
    pub refraction: RefractionProbe,
}

/// How the colour at a hit is put together.
///
/// The colour is the surface colour, lit by the terms in `surface`, plus
/// the reflected and the refracted contribution. Where `fresnel` holds, the
/// reflected contribution is first weighted by the reflectance `r` and the
/// refracted one by `1 − r`.
#[derive(Clone, Copy, Debug, PartialEq, Eq, Structural)]
pub struct Shading {
    pub in_shadow: bool,
    pub surface: LightingTerms,
    pub reflected: Bounce,
    pub refracted: Bounce,
    pub fresnel: bool,
}

/// What a ray sees.
#[derive(Debug, PartialEq, Eq)]
pub enum Sighting {
    /// Nothing in front of the ray: the background, black.
    Background,
    /// The candidate at position `hit` of the ordered candidate list `xs`.
    Surface { xs: Vec<Intersection>, hit: usize },
}

/// The primitives of a scene and its single light. A primitive is known by
/// its index in `objects`.
#[derive(Debug, PartialEq, Eq)]
pub struct World {
    pub objects: Vec<Primitive>,
    pub light: PointLight,
}

impl World {
    /// The refractive index of the primitive with the given index.
    pub open spec fn refractive_index(self, object: int) -> Scalar {
        self.objects@[object].material_of().refractive_index
    }

    /// Every candidate belongs to a primitive of this scene.
    pub open spec fn admits(self, xs: Seq<Intersection>) -> bool {
        forall|i: int| 0 <= i < xs.len() ==> (#[trigger] xs[i]).object < self.objects@.len()
    }

    /// Whether every candidate belongs to a primitive of this scene.
    pub fn admits_all(&self, xs: &Vec<Intersection>) -> (r: bool)
        ensures
            r == self.admits(xs@),
    {
        let mut i: usize = 0;
        while i < xs.len()
            invariant
                i <= xs.len(),
                forall|j: int| 0 <= j < i ==> (#[trigger] xs@[j]).object < self.objects@.len(),
            decreases xs.len() - i,
        {
            if xs[i].object >= self.objects.len() {
                return false;
            }
            i = i + 1;
        }
        true
    }

    /// The candidates that the primitives reported, one list after the
    /// other, for the first `n` primitives.
    pub open spec fn gathered(found: Seq<Vec<Intersection>>, n: int) -> Seq<Intersection>
        decreases n,
    {
        if n <= 0 {
            Seq::empty()
        } else {
            Self::gathered(found, n - 1) + found[n - 1]@
        }
    }

    /// The candidate list of a ray: what every primitive reported, ascending
    /// by `t`, candidates with equal `t` in the order of their primitives.
    pub open spec fn candidates(found: Seq<Vec<Intersection>>) -> Seq<Intersection> {
        stable_sort(Self::gathered(found, found.len() as int))
    }

    /// Gathers what each primitive reported for a ray into the ordered
    /// candidate list. `found[i]` holds the crossings with primitive `i`.
    pub fn intersect(&self, found: &Vec<Vec<Intersection>>) -> (v: Vec<Intersection>)
        ensures
            v@ == Self::candidates(found@),
            ordered(v@),
    {
        let mut all: Vec<Intersection> = Vec::new();
        let mut i: usize = 0;
        while i < found.len()
            invariant
                i <= found.len(),
                all@ == Self::gathered(found@, i as int),
            decreases found.len() - i,
        {
            let part = &found[i];
            let mut j: usize = 0;
            while j < part.len()
                invariant
                    i < found.len(),
                    part == found@[i as int],
                    j <= part.len(),
                    all@ == Self::gathered(found@, i as int) + part@.take(j as int),
                decreases part.len() - j,
            {
                all.push(part[j]);
                proof {
                    assert(part@.take(j + 1) =~= part@.take(j as int).push(part@[j as int]));
                    assert(all@ =~= Self::gathered(found@, i as int) + part@.take(j + 1));
                }
                j = j + 1;
            }
            proof {
                assert(part@.take(j as int) =~= part@);
            }
            i = i + 1;
        }
        sort_by_distance(&all)
    }

    /// Whether something stands between a point and the light: the ray from
    /// the point towards the light, whose crossings are `found`, has a hit
    /// nearer than the light.
    pub open spec fn shadowed(found: Seq<Vec<Intersection>>, distance: Scalar) -> bool {
        exists|i: int|
            is_hit_at(Self::candidates(found), i) && Self::candidates(found)[i].t.less(distance)
    }

    /// Whether a point lies in shadow. `found` holds what each primitive
    /// reported for the ray from the point towards the light, and
    /// `distance` is the distance from the point to the light.
    pub fn is_shadow(&self, found: &Vec<Vec<Intersection>>, distance: &Scalar) -> (r: bool)
        ensures
            r == Self::shadowed(found@, *distance),
    {
        let xs = self.intersect(found);
        match hit_position(&xs) {
            Some(i) => {
                let r = xs[i].t.lt(distance);
                proof {
                    if Self::shadowed(found@, *distance) {
                        let k = choose|k: int|
                            is_hit_at(Self::candidates(found@), k) && Self::candidates(
                                found@,
                            )[k].t.less(*distance);
                        crate::shape_props::lemma_hit_is_unique(xs@, i as int, k);
                    }
                }
                r
            },
            None => {
                proof {
                    if Self::shadowed(found@, *distance) {
                        let k = choose|k: int|
                            is_hit_at(Self::candidates(found@), k) && Self::candidates(
                                found@,
                            )[k].t.less(*distance);
                        assert(xs@[k].t.non_negative());
                    }
                }
                false
            },
        }
    }

    /// What a ray with the crossings `found` sees: the background where the
    /// candidate list has no hit, else the hit.
    pub fn color_at_ray(&self, found: &Vec<Vec<Intersection>>) -> (r: Sighting)
        ensures
            match r {
                Sighting::Background => no_hit(Self::candidates(found@)),
                Sighting::Surface { xs, hit } => xs@ == Self::candidates(found@) && is_hit_at(
                    xs@,
                    hit as int,
                ),
            },
    {
        let xs = self.intersect(found);
        match hit_position(&xs) {
            None => Sighting::Background,
            Some(hit) => Sighting::Surface { xs, hit },
        }
    }

    /// The reflected contribution at a hit: zero with no budget left or on
    /// a surface with a reflective factor below 1e-5; else the colour along
    /// the reflected ray from `over_point`, traced with one less, times the
    /// reflective factor.
    pub open spec fn reflection(self, comps: AugIntersection, remaining: i32) -> Bounce {
        let reflective = self.objects@[comps.object as int].material_of().reflective;
        if remaining <= 0 || reflective.less(Scalar { bits: EPSILON_BITS }) {
            Bounce::Zero
        } else {
            Bounce::Cast {
                origin: comps.over_point,
                direction: comps.reflectv,
                remaining: (remaining - 1) as i32,
                weight: reflective,
            }
        }
    }

    /// The refracted contribution at a hit: zero with no budget left, on a
    /// surface with a transparency of at most 1e-6, or under total internal
    /// reflection, `sin2_t >= 1`; else the colour along the refracted ray
    /// from `under_point`, traced with one less, times the transparency.
    pub open spec fn refraction(
        self,
        comps: AugIntersection,
        remaining: i32,
        probe: RefractionProbe,
    ) -> Bounce {
        let transparency = self.objects@[comps.object as int].material_of().transparency;
        if remaining <= 0 || transparency.less_eq(Scalar { bits: OPAQUE_BITS }) || (Scalar {
            bits: ONE_BITS,
        }).less_eq(probe.sin2_t) {
            Bounce::Zero
        } else {
            Bounce::Cast {
                origin: comps.under_point,
                direction: probe.direction,
                remaining: (remaining - 1) as i32,
                weight: transparency,
            }
        }
    }

    /// Whether both secondary contributions are weighted by the
    /// reflectance: on a surface that both reflects and lets light through.
    pub open spec fn weighs_by_reflectance(self, comps: AugIntersection) -> bool {
        let material = self.objects@[comps.object as int].material_of();
        (Scalar { bits: 0 }).less(material.reflective) && (Scalar { bits: 0 }).less(
            material.transparency,
        )
    }

    /// How the colour at a hit is put together.
    pub open spec fn shading(
        self,
        comps: AugIntersection,
        remaining: i32,
        probe: ShadeProbe,
    ) -> Shading {
        let in_shadow = Self::shadowed(probe.toward_light@, probe.light_distance);
        Shading {
            in_shadow,
            surface: lit_terms(in_shadow, probe.lighting),
            reflected: self.reflection(comps, remaining),
            refracted: self.refraction(comps, remaining, probe.refraction),
            fresnel: self.weighs_by_reflectance(comps),
        }
    }

    pub fn reflected_color(&self, comps: &AugIntersection, remaining: i32) -> (r: Bounce)
        requires
            comps.object < self.objects@.len(),
        ensures
            r == self.reflection(*comps, remaining),
    {
        if remaining <= 0 {
            return Bounce::Zero;
        }
        let reflective_factor = self.objects[comps.object].material().reflective;
        if reflective_factor.lt(&Scalar::from_bits(EPSILON_BITS)) {
            return Bounce::Zero;
        }
        Bounce::Cast {
            origin: comps.over_point,
            direction: comps.reflectv,
            remaining: remaining - 1,
            weight: reflective_factor,
        }
    }

    pub fn refracted_color(
        &self,
        comps: &AugIntersection,
        remaining: i32,
        probe: &RefractionProbe,
    ) -> (r: Bounce)
        requires
            comps.object < self.objects@.len(),
        ensures
            r == self.refraction(*comps, remaining, *probe),
    {
        let transparency = self.objects[comps.object].material().transparency;
        if remaining <= 0 || transparency.le(&Scalar::from_bits(OPAQUE_BITS)) {
            return Bounce::Zero;
        }
        if probe.sin2_t.ge(&Scalar::one()) {
            return Bounce::Zero;
        }
        Bounce::Cast {
            origin: comps.under_point,
            direction: probe.direction,
            remaining: remaining - 1,
            weight: transparency,
        }
    }

    /// Decides how the colour at a hit is put together: whether the point
    /// is in shadow, which terms light it, which secondary rays are cast,
    /// and how their colours are weighted.
    pub fn shade_hit(
        &self,
        comps: &AugIntersection,
        remaining: i32,
        probe: &ShadeProbe,
    ) -> (r: Shading)
        requires
            comps.object < self.objects@.len(),
        ensures
            r == self.shading(*comps, remaining, *probe),
    {
        let is_shadow: bool = self.is_shadow(&probe.toward_light, &probe.light_distance);
        let surface = phong_lighting(is_shadow, &probe.lighting);
        let reflected = self.reflected_color(comps, remaining);
        let refracted = self.refracted_color(comps, remaining, &probe.refraction);
        let material = self.objects[comps.object].material();
        let fresnel = material.reflective.gt(&Scalar::zero()) && material.transparency.gt(
            &Scalar::zero(),
        );
        Shading { in_shadow: is_shadow, surface, reflected, refracted, fresnel }
    }
}

/// Decides how the colour at a hit of the scene `w` is put together.
pub fn shade_hit(
    w: &World,
    comps: &AugIntersection,
    remaining: i32,
    probe: &ShadeProbe,
) -> (r: Shading)
    requires
        comps.object < w.objects@.len(),
    ensures
        r == w.shading(*comps, remaining, *probe),
{
    w.shade_hit(comps, remaining, probe)
}

/// What a ray sees is the nearest crossing in front of it: of all that the
/// primitives reported, none with `t >= 0` is nearer than the hit.
pub proof fn lemma_sighting_is_nearest(found: Seq<Vec<Intersection>>, i: int)
    requires
        is_hit_at(World::candidates(found), i),
    ensures
        forall|e: Intersection|
            World::gathered(found, found.len() as int).contains(e) && e.t.non_negative()
                ==> World::candidates(found)[i].t.less_eq(e.t),
{
    let all = World::gathered(found, found.len() as int);
    let xs = World::candidates(found);
    lemma_stable_sort(all);
    lemma_rearrangement_keeps_candidates(xs, all);
    lemma_hit_is_nearest(xs, i);
    assert forall|e: Intersection| all.contains(e) && e.t.non_negative() implies xs[i].t.less_eq(
        e.t,
    ) by {
        assert(xs.contains(e));
        let j = choose|j: int| 0 <= j < xs.len() && xs[j] == e;
        assert(xs[j].t.non_negative());
    }
}

/// The recursion floor: with no budget left neither a reflected nor a
/// refracted ray is cast, and both contributions are the zero colour,
/// whatever the material.
pub proof fn lemma_recursion_floor(
    w: World,
    comps: AugIntersection,
    remaining: i32,
    probe: RefractionProbe,
)
    requires
        remaining <= 0,
    ensures
        w.reflection(comps, remaining) == Bounce::Zero,
        w.refraction(comps, remaining, probe) == Bounce::Zero,
{
}

/// Every secondary ray is traced with exactly one less than the budget of
/// the ray that caused it, and that is never below zero: a chain of
/// bounces is no longer than the budget it starts with.
pub proof fn lemma_bounce_spends_budget(
    w: World,
    comps: AugIntersection,
    remaining: i32,
    probe: RefractionProbe,
)
    ensures
        w.reflection(comps, remaining) matches Bounce::Cast { remaining: left, .. } ==> left
            == remaining - 1 && left >= 0,
        w.refraction(comps, remaining, probe) matches Bounce::Cast { remaining: left, .. } ==> left
            == remaining - 1 && left >= 0,
{
}

/// Secondary rays start off the surface: the reflected one at `over_point`,
/// the refracted one at `under_point`, each weighted by the material's own
/// factor.
pub proof fn lemma_bounce_origins(
    w: World,
    comps: AugIntersection,
    remaining: i32,
    probe: RefractionProbe,
)
    ensures
        w.reflection(comps, remaining) matches Bounce::Cast { origin, direction, weight, .. }
            ==> origin == comps.over_point && direction == comps.reflectv && weight
            == w.objects@[comps.object as int].material_of().reflective,
        w.refraction(comps, remaining, probe) matches Bounce::Cast { origin, direction, weight, .. }
            ==> origin == comps.under_point && direction == probe.direction && weight
            == w.objects@[comps.object as int].material_of().transparency,
{
}

} // verus!
