//! Surface materials, and which terms of the lighting model apply.
use vstd::prelude::*;
use crate::pattern::{black_pattern, Kind, Pattern, PatternProbe};
use crate::scalar::{Scalar, ONE_BITS};
use crate::transformation::Step;
use crate::tuple::Tuple;

verus! {

/// Bit pattern of 0.1, the default ambient coefficient.
pub const DEFAULT_AMBIENT_BITS: u64 = 0x3FB9_9999_9999_999A;

/// Bit pattern of 0.9, the default diffuse and specular coefficient.
pub const DEFAULT_DIFFUSE_BITS: u64 = 0x3FEC_CCCC_CCCC_CCCD;

/// Bit pattern of 200.0, the default shininess.
pub const DEFAULT_SHININESS_BITS: u64 = 0x4069_0000_0000_0000;

#[derive(Debug, PartialEq, Eq)]
pub struct Material {
    pub color: Tuple,
    pub ambient: Scalar,
    pub diffuse: Scalar,
    pub specular: Scalar,
    pub shininess: Scalar,
    pub reflective: Scalar,
    pub transparency: Scalar,
    pub refractive_index: Scalar,
    pub has_pattern: bool,
    pub pattern: Pattern,
}

/// The dot products that the lighting model branches on: the direction to
/// the light with the normal, and the reflected light with the eye vector.
#[derive(Clone, Copy, Debug, PartialEq, Eq, Structural)]
pub struct LightingProbe {
    pub light_dot_normal: Scalar,
    pub reflect_dot_eye: Scalar,
}

/// The terms of the lighting model that contribute besides the ambient one,
/// which always does.
#[derive(Clone, Copy, Debug, PartialEq, Eq, Structural)]
pub struct LightingTerms {
    pub diffuse: bool,
    pub specular: bool,
}

impl Material {
    /// Equal in every coefficient, in colour, and in pattern.
    pub open spec fn same_as(self, other: Material) -> bool {
        &&& self.color == other.color
        &&& self.ambient == other.ambient
        &&& self.diffuse == other.diffuse
        &&& self.specular == other.specular
        &&& self.shininess == other.shininess
        &&& self.reflective == other.reflective
        &&& self.transparency == other.transparency
        &&& self.refractive_index == other.refractive_index
        &&& self.has_pattern == other.has_pattern
        &&& self.pattern.kind == other.pattern.kind
        &&& self.pattern.transform@ == other.pattern.transform@
    }

    /// Opaque, matt and without a pattern: no reflection, no transparency,
    /// the refractive index of the vacuum.
    pub open spec fn plain(self) -> bool {
        &&& self.reflective.bits == 0
        &&& self.transparency.bits == 0
        &&& self.refractive_index.bits == ONE_BITS
        &&& !self.has_pattern
        &&& self.pattern.kind matches Kind::Solid(c) && c.is_zero()
        &&& self.pattern.transform@ == Seq::<Step>::empty()
    }

    /// The default surface: white, ambient 0.1, diffuse and specular 0.9,
    /// shininess 200, no pattern.
    pub open spec fn default_surface(self) -> bool {
        &&& self.color.x.bits == ONE_BITS
        &&& self.color.y.bits == ONE_BITS
        &&& self.color.z.bits == ONE_BITS
        &&& self.color.w.bits == ONE_BITS
        &&& self.ambient.bits == DEFAULT_AMBIENT_BITS
        &&& self.diffuse.bits == DEFAULT_DIFFUSE_BITS
        &&& self.specular.bits == DEFAULT_DIFFUSE_BITS
        &&& self.shininess.bits == DEFAULT_SHININESS_BITS
        &&& !self.has_pattern
        &&& self.pattern.kind matches Kind::Solid(c) && c.is_zero()
        &&& self.pattern.transform@ == Seq::<Step>::empty()
    }

    /// The default material: the default surface, opaque and matt.
    pub open spec fn is_default(self) -> bool {
        self.default_surface() && self.plain()
    }

    pub fn new(
        color: Tuple,
        ambient: Scalar,
        diffuse: Scalar,
        specular: Scalar,
        shininess: Scalar,
    ) -> (r: Material)
        ensures
            r.color == color,
            r.ambient == ambient,
            r.diffuse == diffuse,
            r.specular == specular,
            r.shininess == shininess,
            r.plain(),
    {
        Material {
            color,
            ambient,
            diffuse,
            specular,
            shininess,
            transparency: Scalar::zero(),
            refractive_index: Scalar::one(),
            reflective: Scalar::zero(),
            has_pattern: false,
            pattern: black_pattern(),
        }
    }

    /// White, with ambient 0.1, diffuse 0.9, specular 0.9 and shininess 200.
    pub fn default() -> (r: Material)
        ensures
            r.is_default(),
    {
        Material::new(
            Tuple::new(Scalar::one(), Scalar::one(), Scalar::one(), Scalar::one()),
            Scalar::from_bits(DEFAULT_AMBIENT_BITS),
            Scalar::from_bits(DEFAULT_DIFFUSE_BITS),
            Scalar::from_bits(DEFAULT_DIFFUSE_BITS),
            Scalar::from_bits(DEFAULT_SHININESS_BITS),
        )
    }

    /// A material equal to this one.
    pub fn duplicate(&self) -> (r: Material)
        ensures
            r.same_as(*self),
    {
        Material {
            color: self.color,
            ambient: self.ambient,
            diffuse: self.diffuse,
            specular: self.specular,
            shininess: self.shininess,
            reflective: self.reflective,
            transparency: self.transparency,
            refractive_index: self.refractive_index,
            has_pattern: self.has_pattern,
            pattern: self.pattern.duplicate(),
        }
    }

    pub fn set_pattern(&mut self, pattern: &Pattern)
        ensures
            final(self).has_pattern,
            final(self).pattern.kind == pattern.kind,
            final(self).pattern.transform@ == pattern.transform@,
            final(self).color == old(self).color,
            final(self).ambient == old(self).ambient,
            final(self).diffuse == old(self).diffuse,
            final(self).specular == old(self).specular,
            final(self).shininess == old(self).shininess,
            final(self).reflective == old(self).reflective,
            final(self).transparency == old(self).transparency,
            final(self).refractive_index == old(self).refractive_index,
    {
        self.has_pattern = true;
        self.pattern = pattern.duplicate();
    }

    /// The surface colour at a probed point: the pattern's where there is a
    /// pattern, the material's own otherwise.
    pub fn color_at_object(&self, probe: &PatternProbe) -> (r: Tuple)
        ensures
            r == if self.has_pattern {
                self.pattern.kind.colour(*probe)
            } else {
                self.color
            },
    {
        if self.has_pattern {
            self.pattern.color_at(probe)
        } else {
            self.color
        }
    }
}

/// The terms that light a point: none but the ambient one in shadow or with
/// the light behind the surface; the specular one only where the reflected
/// light comes towards the eye.
pub open spec fn lit_terms(in_shadow: bool, probe: LightingProbe) -> LightingTerms {
    let lit = !in_shadow && !probe.light_dot_normal.less(Scalar { bits: 0 });
    LightingTerms {
        diffuse: lit,
        specular: lit && !probe.reflect_dot_eye.less_eq(Scalar { bits: 0 }),
    }
}

/// Which terms of the lighting model contribute at a point.
pub fn phong_lighting(in_shadow: bool, probe: &LightingProbe) -> (r: LightingTerms)
    ensures
        r == lit_terms(in_shadow, *probe),
{
    if in_shadow {
        return LightingTerms { diffuse: false, specular: false };
    }
    if probe.light_dot_normal.lt(&Scalar::zero()) {
        LightingTerms { diffuse: false, specular: false }
    } else if probe.reflect_dot_eye.le(&Scalar::zero()) {
        LightingTerms { diffuse: true, specular: false }
    } else {
        LightingTerms { diffuse: true, specular: true }
    }
}

} // verus!
