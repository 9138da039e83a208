//! The closed set of primitives.
use vstd::prelude::*;
use crate::cone::Cone;
use crate::cube::Cube;
use crate::cylinder::Cylinder;
use crate::material::Material;
use crate::plane::Plane;
use crate::sphere::Sphere;
use crate::transformation::Transform;

verus! {

/// A primitive of a scene. Each kind carries its transform from object to
/// world space and its material.
#[derive(Debug, PartialEq, Eq)]
pub enum Primitive {
    Sphere(Sphere),
    Plane(Plane),
    Cube(Cube),
    Cylinder(Cylinder),
    Cone(Cone),
}

impl Primitive {
    pub open spec fn material_of(self) -> Material {
        match self {
            Primitive::Sphere(s) => s.material,
            Primitive::Plane(s) => s.material,
            Primitive::Cube(s) => s.material,
            Primitive::Cylinder(s) => s.material,
            Primitive::Cone(s) => s.material,
        }
    }

    pub open spec fn transform_of(self) -> Transform {
        match self {
            Primitive::Sphere(s) => s.transform,
            Primitive::Plane(s) => s.transform,
            Primitive::Cube(s) => s.transform,
            Primitive::Cylinder(s) => s.transform,
            Primitive::Cone(s) => s.transform,
        }
    }

    pub fn material(&self) -> (r: &Material)
        ensures
            *r == self.material_of(),
    {
        match self {
            Primitive::Sphere(s) => &s.material,
            Primitive::Plane(s) => &s.material,
            Primitive::Cube(s) => &s.material,
            Primitive::Cylinder(s) => &s.material,
            Primitive::Cone(s) => &s.material,
        }
    }

    pub fn transform(&self) -> (r: &Transform)
        ensures
            *r == self.transform_of(),
    {
        match self {
            Primitive::Sphere(s) => &s.transform,
            Primitive::Plane(s) => &s.transform,
            Primitive::Cube(s) => &s.transform,
            Primitive::Cylinder(s) => &s.transform,
            Primitive::Cone(s) => &s.transform,
        }
    }
}

} // verus!
