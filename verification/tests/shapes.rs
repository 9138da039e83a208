#![allow(dead_code, unused_imports)]
use nalgebra::{Matrix4, Vector4};
use raytracer::cone::{Cone, ConeCapProbe, ConeNormalProbe, ConeProbe};
use raytracer::cube::{cube, Cube, CubeProbe};
use raytracer::cylinder::{cylinder, CapProbe, Cylinder, CylinderNormalProbe, CylinderProbe};
use raytracer::intersection::{
    prepare_computations, schlick, sort_by_distance, AugIntersection, Intersection, SchlickProbe,
    SurfaceProbe,
};
use raytracer::light::PointLight;
use raytracer::material::{phong_lighting, LightingProbe, LightingTerms, Material};
use raytracer::pattern::{
    black_pattern, checkers_pattern, gradient_pattern, ring_pattern, stripe_pattern, Kind, Pattern,
    PatternProbe,
};
use raytracer::plane::{plane, Plane, PlaneProbe};
use raytracer::scalar::Scalar;
use raytracer::shape::Primitive;
use raytracer::shape_props::{
    check_axis, check_cap, check_cap_cone, hit, hit_position, AxisProbe, RootProbe, EPSILON_BITS,
};
use raytracer::sphere::{glass_sphere, sphere, Sphere, SphereProbe};
use raytracer::transformation::{Step, Transform, ViewTransform};
use raytracer::tuple::{Point, Tuple, Vector};
use raytracer::world::{shade_hit, Bounce, RefractionProbe, ShadeProbe, Shading, Sighting, World};

fn s_(x: f64) -> Scalar {
    Scalar::from_bits(x.to_bits())
}

fn f(x: Scalar) -> f64 {
    f64::from_bits(x.to_bits())
}

type V4 = [f64; 4];

fn pt(x: f64, y: f64, z: f64) -> V4 {
    [x, y, z, 1.0]
}

fn vc(x: f64, y: f64, z: f64) -> V4 {
    [x, y, z, 0.0]
}

fn add(a: V4, b: V4) -> V4 {
    [a[0] + b[0], a[1] + b[1], a[2] + b[2], a[3] + b[3]]
}

fn sub(a: V4, b: V4) -> V4 {
    [a[0] - b[0], a[1] - b[1], a[2] - b[2], a[3] - b[3]]
}

fn mul(a: V4, k: f64) -> V4 {
    [a[0] * k, a[1] * k, a[2] * k, a[3] * k]
}

fn dot(a: V4, b: V4) -> f64 {
    a[0] * b[0] + a[1] * b[1] + a[2] * b[2] + a[3] * b[3]
}

fn cross(a: V4, b: V4) -> V4 {
    [a[1] * b[2] - a[2] * b[1], a[2] * b[0] - a[0] * b[2], a[0] * b[1] - a[1] * b[0], 0.0]
}

fn mag(a: V4) -> f64 {
    dot(a, a).sqrt()
}

fn normalize(a: V4) -> V4 {
    let norm = mag(a);
    [a[0] / norm, a[1] / norm, a[2] / norm, a[3] / norm]
}

fn reflect(v: V4, n: V4) -> V4 {
    sub(v, mul(mul(n, 2.0), dot(v, n)))
}

fn near(a: V4, b: V4) -> bool {
    (0..4).all(|i| f64::abs(a[i] - b[i]) < 0.001)
}

fn float_eq(a: f64, b: f64) -> bool {
    f64::abs(a - b) < 0.00001
}

fn tuple(a: V4) -> Tuple {
    Tuple::new(s_(a[0]), s_(a[1]), s_(a[2]), s_(a[3]))
}

fn point(a: V4) -> Point {
    Point { data: tuple(a) }
}

fn vector(a: V4) -> Vector {
    Vector { data: tuple(a) }
}

fn floats(t: Tuple) -> V4 {
    [f(t.x), f(t.y), f(t.z), f(t.w)]
}

fn step_matrix(step: &Step) -> Matrix4<f64> {
    let mut m = Matrix4::<f64>::identity();
    match *step {
        Step::RotateX { radian } => {
            let r = f(radian);
            m[(1, 1)] = r.cos();
            m[(1, 2)] = -r.sin();
            m[(2, 1)] = r.sin();
            m[(2, 2)] = r.cos();
        }
        Step::RotateY { radian } => {
            let r = f(radian);
            m[(0, 0)] = r.cos();
            m[(0, 2)] = r.sin();
            m[(2, 0)] = -r.sin();
            m[(2, 2)] = r.cos();
        }
        Step::RotateZ { radian } => {
            let r = f(radian);
            m[(0, 0)] = r.cos();
            m[(0, 1)] = -r.sin();
            m[(1, 0)] = r.sin();
            m[(1, 1)] = r.cos();
        }
        Step::Translate { x, y, z } => {
            m[(0, 3)] = f(x);
            m[(1, 3)] = f(y);
            m[(2, 3)] = f(z);
        }
        Step::Scaling { x, y, z } => {
            m[(0, 0)] = f(x);
            m[(1, 1)] = f(y);
            m[(2, 2)] = f(z);
        }
        Step::Shear { x_y, x_z, y_x, y_z, z_x, z_y } => {
            m[(0, 1)] = f(x_y);
            m[(0, 2)] = f(x_z);
            m[(1, 0)] = f(y_x);
            m[(1, 2)] = f(y_z);
            m[(2, 0)] = f(z_x);
            m[(2, 1)] = f(z_y);
        }
        Step::View { from, to, up } => {
            let from = floats(from.data);
            let forward = normalize(sub(floats(to.data), from));
            let left = cross(forward, normalize(floats(up.data)));
            let true_up = cross(left, forward);
            for c in 0..3 {
                m[(0, c)] = left[c];
                m[(1, c)] = true_up[c];
                m[(2, c)] = -forward[c];
            }
            let mut back = Matrix4::<f64>::identity();
            back[(0, 3)] = -from[0];
            back[(1, 3)] = -from[1];
            back[(2, 3)] = -from[2];
            m = m * back;
        }
    }
    m
}

fn matrix(t: &Transform) -> Matrix4<f64> {
    let mut m = Matrix4::<f64>::identity();
    for step in t.steps.iter() {
        m = step_matrix(step) * m;
    }
    m
}

fn inverse(t: &Transform) -> Matrix4<f64> {
    matrix(t).try_inverse().unwrap()
}

fn apply(m: &Matrix4<f64>, a: V4) -> V4 {
    let r = m * Vector4::new(a[0], a[1], a[2], a[3]);
    [r[0], r[1], r[2], r[3]]
}

fn sphere_probe(o: V4, d: V4) -> SphereProbe {
    let sphere_to_ray = sub(o, pt(0.0, 0.0, 0.0));
    let a = dot(d, d);
    let b = 2.0 * dot(d, sphere_to_ray);
    let c = dot(sphere_to_ray, sphere_to_ray) - 1.0;
    let discriminant = b * b - 4.0 * a * c;
    SphereProbe {
        a: s_(a),
        discriminant: s_(discriminant),
        first: s_((-b - f64::sqrt(discriminant)) / (2.0 * a)),
        second: s_((-b + f64::sqrt(discriminant)) / (2.0 * a)),
    }
}

fn plane_probe(o: V4, d: V4) -> PlaneProbe {
    PlaneProbe { direction_y: s_(d[1]), t: s_(-o[1] / d[1]) }
}

fn axis_probe(origin: f64, direction: f64) -> AxisProbe {
    let near = -1.0 - origin;
    let far = 1.0 - origin;
    AxisProbe {
        direction: s_(direction),
        near: s_(near),
        far: s_(far),
        near_over_direction: s_(near / direction),
        far_over_direction: s_(far / direction),
    }
}

fn cube_probe(o: V4, d: V4) -> CubeProbe {
    CubeProbe { x: axis_probe(o[0], d[0]), y: axis_probe(o[1], d[1]), z: axis_probe(o[2], d[2]) }
}

fn radius_squared(o: V4, d: V4, t: f64) -> f64 {
    let x = o[0] + t * d[0];
    let z = o[2] + t * d[2];
    x * x + z * z
}

fn root(o: V4, d: V4, t: f64) -> RootProbe {
    RootProbe { t: s_(t), y: s_(t * d[1] + o[1]) }
}

fn cylinder_probe(o: V4, d: V4, min: f64, max: f64) -> CylinderProbe {
    let low = (min - o[1]) / d[1];
    let high = (max - o[1]) / d[1];
    let a = f64::powf(d[0], 2.0) + f64::powf(d[2], 2.0);
    let b = 2.0 * o[0] * d[0] + 2.0 * o[2] * d[2];
    let c = f64::powf(o[0], 2.0) + f64::powf(o[2], 2.0) - 1.0;
    let disc = f64::powf(b, 2.0) - 4.0 * a * c;
    CylinderProbe {
        direction_y: s_(d[1]),
        low_cap: CapProbe { t: s_(low), radius_squared: s_(radius_squared(o, d, low)) },
        high_cap: CapProbe { t: s_(high), radius_squared: s_(radius_squared(o, d, high)) },
        a: s_(a),
        discriminant: s_(disc),
        first: root(o, d, (-b - f64::sqrt(disc)) / (2.0 * a)),
        second: root(o, d, (-b + f64::sqrt(disc)) / (2.0 * a)),
    }
}

fn cone_probe(o: V4, d: V4, min: f64, max: f64) -> ConeProbe {
    let low = (min - o[1]) / d[1];
    let high = (max - o[1]) / d[1];
    let a = d[0] * d[0] - d[1] * d[1] + d[2] * d[2];
    let b = 2.0 * o[0] * d[0] - 2.0 * o[1] * d[1] + 2.0 * o[2] * d[2];
    let c = o[0] * o[0] - o[1] * o[1] + o[2] * o[2];
    let disc = b * b - 4.0 * a * c;
    ConeProbe {
        direction_y: s_(d[1]),
        low_cap: ConeCapProbe { t: s_(low), radius: s_(radius_squared(o, d, low).sqrt()) },
        high_cap: ConeCapProbe { t: s_(high), radius: s_(radius_squared(o, d, high).sqrt()) },
        a: s_(a),
        b: s_(b),
        linear: root(o, d, -c / (2.0 * b)),
        discriminant: s_(disc),
        first: root(o, d, (-b - f64::sqrt(disc)) / (2.0 * a)),
        second: root(o, d, (-b + f64::sqrt(disc)) / (2.0 * a)),
    }
}

fn intersect(shape: &Primitive, object: usize, origin: V4, direction: V4) -> Vec<Intersection> {
    let back = inverse(shape.transform());
    let o = apply(&back, origin);
    let d = apply(&back, direction);
    match shape {
        Primitive::Sphere(sphere) => sphere.intersect(object, &sphere_probe(o, d)),
        Primitive::Plane(plane) => plane.intersect(object, &plane_probe(o, d)),
        Primitive::Cube(cube) => cube.intersect(object, &cube_probe(o, d)),
        Primitive::Cylinder(c) => c.intersect(
            object,
            &cylinder_probe(o, d, f(c.cylinder_minimum), f(c.cylinder_maximum)),
        ),
        Primitive::Cone(c) => {
            c.intersect(object, &cone_probe(o, d, f(c.cylinder_minimum), f(c.cylinder_maximum)))
        }
    }
}

fn local_normal(shape: &Primitive, p: V4) -> V4 {
    let radius_squared = p[0] * p[0] + p[2] * p[2];
    let normal = match shape {
        Primitive::Sphere(sphere) => sphere.normal_at(&point(p)),
        Primitive::Plane(plane) => plane.normal_at(),
        Primitive::Cube(cube) => cube.normal_at(&point(p)),
        Primitive::Cylinder(c) => c.normal_at(&CylinderNormalProbe {
            point: point(p),
            radius_squared: s_(radius_squared),
            upper: s_(f(c.cylinder_maximum) - f64::EPSILON),
            lower: s_(f(c.cylinder_minimum) + f64::EPSILON),
        }),
        Primitive::Cone(c) => {
            let probe = ConeNormalProbe {
                point: point(p),
                radius: s_(f64::sqrt(radius_squared)),
                upper: s_(f(c.cylinder_maximum) - f64::EPSILON),
                lower: s_(f(c.cylinder_minimum) + f64::EPSILON),
            };
            match c.normal_at(&probe) {
                Some(n) => n,
                None => Vector::new(s_(0.0), s_(0.0), s_(0.0)),
            }
        }
    };
    floats(normal.data)
}

fn normal_at(shape: &Primitive, p: V4) -> V4 {
    let back = inverse(shape.transform());
    let local = local_normal(shape, apply(&back, p));
    let mut world = apply(&back.transpose(), local);
    world[3] = 0.0;
    if world == [0.0; 4] {
        return world;
    }
    normalize(world)
}

fn surface_probe(shape: &Primitive, origin: V4, direction: V4, t: f64) -> SurfaceProbe {
    let p = add(origin, mul(direction, t));
    let normal = normal_at(shape, p);
    let bias = f64::from_bits(EPSILON_BITS);
    SurfaceProbe {
        point: point(p),
        normal: vector(normal),
        eye_dot_normal: s_(dot(mul(direction, -1.0), normal)),
        raised: point(add(p, mul(normal, bias))),
        lowered: point(sub(p, mul(normal, bias))),
        reflected: vector(reflect(direction, normal)),
    }
}

fn schlick_probe(comps: &AugIntersection) -> SchlickProbe {
    let n1 = f(comps.n1);
    let n2 = f(comps.n2);
    let cos = dot(floats(comps.eyev.data), floats(comps.normalv.data));
    let n = n1 / n2;
    let sin2_t = n * n * (1.0 - cos * cos);
    let cos_t = f64::sqrt(1.0 - sin2_t);
    let r0 = ((n1 - n2) / (n1 + n2)).powf(2.0);
    SchlickProbe {
        sin2_t: s_(sin2_t),
        direct: s_(r0 + (1.0 - r0) * (1.0 - cos).powf(5.0)),
        bent: s_(r0 + (1.0 - r0) * (1.0 - cos_t).powf(5.0)),
    }
}

fn refraction_probe(comps: &AugIntersection) -> RefractionProbe {
    let eyev = floats(comps.eyev.data);
    let normalv = floats(comps.normalv.data);
    let n_ratio = f(comps.n1) / f(comps.n2);
    let cos_i = dot(eyev, normalv);
    let sin2_t = n_ratio * n_ratio * (1.0 - cos_i * cos_i);
    let cos_t = f64::sqrt(1.0 - sin2_t);
    let direction = sub(mul(normalv, n_ratio * cos_i - cos_t), mul(eyev, n_ratio));
    RefractionProbe { sin2_t: s_(sin2_t), direction: vector(direction) }
}

fn pattern_probe(kind: &Kind, p: V4) -> PatternProbe {
    let blend = match *kind {
        Kind::Gradient(a, b) => {
            let distance = sub(floats(b), floats(a));
            add(floats(a), mul(distance, p[0] - p[0].floor()))
        }
        _ => [0.0; 4],
    };
    PatternProbe {
        stripe: p[0].floor() as i64,
        ring: (p[0] * p[0] + p[2] * p[2]).sqrt().floor() as i64,
        checkers: (p[0].floor() + p[1].floor() + p[2].floor()) as i64,
        blend: tuple(blend),
    }
}

fn surface_colour(shape: &Primitive, p: V4) -> V4 {
    let material = shape.material();
    let object_point = apply(&inverse(shape.transform()), p);
    let pattern_point = apply(&inverse(&material.pattern.transform), object_point);
    floats(material.color_at_object(&pattern_probe(&material.pattern.kind, pattern_point)))
}

fn found(world: &World, origin: V4, direction: V4) -> Vec<Vec<Intersection>> {
    world.objects.iter().enumerate().map(|(i, shape)| intersect(shape, i, origin, direction)).collect()
}

fn hadamard(a: V4, b: V4) -> V4 {
    [a[0] * b[0], a[1] * b[1], a[2] * b[2], a[3] * b[3]]
}

fn lit(world: &World, comps: &AugIntersection, terms: LightingTerms) -> V4 {
    let shape = &world.objects[comps.object];
    let m = shape.material();
    let p = floats(comps.over_point.data);
    let intensity = floats(world.light.intensity);
    let effective = hadamard(surface_colour(shape, p), intensity);
    let mut colour = mul(effective, f(m.ambient));
    let light_direction = normalize(sub(floats(world.light.position.data), p));
    let normalv = floats(comps.normalv.data);
    if terms.diffuse {
        colour = add(colour, mul(mul(effective, f(m.diffuse)), dot(light_direction, normalv)));
    }
    if terms.specular {
        let reflectv = reflect(mul(light_direction, -1.0), normalv);
        let factor = dot(reflectv, floats(comps.eyev.data)).powf(f(m.shininess));
        colour = add(colour, mul(mul(intensity, f(m.specular)), factor));
    }
    colour
}

fn lighting_probe(world: &World, comps: &AugIntersection) -> LightingProbe {
    let p = floats(comps.over_point.data);
    let normalv = floats(comps.normalv.data);
    let light_direction = normalize(sub(floats(world.light.position.data), p));
    let reflectv = reflect(mul(light_direction, -1.0), normalv);
    LightingProbe {
        light_dot_normal: s_(dot(light_direction, normalv)),
        reflect_dot_eye: s_(dot(reflectv, floats(comps.eyev.data))),
    }
}

fn shadow_probe(world: &World, p: V4) -> (Vec<Vec<Intersection>>, Scalar) {
    let to_light = sub(floats(world.light.position.data), p);
    (found(world, p, normalize(to_light)), s_(mag(to_light)))
}

fn is_shadow(world: &World, p: V4) -> bool {
    let (toward_light, distance) = shadow_probe(world, p);
    world.is_shadow(&toward_light, &distance)
}

fn shade_probe(world: &World, comps: &AugIntersection) -> ShadeProbe {
    let (toward_light, light_distance) = shadow_probe(world, floats(comps.over_point.data));
    ShadeProbe {
        toward_light,
        light_distance,
        lighting: lighting_probe(world, comps),
        refraction: refraction_probe(comps),
    }
}

fn bounce(world: &World, b: Bounce) -> V4 {
    match b {
        Bounce::Zero => [0.0; 4],
        Bounce::Cast { origin, direction, remaining, weight } => mul(
            colour_at(world, floats(origin.data), floats(direction.data), remaining),
            f(weight),
        ),
    }
}

fn shade(world: &World, comps: &AugIntersection, remaining: i32) -> V4 {
    let shading = world.shade_hit(comps, remaining, &shade_probe(world, comps));
    let surface = lit(world, comps, shading.surface);
    let reflected = bounce(world, shading.reflected);
    let refracted = bounce(world, shading.refracted);
    if shading.fresnel {
        let reflectance = f(schlick(comps, &schlick_probe(comps)));
        add(add(surface, mul(reflected, reflectance)), mul(refracted, 1.0 - reflectance))
    } else {
        add(add(surface, reflected), refracted)
    }
}

fn prepare(world: &World, hit: usize, origin: V4, direction: V4, xs: &Vec<Intersection>) -> AugIntersection {
    assert!(hit < xs.len() && world.admits_all(xs));
    let shape = &world.objects[xs[hit].object];
    let probe = surface_probe(shape, origin, direction, f(xs[hit].t));
    prepare_computations(hit, &vector(direction), &probe, xs, world)
}

fn colour_at(world: &World, origin: V4, direction: V4, remaining: i32) -> V4 {
    match world.color_at_ray(&found(world, origin, direction)) {
        Sighting::Background => [0.0; 4],
        Sighting::Surface { xs, hit } => {
            let comps = prepare(world, hit, origin, direction, &xs);
            shade(world, &comps, remaining)
        }
    }
}

fn lone(shape: Primitive) -> World {
    World {
        objects: vec![shape],
        light: PointLight::new(point(pt(-10.0, 10.0, -10.0)), tuple([1.0, 1.0, 1.0, 1.0])),
    }
}

fn default_world(second_painted: bool) -> World {
    let paint = || {
        Material::new(tuple([0.8, 1.0, 0.6, 1.0]), s_(0.1), s_(0.7), s_(0.2), s_(200.0))
    };
    let mut s1 = Sphere::default();
    s1.set_material(paint());
    let mut s2 = Sphere::default();
    if second_painted {
        s2.set_material(paint());
    }
    s2.set_transform(Transform::new().scaling(s_(0.5), s_(0.5), s_(0.5)));
    World {
        objects: vec![Primitive::Sphere(s1), Primitive::Sphere(s2)],
        light: PointLight::new(point(pt(-10.0, 10.0, -10.0)), tuple([1.0, 1.0, 1.0, 1.0])),
    }
}

fn ts(xs: &Vec<Intersection>) -> Vec<f64> {
    xs.iter().map(|i| f(i.t)).collect()
}

#[test]
fn sphere_is_behind_ray() {
    let s = Sphere::default();
    let count = s.intersect(0, &sphere_probe(pt(0.0, 0.0, 5.0), vc(0.0, 0.0, 1.0)));
    assert_eq!(count.len(), 2);
    assert_eq!(f64::abs(f(count[0].t) + 6.0) < 0.001, true);
    assert_eq!(f64::abs(f(count[1].t) + 4.0) < 0.001, true);
}

#[test]
fn sphere_in_front_of_ray() {
    let s = Sphere::default();
    let xs = s.intersect(7, &sphere_probe(pt(0.0, 0.0, -5.0), vc(0.0, 0.0, 1.0)));
    assert_eq!(ts(&xs), vec![4.0, 6.0]);
    assert_eq!(xs[0].object, 7);
    assert_eq!(xs[1].object, 7);
}

#[test]
fn sphere_tangent_ray_gives_both_equal_roots() {
    let s = Sphere::default();
    let xs = s.intersect(0, &sphere_probe(pt(0.0, 1.0, -5.0), vc(0.0, 0.0, 1.0)));
    assert_eq!(ts(&xs), vec![5.0, 5.0]);
}

#[test]
fn sphere_missed_by_ray() {
    let s = Sphere::default();
    let xs = s.intersect(0, &sphere_probe(pt(0.0, 2.0, -5.0), vc(0.0, 0.0, 1.0)));
    assert_eq!(xs.len(), 0);
}

#[test]
fn sphere_degenerate_direction_gives_nothing() {
    let s = Sphere::default();
    let xs = s.intersect(0, &sphere_probe(pt(0.0, 0.0, 0.0), vc(0.0, 0.0, 0.001)));
    assert_eq!(xs.len(), 0);
    let xs = s.intersect(0, &sphere_probe(pt(0.0, 0.0, 0.0), vc(0.0, 0.0, 0.01)));
    assert_eq!(ts(&xs), vec![-100.0, 100.0]);
}

#[test]
fn sphere_roots_come_out_ascending() {
    let s = Sphere::default();
    let probe = SphereProbe { a: s_(1.0), discriminant: s_(4.0), first: s_(6.0), second: s_(4.0) };
    assert_eq!(ts(&s.intersect(0, &probe)), vec![4.0, 6.0]);
}

#[test]
fn sphere_has_transform() {
    let mut s = sphere();
    let transform = s.transform();
    let m = matrix(&transform);
    assert_eq!(f64::abs(m[(0, 0)] - 1.0) < 0.001, true);
    assert_eq!(f64::abs(m[(1, 1)] - 1.0) < 0.001, true);
    assert_eq!(f64::abs(m[(2, 2)] - 1.0) < 0.001, true);
    assert_eq!(f64::abs(m[(3, 3)] - 1.0) < 0.001, true);
    s.transform = transform.translate(s_(2.0), s_(3.0), s_(4.0));
    let new_transform = matrix(&s.transform());
    assert_eq!(f64::abs(new_transform[(0, 0)] - 1.0) < 0.001, true);
    assert_eq!(f64::abs(new_transform[(0, 3)] - 2.0) < 0.001, true);
    assert_eq!(f64::abs(new_transform[(1, 3)] - 3.0) < 0.001, true);
    assert_eq!(f64::abs(new_transform[(2, 3)] - 4.0) < 0.001, true);
}

#[test]
fn sphere_scale_intersect() {
    let mut s = sphere();
    let transform = s.transform();
    let m = matrix(&transform);
    assert_eq!(f64::abs(m[(0, 0)] - 1.0) < 0.001, true);
    assert_eq!(f64::abs(m[(1, 1)] - 1.0) < 0.001, true);
    assert_eq!(f64::abs(m[(2, 2)] - 1.0) < 0.001, true);
    assert_eq!(f64::abs(m[(3, 3)] - 1.0) < 0.001, true);
    s.set_transform(transform.scaling(s_(2.0), s_(2.0), s_(2.0)));
    let res = intersect(&Primitive::Sphere(s), 0, pt(0.0, 0.0, -5.0), vc(0.0, 0.0, 1.0));
    assert_eq!(res.len(), 2);
    assert_eq!(f64::abs(f(res[0].t)), 3.0);
    assert_eq!(f64::abs(f(res[1].t) - 7.0) < 0.01, true);
}

#[test]
fn translated_ray_with_a_ray() {
    let mut s = sphere();
    let transform = s.transform();
    let m = matrix(&transform);
    assert_eq!(f64::abs(m[(0, 0)] - 1.0) < 0.001, true);
    assert_eq!(f64::abs(m[(1, 1)] - 1.0) < 0.001, true);
    assert_eq!(f64::abs(m[(2, 2)] - 1.0) < 0.001, true);
    assert_eq!(f64::abs(m[(3, 3)] - 1.0) < 0.001, true);
    s.transform = transform.translate(s_(5.0), s_(0.0), s_(0.0));
    let res = intersect(&Primitive::Sphere(s), 0, pt(0.0, 0.0, -5.0), vc(0.0, 0.0, 1.0));
    assert_eq!(res.len(), 0);
}

#[test]
fn sphere_normal_calculation() {
    let s = Primitive::Sphere(sphere());
    let n = normal_at(&s, pt(1.0, 0.0, 0.0));

    assert_eq!(near(n, vc(1.0, 0.0, 0.0)), true);

    let n2 = normal_at(&s, pt(0.0, 0.0, 1.0));
    assert_eq!(near(n2, vc(0.0, 0.0, 1.0)), true);
}

#[test]
fn translated_sphere_normal_calculation() {
    let mut s = sphere();
    let transform = Transform::new();
    let t2 = transform.translate(s_(0.0), s_(1.0), s_(0.0));
    s.set_transform(t2);
    let n = normal_at(&Primitive::Sphere(s), pt(0.0, 1.70711, -0.70711));

    assert_eq!(near(n, vc(0.0, 0.70711, -0.70711)), true);
}

#[test]
fn intersecting_a_scaled_shape_with_a_ray() {
    let mut s = sphere();
    s.set_transform(Transform::new().scaling(s_(2.0), s_(2.0), s_(2.0)));

    let _xs = intersect(&Primitive::Sphere(s), 0, pt(0.0, 0.0, -5.0), vc(0.0, 0.0, 1.0));
}

#[test]
fn sphere_local_normal_is_the_point_as_a_vector() {
    let n = sphere().normal_at(&point(pt(0.25, -0.5, 2.0)));
    assert_eq!(n, vector(vc(0.25, -0.5, 2.0)));
}

#[test]
fn glass_sphere_is_transparent_glass() {
    let s = glass_sphere();
    assert_eq!(f(s.material.transparency), 1.0);
    assert_eq!(f(s.material.refractive_index), 1.5);
    assert_eq!(f(s.material.reflective), 0.0);
    assert_eq!(s.transform.steps.len(), 0);
}

#[test]
fn the_normal_of_a_plane_is_constant_everywhere() {
    let p = Primitive::Plane(plane());
    let n1 = normal_at(&p, pt(0.0, 0.0, 0.0));
    let n2 = normal_at(&p, pt(10.0, 0.0, -10.0));
    let n3 = normal_at(&p, pt(-5.0, 0.0, 150.0));
    let true_v = vc(0.0, 1.0, 0.0);
    assert_eq!(near(n1, true_v), true);
    assert_eq!(near(n2, true_v), true);
    assert_eq!(near(n3, true_v), true);
}

#[test]
fn intersect_with_a_ray_parallel_to_the_plan() {
    let p = plane();
    let xs = p.intersect(0, &plane_probe(pt(0.0, 10.0, 0.0), vc(0.0, 0.0, 1.0)));
    assert_eq!(xs.len(), 0);
}

#[test]
fn intersect_with_a_coplanar_ray() {
    let p = plane();
    let xs = p.intersect(0, &plane_probe(pt(0.0, 10.0, 0.0), vc(0.0, 0.0, 1.0)));
    assert_eq!(xs.len(), 0);
}

#[test]
fn a_ray_intersecting_a_plane_from_above() {
    let p = plane();
    let xs = p.intersect(0, &plane_probe(pt(0.0, -1.0, 0.0), vc(0.0, 1.0, 0.0)));
    assert_eq!(xs.len(), 1);
    assert_eq!(f64::abs(f(xs[0].t) - 1.0) < 0.001, true);
}

#[test]
fn a_ray_intersecting_a_plan_from_below() {
    let p = plane();
    let xs = p.intersect(0, &plane_probe(pt(0.0, -1.0, 0.0), vc(0.0, 1.0, 0.0)));
    assert_eq!(xs.len(), 1);
    assert_eq!(f64::abs(f(xs[0].t) - 1.0) < 0.001, true);
}

#[test]
fn plane_counts_slopes_up_to_a_ten_thousandth_as_parallel() {
    let p = plane();
    for dy in [0.0, -0.0, 0.0001, -0.0001, 0.00005, f64::NAN] {
        let xs = p.intersect(0, &plane_probe(pt(0.0, 1.0, 0.0), vc(1.0, dy, 0.0)));
        assert_eq!(xs.len(), 0);
    }
    let xs = p.intersect(3, &plane_probe(pt(0.0, 1.0, 0.0), vc(1.0, -0.00011, 0.0)));
    assert_eq!(xs.len(), 1);
    assert_eq!(xs[0].object, 3);
    assert_eq!(f(xs[0].t), -1.0 / -0.00011);
}

#[test]
fn a_ray_intersects_a_cube() {
    let c = cube();
    let xs = c.intersect(0, &cube_probe(pt(5.0, 0.5, 0.0), vc(-1.0, 0.0, 0.0)));

    assert!(float_eq(f(xs[0].t), 4.0));
    assert!(float_eq(f(xs[1].t), 6.0));

    let xs1 = c.intersect(0, &cube_probe(pt(0.0, 0.5, 0.0), vc(0.0, 0.0, 1.0)));
    assert!(float_eq(f(xs1[0].t), -1.0));
    assert!(float_eq(f(xs1[1].t), 1.0));
}

#[test]
fn a_ray_misses_a_cube() {
    let c = cube();
    let x = c.intersect(0, &cube_probe(pt(-2.0, 0.0, 0.0), vc(0.2673, 0.5345, 0.8018)));
    assert_eq!(x.len(), 0);
}

#[test]
fn the_normal_on_the_surface_of_a_cube() {
    let c = Primitive::Cube(cube());
    let n1 = normal_at(&c, pt(1.0, 0.5, -0.8));
    let n2 = normal_at(&c, pt(-1.0, -0.2, 0.9));
    assert!(near(n1, vc(1.0, 0.0, 0.0)));
    assert!(near(n2, vc(-1.0, 0.0, 0.0)));
}

#[test]
fn cube_normal_follows_the_largest_component() {
    let c = cube();
    assert_eq!(c.normal_at(&point(pt(0.4, -1.0, 0.9))), vector(vc(0.0, -1.0, 0.0)));
    assert_eq!(c.normal_at(&point(pt(0.4, 0.3, -1.0))), vector(vc(0.0, 0.0, -1.0)));
    assert_eq!(c.normal_at(&point(pt(1.0, 1.0, 1.0))), vector(vc(1.0, 0.0, 0.0)));
    assert_eq!(c.normal_at(&point(pt(-1.0, -1.0, -1.0))), vector(vc(-1.0, 0.0, 0.0)));
    assert_eq!(c.normal_at(&point(pt(0.5, 1.0, -1.0))), vector(vc(0.0, 1.0, 0.0)));
}

#[test]
fn check_axis_divides_or_saturates() {
    assert_eq!(
        check_axis(&axis_probe(5.0, -1.0)).iter().map(|t| f(*t)).collect::<Vec<f64>>(),
        vec![4.0, 6.0]
    );
    assert_eq!(
        check_axis(&axis_probe(0.5, 0.0)).iter().map(|t| f(*t)).collect::<Vec<f64>>(),
        vec![f64::MIN, f64::MAX]
    );
    assert_eq!(
        check_axis(&axis_probe(2.0, 0.000009)).iter().map(|t| f(*t)).collect::<Vec<f64>>(),
        vec![f64::MIN, f64::MIN]
    );
    assert_eq!(
        check_axis(&axis_probe(-2.0, 0.0)).iter().map(|t| f(*t)).collect::<Vec<f64>>(),
        vec![f64::MAX, f64::MAX]
    );
    assert_eq!(
        check_axis(&axis_probe(0.0, 0.00001)).iter().map(|t| f(*t)).collect::<Vec<f64>>(),
        vec![-1.0 / 0.00001, 1.0 / 0.00001]
    );
}

#[test]
fn the_default_minimum_and_maximum_for_a_cylinder() {
    let cyl = cylinder();
    assert_eq!(f(cyl.cylinder_minimum), f64::MIN);
    assert_eq!(f(cyl.cylinder_maximum), f64::MAX);
}

#[test]
fn intersecting_a_constrained_cylinder() {
    let mut cyl = cylinder();
    cyl.set_cylinder_truncation(s_(1.0), s_(2.0));

    let xs = cyl.intersect(0, &cylinder_probe(pt(0.0, 2.0, -5.0), vc(0.0, 0.0, 1.0), 1.0, 2.0));

    assert_eq!(xs.len(), 0);

    let xs2 = cyl.intersect(0, &cylinder_probe(pt(0.0, 1.5, -2.0), vc(0.0, 0.0, 1.0), 1.0, 2.0));
    assert_eq!(xs2.len(), 2);
}

#[test]
fn intersecting_the_caps_of_a_closed_cylinder() {
    let mut cyl = cylinder();
    cyl.set_cylinder_truncation(s_(1.0), s_(2.0));
    cyl.set_cylinder_closed(true);

    let xs = cyl.intersect(0, &cylinder_probe(pt(0.0, 3.0, 0.0), vc(0.0, -1.0, 0.0), 1.0, 2.0));
    assert_eq!(xs.len(), 2);

    let d = normalize(vc(0.0, -1.0, 1.0));
    let xs = cyl.intersect(0, &cylinder_probe(pt(0.0, 4.0, -2.0), d, 1.0, 2.0));
    assert_eq!(xs.len(), 2);

    let d = normalize(vc(0.0, 1.0, 1.0));
    let xs = cyl.intersect(0, &cylinder_probe(pt(0.0, -1.0, -2.0), d, 1.0, 2.0));
    assert_eq!(xs.len(), 2);
}

#[test]
fn the_normal_vector_on_a_cylinder_end_caps() {
    let mut cyl = cylinder();
    cyl.set_cylinder_truncation(s_(1.0), s_(2.0));
    cyl.set_cylinder_closed(true);

    let n = normal_at(&Primitive::Cylinder(cyl), pt(0.0, 1.0, 0.0));

    assert_eq!(near(n, vc(0.0, -1.0, 0.0)), true);
}

#[test]
fn cylinder_caps_come_out_in_order_of_distance() {
    let mut cyl = cylinder();
    cyl.set_cylinder_truncation(s_(1.0), s_(2.0));
    cyl.set_cylinder_closed(true);
    let xs = cyl.intersect(4, &cylinder_probe(pt(0.0, 3.0, 0.0), vc(0.0, -1.0, 0.0), 1.0, 2.0));
    assert_eq!(ts(&xs), vec![1.0, 2.0]);
    assert_eq!(xs[0].object, 4);
}

#[test]
fn open_cylinder_has_no_caps() {
    let mut cyl = cylinder();
    cyl.set_cylinder_truncation(s_(1.0), s_(2.0));
    let xs = cyl.intersect(0, &cylinder_probe(pt(0.0, 3.0, 0.0), vc(0.0, -1.0, 0.0), 1.0, 2.0));
    assert_eq!(xs.len(), 0);
}

#[test]
fn cylinder_wall_is_hit_between_the_truncation_planes_only() {
    let cyl = cylinder();
    let xs = cyl.intersect(0, &cylinder_probe(pt(0.5, 0.0, -5.0), normalize(vc(0.1, 1.0, 1.0)), f64::MIN, f64::MAX));
    assert_eq!(xs.len(), 2);
    assert!(float_eq(f(xs[0].t), 6.80798));
    assert!(float_eq(f(xs[1].t), 7.08872));

    let mut cut = cylinder();
    cut.set_cylinder_truncation(s_(1.0), s_(2.0));
    for (o, d, n) in [
        (pt(0.0, 1.5, 0.0), vc(0.1, 1.0, 0.0), 0),
        (pt(0.0, 3.0, -5.0), vc(0.0, 0.0, 1.0), 0),
        (pt(0.0, 0.0, -5.0), vc(0.0, 0.0, 1.0), 0),
        (pt(0.0, 2.0, -5.0), vc(0.0, 0.0, 1.0), 0),
        (pt(0.0, 1.0, -5.0), vc(0.0, 0.0, 1.0), 0),
        (pt(0.0, 1.5, -2.0), vc(0.0, 0.0, 1.0), 2),
    ] {
        assert_eq!(cut.intersect(0, &cylinder_probe(o, normalize(d), 1.0, 2.0)).len(), n);
    }
}

#[test]
fn cylinder_normals() {
    let cyl = Primitive::Cylinder(cylinder());
    assert!(near(normal_at(&cyl, pt(1.0, 0.0, 0.0)), vc(1.0, 0.0, 0.0)));
    assert!(near(normal_at(&cyl, pt(0.0, 5.0, -1.0)), vc(0.0, 0.0, -1.0)));
    assert!(near(normal_at(&cyl, pt(-1.0, 1.0, 0.0)), vc(-1.0, 0.0, 0.0)));

    let mut cut = cylinder();
    cut.set_cylinder_truncation(s_(1.0), s_(2.0));
    cut.set_cylinder_closed(true);
    let cut = Primitive::Cylinder(cut);
    assert!(near(normal_at(&cut, pt(0.5, 1.0, 0.0)), vc(0.0, -1.0, 0.0)));
    assert!(near(normal_at(&cut, pt(0.0, 2.0, 0.5)), vc(0.0, 1.0, 0.0)));
}

#[test]
fn intersecting_a_cone_with_a_ray() {
    let shape = Cone::new();
    let xs = shape.intersect(0, &cone_probe(pt(0.0, 0.0, -5.0), vc(0.0, 0.0, 1.0), f64::MIN, f64::MAX));

    assert_eq!(xs.len(), 2);
    assert!(float_eq(f(xs[0].t), 5.0));
    assert!(float_eq(f(xs[1].t), 5.0));

    let d = normalize(vc(-0.5, -1.0, 1.0));
    let xs = shape.intersect(0, &cone_probe(pt(1.0, 1.0, -5.0), d, f64::MIN, f64::MAX));
    assert!(float_eq(f(xs[0].t), 4.55006));
    assert!(float_eq(f(xs[1].t), 49.44994));
}

#[test]
fn intersecting_a_cone_with_a_ray_parallel_to_one_of_its_halves() {
    let shape = Cone::new();
    let d = normalize(vc(0.0, 1.0, 1.0));
    let xs = shape.intersect(0, &cone_probe(pt(0.0, 0.0, -1.0), d, f64::MIN, f64::MAX));

    assert_eq!(xs.len(), 1);
    assert!(float_eq(f(xs[0].t), 0.35355));
}

#[test]
fn intersecting_a_cone_end_caps() {
    let mut shape = Cone::new();
    shape.cylinder_closed = true;
    shape.cylinder_minimum = s_(-0.5);
    shape.cylinder_maximum = s_(0.5);

    let xs = shape.intersect(0, &cone_probe(pt(0.0, 0.0, -5.0), vc(0.0, 1.0, 0.0), -0.5, 0.5));
    assert_eq!(xs.len(), 0);

    let d = normalize(vc(0.0, 1.0, 1.0));
    let xs = shape.intersect(0, &cone_probe(pt(0.0, 0.0, -0.25), d, -0.5, 0.5));
    assert_eq!(xs.len(), 2);

    let xs = shape.intersect(0, &cone_probe(pt(0.0, 0.0, -0.25), vc(0.0, 1.0, 0.0), -0.5, 0.5));
    assert_eq!(xs.len(), 4);
    let found = ts(&xs);
    assert_eq!(found, vec![-0.5, -0.25, 0.25, 0.5]);
}

#[test]
fn cone_cap_reaches_as_far_as_its_height() {
    let mut shape = Cone::new();
    shape.cylinder_closed = true;
    shape.cylinder_minimum = s_(-0.5);
    shape.cylinder_maximum = s_(0.5);
    let inside = shape.intersect(0, &cone_probe(pt(0.49, 1.0, 0.0), vc(0.0, -1.0, 0.0), -0.5, 0.5));
    assert!(ts(&inside).contains(&0.5));
    let outside = shape.intersect(0, &cone_probe(pt(0.6, 1.0, 0.0), vc(0.0, -1.0, 0.0), -0.5, 0.5));
    assert!(!ts(&outside).contains(&0.5));
}

#[test]
fn cone_with_both_coefficients_vanishing_has_no_wall_root() {
    let shape = Cone::new();
    let d = normalize(vc(0.0, 1.0, 1.0));
    let xs = shape.intersect(0, &cone_probe(pt(0.0, 0.0, 0.0), d, f64::MIN, f64::MAX));
    assert_eq!(xs.len(), 0);
}

#[test]
fn cone_coefficients_up_to_a_hundred_thousandth_count_as_zero() {
    let shape = Cone::new();
    let probe = |a: f64, b: f64| ConeProbe {
        direction_y: s_(1.0),
        low_cap: ConeCapProbe { t: s_(-9.0), radius: s_(0.0) },
        high_cap: ConeCapProbe { t: s_(9.0), radius: s_(0.0) },
        a: s_(a),
        b: s_(b),
        linear: RootProbe { t: s_(3.0), y: s_(1.0) },
        discriminant: s_(4.0),
        first: RootProbe { t: s_(7.0), y: s_(1.0) },
        second: RootProbe { t: s_(5.0), y: s_(1.0) },
    };
    for a in [0.0, -0.0, 0.00001, -0.00001, 1e-10, f64::EPSILON, 2.0 * f64::EPSILON] {
        assert_eq!(ts(&shape.intersect(0, &probe(a, 1.0))), vec![3.0]);
        assert_eq!(ts(&shape.intersect(0, &probe(a, -0.000011))), vec![3.0]);
        for b in [0.0, 0.00001, -0.00001, 1e-10] {
            assert_eq!(shape.intersect(0, &probe(a, b)).len(), 0);
        }
    }
    for a in [0.000011, -0.000011, 1.0, -1.0] {
        for b in [0.0, 1.0] {
            assert_eq!(ts(&shape.intersect(0, &probe(a, b))), vec![5.0, 7.0]);
        }
    }
}

#[test]
fn computing_normal_vector_on_a_cone() {
    let shape = Primitive::Cone(Cone::new());
    let n = local_normal(&shape, pt(0.0, 0.0, 0.0));
    assert_eq!(n, [0.0; 4]);

    let n = local_normal(&shape, pt(1.0, 1.0, 1.0));
    assert!(near(n, vc(1.0, -1.0 * f64::sqrt(2.0), 1.0)));

    let n = local_normal(&shape, pt(-1.0, -1.0, 0.0));
    assert!(near(n, vc(-1.0, 1.0, 0.0)));
}

#[test]
fn cone_has_no_normal_at_the_apex() {
    let shape = Cone::new();
    let probe = |y: f64| ConeNormalProbe {
        point: point(pt(0.0, y, 0.0)),
        radius: s_(0.0),
        upper: shape.cylinder_maximum,
        lower: shape.cylinder_minimum,
    };
    assert_eq!(shape.normal_at(&probe(0.0)), None);
    assert_eq!(shape.normal_at(&probe(f64::EPSILON)), None);
    assert_eq!(shape.normal_at(&probe(-f64::EPSILON)), None);
    assert!(shape.normal_at(&probe(2.0 * f64::EPSILON)).is_some());
}

#[test]
fn cap_tests_compare_with_the_radius() {
    assert!(check_cap(&s_(1.0)));
    assert!(check_cap(&s_(0.0)));
    assert!(!check_cap(&s_(1.0000001)));
    assert!(!check_cap(&s_(f64::NAN)));
    assert!(check_cap_cone(&s_(0.5), &s_(-0.5)));
    assert!(check_cap_cone(&s_(0.5), &s_(0.5)));
    assert!(!check_cap_cone(&s_(0.51), &s_(-0.5)));
}
