//! Three demonstration scenes: a room of flattened spheres with two balls in
//! it, the same room on a shifted floor, and a room of mirrors and glass.
//!
//! A scene function describes what is to be rendered and where the picture
//! goes; it renders nothing itself.
use vstd::prelude::*;
use crate::camera::Camera;
use crate::light::PointLight;
use crate::material::Material;
use crate::pattern::{gradient_pattern, Kind};
use crate::plane::Plane;
use crate::scalar::{Scalar, ONE_BITS};
use crate::shape::Primitive;
use crate::sphere::Sphere;
use crate::transformation::{Step, Transform, ViewTransform};
use crate::tuple::{Point, Tuple, Vector};
use crate::world::World;

verus! {

/// 0.01
pub const HUNDREDTH: u64 = 0x3F84_7AE1_47AE_147B;

/// 0.1
pub const TENTH: u64 = 0x3FB9_9999_9999_999A;

/// 0.3
pub const THREE_TENTHS: u64 = 0x3FD3_3333_3333_3333;

/// 0.4
pub const FOUR_TENTHS: u64 = 0x3FD9_9999_9999_999A;

/// 0.5
pub const HALF: u64 = 0x3FE0_0000_0000_0000;

/// 0.7
pub const SEVEN_TENTHS: u64 = 0x3FE6_6666_6666_6666;

/// 1.5
pub const ONE_AND_HALF: u64 = 0x3FF8_0000_0000_0000;

/// 5.0
pub const FIVE: u64 = 0x4014_0000_0000_0000;

/// 10.0
pub const TEN: u64 = 0x4024_0000_0000_0000;

/// 25.0
pub const C25: u64 = 0x4039_0000_0000_0000;

/// 50.0
pub const C50: u64 = 0x4049_0000_0000_0000;

/// 75.0
pub const C75: u64 = 0x4052_C000_0000_0000;

/// 125.0
pub const C125: u64 = 0x405F_4000_0000_0000;

/// 175.0
pub const C175: u64 = 0x4065_E000_0000_0000;

/// 200.0
pub const C200: u64 = 0x4069_0000_0000_0000;

/// 225.0
pub const C225: u64 = 0x406C_2000_0000_0000;

/// 250.0
pub const C250: u64 = 0x406F_4000_0000_0000;

/// 255.0
pub const C255: u64 = 0x406F_E000_0000_0000;

/// -0.5
pub const MINUS_HALF: u64 = 0xBFE0_0000_0000_0000;

/// -5.0
pub const MINUS_FIVE: u64 = 0xC014_0000_0000_0000;

/// -10.0
pub const MINUS_TEN: u64 = 0xC024_0000_0000_0000;

/// π/2, a quarter turn
pub const QUARTER_TURN: u64 = 0x3FF9_21FB_5444_2D18;

/// π/4, an eighth of a turn
pub const EIGHTH_TURN: u64 = 0x3FE9_21FB_5444_2D18;

/// −π/4, an eighth of a turn the other way
pub const EIGHTH_TURN_BACK: u64 = 0xBFE9_21FB_5444_2D18;

/// What is to be rendered, and the file that the picture is written to.
#[derive(Debug, PartialEq, Eq)]
pub struct RenderJob {
    pub world: World,
    pub camera: Camera,
    pub file: &'static str,
}

/// An opaque colour with the given channels out of 255.
pub open spec fn paint(red: u64, green: u64, blue: u64) -> Tuple {
    Tuple {
        x: Scalar { bits: red },
        y: Scalar { bits: green },
        z: Scalar { bits: blue },
        w: Scalar { bits: C255 },
    }
}

fn mix(red: u64, green: u64, blue: u64) -> (r: Tuple)
    ensures
        r == paint(red, green, blue),
{
    Tuple::new(
        Scalar::from_bits(red),
        Scalar::from_bits(green),
        Scalar::from_bits(blue),
        Scalar::from_bits(C255),
    )
}

/// The surface that all three scenes use: the given colour, ambient 0.1,
/// diffuse 0.7, the given specular coefficient, shininess 200.
pub open spec fn coated(m: Material, color: Tuple, specular: u64) -> bool {
    &&& m.color == color
    &&& m.ambient.bits == TENTH
    &&& m.diffuse.bits == SEVEN_TENTHS
    &&& m.specular.bits == specular
    &&& m.shininess.bits == C200
}

/// A coated surface that neither reflects nor lets light through.
pub open spec fn matt(m: Material, color: Tuple, specular: u64) -> bool {
    coated(m, color, specular) && m.plain()
}

/// A coated, unpatterned surface with the given reflective factor and
/// transparency, and the refractive index of the vacuum.
pub open spec fn glossy(
    m: Material,
    color: Tuple,
    specular: u64,
    reflective: u64,
    transparency: u64,
) -> bool {
    &&& coated(m, color, specular)
    &&& m.reflective.bits == reflective
    &&& m.transparency.bits == transparency
    &&& m.refractive_index.bits == ONE_BITS
    &&& !m.has_pattern
}

/// The wall surface of the room of mirrors: pale red fading to dark along
/// `x`, with the given reflective factor and transparency.
pub open spec fn faded(m: Material, reflective: u64, transparency: u64) -> bool {
    &&& coated(m, paint(C200, C175, C175), 0)
    &&& m.reflective.bits == reflective
    &&& m.transparency.bits == transparency
    &&& m.refractive_index.bits == ONE_BITS
    &&& m.has_pattern
    &&& m.pattern.kind == Kind::Gradient(paint(C200, C175, C175), paint(C50, C75, C75))
    &&& m.pattern.transform@ == Seq::<Step>::empty()
}

fn coat(color: Tuple, specular: u64) -> (m: Material)
    ensures
        matt(m, color, specular),
{
    Material::new(
        color,
        Scalar::from_bits(TENTH),
        Scalar::from_bits(SEVEN_TENTHS),
        Scalar::from_bits(specular),
        Scalar::from_bits(C200),
    )
}

fn gloss(color: Tuple, specular: u64, reflective: u64, transparency: u64) -> (m: Material)
    ensures
        glossy(m, color, specular, reflective, transparency),
{
    let mut m = coat(color, specular);
    m.reflective = Scalar::from_bits(reflective);
    m.transparency = Scalar::from_bits(transparency);
    m
}

fn fade(reflective: u64, transparency: u64) -> (m: Material)
    ensures
        faded(m, reflective, transparency),
{
    let mut m = coat(mix(C200, C175, C175), 0);
    m.reflective = Scalar::from_bits(reflective);
    m.transparency = Scalar::from_bits(transparency);
    let pattern = gradient_pattern(mix(C200, C175, C175), mix(C50, C75, C75));
    m.set_pattern(&pattern);
    m
}

/// Flattened to a slab of 10 by 0.01 by 10.
pub open spec fn slab() -> Step {
    Step::Scaling {
        x: Scalar { bits: TEN },
        y: Scalar { bits: HUNDREDTH },
        z: Scalar { bits: TEN },
    }
}

/// Stood upright, turned by `turn` about the vertical, and moved 5 back.
pub open spec fn stood(turn: u64) -> Seq<Step> {
    seq![
        Step::RotateX { radian: Scalar { bits: QUARTER_TURN } },
        Step::RotateY { radian: Scalar { bits: turn } },
        Step::Translate { x: Scalar { bits: 0 }, y: Scalar { bits: 0 }, z: Scalar { bits: FIVE } },
    ]
}

/// A slab stood up as a wall.
pub open spec fn wall(turn: u64) -> Seq<Step> {
    seq![slab()] + stood(turn)
}

/// Moved by the given amounts.
pub open spec fn moved(x: u64, y: u64, z: u64) -> Step {
    Step::Translate { x: Scalar { bits: x }, y: Scalar { bits: y }, z: Scalar { bits: z } }
}

/// Halved in size and put to the right, in front.
pub open spec fn small_right() -> Seq<Step> {
    seq![
        Step::Scaling {
            x: Scalar { bits: HALF },
            y: Scalar { bits: HALF },
            z: Scalar { bits: HALF },
        },
        moved(ONE_AND_HALF, HALF, MINUS_HALF),
    ]
}

fn stand(start: Transform, turn: u64) -> (t: Transform)
    ensures
        t@ == start@ + stood(turn),
{
    let t = start.rotate_x(Scalar::from_bits(QUARTER_TURN)).rotate_y(
        Scalar::from_bits(turn),
    ).translate(Scalar::zero(), Scalar::zero(), Scalar::from_bits(FIVE));
    proof {
        assert(t@ =~= start@ + stood(turn));
    }
    t
}

fn wall_transform(turn: u64) -> (t: Transform)
    ensures
        t@ == wall(turn),
{
    let flat = Transform::new().scaling(
        Scalar::from_bits(TEN),
        Scalar::from_bits(HUNDREDTH),
        Scalar::from_bits(TEN),
    );
    proof {
        assert(flat@ =~= seq![slab()]);
    }
    stand(flat, turn)
}

fn shift(x: u64, y: u64, z: u64) -> (t: Transform)
    ensures
        t@ == seq![moved(x, y, z)],
{
    let t = Transform::new().translate(
        Scalar::from_bits(x),
        Scalar::from_bits(y),
        Scalar::from_bits(z),
    );
    proof {
        assert(t@ =~= seq![moved(x, y, z)]);
    }
    t
}

fn small_right_transform() -> (t: Transform)
    ensures
        t@ == small_right(),
{
    let t = Transform::new().scaling(
        Scalar::from_bits(HALF),
        Scalar::from_bits(HALF),
        Scalar::from_bits(HALF),
    ).translate(
        Scalar::from_bits(ONE_AND_HALF),
        Scalar::from_bits(HALF),
        Scalar::from_bits(MINUS_HALF),
    );
    proof {
        assert(t@ =~= small_right());
    }
    t
}

/// White light from the upper left, behind the camera.
pub open spec fn lamp() -> PointLight {
    PointLight {
        position: Point {
            data: Tuple {
                x: Scalar { bits: MINUS_TEN },
                y: Scalar { bits: TEN },
                z: Scalar { bits: MINUS_TEN },
                w: Scalar { bits: ONE_BITS },
            },
        },
        intensity: Tuple {
            x: Scalar { bits: ONE_BITS },
            y: Scalar { bits: ONE_BITS },
            z: Scalar { bits: ONE_BITS },
            w: Scalar { bits: ONE_BITS },
        },
    }
}

/// The view of all three scenes: from `(0, 1.5, -5)` towards `(0, 1, 0)`,
/// `y` upwards.
pub open spec fn outlook() -> Step {
    Step::View {
        from: Point {
            data: Tuple {
                x: Scalar { bits: 0 },
                y: Scalar { bits: ONE_AND_HALF },
                z: Scalar { bits: MINUS_FIVE },
                w: Scalar { bits: ONE_BITS },
            },
        },
        to: Point {
            data: Tuple {
                x: Scalar { bits: 0 },
                y: Scalar { bits: ONE_BITS },
                z: Scalar { bits: 0 },
                w: Scalar { bits: ONE_BITS },
            },
        },
        up: Vector {
            data: Tuple {
                x: Scalar { bits: 0 },
                y: Scalar { bits: ONE_BITS },
                z: Scalar { bits: 0 },
                w: Scalar { bits: 0 },
            },
        },
    }
}

/// A job with the lamp, the outlook, a quarter turn of view, a picture of
/// the given size, and `output.png` as its file.
pub open spec fn staged(job: RenderJob, hsize: u32, vsize: u32) -> bool {
    &&& job.world.light == lamp()
    &&& job.camera.hsize == hsize
    &&& job.camera.vsize == vsize
    &&& job.camera.field_of_view.bits == QUARTER_TURN
    &&& job.camera.transform@ == seq![outlook()]
    &&& job.file@ == "output.png"@
}

fn stage(objects: Vec<Primitive>, hsize: u32, vsize: u32) -> (job: RenderJob)
    ensures
        staged(job, hsize, vsize),
        job.world.objects == objects,
{
    let light = PointLight::new(
        Point::new(
            Scalar::from_bits(MINUS_TEN),
            Scalar::from_bits(TEN),
            Scalar::from_bits(MINUS_TEN),
        ),
        Tuple::new(Scalar::one(), Scalar::one(), Scalar::one(), Scalar::one()),
    );
    let mut camera = Camera::new(hsize, vsize, Scalar::from_bits(QUARTER_TURN));
    camera.set_transform(
        ViewTransform(
            Point::new(
                Scalar::zero(),
                Scalar::from_bits(ONE_AND_HALF),
                Scalar::from_bits(MINUS_FIVE),
            ),
            Point::new(Scalar::zero(), Scalar::one(), Scalar::zero()),
            Vector::new(Scalar::zero(), Scalar::one(), Scalar::zero()),
        ),
    );
    RenderJob { world: World { objects, light }, camera, file: "output.png" }
}

/// A sphere with the given steps.
pub open spec fn is_sphere(p: Primitive, steps: Seq<Step>) -> bool {
    p is Sphere && p.transform_of()@ == steps
}

/// A plane with the given steps.
pub open spec fn is_plane(p: Primitive, steps: Seq<Step>) -> bool {
    p is Plane && p.transform_of()@ == steps
}

/// The room of the first two scenes: two flattened spheres as walls, a ball
/// in the middle with the given specular coefficient, and a small ball to
/// the right; the floor is left to the scene.
pub open spec fn furnished(objects: Seq<Primitive>, walls: Tuple, middle_specular: u64) -> bool {
    &&& objects.len() == 5
    &&& is_sphere(objects[1], wall(EIGHTH_TURN_BACK))
    &&& matt(objects[1].material_of(), walls, 0)
    &&& is_sphere(objects[2], wall(EIGHTH_TURN))
    &&& matt(objects[2].material_of(), walls, 0)
    &&& is_sphere(objects[3], seq![moved(MINUS_HALF, ONE_BITS, HALF)])
    &&& matt(objects[3].material_of(), paint(C25, C250, C125), middle_specular)
    &&& is_sphere(objects[4], small_right())
    &&& matt(objects[4].material_of(), paint(C125, C250, C50), THREE_TENTHS)
}

fn furnish(floor: Plane, walls: Tuple, middle_specular: u64) -> (objects: Vec<Primitive>)
    ensures
        objects@[0] == Primitive::Plane(floor),
        furnished(objects@, walls, middle_specular),
{
    let left_wall = Sphere {
        transform: wall_transform(EIGHTH_TURN_BACK),
        material: coat(walls, 0),
    };
    let right_wall = Sphere {
        transform: wall_transform(EIGHTH_TURN),
        material: coat(walls, 0),
    };
    let middle = Sphere {
        transform: shift(MINUS_HALF, ONE_BITS, HALF),
        material: coat(mix(C25, C250, C125), middle_specular),
    };
    let right = Sphere {
        transform: small_right_transform(),
        material: coat(mix(C125, C250, C50), THREE_TENTHS),
    };
    let mut objects: Vec<Primitive> = Vec::new();
    objects.push(Primitive::Plane(floor));
    objects.push(Primitive::Sphere(left_wall));
    objects.push(Primitive::Sphere(right_wall));
    objects.push(Primitive::Sphere(middle));
    objects.push(Primitive::Sphere(right));
    objects
}

/// The first scene: a flattened floor plane in cream, two flattened spheres
/// as walls, a green ball in the middle and a small one to the right, seen
/// 200 by 100.
pub fn run_chapter_7() -> (job: RenderJob)
    ensures
        staged(job, 200, 100),
        furnished(job.world.objects@, paint(C250, C225, C225), THREE_TENTHS),
        is_plane(job.world.objects@[0], seq![slab()]),
        matt(job.world.objects@[0].material_of(), paint(C250, C225, C225), 0),
{
    let flat = Transform::new().scaling(
        Scalar::from_bits(TEN),
        Scalar::from_bits(HUNDREDTH),
        Scalar::from_bits(TEN),
    );
    proof {
        assert(flat@ =~= seq![slab()]);
    }
    let floor = Plane { transform: flat, material: coat(mix(C250, C225, C225), 0) };
    stage(furnish(floor, mix(C250, C225, C225), THREE_TENTHS), 200, 100)
}

/// The second scene: the room of the first in a darker tone, on a floor
/// plane that is moved instead of flattened, with a shinier ball in the
/// middle.
pub fn run_chapter_8() -> (job: RenderJob)
    ensures
        staged(job, 200, 100),
        furnished(job.world.objects@, paint(C200, C175, C175), FOUR_TENTHS),
        is_plane(job.world.objects@[0], seq![moved(MINUS_HALF, HALF, ONE_BITS)]),
        matt(job.world.objects@[0].material_of(), paint(C200, C175, C175), 0),
{
    let floor = Plane {
        transform: shift(MINUS_HALF, HALF, ONE_BITS),
        material: coat(mix(C200, C175, C175), 0),
    };
    stage(furnish(floor, mix(C200, C175, C175), FOUR_TENTHS), 200, 100)
}

/// The third scene: a floor and two walls, all planes with a fading colour;
/// the floor mirrors and lets light through, the walls mirror faintly; a
/// half-transparent ball in the middle and a small ball of pure mirror
/// glass to the right; seen 400 by 200.
pub fn run_chapter_9() -> (job: RenderJob)
    ensures
        staged(job, 400, 200),
        job.world.objects@.len() == 5,
        is_plane(job.world.objects@[0], seq![moved(0, 0, ONE_BITS)]),
        faded(job.world.objects@[0].material_of(), SEVEN_TENTHS, HALF),
        is_plane(job.world.objects@[1], stood(EIGHTH_TURN_BACK)),
        faded(job.world.objects@[1].material_of(), TENTH, 0),
        is_plane(job.world.objects@[2], wall(EIGHTH_TURN)),
        faded(job.world.objects@[2].material_of(), TENTH, 0),
        is_sphere(job.world.objects@[3], seq![moved(MINUS_HALF, ONE_BITS, HALF)]),
        glossy(
            job.world.objects@[3].material_of(),
            paint(C25, C250, C125),
            FOUR_TENTHS,
            SEVEN_TENTHS,
            HALF,
        ),
        is_sphere(job.world.objects@[4], small_right()),
        glossy(
            job.world.objects@[4].material_of(),
            paint(C175, C175, C50),
            THREE_TENTHS,
            ONE_BITS,
            ONE_BITS,
        ),
{
    let floor = Plane { transform: shift(0, 0, ONE_BITS), material: fade(SEVEN_TENTHS, HALF) };
    let upright = stand(Transform::new(), EIGHTH_TURN_BACK);
    proof {
        assert(upright@ =~= stood(EIGHTH_TURN_BACK));
    }
    let left_wall = Plane { transform: upright, material: fade(TENTH, 0) };
    let right_wall = Plane { transform: wall_transform(EIGHTH_TURN), material: fade(TENTH, 0) };
    let middle = Sphere {
        transform: shift(MINUS_HALF, ONE_BITS, HALF),
        material: gloss(mix(C25, C250, C125), FOUR_TENTHS, SEVEN_TENTHS, HALF),
    };
    let right = Sphere {
        transform: small_right_transform(),
        material: gloss(mix(C175, C175, C50), THREE_TENTHS, ONE_BITS, ONE_BITS),
    };
    let mut objects: Vec<Primitive> = Vec::new();
    objects.push(Primitive::Plane(floor));
    objects.push(Primitive::Plane(left_wall));
    objects.push(Primitive::Plane(right_wall));
    objects.push(Primitive::Sphere(middle));
    objects.push(Primitive::Sphere(right));
    stage(objects, 400, 200)
}

} // verus!
