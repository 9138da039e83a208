//! The camera, and the loop that fills a canvas pixel by pixel.
use vstd::prelude::*;
use crate::canvas::{storable, Canvas, Rgba8};
use crate::scalar::Scalar;
use crate::transformation::{Step, Transform};

verus! {

/// The recursion budget with which `render` has every pixel traced.
pub const RENDER_DEPTH: i32 = 1;

/// A camera: the size of its picture in pixels, its field of view in
/// radians, and how the world is oriented relative to it.
#[derive(Debug, PartialEq, Eq)]
pub struct Camera {
    pub hsize: u32,
    pub vsize: u32,
    pub field_of_view: Scalar,
    pub transform: Transform,
}

impl Camera {
    /// A camera with the identity transform.
    pub fn new(hsize: u32, vsize: u32, fov: Scalar) -> (r: Camera)
        ensures
            r.hsize == hsize,
            r.vsize == vsize,
            r.field_of_view == fov,
            r.transform@ == Seq::<Step>::empty(),
    {
        Camera { hsize, vsize, field_of_view: fov, transform: Transform::new() }
    }

    pub fn set_transform(&mut self, transform: Transform)
        ensures
            final(self).transform == transform,
            final(self).hsize == old(self).hsize,
            final(self).vsize == old(self).vsize,
            final(self).field_of_view == old(self).field_of_view,
    {
        self.transform = transform;
    }

    /// Whether `render` colours the pixel `(x, y)`: every pixel but those
    /// of the last column and the last row.
    pub open spec fn renders(self, x: int, y: int) -> bool {
        0 <= x < self.hsize - 1 && 0 <= y < self.vsize - 1
    }
}

/// Renders the picture of a camera: a canvas of the camera's size in which
/// each pixel that the camera renders has the colour that `color_at` gives
/// for it, and every other pixel is transparent black.
pub fn render<F: Fn(u32, u32) -> Rgba8>(camera: &Camera, color_at: F) -> (image: Canvas)
    requires
        storable(camera.hsize, camera.vsize),
        forall|x: u32, y: u32|
            camera.renders(x as int, y as int) ==> #[trigger] color_at.requires((x, y)),
    ensures
        image.spec_width() == camera.hsize,
        image.spec_height() == camera.vsize,
        forall|x: u32, y: u32|
            camera.renders(x as int, y as int) ==> color_at.ensures(
                (x, y),
                #[trigger] image.pixel(x as int, y as int),
            ),
        forall|x: int, y: int|
            0 <= x < camera.hsize && 0 <= y < camera.vsize && !camera.renders(x, y)
                ==> #[trigger] image.pixel(x, y) == (Rgba8 { red: 0, green: 0, blue: 0, alpha: 0 }),
{
    let mut image = Canvas::new(camera.hsize, camera.vsize);
    if camera.hsize == 0 || camera.vsize == 0 {
        return image;
    }
    let columns: u32 = camera.hsize - 1;
    let rows: u32 = camera.vsize - 1;
    let mut y: u32 = 0;
    while y < rows
        invariant
            y <= rows,
            columns == camera.hsize - 1,
            rows == camera.vsize - 1,
            image.spec_width() == camera.hsize,
            image.spec_height() == camera.vsize,
            forall|x: u32, y: u32|
                camera.renders(x as int, y as int) ==> #[trigger] color_at.requires((x, y)),
            forall|i: u32, j: u32|
                0 <= i < columns && 0 <= j < y ==> color_at.ensures(
                    (i, j),
                    #[trigger] image.pixel(i as int, j as int),
                ),
            forall|i: int, j: int|
                0 <= i < camera.hsize && 0 <= j < camera.vsize && !(0 <= i < columns && 0 <= j < y)
                    ==> #[trigger] image.pixel(i, j) == (Rgba8 {
                    red: 0,
                    green: 0,
                    blue: 0,
                    alpha: 0,
                }),
        decreases rows - y,
    {
        let mut x: u32 = 0;
        while x < columns
            invariant
                x <= columns,
                y < rows,
                columns == camera.hsize - 1,
                rows == camera.vsize - 1,
                image.spec_width() == camera.hsize,
                image.spec_height() == camera.vsize,
                forall|x: u32, y: u32|
                    camera.renders(x as int, y as int) ==> #[trigger] color_at.requires((x, y)),
                forall|i: u32, j: u32|
                    (0 <= i < columns && 0 <= j < y) || (j == y && 0 <= i < x)
                        ==> color_at.ensures((i, j), #[trigger] image.pixel(i as int, j as int)),
                forall|i: int, j: int|
                    0 <= i < camera.hsize && 0 <= j < camera.vsize && !((0 <= i < columns && 0 <= j
                        < y) || (j == y && 0 <= i < x)) ==> #[trigger] image.pixel(i, j) == (Rgba8 {
                        red: 0,
                        green: 0,
                        blue: 0,
                        alpha: 0,
                    }),
            decreases columns - x,
        {
            let color = color_at(x, y);
            image.write_pixel(x, y, color);
            x = x + 1;
        }
        y = y + 1;
    }
    image
}

} // verus!
