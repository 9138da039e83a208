//! The pixel grid that a rendering is written to.
use vstd::prelude::*;

verus! {

/// An RGBA image buffer of the `image` crate, `image::RgbaImage`.
#[verifier::external_body]
pub struct PixelStore {
    inner: image::RgbaImage,
}

/// The pixels of an image buffer: red, green, blue and alpha at each
/// coordinate `(x, y)` inside the image, and nothing outside.
pub uninterp spec fn image_pixels(img: PixelStore) -> Map<(int, int), (u8, u8, u8, u8)>;

/// A colour as it is stored: one byte per channel.
#[derive(Clone, Copy, Debug, PartialEq, Eq, Structural)]
pub struct Rgba8 {
    pub red: u8,
    pub green: u8,
    pub blue: u8,
    pub alpha: u8,
}

/// The coordinates of an image of the given size.
pub open spec fn grid(width: int, height: int) -> Set<(int, int)> {
    Set::new(|c: (int, int)| 0 <= c.0 < width && 0 <= c.1 < height)
}

/// Whether an image of the given size can be stored: the bytes of one row,
/// and then those of all rows, can be counted in a `usize`.
pub open spec fn storable(width: u32, height: u32) -> bool {
    4 * width <= usize::MAX && 4 * width * height <= usize::MAX
}

/// `ImageBuffer::new`: an image of the given size with every channel of
/// every pixel zero. It counts the bytes of a row and then of all rows, and
/// panics where either count overflows `usize`.
#[verifier::external_body]
fn image_new(width: u32, height: u32) -> (img: PixelStore)
    requires
        storable(width, height),
    ensures
        image_pixels(img) == Map::new(
            |c: (int, int)| grid(width as int, height as int).contains(c),
            |c: (int, int)| (0u8, 0u8, 0u8, 0u8),
        ),
{
    PixelStore { inner: image::RgbaImage::new(width, height) }
}

/// `ImageBuffer::put_pixel`: replaces the pixel at `(x, y)` and no other.
/// It panics outside the image.
#[verifier::external_body]
fn image_put(img: &mut PixelStore, x: u32, y: u32, p: Rgba8)
    requires
        image_pixels(*old(img)).dom().contains((x as int, y as int)),
    ensures
        image_pixels(*final(img)) == image_pixels(*old(img)).insert(
            (x as int, y as int),
            (p.red, p.green, p.blue, p.alpha),
        ),
    no_unwind
{
    img.inner.put_pixel(x, y, image::Rgba([p.red, p.green, p.blue, p.alpha]))
}

/// `ImageBuffer::get_pixel`: the pixel at `(x, y)`. It panics outside the
/// image.
#[verifier::external_body]
fn image_get(img: &PixelStore, x: u32, y: u32) -> (p: Rgba8)
    requires
        image_pixels(*img).dom().contains((x as int, y as int)),
    ensures
        (p.red, p.green, p.blue, p.alpha) == image_pixels(*img)[(x as int, y as int)],
{
    let q = img.inner.get_pixel(x, y);
    Rgba8 { red: q[0], green: q[1], blue: q[2], alpha: q[3] }
}

/// A grid of `width` by `height` pixels.
pub struct Canvas {
    width: u32,
    height: u32,
    pixels: PixelStore,
}

impl Canvas {
    #[verifier::type_invariant]
    spec fn well_formed(self) -> bool {
        &&& storable(self.width, self.height)
        &&& forall|c: (int, int)|
            image_pixels(self.pixels).dom().contains(c) <==> grid(
                self.width as int,
                self.height as int,
            ).contains(c)
    }

    pub closed spec fn spec_width(self) -> int {
        self.width as int
    }

    pub closed spec fn spec_height(self) -> int {
        self.height as int
    }

    /// The pixel at `(x, y)`, for coordinates inside the canvas.
    pub closed spec fn pixel(self, x: int, y: int) -> Rgba8 {
        let p = image_pixels(self.pixels)[(x, y)];
        Rgba8 { red: p.0, green: p.1, blue: p.2, alpha: p.3 }
    }

    /// A canvas of the given size, every pixel transparent black.
    pub fn new(width: u32, height: u32) -> (r: Canvas)
        requires
            storable(width, height),
        ensures
            r.spec_width() == width,
            r.spec_height() == height,
            forall|x: int, y: int|
                0 <= x < width && 0 <= y < height ==> #[trigger] r.pixel(x, y) == (Rgba8 {
                    red: 0,
                    green: 0,
                    blue: 0,
                    alpha: 0,
                }),
    {
        let pixels = image_new(width, height);
        Canvas { width, height, pixels }
    }

    pub fn width(&self) -> (r: u32)
        ensures
            r == self.spec_width(),
    {
        self.width
    }

    pub fn height(&self) -> (r: u32)
        ensures
            r == self.spec_height(),
    {
        self.height
    }

    /// Sets the pixel at `(x, y)`, inside the canvas, and no other.
    pub fn write_pixel(&mut self, x: u32, y: u32, color: Rgba8)
        requires
            x < old(self).spec_width(),
            y < old(self).spec_height(),
        ensures
            final(self).spec_width() == old(self).spec_width(),
            final(self).spec_height() == old(self).spec_height(),
            final(self).pixel(x as int, y as int) == color,
            forall|i: int, j: int|
                (i != x || j != y) ==> #[trigger] final(self).pixel(i, j) == old(self).pixel(i, j),
    {
        proof {
            use_type_invariant(&*self);
            assert(grid(self.width as int, self.height as int).contains((x as int, y as int)));
        }
        image_put(&mut self.pixels, x, y, color);
    }

    /// The pixel at `(x, y)`; outside the canvas, the pixel in the last
    /// column of the last row.
    pub fn pixel_at(&self, x: u32, y: u32) -> (r: Rgba8)
        requires
            self.spec_width() > 0,
            self.spec_height() > 0,
        ensures
            r == if x >= self.spec_width() || y >= self.spec_height() {
                self.pixel(self.spec_width() - 1, self.spec_height() - 1)
            } else {
                self.pixel(x as int, y as int)
            },
    {
        proof {
            use_type_invariant(self);
        }
        if x >= self.width || y >= self.height {
            assert(grid(self.width as int, self.height as int).contains(
                (self.width - 1, self.height - 1),
            ));
            return image_get(&self.pixels, self.width - 1, self.height - 1);
        }
        assert(grid(self.width as int, self.height as int).contains((x as int, y as int)));
        image_get(&self.pixels, x, y)
    }

    /// The byte at place `i` of the picture written row by row from the top,
    /// each pixel as red, green, blue, alpha.
    pub open spec fn byte(self, i: int) -> u8 {
        let p = self.pixel((i / 4) % self.spec_width(), (i / 4) / self.spec_width());
        if i % 4 == 0 {
            p.red
        } else if i % 4 == 1 {
            p.green
        } else if i % 4 == 2 {
            p.blue
        } else {
            p.alpha
        }
    }

    /// The picture as bytes: row by row from the top, four bytes a pixel,
    /// as an encoder of 8-bit RGBA takes it.
    pub fn to_bytes(&self) -> (bytes: Vec<u8>)
        ensures
            bytes@.len() == 4 * self.spec_width() * self.spec_height(),
            forall|i: int| 0 <= i < bytes@.len() ==> bytes@[i] == self.byte(i),
    {
        proof {
            use_type_invariant(self);
        }
        let mut bytes: Vec<u8> = Vec::new();
        let mut y: u32 = 0;
        while y < self.height
            invariant
                y <= self.height,
                self.width == self.spec_width(),
                4 * self.width * self.height <= usize::MAX,
                bytes@.len() == 4 * self.width * y,
                forall|i: int| 0 <= i < bytes@.len() ==> bytes@[i] == self.byte(i),
            decreases self.height - y,
        {
            let mut x: u32 = 0;
            proof {
                assert(4 * (self.width * y + 0) == 4 * self.width * y) by (nonlinear_arith);
            }
            while x < self.width
                invariant
                    x <= self.width,
                    y < self.height,
                    self.width == self.spec_width(),
                    self.height == self.spec_height(),
                    4 * self.width * self.height <= usize::MAX,
                    bytes@.len() == 4 * (self.width * y + x),
                    forall|i: int| 0 <= i < bytes@.len() ==> bytes@[i] == self.byte(i),
                decreases self.width - x,
            {
                let p = self.pixel_at(x, y);
                proof {
                    let w = self.width as int;
                    let k = w * y + x;
                    assert(k / w == y && k % w == x) by (nonlinear_arith)
                        requires
                            k == w * y + x,
                            0 <= x < w,
                            0 <= y,
                    ;
                    assert(4 * (w * y + x) + 4 <= 4 * w * self.height) by (nonlinear_arith)
                        requires
                            0 <= x < w,
                            0 <= y < self.height,
                    ;
                    assert((4 * k) / 4 == k && (4 * k + 1) / 4 == k && (4 * k + 2) / 4 == k && (4
                        * k + 3) / 4 == k);
                    assert((4 * k) % 4 == 0 && (4 * k + 1) % 4 == 1 && (4 * k + 2) % 4 == 2 && (4
                        * k + 3) % 4 == 3);
                }
                bytes.push(p.red);
                bytes.push(p.green);
                bytes.push(p.blue);
                bytes.push(p.alpha);
                x = x + 1;
                proof {
                    assert(4 * (self.width * y + (x - 1)) + 4 == 4 * (self.width * y + x))
                        by (nonlinear_arith);
                }
            }
            proof {
                assert(4 * (self.width * y + self.width) == 4 * self.width * (y + 1))
                    by (nonlinear_arith);
            }
            y = y + 1;
        }
        bytes
    }
}

} // verus!
