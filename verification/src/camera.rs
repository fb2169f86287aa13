//! The output raster of the camera: quantized pixels, the image that owns
//! them, and the row-major order in which the render loop visits them.

use vstd::prelude::*;

verus! {

/// One quantized RGB sample of the output raster.
#[derive(Clone, Copy, Debug, PartialEq, Eq, Structural)]
pub struct Pixel {
    pub r: u32,
    pub g: u32,
    pub b: u32,
}

/// The condition reported when the pixel buffer is asked for before a render
/// has filled it.
#[derive(Clone, Copy, Debug, PartialEq, Eq, Structural)]
pub enum ImageError {
    NoImageData,
}

/// The output image: its dimensions, its color resolution, and — once a
/// render has run — its pixel buffer.
///
/// The buffer is absent until a render supplies it; when present it holds
/// exactly `width * height` pixels in row-major order, top row first.
pub struct Image {
    width: u32,
    height: u32,
    max_color_value: u32,
    data: Option<Vec<Pixel>>,
}

impl Image {
    pub closed spec fn spec_width(self) -> u32 {
        self.width
    }

    pub closed spec fn spec_height(self) -> u32 {
        self.height
    }

    pub closed spec fn spec_max_color_value(self) -> u32 {
        self.max_color_value
    }

    /// The pixel buffer, if a render has produced one.
    pub closed spec fn pixels(self) -> Option<Seq<Pixel>> {
        match self.data {
            Option::Some(d) => Option::Some(d@),
            Option::None => Option::None,
        }
    }

    pub open spec fn rendered(self) -> bool {
        self.pixels() is Some
    }

    /// A present buffer always holds one pixel per raster point.
    #[verifier::type_invariant]
    spec fn inv(self) -> bool {
        match self.data {
            Option::Some(d) => d@.len() == self.width * self.height,
            Option::None => true,
        }
    }

    /// A fresh image of the given dimensions, with no pixel data yet.
    pub fn from_width_height(width: u32, height: u32, max_color_value: u32) -> (r: Self)
        ensures
            r.spec_width() == width,
            r.spec_height() == height,
            r.spec_max_color_value() == max_color_value,
            !r.rendered(),
    {
        Self { width, height, max_color_value, data: Option::None }
    }

    pub fn width(&self) -> (r: u32)
        ensures
            r == self.spec_width(),
    {
        self.width
    }

    pub fn height(&self) -> (r: u32)
        ensures
            r == self.spec_height(),
    {
        self.height
    }

    pub fn max_color_value(&self) -> (r: u32)
        ensures
            r == self.spec_max_color_value(),
    {
        self.max_color_value
    }

    /// Whether a render has filled the pixel buffer.
    pub fn has_data(&self) -> (r: bool)
        ensures
            r == self.rendered(),
    {
        self.data.is_some()
    }

    /// Store a finished render: one pixel per raster point, row-major.
    pub fn set_data(&mut self, pixels: Vec<Pixel>)
        requires
            pixels@.len() == old(self).spec_width() * old(self).spec_height(),
        ensures
            final(self).spec_width() == old(self).spec_width(),
            final(self).spec_height() == old(self).spec_height(),
            final(self).spec_max_color_value() == old(self).spec_max_color_value(),
            final(self).pixels() == Option::Some(pixels@),
    {
        self.data = Option::Some(pixels);
    }

    /// The finished pixel buffer, or the no-image-data condition when no
    /// render has filled it yet.
    pub fn data(&self) -> (r: Result<&Vec<Pixel>, ImageError>)
        ensures
            r is Ok <==> self.rendered(),
            r matches Ok(d) ==> Option::Some(d@) == self.pixels(),
            r matches Err(e) ==> e == ImageError::NoImageData,
    {
        match &self.data {
            Option::Some(d) => Result::Ok(d),
            Option::None => Result::Err(ImageError::NoImageData),
        }
    }

    /// Whether every channel of every stored pixel lies within the color
    /// resolution, as the plain-text raster format requires of a finished
    /// buffer. An image with no data yet has nothing out of range.
    pub open spec fn channels_bounded(self) -> bool {
        match self.pixels() {
            Option::Some(ps) => forall|q: int|
                0 <= q < ps.len() ==> pixel_in_range(#[trigger] ps[q], self.spec_max_color_value()),
            Option::None => true,
        }
    }

    /// Scan the stored pixels for a channel above the color resolution.
    pub fn channels_in_range(&self) -> (r: bool)
        ensures
            r == self.channels_bounded(),
    {
        match &self.data {
            Option::None => true,
            Option::Some(d) => {
                let max: u32 = self.max_color_value;
                let mut q: usize = 0;
                while q < d.len()
                    invariant
                        q <= d@.len(),
                        Option::Some(d@) == self.pixels(),
                        max == self.spec_max_color_value(),
                        forall|m: int| 0 <= m < q ==> pixel_in_range(#[trigger] d@[m], max),
                    decreases d@.len() - q,
                {
                    let p = d[q];
                    if p.r > max || p.g > max || p.b > max {
                        proof {
                            assert(!self.channels_bounded()) by {
                                assert(self.pixels() matches Option::Some(ps)
                                    && !pixel_in_range(ps[q as int], self.spec_max_color_value()));
                            }
                        }
                        return false;
                    }
                    q = q + 1;
                }
                true
            }
        }
    }
}

/// Whether each channel of one pixel lies within the color resolution.
pub open spec fn pixel_in_range(p: Pixel, max_color_value: u32) -> bool {
    p.r <= max_color_value && p.g <= max_color_value && p.b <= max_color_value
}

/// The raster points `(x, y)` in the order the render loop visits them:
/// row-major, top row first, left to right within a row.
pub fn pixel_order(width: u32, height: u32) -> (r: Vec<(u32, u32)>)
    requires
        width * height <= usize::MAX,
    ensures
        r@.len() == width * height,
        forall|k: int|
            0 <= k < r@.len() ==> #[trigger] r@[k] == (((k % (width as int)) as u32), (
            (k / (width as int)) as u32)),
{
    let mut r: Vec<(u32, u32)> = Vec::new();
    let mut y: u32 = 0;
    while y < height
        invariant
            y <= height,
            width * height <= usize::MAX,
            r@.len() == width * y,
            forall|k: int|
                0 <= k < r@.len() ==> #[trigger] r@[k] == (((k % (width as int)) as u32), (
                (k / (width as int)) as u32)),
        decreases height - y,
    {
        let mut x: u32 = 0;
        while x < width
            invariant
                x <= width,
                y < height,
                width * height <= usize::MAX,
                r@.len() == width * y + x,
                forall|k: int|
                    0 <= k < r@.len() ==> #[trigger] r@[k] == (((k % (width as int)) as u32), (
                    (k / (width as int)) as u32)),
            decreases width - x,
        {
            proof {
                lemma_raster_step(width as int, height as int, x as int, y as int);
            }
            r.push((x, y));
            x = x + 1;
        }
        proof {
            assert(width as int * y as int + width as int == width as int * (y as int + 1))
                by (nonlinear_arith);
        }
        y = y + 1;
    }
    r
}

/// Pushing the point `(x, y)` at position `width * y + x` of the raster keeps
/// the row-major indexing law: that position divides and reduces modulo
/// `width` back into `(x, y)`, and the next position still fits the raster.
proof fn lemma_raster_step(width: int, height: int, x: int, y: int)
    requires
        0 <= x < width,
        0 <= y < height,
        width * height <= usize::MAX,
    ensures
        (width * y + x) % width == x,
        (width * y + x) / width == y,
        width * y + x < usize::MAX,
{
    assert((width * y + x) % width == x && (width * y + x) / width == y) by (nonlinear_arith)
        requires
            0 <= x < width,
            0 <= y,
    ;
    assert(width * y + x < width * height) by (nonlinear_arith)
        requires
            0 <= x < width,
            0 <= y < height,
    ;
}

} // verus!
