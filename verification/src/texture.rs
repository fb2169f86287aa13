//! The integer side of texture sampling: the checker pattern's parity rule
//! and the decoded bitmap a file-backed texture reads from.
//!
//! Scaling a world position into lattice cells, and turning byte channels
//! into color fractions, are floating-point steps that happen outside this
//! crate; what arrives here are the lattice cell coordinates and the decoded
//! byte grid.

use vstd::prelude::*;

verus! {

/// Which of the two sub-textures a checker pattern samples: the "even" one
/// exactly when the three lattice cell coordinates of the hit point sum to an
/// even number.
pub fn checker_is_even(x: i64, y: i64, z: i64) -> (r: bool)
    ensures
        r <==> (x + y + z) % 2 == 0,
{
    let sum: i128 = x as i128 + y as i128 + z as i128;
    let r: bool = (sum & 1) == 0;
    proof {
        assert((sum & 1) == 0 <==> sum as int % 2 == 0) by (bit_vector);
    }
    r
}

/// A bitmap already decoded by an outside codec: a row-major grid of RGB
/// byte triplets, top row first.
#[derive(Debug)]
pub struct TextureImage {
    width: u32,
    height: u32,
    data: Vec<u8>,
}

impl TextureImage {
    pub closed spec fn spec_width(self) -> u32 {
        self.width
    }

    pub closed spec fn spec_height(self) -> u32 {
        self.height
    }

    /// The decoded bytes: three per pixel, row-major.
    pub closed spec fn bytes(self) -> Seq<u8> {
        self.data@
    }

    #[verifier::type_invariant]
    spec fn inv(self) -> bool {
        self.data@.len() == 3 * (self.width * self.height)
    }

    /// Wrap a decoded pixel grid; refused unless it holds exactly three
    /// bytes per pixel.
    pub fn new(width: u32, height: u32, data: Vec<u8>) -> (r: Option<Self>)
        ensures
            r is Some <==> data@.len() == 3 * (width * height),
            r matches Some(t) ==> t.spec_width() == width && t.spec_height() == height
                && t.bytes() == data@,
    {
        proof {
            assert(3 * (width as int) * (height as int) == 3 * (width as int * height as int)
                && 3 * (width as int) * (height as int) < 0x1_0000_0000_0000_0000_0000_0000_0000_0000)
                by (nonlinear_arith)
                requires
                    width < 0x1_0000_0000,
                    height < 0x1_0000_0000,
            ;
        }
        let expected: u128 = 3u128 * (width as u128) * (height as u128);
        if data.len() as u128 == expected {
            Option::Some(Self { width, height, data })
        } else {
            Option::None
        }
    }

    pub fn width(&self) -> (r: u32)
        ensures
            r == self.spec_width(),
    {
        self.width
    }

    pub fn height(&self) -> (r: u32)
        ensures
            r == self.spec_height(),
    {
        self.height
    }

    /// The RGB bytes of the pixel in column `x` of row `y`, row 0 being the
    /// visual top of the bitmap.
    pub fn texel(&self, x: u32, y: u32) -> (rgb: (u8, u8, u8))
        requires
            x < self.spec_width(),
            y < self.spec_height(),
        ensures
            rgb.0 == self.bytes()[3 * (y * self.spec_width() + x)],
            rgb.1 == self.bytes()[3 * (y * self.spec_width() + x) + 1],
            rgb.2 == self.bytes()[3 * (y * self.spec_width() + x) + 2],
    {
        proof {
            use_type_invariant(&*self);
            assert(3 * ((y as int) * (self.width as int) + (x as int)) + 2 < 3 * (
            self.width as int * self.height as int)) by (nonlinear_arith)
                requires
                    x < self.width,
                    y < self.height,
            ;
        }
        // The byte count is a vector length, so the index below fits a usize.
        let _byte_count: usize = self.data.len();
        let base: usize = 3 * ((y as usize) * (self.width as usize) + (x as usize));
        (self.data[base], self.data[base + 1], self.data[base + 2])
    }
}

} // verus!
