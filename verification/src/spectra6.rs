//! The six-color e-paper palette: color codes, two-pixels-per-byte frame
//! packing, and a checkerboard test pattern.

use vstd::prelude::*;

verus! {

/// One displayable color of the six-color panel, plus the panel's
/// "clean" code.
#[derive(Clone, Copy, PartialEq, Eq, Structural, Debug)]
pub enum Spectra6Color {
    Black,
    White,
    Yellow,
    Red,
    Blue,
    Green,
    Clean,
}

/// The 4-bit code the panel uses for each color.
pub open spec fn spec_nibble(c: Spectra6Color) -> u8 {
    match c {
        Spectra6Color::Black => 0,
        Spectra6Color::White => 1,
        Spectra6Color::Yellow => 2,
        Spectra6Color::Red => 3,
        Spectra6Color::Blue => 5,
        Spectra6Color::Green => 6,
        Spectra6Color::Clean => 7,
    }
}

/// Two pixels packed into one byte: the left pixel in the high nibble.
pub open spec fn spec_packed_byte(left: Spectra6Color, right: Spectra6Color) -> u8 {
    (16 * spec_nibble(left) + spec_nibble(right)) as u8
}

/// The byte at position `i` of a packed frame: pixels `2i` and `2i + 1`,
/// with a missing last pixel padded as white.
pub open spec fn spec_packed_frame(pixels: Seq<Spectra6Color>, i: int) -> u8 {
    let left = pixels[2 * i];
    let right = if 2 * i + 1 < pixels.len() {
        pixels[2 * i + 1]
    } else {
        Spectra6Color::White
    };
    spec_packed_byte(left, right)
}

impl Spectra6Color {
    /// The 4-bit code the panel uses for this color.
    pub fn nibble(self) -> (r: u8)
        ensures
            r == spec_nibble(self),
            r <= 7,
    {
        match self {
            Spectra6Color::Black => 0,
            Spectra6Color::White => 1,
            Spectra6Color::Yellow => 2,
            Spectra6Color::Red => 3,
            Spectra6Color::Blue => 5,
            Spectra6Color::Green => 6,
            Spectra6Color::Clean => 7,
        }
    }
}

/// Packs pixel sequences into the panel's two-pixels-per-byte wire
/// format.
pub struct SpectraPacker;

impl SpectraPacker {
    /// One packed byte: the left pixel's code in the high nibble, the
    /// right pixel's in the low nibble.
    pub fn pack_pair(left: Spectra6Color, right: Spectra6Color) -> (r: u8)
        ensures
            r == spec_packed_byte(left, right),
    {
        let l = left.nibble();
        let h = right.nibble();
        proof {
            assert((l << 4) | h == 16 * l + h) by (bit_vector)
                requires
                    l <= 7,
                    h <= 7,
            ;
        }
        (l << 4) | h
    }

    /// Packs a whole frame, two pixels per byte in order; a frame with an
    /// odd pixel count is padded with one white pixel.
    pub fn pack(pixels: &Vec<Spectra6Color>) -> (r: Vec<u8>)
        requires
            pixels@.len() < usize::MAX as int,
        ensures
            r@.len() == (pixels@.len() + 1) / 2,
            forall|i: int| 0 <= i < r@.len() ==> r@[i] == spec_packed_frame(pixels@, i),
    {
        let mut out: Vec<u8> = Vec::new();
        let mut k: usize = 0;
        while k < pixels.len()
            invariant
                pixels@.len() < usize::MAX as int,
                k % 2 == 0,
                k <= pixels@.len() + 1,
                out@.len() == k / 2,
                forall|i: int| 0 <= i < out@.len() ==> out@[i] == spec_packed_frame(pixels@, i),
            decreases pixels@.len() - k + 1,
        {
            let left = pixels[k];
            let right = if k + 1 < pixels.len() {
                pixels[k + 1]
            } else {
                Spectra6Color::White
            };
            out.push(SpectraPacker::pack_pair(left, right));
            k = k + 2;
        }
        out
    }
}

/// The color of the checkerboard test pattern at linear position `index`
/// of a frame `width` pixels wide: 32-pixel squares cycling through the
/// six colors along the diagonals.
pub open spec fn spec_test_screen_color(index: int, width: int) -> Spectra6Color
    recommends
        width > 0,
{
    let x = index % width;
    let y = index / width;
    let sel = (x / 32 + y / 32) % 6;
    if sel == 0 {
        Spectra6Color::White
    } else if sel == 1 {
        Spectra6Color::Black
    } else if sel == 2 {
        Spectra6Color::Red
    } else if sel == 3 {
        Spectra6Color::Green
    } else if sel == 4 {
        Spectra6Color::Blue
    } else {
        Spectra6Color::Yellow
    }
}

/// A checkerboard test pattern for the six-color panel: `width * height`
/// pixels in row-major order, in 32-pixel squares cycling through the six
/// colors.
pub fn test_screen(width: usize, height: usize) -> (r: Vec<Spectra6Color>)
    requires
        width * height <= usize::MAX as int,
    ensures
        r@.len() == width * height,
        forall|i: int| 0 <= i < r@.len() ==> r@[i] == spec_test_screen_color(i, width as int),
{
    let mut out: Vec<Spectra6Color> = Vec::new();
    if width == 0 {
        proof {
            assert(width * height == 0) by (nonlinear_arith)
                requires
                    width == 0,
            ;
        }
        return out;
    }
    let total = width * height;
    let mut index: usize = 0;
    while index < total
        invariant
            width > 0,
            total == width * height,
            index <= total,
            out@.len() == index,
            forall|i: int| 0 <= i < out@.len() ==> out@[i] == spec_test_screen_color(
                i, width as int),
        decreases total - index,
    {
        let x = index % width;
        let y = index / width;
        let sel = (x / 32 + y / 32) % 6;
        let c = if sel == 0 {
            Spectra6Color::White
        } else if sel == 1 {
            Spectra6Color::Black
        } else if sel == 2 {
            Spectra6Color::Red
        } else if sel == 3 {
            Spectra6Color::Green
        } else if sel == 4 {
            Spectra6Color::Blue
        } else {
            Spectra6Color::Yellow
        };
        out.push(c);
        index = index + 1;
    }
    out
}

} // verus!
