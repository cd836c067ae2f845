//! The frame: which pixel is rendered when, where it lies on the image
//! plane, and the buffer that collects the colours.
//!
//! Pixels are emitted row by row from the top of the image to its bottom
//! and from left to right within a row. A row is numbered by its height
//! above the bottom edge, so the top row is row `H` and the last row is
//! row 1.

use vstd::prelude::*;
use crate::shade::Rgb;

verus! {

/// Width of the frame in pixels.
pub const W: usize = 1280;

/// Height of the frame in pixels.
pub const H: usize = 720;

/// Number of pixels in the frame.
pub const PIXELS: usize = 921_600;

/// A point of the image plane as two fractions over one denominator.
#[derive(Clone, Copy, Debug, PartialEq, Eq, Structural)]
pub struct PlanePoint {
    pub x_numerator: i64,
    pub y_numerator: i64,
    pub denominator: i64,
}

/// Column and row of the pixel that is emitted at place `index`.
pub open spec fn spec_pixel_at(index: int) -> (int, int) {
    (index % (W as int), H - index / (W as int))
}

/// The place at which the pixel in `column` and `row` is emitted.
pub open spec fn spec_index_of(column: int, row: int) -> int {
    (H - row) * W + column
}

/// The pixel lies in the frame.
pub open spec fn in_frame(column: int, row: int) -> bool {
    0 <= column < W && 1 <= row <= H
}

/// The point of the image plane that a pixel is seen through: twice the
/// pixel's column and row, less the frame's width and height, over the
/// frame's height.
pub open spec fn spec_plane_point(column: int, row: int) -> PlanePoint {
    PlanePoint {
        x_numerator: (2 * column - W) as i64,
        y_numerator: (2 * row - H) as i64,
        denominator: H as i64,
    }
}

/// Column and row of the pixel that is emitted at place `index`, for
/// every place in the frame and for no other.
pub fn pixel_at(index: usize) -> (r: Option<(u32, u32)>)
    ensures
        index < PIXELS ==> r == Some(
            (spec_pixel_at(index as int).0 as u32, spec_pixel_at(index as int).1 as u32),
        ),
        index < PIXELS ==> in_frame(spec_pixel_at(index as int).0, spec_pixel_at(index as int).1),
        index >= PIXELS ==> r.is_none(),
{
    if index < PIXELS {
        let column: usize = index % W;
        let line: usize = index / W;
        assert(line < H);
        let row: usize = H - line;
        Some((column as u32, row as u32))
    } else {
        None
    }
}

/// The point of the image plane that a pixel is seen through.
pub fn plane_point(column: u32, row: u32) -> (r: PlanePoint)
    ensures
        r == spec_plane_point(column as int, row as int),
        r.x_numerator == 2 * column - W,
        r.y_numerator == 2 * row - H,
        r.denominator == H,
{
    let c: i64 = column as i64;
    let r: i64 = row as i64;
    PlanePoint { x_numerator: 2 * c - 1280, y_numerator: 2 * r - 720, denominator: 720 }
}

/// The colours of a frame in the order of their emission, as far as they
/// have been rendered. A frame never holds more than `PIXELS` colours.
pub struct Frame {
    pixels: Vec<Rgb>,
}

impl View for Frame {
    type V = Seq<Rgb>;

    closed spec fn view(&self) -> Seq<Rgb> {
        self.pixels@
    }
}

impl Frame {
    #[verifier::type_invariant]
    closed spec fn bounded(&self) -> bool {
        self.pixels@.len() <= PIXELS
    }

    /// Every pixel has its colour.
    pub open spec fn complete(&self) -> bool {
        self@.len() == PIXELS
    }

    /// A frame without colours.
    pub fn new() -> (r: Frame)
        ensures
            r@.len() == 0,
    {
        Frame { pixels: Vec::new() }
    }

    /// The number of colours rendered so far.
    pub fn len(&self) -> (r: usize)
        ensures
            r == self@.len(),
            r <= PIXELS,
    {
        proof {
            use_type_invariant(self);
        }
        self.pixels.len()
    }

    /// The pixel to render next, or `None` once the frame is complete.
    pub fn next_pixel(&self) -> (r: Option<(u32, u32)>)
        ensures
            self@.len() <= PIXELS,
            !self.complete() ==> r == Some(
                (
                    spec_pixel_at(self@.len() as int).0 as u32,
                    spec_pixel_at(self@.len() as int).1 as u32,
                ),
            ),
            self.complete() ==> r.is_none(),
    {
        proof {
            use_type_invariant(self);
        }
        pixel_at(self.pixels.len())
    }

    /// The frame with the colour of the next pixel appended. A complete
    /// frame takes no more colours and is handed back as it is.
    pub fn put(self, color: Rgb) -> (r: Frame)
        ensures
            !self.complete() ==> r@ == self@.push(color),
            self.complete() ==> r@ == self@,
    {
        proof {
            use_type_invariant(&self);
        }
        let mut pixels = self.pixels;
        if pixels.len() < PIXELS {
            pixels.push(color);
        }
        Frame { pixels }
    }

    /// The colours of a complete frame, `W * H` of them in the order of
    /// their emission; `None` while pixels are missing.
    pub fn finish(self) -> (r: Option<Vec<Rgb>>)
        ensures
            self.complete() ==> r.is_some() && r.unwrap()@ == self@ && r.unwrap()@.len() == W * H,
            !self.complete() ==> r.is_none(),
    {
        proof {
            use_type_invariant(&self);
        }
        if self.pixels.len() == PIXELS {
            Some(self.pixels)
        } else {
            None
        }
    }
}

/// The frame holds `W * H` pixels.
pub proof fn lemma_pixel_count()
    ensures
        PIXELS == W * H,
{
}

/// Emission visits every pixel of the frame exactly once: each place
/// holds a pixel of the frame, and each pixel of the frame has one place.
pub proof fn lemma_scan_is_a_bijection(index: int, column: int, row: int)
    ensures
        0 <= index < PIXELS ==> in_frame(spec_pixel_at(index).0, spec_pixel_at(index).1)
            && spec_index_of(spec_pixel_at(index).0, spec_pixel_at(index).1) == index,
        in_frame(column, row) ==> 0 <= spec_index_of(column, row) < PIXELS && spec_pixel_at(
            spec_index_of(column, row),
        ) == (column, row),
{
    if in_frame(column, row) {
        let i = spec_index_of(column, row);
        let line = H - row;
        assert(0 <= line < H);
        assert(i == line * 1280 + column);
        assert(i / 1280 == line && i % 1280 == column) by (nonlinear_arith)
            requires
                i == line * 1280 + column,
                0 <= column < 1280,
        ;
    }
}

/// Emission runs from the top row down, and from left to right within a
/// row.
pub proof fn lemma_scan_order(earlier: int, later: int)
    requires
        0 <= earlier < later < PIXELS,
    ensures
        spec_pixel_at(earlier).1 > spec_pixel_at(later).1 || (spec_pixel_at(earlier).1
            == spec_pixel_at(later).1 && spec_pixel_at(earlier).0 < spec_pixel_at(later).0),
        spec_pixel_at(0) == (0int, H as int),
        spec_pixel_at(PIXELS - 1) == (W - 1, 1int),
{
}

/// The image plane is centred on the frame: the pixel in column 640 and
/// row 360 is seen through the origin, and the plane spans from `-W / H`
/// to below `W / H` across and from above `-1` to `1` upwards.
pub proof fn lemma_plane_extent(column: int, row: int)
    requires
        in_frame(column, row),
    ensures
        spec_plane_point(640, 360).x_numerator == 0,
        spec_plane_point(640, 360).y_numerator == 0,
        -(W as int) <= spec_plane_point(column, row).x_numerator < W,
        -(H as int) < spec_plane_point(column, row).y_numerator <= H,
{
}

} // verus!
