use vstd::prelude::*;

use crate::error::HarnessError;
use crate::geometry::{rect, Cell, ScreenRect};

verus! {

/// Side length, in screen pixels, of one rendered dot of the dot-matrix display.
pub const PIXEL_SIZE: u32 = 3;

/// Describes one output display as announced by the engine.
#[derive(Clone, Copy, Debug, PartialEq, Eq, Structural)]
pub struct DisplayLayout {
    /// Display type code as the engine reports it (bit flags and a segment kind).
    pub display_type: u32,
    pub top: i32,
    pub left: i32,
    pub width: u32,
    pub height: u32,
    /// Bits per pixel, 2 or 4 for a dot-matrix display.
    pub depth: u32,
    /// Number of character cells of a segment display.
    pub length: u32,
}

/// Width in screen pixels of the rendered dot-matrix display.
pub fn dmd_width(display_layout: &DisplayLayout) -> (r: u32)
    requires
        display_layout.width * (PIXEL_SIZE + 1) <= u32::MAX,
    ensures
        r == display_layout.width * (PIXEL_SIZE + 1),
{
    display_layout.width * (PIXEL_SIZE + 1)
}

/// Height in screen pixels of the rendered dot-matrix display.
pub fn dmd_height(display_layout: &DisplayLayout) -> (r: u32)
    requires
        display_layout.height * (PIXEL_SIZE + 1) <= u32::MAX,
    ensures
        r == display_layout.height * (PIXEL_SIZE + 1),
{
    display_layout.height * (PIXEL_SIZE + 1)
}


/// A colour as red, green and blue components.
#[derive(Clone, Copy, Debug, PartialEq, Eq, Structural)]
pub struct Rgb {
    pub r: u8,
    pub g: u8,
    pub b: u8,
}

pub open spec fn rgb(r: u8, g: u8, b: u8) -> Rgb {
    Rgb { r, g, b }
}

/// The four intensity colours of a depth-2 display, darkest first.
pub open spec fn depth2_color(value: int) -> Rgb {
    if value == 0 {
        rgb(40, 20, 0)
    } else if value == 1 {
        rgb(120, 80, 0)
    } else if value == 2 {
        rgb(215, 130, 0)
    } else {
        rgb(250, 160, 0)
    }
}

/// The colour of one of the four bands of a depth-4 display.
pub open spec fn band_color(band: int) -> Rgb {
    if band == 0 {
        rgb(40, 20, 0)
    } else if band == 1 {
        rgb(255, 140, 0)
    } else if band == 2 {
        rgb(255, 152, 0)
    } else {
        rgb(255, 165, 0)
    }
}

/// A pixel value is valid at a depth when the depth is 2 or 4 and the value is below 2^depth.
pub open spec fn pixel_valid(depth: u32, value: u8) -> bool {
    (depth == 2 && value < 4) || (depth == 4 && value < 16)
}

/// The colour a valid pixel value decodes to.
pub open spec fn pixel_color(depth: u32, value: u8) -> Rgb {
    if depth == 2 {
        depth2_color(value as int)
    } else {
        band_color(value as int / 4)
    }
}

/// What decoding one pixel yields: its colour, or a protocol violation.
pub open spec fn decoded_pixel(depth: u32, value: u8) -> Result<Rgb, HarnessError> {
    if pixel_valid(depth, value) {
        Ok(pixel_color(depth, value))
    } else {
        Err(HarnessError::ProtocolViolation)
    }
}

/// Decodes one raw pixel intensity code of a display with the given colour depth.
pub fn decode_pixel(depth: u32, value: u8) -> (r: Result<Rgb, HarnessError>)
    ensures
        r == decoded_pixel(depth, value),
{
    if depth == 2 {
        match value {
            0 => Ok(Rgb { r: 40, g: 20, b: 0 }),
            1 => Ok(Rgb { r: 120, g: 80, b: 0 }),
            2 => Ok(Rgb { r: 215, g: 130, b: 0 }),
            3 => Ok(Rgb { r: 250, g: 160, b: 0 }),
            _ => Err(HarnessError::ProtocolViolation),
        }
    } else if depth == 4 {
        if value < 4 {
            Ok(Rgb { r: 40, g: 20, b: 0 })
        } else if value < 8 {
            Ok(Rgb { r: 255, g: 140, b: 0 })
        } else if value < 12 {
            Ok(Rgb { r: 255, g: 152, b: 0 })
        } else if value < 16 {
            Ok(Rgb { r: 255, g: 165, b: 0 })
        } else {
            Err(HarnessError::ProtocolViolation)
        }
    } else {
        Err(HarnessError::ProtocolViolation)
    }
}

/// A frame is decodable when it holds at least one code per pixel of the layout
/// and the first `width * height` codes, the pixels row by row, are valid.
pub open spec fn frame_valid(layout: DisplayLayout, data: Seq<u8>) -> bool {
    &&& data.len() >= layout.width * layout.height
    &&& forall|i: int|
        0 <= i < layout.width * layout.height ==> pixel_valid(layout.depth, #[trigger] data[i])
}

/// Decodes a raw dot-matrix frame into one colour per pixel, row by row, from its
/// first `width * height` codes.
pub fn decode_frame(layout: &DisplayLayout, data: &[u8]) -> (r: Result<Vec<Rgb>, HarnessError>)
    ensures
        r.is_ok() <==> frame_valid(*layout, data@),
        r is Err ==> r == Err::<Vec<Rgb>, HarnessError>(HarnessError::ProtocolViolation),
        r matches Ok(v) ==> v@.len() == layout.width * layout.height && forall|i: int|
            0 <= i < v@.len() ==> #[trigger] v@[i] == pixel_color(layout.depth, data@[i]),
{
    proof {
        lemma_u32_product(layout.width, layout.height);
    }
    let n: u64 = layout.width as u64 * layout.height as u64;
    if (data.len() as u64) < n {
        return Err(HarnessError::ProtocolViolation);
    }
    let n = n as usize;
    let mut out: Vec<Rgb> = Vec::new();
    let mut i: usize = 0;
    while i < n
        invariant
            i <= n,
            n == layout.width * layout.height,
            n <= data@.len(),
            out@.len() == i,
            forall|j: int| 0 <= j < i ==> pixel_valid(layout.depth, #[trigger] data@[j]),
            forall|j: int| 0 <= j < i ==> #[trigger] out@[j] == pixel_color(layout.depth, data@[j]),
        decreases n - i,
    {
        match decode_pixel(layout.depth, data[i]) {
            Ok(c) => out.push(c),
            Err(e) => {
                return Err(e);
            },
        }
        i = i + 1;
    }
    Ok(out)
}

/// Screen rectangle of the dot at column `x`, row `y` of a display drawn at (`at_x`, `at_y`).
pub open spec fn dot_rect(at_x: int, at_y: int, x: int, y: int) -> ScreenRect {
    rect(at_x + x * (PIXEL_SIZE + 1), at_y + y * (PIXEL_SIZE + 1), PIXEL_SIZE as int, PIXEL_SIZE as int)
}

/// Lays a raw dot-matrix frame out as coloured squares, row by row, with the display's
/// top-left corner at (`at_x`, `at_y`).
pub fn dmd_cells(at_x: u32, at_y: u32, data: &[u8], layout: &DisplayLayout) -> (r: Result<
    Vec<Cell>,
    HarnessError,
>)
    requires
        at_x + layout.width * (PIXEL_SIZE + 1) <= u32::MAX,
        at_y + layout.height * (PIXEL_SIZE + 1) <= u32::MAX,
    ensures
        r.is_ok() <==> frame_valid(*layout, data@),
        r is Err ==> r == Err::<Vec<Cell>, HarnessError>(HarnessError::ProtocolViolation),
        r matches Ok(v) ==> {
            &&& v@.len() == layout.width * layout.height
            &&& forall|y: int, x: int|
                0 <= y < layout.height && 0 <= x < layout.width ==> #[trigger] v@[y * layout.width + x]
                    == (Cell {
                    rect: dot_rect(at_x as int, at_y as int, x, y),
                    color: pixel_color(layout.depth, data@[y * layout.width + x]),
                })
        },
{
    let colors = match decode_frame(layout, data) {
        Ok(c) => c,
        Err(e) => {
            return Err(e);
        },
    };
    let mut out: Vec<Cell> = Vec::new();
    let mut y: u32 = 0;
    while y < layout.height
        invariant
            y <= layout.height,
            colors@.len() == layout.width * layout.height,
            forall|i: int| 0 <= i < colors@.len() ==> #[trigger] colors@[i] == pixel_color(layout.depth, data@[i]),
            at_x + layout.width * (PIXEL_SIZE + 1) <= u32::MAX,
            at_y + layout.height * (PIXEL_SIZE + 1) <= u32::MAX,
            out@.len() == y * layout.width,
            forall|yy: int, xx: int|
                0 <= yy < y && 0 <= xx < layout.width ==> #[trigger] out@[yy * layout.width + xx]
                    == (Cell {
                    rect: dot_rect(at_x as int, at_y as int, xx, yy),
                    color: pixel_color(layout.depth, data@[yy * layout.width + xx]),
                }),
        decreases layout.height - y,
    {
        let mut x: u32 = 0;
        while x < layout.width
            invariant
                y < layout.height,
                x <= layout.width,
                colors@.len() == layout.width * layout.height,
                forall|i: int| 0 <= i < colors@.len() ==> #[trigger] colors@[i] == pixel_color(layout.depth, data@[i]),
                at_x + layout.width * (PIXEL_SIZE + 1) <= u32::MAX,
                at_y + layout.height * (PIXEL_SIZE + 1) <= u32::MAX,
                out@.len() == y * layout.width + x,
                forall|yy: int, xx: int|
                    0 <= yy < y && 0 <= xx < layout.width ==> #[trigger] out@[yy * layout.width + xx]
                        == (Cell {
                        rect: dot_rect(at_x as int, at_y as int, xx, yy),
                        color: pixel_color(layout.depth, data@[yy * layout.width + xx]),
                    }),
                forall|xx: int|
                    0 <= xx < x ==> #[trigger] out@[y * layout.width + xx]
                        == (Cell {
                        rect: dot_rect(at_x as int, at_y as int, xx, y as int),
                        color: pixel_color(layout.depth, data@[y * layout.width + xx]),
                    }),
            decreases layout.width - x,
        {
            proof {
                lemma_cell_bounds(y as int, x as int, layout.height as int, layout.width as int);
            }
            let i: usize = out.len();
            let cell = Cell {
                rect: ScreenRect {
                    x: at_x + x * (PIXEL_SIZE + 1),
                    y: at_y + y * (PIXEL_SIZE + 1),
                    w: PIXEL_SIZE,
                    h: PIXEL_SIZE,
                },
                color: colors[i],
            };
            let ghost prev = out@;
            out.push(cell);
            proof {
                assert forall|yy: int, xx: int|
                    0 <= yy < y && 0 <= xx < layout.width implies #[trigger] out@[yy
                        * layout.width + xx] == prev[yy * layout.width + xx] by {
                    lemma_row_major_lt(yy, xx, y as int, layout.width as int);
                }
            }
            x = x + 1;
        }
        proof {
            assert(out@.len() == (y + 1) * layout.width) by (nonlinear_arith)
                requires out@.len() == y * layout.width + layout.width;
            assert forall|yy: int, xx: int|
                0 <= yy < y + 1 && 0 <= xx < layout.width implies #[trigger] out@[yy * layout.width + xx]
                    == (Cell {
                    rect: dot_rect(at_x as int, at_y as int, xx, yy),
                    color: pixel_color(layout.depth, data@[yy * layout.width + xx]),
                }) by {
                if yy == y {
                    assert(out@[y * layout.width + xx] == out@[yy * layout.width + xx]);
                }
            }
        }
        y = y + 1;
    }
    assert(out@.len() == layout.width * layout.height) by (nonlinear_arith)
        requires out@.len() == layout.height * layout.width;
    Ok(out)
}

proof fn lemma_row_major_lt(yy: int, xx: int, y: int, w: int)
    requires
        0 <= yy < y,
        0 <= xx < w,
    ensures
        yy * w + xx < y * w,
{
    assert(yy * w + xx < y * w) by (nonlinear_arith)
        requires 0 <= yy < y, 0 <= xx < w;
}

proof fn lemma_u32_product(a: u32, b: u32)
    ensures
        a * b <= u64::MAX,
{
    assert(a * b <= u32::MAX * u32::MAX) by (nonlinear_arith)
        requires a <= u32::MAX, b <= u32::MAX, 0 <= a, 0 <= b;
}

proof fn lemma_cell_bounds(y: int, x: int, h: int, w: int)
    requires
        0 <= y < h,
        0 <= x < w,
    ensures
        0 <= y * w + x < h * w,
        y * w + x < w * h,
        y * w + x < (y + 1) * w,
        x * (PIXEL_SIZE + 1) < w * (PIXEL_SIZE + 1),
        y * (PIXEL_SIZE + 1) < h * (PIXEL_SIZE + 1),
{
    assert(0 <= y * w + x < h * w) by (nonlinear_arith)
        requires 0 <= y < h, 0 <= x < w;
    assert(y * w + x < w * h) by (nonlinear_arith)
        requires 0 <= y < h, 0 <= x < w;
    assert(y * w + x < (y + 1) * w) by (nonlinear_arith)
        requires 0 <= y < h, 0 <= x < w;
    assert(x * (PIXEL_SIZE + 1) < w * (PIXEL_SIZE + 1)) by (nonlinear_arith)
        requires 0 <= x < w;
    assert(y * (PIXEL_SIZE + 1) < h * (PIXEL_SIZE + 1)) by (nonlinear_arith)
        requires 0 <= y < h;
}

/// Whether colour `a` is at most as bright as `b` in every component.
pub open spec fn dimmer_or_equal(a: Rgb, b: Rgb) -> bool {
    a.r <= b.r && a.g <= b.g && a.b <= b.b
}

/// At depth 2, code 3 decodes to the brightest colour and code 0 to the darkest;
/// codes from 4 up are protocol violations.
pub proof fn lemma_depth2_extremes(value: u8)
    ensures
        decoded_pixel(2, 3) == Ok::<Rgb, HarnessError>(rgb(250, 160, 0)),
        decoded_pixel(2, 0) == Ok::<Rgb, HarnessError>(rgb(40, 20, 0)),
        value < 4 ==> decoded_pixel(2, value) is Ok && dimmer_or_equal(pixel_color(2, value), pixel_color(2, 3))
            && dimmer_or_equal(pixel_color(2, 0), pixel_color(2, value)),
        value >= 4 ==> decoded_pixel(2, value) == Err::<Rgb, HarnessError>(HarnessError::ProtocolViolation),
{
}

/// At depth 4, two valid codes decode to the same colour exactly when they lie in
/// the same band of four (0-3, 4-7, 8-11, 12-15).
pub proof fn lemma_depth4_bands(v: u8, w: u8)
    requires
        v < 16,
        w < 16,
    ensures
        decoded_pixel(4, v) is Ok,
        pixel_color(4, v) == pixel_color(4, w) <==> v / 4 == w / 4,
{
}

/// The four colours a depth-4 display can show.
pub open spec fn depth4_palette() -> Set<Rgb> {
    set![band_color(0), band_color(1), band_color(2), band_color(3)]
}

/// A depth-4 display shows exactly four distinct colours: every valid code decodes
/// into the palette, and each palette colour is the colour of some code.
pub proof fn lemma_depth4_four_colors()
    ensures
        depth4_palette().len() == 4,
        forall|v: u8| v < 16 ==> depth4_palette().contains(#[trigger] pixel_color(4, v)),
        forall|c: Rgb| #[trigger] depth4_palette().contains(c) ==> exists|v: u8| v < 16 && pixel_color(4, v) == c,
{
    let c0 = band_color(0);
    let c1 = band_color(1);
    let c2 = band_color(2);
    let c3 = band_color(3);
    assert(c0 != c1 && c0 != c2 && c0 != c3 && c1 != c2 && c1 != c3 && c2 != c3);
    let s0 = Set::<Rgb>::empty();
    assert(set![c0, c1, c2, c3] == s0.insert(c0).insert(c1).insert(c2).insert(c3));
    assert(s0.insert(c0).len() == 1);
    assert(!s0.insert(c0).contains(c1));
    assert(s0.insert(c0).insert(c1).len() == 2);
    assert(!s0.insert(c0).insert(c1).contains(c2));
    assert(s0.insert(c0).insert(c1).insert(c2).len() == 3);
    assert(!s0.insert(c0).insert(c1).insert(c2).contains(c3));
    assert forall|c: Rgb| #[trigger] depth4_palette().contains(c) implies exists|v: u8| v < 16 && pixel_color(4, v) == c by {
        if c == c0 {
            assert(pixel_color(4, 0) == c);
        } else if c == c1 {
            assert(pixel_color(4, 4) == c);
        } else if c == c2 {
            assert(pixel_color(4, 8) == c);
        } else {
            assert(pixel_color(4, 12) == c);
        }
    }
}

} // verus!
