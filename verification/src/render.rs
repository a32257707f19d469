//! What the renderer draws for a value, how full the glyph is and in which
//! colour, and where on the screen it draws.

use crate::canvas::{cell_index, CELLS, HEIGHT, WIDTH};
use crate::ieee::{exponent, fraction, is_nan, magnitude, rank, INFINITY, ONE, PRECISION, SIGN};
use vstd::arithmetic::power2::{lemma2_to64_rest, pow2};
use vstd::prelude::*;

verus! {

/// How many fill levels there are.
pub const LEVELS: usize = 8;

/// The pattern of 0.125, the least magnitude that is drawn as anything.
pub const EIGHTH: u64 = 0x3FC0_0000_0000_0000;

/// The colour that a value is drawn in.
#[derive(Clone, Copy, Debug, PartialEq, Eq)]
pub enum Tint {
    /// For zero, of either sign.
    Background,
    /// For a number above zero.
    Positive,
    /// For a number below zero, and for what is not a number.
    Negative,
}

/// The fill level of a value: its magnitude times eight, rounded down, and
/// at most seven. A magnitude below one and at least an eighth is a normal
/// number (2^52 + f) * 2^(e - 1075), so eight times it, rounded down, is
/// 2^52 + f divided by 2^(1072 - e). What is not a number has level 0.
pub open spec fn fill_level_of(bits: u64) -> int {
    if is_nan(bits) {
        0
    } else if magnitude(bits) >= ONE {
        7
    } else if magnitude(bits) < EIGHTH {
        0
    } else {
        (PRECISION + fraction(bits)) / (pow2((1072 - exponent(bits)) as nat) as int)
    }
}

/// The colour of a value.
pub open spec fn tint_of(bits: u64) -> Tint {
    if is_nan(bits) {
        Tint::Negative
    } else if rank(bits) == 0 {
        Tint::Background
    } else if rank(bits) > 0 {
        Tint::Positive
    } else {
        Tint::Negative
    }
}

/// The fill level of a value, from 0 to 7.
pub fn fill_level(bits: u64) -> (level: usize)
    ensures
        level == fill_level_of(bits),
        level < LEVELS,
{
    let size: u64 = if bits >= SIGN {
        bits - SIGN
    } else {
        bits
    };
    if size > INFINITY {
        0
    } else if size >= ONE {
        7
    } else if size < EIGHTH {
        0
    } else {
        let field: u64 = size / PRECISION;
        let significand: u64 = PRECISION + size % PRECISION;
        proof {
            lemma2_to64_rest();
        }
        if field == 1022 {
            (significand / 0x0004_0000_0000_0000) as usize
        } else if field == 1021 {
            (significand / 0x0008_0000_0000_0000) as usize
        } else {
            (significand / 0x0010_0000_0000_0000) as usize
        }
    }
}

/// The colour of a value.
pub fn tint(bits: u64) -> (colour: Tint)
    ensures
        colour == tint_of(bits),
{
    let size: u64 = if bits >= SIGN {
        bits - SIGN
    } else {
        bits
    };
    if size > INFINITY {
        Tint::Negative
    } else if size == 0 {
        Tint::Background
    } else if bits >= SIGN {
        Tint::Negative
    } else {
        Tint::Positive
    }
}

/// The glyph of a fill level: from blank to a full block.
pub fn glyph(level: usize) -> (fill: char)
    requires
        level < LEVELS,
    ensures
        fill == glyphs()[level as int],
{
    if level == 0 {
        ' '
    } else if level == 1 {
        '.'
    } else if level == 2 {
        '+'
    } else if level == 3 {
        '#'
    } else if level == 4 {
        '\u{2591}'
    } else if level == 5 {
        '\u{2592}'
    } else if level == 6 {
        '\u{2593}'
    } else {
        '\u{2588}'
    }
}

/// The glyphs, by fill level.
pub open spec fn glyphs() -> Seq<char> {
    seq![' ', '.', '+', '#', '\u{2591}', '\u{2592}', '\u{2593}', '\u{2588}']
}

/// Whether a canvas, drawn two columns wide per cell, fits a screen of
/// `columns` by `rows` when centred in it.
pub open spec fn fits(columns: u16, rows: u16) -> bool {
    columns / 2 >= WIDTH && rows / 2 >= HEIGHT / 2
}

/// The screen column and row of the canvas's first cell, such that the
/// canvas is centred, or `None` where the screen is too small.
pub fn origin(columns: u16, rows: u16) -> (at: Option<(u16, u16)>)
    ensures
        match at {
            Some(corner) => {
                &&& fits(columns, rows)
                &&& corner.0 == columns / 2 - WIDTH
                &&& corner.1 == rows / 2 - HEIGHT / 2
            },
            None => !fits(columns, rows),
        },
{
    let middle_column: u16 = columns / 2;
    let middle_row: u16 = rows / 2;
    if middle_column >= 32 && middle_row >= 16 {
        Some((middle_column - 32, middle_row - 16))
    } else {
        None
    }
}

/// The screen column and row of the cell with linear index `i`, for a
/// canvas whose first cell is drawn at `corner`: two columns per cell, one
/// row per row.
pub fn screen_position(corner: (u16, u16), i: usize) -> (at: (u16, u16))
    requires
        i < CELLS,
        corner.0 + 2 * WIDTH <= u16::MAX,
        corner.1 + HEIGHT <= u16::MAX,
    ensures
        at.0 == corner.0 + 2 * (i % WIDTH),
        at.1 == corner.1 + i / WIDTH,
        forall|x: int, y: int|
            0 <= x < WIDTH && 0 <= y < HEIGHT && #[trigger] cell_index(x, y) == i ==> at.0
                == corner.0 + 2 * x && at.1 == corner.1 + y,
{
    let x: u16 = (i % WIDTH) as u16;
    let y: u16 = (i / WIDTH) as u16;
    (corner.0 + x * 2, corner.1 + y)
}

/// How many full lines of `columns` a message of `length` bytes takes, its
/// length counted modulo 2^16.
pub open spec fn message_lines(columns: u16, length: usize) -> int {
    (length as int % 0x1_0000) / (columns as int)
}

/// The screen row on which an error message of `length` bytes starts, so
/// that it ends above the prompt on a screen of `columns` by `rows`: two
/// rows from the bottom, and one more for each full line of the message,
/// its length counted modulo 2^16. `None` where the screen has no column or
/// too few rows.
pub fn error_row(columns: u16, rows: u16, length: usize) -> (row: Option<u16>)
    ensures
        match row {
            Some(r) => columns > 0 && r == rows - 2 - message_lines(columns, length),
            None => columns == 0 || rows < 2 + message_lines(columns, length),
        },
{
    if columns == 0 {
        return None;
    }
    let lines: u16 = ((length % 0x1_0000) as u16) / columns;
    if rows >= 2 && rows - 2 >= lines {
        Some(rows - 2 - lines)
    } else {
        None
    }
}

/// The fill level looks at the magnitude alone, and a larger magnitude
/// never has a lower level.
pub proof fn fill_level_grows_with_magnitude(a: u64, b: u64)
    requires
        !is_nan(a),
        !is_nan(b),
        magnitude(a) <= magnitude(b),
    ensures
        0 <= fill_level_of(a) <= fill_level_of(b) <= 7,
{
    if EIGHTH <= magnitude(a) < ONE {
        level_by_field(a);
    }
    if EIGHTH <= magnitude(b) < ONE {
        level_by_field(b);
    }
}

/// Between an eighth and one, the level is read off the exponent field:
/// one eighth to a quarter is level 1, a quarter to a half is the
/// significand's top two bits, a half to one its top three.
proof fn level_by_field(bits: u64)
    requires
        EIGHTH <= magnitude(bits) < ONE,
    ensures
        1020 <= exponent(bits) <= 1022,
        exponent(bits) == 1020 ==> fill_level_of(bits) == 1,
        exponent(bits) == 1021 ==> fill_level_of(bits) == (PRECISION + fraction(bits))
            / 0x0008_0000_0000_0000,
        exponent(bits) == 1022 ==> fill_level_of(bits) == (PRECISION + fraction(bits))
            / 0x0004_0000_0000_0000,
{
    lemma2_to64_rest();
    let field = exponent(bits);
    assert(pow2(50) == 0x0004_0000_0000_0000);
    assert(pow2(51) == 0x0008_0000_0000_0000);
    assert(pow2(52) == 0x0010_0000_0000_0000);
    if field == 1020 {
        assert((1072 - field) as nat == 52);
    } else if field == 1021 {
        assert((1072 - field) as nat == 51);
    } else {
        assert((1072 - field) as nat == 50);
    }
}

} // verus!
