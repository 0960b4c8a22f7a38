use vstd::prelude::*;

use crate::display::DisplayLayout;
use crate::error::HarnessError;

verus! {

broadcast use vstd::string::group_string_axioms;

/// Display type code of a 16-segment display whose top and bottom lines are split.
pub const DISPLAY_TYPE_SEG16S: u32 = 13;

/// Display type bits that mark a dot-matrix display.
pub const DISPLAY_TYPE_DMD: u32 = 14;

/// A display is drawn as a dot matrix when all of the dot-matrix type bits are set.
pub open spec fn spec_is_dot_matrix(display_type: u32) -> bool {
    display_type & DISPLAY_TYPE_DMD == DISPLAY_TYPE_DMD
}

/// Whether frames of a display of this type are dot-matrix pixel buffers.
pub fn is_dot_matrix(display_type: u32) -> (r: bool)
    ensures
        r == spec_is_dot_matrix(display_type),
{
    display_type & DISPLAY_TYPE_DMD == DISPLAY_TYPE_DMD
}

/// One row of the glyph template of a 16-segment cell. A letter `A` + k marks a
/// place lit by bit k of the cell's value; the split-line variant is used for
/// `DISPLAY_TYPE_SEG16S` displays.
pub open spec fn segment_template(split: bool, row: int) -> Seq<char> {
    if split {
        if row == 0 {
            " AA BB   "@
        } else if row == 1 {
            "HI J KC  "@
        } else if row == 2 {
            "H IJK C  "@
        } else if row == 3 {
            " PP LL   "@
        } else if row == 4 {
            "G ONM D  "@
        } else if row == 5 {
            "GO N MD  "@
        } else if row == 6 {
            " FF EE   "@
        } else {
            "         "@
        }
    } else {
        if row == 0 {
            " AAAAA   "@
        } else if row == 1 {
            "FI J KB  "@
        } else if row == 2 {
            "F IJK B  "@
        } else if row == 3 {
            " GG LL   "@
        } else if row == 4 {
            "E ONM C  "@
        } else if row == 5 {
            "EO N MC P"@
        } else if row == 6 {
            " DDDDD  H"@
        } else {
            "       H "@
        }
    }
}

/// Number of rows of a segment glyph.
pub const GLYPH_ROWS: usize = 8;

/// Number of columns of a segment glyph.
pub const GLYPH_COLUMNS: usize = 9;

fn template_row(split: bool, row: usize) -> (r: &'static str)
    requires
        row < GLYPH_ROWS,
    ensures
        r@ == segment_template(split, row as int),
        r@.len() == GLYPH_COLUMNS,
        vstd::string::is_ascii(r),
{
    let r = if split {
        match row {
            0 => " AA BB   ",
            1 => "HI J KC  ",
            2 => "H IJK C  ",
            3 => " PP LL   ",
            4 => "G ONM D  ",
            5 => "GO N MD  ",
            6 => " FF EE   ",
            _ => "         ",
        }
    } else {
        match row {
            0 => " AAAAA   ",
            1 => "FI J KB  ",
            2 => "F IJK B  ",
            3 => " GG LL   ",
            4 => "E ONM C  ",
            5 => "EO N MC P",
            6 => " DDDDD  H",
            _ => "       H ",
        }
    };
    proof {
        reveal_strlit(" AA BB   ");
        reveal_strlit("HI J KC  ");
        reveal_strlit("H IJK C  ");
        reveal_strlit(" PP LL   ");
        reveal_strlit("G ONM D  ");
        reveal_strlit("GO N MD  ");
        reveal_strlit(" FF EE   ");
        reveal_strlit("         ");
        reveal_strlit(" AAAAA   ");
        reveal_strlit("FI J KB  ");
        reveal_strlit("F IJK B  ");
        reveal_strlit(" GG LL   ");
        reveal_strlit("E ONM C  ");
        reveal_strlit("EO N MC P");
        reveal_strlit(" DDDDD  H");
        reveal_strlit("       H ");
    }
    r
}

/// The byte shown for template character `t` of a cell whose value is `value`:
/// `*` where the marked bit is set, a blank where it is clear, `t` itself elsewhere.
pub open spec fn glyph_byte(t: u8, value: u16) -> u8 {
    if 65 <= t < 81 {
        if value & (1u16 << ((t - 65) as u16)) != 0 {
            42u8
        } else {
            32u8
        }
    } else {
        t
    }
}

/// One text row of the glyph of a cell.
pub open spec fn glyph_row(split: bool, row: int, value: u16) -> Seq<u8> {
    Seq::new(GLYPH_COLUMNS as nat, |c: int| glyph_byte(segment_template(split, row)[c] as u8, value))
}

/// Row `row` of the text rendering of a sequence of cells: each cell's glyph row
/// followed by one blank.
pub open spec fn text_row(split: bool, row: int, values: Seq<u16>) -> Seq<u8>
    decreases values.len(),
{
    if values.len() == 0 {
        Seq::empty()
    } else {
        text_row(split, row, values.drop_last()) + glyph_row(split, row, values.last()) + seq![32u8]
    }
}

fn lit_byte(t: u8, value: u16) -> (r: u8)
    ensures
        r == glyph_byte(t, value),
{
    if 65 <= t && t < 81 {
        if value & (1u16 << (t - 65) as u16) != 0 {
            42
        } else {
            32
        }
    } else {
        t
    }
}

/// Appends row `row` of the glyph of one cell, then a blank, to `out`.
fn push_glyph_row(out: &mut Vec<u8>, split: bool, row: usize, value: u16)
    requires
        row < GLYPH_ROWS,
    ensures
        final(out)@ == old(out)@ + glyph_row(split, row as int, value) + seq![32u8],
{
    let t = template_row(split, row);
    let bytes = t.as_bytes();
    let ghost start = out@;
    let mut c: usize = 0;
    while c < GLYPH_COLUMNS
        invariant
            c <= GLYPH_COLUMNS,
            bytes@.len() == GLYPH_COLUMNS,
            forall|k: int| 0 <= k < GLYPH_COLUMNS ==> #[trigger] bytes@[k] == segment_template(split, row as int)[k] as u8,
            out@ == start + glyph_row(split, row as int, value).subrange(0, c as int),
        decreases GLYPH_COLUMNS - c,
    {
        out.push(lit_byte(bytes[c], value));
        assert(glyph_row(split, row as int, value).subrange(0, c + 1) == glyph_row(split, row as int, value).subrange(0, c as int).push(glyph_byte(bytes@[c as int], value)));
        c = c + 1;
    }
    assert(glyph_row(split, row as int, value).subrange(0, GLYPH_COLUMNS as int) == glyph_row(split, row as int, value));
    out.push(32);
}

/// Whether a segment display uses the split-line glyph template.
pub open spec fn uses_split_template(layout: DisplayLayout) -> bool {
    layout.display_type == DISPLAY_TYPE_SEG16S
}

/// Renders the cells of a segment display as eight text rows, lit segments shown as `*`.
/// The frame must hold at least one 16-bit value per character cell of the layout.
pub fn alphanumeric_rows(layout: &DisplayLayout, data: &[u16]) -> (r: Result<
    Vec<Vec<u8>>,
    HarnessError,
>)
    ensures
        r is Err <==> data@.len() < layout.length,
        r is Err ==> r == Err::<Vec<Vec<u8>>, HarnessError>(HarnessError::ProtocolViolation),
        r matches Ok(rows) ==> {
            &&& rows@.len() == GLYPH_ROWS
            &&& forall|row: int|
                0 <= row < GLYPH_ROWS ==> #[trigger] rows@[row]@ == text_row(
                    uses_split_template(*layout),
                    row,
                    data@.subrange(0, layout.length as int),
                )
        },
{
    if (data.len() as u64) < layout.length as u64 {
        return Err(HarnessError::ProtocolViolation);
    }
    let split = layout.display_type == DISPLAY_TYPE_SEG16S;
    let ghost values = data@.subrange(0, layout.length as int);
    let mut rows: Vec<Vec<u8>> = Vec::new();
    let mut row: usize = 0;
    while row < GLYPH_ROWS
        invariant
            row <= GLYPH_ROWS,
            data@.len() >= layout.length,
            split == uses_split_template(*layout),
            values == data@.subrange(0, layout.length as int),
            rows@.len() == row,
            forall|k: int| 0 <= k < row ==> #[trigger] rows@[k]@ == text_row(split, k, values),
        decreases GLYPH_ROWS - row,
    {
        let mut line: Vec<u8> = Vec::new();
        let mut pos: usize = 0;
        while pos < layout.length as usize
            invariant
                row < GLYPH_ROWS,
                pos <= layout.length,
                data@.len() >= layout.length,
                values == data@.subrange(0, layout.length as int),
                line@ == text_row(split, row as int, values.subrange(0, pos as int)),
            decreases layout.length - pos,
        {
            push_glyph_row(&mut line, split, row, data[pos]);
            assert(values.subrange(0, pos + 1).drop_last() == values.subrange(0, pos as int));
            pos = pos + 1;
        }
        assert(values.subrange(0, layout.length as int) == values);
        rows.push(line);
        row = row + 1;
    }
    Ok(rows)
}

} // verus!
