use vstd::prelude::*;

use vstd::arithmetic::div_mod::{lemma_fundamental_div_mod, lemma_fundamental_div_mod_converse};

use crate::display::Rgb;

verus! {

/// An axis-aligned rectangle in screen pixels.
#[derive(Clone, Copy, Debug, PartialEq, Eq, Structural)]
pub struct ScreenRect {
    pub x: u32,
    pub y: u32,
    pub w: u32,
    pub h: u32,
}

/// A filled rectangle to draw.
#[derive(Clone, Copy, Debug, PartialEq, Eq, Structural)]
pub struct Cell {
    pub rect: ScreenRect,
    pub color: Rgb,
}

pub open spec fn rect(x: int, y: int, w: int, h: int) -> ScreenRect {
    ScreenRect { x: x as u32, y: y as u32, w: w as u32, h: h as u32 }
}

/// A panel of equal cells laid out row by row, `columns` cells to a row, with
/// `margin` pixels between neighbouring cells.
#[derive(Clone, Copy, Debug, PartialEq, Eq, Structural)]
pub struct GridSpec {
    pub columns: u32,
    pub cell_w: u32,
    pub cell_h: u32,
    pub margin: u32,
}

impl GridSpec {
    /// A grid is usable when it has a column and every cell pitch is positive.
    pub open spec fn wf(self) -> bool {
        &&& self.columns >= 1
        &&& self.cell_w + self.margin >= 1
        &&& self.cell_h + self.margin >= 1
        &&& self.cell_w + self.margin <= u32::MAX
        &&& self.cell_h + self.margin <= u32::MAX
    }

    /// Horizontal distance between the left edges of neighbouring cells.
    pub open spec fn pitch_x(self) -> int {
        self.cell_w + self.margin
    }

    /// Vertical distance between the top edges of neighbouring rows.
    pub open spec fn pitch_y(self) -> int {
        self.cell_h + self.margin
    }
}

/// Number of lamp or solenoid cells in one row of their panels.
pub const DEVICE_COLUMNS: u32 = 20;

/// Number of rows of the lamp and solenoid panels.
pub const DEVICE_ROWS: u32 = 10;

/// Number of switch cells in one row of the switch panel.
pub const SWITCH_COLUMNS: u32 = 5;

pub const SWITCH_WIDTH: u32 = 140;

pub const SWITCH_HEIGHT: u32 = 20;

pub const SWITCH_MARGIN: u32 = 2;

/// The grid of the lamp and solenoid panels for cells of side `size`.
pub open spec fn device_grid(size: u32) -> GridSpec {
    GridSpec { columns: DEVICE_COLUMNS, cell_w: size, cell_h: size, margin: 1 }
}

/// The grid of the switch panel.
pub open spec fn switch_grid() -> GridSpec {
    GridSpec {
        columns: SWITCH_COLUMNS,
        cell_w: SWITCH_WIDTH,
        cell_h: SWITCH_HEIGHT,
        margin: SWITCH_MARGIN,
    }
}

/// Column and row of the cell at position `ordinal` (0-based) of a grid.
pub open spec fn cell_of(grid: GridSpec, ordinal: int) -> (int, int) {
    (ordinal % (grid.columns as int), ordinal / (grid.columns as int))
}

/// Offset of the top-left corner of cell `ordinal` from the panel origin.
pub open spec fn cell_offset(grid: GridSpec, ordinal: int) -> (int, int) {
    (cell_of(grid, ordinal).0 * grid.pitch_x(), cell_of(grid, ordinal).1 * grid.pitch_y())
}

/// Screen rectangle of cell `ordinal` of a panel whose origin is (`at_x`, `at_y`).
pub open spec fn cell_rect_at(at_x: int, at_y: int, grid: GridSpec, ordinal: int) -> ScreenRect {
    rect(
        at_x + cell_offset(grid, ordinal).0,
        at_y + cell_offset(grid, ordinal).1,
        grid.cell_w as int,
        grid.cell_h as int,
    )
}

/// Whether every cell up to position `count` of a panel at (`at_x`, `at_y`) lies
/// within the `u32` screen range.
pub open spec fn panel_fits(at_x: int, at_y: int, grid: GridSpec, count: int) -> bool {
    forall|k: int| 0 <= k < count ==> {
        &&& at_x + #[trigger] cell_offset(grid, k).0 <= u32::MAX
        &&& at_y + cell_offset(grid, k).1 <= u32::MAX
    }
}

/// The position (0-based) of the cell under a point given relative to the panel
/// origin: column and row of the point give position `col + row * columns`, which
/// counts when it is below `count`. A point left of or above the panel hits nothing.
pub open spec fn ordinal_at_point(px: int, py: int, grid: GridSpec, count: int) -> Option<int> {
    if px < 0 || py < 0 {
        None
    } else {
        let col = px / grid.pitch_x();
        let row = py / grid.pitch_y();
        if col + row * grid.columns < count {
            Some(col + row * grid.columns)
        } else {
            None
        }
    }
}

/// Screen rectangle of cell `ordinal` of a panel whose origin is (`at_x`, `at_y`).
pub fn cell_rect(at_x: u32, at_y: u32, grid: &GridSpec, ordinal: u32) -> (r: ScreenRect)
    requires
        grid.wf(),
        at_x + cell_offset(*grid, ordinal as int).0 <= u32::MAX,
        at_y + cell_offset(*grid, ordinal as int).1 <= u32::MAX,
    ensures
        r == cell_rect_at(at_x as int, at_y as int, *grid, ordinal as int),
{
    let col = ordinal % grid.columns;
    let row = ordinal / grid.columns;
    let px = (grid.cell_w + grid.margin) as u64;
    let py = (grid.cell_h + grid.margin) as u64;
    proof {
        assert(col * px <= u32::MAX * u32::MAX) by (nonlinear_arith)
            requires col <= u32::MAX, px <= u32::MAX, 0 <= col, 0 <= px;
        assert(row * py <= u32::MAX * u32::MAX) by (nonlinear_arith)
            requires row <= u32::MAX, py <= u32::MAX, 0 <= row, 0 <= py;
    }
    let x = at_x as u64 + col as u64 * px;
    let y = at_y as u64 + row as u64 * py;
    ScreenRect { x: x as u32, y: y as u32, w: grid.cell_w, h: grid.cell_h }
}

/// The position (0-based) of the cell under a point given relative to the panel
/// origin, among the first `count` cells; `None` where no such cell lies there.
pub fn ordinal_at(px: i32, py: i32, grid: &GridSpec, count: usize) -> (r: Option<usize>)
    requires
        grid.wf(),
    ensures
        r matches Some(k) ==> ordinal_at_point(px as int, py as int, *grid, count as int) == Some(k as int),
        r is None ==> ordinal_at_point(px as int, py as int, *grid, count as int) is None,
{
    if px < 0 || py < 0 {
        return None;
    }
    let col = (px as u32) / (grid.cell_w + grid.margin);
    let row = (py as u32) / (grid.cell_h + grid.margin);
    proof {
        assert(row * grid.columns <= u32::MAX * u32::MAX) by (nonlinear_arith)
            requires row <= u32::MAX, grid.columns <= u32::MAX, 0 <= row, 0 <= grid.columns;
    }
    let index = col as u64 + row as u64 * grid.columns as u64;
    if index < count as u64 {
        Some(index as usize)
    } else {
        None
    }
}

/// Hit-testing inverts the layout: every point of cell `ordinal`, its trailing
/// margin included, resolves back to `ordinal`.
pub proof fn lemma_hit_inverts_layout(grid: GridSpec, ordinal: int, count: int, dx: int, dy: int)
    requires
        grid.wf(),
        0 <= ordinal < count,
        0 <= dx < grid.pitch_x(),
        0 <= dy < grid.pitch_y(),
    ensures
        ordinal_at_point(
            cell_offset(grid, ordinal).0 + dx,
            cell_offset(grid, ordinal).1 + dy,
            grid,
            count,
        ) == Some(ordinal),
{
    let c = grid.columns as int;
    let col = ordinal % c;
    let row = ordinal / c;
    lemma_fundamental_div_mod(ordinal, c);
    assert(0 <= col < c);
    assert(row >= 0) by (nonlinear_arith)
        requires ordinal >= 0, c >= 1, row == ordinal / c;
    let sx = grid.pitch_x();
    let sy = grid.pitch_y();
    assert(col * sx >= 0) by (nonlinear_arith)
        requires col >= 0, sx >= 1;
    assert(row * sy >= 0) by (nonlinear_arith)
        requires row >= 0, sy >= 1;
    lemma_fundamental_div_mod_converse(col * sx + dx, sx, col, dx);
    lemma_fundamental_div_mod_converse(row * sy + dy, sy, row, dy);
    assert(col + row * c == ordinal) by (nonlinear_arith)
        requires ordinal == c * row + col;
}

/// Round trip of device numbering: device `n` of a panel of `columns * rows` cells
/// is drawn in cell `n - 1`, and a hit anywhere in that cell yields `n` again.
/// This holds for the lamp and solenoid panels and for the switch panel alike.
pub proof fn lemma_device_round_trip(grid: GridSpec, rows: int, n: int, dx: int, dy: int)
    requires
        grid.wf(),
        1 <= n <= grid.columns * rows,
        0 <= dx < grid.pitch_x(),
        0 <= dy < grid.pitch_y(),
    ensures
        ordinal_at_point(
            cell_offset(grid, n - 1).0 + dx,
            cell_offset(grid, n - 1).1 + dy,
            grid,
            grid.columns * rows,
        ) matches Some(k) && k + 1 == n,
{
    lemma_hit_inverts_layout(grid, n - 1, grid.columns * rows, dx, dy);
}

/// The round trip for the two panel layouts of the tester: lamps and solenoids
/// (cells of side `size`, 20 to a row, 10 rows) and switches (5 to a row).
pub proof fn lemma_panel_round_trips(size: u32, n: int, switch_rows: int)
    requires
        1 <= size,
        size + 1 <= u32::MAX,
        switch_rows >= 0,
    ensures
        1 <= n <= DEVICE_COLUMNS * DEVICE_ROWS ==> ordinal_at_point(
            cell_offset(device_grid(size), n - 1).0,
            cell_offset(device_grid(size), n - 1).1,
            device_grid(size),
            DEVICE_COLUMNS * DEVICE_ROWS,
        ) == Some(n - 1),
        1 <= n <= SWITCH_COLUMNS * switch_rows ==> ordinal_at_point(
            cell_offset(switch_grid(), n - 1).0,
            cell_offset(switch_grid(), n - 1).1,
            switch_grid(),
            SWITCH_COLUMNS * switch_rows,
        ) == Some(n - 1),
{
    if 1 <= n <= DEVICE_COLUMNS * DEVICE_ROWS {
        lemma_hit_inverts_layout(device_grid(size), n - 1, DEVICE_COLUMNS * DEVICE_ROWS, 0, 0);
        assert(cell_offset(device_grid(size), n - 1).0 + 0 == cell_offset(device_grid(size), n - 1).0);
    }
    if 1 <= n <= SWITCH_COLUMNS * switch_rows {
        lemma_hit_inverts_layout(switch_grid(), n - 1, SWITCH_COLUMNS * switch_rows, 0, 0);
    }
}

} // verus!
