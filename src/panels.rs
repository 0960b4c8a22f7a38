use vstd::prelude::*;

use crate::display::{rgb, Rgb};
use crate::geometry::{
    cell_offset, cell_rect, cell_rect_at, device_grid, Cell, GridSpec, DEVICE_COLUMNS, DEVICE_ROWS,
};
use crate::grid::{DeviceGrid, LevelPolicy};
use crate::geometry::{rect, switch_grid, ScreenRect, SWITCH_COLUMNS, SWITCH_HEIGHT, SWITCH_MARGIN, SWITCH_WIDTH};
use crate::state::MechInfo;
use crate::switches::{index_label_at, index_code_at, switch_count, switch_entries, SwitchIndex};
use crate::text::{decimal, decimal_string};
use std::collections::HashMap;
use vstd::string::StringExecFns;

verus! {

/// Colour of a lit lamp or solenoid.
pub open spec fn lit_color() -> Rgb {
    rgb(255, 255, 100)
}

/// Colour of a dark lamp or solenoid.
pub open spec fn dark_color() -> Rgb {
    rgb(20, 20, 10)
}

pub open spec fn device_color(lit: bool) -> Rgb {
    if lit {
        lit_color()
    } else {
        dark_color()
    }
}

/// How many devices of a grid of `len` slots a panel shows: devices 1 up to the
/// panel's capacity.
pub open spec fn shown_devices(len: nat) -> nat {
    if len == 0 {
        0
    } else if len - 1 > DEVICE_COLUMNS * DEVICE_ROWS {
        (DEVICE_COLUMNS * DEVICE_ROWS) as nat
    } else {
        (len - 1) as nat
    }
}

proof fn lemma_panel_cell_bounds(size: u32, k: int)
    requires
        0 <= k < DEVICE_COLUMNS * DEVICE_ROWS,
        size + 1 <= u32::MAX,
    ensures
        0 <= cell_offset(device_grid(size), k).0 <= (DEVICE_COLUMNS - 1) * (size + 1),
        0 <= cell_offset(device_grid(size), k).1 <= (DEVICE_ROWS - 1) * (size + 1),
{
    let col = k % 20;
    let row = k / 20;
    assert(0 <= col <= 19);
    assert(0 <= row <= 9);
    assert(0 <= col * (size + 1) <= 19 * (size + 1)) by (nonlinear_arith)
        requires 0 <= col <= 19, size >= 0;
    assert(0 <= row * (size + 1) <= 9 * (size + 1)) by (nonlinear_arith)
        requires 0 <= row <= 9, size >= 0;
}

/// Lays out the devices of a lamp or solenoid grid as a panel of squares of side
/// `size`, device `n` in cell `n - 1`, lit or dark as `policy` decides.
pub fn device_cells(at_x: u32, at_y: u32, devices: &DeviceGrid, size: u32, policy: LevelPolicy) -> (r: Vec<Cell>)
    requires
        size + 1 <= u32::MAX,
        at_x + (DEVICE_COLUMNS - 1) * (size + 1) <= u32::MAX,
        at_y + (DEVICE_ROWS - 1) * (size + 1) <= u32::MAX,
    ensures
        r@.len() == shown_devices(devices@.len()),
        forall|k: int|
            0 <= k < r@.len() ==> #[trigger] r@[k] == (Cell {
                rect: cell_rect_at(at_x as int, at_y as int, device_grid(size), k),
                color: device_color(policy.spec_is_lit(devices@[k + 1])),
            }),
{
    let grid = GridSpec { columns: DEVICE_COLUMNS, cell_w: size, cell_h: size, margin: 1 };
    let len = devices.len();
    let count: usize = if len == 0 {
        0
    } else if len - 1 > (DEVICE_COLUMNS * DEVICE_ROWS) as usize {
        (DEVICE_COLUMNS * DEVICE_ROWS) as usize
    } else {
        len - 1
    };
    let levels = devices.levels();
    let mut out: Vec<Cell> = Vec::new();
    let mut k: usize = 0;
    while k < count
        invariant
            k <= count,
            count == shown_devices(devices@.len()),
            levels@ == devices@,
            grid == device_grid(size),
            size + 1 <= u32::MAX,
            at_x + (DEVICE_COLUMNS - 1) * (size + 1) <= u32::MAX,
            at_y + (DEVICE_ROWS - 1) * (size + 1) <= u32::MAX,
            out@.len() == k,
            forall|j: int|
                0 <= j < k ==> #[trigger] out@[j] == (Cell {
                    rect: cell_rect_at(at_x as int, at_y as int, device_grid(size), j),
                    color: device_color(policy.spec_is_lit(devices@[j + 1])),
                }),
        decreases count - k,
    {
        proof {
            lemma_panel_cell_bounds(size, k as int);
        }
        let rect = cell_rect(at_x, at_y, &grid, k as u32);
        let color = if policy.is_lit(levels[k + 1]) {
            Rgb { r: 255, g: 255, b: 100 }
        } else {
            Rgb { r: 20, g: 20, b: 10 }
        };
        out.push(Cell { rect, color });
        k = k + 1;
    }
    out
}

/// Height in pixels of one mechanism bar.
pub const MECH_BAR_HEIGHT: u32 = 10;

/// Screen pixels per unit of mechanism travel.
pub const MECH_BAR_MULTIPLIER: u32 = 2;

/// The two rectangles of one mechanism's bar: filled up to the current position,
/// outlined over the full travel length.
#[derive(Clone, Copy, Debug, PartialEq, Eq, Structural)]
pub struct MechBar {
    pub fill: ScreenRect,
    pub outline: ScreenRect,
}

/// Bar length in pixels for a travel value; a negative value draws nothing.
pub open spec fn bar_length(v: i32) -> int {
    if v < 0 {
        0
    } else {
        v * MECH_BAR_MULTIPLIER
    }
}

fn bar_len(v: i32) -> (r: u32)
    ensures
        r == bar_length(v),
{
    if v < 0 {
        0
    } else {
        v as u32 * MECH_BAR_MULTIPLIER
    }
}

/// The bar of the mechanism at position `k` of a list drawn at (`at_x`, `at_y`).
pub open spec fn mech_bar(at_x: int, at_y: int, k: int, mech: MechInfo) -> MechBar {
    MechBar {
        fill: rect(at_x, at_y + k * MECH_BAR_HEIGHT, bar_length(mech.pos), MECH_BAR_HEIGHT as int),
        outline: rect(at_x, at_y + k * MECH_BAR_HEIGHT, bar_length(mech.length), MECH_BAR_HEIGHT as int),
    }
}

/// Lays out one horizontal bar per mechanism, stacked downwards from (`at_x`, `at_y`).
pub fn mech_bars(at_x: u32, at_y: u32, mechs: &[MechInfo]) -> (r: Vec<MechBar>)
    requires
        at_y + mechs@.len() * MECH_BAR_HEIGHT <= u32::MAX,
    ensures
        r@.len() == mechs@.len(),
        forall|k: int| 0 <= k < r@.len() ==> #[trigger] r@[k] == mech_bar(at_x as int, at_y as int, k, mechs@[k]),
{
    let mut out: Vec<MechBar> = Vec::new();
    let mut k: usize = 0;
    while k < mechs.len()
        invariant
            k <= mechs@.len(),
            at_y + mechs@.len() * MECH_BAR_HEIGHT <= u32::MAX,
            out@.len() == k,
            forall|j: int| 0 <= j < k ==> #[trigger] out@[j] == mech_bar(at_x as int, at_y as int, j, mechs@[j]),
        decreases mechs@.len() - k,
    {
        proof {
            assert(k * MECH_BAR_HEIGHT < mechs@.len() * MECH_BAR_HEIGHT) by (nonlinear_arith)
                requires k < mechs@.len();
        }
        let y = at_y + (k as u32) * MECH_BAR_HEIGHT;
        let mech = mechs[k];
        let bar = MechBar {
            fill: ScreenRect { x: at_x, y, w: bar_len(mech.pos), h: MECH_BAR_HEIGHT },
            outline: ScreenRect { x: at_x, y, w: bar_len(mech.length), h: MECH_BAR_HEIGHT },
        };
        out.push(bar);
        k = k + 1;
    }
    out
}

/// One button of the switch panel.
pub struct SwitchCell {
    pub rect: ScreenRect,
    pub color: Rgb,
    pub code: u32,
    /// The button text, `code: label`.
    pub text: String,
}

/// Button colour of a switch: its level if the operator has set one, else neutral.
pub open spec fn switch_color(states: Map<u32, bool>, code: u32) -> Rgb {
    if states.contains_key(code) {
        if states[code] {
            rgb(100, 40, 40)
        } else {
            rgb(40, 10, 10)
        }
    } else {
        rgb(20, 20, 20)
    }
}

/// The button text of a switch.
pub open spec fn switch_text(code: u32, label: Seq<char>) -> Seq<char> {
    decimal(code as nat) + ": "@ + label
}

/// Lays out one button per switch of the index, in index order, five to a row,
/// coloured by the operator's switch levels.
pub fn switch_cells(at_x: u32, at_y: u32, switches: &SwitchIndex, states: &HashMap<u32, bool>) -> (r: Vec<SwitchCell>)
    requires
        at_x + (SWITCH_COLUMNS - 1) * (SWITCH_WIDTH + SWITCH_MARGIN) <= u32::MAX,
        at_y + (switch_entries(*switches).len() as int / SWITCH_COLUMNS as int) * (SWITCH_HEIGHT + SWITCH_MARGIN) <= u32::MAX,
    ensures
        r@.len() == switch_entries(*switches).len(),
        forall|k: int|
            0 <= k < r@.len() ==> {
                &&& (#[trigger] r@[k]).rect == cell_rect_at(at_x as int, at_y as int, switch_grid(), k)
                &&& r@[k].code == switch_entries(*switches)[k].0
                &&& r@[k].color == switch_color(states@, r@[k].code)
                &&& r@[k].text@ == switch_text(r@[k].code, switch_entries(*switches)[k].1)
            },
{
    let grid = GridSpec { columns: SWITCH_COLUMNS, cell_w: SWITCH_WIDTH, cell_h: SWITCH_HEIGHT, margin: SWITCH_MARGIN };
    let n = switch_count(switches);
    let mut out: Vec<SwitchCell> = Vec::new();
    let mut k: usize = 0;
    while k < n
        invariant
            k <= n,
            n == switch_entries(*switches).len(),
            grid == switch_grid(),
            at_x + (SWITCH_COLUMNS - 1) * (SWITCH_WIDTH + SWITCH_MARGIN) <= u32::MAX,
            at_y + (n as int / SWITCH_COLUMNS as int) * (SWITCH_HEIGHT + SWITCH_MARGIN) <= u32::MAX,
            out@.len() == k,
            forall|j: int|
                0 <= j < k ==> {
                    &&& (#[trigger] out@[j]).rect == cell_rect_at(at_x as int, at_y as int, switch_grid(), j)
                    &&& out@[j].code == switch_entries(*switches)[j].0
                    &&& out@[j].color == switch_color(states@, out@[j].code)
                    &&& out@[j].text@ == switch_text(out@[j].code, switch_entries(*switches)[j].1)
                },
        decreases n - k,
    {
        proof {
            let kk = k as int;
            assert(kk % 5 <= 4);
            assert(kk / 5 <= n / 5) by (nonlinear_arith)
                requires 0 <= kk < n;
            assert((kk % 5) * 142 <= 4 * 142) by (nonlinear_arith)
                requires 0 <= kk % 5 <= 4;
            assert((kk / 5) * 22 <= (n / 5) * 22) by (nonlinear_arith)
                requires 0 <= kk / 5 <= n / 5;
        }
        let rect = cell_rect(at_x, at_y, &grid, k as u32);
        let code = match index_code_at(switches, k) {
            Some(c) => c,
            None => 0,
        };
        let label = match index_label_at(switches, k) {
            Some(l) => l,
            None => String::new(),
        };
        let color = match states.get(&code) {
            Some(true) => Rgb { r: 100, g: 40, b: 40 },
            Some(false) => Rgb { r: 40, g: 10, b: 10 },
            None => Rgb { r: 20, g: 20, b: 20 },
        };
        let mut text = decimal_string(code);
        proof {
            reveal_strlit(": ");
        }
        text.append(": ");
        text.append(label.as_str());
        out.push(SwitchCell { rect, color, code, text });
        k = k + 1;
    }
    out
}

} // verus!
