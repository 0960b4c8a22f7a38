use pinmame_tester::geometry::{cell_rect, ordinal_at, GridSpec, ScreenRect};
use pinmame_tester::grid::{DeviceGrid, LevelPolicy};
use pinmame_tester::panels::{device_cells, mech_bars, MechBar};
use pinmame_tester::state::MechInfo;
use pinmame_tester::display::Rgb;

fn lamp_grid(size: u32) -> GridSpec {
    GridSpec { columns: 20, cell_w: size, cell_h: size, margin: 1 }
}

fn switch_grid() -> GridSpec {
    GridSpec { columns: 5, cell_w: 140, cell_h: 20, margin: 2 }
}

#[test]
fn lamp_grid_round_trip() {
    let g = lamp_grid(8);
    for n in 1u32..=200 {
        let r = cell_rect(0, 0, &g, n - 1);
        assert_eq!(ordinal_at(r.x as i32, r.y as i32, &g, 200), Some((n - 1) as usize));
        assert_eq!(ordinal_at((r.x + 8) as i32, (r.y + 8) as i32, &g, 200), Some((n - 1) as usize));
    }
}

#[test]
fn switch_grid_round_trip() {
    let g = switch_grid();
    for n in 1u32..=60 {
        let r = cell_rect(0, 0, &g, n - 1);
        assert_eq!(ordinal_at(r.x as i32, r.y as i32, &g, 60), Some((n - 1) as usize));
    }
}

#[test]
fn forward_mapping_places_cells_row_by_row() {
    let g = lamp_grid(8);
    assert_eq!(cell_rect(0, 138, &g, 0), ScreenRect { x: 0, y: 138, w: 8, h: 8 });
    assert_eq!(cell_rect(0, 138, &g, 21), ScreenRect { x: 9, y: 147, w: 8, h: 8 });
    assert_eq!(cell_rect(300, 0, &g, 19), ScreenRect { x: 300 + 19 * 9, y: 0, w: 8, h: 8 });
    let s = switch_grid();
    assert_eq!(cell_rect(0, 0, &s, 7), ScreenRect { x: 284, y: 22, w: 140, h: 20 });
}

#[test]
fn hit_test_resolves_by_column_plus_row() {
    let g = switch_grid();
    assert_eq!(ordinal_at(-1, 0, &g, 10), None);
    assert_eq!(ordinal_at(0, -5, &g, 10), None);
    assert_eq!(ordinal_at(5 * 142, 0, &g, 10), Some(5));
    assert_eq!(ordinal_at(9 * 142, 0, &g, 10), Some(9));
    assert_eq!(ordinal_at(10 * 142, 0, &g, 10), None);
    assert_eq!(ordinal_at(0, 2 * 22, &g, 10), None);
    assert_eq!(ordinal_at(143, 23, &g, 10), Some(6));
}

#[test]
fn device_cells_skip_slot_zero() {
    let mut lamps = DeviceGrid::new(4);
    lamps.apply_deltas(&[(1, 255), (3, 128)]).unwrap();
    let cells = device_cells(0, 100, &lamps, 8, LevelPolicy::NonZero);
    assert_eq!(cells.len(), 3);
    assert_eq!(cells[0].rect, ScreenRect { x: 0, y: 100, w: 8, h: 8 });
    assert_eq!(cells[0].color, Rgb { r: 255, g: 255, b: 100 });
    assert_eq!(cells[1].color, Rgb { r: 20, g: 20, b: 10 });
    assert_eq!(cells[2].rect, ScreenRect { x: 18, y: 100, w: 8, h: 8 });
    assert_eq!(cells[2].color, Rgb { r: 255, g: 255, b: 100 });
    let strict = device_cells(0, 100, &lamps, 8, LevelPolicy::AtLeast(255));
    assert_eq!(strict[2].color, Rgb { r: 20, g: 20, b: 10 });
}

#[test]
fn device_cells_capped_at_panel_size() {
    let lamps = DeviceGrid::new(300);
    assert_eq!(device_cells(0, 0, &lamps, 8, LevelPolicy::NonZero).len(), 200);
    assert_eq!(device_cells(0, 0, &DeviceGrid::new(0), 8, LevelPolicy::NonZero).len(), 0);
}

#[test]
fn mech_bars_stack_downwards() {
    let mechs = [
        MechInfo { mech_type: 3, length: 240, steps: 240, pos: 10, speed: 0 },
        MechInfo { mech_type: 3, length: 100, steps: 100, pos: -4, speed: 0 },
    ];
    let bars = mech_bars(0, 238, &mechs);
    assert_eq!(
        bars,
        vec![
            MechBar {
                fill: ScreenRect { x: 0, y: 238, w: 20, h: 10 },
                outline: ScreenRect { x: 0, y: 238, w: 480, h: 10 },
            },
            MechBar {
                fill: ScreenRect { x: 0, y: 248, w: 0, h: 10 },
                outline: ScreenRect { x: 0, y: 248, w: 200, h: 10 },
            },
        ]
    );
}
