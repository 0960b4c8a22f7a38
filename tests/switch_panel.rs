use pinmame_tester::control::{on_mouse_button, panel_origins, MouseButton, Point};
use pinmame_tester::db::{mm_switch_table, mm_switches, t2_switch_table, t2_switches};
use pinmame_tester::display::{DisplayLayout, Rgb};
use pinmame_tester::geometry::ScreenRect;
use pinmame_tester::panels::switch_cells;
use pinmame_tester::state::DeviceState;
use pinmame_tester::switches::{switch_count, switch_id_for_mouse, switch_index_from};

fn three() -> pinmame_tester::switches::SwitchIndex {
    switch_index_from(&[(1, "COIN#1"), (5, "ESCAPE"), (11, "LAUNCH")])
}

#[test]
fn hit_resolves_ordinal_to_code() {
    let index = three();
    assert_eq!(switch_id_for_mouse(2 * 142 + 5, 5, &index), Some(11));
    assert_eq!(switch_id_for_mouse(142, 0, &index), Some(5));
    assert_eq!(switch_id_for_mouse(0, 0, &index), Some(1));
    assert_eq!(switch_id_for_mouse(3 * 142, 0, &index), None);
    assert_eq!(switch_id_for_mouse(0, 22, &index), None);
}

#[test]
fn point_right_of_last_column_follows_index_formula() {
    let index = switch_index_from(&[(1, "A"), (2, "B"), (3, "C"), (4, "D"), (5, "E"), (8, "F"), (9, "G")]);
    assert_eq!(switch_id_for_mouse(710, 0, &index), Some(8));
    assert_eq!(switch_id_for_mouse(852, 0, &index), Some(9));
    assert_eq!(switch_id_for_mouse(994, 0, &index), None);
}

#[test]
fn repeated_code_keeps_first_place() {
    let index = switch_index_from(&[(4, "A"), (9, "B"), (4, "C")]);
    assert_eq!(switch_count(&index), 2);
    assert_eq!(switch_id_for_mouse(0, 0, &index), Some(4));
    assert_eq!(switch_id_for_mouse(142, 0, &index), Some(9));
    let cells = switch_cells(0, 0, &index, &DeviceState::new(0).switches);
    assert_eq!(cells[0].text, "4: C");
}

#[test]
fn switch_cells_show_code_label_and_level() {
    let index = three();
    let mut state = DeviceState::new(0);
    state.set_switch(5, true);
    state.set_switch(11, false);
    let cells = switch_cells(0, 290, &index, &state.switches);
    assert_eq!(cells.len(), 3);
    assert_eq!(cells[0].text, "1: COIN#1");
    assert_eq!(cells[2].text, "11: LAUNCH");
    assert_eq!(cells[0].color, Rgb { r: 20, g: 20, b: 20 });
    assert_eq!(cells[1].color, Rgb { r: 100, g: 40, b: 40 });
    assert_eq!(cells[2].color, Rgb { r: 40, g: 10, b: 10 });
    assert_eq!(cells[2].rect, ScreenRect { x: 284, y: 290, w: 140, h: 20 });
    assert_eq!(cells[1].code, 5);
}

#[test]
fn game_tables() {
    assert_eq!(t2_switch_table().len(), 61);
    assert_eq!(mm_switch_table().len(), 59);
    let t2 = t2_switches();
    assert_eq!(switch_count(&t2), 61);
    assert_eq!(switch_id_for_mouse(0, 22, &t2), Some(6));
    assert_eq!(switch_id_for_mouse(0, 44, &t2), Some(11));
    let mm = mm_switches();
    assert_eq!(switch_count(&mm), 59);
    assert_eq!(switch_id_for_mouse(4 * 142, 3 * 22, &mm), Some(22));
}

#[test]
fn panels_stack_below_display() {
    let l = DisplayLayout { display_type: 14, top: 0, left: 0, width: 128, height: 32, depth: 2, length: 0 };
    let o = panel_origins(&l);
    assert_eq!(o.lamps, Point { x: 0, y: 138 });
    assert_eq!(o.solenoids, Point { x: 300, y: 138 });
    assert_eq!(o.mechs, Point { x: 0, y: 238 });
    assert_eq!(o.switches, Point { x: 0, y: 288 });
}

#[test]
fn mouse_buttons_drive_switches() {
    let index = three();
    let mut state = DeviceState::new(0);
    let (ox, oy) = (0u32, 288u32);
    assert_eq!(on_mouse_button(&mut state, 150, 300, ox, oy, MouseButton::Left, true, &index), Some((5, true)));
    assert_eq!(state.get_switch(5), Some(true));
    assert_eq!(on_mouse_button(&mut state, 150, 300, ox, oy, MouseButton::Left, false, &index), Some((5, false)));
    assert_eq!(state.get_switch(5), Some(false));
    assert_eq!(on_mouse_button(&mut state, 290, 300, ox, oy, MouseButton::Right, true, &index), Some((11, true)));
    assert_eq!(on_mouse_button(&mut state, 290, 300, ox, oy, MouseButton::Right, true, &index), Some((11, false)));
    assert_eq!(on_mouse_button(&mut state, 290, 300, ox, oy, MouseButton::Right, false, &index), None);
    assert_eq!(on_mouse_button(&mut state, 290, 300, ox, oy, MouseButton::Other, true, &index), None);
    assert_eq!(on_mouse_button(&mut state, 10, 10, ox, oy, MouseButton::Left, true, &index), None);
    assert_eq!(state.get_switch(1), None);
}
