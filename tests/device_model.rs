use pinmame_tester::error::HarnessError;
use pinmame_tester::grid::{changed_list, is_intermediate_level, DeviceGrid, LevelPolicy};
use pinmame_tester::state::{DeviceState, MechInfo};
use pinmame_tester::display::DisplayLayout;

fn mech(pos: i32) -> MechInfo {
    MechInfo { mech_type: 3, length: 240, steps: 240, pos, speed: 0 }
}

fn layout(width: u32, height: u32, depth: u32) -> DisplayLayout {
    DisplayLayout { display_type: 14, top: 0, left: 0, width, height, depth, length: 0 }
}

#[test]
fn later_delta_for_same_lamp_wins() {
    let mut grid = DeviceGrid::new(10);
    assert_eq!(grid.apply_deltas(&[(5, 0), (5, 1)]), Ok(()));
    assert_eq!(grid.level(5), Some(1));
}

#[test]
fn deltas_keep_intermediate_levels() {
    let mut grid = DeviceGrid::new(10);
    assert_eq!(grid.apply_deltas(&[(3, 128), (4, 255), (7, 1)]), Ok(()));
    assert_eq!(grid.level(3), Some(128));
    assert_eq!(grid.level(4), Some(255));
    assert_eq!(grid.level(7), Some(1));
    assert_eq!(grid.level(2), Some(0));
}

#[test]
fn lamp_id_equal_to_max_is_out_of_range() {
    let mut state = DeviceState::new(4);
    assert_eq!(state.size_grids(64, 32), Ok(()));
    assert_eq!(state.apply_lamp_deltas(&[(64, 255)]), Err(HarnessError::OutOfRange));
    assert_eq!(state.lamps.len(), 64);
    assert_eq!(state.lamps.level(63), Some(0));
}

#[test]
fn failed_batch_writes_nothing() {
    let mut grid = DeviceGrid::new(8);
    assert_eq!(grid.apply_deltas(&[(2, 255), (8, 255)]), Err(HarnessError::OutOfRange));
    assert_eq!(grid.level(2), Some(0));
    assert_eq!(grid.apply_deltas(&[(0, 255)]), Err(HarnessError::OutOfRange));
    assert_eq!(grid.apply_deltas(&[(-1, 255)]), Err(HarnessError::OutOfRange));
    assert_eq!(grid.levels(), &vec![0; 8]);
}

#[test]
fn solenoid_deltas_apply_in_order() {
    let mut state = DeviceState::new(0);
    assert_eq!(state.size_grids(4, 40), Ok(()));
    assert_eq!(state.apply_solenoid_deltas(&[(11, 1), (12, 1), (11, 0)]), Ok(()));
    assert_eq!(state.solenoids.level(11), Some(0));
    assert_eq!(state.solenoids.level(12), Some(1));
    assert_eq!(state.apply_solenoid_deltas(&[(40, 1)]), Err(HarnessError::OutOfRange));
}

#[test]
fn negative_maximum_is_protocol_violation() {
    let mut state = DeviceState::new(0);
    assert_eq!(state.size_grids(-1, 4), Err(HarnessError::ProtocolViolation));
    assert_eq!(state.lamps.len(), 0);
}

#[test]
fn level_policies() {
    assert!(LevelPolicy::NonZero.is_lit(1));
    assert!(!LevelPolicy::NonZero.is_lit(0));
    assert!(!LevelPolicy::AtLeast(128).is_lit(127));
    assert!(LevelPolicy::AtLeast(128).is_lit(255));
    assert!(is_intermediate_level(128, 255));
    assert!(!is_intermediate_level(255, 255));
    assert!(!is_intermediate_level(0, 1));
}

#[test]
fn mechs_are_added_in_order_and_updated_in_place() {
    let mut state = DeviceState::new(0);
    assert_eq!(state.add_mech(0, mech(0)), Ok(()));
    assert_eq!(state.add_mech(2, mech(5)), Err(HarnessError::ProtocolViolation));
    assert_eq!(state.add_mech(1, mech(7)), Ok(()));
    assert_eq!(state.update_mech(1, mech(9)), Ok(()));
    assert_eq!(state.mechs, vec![mech(0), mech(9)]);
    assert_eq!(state.update_mech(2, mech(1)), Err(HarnessError::OutOfRange));
    assert_eq!(state.update_mech(-1, mech(1)), Err(HarnessError::OutOfRange));
}

#[test]
fn display_layouts_upsert_by_index() {
    let mut state = DeviceState::new(0);
    state.set_display_layout(0, layout(128, 32, 2));
    state.set_display_layout(0, layout(128, 32, 4));
    state.set_display_layout(2, layout(16, 8, 2));
    state.set_display_layout(2, layout(16, 8, 2));
    assert_eq!(state.display_layout(0), Some(layout(128, 32, 4)));
    assert_eq!(state.display_layout(1), None);
    assert_eq!(state.display_layout(2), Some(layout(16, 8, 2)));
    assert_eq!(state.layouts.len(), 2);
}

#[test]
fn switches_set_get_and_toggle() {
    let mut state = DeviceState::new(0);
    assert_eq!(state.get_switch(16), None);
    assert!(state.toggle_switch(16));
    assert_eq!(state.get_switch(16), Some(true));
    assert!(!state.toggle_switch(16));
    state.set_switch(22, true);
    assert_eq!(state.get_switch(22), Some(true));
    state.set_switch(22, false);
    assert_eq!(state.get_switch(22), Some(false));
}

#[test]
fn keys_track_pressed_state() {
    let mut state = DeviceState::new(5);
    assert!(!state.is_key_pressed(3));
    assert_eq!(state.set_key(3, true), Ok(()));
    assert!(state.is_key_pressed(3));
    assert_eq!(state.set_key(5, true), Err(HarnessError::OutOfRange));
    assert!(!state.is_key_pressed(5));
    assert!(!state.is_key_pressed(-1));
}

#[test]
fn changed_list_from_poll_buffer() {
    let buf = [(3, 255), (4, 0), (0, 0), (0, 0)];
    assert_eq!(changed_list(&buf, 2), vec![(3, 255), (4, 0)]);
    assert_eq!(changed_list(&buf, -1), Vec::<(i32, i32)>::new());
    assert_eq!(changed_list(&buf, 0), Vec::<(i32, i32)>::new());
    assert_eq!(changed_list(&buf, 9), buf.to_vec());
}
