use vstd::prelude::*;

use crate::display::{DisplayLayout, PIXEL_SIZE};
use crate::geometry::{ordinal_at_point, switch_grid};
use crate::state::DeviceState;
use crate::switches::{switch_entries, switch_id_for_mouse, SwitchIndex};

verus! {

/// A screen position.
#[derive(Clone, Copy, Debug, PartialEq, Eq, Structural)]
pub struct Point {
    pub x: u32,
    pub y: u32,
}

/// Where each panel of the tester window is drawn.
#[derive(Clone, Copy, Debug, PartialEq, Eq, Structural)]
pub struct PanelOrigins {
    pub lamps: Point,
    pub solenoids: Point,
    pub mechs: Point,
    pub switches: Point,
}

/// Horizontal position of the solenoid panel.
pub const SOLENOID_PANEL_X: u32 = 300;

/// Vertical gap between the display and the lamp and solenoid panels.
pub const DEVICE_PANEL_GAP: u32 = 10;

/// Height reserved for the lamp and solenoid panels.
pub const DEVICE_PANEL_HEIGHT: u32 = 100;

/// Height reserved for the mechanism bars.
pub const MECH_PANEL_HEIGHT: u32 = 50;

/// The panels stacked below a display of height `h` screen pixels.
pub open spec fn origins_below(h: int) -> PanelOrigins {
    PanelOrigins {
        lamps: Point { x: 0, y: (h + DEVICE_PANEL_GAP) as u32 },
        solenoids: Point { x: SOLENOID_PANEL_X, y: (h + DEVICE_PANEL_GAP) as u32 },
        mechs: Point { x: 0, y: (h + DEVICE_PANEL_GAP + DEVICE_PANEL_HEIGHT) as u32 },
        switches: Point { x: 0, y: (h + DEVICE_PANEL_GAP + DEVICE_PANEL_HEIGHT + MECH_PANEL_HEIGHT) as u32 },
    }
}

/// Stacks the lamp and solenoid panels, then the mechanism bars, then the switch
/// panel, below the rendered display.
pub fn panel_origins(layout: &DisplayLayout) -> (r: PanelOrigins)
    requires
        layout.height * (PIXEL_SIZE + 1) + DEVICE_PANEL_GAP + DEVICE_PANEL_HEIGHT + MECH_PANEL_HEIGHT <= u32::MAX,
    ensures
        r == origins_below(layout.height * (PIXEL_SIZE + 1)),
{
    let h = layout.height * (PIXEL_SIZE + 1);
    PanelOrigins {
        lamps: Point { x: 0, y: h + DEVICE_PANEL_GAP },
        solenoids: Point { x: SOLENOID_PANEL_X, y: h + DEVICE_PANEL_GAP },
        mechs: Point { x: 0, y: h + DEVICE_PANEL_GAP + DEVICE_PANEL_HEIGHT },
        switches: Point { x: 0, y: h + DEVICE_PANEL_GAP + DEVICE_PANEL_HEIGHT + MECH_PANEL_HEIGHT },
    }
}

/// Mouse buttons as the switch panel sees them.
#[derive(Clone, Copy, Debug, PartialEq, Eq, Structural)]
pub enum MouseButton {
    Left,
    Right,
    Other,
}

/// The switch under a screen point, for a switch panel with origin (`ox`, `oy`).
pub open spec fn switch_under(x: int, y: int, ox: int, oy: int, entries: Seq<(u32, Seq<char>)>) -> Option<u32> {
    match ordinal_at_point(x - ox, y - oy, switch_grid(), entries.len() as int) {
        Some(k) => Some(entries[k].0),
        None => None,
    }
}

/// Handles a mouse button going down (`down`) or up at a screen point over the
/// switch panel whose origin is (`ox`, `oy`). The left button holds a switch on
/// while pressed; the right button toggles it on press. Returns the switch and
/// the level to push to the engine, or `None` when the event touches no switch.
/// A point whose panel-relative position falls outside the `i32` range hits nothing.
pub fn on_mouse_button(
    state: &mut DeviceState,
    x: i32,
    y: i32,
    ox: u32,
    oy: u32,
    button: MouseButton,
    down: bool,
    switches: &SwitchIndex,
) -> (r: Option<(u32, bool)>)
    ensures
        ({
            let rel_x = x - ox;
            let rel_y = y - oy;
            let fits = i32::MIN <= rel_x <= i32::MAX && i32::MIN <= rel_y <= i32::MAX;
            let hit = if fits {
                switch_under(x as int, y as int, ox as int, oy as int, switch_entries(*switches))
            } else {
                None
            };
            let old_on = |code: u32| old(state).switches@.contains_key(code) && old(state).switches@[code];
            &&& r == (match hit {
                Some(code) => match (button, down) {
                    (MouseButton::Left, true) => Some((code, true)),
                    (MouseButton::Right, true) => Some((code, !old_on(code))),
                    (MouseButton::Left, false) => Some((code, false)),
                    _ => None,
                },
                None => None,
            })
            &&& final(state).switches@ == (match r {
                Some((code, on)) => old(state).switches@.insert(code, on),
                None => old(state).switches@,
            })
        }),
        final(state).layouts@ == old(state).layouts@,
        final(state).lamps@ == old(state).lamps@,
        final(state).solenoids@ == old(state).solenoids@,
        final(state).mechs@ == old(state).mechs@,
        final(state).keys@ == old(state).keys@,
{
    let rel_x = x as i64 - ox as i64;
    let rel_y = y as i64 - oy as i64;
    if rel_x < i32::MIN as i64 || rel_x > i32::MAX as i64 || rel_y < i32::MIN as i64 || rel_y > i32::MAX as i64 {
        return None;
    }
    let code = match switch_id_for_mouse(rel_x as i32, rel_y as i32, switches) {
        Some(c) => c,
        None => {
            return None;
        },
    };
    match (button, down) {
        (MouseButton::Left, true) => {
            state.set_switch(code, true);
            Some((code, true))
        },
        (MouseButton::Right, true) => {
            let on = state.toggle_switch(code);
            Some((code, on))
        },
        (MouseButton::Left, false) => {
            state.set_switch(code, false);
            Some((code, false))
        },
        _ => None,
    }
}

/// What the harness does when the engine reports a new run state.
#[derive(Clone, Copy, Debug, PartialEq, Eq, Structural)]
pub enum StateAction {
    /// The engine has stopped for good: end the process with a failure status.
    Exit,
    /// The engine runs: hand it the simulated mechanism's configuration.
    ConfigureMech,
}

/// The reaction to an engine run-state report: state 0 is unrecoverable.
pub fn state_action(state: i32) -> (r: StateAction)
    ensures
        r == (if state == 0 {
            StateAction::Exit
        } else {
            StateAction::ConfigureMech
        }),
{
    if state == 0 {
        StateAction::Exit
    } else {
        StateAction::ConfigureMech
    }
}

/// Mechanism type flag: position follows a non-linear curve.
pub const MECH_FLAG_NONLINEAR: i32 = 1;

/// Mechanism type flag: travel runs in reverse.
pub const MECH_FLAG_REVERSE: i32 = 4;

/// Mechanism type flag: driven by one solenoid.
pub const MECH_FLAG_ONESOL: i32 = 0;

/// A switch that a simulated mechanism closes over part of its travel.
#[derive(Clone, Copy, Debug, PartialEq, Eq, Structural)]
pub struct MechSwitchConfig {
    pub switch_no: i32,
    pub start_pos: i32,
    pub end_pos: i32,
    pub pulse: i32,
}

/// Configuration of a mechanism the harness asks the engine to simulate.
pub struct MechConfig {
    pub mech_type: i32,
    pub sol1: i32,
    pub sol2: i32,
    pub length: i32,
    pub steps: i32,
    pub initial_pos: i32,
    pub acc: i32,
    pub ret: i32,
    pub switches: Vec<MechSwitchConfig>,
}

/// Number of switch slots of a mechanism configuration.
pub const MECH_SWITCH_SLOTS: usize = 20;

/// The mechanism the harness simulates once the engine runs: driven by solenoid
/// 11 over 240 steps, closing switch 32 over positions 0 to 5.
pub fn default_mech_config() -> (r: MechConfig)
    ensures
        r.mech_type == MECH_FLAG_NONLINEAR | MECH_FLAG_REVERSE | MECH_FLAG_ONESOL,
        r.sol1 == 11 && r.sol2 == 0,
        r.length == 240 && r.steps == 240,
        r.initial_pos == 0 && r.acc == 0 && r.ret == 0,
        r.switches@ == Seq::new(
            MECH_SWITCH_SLOTS as nat,
            |i: int| (MechSwitchConfig { switch_no: 32, start_pos: 0, end_pos: 5, pulse: 0 }),
        ),
{
    let mut switches: Vec<MechSwitchConfig> = Vec::new();
    let mut i: usize = 0;
    while i < MECH_SWITCH_SLOTS
        invariant
            i <= MECH_SWITCH_SLOTS,
            switches@ == Seq::new(
                i as nat,
                |k: int| (MechSwitchConfig { switch_no: 32, start_pos: 0, end_pos: 5, pulse: 0 }),
            ),
        decreases MECH_SWITCH_SLOTS - i,
    {
        switches.push(MechSwitchConfig { switch_no: 32, start_pos: 0, end_pos: 5, pulse: 0 });
        i = i + 1;
    }
    MechConfig {
        mech_type: MECH_FLAG_NONLINEAR | MECH_FLAG_REVERSE | MECH_FLAG_ONESOL,
        sol1: 11,
        sol2: 0,
        length: 240,
        steps: 240,
        initial_pos: 0,
        acc: 0,
        ret: 0,
        switches,
    }
}

} // verus!
