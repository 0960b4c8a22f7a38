use std::collections::HashMap;

use vstd::prelude::*;

use crate::display::DisplayLayout;
use crate::error::HarnessError;
use crate::grid::{applied, deltas_in_range, DeviceGrid};

verus! {

broadcast use vstd::std_specs::hash::group_hash_axioms;

/// One simulated mechanism as the engine reports it.
#[derive(Clone, Copy, Debug, PartialEq, Eq, Structural)]
pub struct MechInfo {
    /// Type flags.
    pub mech_type: i32,
    /// Travel length.
    pub length: i32,
    /// Step count.
    pub steps: i32,
    /// Current position.
    pub pos: i32,
    pub speed: i32,
}

/// The harness's picture of the machine: display layouts, lamp and solenoid
/// levels, mechanisms, the operator's switch levels and the pressed keys.
pub struct DeviceState {
    /// Display layouts by display index.
    pub layouts: HashMap<usize, DisplayLayout>,
    pub lamps: DeviceGrid,
    pub solenoids: DeviceGrid,
    /// Mechanisms by the index the engine assigned.
    pub mechs: Vec<MechInfo>,
    /// Level of each switch the operator has set, by switch code.
    pub switches: HashMap<u32, bool>,
    /// Whether each engine key code is held down.
    pub keys: Vec<bool>,
}

impl DeviceState {
    /// An empty model that tracks `key_count` key codes, none pressed.
    pub fn new(key_count: usize) -> (r: DeviceState)
        ensures
            r.layouts@ == Map::<usize, DisplayLayout>::empty(),
            r.lamps@.len() == 0,
            r.solenoids@.len() == 0,
            r.mechs@.len() == 0,
            r.switches@ == Map::<u32, bool>::empty(),
            r.keys@ == Seq::new(key_count as nat, |i: int| false),
    {
        let mut keys: Vec<bool> = Vec::new();
        let mut i: usize = 0;
        while i < key_count
            invariant
                i <= key_count,
                keys@ == Seq::new(i as nat, |k: int| false),
            decreases key_count - i,
        {
            keys.push(false);
            i = i + 1;
        }
        DeviceState {
            layouts: HashMap::new(),
            lamps: DeviceGrid::new(0),
            solenoids: DeviceGrid::new(0),
            mechs: Vec::new(),
            switches: HashMap::new(),
            keys,
        }
    }

    /// Records the layout of display `index`, replacing any layout it had; other
    /// displays keep theirs. Recording the same layout again changes nothing.
    pub fn set_display_layout(&mut self, index: usize, layout: DisplayLayout)
        ensures
            final(self).layouts@ == old(self).layouts@.insert(index, layout),
            final(self).lamps@ == old(self).lamps@,
            final(self).solenoids@ == old(self).solenoids@,
            final(self).mechs@ == old(self).mechs@,
            final(self).switches@ == old(self).switches@,
            final(self).keys@ == old(self).keys@,
    {
        self.layouts.insert(index, layout);
    }

    /// The layout of display `index`, if it has been announced.
    pub fn display_layout(&self, index: usize) -> (r: Option<DisplayLayout>)
        ensures
            r == (if self.layouts@.contains_key(index) {
                Some(self.layouts@[index])
            } else {
                None
            }),
    {
        match self.layouts.get(&index) {
            Some(l) => Some(*l),
            None => None,
        }
    }

    /// Sizes the lamp and solenoid grids from the engine's reported maxima, every
    /// device off. A negative maximum is a protocol violation and changes nothing.
    pub fn size_grids(&mut self, max_lamps: i32, max_solenoids: i32) -> (r: Result<(), HarnessError>)
        ensures
            r is Ok <==> max_lamps >= 0 && max_solenoids >= 0,
            r is Ok ==> final(self).lamps@ == Seq::new(max_lamps as nat, |i: int| 0i32)
                && final(self).solenoids@ == Seq::new(max_solenoids as nat, |i: int| 0i32),
            r is Err ==> r == Err::<(), HarnessError>(HarnessError::ProtocolViolation)
                && final(self).lamps@ == old(self).lamps@ && final(self).solenoids@ == old(self).solenoids@,
            final(self).layouts@ == old(self).layouts@,
            final(self).mechs@ == old(self).mechs@,
            final(self).switches@ == old(self).switches@,
            final(self).keys@ == old(self).keys@,
    {
        if max_lamps < 0 || max_solenoids < 0 {
            return Err(HarnessError::ProtocolViolation);
        }
        self.lamps = DeviceGrid::new(max_lamps as usize);
        self.solenoids = DeviceGrid::new(max_solenoids as usize);
        Ok(())
    }

    /// Applies a polled changed-list of lamps; see [`DeviceGrid::apply_deltas`].
    pub fn apply_lamp_deltas(&mut self, changes: &[(i32, i32)]) -> (r: Result<(), HarnessError>)
        ensures
            r is Ok <==> deltas_in_range(changes@, old(self).lamps@.len()),
            r is Ok ==> final(self).lamps@ == applied(old(self).lamps@, changes@),
            r is Err ==> r == Err::<(), HarnessError>(HarnessError::OutOfRange)
                && final(self).lamps@ == old(self).lamps@,
            final(self).layouts@ == old(self).layouts@,
            final(self).solenoids@ == old(self).solenoids@,
            final(self).mechs@ == old(self).mechs@,
            final(self).switches@ == old(self).switches@,
            final(self).keys@ == old(self).keys@,
    {
        self.lamps.apply_deltas(changes)
    }

    /// Applies a polled changed-list of solenoids; see [`DeviceGrid::apply_deltas`].
    pub fn apply_solenoid_deltas(&mut self, changes: &[(i32, i32)]) -> (r: Result<(), HarnessError>)
        ensures
            r is Ok <==> deltas_in_range(changes@, old(self).solenoids@.len()),
            r is Ok ==> final(self).solenoids@ == applied(old(self).solenoids@, changes@),
            r is Err ==> r == Err::<(), HarnessError>(HarnessError::OutOfRange)
                && final(self).solenoids@ == old(self).solenoids@,
            final(self).layouts@ == old(self).layouts@,
            final(self).lamps@ == old(self).lamps@,
            final(self).mechs@ == old(self).mechs@,
            final(self).switches@ == old(self).switches@,
            final(self).keys@ == old(self).keys@,
    {
        self.solenoids.apply_deltas(changes)
    }

    /// Records a newly available mechanism. The engine numbers mechanisms in
    /// order, so `index` must equal the number already known; any other index is
    /// a protocol violation and changes nothing.
    pub fn add_mech(&mut self, index: i32, info: MechInfo) -> (r: Result<(), HarnessError>)
        ensures
            r is Ok <==> index == old(self).mechs@.len(),
            r is Ok ==> final(self).mechs@ == old(self).mechs@.push(info),
            r is Err ==> r == Err::<(), HarnessError>(HarnessError::ProtocolViolation)
                && final(self).mechs@ == old(self).mechs@,
            final(self).layouts@ == old(self).layouts@,
            final(self).lamps@ == old(self).lamps@,
            final(self).solenoids@ == old(self).solenoids@,
            final(self).switches@ == old(self).switches@,
            final(self).keys@ == old(self).keys@,
    {
        if index >= 0 && index as usize == self.mechs.len() {
            self.mechs.push(info);
            Ok(())
        } else {
            Err(HarnessError::ProtocolViolation)
        }
    }

    /// Replaces the record of mechanism `index`; fails with `OutOfRange` when no
    /// such mechanism is known.
    pub fn update_mech(&mut self, index: i32, info: MechInfo) -> (r: Result<(), HarnessError>)
        ensures
            r is Ok <==> 0 <= index < old(self).mechs@.len(),
            r is Ok ==> final(self).mechs@ == old(self).mechs@.update(index as int, info),
            r is Err ==> r == Err::<(), HarnessError>(HarnessError::OutOfRange)
                && final(self).mechs@ == old(self).mechs@,
            final(self).layouts@ == old(self).layouts@,
            final(self).lamps@ == old(self).lamps@,
            final(self).solenoids@ == old(self).solenoids@,
            final(self).switches@ == old(self).switches@,
            final(self).keys@ == old(self).keys@,
    {
        if index >= 0 && (index as usize) < self.mechs.len() {
            self.mechs.set(index as usize, info);
            Ok(())
        } else {
            Err(HarnessError::OutOfRange)
        }
    }

    /// Sets the level of switch `code`.
    pub fn set_switch(&mut self, code: u32, on: bool)
        ensures
            final(self).switches@ == old(self).switches@.insert(code, on),
            final(self).layouts@ == old(self).layouts@,
            final(self).lamps@ == old(self).lamps@,
            final(self).solenoids@ == old(self).solenoids@,
            final(self).mechs@ == old(self).mechs@,
            final(self).keys@ == old(self).keys@,
    {
        self.switches.insert(code, on);
    }

    /// The level of switch `code`, if the operator has set it.
    pub fn get_switch(&self, code: u32) -> (r: Option<bool>)
        ensures
            r == (if self.switches@.contains_key(code) {
                Some(self.switches@[code])
            } else {
                None
            }),
    {
        match self.switches.get(&code) {
            Some(v) => Some(*v),
            None => None,
        }
    }

    /// Flips switch `code`, a switch never set counting as off, and returns its new level.
    pub fn toggle_switch(&mut self, code: u32) -> (r: bool)
        ensures
            r == !(old(self).switches@.contains_key(code) && old(self).switches@[code]),
            final(self).switches@ == old(self).switches@.insert(code, r),
            final(self).layouts@ == old(self).layouts@,
            final(self).lamps@ == old(self).lamps@,
            final(self).solenoids@ == old(self).solenoids@,
            final(self).mechs@ == old(self).mechs@,
            final(self).keys@ == old(self).keys@,
    {
        let on = match self.get_switch(code) {
            Some(v) => !v,
            None => true,
        };
        self.set_switch(code, on);
        on
    }

    /// Records whether key `code` is held down; fails with `OutOfRange` for a code
    /// the model does not track.
    pub fn set_key(&mut self, code: usize, pressed: bool) -> (r: Result<(), HarnessError>)
        ensures
            r is Ok <==> code < old(self).keys@.len(),
            r is Ok ==> final(self).keys@ == old(self).keys@.update(code as int, pressed),
            r is Err ==> r == Err::<(), HarnessError>(HarnessError::OutOfRange)
                && final(self).keys@ == old(self).keys@,
            final(self).layouts@ == old(self).layouts@,
            final(self).lamps@ == old(self).lamps@,
            final(self).solenoids@ == old(self).solenoids@,
            final(self).mechs@ == old(self).mechs@,
            final(self).switches@ == old(self).switches@,
    {
        if code < self.keys.len() {
            self.keys.set(code, pressed);
            Ok(())
        } else {
            Err(HarnessError::OutOfRange)
        }
    }

    /// Whether key `code` is held down; a code the model does not track is not.
    pub fn is_key_pressed(&self, code: i32) -> (r: bool)
        ensures
            r == (0 <= code < self.keys@.len() && self.keys@[code as int]),
    {
        if code >= 0 && (code as usize) < self.keys.len() {
            self.keys[code as usize]
        } else {
            false
        }
    }
}

/// Recording a display's layout is idempotent: recording the same layout for the
/// same index a second time leaves the layouts as the first time did.
pub proof fn lemma_layout_upsert_idempotent(
    layouts: Map<usize, DisplayLayout>,
    index: usize,
    layout: DisplayLayout,
)
    ensures
        layouts.insert(index, layout).insert(index, layout) == layouts.insert(index, layout),
        layouts.insert(index, layout)[index] == layout,
{
    assert(layouts.insert(index, layout).insert(index, layout) =~= layouts.insert(index, layout));
}

} // verus!
