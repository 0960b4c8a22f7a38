use vstd::prelude::*;

use crate::switches::{
    codes_increasing, lemma_increasing_pairs_kept, pair_entries, switch_entries, switch_index_from,
    SwitchIndex,
};

verus! {

/// Switch codes and labels of Terminator 2, in panel order.
pub open spec fn t2_pairs() -> Seq<(u32, &'static str)> {
    seq![
        (1u32, "COIN#1"),
        (2u32, "COIN#2"),
        (3u32, "COIN#3"),
        (4u32, "?"),
        (5u32, "ESCAPE"),
        (6u32, "-"),
        (7u32, "+"),
        (8u32, "ENTER"),
        (9u32, "?"),
        (10u32, "MENU / ENTER?"),
        (11u32, "RIGHT FLIPPER"),
        (12u32, "LEFT FLIPPER"),
        (13u32, "START BUTTON"),
        (14u32, "PLUMB BOB TILT"),
        (15u32, "TROUGH LEFT"),
        (16u32, "TROUGH CENTER"),
        (17u32, "TROUGH RIGHT"),
        (18u32, "OUTHOLE"),
        (21u32, "SLAM TILT"),
        (22u32, "COIN DOOR CLOSED"),
        (23u32, "TICKED OPTQ"),
        (25u32, "LEFT OUT LANE"),
        (26u32, "LEFT RET. LANE"),
        (27u32, "RIGHT RET. LANE"),
        (28u32, "RIGHT OUT LANE"),
        (31u32, "GUN LOADED"),
        (32u32, "GUN MARK"),
        (33u32, "GUN HOME"),
        (34u32, "GRIP TRIGGER"),
        (36u32, "STAND MID LEFT"),
        (37u32, "STAND MID CENTER"),
        (38u32, "STAND MID RIGHT"),
        (41u32, "LEFT JET"),
        (42u32, "RIGHT JET"),
        (43u32, "BOTTOM JET"),
        (44u32, "LEFT SLING"),
        (45u32, "RIGHT SLING"),
        (46u32, "STAND RIGHT TOP"),
        (47u32, "STAND RIGHT MID"),
        (48u32, "STAND RIGHT BOT"),
        (51u32, "LEFT LOCK"),
        (53u32, "LO ESCAPE ROUTE"),
        (54u32, "HI ESCAPE ROUTE"),
        (55u32, "TOP LOCK"),
        (56u32, "TOP LANE LEFT"),
        (57u32, "TOP LANE CENTER"),
        (58u32, "TOP LANE RIGHT"),
        (61u32, "LEFT RAMP ENTRY"),
        (62u32, "LEFT RAMP MADE"),
        (63u32, "RIGHT RAMP ENTRY"),
        (64u32, "RIGHT RAMP MADE"),
        (65u32, "LO CHASE LOOP"),
        (66u32, "HI CHASE LOOP"),
        (71u32, "TARGET 1 HI"),
        (72u32, "TARGET 2"),
        (73u32, "TARGET 3"),
        (74u32, "TARGET 4"),
        (75u32, "TARGET 5 LOW"),
        (76u32, "BALL POPPER"),
        (77u32, "DROP TARGET"),
        (78u32, "SHOOTER"),
    ]
}

/// The switch table of Terminator 2.
pub fn t2_switch_table() -> (r: Vec<(u32, &'static str)>)
    ensures
        r@ == t2_pairs(),
        r@.len() == 61,
        codes_increasing(r@),
{
    let r: Vec<(u32, &'static str)> = vec![
        (1, "COIN#1"),
        (2, "COIN#2"),
        (3, "COIN#3"),
        (4, "?"),
        (5, "ESCAPE"),
        (6, "-"),
        (7, "+"),
        (8, "ENTER"),
        (9, "?"),
        (10, "MENU / ENTER?"),
        (11, "RIGHT FLIPPER"),
        (12, "LEFT FLIPPER"),
        (13, "START BUTTON"),
        (14, "PLUMB BOB TILT"),
        (15, "TROUGH LEFT"),
        (16, "TROUGH CENTER"),
        (17, "TROUGH RIGHT"),
        (18, "OUTHOLE"),
        (21, "SLAM TILT"),
        (22, "COIN DOOR CLOSED"),
        (23, "TICKED OPTQ"),
        (25, "LEFT OUT LANE"),
        (26, "LEFT RET. LANE"),
        (27, "RIGHT RET. LANE"),
        (28, "RIGHT OUT LANE"),
        (31, "GUN LOADED"),
        (32, "GUN MARK"),
        (33, "GUN HOME"),
        (34, "GRIP TRIGGER"),
        (36, "STAND MID LEFT"),
        (37, "STAND MID CENTER"),
        (38, "STAND MID RIGHT"),
        (41, "LEFT JET"),
        (42, "RIGHT JET"),
        (43, "BOTTOM JET"),
        (44, "LEFT SLING"),
        (45, "RIGHT SLING"),
        (46, "STAND RIGHT TOP"),
        (47, "STAND RIGHT MID"),
        (48, "STAND RIGHT BOT"),
        (51, "LEFT LOCK"),
        (53, "LO ESCAPE ROUTE"),
        (54, "HI ESCAPE ROUTE"),
        (55, "TOP LOCK"),
        (56, "TOP LANE LEFT"),
        (57, "TOP LANE CENTER"),
        (58, "TOP LANE RIGHT"),
        (61, "LEFT RAMP ENTRY"),
        (62, "LEFT RAMP MADE"),
        (63, "RIGHT RAMP ENTRY"),
        (64, "RIGHT RAMP MADE"),
        (65, "LO CHASE LOOP"),
        (66, "HI CHASE LOOP"),
        (71, "TARGET 1 HI"),
        (72, "TARGET 2"),
        (73, "TARGET 3"),
        (74, "TARGET 4"),
        (75, "TARGET 5 LOW"),
        (76, "BALL POPPER"),
        (77, "DROP TARGET"),
        (78, "SHOOTER"),
    ];
    assert(r@ =~= t2_pairs());
    r
}

/// The switch index of Terminator 2: its table's entries, in table order.
pub fn t2_switches() -> (r: SwitchIndex)
    ensures
        switch_entries(r) == pair_entries(t2_pairs()),
{
    let table = t2_switch_table();
    let r = switch_index_from(table.as_slice());
    proof {
        lemma_increasing_pairs_kept(table@);
    }
    r
}

/// Switch codes and labels of Medieval Madness, in panel order.
pub open spec fn mm_pairs() -> Seq<(u32, &'static str)> {
    seq![
        (1u32, "COIN#1"),
        (2u32, "COIN#2"),
        (3u32, "COIN#3"),
        (4u32, "COIN#4"),
        (5u32, "ESCAPE"),
        (6u32, "-"),
        (7u32, "+"),
        (8u32, "ENTER"),
        (9u32, "?"),
        (10u32, "MENU / ENTER?"),
        (11u32, "LAUNCH BUTTON"),
        (12u32, "CATAPULT TARGET"),
        (13u32, "START BUTTON"),
        (14u32, "PLUMB BOB TILT"),
        (15u32, "L TROLL TARGET"),
        (16u32, "LEFT OUTLANE"),
        (17u32, "RIGHT RETURN"),
        (18u32, "SHOOTER LANE"),
        (21u32, "SLAM TILT"),
        (22u32, "COIN DOOR CLOSED"),
        (25u32, "R TROLL TARGET"),
        (26u32, "LEFT RETURN"),
        (27u32, "RIGHT OUTLANE"),
        (28u32, "RIGHT EJECT"),
        (31u32, "TROUGH EJECT"),
        (32u32, "TROUGH BALL 1"),
        (33u32, "TROUGH BALL 2"),
        (34u32, "TROUGH BALL 3"),
        (35u32, "TROUGH BALL 4"),
        (36u32, "LEFT POPPER"),
        (37u32, "CASTLE GATE"),
        (38u32, "CATAPULT"),
        (41u32, "MOAT ENTER"),
        (44u32, "CASTLE LOCK"),
        (45u32, "L TROLL (U/PLDF)"),
        (46u32, "R TROLL (U/PLDF)"),
        (47u32, "LEFT TOP LANE"),
        (48u32, "RIGHT TOP LANE"),
        (51u32, "LEFT SLINGSHOT"),
        (52u32, "RIGHT SLINGSHOT"),
        (53u32, "LEFT JET"),
        (54u32, "BOTTOM JET"),
        (55u32, "RIGHT JET"),
        (56u32, "DRAWBRIDGE UP"),
        (57u32, "DRAWBRIDGE DOWN"),
        (58u32, "TOWER EXIT"),
        (61u32, "L RAMP ENTER"),
        (62u32, "L RAMP EXIT"),
        (63u32, "R RAMP ENTER"),
        (64u32, "R RAMP EXIT"),
        (65u32, "LEFT LOOP LO"),
        (66u32, "LEFT LOOP HI"),
        (67u32, "RIGHT LOOP LO"),
        (68u32, "RIGHT LOOP HI"),
        (71u32, "RIGHT BANK TOP"),
        (72u32, "RIGHT BANK MID"),
        (73u32, "RIGHT BANK BOT"),
        (74u32, "L TROLL UP"),
        (75u32, "R TROLL UP"),
    ]
}

/// The switch table of Medieval Madness.
pub fn mm_switch_table() -> (r: Vec<(u32, &'static str)>)
    ensures
        r@ == mm_pairs(),
        r@.len() == 59,
        codes_increasing(r@),
{
    let r: Vec<(u32, &'static str)> = vec![
        (1, "COIN#1"),
        (2, "COIN#2"),
        (3, "COIN#3"),
        (4, "COIN#4"),
        (5, "ESCAPE"),
        (6, "-"),
        (7, "+"),
        (8, "ENTER"),
        (9, "?"),
        (10, "MENU / ENTER?"),
        (11, "LAUNCH BUTTON"),
        (12, "CATAPULT TARGET"),
        (13, "START BUTTON"),
        (14, "PLUMB BOB TILT"),
        (15, "L TROLL TARGET"),
        (16, "LEFT OUTLANE"),
        (17, "RIGHT RETURN"),
        (18, "SHOOTER LANE"),
        (21, "SLAM TILT"),
        (22, "COIN DOOR CLOSED"),
        (25, "R TROLL TARGET"),
        (26, "LEFT RETURN"),
        (27, "RIGHT OUTLANE"),
        (28, "RIGHT EJECT"),
        (31, "TROUGH EJECT"),
        (32, "TROUGH BALL 1"),
        (33, "TROUGH BALL 2"),
        (34, "TROUGH BALL 3"),
        (35, "TROUGH BALL 4"),
        (36, "LEFT POPPER"),
        (37, "CASTLE GATE"),
        (38, "CATAPULT"),
        (41, "MOAT ENTER"),
        (44, "CASTLE LOCK"),
        (45, "L TROLL (U/PLDF)"),
        (46, "R TROLL (U/PLDF)"),
        (47, "LEFT TOP LANE"),
        (48, "RIGHT TOP LANE"),
        (51, "LEFT SLINGSHOT"),
        (52, "RIGHT SLINGSHOT"),
        (53, "LEFT JET"),
        (54, "BOTTOM JET"),
        (55, "RIGHT JET"),
        (56, "DRAWBRIDGE UP"),
        (57, "DRAWBRIDGE DOWN"),
        (58, "TOWER EXIT"),
        (61, "L RAMP ENTER"),
        (62, "L RAMP EXIT"),
        (63, "R RAMP ENTER"),
        (64, "R RAMP EXIT"),
        (65, "LEFT LOOP LO"),
        (66, "LEFT LOOP HI"),
        (67, "RIGHT LOOP LO"),
        (68, "RIGHT LOOP HI"),
        (71, "RIGHT BANK TOP"),
        (72, "RIGHT BANK MID"),
        (73, "RIGHT BANK BOT"),
        (74, "L TROLL UP"),
        (75, "R TROLL UP"),
    ];
    assert(r@ =~= mm_pairs());
    r
}

/// The switch index of Medieval Madness: its table's entries, in table order.
pub fn mm_switches() -> (r: SwitchIndex)
    ensures
        switch_entries(r) == pair_entries(mm_pairs()),
{
    let table = mm_switch_table();
    let r = switch_index_from(table.as_slice());
    proof {
        lemma_increasing_pairs_kept(table@);
    }
    r
}

} // verus!
