use indexmap::IndexMap;

use vstd::prelude::*;

use crate::geometry::{ordinal_at, ordinal_at_point, switch_grid, GridSpec, SWITCH_COLUMNS, SWITCH_HEIGHT, SWITCH_MARGIN, SWITCH_WIDTH};

verus! {

#[verifier::external_type_specification]
#[verifier::external_body]
#[verifier::reject_recursive_types(K)]
#[verifier::reject_recursive_types(V)]
#[verifier::reject_recursive_types(S)]
pub struct ExIndexMap<K, V, S>(IndexMap<K, V, S>);

/// The fixed, ordered table of a game's meaningful switch codes and their labels.
pub type SwitchIndex = IndexMap<u32, String>;

/// The entries of a switch index, as (code, label) pairs in insertion order.
pub uninterp spec fn switch_entries(index: IndexMap<u32, String>) -> Seq<(u32, Seq<char>)>;

/// No code occurs twice among the entries.
pub open spec fn codes_unique(entries: Seq<(u32, Seq<char>)>) -> bool {
    forall|i: int, j: int|
        0 <= i < entries.len() && 0 <= j < entries.len() && i != j ==> #[trigger] entries[i].0
            != #[trigger] entries[j].0
}

/// Position of the last entry with code `code`, or -1 if there is none.
pub open spec fn position_of(entries: Seq<(u32, Seq<char>)>, code: u32) -> int
    decreases entries.len(),
{
    if entries.len() == 0 {
        -1
    } else if entries.last().0 == code {
        entries.len() - 1
    } else {
        position_of(entries.drop_last(), code)
    }
}

/// The entries after inserting `(code, label)`: a known code keeps its place and
/// takes the new label, a new code goes last.
pub open spec fn entries_after_insert(entries: Seq<(u32, Seq<char>)>, code: u32, label: Seq<char>) -> Seq<(u32, Seq<char>)> {
    if position_of(entries, code) >= 0 {
        entries.update(position_of(entries, code), (code, label))
    } else {
        entries.push((code, label))
    }
}

/// Relies on `IndexMap::new`: the map starts without entries.
#[verifier::external_body]
fn index_new() -> (r: SwitchIndex)
    ensures
        switch_entries(r) == Seq::<(u32, Seq<char>)>::empty(),
{
    IndexMap::new()
}

/// Relies on `IndexMap::insert`: an existing key keeps its place in the order and
/// takes the new value; a new key is inserted last. Keys stay unique.
#[verifier::external_body]
fn index_insert(index: &mut SwitchIndex, code: u32, label: String)
    ensures
        switch_entries(*final(index)) == entries_after_insert(switch_entries(*old(index)), code, label@),
        codes_unique(switch_entries(*final(index))),
{
    index.insert(code, label);
}

/// Relies on `IndexMap::len`: the number of entries.
#[verifier::external_body]
fn index_len(index: &SwitchIndex) -> (r: usize)
    ensures
        r == switch_entries(*index).len(),
{
    index.len()
}

/// Relies on `IndexMap::get_index`: the entry at a position, `None` past the end.
#[verifier::external_body]
pub(crate) fn index_code_at(index: &SwitchIndex, position: usize) -> (r: Option<u32>)
    ensures
        r == (if position < switch_entries(*index).len() {
            Some(switch_entries(*index)[position as int].0)
        } else {
            None
        }),
{
    index.get_index(position).map(|(code, _)| *code)
}

/// Relies on `IndexMap::get_index`: the entry at a position, `None` past the end.
#[verifier::external_body]
pub(crate) fn index_label_at(index: &SwitchIndex, position: usize) -> (r: Option<String>)
    ensures
        match r {
            Some(s) => position < switch_entries(*index).len() && s@ == switch_entries(
                *index,
            )[position as int].1,
            None => position >= switch_entries(*index).len(),
        },
{
    index.get_index(position).map(|(_, label)| label.clone())
}

/// The entries of an index built by inserting `pairs` first to last.
pub open spec fn built_entries(pairs: Seq<(u32, &str)>) -> Seq<(u32, Seq<char>)>
    decreases pairs.len(),
{
    if pairs.len() == 0 {
        Seq::empty()
    } else {
        entries_after_insert(built_entries(pairs.drop_last()), pairs.last().0, pairs.last().1@)
    }
}

/// Builds a switch index by inserting `pairs` in order; a repeated code keeps its
/// first place and takes its last label.
pub fn switch_index_from(pairs: &[(u32, &str)]) -> (r: SwitchIndex)
    ensures
        switch_entries(r) == built_entries(pairs@),
        codes_unique(switch_entries(r)),
{
    let mut index = index_new();
    let mut i: usize = 0;
    while i < pairs.len()
        invariant
            i <= pairs@.len(),
            switch_entries(index) == built_entries(pairs@.subrange(0, i as int)),
            codes_unique(switch_entries(index)),
        decreases pairs@.len() - i,
    {
        let (code, label) = pairs[i];
        index_insert(&mut index, code, label.to_owned());
        assert(pairs@.subrange(0, i + 1).drop_last() == pairs@.subrange(0, i as int));
        i = i + 1;
    }
    assert(pairs@.subrange(0, pairs@.len() as int) == pairs@);
    index
}

/// Number of switches in an index.
pub fn switch_count(index: &SwitchIndex) -> (r: usize)
    ensures
        r == switch_entries(*index).len(),
{
    index_len(index)
}

/// The switch under a mouse point given relative to the switch panel's origin:
/// the point picks a cell position (column plus row times five), and the code is the one at that position in
/// the index's order, not the position itself. `None` when the position is not
/// below the number of switches, or the point lies left of or above the panel.
pub fn switch_id_for_mouse(x: i32, y: i32, switches: &SwitchIndex) -> (r: Option<u32>)
    ensures
        r == (match ordinal_at_point(x as int, y as int, switch_grid(), switch_entries(*switches).len() as int) {
            Some(k) => Some(switch_entries(*switches)[k].0),
            None => None,
        }),
{
    let grid = GridSpec { columns: SWITCH_COLUMNS, cell_w: SWITCH_WIDTH, cell_h: SWITCH_HEIGHT, margin: SWITCH_MARGIN };
    let count = index_len(switches);
    match ordinal_at(x, y, &grid, count) {
        Some(k) => index_code_at(switches, k),
        None => None,
    }
}

/// The codes of `pairs` strictly increase from first to last.
pub open spec fn codes_increasing(pairs: Seq<(u32, &str)>) -> bool {
    forall|i: int| 0 <= i < pairs.len() - 1 ==> #[trigger] pairs[i].0 < pairs[i + 1].0
}

/// `pairs` as entries of an index.
pub open spec fn pair_entries(pairs: Seq<(u32, &str)>) -> Seq<(u32, Seq<char>)> {
    Seq::new(pairs.len(), |i: int| (pairs[i].0, pairs[i].1@))
}

proof fn lemma_position_absent(entries: Seq<(u32, Seq<char>)>, code: u32)
    requires
        forall|i: int| 0 <= i < entries.len() ==> #[trigger] entries[i].0 != code,
    ensures
        position_of(entries, code) == -1,
    decreases entries.len(),
{
    if entries.len() > 0 {
        let rest = entries.drop_last();
        assert forall|i: int| 0 <= i < rest.len() implies #[trigger] rest[i].0 != code by {
            assert(rest[i] == entries[i]);
        }
        assert(entries[entries.len() - 1].0 != code);
        lemma_position_absent(rest, code);
    }
}

/// Inserting pairs whose codes strictly increase keeps every pair, in order.
pub proof fn lemma_increasing_pairs_kept(pairs: Seq<(u32, &str)>)
    requires
        codes_increasing(pairs),
    ensures
        built_entries(pairs) == pair_entries(pairs),
    decreases pairs.len(),
{
    if pairs.len() > 0 {
        let rest = pairs.drop_last();
        assert(codes_increasing(rest)) by {
            assert forall|i: int| 0 <= i < rest.len() - 1 implies #[trigger] rest[i].0 < rest[i + 1].0 by {
                assert(rest[i] == pairs[i]);
                assert(rest[i + 1] == pairs[i + 1]);
            }
        }
        lemma_increasing_pairs_kept(rest);
        let last = pairs.last().0;
        assert forall|i: int| 0 <= i < rest.len() implies #[trigger] pairs[i].0 < last by {
            lemma_increasing_below(pairs, i);
        }
        let before = pair_entries(rest);
        assert forall|i: int| 0 <= i < before.len() implies #[trigger] before[i].0 != last by {
            assert(before[i].0 == pairs[i].0);
        }
        lemma_position_absent(before, last);
        assert(before.push((last, pairs.last().1@)) == pair_entries(pairs));
    }
}

proof fn lemma_increasing_below(pairs: Seq<(u32, &str)>, i: int)
    requires
        codes_increasing(pairs),
        0 <= i < pairs.len() - 1,
    ensures
        pairs[i].0 < pairs[pairs.len() - 1].0,
    decreases pairs.len() - 1 - i,
{
    if i < pairs.len() - 2 {
        lemma_increasing_below(pairs, i + 1);
    }
}

} // verus!
