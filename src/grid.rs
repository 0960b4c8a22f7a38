use vstd::prelude::*;

use crate::error::HarnessError;

verus! {

/// Whether `id` names a device of a grid of `len` slots: devices are numbered
/// from 1 and slot 0 stays unused.
pub open spec fn id_in_range(id: i32, len: nat) -> bool {
    1 <= id && id < len
}

/// Whether every id of a changed-list names a device of a grid of `len` slots.
pub open spec fn deltas_in_range(changes: Seq<(i32, i32)>, len: nat) -> bool {
    forall|i: int| 0 <= i < changes.len() ==> id_in_range(#[trigger] changes[i].0, len)
}

/// The levels after writing each `(id, level)` of `changes`, first to last.
pub open spec fn applied(levels: Seq<i32>, changes: Seq<(i32, i32)>) -> Seq<i32>
    decreases changes.len(),
{
    if changes.len() == 0 {
        levels
    } else {
        applied(levels, changes.drop_last()).update(changes.last().0 as int, changes.last().1)
    }
}

/// The current level of each device of one class (lamps, solenoids), sized once
/// from the engine's reported maximum and indexed by device number.
pub struct DeviceGrid {
    levels: Vec<i32>,
}

impl View for DeviceGrid {
    type V = Seq<i32>;

    closed spec fn view(&self) -> Seq<i32> {
        self.levels@
    }
}

impl DeviceGrid {
    /// A grid of `size` slots, every device off.
    pub fn new(size: usize) -> (r: DeviceGrid)
        ensures
            r@ == Seq::new(size as nat, |i: int| 0i32),
    {
        let mut levels: Vec<i32> = Vec::new();
        let mut i: usize = 0;
        while i < size
            invariant
                i <= size,
                levels@ == Seq::new(i as nat, |k: int| 0i32),
            decreases size - i,
        {
            levels.push(0);
            i = i + 1;
        }
        DeviceGrid { levels }
    }

    /// Number of slots, slot 0 included.
    pub fn len(&self) -> (r: usize)
        ensures
            r == self@.len(),
    {
        self.levels.len()
    }

    /// The level of device `id`, if the grid has such a device.
    pub fn level(&self, id: i32) -> (r: Option<i32>)
        ensures
            r == (if id_in_range(id, self@.len()) {
                Some(self@[id as int])
            } else {
                None
            }),
    {
        if 1 <= id && (id as usize) < self.levels.len() {
            Some(self.levels[id as usize])
        } else {
            None
        }
    }

    /// The levels of all slots, slot 0 included.
    pub fn levels(&self) -> (r: &Vec<i32>)
        ensures
            r@ == self@,
    {
        &self.levels
    }

    /// Applies a changed-list in list order, so that a later entry for the same id
    /// wins. Levels are kept as given. When any id lies outside the grid nothing is
    /// written and the batch fails with `OutOfRange`.
    pub fn apply_deltas(&mut self, changes: &[(i32, i32)]) -> (r: Result<(), HarnessError>)
        ensures
            r is Ok <==> deltas_in_range(changes@, old(self)@.len()),
            r is Ok ==> final(self)@ == applied(old(self)@, changes@),
            r is Err ==> final(self)@ == old(self)@ && r == Err::<(), HarnessError>(
                HarnessError::OutOfRange,
            ),
    {
        let mut i: usize = 0;
        while i < changes.len()
            invariant
                i <= changes@.len(),
                deltas_in_range(changes@.subrange(0, i as int), self@.len()),
            decreases changes@.len() - i,
        {
            let id = changes[i].0;
            if !(1 <= id && (id as usize) < self.levels.len()) {
                assert(!id_in_range(changes@[i as int].0, self@.len()));
                return Err(HarnessError::OutOfRange);
            }
            assert(changes@.subrange(0, i + 1) == changes@.subrange(0, i as int).push(changes@[i as int]));
            i = i + 1;
        }
        assert(changes@.subrange(0, changes@.len() as int) == changes@);
        let ghost start = self@;
        let mut j: usize = 0;
        while j < changes.len()
            invariant
                j <= changes@.len(),
                deltas_in_range(changes@, start.len()),
                self@ == applied(start, changes@.subrange(0, j as int)),
                self@.len() == start.len(),
            decreases changes@.len() - j,
        {
            let (id, level) = changes[j];
            assert(id_in_range(changes@[j as int].0, start.len()));
            self.levels.set(id as usize, level);
            assert(changes@.subrange(0, j + 1).drop_last() == changes@.subrange(0, j as int));
            j = j + 1;
        }
        Ok(())
    }
}

proof fn lemma_applied_len(levels: Seq<i32>, changes: Seq<(i32, i32)>)
    requires
        deltas_in_range(changes, levels.len()),
    ensures
        applied(levels, changes).len() == levels.len(),
    decreases changes.len(),
{
    if changes.len() > 0 {
        let rest = changes.drop_last();
        assert(deltas_in_range(rest, levels.len())) by {
            assert forall|i: int| 0 <= i < rest.len() implies id_in_range(#[trigger] rest[i].0, levels.len()) by {
                assert(rest[i] == changes[i]);
            }
        }
        lemma_applied_len(levels, rest);
        assert(id_in_range(changes[changes.len() - 1].0, levels.len()));
    }
}

/// Within one batch the last entry for a device decides its level: when entry `j`
/// names `id` and no later entry does, the device ends at that entry's level.
pub proof fn lemma_last_write_wins(levels: Seq<i32>, changes: Seq<(i32, i32)>, id: i32, j: int)
    requires
        deltas_in_range(changes, levels.len()),
        0 <= j < changes.len(),
        changes[j].0 == id,
        forall|k: int| j < k < changes.len() ==> #[trigger] changes[k].0 != id,
    ensures
        applied(levels, changes)[id as int] == changes[j].1,
    decreases changes.len(),
{
    let rest = changes.drop_last();
    assert(deltas_in_range(rest, levels.len())) by {
        assert forall|i: int| 0 <= i < rest.len() implies id_in_range(#[trigger] rest[i].0, levels.len()) by {
            assert(rest[i] == changes[i]);
        }
    }
    lemma_applied_len(levels, rest);
    assert(id_in_range(changes[changes.len() - 1].0, levels.len()));
    if j < changes.len() - 1 {
        assert(changes[changes.len() - 1].0 != id);
        assert forall|k: int| j < k < rest.len() implies #[trigger] rest[k].0 != id by {
            assert(rest[k] == changes[k]);
        }
        lemma_last_write_wins(levels, rest, id, j);
    }
}

/// A device that no entry of the batch names keeps its level.
pub proof fn lemma_unnamed_device_keeps_level(levels: Seq<i32>, changes: Seq<(i32, i32)>, id: int)
    requires
        deltas_in_range(changes, levels.len()),
        0 <= id < levels.len(),
        forall|k: int| 0 <= k < changes.len() ==> #[trigger] changes[k].0 != id,
    ensures
        applied(levels, changes)[id] == levels[id],
    decreases changes.len(),
{
    if changes.len() > 0 {
        let rest = changes.drop_last();
        assert(deltas_in_range(rest, levels.len())) by {
            assert forall|i: int| 0 <= i < rest.len() implies id_in_range(#[trigger] rest[i].0, levels.len()) by {
                assert(rest[i] == changes[i]);
            }
        }
        assert forall|k: int| 0 <= k < rest.len() implies #[trigger] rest[k].0 != id by {
            assert(rest[k] == changes[k]);
        }
        lemma_applied_len(levels, rest);
        assert(changes[changes.len() - 1].0 != id);
        lemma_unnamed_device_keeps_level(levels, rest, id);
    }
}

/// Which levels a panel shows as lit. Levels between off and fully on stand for
/// intermediate brightness; the policy decides how they are shown.
#[derive(Clone, Copy, Debug, PartialEq, Eq, Structural)]
pub enum LevelPolicy {
    /// Any level other than 0 is lit.
    NonZero,
    /// Levels at or above the given threshold are lit.
    AtLeast(i32),
}

impl LevelPolicy {
    pub open spec fn spec_is_lit(self, level: i32) -> bool {
        match self {
            LevelPolicy::NonZero => level != 0,
            LevelPolicy::AtLeast(t) => level >= t,
        }
    }

    /// Whether a device at `level` is shown lit.
    pub fn is_lit(&self, level: i32) -> (r: bool)
        ensures
            r == self.spec_is_lit(level),
    {
        match self {
            LevelPolicy::NonZero => level != 0,
            LevelPolicy::AtLeast(t) => level >= *t,
        }
    }
}

/// Level a lamp reports when fully on.
pub const LAMP_FULL_LEVEL: i32 = 255;

/// Level a solenoid reports when fully on.
pub const SOLENOID_FULL_LEVEL: i32 = 1;

/// Whether a level is neither off nor the class's fully-on level.
pub fn is_intermediate_level(level: i32, full: i32) -> (r: bool)
    ensures
        r == (level != 0 && level != full),
{
    level != 0 && level != full
}

/// The entries an engine changed-list poll reports: the engine fills a buffer and
/// returns how many entries it wrote, -1 (any negative count) when nothing changed.
/// A count past the buffer is cut to the buffer's length.
pub open spec fn reported_changes(buffer: Seq<(i32, i32)>, count: i32) -> Seq<(i32, i32)> {
    if count < 0 {
        Seq::empty()
    } else if count >= buffer.len() {
        buffer
    } else {
        buffer.subrange(0, count as int)
    }
}

/// The changed-list in an engine poll buffer, given the count the engine returned.
pub fn changed_list(buffer: &[(i32, i32)], count: i32) -> (r: Vec<(i32, i32)>)
    ensures
        r@ == reported_changes(buffer@, count),
{
    let mut out: Vec<(i32, i32)> = Vec::new();
    if count < 0 {
        return out;
    }
    let n: usize = if count as usize >= buffer.len() {
        buffer.len()
    } else {
        count as usize
    };
    let mut i: usize = 0;
    while i < n
        invariant
            i <= n,
            n <= buffer@.len(),
            out@ == buffer@.subrange(0, i as int),
        decreases n - i,
    {
        out.push(buffer[i]);
        i = i + 1;
    }
    assert(buffer@.subrange(0, buffer@.len() as int) == buffer@);
    out
}

} // verus!
