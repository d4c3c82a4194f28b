//! Edges in the levels that a pin is seen at, one level per poll.
use vstd::prelude::*;

verus! {

/// The level last seen: that of the last poll or, before the first, `before`.
pub open spec fn level_after(levels: Seq<bool>, before: bool) -> bool {
    if levels.len() == 0 {
        before
    } else {
        levels.last()
    }
}

/// How often a poll finds the level set that was clear one poll earlier, where
/// the level before the first poll is `before`.
pub open spec fn rises(levels: Seq<bool>, before: bool) -> nat
    decreases levels.len(),
{
    if levels.len() == 0 {
        0
    } else {
        let earlier = levels.drop_last();
        let rise: nat = if levels.last() && !level_after(earlier, before) {
            1
        } else {
            0
        };
        rises(earlier, before) + rise
    }
}

/// A poll adds one to the count exactly where it finds the level set and the poll
/// before found it clear.
pub proof fn law_each_rise_counts_once(levels: Seq<bool>, before: bool, level: bool)
    ensures
        rises(Seq::empty(), before) == 0,
        rises(levels.push(level), before) - rises(levels, before) == if level && !(if levels.len()
            == 0 {
            before
        } else {
            levels[levels.len() - 1]
        }) {
            1int
        } else {
            0int
        },
        level_after(levels.push(level), before) == level,
{
    assert(levels.push(level).drop_last() == levels);
}

/// A level that never changes has no edge: nothing repeats while a button is
/// held, nor while it is left alone.
pub proof fn law_steady_level_has_no_edge(levels: Seq<bool>, before: bool)
    requires
        forall|i: int| 0 <= i < levels.len() ==> levels[i] == before,
    ensures
        rises(levels, before) == 0,
    decreases levels.len(),
{
    if levels.len() > 0 {
        law_steady_level_has_no_edge(levels.drop_last(), before);
    }
}

} // verus!
