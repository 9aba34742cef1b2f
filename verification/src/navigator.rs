//! Index navigation: where a step in some direction leads, with both ends
//! of the collection acting as walls.

use vstd::prelude::*;

verus! {

/// A step through the collection.
#[derive(Debug, Clone, Copy, PartialEq, Eq, Structural)]
pub enum Direction {
    Left,
    Right,
    Stay,
    First,
    Last,
}

/// The index reached from `idx` by one step `d` in a collection of `len`
/// items. Stepping off either end stays where it is.
pub open spec fn next_index(idx: int, len: int, d: Direction) -> int {
    match d {
        Direction::Stay => idx,
        Direction::Left => if idx > 0 {
            idx - 1
        } else {
            idx
        },
        Direction::Right => if idx < len - 1 {
            idx + 1
        } else {
            idx
        },
        Direction::First => 0,
        Direction::Last => len - 1,
    }
}

/// Moves `idx` one step in direction `d` inside a collection of `len`
/// items. A step that would leave the collection is no step at all.
pub fn get_next_idx(idx: usize, len: usize, d: Direction) -> (next: usize)
    requires
        len > 0,
    ensures
        next == next_index(idx as int, len as int, d),
        idx < len ==> next < len,
{
    match d {
        Direction::Stay => idx,
        Direction::Left => if idx > 0 {
            idx - 1
        } else {
            idx
        },
        Direction::Right => if idx < len - 1 {
            idx + 1
        } else {
            idx
        },
        Direction::First => 0,
        Direction::Last => len - 1,
    }
}

/// Both ends are walls: a step left from the first index and a step right
/// from the last one stay in place, and `First` and `Last` reach the two
/// ends from every index of the collection.
pub proof fn lemma_navigation_clamps(idx: int, len: int)
    requires
        len > 0,
        0 <= idx < len,
    ensures
        next_index(0, len, Direction::Left) == 0,
        next_index(len - 1, len, Direction::Right) == len - 1,
        next_index(idx, len, Direction::First) == 0,
        next_index(idx, len, Direction::Last) == len - 1,
{
}

/// A step from an index of the collection leads to an index of the
/// collection, at most one place away unless it jumps to an end.
pub proof fn lemma_navigation_stays_inside(idx: int, len: int, d: Direction)
    requires
        0 <= idx < len,
    ensures
        0 <= next_index(idx, len, d) < len,
        d == Direction::Stay ==> next_index(idx, len, d) == idx,
        d == Direction::Left ==> idx - 1 <= next_index(idx, len, d) <= idx,
        d == Direction::Right ==> idx <= next_index(idx, len, d) <= idx + 1,
{
}

} // verus!
