//! The prefetch window: which indices around the focus are kept warm.

use std::ops::Range;
use vstd::prelude::*;

verus! {

/// Number of indices in the window of a collection of `len` items: the
/// whole collection when it is no longer than twice the radius, otherwise
/// the focus plus `radius` neighbours on each side.
pub open spec fn window_width(len: int, radius: int) -> int {
    if len <= 2 * radius {
        len
    } else {
        2 * radius + 1
    }
}

/// First index of the window around `idx`: `idx - radius`, pushed into
/// the collection so that the whole width stays inside `[0, len)`.
pub open spec fn window_start(idx: int, len: int, radius: int) -> int {
    let last_start = len - window_width(len, radius);
    if idx - radius < 0 {
        0
    } else if idx - radius > last_start {
        last_start
    } else {
        idx - radius
    }
}

/// One past the last index of the window around `idx`.
pub open spec fn window_end(idx: int, len: int, radius: int) -> int {
    window_start(idx, len, radius) + window_width(len, radius)
}

/// Whether `i` lies in the window around `idx`.
pub open spec fn in_window(i: int, idx: int, len: int, radius: int) -> bool {
    window_start(idx, len, radius) <= i < window_end(idx, len, radius)
}

/// The range of indices to keep loaded around `idx`, in a collection of
/// `len` items, with `cache_side_max_length` neighbours wanted on each side.
///
/// What is clipped at one end of the collection is added at the other, so
/// the window keeps its width wherever the collection is long enough.
pub fn suggested_items_to_cache(idx: usize, len: usize, cache_side_max_length: usize) -> (r: Range<
    usize,
>)
    requires
        len <= 2 * cache_side_max_length || idx < len,
    ensures
        r.start == window_start(idx as int, len as int, cache_side_max_length as int),
        r.end == window_end(idx as int, len as int, cache_side_max_length as int),
{
    let side: usize = cache_side_max_length;
    if side >= len || len - side <= side {
        0..len
    } else if side > len - 1 - idx {
        len - side - side - 1..len
    } else if side > idx {
        0..side + 1 + side
    } else {
        idx - side..idx + side + 1
    }
}

/// The window never leaves the collection.
pub proof fn lemma_window_in_bounds(idx: int, len: int, radius: int)
    requires
        0 <= len,
        0 <= radius,
    ensures
        0 <= window_start(idx, len, radius) <= window_end(idx, len, radius) <= len,
{
}

/// The window is as wide as the radius asks for, or as wide as the
/// collection when that is shorter: clipping at one end never narrows it.
pub proof fn lemma_window_keeps_width(idx: int, len: int, radius: int)
    requires
        0 <= len,
        0 <= radius,
    ensures
        window_end(idx, len, radius) - window_start(idx, len, radius) == if len <= 2 * radius {
            len
        } else {
            2 * radius + 1
        },
{
}

/// A focus inside the collection is always inside its own window.
pub proof fn lemma_window_holds_focus(idx: int, len: int, radius: int)
    requires
        0 <= idx < len,
        0 <= radius,
    ensures
        in_window(idx, idx, len, radius),
{
}

/// The three placements of a window narrower than the collection: flush
/// right when the right side lacks room, flush left when the left side
/// does, centred on the focus otherwise.
pub proof fn lemma_window_placement(idx: int, len: int, radius: int)
    requires
        0 <= idx < len,
        0 <= radius,
        2 * radius < len,
    ensures
        idx + radius > len - 1 ==> window_start(idx, len, radius) == idx - radius - (radius - (len
            - 1 - idx)) && window_end(idx, len, radius) == len,
        idx + radius <= len - 1 && radius > idx ==> window_start(idx, len, radius) == 0
            && window_end(idx, len, radius) == 2 * radius + 1,
        idx + radius <= len - 1 && radius <= idx ==> window_start(idx, len, radius) == idx - radius
            && window_end(idx, len, radius) == idx + radius + 1,
{
}

/// A collection no longer than twice the radius is its own window,
/// wherever the focus is.
pub proof fn lemma_window_of_short_collection(idx: int, len: int, radius: int)
    requires
        0 <= len <= 2 * radius,
        0 <= idx,
    ensures
        window_start(idx, len, radius) == 0,
        window_end(idx, len, radius) == len,
{
}

} // verus!
