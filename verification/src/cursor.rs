//! Positions in a list: moving a selection and framing what is shown around it.

use vstd::prelude::*;

verus! {

/// The position `delta` steps from `index` in a list of `count` entries, held
/// between the first and the last entry. In an empty list the position stays.
pub open spec fn shifted(index: int, delta: int, count: int) -> int {
    if count <= 0 {
        index
    } else if index + delta < 0 {
        0
    } else if index + delta > count - 1 {
        count - 1
    } else {
        index + delta
    }
}

/// The position one step from `index` in a ring of `count` entries: after the
/// last entry comes the first, before the first the last.
pub open spec fn stepped(index: int, forward: bool, count: int) -> int {
    let target = if forward {
        index + 1
    } else {
        index - 1
    };
    if count <= 0 {
        0
    } else if target < 0 {
        count - 1
    } else if target > count - 1 {
        0
    } else {
        target
    }
}

/// The part of a list that is shown around a selected entry.
#[derive(Clone, Copy, Debug, PartialEq, Eq)]
pub struct Window {
    /// The first entry shown.
    pub first: usize,
    /// The entry after the last one shown.
    pub end: usize,
    /// The selected entry's place among those shown.
    pub highlighted: usize,
}

/// The window on a list of `count` entries, `height` rows high, around the entry
/// `selected`: it opens half a height above the selection, and no earlier than
/// the list; it closes a full height below, and no later than the list.
pub open spec fn window_around(selected: int, height: int, count: int) -> (int, int, int) {
    let first = if selected - height / 2 < 0 {
        0
    } else {
        selected - height / 2
    };
    let end = if selected + height > count {
        count
    } else {
        selected + height
    };
    let highlighted = if selected < height / 2 {
        selected
    } else {
        height / 2
    };
    (first, end, highlighted)
}

/// Moves `index` by `delta` steps in a list of `count` entries, and no further
/// than its first and its last entry.
pub fn shift_index(index: usize, delta: i32, count: usize) -> (target: usize)
    ensures
        target == shifted(index as int, delta as int, count as int),
{
    if count == 0 {
        return index;
    }
    let last: usize = count - 1;
    if delta >= 0 {
        let forward: usize = delta as usize;
        if index > last || forward > last - index {
            last
        } else {
            index + forward
        }
    } else {
        let back: u64 = (-(delta as i64)) as u64;
        if back > index as u64 {
            0
        } else {
            let target: usize = index - back as usize;
            if target > last {
                last
            } else {
                target
            }
        }
    }
}

/// Moves `index` one step in a ring of `count` entries.
pub fn step_index(index: usize, forward: bool, count: usize) -> (target: usize)
    ensures
        target == stepped(index as int, forward, count as int),
{
    if count == 0 {
        0
    } else if forward {
        if index >= count - 1 {
            0
        } else {
            index + 1
        }
    } else if index == 0 {
        count - 1
    } else if index > count {
        0
    } else {
        index - 1
    }
}

/// The window on a list of `count` entries, `height` rows high, around the
/// entry `selected`.
pub fn list_window(selected: usize, height: usize, count: usize) -> (window: Window)
    ensures
        (window.first as int, window.end as int, window.highlighted as int) == window_around(
            selected as int,
            height as int,
            count as int,
        ),
        selected <= count ==> window.first <= window.end <= count,
{
    let half: usize = height / 2;
    let first: usize = if selected < half {
        0
    } else {
        selected - half
    };
    let end: usize = if height > count || selected > count - height {
        count
    } else {
        selected + height
    };
    let highlighted: usize = if selected < half {
        selected
    } else {
        half
    };
    Window { first, end, highlighted }
}

} // verus!
