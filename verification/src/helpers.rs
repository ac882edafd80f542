//! Moving a selection cursor through a list, clamped at both ends.

use vstd::prelude::*;

verus! {

/// The direction a list selection moves in.
#[derive(Debug, Clone, Copy, PartialEq, Eq, Structural)]
pub enum ListDirection {
    TopToBottom,
    BottomToTop,
}

/// Where the selection lands when it moves from `val` through a list of
/// `len` entries: one step down or up, clamped at the last entry and at
/// entry 0.
pub open spec fn new_selection_index(val: int, len: int, direction: ListDirection) -> int {
    match direction {
        ListDirection::TopToBottom => if val + 1 < len {
            val + 1
        } else {
            val
        },
        ListDirection::BottomToTop => if val > 0 {
            val - 1
        } else {
            val
        },
    }
}

/// Moves a selection one entry down or up, clamped at both ends: selecting
/// past the last entry or before the first is a no-op.
pub fn get_new_selection_index(val: usize, len: usize, direction: ListDirection) -> (r: usize)
    requires
        val < len,
    ensures
        r == new_selection_index(val as int, len as int, direction),
        r < len,
{
    match direction {
        ListDirection::TopToBottom => {
            if val == len - 1 {
                val
            } else {
                val + 1
            }
        },
        ListDirection::BottomToTop => {
            if val > 0 {
                val - 1
            } else {
                val
            }
        },
    }
}

/// The selection cursor after one navigation step over `len` entries:
/// empty lists are left alone; a missing or stale cursor is first clamped
/// into range, then moved one step, clamped at both ends.
pub open spec fn moved_selection(sel: Option<usize>, len: int, direction: ListDirection) -> Option<
    usize,
> {
    if len == 0 {
        sel
    } else {
        let cur = match sel {
            Some(i) => if i < len {
                i as int
            } else {
                len - 1
            },
            None => 0,
        };
        Some(new_selection_index(cur, len, direction) as usize)
    }
}

/// Law: the selection cursor is clamped. Moving down in a list of `len`
/// entries never selects an index at or past `len`, and moving up from
/// entry 0 stays at entry 0.
pub proof fn lemma_selection_clamp(val: int, len: int)
    requires
        0 <= val < len,
    ensures
        new_selection_index(val, len, ListDirection::TopToBottom) < len,
        0 <= new_selection_index(val, len, ListDirection::TopToBottom),
        new_selection_index(0, len, ListDirection::BottomToTop) == 0,
        0 <= new_selection_index(val, len, ListDirection::BottomToTop) <= val,
{
}

/// Law: however the cursor stood before — absent, in range, or stale — a
/// move over a nonempty list lands it on a real entry, and a move over an
/// empty list changes nothing.
pub proof fn lemma_moved_selection_in_range(sel: Option<usize>, len: int, direction: ListDirection)
    ensures
        len > 0 ==> (moved_selection(sel, len, direction) matches Some(i) && i < len),
        len == 0 ==> moved_selection(sel, len, direction) == sel,
{
}

} // verus!
