//! Which window of the carousel is selected, and how the selection moves.
//!
//! The canvas lays the windows out in one row; exactly one of them may be the
//! active (selected) one. Moving forward and backward wraps around the ends.
use vstd::prelude::*;

verus! {

/// The index a move starts from: the active window, or the first one when
/// none is active.
pub open spec fn current_index(active: Option<usize>) -> int {
    match active {
        Some(i) => i as int,
        None => 0,
    }
}

/// The index after `cur` in a row of `count` windows, wrapping to the first.
pub open spec fn next_index(cur: int, count: int) -> int {
    (cur + 1) % count
}

/// The index before `cur` in a row of `count` windows, wrapping to the last.
pub open spec fn prev_index(cur: int, count: int) -> int {
    if cur == 0 {
        count - 1
    } else {
        cur - 1
    }
}

/// The index reached from `cur` after `k` forward moves.
pub open spec fn advance(cur: int, count: int, k: nat) -> int
    decreases k,
{
    if k == 0 {
        cur
    } else {
        next_index(advance(cur, count, (k - 1) as nat), count)
    }
}

/// The new active index after a forward move, or `None` when there is no
/// window to move to (and the selection stays as it was).
pub fn next_window(active: Option<usize>, count: usize) -> (r: Option<usize>)
    ensures
        count == 0 ==> r is None,
        count > 0 ==> r == Some(next_index(current_index(active), count as int) as usize),
        r matches Some(i) ==> i < count,
{
    if count == 0 {
        return None;
    }
    let cur: usize = match active {
        Some(i) => i,
        None => 0,
    };
    if count == 1 {
        proof {
            vstd::arithmetic::div_mod::lemma_mod_bound(cur as int + 1, 1);
        }
        Some(0)
    } else {
        proof {
            vstd::arithmetic::div_mod::lemma_add_mod_noop(cur as int, 1, count as int);
            vstd::arithmetic::div_mod::lemma_small_mod(1, count as nat);
            vstd::arithmetic::div_mod::lemma_mod_bound(cur as int, count as int);
        }
        let wrapped: usize = cur % count;
        Some((wrapped + 1) % count)
    }
}

/// The new active index after a backward move, or `None` when there is no
/// window to move to (and the selection stays as it was).
pub fn prev_window(active: Option<usize>, count: usize) -> (r: Option<usize>)
    ensures
        count == 0 ==> r is None,
        count > 0 ==> r == Some(prev_index(current_index(active), count as int) as usize),
{
    if count == 0 {
        return None;
    }
    let cur: usize = match active {
        Some(i) => i,
        None => 0,
    };
    Some(if cur == 0 {
        count - 1
    } else {
        cur - 1
    })
}

/// The new active index when the user picks window `index` directly: it is
/// taken only when such a window exists.
pub fn set_active_window(index: usize, count: usize) -> (r: Option<usize>)
    ensures
        r == (if index < count {
            Some(index)
        } else {
            None::<usize>
        }),
{
    if index < count {
        Some(index)
    } else {
        None
    }
}

/// The selection after the windows are laid out anew: a previous selection
/// that still names a window is kept, otherwise the middle window is chosen.
/// With no windows at all the layout stops early and leaves it untouched.
pub open spec fn settled_active(previous: Option<usize>, count: int) -> Option<usize> {
    if count == 0 {
        previous
    } else {
        match previous {
            Some(i) if i < count => previous,
            _ => Some((count / 2) as usize),
        }
    }
}

/// The selection after the windows are laid out anew (see `settled_active`).
pub fn settle_active_window(previous: Option<usize>, count: usize) -> (r: Option<usize>)
    ensures
        r == settled_active(previous, count as int),
        count > 0 ==> (r matches Some(i) && i < count),
{
    if count == 0 {
        return previous;
    }
    match previous {
        Some(i) if i < count => previous,
        _ => Some(count / 2),
    }
}

/// The thumbnail to switch to for the window at `target`: it exists only
/// when `target` names a window and that window's thumbnail index names a
/// registered thumbnail.
pub open spec fn activation_target_of(
    target: Option<usize>,
    window_thumbs: Seq<usize>,
    thumb_count: int,
) -> Option<usize> {
    match target {
        Some(idx) => if idx < window_thumbs.len() && window_thumbs[idx as int] < thumb_count {
            Some(window_thumbs[idx as int])
        } else {
            None
        },
        None => None,
    }
}

/// The thumbnail whose source window should be brought to the foreground when
/// the window at `target` is chosen (see `activation_target_of`).
pub fn activation_target(target: Option<usize>, window_thumbs: &Vec<usize>, thumb_count: usize) -> (r:
    Option<usize>)
    ensures
        r == activation_target_of(target, window_thumbs@, thumb_count as int),
{
    match target {
        Some(idx) => {
            if idx < window_thumbs.len() && window_thumbs[idx] < thumb_count {
                Some(window_thumbs[idx])
            } else {
                None
            }
        },
        None => None,
    }
}

/// Laying out the same number of windows again keeps the selection that the
/// previous layout settled on.
pub proof fn lemma_settle_is_stable(previous: Option<usize>, count: int)
    requires
        0 <= count <= usize::MAX,
    ensures
        settled_active(settled_active(previous, count), count) == settled_active(previous, count),
{
}

/// After a layout of a non-empty row, a previous selection that still names
/// a window is kept as it was, and any other (none, or one past the end of
/// the row) becomes the middle window.
pub proof fn lemma_settle_keeps_valid_selection(previous: Option<usize>, count: int)
    requires
        0 < count <= usize::MAX,
    ensures
        forall|i: usize| i < count ==> settled_active(Some(i), count) == Some(i),
        previous matches Some(i) && i < count ==> settled_active(previous, count) == previous,
        !(previous matches Some(i) && i < count) ==> settled_active(previous, count) == Some(
            (count / 2) as usize,
        ),
        settled_active(previous, count) matches Some(j) && j < count,
{
}

/// Choosing an existing window whose thumbnail is registered switches to
/// that thumbnail; choosing nothing, a window past the end of the row, or a
/// window without a registered thumbnail switches to nothing.
pub proof fn lemma_activation_target_law(
    target: Option<usize>,
    window_thumbs: Seq<usize>,
    thumb_count: int,
)
    ensures
        forall|idx: usize|
            idx < window_thumbs.len() && window_thumbs[idx as int] < thumb_count ==> (
            #[trigger] activation_target_of(Some(idx), window_thumbs, thumb_count)) == Some(
                window_thumbs[idx as int],
            ),
        activation_target_of(target, window_thumbs, thumb_count) matches Some(t) ==> (
        target matches Some(idx) && idx < window_thumbs.len() && t == window_thumbs[idx as int]
            && t < thumb_count),
        activation_target_of(None, window_thumbs, thumb_count) == None::<usize>,
{
}

/// Moving forward and then backward returns to the window one started from.
pub proof fn lemma_prev_undoes_next(i: int, count: int)
    requires
        0 <= i < count,
    ensures
        prev_index(next_index(i, count), count) == i,
{
    if i + 1 < count {
        vstd::arithmetic::div_mod::lemma_small_mod((i + 1) as nat, count as nat);
    } else {
        vstd::arithmetic::div_mod::lemma_mod_self_0(count);
    }
}

/// Moving backward and then forward returns to the window one started from.
pub proof fn lemma_next_undoes_prev(i: int, count: int)
    requires
        0 <= i < count,
    ensures
        next_index(prev_index(i, count), count) == i,
{
    if i == 0 {
        vstd::arithmetic::div_mod::lemma_mod_self_0(count);
    } else {
        vstd::arithmetic::div_mod::lemma_small_mod(i as nat, count as nat);
    }
}

/// `k` forward moves from `i` land on `(i + k) mod count`.
pub proof fn lemma_advance_is_offset(i: int, count: int, k: nat)
    requires
        0 <= i < count,
    ensures
        advance(i, count, k) == (i + k) % count,
    decreases k,
{
    if k == 0 {
        vstd::arithmetic::div_mod::lemma_small_mod(i as nat, count as nat);
    } else {
        lemma_advance_is_offset(i, count, (k - 1) as nat);
        vstd::arithmetic::div_mod::lemma_mod_bound(i + k - 1, count);
        if count == 1 {
            vstd::arithmetic::div_mod::lemma_mod_bound(i + k, 1);
            vstd::arithmetic::div_mod::lemma_mod_bound(((i + k - 1) % count) + 1, 1);
        } else {
            vstd::arithmetic::div_mod::lemma_add_mod_noop(i + k - 1, 1, count);
            vstd::arithmetic::div_mod::lemma_small_mod(1, count as nat);
        }
    }
}

/// Moving forward once per window brings the selection back to where it was:
/// the carousel is a cycle through every window.
pub proof fn lemma_full_cycle_returns(i: int, count: int)
    requires
        0 <= i < count,
    ensures
        advance(i, count, count as nat) == i,
{
    lemma_advance_is_offset(i, count, count as nat);
    vstd::arithmetic::div_mod::lemma_mod_multiples_vanish(1, i, count);
    vstd::arithmetic::div_mod::lemma_small_mod(i as nat, count as nat);
}

} // verus!
