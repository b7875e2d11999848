use vstd::prelude::*;

use crate::list::{cursor_in_bounds, scroll_step};

verus! {

/// The cursor after a whole sequence of scroll moves, applied in order
/// (`true` scrolls down, `false` scrolls up).
pub open spec fn scroll_many(len: nat, sel: Option<usize>, moves: Seq<bool>) -> Option<usize>
    decreases moves.len(),
{
    if moves.len() == 0 {
        sel
    } else {
        scroll_many(len, scroll_step(len, sel, moves[0]), moves.drop_first())
    }
}

/// Under any sequence of scroll-up and scroll-down moves, a valid selection
/// cursor stays valid: present only at an index of the list, and absent —
/// forever — when the list is empty.
pub proof fn lemma_scrolls_stay_in_bounds(len: nat, sel: Option<usize>, moves: Seq<bool>)
    requires
        cursor_in_bounds(len, sel),
    ensures
        cursor_in_bounds(len, scroll_many(len, sel, moves)),
        len == 0 ==> scroll_many(len, sel, moves) == sel,
    decreases moves.len(),
{
    if moves.len() > 0 {
        lemma_scrolls_stay_in_bounds(len, scroll_step(len, sel, moves[0]), moves.drop_first());
    }
}

/// A scroll move never wraps around: scrolling down at the last item and
/// scrolling up at the first leave the cursor where it stands.
pub proof fn lemma_scroll_never_wraps(len: nat, sel: Option<usize>)
    requires
        0 < len <= usize::MAX as nat,
    ensures
        sel == Some((len - 1) as usize) ==> scroll_step(len, sel, true) == sel,
        sel == Some(0usize) ==> scroll_step(len, sel, false) == sel,
{
}

} // verus!
