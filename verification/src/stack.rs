//! The stack column: which window anchors it, when more windows are pulled
//! into it, and how its windows are styled.

use vstd::prelude::*;
use crate::action::{Action, MAX_STACK_WINDOWS, STACK_WINDOW_WIDTH_PERCENT};
use crate::sort::{SortKey, stable_sort, stable_sorted};
use crate::window::{WindowInfo, is_tiled_in, tiled_column, tiled_pos, tiled_pos_spec, tiled_row};

verus! {

/// Whether `w` can anchor the stack: a tiled window of the workspace, in a
/// column right of the master column, other than the master window.
pub open spec fn is_anchor_candidate(
    w: WindowInfo,
    workspace_id: u64,
    master_column: usize,
    master_id: u64,
) -> bool {
    &&& w.id != master_id
    &&& is_tiled_in(w, workspace_id)
    &&& tiled_column(w, workspace_id) > master_column
}

/// Whether tiled window `a` comes no later than `b` in (column, row) order.
pub open spec fn pos_le(a: WindowInfo, b: WindowInfo, workspace_id: u64) -> bool {
    ||| tiled_column(a, workspace_id) < tiled_column(b, workspace_id)
    ||| (tiled_column(a, workspace_id) == tiled_column(b, workspace_id) && tiled_row(a, workspace_id)
        <= tiled_row(b, workspace_id))
}

/// Index `i` holds the anchor: the candidate with the smallest (column, row),
/// the first such candidate when several share it.
pub open spec fn is_anchor_index(
    s: Seq<WindowInfo>,
    workspace_id: u64,
    master_column: usize,
    master_id: u64,
    i: int,
) -> bool {
    &&& 0 <= i < s.len()
    &&& is_anchor_candidate(s[i], workspace_id, master_column, master_id)
    &&& forall|j: int|
        0 <= j < s.len() && is_anchor_candidate(s[j], workspace_id, master_column, master_id)
            ==> pos_le(s[i], s[j], workspace_id)
    &&& forall|j: int|
        0 <= j < i && is_anchor_candidate(s[j], workspace_id, master_column, master_id) ==> !pos_le(
            s[j],
            s[i],
            workspace_id,
        )
}

/// The window that anchors the stack: the topmost window of the nearest
/// column right of the master column; none when no column is there.
pub open spec fn anchor_spec(
    s: Seq<WindowInfo>,
    workspace_id: u64,
    master_column: usize,
    master_id: u64,
) -> Option<u64> {
    if exists|i: int| is_anchor_index(s, workspace_id, master_column, master_id, i) {
        Some(s[choose|i: int| is_anchor_index(s, workspace_id, master_column, master_id, i)].id)
    } else {
        None
    }
}

/// At most one index holds the anchor.
pub proof fn lemma_anchor_index_unique(
    s: Seq<WindowInfo>,
    workspace_id: u64,
    master_column: usize,
    master_id: u64,
    i: int,
    k: int,
)
    requires
        is_anchor_index(s, workspace_id, master_column, master_id, i),
        is_anchor_index(s, workspace_id, master_column, master_id, k),
    ensures
        i == k,
{
    if i < k {
        assert(pos_le(s[i], s[k], workspace_id));
    } else if k < i {
        assert(pos_le(s[k], s[i], workspace_id));
    }
}

/// The window that anchors the stack: among the tiled windows of the
/// workspace right of `master_column` (the master excluded), the one with
/// the smallest (column, row), the first of them on a tie; `None` when there
/// is no such window.
pub fn nearest_right_column_anchor(
    windows: &Vec<WindowInfo>,
    workspace_id: u64,
    master_column: usize,
    master_id: u64,
) -> (r: Option<u64>)
    ensures
        r == anchor_spec(windows@, workspace_id, master_column, master_id),
        r is None <==> forall|j: int|
            0 <= j < windows@.len() ==> !is_anchor_candidate(
                #[trigger] windows@[j],
                workspace_id,
                master_column,
                master_id,
            ),
{
    let ghost s = windows@;
    let mut best: Option<usize> = None;
    let mut best_pos: (usize, usize) = (0, 0);
    let mut i: usize = 0;
    while i < windows.len()
        invariant
            i <= windows.len(),
            s == windows@,
            best is None <==> forall|j: int|
                0 <= j < i ==> !is_anchor_candidate(
                    #[trigger] s[j],
                    workspace_id,
                    master_column,
                    master_id,
                ),
            best matches Some(b) ==> {
                &&& b < i
                &&& is_anchor_candidate(s[b as int], workspace_id, master_column, master_id)
                &&& tiled_pos_spec(s[b as int], workspace_id) == Some(best_pos)
                &&& forall|j: int|
                    0 <= j < i && is_anchor_candidate(s[j], workspace_id, master_column, master_id)
                        ==> pos_le(s[b as int], s[j], workspace_id)
                &&& forall|j: int|
                    0 <= j < b && is_anchor_candidate(s[j], workspace_id, master_column, master_id)
                        ==> !pos_le(s[j], s[b as int], workspace_id)
            },
        decreases windows.len() - i,
    {
        let w = windows[i];
        if w.id != master_id {
            match tiled_pos(&w, workspace_id) {
                Some((column, row)) => {
                    if column > master_column {
                        let better = match best {
                            None => true,
                            Some(_) => column < best_pos.0 || (column == best_pos.0 && row
                                < best_pos.1),
                        };
                        if better {
                            best = Some(i);
                            best_pos = (column, row);
                        }
                    }
                },
                None => {},
            }
        }
        i = i + 1;
    }
    match best {
        Some(b) => {
            proof {
                assert(is_anchor_index(s, workspace_id, master_column, master_id, b as int));
                let c = choose|c: int| is_anchor_index(s, workspace_id, master_column, master_id, c);
                lemma_anchor_index_unique(s, workspace_id, master_column, master_id, b as int, c);
            }
            Some(windows[b].id)
        },
        None => {
            proof {
                if exists|c: int| is_anchor_index(s, workspace_id, master_column, master_id, c) {
                    let c = choose|c: int|
                        is_anchor_index(s, workspace_id, master_column, master_id, c);
                    assert(!is_anchor_candidate(s[c], workspace_id, master_column, master_id));
                }
            }
            None
        },
    }
}

/// The tiled windows of the workspace in column `column`, in window order.
pub open spec fn column_members(s: Seq<WindowInfo>, workspace_id: u64, column: usize) -> Seq<
    WindowInfo,
> {
    s.filter(
        |w: WindowInfo| is_tiled_in(w, workspace_id) && tiled_column(w, workspace_id) == column,
    )
}

/// Whether the workspace has a tiled window in a column right of `column`.
pub open spec fn has_column_right_of(s: Seq<WindowInfo>, workspace_id: u64, column: usize) -> bool {
    exists|i: int|
        0 <= i < s.len() && is_tiled_in(s[i], workspace_id) && tiled_column(s[i], workspace_id)
            > column
}

proof fn lemma_right_push(s: Seq<WindowInfo>, w: WindowInfo, workspace_id: u64, column: usize)
    ensures
        has_column_right_of(s.push(w), workspace_id, column) == (has_column_right_of(
            s,
            workspace_id,
            column,
        ) || (is_tiled_in(w, workspace_id) && tiled_column(w, workspace_id) > column)),
{
    let t = s.push(w);
    if has_column_right_of(t, workspace_id, column) {
        let j = choose|j: int|
            0 <= j < t.len() && #[trigger] is_tiled_in(t[j], workspace_id) && tiled_column(
                t[j],
                workspace_id,
            ) > column;
        if j < s.len() {
            assert(t[j] == s[j]);
        }
    }
    if has_column_right_of(s, workspace_id, column) {
        let j = choose|j: int|
            0 <= j < s.len() && #[trigger] is_tiled_in(s[j], workspace_id) && tiled_column(
                s[j],
                workspace_id,
            ) > column;
        assert(t[j] == s[j]);
    }
    if is_tiled_in(w, workspace_id) && tiled_column(w, workspace_id) > column {
        assert(t[s.len() as int] == w);
    }
}

/// How many tiled windows the stack column holds, and whether a tiled window
/// stands in a column right of it.
pub fn stack_column_state(windows: &Vec<WindowInfo>, workspace_id: u64, stack_column: usize) -> (r: (
    usize,
    bool,
))
    ensures
        r.0 == column_members(windows@, workspace_id, stack_column).len(),
        r.1 == has_column_right_of(windows@, workspace_id, stack_column),
{
    let ghost s = windows@;
    let mut count_in_column: usize = 0;
    let mut has_right_columns = false;
    let mut i: usize = 0;
    while i < windows.len()
        invariant
            i <= windows.len(),
            s == windows@,
            count_in_column == column_members(s.take(i as int), workspace_id, stack_column).len(),
            has_right_columns == has_column_right_of(s.take(i as int), workspace_id, stack_column),
        decreases windows.len() - i,
    {
        let w = windows[i];
        proof {
            broadcast use Seq::lemma_filter_push, Seq::lemma_filter_len;

            assert(s.take(i + 1) == s.take(i as int).push(w));
            assert(column_members(s.take(i as int), workspace_id, stack_column).len() <= i);
            lemma_right_push(s.take(i as int), w, workspace_id, stack_column);
        }
        match tiled_pos(&w, workspace_id) {
            Some((column, _)) => {
                if column == stack_column {
                    count_in_column = count_in_column + 1;
                } else if column > stack_column {
                    has_right_columns = true;
                }
            },
            None => {},
        }
        i = i + 1;
    }
    proof {
        assert(s.take(s.len() as int) == s);
    }
    (count_in_column, has_right_columns)
}

/// Column of the focused window, when it is tiled.
pub fn focused_stack_column(focused: &Option<WindowInfo>) -> (r: Option<usize>)
    ensures
        r == (match *focused {
            Some(w) => match w.pos_in_scrolling_layout {
                Some((column, _)) => Some(column),
                None => None,
            },
            None => None,
        }),
{
    match focused {
        Some(w) => match w.pos_in_scrolling_layout {
            Some((column, _)) => Some(column),
            None => None,
        },
        None => None,
    }
}

/// Whether one more window is pulled into the stack column: while it holds
/// fewer than `max_in_stack` windows and some column is right of it.
pub open spec fn pulls_more(s: Seq<WindowInfo>, workspace_id: u64, stack_column: usize, max_in_stack: usize) -> bool {
    column_members(s, workspace_id, stack_column).len() < max_in_stack && has_column_right_of(
        s,
        workspace_id,
        stack_column,
    )
}

/// Whether one more window is pulled into the stack column: while it holds
/// fewer than `max_in_stack` windows and some column is right of it.
pub fn pull_windows_into_stack(
    windows: &Vec<WindowInfo>,
    workspace_id: u64,
    stack_column: usize,
    max_in_stack: usize,
) -> (r: bool)
    ensures
        r == pulls_more(windows@, workspace_id, stack_column, max_in_stack),
{
    let (stack_count, has_more_right) = stack_column_state(windows, workspace_id, stack_column);
    !(stack_count >= max_in_stack || !has_more_right)
}

/// Row and id of a window of the stack column.
#[derive(Clone, Copy, Debug, PartialEq, Eq)]
pub struct StackEntry {
    pub row: usize,
    pub id: u64,
}

/// Stack windows are styled top to bottom.
impl SortKey for StackEntry {
    open spec fn sort_key(self) -> int {
        self.row as int
    }

    fn key_le(&self, other: &Self) -> (r: bool) {
        self.row <= other.row
    }
}

/// Row and id of `w` when it is a tiled window of the workspace in `column`.
pub open spec fn stack_entry(w: WindowInfo, workspace_id: u64, column: usize) -> Option<StackEntry> {
    match tiled_pos_spec(w, workspace_id) {
        Some((c, row)) => if c == column {
            Some(StackEntry { row, id: w.id })
        } else {
            None
        },
        None => None,
    }
}

/// Row and id of the tiled windows of the workspace in `column`, in window order.
pub open spec fn stack_entries_of(s: Seq<WindowInfo>, workspace_id: u64, column: usize) -> Seq<StackEntry> {
    s.filter_map(|w: WindowInfo| stack_entry(w, workspace_id, column))
}

/// Row and id of the tiled windows of the workspace in `stack_column`, in window order.
pub fn collect_stack_window_ids(windows: &Vec<WindowInfo>, workspace_id: u64, stack_column: usize) -> (r:
    Vec<StackEntry>)
    ensures
        r@ == stack_entries_of(windows@, workspace_id, stack_column),
{
    let mut r: Vec<StackEntry> = Vec::new();
    let mut i: usize = 0;
    while i < windows.len()
        invariant
            i <= windows.len(),
            r@ == stack_entries_of(windows@.take(i as int), workspace_id, stack_column),
        decreases windows.len() - i,
    {
        let w = windows[i];
        let ghost prefix = windows@.take(i as int);
        proof {
            assert(windows@.take(i + 1) == prefix.push(w));
            assert(prefix.push(w).drop_last() == prefix);
        }
        match tiled_pos(&w, workspace_id) {
            Some((column, row)) => {
                if column == stack_column {
                    r.push(StackEntry { row, id: w.id });
                }
            },
            None => {},
        }
        i = i + 1;
    }
    proof {
        assert(windows@.take(windows@.len() as int) == windows@);
    }
    r
}

/// For each stack window in order: width at the stack percentage, then
/// height reset to automatic.
pub open spec fn style_actions(entries: Seq<StackEntry>) -> Seq<Action>
    decreases entries.len(),
{
    if entries.len() == 0 {
        Seq::empty()
    } else {
        style_actions(entries.drop_last()) + seq![
            Action::SetWindowWidthPercent { id: entries.last().id, percent: STACK_WINDOW_WIDTH_PERCENT },
            Action::ResetWindowHeight { id: entries.last().id },
        ]
    }
}

/// How many windows the stack column keeps of `n`: at most [`MAX_STACK_WINDOWS`].
pub open spec fn stack_kept_len(n: nat) -> nat {
    if n <= MAX_STACK_WINDOWS {
        n
    } else {
        MAX_STACK_WINDOWS as nat
    }
}

/// The windows of the stack column that stay there: the top
/// [`MAX_STACK_WINDOWS`].
pub open spec fn kept_entries(sorted: Seq<StackEntry>) -> Seq<StackEntry> {
    sorted.take(stack_kept_len(sorted.len()) as int)
}

/// The windows of the stack column below the top [`MAX_STACK_WINDOWS`].
pub open spec fn surplus_entries(sorted: Seq<StackEntry>) -> Seq<StackEntry> {
    sorted.skip(stack_kept_len(sorted.len()) as int)
}

/// For each window from the last to the first: focus it, then expel the
/// bottom window of its column (which is then this window).
pub open spec fn expel_actions(entries: Seq<StackEntry>) -> Seq<Action>
    decreases entries.len(),
{
    if entries.len() == 0 {
        Seq::empty()
    } else {
        expel_actions(entries.drop_first()) + seq![
            Action::FocusWindow { id: entries[0].id },
            Action::ExpelWindowFromColumn,
        ]
    }
}

/// The windows of the stack column from top to bottom (ties in window order).
pub open spec fn sorted_stack_entries(s: Seq<WindowInfo>, workspace_id: u64, stack_column: usize) -> Seq<
    StackEntry,
> {
    stable_sorted(stack_entries_of(s, workspace_id, stack_column))
}

/// The actions that style the stack column: the windows below the top
/// [`MAX_STACK_WINDOWS`] are expelled, bottom first, and the remaining
/// windows, from top to bottom (ties in window order), get the stack width
/// and an automatic height.
pub open spec fn style_stack_actions(s: Seq<WindowInfo>, workspace_id: u64, stack_column: usize) -> Seq<Action> {
    let sorted = sorted_stack_entries(s, workspace_id, stack_column);
    expel_actions(surplus_entries(sorted)) + style_actions(kept_entries(sorted))
}

/// The actions that style the stack column: the windows below the top
/// [`MAX_STACK_WINDOWS`] are expelled, bottom first, and the remaining
/// windows, from top to bottom (ties in window order), get the stack width
/// and an automatic height.
pub fn style_stack_column(windows: &Vec<WindowInfo>, workspace_id: u64, stack_column: usize) -> (r:
    Vec<Action>)
    ensures
        r@ == style_stack_actions(windows@, workspace_id, stack_column),
{
    let entries = collect_stack_window_ids(windows, workspace_id, stack_column);
    let sorted = stable_sort(&entries);
    let n = sorted.len();
    let keep: usize = if n <= MAX_STACK_WINDOWS {
        n
    } else {
        MAX_STACK_WINDOWS
    };
    let ghost all = sorted@;
    assert(keep == stack_kept_len(all.len()));
    let mut r: Vec<Action> = Vec::new();
    let mut j: usize = n;
    while j > keep
        invariant
            keep <= j <= n,
            n == all.len(),
            all == sorted@,
            r@ == expel_actions(all.subrange(j as int, n as int)),
        decreases j,
    {
        let window_id = sorted[j - 1].id;
        proof {
            let next = all.subrange(j - 1, n as int);
            assert(next.drop_first() == all.subrange(j as int, n as int));
            assert(next[0].id == window_id);
        }
        r.push(Action::FocusWindow { id: window_id });
        r.push(Action::ExpelWindowFromColumn);
        j = j - 1;
    }
    let ghost expelled = r@;
    proof {
        assert(all.subrange(keep as int, n as int) == surplus_entries(all));
    }
    let mut i: usize = 0;
    while i < keep
        invariant
            i <= keep <= n,
            n == all.len(),
            all == sorted@,
            r@ == expelled + style_actions(all.take(i as int)),
        decreases keep - i,
    {
        let window_id = sorted[i].id;
        proof {
            assert(all.take(i + 1).drop_last() == all.take(i as int));
            assert(all.take(i + 1).last() == sorted@[i as int]);
        }
        r.push(Action::SetWindowWidthPercent { id: window_id, percent: STACK_WINDOW_WIDTH_PERCENT });
        r.push(Action::ResetWindowHeight { id: window_id });
        proof {
            assert(r@ == expelled + style_actions(all.take(i + 1)));
        }
        i = i + 1;
    }
    proof {
        assert(all.take(keep as int) == kept_entries(all));
    }
    r
}

} // verus!
