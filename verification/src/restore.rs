//! Restoring a saved layout: which column each saved window goes back to,
//! and the step that moves one window closer to its column.

use std::collections::HashMap;
use vstd::prelude::*;
use crate::action::{Action, clamp_size, focus, set_height, set_width};
use crate::sort::{SortKey, stable_sort, stable_sorted};
use crate::state::{SavedLayoutState, SavedLayoutView, SavedWindowSize, key_base};
use crate::window::{WindowInfo, tiled_pos, tiled_pos_spec};

verus! {

broadcast use vstd::std_specs::hash::group_hash_axioms;

/// The windows of one column, as seen while restoring.
#[derive(Debug)]
pub struct ColumnSnapshot {
    /// Column index (from 1).
    pub index: usize,
    /// Ids of the column's tiled windows, ascending.
    pub window_ids: Vec<u64>,
}

/// [`ColumnSnapshot`] with its ids as a sequence.
#[verifier::ext_equal]
pub struct ColumnSnapshotView {
    pub index: usize,
    pub window_ids: Seq<u64>,
}

impl View for ColumnSnapshot {
    type V = ColumnSnapshotView;

    open spec fn view(&self) -> ColumnSnapshotView {
        ColumnSnapshotView { index: self.index, window_ids: self.window_ids@ }
    }
}

/// Where a window being restored currently stands.
#[derive(Debug)]
pub struct RestoreTarget {
    /// Whether its column holds a window that belongs to another column.
    pub has_foreign_windows: bool,
    /// The column it is in.
    pub column: ColumnSnapshot,
}

/// [`RestoreTarget`] with its ids as a sequence.
#[verifier::ext_equal]
pub struct RestoreTargetView {
    pub has_foreign_windows: bool,
    pub column: ColumnSnapshotView,
}

impl View for RestoreTarget {
    type V = RestoreTargetView;

    open spec fn view(&self) -> RestoreTargetView {
        RestoreTargetView { has_foreign_windows: self.has_foreign_windows, column: self.column@ }
    }
}

/// The next step for a window being restored.
#[derive(Clone, Copy, Debug, PartialEq, Eq)]
pub enum RestoreDecision {
    /// The window is in its column, alone with windows that belong there.
    Done,
    /// Expel the bottom window of the window's mixed column.
    ExpelForeign,
    /// Move the window's column to the saved index.
    MoveColumn,
}

/// The column each saved window belongs to; a later entry for an id
/// replaces an earlier one.
pub open spec fn desired_map(saved: Seq<SavedWindowSize>) -> Map<u64, usize>
    decreases saved.len(),
{
    if saved.len() == 0 {
        Map::empty()
    } else {
        desired_map(saved.drop_last()).insert(saved.last().id, saved.last().column)
    }
}

/// The column each saved window belongs to; a later entry for an id
/// replaces an earlier one.
pub fn desired_columns_by_id(saved: &Vec<SavedWindowSize>) -> (r: HashMap<u64, usize>)
    ensures
        r@ == desired_map(saved@),
{
    let mut r: HashMap<u64, usize> = HashMap::new();
    let mut i: usize = 0;
    while i < saved.len()
        invariant
            i <= saved.len(),
            r@ == desired_map(saved@.take(i as int)),
        decreases saved.len() - i,
    {
        proof {
            assert(saved@.take(i + 1).drop_last() == saved@.take(i as int));
        }
        r.insert(saved[i].id, saved[i].column);
        i = i + 1;
    }
    proof {
        assert(saved@.take(saved@.len() as int) == saved@);
    }
    r
}

/// The column a window belongs to; windows that were not saved belong to
/// no column (`usize::MAX`).
pub open spec fn desired_column(desired: Map<u64, usize>, id: u64) -> usize {
    if desired.contains_key(id) {
        desired[id]
    } else {
        usize::MAX
    }
}

/// `i` is the first index of a window with id `id`.
pub open spec fn is_first_with_id(s: Seq<WindowInfo>, id: u64, i: int) -> bool {
    &&& 0 <= i < s.len()
    &&& s[i].id == id
    &&& forall|j: int| 0 <= j < i ==> s[j].id != id
}

/// The first window with id `id`.
pub open spec fn find_window_spec(s: Seq<WindowInfo>, id: u64) -> Option<WindowInfo> {
    if exists|i: int| is_first_with_id(s, id, i) {
        Some(s[choose|i: int| is_first_with_id(s, id, i)])
    } else {
        None
    }
}

/// The first window with id `id`.
pub fn find_window(windows: &Vec<WindowInfo>, id: u64) -> (r: Option<WindowInfo>)
    ensures
        r == find_window_spec(windows@, id),
        r is None <==> forall|j: int| 0 <= j < windows@.len() ==> #[trigger] windows@[j].id != id,
{
    let mut i: usize = 0;
    while i < windows.len()
        invariant
            i <= windows.len(),
            forall|j: int| 0 <= j < i ==> #[trigger] windows@[j].id != id,
        decreases windows.len() - i,
    {
        if windows[i].id == id {
            proof {
                assert(is_first_with_id(windows@, id, i as int));
                let c = choose|c: int| is_first_with_id(windows@, id, c);
                if c < i {
                } else if c > i {
                    assert(windows@[i as int].id != id);
                }
            }
            return Some(windows[i]);
        }
        i = i + 1;
    }
    proof {
        if exists|c: int| is_first_with_id(windows@, id, c) {
            let c = choose|c: int| is_first_with_id(windows@, id, c);
            assert(windows@[c].id != id);
        }
    }
    None
}

/// Id of `w` when it is a tiled window of the workspace in `column`.
pub open spec fn column_id(w: WindowInfo, workspace_id: u64, column: usize) -> Option<u64> {
    match tiled_pos_spec(w, workspace_id) {
        Some((c, _)) => if c == column {
            Some(w.id)
        } else {
            None
        },
        None => None,
    }
}

/// Ids of the tiled windows of the workspace in `column`, in window order.
pub open spec fn column_ids(s: Seq<WindowInfo>, workspace_id: u64, column: usize) -> Seq<u64> {
    s.filter_map(|w: WindowInfo| column_id(w, workspace_id, column))
}

/// Whether one of `ids` belongs to a column other than `target_column`.
pub open spec fn has_foreign(ids: Seq<u64>, desired: Map<u64, usize>, target_column: usize) -> bool {
    exists|i: int| 0 <= i < ids.len() && desired_column(desired, #[trigger] ids[i]) != target_column
}

/// Where the window `target_id` stands: its column (with the column's
/// tiled windows, ascending by id) and whether a window there belongs
/// elsewhere. None when the window is gone, not tiled, or on no workspace.
pub open spec fn snapshot_spec(
    s: Seq<WindowInfo>,
    target_id: u64,
    target_column: usize,
    desired: Map<u64, usize>,
) -> Option<RestoreTargetView> {
    match find_window_spec(s, target_id) {
        Some(current) => match (current.pos_in_scrolling_layout, current.workspace_id) {
            (Some((current_column, _)), Some(workspace_id)) => {
                let ids = column_ids(s, workspace_id, current_column);
                Some(
                    RestoreTargetView {
                        has_foreign_windows: has_foreign(ids, desired, target_column),
                        column: ColumnSnapshotView {
                            index: current_column,
                            window_ids: stable_sorted(ids),
                        },
                    },
                )
            },
            _ => None,
        },
        None => None,
    }
}

/// Where the window `target_id` stands: its column (with the column's
/// tiled windows, ascending by id) and whether a window there belongs to
/// another column than `target_column`. None when the window is gone, not
/// tiled, or on no workspace.
pub fn snapshot_target(
    windows: &Vec<WindowInfo>,
    target_id: u64,
    target_column: usize,
    desired_by_id: &HashMap<u64, usize>,
) -> (r: Option<RestoreTarget>)
    ensures
        r matches Some(t) ==> snapshot_spec(windows@, target_id, target_column, desired_by_id@)
            == Some(t@),
        r is None ==> snapshot_spec(windows@, target_id, target_column, desired_by_id@) is None,
{
    let current = match find_window(windows, target_id) {
        Some(w) => w,
        None => return None,
    };
    let current_column = match current.pos_in_scrolling_layout {
        Some((column, _)) => column,
        None => return None,
    };
    let workspace_id = match current.workspace_id {
        Some(ws) => ws,
        None => return None,
    };
    let ghost s = windows@;
    let mut ids: Vec<u64> = Vec::new();
    let mut has_foreign_windows = false;
    let mut i: usize = 0;
    while i < windows.len()
        invariant
            i <= windows.len(),
            s == windows@,
            ids@ == column_ids(s.take(i as int), workspace_id, current_column),
            has_foreign_windows == has_foreign(ids@, desired_by_id@, target_column),
        decreases windows.len() - i,
    {
        let w = windows[i];
        let ghost prefix = s.take(i as int);
        let ghost old_ids = ids@;
        proof {
            assert(s.take(i + 1) == prefix.push(w));
            assert(prefix.push(w).drop_last() == prefix);
        }
        match tiled_pos(&w, workspace_id) {
            Some((column, _)) => {
                if column == current_column {
                    ids.push(w.id);
                    let desired = match desired_by_id.get(&w.id) {
                        Some(c) => *c,
                        None => usize::MAX,
                    };
                    if desired != target_column {
                        has_foreign_windows = true;
                    }
                    proof {
                        if has_foreign(ids@, desired_by_id@, target_column) {
                            let k = choose|k: int|
                                0 <= k < ids@.len() && desired_column(
                                    desired_by_id@,
                                    #[trigger] ids@[k],
                                ) != target_column;
                            if k < old_ids.len() {
                                assert(ids@[k] == old_ids[k]);
                            }
                        }
                        if has_foreign(old_ids, desired_by_id@, target_column) {
                            let k = choose|k: int|
                                0 <= k < old_ids.len() && desired_column(
                                    desired_by_id@,
                                    #[trigger] old_ids[k],
                                ) != target_column;
                            assert(ids@[k] == old_ids[k]);
                        }
                        assert(ids@[old_ids.len() as int] == w.id);
                    }
                }
            },
            None => {},
        }
        i = i + 1;
    }
    proof {
        assert(s.take(s.len() as int) == s);
    }
    let sorted = stable_sort(&ids);
    Some(RestoreTarget {
        has_foreign_windows,
        column: ColumnSnapshot { index: current_column, window_ids: sorted },
    })
}

/// The next step for a window: done when it is in `target_column` with no
/// foreign window; expel when its column holds foreign windows and more
/// than one window; otherwise move its column.
pub open spec fn decide_spec(target: RestoreTargetView, target_column: usize) -> RestoreDecision {
    if target.column.index == target_column && !target.has_foreign_windows {
        RestoreDecision::Done
    } else if target.column.window_ids.len() > 1 && target.has_foreign_windows {
        RestoreDecision::ExpelForeign
    } else {
        RestoreDecision::MoveColumn
    }
}

/// The next step for a window: done when it is in `target_column` with no
/// foreign window; expel when its column holds foreign windows and more
/// than one window; otherwise move its column.
pub fn decide_restore_action(target: &RestoreTarget, target_column: usize) -> (r: RestoreDecision)
    ensures
        r == decide_spec(target@, target_column),
{
    if target.column.index == target_column && !target.has_foreign_windows {
        return RestoreDecision::Done;
    }
    if target.column.window_ids.len() > 1 && target.has_foreign_windows {
        return RestoreDecision::ExpelForeign;
    }
    RestoreDecision::MoveColumn
}

/// The actions for one restore step: focus the window, then expel the
/// foreign window and focus it again, or move its column to the target.
pub open spec fn decision_actions(target_id: u64, target_column: usize, decision: RestoreDecision) -> Seq<
    Action,
> {
    match decision {
        RestoreDecision::ExpelForeign => seq![
            Action::FocusWindow { id: target_id },
            Action::ExpelWindowFromColumn,
            Action::FocusWindow { id: target_id },
        ],
        RestoreDecision::MoveColumn => seq![
            Action::FocusWindow { id: target_id },
            Action::MoveColumnToIndex { index: target_column },
        ],
        RestoreDecision::Done => seq![Action::FocusWindow { id: target_id }],
    }
}

/// The actions for one restore step: focus the window, then expel the
/// foreign window and focus it again, or move its column to the target.
pub fn apply_restore_decision(target_id: u64, target_column: usize, decision: RestoreDecision) -> (r: Vec<
    Action,
>)
    ensures
        r@ == decision_actions(target_id, target_column, decision),
{
    let mut r = Vec::new();
    r.push(Action::FocusWindow { id: target_id });
    match decision {
        RestoreDecision::ExpelForeign => {
            r.push(Action::ExpelWindowFromColumn);
            r.push(Action::FocusWindow { id: target_id });
        },
        RestoreDecision::MoveColumn => {
            r.push(Action::MoveColumnToIndex { index: target_column });
        },
        RestoreDecision::Done => {},
    }
    r
}

/// A saved window to move back to its column.
#[derive(Clone, Copy, Debug, PartialEq, Eq)]
pub struct RestoreEntry {
    pub id: u64,
    pub column: usize,
    pub row: usize,
}

/// Windows are restored in (column, row) order.
impl SortKey for RestoreEntry {
    open spec fn sort_key(self) -> int {
        self.column * key_base() + self.row
    }

    fn key_le(&self, other: &Self) -> (r: bool) {
        if self.column != other.column {
            self.column < other.column
        } else {
            self.row <= other.row
        }
    }
}

/// The restore entry of a saved window.
pub open spec fn entry_of(w: SavedWindowSize) -> RestoreEntry {
    RestoreEntry { id: w.id, column: w.column, row: w.row }
}

/// The windows to move back, in (column, row) order (ties in saved order),
/// leaving out those saved in column 0.
pub open spec fn restore_targets_spec(saved: Seq<SavedWindowSize>) -> Seq<RestoreEntry> {
    stable_sorted(saved.map_values(|w: SavedWindowSize| entry_of(w))).filter(
        |e: RestoreEntry| e.column > 0,
    )
}

/// The windows to move back, in (column, row) order (ties in saved order),
/// leaving out those saved in column 0.
pub fn restore_targets(saved: &Vec<SavedWindowSize>) -> (r: Vec<RestoreEntry>)
    ensures
        r@ == restore_targets_spec(saved@),
{
    let mut entries: Vec<RestoreEntry> = Vec::new();
    let mut i: usize = 0;
    while i < saved.len()
        invariant
            i <= saved.len(),
            entries@ == saved@.take(i as int).map_values(|w: SavedWindowSize| entry_of(w)),
        decreases saved.len() - i,
    {
        entries.push(RestoreEntry { id: saved[i].id, column: saved[i].column, row: saved[i].row });
        proof {
            assert(saved@.take(i + 1).map_values(|w: SavedWindowSize| entry_of(w)) == saved@.take(
                i as int,
            ).map_values(|w: SavedWindowSize| entry_of(w)).push(entry_of(saved@[i as int])));
        }
        i = i + 1;
    }
    proof {
        assert(saved@.take(saved@.len() as int) == saved@);
    }
    let sorted = stable_sort(&entries);
    let ghost ss = sorted@;
    let mut r: Vec<RestoreEntry> = Vec::new();
    let mut j: usize = 0;
    while j < sorted.len()
        invariant
            j <= sorted.len(),
            ss == sorted@,
            r@ == ss.take(j as int).filter(|e: RestoreEntry| e.column > 0),
        decreases sorted.len() - j,
    {
        let e = sorted[j];
        proof {
            broadcast use Seq::lemma_filter_push;

            assert(ss.take(j + 1) == ss.take(j as int).push(e));
        }
        if e.column > 0 {
            r.push(e);
        }
        j = j + 1;
    }
    proof {
        assert(ss.take(ss.len() as int) == ss);
    }
    r
}

/// For each saved window in order: its saved width, then its saved height
/// (each at least one pixel).
pub open spec fn size_actions(windows: Seq<SavedWindowSize>) -> Seq<Action>
    decreases windows.len(),
{
    if windows.len() == 0 {
        Seq::empty()
    } else {
        let w = windows.last();
        size_actions(windows.drop_last()) + seq![
            Action::SetWindowWidthFixed { id: w.id, width: clamp_size(w.width) },
            Action::SetWindowHeightFixed { id: w.id, height: clamp_size(w.height) },
        ]
    }
}

/// After the columns are restored: every saved window gets its saved size
/// back, then the saved master window is focused.
pub open spec fn restore_size_actions(state: SavedLayoutView) -> Seq<Action> {
    size_actions(state.windows).push(Action::FocusWindow { id: state.master_id })
}

/// After the columns are restored: every saved window gets its saved size
/// back, then the saved master window is focused.
pub fn restore_sizes(state: &SavedLayoutState) -> (r: Vec<Action>)
    ensures
        r@ == restore_size_actions(state@),
{
    let mut r: Vec<Action> = Vec::new();
    let mut i: usize = 0;
    while i < state.windows.len()
        invariant
            i <= state.windows.len(),
            r@ == size_actions(state.windows@.take(i as int)),
        decreases state.windows.len() - i,
    {
        let w = state.windows[i];
        proof {
            assert(state.windows@.take(i + 1).drop_last() == state.windows@.take(i as int));
        }
        r.push(set_width(w.id, w.width));
        r.push(set_height(w.id, w.height));
        i = i + 1;
    }
    proof {
        assert(state.windows@.take(state.windows@.len() as int) == state.windows@);
    }
    r.push(focus(state.master_id));
    r
}

/// The snapshots with their ids as sequences.
pub open spec fn snapshot_views(seen: Seq<ColumnSnapshot>) -> Seq<ColumnSnapshotView> {
    seen.map_values(|c: ColumnSnapshot| c@)
}

fn same_ids(a: &Vec<u64>, b: &Vec<u64>) -> (r: bool)
    ensures
        r == (a@ == b@),
{
    if a.len() != b.len() {
        return false;
    }
    let mut i: usize = 0;
    while i < a.len()
        invariant
            i <= a.len(),
            a.len() == b.len(),
            forall|q: int| 0 <= q < i ==> a@[q] == b@[q],
        decreases a.len() - i,
    {
        if a[i] != b[i] {
            return false;
        }
        i = i + 1;
    }
    proof {
        assert(a@ =~= b@);
    }
    true
}

/// Whether the column was seen before while restoring one window.
pub fn seen_contains(seen: &Vec<ColumnSnapshot>, column: &ColumnSnapshot) -> (r: bool)
    ensures
        r == snapshot_views(seen@).contains(column@),
{
    let ghost views = snapshot_views(seen@);
    let mut i: usize = 0;
    while i < seen.len()
        invariant
            i <= seen.len(),
            views == snapshot_views(seen@),
            views.len() == seen@.len(),
            forall|q: int| 0 <= q < i ==> views[q] != column@,
        decreases seen.len() - i,
    {
        let same = seen[i].index == column.index && same_ids(&seen[i].window_ids, &column.window_ids);
        proof {
            assert(views[i as int] == seen@[i as int]@);
        }
        if same {
            proof {
                assert(views[i as int] =~= column@);
            }
            return true;
        }
        i = i + 1;
    }
    false
}

} // verus!
