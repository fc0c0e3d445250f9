//! Properties of the library as a whole: what every run keeps, and how
//! its steps relate.

use vstd::prelude::*;
use crate::action::{Action, MASTER_WIDTH_PERCENT, MAX_STACK_WINDOWS, STACK_WINDOW_WIDTH_PERCENT, clamp_size};
use crate::resize::{ActiveLayoutView, ResizeDirection, resize_plan_spec, resize_spec};
use crate::restore::{
    RestoreEntry, entry_of, find_window_spec, restore_size_actions, restore_targets_spec, size_actions,
    snapshot_spec,
};
use crate::session::{
    Outcome, PhaseView, ReplyView, Report, RequestView, RestoreProgressView, finish_spec, master_actions,
    next_spec, phase_wf, progress_wf, restore_failed_spec,
};
use crate::sort::{SortKey, is_stable_sort_of, key_class, stable_sorted};
use crate::stack::{
    StackEntry, anchor_spec, column_members, expel_actions, has_column_right_of, kept_entries, sorted_stack_entries,
    stack_entries_of, stack_entry, style_actions, style_stack_actions, surplus_entries,
};
use crate::state::{SavedLayoutView, StateFile, WorkspaceContext, saved_entry, saved_layout_spec, saved_windows_of};
use crate::window::{WindowInfo, is_tiled_in, tiled_column};

verus! {

/// The state file that would still be removed if the run ended now: the
/// layout was saved, but the master layout is not yet being applied.
pub open spec fn pending_state_file(p: PhaseView) -> Option<StateFile> {
    match p {
        PhaseView::ArrangeMove { guard, .. } => if guard.keep { None } else { Some(guard.path) },
        PhaseView::ArrangeAnchor { guard, .. } => if guard.keep { None } else { Some(guard.path) },
        PhaseView::ArrangeNoAnchorReported { guard, .. } => if guard.keep {
            None
        } else {
            Some(guard.path)
        },
        _ => None,
    }
}

/// Once the layout is saved, the run does not end, whatever the reply
/// (an error, no master window, no column to stack), before either the
/// master layout is being applied or the saved state file is removed.
pub proof fn law_abandoned_layout_removes_saved_state(p: PhaseView, r: ReplyView)
    requires
        phase_wf(p),
        pending_state_file(p) is Some,
    ensures
        ({
            let (p2, req) = next_spec(p, r);
            let file = pending_state_file(p).unwrap();
            &&& !(req is Finish)
            &&& (pending_state_file(p2) == Some(file) || req == (RequestView::RemoveStateFile { file })
                || p2 is ArrangeStack)
        }),
{
}

/// The saved state file that may be abandoned is the one of the workspace
/// being arranged.
pub proof fn law_pending_state_file_is_the_workspace_file(p: PhaseView)
    requires
        phase_wf(p),
        pending_state_file(p) is Some,
    ensures
        match p {
            PhaseView::ArrangeMove { ctx, .. } => pending_state_file(p) == Some(ctx.state_path),
            PhaseView::ArrangeAnchor { ctx, .. } => pending_state_file(p) == Some(ctx.state_path),
            PhaseView::ArrangeNoAnchorReported { ctx, .. } => pending_state_file(p) == Some(
                ctx.state_path,
            ),
            _ => false,
        },
{
}

/// After the saved state of an abandoned layout is removed (or found
/// gone), the run ends with the outcome that ended the arrangement; a
/// failed removal is reported first.
pub proof fn law_cleanup_keeps_outcome(file: StateFile, outcome: Outcome, r: ReplyView, r2: ReplyView)
    ensures
        ({
            let (p2, req) = next_spec(PhaseView::CleanupRemove { file, outcome }, r);
            ||| req == (RequestView::Finish { outcome })
            ||| (req is Report && next_spec(p2, r2).1 == (RequestView::Finish { outcome }))
        }),
{
}

/// Whether a phase belongs to restoring a saved layout.
pub open spec fn is_restore_phase(p: PhaseView) -> bool {
    ||| p is RestoreLoad
    ||| p is RestoreColumns
    ||| p is RestoreStep
    ||| p is RestoreCycleReported
    ||| p is RestoreSizes
    ||| p is RestoreRemove
}

/// A restore ends the run successfully only after the saved state file
/// was removed (or found gone): the layout is restored and its state is
/// gone, and nothing is arranged.
pub proof fn law_restore_succeeds_only_after_removal(p: PhaseView, r: ReplyView)
    requires
        is_restore_phase(p),
        next_spec(p, r).1 == (RequestView::Finish { outcome: Outcome::Success }),
    ensures
        p is RestoreRemove,
        r is Done || (r matches ReplyView::Failed { not_found, .. } && not_found),
{
}

/// When restoring fails, the failure is reported, the stale state file is
/// removed, and the master layout is applied afresh.
pub proof fn law_failed_restore_removes_state_and_arranges(
    ctx: WorkspaceContext,
    error: usize,
    r: ReplyView,
)
    ensures
        next_spec(PhaseView::RestoreLoad { ctx }, ReplyView::Failed { error, not_found: false })
            == restore_failed_spec(ctx, error),
        next_spec(PhaseView::RestoreSizes { ctx }, ReplyView::Failed { error, not_found: false })
            == restore_failed_spec(ctx, error),
        next_spec(PhaseView::RestoreRemove { ctx }, ReplyView::Failed { error, not_found: false })
            == restore_failed_spec(ctx, error),
        restore_failed_spec(ctx, error).1 == (RequestView::Report {
            report: Report::RestoreFailed { file: ctx.state_path, error },
        }),
        next_spec(restore_failed_spec(ctx, error).0, ReplyView::Done) == (
            PhaseView::StaleRemove { ctx },
            RequestView::RemoveStateFile { file: ctx.state_path },
        ),
        (r is Done || (r matches ReplyView::Failed { not_found, .. } && not_found)) ==> next_spec(
            PhaseView::StaleRemove { ctx },
            r,
        ) == (PhaseView::ArrangeFocused, RequestView::FocusedWindow),
        (r matches ReplyView::Failed { not_found, .. } && !not_found) ==> next_spec(
            next_spec(PhaseView::StaleRemove { ctx }, r).0,
            ReplyView::Done,
        ) == (PhaseView::ArrangeFocused, RequestView::FocusedWindow),
{
}

/// Failing while moving windows back is a failed restore too.
pub proof fn law_failed_restore_step_is_reported(p: RestoreProgressView, error: usize, not_found: bool)
    ensures
        next_spec(PhaseView::RestoreColumns { progress: p }, ReplyView::Failed { error, not_found })
            == restore_failed_spec(p.ctx, error),
        next_spec(PhaseView::RestoreStep { progress: p }, ReplyView::Failed { error, not_found })
            == restore_failed_spec(p.ctx, error),
{
}

/// A toggle restores when the workspace has a saved state, and arranges
/// the master layout when it has none.
pub proof fn law_toggle_restores_or_arranges(ctx: WorkspaceContext)
    ensures
        next_spec(PhaseView::RestoreExists { ctx }, ReplyView::Exists(true)) == (
            PhaseView::RestoreLoad { ctx },
            RequestView::LoadState { file: ctx.state_path },
        ),
        next_spec(PhaseView::RestoreExists { ctx }, ReplyView::Exists(false)) == (
            PhaseView::ArrangeFocused,
            RequestView::FocusedWindow,
        ),
{
}

/// Resizing needs a saved layout: without a state file nothing is done.
pub proof fn law_resize_needs_saved_layout(direction: ResizeDirection, ctx: WorkspaceContext)
    ensures
        next_spec(PhaseView::ResizeExists { direction, ctx }, ReplyView::Exists(false)) == finish_spec(
            Outcome::Success,
        ),
{
}

/// Every width in percent that is set is the master's 60% for the master
/// window, or the stack's 40%.
pub open spec fn arrangement_widths_ok(actions: Seq<Action>, master_id: u64) -> bool {
    forall|i: int|
        0 <= i < actions.len() ==> match #[trigger] actions[i] {
            Action::SetWindowWidthPercent { id, percent } => (id == master_id && percent
                == MASTER_WIDTH_PERCENT) || percent == STACK_WINDOW_WIDTH_PERCENT,
            _ => true,
        }
}

proof fn lemma_style_widths(entries: Seq<StackEntry>, master_id: u64)
    ensures
        arrangement_widths_ok(style_actions(entries), master_id),
    decreases entries.len(),
{
    if entries.len() > 0 {
        lemma_style_widths(entries.drop_last(), master_id);
        let prev = style_actions(entries.drop_last());
        let all = style_actions(entries);
        assert forall|i: int| 0 <= i < all.len() implies match #[trigger] all[i] {
            Action::SetWindowWidthPercent { id, percent } => (id == master_id && percent
                == MASTER_WIDTH_PERCENT) || percent == STACK_WINDOW_WIDTH_PERCENT,
            _ => true,
        } by {
            if i < prev.len() {
                assert(all[i] == prev[i]);
            }
        }
    }
}

proof fn lemma_widths_concat(a: Seq<Action>, b: Seq<Action>, master_id: u64)
    requires
        arrangement_widths_ok(a, master_id),
        arrangement_widths_ok(b, master_id),
    ensures
        arrangement_widths_ok(a + b, master_id),
{
    let all = a + b;
    assert forall|i: int| 0 <= i < all.len() implies match #[trigger] all[i] {
        Action::SetWindowWidthPercent { id, percent } => (id == master_id && percent
            == MASTER_WIDTH_PERCENT) || percent == STACK_WINDOW_WIDTH_PERCENT,
        _ => true,
    } by {
        if i < a.len() {
            assert(all[i] == a[i]);
        } else {
            assert(all[i] == b[i - a.len()]);
        }
    }
}

proof fn lemma_expel_widths(entries: Seq<StackEntry>, master_id: u64)
    ensures
        arrangement_widths_ok(expel_actions(entries), master_id),
    decreases entries.len(),
{
    if entries.len() > 0 {
        lemma_expel_widths(entries.drop_first(), master_id);
        let tail = seq![Action::FocusWindow { id: entries[0].id }, Action::ExpelWindowFromColumn];
        assert(arrangement_widths_ok(tail, master_id));
        lemma_widths_concat(expel_actions(entries.drop_first()), tail, master_id);
    }
}

/// The workspace a phase of the arrangement works on.
pub open spec fn arrange_context(p: PhaseView) -> Option<WorkspaceContext> {
    match p {
        PhaseView::ArrangeSnapshot { ctx } => Some(ctx),
        PhaseView::ArrangeSave { ctx } => Some(ctx),
        PhaseView::ArrangeMove { ctx, .. } => Some(ctx),
        PhaseView::ArrangeAnchor { ctx, .. } => Some(ctx),
        PhaseView::ArrangeNoAnchorReported { ctx, .. } => Some(ctx),
        PhaseView::ArrangeStack { ctx } => Some(ctx),
        PhaseView::PullFocused { ctx } => Some(ctx),
        PhaseView::PullWindows { ctx, .. } => Some(ctx),
        PhaseView::PullConsume { ctx } => Some(ctx),
        PhaseView::StyleFocused { ctx } => Some(ctx),
        PhaseView::StyleWindows { ctx, .. } => Some(ctx),
        _ => None,
    }
}

/// While the master layout is applied, the focused window becomes the
/// master at 60% of the width and the stacked windows get 40%: no other
/// width is ever set.
pub proof fn law_arrangement_widths(p: PhaseView, r: ReplyView)
    requires
        arrange_context(p) is Some,
    ensures
        next_spec(p, r).1 matches RequestView::Perform { actions, .. } ==> arrangement_widths_ok(
            actions,
            arrange_context(p).unwrap().master_id,
        ),
{
    let ctx = arrange_context(p).unwrap();
    let m = master_actions(ctx.master_id);
    assert(arrangement_widths_ok(m, ctx.master_id)) by {
        assert forall|i: int| 0 <= i < m.len() implies match #[trigger] m[i] {
            Action::SetWindowWidthPercent { id, percent } => (id == ctx.master_id && percent
                == MASTER_WIDTH_PERCENT) || percent == STACK_WINDOW_WIDTH_PERCENT,
            _ => true,
        } by {}
    }
    match p {
        PhaseView::ArrangeAnchor { ctx, guard } => match r {
            ReplyView::Windows(s) => {
                let extra = m + seq![Action::FocusWindow { id: 0 }, Action::SetColumnDisplayNormal];
                assert forall|a: u64| arrangement_widths_ok(
                    m + seq![Action::FocusWindow { id: a }, Action::SetColumnDisplayNormal],
                    ctx.master_id,
                ) by {
                    let all = m + seq![Action::FocusWindow { id: a }, Action::SetColumnDisplayNormal];
                    assert forall|i: int| 0 <= i < all.len() implies match #[trigger] all[i] {
                        Action::SetWindowWidthPercent { id, percent } => (id == ctx.master_id
                            && percent == MASTER_WIDTH_PERCENT) || percent
                            == STACK_WINDOW_WIDTH_PERCENT,
                        _ => true,
                    } by {
                        if i < m.len() {
                            assert(all[i] == m[i]);
                        }
                    }
                }
            },
            _ => {},
        },
        PhaseView::StyleWindows { ctx, column } => match r {
            ReplyView::Windows(s) => {
                let st = style_stack_actions(s, ctx.workspace_id, column);
                let all = st + m;
                let sorted = sorted_stack_entries(s, ctx.workspace_id, column);
                lemma_style_widths(kept_entries(sorted), ctx.master_id);
                lemma_expel_widths(surplus_entries(sorted), ctx.master_id);
                lemma_widths_concat(
                    expel_actions(surplus_entries(sorted)),
                    style_actions(kept_entries(sorted)),
                    ctx.master_id,
                );
                assert forall|i: int| 0 <= i < all.len() implies match #[trigger] all[i] {
                    Action::SetWindowWidthPercent { id, percent } => (id == ctx.master_id
                        && percent == MASTER_WIDTH_PERCENT) || percent
                        == STACK_WINDOW_WIDTH_PERCENT,
                    _ => true,
                } by {
                    if i < st.len() {
                        assert(all[i] == st[i]);
                    } else {
                        assert(all[i] == m[i - st.len()]);
                    }
                }
            },
            _ => {},
        },
        _ => {},
    }
}

/// A window is pulled into the stack column exactly when it holds fewer
/// than three windows and a column stands right of it, and then exactly one
/// window is pulled; otherwise the stack column is styled next.
pub proof fn law_pull_stops_at_three(ctx: WorkspaceContext, column: usize, s: Seq<WindowInfo>)
    ensures
        ({
            let (p2, req) = next_spec(PhaseView::PullWindows { ctx, column }, ReplyView::Windows(s));
            &&& req is Perform ==> column_members(s, ctx.workspace_id, column).len()
                < MAX_STACK_WINDOWS && has_column_right_of(s, ctx.workspace_id, column)
            &&& req is Perform ==> req == (RequestView::Perform {
                actions: seq![Action::ConsumeWindowIntoColumn],
                best_effort: false,
            })
            &&& !(req is Perform) ==> p2 == (PhaseView::StyleFocused { ctx })
            &&& (column_members(s, ctx.workspace_id, column).len() < MAX_STACK_WINDOWS
                && has_column_right_of(s, ctx.workspace_id, column)) ==> p2 == (PhaseView::PullConsume {
                ctx,
            }) && req == (RequestView::Perform {
                actions: seq![Action::ConsumeWindowIntoColumn],
                best_effort: false,
            })
            &&& !(column_members(s, ctx.workspace_id, column).len() < MAX_STACK_WINDOWS
                && has_column_right_of(s, ctx.workspace_id, column)) ==> p2 == (PhaseView::StyleFocused {
                ctx,
            }) && req == RequestView::FocusedWindow
        }),
{
}

/// The windows that an action list sets to the stack width, in order.
pub open spec fn stack_width_ids(actions: Seq<Action>) -> Seq<u64>
    decreases actions.len(),
{
    if actions.len() == 0 {
        Seq::empty()
    } else {
        let prev = stack_width_ids(actions.drop_last());
        match actions.last() {
            Action::SetWindowWidthPercent { id, percent } => if percent
                == STACK_WINDOW_WIDTH_PERCENT {
                prev.push(id)
            } else {
                prev
            },
            _ => prev,
        }
    }
}

proof fn lemma_stack_width_ids_concat(a: Seq<Action>, b: Seq<Action>)
    ensures
        stack_width_ids(a + b) == stack_width_ids(a) + stack_width_ids(b),
    decreases b.len(),
{
    if b.len() == 0 {
        assert(a + b == a);
    } else {
        lemma_stack_width_ids_concat(a, b.drop_last());
        assert((a + b).drop_last() == a + b.drop_last());
        assert((a + b).last() == b.last());
    }
}

proof fn lemma_stack_width_ids_style(entries: Seq<StackEntry>)
    ensures
        stack_width_ids(style_actions(entries)) == entries.map_values(|e: StackEntry| e.id),
    decreases entries.len(),
{
    if entries.len() > 0 {
        let last = entries.last();
        let tail = seq![
            Action::SetWindowWidthPercent { id: last.id, percent: STACK_WINDOW_WIDTH_PERCENT },
            Action::ResetWindowHeight { id: last.id },
        ];
        lemma_stack_width_ids_style(entries.drop_last());
        lemma_stack_width_ids_concat(style_actions(entries.drop_last()), tail);
        assert(tail.drop_last() == seq![
            Action::SetWindowWidthPercent { id: last.id, percent: STACK_WINDOW_WIDTH_PERCENT },
        ]);
        assert(tail.drop_last().drop_last() == Seq::<Action>::empty());
        reveal_with_fuel(stack_width_ids, 3);
        assert(stack_width_ids(tail) == seq![last.id]);
        assert(entries.map_values(|e: StackEntry| e.id) == entries.drop_last().map_values(
            |e: StackEntry| e.id,
        ).push(last.id));
    } else {
        assert(entries.map_values(|e: StackEntry| e.id) == Seq::<u64>::empty());
    }
}

proof fn lemma_stack_width_ids_expel(entries: Seq<StackEntry>)
    ensures
        stack_width_ids(expel_actions(entries)) == Seq::<u64>::empty(),
    decreases entries.len(),
{
    if entries.len() > 0 {
        let tail = seq![Action::FocusWindow { id: entries[0].id }, Action::ExpelWindowFromColumn];
        lemma_stack_width_ids_expel(entries.drop_first());
        lemma_stack_width_ids_concat(expel_actions(entries.drop_first()), tail);
        assert(tail.drop_last() == seq![Action::FocusWindow { id: entries[0].id }]);
        assert(tail.drop_last().drop_last() == Seq::<Action>::empty());
        reveal_with_fuel(stack_width_ids, 3);
        assert(stack_width_ids(tail) == Seq::<u64>::empty());
    }
}

proof fn lemma_stack_width_ids_master(master_id: u64)
    ensures
        stack_width_ids(master_actions(master_id)) == Seq::<u64>::empty(),
{
    let m = master_actions(master_id);
    assert(m.drop_last() == seq![Action::FocusWindow { id: master_id }]);
    assert(m.drop_last().drop_last() == Seq::<Action>::empty());
    reveal_with_fuel(stack_width_ids, 3);
}

/// Whether `id` is a tiled window of the workspace in `column` of `s`.
pub open spec fn in_column(s: Seq<WindowInfo>, workspace_id: u64, column: usize, id: u64) -> bool {
    exists|j: int|
        0 <= j < s.len() && #[trigger] s[j].id == id && is_tiled_in(s[j], workspace_id) && tiled_column(
            s[j],
            workspace_id,
        ) == column
}

/// Up to three windows are stacked at 40%. In every request of an
/// arrangement at most [`MAX_STACK_WINDOWS`] windows get the stack width;
/// only the request that styles the stack column sets it, and then only on
/// tiled windows of the workspace in that column. After that request the
/// run ends at the next reply, so no other window gets the stack width.
pub proof fn law_stack_holds_at_most_three(p: PhaseView, r: ReplyView, r2: ReplyView)
    requires
        arrange_context(p) is Some,
    ensures
        next_spec(p, r).1 matches RequestView::Perform { actions, .. } ==> {
            let ids = stack_width_ids(actions);
            &&& ids.len() <= MAX_STACK_WINDOWS
            &&& ids.to_set().len() <= MAX_STACK_WINDOWS
            &&& ids.len() > 0 ==> p is StyleWindows && r is Windows
            &&& p matches PhaseView::StyleWindows { ctx, column } ==> r matches ReplyView::Windows(s)
                ==> forall|k: int| 0 <= k < ids.len() ==> in_column(s, ctx.workspace_id, column, #[trigger] ids[k])
        },
        p is StyleWindows ==> next_spec(next_spec(p, r).0, r2).1 is Finish,
{
    let ctx = arrange_context(p).unwrap();
    let m = master_actions(ctx.master_id);
    lemma_stack_width_ids_master(ctx.master_id);
    reveal_with_fuel(stack_width_ids, 3);
    match next_spec(p, r).1 {
        RequestView::Perform { actions, .. } => {
            stack_width_ids(actions).lemma_cardinality_of_set();
            match p {
                PhaseView::ArrangeSave { ctx } => {
                    let a = seq![
                        Action::FocusWindow { id: ctx.master_id },
                        Action::MoveColumnToIndex { index: crate::action::MASTER_COLUMN_INDEX },
                    ];
                    assert(a.drop_last() == seq![Action::FocusWindow { id: ctx.master_id }]);
                    assert(a.drop_last().drop_last() == Seq::<Action>::empty());
                },
                PhaseView::ArrangeAnchor { ctx, guard } => match r {
                    ReplyView::Windows(s) => {
                        match find_window_spec(s, ctx.master_id) {
                            Some(master) => match master.pos_in_scrolling_layout {
                                Some((master_column, _)) => match anchor_spec(
                                    s,
                                    ctx.workspace_id,
                                    master_column,
                                    ctx.master_id,
                                ) {
                                    Some(a) => {
                                        let t = seq![
                                            Action::FocusWindow { id: a },
                                            Action::SetColumnDisplayNormal,
                                        ];
                                        lemma_stack_width_ids_concat(m, t);
                                        assert(t.drop_last() == seq![Action::FocusWindow { id: a }]);
                                        assert(t.drop_last().drop_last() == Seq::<Action>::empty());
                                    },
                                    None => {},
                                },
                                None => {},
                            },
                            None => {},
                        }
                    },
                    _ => {},
                },
                PhaseView::PullWindows { ctx, column } => {
                    let a = seq![Action::ConsumeWindowIntoColumn];
                    assert(a.drop_last() == Seq::<Action>::empty());
                },
                PhaseView::StyleWindows { ctx, column } => match r {
                    ReplyView::Windows(s) => {
                        let sorted = sorted_stack_entries(s, ctx.workspace_id, column);
                        let kept = kept_entries(sorted);
                        let ex = expel_actions(surplus_entries(sorted));
                        let st = style_actions(kept);
                        lemma_stack_width_ids_expel(surplus_entries(sorted));
                        lemma_stack_width_ids_style(kept);
                        lemma_stack_width_ids_concat(ex, st);
                        lemma_stack_width_ids_concat(ex + st, m);
                        let ids = stack_width_ids(actions);
                        assert(ids == kept.map_values(|e: StackEntry| e.id));
                        let entries = stack_entries_of(s, ctx.workspace_id, column);
                        crate::sort::lemma_stable_sorted_exists(entries);
                        assert forall|k: int| 0 <= k < ids.len() implies in_column(
                            s,
                            ctx.workspace_id,
                            column,
                            #[trigger] ids[k],
                        ) by {
                            broadcast use Seq::lemma_filter_map_contains;

                            assert(kept[k] == sorted[k]);
                            lemma_sorted_member(sorted, entries, k);
                            let e = sorted[k];
                            let t = choose|t: WindowInfo|
                                #[trigger] s.contains(t) && stack_entry(t, ctx.workspace_id, column)
                                    == Some(e);
                            let j = choose|j: int| 0 <= j < s.len() && s[j] == t;
                            assert(s[j].id == ids[k]);
                        }
                    },
                    _ => {},
                },
                PhaseView::StyleFocused { ctx } => {},
                _ => {},
            }
        },
        _ => {},
    }
}

/// While moving one window back, no column is acted on twice: a step is
/// taken only in a column not seen before, and the column is remembered
/// (a column seen before is reported as a cycle and the window given up).
pub proof fn law_restore_never_repeats_a_column(p: RestoreProgressView, s: Seq<WindowInfo>)
    requires
        progress_wf(p),
    ensures
        ({
            let (p2, req) = next_spec(PhaseView::RestoreColumns { progress: p }, ReplyView::Windows(s));
            p2 is RestoreStep ==> exists|c: crate::restore::ColumnSnapshotView|
                !p.seen.contains(c) && p2 == (PhaseView::RestoreStep {
                    progress: RestoreProgressView { seen: p.seen.push(c), ..p },
                })
        }),
{
    let t = p.targets[p.next as int];
    match crate::restore::snapshot_spec(s, t.id, t.column, p.desired) {
        Some(snap) => {
            let (p2, req) = next_spec(PhaseView::RestoreColumns { progress: p }, ReplyView::Windows(s));
            if p2 is RestoreStep {
                assert(!p.seen.contains(snap.column));
                assert(p2 == (PhaseView::RestoreStep {
                    progress: RestoreProgressView { seen: p.seen.push(snap.column), ..p },
                }));
            }
        },
        None => {},
    }
}

/// A resize gives the master and the stack widths that add up to 100%,
/// each a multiple of 10 within 10%..=90%.
pub proof fn law_resize_widths(layout: ActiveLayoutView, direction: ResizeDirection)
    requires
        layout.total_width > 0,
        layout.master_width > 0,
        layout.stack_width > 0,
    ensures
        ({
            let plan = resize_plan_spec(layout, direction);
            &&& plan.master_width_percent + plan.stack_width_percent == 100
            &&& 10 <= plan.master_width_percent <= 90
            &&& 10 <= plan.stack_width_percent <= 90
            &&& plan.master_width_percent % 10 == 0
            &&& plan.stack_width_percent % 10 == 0
        }),
{
    let w = match direction {
        ResizeDirection::GrowMaster => layout.stack_width,
        ResizeDirection::ShrinkMaster => layout.master_width,
    };
    let k = crate::resize::rounded_tenths(w, layout.total_width);
    assert((10 * k - 10) % 10 == 0) by (nonlinear_arith);
}

proof fn lemma_sorted_member<T: SortKey>(sorted: Seq<T>, input: Seq<T>, i: int)
    requires
        is_stable_sort_of(sorted, input),
        0 <= i < sorted.len(),
    ensures
        input.contains(sorted[i]),
{
    broadcast use vstd::seq_lib::group_filter_ensures, Seq::lemma_filter_contains_rev;

    let x = sorted[i];
    let k = x.sort_key();
    assert(key_class(sorted, k) == key_class(input, k));
    assert(key_class(sorted, k).contains(sorted[i]));
    assert(key_class(input, k).contains(x));
}

/// The saved layout holds only tiled windows of the workspace, each with
/// its size clamped to at least one pixel and its position; ordered by
/// (column, row, id).
pub proof fn law_saved_layout_entries(windows: Seq<WindowInfo>, master_id: u64, workspace_id: u64, i: int)
    requires
        0 <= i < saved_layout_spec(windows, master_id, workspace_id).windows.len(),
    ensures
        ({
            let e = saved_layout_spec(windows, master_id, workspace_id).windows[i];
            &&& exists|j: int|
                0 <= j < windows.len() && is_tiled_in(windows[j], workspace_id) && #[trigger] saved_entry(
                    windows[j],
                    workspace_id,
                ) == Some(e)
            &&& exists|j: int|
                0 <= j < windows.len() && #[trigger] windows[j].id == e.id && is_tiled_in(
                    windows[j],
                    workspace_id,
                ) && windows[j].pos_in_scrolling_layout == Some((e.column, e.row)) && e.width == (
                if windows[j].window_size.0 < 1 {
                    1
                } else {
                    windows[j].window_size.0
                }) && e.height == (if windows[j].window_size.1 < 1 {
                    1
                } else {
                    windows[j].window_size.1
                })
            &&& e.width >= 1
            &&& e.height >= 1
        }),
{
    broadcast use Seq::lemma_filter_map_contains;

    let saved = saved_windows_of(windows, workspace_id);
    let sorted = stable_sorted(saved);
    crate::sort::lemma_stable_sorted_exists(saved);
    lemma_sorted_member(sorted, saved, i);
    let e = sorted[i];
    let t = choose|t: WindowInfo| #[trigger] windows.contains(t) && saved_entry(t, workspace_id) == Some(e);
    let j = choose|j: int| 0 <= j < windows.len() && windows[j] == t;
    assert(saved_entry(windows[j], workspace_id) == Some(e));
    assert(windows[j].id == e.id);
}

proof fn lemma_input_member<T: SortKey>(sorted: Seq<T>, input: Seq<T>, x: T)
    requires
        is_stable_sort_of(sorted, input),
        input.contains(x),
    ensures
        sorted.contains(x),
{
    broadcast use vstd::seq_lib::group_filter_ensures, Seq::lemma_filter_contains_rev;

    let k = x.sort_key();
    assert(key_class(sorted, k) == key_class(input, k));
    assert(key_class(input, k).contains(x));
    assert(key_class(sorted, k).contains(x));
}

proof fn lemma_saved_windows_has(s: Seq<WindowInfo>, workspace_id: u64, j: int)
    requires
        0 <= j < s.len(),
        saved_entry(s[j], workspace_id) is Some,
    ensures
        saved_windows_of(s, workspace_id).contains(saved_entry(s[j], workspace_id).unwrap()),
    decreases s.len(),
{
    let e = saved_entry(s[j], workspace_id).unwrap();
    let r = saved_windows_of(s, workspace_id);
    let prev = saved_windows_of(s.drop_last(), workspace_id);
    if j == s.len() - 1 {
        assert(r == prev + seq![e]);
        assert(r[r.len() - 1] == e);
    } else {
        lemma_saved_windows_has(s.drop_last(), workspace_id, j);
        assert(s.drop_last()[j] == s[j]);
        let k = choose|k: int| 0 <= k < prev.len() && prev[k] == e;
        match saved_entry(s.last(), workspace_id) {
            Some(x) => {
                assert(r == prev + seq![x]);
                assert(r[k] == e);
            },
            None => {
                assert(r == prev);
            },
        }
    }
}

/// Every tiled window of the workspace is saved, with its id, position,
/// width and height (each at least one pixel); windows that float or are
/// on another workspace are not.
pub proof fn law_saved_layout_complete(windows: Seq<WindowInfo>, master_id: u64, workspace_id: u64, j: int)
    requires
        0 <= j < windows.len(),
    ensures
        ({
            let w = windows[j];
            let saved = saved_layout_spec(windows, master_id, workspace_id).windows;
            &&& is_tiled_in(w, workspace_id) ==> exists|i: int|
                0 <= i < saved.len() && #[trigger] saved[i] == (crate::state::SavedWindowSize {
                    id: w.id,
                    width: if w.window_size.0 < 1 {
                        1
                    } else {
                        w.window_size.0
                    },
                    height: if w.window_size.1 < 1 {
                        1
                    } else {
                        w.window_size.1
                    },
                    column: tiled_column(w, workspace_id),
                    row: crate::window::tiled_row(w, workspace_id),
                })
            &&& saved_layout_spec(windows, master_id, workspace_id).workspace_id == workspace_id
            &&& saved_layout_spec(windows, master_id, workspace_id).master_id == master_id
        }),
{
    broadcast use Seq::lemma_filter_map_contains;

    let w = windows[j];
    let entries = saved_windows_of(windows, workspace_id);
    let sorted = stable_sorted(entries);
    if is_tiled_in(w, workspace_id) {
        let e = saved_entry(w, workspace_id).unwrap();
        lemma_saved_windows_has(windows, workspace_id, j);
        crate::sort::lemma_stable_sorted_exists(entries);
        lemma_input_member(sorted, entries, e);
        let i = choose|i: int| 0 <= i < sorted.len() && sorted[i] == e;
        let saved = saved_layout_spec(windows, master_id, workspace_id).windows;
        assert(saved == sorted);
        assert(saved[i] == (crate::state::SavedWindowSize {
            id: w.id,
            width: if w.window_size.0 < 1 {
                1
            } else {
                w.window_size.0
            },
            height: if w.window_size.1 < 1 {
                1
            } else {
                w.window_size.1
            },
            column: tiled_column(w, workspace_id),
            row: crate::window::tiled_row(w, workspace_id),
        }));
    }
}

/// Restored sizes are at least one pixel each way.
pub proof fn law_restored_sizes_positive(state: SavedLayoutView)
    ensures
        forall|i: int|
            0 <= i < restore_size_actions(state).len() ==> match #[trigger] restore_size_actions(
                state,
            )[i] {
                Action::SetWindowWidthFixed { width, .. } => width >= 1,
                Action::SetWindowHeightFixed { height, .. } => height >= 1,
                _ => true,
            },
{
    lemma_size_actions_positive(state.windows);
    let all = restore_size_actions(state);
    let prev = size_actions(state.windows);
    assert forall|i: int| 0 <= i < all.len() implies match #[trigger] all[i] {
        Action::SetWindowWidthFixed { width, .. } => width >= 1,
        Action::SetWindowHeightFixed { height, .. } => height >= 1,
        _ => true,
    } by {
        if i < prev.len() {
            assert(all[i] == prev[i]);
        }
    }
}

proof fn lemma_size_actions_positive(windows: Seq<crate::state::SavedWindowSize>)
    ensures
        forall|i: int|
            0 <= i < size_actions(windows).len() ==> match #[trigger] size_actions(windows)[i] {
                Action::SetWindowWidthFixed { width, .. } => width >= 1,
                Action::SetWindowHeightFixed { height, .. } => height >= 1,
                _ => true,
            },
    decreases windows.len(),
{
    if windows.len() > 0 {
        lemma_size_actions_positive(windows.drop_last());
        let prev = size_actions(windows.drop_last());
        let all = size_actions(windows);
        assert forall|i: int| 0 <= i < all.len() implies match #[trigger] all[i] {
            Action::SetWindowWidthFixed { width, .. } => width >= 1,
            Action::SetWindowHeightFixed { height, .. } => height >= 1,
            _ => true,
        } by {
            if i < prev.len() {
                assert(all[i] == prev[i]);
            }
        }
    }
}


/// A resize works on the master saved with the layout, whichever window is
/// focused: once the state file of the focused window's workspace is found
/// and loaded, the windows are asked for and the resize is the one of the
/// layout whose master is the saved master.
pub proof fn law_resize_uses_saved_master(
    direction: ResizeDirection,
    focused: WindowInfo,
    workspace_id: u64,
    state: SavedLayoutView,
    s: Seq<WindowInfo>,
)
    requires
        focused.workspace_id == Some(workspace_id),
    ensures
        ({
            let file = StateFile { workspace_id };
            let (p1, q1) = next_spec(
                PhaseView::ResizeFocused { direction },
                ReplyView::Focused(Some(focused)),
            );
            let (p2, q2) = next_spec(p1, ReplyView::Exists(true));
            let (p3, q3) = next_spec(p2, ReplyView::Loaded(state));
            let (p4, q4) = next_spec(p3, ReplyView::Windows(s));
            &&& q1 == RequestView::StateFileExists { file }
            &&& q2 == RequestView::LoadState { file }
            &&& q3 == RequestView::Windows
            &&& q4 == match resize_spec(s, workspace_id, state.master_id, direction) {
                None => RequestView::Finish { outcome: Outcome::Success },
                Some(actions) => RequestView::Perform { actions, best_effort: false },
            }
        }),
{
}

/// Every window saved in a column (columns count from 1) is moved back to
/// that column and row, and nothing else is: the restore targets are
/// exactly the saved entries with a column above 0.
pub proof fn law_restore_targets_cover_saved(saved: Seq<crate::state::SavedWindowSize>)
    ensures
        ({
            let targets = restore_targets_spec(saved);
            &&& forall|i: int|
                0 <= i < saved.len() && saved[i].column > 0 ==> exists|k: int|
                    0 <= k < targets.len() && #[trigger] targets[k] == (RestoreEntry {
                        id: saved[i].id,
                        column: saved[i].column,
                        row: saved[i].row,
                    })
            &&& forall|k: int|
                0 <= k < targets.len() ==> #[trigger] targets[k].column > 0 && exists|i: int|
                    0 <= i < saved.len() && saved[i].id == targets[k].id && saved[i].column
                        == targets[k].column && saved[i].row == targets[k].row
        }),
{
    broadcast use vstd::seq_lib::group_filter_ensures, Seq::lemma_filter_contains_rev;

    let mapped = saved.map_values(|w: crate::state::SavedWindowSize| entry_of(w));
    let sorted = stable_sorted(mapped);
    let targets = restore_targets_spec(saved);
    crate::sort::lemma_stable_sorted_exists(mapped);
    assert(targets == sorted.filter(|e: RestoreEntry| e.column > 0));
    assert forall|i: int| 0 <= i < saved.len() && saved[i].column > 0 implies exists|k: int|
        0 <= k < targets.len() && #[trigger] targets[k] == (RestoreEntry {
            id: saved[i].id,
            column: saved[i].column,
            row: saved[i].row,
        }) by {
        let e = entry_of(saved[i]);
        assert(mapped[i] == e);
        assert(mapped.contains(e));
        lemma_input_member(sorted, mapped, e);
        assert(targets.contains(e));
        let k = choose|k: int| 0 <= k < targets.len() && targets[k] == e;
        assert(targets[k] == e);
    }
    assert forall|k: int| 0 <= k < targets.len() implies #[trigger] targets[k].column > 0 && exists|i: int|
        0 <= i < saved.len() && saved[i].id == targets[k].id && saved[i].column == targets[k].column
            && saved[i].row == targets[k].row by {
        let e = targets[k];
        assert(targets.contains(e));
        assert(sorted.contains(e));
        let m = choose|m: int| 0 <= m < sorted.len() && sorted[m] == e;
        lemma_sorted_member(sorted, mapped, m);
        let i = choose|i: int| 0 <= i < mapped.len() && mapped[i] == e;
        assert(saved[i].id == e.id);
    }
}

/// When the window being moved back is already in its saved column with
/// no window that belongs elsewhere (or is gone), the restore goes on with
/// the next window, with no column remembered; after the last window the
/// saved sizes are restored.
pub proof fn law_restore_done_goes_on(p: RestoreProgressView, s: Seq<WindowInfo>)
    requires
        progress_wf(p),
    ensures
        ({
            let t = p.targets[p.next as int];
            let snap = snapshot_spec(s, t.id, t.column, p.desired);
            (snap is None || (snap.unwrap().column.index == t.column
                && !snap.unwrap().has_foreign_windows)) ==> next_spec(
                PhaseView::RestoreColumns { progress: p },
                ReplyView::Windows(s),
            ) == if p.next + 1 < p.targets.len() {
                (
                    PhaseView::RestoreColumns {
                        progress: RestoreProgressView {
                            ctx: p.ctx,
                            state: p.state,
                            targets: p.targets,
                            desired: p.desired,
                            next: (p.next + 1) as usize,
                            seen: Seq::empty(),
                        },
                    },
                    RequestView::Windows,
                )
            } else {
                (
                    PhaseView::RestoreSizes { ctx: p.ctx },
                    RequestView::Perform {
                        actions: restore_size_actions(p.state),
                        best_effort: true,
                    },
                )
            }
        }),
{
}

} // verus!
