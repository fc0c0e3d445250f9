//! One run of the program as a state machine.
//!
//! The caller creates a [`Session`] for the command, feeds it
//! [`Reply::Start`], and then repeatedly performs the [`Request`] it gets
//! and feeds back the [`Reply`] until the request is [`Request::Finish`].
//! All decisions are taken here; the caller only talks to niri and to the
//! file system.
//!
//! Failed requests are replied to with [`Reply::Failed`], carrying an index
//! that the caller chose for the error; outcomes and reports name errors by
//! that index.

use std::collections::HashMap;
use vstd::prelude::*;
use crate::action::{
    Action, MASTER_COLUMN_INDEX, MASTER_WIDTH_PERCENT, MAX_STACK_WINDOWS, focus, focus_with_width,
    focus_with_width_spec,
};
use crate::cli::AppCommand;
use crate::resize::{ResizeDirection, resize, resize_spec};
use crate::restore::{
    ColumnSnapshot, ColumnSnapshotView, RestoreDecision, RestoreEntry, apply_restore_decision,
    decide_restore_action, decide_spec, decision_actions, desired_columns_by_id, desired_map,
    find_window, find_window_spec, restore_size_actions, restore_sizes, restore_targets,
    restore_targets_spec, seen_contains, snapshot_spec, snapshot_target, snapshot_views,
};
use crate::stack::{
    anchor_spec, nearest_right_column_anchor, pull_windows_into_stack, pulls_more,
    style_stack_actions, style_stack_column,
};
use crate::state::{
    CleanupGuard, SavedLayoutState, SavedLayoutView, StateFile, WorkspaceContext,
    current_workspace, current_workspace_spec, saved_layout_spec, saved_layout_state,
};
use crate::window::WindowInfo;

verus! {

broadcast use vstd::std_specs::hash::group_hash_axioms;

/// How a run ended.
#[derive(Clone, Copy, Debug, PartialEq, Eq)]
pub enum Outcome {
    /// The run succeeded (possibly doing nothing).
    Success,
    /// The run failed with the error of the reply that carried this index.
    Failed { error: usize },
    /// A reply did not answer the request it followed.
    ProtocolViolation,
}

/// A line reported on the error output.
#[derive(Clone, Copy, Debug, PartialEq, Eq)]
pub enum Report {
    /// Restoring the saved layout failed; the state file is then removed.
    RestoreFailed { file: StateFile, error: usize },
    /// Removing a stale state file failed.
    RemoveStaleStateFailed { file: StateFile, error: usize },
    /// No column right of the master column: there is nothing to stack.
    NoRightColumns { workspace_id: u64, master_id: u64 },
    /// Restoring a window came back to a column it had been in already.
    RestoreCycleDetected { window_id: u64, column: usize },
}

/// What the session asks the caller to do next.
#[derive(Debug)]
pub enum Request {
    /// Ask niri for the focused window; reply [`Reply::Focused`].
    FocusedWindow,
    /// Ask niri for all windows; reply [`Reply::Windows`].
    Windows,
    /// Perform the actions in order, stopping at the first that fails;
    /// reply [`Reply::Done`]. With `best_effort`, only sending an action
    /// can fail; otherwise niri must also report it handled.
    Perform { actions: Vec<Action>, best_effort: bool },
    /// Whether the state file exists; reply [`Reply::Exists`].
    StateFileExists { file: StateFile },
    /// Read and parse the state file; reply [`Reply::Loaded`].
    LoadState { file: StateFile },
    /// Write the state file (atomically); reply [`Reply::Done`].
    SaveState { file: StateFile, state: SavedLayoutState },
    /// Remove the state file; reply [`Reply::Done`], or
    /// [`Reply::Failed`] with `not_found` when it did not exist.
    RemoveStateFile { file: StateFile },
    /// Report a line on the error output; reply [`Reply::Done`].
    Report { report: Report },
    /// The run is over.
    Finish { outcome: Outcome },
}

/// The caller's answer to the previous request.
#[derive(Debug)]
pub enum Reply {
    /// The first reply, before any request.
    Start,
    Focused(Option<WindowInfo>),
    Windows(Vec<WindowInfo>),
    Exists(bool),
    Loaded(SavedLayoutState),
    Done,
    /// The request failed; `error` indexes the caller's record of the
    /// error, `not_found` says whether a file to remove did not exist.
    Failed { error: usize, not_found: bool },
}

/// [`Request`] with its contents as plain values and sequences.
#[verifier::ext_equal]
pub enum RequestView {
    FocusedWindow,
    Windows,
    Perform { actions: Seq<Action>, best_effort: bool },
    StateFileExists { file: StateFile },
    LoadState { file: StateFile },
    SaveState { file: StateFile, state: SavedLayoutView },
    RemoveStateFile { file: StateFile },
    Report { report: Report },
    Finish { outcome: Outcome },
}

impl View for Request {
    type V = RequestView;

    open spec fn view(&self) -> RequestView {
        match self {
            Request::FocusedWindow => RequestView::FocusedWindow,
            Request::Windows => RequestView::Windows,
            Request::Perform { actions, best_effort } => RequestView::Perform {
                actions: actions@,
                best_effort: *best_effort,
            },
            Request::StateFileExists { file } => RequestView::StateFileExists { file: *file },
            Request::LoadState { file } => RequestView::LoadState { file: *file },
            Request::SaveState { file, state } => RequestView::SaveState {
                file: *file,
                state: state@,
            },
            Request::RemoveStateFile { file } => RequestView::RemoveStateFile { file: *file },
            Request::Report { report } => RequestView::Report { report: *report },
            Request::Finish { outcome } => RequestView::Finish { outcome: *outcome },
        }
    }
}

/// [`Reply`] with its contents as plain values and sequences.
#[verifier::ext_equal]
pub enum ReplyView {
    Start,
    Focused(Option<WindowInfo>),
    Windows(Seq<WindowInfo>),
    Exists(bool),
    Loaded(SavedLayoutView),
    Done,
    Failed { error: usize, not_found: bool },
}

impl View for Reply {
    type V = ReplyView;

    open spec fn view(&self) -> ReplyView {
        match self {
            Reply::Start => ReplyView::Start,
            Reply::Focused(f) => ReplyView::Focused(*f),
            Reply::Windows(w) => ReplyView::Windows(w@),
            Reply::Exists(e) => ReplyView::Exists(*e),
            Reply::Loaded(s) => ReplyView::Loaded(s@),
            Reply::Done => ReplyView::Done,
            Reply::Failed { error, not_found } => ReplyView::Failed {
                error: *error,
                not_found: *not_found,
            },
        }
    }
}

/// Progress of restoring the saved columns.
#[derive(Debug)]
pub struct RestoreProgress {
    pub ctx: WorkspaceContext,
    pub state: SavedLayoutState,
    /// The windows to move back, in order.
    pub targets: Vec<RestoreEntry>,
    /// The column each saved window belongs to.
    pub desired: HashMap<u64, usize>,
    /// Index of the window being moved back.
    pub next: usize,
    /// Columns this window has been in since it was started on.
    pub seen: Vec<ColumnSnapshot>,
}

/// [`RestoreProgress`] with its contents as plain values and sequences.
#[verifier::ext_equal]
pub struct RestoreProgressView {
    pub ctx: WorkspaceContext,
    pub state: SavedLayoutView,
    pub targets: Seq<RestoreEntry>,
    pub desired: Map<u64, usize>,
    pub next: usize,
    pub seen: Seq<ColumnSnapshotView>,
}

impl View for RestoreProgress {
    type V = RestoreProgressView;

    open spec fn view(&self) -> RestoreProgressView {
        RestoreProgressView {
            ctx: self.ctx,
            state: self.state@,
            targets: self.targets@,
            desired: self.desired@,
            next: self.next,
            seen: snapshot_views(self.seen@),
        }
    }
}

/// Where a session stands: the request it is waiting on an answer to.
#[derive(Debug)]
pub enum Phase {
    Start { command: AppCommand },
    ResizeFocused { direction: ResizeDirection },
    ResizeExists { direction: ResizeDirection, ctx: WorkspaceContext },
    ResizeLoad { direction: ResizeDirection, ctx: WorkspaceContext },
    ResizeWindows { direction: ResizeDirection, ctx: WorkspaceContext, master_id: u64 },
    ResizeApply,
    ToggleFocused,
    RestoreExists { ctx: WorkspaceContext },
    RestoreLoad { ctx: WorkspaceContext },
    RestoreColumns { progress: RestoreProgress },
    RestoreStep { progress: RestoreProgress },
    RestoreCycleReported { progress: RestoreProgress },
    RestoreSizes { ctx: WorkspaceContext },
    RestoreRemove { ctx: WorkspaceContext },
    RestoreFailedReported { ctx: WorkspaceContext },
    StaleRemove { ctx: WorkspaceContext },
    StaleRemoveReported,
    ArrangeFocused,
    ArrangeSnapshot { ctx: WorkspaceContext },
    ArrangeSave { ctx: WorkspaceContext },
    ArrangeMove { ctx: WorkspaceContext, guard: CleanupGuard },
    ArrangeAnchor { ctx: WorkspaceContext, guard: CleanupGuard },
    ArrangeNoAnchorReported { ctx: WorkspaceContext, guard: CleanupGuard },
    ArrangeStack { ctx: WorkspaceContext },
    PullFocused { ctx: WorkspaceContext },
    PullWindows { ctx: WorkspaceContext, column: usize },
    PullConsume { ctx: WorkspaceContext },
    StyleFocused { ctx: WorkspaceContext },
    StyleWindows { ctx: WorkspaceContext, column: usize },
    ArrangeFinal,
    CleanupRemove { file: StateFile, outcome: Outcome },
    CleanupReported { outcome: Outcome },
    Finished { outcome: Outcome },
}

/// [`Phase`] with its contents as plain values and sequences.
#[verifier::ext_equal]
pub enum PhaseView {
    Start { command: AppCommand },
    ResizeFocused { direction: ResizeDirection },
    ResizeExists { direction: ResizeDirection, ctx: WorkspaceContext },
    ResizeLoad { direction: ResizeDirection, ctx: WorkspaceContext },
    ResizeWindows { direction: ResizeDirection, ctx: WorkspaceContext, master_id: u64 },
    ResizeApply,
    ToggleFocused,
    RestoreExists { ctx: WorkspaceContext },
    RestoreLoad { ctx: WorkspaceContext },
    RestoreColumns { progress: RestoreProgressView },
    RestoreStep { progress: RestoreProgressView },
    RestoreCycleReported { progress: RestoreProgressView },
    RestoreSizes { ctx: WorkspaceContext },
    RestoreRemove { ctx: WorkspaceContext },
    RestoreFailedReported { ctx: WorkspaceContext },
    StaleRemove { ctx: WorkspaceContext },
    StaleRemoveReported,
    ArrangeFocused,
    ArrangeSnapshot { ctx: WorkspaceContext },
    ArrangeSave { ctx: WorkspaceContext },
    ArrangeMove { ctx: WorkspaceContext, guard: CleanupGuard },
    ArrangeAnchor { ctx: WorkspaceContext, guard: CleanupGuard },
    ArrangeNoAnchorReported { ctx: WorkspaceContext, guard: CleanupGuard },
    ArrangeStack { ctx: WorkspaceContext },
    PullFocused { ctx: WorkspaceContext },
    PullWindows { ctx: WorkspaceContext, column: usize },
    PullConsume { ctx: WorkspaceContext },
    StyleFocused { ctx: WorkspaceContext },
    StyleWindows { ctx: WorkspaceContext, column: usize },
    ArrangeFinal,
    CleanupRemove { file: StateFile, outcome: Outcome },
    CleanupReported { outcome: Outcome },
    Finished { outcome: Outcome },
}

impl View for Phase {
    type V = PhaseView;

    open spec fn view(&self) -> PhaseView {
        match self {
            Phase::Start { command } => PhaseView::Start { command: *command },
            Phase::ResizeFocused { direction } => PhaseView::ResizeFocused { direction: *direction },
            Phase::ResizeExists { direction, ctx } => PhaseView::ResizeExists {
                direction: *direction,
                ctx: *ctx,
            },
            Phase::ResizeLoad { direction, ctx } => PhaseView::ResizeLoad {
                direction: *direction,
                ctx: *ctx,
            },
            Phase::ResizeWindows { direction, ctx, master_id } => PhaseView::ResizeWindows {
                direction: *direction,
                ctx: *ctx,
                master_id: *master_id,
            },
            Phase::ResizeApply => PhaseView::ResizeApply,
            Phase::ToggleFocused => PhaseView::ToggleFocused,
            Phase::RestoreExists { ctx } => PhaseView::RestoreExists { ctx: *ctx },
            Phase::RestoreLoad { ctx } => PhaseView::RestoreLoad { ctx: *ctx },
            Phase::RestoreColumns { progress } => PhaseView::RestoreColumns {
                progress: progress@,
            },
            Phase::RestoreStep { progress } => PhaseView::RestoreStep { progress: progress@ },
            Phase::RestoreCycleReported { progress } => PhaseView::RestoreCycleReported {
                progress: progress@,
            },
            Phase::RestoreSizes { ctx } => PhaseView::RestoreSizes { ctx: *ctx },
            Phase::RestoreRemove { ctx } => PhaseView::RestoreRemove { ctx: *ctx },
            Phase::RestoreFailedReported { ctx } => PhaseView::RestoreFailedReported { ctx: *ctx },
            Phase::StaleRemove { ctx } => PhaseView::StaleRemove { ctx: *ctx },
            Phase::StaleRemoveReported => PhaseView::StaleRemoveReported,
            Phase::ArrangeFocused => PhaseView::ArrangeFocused,
            Phase::ArrangeSnapshot { ctx } => PhaseView::ArrangeSnapshot { ctx: *ctx },
            Phase::ArrangeSave { ctx } => PhaseView::ArrangeSave { ctx: *ctx },
            Phase::ArrangeMove { ctx, guard } => PhaseView::ArrangeMove { ctx: *ctx, guard: *guard },
            Phase::ArrangeAnchor { ctx, guard } => PhaseView::ArrangeAnchor {
                ctx: *ctx,
                guard: *guard,
            },
            Phase::ArrangeNoAnchorReported { ctx, guard } => PhaseView::ArrangeNoAnchorReported {
                ctx: *ctx,
                guard: *guard,
            },
            Phase::ArrangeStack { ctx } => PhaseView::ArrangeStack { ctx: *ctx },
            Phase::PullFocused { ctx } => PhaseView::PullFocused { ctx: *ctx },
            Phase::PullWindows { ctx, column } => PhaseView::PullWindows {
                ctx: *ctx,
                column: *column,
            },
            Phase::PullConsume { ctx } => PhaseView::PullConsume { ctx: *ctx },
            Phase::StyleFocused { ctx } => PhaseView::StyleFocused { ctx: *ctx },
            Phase::StyleWindows { ctx, column } => PhaseView::StyleWindows {
                ctx: *ctx,
                column: *column,
            },
            Phase::ArrangeFinal => PhaseView::ArrangeFinal,
            Phase::CleanupRemove { file, outcome } => PhaseView::CleanupRemove {
                file: *file,
                outcome: *outcome,
            },
            Phase::CleanupReported { outcome } => PhaseView::CleanupReported { outcome: *outcome },
            Phase::Finished { outcome } => PhaseView::Finished { outcome: *outcome },
        }
    }
}

/// A step's result: the next phase and the request to perform.
pub type StepView = (PhaseView, RequestView);

/// End the run with `outcome`.
pub open spec fn finish_spec(outcome: Outcome) -> StepView {
    (PhaseView::Finished { outcome }, RequestView::Finish { outcome })
}

/// End the arrangement with `outcome`, first removing the saved state
/// unless the guard keeps it.
pub open spec fn cleanup_spec(guard: CleanupGuard, outcome: Outcome) -> StepView {
    if guard.keep {
        finish_spec(outcome)
    } else {
        (
            PhaseView::CleanupRemove { file: guard.path, outcome },
            RequestView::RemoveStateFile { file: guard.path },
        )
    }
}

/// Restoring failed with error `error`: report it (then the state file is
/// removed and the master layout applied).
pub open spec fn restore_failed_spec(ctx: WorkspaceContext, error: usize) -> StepView {
    (
        PhaseView::RestoreFailedReported { ctx },
        RequestView::Report { report: Report::RestoreFailed { file: ctx.state_path, error } },
    )
}

/// The columns are restored: restore the sizes and focus the master.
pub open spec fn restore_sizes_spec(ctx: WorkspaceContext, state: SavedLayoutView) -> StepView {
    (
        PhaseView::RestoreSizes { ctx },
        RequestView::Perform { actions: restore_size_actions(state), best_effort: true },
    )
}

/// The saved state is loaded: start moving windows back to their columns.
pub open spec fn start_restoring_spec(ctx: WorkspaceContext, state: SavedLayoutView) -> StepView {
    let targets = restore_targets_spec(state.windows);
    if targets.len() == 0 {
        restore_sizes_spec(ctx, state)
    } else {
        (
            PhaseView::RestoreColumns {
                progress: RestoreProgressView {
                    ctx,
                    state,
                    targets,
                    desired: desired_map(state.windows),
                    next: 0,
                    seen: Seq::empty(),
                },
            },
            RequestView::Windows,
        )
    }
}

/// One window is back (or given up): go on with the next one, or restore
/// the sizes after the last.
pub open spec fn advance_spec(p: RestoreProgressView) -> StepView {
    if p.next + 1 < p.targets.len() {
        (
            PhaseView::RestoreColumns {
                progress: RestoreProgressView { next: (p.next + 1) as usize, seen: Seq::empty(), ..p },
            },
            RequestView::Windows,
        )
    } else {
        restore_sizes_spec(p.ctx, p.state)
    }
}

/// The windows are known while moving window `p.targets[p.next]` back: it
/// is done, or reached a column seen before (reported), or one more step
/// is taken (and the column remembered).
pub open spec fn restore_column_step_spec(p: RestoreProgressView, s: Seq<WindowInfo>) -> StepView {
    let t = p.targets[p.next as int];
    match snapshot_spec(s, t.id, t.column, p.desired) {
        None => advance_spec(p),
        Some(snap) => {
            let decision = decide_spec(snap, t.column);
            if decision == RestoreDecision::Done {
                advance_spec(p)
            } else if p.seen.contains(snap.column) {
                (
                    PhaseView::RestoreCycleReported { progress: p },
                    RequestView::Report {
                        report: Report::RestoreCycleDetected { window_id: t.id, column: t.column },
                    },
                )
            } else {
                (
                    PhaseView::RestoreStep {
                        progress: RestoreProgressView { seen: p.seen.push(snap.column), ..p },
                    },
                    RequestView::Perform {
                        actions: decision_actions(t.id, t.column, decision),
                        best_effort: true,
                    },
                )
            }
        },
    }
}

/// The actions that make the master window the master: focus it and set
/// its width.
pub open spec fn master_actions(master_id: u64) -> Seq<Action> {
    focus_with_width_spec(master_id, MASTER_WIDTH_PERCENT)
}

/// The windows are known after the master column was moved: find the
/// stack's anchor; without one the arrangement ends (and the saved state
/// is removed), with one the saved state is kept, the master sized and the
/// anchor's column shown normally.
pub open spec fn arrange_anchor_step_spec(
    ctx: WorkspaceContext,
    guard: CleanupGuard,
    s: Seq<WindowInfo>,
) -> StepView {
    match find_window_spec(s, ctx.master_id) {
        None => cleanup_spec(guard, Outcome::Success),
        Some(master) => match master.pos_in_scrolling_layout {
            None => cleanup_spec(guard, Outcome::Success),
            Some((master_column, _)) => match anchor_spec(
                s,
                ctx.workspace_id,
                master_column,
                ctx.master_id,
            ) {
                None => (
                    PhaseView::ArrangeNoAnchorReported { ctx, guard },
                    RequestView::Report {
                        report: Report::NoRightColumns {
                            workspace_id: ctx.workspace_id,
                            master_id: ctx.master_id,
                        },
                    },
                ),
                Some(anchor) => (
                    PhaseView::ArrangeStack { ctx },
                    RequestView::Perform {
                        actions: master_actions(ctx.master_id) + seq![
                            Action::FocusWindow { id: anchor },
                            Action::SetColumnDisplayNormal,
                        ],
                        best_effort: false,
                    },
                ),
            },
        },
    }
}

/// Column of the focused window, when it has one.
pub open spec fn focused_column(focused: Option<WindowInfo>) -> Option<usize> {
    match focused {
        Some(w) => match w.pos_in_scrolling_layout {
            Some((column, _)) => Some(column),
            None => None,
        },
        None => None,
    }
}

/// The step from one phase on a reply.
pub open spec fn next_spec(phase: PhaseView, reply: ReplyView) -> StepView {
    match phase {
        PhaseView::Start { command } => match reply {
            ReplyView::Start => match command {
                AppCommand::Toggle => (PhaseView::ToggleFocused, RequestView::FocusedWindow),
                AppCommand::GrowMaster => (
                    PhaseView::ResizeFocused { direction: ResizeDirection::GrowMaster },
                    RequestView::FocusedWindow,
                ),
                AppCommand::ShrinkMaster => (
                    PhaseView::ResizeFocused { direction: ResizeDirection::ShrinkMaster },
                    RequestView::FocusedWindow,
                ),
            },
            _ => finish_spec(Outcome::ProtocolViolation),
        },
        PhaseView::ResizeFocused { direction } => match reply {
            ReplyView::Focused(f) => match current_workspace_spec(f) {
                None => finish_spec(Outcome::Success),
                Some(ctx) => (
                    PhaseView::ResizeExists { direction, ctx },
                    RequestView::StateFileExists { file: ctx.state_path },
                ),
            },
            ReplyView::Failed { error, .. } => finish_spec(Outcome::Failed { error }),
            _ => finish_spec(Outcome::ProtocolViolation),
        },
        PhaseView::ResizeExists { direction, ctx } => match reply {
            ReplyView::Exists(false) => finish_spec(Outcome::Success),
            ReplyView::Exists(true) => (
                PhaseView::ResizeLoad { direction, ctx },
                RequestView::LoadState { file: ctx.state_path },
            ),
            _ => finish_spec(Outcome::ProtocolViolation),
        },
        PhaseView::ResizeLoad { direction, ctx } => match reply {
            ReplyView::Loaded(state) => (
                PhaseView::ResizeWindows { direction, ctx, master_id: state.master_id },
                RequestView::Windows,
            ),
            ReplyView::Failed { error, .. } => finish_spec(Outcome::Failed { error }),
            _ => finish_spec(Outcome::ProtocolViolation),
        },
        PhaseView::ResizeWindows { direction, ctx, master_id } => match reply {
            ReplyView::Windows(s) => match resize_spec(s, ctx.workspace_id, master_id, direction) {
                None => finish_spec(Outcome::Success),
                Some(actions) => (
                    PhaseView::ResizeApply,
                    RequestView::Perform { actions, best_effort: false },
                ),
            },
            ReplyView::Failed { error, .. } => finish_spec(Outcome::Failed { error }),
            _ => finish_spec(Outcome::ProtocolViolation),
        },
        PhaseView::ResizeApply => match reply {
            ReplyView::Done => finish_spec(Outcome::Success),
            ReplyView::Failed { error, .. } => finish_spec(Outcome::Failed { error }),
            _ => finish_spec(Outcome::ProtocolViolation),
        },
        PhaseView::ToggleFocused => match reply {
            ReplyView::Focused(f) => match current_workspace_spec(f) {
                None => finish_spec(Outcome::Success),
                Some(ctx) => (
                    PhaseView::RestoreExists { ctx },
                    RequestView::StateFileExists { file: ctx.state_path },
                ),
            },
            ReplyView::Failed { error, .. } => finish_spec(Outcome::Failed { error }),
            _ => finish_spec(Outcome::ProtocolViolation),
        },
        PhaseView::RestoreExists { ctx } => match reply {
            ReplyView::Exists(false) => (PhaseView::ArrangeFocused, RequestView::FocusedWindow),
            ReplyView::Exists(true) => (
                PhaseView::RestoreLoad { ctx },
                RequestView::LoadState { file: ctx.state_path },
            ),
            _ => finish_spec(Outcome::ProtocolViolation),
        },
        PhaseView::RestoreLoad { ctx } => match reply {
            ReplyView::Loaded(state) => start_restoring_spec(ctx, state),
            ReplyView::Failed { error, .. } => restore_failed_spec(ctx, error),
            _ => finish_spec(Outcome::ProtocolViolation),
        },
        PhaseView::RestoreColumns { progress } => match reply {
            ReplyView::Windows(s) => restore_column_step_spec(progress, s),
            ReplyView::Failed { error, .. } => restore_failed_spec(progress.ctx, error),
            _ => finish_spec(Outcome::ProtocolViolation),
        },
        PhaseView::RestoreStep { progress } => match reply {
            ReplyView::Done => (PhaseView::RestoreColumns { progress }, RequestView::Windows),
            ReplyView::Failed { error, .. } => restore_failed_spec(progress.ctx, error),
            _ => finish_spec(Outcome::ProtocolViolation),
        },
        PhaseView::RestoreCycleReported { progress } => match reply {
            ReplyView::Done => advance_spec(progress),
            _ => finish_spec(Outcome::ProtocolViolation),
        },
        PhaseView::RestoreSizes { ctx } => match reply {
            ReplyView::Done => (
                PhaseView::RestoreRemove { ctx },
                RequestView::RemoveStateFile { file: ctx.state_path },
            ),
            ReplyView::Failed { error, .. } => restore_failed_spec(ctx, error),
            _ => finish_spec(Outcome::ProtocolViolation),
        },
        PhaseView::RestoreRemove { ctx } => match reply {
            ReplyView::Done => finish_spec(Outcome::Success),
            ReplyView::Failed { error, not_found } => if not_found {
                finish_spec(Outcome::Success)
            } else {
                restore_failed_spec(ctx, error)
            },
            _ => finish_spec(Outcome::ProtocolViolation),
        },
        PhaseView::RestoreFailedReported { ctx } => match reply {
            ReplyView::Done => (
                PhaseView::StaleRemove { ctx },
                RequestView::RemoveStateFile { file: ctx.state_path },
            ),
            _ => finish_spec(Outcome::ProtocolViolation),
        },
        PhaseView::StaleRemove { ctx } => match reply {
            ReplyView::Done => (PhaseView::ArrangeFocused, RequestView::FocusedWindow),
            ReplyView::Failed { error, not_found } => if not_found {
                (PhaseView::ArrangeFocused, RequestView::FocusedWindow)
            } else {
                (
                    PhaseView::StaleRemoveReported,
                    RequestView::Report {
                        report: Report::RemoveStaleStateFailed { file: ctx.state_path, error },
                    },
                )
            },
            _ => finish_spec(Outcome::ProtocolViolation),
        },
        PhaseView::StaleRemoveReported => match reply {
            ReplyView::Done => (PhaseView::ArrangeFocused, RequestView::FocusedWindow),
            _ => finish_spec(Outcome::ProtocolViolation),
        },
        PhaseView::ArrangeFocused => match reply {
            ReplyView::Focused(f) => match current_workspace_spec(f) {
                None => finish_spec(Outcome::Success),
                Some(ctx) => (PhaseView::ArrangeSnapshot { ctx }, RequestView::Windows),
            },
            ReplyView::Failed { error, .. } => finish_spec(Outcome::Failed { error }),
            _ => finish_spec(Outcome::ProtocolViolation),
        },
        PhaseView::ArrangeSnapshot { ctx } => match reply {
            ReplyView::Windows(s) => (
                PhaseView::ArrangeSave { ctx },
                RequestView::SaveState {
                    file: ctx.state_path,
                    state: saved_layout_spec(s, ctx.master_id, ctx.workspace_id),
                },
            ),
            ReplyView::Failed { error, .. } => finish_spec(Outcome::Failed { error }),
            _ => finish_spec(Outcome::ProtocolViolation),
        },
        PhaseView::ArrangeSave { ctx } => match reply {
            ReplyView::Done => (
                PhaseView::ArrangeMove {
                    ctx,
                    guard: CleanupGuard { path: ctx.state_path, keep: false },
                },
                RequestView::Perform {
                    actions: seq![
                        Action::FocusWindow { id: ctx.master_id },
                        Action::MoveColumnToIndex { index: MASTER_COLUMN_INDEX },
                    ],
                    best_effort: false,
                },
            ),
            ReplyView::Failed { error, .. } => finish_spec(Outcome::Failed { error }),
            _ => finish_spec(Outcome::ProtocolViolation),
        },
        PhaseView::ArrangeMove { ctx, guard } => match reply {
            ReplyView::Done => (PhaseView::ArrangeAnchor { ctx, guard }, RequestView::Windows),
            ReplyView::Failed { error, .. } => cleanup_spec(guard, Outcome::Failed { error }),
            _ => cleanup_spec(guard, Outcome::ProtocolViolation),
        },
        PhaseView::ArrangeAnchor { ctx, guard } => match reply {
            ReplyView::Windows(s) => arrange_anchor_step_spec(ctx, guard, s),
            ReplyView::Failed { error, .. } => cleanup_spec(guard, Outcome::Failed { error }),
            _ => cleanup_spec(guard, Outcome::ProtocolViolation),
        },
        PhaseView::ArrangeNoAnchorReported { ctx, guard } => match reply {
            ReplyView::Done => cleanup_spec(guard, Outcome::Success),
            _ => cleanup_spec(guard, Outcome::ProtocolViolation),
        },
        PhaseView::ArrangeStack { ctx } => match reply {
            ReplyView::Done => (PhaseView::PullFocused { ctx }, RequestView::FocusedWindow),
            ReplyView::Failed { error, .. } => finish_spec(Outcome::Failed { error }),
            _ => finish_spec(Outcome::ProtocolViolation),
        },
        PhaseView::PullFocused { ctx } => match reply {
            ReplyView::Focused(f) => match focused_column(f) {
                None => (PhaseView::StyleFocused { ctx }, RequestView::FocusedWindow),
                Some(column) => (PhaseView::PullWindows { ctx, column }, RequestView::Windows),
            },
            ReplyView::Failed { error, .. } => finish_spec(Outcome::Failed { error }),
            _ => finish_spec(Outcome::ProtocolViolation),
        },
        PhaseView::PullWindows { ctx, column } => match reply {
            ReplyView::Windows(s) => if pulls_more(s, ctx.workspace_id, column, MAX_STACK_WINDOWS) {
                (
                    PhaseView::PullConsume { ctx },
                    RequestView::Perform {
                        actions: seq![Action::ConsumeWindowIntoColumn],
                        best_effort: false,
                    },
                )
            } else {
                (PhaseView::StyleFocused { ctx }, RequestView::FocusedWindow)
            },
            ReplyView::Failed { error, .. } => finish_spec(Outcome::Failed { error }),
            _ => finish_spec(Outcome::ProtocolViolation),
        },
        PhaseView::PullConsume { ctx } => match reply {
            ReplyView::Done => (PhaseView::PullFocused { ctx }, RequestView::FocusedWindow),
            ReplyView::Failed { error, .. } => finish_spec(Outcome::Failed { error }),
            _ => finish_spec(Outcome::ProtocolViolation),
        },
        PhaseView::StyleFocused { ctx } => match reply {
            ReplyView::Focused(f) => match focused_column(f) {
                None => (
                    PhaseView::ArrangeFinal,
                    RequestView::Perform { actions: master_actions(ctx.master_id), best_effort: false },
                ),
                Some(column) => (PhaseView::StyleWindows { ctx, column }, RequestView::Windows),
            },
            ReplyView::Failed { error, .. } => finish_spec(Outcome::Failed { error }),
            _ => finish_spec(Outcome::ProtocolViolation),
        },
        PhaseView::StyleWindows { ctx, column } => match reply {
            ReplyView::Windows(s) => (
                PhaseView::ArrangeFinal,
                RequestView::Perform {
                    actions: style_stack_actions(s, ctx.workspace_id, column) + master_actions(
                        ctx.master_id,
                    ),
                    best_effort: false,
                },
            ),
            ReplyView::Failed { error, .. } => finish_spec(Outcome::Failed { error }),
            _ => finish_spec(Outcome::ProtocolViolation),
        },
        PhaseView::ArrangeFinal => match reply {
            ReplyView::Done => finish_spec(Outcome::Success),
            ReplyView::Failed { error, .. } => finish_spec(Outcome::Failed { error }),
            _ => finish_spec(Outcome::ProtocolViolation),
        },
        PhaseView::CleanupRemove { file, outcome } => match reply {
            ReplyView::Done => finish_spec(outcome),
            ReplyView::Failed { error, not_found } => if not_found {
                finish_spec(outcome)
            } else {
                (
                    PhaseView::CleanupReported { outcome },
                    RequestView::Report { report: Report::RemoveStaleStateFailed { file, error } },
                )
            },
            _ => finish_spec(outcome),
        },
        PhaseView::CleanupReported { outcome } => finish_spec(outcome),
        PhaseView::Finished { outcome } => finish_spec(outcome),
    }
}

/// Progress is well formed: the window being restored exists, and no
/// column is remembered twice.
pub open spec fn progress_wf(p: RestoreProgressView) -> bool {
    p.next < p.targets.len() && p.seen.no_duplicates()
}

/// A phase is well formed: restore progress is well formed, and while the
/// saved state may still be abandoned, the guard holds the state file of
/// the workspace and is armed.
pub open spec fn phase_wf(phase: PhaseView) -> bool {
    match phase {
        PhaseView::RestoreColumns { progress } => progress_wf(progress),
        PhaseView::RestoreStep { progress } => progress_wf(progress),
        PhaseView::RestoreCycleReported { progress } => progress_wf(progress),
        PhaseView::ArrangeMove { ctx, guard } => guard == CleanupGuard { path: ctx.state_path, keep: false },
        PhaseView::ArrangeAnchor { ctx, guard } => guard == CleanupGuard { path: ctx.state_path, keep: false },
        PhaseView::ArrangeNoAnchorReported { ctx, guard } => guard == CleanupGuard { path: ctx.state_path, keep: false },
        _ => true,
    }
}

fn finish(outcome: Outcome) -> (r: (Phase, Request))
    ensures
        (r.0@, r.1@) == finish_spec(outcome),
{
    (Phase::Finished { outcome }, Request::Finish { outcome })
}

fn cleanup(guard: CleanupGuard, outcome: Outcome) -> (r: (Phase, Request))
    ensures
        (r.0@, r.1@) == cleanup_spec(guard, outcome),
{
    match guard.pending_removal() {
        Some(file) => (Phase::CleanupRemove { file, outcome }, Request::RemoveStateFile { file }),
        None => finish(outcome),
    }
}

fn restore_failed(ctx: WorkspaceContext, error: usize) -> (r: (Phase, Request))
    ensures
        (r.0@, r.1@) == restore_failed_spec(ctx, error),
{
    (
        Phase::RestoreFailedReported { ctx },
        Request::Report { report: Report::RestoreFailed { file: ctx.state_path, error } },
    )
}

fn restore_sizes_step(ctx: WorkspaceContext, state: SavedLayoutState) -> (r: (Phase, Request))
    ensures
        (r.0@, r.1@) == restore_sizes_spec(ctx, state@),
{
    let actions = restore_sizes(&state);
    (Phase::RestoreSizes { ctx }, Request::Perform { actions, best_effort: true })
}

fn start_restoring(ctx: WorkspaceContext, state: SavedLayoutState) -> (r: (Phase, Request))
    ensures
        (r.0@, r.1@) == start_restoring_spec(ctx, state@),
        phase_wf(r.0@),
{
    let targets = restore_targets(&state.windows);
    if targets.len() == 0 {
        return restore_sizes_step(ctx, state);
    }
    let desired = desired_columns_by_id(&state.windows);
    let seen: Vec<ColumnSnapshot> = Vec::new();
    proof {
        assert(snapshot_views(seen@) =~= Seq::<ColumnSnapshotView>::empty());
    }
    let progress = RestoreProgress { ctx, state, targets, desired, next: 0, seen };
    let r = (Phase::RestoreColumns { progress }, Request::Windows);
    proof {
        assert(r.0@ =~= start_restoring_spec(ctx, state@).0);
    }
    r
}

fn advance(progress: RestoreProgress) -> (r: (Phase, Request))
    requires
        progress_wf(progress@),
    ensures
        (r.0@, r.1@) == advance_spec(progress@),
        phase_wf(r.0@),
{
    let mut progress = progress;
    proof {
        assert(progress.next < progress.targets@.len());
    }
    if progress.next < progress.targets.len() - 1 {
        let ghost p = progress@;
        progress.next = progress.next + 1;
        progress.seen = Vec::new();
        proof {
            assert(snapshot_views(progress.seen@) =~= Seq::<ColumnSnapshotView>::empty());
            assert(progress@ =~= RestoreProgressView {
                next: (p.next + 1) as usize,
                seen: Seq::empty(),
                ..p
            });
        }
        (Phase::RestoreColumns { progress }, Request::Windows)
    } else {
        restore_sizes_step(progress.ctx, progress.state)
    }
}

fn restore_column_step(progress: RestoreProgress, windows: Vec<WindowInfo>) -> (r: (Phase, Request))
    requires
        progress_wf(progress@),
    ensures
        (r.0@, r.1@) == restore_column_step_spec(progress@, windows@),
        phase_wf(r.0@),
{
    let mut progress = progress;
    let ghost p = progress@;
    let t = progress.targets[progress.next];
    match snapshot_target(&windows, t.id, t.column, &progress.desired) {
        None => advance(progress),
        Some(snap) => {
            let decision = decide_restore_action(&snap, t.column);
            match decision {
                RestoreDecision::Done => {
                    return advance(progress);
                },
                _ => {},
            }
            if seen_contains(&progress.seen, &snap.column) {
                let report = Report::RestoreCycleDetected { window_id: t.id, column: t.column };
                (Phase::RestoreCycleReported { progress }, Request::Report { report })
            } else {
                let actions = apply_restore_decision(t.id, t.column, decision);
                let ghost c = snap.column@;
                progress.seen.push(snap.column);
                proof {
                    assert(snapshot_views(progress.seen@) =~= p.seen.push(c));
                    assert(progress@ =~= RestoreProgressView { seen: p.seen.push(c), ..p });
                    assert forall|a: int, b: int|
                        0 <= a < p.seen.push(c).len() && 0 <= b < p.seen.push(c).len() && a != b
                        implies p.seen.push(c)[a] != p.seen.push(c)[b] by {
                        if a == p.seen.len() {
                            assert(p.seen[b] == p.seen.push(c)[b]);
                        } else if b == p.seen.len() {
                            assert(p.seen[a] == p.seen.push(c)[a]);
                        }
                    }
                }
                (Phase::RestoreStep { progress }, Request::Perform { actions, best_effort: true })
            }
        },
    }
}

fn arrange_anchor_step(ctx: WorkspaceContext, guard: CleanupGuard, windows: Vec<WindowInfo>) -> (r: (
    Phase,
    Request,
))
    requires
        guard == (CleanupGuard { path: ctx.state_path, keep: false }),
    ensures
        (r.0@, r.1@) == arrange_anchor_step_spec(ctx, guard, windows@),
        phase_wf(r.0@),
{
    let master = match find_window(&windows, ctx.master_id) {
        Some(w) => w,
        None => return cleanup(guard, Outcome::Success),
    };
    let master_column = match master.pos_in_scrolling_layout {
        Some((column, _)) => column,
        None => return cleanup(guard, Outcome::Success),
    };
    match nearest_right_column_anchor(&windows, ctx.workspace_id, master_column, ctx.master_id) {
        None => {
            let report = Report::NoRightColumns {
                workspace_id: ctx.workspace_id,
                master_id: ctx.master_id,
            };
            (Phase::ArrangeNoAnchorReported { ctx, guard }, Request::Report { report })
        },
        Some(anchor) => {
            let mut guard = guard;
            guard.keep();
            let mut actions = focus_with_width(ctx.master_id, MASTER_WIDTH_PERCENT);
            actions.push(focus(anchor));
            actions.push(Action::SetColumnDisplayNormal);
            (Phase::ArrangeStack { ctx }, Request::Perform { actions, best_effort: false })
        },
    }
}

/// One run of the program, waiting on the answer to its last request.
#[derive(Debug)]
pub struct Session {
    pub phase: Phase,
}

impl View for Session {
    type V = PhaseView;

    open spec fn view(&self) -> PhaseView {
        self.phase@
    }
}

impl Session {
    /// A session for `command`; feed it [`Reply::Start`] first.
    pub fn new(command: AppCommand) -> (s: Session)
        ensures
            s@ == (PhaseView::Start { command }),
            phase_wf(s@),
    {
        Session { phase: Phase::Start { command } }
    }

    /// The next request, given the answer to the previous one.
    pub fn step(self, reply: Reply) -> (r: (Session, Request))
        requires
            phase_wf(self@),
        ensures
            (r.0@, r.1@) == next_spec(self@, reply@),
            phase_wf(r.0@),
    {
        let (phase, request) = step_phase(self.phase, reply);
        (Session { phase }, request)
    }
}

fn step_phase(phase: Phase, reply: Reply) -> (r: (Phase, Request))
    requires
        phase_wf(phase@),
    ensures
        (r.0@, r.1@) == next_spec(phase@, reply@),
        phase_wf(r.0@),
{
    match phase {
        Phase::Start { command } => match reply {
            Reply::Start => match command {
                AppCommand::Toggle => (Phase::ToggleFocused, Request::FocusedWindow),
                AppCommand::GrowMaster => (
                    Phase::ResizeFocused { direction: ResizeDirection::GrowMaster },
                    Request::FocusedWindow,
                ),
                AppCommand::ShrinkMaster => (
                    Phase::ResizeFocused { direction: ResizeDirection::ShrinkMaster },
                    Request::FocusedWindow,
                ),
            },
            _ => finish(Outcome::ProtocolViolation),
        },
        Phase::ResizeFocused { direction } => match reply {
            Reply::Focused(f) => match current_workspace(&f) {
                None => finish(Outcome::Success),
                Some(ctx) => (
                    Phase::ResizeExists { direction, ctx },
                    Request::StateFileExists { file: ctx.state_path },
                ),
            },
            Reply::Failed { error, .. } => finish(Outcome::Failed { error }),
            _ => finish(Outcome::ProtocolViolation),
        },
        Phase::ResizeExists { direction, ctx } => match reply {
            Reply::Exists(exists) => if exists {
                (Phase::ResizeLoad { direction, ctx }, Request::LoadState { file: ctx.state_path })
            } else {
                finish(Outcome::Success)
            },
            _ => finish(Outcome::ProtocolViolation),
        },
        Phase::ResizeLoad { direction, ctx } => match reply {
            Reply::Loaded(state) => (
                Phase::ResizeWindows { direction, ctx, master_id: state.master_id },
                Request::Windows,
            ),
            Reply::Failed { error, .. } => finish(Outcome::Failed { error }),
            _ => finish(Outcome::ProtocolViolation),
        },
        Phase::ResizeWindows { direction, ctx, master_id } => match reply {
            Reply::Windows(windows) => match resize(&windows, ctx.workspace_id, master_id, direction) {
                None => finish(Outcome::Success),
                Some(actions) => (Phase::ResizeApply, Request::Perform { actions, best_effort: false }),
            },
            Reply::Failed { error, .. } => finish(Outcome::Failed { error }),
            _ => finish(Outcome::ProtocolViolation),
        },
        Phase::ResizeApply => match reply {
            Reply::Done => finish(Outcome::Success),
            Reply::Failed { error, .. } => finish(Outcome::Failed { error }),
            _ => finish(Outcome::ProtocolViolation),
        },
        Phase::ToggleFocused => match reply {
            Reply::Focused(f) => match current_workspace(&f) {
                None => finish(Outcome::Success),
                Some(ctx) => (
                    Phase::RestoreExists { ctx },
                    Request::StateFileExists { file: ctx.state_path },
                ),
            },
            Reply::Failed { error, .. } => finish(Outcome::Failed { error }),
            _ => finish(Outcome::ProtocolViolation),
        },
        Phase::RestoreExists { ctx } => match reply {
            Reply::Exists(exists) => if exists {
                (Phase::RestoreLoad { ctx }, Request::LoadState { file: ctx.state_path })
            } else {
                (Phase::ArrangeFocused, Request::FocusedWindow)
            },
            _ => finish(Outcome::ProtocolViolation),
        },
        Phase::RestoreLoad { ctx } => match reply {
            Reply::Loaded(state) => start_restoring(ctx, state),
            Reply::Failed { error, .. } => restore_failed(ctx, error),
            _ => finish(Outcome::ProtocolViolation),
        },
        Phase::RestoreColumns { progress } => match reply {
            Reply::Windows(windows) => restore_column_step(progress, windows),
            Reply::Failed { error, .. } => restore_failed(progress.ctx, error),
            _ => finish(Outcome::ProtocolViolation),
        },
        Phase::RestoreStep { progress } => match reply {
            Reply::Done => (Phase::RestoreColumns { progress }, Request::Windows),
            Reply::Failed { error, .. } => restore_failed(progress.ctx, error),
            _ => finish(Outcome::ProtocolViolation),
        },
        Phase::RestoreCycleReported { progress } => match reply {
            Reply::Done => advance(progress),
            _ => finish(Outcome::ProtocolViolation),
        },
        Phase::RestoreSizes { ctx } => match reply {
            Reply::Done => (Phase::RestoreRemove { ctx }, Request::RemoveStateFile { file: ctx.state_path }),
            Reply::Failed { error, .. } => restore_failed(ctx, error),
            _ => finish(Outcome::ProtocolViolation),
        },
        Phase::RestoreRemove { ctx } => match reply {
            Reply::Done => finish(Outcome::Success),
            Reply::Failed { error, not_found } => if not_found {
                finish(Outcome::Success)
            } else {
                restore_failed(ctx, error)
            },
            _ => finish(Outcome::ProtocolViolation),
        },
        Phase::RestoreFailedReported { ctx } => match reply {
            Reply::Done => (Phase::StaleRemove { ctx }, Request::RemoveStateFile { file: ctx.state_path }),
            _ => finish(Outcome::ProtocolViolation),
        },
        Phase::StaleRemove { ctx } => match reply {
            Reply::Done => (Phase::ArrangeFocused, Request::FocusedWindow),
            Reply::Failed { error, not_found } => if not_found {
                (Phase::ArrangeFocused, Request::FocusedWindow)
            } else {
                (
                    Phase::StaleRemoveReported,
                    Request::Report {
                        report: Report::RemoveStaleStateFailed { file: ctx.state_path, error },
                    },
                )
            },
            _ => finish(Outcome::ProtocolViolation),
        },
        Phase::StaleRemoveReported => match reply {
            Reply::Done => (Phase::ArrangeFocused, Request::FocusedWindow),
            _ => finish(Outcome::ProtocolViolation),
        },
        Phase::ArrangeFocused => match reply {
            Reply::Focused(f) => match current_workspace(&f) {
                None => finish(Outcome::Success),
                Some(ctx) => (Phase::ArrangeSnapshot { ctx }, Request::Windows),
            },
            Reply::Failed { error, .. } => finish(Outcome::Failed { error }),
            _ => finish(Outcome::ProtocolViolation),
        },
        Phase::ArrangeSnapshot { ctx } => match reply {
            Reply::Windows(windows) => {
                let state = saved_layout_state(&windows, ctx.master_id, ctx.workspace_id);
                (Phase::ArrangeSave { ctx }, Request::SaveState { file: ctx.state_path, state })
            },
            Reply::Failed { error, .. } => finish(Outcome::Failed { error }),
            _ => finish(Outcome::ProtocolViolation),
        },
        Phase::ArrangeSave { ctx } => match reply {
            Reply::Done => {
                let guard = CleanupGuard::new(ctx.state_path);
                let mut actions = Vec::new();
                actions.push(focus(ctx.master_id));
                actions.push(Action::MoveColumnToIndex { index: MASTER_COLUMN_INDEX });
                proof {
                    assert(actions@ =~= seq![
                        Action::FocusWindow { id: ctx.master_id },
                        Action::MoveColumnToIndex { index: MASTER_COLUMN_INDEX },
                    ]);
                }
                (Phase::ArrangeMove { ctx, guard }, Request::Perform { actions, best_effort: false })
            },
            Reply::Failed { error, .. } => finish(Outcome::Failed { error }),
            _ => finish(Outcome::ProtocolViolation),
        },
        Phase::ArrangeMove { ctx, guard } => match reply {
            Reply::Done => (Phase::ArrangeAnchor { ctx, guard }, Request::Windows),
            Reply::Failed { error, .. } => cleanup(guard, Outcome::Failed { error }),
            _ => cleanup(guard, Outcome::ProtocolViolation),
        },
        Phase::ArrangeAnchor { ctx, guard } => match reply {
            Reply::Windows(windows) => arrange_anchor_step(ctx, guard, windows),
            Reply::Failed { error, .. } => cleanup(guard, Outcome::Failed { error }),
            _ => cleanup(guard, Outcome::ProtocolViolation),
        },
        Phase::ArrangeNoAnchorReported { ctx, guard } => match reply {
            Reply::Done => cleanup(guard, Outcome::Success),
            _ => cleanup(guard, Outcome::ProtocolViolation),
        },
        Phase::ArrangeStack { ctx } => match reply {
            Reply::Done => (Phase::PullFocused { ctx }, Request::FocusedWindow),
            Reply::Failed { error, .. } => finish(Outcome::Failed { error }),
            _ => finish(Outcome::ProtocolViolation),
        },
        Phase::PullFocused { ctx } => match reply {
            Reply::Focused(f) => match f {
                Some(w) => match w.pos_in_scrolling_layout {
                    Some((column, _)) => (Phase::PullWindows { ctx, column }, Request::Windows),
                    None => (Phase::StyleFocused { ctx }, Request::FocusedWindow),
                },
                None => (Phase::StyleFocused { ctx }, Request::FocusedWindow),
            },
            Reply::Failed { error, .. } => finish(Outcome::Failed { error }),
            _ => finish(Outcome::ProtocolViolation),
        },
        Phase::PullWindows { ctx, column } => match reply {
            Reply::Windows(windows) => if pull_windows_into_stack(
                &windows,
                ctx.workspace_id,
                column,
                MAX_STACK_WINDOWS,
            ) {
                let mut actions = Vec::new();
                actions.push(Action::ConsumeWindowIntoColumn);
                proof {
                    assert(actions@ =~= seq![Action::ConsumeWindowIntoColumn]);
                }
                (Phase::PullConsume { ctx }, Request::Perform { actions, best_effort: false })
            } else {
                (Phase::StyleFocused { ctx }, Request::FocusedWindow)
            },
            Reply::Failed { error, .. } => finish(Outcome::Failed { error }),
            _ => finish(Outcome::ProtocolViolation),
        },
        Phase::PullConsume { ctx } => match reply {
            Reply::Done => (Phase::PullFocused { ctx }, Request::FocusedWindow),
            Reply::Failed { error, .. } => finish(Outcome::Failed { error }),
            _ => finish(Outcome::ProtocolViolation),
        },
        Phase::StyleFocused { ctx } => match reply {
            Reply::Focused(f) => {
                let column = match f {
                    Some(w) => match w.pos_in_scrolling_layout {
                        Some((column, _)) => Some(column),
                        None => None,
                    },
                    None => None,
                };
                match column {
                    Some(column) => (Phase::StyleWindows { ctx, column }, Request::Windows),
                    None => {
                        let actions = focus_with_width(ctx.master_id, MASTER_WIDTH_PERCENT);
                        (Phase::ArrangeFinal, Request::Perform { actions, best_effort: false })
                    },
                }
            },
            Reply::Failed { error, .. } => finish(Outcome::Failed { error }),
            _ => finish(Outcome::ProtocolViolation),
        },
        Phase::StyleWindows { ctx, column } => match reply {
            Reply::Windows(windows) => {
                let mut actions = style_stack_column(&windows, ctx.workspace_id, column);
                let mut master = focus_with_width(ctx.master_id, MASTER_WIDTH_PERCENT);
                actions.append(&mut master);
                (Phase::ArrangeFinal, Request::Perform { actions, best_effort: false })
            },
            Reply::Failed { error, .. } => finish(Outcome::Failed { error }),
            _ => finish(Outcome::ProtocolViolation),
        },
        Phase::ArrangeFinal => match reply {
            Reply::Done => finish(Outcome::Success),
            Reply::Failed { error, .. } => finish(Outcome::Failed { error }),
            _ => finish(Outcome::ProtocolViolation),
        },
        Phase::CleanupRemove { file, outcome } => match reply {
            Reply::Done => finish(outcome),
            Reply::Failed { error, not_found } => if not_found {
                finish(outcome)
            } else {
                (
                    Phase::CleanupReported { outcome },
                    Request::Report { report: Report::RemoveStaleStateFailed { file, error } },
                )
            },
            _ => finish(outcome),
        },
        Phase::CleanupReported { outcome } => finish(outcome),
        Phase::Finished { outcome } => finish(outcome),
    }
}

} // verus!
