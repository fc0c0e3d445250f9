use niri_master_layout::action::Action;
use niri_master_layout::cli::AppCommand;
use niri_master_layout::session::{Outcome, Phase, Reply, Report, Request, Session};
use niri_master_layout::state::{SavedLayoutState, SavedWindowSize, StateFile, WorkspaceContext};
use niri_master_layout::window::{WindowInfo, make_tiled_window};

/// A scripted niri and file system.
struct World {
    focused: Vec<Option<WindowInfo>>,
    windows: Vec<Vec<WindowInfo>>,
    state_exists: bool,
    saved: Option<Vec<SavedWindowSize>>,
    saved_master: u64,
    fail_load: bool,
    fail_first_perform: bool,
    remove_not_found: bool,
    performed: Vec<(Vec<Action>, bool)>,
    written: Vec<SavedLayoutState>,
    removed: Vec<StateFile>,
    reports: Vec<Report>,
    requests: usize,
}

impl World {
    fn new(focused: Vec<Option<WindowInfo>>, windows: Vec<Vec<WindowInfo>>) -> Self {
        World {
            focused,
            windows,
            state_exists: false,
            saved: None,
            saved_master: 0,
            fail_load: false,
            fail_first_perform: false,
            remove_not_found: false,
            performed: Vec::new(),
            written: Vec::new(),
            removed: Vec::new(),
            reports: Vec::new(),
            requests: 0,
        }
    }

    fn next_focused(&mut self) -> Option<WindowInfo> {
        if self.focused.len() > 1 { self.focused.remove(0) } else { self.focused[0] }
    }

    fn next_windows(&mut self) -> Vec<WindowInfo> {
        if self.windows.len() > 1 { self.windows.remove(0) } else { self.windows[0].clone() }
    }

    fn run(&mut self, command: AppCommand) -> Outcome {
        let mut session = Session::new(command);
        let mut reply = Reply::Start;
        loop {
            self.requests += 1;
            assert!(self.requests < 1000, "session does not end");
            let (next, request) = session.step(reply);
            session = next;
            reply = match request {
                Request::FocusedWindow => Reply::Focused(self.next_focused()),
                Request::Windows => Reply::Windows(self.next_windows()),
                Request::Perform { actions, best_effort } => {
                    let fail = self.fail_first_perform;
                    self.fail_first_perform = false;
                    self.performed.push((actions, best_effort));
                    if fail { Reply::Failed { error: 7, not_found: false } } else { Reply::Done }
                }
                Request::StateFileExists { .. } => Reply::Exists(self.state_exists),
                Request::LoadState { .. } => {
                    if self.fail_load {
                        Reply::Failed { error: 3, not_found: false }
                    } else {
                        Reply::Loaded(SavedLayoutState {
                            workspace_id: 1,
                            master_id: self.saved_master,
                            windows: self.saved.clone().unwrap_or_default(),
                        })
                    }
                }
                Request::SaveState { state, .. } => {
                    self.written.push(state);
                    self.state_exists = true;
                    Reply::Done
                }
                Request::RemoveStateFile { file } => {
                    self.removed.push(file);
                    self.state_exists = false;
                    if self.remove_not_found {
                        Reply::Failed { error: 9, not_found: true }
                    } else {
                        Reply::Done
                    }
                }
                Request::Report { report } => {
                    self.reports.push(report);
                    Reply::Done
                }
                Request::Finish { outcome } => return outcome,
            };
        }
    }
}

fn saved(id: u64, column: usize, row: usize) -> SavedWindowSize {
    SavedWindowSize { id, width: 800, height: 600, column, row }
}

#[test]
fn restore_columns_uses_expel_then_move_flow() {
    let workspace_id = 1;
    let target_id = 10;
    let snapshots = vec![
        vec![
            make_tiled_window(target_id, workspace_id, 1, 1, 800, 600),
            make_tiled_window(20, workspace_id, 1, 2, 800, 600),
        ],
        vec![
            make_tiled_window(target_id, workspace_id, 1, 1, 800, 600),
            make_tiled_window(20, workspace_id, 3, 1, 800, 600),
        ],
        vec![
            make_tiled_window(target_id, workspace_id, 2, 1, 800, 600),
            make_tiled_window(20, workspace_id, 3, 1, 800, 600),
        ],
    ];
    let ctx = WorkspaceContext {
        master_id: target_id,
        workspace_id,
        state_path: StateFile { workspace_id },
    };
    let mut session = Session { phase: Phase::RestoreLoad { ctx } };
    let mut reply = Reply::Loaded(SavedLayoutState {
        workspace_id,
        master_id: target_id,
        windows: vec![SavedWindowSize { id: target_id, width: 800, height: 600, column: 2, row: 1 }],
    });
    let mut snapshots = snapshots.into_iter();
    let mut best_effort_actions: Vec<Action> = Vec::new();
    loop {
        let (next, request) = session.step(reply);
        session = next;
        if matches!(session.phase, Phase::RestoreSizes { .. }) {
            break;
        }
        reply = match request {
            Request::Windows => Reply::Windows(snapshots.next().expect("snapshot")),
            Request::Perform { actions, best_effort } => {
                assert!(best_effort);
                best_effort_actions.extend(actions);
                Reply::Done
            }
            other => panic!("unexpected request {other:?}"),
        };
    }

    assert_eq!(best_effort_actions.len(), 5);
    assert!(matches!(best_effort_actions[0], Action::FocusWindow { id } if id == target_id));
    assert!(matches!(best_effort_actions[1], Action::ExpelWindowFromColumn));
    assert!(matches!(best_effort_actions[2], Action::FocusWindow { id } if id == target_id));
    assert!(matches!(best_effort_actions[3], Action::FocusWindow { id } if id == target_id));
    assert!(matches!(best_effort_actions[4], Action::MoveColumnToIndex { index } if index == 2));
}

fn two_column_workspace() -> Vec<WindowInfo> {
    vec![
        make_tiled_window(1, 7, 1, 1, 600, 800),
        make_tiled_window(2, 7, 2, 1, 600, 400),
        make_tiled_window(3, 7, 3, 1, 600, 400),
    ]
}

#[test]
fn toggle_without_state_saves_and_applies_master_layout() {
    let focused = make_tiled_window(1, 7, 1, 1, 600, 800);
    let before = two_column_workspace();
    // After moving the master, the stack column is 2; after one consume
    // the stack holds two windows and nothing is right of it.
    let after_consume = vec![
        make_tiled_window(1, 7, 1, 1, 600, 800),
        make_tiled_window(2, 7, 2, 1, 600, 400),
        make_tiled_window(3, 7, 2, 2, 600, 400),
    ];
    let anchor_focus = make_tiled_window(2, 7, 2, 1, 600, 400);
    let mut world = World::new(
        vec![Some(focused), Some(focused), Some(anchor_focus), Some(anchor_focus), Some(anchor_focus)],
        vec![before.clone(), before.clone(), before.clone(), after_consume.clone(), after_consume],
    );
    let outcome = world.run(AppCommand::Toggle);
    assert_eq!(outcome, Outcome::Success);
    assert_eq!(world.written.len(), 1);
    assert_eq!(world.written[0].master_id, 1);
    assert_eq!(world.written[0].workspace_id, 7);
    assert!(world.removed.is_empty());
    let all: Vec<Action> = world.performed.iter().flat_map(|(a, _)| a.clone()).collect();
    assert_eq!(all[0], Action::FocusWindow { id: 1 });
    assert_eq!(all[1], Action::MoveColumnToIndex { index: 1 });
    assert_eq!(all[2], Action::FocusWindow { id: 1 });
    assert_eq!(all[3], Action::SetWindowWidthPercent { id: 1, percent: 60 });
    assert_eq!(all[4], Action::FocusWindow { id: 2 });
    assert_eq!(all[5], Action::SetColumnDisplayNormal);
    assert_eq!(all[6], Action::ConsumeWindowIntoColumn);
    assert_eq!(
        &all[7..],
        &[
            Action::SetWindowWidthPercent { id: 2, percent: 40 },
            Action::ResetWindowHeight { id: 2 },
            Action::SetWindowWidthPercent { id: 3, percent: 40 },
            Action::ResetWindowHeight { id: 3 },
            Action::FocusWindow { id: 1 },
            Action::SetWindowWidthPercent { id: 1, percent: 60 },
        ]
    );
    assert!(world.performed.iter().all(|(_, best_effort)| !best_effort));
}

#[test]
fn toggle_with_crowded_anchor_column_stacks_three() {
    let focused = make_tiled_window(1, 7, 1, 1, 600, 800);
    // Column 2 already holds four windows; nothing is pulled, the bottom
    // one is expelled and only the top three get the stack width.
    let crowded = vec![
        make_tiled_window(1, 7, 1, 1, 600, 800),
        make_tiled_window(2, 7, 2, 1, 600, 200),
        make_tiled_window(3, 7, 2, 2, 600, 200),
        make_tiled_window(4, 7, 2, 3, 600, 200),
        make_tiled_window(5, 7, 2, 4, 600, 200),
    ];
    let anchor_focus = make_tiled_window(2, 7, 2, 1, 600, 200);
    let mut world = World::new(
        vec![Some(focused), Some(focused), Some(anchor_focus)],
        vec![crowded],
    );
    let outcome = world.run(AppCommand::Toggle);
    assert_eq!(outcome, Outcome::Success);
    let all: Vec<Action> = world.performed.iter().flat_map(|(a, _)| a.clone()).collect();
    assert!(!all.contains(&Action::ConsumeWindowIntoColumn));
    let styled = &world.performed.last().expect("styling request").0;
    assert_eq!(
        styled,
        &vec![
            Action::FocusWindow { id: 5 },
            Action::ExpelWindowFromColumn,
            Action::SetWindowWidthPercent { id: 2, percent: 40 },
            Action::ResetWindowHeight { id: 2 },
            Action::SetWindowWidthPercent { id: 3, percent: 40 },
            Action::ResetWindowHeight { id: 3 },
            Action::SetWindowWidthPercent { id: 4, percent: 40 },
            Action::ResetWindowHeight { id: 4 },
            Action::FocusWindow { id: 1 },
            Action::SetWindowWidthPercent { id: 1, percent: 60 },
        ]
    );
    let stacked: Vec<u64> = all
        .iter()
        .filter_map(|a| match a {
            Action::SetWindowWidthPercent { id, percent: 40 } => Some(*id),
            _ => None,
        })
        .collect();
    assert_eq!(stacked, vec![2, 3, 4]);
}

#[test]
fn toggle_without_right_column_removes_saved_state() {
    let focused = make_tiled_window(1, 7, 1, 1, 600, 800);
    let alone = vec![focused];
    let mut world = World::new(vec![Some(focused)], vec![alone]);
    let outcome = world.run(AppCommand::Toggle);
    assert_eq!(outcome, Outcome::Success);
    assert_eq!(world.written.len(), 1);
    assert_eq!(world.removed, vec![StateFile { workspace_id: 7 }]);
    assert_eq!(world.reports, vec![Report::NoRightColumns { workspace_id: 7, master_id: 1 }]);
    assert!(!world.state_exists);
}

#[test]
fn toggle_failure_after_save_removes_state_and_fails() {
    let focused = make_tiled_window(1, 7, 1, 1, 600, 800);
    let mut world = World::new(vec![Some(focused)], vec![two_column_workspace()]);
    world.fail_first_perform = true;
    let outcome = world.run(AppCommand::Toggle);
    assert_eq!(outcome, Outcome::Failed { error: 7 });
    assert_eq!(world.removed, vec![StateFile { workspace_id: 7 }]);
}

#[test]
fn toggle_with_state_restores_and_removes_file() {
    let focused = make_tiled_window(1, 7, 1, 1, 600, 800);
    let current = vec![
        make_tiled_window(1, 7, 1, 1, 600, 800),
        make_tiled_window(2, 7, 2, 1, 600, 400),
    ];
    let mut world = World::new(vec![Some(focused)], vec![current]);
    world.state_exists = true;
    world.saved = Some(vec![saved(1, 1, 1), saved(2, 2, 1)]);
    world.saved_master = 1;
    let outcome = world.run(AppCommand::Toggle);
    assert_eq!(outcome, Outcome::Success);
    assert_eq!(world.removed, vec![StateFile { workspace_id: 7 }]);
    assert!(world.written.is_empty());
    let (last, best_effort) = world.performed.last().expect("sizes restored");
    assert!(*best_effort);
    assert_eq!(
        last,
        &vec![
            Action::SetWindowWidthFixed { id: 1, width: 800 },
            Action::SetWindowHeightFixed { id: 1, height: 600 },
            Action::SetWindowWidthFixed { id: 2, width: 800 },
            Action::SetWindowHeightFixed { id: 2, height: 600 },
            Action::FocusWindow { id: 1 },
        ]
    );
}

#[test]
fn toggle_with_broken_state_reports_removes_and_arranges() {
    let focused = make_tiled_window(1, 7, 1, 1, 600, 800);
    let mut world = World::new(vec![Some(focused)], vec![vec![focused]]);
    world.state_exists = true;
    world.fail_load = true;
    let outcome = world.run(AppCommand::Toggle);
    assert_eq!(outcome, Outcome::Success);
    assert_eq!(
        world.reports[0],
        Report::RestoreFailed { file: StateFile { workspace_id: 7 }, error: 3 }
    );
    // stale state removed, then a new layout saved (and removed again:
    // there is no column to stack).
    assert_eq!(world.written.len(), 1);
    assert_eq!(world.removed.len(), 2);
}

#[test]
fn toggle_without_focused_window_does_nothing() {
    let mut world = World::new(vec![None], vec![vec![]]);
    assert_eq!(world.run(AppCommand::Toggle), Outcome::Success);
    assert!(world.performed.is_empty());
    assert!(world.written.is_empty());
}

#[test]
fn resize_without_state_does_nothing() {
    let focused = make_tiled_window(1, 7, 1, 1, 600, 800);
    let mut world = World::new(vec![Some(focused)], vec![two_column_workspace()]);
    assert_eq!(world.run(AppCommand::GrowMaster), Outcome::Success);
    assert!(world.performed.is_empty());
}

#[test]
fn grow_master_shrinks_stack_first() {
    let focused = make_tiled_window(1, 7, 1, 1, 600, 800);
    let windows = vec![
        make_tiled_window(1, 7, 1, 1, 600, 800),
        make_tiled_window(2, 7, 2, 1, 400, 400),
        make_tiled_window(3, 7, 2, 2, 400, 400),
    ];
    let mut world = World::new(vec![Some(focused)], vec![windows]);
    world.state_exists = true;
    world.saved_master = 1;
    assert_eq!(world.run(AppCommand::GrowMaster), Outcome::Success);
    // stack is 40% of 1000: one step less is 30%, the master gets 70%.
    assert_eq!(
        world.performed,
        vec![(
            vec![
                Action::SetWindowWidthPercent { id: 2, percent: 30 },
                Action::SetWindowWidthPercent { id: 3, percent: 30 },
                Action::FocusWindow { id: 1 },
                Action::SetWindowWidthPercent { id: 1, percent: 70 },
            ],
            false
        )]
    );
}

#[test]
fn shrink_master_resizes_master_first() {
    let focused = make_tiled_window(1, 7, 1, 1, 600, 800);
    let windows = vec![
        make_tiled_window(1, 7, 1, 1, 600, 800),
        make_tiled_window(2, 7, 2, 1, 400, 400),
    ];
    let mut world = World::new(vec![Some(focused)], vec![windows]);
    world.state_exists = true;
    world.saved_master = 1;
    assert_eq!(world.run(AppCommand::ShrinkMaster), Outcome::Success);
    assert_eq!(
        world.performed,
        vec![(
            vec![
                Action::FocusWindow { id: 1 },
                Action::SetWindowWidthPercent { id: 1, percent: 50 },
                Action::SetWindowWidthPercent { id: 2, percent: 50 },
            ],
            false
        )]
    );
}

#[test]
fn protocol_violation_is_reported_as_such() {
    let session = Session::new(AppCommand::Toggle);
    let (_, request) = session.step(Reply::Done);
    assert!(matches!(request, Request::Finish { outcome: Outcome::ProtocolViolation }));
}
