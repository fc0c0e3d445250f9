use niri_master_layout::action::Action;
use niri_master_layout::restore::{
    ColumnSnapshot, RestoreDecision, RestoreTarget, apply_restore_decision, decide_restore_action,
    desired_columns_by_id, restore_targets, snapshot_target,
};
use niri_master_layout::state::SavedWindowSize;
use niri_master_layout::window::{make_floating_window, make_tiled_window};

fn target(has_foreign_windows: bool, index: usize, window_ids: Vec<u64>) -> RestoreTarget {
    RestoreTarget { has_foreign_windows, column: ColumnSnapshot { index, window_ids } }
}

fn saved(id: u64, column: usize, row: usize) -> SavedWindowSize {
    SavedWindowSize { id, width: 800, height: 600, column, row }
}

#[test]
fn restore_decision_done_when_target_column_without_foreign() {
    let state = target(false, 2, vec![10]);
    assert_eq!(decide_restore_action(&state, 2), RestoreDecision::Done);
}

#[test]
fn restore_decision_expel_when_mixed_column() {
    let state = target(true, 1, vec![10, 20]);
    assert_eq!(decide_restore_action(&state, 2), RestoreDecision::ExpelForeign);
}

#[test]
fn restore_decision_move_when_single_non_target() {
    let state = target(false, 1, vec![10]);
    assert_eq!(decide_restore_action(&state, 2), RestoreDecision::MoveColumn);
}

#[test]
fn restore_decision_move_when_alone_with_foreign_flag() {
    // A single window marked foreign is moved, never expelled.
    let state = target(true, 2, vec![10]);
    assert_eq!(decide_restore_action(&state, 2), RestoreDecision::MoveColumn);
}

#[test]
fn restore_decision_expel_even_in_target_column() {
    let state = target(true, 2, vec![10, 20]);
    assert_eq!(decide_restore_action(&state, 2), RestoreDecision::ExpelForeign);
}

#[test]
fn desired_columns_later_entry_wins() {
    let map = desired_columns_by_id(&vec![saved(1, 2, 1), saved(2, 3, 1), saved(1, 4, 1)]);
    assert_eq!(map.len(), 2);
    assert_eq!(map.get(&1), Some(&4));
    assert_eq!(map.get(&2), Some(&3));
}

#[test]
fn snapshot_lists_column_ids_sorted_and_flags_foreign() {
    let windows = vec![
        make_tiled_window(30, 1, 2, 1, 800, 600),
        make_tiled_window(10, 1, 2, 2, 800, 600),
        make_tiled_window(20, 1, 3, 1, 800, 600),
        make_floating_window(40, 1, 100, 100),
        make_tiled_window(50, 2, 2, 1, 800, 600),
    ];
    let desired = desired_columns_by_id(&vec![saved(10, 2, 1), saved(30, 2, 2)]);
    let snap = snapshot_target(&windows, 10, 2, &desired).expect("target is tiled");
    assert_eq!(snap.column.index, 2);
    assert_eq!(snap.column.window_ids, vec![10, 30]);
    assert!(!snap.has_foreign_windows);

    let only_target = desired_columns_by_id(&vec![saved(10, 2, 1)]);
    let snap = snapshot_target(&windows, 10, 2, &only_target).expect("target is tiled");
    assert!(snap.has_foreign_windows);
}

#[test]
fn snapshot_none_when_target_missing_or_floating() {
    let windows = vec![make_floating_window(10, 1, 100, 100)];
    let desired = desired_columns_by_id(&vec![saved(10, 2, 1)]);
    assert!(snapshot_target(&windows, 10, 2, &desired).is_none());
    assert!(snapshot_target(&windows, 99, 2, &desired).is_none());
}

#[test]
fn restore_actions_for_each_decision() {
    assert_eq!(
        apply_restore_decision(10, 2, RestoreDecision::ExpelForeign),
        vec![
            Action::FocusWindow { id: 10 },
            Action::ExpelWindowFromColumn,
            Action::FocusWindow { id: 10 }
        ]
    );
    assert_eq!(
        apply_restore_decision(10, 2, RestoreDecision::MoveColumn),
        vec![Action::FocusWindow { id: 10 }, Action::MoveColumnToIndex { index: 2 }]
    );
    assert_eq!(
        apply_restore_decision(10, 2, RestoreDecision::Done),
        vec![Action::FocusWindow { id: 10 }]
    );
}

#[test]
fn restore_targets_sorted_by_column_then_row_skipping_column_zero() {
    let targets = restore_targets(&vec![
        saved(1, 3, 1),
        saved(2, 0, 1),
        saved(3, 2, 2),
        saved(4, 2, 1),
        saved(5, 3, 1),
    ]);
    let ids: Vec<u64> = targets.iter().map(|t| t.id).collect();
    assert_eq!(ids, vec![4, 3, 1, 5]);
}
