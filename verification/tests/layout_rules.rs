use niri_master_layout::action::{Action, focus_with_width, set_height, set_width, set_width_percent_for_windows};
use niri_master_layout::cli::{AppCommand, ArgsError, parse_args_from};
use niri_master_layout::resize::{ActiveMasterLayout, ResizeDirection, resize, shrink_column_width_percent};
use niri_master_layout::restore::restore_sizes;
use niri_master_layout::stack::{
    focused_stack_column, nearest_right_column_anchor, pull_windows_into_stack, stack_column_state,
    style_stack_column,
};
use niri_master_layout::state::{
    CleanupGuard, SavedLayoutState, SavedWindowSize, StateFile, current_workspace, saved_layout_state,
    state_file_name,
};
use niri_master_layout::window::{WindowInfo, make_floating_window, make_tiled_window, tiled_pos};

#[test]
fn save_and_load_roundtrip_with_workspace() {
    let workspace_id = 42;
    let windows = vec![
        make_tiled_window(10, workspace_id, 2, 1, 1200, 800),
        make_tiled_window(20, workspace_id, 1, 1, 800, 600),
        make_floating_window(30, workspace_id, 500, 300),
    ];
    let state = saved_layout_state(&windows, 10, workspace_id);
    assert_eq!(state.workspace_id, workspace_id);
    assert_eq!(state.master_id, 10);
    assert_eq!(state.windows.len(), 2);
    assert_eq!(state.windows[0].id, 20);
    assert_eq!(state.windows[1].id, 10);
}

#[test]
fn save_layout_state_ignores_other_workspace_windows() {
    let workspace_id = 7;
    let windows = vec![
        make_tiled_window(1, workspace_id, 1, 1, 900, 700),
        make_tiled_window(2, workspace_id + 1, 1, 1, 900, 700),
    ];
    let state = saved_layout_state(&windows, 1, workspace_id);
    assert_eq!(state.windows.len(), 1);
    assert_eq!(state.windows[0].id, 1);
}

#[test]
fn saved_sizes_are_at_least_one_and_sorted_by_position_then_id() {
    let windows = vec![
        make_tiled_window(9, 1, 2, 2, 0, -5),
        make_tiled_window(5, 1, 2, 1, 300, 200),
        make_tiled_window(4, 1, 2, 1, 300, 200),
    ];
    let state = saved_layout_state(&windows, 5, 1);
    let ids: Vec<u64> = state.windows.iter().map(|w| w.id).collect();
    assert_eq!(ids, vec![4, 5, 9]);
    assert_eq!(state.windows[2], SavedWindowSize { id: 9, width: 1, height: 1, column: 2, row: 2 });
}

#[test]
fn tiled_pos_only_for_tiled_windows_of_the_workspace() {
    assert_eq!(tiled_pos(&make_tiled_window(1, 3, 2, 4, 10, 10), 3), Some((2, 4)));
    assert_eq!(tiled_pos(&make_tiled_window(1, 3, 2, 4, 10, 10), 4), None);
    assert_eq!(tiled_pos(&make_floating_window(1, 3, 10, 10), 3), None);
    let no_workspace = WindowInfo { workspace_id: None, ..make_tiled_window(1, 3, 2, 4, 10, 10) };
    assert_eq!(tiled_pos(&no_workspace, 3), None);
}

#[test]
fn anchor_is_top_of_nearest_right_column() {
    let windows = vec![
        make_tiled_window(1, 1, 1, 1, 10, 10),
        make_tiled_window(2, 1, 3, 1, 10, 10),
        make_tiled_window(3, 1, 2, 2, 10, 10),
        make_tiled_window(4, 1, 2, 1, 10, 10),
        make_tiled_window(5, 2, 2, 1, 10, 10),
    ];
    assert_eq!(nearest_right_column_anchor(&windows, 1, 1, 1), Some(4));
    assert_eq!(nearest_right_column_anchor(&windows, 1, 3, 1), None);
    // The master itself never anchors the stack.
    assert_eq!(nearest_right_column_anchor(&windows, 1, 2, 2), None);
}

#[test]
fn anchor_tie_goes_to_first_window() {
    let windows = vec![make_tiled_window(8, 1, 2, 1, 10, 10), make_tiled_window(6, 1, 2, 1, 10, 10)];
    assert_eq!(nearest_right_column_anchor(&windows, 1, 1, 99), Some(8));
}

#[test]
fn stack_state_counts_column_and_sees_right_columns() {
    let windows = vec![
        make_tiled_window(1, 1, 1, 1, 10, 10),
        make_tiled_window(2, 1, 2, 1, 10, 10),
        make_tiled_window(3, 1, 2, 2, 10, 10),
        make_tiled_window(4, 1, 4, 1, 10, 10),
        make_floating_window(5, 1, 10, 10),
    ];
    assert_eq!(stack_column_state(&windows, 1, 2), (2, true));
    assert_eq!(stack_column_state(&windows, 1, 4), (1, false));
    assert!(pull_windows_into_stack(&windows, 1, 2, 3));
    assert!(!pull_windows_into_stack(&windows, 1, 2, 2));
    assert!(!pull_windows_into_stack(&windows, 1, 4, 3));
}

#[test]
fn focused_column_from_focused_window() {
    assert_eq!(focused_stack_column(&Some(make_tiled_window(1, 1, 3, 2, 10, 10))), Some(3));
    assert_eq!(focused_stack_column(&Some(make_floating_window(1, 1, 10, 10))), None);
    assert_eq!(focused_stack_column(&None), None);
}

#[test]
fn style_goes_top_to_bottom() {
    let windows = vec![
        make_tiled_window(7, 1, 2, 3, 10, 10),
        make_tiled_window(8, 1, 2, 1, 10, 10),
        make_tiled_window(9, 1, 3, 2, 10, 10),
    ];
    assert_eq!(
        style_stack_column(&windows, 1, 2),
        vec![
            Action::SetWindowWidthPercent { id: 8, percent: 40 },
            Action::ResetWindowHeight { id: 8 },
            Action::SetWindowWidthPercent { id: 7, percent: 40 },
            Action::ResetWindowHeight { id: 7 },
        ]
    );
}

#[test]
fn style_expels_windows_below_the_top_three() {
    let windows = vec![
        make_tiled_window(11, 1, 2, 5, 10, 10),
        make_tiled_window(12, 1, 2, 2, 10, 10),
        make_tiled_window(13, 1, 2, 4, 10, 10),
        make_tiled_window(14, 1, 2, 1, 10, 10),
        make_tiled_window(15, 1, 2, 3, 10, 10),
        make_tiled_window(16, 1, 3, 1, 10, 10),
    ];
    assert_eq!(
        style_stack_column(&windows, 1, 2),
        vec![
            Action::FocusWindow { id: 11 },
            Action::ExpelWindowFromColumn,
            Action::FocusWindow { id: 13 },
            Action::ExpelWindowFromColumn,
            Action::SetWindowWidthPercent { id: 14, percent: 40 },
            Action::ResetWindowHeight { id: 14 },
            Action::SetWindowWidthPercent { id: 12, percent: 40 },
            Action::ResetWindowHeight { id: 12 },
            Action::SetWindowWidthPercent { id: 15, percent: 40 },
            Action::ResetWindowHeight { id: 15 },
        ]
    );
}

#[test]
fn state_file_name_per_workspace() {
    assert_eq!(state_file_name(42), "niri-master-layout-42.state");
    assert_eq!(state_file_name(0), "niri-master-layout-0.state");
    assert_eq!(state_file_name(u64::MAX), "niri-master-layout-18446744073709551615.state");
    assert_eq!(StateFile { workspace_id: 7 }.file_name(), "niri-master-layout-7.state");
}

#[test]
fn context_from_focused_window() {
    let ctx = current_workspace(&Some(make_tiled_window(3, 9, 1, 1, 10, 10))).expect("context");
    assert_eq!(ctx.master_id, 3);
    assert_eq!(ctx.workspace_id, 9);
    assert_eq!(ctx.state_path, StateFile { workspace_id: 9 });
    let no_workspace = WindowInfo { workspace_id: None, ..make_tiled_window(3, 9, 1, 1, 10, 10) };
    assert!(current_workspace(&Some(no_workspace)).is_none());
    assert!(current_workspace(&None).is_none());
}

#[test]
fn cleanup_guard_removes_unless_kept() {
    let mut guard = CleanupGuard::new(StateFile { workspace_id: 5 });
    assert_eq!(guard.pending_removal(), Some(StateFile { workspace_id: 5 }));
    guard.keep();
    assert_eq!(guard.pending_removal(), None);
}

#[test]
fn parse_args_cases() {
    assert_eq!(parse_args_from(&vec![]), Ok(AppCommand::Toggle));
    assert_eq!(parse_args_from(&vec![Some("grow-master".to_string())]), Ok(AppCommand::GrowMaster));
    assert_eq!(
        parse_args_from(&vec![Some("shrink-master".to_string())]),
        Ok(AppCommand::ShrinkMaster)
    );
    assert_eq!(parse_args_from(&vec![Some("toggle".to_string())]), Err(ArgsError::InvalidArgs));
    assert_eq!(parse_args_from(&vec![None]), Err(ArgsError::InvalidArgs));
    assert_eq!(
        parse_args_from(&vec![Some("grow-master".to_string()), Some("x".to_string())]),
        Err(ArgsError::InvalidArgs)
    );
    assert_eq!(
        ArgsError::InvalidArgs.message(),
        "usage: niri-master-layout [grow-master|shrink-master]"
    );
}

#[test]
fn shrink_percent_rounds_and_clamps() {
    // 600 of 1000 is 60%: one step less is 50%.
    assert_eq!(shrink_column_width_percent(600, 1000), 50);
    // 65% rounds up to 70%, then 60%.
    assert_eq!(shrink_column_width_percent(650, 1000), 60);
    // 64% rounds to 60%, then 50%.
    assert_eq!(shrink_column_width_percent(649, 1000), 50);
    // Never below 10% nor above 90%.
    assert_eq!(shrink_column_width_percent(1, 1000), 10);
    assert_eq!(shrink_column_width_percent(1000, 1000), 90);
}

#[test]
fn detect_requires_master_alone_leftmost_in_top_row() {
    let good = vec![
        make_tiled_window(1, 1, 1, 1, 600, 10),
        make_tiled_window(2, 1, 2, 1, 300, 10),
        make_tiled_window(3, 1, 2, 2, 400, 10),
        make_tiled_window(4, 1, 3, 1, 100, 10),
    ];
    let layout = ActiveMasterLayout::detect(&good, 1, 1).expect("layout");
    assert_eq!(layout.master_width, 600);
    assert_eq!(layout.stack_width, 400);
    assert_eq!(layout.total_width, 1100);
    assert_eq!(layout.stack_window_ids, vec![2, 3]);
    assert_eq!(layout.resize_plan(ResizeDirection::ShrinkMaster).master_width_percent, 40);

    let not_leftmost = vec![make_tiled_window(2, 1, 1, 1, 300, 10), make_tiled_window(1, 1, 2, 1, 600, 10)];
    assert!(ActiveMasterLayout::detect(&not_leftmost, 1, 1).is_none());
    let shared = vec![
        make_tiled_window(1, 1, 1, 1, 600, 10),
        make_tiled_window(5, 1, 1, 2, 600, 10),
        make_tiled_window(2, 1, 2, 1, 300, 10),
    ];
    assert!(ActiveMasterLayout::detect(&shared, 1, 1).is_none());
    let second_row = vec![make_tiled_window(1, 1, 1, 2, 600, 10), make_tiled_window(2, 1, 2, 1, 300, 10)];
    assert!(ActiveMasterLayout::detect(&second_row, 1, 1).is_none());
    let no_stack = vec![make_tiled_window(1, 1, 1, 1, 600, 10)];
    assert!(ActiveMasterLayout::detect(&no_stack, 1, 1).is_none());
    let twice = vec![
        make_tiled_window(1, 1, 1, 1, 600, 10),
        make_tiled_window(1, 1, 3, 1, 600, 10),
        make_tiled_window(2, 1, 2, 1, 300, 10),
    ];
    assert!(ActiveMasterLayout::detect(&twice, 1, 1).is_none());
}

#[test]
fn resize_plans_percentages() {
    let windows = vec![make_tiled_window(1, 1, 1, 1, 600, 10), make_tiled_window(2, 1, 2, 1, 400, 10)];
    assert_eq!(
        resize(&windows, 1, 1, ResizeDirection::GrowMaster),
        Some(vec![
            Action::SetWindowWidthPercent { id: 2, percent: 30 },
            Action::FocusWindow { id: 1 },
            Action::SetWindowWidthPercent { id: 1, percent: 70 },
        ])
    );
    assert_eq!(resize(&windows, 1, 99, ResizeDirection::GrowMaster), None);
    assert_eq!(ResizeDirection::from_command(AppCommand::Toggle), None);
    assert_eq!(ResizeDirection::from_command(AppCommand::ShrinkMaster), Some(ResizeDirection::ShrinkMaster));
}

#[test]
fn size_actions_clamp_to_one_pixel() {
    assert_eq!(set_width(3, 0), Action::SetWindowWidthFixed { id: 3, width: 1 });
    assert_eq!(set_height(3, -9), Action::SetWindowHeightFixed { id: 3, height: 1 });
    assert_eq!(set_width(3, 640), Action::SetWindowWidthFixed { id: 3, width: 640 });
    let state = SavedLayoutState {
        workspace_id: 1,
        master_id: 4,
        windows: vec![SavedWindowSize { id: 4, width: 0, height: 20, column: 1, row: 1 }],
    };
    assert_eq!(
        restore_sizes(&state),
        vec![
            Action::SetWindowWidthFixed { id: 4, width: 1 },
            Action::SetWindowHeightFixed { id: 4, height: 20 },
            Action::FocusWindow { id: 4 },
        ]
    );
    assert_eq!(
        focus_with_width(4, 60),
        vec![Action::FocusWindow { id: 4 }, Action::SetWindowWidthPercent { id: 4, percent: 60 }]
    );
    assert_eq!(
        set_width_percent_for_windows(&vec![1, 2], 40),
        vec![
            Action::SetWindowWidthPercent { id: 1, percent: 40 },
            Action::SetWindowWidthPercent { id: 2, percent: 40 },
        ]
    );
}
