//! The part of a niri window that the layout logic reads.

use vstd::prelude::*;

verus! {

/// A window as reported by niri, reduced to the plain values that the
/// layout logic reads.
#[derive(Clone, Copy, Debug, PartialEq, Eq)]
pub struct WindowInfo {
    /// Unique id of the window.
    pub id: u64,
    /// Workspace the window is on, if any.
    pub workspace_id: Option<u64>,
    /// Whether the window floats (it is then not part of the column layout).
    pub is_floating: bool,
    /// (column, row) of a tiled window; both indices start at 1.
    pub pos_in_scrolling_layout: Option<(usize, usize)>,
    /// Size of the window's visual geometry (width, height).
    pub window_size: (i32, i32),
    /// Width of the window's tile in whole logical pixels.
    pub tile_width: i32,
}

/// The (column, row) of `w` when it is a tiled window of workspace `workspace_id`.
pub open spec fn tiled_pos_spec(w: WindowInfo, workspace_id: u64) -> Option<(usize, usize)> {
    if w.is_floating || w.workspace_id != Some(workspace_id) {
        None
    } else {
        w.pos_in_scrolling_layout
    }
}

/// Whether `w` is a tiled window of workspace `workspace_id`.
pub open spec fn is_tiled_in(w: WindowInfo, workspace_id: u64) -> bool {
    tiled_pos_spec(w, workspace_id) is Some
}

/// Column of a tiled window (meaningful when [`is_tiled_in`] holds).
pub open spec fn tiled_column(w: WindowInfo, workspace_id: u64) -> usize {
    match tiled_pos_spec(w, workspace_id) {
        Some((column, _)) => column,
        None => 0,
    }
}

/// Row of a tiled window (meaningful when [`is_tiled_in`] holds).
pub open spec fn tiled_row(w: WindowInfo, workspace_id: u64) -> usize {
    match tiled_pos_spec(w, workspace_id) {
        Some((_, row)) => row,
        None => 0,
    }
}

/// Position of a window in the scrolling layout of `workspace_id`; `None`
/// for floating windows and windows of other workspaces.
pub fn tiled_pos(window: &WindowInfo, workspace_id: u64) -> (r: Option<(usize, usize)>)
    ensures
        r == tiled_pos_spec(*window, workspace_id),
{
    if window.is_floating {
        return None;
    }
    match window.workspace_id {
        Some(ws) if ws == workspace_id => window.pos_in_scrolling_layout,
        _ => None,
    }
}

/// The tile width that niri reports for a window `width` pixels wide
/// (tile widths are clamped to at least one pixel).
pub open spec fn tile_width_for(width: i32) -> i32 {
    if width < 1 {
        1
    } else {
        width
    }
}

/// A tiled window of `workspace_id` at (`column`, `row`) of the given size.
pub fn make_tiled_window(
    id: u64,
    workspace_id: u64,
    column: usize,
    row: usize,
    width: i32,
    height: i32,
) -> (w: WindowInfo)
    ensures
        w == (WindowInfo {
            id,
            workspace_id: Some(workspace_id),
            is_floating: false,
            pos_in_scrolling_layout: Some((column, row)),
            window_size: (width, height),
            tile_width: tile_width_for(width),
        }),
{
    WindowInfo {
        id,
        workspace_id: Some(workspace_id),
        is_floating: false,
        pos_in_scrolling_layout: Some((column, row)),
        window_size: (width, height),
        tile_width: if width < 1 {
            1
        } else {
            width
        },
    }
}

/// A floating window of `workspace_id` of the given size.
pub fn make_floating_window(id: u64, workspace_id: u64, width: i32, height: i32) -> (w: WindowInfo)
    ensures
        w == (WindowInfo {
            id,
            workspace_id: Some(workspace_id),
            is_floating: true,
            pos_in_scrolling_layout: None,
            window_size: (width, height),
            tile_width: tile_width_for(width),
        }),
{
    WindowInfo {
        id,
        workspace_id: Some(workspace_id),
        is_floating: true,
        pos_in_scrolling_layout: None,
        window_size: (width, height),
        tile_width: if width < 1 {
            1
        } else {
            width
        },
    }
}

} // verus!
