//! Compositor actions that the layout logic asks for.

use vstd::prelude::*;

verus! {

/// Width of the master column, in percent of the working area.
pub const MASTER_WIDTH_PERCENT: u32 = 60;

/// Width of the stack windows, in percent of the working area.
pub const STACK_WINDOW_WIDTH_PERCENT: u32 = 40;

/// Most windows the stack column holds.
pub const MAX_STACK_WINDOWS: usize = 3;

/// Index the master column is moved to (columns count from 1).
pub const MASTER_COLUMN_INDEX: usize = 1;

/// An action for niri to perform.
#[derive(Clone, Copy, Debug, PartialEq, Eq)]
pub enum Action {
    /// Focus the window with this id.
    FocusWindow { id: u64 },
    /// Move the focused column to this index (from 1).
    MoveColumnToIndex { index: usize },
    /// Consume the window to the right into the focused column.
    ConsumeWindowIntoColumn,
    /// Expel the bottom window from the focused column.
    ExpelWindowFromColumn,
    /// Display the focused column's windows tiled vertically (not tabbed).
    SetColumnDisplayNormal,
    /// Reset the window's height back to automatic.
    ResetWindowHeight { id: u64 },
    /// Set the window's width to a proportion of the working area, in percent.
    SetWindowWidthPercent { id: u64, percent: u32 },
    /// Set the window's width in logical pixels.
    SetWindowWidthFixed { id: u64, width: i32 },
    /// Set the window's height in logical pixels.
    SetWindowHeightFixed { id: u64, height: i32 },
}

/// Focus a window.
pub fn focus(window_id: u64) -> (a: Action)
    ensures
        a == (Action::FocusWindow { id: window_id }),
{
    Action::FocusWindow { id: window_id }
}

/// Set a window's width in percent of the working area.
pub fn set_width_percent(window_id: u64, percent: u32) -> (a: Action)
    ensures
        a == (Action::SetWindowWidthPercent { id: window_id, percent }),
{
    Action::SetWindowWidthPercent { id: window_id, percent }
}

/// Focus a window, then set its width in percent.
pub open spec fn focus_with_width_spec(window_id: u64, percent: u32) -> Seq<Action> {
    seq![Action::FocusWindow { id: window_id }, Action::SetWindowWidthPercent { id: window_id, percent }]
}

/// Focus a window, then set its width in percent.
pub fn focus_with_width(window_id: u64, percent: u32) -> (r: Vec<Action>)
    ensures
        r@ == focus_with_width_spec(window_id, percent),
{
    let mut r = Vec::new();
    r.push(focus(window_id));
    r.push(set_width_percent(window_id, percent));
    r
}

/// The same width in percent for each window, in order.
pub open spec fn widths_for(window_ids: Seq<u64>, percent: u32) -> Seq<Action> {
    window_ids.map_values(|id: u64| Action::SetWindowWidthPercent { id, percent })
}

/// Set the same width in percent for each window, in order.
pub fn set_width_percent_for_windows(window_ids: &Vec<u64>, percent: u32) -> (r: Vec<Action>)
    ensures
        r@ == widths_for(window_ids@, percent),
{
    let mut r = Vec::new();
    let mut i: usize = 0;
    while i < window_ids.len()
        invariant
            i <= window_ids.len(),
            r@ == widths_for(window_ids@.take(i as int), percent),
        decreases window_ids.len() - i,
    {
        r.push(set_width_percent(window_ids[i], percent));
        proof {
            assert(window_ids@.take(i + 1) == window_ids@.take(i as int).push(window_ids@[i as int]));
        }
        i = i + 1;
    }
    proof {
        assert(window_ids@.take(window_ids@.len() as int) == window_ids@);
    }
    r
}

/// A fixed size is at least one pixel.
pub open spec fn clamp_size(v: i32) -> i32 {
    if v < 1 {
        1
    } else {
        v
    }
}

/// Set a window's width in pixels (at least one).
pub fn set_width(window_id: u64, width: i32) -> (a: Action)
    ensures
        a == (Action::SetWindowWidthFixed { id: window_id, width: clamp_size(width) }),
{
    Action::SetWindowWidthFixed { id: window_id, width: if width < 1 { 1 } else { width } }
}

/// Set a window's height in pixels (at least one).
pub fn set_height(window_id: u64, height: i32) -> (a: Action)
    ensures
        a == (Action::SetWindowHeightFixed { id: window_id, height: clamp_size(height) }),
{
    Action::SetWindowHeightFixed { id: window_id, height: if height < 1 { 1 } else { height } }
}

} // verus!
