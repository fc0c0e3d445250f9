//! The saved layout: what is stored per workspace, and the state file's name.

use vstd::prelude::*;
use crate::sort::{SortKey, is_stable_sort_of, stable_sort, stable_sorted};
use crate::window::{WindowInfo, tiled_pos, tiled_pos_spec};

verus! {

/// Size and position of one tiled window when the layout was saved.
#[derive(Clone, Copy, Debug, PartialEq, Eq)]
pub struct SavedWindowSize {
    pub id: u64,
    pub width: i32,
    pub height: i32,
    pub column: usize,
    pub row: usize,
}

/// The layout of a workspace before the master layout was applied.
#[derive(Debug)]
pub struct SavedLayoutState {
    pub workspace_id: u64,
    pub master_id: u64,
    pub windows: Vec<SavedWindowSize>,
}

/// [`SavedLayoutState`] with its window list as a sequence.
#[verifier::ext_equal]
pub struct SavedLayoutView {
    pub workspace_id: u64,
    pub master_id: u64,
    pub windows: Seq<SavedWindowSize>,
}

impl View for SavedLayoutState {
    type V = SavedLayoutView;

    open spec fn view(&self) -> SavedLayoutView {
        SavedLayoutView {
            workspace_id: self.workspace_id,
            master_id: self.master_id,
            windows: self.windows@,
        }
    }
}

/// 2^64: every component of a packed key is below it.
pub open spec fn key_base() -> int {
    0x1_0000_0000_0000_0000
}

/// Saved windows are stored ordered by (column, row, id).
impl SortKey for SavedWindowSize {
    open spec fn sort_key(self) -> int {
        self.column * key_base() * key_base() + self.row * key_base() + self.id
    }

    fn key_le(&self, other: &Self) -> (r: bool) {
        if self.column != other.column {
            self.column < other.column
        } else if self.row != other.row {
            self.row < other.row
        } else {
            self.id <= other.id
        }
    }
}

/// A size is stored as at least one pixel.
pub open spec fn at_least_one(v: i32) -> i32 {
    if v < 1 {
        1
    } else {
        v
    }
}

/// The entry saved for `w`: its id, size (at least one pixel each way) and
/// position, when it is a tiled window of `workspace_id`.
pub open spec fn saved_entry(w: WindowInfo, workspace_id: u64) -> Option<SavedWindowSize> {
    match tiled_pos_spec(w, workspace_id) {
        Some((column, row)) => Some(
            SavedWindowSize {
                id: w.id,
                width: at_least_one(w.window_size.0),
                height: at_least_one(w.window_size.1),
                column,
                row,
            },
        ),
        None => None,
    }
}

/// The entries saved for the tiled windows of `workspace_id`, in window order.
pub open spec fn saved_windows_of(windows: Seq<WindowInfo>, workspace_id: u64) -> Seq<SavedWindowSize> {
    windows.filter_map(|w: WindowInfo| saved_entry(w, workspace_id))
}

/// The entries saved for the tiled windows of `workspace_id`, in window order.
pub fn collect_saved_windows(windows: &Vec<WindowInfo>, workspace_id: u64) -> (r: Vec<SavedWindowSize>)
    ensures
        r@ == saved_windows_of(windows@, workspace_id),
{
    let mut r: Vec<SavedWindowSize> = Vec::new();
    let mut i: usize = 0;
    while i < windows.len()
        invariant
            i <= windows.len(),
            r@ == saved_windows_of(windows@.take(i as int), workspace_id),
        decreases windows.len() - i,
    {
        let w = windows[i];
        let ghost prefix = windows@.take(i as int);
        proof {
            assert(windows@.take(i + 1) == prefix.push(w));
            assert(prefix.push(w).drop_last() == prefix);
        }
        match tiled_pos(&w, workspace_id) {
            Some((column, row)) => {
                let width = if w.window_size.0 < 1 {
                    1
                } else {
                    w.window_size.0
                };
                let height = if w.window_size.1 < 1 {
                    1
                } else {
                    w.window_size.1
                };
                r.push(SavedWindowSize { id: w.id, width, height, column, row });
            },
            None => {},
        }
        i = i + 1;
    }
    proof {
        assert(windows@.take(windows@.len() as int) == windows@);
    }
    r
}

/// The state saved before the master layout is applied: the tiled windows
/// of `workspace_id` ordered by (column, row, id).
pub open spec fn is_saved_layout_of(
    state: SavedLayoutView,
    windows: Seq<WindowInfo>,
    master_id: u64,
    workspace_id: u64,
) -> bool {
    &&& state.workspace_id == workspace_id
    &&& state.master_id == master_id
    &&& is_stable_sort_of(state.windows, saved_windows_of(windows, workspace_id))
}

/// The state saved before the master layout is applied.
pub open spec fn saved_layout_spec(windows: Seq<WindowInfo>, master_id: u64, workspace_id: u64) -> SavedLayoutView {
    SavedLayoutView {
        workspace_id,
        master_id,
        windows: stable_sorted(saved_windows_of(windows, workspace_id)),
    }
}

/// The state saved before the master layout is applied: the tiled windows
/// of `workspace_id` with their sizes (at least one pixel each way) and
/// positions, ordered by (column, row, id).
pub fn saved_layout_state(windows: &Vec<WindowInfo>, master_id: u64, workspace_id: u64) -> (r:
    SavedLayoutState)
    ensures
        is_saved_layout_of(r@, windows@, master_id, workspace_id),
        r@ == saved_layout_spec(windows@, master_id, workspace_id),
{
    let saved = collect_saved_windows(windows, workspace_id);
    let sorted = stable_sort(&saved);
    SavedLayoutState { workspace_id, master_id, windows: sorted }
}

/// The character for a decimal digit.
pub open spec fn digit_char(d: nat) -> char {
    (48 + d) as char
}

/// Decimal representation of `n`, without leading zeros.
pub open spec fn decimal(n: nat) -> Seq<char>
    decreases n,
{
    if n < 10 {
        seq![digit_char(n)]
    } else {
        decimal(n / 10).push(digit_char(n % 10))
    }
}

fn digit_str(d: u64) -> (r: &'static str)
    requires
        d < 10,
    ensures
        r@ == seq![digit_char(d as nat)],
{
    proof {
        reveal_strlit("0");
        reveal_strlit("1");
        reveal_strlit("2");
        reveal_strlit("3");
        reveal_strlit("4");
        reveal_strlit("5");
        reveal_strlit("6");
        reveal_strlit("7");
        reveal_strlit("8");
        reveal_strlit("9");
    }
    match d {
        0 => "0",
        1 => "1",
        2 => "2",
        3 => "3",
        4 => "4",
        5 => "5",
        6 => "6",
        7 => "7",
        8 => "8",
        _ => "9",
    }
}

fn append_decimal(s: &mut String, n: u64)
    ensures
        final(s)@ == old(s)@ + decimal(n as nat),
    decreases n,
{
    if n >= 10 {
        append_decimal(s, n / 10);
    }
    s.append(digit_str(n % 10));
}

/// The state file of one workspace (each workspace has its own).
#[derive(Clone, Copy, Debug, PartialEq, Eq)]
pub struct StateFile {
    pub workspace_id: u64,
}

/// Name of the state file of workspace `workspace_id`.
pub open spec fn state_file_name_spec(workspace_id: u64) -> Seq<char> {
    "niri-master-layout-"@ + decimal(workspace_id as nat) + ".state"@
}

impl StateFile {
    /// The file name, `niri-master-layout-<workspace_id>.state`.
    pub fn file_name(&self) -> (r: String)
        ensures
            r@ == state_file_name_spec(self.workspace_id),
    {
        state_file_name(self.workspace_id)
    }
}

/// Name of the state file of workspace `workspace_id`, placed in the
/// system's temporary directory: `niri-master-layout-<workspace_id>.state`.
pub fn state_file_name(workspace_id: u64) -> (r: String)
    ensures
        r@ == state_file_name_spec(workspace_id),
{
    let mut s = String::from_str("niri-master-layout-");
    append_decimal(&mut s, workspace_id);
    s.append(".state");
    s
}

proof fn lemma_decimal_len(n: nat)
    ensures
        decimal(n).len() >= 1,
        n >= 10 ==> decimal(n).len() >= 2,
    decreases n,
{
    if n >= 10 {
        lemma_decimal_len(n / 10);
    }
}

proof fn lemma_decimal_injective(a: nat, b: nat)
    requires
        decimal(a) == decimal(b),
    ensures
        a == b,
    decreases a,
{
    lemma_decimal_len(a);
    lemma_decimal_len(b);
    if a >= 10 && b >= 10 {
        let da = decimal(a);
        assert(da.last() == digit_char(a % 10));
        assert(decimal(b).last() == digit_char(b % 10));
        assert(a % 10 == b % 10);
        assert(decimal(a / 10) == da.drop_last());
        assert(decimal(b / 10) == decimal(b).drop_last());
        lemma_decimal_injective(a / 10, b / 10);
    } else if a < 10 && b < 10 {
        assert(decimal(a)[0] == digit_char(a));
        assert(decimal(b)[0] == digit_char(b));
    }
}

/// Different workspaces have different state files: the file name
/// determines the workspace.
pub proof fn state_file_names_distinct(a: u64, b: u64)
    requires
        a != b,
    ensures
        state_file_name_spec(a) != state_file_name_spec(b),
{
    let prefix = "niri-master-layout-"@;
    let suffix = ".state"@;
    let da = decimal(a as nat);
    let db = decimal(b as nat);
    if state_file_name_spec(a) == state_file_name_spec(b) {
        let na = prefix + da + suffix;
        let nb = prefix + db + suffix;
        assert(na.len() == nb.len());
        assert(da.len() == db.len());
        assert(na.subrange(prefix.len() as int, (prefix.len() + da.len()) as int) == da);
        assert(nb.subrange(prefix.len() as int, (prefix.len() + db.len()) as int) == db);
        lemma_decimal_injective(a as nat, b as nat);
    }
}

/// Removes the state file when the layout is abandoned before it was
/// applied, unless [`CleanupGuard::keep`] was called.
#[derive(Clone, Copy, Debug, PartialEq, Eq)]
pub struct CleanupGuard {
    /// The file to remove.
    pub path: StateFile,
    /// Whether the file is to be kept.
    pub keep: bool,
}

impl CleanupGuard {
    /// A guard that removes `path` unless told to keep it.
    pub fn new(path: StateFile) -> (g: Self)
        ensures
            g.path == path,
            !g.keep,
    {
        CleanupGuard { path, keep: false }
    }

    /// Keep the file: the layout it describes is being applied.
    pub fn keep(&mut self)
        ensures
            final(self).path == old(self).path,
            final(self).keep,
    {
        self.keep = true;
    }

    /// The file to remove when the guard is dropped: none once kept.
    pub fn pending_removal(&self) -> (r: Option<StateFile>)
        ensures
            r == (if self.keep {
                None
            } else {
                Some(self.path)
            }),
    {
        if self.keep {
            None
        } else {
            Some(self.path)
        }
    }
}

/// The focused window and its workspace: the master window and the
/// workspace whose layout the program works on.
#[derive(Clone, Copy, Debug, PartialEq, Eq)]
pub struct WorkspaceContext {
    pub master_id: u64,
    pub workspace_id: u64,
    pub state_path: StateFile,
}

/// The context given by the focused window: none when no window is
/// focused or the focused window is on no workspace.
pub open spec fn current_workspace_spec(focused: Option<WindowInfo>) -> Option<WorkspaceContext> {
    match focused {
        Some(w) => match w.workspace_id {
            Some(workspace_id) => Some(
                WorkspaceContext {
                    master_id: w.id,
                    workspace_id,
                    state_path: StateFile { workspace_id },
                },
            ),
            None => None,
        },
        None => None,
    }
}

/// The context given by the focused window: none when no window is
/// focused or the focused window is on no workspace.
pub fn current_workspace(focused: &Option<WindowInfo>) -> (r: Option<WorkspaceContext>)
    ensures
        r == current_workspace_spec(*focused),
{
    match focused {
        Some(w) => match w.workspace_id {
            Some(workspace_id) => Some(
                WorkspaceContext {
                    master_id: w.id,
                    workspace_id,
                    state_path: StateFile { workspace_id },
                },
            ),
            None => None,
        },
        None => None,
    }
}

} // verus!
