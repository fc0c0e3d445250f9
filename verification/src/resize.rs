//! Growing and shrinking the master column of an applied master layout.

use vstd::prelude::*;
use crate::action::{Action, focus_with_width, focus_with_width_spec, set_width_percent_for_windows, widths_for};
use crate::cli::AppCommand;
use crate::restore::column_ids;
use crate::window::{WindowInfo, is_tiled_in, tiled_column, tiled_pos, tiled_pos_spec, tiled_row};

verus! {

/// Which way the master column is resized.
#[derive(Clone, Copy, Debug, PartialEq, Eq)]
pub enum ResizeDirection {
    GrowMaster,
    ShrinkMaster,
}

impl ResizeDirection {
    /// The resize a command asks for; none for toggling.
    pub fn from_command(command: AppCommand) -> (r: Option<Self>)
        ensures
            r == (match command {
                AppCommand::GrowMaster => Some(ResizeDirection::GrowMaster),
                AppCommand::ShrinkMaster => Some(ResizeDirection::ShrinkMaster),
                AppCommand::Toggle => None,
            }),
    {
        match command {
            AppCommand::GrowMaster => Some(ResizeDirection::GrowMaster),
            AppCommand::ShrinkMaster => Some(ResizeDirection::ShrinkMaster),
            AppCommand::Toggle => None,
        }
    }
}

/// The distinct columns of the workspace's tiled windows, in the order in
/// which they first appear.
pub open spec fn column_list(s: Seq<WindowInfo>, workspace_id: u64) -> Seq<usize>
    decreases s.len(),
{
    if s.len() == 0 {
        Seq::empty()
    } else {
        let prev = column_list(s.drop_last(), workspace_id);
        let w = s.last();
        if is_tiled_in(w, workspace_id) && !prev.contains(tiled_column(w, workspace_id)) {
            prev.push(tiled_column(w, workspace_id))
        } else {
            prev
        }
    }
}

/// Width of a column: the width of its widest tile (`i32::MIN` for a
/// column that holds no tile).
pub open spec fn column_width(s: Seq<WindowInfo>, workspace_id: u64, column: usize) -> int
    decreases s.len(),
{
    if s.len() == 0 {
        i32::MIN as int
    } else {
        let m = column_width(s.drop_last(), workspace_id, column);
        let w = s.last();
        if is_tiled_in(w, workspace_id) && tiled_column(w, workspace_id) == column && w.tile_width
            > m {
            w.tile_width as int
        } else {
            m
        }
    }
}

/// Sum of the widths of the given columns.
pub open spec fn sum_widths(s: Seq<WindowInfo>, workspace_id: u64, columns: Seq<usize>) -> int
    decreases columns.len(),
{
    if columns.len() == 0 {
        0
    } else {
        sum_widths(s, workspace_id, columns.drop_last()) + column_width(
            s,
            workspace_id,
            columns.last(),
        )
    }
}

/// Width of all columns of the workspace together.
pub open spec fn total_width(s: Seq<WindowInfo>, workspace_id: u64) -> int {
    sum_widths(s, workspace_id, column_list(s, workspace_id))
}

/// `column` is the smallest of `columns`.
pub open spec fn is_min_column(columns: Seq<usize>, column: usize) -> bool {
    columns.contains(column) && forall|i: int| 0 <= i < columns.len() ==> column <= columns[i]
}

/// `next` is the smallest of `columns` greater than `column`.
pub open spec fn is_next_column(columns: Seq<usize>, column: usize, next: usize) -> bool {
    &&& columns.contains(next)
    &&& next > column
    &&& forall|i: int| 0 <= i < columns.len() && columns[i] > column ==> next <= columns[i]
}

/// The smallest of `columns` greater than `column`.
pub open spec fn next_column_spec(columns: Seq<usize>, column: usize) -> Option<usize> {
    if exists|n: usize| is_next_column(columns, column, n) {
        Some(choose|n: usize| is_next_column(columns, column, n))
    } else {
        None
    }
}

/// Index `i` holds a tiled window of the workspace with the master's id.
pub open spec fn is_master_at(s: Seq<WindowInfo>, workspace_id: u64, master_id: u64, i: int) -> bool {
    0 <= i < s.len() && s[i].id == master_id && is_tiled_in(s[i], workspace_id)
}

/// The master is tiled at most once, and in the top row.
pub open spec fn master_windows_ok(s: Seq<WindowInfo>, workspace_id: u64, master_id: u64) -> bool {
    &&& forall|i: int| #[trigger]
        is_master_at(s, workspace_id, master_id, i) ==> tiled_row(s[i], workspace_id) == 1
    &&& forall|i: int, j: int|
        #[trigger] is_master_at(s, workspace_id, master_id, i) && #[trigger] is_master_at(
            s,
            workspace_id,
            master_id,
            j,
        ) ==> i == j
}

/// Column of the tiled master window.
pub open spec fn master_column_spec(s: Seq<WindowInfo>, workspace_id: u64, master_id: u64) -> Option<usize> {
    if exists|i: int| is_master_at(s, workspace_id, master_id, i) {
        Some(tiled_column(s[choose|i: int| is_master_at(s, workspace_id, master_id, i)], workspace_id))
    } else {
        None
    }
}

/// Whether a tiled window other than `ignored_id` is in `column`.
pub open spec fn has_other_in_column(s: Seq<WindowInfo>, workspace_id: u64, column: usize, ignored_id: u64) -> bool {
    exists|i: int|
        0 <= i < s.len() && s[i].id != ignored_id && #[trigger] is_tiled_in(s[i], workspace_id)
            && tiled_column(s[i], workspace_id) == column
}

/// An applied master layout, as detected from the windows.
pub struct ActiveLayoutView {
    pub master_id: u64,
    pub master_width: int,
    pub stack_width: int,
    pub total_width: int,
    pub stack_window_ids: Seq<u64>,
}

/// The master layout that the windows show, if they show one: the master
/// window alone in the leftmost column (tiled once, in the top row), a
/// stack column right after it, and positive widths.
pub open spec fn detect_spec(s: Seq<WindowInfo>, workspace_id: u64, master_id: u64) -> Option<ActiveLayoutView> {
    if !master_windows_ok(s, workspace_id, master_id) {
        None
    } else {
        match master_column_spec(s, workspace_id, master_id) {
            None => None,
            Some(master_column) => {
                let columns = column_list(s, workspace_id);
                if !is_min_column(columns, master_column) {
                    None
                } else {
                    match next_column_spec(columns, master_column) {
                        None => None,
                        Some(stack_column) => {
                            let ids = column_ids(s, workspace_id, stack_column);
                            let total = total_width(s, workspace_id);
                            let master_width = column_width(s, workspace_id, master_column);
                            let stack_width = column_width(s, workspace_id, stack_column);
                            if ids.len() == 0 || has_other_in_column(
                                s,
                                workspace_id,
                                master_column,
                                master_id,
                            ) {
                                None
                            } else if total > 0 && master_width > 0 && stack_width > 0 {
                                Some(
                                    ActiveLayoutView {
                                        master_id,
                                        master_width,
                                        stack_width,
                                        total_width: total,
                                        stack_window_ids: ids,
                                    },
                                )
                            } else {
                                None
                            }
                        },
                    }
                }
            },
        }
    }
}

/// The widest tile of one column.
#[derive(Clone, Copy, Debug, PartialEq, Eq)]
pub struct ColumnWidth {
    pub column: usize,
    pub width: i32,
}

/// `table` lists each column of the workspace once, in order of first
/// appearance, with the column's width.
pub open spec fn table_matches(table: Seq<ColumnWidth>, s: Seq<WindowInfo>, workspace_id: u64) -> bool {
    &&& table.map_values(|e: ColumnWidth| e.column) == column_list(s, workspace_id)
    &&& forall|k: int|
        0 <= k < table.len() ==> #[trigger] table[k].width == column_width(
            s,
            workspace_id,
            table[k].column,
        )
}

proof fn lemma_absent_width(s: Seq<WindowInfo>, workspace_id: u64, column: usize)
    requires
        !column_list(s, workspace_id).contains(column),
    ensures
        column_width(s, workspace_id, column) == i32::MIN as int,
    decreases s.len(),
{
    if s.len() > 0 {
        let prev = column_list(s.drop_last(), workspace_id);
        if prev.contains(column) {
            let k = choose|k: int| 0 <= k < prev.len() && prev[k] == column;
            let cl = column_list(s, workspace_id);
            assert(cl[k] == column);
        }
        lemma_absent_width(s.drop_last(), workspace_id, column);
        if is_tiled_in(s.last(), workspace_id) && tiled_column(s.last(), workspace_id) == column {
            assert(column_list(s, workspace_id).last() == column);
        }
    }
}

proof fn lemma_column_list_distinct(s: Seq<WindowInfo>, workspace_id: u64)
    ensures
        column_list(s, workspace_id).no_duplicates(),
    decreases s.len(),
{
    if s.len() > 0 {
        lemma_column_list_distinct(s.drop_last(), workspace_id);
        let prev = column_list(s.drop_last(), workspace_id);
        let cl = column_list(s, workspace_id);
        assert forall|a: int, b: int| 0 <= a < cl.len() && 0 <= b < cl.len() && a != b implies cl[a]
            != cl[b] by {
            if a < prev.len() && b < prev.len() {
            } else if a == prev.len() {
                assert(!prev.contains(cl[a]));
                assert(prev[b] == cl[b]);
            } else {
                assert(!prev.contains(cl[b]));
                assert(prev[a] == cl[a]);
            }
        }
    }
}

proof fn lemma_tiled_column_listed(s: Seq<WindowInfo>, workspace_id: u64, i: int)
    requires
        0 <= i < s.len(),
        is_tiled_in(s[i], workspace_id),
    ensures
        column_list(s, workspace_id).contains(tiled_column(s[i], workspace_id)),
    decreases s.len(),
{
    let prev = column_list(s.drop_last(), workspace_id);
    let c = tiled_column(s[i], workspace_id);
    if i < s.len() - 1 {
        assert(s.drop_last()[i] == s[i]);
        lemma_tiled_column_listed(s.drop_last(), workspace_id, i);
        let k = choose|k: int| 0 <= k < prev.len() && prev[k] == c;
        assert(column_list(s, workspace_id)[k] == c);
    } else if !prev.contains(c) {
        assert(column_list(s, workspace_id).last() == c);
    } else {
        let k = choose|k: int| 0 <= k < prev.len() && prev[k] == c;
        assert(column_list(s, workspace_id)[k] == c);
    }
}

proof fn lemma_master_unchanged(prefix: Seq<WindowInfo>, w: WindowInfo, workspace_id: u64, master_id: u64)
    requires
        master_windows_ok(prefix, workspace_id, master_id),
        !(w.id == master_id && is_tiled_in(w, workspace_id)),
    ensures
        master_windows_ok(prefix.push(w), workspace_id, master_id),
        master_column_spec(prefix.push(w), workspace_id, master_id) == master_column_spec(
            prefix,
            workspace_id,
            master_id,
        ),
{
    let next = prefix.push(w);
    assert forall|a: int| #[trigger] is_master_at(next, workspace_id, master_id, a)
        == is_master_at(prefix, workspace_id, master_id, a) by {
        if 0 <= a < prefix.len() {
            assert(next[a] == prefix[a]);
        }
        if a == prefix.len() {
            assert(next[a] == w);
        }
    }
    if exists|a: int| is_master_at(next, workspace_id, master_id, a) {
        let cn = choose|a: int| is_master_at(next, workspace_id, master_id, a);
        let cp = choose|a: int| is_master_at(prefix, workspace_id, master_id, a);
        assert(is_master_at(prefix, workspace_id, master_id, cn));
        assert(cn == cp);
        assert(next[cn] == prefix[cn]);
        assert(master_column_spec(next, workspace_id, master_id) == Some(
            tiled_column(next[cn], workspace_id),
        ));
        assert(master_column_spec(prefix, workspace_id, master_id) == Some(
            tiled_column(prefix[cp], workspace_id),
        ));
    } else {
        assert forall|a: int| !is_master_at(prefix, workspace_id, master_id, a) by {
            assert(is_master_at(next, workspace_id, master_id, a) == is_master_at(prefix, workspace_id, master_id, a));
        }
    }
}

/// The columns of the workspace with their widths, and the master's column.
/// None when the master is tiled twice or not in the top row.
fn scan_columns(windows: &Vec<WindowInfo>, workspace_id: u64, master_id: u64) -> (r: Option<
    (Vec<ColumnWidth>, Option<usize>),
>)
    ensures
        r is None <==> !master_windows_ok(windows@, workspace_id, master_id),
        r matches Some((table, master_column)) ==> {
            &&& table_matches(table@, windows@, workspace_id)
            &&& master_column == master_column_spec(windows@, workspace_id, master_id)
        },
{
    let ghost s = windows@;
    let mut table: Vec<ColumnWidth> = Vec::new();
    let mut master_column: Option<usize> = None;
    let mut i: usize = 0;
    proof {
        assert(s.take(0) == Seq::<WindowInfo>::empty());
        assert(table@.map_values(|e: ColumnWidth| e.column) =~= Seq::<usize>::empty());
    }
    while i < windows.len()
        invariant
            i <= windows.len(),
            s == windows@,
            table_matches(table@, s.take(i as int), workspace_id),
            master_windows_ok(s.take(i as int), workspace_id, master_id),
            master_column == master_column_spec(s.take(i as int), workspace_id, master_id),
        decreases windows.len() - i,
    {
        let w = windows[i];
        let ghost prefix = s.take(i as int);
        let ghost next = s.take(i + 1);
        proof {
            assert(next == prefix.push(w));
            assert(next.drop_last() == prefix);
            assert forall|j: int| 0 <= j < i implies #[trigger] is_master_at(next, workspace_id, master_id, j)
                == is_master_at(prefix, workspace_id, master_id, j) by {
                assert(next[j] == prefix[j]);
            }
        }
        match tiled_pos(&w, workspace_id) {
            Some((column, row)) => {
                let tile = w.tile_width;
                let ghost old_table = table@;
                let mut k: usize = 0;
                while k < table.len() && table[k].column != column
                    invariant
                        k <= table.len(),
                        table@ == old_table,
                        forall|q: int| 0 <= q < k ==> table@[q].column != column,
                    decreases table.len() - k,
                {
                    k = k + 1;
                }
                proof {
                    assert(old_table.map_values(|e: ColumnWidth| e.column).len() == old_table.len());
                }
                if k < table.len() {
                    let old = table[k];
                    let width = if tile > old.width {
                        tile
                    } else {
                        old.width
                    };
                    table.set(k, ColumnWidth { column, width });
                    proof {
                        let cl = column_list(prefix, workspace_id);
                        lemma_column_list_distinct(prefix, workspace_id);
                        assert(cl[k as int] == column);
                        assert(cl.contains(column));
                        assert(table@.map_values(|e: ColumnWidth| e.column) =~= old_table.map_values(
                            |e: ColumnWidth| e.column,
                        ));
                        assert forall|q: int| 0 <= q < table@.len() implies #[trigger] table@[q].width
                            == column_width(next, workspace_id, table@[q].column) by {
                            assert(old_table[q].width == column_width(prefix, workspace_id, old_table[q].column));
                            if q != k {
                                assert(cl[q] == old_table[q].column);
                                assert(old_table[q].column != column);
                            }
                        }
                    }
                } else {
                    table.push(ColumnWidth { column, width: tile });
                    proof {
                        let cl = column_list(prefix, workspace_id);
                        assert(!cl.contains(column)) by {
                            if cl.contains(column) {
                                let q = choose|q: int| 0 <= q < cl.len() && cl[q] == column;
                                assert(old_table[q].column == column);
                            }
                        }
                        lemma_absent_width(prefix, workspace_id, column);
                        assert(table@.map_values(|e: ColumnWidth| e.column) =~= old_table.map_values(
                            |e: ColumnWidth| e.column,
                        ).push(column));
                        assert forall|q: int| 0 <= q < table@.len() implies #[trigger] table@[q].width
                            == column_width(next, workspace_id, table@[q].column) by {
                            if q < old_table.len() {
                                assert(old_table[q].width == column_width(prefix, workspace_id, old_table[q].column));
                            }
                        }
                    }
                }
                if w.id == master_id {
                    if row != 1 {
                        proof {
                            assert(is_master_at(s, workspace_id, master_id, i as int));
                        }
                        return None;
                    }
                    match master_column {
                        Some(_) => {
                            proof {
                                let j = choose|j: int| is_master_at(prefix, workspace_id, master_id, j);
                                assert(s[j] == prefix[j]);
                                assert(is_master_at(s, workspace_id, master_id, j));
                                assert(is_master_at(s, workspace_id, master_id, i as int));
                            }
                            return None;
                        },
                        None => {
                            master_column = Some(column);
                            proof {
                                assert(is_master_at(next, workspace_id, master_id, i as int));
                                assert forall|a: int| #[trigger] is_master_at(next, workspace_id, master_id, a)
                                    implies a == i by {
                                    if a < i {
                                        assert(is_master_at(prefix, workspace_id, master_id, a));
                                    }
                                }
                                let c = choose|a: int| is_master_at(next, workspace_id, master_id, a);
                                assert(c == i);
                                assert(next[i as int] == w);
                            }
                        },
                    }
                } else {
                    proof {
                        lemma_master_unchanged(prefix, w, workspace_id, master_id);
                    }
                }
            },
            None => {
                proof {
                    lemma_master_unchanged(prefix, w, workspace_id, master_id);
                    assert forall|q: int| 0 <= q < table@.len() implies #[trigger] table@[q].width
                        == column_width(next, workspace_id, table@[q].column) by {
                        assert(table@[q].width == column_width(prefix, workspace_id, table@[q].column));
                    }
                }
            },
        }
        i = i + 1;
    }
    proof {
        assert(s.take(s.len() as int) == s);
    }
    Some((table, master_column))
}

/// The columns named by a table.
pub open spec fn table_columns(table: Seq<ColumnWidth>) -> Seq<usize> {
    table.map_values(|e: ColumnWidth| e.column)
}

/// The leftmost column of a table; none for an empty table.
fn leftmost_column(table: &Vec<ColumnWidth>) -> (r: Option<usize>)
    ensures
        r is None <==> table@.len() == 0,
        r matches Some(c) ==> is_min_column(table_columns(table@), c),
{
    if table.len() == 0 {
        return None;
    }
    let ghost cols = table_columns(table@);
    let mut best = table[0].column;
    let mut i: usize = 1;
    proof {
        assert(cols[0] == table@[0].column);
    }
    while i < table.len()
        invariant
            1 <= i <= table.len(),
            cols == table_columns(table@),
            cols.len() == table@.len(),
            cols.contains(best),
            forall|q: int| 0 <= q < i ==> best <= cols[q],
        decreases table.len() - i,
    {
        proof {
            assert(cols[i as int] == table@[i as int].column);
        }
        if table[i].column < best {
            best = table[i].column;
        }
        i = i + 1;
    }
    Some(best)
}

proof fn lemma_next_column_unique(columns: Seq<usize>, column: usize, a: usize, b: usize)
    requires
        is_next_column(columns, column, a),
        is_next_column(columns, column, b),
    ensures
        a == b,
{
    let i = choose|i: int| 0 <= i < columns.len() && columns[i] == a;
    let j = choose|j: int| 0 <= j < columns.len() && columns[j] == b;
    assert(b <= columns[i]);
    assert(a <= columns[j]);
}

/// The first column of the table right of `column` in column order.
pub fn next_column_after(table: &Vec<ColumnWidth>, column: usize) -> (r: Option<usize>)
    ensures
        r == next_column_spec(table_columns(table@), column),
{
    let ghost cols = table_columns(table@);
    let mut best: Option<usize> = None;
    let mut i: usize = 0;
    while i < table.len()
        invariant
            i <= table.len(),
            cols == table_columns(table@),
            cols.len() == table@.len(),
            best is None <==> forall|q: int| 0 <= q < i ==> cols[q] <= column,
            best matches Some(b) ==> {
                &&& cols.contains(b)
                &&& b > column
                &&& forall|q: int| 0 <= q < i && cols[q] > column ==> b <= cols[q]
            },
        decreases table.len() - i,
    {
        let c = table[i].column;
        if c > column {
            match best {
                None => {
                    best = Some(c);
                },
                Some(b) => {
                    if c < b {
                        best = Some(c);
                    }
                },
            }
        }
        proof {
            assert(cols[i as int] == c);
        }
        i = i + 1;
    }
    proof {
        match best {
            Some(b) => {
                assert(is_next_column(cols, column, b));
                let n = choose|n: usize| is_next_column(cols, column, n);
                lemma_next_column_unique(cols, column, b, n);
            },
            None => {
                if exists|n: usize| is_next_column(cols, column, n) {
                    let n = choose|n: usize| is_next_column(cols, column, n);
                    let q = choose|q: int| 0 <= q < cols.len() && cols[q] == n;
                    assert(cols[q] <= column);
                }
            },
        }
    }
    best
}

/// Ids of the tiled windows of the workspace in `column`, in window order.
pub fn stack_window_ids(windows: &Vec<WindowInfo>, workspace_id: u64, stack_column: usize) -> (r: Vec<u64>)
    ensures
        r@ == column_ids(windows@, workspace_id, stack_column),
{
    let mut r: Vec<u64> = Vec::new();
    let mut i: usize = 0;
    while i < windows.len()
        invariant
            i <= windows.len(),
            r@ == column_ids(windows@.take(i as int), workspace_id, stack_column),
        decreases windows.len() - i,
    {
        let w = windows[i];
        let ghost prefix = windows@.take(i as int);
        proof {
            assert(windows@.take(i + 1) == prefix.push(w));
            assert(prefix.push(w).drop_last() == prefix);
        }
        match tiled_pos(&w, workspace_id) {
            Some((column, _)) => {
                if column == stack_column {
                    r.push(w.id);
                }
            },
            None => {},
        }
        i = i + 1;
    }
    proof {
        assert(windows@.take(windows@.len() as int) == windows@);
    }
    r
}

/// Whether a tiled window of the workspace other than `ignored_id` is in `column`.
pub fn has_other_windows_in_column(
    windows: &Vec<WindowInfo>,
    workspace_id: u64,
    column: usize,
    ignored_id: u64,
) -> (r: bool)
    ensures
        r == has_other_in_column(windows@, workspace_id, column, ignored_id),
{
    let mut i: usize = 0;
    while i < windows.len()
        invariant
            i <= windows.len(),
            forall|q: int|
                0 <= q < i ==> !(windows@[q].id != ignored_id && #[trigger] is_tiled_in(
                    windows@[q],
                    workspace_id,
                ) && tiled_column(windows@[q], workspace_id) == column),
        decreases windows.len() - i,
    {
        let w = windows[i];
        if w.id != ignored_id {
            match tiled_pos(&w, workspace_id) {
                Some((c, _)) => {
                    if c == column {
                        proof {
                            assert(is_tiled_in(windows@[i as int], workspace_id));
                        }
                        return true;
                    }
                },
                None => {},
            }
        }
        i = i + 1;
    }
    false
}

/// Width of `column` in a matching table.
fn width_of(table: &Vec<ColumnWidth>, column: usize, Ghost(s): Ghost<Seq<WindowInfo>>, workspace_id: u64) -> (r: i32)
    requires
        table_matches(table@, s, workspace_id),
        table_columns(table@).contains(column),
    ensures
        r == column_width(s, workspace_id, column),
{
    let ghost cols = table_columns(table@);
    let mut i: usize = 0;
    while i < table.len()
        invariant
            i <= table.len(),
            table_matches(table@, s, workspace_id),
            cols == table_columns(table@),
            cols.len() == table@.len(),
            forall|q: int| 0 <= q < i ==> cols[q] != column,
        decreases table.len() - i,
    {
        if table[i].column == column {
            proof {
                assert(table@[i as int].width == column_width(s, workspace_id, table@[i as int].column));
            }
            return table[i].width;
        }
        proof {
            assert(cols[i as int] == table@[i as int].column);
        }
        i = i + 1;
    }
    proof {
        let q = choose|q: int| 0 <= q < cols.len() && cols[q] == column;
    }
    0
}

/// Sum of the widths in a matching table: the total width of the columns.
fn total_of(table: &Vec<ColumnWidth>, Ghost(s): Ghost<Seq<WindowInfo>>, workspace_id: u64) -> (r: i128)
    requires
        table_matches(table@, s, workspace_id),
    ensures
        r == total_width(s, workspace_id),
        r <= 0x8000_0000 * (table@.len() as int),
{
    let ghost cols = column_list(s, workspace_id);
    let mut sum: i128 = 0;
    let mut i: usize = 0;
    while i < table.len()
        invariant
            i <= table.len(),
            table_matches(table@, s, workspace_id),
            cols == column_list(s, workspace_id),
            cols == table_columns(table@),
            cols.len() == table@.len(),
            sum == sum_widths(s, workspace_id, cols.take(i as int)),
            -0x8000_0000 * (i as int) <= sum <= 0x8000_0000 * (i as int),
        decreases table.len() - i,
    {
        proof {
            assert(cols.take(i + 1).drop_last() == cols.take(i as int));
            assert(cols[i as int] == table@[i as int].column);
            assert(table@[i as int].width == column_width(s, workspace_id, table@[i as int].column));
        }
        sum = sum + table[i].width as i128;
        i = i + 1;
    }
    proof {
        assert(cols.take(cols.len() as int) == cols);
    }
    sum
}

/// An applied master layout, as detected from the windows.
#[derive(Debug)]
pub struct ActiveMasterLayout {
    pub master_id: u64,
    /// Width of the master column (its widest tile).
    pub master_width: i32,
    /// Width of the stack column (its widest tile).
    pub stack_width: i32,
    /// Width of all columns together.
    pub total_width: i128,
    /// The stack column's windows, in window order.
    pub stack_window_ids: Vec<u64>,
}

impl View for ActiveMasterLayout {
    type V = ActiveLayoutView;

    open spec fn view(&self) -> ActiveLayoutView {
        ActiveLayoutView {
            master_id: self.master_id,
            master_width: self.master_width as int,
            stack_width: self.stack_width as int,
            total_width: self.total_width as int,
            stack_window_ids: self.stack_window_ids@,
        }
    }
}

impl ActiveMasterLayout {
    /// The master layout that the windows of the workspace show, if they
    /// show one: the master window tiled once, in the top row, alone in the
    /// leftmost column; a stack column next to it; positive widths.
    pub fn detect(windows: &Vec<WindowInfo>, workspace_id: u64, master_id: u64) -> (r: Option<Self>)
        ensures
            r matches Some(l) ==> detect_spec(windows@, workspace_id, master_id) == Some(l@),
            r matches Some(l) ==> l.total_width < max_total_width(),
            r is None ==> detect_spec(windows@, workspace_id, master_id) is None,
    {
        let ghost s = windows@;
        let (table, master_column) = match scan_columns(windows, workspace_id, master_id) {
            Some(scan) => scan,
            None => return None,
        };
        let master_column = match master_column {
            Some(c) => c,
            None => return None,
        };
        proof {
            let i = choose|i: int| is_master_at(s, workspace_id, master_id, i);
            lemma_tiled_column_listed(s, workspace_id, i);
        }
        let leftmost = match leftmost_column(&table) {
            Some(c) => c,
            None => return None,
        };
        if master_column != leftmost {
            proof {
                let cols = column_list(s, workspace_id);
                if is_min_column(cols, master_column) {
                    let q = choose|q: int| 0 <= q < cols.len() && cols[q] == leftmost;
                    let p = choose|p: int| 0 <= p < cols.len() && cols[p] == master_column;
                    assert(master_column <= cols[q]);
                    assert(leftmost <= cols[p]);
                }
            }
            return None;
        }
        let stack_column = match next_column_after(&table, master_column) {
            Some(c) => c,
            None => return None,
        };
        let ids = stack_window_ids(windows, workspace_id, stack_column);
        if ids.len() == 0 || has_other_windows_in_column(windows, workspace_id, master_column, master_id) {
            return None;
        }
        proof {
            let cols = column_list(s, workspace_id);
            assert(is_next_column(cols, master_column, stack_column));
        }
        let total = total_of(&table, Ghost(s), workspace_id);
        let master_width = width_of(&table, master_column, Ghost(s), workspace_id);
        let stack_width = width_of(&table, stack_column, Ghost(s), workspace_id);
        if total > 0 && master_width > 0 && stack_width > 0 {
            Some(ActiveMasterLayout {
                master_id,
                master_width,
                stack_width,
                total_width: total,
                stack_window_ids: ids,
            })
        } else {
            None
        }
    }
}

/// Bound on the total width of a detected layout (2^96): a sum of at most
/// 2^64 column widths, each below 2^31.
pub open spec fn max_total_width() -> int {
    0x1_0000_0000_0000_0000_0000_0000
}

/// The new widths after a resize, in percent.
#[derive(Clone, Copy, Debug, PartialEq, Eq)]
pub struct ResizePlan {
    pub master_width_percent: u32,
    pub stack_width_percent: u32,
    /// Whether the master window is resized before the stack windows.
    pub focus_master_first: bool,
}

/// `10 * width / total` rounded to the nearest integer, halves up.
pub open spec fn rounded_tenths(width: int, total: int) -> int {
    (20 * width + total) / (2 * total)
}

/// A percentage kept within 10..=90.
pub open spec fn clamp_percent(p: int) -> int {
    if p < 10 {
        10
    } else if p > 90 {
        90
    } else {
        p
    }
}

/// A column's share of the total width in percent, rounded to a multiple
/// of ten (halves up), made one step of ten smaller, kept within 10..=90.
pub open spec fn shrunk_percent(width: int, total: int) -> int {
    clamp_percent(10 * rounded_tenths(width, total) - 10)
}

/// The new widths: growing the master shrinks the stack by a step and
/// gives the master the rest of 100%; shrinking the master does the
/// converse and resizes the master first.
pub open spec fn resize_plan_spec(layout: ActiveLayoutView, direction: ResizeDirection) -> ResizePlan {
    match direction {
        ResizeDirection::GrowMaster => {
            let stack = shrunk_percent(layout.stack_width, layout.total_width);
            ResizePlan {
                master_width_percent: (100 - stack) as u32,
                stack_width_percent: stack as u32,
                focus_master_first: false,
            }
        },
        ResizeDirection::ShrinkMaster => {
            let master = shrunk_percent(layout.master_width, layout.total_width);
            ResizePlan {
                master_width_percent: master as u32,
                stack_width_percent: (100 - master) as u32,
                focus_master_first: true,
            }
        },
    }
}

/// A column's share of the total width in percent, rounded to a multiple
/// of ten (halves up), made one step of ten smaller, kept within 10..=90.
pub fn shrink_column_width_percent(width: i32, total: i128) -> (r: u32)
    requires
        width > 0,
        0 < total < max_total_width(),
    ensures
        r == shrunk_percent(width as int, total as int),
        10 <= r <= 90,
{
    let numerator: i128 = 20 * (width as i128) + total;
    let denominator: i128 = 2 * total;
    let tenths: i128 = numerator / denominator;
    proof {
        assert(0 <= tenths <= numerator) by (nonlinear_arith)
            requires
                numerator > 0,
                denominator >= 2,
                tenths == numerator / denominator,
        ;
    }
    let step: i128 = 10 * tenths - 10;
    if step < 10 {
        10
    } else if step > 90 {
        90
    } else {
        step as u32
    }
}

impl ActiveMasterLayout {
    /// The new widths for a resize in `direction`.
    pub fn resize_plan(&self, direction: ResizeDirection) -> (r: ResizePlan)
        requires
            self.master_width > 0,
            self.stack_width > 0,
            0 < self.total_width < max_total_width(),
        ensures
            r == resize_plan_spec(self@, direction),
    {
        match direction {
            ResizeDirection::GrowMaster => {
                let stack = shrink_column_width_percent(self.stack_width, self.total_width);
                ResizePlan {
                    master_width_percent: 100 - stack,
                    stack_width_percent: stack,
                    focus_master_first: false,
                }
            },
            ResizeDirection::ShrinkMaster => {
                let master = shrink_column_width_percent(self.master_width, self.total_width);
                ResizePlan {
                    master_width_percent: master,
                    stack_width_percent: 100 - master,
                    focus_master_first: true,
                }
            },
        }
    }
}

/// The actions of a resize: the master is focused and given its width, and
/// the stack windows theirs, master first when shrinking it.
pub open spec fn resize_actions_spec(layout: ActiveLayoutView, direction: ResizeDirection) -> Seq<Action> {
    let plan = resize_plan_spec(layout, direction);
    let master = focus_with_width_spec(layout.master_id, plan.master_width_percent);
    let stack = widths_for(layout.stack_window_ids, plan.stack_width_percent);
    if plan.focus_master_first {
        master + stack
    } else {
        stack + master
    }
}

/// The actions of a resize of the detected layout, if the windows show one.
pub open spec fn resize_spec(s: Seq<WindowInfo>, workspace_id: u64, master_id: u64, direction: ResizeDirection) -> Option<Seq<Action>> {
    match detect_spec(s, workspace_id, master_id) {
        Some(layout) => Some(resize_actions_spec(layout, direction)),
        None => None,
    }
}

/// The actions that resize the master layout shown by the windows of
/// `workspace_id` (with `master_id` as master); none when they show none.
pub fn resize(windows: &Vec<WindowInfo>, workspace_id: u64, master_id: u64, direction: ResizeDirection) -> (r: Option<Vec<Action>>)
    ensures
        r matches Some(actions) ==> resize_spec(windows@, workspace_id, master_id, direction) == Some(actions@),
        r is None ==> resize_spec(windows@, workspace_id, master_id, direction) is None,
{
    let layout = match ActiveMasterLayout::detect(windows, workspace_id, master_id) {
        Some(l) => l,
        None => return None,
    };
    let plan = layout.resize_plan(direction);
    let mut master = focus_with_width(layout.master_id, plan.master_width_percent);
    let mut stack = set_width_percent_for_windows(&layout.stack_window_ids, plan.stack_width_percent);
    if plan.focus_master_first {
        master.append(&mut stack);
        Some(master)
    } else {
        stack.append(&mut master);
        Some(stack)
    }
}

} // verus!
