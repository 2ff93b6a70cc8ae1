//! Tests for the process-table engine: sorting, direction, filtering,
//! pagination, and the errors the engine reports.

use procdash::process::ProcessRecord;
use procdash::state::{Dimensions, SortDirection, ViewState};
use procdash::table::{build_table, select_rows, TableError};

fn rec(pid: u64, name: &str, cpu_tenths: u64, memory_kb: u64, run_time_s: u64) -> ProcessRecord {
    ProcessRecord { pid, name: name.to_string(), cpu_tenths, memory_kb, run_time_s }
}

fn view(col: usize, dir: SortDirection, filter: &str) -> ViewState {
    ViewState { selected_column: col, sort_direction: dir, filter_text: filter.to_string() }
}

fn pids_in_order(snapshot: &[ProcessRecord], rows: &[usize]) -> Vec<u64> {
    rows.iter().map(|&i| snapshot[i].pid).collect()
}

#[test]
fn pid_sort_descending_scenario() {
    // three processes with PIDs 100, 50, 75 sorted by PID descending
    let snapshot = vec![rec(100, "a", 0, 0, 0), rec(50, "b", 0, 0, 0), rec(75, "c", 0, 0, 0)];
    let v = view(0, SortDirection::Descending, "");
    let rows = select_rows(&snapshot, &v).expect("no filter, no error");
    assert_eq!(pids_in_order(&snapshot, &rows), vec![100, 75, 50]);
}

#[test]
fn pid_sort_ascending_scenario() {
    let snapshot = vec![rec(100, "a", 0, 0, 0), rec(50, "b", 0, 0, 0), rec(75, "c", 0, 0, 0)];
    let v = view(0, SortDirection::Ascending, "");
    let rows = select_rows(&snapshot, &v).expect("no filter, no error");
    assert_eq!(pids_in_order(&snapshot, &rows), vec![50, 75, 100]);
}

#[test]
fn direction_flip_reverses_exactly() {
    // flipping the direction inverts the complete displayed order, ties included
    let snapshot = vec![
        rec(1, "a", 30, 0, 0),
        rec(2, "b", 10, 0, 0),
        rec(3, "c", 30, 0, 0),
        rec(4, "d", 20, 0, 0),
    ];
    let asc = select_rows(&snapshot, &view(2, SortDirection::Ascending, "")).unwrap();
    let desc = select_rows(&snapshot, &view(2, SortDirection::Descending, "")).unwrap();
    let mut reversed = asc.clone();
    reversed.reverse();
    assert_eq!(desc, reversed);
}

#[test]
fn ties_keep_snapshot_order_ascending() {
    // stable sort: equal keys stay in snapshot order under the ascending
    // direction
    let snapshot = vec![rec(9, "x", 5, 0, 0), rec(7, "y", 5, 0, 0), rec(8, "z", 5, 0, 0)];
    let asc = select_rows(&snapshot, &view(2, SortDirection::Ascending, "")).unwrap();
    assert_eq!(pids_in_order(&snapshot, &asc), vec![9, 7, 8]);
}

#[test]
fn name_sort_is_by_code_point() {
    let snapshot = vec![
        rec(1, "beta", 0, 0, 0),
        rec(2, "Alpha", 0, 0, 0),
        rec(3, "alpha", 0, 0, 0),
    ];
    let asc = select_rows(&snapshot, &view(1, SortDirection::Ascending, "")).unwrap();
    // upper-case letters sort before lower-case ones
    assert_eq!(pids_in_order(&snapshot, &asc), vec![2, 3, 1]);
}

#[test]
fn memory_and_runtime_sorts() {
    let snapshot = vec![rec(1, "a", 0, 300, 5), rec(2, "b", 0, 100, 9), rec(3, "c", 0, 200, 1)];
    let by_mem = select_rows(&snapshot, &view(3, SortDirection::Ascending, "")).unwrap();
    assert_eq!(pids_in_order(&snapshot, &by_mem), vec![2, 3, 1]);
    let by_time = select_rows(&snapshot, &view(4, SortDirection::Ascending, "")).unwrap();
    assert_eq!(pids_in_order(&snapshot, &by_time), vec![3, 1, 2]);
}

#[test]
fn filter_matches_substring_of_name() {
    let snapshot = vec![
        rec(1, "chrome", 0, 0, 0),
        rec(2, "bash", 0, 0, 0),
        rec(3, "chromium", 0, 0, 0),
    ];
    let rows = select_rows(&snapshot, &view(1, SortDirection::Ascending, "chrom")).unwrap();
    assert_eq!(pids_in_order(&snapshot, &rows), vec![1, 3]);
}

#[test]
fn filter_is_a_regex_on_the_selected_column() {
    // "^7" must match the stringified PID 75 only; a wrapper that ignored
    // its arguments could not produce this
    let snapshot = vec![rec(100, "a", 0, 0, 0), rec(50, "b", 0, 0, 0), rec(75, "c", 0, 0, 0)];
    let rows = select_rows(&snapshot, &view(0, SortDirection::Ascending, "^7")).unwrap();
    assert_eq!(pids_in_order(&snapshot, &rows), vec![75]);
}

#[test]
fn filter_is_case_sensitive() {
    let snapshot = vec![rec(1, "Chrome", 0, 0, 0), rec(2, "chrome", 0, 0, 0)];
    let rows = select_rows(&snapshot, &view(1, SortDirection::Ascending, "Chr")).unwrap();
    assert_eq!(pids_in_order(&snapshot, &rows), vec![1]);
}

#[test]
fn unmatched_filter_yields_zero_rows() {
    // a regex that matches nothing empties the table without an error
    let snapshot = vec![rec(1, "chrome", 0, 0, 0), rec(2, "bash", 0, 0, 0)];
    let rows = select_rows(&snapshot, &view(1, SortDirection::Ascending, "no such name")).unwrap();
    assert!(rows.is_empty());
}

#[test]
fn invalid_filter_is_reported() {
    let snapshot = vec![rec(1, "chrome", 0, 0, 0)];
    let err = select_rows(&snapshot, &view(1, SortDirection::Ascending, "(")).unwrap_err();
    assert_eq!(err, TableError::InvalidFilter);
}

#[test]
fn cpu_filter_sees_fixed_point_text() {
    // cpu_tenths 123 is stringified as "12.3" for filtering and display
    let snapshot = vec![rec(1, "a", 123, 0, 0), rec(2, "b", 45, 0, 0)];
    let rows = select_rows(&snapshot, &view(2, SortDirection::Ascending, "12\\.3")).unwrap();
    assert_eq!(pids_in_order(&snapshot, &rows), vec![1]);
}

#[test]
fn build_table_populates_up_to_capacity() {
    // height 24, table starting at row 0: capacity = 24 - 2 - 4 = 18 rows
    let snapshot: Vec<ProcessRecord> =
        (0..30).map(|i| rec(i as u64, "p", 0, 0, 0)).collect();
    let dims = Dimensions { width: 80, height: 24 };
    let t = build_table(&snapshot, &view(0, SortDirection::Ascending, ""), dims, 0).unwrap();
    assert_eq!(t.layout.capacity, 18);
    assert_eq!(t.populated, 18);
    assert_eq!(t.rows.len(), 18);
}

#[test]
fn build_table_with_few_processes_populates_all() {
    let snapshot = vec![rec(1, "a", 0, 0, 0), rec(2, "b", 0, 0, 0)];
    let dims = Dimensions { width: 80, height: 24 };
    let t = build_table(&snapshot, &view(0, SortDirection::Ascending, ""), dims, 0).unwrap();
    assert_eq!(t.populated, 2);
    assert_eq!(t.rows.len(), 2);
}

#[test]
fn build_table_rejects_small_terminal() {
    let snapshot = vec![rec(1, "a", 0, 0, 0)];
    let narrow = Dimensions { width: 39, height: 24 };
    let err = build_table(&snapshot, &view(0, SortDirection::Ascending, ""), narrow, 0)
        .unwrap_err();
    assert_eq!(err, TableError::TerminalTooSmall);
    let short = Dimensions { width: 80, height: 5 };
    let err = build_table(&snapshot, &view(0, SortDirection::Ascending, ""), short, 0)
        .unwrap_err();
    assert_eq!(err, TableError::TerminalTooSmall);
}

#[test]
fn build_table_layout_rows() {
    let snapshot = vec![rec(1, "a", 0, 0, 0)];
    let dims = Dimensions { width: 80, height: 24 };
    let t = build_table(&snapshot, &view(0, SortDirection::Ascending, ""), dims, 3).unwrap();
    assert_eq!(t.layout.top_border_row, 4);
    assert_eq!(t.layout.header_row, 5);
    assert_eq!(t.layout.header_separator_row, 6);
    assert_eq!(t.layout.first_data_row, 7);
    assert_eq!(t.layout.bottom_border_row, 22);
    assert_eq!(t.layout.capacity, 24 - 5 - 4);
    assert_eq!(t.layout.col_width, 16);
}
