//! Tests for the column grid, the cell text pipeline, the header cells,
//! the gauges, and resize detection.

use procdash::gauge::{gauge_layout, next_row_after_header};
use procdash::layout::{column_widths, format_selected_header_text, layout_cell};
use procdash::process::{col_text, ProcessRecord};
use procdash::state::{dimensions_changed, Dimensions, SortDirection};
use procdash::table::TableError;
use procdash::text::{strip_closing_quotes, truncate_text};

fn rec(pid: u64, name: &str, cpu_tenths: u64, memory_kb: u64, run_time_s: u64) -> ProcessRecord {
    ProcessRecord { pid, name: name.to_string(), cpu_tenths, memory_kb, run_time_s }
}

#[test]
fn column_widths_sum_to_terminal_width() {
    // the last column absorbs the division remainder
    for width in [40u16, 41, 79, 80, 83, 120, 1000] {
        let ws = column_widths(width);
        assert_eq!(ws.len(), 5);
        let sum: u32 = ws.iter().map(|&w| w as u32).sum();
        assert_eq!(sum, width as u32, "widths must sum to the terminal width");
        for &w in &ws[..4] {
            assert_eq!(w, width / 5);
        }
    }
    assert_eq!(column_widths(83), vec![16, 16, 16, 16, 19]);
}

#[test]
fn resize_triggers_exactly_one_clear() {
    // a resize from 80x24 to 120x40 asks for exactly one full clear
    let mut prev = Dimensions { width: 80, height: 24 };
    let resized = Dimensions { width: 120, height: 40 };
    assert!(dimensions_changed(&mut prev, resized));
    assert_eq!(prev, resized);
    assert!(!dimensions_changed(&mut prev, resized), "the second cycle sees no change");
    assert!(!dimensions_changed(&mut prev, resized));
}

#[test]
fn truncation_cuts_to_budget_with_ellipsis() {
    assert_eq!(truncate_text("hello world".to_string(), 8), "hello...");
    assert_eq!(truncate_text("short".to_string(), 10), "short");
    assert_eq!(truncate_text("equal".to_string(), 5), "eq...");
    // a budget too small for the ellipsis leaves the text unchanged
    assert_eq!(truncate_text("ab".to_string(), 2), "ab");
}

#[test]
fn quote_stripping() {
    assert_eq!(strip_closing_quotes("\"firefox\""), "firefox");
    assert_eq!(strip_closing_quotes("firefox"), "firefox");
    assert_eq!(strip_closing_quotes("\""), "");
    assert_eq!(strip_closing_quotes("a\""), "a");
}

#[test]
fn column_text_stringifies_each_field() {
    let r = rec(4321, "bash", 123, 2048, 77);
    assert_eq!(col_text(&r, 0), "4321");
    assert_eq!(col_text(&r, 1), "bash");
    assert_eq!(col_text(&r, 2), "12.3");
    assert_eq!(col_text(&r, 3), "2048");
    assert_eq!(col_text(&r, 4), "77");
    let zero = rec(0, "", 5, 0, 0);
    assert_eq!(col_text(&zero, 0), "0");
    assert_eq!(col_text(&zero, 2), "0.5");
}

#[test]
fn cell_layout_pads_to_column_width() {
    // width 80: col_width 16; "bash" keeps its text, padding fills the rest
    let c = layout_cell("bash".to_string(), 1, 16, 80);
    assert_eq!(c.text, "bash");
    // border + space + text + padding == col_width + 1 (the next border overlaps)
    assert_eq!(1 + 1 + 4 + c.padding as usize, 17);
}

#[test]
fn cell_layout_truncates_long_text() {
    let c = layout_cell("a-very-long-process-name".to_string(), 1, 16, 80);
    assert_eq!(c.text, "a-very-lo...");
    assert_eq!(c.text.chars().count(), 12);
    assert_eq!(c.padding, 3);
}

#[test]
fn last_cell_pads_to_terminal_edge() {
    // width 83: col_width 16, last column starts at 64 and ends at 82
    let c = layout_cell("77".to_string(), 4, 16, 83);
    assert_eq!(c.text, "77");
    assert_eq!(c.padding as u32, 83 - 64 - 3 - 1);
}

#[test]
fn header_cells_mark_the_selected_column() {
    assert_eq!(
        format_selected_header_text(0, false, SortDirection::Ascending, 16, 80),
        "PID"
    );
    let selected = format_selected_header_text(0, true, SortDirection::Ascending, 16, 80);
    // "PID", padding to the column edge, then the ascending glyph
    assert_eq!(selected, "PID         \u{2193}");
    let desc = format_selected_header_text(0, true, SortDirection::Descending, 16, 80);
    assert_eq!(desc, "PID         \u{2191}");
}

#[test]
fn selected_header_truncates_in_narrow_columns() {
    // width 40: col_width 8; "Run time (s)" must shrink to fit its column
    let s = format_selected_header_text(4, true, SortDirection::Ascending, 8, 40);
    assert!(s.chars().count() <= 8);
    assert!(s.ends_with('\u{2193}'));
}

#[test]
fn gauge_is_seven_tenths_of_the_width() {
    // width 80, label 20 columns, half used: bar 56 wide, 28 of the 54
    // inner positions filled
    let g = gauge_layout(80, 20, 50, 100).unwrap();
    assert_eq!(g.bar_width, 56);
    assert_eq!(g.padding, 80 - 56 - 20);
    assert_eq!(g.filled, 28);
}

#[test]
fn gauge_extremes() {
    let empty = gauge_layout(80, 4, 0, 100).unwrap();
    assert_eq!(empty.filled, 0);
    let full = gauge_layout(80, 4, 100, 100).unwrap();
    assert_eq!(full.filled, 54, "a full gauge fills every inner position");
}

#[test]
fn gauge_rejects_labels_that_do_not_fit() {
    let err = gauge_layout(40, 20, 1, 2).unwrap_err();
    assert_eq!(err, TableError::TerminalTooSmall);
}

fn spaces(s: &str) -> usize {
    s.chars().filter(|&c| c == ' ').count()
}

#[test]
fn styling_preserves_the_laid_out_text() {
    let c = layout_cell("bash".to_string(), 1, 16, 80);
    let plain = procdash::style::styled_cell_text(&c, false);
    assert!(plain.contains(" bash"));
    // border space + leading space + the computed padding; "bash" has none
    assert_eq!(spaces(&plain), 2 + c.padding as usize);
    let highlighted = procdash::style::styled_cell_text(&c, true);
    assert!(highlighted.contains("bash"));
    assert_eq!(spaces(&highlighted), 2 + c.padding as usize);
    assert_eq!(procdash::style::format_selected_color("abc", false), "abc");
    assert_eq!(spaces(&procdash::style::styled_border_cell()), 1);
}

#[test]
fn separator_row_is_one_space_per_column() {
    assert_eq!(spaces(&procdash::style::styled_separator_row(5)), 5);
    assert_eq!(spaces(&procdash::style::styled_separator_row(0)), 0);
}

#[test]
fn gauge_bar_is_brackets_around_its_positions() {
    let g = gauge_layout(80, 20, 50, 100).unwrap();
    let bar = procdash::style::styled_gauge_bar(&g);
    assert!(bar.starts_with('['));
    assert!(bar.ends_with(']'));
    assert_eq!(bar.chars().filter(|&ch| ch == '|').count(), 54);
}

#[test]
fn header_height_counts_gpu_rows() {
    assert_eq!(next_row_after_header(0, 0), 2);
    assert_eq!(next_row_after_header(0, 2), 4);
    assert_eq!(next_row_after_header(3, 1), 6);
}
