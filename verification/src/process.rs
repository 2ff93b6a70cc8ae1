//! The process record shown by the table, and the stringified form of each
//! of its columns.
//!
//! A record carries plain values only: the snapshot provider turns what the
//! system reports into these fields before the library sees them. CPU load
//! is carried in tenths of a percent so that sorting, filtering and display
//! all work on integers.

use vstd::prelude::*;
use crate::text::{dec_str, u64_to_string};

verus! {

/// One cycle's immutable reading of a single process.
pub struct ProcessRecord {
    pub pid: u64,
    pub name: String,
    /// CPU load in tenths of a percent (`123` renders as `12.3`).
    pub cpu_tenths: u64,
    pub memory_kb: u64,
    pub run_time_s: u64,
}

/// The stringified value of one column of a record: the text the table
/// displays and the filter matches against. Any column index outside the
/// named columns falls back to the PID, as the dispatch on the selected
/// column always has.
pub open spec fn col_text_spec(rec: ProcessRecord, col: int) -> Seq<char> {
    if col == 1 {
        rec.name@
    } else if col == 2 {
        dec_str(rec.cpu_tenths as int / 10) + seq!['.'] + dec_str(rec.cpu_tenths as int % 10)
    } else if col == 3 {
        dec_str(rec.memory_kb as int)
    } else if col == 4 {
        dec_str(rec.run_time_s as int)
    } else {
        dec_str(rec.pid as int)
    }
}

/// Renders the value of one column of a record.
pub fn col_text(rec: &ProcessRecord, col: usize) -> (s: String)
    ensures
        s@ == col_text_spec(*rec, col as int),
{
    if col == 1 {
        rec.name.clone()
    } else if col == 2 {
        let mut s = u64_to_string(rec.cpu_tenths / 10);
        let frac = u64_to_string(rec.cpu_tenths % 10);
        s.append(".");
        s.append(frac.as_str());
        proof {
            reveal_strlit(".");
            assert("."@ =~= seq!['.']);
            assert(s@ =~= col_text_spec(*rec, col as int));
        }
        s
    } else if col == 3 {
        u64_to_string(rec.memory_kb)
    } else if col == 4 {
        u64_to_string(rec.run_time_s)
    } else {
        u64_to_string(rec.pid)
    }
}

/// The title of one column header. Any index outside the named columns
/// falls back to the PID title.
pub open spec fn header_title_spec(col: int) -> Seq<char> {
    if col == 1 {
        "Name"@
    } else if col == 2 {
        "CPU (%)"@
    } else if col == 3 {
        "Memory (KB)"@
    } else if col == 4 {
        "Run time (s)"@
    } else {
        "PID"@
    }
}

/// Returns the title of one column header.
pub fn header_title(col: usize) -> (s: &'static str)
    ensures
        s@ == header_title_spec(col as int),
{
    if col == 1 {
        "Name"
    } else if col == 2 {
        "CPU (%)"
    } else if col == 3 {
        "Memory (KB)"
    } else if col == 4 {
        "Run time (s)"
    } else {
        "PID"
    }
}

} // verus!
