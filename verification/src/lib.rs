//! A verified core for a full-screen terminal process dashboard.
//!
//! The library holds the interactive logic of the dashboard: the mode state
//! machine that routes key events, the line editor used for command and
//! search entry, the sorted/filtered process-table engine with its fixed
//! column layout, the resource-usage gauge arithmetic, and terminal-resize
//! detection. Terminal I/O, the process snapshot provider, and GPU telemetry
//! stay outside; they hand the library plain values and print what it
//! computes.

pub mod state;
pub mod text;
pub mod process;
pub mod matching;
pub mod order;
pub mod table;
pub mod layout;
pub mod editor;
pub mod machine;
pub mod gauge;
pub mod style;

use vstd::prelude::*;

verus! {

/// Number of columns in the process table: PID, Name, CPU, Memory, Run time.
pub const COLUMN_COUNT: usize = 5;

} // verus!
