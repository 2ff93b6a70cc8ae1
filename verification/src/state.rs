//! Core state of the dashboard: the interaction mode, the view settings for
//! the process table, and the last-observed terminal dimensions.

use vstd::prelude::*;

verus! {

/// Last-observed terminal size, compared each cycle to detect a resize.
#[derive(Clone, Copy, PartialEq, Eq, Structural, Debug)]
pub struct Dimensions {
    pub width: u16,
    pub height: u16,
}

/// The exclusive interaction state governing key-event routing.
#[allow(non_camel_case_types)]
#[derive(Clone, Copy, PartialEq, Eq, Structural, Debug)]
pub enum Mode {
    PRINT,
    INPUT,
    EXIT,
    NAVIGATE,
    SEARCH,
}

/// Direction of the process-table sort for the selected column.
///
/// The names bind to the natural order of the column's values:
/// `Ascending` shows the smallest key first, `Descending` the largest.
/// The governing law, proved as `table::lemma_direction_flip_reverses`,
/// is that flipping the direction inverts the complete displayed order —
/// ties included, so the two directions are exact mirror images and no
/// other reading of the labels is compatible with it.
#[derive(Clone, Copy, PartialEq, Eq, Structural, Debug)]
pub enum SortDirection {
    Ascending,
    Descending,
}

/// What the process table shows: the column used as sort and filter key,
/// the sort direction, and the committed filter text (empty means no
/// filter).
pub struct ViewState {
    pub selected_column: usize,
    pub sort_direction: SortDirection,
    pub filter_text: String,
}

impl ViewState {
    /// The selected column always names one of the table's columns.
    pub open spec fn wf(&self) -> bool {
        self.selected_column < crate::COLUMN_COUNT
    }
}

/// Updates the remembered terminal size and reports whether it changed.
///
/// The caller clears the whole screen exactly when this returns `true`, so a
/// resize triggers one full redraw and an unchanged terminal none.
pub fn dimensions_changed(previous: &mut Dimensions, current: Dimensions) -> (changed: bool)
    ensures
        changed == (current != *old(previous)),
        *final(previous) == current,
{
    let changed = current.width != previous.width || current.height != previous.height;
    previous.width = current.width;
    previous.height = current.height;
    changed
}

} // verus!
