//! The fixed column grid of the process table: column widths, the rows the
//! table occupies on screen, cell text with truncation and padding, and the
//! header cells with their sort-direction glyph.

use vstd::prelude::*;
use crate::process::{header_title, header_title_spec};
use crate::state::{Dimensions, SortDirection};
use crate::table::TableError;
use crate::text::{strip_closing_quotes, stripped, truncate_text, truncated};

verus! {

/// The narrowest terminal the table layout supports: five columns of at
/// least eight characters, so every truncation budget stays meaningful.
pub const MIN_TABLE_WIDTH: u16 = 40;

/// The sum of a sequence of column widths.
pub open spec fn width_sum(ws: Seq<u16>) -> int {
    width_sum_upto(ws, ws.len() as int)
}

pub open spec fn width_sum_upto(ws: Seq<u16>, k: int) -> int
    decreases k,
{
    if k <= 0 {
        0
    } else {
        width_sum_upto(ws, k - 1) + ws[k - 1]
    }
}

/// Divides the terminal width evenly over the five columns; the last
/// column absorbs the integer-division remainder, so the widths always sum
/// to exactly the terminal width.
pub fn column_widths(width: u16) -> (ws: Vec<u16>)
    ensures
        ws@.len() == 5,
        forall|i: int| 0 <= i < 4 ==> #[trigger] ws@[i] == width as int / 5,
        ws@[4] == width as int - 4 * (width as int / 5),
        width_sum(ws@) == width,
{
    let cw = width / 5;
    let mut ws: Vec<u16> = Vec::new();
    ws.push(cw);
    ws.push(cw);
    ws.push(cw);
    ws.push(cw);
    ws.push(width - 4 * cw);
    proof {
        assert(width_sum_upto(ws@, 0) == 0);
        assert(width_sum_upto(ws@, 1) == cw);
        assert(width_sum_upto(ws@, 2) == 2 * (cw as int));
        assert(width_sum_upto(ws@, 3) == 3 * (cw as int));
        assert(width_sum_upto(ws@, 4) == 4 * (cw as int));
        assert(width_sum_upto(ws@, 5) == width);
    }
    ws
}

/// Where the table sits on screen and how many data rows fit.
#[derive(Debug)]
pub struct TableLayout {
    /// The full-width border above the header.
    pub top_border_row: u16,
    /// The row holding the column titles.
    pub header_row: u16,
    /// The full-width border below the header.
    pub header_separator_row: u16,
    /// The first row that shows a process.
    pub first_data_row: u16,
    /// The full-width border that anchors the bottom of the table.
    pub bottom_border_row: u16,
    /// How many data rows the table renders each cycle; rows without a
    /// matching process are rendered blank so the bottom border stays put.
    pub capacity: u16,
    /// The width of each of the first four columns.
    pub col_width: u16,
}

/// Computes the fixed rows of the table for this cycle's terminal size.
/// Fails exactly when the terminal is too narrow for the five columns or
/// too short for the header rows and margins — the arithmetic below would
/// otherwise underflow.
pub fn table_layout(dims: Dimensions, start_row: u16) -> (r: Result<TableLayout, TableError>)
    ensures
        r is Ok <==> (dims.width >= MIN_TABLE_WIDTH && dims.height as int >= start_row as int
            + 6),
        r is Err ==> r->Err_0 == TableError::TerminalTooSmall,
        r is Ok ==> {
            let l = r->Ok_0;
            &&& l.top_border_row == start_row as int + 1
            &&& l.header_row == start_row as int + 2
            &&& l.header_separator_row == start_row as int + 3
            &&& l.first_data_row == start_row as int + 4
            &&& l.bottom_border_row == dims.height as int - 2
            &&& l.capacity == dims.height as int - (start_row as int + 2) - 4
            &&& l.col_width == dims.width as int / 5
        },
{
    if dims.width < MIN_TABLE_WIDTH {
        return Err(TableError::TerminalTooSmall);
    }
    if (dims.height as u32) < (start_row as u32) + 6 {
        return Err(TableError::TerminalTooSmall);
    }
    let header_row = start_row + 2;
    Ok(
        TableLayout {
            top_border_row: start_row + 1,
            header_row,
            header_separator_row: start_row + 3,
            first_data_row: start_row + 4,
            bottom_border_row: dims.height - 2,
            capacity: dims.height - header_row - 4,
            col_width: dims.width / 5,
        },
    )
}

/// One laid-out cell: the text that survives quote stripping and
/// truncation, and the blank padding printed after it. Every cell is
/// preceded by a one-character border column and one space, which the
/// padding accounts for.
pub struct CellLayout {
    pub text: String,
    pub padding: u16,
}

/// The text a cell keeps: quote-stripped, and truncated with an ellipsis
/// when the separator, the space and the text would not fit the column.
pub open spec fn cell_kept_text(raw: Seq<char>, col_width: int) -> Seq<char> {
    let st = stripped(raw);
    if st.len() + 1 > col_width - 1 {
        truncated(st, col_width - 4)
    } else {
        st
    }
}

/// The blank padding after a cell's text. The last column pads to the
/// right edge of the terminal instead of to its own width, absorbing the
/// division remainder.
pub open spec fn cell_padding(kept_len: int, col_index: int, col_width: int, width: int) -> int {
    if col_index == 4 {
        width - col_width * col_index - (kept_len + 1) - 1
    } else {
        col_width - (kept_len + 1)
    }
}

/// Lays out one cell of a table row.
pub fn layout_cell(raw: String, col_index: usize, col_width: u16, width: u16) -> (c: CellLayout)
    requires
        col_index < 5,
        col_width == width as int / 5,
        col_width >= 8,
    ensures
        c.text@ == cell_kept_text(raw@, col_width as int),
        c.padding == cell_padding(
            c.text@.len() as int,
            col_index as int,
            col_width as int,
            width as int,
        ),
{
    let mut text = strip_closing_quotes(raw.as_str());
    let len = text.as_str().unicode_len();
    if len >= (col_width - 1) as usize {
        text = truncate_text(text, col_width - 4);
    }
    let kept = text.as_str().unicode_len();
    proof {
        assert(5 * (width as int / 5) <= width as int) by (nonlinear_arith);
        assert(text@.len() <= col_width - 2);
    }
    let padding: u16 = if col_index == 4 {
        width - col_width * 4 - (kept as u16 + 1) - 1
    } else {
        col_width - (kept as u16 + 1)
    };
    CellLayout { text, padding }
}

/// The text of one header cell. An unselected column shows its bare title.
/// The selected column's title is truncated to leave room for the sort
/// glyph, padded, and given the glyph for the current direction. The
/// padding saturates at zero so a narrow column still renders instead of
/// underflowing.
pub open spec fn header_cell_text(
    title: Seq<char>,
    selected: bool,
    dir: SortDirection,
    col_index: int,
    col_width: int,
    width: int,
) -> Seq<char> {
    if !selected {
        title
    } else {
        let t = if title.len() + 1 > col_width - 1 {
            truncated(title, col_width - 5)
        } else {
            title
        };
        let ws = cell_padding(t.len() as int, col_index, col_width, width);
        let pad = if ws >= 3 {
            ws - 3
        } else {
            0
        };
        let glyph = if dir == SortDirection::Ascending {
            '↓'
        } else {
            '↑'
        };
        t + Seq::new(pad as nat, |k: int| ' ') + seq![glyph]
    }
}

/// Formats the header cell of one column, marking the selected column with
/// the direction glyph.
pub fn format_selected_header_text(
    col_index: usize,
    selected: bool,
    dir: SortDirection,
    col_width: u16,
    width: u16,
) -> (s: String)
    requires
        col_index < 5,
        col_width == width as int / 5,
        col_width >= 8,
    ensures
        s@ == header_cell_text(
            header_title_spec(col_index as int),
            selected,
            dir,
            col_index as int,
            col_width as int,
            width as int,
        ),
{
    let title = header_title(col_index);
    if !selected {
        return title.to_owned();
    }
    let mut text = title.to_owned();
    let len = text.as_str().unicode_len();
    if len >= (col_width - 1) as usize {
        text = truncate_text(text, col_width - 5);
    }
    let kept = text.as_str().unicode_len();
    proof {
        assert(5 * (width as int / 5) <= width as int) by (nonlinear_arith);
        assert(text@.len() <= col_width - 2);
    }
    let ws: u16 = if col_index == 4 {
        width - col_width * 4 - (kept as u16 + 1) - 1
    } else {
        col_width - (kept as u16 + 1)
    };
    let pad: u16 = if ws >= 3 {
        ws - 3
    } else {
        0
    };
    let ghost before = text@;
    let mut p: u16 = 0;
    while p < pad
        invariant
            p <= pad,
            text@ == before + Seq::new(p as nat, |k: int| ' '),
        decreases pad - p,
    {
        text.append(" ");
        p = p + 1;
        proof {
            reveal_strlit(" ");
            assert(text@ =~= before + Seq::new(p as nat, |k: int| ' '));
        }
    }
    if matches!(dir, SortDirection::Ascending) {
        text.append("\u{2193}");
        proof {
            reveal_strlit("\u{2193}");
            assert("\u{2193}"@ =~= seq!['\u{2193}']);
        }
    } else {
        text.append("\u{2191}");
        proof {
            reveal_strlit("\u{2191}");
            assert("\u{2191}"@ =~= seq!['\u{2191}']);
        }
    }
    proof {
        assert(text@ =~= header_cell_text(
            header_title_spec(col_index as int),
            selected,
            dir,
            col_index as int,
            col_width as int,
            width as int,
        ));
    }
    text
}

} // verus!
