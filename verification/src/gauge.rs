//! The resource-header gauges: for each resource a label line with a
//! fixed-width bracketed bar whose filled portion is proportional to
//! `used / total`.

use vstd::prelude::*;
use crate::table::TableError;

verus! {

/// The width of a bracketed usage gauge: seven tenths of the terminal
/// width, rounded down.
pub open spec fn gauge_bar_width(width: int) -> int {
    width * 7 / 10
}

/// How many of the first `upto` inner bar positions show as used:
/// position `i` is filled when `i / bar < used / total`, compared here
/// without division as `i * total < used * bar`.
pub open spec fn fill_count(used: int, total: int, bar: int, upto: int) -> int
    decreases upto,
{
    if upto <= 0 {
        0
    } else {
        fill_count(used, total, bar, upto - 1) + (if (upto - 1) * total < used * bar {
            1int
        } else {
            0int
        })
    }
}

/// One resource gauge line, laid out: the blanks between the label and
/// the bar, the bar's width including its brackets, and how many of its
/// inner positions show as used.
#[derive(Debug)]
pub struct GaugeLayout {
    /// Blank columns between the label and the opening bracket.
    pub padding: u16,
    /// Width of the gauge, brackets included.
    pub bar_width: u16,
    /// How many of the `bar_width - 2` positions inside the brackets show
    /// as used; the rest show as free.
    pub filled: u16,
}

/// Lays out one resource gauge line. Fails exactly when the terminal is
/// too narrow for the label and the bar — the padding arithmetic would
/// otherwise underflow, so the caller reports the terminal as too small
/// instead of rendering.
pub fn gauge_layout(width: u16, label_len: u16, used: u64, total: u64) -> (r: Result<
    GaugeLayout,
    TableError,
>)
    requires
        total > 0,
    ensures
        r is Ok <==> (gauge_bar_width(width as int) >= 2 && label_len as int + gauge_bar_width(
            width as int,
        ) <= width as int),
        r is Err ==> r->Err_0 == TableError::TerminalTooSmall,
        r is Ok ==> ({
            let g = r->Ok_0;
            &&& g.bar_width == gauge_bar_width(width as int)
            &&& g.padding == width as int - g.bar_width - label_len
            &&& g.filled == fill_count(
                used as int,
                total as int,
                g.bar_width as int,
                g.bar_width - 2,
            )
            &&& g.filled <= g.bar_width - 2
        }),
{
    let bar: u16 = ((width as u32) * 7 / 10) as u16;
    if bar < 2 {
        return Err(TableError::TerminalTooSmall);
    }
    if (label_len as u32) + (bar as u32) > width as u32 {
        return Err(TableError::TerminalTooSmall);
    }
    let padding = width - bar - label_len;
    let inner = bar - 2;
    let mut filled: u16 = 0;
    let mut i: u16 = 0;
    while i < inner
        invariant
            i <= inner,
            filled <= i,
            filled == fill_count(used as int, total as int, bar as int, i as int),
        decreases inner - i,
    {
        if mul_u128(i as u128, total as u128) < mul_u128(used as u128, bar as u128) {
            filled = filled + 1;
        }
        i = i + 1;
    }
    Ok(GaugeLayout { padding, bar_width: bar, filled })
}

/// Multiplies two moderate factors without overflow: both stay below
/// two to the sixty-fourth, so the product fits the doubled width.
fn mul_u128(a: u128, b: u128) -> (r: u128)
    requires
        a < 0x1_0000_0000_0000_0000,
        b < 0x1_0000_0000_0000_0000,
    ensures
        r == a * b,
{
    proof {
        assert(a * b <= (0x1_0000_0000_0000_0000 - 1) * (0x1_0000_0000_0000_0000 - 1))
            by (nonlinear_arith)
            requires
                a < 0x1_0000_0000_0000_0000,
                b < 0x1_0000_0000_0000_0000,
        ;
    }
    a * b
}

/// The first row after the resource header: two lines for memory and CPU,
/// plus one line per GPU gauge that rendered this cycle (none when the
/// telemetry query failed — the header just comes out shorter).
pub fn next_row_after_header(start_row: u16, gpu_rows: u16) -> (r: u16)
    requires
        start_row as int + 2 + gpu_rows as int <= u16::MAX,
    ensures
        r == start_row as int + 2 + gpu_rows as int,
{
    start_row + 2 + gpu_rows
}

} // verus!
