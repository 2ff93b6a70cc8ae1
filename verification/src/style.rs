//! Terminal styling of what the layout computed: the selected-column
//! highlight, the white table borders, and the colored gauge bars.
//!
//! Every width and truncation decision is made before these functions
//! run, on plain text; here the finished pieces are only wrapped in the
//! styling the terminal shows. Whether the styling calls color at all
//! depends on the environment, but on every outcome they only insert
//! ANSI escape text around and inside what they are given: the input's
//! characters survive in order, and counts of characters outside the
//! escape alphabet are unchanged. The contracts below say exactly that,
//! so the visible content of a styled piece stays pinned.

use vstd::prelude::*;
use colored::Colorize;
use crate::gauge::GaugeLayout;
use crate::layout::CellLayout;

verus! {

/// The characters an ANSI style or reset sequence is written with: the
/// escape character, `[`, `;`, `m` and the decimal digits. Whatever the
/// styling inserts is spelled from these alone.
pub open spec fn ansi_escape_char(c: char) -> bool {
    ||| c == '\u{1b}'
    ||| c == '['
    ||| c == ';'
    ||| c == 'm'
    ||| (c as u32 >= 48 && c as u32 <= 57)
}

/// How often a character occurs in a sequence.
pub open spec fn count_char(s: Seq<char>, c: char) -> int
    decreases s.len(),
{
    if s.len() == 0 {
        0
    } else {
        count_char(s.drop_last(), c) + (if s.last() == c {
            1int
        } else {
            0int
        })
    }
}

/// `a` occurs in `b` in order: `b` is `a` with characters inserted.
pub open spec fn is_subseq_of(a: Seq<char>, b: Seq<char>) -> bool
    decreases b.len(),
{
    if a.len() == 0 {
        true
    } else if b.len() == 0 {
        false
    } else {
        (a[0] == b[0] && is_subseq_of(a.drop_first(), b.drop_first())) || is_subseq_of(
            a,
            b.drop_first(),
        )
    }
}

/// The count in a one-character sequence.
pub proof fn lemma_count_char_single(c: char, d: char)
    ensures
        count_char(seq![c], d) == (if c == d {
            1int
        } else {
            0int
        }),
{
    assert(count_char(Seq::<char>::empty(), d) == 0);
    assert(seq![c].drop_last() =~= Seq::<char>::empty());
}

/// Occurrence counts add up over concatenation.
pub proof fn lemma_count_char_concat(a: Seq<char>, b: Seq<char>, c: char)
    ensures
        count_char(a + b, c) == count_char(a, c) + count_char(b, c),
    decreases b.len(),
{
    if b.len() == 0 {
        assert(a + b =~= a);
    } else {
        lemma_count_char_concat(a, b.drop_last(), c);
        assert((a + b).drop_last() =~= a + b.drop_last());
        assert((a + b).last() == b.last());
    }
}

/// Every sequence is a subsequence of itself.
pub proof fn lemma_subseq_refl(a: Seq<char>)
    ensures
        is_subseq_of(a, a),
    decreases a.len(),
{
    if a.len() > 0 {
        lemma_subseq_refl(a.drop_first());
    }
}

/// A subsequence survives prepending to the right-hand side.
pub proof fn lemma_subseq_prepend(a: Seq<char>, x: Seq<char>, b: Seq<char>)
    requires
        is_subseq_of(a, b),
    ensures
        is_subseq_of(a, x + b),
    decreases x.len(),
{
    if x.len() == 0 {
        assert(x + b =~= b);
    } else {
        lemma_subseq_prepend(a, x.drop_first(), b);
        assert((x + b).drop_first() =~= x.drop_first() + b);
    }
}

/// A subsequence survives appending to the right-hand side.
pub proof fn lemma_subseq_append(a: Seq<char>, b: Seq<char>, y: Seq<char>)
    requires
        is_subseq_of(a, b),
    ensures
        is_subseq_of(a, b + y),
    decreases b.len(),
{
    if a.len() == 0 {
    } else {
        // is_subseq_of(a, b) rules out an empty b here
        if a[0] == b[0] && is_subseq_of(a.drop_first(), b.drop_first()) {
            lemma_subseq_append(a.drop_first(), b.drop_first(), y);
            assert((b + y).drop_first() =~= b.drop_first() + y);
        } else {
            lemma_subseq_append(a, b.drop_first(), y);
            assert((b + y).drop_first() =~= b.drop_first() + y);
        }
    }
}

/// Dropping the left-hand side's first character keeps it a subsequence.
pub proof fn lemma_subseq_drop_first(a: Seq<char>, b: Seq<char>)
    requires
        is_subseq_of(a, b),
        a.len() > 0,
    ensures
        is_subseq_of(a.drop_first(), b),
    decreases b.len(),
{
    if a[0] == b[0] && is_subseq_of(a.drop_first(), b.drop_first()) {
        lemma_subseq_prepend(a.drop_first(), seq![b[0]], b.drop_first());
        assert(seq![b[0]] + b.drop_first() =~= b);
    } else {
        lemma_subseq_drop_first(a, b.drop_first());
    }
}

/// Relies on `colored::Colorize::on_blue` and the `Display` of its
/// result: when coloring is off the text passes through unchanged, and
/// when it is on, a style prefix, a reset suffix, and style text after
/// any inner reset are inserted, all spelled from the ANSI escape
/// alphabet. So on every outcome the text survives in order and counts
/// of characters outside that alphabet are preserved.
#[verifier::external_body]
fn on_blue(text: &str) -> (r: String)
    ensures
        is_subseq_of(text@, r@),
        forall|c: char|
            !ansi_escape_char(c) ==> (#[trigger] count_char(r@, c)) == count_char(text@, c),
{
    format!("{}", text.on_blue())
}

/// Relies on `colored::Colorize::on_white` and the `Display` of its
/// result, exactly as `on_blue` above: insertions only, drawn from the
/// ANSI escape alphabet, on every outcome.
#[verifier::external_body]
fn on_white(text: &str) -> (r: String)
    ensures
        is_subseq_of(text@, r@),
        forall|c: char|
            !ansi_escape_char(c) ==> (#[trigger] count_char(r@, c)) == count_char(text@, c),
{
    format!("{}", text.on_white())
}

/// Relies on `colored::Colorize::green` and the `Display` of its
/// result, exactly as `on_blue` above: insertions only, drawn from the
/// ANSI escape alphabet, on every outcome.
#[verifier::external_body]
fn green(text: &str) -> (r: String)
    ensures
        is_subseq_of(text@, r@),
        forall|c: char|
            !ansi_escape_char(c) ==> (#[trigger] count_char(r@, c)) == count_char(text@, c),
{
    format!("{}", text.green())
}

/// Relies on `colored::Colorize::red` and the `Display` of its result,
/// exactly as `on_blue` above: insertions only, drawn from the ANSI
/// escape alphabet, on every outcome.
#[verifier::external_body]
fn red(text: &str) -> (r: String)
    ensures
        is_subseq_of(text@, r@),
        forall|c: char|
            !ansi_escape_char(c) ==> (#[trigger] count_char(r@, c)) == count_char(text@, c),
{
    format!("{}", text.red())
}

/// Highlights text that belongs to the selected column; text of any
/// other column passes through unchanged. Either way the text's visible
/// characters survive in order and nothing but escape text joins them.
pub fn format_selected_color(text: &str, is_selected: bool) -> (r: String)
    ensures
        !is_selected ==> r@ == text@,
        is_subseq_of(text@, r@),
        forall|c: char|
            !ansi_escape_char(c) ==> (#[trigger] count_char(r@, c)) == count_char(text@, c),
{
    if !is_selected {
        let r = text.to_owned();
        proof {
            lemma_subseq_refl(text@);
        }
        r
    } else {
        on_blue(text)
    }
}

/// The styled text of one laid-out cell: the white border column, then a
/// space, the cell's text and its padding, the latter three highlighted
/// when the cell sits in the selected column. The cell's text survives
/// in order, and the blanks around it are exactly the border space, the
/// leading space and the computed padding.
pub fn styled_cell_text(cell: &CellLayout, is_selected: bool) -> (r: String)
    ensures
        is_subseq_of(cell.text@, r@),
        count_char(r@, ' ') == 2 + cell.padding as int + count_char(cell.text@, ' '),
{
    proof {
        reveal_strlit(" ");
        assert(" "@ =~= seq![' ']);
        lemma_count_char_single(' ', ' ');
        assert(count_char(" "@, ' ') == 1);
        assert(!ansi_escape_char(' '));
    }
    let mut body = String::new();
    body.append(" ");
    body.append(cell.text.as_str());
    proof {
        assert(body@ =~= seq![' '] + cell.text@);
        lemma_count_char_concat(seq![' '], cell.text@, ' ');
    }
    let styled = format_selected_color(body.as_str(), is_selected);
    proof {
        assert(body@.drop_first() =~= cell.text@);
        lemma_subseq_drop_first(body@, styled@);
    }
    let mut r = on_white(" ");
    let ghost border = r@;
    r.append(styled.as_str());
    proof {
        lemma_count_char_concat(border, styled@, ' ');
        lemma_subseq_prepend(cell.text@, border, styled@);
    }
    let blank = format_selected_color(" ", is_selected);
    let mut p: u16 = 0;
    while p < cell.padding
        invariant
            p <= cell.padding,
            count_char(blank@, ' ') == 1,
            count_char(r@, ' ') == 2 + p as int + count_char(cell.text@, ' '),
            is_subseq_of(cell.text@, r@),
        decreases cell.padding - p,
    {
        let ghost before = r@;
        r.append(blank.as_str());
        p = p + 1;
        proof {
            lemma_count_char_concat(before, blank@, ' ');
            lemma_subseq_append(cell.text@, before, blank@);
        }
    }
    r
}

/// One cell's width of the white border that closes the last column at
/// the right edge of the terminal: exactly one space under the styling.
pub fn styled_border_cell() -> (r: String)
    ensures
        count_char(r@, ' ') == 1,
{
    proof {
        reveal_strlit(" ");
        assert(" "@ =~= seq![' ']);
        lemma_count_char_single(' ', ' ');
        assert(count_char(" "@, ' ') == 1);
        assert(!ansi_escape_char(' '));
    }
    on_white(" ")
}

/// A full-width separator row: the white border background across the
/// whole terminal, one space per column of the terminal.
pub fn styled_separator_row(width: u16) -> (r: String)
    ensures
        count_char(r@, ' ') == width as int,
{
    proof {
        reveal_strlit(" ");
        assert(" "@ =~= seq![' ']);
        lemma_count_char_single(' ', ' ');
        assert(count_char(" "@, ' ') == 1);
        assert(!ansi_escape_char(' '));
    }
    let piece = on_white(" ");
    let mut r = String::new();
    let mut p: u16 = 0;
    while p < width
        invariant
            p <= width,
            count_char(piece@, ' ') == 1,
            count_char(r@, ' ') == p as int,
        decreases width - p,
    {
        let ghost before = r@;
        r.append(piece.as_str());
        p = p + 1;
        proof {
            lemma_count_char_concat(before, piece@, ' ');
        }
    }
    r
}

/// The styled bar of one gauge: an opening bracket, one bar character
/// per inner position — the used ones in green, the free ones in red —
/// and a closing bracket. The brackets sit first and last, and exactly
/// `bar_width - 2` bar characters stand between them.
pub fn styled_gauge_bar(g: &GaugeLayout) -> (r: String)
    requires
        g.bar_width >= 2,
        g.filled <= g.bar_width - 2,
    ensures
        r@.len() >= 2,
        r@[0] == '[',
        r@[r@.len() - 1] == ']',
        count_char(r@, '|') == g.bar_width - 2,
{
    proof {
        reveal_strlit("|");
        assert("|"@ =~= seq!['|']);
        lemma_count_char_single('|', '|');
        assert(count_char("|"@, '|') == 1);
        assert(!ansi_escape_char('|'));
    }
    let used = green("|");
    let free = red("|");
    let mut r = String::new();
    r.append("[");
    proof {
        reveal_strlit("[");
        assert(r@ =~= seq!['[']);
        lemma_count_char_single('[', '|');
        assert(count_char(r@, '|') == 0);
    }
    let mut p: u16 = 0;
    while p < g.filled
        invariant
            p <= g.filled,
            count_char(used@, '|') == 1,
            count_char(r@, '|') == p as int,
            r@.len() >= 1,
            r@[0] == '[',
        decreases g.filled - p,
    {
        let ghost before = r@;
        r.append(used.as_str());
        p = p + 1;
        proof {
            lemma_count_char_concat(before, used@, '|');
        }
    }
    let mut q: u16 = p;
    while q < g.bar_width - 2
        invariant
            g.bar_width >= 2,
            q <= g.bar_width - 2,
            count_char(free@, '|') == 1,
            count_char(r@, '|') == q as int,
            r@.len() >= 1,
            r@[0] == '[',
        decreases g.bar_width - 2 - q,
    {
        let ghost before = r@;
        r.append(free.as_str());
        q = q + 1;
        proof {
            lemma_count_char_concat(before, free@, '|');
        }
    }
    let ghost middle = r@;
    r.append("]");
    proof {
        reveal_strlit("]");
        assert("]"@ =~= seq![']']);
        assert(r@ =~= middle + seq![']']);
        lemma_count_char_single(']', '|');
        lemma_count_char_concat(middle, seq![']'], '|');
    }
    r
}

} // verus!
