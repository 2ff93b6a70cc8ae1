//! The process-table engine: filtering by the committed search pattern,
//! stable sorting by the selected column, and the displayed row order.
//!
//! The displayed order is pinned exactly: the rows that match the filter,
//! sorted by the selected column's key with snapshot order breaking ties,
//! and reversed as one sequence when the direction is descending — so
//! flipping the direction always inverts the complete displayed order.

use vstd::prelude::*;
use vstd::relations::{sorted_by, total_ordering};
use vstd::seq_lib::lemma_sorted_unique;
use crate::layout::{table_layout, TableLayout, MIN_TABLE_WIDTH};
use crate::matching::{record_matches, regex_pattern_valid, regex_valid, spec_record_matches};
use crate::order::{idx_order, lemma_idx_order_total, row_le};
use crate::process::ProcessRecord;
use crate::state::{Dimensions, SortDirection, ViewState};

verus! {

/// Why the table could not be built for this cycle.
#[derive(Clone, Copy, PartialEq, Eq, Structural, Debug)]
pub enum TableError {
    /// The committed filter text is not a valid regular expression.
    InvalidFilter,
    /// The terminal is too small for the fixed margins of the layout.
    TerminalTooSmall,
}

/// The snapshot positions of the records that stay under the filter, in
/// snapshot order.
pub open spec fn matching_indices(s: Seq<ProcessRecord>, col: int, pattern: Seq<char>) -> Seq<
    usize,
>
    decreases s.len(),
{
    if s.len() == 0 {
        Seq::empty()
    } else {
        let pre = matching_indices(s.drop_last(), col, pattern);
        if spec_record_matches(s.last(), col, pattern) {
            pre.push((s.len() - 1) as usize)
        } else {
            pre
        }
    }
}

/// The snapshot positions the table keeps: everything when the filter text
/// is empty, otherwise the positions whose selected column matches it.
pub open spec fn selected_indices(s: Seq<ProcessRecord>, col: int, filter: Seq<char>) -> Seq<
    usize,
> {
    if filter.len() == 0 {
        Seq::new(s.len(), |k: int| k as usize)
    } else {
        matching_indices(s, col, filter)
    }
}

/// The displayed row order: the kept positions sorted by the selected
/// column's key (snapshot order breaking ties), reversed as a whole when
/// the direction is descending.
///
/// Reversing the whole sequence is a deliberate choice: it keeps the
/// inversion law exact on every input, at the price that under the
/// descending direction rows with equal keys appear in reverse snapshot
/// order. A comparator flipped per pair would keep ties in snapshot
/// order both ways — and thereby break the exact inversion on tied
/// inputs.
pub open spec fn displayed_indices(
    s: Seq<ProcessRecord>,
    col: int,
    filter: Seq<char>,
    dir: SortDirection,
) -> Seq<usize> {
    let sorted = selected_indices(s, col, filter).sort_by(idx_order(s, col));
    if dir == SortDirection::Ascending {
        sorted
    } else {
        sorted.reverse()
    }
}

/// Law: flipping the sort direction yields the exact reverse of the
/// complete displayed order, for every snapshot, column and filter.
pub proof fn lemma_direction_flip_reverses(s: Seq<ProcessRecord>, col: int, filter: Seq<char>)
    ensures
        displayed_indices(s, col, filter, SortDirection::Descending) == displayed_indices(
            s,
            col,
            filter,
            SortDirection::Ascending,
        ).reverse(),
{
}

/// Every kept position points into the snapshot.
proof fn lemma_matching_indices_bounds(s: Seq<ProcessRecord>, col: int, pattern: Seq<char>)
    ensures
        forall|k: int|
            0 <= k < matching_indices(s, col, pattern).len() ==> #[trigger] matching_indices(
                s,
                col,
                pattern,
            )[k] < s.len(),
    decreases s.len(),
{
    if s.len() > 0 {
        lemma_matching_indices_bounds(s.drop_last(), col, pattern);
        let pre = matching_indices(s.drop_last(), col, pattern);
        let cur = matching_indices(s, col, pattern);
        assert forall|k: int| 0 <= k < cur.len() implies cur[k] < s.len() by {
            if k < pre.len() {
                assert(pre[k] < s.drop_last().len());
            }
        }
    }
}

/// Law: a filter that matches no record's selected column yields zero
/// displayed rows — an empty table, not an error.
pub proof fn lemma_unmatched_filter_empty(
    s: Seq<ProcessRecord>,
    col: int,
    filter: Seq<char>,
    dir: SortDirection,
)
    requires
        filter.len() > 0,
        forall|i: int| 0 <= i < s.len() ==> !spec_record_matches(#[trigger] s[i], col, filter),
    ensures
        displayed_indices(s, col, filter, dir).len() == 0,
{
    lemma_matching_indices_of_unmatched(s, col, filter);
    let sel = selected_indices(s, col, filter);
    let leq = idx_order(s, col);
    lemma_idx_order_total(s, col);
    sel.lemma_sort_by_ensures(leq);
    broadcast use vstd::seq_lib::group_to_multiset_ensures;

    assert(sel.sort_by(leq).len() == sel.sort_by(leq).to_multiset().len());
    assert(sel.sort_by(leq).len() == 0);
}

proof fn lemma_matching_indices_of_unmatched(s: Seq<ProcessRecord>, col: int, filter: Seq<char>)
    requires
        forall|i: int| 0 <= i < s.len() ==> !spec_record_matches(#[trigger] s[i], col, filter),
    ensures
        matching_indices(s, col, filter).len() == 0,
    decreases s.len(),
{
    if s.len() > 0 {
        assert(forall|i: int|
            0 <= i < s.drop_last().len() ==> !spec_record_matches(
                #[trigger] s.drop_last()[i],
                col,
                filter,
            ));
        lemma_matching_indices_of_unmatched(s.drop_last(), col, filter);
    }
}

/// Collects the snapshot positions the filter keeps, in snapshot order.
fn collect_selected(snapshot: &Vec<ProcessRecord>, col: usize, filter: &String) -> (r: Result<
    Vec<usize>,
    TableError,
>)
    ensures
        r is Ok <==> (filter@.len() == 0 || regex_valid(filter@)),
        r is Ok ==> r->Ok_0@ == selected_indices(snapshot@, col as int, filter@),
        r is Err ==> r->Err_0 == TableError::InvalidFilter,
{
    let mut idxs: Vec<usize> = Vec::new();
    if filter.as_str().unicode_len() == 0 {
        let mut i: usize = 0;
        while i < snapshot.len()
            invariant
                i <= snapshot@.len(),
                idxs@ == Seq::new(i as nat, |k: int| k as usize),
            decreases snapshot@.len() - i,
        {
            idxs.push(i);
            i = i + 1;
            proof {
                assert(idxs@ =~= Seq::new(i as nat, |k: int| k as usize));
            }
        }
        Ok(idxs)
    } else {
        if !regex_pattern_valid(filter.as_str()) {
            return Err(TableError::InvalidFilter);
        }
        let mut i: usize = 0;
        while i < snapshot.len()
            invariant
                i <= snapshot@.len(),
                regex_valid(filter@),
                idxs@ == matching_indices(
                    snapshot@.subrange(0, i as int),
                    col as int,
                    filter@,
                ),
            decreases snapshot@.len() - i,
        {
            let ghost pre = snapshot@.subrange(0, i as int);
            if record_matches(&snapshot[i], col, filter.as_str()) {
                idxs.push(i);
            }
            i = i + 1;
            proof {
                let cur = snapshot@.subrange(0, i as int);
                assert(cur.drop_last() =~= pre);
                assert(cur.last() == snapshot@[i - 1]);
            }
        }
        proof {
            assert(snapshot@.subrange(0, snapshot@.len() as int) =~= snapshot@);
        }
        Ok(idxs)
    }
}

/// Sorts snapshot positions by the table's row order with insertion sort:
/// the result is a permutation of the input, sorted under the total order
/// `idx_order`, which pins it exactly.
fn sort_positions(snapshot: &Vec<ProcessRecord>, col: usize, v: &mut Vec<usize>)
    requires
        forall|k: int| 0 <= k < old(v)@.len() ==> #[trigger] old(v)@[k] < snapshot@.len(),
    ensures
        final(v)@.to_multiset() == old(v)@.to_multiset(),
        sorted_by(final(v)@, idx_order(snapshot@, col as int)),
        forall|k: int| 0 <= k < final(v)@.len() ==> #[trigger] final(v)@[k] < snapshot@.len(),
{
    let ghost leq = idx_order(snapshot@, col as int);
    proof {
        lemma_idx_order_total(snapshot@, col as int);
        broadcast use vstd::seq_lib::group_to_multiset_ensures;
        broadcast use vstd::multiset::group_multiset_axioms;
    }
    let mut i: usize = 1;
    while i < v.len()
        invariant
            1 <= i,
            i <= v@.len() || v@.len() <= 1,
            v@.len() == old(v)@.len(),
            v@.to_multiset() == old(v)@.to_multiset(),
            sorted_by(v@.subrange(0, i as int), leq) || i > v@.len(),
            forall|k: int| 0 <= k < v@.len() ==> #[trigger] v@[k] < snapshot@.len(),
            leq == idx_order(snapshot@, col as int),
            total_ordering(leq),
        decreases v@.len() - i,
    {
        let ghost u = v@;
        let x = v.remove(i);
        proof {
            broadcast use vstd::seq_lib::group_to_multiset_ensures;
            broadcast use vstd::multiset::group_multiset_axioms;
            assert(v@.to_multiset() == u.to_multiset().remove(x));
            assert(v@.subrange(0, i as int) =~= u.subrange(0, i as int));
        }
        let mut p: usize = i;
        while p > 0 && !row_le(snapshot, col, v[p - 1], x)
            invariant
                p <= i,
                i < u.len(),
                u.len() >= 1,
                v@.len() == u.len() - 1,
                v@ == u.remove(i as int),
                x == u[i as int],
                x < snapshot@.len(),
                forall|k: int| 0 <= k < v@.len() ==> #[trigger] v@[k] < snapshot@.len(),
                sorted_by(v@.subrange(0, i as int), leq),
                forall|k: int| p <= k < i ==> !leq(#[trigger] v@[k], x),
                leq == idx_order(snapshot@, col as int),
                total_ordering(leq),
            decreases p,
        {
            p = p - 1;
        }
        let ghost w = v@;
        v.insert(p, x);
        proof {
            broadcast use vstd::seq_lib::group_to_multiset_ensures;
            broadcast use vstd::multiset::group_multiset_axioms;
            assert(v@.to_multiset() == w.to_multiset().insert(x));
            assert(u.to_multiset().contains(x));
            assert(v@.to_multiset() =~= u.to_multiset());
            // the prefix of length i + 1 is sorted after the insertion
            let new_pre = v@.subrange(0, i as int + 1);
            let old_pre = w.subrange(0, i as int);
            assert forall|a: int, b: int| 0 <= a < b < new_pre.len() implies #[trigger] leq(
                new_pre[a],
                new_pre[b],
            ) by {
                assert(forall|k: int|
                    0 <= k < i ==> old_pre[k] == #[trigger] w[k]);
                assert(forall|k: int| 0 <= k < p ==> v@[k] == w[k]);
                assert(forall|k: int| p < k <= i ==> v@[k] == w[k - 1]);
                assert(v@[p as int] == x);
                if b < p {
                    // both below the insertion point: old order
                    assert(leq(w[a], w[b]));
                } else if a > p {
                    assert(leq(w[a - 1], w[b - 1]));
                } else if a == p {
                    // x against an element at or after the insertion point
                    assert(!leq(w[b - 1], x));
                    assert(leq(x, w[b - 1]));
                } else if b == p {
                    // element before the insertion point against x
                    if p > 0 {
                        assert(leq(w[p - 1], x));
                        if a < p - 1 {
                            assert(leq(w[a], w[p - 1]));
                        }
                    }
                } else {
                    // a < p < b
                    assert(!leq(w[b - 1], x));
                    assert(leq(x, w[b - 1]));
                    if p > 0 {
                        assert(leq(w[p - 1], x));
                        if a < p - 1 {
                            assert(leq(w[a], w[p - 1]));
                        }
                    }
                }
            }
            assert(sorted_by(v@.subrange(0, i as int + 1), leq));
        }
        i = i + 1;
    }
    proof {
        if v@.len() > 1 {
            assert(v@.subrange(0, v@.len() as int) =~= v@);
        } else {
            assert(sorted_by(v@, leq));
        }
    }
}

/// Reverses the displayed order in place for the descending direction.
fn reverse_positions(v: Vec<usize>) -> (r: Vec<usize>)
    ensures
        r@ == v@.reverse(),
{
    let mut r: Vec<usize> = Vec::new();
    let mut i: usize = v.len();
    while i > 0
        invariant
            i <= v@.len(),
            r@ == v@.subrange(i as int, v@.len() as int).reverse(),
        decreases i,
    {
        i = i - 1;
        r.push(v[i]);
        proof {
            assert(r@ =~= v@.subrange(i as int, v@.len() as int).reverse());
        }
    }
    proof {
        assert(v@.subrange(0, v@.len() as int) =~= v@);
    }
    r
}

/// Selects and orders the rows the table displays: the snapshot positions
/// kept by the filter, sorted by the selected column, in the direction the
/// view asks for. Fails exactly when a non-empty filter text is not a valid
/// regular expression.
pub fn select_rows(snapshot: &Vec<ProcessRecord>, view: &ViewState) -> (r: Result<
    Vec<usize>,
    TableError,
>)
    ensures
        r is Ok <==> (view.filter_text@.len() == 0 || regex_valid(view.filter_text@)),
        r is Ok ==> r->Ok_0@ == displayed_indices(
            snapshot@,
            view.selected_column as int,
            view.filter_text@,
            view.sort_direction,
        ),
        r is Ok ==> forall|k: int|
            0 <= k < r->Ok_0@.len() ==> #[trigger] r->Ok_0@[k] < snapshot@.len(),
        r is Err ==> r->Err_0 == TableError::InvalidFilter,
{
    let col = view.selected_column;
    let mut idxs = match collect_selected(snapshot, col, &view.filter_text) {
        Ok(idxs) => idxs,
        Err(e) => {
            return Err(e);
        },
    };
    proof {
        if view.filter_text@.len() > 0 {
            lemma_matching_indices_bounds(snapshot@, col as int, view.filter_text@);
        }
    }
    let ghost sel = idxs@;
    sort_positions(snapshot, col, &mut idxs);
    proof {
        let leq = idx_order(snapshot@, col as int);
        lemma_idx_order_total(snapshot@, col as int);
        sel.lemma_sort_by_ensures(leq);
        lemma_sorted_unique(idxs@, sel.sort_by(leq), leq);
        assert(idxs@ == sel.sort_by(leq));
    }
    if matches!(view.sort_direction, SortDirection::Ascending) {
        Ok(idxs)
    } else {
        Ok(reverse_positions(idxs))
    }
}

/// Sorting and reversing keep every kept row: the displayed order has
/// exactly as many rows as the filter kept.
pub proof fn lemma_displayed_len(
    s: Seq<ProcessRecord>,
    col: int,
    filter: Seq<char>,
    dir: SortDirection,
)
    ensures
        displayed_indices(s, col, filter, dir).len() == selected_indices(s, col, filter).len(),
{
    let sel = selected_indices(s, col, filter);
    let leq = idx_order(s, col);
    lemma_idx_order_total(s, col);
    sel.lemma_sort_by_ensures(leq);
    broadcast use vstd::seq_lib::group_to_multiset_ensures;

    assert(sel.sort_by(leq).len() == sel.sort_by(leq).to_multiset().len());
    assert(sel.len() == sel.to_multiset().len());
}

/// One cycle's table, ready to print: where it sits on screen, the
/// snapshot positions of the rows in display order (cut to what fits), and
/// how many of the rendered rows show a process. Rows beyond `populated`
/// are rendered blank so the bottom border stays anchored.
#[derive(Debug)]
pub struct TableView {
    pub layout: TableLayout,
    pub rows: Vec<usize>,
    pub populated: usize,
}

/// Builds the table for one cycle: validates the terminal size, filters
/// and sorts the snapshot, and cuts the displayed order to the rows that
/// fit. With an empty filter the populated row count is exactly the
/// smaller of the snapshot size and the table's capacity.
pub fn build_table(
    snapshot: &Vec<ProcessRecord>,
    view: &ViewState,
    dims: Dimensions,
    start_row: u16,
) -> (r: Result<TableView, TableError>)
    ensures
        r is Ok <==> (dims.width >= MIN_TABLE_WIDTH && dims.height as int >= start_row as int + 6
            && (view.filter_text@.len() == 0 || regex_valid(view.filter_text@))),
        r is Err ==> r->Err_0 == (if dims.width < MIN_TABLE_WIDTH || (dims.height as int)
            < start_row as int + 6 {
            TableError::TerminalTooSmall
        } else {
            TableError::InvalidFilter
        }),
        r is Ok ==> ({
            let t = r->Ok_0;
            let disp = displayed_indices(
                snapshot@,
                view.selected_column as int,
                view.filter_text@,
                view.sort_direction,
            );
            &&& t.layout.top_border_row == start_row as int + 1
            &&& t.layout.header_row == start_row as int + 2
            &&& t.layout.header_separator_row == start_row as int + 3
            &&& t.layout.first_data_row == start_row as int + 4
            &&& t.layout.bottom_border_row == dims.height as int - 2
            &&& t.layout.capacity == dims.height as int - (start_row as int + 2) - 4
            &&& t.layout.col_width == dims.width as int / 5
            &&& t.rows@ == disp.take(
                if disp.len() <= t.layout.capacity {
                    disp.len() as int
                } else {
                    t.layout.capacity as int
                },
            )
            &&& t.populated == (if disp.len() <= t.layout.capacity {
                disp.len() as int
            } else {
                t.layout.capacity as int
            })
            &&& forall|k: int| 0 <= k < t.rows@.len() ==> #[trigger] t.rows@[k] < snapshot@.len()
            &&& (view.filter_text@.len() == 0 ==> t.populated == (if snapshot@.len()
                <= t.layout.capacity {
                snapshot@.len() as int
            } else {
                t.layout.capacity as int
            }))
        }),
{
    let layout = match table_layout(dims, start_row) {
        Ok(l) => l,
        Err(e) => {
            return Err(e);
        },
    };
    let mut rows = match select_rows(snapshot, view) {
        Ok(rows) => rows,
        Err(e) => {
            return Err(e);
        },
    };
    let ghost disp = rows@;
    let capacity = layout.capacity as usize;
    let populated: usize = if rows.len() <= capacity {
        rows.len()
    } else {
        capacity
    };
    rows.truncate(capacity);
    proof {
        if disp.len() <= capacity {
            assert(rows@ =~= disp.take(disp.len() as int));
        } else {
            assert(rows@ =~= disp.take(capacity as int));
        }
        lemma_displayed_len(
            snapshot@,
            view.selected_column as int,
            view.filter_text@,
            view.sort_direction,
        );
    }
    Ok(TableView { layout, rows, populated })
}

} // verus!
