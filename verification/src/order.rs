//! The order the process table sorts by: a per-column key comparison with
//! ties broken by a row's position in the snapshot, which makes the order
//! total and the sorted sequence unique.

use vstd::prelude::*;
use vstd::relations::total_ordering;
use crate::process::ProcessRecord;

verus! {

/// Lexicographic strict order on character sequences by code point, the
/// order `str` comparison gives for the name column.
pub open spec fn lex_lt(a: Seq<char>, b: Seq<char>) -> bool
    decreases a.len(),
{
    if b.len() == 0 {
        false
    } else if a.len() == 0 {
        true
    } else if a[0] != b[0] {
        (a[0] as u32) < (b[0] as u32)
    } else {
        lex_lt(a.drop_first(), b.drop_first())
    }
}

/// Of two character sequences, exactly one of `lex_lt(a, b)`, `lex_lt(b, a)`
/// and `a == b` holds.
pub proof fn lemma_lex_trichotomy(a: Seq<char>, b: Seq<char>)
    ensures
        lex_lt(a, b) || lex_lt(b, a) || a == b,
        lex_lt(a, b) ==> !lex_lt(b, a) && a != b,
        lex_lt(b, a) ==> !lex_lt(a, b) && a != b,
    decreases a.len(),
{
    if b.len() == 0 {
        if a.len() == 0 {
            assert(a =~= b);
        }
    } else if a.len() == 0 {
    } else if a[0] != b[0] {
        // distinct characters have distinct code points
        vstd::utf8::char_u32_cast(a[0], a[0] as u32);
        vstd::utf8::char_u32_cast(b[0], b[0] as u32);
    } else {
        lemma_lex_trichotomy(a.drop_first(), b.drop_first());
        if a.drop_first() == b.drop_first() {
            assert forall|i: int| 0 <= i < a.len() implies a[i] == b[i] by {
                if i > 0 {
                    assert(a[i] == a.drop_first()[i - 1]);
                    assert(b[i] == b.drop_first()[i - 1]);
                }
            }
            assert(a =~= b);
        }
        if a == b {
            assert(a.drop_first() =~= b.drop_first());
        }
    }
}

/// Lexicographic order is transitive.
pub proof fn lemma_lex_transitive(a: Seq<char>, b: Seq<char>, c: Seq<char>)
    requires
        lex_lt(a, b),
        lex_lt(b, c),
    ensures
        lex_lt(a, c),
    decreases a.len(),
{
    if c.len() == 0 {
        // lex_lt(b, c) would be false
    } else if a.len() == 0 {
    } else {
        // a, b, c all non-empty: lex_lt(a, b) with a.len() > 0 forces b.len() > 0
        if a[0] != b[0] {
            if b[0] != c[0] {
                assert((a[0] as u32) < (c[0] as u32));
            }
        } else {
            if b[0] != c[0] {
            } else {
                lemma_lex_transitive(a.drop_first(), b.drop_first(), c.drop_first());
            }
        }
    }
}

/// The sort key of one record in one column is below another's, strictly.
///
/// Every column orders by its own value — the PID column included: two
/// records compare by their PIDs, so selecting that column genuinely
/// sorts the table rather than leaving it in snapshot order.
pub open spec fn key_lt(a: ProcessRecord, b: ProcessRecord, col: int) -> bool {
    if col == 1 {
        lex_lt(a.name@, b.name@)
    } else if col == 2 {
        a.cpu_tenths < b.cpu_tenths
    } else if col == 3 {
        a.memory_kb < b.memory_kb
    } else if col == 4 {
        a.run_time_s < b.run_time_s
    } else {
        a.pid < b.pid
    }
}

/// The sort keys of two records in one column are equal.
pub open spec fn key_eq(a: ProcessRecord, b: ProcessRecord, col: int) -> bool {
    if col == 1 {
        a.name@ == b.name@
    } else if col == 2 {
        a.cpu_tenths == b.cpu_tenths
    } else if col == 3 {
        a.memory_kb == b.memory_kb
    } else if col == 4 {
        a.run_time_s == b.run_time_s
    } else {
        a.pid == b.pid
    }
}

/// Row `i` sorts at or before row `j`: its key is strictly below, or the
/// keys are equal and `i` came first in the snapshot. The index tie-break
/// keeps the sort stable and makes the order total.
pub open spec fn idx_le(s: Seq<ProcessRecord>, col: int, i: usize, j: usize) -> bool {
    key_lt(s[i as int], s[j as int], col) || (key_eq(s[i as int], s[j as int], col) && i <= j)
}

/// The row order over a fixed snapshot and column, as a relation.
pub open spec fn idx_order(s: Seq<ProcessRecord>, col: int) -> spec_fn(usize, usize) -> bool {
    |i: usize, j: usize| idx_le(s, col, i, j)
}

/// The row order is a total ordering, for every snapshot and column.
pub proof fn lemma_idx_order_total(s: Seq<ProcessRecord>, col: int)
    ensures
        total_ordering(idx_order(s, col)),
{
    let r = idx_order(s, col);
    assert forall|i: usize| #[trigger] r(i, i) by {
        if col == 1 {
            lemma_lex_trichotomy(s[i as int].name@, s[i as int].name@);
        }
    }
    assert forall|i: usize, j: usize| #[trigger] r(i, j) && #[trigger] r(j, i) implies i == j by {
        if col == 1 {
            lemma_lex_trichotomy(s[i as int].name@, s[j as int].name@);
        }
    }
    assert forall|i: usize, j: usize, k: usize|
        #[trigger] r(i, j) && #[trigger] r(j, k) implies r(i, k) by {
        if col == 1 {
            let a = s[i as int].name@;
            let b = s[j as int].name@;
            let c = s[k as int].name@;
            if lex_lt(a, b) && lex_lt(b, c) {
                lemma_lex_transitive(a, b, c);
            }
        }
    }
    assert forall|i: usize, j: usize| #[trigger] r(i, j) || #[trigger] r(j, i) by {
        if col == 1 {
            lemma_lex_trichotomy(s[i as int].name@, s[j as int].name@);
        }
    }
}

/// Compares two strings lexicographically, reporting strictly-below and
/// equality in one pass.
fn lex_compare(a: &str, b: &str) -> (r: (bool, bool))
    ensures
        r.0 == lex_lt(a@, b@),
        r.1 == (a@ == b@),
{
    let alen = a.unicode_len();
    let blen = b.unicode_len();
    let mut k: usize = 0;
    while k < alen && k < blen
        invariant
            k <= alen,
            k <= blen,
            alen == a@.len(),
            blen == b@.len(),
            forall|m: int| 0 <= m < k ==> a@[m] == b@[m],
        decreases alen - k,
    {
        let ca = a.get_char(k);
        let cb = b.get_char(k);
        if ca != cb {
            proof {
                lemma_lex_skip(a@, b@, k as int);
            }
            return ((ca as u32) < (cb as u32), false);
        }
        k = k + 1;
    }
    proof {
        lemma_lex_skip(a@, b@, k as int);
        if alen == blen {
            assert(a@ =~= b@);
        }
    }
    (alen < blen, alen == blen)
}

/// Dropping an equal prefix from both sequences does not change how they
/// compare lexicographically.
proof fn lemma_lex_skip(a: Seq<char>, b: Seq<char>, k: int)
    requires
        0 <= k <= a.len(),
        k <= b.len(),
        forall|m: int| 0 <= m < k ==> a[m] == b[m],
    ensures
        lex_lt(a, b) == lex_lt(a.skip(k), b.skip(k)),
    decreases k,
{
    if k == 0 {
        assert(a.skip(0) =~= a);
        assert(b.skip(0) =~= b);
    } else {
        assert(a.len() > 0 && b.len() > 0 && a[0] == b[0]);
        lemma_lex_skip(a.drop_first(), b.drop_first(), k - 1);
        assert(a.drop_first().skip(k - 1) =~= a.skip(k));
        assert(b.drop_first().skip(k - 1) =~= b.skip(k));
    }
}

/// Compares two rows of the snapshot under the table's row order.
pub(crate) fn row_le(snap: &Vec<ProcessRecord>, col: usize, i: usize, j: usize) -> (r: bool)
    requires
        i < snap@.len(),
        j < snap@.len(),
    ensures
        r == idx_le(snap@, col as int, i, j),
{
    let a = &snap[i];
    let b = &snap[j];
    if col == 1 {
        let (lt, eq) = lex_compare(a.name.as_str(), b.name.as_str());
        lt || (eq && i <= j)
    } else if col == 2 {
        a.cpu_tenths < b.cpu_tenths || (a.cpu_tenths == b.cpu_tenths && i <= j)
    } else if col == 3 {
        a.memory_kb < b.memory_kb || (a.memory_kb == b.memory_kb && i <= j)
    } else if col == 4 {
        a.run_time_s < b.run_time_s || (a.run_time_s == b.run_time_s && i <= j)
    } else {
        a.pid < b.pid || (a.pid == b.pid && i <= j)
    }
}

} // verus!
