//! Regular-expression filtering of process records.
//!
//! The filter text the user commits in search mode is handed to the regex
//! engine as a pattern; a record stays in the table when the pattern matches
//! the stringified value of the selected column. The two calls into the
//! regex crate stand behind trusted wrappers; everything around them is
//! verified against the names given to their results.

use vstd::prelude::*;
use crate::process::{col_text, col_text_spec, ProcessRecord};

verus! {

/// Whether the regex engine accepts a pattern. `regex::Regex::new` succeeds
/// or fails as a function of the pattern string alone.
pub uninterp spec fn regex_valid(pattern: Seq<char>) -> bool;

/// Whether a pattern matches anywhere in a haystack. For a fixed pattern
/// and haystack, `regex::Regex::is_match` is a function of the two strings
/// alone.
pub uninterp spec fn regex_matches(pattern: Seq<char>, text: Seq<char>) -> bool;

/// Relies on `regex::Regex::new`: compilation of a pattern is deterministic,
/// so its success names a predicate of the pattern string.
#[verifier::external_body]
pub(crate) fn regex_pattern_valid(pattern: &str) -> (r: bool)
    ensures
        r == regex_valid(pattern@),
{
    regex::Regex::new(pattern).is_ok()
}

/// Relies on `regex::Regex::new` and `regex::Regex::is_match`: whether a
/// valid pattern matches a haystack is a function of pattern and haystack
/// alone. The pattern must already have been checked, so compilation cannot
/// fail here.
#[verifier::external_body]
pub(crate) fn regex_is_match(pattern: &str, text: &str) -> (r: bool)
    requires
        regex_valid(pattern@),
    ensures
        r == regex_matches(pattern@, text@),
{
    match regex::Regex::new(pattern) {
        Ok(re) => re.is_match(text),
        Err(_) => false,
    }
}

/// Whether a record stays in the table under the given filter: the pattern
/// matches the stringified value of the selected column.
pub open spec fn spec_record_matches(rec: ProcessRecord, col: int, pattern: Seq<char>) -> bool {
    regex_matches(pattern, col_text_spec(rec, col))
}

/// Tests one record against the filter pattern on the selected column.
pub(crate) fn record_matches(rec: &ProcessRecord, col: usize, pattern: &str) -> (r: bool)
    requires
        regex_valid(pattern@),
    ensures
        r == spec_record_matches(*rec, col as int, pattern@),
{
    let text = col_text(rec, col);
    regex_is_match(pattern, text.as_str())
}

} // verus!
