//! Verified text utilities: decimal rendering of counters, the ellipsis
//! truncation used by table cells, and the quote stripping applied to cell
//! text before layout.

use vstd::prelude::*;

verus! {

/// The character for a single decimal digit.
pub open spec fn digit_char(d: int) -> char {
    ((d + 48) as u8) as char
}

/// The decimal digits of a non-negative integer, most significant first.
pub open spec fn dec_str(n: int) -> Seq<char>
    recommends
        n >= 0,
    decreases n,
{
    if n < 10 {
        seq![digit_char(n)]
    } else {
        dec_str(n / 10).push(digit_char(n % 10))
    }
}

/// Appends one character to a string.
///
/// Relies on `String::push`, which the standard library documents as
/// appending the given `char` to the end of the `String`.
#[verifier::external_body]
fn push_char(s: &mut String, c: char)
    ensures
        final(s)@ == old(s)@.push(c),
{
    s.push(c);
}

/// Builds a string holding exactly the given characters.
pub fn chars_to_string(chars: &Vec<char>) -> (s: String)
    ensures
        s@ == chars@,
{
    let mut s = String::new();
    let mut i: usize = 0;
    while i < chars.len()
        invariant
            i <= chars.len(),
            s@ == chars@.subrange(0, i as int),
        decreases chars.len() - i,
    {
        push_char(&mut s, chars[i]);
        i = i + 1;
        proof {
            assert(s@ =~= chars@.subrange(0, i as int));
        }
    }
    proof {
        assert(s@ =~= chars@);
    }
    s
}

/// Collects the characters of a string slice into a vector.
pub fn string_to_chars(s: &str) -> (chars: Vec<char>)
    ensures
        chars@ == s@,
{
    let len = s.unicode_len();
    let mut chars: Vec<char> = Vec::new();
    let mut i: usize = 0;
    while i < len
        invariant
            i <= len,
            len == s@.len(),
            chars@ == s@.subrange(0, i as int),
        decreases len - i,
    {
        chars.push(s.get_char(i));
        i = i + 1;
        proof {
            assert(chars@ =~= s@.subrange(0, i as int));
        }
    }
    proof {
        assert(chars@ =~= s@);
    }
    chars
}

/// Renders a counter as its decimal digits.
pub fn u64_to_string(n: u64) -> (s: String)
    ensures
        s@ == dec_str(n as int),
{
    let mut digits: Vec<char> = Vec::new();
    let mut m: u64 = n;
    loop
        invariant_except_break
            m <= n,
            m > 0 ==> dec_str(n as int) == dec_str(m as int) + digits@.reverse(),
            m == 0 && digits@.len() > 0 ==> dec_str(n as int) == digits@.reverse(),
            m == 0 && digits@.len() == 0 ==> n == 0,
        ensures
            dec_str(n as int) == digits@.reverse(),
        decreases m,
    {
        if m == 0 && !digits.is_empty() {
            break;
        }
        if m == 0 {
            // n == 0: a single zero digit
            digits.push('0');
            proof {
                assert(digit_char(0) == '0');
                assert(digits@.reverse() =~= seq![digit_char(0)]);
            }
            break;
        }
        let d: u8 = (m % 10) as u8;
        let c: char = (d + 48u8) as char;
        let ghost old_digits = digits@;
        digits.push(c);
        proof {
            assert(c == digit_char(m as int % 10));
            assert(digits@.reverse() =~= seq![c] + old_digits.reverse());
        }
        let old_m = m;
        m = m / 10;
        proof {
            if m > 0 {
                // old_m >= 10, so dec_str(old_m) == dec_str(m).push(c)
                assert(dec_str(old_m as int) == dec_str(m as int).push(c));
                assert(dec_str(m as int).push(c) + old_digits.reverse() =~= dec_str(m as int)
                    + digits@.reverse());
            } else {
                // old_m < 10, so dec_str(old_m) == seq![c]
                assert(dec_str(old_m as int) == seq![digit_char(old_m as int)]);
                assert(seq![c] + old_digits.reverse() =~= digits@.reverse());
            }
        }
    }
    let mut s = String::new();
    let mut i: usize = digits.len();
    while i > 0
        invariant
            i <= digits.len(),
            s@ == digits@.subrange(i as int, digits@.len() as int).reverse(),
        decreases i,
    {
        i = i - 1;
        push_char(&mut s, digits[i]);
        proof {
            assert(s@ =~= digits@.subrange(i as int, digits@.len() as int).reverse());
        }
    }
    proof {
        assert(digits@.subrange(0, digits@.len() as int) =~= digits@);
    }
    s
}

/// The truncation used for table cells: text shorter than the budget is kept
/// whole; otherwise it is cut to the budget with a trailing ellipsis. A
/// budget too small to hold the ellipsis leaves the text unchanged.
pub open spec fn truncated(t: Seq<char>, max: int) -> Seq<char> {
    if t.len() < max {
        t
    } else if max < 3 {
        t
    } else {
        t.subrange(0, max - 3) + seq!['.', '.', '.']
    }
}

/// Truncates cell text to at most `max_length` characters, ending in an
/// ellipsis when a cut was needed.
pub fn truncate_text(text: String, max_length: u16) -> (r: String)
    ensures
        r@ == truncated(text@, max_length as int),
{
    let len = text.as_str().unicode_len();
    if len < max_length as usize {
        return text;
    }
    if max_length < 3 {
        return text;
    }
    let keep = (max_length - 3) as usize;
    let head = text.as_str().substring_char(0, keep);
    let mut r = head.to_owned();
    r.append("...");
    proof {
        reveal_strlit("...");
        assert("..."@ =~= seq!['.', '.', '.']);
        assert(r@ =~= truncated(text@, max_length as int));
    }
    r
}

/// The quote stripping applied to cell text: one leading and one trailing
/// double-quote character are removed, if present.
pub open spec fn stripped(t: Seq<char>) -> Seq<char> {
    let a = if t.len() > 0 && t[0] == '"' {
        t.subrange(1, t.len() as int)
    } else {
        t
    };
    if a.len() > 0 && a[a.len() - 1] == '"' {
        a.subrange(0, a.len() - 1)
    } else {
        a
    }
}

/// Removes a leading and a trailing double quote from cell text, if present.
pub fn strip_closing_quotes(text: &str) -> (r: String)
    ensures
        r@ == stripped(text@),
{
    let len = text.unicode_len();
    let start: usize = if len > 0 && text.get_char(0) == '"' {
        1
    } else {
        0
    };
    let end: usize = if len > start && text.get_char(len - 1) == '"' {
        len - 1
    } else {
        len
    };
    let r = text.substring_char(start, end).to_owned();
    proof {
        assert(r@ =~= stripped(text@));
    }
    r
}

} // verus!
