//! What counts as an identifier.
//!
//! A generated name has to be one: the token that carries it cannot be made
//! of any other text. The rule is the one by which `proc-macro2` itself
//! admits the text of an identifier, with the mark `r#` for a raw one as
//! `quote` reads it. Inside a procedural macro the compiler decides, by the
//! same Unicode properties in the tables of its own version.

use vstd::prelude::*;

use crate::syntax::{is_xid_continue, is_xid_start, xid_continue, xid_start};

verus! {

/// Whether `c` is one of the digits `0` to `9`.
pub open spec fn ascii_digit(c: char) -> bool {
    48 <= c as u32 <= 57
}

/// Whether `s` holds digits only.
pub open spec fn all_digits(s: Seq<char>) -> bool {
    forall|i: int| 0 <= i < s.len() ==> ascii_digit(#[trigger] s[i])
}

/// Whether an identifier can start with `c`.
pub open spec fn ident_start(c: char) -> bool {
    c == '_' || xid_start(c)
}

/// Whether `s` is an identifier without the mark of a raw one: not empty, not
/// a number, a start character and then continue characters only.
pub open spec fn plain_identifier(s: Seq<char>) -> bool {
    &&& s.len() > 0
    &&& !all_digits(s)
    &&& ident_start(s[0])
    &&& forall|i: int| 1 <= i < s.len() ==> xid_continue(#[trigger] s[i])
}

/// Whether `s` is one of the words that cannot be raw identifiers.
pub open spec fn never_raw(s: Seq<char>) -> bool {
    s == "_"@ || s == "super"@ || s == "self"@ || s == "Self"@ || s == "crate"@
}

/// Whether `s` starts with `r#`, the mark of a raw identifier.
pub open spec fn has_raw_mark(s: Seq<char>) -> bool {
    s.len() >= 2 && s[0] == 'r' && s[1] == '#'
}

/// Whether `s` is an identifier: a plain one, or `r#` and a plain one that
/// can be raw.
pub open spec fn identifier(s: Seq<char>) -> bool {
    if has_raw_mark(s) {
        plain_identifier(s.subrange(2, s.len() as int)) && !never_raw(s.subrange(2, s.len() as int))
    } else {
        plain_identifier(s)
    }
}

fn is_ascii_digit(c: char) -> (r: bool)
    ensures
        r == ascii_digit(c),
{
    let code = c as u32;
    48 <= code && code <= 57
}

/// Tests whether `s` is an identifier without the mark of a raw one.
pub fn is_plain_identifier(s: &str) -> (r: bool)
    ensures
        r == plain_identifier(s@),
{
    let n = s.unicode_len();
    if n == 0 {
        return false;
    }
    let first = s.get_char(0);
    if !(first == '_' || is_xid_start(first)) {
        return false;
    }
    let mut digits = is_ascii_digit(first);
    let mut i: usize = 1;
    while i < n
        invariant
            1 <= i <= n,
            n == s@.len(),
            digits == (forall|j: int| 0 <= j < i ==> ascii_digit(#[trigger] s@[j])),
            forall|j: int| 1 <= j < i ==> xid_continue(#[trigger] s@[j]),
        decreases n - i,
    {
        let c = s.get_char(i);
        if !is_xid_continue(c) {
            return false;
        }
        let digit = is_ascii_digit(c);
        proof {
            if digits && digit {
                assert forall|j: int| 0 <= j < i + 1 implies ascii_digit(#[trigger] s@[j]) by {
                    if j == i {
                    }
                }
            }
        }
        digits = digits && digit;
        i = i + 1;
    }
    !digits
}

/// Tests whether `s` is one of the words that cannot be raw identifiers.
fn is_never_raw(s: &str) -> (r: bool)
    ensures
        r == never_raw(s@),
{
    let word = String::from_str(s);
    word == String::from_str("_") || word == String::from_str("super") || word == String::from_str(
        "self",
    ) || word == String::from_str("Self") || word == String::from_str("crate")
}

/// Tests whether `s` is an identifier.
pub fn is_identifier(s: &str) -> (r: bool)
    ensures
        r == identifier(s@),
{
    let n = s.unicode_len();
    if n >= 2 && s.get_char(0) == 'r' && s.get_char(1) == '#' {
        let rest = s.substring_char(2, n);
        is_plain_identifier(rest) && !is_never_raw(rest)
    } else {
        is_plain_identifier(s)
    }
}

} // verus!
