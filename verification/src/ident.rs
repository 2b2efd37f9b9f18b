//! Which names can be offered as named exports.

use vstd::prelude::*;
use crate::text::chars_of;

verus! {

/// Whether `c` may start an identifier: an ASCII letter, `_` or `$`.
pub open spec fn is_identifier_start(c: char) -> bool {
    ('a' <= c && c <= 'z') || ('A' <= c && c <= 'Z') || c == '_' || c == '$'
}

/// Whether `c` is an ASCII digit.
pub open spec fn is_identifier_digit(c: char) -> bool {
    '0' <= c && c <= '9'
}

/// Whether `c` may follow the first character of an identifier.
pub open spec fn is_identifier_part(c: char) -> bool {
    is_identifier_start(c) || is_identifier_digit(c)
}

/// Whether `s` is an identifier: not empty, a letter, `_` or `$` first, then
/// letters, digits, `_` and `$` only.
pub open spec fn is_identifier(s: Seq<char>) -> bool {
    &&& s.len() > 0
    &&& is_identifier_start(s[0])
    &&& forall|i: int| 1 <= i < s.len() ==> is_identifier_part(#[trigger] s[i])
}

/// Whether `c` is an ASCII letter, `_` or `$`.
pub fn is_alphabetic(c: char) -> (r: bool)
    ensures
        r == is_identifier_start(c),
{
    ('a' <= c && c <= 'z') || ('A' <= c && c <= 'Z') || c == '_' || c == '$'
}

/// Whether `c` is an ASCII digit.
pub fn is_numberic(c: char) -> (r: bool)
    ensures
        r == is_identifier_digit(c),
{
    '0' <= c && c <= '9'
}

/// Whether `s` is an identifier.
pub fn is_js_identifier(s: &str) -> (r: bool)
    ensures
        r == is_identifier(s@),
{
    let chars = chars_of(s);
    if chars.len() == 0 {
        return false;
    }
    if !is_alphabetic(chars[0]) {
        return false;
    }
    let mut i: usize = 1;
    while i < chars.len()
        invariant
            1 <= i <= chars.len(),
            chars@ == s@,
            forall|j: int| 1 <= j < i ==> is_identifier_part(#[trigger] chars@[j]),
        decreases chars.len() - i,
    {
        let c = chars[i];
        if !is_alphabetic(c) && !is_numberic(c) {
            return false;
        }
        i += 1;
    }
    true
}

} // verus!
