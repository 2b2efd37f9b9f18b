//! Character-level operations on strings, stated over their views.

use vstd::prelude::*;

verus! {

/// The views of a sequence of strings, in order.
pub open spec fn names(v: Seq<String>) -> Seq<Seq<char>> {
    v.map_values(|s: String| s@)
}

/// The view of an optional string.
pub open spec fn optional(o: Option<String>) -> Option<Seq<char>> {
    match o {
        Some(s) => Some(s@),
        None => None,
    }
}

/// `s` without its last `n` characters; `s` itself where it is shorter than `n`.
pub open spec fn without_last(s: Seq<char>, n: nat) -> Seq<char> {
    if n <= s.len() {
        s.subrange(0, s.len() - n)
    } else {
        s
    }
}

/// The characters of `s`, in order.
pub fn chars_of(s: &str) -> (v: Vec<char>)
    ensures
        v@ == s@,
{
    let mut v: Vec<char> = Vec::new();
    for c in it: s.chars()
        invariant
            v@ == it.seq().take(it.index() as int),
            it.seq() == s@,
    {
        v.push(c);
    }
    v
}

/// Whether `x` holds, from position `at` on, the characters of `y` and then ends or goes on.
fn matches_at(x: &Vec<char>, at: usize, y: &Vec<char>) -> (r: bool)
    requires
        at + y.len() <= x.len(),
    ensures
        r == (x@.subrange(at as int, at + y.len()) == y@),
{
    let mut i: usize = 0;
    while i < y.len()
        invariant
            at + y.len() <= x.len(),
            i <= y.len(),
            forall|j: int| 0 <= j < i ==> x@[at + j] == y@[j],
        decreases y.len() - i,
    {
        if x[at + i] != y[i] {
            assert(x@.subrange(at as int, at + y.len())[i as int] != y@[i as int]);
            return false;
        }
        i += 1;
    }
    assert(x@.subrange(at as int, at + y.len()) =~= y@);
    true
}

/// Whether two vectors hold the same characters.
pub fn same_chars(x: &Vec<char>, y: &Vec<char>) -> (r: bool)
    ensures
        r == (x@ == y@),
{
    if x.len() != y.len() {
        return false;
    }
    assert(x@.subrange(0, y.len() as int) =~= x@);
    matches_at(x, 0, y)
}

/// Whether two strings hold the same characters.
pub fn same(a: &str, b: &str) -> (r: bool)
    ensures
        r == (a@ == b@),
{
    let x = chars_of(a);
    let y = chars_of(b);
    same_chars(&x, &y)
}

/// Whether `s` begins with `prefix`.
pub fn starts_with(s: &str, prefix: &str) -> (r: bool)
    ensures
        r == prefix@.is_prefix_of(s@),
{
    let x = chars_of(s);
    let y = chars_of(prefix);
    if y.len() > x.len() {
        return false;
    }
    matches_at(&x, 0, &y)
}

/// Whether `s` ends with `suffix`.
pub fn ends_with(s: &str, suffix: &str) -> (r: bool)
    ensures
        r == suffix@.is_suffix_of(s@),
{
    let x = chars_of(s);
    let y = chars_of(suffix);
    if y.len() > x.len() {
        return false;
    }
    matches_at(&x, x.len() - y.len(), &y)
}

/// `a` followed by `b`.
pub fn followed(a: &str, b: &str) -> (r: String)
    ensures
        r@ == a@ + b@,
{
    a.to_owned().concat(b)
}

/// `s` without its last `n` characters; `s` itself where it is shorter than `n`.
pub fn drop_last_chars(s: &str, n: usize) -> (r: String)
    ensures
        r@ == without_last(s@, n as nat),
{
    let len = s.unicode_len();
    if n <= len {
        s.substring_char(0, len - n).to_owned()
    } else {
        s.to_owned()
    }
}

/// The position of the last `c` in `s`, if there is one.
pub fn last_position(s: &str, c: char) -> (r: Option<usize>)
    ensures
        match r {
            Some(i) => i < s@.len() && s@[i as int] == c && forall|j: int|
                i < j < s@.len() ==> s@[j] != c,
            None => !s@.contains(c),
        },
{
    let x = chars_of(s);
    let mut i: usize = x.len();
    while i > 0
        invariant
            i <= x.len(),
            x@ == s@,
            forall|j: int| i <= j < x.len() ==> x@[j] != c,
        decreases i,
    {
        i -= 1;
        if x[i] == c {
            return Some(i);
        }
    }
    None
}

} // verus!
