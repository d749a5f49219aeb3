//! Comparisons of header names and method tokens.
use vstd::prelude::*;

verus! {

pub open spec fn is_ascii_upper(c: char) -> bool {
    'A' <= c && c <= 'Z'
}

pub open spec fn is_ascii_lower(c: char) -> bool {
    'a' <= c && c <= 'z'
}

/// Two characters are equal when ASCII letters are compared without case.
pub open spec fn char_eq_ignore_case(x: char, y: char) -> bool {
    x == y || (is_ascii_upper(x) && y as u32 == x as u32 + 32) || (is_ascii_upper(y) && x as u32
        == y as u32 + 32)
}

/// `a` and `b` are equal when ASCII letters are compared without case.
pub open spec fn eq_ignore_case(a: Seq<char>, b: Seq<char>) -> bool {
    a.len() == b.len() && forall|i: int| 0 <= i < a.len() ==> char_eq_ignore_case(#[trigger] a[i], b[i])
}

pub fn text_eq(a: &str, b: &str) -> (r: bool)
    ensures
        r == (a@ == b@),
{
    let n = a.unicode_len();
    if n != b.unicode_len() {
        return false;
    }
    let mut i: usize = 0;
    while i < n
        invariant
            n == a@.len(),
            n == b@.len(),
            i <= n,
            forall|j: int| 0 <= j < i ==> a@[j] == b@[j],
        decreases n - i,
    {
        if a.get_char(i) != b.get_char(i) {
            return false;
        }
        i = i + 1;
    }
    assert(a@ =~= b@);
    true
}

pub fn text_eq_ignore_case(a: &str, b: &str) -> (r: bool)
    ensures
        r == eq_ignore_case(a@, b@),
{
    let n = a.unicode_len();
    if n != b.unicode_len() {
        return false;
    }
    let mut i: usize = 0;
    while i < n
        invariant
            n == a@.len(),
            n == b@.len(),
            i <= n,
            forall|j: int| 0 <= j < i ==> char_eq_ignore_case(a@[j], b@[j]),
        decreases n - i,
    {
        let x = a.get_char(i);
        let y = b.get_char(i);
        let same = x == y || ('A' <= x && x <= 'Z' && y as u32 == x as u32 + 32) || ('A' <= y && y
            <= 'Z' && x as u32 == y as u32 + 32);
        if !same {
            return false;
        }
        i = i + 1;
    }
    true
}

pub open spec fn char_code(c: char) -> u32 {
    c as u32
}

/// `s` with every ASCII lower-case letter made upper case.
pub open spec fn ascii_upper(s: Seq<char>) -> Seq<char> {
    s.map_values(
        |c: char|
            if is_ascii_lower(c) {
                choose|u: char| #[trigger] char_code(u) == c as u32 - 32
            } else {
                c
            },
    )
}

/// Relies on str::to_ascii_uppercase: each ASCII lower-case letter becomes
/// upper case, every other character stays.
#[verifier::external_body]
pub(crate) fn ascii_uppercase(s: &str) -> (r: String)
    ensures
        r@ == ascii_upper(s@),
{
    s.to_ascii_uppercase()
}

} // verus!
