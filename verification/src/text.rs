//! Small trusted helpers over `std`'s string operations, for the parts
//! of the console that route commands and search the history.

use vstd::prelude::*;

verus! {

/// Relies on `str::eq` (via `==`): two string slices are equal exactly
/// when they hold the same characters.
#[verifier::external_body]
pub(crate) fn str_eq(a: &str, b: &str) -> (r: bool)
    ensures
        r <==> a@ == b@,
{
    a == b
}

/// Relies on `str::starts_with`: true exactly when `s` begins with `p`.
#[verifier::external_body]
pub(crate) fn str_starts_with(s: &str, p: &str) -> (r: bool)
    ensures
        r <==> p@.is_prefix_of(s@),
{
    s.starts_with(p)
}

/// `needle` occurs somewhere in `hay`.
pub open spec fn spec_contains_seq(hay: Seq<char>, needle: Seq<char>) -> bool {
    exists|i: int|
        0 <= i && i + needle.len() <= hay.len() && needle == #[trigger] hay.subrange(
            i,
            i + needle.len(),
        )
}

/// Relies on `str::contains`: true exactly when the needle occurs in
/// the string.
#[verifier::external_body]
pub(crate) fn str_contains(hay: &str, needle: &str) -> (r: bool)
    ensures
        r <==> spec_contains_seq(hay@, needle@),
{
    hay.contains(needle)
}

/// `a` comes before `b` (or equals it) in lexicographic character order.
pub open spec fn spec_lex_le(a: Seq<char>, b: Seq<char>) -> bool
    decreases a.len(),
{
    if a.len() == 0 {
        true
    } else if b.len() == 0 {
        false
    } else if a[0] == b[0] {
        spec_lex_le(a.drop_first(), b.drop_first())
    } else {
        a[0] < b[0]
    }
}

/// Relies on `str::le` (via `<=`): string slices order lexicographically
/// by character.
#[verifier::external_body]
pub(crate) fn str_le(a: &str, b: &str) -> (r: bool)
    ensures
        r <==> spec_lex_le(a@, b@),
{
    a <= b
}

/// Relies on `str::split_once` with a space delimiter: splits at the
/// first space — the part before it holds none — or reports that the
/// string has no space at all.
#[verifier::external_body]
pub(crate) fn split_once_space(s: &str) -> (r: Option<(String, String)>)
    ensures
        match r {
            Some(parts) => {
                &&& s@ == parts.0@ + seq![' '] + parts.1@
                &&& !parts.0@.contains(' ')
            },
            None => !s@.contains(' '),
        },
{
    s.split_once(' ').map(|(a, b)| (a.to_string(), b.to_string()))
}

} // verus!
