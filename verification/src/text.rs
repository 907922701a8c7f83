//! Text predicates from the standard library, stated over character
//! sequences.
use vstd::prelude::*;

verus! {

/// Whether `pat` occurs in `s` as a contiguous run of characters.
pub open spec fn seq_contains(s: Seq<char>, pat: Seq<char>) -> bool {
    exists|i: int| 0 <= i && i + pat.len() <= s.len() && #[trigger] s.subrange(i, i + pat.len()) == pat
}

/// Whether `s` begins with `pat`.
pub open spec fn seq_starts_with(s: Seq<char>, pat: Seq<char>) -> bool {
    pat.len() <= s.len() && s.subrange(0, pat.len() as int) == pat
}

/// Calls `str::contains` with a text pattern. As its documentation says,
/// the answer is whether the pattern occurs in the text.
#[verifier::external_body]
pub(crate) fn str_contains(s: &str, pat: &str) -> (r: bool)
    ensures
        r == seq_contains(s@, pat@),
{
    s.contains(pat)
}

/// Calls `str::starts_with` with a text pattern. As its documentation says,
/// the answer is whether the text begins with the pattern.
#[verifier::external_body]
pub(crate) fn str_starts_with(s: &str, pat: &str) -> (r: bool)
    ensures
        r == seq_starts_with(s@, pat@),
{
    s.starts_with(pat)
}

} // verus!
