//! Text predicates over character sequences, and the standard string
//! functions that compute them.

use vstd::prelude::*;

verus! {

/// `needle` occurs in `text` as a run of consecutive characters.
pub open spec fn occurs_in(needle: Seq<char>, text: Seq<char>) -> bool {
    exists|i: int|
        0 <= i && i + needle.len() <= text.len() && #[trigger] text.subrange(
            i,
            i + needle.len(),
        ) == needle
}

/// `a` stands before `b` in the order of strings: at the first place where
/// they differ `a` has the smaller code point, or `a` ends there and `b` goes
/// on.
pub open spec fn text_precedes(a: Seq<char>, b: Seq<char>) -> bool
    decreases a.len(),
{
    if b.len() == 0 {
        false
    } else if a.len() == 0 {
        true
    } else if a[0] == b[0] {
        text_precedes(a.drop_first(), b.drop_first())
    } else {
        (a[0] as u32) < (b[0] as u32)
    }
}

/// The lower-case form of a text, as `str::to_lowercase` computes it from the
/// Unicode case tables. The tables are not restated here.
pub uninterp spec fn lowercase(text: Seq<char>) -> Seq<char>;

/// Trusted: `str::eq`. Two string slices are equal exactly when they hold the
/// same characters.
#[verifier::external_body]
pub(crate) fn same_text(a: &str, b: &str) -> (r: bool)
    ensures
        r == (a@ == b@),
{
    a == b
}

/// Trusted: `str::lt`. String slices are ordered place by place by their
/// bytes, which is the order of their code points.
#[verifier::external_body]
pub(crate) fn text_less(a: &str, b: &str) -> (r: bool)
    ensures
        r == text_precedes(a@, b@),
{
    a < b
}

/// Trusted: `str::ends_with` with a string pattern. It answers whether the
/// pattern is a suffix of the slice.
#[verifier::external_body]
pub(crate) fn ends_with(text: &str, suffix: &str) -> (r: bool)
    ensures
        r == suffix@.is_suffix_of(text@),
{
    text.ends_with(suffix)
}

/// Trusted: `str::contains` with a string pattern. It answers whether the
/// pattern matches a sub-slice of the slice.
#[verifier::external_body]
pub(crate) fn contains(text: &str, needle: &str) -> (r: bool)
    ensures
        r == occurs_in(needle@, text@),
{
    text.contains(needle)
}

/// Trusted: `str::to_lowercase`. The result is named by [`lowercase`]; nothing
/// else is claimed of it.
#[verifier::external_body]
pub(crate) fn to_lowercase(text: &str) -> (r: String)
    ensures
        r@ == lowercase(text@),
{
    text.to_lowercase()
}

} // verus!
