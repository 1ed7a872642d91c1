//! Small text operations the engine leans on, each a thin layer over one
//! function of `str`.

use vstd::prelude::*;

verus! {

/// What `str::trim` leaves of a string: the characters with leading and
/// trailing whitespace removed. Determined by the characters alone.
pub uninterp spec fn spec_trim(s: Seq<char>) -> Seq<char>;

/// What `str::to_lowercase` makes of a string. Determined by the
/// characters alone.
pub uninterp spec fn spec_lower(s: Seq<char>) -> Seq<char>;

/// `needle` occurs contiguously somewhere in `haystack`.
pub open spec fn spec_contains_str(haystack: Seq<char>, needle: Seq<char>) -> bool {
    exists|i: int|
        0 <= i <= haystack.len() - needle.len() && #[trigger] haystack.subrange(
            i,
            i + needle.len(),
        ) == needle
}

/// Relies on `str`'s `PartialEq`: true exactly when the two strings hold
/// the same characters.
#[verifier::external_body]
pub(crate) fn str_eq(a: &str, b: &str) -> (r: bool)
    ensures
        r == (a@ == b@),
{
    a == b
}

/// Relies on `str::trim`: whitespace is removed from both ends, so the
/// result is determined by the input, is never longer, and is empty when
/// the input is. Being an actual string in memory, its UTF-8 encoding
/// fits a `usize`.
#[verifier::external_body]
pub(crate) fn trimmed(s: &str) -> (r: String)
    ensures
        r@ == spec_trim(s@),
        r@.len() <= s@.len(),
        s@.len() == 0 ==> r@.len() == 0,
        vstd::utf8::encode_utf8(r@).len() <= usize::MAX,
{
    s.trim().to_owned()
}

/// Relies on `str::to_lowercase`: the result depends on the characters
/// alone, and is empty exactly when the input is.
#[verifier::external_body]
pub(crate) fn lowercase(s: &str) -> (r: String)
    ensures
        r@ == spec_lower(s@),
        s@.len() == 0 <==> r@.len() == 0,
{
    s.to_lowercase()
}

/// Relies on `str::contains` with a string pattern: substring containment.
#[verifier::external_body]
pub(crate) fn str_contains(haystack: &str, needle: &str) -> (r: bool)
    ensures
        r == spec_contains_str(haystack@, needle@),
{
    haystack.contains(needle)
}

} // verus!
