//! Comparing pieces of text by the characters they hold.

use vstd::prelude::*;

verus! {

/// The characters of an optional owned string.
pub open spec fn opt_string_view(text: Option<String>) -> Option<Seq<char>> {
    match text {
        Some(t) => Some(t@),
        None => None,
    }
}

/// The characters of an optional string slice.
pub open spec fn opt_str_view(text: Option<&str>) -> Option<Seq<char>> {
    match text {
        Some(t) => Some(t@),
        None => None,
    }
}

/// Whether two string slices hold the same characters.
///
/// Trusted: calls `==` of `str` (`<str as PartialEq>::eq`), which compares
/// the two slices byte by byte. Two valid UTF-8 strings have the same bytes
/// exactly when they have the same characters.
#[verifier::external_body]
pub(crate) fn same_text(a: &str, b: &str) -> (same: bool)
    ensures
        same == (a@ == b@),
{
    a == b
}

} // verus!
