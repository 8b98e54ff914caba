//! Unicode case conversion, from the standard library.
use vstd::prelude::*;

verus! {

/// The text `str::to_lowercase` gives for `s` (Unicode lower-casing; one
/// character may become several).
pub uninterp spec fn lowercase_of(s: Seq<char>) -> Seq<char>;

/// The text `str::to_uppercase` gives for `s` (Unicode upper-casing; one
/// character may become several).
pub uninterp spec fn uppercase_of(s: Seq<char>) -> Seq<char>;

/// `str::to_lowercase`: the claim is only that its result is a function of the
/// text, named `lowercase_of`.
#[verifier::external_body]
pub(crate) fn to_lowercase(s: &str) -> (r: String)
    ensures
        r@ == lowercase_of(s@),
{
    s.to_lowercase()
}

/// `str::to_uppercase`: the claim is only that its result is a function of the
/// text, named `uppercase_of`.
#[verifier::external_body]
pub(crate) fn to_uppercase(s: &str) -> (r: String)
    ensures
        r@ == uppercase_of(s@),
{
    s.to_uppercase()
}

} // verus!
