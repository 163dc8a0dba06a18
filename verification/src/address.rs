//! Addresses of textures.
use vstd::prelude::*;

verus! {

/// The normal form in which the `url` crate writes an absolute URL that it has
/// read from `text`; `None` where it does not accept `text` as one.
pub uninterp spec fn normalized(text: Seq<char>) -> Option<Seq<char>>;

/// Calls `Url::parse` and writes the URL out again. The outcome is named
/// [`normalized`]: it depends on the text alone.
#[verifier::external_body]
pub(crate) fn normalize(text: &str) -> (out: Option<String>)
    ensures
        crate::json::text_of(out) == normalized(text@),
{
    url::Url::parse(text).ok().map(|address| address.to_string())
}

} // verus!
