//! Addresses of the web, in the canonical form that the `url` crate gives
//! them.

use crate::text::text_view;
use vstd::prelude::*;

verus! {

/// What `url::Url::parse` makes of a text: the serialization of the URL it
/// reads from it, or nothing where it reads none.
pub uninterp spec fn url_canonical(text: Seq<char>) -> Option<Seq<char>>;

/// Parses `text` as an absolute URL and gives its serialization.
///
/// Wraps `url::Url::parse`. The contract gives the outcome its name,
/// [`url_canonical`], and claims nothing else of it.
#[verifier::external_body]
fn parse_url(text: &str) -> (canonical: Option<String>)
    ensures
        text_view(canonical) == url_canonical(text@),
{
    match url::Url::parse(text) {
        Ok(parsed) => Some(String::from(parsed)),
        Err(_) => None,
    }
}

/// The canonical form of the URL that `text` spells, if it spells one.
pub fn canonical_url(text: &str) -> (canonical: Option<String>)
    ensures
        text_view(canonical) == url_canonical(text@),
{
    parse_url(text)
}

} // verus!
