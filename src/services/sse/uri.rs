//! Url validation, delegated to the `http` crate's URI parser.
use vstd::prelude::*;

verus! {

/// The text of the URI that `http` parses out of `s`, or `None` where `s`
/// is not a URI.
pub uninterp spec fn uri_text(s: Seq<char>) -> Option<Seq<char>>;

/// Relies on `http::Uri`'s `FromStr` to parse `s` and on its `Display` to
/// write the parsed URI back as text. An empty string is refused by the
/// parser (`ErrorKind::Empty`).
#[verifier::external_body]
pub(crate) fn parse_uri(s: &str) -> (r: Option<String>)
    ensures
        match r {
            Some(t) => uri_text(s@) == Some(t@),
            None => uri_text(s@) is None,
        },
        s@.len() == 0 ==> r is None,
{
    s.parse::<http::Uri>().ok().map(|u| u.to_string())
}

} // verus!
