//! Structured URLs: the engine reads only a URL's host domain and path,
//! so a URL is held as those two plain values. Parsing a textual URL
//! into this shape is delegated to the `url` crate.

use vstd::prelude::*;

verus! {

/// An absolute URL, reduced to the two components the engine reads:
/// the host domain (identity of the owning instance) and the path
/// (identity of the object within that instance).
#[derive(Debug, PartialEq)]
pub struct Url {
    pub domain: String,
    pub path: String,
}

impl Url {
    /// Two URLs denote the same object exactly when both components match.
    pub open spec fn same_as(&self, other: &Url) -> bool {
        self.domain@ == other.domain@ && self.path@ == other.path@
    }

    /// Structural equality of two URLs.
    pub fn matches(&self, other: &Url) -> (r: bool)
        ensures
            r == self.same_as(other),
    {
        self.domain == other.domain && self.path == other.path
    }
}

impl Clone for Url {
    fn clone(&self) -> (r: Self)
        ensures
            r == *self,
    {
        Url { domain: self.domain.clone(), path: self.path.clone() }
    }
}

/// Whether the `url` crate accepts `s` as an absolute URL with a host.
pub uninterp spec fn url_parses(s: Seq<char>) -> bool;

/// The host string the `url` crate extracts from `s`.
pub uninterp spec fn url_host_of(s: Seq<char>) -> Seq<char>;

/// The path string the `url` crate extracts from `s`.
pub uninterp spec fn url_path_of(s: Seq<char>) -> Seq<char>;

/// Relies on `url::Url::parse` together with its accessors
/// `url::Url::host_str` and `url::Url::path`: parsing either fails, or
/// yields a host and a path that depend on the input text alone.
#[verifier::external_body]
fn parse_url_parts(s: &str) -> (r: Option<(String, String)>)
    ensures
        r is Some <==> url_parses(s@),
        r matches Some(hp) ==> hp.0@ == url_host_of(s@) && hp.1@ == url_path_of(s@),
{
    match url::Url::parse(s) {
        Ok(u) => match u.host_str() {
            Some(h) => Some((h.to_owned(), u.path().to_owned())),
            None => None,
        },
        Err(_) => None,
    }
}

/// Parse a textual absolute URL into its structured form, or `None`
/// where the text is not an absolute URL with a host.
pub fn parse_url(s: &str) -> (r: Option<Url>)
    ensures
        r is Some <==> url_parses(s@),
        r matches Some(u) ==> u.domain@ == url_host_of(s@) && u.path@ == url_path_of(s@),
{
    match parse_url_parts(s) {
        Some((domain, path)) => Some(Url { domain, path }),
        None => None,
    }
}

} // verus!
