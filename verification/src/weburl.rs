//! Parsing URLs, through the `url` crate.

use vstd::prelude::*;

verus! {

/// The parts of a parsed URL that the rules read.
#[derive(Debug, Clone, PartialEq, Eq)]
pub struct UrlParts {
    /// `Url::scheme`, e.g. `https`.
    pub scheme: String,
    /// `Url::host_str`.
    pub host: Option<String>,
    /// The URL as the crate serializes it (`Url::to_string`).
    pub text: String,
    /// `Url::path`.
    pub path: String,
    /// `Url::query_pairs`, percent-decoded, in order.
    pub query: Vec<(String, String)>,
}

/// The same parts, as values.
pub struct UrlPartsView {
    pub scheme: Seq<char>,
    pub host: Option<Seq<char>>,
    pub text: Seq<char>,
    pub path: Seq<char>,
    pub query: Seq<(Seq<char>, Seq<char>)>,
}

impl View for UrlParts {
    type V = UrlPartsView;

    open spec fn view(&self) -> UrlPartsView {
        UrlPartsView {
            scheme: self.scheme@,
            host: match self.host {
                Some(h) => Some(h@),
                None => None,
            },
            text: self.text@,
            path: self.path@,
            query: self.query@.map_values(|p: (String, String)| (p.0@, p.1@)),
        }
    }
}

/// What `Url::parse` makes of `input`, or `None` when it refuses it.
pub uninterp spec fn parsed_url(input: Seq<char>) -> Option<UrlPartsView>;

/// `url::Url::parse`, with the parts the rules read copied out.
#[verifier::external_body]
pub(crate) fn parse_url(input: &str) -> (r: Option<UrlParts>)
    ensures
        match r {
            Some(p) => parsed_url(input@) == Some(p@),
            None => parsed_url(input@) is None,
        },
{
    let u = url::Url::parse(input).ok()?;
    Some(UrlParts {
        scheme: u.scheme().to_string(),
        host: u.host_str().map(|h| h.to_string()),
        text: u.to_string(),
        path: u.path().to_string(),
        query: u.query_pairs().map(|(k, v)| (k.into_owned(), v.into_owned())).collect(),
    })
}

} // verus!
