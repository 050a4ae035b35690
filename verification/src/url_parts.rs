//! The parts of a URL that the validator reads, as plain values, and the
//! one place where the `url` crate is asked to parse.

use vstd::prelude::*;
use crate::text::{opt_view, pairs_view};

verus! {

/// What the validator reads of a parsed URL.
#[derive(Debug, Clone, PartialEq, Eq)]
pub struct UrlParts {
    /// The scheme without its colon, in lower case.
    pub scheme: String,
    /// The host as the URL serialises it, or `None` where the URL has none.
    pub host: Option<String>,
    /// The path, percent-encoded as the URL serialises it.
    pub path: String,
    /// The pairs of the query string, each key and value decoded, in the
    /// order in which the query holds them.
    pub query: Vec<(String, String)>,
    /// The port, or `None` where the URL names none or names the default
    /// port of its scheme.
    pub port: Option<u16>,
}

/// The mathematical value of a [`UrlParts`].
pub struct UrlPartsView {
    pub scheme: Seq<char>,
    pub host: Option<Seq<char>>,
    pub path: Seq<char>,
    pub query: Seq<(Seq<char>, Seq<char>)>,
    pub port: Option<u16>,
}

impl View for UrlParts {
    type V = UrlPartsView;

    open spec fn view(&self) -> UrlPartsView {
        UrlPartsView {
            scheme: self.scheme@,
            host: opt_view(self.host),
            path: self.path@,
            query: pairs_view(self.query@),
            port: self.port,
        }
    }
}

/// The mathematical value of an optional [`UrlParts`].
pub open spec fn parts_view(parts: Option<UrlParts>) -> Option<UrlPartsView> {
    match parts {
        Some(p) => Some(p@),
        None => None,
    }
}

/// What `url::Url::parse` makes of `input`: the parts of the URL, or `None`
/// where it rejects the text.
pub uninterp spec fn parsed_url(input: Seq<char>) -> Option<UrlPartsView>;

/// Parses `input` with `url::Url::parse` and copies out the parts that the
/// validator reads: `scheme`, `host_str`, `path`, the decoded `query_pairs`
/// and `port`. Nothing is claimed of the parts
/// but that they are a function of the text: the result is `parsed_url` of
/// it, `None` exactly where the parser returns an error.
#[verifier::external_body]
pub(crate) fn parse_url(input: &str) -> (r: Option<UrlParts>)
    ensures
        parts_view(r) == parsed_url(input@),
{
    match url::Url::parse(input) {
        Ok(u) => Some(UrlParts {
            scheme: u.scheme().to_string(),
            host: u.host_str().map(|h| h.to_string()),
            path: u.path().to_string(),
            query: u.query_pairs().map(|(k, v)| (k.into_owned(), v.into_owned())).collect(),
            port: u.port(),
        }),
        Err(_) => None,
    }
}

} // verus!
