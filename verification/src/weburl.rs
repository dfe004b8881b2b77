//! URLs handled by their serialization.
//!
//! A URL is kept as the text that `reqwest::Url` serializes it to; each
//! operation below parses that text into a `reqwest::Url`, performs one
//! method of it and serializes the result again. The names stand for what
//! the `url` crate (re-exported by `reqwest`) computes; nothing about them
//! is proved here.

use vstd::prelude::*;

verus! {

/// A parsed URL as plain values: its serialization, its path and the
/// decoded `application/x-www-form-urlencoded` pairs of its query.
pub struct ParsedUrl {
    /// The serialization (`Url::as_str`).
    pub href: String,
    /// The path (`Url::path`).
    pub path: String,
    /// The decoded query pairs, in order (`Url::query_pairs`).
    pub query_pairs: Vec<(String, String)>,
}

/// The parts of a parsed URL: serialization, path, query pairs.
pub type UrlParts = (Seq<char>, Seq<char>, Seq<(Seq<char>, Seq<char>)>);

/// What `Url::parse` makes of a text: the parts of the parsed URL, or the
/// text of the parse error.
pub uninterp spec fn url_parse(text: Seq<char>) -> Result<UrlParts, Seq<char>>;

/// The serialization after `Url::set_path(path)`.
pub uninterp spec fn url_with_path(text: Seq<char>, path: Seq<char>) -> Seq<char>;

/// The serialization after `Url::set_query(None)`.
pub uninterp spec fn url_without_query(text: Seq<char>) -> Seq<char>;

/// The serialization after appending the pairs through `Url::query_pairs_mut`.
pub uninterp spec fn url_extend_query(
    text: Seq<char>,
    pairs: Seq<(Seq<char>, Seq<char>)>,
) -> Seq<char>;

/// What `Url::join` gives for a URL text and a reference: the joined
/// URL's serialization, or the text of the error (also the parse error of
/// a base that does not parse).
pub uninterp spec fn url_join(base: Seq<char>, reference: Seq<char>) -> Result<Seq<char>, Seq<char>>;

/// The scheme and the domain (`Url::scheme`, `Url::domain`) of a URL text
/// that parses and has a domain.
pub uninterp spec fn url_scheme_domain(text: Seq<char>) -> Option<(Seq<char>, Seq<char>)>;

impl ParsedUrl {
    /// The parts held.
    pub open spec fn parts(self) -> UrlParts {
        (self.href@, self.path@, self.query_pairs.deep_view())
    }
}

/// The parts of a parse result, or the error's text.
pub open spec fn parsed_url_view(r: Result<ParsedUrl, String>) -> Result<UrlParts, Seq<char>> {
    match r {
        Ok(url) => Ok(url.parts()),
        Err(e) => Err(e@),
    }
}

/// `Url::parse`: the parts of the parsed URL, or the error's text.
#[verifier::external_body]
pub(crate) fn parse_url(text: &str) -> (res: Result<ParsedUrl, String>)
    ensures
        parsed_url_view(res) == url_parse(text@),
{
    match reqwest::Url::parse(text) {
        Ok(url) => Ok(ParsedUrl {
            href: url.as_str().to_owned(),
            path: url.path().to_owned(),
            query_pairs: url.query_pairs().map(|(k, v)| (k.into_owned(), v.into_owned())).collect(),
        }),
        Err(error) => Err(error.to_string()),
    }
}

/// `Url::set_path`; a text that does not parse is returned unchanged.
#[verifier::external_body]
pub(crate) fn set_url_path(text: &str, path: &str) -> (res: String)
    ensures
        res@ == url_with_path(text@, path@),
{
    match reqwest::Url::parse(text) {
        Ok(mut url) => {
            url.set_path(path);
            url.into()
        },
        Err(_) => text.to_owned(),
    }
}

/// `Url::set_query(None)`; a text that does not parse is returned unchanged.
#[verifier::external_body]
pub(crate) fn clear_url_query(text: &str) -> (res: String)
    ensures
        res@ == url_without_query(text@),
{
    match reqwest::Url::parse(text) {
        Ok(mut url) => {
            url.set_query(None);
            url.into()
        },
        Err(_) => text.to_owned(),
    }
}

/// `Url::query_pairs_mut().extend_pairs(pairs)`; a text that does not parse
/// is returned unchanged.
#[verifier::external_body]
pub(crate) fn extend_url_query(text: &str, pairs: &Vec<(String, String)>) -> (res: String)
    ensures
        res@ == url_extend_query(text@, pairs.deep_view()),
{
    match reqwest::Url::parse(text) {
        Ok(mut url) => {
            url.query_pairs_mut().extend_pairs(pairs.iter());
            url.into()
        },
        Err(_) => text.to_owned(),
    }
}

/// `Url::parse(base)` then `Url::join(reference)`: the joined URL's
/// serialization, or the text of either error.
#[verifier::external_body]
pub(crate) fn join_url(base: &str, reference: &str) -> (res: Result<String, String>)
    ensures
        match res {
            Ok(u) => url_join(base@, reference@) == Ok::<Seq<char>, Seq<char>>(u@),
            Err(e) => url_join(base@, reference@) == Err::<Seq<char>, Seq<char>>(e@),
        },
{
    match reqwest::Url::parse(base) {
        Ok(url) => match url.join(reference) {
            Ok(joined) => Ok(joined.into()),
            Err(error) => Err(error.to_string()),
        },
        Err(error) => Err(error.to_string()),
    }
}

/// `Url::scheme` and `Url::domain` of a URL text; `None` when it does not
/// parse or has no domain (an IP address host, for one).
#[verifier::external_body]
pub(crate) fn scheme_and_domain(text: &str) -> (res: Option<(String, String)>)
    ensures
        match res {
            Some((scheme, domain)) => url_scheme_domain(text@) == Some((scheme@, domain@)),
            None => url_scheme_domain(text@) is None,
        },
{
    match reqwest::Url::parse(text) {
        Ok(url) => match url.domain() {
            Some(domain) => Some((url.scheme().to_owned(), domain.to_owned())),
            None => None,
        },
        Err(_) => None,
    }
}

} // verus!
