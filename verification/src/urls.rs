//! URLs as the panel stores them: the text form that the URL parser gives,
//! and their host.

use vstd::prelude::*;

verus! {

/// What `reqwest::Url::parse` makes of a text: the URL's text form, or
/// the parser's message where the text is no URL.
pub uninterp spec fn url_parsed(text: Seq<char>) -> Result<Seq<char>, Seq<char>>;

/// The text form of a URL once parsed, or `None` where the text is no URL.
pub open spec fn url_normalized(text: Seq<char>) -> Option<Seq<char>> {
    match url_parsed(text) {
        Ok(u) => Some(u),
        Err(_) => None,
    }
}

/// The host part of a URL (`reqwest::Url::parse`, then `host_str`), or
/// `None` where the text is no URL or the URL has no host.
pub uninterp spec fn url_host(url: Seq<char>) -> Option<Seq<char>>;

/// Parses `text` as a URL and gives its text form, or the parser's
/// message.
///
/// Claims only that the result is the parser's, named `url_parsed`; how
/// URLs are parsed and written, and the wording of the message, are left
/// to the crate.
#[verifier::external_body]
pub(crate) fn normalize_url(text: &str) -> (r: Result<String, String>)
    ensures
        match r {
            Ok(u) => url_parsed(text@) == Ok::<Seq<char>, Seq<char>>(u@),
            Err(m) => url_parsed(text@) == Err::<Seq<char>, Seq<char>>(m@),
        },
{
    match reqwest::Url::parse(text) {
        Ok(u) => Ok(u.to_string()),
        Err(e) => Err(e.to_string()),
    }
}

/// The host of the URL `url`, where it parses and has one.
///
/// Claims only that the result is what `reqwest::Url::parse` and
/// `host_str` give for this text, named `url_host`.
#[verifier::external_body]
pub(crate) fn host_of_url(url: &str) -> (r: Option<String>)
    ensures
        match r {
            Some(h) => url_host(url@) == Some(h@),
            None => url_host(url@) is None,
        },
{
    match reqwest::Url::parse(url) {
        Ok(u) => match u.host_str() {
            Some(h) => Some(h.to_owned()),
            None => None,
        },
        Err(_) => None,
    }
}

/// The text form of the URL `url` with its path replaced by `path`
/// (`reqwest::Url::parse`, `set_path`, then its serialization), or `None`
/// where `url` is no URL.
pub uninterp spec fn url_with_path(url: Seq<char>, path: Seq<char>) -> Option<Seq<char>>;

/// Replaces the path of the URL `url` with `path`.
///
/// Claims only that the result is what `reqwest::Url::parse`, `set_path`
/// and the URL's text form give for these texts, named `url_with_path`.
#[verifier::external_body]
pub(crate) fn replace_url_path(url: &str, path: &str) -> (r: Option<String>)
    ensures
        match r {
            Some(u) => url_with_path(url@, path@) == Some(u@),
            None => url_with_path(url@, path@) is None,
        },
{
    match reqwest::Url::parse(url) {
        Ok(mut u) => {
            u.set_path(path);
            Some(u.to_string())
        },
        Err(_) => None,
    }
}

/// Tests that `text` is a URL.
pub fn is_url(text: &str) -> (r: bool)
    ensures
        r == url_normalized(text@) is Some,
{
    normalize_url(text).is_ok()
}

} // verus!
