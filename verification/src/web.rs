//! Web addresses. An address is parsed, and changed, by the `url` crate;
//! this module keeps of an address what the rest of the library reads: its
//! text, host, path and query.

use vstd::prelude::*;
use vstd::utf8::encode_utf8;

verus! {

/// What an address holds.
pub struct UrlView {
    /// The whole address, as text.
    pub href: Seq<char>,
    /// The host, where the address has one.
    pub host: Option<Seq<char>>,
    /// The path, percent-encoded as it stands in the address.
    pub path: Seq<char>,
    /// The query string without its `?`, where the address has one.
    pub query: Option<Seq<char>>,
}

/// The address that `text` parses to, if it is one.
pub uninterp spec fn parsed_url(text: Seq<char>) -> Option<UrlView>;

/// The address `href` with its path replaced by `path`.
pub uninterp spec fn url_with_path(href: Seq<char>, path: Seq<char>) -> Option<UrlView>;

/// The address `href` with its query string replaced by `query`, or taken
/// away.
pub uninterp spec fn url_with_query(href: Seq<char>, query: Option<Seq<char>>) -> Option<UrlView>;

/// The address `href` with the pair of `name` and `value` added at the end
/// of its query string.
pub uninterp spec fn url_with_query_pair(
    href: Seq<char>,
    name: Seq<char>,
    value: Seq<char>,
) -> Option<UrlView>;

/// The longest text, in bytes, that goes into a change of an address: the
/// address before the change, and each text that is written into it.
pub const URL_TEXT_LIMIT: usize = 0x0fff_ffff;

/// Whether `text` is short enough to go into a change of an address.
pub open spec fn fits_url(text: Seq<char>) -> bool {
    encode_utf8(text).len() <= URL_TEXT_LIMIT
}

/// Why a text is no address, as the `url` crate tells it.
#[verifier::external_type_specification]
#[verifier::external_body]
pub struct ExParseError(url::ParseError);

/// Why an address could not be made.
#[derive(Clone, Copy, Debug, PartialEq, Eq, Structural)]
pub enum UrlError {
    /// The text is no address.
    Invalid,
    /// A text is longer than `URL_TEXT_LIMIT`.
    TooLong,
}

/// A web address.
#[derive(Clone, Debug)]
pub struct Url {
    href: String,
    host: Option<String>,
    path: String,
    query: Option<String>,
}

impl View for Url {
    type V = UrlView;

    closed spec fn view(&self) -> UrlView {
        UrlView {
            href: self.href@,
            host: match self.host {
                Some(h) => Some(h@),
                None => None,
            },
            path: self.path@,
            query: match self.query {
                Some(q) => Some(q@),
                None => None,
            },
        }
    }
}

/// Calls `url::Url::parse`, and reads the result with `as_str`, `host_str`,
/// `path` and `query`. Believed: whether the text parses, and what these
/// four return, depends on the text alone.
#[verifier::external_body]
fn parse_url(text: &str) -> (r: Result<Url, url::ParseError>)
    ensures
        match r {
            Ok(u) => parsed_url(text@) == Some(u@),
            Err(_) => parsed_url(text@) is None,
        },
{
    let u = url::Url::parse(text)?;
    Ok(
        Url {
            href: u.as_str().to_owned(),
            host: u.host_str().map(str::to_owned),
            path: u.path().to_owned(),
            query: u.query().map(str::to_owned),
        },
    )
}

/// Calls `url::Url::parse` on `href`, then `set_path` with `path`, and reads
/// the result as `parse_url` does. Believed: the result depends on the two
/// texts alone. `set_path` fails on an address longer than `u32::MAX` bytes;
/// it writes at most three bytes for one of `path`, so the bounds leave such
/// an address out.
#[verifier::external_body]
fn set_url_path(href: &str, path: &str) -> (r: Result<Url, url::ParseError>)
    requires
        fits_url(href@),
        fits_url(path@),
    ensures
        match r {
            Ok(u) => url_with_path(href@, path@) == Some(u@),
            Err(_) => url_with_path(href@, path@) is None,
        },
{
    let mut u = url::Url::parse(href)?;
    u.set_path(path);
    Ok(
        Url {
            href: u.as_str().to_owned(),
            host: u.host_str().map(str::to_owned),
            path: u.path().to_owned(),
            query: u.query().map(str::to_owned),
        },
    )
}

/// Calls `url::Url::parse` on `href`, then `set_query` with `query`, and
/// reads the result as `parse_url` does. Believed: the result depends on
/// the two texts alone. `set_query` fails on an address longer than
/// `u32::MAX` bytes; it writes at most three bytes for one of `query`, so
/// the bounds leave such an address out.
#[verifier::external_body]
fn set_url_query(href: &str, query: Option<&str>) -> (r: Result<Url, url::ParseError>)
    requires
        fits_url(href@),
        query matches Some(q) ==> fits_url(q@),
    ensures
        match r {
            Ok(u) => url_with_query(
                href@,
                match query {
                    Some(q) => Some(q@),
                    None => None,
                },
            ) == Some(u@),
            Err(_) => url_with_query(
                href@,
                match query {
                    Some(q) => Some(q@),
                    None => None,
                },
            ) is None,
        },
{
    let mut u = url::Url::parse(href)?;
    u.set_query(query);
    Ok(
        Url {
            href: u.as_str().to_owned(),
            host: u.host_str().map(str::to_owned),
            path: u.path().to_owned(),
            query: u.query().map(str::to_owned),
        },
    )
}

/// Calls `url::Url::parse` on `href`, then `query_pairs_mut` and
/// `append_pair` with `name` and `value`, and reads the result as
/// `parse_url` does. Believed: the result depends on the three texts alone.
/// The calls fail on an address longer than `u32::MAX` bytes; they write at
/// most three bytes for one of `name` or `value`, so the bounds leave such
/// an address out.
#[verifier::external_body]
fn append_url_query_pair(href: &str, name: &str, value: &str) -> (r: Result<Url, url::ParseError>)
    requires
        fits_url(href@),
        fits_url(name@),
        fits_url(value@),
    ensures
        match r {
            Ok(u) => url_with_query_pair(href@, name@, value@) == Some(u@),
            Err(_) => url_with_query_pair(href@, name@, value@) is None,
        },
{
    let mut u = url::Url::parse(href)?;
    u.query_pairs_mut().append_pair(name, value);
    Ok(
        Url {
            href: u.as_str().to_owned(),
            host: u.host_str().map(str::to_owned),
            path: u.path().to_owned(),
            query: u.query().map(str::to_owned),
        },
    )
}

/// Whether `text` is short enough to go into a change of an address.
pub fn fits_in_url(text: &str) -> (r: bool)
    ensures
        r == fits_url(text@),
{
    text.as_bytes().len() <= URL_TEXT_LIMIT
}

/// What a change of an address gives: the changed address; or that a text
/// is too long; or that the change is not possible.
pub open spec fn url_change(fits: bool, changed: Option<UrlView>) -> Result<UrlView, UrlError> {
    if !fits {
        Err(UrlError::TooLong)
    } else {
        match changed {
            Some(u) => Ok(u),
            None => Err(UrlError::Invalid),
        }
    }
}

/// The view of the result of a change of an address.
pub open spec fn url_result_view(r: Result<Url, UrlError>) -> Result<UrlView, UrlError> {
    match r {
        Ok(u) => Ok(u@),
        Err(e) => Err(e),
    }
}

impl Url {
    /// The address that `text` writes.
    pub fn parse(text: &str) -> (r: Result<Url, UrlError>)
        ensures
            url_result_view(r) == url_change(true, parsed_url(text@)),
    {
        match parse_url(text) {
            Ok(u) => Ok(u),
            Err(_) => Err(UrlError::Invalid),
        }
    }

    /// The whole address, as text.
    pub fn as_str(&self) -> (r: &str)
        ensures
            r@ == self@.href,
    {
        self.href.as_str()
    }

    /// The host of the address.
    pub fn host_str(&self) -> (r: Option<&str>)
        ensures
            self@.host is None <==> r is None,
            r matches Some(h) ==> self@.host == Some(h@),
    {
        match &self.host {
            Some(h) => Some(h.as_str()),
            None => None,
        }
    }

    /// The path of the address, percent-encoded.
    pub fn path(&self) -> (r: &str)
        ensures
            r@ == self@.path,
    {
        self.path.as_str()
    }

    /// The query string of the address.
    pub fn query(&self) -> (r: Option<&str>)
        ensures
            self@.query is None <==> r is None,
            r matches Some(q) ==> self@.query == Some(q@),
    {
        match &self.query {
            Some(q) => Some(q.as_str()),
            None => None,
        }
    }

    /// This address with its path replaced by `path`.
    pub fn with_path(&self, path: &str) -> (r: Result<Url, UrlError>)
        ensures
            url_result_view(r) == url_change(
                fits_url(self@.href) && fits_url(path@),
                url_with_path(self@.href, path@),
            ),
    {
        if !fits_in_url(self.href.as_str()) || !fits_in_url(path) {
            return Err(UrlError::TooLong);
        }
        match set_url_path(self.href.as_str(), path) {
            Ok(u) => Ok(u),
            Err(_) => Err(UrlError::Invalid),
        }
    }

    /// This address with its query string replaced by `query`, or taken
    /// away where `query` is `None`.
    pub fn with_query(&self, query: Option<&str>) -> (r: Result<Url, UrlError>)
        ensures
            url_result_view(r) == url_change(
                fits_url(self@.href) && (query matches Some(q) ==> fits_url(q@)),
                url_with_query(
                    self@.href,
                    match query {
                        Some(q) => Some(q@),
                        None => None,
                    },
                ),
            ),
    {
        if !fits_in_url(self.href.as_str()) {
            return Err(UrlError::TooLong);
        }
        if let Some(q) = query {
            if !fits_in_url(q) {
                return Err(UrlError::TooLong);
            }
        }
        match set_url_query(self.href.as_str(), query) {
            Ok(u) => Ok(u),
            Err(_) => Err(UrlError::Invalid),
        }
    }

    /// This address with the pair of `name` and `value` added at the end of
    /// its query string.
    pub fn with_query_pair(&self, name: &str, value: &str) -> (r: Result<Url, UrlError>)
        ensures
            url_result_view(r) == url_change(
                fits_url(self@.href) && fits_url(name@) && fits_url(value@),
                url_with_query_pair(self@.href, name@, value@),
            ),
    {
        if !fits_in_url(self.href.as_str()) || !fits_in_url(name) || !fits_in_url(value) {
            return Err(UrlError::TooLong);
        }
        match append_url_query_pair(self.href.as_str(), name, value) {
            Ok(u) => Ok(u),
            Err(_) => Err(UrlError::Invalid),
        }
    }
}

} // verus!
