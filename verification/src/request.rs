//! A plain description of an outgoing HTTP request: what signing reads of it.

use crate::error::SignError;
use crate::text::{ascii_lower, ascii_lowercase};
use crate::web::{
    fits_url, url_change, url_with_path, url_with_query, url_with_query_pair, Url, UrlView,
};
use vstd::prelude::*;

verus! {

/// An HTTP request method.
#[derive(Debug)]
pub enum Method {
    Options,
    Get,
    Post,
    Put,
    Delete,
    Head,
    Trace,
    Connect,
    Patch,
    /// A method that is none of the standard ones, by its verb.
    Extension(String),
}

impl View for Method {
    type V = Seq<char>;

    /// The verb of the method, as it is written in a request line.
    open spec fn view(&self) -> Seq<char> {
        match self {
            Method::Options => "OPTIONS"@,
            Method::Get => "GET"@,
            Method::Post => "POST"@,
            Method::Put => "PUT"@,
            Method::Delete => "DELETE"@,
            Method::Head => "HEAD"@,
            Method::Trace => "TRACE"@,
            Method::Connect => "CONNECT"@,
            Method::Patch => "PATCH"@,
            Method::Extension(verb) => verb@,
        }
    }
}

impl Clone for Method {
    fn clone(&self) -> (r: Self)
        ensures
            r == *self,
    {
        match self {
            Method::Options => Method::Options,
            Method::Get => Method::Get,
            Method::Post => Method::Post,
            Method::Put => Method::Put,
            Method::Delete => Method::Delete,
            Method::Head => Method::Head,
            Method::Trace => Method::Trace,
            Method::Connect => Method::Connect,
            Method::Patch => Method::Patch,
            Method::Extension(verb) => Method::Extension(verb.clone()),
        }
    }
}

impl Method {
    /// The verb of the method.
    pub fn as_str(&self) -> (verb: &str)
        ensures
            verb@ == self@,
    {
        match self {
            Method::Options => "OPTIONS",
            Method::Get => "GET",
            Method::Post => "POST",
            Method::Put => "PUT",
            Method::Delete => "DELETE",
            Method::Head => "HEAD",
            Method::Trace => "TRACE",
            Method::Connect => "CONNECT",
            Method::Patch => "PATCH",
            Method::Extension(verb) => verb.as_str(),
        }
    }
}

/// One header of a request: its name, and its value as the bytes on the wire.
#[derive(Clone, Debug)]
pub struct Header {
    pub name: String,
    pub value: Vec<u8>,
}

impl DeepView for Header {
    type V = (Seq<char>, Seq<u8>);

    open spec fn deep_view(&self) -> (Seq<char>, Seq<u8>) {
        (self.name@, self.value@)
    }
}

impl Header {
    /// The header `name` with the value `value`.
    pub fn new(name: &str, value: &[u8]) -> (h: Header)
        ensures
            h.name@ == name@,
            h.value@ == value@,
    {
        Header { name: name.to_owned(), value: vstd::slice::slice_to_vec(value) }
    }
}

/// Whether two header names are the same name: whether they are equal but
/// for the case of their ASCII letters.
pub open spec fn same_name(a: Seq<char>, b: Seq<char>) -> bool {
    ascii_lower(a) == ascii_lower(b)
}

/// The value of the first header of `headers` with the name `name`.
pub open spec fn find_header(headers: Seq<(Seq<char>, Seq<u8>)>, name: Seq<char>) -> Option<Seq<u8>>
    decreases headers.len(),
{
    if headers.len() == 0 {
        None
    } else if same_name(headers[0].0, name) {
        Some(headers[0].1)
    } else {
        find_header(headers.drop_first(), name)
    }
}

/// The headers of `headers` that do not have the name `name`, in order.
pub open spec fn without_header(headers: Seq<(Seq<char>, Seq<u8>)>, name: Seq<char>) -> Seq<
    (Seq<char>, Seq<u8>),
>
    decreases headers.len(),
{
    if headers.len() == 0 {
        Seq::empty()
    } else {
        let rest = without_header(headers.drop_last(), name);
        if same_name(headers.last().0, name) {
            rest
        } else {
            rest.push(headers.last())
        }
    }
}

/// `headers` after the header `name` is set to `value`: without the headers
/// that had that name, and with the new header at the end.
pub open spec fn with_header(
    headers: Seq<(Seq<char>, Seq<u8>)>,
    name: Seq<char>,
    value: Seq<u8>,
) -> Seq<(Seq<char>, Seq<u8>)> {
    without_header(headers, name).push((name, value))
}

/// Whether `a` and `b` are the same header name.
pub fn is_same_name(a: &str, b: &str) -> (r: bool)
    ensures
        r == same_name(a@, b@),
{
    ascii_lowercase(a) == ascii_lowercase(b)
}

/// The value of the first header of `headers` with the name `name`.
pub fn header_value<'a>(headers: &'a [Header], name: &str) -> (r: Option<&'a [u8]>)
    ensures
        match r {
            Some(v) => Some(v@),
            None => None,
        } == find_header(headers.deep_view(), name@),
{
    let ghost hs = headers.deep_view();
    let mut i: usize = 0;
    assert(hs.skip(0) =~= hs);
    while i < headers.len()
        invariant
            i <= headers.len(),
            hs == headers.deep_view(),
            find_header(hs, name@) == find_header(hs.skip(i as int), name@),
        decreases headers.len() - i,
    {
        proof {
            assert(hs.skip(i as int)[0] == (headers@[i as int].name@, headers@[i as int].value@));
            assert(hs.skip(i as int).drop_first() =~= hs.skip(i + 1));
        }
        if is_same_name(headers[i].name.as_str(), name) {
            return Some(headers[i].value.as_slice());
        }
        i += 1;
    }
    None
}

/// Sets the header `name` of `headers` to `value`: takes out every header
/// with that name, and puts the new one at the end.
pub fn set_header(headers: &mut Vec<Header>, name: &str, value: &[u8])
    ensures
        final(headers).deep_view() == with_header(old(headers).deep_view(), name@, value@),
{
    let ghost h0 = headers.deep_view();
    let ghost mut k: int = 0;
    let mut i: usize = 0;
    assert(h0.take(0) =~= Seq::empty());
    assert(h0.skip(0) =~= h0);
    while i < headers.len()
        invariant
            0 <= k <= h0.len(),
            i <= headers.len(),
            i == without_header(h0.take(k), name@).len(),
            headers.deep_view() == without_header(h0.take(k), name@) + h0.skip(k),
        decreases h0.len() - k,
    {
        proof {
            let kept = without_header(h0.take(k), name@);
            assert(headers.deep_view()[i as int] == h0.skip(k)[0]);
            assert(h0.take(k + 1).drop_last() =~= h0.take(k));
            assert(h0.take(k + 1).last() == h0[k]);
        }
        if is_same_name(headers[i].name.as_str(), name) {
            let ghost before = headers.deep_view();
            headers.remove(i);
            proof {
                assert(headers.deep_view() =~= before.remove(i as int));
                assert(before.remove(i as int) =~= without_header(h0.take(k), name@) + h0.skip(
                    k + 1,
                ));
                k = k + 1;
            }
        } else {
            proof {
                assert(without_header(h0.take(k), name@).push(h0[k]) + h0.skip(k + 1)
                    =~= without_header(h0.take(k), name@) + h0.skip(k));
                k = k + 1;
            }
            i += 1;
        }
    }
    proof {
        assert(h0.take(k) =~= h0);
        assert(headers.deep_view() =~= without_header(h0, name@));
    }
    let ghost before = headers.deep_view();
    headers.push(Header::new(name, value));
    assert(headers.deep_view() =~= before.push((name@, value@)));
}

/// An outgoing request.
#[derive(Clone, Debug)]
pub struct Request {
    pub method: Method,
    pub url: Url,
    pub headers: Vec<Header>,
    pub body: Option<Vec<u8>>,
}

/// What a request holds.
pub struct RequestView {
    pub method: Method,
    pub url: UrlView,
    pub headers: Seq<(Seq<char>, Seq<u8>)>,
    pub body: Option<Seq<u8>>,
}

impl View for Request {
    type V = RequestView;

    open spec fn view(&self) -> RequestView {
        RequestView {
            method: self.method,
            url: self.url@,
            headers: self.headers.deep_view(),
            body: match self.body {
                Some(bytes) => Some(bytes@),
                None => None,
            },
        }
    }
}

/// What a request that was built, or could not be built, holds.
pub open spec fn request_result_view(r: Result<Request, SignError>) -> Result<
    RequestView,
    SignError,
> {
    match r {
        Ok(request) => Ok(request@),
        Err(e) => Err(e),
    }
}

/// The text of an optional text.
pub open spec fn optional_str_view(text: Option<&str>) -> Option<Seq<char>> {
    match text {
        Some(t) => Some(t@),
        None => None,
    }
}

/// A request with its address changed, where the request was built and the
/// change of the address went well.
pub open spec fn then_url(
    r: Result<RequestView, SignError>,
    fits: bool,
    changed: Option<UrlView>,
) -> Result<RequestView, SignError> {
    match r {
        Err(e) => Err(e),
        Ok(v) => match url_change(fits, changed) {
            Ok(url) => Ok(RequestView { method: v.method, url, headers: v.headers, body: v.body }),
            Err(e) => Err(SignError::Url(e)),
        },
    }
}

/// The request `r` with the path of its address replaced by `path`.
pub open spec fn then_path(r: Result<RequestView, SignError>, path: Seq<char>) -> Result<
    RequestView,
    SignError,
> {
    match r {
        Err(e) => Err(e),
        Ok(v) => then_url(
            r,
            fits_url(v.url.href) && fits_url(path),
            url_with_path(v.url.href, path),
        ),
    }
}

/// The request `r` with the query string of its address replaced by
/// `query`.
pub open spec fn then_query(r: Result<RequestView, SignError>, query: Option<Seq<char>>) -> Result<
    RequestView,
    SignError,
> {
    match r {
        Err(e) => Err(e),
        Ok(v) => then_url(
            r,
            fits_url(v.url.href) && (query matches Some(q) ==> fits_url(q)),
            url_with_query(v.url.href, query),
        ),
    }
}

/// The request `r` with the pair of `name` and `value` added at the end of
/// the query string of its address.
pub open spec fn then_query_pair(
    r: Result<RequestView, SignError>,
    name: Seq<char>,
    value: Seq<char>,
) -> Result<RequestView, SignError> {
    match r {
        Err(e) => Err(e),
        Ok(v) => then_url(
            r,
            fits_url(v.url.href) && fits_url(name) && fits_url(value),
            url_with_query_pair(v.url.href, name, value),
        ),
    }
}

/// The request `r` with its header `name` set to `value`.
pub open spec fn then_header(
    r: Result<RequestView, SignError>,
    name: Seq<char>,
    value: Seq<u8>,
) -> Result<RequestView, SignError> {
    match r {
        Err(e) => Err(e),
        Ok(v) => Ok(
            RequestView {
                method: v.method,
                url: v.url,
                headers: with_header(v.headers, name, value),
                body: v.body,
            },
        ),
    }
}

/// Replaces the path of the address of the request.
pub fn set_path(r: Result<Request, SignError>, path: &str) -> (out: Result<Request, SignError>)
    ensures
        request_result_view(out) == then_path(request_result_view(r), path@),
{
    match r {
        Err(e) => Err(e),
        Ok(request) => match request.url.with_path(path) {
            Ok(url) => Ok(
                Request {
                    method: request.method,
                    url,
                    headers: request.headers,
                    body: request.body,
                },
            ),
            Err(e) => Err(SignError::Url(e)),
        },
    }
}

/// Replaces the query string of the address of the request.
pub fn set_query(r: Result<Request, SignError>, query: Option<&str>) -> (out: Result<
    Request,
    SignError,
>)
    ensures
        request_result_view(out) == then_query(request_result_view(r), optional_str_view(query)),
{
    match r {
        Err(e) => Err(e),
        Ok(request) => match request.url.with_query(query) {
            Ok(url) => Ok(
                Request {
                    method: request.method,
                    url,
                    headers: request.headers,
                    body: request.body,
                },
            ),
            Err(e) => Err(SignError::Url(e)),
        },
    }
}

/// Adds a pair at the end of the query string of the address of the
/// request.
pub fn append_query_pair(r: Result<Request, SignError>, name: &str, value: &str) -> (out: Result<
    Request,
    SignError,
>)
    ensures
        request_result_view(out) == then_query_pair(request_result_view(r), name@, value@),
{
    match r {
        Err(e) => Err(e),
        Ok(request) => match request.url.with_query_pair(name, value) {
            Ok(url) => Ok(
                Request {
                    method: request.method,
                    url,
                    headers: request.headers,
                    body: request.body,
                },
            ),
            Err(e) => Err(SignError::Url(e)),
        },
    }
}

/// Sets the header `name` of the request to `value`.
pub fn insert_header(r: Result<Request, SignError>, name: &str, value: &[u8]) -> (out: Result<
    Request,
    SignError,
>)
    ensures
        request_result_view(out) == then_header(request_result_view(r), name@, value@),
{
    match r {
        Err(e) => Err(e),
        Ok(request) => {
            let mut request = request;
            set_header(&mut request.headers, name, value);
            Ok(request)
        },
    }
}

impl Request {
    /// A request to `url` with no header and no body.
    pub fn new(method: Method, url: Url) -> (r: Self)
        ensures
            r.method == method,
            r.url == url,
            r.headers@.len() == 0,
            r.body is None,
    {
        Request { method, url, headers: Vec::new(), body: None }
    }
}

} // verus!
