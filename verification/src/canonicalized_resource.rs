//! The resource of a request in canonical form: the last part of the signed
//! text.

use crate::percent::{decode_if_encoded, decoded_text};
use crate::text::{has_prefix, lemma_text_before, str_before, str_contains_char, text_before};
use vstd::prelude::*;

verus! {

/// The first parameter of a query string: the part before the first `&`.
pub open spec fn first_parameter(query: Seq<char>) -> Seq<char> {
    text_before(query, '&')
}

/// What the query string of a request adds to the canonical resource: `?`
/// and the first parameter where that parameter is a bare flag, without a
/// `=`; else nothing.
pub open spec fn sub_resource(query: Option<Seq<char>>) -> Seq<char> {
    match query {
        Some(q) => if first_parameter(q).contains('=') {
            Seq::empty()
        } else {
            seq!['?'] + first_parameter(q)
        },
        None => Seq::empty(),
    }
}

/// The canonical resource of a request on the bucket `bucket`, with the URL
/// path `path` as it stands in the URL, and the query string `query`: `/`,
/// the bucket, the percent-decoded path, and the sub-resource.
pub open spec fn resource_text(bucket: Seq<char>, path: Seq<char>, query: Option<Seq<char>>) -> Seq<
    char,
> {
    seq!['/'] + bucket + decoded_text(path) + sub_resource(query)
}

/// The first parameter of a query string is the longest text that the
/// query string starts with and that holds no `&`.
pub proof fn lemma_first_parameter(query: Seq<char>)
    ensures
        has_prefix(query, first_parameter(query)),
        !first_parameter(query).contains('&'),
        first_parameter(query).len() < query.len() ==> query[first_parameter(query).len() as int]
            == '&',
{
    lemma_text_before(query, '&');
}

/// A query string whose first parameter is a bare flag adds `?` and the
/// flag to the resource; one whose first parameter has a value adds
/// nothing, whatever follows the parameter; and so does a request without
/// a query string.
pub proof fn lemma_sub_resource(bucket: Seq<char>, path: Seq<char>, query: Seq<char>)
    ensures
        !first_parameter(query).contains('=') ==> resource_text(bucket, path, Some(query))
            == resource_text(bucket, path, None) + seq!['?'] + first_parameter(query),
        first_parameter(query).contains('=') ==> resource_text(bucket, path, Some(query))
            == resource_text(bucket, path, None),
{
    let base = resource_text(bucket, path, None);
    assert(base =~= seq!['/'] + bucket + crate::percent::decoded_text(path));
    if first_parameter(query).contains('=') {
        assert(resource_text(bucket, path, Some(query)) =~= base);
    } else {
        assert(resource_text(bucket, path, Some(query)) =~= base + seq!['?'] + first_parameter(
            query,
        ));
    }
}

/// The canonical resource of a request: `/` where the request is on no
/// bucket, as a request to the endpoint is; else that of a request on the
/// bucket.
pub open spec fn canonical_resource(
    bucket: Option<Seq<char>>,
    path: Seq<char>,
    query: Option<Seq<char>>,
) -> Seq<char> {
    match bucket {
        Some(name) => resource_text(name, path, query),
        None => seq!['/'],
    }
}

/// The canonical resource of a request.
#[derive(Debug)]
pub struct CanonicalizedResource {
    resource: String,
}

impl View for CanonicalizedResource {
    type V = Seq<char>;

    closed spec fn view(&self) -> Seq<char> {
        self.resource@
    }
}

impl CanonicalizedResource {
    /// The resource with the text `resource`.
    pub fn new(resource: &str) -> (r: Self)
        ensures
            r@ == resource@,
    {
        CanonicalizedResource { resource: resource.to_owned() }
    }

    /// The text of the resource.
    pub fn as_str(&self) -> (s: &str)
        ensures
            s@ == self@,
    {
        self.resource.as_str()
    }

    /// The canonical resource of a request on the bucket `bucket_name`,
    /// with the URL path `path`, percent-encoded as it stands in the URL,
    /// and the query string `query` of the URL, if it has one.
    pub fn from_request_parts(bucket_name: &str, path: &str, query: Option<&str>) -> (r: Self)
        ensures
            r@ == resource_text(
                bucket_name@,
                path@,
                match query {
                    Some(q) => Some(q@),
                    None => None,
                },
            ),
    {
        let mut resource = String::new();
        resource.push('/');
        resource.append(bucket_name);
        let decoded = decode_if_encoded(path);
        resource.append(decoded.as_str());
        match query {
            Some(q) => {
                let first = str_before(q, '&');
                if !str_contains_char(first.as_str(), '=') {
                    resource.push('?');
                    resource.append(first.as_str());
                }
            },
            None => {},
        }
        proof {
            let q = match query {
                Some(q) => Some(q@),
                None => None,
            };
            assert(resource@ =~= resource_text(bucket_name@, path@, q));
        }
        CanonicalizedResource { resource }
    }
}

impl CanonicalizedResource {
    /// The canonical resource of a request with the URL path `path` and the
    /// query string `query`: `/` where `bucket_name` is absent; else `/`,
    /// the bucket, the percent-decoded path, and `?` with the first
    /// parameter of the query string where that is a bare flag.
    pub fn for_request(bucket_name: Option<&str>, path: &str, query: Option<&str>) -> (r: Self)
        ensures
            r@ == canonical_resource(
                match bucket_name {
                    Some(name) => Some(name@),
                    None => None,
                },
                path@,
                match query {
                    Some(q) => Some(q@),
                    None => None,
                },
            ),
    {
        match bucket_name {
            Some(name) => Self::from_request_parts(name, path, query),
            None => Self::default(),
        }
    }
}

impl Default for CanonicalizedResource {
    /// The resource of a request that is on no bucket: `/`.
    fn default() -> (r: Self)
        ensures
            r@ == seq!['/'],
    {
        let mut resource = String::new();
        resource.push('/');
        CanonicalizedResource { resource }
    }
}

} // verus!
