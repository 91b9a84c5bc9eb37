//! The configuration of a client: credentials, bucket, location and the
//! path prefix under which its objects live.

use crate::bucket_location::BucketLocation;
use crate::canonicalized_headers::{canonical_headers, CanonicalizedHeaders};
use crate::canonicalized_resource::{canonical_resource, CanonicalizedResource};
use crate::crypto::{
    base64_encode, base64_standard, infer_mime_type, inferred_mime_type, md5_digest, md5_of,
};
use crate::date::{http_date, UtcDateTime, HTTP_DATE_MAX_LEN};
use crate::error::SignError;
use crate::percent::{decode_if_encoded, decoded_text};
use crate::request::{
    find_header, header_value, request_result_view, set_header, with_header, Header, Method,
    Request, RequestView,
};
use crate::signature::header_signature::HeaderSignature;
use crate::signature::{
    can_sign, headers_block, signable, signature_text, string_to_sign, text_or_empty,
    SignatureAble,
};
use crate::text::{
    decimal, str_eq, strip_all_leading, strip_leading, strip_trailing, u64_to_string, utf8_text,
    without_all_leading, without_leading, without_trailing,
};
use crate::web::{parsed_url, url_change, url_result_view, Url, UrlError, UrlView};
use vstd::prelude::*;
use vstd::utf8::{decode_utf8, encode_utf8, valid_utf8};

verus! {

/// The path prefix of a configuration as it is kept: without one leading and
/// one trailing `/`.
pub open spec fn trimmed_path(path: Seq<char>) -> Seq<char> {
    without_trailing(without_leading(path, '/'), '/')
}

/// The full name of the object `object_name` under the path prefix `path`:
/// the name without a leading `/`, and before it the prefix and a `/` where
/// the prefix is not empty.
pub open spec fn object_name_text(path: Seq<char>, object_name: Seq<char>) -> Seq<char> {
    if path.len() == 0 {
        without_leading(object_name, '/')
    } else {
        path + seq!['/'] + without_leading(object_name, '/')
    }
}

/// What the name of a host gets behind the location where the endpoint is
/// the internal one.
pub open spec fn internal_suffix(is_internal: bool) -> Seq<char> {
    if is_internal {
        "-internal"@
    } else {
        Seq::empty()
    }
}

/// The host of the endpoint of a location:
/// `{location}.aliyuncs.com`, or `{location}-internal.aliyuncs.com`.
pub open spec fn endpoint_host_text(bucket_location: Seq<char>, is_internal: bool) -> Seq<char> {
    bucket_location + internal_suffix(is_internal) + ".aliyuncs.com"@
}

/// The address of the endpoint of a location: `https://` and its host.
pub open spec fn endpoint_url_text(bucket_location: Seq<char>, is_internal: bool) -> Seq<char> {
    "https://"@ + endpoint_host_text(bucket_location, is_internal)
}

/// The address of a bucket: `https://`, the bucket, `.`, and the host of
/// the endpoint of its location.
pub open spec fn bucket_url_text(
    bucket_name: Seq<char>,
    bucket_location: Seq<char>,
    is_internal: bool,
) -> Seq<char> {
    "https://"@ + bucket_name + seq!['.'] + endpoint_host_text(bucket_location, is_internal)
}

/// The media type of a body: the one that its first bytes tell, or
/// `text/plain` where they tell none.
pub open spec fn body_media_type(body: Seq<u8>) -> Seq<char> {
    match inferred_mime_type(body) {
        Some(mime) => mime,
        None => "text/plain"@,
    }
}

/// The headers that describe the body of a request: its media type, the
/// base64 text of its MD5 digest, and its length in bytes.
pub open spec fn body_headers(body: Seq<u8>) -> Seq<(Seq<char>, Seq<u8>)> {
    with_header(
        with_header(
            with_header(Seq::empty(), "content-type"@, encode_utf8(body_media_type(body))),
            "content-md5"@,
            encode_utf8(base64_standard(md5_digest(body))),
        ),
        "content-length"@,
        encode_utf8(decimal(body.len() as int)),
    )
}

/// The headers of a new request with the body `body`.
pub open spec fn new_request_headers(body: Option<Vec<u8>>) -> Seq<(Seq<char>, Seq<u8>)> {
    match body {
        Some(bytes) => body_headers(bytes@),
        None => Seq::empty(),
    }
}

/// The full name of an object as it stands in the path of an address:
/// the path of the address `https://localhost/` and the name, without the
/// `/` that it starts with.
pub open spec fn encoded_object_name_text(name: Seq<char>) -> Result<Seq<char>, UrlError> {
    match parsed_url("https://localhost/"@ + name) {
        Some(url) => Ok(without_all_leading(url.path, '/')),
        None => Err(UrlError::Invalid),
    }
}

/// The text of the header `name` of a request with the headers `headers`:
/// absent where the request has no such header, and a failure where the
/// value of the header is not UTF-8.
pub open spec fn header_text(headers: Seq<(Seq<char>, Seq<u8>)>, name: Seq<char>) -> Result<
    Option<Seq<char>>,
    SignError,
> {
    match find_header(headers, name) {
        None => Ok(None),
        Some(value) => if valid_utf8(value) {
            Ok(Some(decode_utf8(value)))
        } else {
            Err(SignError::InvalidHeaderValue)
        },
    }
}

/// Whether `host` is the host of the endpoint of `bucket_location`, the
/// public one or the internal one.
pub open spec fn is_endpoint_host(host: Seq<char>, bucket_location: Seq<char>) -> bool {
    host == endpoint_host_text(bucket_location, false) || host == endpoint_host_text(
        bucket_location,
        true,
    )
}

/// The canonical resource of a request to the address `url`, as a client
/// of the bucket `bucket_name` in `bucket_location` signs it. A request to
/// the host of the endpoint of the location is on no bucket, and its
/// resource is `/`; a request to any other host is on the bucket, also
/// where the name of the bucket starts with the location. An address
/// without a host cannot be signed.
pub open spec fn request_resource(
    bucket_name: Seq<char>,
    bucket_location: Seq<char>,
    url: UrlView,
) -> Result<Seq<char>, SignError> {
    match url.host {
        None => Err(SignError::HostNotFound),
        Some(host) => Ok(
            canonical_resource(
                if is_endpoint_host(host, bucket_location) {
                    None
                } else {
                    Some(bucket_name)
                },
                url.path,
                url.query,
            ),
        ),
    }
}

/// The text that is signed of a request with the verb `verb`, the headers
/// `headers` and the address `url`, at the second `date`; or why it cannot
/// be signed.
pub open spec fn request_string_to_sign(
    bucket_name: Seq<char>,
    bucket_location: Seq<char>,
    verb: Seq<char>,
    headers: Seq<(Seq<char>, Seq<u8>)>,
    url: UrlView,
    date: (i64, u32),
) -> Result<Seq<char>, SignError> {
    match header_text(headers, "Content-MD5"@) {
        Err(e) => Err(e),
        Ok(content_md5) => match header_text(headers, "Content-Type"@) {
            Err(e) => Err(e),
            Ok(content_type) => match request_resource(bucket_name, bucket_location, url) {
                Err(e) => Err(e),
                Ok(resource) => Ok(
                    string_to_sign(
                        verb,
                        text_or_empty(content_md5),
                        text_or_empty(content_type),
                        http_date(date.0, date.1),
                        headers_block(canonical_headers(headers)),
                        resource,
                    ),
                ),
            },
        },
    }
}

/// The value of the `Authorization` header of a signed request.
pub open spec fn authorization_text(access_key_id: Seq<char>, signature: Seq<char>) -> Seq<char> {
    "OSS "@ + access_key_id + seq![':'] + signature
}

/// The two headers that signing adds to a request.
#[derive(Debug)]
pub struct SignedHeaders {
    /// The value of the `Date` header: the date of the signature.
    pub date: String,
    /// The value of the `Authorization` header.
    pub authorization: String,
}

/// The values of the `Date` and `Authorization` headers of a request with
/// the verb `verb`, the headers `headers` and the address `url`, signed at
/// the second `date` with the key `access_key_id` and its secret; or why
/// the request cannot be signed.
pub open spec fn signed_header_texts(
    access_key_id: Seq<char>,
    access_key_secret: Seq<char>,
    bucket_name: Seq<char>,
    bucket_location: Seq<char>,
    verb: Seq<char>,
    headers: Seq<(Seq<char>, Seq<u8>)>,
    url: UrlView,
    date: (i64, u32),
) -> Result<(Seq<char>, Seq<char>), SignError> {
    match request_string_to_sign(bucket_name, bucket_location, verb, headers, url, date) {
        Err(e) => Err(e),
        Ok(text) => if signable(access_key_secret, text) {
            Ok(
                (
                    http_date(date.0, date.1),
                    authorization_text(access_key_id, signature_text(access_key_secret, text)),
                ),
            )
        } else {
            Err(SignError::InputTooLong)
        },
    }
}

/// The headers of a signed request: those of the request, with the
/// `Authorization` header and then the `Date` header set.
pub open spec fn signed_request_headers(
    headers: Seq<(Seq<char>, Seq<u8>)>,
    date: Seq<char>,
    authorization: Seq<char>,
) -> Seq<(Seq<char>, Seq<u8>)> {
    with_header(
        with_header(headers, "Authorization"@, encode_utf8(authorization)),
        "Date"@,
        encode_utf8(date),
    )
}

/// A new request with the method `method` to the address that `address`
/// writes, with the body `body` and the headers that describe it; fails
/// where `address` is no address.
pub open spec fn new_request_view(
    address: Seq<char>,
    method: Method,
    body: Option<Vec<u8>>,
) -> Result<RequestView, SignError> {
    match parsed_url(address) {
        Some(url) => Ok(
            RequestView {
                method,
                url,
                headers: new_request_headers(body),
                body: match body {
                    Some(bytes) => Some(bytes@),
                    None => None,
                },
            },
        ),
        None => Err(SignError::Url(UrlError::Invalid)),
    }
}

/// The request `r`, signed at `date` by a client with the configuration
/// `config`: with its `Authorization` and `Date` headers set.
pub open spec fn then_signed(
    config: OssConfig,
    r: Result<RequestView, SignError>,
    date: (i64, u32),
) -> Result<RequestView, SignError> {
    match r {
        Err(e) => Err(e),
        Ok(v) => match signed_header_texts(
            config.access_key_id@,
            config.access_key_secret@,
            config.bucket_name@,
            config.bucket_location@,
            v.method@,
            v.headers,
            v.url,
            date,
        ) {
            Err(e) => Err(e),
            Ok((date_text, authorization)) => Ok(
                RequestView {
                    method: v.method,
                    url: v.url,
                    headers: signed_request_headers(v.headers, date_text, authorization),
                    body: v.body,
                },
            ),
        },
    }
}

/// The text of the header `name` of `headers`.
pub fn header_text_of(headers: &[Header], name: &str) -> (r: Result<Option<String>, SignError>)
    ensures
        match r {
            Ok(Some(text)) => header_text(headers.deep_view(), name@) == Ok::<
                Option<Seq<char>>,
                SignError,
            >(Some(text@)),
            Ok(None) => header_text(headers.deep_view(), name@) == Ok::<
                Option<Seq<char>>,
                SignError,
            >(None),
            Err(e) => header_text(headers.deep_view(), name@) == Err::<
                Option<Seq<char>>,
                SignError,
            >(e),
        },
{
    match header_value(headers, name) {
        None => Ok(None),
        Some(value) => match utf8_text(value) {
            Some(text) => Ok(Some(text)),
            None => Err(SignError::InvalidHeaderValue),
        },
    }
}

/// The configuration of a client.
#[derive(Clone)]
pub struct OssConfig {
    pub access_key_id: String,
    pub access_key_secret: String,
    pub bucket_name: String,
    pub bucket_location: BucketLocation,
    pub path: String,
    pub is_internal: bool,
}

impl OssConfig {
    /// A configuration with the given values; the path prefix is kept
    /// without one leading and one trailing `/`.
    pub fn new(
        access_key_id: String,
        access_key_secret: String,
        bucket_name: String,
        bucket_location: String,
        path: String,
        is_internal: bool,
    ) -> (r: Self)
        ensures
            r.access_key_id@ == access_key_id@,
            r.access_key_secret@ == access_key_secret@,
            r.bucket_name@ == bucket_name@,
            r.bucket_location@ == bucket_location@,
            r.path@ == trimmed_path(path@),
            r.is_internal == is_internal,
    {
        let trimmed = strip_trailing(strip_leading(path.as_str(), '/'), '/').to_owned();
        OssConfig {
            access_key_id,
            access_key_secret,
            bucket_name,
            bucket_location: BucketLocation::new(bucket_location.as_str()),
            path: trimmed,
            is_internal,
        }
    }

    /// The host of the endpoint of `bucket_location`; the internal one
    /// where `is_internal` is set.
    pub fn endpoint_host_string(bucket_location: &str, is_internal: bool) -> (r: String)
        ensures
            r@ == endpoint_host_text(bucket_location@, is_internal),
    {
        let mut r = bucket_location.to_owned();
        if is_internal {
            r.append("-internal");
        }
        r.append(".aliyuncs.com");
        assert(r@ =~= endpoint_host_text(bucket_location@, is_internal));
        r
    }

    /// The text of the address of the endpoint of `bucket_location`; the
    /// internal one where `is_internal` is set.
    pub fn endpoint_url_string(bucket_location: &str, is_internal: bool) -> (r: String)
        ensures
            r@ == endpoint_url_text(bucket_location@, is_internal),
    {
        let mut r = "https://".to_owned();
        r.append(bucket_location);
        if is_internal {
            r.append("-internal");
        }
        r.append(".aliyuncs.com");
        assert(r@ =~= endpoint_url_text(bucket_location@, is_internal));
        r
    }

    /// The text of the address of the bucket `bucket_name` in
    /// `bucket_location`; the internal one where `is_internal` is set.
    pub fn bucket_url_string(bucket_name: &str, bucket_location: &str, is_internal: bool) -> (r:
        String)
        ensures
            r@ == bucket_url_text(bucket_name@, bucket_location@, is_internal),
    {
        let mut r = "https://".to_owned();
        r.append(bucket_name);
        r.push('.');
        r.append(bucket_location);
        if is_internal {
            r.append("-internal");
        }
        r.append(".aliyuncs.com");
        assert(r@ =~= bucket_url_text(bucket_name@, bucket_location@, is_internal));
        r
    }

    /// The address of the endpoint of `bucket_location`; the internal one
    /// where `is_internal` is set. Fails where its text is no address.
    pub fn generate_endpoint_url(bucket_location: &str, is_internal: bool) -> (r: Result<
        Url,
        UrlError,
    >)
        ensures
            url_result_view(r) == url_change(
                true,
                parsed_url(endpoint_url_text(bucket_location@, is_internal)),
            ),
    {
        let src = Self::endpoint_url_string(bucket_location, is_internal);
        Url::parse(src.as_str())
    }

    /// The address of the bucket `bucket_name` in `bucket_location`; the
    /// internal one where `is_internal` is set. Fails where its text is no
    /// address.
    pub fn generate_bucket_url(bucket_name: &str, bucket_location: &str, is_internal: bool) -> (r:
        Result<Url, UrlError>)
        ensures
            url_result_view(r) == url_change(
                true,
                parsed_url(bucket_url_text(bucket_name@, bucket_location@, is_internal)),
            ),
    {
        let src = Self::bucket_url_string(bucket_name, bucket_location, is_internal);
        Url::parse(src.as_str())
    }

    /// The full name of the object `object_name` under the path prefix of
    /// this configuration.
    pub fn get_object_name(&self, object_name: &str) -> (r: String)
        ensures
            r@ == object_name_text(self.path@, object_name@),
    {
        let name = strip_leading(object_name, '/');
        if self.path.as_str().unicode_len() == 0 {
            name.to_owned()
        } else {
            let mut r = self.path.clone();
            r.push('/');
            r.append(name);
            r
        }
    }

    /// The full name of the object `object_name`, percent-decoded where it
    /// decodes to UTF-8.
    pub fn get_decoded_object_name(&self, object_name: &str) -> (r: String)
        ensures
            r@ == decoded_text(object_name_text(self.path@, object_name@)),
    {
        let name = self.get_object_name(object_name);
        decode_if_encoded(name.as_str())
    }

    /// The full name of the object `object_name` as it stands in the path
    /// of an address, percent-encoded.
    pub fn get_encoded_object_name(&self, object_name: &str) -> (r: Result<String, UrlError>)
        ensures
            match r {
                Ok(name) => encoded_object_name_text(object_name_text(self.path@, object_name@))
                    == Ok::<Seq<char>, UrlError>(name@),
                Err(e) => encoded_object_name_text(object_name_text(self.path@, object_name@))
                    == Err::<Seq<char>, UrlError>(e),
            },
    {
        let name = self.get_object_name(object_name);
        let mut link = "https://localhost/".to_owned();
        link.append(name.as_str());
        match Url::parse(link.as_str()) {
            Ok(url) => Ok(strip_all_leading(url.path(), '/').to_owned()),
            Err(e) => Err(e),
        }
    }

    /// The address of the endpoint of this configuration.
    pub fn get_endpoint_url(&self) -> (r: Result<Url, UrlError>)
        ensures
            url_result_view(r) == url_change(
                true,
                parsed_url(endpoint_url_text(self.bucket_location@, self.is_internal)),
            ),
    {
        Self::generate_endpoint_url(self.bucket_location.as_str(), self.is_internal)
    }

    /// A new request to the endpoint of this configuration, with no header
    /// and no body. Fails where the text of the address of the endpoint is
    /// no address.
    pub fn get_endpoint_request(&self, method: Method) -> (r: Result<Request, SignError>)
        ensures
            request_result_view(r) == new_request_view(
                endpoint_url_text(self.bucket_location@, self.is_internal),
                method,
                None,
            ),
    {
        match self.get_endpoint_url() {
            Ok(url) => {
                let request = Request::new(method, url);
                assert(request.headers.deep_view() =~= Seq::empty());
                Ok(request)
            },
            Err(e) => Err(SignError::Url(e)),
        }
    }

    /// The address of the bucket of this configuration.
    pub fn get_bucket_url(&self) -> (r: Result<Url, UrlError>)
        ensures
            url_result_view(r) == url_change(
                true,
                parsed_url(
                    bucket_url_text(self.bucket_name@, self.bucket_location@, self.is_internal),
                ),
            ),
    {
        Self::generate_bucket_url(
            self.bucket_name.as_str(),
            self.bucket_location.as_str(),
            self.is_internal,
        )
    }

    /// A new request to the bucket of this configuration. Where it has a
    /// body, it has the headers that describe the body: `content-type`, the
    /// media type that the first bytes of the body tell, or `text/plain`;
    /// `content-md5`, the base64 text of the MD5 digest of the body; and
    /// `content-length`. Fails where the text of the address of the bucket
    /// is no address.
    pub fn get_bucket_request(&self, method: Method, body: Option<Vec<u8>>) -> (r: Result<
        Request,
        SignError,
    >)
        ensures
            request_result_view(r) == new_request_view(
                bucket_url_text(self.bucket_name@, self.bucket_location@, self.is_internal),
                method,
                body,
            ),
    {
        let url = match self.get_bucket_url() {
            Ok(url) => url,
            Err(e) => {
                return Err(SignError::Url(e));
            },
        };
        let mut request = Request::new(method, url);
        assert(request.headers.deep_view() =~= Seq::empty());
        if let Some(bytes) = &body {
            let media_type = match infer_mime_type(bytes.as_slice()) {
                Some(mime) => mime,
                None => "text/plain".to_owned(),
            };
            set_header(&mut request.headers, "content-type", media_type.as_str().as_bytes());
            let digest = md5_of(bytes.as_slice());
            let content_md5 = base64_encode(digest.as_slice());
            set_header(&mut request.headers, "content-md5", content_md5.as_str().as_bytes());
            let content_length = u64_to_string(bytes.len() as u64);
            set_header(&mut request.headers, "content-length", content_length.as_str().as_bytes());
        }
        request.body = body;
        Ok(request)
    }

    /// The canonical resource of a request to `url`.
    pub fn canonicalized_resource_of(&self, url: &Url) -> (r: Result<
        CanonicalizedResource,
        SignError,
    >)
        ensures
            match r {
                Ok(resource) => request_resource(self.bucket_name@, self.bucket_location@, url@)
                    == Ok::<Seq<char>, SignError>(resource@),
                Err(e) => request_resource(self.bucket_name@, self.bucket_location@, url@) == Err::<
                    Seq<char>,
                    SignError,
                >(e),
            },
    {
        match url.host_str() {
            None => Err(SignError::HostNotFound),
            Some(host) => {
                let location = self.bucket_location.as_str();
                let public_host = Self::endpoint_host_string(location, false);
                let internal_host = Self::endpoint_host_string(location, true);
                let bucket = if str_eq(host, public_host.as_str()) || str_eq(
                    host,
                    internal_host.as_str(),
                ) {
                    None
                } else {
                    Some(self.bucket_name.as_str())
                };
                Ok(CanonicalizedResource::for_request(bucket, url.path(), url.query()))
            },
        }
    }

    /// What is signed of `request` at `date`: its verb, the texts of its
    /// `Content-MD5` and `Content-Type` headers, the date, its canonical
    /// provider headers and its canonical resource. Fails where one of the
    /// two content headers is not UTF-8, or where the address has no host.
    pub fn header_signature_of(&self, request: &Request, date: UtcDateTime) -> (r: Result<
        HeaderSignature,
        SignError,
    >)
        ensures
            match r {
                Ok(signature) => signature.date == date && request_string_to_sign(
                    self.bucket_name@,
                    self.bucket_location@,
                    request.method@,
                    request.headers.deep_view(),
                    request.url@,
                    date@,
                ) == Ok::<Seq<char>, SignError>(signature.spec_string_to_sign()),
                Err(e) => request_string_to_sign(
                    self.bucket_name@,
                    self.bucket_location@,
                    request.method@,
                    request.headers.deep_view(),
                    request.url@,
                    date@,
                ) == Err::<Seq<char>, SignError>(e),
            },
    {
        let content_md5 = match header_text_of(request.headers.as_slice(), "Content-MD5") {
            Ok(text) => text,
            Err(e) => {
                return Err(e);
            },
        };
        let content_type = match header_text_of(request.headers.as_slice(), "Content-Type") {
            Ok(text) => text,
            Err(e) => {
                return Err(e);
            },
        };
        let canonicalized_oss_headers = CanonicalizedHeaders::from_headers(
            request.headers.as_slice(),
        );
        let canonicalized_resource = match self.canonicalized_resource_of(&request.url) {
            Ok(resource) => resource,
            Err(e) => {
                return Err(e);
            },
        };
        Ok(
            HeaderSignature::new(
                request.method.clone(),
                content_md5,
                content_type,
                date,
                canonicalized_oss_headers,
                canonicalized_resource,
            ),
        )
    }

    /// The `Date` and `Authorization` headers that sign `request` at `date`.
    /// Fails as `header_signature_of` does, and where the secret or the
    /// signed text is too long to be signed. The date line of the signed
    /// text is no longer than `HTTP_DATE_MAX_LEN` characters, so a request
    /// with a short secret and short parts is not too long.
    pub fn signed_headers(&self, request: &Request, date: UtcDateTime) -> (r: Result<
        SignedHeaders,
        SignError,
    >)
        ensures
            match r {
                Ok(signed) => signed_header_texts(
                    self.access_key_id@,
                    self.access_key_secret@,
                    self.bucket_name@,
                    self.bucket_location@,
                    request.method@,
                    request.headers.deep_view(),
                    request.url@,
                    date@,
                ) == Ok::<(Seq<char>, Seq<char>), SignError>((signed.date@, signed.authorization@)),
                Err(e) => signed_header_texts(
                    self.access_key_id@,
                    self.access_key_secret@,
                    self.bucket_name@,
                    self.bucket_location@,
                    request.method@,
                    request.headers.deep_view(),
                    request.url@,
                    date@,
                ) == Err::<(Seq<char>, Seq<char>), SignError>(e),
            },
            r is Ok || r == Err::<SignedHeaders, SignError>(SignError::InputTooLong) ==> http_date(
                date@.0,
                date@.1,
            ).len() <= HTTP_DATE_MAX_LEN,
    {
        let header_signature = match self.header_signature_of(request, date) {
            Ok(signature) => signature,
            Err(e) => {
                return Err(e);
            },
        };
        let string_to_sign = header_signature.get_string_to_sign();
        if !can_sign(self.access_key_secret.as_str(), string_to_sign.as_str()) {
            return Err(SignError::InputTooLong);
        }
        let signature = header_signature.get_signature_string(self);
        let mut authorization = "OSS ".to_owned();
        authorization.append(self.access_key_id.as_str());
        authorization.push(':');
        authorization.append(signature.as_str());
        assert(authorization@ =~= authorization_text(self.access_key_id@, signature@));
        Ok(SignedHeaders { date: header_signature.get_date_string(), authorization })
    }

    /// Signs `request` at `date`: sets its `Authorization` header, then its
    /// `Date` header. Where signing fails the request stays as it was. The
    /// date line of the signed text is no longer than `HTTP_DATE_MAX_LEN`
    /// characters.
    pub fn sign_header_request(&self, request: &mut Request, date: UtcDateTime) -> (r: Result<
        (),
        SignError,
    >)
        ensures
            final(request).method == old(request).method,
            final(request).url == old(request).url,
            final(request).body == old(request).body,
            match signed_header_texts(
                self.access_key_id@,
                self.access_key_secret@,
                self.bucket_name@,
                self.bucket_location@,
                old(request).method@,
                old(request).headers.deep_view(),
                old(request).url@,
                date@,
            ) {
                Ok((date_text, authorization)) => r is Ok && final(request).headers.deep_view()
                    == signed_request_headers(
                    old(request).headers.deep_view(),
                    date_text,
                    authorization,
                ),
                Err(e) => r == Err::<(), SignError>(e) && final(request).headers == old(
                    request,
                ).headers,
            },
            r is Ok || r == Err::<(), SignError>(SignError::InputTooLong) ==> http_date(
                date@.0,
                date@.1,
            ).len() <= HTTP_DATE_MAX_LEN,
    {
        let signed = match self.signed_headers(request, date) {
            Ok(signed) => signed,
            Err(e) => {
                return Err(e);
            },
        };
        set_header(&mut request.headers, "Authorization", signed.authorization.as_str().as_bytes());
        set_header(&mut request.headers, "Date", signed.date.as_str().as_bytes());
        Ok(())
    }

    /// The request, signed at `date`, where it was built and can be signed.
    pub fn sign(&self, r: Result<Request, SignError>, date: UtcDateTime) -> (out: Result<
        Request,
        SignError,
    >)
        ensures
            request_result_view(out) == then_signed(*self, request_result_view(r), date@),
    {
        match r {
            Err(e) => Err(e),
            Ok(request) => {
                let mut request = request;
                match self.sign_header_request(&mut request, date) {
                    Ok(()) => Ok(request),
                    Err(e) => Err(e),
                }
            },
        }
    }
}

} // verus!
