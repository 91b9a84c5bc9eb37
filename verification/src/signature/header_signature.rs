//! The description of a request that is signed in its `Authorization`
//! header: the time line of its signed text is a date.

use crate::canonicalized_headers::CanonicalizedHeaders;
use crate::canonicalized_resource::CanonicalizedResource;
use crate::date::{http_date, UtcDateTime, HTTP_DATE_MAX_LEN};
use crate::oss_config::OssConfig;
use crate::request::Method;
use crate::signature::{
    field_text, headers_block, string_to_sign, SignatureAble, SignatureContext, SignatureTime,
};
use vstd::prelude::*;

verus! {

/// What is signed of a request that carries its signature in a header.
#[derive(Debug)]
pub struct HeaderSignature {
    pub method: Method,
    pub content_md5: Option<String>,
    pub content_type: Option<String>,
    pub date: UtcDateTime,
    pub canonicalized_oss_headers: CanonicalizedHeaders,
    pub canonicalized_resource: CanonicalizedResource,
}

impl HeaderSignature {
    /// The description with these parts.
    pub fn new(
        method: Method,
        content_md5: Option<String>,
        content_type: Option<String>,
        date: UtcDateTime,
        canonicalized_oss_headers: CanonicalizedHeaders,
        canonicalized_resource: CanonicalizedResource,
    ) -> (r: Self)
        ensures
            r.method == method,
            r.content_md5 == content_md5,
            r.content_type == content_type,
            r.date == date,
            r.canonicalized_oss_headers == canonicalized_oss_headers,
            r.canonicalized_resource == canonicalized_resource,
    {
        Self {
            method,
            content_md5,
            content_type,
            date,
            canonicalized_oss_headers,
            canonicalized_resource,
        }
    }

    /// A `GET` at `date` with no content, no provider headers, and the
    /// resource `/`.
    pub fn default_at(date: UtcDateTime) -> (r: Self)
        ensures
            r.method == Method::Get,
            r.content_md5 is None,
            r.content_type is None,
            r.date == date,
            r.canonicalized_oss_headers@ is None,
            r.canonicalized_resource@ == seq!['/'],
    {
        Self {
            method: Method::Get,
            content_md5: None,
            content_type: None,
            date,
            canonicalized_oss_headers: CanonicalizedHeaders::default(),
            canonicalized_resource: CanonicalizedResource::default(),
        }
    }

    /// The date as it is written in the signed text and in the `Date`
    /// header.
    pub fn get_date_string(&self) -> (s: String)
        ensures
            s@ == http_date(self.date@.0, self.date@.1),
            s@.len() <= HTTP_DATE_MAX_LEN,
    {
        self.date.to_http_date()
    }

    /// The same description, with its date as the time of the signature.
    pub fn into_context(self) -> (r: SignatureContext)
        ensures
            r.method == self.method,
            r.content_md5 == self.content_md5,
            r.content_type == self.content_type,
            r.time == SignatureTime::Date(self.date),
            r.canonicalized_oss_headers == self.canonicalized_oss_headers,
            r.canonicalized_resource == self.canonicalized_resource,
            r.spec_string_to_sign() == self.spec_string_to_sign(),
    {
        SignatureContext::new(
            self.method,
            self.content_md5,
            self.content_type,
            SignatureTime::Date(self.date),
            self.canonicalized_oss_headers,
            self.canonicalized_resource,
        )
    }

    /// The signed text. Its date line is no longer than
    /// `HTTP_DATE_MAX_LEN` characters.
    pub fn get_string_to_sign(&self) -> (s: String)
        ensures
            s@ == self.spec_string_to_sign(),
            http_date(self.date@.0, self.date@.1).len() <= HTTP_DATE_MAX_LEN,
    {
        let time_line = SignatureTime::Date(self.date).to_line();
        crate::signature::build_string_to_sign(
            self.method.as_str(),
            &self.content_md5,
            &self.content_type,
            time_line.as_str(),
            &self.canonicalized_oss_headers,
            &self.canonicalized_resource,
        )
    }
}

impl SignatureAble for HeaderSignature {
    open spec fn spec_string_to_sign(&self) -> Seq<char> {
        string_to_sign(
            self.method@,
            field_text(self.content_md5),
            field_text(self.content_type),
            http_date(self.date@.0, self.date@.1),
            headers_block(self.canonicalized_oss_headers@),
            self.canonicalized_resource@,
        )
    }

    fn get_signature_string(&self, oss_config: &OssConfig) -> (s: String) {
        let string_to_sign = self.get_string_to_sign();
        crate::signature::sign_text(
            oss_config.access_key_secret.as_str(),
            string_to_sign.as_str(),
        )
    }
}

} // verus!
