//! The description of a request that is signed in the parameters of its
//! URL: the time line of its signed text is the second at which the URL
//! expires.

use crate::canonicalized_headers::CanonicalizedHeaders;
use crate::canonicalized_resource::CanonicalizedResource;
use crate::oss_config::OssConfig;
use crate::request::Method;
use crate::signature::{
    field_text, headers_block, string_to_sign, SignatureAble, SignatureContext, SignatureTime,
};
use crate::text::decimal;
use vstd::prelude::*;

verus! {

/// What is signed of a request that carries its signature in its URL.
/// `expires` is the second of the Unix epoch at which the URL expires.
#[derive(Debug)]
pub struct ParamSignature {
    pub method: Method,
    pub content_md5: Option<String>,
    pub content_type: Option<String>,
    pub expires: i64,
    pub canonicalized_oss_headers: CanonicalizedHeaders,
    pub canonicalized_resource: CanonicalizedResource,
}

impl ParamSignature {
    /// The description with these parts.
    pub fn new(
        method: Method,
        content_md5: Option<String>,
        content_type: Option<String>,
        expires: i64,
        canonicalized_oss_headers: CanonicalizedHeaders,
        canonicalized_resource: CanonicalizedResource,
    ) -> (r: Self)
        ensures
            r.method == method,
            r.content_md5 == content_md5,
            r.content_type == content_type,
            r.expires == expires,
            r.canonicalized_oss_headers == canonicalized_oss_headers,
            r.canonicalized_resource == canonicalized_resource,
    {
        Self {
            method,
            content_md5,
            content_type,
            expires,
            canonicalized_oss_headers,
            canonicalized_resource,
        }
    }

    /// A `GET` that expires at `expires`, with no content, no provider
    /// headers, and the resource `/`.
    pub fn default_at(expires: i64) -> (r: Self)
        ensures
            r.method == Method::Get,
            r.content_md5 is None,
            r.content_type is None,
            r.expires == expires,
            r.canonicalized_oss_headers@ is None,
            r.canonicalized_resource@ == seq!['/'],
    {
        Self {
            method: Method::Get,
            content_md5: None,
            content_type: None,
            expires,
            canonicalized_oss_headers: CanonicalizedHeaders::default(),
            canonicalized_resource: CanonicalizedResource::default(),
        }
    }

    /// The same description, with its second of expiry as the time of the
    /// signature.
    pub fn into_context(self) -> (r: SignatureContext)
        ensures
            r.method == self.method,
            r.content_md5 == self.content_md5,
            r.content_type == self.content_type,
            r.time == SignatureTime::Expires(self.expires),
            r.canonicalized_oss_headers == self.canonicalized_oss_headers,
            r.canonicalized_resource == self.canonicalized_resource,
            r.spec_string_to_sign() == self.spec_string_to_sign(),
    {
        SignatureContext::new(
            self.method,
            self.content_md5,
            self.content_type,
            SignatureTime::Expires(self.expires),
            self.canonicalized_oss_headers,
            self.canonicalized_resource,
        )
    }

    /// The signed text.
    pub fn get_string_to_sign(&self) -> (s: String)
        ensures
            s@ == self.spec_string_to_sign(),
    {
        let time_line = SignatureTime::Expires(self.expires).to_line();
        crate::signature::build_string_to_sign(
            self.method.as_str(),
            &self.content_md5,
            &self.content_type,
            time_line.as_str(),
            &self.canonicalized_oss_headers,
            &self.canonicalized_resource,
        )
    }
}

impl SignatureAble for ParamSignature {
    open spec fn spec_string_to_sign(&self) -> Seq<char> {
        string_to_sign(
            self.method@,
            field_text(self.content_md5),
            field_text(self.content_type),
            decimal(self.expires as int),
            headers_block(self.canonicalized_oss_headers@),
            self.canonicalized_resource@,
        )
    }

    fn get_signature_string(&self, oss_config: &OssConfig) -> (s: String) {
        let string_to_sign = self.get_string_to_sign();
        crate::signature::sign_text(
            oss_config.access_key_secret.as_str(),
            string_to_sign.as_str(),
        )
    }
}

} // verus!
