//! The signing algorithm: the text that is signed, and its signature.
//!
//! The signed text is made of six parts in a fixed order: the verb, the
//! Content-MD5, the Content-Type, a line for the time, the canonical provider
//! headers, and the canonical resource. Each of the first four is followed by
//! a line feed; the headers bring their own; nothing follows the resource.
//! Header signing and parameter signing differ in the line for the time only:
//! the first writes a date, the second the second at which the URL expires.

pub mod header_signature;
pub mod param_signature;

use crate::canonicalized_headers::{entry_lines, CanonicalizedHeaders};
use crate::canonicalized_resource::CanonicalizedResource;
use crate::crypto::{
    base64_encode, base64_standard, hmac_sha1, hmac_sha1_tag, HMAC_SHA1_MAX_DATA_LEN,
    HMAC_SHA1_MAX_KEY_LEN,
};
use crate::date::{http_date, UtcDateTime, HTTP_DATE_MAX_LEN};
use crate::oss_config::OssConfig;
use crate::request::Method;
use crate::text::{decimal, i64_to_string, lemma_utf8_length};
use vstd::prelude::*;
use vstd::utf8::encode_utf8;

verus! {

/// The text of an optional field: empty where the field is absent.
pub open spec fn text_or_empty(field: Option<Seq<char>>) -> Seq<char> {
    match field {
        Some(text) => text,
        None => Seq::empty(),
    }
}

/// The text of an optional field.
pub open spec fn field_text(field: Option<String>) -> Seq<char> {
    match field {
        Some(text) => text@,
        None => Seq::empty(),
    }
}

/// The lines that the canonical provider headers add to the signed text:
/// none where the section is absent.
pub open spec fn headers_block(headers: Option<Seq<(Seq<char>, Seq<char>)>>) -> Seq<char> {
    match headers {
        Some(entries) => entry_lines(entries),
        None => Seq::empty(),
    }
}

/// The signed text, from the texts of its six parts.
pub open spec fn string_to_sign(
    verb: Seq<char>,
    content_md5: Seq<char>,
    content_type: Seq<char>,
    time_line: Seq<char>,
    headers_block: Seq<char>,
    resource: Seq<char>,
) -> Seq<char> {
    verb + seq!['\n'] + content_md5 + seq!['\n'] + content_type + seq!['\n'] + time_line
        + seq!['\n'] + headers_block + resource
}

/// The signature of `text` under the secret `secret`: the base64 text of the
/// HMAC-SHA1 of the UTF-8 bytes of `text` under those of `secret`.
pub open spec fn signature_text(secret: Seq<char>, text: Seq<char>) -> Seq<char> {
    base64_standard(hmac_sha1(encode_utf8(secret), encode_utf8(text)))
}

/// Whether `text` can be signed under `secret`: whether both are short
/// enough for the HMAC.
pub open spec fn signable(secret: Seq<char>, text: Seq<char>) -> bool {
    &&& encode_utf8(secret).len() <= HMAC_SHA1_MAX_KEY_LEN
    &&& encode_utf8(text).len() <= HMAC_SHA1_MAX_DATA_LEN
}

/// Builds the signed text from its parts. `time_line` is the text of the
/// fourth line.
pub fn build_string_to_sign(
    verb: &str,
    content_md5: &Option<String>,
    content_type: &Option<String>,
    time_line: &str,
    headers: &CanonicalizedHeaders,
    resource: &CanonicalizedResource,
) -> (r: String)
    ensures
        r@ == string_to_sign(
            verb@,
            field_text(*content_md5),
            field_text(*content_type),
            time_line@,
            headers_block(headers@),
            resource@,
        ),
        headers.wf(),
{
    let mut buf = String::new();
    buf.append(verb);
    buf.push('\n');
    if let Some(content_md5) = content_md5 {
        buf.append(content_md5.as_str());
    }
    buf.push('\n');
    if let Some(content_type) = content_type {
        buf.append(content_type.as_str());
    }
    buf.push('\n');
    buf.append(time_line);
    buf.push('\n');
    if let Some(value) = headers.string_for_sign() {
        buf.append(value.as_str());
    }
    buf.append(resource.as_str());
    assert(buf@ =~= string_to_sign(
        verb@,
        field_text(*content_md5),
        field_text(*content_type),
        time_line@,
        headers_block(headers@),
        resource@,
    ));
    buf
}

/// Whether `text` can be signed under `secret`.
pub fn can_sign(secret: &str, text: &str) -> (r: bool)
    ensures
        r == signable(secret@, text@),
{
    secret.as_bytes().len() as u64 <= HMAC_SHA1_MAX_KEY_LEN && text.as_bytes().len() as u64
        <= HMAC_SHA1_MAX_DATA_LEN
}

/// The signature of `text` under `secret`.
pub fn sign_text(secret: &str, text: &str) -> (r: String)
    requires
        signable(secret@, text@),
    ensures
        r@ == signature_text(secret@, text@),
{
    let tag = hmac_sha1_tag(secret.as_bytes(), text.as_bytes());
    base64_encode(tag.as_slice())
}

/// What can be signed: a description of a request that has a signed text.
pub trait SignatureAble {
    /// The signed text of this description.
    spec fn spec_string_to_sign(&self) -> Seq<char>;

    /// The signature of this description under the secret of `oss_config`.
    fn get_signature_string(&self, oss_config: &OssConfig) -> (s: String)
        requires
            signable(oss_config.access_key_secret@, self.spec_string_to_sign()),
        ensures
            s@ == signature_text(oss_config.access_key_secret@, self.spec_string_to_sign()),
    ;
}

/// The time of a signature: the one thing in which the two ways of signing
/// differ. A signature in a header is made at a date; a signature in the
/// parameters of an address expires at a second of the Unix epoch.
#[derive(Clone, Copy, Debug)]
pub enum SignatureTime {
    Date(UtcDateTime),
    Expires(i64),
}

impl SignatureTime {
    /// The fourth line of the signed text: the HTTP date text of a date,
    /// the decimal text of a second of expiry.
    pub open spec fn line(&self) -> Seq<char> {
        match self {
            SignatureTime::Date(date) => http_date(date@.0, date@.1),
            SignatureTime::Expires(expires) => decimal(*expires as int),
        }
    }

    /// The fourth line of the signed text. That of a date is no longer than
    /// `HTTP_DATE_MAX_LEN` characters.
    pub fn to_line(&self) -> (r: String)
        ensures
            r@ == self.line(),
            self is Date ==> r@.len() <= HTTP_DATE_MAX_LEN,
    {
        match self {
            SignatureTime::Date(date) => date.to_http_date(),
            SignatureTime::Expires(expires) => i64_to_string(*expires),
        }
    }
}

/// What is signed of a request, whichever way it is signed.
#[derive(Debug)]
pub struct SignatureContext {
    pub method: Method,
    pub content_md5: Option<String>,
    pub content_type: Option<String>,
    pub time: SignatureTime,
    pub canonicalized_oss_headers: CanonicalizedHeaders,
    pub canonicalized_resource: CanonicalizedResource,
}

impl SignatureContext {
    /// The description with these parts.
    pub fn new(
        method: Method,
        content_md5: Option<String>,
        content_type: Option<String>,
        time: SignatureTime,
        canonicalized_oss_headers: CanonicalizedHeaders,
        canonicalized_resource: CanonicalizedResource,
    ) -> (r: Self)
        ensures
            r.method == method,
            r.content_md5 == content_md5,
            r.content_type == content_type,
            r.time == time,
            r.canonicalized_oss_headers == canonicalized_oss_headers,
            r.canonicalized_resource == canonicalized_resource,
    {
        Self {
            method,
            content_md5,
            content_type,
            time,
            canonicalized_oss_headers,
            canonicalized_resource,
        }
    }

    /// The signed text.
    pub fn get_string_to_sign(&self) -> (s: String)
        ensures
            s@ == self.spec_string_to_sign(),
    {
        let time_line = self.time.to_line();
        build_string_to_sign(
            self.method.as_str(),
            &self.content_md5,
            &self.content_type,
            time_line.as_str(),
            &self.canonicalized_oss_headers,
            &self.canonicalized_resource,
        )
    }
}

impl SignatureAble for SignatureContext {
    open spec fn spec_string_to_sign(&self) -> Seq<char> {
        string_to_sign(
            self.method@,
            field_text(self.content_md5),
            field_text(self.content_type),
            self.time.line(),
            headers_block(self.canonicalized_oss_headers@),
            self.canonicalized_resource@,
        )
    }

    fn get_signature_string(&self, oss_config: &OssConfig) -> (s: String) {
        let string_to_sign = self.get_string_to_sign();
        sign_text(oss_config.access_key_secret.as_str(), string_to_sign.as_str())
    }
}

/// A secret and a text of which neither has more characters than a quarter
/// of what the HMAC takes in bytes can be signed.
pub proof fn lemma_short_text_is_signable(secret: Seq<char>, text: Seq<char>)
    requires
        4 * secret.len() <= HMAC_SHA1_MAX_KEY_LEN,
        4 * text.len() <= HMAC_SHA1_MAX_DATA_LEN,
    ensures
        signable(secret, text),
{
    lemma_utf8_length(secret);
    lemma_utf8_length(text);
}

/// A request whose secret and parts are short can be signed: the secret and
/// the signed text are then within what the HMAC takes.
pub proof fn lemma_short_parts_are_signable(
    secret: Seq<char>,
    verb: Seq<char>,
    content_md5: Seq<char>,
    content_type: Seq<char>,
    time_line: Seq<char>,
    headers_block: Seq<char>,
    resource: Seq<char>,
)
    requires
        4 * secret.len() <= HMAC_SHA1_MAX_KEY_LEN,
        4 * (verb.len() + content_md5.len() + content_type.len() + time_line.len()
            + headers_block.len() + resource.len() + 4) <= HMAC_SHA1_MAX_DATA_LEN,
    ensures
        signable(
            secret,
            string_to_sign(verb, content_md5, content_type, time_line, headers_block, resource),
        ),
{
    lemma_string_to_sign_length(
        verb,
        content_md5,
        content_type,
        time_line,
        headers_block,
        resource,
    );
    lemma_short_text_is_signable(
        secret,
        string_to_sign(verb, content_md5, content_type, time_line, headers_block, resource),
    );
}

/// The signed text has the characters of its six parts and four line
/// feeds.
pub proof fn lemma_string_to_sign_length(
    verb: Seq<char>,
    content_md5: Seq<char>,
    content_type: Seq<char>,
    time_line: Seq<char>,
    headers_block: Seq<char>,
    resource: Seq<char>,
)
    ensures
        string_to_sign(verb, content_md5, content_type, time_line, headers_block, resource).len()
            == verb.len() + content_md5.len() + content_type.len() + time_line.len()
            + headers_block.len() + resource.len() + 4,
{
}

/// The number of line feeds in `text`.
pub open spec fn line_feeds(text: Seq<char>) -> nat
    decreases text.len(),
{
    if text.len() == 0 {
        0
    } else {
        line_feeds(text.drop_last()) + if text.last() == '\n' {
            1nat
        } else {
            0nat
        }
    }
}

/// Two texts, one behind the other, have the line feeds of both.
pub proof fn lemma_line_feeds_of_concat(a: Seq<char>, b: Seq<char>)
    ensures
        line_feeds(a + b) == line_feeds(a) + line_feeds(b),
    decreases b.len(),
{
    if b.len() == 0 {
        assert(a + b =~= a);
    } else {
        lemma_line_feeds_of_concat(a, b.drop_last());
        assert((a + b).drop_last() =~= a + b.drop_last());
    }
}

/// The signed text has four line feeds of its own, one behind each of its
/// first four parts, beside those that its parts hold: where the verb, the
/// content fields, the time line and the resource hold none, it has four
/// and one for each provider header line.
pub proof fn lemma_string_to_sign_line_feeds(
    verb: Seq<char>,
    content_md5: Seq<char>,
    content_type: Seq<char>,
    time_line: Seq<char>,
    headers_block: Seq<char>,
    resource: Seq<char>,
)
    ensures
        line_feeds(
            string_to_sign(verb, content_md5, content_type, time_line, headers_block, resource),
        ) == line_feeds(verb) + line_feeds(content_md5) + line_feeds(content_type) + line_feeds(
            time_line,
        ) + line_feeds(headers_block) + line_feeds(resource) + 4,
{
    let nl = seq!['\n'];
    assert(line_feeds(nl) == 1) by {
        assert(nl.drop_last() =~= Seq::<char>::empty());
        assert(line_feeds(nl.drop_last()) == 0);
        assert(nl.last() == '\n');
    }
    let t1 = verb + nl;
    let t2 = t1 + content_md5;
    let t3 = t2 + nl;
    let t4 = t3 + content_type;
    let t5 = t4 + nl;
    let t6 = t5 + time_line;
    let t7 = t6 + nl;
    let t8 = t7 + headers_block;
    lemma_line_feeds_of_concat(verb, nl);
    lemma_line_feeds_of_concat(t1, content_md5);
    lemma_line_feeds_of_concat(t2, nl);
    lemma_line_feeds_of_concat(t3, content_type);
    lemma_line_feeds_of_concat(t4, nl);
    lemma_line_feeds_of_concat(t5, time_line);
    lemma_line_feeds_of_concat(t6, nl);
    lemma_line_feeds_of_concat(t7, headers_block);
    lemma_line_feeds_of_concat(t8, resource);
}

/// A text stands between the same two texts in two longer texts: where the
/// longer texts are equal, so are the two.
proof fn lemma_middle_cancels(pre: Seq<char>, a: Seq<char>, b: Seq<char>, post: Seq<char>)
    requires
        pre + a + post == pre + b + post,
    ensures
        a == b,
{
    let x = pre + a + post;
    let y = pre + b + post;
    assert(x.len() == y.len());
    assert(a.len() == b.len());
    assert(a =~= x.subrange(pre.len() as int, (pre.len() + a.len()) as int));
    assert(b =~= y.subrange(pre.len() as int, (pre.len() + b.len()) as int));
}

/// The signed text tells its parts apart one at a time: two signed texts
/// that agree on five of the six parts and differ in the sixth are
/// different texts.
pub proof fn lemma_single_part_changes_text(
    verb: (Seq<char>, Seq<char>),
    content_md5: (Seq<char>, Seq<char>),
    content_type: (Seq<char>, Seq<char>),
    time_line: (Seq<char>, Seq<char>),
    headers_block: (Seq<char>, Seq<char>),
    resource: (Seq<char>, Seq<char>),
)
    requires
        (if verb.0 == verb.1 { 0int } else { 1int })
            + (if content_md5.0 == content_md5.1 { 0int } else { 1int })
            + (if content_type.0 == content_type.1 { 0int } else { 1int })
            + (if time_line.0 == time_line.1 { 0int } else { 1int })
            + (if headers_block.0 == headers_block.1 { 0int } else { 1int })
            + (if resource.0 == resource.1 { 0int } else { 1int }) == 1,
    ensures
        string_to_sign(
            verb.0,
            content_md5.0,
            content_type.0,
            time_line.0,
            headers_block.0,
            resource.0,
        ) != string_to_sign(
            verb.1,
            content_md5.1,
            content_type.1,
            time_line.1,
            headers_block.1,
            resource.1,
        ),
{
    let nl = seq!['\n'];
    let s0 = string_to_sign(
        verb.0,
        content_md5.0,
        content_type.0,
        time_line.0,
        headers_block.0,
        resource.0,
    );
    let s1 = string_to_sign(
        verb.1,
        content_md5.1,
        content_type.1,
        time_line.1,
        headers_block.1,
        resource.1,
    );
    if s0 == s1 {
        let e = Seq::<char>::empty();
        if verb.0 != verb.1 {
            let post = nl + content_md5.0 + nl + content_type.0 + nl + time_line.0 + nl
                + headers_block.0 + resource.0;
            assert(s0 =~= e + verb.0 + post);
            assert(s1 =~= e + verb.1 + post);
            lemma_middle_cancels(e, verb.0, verb.1, post);
        } else if content_md5.0 != content_md5.1 {
            let pre = verb.0 + nl;
            let post = nl + content_type.0 + nl + time_line.0 + nl + headers_block.0 + resource.0;
            assert(s0 =~= pre + content_md5.0 + post);
            assert(s1 =~= pre + content_md5.1 + post);
            lemma_middle_cancels(pre, content_md5.0, content_md5.1, post);
        } else if content_type.0 != content_type.1 {
            let pre = verb.0 + nl + content_md5.0 + nl;
            let post = nl + time_line.0 + nl + headers_block.0 + resource.0;
            assert(s0 =~= pre + content_type.0 + post);
            assert(s1 =~= pre + content_type.1 + post);
            lemma_middle_cancels(pre, content_type.0, content_type.1, post);
        } else if time_line.0 != time_line.1 {
            let pre = verb.0 + nl + content_md5.0 + nl + content_type.0 + nl;
            let post = nl + headers_block.0 + resource.0;
            assert(s0 =~= pre + time_line.0 + post);
            assert(s1 =~= pre + time_line.1 + post);
            lemma_middle_cancels(pre, time_line.0, time_line.1, post);
        } else if headers_block.0 != headers_block.1 {
            let pre = verb.0 + nl + content_md5.0 + nl + content_type.0 + nl + time_line.0 + nl;
            let post = resource.0;
            assert(s0 =~= pre + headers_block.0 + post);
            assert(s1 =~= pre + headers_block.1 + post);
            lemma_middle_cancels(pre, headers_block.0, headers_block.1, post);
        } else {
            let pre = verb.0 + nl + content_md5.0 + nl + content_type.0 + nl + time_line.0 + nl
                + headers_block.0;
            assert(s0 =~= pre + resource.0 + e);
            assert(s1 =~= pre + resource.1 + e);
            lemma_middle_cancels(pre, resource.0, resource.1, e);
        }
    }
}

/// Where the provider headers are absent, the signed text has no line for
/// them, not even an empty one: the resource follows the line feed of the
/// time line at once.
pub proof fn lemma_absent_headers_add_nothing(
    verb: Seq<char>,
    content_md5: Seq<char>,
    content_type: Seq<char>,
    time_line: Seq<char>,
    resource: Seq<char>,
)
    ensures
        string_to_sign(verb, content_md5, content_type, time_line, headers_block(None), resource)
            == verb + seq!['\n'] + content_md5 + seq!['\n'] + content_type + seq!['\n'] + time_line
            + seq!['\n'] + resource,
{
    assert(string_to_sign(
        verb,
        content_md5,
        content_type,
        time_line,
        headers_block(None),
        resource,
    ) =~= verb + seq!['\n'] + content_md5 + seq!['\n'] + content_type + seq!['\n'] + time_line
        + seq!['\n'] + resource);
}

/// The signature is a function of the secret and the six parts of the
/// signed text: equal parts under the same secret have the same signature.
pub proof fn lemma_signature_deterministic(
    secret: Seq<char>,
    verb: (Seq<char>, Seq<char>),
    content_md5: (Seq<char>, Seq<char>),
    content_type: (Seq<char>, Seq<char>),
    time_line: (Seq<char>, Seq<char>),
    headers_block: (Seq<char>, Seq<char>),
    resource: (Seq<char>, Seq<char>),
)
    requires
        verb.0 == verb.1,
        content_md5.0 == content_md5.1,
        content_type.0 == content_type.1,
        time_line.0 == time_line.1,
        headers_block.0 == headers_block.1,
        resource.0 == resource.1,
    ensures
        signature_text(
            secret,
            string_to_sign(
                verb.0,
                content_md5.0,
                content_type.0,
                time_line.0,
                headers_block.0,
                resource.0,
            ),
        ) == signature_text(
            secret,
            string_to_sign(
                verb.1,
                content_md5.1,
                content_type.1,
                time_line.1,
                headers_block.1,
                resource.1,
            ),
        ),
{
}

} // verus!
