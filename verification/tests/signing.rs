use ali_oss::canonicalized_headers::CanonicalizedHeaders;
use ali_oss::canonicalized_resource::CanonicalizedResource;
use ali_oss::client::{presign_expiry, Client};
use ali_oss::date::{UtcDateTime, MAX_TIMESTAMP, MIN_TIMESTAMP};
use ali_oss::error::SignError;
use ali_oss::oss_config::OssConfig;
use ali_oss::request::{Header, Method, Request};
use ali_oss::signature::header_signature::HeaderSignature;
use ali_oss::signature::param_signature::ParamSignature;
use ali_oss::signature::{
    build_string_to_sign, can_sign, sign_text, SignatureAble, SignatureContext, SignatureTime,
};
use ali_oss::web::{Url, UrlError};

fn config() -> OssConfig {
    OssConfig::new(
        "key-id".to_string(),
        "testsecret".to_string(),
        "my-bucket".to_string(),
        "oss-cn-hangzhou".to_string(),
        "".to_string(),
        false,
    )
}

fn new_year_2024() -> UtcDateTime {
    UtcDateTime::from_timestamp(1_704_067_200, 0).unwrap()
}

#[test]
fn put_without_headers_signs_to_known_vector() {
    let text = build_string_to_sign(
        "PUT",
        &None,
        &None,
        "Tue, 01 Jan 2024 00:00:00 GMT",
        &CanonicalizedHeaders::default(),
        &CanonicalizedResource::new("/my-bucket/lib.rs"),
    );
    assert_eq!(text, "PUT\n\n\nTue, 01 Jan 2024 00:00:00 GMT\n/my-bucket/lib.rs");
    assert_eq!(sign_text("testsecret", &text), "+2uPy2Z2Vxf5NCMli7Efb9dIAWE=");
}

#[test]
fn signature_of_empty_text_under_empty_secret() {
    assert!(can_sign("", ""));
    assert_eq!(sign_text("", ""), "+9sdGxiqbAgyS31ktx+3Y3BpDh0=");
}

#[test]
fn absent_headers_leave_no_blank_line() {
    let absent = build_string_to_sign(
        "GET",
        &None,
        &None,
        "d",
        &CanonicalizedHeaders::from_headers(&[Header::new("Host", b"h")]),
        &CanonicalizedResource::new("/r"),
    );
    assert_eq!(absent, "GET\n\n\nd\n/r");
    let present = build_string_to_sign(
        "GET",
        &Some("md5".to_string()),
        &Some("text/plain".to_string()),
        "d",
        &CanonicalizedHeaders::from_headers(&[Header::new("X-Oss-A", b"1")]),
        &CanonicalizedResource::new("/r"),
    );
    assert_eq!(present, "GET\nmd5\ntext/plain\nd\nx-oss-a:1\n/r");
}

#[test]
fn header_signature_writes_the_http_date() {
    let signature = HeaderSignature::new(
        Method::Put,
        None,
        None,
        new_year_2024(),
        CanonicalizedHeaders::default(),
        CanonicalizedResource::new("/my-bucket/lib.rs"),
    );
    assert_eq!(signature.get_date_string(), "Mon, 01 Jan 2024 00:00:00 GMT");
    assert_eq!(
        signature.get_string_to_sign(),
        "PUT\n\n\nMon, 01 Jan 2024 00:00:00 GMT\n/my-bucket/lib.rs"
    );
    assert_eq!(signature.get_signature_string(&config()), "/lJNRmn9oneLWQ5PQrhsTvogcGg=");
}

#[test]
fn header_signature_default_is_a_get_of_the_root() {
    let signature = HeaderSignature::default_at(new_year_2024());
    assert_eq!(signature.get_string_to_sign(), "GET\n\n\nMon, 01 Jan 2024 00:00:00 GMT\n/");
}

#[test]
fn param_signature_writes_the_expiry_second() {
    let signature = ParamSignature::new(
        Method::Get,
        None,
        None,
        1_700_000_000,
        CanonicalizedHeaders::new(None),
        CanonicalizedResource::new("/my-bucket/1.html"),
    );
    let text = signature.get_string_to_sign();
    assert_eq!(text, "GET\n\n\n1700000000\n/my-bucket/1.html");
    assert_eq!(text.split('\n').nth(3), Some("1700000000"));
    assert_eq!(signature.get_signature_string(&config()), "JcaYtnIofrT4H0FqXUKjfKpheb8=");
    let default = ParamSignature::default_at(-5);
    assert_eq!(default.get_string_to_sign(), "GET\n\n\n-5\n/");
}

#[test]
fn one_context_for_both_ways_of_signing() {
    let by_header = HeaderSignature::new(
        Method::Put,
        Some("m".to_string()),
        Some("t".to_string()),
        new_year_2024(),
        CanonicalizedHeaders::from_headers(&[Header::new("x-oss-a", b"1")]),
        CanonicalizedResource::new("/b/o"),
    );
    let text = by_header.get_string_to_sign();
    let signature = by_header.get_signature_string(&config());
    let context = by_header.into_context();
    assert!(matches!(context.time, SignatureTime::Date(_)));
    assert_eq!(context.get_string_to_sign(), text);
    assert_eq!(text, "PUT\nm\nt\nMon, 01 Jan 2024 00:00:00 GMT\nx-oss-a:1\n/b/o");
    assert_eq!(context.get_signature_string(&config()), signature);

    let by_param = ParamSignature::new(
        Method::Get,
        None,
        None,
        1_700_000_000,
        CanonicalizedHeaders::default(),
        CanonicalizedResource::new("/my-bucket/1.html"),
    );
    let context = by_param.into_context();
    assert!(matches!(context.time, SignatureTime::Expires(1_700_000_000)));
    assert_eq!(context.get_string_to_sign(), "GET\n\n\n1700000000\n/my-bucket/1.html");
    assert_eq!(context.get_signature_string(&config()), "JcaYtnIofrT4H0FqXUKjfKpheb8=");
    assert_eq!(SignatureTime::Expires(-1).to_line(), "-1");
    assert_eq!(SignatureTime::Date(new_year_2024()).to_line(), "Mon, 01 Jan 2024 00:00:00 GMT");
    let fresh = SignatureContext::new(
        Method::Delete,
        None,
        None,
        SignatureTime::Expires(0),
        CanonicalizedHeaders::default(),
        CanonicalizedResource::default(),
    );
    assert_eq!(fresh.get_string_to_sign(), "DELETE\n\n\n0\n/");
}

#[test]
fn signing_twice_gives_the_same_signature() {
    let make = || {
        HeaderSignature::new(
            Method::Put,
            Some("m".to_string()),
            None,
            new_year_2024(),
            CanonicalizedHeaders::default(),
            CanonicalizedResource::new("/my-bucket/lib.rs"),
        )
    };
    let first = make().get_signature_string(&config());
    let second = make().get_signature_string(&config());
    assert_eq!(first, second);
}

#[test]
fn changing_one_field_changes_the_signature() {
    let sign = |method: Method, md5: Option<&str>, resource: &str| {
        HeaderSignature::new(
            method,
            md5.map(str::to_string),
            None,
            new_year_2024(),
            CanonicalizedHeaders::default(),
            CanonicalizedResource::new(resource),
        )
        .get_signature_string(&config())
    };
    let base = sign(Method::Put, None, "/my-bucket/lib.rs");
    assert_ne!(base, sign(Method::Get, None, "/my-bucket/lib.rs"));
    assert_ne!(base, sign(Method::Put, Some("a"), "/my-bucket/lib.rs"));
    assert_ne!(base, sign(Method::Put, None, "/my-bucket/lib.rt"));
    // An absent Content-MD5 and an empty one write the same signed text.
    assert_eq!(base, sign(Method::Put, Some(""), "/my-bucket/lib.rs"));
}

#[test]
fn presigned_url_carries_expiry_and_signature() {
    let client = Client::new("key-id", "testsecret", "my-bucket", "oss-cn-hangzhou", "", false);
    let url = client.sign_object_until("1.html", 1_700_000_000).unwrap();
    assert_eq!(
        url,
        "https://my-bucket.oss-cn-hangzhou.aliyuncs.com/1.html?OSSAccessKeyId=key-id&Expires=1700000000&Signature=JcaYtnIofrT4H0FqXUKjfKpheb8%3D"
    );
    assert!(url.contains("Expires=1700000000"));
}

#[test]
fn presigned_url_signs_the_canonical_resource_of_the_address() {
    let client = Client::new("key-id", "testsecret", "my-bucket", "oss-cn-hangzhou", "", false);
    let host = "https://my-bucket.oss-cn-hangzhou.aliyuncs.com";
    let tail = "OSSAccessKeyId=key-id&Expires=1700000000&Signature=";
    // A space is escaped in the address and signed as a space.
    let spaced = format!("{host}/a%20b.txt?{tail}y9yKgMdxXPHKZfUjrKLWPbePo9Y%3D");
    assert_eq!(client.sign_object_until("a b.txt", 1_700_000_000).unwrap(), spaced);
    assert_eq!(client.sign_object_until("a%20b.txt", 1_700_000_000).unwrap(), spaced);
    assert_eq!(
        client.sign_object_until("\u{4e2d}.txt", 1_700_000_000).unwrap(),
        format!("{host}/%E4%B8%AD.txt?{tail}wFMcg7L9hllueY%2BwVooAHq4IbW0%3D")
    );
    // A bare flag behind the name is a sub-resource, and is signed.
    assert_eq!(
        client.sign_object_until("a?acl", 1_700_000_000).unwrap(),
        format!("{host}/a?acl&{tail}lxiJV5%2FBJ0P66WvYqKlmNcxEgFs%3D")
    );
    // What stands behind a `#` is no part of the resource.
    assert_eq!(
        client.sign_object_until("a#frag", 1_700_000_000).unwrap(),
        format!("{host}/a?{tail}39dObdUrNhHuWRdOVY2q8skeMB4%3D#frag")
    );
}

#[test]
fn presigned_url_from_now_and_duration() {
    let client = Client::new("key-id", "testsecret", "my-bucket", "oss-cn-hangzhou", "", false);
    let url = client.sign_object("/1.html", 1_699_999_700, 600_000_000, 299, 400_000_000).unwrap();
    assert_eq!(
        url,
        "https://my-bucket.oss-cn-hangzhou.aliyuncs.com/1.html?OSSAccessKeyId=key-id&Expires=1700000000&Signature=JcaYtnIofrT4H0FqXUKjfKpheb8%3D"
    );
}

#[test]
fn presign_expiry_adds_and_checks_the_range() {
    assert_eq!(presign_expiry(100, 0, 300, 0), Ok(400));
    assert_eq!(presign_expiry(100, 999_999_999, 300, 1), Ok(401));
    assert_eq!(presign_expiry(100, 999_999_998, 300, 1), Ok(400));
    assert_eq!(presign_expiry(-10, 0, 3, 0), Ok(-7));
    assert_eq!(presign_expiry(MAX_TIMESTAMP, 0, 0, 0), Ok(MAX_TIMESTAMP));
    assert_eq!(presign_expiry(MAX_TIMESTAMP, 0, 1, 0), Err(SignError::ExpiryOverflow));
    assert_eq!(presign_expiry(MAX_TIMESTAMP, 500_000_000, 0, 500_000_000), Err(SignError::ExpiryOverflow));
    assert_eq!(presign_expiry(0, 0, u64::MAX, 0), Err(SignError::ExpiryOverflow));
    assert_eq!(presign_expiry(MIN_TIMESTAMP - 1, 0, 1, 0), Err(SignError::ExpiryOverflow));
    assert_eq!(presign_expiry(MAX_TIMESTAMP + 1, 0, 0, 0), Err(SignError::ExpiryOverflow));
    assert_eq!(presign_expiry(MIN_TIMESTAMP, 0, 0, 0), Ok(MIN_TIMESTAMP));
}

#[test]
fn presign_fails_on_a_bucket_that_is_no_host() {
    let client = Client::new("key-id", "testsecret", "my bucket", "oss-cn-hangzhou", "", false);
    assert_eq!(client.sign_object_until("1.html", 1), Err(SignError::Url(UrlError::Invalid)));
    let overflow = client.sign_object("1.html", MAX_TIMESTAMP, 0, 1, 0);
    assert_eq!(overflow, Err(SignError::ExpiryOverflow));
}

#[test]
fn sign_header_request_sets_authorization_and_date() {
    let url = Url::parse("https://my-bucket.oss-cn-hangzhou.aliyuncs.com/lib.rs").unwrap();
    let mut request = Request::new(Method::Put, url);
    request.headers.push(Header::new("date", b"stale"));
    request.headers.push(Header::new("Accept", b"*/*"));
    config().sign_header_request(&mut request, new_year_2024()).unwrap();
    let names: Vec<&str> = request.headers.iter().map(|h| h.name.as_str()).collect();
    assert_eq!(names, vec!["Accept", "Authorization", "Date"]);
    assert_eq!(request.headers[1].value, b"OSS key-id:/lJNRmn9oneLWQ5PQrhsTvogcGg=".to_vec());
    assert_eq!(request.headers[2].value, b"Mon, 01 Jan 2024 00:00:00 GMT".to_vec());
}

#[test]
fn signed_headers_cover_content_and_provider_headers() {
    let url = Url::parse("https://my-bucket.oss-cn-hangzhou.aliyuncs.com/a%20b.txt?acl").unwrap();
    let mut request = Request::new(Method::Put, url);
    request.headers.push(Header::new("content-md5", b"XrY7u+Ae7tCTyyK7j1rNww=="));
    request.headers.push(Header::new("Content-Type", b"text/plain"));
    request.headers.push(Header::new("X-OSS-Meta-B", b"2"));
    request.headers.push(Header::new("x-oss-meta-a", b"1"));
    let signature = config().header_signature_of(&request, new_year_2024()).unwrap();
    let text = signature.get_string_to_sign();
    assert_eq!(
        text,
        "PUT\nXrY7u+Ae7tCTyyK7j1rNww==\ntext/plain\nMon, 01 Jan 2024 00:00:00 GMT\nx-oss-meta-a:1\nx-oss-meta-b:2\n/my-bucket/a b.txt?acl"
    );
    let signed = config().signed_headers(&request, new_year_2024()).unwrap();
    assert_eq!(signed.date, "Mon, 01 Jan 2024 00:00:00 GMT");
    assert_eq!(signed.authorization, format!("OSS key-id:{}", sign_text("testsecret", &text)));
}

#[test]
fn endpoint_requests_sign_the_root_resource() {
    for address in [
        "https://oss-cn-hangzhou.aliyuncs.com/?x=1",
        "https://oss-cn-hangzhou-internal.aliyuncs.com/a/b?acl",
    ] {
        let request = Request::new(Method::Get, Url::parse(address).unwrap());
        let signature = config().header_signature_of(&request, new_year_2024()).unwrap();
        assert_eq!(signature.canonicalized_resource.as_str(), "/", "{address}");
    }
}

#[test]
fn hosts_that_only_start_with_the_location_are_on_the_bucket() {
    for (address, resource) in [
        ("https://oss-cn-hangzhou.example.com/k.txt", "/my-bucket/k.txt"),
        ("https://oss-cn-hangzhou/k.txt", "/my-bucket/k.txt"),
        ("https://oss-cn-hangzhou.aliyuncs.com.cn/k.txt?acl", "/my-bucket/k.txt?acl"),
        ("https://oss-cn-hangzhou-internal-x.aliyuncs.com/", "/my-bucket/"),
        ("https://x.oss-cn-hangzhou.aliyuncs.com/k.txt", "/my-bucket/k.txt"),
    ] {
        let request = Request::new(Method::Get, Url::parse(address).unwrap());
        let signature = config().header_signature_of(&request, new_year_2024()).unwrap();
        assert_eq!(signature.canonicalized_resource.as_str(), resource, "{address}");
    }
}

#[test]
fn bucket_named_after_its_location_signs_its_own_resource() {
    let config = OssConfig::new(
        "ak".to_string(),
        "sk".to_string(),
        "oss-cn-hangzhou-logs".to_string(),
        "oss-cn-hangzhou".to_string(),
        "".to_string(),
        false,
    );
    let url = Url::parse("https://oss-cn-hangzhou-logs.oss-cn-hangzhou.aliyuncs.com/k.txt").unwrap();
    let mut request = Request::new(Method::Get, url);
    let signature = config.header_signature_of(&request, new_year_2024()).unwrap();
    assert_eq!(signature.canonicalized_resource.as_str(), "/oss-cn-hangzhou-logs/k.txt");
    assert_eq!(
        signature.get_string_to_sign(),
        "GET\n\n\nMon, 01 Jan 2024 00:00:00 GMT\n/oss-cn-hangzhou-logs/k.txt"
    );
    assert_eq!(config.sign_header_request(&mut request, new_year_2024()), Ok(()));
    assert_eq!(request.headers[0].name, "Authorization");
    assert_eq!(request.headers[0].value, b"OSS ak:eG2mqE2facyYHhlJ+2mNCAnfN0M=".to_vec());
    assert_eq!(sign_text("sk", &signature.get_string_to_sign()), "eG2mqE2facyYHhlJ+2mNCAnfN0M=");

    // The same through the client that builds the request.
    let client = Client::new("ak", "sk", "oss-cn-hangzhou-logs", "oss-cn-hangzhou", "", false);
    let request = client.get_object_request("k.txt", new_year_2024()).unwrap();
    assert_eq!(request.url.host_str(), Some("oss-cn-hangzhou-logs.oss-cn-hangzhou.aliyuncs.com"));
    assert_eq!(request.headers[0].value, b"OSS ak:eG2mqE2facyYHhlJ+2mNCAnfN0M=".to_vec());
    // A request to the endpoint itself still signs the root.
    let request = client.list_buckets_request(new_year_2024()).unwrap();
    assert_eq!(request.headers[0].value, b"OSS ak:kTIra5xxp4BpTCYb2W454/Eu/cU=".to_vec());
}

#[test]
fn signing_fails_without_a_host() {
    let url = Url::parse("data:text/plain,hello").unwrap();
    assert_eq!(url.host_str(), None);
    let mut request = Request::new(Method::Get, url);
    let before = request.headers.len();
    let r = config().sign_header_request(&mut request, new_year_2024());
    assert_eq!(r, Err(SignError::HostNotFound));
    assert_eq!(request.headers.len(), before);
    assert_eq!(SignError::HostNotFound.message(), "host not found");
}

#[test]
fn signing_fails_on_a_content_header_that_is_not_utf8() {
    let url = Url::parse("https://my-bucket.oss-cn-hangzhou.aliyuncs.com/lib.rs").unwrap();
    let mut request = Request::new(Method::Put, url);
    request.headers.push(Header::new("Content-Type", &[0xff, 0xfe]));
    let r = config().signed_headers(&request, new_year_2024());
    assert_eq!(r.err(), Some(SignError::InvalidHeaderValue));
    request.headers.clear();
    request.headers.push(Header::new("content-MD5", &[0xc3]));
    let r = config().signed_headers(&request, new_year_2024());
    assert_eq!(r.err(), Some(SignError::InvalidHeaderValue));
    // A provider header that is not UTF-8 is left out, and signing goes on.
    request.headers.clear();
    request.headers.push(Header::new("x-oss-meta-a", &[0xff]));
    let signature = config().header_signature_of(&request, new_year_2024()).unwrap();
    assert_eq!(signature.canonicalized_oss_headers.string_for_sign(), None);
}
