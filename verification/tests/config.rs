use ali_oss::date::UtcDateTime;
use ali_oss::error::SignError;
use ali_oss::request::{
    append_query_pair, header_value, insert_header, is_same_name, set_header, set_path, set_query,
    Header, Method, Request,
};
use ali_oss::web::{fits_in_url, Url, UrlError};
use ali_oss::{BucketLocation, Client, OssConfig};

fn config_with_path(path: &str, is_internal: bool) -> OssConfig {
    OssConfig::new(
        "key-id".to_string(),
        "testsecret".to_string(),
        "my-bucket".to_string(),
        "oss-cn-hangzhou".to_string(),
        path.to_string(),
        is_internal,
    )
}

fn client() -> Client {
    Client::new("key-id", "testsecret", "my-bucket", "oss-cn-hangzhou", "", false)
}

fn new_year_2024() -> UtcDateTime {
    UtcDateTime::from_timestamp(1_704_067_200, 0).unwrap()
}

fn header<'a>(request: &'a Request, name: &str) -> Option<&'a str> {
    header_value(&request.headers, name).map(|v| std::str::from_utf8(v).unwrap())
}

fn names(request: &Request) -> Vec<&str> {
    request.headers.iter().map(|h| h.name.as_str()).collect()
}

#[test]
fn new_trims_one_slash_on_each_side_of_the_path() {
    assert_eq!(config_with_path("/a/b/", false).path, "a/b");
    assert_eq!(config_with_path("a/b", false).path, "a/b");
    assert_eq!(config_with_path("//a//", false).path, "/a/");
    assert_eq!(config_with_path("/", false).path, "");
    assert_eq!(config_with_path("", false).path, "");
    let config = config_with_path("x", true);
    assert_eq!(config.access_key_id, "key-id");
    assert_eq!(config.access_key_secret, "testsecret");
    assert_eq!(config.bucket_name, "my-bucket");
    assert_eq!(config.bucket_location.as_str(), "oss-cn-hangzhou");
    assert!(config.is_internal);
}

#[test]
fn bucket_location_holds_its_code() {
    let location = BucketLocation::new("oss-cn-hangzhou");
    assert_eq!(location.as_str(), "oss-cn-hangzhou");
    let text: &str = location.as_ref();
    assert_eq!(text, "oss-cn-hangzhou");
}

#[test]
fn object_names_take_the_path_prefix() {
    let bare = config_with_path("", false);
    assert_eq!(bare.get_object_name("a.txt"), "a.txt");
    assert_eq!(bare.get_object_name("/a.txt"), "a.txt");
    assert_eq!(bare.get_object_name("//a.txt"), "/a.txt");
    assert_eq!(bare.get_object_name(""), "");
    let prefixed = config_with_path("/base/dir/", false);
    assert_eq!(prefixed.get_object_name("a.txt"), "base/dir/a.txt");
    assert_eq!(prefixed.get_object_name("/a.txt"), "base/dir/a.txt");
    assert_eq!(prefixed.get_object_name(""), "base/dir/");
    assert_eq!(prefixed.get_decoded_object_name("a%20b.txt"), "base/dir/a b.txt");
    assert_eq!(prefixed.get_decoded_object_name("%FF"), "base/dir/%FF");
    assert_eq!(prefixed.get_encoded_object_name("a b/\u{4e2d}.txt").unwrap(), "base/dir/a%20b/%E4%B8%AD.txt");
    assert_eq!(bare.get_encoded_object_name("/a?b#c").unwrap(), "a");
    assert_eq!(bare.get_encoded_object_name("x/../y").unwrap(), "y");
}

#[test]
fn endpoint_and_bucket_addresses() {
    assert_eq!(
        OssConfig::endpoint_url_string("oss-cn-hangzhou", true),
        "https://oss-cn-hangzhou-internal.aliyuncs.com"
    );
    assert_eq!(
        OssConfig::endpoint_url_string("oss-cn-hangzhou", false),
        "https://oss-cn-hangzhou.aliyuncs.com"
    );
    assert_eq!(
        OssConfig::bucket_url_string("hello", "oss-cn-hangzhou", true),
        "https://hello.oss-cn-hangzhou-internal.aliyuncs.com"
    );
    assert_eq!(
        OssConfig::bucket_url_string("hello", "oss-cn-hangzhou", false),
        "https://hello.oss-cn-hangzhou.aliyuncs.com"
    );
    let url = OssConfig::generate_endpoint_url("oss-cn-hangzhou", true).unwrap();
    assert_eq!(url.as_str(), url::Url::parse("https://oss-cn-hangzhou-internal.aliyuncs.com").unwrap().as_str());
    let url = OssConfig::generate_endpoint_url("oss-cn-hangzhou", false).unwrap();
    assert_eq!(url.as_str(), "https://oss-cn-hangzhou.aliyuncs.com/");
    let url = OssConfig::generate_bucket_url("hello", "oss-cn-hangzhou", true).unwrap();
    assert_eq!(url.as_str(), "https://hello.oss-cn-hangzhou-internal.aliyuncs.com/");
    assert_eq!(url.host_str(), Some("hello.oss-cn-hangzhou-internal.aliyuncs.com"));
    let url = OssConfig::generate_bucket_url("hello", "oss-cn-hangzhou", false).unwrap();
    assert_eq!(url.as_str(), url::Url::parse("https://hello.oss-cn-hangzhou.aliyuncs.com").unwrap().as_str());
    assert_eq!(OssConfig::generate_bucket_url("he llo", "x", false).err(), Some(UrlError::Invalid));
    assert_eq!(OssConfig::generate_endpoint_url("", false).unwrap().as_str(), "https://.aliyuncs.com/");
    let config = config_with_path("", true);
    assert_eq!(config.get_endpoint_url().unwrap().as_str(), "https://oss-cn-hangzhou-internal.aliyuncs.com/");
    assert_eq!(config.get_bucket_url().unwrap().as_str(), "https://my-bucket.oss-cn-hangzhou-internal.aliyuncs.com/");
}

#[test]
fn url_parts_and_changes() {
    let url = Url::parse("HTTPS://Example.COM/a b/%7Ec?x=1&y#frag").unwrap();
    assert_eq!(url.as_str(), "https://example.com/a%20b/%7Ec?x=1&y#frag");
    assert_eq!(url.host_str(), Some("example.com"));
    assert_eq!(url.path(), "/a%20b/%7Ec");
    assert_eq!(url.query(), Some("x=1&y"));
    assert_eq!(Url::parse("not an address").err(), Some(UrlError::Invalid));
    assert_eq!(Url::parse("").err(), Some(UrlError::Invalid));
    let url = Url::parse("https://example.com").unwrap();
    assert_eq!(url.path(), "/");
    assert_eq!(url.query(), None);
    let with_path = url.with_path("dir/\u{4e2d} ?#.txt").unwrap();
    assert_eq!(with_path.as_str(), "https://example.com/dir/%E4%B8%AD%20%3F%23.txt");
    assert_eq!(with_path.path(), "/dir/%E4%B8%AD%20%3F%23.txt");
    let with_query = with_path.with_query(Some("acl")).unwrap();
    assert_eq!(with_query.query(), Some("acl"));
    assert_eq!(with_query.path(), with_path.path());
    let with_pair = with_query.with_query_pair("k y", "v&=+\u{e9}").unwrap();
    assert_eq!(with_pair.query(), Some("acl&k+y=v%26%3D%2B%C3%A9"));
    let without = with_pair.with_query(None).unwrap();
    assert_eq!(without.query(), None);
    assert_eq!(without.as_str(), with_path.as_str());
    assert!(fits_in_url("short"));
}

#[test]
fn url_changes_refuse_texts_that_are_too_long() {
    let long = "a".repeat(0x1000_0000);
    assert!(!fits_in_url(&long));
    assert!(fits_in_url(&long[1..]));
    let url = Url::parse("https://example.com").unwrap();
    assert_eq!(url.with_path(&long).err(), Some(UrlError::TooLong));
    assert_eq!(url.with_query(Some(&long)).err(), Some(UrlError::TooLong));
    assert_eq!(url.with_query_pair("k", &long).err(), Some(UrlError::TooLong));
    assert_eq!(url.with_query_pair(&long, "v").err(), Some(UrlError::TooLong));
    let request = set_path(Ok(Request::new(Method::Get, url)), &long);
    assert_eq!(request.err(), Some(SignError::Url(UrlError::TooLong)));
    assert_eq!(SignError::Url(UrlError::TooLong).message(), "the address is too long");
    assert_eq!(SignError::Url(UrlError::Invalid).message(), "the address is not valid");
    assert_eq!(SignError::InputTooLong.message(), "the secret or the text to sign is too long");
    assert_eq!(SignError::ExpiryOverflow.message(), "the expiry time is out of range");
    assert_eq!(
        SignError::InvalidHeaderValue.message(),
        "a content header holds a value that is not UTF-8"
    );
}

#[test]
fn header_names_ignore_case() {
    assert!(is_same_name("Content-MD5", "content-md5"));
    assert!(!is_same_name("Content-MD5", "content-md"));
    let mut headers = vec![
        Header::new("A", b"1"),
        Header::new("b", b"2"),
        Header::new("a", b"3"),
        Header::new("c", b"4"),
    ];
    assert_eq!(header_value(&headers, "a"), Some(&b"1"[..]));
    assert_eq!(header_value(&headers, "C"), Some(&b"4"[..]));
    assert_eq!(header_value(&headers, "d"), None);
    set_header(&mut headers, "a", b"5");
    let listed: Vec<(&str, &[u8])> = headers.iter().map(|h| (h.name.as_str(), h.value.as_slice())).collect();
    assert_eq!(listed, vec![("b", &b"2"[..]), ("c", &b"4"[..]), ("a", &b"5"[..])]);
    set_header(&mut headers, "D", b"6");
    assert_eq!(headers.len(), 4);
    assert_eq!(headers[3].name, "D");
}

#[test]
fn methods_write_their_verbs() {
    let all = [
        (Method::Options, "OPTIONS"),
        (Method::Get, "GET"),
        (Method::Post, "POST"),
        (Method::Put, "PUT"),
        (Method::Delete, "DELETE"),
        (Method::Head, "HEAD"),
        (Method::Trace, "TRACE"),
        (Method::Connect, "CONNECT"),
        (Method::Patch, "PATCH"),
        (Method::Extension("PROPFIND".to_string()), "PROPFIND"),
    ];
    for (method, verb) in all {
        assert_eq!(method.as_str(), verb);
        assert_eq!(method.clone().as_str(), verb);
    }
}

#[test]
fn request_steps() {
    let url = Url::parse("https://b.example.com").unwrap();
    let request = Ok(Request::new(Method::Get, url));
    let request = set_path(request, "a b");
    let request = set_query(request, Some("acl"));
    let request = append_query_pair(request, "k", "v");
    let request = insert_header(request, "X", b"1").unwrap();
    assert_eq!(request.url.as_str(), "https://b.example.com/a%20b?acl&k=v");
    assert_eq!(names(&request), vec!["X"]);
    assert!(request.body.is_none());
    let failed: Result<Request, SignError> = Err(SignError::HostNotFound);
    assert_eq!(set_path(failed, "x").err(), Some(SignError::HostNotFound));
}

#[test]
fn bucket_request_describes_its_body() {
    let config = config_with_path("", false);
    let request = config.get_bucket_request(Method::Put, Some(b"hello world".to_vec())).unwrap();
    assert_eq!(request.method.as_str(), "PUT");
    assert_eq!(request.url.as_str(), "https://my-bucket.oss-cn-hangzhou.aliyuncs.com/");
    assert_eq!(names(&request), vec!["content-type", "content-md5", "content-length"]);
    assert_eq!(header(&request, "Content-Type"), Some("text/plain"));
    assert_eq!(header(&request, "Content-MD5"), Some("XrY7u+Ae7tCTyyK7j1rNww=="));
    assert_eq!(header(&request, "Content-Length"), Some("11"));
    assert_eq!(request.body, Some(b"hello world".to_vec()));

    let png = vec![0x89, 0x50, 0x4e, 0x47, 0x0d, 0x0a, 0x1a, 0x0a];
    let request = config.get_bucket_request(Method::Put, Some(png)).unwrap();
    assert_eq!(header(&request, "content-type"), Some("image/png"));
    assert_eq!(header(&request, "content-md5"), Some("6d0nlwGMrXkYbgPoxa7I3A=="));
    assert_eq!(header(&request, "content-length"), Some("8"));

    let request = config.get_bucket_request(Method::Put, Some(Vec::new())).unwrap();
    assert_eq!(header(&request, "content-md5"), Some("1B2M2Y8AsgTpgAmY7PhCfg=="));
    assert_eq!(header(&request, "content-length"), Some("0"));

    let request = config.get_bucket_request(Method::Get, None).unwrap();
    assert!(request.headers.is_empty());
    assert!(request.body.is_none());

    let request = config.get_endpoint_request(Method::Get).unwrap();
    assert_eq!(request.url.as_str(), "https://oss-cn-hangzhou.aliyuncs.com/");
    assert!(request.headers.is_empty());

    let broken = OssConfig::new("i".into(), "s".into(), "my bucket".into(), "x".into(), "".into(), false);
    assert_eq!(broken.get_bucket_request(Method::Get, None).err(), Some(SignError::Url(UrlError::Invalid)));
    assert_eq!(broken.get_bucket_url().err(), Some(UrlError::Invalid));
}

#[test]
fn put_object_request_is_signed() {
    let request = client().put_object_request("/dir/a b.txt", b"hello world".to_vec(), new_year_2024()).unwrap();
    assert_eq!(request.method.as_str(), "PUT");
    assert_eq!(request.url.as_str(), "https://my-bucket.oss-cn-hangzhou.aliyuncs.com/dir/a%20b.txt");
    assert_eq!(
        names(&request),
        vec!["content-type", "content-md5", "content-length", "Authorization", "Date"]
    );
    assert_eq!(header(&request, "authorization"), Some("OSS key-id:JxqYDGKEdDPatu0aC3vemDb+fcU="));
    assert_eq!(header(&request, "date"), Some("Mon, 01 Jan 2024 00:00:00 GMT"));
    assert_eq!(request.body, Some(b"hello world".to_vec()));
}

#[test]
fn append_object_request_signs_the_bare_flag() {
    let request = client().append_object_request("log.txt", b"hello world".to_vec(), 5, new_year_2024()).unwrap();
    assert_eq!(request.method.as_str(), "POST");
    assert_eq!(request.url.as_str(), "https://my-bucket.oss-cn-hangzhou.aliyuncs.com/log.txt?append&position=5");
    assert_eq!(header(&request, "position"), Some("5"));
    assert_eq!(header(&request, "authorization"), Some("OSS key-id:VIsJD+7Ny13w7zqoV2Jq8b1TKNo="));
}

#[test]
fn bucket_requests() {
    let c = client();
    let date = new_year_2024();
    let request = c.list_buckets_request(date).unwrap();
    assert_eq!((request.method.as_str(), request.url.as_str()), ("GET", "https://oss-cn-hangzhou.aliyuncs.com/"));
    assert_eq!(header(&request, "authorization"), Some("OSS key-id:LY6a3ylB3vfyi/9mB09xjIG3R28="));
    let request = c.put_bucket_request(date).unwrap();
    assert_eq!((request.method.as_str(), request.url.as_str()), ("PUT", "https://my-bucket.oss-cn-hangzhou.aliyuncs.com/"));
    let request = c.delete_bucket_request(date).unwrap();
    assert_eq!((request.method.as_str(), request.url.as_str()), ("DELETE", "https://my-bucket.oss-cn-hangzhou.aliyuncs.com/"));
    let request = c.get_bucket_info_request(date).unwrap();
    assert_eq!(request.url.as_str(), "https://my-bucket.oss-cn-hangzhou.aliyuncs.com/?bucketInfo");
    assert_eq!(header(&request, "authorization"), Some("OSS key-id:l1Skaq1twxSqgr0thJZyjQoyHhg="));
    let request = c.get_bucket_location_request(date).unwrap();
    assert_eq!(request.url.as_str(), "https://my-bucket.oss-cn-hangzhou.aliyuncs.com/?location");
    let request = c.get_bucket_stat_request(date).unwrap();
    assert_eq!(request.url.as_str(), "https://my-bucket.oss-cn-hangzhou.aliyuncs.com/?stat");
}

#[test]
fn list_requests() {
    let c = Client::new("key-id", "testsecret", "my-bucket", "oss-cn-hangzhou", "base", false);
    let date = new_year_2024();
    let request = c.list_objects_request(None, None, date).unwrap();
    assert_eq!(request.url.as_str(), "https://my-bucket.oss-cn-hangzhou.aliyuncs.com/?list-type=2");
    assert_eq!(header(&request, "authorization"), Some("OSS key-id:Gk18xhBw/gHIOoWCFypOBZI3Dhw="));
    let request = c.list_objects_request(Some("dir/"), Some("/"), date).unwrap();
    assert_eq!(
        request.url.as_str(),
        "https://my-bucket.oss-cn-hangzhou.aliyuncs.com/?list-type=2&prefix=base%2Fdir%2F&delimiter=%2F"
    );
    assert_eq!(header(&request, "authorization"), Some("OSS key-id:Gk18xhBw/gHIOoWCFypOBZI3Dhw="));
    let request = c.list_folders_request(None, date).unwrap();
    assert_eq!(request.url.as_str(), "https://my-bucket.oss-cn-hangzhou.aliyuncs.com/?list-type=2&delimiter=%2F");
    let request = c.list_files_request(Some("/x"), date).unwrap();
    assert_eq!(
        request.url.as_str(),
        "https://my-bucket.oss-cn-hangzhou.aliyuncs.com/?list-type=2&prefix=base%2Fx&delimiter=%2F"
    );
}

#[test]
fn object_requests() {
    let c = client();
    let date = new_year_2024();
    let request = c.get_object_request("\u{4e2d}\u{6587}.txt", date).unwrap();
    assert_eq!(request.method.as_str(), "GET");
    assert_eq!(request.url.as_str(), "https://my-bucket.oss-cn-hangzhou.aliyuncs.com/%E4%B8%AD%E6%96%87.txt");
    assert_eq!(header(&request, "authorization"), Some("OSS key-id:VZ8gkK9rPpVZSTgowrfbF9TOv6c="));
    let request = c.delete_object_request("a.txt", date).unwrap();
    assert_eq!((request.method.as_str(), request.url.path()), ("DELETE", "/a.txt"));
    let request = c.head_object_request("a.txt", date).unwrap();
    assert_eq!((request.method.as_str(), request.url.path()), ("HEAD", "/a.txt"));
    let request = c.put_object_stream_request("a.txt", date).unwrap();
    assert_eq!((request.method.as_str(), request.url.path()), ("PUT", "/a.txt"));
    assert_eq!(names(&request), vec!["Authorization", "Date"]);
    let request = c.get_object_meta_request("a.txt", date).unwrap();
    assert_eq!(request.url.as_str(), "https://my-bucket.oss-cn-hangzhou.aliyuncs.com/a.txt?objectMeta");
    assert_eq!(header(&request, "authorization"), Some("OSS key-id:MxLn9ZyiaY/aHLdIwq1cPSBc5hM="));
    let request = c.copy_object_request("dst.txt", "/src.txt", date).unwrap();
    assert_eq!((request.method.as_str(), request.url.path()), ("PUT", "/dst.txt"));
    assert_eq!(header(&request, "x-oss-copy-source"), Some("/my-bucket/src.txt"));
    assert_eq!(header(&request, "authorization"), Some("OSS key-id:VwGi2/ar0nvuLwf0JImEosa5iwU="));
    let request = c.put_symlink_request("link.txt", "target.txt", date).unwrap();
    assert_eq!(request.url.as_str(), "https://my-bucket.oss-cn-hangzhou.aliyuncs.com/link.txt?symlink");
    assert_eq!(header(&request, "x-oss-symlink-target"), Some("target.txt"));
    assert_eq!(header(&request, "authorization"), Some("OSS key-id:cnQJ1kli1DNZBnV2fh3BIl7Lg4k="));
    let request = c.get_symlink_request("link.txt", date).unwrap();
    assert_eq!((request.method.as_str(), request.url.as_str()), ("GET", "https://my-bucket.oss-cn-hangzhou.aliyuncs.com/link.txt?symlink"));
}

#[test]
fn presigned_url_under_a_path_prefix() {
    let c = Client::new("key-id", "testsecret", "my-bucket", "oss-cn-hangzhou", "/base/dir/", true);
    let url = c.sign_object_until("/1.html", 1_700_000_000).unwrap();
    assert_eq!(
        url,
        "https://my-bucket.oss-cn-hangzhou.aliyuncs.com/base/dir/1.html?OSSAccessKeyId=key-id&Expires=1700000000&Signature=fHR7OJKH5l1dgeZYjybgSjYcgCM%3D"
    );
    assert_eq!(c.oss_config().path, "base/dir");
    assert_eq!(c.bucket().name, "my-bucket");
    assert_eq!(c.bucket().location.as_str(), "oss-cn-hangzhou");
    assert_eq!(c.bucket().comment, "");
    assert!(c.bucket().creation_date.is_none());
}
