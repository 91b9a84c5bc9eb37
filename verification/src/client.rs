//! A client of one bucket: what it asks of the service, and the addresses
//! that it signs.

use crate::bucket::Bucket;
use crate::canonicalized_headers::CanonicalizedHeaders;
use crate::canonicalized_resource::{resource_text, CanonicalizedResource};
use crate::date::{MAX_TIMESTAMP, MIN_TIMESTAMP};
use crate::error::SignError;
use crate::date::UtcDateTime;
use crate::oss_config::{
    bucket_url_text, endpoint_url_text, new_request_view, object_name_text, then_signed, OssConfig,
};
use crate::request::{
    append_query_pair, insert_header, request_result_view, set_path, set_query, then_header,
    then_path, then_query, then_query_pair, Method, Request, RequestView,
};
use crate::signature::param_signature::ParamSignature;
use crate::signature::{can_sign, signable, signature_text, string_to_sign, SignatureAble};
use crate::text::{decimal, u64_to_string};
use vstd::utf8::encode_utf8;
use crate::web::{fits_url, parsed_url, url_change, url_with_query_pair, Url, UrlError, UrlView};
use vstd::prelude::*;

verus! {

/// The second in which a signed address expires that is made at `now_secs`
/// seconds of the Unix epoch and `now_nanos` nanoseconds, and is to be good
/// for `duration_secs` seconds and `duration_nanos` nanoseconds.
pub open spec fn expiry_second(
    now_secs: i64,
    now_nanos: u32,
    duration_secs: u64,
    duration_nanos: u32,
) -> int {
    now_secs + duration_secs + (now_nanos + duration_nanos) / 1_000_000_000
}

/// The second in which a signed address expires; fails where the time now,
/// or the time of expiry, is out of the range of dates.
pub fn presign_expiry(now_secs: i64, now_nanos: u32, duration_secs: u64, duration_nanos: u32) -> (r:
    Result<i64, SignError>)
    ensures
        r is Ok <==> MIN_TIMESTAMP <= now_secs && expiry_second(
            now_secs,
            now_nanos,
            duration_secs,
            duration_nanos,
        ) <= MAX_TIMESTAMP,
        r matches Ok(e) ==> e == expiry_second(now_secs, now_nanos, duration_secs, duration_nanos),
        r matches Err(e) ==> e == SignError::ExpiryOverflow,
{
    if now_secs < MIN_TIMESTAMP || now_secs > MAX_TIMESTAMP {
        return Err(SignError::ExpiryOverflow);
    }
    let carry: u64 = (now_nanos as u64 + duration_nanos as u64) / 1_000_000_000;
    let room: u64 = (MAX_TIMESTAMP - now_secs) as u64;
    if duration_secs > room || carry > room - duration_secs {
        return Err(SignError::ExpiryOverflow);
    }
    Ok(now_secs + (duration_secs + carry) as i64)
}

/// The text that is signed for the address `link` of an object of the
/// bucket `bucket_name` that expires at the second `expires`: that of a
/// `GET` with no content and no provider headers, whose resource is the
/// canonical resource of a request to that address on the bucket.
pub open spec fn presign_text(bucket_name: Seq<char>, link: UrlView, expires: i64) -> Seq<char> {
    string_to_sign(
        "GET"@,
        Seq::empty(),
        Seq::empty(),
        decimal(expires as int),
        Seq::empty(),
        resource_text(bucket_name, link.path, link.query),
    )
}

/// The text of the address of the object `name` of a bucket.
pub open spec fn object_link_text(
    bucket_name: Seq<char>,
    bucket_location: Seq<char>,
    name: Seq<char>,
) -> Seq<char> {
    "https://"@ + bucket_name + seq!['.'] + bucket_location + ".aliyuncs.com/"@ + name
}

/// An address with one more pair at the end of its query string, where the
/// address was made and the pair can be added.
pub open spec fn add_query_pair(
    url: Result<UrlView, SignError>,
    name: Seq<char>,
    value: Seq<char>,
) -> Result<UrlView, SignError> {
    match url {
        Err(e) => Err(e),
        Ok(u) => match url_change(
            fits_url(u.href) && fits_url(name) && fits_url(value),
            url_with_query_pair(u.href, name, value),
        ) {
            Ok(changed) => Ok(changed),
            Err(e) => Err(SignError::Url(e)),
        },
    }
}

/// The signed address of the object `name`: its address, with the
/// parameters `OSSAccessKeyId`, `Expires` and `Signature` added to its
/// query string in that order; or why it cannot be made. What is signed is
/// the canonical resource of the address before the parameters are added:
/// `/`, the bucket, the percent-decoded path of the address, and the
/// sub-resource.
pub open spec fn presigned_url(
    access_key_id: Seq<char>,
    access_key_secret: Seq<char>,
    bucket_name: Seq<char>,
    bucket_location: Seq<char>,
    name: Seq<char>,
    expires: i64,
) -> Result<Seq<char>, SignError> {
    match parsed_url(object_link_text(bucket_name, bucket_location, name)) {
        None => Err(SignError::Url(UrlError::Invalid)),
        Some(link) => if !signable(access_key_secret, presign_text(bucket_name, link, expires)) {
            Err(SignError::InputTooLong)
        } else {
            match add_query_pair(
                add_query_pair(
                    add_query_pair(Ok(link), "OSSAccessKeyId"@, access_key_id),
                    "Expires"@,
                    decimal(expires as int),
                ),
                "Signature"@,
                signature_text(access_key_secret, presign_text(bucket_name, link, expires)),
            ) {
                Ok(signed) => Ok(signed.href),
                Err(e) => Err(e),
            }
        },
    }
}

/// A new request of a client with the configuration `config` to its bucket.
pub open spec fn bucket_request_view(
    config: OssConfig,
    method: Method,
    body: Option<Vec<u8>>,
) -> Result<RequestView, SignError> {
    new_request_view(
        bucket_url_text(config.bucket_name@, config.bucket_location@, config.is_internal),
        method,
        body,
    )
}

/// A new request of a client with the configuration `config` for the
/// object `object_name` of its bucket: a request to the bucket, with the
/// full name of the object as the path of its address.
pub open spec fn object_request_view(
    config: OssConfig,
    method: Method,
    body: Option<Vec<u8>>,
    object_name: Seq<char>,
) -> Result<RequestView, SignError> {
    then_path(
        bucket_request_view(config, method, body),
        object_name_text(config.path@, object_name),
    )
}

/// The request that lists the objects of the bucket under `prefix`, with
/// names cut at `delimiter`: the parameters `list-type=2`, then `prefix`
/// with the full name of the prefix, then `delimiter`, each where it is
/// given.
pub open spec fn list_objects_view(
    config: OssConfig,
    prefix: Option<Seq<char>>,
    delimiter: Option<Seq<char>>,
) -> Result<RequestView, SignError> {
    let listed = then_query_pair(
        bucket_request_view(config, Method::Get, None),
        "list-type"@,
        "2"@,
    );
    let prefixed = match prefix {
        Some(p) => then_query_pair(listed, "prefix"@, object_name_text(config.path@, p)),
        None => listed,
    };
    match delimiter {
        Some(d) => then_query_pair(prefixed, "delimiter"@, d),
        None => prefixed,
    }
}

/// The value of the header that names the source of a copy: `/`, the
/// bucket, `/`, and the full name of the source.
pub open spec fn copy_source_text(config: OssConfig, source_object_name: Seq<char>) -> Seq<char> {
    seq!['/'] + config.bucket_name@ + seq!['/'] + object_name_text(config.path@, source_object_name)
}

/// `url` with the pair of `name` and `value` at the end of its query string.
fn with_pair(url: &Url, name: &str, value: &str) -> (r: Result<Url, SignError>)
    ensures
        match r {
            Ok(u) => add_query_pair(Ok(url@), name@, value@) == Ok::<UrlView, SignError>(u@),
            Err(e) => add_query_pair(Ok(url@), name@, value@) == Err::<UrlView, SignError>(e),
        },
{
    match url.with_query_pair(name, value) {
        Ok(u) => Ok(u),
        Err(e) => Err(SignError::Url(e)),
    }
}

/// A client of one bucket.
pub struct Client {
    oss_config: OssConfig,
    bucket: Bucket,
}

impl Client {
    /// The configuration of the client.
    pub closed spec fn config(&self) -> OssConfig {
        self.oss_config
    }

    /// The bucket of the client, as the client last knew it.
    pub closed spec fn known_bucket(&self) -> Bucket {
        self.bucket
    }

    /// A client with the given credentials for the bucket `bucket_name` in
    /// `bucket_location`, whose objects live under the path prefix `path`.
    pub fn new(
        access_key_id: &str,
        access_key_secret: &str,
        bucket_name: &str,
        bucket_location: &str,
        path: &str,
        is_internal: bool,
    ) -> (r: Self)
        ensures
            r.config().access_key_id@ == access_key_id@,
            r.config().access_key_secret@ == access_key_secret@,
            r.config().bucket_name@ == bucket_name@,
            r.config().bucket_location@ == bucket_location@,
            r.config().path@ == crate::oss_config::trimmed_path(path@),
            r.config().is_internal == is_internal,
            r.known_bucket().name@ == bucket_name@,
            r.known_bucket().location@ == bucket_location@,
            r.known_bucket().comment@.len() == 0,
            r.known_bucket().creation_date is None,
    {
        let oss_config = OssConfig::new(
            access_key_id.to_owned(),
            access_key_secret.to_owned(),
            bucket_name.to_owned(),
            bucket_location.to_owned(),
            path.to_owned(),
            is_internal,
        );
        proof {
            reveal_strlit("");
        }
        let bucket = Bucket::new(bucket_name, bucket_location, "", None);
        Self { oss_config, bucket }
    }

    /// The configuration of the client.
    pub fn oss_config(&self) -> (r: &OssConfig)
        ensures
            *r == self.config(),
    {
        &self.oss_config
    }

    /// The bucket of the client, as the client last knew it.
    pub fn bucket(&self) -> (r: &Bucket)
        ensures
            *r == self.known_bucket(),
    {
        &self.bucket
    }

    /// A new request for the object `object_name`.
    fn object_request(&self, method: Method, body: Option<Vec<u8>>, object_name: &str) -> (r:
        Result<Request, SignError>)
        ensures
            request_result_view(r) == object_request_view(
                self.config(),
                method,
                body,
                object_name@,
            ),
    {
        let name = self.oss_config.get_object_name(object_name);
        set_path(self.oss_config.get_bucket_request(method, body), name.as_str())
    }

    /// The signed request that lists the buckets of the account: a `GET` of
    /// the endpoint.
    pub fn list_buckets_request(&self, date: UtcDateTime) -> (r: Result<Request, SignError>)
        ensures
            request_result_view(r) == then_signed(
                self.config(),
                new_request_view(
                    endpoint_url_text(self.config().bucket_location@, self.config().is_internal),
                    Method::Get,
                    None,
                ),
                date@,
            ),
    {
        self.oss_config.sign(self.oss_config.get_endpoint_request(Method::Get), date)
    }

    /// The signed request that makes the bucket: a `PUT` of the bucket.
    pub fn put_bucket_request(&self, date: UtcDateTime) -> (r: Result<Request, SignError>)
        ensures
            request_result_view(r) == then_signed(
                self.config(),
                bucket_request_view(self.config(), Method::Put, None),
                date@,
            ),
    {
        self.oss_config.sign(self.oss_config.get_bucket_request(Method::Put, None), date)
    }

    /// The signed request that asks what the bucket is: a `GET` of the
    /// bucket with the sub-resource `bucketInfo`.
    pub fn get_bucket_info_request(&self, date: UtcDateTime) -> (r: Result<Request, SignError>)
        ensures
            request_result_view(r) == then_signed(
                self.config(),
                then_query(
                    bucket_request_view(self.config(), Method::Get, None),
                    Some("bucketInfo"@),
                ),
                date@,
            ),
    {
        let request = set_query(
            self.oss_config.get_bucket_request(Method::Get, None),
            Some("bucketInfo"),
        );
        self.oss_config.sign(request, date)
    }

    /// The signed request that asks where the bucket is: a `GET` of the
    /// bucket with the sub-resource `location`.
    pub fn get_bucket_location_request(&self, date: UtcDateTime) -> (r: Result<Request, SignError>)
        ensures
            request_result_view(r) == then_signed(
                self.config(),
                then_query(
                    bucket_request_view(self.config(), Method::Get, None),
                    Some("location"@),
                ),
                date@,
            ),
    {
        let request = set_query(
            self.oss_config.get_bucket_request(Method::Get, None),
            Some("location"),
        );
        self.oss_config.sign(request, date)
    }

    /// The signed request that asks what the bucket holds: a `GET` of the
    /// bucket with the sub-resource `stat`.
    pub fn get_bucket_stat_request(&self, date: UtcDateTime) -> (r: Result<Request, SignError>)
        ensures
            request_result_view(r) == then_signed(
                self.config(),
                then_query(bucket_request_view(self.config(), Method::Get, None), Some("stat"@)),
                date@,
            ),
    {
        let request = set_query(
            self.oss_config.get_bucket_request(Method::Get, None),
            Some("stat"),
        );
        self.oss_config.sign(request, date)
    }

    /// The signed request that deletes the bucket: a `DELETE` of the bucket.
    pub fn delete_bucket_request(&self, date: UtcDateTime) -> (r: Result<Request, SignError>)
        ensures
            request_result_view(r) == then_signed(
                self.config(),
                bucket_request_view(self.config(), Method::Delete, None),
                date@,
            ),
    {
        self.oss_config.sign(self.oss_config.get_bucket_request(Method::Delete, None), date)
    }

    /// The signed request that lists the objects of the bucket under
    /// `prefix`, with names cut at `delimiter`.
    pub fn list_objects_request(
        &self,
        prefix: Option<&str>,
        delimiter: Option<&str>,
        date: UtcDateTime,
    ) -> (r: Result<Request, SignError>)
        ensures
            request_result_view(r) == then_signed(
                self.config(),
                list_objects_view(
                    self.config(),
                    crate::request::optional_str_view(prefix),
                    crate::request::optional_str_view(delimiter),
                ),
                date@,
            ),
    {
        let mut request = append_query_pair(
            self.oss_config.get_bucket_request(Method::Get, None),
            "list-type",
            "2",
        );
        if let Some(prefix) = prefix {
            let prefix = self.oss_config.get_object_name(prefix);
            request = append_query_pair(request, "prefix", prefix.as_str());
        }
        if let Some(delimiter) = delimiter {
            request = append_query_pair(request, "delimiter", delimiter);
        }
        self.oss_config.sign(request, date)
    }

    /// The signed request that lists the folders and the objects that lie
    /// under `prefix` at once: names are cut at `/`.
    pub fn list_folders_request(&self, prefix: Option<&str>, date: UtcDateTime) -> (r: Result<
        Request,
        SignError,
    >)
        ensures
            request_result_view(r) == then_signed(
                self.config(),
                list_objects_view(
                    self.config(),
                    crate::request::optional_str_view(prefix),
                    Some("/"@),
                ),
                date@,
            ),
    {
        self.list_objects_request(prefix, Some("/"), date)
    }

    /// The signed request that lists the folders and the objects that lie
    /// under `prefix` at once: names are cut at `/`.
    pub fn list_files_request(&self, prefix: Option<&str>, date: UtcDateTime) -> (r: Result<
        Request,
        SignError,
    >)
        ensures
            request_result_view(r) == then_signed(
                self.config(),
                list_objects_view(
                    self.config(),
                    crate::request::optional_str_view(prefix),
                    Some("/"@),
                ),
                date@,
            ),
    {
        self.list_objects_request(prefix, Some("/"), date)
    }

    /// The signed request that stores `bytes` as the object `object_name`:
    /// a `PUT` of the object with the bytes as its body.
    pub fn put_object_request(&self, object_name: &str, bytes: Vec<u8>, date: UtcDateTime) -> (r:
        Result<Request, SignError>)
        ensures
            request_result_view(r) == then_signed(
                self.config(),
                object_request_view(self.config(), Method::Put, Some(bytes), object_name@),
                date@,
            ),
    {
        self.oss_config.sign(self.object_request(Method::Put, Some(bytes), object_name), date)
    }

    /// The signed request that stores a stream of bytes as the object
    /// `object_name`: a `PUT` of the object. The request has no body yet,
    /// and no header describes one: the sender adds the stream.
    pub fn put_object_stream_request(&self, object_name: &str, date: UtcDateTime) -> (r: Result<
        Request,
        SignError,
    >)
        ensures
            request_result_view(r) == then_signed(
                self.config(),
                object_request_view(self.config(), Method::Put, None, object_name@),
                date@,
            ),
    {
        self.oss_config.sign(self.object_request(Method::Put, None, object_name), date)
    }

    /// The signed request that reads the object `object_name`: a `GET` of
    /// the object.
    pub fn get_object_request(&self, object_name: &str, date: UtcDateTime) -> (r: Result<
        Request,
        SignError,
    >)
        ensures
            request_result_view(r) == then_signed(
                self.config(),
                object_request_view(self.config(), Method::Get, None, object_name@),
                date@,
            ),
    {
        self.oss_config.sign(self.object_request(Method::Get, None, object_name), date)
    }

    /// The signed request that deletes the object `object_name`: a `DELETE`
    /// of the object.
    pub fn delete_object_request(&self, object_name: &str, date: UtcDateTime) -> (r: Result<
        Request,
        SignError,
    >)
        ensures
            request_result_view(r) == then_signed(
                self.config(),
                object_request_view(self.config(), Method::Delete, None, object_name@),
                date@,
            ),
    {
        self.oss_config.sign(self.object_request(Method::Delete, None, object_name), date)
    }

    /// The signed request that copies the object `source_object_name` to
    /// `dest_object_name`: a `PUT` of the destination whose header
    /// `x-oss-copy-source` names the source.
    pub fn copy_object_request(
        &self,
        dest_object_name: &str,
        source_object_name: &str,
        date: UtcDateTime,
    ) -> (r: Result<Request, SignError>)
        ensures
            request_result_view(r) == then_signed(
                self.config(),
                then_header(
                    object_request_view(self.config(), Method::Put, None, dest_object_name@),
                    "x-oss-copy-source"@,
                    encode_utf8(copy_source_text(self.config(), source_object_name@)),
                ),
                date@,
            ),
    {
        let source = self.oss_config.get_object_name(source_object_name);
        let mut copy_source = String::new();
        copy_source.push('/');
        copy_source.append(self.oss_config.bucket_name.as_str());
        copy_source.push('/');
        copy_source.append(source.as_str());
        assert(copy_source@ =~= copy_source_text(self.config(), source_object_name@));
        let request = insert_header(
            self.object_request(Method::Put, None, dest_object_name),
            "x-oss-copy-source",
            copy_source.as_str().as_bytes(),
        );
        self.oss_config.sign(request, date)
    }

    /// The signed request that appends `bytes` to the object `object_name`
    /// at `position`: a `POST` of the object with the bytes as its body,
    /// the header `position`, and the query string `append` with the
    /// parameter `position` behind it.
    pub fn append_object_request(
        &self,
        object_name: &str,
        bytes: Vec<u8>,
        position: usize,
        date: UtcDateTime,
    ) -> (r: Result<Request, SignError>)
        ensures
            request_result_view(r) == then_signed(
                self.config(),
                then_query_pair(
                    then_query(
                        then_header(
                            object_request_view(
                                self.config(),
                                Method::Post,
                                Some(bytes),
                                object_name@,
                            ),
                            "position"@,
                            encode_utf8(decimal(position as int)),
                        ),
                        Some("append"@),
                    ),
                    "position"@,
                    decimal(position as int),
                ),
                date@,
            ),
    {
        let position = u64_to_string(position as u64);
        let request = self.object_request(Method::Post, Some(bytes), object_name);
        let request = insert_header(request, "position", position.as_str().as_bytes());
        let request = set_query(request, Some("append"));
        let request = append_query_pair(request, "position", position.as_str());
        self.oss_config.sign(request, date)
    }

    /// The signed request that asks for the headers of the object
    /// `object_name`: a `HEAD` of the object.
    pub fn head_object_request(&self, object_name: &str, date: UtcDateTime) -> (r: Result<
        Request,
        SignError,
    >)
        ensures
            request_result_view(r) == then_signed(
                self.config(),
                object_request_view(self.config(), Method::Head, None, object_name@),
                date@,
            ),
    {
        self.oss_config.sign(self.object_request(Method::Head, None, object_name), date)
    }

    /// The signed request that asks for the essentials of the object
    /// `object_name`: a `HEAD` of the object with the sub-resource
    /// `objectMeta`.
    pub fn get_object_meta_request(&self, object_name: &str, date: UtcDateTime) -> (r: Result<
        Request,
        SignError,
    >)
        ensures
            request_result_view(r) == then_signed(
                self.config(),
                then_query(
                    object_request_view(self.config(), Method::Head, None, object_name@),
                    Some("objectMeta"@),
                ),
                date@,
            ),
    {
        let request = set_query(
            self.object_request(Method::Head, None, object_name),
            Some("objectMeta"),
        );
        self.oss_config.sign(request, date)
    }

    /// The signed request that makes `symlink_object_name` a link to
    /// `target_object_name`: a `PUT` of the link with the sub-resource
    /// `symlink`, whose header `x-oss-symlink-target` holds the full name
    /// of the target.
    pub fn put_symlink_request(
        &self,
        symlink_object_name: &str,
        target_object_name: &str,
        date: UtcDateTime,
    ) -> (r: Result<Request, SignError>)
        ensures
            request_result_view(r) == then_signed(
                self.config(),
                then_query(
                    then_header(
                        object_request_view(self.config(), Method::Put, None, symlink_object_name@),
                        "x-oss-symlink-target"@,
                        encode_utf8(object_name_text(self.config().path@, target_object_name@)),
                    ),
                    Some("symlink"@),
                ),
                date@,
            ),
    {
        let target = self.oss_config.get_object_name(target_object_name);
        let request = self.object_request(Method::Put, None, symlink_object_name);
        let request = insert_header(request, "x-oss-symlink-target", target.as_str().as_bytes());
        let request = set_query(request, Some("symlink"));
        self.oss_config.sign(request, date)
    }

    /// The signed request that asks where the link `object_name` points: a
    /// `GET` of the link with the sub-resource `symlink`.
    pub fn get_symlink_request(&self, object_name: &str, date: UtcDateTime) -> (r: Result<
        Request,
        SignError,
    >)
        ensures
            request_result_view(r) == then_signed(
                self.config(),
                then_query(
                    object_request_view(self.config(), Method::Get, None, object_name@),
                    Some("symlink"@),
                ),
                date@,
            ),
    {
        let request = set_query(
            self.object_request(Method::Get, None, object_name),
            Some("symlink"),
        );
        self.oss_config.sign(request, date)
    }

    /// The signed address of the object `object_name` that expires at the
    /// second `expires` of the Unix epoch.
    pub fn sign_object_until(&self, object_name: &str, expires: i64) -> (r: Result<
        String,
        SignError,
    >)
        ensures
            match r {
                Ok(url) => presigned_url(
                    self.config().access_key_id@,
                    self.config().access_key_secret@,
                    self.config().bucket_name@,
                    self.config().bucket_location@,
                    object_name_text(self.config().path@, object_name@),
                    expires,
                ) == Ok::<Seq<char>, SignError>(url@),
                Err(e) => presigned_url(
                    self.config().access_key_id@,
                    self.config().access_key_secret@,
                    self.config().bucket_name@,
                    self.config().bucket_location@,
                    object_name_text(self.config().path@, object_name@),
                    expires,
                ) == Err::<Seq<char>, SignError>(e),
            },
    {
        let config = &self.oss_config;
        let name = config.get_object_name(object_name);
        let mut link = "https://".to_owned();
        link.append(config.bucket_name.as_str());
        link.push('.');
        link.append(config.bucket_location.as_str());
        link.append(".aliyuncs.com/");
        link.append(name.as_str());
        assert(link@ =~= object_link_text(config.bucket_name@, config.bucket_location@, name@));
        let object_url = match Url::parse(link.as_str()) {
            Ok(url) => url,
            Err(e) => {
                return Err(SignError::Url(e));
            },
        };
        let param_signature = ParamSignature::new(
            Method::Get,
            None,
            None,
            expires,
            CanonicalizedHeaders::new(None),
            CanonicalizedResource::from_request_parts(
                config.bucket_name.as_str(),
                object_url.path(),
                object_url.query(),
            ),
        );
        let string_to_sign = param_signature.get_string_to_sign();
        if !can_sign(config.access_key_secret.as_str(), string_to_sign.as_str()) {
            return Err(SignError::InputTooLong);
        }
        let signature = param_signature.get_signature_string(config);
        let expires_text = crate::text::i64_to_string(expires);
        let with_id = match with_pair(
            &object_url,
            "OSSAccessKeyId",
            config.access_key_id.as_str(),
        ) {
            Ok(url) => url,
            Err(e) => {
                return Err(e);
            },
        };
        let with_expires = match with_pair(&with_id, "Expires", expires_text.as_str()) {
            Ok(url) => url,
            Err(e) => {
                return Err(e);
            },
        };
        let signed = match with_pair(&with_expires, "Signature", signature.as_str()) {
            Ok(url) => url,
            Err(e) => {
                return Err(e);
            },
        };
        Ok(signed.as_str().to_owned())
    }

    /// The signed address of the object `object_name`, made at `now_secs`
    /// seconds of the Unix epoch and `now_nanos` nanoseconds, and good for
    /// `duration_secs` seconds and `duration_nanos` nanoseconds from then.
    pub fn sign_object(
        &self,
        object_name: &str,
        now_secs: i64,
        now_nanos: u32,
        duration_secs: u64,
        duration_nanos: u32,
    ) -> (r: Result<String, SignError>)
        ensures
            match r {
                Ok(url) => {
                    let expires = expiry_second(now_secs, now_nanos, duration_secs, duration_nanos);
                    &&& MIN_TIMESTAMP <= now_secs
                    &&& expires <= MAX_TIMESTAMP
                    &&& presigned_url(
                        self.config().access_key_id@,
                        self.config().access_key_secret@,
                        self.config().bucket_name@,
                        self.config().bucket_location@,
                        object_name_text(self.config().path@, object_name@),
                        expires as i64,
                    ) == Ok::<Seq<char>, SignError>(url@)
                },
                Err(e) => {
                    let expires = expiry_second(now_secs, now_nanos, duration_secs, duration_nanos);
                    if MIN_TIMESTAMP <= now_secs && expires <= MAX_TIMESTAMP {
                        presigned_url(
                            self.config().access_key_id@,
                            self.config().access_key_secret@,
                            self.config().bucket_name@,
                            self.config().bucket_location@,
                            object_name_text(self.config().path@, object_name@),
                            expires as i64,
                        ) == Err::<Seq<char>, SignError>(e)
                    } else {
                        e == SignError::ExpiryOverflow
                    }
                },
            },
    {
        match presign_expiry(now_secs, now_nanos, duration_secs, duration_nanos) {
            Ok(expires) => self.sign_object_until(object_name, expires),
            Err(e) => Err(e),
        }
    }
}

} // verus!
