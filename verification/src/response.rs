//! What a client reads from the answers of the service.

use crate::bucket::{bucket_failure, bucket_matches, Bucket};
use crate::bucket_location::BucketLocation;
use crate::bucket_stat::{stat_failure, BucketStat};
use crate::client::Client;
use crate::date::{date_view, rfc2822_date_time_of, UtcDateTime};
use crate::error::RecordError;
use crate::file::{file_failure, file_matches, File};
use crate::folder::Folder;
use crate::request::{find_header, header_value, Header};
use crate::text::utf8_text;
use crate::xml::{
    all_tagged, find_tagged, parsed_xml, subtree_end, tag_text, XmlDocument, XmlError, XmlNodeView,
};
use vstd::prelude::*;
use vstd::utf8::{decode_utf8, valid_utf8};

verus! {

/// Why an answer of the service could not be read.
#[derive(Debug)]
pub enum ResponseError {
    /// The service refused the request; the text is the body of its answer.
    Service(String),
    /// The body of the answer is no XML document.
    Xml(XmlError),
    /// A record in the body could not be read.
    Record(RecordError),
    /// The body of a list of buckets has no element `Buckets`.
    BucketsNotFound,
    /// The answer has no header `x-oss-symlink-target`.
    SymlinkTargetNotFound,
    /// A header of the answer holds a value that is not UTF-8.
    InvalidHeaderValue,
    /// The `date` header of the answer holds no date.
    InvalidDate,
}

impl ResponseError {
    /// The sentence that says what failed: for a refusal of the service, the
    /// body of its answer.
    pub open spec fn text(&self) -> Seq<char> {
        match self {
            ResponseError::Service(body) => body@,
            ResponseError::Xml(_) => "the answer is no XML document"@,
            ResponseError::Record(e) => e.text(),
            ResponseError::BucketsNotFound => "Buckets node not found"@,
            ResponseError::SymlinkTargetNotFound => "no symlink target"@,
            ResponseError::InvalidHeaderValue => "a header holds a value that is not UTF-8"@,
            ResponseError::InvalidDate => "the date header holds no date"@,
        }
    }

    /// A sentence that says what failed.
    pub fn message(&self) -> (r: String)
        ensures
            r@ == self.text(),
    {
        match self {
            ResponseError::Service(body) => body.clone(),
            ResponseError::Xml(_) => "the answer is no XML document".to_owned(),
            ResponseError::Record(e) => e.message().to_owned(),
            ResponseError::BucketsNotFound => "Buckets node not found".to_owned(),
            ResponseError::SymlinkTargetNotFound => "no symlink target".to_owned(),
            ResponseError::InvalidHeaderValue => {
                "a header holds a value that is not UTF-8".to_owned()
            },
            ResponseError::InvalidDate => "the date header holds no date".to_owned(),
        }
    }
}

/// Whether a status code tells that the request went well: whether it is
/// one of the codes 200 to 299.
pub open spec fn is_success(status: u16) -> bool {
    200 <= status < 300
}

/// Why the first of the nodes at `indices` that describes no bucket does
/// not, where there is one.
pub open spec fn first_bucket_failure(nodes: Seq<XmlNodeView>, indices: Seq<int>) -> Option<
    RecordError,
>
    decreases indices.len(),
{
    if indices.len() == 0 {
        None
    } else {
        match bucket_failure(nodes, indices[0]) {
            Some(e) => Some(e),
            None => first_bucket_failure(nodes, indices.drop_first()),
        }
    }
}

/// Why the first of the nodes at `indices` that describes no object does
/// not, where there is one.
pub open spec fn first_file_failure(nodes: Seq<XmlNodeView>, indices: Seq<int>) -> Option<
    RecordError,
>
    decreases indices.len(),
{
    if indices.len() == 0 {
        None
    } else {
        match file_failure(nodes, indices[0]) {
            Some(e) => Some(e),
            None => first_file_failure(nodes, indices.drop_first()),
        }
    }
}

/// Whether `buckets` are the buckets that the nodes at `indices` describe,
/// one for one.
pub open spec fn buckets_match(
    buckets: Seq<Bucket>,
    nodes: Seq<XmlNodeView>,
    indices: Seq<int>,
) -> bool {
    &&& buckets.len() == indices.len()
    &&& forall|k: int|
        0 <= k < buckets.len() ==> bucket_matches(#[trigger] buckets[k], nodes, indices[k])
}

/// Whether `files` are the objects that the nodes at `indices` describe,
/// one for one.
pub open spec fn files_match(files: Seq<File>, nodes: Seq<XmlNodeView>, indices: Seq<int>) -> bool {
    &&& files.len() == indices.len()
    &&& forall|k: int| 0 <= k < files.len() ==> file_matches(#[trigger] files[k], nodes, indices[k])
}

/// Whether `folders` are the folders that the nodes at `indices` describe,
/// one for one.
pub open spec fn folders_match(
    folders: Seq<Folder>,
    nodes: Seq<XmlNodeView>,
    indices: Seq<int>,
) -> bool {
    &&& folders.len() == indices.len()
    &&& forall|k: int|
        0 <= k < folders.len() ==> (#[trigger] folders[k]).name@ == tag_text(
            nodes,
            indices[k],
            "Prefix"@,
        )
}

/// The elements with the tag `tag` of the whole document.
pub open spec fn document_tagged(nodes: Seq<XmlNodeView>, tag: Seq<char>) -> Seq<int> {
    all_tagged(nodes, 0, subtree_end(nodes, 0), tag)
}

/// The indices as mathematical integers.
pub open spec fn indices_view(indices: Seq<usize>) -> Seq<int> {
    indices.map_values(|i: usize| i as int)
}

/// Whether `status` tells that the request went well.
pub fn is_success_status(status: u16) -> (r: bool)
    ensures
        r == is_success(status),
{
    200 <= status && status < 300
}

/// Fails with the body of the answer where the status tells that the
/// request did not go well.
pub fn check_status(status: u16, body: &str) -> (r: Result<(), ResponseError>)
    ensures
        r is Ok <==> is_success(status),
        r matches Err(e) ==> e matches ResponseError::Service(text) && text@ == body@,
{
    if is_success_status(status) {
        Ok(())
    } else {
        Err(ResponseError::Service(body.to_owned()))
    }
}

/// Reads the body of an answer as an XML document, where the status tells
/// that the request went well.
pub fn read_document(status: u16, body: &str) -> (r: Result<XmlDocument, ResponseError>)
    ensures
        match r {
            Ok(document) => is_success(status) && parsed_xml(body@) == Some(document@),
            Err(ResponseError::Service(text)) => !is_success(status) && text@ == body@,
            Err(ResponseError::Xml(_)) => is_success(status) && parsed_xml(body@) is None,
            Err(_) => false,
        },
{
    match check_status(status, body) {
        Ok(()) => {},
        Err(e) => {
            return Err(e);
        },
    }
    match XmlDocument::parse(body) {
        Ok(document) => Ok(document),
        Err(e) => Err(ResponseError::Xml(e)),
    }
}

/// The buckets that the nodes at `indices` describe.
pub fn read_buckets(document: &XmlDocument, indices: &Vec<usize>) -> (r: Result<
    Vec<Bucket>,
    RecordError,
>)
    ensures
        match r {
            Ok(buckets) => first_bucket_failure(document@, indices_view(indices@)) is None
                && buckets_match(buckets@, document@, indices_view(indices@)),
            Err(e) => first_bucket_failure(document@, indices_view(indices@)) == Some(e),
        },
{
    let ghost idx = indices_view(indices@);
    let mut buckets: Vec<Bucket> = Vec::new();
    let mut i: usize = 0;
    assert(idx.skip(0) =~= idx);
    assert(idx.take(0) =~= Seq::<int>::empty());
    while i < indices.len()
        invariant
            i <= indices.len(),
            idx == indices_view(indices@),
            first_bucket_failure(document@, idx) == first_bucket_failure(
                document@,
                idx.skip(i as int),
            ),
            buckets_match(buckets@, document@, idx.take(i as int)),
        decreases indices.len() - i,
    {
        proof {
            assert(idx.skip(i as int)[0] == indices@[i as int] as int);
            assert(idx.skip(i as int).drop_first() =~= idx.skip(i + 1));
        }
        match Bucket::new_from_xml_node(document.node(indices[i])) {
            Ok(bucket) => {
                let ghost before = buckets@;
                buckets.push(bucket);
                proof {
                    assert forall|k: int| 0 <= k < buckets@.len() implies bucket_matches(
                        #[trigger] buckets@[k],
                        document@,
                        idx.take(i + 1)[k],
                    ) by {
                        if k < i {
                            assert(buckets@[k] == before[k]);
                            assert(idx.take(i + 1)[k] == idx.take(i as int)[k]);
                        }
                    }
                }
            },
            Err(e) => {
                return Err(e);
            },
        }
        i += 1;
    }
    assert(idx.take(indices.len() as int) =~= idx);
    Ok(buckets)
}

/// The objects that the nodes at `indices` describe.
pub fn read_files(document: &XmlDocument, indices: &Vec<usize>) -> (r: Result<
    Vec<File>,
    RecordError,
>)
    ensures
        match r {
            Ok(files) => first_file_failure(document@, indices_view(indices@)) is None
                && files_match(files@, document@, indices_view(indices@)),
            Err(e) => first_file_failure(document@, indices_view(indices@)) == Some(e),
        },
{
    let ghost idx = indices_view(indices@);
    let mut files: Vec<File> = Vec::new();
    let mut i: usize = 0;
    assert(idx.skip(0) =~= idx);
    assert(idx.take(0) =~= Seq::<int>::empty());
    while i < indices.len()
        invariant
            i <= indices.len(),
            idx == indices_view(indices@),
            first_file_failure(document@, idx) == first_file_failure(document@, idx.skip(i as int)),
            files_match(files@, document@, idx.take(i as int)),
        decreases indices.len() - i,
    {
        proof {
            assert(idx.skip(i as int)[0] == indices@[i as int] as int);
            assert(idx.skip(i as int).drop_first() =~= idx.skip(i + 1));
        }
        match File::new_from_xml_node(document.node(indices[i])) {
            Ok(file) => {
                let ghost before = files@;
                files.push(file);
                proof {
                    assert forall|k: int| 0 <= k < files@.len() implies file_matches(
                        #[trigger] files@[k],
                        document@,
                        idx.take(i + 1)[k],
                    ) by {
                        if k < i {
                            assert(files@[k] == before[k]);
                            assert(idx.take(i + 1)[k] == idx.take(i as int)[k]);
                        }
                    }
                }
            },
            Err(e) => {
                return Err(e);
            },
        }
        i += 1;
    }
    assert(idx.take(indices.len() as int) =~= idx);
    Ok(files)
}

/// The folders that the nodes at `indices` describe.
pub fn read_folders(document: &XmlDocument, indices: &Vec<usize>) -> (folders: Vec<Folder>)
    ensures
        folders_match(folders@, document@, indices_view(indices@)),
{
    let ghost idx = indices_view(indices@);
    let mut folders: Vec<Folder> = Vec::new();
    let mut i: usize = 0;
    while i < indices.len()
        invariant
            i <= indices.len(),
            idx == indices_view(indices@),
            folders_match(folders@, document@, idx.take(i as int)),
        decreases indices.len() - i,
    {
        match Folder::new_from_xml_node(document.node(indices[i])) {
            Ok(folder) => {
                let ghost before = folders@;
                folders.push(folder);
                proof {
                    assert forall|k: int| 0 <= k < folders@.len() implies (
                    #[trigger] folders@[k]).name@ == tag_text(
                        document@,
                        idx.take(i + 1)[k],
                        "Prefix"@,
                    ) by {
                        if k < i {
                            assert(folders@[k] == before[k]);
                            assert(idx.take(i + 1)[k] == idx.take(i as int)[k]);
                        }
                    }
                }
            },
            Err(_) => {},
        }
        i += 1;
    }
    assert(idx.take(indices.len() as int) =~= idx);
    folders
}

/// The text of the header `name` of an answer, where the answer has the
/// header and its value is UTF-8.
pub open spec fn response_header_text(
    headers: Seq<(Seq<char>, Seq<u8>)>,
    name: Seq<char>,
) -> Option<Seq<char>> {
    match find_header(headers, name) {
        Some(value) => if valid_utf8(value) {
            Some(decode_utf8(value))
        } else {
            None
        },
        None => None,
    }
}

impl Client {
    /// Reads the answer to a request for the list of buckets: the buckets
    /// that the elements `Bucket` below the first element `Buckets`
    /// describe, in document order.
    pub fn list_buckets_response(&self, status: u16, body: &str) -> (r: Result<
        Vec<Bucket>,
        ResponseError,
    >)
        ensures
            match r {
                Ok(buckets) => {
                    &&& is_success(status)
                    &&& parsed_xml(body@) matches Some(nodes)
                    &&& find_tagged(nodes, 0, "Buckets"@) matches Some(list)
                    &&& first_bucket_failure(
                        nodes,
                        all_tagged(nodes, list, subtree_end(nodes, list), "Bucket"@),
                    ) is None
                    &&& buckets_match(
                        buckets@,
                        nodes,
                        all_tagged(nodes, list, subtree_end(nodes, list), "Bucket"@),
                    )
                },
                Err(ResponseError::Service(text)) => !is_success(status) && text@ == body@,
                Err(ResponseError::Xml(_)) => is_success(status) && parsed_xml(body@) is None,
                Err(ResponseError::BucketsNotFound) => {
                    &&& is_success(status)
                    &&& parsed_xml(body@) matches Some(nodes)
                    &&& find_tagged(nodes, 0, "Buckets"@) is None
                },
                Err(ResponseError::Record(e)) => {
                    &&& is_success(status)
                    &&& parsed_xml(body@) matches Some(nodes)
                    &&& find_tagged(nodes, 0, "Buckets"@) matches Some(list)
                    &&& first_bucket_failure(
                        nodes,
                        all_tagged(nodes, list, subtree_end(nodes, list), "Bucket"@),
                    ) == Some(e)
                },
                Err(_) => false,
            },
    {
        let document = match read_document(status, body) {
            Ok(document) => document,
            Err(e) => {
                return Err(e);
            },
        };
        let list = match document.root().find("Buckets") {
            Some(node) => node,
            None => {
                return Err(ResponseError::BucketsNotFound);
            },
        };
        let indices = list.find_all("Bucket");
        match read_buckets(&document, &indices) {
            Ok(buckets) => Ok(buckets),
            Err(e) => Err(ResponseError::Record(e)),
        }
    }

    /// Reads the answer to a request that makes the bucket: the bucket of
    /// this client, made at the time that the `date` header of the answer
    /// tells, where the answer has one.
    pub fn put_bucket_response(&self, status: u16, headers: &[Header], body: &str) -> (r: Result<
        Bucket,
        ResponseError,
    >)
        ensures
            match r {
                Ok(bucket) => {
                    &&& is_success(status)
                    &&& bucket.name@ == self.known_bucket().name@
                    &&& bucket.location@ == self.known_bucket().location@
                    &&& bucket.comment@.len() == 0
                    &&& match find_header(headers.deep_view(), "date"@) {
                        None => bucket.creation_date is None,
                        Some(value) => valid_utf8(value) && bucket.creation_date is Some
                            && date_view(bucket.creation_date) == rfc2822_date_time_of(
                            decode_utf8(value),
                        ),
                    }
                },
                Err(ResponseError::Service(text)) => !is_success(status) && text@ == body@,
                Err(ResponseError::InvalidHeaderValue) => {
                    &&& is_success(status)
                    &&& find_header(headers.deep_view(), "date"@) matches Some(value)
                    &&& !valid_utf8(value)
                },
                Err(ResponseError::InvalidDate) => {
                    &&& is_success(status)
                    &&& find_header(headers.deep_view(), "date"@) matches Some(value)
                    &&& valid_utf8(value)
                    &&& rfc2822_date_time_of(decode_utf8(value)) is None
                },
                Err(_) => false,
            },
    {
        match check_status(status, body) {
            Ok(()) => {},
            Err(e) => {
                return Err(e);
            },
        }
        let creation_date = match header_value(headers, "date") {
            None => None,
            Some(value) => {
                let text = match utf8_text(value) {
                    Some(text) => text,
                    None => {
                        return Err(ResponseError::InvalidHeaderValue);
                    },
                };
                match UtcDateTime::parse_from_rfc2822(text.as_str()) {
                    Some(date) => Some(date),
                    None => {
                        return Err(ResponseError::InvalidDate);
                    },
                }
            },
        };
        proof {
            reveal_strlit("");
        }
        let known = self.bucket();
        Ok(Bucket::new(known.name.as_str(), known.location.as_str(), "", creation_date))
    }

    /// Reads the answer to a request for what the bucket is: the bucket
    /// that the first element `Bucket` of the body describes, where there
    /// is one.
    pub fn get_bucket_info_response(&self, status: u16, body: &str) -> (r: Result<
        Option<Bucket>,
        ResponseError,
    >)
        ensures
            match r {
                Ok(Some(bucket)) => {
                    &&& is_success(status)
                    &&& parsed_xml(body@) matches Some(nodes)
                    &&& find_tagged(nodes, 0, "Bucket"@) matches Some(i)
                    &&& bucket_failure(nodes, i) is None
                    &&& bucket_matches(bucket, nodes, i)
                },
                Ok(None) => {
                    &&& is_success(status)
                    &&& parsed_xml(body@) matches Some(nodes)
                    &&& find_tagged(nodes, 0, "Bucket"@) is None
                },
                Err(ResponseError::Service(text)) => !is_success(status) && text@ == body@,
                Err(ResponseError::Xml(_)) => is_success(status) && parsed_xml(body@) is None,
                Err(ResponseError::Record(e)) => {
                    &&& is_success(status)
                    &&& parsed_xml(body@) matches Some(nodes)
                    &&& find_tagged(nodes, 0, "Bucket"@) matches Some(i)
                    &&& bucket_failure(nodes, i) == Some(e)
                },
                Err(_) => false,
            },
    {
        let document = match read_document(status, body) {
            Ok(document) => document,
            Err(e) => {
                return Err(e);
            },
        };
        match document.root().find("Bucket") {
            Some(node) => match Bucket::new_from_xml_node(node) {
                Ok(bucket) => Ok(Some(bucket)),
                Err(e) => Err(ResponseError::Record(e)),
            },
            None => Ok(None),
        }
    }

    /// Reads the answer to a request for where the bucket is: the text of
    /// the first element `LocationConstraint` of the body.
    pub fn get_bucket_location_response(&self, status: u16, body: &str) -> (r: Result<
        BucketLocation,
        ResponseError,
    >)
        ensures
            match r {
                Ok(location) => {
                    &&& is_success(status)
                    &&& parsed_xml(body@) matches Some(nodes)
                    &&& location@ == tag_text(nodes, 0, "LocationConstraint"@)
                },
                Err(ResponseError::Service(text)) => !is_success(status) && text@ == body@,
                Err(ResponseError::Xml(_)) => is_success(status) && parsed_xml(body@) is None,
                Err(_) => false,
            },
    {
        let document = match read_document(status, body) {
            Ok(document) => document,
            Err(e) => {
                return Err(e);
            },
        };
        match BucketLocation::new_from_xml_node(document.root()) {
            Ok(location) => Ok(location),
            Err(e) => Err(ResponseError::Record(e)),
        }
    }

    /// Reads the answer to a request for what the bucket holds.
    pub fn get_bucket_stat_response(&self, status: u16, body: &str) -> (r: Result<
        BucketStat,
        ResponseError,
    >)
        ensures
            match r {
                Ok(stat) => {
                    &&& is_success(status)
                    &&& parsed_xml(body@) matches Some(nodes)
                    &&& stat_failure(nodes, 0) is None
                    &&& crate::bucket_stat::stat_matches(stat, nodes, 0)
                },
                Err(ResponseError::Service(text)) => !is_success(status) && text@ == body@,
                Err(ResponseError::Xml(_)) => is_success(status) && parsed_xml(body@) is None,
                Err(ResponseError::Record(e)) => {
                    &&& is_success(status)
                    &&& parsed_xml(body@) matches Some(nodes)
                    &&& stat_failure(nodes, 0) == Some(e)
                },
                Err(_) => false,
            },
    {
        let document = match read_document(status, body) {
            Ok(document) => document,
            Err(e) => {
                return Err(e);
            },
        };
        match BucketStat::new_from_xml_node(document.root()) {
            Ok(stat) => Ok(stat),
            Err(e) => Err(ResponseError::Record(e)),
        }
    }

    /// Reads the answer to a request for a list of objects: the folders
    /// that the elements `CommonPrefixes` of the body describe, and the
    /// objects that its elements `Contents` describe, each in document
    /// order.
    pub fn list_objects_response(&self, status: u16, body: &str) -> (r: Result<
        (Vec<Folder>, Vec<File>),
        ResponseError,
    >)
        ensures
            match r {
                Ok((folders, files)) => {
                    &&& is_success(status)
                    &&& parsed_xml(body@) matches Some(nodes)
                    &&& folders_match(folders@, nodes, document_tagged(nodes, "CommonPrefixes"@))
                    &&& first_file_failure(nodes, document_tagged(nodes, "Contents"@)) is None
                    &&& files_match(files@, nodes, document_tagged(nodes, "Contents"@))
                },
                Err(ResponseError::Service(text)) => !is_success(status) && text@ == body@,
                Err(ResponseError::Xml(_)) => is_success(status) && parsed_xml(body@) is None,
                Err(ResponseError::Record(e)) => {
                    &&& is_success(status)
                    &&& parsed_xml(body@) matches Some(nodes)
                    &&& first_file_failure(nodes, document_tagged(nodes, "Contents"@)) == Some(e)
                },
                Err(_) => false,
            },
    {
        let document = match read_document(status, body) {
            Ok(document) => document,
            Err(e) => {
                return Err(e);
            },
        };
        let folder_nodes = document.root().find_all("CommonPrefixes");
        let folders = read_folders(&document, &folder_nodes);
        let file_nodes = document.root().find_all("Contents");
        match read_files(&document, &file_nodes) {
            Ok(files) => Ok((folders, files)),
            Err(e) => Err(ResponseError::Record(e)),
        }
    }

    /// Reads the answer to a request for a list of objects, and keeps the
    /// folders.
    pub fn list_folders_response(&self, status: u16, body: &str) -> (r: Result<
        Vec<Folder>,
        ResponseError,
    >)
        ensures
            match r {
                Ok(folders) => {
                    &&& is_success(status)
                    &&& parsed_xml(body@) matches Some(nodes)
                    &&& folders_match(folders@, nodes, document_tagged(nodes, "CommonPrefixes"@))
                    &&& first_file_failure(nodes, document_tagged(nodes, "Contents"@)) is None
                },
                Err(ResponseError::Service(text)) => !is_success(status) && text@ == body@,
                Err(ResponseError::Xml(_)) => is_success(status) && parsed_xml(body@) is None,
                Err(ResponseError::Record(e)) => {
                    &&& is_success(status)
                    &&& parsed_xml(body@) matches Some(nodes)
                    &&& first_file_failure(nodes, document_tagged(nodes, "Contents"@)) == Some(e)
                },
                Err(_) => false,
            },
    {
        match self.list_objects_response(status, body) {
            Ok((folders, _files)) => Ok(folders),
            Err(e) => Err(e),
        }
    }

    /// Reads the answer to a request for a list of objects, and keeps the
    /// objects.
    pub fn list_files_response(&self, status: u16, body: &str) -> (r: Result<
        Vec<File>,
        ResponseError,
    >)
        ensures
            match r {
                Ok(files) => {
                    &&& is_success(status)
                    &&& parsed_xml(body@) matches Some(nodes)
                    &&& first_file_failure(nodes, document_tagged(nodes, "Contents"@)) is None
                    &&& files_match(files@, nodes, document_tagged(nodes, "Contents"@))
                },
                Err(ResponseError::Service(text)) => !is_success(status) && text@ == body@,
                Err(ResponseError::Xml(_)) => is_success(status) && parsed_xml(body@) is None,
                Err(ResponseError::Record(e)) => {
                    &&& is_success(status)
                    &&& parsed_xml(body@) matches Some(nodes)
                    &&& first_file_failure(nodes, document_tagged(nodes, "Contents"@)) == Some(e)
                },
                Err(_) => false,
            },
    {
        match self.list_objects_response(status, body) {
            Ok((_folders, files)) => Ok(files),
            Err(e) => Err(e),
        }
    }

    /// Reads the answer to a request for where a link points: the text of
    /// the header `x-oss-symlink-target`.
    pub fn get_symlink_response(&self, status: u16, headers: &[Header], body: &str) -> (r: Result<
        String,
        ResponseError,
    >)
        ensures
            match r {
                Ok(target) => {
                    &&& is_success(status)
                    &&& response_header_text(headers.deep_view(), "x-oss-symlink-target"@) == Some(
                        target@,
                    )
                },
                Err(ResponseError::Service(text)) => !is_success(status) && text@ == body@,
                Err(ResponseError::SymlinkTargetNotFound) => is_success(status) && find_header(
                    headers.deep_view(),
                    "x-oss-symlink-target"@,
                ) is None,
                Err(ResponseError::InvalidHeaderValue) => {
                    &&& is_success(status)
                    &&& find_header(headers.deep_view(), "x-oss-symlink-target"@) matches Some(
                        value,
                    )
                    &&& !valid_utf8(value)
                },
                Err(_) => false,
            },
    {
        match check_status(status, body) {
            Ok(()) => {},
            Err(e) => {
                return Err(e);
            },
        }
        match header_value(headers, "x-oss-symlink-target") {
            None => Err(ResponseError::SymlinkTargetNotFound),
            Some(value) => match utf8_text(value) {
                Some(text) => Ok(text),
                None => Err(ResponseError::InvalidHeaderValue),
            },
        }
    }
}

} // verus!
