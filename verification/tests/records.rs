use ali_oss::error::RecordError;
use ali_oss::request::Header;
use ali_oss::response::{check_status, is_success_status, ResponseError};
use ali_oss::xml::{XmlDocument, XmlError, XmlNode};
use ali_oss::{Bucket, BucketLocation, BucketStat, Client, File, Folder, OssError};

fn client() -> Client {
    Client::new("key-id", "testsecret", "my-bucket", "oss-cn-hangzhou", "", false)
}

fn element(depth: usize, name: &str, text: Option<&str>) -> XmlNode {
    XmlNode { depth, is_element: true, name: name.to_string(), text: text.map(str::to_string) }
}

fn text_node(depth: usize, text: &str) -> XmlNode {
    XmlNode { depth, is_element: false, name: String::new(), text: Some(text.to_string()) }
}

#[test]
fn parse_keeps_nodes_in_document_order() {
    let document = XmlDocument::parse("<a><b>x<c/>y</b><!-- n --><d xmlns='u'>z</d></a>").unwrap();
    assert_eq!(document.len(), 9);
    let root = document.root();
    assert_eq!(root.end(), 9);
    let a = root.find("a").unwrap();
    assert_eq!(a.index, 1);
    let b = root.find("b").unwrap();
    assert_eq!((b.index, b.end()), (2, 6));
    assert_eq!(root.text_of("b"), "x");
    assert_eq!(root.text_of("c"), "");
    assert_eq!(root.text_of("d"), "z");
    assert_eq!(root.text_of("e"), "");
    assert_eq!(b.text_of("d"), "");
    assert!(b.find("d").is_none());
    assert!(root.find("").is_none());
    assert_eq!(b.find("b").map(|n| n.index), Some(2));
    assert_eq!(XmlDocument::parse("<a>").err(), Some(XmlError::Malformed));
    assert_eq!(XmlDocument::parse("").err(), Some(XmlError::Malformed));
}

#[test]
fn find_agrees_with_roxmltree() {
    let text = "<r><Name>outer</Name><L><I><Name>one</Name></I><I><Name>two</Name><I><Name>deep</Name></I></I><Name>tail</Name></L><I/></r>";
    let ours = XmlDocument::parse(text).unwrap();
    let theirs = roxmltree::Document::parse(text).unwrap();
    let their_nodes: Vec<roxmltree::Node> = theirs.descendants().collect();
    assert_eq!(ours.len(), their_nodes.len());
    for (index, their_node) in their_nodes.iter().enumerate() {
        let node = ours.node(index);
        assert_eq!(node.end() - index, their_node.descendants().count());
        for tag in ["Name", "I", "L", "r", "none", ""] {
            let expected = their_node.descendants().find(|n| n.has_tag_name(tag));
            let found = node.find(tag);
            assert_eq!(found.is_some(), expected.is_some());
            let expected_text = expected.and_then(|n| n.text()).unwrap_or("");
            assert_eq!(node.text_of(tag), expected_text);
            let expected_count = their_node.descendants().filter(|n| n.has_tag_name(tag)).count();
            assert_eq!(node.find_all(tag).len(), expected_count);
        }
    }
    assert_eq!(ours.root().find_all("I"), vec![5, 8, 11, 16]);
}

#[test]
fn nodes_by_hand() {
    let document = XmlDocument::new(vec![
        element(1, "a", None),
        element(2, "b", Some("x")),
        text_node(3, "x"),
        element(1, "b", Some("y")),
        text_node(2, "b"),
    ]);
    assert_eq!(document.node(0).end(), 3);
    assert_eq!(document.node(0).text_of("b"), "x");
    assert_eq!(document.node(3).text_of("b"), "y");
    assert_eq!(document.node(3).end(), 5);
    assert_eq!(document.node(4).end(), 5);
    assert_eq!(document.node(5).end(), 5);
    assert_eq!(document.node(9).end(), 9);
    assert!(document.node(9).find("a").is_none());
    assert!(document.node(9).find_all("a").is_empty());
    assert_eq!(document.node(0).find_all("b"), vec![1]);
    let empty = XmlDocument::new(Vec::new());
    assert!(empty.root().find("a").is_none());
    assert_eq!(empty.root().text_of("a"), "");
}

#[test]
fn folder_from_xml() {
    let document = XmlDocument::parse("<CommonPrefixes><Prefix>dir/</Prefix></CommonPrefixes>").unwrap();
    let folder = Folder::new_from_xml_node(document.root()).unwrap();
    assert_eq!(folder.name, "dir/");
    assert_eq!(Folder::new("x").name, "x");
    let document = XmlDocument::parse("<CommonPrefixes/>").unwrap();
    assert_eq!(Folder::new_from_xml_node(document.root()).unwrap().name, "");
}

const CONTENTS: &str = "<Contents><Key>a.txt</Key><LastModified>2024-01-01T00:00:00.000Z</LastModified><ETag>\"5EB63BBBE01EEED093CB22BB8F5ACDC3\"</ETag><Type>Normal</Type><Size>11</Size><StorageClass>Standard</StorageClass></Contents>";

#[test]
fn file_from_xml() {
    let document = XmlDocument::parse(CONTENTS).unwrap();
    let file = File::new_from_xml_node(document.root()).unwrap();
    assert_eq!(file.name, "a.txt");
    assert_eq!(file.object_type, "Normal");
    assert_eq!(file.size, 11);
    assert_eq!(file.etag, "5EB63BBBE01EEED093CB22BB8F5ACDC3");
    assert_eq!(file.last_modified.timestamp(), 1_704_067_200);
    assert_eq!(file.storage_class, "Standard");
    let bad_size = XmlDocument::parse(&CONTENTS.replace("<Size>11</Size>", "<Size>-1</Size>")).unwrap();
    assert_eq!(File::new_from_xml_node(bad_size.root()).err(), Some(RecordError::InvalidNumber));
    let no_size = XmlDocument::parse(&CONTENTS.replace("<Size>11</Size>", "")).unwrap();
    assert_eq!(File::new_from_xml_node(no_size.root()).err(), Some(RecordError::InvalidNumber));
    let bad_date = XmlDocument::parse(&CONTENTS.replace("2024-01-01T00:00:00.000Z", "today")).unwrap();
    assert_eq!(File::new_from_xml_node(bad_date.root()).err(), Some(RecordError::InvalidDate));
    let both = XmlDocument::parse("<Contents><Size>x</Size><LastModified>y</LastModified></Contents>").unwrap();
    assert_eq!(File::new_from_xml_node(both.root()).err(), Some(RecordError::InvalidNumber));
    assert_eq!(RecordError::InvalidNumber.message(), "a field holds no number");
}

const BUCKET: &str = "<Bucket><Comment>c</Comment><CreationDate>2024-01-01T00:00:00.000Z</CreationDate><Location>oss-cn-hangzhou</Location><Name>my-bucket</Name></Bucket>";

#[test]
fn bucket_from_xml() {
    let document = XmlDocument::parse(BUCKET).unwrap();
    let bucket = Bucket::new_from_xml_node(document.root()).unwrap();
    assert_eq!(bucket.name, "my-bucket");
    assert_eq!(bucket.location.as_str(), "oss-cn-hangzhou");
    assert_eq!(bucket.comment, "c");
    assert_eq!(bucket.creation_date.unwrap().timestamp(), 1_704_067_200);
    let document = XmlDocument::parse("<Bucket><Name>b</Name></Bucket>").unwrap();
    assert_eq!(Bucket::new_from_xml_node(document.root()).err(), Some(RecordError::InvalidDate));
    let document = XmlDocument::parse("<LocationConstraint>oss-cn-beijing</LocationConstraint>").unwrap();
    assert_eq!(BucketLocation::new_from_xml_node(document.root()).unwrap().as_str(), "oss-cn-beijing");
}

fn stat_xml(modified: &str, last: &str) -> String {
    format!(
        "<BucketStat><Storage>1</Storage><ObjectCount>2</ObjectCount><MultipartUploadCount>3</MultipartUploadCount><LiveChannelCount>4</LiveChannelCount><LastModifiedTime>{modified}</LastModifiedTime><StandardStorage>5</StandardStorage><StandardObjectCount>6</StandardObjectCount><InfrequentAccessStorage>7</InfrequentAccessStorage><InfrequentAccessObjectCount>8</InfrequentAccessObjectCount><ArchiveStorage>9</ArchiveStorage><ArchiveRealStorage>10</ArchiveRealStorage><ArchiveObjectCount>11</ArchiveObjectCount><ColdArchiveStorage>12</ColdArchiveStorage><ColdArchiveRealStorage>13</ColdArchiveRealStorage><ColdArchiveObjectCount>14</ColdArchiveObjectCount><DeepColdArchiveStorage>15</DeepColdArchiveStorage><DeepColdArchiveRealStorage>16</DeepColdArchiveRealStorage><DeepColdArchiveObjectCount>{last}</DeepColdArchiveObjectCount></BucketStat>"
    )
}

#[test]
fn bucket_stat_from_xml() {
    let document = XmlDocument::parse(&stat_xml("1704067200", "17")).unwrap();
    let stat = BucketStat::new_from_xml_node(document.root()).unwrap();
    let numbers = [
        stat.storage,
        stat.object_count,
        stat.multipart_upload_count,
        stat.live_channel_count,
        stat.standard_storage,
        stat.standard_object_count,
        stat.infrequent_access_storage,
        stat.infrequent_access_object_count,
        stat.archive_storage,
        stat.archive_real_storage,
        stat.archive_object_count,
        stat.cold_archive_storage,
        stat.cold_archive_real_storage,
        stat.cold_archive_object_count,
        stat.deep_cold_archive_storage,
        stat.deep_cold_archive_real_storage,
        stat.deep_cold_archive_object_count,
    ];
    assert_eq!(numbers.to_vec(), (1..=17).collect::<Vec<u64>>());
    assert_eq!(stat.last_modified_time.timestamp(), 1_704_067_200);
    assert_eq!(stat.last_modified_time.timestamp_subsec_nanos(), 0);
    let read = |modified: &str, last: &str| {
        let document = XmlDocument::parse(&stat_xml(modified, last)).unwrap();
        BucketStat::new_from_xml_node(document.root()).map(|s| s.last_modified_time.timestamp())
    };
    assert_eq!(read("-5", "17"), Ok(-5));
    assert_eq!(read("x", "17"), Err(RecordError::InvalidNumber));
    assert_eq!(read("9223372036854775807", "17"), Err(RecordError::InvalidDate));
    assert_eq!(read("9223372036854775807", "x"), Err(RecordError::InvalidDate));
    assert_eq!(read("0", "x"), Err(RecordError::InvalidNumber));
    assert_eq!(read("0", ""), Err(RecordError::InvalidNumber));
    let document = XmlDocument::parse("<BucketStat/>").unwrap();
    assert_eq!(BucketStat::new_from_xml_node(document.root()).err(), Some(RecordError::InvalidNumber));
}

#[test]
fn oss_error_keeps_the_text() {
    let error = OssError::new_from_xml_string("<Error><Code>NoSuchKey</Code></Error>".to_string()).unwrap();
    assert_eq!(error.get_xml_string(), "<Error><Code>NoSuchKey</Code></Error>");
    assert_eq!(error.get_code(), "");
    assert_eq!(error.get_message(), "");
    assert_eq!(OssError::new_from_xml_string("oops".to_string()).err(), Some(XmlError::Malformed));
}

#[test]
fn status_codes() {
    for status in [200u16, 204, 299] {
        assert!(check_status(status, "b").is_ok());
        assert!(is_success_status(status));
    }
    assert!(!is_success_status(199));
    assert!(!is_success_status(300));
    for status in [0u16, 100, 199, 300, 404, 500, u16::MAX] {
        match check_status(status, "body") {
            Err(ResponseError::Service(text)) => assert_eq!(text, "body"),
            other => panic!("{other:?}"),
        }
    }
}

#[test]
fn list_buckets_response() {
    let body = format!("<ListAllMyBucketsResult><Owner><ID>1</ID></Owner><Buckets>{BUCKET}{}</Buckets></ListAllMyBucketsResult>", BUCKET.replace("my-bucket", "other"));
    let buckets = client().list_buckets_response(200, &body).unwrap();
    let names: Vec<&str> = buckets.iter().map(|b| b.name.as_str()).collect();
    assert_eq!(names, vec!["my-bucket", "other"]);
    let empty = client().list_buckets_response(200, "<R><Buckets/></R>").unwrap();
    assert!(empty.is_empty());
    assert!(matches!(client().list_buckets_response(200, "<R/>"), Err(ResponseError::BucketsNotFound)));
    assert!(matches!(client().list_buckets_response(200, "<R"), Err(ResponseError::Xml(XmlError::Malformed))));
    assert!(matches!(client().list_buckets_response(403, "<R"), Err(ResponseError::Service(_))));
    let bad = "<R><Buckets><Bucket><Name>b</Name><CreationDate>x</CreationDate></Bucket></Buckets></R>";
    assert!(matches!(
        client().list_buckets_response(200, bad),
        Err(ResponseError::Record(RecordError::InvalidDate))
    ));
    assert_eq!(ResponseError::BucketsNotFound.message(), "Buckets node not found");
    assert_eq!(ResponseError::Service("denied".to_string()).message(), "denied");
}

#[test]
fn bucket_responses() {
    let c = client();
    let body = format!("<BucketInfo>{BUCKET}</BucketInfo>");
    let bucket = c.get_bucket_info_response(200, &body).unwrap().unwrap();
    assert_eq!(bucket.name, "my-bucket");
    assert!(c.get_bucket_info_response(200, "<BucketInfo/>").unwrap().is_none());
    assert!(matches!(c.get_bucket_info_response(500, "x"), Err(ResponseError::Service(_))));
    let location = c.get_bucket_location_response(200, "<LocationConstraint>oss-cn-beijing</LocationConstraint>").unwrap();
    assert_eq!(location.as_str(), "oss-cn-beijing");
    assert_eq!(c.get_bucket_location_response(200, "<X/>").unwrap().as_str(), "");
    let stat = c.get_bucket_stat_response(200, &stat_xml("7", "17")).unwrap();
    assert_eq!(stat.object_count, 2);
    assert!(matches!(
        c.get_bucket_stat_response(200, "<BucketStat/>"),
        Err(ResponseError::Record(RecordError::InvalidNumber))
    ));
}

#[test]
fn put_bucket_response_reads_the_date_header() {
    let c = client();
    let headers = [Header::new("Server", b"x"), Header::new("Date", b"Mon, 01 Jan 2024 00:00:00 GMT")];
    let bucket = c.put_bucket_response(200, &headers, "").unwrap();
    assert_eq!(bucket.name, "my-bucket");
    assert_eq!(bucket.location.as_str(), "oss-cn-hangzhou");
    assert_eq!(bucket.comment, "");
    assert_eq!(bucket.creation_date.unwrap().timestamp(), 1_704_067_200);
    let bucket = c.put_bucket_response(200, &[], "").unwrap();
    assert!(bucket.creation_date.is_none());
    let headers = [Header::new("date", b"soon")];
    assert!(matches!(c.put_bucket_response(200, &headers, ""), Err(ResponseError::InvalidDate)));
    let headers = [Header::new("date", &[0xff])];
    assert!(matches!(c.put_bucket_response(200, &headers, ""), Err(ResponseError::InvalidHeaderValue)));
    assert!(matches!(c.put_bucket_response(409, &headers, "exists"), Err(ResponseError::Service(_))));
}

#[test]
fn list_objects_response() {
    let body = format!(
        "<ListBucketResult><Name>b</Name><Prefix>p</Prefix>{CONTENTS}<CommonPrefixes><Prefix>p/x/</Prefix></CommonPrefixes>{}<CommonPrefixes><Prefix>p/y/</Prefix></CommonPrefixes></ListBucketResult>",
        CONTENTS.replace("a.txt", "b.txt")
    );
    let c = client();
    let (folders, files) = c.list_objects_response(200, &body).unwrap();
    assert_eq!(folders.iter().map(|f| f.name.as_str()).collect::<Vec<_>>(), vec!["p/x/", "p/y/"]);
    assert_eq!(files.iter().map(|f| f.name.as_str()).collect::<Vec<_>>(), vec!["a.txt", "b.txt"]);
    assert_eq!(c.list_folders_response(200, &body).unwrap().len(), 2);
    assert_eq!(c.list_files_response(200, &body).unwrap().len(), 2);
    let bad = "<ListBucketResult><Contents><Key>k</Key></Contents></ListBucketResult>";
    assert!(matches!(
        c.list_objects_response(200, bad),
        Err(ResponseError::Record(RecordError::InvalidNumber))
    ));
    assert!(matches!(c.list_files_response(404, bad), Err(ResponseError::Service(_))));
}

#[test]
fn symlink_response_reads_the_target_header() {
    let c = client();
    let headers = [Header::new("X-Oss-Symlink-Target", b"target.txt")];
    assert_eq!(c.get_symlink_response(200, &headers, "").unwrap(), "target.txt");
    assert!(matches!(c.get_symlink_response(200, &[], ""), Err(ResponseError::SymlinkTargetNotFound)));
    let headers = [Header::new("x-oss-symlink-target", &[0xc3, 0x28])];
    assert!(matches!(c.get_symlink_response(200, &headers, ""), Err(ResponseError::InvalidHeaderValue)));
    assert!(matches!(c.get_symlink_response(404, &headers, "gone"), Err(ResponseError::Service(_))));
}
