//! The statistics of a bucket.

use crate::date::{is_date_time, UtcDateTime};
use crate::error::RecordError;
use crate::text::{parse_i64, parse_u64, parsed_i64, parsed_u64};
use crate::xml::{tag_text, Node, XmlNodeView};
use vstd::prelude::*;

verus! {

/// What a bucket holds: sizes in bytes and counts of objects, in all and by
/// storage class, and the time of the last change.
#[derive(Debug, Clone)]
pub struct BucketStat {
    pub storage: u64,
    pub object_count: u64,
    pub multipart_upload_count: u64,
    pub live_channel_count: u64,
    pub last_modified_time: UtcDateTime,
    pub standard_storage: u64,
    pub standard_object_count: u64,
    pub infrequent_access_storage: u64,
    pub infrequent_access_object_count: u64,
    pub archive_storage: u64,
    pub archive_real_storage: u64,
    pub archive_object_count: u64,
    pub cold_archive_storage: u64,
    pub cold_archive_real_storage: u64,
    pub cold_archive_object_count: u64,
    pub deep_cold_archive_storage: u64,
    pub deep_cold_archive_real_storage: u64,
    pub deep_cold_archive_object_count: u64,
}

/// The number in the element `tag` of the node at `start`.
pub open spec fn number_field(nodes: Seq<XmlNodeView>, start: int, tag: Seq<char>) -> Option<u64> {
    parsed_u64(tag_text(nodes, start, tag))
}

/// The second in the element `LastModifiedTime` of the node at `start`.
pub open spec fn modified_second(nodes: Seq<XmlNodeView>, start: int) -> Option<i64> {
    parsed_i64(tag_text(nodes, start, "LastModifiedTime"@))
}

/// Whether the four numbers that stand before the time in the statistics
/// are numbers.
pub open spec fn leading_numbers_ok(nodes: Seq<XmlNodeView>, start: int) -> bool {
    &&& number_field(nodes, start, "Storage"@) is Some
    &&& number_field(nodes, start, "ObjectCount"@) is Some
    &&& number_field(nodes, start, "MultipartUploadCount"@) is Some
    &&& number_field(nodes, start, "LiveChannelCount"@) is Some
}

/// Whether the numbers that stand behind the time in the statistics are
/// numbers.
pub open spec fn trailing_numbers_ok(nodes: Seq<XmlNodeView>, start: int) -> bool {
    &&& number_field(nodes, start, "StandardStorage"@) is Some
    &&& number_field(nodes, start, "StandardObjectCount"@) is Some
    &&& number_field(nodes, start, "InfrequentAccessStorage"@) is Some
    &&& number_field(nodes, start, "InfrequentAccessObjectCount"@) is Some
    &&& number_field(nodes, start, "ArchiveStorage"@) is Some
    &&& number_field(nodes, start, "ArchiveRealStorage"@) is Some
    &&& number_field(nodes, start, "ArchiveObjectCount"@) is Some
    &&& number_field(nodes, start, "ColdArchiveStorage"@) is Some
    &&& number_field(nodes, start, "ColdArchiveRealStorage"@) is Some
    &&& number_field(nodes, start, "ColdArchiveObjectCount"@) is Some
    &&& number_field(nodes, start, "DeepColdArchiveStorage"@) is Some
    &&& number_field(nodes, start, "DeepColdArchiveRealStorage"@) is Some
    &&& number_field(nodes, start, "DeepColdArchiveObjectCount"@) is Some
}

/// Why the statistics that the node at `start` holds cannot be read, where
/// they cannot. The fields are read in their order: four numbers, the time,
/// then the other numbers.
pub open spec fn stat_failure(nodes: Seq<XmlNodeView>, start: int) -> Option<RecordError> {
    if !leading_numbers_ok(nodes, start) {
        Some(RecordError::InvalidNumber)
    } else {
        match modified_second(nodes, start) {
            None => Some(RecordError::InvalidNumber),
            Some(second) => if !is_date_time(second, 0) {
                Some(RecordError::InvalidDate)
            } else if !trailing_numbers_ok(nodes, start) {
                Some(RecordError::InvalidNumber)
            } else {
                None
            },
        }
    }
}

/// Whether `stat` are the statistics that the node at `start` holds.
pub open spec fn stat_matches(stat: BucketStat, nodes: Seq<XmlNodeView>, start: int) -> bool {
    &&& Some(stat.storage) == number_field(nodes, start, "Storage"@)
    &&& Some(stat.object_count) == number_field(nodes, start, "ObjectCount"@)
    &&& Some(stat.multipart_upload_count) == number_field(nodes, start, "MultipartUploadCount"@)
    &&& Some(stat.live_channel_count) == number_field(nodes, start, "LiveChannelCount"@)
    &&& Some(stat.last_modified_time@.0) == modified_second(nodes, start)
    &&& stat.last_modified_time@.1 == 0
    &&& Some(stat.standard_storage) == number_field(nodes, start, "StandardStorage"@)
    &&& Some(stat.standard_object_count) == number_field(nodes, start, "StandardObjectCount"@)
    &&& Some(stat.infrequent_access_storage) == number_field(
        nodes,
        start,
        "InfrequentAccessStorage"@,
    )
    &&& Some(stat.infrequent_access_object_count) == number_field(
        nodes,
        start,
        "InfrequentAccessObjectCount"@,
    )
    &&& Some(stat.archive_storage) == number_field(nodes, start, "ArchiveStorage"@)
    &&& Some(stat.archive_real_storage) == number_field(nodes, start, "ArchiveRealStorage"@)
    &&& Some(stat.archive_object_count) == number_field(nodes, start, "ArchiveObjectCount"@)
    &&& Some(stat.cold_archive_storage) == number_field(nodes, start, "ColdArchiveStorage"@)
    &&& Some(stat.cold_archive_real_storage) == number_field(
        nodes,
        start,
        "ColdArchiveRealStorage"@,
    )
    &&& Some(stat.cold_archive_object_count) == number_field(
        nodes,
        start,
        "ColdArchiveObjectCount"@,
    )
    &&& Some(stat.deep_cold_archive_storage) == number_field(
        nodes,
        start,
        "DeepColdArchiveStorage"@,
    )
    &&& Some(stat.deep_cold_archive_real_storage) == number_field(
        nodes,
        start,
        "DeepColdArchiveRealStorage"@,
    )
    &&& Some(stat.deep_cold_archive_object_count) == number_field(
        nodes,
        start,
        "DeepColdArchiveObjectCount"@,
    )
}

/// Reads the number in the element `tag` of `node`.
fn read_number(node: Node, tag: &str) -> (r: Result<u64, RecordError>)
    ensures
        match r {
            Ok(n) => number_field(node.document@, node.index as int, tag@) == Some(n),
            Err(e) => e == RecordError::InvalidNumber && number_field(
                node.document@,
                node.index as int,
                tag@,
            ) is None,
        },
{
    match parse_u64(node.text_of(tag).as_str()) {
        Some(n) => Ok(n),
        None => Err(RecordError::InvalidNumber),
    }
}

impl BucketStat {
    /// The statistics that `node` holds: each field from the text of the
    /// element of its name. Fails where a number is no number, or where the
    /// time of the last change, in seconds of the Unix epoch, is out of
    /// range.
    pub fn new_from_xml_node(node: Node) -> (r: Result<Self, RecordError>)
        ensures
            match r {
                Ok(stat) => stat_failure(node.document@, node.index as int) is None
                    && stat_matches(stat, node.document@, node.index as int),
                Err(e) => stat_failure(node.document@, node.index as int) == Some(e),
            },
    {
        let storage = match read_number(node, "Storage") {
            Ok(n) => n,
            Err(e) => {
                return Err(e);
            },
        };
        let object_count = match read_number(node, "ObjectCount") {
            Ok(n) => n,
            Err(e) => {
                return Err(e);
            },
        };
        let multipart_upload_count = match read_number(node, "MultipartUploadCount") {
            Ok(n) => n,
            Err(e) => {
                return Err(e);
            },
        };
        let live_channel_count = match read_number(node, "LiveChannelCount") {
            Ok(n) => n,
            Err(e) => {
                return Err(e);
            },
        };
        let seconds = match parse_i64(node.text_of("LastModifiedTime").as_str()) {
            Some(seconds) => seconds,
            None => {
                return Err(RecordError::InvalidNumber);
            },
        };
        let last_modified_time = match UtcDateTime::from_timestamp(seconds, 0) {
            Some(date) => date,
            None => {
                return Err(RecordError::InvalidDate);
            },
        };
        let standard_storage = match read_number(node, "StandardStorage") {
            Ok(n) => n,
            Err(e) => {
                return Err(e);
            },
        };
        let standard_object_count = match read_number(node, "StandardObjectCount") {
            Ok(n) => n,
            Err(e) => {
                return Err(e);
            },
        };
        let infrequent_access_storage = match read_number(node, "InfrequentAccessStorage") {
            Ok(n) => n,
            Err(e) => {
                return Err(e);
            },
        };
        let infrequent_access_object_count = match read_number(
            node,
            "InfrequentAccessObjectCount",
        ) {
            Ok(n) => n,
            Err(e) => {
                return Err(e);
            },
        };
        let archive_storage = match read_number(node, "ArchiveStorage") {
            Ok(n) => n,
            Err(e) => {
                return Err(e);
            },
        };
        let archive_real_storage = match read_number(node, "ArchiveRealStorage") {
            Ok(n) => n,
            Err(e) => {
                return Err(e);
            },
        };
        let archive_object_count = match read_number(node, "ArchiveObjectCount") {
            Ok(n) => n,
            Err(e) => {
                return Err(e);
            },
        };
        let cold_archive_storage = match read_number(node, "ColdArchiveStorage") {
            Ok(n) => n,
            Err(e) => {
                return Err(e);
            },
        };
        let cold_archive_real_storage = match read_number(node, "ColdArchiveRealStorage") {
            Ok(n) => n,
            Err(e) => {
                return Err(e);
            },
        };
        let cold_archive_object_count = match read_number(node, "ColdArchiveObjectCount") {
            Ok(n) => n,
            Err(e) => {
                return Err(e);
            },
        };
        let deep_cold_archive_storage = match read_number(node, "DeepColdArchiveStorage") {
            Ok(n) => n,
            Err(e) => {
                return Err(e);
            },
        };
        let deep_cold_archive_real_storage = match read_number(node, "DeepColdArchiveRealStorage") {
            Ok(n) => n,
            Err(e) => {
                return Err(e);
            },
        };
        let deep_cold_archive_object_count = match read_number(node, "DeepColdArchiveObjectCount") {
            Ok(n) => n,
            Err(e) => {
                return Err(e);
            },
        };
        Ok(
            Self {
                storage,
                object_count,
                multipart_upload_count,
                live_channel_count,
                last_modified_time,
                standard_storage,
                standard_object_count,
                infrequent_access_storage,
                infrequent_access_object_count,
                archive_storage,
                archive_real_storage,
                archive_object_count,
                cold_archive_storage,
                cold_archive_real_storage,
                cold_archive_object_count,
                deep_cold_archive_storage,
                deep_cold_archive_real_storage,
                deep_cold_archive_object_count,
            },
        )
    }
}

} // verus!
