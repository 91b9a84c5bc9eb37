//! A bucket, as the service describes it.

use crate::bucket_location::BucketLocation;
use crate::date::{date_time_of, date_view, UtcDateTime};
use crate::error::RecordError;
use crate::xml::{tag_text, Node, XmlNodeView};
use vstd::prelude::*;

verus! {

/// A bucket: its name, its location, the comment that its owner gave it,
/// and the time at which it was made, where that is known.
#[derive(Debug, Clone)]
pub struct Bucket {
    pub name: String,
    pub location: BucketLocation,
    pub comment: String,
    pub creation_date: Option<UtcDateTime>,
}

/// Whether `bucket` is the bucket that the node at `start` describes.
pub open spec fn bucket_matches(bucket: Bucket, nodes: Seq<XmlNodeView>, start: int) -> bool {
    &&& bucket.name@ == tag_text(nodes, start, "Name"@)
    &&& bucket.location@ == tag_text(nodes, start, "Location"@)
    &&& bucket.comment@ == tag_text(nodes, start, "Comment"@)
    &&& bucket.creation_date is Some
    &&& date_view(bucket.creation_date) == date_time_of(tag_text(nodes, start, "CreationDate"@))
}

/// Why the bucket that the node at `start` describes cannot be read, where
/// it cannot.
pub open spec fn bucket_failure(nodes: Seq<XmlNodeView>, start: int) -> Option<RecordError> {
    if date_time_of(tag_text(nodes, start, "CreationDate"@)) is None {
        Some(RecordError::InvalidDate)
    } else {
        None
    }
}

impl Bucket {
    /// The bucket with these values.
    pub fn new(name: &str, location: &str, comment: &str, creation_date: Option<UtcDateTime>) -> (r:
        Self)
        ensures
            r.name@ == name@,
            r.location@ == location@,
            r.comment@ == comment@,
            r.creation_date == creation_date,
    {
        Self {
            name: name.to_owned(),
            location: BucketLocation::new(location),
            comment: comment.to_owned(),
            creation_date,
        }
    }

    /// The bucket that `node` describes, from the texts of the elements
    /// `Name`, `Location`, `CreationDate` and `Comment`. Fails where the
    /// time at which the bucket was made is no date.
    pub fn new_from_xml_node(node: Node) -> (r: Result<Self, RecordError>)
        ensures
            match r {
                Ok(bucket) => bucket_failure(node.document@, node.index as int) is None
                    && bucket_matches(bucket, node.document@, node.index as int),
                Err(e) => bucket_failure(node.document@, node.index as int) == Some(e),
            },
    {
        let name = node.text_of("Name");
        let location = node.text_of("Location");
        let creation_date = node.text_of("CreationDate");
        let comment = node.text_of("Comment");
        match UtcDateTime::parse(creation_date.as_str()) {
            Some(date) => Ok(
                Self::new(name.as_str(), location.as_str(), comment.as_str(), Some(date)),
            ),
            None => Err(RecordError::InvalidDate),
        }
    }
}

} // verus!
