//! An object of a bucket, as a listing describes it.

use crate::date::{date_time_of, UtcDateTime};
use crate::error::RecordError;
use crate::text::{
    parse_u64, parsed_u64, strip_all_leading, strip_all_trailing, without_all_leading,
    without_all_trailing,
};
use crate::xml::{tag_text, Node, XmlNodeView};
use vstd::prelude::*;

verus! {

/// An object: its name, the kind of object that it is, its size in bytes,
/// its entity tag, the time of its last change, and its storage class.
#[derive(Debug, Clone)]
pub struct File {
    pub name: String,
    pub object_type: String,
    pub size: u64,
    pub etag: String,
    pub last_modified: UtcDateTime,
    pub storage_class: String,
}

/// An entity tag without the quotes around it.
pub open spec fn unquoted(etag: Seq<char>) -> Seq<char> {
    without_all_trailing(without_all_leading(etag, '"'), '"')
}

/// Why the object that the node at `start` describes cannot be read, where
/// it cannot: its size is read first, then its date.
pub open spec fn file_failure(nodes: Seq<XmlNodeView>, start: int) -> Option<RecordError> {
    if parsed_u64(tag_text(nodes, start, "Size"@)) is None {
        Some(RecordError::InvalidNumber)
    } else if date_time_of(tag_text(nodes, start, "LastModified"@)) is None {
        Some(RecordError::InvalidDate)
    } else {
        None
    }
}

/// Whether `file` is the object that the node at `start` describes.
pub open spec fn file_matches(file: File, nodes: Seq<XmlNodeView>, start: int) -> bool {
    &&& file.name@ == tag_text(nodes, start, "Key"@)
    &&& file.object_type@ == tag_text(nodes, start, "Type"@)
    &&& Some(file.size) == parsed_u64(tag_text(nodes, start, "Size"@))
    &&& file.etag@ == unquoted(tag_text(nodes, start, "ETag"@))
    &&& Some(file.last_modified@) == date_time_of(tag_text(nodes, start, "LastModified"@))
    &&& file.storage_class@ == tag_text(nodes, start, "StorageClass"@)
}

impl File {
    /// The object with these values.
    pub fn new(
        name: &str,
        object_type: &str,
        size: u64,
        etag: &str,
        last_modified: UtcDateTime,
        storage_class: &str,
    ) -> (r: Self)
        ensures
            r.name@ == name@,
            r.object_type@ == object_type@,
            r.size == size,
            r.etag@ == etag@,
            r.last_modified == last_modified,
            r.storage_class@ == storage_class@,
    {
        Self {
            name: name.to_owned(),
            object_type: object_type.to_owned(),
            size,
            etag: etag.to_owned(),
            last_modified,
            storage_class: storage_class.to_owned(),
        }
    }

    /// The object that `node` describes, from the texts of the elements
    /// `Key`, `Type`, `Size`, `ETag`, `LastModified` and `StorageClass`.
    /// The entity tag is kept without its quotes. Fails where the size is
    /// no number or the time is no date.
    pub fn new_from_xml_node(node: Node) -> (r: Result<Self, RecordError>)
        ensures
            match r {
                Ok(file) => file_failure(node.document@, node.index as int) is None
                    && file_matches(file, node.document@, node.index as int),
                Err(e) => file_failure(node.document@, node.index as int) == Some(e),
            },
    {
        let name = node.text_of("Key");
        let object_type = node.text_of("Type");
        let size = match parse_u64(node.text_of("Size").as_str()) {
            Some(size) => size,
            None => {
                return Err(RecordError::InvalidNumber);
            },
        };
        let quoted = node.text_of("ETag");
        let etag = strip_all_trailing(strip_all_leading(quoted.as_str(), '"'), '"');
        let last_modified = match UtcDateTime::parse(node.text_of("LastModified").as_str()) {
            Some(date) => date,
            None => {
                return Err(RecordError::InvalidDate);
            },
        };
        let storage_class = node.text_of("StorageClass");
        Ok(
            Self::new(
                name.as_str(),
                object_type.as_str(),
                size,
                etag,
                last_modified,
                storage_class.as_str(),
            ),
        )
    }
}

} // verus!
