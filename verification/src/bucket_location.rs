//! The location (region) of a bucket.

use crate::error::RecordError;
use crate::xml::{tag_text, Node};
use vstd::prelude::*;

verus! {

/// The location code of a bucket, such as `oss-cn-hangzhou`.
#[derive(Debug, Clone)]
pub struct BucketLocation {
    location: String,
}

impl View for BucketLocation {
    type V = Seq<char>;

    closed spec fn view(&self) -> Seq<char> {
        self.location@
    }
}

impl BucketLocation {
    /// The location with the code `location`.
    pub fn new(location: &str) -> (r: Self)
        ensures
            r@ == location@,
    {
        BucketLocation { location: location.to_owned() }
    }

    /// The location that `node` tells: the text of the element
    /// `LocationConstraint`.
    pub fn new_from_xml_node(node: Node) -> (r: Result<Self, RecordError>)
        ensures
            r matches Ok(location) && location@ == tag_text(
                node.document@,
                node.index as int,
                "LocationConstraint"@,
            ),
    {
        Ok(BucketLocation { location: node.text_of("LocationConstraint") })
    }

    /// The code of the location.
    pub fn as_str(&self) -> (s: &str)
        ensures
            s@ == self@,
    {
        self.location.as_str()
    }
}

impl AsRef<str> for BucketLocation {
    fn as_ref(&self) -> (s: &str)
        ensures
            s@ == self@,
    {
        self.location.as_str()
    }
}

} // verus!
