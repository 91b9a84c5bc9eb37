//! A folder: a common prefix of the names of objects.

use crate::error::RecordError;
use crate::xml::{tag_text, Node};
use vstd::prelude::*;

verus! {

/// A folder, by its name: the prefix that the objects in it share.
#[derive(Debug, Clone)]
pub struct Folder {
    pub name: String,
}

impl Folder {
    /// The folder with the name `name`.
    pub fn new(name: &str) -> (r: Self)
        ensures
            r.name@ == name@,
    {
        Self { name: name.to_owned() }
    }

    /// The folder that `node` describes: its name is the text of the
    /// element `Prefix`.
    pub fn new_from_xml_node(node: Node) -> (r: Result<Self, RecordError>)
        ensures
            r matches Ok(folder) && folder.name@ == tag_text(
                node.document@,
                node.index as int,
                "Prefix"@,
            ),
    {
        Ok(Self { name: node.text_of("Prefix") })
    }
}

} // verus!
