//! XML documents as the service sends them. A document is parsed by the
//! `roxmltree` crate; this module keeps its nodes in document order, each
//! with its depth, and finds elements among them.

use crate::text::str_eq;
use vstd::prelude::*;

verus! {

/// What a node of a document holds.
pub struct XmlNodeView {
    /// How deep the node lies: the number of nodes from it up to the root of
    /// the document, both counted.
    pub depth: usize,
    /// Whether the node is an element.
    pub is_element: bool,
    /// The local name of the tag of an element; empty for another node.
    pub name: Seq<char>,
    /// The text of the node: of an element, the text that it starts with.
    pub text: Option<Seq<char>>,
}

/// A node of a document.
#[derive(Debug)]
pub struct XmlNode {
    pub depth: usize,
    pub is_element: bool,
    pub name: String,
    pub text: Option<String>,
}

impl DeepView for XmlNode {
    type V = XmlNodeView;

    open spec fn deep_view(&self) -> XmlNodeView {
        XmlNodeView {
            depth: self.depth,
            is_element: self.is_element,
            name: self.name@,
            text: match self.text {
                Some(t) => Some(t@),
                None => None,
            },
        }
    }
}

/// The nodes of the document that `text` writes, in document order, where
/// `text` is a document.
pub uninterp spec fn parsed_xml(text: Seq<char>) -> Option<Seq<XmlNodeView>>;

/// Why a text is no XML document, as `roxmltree` tells it.
#[verifier::external_type_specification]
#[verifier::external_body]
pub struct ExXmlError(roxmltree::Error);

/// Calls `roxmltree::Document::parse`, then `descendants` on the document,
/// and reads each node with `ancestors`, `is_element`, `tag_name` and
/// `text`. Believed: whether the text parses, and what the nodes hold,
/// depends on the text alone.
#[verifier::external_body]
fn parse_xml_nodes(text: &str) -> (r: Result<Vec<XmlNode>, roxmltree::Error>)
    ensures
        match r {
            Ok(nodes) => parsed_xml(text@) == Some(nodes.deep_view()),
            Err(_) => parsed_xml(text@) is None,
        },
{
    let doc = roxmltree::Document::parse(text)?;
    Ok(
        doc.descendants().map(
            |n|
                XmlNode {
                    depth: n.ancestors().count(),
                    is_element: n.is_element(),
                    name: n.tag_name().name().to_owned(),
                    text: n.text().map(str::to_owned),
                },
        ).collect(),
    )
}

/// Whether `node` is an element with the tag `tag`.
pub open spec fn has_tag(node: XmlNodeView, tag: Seq<char>) -> bool {
    node.is_element && node.name == tag
}

/// Where the run of nodes from `from` on that lie deeper than `depth` ends.
pub open spec fn deeper_run_end(nodes: Seq<XmlNodeView>, depth: usize, from: int) -> int
    decreases nodes.len() - from,
{
    if from < 0 || from >= nodes.len() || nodes[from].depth <= depth {
        from
    } else {
        deeper_run_end(nodes, depth, from + 1)
    }
}

/// Where the nodes below the node at `start` end: the index behind the last
/// of them. The node and the nodes below it are the nodes from `start` up
/// to there.
pub open spec fn subtree_end(nodes: Seq<XmlNodeView>, start: int) -> int {
    if 0 <= start < nodes.len() {
        deeper_run_end(nodes, nodes[start].depth, start + 1)
    } else {
        start
    }
}

/// The index of the first element with the tag `tag` among the nodes from
/// `from` up to `to`.
pub open spec fn first_tagged(
    nodes: Seq<XmlNodeView>,
    from: int,
    to: int,
    tag: Seq<char>,
) -> Option<int>
    decreases to - from,
{
    if from >= to || from < 0 || from >= nodes.len() {
        None
    } else if has_tag(nodes[from], tag) {
        Some(from)
    } else {
        first_tagged(nodes, from + 1, to, tag)
    }
}

/// The indices of the elements with the tag `tag` among the nodes from
/// `from` up to `to`, in order.
pub open spec fn all_tagged(nodes: Seq<XmlNodeView>, from: int, to: int, tag: Seq<char>) -> Seq<int>
    decreases to - from,
{
    if from >= to || from < 0 || to > nodes.len() {
        Seq::empty()
    } else if has_tag(nodes[to - 1], tag) {
        all_tagged(nodes, from, to - 1, tag).push(to - 1)
    } else {
        all_tagged(nodes, from, to - 1, tag)
    }
}

/// The first element with the tag `tag` that is the node at `start` or
/// lies below it.
pub open spec fn find_tagged(nodes: Seq<XmlNodeView>, start: int, tag: Seq<char>) -> Option<int> {
    first_tagged(nodes, start, subtree_end(nodes, start), tag)
}

/// The text of the first element with the tag `tag` that is the node at
/// `start` or lies below it; empty where there is no such element, or it
/// has no text.
pub open spec fn tag_text(nodes: Seq<XmlNodeView>, start: int, tag: Seq<char>) -> Seq<char> {
    match find_tagged(nodes, start, tag) {
        Some(i) => match nodes[i].text {
            Some(t) => t,
            None => Seq::empty(),
        },
        None => Seq::empty(),
    }
}

/// Why a document could not be read.
#[derive(Clone, Copy, Debug, PartialEq, Eq, Structural)]
pub enum XmlError {
    /// The text is no XML document.
    Malformed,
}

/// A document: its nodes in document order, the root first.
#[derive(Debug)]
pub struct XmlDocument {
    nodes: Vec<XmlNode>,
}

impl View for XmlDocument {
    type V = Seq<XmlNodeView>;

    closed spec fn view(&self) -> Seq<XmlNodeView> {
        self.nodes.deep_view()
    }
}

/// A node of a document, by its place in the document.
#[derive(Clone, Copy, Debug)]
pub struct Node<'a> {
    pub document: &'a XmlDocument,
    pub index: usize,
}

impl XmlDocument {
    /// The document with the nodes `nodes`.
    pub fn new(nodes: Vec<XmlNode>) -> (r: Self)
        ensures
            r@ == nodes.deep_view(),
    {
        XmlDocument { nodes }
    }

    /// The document that `text` writes.
    pub fn parse(text: &str) -> (r: Result<Self, XmlError>)
        ensures
            match r {
                Ok(document) => parsed_xml(text@) == Some(document@),
                Err(_) => parsed_xml(text@) is None,
            },
    {
        match parse_xml_nodes(text) {
            Ok(nodes) => Ok(XmlDocument { nodes }),
            Err(_) => Err(XmlError::Malformed),
        }
    }

    /// The number of nodes of the document.
    pub fn len(&self) -> (n: usize)
        ensures
            n == self@.len(),
    {
        self.nodes.len()
    }

    /// The first node of the document: its root.
    pub fn root(&self) -> (r: Node<'_>)
        ensures
            r.document == self,
            r.index == 0,
    {
        Node { document: self, index: 0 }
    }

    /// The node at `index`.
    pub fn node(&self, index: usize) -> (r: Node<'_>)
        ensures
            r.document == self,
            r.index == index,
    {
        Node { document: self, index }
    }
}

impl<'a> Node<'a> {
    /// Where the nodes below this node end.
    pub fn end(&self) -> (end: usize)
        ensures
            end == subtree_end(self.document@, self.index as int),
            self.index <= end <= self.document@.len() || end == self.index,
    {
        let nodes = &self.document.nodes;
        if self.index >= nodes.len() {
            return self.index;
        }
        let depth = nodes[self.index].depth;
        let mut j: usize = self.index + 1;
        while j < nodes.len() && nodes[j].depth > depth
            invariant
                self.index < j <= nodes.len(),
                nodes.deep_view() == self.document@,
                deeper_run_end(self.document@, depth, self.index + 1) == deeper_run_end(
                    self.document@,
                    depth,
                    j as int,
                ),
            decreases nodes.len() - j,
        {
            j += 1;
        }
        j
    }

    /// The first element with the tag `tag` that is this node or lies
    /// below it.
    pub fn find(&self, tag: &str) -> (r: Option<Node<'a>>)
        ensures
            match r {
                Some(node) => node.document == self.document && node.index
                    < self.document@.len() && find_tagged(
                    self.document@,
                    self.index as int,
                    tag@,
                ) == Some(node.index as int),
                None => find_tagged(self.document@, self.index as int, tag@) is None,
            },
    {
        let nodes = &self.document.nodes;
        let end = self.end();
        let mut j: usize = self.index;
        while j < end
            invariant
                self.index <= j,
                j <= end || end == self.index,
                end <= nodes.len() || end == self.index,
                nodes.deep_view() == self.document@,
                find_tagged(self.document@, self.index as int, tag@) == first_tagged(
                    self.document@,
                    j as int,
                    end as int,
                    tag@,
                ),
                end == subtree_end(self.document@, self.index as int),
            decreases end - j,
        {
            assert(self.document@[j as int] == nodes@[j as int].deep_view());
            if nodes[j].is_element && str_eq(nodes[j].name.as_str(), tag) {
                return Some(Node { document: self.document, index: j });
            }
            j += 1;
        }
        None
    }

    /// The text of the first element with the tag `tag` that is this node
    /// or lies below it; empty where there is none, or it has no text.
    pub fn text_of(&self, tag: &str) -> (r: String)
        ensures
            r@ == tag_text(self.document@, self.index as int, tag@),
    {
        match self.find(tag) {
            Some(node) => {
                let nodes = &self.document.nodes;
                assert(self.document@[node.index as int] == nodes@[node.index as int].deep_view());
                match &nodes[node.index].text {
                    Some(t) => t.clone(),
                    None => String::new(),
                }
            },
            None => String::new(),
        }
    }

    /// The elements with the tag `tag` among this node and the nodes below
    /// it, in document order.
    pub fn find_all(&self, tag: &str) -> (r: Vec<usize>)
        ensures
            r@.map_values(|i: usize| i as int) == all_tagged(
                self.document@,
                self.index as int,
                subtree_end(self.document@, self.index as int),
                tag@,
            ),
    {
        let nodes = &self.document.nodes;
        let end = self.end();
        let mut found: Vec<usize> = Vec::new();
        let mut j: usize = self.index;
        if end <= self.index {
            assert(found@.map_values(|i: usize| i as int) =~= Seq::<int>::empty());
            return found;
        }
        assert(found@.map_values(|i: usize| i as int) =~= Seq::<int>::empty());
        while j < end
            invariant
                self.index <= j <= end <= nodes.len(),
                nodes.deep_view() == self.document@,
                found@.map_values(|i: usize| i as int) == all_tagged(
                    self.document@,
                    self.index as int,
                    j as int,
                    tag@,
                ),
            decreases end - j,
        {
            let ghost before = found@.map_values(|i: usize| i as int);
            assert(self.document@[j as int] == nodes@[j as int].deep_view());
            if nodes[j].is_element && str_eq(nodes[j].name.as_str(), tag) {
                found.push(j);
                assert(found@.map_values(|i: usize| i as int) =~= before.push(j as int));
            }
            j += 1;
        }
        found
    }
}

} // verus!
