use kdl::{KdlDocument, KdlEntry, KdlNode, KdlValue};
use vstd::prelude::*;

verus! {

/// What a value of a document holds, as far as the library reads values: a
/// text, a whole number, the bit pattern of a decimal fraction, or something
/// else.
pub enum ValueModel {
    Text(Seq<char>),
    Integer(i64),
    Fraction(u64),
    Other,
}

/// What an entry of a node holds: its value, and its name where it is a
/// property. An argument has no name.
pub struct EntryModel {
    pub name: Option<Seq<char>>,
    pub value: ValueModel,
}

/// What a node holds: its name, the text that its name is written as, its
/// entries in order, and the nodes below it where it has a block.
pub struct NodeModel {
    pub name: Seq<char>,
    pub shown: Seq<char>,
    pub entries: Seq<EntryModel>,
    pub children: Option<Seq<NodeModel>>,
}

/// What a document holds: its nodes, in order.
pub uninterp spec fn document_contents(document: KdlDocument) -> Seq<NodeModel>;

/// What a node holds.
pub uninterp spec fn node_contents(node: KdlNode) -> NodeModel;

/// What an entry holds.
pub uninterp spec fn entry_contents(entry: KdlEntry) -> EntryModel;

/// What a value holds.
pub uninterp spec fn value_contents(value: KdlValue) -> ValueModel;

impl ValueModel {
    /// The text of a value that is a text.
    pub open spec fn text(self) -> Option<Seq<char>> {
        match self {
            ValueModel::Text(text) => Some(text),
            _ => None,
        }
    }

    /// The number of a value that is a whole number.
    pub open spec fn integer(self) -> Option<i64> {
        match self {
            ValueModel::Integer(number) => Some(number),
            _ => None,
        }
    }

    /// The bit pattern of a value that is a decimal fraction.
    pub open spec fn fraction(self) -> Option<u64> {
        match self {
            ValueModel::Fraction(bits) => Some(bits),
            _ => None,
        }
    }
}

/// What each of the nodes holds.
pub open spec fn contents_of(nodes: Seq<KdlNode>) -> Seq<NodeModel> {
    Seq::new(nodes.len(), |i: int| node_contents(nodes[i]))
}

/// What the node holds, where there is one.
pub open spec fn node_option(node: Option<&KdlNode>) -> Option<NodeModel> {
    match node {
        Some(node) => Some(node_contents(*node)),
        None => None,
    }
}

/// What the document holds, where there is one.
pub open spec fn document_option(document: Option<&KdlDocument>) -> Option<Seq<NodeModel>> {
    match document {
        Some(document) => Some(document_contents(*document)),
        None => None,
    }
}

/// What the entry holds, where there is one.
pub open spec fn entry_option(entry: Option<&KdlEntry>) -> Option<EntryModel> {
    match entry {
        Some(entry) => Some(entry_contents(*entry)),
        None => None,
    }
}

/// The characters of the text, where there is one.
pub open spec fn text_option(text: Option<String>) -> Option<Seq<char>> {
    match text {
        Some(text) => Some(text@),
        None => None,
    }
}

/// The first of the nodes that has the given name.
pub open spec fn named_node(nodes: Seq<NodeModel>, name: Seq<char>) -> Option<NodeModel>
    decreases nodes.len(),
{
    if nodes.len() == 0 {
        None
    } else if nodes[0].name == name {
        Some(nodes[0])
    } else {
        named_node(nodes.drop_first(), name)
    }
}

/// The argument at the given place: among the entries without a name, the
/// one that as many come before as the place says.
pub open spec fn argument_at(entries: Seq<EntryModel>, place: int) -> Option<EntryModel>
    decreases entries.len(),
{
    if entries.len() == 0 {
        None
    } else if entries[0].name is Some {
        argument_at(entries.drop_first(), place)
    } else if place == 0 {
        Some(entries[0])
    } else {
        argument_at(entries.drop_first(), place - 1)
    }
}

/// The property of the given name: the last of the entries that has that name.
pub open spec fn property_named(entries: Seq<EntryModel>, name: Seq<char>) -> Option<EntryModel>
    decreases entries.len(),
{
    if entries.len() == 0 {
        None
    } else if entries.last().name == Some(name) {
        Some(entries.last())
    } else {
        property_named(entries.drop_last(), name)
    }
}

/// The text that is the first argument of the first node of the given name.
pub open spec fn first_text(nodes: Seq<NodeModel>, name: Seq<char>) -> Option<Seq<char>> {
    match named_node(nodes, name) {
        Some(node) => match argument_at(node.entries, 0) {
            Some(entry) => entry.value.text(),
            None => None,
        },
        None => None,
    }
}

/// The whole number that is the first argument of the first node of the
/// given name.
pub open spec fn first_integer(nodes: Seq<NodeModel>, name: Seq<char>) -> Option<i64> {
    match named_node(nodes, name) {
        Some(node) => match argument_at(node.entries, 0) {
            Some(entry) => entry.value.integer(),
            None => None,
        },
        None => None,
    }
}

/// The text of the property of the given name.
pub open spec fn property_text(entries: Seq<EntryModel>, name: Seq<char>) -> Option<Seq<char>> {
    match property_named(entries, name) {
        Some(entry) => entry.value.text(),
        None => None,
    }
}

/// The bit pattern of the decimal fraction of the property of the given name.
pub open spec fn property_fraction(entries: Seq<EntryModel>, name: Seq<char>) -> Option<u64> {
    match property_named(entries, name) {
        Some(entry) => entry.value.fraction(),
        None => None,
    }
}

} // verus!
