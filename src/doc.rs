//! The parsed document tree.

use vstd::prelude::*;

verus! {

/// One node of a parsed document. Lists and tables nest by containment:
/// the depth of a list is the depth of the tree, not a number.
#[derive(Debug, PartialEq)]
pub enum Node {
    /// A heading of level 1 to 6, with its content.
    Heading(u8, Vec<Node>),
    Bold(Vec<Node>),
    Italic(Vec<Node>),
    Text(String),
    /// Verbatim text, never read as markup.
    Literal(String),
    /// A link: its target, then its label (empty where none was written).
    Link(String, String),
    /// A paragraph-level run of inline nodes.
    Line(Vec<Node>),
    /// An image: its source, then its caption (possibly empty).
    Image(String, String),
    SoftBreak,
    HardBreak,
    Rule,
    Table(Vec<Node>),
    TableHeaderRow(Vec<Node>),
    TableRow(Vec<Node>),
    TableHeaderCell(Vec<Node>),
    TableCell(Vec<Node>),
    BulletList(Vec<Node>),
    NumberedList(Vec<Node>),
    ListItem(Vec<Node>),
}

} // verus!
