//! The renderer's output: elements with a tag, attributes and children.

use vstd::prelude::*;

verus! {

/// One node of the rendered view tree.
#[derive(Debug, PartialEq)]
pub enum ViewNode {
    /// An element. `navigate` is the in-app path that activating the
    /// element routes to, without a page reload.
    Element {
        tag: String,
        attrs: Vec<(String, String)>,
        navigate: Option<String>,
        children: Vec<ViewNode>,
    },
    /// A text leaf.
    Text(String),
}

/// What a view node stands for, in mathematical terms.
pub ghost enum VNode {
    Elem {
        tag: Seq<char>,
        attrs: Seq<(Seq<char>, Seq<char>)>,
        navigate: Option<Seq<char>>,
        children: Seq<VNode>,
    },
    Text(Seq<char>),
}

/// The attributes of an element as pairs of character sequences.
pub open spec fn attrs_view(a: Seq<(String, String)>) -> Seq<(Seq<char>, Seq<char>)> {
    a.map_values(|p: (String, String)| (p.0@, p.1@))
}

/// The model of one view node.
pub open spec fn vview(v: ViewNode) -> VNode
    decreases v, 1int,
{
    match v {
        ViewNode::Element { tag, attrs, navigate, children } => VNode::Elem {
            tag: tag@,
            attrs: attrs_view(attrs@),
            navigate: match navigate {
                Some(p) => Some(p@),
                None => None,
            },
            children: vviews(children@),
        },
        ViewNode::Text(t) => VNode::Text(t@),
    }
}

/// The models of a sequence of view nodes, in order.
pub open spec fn vviews(s: Seq<ViewNode>) -> Seq<VNode>
    decreases s, 0int,
{
    if s.len() == 0 {
        Seq::empty()
    } else {
        vviews(s.drop_last()).push(vview(s.last()))
    }
}

} // verus!
