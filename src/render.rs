//! The tree renderer: a pure, total map from document nodes to view nodes.

use vstd::prelude::*;
use vstd::string::*;
use crate::doc::Node;
use crate::element::{ViewNode, VNode, vview, vviews, attrs_view};

verus! {

/// An element with no attributes and no navigation target.
pub open spec fn elem(tag: Seq<char>, children: Seq<VNode>) -> VNode {
    VNode::Elem { tag, attrs: Seq::empty(), navigate: None, children }
}

/// The heading tag for a level; levels past the deepest heading use it, and
/// a level below the first uses the first.
pub open spec fn heading_tag(level: u8) -> Seq<char> {
    if level <= 1 {
        "h1"@
    } else if level == 2 {
        "h2"@
    } else if level == 3 {
        "h3"@
    } else if level == 4 {
        "h4"@
    } else if level == 5 {
        "h5"@
    } else {
        "h6"@
    }
}

/// A link target is external when it starts with an absolute web scheme.
pub open spec fn is_external(target: Seq<char>) -> bool {
    "http://"@.is_prefix_of(target) || "https://"@.is_prefix_of(target)
}

/// The in-app path that views the page an internal link names.
pub open spec fn view_path(target: Seq<char>) -> Seq<char> {
    "/w/"@ + target
}

/// The text a link shows: its label, or its target where it has none.
pub open spec fn link_text(target: Seq<char>, label: Seq<char>) -> Seq<char> {
    if label.len() == 0 {
        target
    } else {
        label
    }
}

/// An external link opens outside the app; an internal one navigates in it.
pub open spec fn rendered_link(target: Seq<char>, label: Seq<char>) -> VNode {
    let text = seq![VNode::Text(link_text(target, label))];
    if is_external(target) {
        VNode::Elem {
            tag: "a"@,
            attrs: seq![("href"@, target), ("target"@, "__blank"@)],
            navigate: None,
            children: text,
        }
    } else {
        VNode::Elem {
            tag: "a"@,
            attrs: seq![("href"@, view_path(target))],
            navigate: Some(view_path(target)),
            children: text,
        }
    }
}

/// A bare image, or an image and its caption in a figure.
pub open spec fn rendered_image(src: Seq<char>, caption: Seq<char>) -> VNode {
    let img = VNode::Elem {
        tag: "img"@,
        attrs: seq![("src"@, src)],
        navigate: None,
        children: Seq::empty(),
    };
    if caption.len() == 0 {
        img
    } else {
        elem("figure"@, seq![img, elem("figcaption"@, seq![VNode::Text(caption)])])
    }
}

/// What a document node renders to.
pub open spec fn rendered(n: Node) -> VNode
    decreases n, 2int,
{
    match n {
        Node::Heading(level, c) => elem(heading_tag(level), rendered_seq(c@)),
        Node::Bold(c) => elem("b"@, rendered_seq(c@)),
        Node::Italic(c) => elem("i"@, rendered_seq(c@)),
        Node::Text(t) => elem("span"@, seq![VNode::Text(t@)]),
        Node::Literal(t) => elem("pre"@, seq![VNode::Text(t@)]),
        Node::Link(target, label) => rendered_link(target@, label@),
        Node::Line(c) => elem("p"@, rendered_seq(c@)),
        Node::Image(src, caption) => rendered_image(src@, caption@),
        Node::SoftBreak => VNode::Text(" "@),
        Node::HardBreak => elem("br"@, Seq::empty()),
        Node::Rule => elem("hr"@, Seq::empty()),
        Node::Table(rows) => elem(
            "table"@,
            seq![elem("thead"@, rendered_heads(rows@)), elem("tbody"@, rendered_bodies(rows@))],
        ),
        Node::TableHeaderRow(c) => elem("tr"@, rendered_seq(c@)),
        Node::TableRow(c) => elem("tr"@, rendered_seq(c@)),
        Node::TableHeaderCell(c) => elem("td"@, rendered_seq(c@)),
        Node::TableCell(c) => elem("td"@, rendered_seq(c@)),
        Node::BulletList(c) => elem("ul"@, rendered_seq(c@)),
        Node::NumberedList(c) => elem("ol"@, rendered_seq(c@)),
        Node::ListItem(c) => elem("li"@, rendered_seq(c@)),
    }
}

/// The renderings of a sequence of nodes, in order.
pub open spec fn rendered_seq(s: Seq<Node>) -> Seq<VNode>
    decreases s, 1int,
{
    if s.len() == 0 {
        Seq::empty()
    } else {
        rendered_seq(s.drop_last()).push(rendered(s.last()))
    }
}

/// The renderings of a table's header rows, in order.
pub open spec fn rendered_heads(rows: Seq<Node>) -> Seq<VNode>
    decreases rows, 1int,
{
    if rows.len() == 0 {
        Seq::empty()
    } else if rows.last() is TableHeaderRow {
        rendered_heads(rows.drop_last()).push(rendered(rows.last()))
    } else {
        rendered_heads(rows.drop_last())
    }
}

/// The renderings of a table's other rows, in order.
pub open spec fn rendered_bodies(rows: Seq<Node>) -> Seq<VNode>
    decreases rows, 1int,
{
    if rows.len() == 0 {
        Seq::empty()
    } else if rows.last() is TableHeaderRow {
        rendered_bodies(rows.drop_last())
    } else {
        rendered_bodies(rows.drop_last()).push(rendered(rows.last()))
    }
}

/// Whether `s` starts with `p`.
pub fn has_prefix(s: &str, p: &str) -> (r: bool)
    ensures
        r == p@.is_prefix_of(s@),
{
    let n = p.unicode_len();
    let m = s.unicode_len();
    if n > m {
        return false;
    }
    let mut i: usize = 0;
    while i < n
        invariant
            n == p@.len(),
            m == s@.len(),
            n <= m,
            0 <= i <= n,
            forall|j: int| 0 <= j < i ==> p@[j] == s@[j],
        decreases n - i,
    {
        if p.get_char(i) != s.get_char(i) {
            assert(s@.subrange(0, n as int)[i as int] == s@[i as int]);
            return false;
        }
        i = i + 1;
    }
    assert(p@ =~= s@.subrange(0, n as int));
    true
}

/// Whether a link target is external (see `is_external`).
pub fn is_external_link(target: &str) -> (r: bool)
    ensures
        r == is_external(target@),
{
    has_prefix(target, "http://") || has_prefix(target, "https://")
}

fn text_leaf(s: &str) -> (r: ViewNode)
    ensures
        vview(r) == VNode::Text(s@),
{
    ViewNode::Text(s.to_owned())
}

fn element(tag: &str, children: Vec<ViewNode>) -> (r: ViewNode)
    ensures
        vview(r) == elem(tag@, vviews(children@)),
{
    let attrs: Vec<(String, String)> = Vec::new();
    proof {
        assert(attrs_view(attrs@) =~= Seq::empty());
    }
    ViewNode::Element { tag: tag.to_owned(), attrs, navigate: None, children }
}

proof fn lemma_vviews_push(s: Seq<ViewNode>, v: ViewNode)
    ensures
        vviews(s.push(v)) == vviews(s).push(vview(v)),
{
    assert(s.push(v).drop_last() =~= s);
}

fn one(v: ViewNode) -> (r: Vec<ViewNode>)
    ensures
        vviews(r@) == seq![vview(v)],
{
    let mut r: Vec<ViewNode> = Vec::new();
    r.push(v);
    proof {
        lemma_vviews_push(Seq::empty(), v);
        assert(Seq::<ViewNode>::empty().push(v) =~= r@);
        assert(Seq::<VNode>::empty().push(vview(v)) =~= seq![vview(v)]);
    }
    r
}

fn heading_tag_of(level: u8) -> (r: &'static str)
    ensures
        r@ == heading_tag(level),
{
    if level <= 1 {
        "h1"
    } else if level == 2 {
        "h2"
    } else if level == 3 {
        "h3"
    } else if level == 4 {
        "h4"
    } else if level == 5 {
        "h5"
    } else {
        "h6"
    }
}

fn render_link(target: &String, label: &String) -> (r: ViewNode)
    ensures
        vview(r) == rendered_link(target@, label@),
{
    let shown = if label.as_str().is_empty() { text_leaf(target.as_str()) } else { text_leaf(label.as_str()) };
    let children = one(shown);
    let mut attrs: Vec<(String, String)> = Vec::new();
    if is_external_link(target.as_str()) {
        attrs.push(("href".to_owned(), target.clone()));
        attrs.push(("target".to_owned(), "__blank".to_owned()));
        proof {
            assert(attrs_view(attrs@) =~= seq![("href"@, target@), ("target"@, "__blank"@)]);
        }
        ViewNode::Element { tag: "a".to_owned(), attrs, navigate: None, children }
    } else {
        let path = String::from_str("/w/").concat(target.as_str());
        attrs.push(("href".to_owned(), path.clone()));
        proof {
            assert(attrs_view(attrs@) =~= seq![("href"@, view_path(target@))]);
        }
        ViewNode::Element { tag: "a".to_owned(), attrs, navigate: Some(path), children }
    }
}

fn render_image(src: &String, caption: &String) -> (r: ViewNode)
    ensures
        vview(r) == rendered_image(src@, caption@),
{
    let mut attrs: Vec<(String, String)> = Vec::new();
    attrs.push(("src".to_owned(), src.clone()));
    proof {
        assert(attrs_view(attrs@) =~= seq![("src"@, src@)]);
        assert(vviews(Seq::<ViewNode>::empty()) =~= Seq::empty());
    }
    let img = ViewNode::Element { tag: "img".to_owned(), attrs, navigate: None, children: Vec::new() };
    if caption.as_str().is_empty() {
        img
    } else {
        let ghost img_v = vview(img);
        let caption_node = element("figcaption", one(text_leaf(caption.as_str())));
        let ghost cap_v = vview(caption_node);
        let mut children: Vec<ViewNode> = Vec::new();
        children.push(img);
        children.push(caption_node);
        proof {
            lemma_vviews_push(Seq::empty(), children@[0]);
            assert(children@.drop_last() =~= seq![children@[0]]);
            assert(seq![children@[0]] =~= Seq::<ViewNode>::empty().push(children@[0]));
            assert(vviews(children@) =~= seq![img_v, cap_v]);
        }
        element("figure", children)
    }
}

/// Renders one document node.
pub fn render(n: &Node) -> (r: ViewNode)
    ensures
        vview(r) == rendered(*n),
    decreases n,
{
    match n {
        Node::Heading(level, c) => element(heading_tag_of(*level), render_all(c)),
        Node::Bold(c) => element("b", render_all(c)),
        Node::Italic(c) => element("i", render_all(c)),
        Node::Text(t) => element("span", one(text_leaf(t.as_str()))),
        Node::Literal(t) => element("pre", one(text_leaf(t.as_str()))),
        Node::Link(target, label) => render_link(target, label),
        Node::Line(c) => element("p", render_all(c)),
        Node::Image(src, caption) => render_image(src, caption),
        Node::SoftBreak => text_leaf(" "),
        Node::HardBreak => element("br", Vec::new()),
        Node::Rule => element("hr", Vec::new()),
        Node::Table(rows) => render_table(rows),
        Node::TableHeaderRow(c) => element("tr", render_all(c)),
        Node::TableRow(c) => element("tr", render_all(c)),
        Node::TableHeaderCell(c) => element("td", render_all(c)),
        Node::TableCell(c) => element("td", render_all(c)),
        Node::BulletList(c) => element("ul", render_all(c)),
        Node::NumberedList(c) => element("ol", render_all(c)),
        Node::ListItem(c) => element("li", render_all(c)),
    }
}

/// Renders a sequence of document nodes, in order.
pub fn render_all(nodes: &Vec<Node>) -> (r: Vec<ViewNode>)
    ensures
        vviews(r@) == rendered_seq(nodes@),
    decreases nodes,
{
    let mut out: Vec<ViewNode> = Vec::new();
    let mut i: usize = 0;
    while i < nodes.len()
        invariant
            0 <= i <= nodes@.len(),
            vviews(out@) == rendered_seq(nodes@.take(i as int)),
        decreases nodes@.len() - i,
    {
        let v = render(&nodes[i]);
        proof {
            lemma_vviews_push(out@, v);
            assert(nodes@.take(i + 1).drop_last() =~= nodes@.take(i as int));
        }
        out.push(v);
        i = i + 1;
    }
    assert(nodes@.take(nodes@.len() as int) =~= nodes@);
    out
}

fn render_table(rows: &Vec<Node>) -> (r: ViewNode)
    ensures
        vview(r) == elem(
            "table"@,
            seq![elem("thead"@, rendered_heads(rows@)), elem("tbody"@, rendered_bodies(rows@))],
        ),
    decreases rows,
{
    let mut heads: Vec<ViewNode> = Vec::new();
    let mut bodies: Vec<ViewNode> = Vec::new();
    let mut i: usize = 0;
    while i < rows.len()
        invariant
            0 <= i <= rows@.len(),
            vviews(heads@) == rendered_heads(rows@.take(i as int)),
            vviews(bodies@) == rendered_bodies(rows@.take(i as int)),
        decreases rows@.len() - i,
    {
        let is_head = matches!(rows[i], Node::TableHeaderRow(_));
        let v = render(&rows[i]);
        proof {
            assert(rows@.take(i + 1).drop_last() =~= rows@.take(i as int));
            assert(rows@.take(i + 1).last() == rows@[i as int]);
        }
        if is_head {
            proof {
                lemma_vviews_push(heads@, v);
            }
            heads.push(v);
        } else {
            proof {
                lemma_vviews_push(bodies@, v);
            }
            bodies.push(v);
        }
        i = i + 1;
    }
    assert(rows@.take(rows@.len() as int) =~= rows@);
    let head = element("thead", heads);
    let body = element("tbody", bodies);
    let ghost hv = vview(head);
    let ghost bv = vview(body);
    let mut groups: Vec<ViewNode> = Vec::new();
    groups.push(head);
    groups.push(body);
    proof {
        lemma_vviews_push(Seq::empty(), groups@[0]);
        assert(groups@.drop_last() =~= Seq::<ViewNode>::empty().push(groups@[0]));
        assert(vviews(groups@) =~= seq![hv, bv]);
    }
    element("table", groups)
}

/// What a parse result previews as: its nodes rendered in order, or nothing
/// where the text did not parse.
pub open spec fn previewed(parsed: Option<Seq<Node>>) -> Seq<VNode> {
    match parsed {
        Some(nodes) => rendered_seq(nodes),
        None => Seq::empty(),
    }
}

/// Renders the preview of a parse result; a parse failure renders nothing.
pub fn preview(parsed: &Option<Vec<Node>>) -> (r: Vec<ViewNode>)
    ensures
        vviews(r@) == previewed(
            match parsed {
                Some(v) => Some(v@),
                None => None,
            },
        ),
{
    match parsed {
        Some(nodes) => render_all(nodes),
        None => {
            let r: Vec<ViewNode> = Vec::new();
            proof {
                assert(vviews(r@) =~= Seq::empty());
            }
            r
        },
    }
}

/// Rendering is deterministic: two renders of one tree have one model.
pub proof fn lemma_render_deterministic(n: Node, r1: ViewNode, r2: ViewNode)
    requires
        vview(r1) == rendered(n),
        vview(r2) == rendered(n),
    ensures
        vview(r1) == vview(r2),
{
}

/// A sequence renders node for node: same length, same order, no flattening.
pub proof fn lemma_rendered_seq_index(s: Seq<Node>)
    ensures
        rendered_seq(s).len() == s.len(),
        forall|i: int| 0 <= i < s.len() ==> #[trigger] rendered_seq(s)[i] == rendered(s[i]),
    decreases s.len(),
{
    if s.len() > 0 {
        lemma_rendered_seq_index(s.drop_last());
        assert forall|i: int| 0 <= i < s.len() implies #[trigger] rendered_seq(s)[i] == rendered(
            s[i],
        ) by {
            if i < s.len() - 1 {
                assert(s.drop_last()[i] == s[i]);
            }
        }
    }
}

proof fn lemma_rendered_single(n: Node, s: Seq<Node>)
    requires
        s == seq![n],
    ensures
        rendered_seq(s) == seq![rendered(n)],
{
    assert(s.drop_last() =~= Seq::<Node>::empty());
    assert(rendered_seq(s.drop_last()) == Seq::<VNode>::empty());
    assert(s.last() == n);
    assert(Seq::<VNode>::empty().push(rendered(n)) =~= seq![rendered(n)]);
}

/// A bullet list holding a numbered list holding a bullet list renders as
/// three nested list containers, each in its own item, tagged by kind.
pub proof fn lemma_nested_lists(
    outer: Vec<Node>,
    item: Vec<Node>,
    middle: Vec<Node>,
    middle_item: Vec<Node>,
    inner: Vec<Node>,
)
    requires
        outer@ == seq![Node::ListItem(item)],
        item@ == seq![Node::NumberedList(middle)],
        middle@ == seq![Node::ListItem(middle_item)],
        middle_item@ == seq![Node::BulletList(inner)],
    ensures
        rendered(Node::BulletList(outer)) == elem(
            "ul"@,
            seq![
                elem(
                    "li"@,
                    seq![
                        elem(
                            "ol"@,
                            seq![elem("li"@, seq![elem("ul"@, rendered_seq(inner@))])],
                        ),
                    ],
                ),
            ],
        ),
{
    lemma_rendered_single(Node::BulletList(inner), middle_item@);
    lemma_rendered_single(Node::ListItem(middle_item), middle@);
    lemma_rendered_single(Node::NumberedList(middle), item@);
    lemma_rendered_single(Node::ListItem(item), outer@);
}

/// A link whose target starts with an absolute web scheme opens outside the
/// app; any other link navigates in the app to the view of its target.
pub proof fn lemma_link_classification(target: String, label: String)
    ensures
        is_external(target@) ==> rendered(Node::Link(target, label))->navigate is None
            && rendered(Node::Link(target, label))->attrs.contains(("target"@, "__blank"@)),
        !is_external(target@) ==> rendered(Node::Link(target, label))->navigate == Some(
            view_path(target@),
        ),
        rendered(Node::Link(target, label))->tag == "a"@,
{
    if is_external(target@) {
        assert(rendered(Node::Link(target, label))->attrs[1] == ("target"@, "__blank"@));
    }
}

/// A table whose first row is a header row and whose other rows are data
/// rows renders one head group holding the header row and one body group
/// holding the data rows, in their order.
pub proof fn lemma_table_split(rows: Seq<Node>)
    requires
        rows.len() >= 1,
        rows[0] is TableHeaderRow,
        forall|i: int| 1 <= i < rows.len() ==> #[trigger] rows[i] is TableRow,
    ensures
        rendered_heads(rows) == seq![rendered(rows[0])],
        rendered_bodies(rows) == rendered_seq(rows.drop_first()),
    decreases rows.len(),
{
    if rows.len() == 1 {
        assert(rows.drop_last() =~= Seq::<Node>::empty());
        assert(rows.drop_first() =~= Seq::<Node>::empty());
        assert(rendered_heads(rows.drop_last()) == Seq::<VNode>::empty());
        assert(rendered_bodies(rows.drop_last()) == Seq::<VNode>::empty());
        assert(rendered_seq(rows.drop_first()) == Seq::<VNode>::empty());
        assert(Seq::<VNode>::empty().push(rendered(rows[0])) =~= seq![rendered(rows[0])]);
    } else {
        let prefix = rows.drop_last();
        assert(prefix[0] == rows[0]);
        assert forall|i: int| 1 <= i < prefix.len() implies #[trigger] prefix[i] is TableRow by {
            assert(prefix[i] == rows[i]);
        }
        lemma_table_split(prefix);
        assert(rows.last() is TableRow);
        assert(rows.drop_first().drop_last() =~= prefix.drop_first());
        assert(rows.drop_first().last() == rows.last());
    }
}

} // verus!
