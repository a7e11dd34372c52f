use creole_live_editor::doc::Node;
use creole_live_editor::element::ViewNode;
use creole_live_editor::render::{has_prefix, is_external_link, preview, render, render_all};

fn s(t: &str) -> String {
    t.to_string()
}

fn text(t: &str) -> ViewNode {
    ViewNode::Text(s(t))
}

fn el(tag: &str, children: Vec<ViewNode>) -> ViewNode {
    ViewNode::Element { tag: s(tag), attrs: vec![], navigate: None, children }
}

fn tag_of(v: &ViewNode) -> &str {
    match v {
        ViewNode::Element { tag, .. } => tag.as_str(),
        ViewNode::Text(_) => "",
    }
}

fn children_of(v: &ViewNode) -> &Vec<ViewNode> {
    match v {
        ViewNode::Element { children, .. } => children,
        ViewNode::Text(_) => panic!("text leaf has no children"),
    }
}

fn sample_tree() -> Node {
    Node::Line(vec![
        Node::Bold(vec![Node::Text(s("b"))]),
        Node::SoftBreak,
        Node::Link(s("https://example.com"), s("ex")),
        Node::Table(vec![
            Node::TableHeaderRow(vec![Node::TableHeaderCell(vec![Node::Text(s("h"))])]),
            Node::TableRow(vec![Node::TableCell(vec![Node::Text(s("d"))])]),
        ]),
    ])
}

#[test]
fn render_is_deterministic() {
    assert_eq!(render(&sample_tree()), render(&sample_tree()));
    let nodes = vec![sample_tree(), Node::Rule, Node::HardBreak];
    assert_eq!(render_all(&nodes), render_all(&nodes));
}

#[test]
fn nested_lists_render_three_levels() {
    let tree = Node::BulletList(vec![
        Node::ListItem(vec![
            Node::Text(s("a")),
            Node::NumberedList(vec![Node::ListItem(vec![Node::BulletList(vec![Node::ListItem(vec![
                Node::Text(s("deep")),
            ])])])]),
        ]),
        Node::ListItem(vec![Node::Text(s("b"))]),
    ]);
    let expected = el(
        "ul",
        vec![
            el(
                "li",
                vec![
                    el("span", vec![text("a")]),
                    el(
                        "ol",
                        vec![el(
                            "li",
                            vec![el("ul", vec![el("li", vec![el("span", vec![text("deep")])])])],
                        )],
                    ),
                ],
            ),
            el("li", vec![el("span", vec![text("b")])]),
        ],
    );
    assert_eq!(render(&tree), expected);
}

#[test]
fn external_link_opens_outside() {
    let v = render(&Node::Link(s("https://example.com"), s("Example")));
    assert_eq!(
        v,
        ViewNode::Element {
            tag: s("a"),
            attrs: vec![(s("href"), s("https://example.com")), (s("target"), s("__blank"))],
            navigate: None,
            children: vec![text("Example")],
        }
    );
    let plain = render(&Node::Link(s("http://wikicreole.org"), s("")));
    assert_eq!(children_of(&plain), &vec![text("http://wikicreole.org")]);
}

#[test]
fn internal_link_navigates_to_view() {
    let v = render(&Node::Link(s("some/page"), s("")));
    assert_eq!(
        v,
        ViewNode::Element {
            tag: s("a"),
            attrs: vec![(s("href"), s("/w/some/page"))],
            navigate: Some(s("/w/some/page")),
            children: vec![text("some/page")],
        }
    );
}

#[test]
fn link_classification_edges() {
    assert!(is_external_link("https://example.com"));
    assert!(is_external_link("http://"));
    assert!(!is_external_link("http:/x"));
    assert!(!is_external_link("javascript:alert('hi')"));
    assert!(!is_external_link(""));
    assert!(!is_external_link("HTTP://example.com"));
    assert!(has_prefix("abc", ""));
    assert!(!has_prefix("ab", "abc"));
}

#[test]
fn table_splits_head_and_body() {
    let row = |cell: &str| Node::TableRow(vec![Node::TableCell(vec![Node::Text(s(cell))])]);
    let table = Node::Table(vec![
        Node::TableHeaderRow(vec![Node::TableHeaderCell(vec![Node::Text(s("h"))])]),
        row("1"),
        row("2"),
    ]);
    let tr = |c: &str| el("tr", vec![el("td", vec![el("span", vec![text(c)])])]);
    let expected = el(
        "table",
        vec![el("thead", vec![tr("h")]), el("tbody", vec![tr("1"), tr("2")])],
    );
    assert_eq!(render(&table), expected);
}

#[test]
fn table_groups_always_present() {
    let table = Node::Table(vec![]);
    assert_eq!(render(&table), el("table", vec![el("thead", vec![]), el("tbody", vec![])]));
    let only_data = Node::Table(vec![Node::TableRow(vec![])]);
    assert_eq!(
        render(&only_data),
        el("table", vec![el("thead", vec![]), el("tbody", vec![el("tr", vec![])])])
    );
}

#[test]
fn headings_clamp_levels() {
    let h = |l: u8| render(&Node::Heading(l, vec![]));
    assert_eq!(tag_of(&h(1)), "h1");
    assert_eq!(tag_of(&h(3)), "h3");
    assert_eq!(tag_of(&h(6)), "h6");
    assert_eq!(tag_of(&h(9)), "h6");
    assert_eq!(tag_of(&h(0)), "h1");
}

#[test]
fn leaves_and_breaks() {
    assert_eq!(render(&Node::SoftBreak), text(" "));
    assert_eq!(render(&Node::HardBreak), el("br", vec![]));
    assert_eq!(render(&Node::Rule), el("hr", vec![]));
    assert_eq!(render(&Node::Literal(s("//no **wiki**//"))), el("pre", vec![text("//no **wiki**//")]));
    assert_eq!(render(&Node::Italic(vec![Node::Text(s("x"))])), el("i", vec![el("span", vec![text("x")])]));
}

#[test]
fn images_with_and_without_caption() {
    let img = ViewNode::Element {
        tag: s("img"),
        attrs: vec![(s("src"), s("/icons/icon-64.png"))],
        navigate: None,
        children: vec![],
    };
    assert_eq!(render(&Node::Image(s("/icons/icon-64.png"), s(""))), img);
    let img2 = ViewNode::Element {
        tag: s("img"),
        attrs: vec![(s("src"), s("/icons/icon-64.png"))],
        navigate: None,
        children: vec![],
    };
    assert_eq!(
        render(&Node::Image(s("/icons/icon-64.png"), s("Logo"))),
        el("figure", vec![img2, el("figcaption", vec![text("Logo")])])
    );
}

#[test]
fn preview_of_parse_failure_is_empty() {
    assert_eq!(preview(&None), vec![]);
    assert_eq!(preview(&Some(vec![])), vec![]);
    assert_eq!(preview(&Some(vec![Node::Rule, Node::SoftBreak])), vec![el("hr", vec![]), text(" ")]);
}
