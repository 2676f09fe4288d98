use vstd::prelude::*;

use crate::events::{MdAlignment, MdLinkType, SourceRange};

verus! {

/// The element vocabulary a host framework must know how to mount.
#[derive(Clone, Copy, PartialEq, Eq, Structural, Debug)]
pub enum HtmlElement {
    Div,
    Span,
    Paragraph,
    BlockQuote,
    Ul,
    Ol(i32),
    Li,
    Heading(u8),
    Table,
    Thead,
    Trow,
    Tcell,
    Italics,
    Bold,
    StrikeThrough,
    Pre,
    Code,
}

/// The click wiring of a rendered node: the source range the node came from,
/// and whether the node's default activation must be suppressed (used for
/// task-list checkboxes, which the host must never toggle itself).
#[derive(Clone, Copy, PartialEq, Eq, Structural, Debug)]
pub struct ClickAction {
    pub range: SourceRange,
    pub prevent_default: bool,
}

/// A markdown click event: the host's raw pointer event together with the
/// source range of the markdown node that was activated.
#[derive(Clone, PartialEq, Debug)]
pub struct MarkdownMouseEvent<E> {
    /// the original mouse event triggered when a rendered node was clicked
    pub mouse_event: E,
    /// the corresponding byte range in the markdown source
    pub position: SourceRange,
}

/// The click event adapter: wraps a host pointer event with the range of the
/// node it was fired on. Pure; it keeps no state between invocations.
pub fn make_markdown_mouse_event<E>(mouse_event: E, position: SourceRange) -> (r:
    MarkdownMouseEvent<E>)
    ensures
        r.position == position,
        r.mouse_event == mouse_event,
{
    MarkdownMouseEvent { mouse_event, position }
}

/// The attribute bundle attached to a rendered element.
#[derive(Clone, PartialEq, Debug)]
pub struct ElementAttributes {
    pub classes: Vec<String>,
    pub style: Option<String>,
    pub inner_html: Option<String>,
    pub on_click: Option<ClickAction>,
}

/// An attribute bundle with nothing set.
pub open spec fn attrs_empty(a: ElementAttributes) -> bool {
    &&& a.classes@.len() == 0
    &&& a.style is None
    &&& a.inner_html is None
    &&& a.on_click is None
}

impl Default for ElementAttributes {
    fn default() -> (r: Self)
        ensures
            attrs_empty(r),
    {
        ElementAttributes { classes: Vec::new(), style: None, inner_html: None, on_click: None }
    }
}

/// An attribute bundle carrying only the standard click wiring for `r`.
pub open spec fn attrs_click_only(a: ElementAttributes, r: SourceRange) -> bool {
    &&& a.classes@.len() == 0
    &&& a.style is None
    &&& a.inner_html is None
    &&& a.on_click == Some(ClickAction { range: r, prevent_default: false })
}

/// The click wiring given to every position-bearing rendered node: the node's
/// source range, with default activation left alone.
pub fn make_md_callback(position: SourceRange) -> (c: ClickAction)
    ensures
        c == (ClickAction { range: position, prevent_default: false }),
{
    ClickAction { range: position, prevent_default: false }
}

fn click_attrs(position: SourceRange) -> (a: ElementAttributes)
    ensures
        attrs_click_only(a, position),
{
    ElementAttributes {
        classes: Vec::new(),
        style: None,
        inner_html: None,
        on_click: Some(make_md_callback(position)),
    }
}

/// One node of the rendered view tree.
#[derive(Debug)]
pub enum ViewNode {
    /// An element of the given kind wrapping already-rendered children.
    Element { tag: HtmlElement, attrs: ElementAttributes, children: Vec<ViewNode> },
    /// A plain text leaf.
    Text(String),
    /// A horizontal rule.
    Hr { attrs: ElementAttributes },
    /// A hard line break.
    Br,
    /// A task-list checkbox.
    Checkbox { checked: bool, attrs: ElementAttributes },
    /// An anchor around rendered content.
    Anchor { href: String, children: Vec<ViewNode> },
    /// An image.
    Image { src: String, alt: String },
    /// An ordered group of sibling nodes with no wrapper of its own.
    Fragment { children: Vec<ViewNode> },
    /// An empty, inert node.
    Empty,
}

/// The source range a rendered node is wired to, if any.
pub open spec fn click_range_of(v: ViewNode) -> Option<SourceRange> {
    match v {
        ViewNode::Element { attrs, .. } => match attrs.on_click {
            Some(c) => Some(c.range),
            None => None,
        },
        ViewNode::Hr { attrs } => match attrs.on_click {
            Some(c) => Some(c.range),
            None => None,
        },
        ViewNode::Checkbox { attrs, .. } => match attrs.on_click {
            Some(c) => Some(c.range),
            None => None,
        },
        _ => None,
    }
}

/// `v` is the rendering of the text leaf `s` at `r`: a span, wired to `r`,
/// holding exactly the text.
pub open spec fn is_text_view(v: ViewNode, s: Seq<char>, r: SourceRange) -> bool {
    v matches ViewNode::Element { tag, attrs, children } && tag == HtmlElement::Span
        && attrs_click_only(attrs, r) && children@.len() == 1 && (children@[0] matches
    ViewNode::Text(t) && t@ == s)
}

/// `v` is the rendering of the inline code leaf `s` at `r`.
pub open spec fn is_code_view(v: ViewNode, s: Seq<char>, r: SourceRange) -> bool {
    v matches ViewNode::Element { tag, attrs, children } && tag == HtmlElement::Code
        && attrs_click_only(attrs, r) && children@.len() == 1 && (children@[0] matches
    ViewNode::Text(t) && t@ == s)
}

/// `v` is a rule leaf wired to `r`.
pub open spec fn is_rule_view(v: ViewNode, r: SourceRange) -> bool {
    v matches ViewNode::Hr { attrs } && attrs_click_only(attrs, r)
}

/// `v` is the rendering of a task-list marker: a checkbox mirroring the
/// marker's state, whose click wiring carries the marker's own range and
/// suppresses default activation, so the host never toggles it.
pub open spec fn is_tasklist_view(v: ViewNode, checked: bool, r: SourceRange) -> bool {
    v matches ViewNode::Checkbox { checked: c, attrs } && c == checked
        && attrs.classes@.len() == 0 && attrs.style is None && attrs.inner_html is None
        && attrs.on_click == Some(ClickAction { range: r, prevent_default: true })
}

/// `v` is a raw HTML passthrough node: a span whose raw-HTML payload is `s`.
pub open spec fn is_html_view(v: ViewNode, s: Seq<char>) -> bool {
    v matches ViewNode::Element { tag, attrs, children } && tag == HtmlElement::Span
        && attrs.classes@.len() == 0 && attrs.style is None && (attrs.inner_html matches
    Some(h) && h@ == s) && attrs.on_click is None && children@.len() == 0
}

/// `v` is a math leaf: a span wired to `r`, carrying the formula as text and
/// the class that the math stylesheet targets.
pub open spec fn is_math_view(v: ViewNode, s: Seq<char>, display: bool, r: SourceRange) -> bool {
    v matches ViewNode::Element { tag, attrs, children } && tag == HtmlElement::Span
        && attrs.classes@.len() == 1 && attrs.classes@[0]@ == (if display {
        "math-display"@
    } else {
        "math"@
    }) && attrs.style is None && attrs.inner_html is None && attrs.on_click == Some(
    ClickAction { range: r, prevent_default: false }) && children@.len() == 1 && (
    children@[0] matches ViewNode::Text(t) && t@ == s)
}

/// Renders a text leaf (also used for footnote references).
pub fn render_text(text: String, range: SourceRange) -> (v: ViewNode)
    ensures
        is_text_view(v, text@, range),
{
    let mut children: Vec<ViewNode> = Vec::new();
    children.push(ViewNode::Text(text));
    ViewNode::Element { tag: HtmlElement::Span, attrs: click_attrs(range), children }
}

/// Renders an inline code leaf.
pub fn render_code(text: String, range: SourceRange) -> (v: ViewNode)
    ensures
        is_code_view(v, text@, range),
{
    let mut children: Vec<ViewNode> = Vec::new();
    children.push(ViewNode::Text(text));
    ViewNode::Element { tag: HtmlElement::Code, attrs: click_attrs(range), children }
}

/// Renders a horizontal rule.
pub fn render_rule(range: SourceRange) -> (v: ViewNode)
    ensures
        is_rule_view(v, range),
{
    ViewNode::Hr { attrs: click_attrs(range) }
}

/// Renders a task-list marker as an interactive checkbox. Activation is
/// intercepted (default suppressed) so that only the configured click
/// callback, never the host, decides what a click means.
pub fn render_tasklist_marker(checked: bool, position: SourceRange) -> (v: ViewNode)
    ensures
        is_tasklist_view(v, checked, position),
{
    ViewNode::Checkbox {
        checked,
        attrs: ElementAttributes {
            classes: Vec::new(),
            style: None,
            inner_html: None,
            on_click: Some(ClickAction { range: position, prevent_default: true }),
        },
    }
}

/// Renders a raw HTML passthrough leaf.
pub fn render_html(html: String) -> (v: ViewNode)
    ensures
        is_html_view(v, html@),
{
    ViewNode::Element {
        tag: HtmlElement::Span,
        attrs: ElementAttributes {
            classes: Vec::new(),
            style: None,
            inner_html: Some(html),
            on_click: None,
        },
        children: Vec::new(),
    }
}

/// Renders a math leaf.
pub fn render_math(content: String, display: bool, range: SourceRange) -> (v: ViewNode)
    ensures
        is_math_view(v, content@, display, range),
{
    let mut classes: Vec<String> = Vec::new();
    if display {
        classes.push("math-display".to_owned());
    } else {
        classes.push("math".to_owned());
    }
    let mut children: Vec<ViewNode> = Vec::new();
    children.push(ViewNode::Text(content));
    ViewNode::Element {
        tag: HtmlElement::Span,
        attrs: ElementAttributes {
            classes,
            style: None,
            inner_html: None,
            on_click: Some(ClickAction { range, prevent_default: false }),
        },
        children,
    }
}

/// The description of a completed link or image subtree, handed either to a
/// configured override or to the default renderer.
#[derive(Debug)]
pub struct LinkDescription {
    /// the resolved destination of the link
    pub url: String,
    /// the already-rendered content under the link
    pub content: ViewNode,
    /// the title of the link; often empty
    pub title: String,
    /// the kind of link the parser saw
    pub link_type: MdLinkType,
    /// whether the construct is an image
    pub image: bool,
}

/// What a registered custom component receives: its raw attribute pairs and
/// its already-rendered children.
#[derive(Debug)]
pub struct MdComponentProps {
    pub attributes: Vec<(String, String)>,
    pub children: ViewNode,
}

/// `v` is the default rendering of the link description `d`: an anchor around
/// the rendered content for links, an image node for images.
pub open spec fn is_default_link_view(v: ViewNode, d: LinkDescription) -> bool {
    if d.image {
        v == (ViewNode::Image { src: d.url, alt: d.title })
    } else {
        v matches ViewNode::Anchor { href, children } && href == d.url
            && children@.len() == 1 && children@[0] == d.content
    }
}

/// The default rendering of a link or image subtree, used when no override
/// callback is configured.
pub fn render_link(link: LinkDescription) -> (v: ViewNode)
    ensures
        is_default_link_view(v, link),
{
    if link.image {
        ViewNode::Image { src: link.url, alt: link.title }
    } else {
        let mut children: Vec<ViewNode> = Vec::new();
        children.push(link.content);
        ViewNode::Anchor { href: link.url, children }
    }
}

/// The inline style carried by a table cell of the given column alignment.
pub open spec fn spec_alignment_style(a: MdAlignment) -> Option<Seq<char>> {
    match a {
        MdAlignment::Unspecified => None,
        MdAlignment::Left => Some("text-align: left"@),
        MdAlignment::Center => Some("text-align: center"@),
        MdAlignment::Right => Some("text-align: right"@),
    }
}

pub fn alignment_style(a: MdAlignment) -> (s: Option<String>)
    ensures
        match s {
            Some(st) => spec_alignment_style(a) == Some(st@),
            None => spec_alignment_style(a) is None,
        },
{
    match a {
        MdAlignment::Unspecified => None,
        MdAlignment::Left => Some("text-align: left".to_owned()),
        MdAlignment::Center => Some("text-align: center".to_owned()),
        MdAlignment::Right => Some("text-align: right".to_owned()),
    }
}

} // verus!
