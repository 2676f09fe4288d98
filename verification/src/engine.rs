use vstd::prelude::*;

use crate::events::{MdAlignment, MdEvent, SourceRange, TagEndKind, TagKind, spec_end_of, end_of};
use crate::view::{
    ClickAction, ElementAttributes, HtmlElement, LinkDescription, MdComponentProps, ViewNode,
    alignment_style, is_code_view, is_default_link_view, is_html_view, is_math_view, is_rule_view,
    is_tasklist_view, is_text_view, render_code, render_html, render_link, render_math,
    render_rule, render_tasklist_marker, render_text, spec_alignment_style, attrs_click_only,
    attrs_empty,
};
use vstd::string::StringExecFns;

verus! {

/// The configuration record read once per render pass.
#[derive(Clone, PartialEq, Debug)]
pub struct MarkdownProps {
    /// whether a link/image override callback is configured on the host
    pub has_link_override: bool,
    /// an optional theme name, passed through to the host untouched
    pub theme: Option<String>,
    /// whether wikilink syntax is enabled in the parser
    pub wikilinks: bool,
    /// whether every soft break is rewritten to a hard break before traversal
    pub hard_line_breaks: bool,
    /// parser feature overrides; `None` means all features on
    pub parse_options: Option<crate::parse::ParseOptions>,
    /// the names for which a custom component callback is registered
    pub components: Vec<String>,
    /// whether a frontmatter destination is configured
    pub has_frontmatter_slot: bool,
}

impl Default for MarkdownProps {
    /// The default configuration: no overrides, no registered components, no
    /// frontmatter destination, standard soft breaks.
    fn default() -> (r: Self)
        ensures
            r.has_link_override == false,
            r.theme is None,
            r.wikilinks == false,
            r.hard_line_breaks == false,
            r.parse_options is None,
            r.components@.len() == 0,
            r.has_frontmatter_slot == false,
    {
        MarkdownProps {
            has_link_override: false,
            theme: None,
            wikilinks: false,
            hard_line_breaks: false,
            parse_options: None,
            components: Vec::new(),
            has_frontmatter_slot: false,
        }
    }
}

/// A structural consistency error: the event stream violated the guarantee
/// that every `End` closes the innermost open `Start` of its category.
#[derive(Clone, Copy, PartialEq, Eq, Structural, Debug)]
pub enum RenderError {
    /// an `End` event arrived while no construct was open
    EndWithoutStart(TagEndKind),
    /// an `End` event did not close the innermost open construct
    MismatchedEnd { expected: TagEndKind, found: TagEndKind },
    /// the stream ended while a construct was still open
    UnclosedStart(TagEndKind),
}

/// An action the host must perform on the renderer's behalf.
#[derive(Debug)]
pub enum HostRequest {
    /// invoke the configured link/image override with this description and
    /// hand its returned view back through `resume`
    RenderLink(LinkDescription),
    /// invoke the registered component callback of this name and hand its
    /// returned view back through `resume`
    RenderComponent { name: String, props: MdComponentProps },
    /// write this text into the configured frontmatter destination
    SetFrontmatter(String),
    /// register the math stylesheet resource
    MountMathStylesheet,
}

/// Requests that pause the machine until the host answers with a view.
pub open spec fn needs_response(q: HostRequest) -> bool {
    q is RenderLink || q is RenderComponent
}

/// An in-progress subtree: the construct kind, its starting offset, its
/// already-rendered children, and buffered raw text for leaf concatenation.
#[derive(Debug)]
pub struct Accum {
    pub kind: TagKind,
    pub start: usize,
    pub children: Vec<ViewNode>,
    pub raw: String,
}

/// The stack-based render engine. It consumes one `(event, range)` pair per
/// `feed` call, reconstructing the nested document structure on an explicit
/// stack; a host drives it and answers the requests that need a view.
#[derive(Debug)]
pub struct Renderer {
    pub props: MarkdownProps,
    pub stack: Vec<Accum>,
    pub top: Vec<ViewNode>,
    pub aligns: Vec<MdAlignment>,
    pub cell_index: usize,
    pub pending: bool,
}

/// `name` is one of the registered component names.
pub open spec fn registered_in(components: Seq<String>, name: Seq<char>) -> bool {
    exists|i: int| 0 <= i < components.len() && components[i]@ == name
}

fn is_registered(components: &Vec<String>, name: &String) -> (b: bool)
    ensures
        b == registered_in(components@, name@),
{
    let mut i: usize = 0;
    while i < components.len()
        invariant
            0 <= i <= components@.len(),
            forall|j: int| 0 <= j < i ==> components@[j]@ != name@,
        decreases components@.len() - i,
    {
        if components[i] == *name {
            return true;
        }
        i = i + 1;
    }
    false
}

// ------------------------------------------------------------------
// The step relation: what one `feed` call does to the machine state.
// ------------------------------------------------------------------

/// The configuration and table bookkeeping are untouched.
pub open spec fn same_aux(pre: Renderer, post: Renderer) -> bool {
    &&& post.props == pre.props
    &&& post.aligns == pre.aligns
    &&& post.cell_index == pre.cell_index
    &&& post.pending == pre.pending
}

/// Exactly one node was appended: to the children of the innermost open
/// accumulator, or to the top-level output if nothing is open. Everything
/// else about the stack and output is untouched.
pub open spec fn appended_shape(pre: Renderer, post: Renderer) -> bool {
    if pre.stack@.len() == 0 {
        &&& post.stack@ == pre.stack@
        &&& post.top@.len() == pre.top@.len() + 1
        &&& post.top@.drop_last() == pre.top@
    } else {
        &&& post.top == pre.top
        &&& post.stack@.len() == pre.stack@.len()
        &&& post.stack@.drop_last() == pre.stack@.drop_last()
        &&& post.stack@.last().kind == pre.stack@.last().kind
        &&& post.stack@.last().start == pre.stack@.last().start
        &&& post.stack@.last().raw == pre.stack@.last().raw
        &&& post.stack@.last().children@.len() == pre.stack@.last().children@.len() + 1
        &&& post.stack@.last().children@.drop_last() == pre.stack@.last().children@
    }
}

/// The node appended by a step satisfying `appended_shape`.
pub open spec fn appended_node(pre: Renderer, post: Renderer) -> ViewNode {
    if pre.stack@.len() == 0 {
        post.top@.last()
    } else {
        post.stack@.last().children@.last()
    }
}

/// The innermost accumulator was popped and exactly one node appended one
/// level up (or to the top-level output).
pub open spec fn popped_then_appended(pre: Renderer, post: Renderer) -> bool {
    &&& pre.stack@.len() > 0
    &&& if pre.stack@.len() == 1 {
        &&& post.stack@ == pre.stack@.drop_last()
        &&& post.top@.len() == pre.top@.len() + 1
        &&& post.top@.drop_last() == pre.top@
    } else {
        &&& post.top == pre.top
        &&& post.stack@.len() == pre.stack@.len() - 1
        &&& post.stack@.drop_last() == pre.stack@.drop_last().drop_last()
        &&& post.stack@.last().kind == pre.stack@[pre.stack@.len() - 2].kind
        &&& post.stack@.last().start == pre.stack@[pre.stack@.len() - 2].start
        &&& post.stack@.last().raw == pre.stack@[pre.stack@.len() - 2].raw
        &&& post.stack@.last().children@.len() == pre.stack@[pre.stack@.len()
            - 2].children@.len() + 1
        &&& post.stack@.last().children@.drop_last() == pre.stack@[pre.stack@.len()
            - 2].children@
    }
}

/// The node appended by a step satisfying `popped_then_appended`.
pub open spec fn popped_node(pre: Renderer, post: Renderer) -> ViewNode {
    if pre.stack@.len() == 1 {
        post.top@.last()
    } else {
        post.stack@.last().children@.last()
    }
}

/// The innermost accumulator was popped and nothing was appended.
pub open spec fn popped_dropped(pre: Renderer, post: Renderer) -> bool {
    &&& pre.stack@.len() > 0
    &&& post.stack@ == pre.stack@.drop_last()
    &&& post.top == pre.top
}

/// Text is captured raw (not rendered to a node) inside code blocks and
/// metadata blocks, for leaf-level concatenation.
pub open spec fn captures_raw(pre: Renderer) -> bool {
    pre.stack@.len() > 0 && (pre.stack@.last().kind is CodeBlock || pre.stack@.last().kind
        is Metadata)
}

/// The text `s` was appended to the innermost accumulator's raw buffer;
/// nothing else changed.
pub open spec fn raw_appended(pre: Renderer, post: Renderer, s: Seq<char>) -> bool {
    &&& post.top == pre.top
    &&& pre.stack@.len() > 0
    &&& post.stack@.len() == pre.stack@.len()
    &&& post.stack@.drop_last() == pre.stack@.drop_last()
    &&& post.stack@.last().kind == pre.stack@.last().kind
    &&& post.stack@.last().start == pre.stack@.last().start
    &&& post.stack@.last().children == pre.stack@.last().children
    &&& post.stack@.last().raw@ == pre.stack@.last().raw@ + s
}

/// A fresh accumulator for `k` was pushed, recording the event's start
/// offset; the rest of the stack and the output are untouched.
pub open spec fn pushed_accum(pre: Renderer, post: Renderer, k: TagKind, r: SourceRange) -> bool {
    &&& post.top == pre.top
    &&& post.stack@.len() == pre.stack@.len() + 1
    &&& post.stack@.drop_last() == pre.stack@
    &&& post.stack@.last().kind == k
    &&& post.stack@.last().start == r.start
    &&& post.stack@.last().children@.len() == 0
    &&& post.stack@.last().raw@.len() == 0
}

/// How a `Start(k)` event updates the table bookkeeping: a table records its
/// column alignments and resets the cell counter; head and body rows reset
/// the cell counter; nothing else touches it.
pub open spec fn start_aux(pre: Renderer, post: Renderer, k: TagKind) -> bool {
    &&& post.props == pre.props
    &&& post.pending == pre.pending
    &&& match k {
        TagKind::Table(a) => post.aligns@ == a@ && post.cell_index == 0,
        TagKind::TableHead | TagKind::TableRow => post.aligns == pre.aligns && post.cell_index
            == 0,
        _ => post.aligns == pre.aligns && post.cell_index == pre.cell_index,
    }
}

/// How an `End` event updates the table bookkeeping, given the kind that was
/// closed: closing a table clears the recorded alignments; closing a cell
/// advances the cell counter (bounded by the column count); nothing else
/// touches it.
pub open spec fn end_aux(pre: Renderer, post: Renderer, k: TagKind) -> bool {
    match k {
        TagKind::Table(_) => post.aligns@.len() == 0 && post.cell_index == 0,
        TagKind::TableCell => post.aligns == pre.aligns && post.cell_index == (
        if pre.cell_index < pre.aligns@.len() {
            pre.cell_index + 1
        } else {
            pre.cell_index as int
        }),
        _ => post.aligns == pre.aligns && post.cell_index == pre.cell_index,
    }
}

/// The saturating conversion of an ordered list's declared start index to
/// the host element's numbering attribute.
pub open spec fn spec_ol_start(n: u64) -> i32 {
    if n <= i32::MAX as u64 {
        n as i32
    } else {
        i32::MAX
    }
}

pub fn ol_start(n: u64) -> (r: i32)
    ensures
        r == spec_ol_start(n),
{
    if n <= i32::MAX as u64 {
        n as i32
    } else {
        i32::MAX
    }
}

/// The host element a completed construct of kind `k` materializes into;
/// `None` for the kinds with a rendering policy of their own (code blocks,
/// links, images, metadata, components).
pub open spec fn spec_element_for(k: TagKind) -> Option<HtmlElement> {
    match k {
        TagKind::Paragraph => Some(HtmlElement::Paragraph),
        TagKind::Heading(l) => Some(HtmlElement::Heading(l)),
        TagKind::BlockQuote => Some(HtmlElement::BlockQuote),
        TagKind::HtmlBlock => Some(HtmlElement::Div),
        TagKind::List(opt) => Some(
            match opt {
                Some(n) => HtmlElement::Ol(spec_ol_start(n)),
                None => HtmlElement::Ul,
            },
        ),
        TagKind::Item => Some(HtmlElement::Li),
        TagKind::FootnoteDefinition(_) => Some(HtmlElement::Div),
        TagKind::DefinitionList => Some(HtmlElement::Div),
        TagKind::DefinitionListTitle => Some(HtmlElement::Div),
        TagKind::DefinitionListDefinition => Some(HtmlElement::Div),
        TagKind::Table(_) => Some(HtmlElement::Table),
        TagKind::TableHead => Some(HtmlElement::Thead),
        TagKind::TableRow => Some(HtmlElement::Trow),
        TagKind::TableCell => Some(HtmlElement::Tcell),
        TagKind::Emphasis => Some(HtmlElement::Italics),
        TagKind::Strong => Some(HtmlElement::Bold),
        TagKind::Strikethrough => Some(HtmlElement::StrikeThrough),
        TagKind::Superscript => Some(HtmlElement::Span),
        TagKind::Subscript => Some(HtmlElement::Span),
        TagKind::CodeBlock => None,
        TagKind::Link { .. } => None,
        TagKind::Image { .. } => None,
        TagKind::Metadata => None,
        TagKind::Component { .. } => None,
    }
}

fn element_for(k: &TagKind) -> (r: Option<HtmlElement>)
    ensures
        r == spec_element_for(*k),
{
    match k {
        TagKind::Paragraph => Some(HtmlElement::Paragraph),
        TagKind::Heading(l) => Some(HtmlElement::Heading(*l)),
        TagKind::BlockQuote => Some(HtmlElement::BlockQuote),
        TagKind::HtmlBlock => Some(HtmlElement::Div),
        TagKind::List(opt) => Some(
            match opt {
                Some(n) => HtmlElement::Ol(ol_start(*n)),
                None => HtmlElement::Ul,
            },
        ),
        TagKind::Item => Some(HtmlElement::Li),
        TagKind::FootnoteDefinition(_) => Some(HtmlElement::Div),
        TagKind::DefinitionList => Some(HtmlElement::Div),
        TagKind::DefinitionListTitle => Some(HtmlElement::Div),
        TagKind::DefinitionListDefinition => Some(HtmlElement::Div),
        TagKind::Table(_) => Some(HtmlElement::Table),
        TagKind::TableHead => Some(HtmlElement::Thead),
        TagKind::TableRow => Some(HtmlElement::Trow),
        TagKind::TableCell => Some(HtmlElement::Tcell),
        TagKind::Emphasis => Some(HtmlElement::Italics),
        TagKind::Strong => Some(HtmlElement::Bold),
        TagKind::Strikethrough => Some(HtmlElement::StrikeThrough),
        TagKind::Superscript => Some(HtmlElement::Span),
        TagKind::Subscript => Some(HtmlElement::Span),
        TagKind::CodeBlock => None,
        TagKind::Link { .. } => None,
        TagKind::Image { .. } => None,
        TagKind::Metadata => None,
        TagKind::Component { .. } => None,
    }
}

/// The inline style the next table cell receives, from the current table's
/// alignment of the current column.
pub open spec fn spec_cell_style(pre: Renderer) -> Option<Seq<char>> {
    if pre.cell_index < pre.aligns@.len() {
        spec_alignment_style(pre.aligns@[pre.cell_index as int])
    } else {
        None
    }
}

/// `v` is the element a completed generic construct materializes into: the
/// mapped host element, wired to the construct's full source range, wrapping
/// exactly the accumulated children, with the given inline style.
pub open spec fn is_element_view(
    v: ViewNode,
    el: HtmlElement,
    style: Option<Seq<char>>,
    range: SourceRange,
    children: Vec<ViewNode>,
) -> bool {
    v matches ViewNode::Element { tag, attrs, children: cs } && tag == el && attrs.classes@.len()
        == 0 && (match style {
        Some(st) => attrs.style matches Some(s2) && s2@ == st,
        None => attrs.style is None,
    }) && attrs.inner_html is None && attrs.on_click == Some(
        ClickAction { range, prevent_default: false },
    ) && cs == children
}

/// What one `feed(ev, r)` call does: the full step relation of the machine.
/// Every field of the next state and the returned value are pinned by the
/// previous state and the event alone.
pub open spec fn step_ok(
    pre: Renderer,
    ev: MdEvent,
    r: SourceRange,
    post: Renderer,
    out: Result<Option<HostRequest>, RenderError>,
) -> bool {
    match ev {
        MdEvent::Start(k) => {
            &&& out == Ok::<Option<HostRequest>, RenderError>(None)
            &&& pushed_accum(pre, post, k, r)
            &&& start_aux(pre, post, k)
        },
        MdEvent::End(te) => step_end_ok(pre, te, r, post, out),
        MdEvent::Text(s) => if captures_raw(pre) {
            &&& out == Ok::<Option<HostRequest>, RenderError>(None)
            &&& same_aux(pre, post)
            &&& raw_appended(pre, post, s@)
        } else {
            &&& out == Ok::<Option<HostRequest>, RenderError>(None)
            &&& same_aux(pre, post)
            &&& appended_shape(pre, post)
            &&& is_text_view(appended_node(pre, post), s@, r)
        },
        MdEvent::Code(s) => {
            &&& out == Ok::<Option<HostRequest>, RenderError>(None)
            &&& same_aux(pre, post)
            &&& appended_shape(pre, post)
            &&& is_code_view(appended_node(pre, post), s@, r)
        },
        MdEvent::InlineMath(s) => {
            &&& out matches Ok(Some(q)) && q is MountMathStylesheet
            &&& same_aux(pre, post)
            &&& appended_shape(pre, post)
            &&& is_math_view(appended_node(pre, post), s@, false, r)
        },
        MdEvent::DisplayMath(s) => {
            &&& out matches Ok(Some(q)) && q is MountMathStylesheet
            &&& same_aux(pre, post)
            &&& appended_shape(pre, post)
            &&& is_math_view(appended_node(pre, post), s@, true, r)
        },
        MdEvent::Html(s) => {
            &&& out == Ok::<Option<HostRequest>, RenderError>(None)
            &&& same_aux(pre, post)
            &&& appended_shape(pre, post)
            &&& is_html_view(appended_node(pre, post), s@)
        },
        MdEvent::InlineHtml(s) => {
            &&& out == Ok::<Option<HostRequest>, RenderError>(None)
            &&& same_aux(pre, post)
            &&& appended_shape(pre, post)
            &&& is_html_view(appended_node(pre, post), s@)
        },
        MdEvent::FootnoteReference(s) => {
            &&& out == Ok::<Option<HostRequest>, RenderError>(None)
            &&& same_aux(pre, post)
            &&& appended_shape(pre, post)
            &&& is_text_view(appended_node(pre, post), s@, r)
        },
        MdEvent::SoftBreak => {
            &&& out == Ok::<Option<HostRequest>, RenderError>(None)
            &&& same_aux(pre, post)
            &&& appended_shape(pre, post)
            &&& (appended_node(pre, post) matches ViewNode::Text(t) && t@ == " "@)
        },
        MdEvent::HardBreak => {
            &&& out == Ok::<Option<HostRequest>, RenderError>(None)
            &&& same_aux(pre, post)
            &&& appended_shape(pre, post)
            &&& appended_node(pre, post) == ViewNode::Br
        },
        MdEvent::Rule => {
            &&& out == Ok::<Option<HostRequest>, RenderError>(None)
            &&& same_aux(pre, post)
            &&& appended_shape(pre, post)
            &&& is_rule_view(appended_node(pre, post), r)
        },
        MdEvent::TaskListMarker(m) => {
            &&& out == Ok::<Option<HostRequest>, RenderError>(None)
            &&& same_aux(pre, post)
            &&& appended_shape(pre, post)
            &&& is_tasklist_view(appended_node(pre, post), m, r)
        },
    }
}

/// The `End` part of the step relation.
pub open spec fn step_end_ok(
    pre: Renderer,
    te: TagEndKind,
    r: SourceRange,
    post: Renderer,
    out: Result<Option<HostRequest>, RenderError>,
) -> bool {
    if pre.stack@.len() == 0 {
        &&& post == pre
        &&& out == Err::<Option<HostRequest>, RenderError>(RenderError::EndWithoutStart(te))
    } else {
        let a = pre.stack@.last();
        if spec_end_of(a.kind) != te {
            &&& post == pre
            &&& out == Err::<Option<HostRequest>, RenderError>(
                RenderError::MismatchedEnd { expected: spec_end_of(a.kind), found: te },
            )
        } else {
            let range = SourceRange { start: a.start, end: r.end };
            &&& post.props == pre.props
            &&& end_aux(pre, post, a.kind)
            &&& match a.kind {
                TagKind::CodeBlock => {
                    &&& out == Ok::<Option<HostRequest>, RenderError>(None)
                    &&& post.pending == pre.pending
                    &&& popped_then_appended(pre, post)
                    &&& is_code_block_view(popped_node(pre, post), a.raw@, range)
                },
                TagKind::Link { link_type, url, title } => if pre.props.has_link_override {
                    &&& post.pending == true
                    &&& popped_dropped(pre, post)
                    &&& out matches Ok(Some(q)) && q matches HostRequest::RenderLink(d)
                        && d.url == url && d.title == title && d.link_type == link_type
                        && d.image == false && d.content == (ViewNode::Fragment {
                        children: a.children,
                    })
                } else {
                    &&& out == Ok::<Option<HostRequest>, RenderError>(None)
                    &&& post.pending == pre.pending
                    &&& popped_then_appended(pre, post)
                    &&& is_default_link_view(
                        popped_node(pre, post),
                        LinkDescription {
                            url,
                            content: ViewNode::Fragment { children: a.children },
                            title,
                            link_type,
                            image: false,
                        },
                    )
                },
                TagKind::Image { link_type, url, title } => if pre.props.has_link_override {
                    &&& post.pending == true
                    &&& popped_dropped(pre, post)
                    &&& out matches Ok(Some(q)) && q matches HostRequest::RenderLink(d)
                        && d.url == url && d.title == title && d.link_type == link_type
                        && d.image == true && d.content == (ViewNode::Fragment {
                        children: a.children,
                    })
                } else {
                    &&& out == Ok::<Option<HostRequest>, RenderError>(None)
                    &&& post.pending == pre.pending
                    &&& popped_then_appended(pre, post)
                    &&& is_default_link_view(
                        popped_node(pre, post),
                        LinkDescription {
                            url,
                            content: ViewNode::Fragment { children: a.children },
                            title,
                            link_type,
                            image: true,
                        },
                    )
                },
                TagKind::Metadata => {
                    &&& post.pending == pre.pending
                    &&& popped_dropped(pre, post)
                    &&& if pre.props.has_frontmatter_slot {
                        out matches Ok(Some(q)) && q matches HostRequest::SetFrontmatter(s) && s
                            == a.raw
                    } else {
                        out == Ok::<Option<HostRequest>, RenderError>(None)
                    }
                },
                TagKind::Component { name, attributes } => if registered_in(
                    pre.props.components@,
                    name@,
                ) {
                    &&& post.pending == true
                    &&& popped_dropped(pre, post)
                    &&& out matches Ok(Some(q)) && q matches HostRequest::RenderComponent {
                        name: nm,
                        props: p,
                    } && nm == name && p.attributes == attributes && p.children == (
                    ViewNode::Fragment { children: a.children })
                } else {
                    &&& out == Ok::<Option<HostRequest>, RenderError>(None)
                    &&& post.pending == pre.pending
                    &&& popped_then_appended(pre, post)
                    &&& popped_node(pre, post) == ViewNode::Empty
                },
                _ => {
                    &&& out == Ok::<Option<HostRequest>, RenderError>(None)
                    &&& post.pending == pre.pending
                    &&& popped_then_appended(pre, post)
                    &&& spec_element_for(a.kind) matches Some(el) && is_element_view(
                        popped_node(pre, post),
                        el,
                        if a.kind is TableCell {
                            spec_cell_style(pre)
                        } else {
                            None
                        },
                        range,
                        a.children,
                    )
                },
            }
        }
    }
}

/// `v` is the rendering of a completed code block: a `pre` element wired to
/// the block's range, holding a `code` element with the concatenated text.
pub open spec fn is_code_block_view(v: ViewNode, code: Seq<char>, r: SourceRange) -> bool {
    v matches ViewNode::Element { tag, attrs, children } && tag == HtmlElement::Pre
        && attrs_click_only(attrs, r) && children@.len() == 1 && (children@[0] matches
    ViewNode::Element { tag: t2, attrs: a2, children: c2 } && t2 == HtmlElement::Code
        && attrs_empty(a2) && c2@.len() == 1 && (c2@[0] matches ViewNode::Text(t)
        && t@ == code))
}

impl Renderer {
    /// A fresh machine with nothing open, nothing rendered, and the given
    /// configuration.
    pub fn new(props: MarkdownProps) -> (r: Renderer)
        ensures
            r.props == props,
            r.stack@.len() == 0,
            r.top@.len() == 0,
            r.aligns@.len() == 0,
            r.cell_index == 0,
            r.pending == false,
    {
        Renderer {
            props,
            stack: Vec::new(),
            top: Vec::new(),
            aligns: Vec::new(),
            cell_index: 0,
            pending: false,
        }
    }

    /// Appends a finished node as a child of the innermost open accumulator,
    /// or to the top-level output if nothing is open.
    fn append_child(&mut self, n: ViewNode)
        ensures
            same_aux(*old(self), *final(self)),
            appended_shape(*old(self), *final(self)),
            appended_node(*old(self), *final(self)) == n,
    {
        if self.stack.len() == 0 {
            self.top.push(n);
            proof {
                assert(self.top@.drop_last() =~= old(self).top@);
            }
        } else {
            let mut a = self.stack.pop().unwrap();
            a.children.push(n);
            self.stack.push(a);
            proof {
                assert(self.stack@.drop_last() =~= old(self).stack@.drop_last());
                assert(self.stack@.last().children@.drop_last() =~= old(
                    self,
                ).stack@.last().children@);
            }
        }
    }

    /// Consumes one position-tagged event. On `Start` a fresh accumulator is
    /// pushed; on a leaf a node is rendered and appended; on `End` the
    /// innermost accumulator is popped and materialized according to its
    /// kind's rendering policy. A structural mismatch is fatal and leaves the
    /// state untouched. A returned request that `needs_response` pauses the
    /// machine until `resume` hands the host's view back.
    pub fn feed(&mut self, ev: MdEvent, r: SourceRange) -> (out: Result<
        Option<HostRequest>,
        RenderError,
    >)
        requires
            old(self).pending == false,
        ensures
            step_ok(*old(self), ev, r, *final(self), out),
            final(self).pending ==> (out matches Ok(Some(q)) && needs_response(q)),
    {
        match ev {
            MdEvent::Start(k) => {
                if let TagKind::Table(al) = &k {
                    self.aligns = copy_aligns(al);
                    self.cell_index = 0;
                } else if matches!(k, TagKind::TableHead | TagKind::TableRow) {
                    self.cell_index = 0;
                }
                self.stack.push(
                    Accum { kind: k, start: r.start, children: Vec::new(), raw: String::new() },
                );
                proof {
                    assert(self.stack@.drop_last() =~= old(self).stack@);
                }
                Ok(None)
            },
            MdEvent::End(te) => self.feed_end(te, r),
            MdEvent::Text(s) => {
                let capture = self.stack.len() > 0 && {
                    let k = &self.stack[self.stack.len() - 1].kind;
                    matches!(k, TagKind::CodeBlock | TagKind::Metadata)
                };
                if capture {
                    let mut a = self.stack.pop().unwrap();
                    a.raw.append(s.as_str());
                    self.stack.push(a);
                    proof {
                        assert(self.stack@.drop_last() =~= old(self).stack@.drop_last());
                    }
                } else {
                    let n = render_text(s, r);
                    self.append_child(n);
                }
                Ok(None)
            },
            MdEvent::Code(s) => {
                let n = render_code(s, r);
                self.append_child(n);
                Ok(None)
            },
            MdEvent::InlineMath(s) => {
                let n = render_math(s, false, r);
                self.append_child(n);
                Ok(Some(HostRequest::MountMathStylesheet))
            },
            MdEvent::DisplayMath(s) => {
                let n = render_math(s, true, r);
                self.append_child(n);
                Ok(Some(HostRequest::MountMathStylesheet))
            },
            MdEvent::Html(s) => {
                let n = render_html(s);
                self.append_child(n);
                Ok(None)
            },
            MdEvent::InlineHtml(s) => {
                let n = render_html(s);
                self.append_child(n);
                Ok(None)
            },
            MdEvent::FootnoteReference(s) => {
                let n = render_text(s, r);
                self.append_child(n);
                Ok(None)
            },
            MdEvent::SoftBreak => {
                self.append_child(ViewNode::Text(" ".to_owned()));
                Ok(None)
            },
            MdEvent::HardBreak => {
                self.append_child(ViewNode::Br);
                Ok(None)
            },
            MdEvent::Rule => {
                let n = render_rule(r);
                self.append_child(n);
                Ok(None)
            },
            MdEvent::TaskListMarker(m) => {
                let n = render_tasklist_marker(m, r);
                self.append_child(n);
                Ok(None)
            },
        }
    }

    /// The `End` policy of `feed`.
    fn feed_end(&mut self, te: TagEndKind, r: SourceRange) -> (out: Result<
        Option<HostRequest>,
        RenderError,
    >)
        requires
            old(self).pending == false,
        ensures
            step_end_ok(*old(self), te, r, *final(self), out),
            final(self).pending ==> (out matches Ok(Some(q)) && needs_response(q)),
    {
        if self.stack.len() == 0 {
            return Err(RenderError::EndWithoutStart(te));
        }
        let expected = end_of(&self.stack[self.stack.len() - 1].kind);
        if expected != te {
            return Err(RenderError::MismatchedEnd { expected, found: te });
        }
        let a = self.stack.pop().unwrap();
        let range = SourceRange { start: a.start, end: r.end };
        match a.kind {
            TagKind::CodeBlock => {
                let n = render_code_block(a.raw, range);
                self.append_child(n);
                Ok(None)
            },
            TagKind::Link { link_type, url, title } => {
                let content = ViewNode::Fragment { children: a.children };
                let d = LinkDescription { url, content, title, link_type, image: false };
                if self.props.has_link_override {
                    self.pending = true;
                    Ok(Some(HostRequest::RenderLink(d)))
                } else {
                    let n = render_link(d);
                    self.append_child(n);
                    Ok(None)
                }
            },
            TagKind::Image { link_type, url, title } => {
                let content = ViewNode::Fragment { children: a.children };
                let d = LinkDescription { url, content, title, link_type, image: true };
                if self.props.has_link_override {
                    self.pending = true;
                    Ok(Some(HostRequest::RenderLink(d)))
                } else {
                    let n = render_link(d);
                    self.append_child(n);
                    Ok(None)
                }
            },
            TagKind::Metadata => {
                if self.props.has_frontmatter_slot {
                    Ok(Some(HostRequest::SetFrontmatter(a.raw)))
                } else {
                    Ok(None)
                }
            },
            TagKind::Component { name, attributes } => {
                if is_registered(&self.props.components, &name) {
                    self.pending = true;
                    Ok(
                        Some(
                            HostRequest::RenderComponent {
                                name,
                                props: MdComponentProps {
                                    attributes,
                                    children: ViewNode::Fragment { children: a.children },
                                },
                            },
                        ),
                    )
                } else {
                    self.append_child(ViewNode::Empty);
                    Ok(None)
                }
            },
            _ => {
                let style: Option<String> = if matches!(a.kind, TagKind::TableCell) {
                    if self.cell_index < self.aligns.len() {
                        alignment_style(self.aligns[self.cell_index])
                    } else {
                        None
                    }
                } else {
                    None
                };
                proof {
                    assert(spec_element_for(a.kind) is Some);
                }
                let el = match element_for(&a.kind) {
                    Some(el) => el,
                    None => {
                        proof {
                            assert(false);
                        }
                        HtmlElement::Div
                    },
                };
                let n = ViewNode::Element {
                    tag: el,
                    attrs: ElementAttributes {
                        classes: Vec::new(),
                        style,
                        inner_html: None,
                        on_click: Some(ClickAction { range, prevent_default: false }),
                    },
                    children: a.children,
                };
                self.append_child(n);
                if matches!(a.kind, TagKind::Table(_)) {
                    self.aligns = Vec::new();
                    self.cell_index = 0;
                } else if matches!(a.kind, TagKind::TableCell) {
                    if self.cell_index < self.aligns.len() {
                        self.cell_index = self.cell_index + 1;
                    }
                }
                Ok(None)
            },
        }
    }

    /// Hands back the view a paused request asked the host for; it is
    /// appended verbatim, exactly where the construct that raised the
    /// request would have put its own rendering.
    pub fn resume(&mut self, v: ViewNode)
        requires
            old(self).pending == true,
        ensures
            final(self).pending == false,
            final(self).props == old(self).props,
            final(self).aligns == old(self).aligns,
            final(self).cell_index == old(self).cell_index,
            appended_shape(*old(self), *final(self)),
            appended_node(*old(self), *final(self)) == v,
    {
        self.pending = false;
        self.append_child(v);
    }

    /// Ends the pass: with nothing left open, the ordered top-level nodes
    /// are wrapped in a single fragment; otherwise the stream was truncated
    /// and the whole pass fails.
    pub fn finish(self) -> (r: Result<ViewNode, RenderError>)
        requires
            self.pending == false,
        ensures
            match r {
                Ok(v) => self.stack@.len() == 0 && v == (ViewNode::Fragment {
                    children: self.top,
                }),
                Err(e) => self.stack@.len() > 0 && e == RenderError::UnclosedStart(
                    spec_end_of(self.stack@.last().kind),
                ),
            },
    {
        if self.stack.len() == 0 {
            Ok(ViewNode::Fragment { children: self.top })
        } else {
            Err(RenderError::UnclosedStart(end_of(&self.stack[self.stack.len() - 1].kind)))
        }
    }
}

/// Renders a completed code block from its concatenated text.
pub fn render_code_block(code: String, range: SourceRange) -> (v: ViewNode)
    ensures
        is_code_block_view(v, code@, range),
{
    let mut inner_children: Vec<ViewNode> = Vec::new();
    inner_children.push(ViewNode::Text(code));
    let inner = ViewNode::Element {
        tag: HtmlElement::Code,
        attrs: ElementAttributes { classes: Vec::new(), style: None, inner_html: None, on_click: None },
        children: inner_children,
    };
    let mut children: Vec<ViewNode> = Vec::new();
    children.push(inner);
    ViewNode::Element {
        tag: HtmlElement::Pre,
        attrs: ElementAttributes {
            classes: Vec::new(),
            style: None,
            inner_html: None,
            on_click: Some(ClickAction { range, prevent_default: false }),
        },
        children,
    }
}

/// Copies a table's column alignments into the renderer's bookkeeping.
fn copy_aligns(a: &Vec<MdAlignment>) -> (r: Vec<MdAlignment>)
    ensures
        r@ == a@,
{
    let mut r: Vec<MdAlignment> = Vec::new();
    let mut i: usize = 0;
    while i < a.len()
        invariant
            0 <= i <= a@.len(),
            r@ =~= a@.take(i as int),
        decreases a@.len() - i,
    {
        r.push(a[i]);
        proof {
            assert(r@ =~= a@.take(i as int + 1));
        }
        i = i + 1;
    }
    proof {
        assert(r@ =~= a@);
    }
    r
}

} // verus!
