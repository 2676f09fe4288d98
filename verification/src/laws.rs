use vstd::prelude::*;

use crate::events::{MdEvent, MdLinkType, SourceRange, TagEndKind, TagKind, spec_rewrite_breaks};
use crate::engine::{
    HostRequest, RenderError, Renderer, appended_node, appended_shape, captures_raw,
    is_element_view, popped_node, popped_then_appended, registered_in, spec_element_for,
    spec_ol_start, step_ok,
};
use crate::view::{
    ClickAction, HtmlElement, LinkDescription, ViewNode, click_range_of, is_default_link_view,
};

verus! {

/// Source-range fidelity: every position-bearing leaf event renders to a
/// node whose click wiring carries exactly the leaf's own range — no
/// off-by-one, no truncation, never invented or merged.
pub proof fn lemma_leaf_range_fidelity(
    pre: Renderer,
    ev: MdEvent,
    r: SourceRange,
    post: Renderer,
    out: Result<Option<HostRequest>, RenderError>,
)
    requires
        step_ok(pre, ev, r, post, out),
        match ev {
            MdEvent::Text(_) => !captures_raw(pre),
            MdEvent::Code(_) | MdEvent::InlineMath(_) | MdEvent::DisplayMath(_)
                | MdEvent::FootnoteReference(_) | MdEvent::Rule | MdEvent::TaskListMarker(_)
                => true,
            _ => false,
        },
    ensures
        appended_shape(pre, post),
        click_range_of(appended_node(pre, post)) == Some(r),
{
}

/// Every completed block or inline element is wired to the exact range from
/// its `Start` event's opening offset to its `End` event's closing offset.
pub proof fn lemma_element_range_fidelity(
    pre: Renderer,
    te: TagEndKind,
    r: SourceRange,
    post: Renderer,
    out: Result<Option<HostRequest>, RenderError>,
)
    requires
        step_ok(pre, MdEvent::End(te), r, post, out),
        out is Ok,
        pre.stack@.len() > 0,
        spec_element_for(pre.stack@.last().kind) is Some,
    ensures
        click_range_of(popped_node(pre, post)) == Some(
            SourceRange { start: pre.stack@.last().start, end: r.end },
        ),
{
}

/// Ordered-list numbering: a completed list that declared a start index
/// renders as an ordered-list element numbered from exactly that index,
/// wrapping exactly its own items — whatever any enclosing list (lower in
/// the stack, untouched by this step) declared.
pub proof fn lemma_ordered_list_numbering(
    pre: Renderer,
    r: SourceRange,
    post: Renderer,
    out: Result<Option<HostRequest>, RenderError>,
    n: u64,
)
    requires
        step_ok(pre, MdEvent::End(TagEndKind::List), r, post, out),
        pre.stack@.len() > 0,
        pre.stack@.last().kind == TagKind::List(Some(n)),
    ensures
        out is Ok,
        popped_then_appended(pre, post),
        is_element_view(
            popped_node(pre, post),
            HtmlElement::Ol(spec_ol_start(n)),
            None,
            SourceRange { start: pre.stack@.last().start, end: r.end },
            pre.stack@.last().children,
        ),
        pre.stack@.len() > 1 ==> post.stack@.drop_last() == pre.stack@.drop_last().drop_last(),
{
}

/// Soft-break rewrite: with hard line breaks enabled, replacing any
/// `SoftBreak` of the stream by `HardBreak` beforehand changes nothing —
/// the rewritten streams are equal, so the traversal consumes the same
/// events and yields the same tree.
pub proof fn lemma_soft_break_rewrite(events: Seq<(MdEvent, SourceRange)>, i: int)
    requires
        0 <= i < events.len(),
        events[i].0 is SoftBreak,
    ensures
        spec_rewrite_breaks(events) == spec_rewrite_breaks(
            events.update(i, (MdEvent::HardBreak, events[i].1)),
        ),
{
    assert(spec_rewrite_breaks(events) =~= spec_rewrite_breaks(
        events.update(i, (MdEvent::HardBreak, events[i].1)),
    ));
}

/// With hard line breaks disabled, a soft break and a hard break render to
/// nodes of different kinds.
pub proof fn lemma_break_views_differ(
    pre: Renderer,
    r: SourceRange,
    post1: Renderer,
    out1: Result<Option<HostRequest>, RenderError>,
    post2: Renderer,
    out2: Result<Option<HostRequest>, RenderError>,
)
    requires
        step_ok(pre, MdEvent::SoftBreak, r, post1, out1),
        step_ok(pre, MdEvent::HardBreak, r, post2, out2),
    ensures
        appended_node(pre, post1) != appended_node(pre, post2),
{
}

/// Link override: with an override configured, closing a link subtree asks
/// the host to invoke the callback exactly once, with a description whose
/// `content` is exactly the independently rendered inner children; nothing
/// is appended until `resume` places the callback's return value, verbatim,
/// where the link's rendering belongs.
pub proof fn lemma_link_override_request(
    pre: Renderer,
    r: SourceRange,
    post: Renderer,
    out: Result<Option<HostRequest>, RenderError>,
    lt: MdLinkType,
    url: String,
    title: String,
)
    requires
        step_ok(pre, MdEvent::End(TagEndKind::Link), r, post, out),
        pre.stack@.len() > 0,
        pre.stack@.last().kind == (TagKind::Link { link_type: lt, url, title }),
        pre.props.has_link_override,
    ensures
        post.pending,
        out matches Ok(Some(HostRequest::RenderLink(d))) && d.url == url && d.title == title
            && d.image == false && d.content == (ViewNode::Fragment {
            children: pre.stack@.last().children,
        }),
        post.top == pre.top,
        post.stack@ == pre.stack@.drop_last(),
{
}

/// With no override configured, the same link subtree renders to a default
/// anchor whose `href` is exactly the link's URL, around the same inner
/// children.
pub proof fn lemma_link_default(
    pre: Renderer,
    r: SourceRange,
    post: Renderer,
    out: Result<Option<HostRequest>, RenderError>,
    lt: MdLinkType,
    url: String,
    title: String,
)
    requires
        step_ok(pre, MdEvent::End(TagEndKind::Link), r, post, out),
        pre.stack@.len() > 0,
        pre.stack@.last().kind == (TagKind::Link { link_type: lt, url, title }),
        !pre.props.has_link_override,
    ensures
        out is Ok,
        post.pending == pre.pending,
        popped_then_appended(pre, post),
        is_default_link_view(
            popped_node(pre, post),
            LinkDescription {
                url,
                content: ViewNode::Fragment { children: pre.stack@.last().children },
                title,
                link_type: lt,
                image: false,
            },
        ),
{
}

/// Task-list marker interactivity: the rendered checkbox mirrors exactly
/// the marker's own state (the renderer never toggles it), and its click
/// wiring suppresses default activation and carries the marker's original
/// range — so activating it can only emit one markdown click event with
/// that range to whatever handler the host configured.
pub proof fn lemma_tasklist_marker_isolation(
    pre: Renderer,
    m: bool,
    r: SourceRange,
    post: Renderer,
    out: Result<Option<HostRequest>, RenderError>,
)
    requires
        step_ok(pre, MdEvent::TaskListMarker(m), r, post, out),
    ensures
        appended_node(pre, post) matches ViewNode::Checkbox { checked, attrs } && checked == m
            && attrs.on_click == Some(ClickAction { range: r, prevent_default: true }),
        post.pending == pre.pending,
{
}

/// Unregistered component: closing a component reference whose name is not
/// in the registry appends an empty node and succeeds — no fatal error —
/// and everything already rendered around it (the enclosing accumulators
/// and the top-level output below the insertion) is untouched.
pub proof fn lemma_unregistered_component(
    pre: Renderer,
    r: SourceRange,
    post: Renderer,
    out: Result<Option<HostRequest>, RenderError>,
    name: String,
    attributes: Vec<(String, String)>,
)
    requires
        step_ok(pre, MdEvent::End(TagEndKind::Component), r, post, out),
        pre.stack@.len() > 0,
        pre.stack@.last().kind == (TagKind::Component { name, attributes }),
        !registered_in(pre.props.components@, name@),
    ensures
        out is Ok,
        post.pending == pre.pending,
        popped_then_appended(pre, post),
        popped_node(pre, post) == ViewNode::Empty,
        pre.stack@.len() > 1 ==> post.stack@.drop_last() == pre.stack@.drop_last().drop_last(),
        pre.stack@.len() == 1 ==> post.top@.drop_last() == pre.top@,
{
}

/// Math stylesheet registration: every math construct, inline or display,
/// raises exactly one stylesheet registration request — once per math node,
/// never deduplicated by the renderer; the host is expected to deduplicate.
pub proof fn lemma_math_mount_per_construct(
    pre: Renderer,
    ev: MdEvent,
    r: SourceRange,
    post: Renderer,
    out: Result<Option<HostRequest>, RenderError>,
)
    requires
        step_ok(pre, ev, r, post, out),
    ensures
        (ev is InlineMath || ev is DisplayMath) <==> (out matches Ok(Some(q)) && q
            is MountMathStylesheet),
{
}

} // verus!
