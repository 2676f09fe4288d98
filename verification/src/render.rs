use vstd::prelude::*;

use crate::events::{
    MdEvent, SourceRange, TagEndKind, rewrite_breaks, spec_end_of, spec_rewrite_breaks,
};
use crate::parse::{ParseOptions, all_parse_options, parse_events, parsed_events_of};
use crate::engine::{Accum, HostRequest, MarkdownProps, RenderError, Renderer, captures_raw, step_ok};
use crate::view::ViewNode;

verus! {

/// The category stack implied by a prefix of the event stream: `Start`
/// pushes the construct's category, a matching `End` pops it, anything else
/// leaves it alone; `None` once an `End` fails to match.
pub open spec fn kstack_step(ks: Seq<TagEndKind>, ev: MdEvent) -> Option<Seq<TagEndKind>> {
    match ev {
        MdEvent::Start(k) => Some(ks.push(spec_end_of(k))),
        MdEvent::End(te) => if ks.len() > 0 && ks.last() == te {
            Some(ks.drop_last())
        } else {
            None
        },
        _ => Some(ks),
    }
}

pub open spec fn kstack_run(
    ks: Seq<TagEndKind>,
    events: Seq<(MdEvent, SourceRange)>,
) -> Option<Seq<TagEndKind>>
    decreases events.len(),
{
    if events.len() == 0 {
        Some(ks)
    } else {
        match kstack_run(ks, events.drop_last()) {
            Some(m) => kstack_step(m, events.last().0),
            None => None,
        }
    }
}

/// A stream is well-formed when every `Start` has exactly one matching
/// `End` of its structural category, correctly nested, and nothing is left
/// open at the end.
pub open spec fn well_formed(events: Seq<(MdEvent, SourceRange)>) -> bool {
    kstack_run(Seq::empty(), events) == Some(Seq::<TagEndKind>::empty())
}

/// The categories of the renderer's open constructs, innermost last.
pub open spec fn kinds_of(stack: Seq<Accum>) -> Seq<TagEndKind> {
    stack.map_values(|a: Accum| spec_end_of(a.kind))
}

/// How many math constructs a stream holds; the math stylesheet is
/// requested exactly this many times.
pub open spec fn count_math(events: Seq<(MdEvent, SourceRange)>) -> nat
    decreases events.len(),
{
    if events.len() == 0 {
        0
    } else {
        count_math(events.drop_last()) + (if events.last().0 is InlineMath || events.last().0
            is DisplayMath {
            1nat
        } else {
            0nat
        })
    }
}

proof fn lemma_count_math_le(events: Seq<(MdEvent, SourceRange)>)
    ensures
        count_math(events) <= events.len(),
    decreases events.len(),
{
    if events.len() > 0 {
        lemma_count_math_le(events.drop_last());
    }
}

/// The open-construct stack as the frontmatter fold sees it: each open
/// construct's closing category and its raw-text buffer.
pub struct FmState {
    pub stack: Seq<(TagEndKind, Seq<char>)>,
    pub fm: Option<Seq<char>>,
}

pub open spec fn fm_init() -> FmState {
    FmState { stack: Seq::empty(), fm: None }
}

/// How one event moves the frontmatter fold: `Start` opens a construct with
/// an empty buffer, text inside a code or metadata block accumulates into
/// the innermost buffer, and closing a metadata block delivers its buffer —
/// only if a destination is configured. Everything else leaves it alone.
pub open spec fn fm_step(st: FmState, ev: MdEvent, has_slot: bool) -> FmState {
    match ev {
        MdEvent::Start(k) => FmState {
            stack: st.stack.push((spec_end_of(k), Seq::empty())),
            fm: st.fm,
        },
        MdEvent::End(te) => if st.stack.len() > 0 && st.stack.last().0 == te {
            FmState {
                stack: st.stack.drop_last(),
                fm: if te == TagEndKind::Metadata && has_slot {
                    Some(st.stack.last().1)
                } else {
                    st.fm
                },
            }
        } else {
            st
        },
        MdEvent::Text(s) => if st.stack.len() > 0 && (st.stack.last().0 == TagEndKind::CodeBlock
            || st.stack.last().0 == TagEndKind::Metadata) {
            FmState {
                stack: st.stack.update(
                    st.stack.len() - 1,
                    (st.stack.last().0, st.stack.last().1 + s@),
                ),
                fm: st.fm,
            }
        } else {
            st
        },
        _ => st,
    }
}

pub open spec fn fm_run(st: FmState, events: Seq<(MdEvent, SourceRange)>, has_slot: bool) -> FmState
    decreases events.len(),
{
    if events.len() == 0 {
        st
    } else {
        fm_step(fm_run(st, events.drop_last(), has_slot), events.last().0, has_slot)
    }
}

/// The frontmatter a render pass of `events` captures, if a destination is
/// configured: the raw text of the last completed metadata block.
pub open spec fn spec_frontmatter(events: Seq<(MdEvent, SourceRange)>, has_slot: bool) -> Option<
    Seq<char>,
> {
    fm_run(fm_init(), events, has_slot).fm
}

pub open spec fn opt_str_view(o: Option<String>) -> Option<Seq<char>> {
    match o {
        Some(s) => Some(s@),
        None => None,
    }
}

/// The fold's stack mirrors the machine's: same height, and entry by entry
/// the same closing category and the same raw buffer.
pub open spec fn fm_stack_models(st: FmState, rend: Renderer) -> bool {
    &&& st.stack.len() == rend.stack@.len()
    &&& forall|i: int|
        0 <= i < st.stack.len() ==> #[trigger] st.stack[i] == (
        spec_end_of(rend.stack@[i].kind),
        rend.stack@[i].raw@,
        )
}

/// Each accepted step moves the frontmatter fold in lockstep with the
/// machine: the mirrored stack stays mirrored, and the fold's captured
/// frontmatter changes exactly when the machine raises a frontmatter
/// request, to exactly the delivered text.
proof fn lemma_step_fm(
    st: FmState,
    pre: Renderer,
    ev: MdEvent,
    r: SourceRange,
    post: Renderer,
    out: Result<Option<HostRequest>, RenderError>,
)
    requires
        step_ok(pre, ev, r, post, out),
        out is Ok,
        fm_stack_models(st, pre),
    ensures
        fm_stack_models(fm_step(st, ev, pre.props.has_frontmatter_slot), post),
        ({
            let st2 = fm_step(st, ev, pre.props.has_frontmatter_slot);
            match out {
                Ok(Some(HostRequest::SetFrontmatter(s))) => st2.fm == Some(s@),
                _ => st2.fm == st.fm,
            }
        }),
{
    let has_slot = pre.props.has_frontmatter_slot;
    let st2 = fm_step(st, ev, has_slot);
    match ev {
        MdEvent::Start(k) => {
            assert forall|i: int| 0 <= i < st2.stack.len() implies #[trigger] st2.stack[i] == (
                spec_end_of(post.stack@[i].kind),
                post.stack@[i].raw@,
            ) by {
                if i < pre.stack@.len() {
                    assert(post.stack@[i] == post.stack@.drop_last()[i]);
                } else {
                    assert(post.stack@[i] == post.stack@.last());
                    assert(post.stack@.last().raw@ =~= Seq::<char>::empty());
                }
            }
        },
        MdEvent::End(te) => {
            let a = pre.stack@.last();
            assert(st.stack.last().0 == spec_end_of(a.kind));
            assert(st2.stack == st.stack.drop_last());
            assert forall|i: int| 0 <= i < st2.stack.len() implies #[trigger] st2.stack[i] == (
                spec_end_of(post.stack@[i].kind),
                post.stack@[i].raw@,
            ) by {
                if pre.stack@.len() > 1 {
                    if i < post.stack@.len() - 1 {
                        assert(post.stack@[i] == post.stack@.drop_last()[i]);
                        assert(pre.stack@.drop_last().drop_last()[i] == pre.stack@[i]);
                    } else {
                        assert(post.stack@[i] == post.stack@.last());
                        assert(st2.stack[i] == st.stack[i]);
                    }
                }
            }
            if te == TagEndKind::Metadata && has_slot {
                assert(a.kind is Metadata);
                assert(st.stack.last().1 == a.raw@);
            } else {
                if te == TagEndKind::Metadata {
                    assert(a.kind is Metadata);
                }
            }
        },
        MdEvent::Text(s) => {
            if captures_raw(pre) {
                assert(st.stack.last().0 == TagEndKind::CodeBlock || st.stack.last().0
                    == TagEndKind::Metadata);
                assert forall|i: int| 0 <= i < st2.stack.len() implies #[trigger] st2.stack[i]
                    == (spec_end_of(post.stack@[i].kind), post.stack@[i].raw@) by {
                    if i < st2.stack.len() - 1 {
                        assert(post.stack@[i] == post.stack@.drop_last()[i]);
                        assert(pre.stack@[i] == pre.stack@.drop_last()[i]);
                    } else {
                        assert(post.stack@[i] == post.stack@.last());
                    }
                }
            } else {
                if st.stack.len() > 0 {
                    assert(st.stack[st.stack.len() - 1] == (
                        spec_end_of(pre.stack@[pre.stack@.len() - 1].kind),
                        pre.stack@[pre.stack@.len() - 1].raw@,
                    ));
                }
                assert(st2 == st);
                lemma_same_stack_fm(st, pre, post);
            }
        },
        _ => {
            lemma_same_stack_fm(st, pre, post);
        },
    }
}

/// A step that only appends a node keeps the mirrored stack mirrored.
proof fn lemma_same_stack_fm(st: FmState, pre: Renderer, post: Renderer)
    requires
        fm_stack_models(st, pre),
        post.stack@.len() == pre.stack@.len(),
        pre.stack@.len() > 0 ==> post.stack@.drop_last() == pre.stack@.drop_last()
            && post.stack@.last().kind == pre.stack@.last().kind && post.stack@.last().raw
            == pre.stack@.last().raw,
        pre.stack@.len() == 0 ==> post.stack@ == pre.stack@,
    ensures
        fm_stack_models(st, post),
{
    assert forall|i: int| 0 <= i < st.stack.len() implies #[trigger] st.stack[i] == (
        spec_end_of(post.stack@[i].kind),
        post.stack@[i].raw@,
    ) by {
        if pre.stack@.len() > 0 && i < pre.stack@.len() - 1 {
            assert(post.stack@[i] == post.stack@.drop_last()[i]);
            assert(pre.stack@[i] == pre.stack@.drop_last()[i]);
        }
    }
}

/// A machine that has consumed nothing yet, configured with `props`.
pub open spec fn is_init(st: Renderer, props: MarkdownProps) -> bool {
    &&& st.props == props
    &&& st.stack@.len() == 0
    &&& st.top@.len() == 0
    &&& st.aligns@.len() == 0
    &&& st.cell_index == 0
    &&& st.pending == false
}

/// The machine runs from `pre` to `post` consuming `events`, every step
/// succeeding. Each step is pinned by `step_ok`, so the whole run is.
pub open spec fn run_ok(
    pre: Renderer,
    events: Seq<(MdEvent, SourceRange)>,
    post: Renderer,
) -> bool
    decreases events.len(),
{
    if events.len() == 0 {
        post == pre
    } else {
        exists|mid: Renderer, out: Result<Option<HostRequest>, RenderError>|
            {
                &&& run_ok(pre, events.drop_last(), mid)
                &&& #[trigger] step_ok(mid, events.last().0, events.last().1, post, out)
                &&& out is Ok
            }
    }
}

/// Why a render pass failed: some step rejected its event, or the stream
/// ended with constructs still open.
pub open spec fn run_fails_with(
    props: MarkdownProps,
    events: Seq<(MdEvent, SourceRange)>,
    e: RenderError,
) -> bool {
    ||| exists|init: Renderer, i: int, mid: Renderer, post: Renderer|
        {
            &&& is_init(init, props)
            &&& 0 <= i < events.len()
            &&& #[trigger] run_ok(init, events.take(i), mid)
            &&& #[trigger] step_ok(
                mid,
                events[i].0,
                events[i].1,
                post,
                Err::<Option<HostRequest>, RenderError>(e),
            )
        }
    ||| exists|init: Renderer, fin: Renderer|
        {
            &&& is_init(init, props)
            &&& #[trigger] run_ok(init, events, fin)
            &&& fin.stack@.len() > 0
            &&& e == RenderError::UnclosedStart(spec_end_of(fin.stack@.last().kind))
        }
}

/// Each step moves the implied category stack exactly as `kstack_step`
/// says: the machine accepts an event if and only if the category stack
/// does, and its open kinds afterwards are the stepped stack.
proof fn lemma_step_kstack(
    pre: Renderer,
    ev: MdEvent,
    r: SourceRange,
    post: Renderer,
    out: Result<Option<HostRequest>, RenderError>,
)
    requires
        step_ok(pre, ev, r, post, out),
    ensures
        match kstack_step(kinds_of(pre.stack@), ev) {
            Some(ks) => out is Ok && kinds_of(post.stack@) == ks,
            None => out is Err,
        },
{
    let pks = kinds_of(pre.stack@);
    match ev {
        MdEvent::Start(k) => {
            assert(kinds_of(post.stack@) =~= pks.push(spec_end_of(k))) by {
                assert forall|i: int| 0 <= i < post.stack@.len() implies kinds_of(
                    post.stack@,
                )[i] == pks.push(spec_end_of(k))[i] by {
                    if i < pre.stack@.len() {
                        assert(post.stack@[i] == post.stack@.drop_last()[i]);
                    } else {
                        assert(post.stack@[i] == post.stack@.last());
                    }
                }
            }
        },
        MdEvent::End(te) => {
            if pre.stack@.len() == 0 {
            } else {
                let a = pre.stack@.last();
                assert(pks.last() == spec_end_of(a.kind));
                if spec_end_of(a.kind) != te {
                } else {
                    assert(kinds_of(post.stack@) =~= pks.drop_last()) by {
                        assert forall|i: int| 0 <= i < post.stack@.len() implies kinds_of(
                            post.stack@,
                        )[i] == pks.drop_last()[i] by {
                            if pre.stack@.len() == 1 {
                            } else {
                                if i < post.stack@.len() - 1 {
                                    assert(post.stack@[i] == post.stack@.drop_last()[i]);
                                    assert(pre.stack@.drop_last().drop_last()[i]
                                        == pre.stack@[i]);
                                } else {
                                    assert(post.stack@[i] == post.stack@.last());
                                }
                            }
                        }
                    }
                }
            }
        },
        MdEvent::Text(_) => {
            lemma_same_kinds(pre, post);
        },
        _ => {
            lemma_same_kinds(pre, post);
        },
    }
}

/// A step that only appends a node (or raw text) keeps the open kinds.
proof fn lemma_same_kinds(pre: Renderer, post: Renderer)
    requires
        post.stack@.len() == pre.stack@.len(),
        pre.stack@.len() > 0 ==> post.stack@.drop_last() == pre.stack@.drop_last()
            && post.stack@.last().kind == pre.stack@.last().kind,
        pre.stack@.len() == 0 ==> post.stack@ == pre.stack@,
    ensures
        kinds_of(post.stack@) == kinds_of(pre.stack@),
{
    assert(kinds_of(post.stack@) =~= kinds_of(pre.stack@)) by {
        assert forall|i: int| 0 <= i < post.stack@.len() implies kinds_of(post.stack@)[i]
            == kinds_of(pre.stack@)[i] by {
            if pre.stack@.len() > 0 && i < pre.stack@.len() - 1 {
                assert(post.stack@[i] == post.stack@.drop_last()[i]);
                assert(pre.stack@[i] == pre.stack@.drop_last()[i]);
            }
        }
    }
}

/// Once the category stack has rejected a prefix, every longer prefix is
/// rejected too.
proof fn lemma_kstack_none_mono(events: Seq<(MdEvent, SourceRange)>, i: int, j: int)
    requires
        0 <= i <= j <= events.len(),
        kstack_run(Seq::empty(), events.take(i)) is None,
    ensures
        kstack_run(Seq::empty(), events.take(j)) is None,
    decreases j - i,
{
    if i < j {
        assert(events.take(i + 1).drop_last() =~= events.take(i));
        assert(events.take(i + 1).last() == events[i]);
        lemma_kstack_none_mono(events, i + 1, j);
    }
}

/// The result of one complete default render pass.
#[derive(Debug)]
pub struct RenderedMarkdown {
    /// the single top-level fragment wrapping the rendered nodes
    pub view: ViewNode,
    /// the captured frontmatter payload, if a destination was configured
    /// and the stream carried one
    pub frontmatter: Option<String>,
    /// how many times the math stylesheet registration was requested:
    /// once per math construct, not deduplicated by the renderer
    pub math_mounts: usize,
}

/// Renders a full position-tagged event stream with default rendering for
/// every construct. Host callbacks cannot be invoked from here, so the
/// configuration must register no components and no link override; a host
/// with callbacks drives `Renderer` itself and answers its requests.
///
/// The pass succeeds exactly on well-formed streams, produces one top-level
/// fragment, requests the math stylesheet once per math construct, and
/// captures frontmatter only if a destination is configured.
pub fn render_events(events: Vec<(MdEvent, SourceRange)>, props: MarkdownProps) -> (r: Result<
    RenderedMarkdown,
    RenderError,
>)
    requires
        props.has_link_override == false,
        props.components@.len() == 0,
    ensures
        r is Ok <==> well_formed(events@),
        r matches Ok(doc) ==> {
            &&& doc.math_mounts == count_math(events@)
            &&& opt_str_view(doc.frontmatter) == spec_frontmatter(
                events@,
                props.has_frontmatter_slot,
            )
            &&& props.has_frontmatter_slot == false ==> doc.frontmatter is None
            &&& exists|init: Renderer, fin: Renderer|
                {
                    &&& is_init(init, props)
                    &&& #[trigger] run_ok(init, events@, fin)
                    &&& fin.stack@.len() == 0
                    &&& doc.view == (ViewNode::Fragment { children: fin.top })
                }
        },
        r matches Err(e) ==> run_fails_with(props, events@, e),
{
    let ghost orig = events@;
    let ghost propsg = props;
    let mut evs = events;
    let n0 = evs.len();
    let mut rend = Renderer::new(props);
    let ghost init = rend;
    let mut frontmatter: Option<String> = None;
    let mut mounts: usize = 0;
    let ghost mut kk: int = 0;
    proof {
        assert(orig.take(0) =~= Seq::<(MdEvent, SourceRange)>::empty());
        assert(kinds_of(rend.stack@) =~= Seq::<TagEndKind>::empty());
    }
    while evs.len() > 0
        invariant
            orig == events@,
            propsg == props,
            0 <= kk <= orig.len(),
            orig.len() == n0,
            evs@ == orig.skip(kk),
            is_init(init, propsg),
            propsg.has_link_override == false,
            propsg.components@.len() == 0,
            rend.props == propsg,
            rend.pending == false,
            run_ok(init, orig.take(kk), rend),
            kstack_run(Seq::empty(), orig.take(kk)) == Some(kinds_of(rend.stack@)),
            mounts as nat == count_math(orig.take(kk)),
            fm_stack_models(
                fm_run(fm_init(), orig.take(kk), propsg.has_frontmatter_slot),
                rend,
            ),
            opt_str_view(frontmatter) == spec_frontmatter(
                orig.take(kk),
                propsg.has_frontmatter_slot,
            ),
            propsg.has_frontmatter_slot == false ==> frontmatter is None,
        decreases evs@.len(),
    {
        let ghost kcur = kk;
        let p = evs.remove(0);
        let ghost evg = p.0;
        let ghost rg = p.1;
        let ghost pre_r = rend;
        proof {
            assert(p == orig.skip(kcur)[0]);
            assert(orig.skip(kcur)[0] == orig[kcur]);
            assert(evs@ =~= orig.skip(kcur + 1)) by {
                assert(evs@ =~= orig.skip(kcur).subrange(1, orig.skip(kcur).len() as int));
            }
        }
        let res = rend.feed(p.0, p.1);
        proof {
            lemma_step_kstack(pre_r, evg, rg, rend, res);
            if res is Ok {
                lemma_step_fm(
                    fm_run(fm_init(), orig.take(kcur), propsg.has_frontmatter_slot),
                    pre_r,
                    evg,
                    rg,
                    rend,
                    res,
                );
            }
            assert(orig.take(kcur + 1).drop_last() =~= orig.take(kcur));
            assert(orig.take(kcur + 1).last() == orig[kcur]);
            lemma_count_math_le(orig.take(kcur));
        }
        match res {
            Err(e) => {
                proof {
                    assert(step_ok(pre_r, orig[kcur].0, orig[kcur].1, rend, Err::<
                        Option<HostRequest>,
                        RenderError,
                    >(e)));
                    assert(run_fails_with(propsg, orig, e));
                    assert(kstack_run(Seq::empty(), orig.take(kcur + 1)) is None);
                    lemma_kstack_none_mono(orig, kcur + 1, orig.len() as int);
                    assert(orig.take(orig.len() as int) =~= orig);
                    assert(!well_formed(orig));
                }
                return Err(e);
            },
            Ok(opt) => {
                proof {
                    assert(run_ok(init, orig.take(kcur + 1), rend));
                    kk = kcur + 1;
                }
                match opt {
                    Some(HostRequest::MountMathStylesheet) => {
                        mounts = mounts + 1;
                    },
                    Some(HostRequest::SetFrontmatter(s)) => {
                        frontmatter = Some(s);
                        proof {
                            assert(propsg.has_frontmatter_slot);
                        }
                    },
                    Some(_) => {
                        proof {
                            assert(false);
                        }
                    },
                    None => {
                    },
                }
            },
        }
    }
    proof {
        assert(orig.skip(kk).len() == 0);
        assert(kk == orig.len());
        assert(orig.take(kk) =~= orig);
    }
    let ghost fing = rend;
    match rend.finish() {
        Ok(v) => {
            proof {
                assert(kinds_of(fing.stack@) =~= Seq::<TagEndKind>::empty());
                assert(well_formed(orig));
            }
            Ok(RenderedMarkdown { view: v, frontmatter, math_mounts: mounts })
        },
        Err(e) => {
            proof {
                assert(kinds_of(fing.stack@).len() > 0);
                assert(!well_formed(orig));
                assert(run_fails_with(propsg, orig, e));
            }
            Err(e)
        },
    }
}

/// The event stream a render pass of `source` under `props` traverses: the
/// parse of the source with the configured (or default) parser options and
/// wikilink toggle, with every soft break rewritten to a hard break when
/// hard line breaks are enabled.
pub open spec fn spec_source_events(source: Seq<char>, props: MarkdownProps) -> Seq<
    (MdEvent, SourceRange),
> {
    let opts = match props.parse_options {
        Some(o) => o,
        None => all_parse_options(),
    };
    let parsed = parsed_events_of(source, opts, props.wikilinks);
    if props.hard_line_breaks {
        spec_rewrite_breaks(parsed)
    } else {
        parsed
    }
}

/// One complete default render pass over a markdown source text: parse,
/// rewrite soft breaks if configured, and traverse. Host callbacks cannot
/// be invoked from here, so the configuration must register no components
/// and no link override; a host with callbacks parses, then drives
/// `Renderer` itself.
pub fn render_markdown(source: &str, props: MarkdownProps) -> (r: Result<
    RenderedMarkdown,
    RenderError,
>)
    requires
        props.has_link_override == false,
        props.components@.len() == 0,
    ensures
        r is Ok <==> well_formed(spec_source_events(source@, props)),
        r matches Ok(doc) ==> {
            &&& doc.math_mounts == count_math(spec_source_events(source@, props))
            &&& opt_str_view(doc.frontmatter) == spec_frontmatter(
                spec_source_events(source@, props),
                props.has_frontmatter_slot,
            )
            &&& props.has_frontmatter_slot == false ==> doc.frontmatter is None
            &&& exists|init: Renderer, fin: Renderer|
                {
                    &&& is_init(init, props)
                    &&& #[trigger] run_ok(init, spec_source_events(source@, props), fin)
                    &&& fin.stack@.len() == 0
                    &&& doc.view == (ViewNode::Fragment { children: fin.top })
                }
        },
        r matches Err(e) ==> run_fails_with(props, spec_source_events(source@, props), e),
{
    let opts: ParseOptions = match &props.parse_options {
        Some(o) => *o,
        None => ParseOptions::default(),
    };
    let mut events = parse_events(source, &opts, props.wikilinks);
    if props.hard_line_breaks {
        rewrite_breaks(&mut events);
    }
    render_events(events, props)
}

} // verus!
