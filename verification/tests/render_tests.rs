use markdown_view::engine::{HostRequest, MarkdownProps, RenderError, Renderer};
use markdown_view::events::{
    MdAlignment, MdEvent, MdLinkType, SourceRange, TagEndKind, TagKind, rewrite_breaks,
};
use markdown_view::render::{RenderedMarkdown, render_events, render_markdown};
use markdown_view::view::{
    ClickAction, ElementAttributes, HtmlElement, ViewNode, make_markdown_mouse_event,
    make_md_callback, render_tasklist_marker,
};

fn sr(start: usize, end: usize) -> SourceRange {
    SourceRange { start, end }
}

fn txt(s: &str) -> MdEvent {
    MdEvent::Text(s.to_string())
}

fn render_ok(events: Vec<(MdEvent, SourceRange)>) -> RenderedMarkdown {
    render_events(events, MarkdownProps::default()).expect("stream should render")
}

fn fragment_children(v: &ViewNode) -> &Vec<ViewNode> {
    match v {
        ViewNode::Fragment { children } => children,
        other => panic!("expected a fragment, got {:?}", other),
    }
}

#[test]
fn empty_stream_renders_empty_fragment() {
    let doc = render_ok(vec![]);
    assert_eq!(fragment_children(&doc.view).len(), 0);
    assert_eq!(doc.math_mounts, 0);
    assert!(doc.frontmatter.is_none());
}

#[test]
fn well_formed_stream_gives_one_fragment() {
    let events = vec![
        (MdEvent::Start(TagKind::Paragraph), sr(0, 11)),
        (txt("hello"), sr(0, 5)),
        (txt("world"), sr(6, 11)),
        (MdEvent::End(TagEndKind::Paragraph), sr(0, 11)),
    ];
    let doc = render_ok(events);
    let top = fragment_children(&doc.view);
    assert_eq!(top.len(), 1);
    match &top[0] {
        ViewNode::Element { tag, attrs, children } => {
            assert_eq!(*tag, HtmlElement::Paragraph);
            assert_eq!(attrs.on_click, Some(ClickAction { range: sr(0, 11), prevent_default: false }));
            assert_eq!(children.len(), 2);
        }
        other => panic!("expected a paragraph element, got {:?}", other),
    }
}

#[test]
fn end_without_start_is_fatal() {
    let events = vec![(MdEvent::End(TagEndKind::Paragraph), sr(0, 1))];
    let r = render_events(events, MarkdownProps::default());
    assert_eq!(r.unwrap_err(), RenderError::EndWithoutStart(TagEndKind::Paragraph));
}

#[test]
fn mismatched_end_is_fatal() {
    let events = vec![
        (MdEvent::Start(TagKind::Emphasis), sr(0, 5)),
        (MdEvent::End(TagEndKind::Strong), sr(0, 5)),
    ];
    let r = render_events(events, MarkdownProps::default());
    assert_eq!(
        r.unwrap_err(),
        RenderError::MismatchedEnd { expected: TagEndKind::Emphasis, found: TagEndKind::Strong }
    );
}

#[test]
fn unclosed_start_is_fatal() {
    let events = vec![(MdEvent::Start(TagKind::BlockQuote), sr(0, 9))];
    let r = render_events(events, MarkdownProps::default());
    assert_eq!(r.unwrap_err(), RenderError::UnclosedStart(TagEndKind::BlockQuote));
}

#[test]
fn leaf_ranges_are_copied_verbatim() {
    let events = vec![
        (txt("ab"), sr(3, 5)),
        (MdEvent::Code("c".to_string()), sr(7, 10)),
        (MdEvent::Rule, sr(11, 15)),
        (MdEvent::TaskListMarker(false), sr(16, 19)),
    ];
    let doc = render_ok(events);
    let top = fragment_children(&doc.view);
    let expected = [sr(3, 5), sr(7, 10), sr(11, 15), sr(16, 19)];
    assert_eq!(top.len(), 4);
    for (node, want) in top.iter().zip(expected.iter()) {
        let got = match node {
            ViewNode::Element { attrs, .. } => attrs.on_click,
            ViewNode::Hr { attrs } => attrs.on_click,
            ViewNode::Checkbox { attrs, .. } => attrs.on_click,
            other => panic!("unexpected node {:?}", other),
        };
        assert_eq!(got.expect("leaf must be wired").range, *want);
    }
}

#[test]
fn ordered_list_numbering_starts_at_declared_index() {
    // an inner list starting at 5 with three items, inside an outer list
    // starting at 9: the inner numbering is independent of the outer one
    let mut events = vec![
        (MdEvent::Start(TagKind::List(Some(9))), sr(0, 40)),
        (MdEvent::Start(TagKind::Item), sr(0, 40)),
        (MdEvent::Start(TagKind::List(Some(5))), sr(5, 38)),
    ];
    for i in 0..3usize {
        events.push((MdEvent::Start(TagKind::Item), sr(5 + i, 6 + i)));
        events.push((txt("x"), sr(5 + i, 6 + i)));
        events.push((MdEvent::End(TagEndKind::Item), sr(5 + i, 6 + i)));
    }
    events.push((MdEvent::End(TagEndKind::List), sr(5, 38)));
    events.push((MdEvent::End(TagEndKind::Item), sr(0, 40)));
    events.push((MdEvent::End(TagEndKind::List), sr(0, 40)));
    let doc = render_ok(events);
    let top = fragment_children(&doc.view);
    assert_eq!(top.len(), 1);
    let (outer_tag, outer_children) = match &top[0] {
        ViewNode::Element { tag, children, .. } => (tag, children),
        other => panic!("expected outer list, got {:?}", other),
    };
    assert_eq!(*outer_tag, HtmlElement::Ol(9));
    let item_children = match &outer_children[0] {
        ViewNode::Element { tag, children, .. } => {
            assert_eq!(*tag, HtmlElement::Li);
            children
        }
        other => panic!("expected list item, got {:?}", other),
    };
    match &item_children[0] {
        ViewNode::Element { tag, children, .. } => {
            assert_eq!(*tag, HtmlElement::Ol(5));
            assert_eq!(children.len(), 3);
            for c in children {
                match c {
                    ViewNode::Element { tag, .. } => assert_eq!(*tag, HtmlElement::Li),
                    other => panic!("expected item, got {:?}", other),
                }
            }
        }
        other => panic!("expected inner list, got {:?}", other),
    }
}

#[test]
fn soft_break_rewrite_gives_identical_tree() {
    let soft = vec![
        (MdEvent::Start(TagKind::Paragraph), sr(0, 5)),
        (txt("a"), sr(0, 1)),
        (MdEvent::SoftBreak, sr(1, 2)),
        (txt("b"), sr(2, 3)),
        (MdEvent::End(TagEndKind::Paragraph), sr(0, 5)),
    ];
    let mut hard = vec![
        (MdEvent::Start(TagKind::Paragraph), sr(0, 5)),
        (txt("a"), sr(0, 1)),
        (MdEvent::HardBreak, sr(1, 2)),
        (txt("b"), sr(2, 3)),
        (MdEvent::End(TagEndKind::Paragraph), sr(0, 5)),
    ];
    // the pre-pass rewrite turns the soft stream into the hard one
    let mut rewritten = soft.clone();
    rewrite_breaks(&mut rewritten);
    assert_eq!(rewritten, hard);
    rewrite_breaks(&mut hard);
    assert_eq!(rewritten, hard, "the rewrite leaves hard breaks alone");
    let doc_soft_rewritten = render_ok(rewritten);
    let doc_hard = render_ok(hard);
    assert_eq!(
        format!("{:?}", doc_soft_rewritten.view),
        format!("{:?}", doc_hard.view),
        "with hard line breaks enabled the two streams render identically"
    );
    // with the rewrite disabled, the two streams produce different node kinds
    let doc_soft = render_ok(soft);
    let soft_top = &fragment_children(&doc_soft.view)[0];
    let hard_top = &fragment_children(&doc_hard.view)[0];
    let soft_mid = &match soft_top {
        ViewNode::Element { children, .. } => children,
        other => panic!("unexpected {:?}", other),
    }[1];
    let hard_mid = &match hard_top {
        ViewNode::Element { children, .. } => children,
        other => panic!("unexpected {:?}", other),
    }[1];
    assert!(matches!(soft_mid, ViewNode::Text(_)));
    assert!(matches!(hard_mid, ViewNode::Br));
}

#[test]
fn link_override_is_invoked_once_with_inner_content() {
    let props = MarkdownProps {
        has_link_override: true,
        ..MarkdownProps::default()
    };
    let mut rend = Renderer::new(props);
    assert!(matches!(
        rend.feed(
            MdEvent::Start(TagKind::Link {
                link_type: MdLinkType::Inline,
                url: "https://example.org".to_string(),
                title: "t".to_string(),
            }),
            sr(0, 25),
        ),
        Ok(None)
    ));
    assert!(matches!(rend.feed(txt("inner"), sr(1, 6)), Ok(None)));
    let mut invocations = 0usize;
    let req = rend.feed(MdEvent::End(TagEndKind::Link), sr(0, 25)).unwrap();
    match req {
        Some(HostRequest::RenderLink(d)) => {
            invocations += 1;
            assert_eq!(d.url, "https://example.org");
            assert_eq!(d.title, "t");
            assert!(!d.image);
            // the content is exactly the independently rendered inner children
            let inner = match &d.content {
                ViewNode::Fragment { children } => children,
                other => panic!("expected content fragment, got {:?}", other),
            };
            assert_eq!(inner.len(), 1);
            match &inner[0] {
                ViewNode::Element { tag, children, .. } => {
                    assert_eq!(*tag, HtmlElement::Span);
                    assert!(matches!(&children[0], ViewNode::Text(t) if t == "inner"));
                }
                other => panic!("expected inner span, got {:?}", other),
            }
            // the callback's return value is used verbatim
            rend.resume(ViewNode::Text("override result".to_string()));
        }
        other => panic!("expected a link override request, got {:?}", other),
    }
    assert_eq!(invocations, 1);
    let view = rend.finish().unwrap();
    let top = fragment_children(&view);
    assert_eq!(top.len(), 1);
    assert!(matches!(&top[0], ViewNode::Text(t) if t == "override result"));
}

#[test]
fn link_without_override_renders_default_anchor() {
    let events = vec![
        (
            MdEvent::Start(TagKind::Link {
                link_type: MdLinkType::Inline,
                url: "https://example.org".to_string(),
                title: String::new(),
            }),
            sr(0, 25),
        ),
        (txt("inner"), sr(1, 6)),
        (MdEvent::End(TagEndKind::Link), sr(0, 25)),
    ];
    let doc = render_ok(events);
    let top = fragment_children(&doc.view);
    match &top[0] {
        ViewNode::Anchor { href, children } => {
            assert_eq!(href, "https://example.org");
            assert_eq!(children.len(), 1);
            assert!(matches!(&children[0], ViewNode::Fragment { .. }));
        }
        other => panic!("expected an anchor, got {:?}", other),
    }
}

#[test]
fn image_renders_src_and_alt() {
    let events = vec![
        (
            MdEvent::Start(TagKind::Image {
                link_type: MdLinkType::Inline,
                url: "pic.png".to_string(),
                title: "alt text".to_string(),
            }),
            sr(0, 20),
        ),
        (MdEvent::End(TagEndKind::Image), sr(0, 20)),
    ];
    let doc = render_ok(events);
    match &fragment_children(&doc.view)[0] {
        ViewNode::Image { src, alt } => {
            assert_eq!(src, "pic.png");
            assert_eq!(alt, "alt text");
        }
        other => panic!("expected an image, got {:?}", other),
    }
}

#[test]
fn tasklist_marker_click_is_intercepted() {
    let v = render_tasklist_marker(true, sr(4, 7));
    match v {
        ViewNode::Checkbox { checked, attrs } => {
            assert!(checked, "the checkbox mirrors the marker state");
            let c = attrs.on_click.expect("checkbox must be wired");
            assert!(c.prevent_default, "default activation is suppressed");
            assert_eq!(c.range, sr(4, 7));
        }
        other => panic!("expected a checkbox, got {:?}", other),
    }
    // the adapter emits exactly the marker's range with the host event
    let e = make_markdown_mouse_event(42i32, sr(4, 7));
    assert_eq!(e.position, sr(4, 7));
    assert_eq!(e.mouse_event, 42);
}

#[test]
fn unregistered_component_renders_empty_and_siblings_survive() {
    let events = vec![
        (txt("before"), sr(0, 6)),
        (
            MdEvent::Start(TagKind::Component {
                name: "Missing".to_string(),
                attributes: vec![("k".to_string(), "v".to_string())],
            }),
            sr(7, 20),
        ),
        (txt("inside"), sr(8, 14)),
        (MdEvent::End(TagEndKind::Component), sr(7, 20)),
        (txt("after"), sr(21, 26)),
    ];
    let doc = render_ok(events);
    let top = fragment_children(&doc.view);
    assert_eq!(top.len(), 3);
    assert!(matches!(&top[0], ViewNode::Element { .. }));
    assert!(matches!(&top[1], ViewNode::Empty));
    assert!(matches!(&top[2], ViewNode::Element { .. }));
}

#[test]
fn registered_component_receives_attributes_and_children() {
    let props = MarkdownProps {
        components: vec!["Counter".to_string()],
        ..MarkdownProps::default()
    };
    let mut rend = Renderer::new(props);
    rend.feed(
        MdEvent::Start(TagKind::Component {
            name: "Counter".to_string(),
            attributes: vec![("start".to_string(), "3".to_string())],
        }),
        sr(0, 12),
    )
    .unwrap();
    rend.feed(txt("body"), sr(1, 5)).unwrap();
    let req = rend.feed(MdEvent::End(TagEndKind::Component), sr(0, 12)).unwrap();
    match req {
        Some(HostRequest::RenderComponent { name, props }) => {
            assert_eq!(name, "Counter");
            assert_eq!(props.attributes, vec![("start".to_string(), "3".to_string())]);
            assert!(matches!(&props.children, ViewNode::Fragment { children } if children.len() == 1));
            rend.resume(ViewNode::Text("component output".to_string()));
        }
        other => panic!("expected a component request, got {:?}", other),
    }
    let view = rend.finish().unwrap();
    assert!(matches!(
        &fragment_children(&view)[0],
        ViewNode::Text(t) if t == "component output"
    ));
}

#[test]
fn math_stylesheet_requested_once_per_construct() {
    let events = vec![
        (MdEvent::InlineMath("x^2".to_string()), sr(0, 5)),
        (txt("and"), sr(6, 9)),
        (MdEvent::DisplayMath("\\sum".to_string()), sr(10, 18)),
    ];
    let doc = render_ok(events);
    assert_eq!(doc.math_mounts, 2, "one registration request per math construct");
}

#[test]
fn code_block_concatenates_raw_text() {
    let events = vec![
        (MdEvent::Start(TagKind::CodeBlock), sr(0, 20)),
        (txt("let x;\n"), sr(4, 11)),
        (txt("let y;\n"), sr(11, 18)),
        (MdEvent::End(TagEndKind::CodeBlock), sr(0, 20)),
    ];
    let doc = render_ok(events);
    match &fragment_children(&doc.view)[0] {
        ViewNode::Element { tag, children, .. } => {
            assert_eq!(*tag, HtmlElement::Pre);
            match &children[0] {
                ViewNode::Element { tag, children, .. } => {
                    assert_eq!(*tag, HtmlElement::Code);
                    assert!(matches!(&children[0], ViewNode::Text(t) if t == "let x;\nlet y;\n"));
                }
                other => panic!("expected code element, got {:?}", other),
            }
        }
        other => panic!("expected pre element, got {:?}", other),
    }
}

#[test]
fn table_cells_carry_column_alignment_styles() {
    let events = vec![
        (
            MdEvent::Start(TagKind::Table(vec![MdAlignment::Left, MdAlignment::Unspecified])),
            sr(0, 30),
        ),
        (MdEvent::Start(TagKind::TableHead), sr(0, 15)),
        (MdEvent::Start(TagKind::TableCell), sr(1, 3)),
        (txt("a"), sr(1, 2)),
        (MdEvent::End(TagEndKind::TableCell), sr(1, 3)),
        (MdEvent::Start(TagKind::TableCell), sr(4, 6)),
        (txt("b"), sr(4, 5)),
        (MdEvent::End(TagEndKind::TableCell), sr(4, 6)),
        (MdEvent::End(TagEndKind::TableHead), sr(0, 15)),
        (MdEvent::End(TagEndKind::Table), sr(0, 30)),
    ];
    let doc = render_ok(events);
    let table = &fragment_children(&doc.view)[0];
    let head = match table {
        ViewNode::Element { tag, children, .. } => {
            assert_eq!(*tag, HtmlElement::Table);
            &children[0]
        }
        other => panic!("expected table, got {:?}", other),
    };
    match head {
        ViewNode::Element { tag, children, .. } => {
            assert_eq!(*tag, HtmlElement::Thead);
            let styles: Vec<Option<String>> = children
                .iter()
                .map(|c| match c {
                    ViewNode::Element { tag, attrs, .. } => {
                        assert_eq!(*tag, HtmlElement::Tcell);
                        attrs.style.clone()
                    }
                    other => panic!("expected cell, got {:?}", other),
                })
                .collect();
            assert_eq!(styles, vec![Some("text-align: left".to_string()), None]);
        }
        other => panic!("expected head, got {:?}", other),
    }
}

#[test]
fn frontmatter_is_captured_when_a_slot_is_configured() {
    let events = vec![
        (MdEvent::Start(TagKind::Metadata), sr(0, 16)),
        (txt("title: hi\n"), sr(4, 14)),
        (MdEvent::End(TagEndKind::Metadata), sr(0, 16)),
        (MdEvent::Start(TagKind::Paragraph), sr(17, 20)),
        (txt("x"), sr(17, 18)),
        (MdEvent::End(TagEndKind::Paragraph), sr(17, 20)),
    ];
    let props = MarkdownProps { has_frontmatter_slot: true, ..MarkdownProps::default() };
    let doc = render_events(events.clone(), props).unwrap();
    assert_eq!(doc.frontmatter, Some("title: hi\n".to_string()));
    assert_eq!(fragment_children(&doc.view).len(), 1, "metadata renders no node");
    // without a destination the payload is discarded
    let doc2 = render_events(events, MarkdownProps::default()).unwrap();
    assert!(doc2.frontmatter.is_none());
}

#[test]
fn default_attributes_are_all_empty() {
    let a = ElementAttributes::default();
    assert!(a.classes.is_empty());
    assert!(a.style.is_none());
    assert!(a.inner_html.is_none());
    assert!(a.on_click.is_none());
    let c = make_md_callback(sr(2, 9));
    assert_eq!(c, ClickAction { range: sr(2, 9), prevent_default: false });
}

#[test]
fn markdown_source_renders_heading_with_ranges() {
    let doc = render_markdown("# hello", MarkdownProps::default()).unwrap();
    let top = fragment_children(&doc.view);
    assert_eq!(top.len(), 1);
    match &top[0] {
        ViewNode::Element { tag, attrs, children } => {
            assert_eq!(*tag, HtmlElement::Heading(1));
            assert_eq!(attrs.on_click.unwrap().range, sr(0, 7));
            match &children[0] {
                ViewNode::Element { tag, children, .. } => {
                    assert_eq!(*tag, HtmlElement::Span);
                    assert!(matches!(&children[0], ViewNode::Text(t) if t == "hello"));
                }
                other => panic!("expected text span, got {:?}", other),
            }
        }
        other => panic!("expected heading, got {:?}", other),
    }
}

#[test]
fn markdown_source_math_mounts_and_hard_breaks() {
    let doc = render_markdown("$x$ and $y$", MarkdownProps::default()).unwrap();
    assert_eq!(doc.math_mounts, 2);

    let soft = render_markdown("a\nb", MarkdownProps::default()).unwrap();
    let hard = render_markdown(
        "a\nb",
        MarkdownProps { hard_line_breaks: true, ..MarkdownProps::default() },
    )
    .unwrap();
    let para = |d: &RenderedMarkdown| match &fragment_children(&d.view)[0] {
        ViewNode::Element { children, .. } => format!("{:?}", children[1]),
        other => panic!("expected paragraph, got {:?}", other),
    };
    assert!(para(&soft).starts_with("Text"));
    assert!(para(&hard).starts_with("Br"));
}

#[test]
fn markdown_source_tasklist_and_frontmatter() {
    let props = MarkdownProps { has_frontmatter_slot: true, ..MarkdownProps::default() };
    let doc = render_markdown("---\ntitle: x\n---\n- [ ] task", props).unwrap();
    assert_eq!(doc.frontmatter, Some("title: x\n".to_string()));
    let list = &fragment_children(&doc.view)[0];
    let item = match list {
        ViewNode::Element { tag, children, .. } => {
            assert_eq!(*tag, HtmlElement::Ul);
            &children[0]
        }
        other => panic!("expected list, got {:?}", other),
    };
    match item {
        ViewNode::Element { tag, children, .. } => {
            assert_eq!(*tag, HtmlElement::Li);
            assert!(matches!(&children[0], ViewNode::Checkbox { checked: false, .. }));
        }
        other => panic!("expected item, got {:?}", other),
    }
}

#[test]
fn raw_html_passes_through_as_payload() {
    let events = vec![(MdEvent::Html("<b>raw</b>".to_string()), sr(0, 10))];
    let doc = render_ok(events);
    match &fragment_children(&doc.view)[0] {
        ViewNode::Element { tag, attrs, children } => {
            assert_eq!(*tag, HtmlElement::Span);
            assert_eq!(attrs.inner_html, Some("<b>raw</b>".to_string()));
            assert!(children.is_empty());
        }
        other => panic!("expected html span, got {:?}", other),
    }
}

#[test]
fn wikilink_syntax_follows_the_toggle() {
    let props = MarkdownProps { wikilinks: true, ..MarkdownProps::default() };
    let doc = render_markdown("[[page]]", props).unwrap();
    let para = match &fragment_children(&doc.view)[0] {
        ViewNode::Element { tag, children, .. } => {
            assert_eq!(*tag, HtmlElement::Paragraph);
            children
        }
        other => panic!("expected paragraph, got {:?}", other),
    };
    match &para[0] {
        ViewNode::Anchor { href, .. } => assert_eq!(href, "page"),
        other => panic!("expected wikilink anchor, got {:?}", other),
    }
    // with the toggle off, the same source is plain text
    let doc2 = render_markdown("[[page]]", MarkdownProps::default()).unwrap();
    let para2 = match &fragment_children(&doc2.view)[0] {
        ViewNode::Element { children, .. } => children,
        other => panic!("expected paragraph, got {:?}", other),
    };
    assert!(para2.iter().all(|n| !matches!(n, ViewNode::Anchor { .. })));
}

#[test]
fn ordered_list_start_saturates_at_the_numbering_bound() {
    let events = vec![
        (MdEvent::Start(TagKind::List(Some(u64::MAX))), sr(0, 10)),
        (MdEvent::End(TagEndKind::List), sr(0, 10)),
    ];
    let doc = render_ok(events);
    match &fragment_children(&doc.view)[0] {
        ViewNode::Element { tag, .. } => assert_eq!(*tag, HtmlElement::Ol(i32::MAX)),
        other => panic!("expected list, got {:?}", other),
    }
    let small = vec![
        (MdEvent::Start(TagKind::List(Some(7))), sr(0, 10)),
        (MdEvent::End(TagEndKind::List), sr(0, 10)),
    ];
    let doc2 = render_ok(small);
    match &fragment_children(&doc2.view)[0] {
        ViewNode::Element { tag, .. } => assert_eq!(*tag, HtmlElement::Ol(7)),
        other => panic!("expected list, got {:?}", other),
    }
}
