use vstd::prelude::*;

verus! {

use vstd::pervasive::VecAdditionalExecFns;

/// A half-open byte interval into the original markdown source text.
/// Every interactive rendered node carries one of these, copied verbatim
/// from the event that produced it, so a click can be mapped back to the
/// exact piece of source that was rendered.
#[derive(Clone, Copy, PartialEq, Eq, Structural, Debug)]
pub struct SourceRange {
    pub start: usize,
    pub end: usize,
}

/// Column alignment of a table, as declared in the table's header row.
#[derive(Clone, Copy, PartialEq, Eq, Structural, Debug)]
pub enum MdAlignment {
    Unspecified,
    Left,
    Center,
    Right,
}

/// The kind of a link or image, mirroring the distinctions the parser makes.
#[derive(Clone, Copy, PartialEq, Eq, Structural, Debug)]
pub enum MdLinkType {
    Inline,
    Reference,
    ReferenceUnknown,
    Collapsed,
    CollapsedUnknown,
    Shortcut,
    ShortcutUnknown,
    Autolink,
    Email,
    WikiLink { has_pothole: bool },
}

/// A block-level or inline construct opened by a `Start` event. Each carries
/// exactly the data the renderer reads from it.
#[derive(Clone, PartialEq, Debug)]
pub enum TagKind {
    Paragraph,
    Heading(u8),
    BlockQuote,
    CodeBlock,
    HtmlBlock,
    /// `Some(n)` for an ordered list whose numbering starts at `n`,
    /// `None` for an unordered list.
    List(Option<u64>),
    Item,
    FootnoteDefinition(String),
    DefinitionList,
    DefinitionListTitle,
    DefinitionListDefinition,
    Table(Vec<MdAlignment>),
    TableHead,
    TableRow,
    TableCell,
    Emphasis,
    Strong,
    Strikethrough,
    Superscript,
    Subscript,
    Link { link_type: MdLinkType, url: String, title: String },
    Image { link_type: MdLinkType, url: String, title: String },
    /// A frontmatter metadata block; its text is captured, not rendered.
    Metadata,
    /// A custom component reference with its raw key/value attribute pairs.
    Component { name: String, attributes: Vec<(String, String)> },
}

/// The structural category closed by an `End` event. A `Start(k)` is matched
/// by exactly the `End` events whose category equals `end_of(k)`.
#[derive(Clone, Copy, PartialEq, Eq, Structural, Debug)]
pub enum TagEndKind {
    Paragraph,
    Heading,
    BlockQuote,
    CodeBlock,
    HtmlBlock,
    List,
    Item,
    FootnoteDefinition,
    DefinitionList,
    DefinitionListTitle,
    DefinitionListDefinition,
    Table,
    TableHead,
    TableRow,
    TableCell,
    Emphasis,
    Strong,
    Strikethrough,
    Superscript,
    Subscript,
    Link,
    Image,
    Metadata,
    Component,
}

/// One parsed markdown event. The renderer consumes an ordered sequence of
/// `(MdEvent, SourceRange)` pairs and reconstructs the document tree.
#[derive(Clone, PartialEq, Debug)]
pub enum MdEvent {
    Start(TagKind),
    End(TagEndKind),
    Text(String),
    Code(String),
    InlineMath(String),
    DisplayMath(String),
    Html(String),
    InlineHtml(String),
    FootnoteReference(String),
    SoftBreak,
    HardBreak,
    Rule,
    TaskListMarker(bool),
}

/// The structural category that an `End` event must carry to close `k`.
pub open spec fn spec_end_of(k: TagKind) -> TagEndKind {
    match k {
        TagKind::Paragraph => TagEndKind::Paragraph,
        TagKind::Heading(_) => TagEndKind::Heading,
        TagKind::BlockQuote => TagEndKind::BlockQuote,
        TagKind::CodeBlock => TagEndKind::CodeBlock,
        TagKind::HtmlBlock => TagEndKind::HtmlBlock,
        TagKind::List(_) => TagEndKind::List,
        TagKind::Item => TagEndKind::Item,
        TagKind::FootnoteDefinition(_) => TagEndKind::FootnoteDefinition,
        TagKind::DefinitionList => TagEndKind::DefinitionList,
        TagKind::DefinitionListTitle => TagEndKind::DefinitionListTitle,
        TagKind::DefinitionListDefinition => TagEndKind::DefinitionListDefinition,
        TagKind::Table(_) => TagEndKind::Table,
        TagKind::TableHead => TagEndKind::TableHead,
        TagKind::TableRow => TagEndKind::TableRow,
        TagKind::TableCell => TagEndKind::TableCell,
        TagKind::Emphasis => TagEndKind::Emphasis,
        TagKind::Strong => TagEndKind::Strong,
        TagKind::Strikethrough => TagEndKind::Strikethrough,
        TagKind::Superscript => TagEndKind::Superscript,
        TagKind::Subscript => TagEndKind::Subscript,
        TagKind::Link { .. } => TagEndKind::Link,
        TagKind::Image { .. } => TagEndKind::Image,
        TagKind::Metadata => TagEndKind::Metadata,
        TagKind::Component { .. } => TagEndKind::Component,
    }
}

pub fn end_of(k: &TagKind) -> (e: TagEndKind)
    ensures
        e == spec_end_of(*k),
{
    match k {
        TagKind::Paragraph => TagEndKind::Paragraph,
        TagKind::Heading(_) => TagEndKind::Heading,
        TagKind::BlockQuote => TagEndKind::BlockQuote,
        TagKind::CodeBlock => TagEndKind::CodeBlock,
        TagKind::HtmlBlock => TagEndKind::HtmlBlock,
        TagKind::List(_) => TagEndKind::List,
        TagKind::Item => TagEndKind::Item,
        TagKind::FootnoteDefinition(_) => TagEndKind::FootnoteDefinition,
        TagKind::DefinitionList => TagEndKind::DefinitionList,
        TagKind::DefinitionListTitle => TagEndKind::DefinitionListTitle,
        TagKind::DefinitionListDefinition => TagEndKind::DefinitionListDefinition,
        TagKind::Table(_) => TagEndKind::Table,
        TagKind::TableHead => TagEndKind::TableHead,
        TagKind::TableRow => TagEndKind::TableRow,
        TagKind::TableCell => TagEndKind::TableCell,
        TagKind::Emphasis => TagEndKind::Emphasis,
        TagKind::Strong => TagEndKind::Strong,
        TagKind::Strikethrough => TagEndKind::Strikethrough,
        TagKind::Superscript => TagEndKind::Superscript,
        TagKind::Subscript => TagEndKind::Subscript,
        TagKind::Link { .. } => TagEndKind::Link,
        TagKind::Image { .. } => TagEndKind::Image,
        TagKind::Metadata => TagEndKind::Metadata,
        TagKind::Component { .. } => TagEndKind::Component,
    }
}

/// True of the events that are rewritten when hard line breaks are enabled.
pub open spec fn is_soft_break(e: MdEvent) -> bool {
    e is SoftBreak
}

/// The pre-pass rewrite: with hard line breaks enabled, every `SoftBreak`
/// becomes a `HardBreak` before traversal starts; ranges are kept.
pub open spec fn spec_rewrite_breaks(
    events: Seq<(MdEvent, SourceRange)>,
) -> Seq<(MdEvent, SourceRange)> {
    events.map_values(
        |p: (MdEvent, SourceRange)|
            if is_soft_break(p.0) {
                (MdEvent::HardBreak, p.1)
            } else {
                p
            },
    )
}

/// Rewrites every `SoftBreak` event to `HardBreak`, leaving everything else
/// (including the attached source ranges) untouched.
pub fn rewrite_breaks(events: &mut Vec<(MdEvent, SourceRange)>)
    ensures
        final(events)@ == spec_rewrite_breaks(old(events)@),
{
    let ghost orig = events@;
    let mut i: usize = 0;
    while i < events.len()
        invariant
            events@.len() == orig.len(),
            forall|j: int| i <= j < orig.len() ==> events@[j] == orig[j],
            forall|j: int|
                0 <= j < i ==> events@[j] == spec_rewrite_breaks(orig)[j],
        decreases events@.len() - i,
    {
        let soft = matches!(events[i].0, MdEvent::SoftBreak);
        if soft {
            let r = events[i].1;
            events.set(i, (MdEvent::HardBreak, r));
        }
        i = i + 1;
    }
    assert(events@ =~= spec_rewrite_breaks(orig));
}

} // verus!
