use vstd::prelude::*;

use crate::events::{MdAlignment, MdEvent, MdLinkType, SourceRange, TagEndKind, TagKind};
use pulldown_cmark::Event as Pe;
use pulldown_cmark::Tag as Pt;
use pulldown_cmark::TagEnd as Pte;
use pulldown_cmark::LinkType as Plt;
use pulldown_cmark::Options as Po;

verus! {

#[verifier::external_type_specification]
#[verifier::external_body]
pub struct ExEvent<'a>(pulldown_cmark::Event<'a>);

#[verifier::external_type_specification]
#[verifier::external_body]
pub struct ExTag<'a>(pulldown_cmark::Tag<'a>);

#[verifier::external_type_specification]
#[verifier::external_body]
pub struct ExTagEnd(pulldown_cmark::TagEnd);

#[verifier::external_type_specification]
#[verifier::external_body]
pub struct ExLinkType(pulldown_cmark::LinkType);

#[verifier::external_type_specification]
#[verifier::external_body]
pub struct ExAlignment(pulldown_cmark::Alignment);

#[verifier::external_type_specification]
#[verifier::external_body]
pub struct ExOptions(pulldown_cmark::Options);

/// The parser features a render pass may switch on, as plain values. Each
/// field mirrors one extension of the external markdown parser.
#[derive(Clone, Copy, PartialEq, Eq, Structural, Debug)]
pub struct ParseOptions {
    pub tables: bool,
    pub footnotes: bool,
    pub strikethrough: bool,
    pub tasklists: bool,
    pub smart_punctuation: bool,
    pub heading_attributes: bool,
    pub metadata_blocks: bool,
    pub math: bool,
    pub gfm: bool,
    pub definition_lists: bool,
    pub superscript: bool,
    pub subscript: bool,
}

/// Every parser feature switched on, the default of a render pass that is
/// given no overrides.
pub open spec fn all_parse_options() -> ParseOptions {
    ParseOptions {
        tables: true,
        footnotes: true,
        strikethrough: true,
        tasklists: true,
        smart_punctuation: true,
        heading_attributes: true,
        metadata_blocks: true,
        math: true,
        gfm: true,
        definition_lists: true,
        superscript: true,
        subscript: true,
    }
}

impl Default for ParseOptions {
    fn default() -> (r: Self)
        ensures
            r == all_parse_options(),
    {
        ParseOptions {
            tables: true,
            footnotes: true,
            strikethrough: true,
            tasklists: true,
            smart_punctuation: true,
            heading_attributes: true,
            metadata_blocks: true,
            math: true,
            gfm: true,
            definition_lists: true,
            superscript: true,
            subscript: true,
        }
    }
}

/// What the external parser yields for a source text under given options
/// and wikilink toggle: a pure function of these three arguments alone.
pub uninterp spec fn parsed_events_of(
    source: Seq<char>,
    opts: ParseOptions,
    wikilinks: bool,
) -> Seq<(MdEvent, SourceRange)>;

/// Relies on pulldown_cmark::Alignment: renames the four column alignments.
#[verifier::external_body]
fn convert_alignment(a: pulldown_cmark::Alignment) -> MdAlignment {
    match a {
        pulldown_cmark::Alignment::None => MdAlignment::Unspecified,
        pulldown_cmark::Alignment::Left => MdAlignment::Left,
        pulldown_cmark::Alignment::Center => MdAlignment::Center,
        pulldown_cmark::Alignment::Right => MdAlignment::Right,
    }
}

/// Relies on pulldown_cmark::Alignment: converts a table's column list,
/// one column at a time.
#[verifier::external_body]
fn convert_alignments(a: Vec<pulldown_cmark::Alignment>) -> Vec<MdAlignment> {
    a.into_iter().map(convert_alignment).collect()
}

/// Relies on pulldown_cmark::LinkType: renames each link kind, moving the
/// wikilink pothole flag.
#[verifier::external_body]
fn convert_link_type(lt: pulldown_cmark::LinkType) -> MdLinkType {
    match lt {
        Plt::Inline => MdLinkType::Inline, Plt::Reference => MdLinkType::Reference,
        Plt::ReferenceUnknown => MdLinkType::ReferenceUnknown,
        Plt::Collapsed => MdLinkType::Collapsed,
        Plt::CollapsedUnknown => MdLinkType::CollapsedUnknown,
        Plt::Shortcut => MdLinkType::Shortcut,
        Plt::ShortcutUnknown => MdLinkType::ShortcutUnknown,
        Plt::Autolink => MdLinkType::Autolink, Plt::Email => MdLinkType::Email,
        Plt::WikiLink { has_pothole } => MdLinkType::WikiLink { has_pothole },
    }
}

/// Relies on pulldown_cmark::Tag: moves each field-bearing variant's data
/// (heading level, list start, footnote label, alignments, link fields);
/// the rest is renamed by `convert_tag_plain`.
#[verifier::external_body]
fn convert_tag(t: pulldown_cmark::Tag<'_>) -> TagKind {
    match t {
        Pt::Heading { level, .. } => TagKind::Heading(level as u8),
        Pt::List(start) => TagKind::List(start),
        Pt::FootnoteDefinition(s) => TagKind::FootnoteDefinition(s.into_string()),
        Pt::Table(a) => TagKind::Table(convert_alignments(a)),
        Pt::Link { link_type, dest_url, title, .. } =>
            mk_link(convert_link_type(link_type), dest_url.into_string(), title.into_string()),
        Pt::Image { link_type, dest_url, title, .. } =>
            mk_image(convert_link_type(link_type), dest_url.into_string(), title.into_string()),
        other => convert_tag_plain(other),
    }
}

fn mk_link(link_type: MdLinkType, url: String, title: String) -> (k: TagKind)
    ensures
        k == (TagKind::Link { link_type, url, title }),
{
    TagKind::Link { link_type, url, title }
}

fn mk_image(link_type: MdLinkType, url: String, title: String) -> (k: TagKind)
    ensures
        k == (TagKind::Image { link_type, url, title }),
{
    TagKind::Image { link_type, url, title }
}

/// Relies on pulldown_cmark::Tag: renames half of the variants without data
/// the renderer reads; the rest is renamed by `convert_tag_plain_more`.
#[verifier::external_body]
fn convert_tag_plain(t: pulldown_cmark::Tag<'_>) -> TagKind {
    match t {
        Pt::BlockQuote(_) => TagKind::BlockQuote, Pt::CodeBlock(_) => TagKind::CodeBlock,
        Pt::HtmlBlock => TagKind::HtmlBlock, Pt::Item => TagKind::Item,
        Pt::DefinitionList => TagKind::DefinitionList,
        Pt::DefinitionListTitle => TagKind::DefinitionListTitle,
        Pt::DefinitionListDefinition => TagKind::DefinitionListDefinition,
        other => convert_tag_plain_more(other),
    }
}

/// Relies on pulldown_cmark::Tag: renames the remaining variants (the final
/// arm covers `Paragraph`; every other variant was taken by the callers).
#[verifier::external_body]
fn convert_tag_plain_more(t: pulldown_cmark::Tag<'_>) -> TagKind {
    match t {
        Pt::TableHead => TagKind::TableHead, Pt::TableRow => TagKind::TableRow,
        Pt::TableCell => TagKind::TableCell, Pt::Emphasis => TagKind::Emphasis,
        Pt::Strong => TagKind::Strong, Pt::Strikethrough => TagKind::Strikethrough,
        Pt::Superscript => TagKind::Superscript, Pt::Subscript => TagKind::Subscript,
        Pt::MetadataBlock(_) => TagKind::Metadata,
        _ => TagKind::Paragraph,
    }
}

/// Relies on pulldown_cmark::TagEnd: renames half of the closing
/// categories; the rest is renamed by `convert_tag_end_more`.
#[verifier::external_body]
fn convert_tag_end(t: pulldown_cmark::TagEnd) -> TagEndKind {
    match t {
        Pte::Heading(_) => TagEndKind::Heading, Pte::BlockQuote(_) => TagEndKind::BlockQuote,
        Pte::CodeBlock => TagEndKind::CodeBlock, Pte::HtmlBlock => TagEndKind::HtmlBlock,
        Pte::List(_) => TagEndKind::List, Pte::Item => TagEndKind::Item,
        Pte::FootnoteDefinition => TagEndKind::FootnoteDefinition,
        Pte::DefinitionList => TagEndKind::DefinitionList,
        Pte::DefinitionListTitle => TagEndKind::DefinitionListTitle,
        Pte::DefinitionListDefinition => TagEndKind::DefinitionListDefinition,
        other => convert_tag_end_more(other),
    }
}

/// Relies on pulldown_cmark::TagEnd: renames the remaining closing
/// categories (the final arm covers `Paragraph`).
#[verifier::external_body]
fn convert_tag_end_more(t: pulldown_cmark::TagEnd) -> TagEndKind {
    match t {
        Pte::Table => TagEndKind::Table, Pte::TableHead => TagEndKind::TableHead,
        Pte::TableRow => TagEndKind::TableRow, Pte::TableCell => TagEndKind::TableCell,
        Pte::Emphasis => TagEndKind::Emphasis, Pte::Strong => TagEndKind::Strong,
        Pte::Strikethrough => TagEndKind::Strikethrough,
        Pte::Superscript => TagEndKind::Superscript, Pte::Subscript => TagEndKind::Subscript,
        Pte::Link => TagEndKind::Link, Pte::Image => TagEndKind::Image,
        Pte::MetadataBlock(_) => TagEndKind::Metadata,
        _ => TagEndKind::Paragraph,
    }
}

/// Relies on pulldown_cmark::Event: converts the structured and text-bearing
/// variants; the rest is renamed by `convert_event_rest`.
#[verifier::external_body]
fn convert_event(e: pulldown_cmark::Event<'_>) -> MdEvent {
    match e {
        Pe::Start(t) => MdEvent::Start(convert_tag(t)),
        Pe::End(t) => MdEvent::End(convert_tag_end(t)),
        Pe::Text(s) => MdEvent::Text(s.into_string()),
        Pe::Code(s) => MdEvent::Code(s.into_string()),
        Pe::InlineMath(s) => MdEvent::InlineMath(s.into_string()),
        Pe::DisplayMath(s) => MdEvent::DisplayMath(s.into_string()),
        other => convert_event_rest(other),
    }
}

/// Relies on pulldown_cmark::Event: renames the remaining variants (the
/// final arm covers `Rule`; every other variant was taken by the caller).
#[verifier::external_body]
fn convert_event_rest(e: pulldown_cmark::Event<'_>) -> MdEvent {
    match e {
        Pe::Html(s) => MdEvent::Html(s.into_string()),
        Pe::InlineHtml(s) => MdEvent::InlineHtml(s.into_string()),
        Pe::FootnoteReference(s) => MdEvent::FootnoteReference(s.into_string()),
        Pe::SoftBreak => MdEvent::SoftBreak,
        Pe::HardBreak => MdEvent::HardBreak,
        Pe::TaskListMarker(b) => MdEvent::TaskListMarker(b),
        _ => MdEvent::Rule,
    }
}

/// Relies on pulldown_cmark::Options: switches on one parser extension per
/// enabled field; the second half is handled by `options_of_more`.
#[verifier::external_body]
fn options_of(p: &ParseOptions) -> pulldown_cmark::Options {
    let mut o = Po::empty();
    if p.tables { o.insert(Po::ENABLE_TABLES); }
    if p.footnotes { o.insert(Po::ENABLE_FOOTNOTES); }
    if p.strikethrough { o.insert(Po::ENABLE_STRIKETHROUGH); }
    if p.tasklists { o.insert(Po::ENABLE_TASKLISTS); }
    if p.smart_punctuation { o.insert(Po::ENABLE_SMART_PUNCTUATION); }
    if p.heading_attributes { o.insert(Po::ENABLE_HEADING_ATTRIBUTES); }
    options_of_more(p, o)
}

/// Relies on pulldown_cmark::Options: the remaining extensions, two
/// metadata-block styles for the one metadata toggle.
#[verifier::external_body]
fn options_of_more(p: &ParseOptions, start: pulldown_cmark::Options) -> pulldown_cmark::Options {
    let mut o = start;
    if p.metadata_blocks { o.insert(Po::ENABLE_YAML_STYLE_METADATA_BLOCKS); }
    if p.metadata_blocks { o.insert(Po::ENABLE_PLUSES_DELIMITED_METADATA_BLOCKS); }
    if p.math { o.insert(Po::ENABLE_MATH); }
    if p.gfm { o.insert(Po::ENABLE_GFM); }
    if p.definition_lists { o.insert(Po::ENABLE_DEFINITION_LIST); }
    if p.superscript { o.insert(Po::ENABLE_SUPERSCRIPT); }
    if p.subscript { o.insert(Po::ENABLE_SUBSCRIPT); }
    o
}

/// Relies on pulldown_cmark::Parser::new_ext and its offset iterator: the
/// parse is a pure function of the source text, the enabled options, and
/// the wikilink toggle; each yielded event carries the half-open byte range
/// of the source that produced it.
#[verifier::external_body]
pub fn parse_events(source: &str, opts: &ParseOptions, wikilinks: bool) -> (r: Vec<
    (MdEvent, SourceRange),
>)
    ensures
        r@ == parsed_events_of(source@, *opts, wikilinks),
{
    let mut o = options_of(opts);
    if wikilinks { o.insert(Po::ENABLE_WIKILINKS); }
    pulldown_cmark::Parser::new_ext(source, o)
        .into_offset_iter()
        .map(|(e, sp)| (convert_event(e), SourceRange { start: sp.start, end: sp.end }))
        .collect()
}

} // verus!
