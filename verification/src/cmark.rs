use vstd::prelude::*;

use crate::events::{models, EvSpec, MdEvent, MdTag};
use pulldown_cmark::{CowStr, Event, Options, Parser, Tag};

verus! {

/// Relies on pulldown-cmark's `Parser`: the markdown parser this
/// pipeline sits behind, carried opaquely.
#[verifier::external_type_specification]
#[verifier::external_body]
pub struct ExParser<'a>(Parser<'a>);

/// Relies on pulldown-cmark's `Event`: the parser's own event type.
#[verifier::external_type_specification]
#[verifier::external_body]
pub struct ExEvent<'a>(Event<'a>);

/// Relies on pulldown-cmark's `Tag`: the parser's own tag type.
#[verifier::external_type_specification]
#[verifier::external_body]
pub struct ExTag<'a>(Tag<'a>);

/// The event sequence that parsing a text yields, under the fixed
/// extension set of `new_cmark_parser`; a pure function of the text.
pub uninterp spec fn parse_of(text: Seq<char>) -> Seq<EvSpec>;

/// The HTML that the serializer writes for an event sequence; a pure
/// function of the events.
pub uninterp spec fn html_of(events: Seq<EvSpec>) -> Seq<char>;

/// Relies on pulldown-cmark's `Parser::new_ext`: a parser over `text`
/// with tables, footnotes, strikethrough and task lists enabled and
/// every other extension disabled.
#[verifier::external_body]
pub fn new_cmark_parser(text: &str) -> Parser<'_> {
    let mut opts = Options::empty();
    opts.insert(Options::ENABLE_TABLES);
    opts.insert(Options::ENABLE_FOOTNOTES);
    opts.insert(Options::ENABLE_STRIKETHROUGH);
    opts.insert(Options::ENABLE_TASKLISTS);
    Parser::new_ext(text, opts)
}

#[verifier::external_body]
fn tag_plain_to_model(t: Tag<'_>) -> MdTag {
    match t {
        Tag::Paragraph => MdTag::Paragraph,
        Tag::BlockQuote => MdTag::BlockQuote,
        Tag::Item => MdTag::Item,
        Tag::TableHead => MdTag::TableHead,
        Tag::TableRow => MdTag::TableRow,
        Tag::TableCell => MdTag::TableCell,
        Tag::Emphasis => MdTag::Emphasis,
        Tag::Strong => MdTag::Strong,
        // the caller has already taken every payload-carrying tag
        _ => MdTag::Strikethrough,
    }
}

#[verifier::external_body]
fn tag_to_model(t: Tag<'_>) -> MdTag {
    match t {
        Tag::CodeBlock(info) => MdTag::CodeBlock(info.into_string()),
        Tag::Link(k, d, ti) => MdTag::Link(k, d.into_string(), ti.into_string()),
        Tag::Image(k, d, ti) => MdTag::Image(k, d.into_string(), ti.into_string()),
        Tag::FootnoteDefinition(l) => MdTag::FootnoteDefinition(l.into_string()),
        Tag::Heading(n) => MdTag::Heading(n),
        Tag::List(n) => MdTag::List(n),
        Tag::Table(a) => MdTag::Table(a),
        t => tag_plain_to_model(t),
    }
}

#[verifier::external_body]
fn event_to_model(e: Event<'_>) -> MdEvent {
    match e {
        Event::Start(t) => MdEvent::Start(tag_to_model(t)),
        Event::End(t) => MdEvent::End(tag_to_model(t)),
        Event::Text(s) => MdEvent::Text(s.into_string()),
        Event::Code(s) => MdEvent::Code(s.into_string()),
        Event::Html(s) => MdEvent::Html(s.into_string()),
        Event::FootnoteReference(s) => MdEvent::FootnoteReference(s.into_string()),
        Event::SoftBreak => MdEvent::SoftBreak,
        Event::HardBreak => MdEvent::HardBreak,
        Event::Rule => MdEvent::Rule,
        Event::TaskListMarker(b) => MdEvent::TaskListMarker(b),
    }
}

#[verifier::external_body]
fn model_plain_to_tag(t: &MdTag) -> Tag<'_> {
    match t {
        MdTag::Paragraph => Tag::Paragraph,
        MdTag::BlockQuote => Tag::BlockQuote,
        MdTag::Item => Tag::Item,
        MdTag::TableHead => Tag::TableHead,
        MdTag::TableRow => Tag::TableRow,
        MdTag::TableCell => Tag::TableCell,
        MdTag::Emphasis => Tag::Emphasis,
        MdTag::Strong => Tag::Strong,
        // the caller has already taken every payload-carrying tag
        _ => Tag::Strikethrough,
    }
}

#[verifier::external_body]
fn model_to_tag(t: &MdTag) -> Tag<'_> {
    match t {
        MdTag::CodeBlock(i) => Tag::CodeBlock(CowStr::Borrowed(i.as_str())),
        MdTag::Link(k, d, ti) => Tag::Link(*k, CowStr::Borrowed(d.as_str()), CowStr::Borrowed(ti.as_str())),
        MdTag::Image(k, d, ti) => Tag::Image(*k, CowStr::Borrowed(d.as_str()), CowStr::Borrowed(ti.as_str())),
        MdTag::FootnoteDefinition(l) => Tag::FootnoteDefinition(CowStr::Borrowed(l.as_str())),
        MdTag::Heading(n) => Tag::Heading(*n),
        MdTag::List(n) => Tag::List(*n),
        MdTag::Table(a) => Tag::Table(a.clone()),
        t => model_plain_to_tag(t),
    }
}

#[verifier::external_body]
fn model_to_event(e: &MdEvent) -> Event<'_> {
    match e {
        MdEvent::Start(t) => Event::Start(model_to_tag(t)),
        MdEvent::End(t) => Event::End(model_to_tag(t)),
        MdEvent::Text(s) => Event::Text(CowStr::Borrowed(s.as_str())),
        MdEvent::Code(s) => Event::Code(CowStr::Borrowed(s.as_str())),
        MdEvent::Html(s) => Event::Html(CowStr::Borrowed(s.as_str())),
        MdEvent::FootnoteReference(s) => Event::FootnoteReference(CowStr::Borrowed(s.as_str())),
        MdEvent::SoftBreak => Event::SoftBreak,
        MdEvent::HardBreak => Event::HardBreak,
        MdEvent::Rule => Event::Rule,
        MdEvent::TaskListMarker(b) => Event::TaskListMarker(*b),
    }
}

/// Relies on pulldown-cmark's `Parser`: parsing is deterministic, so the
/// events it yields for a text — converted here to plain owned values —
/// are the pure function `parse_of` of that text.
#[verifier::external_body]
pub fn parse_markdown_events(text: &str) -> (events: Vec<MdEvent>)
    ensures
        models(events@) == parse_of(text@),
{
    new_cmark_parser(text).map(event_to_model).collect()
}

/// Relies on pulldown-cmark's `html::push_html`: the HTML it writes is
/// deterministic in the events it is fed, so the output is the pure
/// function `html_of` of the event sequence handed in.
#[verifier::external_body]
pub fn events_to_html(events: &Vec<MdEvent>) -> (html: String)
    ensures
        html@ == html_of(models(events@)),
{
    let mut s = String::new();
    pulldown_cmark::html::push_html(&mut s, events.iter().map(model_to_event));
    s
}

} // verus!
