use vstd::prelude::*;

verus! {

/// Relies on pulldown-cmark's `LinkType`: the style of a link or image,
/// carried through the pipeline untouched.
#[verifier::external_type_specification]
#[verifier::external_body]
pub struct ExLinkType(pulldown_cmark::LinkType);

/// Relies on pulldown-cmark's `Alignment`: a table column's text
/// alignment, carried through the pipeline untouched.
#[verifier::external_type_specification]
#[verifier::external_body]
pub struct ExAlignment(pulldown_cmark::Alignment);

/// The opening or closing tag of a markdown block or span element, with
/// every payload held as a plain owned value.
#[derive(Debug, PartialEq)]
pub enum MdTag {
    Paragraph,
    Heading(u32),
    BlockQuote,
    /// A fenced or indented code block; the payload is the fence's info
    /// string, empty for an indented block or a bare fence.
    CodeBlock(String),
    List(Option<u64>),
    Item,
    FootnoteDefinition(String),
    Table(Vec<pulldown_cmark::Alignment>),
    TableHead,
    TableRow,
    TableCell,
    Emphasis,
    Strong,
    Strikethrough,
    /// A link: its style, destination and title.
    Link(pulldown_cmark::LinkType, String, String),
    /// An image: its style, destination and title.
    Image(pulldown_cmark::LinkType, String, String),
}

/// One markdown render event, with every payload held as a plain owned
/// value.
#[derive(Debug, PartialEq)]
pub enum MdEvent {
    Start(MdTag),
    End(MdTag),
    Text(String),
    Code(String),
    Html(String),
    FootnoteReference(String),
    SoftBreak,
    HardBreak,
    Rule,
    TaskListMarker(bool),
}

/// The mathematical shape of a tag: string payloads become character
/// sequences, everything else is kept as it stands.
pub ghost enum TagSpec {
    Paragraph,
    Heading(u32),
    BlockQuote,
    CodeBlock(Seq<char>),
    List(Option<u64>),
    Item,
    FootnoteDefinition(Seq<char>),
    Table(Seq<pulldown_cmark::Alignment>),
    TableHead,
    TableRow,
    TableCell,
    Emphasis,
    Strong,
    Strikethrough,
    Link(pulldown_cmark::LinkType, Seq<char>, Seq<char>),
    Image(pulldown_cmark::LinkType, Seq<char>, Seq<char>),
}

/// The mathematical shape of one render event.
pub ghost enum EvSpec {
    Start(TagSpec),
    End(TagSpec),
    Text(Seq<char>),
    Code(Seq<char>),
    Html(Seq<char>),
    FootnoteReference(Seq<char>),
    SoftBreak,
    HardBreak,
    Rule,
    TaskListMarker(bool),
}

impl View for MdTag {
    type V = TagSpec;

    open spec fn view(&self) -> TagSpec {
        match self {
            MdTag::Paragraph => TagSpec::Paragraph,
            MdTag::Heading(n) => TagSpec::Heading(*n),
            MdTag::BlockQuote => TagSpec::BlockQuote,
            MdTag::CodeBlock(info) => TagSpec::CodeBlock(info@),
            MdTag::List(n) => TagSpec::List(*n),
            MdTag::Item => TagSpec::Item,
            MdTag::FootnoteDefinition(l) => TagSpec::FootnoteDefinition(l@),
            MdTag::Table(a) => TagSpec::Table(a@),
            MdTag::TableHead => TagSpec::TableHead,
            MdTag::TableRow => TagSpec::TableRow,
            MdTag::TableCell => TagSpec::TableCell,
            MdTag::Emphasis => TagSpec::Emphasis,
            MdTag::Strong => TagSpec::Strong,
            MdTag::Strikethrough => TagSpec::Strikethrough,
            MdTag::Link(k, d, t) => TagSpec::Link(*k, d@, t@),
            MdTag::Image(k, d, t) => TagSpec::Image(*k, d@, t@),
        }
    }
}

impl View for MdEvent {
    type V = EvSpec;

    open spec fn view(&self) -> EvSpec {
        match self {
            MdEvent::Start(t) => EvSpec::Start(t@),
            MdEvent::End(t) => EvSpec::End(t@),
            MdEvent::Text(s) => EvSpec::Text(s@),
            MdEvent::Code(s) => EvSpec::Code(s@),
            MdEvent::Html(s) => EvSpec::Html(s@),
            MdEvent::FootnoteReference(s) => EvSpec::FootnoteReference(s@),
            MdEvent::SoftBreak => EvSpec::SoftBreak,
            MdEvent::HardBreak => EvSpec::HardBreak,
            MdEvent::Rule => EvSpec::Rule,
            MdEvent::TaskListMarker(b) => EvSpec::TaskListMarker(*b),
        }
    }
}

/// The mathematical shape of a whole event sequence.
pub open spec fn models(s: Seq<MdEvent>) -> Seq<EvSpec> {
    s.map_values(|e: MdEvent| e@)
}

} // verus!
