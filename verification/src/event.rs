//! The units of a parsed markdown document.
use vstd::prelude::*;

verus! {

/// Alignment of a table column.
#[derive(Clone, Copy, Debug)]
pub enum Alignment {
    /// The column states no alignment.
    Unset,
    Left,
    Center,
    Right,
}

/// What a start or end event opens or closes.
#[derive(Clone, Debug)]
pub enum Tag {
    Paragraph,
    Rule,
    /// A heading and its level.
    Header(i32),
    BlockQuote,
    /// A code block and its language hint.
    CodeBlock(String),
    /// A list; for an ordered one, the number of its first item.
    List(Option<usize>),
    Item,
    FootnoteDefinition(String),
    Table(Vec<Alignment>),
    TableHead,
    TableRow,
    TableCell,
    Emphasis,
    Strong,
    /// Inline code.
    Code,
    /// A link: its destination, then its title.
    Link(String, String),
    /// An image: its destination, then its title.
    Image(String, String),
}

/// One unit of a parsed document.
#[derive(Clone, Debug)]
pub enum Event {
    Start(Tag),
    End(Tag),
    Text(String),
    Html(String),
    InlineHtml(String),
    FootnoteReference(String),
    SoftBreak,
    HardBreak,
}

impl Event {
    /// The literal content of a text, HTML or inline HTML event.
    pub open spec fn content(self) -> Option<Seq<char>> {
        match self {
            Event::Text(t) => Some(t@),
            Event::Html(t) => Some(t@),
            Event::InlineHtml(t) => Some(t@),
            _ => None,
        }
    }
}

} // verus!
