//! The events of a document, as a parser tells them one after the other.

use vstd::prelude::*;

verus! {

/// How a link was written in the document.
#[derive(Clone, Copy, Debug, PartialEq, Eq, Structural)]
pub enum LinkType {
    /// Inline link like `[foo](bar)`
    Inline,
    /// Reference link like `[foo][bar]`
    Reference,
    /// Reference without destination in the document, but resolved by a callback
    ReferenceUnknown,
    /// Collapsed link like `[foo][]`
    Collapsed,
    /// Collapsed link without destination in the document, but resolved by a callback
    CollapsedUnknown,
    /// Shortcut link like `[foo]`
    Shortcut,
    /// Shortcut without destination in the document, but resolved by a callback
    ShortcutUnknown,
    /// Autolink like `<http://foo.bar/baz>`
    Autolink,
    /// Email address in autolink like `<john@example.org>`
    Email,
}

/// How a block of code was set off from the text around it.
#[derive(Clone, Debug, PartialEq, Eq)]
pub enum CodeBlockKind {
    /// By indentation.
    Indented,
    /// By fences; the text holds what follows the opening fence, which most
    /// often names the language of the code.
    Fenced(String),
}

/// A part of a document that has a start and an end.
#[derive(Clone, Debug, PartialEq, Eq)]
pub enum Tag {
    /// A paragraph of text and other inline elements.
    Paragraph,
    /// A heading, with its level.
    Heading(u32),
    /// A quoted block.
    BlockQuote,
    /// A block of code.
    CodeBlock(CodeBlockKind),
    /// A list.  An ordered list has the number of its first item.
    List(Option<u64>),
    /// An item of a list.
    Item,
    /// Emphasised text.
    Emphasis,
    /// Strongly emphasised text.
    Strong,
    /// Text that is struck through.
    Strikethrough,
    /// A link, with its type, target and title.
    Link(LinkType, String, String),
    /// An image, with its type, target and title.
    Image(LinkType, String, String),
}

/// The kind of a part of a document: its tag without what the tag carries.
#[derive(Clone, Copy, Debug, PartialEq, Eq, Structural)]
pub enum TagKind {
    Paragraph,
    Heading,
    BlockQuote,
    CodeBlock,
    List,
    Item,
    Emphasis,
    Strong,
    Strikethrough,
    Link,
    Image,
}

impl Tag {
    /// The kind of this tag.
    pub open spec fn kind(self) -> TagKind {
        match self {
            Tag::Paragraph => TagKind::Paragraph,
            Tag::Heading(_) => TagKind::Heading,
            Tag::BlockQuote => TagKind::BlockQuote,
            Tag::CodeBlock(_) => TagKind::CodeBlock,
            Tag::List(_) => TagKind::List,
            Tag::Item => TagKind::Item,
            Tag::Emphasis => TagKind::Emphasis,
            Tag::Strong => TagKind::Strong,
            Tag::Strikethrough => TagKind::Strikethrough,
            Tag::Link(_, _, _) => TagKind::Link,
            Tag::Image(_, _, _) => TagKind::Image,
        }
    }
}

/// One event of a document.
#[derive(Clone, Debug, PartialEq, Eq)]
pub enum Event {
    /// The start of a part.
    Start(Tag),
    /// The end of a part.
    End(Tag),
    /// Text.
    Text(String),
    /// Code within a line of text.
    Code(String),
    /// Markup that the document holds as it is.
    Html(String),
    /// A line break that a reader of the source sees and a reader of the
    /// rendered text need not.
    SoftBreak,
    /// A line break that the document asks for.
    HardBreak,
    /// A horizontal rule.
    Rule,
    /// The box of an item of a task list, checked or not.
    TaskListMarker(bool),
}

} // verus!
