//! The rules of rendering: for each state and each event, the state and the
//! data that follow, and what is written.
//!
//! A pairing of state and event for which no rule stands here is a fault of
//! whoever produced the events: there is no way on from it.

use crate::events::{Event, LinkType, Tag};
use crate::render::data::PendingLinks;
use crate::render::highlighting::{highlighted_code, Highlighted};
use crate::render::images::Fetched;
use crate::render::state::{
    Frame, Frames, InlineAttrs, InlineState, ListItemKind, ListItemState, LiteralBlockAttrs,
    MarginControl, StyledBlockAttrs, TopLevelAttrs,
};
use crate::render::write::{
    border_text, code_block, code_block_opening, heading_marker, heading_style, link_refs_text,
    mark_text, newline, rule_text, styled,
};
use crate::settings::Context;
use crate::terminal::ansi::{Colour, Style};
use crate::terminal::encoding::base64_fits;
use crate::terminal::iterm2::file_command;
use crate::terminal::kitty::image_commands;
use crate::terminal::osc::{link_command, link_destination, osc};
use crate::terminal::terminology::{image_command, image_lines};
use crate::terminal::{ImageCapability, TerminalCapabilities};
use crate::text::{decimal, ends_with_newline, lines_with_endings, right_aligned, spaces};
use crate::urls::{url_last_segment, url_parsed};
use vstd::prelude::*;
use vstd::utf8::encode_utf8;

verus! {

/// What an event brings about: the state and the data after it, and what it
/// writes.
pub struct Transition {
    /// The state after the event.
    pub state: Frames,
    /// The data after the event.
    pub data: PendingLinks,
    /// What the event writes.
    pub output: Seq<char>,
}

/// What the start of a link or an image brings about: the state after it, and
/// what it writes.  The data stay as they are.
pub struct Entered {
    /// The state after the start.
    pub state: Frames,
    /// What the start writes.
    pub output: Seq<char>,
}

impl Entered {
    /// The transition that leaves the data `data` as they are.
    pub open spec fn with_data(self, data: PendingLinks) -> Transition {
        Transition { state: self.state, data, output: self.output }
    }
}

/// The blank line before a block that is not markup held as it is: one
/// unless the margin control says that none goes there.
pub open spec fn block_margin(margin_before: MarginControl) -> Seq<char> {
    if margin_before == MarginControl::NoMargin {
        Seq::empty()
    } else {
        newline()
    }
}

/// The blank line before markup held as it is: one only where the margin
/// control asks for a margin.
pub open spec fn html_margin(margin_before: MarginControl) -> Seq<char> {
    if margin_before == MarginControl::Margin {
        newline()
    } else {
        Seq::empty()
    }
}

/// The marker of a list item: a bullet and a space, or the number in two
/// columns at least, a full stop and a space.
pub open spec fn item_marker(kind: ListItemKind) -> Seq<char> {
    match kind {
        ListItemKind::Unordered => "\u{2022} "@,
        ListItemKind::Ordered(number) => right_aligned(decimal(number as nat), 2) + ". "@,
    }
}

/// The box of an item of a task list.
pub open spec fn task_marker(checked: bool) -> Seq<char> {
    if checked {
        "\u{2611} "@
    } else {
        "\u{2610} "@
    }
}

/// The marker that refers to the link reference of the number `index`.
pub open spec fn reference_marker(index: u64) -> Seq<char> {
    "["@ + decimal(index as nat) + "]"@
}

/// A line break in inline text at the column `indent`.
pub open spec fn line_break(indent: u16) -> Seq<char> {
    newline() + spaces(indent as nat)
}

/// What is written for the lines `lines` of a code block at the column
/// `indent`: each line in `style`, and after each line feed the indent of the
/// line that follows.
pub open spec fn literal_lines(
    capabilities: TerminalCapabilities,
    style: Style,
    indent: u16,
    lines: Seq<Seq<char>>,
) -> Seq<char>
    decreases lines.len(),
{
    if lines.len() == 0 {
        Seq::empty()
    } else {
        let line = lines.last();
        literal_lines(capabilities, style, indent, lines.drop_last()) + styled(
            capabilities,
            style,
            line,
        ) + if ends_with_newline(line) {
            spaces(indent as nat)
        } else {
            Seq::empty()
        }
    }
}

/// The URL that a link of the type `link_type` to `target` leads to: the
/// address as a `mailto` URL for a link that is an email address, else the
/// target read against the base URL.
pub open spec fn link_url(context: Context, link_type: LinkType, target: Seq<char>) -> Option<
    Seq<char>,
> {
    if link_type == LinkType::Email {
        url_parsed("mailto:"@ + target)
    } else {
        context.resolved(target)
    }
}

/// The rules at the top level, with the attributes `attrs`.
pub open spec fn top_level_step(
    context: Context,
    attrs: TopLevelAttrs,
    data: PendingLinks,
    event: Event,
) -> Option<Transition> {
    let capabilities = context.capabilities;
    let margin = block_margin(attrs.margin_before);
    let after = Frames::top(TopLevelAttrs::with(MarginControl::Margin));
    match event {
        Event::Start(Tag::Paragraph) => Some(
            Transition {
                state: after.pushed(Frame::Inline(InlineState::InlineText, InlineAttrs::initial())),
                data,
                output: margin,
            },
        ),
        Event::Start(Tag::Heading(level)) => Some(
            Transition {
                state: after.pushed(
                    Frame::Inline(
                        InlineState::InlineText,
                        InlineAttrs { style: heading_style(Style::plain()), indent: 0 },
                    ),
                ),
                data: data.taken(),
                output: link_refs_text(context, data.pending) + margin + mark_text(capabilities)
                    + heading_marker(capabilities, Style::plain(), level),
            },
        ),
        Event::Start(Tag::BlockQuote) => Some(
            Transition {
                state: after.pushed(
                    Frame::StyledBlock(
                        StyledBlockAttrs::initial().quoted().with_margin(MarginControl::NoMargin),
                    ),
                ),
                data,
                output: margin,
            },
        ),
        Event::Rule => Some(
            Transition {
                state: after,
                data,
                output: margin + rule_text(capabilities, context.size.columns as nat) + newline(),
            },
        ),
        Event::Start(Tag::CodeBlock(kind)) => Some(
            Transition {
                state: after.pushed(code_block(capabilities, context.theme, 0, Style::plain(), kind)),
                data,
                output: margin + code_block_opening(capabilities, context.size, 0),
            },
        ),
        Event::Start(Tag::List(start)) => Some(
            Transition {
                state: after.pushed(
                    Frame::Inline(
                        InlineState::ListItem(
                            ListItemKind::of_start(start),
                            ListItemState::StartItem,
                        ),
                        InlineAttrs::initial(),
                    ),
                ),
                data,
                output: margin,
            },
        ),
        Event::Html(html) => Some(
            Transition {
                state: Frames::top(TopLevelAttrs::with(MarginControl::NoMarginForHtmlOnly)),
                data,
                output: html_margin(attrs.margin_before) + styled(
                    capabilities,
                    Style::plain().with_fg(Colour::Green),
                    html@,
                ),
            },
        ),
        _ => None,
    }
}

/// The rules in a block that holds other blocks, with the attributes `attrs`,
/// above the frames `below`.
pub open spec fn styled_block_step(
    context: Context,
    below: Frames,
    attrs: StyledBlockAttrs,
    data: PendingLinks,
    event: Event,
) -> Option<Transition> {
    let capabilities = context.capabilities;
    let margin = block_margin(attrs.margin_before);
    let indent = spaces(attrs.indent as nat);
    let after = below.pushed(Frame::StyledBlock(attrs.with_margin(MarginControl::Margin)));
    match event {
        Event::Start(Tag::Paragraph) => Some(
            Transition {
                state: after.pushed(Frame::Inline(InlineState::InlineText, attrs.inline())),
                data,
                output: margin + indent,
            },
        ),
        Event::Start(Tag::BlockQuote) => if attrs.indent + 4 <= u16::MAX {
            Some(
                Transition {
                    state: after.pushed(
                        Frame::StyledBlock(attrs.with_margin(MarginControl::NoMargin).quoted()),
                    ),
                    data,
                    output: margin,
                },
            )
        } else {
            None
        },
        Event::Rule => if attrs.indent <= context.size.columns {
            Some(
                Transition {
                    state: after,
                    data,
                    output: margin + indent + rule_text(
                        capabilities,
                        (context.size.columns - attrs.indent) as nat,
                    ) + newline(),
                },
            )
        } else {
            None
        },
        Event::Start(Tag::Heading(level)) => Some(
            Transition {
                state: after.pushed(
                    Frame::Inline(
                        InlineState::InlineText,
                        InlineAttrs { style: heading_style(attrs.style), indent: attrs.indent },
                    ),
                ),
                data,
                output: margin + indent + heading_marker(capabilities, attrs.style, level),
            },
        ),
        Event::Start(Tag::List(start)) => Some(
            Transition {
                state: after.pushed(
                    Frame::Inline(
                        InlineState::ListItem(
                            ListItemKind::of_start(start),
                            ListItemState::StartItem,
                        ),
                        attrs.inline(),
                    ),
                ),
                data,
                output: margin,
            },
        ),
        Event::Start(Tag::CodeBlock(kind)) => Some(
            Transition {
                state: after.pushed(code_block(capabilities, context.theme, attrs.indent, attrs.style, kind)),
                data,
                output: margin + code_block_opening(capabilities, context.size, attrs.indent),
            },
        ),
        Event::Html(html) => Some(
            Transition {
                state: below.pushed(
                    Frame::StyledBlock(attrs.with_margin(MarginControl::NoMarginForHtmlOnly)),
                ),
                data,
                output: html_margin(attrs.margin_before) + indent + styled(
                    capabilities,
                    attrs.style.with_fg(Colour::Green),
                    html@,
                ),
            },
        ),
        Event::End(Tag::BlockQuote) | Event::End(Tag::List(_)) => Some(
            Transition { state: below, data, output: Seq::empty() },
        ),
        _ => None,
    }
}

/// The rules for the start of a link of the type `link_type` to `target` in
/// inline text: where the terminal shows links and the target leads to a
/// URL, the text that follows is a link to that URL; else it is plain text.
/// Either way it is blue.
pub open spec fn link_start(
    context: Context,
    current: Frames,
    attrs: InlineAttrs,
    link_type: LinkType,
    target: Seq<char>,
) -> Entered {
    let inside = InlineAttrs { indent: attrs.indent, style: attrs.style.with_fg(Colour::Blue) };
    match (context.capabilities.links, link_url(context, link_type, target)) {
        (Some(capability), Some(url)) => Entered {
            state: current.pushed(Frame::Inline(InlineState::InlineLink(capability), inside)),
            output: link_command(link_destination(url, context.hostname)),
        },
        _ => Entered {
            state: current.pushed(Frame::Inline(InlineState::InlineText, inside)),
            output: Seq::empty(),
        },
    }
}

/// What shows the image at `url`, from what was fetched of it: none where
/// the way `capability` of showing images cannot show it, because what it
/// needs was not fetched or, for kitty, the size of the terminal in pixels is
/// not known.
pub open spec fn image_shown(
    context: Context,
    capability: ImageCapability,
    url: Seq<char>,
    fetched: Fetched,
) -> Option<Seq<char>> {
    match capability {
        ImageCapability::Terminology(_) => {
            let lines = match fetched {
                Fetched::Lines(lines) => Some(lines),
                _ => None,
            };
            Some(image_command(context.size.columns as nat, image_lines(context.size, lines), url))
        },
        ImageCapability::ITerm2(_) => match fetched {
            Fetched::Contents(contents) => Some(
                osc(file_command(url_last_segment(url), contents@)),
            ),
            _ => None,
        },
        ImageCapability::Kitty(_) => match (context.size.pixels, fetched) {
            (Some(_), Fetched::Kitty(image)) => Some(image_commands(image)),
            _ => None,
        },
    }
}

/// Whether what was fetched of the image at `url` can be encoded for the way
/// `capability` of showing images: an image may be too large for that.
pub open spec fn image_encodable(
    context: Context,
    capability: ImageCapability,
    url: Seq<char>,
    fetched: Fetched,
) -> bool {
    match (capability, fetched) {
        (ImageCapability::ITerm2(_), Fetched::Contents(contents)) => base64_fits(contents@.len())
            && (url_last_segment(url) matches Some(name) ==> base64_fits(
            encode_utf8(name).len(),
        )),
        (ImageCapability::Kitty(_), Fetched::Kitty(image)) => context.size.pixels is Some
            ==> base64_fits(image.contents@.len()),
        _ => true,
    }
}

/// The rules for the start of an image at `target` in inline text of the
/// state `state`.
///
/// Where the terminal shows images, the target leads to a URL, and the image
/// can be shown from what was fetched of it, the image is shown and its text
/// is left out.  An image that is not shown is written as a link: a link of
/// the terminal where it has such links and the target leads to a URL, else
/// plain text that a reference follows.  Both are purple, but in a link,
/// where the image stays plain text in the colour of the link, because a
/// click follows the link, not the image.  Images come before links: a
/// terminal with both shows the image.
///
/// There is no rule for an image that is too large to encode.
pub open spec fn image_start(
    context: Context,
    current: Frames,
    state: InlineState,
    attrs: InlineAttrs,
    target: Seq<char>,
    fetched: Fetched,
) -> Option<Entered> {
    let purple = InlineAttrs { indent: attrs.indent, style: attrs.style.with_fg(Colour::Purple) };
    let as_text = Entered {
        state: current.pushed(
            Frame::Inline(
                InlineState::InlineText,
                if state is InlineLink {
                    attrs
                } else {
                    purple
                },
            ),
        ),
        output: Seq::empty(),
    };
    let as_link = |url: Seq<char>|
        match (state, context.capabilities.links) {
            (InlineState::InlineLink(_), _) => as_text,
            (_, Some(capability)) => Entered {
                state: current.pushed(Frame::Inline(InlineState::InlineLink(capability), purple)),
                output: link_command(link_destination(url, context.hostname)),
            },
            (_, None) => as_text,
        };
    match (context.capabilities.image, context.resolved(target)) {
        (Some(capability), Some(url)) => if image_encodable(context, capability, url, fetched) {
            match image_shown(context, capability, url, fetched) {
                Some(output) => Some(
                    Entered { state: current.pushed(Frame::RenderedImage), output },
                ),
                None => Some(as_link(url)),
            }
        } else {
            None
        },
        (None, Some(url)) => Some(as_link(url)),
        (_, None) => Some(as_text),
    }
}

/// The rules for the end of a link or an image that was written as text in
/// the style `style`: the link waits to be written out, and a marker in
/// `colour` refers to it.  There is no rule once the numbers have run out.
pub open spec fn reference_added(
    context: Context,
    below: Frames,
    style: Style,
    data: PendingLinks,
    target: Seq<char>,
    title: Seq<char>,
    colour: Colour,
) -> Option<Transition> {
    if data.next_link < u64::MAX {
        Some(
            Transition {
                state: below,
                data: data.added(target, title, colour),
                output: styled(
                    context.capabilities,
                    style.with_fg(colour),
                    reference_marker(data.next_link),
                ),
            },
        )
    } else {
        None
    }
}

/// The rules in inline text of the state `state` with the attributes `attrs`,
/// above the frames `below`.
pub open spec fn inline_step(
    context: Context,
    below: Frames,
    state: InlineState,
    attrs: InlineAttrs,
    data: PendingLinks,
    event: Event,
    fetched: Fetched,
) -> Option<Transition> {
    let capabilities = context.capabilities;
    let current = below.pushed(Frame::Inline(state, attrs));
    let same = |output: Seq<char>| Some(Transition { state: current, data, output });
    let inside = |style: Style|
        Some(
            Transition {
                state: current.pushed(Frame::Inline(state, InlineAttrs { style, indent: attrs.indent })),
                data,
                output: Seq::empty(),
            },
        );
    let back = |output: Seq<char>| Some(Transition { state: below, data, output });
    match event {
        Event::Start(Tag::Emphasis) => inside(attrs.style.with_italic_toggled()),
        Event::Start(Tag::Strong) => inside(attrs.style.with_bold()),
        Event::Start(Tag::Strikethrough) => inside(attrs.style.with_strikethrough()),
        Event::End(Tag::Emphasis) | Event::End(Tag::Strong) | Event::End(Tag::Strikethrough) => back(
            Seq::empty(),
        ),
        Event::Code(code) => same(styled(capabilities, attrs.style.with_fg(Colour::Yellow), code@)),
        Event::SoftBreak | Event::HardBreak => same(line_break(attrs.indent)),
        Event::Text(text) => same(styled(capabilities, attrs.style, text@)),
        Event::Html(html) => same(styled(capabilities, attrs.style.with_fg(Colour::Green), html@)),
        Event::End(Tag::Paragraph) | Event::End(Tag::Heading(_)) => back(newline()),
        Event::Start(Tag::Link(link_type, target, _)) => Some(
            link_start(context, current, attrs, link_type, target@).with_data(data),
        ),
        Event::End(Tag::Link(link_type, target, title)) => match state {
            InlineState::InlineLink(_) => back(link_command(Seq::empty())),
            InlineState::InlineText => if link_type == LinkType::Autolink || link_type
                == LinkType::Email {
                back(Seq::empty())
            } else {
                reference_added(context, below, attrs.style, data, target@, title@, Colour::Blue)
            },
            InlineState::ListItem(_, _) => None,
        },
        Event::Start(Tag::Image(_, target, _)) => match image_start(
            context,
            current,
            state,
            attrs,
            target@,
            fetched,
        ) {
            Some(entered) => Some(entered.with_data(data)),
            None => None,
        },
        Event::End(Tag::Image(_, target, title)) => match state {
            InlineState::InlineLink(_) => back(link_command(Seq::empty())),
            _ => reference_added(context, below, attrs.style, data, target@, title@, Colour::Purple),
        },
        Event::End(Tag::BlockQuote) | Event::End(Tag::List(_)) => back(Seq::empty()),
        _ => None,
    }
}

/// The rules in an item of a list of the kind `kind` that has got as far as
/// `progress`, above the frames `below`.  What is not a matter of the item is
/// a matter of inline text.
pub open spec fn list_item_step(
    context: Context,
    below: Frames,
    kind: ListItemKind,
    progress: ListItemState,
    attrs: InlineAttrs,
    data: PendingLinks,
    event: Event,
    fetched: Fetched,
) -> Option<Transition> {
    let capabilities = context.capabilities;
    let indent = spaces(attrs.indent as nat);
    let item = |progress: ListItemState| Frame::Inline(InlineState::ListItem(kind, progress), attrs);
    let after = below.pushed(item(ListItemState::ItemBlock));
    let beside_marker = if progress == ListItemState::StartItem {
        Seq::empty()
    } else {
        newline() + indent
    };
    match event {
        Event::Start(Tag::Item) => if attrs.indent + kind.marker_width() <= u16::MAX {
            Some(
                Transition {
                    state: below.pushed(
                        Frame::Inline(
                            InlineState::ListItem(kind, ListItemState::StartItem),
                            InlineAttrs {
                                indent: (attrs.indent + kind.marker_width()) as u16,
                                style: attrs.style,
                            },
                        ),
                    ),
                    data,
                    output: (if progress == ListItemState::ItemBlock {
                        newline()
                    } else {
                        Seq::empty()
                    }) + indent + item_marker(kind),
                },
            )
        } else {
            None
        },
        Event::Start(Tag::Paragraph) => Some(
            Transition {
                state: after.pushed(Frame::Inline(InlineState::InlineText, attrs)),
                data,
                output: beside_marker,
            },
        ),
        Event::Start(Tag::CodeBlock(kind)) => Some(
            Transition {
                state: after.pushed(code_block(capabilities, context.theme, attrs.indent, attrs.style, kind)),
                data,
                output: newline() + code_block_opening(capabilities, context.size, attrs.indent),
            },
        ),
        Event::Rule => if attrs.indent <= context.size.columns {
            Some(
                Transition {
                    state: after,
                    data,
                    output: newline() + indent + rule_text(
                        capabilities,
                        (context.size.columns - attrs.indent) as nat,
                    ) + newline(),
                },
            )
        } else {
            None
        },
        Event::Start(Tag::Heading(level)) => Some(
            Transition {
                state: after.pushed(
                    Frame::Inline(
                        InlineState::InlineText,
                        InlineAttrs { style: heading_style(attrs.style), indent: attrs.indent },
                    ),
                ),
                data,
                output: beside_marker + heading_marker(capabilities, attrs.style, level),
            },
        ),
        Event::Start(Tag::List(start)) => Some(
            Transition {
                state: after.pushed(
                    Frame::Inline(
                        InlineState::ListItem(
                            ListItemKind::of_start(start),
                            ListItemState::StartItem,
                        ),
                        attrs,
                    ),
                ),
                data,
                output: newline(),
            },
        ),
        Event::Start(Tag::BlockQuote) => if attrs.indent + 4 <= u16::MAX {
            Some(
                Transition {
                    state: after.pushed(
                        Frame::StyledBlock(
                            attrs.block().with_margin(MarginControl::NoMargin).quoted(),
                        ),
                    ),
                    data,
                    output: newline(),
                },
            )
        } else {
            None
        },
        Event::End(Tag::Item) => if attrs.indent >= kind.marker_width() && !(kind
            == ListItemKind::Ordered(u64::MAX)) {
            Some(
                Transition {
                    state: below.pushed(
                        Frame::Inline(
                            InlineState::ListItem(kind.next(), progress),
                            InlineAttrs {
                                indent: (attrs.indent - kind.marker_width()) as u16,
                                style: attrs.style,
                            },
                        ),
                    ),
                    data,
                    output: if progress == ListItemState::ItemBlock {
                        Seq::empty()
                    } else {
                        newline()
                    },
                },
            )
        } else {
            None
        },
        Event::TaskListMarker(checked) => Some(
            Transition {
                state: below.pushed(item(progress)),
                data,
                output: styled(capabilities, attrs.style, task_marker(checked)),
            },
        ),
        Event::Text(text) => if progress == ListItemState::ItemBlock {
            Some(
                Transition {
                    state: below.pushed(item(ListItemState::ItemText)),
                    data,
                    output: indent + styled(capabilities, attrs.style, text@),
                },
            )
        } else {
            inline_step(context, below, InlineState::ListItem(kind, progress), attrs, data, event, fetched)
        },
        Event::Html(html) => if progress == ListItemState::ItemBlock {
            Some(
                Transition {
                    state: below.pushed(item(ListItemState::ItemText)),
                    data,
                    output: indent + styled(capabilities, attrs.style.with_fg(Colour::Green), html@),
                },
            )
        } else {
            inline_step(context, below, InlineState::ListItem(kind, progress), attrs, data, event, fetched)
        },
        _ => inline_step(
            context,
            below,
            InlineState::ListItem(kind, progress),
            attrs,
            data,
            event,
            fetched,
        ),
    }
}

/// The rules for the events that end a code block, above the frames `below`:
/// the end of the block writes the border.
pub open spec fn code_block_end(context: Context, below: Frames, data: PendingLinks, event: Event) -> Option<
    Transition,
> {
    match event {
        Event::End(Tag::CodeBlock(_)) => Some(
            Transition {
                state: below,
                data,
                output: border_text(context.capabilities, context.size),
            },
        ),
        Event::End(Tag::BlockQuote) | Event::End(Tag::List(_)) => Some(
            Transition { state: below, data, output: Seq::empty() },
        ),
        _ => None,
    }
}

/// The rules in a code block that is written as it is, above the frames
/// `below`: a text of code is written line by line, in the style of the
/// block.
pub open spec fn literal_block_step(
    context: Context,
    below: Frames,
    attrs: LiteralBlockAttrs,
    data: PendingLinks,
    event: Event,
) -> Option<Transition> {
    match event {
        Event::Text(code) => Some(
            Transition {
                state: below.pushed(Frame::LiteralBlock(attrs)),
                data,
                output: literal_lines(
                    context.capabilities,
                    attrs.style,
                    attrs.indent,
                    lines_with_endings(code@),
                ),
            },
        ),
        _ => code_block_end(context, below, data, event),
    }
}

/// The rules in a code block that is highlighted, above the frames `below`:
/// a text of code is written line by line, each line in the runs that follow
/// from the lines before it; and its lines are lines of the block from then
/// on, so that the highlighter goes on where it was from text to text.
pub open spec fn highlight_block_step(
    context: Context,
    below: Frames,
    indent: u16,
    highlighted: Highlighted,
    data: PendingLinks,
    event: Event,
) -> Option<Transition> {
    match event {
        Event::Text(code) => Some(
            Transition {
                state: below.pushed(
                    Frame::HighlightBlock(indent, highlighted.after(lines_with_endings(code@))),
                ),
                data,
                output: highlighted_code(highlighted, indent, lines_with_endings(code@)),
            },
        ),
        _ => code_block_end(context, below, data, event),
    }
}

/// The rules after an image that was shown, above the frames `below`: the
/// text of the image is left out.
pub open spec fn rendered_image_step(below: Frames, data: PendingLinks, event: Event) -> Option<
    Transition,
> {
    match event {
        Event::Text(_) => Some(
            Transition { state: below.pushed(Frame::RenderedImage), data, output: Seq::empty() },
        ),
        Event::End(Tag::Image(_, _, _)) | Event::End(Tag::BlockQuote) | Event::End(
            Tag::List(_),
        ) => Some(Transition { state: below, data, output: Seq::empty() }),
        _ => None,
    }
}

/// The rules of rendering: what `event` brings about in the state `state`
/// with the data `data`, where `fetched` is what the caller fetched for the
/// event.  None where there is no rule for the event in that state, or where
/// a column or a number would leave the range of the machine.
pub open spec fn transition(
    context: Context,
    state: Frames,
    data: PendingLinks,
    event: Event,
    fetched: Fetched,
) -> Option<Transition> {
    if state.is_top_level() {
        top_level_step(context, state.top_level, data, event)
    } else {
        let below = state.popped();
        match state.current() {
            Frame::StyledBlock(attrs) => styled_block_step(context, below, attrs, data, event),
            Frame::Inline(InlineState::ListItem(kind, progress), attrs) => list_item_step(
                context,
                below,
                kind,
                progress,
                attrs,
                data,
                event,
                fetched,
            ),
            Frame::Inline(inline, attrs) => inline_step(
                context,
                below,
                inline,
                attrs,
                data,
                event,
                fetched,
            ),
            Frame::LiteralBlock(attrs) => literal_block_step(context, below, attrs, data, event),
            Frame::HighlightBlock(indent, highlighted) => highlight_block_step(
                context,
                below,
                indent,
                highlighted,
                data,
                event,
            ),
            Frame::RenderedImage => rendered_image_step(below, data, event),
        }
    }
}

/// Whether `next` is the state after `event` in the state `state`, for some
/// data and something fetched.
pub open spec fn may_follow(context: Context, state: Frames, event: Event, next: Frames) -> bool {
    exists|data: PendingLinks, fetched: Fetched|
        (#[trigger] transition(context, state, data, event, fetched)) matches Some(t) && t.state
            == next
}

} // verus!
