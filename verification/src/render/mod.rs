//! Rendering algorithm.
//!
//! A document is rendered event by event: `write_event` takes the state and
//! the data of the rendering and one event, appends what the event writes to
//! a `String`, and gives the state and the data for the next event.  `finish`
//! writes what is left at the end.  The rules that say what each event does
//! in each state stand in `rules`, and what holds of them in `laws`.

pub mod data;
pub mod highlighting;
pub mod images;
pub mod laws;
pub mod rules;
pub mod state;
pub mod write;

use crate::events::{Event, LinkType, Tag};
use crate::render::data::StateData;
use crate::render::highlighting::{highlighted_code, split_lines, texts_of, write_as_ansi};
use crate::render::images::Fetched;
use crate::render::rules::{
    block_margin, highlight_block_step, html_margin, image_start, inline_step, link_start,
    list_item_step, literal_block_step, literal_lines, reference_added, rendered_image_step,
    styled_block_step, top_level_step, transition,
};
use crate::render::state::{
    lemma_pushed, Frame, Frames, HighlightBlockAttrs, InlineAttrs, InlineState, ListItemKind,
    ListItemState, LiteralBlockAttrs, MarginControl, StackedState, State, StateStack,
    StyledBlockAttrs, TopLevelAttrs,
};
use crate::render::write::{
    link_refs_text, write_border, write_indent, write_link_refs,
    write_mark, write_rule, write_start_code_block, write_start_heading, write_styled,
};
use crate::settings::{Context, Environment, Settings};
use crate::terminal::ansi::{Colour, Style};
use crate::terminal::encoding::can_encode;
use crate::terminal::osc::{link_command, link_destination};
use crate::terminal::{ImageCapability, LinkCapability, TerminalCapabilities};
use crate::text::{has_newline_at_end, lines_with_endings, push_decimal, push_two_columns};
use crate::urls;
use vstd::pervasive::unreached;
use vstd::prelude::*;
use vstd::string::StringExecFns;

verus! {

/// Write what `event` brings about at the top level.
fn top_level_event(
    out: &mut String,
    settings: &Settings,
    environment: &Environment,
    attrs: TopLevelAttrs,
    data: StateData,
    event: Event,
) -> (next: (State, StateData))
    requires
        top_level_step(Context::of(settings, environment), attrs, data@, event) is Some,
    ensures
        ({
            let context = Context::of(settings, environment);
            let t = top_level_step(context, attrs, data@, event).unwrap();
            &&& next.0@ == t.state
            &&& next.1@ == t.data
        }),
        final(out)@ == old(out)@ + top_level_step(
            Context::of(settings, environment),
            attrs,
            data@,
            event,
        ).unwrap().output,
{
    let capabilities = &settings.terminal_capabilities;
    let after = TopLevelAttrs::margin_before();
    match event {
        Event::Start(Tag::Paragraph) => {
            write_block_margin(out, attrs.margin_before);
            (
                State::stack_onto(after).current(
                    StackedState::Inline(InlineState::InlineText, InlineAttrs::new()),
                ),
                data,
            )
        },
        Event::Start(Tag::Heading(level)) => {
            let (data, links) = data.take_links();
            write_link_refs(out, settings, environment, links);
            write_block_margin(out, attrs.margin_before);
            write_mark(out, capabilities);
            let heading = write_start_heading(out, capabilities, Style::new(), 0, level);
            (State::stack_onto(after).current(heading), data)
        },
        Event::Start(Tag::BlockQuote) => {
            write_block_margin(out, attrs.margin_before);
            (
                State::stack_onto(after).current(
                    StackedState::StyledBlock(
                        StyledBlockAttrs::new().block_quote().without_margin_before(),
                    ),
                ),
                data,
            )
        },
        Event::Rule => {
            write_block_margin(out, attrs.margin_before);
            write_rule(out, capabilities, settings.terminal_size.columns);
            out.append("\n");
            (State::TopLevel(after), data)
        },
        Event::Start(Tag::CodeBlock(kind)) => {
            write_block_margin(out, attrs.margin_before);
            let block = write_start_code_block(out, settings, 0, Style::new(), kind);
            (
                State::stack_onto(after).current(block),
                data,
            )
        },
        Event::Start(Tag::List(start)) => {
            write_block_margin(out, attrs.margin_before);
            (
                State::stack_onto(after).current(
                    StackedState::Inline(
                        InlineState::ListItem(
                            ListItemKind::from_start(start),
                            ListItemState::StartItem,
                        ),
                        InlineAttrs::new(),
                    ),
                ),
                data,
            )
        },
        Event::Html(html) => {
            write_html_margin(out, attrs.margin_before);
            write_styled(out, capabilities, &Style::new().fg(Colour::Green), html.as_str());
            (State::TopLevel(TopLevelAttrs::no_margin_for_html_only()), data)
        },
        _ => unreached(),
    }
}

/// Write the blank line before a block, where one goes there.
fn write_block_margin(out: &mut String, margin_before: MarginControl)
    ensures
        final(out)@ == old(out)@ + block_margin(margin_before),
{
    match margin_before {
        MarginControl::NoMargin => {
            assert(out@ + Seq::<char>::empty() =~= out@);
        },
        _ => out.append("\n"),
    }
}

/// Write the blank line before markup held as it is, where one goes there.
fn write_html_margin(out: &mut String, margin_before: MarginControl)
    ensures
        final(out)@ == old(out)@ + html_margin(margin_before),
{
    match margin_before {
        MarginControl::Margin => out.append("\n"),
        _ => {
            assert(out@ + Seq::<char>::empty() =~= out@);
        },
    }
}

/// Write what `event` brings about in a block that holds other blocks.
fn styled_block_event(
    out: &mut String,
    settings: &Settings,
    stack: StateStack,
    attrs: StyledBlockAttrs,
    data: StateData,
    event: Event,
    Ghost(context): Ghost<Context>,
) -> (next: (State, StateData))
    requires
        context.capabilities == settings.terminal_capabilities,
        context.size == settings.terminal_size,
        context.theme == settings.theme@,
        styled_block_step(context, stack@, attrs, data@, event) is Some,
    ensures
        ({
            let t = styled_block_step(context, stack@, attrs, data@, event).unwrap();
            &&& next.0@ == t.state
            &&& next.1@ == t.data
        }),
        final(out)@ == old(out)@ + styled_block_step(context, stack@, attrs, data@, event).unwrap().output,
{
    let capabilities = &settings.terminal_capabilities;
    let after = StackedState::StyledBlock(attrs.with_margin_before());
    match event {
        Event::Start(Tag::Paragraph) => {
            write_block_margin(out, attrs.margin_before);
            write_indent(out, attrs.indent);
            (
                stack.push(after).current(
                    StackedState::Inline(InlineState::InlineText, attrs.to_inline()),
                ),
                data,
            )
        },
        Event::Start(Tag::BlockQuote) => {
            write_block_margin(out, attrs.margin_before);
            (
                stack.push(after).current(
                    StackedState::StyledBlock(attrs.without_margin_before().block_quote()),
                ),
                data,
            )
        },
        Event::Rule => {
            write_block_margin(out, attrs.margin_before);
            write_indent(out, attrs.indent);
            write_rule(out, capabilities, settings.terminal_size.columns - (attrs.indent as usize));
            out.append("\n");
            (stack.current(after), data)
        },
        Event::Start(Tag::Heading(level)) => {
            write_block_margin(out, attrs.margin_before);
            write_indent(out, attrs.indent);
            let heading = write_start_heading(out, capabilities, attrs.style, attrs.indent, level);
            (stack.push(after).current(heading), data)
        },
        Event::Start(Tag::List(start)) => {
            write_block_margin(out, attrs.margin_before);
            (
                stack.push(after).current(
                    StackedState::Inline(
                        InlineState::ListItem(
                            ListItemKind::from_start(start),
                            ListItemState::StartItem,
                        ),
                        attrs.to_inline(),
                    ),
                ),
                data,
            )
        },
        Event::Start(Tag::CodeBlock(kind)) => {
            write_block_margin(out, attrs.margin_before);
            let block = write_start_code_block(
                out,
                settings,
                attrs.indent,
                attrs.style,
                kind,
            );
            (
                stack.push(after).current(block),
                data,
            )
        },
        Event::Html(html) => {
            write_html_margin(out, attrs.margin_before);
            write_indent(out, attrs.indent);
            write_styled(out, capabilities, &attrs.style.fg(Colour::Green), html.as_str());
            (
                stack.current(StackedState::StyledBlock(attrs.without_margin_for_html_only())),
                data,
            )
        },
        Event::End(Tag::BlockQuote) | Event::End(Tag::List(_)) => {
            assert(out@ + Seq::<char>::empty() =~= out@);
            (stack.pop(), data)
        },
        _ => unreached(),
    }
}

/// Start inline text with the attributes `attrs` above the frames `below`
/// that is a link to `destination` where the terminal shows links and there
/// is a destination, and plain text where not.
pub fn enter_link(
    out: &mut String,
    capabilities: &TerminalCapabilities,
    below: StateStack,
    attrs: InlineAttrs,
    destination: Option<&str>,
) -> (next: State)
    ensures
        match (capabilities.links, destination) {
            (Some(capability), Some(destination)) => next@ == below@.pushed(
                Frame::Inline(InlineState::InlineLink(capability), attrs),
            ) && final(out)@ == old(out)@ + link_command(destination@),
            _ => final(out)@ == old(out)@ && next@ == below@.pushed(
                Frame::Inline(InlineState::InlineText, attrs),
            ),
        },
{
    match (capabilities.links, destination) {
        (Some(LinkCapability::OSC8(links)), Some(destination)) => {
            links.set_link(out, destination);
            below.current(
                StackedState::Inline(InlineState::InlineLink(LinkCapability::OSC8(links)), attrs),
            )
        },
        _ => below.current(StackedState::Inline(InlineState::InlineText, attrs)),
    }
}

/// The destination to name for the URL `url`, where there is a URL and the
/// terminal shows links.
fn destination_of(
    capabilities: &TerminalCapabilities,
    environment: &Environment,
    url: &Option<String>,
) -> (r: Option<String>)
    ensures
        urls::text_of(r) == (match (capabilities.links, urls::text_of(*url)) {
            (Some(_), Some(url)) => Some(
                link_destination(url, environment.hostname@),
            ),
            _ => None,
        }),
{
    match (capabilities.links, url) {
        (Some(LinkCapability::OSC8(links)), Some(url)) => Some(
            links.destination(url.as_str(), environment.hostname.as_str()),
        ),
        _ => None,
    }
}

/// Write the start of a link of the type `link_type` to `target`, and give
/// the state in which the text of the link is the current frame.
fn start_link(
    out: &mut String,
    settings: &Settings,
    environment: &Environment,
    current: StateStack,
    attrs: InlineAttrs,
    link_type: LinkType,
    target: String,
) -> (next: State)
    ensures
        ({
            let t = link_start(
                Context::of(settings, environment),
                current@,
                attrs,
                link_type,
                target@,
            );
            &&& next@ == t.state
            &&& final(out)@ == old(out)@ + t.output
        }),
{
    let inside = InlineAttrs { indent: attrs.indent, style: attrs.style.fg(Colour::Blue) };
    let url = if link_type == LinkType::Email {
        let mut address = String::from_str("mailto:");
        address.append(target.as_str());
        urls::parse(address.as_str())
    } else {
        environment.resolve_reference(target.as_str())
    };
    let destination = destination_of(&settings.terminal_capabilities, environment, &url);
    let destination = match &destination {
        Some(destination) => Some(destination.as_str()),
        None => None,
    };
    assert(out@ + Seq::<char>::empty() =~= out@);
    enter_link(out, &settings.terminal_capabilities, current, inside, destination)
}

/// Write the start of an image at `target`, from what was fetched of it, and
/// give the state in which the image is the current frame.
fn start_image(
    out: &mut String,
    settings: &Settings,
    environment: &Environment,
    current: StateStack,
    state: InlineState,
    attrs: InlineAttrs,
    target: String,
    fetched: Fetched,
) -> (next: State)
    requires
        image_start(
            Context::of(settings, environment),
            current@,
            state,
            attrs,
            target@,
            fetched,
        ) is Some,
    ensures
        ({
            let t = image_start(
                Context::of(settings, environment),
                current@,
                state,
                attrs,
                target@,
                fetched,
            ).unwrap();
            &&& next@ == t.state
            &&& final(out)@ == old(out)@ + t.output
        }),
{
    let size = settings.terminal_size;
    let purple = InlineAttrs { indent: attrs.indent, style: attrs.style.fg(Colour::Purple) };
    let in_link = match state {
        InlineState::InlineLink(_) => true,
        _ => false,
    };
    let ghost before = out@;
    assert(before + Seq::<char>::empty() =~= before);
    let url = environment.resolve_reference(target.as_str());
    let shown = match (settings.terminal_capabilities.image, &url) {
        (Some(ImageCapability::Terminology(terminology)), Some(url)) => {
            let lines = match fetched {
                Fetched::Lines(lines) => Some(lines),
                _ => None,
            };
            terminology.write_inline_image(out, size, lines, url.as_str());
            true
        },
        (Some(ImageCapability::ITerm2(iterm2)), Some(url)) => match fetched {
            Fetched::Contents(contents) => {
                let name = urls::last_segment(url.as_str());
                let name = match &name {
                    Some(name) => Some(name.as_str()),
                    None => None,
                };
                iterm2.write_inline_image(out, name, contents.as_slice());
                true
            },
            _ => false,
        },
        (Some(ImageCapability::Kitty(kitty)), Some(url)) => match (size.pixels, fetched) {
            (Some(_), Fetched::Kitty(image)) => {
                kitty.write_inline_image(out, image);
                true
            },
            _ => false,
        },
        _ => false,
    };
    if shown {
        current.current(StackedState::RenderedImage)
    } else if in_link {
        current.current(StackedState::Inline(InlineState::InlineText, attrs))
    } else {
        let destination = destination_of(&settings.terminal_capabilities, environment, &url);
        let destination = match &destination {
            Some(destination) => Some(destination.as_str()),
            None => None,
        };
        enter_link(out, &settings.terminal_capabilities, current, purple, destination)
    }
}

/// End a link or an image that was written as text in the style `style`: add
/// it to the links that wait, and write the marker that refers to it.
fn add_reference(
    out: &mut String,
    capabilities: &TerminalCapabilities,
    below: StateStack,
    style: Style,
    data: StateData,
    target: String,
    title: String,
    colour: Colour,
    Ghost(context): Ghost<Context>,
) -> (next: (State, StateData))
    requires
        context.capabilities == *capabilities,
        data.next_link < u64::MAX,
    ensures
        ({
            let t = reference_added(
                context,
                below@,
                style,
                data@,
                target@,
                title@,
                colour,
            ).unwrap();
            &&& next.0@ == t.state
            &&& next.1@ == t.data
            &&& final(out)@ == old(out)@ + t.output
        }),
{
    let (data, index) = data.add_link(target, title, colour);
    let mut marker = String::from_str("[");
    push_decimal(&mut marker, index);
    marker.append("]");
    write_styled(out, capabilities, &style.fg(colour), marker.as_str());
    (below.pop(), data)
}

/// Write what `event` brings about in inline text.
fn inline_event(
    out: &mut String,
    settings: &Settings,
    environment: &Environment,
    stack: StateStack,
    state: InlineState,
    attrs: InlineAttrs,
    data: StateData,
    event: Event,
    fetched: Fetched,
) -> (next: (State, StateData))
    requires
        inline_step(
            Context::of(settings, environment),
            stack@,
            state,
            attrs,
            data@,
            event,
            fetched,
        ) is Some,
    ensures
        ({
            let t = inline_step(
                Context::of(settings, environment),
                stack@,
                state,
                attrs,
                data@,
                event,
                fetched,
            ).unwrap();
            &&& next.0@ == t.state
            &&& next.1@ == t.data
            &&& final(out)@ == old(out)@ + t.output
        }),
{
    let capabilities = &settings.terminal_capabilities;
    let ghost context = Context::of(settings, environment);
    let ghost before = out@;
    assert(before + Seq::<char>::empty() =~= before);
    let frame = StackedState::Inline(state, attrs);
    match event {
        Event::Start(Tag::Emphasis) => {
            let style = attrs.style.toggle_italic();
            (
                stack.push(frame).current(
                    StackedState::Inline(state, InlineAttrs { style, indent: attrs.indent }),
                ),
                data,
            )
        },
        Event::Start(Tag::Strong) => {
            let style = attrs.style.bold();
            (
                stack.push(frame).current(
                    StackedState::Inline(state, InlineAttrs { style, indent: attrs.indent }),
                ),
                data,
            )
        },
        Event::Start(Tag::Strikethrough) => {
            let style = attrs.style.strikethrough();
            (
                stack.push(frame).current(
                    StackedState::Inline(state, InlineAttrs { style, indent: attrs.indent }),
                ),
                data,
            )
        },
        Event::End(Tag::Emphasis) | Event::End(Tag::Strong) | Event::End(Tag::Strikethrough) => (
            stack.pop(),
            data,
        ),
        Event::Code(code) => {
            write_styled(out, capabilities, &attrs.style.fg(Colour::Yellow), code.as_str());
            (stack.current(frame), data)
        },
        Event::SoftBreak | Event::HardBreak => {
            out.append("\n");
            write_indent(out, attrs.indent);
            (stack.current(frame), data)
        },
        Event::Text(text) => {
            write_styled(out, capabilities, &attrs.style, text.as_str());
            (stack.current(frame), data)
        },
        Event::Html(html) => {
            write_styled(out, capabilities, &attrs.style.fg(Colour::Green), html.as_str());
            (stack.current(frame), data)
        },
        Event::End(Tag::Paragraph) | Event::End(Tag::Heading(_)) => {
            out.append("\n");
            (stack.pop(), data)
        },
        Event::Start(Tag::Link(link_type, target, _)) => {
            let next = start_link(
                out,
                settings,
                environment,
                stack.push(frame),
                attrs,
                link_type,
                target,
            );
            (next, data)
        },
        Event::End(Tag::Link(link_type, target, title)) => match state {
            InlineState::InlineLink(LinkCapability::OSC8(links)) => {
                links.clear_link(out);
                (stack.pop(), data)
            },
            InlineState::InlineText => {
                if link_type == LinkType::Autolink || link_type == LinkType::Email {
                    (stack.pop(), data)
                } else {
                    add_reference(
                        out,
                        capabilities,
                        stack,
                        attrs.style,
                        data,
                        target,
                        title,
                        Colour::Blue,
                        Ghost(context),
                    )
                }
            },
            InlineState::ListItem(_, _) => unreached(),
        },
        Event::Start(Tag::Image(_, target, _)) => {
            let next = start_image(
                out,
                settings,
                environment,
                stack.push(frame),
                state,
                attrs,
                target,
                fetched,
            );
            (next, data)
        },
        Event::End(Tag::Image(_, target, title)) => match state {
            InlineState::InlineLink(LinkCapability::OSC8(links)) => {
                links.clear_link(out);
                (stack.pop(), data)
            },
            _ => add_reference(
                out,
                capabilities,
                stack,
                attrs.style,
                data,
                target,
                title,
                Colour::Purple,
                Ghost(context),
            ),
        },
        Event::End(Tag::BlockQuote) | Event::End(Tag::List(_)) => (stack.pop(), data),
        _ => unreached(),
    }
}

/// Write what `event` brings about in an item of a list.
#[verifier::rlimit(40)]
fn list_item_event(
    out: &mut String,
    settings: &Settings,
    environment: &Environment,
    stack: StateStack,
    kind: ListItemKind,
    progress: ListItemState,
    attrs: InlineAttrs,
    data: StateData,
    event: Event,
    fetched: Fetched,
) -> (next: (State, StateData))
    requires
        list_item_step(
            Context::of(settings, environment),
            stack@,
            kind,
            progress,
            attrs,
            data@,
            event,
            fetched,
        ) is Some,
    ensures
        ({
            let context = Context::of(settings, environment);
            let t = list_item_step(
                context,
                stack@,
                kind,
                progress,
                attrs,
                data@,
                event,
                fetched,
            ).unwrap();
            &&& next.0@ == t.state
            &&& next.1@ == t.data
        }),
        final(out)@ == old(out)@ + list_item_step(
            Context::of(settings, environment),
            stack@,
            kind,
            progress,
            attrs,
            data@,
            event,
            fetched,
        ).unwrap().output,
{
    let capabilities = &settings.terminal_capabilities;
    let ghost before = out@;
    assert(before + Seq::<char>::empty() =~= before);
    let after = StackedState::Inline(InlineState::ListItem(kind, ListItemState::ItemBlock), attrs);
    let at_start = progress == ListItemState::StartItem;
    let after_block = progress == ListItemState::ItemBlock;
    match event {
        Event::Start(Tag::Item) => {
            if after_block {
                out.append("\n");
            }
            write_indent(out, attrs.indent);
            let indent = match kind {
                ListItemKind::Unordered => {
                    out.append("\u{2022} ");
                    attrs.indent + 2
                },
                ListItemKind::Ordered(number) => {
                    push_two_columns(out, number);
                    out.append(". ");
                    attrs.indent + 4
                },
            };
            (
                stack.current(
                    StackedState::Inline(
                        InlineState::ListItem(kind, ListItemState::StartItem),
                        InlineAttrs { indent, style: attrs.style },
                    ),
                ),
                data,
            )
        },
        Event::Start(Tag::Paragraph) => {
            if !at_start {
                out.append("\n");
                write_indent(out, attrs.indent);
            }
            (
                stack.push(after).current(StackedState::Inline(InlineState::InlineText, attrs)),
                data,
            )
        },
        Event::Start(Tag::CodeBlock(code_kind)) => {
            out.append("\n");
            let block = write_start_code_block(
                out,
                settings,
                attrs.indent,
                attrs.style,
                code_kind,
            );
            (
                stack.push(after).current(block),
                data,
            )
        },
        Event::Rule => {
            out.append("\n");
            write_indent(out, attrs.indent);
            write_rule(out, capabilities, settings.terminal_size.columns - (attrs.indent as usize));
            out.append("\n");
            (stack.current(after), data)
        },
        Event::Start(Tag::Heading(level)) => {
            if !at_start {
                out.append("\n");
                write_indent(out, attrs.indent);
            }
            let heading = write_start_heading(out, capabilities, attrs.style, attrs.indent, level);
            (stack.push(after).current(heading), data)
        },
        Event::Start(Tag::List(start)) => {
            out.append("\n");
            (
                stack.push(after).current(
                    StackedState::Inline(
                        InlineState::ListItem(
                            ListItemKind::from_start(start),
                            ListItemState::StartItem,
                        ),
                        attrs,
                    ),
                ),
                data,
            )
        },
        Event::Start(Tag::BlockQuote) => {
            out.append("\n");
            let block_quote = attrs.to_block().without_margin_before().block_quote();
            (stack.push(after).current(StackedState::StyledBlock(block_quote)), data)
        },
        Event::End(Tag::Item) => {
            if !after_block {
                out.append("\n");
            }
            let (indent, kind) = match kind {
                ListItemKind::Unordered => (attrs.indent - 2, ListItemKind::Unordered),
                ListItemKind::Ordered(number) => (attrs.indent - 4, ListItemKind::Ordered(number + 1)),
            };
            (
                stack.current(
                    StackedState::Inline(
                        InlineState::ListItem(kind, progress),
                        InlineAttrs { indent, style: attrs.style },
                    ),
                ),
                data,
            )
        },
        Event::TaskListMarker(checked) => {
            let marker = if checked {
                "\u{2611} "
            } else {
                "\u{2610} "
            };
            write_styled(out, capabilities, &attrs.style, marker);
            (
                stack.current(StackedState::Inline(InlineState::ListItem(kind, progress), attrs)),
                data,
            )
        },
        Event::Text(text) if after_block => {
            write_indent(out, attrs.indent);
            write_styled(out, capabilities, &attrs.style, text.as_str());
            (
                stack.current(
                    StackedState::Inline(
                        InlineState::ListItem(kind, ListItemState::ItemText),
                        attrs,
                    ),
                ),
                data,
            )
        },
        Event::Html(html) if after_block => {
            write_indent(out, attrs.indent);
            write_styled(out, capabilities, &attrs.style.fg(Colour::Green), html.as_str());
            (
                stack.current(
                    StackedState::Inline(
                        InlineState::ListItem(kind, ListItemState::ItemText),
                        attrs,
                    ),
                ),
                data,
            )
        },
        event => inline_event(
            out,
            settings,
            environment,
            stack,
            InlineState::ListItem(kind, progress),
            attrs,
            data,
            event,
            fetched,
        ),
    }
}

/// Write the text `text` of a code block that is written as it is.
fn write_literal_text(
    out: &mut String,
    capabilities: &TerminalCapabilities,
    attrs: &LiteralBlockAttrs,
    text: &str,
)
    ensures
        final(out)@ == old(out)@ + literal_lines(
            *capabilities,
            attrs.style,
            attrs.indent,
            lines_with_endings(text@),
        ),
{
    let lines = split_lines(text);
    let ghost texts = lines_with_endings(text@);
    let mut i: usize = 0;
    assert(texts.take(0) =~= Seq::empty());
    while i < lines.len()
        invariant
            i <= lines@.len(),
            texts == texts_of(lines@),
            out@ == old(out)@ + literal_lines(
                *capabilities,
                attrs.style,
                attrs.indent,
                texts.take(i as int),
            ),
        decreases lines@.len() - i,
    {
        let line = lines[i].as_str();
        write_styled(out, capabilities, &attrs.style, line);
        if has_newline_at_end(line) {
            write_indent(out, attrs.indent);
        }
        assert(texts.take(i + 1).drop_last() =~= texts.take(i as int));
        assert(texts.take(i + 1).last() == line@);
        i += 1;
    }
    assert(texts.take(i as int) =~= texts);
}

/// Write the text `text` of a code block that is highlighted, line by line,
/// and give the attributes of the block with the highlighting after those
/// lines.
fn write_highlighted_text(out: &mut String, attrs: HighlightBlockAttrs, text: &str) -> (r:
    HighlightBlockAttrs)
    ensures
        r.indent == attrs.indent,
        r.ansi == attrs.ansi,
        r.highlighting@ == attrs.highlighting@.after(lines_with_endings(text@)),
        final(out)@ == old(out)@ + highlighted_code(
            attrs.highlighting@,
            attrs.indent,
            lines_with_endings(text@),
        ),
{
    let HighlightBlockAttrs { ansi, mut highlighting, indent } = attrs;
    let ghost start = highlighting@;
    let lines = split_lines(text);
    let ghost texts = lines_with_endings(text@);
    let mut i: usize = 0;
    assert(texts.take(0) =~= Seq::empty());
    assert(start.fed + texts.take(0) =~= start.fed);
    assert(out@ + Seq::<char>::empty() =~= out@);
    while i < lines.len()
        invariant
            i <= lines@.len(),
            texts == texts_of(lines@),
            highlighting@ == start.after(texts.take(i as int)),
            out@ == old(out)@ + highlighted_code(start, indent, texts.take(i as int)),
        decreases lines@.len() - i,
    {
        let line = lines[i].as_str();
        let segments = highlighting.feed(line);
        write_as_ansi(out, ansi, &segments);
        if has_newline_at_end(line) {
            write_indent(out, indent);
        }
        proof {
            assert(texts.take(i + 1).drop_last() =~= texts.take(i as int));
            assert(texts.take(i + 1).last() == line@);
            assert(start.fed + texts.take(i as int) + seq![line@] =~= start.fed + texts.take(
                i + 1,
            ));
        }
        i += 1;
    }
    assert(texts.take(i as int) =~= texts);
    HighlightBlockAttrs { ansi, highlighting, indent }
}

/// Write what `event` brings about in a code block that is written as it is.
fn literal_block_event(
    out: &mut String,
    settings: &Settings,
    stack: StateStack,
    attrs: LiteralBlockAttrs,
    data: StateData,
    event: Event,
    Ghost(context): Ghost<Context>,
) -> (next: (State, StateData))
    requires
        context.capabilities == settings.terminal_capabilities,
        context.size == settings.terminal_size,
        literal_block_step(context, stack@, attrs, data@, event) is Some,
    ensures
        ({
            let t = literal_block_step(context, stack@, attrs, data@, event).unwrap();
            &&& next.0@ == t.state
            &&& next.1@ == t.data
            &&& final(out)@ == old(out)@ + t.output
        }),
{
    match event {
        Event::Text(text) => {
            write_literal_text(out, &settings.terminal_capabilities, &attrs, text.as_str());
            (stack.current(StackedState::LiteralBlock(attrs)), data)
        },
        Event::End(Tag::CodeBlock(_)) => {
            write_border(out, &settings.terminal_capabilities, &settings.terminal_size);
            (stack.pop(), data)
        },
        _ => {
            assert(out@ + Seq::<char>::empty() =~= out@);
            (stack.pop(), data)
        },
    }
}

/// Write what `event` brings about in a code block that is highlighted.
fn highlight_block_event(
    out: &mut String,
    settings: &Settings,
    stack: StateStack,
    attrs: HighlightBlockAttrs,
    data: StateData,
    event: Event,
    Ghost(context): Ghost<Context>,
) -> (next: (State, StateData))
    requires
        context.capabilities == settings.terminal_capabilities,
        context.size == settings.terminal_size,
        highlight_block_step(
            context,
            stack@,
            attrs.indent,
            attrs.highlighting@,
            data@,
            event,
        ) is Some,
    ensures
        ({
            let t = highlight_block_step(
                context,
                stack@,
                attrs.indent,
                attrs.highlighting@,
                data@,
                event,
            ).unwrap();
            &&& next.0@ == t.state
            &&& next.1@ == t.data
            &&& final(out)@ == old(out)@ + t.output
        }),
{
    match event {
        Event::Text(text) => {
            let attrs = write_highlighted_text(out, attrs, text.as_str());
            (stack.current(StackedState::HighlightBlock(attrs)), data)
        },
        Event::End(Tag::CodeBlock(_)) => {
            write_border(out, &settings.terminal_capabilities, &settings.terminal_size);
            (stack.pop(), data)
        },
        _ => {
            assert(out@ + Seq::<char>::empty() =~= out@);
            (stack.pop(), data)
        },
    }
}

/// Write what `event` brings about after an image that was shown.
fn rendered_image_event(stack: StateStack, data: StateData, event: Event) -> (next: (
    State,
    StateData,
))
    requires
        rendered_image_step(stack@, data@, event) is Some,
    ensures
        next.0@ == rendered_image_step(stack@, data@, event).unwrap().state,
        next.1@ == data@,
{
    match event {
        Event::Text(_) => (stack.current(StackedState::RenderedImage), data),
        _ => (stack.pop(), data),
    }
}

/// Write what `event` brings about in the state `state`.
///
/// What is written is appended to `out`.  `fetched` is what the caller
/// fetched for the event, after `image_request` told what to fetch.  The
/// result is the state and the data after the event.
///
/// The rules in `transition` say what follows: the state, the data, and
/// every character written.
///
/// An event for which there is no rule in `state` must not be handed in: see
/// `accepts`.
pub fn write_event(
    out: &mut String,
    settings: &Settings,
    environment: &Environment,
    state: State,
    data: StateData,
    event: Event,
    fetched: Fetched,
) -> (next: (State, StateData))
    requires
        transition(Context::of(settings, environment), state@, data@, event, fetched) is Some,
    ensures
        ({
            let context = Context::of(settings, environment);
            let t = transition(context, state@, data@, event, fetched).unwrap();
            &&& next.0@ == t.state
            &&& next.1@ == t.data
            &&& final(out)@ == old(out)@ + t.output
        }),
{
    let ghost context = Context::of(settings, environment);
    match state {
        State::TopLevel(attrs) => top_level_event(
            out,
            settings,
            environment,
            attrs,
            data,
            event,
        ),
        State::Stacked(stack, current) => {
            proof {
                lemma_pushed(stack@, current@);
            }
            match current {
                StackedState::StyledBlock(attrs) => styled_block_event(
                    out,
                    settings,
                    stack,
                    attrs,
                    data,
                    event,
                    Ghost(context),
                ),
                StackedState::Inline(InlineState::ListItem(kind, progress), attrs) => list_item_event(
                    out,
                    settings,
                    environment,
                    stack,
                    kind,
                    progress,
                    attrs,
                    data,
                    event,
                    fetched,
                ),
                StackedState::Inline(inline, attrs) => inline_event(
                    out,
                    settings,
                    environment,
                    stack,
                    inline,
                    attrs,
                    data,
                    event,
                    fetched,
                ),
                StackedState::LiteralBlock(attrs) => literal_block_event(
                    out,
                    settings,
                    stack,
                    attrs,
                    data,
                    event,
                    Ghost(context),
                ),
                StackedState::HighlightBlock(attrs) => highlight_block_event(
                    out,
                    settings,
                    stack,
                    attrs,
                    data,
                    event,
                    Ghost(context),
                ),
                StackedState::RenderedImage => {
                    assert(out@ + Seq::<char>::empty() =~= out@);
                    rendered_image_event(stack, data, event)
                },
            }
        },
    }
}

/// What `try_write_event` hands back where there is no rule for the event:
/// all that it was given, as it was given.
#[derive(Debug, PartialEq, Eq)]
pub struct Rejected {
    /// The state in which the event came.
    pub state: State,
    /// The data of the rendering.
    pub data: StateData,
    /// The event for which there is no rule.
    pub event: Event,
    /// What the caller fetched for the event.
    pub fetched: Fetched,
}

/// Write what `event` brings about in the state `state`, if there is a rule
/// for the event in that state.
///
/// Where there is one, this is `write_event`.  Where there is none, nothing
/// is written, and the state, the data, the event and what was fetched come
/// back as they were.
pub fn try_write_event(
    out: &mut String,
    settings: &Settings,
    environment: &Environment,
    state: State,
    data: StateData,
    event: Event,
    fetched: Fetched,
) -> (r: Result<(State, StateData), Rejected>)
    ensures
        match transition(Context::of(settings, environment), state@, data@, event, fetched) {
            Some(t) => final(out)@ == old(out)@ + t.output && (r matches Ok(next) && next.0@
                == t.state && next.1@ == t.data),
            None => r == Err::<(State, StateData), Rejected>(
                Rejected { state, data, event, fetched },
            ) && final(out)@ == old(out)@,
        },
{
    if accepts(settings, environment, &state, &data, &event, &fetched) {
        Ok(write_event(out, settings, environment, state, data, event, fetched))
    } else {
        Err(Rejected { state, data, event, fetched })
    }
}

/// Write what is left at the end of a document: the links that wait.
///
/// A document ends at the top level; a state in which a part of the document
/// has not ended must not be handed in.
pub fn finish(
    out: &mut String,
    settings: &Settings,
    environment: &Environment,
    state: State,
    data: StateData,
)
    requires
        state@.is_top_level(),
    ensures
        final(out)@ == old(out)@ + link_refs_text(
            Context::of(settings, environment),
            data@.pending,
        ),
{
    write_link_refs(out, settings, environment, data.pending_link_definitions);
}

/// Whether there is a rule for the start of an image at `target`, given what
/// was fetched of it: there is none for an image that is too large to encode.
fn accepts_image(
    settings: &Settings,
    environment: &Environment,
    target: &str,
    fetched: &Fetched,
    Ghost(current): Ghost<Frames>,
    Ghost(state): Ghost<InlineState>,
    Ghost(attrs): Ghost<InlineAttrs>,
) -> (r: bool)
    ensures
        r == (image_start(
            Context::of(settings, environment),
            current,
            state,
            attrs,
            target@,
            *fetched,
        ) is Some),
{
    match (settings.terminal_capabilities.image, environment.resolve_reference(target)) {
        (Some(ImageCapability::ITerm2(_)), Some(url)) => match fetched {
            Fetched::Contents(contents) => {
                let name_fits = match urls::last_segment(url.as_str()) {
                    Some(name) => can_encode(name.as_str().as_bytes().len()),
                    None => true,
                };
                can_encode(contents.len()) && name_fits
            },
            _ => true,
        },
        (Some(ImageCapability::Kitty(_)), Some(_)) => match (
            settings.terminal_size.pixels,
            fetched,
        ) {
            (Some(_), Fetched::Kitty(image)) => can_encode(image.contents.len()),
            _ => true,
        },
        _ => true,
    }
}

/// Whether there is a rule for `event` in inline text.
fn accepts_inline(
    settings: &Settings,
    environment: &Environment,
    state: &InlineState,
    data: &StateData,
    event: &Event,
    fetched: &Fetched,
    Ghost(below): Ghost<Frames>,
    Ghost(attrs): Ghost<InlineAttrs>,
) -> (r: bool)
    ensures
        r == (inline_step(
            Context::of(settings, environment),
            below,
            *state,
            attrs,
            data@,
            *event,
            *fetched,
        ) is Some),
{
    match event {
        Event::Start(Tag::Emphasis) | Event::Start(Tag::Strong) | Event::Start(
            Tag::Strikethrough,
        ) | Event::Start(Tag::Link(_, _, _)) => true,
        Event::Start(Tag::Image(_, target, _)) => accepts_image(
            settings,
            environment,
            target.as_str(),
            fetched,
            Ghost(below.pushed(Frame::Inline(*state, attrs))),
            Ghost(*state),
            Ghost(attrs),
        ),
        Event::End(Tag::Emphasis) | Event::End(Tag::Strong) | Event::End(Tag::Strikethrough)
        | Event::End(Tag::Paragraph) | Event::End(Tag::Heading(_)) | Event::End(Tag::BlockQuote)
        | Event::End(Tag::List(_)) => true,
        Event::End(Tag::Link(link_type, _, _)) => match state {
            InlineState::InlineLink(_) => true,
            InlineState::InlineText => *link_type == LinkType::Autolink || *link_type
                == LinkType::Email || data.next_link < u64::MAX,
            InlineState::ListItem(_, _) => false,
        },
        Event::End(Tag::Image(_, _, _)) => match state {
            InlineState::InlineLink(_) => true,
            _ => data.next_link < u64::MAX,
        },
        Event::Code(_) | Event::SoftBreak | Event::HardBreak | Event::Text(_) | Event::Html(_) => true,
        _ => false,
    }
}

/// Whether there is a rule for `event` in an item of a list.
fn accepts_in_item(
    settings: &Settings,
    environment: &Environment,
    kind: ListItemKind,
    progress: ListItemState,
    attrs: InlineAttrs,
    data: &StateData,
    event: &Event,
    fetched: &Fetched,
    Ghost(below): Ghost<Frames>,
) -> (r: bool)
    ensures
        r == (list_item_step(
            Context::of(settings, environment),
            below,
            kind,
            progress,
            attrs,
            data@,
            *event,
            *fetched,
        ) is Some),
{
    match event {
        Event::Start(Tag::Item) => match kind {
            ListItemKind::Unordered => attrs.indent <= u16::MAX - 2,
            ListItemKind::Ordered(_) => attrs.indent <= u16::MAX - 4,
        },
        Event::Start(Tag::Paragraph) | Event::Start(Tag::CodeBlock(_)) | Event::Start(
            Tag::Heading(_),
        ) | Event::Start(Tag::List(_)) | Event::TaskListMarker(_) => true,
        Event::Rule => attrs.indent as usize <= settings.terminal_size.columns,
        Event::Start(Tag::BlockQuote) => attrs.indent <= u16::MAX - 4,
        Event::End(Tag::Item) => match kind {
            ListItemKind::Unordered => attrs.indent >= 2,
            ListItemKind::Ordered(number) => attrs.indent >= 4 && number < u64::MAX,
        },
        Event::Text(_) | Event::Html(_) => true,
        _ => accepts_inline(
            settings,
            environment,
            &InlineState::ListItem(kind, progress),
            data,
            event,
            fetched,
            Ghost(below),
            Ghost(attrs),
        ),
    }
}

/// Whether there is a rule for `event` in the state `state`: whether
/// `write_event` may be handed the two.
///
/// There is none where the event cannot come in that state in any document,
/// and none where a column, the number of a list item or of a link, or the
/// length of an encoded image would leave the range of the machine.
pub fn accepts(
    settings: &Settings,
    environment: &Environment,
    state: &State,
    data: &StateData,
    event: &Event,
    fetched: &Fetched,
) -> (r: bool)
    ensures
        r == (transition(Context::of(settings, environment), state@, data@, *event, *fetched)
            is Some),
{
    match state {
        State::TopLevel(_) => match event {
            Event::Start(Tag::Paragraph) | Event::Start(Tag::Heading(_)) | Event::Start(
                Tag::BlockQuote,
            ) | Event::Rule | Event::Start(Tag::CodeBlock(_)) | Event::Start(Tag::List(_))
            | Event::Html(_) => true,
            _ => false,
        },
        State::Stacked(stack, current) => {
            proof {
                lemma_pushed(stack@, current@);
            }
            match current {
                StackedState::StyledBlock(attrs) => match event {
                    Event::Start(Tag::Paragraph) | Event::Start(Tag::Heading(_)) | Event::Start(
                        Tag::List(_),
                    ) | Event::Start(Tag::CodeBlock(_)) | Event::Html(_) | Event::End(
                        Tag::BlockQuote,
                    ) | Event::End(Tag::List(_)) => true,
                    Event::Start(Tag::BlockQuote) => attrs.indent <= u16::MAX - 4,
                    Event::Rule => attrs.indent as usize <= settings.terminal_size.columns,
                    _ => false,
                },
                StackedState::Inline(InlineState::ListItem(kind, progress), attrs) => accepts_in_item(
                    settings,
                    environment,
                    *kind,
                    *progress,
                    *attrs,
                    data,
                    event,
                    fetched,
                    Ghost(stack@),
                ),
                StackedState::Inline(inline, attrs) => accepts_inline(
                    settings,
                    environment,
                    inline,
                    data,
                    event,
                    fetched,
                    Ghost(stack@),
                    Ghost(*attrs),
                ),
                StackedState::LiteralBlock(_) | StackedState::HighlightBlock(_) => match event {
                    Event::Text(_) | Event::End(Tag::CodeBlock(_)) | Event::End(Tag::BlockQuote)
                    | Event::End(Tag::List(_)) => true,
                    _ => false,
                },
                StackedState::RenderedImage => match event {
                    Event::Text(_) | Event::End(Tag::Image(_, _, _)) | Event::End(Tag::BlockQuote)
                    | Event::End(Tag::List(_)) => true,
                    _ => false,
                },
            }
        },
    }
}

} // verus!
