//! What is written for the parts of a document, piece by piece.

use crate::events::CodeBlockKind;
use crate::references::{references_of, LinkReference, LinkReferenceDefinition};
use crate::render::highlighting::{syntax_known, Highlighted, Highlighting};
use crate::render::state::{
    Frame, HighlightBlockAttrs, InlineAttrs, InlineState, LiteralBlockAttrs, StackedState,
};
use crate::settings::{Context, Environment, Settings};
use crate::terminal::ansi::{ansi_painted, AnsiStyle, Colour, Style};
use crate::terminal::osc::{link_command, link_destination, osc};
use crate::terminal::size::TerminalSize;
use crate::terminal::{LinkCapability, MarkCapability, StyleCapability, TerminalCapabilities};
use crate::text::{decimal, push_decimal, push_repeated, push_spaces, repeated, spaces};
use vstd::prelude::*;
use vstd::string::StringExecFns;

verus! {

/// A line feed.
pub open spec fn newline() -> Seq<char> {
    "\n"@
}

/// `text` as a terminal of the capabilities `capabilities` is sent it in
/// `style`: painted where the terminal shows styles, as it is where not.
pub open spec fn styled(capabilities: TerminalCapabilities, style: Style, text: Seq<char>) -> Seq<
    char,
> {
    match capabilities.style {
        Some(StyleCapability::Ansi(_)) => ansi_painted(style, text),
        None => text,
    }
}

/// What sets a mark, where the terminal has marks.
pub open spec fn mark_text(capabilities: TerminalCapabilities) -> Seq<char> {
    match capabilities.marks {
        Some(MarkCapability::ITerm2(_)) => osc("1337;SetMark"@),
        None => Seq::empty(),
    }
}

/// A horizontal rule of `length` columns: a double line, in green.
pub open spec fn rule_text(capabilities: TerminalCapabilities, length: nat) -> Seq<char> {
    styled(capabilities, Style::plain().with_fg(Colour::Green), repeated("\u{2550}"@, length))
}

/// The width of the border of a code block: that of the terminal, and 20
/// columns at most.
pub open spec fn border_width(size: TerminalSize) -> nat {
    if size.columns < 20 {
        size.columns as nat
    } else {
        20
    }
}

/// The border above and below a code block: a line in green, and a line
/// feed.
pub open spec fn border_text(capabilities: TerminalCapabilities, size: TerminalSize) -> Seq<char> {
    styled(
        capabilities,
        Style::plain().with_fg(Colour::Green),
        repeated("\u{2500}"@, border_width(size)),
    ) + newline()
}

/// What opens a code block at the column `indent`: the border at that column,
/// and the indent of the first line of code.
pub open spec fn code_block_opening(
    capabilities: TerminalCapabilities,
    size: TerminalSize,
    indent: u16,
) -> Seq<char> {
    spaces(indent as nat) + border_text(capabilities, size) + spaces(indent as nat)
}

/// Whether a code block of the kind `kind` may be highlighted: the terminal
/// shows styles, and the block has fences that name something.
pub open spec fn may_highlight(capabilities: TerminalCapabilities, kind: CodeBlockKind) -> bool {
    capabilities.style is Some && (kind matches CodeBlockKind::Fenced(name) && name@.len() > 0)
}

/// The frame of a code block that is written as it is, in yellow.
pub open spec fn literal_block(indent: u16, style: Style) -> Frame {
    Frame::LiteralBlock(LiteralBlockAttrs { indent, style: style.with_fg(Colour::Yellow) })
}

/// The frame of a code block of the kind `kind` at the column `indent` in
/// text of the style `style`: that of a highlighted block where the block may
/// be highlighted and the syntaxes hold one for what its fence names; that of
/// a block written as it is in every other case.
pub open spec fn code_block(
    capabilities: TerminalCapabilities,
    theme: Seq<char>,
    indent: u16,
    style: Style,
    kind: CodeBlockKind,
) -> Frame {
    match kind {
        CodeBlockKind::Fenced(name) => if may_highlight(capabilities, kind) && syntax_known(name@) {
            Frame::HighlightBlock(indent, Highlighted::start(theme, name@))
        } else {
            literal_block(indent, style)
        },
        CodeBlockKind::Indented => literal_block(indent, style),
    }
}

/// The style of a heading in text of the style `style`: blue and bold.
pub open spec fn heading_style(style: Style) -> Style {
    style.with_fg(Colour::Blue).with_bold()
}

/// What a heading of the level `level` starts with: as many dashes as the
/// level, in the style of the heading.
pub open spec fn heading_marker(capabilities: TerminalCapabilities, style: Style, level: u32) -> Seq<
    char,
> {
    styled(capabilities, heading_style(style), repeated("\u{2504}"@, level as nat))
}

/// The line of the link reference `link`: its number in brackets and a colon,
/// the target, and the title in quotes where there is one, in the colour of
/// the link.
/// Where the target can be read as a URL and the terminal shows links, the
/// target is a link to itself.
pub open spec fn link_ref_line(context: Context, link: LinkReference) -> Seq<char> {
    let capabilities = context.capabilities;
    let style = Style::plain().with_fg(link.colour);
    let target = match (context.resolved(link.target), capabilities.links) {
        (Some(url), Some(LinkCapability::OSC8(_))) => link_command(
            link_destination(url, context.hostname),
        ) + styled(capabilities, style, link.target) + link_command(Seq::empty()),
        _ => styled(capabilities, style, link.target),
    };
    let title = if link.title.len() > 0 {
        styled(capabilities, style, " \""@ + link.title + "\""@)
    } else {
        Seq::empty()
    };
    styled(capabilities, style, "["@ + decimal(link.index as nat) + "]: "@) + target + title
        + newline()
}

/// The lines of the link references `links`, in their order.
pub open spec fn link_ref_lines(context: Context, links: Seq<LinkReference>) -> Seq<char>
    decreases links.len(),
{
    if links.len() == 0 {
        Seq::empty()
    } else {
        link_ref_lines(context, links.drop_last()) + link_ref_line(context, links.last())
    }
}

/// What is written for the link references `links`: nothing where there are
/// none, else a blank line and the line of each reference, in their order.
pub open spec fn link_refs_text(context: Context, links: Seq<LinkReference>) -> Seq<char> {
    if links.len() == 0 {
        Seq::empty()
    } else {
        newline() + link_ref_lines(context, links)
    }
}

/// Write the indent of a line that starts at the column `level`.
pub fn write_indent(out: &mut String, level: u16)
    ensures
        final(out)@ == old(out)@ + spaces(level as nat),
{
    push_spaces(out, level as usize);
}

/// Write `text` in `style`.
pub fn write_styled(
    out: &mut String,
    capabilities: &TerminalCapabilities,
    style: &Style,
    text: &str,
)
    ensures
        final(out)@ == old(out)@ + styled(*capabilities, *style, text@),
{
    match capabilities.style {
        None => out.append(text),
        Some(StyleCapability::Ansi(ansi)) => ansi.write_styled(out, style, text),
    }
}

/// Set a mark, where the terminal has marks.
pub fn write_mark(out: &mut String, capabilities: &TerminalCapabilities)
    ensures
        final(out)@ == old(out)@ + mark_text(*capabilities),
{
    match capabilities.marks {
        Some(MarkCapability::ITerm2(marks)) => marks.set_mark(out),
        None => {
            assert(out@ + Seq::<char>::empty() =~= out@);
        },
    }
}

/// Write a horizontal rule of `length` columns.
pub fn write_rule(out: &mut String, capabilities: &TerminalCapabilities, length: usize)
    ensures
        final(out)@ == old(out)@ + rule_text(*capabilities, length as nat),
{
    let mut rule = String::new();
    push_repeated(&mut rule, "\u{2550}", length);
    assert(rule@ =~= repeated("\u{2550}"@, length as nat));
    let style = Style::new().fg(Colour::Green);
    write_styled(out, capabilities, &style, rule.as_str());
}

/// Write the border of a code block.
pub fn write_border(out: &mut String, capabilities: &TerminalCapabilities, size: &TerminalSize)
    ensures
        final(out)@ == old(out)@ + border_text(*capabilities, *size),
{
    let width: usize = if size.columns < 20 {
        size.columns
    } else {
        20
    };
    let mut separator = String::new();
    push_repeated(&mut separator, "\u{2500}", width);
    assert(separator@ =~= repeated("\u{2500}"@, border_width(*size)));
    let style = Style::new().fg(Colour::Green);
    write_styled(out, capabilities, &style, separator.as_str());
    out.append("\n");
}

/// Write the line of the link reference `link`.
fn write_link_ref(
    out: &mut String,
    settings: &Settings,
    environment: &Environment,
    link: &LinkReferenceDefinition,
)
    ensures
        final(out)@ == old(out)@ + link_ref_line(Context::of(settings, environment), link@),
{
    let ghost before = out@;
    let capabilities = &settings.terminal_capabilities;
    let style = Style::new().fg(link.colour);
    let mut number = String::from_str("[");
    push_decimal(&mut number, link.index);
    number.append("]: ");
    write_styled(out, capabilities, &style, number.as_str());
    let target = link.target.as_str();
    match (environment.resolve_reference(target), capabilities.links) {
        (Some(url), Some(LinkCapability::OSC8(links))) => {
            links.set_link_url(out, url.as_str(), environment.hostname.as_str());
            write_styled(out, capabilities, &style, target);
            links.clear_link(out);
        },
        _ => write_styled(out, capabilities, &style, target),
    }
    if !link.title.as_str().is_empty() {
        let mut title = String::from_str(" \"");
        title.append(link.title.as_str());
        title.append("\"");
        write_styled(out, capabilities, &style, title.as_str());
    }
    out.append("\n");
    assert(out@ =~= before + link_ref_line(Context::of(settings, environment), link@));
}

/// Write the link references `links`: nothing where there are none, else a
/// blank line and the line of each reference, in their order.
pub fn write_link_refs(
    out: &mut String,
    settings: &Settings,
    environment: &Environment,
    links: Vec<LinkReferenceDefinition>,
)
    ensures
        final(out)@ == old(out)@ + link_refs_text(
            Context::of(settings, environment),
            references_of(links@),
        ),
{
    let ghost context = Context::of(settings, environment);
    let ghost references = references_of(links@);
    if links.len() > 0 {
        out.append("\n");
        let mut i: usize = 0;
        assert(references.take(0) =~= Seq::empty());
        while i < links.len()
            invariant
                i <= links@.len(),
                context == Context::of(settings, environment),
                references == references_of(links@),
                out@ == old(out)@ + newline() + link_ref_lines(context, references.take(i as int)),
            decreases links@.len() - i,
        {
            write_link_ref(out, settings, environment, &links[i]);
            assert(references.take(i + 1).drop_last() =~= references.take(i as int));
            assert(references.take(i + 1).last() == links@[i as int]@);
            i += 1;
        }
        assert(references.take(i as int) =~= references);
    } else {
        assert(out@ + Seq::<char>::empty() =~= out@);
    }
}

/// Write the start of a heading of the level `level` in text of the style
/// `style`, and give the frame for the text of the heading.
pub fn write_start_heading(
    out: &mut String,
    capabilities: &TerminalCapabilities,
    style: Style,
    indent: u16,
    level: u32,
) -> (r: StackedState)
    ensures
        final(out)@ == old(out)@ + heading_marker(*capabilities, style, level),
        r == StackedState::Inline(
            InlineState::InlineText,
            InlineAttrs { style: heading_style(style), indent },
        ),
{
    let style = style.fg(Colour::Blue).bold();
    let mut marker = String::new();
    push_repeated(&mut marker, "\u{2504}", level as usize);
    assert(marker@ =~= repeated("\u{2504}"@, level as nat));
    write_styled(out, capabilities, &style, marker.as_str());
    StackedState::Inline(InlineState::InlineText, InlineAttrs { style, indent })
}

/// The frame for the code of a code block at the column `indent` in text of
/// the style `style`: a highlighted block with the highlighting
/// `highlighting` where there is one; a block that is written as it is, in
/// yellow, where there is none.
pub fn code_block_frame(
    ansi: AnsiStyle,
    indent: u16,
    style: Style,
    highlighting: Option<Highlighting>,
) -> (r: StackedState)
    ensures
        match highlighting {
            Some(highlighting) => r == StackedState::HighlightBlock(
                HighlightBlockAttrs { ansi, highlighting, indent },
            ),
            None => r == StackedState::LiteralBlock(
                LiteralBlockAttrs { indent, style: style.with_fg(Colour::Yellow) },
            ),
        },
{
    match highlighting {
        Some(highlighting) => StackedState::HighlightBlock(
            HighlightBlockAttrs { ansi, highlighting, indent },
        ),
        None => StackedState::LiteralBlock(
            LiteralBlockAttrs { indent, style: style.fg(Colour::Yellow) },
        ),
    }
}

/// Write the start of a code block of the kind `kind` at the column `indent`,
/// and give the frame for the code.
///
/// The code is highlighted where the terminal shows styles and the syntaxes
/// of the settings hold a syntax for what the fence of the block names; it is
/// written as it is, in yellow, in every other case.
pub fn write_start_code_block(
    out: &mut String,
    settings: &Settings,
    indent: u16,
    style: Style,
    kind: CodeBlockKind,
) -> (r: StackedState)
    ensures
        final(out)@ == old(out)@ + code_block_opening(
            settings.terminal_capabilities,
            settings.terminal_size,
            indent,
        ),
        r@ == code_block(settings.terminal_capabilities, settings.theme@, indent, style, kind),
{
    let ghost before = out@;
    write_indent(out, indent);
    write_border(out, &settings.terminal_capabilities, &settings.terminal_size);
    write_indent(out, indent);
    assert(out@ =~= before + code_block_opening(
        settings.terminal_capabilities,
        settings.terminal_size,
        indent,
    ));
    match (settings.terminal_capabilities.style, kind) {
        (Some(StyleCapability::Ansi(ansi)), CodeBlockKind::Fenced(name)) => {
            let highlighting = if name.as_str().is_empty() {
                None
            } else {
                Highlighting::start(&settings.syntax_set, &settings.theme, name.as_str())
            };
            code_block_frame(ansi, indent, style, highlighting)
        },
        _ => StackedState::LiteralBlock(
            LiteralBlockAttrs { indent, style: style.fg(Colour::Yellow) },
        ),
    }
}

} // verus!
