use mdcat::render::highlighting::{HighlightTheme, Syntaxes};
use mdcat::events::{CodeBlockKind, Event, LinkType, Tag};
use mdcat::render::data::StateData;
use mdcat::render::images::Fetched;
use mdcat::render::state::{StackedState, State};
use mdcat::render::{accepts, finish, write_event};
use mdcat::settings::{Environment, ResourceAccess, Settings};
use mdcat::terminal::size::TerminalSize;
use mdcat::terminal::TerminalCapabilities;

struct Rendering {
    settings: Settings,
    environment: Environment,
    state: State,
    data: StateData,
    out: String,
}

impl Rendering {
    fn new(capabilities: TerminalCapabilities) -> Rendering {
        Rendering {
            settings: Settings {
                terminal_capabilities: capabilities,
                terminal_size: TerminalSize { columns: 30, rows: 24, pixels: None },
                resource_access: ResourceAccess::LocalOnly,
                syntax_set: Syntaxes::load_defaults_newlines(),
        theme: HighlightTheme::load_default("Solarized (dark)").unwrap(),
            },
            environment: Environment {
                hostname: String::from("localhost"),
                base_url: String::from("file:///home/reader/notes/"),
            },
            state: State::new(),
            data: StateData::new(),
            out: String::new(),
        }
    }

    /// Render `event`, and give what it wrote.
    fn write(&mut self, event: Event) -> String {
        let fetched = Fetched::Nothing;
        assert!(accepts(
            &self.settings,
            &self.environment,
            &self.state,
            &self.data,
            &event,
            &fetched
        ));
        let before = self.out.len();
        let state = std::mem::replace(&mut self.state, State::new());
        let data = std::mem::replace(&mut self.data, StateData::new());
        let next = write_event(
            &mut self.out,
            &self.settings,
            &self.environment,
            state,
            data,
            event,
            fetched,
        );
        self.state = next.0;
        self.data = next.1;
        String::from(&self.out[before..])
    }

    fn write_all(&mut self, events: Vec<Event>) -> String {
        events.into_iter().map(|event| self.write(event)).collect()
    }

    fn depth(&self) -> usize {
        match &self.state {
            State::TopLevel(_) => 0,
            State::Stacked(stack, _) => stack.len() + 1,
        }
    }

    fn finish(self) -> String {
        let mut end = String::new();
        finish(&mut end, &self.settings, &self.environment, self.state, self.data);
        end
    }
}

fn text(text: &str) -> Event {
    Event::Text(String::from(text))
}

fn start(tag: Tag) -> Event {
    Event::Start(tag)
}

fn end(tag: Tag) -> Event {
    Event::End(tag)
}

fn fenced(language: &str) -> Tag {
    Tag::CodeBlock(CodeBlockKind::Fenced(String::from(language)))
}

#[test]
fn every_end_restores_depth_and_indent_of_its_start() {
    let events = vec![
        start(Tag::BlockQuote),
        start(Tag::List(Some(9))),
        start(Tag::Item),
        start(Tag::Paragraph),
        text("one "),
        start(Tag::Emphasis),
        text("two"),
        end(Tag::Emphasis),
        end(Tag::Paragraph),
        start(Tag::List(None)),
        start(Tag::Item),
        text("three"),
        end(Tag::Item),
        end(Tag::List(None)),
        start(fenced("")),
        text("four\n"),
        end(fenced("")),
        end(Tag::Item),
        start(Tag::Item),
        text("five"),
        end(Tag::Item),
        end(Tag::List(Some(9))),
        end(Tag::BlockQuote),
    ];
    let mut rendering = Rendering::new(TerminalCapabilities::none());
    let mut open: Vec<(usize, u16)> = Vec::new();
    let mut pushes = 0;
    let mut pops = 0;
    for event in events {
        let before = (rendering.depth(), rendering.state.indent());
        let is_start = matches!(event, Event::Start(_));
        let is_end = matches!(event, Event::End(_));
        rendering.write(event);
        let after = (rendering.depth(), rendering.state.indent());
        if after.0 > before.0 {
            pushes += after.0 - before.0;
        } else {
            pops += before.0 - after.0;
        }
        if is_start {
            open.push(before);
        } else if is_end {
            assert_eq!(Some(after), open.pop());
        } else {
            assert_eq!(after, before);
        }
    }
    assert!(open.is_empty());
    assert_eq!(pushes, pops);
    assert_eq!(pushes, 6);
    assert!(rendering.state.is_top_level());
    assert_eq!(rendering.state.indent(), 0);
}

#[test]
fn item_text_stands_two_columns_past_the_bullet() {
    let mut rendering = Rendering::new(TerminalCapabilities::none());
    rendering.write(start(Tag::List(None)));
    assert_eq!(rendering.state.indent(), 0);
    rendering.write(start(Tag::Item));
    assert_eq!(rendering.state.indent(), 2);
    rendering.write(text("x"));
    assert_eq!(rendering.write(Event::SoftBreak), "\n  ");
    rendering.write(end(Tag::Item));
    assert_eq!(rendering.state.indent(), 0);
    rendering.write(end(Tag::List(None)));
    assert!(rendering.state.is_top_level());
    assert_eq!(rendering.state.indent(), 0);
}

#[test]
fn numbered_item_text_stands_four_columns_in() {
    let mut rendering = Rendering::new(TerminalCapabilities::none());
    rendering.write(start(Tag::List(Some(99))));
    assert_eq!(rendering.write(start(Tag::Item)), "99. ");
    assert_eq!(rendering.state.indent(), 4);
    rendering.write(text("x"));
    assert_eq!(rendering.write(Event::HardBreak), "\n    ");
    assert_eq!(rendering.write(end(Tag::Item)), "\n");
    assert_eq!(rendering.write(start(Tag::Item)), "100. ");
    assert_eq!(rendering.state.indent(), 4);
}

#[test]
fn strong_in_emphasis_is_bold_and_italic() {
    let mut rendering = Rendering::new(TerminalCapabilities::ansi());
    rendering.write(start(Tag::Paragraph));
    assert_eq!(rendering.write(text("a")), "a");
    rendering.write(start(Tag::Emphasis));
    assert_eq!(rendering.write(text("b")), "\x1b[3mb\x1b[0m");
    rendering.write(start(Tag::Strong));
    assert_eq!(rendering.write(text("c")), "\x1b[1;3mc\x1b[0m");
    rendering.write(end(Tag::Strong));
    assert_eq!(rendering.write(text("d")), "\x1b[3md\x1b[0m");
    rendering.write(end(Tag::Emphasis));
    assert_eq!(rendering.write(text("e")), "e");
}

#[test]
fn emphasis_in_emphasis_is_upright() {
    let mut rendering = Rendering::new(TerminalCapabilities::ansi());
    rendering.write(start(Tag::Paragraph));
    rendering.write(start(Tag::Emphasis));
    rendering.write(start(Tag::Strikethrough));
    assert_eq!(rendering.write(text("a")), "\x1b[3;9ma\x1b[0m");
    rendering.write(start(Tag::Emphasis));
    assert_eq!(rendering.write(text("b")), "\x1b[9mb\x1b[0m");
    rendering.write(end(Tag::Emphasis));
    assert_eq!(rendering.write(text("c")), "\x1b[3;9mc\x1b[0m");
}

#[test]
fn highlighted_block_has_one_border_at_each_end() {
    let border = format!("\x1b[32m{}\x1b[0m\n", "\u{2500}".repeat(20));
    let code = "fn main() {\n    let x = 1;\n}\n";
    let mut rendering = Rendering::new(TerminalCapabilities::ansi());
    let opening = rendering.write(start(fenced("rust")));
    assert_eq!(opening, border);
    assert!(matches!(rendering.state, State::Stacked(_, StackedState::HighlightBlock(_))));
    let whole = rendering.write(text(code));
    assert!(matches!(rendering.state, State::Stacked(_, StackedState::HighlightBlock(_))));
    let mut twin = Rendering::new(TerminalCapabilities::ansi());
    twin.write_all(vec![start(fenced("rust")), text(code)]);
    let rendering_in_block = twin.state;
    assert_eq!(rendering.state, rendering_in_block);
    assert_eq!(rendering.write(end(fenced("rust"))), border);
    assert!(rendering.state.is_top_level());
    assert!(whole.contains("\x1b["));
    assert!(!whole.contains('\u{2500}'));

    let mut chunked = Rendering::new(TerminalCapabilities::ansi());
    chunked.write(start(fenced("rust")));
    let pieces = chunked.write_all(vec![
        text("fn main() {\n"),
        text("    let x = 1;\n"),
        text("}\n"),
    ]);
    assert!(matches!(chunked.state, State::Stacked(_, StackedState::HighlightBlock(_))));
    assert_eq!(pieces, whole);
    assert_eq!(chunked.state, rendering_in_block);
    assert_eq!(chunked.write(end(fenced("rust"))), border);
    assert_eq!(chunked.out, rendering.out);
    assert_eq!(chunked.out.matches('\u{2500}').count(), 40);
}

#[test]
fn highlighted_text_is_the_code_between_escape_sequences() {
    let mut rendering = Rendering::new(TerminalCapabilities::ansi());
    rendering.write(start(fenced("rust")));
    let written = rendering.write(text("let x = 1;\n"));
    let mut shown = String::new();
    let mut characters = written.chars();
    while let Some(character) = characters.next() {
        if character == '\x1b' {
            for skipped in characters.by_ref() {
                if skipped == 'm' {
                    break;
                }
            }
        } else {
            shown.push(character);
        }
    }
    assert_eq!(shown, "let x = 1;\n");
}

#[test]
fn unknown_language_is_not_highlighted() {
    let mut rendering = Rendering::new(TerminalCapabilities::ansi());
    rendering.write(start(fenced("no-such-language")));
    assert!(matches!(rendering.state, State::Stacked(_, StackedState::LiteralBlock(_))));
    assert_eq!(rendering.write(text("a\n")), "\x1b[33ma\n\x1b[0m");
}

#[test]
fn indented_code_is_not_highlighted() {
    let mut rendering = Rendering::new(TerminalCapabilities::ansi());
    rendering.write(start(Tag::CodeBlock(CodeBlockKind::Indented)));
    assert!(matches!(rendering.state, State::Stacked(_, StackedState::LiteralBlock(_))));
}

#[test]
fn plain_code_is_the_same_however_it_is_cut() {
    let code = "first\nsecond\n\nthird";
    let mut whole = Rendering::new(TerminalCapabilities::none());
    whole.write_all(vec![start(Tag::BlockQuote), start(fenced("rust")), text(code)]);
    for cut in 0..=code.len() {
        let mut pieces = Rendering::new(TerminalCapabilities::none());
        pieces.write_all(vec![
            start(Tag::BlockQuote),
            start(fenced("rust")),
            text(&code[..cut]),
            text(&code[cut..]),
        ]);
        assert_eq!(pieces.out, whole.out);
        assert_eq!(pieces.state, whole.state);
    }
    let border = "\u{2500}".repeat(20);
    assert_eq!(
        whole.out,
        format!("    {}\n    first\n    second\n    \n    third", border)
    );
}

#[test]
fn styled_code_is_the_same_cut_at_line_ends() {
    let mut whole = Rendering::new(TerminalCapabilities::ansi());
    whole.write_all(vec![start(fenced("")), text("a\nb\n")]);
    let mut pieces = Rendering::new(TerminalCapabilities::ansi());
    pieces.write_all(vec![start(fenced("")), text("a\n"), text("b\n")]);
    assert_eq!(pieces.out, whole.out);
    assert!(whole.out.ends_with("\x1b[33ma\n\x1b[0m\x1b[33mb\n\x1b[0m"));
}

#[test]
fn heading_is_marked_and_writes_out_the_links_before_it() {
    let link = Tag::Link(LinkType::Inline, String::from("http://example.com"), String::from("Title"));
    let mut rendering = Rendering::new(TerminalCapabilities::none());
    rendering.write_all(vec![
        start(Tag::Paragraph),
        start(link.clone()),
        text("link"),
        end(link),
        end(Tag::Paragraph),
    ]);
    assert_eq!(rendering.data.pending_link_definitions.len(), 1);
    assert_eq!(
        rendering.write(start(Tag::Heading(2))),
        "\n[1]: http://example.com \"Title\"\n\n\u{2504}\u{2504}"
    );
    assert!(rendering.data.pending_link_definitions.is_empty());
    assert_eq!(rendering.data.next_link, 2);
    assert_eq!(rendering.write(text("Heading")), "Heading");
    assert_eq!(rendering.write(end(Tag::Heading(2))), "\n");
    assert_eq!(rendering.finish(), "");
}

#[test]
fn heading_is_blue_and_bold() {
    let mut rendering = Rendering::new(TerminalCapabilities::iterm2());
    assert_eq!(
        rendering.write(start(Tag::Heading(1))),
        "\x1b]1337;SetMark\x07\x1b[1;34m\u{2504}\x1b[0m"
    );
    assert_eq!(rendering.write(text("Title")), "\x1b[1;34mTitle\x1b[0m");
}

#[test]
fn quoted_paragraphs_stand_four_columns_in() {
    let mut rendering = Rendering::new(TerminalCapabilities::none());
    let written = rendering.write_all(vec![
        start(Tag::Paragraph),
        text("before"),
        end(Tag::Paragraph),
        start(Tag::BlockQuote),
        start(Tag::Paragraph),
        text("one"),
        Event::SoftBreak,
        text("more"),
        end(Tag::Paragraph),
        start(Tag::Paragraph),
        text("two"),
        end(Tag::Paragraph),
        start(Tag::BlockQuote),
        start(Tag::Paragraph),
        text("deep"),
        end(Tag::Paragraph),
        end(Tag::BlockQuote),
        end(Tag::BlockQuote),
        start(Tag::Paragraph),
        text("after"),
        end(Tag::Paragraph),
    ]);
    assert_eq!(
        written,
        "before\n\n    one\n    more\n\n    two\n\n        deep\n\nafter\n"
    );
}

#[test]
fn quoted_text_is_italic() {
    let mut rendering = Rendering::new(TerminalCapabilities::ansi());
    rendering.write_all(vec![start(Tag::BlockQuote), start(Tag::Paragraph)]);
    assert_eq!(rendering.write(text("quote")), "\x1b[3mquote\x1b[0m");
}

#[test]
fn rule_spans_the_columns_that_are_left() {
    let mut rendering = Rendering::new(TerminalCapabilities::none());
    assert_eq!(rendering.write(Event::Rule), format!("{}\n", "\u{2550}".repeat(30)));
    assert_eq!(rendering.write(Event::Rule), format!("\n{}\n", "\u{2550}".repeat(30)));
    assert_eq!(rendering.write(start(Tag::BlockQuote)), "\n");
    assert_eq!(
        rendering.write(Event::Rule),
        format!("    {}\n", "\u{2550}".repeat(26))
    );
    assert_eq!(
        rendering.write(Event::Rule),
        format!("\n    {}\n", "\u{2550}".repeat(26))
    );
}

#[test]
fn no_blank_line_between_raw_blocks() {
    let mut rendering = Rendering::new(TerminalCapabilities::none());
    let written = rendering.write_all(vec![
        start(Tag::Paragraph),
        text("a"),
        end(Tag::Paragraph),
        Event::Html(String::from("<p>\n")),
        Event::Html(String::from("</p>\n")),
        start(Tag::Paragraph),
        text("b"),
        end(Tag::Paragraph),
    ]);
    assert_eq!(written, "a\n\n<p>\n</p>\n\nb\n");
}

#[test]
fn raw_blocks_are_green() {
    let mut rendering = Rendering::new(TerminalCapabilities::ansi());
    assert_eq!(
        rendering.write(Event::Html(String::from("<hr>"))),
        "\x1b[32m<hr>\x1b[0m"
    );
}

#[test]
fn blocks_in_an_item_are_set_apart() {
    let mut rendering = Rendering::new(TerminalCapabilities::none());
    let written = rendering.write_all(vec![
        start(Tag::List(None)),
        start(Tag::Item),
        start(Tag::Paragraph),
        text("a"),
        end(Tag::Paragraph),
        start(Tag::Paragraph),
        text("b"),
        end(Tag::Paragraph),
        end(Tag::Item),
        start(Tag::Item),
        start(Tag::Paragraph),
        text("c"),
        end(Tag::Paragraph),
        end(Tag::Item),
        end(Tag::List(None)),
    ]);
    assert_eq!(written, "\u{2022} a\n\n  b\n\n\u{2022} c\n");
}

#[test]
fn lists_in_lists_move_in_with_each_level() {
    let mut rendering = Rendering::new(TerminalCapabilities::none());
    let written = rendering.write_all(vec![
        start(Tag::List(None)),
        start(Tag::Item),
        text("a"),
        start(Tag::List(Some(1))),
        start(Tag::Item),
        text("b"),
        end(Tag::Item),
        start(Tag::Item),
        text("c"),
        end(Tag::Item),
        end(Tag::List(Some(1))),
        end(Tag::Item),
        start(Tag::Item),
        text("d"),
        end(Tag::Item),
        end(Tag::List(None)),
    ]);
    assert_eq!(written, "\u{2022} a\n   1. b\n   2. c\n\n\u{2022} d\n");
}

#[test]
fn code_in_an_item_is_indented_after_every_line_feed() {
    let border = "\u{2500}".repeat(20);
    let mut rendering = Rendering::new(TerminalCapabilities::none());
    let written = rendering.write_all(vec![
        start(Tag::List(None)),
        start(Tag::Item),
        text("a"),
        start(fenced("")),
        text("x\ny\n"),
        end(fenced("")),
        text("b"),
        end(Tag::Item),
        end(Tag::List(None)),
    ]);
    assert_eq!(
        written,
        format!("\u{2022} a\n  {}\n  x\n  y\n  {}\n  b\n", border, border)
    );
}

#[test]
fn quote_and_heading_and_rule_in_an_item() {
    let mut rendering = Rendering::new(TerminalCapabilities::none());
    let written = rendering.write_all(vec![
        start(Tag::List(None)),
        start(Tag::Item),
        start(Tag::Heading(3)),
        text("h"),
        end(Tag::Heading(3)),
        Event::Rule,
        start(Tag::BlockQuote),
        start(Tag::Paragraph),
        text("q"),
        end(Tag::Paragraph),
        end(Tag::BlockQuote),
        Event::Html(String::from("<br>")),
        end(Tag::Item),
        end(Tag::List(None)),
    ]);
    assert_eq!(
        written,
        format!(
            "\u{2022} \u{2504}\u{2504}\u{2504}h\n\n  {}\n\n      q\n  <br>\n",
            "\u{2550}".repeat(28)
        )
    );
}

#[test]
fn task_list_items_show_their_box() {
    let mut rendering = Rendering::new(TerminalCapabilities::none());
    let written = rendering.write_all(vec![
        start(Tag::List(None)),
        start(Tag::Item),
        Event::TaskListMarker(true),
        text("done"),
        end(Tag::Item),
        start(Tag::Item),
        Event::TaskListMarker(false),
        text("open"),
        end(Tag::Item),
        end(Tag::List(None)),
    ]);
    assert_eq!(written, "\u{2022} \u{2611} done\n\u{2022} \u{2610} open\n");
}

#[test]
fn inline_code_is_yellow() {
    let mut rendering = Rendering::new(TerminalCapabilities::ansi());
    rendering.write(start(Tag::Paragraph));
    assert_eq!(
        rendering.write(Event::Code(String::from("x + y"))),
        "\x1b[33mx + y\x1b[0m"
    );
    assert_eq!(
        rendering.write(Event::Html(String::from("<b>"))),
        "\x1b[32m<b>\x1b[0m"
    );
}

#[test]
fn events_without_a_rule_are_not_accepted() {
    let rendering = Rendering::new(TerminalCapabilities::none());
    let nothing = Fetched::Nothing;
    for event in [
        text("text"),
        end(Tag::Paragraph),
        start(Tag::Item),
        start(Tag::Emphasis),
        Event::SoftBreak,
        Event::TaskListMarker(true),
        Event::Code(String::from("x")),
        end(Tag::BlockQuote),
    ] {
        assert!(!accepts(
            &rendering.settings,
            &rendering.environment,
            &rendering.state,
            &rendering.data,
            &event,
            &nothing
        ));
    }
    for event in [start(Tag::Paragraph), Event::Rule, Event::Html(String::from("<p>"))] {
        assert!(accepts(
            &rendering.settings,
            &rendering.environment,
            &rendering.state,
            &rendering.data,
            &event,
            &nothing
        ));
    }
}

#[test]
fn a_rule_needs_room() {
    let mut rendering = Rendering::new(TerminalCapabilities::none());
    rendering.settings.terminal_size.columns = 3;
    rendering.write(start(Tag::BlockQuote));
    assert!(!accepts(
        &rendering.settings,
        &rendering.environment,
        &rendering.state,
        &rendering.data,
        &Event::Rule,
        &Fetched::Nothing
    ));
    rendering.settings.terminal_size.columns = 4;
    assert_eq!(rendering.write(Event::Rule), "    \n");
}

#[test]
fn an_item_cannot_end_left_of_its_marker() {
    let mut rendering = Rendering::new(TerminalCapabilities::none());
    rendering.write(start(Tag::List(None)));
    assert!(!accepts(
        &rendering.settings,
        &rendering.environment,
        &rendering.state,
        &rendering.data,
        &end(Tag::Item),
        &Fetched::Nothing
    ));
    assert!(!accepts(
        &rendering.settings,
        &rendering.environment,
        &rendering.state,
        &rendering.data,
        &end(Tag::Link(LinkType::Inline, String::new(), String::new())),
        &Fetched::Nothing
    ));
}

#[test]
fn an_empty_document_writes_nothing() {
    let rendering = Rendering::new(TerminalCapabilities::none());
    assert_eq!(rendering.finish(), "");
}
