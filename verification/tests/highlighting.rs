use mdcat::render::highlighting::{
    to_terminal_colour, write_as_ansi, HighlightTheme, Highlighting, Segment, Syntaxes,
};
use mdcat::render::state::{HighlightBlockAttrs, LiteralBlockAttrs, StackedState};
use mdcat::render::write::code_block_frame;
use mdcat::terminal::ansi::{AnsiStyle, Colour, Style};
use mdcat::{
    write_event, CodeBlockKind, Environment, Event, Fetched, ResourceAccess, Settings, State,
    StateData, Tag, TerminalCapabilities, TerminalSize,
};

fn solarized() -> HighlightTheme {
    HighlightTheme::load_default("Solarized (dark)").unwrap()
}

fn settings(theme: &str) -> Settings {
    Settings {
        terminal_capabilities: TerminalCapabilities::ansi(),
        terminal_size: TerminalSize::default_size(),
        resource_access: ResourceAccess::LocalOnly,
        syntax_set: Syntaxes::load_defaults_newlines(),
        theme: HighlightTheme::load_default(theme).unwrap(),
    }
}

fn environment() -> Environment {
    Environment { hostname: String::from("localhost"), base_url: String::from("file:///") }
}

fn joined(segments: &[Segment]) -> String {
    segments.iter().map(|segment| segment.text.as_str()).collect()
}

#[test]
fn themes_are_found_by_their_names() {
    assert!(HighlightTheme::load_default("Solarized (dark)").is_some());
    assert!(HighlightTheme::load_default("base16-ocean.dark").is_some());
    assert!(HighlightTheme::load_default("no such theme").is_none());
    assert!(HighlightTheme::load_default("").is_none());
}

#[test]
fn highlighting_starts_for_the_syntaxes_that_are_known() {
    let syntaxes = Syntaxes::load_defaults_newlines();
    let theme = solarized();
    assert!(Highlighting::start(&syntaxes, &theme, "rust").is_some());
    assert!(Highlighting::start(&syntaxes, &theme, "rs").is_some());
    assert!(Highlighting::start(&syntaxes, &theme, "Python").is_some());
    assert!(Highlighting::start(&syntaxes, &theme, "no-such-language").is_none());
}

#[test]
fn the_runs_of_a_line_join_to_the_line() {
    let syntaxes = Syntaxes::load_defaults_newlines();
    let mut highlighting = Highlighting::start(&syntaxes, &solarized(), "rust").unwrap();
    for line in ["fn main() {\n", "    let x = \"text\"; // note\n", "}\n", "", "no line feed"] {
        let segments = highlighting.feed(line);
        assert_eq!(joined(&segments), line);
        assert!(segments.iter().all(|segment| !segment.text.is_empty()));
    }
}

#[test]
fn highlighting_follows_from_theme_syntax_and_lines() {
    let syntaxes = Syntaxes::load_defaults_newlines();
    let start = || Highlighting::start(&syntaxes, &solarized(), "rust").unwrap();
    let mut one = start();
    let mut other = Highlighting::start(&Syntaxes::load_defaults_newlines(), &solarized(), "rust")
        .unwrap();
    assert_eq!(one, other);
    let first = one.feed("/* a comment\n");
    assert_ne!(one, other);
    assert_eq!(other.feed("/* a comment\n"), first);
    assert_eq!(one, other);
    // The comment is open still: the next line is a comment to both.
    assert_eq!(one.feed("let x = 1;\n"), other.feed("let x = 1;\n"));
    assert_ne!(one.feed("let x = 1;\n"), start().feed("let x = 1;\n"));
    assert_ne!(start(), Highlighting::start(&syntaxes, &solarized(), "rs").unwrap());
    let ocean = HighlightTheme::load_default("base16-ocean.dark").unwrap();
    assert_ne!(start(), Highlighting::start(&syntaxes, &ocean, "rust").unwrap());
}

#[test]
fn the_frame_of_a_code_block_follows_from_the_highlighting() {
    let syntaxes = Syntaxes::load_defaults_newlines();
    let highlighting = Highlighting::start(&syntaxes, &solarized(), "rust").unwrap();
    let again = Highlighting::start(&syntaxes, &solarized(), "rust").unwrap();
    assert_eq!(
        code_block_frame(AnsiStyle, 4, Style::new().bold(), Some(highlighting)),
        StackedState::HighlightBlock(HighlightBlockAttrs {
            ansi: AnsiStyle,
            highlighting: again,
            indent: 4
        })
    );
    assert_eq!(
        code_block_frame(AnsiStyle, 4, Style::new().bold(), None),
        StackedState::LiteralBlock(LiteralBlockAttrs {
            indent: 4,
            style: Style::new().bold().fg(Colour::Yellow)
        })
    );
}

#[test]
fn colours_of_the_palette_become_colours_of_the_terminal() {
    assert_eq!(to_terminal_colour(0xb5, 0x89, 0x00), Some(Colour::Yellow));
    assert_eq!(to_terminal_colour(0xcb, 0x4b, 0x16), Some(Colour::Fixed(9)));
    assert_eq!(to_terminal_colour(0xdc, 0x32, 0x2f), Some(Colour::Red));
    assert_eq!(to_terminal_colour(0xd3, 0x36, 0x82), Some(Colour::Purple));
    assert_eq!(to_terminal_colour(0x6c, 0x71, 0xc4), Some(Colour::Fixed(13)));
    assert_eq!(to_terminal_colour(0x26, 0x8b, 0xd2), Some(Colour::Blue));
    assert_eq!(to_terminal_colour(0x2a, 0xa1, 0x98), Some(Colour::Cyan));
    assert_eq!(to_terminal_colour(0x85, 0x99, 0x00), Some(Colour::Green));
    assert_eq!(to_terminal_colour(0x83, 0x94, 0x96), None);
    assert_eq!(to_terminal_colour(1, 2, 3), None);
}

#[test]
fn runs_are_painted_one_after_the_other() {
    let run = |red, green, blue, bold, text: &str| Segment {
        red,
        green,
        blue,
        bold,
        italic: false,
        underline: false,
        text: String::from(text),
    };
    let segments =
        vec![run(0x85, 0x99, 0x00, false, "fn"), run(0, 0, 0, false, " "), run(0x26, 0x8b, 0xd2, true, "main")];
    let mut out = String::from(">");
    write_as_ansi(&mut out, AnsiStyle, &segments);
    assert_eq!(out, ">\x1b[32mfn\x1b[0m \x1b[1;34mmain\x1b[0m");
}

#[test]
fn a_block_goes_on_with_the_syntaxes_and_the_theme_it_started_with() {
    let fence = || Tag::CodeBlock(CodeBlockKind::Fenced(String::from("rust")));
    let render = |later: &Settings| {
        let first = settings("Solarized (dark)");
        let mut out = String::new();
        let next = write_event(
            &mut out,
            &first,
            &environment(),
            State::new(),
            StateData::new(),
            Event::Start(fence()),
            Fetched::Nothing,
        );
        let next = write_event(
            &mut out,
            later,
            &environment(),
            next.0,
            next.1,
            Event::Text(String::from("fn main() {}\n")),
            Fetched::Nothing,
        );
        write_event(
            &mut out,
            later,
            &environment(),
            next.0,
            next.1,
            Event::End(fence()),
            Fetched::Nothing,
        );
        out
    };
    assert_eq!(render(&settings("base16-ocean.dark")), render(&settings("Solarized (dark)")));
}
