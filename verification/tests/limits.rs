use mdcat::render::highlighting::{HighlightTheme, Syntaxes};
use mdcat::render::state::{
    InlineAttrs, InlineState, ListItemKind, ListItemState, MarginControl, StackedState,
    StyledBlockAttrs, TopLevelAttrs,
};
use mdcat::terminal::ansi::Style;
use mdcat::{
    accepts, finish, write_event, CodeBlockKind, Environment, Event, Fetched, ResourceAccess,
    Settings, State, StateData, Tag, TerminalCapabilities, TerminalSize,
};

fn settings(capabilities: TerminalCapabilities) -> Settings {
    Settings {
        terminal_capabilities: capabilities,
        terminal_size: TerminalSize { columns: 100_000, rows: 24, pixels: None },
        resource_access: ResourceAccess::LocalOnly,
        syntax_set: Syntaxes::load_defaults_newlines(),
        theme: HighlightTheme::load_default("Solarized (dark)").unwrap(),
    }
}

fn environment() -> Environment {
    Environment { hostname: String::from("localhost"), base_url: String::from("file:///") }
}


fn item(kind: ListItemKind, indent: u16) -> State {
    State::stack_onto(TopLevelAttrs::new()).current(StackedState::Inline(
        InlineState::ListItem(kind, ListItemState::StartItem),
        InlineAttrs { style: Style::new(), indent },
    ))
}

fn accepted(state: &State, event: Event) -> bool {
    accepts(
        &settings(TerminalCapabilities::none()),
        &environment(),
        state,
        &StateData::new(),
        &event,
        &Fetched::Nothing,
    )
}

fn written(state: State, event: Event) -> (String, State) {
    let mut out = String::new();
    let next = write_event(
        &mut out,
        &settings(TerminalCapabilities::none()),
        &environment(),
        state,
        StateData::new(),
        event,
        Fetched::Nothing,
    );
    (out, next.0)
}

#[test]
fn items_stop_at_the_last_column() {
    assert!(accepted(&item(ListItemKind::Unordered, u16::MAX - 2), Event::Start(Tag::Item)));
    assert!(!accepted(&item(ListItemKind::Unordered, u16::MAX - 1), Event::Start(Tag::Item)));
    assert!(accepted(&item(ListItemKind::Ordered(1), u16::MAX - 4), Event::Start(Tag::Item)));
    assert!(!accepted(&item(ListItemKind::Ordered(1), u16::MAX - 3), Event::Start(Tag::Item)));
    let (_, next) = written(item(ListItemKind::Unordered, u16::MAX - 2), Event::Start(Tag::Item));
    assert_eq!(next.indent(), u16::MAX);
}

#[test]
fn items_end_no_further_left_than_the_first_column() {
    assert!(accepted(&item(ListItemKind::Unordered, 2), Event::End(Tag::Item)));
    assert!(!accepted(&item(ListItemKind::Unordered, 1), Event::End(Tag::Item)));
    assert!(accepted(&item(ListItemKind::Ordered(1), 4), Event::End(Tag::Item)));
    assert!(!accepted(&item(ListItemKind::Ordered(1), 3), Event::End(Tag::Item)));
    let (out, next) = written(item(ListItemKind::Ordered(1), 4), Event::End(Tag::Item));
    assert_eq!(out, "\n");
    assert_eq!(next, item(ListItemKind::Ordered(2), 0));
}

#[test]
fn item_numbers_stop_at_the_greatest() {
    assert!(accepted(&item(ListItemKind::Ordered(u64::MAX - 1), 4), Event::End(Tag::Item)));
    assert!(!accepted(&item(ListItemKind::Ordered(u64::MAX), 4), Event::End(Tag::Item)));
    let (out, _) = written(item(ListItemKind::Ordered(u64::MAX), 0), Event::Start(Tag::Item));
    assert_eq!(out, "18446744073709551615. ");
}

#[test]
fn quotes_stop_at_the_last_column() {
    let quote = |indent: u16| {
        State::stack_onto(TopLevelAttrs::new()).current(StackedState::StyledBlock(
            StyledBlockAttrs {
                margin_before: MarginControl::NoMargin,
                indent,
                style: Style::new(),
                in_quote: true,
            },
        ))
    };
    assert!(accepted(&quote(u16::MAX - 4), Event::Start(Tag::BlockQuote)));
    assert!(!accepted(&quote(u16::MAX - 3), Event::Start(Tag::BlockQuote)));
    assert!(accepted(&item(ListItemKind::Unordered, u16::MAX - 4), Event::Start(Tag::BlockQuote)));
    assert!(!accepted(&item(ListItemKind::Unordered, u16::MAX - 3), Event::Start(Tag::BlockQuote)));
    let (_, next) = written(quote(8), Event::Start(Tag::BlockQuote));
    assert_eq!(next.indent(), 12);
}

#[test]
fn block_quote_attributes() {
    let quoted = StyledBlockAttrs::new().block_quote();
    assert_eq!(quoted.indent, 4);
    assert!(quoted.in_quote && quoted.style.is_italic);
    assert_eq!(quoted.margin_before, MarginControl::Margin);
    assert_eq!(quoted.without_margin_before().margin_before, MarginControl::NoMargin);
    assert_eq!(
        quoted.without_margin_for_html_only().margin_before,
        MarginControl::NoMarginForHtmlOnly
    );
    assert_eq!(quoted.without_margin_before().with_margin_before().margin_before, MarginControl::Margin);
    assert_eq!(quoted.to_inline(), InlineAttrs { style: quoted.style, indent: 4 });
    assert_eq!(quoted.to_inline().to_block().indent, 4);
    assert!(!quoted.to_inline().to_block().in_quote);
    assert_eq!(ListItemKind::from_start(None), ListItemKind::Unordered);
    assert_eq!(ListItemKind::from_start(Some(3)), ListItemKind::Ordered(3));
}

#[test]
fn a_paragraph_follows_code_in_a_quote_after_a_blank_line() {
    let settings = settings(TerminalCapabilities::none());
    let environment = environment();
    let mut out = String::new();
    let mut state = State::new();
    let mut data = StateData::new();
    for event in [
        Event::Start(Tag::BlockQuote),
        Event::Start(Tag::CodeBlock(CodeBlockKind::Indented)),
        Event::Text(String::from("code\n")),
        Event::End(Tag::CodeBlock(CodeBlockKind::Indented)),
        Event::Start(Tag::Paragraph),
        Event::Text(String::from("text")),
        Event::End(Tag::Paragraph),
        Event::End(Tag::BlockQuote),
    ] {
        let next =
            write_event(&mut out, &settings, &environment, state, data, event, Fetched::Nothing);
        state = next.0;
        data = next.1;
    }
    let border = "\u{2500}".repeat(20);
    assert_eq!(out, format!("    {}\n    code\n    {}\n\n    text\n", border, border));
    finish(&mut out, &settings, &environment, state, data);
}

#[test]
fn highlighting_depends_on_where_a_line_is_cut() {
    let settings = settings(TerminalCapabilities::ansi());
    let environment = environment();
    let fence = || Tag::CodeBlock(CodeBlockKind::Fenced(String::from("rust")));
    let render = |texts: Vec<&str>| {
        let mut out = String::new();
        let mut state = State::new();
        let mut data = StateData::new();
        let mut events = vec![Event::Start(fence())];
        events.extend(texts.into_iter().map(|text| Event::Text(String::from(text))));
        events.push(Event::End(fence()));
        for event in events {
            let next = write_event(
                &mut out,
                &settings,
                &environment,
                state,
                data,
                event,
                Fetched::Nothing,
            );
            state = next.0;
            data = next.1;
        }
        out
    };
    assert_ne!(render(vec!["fn main() {}\n"]), render(vec!["f", "n main() {}\n"]));
    assert_eq!(render(vec!["fn main() {}\n", "\n"]), render(vec!["fn main() {}\n\n"]));
}

#[test]
fn an_event_without_a_rule_comes_back_as_it_came() {
    let settings = settings(TerminalCapabilities::none());
    let mut out = String::from("before");
    let rejected = mdcat::try_write_event(
        &mut out,
        &settings,
        &environment(),
        item(ListItemKind::Ordered(7), 1),
        StateData::new(),
        Event::End(Tag::Item),
        Fetched::Lines(3),
    )
    .unwrap_err();
    assert_eq!(out, "before");
    assert_eq!(
        rejected,
        mdcat::Rejected {
            state: item(ListItemKind::Ordered(7), 1),
            data: StateData::new(),
            event: Event::End(Tag::Item),
            fetched: Fetched::Lines(3),
        }
    );
}

#[test]
fn an_event_with_a_rule_is_written() {
    let settings = settings(TerminalCapabilities::none());
    let mut out = String::from("before");
    let next = mdcat::try_write_event(
        &mut out,
        &settings,
        &environment(),
        State::new(),
        StateData::new(),
        Event::Html(String::from("<hr>")),
        Fetched::Nothing,
    )
    .unwrap();
    assert_eq!(out, "before<hr>");
    assert_eq!(next.0, State::TopLevel(TopLevelAttrs::no_margin_for_html_only()));
    assert_eq!(next.1, StateData::new());
}
