use mdcat::render::write::{write_border, write_indent, write_mark, write_rule, write_styled};
use mdcat::terminal::ansi::{AnsiStyle, Colour, Style};
use mdcat::terminal::iterm2::{ITerm2Images, ITerm2Marks};
use mdcat::terminal::osc::{is_file_without_host, write_osc, OSC8Links};
use mdcat::terminal::size::{PixelSize, TerminalSize};
use mdcat::terminal::terminology::{write_inline_image, TerminologyImages};
use mdcat::terminal::TerminalCapabilities;

#[test]
fn plain_style_has_nothing_set() {
    let style = Style::new();
    assert_eq!(style.foreground, None);
    assert!(!style.is_bold && !style.is_italic && !style.is_underline && !style.is_strikethrough);
}

#[test]
fn styles_compose_attribute_by_attribute() {
    let style = Style::new().fg(Colour::Blue).bold().italic().strikethrough();
    assert_eq!(style.foreground, Some(Colour::Blue));
    assert!(style.is_bold && style.is_italic && style.is_strikethrough && !style.is_underline);
    assert!(!style.toggle_italic().is_italic);
    assert!(Style::new().toggle_italic().is_italic);
    assert_eq!(style.fg(Colour::Red).foreground, Some(Colour::Red));
}

#[test]
fn ansi_paints_text_between_escape_sequences() {
    let mut out = String::new();
    AnsiStyle.write_styled(&mut out, &Style::new().bold(), "text");
    assert_eq!(out, "\x1b[1mtext\x1b[0m");
}

#[test]
fn ansi_names_attributes_before_the_colour() {
    let mut out = String::new();
    AnsiStyle.write_styled(&mut out, &Style::new().fg(Colour::Blue).bold().italic(), "a");
    AnsiStyle.write_styled(&mut out, &Style::new().fg(Colour::Fixed(9)).strikethrough(), "b");
    assert_eq!(out, "\x1b[1;3;34ma\x1b[0m\x1b[9;38;5;9mb\x1b[0m");
}

#[test]
fn ansi_leaves_plain_text_alone() {
    let mut out = String::from("(");
    AnsiStyle.write_styled(&mut out, &Style::new(), "plain");
    assert_eq!(out, "(plain");
}

#[test]
fn styled_text_depends_on_the_terminal() {
    let style = Style::new().fg(Colour::Green);
    let mut plain = String::new();
    write_styled(&mut plain, &TerminalCapabilities::none(), &style, "x");
    assert_eq!(plain, "x");
    let mut ansi = String::new();
    write_styled(&mut ansi, &TerminalCapabilities::ansi(), &style, "x");
    assert_eq!(ansi, "\x1b[32mx\x1b[0m");
}

#[test]
fn indent_is_as_many_spaces_as_the_column() {
    let mut out = String::from("|");
    write_indent(&mut out, 0);
    write_indent(&mut out, 4);
    assert_eq!(out, "|    ");
}

#[test]
fn rule_is_a_double_line() {
    let mut out = String::new();
    write_rule(&mut out, &TerminalCapabilities::none(), 3);
    assert_eq!(out, "\u{2550}\u{2550}\u{2550}");
    let mut ansi = String::new();
    write_rule(&mut ansi, &TerminalCapabilities::ansi(), 2);
    assert_eq!(ansi, "\x1b[32m\u{2550}\u{2550}\x1b[0m");
}

#[test]
fn border_is_twenty_columns_at_most() {
    let wide = TerminalSize { columns: 80, rows: 24, pixels: None };
    let mut out = String::new();
    write_border(&mut out, &TerminalCapabilities::none(), &wide);
    assert_eq!(out, format!("{}\n", "\u{2500}".repeat(20)));
    let narrow = TerminalSize { columns: 7, rows: 24, pixels: None };
    let mut out = String::new();
    write_border(&mut out, &TerminalCapabilities::none(), &narrow);
    assert_eq!(out, format!("{}\n", "\u{2500}".repeat(7)));
}

#[test]
fn marks_are_set_where_the_terminal_has_them() {
    let mut out = String::new();
    write_mark(&mut out, &TerminalCapabilities::ansi());
    assert_eq!(out, "");
    write_mark(&mut out, &TerminalCapabilities::iterm2());
    assert_eq!(out, "\x1b]1337;SetMark\x07");
    let mut direct = String::new();
    ITerm2Marks.set_mark(&mut direct);
    assert_eq!(direct, out);
}

#[test]
fn operating_system_commands_are_framed() {
    let mut out = String::new();
    write_osc(&mut out, "0;title");
    assert_eq!(out, "\x1b]0;title\x07");
}

#[test]
fn links_are_set_and_cleared() {
    let mut out = String::new();
    OSC8Links.set_link(&mut out, "https://example.com/");
    out.push_str("text");
    OSC8Links.clear_link(&mut out);
    assert_eq!(out, "\x1b]8;;https://example.com/\x07text\x1b]8;;\x07");
}

#[test]
fn file_urls_without_host_get_the_hostname() {
    let mut out = String::new();
    OSC8Links.set_link_url(&mut out, "file:///tmp/notes.md", "workstation");
    assert_eq!(out, "\x1b]8;;file://workstation/tmp/notes.md\x07");
}

#[test]
fn other_urls_keep_their_host() {
    let mut out = String::new();
    OSC8Links.set_link_url(&mut out, "file://server/tmp/notes.md", "workstation");
    OSC8Links.set_link_url(&mut out, "https://example.com/a", "workstation");
    OSC8Links.set_link_url(&mut out, "mailto:reader@example.com", "workstation");
    assert_eq!(
        out,
        "\x1b]8;;file://server/tmp/notes.md\x07\x1b]8;;https://example.com/a\x07\x1b]8;;mailto:reader@example.com\x07"
    );
}

#[test]
fn a_file_url_keeps_its_form_where_the_host_cannot_be_set() {
    let mut out = String::new();
    OSC8Links.set_link_url(&mut out, "file:///tmp/notes.md", "not a host");
    assert_eq!(out, "\x1b]8;;file:///tmp/notes.md\x07");
}

#[test]
fn iterm2_images_carry_name_and_size() {
    let mut out = String::new();
    ITerm2Images.write_inline_image(&mut out, Some("cat.png"), b"hello world");
    assert_eq!(
        out,
        "\x1b]1337;File=name=Y2F0LnBuZw==;size=11;inline=1:aGVsbG8gd29ybGQ=\x07"
    );
}

#[test]
fn iterm2_images_need_no_name() {
    let mut out = String::new();
    ITerm2Images.write_inline_image(&mut out, None, b"hi");
    assert_eq!(out, "\x1b]1337;File=size=2;inline=1:aGk=\x07");
}

#[test]
fn terminology_draws_a_rectangle_for_the_image() {
    let size = TerminalSize { columns: 3, rows: 10, pixels: None };
    let mut out = String::new();
    write_inline_image(&mut out, size, Some(2), "/tmp/icon.png");
    assert_eq!(
        out,
        "\x1b}ic#3;2;/tmp/icon.png\x00\x1b}ib\x00###\x1b}ie\x00\n\x1b}ib\x00###\x1b}ie\x00\n"
    );
}

#[test]
fn terminology_takes_half_the_screen_for_unknown_proportions() {
    let size = TerminalSize { columns: 2, rows: 7, pixels: None };
    let mut out = String::new();
    TerminologyImages.write_inline_image(&mut out, size, None, "http://example.com/a.png");
    let row = "\x1b}ib\x00##\x1b}ie\x00\n";
    assert_eq!(
        out,
        format!("\x1b}}ic#2;3;http://example.com/a.png\x00{}{}{}", row, row, row)
    );
}

#[test]
fn terminology_draws_nothing_for_no_lines() {
    let size = TerminalSize { columns: 4, rows: 1, pixels: None };
    let mut out = String::new();
    write_inline_image(&mut out, size, None, "a");
    assert_eq!(out, "\x1b}ic#4;0;a\x00");
}

#[test]
fn pixel_sizes_fit_within_limits_in_both_dimensions() {
    let limit = PixelSize { x: 100, y: 50 };
    assert!(PixelSize::from_xy((100, 50)).fits_within(limit));
    assert!(PixelSize::from_xy((1, 1)).fits_within(limit));
    assert!(!PixelSize::from_xy((101, 50)).fits_within(limit));
    assert!(!PixelSize::from_xy((100, 51)).fits_within(limit));
    assert_eq!(PixelSize::from_xy((3, 4)), PixelSize { x: 3, y: 4 });
}

#[test]
fn default_size_is_eighty_by_twenty_four() {
    assert_eq!(TerminalSize::default_size(), TerminalSize { columns: 80, rows: 24, pixels: None });
}

#[test]
fn capabilities_of_known_terminals() {
    let none = TerminalCapabilities::none();
    assert!(none.style.is_none() && none.links.is_none() && none.image.is_none());
    let ansi = TerminalCapabilities::ansi();
    assert!(ansi.style.is_some() && ansi.links.is_none() && ansi.image.is_none());
    assert!(TerminalCapabilities::iterm2().marks.is_some());
    assert!(TerminalCapabilities::kitty().image.is_some());
    assert!(TerminalCapabilities::terminology().links.is_some());
}

#[test]
fn only_file_urls_can_lack_a_host() {
    assert!(is_file_without_host(Some("file"), Some(false)));
    assert!(!is_file_without_host(Some("file"), Some(true)));
    assert!(!is_file_without_host(Some("https"), Some(false)));
    assert!(!is_file_without_host(Some("file"), None));
    assert!(!is_file_without_host(None, Some(false)));
    assert!(!is_file_without_host(None, None));
}

#[test]
fn destinations_name_the_host_of_local_files() {
    assert_eq!(OSC8Links.destination("file:///etc/hosts", "desk"), "file://desk/etc/hosts");
    assert_eq!(OSC8Links.destination("file://server/etc/hosts", "desk"), "file://server/etc/hosts");
    assert_eq!(OSC8Links.destination("https://example.com/", "desk"), "https://example.com/");
    assert_eq!(OSC8Links.destination("not a url", "desk"), "not a url");
}

#[test]
fn encoded_files_are_written_as_they_are_given() {
    let mut out = String::new();
    ITerm2Images.write_encoded(&mut out, Some("TkFNRQ=="), 42, "REFUQQ==");
    assert_eq!(out, "\x1b]1337;File=name=TkFNRQ==;size=42;inline=1:REFUQQ==\x07");
    let mut out = String::new();
    ITerm2Images.write_encoded(&mut out, None, 0, "");
    assert_eq!(out, "\x1b]1337;File=size=0;inline=1:\x07");
}
