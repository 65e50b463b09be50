//! Code blocks in colour: lines are handed to the highlighter of `syntect`,
//! and the colours it answers with become those of the terminal.
//!
//! What `syntect` answers is not proved here.  It is a matter of the theme,
//! of the syntax and of the lines that went before, of nothing else; so its
//! answers have names, and the contracts of this crate speak of those names.

use crate::terminal::ansi::{ansi_painted, AnsiStyle, Colour, Style};
use crate::text::lines_with_endings;
use std::sync::Arc;
use syntect::highlighting::{HighlightIterator, HighlightState, Highlighter, Theme, ThemeSet};
use syntect::parsing::{ParseState, ScopeStack, SyntaxSet};
use vstd::prelude::*;
use vstd::std_specs::cmp::PartialEqSpecImpl;
use vstd::string::StringExecFns;

verus! {

/// The set of syntaxes of `syntect`.  Nothing of it is visible here.
#[verifier::external_type_specification]
#[verifier::external_body]
pub struct ExSyntaxSet(SyntaxSet);

/// The state of the parser of `syntect` between two lines of a code block.
/// Nothing of it is visible here.
#[verifier::external_type_specification]
#[verifier::external_body]
pub struct ExParseState(ParseState);

/// The state of the highlighter of `syntect` between two lines of a code
/// block.  Nothing of it is visible here.
#[verifier::external_type_specification]
#[verifier::external_body]
pub struct ExHighlightState(HighlightState);

/// A theme of `syntect`: the colours to highlight with.  Nothing of it is
/// visible here.
#[verifier::external_type_specification]
#[verifier::external_body]
pub struct ExTheme(Theme);

/// The syntaxes to highlight code with: those that `syntect` ships.
///
/// The set comes from `syntect` and from nowhere else, and every
/// highlighting shares the set it was made from: a parser is never run
/// against another set than its own.
#[derive(Clone, Debug)]
pub struct Syntaxes {
    set: Arc<SyntaxSet>,
}

/// The colours to highlight code with: one of the themes that `syntect`
/// ships.  Its view is the name of the theme.
#[derive(Clone, Debug)]
pub struct HighlightTheme {
    theme: Arc<Theme>,
    name: String,
}

impl View for HighlightTheme {
    type V = Seq<char>;

    closed spec fn view(&self) -> Seq<char> {
        self.name@
    }
}

/// What tells how the next line of a code block is highlighted.
pub struct Highlighted {
    /// The name of the theme.
    pub theme: Seq<char>,
    /// What the fence of the code block named, by which the syntax was found.
    pub syntax: Seq<char>,
    /// The lines that were highlighted so far, from the first.
    pub fed: Seq<Seq<char>>,
}

impl Highlighted {
    /// The start of a code block in the syntax that `syntax` names, with the
    /// theme of the name `theme`.
    pub open spec fn start(theme: Seq<char>, syntax: Seq<char>) -> Highlighted {
        Highlighted { theme, syntax, fed: Seq::empty() }
    }

    /// This highlighting after `lines` more.
    pub open spec fn after(self, lines: Seq<Seq<char>>) -> Highlighted {
        Highlighted { fed: self.fed + lines, ..self }
    }
}

/// The highlighting of one code block, between two of its lines: the parser
/// and the highlighter of `syntect` as the lines so far left them, with the
/// syntaxes and the theme that they were made from.  Its view tells what the
/// two states follow from: the theme, the syntax, and the lines so far, which
/// are kept for that.
#[derive(Debug)]
pub struct Highlighting {
    parser: ParseState,
    highlighter: HighlightState,
    set: Arc<SyntaxSet>,
    theme: Arc<Theme>,
    theme_name: String,
    syntax: String,
    fed: Vec<String>,
}

impl View for Highlighting {
    type V = Highlighted;

    closed spec fn view(&self) -> Highlighted {
        Highlighted { theme: self.theme_name@, syntax: self.syntax@, fed: texts_of(self.fed@) }
    }
}

impl PartialEq for Highlighting {
    /// Whether the two highlightings follow from the same theme, syntax and
    /// lines.
    fn eq(&self, other: &Self) -> (r: bool) {
        self.theme_name == other.theme_name && self.syntax == other.syntax && same_texts(
            &self.fed,
            &other.fed,
        )
    }
}

impl PartialEqSpecImpl for Highlighting {
    open spec fn obeys_eq_spec() -> bool {
        true
    }

    closed spec fn eq_spec(&self, other: &Self) -> bool {
        self.theme_name@ == other.theme_name@ && self.syntax@ == other.syntax@ && texts_of(self.fed@)
            == texts_of(other.fed@)
    }
}

impl Eq for Highlighting {

}

/// Whether the two lists hold the same texts in the same order.
fn same_texts(one: &Vec<String>, other: &Vec<String>) -> (r: bool)
    ensures
        r == (texts_of(one@) == texts_of(other@)),
{
    if one.len() != other.len() {
        assert(texts_of(one@).len() != texts_of(other@).len());
        return false;
    }
    let mut i: usize = 0;
    while i < one.len()
        invariant
            i <= one@.len(),
            one@.len() == other@.len(),
            forall|j: int| 0 <= j < i ==> one@[j]@ == other@[j]@,
        decreases one@.len() - i,
    {
        if one[i] != other[i] {
            assert(texts_of(one@)[i as int] != texts_of(other@)[i as int]);
            return false;
        }
        i += 1;
    }
    assert(texts_of(one@) =~= texts_of(other@));
    true
}

/// A run of text that the highlighter gave one colour and font.
#[derive(Clone, Debug, PartialEq, Eq)]
pub struct Segment {
    /// The red part of the colour.
    pub red: u8,
    /// The green part of the colour.
    pub green: u8,
    /// The blue part of the colour.
    pub blue: u8,
    /// Whether the font is bold.
    pub bold: bool,
    /// Whether the font is italic.
    pub italic: bool,
    /// Whether the text is underlined.
    pub underline: bool,
    /// The text.
    pub text: String,
}

/// A run of text in one colour and font, as plain values.
pub struct Run {
    pub red: u8,
    pub green: u8,
    pub blue: u8,
    pub bold: bool,
    pub italic: bool,
    pub underline: bool,
    pub text: Seq<char>,
}

impl View for Segment {
    type V = Run;

    open spec fn view(&self) -> Run {
        Run {
            red: self.red,
            green: self.green,
            blue: self.blue,
            bold: self.bold,
            italic: self.italic,
            underline: self.underline,
            text: self.text@,
        }
    }
}

/// The runs of `segments`, each as plain values.
pub open spec fn runs_of(segments: Seq<Segment>) -> Seq<Run> {
    Seq::new(segments.len(), |i: int| segments[i]@)
}

/// The texts of `lines`.
pub open spec fn texts_of(lines: Seq<String>) -> Seq<Seq<char>> {
    Seq::new(lines.len(), |i: int| lines[i]@)
}

/// The texts of `runs`, one after the other.
pub open spec fn joined_text(runs: Seq<Run>) -> Seq<char>
    decreases runs.len(),
{
    if runs.len() == 0 {
        Seq::empty()
    } else {
        joined_text(runs.drop_last()) + runs.last().text
    }
}

/// The colour of the terminal for a colour of the Solarized palette: none for
/// its eight tones of grey, which are left to the terminal's own foreground,
/// and none for a colour that is not of the palette.
pub open spec fn terminal_colour(red: u8, green: u8, blue: u8) -> Option<Colour> {
    if red == 0xb5 && green == 0x89 && blue == 0x00 {
        Some(Colour::Yellow)
    } else if red == 0xcb && green == 0x4b && blue == 0x16 {
        Some(Colour::Fixed(9))
    } else if red == 0xdc && green == 0x32 && blue == 0x2f {
        Some(Colour::Red)
    } else if red == 0xd3 && green == 0x36 && blue == 0x82 {
        Some(Colour::Purple)
    } else if red == 0x6c && green == 0x71 && blue == 0xc4 {
        Some(Colour::Fixed(13))
    } else if red == 0x26 && green == 0x8b && blue == 0xd2 {
        Some(Colour::Blue)
    } else if red == 0x2a && green == 0xa1 && blue == 0x98 {
        Some(Colour::Cyan)
    } else if red == 0x85 && green == 0x99 && blue == 0x00 {
        Some(Colour::Green)
    } else {
        None
    }
}

/// The style in which `run` is written.
pub open spec fn run_style(run: Run) -> Style {
    Style {
        foreground: terminal_colour(run.red, run.green, run.blue),
        is_bold: run.bold,
        is_italic: run.italic,
        is_underline: run.underline,
        is_strikethrough: false,
    }
}

/// What is written for `runs`: each text painted in the style of its run.
pub open spec fn highlighted(runs: Seq<Run>) -> Seq<char>
    decreases runs.len(),
{
    if runs.len() == 0 {
        Seq::empty()
    } else {
        highlighted(runs.drop_last()) + ansi_painted(run_style(runs.last()), runs.last().text)
    }
}

/// Whether `SyntaxSet::find_syntax_by_token` finds a syntax for `token` in the
/// syntaxes that `syntect` ships.
pub uninterp spec fn syntax_known(token: Seq<char>) -> bool;

/// The runs into which `syntect` cuts `line`, with the colours and fonts of
/// the theme of the name `theme`, where the line follows the lines `before`
/// in code of the syntax that `syntax` names.
pub uninterp spec fn highlighted_runs(
    theme: Seq<char>,
    syntax: Seq<char>,
    before: Seq<Seq<char>>,
    line: Seq<char>,
) -> Seq<Run>;

/// What is written for the lines `lines` of a code block at the column
/// `indent` that follow the lines of `highlighted`: the runs of each line,
/// each run painted in its style, and after each line feed the indent of the
/// line that follows.
pub open spec fn highlighted_code(highlighted: Highlighted, indent: u16, lines: Seq<Seq<char>>) -> Seq<
    char,
>
    decreases lines.len(),
{
    if lines.len() == 0 {
        Seq::empty()
    } else {
        let before = lines.drop_last();
        let line = lines.last();
        highlighted_code(highlighted, indent, before) + self::highlighted(
            highlighted_runs(
                highlighted.theme,
                highlighted.syntax,
                highlighted.fed + before,
                line,
            ),
        ) + if crate::text::ends_with_newline(line) {
            crate::text::spaces(indent as nat)
        } else {
            Seq::empty()
        }
    }
}

impl Syntaxes {
    /// The syntaxes that `syntect` ships, for lines that keep the line feed
    /// at their end, as all lines do here.
    pub fn load_defaults_newlines() -> Syntaxes {
        load_newlines()
    }
}

impl HighlightTheme {
    /// The theme of the name `name` of those that `syntect` ships; none where
    /// there is none of that name.
    pub fn load_default(name: &str) -> (r: Option<HighlightTheme>)
        ensures
            r matches Some(theme) ==> theme@ == name@,
    {
        load_theme(name)
    }
}

impl Highlighting {
    /// The highlighting at the start of a code block in the syntax that
    /// `token` names, be it as the extension of a file or as the name of a
    /// language; none where the syntaxes hold none of that name.
    pub fn start(syntaxes: &Syntaxes, theme: &HighlightTheme, token: &str) -> (r: Option<
        Highlighting,
    >)
        ensures
            match r {
                Some(highlighting) => syntax_known(token@) && highlighting@ == Highlighted::start(
                    theme@,
                    token@,
                ),
                None => !syntax_known(token@),
            },
    {
        start(syntaxes, theme, token)
    }

    /// Highlight `line`, the next line of the code block, and give its runs.
    /// The line is one of the lines so far from then on.
    pub fn feed(&mut self, line: &str) -> (segments: Vec<Segment>)
        ensures
            runs_of(segments@) == highlighted_runs(
                old(self)@.theme,
                old(self)@.syntax,
                old(self)@.fed,
                line@,
            ),
            joined_text(runs_of(segments@)) == line@,
            final(self)@ == old(self)@.after(seq![line@]),
    {
        let segments = highlight(self, line);
        let ghost before = self.fed@;
        self.fed.push(String::from_str(line));
        assert(texts_of(self.fed@) =~= texts_of(before) + seq![line@]);
        segments
    }
}

/// The lines of `text`, each with the line feed that ends it, from
/// `syntect::util::LinesWithEndings`.
///
/// That iterator cuts after every line feed and gives what is left, if
/// anything, as the last line; the contract says the same with
/// `lines_with_endings`.  It is not proved.
#[verifier::external_body]
pub(crate) fn split_lines(text: &str) -> (lines: Vec<String>)
    ensures
        texts_of(lines@) == lines_with_endings(text@),
{
    syntect::util::LinesWithEndings::from(text).map(String::from).collect()
}

/// The syntaxes of `SyntaxSet::load_defaults_newlines`, which `syntect` reads
/// from what it ships.  Nothing is claimed of them.
#[verifier::external_body]
fn load_newlines() -> Syntaxes {
    Syntaxes { set: Arc::new(SyntaxSet::load_defaults_newlines()) }
}

/// The theme of the name `name` of `ThemeSet::load_defaults`, which `syntect`
/// reads from what it ships; none where it ships none of that name.  The
/// contract claims that a theme that comes back has the name asked for.
#[verifier::external_body]
fn load_theme(name: &str) -> (r: Option<HighlightTheme>)
    ensures
        r matches Some(theme) ==> theme@ == name@,
{
    let theme = ThemeSet::load_defaults().themes.remove(name)?;
    Some(HighlightTheme { theme: Arc::new(theme), name: String::from(name) })
}

/// The parser that `ParseState::new` makes for the syntax that
/// `SyntaxSet::find_syntax_by_token` finds for `token`, and the highlighter
/// that `HighlightState::new` makes for the theme, with an empty stack of
/// scopes; none where no syntax is found.
///
/// The contract names whether a syntax is found, and claims that what comes
/// back stands at the start of a code block: no line went before.
/// `ParseState::new` looks up the first context of the syntax, which every
/// syntax of a set that `syntect` built has; `Syntaxes` holds no other set.
#[verifier::external_body]
fn start(syntaxes: &Syntaxes, theme: &HighlightTheme, token: &str) -> (r: Option<Highlighting>)
    ensures
        match r {
            Some(highlighting) => syntax_known(token@) && highlighting@ == Highlighted::start(
                theme@,
                token@,
            ),
            None => !syntax_known(token@),
        },
{
    let syntax = syntaxes.set.find_syntax_by_token(token)?;
    let highlighter = HighlightState::new(&Highlighter::new(&theme.theme), ScopeStack::new());
    Some(Highlighting {
        parser: ParseState::new(syntax), highlighter,
        set: syntaxes.set.clone(), theme: theme.theme.clone(),
        theme_name: theme.name.clone(), syntax: String::from(token), fed: Vec::new(),
    })
}

/// Highlights `line`: `ParseState::parse_line` parses it, and a
/// `HighlightIterator` over the result gives the runs of text with their
/// styles.  Both states move on to the end of the line.
///
/// `parse_line` has to be given the set of syntaxes that the state was made
/// from, and is: the highlighting holds that set, and its theme.  The
/// contract names the runs, as what follows from the theme, the syntax and
/// the lines that went before, which the two states are made of and nothing
/// else; and it claims what the iterator is documented to give: runs whose
/// texts, joined, are the line.  Neither is proved.  The lines that went
/// before are kept by `Highlighting::feed`, the one caller.
#[verifier::external_body]
fn highlight(highlighting: &mut Highlighting, line: &str) -> (segments: Vec<Segment>)
    ensures
        runs_of(segments@) == highlighted_runs(
            old(highlighting)@.theme,
            old(highlighting)@.syntax,
            old(highlighting)@.fed,
            line@,
        ),
        joined_text(runs_of(segments@)) == line@,
        final(highlighting)@ == old(highlighting)@,
{
    let operations = highlighting.parser.parse_line(line, &highlighting.set);
    let highlighter = Highlighter::new(&highlighting.theme);
    HighlightIterator::new(&mut highlighting.highlighter, &operations, line, &highlighter).map(|(style, text)| Segment {
        red: style.foreground.r, green: style.foreground.g, blue: style.foreground.b,
        bold: style.font_style.contains(syntect::highlighting::FontStyle::BOLD),
        italic: style.font_style.contains(syntect::highlighting::FontStyle::ITALIC),
        underline: style.font_style.contains(syntect::highlighting::FontStyle::UNDERLINE),
        text: String::from(text),
    }).collect()
}

/// The colour of the terminal for a colour of the Solarized palette.
pub fn to_terminal_colour(red: u8, green: u8, blue: u8) -> (r: Option<Colour>)
    ensures
        r == terminal_colour(red, green, blue),
{
    if red == 0xb5 && green == 0x89 && blue == 0x00 {
        Some(Colour::Yellow)
    } else if red == 0xcb && green == 0x4b && blue == 0x16 {
        Some(Colour::Fixed(9))
    } else if red == 0xdc && green == 0x32 && blue == 0x2f {
        Some(Colour::Red)
    } else if red == 0xd3 && green == 0x36 && blue == 0x82 {
        Some(Colour::Purple)
    } else if red == 0x6c && green == 0x71 && blue == 0xc4 {
        Some(Colour::Fixed(13))
    } else if red == 0x26 && green == 0x8b && blue == 0xd2 {
        Some(Colour::Blue)
    } else if red == 0x2a && green == 0xa1 && blue == 0x98 {
        Some(Colour::Cyan)
    } else if red == 0x85 && green == 0x99 && blue == 0x00 {
        Some(Colour::Green)
    } else {
        None
    }
}

/// Write `segments` to `out`, each text painted in the style of its segment.
pub fn write_as_ansi(out: &mut String, ansi: AnsiStyle, segments: &Vec<Segment>)
    ensures
        final(out)@ == old(out)@ + highlighted(runs_of(segments@)),
{
    let ghost runs = runs_of(segments@);
    let mut i: usize = 0;
    assert(runs.take(0) =~= Seq::empty());
    while i < segments.len()
        invariant
            i <= segments@.len(),
            runs == runs_of(segments@),
            out@ == old(out)@ + highlighted(runs.take(i as int)),
        decreases segments@.len() - i,
    {
        let segment = &segments[i];
        let style = Style {
            foreground: to_terminal_colour(segment.red, segment.green, segment.blue),
            is_bold: segment.bold,
            is_italic: segment.italic,
            is_underline: segment.underline,
            is_strikethrough: false,
        };
        ansi.write_styled(out, &style, segment.text.as_str());
        assert(runs.take(i + 1).drop_last() =~= runs.take(i as int));
        assert(runs.take(i + 1).last() == segment@);
        i += 1;
    }
    assert(runs.take(i as int) =~= runs);
}

} // verus!
