//! Text styles, and how a terminal that understands ANSI escapes shows them.

use vstd::prelude::*;
use vstd::string::StringExecFns;

verus! {

/// A foreground colour.
#[derive(Clone, Copy, Debug, PartialEq, Eq, Structural)]
pub enum Colour {
    Red,
    Green,
    Yellow,
    Blue,
    Purple,
    Cyan,
    /// A colour of the 256-colour palette, by its number.
    Fixed(u8),
}

/// The style of a run of text.
#[derive(Clone, Copy, Debug, PartialEq, Eq, Structural)]
pub struct Style {
    pub foreground: Option<Colour>,
    pub is_bold: bool,
    pub is_italic: bool,
    pub is_underline: bool,
    pub is_strikethrough: bool,
}

impl Style {
    /// The style without colour or attribute.
    pub open spec fn plain() -> Style {
        Style {
            foreground: None,
            is_bold: false,
            is_italic: false,
            is_underline: false,
            is_strikethrough: false,
        }
    }

    /// This style with the foreground colour `colour`.
    pub open spec fn with_fg(self, colour: Colour) -> Style {
        Style { foreground: Some(colour), ..self }
    }

    /// This style, bold.
    pub open spec fn with_bold(self) -> Style {
        Style { is_bold: true, ..self }
    }

    /// This style, italic.
    pub open spec fn with_italic(self) -> Style {
        Style { is_italic: true, ..self }
    }

    /// This style, italic if it was not, and upright if it was italic.
    pub open spec fn with_italic_toggled(self) -> Style {
        Style { is_italic: !self.is_italic, ..self }
    }

    /// This style, struck through.
    pub open spec fn with_strikethrough(self) -> Style {
        Style { is_strikethrough: true, ..self }
    }

    /// The style without colour or attribute.
    pub fn new() -> (r: Style)
        ensures
            r == Style::plain(),
    {
        Style {
            foreground: None,
            is_bold: false,
            is_italic: false,
            is_underline: false,
            is_strikethrough: false,
        }
    }

    /// This style with the foreground colour `colour`.
    pub fn fg(self, colour: Colour) -> (r: Style)
        ensures
            r == self.with_fg(colour),
    {
        Style { foreground: Some(colour), ..self }
    }

    /// This style, bold.
    pub fn bold(self) -> (r: Style)
        ensures
            r == self.with_bold(),
    {
        Style { is_bold: true, ..self }
    }

    /// This style, italic.
    pub fn italic(self) -> (r: Style)
        ensures
            r == self.with_italic(),
    {
        Style { is_italic: true, ..self }
    }

    /// This style, italic if it was not, and upright if it was italic.
    pub fn toggle_italic(self) -> (r: Style)
        ensures
            r == self.with_italic_toggled(),
    {
        Style { is_italic: !self.is_italic, ..self }
    }

    /// This style, struck through.
    pub fn strikethrough(self) -> (r: Style)
        ensures
            r == self.with_strikethrough(),
    {
        Style { is_strikethrough: true, ..self }
    }
}

/// What `ansi_term` writes for `text` painted in `style`: the escape sequence
/// that selects the style, the text, and the sequence that resets it.
pub uninterp spec fn ansi_painted(style: Style, text: Seq<char>) -> Seq<char>;

/// `text` painted in `style`, by `ansi_term::Style::paint`.
///
/// The style handed to `ansi_term` has the same foreground colour and
/// attributes as `style`, and nothing else set.  The contract gives what comes
/// back a name; it is not proved.
#[verifier::external_body]
fn paint(style: &Style, text: &str) -> (r: String)
    ensures
        r@ == ansi_painted(*style, text@),
{
    let foreground = style.foreground.map(|colour| match colour {
        Colour::Red => ansi_term::Colour::Red, Colour::Green => ansi_term::Colour::Green,
        Colour::Yellow => ansi_term::Colour::Yellow, Colour::Blue => ansi_term::Colour::Blue,
        Colour::Purple => ansi_term::Colour::Purple, Colour::Cyan => ansi_term::Colour::Cyan,
        Colour::Fixed(number) => ansi_term::Colour::Fixed(number),
    });
    let mut outside = ansi_term::Style { foreground, ..ansi_term::Style::default() };
    outside.is_bold = style.is_bold;
    outside.is_italic = style.is_italic;
    outside.is_underline = style.is_underline;
    outside.is_strikethrough = style.is_strikethrough;
    outside.paint(text).to_string()
}

/// Styled text by ANSI escape sequences.
#[derive(Clone, Copy, Debug, PartialEq, Eq, Structural)]
pub struct AnsiStyle;

impl AnsiStyle {
    /// Append `text`, painted in `style`, to `out`.
    pub fn write_styled(self, out: &mut String, style: &Style, text: &str)
        ensures
            final(out)@ == old(out)@ + ansi_painted(*style, text@),
    {
        let painted = paint(style, text);
        out.append(painted.as_str());
    }
}

} // verus!
