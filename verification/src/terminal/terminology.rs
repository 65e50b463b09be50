//! The escape sequences of Terminology, which shows an image in place of a
//! rectangle of characters.

use crate::terminal::size::TerminalSize;
use crate::text::{decimal, push_decimal, push_repeated, repeated};
use vstd::prelude::*;
use vstd::string::StringExecFns;

verus! {

/// The number of lines that an image takes: `lines` where the caller could
/// work it out from the proportions of the image, half the height of the
/// terminal where it could not.
pub open spec fn image_lines(size: TerminalSize, lines: Option<usize>) -> nat {
    match lines {
        Some(lines) => lines as nat,
        None => (size.rows / 2) as nat,
    }
}

/// One row of the rectangle that the image replaces: `columns` times `#`
/// between the sequences that begin and end a row, and a line feed.
pub open spec fn image_row(columns: nat) -> Seq<char> {
    "\x1b}ib\x00"@ + repeated("#"@, columns) + "\x1b}ie\x00\n"@
}

/// The command that shows the image at `path` inline: the sequence that names
/// the image and its size in cells, then a rectangle of that many rows and
/// columns for the image to replace.
pub open spec fn image_command(columns: nat, lines: nat, path: Seq<char>) -> Seq<char> {
    "\x1b}ic#"@ + decimal(columns) + ";"@ + decimal(lines) + ";"@ + path + "\x00"@ + repeated(
        image_row(columns),
        lines,
    )
}

/// Write the image at `path` to show inline, as wide as the terminal.
///
/// `lines` is the height in lines that gives the image its proportions, where
/// the caller could read the image's dimensions.
pub fn write_inline_image(out: &mut String, size: TerminalSize, lines: Option<usize>, path: &str)
    ensures
        final(out)@ == old(out)@ + image_command(
            size.columns as nat,
            image_lines(size, lines),
            path@,
        ),
{
    let columns = size.columns;
    let lines: usize = match lines {
        Some(lines) => lines,
        None => size.rows / 2,
    };
    let mut row = String::from_str("\x1b}ib\x00");
    push_repeated(&mut row, "#", columns);
    row.append("\x1b}ie\x00\n");
    assert(row@ =~= image_row(columns as nat));

    let ghost before = out@;
    out.append("\x1b}ic#");
    push_decimal(out, columns as u64);
    out.append(";");
    push_decimal(out, lines as u64);
    out.append(";");
    out.append(path);
    out.append("\x00");
    push_repeated(out, row.as_str(), lines);
    assert(out@ =~= before + image_command(columns as nat, lines as nat, path@));
}

/// Inline images, as Terminology shows them.
#[derive(Clone, Copy, Debug, PartialEq, Eq, Structural)]
pub struct TerminologyImages;

impl TerminologyImages {
    /// Write the image at `url` to show inline, as wide as the terminal.
    pub fn write_inline_image(
        self,
        out: &mut String,
        size: TerminalSize,
        lines: Option<usize>,
        url: &str,
    )
        ensures
            final(out)@ == old(out)@ + image_command(
                size.columns as nat,
                image_lines(size, lines),
                url@,
            ),
    {
        write_inline_image(out, size, lines, url);
    }
}

} // verus!
