//! The escape sequences of iTerm2: marks and inline images.

use crate::terminal::encoding::{base64_encoded, base64_fits, encode};
use crate::terminal::osc::{osc, write_osc};
use crate::text::{decimal, push_decimal};
use vstd::prelude::*;
use vstd::string::StringExecFns;
use vstd::utf8::encode_utf8;

verus! {

/// Marks, which iTerm2 lets a user jump between.
#[derive(Clone, Copy, Debug, PartialEq, Eq, Structural)]
pub struct ITerm2Marks;

impl ITerm2Marks {
    /// Set a mark at the line of the cursor.
    pub fn set_mark(self, out: &mut String)
        ensures
            final(out)@ == old(out)@ + osc("1337;SetMark"@),
    {
        write_osc(out, "1337;SetMark");
    }
}

/// The command that shows a file of `size` bytes inline, where `contents` is
/// the file in base64 and `name`, where there is one, its name in base64.
pub open spec fn encoded_file_command(name: Option<Seq<char>>, size: nat, contents: Seq<char>) -> Seq<
    char,
> {
    let named = match name {
        Some(name) => "name="@ + name + ";"@,
        None => Seq::empty(),
    };
    "1337;File="@ + named + "size="@ + decimal(size) + ";inline=1:"@ + contents
}

/// The command that shows the file `contents` inline, under the name `name`
/// where there is one: the name and the contents in base64, the size in bytes.
pub open spec fn file_command(name: Option<Seq<char>>, contents: Seq<u8>) -> Seq<char> {
    encoded_file_command(
        match name {
            Some(name) => Some(base64_encoded(encode_utf8(name))),
            None => None,
        },
        contents.len(),
        base64_encoded(contents),
    )
}

/// The characters of a text that may be absent.
pub open spec fn characters(text: Option<&str>) -> Option<Seq<char>> {
    match text {
        Some(text) => Some(text@),
        None => None,
    }
}

/// Inline images, as iTerm2 shows them.
#[derive(Clone, Copy, Debug, PartialEq, Eq, Structural)]
pub struct ITerm2Images;

impl ITerm2Images {
    /// Write the image file `contents` to show inline, under the name `name`
    /// where there is one.
    pub fn write_inline_image(self, out: &mut String, name: Option<&str>, contents: &[u8])
        requires
            base64_fits(contents@.len()),
            name matches Some(n) ==> base64_fits(encode_utf8(n@).len()),
        ensures
            final(out)@ == old(out)@ + osc(file_command(characters(name), contents@)),
    {
        let encoded = encode(contents);
        match name {
            Some(name) => {
                let encoded_name = encode(name.as_bytes());
                self.write_encoded(
                    out,
                    Some(encoded_name.as_str()),
                    contents.len(),
                    encoded.as_str(),
                );
            },
            None => self.write_encoded(out, None, contents.len(), encoded.as_str()),
        }
    }

    /// Write a file of `size` bytes to show inline, where `contents` is the
    /// file in base64 and `name`, where there is one, its name in base64.
    pub fn write_encoded(self, out: &mut String, name: Option<&str>, size: usize, contents: &str)
        ensures
            final(out)@ == old(out)@ + osc(
                encoded_file_command(characters(name), size as nat, contents@),
            ),
    {
        let mut command = String::from_str("1337;File=");
        match name {
            Some(name) => {
                command.append("name=");
                command.append(name);
                command.append(";");
            },
            None => {},
        }
        command.append("size=");
        push_decimal(&mut command, size as u64);
        command.append(";inline=1:");
        command.append(contents);
        assert(command@ =~= encoded_file_command(characters(name), size as nat, contents@));
        write_osc(out, command.as_str());
    }
}

} // verus!
