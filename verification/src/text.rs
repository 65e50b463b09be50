//! Sequences of characters: the model of everything that is written.
//!
//! All output of this crate is appended to a `String`, and all contracts speak
//! of the characters appended, as a `Seq<char>`.

use vstd::prelude::*;
use vstd::string::StrSliceExecFns;
use vstd::string::StringExecFns;

verus! {

/// `n` copies of `unit`, one after the other.
pub open spec fn repeated(unit: Seq<char>, n: nat) -> Seq<char>
    decreases n,
{
    if n == 0 {
        Seq::empty()
    } else {
        repeated(unit, (n - 1) as nat) + unit
    }
}

/// `n` spaces.
pub open spec fn spaces(n: nat) -> Seq<char> {
    repeated(seq![' '], n)
}

/// The character of the decimal digit `d`.
pub open spec fn digit(d: nat) -> char
    recommends
        d < 10,
{
    if d == 0 {
        '0'
    } else if d == 1 {
        '1'
    } else if d == 2 {
        '2'
    } else if d == 3 {
        '3'
    } else if d == 4 {
        '4'
    } else if d == 5 {
        '5'
    } else if d == 6 {
        '6'
    } else if d == 7 {
        '7'
    } else if d == 8 {
        '8'
    } else {
        '9'
    }
}

/// The decimal notation of `n`, without sign or leading zeros.
pub open spec fn decimal(n: nat) -> Seq<char>
    decreases n,
{
    if n < 10 {
        seq![digit(n)]
    } else {
        decimal(n / 10).push(digit(n % 10))
    }
}

/// `text`, with spaces in front of it until it is `width` characters long.
pub open spec fn right_aligned(text: Seq<char>, width: nat) -> Seq<char> {
    if text.len() >= width {
        text
    } else {
        spaces((width - text.len()) as nat) + text
    }
}

/// Whether the last character of `text` is a line feed.
pub open spec fn ends_with_newline(text: Seq<char>) -> bool {
    text.len() > 0 && text.last() == '\n'
}

/// The length of the first line of `text`, its line feed included.
pub open spec fn first_line_len(text: Seq<char>) -> int
    decreases text.len(),
{
    if text.len() == 0 {
        0
    } else if text[0] == '\n' {
        1
    } else {
        1 + first_line_len(text.skip(1))
    }
}

/// The lines of `text`, each with the line feed that ends it.  Only the last
/// line may lack one.  The lines joined give `text` again.
pub open spec fn lines_with_endings(text: Seq<char>) -> Seq<Seq<char>>
    decreases text.len(),
    via lines_with_endings_decreases
{
    if text.len() == 0 {
        Seq::empty()
    } else {
        let n = first_line_len(text);
        seq![text.take(n)] + lines_with_endings(text.skip(n))
    }
}

#[via_fn]
proof fn lines_with_endings_decreases(text: Seq<char>) {
    if text.len() > 0 {
        lemma_first_line_len(text);
    }
}

/// The first line of a text that is not empty holds at least one character and
/// at most the whole text; a line feed can only be its last character.
pub proof fn lemma_first_line_len(text: Seq<char>)
    requires
        text.len() > 0,
    ensures
        1 <= first_line_len(text) <= text.len(),
        forall|i: int| 0 <= i < first_line_len(text) - 1 ==> text[i] != '\n',
        first_line_len(text) < text.len() ==> text[first_line_len(text) - 1] == '\n',
    decreases text.len(),
{
    if text[0] != '\n' {
        let rest = text.skip(1);
        if rest.len() > 0 {
            lemma_first_line_len(rest);
            assert forall|i: int| 0 <= i < first_line_len(text) - 1 implies text[i] != '\n' by {
                if i > 0 {
                    assert(text[i] == rest[i - 1]);
                }
            }
            if first_line_len(text) < text.len() {
                assert(text[first_line_len(text) - 1] == rest[first_line_len(rest) - 1]);
            }
        }
    }
}

/// Append `n` copies of `unit` to `out`.
pub fn push_repeated(out: &mut String, unit: &str, n: usize)
    ensures
        final(out)@ == old(out)@ + repeated(unit@, n as nat),
{
    let mut i: usize = 0;
    while i < n
        invariant
            i <= n,
            out@ == old(out)@ + repeated(unit@, i as nat),
        decreases n - i,
    {
        out.append(unit);
        i += 1;
    }
}

/// Append `n` spaces to `out`.
pub fn push_spaces(out: &mut String, n: usize)
    ensures
        final(out)@ == old(out)@ + spaces(n as nat),
{
    proof {
        reveal_strlit(" ");
        assert(" "@ =~= seq![' ']);
    }
    push_repeated(out, " ", n);
}

/// The one-character string of the decimal digit `d`.
fn digit_str(d: u64) -> (s: &'static str)
    requires
        d < 10,
    ensures
        s@ == seq![digit(d as nat)],
{
    proof {
        reveal_strlit("0");
        reveal_strlit("1");
        reveal_strlit("2");
        reveal_strlit("3");
        reveal_strlit("4");
        reveal_strlit("5");
        reveal_strlit("6");
        reveal_strlit("7");
        reveal_strlit("8");
        reveal_strlit("9");
    }
    let s = if d == 0 {
        "0"
    } else if d == 1 {
        "1"
    } else if d == 2 {
        "2"
    } else if d == 3 {
        "3"
    } else if d == 4 {
        "4"
    } else if d == 5 {
        "5"
    } else if d == 6 {
        "6"
    } else if d == 7 {
        "7"
    } else if d == 8 {
        "8"
    } else {
        "9"
    };
    assert(s@ =~= seq![digit(d as nat)]);
    s
}

/// Append the decimal notation of `n` to `out`.
pub fn push_decimal(out: &mut String, n: u64)
    ensures
        final(out)@ == old(out)@ + decimal(n as nat),
    decreases n,
{
    if n >= 10 {
        push_decimal(out, n / 10);
    }
    out.append(digit_str(n % 10));
}

/// Append the decimal notation of `n` to `out`, after a space if `n` has one
/// digit only, so that at least two columns are taken.
pub fn push_two_columns(out: &mut String, n: u64)
    ensures
        final(out)@ == old(out)@ + right_aligned(decimal(n as nat), 2),
{
    if n < 10 {
        assert(spaces(1) =~= seq![' ']) by {
            assert(repeated(seq![' '], 0) =~= Seq::<char>::empty());
        }
        push_spaces(out, 1);
    } else {
        assert(decimal(n as nat).len() >= 2) by {
            assert(decimal((n / 10) as nat).len() >= 1) by {
                lemma_decimal_len((n / 10) as nat);
            }
        }
    }
    push_decimal(out, n);
}

/// The decimal notation of a number has at least one digit.
pub proof fn lemma_decimal_len(n: nat)
    ensures
        decimal(n).len() >= 1,
    decreases n,
{
    if n >= 10 {
        lemma_decimal_len(n / 10);
    }
}

/// Whether `text` ends with a line feed.
pub fn has_newline_at_end(text: &str) -> (r: bool)
    ensures
        r == ends_with_newline(text@),
{
    let n = text.unicode_len();
    n > 0 && text.get_char(n - 1) == '\n'
}

} // verus!
