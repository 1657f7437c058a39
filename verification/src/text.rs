//! Text helpers shared by the prompt builder: decimal rendering of a count,
//! the escaped form of a source text, and what it means for one text to
//! occur inside another.

use vstd::prelude::*;
use vstd::string::*;

verus! {

/// `part` occurs in `text` as one contiguous run of characters.
pub open spec fn contains(text: Seq<char>, part: Seq<char>) -> bool {
    exists|before: Seq<char>, after: Seq<char>| text == #[trigger] (before + part + after)
}

/// A text occurs in whatever is written around it.
pub proof fn lemma_contains_infix(before: Seq<char>, part: Seq<char>, after: Seq<char>)
    ensures
        contains(before + part + after, part),
{
}

/// The character that stands for one decimal digit.
pub open spec fn digit_char(d: int) -> char {
    if d == 0 {
        '0'
    } else if d == 1 {
        '1'
    } else if d == 2 {
        '2'
    } else if d == 3 {
        '3'
    } else if d == 4 {
        '4'
    } else if d == 5 {
        '5'
    } else if d == 6 {
        '6'
    } else if d == 7 {
        '7'
    } else if d == 8 {
        '8'
    } else {
        '9'
    }
}

/// The decimal digits of a natural number, most significant first, without
/// leading zeros.
pub open spec fn digits(n: nat) -> Seq<char>
    decreases n,
{
    if n < 10 {
        seq![digit_char(n as int)]
    } else {
        digits(n / 10).push(digit_char((n % 10) as int))
    }
}

/// The decimal form of an integer: its digits, after a minus sign when it is
/// negative.
pub open spec fn decimal(n: int) -> Seq<char> {
    if n < 0 {
        seq!['-'] + digits((-n) as nat)
    } else {
        digits(n as nat)
    }
}

fn digit_str(d: u8) -> (s: &'static str)
    requires
        d < 10,
    ensures
        s@ == seq![digit_char(d as int)],
{
    proof {
        reveal_strlit("0");
        reveal_strlit("1");
        reveal_strlit("2");
        reveal_strlit("3");
        reveal_strlit("4");
        reveal_strlit("5");
        reveal_strlit("6");
        reveal_strlit("7");
        reveal_strlit("8");
        reveal_strlit("9");
    }
    let s = if d == 0 {
        "0"
    } else if d == 1 {
        "1"
    } else if d == 2 {
        "2"
    } else if d == 3 {
        "3"
    } else if d == 4 {
        "4"
    } else if d == 5 {
        "5"
    } else if d == 6 {
        "6"
    } else if d == 7 {
        "7"
    } else if d == 8 {
        "8"
    } else {
        "9"
    };
    assert(s@ =~= seq![digit_char(d as int)]);
    s
}

/// Renders a count in decimal.
pub fn i8_decimal(n: i8) -> (s: String)
    ensures
        s@ == decimal(n as int),
{
    let mut out = String::new();
    let magnitude: u8 = if n < 0 {
        proof {
            reveal_strlit("-");
        }
        out.append("-");
        (0 - (n as i16)) as u8
    } else {
        n as u8
    };
    let ghost sign = out@;
    assert(sign =~= if n < 0 { seq!['-'] } else { Seq::<char>::empty() });
    if magnitude >= 100 {
        out.append(digit_str(magnitude / 100));
    }
    if magnitude >= 10 {
        out.append(digit_str((magnitude / 10) % 10));
    }
    out.append(digit_str(magnitude % 10));
    proof {
        reveal_with_fuel(digits, 3);
        assert(out@ =~= sign + digits(magnitude as nat));
    }
    out
}

/// A character that is written as itself inside a quoted text: printable
/// ASCII other than the double quote and the backslash.
pub open spec fn plain_char(c: char) -> bool {
    ' ' <= c && c <= '~' && c != '"' && c != '\\'
}

/// A text made of plain characters only.
pub open spec fn is_plain(s: Seq<char>) -> bool {
    forall|i: int| 0 <= i < s.len() ==> plain_char(#[trigger] s[i])
}

/// A text between two double quotes.
pub open spec fn quoted(s: Seq<char>) -> Seq<char> {
    seq!['"'] + s + seq!['"']
}

/// The escaped, quoted form that the standard library's `Debug` formatting
/// gives a string.
pub uninterp spec fn debug_escaped(s: Seq<char>) -> Seq<char>;

/// Formats a text with `{:?}` (`<str as core::fmt::Debug>::fmt`).
///
/// Trusted: the result is named `debug_escaped`; for a text of plain
/// characters it is the text itself between two double quotes, since that
/// formatting escapes nothing but quotes, backslashes, control characters
/// and characters outside printable ASCII.
#[verifier::external_body]
pub(crate) fn debug_format(s: &str) -> (r: String)
    ensures
        r@ == debug_escaped(s@),
        is_plain(s@) ==> r@ == quoted(s@),
{
    format!("{:?}", s)
}

/// A result of two texts, by the characters each side holds.
pub open spec fn outcome_text(r: Result<String, String>) -> Result<Seq<char>, Seq<char>> {
    match r {
        Ok(t) => Ok(t@),
        Err(m) => Err(m@),
    }
}

} // verus!
