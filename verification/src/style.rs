//! Colored text for the terminal, made by `colored`.
//!
//! Whether `colored` adds escape sequences at all is decided by the
//! environment of the process. A painted text is therefore known up to that
//! one choice: it is either the text as it was, or the text between the
//! sequence that switches its style on and the sequence that resets it.

use crate::text::contains;
use colored::Colorize;
use vstd::prelude::*;

verus! {

/// The colors that lines and indicators are painted in.
#[derive(Clone, Copy, PartialEq, Eq, Structural, Debug)]
pub enum Ink {
    Red,
    Yellow,
    Green,
    Blue,
    White,
    Cyan,
    BrightRed,
    BrightYellow,
    BrightGreen,
    BrightBlue,
    BrightWhite,
}

impl Ink {
    /// The name by which `colored` knows the color.
    pub open spec fn name_text(self) -> Seq<char> {
        match self {
            Ink::Red => "red"@,
            Ink::Yellow => "yellow"@,
            Ink::Green => "green"@,
            Ink::Blue => "blue"@,
            Ink::White => "white"@,
            Ink::Cyan => "cyan"@,
            Ink::BrightRed => "bright red"@,
            Ink::BrightYellow => "bright yellow"@,
            Ink::BrightGreen => "bright green"@,
            Ink::BrightBlue => "bright blue"@,
            Ink::BrightWhite => "bright white"@,
        }
    }

    /// The number that switches the color on in a terminal.
    pub open spec fn code(self) -> Seq<char> {
        match self {
            Ink::Red => "31"@,
            Ink::Yellow => "33"@,
            Ink::Green => "32"@,
            Ink::Blue => "34"@,
            Ink::White => "37"@,
            Ink::Cyan => "36"@,
            Ink::BrightRed => "91"@,
            Ink::BrightYellow => "93"@,
            Ink::BrightGreen => "92"@,
            Ink::BrightBlue => "94"@,
            Ink::BrightWhite => "97"@,
        }
    }

    /// The name by which `colored` knows the color.
    pub fn name(&self) -> (s: &'static str)
        ensures
            s@ == self.name_text(),
    {
        match self {
            Ink::Red => "red",
            Ink::Yellow => "yellow",
            Ink::Green => "green",
            Ink::Blue => "blue",
            Ink::White => "white",
            Ink::Cyan => "cyan",
            Ink::BrightRed => "bright red",
            Ink::BrightYellow => "bright yellow",
            Ink::BrightGreen => "bright green",
            Ink::BrightBlue => "bright blue",
            Ink::BrightWhite => "bright white",
        }
    }
}

/// The sequence that ends a painted text.
pub open spec fn reset() -> Seq<char> {
    "\x1B[0m"@
}

/// The sequence that switches on the style with the numbers `code`.
pub open spec fn opening(code: Seq<char>) -> Seq<char> {
    "\x1B["@ + code + "m"@
}

/// The numbers of a bold style in the color with the number `code`.
pub open spec fn bold(code: Seq<char>) -> Seq<char> {
    "1;"@ + code
}

/// Whether `out` is `text` painted in the style with the numbers `code`: the
/// text as it was, where the process does not color its output, and else
/// the text between the opening and the reset sequence. Of a text that
/// holds a reset sequence itself nothing is said.
pub open spec fn painted(out: Seq<char>, text: Seq<char>, code: Seq<char>) -> bool {
    ||| out == text
    ||| out == opening(code) + text + reset()
    ||| contains(text, reset())
}

/// Whether `name` is one of the names of `Ink`.
pub open spec fn is_ink_name(name: Seq<char>) -> bool {
    exists|ink: Ink| name == #[trigger] ink.name_text()
}

/// The number that switches on the color that `colored` knows by `name`.
/// Names that are not names of `Ink` are not told apart here.
pub open spec fn code_of_name(name: Seq<char>) -> Seq<char> {
    if name == "red"@ {
        "31"@
    } else if name == "yellow"@ {
        "33"@
    } else if name == "green"@ {
        "32"@
    } else if name == "blue"@ {
        "34"@
    } else if name == "cyan"@ {
        "36"@
    } else if name == "bright red"@ {
        "91"@
    } else if name == "bright yellow"@ {
        "93"@
    } else if name == "bright green"@ {
        "92"@
    } else if name == "bright blue"@ {
        "94"@
    } else if name == "bright white"@ {
        "97"@
    } else {
        "37"@
    }
}

/// Each color has the number that goes with its name.
pub proof fn lemma_code_of_ink(ink: Ink)
    ensures
        code_of_name(ink.name_text()) == ink.code(),
{
    reveal_strlit("red");
    reveal_strlit("yellow");
    reveal_strlit("green");
    reveal_strlit("blue");
    reveal_strlit("white");
    reveal_strlit("cyan");
    reveal_strlit("bright red");
    reveal_strlit("bright yellow");
    reveal_strlit("bright green");
    reveal_strlit("bright blue");
    reveal_strlit("bright white");
    assert("red"@.len() == 3);
    assert("yellow"@.len() == 6);
    assert("green"@.len() == 5);
    assert("blue"@.len() == 4);
    assert("white"@.len() == 5);
    assert("cyan"@.len() == 4);
    assert("bright red"@.len() == 10);
    assert("bright yellow"@.len() == 13);
    assert("bright green"@.len() == 12);
    assert("bright blue"@.len() == 11);
    assert("bright white"@.len() == 12);
    assert("green"@[0] == 'g' && "white"@[0] == 'w');
    assert("blue"@[0] == 'b' && "cyan"@[0] == 'c');
    assert("bright green"@[7] == 'g' && "bright white"@[7] == 'w');
}

/// `Colorize::color` on `text` with the color named `color`, written out as
/// a string. `colored` looks the name up, takes the number of the color,
/// and writes the text between the opening sequence with that number and
/// the reset sequence; where the process does not color its output, it
/// writes the text alone. In a text that holds a reset sequence it puts the
/// opening sequence again behind each, which is not spelled out here.
#[verifier::external_body]
pub(crate) fn paint(text: &str, color: &str) -> (out: String)
    requires
        is_ink_name(color@),
    ensures
        painted(out@, text@, code_of_name(color@)),
{
    text.color(color).to_string()
}

/// `Colorize::color` and then `Colorize::bold` on `text`, written out as a
/// string: as `paint`, with the number of the bold style and a semicolon
/// before the number of the color.
#[verifier::external_body]
pub(crate) fn paint_bold(text: &str, color: &str) -> (out: String)
    requires
        is_ink_name(color@),
    ensures
        painted(out@, text@, bold(code_of_name(color@))),
{
    text.color(color).bold().to_string()
}

/// The number of the dimmed style.
pub open spec fn dim() -> Seq<char> {
    "2"@
}

/// `Colorize::dimmed` on `text`, written out as a string: as `paint`, with
/// the number of the dimmed style and no color.
#[verifier::external_body]
pub(crate) fn paint_dimmed(text: &str) -> (out: String)
    ensures
        painted(out@, text@, dim()),
{
    text.dimmed().to_string()
}

/// `Colorize::normal` on `text`, written out as a string. A text without
/// color and style is written out as it is, whatever the environment.
#[verifier::external_body]
pub(crate) fn paint_plain(text: &str) -> (out: String)
    ensures
        out@ == text@,
{
    text.normal().to_string()
}

/// `colored::control::set_override(true)`: from now on the process colors
/// its output whatever its environment says.
#[verifier::external_body]
pub(crate) fn force_colors() {
    colored::control::set_override(true)
}

/// `text` painted in the color `ink`.
pub(crate) fn tinted(text: &str, ink: Ink) -> (out: String)
    ensures
        painted(out@, text@, ink.code()),
{
    proof {
        lemma_code_of_ink(ink);
    }
    paint(text, ink.name())
}

/// `text` painted in the color `ink`, bold.
pub(crate) fn tinted_bold(text: &str, ink: Ink) -> (out: String)
    ensures
        painted(out@, text@, bold(ink.code())),
{
    proof {
        lemma_code_of_ink(ink);
    }
    paint_bold(text, ink.name())
}

} // verus!
