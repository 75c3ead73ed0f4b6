//! Terminal colors through owo-colors, with the escape sequences they write.
use vstd::prelude::*;

use owo_colors::AnsiColors;
use owo_colors::OwoColorize;

verus! {

#[verifier::external_type_specification]
pub struct ExAnsiColors(owo_colors::AnsiColors);

/// The Select Graphic Rendition sequence `ESC [ code m`.
pub open spec fn sgr(code: Seq<char>) -> Seq<char> {
    seq!['\x1b', '['] + code + seq!['m']
}

/// The parameter that selects `c` as foreground color.
pub open spec fn fg_code(c: AnsiColors) -> Seq<char> {
    match c {
        AnsiColors::Black => seq!['3', '0'],
        AnsiColors::Red => seq!['3', '1'],
        AnsiColors::Green => seq!['3', '2'],
        AnsiColors::Yellow => seq!['3', '3'],
        AnsiColors::Blue => seq!['3', '4'],
        AnsiColors::Magenta => seq!['3', '5'],
        AnsiColors::Cyan => seq!['3', '6'],
        AnsiColors::White => seq!['3', '7'],
        AnsiColors::Default => seq!['3', '9'],
        AnsiColors::BrightBlack => seq!['9', '0'],
        AnsiColors::BrightRed => seq!['9', '1'],
        AnsiColors::BrightGreen => seq!['9', '2'],
        AnsiColors::BrightYellow => seq!['9', '3'],
        AnsiColors::BrightBlue => seq!['9', '4'],
        AnsiColors::BrightMagenta => seq!['9', '5'],
        AnsiColors::BrightCyan => seq!['9', '6'],
        AnsiColors::BrightWhite => seq!['9', '7'],
    }
}

/// The parameter that selects `c` as background color.
pub open spec fn bg_code(c: AnsiColors) -> Seq<char> {
    match c {
        AnsiColors::Black => seq!['4', '0'],
        AnsiColors::Red => seq!['4', '1'],
        AnsiColors::Green => seq!['4', '2'],
        AnsiColors::Yellow => seq!['4', '3'],
        AnsiColors::Blue => seq!['4', '4'],
        AnsiColors::Magenta => seq!['4', '5'],
        AnsiColors::Cyan => seq!['4', '6'],
        AnsiColors::White => seq!['4', '7'],
        AnsiColors::Default => seq!['4', '9'],
        AnsiColors::BrightBlack => seq!['1', '0', '0'],
        AnsiColors::BrightRed => seq!['1', '0', '1'],
        AnsiColors::BrightGreen => seq!['1', '0', '2'],
        AnsiColors::BrightYellow => seq!['1', '0', '3'],
        AnsiColors::BrightBlue => seq!['1', '0', '4'],
        AnsiColors::BrightMagenta => seq!['1', '0', '5'],
        AnsiColors::BrightCyan => seq!['1', '0', '6'],
        AnsiColors::BrightWhite => seq!['1', '0', '7'],
    }
}

/// `text` in foreground color `c`, followed by the default foreground.
pub open spec fn fg(c: AnsiColors, text: Seq<char>) -> Seq<char> {
    sgr(fg_code(c)) + text + sgr(seq!['3', '9'])
}

/// `text` on background color `c`, followed by the default background.
pub open spec fn bg(c: AnsiColors, text: Seq<char>) -> Seq<char> {
    sgr(bg_code(c)) + text + sgr(seq!['4', '9'])
}

/// Relies on `owo_colors::OwoColorize::color`, whose display writes the
/// color's foreground sequence, the text, and `ESC[39m`.
#[verifier::external_body]
pub fn paint(text: &str, c: AnsiColors) -> (r: String)
    ensures
        r@ == fg(c, text@),
{
    text.color(c).to_string()
}

/// Relies on `owo_colors::OwoColorize::on_color`, whose display writes the
/// color's background sequence, the text, and `ESC[49m`.
#[verifier::external_body]
pub fn paint_on(text: &str, c: AnsiColors) -> (r: String)
    ensures
        r@ == bg(c, text@),
{
    text.on_color(c).to_string()
}

} // verus!
