use vstd::prelude::*;
use colored::Colorize;
use crate::error::strings_view;

verus! {

/// A colour the terminal presentation paints text in.
#[derive(Debug, Clone, Copy, PartialEq, Eq, Structural)]
pub enum Tint {
    Red,
    Yellow,
    Blue,
    BrightBlack,
    BrightWhite,
}

/// The escape sequence that selects a tint's foreground colour.
pub open spec fn tint_code(t: Tint) -> Seq<char> {
    match t {
        Tint::Red => "\x1b[31m"@,
        Tint::Yellow => "\x1b[33m"@,
        Tint::Blue => "\x1b[34m"@,
        Tint::BrightBlack => "\x1b[90m"@,
        Tint::BrightWhite => "\x1b[97m"@,
    }
}

/// The escape sequence that resets all styling.
pub open spec fn reset_code() -> Seq<char> {
    "\x1b[0m"@
}

/// Whether a text holds the reset sequence somewhere.
pub open spec fn holds_reset(text: Seq<char>) -> bool {
    exists|i: int| 0 <= i && i + 4 <= text.len() && #[trigger] text.subrange(i, i + 4) == reset_code()
}

/// Whether `out` is `text` as painted in `t`: either left as it is, where
/// colouring is switched off, or wrapped in the tint's escape sequence and
/// the reset sequence. Of a text that itself holds the reset sequence
/// nothing more is said.
pub open spec fn painted(out: Seq<char>, t: Tint, text: Seq<char>) -> bool {
    out == text || holds_reset(text) || out == tint_code(t) + text + reset_code()
}

/// The lines that `textwrap::wrap` breaks a text into at a given width.
pub uninterp spec fn wrapped(text: Seq<char>, width: nat) -> Seq<Seq<char>>;

/// Relies on textwrap::wrap with default options: the text broken into
/// lines of at most `width` columns, which depends on the text and the
/// width alone.
#[verifier::external_body]
pub(crate) fn wrap_lines(text: &str, width: usize) -> (r: Vec<String>)
    ensures
        strings_view(r@) == wrapped(text@, width as nat),
{
    textwrap::wrap(text, width).into_iter().map(std::borrow::Cow::into_owned).collect()
}

/// Relies on colored's `Colorize` and the `Display` of `ColoredString`:
/// the text unchanged where colouring is switched off (which depends on the
/// environment and the terminal), else the colour's escape sequence, the
/// text and the reset sequence.
#[verifier::external_body]
pub(crate) fn paint(text: &str, tint: Tint) -> (r: String)
    ensures
        painted(r@, tint, text@),
{
    let colour = match tint {
        Tint::Red => colored::Color::Red,
        Tint::Yellow => colored::Color::Yellow,
        Tint::Blue => colored::Color::Blue,
        Tint::BrightBlack => colored::Color::BrightBlack,
        Tint::BrightWhite => colored::Color::BrightWhite,
    };
    text.color(colour).to_string()
}

/// The characters a box is drawn with.
pub struct BoxGlyphs {
    pub top_left: String,
    pub top: String,
    pub top_right: String,
    pub right: String,
    pub bottom_right: String,
    pub bottom: String,
    pub bottom_left: String,
    pub left: String,
}

/// Relies on cli_boxes::BoxChars::ROUND: the rounded box-drawing set.
#[verifier::external_body]
pub(crate) fn round_glyphs() -> (r: BoxGlyphs)
    ensures
        r.top_left@ == seq!['╭'],
        r.top@ == seq!['─'],
        r.top_right@ == seq!['╮'],
        r.right@ == seq!['│'],
        r.bottom_right@ == seq!['╯'],
        r.bottom@ == seq!['─'],
        r.bottom_left@ == seq!['╰'],
        r.left@ == seq!['│'],
{
    let b = cli_boxes::BoxChars::ROUND;
    BoxGlyphs {
        top_left: b.top_left.to_string(),
        top: b.top.to_string(),
        top_right: b.top_right.to_string(),
        right: b.right.to_string(),
        bottom_right: b.bottom_right.to_string(),
        bottom: b.bottom.to_string(),
        bottom_left: b.bottom_left.to_string(),
        left: b.left.to_string(),
    }
}

} // verus!
