//! How warnings are laid out for the terminal: wrapped to its width, with
//! the parts that matter most set off in bright white.

use colored::Colorize;
use vstd::prelude::*;
use vstd::string::*;
use vstd::utf8::encode_utf8;

verus! {

/// What every line of a wrapped text but the first begins with.
pub const WRAP_INDENT: &'static str = "    ";

/// The widest that a terminal is ever reported to be.
pub const MAX_TERMINAL_WIDTH: usize = 65535;

/// The most that the search for the best line breaks may add up to.
pub const MAX_WRAP_COST: u64 = 2147483647;

/// The escape sequence that switches the terminal to bright white.
pub const BRIGHT_WHITE: &'static str = "\x1B[97m";

/// The escape sequence that switches the terminal back to its defaults.
pub const RESET: &'static str = "\x1B[0m";

/// `text` broken into lines of at most `width` columns by `textwrap::fill`
/// with the line breaks that leave the smallest gaps, where every line after
/// the first begins with `indent` and no word is split at a hyphen.
pub uninterp spec fn filled(text: Seq<char>, width: int, indent: Seq<char>) -> Seq<char>;

/// `text` broken into lines of at most `width` columns by `textwrap::fill`
/// with every line taking the words that fit, where every line after the
/// first begins with `indent` and no word is split at a hyphen.
pub uninterp spec fn filled_first_fit(text: Seq<char>, width: int, indent: Seq<char>) -> Seq<
    char,
>;

/// Whether the search for the best line breaks stays within its arithmetic
/// for a text of `length` bytes and lines of `width` columns.
///
/// The search adds up a cost over the lines of a paragraph in signed 32-bit
/// numbers. A line costs 1000, and on top of that the square of the columns
/// it leaves empty, or 2500 for every column it is too long by, or 25 if it
/// is a short last line, and 25 more if it ends in a hyphen. A text has no
/// more lines and no more columns than it has bytes, so no sum exceeds the
/// bytes times the square of the width plus 4000.
pub open spec fn fits_best_breaks(length: int, width: int) -> bool {
    length * (width * width + 4000) <= MAX_WRAP_COST
}

/// Calls `textwrap::fill` with the given width, `indent` in front of every
/// line but the first, no hyphenation, and the line breaks that the library
/// finds best, which is its default. The contract only gives the result its
/// name. Text and width have to be such that the search for those breaks
/// stays within its arithmetic.
#[verifier::external_body]
fn fill(text: &str, width: usize, indent: &str) -> (wrapped: String)
    requires
        fits_best_breaks(text.len() as int, width as int),
    ensures
        wrapped@ == filled(text@, width as int, indent@),
{
    textwrap::fill(
        text,
        textwrap::Options::new(width).splitter(textwrap::NoHyphenation).subsequent_indent(indent),
    )
}

/// Calls `textwrap::fill` with the given width, `indent` in front of every
/// line but the first, no hyphenation, and each line filled with the words
/// that fit before the next one is begun. That takes no arithmetic but sums
/// of the columns of a line, so every text and width will do. The contract
/// only gives the result its name.
#[verifier::external_body]
fn fill_first_fit(text: &str, width: usize, indent: &str) -> (wrapped: String)
    ensures
        wrapped@ == filled_first_fit(text@, width as int, indent@),
{
    textwrap::fill(
        text,
        textwrap::Options::new(width).splitter(textwrap::NoHyphenation).subsequent_indent(
            indent,
        ).wrap_algorithm(textwrap::core::WrapAlgorithm::FirstFit),
    )
}

/// Calls `textwrap::termwidth`: the width of the terminal that standard
/// output is connected to, or 80 if there is none. The terminal reports its
/// width as a 16-bit number, and that is all that can be said of it
/// beforehand.
#[verifier::external_body]
fn terminal_width() -> (width: usize)
    ensures
        width <= MAX_TERMINAL_WIDTH,
{
    textwrap::termwidth()
}

/// The length of `text` in bytes, as a string reports it.
pub open spec fn byte_length(text: Seq<char>) -> usize {
    encode_utf8(text).len() as usize
}

/// `text` as it is shown on a terminal of the given width: wrapped with the
/// best line breaks where the search for them is within its arithmetic, and
/// wrapped line by line otherwise. Either way every line after the first is
/// indented.
pub open spec fn wrapped(text: Seq<char>, width: int) -> Seq<char> {
    if fits_best_breaks(byte_length(text) as int, width) {
        filled(text, width, WRAP_INDENT@)
    } else {
        filled_first_fit(text, width, WRAP_INDENT@)
    }
}

/// Whether a text of `length` bytes can be wrapped with the best line breaks
/// at `width` columns.
pub fn has_best_breaks(length: usize, width: usize) -> (fits: bool)
    ensures
        fits == fits_best_breaks(length as int, width as int),
{
    if length == 0 {
        return true;
    }
    if width > 46340 {
        assert(width * width > MAX_WRAP_COST) by (nonlinear_arith)
            requires
                width > 46340,
        ;
        assert(length * (width * width + 4000) > MAX_WRAP_COST) by (nonlinear_arith)
            requires
                length >= 1,
                width * width > MAX_WRAP_COST,
        ;
        return false;
    }
    assert(width * width <= 46340 * 46340) by (nonlinear_arith)
        requires
            width <= 46340,
    ;
    let cost: u64 = (width as u64) * (width as u64) + 4000;
    let limit: u64 = MAX_WRAP_COST / cost;
    assert(length <= limit <==> length * cost <= MAX_WRAP_COST) by (nonlinear_arith)
        requires
            cost > 0,
            limit == MAX_WRAP_COST / cost,
    ;
    length as u64 <= limit
}

/// Wraps a paragraph of text to the given width. Everything after the first
/// line gets indented with four spaces.
pub fn wrap_to_width(text: &str, width: usize) -> (shown: String)
    ensures
        shown@ == wrapped(text@, width as int),
{
    if has_best_breaks(text.len(), width) {
        fill(text, width, WRAP_INDENT)
    } else {
        fill_first_fit(text, width, WRAP_INDENT)
    }
}

/// Wrap a long paragraph of text to terminal width, or 80 characters if the
/// width of the terminal can't be determined. Everything after the first
/// line gets indented with four spaces.
pub fn wrap(text: &str) -> (shown: String)
    ensures
        exists|width: usize|
            width <= MAX_TERMINAL_WIDTH && shown@ == #[trigger] wrapped(text@, width as int),
{
    let width = terminal_width();
    wrap_to_width(text, width)
}

/// Whether `shown` is a way to set `text` off on the terminal: as it is,
/// where colors are switched off or the output is no terminal, or else
/// between the escape sequences for bright white and for the defaults. Of a
/// text that has an escape character of its own, nothing is said.
pub open spec fn sets_off(shown: Seq<char>, text: Seq<char>) -> bool {
    ||| text.contains('\x1B')
    ||| shown == text
    ||| shown == BRIGHT_WHITE@ + text + RESET@
}

/// Formats `text` with `colored::Colorize::bright_white`. Whether that adds
/// the escape sequences depends on the environment (`NO_COLOR`, `CLICOLOR`,
/// `CLICOLOR_FORCE`) and on whether standard output is a terminal, so the
/// contract leaves both outcomes open.
#[verifier::external_body]
pub(crate) fn highlight(text: &str) -> (shown: String)
    ensures
        sets_off(shown@, text@),
{
    text.bright_white().to_string()
}

} // verus!
