//! Terminal styling of message parts, done by `owo_colors`.

use owo_colors::OwoColorize;
use vstd::prelude::*;

verus! {

/// A select-graphic-rendition sequence: escape, `[`, the code, `m`.
pub open spec fn rendition(code: Seq<char>) -> Seq<char> {
    seq!['\x1b', '['] + code + seq!['m']
}

/// `text` between the sequences that switch bold on and all styles off.
pub open spec fn bold_text(text: Seq<char>) -> Seq<char> {
    rendition(seq!['1']) + text + rendition(seq!['0'])
}

/// `text` between the sequences that switch italic on and all styles off.
pub open spec fn italic_text(text: Seq<char>) -> Seq<char> {
    rendition(seq!['3']) + text + rendition(seq!['0'])
}

/// `text` between the sequences for a green and for the default
/// foreground.
pub open spec fn green_text(text: Seq<char>) -> Seq<char> {
    rendition(seq!['3', '2']) + text + rendition(seq!['3', '9'])
}

/// `text` between the sequences for a red and for the default foreground.
pub open spec fn red_text(text: Seq<char>) -> Seq<char> {
    rendition(seq!['3', '1']) + text + rendition(seq!['3', '9'])
}

/// Calls `OwoColorize::bold` and renders the outcome. Not verified: the
/// contract restates what the display impl of `BoldDisplay` writes, the
/// prefix `ESC[1m`, the text unchanged, the suffix `ESC[0m`.
#[verifier::external_body]
pub(crate) fn bold(text: &str) -> (result: String)
    ensures
        result@ == bold_text(text@),
{
    text.bold().to_string()
}

/// Calls `OwoColorize::italic` and renders the outcome. Not verified: the
/// contract restates what the display impl of `ItalicDisplay` writes, the
/// prefix `ESC[3m`, the text unchanged, the suffix `ESC[0m`.
#[verifier::external_body]
pub(crate) fn italic(text: &str) -> (result: String)
    ensures
        result@ == italic_text(text@),
{
    text.italic().to_string()
}

/// Calls `OwoColorize::green` and renders the outcome. Not verified: the
/// contract restates what the display impl of `FgColorDisplay` writes for
/// the colour green, the prefix `ESC[32m`, the text unchanged, the suffix
/// `ESC[39m`.
#[verifier::external_body]
pub(crate) fn green(text: &str) -> (result: String)
    ensures
        result@ == green_text(text@),
{
    text.green().to_string()
}

/// Calls `OwoColorize::red` and renders the outcome. Not verified: the
/// contract restates what the display impl of `FgColorDisplay` writes for
/// the colour red, the prefix `ESC[31m`, the text unchanged, the suffix
/// `ESC[39m`.
#[verifier::external_body]
pub(crate) fn red(text: &str) -> (result: String)
    ensures
        result@ == red_text(text@),
{
    text.red().to_string()
}

} // verus!
