//! Colours and weights for the terminal.

use owo_colors::OwoColorize;
use vstd::prelude::*;

verus! {

/// `text` between the escape sequence that turns a colour on, by its number, and the one that
/// goes back to the default colour.
pub open spec fn coloured(start: Seq<char>, text: Seq<char>) -> Seq<char> {
    start + text + "\x1b[39m"@
}

/// `text` between the escape sequence that turns a style on and the one that ends all styles.
pub open spec fn styled(start: Seq<char>, text: Seq<char>) -> Seq<char> {
    start + text + "\x1b[0m"@
}

/// `text` in green.
pub open spec fn in_green(text: Seq<char>) -> Seq<char> {
    coloured("\x1b[32m"@, text)
}

/// `text` in red.
pub open spec fn in_red(text: Seq<char>) -> Seq<char> {
    coloured("\x1b[31m"@, text)
}

/// `text` in yellow.
pub open spec fn in_yellow(text: Seq<char>) -> Seq<char> {
    coloured("\x1b[33m"@, text)
}

/// `text` in cyan.
pub open spec fn in_cyan(text: Seq<char>) -> Seq<char> {
    coloured("\x1b[36m"@, text)
}

/// `text` in bold type.
pub open spec fn in_bold(text: Seq<char>) -> Seq<char> {
    styled("\x1b[1m"@, text)
}

/// `text` in faint type.
pub open spec fn in_faint(text: Seq<char>) -> Seq<char> {
    styled("\x1b[2m"@, text)
}

/// `owo_colors::OwoColorize::green`, written out: the escape sequence for green, the text, and
/// the one for the default colour.
#[verifier::external_body]
pub(crate) fn green(text: &str) -> (shown: String)
    ensures
        shown@ == in_green(text@),
{
    text.green().to_string()
}

/// `owo_colors::OwoColorize::red`, written out: the escape sequence for red, the text, and the
/// one for the default colour.
#[verifier::external_body]
pub(crate) fn red(text: &str) -> (shown: String)
    ensures
        shown@ == in_red(text@),
{
    text.red().to_string()
}

/// `owo_colors::OwoColorize::yellow`, written out: the escape sequence for yellow, the text,
/// and the one for the default colour.
#[verifier::external_body]
pub(crate) fn yellow(text: &str) -> (shown: String)
    ensures
        shown@ == in_yellow(text@),
{
    text.yellow().to_string()
}

/// `owo_colors::OwoColorize::cyan`, written out: the escape sequence for cyan, the text, and
/// the one for the default colour.
#[verifier::external_body]
pub(crate) fn cyan(text: &str) -> (shown: String)
    ensures
        shown@ == in_cyan(text@),
{
    text.cyan().to_string()
}

/// `owo_colors::OwoColorize::bold`, written out: the escape sequence for bold type, the text,
/// and the one that ends all styles.
#[verifier::external_body]
pub(crate) fn bold(text: &str) -> (shown: String)
    ensures
        shown@ == in_bold(text@),
{
    text.bold().to_string()
}

/// `owo_colors::OwoColorize::dimmed`, written out: the escape sequence for faint type, the
/// text, and the one that ends all styles.
#[verifier::external_body]
pub(crate) fn dimmed(text: &str) -> (shown: String)
    ensures
        shown@ == in_faint(text@),
{
    text.dimmed().to_string()
}

} // verus!
