//! Terminal colours for console and log lines, from the `owo-colors` crate.
use owo_colors::OwoColorize;
use vstd::prelude::*;

verus! {

/// The ANSI escape sequence that selects the foreground colour with SGR code
/// `3d` (`d` in 0..=9): `ESC [ 3 d m`.
pub open spec fn foreground(d: char) -> Seq<char> {
    seq!['\u{1b}', '[', '3', d, 'm']
}

/// `text` drawn in the foreground colour `d`, followed by the reset to the
/// default foreground colour (`ESC [ 3 9 m`).
pub open spec fn coloured(d: char, text: Seq<char>) -> Seq<char> {
    foreground(d) + text + foreground('9')
}

/// `OwoColorize::green` shown with `Display`: owo-colors writes its
/// `ANSI_FG` sequence for `Green` (code 32), the text, then `ESC [ 3 9 m`.
#[verifier::external_body]
pub(crate) fn green(text: &str) -> (res: String)
    ensures
        res@ == coloured('2', text@),
{
    format!("{}", text.green())
}

/// `OwoColorize::blue` shown with `Display`: owo-colors writes its `ANSI_FG`
/// sequence for `Blue` (code 34), the text, then `ESC [ 3 9 m`.
#[verifier::external_body]
pub(crate) fn blue(text: &str) -> (res: String)
    ensures
        res@ == coloured('4', text@),
{
    format!("{}", text.blue())
}

/// `OwoColorize::red` shown with `Display`: owo-colors writes its `ANSI_FG`
/// sequence for `Red` (code 31), the text, then `ESC [ 3 9 m`.
#[verifier::external_body]
pub(crate) fn red(text: &str) -> (res: String)
    ensures
        res@ == coloured('1', text@),
{
    format!("{}", text.red())
}

} // verus!
