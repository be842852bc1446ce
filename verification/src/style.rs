use color_eyre::owo_colors::OwoColorize;
use vstd::prelude::*;

verus! {

/// A text between the escape sequence that switches a rendition on and the one that
/// switches it off again.
pub open spec fn wrapped(on: Seq<char>, text: Seq<char>, off: Seq<char>) -> Seq<char> {
    on + text + off
}

/// The text as `bold` renders it: between `ESC[1m` and `ESC[0m`.
pub open spec fn bold_text(text: Seq<char>) -> Seq<char> {
    wrapped("\u{1b}[1m"@, text, "\u{1b}[0m"@)
}

/// `OwoColorize::bold` of owo_colors, rendered. The contract claims that the text comes
/// out unchanged between the escape sequences `ESC[1m` and `ESC[0m`.
#[verifier::external_body]
pub(crate) fn bold(text: &str) -> (styled: String)
    ensures
        styled@ == bold_text(text@),
{
    format!("{}", text.bold())
}

/// The text as `dimmed` renders it: between `ESC[2m` and `ESC[0m`.
pub open spec fn dimmed_text(text: Seq<char>) -> Seq<char> {
    wrapped("\u{1b}[2m"@, text, "\u{1b}[0m"@)
}

/// `OwoColorize::dimmed` of owo_colors, rendered. The contract claims that the text comes
/// out unchanged between the escape sequences `ESC[2m` and `ESC[0m`.
#[verifier::external_body]
pub(crate) fn dimmed(text: &str) -> (styled: String)
    ensures
        styled@ == dimmed_text(text@),
{
    format!("{}", text.dimmed())
}

/// The text as `italic` renders it: between `ESC[3m` and `ESC[0m`.
pub open spec fn italic_text(text: Seq<char>) -> Seq<char> {
    wrapped("\u{1b}[3m"@, text, "\u{1b}[0m"@)
}

/// `OwoColorize::italic` of owo_colors, rendered. The contract claims that the text comes
/// out unchanged between the escape sequences `ESC[3m` and `ESC[0m`.
#[verifier::external_body]
pub(crate) fn italic(text: &str) -> (styled: String)
    ensures
        styled@ == italic_text(text@),
{
    format!("{}", text.italic())
}

/// The text as `black` renders it: between `ESC[30m` and `ESC[39m`.
pub open spec fn black_text(text: Seq<char>) -> Seq<char> {
    wrapped("\u{1b}[30m"@, text, "\u{1b}[39m"@)
}

/// `OwoColorize::black` of owo_colors, rendered. The contract claims that the text comes
/// out unchanged between the escape sequences `ESC[30m` and `ESC[39m`.
#[verifier::external_body]
pub(crate) fn black(text: &str) -> (styled: String)
    ensures
        styled@ == black_text(text@),
{
    format!("{}", text.black())
}

/// The text as `green` renders it: between `ESC[32m` and `ESC[39m`.
pub open spec fn green_text(text: Seq<char>) -> Seq<char> {
    wrapped("\u{1b}[32m"@, text, "\u{1b}[39m"@)
}

/// `OwoColorize::green` of owo_colors, rendered. The contract claims that the text comes
/// out unchanged between the escape sequences `ESC[32m` and `ESC[39m`.
#[verifier::external_body]
pub(crate) fn green(text: &str) -> (styled: String)
    ensures
        styled@ == green_text(text@),
{
    format!("{}", text.green())
}

/// The text as `yellow` renders it: between `ESC[33m` and `ESC[39m`.
pub open spec fn yellow_text(text: Seq<char>) -> Seq<char> {
    wrapped("\u{1b}[33m"@, text, "\u{1b}[39m"@)
}

/// `OwoColorize::yellow` of owo_colors, rendered. The contract claims that the text comes
/// out unchanged between the escape sequences `ESC[33m` and `ESC[39m`.
#[verifier::external_body]
pub(crate) fn yellow(text: &str) -> (styled: String)
    ensures
        styled@ == yellow_text(text@),
{
    format!("{}", text.yellow())
}

/// The text as `blue` renders it: between `ESC[34m` and `ESC[39m`.
pub open spec fn blue_text(text: Seq<char>) -> Seq<char> {
    wrapped("\u{1b}[34m"@, text, "\u{1b}[39m"@)
}

/// `OwoColorize::blue` of owo_colors, rendered. The contract claims that the text comes
/// out unchanged between the escape sequences `ESC[34m` and `ESC[39m`.
#[verifier::external_body]
pub(crate) fn blue(text: &str) -> (styled: String)
    ensures
        styled@ == blue_text(text@),
{
    format!("{}", text.blue())
}

/// The text as `bright_black` renders it: between `ESC[90m` and `ESC[39m`.
pub open spec fn bright_black_text(text: Seq<char>) -> Seq<char> {
    wrapped("\u{1b}[90m"@, text, "\u{1b}[39m"@)
}

/// `OwoColorize::bright_black` of owo_colors, rendered. The contract claims that the text comes
/// out unchanged between the escape sequences `ESC[90m` and `ESC[39m`.
#[verifier::external_body]
pub(crate) fn bright_black(text: &str) -> (styled: String)
    ensures
        styled@ == bright_black_text(text@),
{
    format!("{}", text.bright_black())
}

/// The text as `on_red` renders it: between `ESC[41m` and `ESC[49m`.
pub open spec fn on_red_text(text: Seq<char>) -> Seq<char> {
    wrapped("\u{1b}[41m"@, text, "\u{1b}[49m"@)
}

/// `OwoColorize::on_red` of owo_colors, rendered. The contract claims that the text comes
/// out unchanged between the escape sequences `ESC[41m` and `ESC[49m`.
#[verifier::external_body]
pub(crate) fn on_red(text: &str) -> (styled: String)
    ensures
        styled@ == on_red_text(text@),
{
    format!("{}", text.on_red())
}

/// The text as `on_magenta` renders it: between `ESC[45m` and `ESC[49m`.
pub open spec fn on_magenta_text(text: Seq<char>) -> Seq<char> {
    wrapped("\u{1b}[45m"@, text, "\u{1b}[49m"@)
}

/// `OwoColorize::on_magenta` of owo_colors, rendered. The contract claims that the text comes
/// out unchanged between the escape sequences `ESC[45m` and `ESC[49m`.
#[verifier::external_body]
pub(crate) fn on_magenta(text: &str) -> (styled: String)
    ensures
        styled@ == on_magenta_text(text@),
{
    format!("{}", text.on_magenta())
}

/// The text as `on_bright_blue` renders it: between `ESC[104m` and `ESC[49m`.
pub open spec fn on_bright_blue_text(text: Seq<char>) -> Seq<char> {
    wrapped("\u{1b}[104m"@, text, "\u{1b}[49m"@)
}

/// `OwoColorize::on_bright_blue` of owo_colors, rendered. The contract claims that the text comes
/// out unchanged between the escape sequences `ESC[104m` and `ESC[49m`.
#[verifier::external_body]
pub(crate) fn on_bright_blue(text: &str) -> (styled: String)
    ensures
        styled@ == on_bright_blue_text(text@),
{
    format!("{}", text.on_bright_blue())
}

} // verus!
