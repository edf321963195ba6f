use owo_colors::OwoColorize;
use vstd::prelude::*;

verus! {

/// The terminal styles the runner uses.
#[derive(Clone, Copy, Debug, PartialEq, Eq, Structural)]
pub enum Style {
    Magenta,
    Cyan,
    Red,
    Yellow,
    Bold,
    Dimmed,
}

/// The standard stream a piece of text is written to.
#[derive(Clone, Copy, Debug, PartialEq, Eq, Structural)]
pub enum Stream {
    Stdout,
    Stderr,
}

/// Whether each standard stream is a terminal that shows colors.
#[derive(Clone, Copy, Debug, PartialEq, Eq, Structural)]
pub struct ColorSupport {
    pub stdout: bool,
    pub stderr: bool,
}

impl ColorSupport {
    /// Whether `stream` shows colors.
    pub open spec fn enabled(self, stream: Stream) -> bool {
        match stream {
            Stream::Stdout => self.stdout,
            Stream::Stderr => self.stderr,
        }
    }

    /// Whether `stream` shows colors.
    pub fn on(&self, stream: Stream) -> (b: bool)
        ensures
            b == self.enabled(stream),
    {
        match stream {
            Stream::Stdout => self.stdout,
            Stream::Stderr => self.stderr,
        }
    }
}

/// A select-graphic-rendition sequence around `text`: ESC `[` code `m`, the
/// text, then ESC `[` reset `m`.
pub open spec fn sgr(code: Seq<char>, text: Seq<char>, reset: Seq<char>) -> Seq<char> {
    seq!['\u{1b}', '['] + code + seq!['m'] + text + seq!['\u{1b}', '['] + reset + seq!['m']
}

/// `text` written in `style`.
pub open spec fn styled(style: Style, text: Seq<char>) -> Seq<char> {
    match style {
        Style::Magenta => sgr(seq!['3', '5'], text, seq!['3', '9']),
        Style::Cyan => sgr(seq!['3', '6'], text, seq!['3', '9']),
        Style::Red => sgr(seq!['3', '1'], text, seq!['3', '9']),
        Style::Yellow => sgr(seq!['3', '3'], text, seq!['3', '9']),
        Style::Bold => sgr(seq!['1'], text, seq!['0']),
        Style::Dimmed => sgr(seq!['2'], text, seq!['0']),
    }
}

/// `text` in `style` when colors are `on`, else `text` unchanged.
pub open spec fn painted(style: Style, on: bool, text: Seq<char>) -> Seq<char> {
    if on {
        styled(style, text)
    } else {
        text
    }
}

/// owo-colors' `magenta`: its `Display` writes ESC[35m, the text, ESC[39m.
#[verifier::external_body]
fn owo_magenta(text: &str) -> (r: String)
    ensures
        r@ == styled(Style::Magenta, text@),
{
    text.magenta().to_string()
}

/// owo-colors' `cyan`: its `Display` writes ESC[36m, the text, ESC[39m.
#[verifier::external_body]
fn owo_cyan(text: &str) -> (r: String)
    ensures
        r@ == styled(Style::Cyan, text@),
{
    text.cyan().to_string()
}

/// owo-colors' `red`: its `Display` writes ESC[31m, the text, ESC[39m.
#[verifier::external_body]
fn owo_red(text: &str) -> (r: String)
    ensures
        r@ == styled(Style::Red, text@),
{
    text.red().to_string()
}

/// owo-colors' `yellow`: its `Display` writes ESC[33m, the text, ESC[39m.
#[verifier::external_body]
fn owo_yellow(text: &str) -> (r: String)
    ensures
        r@ == styled(Style::Yellow, text@),
{
    text.yellow().to_string()
}

/// owo-colors' `bold`: its `Display` writes ESC[1m, the text, ESC[0m.
#[verifier::external_body]
fn owo_bold(text: &str) -> (r: String)
    ensures
        r@ == styled(Style::Bold, text@),
{
    text.bold().to_string()
}

/// owo-colors' `dimmed`: its `Display` writes ESC[2m, the text, ESC[0m.
#[verifier::external_body]
fn owo_dimmed(text: &str) -> (r: String)
    ensures
        r@ == styled(Style::Dimmed, text@),
{
    text.dimmed().to_string()
}

/// Writes `text` in `style` when colors are `on`, and unchanged otherwise.
pub fn paint(text: &str, style: Style, on: bool) -> (r: String)
    ensures
        r@ == painted(style, on, text@),
{
    if !on {
        return String::from_str(text);
    }
    match style {
        Style::Magenta => owo_magenta(text),
        Style::Cyan => owo_cyan(text),
        Style::Red => owo_red(text),
        Style::Yellow => owo_yellow(text),
        Style::Bold => owo_bold(text),
        Style::Dimmed => owo_dimmed(text),
    }
}

} // verus!
