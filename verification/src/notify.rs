//! Notices for the user: a coloured label that names the level, then the
//! message. Printing the line is left to the caller.

use vstd::prelude::*;
use vstd::string::*;
use owo_colors::{OwoColorize, Style};

verus! {

/// How serious a notice is.
#[derive(Debug, Clone, Copy, PartialEq, Eq, Structural)]
pub enum Level {
    Error,
    Warning,
    Info,
    Debug,
}

impl Level {
    /// The word that names the level at the start of a notice.
    pub open spec fn label(self) -> Seq<char> {
        match self {
            Level::Error => "ERROR!"@,
            Level::Warning => "WARNING!"@,
            Level::Info => "INFO!"@,
            Level::Debug => "DEBUG"@,
        }
    }

    /// The number of the label's colour in a terminal escape sequence: red,
    /// yellow, blue and purple.
    pub open spec fn color_code(self) -> Seq<char> {
        match self {
            Level::Error => "31"@,
            Level::Warning => "33"@,
            Level::Info => "34"@,
            Level::Debug => "35"@,
        }
    }

    /// Whether notices of this level belong on the error stream.
    pub open spec fn is_failure(self) -> bool {
        self == Level::Error || self == Level::Warning
    }

    /// Whether notices of this level go to the error stream rather than to
    /// the standard output.
    pub fn to_stderr(&self) -> (yes: bool)
        ensures
            yes == self.is_failure(),
    {
        match self {
            Level::Error | Level::Warning => true,
            Level::Info | Level::Debug => false,
        }
    }
}

/// A text in a foreground colour: the escape sequence that sets the colour,
/// the text, and the escape sequence that resets all styling.
pub open spec fn painted(code: Seq<char>, text: Seq<char>) -> Seq<char> {
    "\x1b["@ + code + "m"@ + text + "\x1b[0m"@
}

/// A notice: the level's label in the level's colour, a space, the message.
pub open spec fn notice_chars(level: Level, msg: Seq<char>) -> Seq<char> {
    painted(level.color_code(), level.label()) + " "@ + msg
}

/// `owo_colors::Style::red` applied through `OwoColorize::style`: shown as
/// text, the result is `label` between the escape sequences for a red
/// foreground and for a full reset.
#[verifier::external_body]
fn paint_red(label: &str) -> (text: String)
    ensures
        text@ == painted("31"@, label@),
{
    format!("{}", label.style(Style::new().red()))
}

/// `owo_colors::Style::yellow` applied through `OwoColorize::style`: shown
/// as text, the result is `label` between the escape sequences for a yellow
/// foreground and for a full reset.
#[verifier::external_body]
fn paint_yellow(label: &str) -> (text: String)
    ensures
        text@ == painted("33"@, label@),
{
    format!("{}", label.style(Style::new().yellow()))
}

/// `owo_colors::Style::blue` applied through `OwoColorize::style`: shown as
/// text, the result is `label` between the escape sequences for a blue
/// foreground and for a full reset.
#[verifier::external_body]
fn paint_blue(label: &str) -> (text: String)
    ensures
        text@ == painted("34"@, label@),
{
    format!("{}", label.style(Style::new().blue()))
}

/// `owo_colors::Style::purple` applied through `OwoColorize::style`: shown
/// as text, the result is `label` between the escape sequences for a
/// magenta foreground and for a full reset.
#[verifier::external_body]
fn paint_purple(label: &str) -> (text: String)
    ensures
        text@ == painted("35"@, label@),
{
    format!("{}", label.style(Style::new().purple()))
}

/// The line that tells the user `msg` at the given level.
pub fn notice_line(level: Level, msg: &str) -> (line: String)
    ensures
        line@ == notice_chars(level, msg@),
{
    let mut line = match level {
        Level::Error => paint_red("ERROR!"),
        Level::Warning => paint_yellow("WARNING!"),
        Level::Info => paint_blue("INFO!"),
        Level::Debug => paint_purple("DEBUG"),
    };
    line.append(" ");
    line.append(msg);
    line
}

} // verus!
