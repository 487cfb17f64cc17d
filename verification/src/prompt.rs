//! The instructions that go with a diff when a commit message is asked for.

use vstd::prelude::*;
use vstd::string::*;

verus! {

/// What the generator is asked to do.
pub const PREAMBLE: &'static str =
    "Generate a Git commit message that conforms to the Conventional Commit from Git Diff Text.";

/// The description of the message format, up to where the language is named.
pub const CONTEXT_HEAD: &'static str = "
# Message Format
Allowed output formats are like following:

* <type>[optional scope]: <description>

* [optional body]

* [optional footer(s)]


'type' is Commit Type.

'optional scope': in addition to the commit type, captures the area within the codebase that the commit covers.

'description': Summary. This is usually the first line of a commit message.

'optional body': The body of the commit message. Generally, this is the third or subsequent line after the first line of the commit message, with a blank line between them. This is optional (according to common conventions).

'optional footer(s)': Footer. Generally, this is written at the end of the commit message, after a blank line. (Following common convention) Multiple entries are allowed, optional.
    * BREAKING CHANGE: <description>: Footer indicating a breaking change. Can also be expressed by adding an ! after the commit type (or scope, if there is one). Both can be specified.

# Commit Type
Commit Type are allowed like following:

* build
* chore
* ci
* docs
* feat
* fix
* perf
* refactor
* revert
* style
* test

# Message Language Locale
Please output a message in the natural language specified below.

Language: ";

/// The context for a language: the format description, the language's name,
/// and a line break.
pub open spec fn context_text(locale: Seq<char>) -> Seq<char> {
    CONTEXT_HEAD@ + locale + "\n"@
}

/// The task given to the generator.
pub fn preamble_content() -> (text: &'static str)
    ensures
        text@ == PREAMBLE@,
{
    PREAMBLE
}

/// The format description, asking for messages in the language `locale`.
pub fn context_content(locale: &str) -> (text: String)
    ensures
        text@ == context_text(locale@),
{
    let mut text = String::from_str(CONTEXT_HEAD);
    text.append(locale);
    text.append("\n");
    text
}

} // verus!
