//! The text of the staged changes, put together from the lines of a diff.
//!
//! Reading the repository is not done here: the caller hands over the lines
//! of the patch, each with its origin sigil and its bytes.

use vstd::prelude::*;
use vstd::string::*;
use vstd::utf8::{decode_utf8, encode_utf8_decode_utf8, valid_utf8};

verus! {

#[verifier::external_type_specification]
#[verifier::external_body]
pub struct ExUtf8Error(core::str::Utf8Error);

/// `core::str::from_utf8`: the bytes are accepted exactly when they are valid
/// UTF-8, and the string slice handed back is made of those same bytes.
pub assume_specification[ core::str::from_utf8 ](v: &[u8]) -> (text: Result<
    &str,
    core::str::Utf8Error,
>)
    ensures
        text is Ok <==> valid_utf8(v@),
        text matches Ok(t) ==> t.spec_bytes() == v@,
;

/// One line of a patch.
#[derive(Debug, Clone)]
pub struct DiffLine {
    /// The sigil that says what kind of line this is: `+`, `-` and a space
    /// for added, removed and context lines, `F`, `H` and `B` for file
    /// headers, hunk headers and binary notices.
    pub origin: char,
    /// The line's bytes, without the sigil.
    pub content: Vec<u8>,
}

/// Why no diff text could be given.
#[derive(Debug, Clone, Copy, PartialEq, Eq, Structural)]
pub enum DiffError {
    /// The lines amount to no text at all: nothing is staged.
    NotFound,
}

impl DiffError {
    /// The error's message.
    pub fn to_string(&self) -> (text: String)
        ensures
            text@ == "not found staged files"@,
    {
        String::from_str("not found staged files")
    }
}

/// The characters of a line's bytes; bytes that are not valid UTF-8 count as
/// no text.
pub open spec fn content_chars(content: Seq<u8>) -> Seq<char> {
    if valid_utf8(content) {
        decode_utf8(content)
    } else {
        Seq::empty()
    }
}

/// Whether lines of this origin are written with their sigil in front.
pub open spec fn keeps_sigil(origin: char) -> bool {
    origin == '+' || origin == '-' || origin == ' '
}

/// Whether lines of this origin are written without their sigil.
pub open spec fn is_header(origin: char) -> bool {
    origin == 'H' || origin == 'F' || origin == 'B'
}

/// What one line adds to the text: added, removed and context lines their
/// sigil and content, headers their content, every other line nothing.
pub open spec fn line_chars(origin: char, content: Seq<u8>) -> Seq<char> {
    if keeps_sigil(origin) {
        seq![origin] + content_chars(content)
    } else if is_header(origin) {
        content_chars(content)
    } else {
        Seq::empty()
    }
}

/// The text of a patch: what its lines add, in order.
pub open spec fn diff_chars(lines: Seq<DiffLine>) -> Seq<char>
    decreases lines.len(),
{
    if lines.len() == 0 {
        Seq::empty()
    } else {
        diff_chars(lines.drop_last()) + line_chars(lines.last().origin, lines.last().content@)
    }
}

/// Decodes a line's bytes, giving the empty text for invalid UTF-8.
pub fn content_text(content: &[u8]) -> (text: &str)
    ensures
        text@ == content_chars(content@),
{
    match core::str::from_utf8(content) {
        Ok(decoded) => {
            proof {
                encode_utf8_decode_utf8(decoded@);
            }
            decoded
        },
        Err(_) => {
            proof {
                reveal_strlit("");
            }
            ""
        },
    }
}

/// Puts the text of the staged changes together from the lines of the patch.
/// A patch whose lines amount to no text is refused.
pub fn staged_diff_text(lines: &Vec<DiffLine>) -> (outcome: Result<String, DiffError>)
    ensures
        outcome is Ok <==> diff_chars(lines@).len() > 0,
        outcome matches Ok(text) ==> text@ == diff_chars(lines@),
        outcome matches Err(error) ==> error == DiffError::NotFound,
{
    let mut diff_output = String::new();
    let mut at: usize = 0;
    while at < lines.len()
        invariant
            at <= lines@.len(),
            diff_output@ == diff_chars(lines@.subrange(0, at as int)),
        decreases lines@.len() - at,
    {
        let line = &lines[at];
        assert(lines@.subrange(0, at + 1).drop_last() =~= lines@.subrange(0, at as int));
        if line.origin == '+' {
            proof {
                reveal_strlit("+");
            }
            diff_output.append("+");
            diff_output.append(content_text(line.content.as_slice()));
        } else if line.origin == '-' {
            proof {
                reveal_strlit("-");
            }
            diff_output.append("-");
            diff_output.append(content_text(line.content.as_slice()));
        } else if line.origin == ' ' {
            proof {
                reveal_strlit(" ");
            }
            diff_output.append(" ");
            diff_output.append(content_text(line.content.as_slice()));
        } else if line.origin == 'H' || line.origin == 'F' || line.origin == 'B' {
            diff_output.append(content_text(line.content.as_slice()));
        }
        at = at + 1;
    }
    assert(lines@.subrange(0, at as int) =~= lines@);
    if diff_output.as_str().is_empty() {
        Err(DiffError::NotFound)
    } else {
        Ok(diff_output)
    }
}

} // verus!
