use tatl::git::{content_text, staged_diff_text, DiffError, DiffLine};
use tatl::notify::{notice_line, Level};
use tatl::prompt::{context_content, preamble_content, CONTEXT_HEAD, PREAMBLE};

fn line(origin: char, content: &str) -> DiffLine {
    DiffLine { origin, content: content.as_bytes().to_vec() }
}

#[test]
fn preamble_text() {
    assert_eq!(
        preamble_content(),
        "Generate a Git commit message that conforms to the Conventional Commit from Git Diff Text."
    );
    assert_eq!(preamble_content(), PREAMBLE);
}

#[test]
fn context_names_the_language_last() {
    let text = context_content("Japanese");
    assert!(text.starts_with("\n# Message Format\nAllowed output formats are like following:\n"));
    assert!(text.ends_with(
        "# Message Language Locale\nPlease output a message in the natural language specified below.\n\nLanguage: Japanese\n"
    ));
    assert_eq!(text, format!("{}{}\n", CONTEXT_HEAD, "Japanese"));
}

#[test]
fn context_lists_the_commit_types() {
    let text = context_content("English");
    assert!(text.contains(
        "# Commit Type\nCommit Type are allowed like following:\n\n* build\n* chore\n* ci\n* docs\n* feat\n* fix\n* perf\n* refactor\n* revert\n* style\n* test\n"
    ));
    assert!(text.contains("* <type>[optional scope]: <description>\n"));
    assert!(text.contains("    * BREAKING CHANGE: <description>: Footer indicating a breaking change."));
    assert_eq!(text.len(), CONTEXT_HEAD.len() + "English".len() + 1);
}

#[test]
fn context_with_an_empty_language() {
    let text = context_content("");
    assert!(text.ends_with("Language: \n"));
    assert_eq!(text.len(), CONTEXT_HEAD.len() + 1);
}

#[test]
fn context_head_ends_where_the_language_goes() {
    assert!(CONTEXT_HEAD.ends_with("\n\nLanguage: "));
    assert_eq!(CONTEXT_HEAD.lines().count(), 41);
}

#[test]
fn diff_keeps_the_sigil_of_changed_and_context_lines() {
    let lines = vec![line('+', "added\n"), line('-', "removed\n"), line(' ', "kept\n")];
    assert_eq!(staged_diff_text(&lines), Ok("+added\n-removed\n kept\n".to_string()));
}

#[test]
fn diff_writes_headers_without_their_sigil() {
    let lines = vec![
        line('F', "diff --git a/x b/x\n"),
        line('H', "@@ -1 +1 @@\n"),
        line('-', "old\n"),
        line('+', "new\n"),
        line('B', "Binary files differ\n"),
    ];
    assert_eq!(
        staged_diff_text(&lines),
        Ok("diff --git a/x b/x\n@@ -1 +1 @@\n-old\n+new\nBinary files differ\n".to_string())
    );
}

#[test]
fn diff_leaves_out_lines_of_other_origins() {
    let lines = vec![
        line('=', "context at end of file\n"),
        line('+', "x\n"),
        line('>', "add at end of file\n"),
        line('<', "remove at end of file\n"),
        line('?', "unknown\n"),
    ];
    assert_eq!(staged_diff_text(&lines), Ok("+x\n".to_string()));
}

#[test]
fn diff_without_lines_is_not_found() {
    assert_eq!(staged_diff_text(&Vec::new()), Err(DiffError::NotFound));
}

#[test]
fn diff_of_ignored_lines_only_is_not_found() {
    let lines = vec![line('=', "a\n"), line('>', "b\n"), line('<', "c\n")];
    assert_eq!(staged_diff_text(&lines), Err(DiffError::NotFound));
}

#[test]
fn diff_of_empty_headers_only_is_not_found() {
    let lines = vec![line('H', ""), line('F', ""), line('B', "")];
    assert_eq!(staged_diff_text(&lines), Err(DiffError::NotFound));
}

#[test]
fn diff_with_an_empty_changed_line_keeps_the_sigil() {
    assert_eq!(staged_diff_text(&vec![line('+', "")]), Ok("+".to_string()));
    assert_eq!(staged_diff_text(&vec![line(' ', "")]), Ok(" ".to_string()));
}

#[test]
fn diff_drops_content_that_is_not_utf8() {
    let lines = vec![
        DiffLine { origin: '+', content: vec![0xff, 0xfe, b'a'] },
        DiffLine { origin: 'H', content: vec![0xc3] },
        line('-', "ok\n"),
    ];
    assert_eq!(staged_diff_text(&lines), Ok("+-ok\n".to_string()));
}

#[test]
fn diff_of_an_invalid_header_only_is_not_found() {
    let lines = vec![DiffLine { origin: 'F', content: vec![0x80, 0x80] }];
    assert_eq!(staged_diff_text(&lines), Err(DiffError::NotFound));
}

#[test]
fn diff_decodes_multibyte_text() {
    let lines = vec![line('+', "こんにちは\n"), line('-', "héllo 🗸\n")];
    assert_eq!(staged_diff_text(&lines), Ok("+こんにちは\n-héllo 🗸\n".to_string()));
}

#[test]
fn content_text_decodes_or_gives_nothing() {
    assert_eq!(content_text("plain".as_bytes()), "plain");
    assert_eq!(content_text("é".as_bytes()), "é");
    assert_eq!(content_text(&[]), "");
    assert_eq!(content_text(&[b'a', 0xff]), "");
    assert_eq!(content_text(&[0xe3, 0x81]), "");
}

#[test]
fn diff_error_message() {
    assert_eq!(DiffError::NotFound.to_string(), "not found staged files");
}

#[test]
fn error_notice_is_red() {
    assert_eq!(notice_line(Level::Error, "boom"), "\x1b[31mERROR!\x1b[0m boom");
}

#[test]
fn warning_notice_is_yellow() {
    assert_eq!(notice_line(Level::Warning, "careful"), "\x1b[33mWARNING!\x1b[0m careful");
}

#[test]
fn info_notice_is_blue() {
    assert_eq!(notice_line(Level::Info, "fyi"), "\x1b[34mINFO!\x1b[0m fyi");
}

#[test]
fn debug_notice_is_purple() {
    assert_eq!(notice_line(Level::Debug, "x = 1"), "\x1b[35mDEBUG\x1b[0m x = 1");
}

#[test]
fn notice_with_an_empty_message_keeps_the_space() {
    assert_eq!(notice_line(Level::Info, ""), "\x1b[34mINFO!\x1b[0m ");
}

#[test]
fn errors_and_warnings_go_to_stderr() {
    assert!(Level::Error.to_stderr());
    assert!(Level::Warning.to_stderr());
    assert!(!Level::Info.to_stderr());
    assert!(!Level::Debug.to_stderr());
}
