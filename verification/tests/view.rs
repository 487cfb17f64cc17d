use tatl::list::{CommitMessageItem, CommitMessageList, Step};
use tatl::message::{CommitMessage, CommitType};
use tatl::spinner::{SpinnerWidget, SPINNER_FRAMES};
use tatl::view::{browsing_view, header_line, item_line, SpanStyle, StyledSpan, HEADER_HEIGHT};

fn spans(line: &Vec<StyledSpan>) -> Vec<(String, SpanStyle)> {
    line.iter().map(|span| (span.text.clone(), span.style)).collect()
}

fn pair(text: &str, style: SpanStyle) -> (String, SpanStyle) {
    (text.to_string(), style)
}

fn item(
    kind: Option<CommitType>,
    breaking: bool,
    scope: Option<&str>,
    description: &str,
) -> CommitMessageItem {
    CommitMessageItem::new(CommitMessage::new(
        kind,
        breaking,
        scope.map(|s| s.to_string()),
        description.to_string(),
        None,
    ))
}

#[test]
fn span_new_keeps_text_and_style() {
    let span = StyledSpan::new("hello", SpanStyle::Scope);
    assert_eq!(span.text, "hello");
    assert_eq!(span.style, SpanStyle::Scope);
}

#[test]
fn line_of_a_plain_typed_message() {
    let line = item_line(&item(Some(CommitType::Fix), false, None, "a"));
    assert_eq!(
        spans(&line),
        vec![
            pair("  ", SpanStyle::NonSelected),
            pair("fix", SpanStyle::MsgType),
            pair(": ", SpanStyle::Plain),
            pair("a", SpanStyle::Plain),
        ]
    );
}

#[test]
fn line_with_scope_and_breaking_marker() {
    let line = item_line(&item(Some(CommitType::Feat), true, Some("api"), "drop v1 routes"));
    assert_eq!(
        spans(&line),
        vec![
            pair("  ", SpanStyle::NonSelected),
            pair("feat", SpanStyle::MsgType),
            pair("(api)", SpanStyle::Scope),
            pair("!", SpanStyle::BreakingChange),
            pair(": ", SpanStyle::Plain),
            pair("drop v1 routes", SpanStyle::Plain),
        ]
    );
}

#[test]
fn line_with_scope_only() {
    let line = item_line(&item(Some(CommitType::Docs), false, Some("readme"), "fix typos"));
    assert_eq!(
        spans(&line),
        vec![
            pair("  ", SpanStyle::NonSelected),
            pair("docs", SpanStyle::MsgType),
            pair("(readme)", SpanStyle::Scope),
            pair(": ", SpanStyle::Plain),
            pair("fix typos", SpanStyle::Plain),
        ]
    );
}

#[test]
fn line_with_breaking_marker_only() {
    let line = item_line(&item(Some(CommitType::Refactor), true, None, "rename crate"));
    assert_eq!(
        spans(&line),
        vec![
            pair("  ", SpanStyle::NonSelected),
            pair("refactor", SpanStyle::MsgType),
            pair("!", SpanStyle::BreakingChange),
            pair(": ", SpanStyle::Plain),
            pair("rename crate", SpanStyle::Plain),
        ]
    );
}

#[test]
fn line_without_a_type_shows_neither_scope_nor_marker() {
    let line = item_line(&item(None, true, Some("ignored"), "just a note"));
    assert_eq!(
        spans(&line),
        vec![pair("  ", SpanStyle::NonSelected), pair("just a note", SpanStyle::Plain)]
    );
}

#[test]
fn line_of_a_marked_item_starts_with_the_check_mark() {
    let mut marked = item(Some(CommitType::Test), false, None, "cover the parser");
    marked.select = true;
    let line = item_line(&marked);
    assert_eq!(
        spans(&line),
        vec![
            pair("🗸 ", SpanStyle::Selected),
            pair("test", SpanStyle::MsgType),
            pair(": ", SpanStyle::Plain),
            pair("cover the parser", SpanStyle::Plain),
        ]
    );
}

#[test]
fn line_with_an_empty_scope_keeps_the_parentheses() {
    let line = item_line(&item(Some(CommitType::CI), false, Some(""), "pin the runner"));
    assert_eq!(line[2].text, "()");
    assert_eq!(line[2].style, SpanStyle::Scope);
}

#[test]
fn header_names_each_action_and_its_keys() {
    assert_eq!(
        spans(&header_line()),
        vec![
            pair("Move ", SpanStyle::HeaderHelp),
            pair("<Up>/<Down> or <j>/<k>  ", SpanStyle::Plain),
            pair("Select ", SpanStyle::HeaderHelp),
            pair("<Space> ", SpanStyle::Plain),
            pair("Confirm ", SpanStyle::HeaderHelp),
            pair("<Enter>  ", SpanStyle::Plain),
            pair("Quit ", SpanStyle::HeaderHelp),
            pair("<q>  ", SpanStyle::Plain),
        ]
    );
    assert_eq!(HEADER_HEIGHT, 2);
}

#[test]
fn browsing_view_of_an_empty_list() {
    let screen = browsing_view(&CommitMessageList::new());
    assert_eq!(screen.rows.len(), 0);
    assert_eq!(screen.highlighted, None);
    assert_eq!(screen.title, "? Select suggested commit messages");
    assert_eq!(screen.highlight_symbol, "❯ ");
    assert_eq!(screen.header_height, 2);
    assert_eq!(spans(&screen.header), spans(&header_line()));
}

#[test]
fn browsing_view_has_one_row_per_item_in_order() {
    let mut list = CommitMessageList::new();
    list.append(item(Some(CommitType::Fix), false, None, "a"));
    list.append(item(Some(CommitType::Feat), true, Some("ui"), "b"));
    list.append(item(None, false, None, "c"));
    list.move_cursor(Step::Next);
    list.toggle_selected_at_cursor();
    let screen = browsing_view(&list);
    assert_eq!(screen.rows.len(), 3);
    assert_eq!(screen.highlighted, Some(1));
    for (row, item) in screen.rows.iter().zip(list.items().iter()) {
        assert_eq!(spans(row), spans(&item_line(item)));
    }
    assert_eq!(screen.rows[1][0].text, "🗸 ");
    assert_eq!(screen.rows[1][2].text, "(ui)");
    assert_eq!(screen.rows[2].len(), 2);
}

#[test]
fn spinner_first_frame() {
    let mut spinner = SpinnerWidget::new("Generating messages...");
    let line = spinner.render_spinner();
    assert_eq!(
        spans(&line),
        vec![
            pair("⠷ ", SpanStyle::SpinnerSymbol),
            pair("Generating messages...", SpanStyle::SpinnerText),
        ]
    );
}

#[test]
fn spinner_stays_well_formed() {
    let mut spinner = SpinnerWidget::new("working");
    assert!(spinner.is_well_formed());
    for _ in 0..13 {
        spinner.render_spinner();
        assert!(spinner.is_well_formed());
    }
}

#[test]
fn spinner_cycles_through_six_frames() {
    let mut spinner = SpinnerWidget::new("working");
    let expected = ["⠷ ", "⠯ ", "⠟ ", "⠻ ", "⠽ ", "⠾ "];
    assert_eq!(SPINNER_FRAMES, 6);
    for round in 0..3 {
        for glyph in expected {
            let line = spinner.render_spinner();
            assert_eq!(line.len(), 2, "round {}", round);
            assert_eq!(line[0].text, glyph);
            assert_eq!(line[1].text, "working");
        }
    }
}
