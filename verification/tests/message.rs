use tatl::input::{command_for, Command, Key, KeyInput, KeyKind};
use tatl::list::Step;
use tatl::message::{CommitMessage, CommitType};

fn press(key: Key) -> KeyInput {
    KeyInput { key, kind: KeyKind::Press }
}

#[test]
fn commit_type_words() {
    let expected = [
        (CommitType::Build, "build"),
        (CommitType::CI, "ci"),
        (CommitType::Chore, "chore"),
        (CommitType::Docs, "docs"),
        (CommitType::Feat, "feat"),
        (CommitType::Fix, "fix"),
        (CommitType::Perf, "perf"),
        (CommitType::Refactor, "refactor"),
        (CommitType::Revert, "revert"),
        (CommitType::Style, "style"),
        (CommitType::Test, "test"),
    ];
    for (kind, word) in expected {
        assert_eq!(kind.as_str(), word);
        assert_eq!(kind.to_string(), word);
    }
}

#[test]
fn new_message_keeps_every_part() {
    let message = CommitMessage::new(
        Some(CommitType::Refactor),
        true,
        Some("core".to_string()),
        "split the parser".to_string(),
        Some("The parser grew too large.".to_string()),
    );
    assert_eq!(message.commit_type, Some(CommitType::Refactor));
    assert!(message.breaking_change);
    assert_eq!(message.scope, Some("core".to_string()));
    assert_eq!(message.description, "split the parser");
    assert_eq!(message.body, Some("The parser grew too large.".to_string()));
}

#[test]
fn new_message_without_optional_parts() {
    let message = CommitMessage::new(None, false, None, "tidy up".to_string(), None);
    assert_eq!(message.commit_type, None);
    assert!(!message.breaking_change);
    assert_eq!(message.scope, None);
    assert_eq!(message.description, "tidy up");
    assert_eq!(message.body, None);
}

#[test]
fn message_text_is_its_description() {
    let message = CommitMessage::new(
        Some(CommitType::Fix),
        true,
        Some("api".to_string()),
        "reject empty names".to_string(),
        Some("details".to_string()),
    );
    assert_eq!(message.to_string(), "reject empty names");
}

#[test]
fn quit_keys() {
    assert_eq!(command_for(press(Key::Char('q'))), Command::Quit);
    assert_eq!(command_for(press(Key::Esc)), Command::Quit);
}

#[test]
fn movement_keys() {
    assert_eq!(command_for(press(Key::Char('j'))), Command::Move(Step::Next));
    assert_eq!(command_for(press(Key::Down)), Command::Move(Step::Next));
    assert_eq!(command_for(press(Key::Char('k'))), Command::Move(Step::Previous));
    assert_eq!(command_for(press(Key::Up)), Command::Move(Step::Previous));
}

#[test]
fn jump_keys() {
    assert_eq!(command_for(press(Key::Char('g'))), Command::MoveToStart);
    assert_eq!(command_for(press(Key::Home)), Command::MoveToStart);
    assert_eq!(command_for(press(Key::Char('G'))), Command::MoveToEnd);
    assert_eq!(command_for(press(Key::End)), Command::MoveToEnd);
}

#[test]
fn space_toggles_and_enter_confirms() {
    assert_eq!(command_for(press(Key::Char(' '))), Command::ToggleSelected);
    assert_eq!(command_for(press(Key::Enter)), Command::Confirm);
}

#[test]
fn unbound_keys_are_ignored() {
    for c in ['a', 'Q', 'J', 'K', 'x', '1', '\n', '\t'] {
        assert_eq!(command_for(press(Key::Char(c))), Command::Ignore);
    }
    assert_eq!(command_for(press(Key::Other)), Command::Ignore);
}

#[test]
fn only_presses_count() {
    let keys = [
        Key::Char('q'),
        Key::Char('j'),
        Key::Char('k'),
        Key::Char('g'),
        Key::Char('G'),
        Key::Char(' '),
        Key::Esc,
        Key::Enter,
        Key::Up,
        Key::Down,
        Key::Home,
        Key::End,
        Key::Other,
    ];
    for key in keys {
        assert_eq!(command_for(KeyInput { key, kind: KeyKind::Release }), Command::Ignore);
        assert_eq!(command_for(KeyInput { key, kind: KeyKind::Repeat }), Command::Ignore);
    }
}
