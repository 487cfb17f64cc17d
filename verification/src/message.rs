//! A commit message proposal in the conventional-commit shape.

use vstd::prelude::*;
use vstd::string::*;

verus! {

/// The category of a change, written before the colon of a commit subject.
#[derive(Debug, Clone, Copy, PartialEq, Eq, Structural)]
pub enum CommitType {
    Build,
    CI,
    Chore,
    Docs,
    Feat,
    Fix,
    Perf,
    Refactor,
    Revert,
    Style,
    Test,
}

impl CommitType {
    /// The lower-case word that stands for this category in a subject line.
    pub open spec fn label(self) -> Seq<char> {
        match self {
            CommitType::Build => "build"@,
            CommitType::CI => "ci"@,
            CommitType::Chore => "chore"@,
            CommitType::Docs => "docs"@,
            CommitType::Feat => "feat"@,
            CommitType::Fix => "fix"@,
            CommitType::Perf => "perf"@,
            CommitType::Refactor => "refactor"@,
            CommitType::Revert => "revert"@,
            CommitType::Style => "style"@,
            CommitType::Test => "test"@,
        }
    }

    /// The category's word as a string slice.
    pub fn as_str(&self) -> (word: &'static str)
        ensures
            word@ == self.label(),
    {
        match self {
            CommitType::Build => "build",
            CommitType::CI => "ci",
            CommitType::Chore => "chore",
            CommitType::Docs => "docs",
            CommitType::Feat => "feat",
            CommitType::Fix => "fix",
            CommitType::Perf => "perf",
            CommitType::Refactor => "refactor",
            CommitType::Revert => "revert",
            CommitType::Style => "style",
            CommitType::Test => "test",
        }
    }

    /// The category's word as an owned string.
    pub fn to_string(&self) -> (text: String)
        ensures
            text@ == self.label(),
    {
        String::from_str(self.as_str())
    }
}

/// What a commit message says, with every text as a sequence of characters.
pub struct CommitMessageView {
    pub commit_type: Option<CommitType>,
    pub breaking_change: bool,
    pub scope: Option<Seq<char>>,
    pub description: Seq<char>,
    pub body: Option<Seq<char>>,
}

/// The characters of an optional text.
pub open spec fn text_of(text: Option<String>) -> Option<Seq<char>> {
    match text {
        Some(t) => Some(t@),
        None => None,
    }
}

/// One proposed commit message.
#[derive(Debug, Clone)]
pub struct CommitMessage {
    pub commit_type: Option<CommitType>,
    pub breaking_change: bool,
    pub scope: Option<String>,
    pub description: String,
    pub body: Option<String>,
}

impl View for CommitMessage {
    type V = CommitMessageView;

    open spec fn view(&self) -> CommitMessageView {
        CommitMessageView {
            commit_type: self.commit_type,
            breaking_change: self.breaking_change,
            scope: text_of(self.scope),
            description: self.description@,
            body: text_of(self.body),
        }
    }
}

impl CommitMessage {
    /// Puts the parts of a message together; `subject` becomes the description.
    pub fn new(
        commit_type: Option<CommitType>,
        breaking_change: bool,
        scope: Option<String>,
        subject: String,
        body: Option<String>,
    ) -> (message: Self)
        ensures
            message.commit_type == commit_type,
            message.breaking_change == breaking_change,
            message.scope == scope,
            message.description == subject,
            message.body == body,
    {
        Self { commit_type, breaking_change, scope, description: subject, body }
    }

    /// The message shown as text: its description alone.
    pub fn to_string(&self) -> (text: String)
        ensures
            text@ == self.description@,
    {
        self.description.clone()
    }
}

} // verus!
