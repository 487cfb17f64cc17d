//! Candidate commit messages: the data model, the browsing list with its
//! cursor and marks, the key bindings, and the two-phase controller that
//! collects generated candidates and then lets the user browse them.

pub mod git;
pub mod input;
pub mod list;
pub mod message;
pub mod notify;
pub mod prompt;
pub mod spinner;
pub mod tui;
pub mod view;
