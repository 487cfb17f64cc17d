//! What the browsing screen shows, as plain values: lines made of styled
//! spans. Turning them into terminal cells is left to whoever draws.

use vstd::prelude::*;
use vstd::string::*;
use crate::list::{CommitMessageItem, CommitMessageList};
use crate::message::CommitMessageView;

verus! {

/// The role of a piece of text on the screen; the drawer picks the colours.
#[derive(Debug, Clone, Copy, PartialEq, Eq, Structural)]
pub enum SpanStyle {
    /// No styling.
    Plain,
    /// The name of an action in the help header.
    HeaderHelp,
    /// The marker of a marked candidate.
    Selected,
    /// The marker of an unmarked candidate.
    NonSelected,
    /// The category of a message.
    MsgType,
    /// The scope of a message.
    Scope,
    /// The breaking-change marker.
    BreakingChange,
    /// The animated glyph of the progress indicator.
    SpinnerSymbol,
    /// The caption of the progress indicator.
    SpinnerText,
}

/// A piece of text with its role.
#[derive(Debug, Clone)]
pub struct StyledSpan {
    pub text: String,
    pub style: SpanStyle,
}

/// A span as a mathematical value.
pub struct SpanView {
    pub text: Seq<char>,
    pub style: SpanStyle,
}

impl View for StyledSpan {
    type V = SpanView;

    open spec fn view(&self) -> SpanView {
        SpanView { text: self.text@, style: self.style }
    }
}

impl StyledSpan {
    /// A span of `text` in the given role.
    pub fn new(text: &str, style: SpanStyle) -> (span: Self)
        ensures
            span@ == span_of(text@, style),
    {
        Self { text: String::from_str(text), style }
    }
}

/// The span with this text and role.
pub open spec fn span_of(text: Seq<char>, style: SpanStyle) -> SpanView {
    SpanView { text, style }
}

/// A line of spans as a sequence of mathematical spans.
pub open spec fn line_view(line: Seq<StyledSpan>) -> Seq<SpanView> {
    Seq::new(line.len(), |i: int| line[i]@)
}

/// The marker that starts a candidate's line.
pub open spec fn marker_span(select: bool) -> SpanView {
    if select {
        span_of("🗸 "@, SpanStyle::Selected)
    } else {
        span_of("  "@, SpanStyle::NonSelected)
    }
}

/// The spans that a message's category brings: the category's word, the
/// scope in parentheses if there is one, `!` if the change is breaking, and
/// the colon. A message without a category brings none of them.
pub open spec fn prefix_spans(message: CommitMessageView) -> Seq<SpanView> {
    match message.commit_type {
        None => Seq::empty(),
        Some(kind) => seq![span_of(kind.label(), SpanStyle::MsgType)] + (match message.scope {
            Some(scope) => seq![span_of("("@ + scope + ")"@, SpanStyle::Scope)],
            None => Seq::empty(),
        }) + (if message.breaking_change {
            seq![span_of("!"@, SpanStyle::BreakingChange)]
        } else {
            Seq::empty()
        }) + seq![span_of(": "@, SpanStyle::Plain)],
    }
}

/// The line of one candidate: the marker, what the category brings, and the
/// description.
pub open spec fn item_spans(message: CommitMessageView, select: bool) -> Seq<SpanView> {
    seq![marker_span(select)] + prefix_spans(message) + seq![
        span_of(message.description, SpanStyle::Plain),
    ]
}

/// Renders one candidate as a line of spans.
pub fn item_line(item: &CommitMessageItem) -> (line: Vec<StyledSpan>)
    ensures
        line_view(line@) == item_spans(item.message@, item.select),
{
    let mut line: Vec<StyledSpan> = Vec::new();
    if item.select {
        line.push(StyledSpan::new("🗸 ", SpanStyle::Selected));
    } else {
        line.push(StyledSpan::new("  ", SpanStyle::NonSelected));
    }
    match item.message.commit_type {
        Some(kind) => {
            line.push(StyledSpan::new(kind.as_str(), SpanStyle::MsgType));
            match &item.message.scope {
                Some(scope) => {
                    let mut text = String::from_str("(");
                    text.append(scope.as_str());
                    text.append(")");
                    line.push(StyledSpan { text, style: SpanStyle::Scope });
                },
                None => {},
            }
            if item.message.breaking_change {
                line.push(StyledSpan::new("!", SpanStyle::BreakingChange));
            }
            line.push(StyledSpan::new(": ", SpanStyle::Plain));
        },
        None => {
        },
    }
    line.push(StyledSpan { text: item.message.description.clone(), style: SpanStyle::Plain });
    line
}

/// The help header: each action's name followed by its keys.
pub open spec fn header_spans() -> Seq<SpanView> {
    seq![
        span_of("Move "@, SpanStyle::HeaderHelp),
        span_of("<Up>/<Down> or <j>/<k>  "@, SpanStyle::Plain),
        span_of("Select "@, SpanStyle::HeaderHelp),
        span_of("<Space> "@, SpanStyle::Plain),
        span_of("Confirm "@, SpanStyle::HeaderHelp),
        span_of("<Enter>  "@, SpanStyle::Plain),
        span_of("Quit "@, SpanStyle::HeaderHelp),
        span_of("<q>  "@, SpanStyle::Plain),
    ]
}

/// Builds the help header.
pub fn header_line() -> (line: Vec<StyledSpan>)
    ensures
        line_view(line@) == header_spans(),
{
    let mut line: Vec<StyledSpan> = Vec::new();
    line.push(StyledSpan::new("Move ", SpanStyle::HeaderHelp));
    line.push(StyledSpan::new("<Up>/<Down> or <j>/<k>  ", SpanStyle::Plain));
    line.push(StyledSpan::new("Select ", SpanStyle::HeaderHelp));
    line.push(StyledSpan::new("<Space> ", SpanStyle::Plain));
    line.push(StyledSpan::new("Confirm ", SpanStyle::HeaderHelp));
    line.push(StyledSpan::new("<Enter>  ", SpanStyle::Plain));
    line.push(StyledSpan::new("Quit ", SpanStyle::HeaderHelp));
    line.push(StyledSpan::new("<q>  ", SpanStyle::Plain));
    line
}

/// How many rows of the screen the help header takes.
pub const HEADER_HEIGHT: u16 = 2;

/// The browsing screen: the help header above the titled list of candidates,
/// one line each, with the line under the cursor highlighted.
#[derive(Debug, Clone)]
pub struct BrowsingView {
    pub header: Vec<StyledSpan>,
    /// How many rows the header takes; the list fills what is left below.
    pub header_height: u16,
    pub title: String,
    pub rows: Vec<Vec<StyledSpan>>,
    /// The row to highlight; none when there are no rows.
    pub highlighted: Option<usize>,
    /// What is drawn in front of the highlighted row.
    pub highlight_symbol: String,
}

/// What a browsing screen must show for a list: the fixed header, title and
/// highlight symbol, one line per candidate in order, and the highlight on
/// the cursor and nowhere else.
pub open spec fn shows(screen: BrowsingView, list: crate::list::ListView) -> bool {
    &&& line_view(screen.header@) == header_spans()
    &&& screen.header_height == HEADER_HEIGHT
    &&& screen.title@ == "? Select suggested commit messages"@
    &&& screen.highlight_symbol@ == "❯ "@
    &&& screen.rows@.len() == list.items.len()
    &&& forall|i: int|
        0 <= i < list.items.len() ==> line_view(#[trigger] screen.rows@[i]@) == item_spans(
            list.items[i].message@,
            list.items[i].select,
        )
    &&& match screen.highlighted {
        Some(row) => list.cursor == Some(row as nat),
        None => list.cursor is None,
    }
}

/// Lays out the browsing screen for a list.
pub fn browsing_view(list: &CommitMessageList) -> (screen: BrowsingView)
    ensures
        shows(screen, list@),
{
    let items = list.items();
    let mut rows: Vec<Vec<StyledSpan>> = Vec::new();
    let mut at: usize = 0;
    while at < items.len()
        invariant
            at <= items@.len(),
            rows@.len() == at,
            forall|i: int|
                0 <= i < at ==> line_view(#[trigger] rows@[i]@) == item_spans(
                    items@[i].message@,
                    items@[i].select,
                ),
        decreases items@.len() - at,
    {
        rows.push(item_line(&items[at]));
        at = at + 1;
    }
    BrowsingView {
        header: header_line(),
        header_height: HEADER_HEIGHT,
        title: String::from_str("? Select suggested commit messages"),
        rows,
        highlighted: list.cursor(),
        highlight_symbol: String::from_str("❯ "),
    }
}

} // verus!
