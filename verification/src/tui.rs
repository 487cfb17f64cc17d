//! The controller: it asks for a number of candidates, collects them as they
//! arrive while a progress indicator is shown, and then lets the user browse
//! and mark them until they confirm or quit.
//!
//! The controller never waits or draws by itself. Whoever owns the terminal
//! and the generator hands it one event at a time through [`App::step`] and
//! does what the returned [`Action`] says.

use vstd::prelude::*;
use crate::input::{command_for, command_of, Command, KeyInput};
use crate::list::{CommitMessageItem, CommitMessageList, ListView, Step};
use crate::message::CommitMessage;
use crate::spinner::{spinner_spans, SpinnerView, SpinnerWidget};
use crate::view::{browsing_view, line_view, shows, BrowsingView, StyledSpan};

verus! {

/// The language that generated messages are asked to be written in.
pub const LOCALE: &'static str = "Japanese";

/// Milliseconds between two redraws of the progress indicator.
pub const REDRAW_PERIOD_MILLIS: u64 = 100;

/// Where the controller stands.
#[derive(Debug, Clone, Copy, PartialEq, Eq, Structural)]
pub enum Phase {
    /// Nothing has been asked for yet.
    Created,
    /// Requests are outstanding; keys are not read.
    Generating,
    /// All requests have completed; the user browses the candidates.
    Browsing,
    /// The user confirmed or quit.
    Finished,
}

/// How one generation request ended.
#[derive(Debug, Clone)]
pub enum Completion {
    Success(CommitMessage),
    Failure,
}

/// Something that happened outside the controller.
#[derive(Debug, Clone)]
pub enum Event {
    /// The run begins, with this many candidates to ask for.
    Start(usize),
    /// The redraw timer fired.
    Tick,
    /// One of the outstanding requests completed.
    Completed(Completion),
    /// A key event was read.
    Key(KeyInput),
}

/// What the caller has to do before it hands over the next event.
#[derive(Debug, Clone, Copy, PartialEq, Eq, Structural)]
pub enum Action {
    /// Issue this many generation requests, then wait for the timer or a
    /// completion, whichever comes first.
    Launch(usize),
    /// Draw the progress indicator, then wait for the timer or a completion.
    DrawProgress,
    /// Draw nothing; go on waiting as before.
    Wait,
    /// Draw the list, then wait for a key.
    DrawList,
    /// Stop.
    Exit,
}

/// The controller as a mathematical value.
pub struct AppView {
    pub list: ListView,
    pub phase: Phase,
    /// How many requests have not completed yet.
    pub outstanding: nat,
    pub spinner: SpinnerView,
}

impl AppView {
    /// The list and the indicator are well formed, and while the phase is
    /// generating at least one request is outstanding.
    pub open spec fn wf(self) -> bool {
        &&& self.list.wf()
        &&& self.spinner.wf()
        &&& (self.phase == Phase::Generating ==> self.outstanding > 0)
    }

    /// The controller before anything happened.
    pub open spec fn fresh() -> AppView {
        AppView {
            list: ListView::empty(),
            phase: Phase::Created,
            outstanding: 0,
            spinner: SpinnerView { caption: "Generating messages..."@, frame: 0 },
        }
    }

    /// The same controller over another list.
    pub open spec fn with_list(self, list: ListView) -> AppView {
        AppView { list, ..self }
    }

    /// The same controller in another phase.
    pub open spec fn in_phase(self, phase: Phase) -> AppView {
        AppView { phase, ..self }
    }

    /// The controller after a message arrived: it joins the list, unmarked.
    pub open spec fn pushed(self, message: CommitMessage) -> AppView {
        self.with_list(self.list.appended(CommitMessageItem { message, select: false }))
    }

    /// The controller after the run began with `count` requests. Without
    /// requests there is nothing to wait for and browsing begins at once.
    pub open spec fn started(self, count: nat) -> AppView {
        if self.phase != Phase::Created {
            self
        } else if count == 0 {
            self.in_phase(Phase::Browsing)
        } else {
            AppView { phase: Phase::Generating, outstanding: count, ..self }
        }
    }

    /// The controller after one request completed: a success joins the list,
    /// a failure is dropped, and the last completion begins the browsing.
    pub open spec fn completed(self, outcome: Completion) -> AppView {
        if self.phase != Phase::Generating {
            self
        } else {
            let collected = match outcome {
                Completion::Success(message) => self.pushed(message),
                Completion::Failure => self,
            };
            AppView {
                phase: if self.outstanding == 1 {
                    Phase::Browsing
                } else {
                    Phase::Generating
                },
                outstanding: (self.outstanding - 1) as nat,
                ..collected
            }
        }
    }

    /// The controller after a command was carried out.
    pub open spec fn applied(self, command: Command) -> AppView {
        match command {
            Command::Quit | Command::Confirm => self.in_phase(Phase::Finished),
            Command::Move(step) => self.with_list(self.list.moved(step)),
            Command::MoveToStart => self.with_list(self.list.at_start()),
            Command::MoveToEnd => self.with_list(self.list.at_end()),
            Command::ToggleSelected => self.with_list(self.list.toggled()),
            Command::Ignore => self,
        }
    }

    /// The controller after a key event: while browsing, the key's command is
    /// carried out; in any other phase the key is not looked at.
    pub open spec fn keyed(self, input: KeyInput) -> AppView {
        if self.phase == Phase::Browsing {
            self.applied(command_of(input))
        } else {
            self
        }
    }

    /// The controller after an event.
    pub open spec fn after(self, event: Event) -> AppView {
        match event {
            Event::Start(count) => self.started(count as nat),
            Event::Tick => self,
            Event::Completed(outcome) => self.completed(outcome),
            Event::Key(input) => self.keyed(input),
        }
    }

    /// What the caller is told to do when `event` comes in this state.
    pub open spec fn action_on(self, event: Event) -> Action {
        match self.phase {
            Phase::Created => match event {
                Event::Start(count) => if count == 0 {
                    Action::DrawList
                } else {
                    Action::Launch(count)
                },
                _ => Action::Wait,
            },
            Phase::Generating => match event {
                Event::Tick => Action::DrawProgress,
                Event::Completed(_) => if self.outstanding == 1 {
                    Action::DrawList
                } else {
                    Action::Wait
                },
                _ => Action::Wait,
            },
            Phase::Browsing => match event {
                Event::Key(input) => if command_of(input).requests_exit() {
                    Action::Exit
                } else {
                    Action::DrawList
                },
                _ => Action::Wait,
            },
            Phase::Finished => Action::Exit,
        }
    }

    /// Whether the progress indicator is what is on screen.
    pub open spec fn shows_progress(self) -> bool {
        self.phase == Phase::Created || self.phase == Phase::Generating
    }

    /// The controller after a redraw: the progress indicator, when shown,
    /// moves on by one frame; nothing else changes.
    pub open spec fn rendered(self) -> AppView {
        if self.shows_progress() {
            AppView { spinner: self.spinner.advanced(), ..self }
        } else {
            self
        }
    }
}

impl AppView {
    /// The controller after a sequence of events, first to last.
    pub open spec fn after_all(self, events: Seq<Event>) -> AppView
        decreases events.len(),
    {
        if events.len() == 0 {
            self
        } else {
            self.after_all(events.drop_last()).after(events.last())
        }
    }
}

/// How many of the events are completions of a request.
pub open spec fn completions(events: Seq<Event>) -> nat
    decreases events.len(),
{
    if events.len() == 0 {
        0
    } else {
        completions(events.drop_last()) + if events.last() is Completed {
            1nat
        } else {
            0nat
        }
    }
}

/// The candidates that the events bring: the message of every successful
/// completion, unmarked, in the order of the events.
pub open spec fn arrivals(events: Seq<Event>) -> Seq<CommitMessageItem>
    decreases events.len(),
{
    if events.len() == 0 {
        Seq::empty()
    } else {
        match events.last() {
            Event::Completed(Completion::Success(message)) => arrivals(events.drop_last()).push(
                CommitMessageItem { message, select: false },
            ),
            _ => arrivals(events.drop_last()),
        }
    }
}

/// The generating phase lasts exactly as long as requests are outstanding.
/// Take a controller with `n` outstanding requests and any events of which
/// all but the last come before the `n`-th completion. Ticks, keys and
/// failures change nothing in the list; every success is added at the end,
/// in order of arrival. The phase is still generating while fewer than `n`
/// completions have come, and turns to browsing with the `n`-th. So the list
/// grows by the number of successes, which is at most the number of
/// completions.
pub proof fn lemma_generation_collects_arrivals(state: AppView, events: Seq<Event>)
    requires
        state.wf(),
        state.phase == Phase::Generating,
        events.len() > 0 ==> completions(events.drop_last()) < state.outstanding,
    ensures
        completions(events) <= state.outstanding,
        arrivals(events).len() <= completions(events),
        state.after_all(events).wf(),
        state.after_all(events).outstanding == state.outstanding - completions(events),
        state.after_all(events).phase == if completions(events) == state.outstanding {
            Phase::Browsing
        } else {
            Phase::Generating
        },
        state.after_all(events).list.items == state.list.items + arrivals(events),
        state.after_all(events).spinner == state.spinner,
    decreases events.len(),
{
    if events.len() > 0 {
        lemma_generation_collects_arrivals(state, events.drop_last());
    }
}

/// A run that asks for `n >= 1` candidates ends its generating phase with
/// the `n`-th completion and not before, whatever mix of successes and
/// failures comes and whatever ticks and keys come in between. The list then
/// holds exactly the successes, in order of arrival: between none and `n`.
pub proof fn lemma_run_ends_after_all_completions(count: usize, events: Seq<Event>)
    requires
        count >= 1,
        events.len() > 0 ==> completions(events.drop_last()) < count,
    ensures
        completions(events) <= count,
        AppView::fresh().after(Event::Start(count)).after_all(events).phase == if completions(
            events,
        ) == count {
            Phase::Browsing
        } else {
            Phase::Generating
        },
        AppView::fresh().after(Event::Start(count)).after_all(events).list.items == arrivals(
            events,
        ),
        AppView::fresh().after(Event::Start(count)).after_all(events).wf(),
        arrivals(events).len() <= completions(events),
{
    lemma_generation_collects_arrivals(AppView::fresh().after(Event::Start(count)), events);
}

/// Whatever event comes, a well-formed controller stays well formed: the
/// cursor never points off the list, and no event takes a candidate away.
pub proof fn lemma_events_keep_the_controller_well_formed(state: AppView, event: Event)
    requires
        state.wf(),
    ensures
        state.after(event).wf(),
        state.after(event).list.items.len() >= state.list.items.len(),
{
}

/// No event changes the message of a candidate, and the only event that
/// changes a mark is a key that toggles, read while browsing: it changes the
/// mark of the candidate under the cursor.
pub proof fn lemma_only_a_toggle_changes_a_mark(state: AppView, event: Event, index: int)
    requires
        state.wf(),
        0 <= index < state.list.items.len(),
    ensures
        state.after(event).list.items[index].message == state.list.items[index].message,
        state.after(event).list.items[index].select != state.list.items[index].select <==> {
            &&& state.phase == Phase::Browsing
            &&& event matches Event::Key(input)
            &&& command_of(input) == Command::ToggleSelected
            &&& state.list.cursor == Some(index as nat)
        },
{
}

/// Once the generating phase is over it does not come back: from browsing,
/// every sequence of events leads to browsing or to the end, and from the
/// end every sequence of events leads to the end.
pub proof fn lemma_generation_does_not_resume(state: AppView, events: Seq<Event>)
    requires
        state.phase == Phase::Browsing || state.phase == Phase::Finished,
    ensures
        state.after_all(events).phase == Phase::Browsing || state.after_all(events).phase
            == Phase::Finished,
        state.phase == Phase::Finished ==> state.after_all(events).phase == Phase::Finished,
        state.after_all(events).outstanding == state.outstanding,
    decreases events.len(),
{
    if events.len() > 0 {
        lemma_generation_does_not_resume(state, events.drop_last());
    }
}

/// What is drawn: one variant per kind of screen.
#[derive(Debug, Clone)]
pub enum Screen {
    /// The one-line progress indicator.
    Progress(Vec<StyledSpan>),
    /// The help header and the list.
    Browsing(BrowsingView),
}

/// Whether `screen` is what the controller in the given state has to draw:
/// the current frame of the progress indicator until all requests have
/// completed, and from then on the browsing screen of its list.
pub open spec fn draws(screen: Screen, state: AppView) -> bool {
    match screen {
        Screen::Progress(line) => state.shows_progress() && line_view(line@) == spinner_spans(
            state.spinner.frame,
            state.spinner.caption,
        ),
        Screen::Browsing(list) => !state.shows_progress() && shows(list, state.list),
    }
}

/// The controller. It owns the list of candidates.
#[derive(Debug, Clone)]
pub struct App {
    message_list: CommitMessageList,
    phase: Phase,
    outstanding: usize,
    spinner: SpinnerWidget,
}

impl View for App {
    type V = AppView;

    closed spec fn view(&self) -> AppView {
        AppView {
            list: self.message_list@,
            phase: self.phase,
            outstanding: self.outstanding as nat,
            spinner: self.spinner@,
        }
    }
}

impl App {
    /// A controller that has not begun yet, with an empty list.
    pub fn new() -> (app: Self)
        ensures
            app@ == AppView::fresh(),
            app@.wf(),
    {
        Self {
            message_list: CommitMessageList::new(),
            phase: Phase::Created,
            outstanding: 0,
            spinner: SpinnerWidget::new("Generating messages..."),
        }
    }

    /// Whether the controller's parts fit together. A controller made by
    /// [`App::new`] and changed through its methods alone always does.
    pub fn is_well_formed(&self) -> (ok: bool)
        ensures
            ok == self@.wf(),
    {
        let counting = match self.phase {
            Phase::Generating => self.outstanding > 0,
            _ => true,
        };
        self.message_list.is_well_formed() && self.spinner.is_well_formed() && counting
    }

    /// Takes one event and says what to do next.
    pub fn step(&mut self, event: Event) -> (action: Action)
        requires
            old(self)@.wf(),
        ensures
            final(self)@ == old(self)@.after(event),
            action == old(self)@.action_on(event),
            final(self)@.wf(),
    {
        match self.phase {
            Phase::Created => match event {
                Event::Start(count) => {
                    if count == 0 {
                        self.phase = Phase::Browsing;
                        Action::DrawList
                    } else {
                        self.phase = Phase::Generating;
                        self.outstanding = count;
                        Action::Launch(count)
                    }
                },
                _ => Action::Wait,
            },
            Phase::Generating => match event {
                Event::Tick => Action::DrawProgress,
                Event::Completed(outcome) => {
                    match outcome {
                        Completion::Success(message) => self.push_message(message),
                        Completion::Failure => {},
                    }
                    self.outstanding = self.outstanding - 1;
                    if self.outstanding == 0 {
                        self.phase = Phase::Browsing;
                        Action::DrawList
                    } else {
                        Action::Wait
                    }
                },
                _ => Action::Wait,
            },
            Phase::Browsing => match event {
                Event::Key(input) => {
                    self.handle_key(input);
                    match self.phase {
                        Phase::Finished => Action::Exit,
                        _ => Action::DrawList,
                    }
                },
                _ => Action::Wait,
            },
            Phase::Finished => Action::Exit,
        }
    }

    /// Carries out the command of a key event, if the user is browsing.
    pub fn handle_key(&mut self, key: KeyInput)
        requires
            old(self)@.wf(),
        ensures
            final(self)@ == old(self)@.keyed(key),
            final(self)@.wf(),
    {
        match self.phase {
            Phase::Browsing => {},
            _ => {
                return ;
            },
        }
        match command_for(key) {
            Command::Quit => self.phase = Phase::Finished,
            Command::Move(Step::Next) => self.cursor_down(),
            Command::Move(Step::Previous) => self.cursor_up(),
            Command::MoveToStart => self.cursor_top(),
            Command::MoveToEnd => self.cursor_end(),
            Command::ToggleSelected => self.select(),
            Command::Confirm => self.confirm(),
            Command::Ignore => {},
        }
    }

    /// Moves the cursor one candidate down, unless it is on the last.
    pub fn cursor_down(&mut self)
        requires
            old(self)@.wf(),
        ensures
            final(self)@ == old(self)@.applied(Command::Move(Step::Next)),
            final(self)@.wf(),
    {
        self.message_list.move_cursor(Step::Next);
    }

    /// Moves the cursor one candidate up, unless it is on the first.
    pub fn cursor_up(&mut self)
        requires
            old(self)@.wf(),
        ensures
            final(self)@ == old(self)@.applied(Command::Move(Step::Previous)),
            final(self)@.wf(),
    {
        self.message_list.move_cursor(Step::Previous);
    }

    /// Puts the cursor on the first candidate.
    pub fn cursor_top(&mut self)
        requires
            old(self)@.wf(),
        ensures
            final(self)@ == old(self)@.applied(Command::MoveToStart),
            final(self)@.wf(),
    {
        self.message_list.move_to_start();
    }

    /// Puts the cursor on the last candidate.
    pub fn cursor_end(&mut self)
        requires
            old(self)@.wf(),
        ensures
            final(self)@ == old(self)@.applied(Command::MoveToEnd),
            final(self)@.wf(),
    {
        self.message_list.move_to_end();
    }

    /// Flips the mark of the candidate under the cursor.
    pub fn select(&mut self)
        requires
            old(self)@.wf(),
        ensures
            final(self)@ == old(self)@.applied(Command::ToggleSelected),
            final(self)@.wf(),
    {
        self.message_list.toggle_selected_at_cursor();
    }

    /// Ends the browsing; the marks say what was chosen.
    pub fn confirm(&mut self)
        requires
            old(self)@.wf(),
        ensures
            final(self)@ == old(self)@.applied(Command::Confirm),
            final(self)@.wf(),
    {
        self.phase = Phase::Finished;
    }

    /// Adds a message to the list as an unmarked candidate.
    pub fn push_message(&mut self, message: CommitMessage)
        requires
            old(self)@.wf(),
        ensures
            final(self)@ == old(self)@.pushed(message),
            final(self)@.wf(),
    {
        self.message_list.append(CommitMessageItem::new(message));
    }

    /// Lays out what is to be drawn now: the progress indicator until all
    /// requests have completed, the list from then on.
    pub fn render(&mut self) -> (screen: Screen)
        requires
            old(self)@.wf(),
        ensures
            final(self)@ == old(self)@.rendered(),
            final(self)@.wf(),
            draws(screen, old(self)@),
    {
        match self.phase {
            Phase::Created | Phase::Generating => Screen::Progress(self.spinner.render_spinner()),
            _ => Screen::Browsing(browsing_view(&self.message_list)),
        }
    }

    /// Where the controller stands.
    pub fn phase(&self) -> (phase: Phase)
        ensures
            phase == self@.phase,
    {
        self.phase
    }

    /// Whether the user confirmed or quit.
    pub fn should_exit(&self) -> (exit: bool)
        ensures
            exit == (self@.phase == Phase::Finished),
    {
        match self.phase {
            Phase::Finished => true,
            _ => false,
        }
    }

    /// How many requests have not completed yet.
    pub fn outstanding(&self) -> (count: usize)
        ensures
            count == self@.outstanding,
    {
        self.outstanding
    }

    /// The candidates collected so far, with the cursor and the marks.
    pub fn message_list(&self) -> (list: &CommitMessageList)
        ensures
            list@ == self@.list,
    {
        &self.message_list
    }
}

impl Default for App {
    fn default() -> (app: Self)
        ensures
            app@ == AppView::fresh(),
            app@.wf(),
    {
        Self::new()
    }
}

} // verus!
