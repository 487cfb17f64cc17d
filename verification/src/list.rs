//! The list of candidates that the user browses: the candidates in the order
//! they arrived, one cursor, and a mark on each candidate.

use vstd::prelude::*;
use crate::message::CommitMessage;

verus! {

/// A candidate message together with the user's mark on it.
#[derive(Debug, Clone)]
pub struct CommitMessageItem {
    pub message: CommitMessage,
    pub select: bool,
}

impl CommitMessageItem {
    /// A fresh, unmarked candidate.
    pub fn new(message: CommitMessage) -> (item: Self)
        ensures
            item.message == message,
            !item.select,
    {
        Self { message, select: false }
    }

    /// The same candidate with its mark flipped.
    pub open spec fn flipped(self) -> CommitMessageItem {
        CommitMessageItem { message: self.message, select: !self.select }
    }
}

/// One step of the cursor.
#[derive(Debug, Clone, Copy, PartialEq, Eq, Structural)]
pub enum Step {
    /// Towards the end of the list.
    Next,
    /// Towards the start of the list.
    Previous,
}

/// The list as a mathematical value: the candidates in order and the cursor.
pub struct ListView {
    pub items: Seq<CommitMessageItem>,
    pub cursor: Option<nat>,
}

impl ListView {
    /// The cursor is absent exactly when there is nothing to point at, and
    /// otherwise points at one of the candidates.
    pub open spec fn wf(self) -> bool {
        match self.cursor {
            None => self.items.len() == 0,
            Some(c) => c < self.items.len(),
        }
    }

    /// The list with nothing in it.
    pub open spec fn empty() -> ListView {
        ListView { items: Seq::empty(), cursor: None }
    }

    /// The list after `item` arrived: it goes last, and the cursor, if there
    /// was none, is put on the first candidate.
    pub open spec fn appended(self, item: CommitMessageItem) -> ListView {
        ListView {
            items: self.items.push(item),
            cursor: match self.cursor {
                None => Some(0nat),
                Some(c) => Some(c),
            },
        }
    }

    /// The list after the cursor took one step, staying put at either end.
    pub open spec fn moved(self, step: Step) -> ListView {
        match self.cursor {
            None => self,
            Some(c) => ListView {
                items: self.items,
                cursor: match step {
                    Step::Next => if c + 1 < self.items.len() {
                        Some(c + 1)
                    } else {
                        Some(c)
                    },
                    Step::Previous => if c > 0 {
                        Some((c - 1) as nat)
                    } else {
                        Some(c)
                    },
                },
            },
        }
    }

    /// The list with the cursor on the first candidate, if there is one.
    pub open spec fn at_start(self) -> ListView {
        if self.items.len() == 0 {
            self
        } else {
            ListView { items: self.items, cursor: Some(0nat) }
        }
    }

    /// The list with the cursor on the last candidate, if there is one.
    pub open spec fn at_end(self) -> ListView {
        if self.items.len() == 0 {
            self
        } else {
            ListView { items: self.items, cursor: Some((self.items.len() - 1) as nat) }
        }
    }

    /// The list with the mark of the candidate under the cursor flipped.
    pub open spec fn toggled(self) -> ListView {
        match self.cursor {
            Some(c) if c < self.items.len() => ListView {
                items: self.items.update(c as int, self.items[c as int].flipped()),
                cursor: self.cursor,
            },
            _ => self,
        }
    }
}

impl ListView {
    /// The list after the cursor took `count` steps in one direction.
    pub open spec fn moved_times(self, step: Step, count: nat) -> ListView
        decreases count,
    {
        if count == 0 {
            self
        } else {
            self.moved(step).moved_times(step, (count - 1) as nat)
        }
    }
}

/// A step never takes the cursor off the list: the result is well formed
/// again, over the same candidates.
pub proof fn lemma_move_keeps_cursor_in_range(list: ListView, step: Step)
    requires
        list.wf(),
    ensures
        list.moved(step).wf(),
        list.moved(step).items == list.items,
        list.cursor is None ==> list.moved(step).cursor is None,
        list.cursor is Some ==> list.moved(step).cursor is Some && list.moved(step).cursor->0
            < list.items.len(),
{
}

/// Repeated steps saturate: `count` steps towards the end from position `c`
/// of `k` candidates arrive at `c + count` or at `k - 1`, whichever is
/// smaller, and `count` steps towards the start arrive at `c - count` or at
/// `0`, whichever is larger. So `k - 1` steps or more from anywhere reach an
/// end and stay there.
pub proof fn lemma_repeated_moves_saturate(list: ListView, step: Step, count: nat)
    requires
        list.wf(),
        list.cursor is Some,
    ensures
        list.moved_times(step, count).items == list.items,
        list.moved_times(step, count).wf(),
        step == Step::Next ==> list.moved_times(step, count).cursor == Some(
            if list.cursor->0 + count < list.items.len() {
                list.cursor->0 + count
            } else {
                (list.items.len() - 1) as nat
            },
        ),
        step == Step::Previous ==> list.moved_times(step, count).cursor == Some(
            if list.cursor->0 >= count {
                (list.cursor->0 - count) as nat
            } else {
                0nat
            },
        ),
    decreases count,
{
    if count > 0 {
        lemma_repeated_moves_saturate(list.moved(step), step, (count - 1) as nat);
    }
}

/// On a list of `k >= 1` candidates, jumping to the start puts the cursor on
/// `0`, and jumping to the end after that puts it on `k - 1`.
pub proof fn lemma_start_then_end(list: ListView)
    requires
        list.wf(),
        list.items.len() > 0,
    ensures
        list.at_start().cursor == Some(0nat),
        list.at_start().at_end().cursor == Some((list.items.len() - 1) as nat),
        list.at_start().at_end().items == list.items,
{
}

/// Toggling flips the mark of the candidate under the cursor and of no other,
/// changes no message and leaves the cursor where it is.
pub proof fn lemma_toggle_flips_one_mark(list: ListView)
    requires
        list.wf(),
        list.cursor is Some,
    ensures
        list.toggled().cursor == list.cursor,
        list.toggled().items.len() == list.items.len(),
        list.toggled().items[list.cursor->0 as int].select != list.items[list.cursor->0 as int].select,
        forall|i: int|
            0 <= i < list.items.len() ==> #[trigger] list.toggled().items[i].message
                == list.items[i].message,
        forall|i: int|
            0 <= i < list.items.len() && i != list.cursor->0 ==> #[trigger] list.toggled().items[i]
                == list.items[i],
{
}

/// Toggling twice at the same place gives back the list as it was.
pub proof fn lemma_toggle_twice_is_identity(list: ListView)
    requires
        list.wf(),
    ensures
        list.toggled().toggled() == list,
{
    assert(list.toggled().toggled().items =~= list.items);
}

/// With no candidates, moving, jumping and toggling all leave the list as it
/// is, with no cursor.
pub proof fn lemma_empty_list_is_unchanged(list: ListView, step: Step)
    requires
        list.wf(),
        list.items.len() == 0,
    ensures
        list.cursor is None,
        list.moved(step) == list,
        list.at_start() == list,
        list.at_end() == list,
        list.toggled() == list,
{
}

/// The candidates in arrival order, with the cursor.
#[derive(Debug, Clone)]
pub struct CommitMessageList {
    messages: Vec<CommitMessageItem>,
    // Read only while `messages` is non-empty.
    position: usize,
}

impl View for CommitMessageList {
    type V = ListView;

    closed spec fn view(&self) -> ListView {
        ListView {
            items: self.messages@,
            cursor: if self.messages@.len() == 0 {
                None
            } else {
                Some(self.position as nat)
            },
        }
    }
}

impl CommitMessageList {
    /// An empty list, with no cursor.
    pub fn new() -> (list: Self)
        ensures
            list@ == ListView::empty(),
            list@.wf(),
    {
        Self { messages: Vec::new(), position: 0 }
    }

    /// Adds a candidate at the end.
    pub fn append(&mut self, item: CommitMessageItem)
        requires
            old(self)@.wf(),
        ensures
            final(self)@ == old(self)@.appended(item),
            final(self)@.wf(),
    {
        if self.messages.len() == 0 {
            self.position = 0;
        }
        self.messages.push(item);
    }

    /// Moves the cursor one step, staying on the last or first candidate
    /// when it is already there.
    pub fn move_cursor(&mut self, step: Step)
        requires
            old(self)@.wf(),
        ensures
            final(self)@ == old(self)@.moved(step),
            final(self)@.wf(),
    {
        let len: usize = self.messages.len();
        if len == 0 {
            return ;
        }
        match step {
            Step::Next => {
                if self.position + 1 < len {
                    self.position = self.position + 1;
                }
            },
            Step::Previous => {
                if self.position > 0 {
                    self.position = self.position - 1;
                }
            },
        }
    }

    /// Puts the cursor on the first candidate.
    pub fn move_to_start(&mut self)
        requires
            old(self)@.wf(),
        ensures
            final(self)@ == old(self)@.at_start(),
            final(self)@.wf(),
    {
        self.position = 0;
    }

    /// Puts the cursor on the last candidate.
    pub fn move_to_end(&mut self)
        requires
            old(self)@.wf(),
        ensures
            final(self)@ == old(self)@.at_end(),
            final(self)@.wf(),
    {
        let len: usize = self.messages.len();
        if len > 0 {
            self.position = len - 1;
        }
    }

    /// Flips the mark of the candidate under the cursor.
    pub fn toggle_selected_at_cursor(&mut self)
        requires
            old(self)@.wf(),
        ensures
            final(self)@ == old(self)@.toggled(),
            final(self)@.wf(),
    {
        if self.messages.len() > 0 {
            let at: usize = self.position;
            let marked: bool = self.messages[at].select;
            self.messages[at].select = !marked;
        }
    }

    /// Whether the cursor and the candidates fit together.
    pub fn is_well_formed(&self) -> (ok: bool)
        ensures
            ok == self@.wf(),
    {
        self.messages.len() == 0 || self.position < self.messages.len()
    }

    /// How many candidates there are.
    pub fn len(&self) -> (n: usize)
        ensures
            n == self@.items.len(),
    {
        self.messages.len()
    }

    /// Where the cursor is, if there is anything to point at.
    pub fn cursor(&self) -> (at: Option<usize>)
        ensures
            at.is_some() == self@.cursor.is_some(),
            at matches Some(c) ==> self@.cursor == Some(c as nat),
    {
        if self.messages.len() == 0 {
            None
        } else {
            Some(self.position)
        }
    }

    /// The candidates in arrival order.
    pub fn items(&self) -> (all: &Vec<CommitMessageItem>)
        ensures
            all@ == self@.items,
    {
        &self.messages
    }
}

} // verus!
