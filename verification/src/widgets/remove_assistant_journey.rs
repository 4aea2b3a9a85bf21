//! The remove-assistant journey: mark assistants with Space, remove the
//! marked ones with Enter.

use crate::shared::assistant_config::StoredAssistant;
use crate::shared::key::{KeyCode, KeyEvent};
use crate::shared::text::{chars_of, extend_chars, string_of};
use crate::shared::text_input_state::TextInputState;
use crate::widgets::generic_journey::{GenericJourneyWidgetState, JourneyOutcome};
use crate::widgets::select::{next_selection, previous_selection, selected_index, SelectState};
use crate::widgets::select_assistant_journey::{assistant_label, assistant_label_exec};
use vstd::prelude::*;

verus! {

/// How many assistants are listed: as many as have both an entry and a mark.
pub open spec fn listed_count(assistants: Seq<StoredAssistant>, marked: Seq<bool>) -> nat {
    if assistants.len() <= marked.len() {
        assistants.len()
    } else {
        marked.len()
    }
}

/// The list row of an assistant: its checkbox, then `name (model)`.
pub open spec fn removal_label(a: StoredAssistant, marked: bool) -> Seq<char> {
    (if marked {
        seq!['[', 'x', ']']
    } else {
        seq!['[', ' ', ']']
    }) + seq![' '] + assistant_label(a)
}

/// The marked assistants among the first `k` listed, in list order.
pub open spec fn marked_among(assistants: Seq<StoredAssistant>, marked: Seq<bool>, k: int) -> Seq<
    StoredAssistant,
>
    decreases k,
{
    if k <= 0 {
        Seq::empty()
    } else {
        marked_among(assistants, marked, k - 1) + if marked[k - 1] {
            seq![assistants[k - 1]]
        } else {
            Seq::empty()
        }
    }
}

/// The marked assistants, in list order.
pub open spec fn marked_assistants(assistants: Seq<StoredAssistant>, marked: Seq<bool>) -> Seq<
    StoredAssistant,
> {
    marked_among(assistants, marked, listed_count(assistants, marked) as int)
}

/// The marks after `key`: Space flips the mark of the selected assistant.
pub open spec fn marks_after_key(marked: Seq<bool>, selection: Option<usize>, key: KeyEvent) -> Seq<
    bool,
> {
    match (key.code, selection) {
        (KeyCode::Char(' '), Some(i)) => if i < marked.len() {
            marked.update(i as int, !marked[i as int])
        } else {
            marked
        },
        _ => marked,
    }
}

pub struct RemoveAssistantJourneyState {
    pub wrapper_state: GenericJourneyWidgetState<SelectState>,
    pub assistants: Vec<StoredAssistant>,
    pub marked: Vec<bool>,
}

impl RemoveAssistantJourneyState {
    /// The list rows show each assistant with its mark.
    pub open spec fn rows_match(&self) -> bool {
        let n = listed_count(self.assistants@, self.marked@);
        &&& self.wrapper_state.child_state.items@.len() == n
        &&& forall|i: int|
            0 <= i < n ==> #[trigger] self.wrapper_state.child_state.items@[i]@ == removal_label(
                self.assistants@[i],
                self.marked@[i],
            )
    }

    /// A journey listing `assistants`, none marked, the first one selected.
    pub fn new(input_state: TextInputState, assistants: Vec<StoredAssistant>) -> (r: Self)
        ensures
            r.wrapper_state.input_state == input_state,
            r.assistants@ == assistants@,
            r.marked@.len() == assistants@.len(),
            forall|i: int| 0 <= i < assistants@.len() ==> !#[trigger] r.marked@[i],
            r.rows_match(),
            r.wrapper_state.child_state.selection() == if assistants@.len() == 0 {
                None
            } else {
                Some(0usize)
            },
    {
        let mut marked: Vec<bool> = Vec::new();
        let mut i: usize = 0;
        while i < assistants.len()
            invariant
                i <= assistants@.len(),
                marked@.len() == i,
                forall|k: int| 0 <= k < i ==> !#[trigger] marked@[k],
            decreases assistants@.len() - i,
        {
            marked.push(false);
            i = i + 1;
        }
        let mut state = Self {
            wrapper_state: GenericJourneyWidgetState {
                input_state,
                child_state: SelectState::new(Vec::new()),
            },
            assistants,
            marked,
        };
        let items = state.items();
        state.wrapper_state.child_state = SelectState::new(items);
        state
    }

    /// The list rows: each assistant's checkbox and `name (model)`.
    fn items(&self) -> (r: Vec<String>)
        ensures
            r@.len() == listed_count(self.assistants@, self.marked@),
            forall|i: int|
                0 <= i < r@.len() ==> #[trigger] r@[i]@ == removal_label(
                    self.assistants@[i],
                    self.marked@[i],
                ),
    {
        let n = if self.assistants.len() <= self.marked.len() {
            self.assistants.len()
        } else {
            self.marked.len()
        };
        let mut out: Vec<String> = Vec::new();
        let mut i: usize = 0;
        while i < n
            invariant
                n == listed_count(self.assistants@, self.marked@),
                n <= self.assistants@.len(),
                n <= self.marked@.len(),
                i <= n,
                out@.len() == i,
                forall|k: int|
                    0 <= k < i ==> #[trigger] out@[k]@ == removal_label(
                        self.assistants@[k],
                        self.marked@[k],
                    ),
            decreases n - i,
        {
            let mut row: Vec<char> = if self.marked[i] {
                vec!['[', 'x', ']', ' ']
            } else {
                vec!['[', ' ', ']', ' ']
            };
            let label = assistant_label_exec(&self.assistants[i]);
            extend_chars(&mut row, &chars_of(label.as_str()));
            assert(row@ =~= removal_label(self.assistants@[i as int], self.marked@[i as int]));
            out.push(string_of(&row));
            i = i + 1;
        }
        out
    }
}

pub struct RemoveAssistantJourneyWidget;

impl RemoveAssistantJourneyWidget {
    /// Up and Down move the selection, Space flips the selected assistant's
    /// mark, Enter ends the journey with the marked assistants (when any).
    pub fn handle_key_event(key: KeyEvent, state: &mut RemoveAssistantJourneyState) -> (r:
        JourneyOutcome<Vec<StoredAssistant>>)
        requires
            old(state).rows_match(),
        ensures
            final(state).rows_match(),
            final(state).assistants@ == old(state).assistants@,
            final(state).wrapper_state.input_state == old(state).wrapper_state.input_state,
            final(state).wrapper_state.child_state.selection() == match key.code {
                KeyCode::Up => previous_selection(
                    old(state).wrapper_state.child_state.selection(),
                    old(state).wrapper_state.child_state.items@.len(),
                ),
                KeyCode::Down => next_selection(
                    old(state).wrapper_state.child_state.selection(),
                    old(state).wrapper_state.child_state.items@.len(),
                ),
                _ => old(state).wrapper_state.child_state.selection(),
            },
            final(state).marked@ == marks_after_key(
                old(state).marked@,
                old(state).wrapper_state.child_state.selection(),
                key,
            ),
            match r {
                JourneyOutcome::Completed(list) => key.code == KeyCode::Enter && list@.len() > 0
                    && list@ == marked_assistants(old(state).assistants@, old(state).marked@),
                JourneyOutcome::Continue => key.code != KeyCode::Enter || marked_assistants(
                    old(state).assistants@,
                    old(state).marked@,
                ).len() == 0,
            },
    {
        match key.code {
            KeyCode::Up => state.wrapper_state.child_state.previous(),
            KeyCode::Down => state.wrapper_state.child_state.next(),
            KeyCode::Char(' ') => {
                if let Some(i) = selected_index(&state.wrapper_state.child_state) {
                    if i < state.marked.len() {
                        let flipped = !state.marked[i];
                        state.marked.set(i, flipped);
                        let items = state.items();
                        state.wrapper_state.child_state.items = items;
                    }
                }
            },
            KeyCode::Enter => {
                let to_remove = Self::marked_list(state);
                if to_remove.len() != 0 {
                    return JourneyOutcome::Completed(to_remove);
                }
            },
            _ => {},
        }
        JourneyOutcome::Continue
    }

    /// The marked assistants, in list order.
    fn marked_list(state: &RemoveAssistantJourneyState) -> (r: Vec<StoredAssistant>)
        ensures
            r@ == marked_assistants(state.assistants@, state.marked@),
    {
        let n = if state.assistants.len() <= state.marked.len() {
            state.assistants.len()
        } else {
            state.marked.len()
        };
        let mut out: Vec<StoredAssistant> = Vec::new();
        let mut i: usize = 0;
        while i < n
            invariant
                n == listed_count(state.assistants@, state.marked@),
                n <= state.assistants@.len(),
                n <= state.marked@.len(),
                i <= n,
                out@ == marked_among(state.assistants@, state.marked@, i as int),
            decreases n - i,
        {
            if state.marked[i] {
                out.push(state.assistants[i].clone());
            }
            assert(out@ =~= marked_among(state.assistants@, state.marked@, i + 1));
            i = i + 1;
        }
        out
    }
}

} // verus!
