//! The select-assistant journey: pick the assistant to chat with.

use crate::shared::assistant_config::StoredAssistant;
use crate::shared::key::{KeyCode, KeyEvent};
use crate::shared::text::{chars_of, extend_chars, string_of};
use crate::shared::text_input_state::TextInputState;
use crate::widgets::generic_journey::{GenericJourneyWidgetState, JourneyOutcome};
use crate::widgets::select::{next_selection, previous_selection, SelectState};
use vstd::prelude::*;

verus! {

/// How an assistant is listed: `name (model)`.
pub open spec fn assistant_label(a: StoredAssistant) -> Seq<char> {
    a.config.name@ + seq![' ', '('] + a.config.model@ + seq![')']
}

/// `name (model)` for an assistant.
pub fn assistant_label_exec(a: &StoredAssistant) -> (r: String)
    ensures
        r@ == assistant_label(*a),
{
    let mut v = chars_of(a.config.name.as_str());
    let open: Vec<char> = vec![' ', '('];
    extend_chars(&mut v, &open);
    extend_chars(&mut v, &chars_of(a.config.model.as_str()));
    v.push(')');
    assert(v@ =~= assistant_label(*a));
    string_of(&v)
}

pub struct SelectAssistantJourneyState {
    pub wrapper_state: GenericJourneyWidgetState<SelectState>,
    pub assistants: Vec<StoredAssistant>,
}

impl SelectAssistantJourneyState {
    /// The index of the selected assistant, when the selection names one.
    pub open spec fn picked(&self) -> Option<usize> {
        match self.wrapper_state.child_state.selection() {
            Some(i) => if i < self.assistants@.len() {
                Some(i)
            } else {
                None
            },
            None => None,
        }
    }

    /// A journey listing `assistants`, the first one selected.
    pub fn new(input_state: TextInputState, assistants: Vec<StoredAssistant>) -> (r: Self)
        ensures
            r.wrapper_state.input_state == input_state,
            r.assistants@ == assistants@,
            r.wrapper_state.child_state.items@.len() == assistants@.len(),
            forall|i: int|
                0 <= i < assistants@.len() ==> #[trigger] r.wrapper_state.child_state.items@[i]@
                    == assistant_label(assistants@[i]),
            r.wrapper_state.child_state.selection() == if assistants@.len() == 0 {
                None
            } else {
                Some(0usize)
            },
    {
        let mut items: Vec<String> = Vec::new();
        let mut i: usize = 0;
        while i < assistants.len()
            invariant
                i <= assistants@.len(),
                items@.len() == i,
                forall|k: int| 0 <= k < i ==> #[trigger] items@[k]@ == assistant_label(assistants@[k]),
            decreases assistants@.len() - i,
        {
            items.push(assistant_label_exec(&assistants[i]));
            i = i + 1;
        }
        Self {
            wrapper_state: GenericJourneyWidgetState {
                input_state,
                child_state: SelectState::new(items),
            },
            assistants,
        }
    }
}

pub struct SelectAssistantJourneyWidget;

impl SelectAssistantJourneyWidget {
    /// Up and Down move the selection; Enter picks the selected assistant.
    pub fn handle_key_event(key: KeyEvent, state: &mut SelectAssistantJourneyState) -> (r:
        JourneyOutcome<StoredAssistant>)
        ensures
            final(state).assistants@ == old(state).assistants@,
            final(state).wrapper_state.input_state == old(state).wrapper_state.input_state,
            final(state).wrapper_state.child_state.items@
                == old(state).wrapper_state.child_state.items@,
            final(state).wrapper_state.child_state.selection() == match key.code {
                KeyCode::Up => previous_selection(
                    old(state).wrapper_state.child_state.selection(),
                    old(state).wrapper_state.child_state.items@.len(),
                ),
                KeyCode::Down => next_selection(
                    old(state).wrapper_state.child_state.selection(),
                    old(state).wrapper_state.child_state.items@.len(),
                ),
                _ => old(state).wrapper_state.child_state.selection(),
            },
            match (key.code, old(state).picked()) {
                (KeyCode::Enter, Some(i)) => r matches JourneyOutcome::Completed(a) && a == old(
                    state,
                ).assistants@[i as int],
                _ => r is Continue,
            },
    {
        let select_state = &mut state.wrapper_state.child_state;
        match key.code {
            KeyCode::Up => select_state.previous(),
            KeyCode::Down => select_state.next(),
            KeyCode::Enter => {
                if let Some(i) = crate::widgets::select::selected_index(select_state) {
                    if i < state.assistants.len() {
                        return JourneyOutcome::Completed(state.assistants[i].clone());
                    }
                }
            },
            _ => {},
        }
        JourneyOutcome::Continue
    }
}


} // verus!
