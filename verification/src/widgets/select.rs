//! A list with one highlighted item, moved with Up and Down.

use ratatui::widgets::ListState;
use vstd::prelude::*;

verus! {

#[verifier::external_type_specification]
#[verifier::external_body]
pub struct ExListState(ratatui::widgets::ListState);

/// The item index a `ratatui::widgets::ListState` holds as selected.
pub uninterp spec fn list_selection(state: ListState) -> Option<usize>;

/// Wraps `ListState::default`; the derived default holds no selection.
#[verifier::external_body]
fn list_state_default() -> (r: ListState)
    ensures
        list_selection(r) is None,
{
    ListState::default()
}

/// Wraps `ListState::select`, which stores `index` as the selection.
#[verifier::external_body]
fn list_state_select(state: &mut ListState, index: Option<usize>)
    ensures
        list_selection(*final(state)) == index,
{
    state.select(index)
}

/// Wraps `ListState::selected`, which returns the stored selection.
#[verifier::external_body]
fn list_state_selected(state: &ListState) -> (r: Option<usize>)
    ensures
        r == list_selection(*state),
{
    state.selected()
}

/// The selection after Down: the next item, wrapping to the first.
pub open spec fn next_selection(selected: Option<usize>, len: nat) -> Option<usize> {
    if len == 0 {
        selected
    } else {
        match selected {
            Some(i) => if i >= len - 1 {
                Some(0usize)
            } else {
                Some((i + 1) as usize)
            },
            None => Some(0usize),
        }
    }
}

/// The selection after Up: the previous item, wrapping to the last.
pub open spec fn previous_selection(selected: Option<usize>, len: nat) -> Option<usize> {
    if len == 0 {
        selected
    } else {
        match selected {
            Some(i) => if i == 0 {
                Some((len - 1) as usize)
            } else {
                Some((i - 1) as usize)
            },
            None => Some(0usize),
        }
    }
}

pub struct SelectState {
    pub list_state: ListState,
    pub items: Vec<String>,
}

impl SelectState {
    /// The selected index.
    pub open spec fn selection(&self) -> Option<usize> {
        list_selection(self.list_state)
    }

    /// A list of `items` with the first one selected (none when empty).
    pub fn new(items: Vec<String>) -> (r: Self)
        ensures
            r.items@ == items@,
            r.selection() == if items@.len() == 0 {
                None
            } else {
                Some(0usize)
            },
    {
        let mut list_state = list_state_default();
        if items.len() != 0 {
            list_state_select(&mut list_state, Some(0));
        }
        Self { items, list_state }
    }

    pub fn next(&mut self)
        ensures
            final(self).items@ == old(self).items@,
            final(self).selection() == next_selection(
                old(self).selection(),
                old(self).items@.len(),
            ),
    {
        if self.items.len() == 0 {
            return;
        }
        let i = match list_state_selected(&self.list_state) {
            Some(i) => {
                if i >= self.items.len() - 1 {
                    0
                } else {
                    i + 1
                }
            },
            None => 0,
        };
        list_state_select(&mut self.list_state, Some(i));
    }

    pub fn previous(&mut self)
        ensures
            final(self).items@ == old(self).items@,
            final(self).selection() == previous_selection(
                old(self).selection(),
                old(self).items@.len(),
            ),
    {
        if self.items.len() == 0 {
            return;
        }
        let i = match list_state_selected(&self.list_state) {
            Some(i) => {
                if i == 0 {
                    self.items.len() - 1
                } else {
                    i - 1
                }
            },
            None => 0,
        };
        list_state_select(&mut self.list_state, Some(i));
    }

    /// The selected item, if the selection names one.
    pub fn selected_item(&self) -> (r: Option<String>)
        ensures
            match self.selection() {
                Some(i) => if i < self.items@.len() {
                    r == Some(self.items@[i as int])
                } else {
                    r is None
                },
                None => r is None,
            },
    {
        match list_state_selected(&self.list_state) {
            Some(i) => {
                if i < self.items.len() {
                    Some(self.items[i].clone())
                } else {
                    None
                }
            },
            None => None,
        }
    }
}

/// The selected index of `state`.
pub fn selected_index(state: &SelectState) -> (r: Option<usize>)
    ensures
        r == state.selection(),
{
    list_state_selected(&state.list_state)
}

pub struct SelectWidget;

} // verus!
