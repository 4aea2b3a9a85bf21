//! What a key press in the input asks the application to do.

use crate::shared::command::Command;
use vstd::prelude::*;

verus! {

#[derive(Debug, PartialEq, Eq)]
pub enum InputAction {
    /// Nothing for the application to do.
    NoAction,
    Submit(SubmitData),
    ExitEditingMode,
}

#[derive(Debug, PartialEq, Eq)]
pub enum SubmitData {
    Text(String),
    Command(Command),
}

} // verus!
