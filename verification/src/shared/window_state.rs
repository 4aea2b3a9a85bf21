//! Which screen the application shows.

use crate::shared::command::Command;
use vstd::prelude::*;

verus! {

#[derive(Debug, Clone, Copy, PartialEq, Eq)]
pub enum WindowState {
    /// The chat.
    Default,
    /// The journey of a command.
    CommandFlow(Command),
}

} // verus!
