//! The frame shared by the multi-step command journeys.

use crate::shared::text_input_state::TextInputState;
use vstd::prelude::*;

verus! {

/// Whether a journey goes on after a key press, or ends with its result.
pub enum JourneyOutcome<T> {
    Continue,
    Completed(T),
}

/// A journey's own state beside the input it shows under its frame.
pub struct GenericJourneyWidgetState<ChildState> {
    pub input_state: TextInputState,
    pub child_state: ChildState,
}

} // verus!
