//! Core of a terminal chat client for local Ollama models: the text input
//! editor with its command and file-path autocomplete, the chat history and its
//! scrolling, the assistant-creation, -selection and -removal journeys, and the
//! session state machine that ties them together. Terminal drawing, disk and
//! network access live in the binary that drives this library.

pub mod services;
pub mod session;
pub mod shared;
pub mod widgets;
pub mod laws;
