//! The chat history.

use crate::shared::clock::{local_time_now, ClockTime};
use crate::widgets::message_list::{ChatMessage, ChatRole};
use vstd::prelude::*;
use vstd::string::StringExecFns;

verus! {

/// The message the history starts with.
pub const WELCOME_MESSAGE: &'static str = "Welcome to ollama-harness! Chat with your local Ollama models right from the terminal.

Type / to see available commands:
  /list-models       List all available models
  /create-assistant  Create a new assistant
  /select-assistant  Select an assistant to chat with
  /remove-assistant  Remove one or more assistants

Type @ to reference a file.";

pub struct MessagesStorage {
    pub entries: Vec<ChatMessage>,
}

impl MessagesStorage {
    /// Appends a message stamped with the current local time.
    pub fn append_message(&mut self, role: ChatRole, content: String)
        ensures
            final(self).entries@.len() == old(self).entries@.len() + 1,
            final(self).entries@.subrange(0, old(self).entries@.len() as int)
                == old(self).entries@,
            final(self).entries@.last().role == role,
            final(self).entries@.last().content == content,
            final(self).entries@.last().timestamp.wf(),
    {
        self.entries.push(ChatMessage { role, content, timestamp: local_time_now() });
        assert(self.entries@.subrange(0, old(self).entries@.len() as int) =~= old(self).entries@);
    }
}

impl Default for MessagesStorage {
    /// A history holding only the welcome message, from the application.
    fn default() -> (r: Self)
        ensures
            r.entries@.len() == 1,
            r.entries@[0].role == ChatRole::App,
            r.entries@[0].content@ == WELCOME_MESSAGE@,
            r.entries@[0].timestamp.wf(),
    {
        let message = ChatMessage {
            content: String::from_str(WELCOME_MESSAGE),
            timestamp: local_time_now(),
            role: ChatRole::App,
        };
        Self { entries: vec![message] }
    }
}

} // verus!
