//! Assistants: a name, a model and a system prompt, saved as configuration
//! files.

use vstd::prelude::*;

verus! {

pub struct AssistantConfig {
    pub name: String,
    pub model: String,
    pub system_prompt_path: String,
    pub use_rag: bool,
}

impl Clone for AssistantConfig {
    fn clone(&self) -> (r: Self)
        ensures
            r == *self,
    {
        AssistantConfig {
            name: self.name.clone(),
            model: self.model.clone(),
            system_prompt_path: self.system_prompt_path.clone(),
            use_rag: self.use_rag,
        }
    }
}

/// An assistant configuration together with the file it was read from.
pub struct StoredAssistant {
    pub path: String,
    pub config: AssistantConfig,
}

impl Clone for StoredAssistant {
    fn clone(&self) -> (r: Self)
        ensures
            r == *self,
    {
        StoredAssistant { path: self.path.clone(), config: self.config.clone() }
    }
}

/// The assistant the chat talks to, with its system prompt read from disk.
pub struct ActiveAssistant {
    pub path: String,
    pub config: AssistantConfig,
    pub system_prompt: String,
}

} // verus!
