//! The slash commands the chat input understands.

use vstd::prelude::*;

verus! {

#[derive(Debug, PartialEq, Eq, Clone, Copy)]
pub struct CommandMetadata {
    pub name: &'static str,
    pub description: &'static str,
}

#[derive(Debug, PartialEq, Eq, Clone, Copy)]
pub enum Command {
    ListModels(CommandMetadata),
    CreateAssistant(CommandMetadata),
    SelectAssistant(CommandMetadata),
    RemoveAssistant(CommandMetadata),
}

impl Command {
    /// The name and description a command carries.
    pub open spec fn meta(self) -> CommandMetadata {
        match self {
            Command::ListModels(meta) => meta,
            Command::CreateAssistant(meta) => meta,
            Command::SelectAssistant(meta) => meta,
            Command::RemoveAssistant(meta) => meta,
        }
    }

    pub fn metadata(&self) -> (r: &CommandMetadata)
        ensures
            *r == self.meta(),
    {
        match self {
            Command::ListModels(meta) => meta,
            Command::CreateAssistant(meta) => meta,
            Command::SelectAssistant(meta) => meta,
            Command::RemoveAssistant(meta) => meta,
        }
    }
}

/// Every command, in the order the autocomplete lists them.
pub open spec fn command_list() -> Seq<Command> {
    seq![
        Command::ListModels(
            CommandMetadata { name: "list-models", description: "List all available models" },
        ),
        Command::CreateAssistant(
            CommandMetadata { name: "create-assistant", description: "Create a new assistant" },
        ),
        Command::SelectAssistant(
            CommandMetadata {
                name: "select-assistant",
                description: "Select an assistant to chat with",
            },
        ),
        Command::RemoveAssistant(
            CommandMetadata {
                name: "remove-assistant",
                description: "Remove one or more assistants",
            },
        ),
    ]
}

/// Every command, in the order the autocomplete lists them.
pub fn commands() -> (r: Vec<Command>)
    ensures
        r@ == command_list(),
{
    let v = vec![
        Command::ListModels(
            CommandMetadata { name: "list-models", description: "List all available models" },
        ),
        Command::CreateAssistant(
            CommandMetadata { name: "create-assistant", description: "Create a new assistant" },
        ),
        Command::SelectAssistant(
            CommandMetadata {
                name: "select-assistant",
                description: "Select an assistant to chat with",
            },
        ),
        Command::RemoveAssistant(
            CommandMetadata {
                name: "remove-assistant",
                description: "Remove one or more assistants",
            },
        ),
    ];
    assert(v@ =~= command_list());
    v
}

} // verus!
