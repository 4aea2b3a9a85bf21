//! The chat session: which screen is shown, the history, the input, the
//! journeys and the active assistant, and how key presses and the results of
//! the application's disk and network work move it along.
//!
//! A key press may ask the application for work it alone can do (an
//! [`Effect`]); the application does it and hands the outcome back through the
//! matching `on_*` method.

use crate::services::chat::{build_request, cleaned_reply, model_turns, outgoing_view, strip_think_blocks, ChatRequest, OutgoingRole};
use crate::shared::assistant_config::{ActiveAssistant, AssistantConfig, StoredAssistant};
use crate::shared::chat_action::{InputAction, SubmitData};
use crate::services::file_explorer::{paths_equal, same_path};
use crate::shared::command::Command;
use crate::shared::key::{KeyCode, KeyEvent};
use crate::shared::messages_storage::{MessagesStorage, WELCOME_MESSAGE};
use crate::shared::text::{trim, trim_spec};
use crate::shared::text_input_state::{submit_data_matches, InputMode, TextInputState};
use crate::shared::window_state::WindowState;
use crate::widgets::create_assistant_form::CreateAssistantFormStep;
use crate::widgets::create_assistant_journey::{
    model_step_done, text_step_done, CreateAssistantJourneyState, CreateAssistantJourneyWidget,
};
use crate::widgets::generic_journey::JourneyOutcome;
use crate::widgets::input::{key_supported, text_key_applied, TextInput};
use crate::widgets::message_list::{ChatMessage, ChatRole, MessageListState};
use crate::widgets::remove_assistant_journey::{
    marked_assistants, marks_after_key, RemoveAssistantJourneyState, RemoveAssistantJourneyWidget,
};
use crate::widgets::select::{next_selection, previous_selection};
use crate::widgets::select_assistant_journey::{
    SelectAssistantJourneyState, SelectAssistantJourneyWidget,
};
use vstd::prelude::*;
use vstd::string::StringExecFns;

verus! {

/// The notice shown while the model is answering.
pub open spec fn thinking_placeholder() -> Seq<char> {
    "Thinking…"@
}

/// Work only the application can do, asked for by a key press.
pub enum Effect {
    NoEffect,
    /// Leave the application.
    Quit,
    /// List the local models, then call `on_models_listed`.
    ListModels,
    /// Read the saved assistants for the journey of this command, then call
    /// `on_assistants_loaded`.
    LoadAssistants(Command),
    /// Save this assistant, then call `on_assistant_saved`.
    SaveAssistant(AssistantConfig),
    /// Read this assistant's system prompt, then call
    /// `on_system_prompt_loaded`.
    LoadSystemPrompt(StoredAssistant),
    /// Remove these assistants' files, then call `on_assistants_removed`.
    RemoveAssistants(Vec<StoredAssistant>),
}

/// `new` is `old` with messages of the given roles and texts appended.
pub open spec fn history_extended(
    old: Seq<ChatMessage>,
    new: Seq<ChatMessage>,
    added: Seq<(ChatRole, Seq<char>)>,
) -> bool {
    &&& new.len() == old.len() + added.len()
    &&& new.subrange(0, old.len() as int) == old
    &&& forall|k: int|
        0 <= k < added.len() ==> (#[trigger] new[old.len() + k]).role == added[k].0
            && new[old.len() + k].content@ == added[k].1
}

/// Every message carries a time of day.
pub open spec fn timestamps_wf(messages: Seq<ChatMessage>) -> bool {
    forall|i: int| 0 <= i < messages.len() ==> #[trigger] messages[i].timestamp.wf()
}

/// The text listing the local models.
pub open spec fn models_listing(names: Seq<Seq<char>>) -> Seq<char> {
    "Available models:\n\n"@ + joined_model_lines(names)
}

/// `> name;` for each model, one per line.
pub open spec fn joined_model_lines(names: Seq<Seq<char>>) -> Seq<char>
    decreases names.len(),
{
    if names.len() == 0 {
        Seq::empty()
    } else if names.len() == 1 {
        "> "@ + names[0] + ";"@
    } else {
        joined_model_lines(names.drop_last()) + "\n"@ + "> "@ + names.last() + ";"@
    }
}

/// The notices for configuration files that could not be read.
pub open spec fn skipped_notices(errors: Seq<String>) -> Seq<(ChatRole, Seq<char>)> {
    errors.map_values(|e: String| (ChatRole::App, "Skipped broken config "@ + e@))
}

/// The notices for removed assistants, in order.
pub open spec fn removal_notices(results: Seq<(StoredAssistant, Result<(), String>)>) -> Seq<
    (ChatRole, Seq<char>),
> {
    results.map_values(
        |e: (StoredAssistant, Result<(), String>)|
            (
                ChatRole::App,
                match e.1 {
                    Ok(_) => "Assistant \""@ + e.0.config.name@ + "\" removed ("@ + e.0.path@
                        + ")"@,
                    Err(err) => "Failed to remove assistant \""@ + e.0.config.name@ + "\": "@
                        + err@,
                },
            ),
    )
}

/// Whether the assistant at `path` was removed by one of `results` (the
/// paths compared as paths, see `same_path`).
pub open spec fn removed_path(results: Seq<(StoredAssistant, Result<(), String>)>, path: Seq<char>) -> bool {
    exists|i: int| 0 <= i < results.len() && results[i].1 is Ok && #[trigger] same_path(path, results[i].0.path@)
}

pub struct App {
    pub window_state: WindowState,
    pub messages: MessagesStorage,
    pub message_list_state: MessageListState,
    pub input_state: TextInputState,
    pub assistant_journey_state: Option<CreateAssistantJourneyState>,
    pub select_assistant_state: Option<SelectAssistantJourneyState>,
    pub remove_assistant_state: Option<RemoveAssistantJourneyState>,
    pub active_assistant: Option<ActiveAssistant>,
    pub pending_reply: bool,
    pub models: Vec<String>,
}

impl App {
    /// The session's invariant: messages carry valid times, and the remove
    /// journey's rows show its assistants.
    pub open spec fn wf(&self) -> bool {
        &&& timestamps_wf(self.messages.entries@)
        &&& self.remove_assistant_state matches Some(s) ==> s.rows_match()
    }

    /// The key presses the session can take in its current state: those the
    /// focused input or journey can take, and a scroll that stays within
    /// `usize`.
    pub open spec fn key_ok(&self, key: KeyEvent) -> bool {
        match self.window_state {
            WindowState::Default => match self.input_state.input_mode {
                InputMode::Normal => key.code == KeyCode::Down && self.message_list_state.room_for_scroll()
                    ==> self.message_list_state.scroll_offset
                    + self.message_list_state.container_height <= usize::MAX,
                InputMode::Editing => key.press ==> key_supported(self.input_state, key),
            },
            WindowState::CommandFlow(Command::CreateAssistant(_)) => match self.assistant_journey_state {
                Some(j) => key.code != KeyCode::Esc && j.wrapper_state.child_state.step
                    != CreateAssistantFormStep::Model ==> key_supported(
                    j.wrapper_state.child_state.input_state,
                    key,
                ),
                None => true,
            },
            _ => true,
        }
    }

    /// The journeys, the active assistant, the pending reply and the models of
    /// `after` are those of `before`.
    pub open spec fn rest_kept(before: Self, after: Self) -> bool {
        &&& after.assistant_journey_state == before.assistant_journey_state
        &&& after.select_assistant_state == before.select_assistant_state
        &&& after.remove_assistant_state == before.remove_assistant_state
        &&& after.active_assistant == before.active_assistant
        &&& after.pending_reply == before.pending_reply
        &&& after.models@ == before.models@
    }

    /// The fields other than the window and the journeys are as in `other`.
    pub open spec fn same_chat(&self, other: &Self) -> bool {
        &&& self.messages.entries@ == other.messages.entries@
        &&& self.message_list_state == other.message_list_state
        &&& self.input_state == other.input_state
        &&& self.active_assistant == other.active_assistant
        &&& self.pending_reply == other.pending_reply
        &&& self.models@ == other.models@
    }

    /// A new session: the chat screen with the welcome message, in normal
    /// mode, no assistant.
    pub fn new() -> (r: Self)
        ensures
            r.wf(),
            r.window_state == WindowState::Default,
            r.messages.entries@.len() == 1,
            r.messages.entries@[0].role == ChatRole::App,
            r.messages.entries@[0].content@ == WELCOME_MESSAGE@,
            r.message_list_state.scroll_offset == 0,
            r.input_state.input@ == Seq::<char>::empty(),
            r.input_state.input_mode == InputMode::Normal,
            r.assistant_journey_state is None,
            r.select_assistant_state is None,
            r.remove_assistant_state is None,
            r.active_assistant is None,
            !r.pending_reply,
            r.models@.len() == 0,
    {
        let messages = MessagesStorage::default();
        Self {
            window_state: WindowState::Default,
            messages,
            message_list_state: MessageListState::new(),
            input_state: TextInputState::new(),
            assistant_journey_state: None,
            select_assistant_state: None,
            remove_assistant_state: None,
            active_assistant: None,
            pending_reply: false,
            models: Vec::new(),
        }
    }

    /// Back to the chat screen, dropping every journey.
    pub fn close_command_flow(&mut self)
        requires
            old(self).wf(),
        ensures
            final(self).wf(),
            final(self).window_state == WindowState::Default,
            final(self).assistant_journey_state is None,
            final(self).select_assistant_state is None,
            final(self).remove_assistant_state is None,
            final(self).same_chat(old(self)),
    {
        self.window_state = WindowState::Default;
        self.assistant_journey_state = None;
        self.select_assistant_state = None;
        self.remove_assistant_state = None;
    }

    /// Appends a message; the invariant holds on.
    fn push_message(&mut self, role: ChatRole, content: String)
        requires
            old(self).wf(),
        ensures
            final(self).wf(),
            history_extended(
                old(self).messages.entries@,
                final(self).messages.entries@,
                seq![(role, content@)],
            ),
            final(self).window_state == old(self).window_state,
            final(self).message_list_state == old(self).message_list_state,
            final(self).input_state == old(self).input_state,
            final(self).assistant_journey_state == old(self).assistant_journey_state,
            final(self).select_assistant_state == old(self).select_assistant_state,
            final(self).remove_assistant_state == old(self).remove_assistant_state,
            final(self).active_assistant == old(self).active_assistant,
            final(self).pending_reply == old(self).pending_reply,
            final(self).models@ == old(self).models@,
    {
        let ghost before = self.messages.entries@;
        self.messages.append_message(role, content);
        assert(self.messages.entries@[before.len() + 0int] == self.messages.entries@.last());
        assert forall|i: int| 0 <= i < self.messages.entries@.len() implies #[trigger] self.messages.entries@[i].timestamp.wf() by {
            if i < before.len() {
                assert(self.messages.entries@[i] == self.messages.entries@.subrange(0, before.len() as int)[i]);
            }
        }
    }

    /// Opens the create-assistant journey's state on first use, from a copy of
    /// the chat input and the known models.
    pub fn ensure_create_journey(&mut self)
        requires
            old(self).wf(),
        ensures
            final(self).wf(),
            final(self).assistant_journey_state is Some,
            old(self).assistant_journey_state is Some ==> final(self).assistant_journey_state
                == old(self).assistant_journey_state,
            old(self).assistant_journey_state is None ==> ({
                let j = final(self).assistant_journey_state->0;
                let f = j.wrapper_state.child_state;
                &&& f.step == CreateAssistantFormStep::Name
                &&& f.select_state.items@ == old(self).models@
                &&& f.select_state.selection() == if old(self).models@.len() == 0 {
                    None
                } else {
                    Some(0usize)
                }
                &&& j.wrapper_state.input_state.same_as(&old(self).input_state)
                &&& f.input_state.same_as(&old(self).input_state)
                &&& f.name@ == Seq::<char>::empty() && f.model@ == Seq::<char>::empty()
                &&& f.system_prompt_path@ == Seq::<char>::empty() && !f.use_rag
                &&& f.history@.len() == 0 && f.error is None
            }),
            final(self).window_state == old(self).window_state,
            final(self).select_assistant_state == old(self).select_assistant_state,
            final(self).remove_assistant_state == old(self).remove_assistant_state,
            final(self).same_chat(old(self)),
    {
        if self.assistant_journey_state.is_none() {
            let models = self.models.clone();
            assert(models@ =~= self.models@);
            self.assistant_journey_state = Some(
                CreateAssistantJourneyState::new(self.input_state.clone(), models),
            );
        }
    }

    /// Applies a key press; returns the work the application must do next.
    pub fn handle_key(&mut self, key: KeyEvent) -> (r: Effect)
        requires
            old(self).wf(),
            old(self).key_ok(key),
        ensures
            final(self).wf(),
            old(self).window_state == WindowState::Default && old(self).input_state.input_mode
                == InputMode::Normal ==> {
                &&& (r is Quit) == (key.code == KeyCode::Char('q'))
                &&& !(r is Quit) ==> r is NoEffect
                &&& final(self).input_state.input_mode == if key.code == KeyCode::Char('e') {
                    InputMode::Editing
                } else {
                    InputMode::Normal
                }
                &&& final(self).message_list_state.scroll_offset == match key.code {
                    KeyCode::Up => if old(self).message_list_state.room_for_scroll()
                        && old(self).message_list_state.scroll_offset > 0 {
                        (old(self).message_list_state.scroll_offset - 1) as usize
                    } else {
                        old(self).message_list_state.scroll_offset
                    },
                    KeyCode::Down => if old(self).message_list_state.room_for_scroll()
                        && old(self).message_list_state.scroll_offset
                        + old(self).message_list_state.container_height
                        < old(self).message_list_state.text_height {
                        (old(self).message_list_state.scroll_offset + 1) as usize
                    } else {
                        old(self).message_list_state.scroll_offset
                    },
                    _ => old(self).message_list_state.scroll_offset,
                }
                &&& final(self).window_state == old(self).window_state
                &&& Self::rest_kept(*old(self), *final(self))
                &&& final(self).messages.entries@ == old(self).messages.entries@
                &&& final(self).input_state == (TextInputState {
                    input_mode: final(self).input_state.input_mode,
                    ..old(self).input_state
                })
                &&& final(self).message_list_state.text_height
                    == old(self).message_list_state.text_height
                &&& final(self).message_list_state.container_height
                    == old(self).message_list_state.container_height
            },
            old(self).window_state == WindowState::Default && old(self).input_state.input_mode
                == InputMode::Editing && !key.press ==> {
                &&& r is NoEffect
                &&& final(self).input_state == old(self).input_state
                &&& final(self).messages.entries@ == old(self).messages.entries@
                &&& final(self).window_state == old(self).window_state
                &&& Self::rest_kept(*old(self), *final(self))
                &&& final(self).message_list_state == old(self).message_list_state
            },
            old(self).window_state == WindowState::Default && old(self).input_state.input_mode
                == InputMode::Editing && key.press && key.code != KeyCode::Enter ==> {
                &&& r is NoEffect
                &&& text_key_applied(
                    old(self).input_state,
                    key,
                    TextInputState { input_mode: old(self).input_state.input_mode, ..final(self).input_state },
                )
                &&& final(self).input_state.input_mode == if key.code == KeyCode::Esc {
                    InputMode::Normal
                } else {
                    InputMode::Editing
                }
                &&& final(self).messages.entries@ == old(self).messages.entries@
                &&& final(self).window_state == old(self).window_state
                &&& Self::rest_kept(*old(self), *final(self))
                &&& final(self).message_list_state == old(self).message_list_state
            },
            old(self).window_state == WindowState::Default && old(self).input_state.input_mode
                == InputMode::Editing && key.press && key.code == KeyCode::Enter ==> {
                &&& text_key_applied(old(self).input_state, key, final(self).input_state)
                &&& exists|data: SubmitData|
                    #![trigger submit_data_matches(old(self).input_state.input@, data)]
                    submit_data_matches(old(self).input_state.input@, data)
                        && Self::submitted(*old(self), data, *final(self), r)
            },
            old(self).window_state is CommandFlow ==> {
                &&& final(self).messages.entries@ == old(self).messages.entries@
                &&& final(self).input_state == old(self).input_state
                &&& final(self).active_assistant == old(self).active_assistant
                &&& final(self).message_list_state == old(self).message_list_state
                &&& final(self).pending_reply == old(self).pending_reply
                &&& final(self).models@ == old(self).models@
                &&& key.code == KeyCode::Esc ==> {
                    &&& r is NoEffect
                    &&& final(self).window_state == WindowState::Default
                    &&& final(self).assistant_journey_state is None
                    &&& final(self).select_assistant_state is None
                    &&& final(self).remove_assistant_state is None
                }
                &&& key.code != KeyCode::Esc ==> final(self).window_state == old(self).window_state
                &&& key.code != KeyCode::Esc ==> Self::journey_key_handled(
                    *old(self),
                    key,
                    *final(self),
                    r,
                )
            },
    {
        match self.window_state {
            WindowState::Default => match self.input_state.input_mode {
                InputMode::Normal => match key.code {
                    KeyCode::Char('e') => {
                        self.input_state.input_mode = InputMode::Editing;
                    },
                    KeyCode::Char('q') => {
                        return Effect::Quit;
                    },
                    KeyCode::Up => {
                        self.message_list_state.scroll_up();
                    },
                    KeyCode::Down => {
                        self.message_list_state.scroll_down();
                    },
                    _ => {},
                },
                InputMode::Editing => {
                    if key.press {
                        let ghost before = *self;
                        let action = TextInput::handle_key_event(key, &mut self.input_state);
                        match action {
                            InputAction::Submit(data) => {
                                assert(submit_data_matches(before.input_state.input@, data));
                                let effect = self.on_submit(data);
                                return effect;
                            },
                            InputAction::ExitEditingMode => {
                                self.input_state.input_mode = InputMode::Normal;
                            },
                            InputAction::NoAction => {},
                        }
                    }
                },
            },
            WindowState::CommandFlow(_) => {
                return self.handle_command_flow_key(key);
            },
        }
        Effect::NoEffect
    }

    /// What submitting `data` does to the session `before`, giving `after`
    /// and the effect `r`.
    pub open spec fn submitted(before: Self, data: SubmitData, after: Self, r: Effect) -> bool {
        &&& after.message_list_state == before.message_list_state
        &&& after.active_assistant == before.active_assistant
        &&& after.models@ == before.models@
        &&& after.assistant_journey_state == before.assistant_journey_state
        &&& after.select_assistant_state == before.select_assistant_state
        &&& after.remove_assistant_state == before.remove_assistant_state
        &&& match data {
            SubmitData::Text(content) => {
                &&& r is NoEffect
                &&& after.window_state == before.window_state
                &&& if trim_spec(content@).len() == 0 {
                    after.messages.entries@ == before.messages.entries@ && after.pending_reply
                        == before.pending_reply
                } else if before.active_assistant is Some {
                    &&& history_extended(
                        before.messages.entries@,
                        after.messages.entries@,
                        seq![
                            (ChatRole::User, content@),
                            (ChatRole::App, thinking_placeholder()),
                        ],
                    )
                    &&& after.pending_reply
                } else {
                    &&& history_extended(
                        before.messages.entries@,
                        after.messages.entries@,
                        seq![
                            (ChatRole::User, content@),
                            (ChatRole::App, "Select an assistant with /select-assistant to chat."@),
                        ],
                    )
                    &&& after.pending_reply == before.pending_reply
                }
            },
            SubmitData::Command(command) => {
                &&& after.messages.entries@ == before.messages.entries@
                &&& after.pending_reply == before.pending_reply
                &&& match command {
                    Command::ListModels(_) => r is ListModels && after.window_state
                        == before.window_state,
                    Command::CreateAssistant(_) => r is NoEffect && after.window_state
                        == WindowState::CommandFlow(command),
                    _ => r == Effect::LoadAssistants(command) && after.window_state
                        == before.window_state,
                }
            },
        }
    }

    /// Submits the text or command of the input.
    fn on_submit(&mut self, data: SubmitData) -> (r: Effect)
        requires
            old(self).wf(),
        ensures
            final(self).wf(),
            final(self).input_state == old(self).input_state,
            Self::submitted(*old(self), data, *final(self), r),
    {
        match data {
            SubmitData::Text(content) => {
                if trim(content.as_str()).unicode_len() == 0 {
                    return Effect::NoEffect;
                }
                let ghost before = self.messages.entries@;
                let ghost content_view = content@;
                self.push_message(ChatRole::User, content);
                let ghost mid = self.messages.entries@;
                if self.active_assistant.is_some() {
                    self.push_message(ChatRole::App, String::from_str("Thinking…"));
                    self.pending_reply = true;
                    proof {
                        Self::lemma_two_appends(before, mid, self.messages.entries@, (ChatRole::User, content_view), (ChatRole::App, thinking_placeholder()));
                    }
                } else {
                    self.push_message(
                        ChatRole::App,
                        String::from_str("Select an assistant with /select-assistant to chat."),
                    );
                    proof {
                        Self::lemma_two_appends(before, mid, self.messages.entries@, (ChatRole::User, content_view), (ChatRole::App, "Select an assistant with /select-assistant to chat."@));
                    }
                }
                Effect::NoEffect
            },
            SubmitData::Command(command) => match command {
                Command::ListModels(_) => Effect::ListModels,
                Command::CreateAssistant(cmd) => {
                    self.window_state = WindowState::CommandFlow(Command::CreateAssistant(cmd));
                    Effect::NoEffect
                },
                _ => Effect::LoadAssistants(command),
            },
        }
    }

    /// Two single appends make one append of two messages.
    proof fn lemma_two_appends(
        a: Seq<ChatMessage>,
        b: Seq<ChatMessage>,
        c: Seq<ChatMessage>,
        x: (ChatRole, Seq<char>),
        y: (ChatRole, Seq<char>),
    )
        requires
            history_extended(a, b, seq![x]),
            history_extended(b, c, seq![y]),
        ensures
            history_extended(a, c, seq![x, y]),
    {
        assert(c.subrange(0, a.len() as int) =~= b.subrange(0, a.len() as int));
        assert(c[a.len() + 0int] == b[a.len() + 0int]) by {
            assert(c.subrange(0, b.len() as int)[a.len() as int] == b[a.len() as int]);
        }
        assert(c[b.len() + 0int] == c[a.len() + 1int]);
    }

    /// The selection of a list of `len` items after `key`: Up and Down move
    /// it, other keys keep it.
    pub open spec fn selection_after_key(selected: Option<usize>, len: nat, key: KeyEvent) -> Option<
        usize,
    > {
        match key.code {
            KeyCode::Up => previous_selection(selected, len),
            KeyCode::Down => next_selection(selected, len),
            _ => selected,
        }
    }

    /// What a key other than Esc does to the journey on screen in `before`,
    /// giving `after`, and the work `r` it asks for: the create journey asks to
    /// save the assistant it completes, the select journey to load the picked
    /// assistant's prompt, the remove journey to remove the marked assistants.
    pub open spec fn journey_key_handled(before: Self, key: KeyEvent, after: Self, r: Effect) -> bool {
        match before.window_state {
            WindowState::CommandFlow(Command::CreateAssistant(_)) => {
                &&& after.select_assistant_state == before.select_assistant_state
                &&& after.remove_assistant_state == before.remove_assistant_state
                &&& match before.assistant_journey_state {
                    None => r is NoEffect && after.assistant_journey_state is None,
                    Some(j0) => after.assistant_journey_state matches Some(j1) && {
                        let f0 = j0.wrapper_state.child_state;
                        let f1 = j1.wrapper_state.child_state;
                        &&& j1.wrapper_state.input_state.same_as(&f1.input_state)
                        &&& if f0.step == CreateAssistantFormStep::Model {
                            model_step_done(f0, key, f1) && r is NoEffect
                        } else {
                            match r {
                                Effect::SaveAssistant(config) => text_step_done(
                                    f0,
                                    key,
                                    f1,
                                    JourneyOutcome::Completed(config),
                                ),
                                Effect::NoEffect => text_step_done(
                                    f0,
                                    key,
                                    f1,
                                    JourneyOutcome::Continue,
                                ),
                                _ => false,
                            }
                        }
                    },
                }
            },
            WindowState::CommandFlow(Command::SelectAssistant(_)) => {
                &&& after.assistant_journey_state == before.assistant_journey_state
                &&& after.remove_assistant_state == before.remove_assistant_state
                &&& match before.select_assistant_state {
                    None => r is NoEffect && after.select_assistant_state is None,
                    Some(s0) => after.select_assistant_state matches Some(s1) && {
                        &&& s1.assistants@ == s0.assistants@
                        &&& s1.wrapper_state.input_state == s0.wrapper_state.input_state
                        &&& s1.wrapper_state.child_state.items@ == s0.wrapper_state.child_state.items@
                        &&& s1.wrapper_state.child_state.selection() == Self::selection_after_key(
                            s0.wrapper_state.child_state.selection(),
                            s0.wrapper_state.child_state.items@.len(),
                            key,
                        )
                        &&& match (key.code, s0.picked()) {
                            (KeyCode::Enter, Some(i)) => r == Effect::LoadSystemPrompt(
                                s0.assistants@[i as int],
                            ),
                            _ => r is NoEffect,
                        }
                    },
                }
            },
            WindowState::CommandFlow(Command::RemoveAssistant(_)) => {
                &&& after.assistant_journey_state == before.assistant_journey_state
                &&& after.select_assistant_state == before.select_assistant_state
                &&& match before.remove_assistant_state {
                    None => r is NoEffect && after.remove_assistant_state is None,
                    Some(s0) => after.remove_assistant_state matches Some(s1) && {
                        let marked = marked_assistants(s0.assistants@, s0.marked@);
                        &&& s1.assistants@ == s0.assistants@
                        &&& s1.wrapper_state.input_state == s0.wrapper_state.input_state
                        &&& s1.wrapper_state.child_state.selection() == Self::selection_after_key(
                            s0.wrapper_state.child_state.selection(),
                            s0.wrapper_state.child_state.items@.len(),
                            key,
                        )
                        &&& s1.marked@ == marks_after_key(
                            s0.marked@,
                            s0.wrapper_state.child_state.selection(),
                            key,
                        )
                        &&& if key.code == KeyCode::Enter && marked.len() > 0 {
                            r matches Effect::RemoveAssistants(list) && list@ == marked
                        } else {
                            r is NoEffect
                        }
                    },
                }
            },
            _ => {
                &&& r is NoEffect
                &&& after.assistant_journey_state == before.assistant_journey_state
                &&& after.select_assistant_state == before.select_assistant_state
                &&& after.remove_assistant_state == before.remove_assistant_state
            },
        }
    }

    /// A key press while a journey is shown: Esc closes it; otherwise the
    /// journey takes the key, and a finished journey asks for its work.
    fn handle_command_flow_key(&mut self, key: KeyEvent) -> (r: Effect)
        requires
            old(self).wf(),
            old(self).key_ok(key),
            old(self).window_state is CommandFlow,
        ensures
            final(self).wf(),
            final(self).messages.entries@ == old(self).messages.entries@,
            final(self).input_state == old(self).input_state,
            final(self).active_assistant == old(self).active_assistant,
            final(self).message_list_state == old(self).message_list_state,
            final(self).pending_reply == old(self).pending_reply,
            final(self).models@ == old(self).models@,
            key.code == KeyCode::Esc ==> {
                &&& r is NoEffect
                &&& final(self).window_state == WindowState::Default
                &&& final(self).assistant_journey_state is None
                &&& final(self).select_assistant_state is None
                &&& final(self).remove_assistant_state is None
            },
            key.code != KeyCode::Esc ==> final(self).window_state == old(self).window_state,
            key.code != KeyCode::Esc ==> Self::journey_key_handled(*old(self), key, *final(self), r),
    {
        if key.code == KeyCode::Esc {
            self.close_command_flow();
            return Effect::NoEffect;
        }
        match self.window_state {
            WindowState::CommandFlow(Command::CreateAssistant(_)) => {
                match &mut self.assistant_journey_state {
                    None => Effect::NoEffect,
                    Some(state) => match CreateAssistantJourneyWidget::handle_key_event(key, state) {
                        JourneyOutcome::Completed(config) => Effect::SaveAssistant(config),
                        JourneyOutcome::Continue => Effect::NoEffect,
                    },
                }
            },
            WindowState::CommandFlow(Command::SelectAssistant(_)) => {
                match &mut self.select_assistant_state {
                    None => Effect::NoEffect,
                    Some(state) => match SelectAssistantJourneyWidget::handle_key_event(key, state) {
                        JourneyOutcome::Completed(stored) => Effect::LoadSystemPrompt(stored),
                        JourneyOutcome::Continue => Effect::NoEffect,
                    },
                }
            },
            WindowState::CommandFlow(Command::RemoveAssistant(_)) => {
                match &mut self.remove_assistant_state {
                    None => Effect::NoEffect,
                    Some(state) => match RemoveAssistantJourneyWidget::handle_key_event(key, state) {
                        JourneyOutcome::Completed(list) => Effect::RemoveAssistants(list),
                        JourneyOutcome::Continue => Effect::NoEffect,
                    },
                }
            },
            _ => Effect::NoEffect,
        }
    }

    /// Takes the pending reply request: the request for the active assistant
    /// over the history, if a reply is pending and an assistant is active.
    pub fn take_pending_reply(&mut self) -> (r: Option<ChatRequest>)
        requires
            old(self).wf(),
        ensures
            final(self).wf(),
            !final(self).pending_reply,
            match r {
                Some(request) => {
                    &&& old(self).pending_reply
                    &&& old(self).active_assistant matches Some(a) && request.model@
                        == a.config.model@ && outgoing_view(request.messages@) == seq![
                        (OutgoingRole::System, a.system_prompt@),
                    ] + model_turns(old(self).messages.entries@)
                },
                None => !old(self).pending_reply || old(self).active_assistant is None,
            },
            final(self).window_state == old(self).window_state,
            final(self).messages.entries@ == old(self).messages.entries@,
            final(self).active_assistant == old(self).active_assistant,
            final(self).input_state == old(self).input_state,
            final(self).message_list_state == old(self).message_list_state,
            final(self).models@ == old(self).models@,
            final(self).assistant_journey_state == old(self).assistant_journey_state,
            final(self).select_assistant_state == old(self).select_assistant_state,
            final(self).remove_assistant_state == old(self).remove_assistant_state,
    {
        if !self.pending_reply {
            return None;
        }
        self.pending_reply = false;
        match &self.active_assistant {
            Some(assistant) => Some(build_request(assistant, self.messages.entries.as_slice())),
            None => None,
        }
    }

    /// Replaces the last message (the thinking notice) with the model's
    /// cleaned reply, or with the error.
    pub fn on_reply(&mut self, result: Result<String, String>)
        requires
            old(self).wf(),
        ensures
            final(self).wf(),
            ({
                let kept = if old(self).messages.entries@.len() > 0 {
                    old(self).messages.entries@.drop_last()
                } else {
                    old(self).messages.entries@
                };
                history_extended(
                    kept,
                    final(self).messages.entries@,
                    seq![
                        match result {
                            Ok(reply) => (ChatRole::Assistant, cleaned_reply(reply@)),
                            Err(e) => (ChatRole::App, "Error: "@ + e@),
                        },
                    ],
                )
            }),
            final(self).window_state == old(self).window_state,
            final(self).active_assistant == old(self).active_assistant,
            final(self).input_state == old(self).input_state,
            final(self).pending_reply == old(self).pending_reply,
            final(self).message_list_state == old(self).message_list_state,
            final(self).models@ == old(self).models@,
            final(self).assistant_journey_state == old(self).assistant_journey_state,
            final(self).select_assistant_state == old(self).select_assistant_state,
            final(self).remove_assistant_state == old(self).remove_assistant_state,
    {
        let ghost before = self.messages.entries@;
        self.messages.entries.pop();
        proof {
            if before.len() > 0 {
                assert(self.messages.entries@ =~= before.drop_last());
            }
            assert forall|i: int| 0 <= i < self.messages.entries@.len() implies #[trigger] self.messages.entries@[i].timestamp.wf() by {
                assert(self.messages.entries@[i] == before[i]);
            }
        }
        match result {
            Ok(reply) => self.push_message(ChatRole::Assistant, strip_think_blocks(reply.as_str())),
            Err(err) => self.push_message(ChatRole::App, String::from_str("Error: ").concat(err.as_str())),
        }
    }

    /// Shows the local models, or the error listing them.
    pub fn on_models_listed(&mut self, result: Result<Vec<String>, String>)
        requires
            old(self).wf(),
        ensures
            final(self).wf(),
            history_extended(
                old(self).messages.entries@,
                final(self).messages.entries@,
                seq![
                    (
                        ChatRole::App,
                        match result {
                            Ok(names) => models_listing(names@.map_values(|n: String| n@)),
                            Err(e) => e@,
                        },
                    ),
                ],
            ),
            final(self).window_state == old(self).window_state,
            final(self).active_assistant == old(self).active_assistant,
            final(self).input_state == old(self).input_state,
            final(self).message_list_state == old(self).message_list_state,
            final(self).pending_reply == old(self).pending_reply,
            final(self).models@ == old(self).models@,
            final(self).assistant_journey_state == old(self).assistant_journey_state,
            final(self).select_assistant_state == old(self).select_assistant_state,
            final(self).remove_assistant_state == old(self).remove_assistant_state,
    {
        match result {
            Ok(names) => {
                let ghost views = names@.map_values(|n: String| n@);
                let mut text = String::from_str("Available models:\n\n");
                let ghost head = text@;
                let mut i: usize = 0;
                while i < names.len()
                    invariant
                        i <= names@.len(),
                        views == names@.map_values(|n: String| n@),
                        head == "Available models:\n\n"@,
                        text@ == head + joined_model_lines(views.subrange(0, i as int)),
                    decreases names@.len() - i,
                {
                    assert(views.subrange(0, i + 1).drop_last() =~= views.subrange(0, i as int));
                    if i == 0 {
                        text = text.concat("> ").concat(names[i].as_str()).concat(";");
                    } else {
                        text = text.concat("\n").concat("> ").concat(names[i].as_str()).concat(";");
                    }
                    i = i + 1;
                }
                assert(views.subrange(0, views.len() as int) =~= views);
                self.push_message(ChatRole::App, text);
            },
            Err(err) => self.push_message(ChatRole::App, err),
        }
    }

    /// Opens the select or remove journey (as `command` says) over the loaded
    /// assistants, after noting the files that could not be read; with no
    /// assistant, says so and stays on the chat.
    pub fn on_assistants_loaded(
        &mut self,
        command: Command,
        result: Result<(Vec<StoredAssistant>, Vec<String>), String>,
    )
        requires
            old(self).wf(),
        ensures
            final(self).wf(),
            final(self).active_assistant == old(self).active_assistant,
            final(self).input_state == old(self).input_state,
            final(self).assistant_journey_state == old(self).assistant_journey_state,
            final(self).message_list_state == old(self).message_list_state,
            final(self).pending_reply == old(self).pending_reply,
            final(self).models@ == old(self).models@,
            match result {
                Ok((assistants, errors)) => {
                    &&& history_extended(
                        old(self).messages.entries@,
                        final(self).messages.entries@,
                        skipped_notices(errors@) + if assistants@.len() == 0 {
                            seq![
                                (
                                    ChatRole::App,
                                    "No assistants found. Create one with /create-assistant"@,
                                ),
                            ]
                        } else {
                            Seq::empty()
                        },
                    )
                    &&& if assistants@.len() > 0 {
                        match command {
                            Command::SelectAssistant(_) => {
                                &&& final(self).window_state == WindowState::CommandFlow(command)
                                &&& final(self).select_assistant_state matches Some(s)
                                    && s.assistants@ == assistants@
                                    && s.wrapper_state.input_state.same_as(&old(self).input_state)
                                &&& final(self).remove_assistant_state
                                    == old(self).remove_assistant_state
                            },
                            Command::RemoveAssistant(_) => {
                                &&& final(self).window_state == WindowState::CommandFlow(command)
                                &&& final(self).remove_assistant_state matches Some(s)
                                    && s.assistants@ == assistants@
                                    && s.wrapper_state.input_state.same_as(&old(self).input_state)
                                &&& final(self).select_assistant_state
                                    == old(self).select_assistant_state
                            },
                            _ => {
                                &&& final(self).window_state == old(self).window_state
                                &&& final(self).select_assistant_state
                                    == old(self).select_assistant_state
                                &&& final(self).remove_assistant_state
                                    == old(self).remove_assistant_state
                            },
                        }
                    } else {
                        &&& final(self).window_state == old(self).window_state
                        &&& final(self).select_assistant_state == old(self).select_assistant_state
                        &&& final(self).remove_assistant_state == old(self).remove_assistant_state
                    }
                },
                Err(e) => {
                    &&& history_extended(
                        old(self).messages.entries@,
                        final(self).messages.entries@,
                        seq![(ChatRole::App, "Failed to load assistants: "@ + e@)],
                    )
                    &&& final(self).window_state == old(self).window_state
                    &&& final(self).select_assistant_state == old(self).select_assistant_state
                    &&& final(self).remove_assistant_state == old(self).remove_assistant_state
                },
            },
    {
        let assistants = match result {
            Ok((assistants, errors)) => {
                let ghost start = self.messages.entries@;
                assert(skipped_notices(errors@.subrange(0, 0)) =~= Seq::<(ChatRole, Seq<char>)>::empty());
                assert(self.messages.entries@.subrange(0, start.len() as int) =~= start);
                let mut i: usize = 0;
                while i < errors.len()
                    invariant
                        self.wf(),
                        i <= errors@.len(),
                        history_extended(
                            start,
                            self.messages.entries@,
                            skipped_notices(errors@.subrange(0, i as int)),
                        ),
                        self.window_state == old(self).window_state,
                        self.active_assistant == old(self).active_assistant,
                        self.input_state == old(self).input_state,
                        self.assistant_journey_state == old(self).assistant_journey_state,
                        self.select_assistant_state == old(self).select_assistant_state,
                        self.remove_assistant_state == old(self).remove_assistant_state,
                        self.message_list_state == old(self).message_list_state,
                        self.pending_reply == old(self).pending_reply,
                        self.models@ == old(self).models@,
                    decreases errors@.len() - i,
                {
                    let ghost prev = self.messages.entries@;
                    let notice = String::from_str("Skipped broken config ").concat(errors[i].as_str());
                    self.push_message(ChatRole::App, notice);
                    proof {
                        Self::lemma_extend_more(start, prev, self.messages.entries@,
                            skipped_notices(errors@.subrange(0, i as int)),
                            (ChatRole::App, "Skipped broken config "@ + errors@[i as int]@));
                        assert(skipped_notices(errors@.subrange(0, i + 1)) =~= skipped_notices(errors@.subrange(0, i as int)).push(
                            (ChatRole::App, "Skipped broken config "@ + errors@[i as int]@)));
                    }
                    i = i + 1;
                }
                assert(errors@.subrange(0, errors@.len() as int) =~= errors@);
                if assistants.len() == 0 {
                    let ghost prev = self.messages.entries@;
                    self.push_message(
                        ChatRole::App,
                        String::from_str("No assistants found. Create one with /create-assistant"),
                    );
                    proof {
                        Self::lemma_extend_more(start, prev, self.messages.entries@,
                            skipped_notices(errors@),
                            (ChatRole::App, "No assistants found. Create one with /create-assistant"@));
                    }
                } else {
                    assert(skipped_notices(errors@) + Seq::<(ChatRole, Seq<char>)>::empty() =~= skipped_notices(errors@));
                }
                assistants
            },
            Err(err) => {
                self.push_message(
                    ChatRole::App,
                    String::from_str("Failed to load assistants: ").concat(err.as_str()),
                );
                Vec::new()
            },
        };
        if assistants.len() != 0 {
            match command {
                Command::SelectAssistant(cmd) => {
                    self.select_assistant_state = Some(
                        SelectAssistantJourneyState::new(self.input_state.clone(), assistants),
                    );
                    self.window_state = WindowState::CommandFlow(Command::SelectAssistant(cmd));
                },
                Command::RemoveAssistant(cmd) => {
                    self.remove_assistant_state = Some(
                        RemoveAssistantJourneyState::new(self.input_state.clone(), assistants),
                    );
                    self.window_state = WindowState::CommandFlow(Command::RemoveAssistant(cmd));
                },
                _ => {},
            }
        }
    }

    /// One more appended message extends the appended sequence.
    proof fn lemma_extend_more(
        a: Seq<ChatMessage>,
        b: Seq<ChatMessage>,
        c: Seq<ChatMessage>,
        xs: Seq<(ChatRole, Seq<char>)>,
        y: (ChatRole, Seq<char>),
    )
        requires
            history_extended(a, b, xs),
            history_extended(b, c, seq![y]),
        ensures
            history_extended(a, c, xs.push(y)),
    {
        assert(c.subrange(0, a.len() as int) =~= b.subrange(0, a.len() as int));
        assert forall|k: int| 0 <= k < xs.push(y).len() implies (#[trigger] c[a.len() + k]).role
            == xs.push(y)[k].0 && c[a.len() + k].content@ == xs.push(y)[k].1 by {
            if k < xs.len() {
                assert(c[a.len() + k] == c.subrange(0, b.len() as int)[a.len() + k]);
                assert(b[a.len() + k].role == xs[k].0);
            } else {
                assert(c[b.len() + 0int] == c[a.len() + k]);
            }
        }
    }

    /// Notes how saving the assistant went and goes back to the chat; `result`
    /// holds the file written, or the error.
    pub fn on_assistant_saved(&mut self, config: AssistantConfig, result: Result<String, String>)
        requires
            old(self).wf(),
        ensures
            final(self).wf(),
            history_extended(
                old(self).messages.entries@,
                final(self).messages.entries@,
                seq![
                    (
                        ChatRole::App,
                        match result {
                            Ok(path) => "Assistant \""@ + config.name@ + "\" saved to "@ + path@,
                            Err(e) => "Failed to save assistant: "@ + e@,
                        },
                    ),
                ],
            ),
            final(self).window_state == WindowState::Default,
            final(self).assistant_journey_state is None,
            final(self).select_assistant_state is None,
            final(self).remove_assistant_state is None,
            final(self).active_assistant == old(self).active_assistant,
            final(self).input_state == old(self).input_state,
            final(self).message_list_state == old(self).message_list_state,
            final(self).pending_reply == old(self).pending_reply,
            final(self).models@ == old(self).models@,
    {
        let msg = match result {
            Ok(path) => String::from_str("Assistant \"").concat(config.name.as_str()).concat(
                "\" saved to ",
            ).concat(path.as_str()),
            Err(err) => String::from_str("Failed to save assistant: ").concat(err.as_str()),
        };
        self.push_message(ChatRole::App, msg);
        self.close_command_flow();
    }

    /// Makes the chosen assistant active with its system prompt (clearing the
    /// history), or notes that the prompt could not be read; then back to the
    /// chat.
    pub fn on_system_prompt_loaded(&mut self, assistant: StoredAssistant, result: Result<String, String>)
        requires
            old(self).wf(),
        ensures
            final(self).wf(),
            match result {
                Ok(prompt) => {
                    &&& history_extended(
                        Seq::empty(),
                        final(self).messages.entries@,
                        seq![
                            (
                                ChatRole::App,
                                "Active assistant: "@ + assistant.config.name@ + " ("@
                                    + assistant.config.model@ + ")"@,
                            ),
                        ],
                    )
                    &&& final(self).message_list_state.scroll_offset == 0
                    &&& final(self).active_assistant matches Some(a) && a.path == assistant.path
                        && a.config == assistant.config && a.system_prompt == prompt
                },
                Err(e) => {
                    &&& history_extended(
                        old(self).messages.entries@,
                        final(self).messages.entries@,
                        seq![
                            (
                                ChatRole::App,
                                "Can't use assistant \""@ + assistant.config.name@
                                    + "\", failed to read system prompt "@ + e@,
                            ),
                        ],
                    )
                    &&& final(self).active_assistant == old(self).active_assistant
                    &&& final(self).message_list_state == old(self).message_list_state
                },
            },
            final(self).window_state == WindowState::Default,
            final(self).assistant_journey_state is None,
            final(self).select_assistant_state is None,
            final(self).remove_assistant_state is None,
            final(self).input_state == old(self).input_state,
            final(self).message_list_state.text_height == old(self).message_list_state.text_height,
            final(self).message_list_state.container_height
                == old(self).message_list_state.container_height,
            final(self).pending_reply == old(self).pending_reply,
            final(self).models@ == old(self).models@,
    {
        match result {
            Ok(system_prompt) => {
                self.messages.entries.clear();
                self.message_list_state.scroll_offset = 0;
                let msg = String::from_str("Active assistant: ").concat(
                    assistant.config.name.as_str(),
                ).concat(" (").concat(assistant.config.model.as_str()).concat(")");
                self.push_message(ChatRole::App, msg);
                self.active_assistant = Some(
                    ActiveAssistant {
                        path: assistant.path,
                        config: assistant.config,
                        system_prompt,
                    },
                );
            },
            Err(err) => {
                let msg = String::from_str("Can't use assistant \"").concat(
                    assistant.config.name.as_str(),
                ).concat("\", failed to read system prompt ").concat(err.as_str());
                self.push_message(ChatRole::App, msg);
            },
        }
        self.close_command_flow();
    }

    /// Notes how removing each assistant went, forgets the active assistant
    /// when its file was removed, and goes back to the chat.
    pub fn on_assistants_removed(&mut self, results: Vec<(StoredAssistant, Result<(), String>)>)
        requires
            old(self).wf(),
        ensures
            final(self).wf(),
            history_extended(
                old(self).messages.entries@,
                final(self).messages.entries@,
                removal_notices(results@),
            ),
            match old(self).active_assistant {
                Some(a) => if removed_path(results@, a.path@) {
                    final(self).active_assistant is None
                } else {
                    final(self).active_assistant == old(self).active_assistant
                },
                None => final(self).active_assistant is None,
            },
            final(self).window_state == WindowState::Default,
            final(self).assistant_journey_state is None,
            final(self).select_assistant_state is None,
            final(self).remove_assistant_state is None,
            final(self).input_state == old(self).input_state,
            final(self).message_list_state == old(self).message_list_state,
            final(self).pending_reply == old(self).pending_reply,
            final(self).models@ == old(self).models@,
    {
        let ghost start = self.messages.entries@;
        let ghost active0 = old(self).active_assistant;
        assert(results@.subrange(0, 0) =~= Seq::<(StoredAssistant, Result<(), String>)>::empty());
        assert(removal_notices(results@.subrange(0, 0)) =~= Seq::<(ChatRole, Seq<char>)>::empty());
        assert(self.messages.entries@.subrange(0, start.len() as int) =~= start);
        let mut i: usize = 0;
        while i < results.len()
            invariant
                self.wf(),
                i <= results@.len(),
                history_extended(
                    start,
                    self.messages.entries@,
                    removal_notices(results@.subrange(0, i as int)),
                ),
                active0 == old(self).active_assistant,
                match active0 {
                    Some(a) => if removed_path(results@.subrange(0, i as int), a.path@) {
                        self.active_assistant is None
                    } else {
                        self.active_assistant == active0
                    },
                    None => self.active_assistant is None,
                },
                self.input_state == old(self).input_state,
                self.message_list_state == old(self).message_list_state,
                self.pending_reply == old(self).pending_reply,
                self.models@ == old(self).models@,
            decreases results@.len() - i,
        {
            let ghost prev = self.messages.entries@;
            let (assistant, outcome) = &results[i];
            let ghost notice = removal_notices(results@.subrange(0, i + 1)).last();
            assert(removal_notices(results@.subrange(0, i + 1)) =~= removal_notices(
                results@.subrange(0, i as int),
            ).push(notice));
            self.remove_assistant(assistant, outcome);
            proof {
                Self::lemma_extend_more(start, prev, self.messages.entries@,
                    removal_notices(results@.subrange(0, i as int)), notice);
                match active0 {
                    Some(a) => {
                        if removed_path(results@.subrange(0, i as int), a.path@) {
                            let j = choose|j: int| 0 <= j < i && results@.subrange(0, i as int)[j].1 is Ok
                                && #[trigger] same_path(a.path@, results@.subrange(0, i as int)[j].0.path@);
                            assert(results@.subrange(0, i + 1)[j] == results@.subrange(0, i as int)[j]);
                        } else if removed_path(results@.subrange(0, i + 1), a.path@) {
                            let j = choose|j: int| 0 <= j < i + 1 && results@.subrange(0, i + 1)[j].1 is Ok
                                && #[trigger] same_path(a.path@, results@.subrange(0, i + 1)[j].0.path@);
                            if j < i {
                                assert(results@.subrange(0, i as int)[j] == results@.subrange(0, i + 1)[j]);
                            }
                        } else {
                            assert(results@.subrange(0, i + 1)[i as int] == results@[i as int]);
                        }
                    },
                    None => {},
                }
            }
            i = i + 1;
        }
        assert(results@.subrange(0, results@.len() as int) =~= results@);
        self.close_command_flow();
    }

    /// Notes how removing one assistant went, and forgets it when it was the
    /// active one and its file is gone.
    fn remove_assistant(&mut self, assistant: &StoredAssistant, result: &Result<(), String>)
        requires
            old(self).wf(),
        ensures
            final(self).wf(),
            history_extended(
                old(self).messages.entries@,
                final(self).messages.entries@,
                seq![
                    (
                        ChatRole::App,
                        match *result {
                            Ok(_) => "Assistant \""@ + assistant.config.name@ + "\" removed ("@
                                + assistant.path@ + ")"@,
                            Err(err) => "Failed to remove assistant \""@ + assistant.config.name@
                                + "\": "@ + err@,
                        },
                    ),
                ],
            ),
            final(self).active_assistant == match old(self).active_assistant {
                Some(a) => if result is Ok && same_path(a.path@, assistant.path@) {
                    None
                } else {
                    old(self).active_assistant
                },
                None => None,
            },
            final(self).input_state == old(self).input_state,
            final(self).window_state == old(self).window_state,
            final(self).assistant_journey_state == old(self).assistant_journey_state,
            final(self).select_assistant_state == old(self).select_assistant_state,
            final(self).remove_assistant_state == old(self).remove_assistant_state,
            final(self).message_list_state == old(self).message_list_state,
            final(self).pending_reply == old(self).pending_reply,
            final(self).models@ == old(self).models@,
    {
        let name = assistant.config.name.as_str();
        let msg = match result {
            Ok(()) => {
                let was_active = match &self.active_assistant {
                    Some(active) => paths_equal(active.path.as_str(), assistant.path.as_str()),
                    None => false,
                };
                if was_active {
                    self.active_assistant = None;
                }
                String::from_str("Assistant \"").concat(name).concat("\" removed (").concat(
                    assistant.path.as_str(),
                ).concat(")")
            },
            Err(err) => String::from_str("Failed to remove assistant \"").concat(name).concat(
                "\": ",
            ).concat(err.as_str()),
        };
        self.push_message(ChatRole::App, msg);
    }
}

} // verus!