//! The create-assistant journey: name, model, system prompt path and the RAG
//! answer, one step at a time.

use crate::shared::assistant_config::AssistantConfig;
use crate::shared::autocomplete_state::ReferenceType;
use crate::shared::chat_action::{InputAction, SubmitData};
use crate::shared::key::{KeyCode, KeyEvent};
use crate::shared::text::{
    ascii_text, ascii_uppercase, str_eq, to_uppercase, trim, trim_spec, uppercase_of,
};
use crate::shared::text_input_state::{submitted_command, InputMode, TextInputState};
use crate::widgets::create_assistant_form::{
    history_view, CreateAssistantFormStep, CreateAssistantFormWidgetState,
};
use crate::widgets::generic_journey::{GenericJourneyWidgetState, JourneyOutcome};
use crate::widgets::input::{key_supported, text_key_applied, TextInput};
use crate::widgets::select::{next_selection, previous_selection, SelectState};
use vstd::prelude::*;
use vstd::string::StringExecFns;

verus! {

/// The text an Enter on `input` submits as an answer: the trimmed input, when
/// it names no command and is not blank.
pub open spec fn submitted_answer(input: Seq<char>, key: KeyEvent) -> Option<Seq<char>> {
    if key.code == KeyCode::Enter && submitted_command(input) is None && trim_spec(
        trim_spec(input),
    ).len() > 0 {
        Some(trim_spec(input))
    } else {
        None
    }
}

/// The RAG answer `content` gives, once trimmed and upper-cased: Y or N.
pub open spec fn rag_answer(content: Seq<char>) -> Seq<char> {
    uppercase_of(trim_spec(content))
}

/// Whether a RAG answer is accepted.
pub open spec fn rag_answer_valid(answer: Seq<char>) -> bool {
    answer == "Y"@ || answer == "N"@
}

/// `b` holds the same answers as `a`.
pub open spec fn same_answers(a: CreateAssistantFormWidgetState, b: CreateAssistantFormWidgetState) -> bool {
    &&& b.name@ == a.name@
    &&& b.model@ == a.model@
    &&& b.system_prompt_path@ == a.system_prompt_path@
    &&& b.use_rag == a.use_rag
    &&& b.embedding_model == a.embedding_model
    &&& b.rag_files_path == a.rag_files_path
    &&& history_view(b.history@) == history_view(a.history@)
    &&& b.error == a.error
}

/// `after` is `before` emptied for a new answer: no text, cursor at the start,
/// no popup.
pub open spec fn input_cleared(before: TextInputState, after: TextInputState) -> bool {
    &&& after.input@ == Seq::<char>::empty()
    &&& after.character_index == 0
    &&& after.autocomplete_state.is_empty_state()
    &&& after.prefix@ == before.prefix@
}

/// What a key press does on the model step.
pub open spec fn model_step_done(
    f0: CreateAssistantFormWidgetState,
    key: KeyEvent,
    f1: CreateAssistantFormWidgetState,
) -> bool {
    &&& f1.select_state.items@ == f0.select_state.items@
    &&& match key.code {
        KeyCode::Up => {
            &&& f1.select_state.selection() == previous_selection(
                f0.select_state.selection(),
                f0.select_state.items@.len(),
            )
            &&& same_answers(f0, f1) && f1.step == f0.step && f1.input_state.same_as(&f0.input_state)
        },
        KeyCode::Down => {
            &&& f1.select_state.selection() == next_selection(
                f0.select_state.selection(),
                f0.select_state.items@.len(),
            )
            &&& same_answers(f0, f1) && f1.step == f0.step && f1.input_state.same_as(&f0.input_state)
        },
        KeyCode::Enter => {
            &&& f1.select_state.selection() == f0.select_state.selection()
            &&& match f0.select_state.selection() {
                Some(i) if i < f0.select_state.items@.len() => {
                    let chosen = f0.select_state.items@[i as int]@;
                    &&& f1.model@ == chosen
                    &&& history_view(f1.history@) == history_view(f0.history@).push(
                        ("Model"@, chosen),
                    )
                    &&& f1.step == CreateAssistantFormStep::SystemPromptPath
                    &&& f1.name@ == f0.name@
                    &&& f1.system_prompt_path@ == f0.system_prompt_path@
                    &&& f1.use_rag == f0.use_rag
                    &&& f1.embedding_model == f0.embedding_model
                    &&& f1.rag_files_path == f0.rag_files_path
                    &&& f1.error == f0.error
                    &&& input_cleared(f0.input_state, f1.input_state)
                    &&& f1.input_state.input_mode == InputMode::Editing
                    &&& f1.input_state.override_autocomplete_type == Some(
                        ReferenceType::Filepath,
                    )
                },
                _ => same_answers(f0, f1) && f1.step == f0.step && f1.input_state.same_as(
                    &f0.input_state,
                ),
            }
        },
        _ => {
            &&& f1.select_state.selection() == f0.select_state.selection()
            &&& same_answers(f0, f1) && f1.step == f0.step && f1.input_state.same_as(&f0.input_state)
        },
    }
}

/// What a key press does on a text step, `content` being the answer it
/// submits, if any.
pub open spec fn text_step_done(
    f0: CreateAssistantFormWidgetState,
    key: KeyEvent,
    f1: CreateAssistantFormWidgetState,
    r: JourneyOutcome<AssistantConfig>,
) -> bool {
    let content = submitted_answer(f0.input_state.input@, key);
    &&& f1.select_state.items@ == f0.select_state.items@
    &&& f1.select_state.selection() == f0.select_state.selection()
    &&& f1.embedding_model == f0.embedding_model
    &&& f1.rag_files_path == f0.rag_files_path
    &&& if f0.step == CreateAssistantFormStep::SystemPromptPath && content is Some {
        &&& input_cleared(f0.input_state, f1.input_state)
        &&& f1.input_state.input_mode == f0.input_state.input_mode
        &&& f1.input_state.override_autocomplete_type is None
    } else {
        text_key_applied(f0.input_state, key, f1.input_state)
    }
    &&& match (f0.step, content) {
        (CreateAssistantFormStep::Name, Some(c)) => {
            &&& f1.name@ == c
            &&& history_view(f1.history@) == history_view(f0.history@).push(("Name"@, c))
            &&& f1.step == CreateAssistantFormStep::Model
            &&& f1.model@ == f0.model@ && f1.system_prompt_path@ == f0.system_prompt_path@
            &&& f1.use_rag == f0.use_rag && f1.error == f0.error
            &&& r is Continue
        },
        (CreateAssistantFormStep::SystemPromptPath, Some(c)) => {
            &&& f1.system_prompt_path@ == c
            &&& history_view(f1.history@) == history_view(f0.history@).push(
                ("System Prompt"@, c),
            )
            &&& f1.step == CreateAssistantFormStep::UseRag
            &&& f1.name@ == f0.name@ && f1.model@ == f0.model@
            &&& f1.use_rag == f0.use_rag && f1.error == f0.error
            &&& r is Continue
        },
        (CreateAssistantFormStep::UseRag, Some(c)) => {
            let answer = rag_answer(c);
            &&& ascii_text(trim_spec(c)) ==> answer == trim_spec(c).map_values(
                |ch: char| ascii_uppercase(ch),
            )
            &&& f1.name@ == f0.name@ && f1.model@ == f0.model@
            &&& f1.system_prompt_path@ == f0.system_prompt_path@
            &&& f1.step == f0.step
            &&& if rag_answer_valid(answer) {
                &&& f1.error is None
                &&& f1.use_rag == (answer == "Y"@)
                &&& history_view(f1.history@) == history_view(f0.history@).push(
                    ("Use RAG"@, answer),
                )
                &&& r matches JourneyOutcome::Completed(config) && config.name@ == f0.name@
                    && config.model@ == f0.model@ && config.system_prompt_path@
                    == f0.system_prompt_path@ && config.use_rag == (answer == "Y"@)
            } else {
                &&& f1.error matches Some(e) && e@ == "Please answer Y or N"@
                &&& f1.use_rag == f0.use_rag
                &&& history_view(f1.history@) == history_view(f0.history@)
                &&& r is Continue
            }
        },
        _ => {
            &&& same_answers(f0, f1)
            &&& f1.step == f0.step
            &&& r is Continue
        },
    }
}

type WrapperState = GenericJourneyWidgetState<CreateAssistantFormWidgetState>;

pub struct CreateAssistantJourneyState {
    pub wrapper_state: WrapperState,
}

impl CreateAssistantJourneyState {
    /// A journey at its first step, offering `models`, with copies of
    /// `input_state` in the frame and in the form.
    pub fn new(input_state: TextInputState, models: Vec<String>) -> (r: Self)
        ensures
            r.wrapper_state.input_state.same_as(&input_state),
            r.wrapper_state.child_state.input_state.same_as(&input_state),
            r.wrapper_state.child_state.step == CreateAssistantFormStep::Name,
            r.wrapper_state.child_state.name@ == Seq::<char>::empty(),
            r.wrapper_state.child_state.model@ == Seq::<char>::empty(),
            r.wrapper_state.child_state.system_prompt_path@ == Seq::<char>::empty(),
            !r.wrapper_state.child_state.use_rag,
            r.wrapper_state.child_state.embedding_model is None,
            r.wrapper_state.child_state.rag_files_path is None,
            r.wrapper_state.child_state.history@.len() == 0,
            r.wrapper_state.child_state.error is None,
            r.wrapper_state.child_state.select_state.items@ == models@,
            r.wrapper_state.child_state.select_state.selection() == if models@.len() == 0 {
                None
            } else {
                Some(0usize)
            },
    {
        Self {
            wrapper_state: WrapperState {
                input_state: input_state.clone(),
                child_state: CreateAssistantFormWidgetState {
                    step: CreateAssistantFormStep::Name,
                    name: String::new(),
                    model: String::new(),
                    system_prompt_path: String::new(),
                    use_rag: false,
                    embedding_model: None,
                    rag_files_path: None,
                    input_state: input_state.clone(),
                    select_state: SelectState::new(models),
                    history: Vec::new(),
                    error: None,
                },
            },
        }
    }
}

pub struct CreateAssistantJourneyWidget;

impl CreateAssistantJourneyWidget {
    /// Applies one key press to the journey; returns the assistant once the
    /// RAG question is answered with Y or N.
    pub fn handle_key_event(key: KeyEvent, state: &mut CreateAssistantJourneyState) -> (r:
        JourneyOutcome<AssistantConfig>)
        requires
            old(state).wrapper_state.child_state.step != CreateAssistantFormStep::Model
                ==> key_supported(old(state).wrapper_state.child_state.input_state, key),
        ensures
            final(state).wrapper_state.input_state.same_as(
                &final(state).wrapper_state.child_state.input_state,
            ),
            old(state).wrapper_state.child_state.step == CreateAssistantFormStep::Model ==> {
                &&& model_step_done(
                    old(state).wrapper_state.child_state,
                    key,
                    final(state).wrapper_state.child_state,
                )
                &&& r is Continue
            },
            old(state).wrapper_state.child_state.step != CreateAssistantFormStep::Model
                ==> text_step_done(
                old(state).wrapper_state.child_state,
                key,
                final(state).wrapper_state.child_state,
                r,
            ),
    {
        let outcome = match state.wrapper_state.child_state.step {
            CreateAssistantFormStep::Model => {
                Self::handle_model_key(key, &mut state.wrapper_state.child_state);
                JourneyOutcome::Continue
            },
            _ => Self::handle_text_key(key, &mut state.wrapper_state.child_state),
        };
        state.wrapper_state.input_state = state.wrapper_state.child_state.input_state.clone();
        outcome
    }

    /// A key press on the model list.
    fn handle_model_key(key: KeyEvent, form_state: &mut CreateAssistantFormWidgetState)
        ensures
            model_step_done(*old(form_state), key, *final(form_state)),
    {
        let ghost f0 = *old(form_state);
        match key.code {
            KeyCode::Up => form_state.select_state.previous(),
            KeyCode::Down => form_state.select_state.next(),
            KeyCode::Enter => {
                if let Some(selected) = form_state.select_state.selected_item() {
                    form_state.model = selected.clone();
                    form_state.history.push((String::from_str("Model"), selected));
                    assert(history_view(form_state.history@) =~= history_view(f0.history@).push(
                        ("Model"@, form_state.model@),
                    ));
                    form_state.step = CreateAssistantFormStep::SystemPromptPath;
                    form_state.input_state.reset();
                    form_state.input_state.input_mode = InputMode::Editing;
                    form_state.input_state.override_autocomplete_type = Some(
                        ReferenceType::Filepath,
                    );
                }
            },
            _ => {},
        }
    }

    /// A key press on a text step.
    fn handle_text_key(key: KeyEvent, form_state: &mut CreateAssistantFormWidgetState) -> (r:
        JourneyOutcome<AssistantConfig>)
        requires
            old(form_state).step != CreateAssistantFormStep::Model,
            key_supported(old(form_state).input_state, key),
        ensures
            text_step_done(*old(form_state), key, *final(form_state), r),
    {
        let ghost f0 = *old(form_state);
        let mut outcome = JourneyOutcome::Continue;
        let action = TextInput::handle_key_event(key, &mut form_state.input_state);
        if let InputAction::Submit(SubmitData::Text(content)) = action {
            if trim(content.as_str()).unicode_len() != 0 {
                assert(submitted_answer(f0.input_state.input@, key) == Some(content@));
                match form_state.step {
                    CreateAssistantFormStep::Name => {
                        form_state.name = content.clone();
                        form_state.history.push((String::from_str("Name"), content));
                        assert(history_view(form_state.history@) =~= history_view(
                            f0.history@,
                        ).push(("Name"@, form_state.name@)));
                        form_state.step = CreateAssistantFormStep::Model;
                    },
                    CreateAssistantFormStep::SystemPromptPath => {
                        form_state.system_prompt_path = content.clone();
                        form_state.history.push((String::from_str("System Prompt"), content));
                        assert(history_view(form_state.history@) =~= history_view(
                            f0.history@,
                        ).push(("System Prompt"@, form_state.system_prompt_path@)));
                        form_state.step = CreateAssistantFormStep::UseRag;
                        form_state.input_state.reset();
                        form_state.input_state.override_autocomplete_type = None;
                    },
                    CreateAssistantFormStep::UseRag => {
                        let answer = to_uppercase(trim(content.as_str()));
                        let is_yes = str_eq(answer.as_str(), "Y");
                        if is_yes || str_eq(answer.as_str(), "N") {
                            form_state.error = None;
                            form_state.use_rag = is_yes;
                            let ghost answer_view = answer@;
                            form_state.history.push((String::from_str("Use RAG"), answer));
                            assert(history_view(form_state.history@) =~= history_view(
                                f0.history@,
                            ).push(("Use RAG"@, answer_view)));
                            outcome = JourneyOutcome::Completed(
                                AssistantConfig {
                                    name: form_state.name.clone(),
                                    model: form_state.model.clone(),
                                    system_prompt_path: form_state.system_prompt_path.clone(),
                                    use_rag: form_state.use_rag,
                                },
                            );
                        } else {
                            form_state.error = Some(String::from_str("Please answer Y or N"));
                        }
                    },
                    _ => {},
                }
            } else {
                assert(submitted_answer(f0.input_state.input@, key) is None);
            }
        } else {
            assert(submitted_answer(f0.input_state.input@, key) is None);
        }
        outcome
    }
}

} // verus!
