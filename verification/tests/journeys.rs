use ollama_harness::shared::assistant_config::{AssistantConfig, StoredAssistant};
use ollama_harness::shared::autocomplete_state::ReferenceType;
use ollama_harness::shared::key::{KeyCode, KeyEvent};
use ollama_harness::shared::text_input_state::{InputMode, TextInputState};
use ollama_harness::widgets::create_assistant_form::{
    CreateAssistantFormStep, CreateAssistantFormWidget,
};
use ollama_harness::widgets::create_assistant_journey::{
    CreateAssistantJourneyState, CreateAssistantJourneyWidget,
};
use ollama_harness::widgets::generic_journey::JourneyOutcome;
use ollama_harness::widgets::remove_assistant_journey::{
    RemoveAssistantJourneyState, RemoveAssistantJourneyWidget,
};
use ollama_harness::widgets::select::SelectState;
use ollama_harness::widgets::select_assistant_journey::{
    assistant_label_exec, SelectAssistantJourneyState, SelectAssistantJourneyWidget,
};

fn stored(path: &str, name: &str, model: &str) -> StoredAssistant {
    StoredAssistant {
        path: path.to_string(),
        config: AssistantConfig {
            name: name.to_string(),
            model: model.to_string(),
            system_prompt_path: "p.md".to_string(),
            use_rag: false,
        },
    }
}

fn editing_input() -> TextInputState {
    let mut input = TextInputState::new();
    input.input_mode = InputMode::Editing;
    input
}

fn key(code: KeyCode) -> KeyEvent {
    KeyEvent::pressed(code)
}

fn answer(state: &mut CreateAssistantJourneyState, text: &str) -> JourneyOutcome<AssistantConfig> {
    for c in text.chars() {
        let outcome = CreateAssistantJourneyWidget::handle_key_event(key(KeyCode::Char(c)), state);
        assert!(matches!(outcome, JourneyOutcome::Continue));
    }
    CreateAssistantJourneyWidget::handle_key_event(key(KeyCode::Enter), state)
}

fn history(state: &CreateAssistantJourneyState) -> Vec<(String, String)> {
    state.wrapper_state.child_state.history.clone()
}

#[test]
fn create_journey_walks_through_its_steps() {
    let models = vec!["llama3".to_string(), "qwen".to_string()];
    let mut state = CreateAssistantJourneyState::new(editing_input(), models);
    assert_eq!(state.wrapper_state.child_state.step, CreateAssistantFormStep::Name);

    assert!(matches!(answer(&mut state, "  helper "), JourneyOutcome::Continue));
    assert_eq!(state.wrapper_state.child_state.step, CreateAssistantFormStep::Model);
    assert_eq!(state.wrapper_state.child_state.name, "helper");

    CreateAssistantJourneyWidget::handle_key_event(key(KeyCode::Down), &mut state);
    let outcome = CreateAssistantJourneyWidget::handle_key_event(key(KeyCode::Enter), &mut state);
    assert!(matches!(outcome, JourneyOutcome::Continue));
    let form = &state.wrapper_state.child_state;
    assert_eq!(form.step, CreateAssistantFormStep::SystemPromptPath);
    assert_eq!(form.model, "qwen");
    assert_eq!(form.input_state.override_autocomplete_type, Some(ReferenceType::Filepath));
    assert_eq!(form.input_state.input, "");

    assert!(matches!(answer(&mut state, "@prompts/helper.md"), JourneyOutcome::Continue));
    assert_eq!(state.wrapper_state.child_state.step, CreateAssistantFormStep::UseRag);
    assert_eq!(state.wrapper_state.child_state.input_state.override_autocomplete_type, None);

    match answer(&mut state, " y ") {
        JourneyOutcome::Completed(config) => {
            assert_eq!(config.name, "helper");
            assert_eq!(config.model, "qwen");
            assert_eq!(config.system_prompt_path, "@prompts/helper.md");
            assert!(config.use_rag);
        }
        JourneyOutcome::Continue => panic!("the journey should be complete"),
    }
    let expected: Vec<(String, String)> = [
        ("Name", "helper"),
        ("Model", "qwen"),
        ("System Prompt", "@prompts/helper.md"),
        ("Use RAG", "Y"),
    ]
    .iter()
    .map(|(l, v)| (l.to_string(), v.to_string()))
    .collect();
    assert_eq!(history(&state), expected);
    assert_eq!(
        state.wrapper_state.input_state.input,
        state.wrapper_state.child_state.input_state.input
    );
}

#[test]
fn create_journey_refuses_an_answer_other_than_yes_or_no() {
    let mut state = CreateAssistantJourneyState::new(editing_input(), vec!["m".to_string()]);
    answer(&mut state, "bot");
    CreateAssistantJourneyWidget::handle_key_event(key(KeyCode::Enter), &mut state);
    answer(&mut state, "p.md");
    assert!(matches!(answer(&mut state, "maybe"), JourneyOutcome::Continue));
    assert_eq!(
        state.wrapper_state.child_state.error.as_deref(),
        Some("Please answer Y or N")
    );
    assert_eq!(state.wrapper_state.child_state.step, CreateAssistantFormStep::UseRag);
    assert_eq!(history(&state).len(), 3);
    match answer(&mut state, "n") {
        JourneyOutcome::Completed(config) => assert!(!config.use_rag),
        JourneyOutcome::Continue => panic!("the journey should be complete"),
    }
    assert_eq!(state.wrapper_state.child_state.error, None);
}

#[test]
fn create_journey_ignores_blank_names_and_commands() {
    let mut state = CreateAssistantJourneyState::new(editing_input(), vec![]);
    answer(&mut state, "   ");
    assert_eq!(state.wrapper_state.child_state.step, CreateAssistantFormStep::Name);
    answer(&mut state, "/list-models");
    assert_eq!(state.wrapper_state.child_state.step, CreateAssistantFormStep::Name);
    assert!(history(&state).is_empty());
}

#[test]
fn create_journey_with_no_models_stays_on_the_model_step() {
    let mut state = CreateAssistantJourneyState::new(editing_input(), vec![]);
    answer(&mut state, "bot");
    CreateAssistantJourneyWidget::handle_key_event(key(KeyCode::Down), &mut state);
    CreateAssistantJourneyWidget::handle_key_event(key(KeyCode::Enter), &mut state);
    assert_eq!(state.wrapper_state.child_state.step, CreateAssistantFormStep::Model);
}

#[test]
fn form_step_heights_and_label_width() {
    assert_eq!(CreateAssistantFormWidget::step_height(CreateAssistantFormStep::Model), 10);
    assert_eq!(CreateAssistantFormWidget::step_height(CreateAssistantFormStep::Name), 3);
    assert_eq!(CreateAssistantFormWidget::label_width("Name: "), 5);
    assert_eq!(CreateAssistantFormWidget::label_width("System prompt path"), 18);
    assert_eq!(CreateAssistantFormWidget::label_width(""), 0);
}

#[test]
fn select_state_wraps_around() {
    let mut state = SelectState::new(vec!["a".to_string(), "b".to_string(), "c".to_string()]);
    assert_eq!(state.selected_item().as_deref(), Some("a"));
    state.previous();
    assert_eq!(state.selected_item().as_deref(), Some("c"));
    state.next();
    assert_eq!(state.selected_item().as_deref(), Some("a"));
    state.next();
    state.next();
    assert_eq!(state.selected_item().as_deref(), Some("c"));
    state.next();
    assert_eq!(state.selected_item().as_deref(), Some("a"));
}

#[test]
fn select_state_on_an_empty_list_selects_nothing() {
    let mut state = SelectState::new(vec![]);
    state.next();
    state.previous();
    assert_eq!(state.selected_item(), None);
}

#[test]
fn select_journey_picks_the_highlighted_assistant() {
    let assistants = vec![stored("a.yml", "alpha", "llama3"), stored("b.yml", "beta", "qwen")];
    let mut state = SelectAssistantJourneyState::new(TextInputState::new(), assistants);
    assert_eq!(state.wrapper_state.child_state.items, vec!["alpha (llama3)", "beta (qwen)"]);
    let outcome = SelectAssistantJourneyWidget::handle_key_event(key(KeyCode::Down), &mut state);
    assert!(matches!(outcome, JourneyOutcome::Continue));
    match SelectAssistantJourneyWidget::handle_key_event(key(KeyCode::Enter), &mut state) {
        JourneyOutcome::Completed(a) => assert_eq!(a.path, "b.yml"),
        JourneyOutcome::Continue => panic!("an assistant should be picked"),
    }
}

#[test]
fn select_journey_without_assistants_never_completes() {
    let mut state = SelectAssistantJourneyState::new(TextInputState::new(), vec![]);
    let outcome = SelectAssistantJourneyWidget::handle_key_event(key(KeyCode::Enter), &mut state);
    assert!(matches!(outcome, JourneyOutcome::Continue));
}

#[test]
fn assistant_label_is_name_and_model() {
    assert_eq!(assistant_label_exec(&stored("x", "helper", "llama3")), "helper (llama3)");
}

#[test]
fn remove_journey_marks_and_returns_the_marked_assistants() {
    let assistants = vec![
        stored("a.yml", "alpha", "m1"),
        stored("b.yml", "beta", "m2"),
        stored("c.yml", "gamma", "m3"),
    ];
    let mut state = RemoveAssistantJourneyState::new(TextInputState::new(), assistants);
    assert_eq!(state.wrapper_state.child_state.items[0], "[ ] alpha (m1)");
    let outcome = RemoveAssistantJourneyWidget::handle_key_event(key(KeyCode::Enter), &mut state);
    assert!(matches!(outcome, JourneyOutcome::Continue));

    RemoveAssistantJourneyWidget::handle_key_event(key(KeyCode::Char(' ')), &mut state);
    RemoveAssistantJourneyWidget::handle_key_event(key(KeyCode::Up), &mut state);
    RemoveAssistantJourneyWidget::handle_key_event(key(KeyCode::Char(' ')), &mut state);
    assert_eq!(state.marked, vec![true, false, true]);
    assert_eq!(state.wrapper_state.child_state.items[0], "[x] alpha (m1)");
    assert_eq!(state.wrapper_state.child_state.items[2], "[x] gamma (m3)");

    match RemoveAssistantJourneyWidget::handle_key_event(key(KeyCode::Enter), &mut state) {
        JourneyOutcome::Completed(list) => {
            let paths: Vec<String> = list.iter().map(|a| a.path.clone()).collect();
            assert_eq!(paths, vec!["a.yml", "c.yml"]);
        }
        JourneyOutcome::Continue => panic!("the marked assistants should be returned"),
    }
}

#[test]
fn space_twice_leaves_the_marks_unchanged() {
    let assistants = vec![stored("a.yml", "alpha", "m1"), stored("b.yml", "beta", "m2")];
    let mut state = RemoveAssistantJourneyState::new(TextInputState::new(), assistants);
    RemoveAssistantJourneyWidget::handle_key_event(key(KeyCode::Down), &mut state);
    RemoveAssistantJourneyWidget::handle_key_event(key(KeyCode::Char(' ')), &mut state);
    RemoveAssistantJourneyWidget::handle_key_event(key(KeyCode::Char(' ')), &mut state);
    assert_eq!(state.marked, vec![false, false]);
    assert_eq!(state.wrapper_state.child_state.items[1], "[ ] beta (m2)");
}

#[test]
fn create_journey_records_answers_in_the_order_asked() {
    let mut state = CreateAssistantJourneyState::new(editing_input(), vec!["m".to_string()]);
    let labels = |state: &CreateAssistantJourneyState| -> Vec<String> {
        history(state).into_iter().map(|(label, _)| label).collect()
    };
    assert!(labels(&state).is_empty());
    answer(&mut state, "bot");
    assert_eq!(labels(&state), vec!["Name"]);
    CreateAssistantJourneyWidget::handle_key_event(key(KeyCode::Enter), &mut state);
    assert_eq!(labels(&state), vec!["Name", "Model"]);
    answer(&mut state, "p.md");
    assert_eq!(labels(&state), vec!["Name", "Model", "System Prompt"]);
    answer(&mut state, "x");
    assert_eq!(labels(&state), vec!["Name", "Model", "System Prompt"]);
    answer(&mut state, "Y");
    assert_eq!(labels(&state), vec!["Name", "Model", "System Prompt", "Use RAG"]);
}

#[test]
fn remove_journey_rows_follow_the_marks() {
    let assistants = vec![stored("a.yml", "alpha", "m1"), stored("b.yml", "beta", "m2")];
    let mut state = RemoveAssistantJourneyState::new(TextInputState::new(), assistants);
    for code in [KeyCode::Char(' '), KeyCode::Down, KeyCode::Char(' '), KeyCode::Up, KeyCode::Char(' ')] {
        RemoveAssistantJourneyWidget::handle_key_event(key(code), &mut state);
        assert_eq!(state.marked.len(), 2);
        for (j, row) in state.wrapper_state.child_state.items.iter().enumerate() {
            let mark = if state.marked[j] { "[x]" } else { "[ ]" };
            let a = &state.assistants[j];
            assert_eq!(row, &format!("{} {} ({})", mark, a.config.name, a.config.model));
        }
    }
    assert_eq!(state.marked, vec![false, true]);
}
