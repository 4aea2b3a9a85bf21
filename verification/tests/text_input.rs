use ollama_harness::shared::debug_logger::DebugLogger;
use ollama_harness::shared::autocomplete_state::ReferenceType;
use ollama_harness::shared::chat_action::{InputAction, SubmitData};
use ollama_harness::shared::command::{commands, Command};
use ollama_harness::shared::key::{KeyCode, KeyEvent};
use ollama_harness::shared::text_input_state::{InputMode, TextInputState};
use ollama_harness::widgets::input::TextInput;
use ollama_harness::widgets::input_label::InputLabelWidget;

fn press(state: &mut TextInputState, code: KeyCode) -> InputAction {
    TextInput::handle_key_event(KeyEvent::pressed(code), state)
}

fn type_text(state: &mut TextInputState, text: &str) {
    for c in text.chars() {
        press(state, KeyCode::Char(c));
    }
}

fn editing_state(text: &str) -> TextInputState {
    let mut state = TextInputState::new();
    state.input_mode = InputMode::Editing;
    type_text(&mut state, text);
    state
}

#[test]
fn typing_inserts_at_the_cursor() {
    let mut state = editing_state("hllo");
    assert_eq!(state.input, "hllo");
    assert_eq!(state.character_index, 4);
    for _ in 0..3 {
        press(&mut state, KeyCode::Left);
    }
    assert_eq!(state.character_index, 1);
    press(&mut state, KeyCode::Char('e'));
    assert_eq!(state.input, "hello");
    assert_eq!(state.character_index, 2);
}

#[test]
fn typing_multibyte_characters_counts_characters() {
    let mut state = editing_state("héllo");
    assert_eq!(state.character_index, 5);
    press(&mut state, KeyCode::Left);
    press(&mut state, KeyCode::Char('ü'));
    assert_eq!(state.input, "héllüo");
    assert_eq!(state.character_index, 5);
}

#[test]
fn cursor_moves_stay_within_the_text() {
    let mut state = editing_state("ab");
    press(&mut state, KeyCode::Right);
    assert_eq!(state.character_index, 2);
    press(&mut state, KeyCode::Left);
    press(&mut state, KeyCode::Left);
    press(&mut state, KeyCode::Left);
    assert_eq!(state.character_index, 0);
    press(&mut state, KeyCode::Right);
    assert_eq!(state.character_index, 1);
}

#[test]
fn left_then_right_returns_to_the_same_position() {
    let mut state = editing_state("abc");
    press(&mut state, KeyCode::Left);
    assert_eq!(state.character_index, 2);
    press(&mut state, KeyCode::Left);
    press(&mut state, KeyCode::Right);
    assert_eq!(state.character_index, 2);
}

#[test]
fn backspace_deletes_the_character_before_the_cursor() {
    let mut state = editing_state("abc");
    press(&mut state, KeyCode::Left);
    press(&mut state, KeyCode::Backspace);
    assert_eq!(state.input, "ac");
    assert_eq!(state.character_index, 1);
}

#[test]
fn backspace_at_the_start_does_nothing() {
    let mut state = editing_state("abc");
    for _ in 0..3 {
        press(&mut state, KeyCode::Left);
    }
    press(&mut state, KeyCode::Backspace);
    assert_eq!(state.input, "abc");
    assert_eq!(state.character_index, 0);
}

#[test]
fn alt_backspace_on_a_single_word_keeps_its_first_character() {
    let mut state = editing_state("hello");
    let key = KeyEvent { code: KeyCode::Backspace, alt: true, press: true };
    TextInput::handle_key_event(key, &mut state);
    assert_eq!(state.input, "h");
    assert_eq!(state.character_index, 1);
}

#[test]
fn alt_backspace_removes_the_last_word() {
    let mut state = editing_state("foo bar");
    let key = KeyEvent { code: KeyCode::Backspace, alt: true, press: true };
    TextInput::handle_key_event(key, &mut state);
    assert_eq!(state.input, "foo ");
    assert_eq!(state.character_index, 4);
}

#[test]
fn alt_backspace_joins_the_kept_words_with_single_spaces() {
    let mut state = editing_state("a   b c");
    let key = KeyEvent { code: KeyCode::Backspace, alt: true, press: true };
    TextInput::handle_key_event(key, &mut state);
    // The kept words "a b" take three characters, so four characters stay.
    assert_eq!(state.input, "a   ");
    assert_eq!(state.character_index, 4);
}

#[test]
fn enter_submits_the_trimmed_text_and_clears_the_input() {
    let mut state = editing_state("  hello world  ");
    let action = press(&mut state, KeyCode::Enter);
    assert_eq!(action, InputAction::Submit(SubmitData::Text("hello world".to_string())));
    assert_eq!(state.input, "");
    assert_eq!(state.character_index, 0);
}

#[test]
fn enter_on_a_command_submits_the_command() {
    let mut state = editing_state("/list-models");
    let action = press(&mut state, KeyCode::Enter);
    assert_eq!(action, InputAction::Submit(SubmitData::Command(commands()[0])));
    assert!(matches!(
        action,
        InputAction::Submit(SubmitData::Command(Command::ListModels(_)))
    ));
}

#[test]
fn esc_asks_to_leave_editing_mode() {
    let mut state = editing_state("x");
    assert_eq!(press(&mut state, KeyCode::Esc), InputAction::ExitEditingMode);
    assert_eq!(press(&mut state, KeyCode::Char('y')), InputAction::NoAction);
    assert_eq!(state.input, "xy");
}

#[test]
fn a_slash_token_is_detected_as_a_command_reference() {
    let state = editing_state("/cre");
    let ac = &state.autocomplete_state;
    assert_eq!(ac.reference_type, ReferenceType::Command);
    assert_eq!(ac.reference_token.as_deref(), Some("/cre"));
    assert_eq!(ac.reference_token_index, 0);
    assert!(ac.is_displayed());
}

#[test]
fn an_at_token_anywhere_is_detected_as_a_file_reference() {
    let state = editing_state("read @src/ma");
    let ac = &state.autocomplete_state;
    assert_eq!(ac.reference_type, ReferenceType::Filepath);
    assert_eq!(ac.reference_token.as_deref(), Some("@src/ma"));
    assert_eq!(ac.reference_token_index, 5);
    assert!(ac.is_displayed());
}

#[test]
fn a_slash_token_later_in_the_message_is_not_displayed() {
    let state = editing_state("see /cre");
    let ac = &state.autocomplete_state;
    assert_eq!(ac.reference_type, ReferenceType::Command);
    assert_eq!(ac.reference_token_index, 4);
    assert!(!ac.is_displayed());
}

#[test]
fn a_plain_word_clears_the_reference_and_options() {
    let mut state = editing_state("@x");
    state.autocomplete_state.set_options(vec!["x.txt".to_string()]);
    press(&mut state, KeyCode::Char(' '));
    press(&mut state, KeyCode::Char('y'));
    let ac = &state.autocomplete_state;
    assert_eq!(ac.reference_type, ReferenceType::NoReference);
    assert_eq!(ac.reference_token, None);
    assert!(ac.options.is_empty());
}

#[test]
fn detect_token_returns_the_reference_under_the_cursor() {
    let mut state = TextInputState::new();
    state.input = "open @notes.md now".to_string();
    state.character_index = 8;
    let token = TextInput::detect_token(&mut state);
    assert_eq!(token.as_deref(), Some("@notes.md"));
    state.character_index = 17;
    assert_eq!(TextInput::detect_token(&mut state), None);
    state.character_index = 40;
    assert_eq!(TextInput::detect_token(&mut state), None);
}

#[test]
fn down_and_up_move_the_highlighted_option() {
    let mut state = editing_state("/");
    state.autocomplete_state.set_options(vec!["a".to_string(), "b".to_string()]);
    press(&mut state, KeyCode::Down);
    assert_eq!(state.autocomplete_state.current_index, 1);
    assert_eq!(state.autocomplete_state.get_selected_option(), "b");
    press(&mut state, KeyCode::Up);
    assert_eq!(state.autocomplete_state.current_index, 0);
    assert_eq!(state.autocomplete_state.get_selected_option(), "a");
}

#[test]
fn tab_replaces_the_token_with_the_highlighted_option() {
    let mut state = editing_state("/cr");
    state
        .autocomplete_state
        .set_options(vec!["list-models".to_string(), "create-assistant".to_string()]);
    press(&mut state, KeyCode::Down);
    press(&mut state, KeyCode::Tab);
    assert_eq!(state.input, "/create-assistant");
    assert_eq!(state.character_index, 17);
    assert!(state.autocomplete_state.options.is_empty());
    assert_eq!(state.autocomplete_state.current_index, 0);
}

#[test]
fn tab_on_a_file_reference_keeps_the_text_around_it() {
    let mut state = editing_state("read @ma now");
    for _ in 0..4 {
        press(&mut state, KeyCode::Left);
    }
    assert_eq!(state.autocomplete_state.reference_token.as_deref(), Some("@ma"));
    state.autocomplete_state.set_options(vec!["main.rs".to_string()]);
    press(&mut state, KeyCode::Tab);
    assert_eq!(state.input, "read @main.rs now");
    assert_eq!(state.character_index, 17);
}

#[test]
fn reset_clears_text_cursor_and_popup() {
    let mut state = editing_state("/li");
    state.reset();
    assert_eq!(state.input, "");
    assert_eq!(state.character_index, 0);
    assert_eq!(state.autocomplete_state.reference_type, ReferenceType::NoReference);
    assert_eq!(state.input_mode, InputMode::Editing);
}

#[test]
fn a_slash_later_in_the_message_is_plain_text() {
    let mut state = editing_state("see a/list-models");
    let action = press(&mut state, KeyCode::Enter);
    assert_eq!(action, InputAction::Submit(SubmitData::Text("see a/list-models".to_string())));
}

#[test]
fn a_command_is_named_up_to_the_next_slash() {
    let mut state = editing_state("  /list-models/extra ");
    let action = press(&mut state, KeyCode::Enter);
    assert!(matches!(
        action,
        InputAction::Submit(SubmitData::Command(Command::ListModels(_)))
    ));
    let mut state = editing_state("/unknown");
    let action = press(&mut state, KeyCode::Enter);
    assert_eq!(action, InputAction::Submit(SubmitData::Text("/unknown".to_string())));
}

#[test]
fn tab_on_a_command_suggestion_inserts_only_its_name() {
    let mode = InputMode::Editing;
    let label = InputLabelWidget::new(&mode);
    let mut state = editing_state("/li");
    label.set_commands_autocomplete(&mut state, "/li".to_string(), &mut DebugLogger::new(), false);
    assert_eq!(
        state.autocomplete_state.options,
        vec!["list-models      - List all available models"]
    );
    press(&mut state, KeyCode::Tab);
    assert_eq!(state.input, "/list-models");
    assert_eq!(state.character_index, 12);
    let action = press(&mut state, KeyCode::Enter);
    assert!(matches!(
        action,
        InputAction::Submit(SubmitData::Command(Command::ListModels(_)))
    ));
}

#[test]
fn tab_on_a_file_suggestion_inserts_the_whole_path() {
    let mut state = editing_state("@my");
    state.autocomplete_state.set_options(vec!["./my file.txt".to_string()]);
    press(&mut state, KeyCode::Tab);
    assert_eq!(state.input, "@./my file.txt");
}
