use ollama_harness::services::chat::OutgoingRole;
use ollama_harness::session::{App, Effect};
use ollama_harness::shared::assistant_config::{AssistantConfig, StoredAssistant};
use ollama_harness::shared::command::Command;
use ollama_harness::shared::key::{KeyCode, KeyEvent};
use ollama_harness::shared::messages_storage::WELCOME_MESSAGE;
use ollama_harness::shared::text_input_state::InputMode;
use ollama_harness::shared::window_state::WindowState;
use ollama_harness::widgets::create_assistant_form::CreateAssistantFormStep;
use ollama_harness::widgets::message_list::ChatRole;

fn key(app: &mut App, code: KeyCode) -> Effect {
    app.handle_key(KeyEvent::pressed(code))
}

fn type_text(app: &mut App, text: &str) {
    for c in text.chars() {
        assert!(matches!(key(app, KeyCode::Char(c)), Effect::NoEffect));
    }
}

fn submit(app: &mut App, text: &str) -> Effect {
    type_text(app, text);
    key(app, KeyCode::Enter)
}

fn last_message(app: &App) -> (ChatRole, String) {
    let m = app.messages.entries.last().unwrap();
    (m.role, m.content.clone())
}

fn stored(path: &str, name: &str) -> StoredAssistant {
    StoredAssistant {
        path: path.to_string(),
        config: AssistantConfig {
            name: name.to_string(),
            model: "llama3".to_string(),
            system_prompt_path: "p.md".to_string(),
            use_rag: false,
        },
    }
}

fn editing_app() -> App {
    let mut app = App::new();
    key(&mut app, KeyCode::Char('e'));
    app
}

fn with_active_assistant() -> App {
    let mut app = editing_app();
    app.on_system_prompt_loaded(stored("h.yml", "helper"), Ok("Be brief.".to_string()));
    app
}

#[test]
fn new_session_shows_the_welcome_message_in_normal_mode() {
    let app = App::new();
    assert_eq!(app.window_state, WindowState::Default);
    assert_eq!(app.input_state.input_mode, InputMode::Normal);
    assert_eq!(app.messages.entries.len(), 1);
    assert!(app.messages.entries[0].content.starts_with("Welcome to ollama-harness!"));
    assert!(app.active_assistant.is_none());
}

#[test]
fn normal_mode_keys_edit_quit_and_scroll() {
    let mut app = App::new();
    assert!(matches!(key(&mut app, KeyCode::Char('x')), Effect::NoEffect));
    assert!(matches!(key(&mut app, KeyCode::Char('q')), Effect::Quit));
    app.message_list_state.sync_layout(10, 4, false);
    key(&mut app, KeyCode::Down);
    key(&mut app, KeyCode::Down);
    key(&mut app, KeyCode::Up);
    assert_eq!(app.message_list_state.scroll_offset, 1);
    key(&mut app, KeyCode::Char('e'));
    assert_eq!(app.input_state.input_mode, InputMode::Editing);
    key(&mut app, KeyCode::Esc);
    assert_eq!(app.input_state.input_mode, InputMode::Normal);
}

#[test]
fn key_releases_are_ignored_while_editing() {
    let mut app = editing_app();
    let release = KeyEvent { code: KeyCode::Char('a'), alt: false, press: false };
    assert!(matches!(app.handle_key(release), Effect::NoEffect));
    assert_eq!(app.input_state.input, "");
}

#[test]
fn text_without_an_assistant_asks_to_select_one() {
    let mut app = editing_app();
    assert!(matches!(submit(&mut app, "hello"), Effect::NoEffect));
    let n = app.messages.entries.len();
    assert_eq!(n, 3);
    assert_eq!(app.messages.entries[1].role, ChatRole::User);
    assert_eq!(app.messages.entries[1].content, "hello");
    assert_eq!(
        last_message(&app),
        (ChatRole::App, "Select an assistant with /select-assistant to chat.".to_string())
    );
    assert!(!app.pending_reply);
    assert_eq!(app.input_state.input, "");
}

#[test]
fn blank_text_is_not_sent() {
    let mut app = editing_app();
    submit(&mut app, "   ");
    assert_eq!(app.messages.entries.len(), 1);
}

#[test]
fn text_with_an_assistant_waits_for_the_reply() {
    let mut app = with_active_assistant();
    assert_eq!(app.messages.entries.len(), 1);
    assert_eq!(last_message(&app), (ChatRole::App, "Active assistant: helper (llama3)".to_string()));
    submit(&mut app, " hi there ");
    assert!(app.pending_reply);
    assert_eq!(last_message(&app), (ChatRole::App, "Thinking…".to_string()));
    assert_eq!(app.messages.entries[1].content, "hi there");

    let request = app.take_pending_reply().expect("a request should be pending");
    assert!(!app.pending_reply);
    assert!(app.take_pending_reply().is_none());
    assert_eq!(request.model, "llama3");
    let roles: Vec<OutgoingRole> = request.messages.iter().map(|m| m.role).collect();
    assert_eq!(roles, vec![OutgoingRole::System, OutgoingRole::User]);
    assert_eq!(request.messages[1].content, "hi there");

    app.on_reply(Ok("<think>hmm</think> Hello! ".to_string()));
    assert_eq!(app.messages.entries.len(), 3);
    assert_eq!(last_message(&app), (ChatRole::Assistant, "Hello!".to_string()));
}

#[test]
fn a_failed_reply_replaces_the_thinking_notice_with_the_error() {
    let mut app = with_active_assistant();
    submit(&mut app, "hi");
    app.take_pending_reply();
    app.on_reply(Err("connection refused".to_string()));
    assert_eq!(last_message(&app), (ChatRole::App, "Error: connection refused".to_string()));
    assert_eq!(app.messages.entries.len(), 3);
}

#[test]
fn list_models_command_asks_for_the_models() {
    let mut app = editing_app();
    assert!(matches!(submit(&mut app, "/list-models"), Effect::ListModels));
    app.on_models_listed(Ok(vec!["llama3".to_string(), "qwen".to_string()]));
    assert_eq!(
        last_message(&app),
        (ChatRole::App, "Available models:\n\n> llama3;\n> qwen;".to_string())
    );
    app.on_models_listed(Err("ollama is not running".to_string()));
    assert_eq!(last_message(&app), (ChatRole::App, "ollama is not running".to_string()));
}

#[test]
fn create_assistant_command_opens_the_journey_and_saves() {
    let mut app = editing_app();
    app.models = vec!["llama3".to_string()];
    submit(&mut app, "/create-assistant");
    assert!(matches!(app.window_state, WindowState::CommandFlow(Command::CreateAssistant(_))));
    app.ensure_create_journey();
    {
        let journey = app.assistant_journey_state.as_ref().unwrap();
        assert_eq!(journey.wrapper_state.child_state.step, CreateAssistantFormStep::Name);
        assert_eq!(journey.wrapper_state.child_state.select_state.items, vec!["llama3"]);
    }
    submit(&mut app, "bot");
    key(&mut app, KeyCode::Enter);
    submit(&mut app, "p.md");
    let effect = submit(&mut app, "n");
    let config = match effect {
        Effect::SaveAssistant(config) => config,
        _ => panic!("the journey should ask to save the assistant"),
    };
    assert_eq!(config.name, "bot");
    assert_eq!(config.model, "llama3");
    assert!(app.messages.entries.len() == 1);
    app.on_assistant_saved(config, Ok("harness_configs/bot.yml".to_string()));
    assert_eq!(app.window_state, WindowState::Default);
    assert!(app.assistant_journey_state.is_none());
    assert_eq!(
        last_message(&app),
        (ChatRole::App, "Assistant \"bot\" saved to harness_configs/bot.yml".to_string())
    );
}

#[test]
fn esc_closes_a_journey() {
    let mut app = editing_app();
    submit(&mut app, "/create-assistant");
    app.ensure_create_journey();
    assert!(matches!(key(&mut app, KeyCode::Esc), Effect::NoEffect));
    assert_eq!(app.window_state, WindowState::Default);
    assert!(app.assistant_journey_state.is_none());
}

#[test]
fn select_assistant_loads_then_activates_the_choice() {
    let mut app = editing_app();
    let effect = submit(&mut app, "/select-assistant");
    let command = match effect {
        Effect::LoadAssistants(command) => command,
        _ => panic!("the assistants should be loaded"),
    };
    assert!(matches!(command, Command::SelectAssistant(_)));
    app.on_assistants_loaded(
        command,
        Ok((vec![stored("a.yml", "alpha"), stored("b.yml", "beta")], vec!["bad.yml: oops".to_string()])),
    );
    assert_eq!(last_message(&app), (ChatRole::App, "Skipped broken config bad.yml: oops".to_string()));
    assert!(matches!(app.window_state, WindowState::CommandFlow(Command::SelectAssistant(_))));
    key(&mut app, KeyCode::Down);
    let picked = match key(&mut app, KeyCode::Enter) {
        Effect::LoadSystemPrompt(a) => a,
        _ => panic!("the system prompt should be loaded"),
    };
    assert_eq!(picked.path, "b.yml");
    app.on_system_prompt_loaded(picked, Err("p.md: not found".to_string()));
    assert!(app.active_assistant.is_none());
    assert_eq!(app.window_state, WindowState::Default);
    assert_eq!(
        last_message(&app),
        (
            ChatRole::App,
            "Can't use assistant \"beta\", failed to read system prompt p.md: not found".to_string()
        )
    );
}

#[test]
fn loading_no_assistants_says_so() {
    let mut app = editing_app();
    let command = match submit(&mut app, "/remove-assistant") {
        Effect::LoadAssistants(command) => command,
        _ => panic!("the assistants should be loaded"),
    };
    app.on_assistants_loaded(command, Ok((vec![], vec![])));
    assert_eq!(app.window_state, WindowState::Default);
    assert_eq!(
        last_message(&app),
        (ChatRole::App, "No assistants found. Create one with /create-assistant".to_string())
    );
    app.on_assistants_loaded(command, Err("permission denied".to_string()));
    assert_eq!(
        last_message(&app),
        (ChatRole::App, "Failed to load assistants: permission denied".to_string())
    );
}

#[test]
fn removing_the_active_assistant_forgets_it() {
    let mut app = with_active_assistant();
    let command = match submit(&mut app, "/remove-assistant") {
        Effect::LoadAssistants(command) => command,
        _ => panic!("the assistants should be loaded"),
    };
    app.on_assistants_loaded(command, Ok((vec![stored("h.yml", "helper"), stored("o.yml", "other")], vec![])));
    key(&mut app, KeyCode::Char(' '));
    key(&mut app, KeyCode::Down);
    key(&mut app, KeyCode::Char(' '));
    let list = match key(&mut app, KeyCode::Enter) {
        Effect::RemoveAssistants(list) => list,
        _ => panic!("the marked assistants should be removed"),
    };
    assert_eq!(list.len(), 2);
    let results: Vec<(StoredAssistant, Result<(), String>)> = vec![
        (list[0].clone(), Ok(())),
        (list[1].clone(), Err("busy".to_string())),
    ];
    app.on_assistants_removed(results);
    assert!(app.active_assistant.is_none());
    assert_eq!(app.window_state, WindowState::Default);
    let n = app.messages.entries.len();
    assert_eq!(app.messages.entries[n - 2].content, "Assistant \"helper\" removed (h.yml)");
    assert_eq!(app.messages.entries[n - 1].content, "Failed to remove assistant \"other\": busy");
}

#[test]
fn a_failed_removal_keeps_the_active_assistant() {
    let mut app = with_active_assistant();
    app.on_assistants_removed(vec![(stored("h.yml", "helper"), Err("busy".to_string()))]);
    assert!(app.active_assistant.is_some());
    app.on_assistants_removed(vec![(stored("x.yml", "helper"), Ok(()))]);
    assert!(app.active_assistant.is_some());
}

#[test]
fn close_command_flow_returns_to_the_chat() {
    let mut app = editing_app();
    submit(&mut app, "/create-assistant");
    app.close_command_flow();
    assert_eq!(app.window_state, WindowState::Default);
}

#[test]
fn removal_compares_paths_component_by_component() {
    let mut app = editing_app();
    app.on_system_prompt_loaded(stored("cfg/a.yml", "helper"), Ok("Be brief.".to_string()));
    app.on_assistants_removed(vec![(stored("cfg//a.yml", "helper"), Ok(()))]);
    assert!(app.active_assistant.is_none());
}

#[test]
fn new_session_starts_with_the_welcome_text() {
    let app = App::new();
    assert_eq!(app.messages.entries[0].content, WELCOME_MESSAGE);
}
