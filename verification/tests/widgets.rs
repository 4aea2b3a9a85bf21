use ollama_harness::services::file_explorer::{path_ref, FileExplorer, PathRef};
use ollama_harness::shared::autocomplete_state::{AutocompleteState, ReferenceType};
use ollama_harness::shared::clock::ClockTime;
use ollama_harness::shared::command::{commands, Command};
use ollama_harness::shared::debug_logger::DebugLogger;
use ollama_harness::shared::messages_storage::{MessagesStorage, WELCOME_MESSAGE};
use ollama_harness::shared::text_input_state::{InputMode, TextInputState};
use ollama_harness::widgets::debug_block::DebugBlockWidget;
use ollama_harness::widgets::input_label::{InputLabelWidget, LabelContent};
use ollama_harness::widgets::message_list::{
    ChatMessage, ChatRole, MessageListState, MessageListWidget,
};

fn at(hour: u32, minute: u32, second: u32) -> ClockTime {
    ClockTime { hour, minute, second }
}

fn message(role: ChatRole, content: &str) -> ChatMessage {
    ChatMessage { role, content: content.to_string(), timestamp: at(9, 5, 0) }
}

#[test]
fn clock_time_is_written_with_two_digits_each() {
    assert_eq!(at(9, 5, 0).format_hms(), "09:05:00");
    assert_eq!(at(23, 59, 59).format_hms(), "23:59:59");
    assert_eq!(at(0, 0, 0).format_hms(), "00:00:00");
}

#[test]
fn command_metadata_names_and_descriptions() {
    let all = commands();
    assert_eq!(all.len(), 4);
    let names: Vec<&str> = all.iter().map(|c| c.metadata().name).collect();
    assert_eq!(names, vec!["list-models", "create-assistant", "select-assistant", "remove-assistant"]);
    assert_eq!(all[1].metadata().description, "Create a new assistant");
    assert!(matches!(all[3], Command::RemoveAssistant(_)));
    assert_eq!(all[3].metadata().description, "Remove one or more assistants");
}

#[test]
fn autocomplete_state_basics() {
    let mut ac = AutocompleteState::new();
    assert!(!ac.is_displayed());
    assert_eq!(ac.get_selected_option(), "");
    assert_eq!(AutocompleteState::get_reference_type_from_token("@a"), ReferenceType::Filepath);
    assert_eq!(AutocompleteState::get_reference_type_from_token("/a"), ReferenceType::Command);
    assert_eq!(AutocompleteState::get_reference_type_from_token("a/"), ReferenceType::NoReference);
    assert_eq!(AutocompleteState::get_reference_type_from_token(""), ReferenceType::NoReference);
    ac.set_options(vec!["one".to_string(), "two".to_string()]);
    ac.increment_current_index();
    assert_eq!(ac.get_selected_option(), "two");
    ac.increment_current_index();
    assert_eq!(ac.get_selected_option(), "");
    ac.decrement_current_index();
    ac.decrement_current_index();
    assert_eq!(ac.current_index, 0);
    ac.set_current_index(1);
    assert_eq!(ac.get_selected_option(), "two");
    ac.set_reference_token(Some("/x".to_string()), 3, ReferenceType::Command);
    assert!(!ac.is_displayed());
    ac.set_reference_token(Some("/x".to_string()), 0, ReferenceType::Command);
    assert!(ac.is_displayed());
    ac.set_reference_token(Some("@x".to_string()), 7, ReferenceType::Filepath);
    assert!(ac.is_displayed());
}

#[test]
fn command_options_match_the_typed_prefix() {
    let mode = InputMode::Editing;
    let label = InputLabelWidget::new(&mode);
    let mut state = TextInputState::new();
    label.set_commands_autocomplete(&mut state, "/cr".to_string(), &mut DebugLogger::new(), false);
    assert_eq!(state.autocomplete_state.options, vec!["create-assistant - Create a new assistant"]);
    label.set_commands_autocomplete(&mut state, "/".to_string(), &mut DebugLogger::new(), false);
    assert_eq!(
        state.autocomplete_state.options,
        vec![
            "list-models      - List all available models",
            "create-assistant - Create a new assistant",
            "select-assistant - Select an assistant to chat with",
            "remove-assistant - Remove one or more assistants",
        ]
    );
    label.set_commands_autocomplete(&mut state, "/zz".to_string(), &mut DebugLogger::new(), false);
    assert!(state.autocomplete_state.options.is_empty());
}

#[test]
fn file_options_keep_the_entries_that_contain_the_path() {
    let mode = InputMode::Editing;
    let label = InputLabelWidget::new(&mode);
    let mut state = TextInputState::new();
    let entries = vec!["./src/".to_string(), "./README.md".to_string(), "./src.txt".to_string()];
    label.set_filepath_autocomplete(&mut state, "src", entries);
    assert_eq!(state.autocomplete_state.options, vec!["./src/", "./src.txt"]);
}

#[test]
fn filepath_query_splits_off_the_home_marker() {
    let mode = InputMode::Editing;
    let label = InputLabelWidget::new(&mode);
    match label.filepath_query("@~/notes") {
        PathRef::UnderHome(rest) => assert_eq!(rest, "/notes"),
        PathRef::Plain(p) => panic!("expected a home path, got {p}"),
    }
    match label.filepath_query("@src/ma") {
        PathRef::Plain(p) => assert_eq!(p, "src/ma"),
        PathRef::UnderHome(rest) => panic!("expected a plain path, got {rest}"),
    }
    assert!(matches!(path_ref(""), PathRef::Plain(p) if p.is_empty()));
}

#[test]
fn label_content_follows_the_recorded_token() {
    let mode = InputMode::Editing;
    let label = InputLabelWidget::new(&mode);
    let mut state = TextInputState::new();
    assert!(matches!(label.content(&state), LabelContent::HelpText));
    state.input = "/cr".to_string();
    state.autocomplete_state.set_reference_token(Some("/cr".to_string()), 0, ReferenceType::Command);
    assert!(matches!(label.content(&state), LabelContent::Commands(t) if t == "/cr"));
    state.input = "see /cr".to_string();
    state.autocomplete_state.set_reference_token(Some("/cr".to_string()), 4, ReferenceType::Command);
    assert!(matches!(label.content(&state), LabelContent::HelpText));
    state.autocomplete_state.set_reference_token(Some("@sr".to_string()), 4, ReferenceType::Filepath);
    assert!(matches!(label.content(&state), LabelContent::Filepaths(t) if t == "@sr"));
}

#[test]
fn popup_window_keeps_the_highlighted_option_in_view() {
    let mut state = TextInputState::new();
    let options: Vec<String> = (0..10).map(|i| format!("opt{i}")).collect();
    state.autocomplete_state.set_options(options);
    state.autocomplete_state.set_current_index(7);
    let (total, start, end, current, shown) =
        InputLabelWidget::prepare_autocomplete_options(&mut state, 3);
    assert_eq!((total, start, end, current), (10, 5, 8, 7));
    assert_eq!(shown.len(), 10);

    state.autocomplete_state.set_current_index(25);
    let (total, start, end, current, _) = InputLabelWidget::prepare_autocomplete_options(&mut state, 4);
    assert_eq!((total, start, end, current), (10, 6, 10, 9));
    assert_eq!(state.autocomplete_state.current_index, 9);

    state.autocomplete_state.set_current_index(0);
    let (_, start, end, current, _) = InputLabelWidget::prepare_autocomplete_options(&mut state, 0);
    assert_eq!((start, end, current), (0, 1, 0));
}

#[test]
fn file_explorer_path_helpers() {
    let explorer = FileExplorer::new();
    assert_eq!(explorer.normalize_path(""), ".");
    assert_eq!(explorer.normalize_path("src"), "src");
    assert_eq!(explorer.root_dir("src", true), "src");
    assert_eq!(explorer.root_dir("src/ma", false), "src");
    assert_eq!(explorer.root_dir("ma", false), "");
    assert_eq!(explorer.root_dir("/", false), "/");
    assert_eq!(explorer.entry_label("./src".to_string(), true), "./src/");
    assert_eq!(explorer.entry_label("./a.rs".to_string(), false), "./a.rs");
}

#[test]
fn message_bubbles_frame_the_wrapped_text() {
    let messages = vec![message(ChatRole::App, "hi"), message(ChatRole::User, "hi")];
    let widget = MessageListWidget::new(&messages);
    let rows = widget.rows(40, 30);
    let texts: Vec<String> = rows.iter().map(|r| r.text.clone()).collect();
    let dashes = "─".repeat(16);
    let pad = " ".repeat(12);
    assert_eq!(
        texts,
        vec![
            format!("╭{dashes}╮"),
            "│ [09:05:00]: hi │ ".to_string(),
            format!("╰{dashes}╯"),
            format!("{pad}╭{dashes}╮"),
            format!("{pad}│ [09:05:00]: hi │ "),
            format!("{pad}╰{dashes}╯"),
        ]
    );
    assert_eq!(rows[0].role, ChatRole::App);
    assert_eq!(rows[5].role, ChatRole::User);
}

#[test]
fn long_messages_wrap_and_pad_their_lines() {
    let messages = vec![message(ChatRole::App, "aaa bbb")];
    let rows = MessageListWidget::new(&messages).rows(12, 80);
    let texts: Vec<String> = rows.iter().map(|r| r.text.clone()).collect();
    assert_eq!(
        texts,
        vec![
            format!("╭{}╮", "─".repeat(13)),
            "│ [09:05:00]: │ ".to_string(),
            "│ aaa bbb     │ ".to_string(),
            format!("╰{}╯", "─".repeat(13)),
        ]
    );
}

#[test]
fn scrolling_stays_within_the_text() {
    let mut list = MessageListState::new();
    list.sync_layout(10, 4, false);
    assert_eq!(list.scroll_offset, 0);
    list.scroll_up();
    assert_eq!(list.scroll_offset, 0);
    for _ in 0..10 {
        list.scroll_down();
    }
    assert_eq!(list.scroll_offset, 6);
    list.scroll_up();
    assert_eq!(list.scroll_offset, 5);
    list.scroll_down();
    assert_eq!(list.scroll_offset, 6);
    list.sync_layout(12, 4, true);
    assert_eq!(list.scroll_offset, 8);
}

#[test]
fn short_history_does_not_scroll() {
    let mut list = MessageListState::new();
    list.sync_layout(3, 4, true);
    list.scroll_down();
    list.scroll_up();
    assert_eq!(list.scroll_offset, 0);
}

#[test]
fn history_starts_with_the_welcome_message() {
    let mut storage = MessagesStorage::default();
    assert_eq!(storage.entries.len(), 1);
    assert_eq!(storage.entries[0].role, ChatRole::App);
    assert_eq!(storage.entries[0].content, WELCOME_MESSAGE);
    storage.append_message(ChatRole::User, "hello".to_string());
    assert_eq!(storage.entries.len(), 2);
    assert_eq!(storage.entries[1].content, "hello");
    let t = storage.entries[1].timestamp;
    assert!(t.hour < 24 && t.minute < 60 && t.second < 60);
}

#[test]
fn debug_logger_marks_messages_from_a_poisoned_lock() {
    let mut logger = DebugLogger::new();
    logger.log("first".to_string());
    logger.safe_log(false, "second".to_string());
    logger.safe_log(true, "third".to_string());
    assert_eq!(
        logger.get_messages(false),
        vec!["first", "second", "(POISONED MUTEX) third"]
    );
    assert!(logger.get_messages(true).is_empty());
}

#[test]
fn debug_block_scrolls_to_the_last_rows() {
    let block = DebugBlockWidget::new(vec!["one two three".to_string(), "four".to_string()]);
    assert_eq!(block.messages().len(), 2);
    assert_eq!(block.scroll_rows(5, 1), 3);
    assert_eq!(block.scroll_rows(80, 1), 1);
    assert_eq!(block.scroll_rows(80, 5), 0);
}

#[test]
fn command_autocomplete_logs_the_token() {
    let mode = InputMode::Editing;
    let label = InputLabelWidget::new(&mode);
    let mut state = TextInputState::new();
    let mut logger = DebugLogger::new();
    label.set_commands_autocomplete(&mut state, "/s".to_string(), &mut logger, false);
    assert_eq!(state.autocomplete_state.options, vec!["select-assistant - Select an assistant to chat with"]);
    label.set_commands_autocomplete(&mut state, "/r".to_string(), &mut logger, true);
    assert_eq!(logger.get_messages(false), vec!["/s", "(POISONED MUTEX) /r"]);
}

#[test]
fn layout_records_the_number_of_rows() {
    let messages = vec![message(ChatRole::App, "hi"), message(ChatRole::User, "aaa bbb")];
    let mut list = MessageListState::new();
    let rows = MessageListWidget::new(&messages).layout(&mut list, 12, 30, 4, false);
    assert_eq!(rows.len(), 8);
    assert_eq!(list.text_height, 8);
    assert_eq!(list.container_height, 4);
    assert_eq!(list.scroll_offset, 0);
    MessageListWidget::new(&messages).layout(&mut list, 12, 30, 4, true);
    assert_eq!(list.scroll_offset, 4);
}
