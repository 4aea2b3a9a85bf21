pub mod assistant_config;
pub mod autocomplete_state;
pub mod chat_action;
pub mod clock;
pub mod command;
pub mod debug_logger;
pub mod key;
pub mod messages_storage;
pub mod text;
pub mod text_input_state;
pub mod window_state;
