pub mod assistant_configs;
pub mod chat;
pub mod file_explorer;
