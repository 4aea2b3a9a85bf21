pub mod create_assistant_form;
pub mod create_assistant_journey;
pub mod generic_journey;
pub mod input;
pub mod message_list;
pub mod select;
pub mod select_assistant_journey;
pub mod remove_assistant_journey;
pub mod input_label;
pub mod debug_block;
