use ollama_harness::services::chat::{build_request, strip_think_blocks, OutgoingRole};
use ollama_harness::shared::assistant_config::{ActiveAssistant, AssistantConfig};
use ollama_harness::shared::clock::ClockTime;
use ollama_harness::widgets::message_list::{ChatMessage, ChatRole};

fn message(role: ChatRole, content: &str) -> ChatMessage {
    ChatMessage {
        role,
        content: content.to_string(),
        timestamp: ClockTime { hour: 9, minute: 5, second: 0 },
    }
}

fn assistant() -> ActiveAssistant {
    ActiveAssistant {
        path: "harness_configs/helper.yml".to_string(),
        config: AssistantConfig {
            name: "helper".to_string(),
            model: "llama3".to_string(),
            system_prompt_path: "~/prompt.md".to_string(),
            use_rag: false,
        },
        system_prompt: "Be brief.".to_string(),
    }
}

#[test]
fn strip_removes_a_think_block() {
    assert_eq!(strip_think_blocks("a<think>x</think>b"), "ab");
}

#[test]
fn strip_removes_every_think_block_and_trims() {
    let reply = "<think>plan</think>\n  Hello <think>more</think>world  \n";
    assert_eq!(strip_think_blocks(reply), "Hello world");
}

#[test]
fn strip_cuts_an_unclosed_block_to_the_end() {
    assert_eq!(strip_think_blocks("Answer: 42 <think>still thinking"), "Answer: 42");
}

#[test]
fn strip_keeps_a_reply_without_blocks() {
    assert_eq!(strip_think_blocks("  plain reply "), "plain reply");
    assert_eq!(strip_think_blocks(""), "");
}

#[test]
fn strip_handles_a_closing_tag_before_the_opening_one() {
    assert_eq!(strip_think_blocks("x</think>y<think>z</think>w"), "x</think>yw");
}

#[test]
fn cleaning_twice_is_cleaning_once() {
    let samples = [
        "<think>a</think>  b <think>c",
        "  <thi<think>nk>x</think>y ",
        "no tags at all",
        "<think></think><think>",
    ];
    for s in samples {
        let once = strip_think_blocks(s);
        assert_eq!(strip_think_blocks(&once), once);
        assert!(!once.contains("<think>"));
    }
}

#[test]
fn request_starts_with_the_system_prompt_and_skips_app_notices() {
    let history = vec![
        message(ChatRole::App, "Active assistant: helper (llama3)"),
        message(ChatRole::User, "hi"),
        message(ChatRole::Assistant, "hello"),
        message(ChatRole::App, "Thinking…"),
        message(ChatRole::User, "how are you?"),
    ];
    let request = build_request(&assistant(), &history);
    assert_eq!(request.model, "llama3");
    let seen: Vec<(OutgoingRole, String)> =
        request.messages.iter().map(|m| (m.role, m.content.clone())).collect();
    assert_eq!(
        seen,
        vec![
            (OutgoingRole::System, "Be brief.".to_string()),
            (OutgoingRole::User, "hi".to_string()),
            (OutgoingRole::Assistant, "hello".to_string()),
            (OutgoingRole::User, "how are you?".to_string()),
        ]
    );
}

#[test]
fn request_for_an_empty_history_holds_only_the_system_prompt() {
    let request = build_request(&assistant(), &[]);
    assert_eq!(request.messages.len(), 1);
    assert_eq!(request.messages[0].role, OutgoingRole::System);
    assert_eq!(request.messages[0].content, "Be brief.");
}
