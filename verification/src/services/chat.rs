//! Chat with the active assistant: what is sent to the model and how its
//! reply is cleaned up.

use crate::shared::assistant_config::ActiveAssistant;
use crate::shared::text::{
    chars_of, extend_chars, find, find_spec, lemma_find_from, occurs_at, string_of, subvec, trim,
    trim_spec,
};
use crate::widgets::message_list::{ChatMessage, ChatRole};
use vstd::prelude::*;
use vstd::string::StringExecFns;

verus! {

/// The tag that opens a reasoning block in a model's reply.
pub open spec fn think_open() -> Seq<char> {
    seq!['<', 't', 'h', 'i', 'n', 'k', '>']
}

/// The tag that closes a reasoning block.
pub open spec fn think_close() -> Seq<char> {
    seq!['<', '/', 't', 'h', 'i', 'n', 'k', '>']
}

/// `s` with its reasoning blocks cut out: repeatedly, the first `<think>` up to
/// the end of the first `</think>` after it goes; an unclosed `<think>` cuts
/// the rest of the text.
pub open spec fn without_think_blocks(s: Seq<char>) -> Seq<char>
    decreases s.len(),
{
    match find_spec(s, think_open()) {
        None => s,
        Some(start) => {
            let rest = s.subrange(start, s.len() as int);
            match find_spec(rest, think_close()) {
                Some(end) => {
                    proof {
                        lemma_find_from(s, think_open(), 0);
                        lemma_find_from(rest, think_close(), 0);
                    }
                    without_think_blocks(
                        s.subrange(0, start) + s.subrange(start + end + 8, s.len() as int),
                    )
                },
                None => s.subrange(0, start),
            }
        },
    }
}

/// A model reply as the chat shows it: reasoning blocks removed, then trimmed.
pub open spec fn cleaned_reply(s: Seq<char>) -> Seq<char> {
    trim_spec(without_think_blocks(s))
}

/// Who says a message sent to the model.
#[derive(Debug, Clone, Copy, PartialEq, Eq, Structural)]
pub enum OutgoingRole {
    System,
    User,
    Assistant,
}

/// One message of a chat request.
pub struct OutgoingMessage {
    pub role: OutgoingRole,
    pub content: String,
}

/// The messages of the history the model sees: the user's and the assistant's,
/// in order; the application's own notices are left out.
pub open spec fn model_turns(history: Seq<ChatMessage>) -> Seq<(OutgoingRole, Seq<char>)>
    decreases history.len(),
{
    if history.len() == 0 {
        Seq::empty()
    } else {
        let m = history.last();
        let rest = model_turns(history.drop_last());
        match m.role {
            ChatRole::User => rest.push((OutgoingRole::User, m.content@)),
            ChatRole::Assistant => rest.push((OutgoingRole::Assistant, m.content@)),
            ChatRole::App => rest,
        }
    }
}

/// The role and text of each outgoing message.
pub open spec fn outgoing_view(v: Seq<OutgoingMessage>) -> Seq<(OutgoingRole, Seq<char>)> {
    v.map_values(|m: OutgoingMessage| (m.role, m.content@))
}

/// A chat request: the model to ask and the messages to send it.
pub struct ChatRequest {
    pub model: String,
    pub messages: Vec<OutgoingMessage>,
}

/// The request that asks `assistant`'s model to answer `history`: its system
/// prompt first, then the turns of the conversation.
pub fn build_request(assistant: &ActiveAssistant, history: &[ChatMessage]) -> (r: ChatRequest)
    ensures
        r.model@ == assistant.config.model@,
        outgoing_view(r.messages@) == seq![(OutgoingRole::System, assistant.system_prompt@)]
            + model_turns(history@),
{
    let mut messages: Vec<OutgoingMessage> = Vec::new();
    messages.push(
        OutgoingMessage { role: OutgoingRole::System, content: assistant.system_prompt.clone() },
    );
    let ghost head = seq![(OutgoingRole::System, assistant.system_prompt@)];
    assert(outgoing_view(messages@) =~= head + model_turns(history@.subrange(0, 0)));
    let mut i: usize = 0;
    while i < history.len()
        invariant
            i <= history@.len(),
            head == seq![(OutgoingRole::System, assistant.system_prompt@)],
            outgoing_view(messages@) == head + model_turns(history@.subrange(0, i as int)),
        decreases history@.len() - i,
    {
        let message = &history[i];
        let ghost prev = messages@;
        assert(history@.subrange(0, i + 1).drop_last() =~= history@.subrange(0, i as int));
        match message.role {
            ChatRole::User => {
                messages.push(
                    OutgoingMessage { role: OutgoingRole::User, content: message.content.clone() },
                );
                assert(outgoing_view(messages@) =~= outgoing_view(prev).push(
                    (OutgoingRole::User, message.content@),
                ));
            },
            ChatRole::Assistant => {
                messages.push(
                    OutgoingMessage {
                        role: OutgoingRole::Assistant,
                        content: message.content.clone(),
                    },
                );
                assert(outgoing_view(messages@) =~= outgoing_view(prev).push(
                    (OutgoingRole::Assistant, message.content@),
                ));
            },
            ChatRole::App => {},
        }
        i = i + 1;
    }
    assert(history@.subrange(0, history@.len() as int) =~= history@);
    ChatRequest { model: assistant.config.model.clone(), messages }
}

/// Removes the model's reasoning blocks from a reply and trims it.
pub fn strip_think_blocks(content: &str) -> (r: String)
    ensures
        r@ == cleaned_reply(content@),
{
    let open: Vec<char> = vec!['<', 't', 'h', 'i', 'n', 'k', '>'];
    let close: Vec<char> = vec!['<', '/', 't', 'h', 'i', 'n', 'k', '>'];
    assert(open@ =~= think_open());
    assert(close@ =~= think_close());
    let ghost target = without_think_blocks(content@);
    let mut result = chars_of(content);
    loop
        invariant_except_break
            without_think_blocks(result@) == target,
        invariant
            open@ == think_open(),
            close@ == think_close(),
        ensures
            result@ == target,
        decreases result@.len(),
    {
        match find(&result, &open) {
            None => {
                break;
            },
            Some(start) => {
                let n = result.len();
                let rest = subvec(&result, start, n);
                match find(&rest, &close) {
                    Some(end) => {
                        proof {
                            lemma_find_from(result@, think_open(), 0);
                            lemma_find_from(rest@, think_close(), 0);
                        }
                        let mut next = subvec(&result, 0, start);
                        let tail = subvec(&result, start + end + 8, n);
                        extend_chars(&mut next, &tail);
                        result = next;
                    },
                    None => {
                        result = subvec(&result, 0, start);
                        break;
                    },
                }
            },
        }
    }
    let text = string_of(&result);
    String::from_str(trim(text.as_str()))
}

} // verus!
