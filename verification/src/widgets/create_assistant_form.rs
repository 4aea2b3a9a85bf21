//! The steps of the create-assistant form and the answers given so far.

use crate::shared::text::{wrap_text, wrapped_lines};
use crate::shared::text_input_state::TextInputState;
use crate::widgets::message_list::{max_byte_len, str_len};
use crate::widgets::select::SelectState;
use vstd::prelude::*;

verus! {

#[derive(Debug, Clone, Copy, PartialEq, Eq, Structural)]
pub enum CreateAssistantFormStep {
    Name,
    Model,
    SystemPromptPath,
    UseRag,
    EmbeddingModel,
    RagFilesPath,
    Confirmation,
    Completed,
}

pub struct CreateAssistantFormWidgetState {
    pub step: CreateAssistantFormStep,
    pub name: String,
    pub model: String,
    pub system_prompt_path: String,
    pub use_rag: bool,
    pub embedding_model: Option<String>,
    pub rag_files_path: Option<String>,
    pub input_state: TextInputState,
    pub select_state: SelectState,
    /// The answers given so far, as (label, value).
    pub history: Vec<(String, String)>,
    /// The complaint about the last answer, if it was refused.
    pub error: Option<String>,
}

/// The (label, value) texts of the form's history.
pub open spec fn history_view(h: Seq<(String, String)>) -> Seq<(Seq<char>, Seq<char>)> {
    h.map_values(|e: (String, String)| (e.0@, e.1@))
}

pub struct CreateAssistantFormWidget;

impl CreateAssistantFormWidget {
    /// The rows the current step takes: ten for the model list, three for a
    /// text field.
    pub fn step_height(step: CreateAssistantFormStep) -> (r: u16)
        ensures
            r == if step == CreateAssistantFormStep::Model {
                10u16
            } else {
                3u16
            },
    {
        match step {
            CreateAssistantFormStep::Model => 10,
            _ => 3,
        }
    }

    /// The width a text step's label takes: its widest line when wrapped at
    /// 2000 columns.
    pub fn label_width(label_text: &str) -> (r: usize)
        ensures
            r == max_byte_len(wrapped_lines(label_text@, 2000)),
    {
        let wrapped = wrap_text(label_text, 2000);
        let ghost lines = wrapped_lines(label_text@, 2000);
        let mut width: usize = 0;
        let mut k: usize = 0;
        while k < wrapped.len()
            invariant
                k <= wrapped@.len(),
                wrapped@.map_values(|l: String| l@) == lines,
                width == max_byte_len(lines.subrange(0, k as int)),
            decreases wrapped@.len() - k,
        {
            let len = wrapped[k].as_str().len();
            assert(lines.subrange(0, k + 1).drop_last() =~= lines.subrange(0, k as int));
            assert(lines[k as int] == wrapped@[k as int]@);
            if len > width {
                width = len;
            }
            k = k + 1;
        }
        assert(lines.subrange(0, lines.len() as int) =~= lines);
        width
    }
}

} // verus!
