//! The failures that prompt construction reports.

use vstd::prelude::*;

verus! {

/// Why a prompt could not be built. Every failure is returned; none comes with
/// a partial prompt.
#[derive(Debug, Clone, PartialEq, Eq)]
pub enum PromptError {
    /// The conversation is empty.
    NoMessages,
    /// An assistant message has neither content nor tool calls.
    NoAssistantMessage,
    /// The order or the roles of the messages are not what the grammar requires.
    BadMessages(String),
    /// A step inside a formatter failed; the text describes it.
    Operation(String),
}

/// A failure as a mathematical value.
pub enum PromptErrorModel {
    NoMessages,
    NoAssistantMessage,
    BadMessages(Seq<char>),
    Operation(Seq<char>),
}

impl View for PromptError {
    type V = PromptErrorModel;

    open spec fn view(&self) -> PromptErrorModel {
        match *self {
            PromptError::NoMessages => PromptErrorModel::NoMessages,
            PromptError::NoAssistantMessage => PromptErrorModel::NoAssistantMessage,
            PromptError::BadMessages(t) => PromptErrorModel::BadMessages(t@),
            PromptError::Operation(t) => PromptErrorModel::Operation(t@),
        }
    }
}

/// The outcome of building a prompt, as a mathematical value.
pub open spec fn outcome(r: Result<String, PromptError>) -> Result<Seq<char>, PromptErrorModel> {
    match r {
        Ok(s) => Ok(s@),
        Err(e) => Err(e@),
    }
}

} // verus!
