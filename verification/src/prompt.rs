//! The contract that every prompt formatter meets.

use vstd::prelude::*;
use crate::error::{PromptError, PromptErrorModel, outcome};
use crate::message::{Message, MessageModel, conversation};
use crate::tool::{Tool, ToolModel, tool_models};

verus! {

/// The tools handed to a formatter, as a mathematical value.
pub open spec fn offered(tools: Option<&[Tool]>) -> Option<Seq<ToolModel>> {
    match tools {
        Some(list) => Some(tool_models(list@)),
        None => None,
    }
}

/// A formatter for one model family. It turns a conversation into the text
/// that the model expects, and is free of state: the same conversation always
/// gives the same prompt.
pub trait BuildChatPrompt {
    /// The prompt for the conversation `ms`, or why there is none.
    spec fn prompt(&self, ms: Seq<MessageModel>) -> Result<Seq<char>, PromptErrorModel>;

    /// The conversation that `build` leaves behind in place of `ms`.
    spec fn left_behind(&self, ms: Seq<MessageModel>) -> Seq<MessageModel>;

    /// The prompt for `ms` when `tools` are offered to the model.
    spec fn prompt_with_tools(&self, ms: Seq<MessageModel>, tools: Option<Seq<ToolModel>>) -> Result<
        Seq<char>,
        PromptErrorModel,
    >;

    /// Builds the prompt for `messages`. The caller keeps the conversation,
    /// but a formatter may rewrite it: what it leaves is `left_behind`.
    fn build(&self, messages: &mut Vec<Message>) -> (r: Result<String, PromptError>)
        ensures
            outcome(r) == self.prompt(conversation(old(messages)@)),
            conversation(final(messages)@) == self.left_behind(conversation(old(messages)@)),
    ;

    /// Builds the prompt for `messages` with `tools` on offer. It leaves the
    /// conversation as `build` does.
    fn build_with_tools(&self, messages: &mut Vec<Message>, tools: Option<&[Tool]>) -> (r: Result<
        String,
        PromptError,
    >)
        ensures
            outcome(r) == self.prompt_with_tools(conversation(old(messages)@), offered(tools)),
            conversation(final(messages)@) == self.left_behind(conversation(old(messages)@)),
    ;
}

} // verus!
