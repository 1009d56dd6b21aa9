//! The grammars of the DeepSeek model families.

use vstd::prelude::*;
use crate::error::{PromptError, PromptErrorModel, outcome};
use crate::grammar::{
    Grammar, GrammarModel, append_assistant, append_tool, append_user, assemble, assistant_turn,
    finished, tool_turn, user_turn,
};
use crate::message::{
    AssistantMessage, Message, MessageModel, SystemMessage, ToolMessage, UserMessage,
    assistant_text, content_text, conversation,
};
use crate::prompt::{BuildChatPrompt, offered};
use crate::text::push;
use crate::tool::{Tool, ToolModel, push_tool_entries, tool_entries, tool_models};

verus! {

/// Prompts for the `DeepSeek-LLM-Chat` model.
#[derive(Debug, Default, Clone)]
pub struct DeepseekChatPrompt;

impl DeepseekChatPrompt {
    /// The markers of this grammar. It has no system preamble.
    pub open spec fn grammar() -> GrammarModel {
        GrammarModel {
            first_user_open: "User: "@,
            user_open: "User: "@,
            user_close: ""@,
            assistant_open: "\n\nAssistant: "@,
            assistant_close: "<|end_of_sentence|>"@,
            tool_open: None,
            cue: "\n\nAssistant:"@,
        }
    }

    /// The markers of this grammar, as text.
    pub fn markers() -> (g: Grammar)
        ensures
            g@ == Self::grammar(),
    {
        Grammar {
            first_user_open: "User: ",
            user_open: "User: ",
            user_close: "",
            assistant_open: "\n\nAssistant: ",
            assistant_close: "<|end_of_sentence|>",
            tool_open: None,
            cue: "\n\nAssistant:",
        }
    }

    /// Extends the history by a user turn.
    pub fn append_user_message(&self, chat_history: &str, message: &UserMessage) -> (r: String)
        ensures
            r@ == user_turn(
                Self::grammar(),
                chat_history@,
                ""@,
                content_text(message@.content),
            ),
    {
        append_user(&Self::markers(), chat_history, "", message)
    }

    /// Extends the history by an assistant turn.
    pub fn append_assistant_message(&self, chat_history: &str, message: &AssistantMessage) -> (r:
        Result<String, PromptError>)
        ensures
            outcome(r) == match assistant_text(message@) {
                Some(c) => Ok(assistant_turn(Self::grammar(), chat_history@, c)),
                None => Err(PromptErrorModel::NoAssistantMessage),
            },
    {
        append_assistant(&Self::markers(), chat_history, message)
    }
}

impl BuildChatPrompt for DeepseekChatPrompt {
    open spec fn prompt(&self, ms: Seq<MessageModel>) -> Result<Seq<char>, PromptErrorModel> {
        if ms.len() == 0 {
            Err(PromptErrorModel::NoMessages)
        } else {
            finished(Self::grammar(), ""@, ms)
        }
    }

    open spec fn left_behind(&self, ms: Seq<MessageModel>) -> Seq<MessageModel> {
        ms
    }

    open spec fn prompt_with_tools(&self, ms: Seq<MessageModel>, tools: Option<Seq<ToolModel>>) -> Result<
        Seq<char>,
        PromptErrorModel,
    > {
        self.prompt(ms)
    }

    fn build(&self, messages: &mut Vec<Message>) -> (r: Result<String, PromptError>)
        ensures
            outcome(r) == self.prompt(conversation(old(messages)@)),
            final(messages)@ == old(messages)@,
    {
        if messages.is_empty() {
            return Err(PromptError::NoMessages);
        }
        assemble(&Self::markers(), "", messages)
    }

    fn build_with_tools(&self, messages: &mut Vec<Message>, tools: Option<&[Tool]>) -> (r: Result<
        String,
        PromptError,
    >)
        ensures
            outcome(r) == self.prompt_with_tools(conversation(old(messages)@), offered(tools)),
            final(messages)@ == old(messages)@,
    {
        self.build(messages)
    }
}

/// The preamble made of `lead`, then `content`, or `fallback` where `content`
/// is empty.
fn system_preamble(lead: &str, fallback: &str, content: &str) -> (r: String)
    ensures
        r@ == lead@ + if content@.len() == 0 {
            fallback@
        } else {
            content@
        },
{
    let mut out = String::new();
    push(&mut out, lead);
    if content.is_empty() {
        push(&mut out, fallback);
    } else {
        push(&mut out, content);
    }
    out
}

/// Prompts for the `DeepSeek-Coder` model.
#[derive(Debug, Default, Clone)]
pub struct DeepseekCoderPrompt;

impl DeepseekCoderPrompt {
    /// The markers of this grammar.
    pub open spec fn grammar() -> GrammarModel {
        GrammarModel {
            first_user_open: "\n### Instruction:\n"@,
            user_open: "\n### Instruction:\n"@,
            user_close: ""@,
            assistant_open: "\n### Response:\n"@,
            assistant_close: "\n<|EOT|>"@,
            tool_open: None,
            cue: "\n### Response:"@,
        }
    }

    /// The markers of this grammar, as text.
    pub fn markers() -> (g: Grammar)
        ensures
            g@ == Self::grammar(),
    {
        Grammar {
            first_user_open: "\n### Instruction:\n",
            user_open: "\n### Instruction:\n",
            user_close: "",
            assistant_open: "\n### Response:\n",
            assistant_close: "\n<|EOT|>",
            tool_open: None,
            cue: "\n### Response:",
        }
    }

    /// The text that opens every system preamble of this grammar.
    pub open spec fn lead() -> Seq<char> {
        ""@
    }

    /// The system text used where the conversation gives none.
    pub open spec fn default_text() -> Seq<char> {
        "You are an AI programming assistant, utilizing the DeepSeek Coder model, developed by DeepSeek Company, and you only answer questions related to computer science. For politically sensitive questions, security and privacy issues, and other non-computer science questions, you will refuse to answer."@
    }

    /// The system preamble made from the text of a system message: the text
    /// itself, or the default where the text is empty.
    pub open spec fn system_prompt(content: Seq<char>) -> Seq<char> {
        Self::lead() + if content.len() == 0 {
            Self::default_text()
        } else {
            content
        }
    }

    /// The system preamble of a conversation: made from its first message
    /// where that is a system message, from the default text otherwise.
    pub open spec fn system_of(ms: Seq<MessageModel>) -> Seq<char>
        recommends
            ms.len() > 0,
    {
        match ms[0] {
            MessageModel::System { content, .. } => Self::system_prompt(content),
            _ => Self::system_prompt(Seq::empty()),
        }
    }

    /// Makes the system preamble from a system message.
    pub fn create_system_prompt(&self, message: &SystemMessage) -> (r: String)
        ensures
            r@ == Self::system_prompt(message.content@),
    {
        system_preamble("", "You are an AI programming assistant, utilizing the DeepSeek Coder model, developed by DeepSeek Company, and you only answer questions related to computer science. For politically sensitive questions, security and privacy issues, and other non-computer science questions, you will refuse to answer.", message.content.as_str())
    }

    /// Extends the history by a user turn; on an empty history the system
    /// preamble comes first.
    pub fn append_user_message(
        &self,
        chat_history: &str,
        system_prompt: &str,
        message: &UserMessage,
    ) -> (r: String)
        ensures
            r@ == user_turn(
                Self::grammar(),
                chat_history@,
                system_prompt@,
                content_text(message@.content),
            ),
    {
        append_user(&Self::markers(), chat_history, system_prompt, message)
    }

    /// Extends the history by an assistant turn.
    pub fn append_assistant_message(&self, chat_history: &str, message: &AssistantMessage) -> (r:
        Result<String, PromptError>)
        ensures
            outcome(r) == match assistant_text(message@) {
                Some(c) => Ok(assistant_turn(Self::grammar(), chat_history@, c)),
                None => Err(PromptErrorModel::NoAssistantMessage),
            },
    {
        append_assistant(&Self::markers(), chat_history, message)
    }
}

impl BuildChatPrompt for DeepseekCoderPrompt {
    open spec fn prompt(&self, ms: Seq<MessageModel>) -> Result<Seq<char>, PromptErrorModel> {
        if ms.len() == 0 {
            Err(PromptErrorModel::NoMessages)
        } else {
            finished(Self::grammar(), Self::system_of(ms), ms)
        }
    }

    open spec fn left_behind(&self, ms: Seq<MessageModel>) -> Seq<MessageModel> {
        ms
    }

    open spec fn prompt_with_tools(&self, ms: Seq<MessageModel>, tools: Option<Seq<ToolModel>>) -> Result<
        Seq<char>,
        PromptErrorModel,
    > {
        self.prompt(ms)
    }

    fn build(&self, messages: &mut Vec<Message>) -> (r: Result<String, PromptError>)
        ensures
            outcome(r) == self.prompt(conversation(old(messages)@)),
            final(messages)@ == old(messages)@,
    {
        if messages.is_empty() {
            return Err(PromptError::NoMessages);
        }
        proof {
            reveal_strlit("");
        }
        let system_prompt = match &messages[0] {
            Message::System(message) => self.create_system_prompt(message),
            _ => system_preamble("", "You are an AI programming assistant, utilizing the DeepSeek Coder model, developed by DeepSeek Company, and you only answer questions related to computer science. For politically sensitive questions, security and privacy issues, and other non-computer science questions, you will refuse to answer.", ""),
        };
        assemble(&Self::markers(), system_prompt.as_str(), messages)
    }

    fn build_with_tools(&self, messages: &mut Vec<Message>, tools: Option<&[Tool]>) -> (r: Result<
        String,
        PromptError,
    >)
        ensures
            outcome(r) == self.prompt_with_tools(conversation(old(messages)@), offered(tools)),
            final(messages)@ == old(messages)@,
    {
        self.build(messages)
    }
}

/// Prompts for the `DeepSeek-V2` models.
#[derive(Debug, Default, Clone)]
pub struct DeepseekChat2Prompt;

impl DeepseekChat2Prompt {
    /// The markers of this grammar.
    pub open spec fn grammar() -> GrammarModel {
        GrammarModel {
            first_user_open: "\n\nUser: "@,
            user_open: "User: "@,
            user_close: ""@,
            assistant_open: "\n\nAssistant: "@,
            assistant_close: "<|end_of_sentence|>"@,
            tool_open: None,
            cue: "\n\nAssistant:"@,
        }
    }

    /// The markers of this grammar, as text.
    pub fn markers() -> (g: Grammar)
        ensures
            g@ == Self::grammar(),
    {
        Grammar {
            first_user_open: "\n\nUser: ",
            user_open: "User: ",
            user_close: "",
            assistant_open: "\n\nAssistant: ",
            assistant_close: "<|end_of_sentence|>",
            tool_open: None,
            cue: "\n\nAssistant:",
        }
    }

    /// The text that opens every system preamble of this grammar.
    pub open spec fn lead() -> Seq<char> {
        "<|begin▁of▁sentence|>"@
    }

    /// The system text used where the conversation gives none.
    pub open spec fn default_text() -> Seq<char> {
        "You are an AI programming assistant, utilizing the DeepSeek Coder model, developed by DeepSeek Company, and you only answer questions related to computer science. For politically sensitive questions, security and privacy issues, and other non-computer science questions, you will refuse to answer."@
    }

    /// The system preamble made from the text of a system message: the text
    /// itself, or the default where the text is empty, behind the
    /// begin-of-sentence marker.
    pub open spec fn system_prompt(content: Seq<char>) -> Seq<char> {
        Self::lead() + if content.len() == 0 {
            Self::default_text()
        } else {
            content
        }
    }

    /// The system preamble of a conversation: made from its first message
    /// where that is a system message, from the default text otherwise.
    pub open spec fn system_of(ms: Seq<MessageModel>) -> Seq<char>
        recommends
            ms.len() > 0,
    {
        match ms[0] {
            MessageModel::System { content, .. } => Self::system_prompt(content),
            _ => Self::system_prompt(Seq::empty()),
        }
    }

    /// Makes the system preamble from a system message.
    pub fn create_system_prompt(&self, message: &SystemMessage) -> (r: String)
        ensures
            r@ == Self::system_prompt(message.content@),
    {
        system_preamble("<|begin▁of▁sentence|>", "You are an AI programming assistant, utilizing the DeepSeek Coder model, developed by DeepSeek Company, and you only answer questions related to computer science. For politically sensitive questions, security and privacy issues, and other non-computer science questions, you will refuse to answer.", message.content.as_str())
    }

    /// Extends the history by a user turn; on an empty history the system
    /// preamble comes first.
    pub fn append_user_message(
        &self,
        chat_history: &str,
        system_prompt: &str,
        message: &UserMessage,
    ) -> (r: String)
        ensures
            r@ == user_turn(
                Self::grammar(),
                chat_history@,
                system_prompt@,
                content_text(message@.content),
            ),
    {
        append_user(&Self::markers(), chat_history, system_prompt, message)
    }

    /// Extends the history by an assistant turn.
    pub fn append_assistant_message(&self, chat_history: &str, message: &AssistantMessage) -> (r:
        Result<String, PromptError>)
        ensures
            outcome(r) == match assistant_text(message@) {
                Some(c) => Ok(assistant_turn(Self::grammar(), chat_history@, c)),
                None => Err(PromptErrorModel::NoAssistantMessage),
            },
    {
        append_assistant(&Self::markers(), chat_history, message)
    }
}

impl BuildChatPrompt for DeepseekChat2Prompt {
    open spec fn prompt(&self, ms: Seq<MessageModel>) -> Result<Seq<char>, PromptErrorModel> {
        if ms.len() == 0 {
            Err(PromptErrorModel::NoMessages)
        } else {
            finished(Self::grammar(), Self::system_of(ms), ms)
        }
    }

    open spec fn left_behind(&self, ms: Seq<MessageModel>) -> Seq<MessageModel> {
        ms
    }

    open spec fn prompt_with_tools(&self, ms: Seq<MessageModel>, tools: Option<Seq<ToolModel>>) -> Result<
        Seq<char>,
        PromptErrorModel,
    > {
        self.prompt(ms)
    }

    fn build(&self, messages: &mut Vec<Message>) -> (r: Result<String, PromptError>)
        ensures
            outcome(r) == self.prompt(conversation(old(messages)@)),
            final(messages)@ == old(messages)@,
    {
        if messages.is_empty() {
            return Err(PromptError::NoMessages);
        }
        proof {
            reveal_strlit("");
        }
        let system_prompt = match &messages[0] {
            Message::System(message) => self.create_system_prompt(message),
            _ => system_preamble("<|begin▁of▁sentence|>", "You are an AI programming assistant, utilizing the DeepSeek Coder model, developed by DeepSeek Company, and you only answer questions related to computer science. For politically sensitive questions, security and privacy issues, and other non-computer science questions, you will refuse to answer.", ""),
        };
        assemble(&Self::markers(), system_prompt.as_str(), messages)
    }

    fn build_with_tools(&self, messages: &mut Vec<Message>, tools: Option<&[Tool]>) -> (r: Result<
        String,
        PromptError,
    >)
        ensures
            outcome(r) == self.prompt_with_tools(conversation(old(messages)@), offered(tools)),
            final(messages)@ == old(messages)@,
    {
        self.build(messages)
    }
}

/// Prompts for the `DeepSeek-V2.5` models.
#[derive(Debug, Default, Clone)]
pub struct DeepseekChat25Prompt;

impl DeepseekChat25Prompt {
    /// The markers of this grammar.
    pub open spec fn grammar() -> GrammarModel {
        GrammarModel {
            first_user_open: "<|User|>"@,
            user_open: "<|User|>"@,
            user_close: ""@,
            assistant_open: "<|Assistant|>"@,
            assistant_close: "<|end_of_sentence|>"@,
            tool_open: None,
            cue: "<|Assistant|>"@,
        }
    }

    /// The markers of this grammar, as text.
    pub fn markers() -> (g: Grammar)
        ensures
            g@ == Self::grammar(),
    {
        Grammar {
            first_user_open: "<|User|>",
            user_open: "<|User|>",
            user_close: "",
            assistant_open: "<|Assistant|>",
            assistant_close: "<|end_of_sentence|>",
            tool_open: None,
            cue: "<|Assistant|>",
        }
    }

    /// The text that opens every system preamble of this grammar.
    pub open spec fn lead() -> Seq<char> {
        "<|begin▁of▁sentence|>"@
    }

    /// The system text used where the conversation gives none.
    pub open spec fn default_text() -> Seq<char> {
        "You are a helpful Assistant."@
    }

    /// The system preamble made from the text of a system message: the text
    /// itself, or the default where the text is empty, behind the
    /// begin-of-sentence marker.
    pub open spec fn system_prompt(content: Seq<char>) -> Seq<char> {
        Self::lead() + if content.len() == 0 {
            Self::default_text()
        } else {
            content
        }
    }

    /// The system preamble of a conversation: made from its first message
    /// where that is a system message, from the default text otherwise.
    pub open spec fn system_of(ms: Seq<MessageModel>) -> Seq<char>
        recommends
            ms.len() > 0,
    {
        match ms[0] {
            MessageModel::System { content, .. } => Self::system_prompt(content),
            _ => Self::system_prompt(Seq::empty()),
        }
    }

    /// Makes the system preamble from a system message.
    pub fn create_system_prompt(&self, message: &SystemMessage) -> (r: String)
        ensures
            r@ == Self::system_prompt(message.content@),
    {
        system_preamble("<|begin▁of▁sentence|>", "You are a helpful Assistant.", message.content.as_str())
    }

    /// Extends the history by a user turn; on an empty history the system
    /// preamble comes first.
    pub fn append_user_message(
        &self,
        chat_history: &str,
        system_prompt: &str,
        message: &UserMessage,
    ) -> (r: String)
        ensures
            r@ == user_turn(
                Self::grammar(),
                chat_history@,
                system_prompt@,
                content_text(message@.content),
            ),
    {
        append_user(&Self::markers(), chat_history, system_prompt, message)
    }

    /// Extends the history by an assistant turn.
    pub fn append_assistant_message(&self, chat_history: &str, message: &AssistantMessage) -> (r:
        Result<String, PromptError>)
        ensures
            outcome(r) == match assistant_text(message@) {
                Some(c) => Ok(assistant_turn(Self::grammar(), chat_history@, c)),
                None => Err(PromptErrorModel::NoAssistantMessage),
            },
    {
        append_assistant(&Self::markers(), chat_history, message)
    }
}

impl BuildChatPrompt for DeepseekChat25Prompt {
    open spec fn prompt(&self, ms: Seq<MessageModel>) -> Result<Seq<char>, PromptErrorModel> {
        if ms.len() == 0 {
            Err(PromptErrorModel::NoMessages)
        } else {
            finished(Self::grammar(), Self::system_of(ms), ms)
        }
    }

    open spec fn left_behind(&self, ms: Seq<MessageModel>) -> Seq<MessageModel> {
        ms
    }

    open spec fn prompt_with_tools(&self, ms: Seq<MessageModel>, tools: Option<Seq<ToolModel>>) -> Result<
        Seq<char>,
        PromptErrorModel,
    > {
        self.prompt(ms)
    }

    fn build(&self, messages: &mut Vec<Message>) -> (r: Result<String, PromptError>)
        ensures
            outcome(r) == self.prompt(conversation(old(messages)@)),
            final(messages)@ == old(messages)@,
    {
        if messages.is_empty() {
            return Err(PromptError::NoMessages);
        }
        proof {
            reveal_strlit("");
        }
        let system_prompt = match &messages[0] {
            Message::System(message) => self.create_system_prompt(message),
            _ => system_preamble("<|begin▁of▁sentence|>", "You are a helpful Assistant.", ""),
        };
        assemble(&Self::markers(), system_prompt.as_str(), messages)
    }

    fn build_with_tools(&self, messages: &mut Vec<Message>, tools: Option<&[Tool]>) -> (r: Result<
        String,
        PromptError,
    >)
        ensures
            outcome(r) == self.prompt_with_tools(conversation(old(messages)@), offered(tools)),
            final(messages)@ == old(messages)@,
    {
        self.build(messages)
    }
}

/// Prompts for the `DeepSeek-V2.5` models with tool use.
#[derive(Debug, Default, Clone)]
pub struct DeepseekToolPrompt;

impl DeepseekToolPrompt {
    /// The markers used where no tools are in play: tool messages are skipped.
    pub open spec fn grammar() -> GrammarModel {
        GrammarModel {
            first_user_open: "<|User|>"@,
            user_open: "<|User|>"@,
            user_close: ""@,
            assistant_open: "<|Assistant|>"@,
            assistant_close: "<|end_of_sentence|>"@,
            tool_open: None,
            cue: "<|Assistant|>"@,
        }
    }

    /// The markers used with tools: tool messages become turns of their own.
    pub open spec fn tool_grammar() -> GrammarModel {
        GrammarModel {
            first_user_open: "<|User|>"@,
            user_open: "<|User|>"@,
            user_close: ""@,
            assistant_open: "<|Assistant|>"@,
            assistant_close: "<|end_of_sentence|>"@,
            tool_open: Some("<|tool|>"@),
            cue: "<|Assistant|>"@,
        }
    }

    /// The markers of this grammar, as text.
    pub fn markers() -> (g: Grammar)
        ensures
            g@ == Self::grammar(),
    {
        Grammar {
            first_user_open: "<|User|>",
            user_open: "<|User|>",
            user_close: "",
            assistant_open: "<|Assistant|>",
            assistant_close: "<|end_of_sentence|>",
            tool_open: None,
            cue: "<|Assistant|>",
        }
    }

    /// The markers used with tools, as text.
    pub fn tool_markers() -> (g: Grammar)
        ensures
            g@ == Self::tool_grammar(),
    {
        Grammar {
            first_user_open: "<|User|>",
            user_open: "<|User|>",
            user_close: "",
            assistant_open: "<|Assistant|>",
            assistant_close: "<|end_of_sentence|>",
            tool_open: Some("<|tool|>"),
            cue: "<|Assistant|>",
        }
    }

    /// The text that opens every system preamble made from a system message.
    pub open spec fn lead() -> Seq<char> {
        "<|begin▁of▁sentence|>"@
    }

    /// The system text used where the system message is empty.
    pub open spec fn default_text() -> Seq<char> {
        "You are a helpful Assistant."@
    }

    /// The heading of the section that lists the functions on offer.
    pub open spec fn tools_heading() -> Seq<char> {
        "\n\n## Tools\n\n### Function\n\nYou have the following functions available:"@
    }

    /// The preamble used where the conversation has no system message and no
    /// tools are offered.
    pub open spec fn minimal_preamble() -> Seq<char> {
        "<|im_start|>system\nAnswer as concisely as possible.<|im_end|>"@
    }

    /// The instructions that precede the list of tools in a synthesized
    /// preamble.
    pub open spec fn calling_intro() -> Seq<char> {
        "<|im_start|>system\\nYou are a function calling AI model. You are provided with function signatures within <tools></tools> XML tags. You may call one or more functions to assist with the user query. Don't make assumptions about what values to plug into functions. Here are the available tools:"@
    }

    /// The instructions that open a synthesized preamble begin with `<`.
    pub proof fn lemma_calling_intro_opens_a_turn()
        ensures
            Self::calling_intro().len() > 0,
            Self::calling_intro()[0] == '<',
    {
        reveal_strlit("<|im_start|>system\\nYou are a function calling AI model. You are provided with function signatures within <tools></tools> XML tags. You may call one or more functions to assist with the user query. Don't make assumptions about what values to plug into functions. Here are the available tools:");
    }

    /// The instructions that follow the list of tools in a synthesized
    /// preamble.
    pub open spec fn calling_rules() -> Seq<char> {
        "Use the following pydantic model json schema for each tool call you will make: {\"properties\": {\"arguments\": {\"title\": \"Arguments\", \"type\": \"object\"}, \"name\": {\"title\": \"Name\", \"type\": \"string\"}}, \"required\": [\"arguments\", \"name\"], \"title\": \"FunctionCall\", \"type\": \"object\"} For each function call return a json object with function name and arguments within <tool_call></tool_call> XML tags as follows:\\n<tool_call>\\n{\"arguments\": <args-dict>, \"name\": <function-name>}\\n</tool_call><|im_end|>"@
    }

    /// The tool-free system preamble: the begin-of-sentence marker, then the
    /// text of the system message, or the default where the text is empty.
    pub open spec fn system_prompt(content: Seq<char>) -> Seq<char> {
        Self::lead() + if content.len() == 0 {
            Self::default_text()
        } else {
            content
        }
    }

    /// The system preamble made from a system message when tools may be on
    /// offer. A non-empty list adds a section with one entry per tool; no list
    /// or an empty one gives the tool-free preamble.
    pub open spec fn system_prompt_tool(content: Seq<char>, tools: Option<Seq<ToolModel>>) -> Seq<
        char,
    > {
        match tools {
            Some(list) if list.len() > 0 => Self::system_prompt(content) + Self::tools_heading()
                + tool_entries(list),
            _ => Self::system_prompt(content),
        }
    }

    /// The preamble synthesized for the tools on offer: the instructions for
    /// calling, around one entry per tool, which holds the tool's name and
    /// the pretty-printed JSON of its function.
    pub open spec fn calling_preamble(tools: Seq<ToolModel>) -> Seq<char> {
        Self::calling_intro() + " "@ + "<tools> "@ + tool_entries(tools) + " </tools>"@ + " "@
            + Self::calling_rules()
    }

    /// The system preamble of a conversation when no tools are in play.
    pub open spec fn system_of(ms: Seq<MessageModel>) -> Seq<char>
        recommends
            ms.len() > 0,
    {
        match ms[0] {
            MessageModel::System { content, .. } => Self::system_prompt(content),
            _ => Self::system_prompt(Seq::empty()),
        }
    }

    /// The system preamble of a conversation with `tools` on offer. Without a
    /// leading system message it is synthesized: around the entries of the
    /// tools where the list holds any, the minimal preamble where no list is
    /// given or the list is empty.
    pub open spec fn system_with_tools(ms: Seq<MessageModel>, tools: Option<Seq<ToolModel>>) -> Seq<
        char,
    >
        recommends
            ms.len() > 0,
    {
        match ms[0] {
            MessageModel::System { content, .. } => Self::system_prompt_tool(content, tools),
            _ => match tools {
                Some(list) if list.len() > 0 => Self::calling_preamble(list),
                _ => Self::minimal_preamble(),
            },
        }
    }

    /// Makes the tool-free system preamble from a system message.
    pub fn create_system_prompt(&self, message: &SystemMessage) -> (r: String)
        ensures
            r@ == Self::system_prompt(message.content@),
    {
        system_preamble("<|begin▁of▁sentence|>", "You are a helpful Assistant.", message.content.as_str())
    }

    /// Makes the system preamble from a system message and the tools on offer.
    pub fn create_system_prompt_tool(&self, message: &SystemMessage, tools: Option<&[Tool]>) -> (r:
        String)
        ensures
            r@ == Self::system_prompt_tool(message.content@, offered(tools)),
    {
        let mut out = self.create_system_prompt(message);
        match tools {
            Some(list) => {
                if !list.is_empty() {
                    push(
                        &mut out,
                        "\n\n## Tools\n\n### Function\n\nYou have the following functions available:",
                    );
                    push_tool_entries(&mut out, list);
                }
            },
            None => {},
        }
        out
    }

    /// Synthesizes the system preamble for the tools on offer.
    pub fn create_calling_preamble(&self, tools: &[Tool]) -> (r: String)
        ensures
            r@ == Self::calling_preamble(tool_models(tools@)),
    {
        let mut out = String::new();
        push(&mut out, "<|im_start|>system\\nYou are a function calling AI model. You are provided with function signatures within <tools></tools> XML tags. You may call one or more functions to assist with the user query. Don't make assumptions about what values to plug into functions. Here are the available tools:");
        push(&mut out, " ");
        push(&mut out, "<tools> ");
        push_tool_entries(&mut out, tools);
        push(&mut out, " </tools>");
        push(&mut out, " ");
        push(&mut out, "Use the following pydantic model json schema for each tool call you will make: {\"properties\": {\"arguments\": {\"title\": \"Arguments\", \"type\": \"object\"}, \"name\": {\"title\": \"Name\", \"type\": \"string\"}}, \"required\": [\"arguments\", \"name\"], \"title\": \"FunctionCall\", \"type\": \"object\"} For each function call return a json object with function name and arguments within <tool_call></tool_call> XML tags as follows:\\n<tool_call>\\n{\"arguments\": <args-dict>, \"name\": <function-name>}\\n</tool_call><|im_end|>");
        out
    }

    /// Extends the history by a user turn; on an empty history the system
    /// preamble comes first.
    pub fn append_user_message(
        &self,
        chat_history: &str,
        system_prompt: &str,
        message: &UserMessage,
    ) -> (r: String)
        ensures
            r@ == user_turn(
                Self::grammar(),
                chat_history@,
                system_prompt@,
                content_text(message@.content),
            ),
    {
        append_user(&Self::markers(), chat_history, system_prompt, message)
    }

    /// Extends the history by an assistant turn.
    pub fn append_assistant_message(&self, chat_history: &str, message: &AssistantMessage) -> (r:
        Result<String, PromptError>)
        ensures
            outcome(r) == match assistant_text(message@) {
                Some(c) => Ok(assistant_turn(Self::grammar(), chat_history@, c)),
                None => Err(PromptErrorModel::NoAssistantMessage),
            },
    {
        append_assistant(&Self::markers(), chat_history, message)
    }

    /// Extends the history by a tool turn: the trimmed result of the tool
    /// behind the tool marker.
    pub fn append_tool_message(&self, chat_history: &str, message: &ToolMessage) -> (r: String)
        ensures
            r@ == tool_turn("<|tool|>"@, chat_history@, message.content@),
    {
        append_tool("<|tool|>", chat_history, message)
    }
}

impl BuildChatPrompt for DeepseekToolPrompt {
    open spec fn prompt(&self, ms: Seq<MessageModel>) -> Result<Seq<char>, PromptErrorModel> {
        if ms.len() == 0 {
            Err(PromptErrorModel::NoMessages)
        } else {
            finished(Self::grammar(), Self::system_of(ms), ms)
        }
    }

    open spec fn left_behind(&self, ms: Seq<MessageModel>) -> Seq<MessageModel> {
        ms
    }

    open spec fn prompt_with_tools(&self, ms: Seq<MessageModel>, tools: Option<Seq<ToolModel>>) -> Result<
        Seq<char>,
        PromptErrorModel,
    > {
        if ms.len() == 0 {
            Err(PromptErrorModel::NoMessages)
        } else {
            finished(Self::tool_grammar(), Self::system_with_tools(ms, tools), ms)
        }
    }

    fn build(&self, messages: &mut Vec<Message>) -> (r: Result<String, PromptError>)
        ensures
            outcome(r) == self.prompt(conversation(old(messages)@)),
            final(messages)@ == old(messages)@,
    {
        if messages.is_empty() {
            return Err(PromptError::NoMessages);
        }
        proof {
            reveal_strlit("");
        }
        let system_prompt = match &messages[0] {
            Message::System(message) => self.create_system_prompt(message),
            _ => system_preamble("<|begin▁of▁sentence|>", "You are a helpful Assistant.", ""),
        };
        assemble(&Self::markers(), system_prompt.as_str(), messages)
    }

    fn build_with_tools(&self, messages: &mut Vec<Message>, tools: Option<&[Tool]>) -> (r: Result<
        String,
        PromptError,
    >)
        ensures
            outcome(r) == self.prompt_with_tools(conversation(old(messages)@), offered(tools)),
            final(messages)@ == old(messages)@,
    {
        if messages.is_empty() {
            return Err(PromptError::NoMessages);
        }
        let system_prompt = match &messages[0] {
            Message::System(message) => self.create_system_prompt_tool(message, tools),
            _ => {
                let offered_tools = match tools {
                    Some(list) => if list.is_empty() {
                        None
                    } else {
                        Some(list)
                    },
                    None => None,
                };
                match offered_tools {
                    Some(list) => self.create_calling_preamble(list),
                    None => String::from_str(
                        "<|im_start|>system\nAnswer as concisely as possible.<|im_end|>",
                    ),
                }
            },
        };
        assemble(&Self::tool_markers(), system_prompt.as_str(), messages)
    }
}

} // verus!
