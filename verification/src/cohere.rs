//! The grammar of the Cohere Command-R models, which answer from retrieved
//! context: the last user turn carries the context behind the query.

use vstd::prelude::*;
use crate::error::{PromptError, PromptErrorModel, outcome};
use crate::grammar::{
    Grammar, GrammarModel, append_assistant, append_user, assistant_turn, fold, fold_turns,
    user_turn,
};
use crate::message::{
    AssistantMessage, ContentModel, Message, MessageModel, UserContent, UserMessage, UserModel,
    assistant_text, content_text, conversation,
};
use crate::pattern::{find_first, first_match, is_span};
use crate::prompt::BuildChatPrompt;
use crate::text::{cut_text, push, text_before, text_between};
use crate::tool::{Tool, ToolModel};

verus! {

/// Prompts for the Cohere Command-R models.
#[derive(Debug, Default, Clone)]
pub struct CohereChatPrompt;

impl CohereChatPrompt {
    /// The markers of this grammar: every turn is opened and closed.
    pub open spec fn grammar() -> GrammarModel {
        GrammarModel {
            first_user_open: "<|START_OF_TURN_TOKEN|><|USER_TOKEN|>"@,
            user_open: "<|START_OF_TURN_TOKEN|><|USER_TOKEN|>"@,
            user_close: "<|END_OF_TURN_TOKEN|>"@,
            assistant_open: "<|START_OF_TURN_TOKEN|><|CHATBOT_TOKEN|>"@,
            assistant_close: "<|END_OF_TURN_TOKEN|>"@,
            tool_open: None,
            cue: "<|START_OF_TURN_TOKEN|><|CHATBOT_TOKEN|>"@,
        }
    }

    /// The markers of this grammar, as text.
    pub fn markers() -> (g: Grammar)
        ensures
            g@ == Self::grammar(),
    {
        Grammar {
            first_user_open: "<|START_OF_TURN_TOKEN|><|USER_TOKEN|>",
            user_open: "<|START_OF_TURN_TOKEN|><|USER_TOKEN|>",
            user_close: "<|END_OF_TURN_TOKEN|>",
            assistant_open: "<|START_OF_TURN_TOKEN|><|CHATBOT_TOKEN|>",
            assistant_close: "<|END_OF_TURN_TOKEN|>",
            tool_open: None,
            cue: "<|START_OF_TURN_TOKEN|><|CHATBOT_TOKEN|>",
        }
    }

    /// The safety, system and user preambles that open every prompt.
    pub open spec fn preamble() -> Seq<char> {
        "# Safety Preamble\nThe instructions in this section override those in the task description and style guide sections. Don't answer questions that are harmful or immoral.\n\n# System Preamble\n## Basic Rules\nYou are a powerful conversational AI trained by Cohere to help people. You are augmented by a number of tools, and your job is to use and consume the output of these tools to best help the user. You will see a conversation history between yourself and a user, ending with an utterance from the user. You will then see a specific instruction instructing you what kind of response to generate. When you answer the user's requests, you cite your sources in your answers, according to those instructions.\n\n# User Preamble\n## Task and Context\nYou help people answer their questions and other requests interactively. You will be asked a very wide array of requests on all kinds of topics. You will be equipped with a wide range of search engines or similar tools to help you, which you use to research your answer. You should focus on serving the user's needs as best you can, which will be wide-ranging.\n\n## Style Guide\nUnless the user asks for a different style of answer, you should answer in full sentences, using proper grammar and spelling."@
    }

    /// The instructions that ask for a grounded answer in four parts.
    pub open spec fn instructions() -> Seq<char> {
        "Carefully perform the following instructions, in order, starting each with a new line.\nFirstly, Decide which of the retrieved documents are relevant to the user's last input by writing 'Relevant Documents:' followed by comma-separated list of document numbers. If none are relevant, you should instead write 'None'.\nSecondly, Decide which of the retrieved documents contain facts that should be cited in a good answer to the user's last input by writing 'Cited Documents:' followed a comma-separated list of document numbers. If you dont want to cite any of them, you should instead write 'None'.\nThirdly, Write 'Answer:' followed by a response to the user's last input in high quality natural english. Use the retrieved documents to help you. Do not insert any citations or grounding markup.\nFinally, Write 'Grounded answer:' followed by a response to the user's last input in high quality natural english. Use the symbols <co: doc> and </co: doc> to indicate when a fact comes from a document in the search result, e.g <co: 0>my fact</co: 0> for a fact from document 0."@
    }

    /// `body` wrapped in the markers of a system turn.
    pub open spec fn system_block(body: Seq<char>) -> Seq<char> {
        "<|START_OF_TURN_TOKEN|><|SYSTEM_TOKEN|>"@ + body + "<|END_OF_TURN_TOKEN|>"@
    }

    /// The system preamble of every conversation.
    pub open spec fn system_prompt() -> Seq<char> {
        "<BOS_TOKEN>"@ + Self::system_block(Self::preamble())
    }

    /// The pattern of a block of retrieved results: it opens with `<result>`,
    /// ends with the nearest `</result>` and may span lines.
    pub open spec fn result_pattern() -> Seq<char> {
        "(?s)(<result>.*?</result>)"@
    }

    /// What `build` reports where the last message is not a user message.
    pub open spec fn not_user_text() -> Seq<char> {
        "The last message in the chat request is not user message."@
    }

    /// What `build` reports where the last user message is made of parts.
    pub open spec fn not_plain_text() -> Seq<char> {
        "The last user message in the chat request is not plain text."@
    }

    /// What `build` reports where the last user message holds no block of
    /// results.
    pub open spec fn no_match_text() -> Seq<char> {
        "No match found"@
    }

    /// The text of the last message where it is a user message with plain
    /// text, the reason for refusing the conversation otherwise.
    pub open spec fn last_query(ms: Seq<MessageModel>) -> Result<Seq<char>, PromptErrorModel> {
        if ms.len() == 0 {
            Err(PromptErrorModel::NoMessages)
        } else {
            match ms.last() {
                MessageModel::User(u) => match u.content {
                    ContentModel::Text(t) => Ok(t),
                    ContentModel::Parts(_) => Err(
                        PromptErrorModel::BadMessages(Self::not_plain_text()),
                    ),
                },
                _ => Err(PromptErrorModel::BadMessages(Self::not_user_text())),
            }
        }
    }

    /// The conversation with the text of its last user message cut down to
    /// what stands before the byte offset `at`.
    pub open spec fn with_query_before(ms: Seq<MessageModel>, at: int) -> Seq<MessageModel>
        recommends
            ms.len() > 0,
            Self::last_query(ms) is Ok,
    {
        ms.update(
            ms.len() - 1,
            MessageModel::User(
                UserModel {
                    content: ContentModel::Text(text_before(Self::last_query(ms)->Ok_0, at)),
                    name: ms.last()->User_0.name,
                },
            ),
        )
    }

    /// The prompt for `ms` when the block of results in its last user message
    /// was `found` between two byte offsets, or not at all. The query is what
    /// stands before the block; the context is the block itself, tags
    /// included, and nothing of what follows it.
    pub open spec fn prompt_given(ms: Seq<MessageModel>, found: Option<(usize, usize)>) -> Result<
        Seq<char>,
        PromptErrorModel,
    > {
        match Self::last_query(ms) {
            Err(e) => Err(e),
            Ok(text) => match found {
                None => Err(PromptErrorModel::Operation(Self::no_match_text())),
                Some(span) => match fold_turns(
                    Self::grammar(),
                    Self::system_prompt(),
                    Self::with_query_before(ms, span.0 as int),
                ) {
                    Err(e) => Err(e),
                    Ok(history) => Ok(
                        history + Self::system_block(
                            text_between(text, span.0 as int, span.1 as int),
                        ) + Self::system_block(Self::instructions()) + Self::grammar().cue,
                    ),
                },
            },
        }
    }

    /// The conversation that is left in place of `ms`: once the block of
    /// results is found, the last user message keeps only the query.
    pub open spec fn left_given(ms: Seq<MessageModel>, found: Option<(usize, usize)>) -> Seq<
        MessageModel,
    > {
        if Self::last_query(ms) is Ok && found is Some {
            Self::with_query_before(ms, found->Some_0.0 as int)
        } else {
            ms
        }
    }

    /// Extends the history by a user turn; on an empty history the system
    /// preamble comes first.
    pub fn append_user_message(
        &self,
        chat_history: &str,
        system_prompt: &str,
        message: &UserMessage,
    ) -> (r: String)
        ensures
            r@ == user_turn(
                Self::grammar(),
                chat_history@,
                system_prompt@,
                content_text(message@.content),
            ),
    {
        append_user(&Self::markers(), chat_history, system_prompt, message)
    }

    /// Extends the history by an assistant turn.
    pub fn append_assistant_message(&self, chat_history: &str, message: &AssistantMessage) -> (r:
        Result<String, PromptError>)
        ensures
            outcome(r) == match assistant_text(message@) {
                Some(c) => Ok(assistant_turn(Self::grammar(), chat_history@, c)),
                None => Err(PromptErrorModel::NoAssistantMessage),
            },
    {
        append_assistant(&Self::markers(), chat_history, message)
    }

    /// Appends `body` to `prompt` as a system turn.
    pub fn push_system_block(prompt: &mut String, body: &str)
        ensures
            final(prompt)@ == old(prompt)@ + Self::system_block(body@),
    {
        let ghost before = prompt@;
        push(prompt, "<|START_OF_TURN_TOKEN|><|SYSTEM_TOKEN|>");
        push(prompt, body);
        push(prompt, "<|END_OF_TURN_TOKEN|>");
        assert(prompt@ == before + Self::system_block(body@));
    }

    /// Makes the system preamble.
    pub fn create_system_prompt(&self) -> (r: String)
        ensures
            r@ == Self::system_prompt(),
    {
        let mut out = String::from_str("<BOS_TOKEN>");
        Self::push_system_block(&mut out, "# Safety Preamble\nThe instructions in this section override those in the task description and style guide sections. Don't answer questions that are harmful or immoral.\n\n# System Preamble\n## Basic Rules\nYou are a powerful conversational AI trained by Cohere to help people. You are augmented by a number of tools, and your job is to use and consume the output of these tools to best help the user. You will see a conversation history between yourself and a user, ending with an utterance from the user. You will then see a specific instruction instructing you what kind of response to generate. When you answer the user's requests, you cite your sources in your answers, according to those instructions.\n\n# User Preamble\n## Task and Context\nYou help people answer their questions and other requests interactively. You will be asked a very wide array of requests on all kinds of topics. You will be equipped with a wide range of search engines or similar tools to help you, which you use to research your answer. You should focus on serving the user's needs as best you can, which will be wide-ranging.\n\n## Style Guide\nUnless the user asks for a different style of answer, you should answer in full sentences, using proper grammar and spelling.");
        out
    }

    /// The text of the last message, where it is a user message with plain
    /// text.
    pub fn last_user_text(messages: &Vec<Message>) -> (r: Result<String, PromptError>)
        ensures
            outcome(r) == Self::last_query(conversation(messages@)),
    {
        if messages.is_empty() {
            return Err(PromptError::NoMessages);
        }
        match &messages[messages.len() - 1] {
            Message::User(m) => match &m.content {
                UserContent::Text(t) => Ok(t.clone()),
                UserContent::Parts(_) => Err(
                    PromptError::BadMessages(
                        String::from_str(
                            "The last user message in the chat request is not plain text.",
                        ),
                    ),
                ),
            },
            _ => Err(
                PromptError::BadMessages(
                    String::from_str("The last message in the chat request is not user message."),
                ),
            ),
        }
    }

    /// Builds the prompt once the block of results has been looked for:
    /// `found` holds the byte offsets at which it begins and ends in the text
    /// of the last user message. The text before the block stays as the
    /// query, in place of the last message; the block becomes the retrieved
    /// context; what follows the block is left out.
    pub fn build_given(&self, messages: &mut Vec<Message>, found: Option<(usize, usize)>) -> (r:
        Result<String, PromptError>)
        requires
            found matches Some(span) ==> (Self::last_query(conversation(old(messages)@)) matches Ok(
                text,
            ) ==> is_span(text, span)),
        ensures
            outcome(r) == Self::prompt_given(conversation(old(messages)@), found),
            conversation(final(messages)@) == Self::left_given(conversation(old(messages)@), found),
    {
        let text = match Self::last_user_text(messages) {
            Ok(text) => text,
            Err(e) => {
                return Err(e);
            },
        };
        let (start, end) = match found {
            Some(span) => span,
            None => {
                return Err(PromptError::Operation(String::from_str("No match found")));
            },
        };
        let (query, context) = cut_text(text.as_str(), start, end);
        let last = messages.len() - 1;
        let name = match &messages[last] {
            Message::User(m) => match &m.name {
                Some(n) => Some(n.clone()),
                None => None,
            },
            _ => None,
        };
        messages.set(last, Message::User(UserMessage { content: UserContent::Text(query), name }));
        proof {
            assert(conversation(messages@) == Self::with_query_before(
                conversation(old(messages)@),
                start as int,
            ));
        }
        let system_prompt = self.create_system_prompt();
        match fold(&Self::markers(), system_prompt.as_str(), messages) {
            Ok(history) => {
                let mut prompt = history;
                Self::push_system_block(&mut prompt, context.as_str());
                Self::push_system_block(&mut prompt, "Carefully perform the following instructions, in order, starting each with a new line.\nFirstly, Decide which of the retrieved documents are relevant to the user's last input by writing 'Relevant Documents:' followed by comma-separated list of document numbers. If none are relevant, you should instead write 'None'.\nSecondly, Decide which of the retrieved documents contain facts that should be cited in a good answer to the user's last input by writing 'Cited Documents:' followed a comma-separated list of document numbers. If you dont want to cite any of them, you should instead write 'None'.\nThirdly, Write 'Answer:' followed by a response to the user's last input in high quality natural english. Use the retrieved documents to help you. Do not insert any citations or grounding markup.\nFinally, Write 'Grounded answer:' followed by a response to the user's last input in high quality natural english. Use the symbols <co: doc> and </co: doc> to indicate when a fact comes from a document in the search result, e.g <co: 0>my fact</co: 0> for a fact from document 0.");
                push(&mut prompt, "<|START_OF_TURN_TOKEN|><|CHATBOT_TOKEN|>");
                Ok(prompt)
            },
            Err(e) => Err(e),
        }
    }
}

impl BuildChatPrompt for CohereChatPrompt {
    /// The last user message must hold a block of results; the block becomes
    /// the context that the answer is grounded in.
    open spec fn prompt(&self, ms: Seq<MessageModel>) -> Result<Seq<char>, PromptErrorModel> {
        match Self::last_query(ms) {
            Err(e) => Err(e),
            Ok(text) => match first_match(Self::result_pattern(), text) {
                Err(e) => Err(e),
                Ok(found) => Self::prompt_given(ms, found),
            },
        }
    }

    open spec fn left_behind(&self, ms: Seq<MessageModel>) -> Seq<MessageModel> {
        if Self::last_query(ms) is Ok {
            match first_match(Self::result_pattern(), Self::last_query(ms)->Ok_0) {
                Ok(found) => Self::left_given(ms, found),
                Err(_) => ms,
            }
        } else {
            ms
        }
    }

    open spec fn prompt_with_tools(&self, ms: Seq<MessageModel>, tools: Option<Seq<ToolModel>>) -> Result<
        Seq<char>,
        PromptErrorModel,
    > {
        self.prompt(ms)
    }

    fn build(&self, messages: &mut Vec<Message>) -> (r: Result<String, PromptError>)
        ensures
            outcome(r) == self.prompt(conversation(old(messages)@)),
            conversation(final(messages)@) == self.left_behind(conversation(old(messages)@)),
            final(messages)@.len() == old(messages)@.len(),
    {
        let text = match Self::last_user_text(messages) {
            Ok(text) => text,
            Err(e) => {
                return Err(e);
            },
        };
        match find_first("(?s)(<result>.*?</result>)", text.as_str()) {
            Ok(found) => self.build_given(messages, found),
            Err(e) => Err(e),
        }
    }

    fn build_with_tools(&self, messages: &mut Vec<Message>, tools: Option<&[Tool]>) -> (r: Result<
        String,
        PromptError,
    >)
        ensures
            outcome(r) == self.prompt(conversation(old(messages)@)),
            conversation(final(messages)@) == self.left_behind(conversation(old(messages)@)),
    {
        self.build(messages)
    }
}

} // verus!
