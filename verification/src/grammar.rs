//! The turn engine shared by every grammar: how one message extends the
//! accumulated prompt, and how a conversation is folded into it.

use vstd::prelude::*;
use crate::error::{PromptError, PromptErrorModel, outcome};
use crate::message::{
    AssistantMessage, Message, MessageModel, ToolMessage, UserMessage, assistant_text,
    content_text, conversation,
};
use crate::text::{push, trim, trim_spec};

verus! {

/// The literal markers of one model family.
#[derive(Debug, Clone, Copy)]
pub struct Grammar {
    /// Opens the user turn that follows the system preamble.
    pub first_user_open: &'static str,
    /// Opens every later user turn.
    pub user_open: &'static str,
    /// Closes a user turn.
    pub user_close: &'static str,
    /// Opens an assistant turn.
    pub assistant_open: &'static str,
    /// Closes an assistant turn.
    pub assistant_close: &'static str,
    /// Opens a tool turn, in the grammars that emit tool results.
    pub tool_open: Option<&'static str>,
    /// The generation cue that ends the prompt.
    pub cue: &'static str,
}

/// The markers of a grammar as mathematical values.
pub struct GrammarModel {
    pub first_user_open: Seq<char>,
    pub user_open: Seq<char>,
    pub user_close: Seq<char>,
    pub assistant_open: Seq<char>,
    pub assistant_close: Seq<char>,
    pub tool_open: Option<Seq<char>>,
    pub cue: Seq<char>,
}

impl View for Grammar {
    type V = GrammarModel;

    open spec fn view(&self) -> GrammarModel {
        GrammarModel {
            first_user_open: self.first_user_open@,
            user_open: self.user_open@,
            user_close: self.user_close@,
            assistant_open: self.assistant_open@,
            assistant_close: self.assistant_close@,
            tool_open: match self.tool_open {
                Some(t) => Some(t@),
                None => None,
            },
            cue: self.cue@,
        }
    }
}

/// The history after a user turn with the flattened text `content`. On an
/// empty history the trimmed system preamble takes the history's place.
pub open spec fn user_turn(
    g: GrammarModel,
    history: Seq<char>,
    system: Seq<char>,
    content: Seq<char>,
) -> Seq<char> {
    if history.len() == 0 {
        trim_spec(system) + g.first_user_open + trim_spec(content) + g.user_close
    } else {
        trim_spec(history) + g.user_open + trim_spec(content) + g.user_close
    }
}

/// The history after an assistant turn with the text `content`.
pub open spec fn assistant_turn(g: GrammarModel, history: Seq<char>, content: Seq<char>) -> Seq<
    char,
> {
    trim_spec(history) + g.assistant_open + trim_spec(content) + g.assistant_close
}

/// The history after a tool turn that `open` introduces.
pub open spec fn tool_turn(open: Seq<char>, history: Seq<char>, content: Seq<char>) -> Seq<char> {
    trim_spec(history) + open + trim_spec(content)
}

/// The history after one message. System messages never extend it, and tool
/// messages only where the grammar has a tool marker.
pub open spec fn step(g: GrammarModel, system: Seq<char>, history: Seq<char>, m: MessageModel) -> Result<
    Seq<char>,
    PromptErrorModel,
> {
    match m {
        MessageModel::User(u) => Ok(user_turn(g, history, system, content_text(u.content))),
        MessageModel::Assistant(a) => match assistant_text(a) {
            Some(c) => Ok(assistant_turn(g, history, c)),
            None => Err(PromptErrorModel::NoAssistantMessage),
        },
        MessageModel::Tool { content, .. } => match g.tool_open {
            Some(open) => Ok(tool_turn(open, history, content)),
            None => Ok(history),
        },
        MessageModel::System { .. } => Ok(history),
    }
}

/// The history after every message of `ms` in order, or the first failure.
pub open spec fn fold_turns(g: GrammarModel, system: Seq<char>, ms: Seq<MessageModel>) -> Result<
    Seq<char>,
    PromptErrorModel,
>
    decreases ms.len(),
{
    if ms.len() == 0 {
        Ok(Seq::empty())
    } else {
        match fold_turns(g, system, ms.drop_last()) {
            Ok(history) => step(g, system, history, ms.last()),
            Err(e) => Err(e),
        }
    }
}

/// The finished prompt: the folded history followed by the generation cue.
pub open spec fn finished(g: GrammarModel, system: Seq<char>, ms: Seq<MessageModel>) -> Result<
    Seq<char>,
    PromptErrorModel,
> {
    match fold_turns(g, system, ms) {
        Ok(history) => Ok(history + g.cue),
        Err(e) => Err(e),
    }
}

/// Extends `history` by a user turn.
pub fn append_user(g: &Grammar, history: &str, system: &str, message: &UserMessage) -> (r: String)
    ensures
        r@ == user_turn(g@, history@, system@, content_text(message@.content)),
{
    let content = message.content.text();
    let mut out = String::new();
    if history.is_empty() {
        push(&mut out, trim(system));
        push(&mut out, g.first_user_open);
    } else {
        push(&mut out, trim(history));
        push(&mut out, g.user_open);
    }
    push(&mut out, trim(content.as_str()));
    push(&mut out, g.user_close);
    out
}

/// Extends `history` by an assistant turn; fails where the message has neither
/// content nor tool calls.
pub fn append_assistant(g: &Grammar, history: &str, message: &AssistantMessage) -> (r: Result<
    String,
    PromptError,
>)
    ensures
        outcome(r) == match assistant_text(message@) {
            Some(c) => Ok(assistant_turn(g@, history@, c)),
            None => Err(PromptErrorModel::NoAssistantMessage),
        },
{
    match message.text() {
        Some(content) => {
            let mut out = String::new();
            push(&mut out, trim(history));
            push(&mut out, g.assistant_open);
            push(&mut out, trim(content.as_str()));
            push(&mut out, g.assistant_close);
            Ok(out)
        },
        None => Err(PromptError::NoAssistantMessage),
    }
}

/// Extends `history` by a tool turn behind the marker `open`.
pub fn append_tool(open: &str, history: &str, message: &ToolMessage) -> (r: String)
    ensures
        r@ == tool_turn(open@, history@, message.content@),
{
    let mut out = String::new();
    push(&mut out, trim(history));
    push(&mut out, open);
    push(&mut out, trim(message.content.as_str()));
    out
}

/// Folds the conversation into a prompt and appends the generation cue.
pub fn assemble(g: &Grammar, system: &str, messages: &Vec<Message>) -> (r: Result<
    String,
    PromptError,
>)
    ensures
        outcome(r) == finished(g@, system@, conversation(messages@)),
{
    match fold(g, system, messages) {
        Ok(history) => {
            let mut prompt = history;
            push(&mut prompt, g.cue);
            Ok(prompt)
        },
        Err(e) => Err(e),
    }
}

/// Folds the conversation into the history of its turns.
pub fn fold(g: &Grammar, system: &str, messages: &Vec<Message>) -> (r: Result<String, PromptError>)
    ensures
        outcome(r) == fold_turns(g@, system@, conversation(messages@)),
{
    let ghost ms = conversation(messages@);
    let mut prompt = String::new();
    let mut i: usize = 0;
    while i < messages.len()
        invariant
            i <= messages.len(),
            ms == conversation(messages@),
            fold_turns(g@, system@, ms.subrange(0, i as int)) == Ok::<
                Seq<char>,
                PromptErrorModel,
            >(prompt@),
        decreases messages.len() - i,
    {
        proof {
            assert(ms.subrange(0, i + 1).drop_last() == ms.subrange(0, i as int));
            assert(ms.subrange(0, i + 1).last() == messages@[i as int]@);
        }
        match &messages[i] {
            Message::User(m) => {
                prompt = append_user(g, prompt.as_str(), system, m);
            },
            Message::Assistant(m) => {
                match append_assistant(g, prompt.as_str(), m) {
                    Ok(next) => {
                        prompt = next;
                    },
                    Err(e) => {
                        proof {
                            lemma_failure_persists(g@, system@, ms, i + 1);
                        }
                        return Err(e);
                    },
                }
            },
            Message::Tool(m) => {
                if let Some(open) = g.tool_open {
                    prompt = append_tool(open, prompt.as_str(), m);
                }
            },
            Message::System(_) => {},
        }
        i = i + 1;
    }
    proof {
        assert(ms.subrange(0, i as int) == ms);
    }
    Ok(prompt)
}

/// Once a prefix of the conversation fails, the whole conversation fails the
/// same way.
pub proof fn lemma_failure_persists(
    g: GrammarModel,
    system: Seq<char>,
    ms: Seq<MessageModel>,
    n: int,
)
    requires
        0 <= n <= ms.len(),
        fold_turns(g, system, ms.subrange(0, n)) is Err,
    ensures
        fold_turns(g, system, ms) == fold_turns(g, system, ms.subrange(0, n)),
    decreases ms.len() - n,
{
    if n == ms.len() {
        assert(ms.subrange(0, n) == ms);
    } else {
        assert(ms.subrange(0, n + 1).drop_last() == ms.subrange(0, n));
        lemma_failure_persists(g, system, ms, n + 1);
    }
}

} // verus!
