//! The conversation model: role-tagged messages, the parts a user message may
//! be made of, and the mathematical view of each.

use vstd::prelude::*;

verus! {

/// One typed part of a multi-part user message. Only `Text` contributes to a
/// prompt; the other kinds carry the reference they were given and are skipped.
#[derive(Debug, Clone, PartialEq, Eq)]
pub enum ContentPart {
    Text(String),
    Image(String),
    Audio(String),
    File(String),
}

/// The content of a user message: plain text, or an ordered sequence of parts.
#[derive(Debug, Clone, PartialEq, Eq)]
pub enum UserContent {
    Text(String),
    Parts(Vec<ContentPart>),
}

/// A system message: instructions that stand before the conversation.
#[derive(Debug, Clone, PartialEq, Eq)]
pub struct SystemMessage {
    pub content: String,
    pub name: Option<String>,
}

/// A user turn.
#[derive(Debug, Clone, PartialEq, Eq)]
pub struct UserMessage {
    pub content: UserContent,
    pub name: Option<String>,
}

/// A request, made by an assistant turn, to invoke an external function.
#[derive(Debug, Clone, PartialEq, Eq)]
pub struct ToolCall {
    pub id: String,
    pub name: String,
    pub arguments: String,
}

/// An assistant turn. `content` may be absent only where `tool_calls` holds at
/// least one call.
#[derive(Debug, Clone, PartialEq, Eq)]
pub struct AssistantMessage {
    pub content: Option<String>,
    pub name: Option<String>,
    pub tool_calls: Option<Vec<ToolCall>>,
}

/// The result that a tool returned.
#[derive(Debug, Clone, PartialEq, Eq)]
pub struct ToolMessage {
    pub content: String,
    pub tool_call_id: String,
}

/// One entry of a conversation, tagged with its role.
#[derive(Debug, Clone, PartialEq, Eq)]
pub enum Message {
    System(SystemMessage),
    User(UserMessage),
    Assistant(AssistantMessage),
    Tool(ToolMessage),
}

/// A content part as a mathematical value.
pub enum PartModel {
    Text(Seq<char>),
    Image(Seq<char>),
    Audio(Seq<char>),
    File(Seq<char>),
}

/// The content of a user message as a mathematical value.
pub enum ContentModel {
    Text(Seq<char>),
    Parts(Seq<PartModel>),
}

/// A tool call as a mathematical value.
pub struct ToolCallModel {
    pub id: Seq<char>,
    pub name: Seq<char>,
    pub arguments: Seq<char>,
}

/// A user message as a mathematical value.
pub struct UserModel {
    pub content: ContentModel,
    pub name: Option<Seq<char>>,
}

/// An assistant message as a mathematical value.
pub struct AssistantModel {
    pub content: Option<Seq<char>>,
    pub name: Option<Seq<char>>,
    pub tool_calls: Option<Seq<ToolCallModel>>,
}

/// A message as a mathematical value.
pub enum MessageModel {
    System { content: Seq<char>, name: Option<Seq<char>> },
    User(UserModel),
    Assistant(AssistantModel),
    Tool { content: Seq<char>, tool_call_id: Seq<char> },
}

/// The view of an optional string.
pub open spec fn opt_text(o: Option<String>) -> Option<Seq<char>> {
    match o {
        Some(s) => Some(s@),
        None => None,
    }
}

impl View for ContentPart {
    type V = PartModel;

    open spec fn view(&self) -> PartModel {
        match *self {
            ContentPart::Text(s) => PartModel::Text(s@),
            ContentPart::Image(s) => PartModel::Image(s@),
            ContentPart::Audio(s) => PartModel::Audio(s@),
            ContentPart::File(s) => PartModel::File(s@),
        }
    }
}

impl View for UserContent {
    type V = ContentModel;

    open spec fn view(&self) -> ContentModel {
        match *self {
            UserContent::Text(s) => ContentModel::Text(s@),
            UserContent::Parts(parts) => ContentModel::Parts(parts@.map_values(|p: ContentPart| p@)),
        }
    }
}

impl View for ToolCall {
    type V = ToolCallModel;

    open spec fn view(&self) -> ToolCallModel {
        ToolCallModel { id: self.id@, name: self.name@, arguments: self.arguments@ }
    }
}

impl View for UserMessage {
    type V = UserModel;

    open spec fn view(&self) -> UserModel {
        UserModel { content: self.content@, name: opt_text(self.name) }
    }
}

impl View for AssistantMessage {
    type V = AssistantModel;

    open spec fn view(&self) -> AssistantModel {
        AssistantModel {
            content: opt_text(self.content),
            name: opt_text(self.name),
            tool_calls: match self.tool_calls {
                Some(calls) => Some(calls@.map_values(|c: ToolCall| c@)),
                None => None,
            },
        }
    }
}

impl View for Message {
    type V = MessageModel;

    open spec fn view(&self) -> MessageModel {
        match *self {
            Message::System(m) => MessageModel::System { content: m.content@, name: opt_text(m.name) },
            Message::User(m) => MessageModel::User(m@),
            Message::Assistant(m) => MessageModel::Assistant(m@),
            Message::Tool(m) => MessageModel::Tool {
                content: m.content@,
                tool_call_id: m.tool_call_id@,
            },
        }
    }
}

/// The text of a multi-part content: each text part in order, a newline after
/// each; parts of any other kind contribute nothing.
pub open spec fn parts_text(parts: Seq<PartModel>) -> Seq<char>
    decreases parts.len(),
{
    if parts.len() == 0 {
        Seq::empty()
    } else {
        parts_text(parts.drop_last()) + match parts.last() {
            PartModel::Text(t) => t + "\n"@,
            _ => Seq::empty(),
        }
    }
}

/// The text that a user message's content flattens to, before any trimming.
pub open spec fn content_text(content: ContentModel) -> Seq<char> {
    match content {
        ContentModel::Text(t) => t,
        ContentModel::Parts(parts) => parts_text(parts),
    }
}

/// Whether an assistant message carries at least one tool call.
pub open spec fn has_tool_calls(message: AssistantModel) -> bool {
    message.tool_calls matches Some(calls) && calls.len() > 0
}

/// The text of an assistant turn: its content where present, the empty text
/// where it only carries tool calls, nothing where it has neither.
pub open spec fn assistant_text(message: AssistantModel) -> Option<Seq<char>> {
    match message.content {
        Some(c) => Some(c),
        None => if has_tool_calls(message) {
            Some(Seq::empty())
        } else {
            None
        },
    }
}

impl UserContent {
    /// Flattens the content into one string.
    pub fn text(&self) -> (r: String)
        ensures
            r@ == content_text(self@),
    {
        match self {
            UserContent::Text(t) => t.clone(),
            UserContent::Parts(parts) => {
                let mut out = String::new();
                let mut i: usize = 0;
                while i < parts.len()
                    invariant
                        i <= parts.len(),
                        out@ == parts_text(parts@.map_values(|p: ContentPart| p@).subrange(0, i as int)),
                    decreases parts.len() - i,
                {
                    proof {
                        let all = parts@.map_values(|p: ContentPart| p@);
                        assert(all.subrange(0, i + 1).drop_last() == all.subrange(0, i as int));
                    }
                    if let ContentPart::Text(t) = &parts[i] {
                        out.append(t.as_str());
                        out.append("\n");
                    }
                    i = i + 1;
                }
                proof {
                    let all = parts@.map_values(|p: ContentPart| p@);
                    assert(all.subrange(0, i as int) == all);
                }
                out
            },
        }
    }
}

impl AssistantMessage {
    /// The text of this turn, or `None` where the message has neither content
    /// nor tool calls.
    pub fn text(&self) -> (r: Option<String>)
        ensures
            opt_text(r) == assistant_text(self@),
    {
        match &self.content {
            Some(c) => Some(c.clone()),
            None => {
                let calling = match &self.tool_calls {
                    Some(calls) => calls.len() > 0,
                    None => false,
                };
                if calling {
                    Some(String::new())
                } else {
                    None
                }
            },
        }
    }
}

/// The conversation that a sequence of messages stands for.
pub open spec fn conversation(messages: Seq<Message>) -> Seq<MessageModel> {
    messages.map_values(|m: Message| m@)
}

} // verus!
