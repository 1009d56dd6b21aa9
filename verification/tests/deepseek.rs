use chat_prompts::deepseek::{
    DeepseekChat25Prompt, DeepseekChat2Prompt, DeepseekChatPrompt, DeepseekCoderPrompt,
    DeepseekToolPrompt,
};
use chat_prompts::error::PromptError;
use chat_prompts::message::{
    AssistantMessage, ContentPart, Message, SystemMessage, ToolCall, ToolMessage, UserContent,
    UserMessage,
};
use chat_prompts::prompt::BuildChatPrompt;

const CODER_DEFAULT: &str = "You are an AI programming assistant, utilizing the DeepSeek Coder model, developed by DeepSeek Company, and you only answer questions related to computer science. For politically sensitive questions, security and privacy issues, and other non-computer science questions, you will refuse to answer.";

fn system(text: &str) -> Message {
    Message::System(SystemMessage { content: text.to_string(), name: None })
}

fn user(text: &str) -> Message {
    Message::User(UserMessage { content: UserContent::Text(text.to_string()), name: None })
}

fn user_message(text: &str) -> UserMessage {
    UserMessage { content: UserContent::Text(text.to_string()), name: None }
}

fn assistant(text: &str) -> Message {
    Message::Assistant(AssistantMessage {
        content: Some(text.to_string()),
        name: None,
        tool_calls: None,
    })
}

fn calling_assistant() -> Message {
    Message::Assistant(AssistantMessage {
        content: None,
        name: None,
        tool_calls: Some(vec![ToolCall {
            id: "call_0".to_string(),
            name: "multiply".to_string(),
            arguments: "{\"a\":6,\"b\":7}".to_string(),
        }]),
    })
}

fn silent_assistant() -> Message {
    Message::Assistant(AssistantMessage { content: None, name: None, tool_calls: None })
}

fn idle_assistant() -> Message {
    Message::Assistant(AssistantMessage { content: None, name: None, tool_calls: Some(Vec::new()) })
}

fn tool(text: &str) -> Message {
    Message::Tool(ToolMessage { content: text.to_string(), tool_call_id: "call_0".to_string() })
}

#[test]
fn chat_prompt_of_a_three_turn_conversation() {
    let mut messages = vec![user("Hello"), assistant("Hi there"), user(" How are you? ")];
    let prompt = DeepseekChatPrompt.build(&mut messages).unwrap();
    assert_eq!(
        prompt,
        "User: Hello\n\nAssistant: Hi there<|end_of_sentence|>User: How are you?\n\nAssistant:"
    );
}

#[test]
fn chat_prompt_skips_system_and_tool_messages() {
    let mut messages = vec![system("Be kind."), user("Hello"), tool("42")];
    let prompt = DeepseekChatPrompt.build(&mut messages).unwrap();
    assert_eq!(prompt, "User: Hello\n\nAssistant:");
}

#[test]
fn chat_turns_one_at_a_time() {
    let formatter = DeepseekChatPrompt;
    let first = formatter.append_user_message("", &user_message("  Hello\n"));
    assert_eq!(first, "User: Hello");
    let reply = AssistantMessage { content: Some(" Hi ".to_string()), name: None, tool_calls: None };
    let second = formatter.append_assistant_message(&first, &reply).unwrap();
    assert_eq!(second, "User: Hello\n\nAssistant: Hi<|end_of_sentence|>");
    let third = formatter.append_user_message(&second, &user_message("Bye"));
    assert_eq!(third, "User: Hello\n\nAssistant: Hi<|end_of_sentence|>User: Bye");
}

#[test]
fn trimming_the_history_reaches_the_marker_of_an_empty_turn() {
    let mut messages = vec![user(""), user("x")];
    let prompt = DeepseekChatPrompt.build(&mut messages).unwrap();
    assert_eq!(prompt, "User:User: x\n\nAssistant:");
}

#[test]
fn coder_prompt_uses_the_default_system_text() {
    let mut without = vec![user("Write fizzbuzz")];
    let expected = format!("{}\n### Instruction:\nWrite fizzbuzz\n### Response:", CODER_DEFAULT);
    assert_eq!(DeepseekCoderPrompt.build(&mut without).unwrap(), expected);

    let mut empty = vec![system(""), user("Write fizzbuzz")];
    assert_eq!(DeepseekCoderPrompt.build(&mut empty).unwrap(), expected);
}

#[test]
fn coder_prompt_with_its_own_system_text() {
    let mut messages = vec![system("You write Rust."), user("A"), assistant("B"), user("C")];
    let prompt = DeepseekCoderPrompt.build(&mut messages).unwrap();
    assert_eq!(
        prompt,
        "You write Rust.\n### Instruction:\nA\n### Response:\nB\n<|EOT|>\n### Instruction:\nC\n### Response:"
    );
}

#[test]
fn coder_system_prompt_falls_back_on_empty_text() {
    let formatter = DeepseekCoderPrompt;
    let given = SystemMessage { content: "Be terse.".to_string(), name: None };
    assert_eq!(formatter.create_system_prompt(&given), "Be terse.");
    let empty = SystemMessage { content: String::new(), name: None };
    assert_eq!(formatter.create_system_prompt(&empty), CODER_DEFAULT);
}

#[test]
fn chat2_prompt_opens_with_the_begin_of_sentence_marker() {
    let mut messages = vec![user("Hi")];
    let prompt = DeepseekChat2Prompt.build(&mut messages).unwrap();
    assert_eq!(
        prompt,
        format!("<|begin▁of▁sentence|>{}\n\nUser: Hi\n\nAssistant:", CODER_DEFAULT)
    );
}

#[test]
fn chat2_prompt_of_several_turns() {
    let mut messages = vec![system("Be brief."), user("Hi"), assistant("Hello"), user("Bye")];
    let prompt = DeepseekChat2Prompt.build(&mut messages).unwrap();
    assert_eq!(
        prompt,
        "<|begin▁of▁sentence|>Be brief.\n\nUser: Hi\n\nAssistant: Hello<|end_of_sentence|>User: Bye\n\nAssistant:"
    );
}

#[test]
fn chat25_prompt_of_several_turns() {
    let mut messages = vec![system("Be brief."), user("Hi"), assistant("Hello"), user("Bye")];
    let prompt = DeepseekChat25Prompt.build(&mut messages).unwrap();
    assert_eq!(
        prompt,
        "<|begin▁of▁sentence|>Be brief.<|User|>Hi<|Assistant|>Hello<|end_of_sentence|><|User|>Bye<|Assistant|>"
    );
}

#[test]
fn chat25_prompt_without_a_system_message() {
    let mut messages = vec![user("Hi")];
    let prompt = DeepseekChat25Prompt.build(&mut messages).unwrap();
    assert_eq!(prompt, "<|begin▁of▁sentence|>You are a helpful Assistant.<|User|>Hi<|Assistant|>");
    let empty = SystemMessage { content: String::new(), name: None };
    assert_eq!(
        DeepseekChat25Prompt.create_system_prompt(&empty),
        "<|begin▁of▁sentence|>You are a helpful Assistant."
    );
}

#[test]
fn chat25_prompt_flattens_multi_part_content() {
    let parts = UserContent::Parts(vec![
        ContentPart::Text("a".to_string()),
        ContentPart::Image("cat.png".to_string()),
        ContentPart::Text("b".to_string()),
    ]);
    let mut messages = vec![Message::User(UserMessage { content: parts, name: None })];
    let prompt = DeepseekChat25Prompt.build(&mut messages).unwrap();
    assert_eq!(
        prompt,
        "<|begin▁of▁sentence|>You are a helpful Assistant.<|User|>a\nb<|Assistant|>"
    );
}

#[test]
fn an_assistant_turn_with_only_tool_calls_is_empty() {
    let mut messages = vec![user("What is 6 times 7?"), calling_assistant(), user("Well?")];
    let prompt = DeepseekChat25Prompt.build(&mut messages).unwrap();
    assert_eq!(
        prompt,
        "<|begin▁of▁sentence|>You are a helpful Assistant.<|User|>What is 6 times 7?<|Assistant|><|end_of_sentence|><|User|>Well?<|Assistant|>"
    );
}

#[test]
fn an_empty_conversation_has_no_prompt() {
    let tools = Vec::new();
    assert_eq!(DeepseekChatPrompt.build(&mut Vec::new()), Err(PromptError::NoMessages));
    assert_eq!(DeepseekCoderPrompt.build(&mut Vec::new()), Err(PromptError::NoMessages));
    assert_eq!(DeepseekChat2Prompt.build(&mut Vec::new()), Err(PromptError::NoMessages));
    assert_eq!(DeepseekChat25Prompt.build(&mut Vec::new()), Err(PromptError::NoMessages));
    assert_eq!(DeepseekToolPrompt.build(&mut Vec::new()), Err(PromptError::NoMessages));
    assert_eq!(
        DeepseekToolPrompt.build_with_tools(&mut Vec::new(), Some(&tools)),
        Err(PromptError::NoMessages)
    );
    assert_eq!(
        DeepseekToolPrompt.build_with_tools(&mut Vec::new(), None),
        Err(PromptError::NoMessages)
    );
    assert_eq!(
        DeepseekChatPrompt.build_with_tools(&mut Vec::new(), None),
        Err(PromptError::NoMessages)
    );
}

#[test]
fn an_assistant_without_content_or_tool_calls_is_refused() {
    let conversation = vec![user("Hi"), silent_assistant(), user("Still there?")];
    assert_eq!(
        DeepseekChatPrompt.build(&mut conversation.clone()),
        Err(PromptError::NoAssistantMessage)
    );
    assert_eq!(
        DeepseekCoderPrompt.build(&mut conversation.clone()),
        Err(PromptError::NoAssistantMessage)
    );
    assert_eq!(
        DeepseekChat2Prompt.build(&mut conversation.clone()),
        Err(PromptError::NoAssistantMessage)
    );
    assert_eq!(
        DeepseekChat25Prompt.build(&mut conversation.clone()),
        Err(PromptError::NoAssistantMessage)
    );
    assert_eq!(
        DeepseekToolPrompt.build(&mut conversation.clone()),
        Err(PromptError::NoAssistantMessage)
    );
    assert_eq!(
        DeepseekToolPrompt.build_with_tools(&mut conversation.clone(), None),
        Err(PromptError::NoAssistantMessage)
    );
    let silent = AssistantMessage { content: None, name: None, tool_calls: None };
    assert_eq!(
        DeepseekChatPrompt.append_assistant_message("User: Hi", &silent),
        Err(PromptError::NoAssistantMessage)
    );
    assert_eq!(
        DeepseekToolPrompt.append_assistant_message("", &silent),
        Err(PromptError::NoAssistantMessage)
    );
}

#[test]
fn an_assistant_with_an_empty_list_of_tool_calls_is_refused() {
    let mut messages = vec![user("Hi"), idle_assistant()];
    assert_eq!(DeepseekChat25Prompt.build(&mut messages), Err(PromptError::NoAssistantMessage));
    assert_eq!(
        DeepseekToolPrompt.build_with_tools(&mut messages, None),
        Err(PromptError::NoAssistantMessage)
    );
}

#[test]
fn building_twice_gives_the_same_prompt() {
    let conversation = vec![system("Be brief."), user("Hi"), assistant("Hello"), user("Bye")];
    let mut first = conversation.clone();
    let mut second = conversation.clone();
    assert_eq!(DeepseekChatPrompt.build(&mut first), DeepseekChatPrompt.build(&mut second));
    assert_eq!(DeepseekCoderPrompt.build(&mut first), DeepseekCoderPrompt.build(&mut second));
    assert_eq!(DeepseekChat2Prompt.build(&mut first), DeepseekChat2Prompt.build(&mut second));
    assert_eq!(DeepseekChat25Prompt.build(&mut first), DeepseekChat25Prompt.build(&mut second));
    assert_eq!(DeepseekToolPrompt.build(&mut first), DeepseekToolPrompt.build(&mut second));
    assert_eq!(first, conversation);
    assert_eq!(second, conversation);
}

#[test]
fn tool_prompt_without_tools_skips_tool_messages() {
    let mut messages = vec![user("What is 6 times 7?"), calling_assistant(), tool("42")];
    let prompt = DeepseekToolPrompt.build(&mut messages).unwrap();
    assert_eq!(
        prompt,
        "<|begin▁of▁sentence|>You are a helpful Assistant.<|User|>What is 6 times 7?<|Assistant|><|end_of_sentence|><|Assistant|>"
    );
}

#[test]
fn tool_prompt_emits_tool_turns() {
    let mut messages =
        vec![user("What is 6 times 7?"), calling_assistant(), tool(" 42\n"), user("Thanks")];
    let prompt = DeepseekToolPrompt.build_with_tools(&mut messages, None).unwrap();
    assert_eq!(
        prompt,
        "<|im_start|>system\nAnswer as concisely as possible.<|im_end|><|User|>What is 6 times 7?<|Assistant|><|end_of_sentence|><|tool|>42<|User|>Thanks<|Assistant|>"
    );
}

#[test]
fn tool_turn_is_the_trimmed_result_behind_its_marker() {
    let message = ToolMessage { content: "  sunny \n".to_string(), tool_call_id: "c".to_string() };
    assert_eq!(DeepseekToolPrompt.append_tool_message(" history ", &message), "history<|tool|>sunny");
    assert_eq!(DeepseekToolPrompt.append_tool_message("", &message), "<|tool|>sunny");
}

#[test]
fn every_turn_contributes_its_markers_once() {
    let mut messages = vec![
        system("Be brief."),
        user("one"),
        assistant("two"),
        user("three"),
        calling_assistant(),
        tool("four"),
        user("five"),
    ];
    let prompt = DeepseekToolPrompt.build_with_tools(&mut messages, None).unwrap();
    assert_eq!(prompt.matches("<|User|>").count(), 3);
    assert_eq!(prompt.matches("<|end_of_sentence|>").count(), 2);
    assert_eq!(prompt.matches("<|tool|>").count(), 1);
    assert_eq!(prompt.matches("<|Assistant|>").count(), 3);
    assert_eq!(prompt.matches("<|begin▁of▁sentence|>").count(), 1);
    assert_eq!(
        prompt,
        "<|begin▁of▁sentence|>Be brief.<|User|>one<|Assistant|>two<|end_of_sentence|><|User|>three<|Assistant|><|end_of_sentence|><|tool|>four<|User|>five<|Assistant|>"
    );
}

#[test]
fn trimming_removes_unicode_white_space_only() {
    let formatter = DeepseekChat25Prompt;
    let padded = user_message("\u{3000}\u{85}\t x\u{200B}\u{2003}\u{a0}\r\n");
    assert_eq!(formatter.append_user_message("h", "", &padded), "h<|User|>x\u{200B}");
    let inner = user_message("a \u{2028} b");
    assert_eq!(formatter.append_user_message("h", "", &inner), "h<|User|>a \u{2028} b");
    let blank = user_message(" \u{1680}\u{202f}\u{205f}\u{2029}\u{b}\u{c}");
    assert_eq!(formatter.append_user_message("h", "", &blank), "h<|User|>");
    let kept = user_message("\u{feff}x\u{180e}");
    assert_eq!(formatter.append_user_message("h", "", &kept), "h<|User|>\u{feff}x\u{180e}");
}

#[test]
fn the_system_preamble_is_trimmed_where_it_opens_the_prompt() {
    let mut messages = vec![system("  Be brief. \n"), user("Hi")];
    let prompt = DeepseekCoderPrompt.build(&mut messages).unwrap();
    assert_eq!(prompt, "Be brief.\n### Instruction:\nHi\n### Response:");
}

#[test]
fn a_conversation_that_opens_with_an_assistant_turn_has_no_preamble() {
    let mut messages = vec![assistant("Welcome"), user("Hi")];
    let prompt = DeepseekChat25Prompt.build(&mut messages).unwrap();
    assert_eq!(prompt, "<|Assistant|>Welcome<|end_of_sentence|><|User|>Hi<|Assistant|>");
}

#[test]
fn chat_markers_stand_once_per_turn_even_where_trimming_bites() {
    let mut messages = vec![user(""), assistant("a"), user(" "), user("x"), assistant("")];
    let prompt = DeepseekChatPrompt.build(&mut messages).unwrap();
    assert_eq!(prompt.matches("User:").count(), 3);
    assert_eq!(prompt.matches("<|end_of_sentence|>").count(), 2);
    assert_eq!(prompt.matches("Assistant:").count(), 3);
    assert!(prompt.ends_with("\n\nAssistant:"));
}

#[test]
fn coder_markers_stand_once_per_turn() {
    let mut messages = vec![system("  "), user("a"), assistant("b"), user(""), user("c")];
    let prompt = DeepseekCoderPrompt.build(&mut messages).unwrap();
    assert_eq!(prompt.matches("### Instruction:").count(), 3);
    assert_eq!(prompt.matches("<|EOT|>").count(), 1);
    assert_eq!(prompt.matches("### Response:").count(), 2);
    assert!(prompt.ends_with("\n### Response:"));
}

#[test]
fn chat2_markers_stand_once_per_turn() {
    let mut messages = vec![user("a"), assistant("b"), user("c")];
    let prompt = DeepseekChat2Prompt.build(&mut messages).unwrap();
    assert_eq!(prompt.matches("User:").count(), 2);
    assert_eq!(prompt.matches("<|end_of_sentence|>").count(), 1);
    assert_eq!(prompt.matches("Assistant:").count(), 2);
}
