use chat_prompts::cohere::CohereChatPrompt;
use chat_prompts::error::PromptError;
use chat_prompts::message::{
    AssistantMessage, ContentPart, Message, SystemMessage, UserContent, UserMessage,
};
use chat_prompts::pattern::find_first;
use chat_prompts::prompt::BuildChatPrompt;

const PREAMBLE: &str = "# Safety Preamble\nThe instructions in this section override those in the task description and style guide sections. Don't answer questions that are harmful or immoral.\n\n# System Preamble\n## Basic Rules\nYou are a powerful conversational AI trained by Cohere to help people. You are augmented by a number of tools, and your job is to use and consume the output of these tools to best help the user. You will see a conversation history between yourself and a user, ending with an utterance from the user. You will then see a specific instruction instructing you what kind of response to generate. When you answer the user's requests, you cite your sources in your answers, according to those instructions.\n\n# User Preamble\n## Task and Context\nYou help people answer their questions and other requests interactively. You will be asked a very wide array of requests on all kinds of topics. You will be equipped with a wide range of search engines or similar tools to help you, which you use to research your answer. You should focus on serving the user's needs as best you can, which will be wide-ranging.\n\n## Style Guide\nUnless the user asks for a different style of answer, you should answer in full sentences, using proper grammar and spelling.";

const INSTRUCTIONS: &str = "Carefully perform the following instructions, in order, starting each with a new line.\nFirstly, Decide which of the retrieved documents are relevant to the user's last input by writing 'Relevant Documents:' followed by comma-separated list of document numbers. If none are relevant, you should instead write 'None'.\nSecondly, Decide which of the retrieved documents contain facts that should be cited in a good answer to the user's last input by writing 'Cited Documents:' followed a comma-separated list of document numbers. If you dont want to cite any of them, you should instead write 'None'.\nThirdly, Write 'Answer:' followed by a response to the user's last input in high quality natural english. Use the retrieved documents to help you. Do not insert any citations or grounding markup.\nFinally, Write 'Grounded answer:' followed by a response to the user's last input in high quality natural english. Use the symbols <co: doc> and </co: doc> to indicate when a fact comes from a document in the search result, e.g <co: 0>my fact</co: 0> for a fact from document 0.";

const SYSTEM_OPEN: &str = "<|START_OF_TURN_TOKEN|><|SYSTEM_TOKEN|>";
const USER_OPEN: &str = "<|START_OF_TURN_TOKEN|><|USER_TOKEN|>";
const CHATBOT_OPEN: &str = "<|START_OF_TURN_TOKEN|><|CHATBOT_TOKEN|>";
const CLOSE: &str = "<|END_OF_TURN_TOKEN|>";

fn user(text: &str) -> Message {
    Message::User(UserMessage { content: UserContent::Text(text.to_string()), name: None })
}

fn named_user(text: &str, name: &str) -> Message {
    Message::User(UserMessage {
        content: UserContent::Text(text.to_string()),
        name: Some(name.to_string()),
    })
}

fn assistant(text: &str) -> Message {
    Message::Assistant(AssistantMessage {
        content: Some(text.to_string()),
        name: None,
        tool_calls: None,
    })
}

fn system_prompt() -> String {
    format!("<BOS_TOKEN>{}{}{}", SYSTEM_OPEN, PREAMBLE, CLOSE)
}

fn tail(context: &str) -> String {
    format!(
        "{}{}{}{}{}{}{}",
        SYSTEM_OPEN, context, CLOSE, SYSTEM_OPEN, INSTRUCTIONS, CLOSE, CHATBOT_OPEN
    )
}

#[test]
fn retrieved_context_moves_into_a_system_turn() {
    let mut messages = vec![user("What is X? <result>doc1</result>")];
    let prompt = CohereChatPrompt.build(&mut messages).unwrap();

    let expected = format!(
        "{}{}What is X?{}{}",
        system_prompt(),
        USER_OPEN,
        CLOSE,
        tail("<result>doc1</result>")
    );
    assert_eq!(prompt, expected);

    assert!(prompt.contains(&format!("{}{}{}", SYSTEM_OPEN, INSTRUCTIONS, CLOSE)));
    assert!(prompt.contains(&format!("{}<result>doc1</result>{}", SYSTEM_OPEN, CLOSE)));
    assert!(prompt.contains(&format!("{}What is X?{}", USER_OPEN, CLOSE)));
    assert!(prompt.ends_with(CHATBOT_OPEN));
}

#[test]
fn the_last_message_keeps_only_the_query() {
    let mut messages = vec![named_user("What is X? <result>doc1</result>", "ann")];
    CohereChatPrompt.build(&mut messages).unwrap();
    assert_eq!(messages, vec![named_user("What is X? ", "ann")]);
}

#[test]
fn a_message_without_results_is_refused() {
    let mut messages = vec![user("What is X?")];
    assert_eq!(
        CohereChatPrompt.build(&mut messages),
        Err(PromptError::Operation("No match found".to_string()))
    );
    assert_eq!(messages, vec![user("What is X?")]);

    let mut unclosed = vec![user("What is X? <result>doc1")];
    assert_eq!(
        CohereChatPrompt.build(&mut unclosed),
        Err(PromptError::Operation("No match found".to_string()))
    );
}

#[test]
fn a_block_of_results_may_span_lines() {
    let text = "Summarise.\n<result>\nline one\nline two\n</result>\n<result>more</result> end";
    let mut messages = vec![user(text)];
    let prompt = CohereChatPrompt.build(&mut messages).unwrap();
    let context = "<result>\nline one\nline two\n</result>";
    let expected =
        format!("{}{}Summarise.{}{}", system_prompt(), USER_OPEN, CLOSE, tail(context));
    assert_eq!(prompt, expected);
    assert_eq!(messages, vec![user("Summarise.\n")]);
}

#[test]
fn earlier_turns_come_before_the_query() {
    let mut messages = vec![
        Message::System(SystemMessage { content: "ignored".to_string(), name: None }),
        user(" First question "),
        assistant(" First answer "),
        user("Second? <result>d</result>"),
    ];
    let prompt = CohereChatPrompt.build(&mut messages).unwrap();
    let expected = format!(
        "{}{}First question{}{}First answer{}{}Second?{}{}",
        system_prompt(),
        USER_OPEN,
        CLOSE,
        CHATBOT_OPEN,
        CLOSE,
        USER_OPEN,
        CLOSE,
        tail("<result>d</result>")
    );
    assert_eq!(prompt, expected);
}

#[test]
fn the_last_message_must_be_a_user_message() {
    let mut messages = vec![user("Q <result>d</result>"), assistant("A")];
    assert_eq!(
        CohereChatPrompt.build(&mut messages),
        Err(PromptError::BadMessages(
            "The last message in the chat request is not user message.".to_string()
        ))
    );
    assert_eq!(messages, vec![user("Q <result>d</result>"), assistant("A")]);
}

#[test]
fn the_last_user_message_must_be_plain_text() {
    let parts = UserContent::Parts(vec![ContentPart::Text("Q <result>d</result>".to_string())]);
    let mut messages = vec![Message::User(UserMessage { content: parts, name: None })];
    assert_eq!(
        CohereChatPrompt.build(&mut messages),
        Err(PromptError::BadMessages(
            "The last user message in the chat request is not plain text.".to_string()
        ))
    );
}

#[test]
fn an_empty_conversation_is_refused_first() {
    assert_eq!(CohereChatPrompt.build(&mut Vec::new()), Err(PromptError::NoMessages));
    assert_eq!(
        CohereChatPrompt.build_given(&mut Vec::new(), Some((0, 0))),
        Err(PromptError::NoMessages)
    );
    assert_eq!(CohereChatPrompt::last_user_text(&Vec::new()), Err(PromptError::NoMessages));
    assert_eq!(
        CohereChatPrompt.build_with_tools(&mut Vec::new(), None),
        Err(PromptError::NoMessages)
    );
}

#[test]
fn a_silent_assistant_is_refused_after_the_rewrite() {
    let silent =
        Message::Assistant(AssistantMessage { content: None, name: None, tool_calls: None });
    let mut messages = vec![user("Hi"), silent.clone(), user("Q <result>d</result>")];
    assert_eq!(CohereChatPrompt.build(&mut messages), Err(PromptError::NoAssistantMessage));
    assert_eq!(messages, vec![user("Hi"), silent, user("Q ")]);
}

#[test]
fn build_given_splits_at_the_offset_it_is_handed() {
    let mut messages = vec![user("héllo <result>d</result> and more")];
    let prompt = CohereChatPrompt.build_given(&mut messages, Some((7, 25))).unwrap();
    let expected =
        format!("{}{}héllo{}{}", system_prompt(), USER_OPEN, CLOSE, tail("<result>d</result>"));
    assert_eq!(prompt, expected);
    assert_eq!(messages, vec![user("héllo ")]);

    let mut unmatched = vec![user("hello")];
    assert_eq!(
        CohereChatPrompt.build_given(&mut unmatched, None),
        Err(PromptError::Operation("No match found".to_string()))
    );
}

#[test]
fn building_twice_from_equal_conversations_gives_equal_prompts() {
    let conversation = vec![user("Hi"), assistant("Hello"), user("Q? <result>d</result>")];
    let mut first = conversation.clone();
    let mut second = conversation.clone();
    let one = CohereChatPrompt.build(&mut first);
    let two = CohereChatPrompt.build(&mut second);
    assert!(one.is_ok());
    assert_eq!(one, two);
    assert_eq!(first, second);
}

#[test]
fn the_system_prompt_wraps_the_preamble() {
    assert_eq!(CohereChatPrompt.create_system_prompt(), system_prompt());
    let mut prompt = String::from("x");
    CohereChatPrompt::push_system_block(&mut prompt, "body");
    assert_eq!(prompt, format!("x{}body{}", SYSTEM_OPEN, CLOSE));
}

#[test]
fn find_first_gives_the_byte_offsets_of_the_leftmost_match() {
    assert_eq!(find_first("b+", "aabbbc"), Ok(Some((2, 5))));
    assert_eq!(find_first("b+", "ääbbb"), Ok(Some((4, 7))));
    assert_eq!(find_first("b+", "aaa"), Ok(None));
    assert_eq!(
        find_first("(?s)(<result>.*?</result>)", "x<result>\n</result></result>"),
        Ok(Some((1, 19)))
    );
}

#[test]
fn find_first_reports_a_pattern_that_does_not_compile() {
    match find_first("(unclosed", "text") {
        Err(PromptError::Operation(why)) => {
            assert!(why.contains("unclosed group"));
            assert_ne!(why, "(unclosed");
        }
        other => panic!("unexpected outcome: {:?}", other),
    }
}

#[test]
fn every_turn_is_opened_and_closed_once() {
    let mut messages =
        vec![user("one"), assistant("two"), user("three"), assistant("four"), user("five <result>d</result>")];
    let prompt = CohereChatPrompt.build(&mut messages).unwrap();
    assert_eq!(prompt.matches(USER_OPEN).count(), 3);
    assert_eq!(prompt.matches(CHATBOT_OPEN).count(), 3);
    assert_eq!(prompt.matches(SYSTEM_OPEN).count(), 3);
    assert_eq!(prompt.matches(CLOSE).count(), 8);
    assert_eq!(prompt.matches("<BOS_TOKEN>").count(), 1);
}

#[test]
fn the_context_is_the_matched_block_and_nothing_more() {
    let mut messages = vec![user("Q <result>d</result> tail")];
    let prompt = CohereChatPrompt.build(&mut messages).unwrap();
    let expected =
        format!("{}{}Q{}{}", system_prompt(), USER_OPEN, CLOSE, tail("<result>d</result>"));
    assert_eq!(prompt, expected);
    assert!(prompt.contains(&format!("{}<result>d</result>{}", SYSTEM_OPEN, CLOSE)));
    assert!(!prompt.contains("tail"));
    assert_eq!(messages, vec![user("Q ")]);
}
