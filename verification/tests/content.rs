use chat_prompts::message::{AssistantMessage, ContentPart, ToolCall, UserContent};
use chat_prompts::text::{cut_text, push, split_text};

#[test]
fn multi_part_content_keeps_text_parts_in_order() {
    let content = UserContent::Parts(vec![
        ContentPart::Text("a".to_string()),
        ContentPart::Image("https://example.com/cat.png".to_string()),
        ContentPart::Text("b".to_string()),
    ]);
    assert_eq!(content.text(), "a\nb\n");
}

#[test]
fn plain_content_is_returned_verbatim() {
    let content = UserContent::Text("  keep my spaces \n".to_string());
    assert_eq!(content.text(), "  keep my spaces \n");
}

#[test]
fn content_without_text_parts_is_empty() {
    let content = UserContent::Parts(vec![
        ContentPart::Image("a.png".to_string()),
        ContentPart::Audio("clip".to_string()),
        ContentPart::File("report.pdf".to_string()),
    ]);
    assert_eq!(content.text(), "");
    assert_eq!(UserContent::Parts(Vec::new()).text(), "");
}

#[test]
fn assistant_text_follows_content_and_tool_calls() {
    let with_content = AssistantMessage {
        content: Some("hello".to_string()),
        name: None,
        tool_calls: None,
    };
    assert_eq!(with_content.text(), Some("hello".to_string()));

    let call = ToolCall {
        id: "call_1".to_string(),
        name: "get_weather".to_string(),
        arguments: "{}".to_string(),
    };
    let only_calls = AssistantMessage { content: None, name: None, tool_calls: Some(vec![call]) };
    assert_eq!(only_calls.text(), Some(String::new()));

    let empty_calls = AssistantMessage { content: None, name: None, tool_calls: Some(Vec::new()) };
    assert_eq!(empty_calls.text(), None);

    let neither = AssistantMessage { content: None, name: None, tool_calls: None };
    assert_eq!(neither.text(), None);
}

#[test]
fn push_appends_in_place() {
    let mut acc = String::from("ab");
    push(&mut acc, "cd");
    push(&mut acc, "");
    assert_eq!(acc, "abcd");
}

#[test]
fn split_text_cuts_between_characters() {
    let (head, tail) = split_text("héllo wörld", 3);
    assert_eq!(head, "hé");
    assert_eq!(tail, "llo wörld");
    let (head, tail) = split_text("abc", 0);
    assert_eq!(head, "");
    assert_eq!(tail, "abc");
    let (head, tail) = split_text("abc", 3);
    assert_eq!(head, "abc");
    assert_eq!(tail, "");
}

#[test]
fn cut_text_gives_what_stands_before_and_between() {
    let (before, between) = cut_text("héllo wörld", 3, 10);
    assert_eq!(before, "hé");
    assert_eq!(between, "llo wö");
    let (before, between) = cut_text("abc", 1, 1);
    assert_eq!(before, "a");
    assert_eq!(between, "");
    let (before, between) = cut_text("abc", 0, 3);
    assert_eq!(before, "");
    assert_eq!(between, "abc");
}
