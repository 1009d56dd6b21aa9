use chat_prompts::deepseek::DeepseekToolPrompt;
use chat_prompts::message::{Message, SystemMessage, UserContent, UserMessage};
use chat_prompts::prompt::BuildChatPrompt;
use chat_prompts::tool::{push_tool_entries, push_tool_entry, Tool, ToolFunction};

const SCHEMA: &str =
    "{\"properties\":{\"city\":{\"type\":\"string\"}},\"required\":[\"city\"],\"type\":\"object\"}";

const PRETTY: &str = "{\n  \"name\": \"get_weather\",\n  \"description\": \"Get the weather of a city\",\n  \"parameters\": {\n    \"properties\": {\n      \"city\": {\n        \"type\": \"string\"\n      }\n    },\n    \"required\": [\n      \"city\"\n    ],\n    \"type\": \"object\"\n  }\n}";

const HEADING: &str =
    "\n\n## Tools\n\n### Function\n\nYou have the following functions available:";

const INTRO: &str = "<|im_start|>system\\nYou are a function calling AI model. You are provided with function signatures within <tools></tools> XML tags. You may call one or more functions to assist with the user query. Don't make assumptions about what values to plug into functions. Here are the available tools:";

const CALLING_RULES: &str = "Use the following pydantic model json schema for each tool call you will make: {\"properties\": {\"arguments\": {\"title\": \"Arguments\", \"type\": \"object\"}, \"name\": {\"title\": \"Name\", \"type\": \"string\"}}, \"required\": [\"arguments\", \"name\"], \"title\": \"FunctionCall\", \"type\": \"object\"} For each function call return a json object with function name and arguments within <tool_call></tool_call> XML tags as follows:\\n<tool_call>\\n{\"arguments\": <args-dict>, \"name\": <function-name>}\\n</tool_call><|im_end|>";

fn get_weather() -> Tool {
    let parameters: serde_json::Map<String, serde_json::Value> =
        serde_json::from_str(SCHEMA).unwrap();
    Tool {
        function: ToolFunction {
            name: "get_weather".to_string(),
            description: Some("Get the weather of a city".to_string()),
            parameters: Some(parameters),
        },
    }
}

fn bare(name: &str) -> Tool {
    Tool { function: ToolFunction { name: name.to_string(), description: None, parameters: None } }
}

fn system(text: &str) -> SystemMessage {
    SystemMessage { content: text.to_string(), name: None }
}

fn user(text: &str) -> Message {
    Message::User(UserMessage { content: UserContent::Text(text.to_string()), name: None })
}

#[test]
fn system_preamble_lists_the_tools_on_offer() {
    let tools = vec![get_weather()];
    let preamble = DeepseekToolPrompt.create_system_prompt_tool(&system(""), Some(&tools));
    let expected = format!(
        "<|begin▁of▁sentence|>You are a helpful Assistant.{}\n\n- `get_weather`:\n```json\n{}\n```",
        HEADING, PRETTY
    );
    assert_eq!(preamble, expected);
    assert!(preamble.contains("get_weather"));
    assert!(preamble.contains(PRETTY));
}

#[test]
fn system_preamble_keeps_the_given_system_text() {
    let tools = vec![get_weather(), bare("now")];
    let preamble =
        DeepseekToolPrompt.create_system_prompt_tool(&system("Be brief."), Some(&tools));
    let expected = format!(
        "<|begin▁of▁sentence|>Be brief.{}\n\n- `get_weather`:\n```json\n{}\n```\n\n- `now`:\n```json\n{{\n  \"name\": \"now\"\n}}\n```",
        HEADING, PRETTY
    );
    assert_eq!(preamble, expected);
}

#[test]
fn system_preamble_without_tools_is_the_tool_free_one() {
    let none: Vec<Tool> = Vec::new();
    let default = "<|begin▁of▁sentence|>You are a helpful Assistant.";
    assert_eq!(DeepseekToolPrompt.create_system_prompt_tool(&system(""), Some(&none)), default);
    assert_eq!(DeepseekToolPrompt.create_system_prompt_tool(&system(""), None), default);
    assert_eq!(DeepseekToolPrompt.create_system_prompt(&system("")), default);
    assert_eq!(
        DeepseekToolPrompt.create_system_prompt_tool(&system("Be brief."), Some(&none)),
        "<|begin▁of▁sentence|>Be brief."
    );
    assert_eq!(
        DeepseekToolPrompt.create_system_prompt_tool(&system("Be brief."), None),
        "<|begin▁of▁sentence|>Be brief."
    );
}

#[test]
fn prompt_with_a_system_message_and_tools() {
    let tools = vec![get_weather()];
    let mut messages = vec![Message::System(system("")), user("Weather in Paris?")];
    let prompt = DeepseekToolPrompt.build_with_tools(&mut messages, Some(&tools)).unwrap();
    let expected = format!(
        "<|begin▁of▁sentence|>You are a helpful Assistant.{}\n\n- `get_weather`:\n```json\n{}\n```<|User|>Weather in Paris?<|Assistant|>",
        HEADING, PRETTY
    );
    assert_eq!(prompt, expected);
}

#[test]
fn prompt_without_a_system_message_synthesizes_the_preamble() {
    let tools = vec![get_weather()];
    let mut messages = vec![user("Weather in Paris?")];
    let prompt = DeepseekToolPrompt.build_with_tools(&mut messages, Some(&tools)).unwrap();
    let expected = format!(
        "{} <tools> \n\n- `get_weather`:\n```json\n{}\n``` </tools> {}<|User|>Weather in Paris?<|Assistant|>",
        INTRO, PRETTY, CALLING_RULES
    );
    assert_eq!(prompt, expected);
    let preamble = &prompt[..prompt.find("<|User|>").unwrap()];
    assert!(preamble.contains("get_weather"));
    assert!(preamble.contains(PRETTY));
    assert!(preamble.contains("<tool_call>"));
}

#[test]
fn prompt_without_a_system_message_and_with_an_empty_list() {
    let tools: Vec<Tool> = Vec::new();
    let mut messages = vec![user("Hi")];
    let prompt = DeepseekToolPrompt.build_with_tools(&mut messages, Some(&tools)).unwrap();
    assert_eq!(
        prompt,
        "<|im_start|>system\nAnswer as concisely as possible.<|im_end|><|User|>Hi<|Assistant|>"
    );
    assert!(!prompt.contains("<tools>"));
    assert!(!prompt.contains("<tool_call>"));
    let without = DeepseekToolPrompt.build_with_tools(&mut messages, None).unwrap();
    assert_eq!(prompt, without);
}

#[test]
fn prompt_without_a_system_message_and_without_tools() {
    let mut messages = vec![user("Hi")];
    let prompt = DeepseekToolPrompt.build_with_tools(&mut messages, None).unwrap();
    assert_eq!(
        prompt,
        "<|im_start|>system\nAnswer as concisely as possible.<|im_end|><|User|>Hi<|Assistant|>"
    );
}

#[test]
fn plain_build_ignores_tools() {
    let mut messages = vec![Message::System(system("")), user("Hi")];
    let prompt = DeepseekToolPrompt.build(&mut messages).unwrap();
    assert_eq!(prompt, "<|begin▁of▁sentence|>You are a helpful Assistant.<|User|>Hi<|Assistant|>");
}

#[test]
fn calling_preamble_surrounds_the_entries_of_the_tools() {
    let preamble = DeepseekToolPrompt.create_calling_preamble(&[bare("a"), bare("b")]);
    assert_eq!(
        preamble,
        format!(
            "{} <tools> \n\n- `a`:\n```json\n{{\n  \"name\": \"a\"\n}}\n```\n\n- `b`:\n```json\n{{\n  \"name\": \"b\"\n}}\n``` </tools> {}",
            INTRO, CALLING_RULES
        )
    );
}

#[test]
fn tool_entries_are_fenced_blocks() {
    let mut section = String::from("head");
    push_tool_entry(&mut section, "f", "{}");
    assert_eq!(section, "head\n\n- `f`:\n```json\n{}\n```");

    let mut all = String::new();
    push_tool_entries(&mut all, &[bare("a"), bare("b")]);
    assert_eq!(
        all,
        "\n\n- `a`:\n```json\n{\n  \"name\": \"a\"\n}\n```\n\n- `b`:\n```json\n{\n  \"name\": \"b\"\n}\n```"
    );

    let mut none = String::from("same");
    push_tool_entries(&mut none, &[]);
    assert_eq!(none, "same");
}
