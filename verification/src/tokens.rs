//! The tokens of each grammar, and how often they stand in a prompt.

use vstd::prelude::*;
use crate::chain::{is_turn, well_formed};
use crate::cohere::CohereChatPrompt;
use crate::count::{
    closed_from, closed_to, count, differs_within, lemma_apart_by_right, lemma_count_of_parts,
    lemma_none_counted, lemma_token_in_marker,
};
use crate::deepseek::{
    DeepseekChat25Prompt, DeepseekChat2Prompt, DeepseekChatPrompt, DeepseekCoderPrompt,
    DeepseekToolPrompt,
};
use crate::grammar::fold_turns;
use crate::markers::{
    assistants, law_token_count_by_role, lemma_count_around, lemma_count_of_history,
    lemma_marker_count_by_role, lemma_preamble_holds_none, lemma_preamble_share_of_user_opening,
    lemma_tally_adds, opens_with_user, tally, texts_free_of, token_fits, token_stands, tool_results, turn_text, user_opens_at,
    users,
};
use crate::message::{MessageModel, assistant_text};
use crate::pattern::is_span;
use crate::prompt::BuildChatPrompt;
use crate::text::{
    contains, is_clean, lemma_cut_is_whole, lemma_part_holds_no_more, lemma_trim_keeps_clean,
    text_before, text_between, text_from,
};
use crate::tool::ToolModel;

verus! {

/// The token `User:` of the `DeepSeek-LLM-Chat` grammar can be counted in its prompts.
/// It stands once in the opening of a user turn, and in no other marker.
pub proof fn lemma_chat_user_token()
    ensures
        token_fits(DeepseekChatPrompt::grammar(), "User:"@),
        is_clean("User:"@),
        token_stands(DeepseekChatPrompt::grammar(), "User:"@, 1, 0, 0, 0),
{
    reveal_strlit("User: ");
    reveal_strlit("");
    reveal_strlit("\n\nAssistant: ");
    reveal_strlit("<|end_of_sentence|>");
    reveal_strlit("\n\nAssistant:");
    reveal_strlit("User:");
    reveal_with_fuel(differs_within, 2);
    assert("User: "@.subrange(0, 5) == "User:"@);
    lemma_token_in_marker("User: "@, "User:"@, 0, 1);
    lemma_token_in_marker("\n\nAssistant: "@, "User:"@, -1, 1);
    lemma_token_in_marker("<|end_of_sentence|>"@, "User:"@, -1, 1);
    lemma_token_in_marker("\n\nAssistant:"@, "User:"@, -1, 1);
}

/// The token `Assistant:` of the `DeepSeek-LLM-Chat` grammar can be counted in its prompts.
/// It stands once in the opening of an assistant turn and the generation cue, and in no other marker.
pub proof fn lemma_chat_assistant_token()
    ensures
        token_fits(DeepseekChatPrompt::grammar(), "Assistant:"@),
        is_clean("Assistant:"@),
        token_stands(DeepseekChatPrompt::grammar(), "Assistant:"@, 0, 1, 0, 1),
{
    reveal_strlit("User: ");
    reveal_strlit("");
    reveal_strlit("\n\nAssistant: ");
    reveal_strlit("<|end_of_sentence|>");
    reveal_strlit("\n\nAssistant:");
    reveal_strlit("Assistant:");
    reveal_with_fuel(differs_within, 2);
    lemma_token_in_marker("User: "@, "Assistant:"@, -1, 1);
    assert("\n\nAssistant: "@.subrange(2, 12) == "Assistant:"@);
    lemma_token_in_marker("\n\nAssistant: "@, "Assistant:"@, 2, 1);
    lemma_token_in_marker("<|end_of_sentence|>"@, "Assistant:"@, -1, 1);
    assert("\n\nAssistant:"@.subrange(2, 12) == "Assistant:"@);
    lemma_token_in_marker("\n\nAssistant:"@, "Assistant:"@, 2, 1);
}

/// The token `<|end_of_sentence|>` of the `DeepSeek-LLM-Chat` grammar can be counted in its prompts.
/// It stands once in the closing of an assistant turn, and in no other marker.
pub proof fn lemma_chat_end_token()
    ensures
        token_fits(DeepseekChatPrompt::grammar(), "<|end_of_sentence|>"@),
        is_clean("<|end_of_sentence|>"@),
        token_stands(DeepseekChatPrompt::grammar(), "<|end_of_sentence|>"@, 0, 1, 0, 0),
{
    reveal_strlit("User: ");
    reveal_strlit("");
    reveal_strlit("\n\nAssistant: ");
    reveal_strlit("<|end_of_sentence|>");
    reveal_strlit("\n\nAssistant:");
    reveal_with_fuel(differs_within, 2);
    lemma_token_in_marker("User: "@, "<|end_of_sentence|>"@, -1, 1);
    lemma_token_in_marker("\n\nAssistant: "@, "<|end_of_sentence|>"@, -1, 1);
    assert("<|end_of_sentence|>"@.subrange(0, 19) == "<|end_of_sentence|>"@);
    lemma_token_in_marker("<|end_of_sentence|>"@, "<|end_of_sentence|>"@, 0, 1);
    lemma_token_in_marker("\n\nAssistant:"@, "<|end_of_sentence|>"@, -1, 1);
}

/// The token `### Instruction:` of the `DeepSeek-Coder` grammar can be counted in its prompts.
/// It stands once in the opening of a user turn, and in no other marker.
pub proof fn lemma_coder_instruction_token()
    ensures
        token_fits(DeepseekCoderPrompt::grammar(), "### Instruction:"@),
        is_clean("### Instruction:"@),
        token_stands(DeepseekCoderPrompt::grammar(), "### Instruction:"@, 1, 0, 0, 0),
{
    reveal_strlit("\n### Instruction:\n");
    reveal_strlit("");
    reveal_strlit("\n### Response:\n");
    reveal_strlit("\n<|EOT|>");
    reveal_strlit("\n### Response:");
    reveal_strlit("### Instruction:");
    reveal_with_fuel(differs_within, 6);
    assert("\n### Instruction:\n"@.subrange(1, 17) == "### Instruction:"@);
    lemma_token_in_marker("\n### Instruction:\n"@, "### Instruction:"@, 1, 5);
    lemma_token_in_marker("\n### Response:\n"@, "### Instruction:"@, -1, 5);
    lemma_token_in_marker("\n<|EOT|>"@, "### Instruction:"@, -1, 5);
    lemma_token_in_marker("\n### Response:"@, "### Instruction:"@, -1, 5);
}

/// The token `### Response:` of the `DeepSeek-Coder` grammar can be counted in its prompts.
/// It stands once in the opening of an assistant turn and the generation cue, and in no other marker.
pub proof fn lemma_coder_response_token()
    ensures
        token_fits(DeepseekCoderPrompt::grammar(), "### Response:"@),
        is_clean("### Response:"@),
        token_stands(DeepseekCoderPrompt::grammar(), "### Response:"@, 0, 1, 0, 1),
{
    reveal_strlit("\n### Instruction:\n");
    reveal_strlit("");
    reveal_strlit("\n### Response:\n");
    reveal_strlit("\n<|EOT|>");
    reveal_strlit("\n### Response:");
    reveal_strlit("### Response:");
    reveal_with_fuel(differs_within, 6);
    lemma_token_in_marker("\n### Instruction:\n"@, "### Response:"@, -1, 5);
    assert("\n### Response:\n"@.subrange(1, 14) == "### Response:"@);
    lemma_token_in_marker("\n### Response:\n"@, "### Response:"@, 1, 5);
    lemma_token_in_marker("\n<|EOT|>"@, "### Response:"@, -1, 5);
    assert("\n### Response:"@.subrange(1, 14) == "### Response:"@);
    lemma_token_in_marker("\n### Response:"@, "### Response:"@, 1, 5);
}

/// The token `<|EOT|>` of the `DeepSeek-Coder` grammar can be counted in its prompts.
/// It stands once in the closing of an assistant turn, and in no other marker.
pub proof fn lemma_coder_end_token()
    ensures
        token_fits(DeepseekCoderPrompt::grammar(), "<|EOT|>"@),
        is_clean("<|EOT|>"@),
        token_stands(DeepseekCoderPrompt::grammar(), "<|EOT|>"@, 0, 1, 0, 0),
{
    reveal_strlit("\n### Instruction:\n");
    reveal_strlit("");
    reveal_strlit("\n### Response:\n");
    reveal_strlit("\n<|EOT|>");
    reveal_strlit("\n### Response:");
    reveal_strlit("<|EOT|>");
    reveal_with_fuel(differs_within, 2);
    lemma_token_in_marker("\n### Instruction:\n"@, "<|EOT|>"@, -1, 1);
    lemma_token_in_marker("\n### Response:\n"@, "<|EOT|>"@, -1, 1);
    assert("\n<|EOT|>"@.subrange(1, 8) == "<|EOT|>"@);
    lemma_token_in_marker("\n<|EOT|>"@, "<|EOT|>"@, 1, 1);
    lemma_token_in_marker("\n### Response:"@, "<|EOT|>"@, -1, 1);
}

/// The token `User:` of the `DeepSeek-V2` grammar can be counted in its prompts.
/// It stands once in the opening of a user turn, and in no other marker.
pub proof fn lemma_chat2_user_token()
    ensures
        token_fits(DeepseekChat2Prompt::grammar(), "User:"@),
        is_clean("User:"@),
        token_stands(DeepseekChat2Prompt::grammar(), "User:"@, 1, 0, 0, 0),
{
    reveal_strlit("\n\nUser: ");
    reveal_strlit("User: ");
    reveal_strlit("");
    reveal_strlit("\n\nAssistant: ");
    reveal_strlit("<|end_of_sentence|>");
    reveal_strlit("\n\nAssistant:");
    reveal_strlit("User:");
    reveal_with_fuel(differs_within, 2);
    assert("\n\nUser: "@.subrange(2, 7) == "User:"@);
    lemma_token_in_marker("\n\nUser: "@, "User:"@, 2, 1);
    assert("User: "@.subrange(0, 5) == "User:"@);
    lemma_token_in_marker("User: "@, "User:"@, 0, 1);
    lemma_token_in_marker("\n\nAssistant: "@, "User:"@, -1, 1);
    lemma_token_in_marker("<|end_of_sentence|>"@, "User:"@, -1, 1);
    lemma_token_in_marker("\n\nAssistant:"@, "User:"@, -1, 1);
}

/// The token `Assistant:` of the `DeepSeek-V2` grammar can be counted in its prompts.
/// It stands once in the opening of an assistant turn and the generation cue, and in no other marker.
pub proof fn lemma_chat2_assistant_token()
    ensures
        token_fits(DeepseekChat2Prompt::grammar(), "Assistant:"@),
        is_clean("Assistant:"@),
        token_stands(DeepseekChat2Prompt::grammar(), "Assistant:"@, 0, 1, 0, 1),
{
    reveal_strlit("\n\nUser: ");
    reveal_strlit("User: ");
    reveal_strlit("");
    reveal_strlit("\n\nAssistant: ");
    reveal_strlit("<|end_of_sentence|>");
    reveal_strlit("\n\nAssistant:");
    reveal_strlit("Assistant:");
    reveal_with_fuel(differs_within, 2);
    lemma_token_in_marker("\n\nUser: "@, "Assistant:"@, -1, 1);
    lemma_token_in_marker("User: "@, "Assistant:"@, -1, 1);
    assert("\n\nAssistant: "@.subrange(2, 12) == "Assistant:"@);
    lemma_token_in_marker("\n\nAssistant: "@, "Assistant:"@, 2, 1);
    lemma_token_in_marker("<|end_of_sentence|>"@, "Assistant:"@, -1, 1);
    assert("\n\nAssistant:"@.subrange(2, 12) == "Assistant:"@);
    lemma_token_in_marker("\n\nAssistant:"@, "Assistant:"@, 2, 1);
}

/// The token `<|end_of_sentence|>` of the `DeepSeek-V2` grammar can be counted in its prompts.
/// It stands once in the closing of an assistant turn, and in no other marker.
pub proof fn lemma_chat2_end_token()
    ensures
        token_fits(DeepseekChat2Prompt::grammar(), "<|end_of_sentence|>"@),
        is_clean("<|end_of_sentence|>"@),
        token_stands(DeepseekChat2Prompt::grammar(), "<|end_of_sentence|>"@, 0, 1, 0, 0),
{
    reveal_strlit("\n\nUser: ");
    reveal_strlit("User: ");
    reveal_strlit("");
    reveal_strlit("\n\nAssistant: ");
    reveal_strlit("<|end_of_sentence|>");
    reveal_strlit("\n\nAssistant:");
    reveal_with_fuel(differs_within, 2);
    lemma_token_in_marker("\n\nUser: "@, "<|end_of_sentence|>"@, -1, 1);
    lemma_token_in_marker("User: "@, "<|end_of_sentence|>"@, -1, 1);
    lemma_token_in_marker("\n\nAssistant: "@, "<|end_of_sentence|>"@, -1, 1);
    assert("<|end_of_sentence|>"@.subrange(0, 19) == "<|end_of_sentence|>"@);
    lemma_token_in_marker("<|end_of_sentence|>"@, "<|end_of_sentence|>"@, 0, 1);
    lemma_token_in_marker("\n\nAssistant:"@, "<|end_of_sentence|>"@, -1, 1);
}

/// The token `<|User|>` of the `DeepSeek-V2.5` grammar can be counted in its prompts.
/// It stands once in the opening of a user turn, and in no other marker.
pub proof fn lemma_chat25_user_token()
    ensures
        token_fits(DeepseekChat25Prompt::grammar(), "<|User|>"@),
        is_clean("<|User|>"@),
        token_stands(DeepseekChat25Prompt::grammar(), "<|User|>"@, 1, 0, 0, 0),
{
    reveal_strlit("<|User|>");
    reveal_strlit("");
    reveal_strlit("<|Assistant|>");
    reveal_strlit("<|end_of_sentence|>");
    reveal_with_fuel(differs_within, 4);
    assert("<|User|>"@.subrange(0, 8) == "<|User|>"@);
    lemma_token_in_marker("<|User|>"@, "<|User|>"@, 0, 3);
    lemma_token_in_marker("<|Assistant|>"@, "<|User|>"@, -1, 3);
    lemma_token_in_marker("<|end_of_sentence|>"@, "<|User|>"@, -1, 3);
}

/// The token `<|Assistant|>` of the `DeepSeek-V2.5` grammar can be counted in its prompts.
/// It stands once in the opening of an assistant turn and the generation cue, and in no other marker.
pub proof fn lemma_chat25_assistant_token()
    ensures
        token_fits(DeepseekChat25Prompt::grammar(), "<|Assistant|>"@),
        is_clean("<|Assistant|>"@),
        token_stands(DeepseekChat25Prompt::grammar(), "<|Assistant|>"@, 0, 1, 0, 1),
{
    reveal_strlit("<|User|>");
    reveal_strlit("");
    reveal_strlit("<|Assistant|>");
    reveal_strlit("<|end_of_sentence|>");
    reveal_with_fuel(differs_within, 4);
    lemma_token_in_marker("<|User|>"@, "<|Assistant|>"@, -1, 3);
    assert("<|Assistant|>"@.subrange(0, 13) == "<|Assistant|>"@);
    lemma_token_in_marker("<|Assistant|>"@, "<|Assistant|>"@, 0, 3);
    lemma_token_in_marker("<|end_of_sentence|>"@, "<|Assistant|>"@, -1, 3);
}

/// The token `<|end_of_sentence|>` of the `DeepSeek-V2.5` grammar can be counted in its prompts.
/// It stands once in the closing of an assistant turn, and in no other marker.
pub proof fn lemma_chat25_end_token()
    ensures
        token_fits(DeepseekChat25Prompt::grammar(), "<|end_of_sentence|>"@),
        is_clean("<|end_of_sentence|>"@),
        token_stands(DeepseekChat25Prompt::grammar(), "<|end_of_sentence|>"@, 0, 1, 0, 0),
{
    reveal_strlit("<|User|>");
    reveal_strlit("");
    reveal_strlit("<|Assistant|>");
    reveal_strlit("<|end_of_sentence|>");
    reveal_with_fuel(differs_within, 4);
    lemma_token_in_marker("<|User|>"@, "<|end_of_sentence|>"@, -1, 3);
    lemma_token_in_marker("<|Assistant|>"@, "<|end_of_sentence|>"@, -1, 3);
    assert("<|end_of_sentence|>"@.subrange(0, 19) == "<|end_of_sentence|>"@);
    lemma_token_in_marker("<|end_of_sentence|>"@, "<|end_of_sentence|>"@, 0, 3);
}

/// The token `<|User|>` of the tool-calling grammar can be counted in its prompts.
/// It stands once in the opening of a user turn, and in no other marker.
pub proof fn lemma_tool_user_token()
    ensures
        token_fits(DeepseekToolPrompt::tool_grammar(), "<|User|>"@),
        is_clean("<|User|>"@),
        token_stands(DeepseekToolPrompt::tool_grammar(), "<|User|>"@, 1, 0, 0, 0),
{
    reveal_strlit("<|User|>");
    reveal_strlit("");
    reveal_strlit("<|Assistant|>");
    reveal_strlit("<|end_of_sentence|>");
    reveal_strlit("<|tool|>");
    reveal_with_fuel(differs_within, 4);
    assert("<|User|>"@.subrange(0, 8) == "<|User|>"@);
    lemma_token_in_marker("<|User|>"@, "<|User|>"@, 0, 3);
    lemma_token_in_marker("<|Assistant|>"@, "<|User|>"@, -1, 3);
    lemma_token_in_marker("<|end_of_sentence|>"@, "<|User|>"@, -1, 3);
    lemma_token_in_marker("<|tool|>"@, "<|User|>"@, -1, 3);
}

/// The token `<|Assistant|>` of the tool-calling grammar can be counted in its prompts.
/// It stands once in the opening of an assistant turn and the generation cue, and in no other marker.
pub proof fn lemma_tool_assistant_token()
    ensures
        token_fits(DeepseekToolPrompt::tool_grammar(), "<|Assistant|>"@),
        is_clean("<|Assistant|>"@),
        token_stands(DeepseekToolPrompt::tool_grammar(), "<|Assistant|>"@, 0, 1, 0, 1),
{
    reveal_strlit("<|User|>");
    reveal_strlit("");
    reveal_strlit("<|Assistant|>");
    reveal_strlit("<|end_of_sentence|>");
    reveal_strlit("<|tool|>");
    reveal_with_fuel(differs_within, 4);
    lemma_token_in_marker("<|User|>"@, "<|Assistant|>"@, -1, 3);
    assert("<|Assistant|>"@.subrange(0, 13) == "<|Assistant|>"@);
    lemma_token_in_marker("<|Assistant|>"@, "<|Assistant|>"@, 0, 3);
    lemma_token_in_marker("<|end_of_sentence|>"@, "<|Assistant|>"@, -1, 3);
    lemma_token_in_marker("<|tool|>"@, "<|Assistant|>"@, -1, 3);
}

/// The token `<|end_of_sentence|>` of the tool-calling grammar can be counted in its prompts.
/// It stands once in the closing of an assistant turn, and in no other marker.
pub proof fn lemma_tool_end_token()
    ensures
        token_fits(DeepseekToolPrompt::tool_grammar(), "<|end_of_sentence|>"@),
        is_clean("<|end_of_sentence|>"@),
        token_stands(DeepseekToolPrompt::tool_grammar(), "<|end_of_sentence|>"@, 0, 1, 0, 0),
{
    reveal_strlit("<|User|>");
    reveal_strlit("");
    reveal_strlit("<|Assistant|>");
    reveal_strlit("<|end_of_sentence|>");
    reveal_strlit("<|tool|>");
    reveal_with_fuel(differs_within, 4);
    lemma_token_in_marker("<|User|>"@, "<|end_of_sentence|>"@, -1, 3);
    lemma_token_in_marker("<|Assistant|>"@, "<|end_of_sentence|>"@, -1, 3);
    assert("<|end_of_sentence|>"@.subrange(0, 19) == "<|end_of_sentence|>"@);
    lemma_token_in_marker("<|end_of_sentence|>"@, "<|end_of_sentence|>"@, 0, 3);
    lemma_token_in_marker("<|tool|>"@, "<|end_of_sentence|>"@, -1, 3);
}

/// The token `<|tool|>` of the tool-calling grammar can be counted in its prompts.
/// It stands once in the opening of a tool turn, and in no other marker.
pub proof fn lemma_tool_tool_token()
    ensures
        token_fits(DeepseekToolPrompt::tool_grammar(), "<|tool|>"@),
        is_clean("<|tool|>"@),
        token_stands(DeepseekToolPrompt::tool_grammar(), "<|tool|>"@, 0, 0, 1, 0),
{
    reveal_strlit("<|User|>");
    reveal_strlit("");
    reveal_strlit("<|Assistant|>");
    reveal_strlit("<|end_of_sentence|>");
    reveal_strlit("<|tool|>");
    reveal_with_fuel(differs_within, 4);
    lemma_token_in_marker("<|User|>"@, "<|tool|>"@, -1, 3);
    lemma_token_in_marker("<|Assistant|>"@, "<|tool|>"@, -1, 3);
    lemma_token_in_marker("<|end_of_sentence|>"@, "<|tool|>"@, -1, 3);
    assert("<|tool|>"@.subrange(0, 8) == "<|tool|>"@);
    lemma_token_in_marker("<|tool|>"@, "<|tool|>"@, 0, 3);
}

/// In a prompt of the `DeepSeek-LLM-Chat` grammar, made from messages whose texts
/// hold none of its tokens, every turn contributes its markers once:
/// `User:` stands once for every user message, `<|end_of_sentence|>` once
/// for every assistant message, and `Assistant:` once for every assistant
/// message and once more in the generation cue.
pub proof fn law_chat_marker_counts(ms: Seq<MessageModel>)
    requires
        ms.len() > 0,
        well_formed(ms),
        texts_free_of(ms, "User:"@),
        texts_free_of(ms, "Assistant:"@),
        texts_free_of(ms, "<|end_of_sentence|>"@),
    ensures
        DeepseekChatPrompt.prompt(ms) matches Ok(prompt)
            && count(prompt, "User:"@) == users(ms)
            && count(prompt, "Assistant:"@) == assistants(ms) + 1
            && count(prompt, "<|end_of_sentence|>"@) == assistants(ms),
{
    reveal_strlit("");
    reveal_strlit("User:");
    reveal_strlit("Assistant:");
    reveal_strlit("<|end_of_sentence|>");
    lemma_chat_user_token();
    law_token_count_by_role(
        DeepseekChatPrompt::grammar(),
        ""@,
        ms,
        "User:"@,
        1,
        0,
        0,
        0,
    );
    lemma_chat_assistant_token();
    law_token_count_by_role(
        DeepseekChatPrompt::grammar(),
        ""@,
        ms,
        "Assistant:"@,
        0,
        1,
        0,
        1,
    );
    lemma_chat_end_token();
    law_token_count_by_role(
        DeepseekChatPrompt::grammar(),
        ""@,
        ms,
        "<|end_of_sentence|>"@,
        0,
        1,
        0,
        0,
    );
}

/// The system preamble of the `DeepSeek-Coder` grammar holds none of the tokens
/// that the text of the system message does not hold.
pub proof fn lemma_coder_preamble_holds_no_token(content: Seq<char>)
    ensures
        !contains(content, "### Instruction:"@) ==> !contains(DeepseekCoderPrompt::system_prompt(content), "### Instruction:"@),
        !contains(content, "### Response:"@) ==> !contains(DeepseekCoderPrompt::system_prompt(content), "### Response:"@),
        !contains(content, "<|EOT|>"@) ==> !contains(DeepseekCoderPrompt::system_prompt(content), "<|EOT|>"@),
{
    reveal_strlit("");
    reveal_strlit("You are an AI programming assistant, utilizing the DeepSeek Coder model, developed by DeepSeek Company, and you only answer questions related to computer science. For politically sensitive questions, security and privacy issues, and other non-computer science questions, you will refuse to answer.");
    reveal_strlit("### Instruction:");
    reveal_strlit("### Response:");
    reveal_strlit("<|EOT|>");
    reveal_with_fuel(differs_within, 2);
    if !contains(content, "### Instruction:"@) {
        lemma_token_in_marker(""@, "### Instruction:"@, -1, 1);
        lemma_token_in_marker("You are an AI programming assistant, utilizing the DeepSeek Coder model, developed by DeepSeek Company, and you only answer questions related to computer science. For politically sensitive questions, security and privacy issues, and other non-computer science questions, you will refuse to answer."@, "### Instruction:"@, -1, 1);
        lemma_preamble_holds_none(""@, "You are an AI programming assistant, utilizing the DeepSeek Coder model, developed by DeepSeek Company, and you only answer questions related to computer science. For politically sensitive questions, security and privacy issues, and other non-computer science questions, you will refuse to answer."@, content, "### Instruction:"@);
    }
    if !contains(content, "### Response:"@) {
        lemma_token_in_marker(""@, "### Response:"@, -1, 1);
        lemma_token_in_marker("You are an AI programming assistant, utilizing the DeepSeek Coder model, developed by DeepSeek Company, and you only answer questions related to computer science. For politically sensitive questions, security and privacy issues, and other non-computer science questions, you will refuse to answer."@, "### Response:"@, -1, 1);
        lemma_preamble_holds_none(""@, "You are an AI programming assistant, utilizing the DeepSeek Coder model, developed by DeepSeek Company, and you only answer questions related to computer science. For politically sensitive questions, security and privacy issues, and other non-computer science questions, you will refuse to answer."@, content, "### Response:"@);
    }
    if !contains(content, "<|EOT|>"@) {
        lemma_token_in_marker(""@, "<|EOT|>"@, -1, 1);
        lemma_token_in_marker("You are an AI programming assistant, utilizing the DeepSeek Coder model, developed by DeepSeek Company, and you only answer questions related to computer science. For politically sensitive questions, security and privacy issues, and other non-computer science questions, you will refuse to answer."@, "<|EOT|>"@, -1, 1);
        lemma_preamble_holds_none(""@, "You are an AI programming assistant, utilizing the DeepSeek Coder model, developed by DeepSeek Company, and you only answer questions related to computer science. For politically sensitive questions, security and privacy issues, and other non-computer science questions, you will refuse to answer."@, content, "<|EOT|>"@);
    }
}

/// In a prompt of the `DeepSeek-Coder` grammar, made from messages whose texts
/// hold none of its tokens, every turn contributes its markers once:
/// `### Instruction:` stands once for every user message, `<|EOT|>` once for
/// every assistant message, and `### Response:` once for every assistant
/// message and once more in the generation cue.
pub proof fn law_coder_marker_counts(ms: Seq<MessageModel>)
    requires
        ms.len() > 0,
        well_formed(ms),
        texts_free_of(ms, "### Instruction:"@),
        texts_free_of(ms, "### Response:"@),
        texts_free_of(ms, "<|EOT|>"@),
    ensures
        DeepseekCoderPrompt.prompt(ms) matches Ok(prompt)
            && count(prompt, "### Instruction:"@) == users(ms)
            && count(prompt, "### Response:"@) == assistants(ms) + 1
            && count(prompt, "<|EOT|>"@) == assistants(ms),
{
    let content = match ms[0] {
        MessageModel::System { content, .. } => content,
        _ => Seq::empty(),
    };
    assert(content == turn_text(ms[0]) || content.len() == 0);
    lemma_coder_preamble_holds_no_token(content);
    lemma_coder_instruction_token();
    law_token_count_by_role(
        DeepseekCoderPrompt::grammar(),
        DeepseekCoderPrompt::system_of(ms),
        ms,
        "### Instruction:"@,
        1,
        0,
        0,
        0,
    );
    lemma_coder_response_token();
    law_token_count_by_role(
        DeepseekCoderPrompt::grammar(),
        DeepseekCoderPrompt::system_of(ms),
        ms,
        "### Response:"@,
        0,
        1,
        0,
        1,
    );
    lemma_coder_end_token();
    law_token_count_by_role(
        DeepseekCoderPrompt::grammar(),
        DeepseekCoderPrompt::system_of(ms),
        ms,
        "<|EOT|>"@,
        0,
        1,
        0,
        0,
    );
}

/// The system preamble of the `DeepSeek-V2` grammar holds none of the tokens
/// that the text of the system message does not hold.
pub proof fn lemma_chat2_preamble_holds_no_token(content: Seq<char>)
    ensures
        !contains(content, "User:"@) ==> !contains(DeepseekChat2Prompt::system_prompt(content), "User:"@),
        !contains(content, "Assistant:"@) ==> !contains(DeepseekChat2Prompt::system_prompt(content), "Assistant:"@),
        !contains(content, "<|end_of_sentence|>"@) ==> !contains(DeepseekChat2Prompt::system_prompt(content), "<|end_of_sentence|>"@),
{
    reveal_strlit("<|begin▁of▁sentence|>");
    reveal_strlit("You are an AI programming assistant, utilizing the DeepSeek Coder model, developed by DeepSeek Company, and you only answer questions related to computer science. For politically sensitive questions, security and privacy issues, and other non-computer science questions, you will refuse to answer.");
    reveal_strlit("User:");
    reveal_strlit("Assistant:");
    reveal_strlit("<|end_of_sentence|>");
    reveal_with_fuel(differs_within, 4);
    if !contains(content, "User:"@) {
        lemma_token_in_marker("<|begin▁of▁sentence|>"@, "User:"@, -1, 3);
        lemma_token_in_marker("You are an AI programming assistant, utilizing the DeepSeek Coder model, developed by DeepSeek Company, and you only answer questions related to computer science. For politically sensitive questions, security and privacy issues, and other non-computer science questions, you will refuse to answer."@, "User:"@, -1, 3);
        lemma_preamble_holds_none("<|begin▁of▁sentence|>"@, "You are an AI programming assistant, utilizing the DeepSeek Coder model, developed by DeepSeek Company, and you only answer questions related to computer science. For politically sensitive questions, security and privacy issues, and other non-computer science questions, you will refuse to answer."@, content, "User:"@);
    }
    if !contains(content, "Assistant:"@) {
        lemma_token_in_marker("<|begin▁of▁sentence|>"@, "Assistant:"@, -1, 3);
        lemma_token_in_marker("You are an AI programming assistant, utilizing the DeepSeek Coder model, developed by DeepSeek Company, and you only answer questions related to computer science. For politically sensitive questions, security and privacy issues, and other non-computer science questions, you will refuse to answer."@, "Assistant:"@, -1, 3);
        lemma_preamble_holds_none("<|begin▁of▁sentence|>"@, "You are an AI programming assistant, utilizing the DeepSeek Coder model, developed by DeepSeek Company, and you only answer questions related to computer science. For politically sensitive questions, security and privacy issues, and other non-computer science questions, you will refuse to answer."@, content, "Assistant:"@);
    }
    if !contains(content, "<|end_of_sentence|>"@) {
        lemma_token_in_marker("<|begin▁of▁sentence|>"@, "<|end_of_sentence|>"@, -1, 3);
        lemma_token_in_marker("You are an AI programming assistant, utilizing the DeepSeek Coder model, developed by DeepSeek Company, and you only answer questions related to computer science. For politically sensitive questions, security and privacy issues, and other non-computer science questions, you will refuse to answer."@, "<|end_of_sentence|>"@, -1, 3);
        lemma_preamble_holds_none("<|begin▁of▁sentence|>"@, "You are an AI programming assistant, utilizing the DeepSeek Coder model, developed by DeepSeek Company, and you only answer questions related to computer science. For politically sensitive questions, security and privacy issues, and other non-computer science questions, you will refuse to answer."@, content, "<|end_of_sentence|>"@);
    }
}

/// In a prompt of the `DeepSeek-V2` grammar, made from messages whose texts
/// hold none of its tokens, every turn contributes its markers once:
/// `User:` stands once for every user message, `<|end_of_sentence|>` once
/// for every assistant message, and `Assistant:` once for every assistant
/// message and once more in the generation cue.
pub proof fn law_chat2_marker_counts(ms: Seq<MessageModel>)
    requires
        ms.len() > 0,
        well_formed(ms),
        texts_free_of(ms, "User:"@),
        texts_free_of(ms, "Assistant:"@),
        texts_free_of(ms, "<|end_of_sentence|>"@),
    ensures
        DeepseekChat2Prompt.prompt(ms) matches Ok(prompt)
            && count(prompt, "User:"@) == users(ms)
            && count(prompt, "Assistant:"@) == assistants(ms) + 1
            && count(prompt, "<|end_of_sentence|>"@) == assistants(ms),
{
    let content = match ms[0] {
        MessageModel::System { content, .. } => content,
        _ => Seq::empty(),
    };
    assert(content == turn_text(ms[0]) || content.len() == 0);
    lemma_chat2_preamble_holds_no_token(content);
    lemma_chat2_user_token();
    law_token_count_by_role(
        DeepseekChat2Prompt::grammar(),
        DeepseekChat2Prompt::system_of(ms),
        ms,
        "User:"@,
        1,
        0,
        0,
        0,
    );
    lemma_chat2_assistant_token();
    law_token_count_by_role(
        DeepseekChat2Prompt::grammar(),
        DeepseekChat2Prompt::system_of(ms),
        ms,
        "Assistant:"@,
        0,
        1,
        0,
        1,
    );
    lemma_chat2_end_token();
    law_token_count_by_role(
        DeepseekChat2Prompt::grammar(),
        DeepseekChat2Prompt::system_of(ms),
        ms,
        "<|end_of_sentence|>"@,
        0,
        1,
        0,
        0,
    );
}

/// The system preamble of the `DeepSeek-V2.5` grammar holds none of the tokens
/// that the text of the system message does not hold.
pub proof fn lemma_chat25_preamble_holds_no_token(content: Seq<char>)
    ensures
        !contains(content, "<|User|>"@) ==> !contains(DeepseekChat25Prompt::system_prompt(content), "<|User|>"@),
        !contains(content, "<|Assistant|>"@) ==> !contains(DeepseekChat25Prompt::system_prompt(content), "<|Assistant|>"@),
        !contains(content, "<|end_of_sentence|>"@) ==> !contains(DeepseekChat25Prompt::system_prompt(content), "<|end_of_sentence|>"@),
{
    reveal_strlit("<|begin▁of▁sentence|>");
    reveal_strlit("You are a helpful Assistant.");
    reveal_strlit("<|User|>");
    reveal_strlit("<|Assistant|>");
    reveal_strlit("<|end_of_sentence|>");
    reveal_with_fuel(differs_within, 4);
    if !contains(content, "<|User|>"@) {
        lemma_token_in_marker("<|begin▁of▁sentence|>"@, "<|User|>"@, -1, 3);
        lemma_token_in_marker("You are a helpful Assistant."@, "<|User|>"@, -1, 3);
        lemma_preamble_holds_none("<|begin▁of▁sentence|>"@, "You are a helpful Assistant."@, content, "<|User|>"@);
    }
    if !contains(content, "<|Assistant|>"@) {
        lemma_token_in_marker("<|begin▁of▁sentence|>"@, "<|Assistant|>"@, -1, 3);
        lemma_token_in_marker("You are a helpful Assistant."@, "<|Assistant|>"@, -1, 3);
        lemma_preamble_holds_none("<|begin▁of▁sentence|>"@, "You are a helpful Assistant."@, content, "<|Assistant|>"@);
    }
    if !contains(content, "<|end_of_sentence|>"@) {
        lemma_token_in_marker("<|begin▁of▁sentence|>"@, "<|end_of_sentence|>"@, -1, 3);
        lemma_token_in_marker("You are a helpful Assistant."@, "<|end_of_sentence|>"@, -1, 3);
        lemma_preamble_holds_none("<|begin▁of▁sentence|>"@, "You are a helpful Assistant."@, content, "<|end_of_sentence|>"@);
    }
}

/// In a prompt of the `DeepSeek-V2.5` grammar, and of the tool-calling grammar without tools, made from messages whose texts
/// hold none of its tokens, every turn contributes its markers once:
/// `<|User|>` stands once for every user message, `<|end_of_sentence|>` once
/// for every assistant message, and `<|Assistant|>` once for every assistant
/// message and once more in the generation cue.
pub proof fn law_chat25_marker_counts(ms: Seq<MessageModel>)
    requires
        ms.len() > 0,
        well_formed(ms),
        texts_free_of(ms, "<|User|>"@),
        texts_free_of(ms, "<|Assistant|>"@),
        texts_free_of(ms, "<|end_of_sentence|>"@),
    ensures
        DeepseekChat25Prompt.prompt(ms) matches Ok(prompt)
            && count(prompt, "<|User|>"@) == users(ms)
            && count(prompt, "<|Assistant|>"@) == assistants(ms) + 1
            && count(prompt, "<|end_of_sentence|>"@) == assistants(ms),
        DeepseekToolPrompt.prompt(ms) matches Ok(prompt)
            && count(prompt, "<|User|>"@) == users(ms)
            && count(prompt, "<|Assistant|>"@) == assistants(ms) + 1
            && count(prompt, "<|end_of_sentence|>"@) == assistants(ms),
{
    let content = match ms[0] {
        MessageModel::System { content, .. } => content,
        _ => Seq::empty(),
    };
    assert(content == turn_text(ms[0]) || content.len() == 0);
    lemma_chat25_preamble_holds_no_token(content);
    lemma_tool_preamble_holds_no_token(content);
    lemma_chat25_user_token();
    law_token_count_by_role(
        DeepseekChat25Prompt::grammar(),
        DeepseekChat25Prompt::system_of(ms),
        ms,
        "<|User|>"@,
        1,
        0,
        0,
        0,
    );
    law_token_count_by_role(
        DeepseekToolPrompt::grammar(),
        DeepseekToolPrompt::system_of(ms),
        ms,
        "<|User|>"@,
        1,
        0,
        0,
        0,
    );
    lemma_chat25_assistant_token();
    law_token_count_by_role(
        DeepseekChat25Prompt::grammar(),
        DeepseekChat25Prompt::system_of(ms),
        ms,
        "<|Assistant|>"@,
        0,
        1,
        0,
        1,
    );
    law_token_count_by_role(
        DeepseekToolPrompt::grammar(),
        DeepseekToolPrompt::system_of(ms),
        ms,
        "<|Assistant|>"@,
        0,
        1,
        0,
        1,
    );
    lemma_chat25_end_token();
    law_token_count_by_role(
        DeepseekChat25Prompt::grammar(),
        DeepseekChat25Prompt::system_of(ms),
        ms,
        "<|end_of_sentence|>"@,
        0,
        1,
        0,
        0,
    );
    law_token_count_by_role(
        DeepseekToolPrompt::grammar(),
        DeepseekToolPrompt::system_of(ms),
        ms,
        "<|end_of_sentence|>"@,
        0,
        1,
        0,
        0,
    );
}

/// The system preamble of the tool-calling grammar holds none of the tokens
/// that the text of the system message does not hold.
pub proof fn lemma_tool_preamble_holds_no_token(content: Seq<char>)
    ensures
        !contains(content, "<|User|>"@) ==> !contains(DeepseekToolPrompt::system_prompt(content), "<|User|>"@),
        !contains(content, "<|Assistant|>"@) ==> !contains(DeepseekToolPrompt::system_prompt(content), "<|Assistant|>"@),
        !contains(content, "<|end_of_sentence|>"@) ==> !contains(DeepseekToolPrompt::system_prompt(content), "<|end_of_sentence|>"@),
        !contains(content, "<|tool|>"@) ==> !contains(DeepseekToolPrompt::system_prompt(content), "<|tool|>"@),
{
    reveal_strlit("<|begin▁of▁sentence|>");
    reveal_strlit("You are a helpful Assistant.");
    reveal_strlit("<|User|>");
    reveal_strlit("<|Assistant|>");
    reveal_strlit("<|end_of_sentence|>");
    reveal_strlit("<|tool|>");
    reveal_with_fuel(differs_within, 4);
    if !contains(content, "<|User|>"@) {
        lemma_token_in_marker("<|begin▁of▁sentence|>"@, "<|User|>"@, -1, 3);
        lemma_token_in_marker("You are a helpful Assistant."@, "<|User|>"@, -1, 3);
        lemma_preamble_holds_none("<|begin▁of▁sentence|>"@, "You are a helpful Assistant."@, content, "<|User|>"@);
    }
    if !contains(content, "<|Assistant|>"@) {
        lemma_token_in_marker("<|begin▁of▁sentence|>"@, "<|Assistant|>"@, -1, 3);
        lemma_token_in_marker("You are a helpful Assistant."@, "<|Assistant|>"@, -1, 3);
        lemma_preamble_holds_none("<|begin▁of▁sentence|>"@, "You are a helpful Assistant."@, content, "<|Assistant|>"@);
    }
    if !contains(content, "<|end_of_sentence|>"@) {
        lemma_token_in_marker("<|begin▁of▁sentence|>"@, "<|end_of_sentence|>"@, -1, 3);
        lemma_token_in_marker("You are a helpful Assistant."@, "<|end_of_sentence|>"@, -1, 3);
        lemma_preamble_holds_none("<|begin▁of▁sentence|>"@, "You are a helpful Assistant."@, content, "<|end_of_sentence|>"@);
    }
    if !contains(content, "<|tool|>"@) {
        lemma_token_in_marker("<|begin▁of▁sentence|>"@, "<|tool|>"@, -1, 3);
        lemma_token_in_marker("You are a helpful Assistant."@, "<|tool|>"@, -1, 3);
        lemma_preamble_holds_none("<|begin▁of▁sentence|>"@, "You are a helpful Assistant."@, content, "<|tool|>"@);
    }
}

/// In a prompt of the tool-calling grammar, made from messages whose texts and whose system preamble
/// hold none of its tokens, every turn contributes its markers once:
/// `<|User|>` stands once for every user message, `<|tool|>` once for every
/// tool message, `<|end_of_sentence|>` once for every assistant message, and
/// `<|Assistant|>` once for every assistant message and once more in the
/// generation cue.
pub proof fn law_tool_marker_counts(ms: Seq<MessageModel>, tools: Option<Seq<ToolModel>>)
    requires
        ms.len() > 0,
        well_formed(ms),
        texts_free_of(ms, "<|User|>"@),
        texts_free_of(ms, "<|Assistant|>"@),
        texts_free_of(ms, "<|end_of_sentence|>"@),
        texts_free_of(ms, "<|tool|>"@),
        !contains(DeepseekToolPrompt::system_with_tools(ms, tools), "<|User|>"@),
        !contains(DeepseekToolPrompt::system_with_tools(ms, tools), "<|Assistant|>"@),
        !contains(DeepseekToolPrompt::system_with_tools(ms, tools), "<|end_of_sentence|>"@),
        !contains(DeepseekToolPrompt::system_with_tools(ms, tools), "<|tool|>"@),
    ensures
        DeepseekToolPrompt.prompt_with_tools(ms, tools) matches Ok(prompt)
            && count(prompt, "<|User|>"@) == users(ms)
            && count(prompt, "<|Assistant|>"@) == assistants(ms) + 1
            && count(prompt, "<|end_of_sentence|>"@) == assistants(ms)
            && count(prompt, "<|tool|>"@) == tool_results(ms),
{
    lemma_tool_user_token();
    law_token_count_by_role(
        DeepseekToolPrompt::tool_grammar(),
        DeepseekToolPrompt::system_with_tools(ms, tools),
        ms,
        "<|User|>"@,
        1,
        0,
        0,
        0,
    );
    lemma_tool_assistant_token();
    law_token_count_by_role(
        DeepseekToolPrompt::tool_grammar(),
        DeepseekToolPrompt::system_with_tools(ms, tools),
        ms,
        "<|Assistant|>"@,
        0,
        1,
        0,
        1,
    );
    lemma_tool_end_token();
    law_token_count_by_role(
        DeepseekToolPrompt::tool_grammar(),
        DeepseekToolPrompt::system_with_tools(ms, tools),
        ms,
        "<|end_of_sentence|>"@,
        0,
        1,
        0,
        0,
    );
    lemma_tool_tool_token();
    law_token_count_by_role(
        DeepseekToolPrompt::tool_grammar(),
        DeepseekToolPrompt::system_with_tools(ms, tools),
        ms,
        "<|tool|>"@,
        0,
        0,
        1,
        0,
    );
}

/// What counting a token of the Cohere grammar rests on: the token fits the
/// grammar and is clean; the markers of a user turn, of an assistant turn
/// and the generation cue hold it so often; the opening of a system block,
/// the closing of a turn and the begin-of-sequence marker hold it so often;
/// the preamble and the instructions hold it nowhere.
pub open spec fn cohere_token(
    token: Seq<char>,
    per_user: nat,
    per_assistant: nat,
    in_cue: nat,
    in_system_open: nat,
    in_close: nat,
    in_bos: nat,
) -> bool {
    &&& token_fits(CohereChatPrompt::grammar(), token)
    &&& is_clean(token)
    &&& token_stands(CohereChatPrompt::grammar(), token, per_user, per_assistant, 0, in_cue)
    &&& closed_to(token, "<|START_OF_TURN_TOKEN|><|SYSTEM_TOKEN|>"@)
    &&& closed_from("<|START_OF_TURN_TOKEN|><|SYSTEM_TOKEN|>"@, token)
    &&& count("<|START_OF_TURN_TOKEN|><|SYSTEM_TOKEN|>"@, token) == in_system_open
    &&& count("<|END_OF_TURN_TOKEN|>"@, token) == in_close
    &&& closed_from("<BOS_TOKEN>"@, token)
    &&& count("<BOS_TOKEN>"@, token) == in_bos
    &&& count(CohereChatPrompt::preamble(), token) == 0
    &&& count(CohereChatPrompt::instructions(), token) == 0
}

/// In a prompt of the Cohere grammar, a token stands as often as the markers
/// of the turns hold it, as the system preamble in front of the first user
/// turn does, as the two system blocks behind the history do, and as the
/// generation cue does.
pub proof fn lemma_cohere_count(
    ms: Seq<MessageModel>,
    span: (usize, usize),
    token: Seq<char>,
    per_user: nat,
    per_assistant: nat,
    in_cue: nat,
    in_system_open: nat,
    in_close: nat,
    in_bos: nat,
)
    requires
        opens_with_user(CohereChatPrompt::grammar(), ms),
        CohereChatPrompt::last_query(ms) matches Ok(text) && is_span(text, span),
        well_formed(ms),
        texts_free_of(ms, token),
        cohere_token(token, per_user, per_assistant, in_cue, in_system_open, in_close, in_bos),
    ensures
        CohereChatPrompt::prompt_given(ms, Some(span)) matches Ok(prompt) && count(prompt, token)
            == tally(ms, per_user, per_assistant, 0) + in_bos + 3 * (in_system_open + in_close)
            + in_cue,
{
    let g = CohereChatPrompt::grammar();
    let system = CohereChatPrompt::system_prompt();
    let text = CohereChatPrompt::last_query(ms)->Ok_0;
    let start = span.0 as int;
    let end = span.1 as int;
    let query = text_before(text, start);
    let context = text_between(text, start, end);
    let rewritten = CohereChatPrompt::with_query_before(ms, start);
    let empty = Seq::<char>::empty();
    let open = "<|START_OF_TURN_TOKEN|><|SYSTEM_TOKEN|>"@;
    let close = "<|END_OF_TURN_TOKEN|>"@;
    reveal_strlit("<|START_OF_TURN_TOKEN|><|SYSTEM_TOKEN|>");
    reveal_strlit("<|END_OF_TURN_TOKEN|>");
    reveal_strlit("<|START_OF_TURN_TOKEN|><|USER_TOKEN|>");
    reveal_strlit("<|START_OF_TURN_TOKEN|><|CHATBOT_TOKEN|>");
    reveal_strlit("<BOS_TOKEN>");

    // the query and the context are parts of the text of the last message
    lemma_cut_is_whole(text, start, end);
    assert(ms.last() == ms[ms.len() - 1]);
    assert(!contains(text, token));
    assert(empty + query + (context + text_from(text, end)) == text);
    lemma_part_holds_no_more(empty, query, context + text_from(text, end), token);
    lemma_part_holds_no_more(query, context, text_from(text, end), token);
    assert(well_formed(rewritten) && texts_free_of(rewritten, token)) by {
        assert forall|k: int| 0 <= k < rewritten.len() implies (#[trigger] rewritten[k] matches MessageModel::Assistant(
            a,
        ) ==> assistant_text(a) is Some) && !contains(turn_text(rewritten[k]), token) by {
            if k < ms.len() - 1 {
                assert(rewritten[k] == ms[k]);
            }
        }
    }
    let opening = choose|first: int| user_opens_at(g, ms, first);
    assert(user_opens_at(g, rewritten, opening)) by {
        assert forall|j: int| 0 <= j < opening implies !is_turn(g, #[trigger] rewritten[j]) by {
            assert(rewritten[j] == ms[j]);
        }
        if opening < ms.len() - 1 {
            assert(rewritten[opening] == ms[opening]);
        }
    }

    // the history
    lemma_count_of_history(g, system, rewritten, token);
    lemma_marker_count_by_role(g, system, rewritten, token, per_user, per_assistant, 0, in_cue);
    lemma_preamble_share_of_user_opening(g, system, rewritten, token, opening);
    assert(tally(rewritten, per_user, per_assistant, 0) == tally(ms, per_user, per_assistant, 0))
        by {
        assert(rewritten.drop_last() == ms.drop_last());
    }

    // the system preamble
    let block = CohereChatPrompt::system_block(CohereChatPrompt::preamble());
    lemma_none_counted(CohereChatPrompt::preamble(), token);
    lemma_count_around(open, CohereChatPrompt::preamble(), close, token);
    assert(block[0] == open[0]);
    lemma_apart_by_right("<BOS_TOKEN>"@, block, token);
    lemma_count_of_parts("<BOS_TOKEN>"@, block, token);
    assert(system[0] == '<' && system.last() == '>');
    lemma_trim_keeps_clean(system);

    // the two blocks behind the history, and the cue
    let history = fold_turns(g, system, rewritten)->Ok_0;
    let first = CohereChatPrompt::system_block(context);
    let second = CohereChatPrompt::system_block(CohereChatPrompt::instructions());
    lemma_count_around(open, context, close, token);
    lemma_none_counted(CohereChatPrompt::instructions(), token);
    lemma_count_around(open, CohereChatPrompt::instructions(), close, token);
    assert(first[0] == open[0] && second[0] == open[0]);
    lemma_apart_by_right(history, first, token);
    lemma_count_of_parts(history, first, token);
    lemma_apart_by_right(history + first, second, token);
    lemma_count_of_parts(history + first, second, token);
    lemma_apart_by_right(history + first + second, g.cue, token);
    lemma_count_of_parts(history + first + second, g.cue, token);
}

/// The token `<|START_OF_TURN_TOKEN|>` of the Cohere grammar can be counted in its prompts:
/// how often it stands in the markers of a turn, in the markers of a system
/// block and in the begin-of-sequence marker, and that the preamble and the
/// instructions hold it nowhere.
pub proof fn lemma_cohere_start_token()
    ensures
        cohere_token("<|START_OF_TURN_TOKEN|>"@, 1, 1, 1, 1, 0, 0),
{
    reveal_strlit("<|START_OF_TURN_TOKEN|><|USER_TOKEN|>");
    reveal_strlit("<|END_OF_TURN_TOKEN|>");
    reveal_strlit("<|START_OF_TURN_TOKEN|><|CHATBOT_TOKEN|>");
    reveal_strlit("<|START_OF_TURN_TOKEN|><|SYSTEM_TOKEN|>");
    reveal_strlit("<BOS_TOKEN>");
    reveal_strlit("# Safety Preamble\nThe instructions in this section override those in the task description and style guide sections. Don't answer questions that are harmful or immoral.\n\n# System Preamble\n## Basic Rules\nYou are a powerful conversational AI trained by Cohere to help people. You are augmented by a number of tools, and your job is to use and consume the output of these tools to best help the user. You will see a conversation history between yourself and a user, ending with an utterance from the user. You will then see a specific instruction instructing you what kind of response to generate. When you answer the user's requests, you cite your sources in your answers, according to those instructions.\n\n# User Preamble\n## Task and Context\nYou help people answer their questions and other requests interactively. You will be asked a very wide array of requests on all kinds of topics. You will be equipped with a wide range of search engines or similar tools to help you, which you use to research your answer. You should focus on serving the user's needs as best you can, which will be wide-ranging.\n\n## Style Guide\nUnless the user asks for a different style of answer, you should answer in full sentences, using proper grammar and spelling.");
    reveal_strlit("Carefully perform the following instructions, in order, starting each with a new line.\nFirstly, Decide which of the retrieved documents are relevant to the user's last input by writing 'Relevant Documents:' followed by comma-separated list of document numbers. If none are relevant, you should instead write 'None'.\nSecondly, Decide which of the retrieved documents contain facts that should be cited in a good answer to the user's last input by writing 'Cited Documents:' followed a comma-separated list of document numbers. If you dont want to cite any of them, you should instead write 'None'.\nThirdly, Write 'Answer:' followed by a response to the user's last input in high quality natural english. Use the retrieved documents to help you. Do not insert any citations or grounding markup.\nFinally, Write 'Grounded answer:' followed by a response to the user's last input in high quality natural english. Use the symbols <co: doc> and </co: doc> to indicate when a fact comes from a document in the search result, e.g <co: 0>my fact</co: 0> for a fact from document 0.");
    reveal_strlit("<|START_OF_TURN_TOKEN|>");
    reveal_with_fuel(differs_within, 5);
    assert("<|START_OF_TURN_TOKEN|><|USER_TOKEN|>"@.subrange(0, 23) == "<|START_OF_TURN_TOKEN|>"@);
    lemma_token_in_marker("<|START_OF_TURN_TOKEN|><|USER_TOKEN|>"@, "<|START_OF_TURN_TOKEN|>"@, 0, 4);
    lemma_token_in_marker("<|END_OF_TURN_TOKEN|>"@, "<|START_OF_TURN_TOKEN|>"@, -1, 4);
    assert("<|START_OF_TURN_TOKEN|><|CHATBOT_TOKEN|>"@.subrange(0, 23) == "<|START_OF_TURN_TOKEN|>"@);
    lemma_token_in_marker("<|START_OF_TURN_TOKEN|><|CHATBOT_TOKEN|>"@, "<|START_OF_TURN_TOKEN|>"@, 0, 4);
    assert("<|START_OF_TURN_TOKEN|><|SYSTEM_TOKEN|>"@.subrange(0, 23) == "<|START_OF_TURN_TOKEN|>"@);
    lemma_token_in_marker("<|START_OF_TURN_TOKEN|><|SYSTEM_TOKEN|>"@, "<|START_OF_TURN_TOKEN|>"@, 0, 4);
    lemma_token_in_marker("<BOS_TOKEN>"@, "<|START_OF_TURN_TOKEN|>"@, -1, 4);
    lemma_token_in_marker(CohereChatPrompt::preamble(), "<|START_OF_TURN_TOKEN|>"@, -1, 4);
    lemma_token_in_marker(CohereChatPrompt::instructions(), "<|START_OF_TURN_TOKEN|>"@, -1, 4);
}

/// The token `<|END_OF_TURN_TOKEN|>` of the Cohere grammar can be counted in its prompts:
/// how often it stands in the markers of a turn, in the markers of a system
/// block and in the begin-of-sequence marker, and that the preamble and the
/// instructions hold it nowhere.
pub proof fn lemma_cohere_end_token()
    ensures
        cohere_token("<|END_OF_TURN_TOKEN|>"@, 1, 1, 0, 0, 1, 0),
{
    reveal_strlit("<|START_OF_TURN_TOKEN|><|USER_TOKEN|>");
    reveal_strlit("<|END_OF_TURN_TOKEN|>");
    reveal_strlit("<|START_OF_TURN_TOKEN|><|CHATBOT_TOKEN|>");
    reveal_strlit("<|START_OF_TURN_TOKEN|><|SYSTEM_TOKEN|>");
    reveal_strlit("<BOS_TOKEN>");
    reveal_strlit("# Safety Preamble\nThe instructions in this section override those in the task description and style guide sections. Don't answer questions that are harmful or immoral.\n\n# System Preamble\n## Basic Rules\nYou are a powerful conversational AI trained by Cohere to help people. You are augmented by a number of tools, and your job is to use and consume the output of these tools to best help the user. You will see a conversation history between yourself and a user, ending with an utterance from the user. You will then see a specific instruction instructing you what kind of response to generate. When you answer the user's requests, you cite your sources in your answers, according to those instructions.\n\n# User Preamble\n## Task and Context\nYou help people answer their questions and other requests interactively. You will be asked a very wide array of requests on all kinds of topics. You will be equipped with a wide range of search engines or similar tools to help you, which you use to research your answer. You should focus on serving the user's needs as best you can, which will be wide-ranging.\n\n## Style Guide\nUnless the user asks for a different style of answer, you should answer in full sentences, using proper grammar and spelling.");
    reveal_strlit("Carefully perform the following instructions, in order, starting each with a new line.\nFirstly, Decide which of the retrieved documents are relevant to the user's last input by writing 'Relevant Documents:' followed by comma-separated list of document numbers. If none are relevant, you should instead write 'None'.\nSecondly, Decide which of the retrieved documents contain facts that should be cited in a good answer to the user's last input by writing 'Cited Documents:' followed a comma-separated list of document numbers. If you dont want to cite any of them, you should instead write 'None'.\nThirdly, Write 'Answer:' followed by a response to the user's last input in high quality natural english. Use the retrieved documents to help you. Do not insert any citations or grounding markup.\nFinally, Write 'Grounded answer:' followed by a response to the user's last input in high quality natural english. Use the symbols <co: doc> and </co: doc> to indicate when a fact comes from a document in the search result, e.g <co: 0>my fact</co: 0> for a fact from document 0.");
    reveal_strlit("<|END_OF_TURN_TOKEN|>");
    reveal_with_fuel(differs_within, 4);
    lemma_token_in_marker("<|START_OF_TURN_TOKEN|><|USER_TOKEN|>"@, "<|END_OF_TURN_TOKEN|>"@, -1, 3);
    assert("<|END_OF_TURN_TOKEN|>"@.subrange(0, 21) == "<|END_OF_TURN_TOKEN|>"@);
    lemma_token_in_marker("<|END_OF_TURN_TOKEN|>"@, "<|END_OF_TURN_TOKEN|>"@, 0, 3);
    lemma_token_in_marker("<|START_OF_TURN_TOKEN|><|CHATBOT_TOKEN|>"@, "<|END_OF_TURN_TOKEN|>"@, -1, 3);
    lemma_token_in_marker("<|START_OF_TURN_TOKEN|><|SYSTEM_TOKEN|>"@, "<|END_OF_TURN_TOKEN|>"@, -1, 3);
    lemma_token_in_marker("<BOS_TOKEN>"@, "<|END_OF_TURN_TOKEN|>"@, -1, 3);
    lemma_token_in_marker(CohereChatPrompt::preamble(), "<|END_OF_TURN_TOKEN|>"@, -1, 3);
    lemma_token_in_marker(CohereChatPrompt::instructions(), "<|END_OF_TURN_TOKEN|>"@, -1, 3);
}

/// The token `<|USER_TOKEN|>` of the Cohere grammar can be counted in its prompts:
/// how often it stands in the markers of a turn, in the markers of a system
/// block and in the begin-of-sequence marker, and that the preamble and the
/// instructions hold it nowhere.
pub proof fn lemma_cohere_user_token()
    ensures
        cohere_token("<|USER_TOKEN|>"@, 1, 0, 0, 0, 0, 0),
{
    reveal_strlit("<|START_OF_TURN_TOKEN|><|USER_TOKEN|>");
    reveal_strlit("<|END_OF_TURN_TOKEN|>");
    reveal_strlit("<|START_OF_TURN_TOKEN|><|CHATBOT_TOKEN|>");
    reveal_strlit("<|START_OF_TURN_TOKEN|><|SYSTEM_TOKEN|>");
    reveal_strlit("<BOS_TOKEN>");
    reveal_strlit("# Safety Preamble\nThe instructions in this section override those in the task description and style guide sections. Don't answer questions that are harmful or immoral.\n\n# System Preamble\n## Basic Rules\nYou are a powerful conversational AI trained by Cohere to help people. You are augmented by a number of tools, and your job is to use and consume the output of these tools to best help the user. You will see a conversation history between yourself and a user, ending with an utterance from the user. You will then see a specific instruction instructing you what kind of response to generate. When you answer the user's requests, you cite your sources in your answers, according to those instructions.\n\n# User Preamble\n## Task and Context\nYou help people answer their questions and other requests interactively. You will be asked a very wide array of requests on all kinds of topics. You will be equipped with a wide range of search engines or similar tools to help you, which you use to research your answer. You should focus on serving the user's needs as best you can, which will be wide-ranging.\n\n## Style Guide\nUnless the user asks for a different style of answer, you should answer in full sentences, using proper grammar and spelling.");
    reveal_strlit("Carefully perform the following instructions, in order, starting each with a new line.\nFirstly, Decide which of the retrieved documents are relevant to the user's last input by writing 'Relevant Documents:' followed by comma-separated list of document numbers. If none are relevant, you should instead write 'None'.\nSecondly, Decide which of the retrieved documents contain facts that should be cited in a good answer to the user's last input by writing 'Cited Documents:' followed a comma-separated list of document numbers. If you dont want to cite any of them, you should instead write 'None'.\nThirdly, Write 'Answer:' followed by a response to the user's last input in high quality natural english. Use the retrieved documents to help you. Do not insert any citations or grounding markup.\nFinally, Write 'Grounded answer:' followed by a response to the user's last input in high quality natural english. Use the symbols <co: doc> and </co: doc> to indicate when a fact comes from a document in the search result, e.g <co: 0>my fact</co: 0> for a fact from document 0.");
    reveal_strlit("<|USER_TOKEN|>");
    reveal_with_fuel(differs_within, 4);
    assert("<|START_OF_TURN_TOKEN|><|USER_TOKEN|>"@.subrange(23, 37) == "<|USER_TOKEN|>"@);
    lemma_token_in_marker("<|START_OF_TURN_TOKEN|><|USER_TOKEN|>"@, "<|USER_TOKEN|>"@, 23, 3);
    lemma_token_in_marker("<|END_OF_TURN_TOKEN|>"@, "<|USER_TOKEN|>"@, -1, 3);
    lemma_token_in_marker("<|START_OF_TURN_TOKEN|><|CHATBOT_TOKEN|>"@, "<|USER_TOKEN|>"@, -1, 3);
    lemma_token_in_marker("<|START_OF_TURN_TOKEN|><|SYSTEM_TOKEN|>"@, "<|USER_TOKEN|>"@, -1, 3);
    lemma_token_in_marker("<BOS_TOKEN>"@, "<|USER_TOKEN|>"@, -1, 3);
    lemma_token_in_marker(CohereChatPrompt::preamble(), "<|USER_TOKEN|>"@, -1, 3);
    lemma_token_in_marker(CohereChatPrompt::instructions(), "<|USER_TOKEN|>"@, -1, 3);
}

/// The token `<|CHATBOT_TOKEN|>` of the Cohere grammar can be counted in its prompts:
/// how often it stands in the markers of a turn, in the markers of a system
/// block and in the begin-of-sequence marker, and that the preamble and the
/// instructions hold it nowhere.
pub proof fn lemma_cohere_chatbot_token()
    ensures
        cohere_token("<|CHATBOT_TOKEN|>"@, 0, 1, 1, 0, 0, 0),
{
    reveal_strlit("<|START_OF_TURN_TOKEN|><|USER_TOKEN|>");
    reveal_strlit("<|END_OF_TURN_TOKEN|>");
    reveal_strlit("<|START_OF_TURN_TOKEN|><|CHATBOT_TOKEN|>");
    reveal_strlit("<|START_OF_TURN_TOKEN|><|SYSTEM_TOKEN|>");
    reveal_strlit("<BOS_TOKEN>");
    reveal_strlit("# Safety Preamble\nThe instructions in this section override those in the task description and style guide sections. Don't answer questions that are harmful or immoral.\n\n# System Preamble\n## Basic Rules\nYou are a powerful conversational AI trained by Cohere to help people. You are augmented by a number of tools, and your job is to use and consume the output of these tools to best help the user. You will see a conversation history between yourself and a user, ending with an utterance from the user. You will then see a specific instruction instructing you what kind of response to generate. When you answer the user's requests, you cite your sources in your answers, according to those instructions.\n\n# User Preamble\n## Task and Context\nYou help people answer their questions and other requests interactively. You will be asked a very wide array of requests on all kinds of topics. You will be equipped with a wide range of search engines or similar tools to help you, which you use to research your answer. You should focus on serving the user's needs as best you can, which will be wide-ranging.\n\n## Style Guide\nUnless the user asks for a different style of answer, you should answer in full sentences, using proper grammar and spelling.");
    reveal_strlit("Carefully perform the following instructions, in order, starting each with a new line.\nFirstly, Decide which of the retrieved documents are relevant to the user's last input by writing 'Relevant Documents:' followed by comma-separated list of document numbers. If none are relevant, you should instead write 'None'.\nSecondly, Decide which of the retrieved documents contain facts that should be cited in a good answer to the user's last input by writing 'Cited Documents:' followed a comma-separated list of document numbers. If you dont want to cite any of them, you should instead write 'None'.\nThirdly, Write 'Answer:' followed by a response to the user's last input in high quality natural english. Use the retrieved documents to help you. Do not insert any citations or grounding markup.\nFinally, Write 'Grounded answer:' followed by a response to the user's last input in high quality natural english. Use the symbols <co: doc> and </co: doc> to indicate when a fact comes from a document in the search result, e.g <co: 0>my fact</co: 0> for a fact from document 0.");
    reveal_strlit("<|CHATBOT_TOKEN|>");
    reveal_with_fuel(differs_within, 4);
    lemma_token_in_marker("<|START_OF_TURN_TOKEN|><|USER_TOKEN|>"@, "<|CHATBOT_TOKEN|>"@, -1, 3);
    lemma_token_in_marker("<|END_OF_TURN_TOKEN|>"@, "<|CHATBOT_TOKEN|>"@, -1, 3);
    assert("<|START_OF_TURN_TOKEN|><|CHATBOT_TOKEN|>"@.subrange(23, 40) == "<|CHATBOT_TOKEN|>"@);
    lemma_token_in_marker("<|START_OF_TURN_TOKEN|><|CHATBOT_TOKEN|>"@, "<|CHATBOT_TOKEN|>"@, 23, 3);
    lemma_token_in_marker("<|START_OF_TURN_TOKEN|><|SYSTEM_TOKEN|>"@, "<|CHATBOT_TOKEN|>"@, -1, 3);
    lemma_token_in_marker("<BOS_TOKEN>"@, "<|CHATBOT_TOKEN|>"@, -1, 3);
    lemma_token_in_marker(CohereChatPrompt::preamble(), "<|CHATBOT_TOKEN|>"@, -1, 3);
    lemma_token_in_marker(CohereChatPrompt::instructions(), "<|CHATBOT_TOKEN|>"@, -1, 3);
}

/// The token `<|SYSTEM_TOKEN|>` of the Cohere grammar can be counted in its prompts:
/// how often it stands in the markers of a turn, in the markers of a system
/// block and in the begin-of-sequence marker, and that the preamble and the
/// instructions hold it nowhere.
pub proof fn lemma_cohere_system_token()
    ensures
        cohere_token("<|SYSTEM_TOKEN|>"@, 0, 0, 0, 1, 0, 0),
{
    reveal_strlit("<|START_OF_TURN_TOKEN|><|USER_TOKEN|>");
    reveal_strlit("<|END_OF_TURN_TOKEN|>");
    reveal_strlit("<|START_OF_TURN_TOKEN|><|CHATBOT_TOKEN|>");
    reveal_strlit("<|START_OF_TURN_TOKEN|><|SYSTEM_TOKEN|>");
    reveal_strlit("<BOS_TOKEN>");
    reveal_strlit("# Safety Preamble\nThe instructions in this section override those in the task description and style guide sections. Don't answer questions that are harmful or immoral.\n\n# System Preamble\n## Basic Rules\nYou are a powerful conversational AI trained by Cohere to help people. You are augmented by a number of tools, and your job is to use and consume the output of these tools to best help the user. You will see a conversation history between yourself and a user, ending with an utterance from the user. You will then see a specific instruction instructing you what kind of response to generate. When you answer the user's requests, you cite your sources in your answers, according to those instructions.\n\n# User Preamble\n## Task and Context\nYou help people answer their questions and other requests interactively. You will be asked a very wide array of requests on all kinds of topics. You will be equipped with a wide range of search engines or similar tools to help you, which you use to research your answer. You should focus on serving the user's needs as best you can, which will be wide-ranging.\n\n## Style Guide\nUnless the user asks for a different style of answer, you should answer in full sentences, using proper grammar and spelling.");
    reveal_strlit("Carefully perform the following instructions, in order, starting each with a new line.\nFirstly, Decide which of the retrieved documents are relevant to the user's last input by writing 'Relevant Documents:' followed by comma-separated list of document numbers. If none are relevant, you should instead write 'None'.\nSecondly, Decide which of the retrieved documents contain facts that should be cited in a good answer to the user's last input by writing 'Cited Documents:' followed a comma-separated list of document numbers. If you dont want to cite any of them, you should instead write 'None'.\nThirdly, Write 'Answer:' followed by a response to the user's last input in high quality natural english. Use the retrieved documents to help you. Do not insert any citations or grounding markup.\nFinally, Write 'Grounded answer:' followed by a response to the user's last input in high quality natural english. Use the symbols <co: doc> and </co: doc> to indicate when a fact comes from a document in the search result, e.g <co: 0>my fact</co: 0> for a fact from document 0.");
    reveal_strlit("<|SYSTEM_TOKEN|>");
    reveal_with_fuel(differs_within, 5);
    lemma_token_in_marker("<|START_OF_TURN_TOKEN|><|USER_TOKEN|>"@, "<|SYSTEM_TOKEN|>"@, -1, 4);
    lemma_token_in_marker("<|END_OF_TURN_TOKEN|>"@, "<|SYSTEM_TOKEN|>"@, -1, 4);
    lemma_token_in_marker("<|START_OF_TURN_TOKEN|><|CHATBOT_TOKEN|>"@, "<|SYSTEM_TOKEN|>"@, -1, 4);
    assert("<|START_OF_TURN_TOKEN|><|SYSTEM_TOKEN|>"@.subrange(23, 39) == "<|SYSTEM_TOKEN|>"@);
    lemma_token_in_marker("<|START_OF_TURN_TOKEN|><|SYSTEM_TOKEN|>"@, "<|SYSTEM_TOKEN|>"@, 23, 4);
    lemma_token_in_marker("<BOS_TOKEN>"@, "<|SYSTEM_TOKEN|>"@, -1, 4);
    lemma_token_in_marker(CohereChatPrompt::preamble(), "<|SYSTEM_TOKEN|>"@, -1, 4);
    lemma_token_in_marker(CohereChatPrompt::instructions(), "<|SYSTEM_TOKEN|>"@, -1, 4);
}

/// The token `<BOS_TOKEN>` of the Cohere grammar can be counted in its prompts:
/// how often it stands in the markers of a turn, in the markers of a system
/// block and in the begin-of-sequence marker, and that the preamble and the
/// instructions hold it nowhere.
pub proof fn lemma_cohere_bos_token()
    ensures
        cohere_token("<BOS_TOKEN>"@, 0, 0, 0, 0, 0, 1),
{
    reveal_strlit("<|START_OF_TURN_TOKEN|><|USER_TOKEN|>");
    reveal_strlit("<|END_OF_TURN_TOKEN|>");
    reveal_strlit("<|START_OF_TURN_TOKEN|><|CHATBOT_TOKEN|>");
    reveal_strlit("<|START_OF_TURN_TOKEN|><|SYSTEM_TOKEN|>");
    reveal_strlit("<BOS_TOKEN>");
    reveal_strlit("# Safety Preamble\nThe instructions in this section override those in the task description and style guide sections. Don't answer questions that are harmful or immoral.\n\n# System Preamble\n## Basic Rules\nYou are a powerful conversational AI trained by Cohere to help people. You are augmented by a number of tools, and your job is to use and consume the output of these tools to best help the user. You will see a conversation history between yourself and a user, ending with an utterance from the user. You will then see a specific instruction instructing you what kind of response to generate. When you answer the user's requests, you cite your sources in your answers, according to those instructions.\n\n# User Preamble\n## Task and Context\nYou help people answer their questions and other requests interactively. You will be asked a very wide array of requests on all kinds of topics. You will be equipped with a wide range of search engines or similar tools to help you, which you use to research your answer. You should focus on serving the user's needs as best you can, which will be wide-ranging.\n\n## Style Guide\nUnless the user asks for a different style of answer, you should answer in full sentences, using proper grammar and spelling.");
    reveal_strlit("Carefully perform the following instructions, in order, starting each with a new line.\nFirstly, Decide which of the retrieved documents are relevant to the user's last input by writing 'Relevant Documents:' followed by comma-separated list of document numbers. If none are relevant, you should instead write 'None'.\nSecondly, Decide which of the retrieved documents contain facts that should be cited in a good answer to the user's last input by writing 'Cited Documents:' followed a comma-separated list of document numbers. If you dont want to cite any of them, you should instead write 'None'.\nThirdly, Write 'Answer:' followed by a response to the user's last input in high quality natural english. Use the retrieved documents to help you. Do not insert any citations or grounding markup.\nFinally, Write 'Grounded answer:' followed by a response to the user's last input in high quality natural english. Use the symbols <co: doc> and </co: doc> to indicate when a fact comes from a document in the search result, e.g <co: 0>my fact</co: 0> for a fact from document 0.");
    reveal_strlit("<BOS_TOKEN>");
    reveal_with_fuel(differs_within, 3);
    lemma_token_in_marker("<|START_OF_TURN_TOKEN|><|USER_TOKEN|>"@, "<BOS_TOKEN>"@, -1, 2);
    lemma_token_in_marker("<|END_OF_TURN_TOKEN|>"@, "<BOS_TOKEN>"@, -1, 2);
    lemma_token_in_marker("<|START_OF_TURN_TOKEN|><|CHATBOT_TOKEN|>"@, "<BOS_TOKEN>"@, -1, 2);
    lemma_token_in_marker("<|START_OF_TURN_TOKEN|><|SYSTEM_TOKEN|>"@, "<BOS_TOKEN>"@, -1, 2);
    assert("<BOS_TOKEN>"@.subrange(0, 11) == "<BOS_TOKEN>"@);
    lemma_token_in_marker("<BOS_TOKEN>"@, "<BOS_TOKEN>"@, 0, 2);
    lemma_token_in_marker(CohereChatPrompt::preamble(), "<BOS_TOKEN>"@, -1, 2);
    lemma_token_in_marker(CohereChatPrompt::instructions(), "<BOS_TOKEN>"@, -1, 2);
}

/// In a prompt of the Cohere grammar, made from a conversation whose first
/// turn is a user turn and whose texts hold none of its tokens, every turn
/// contributes its markers once. Each user and each assistant message opens
/// and closes one turn; the system preamble, the block of results and the
/// instructions are three system turns; the generation cue opens the turn of
/// the chatbot; the begin-of-sequence marker stands once.
pub proof fn law_cohere_marker_counts(ms: Seq<MessageModel>, span: (usize, usize))
    requires
        opens_with_user(CohereChatPrompt::grammar(), ms),
        CohereChatPrompt::last_query(ms) matches Ok(text) && is_span(text, span),
        well_formed(ms),
        texts_free_of(ms, "<|END_OF_TURN_TOKEN|>"@),
        texts_free_of(ms, "<|START_OF_TURN_TOKEN|>"@),
        texts_free_of(ms, "<|USER_TOKEN|>"@),
        texts_free_of(ms, "<|CHATBOT_TOKEN|>"@),
        texts_free_of(ms, "<|SYSTEM_TOKEN|>"@),
        texts_free_of(ms, "<BOS_TOKEN>"@),
    ensures
        CohereChatPrompt::prompt_given(ms, Some(span)) matches Ok(prompt)
            && count(prompt, "<|END_OF_TURN_TOKEN|>"@) == users(ms) + assistants(ms) + 3
            && count(prompt, "<|START_OF_TURN_TOKEN|>"@) == users(ms) + assistants(ms) + 4
            && count(prompt, "<|USER_TOKEN|>"@) == users(ms)
            && count(prompt, "<|CHATBOT_TOKEN|>"@) == assistants(ms) + 1
            && count(prompt, "<|SYSTEM_TOKEN|>"@) == 3
            && count(prompt, "<BOS_TOKEN>"@) == 1,
{
    lemma_tally_adds(ms);
    lemma_cohere_end_token();
    lemma_cohere_count(ms, span, "<|END_OF_TURN_TOKEN|>"@, 1, 1, 0, 0, 1, 0);
    lemma_cohere_start_token();
    lemma_cohere_count(ms, span, "<|START_OF_TURN_TOKEN|>"@, 1, 1, 1, 1, 0, 0);
    lemma_cohere_user_token();
    lemma_cohere_count(ms, span, "<|USER_TOKEN|>"@, 1, 0, 0, 0, 0, 0);
    lemma_cohere_chatbot_token();
    lemma_cohere_count(ms, span, "<|CHATBOT_TOKEN|>"@, 0, 1, 1, 0, 0, 0);
    lemma_cohere_system_token();
    lemma_cohere_count(ms, span, "<|SYSTEM_TOKEN|>"@, 0, 0, 0, 1, 0, 0);
    lemma_cohere_bos_token();
    lemma_cohere_count(ms, span, "<BOS_TOKEN>"@, 0, 0, 0, 0, 0, 1);
}

} // verus!
