//! What holds of every formatter, and of each grammar, for all conversations.

use vstd::prelude::*;
use crate::chain::{
    chain, law_fold_fails_on_empty_assistant, law_history_is_chain_of_turns,
    lemma_well_delimited_is_untouched, untouched, well_delimited, well_formed,
};
use crate::cohere::CohereChatPrompt;
use crate::deepseek::{
    DeepseekChat25Prompt, DeepseekChat2Prompt, DeepseekChatPrompt, DeepseekCoderPrompt,
    DeepseekToolPrompt,
};
use crate::error::PromptErrorModel;
use crate::grammar::{GrammarModel, finished};
use crate::message::{Message, MessageModel, assistant_text, conversation};
use crate::prompt::BuildChatPrompt;
use crate::text::{
    contains, ends_with, lemma_contains_within, lemma_trim_keeps_content, text_between,
};
use crate::tool::{ToolModel, function_pretty_json, lemma_entries_hold_each_tool, tool_entries};

verus! {

/// No formatter makes a prompt from an empty conversation: each reports that
/// there are no messages, with or without tools.
pub proof fn law_empty_conversation_has_no_prompt(tools: Option<Seq<ToolModel>>)
    ensures
        CohereChatPrompt.prompt(Seq::empty()) == Err::<Seq<char>, PromptErrorModel>(
            PromptErrorModel::NoMessages,
        ),
        DeepseekChatPrompt.prompt(Seq::empty()) == Err::<Seq<char>, PromptErrorModel>(
            PromptErrorModel::NoMessages,
        ),
        DeepseekCoderPrompt.prompt(Seq::empty()) == Err::<Seq<char>, PromptErrorModel>(
            PromptErrorModel::NoMessages,
        ),
        DeepseekChat2Prompt.prompt(Seq::empty()) == Err::<Seq<char>, PromptErrorModel>(
            PromptErrorModel::NoMessages,
        ),
        DeepseekChat25Prompt.prompt(Seq::empty()) == Err::<Seq<char>, PromptErrorModel>(
            PromptErrorModel::NoMessages,
        ),
        DeepseekToolPrompt.prompt(Seq::empty()) == Err::<Seq<char>, PromptErrorModel>(
            PromptErrorModel::NoMessages,
        ),
        CohereChatPrompt.prompt_with_tools(Seq::empty(), tools) == Err::<
            Seq<char>,
            PromptErrorModel,
        >(PromptErrorModel::NoMessages),
        DeepseekChatPrompt.prompt_with_tools(Seq::empty(), tools) == Err::<
            Seq<char>,
            PromptErrorModel,
        >(PromptErrorModel::NoMessages),
        DeepseekCoderPrompt.prompt_with_tools(Seq::empty(), tools) == Err::<
            Seq<char>,
            PromptErrorModel,
        >(PromptErrorModel::NoMessages),
        DeepseekChat2Prompt.prompt_with_tools(Seq::empty(), tools) == Err::<
            Seq<char>,
            PromptErrorModel,
        >(PromptErrorModel::NoMessages),
        DeepseekChat25Prompt.prompt_with_tools(Seq::empty(), tools) == Err::<
            Seq<char>,
            PromptErrorModel,
        >(PromptErrorModel::NoMessages),
        DeepseekToolPrompt.prompt_with_tools(Seq::empty(), tools) == Err::<
            Seq<char>,
            PromptErrorModel,
        >(PromptErrorModel::NoMessages),
{
}

/// Two conversations that hold the same messages get the same prompt, or the
/// same failure, from any formatter, and leave the same conversation behind.
pub proof fn law_equal_conversations_give_equal_prompts<F: BuildChatPrompt>(
    formatter: F,
    first: Seq<Message>,
    second: Seq<Message>,
    tools: Option<Seq<ToolModel>>,
)
    requires
        conversation(first) == conversation(second),
    ensures
        formatter.prompt(conversation(first)) == formatter.prompt(conversation(second)),
        formatter.left_behind(conversation(first)) == formatter.left_behind(conversation(second)),
        formatter.prompt_with_tools(conversation(first), tools) == formatter.prompt_with_tools(
            conversation(second),
            tools,
        ),
{
}

/// A formatter of the DeepSeek families makes a prompt from every
/// conversation that is not empty and in which each assistant message has
/// content or tool calls. From any other conversation that is not empty it
/// reports that an assistant message is missing.
pub proof fn law_deepseek_prompt_is_owed(ms: Seq<MessageModel>, tools: Option<Seq<ToolModel>>)
    requires
        ms.len() > 0,
    ensures
        DeepseekChatPrompt.prompt(ms) is Ok <==> well_formed(ms),
        DeepseekCoderPrompt.prompt(ms) is Ok <==> well_formed(ms),
        DeepseekChat2Prompt.prompt(ms) is Ok <==> well_formed(ms),
        DeepseekChat25Prompt.prompt(ms) is Ok <==> well_formed(ms),
        DeepseekToolPrompt.prompt(ms) is Ok <==> well_formed(ms),
        DeepseekToolPrompt.prompt_with_tools(ms, tools) is Ok <==> well_formed(ms),
        !well_formed(ms) ==> {
            let missing = Err::<Seq<char>, PromptErrorModel>(PromptErrorModel::NoAssistantMessage);
            &&& DeepseekChatPrompt.prompt(ms) == missing
            &&& DeepseekCoderPrompt.prompt(ms) == missing
            &&& DeepseekChat2Prompt.prompt(ms) == missing
            &&& DeepseekChat25Prompt.prompt(ms) == missing
            &&& DeepseekToolPrompt.prompt(ms) == missing
            &&& DeepseekToolPrompt.prompt_with_tools(ms, tools) == missing
        },
{
    law_fold_fails_on_empty_assistant(DeepseekChatPrompt::grammar(), ""@, ms);
    law_fold_fails_on_empty_assistant(
        DeepseekCoderPrompt::grammar(),
        DeepseekCoderPrompt::system_of(ms),
        ms,
    );
    law_fold_fails_on_empty_assistant(
        DeepseekChat2Prompt::grammar(),
        DeepseekChat2Prompt::system_of(ms),
        ms,
    );
    law_fold_fails_on_empty_assistant(
        DeepseekChat25Prompt::grammar(),
        DeepseekChat25Prompt::system_of(ms),
        ms,
    );
    law_fold_fails_on_empty_assistant(
        DeepseekToolPrompt::grammar(),
        DeepseekToolPrompt::system_of(ms),
        ms,
    );
    law_fold_fails_on_empty_assistant(
        DeepseekToolPrompt::tool_grammar(),
        DeepseekToolPrompt::system_with_tools(ms, tools),
        ms,
    );
}

/// Where trimming the history between turns removes nothing, a finished
/// prompt is the chain of its turns followed by the generation cue: each
/// turn's markers stand in it once, around the turn's trimmed content.
pub proof fn law_prompt_is_chain_of_turns(
    g: GrammarModel,
    system: Seq<char>,
    ms: Seq<MessageModel>,
)
    requires
        well_formed(ms),
        untouched(g, system, ms),
    ensures
        finished(g, system, ms) == Ok::<Seq<char>, PromptErrorModel>(chain(g, system, ms) + g.cue),
{
    law_history_is_chain_of_turns(g, system, ms);
}

/// The markers of the `DeepSeek-V2.5` grammars, with and without tools, are
/// clean: none begins or ends with white space.
pub proof fn lemma_v25_markers_are_clean()
    ensures
        well_delimited(DeepseekChat25Prompt::grammar()),
        well_delimited(DeepseekToolPrompt::grammar()),
        well_delimited(DeepseekToolPrompt::tool_grammar()),
{
    reveal_strlit("<|User|>");
    reveal_strlit("<|Assistant|>");
    reveal_strlit("<|end_of_sentence|>");
    reveal_strlit("<|tool|>");
    reveal_strlit("");
}

/// The markers of the Cohere grammar are clean.
pub proof fn lemma_cohere_markers_are_clean()
    ensures
        well_delimited(CohereChatPrompt::grammar()),
{
    reveal_strlit("<|START_OF_TURN_TOKEN|><|USER_TOKEN|>");
    reveal_strlit("<|START_OF_TURN_TOKEN|><|CHATBOT_TOKEN|>");
    reveal_strlit("<|END_OF_TURN_TOKEN|>");
}

/// Every prompt of the `DeepSeek-V2.5` grammar is the chain of its turns and
/// the generation cue, whatever the messages hold.
pub proof fn law_chat25_prompt_is_chain_of_turns(ms: Seq<MessageModel>)
    requires
        ms.len() > 0,
        well_formed(ms),
    ensures
        DeepseekChat25Prompt.prompt(ms) == Ok::<Seq<char>, PromptErrorModel>(
            chain(DeepseekChat25Prompt::grammar(), DeepseekChat25Prompt::system_of(ms), ms)
                + DeepseekChat25Prompt::grammar().cue,
        ),
{
    let g = DeepseekChat25Prompt::grammar();
    let system = DeepseekChat25Prompt::system_of(ms);
    lemma_v25_markers_are_clean();
    reveal_strlit("<|begin▁of▁sentence|>");
    lemma_trim_keeps_content(system, 0);
    lemma_well_delimited_is_untouched(g, system, ms);
    law_history_is_chain_of_turns(g, system, ms);
}

/// Every prompt of the tool-calling grammar is the chain of its turns and the
/// generation cue, with tools on offer and without.
pub proof fn law_tool_prompt_is_chain_of_turns(
    ms: Seq<MessageModel>,
    tools: Option<Seq<ToolModel>>,
)
    requires
        ms.len() > 0,
        well_formed(ms),
    ensures
        DeepseekToolPrompt.prompt(ms) == Ok::<Seq<char>, PromptErrorModel>(
            chain(DeepseekToolPrompt::grammar(), DeepseekToolPrompt::system_of(ms), ms)
                + DeepseekToolPrompt::grammar().cue,
        ),
        DeepseekToolPrompt.prompt_with_tools(ms, tools) == Ok::<Seq<char>, PromptErrorModel>(
            chain(
                DeepseekToolPrompt::tool_grammar(),
                DeepseekToolPrompt::system_with_tools(ms, tools),
                ms,
            ) + DeepseekToolPrompt::tool_grammar().cue,
        ),
{
    lemma_v25_markers_are_clean();
    reveal_strlit("<|begin▁of▁sentence|>");
    reveal_strlit("<|im_start|>system\nAnswer as concisely as possible.<|im_end|>");
    let plain = DeepseekToolPrompt::system_of(ms);
    lemma_trim_keeps_content(plain, 0);
    lemma_well_delimited_is_untouched(DeepseekToolPrompt::grammar(), plain, ms);
    law_history_is_chain_of_turns(DeepseekToolPrompt::grammar(), plain, ms);
    let aware = DeepseekToolPrompt::system_with_tools(ms, tools);
    assert(aware.len() > 0 && aware[0] == '<') by {
        DeepseekToolPrompt::lemma_calling_intro_opens_a_turn();
    }
    lemma_trim_keeps_content(aware, 0);
    lemma_well_delimited_is_untouched(DeepseekToolPrompt::tool_grammar(), aware, ms);
    law_history_is_chain_of_turns(DeepseekToolPrompt::tool_grammar(), aware, ms);
}

/// Every prompt of the Cohere grammar is the chain of its turns, with the
/// query in place of the last user message, then the block of results and
/// the instructions as system turns, then the generation cue.
pub proof fn law_cohere_prompt_is_chain_of_turns(ms: Seq<MessageModel>, span: (usize, usize))
    requires
        CohereChatPrompt::last_query(ms) is Ok,
        well_formed(ms),
    ensures
        CohereChatPrompt::prompt_given(ms, Some(span)) == Ok::<Seq<char>, PromptErrorModel>(
            chain(
                CohereChatPrompt::grammar(),
                CohereChatPrompt::system_prompt(),
                CohereChatPrompt::with_query_before(ms, span.0 as int),
            ) + CohereChatPrompt::system_block(
                text_between(CohereChatPrompt::last_query(ms)->Ok_0, span.0 as int, span.1 as int),
            ) + CohereChatPrompt::system_block(CohereChatPrompt::instructions())
                + CohereChatPrompt::grammar().cue,
        ),
{
    let g = CohereChatPrompt::grammar();
    let system = CohereChatPrompt::system_prompt();
    let rewritten = CohereChatPrompt::with_query_before(ms, span.0 as int);
    lemma_cohere_markers_are_clean();
    reveal_strlit("<BOS_TOKEN>");
    lemma_trim_keeps_content(system, 0);
    assert(well_formed(rewritten)) by {
        assert forall|k: int| 0 <= k < rewritten.len() implies (#[trigger] rewritten[k] matches MessageModel::Assistant(
            a,
        ) ==> assistant_text(a) is Some) by {
            if k < ms.len() - 1 {
                assert(rewritten[k] == ms[k]);
            }
        }
    }
    lemma_well_delimited_is_untouched(g, system, rewritten);
    law_history_is_chain_of_turns(g, system, rewritten);
}

/// Once the block of results is found in a last user message of plain text,
/// the Cohere formatter makes a prompt exactly where each assistant message
/// has content or tool calls; otherwise it reports that an assistant message
/// is missing. Where no block is found, it reports that nothing matched.
pub proof fn law_cohere_prompt_is_owed(ms: Seq<MessageModel>, span: (usize, usize))
    requires
        CohereChatPrompt::last_query(ms) is Ok,
    ensures
        CohereChatPrompt::prompt_given(ms, Some(span)) is Ok <==> well_formed(ms),
        !well_formed(ms) ==> CohereChatPrompt::prompt_given(ms, Some(span)) == Err::<
            Seq<char>,
            PromptErrorModel,
        >(PromptErrorModel::NoAssistantMessage),
        CohereChatPrompt::prompt_given(ms, None) == Err::<Seq<char>, PromptErrorModel>(
            PromptErrorModel::Operation(CohereChatPrompt::no_match_text()),
        ),
{
    let rewritten = CohereChatPrompt::with_query_before(ms, span.0 as int);
    law_fold_fails_on_empty_assistant(
        CohereChatPrompt::grammar(),
        CohereChatPrompt::system_prompt(),
        rewritten,
    );
    if well_formed(ms) {
        assert forall|k: int| 0 <= k < rewritten.len() implies (#[trigger] rewritten[k] matches MessageModel::Assistant(
            a,
        ) ==> assistant_text(a) is Some) by {
            if k < ms.len() - 1 {
                assert(rewritten[k] == ms[k]);
            }
        }
    }
    if well_formed(rewritten) {
        assert forall|k: int| 0 <= k < ms.len() implies (#[trigger] ms[k] matches MessageModel::Assistant(
            a,
        ) ==> assistant_text(a) is Some) by {
            if k < ms.len() - 1 {
                assert(rewritten[k] == ms[k]);
            } else {
                assert(ms[k] == ms.last());
            }
        }
    }
}

/// Where tools are on offer, the system preamble of the tool-calling grammar
/// holds the name of every tool and the pretty-printed JSON of its function,
/// whether the conversation opens with a system message or the preamble is
/// synthesized.
pub proof fn law_tool_preamble_holds_each_tool(
    ms: Seq<MessageModel>,
    tools: Seq<ToolModel>,
    k: int,
)
    requires
        ms.len() > 0,
        0 <= k < tools.len(),
    ensures
        contains(DeepseekToolPrompt::system_with_tools(ms, Some(tools)), tools[k].name),
        contains(
            DeepseekToolPrompt::system_with_tools(ms, Some(tools)),
            function_pretty_json(tools[k]),
        ),
{
    let entries = tool_entries(tools);
    let empty = Seq::<char>::empty();
    lemma_entries_hold_each_tool(tools, k);
    match ms[0] {
        MessageModel::System { content, .. } => {
            let before = DeepseekToolPrompt::system_prompt(content)
                + DeepseekToolPrompt::tools_heading();
            lemma_contains_within(before, entries, empty, tools[k].name);
            lemma_contains_within(before, entries, empty, function_pretty_json(tools[k]));
            assert(before + entries + empty == DeepseekToolPrompt::system_with_tools(
                ms,
                Some(tools),
            ));
        },
        _ => {
            let before = DeepseekToolPrompt::calling_intro() + " "@ + "<tools> "@;
            let after = " </tools>"@ + " "@ + DeepseekToolPrompt::calling_rules();
            lemma_contains_within(before, entries, after, tools[k].name);
            lemma_contains_within(before, entries, after, function_pretty_json(tools[k]));
            assert(before + entries + after == DeepseekToolPrompt::system_with_tools(
                ms,
                Some(tools),
            ));
        },
    }
}

/// Where no tools are on offer, or the list of tools is empty, the system
/// preamble of the tool-calling grammar is the tool-free one: made from the
/// leading system message, or the minimal preamble where there is none.
pub proof fn law_tool_preamble_without_tools(ms: Seq<MessageModel>)
    requires
        ms.len() > 0,
    ensures
        DeepseekToolPrompt::system_with_tools(ms, Some(Seq::empty()))
            == DeepseekToolPrompt::system_with_tools(ms, None),
        DeepseekToolPrompt::system_with_tools(ms, None) == match ms[0] {
            MessageModel::System { content, .. } => DeepseekToolPrompt::system_prompt(content),
            _ => DeepseekToolPrompt::minimal_preamble(),
        },
        DeepseekToolPrompt.prompt_with_tools(ms, Some(Seq::empty()))
            == DeepseekToolPrompt.prompt_with_tools(ms, None),
{
}

/// A finished prompt ends with the generation cue of its grammar.
pub proof fn law_prompt_ends_with_cue(ms: Seq<MessageModel>, tools: Option<Seq<ToolModel>>)
    ensures
        DeepseekChatPrompt.prompt(ms) matches Ok(p) ==> ends_with(
            p,
            DeepseekChatPrompt::grammar().cue,
        ),
        DeepseekCoderPrompt.prompt(ms) matches Ok(p) ==> ends_with(
            p,
            DeepseekCoderPrompt::grammar().cue,
        ),
        DeepseekChat2Prompt.prompt(ms) matches Ok(p) ==> ends_with(
            p,
            DeepseekChat2Prompt::grammar().cue,
        ),
        DeepseekChat25Prompt.prompt(ms) matches Ok(p) ==> ends_with(
            p,
            DeepseekChat25Prompt::grammar().cue,
        ),
        DeepseekToolPrompt.prompt(ms) matches Ok(p) ==> ends_with(
            p,
            DeepseekToolPrompt::grammar().cue,
        ),
        DeepseekToolPrompt.prompt_with_tools(ms, tools) matches Ok(p) ==> ends_with(
            p,
            DeepseekToolPrompt::tool_grammar().cue,
        ),
        forall|found: Option<(usize, usize)>|
            (#[trigger] CohereChatPrompt::prompt_given(ms, found)) matches Ok(p) ==> ends_with(
                p,
                CohereChatPrompt::grammar().cue,
            ),
{
    assert forall|a: Seq<char>, b: Seq<char>| #[trigger] ends_with(a + b, b) by {
        assert((a + b).subrange((a + b).len() - b.len(), (a + b).len() as int) == b);
    }
}

/// Where trimming the history between turns removes nothing, the prompts of
/// the `DeepSeek-LLM-Chat`, `DeepSeek-Coder` and `DeepSeek-V2` grammars are
/// the chain of their turns followed by the generation cue. Their markers
/// begin or end with white space, so the condition is needed: it holds where
/// every turn leaves the chain with clean edges.
pub proof fn law_plain_prompts_are_chains_of_turns(ms: Seq<MessageModel>)
    requires
        ms.len() > 0,
        well_formed(ms),
    ensures
        untouched(DeepseekChatPrompt::grammar(), ""@, ms) ==> DeepseekChatPrompt.prompt(ms) == Ok::<
            Seq<char>,
            PromptErrorModel,
        >(chain(DeepseekChatPrompt::grammar(), ""@, ms) + DeepseekChatPrompt::grammar().cue),
        untouched(DeepseekCoderPrompt::grammar(), DeepseekCoderPrompt::system_of(ms), ms)
            ==> DeepseekCoderPrompt.prompt(ms) == Ok::<Seq<char>, PromptErrorModel>(
            chain(DeepseekCoderPrompt::grammar(), DeepseekCoderPrompt::system_of(ms), ms)
                + DeepseekCoderPrompt::grammar().cue,
        ),
        untouched(DeepseekChat2Prompt::grammar(), DeepseekChat2Prompt::system_of(ms), ms)
            ==> DeepseekChat2Prompt.prompt(ms) == Ok::<Seq<char>, PromptErrorModel>(
            chain(DeepseekChat2Prompt::grammar(), DeepseekChat2Prompt::system_of(ms), ms)
                + DeepseekChat2Prompt::grammar().cue,
        ),
{
    if untouched(DeepseekChatPrompt::grammar(), ""@, ms) {
        law_history_is_chain_of_turns(DeepseekChatPrompt::grammar(), ""@, ms);
    }
    if untouched(DeepseekCoderPrompt::grammar(), DeepseekCoderPrompt::system_of(ms), ms) {
        law_history_is_chain_of_turns(
            DeepseekCoderPrompt::grammar(),
            DeepseekCoderPrompt::system_of(ms),
            ms,
        );
    }
    if untouched(DeepseekChat2Prompt::grammar(), DeepseekChat2Prompt::system_of(ms), ms) {
        law_history_is_chain_of_turns(
            DeepseekChat2Prompt::grammar(),
            DeepseekChat2Prompt::system_of(ms),
            ms,
        );
    }
}

} // verus!
