//! Tool definitions, and the JSON rendering of a function, which
//! `serde_json` produces.

use vstd::prelude::*;
use crate::message::opt_text;
use crate::text::{contains, lemma_contains_middle, lemma_contains_within, push};

verus! {

/// A function that the model may call: its name, what it does, and the JSON
/// schema of its parameters.
#[derive(Debug, Clone)]
pub struct ToolFunction {
    pub name: String,
    pub description: Option<String>,
    pub parameters: Option<serde_json::Map<String, serde_json::Value>>,
}

/// A tool offered to the model. Every tool is a function.
#[derive(Debug, Clone)]
pub struct Tool {
    pub function: ToolFunction,
}

/// What a JSON object holds, written as compact JSON text.
pub uninterp spec fn json_object_text(object: serde_json::Map<String, serde_json::Value>) -> Seq<char>;

/// A tool as a mathematical value: its name, its description and what its
/// parameters object holds, as compact JSON text.
pub struct ToolModel {
    pub name: Seq<char>,
    pub description: Option<Seq<char>>,
    pub parameters: Option<Seq<char>>,
}

impl View for ToolFunction {
    type V = ToolModel;

    open spec fn view(&self) -> ToolModel {
        ToolModel {
            name: self.name@,
            description: opt_text(self.description),
            parameters: match self.parameters {
                Some(object) => Some(json_object_text(object)),
                None => None,
            },
        }
    }
}

impl View for Tool {
    type V = ToolModel;

    open spec fn view(&self) -> ToolModel {
        self.function@
    }
}

/// The tools that a slice of definitions stands for.
pub open spec fn tool_models(tools: Seq<Tool>) -> Seq<ToolModel> {
    tools.map_values(|t: Tool| t@)
}

/// The pretty-printed JSON text of one function definition.
pub uninterp spec fn function_pretty_json(function: ToolModel) -> Seq<char>;

/// Calls `serde_json::to_string_pretty` on the function definition, held as an
/// `endpoints::chat::ToolFunction`. Trusted: the text depends only on the
/// name, the description and what the parameters object holds. Serialising
/// this type cannot fail: its keys are strings and it writes to memory.
#[verifier::external_body]
pub(crate) fn render_function_pretty(function: &ToolFunction) -> (r: String)
    ensures
        r@ == function_pretty_json(
            (ToolModel {
                name: function.name@,
                description: opt_text(function.description),
                parameters: match function.parameters {
                    Some(object) => Some(json_object_text(object)),
                    None => None,
                },
            }),
        ),
{
    let outside = endpoints::chat::ToolFunction {
        name: function.name.clone(),
        description: function.description.clone(),
        parameters: function.parameters.clone(),
    };
    serde_json::to_string_pretty(&outside).unwrap()
}

/// One entry of the "available functions" section: the function's name, then
/// its schema in a fenced block.
pub open spec fn tool_entry(name: Seq<char>, schema: Seq<char>) -> Seq<char> {
    "\n\n- `"@ + name + "`:\n```json\n"@ + schema + "\n```"@
}

/// The entries of every tool, in order.
pub open spec fn tool_entries(tools: Seq<ToolModel>) -> Seq<char>
    decreases tools.len(),
{
    if tools.len() == 0 {
        Seq::empty()
    } else {
        tool_entries(tools.drop_last()) + tool_entry(
            tools.last().name,
            function_pretty_json(tools.last()),
        )
    }
}

/// The entries of a list of tools hold the name of every tool of the list,
/// and the pretty-printed JSON of its function.
pub proof fn lemma_entries_hold_each_tool(tools: Seq<ToolModel>, k: int)
    requires
        0 <= k < tools.len(),
    ensures
        contains(tool_entries(tools), tools[k].name),
        contains(tool_entries(tools), function_pretty_json(tools[k])),
    decreases tools.len(),
{
    let front = tool_entries(tools.drop_last());
    let last = tools.last();
    let empty = Seq::<char>::empty();
    if k == tools.len() - 1 {
        let schema = function_pretty_json(last);
        let entry = tool_entry(last.name, schema);
        lemma_contains_middle("\n\n- `"@, last.name, "`:\n```json\n"@ + schema + "\n```"@);
        assert("\n\n- `"@ + last.name + ("`:\n```json\n"@ + schema + "\n```"@) == entry);
        lemma_contains_middle("\n\n- `"@ + last.name + "`:\n```json\n"@, schema, "\n```"@);
        lemma_contains_within(front, entry, empty, last.name);
        lemma_contains_within(front, entry, empty, schema);
        assert(front + entry + empty == tool_entries(tools));
    } else {
        lemma_entries_hold_each_tool(tools.drop_last(), k);
        let entry = tool_entry(last.name, function_pretty_json(last));
        assert(tools.drop_last()[k] == tools[k]);
        lemma_contains_within(empty, front, entry, tools[k].name);
        lemma_contains_within(empty, front, entry, function_pretty_json(tools[k]));
        assert(empty + front + entry == tool_entries(tools));
    }
}

/// Appends to `section` the entry of a function called `name` whose rendered
/// schema is `schema`.
pub fn push_tool_entry(section: &mut String, name: &str, schema: &str)
    ensures
        final(section)@ == old(section)@ + tool_entry(name@, schema@),
{
    push(section, "\n\n- `");
    push(section, name);
    push(section, "`:\n```json\n");
    push(section, schema);
    push(section, "\n```");
}

/// Appends the entry of every tool to `section`.
pub fn push_tool_entries(section: &mut String, tools: &[Tool])
    ensures
        final(section)@ == old(section)@ + tool_entries(tool_models(tools@)),
{
    let ghost all = tool_models(tools@);
    let mut i: usize = 0;
    while i < tools.len()
        invariant
            i <= tools.len(),
            all == tool_models(tools@),
            section@ == old(section)@ + tool_entries(all.subrange(0, i as int)),
        decreases tools.len() - i,
    {
        proof {
            assert(all.subrange(0, i + 1).drop_last() == all.subrange(0, i as int));
        }
        let schema = render_function_pretty(&tools[i].function);
        push_tool_entry(section, tools[i].function.name.as_str(), schema.as_str());
        i = i + 1;
    }
    proof {
        assert(all.subrange(0, i as int) == all);
    }
}

} // verus!
