//! The tools that the server offers to its clients.
use vstd::prelude::*;

use crate::json::{as_object, clone_object, empty_object, Object};
use crate::text::same_text;

verus! {

/// A tool of the agent, with the JSON schema of its parameters.
#[derive(Debug)]
pub struct AgentTool {
    pub name: String,
    pub description: String,
    pub parameters: serde_json::Value,
}

/// A tool as the protocol describes it to a client.
#[derive(Debug)]
pub struct McpTool {
    pub name: String,
    pub description: String,
    pub input_schema: Object,
}

/// What a client learns of a tool.
#[verifier::ext_equal]
pub struct ToolView {
    pub name: Seq<char>,
    pub description: Seq<char>,
    pub input_schema: Seq<(Seq<char>, serde_json::Value)>,
}

impl View for McpTool {
    type V = ToolView;

    open spec fn view(&self) -> ToolView {
        ToolView {
            name: self.name@,
            description: self.description@,
            input_schema: crate::json::members(self.input_schema),
        }
    }
}

/// The members of a parameter schema; none where the schema is no object.
pub open spec fn schema_members(parameters: serde_json::Value) -> Seq<
    (Seq<char>, serde_json::Value),
> {
    match crate::json::as_object_members(parameters) {
        Some(members) => members,
        None => Seq::empty(),
    }
}

/// How a tool of the agent is described to a client.
pub open spec fn described(tool: AgentTool) -> ToolView {
    ToolView {
        name: tool.name@,
        description: tool.description@,
        input_schema: schema_members(tool.parameters),
    }
}

/// How many tools come before the first one of that name; all of them where
/// none has it.
pub open spec fn tool_position(tools: Seq<AgentTool>, name: Seq<char>) -> int
    decreases tools.len(),
{
    if tools.len() == 0 || tools[0].name@ == name {
        0
    } else {
        1 + tool_position(tools.skip(1), name)
    }
}

/// Whether one of the tools has that name.
pub open spec fn offers(tools: Seq<AgentTool>, name: Seq<char>) -> bool {
    exists|i: int| 0 <= i < tools.len() && (#[trigger] tools[i]).name@ == name
}

/// The description of the first tool of that name.
pub open spec fn lookup(tools: Seq<AgentTool>, name: Seq<char>) -> Option<ToolView> {
    let at = tool_position(tools, name);
    if at < tools.len() {
        Some(described(tools[at]))
    } else {
        None
    }
}

/// The first tool of a name is where [`tool_position`] puts it.
pub proof fn lemma_tool_position(tools: Seq<AgentTool>, name: Seq<char>)
    ensures
        0 <= tool_position(tools, name) <= tools.len(),
        tool_position(tools, name) < tools.len() ==> tools[tool_position(tools, name)].name@
            == name,
        forall|i: int|
            0 <= i < tool_position(tools, name) ==> (#[trigger] tools[i]).name@ != name,
        offers(tools, name) <==> tool_position(tools, name) < tools.len(),
    decreases tools.len(),
{
    if tools.len() > 0 && tools[0].name@ != name {
        let rest = tools.skip(1);
        lemma_tool_position(rest, name);
        assert forall|i: int| 0 <= i < tool_position(tools, name) implies (
        #[trigger] tools[i]).name@ != name by {
            if i > 0 {
                assert(tools[i] == rest[i - 1]);
            }
        }
        if offers(tools, name) {
            let k = choose|k: int| 0 <= k < tools.len() && (#[trigger] tools[k]).name@ == name;
            assert(rest[k - 1].name@ == name);
        }
    }
}

/// The schema of a tool's input: the object that its parameters are, and an
/// object without members where they are none.
pub fn input_schema(object: Option<&Object>) -> (schema: Object)
    ensures
        crate::json::members(schema) == (match object {
            Some(o) => crate::json::members(*o),
            None => Seq::empty(),
        }),
{
    match object {
        Some(object) => clone_object(object),
        None => empty_object(),
    }
}

/// Describes a tool of the agent to a client.
pub fn mcp_tool(tool: AgentTool) -> (described_tool: McpTool)
    ensures
        described_tool@ == described(tool),
{
    let schema = input_schema(as_object(&tool.parameters));
    McpTool { name: tool.name, description: tool.description, input_schema: schema }
}

/// Describes all tools, in the agent's order.
pub fn list_tools(tools: Vec<AgentTool>) -> (listed: Vec<McpTool>)
    ensures
        listed@.map_values(|t: McpTool| t@) == tools@.map_values(|t: AgentTool| described(t)),
{
    let mut listed: Vec<McpTool> = Vec::new();
    for tool in iter: tools
        invariant
            iter.seq() == tools@,
            listed@.len() == iter.index(),
            forall|i: int| 0 <= i < listed@.len() ==> (#[trigger] listed@[i])@ == described(tools@[i]),
    {
        listed.push(mcp_tool(tool));
    }
    listed
}

/// Where the first tool of that name stands.
pub fn find_tool(tools: &Vec<AgentTool>, name: &str) -> (found: Option<usize>)
    ensures
        match found {
            Some(at) => at < tools@.len() && at == tool_position(tools@, name@),
            None => tool_position(tools@, name@) == tools@.len() && !offers(tools@, name@),
        },
{
    proof {
        lemma_tool_position(tools@, name@);
    }
    let mut at: usize = 0;
    while at < tools.len()
        invariant
            at <= tools@.len(),
            forall|i: int| 0 <= i < at ==> (#[trigger] tools@[i]).name@ != name@,
        decreases tools@.len() - at,
    {
        if same_text(&tools[at].name, name) {
            proof {
                lemma_tool_position(tools@, name@);
                assert(tools@[at as int].name@ == name@);
                assert(offers(tools@, name@));
            }
            return Some(at);
        }
        at += 1;
    }
    None
}

/// Describes the first tool of that name, if there is one.
pub fn get_tool(tools: Vec<AgentTool>, name: &str) -> (tool: Option<McpTool>)
    ensures
        (match tool {
            Some(t) => Some(t@),
            None => None,
        }) == lookup(tools@, name@),
{
    let mut tools = tools;
    match find_tool(&tools, name) {
        Some(at) => Some(mcp_tool(tools.swap_remove(at))),
        None => None,
    }
}

/// A tool can be looked up by name exactly where the list of tools holds one of
/// that name, and what the lookup yields then carries that name.
pub proof fn law_lookup_agrees_with_list(tools: Seq<AgentTool>, name: Seq<char>)
    ensures
        lookup(tools, name) is Some <==> offers(tools, name),
        lookup(tools, name) matches Some(tool) ==> tool.name == name && tools.map_values(
            |t: AgentTool| described(t),
        ).contains(tool),
{
    lemma_tool_position(tools, name);
    let at = tool_position(tools, name);
    if at < tools.len() {
        assert(tools.map_values(|t: AgentTool| described(t))[at] == described(tools[at]));
    }
}

/// Where names are distinct, looking up the name of a tool yields that very
/// tool.
pub proof fn law_distinct_names_resolve(tools: Seq<AgentTool>, at: int)
    requires
        0 <= at < tools.len(),
        forall|i: int, j: int|
            0 <= i < j < tools.len() ==> (#[trigger] tools[i]).name@ != (
            #[trigger] tools[j]).name@,
    ensures
        lookup(tools, tools[at].name@) == Some(described(tools[at])),
{
    let name = tools[at].name@;
    lemma_tool_position(tools, name);
    assert(offers(tools, name));
    let found = tool_position(tools, name);
    if found < at {
        assert(tools[found].name@ != tools[at].name@);
    } else if at < found {
        assert(tools[at].name@ != name);
    }
}

} // verus!
