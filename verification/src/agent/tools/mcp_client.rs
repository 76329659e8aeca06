//! The tools of an MCP server, as the agent offers them to the model.

use vstd::prelude::*;
use crate::agent::tools::{
    self, ToolDefinition, ToolDefinitionView, ProviderView, find_definition, insert_definition,
};
use crate::agent::responses;

verus! {

/// How to reach an MCP server.
pub struct McpConfig {
    pub transport: McpTransport,
}

/// A server started as a program and spoken to over its standard input and
/// output, or one reached over HTTP.
pub enum McpTransport {
    Stdio { command: String, args: Vec<String> },
    Http { uri: String },
}

pub enum McpTransportView {
    Stdio { command: Seq<char>, args: Seq<Seq<char>> },
    Http { uri: Seq<char> },
}

impl View for McpTransport {
    type V = McpTransportView;

    open spec fn view(&self) -> McpTransportView {
        match self {
            McpTransport::Stdio { command, args } => McpTransportView::Stdio {
                command: command@,
                args: responses::texts_view(args@),
            },
            McpTransport::Http { uri } => McpTransportView::Http { uri: uri@ },
        }
    }
}

impl View for McpConfig {
    type V = McpTransportView;

    open spec fn view(&self) -> McpTransportView {
        self.transport@
    }
}

/// The MCP server the agent starts: `../mcp/target/debug/mcp-server stdio`.
pub open spec fn default_server_config() -> McpTransportView {
    McpTransportView::Stdio {
        command: "../mcp/target/debug/mcp-server"@,
        args: seq!["stdio"@],
    }
}

/// The name of a server that does not tell its name.
pub open spec fn unnamed_server() -> Seq<char> {
    "unnamed"@
}

/// One tool of an MCP server.
pub struct McpTool {
    name: String,
    description: String,
    params: String,
}

impl View for McpTool {
    type V = ToolDefinitionView;

    closed spec fn view(&self) -> ToolDefinitionView {
        ToolDefinitionView { name: self.name@, description: self.description@, parameters: self.params@ }
    }
}

impl McpTool {
    /// A tool as the server lists it: its name, its description if it has
    /// one (else an empty one), and the JSON schema of its input.
    pub fn from_mcp_tool(name: String, description: Option<String>, params: String) -> (res: Self)
        ensures
            res@ == (ToolDefinitionView {
                name: name@,
                description: match description {
                    Some(d) => d@,
                    None => Seq::empty(),
                },
                parameters: params@,
            }),
    {
        let description = match description {
            Some(d) => d,
            None => String::new(),
        };
        McpTool { name, description, params }
    }

    /// The tool's name.
    pub fn tool_name(&self) -> (res: &str)
        ensures
            res@ == self@.name,
    {
        self.name.as_str()
    }

    /// The tool's description.
    pub fn tool_description(&self) -> (res: &str)
        ensures
            res@ == self@.description,
    {
        self.description.as_str()
    }

    /// The JSON schema of the tool's input.
    pub fn tool_parameters(&self) -> (res: &str)
        ensures
            res@ == self@.parameters,
    {
        self.params.as_str()
    }

    fn definition(&self) -> (res: ToolDefinition)
        ensures
            res@ == self@,
    {
        ToolDefinition {
            name: self.name.clone(),
            description: self.description.clone(),
            parameters: self.params.clone(),
        }
    }
}

/// The tools of all the given ones, each put in under its name in turn: a
/// later tool replaces an earlier one of the same name.
pub open spec fn insert_all(tools: Seq<ToolDefinitionView>, added: Seq<ToolDefinitionView>) -> Seq<
    ToolDefinitionView,
>
    decreases added.len(),
{
    if added.len() == 0 {
        tools
    } else {
        tools::insert_tool(insert_all(tools, added.drop_last()), added.last())
    }
}

/// Putting tools in one after the other keeps the names distinct; every
/// tool put in can be found under its name, and what is found is the last
/// tool put in under that name; under a name no added tool has, what was
/// found before is found; and only the tools there were and those put in are
/// kept.
pub proof fn lemma_insert_all(tools: Seq<ToolDefinitionView>, added: Seq<ToolDefinitionView>)
    requires
        tools::names_distinct(tools::tool_names(tools)),
    ensures
        tools::names_distinct(tools::tool_names(insert_all(tools, added))),
        forall|j: int|
            0 <= j < added.len() ==> #[trigger] tools::lookup_tool(
                insert_all(tools, added),
                added[j].name,
            ) is Some,
        forall|j: int|
            0 <= j < added.len() && (forall|k: int| j < k < added.len() ==> added[k].name
                != added[j].name) ==> #[trigger] tools::lookup_tool(
                insert_all(tools, added),
                added[j].name,
            ) == Some(added[j]),
        forall|n: Seq<char>|
            (forall|j: int| 0 <= j < added.len() ==> added[j].name != n) ==> #[trigger] tools::lookup_tool(
                insert_all(tools, added),
                n,
            ) == tools::lookup_tool(tools, n),
        forall|i: int|
            0 <= i < insert_all(tools, added).len() ==> (exists|j: int|
                0 <= j < added.len() && added[j] == #[trigger] insert_all(tools, added)[i]) || (exists|j: int|
                0 <= j < tools.len() && tools[j] == insert_all(tools, added)[i]),
    decreases added.len(),
{
    if added.len() == 0 {
        return;
    }
    let rest = added.drop_last();
    let t = added.last();
    let before = insert_all(tools, rest);
    let res = insert_all(tools, added);
    lemma_insert_all(tools, rest);
    tools::lemma_insert_tool(before, t);
    assert(res == tools::insert_tool(before, t));
    let last = added.len() - 1;
    assert forall|j: int| 0 <= j < added.len() implies #[trigger] tools::lookup_tool(
        res,
        added[j].name,
    ) is Some by {
        if j < last && added[j].name != t.name {
            assert(rest[j] == added[j]);
            assert(tools::lookup_tool(before, rest[j].name) is Some);
        }
    }
    assert forall|j: int|
        0 <= j < added.len() && (forall|k: int| j < k < added.len() ==> added[k].name
            != added[j].name) implies #[trigger] tools::lookup_tool(res, added[j].name) == Some(
        added[j],
    ) by {
        if j < last {
            assert(added[last].name != added[j].name);
            assert(rest[j] == added[j]);
            assert forall|k: int| j < k < rest.len() implies rest[k].name != rest[j].name by {
                assert(rest[k] == added[k]);
            }
            assert(tools::lookup_tool(before, rest[j].name) == Some(rest[j]));
        }
    }
    assert forall|n: Seq<char>|
        (forall|j: int| 0 <= j < added.len() ==> added[j].name != n) implies #[trigger] tools::lookup_tool(
        res,
        n,
    ) == tools::lookup_tool(tools, n) by {
        assert(added[last].name != n);
        assert forall|j: int| 0 <= j < rest.len() implies rest[j].name != n by {
            assert(rest[j] == added[j]);
        }
        assert(tools::lookup_tool(before, n) == tools::lookup_tool(tools, n));
    }
    assert forall|i: int| 0 <= i < res.len() implies (exists|j: int|
        0 <= j < added.len() && added[j] == #[trigger] res[i]) || (exists|j: int|
        0 <= j < tools.len() && tools[j] == res[i]) by {
        if res[i] == t {
            assert(added[last] == res[i]);
        } else {
            let jb = choose|jb: int| 0 <= jb < before.len() && before[jb] == res[i];
            if exists|j: int| 0 <= j < rest.len() && rest[j] == #[trigger] before[jb] {
                let j = choose|j: int| 0 <= j < rest.len() && rest[j] == #[trigger] before[jb];
                assert(added[j] == rest[j]);
            }
        }
    }
}

/// The tools of one MCP server, under the server's name.
pub struct McpTools {
    name: String,
    tools: Vec<ToolDefinition>,
}

impl View for McpTools {
    type V = ProviderView;

    closed spec fn view(&self) -> ProviderView {
        ProviderView { local: false, name: self.name@, tools: tools::definitions_view(self.tools@) }
    }
}

impl McpTools {
    /// The server's tools under the server's name, or under `unnamed` where
    /// the server does not tell it.
    pub fn build(server_name: Option<String>, mcp_tools: Vec<McpTool>) -> (res: Self)
        ensures
            res@.name == match server_name {
                Some(n) => n@,
                None => unnamed_server(),
            },
            res@.tools == insert_all(Seq::empty(), mcp_tools@.map_values(|t: McpTool| t@)),
            tools::names_distinct(tools::tool_names(res@.tools)),
            forall|j: int|
                0 <= j < mcp_tools@.len() ==> #[trigger] tools::lookup_tool(
                    res@.tools,
                    mcp_tools@[j]@.name,
                ) is Some,
            forall|j: int|
                0 <= j < mcp_tools@.len() && (forall|k: int|
                    j < k < mcp_tools@.len() ==> mcp_tools@[k]@.name != mcp_tools@[j]@.name)
                    ==> #[trigger] tools::lookup_tool(res@.tools, mcp_tools@[j]@.name) == Some(
                    mcp_tools@[j]@,
                ),
            forall|i: int|
                0 <= i < res@.tools.len() ==> exists|j: int|
                    0 <= j < mcp_tools@.len() && mcp_tools@[j]@ == #[trigger] res@.tools[i],
    {
        let name = match server_name {
            Some(n) => n,
            None => String::from_str("unnamed"),
        };
        let ghost added = mcp_tools@.map_values(|t: McpTool| t@);
        let mut tools: Vec<ToolDefinition> = Vec::new();
        let n = mcp_tools.len();
        assert(tools::tool_names(tools::definitions_view(tools@)) =~= Seq::<Seq<char>>::empty());
        for i in 0..n
            invariant
                n == mcp_tools@.len(),
                added == mcp_tools@.map_values(|t: McpTool| t@),
                tools::definitions_view(tools@) == insert_all(
                    Seq::empty(),
                    added.subrange(0, i as int),
                ),
                tools::names_distinct(tools::tool_names(tools::definitions_view(tools@))),
        {
            let definition = mcp_tools[i].definition();
            insert_definition(&mut tools, definition);
            assert(added.subrange(0, i + 1).drop_last() =~= added.subrange(0, i as int));
        }
        assert(added.subrange(0, n as int) =~= added);
        proof {
            lemma_insert_all(Seq::empty(), added);
            let kept = insert_all(Seq::empty(), added);
            assert forall|j: int| 0 <= j < mcp_tools@.len() implies #[trigger] tools::lookup_tool(
                kept,
                mcp_tools@[j]@.name,
            ) is Some by {
                assert(added[j] == mcp_tools@[j]@);
                assert(tools::lookup_tool(kept, added[j].name) is Some);
            }
            assert forall|j: int|
                0 <= j < mcp_tools@.len() && (forall|k: int|
                    j < k < mcp_tools@.len() ==> mcp_tools@[k]@.name != mcp_tools@[j]@.name)
                    implies #[trigger] tools::lookup_tool(kept, mcp_tools@[j]@.name) == Some(
                mcp_tools@[j]@,
            ) by {
                assert(added[j] == mcp_tools@[j]@);
                assert forall|k: int| j < k < added.len() implies added[k].name != added[j].name by {
                    assert(added[k] == mcp_tools@[k]@);
                }
                assert(tools::lookup_tool(kept, added[j].name) == Some(added[j]));
            }
        }
        McpTools { name, tools }
    }

    /// The server's name.
    pub fn name(&self) -> (res: String)
        ensures
            res@ == self@.name,
    {
        self.name.clone()
    }

    /// The server's tools.
    pub fn tool_list(&self) -> (res: Vec<ToolDefinition>)
        ensures
            tools::definitions_view(res@) == self@.tools,
    {
        let mut res: Vec<ToolDefinition> = Vec::new();
        let n = self.tools.len();
        for i in 0..n
            invariant
                n == self.tools@.len(),
                res@.len() == i,
                forall|j: int| 0 <= j < i ==> #[trigger] res@[j]@ == self.tools@[j]@,
        {
            res.push(self.tools[i].copy());
        }
        assert(tools::definitions_view(res@) =~= self@.tools);
        res
    }

    /// The server's tool of the given name.
    pub fn get(&self, function_name: &str) -> (res: Option<ToolDefinition>)
        ensures
            tools::definition_option_view(res) == tools::lookup_tool(self@.tools, function_name@),
    {
        match find_definition(&self.tools, function_name) {
            Some(k) => Some(self.tools[k].copy()),
            None => None,
        }
    }
}

} // verus!
