//! The tools the agent offers to the model, grouped by provider, and the
//! routing of the model's function calls back to the provider and tool they
//! name.

pub mod doc_search_tool;
pub mod json;
pub mod local;
pub mod mcp_client;

use vstd::prelude::*;
use crate::agent::responses::{self, FunctionToolCall, FunctionToolCallView, Tool, ToolView};
use crate::text::{self, qualified_name, split_qualified_name, text_eq};
use json::{JsonArguments, JsonKind, JsonObject, json_text_is_valid, json_text_kind};
use local::LocalTools;
use mcp_client::{McpConfig, McpTools, McpTransport};

verus! {

/// What the model is told of a tool: its name, what it does, and the JSON
/// schema of its parameters.
pub struct ToolDefinition {
    pub name: String,
    pub description: String,
    pub parameters: String,
}

pub struct ToolDefinitionView {
    pub name: Seq<char>,
    pub description: Seq<char>,
    pub parameters: Seq<char>,
}

impl View for ToolDefinition {
    type V = ToolDefinitionView;

    open spec fn view(&self) -> ToolDefinitionView {
        ToolDefinitionView {
            name: self.name@,
            description: self.description@,
            parameters: self.parameters@,
        }
    }
}

impl ToolDefinition {
    pub fn copy(&self) -> (res: Self)
        ensures
            res@ == self@,
    {
        ToolDefinition {
            name: self.name.clone(),
            description: self.description.clone(),
            parameters: self.parameters.clone(),
        }
    }
}

pub open spec fn definitions_view(v: Seq<ToolDefinition>) -> Seq<ToolDefinitionView> {
    v.map_values(|t: ToolDefinition| t@)
}

pub open spec fn definition_option_view(o: Option<ToolDefinition>) -> Option<ToolDefinitionView> {
    match o {
        Some(t) => Some(t@),
        None => None,
    }
}

/// The first index at or after `i` where `names` holds `name`.
pub open spec fn position_from(names: Seq<Seq<char>>, name: Seq<char>, i: nat) -> Option<nat>
    decreases names.len() - i,
{
    if i >= names.len() {
        None
    } else if names[i as int] == name {
        Some(i)
    } else {
        position_from(names, name, i + 1)
    }
}

/// The first index where `names` holds `name`.
pub open spec fn position(names: Seq<Seq<char>>, name: Seq<char>) -> Option<nat> {
    position_from(names, name, 0)
}

/// No name occurs twice.
pub open spec fn names_distinct(names: Seq<Seq<char>>) -> bool {
    forall|i: int, j: int| 0 <= i < j < names.len() ==> names[i] != names[j]
}

pub proof fn lemma_position_from(names: Seq<Seq<char>>, name: Seq<char>, i: nat)
    ensures
        match position_from(names, name, i) {
            Some(k) => {
                &&& i <= k < names.len()
                &&& names[k as int] == name
                &&& forall|j: int| i <= j < k ==> names[j] != name
            },
            None => forall|j: int| i <= j < names.len() ==> names[j] != name,
        },
    decreases names.len() - i,
{
    if i < names.len() && names[i as int] != name {
        lemma_position_from(names, name, i + 1);
    }
}

/// Where the names are distinct, the position of a name is the one index
/// that holds it.
pub proof fn lemma_position_unique(names: Seq<Seq<char>>, k: int)
    requires
        names_distinct(names),
        0 <= k < names.len(),
    ensures
        position(names, names[k]) == Some(k as nat),
{
    lemma_position_from(names, names[k], 0);
}

pub open spec fn tool_names(tools: Seq<ToolDefinitionView>) -> Seq<Seq<char>> {
    tools.map_values(|t: ToolDefinitionView| t.name)
}

/// The tool of the given name, as a map from names to tools finds it.
pub open spec fn lookup_tool(tools: Seq<ToolDefinitionView>, name: Seq<char>) -> Option<
    ToolDefinitionView,
> {
    match position(tool_names(tools), name) {
        Some(k) => Some(tools[k as int]),
        None => None,
    }
}

/// The tools after a tool is put in under its name: a tool of the same name
/// is replaced in its place, else the tool comes last.
pub open spec fn insert_tool(tools: Seq<ToolDefinitionView>, t: ToolDefinitionView) -> Seq<
    ToolDefinitionView,
> {
    match position(tool_names(tools), t.name) {
        Some(k) => tools.update(k as int, t),
        None => tools.push(t),
    }
}

/// Where the names are distinct, the tool found under a tool's name is that
/// tool.
pub proof fn lemma_lookup_at(tools: Seq<ToolDefinitionView>, i: int)
    requires
        names_distinct(tool_names(tools)),
        0 <= i < tools.len(),
    ensures
        lookup_tool(tools, tools[i].name) == Some(tools[i]),
{
    assert(tool_names(tools)[i] == tools[i].name);
    lemma_position_unique(tool_names(tools), i);
}

/// No tool is found under a name that no tool has; a tool found under a
/// name is one of the tools and has that name.
pub proof fn lemma_lookup_found(tools: Seq<ToolDefinitionView>, name: Seq<char>)
    ensures
        (forall|i: int| 0 <= i < tools.len() ==> tools[i].name != name) ==> lookup_tool(tools, name)
            is None,
        lookup_tool(tools, name) matches Some(t) ==> exists|i: int|
            0 <= i < tools.len() && tools[i] == t && t.name == name,
{
    lemma_position_from(tool_names(tools), name, 0);
    if forall|i: int| 0 <= i < tools.len() ==> tools[i].name != name {
        assert forall|j: int| 0 <= j < tool_names(tools).len() implies tool_names(tools)[j] != name by {
            assert(tool_names(tools)[j] == tools[j].name);
        }
    }
    match position(tool_names(tools), name) {
        Some(k) => {
            assert(tool_names(tools)[k as int] == tools[k as int].name);
        },
        None => {},
    }
}

/// Putting a tool in under its name keeps the names distinct, makes it the
/// tool found under its name, leaves what is found under every other name as
/// it was, and keeps only the tools there were and the new one.
pub proof fn lemma_insert_tool(tools: Seq<ToolDefinitionView>, t: ToolDefinitionView)
    requires
        names_distinct(tool_names(tools)),
    ensures
        names_distinct(tool_names(insert_tool(tools, t))),
        lookup_tool(insert_tool(tools, t), t.name) == Some(t),
        forall|n: Seq<char>|
            n != t.name ==> #[trigger] lookup_tool(insert_tool(tools, t), n) == lookup_tool(tools, n),
        forall|i: int|
            0 <= i < insert_tool(tools, t).len() ==> #[trigger] insert_tool(tools, t)[i] == t
                || exists|j: int| 0 <= j < tools.len() && tools[j] == insert_tool(tools, t)[i],
{
    let res = insert_tool(tools, t);
    lemma_position_from(tool_names(tools), t.name, 0);
    match position(tool_names(tools), t.name) {
        Some(k) => {
            assert(tool_names(res) =~= tool_names(tools).update(k as int, t.name));
        },
        None => {
            assert(tool_names(res) =~= tool_names(tools).push(t.name));
        },
    }
    assert(names_distinct(tool_names(res))) by {
        assert forall|i: int, j: int| 0 <= i < j < tool_names(res).len() implies tool_names(res)[i]
            != tool_names(res)[j] by {
            assert(tool_names(tools).len() == tools.len());
            if i < tools.len() && j < tools.len() {
                assert(tool_names(tools)[i] != tool_names(tools)[j]);
            }
        }
    }
    let k = tools.len();
    match position(tool_names(tools), t.name) {
        Some(p) => {
            assert(res[p as int] == t);
            lemma_lookup_at(res, p as int);
        },
        None => {
            assert(res[k as int] == t);
            lemma_lookup_at(res, k as int);
        },
    }
    assert forall|n: Seq<char>| n != t.name implies #[trigger] lookup_tool(res, n) == lookup_tool(
        tools,
        n,
    ) by {
        if exists|i: int| 0 <= i < tools.len() && tools[i].name == n {
            let i = choose|i: int| 0 <= i < tools.len() && tools[i].name == n;
            assert(res[i] == tools[i]);
            lemma_lookup_at(res, i);
            lemma_lookup_at(tools, i);
        } else {
            lemma_lookup_found(tools, n);
            assert forall|i: int| 0 <= i < res.len() implies res[i].name != n by {
                if i < tools.len() && res[i] != t {
                    assert(res[i] == tools[i]);
                }
            }
            lemma_lookup_found(res, n);
        }
    }
    assert forall|i: int| 0 <= i < res.len() implies #[trigger] res[i] == t || exists|j: int|
        0 <= j < tools.len() && tools[j] == res[i] by {
        if res[i] != t {
            assert(tools[i] == res[i]);
        }
    }
}

/// The index of the first definition that has the given name.
pub fn find_definition(tools: &Vec<ToolDefinition>, name: &str) -> (res: Option<usize>)
    ensures
        match res {
            Some(k) => {
                &&& position(tool_names(definitions_view(tools@)), name@) == Some(k as nat)
                &&& k < tools@.len()
                &&& tools@[k as int]@.name == name@
            },
            None => position(tool_names(definitions_view(tools@)), name@) is None,
        },
{
    let ghost names = tool_names(definitions_view(tools@));
    let n = tools.len();
    let mut i: usize = 0;
    while i < n
        invariant
            n == tools@.len(),
            names == tool_names(definitions_view(tools@)),
            i <= n,
            position(names, name@) == position_from(names, name@, i as nat),
        decreases n - i,
    {
        if text_eq(tools[i].name.as_str(), name) {
            assert(names[i as int] == name@);
            return Some(i);
        }
        i = i + 1;
    }
    None
}

/// Puts a definition in under its name: one of the same name is replaced in
/// its place, else the definition comes last.
pub fn insert_definition(tools: &mut Vec<ToolDefinition>, t: ToolDefinition)
    ensures
        definitions_view(final(tools)@) == insert_tool(definitions_view(old(tools)@), t@),
        names_distinct(tool_names(definitions_view(old(tools)@))) ==> names_distinct(
            tool_names(definitions_view(final(tools)@)),
        ),
{
    let ghost old_view = definitions_view(tools@);
    let ghost tv = t@;
    proof {
        lemma_position_from(tool_names(old_view), tv.name, 0);
    }
    match find_definition(tools, t.name.as_str()) {
        Some(k) => {
            tools.set(k, t);
            assert(definitions_view(tools@) =~= old_view.update(k as int, tv));
            assert(tool_names(definitions_view(tools@)) =~= tool_names(old_view).update(
                k as int,
                tv.name,
            ));
        },
        None => {
            tools.push(t);
            assert(definitions_view(tools@) =~= old_view.push(tv));
            assert(tool_names(definitions_view(tools@)) =~= tool_names(old_view).push(tv.name));
        },
    }
}

/// A group of tools under one name: the local tools, or those of an MCP
/// server.
pub enum ToolProvider {
    Local(LocalTools),
    Mcp(McpTools),
}

pub struct ProviderView {
    /// The local tools, run inside the agent; else an MCP server's.
    pub local: bool,
    pub name: Seq<char>,
    pub tools: Seq<ToolDefinitionView>,
}

impl View for ToolProvider {
    type V = ProviderView;

    open spec fn view(&self) -> ProviderView {
        match self {
            ToolProvider::Local(l) => ProviderView {
                local: true,
                name: local::local_provider_name(),
                tools: l@,
            },
            ToolProvider::Mcp(m) => ProviderView { local: false, ..m@ },
        }
    }
}

impl ToolProvider {
    /// The provider's name.
    pub fn name(&self) -> (res: String)
        ensures
            res@ == self@.name,
    {
        match self {
            ToolProvider::Local(l) => l.name(),
            ToolProvider::Mcp(m) => m.name(),
        }
    }

    /// The provider's tools.
    pub fn tool_list(&self) -> (res: Vec<ToolDefinition>)
        ensures
            definitions_view(res@) == self@.tools,
    {
        match self {
            ToolProvider::Local(l) => l.tool_list(),
            ToolProvider::Mcp(m) => m.tool_list(),
        }
    }

    /// The provider's tool of the given name.
    pub fn get(&self, function: &str) -> (res: Option<ToolDefinition>)
        ensures
            definition_option_view(res) == lookup_tool(self@.tools, function@),
    {
        match self {
            ToolProvider::Local(l) => l.get(function),
            ToolProvider::Mcp(m) => m.get(function),
        }
    }
}

pub open spec fn providers_view(v: Seq<ToolProvider>) -> Seq<ProviderView> {
    v.map_values(|p: ToolProvider| p@)
}

pub open spec fn provider_names(ps: Seq<ProviderView>) -> Seq<Seq<char>> {
    ps.map_values(|p: ProviderView| p.name)
}

/// The provider of the given name, as a map from names to providers finds it.
pub open spec fn lookup_provider(ps: Seq<ProviderView>, name: Seq<char>) -> Option<ProviderView> {
    match position(provider_names(ps), name) {
        Some(k) => Some(ps[k as int]),
        None => None,
    }
}

/// The providers after one is put in under its name: one of the same name is
/// replaced in its place, else the new one comes last.
pub open spec fn insert_provider(ps: Seq<ProviderView>, p: ProviderView) -> Seq<ProviderView> {
    match position(provider_names(ps), p.name) {
        Some(k) => ps.update(k as int, p),
        None => ps.push(p),
    }
}

/// The tools one provider offers: each under the name `provider__tool`.
pub open spec fn provider_tools(p: ProviderView) -> Seq<ToolView> {
    p.tools.map_values(
        |t: ToolDefinitionView|
            ToolView::Function {
                name: text::qualify(p.name, t.name),
                description: t.description,
                parameters: t.parameters,
            },
    )
}

/// The tools of all providers, provider after provider.
pub open spec fn providers_tools(ps: Seq<ProviderView>) -> Seq<ToolView>
    decreases ps.len(),
{
    if ps.len() == 0 {
        Seq::empty()
    } else {
        providers_tools(ps.drop_last()) + provider_tools(ps.last())
    }
}

/// A call that the model asked for, resolved to a provider and one of its
/// tools, with its arguments read as JSON from `arguments_text`.
pub struct ToolCallPlan {
    pub local: bool,
    pub provider: String,
    pub function: String,
    pub call_id: String,
    pub arguments_text: String,
    pub arguments: JsonArguments,
}

pub struct ToolCallPlanView {
    /// The call goes to a local tool; else to an MCP server.
    pub local: bool,
    pub provider: Seq<char>,
    pub function: Seq<char>,
    pub call_id: Seq<char>,
    pub arguments: Seq<char>,
}

impl View for ToolCallPlan {
    type V = ToolCallPlanView;

    open spec fn view(&self) -> ToolCallPlanView {
        ToolCallPlanView {
            local: self.local,
            provider: self.provider@,
            function: self.function@,
            call_id: self.call_id@,
            arguments: self.arguments_text@,
        }
    }
}

pub open spec fn plans_view(v: Seq<ToolCallPlan>) -> Seq<ToolCallPlanView> {
    v.map_values(|p: ToolCallPlan| p@)
}

/// The message of a call of an MCP server's tool whose arguments are not a
/// JSON object.
pub open spec fn mcp_invalid_arguments() -> Seq<char> {
    "MCP invalid arguments"@
}

impl ToolCallPlan {
    /// The arguments were read from the call's arguments text.
    pub open spec fn arguments_read(&self) -> bool {
        &&& self.arguments.source() == self.arguments_text@
        &&& self.arguments.kind() == json_text_kind(self.arguments_text@)
    }

    /// The tool's name and the arguments with which an MCP server's tool is
    /// called: the members of a JSON object; arguments that are no object are
    /// refused.
    pub fn into_mcp_call(self) -> (res: Result<(String, JsonObject), String>)
        ensures
            match res {
                Ok((name, members)) => {
                    &&& self.arguments.kind() == JsonKind::Object
                    &&& name@ == self@.function
                    &&& members.source() == self.arguments.source()
                },
                Err(m) => self.arguments.kind() != JsonKind::Object && m@ == mcp_invalid_arguments(),
            },
    {
        match self.arguments.into_object() {
            Ok(members) => Ok((self.function, members)),
            Err(_) => Err(String::from_str("MCP invalid arguments")),
        }
    }
}

/// What becomes of one requested call: it runs where its name is
/// `provider__tool` for a registered provider that has that tool and its
/// arguments are JSON; else it is dropped.
pub open spec fn plan_for(ps: Seq<ProviderView>, r: FunctionToolCallView) -> Option<ToolCallPlanView> {
    match text::split_qualified(r.name) {
        Some((p, f)) => match lookup_provider(ps, p) {
            Some(pv) => if lookup_tool(pv.tools, f) is Some && json_text_is_valid(r.arguments) {
                Some(
                    ToolCallPlanView {
                        local: pv.local,
                        provider: p,
                        function: f,
                        call_id: r.call_id,
                        arguments: r.arguments,
                    },
                )
            } else {
                None
            },
            None => None,
        },
        None => None,
    }
}

/// The calls that run, in the order they were requested.
pub open spec fn planned_calls(ps: Seq<ProviderView>, rs: Seq<FunctionToolCallView>) -> Seq<ToolCallPlanView>
    decreases rs.len(),
{
    if rs.len() == 0 {
        Seq::empty()
    } else {
        let rest = planned_calls(ps, rs.drop_last());
        match plan_for(ps, rs.last()) {
            Some(c) => rest.push(c),
            None => rest,
        }
    }
}

/// The result of running one call: its output text, or what went wrong.
pub struct ToolCallResult {
    pub call_id: String,
    pub result: Result<String, String>,
}

pub struct ToolCallResultView {
    pub call_id: Seq<char>,
    pub result: Result<Seq<char>, Seq<char>>,
}

impl View for ToolCallResult {
    type V = ToolCallResultView;

    open spec fn view(&self) -> ToolCallResultView {
        ToolCallResultView {
            call_id: self.call_id@,
            result: match &self.result {
                Ok(t) => Ok(t@),
                Err(e) => Err(e@),
            },
        }
    }
}

/// The output of a call that ran, handed back to the model under the call's
/// id.
pub struct FunctionCallOutput {
    pub call_id: String,
    pub output: String,
}

pub struct FunctionCallOutputView {
    pub call_id: Seq<char>,
    pub output: Seq<char>,
}

impl View for FunctionCallOutput {
    type V = FunctionCallOutputView;

    open spec fn view(&self) -> FunctionCallOutputView {
        FunctionCallOutputView { call_id: self.call_id@, output: self.output@ }
    }
}

/// The outputs of the calls that succeeded, in order; failed calls leave no
/// output.
pub open spec fn successful_outputs(rs: Seq<ToolCallResultView>) -> Seq<FunctionCallOutputView>
    decreases rs.len(),
{
    if rs.len() == 0 {
        Seq::empty()
    } else {
        let rest = successful_outputs(rs.drop_last());
        match rs.last().result {
            Ok(t) => rest.push(FunctionCallOutputView { call_id: rs.last().call_id, output: t }),
            Err(_) => rest,
        }
    }
}

/// The tools of the agent: the providers, whether the model may search the
/// web, and the function calls collected from the model's last answer.
pub struct AgentTools {
    web_search: bool,
    execution_requests: Vec<FunctionToolCall>,
    providers: Vec<ToolProvider>,
}

pub struct AgentToolsView {
    pub web_search: bool,
    pub requests: Seq<FunctionToolCallView>,
    pub providers: Seq<ProviderView>,
}

impl AgentToolsView {
    /// No two providers share a name.
    pub open spec fn valid(self) -> bool {
        names_distinct(provider_names(self.providers))
    }
}

/// The tools offered to the model: every provider's tools, then the web
/// search tool where it is enabled.
pub open spec fn offered_tools(v: AgentToolsView) -> Seq<ToolView> {
    providers_tools(v.providers) + if v.web_search {
        seq![ToolView::WebSearch]
    } else {
        Seq::empty()
    }
}

impl View for AgentTools {
    type V = AgentToolsView;

    closed spec fn view(&self) -> AgentToolsView {
        AgentToolsView {
            web_search: self.web_search,
            requests: self.execution_requests@.map_values(|r: FunctionToolCall| r@),
            providers: providers_view(self.providers@),
        }
    }
}

/// The description of the local provider whose tools are described by
/// `doc_search_parameters`.
pub open spec fn local_provider(doc_search_parameters: Seq<char>) -> ProviderView {
    ProviderView {
        local: true,
        name: local::local_provider_name(),
        tools: seq![local::doc_search_tool::doc_search_definition(doc_search_parameters)],
    }
}

pub proof fn lemma_insert_provider_distinct(ps: Seq<ProviderView>, p: ProviderView)
    requires
        names_distinct(provider_names(ps)),
    ensures
        names_distinct(provider_names(insert_provider(ps, p))),
        lookup_provider(insert_provider(ps, p), p.name) == Some(p),
{
    lemma_position_from(provider_names(ps), p.name, 0);
    let qs = insert_provider(ps, p);
    match position(provider_names(ps), p.name) {
        Some(k) => {
            assert(provider_names(qs) =~= provider_names(ps).update(k as int, p.name));
            lemma_position_unique(provider_names(qs), k as int);
        },
        None => {
            assert(provider_names(qs) =~= provider_names(ps).push(p.name));
            lemma_position_unique(provider_names(qs), ps.len() as int);
        },
    }
}

/// Every entry of `providers_tools(ps)` is some provider's tool under its
/// qualified name.
pub proof fn lemma_providers_tools_entry(ps: Seq<ProviderView>, k: int)
    requires
        0 <= k < providers_tools(ps).len(),
    ensures
        exists|pi: int, ti: int|
            0 <= pi < ps.len() && 0 <= ti < ps[pi].tools.len() && providers_tools(ps)[k]
                == (ToolView::Function {
                name: text::qualify(ps[pi].name, ps[pi].tools[ti].name),
                description: ps[pi].tools[ti].description,
                parameters: ps[pi].tools[ti].parameters,
            }),
    decreases ps.len(),
{
    let rest = providers_tools(ps.drop_last());
    if k < rest.len() {
        lemma_providers_tools_entry(ps.drop_last(), k);
        let (pi, ti) = choose|pi: int, ti: int|
            0 <= pi < ps.drop_last().len() && 0 <= ti < ps.drop_last()[pi].tools.len()
                && rest[k] == (ToolView::Function {
                name: text::qualify(ps.drop_last()[pi].name, ps.drop_last()[pi].tools[ti].name),
                description: ps.drop_last()[pi].tools[ti].description,
                parameters: ps.drop_last()[pi].tools[ti].parameters,
            });
        assert(ps[pi] == ps.drop_last()[pi]);
    } else {
        let pi = ps.len() - 1;
        let ti = k - rest.len();
        assert(providers_tools(ps)[k] == provider_tools(ps.last())[ti]);
    }
}

/// Every function tool offered to the model is routed back, when the model
/// calls it by its name with JSON arguments, to the provider and the tool it
/// was offered for, where no provider's name holds `__` or ends with `_`.
pub proof fn lemma_offered_tool_is_routed(
    v: AgentToolsView,
    k: int,
    call_id: Seq<char>,
    arguments: Seq<char>,
)
    requires
        v.valid(),
        forall|i: int| 0 <= i < v.providers.len() ==> text::is_plain_provider_name(#[trigger] v.providers[i].name),
        0 <= k < providers_tools(v.providers).len(),
        json_text_is_valid(arguments),
    ensures
        exists|pi: int, ti: int|
            {
                &&& 0 <= pi < v.providers.len()
                &&& 0 <= ti < v.providers[pi].tools.len()
                &&& offered_tools(v)[k] == (ToolView::Function {
                    name: text::qualify(v.providers[pi].name, v.providers[pi].tools[ti].name),
                    description: v.providers[pi].tools[ti].description,
                    parameters: v.providers[pi].tools[ti].parameters,
                })
                &&& plan_for(
                    v.providers,
                    FunctionToolCallView {
                        name: text::qualify(v.providers[pi].name, v.providers[pi].tools[ti].name),
                        arguments,
                        call_id,
                    },
                ) == Some(
                    ToolCallPlanView {
                        local: v.providers[pi].local,
                        provider: v.providers[pi].name,
                        function: v.providers[pi].tools[ti].name,
                        call_id,
                        arguments,
                    },
                )
            },
{
    let ps = v.providers;
    lemma_providers_tools_entry(ps, k);
    let (pi, ti) = choose|pi: int, ti: int|
        0 <= pi < ps.len() && 0 <= ti < ps[pi].tools.len() && providers_tools(ps)[k]
            == (ToolView::Function {
            name: text::qualify(ps[pi].name, ps[pi].tools[ti].name),
            description: ps[pi].tools[ti].description,
            parameters: ps[pi].tools[ti].parameters,
        });
    assert(offered_tools(v)[k] == providers_tools(ps)[k]);
    let p = ps[pi].name;
    let f = ps[pi].tools[ti].name;
    assert(text::is_plain_provider_name(ps[pi].name));
    text::lemma_split_qualify(p, f);
    assert(provider_names(ps)[pi] == p);
    lemma_position_unique(provider_names(ps), pi);
    assert(lookup_provider(ps, p) == Some(ps[pi]));
    lemma_position_from(tool_names(ps[pi].tools), f, 0);
    assert(tool_names(ps[pi].tools)[ti] == f);
    assert(lookup_tool(ps[pi].tools, f) is Some);
}

impl AgentTools {
    /// No providers, no collected calls, no web search.
    pub fn new() -> (res: Self)
        ensures
            res@.web_search == false,
            res@.requests == Seq::<FunctionToolCallView>::empty(),
            res@.providers == Seq::<ProviderView>::empty(),
            res@.valid(),
    {
        let res = AgentTools {
            web_search: false,
            execution_requests: Vec::new(),
            providers: Vec::new(),
        };
        assert(res@.requests =~= Seq::<FunctionToolCallView>::empty());
        assert(res@.providers =~= Seq::<ProviderView>::empty());
        res
    }

    fn find_provider(&self, name: &str) -> (res: Option<usize>)
        ensures
            match res {
                Some(k) => {
                    &&& position(provider_names(self@.providers), name@) == Some(k as nat)
                    &&& k < self@.providers.len()
                },
                None => position(provider_names(self@.providers), name@) is None,
            },
    {
        let ghost names = provider_names(self@.providers);
        let n = self.providers.len();
        let mut i: usize = 0;
        while i < n
            invariant
                n == self.providers@.len(),
                names == provider_names(self@.providers),
                i <= n,
                position(names, name@) == position_from(names, name@, i as nat),
            decreases n - i,
        {
            let pname = self.providers[i].name();
            if text_eq(pname.as_str(), name) {
                return Some(i);
            }
            i = i + 1;
        }
        None
    }

    /// Registers a provider under its name; one already registered under that
    /// name is replaced.
    pub fn add_provider(&mut self, provider: ToolProvider)
        ensures
            final(self)@.providers == insert_provider(old(self)@.providers, provider@),
            final(self)@.web_search == old(self)@.web_search,
            final(self)@.requests == old(self)@.requests,
            old(self)@.valid() ==> final(self)@.valid(),
    {
        let ghost old_ps = self@.providers;
        let ghost pv = provider@;
        let name = provider.name();
        proof {
            if self@.valid() {
                lemma_insert_provider_distinct(old_ps, pv);
            }
        }
        match self.find_provider(name.as_str()) {
            Some(k) => {
                self.providers.set(k, provider);
                assert(self@.providers =~= old_ps.update(k as int, pv));
            },
            None => {
                self.providers.push(provider);
                assert(self@.providers =~= old_ps.push(pv));
            },
        }
    }

    /// The configuration of the MCP server the agent starts: the program
    /// `../mcp/target/debug/mcp-server`, spoken to over its standard input
    /// and output.
    pub fn mcp_server_config() -> (res: McpConfig)
        ensures
            res@ == mcp_client::default_server_config(),
    {
        let mut args: Vec<String> = Vec::new();
        args.push(String::from_str("stdio"));
        let ghost args_view = responses::texts_view(args@);
        assert(args_view =~= seq!["stdio"@]);
        let res = McpConfig {
            transport: McpTransport::Stdio {
                command: String::from_str("../mcp/target/debug/mcp-server"),
                args,
            },
        };
        assert(res@ == mcp_client::default_server_config());
        res
    }

    /// Registers the local tools, then the tools of the MCP server.
    pub fn build(self, doc_search_parameters: String, mcp: McpTools) -> (res: Self)
        ensures
            res@.providers == insert_provider(
                insert_provider(self@.providers, local_provider(doc_search_parameters@)),
                ProviderView { local: false, ..mcp@ },
            ),
            res@.web_search == self@.web_search,
            res@.requests == self@.requests,
            self@.valid() ==> res@.valid(),
    {
        let mut tools = self;
        let local = LocalTools::build(doc_search_parameters);
        tools.add_provider(ToolProvider::Local(local));
        tools.add_provider(ToolProvider::Mcp(mcp));
        tools
    }

    /// The tools offered to the model: each provider's tools under the name
    /// `provider__tool`, provider after provider, then the web search tool
    /// where it is enabled.
    pub fn get_tools(&self) -> (res: Vec<Tool>)
        ensures
            responses::tools_view(res@) == offered_tools(self@),
    {
        let ghost ps = self@.providers;
        let mut tools: Vec<Tool> = Vec::new();
        let n = self.providers.len();
        for i in 0..n
            invariant
                n == ps.len(),
                ps == self@.providers,
                responses::tools_view(tools@) == providers_tools(ps.subrange(0, i as int)),
        {
            let provider = &self.providers[i];
            let pname = provider.name();
            let list = provider.tool_list();
            let m = list.len();
            let ghost before = responses::tools_view(tools@);
            assert(ps[i as int] == provider@);
            for j in 0..m
                invariant
                    m == list@.len(),
                    definitions_view(list@) == provider@.tools,
                    pname@ == provider@.name,
                    responses::tools_view(tools@) == before + provider_tools(provider@).subrange(
                        0,
                        j as int,
                    ),
            {
                let t = &list[j];
                let name = qualified_name(pname.as_str(), t.name.as_str());
                let tool = Tool::Function {
                    name,
                    description: t.description.clone(),
                    parameters: t.parameters.clone(),
                };
                assert(provider@.tools[j as int] == list@[j as int]@);
                assert(provider_tools(provider@)[j as int] == tool@);
                assert(provider_tools(provider@).subrange(0, j + 1) =~= provider_tools(
                    provider@,
                ).subrange(0, j as int).push(tool@));
                let ghost prior = tools@;
                tools.push(tool);
                assert(responses::tools_view(tools@) =~= responses::tools_view(prior).push(tool@));
                assert(responses::tools_view(tools@) =~= before + provider_tools(
                    provider@,
                ).subrange(0, j + 1));
            }
            assert(provider_tools(provider@).subrange(0, m as int) =~= provider_tools(provider@));
            assert(ps.subrange(0, i + 1).drop_last() =~= ps.subrange(0, i as int));
        }
        assert(ps.subrange(0, n as int) =~= ps);
        if self.web_search {
            let ghost before = responses::tools_view(tools@);
            tools.push(Tool::WebSearch);
            assert(responses::tools_view(tools@) =~= before.push(ToolView::WebSearch));
        } else {
            assert(offered_tools(self@) =~= providers_tools(ps));
        }
        tools
    }

    /// Enables or disables the web search tool.
    pub fn with_web_search(self, enable: bool) -> (res: Self)
        ensures
            res@.web_search == enable,
            res@.requests == self@.requests,
            res@.providers == self@.providers,
    {
        let mut tools = self;
        tools.web_search = enable;
        tools
    }

    /// Keeps the given call as the only collected one: a call collected
    /// before is forgotten.
    pub fn collect_execution_request(&mut self, function_call: &FunctionToolCall)
        ensures
            final(self)@.requests == seq![function_call@],
            final(self)@.web_search == old(self)@.web_search,
            final(self)@.providers == old(self)@.providers,
    {
        self.execution_requests.clear();
        self.execution_requests.push(function_call.copy());
        assert(self@.requests =~= seq![function_call@]);
    }

    /// The calls to run for the collected requests, in order: each request
    /// whose name is `provider__tool` for a registered provider that has that
    /// tool, and whose arguments are JSON.
    pub fn execute_collected_requests(&self) -> (res: Vec<ToolCallPlan>)
        ensures
            plans_view(res@) == planned_calls(self@.providers, self@.requests),
            forall|i: int| 0 <= i < res@.len() ==> #[trigger] res@[i].arguments_read(),
    {
        let ghost ps = self@.providers;
        let ghost rs = self@.requests;
        let mut plans: Vec<ToolCallPlan> = Vec::new();
        let n = self.execution_requests.len();
        for i in 0..n
            invariant
                n == rs.len(),
                ps == self@.providers,
                rs == self@.requests,
                plans_view(plans@) == planned_calls(ps, rs.subrange(0, i as int)),
                forall|j: int| 0 <= j < plans@.len() ==> #[trigger] plans@[j].arguments_read(),
        {
            let req = &self.execution_requests[i];
            let ghost before = plans_view(plans@);
            assert(rs.subrange(0, i + 1).drop_last() =~= rs.subrange(0, i as int));
            assert(rs.subrange(0, i + 1).last() == req@);
            assert(rs[i as int] == req@);
            match split_qualified_name(req.name.as_str()) {
                Some((provider_name, function_name)) => {
                    match self.find_provider(provider_name.as_str()) {
                        Some(k) => {
                            let provider = &self.providers[k];
                            assert(lookup_provider(ps, provider_name@) == Some(provider@));
                            let tool = provider.get(function_name.as_str());
                            if tool.is_some() {
                                match JsonArguments::read(req.arguments.as_str()) {
                                    Some(arguments) => {
                                        let local = match provider {
                                            ToolProvider::Local(_) => true,
                                            ToolProvider::Mcp(_) => false,
                                        };
                                        assert(local == provider@.local);
                                        let plan = ToolCallPlan {
                                            local,
                                            provider: provider_name,
                                            function: function_name,
                                            call_id: req.call_id.clone(),
                                            arguments_text: req.arguments.clone(),
                                            arguments,
                                        };
                                        plans.push(plan);
                                        assert(plans_view(plans@) =~= before.push(plan@));
                                    },
                                    None => {},
                                }
                            }
                        },
                        None => {},
                    }
                },
                None => {},
            }
        }
        assert(rs.subrange(0, n as int) =~= rs);
        plans
    }

    /// The outputs of the calls that succeeded, in the order the calls were
    /// run; a failed call leaves no output.
    pub fn collect_outputs(results: Vec<ToolCallResult>) -> (res: Vec<FunctionCallOutput>)
        ensures
            res@.map_values(|o: FunctionCallOutput| o@) == successful_outputs(
                results@.map_values(|r: ToolCallResult| r@),
            ),
    {
        let ghost rs = results@.map_values(|r: ToolCallResult| r@);
        let mut outputs: Vec<FunctionCallOutput> = Vec::new();
        let n = results.len();
        for i in 0..n
            invariant
                n == results@.len(),
                rs == results@.map_values(|r: ToolCallResult| r@),
                outputs@.map_values(|o: FunctionCallOutput| o@) == successful_outputs(
                    rs.subrange(0, i as int),
                ),
        {
            let r = &results[i];
            let ghost before = outputs@.map_values(|o: FunctionCallOutput| o@);
            assert(rs.subrange(0, i + 1).drop_last() =~= rs.subrange(0, i as int));
            assert(rs.subrange(0, i + 1).last() == r@);
            match &r.result {
                Ok(text) => {
                    let out = FunctionCallOutput { call_id: r.call_id.clone(), output: text.clone() };
                    outputs.push(out);
                    assert(outputs@.map_values(|o: FunctionCallOutput| o@) =~= before.push(out@));
                },
                Err(_) => {},
            }
        }
        assert(rs.subrange(0, n as int) =~= rs);
        outputs
    }
}

} // verus!
