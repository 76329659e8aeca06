//! The tools that run inside the agent itself.

pub mod doc_search_tool;

use vstd::prelude::*;
use crate::agent::tools::{
    self, ToolDefinition, ToolDefinitionView, find_definition, insert_definition,
};
use doc_search_tool::DocSearchTool;

verus! {

/// The name under which the local tools are registered.
pub open spec fn local_provider_name() -> Seq<char> {
    "local"@
}

/// The local tools, each under its own name.
pub struct LocalTools {
    custom_tools: Vec<ToolDefinition>,
}

impl View for LocalTools {
    type V = Seq<ToolDefinitionView>;

    closed spec fn view(&self) -> Seq<ToolDefinitionView> {
        tools::definitions_view(self.custom_tools@)
    }
}

impl LocalTools {
    /// The local tools: the documentation search, whose parameters are
    /// described by the JSON schema `doc_search_parameters`.
    pub fn build(doc_search_parameters: String) -> (res: Self)
        ensures
            res@ == seq![doc_search_tool::doc_search_definition(doc_search_parameters@)],
    {
        let mut custom_tools: Vec<ToolDefinition> = Vec::new();
        let search_tool = DocSearchTool {};
        let definition = search_tool.definition(doc_search_parameters);
        insert_definition(&mut custom_tools, definition);
        let res = LocalTools { custom_tools };
        proof {
            tools::lemma_position_from(tools::tool_names(Seq::empty()), definition@.name, 0);
        }
        assert(res@ =~= seq![doc_search_tool::doc_search_definition(doc_search_parameters@)]);
        res
    }

    /// The name the local tools are registered under: `local`.
    pub fn name(&self) -> (res: String)
        ensures
            res@ == local_provider_name(),
    {
        String::from_str("local")
    }

    /// The local tools.
    pub fn tool_list(&self) -> (res: Vec<ToolDefinition>)
        ensures
            tools::definitions_view(res@) == self@,
    {
        let mut res: Vec<ToolDefinition> = Vec::new();
        let n = self.custom_tools.len();
        for i in 0..n
            invariant
                n == self.custom_tools@.len(),
                res@.len() == i,
                forall|j: int| 0 <= j < i ==> #[trigger] res@[j]@ == self.custom_tools@[j]@,
        {
            res.push(self.custom_tools[i].copy());
        }
        assert(tools::definitions_view(res@) =~= self@);
        res
    }

    /// The local tool of the given name.
    pub fn get(&self, function_name: &str) -> (res: Option<ToolDefinition>)
        ensures
            tools::definition_option_view(res) == tools::lookup_tool(self@, function_name@),
    {
        match find_definition(&self.custom_tools, function_name) {
            Some(k) => Some(self.custom_tools[k].copy()),
            None => None,
        }
    }
}

} // verus!
