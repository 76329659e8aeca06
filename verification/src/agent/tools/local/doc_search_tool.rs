//! A local tool that searches the documentation of a boiler.

use vstd::prelude::*;
use crate::agent::tools::{ToolDefinition, ToolDefinitionView};
use crate::agent::tools::json::{self, json_string};

verus! {

/// The parameters of a documentation search.
pub struct DocSearchToolArgs {
    /// The search query to be used
    pub query: String,
    /// Max number of results to return
    pub max: Option<usize>,
}

/// The documentation search tool.
pub struct DocSearchTool {}

/// The tool's name.
pub open spec fn doc_search_name() -> Seq<char> {
    "search_documentation"@
}

/// The tool's description.
pub open spec fn doc_search_description() -> Seq<char> {
    "Documentation search for boiler type XV33AB"@
}

/// The answer of every search.
pub open spec fn doc_search_answer() -> Seq<char> {
    "invarte surubul verde de trei ori la stanga"@
}

/// What the model is told of the tool, where `parameters` is the JSON schema
/// of its parameters.
pub open spec fn doc_search_definition(parameters: Seq<char>) -> ToolDefinitionView {
    ToolDefinitionView {
        name: doc_search_name(),
        description: doc_search_description(),
        parameters,
    }
}

/// The message of a failed call whose parameters could not be read.
pub open spec fn doc_search_parse_error(reason: Seq<char>) -> Seq<char> {
    "Unable to parse params for "@ + doc_search_name() + ": "@ + reason
}

/// The answer holds no character that JSON text writes escaped.
proof fn lemma_answer_needs_no_escape()
    ensures
        forall|i: int|
            0 <= i < doc_search_answer().len() ==> !json::escaped_in_json(
                #[trigger] doc_search_answer()[i],
            ),
{
    reveal_strlit("invarte surubul verde de trei ori la stanga");
    assert(doc_search_answer() =~= seq![
        'i', 'n', 'v', 'a', 'r', 't', 'e', ' ', 's', 'u', 'r', 'u', 'b', 'u', 'l', ' ', 'v', 'e',
        'r', 'd', 'e', ' ', 'd', 'e', ' ', 't', 'r', 'e', 'i', ' ', 'o', 'r', 'i', ' ', 'l', 'a',
        ' ', 's', 't', 'a', 'n', 'g', 'a',
    ]);
}

impl DocSearchTool {
    /// Searches the documentation. Every query gets the same answer.
    pub fn execute(&self, args: DocSearchToolArgs) -> (res: Result<String, String>)
        ensures
            res matches Ok(t) && t@ == doc_search_answer(),
    {
        Ok(String::from_str("invarte surubul verde de trei ori la stanga"))
    }

    /// The tool's name.
    pub fn tool_name(&self) -> (res: &'static str)
        ensures
            res@ == doc_search_name(),
    {
        "search_documentation"
    }

    /// The tool's description.
    pub fn tool_description(&self) -> (res: &'static str)
        ensures
            res@ == doc_search_description(),
    {
        "Documentation search for boiler type XV33AB"
    }

    /// What the model is told of the tool.
    pub fn definition(&self, parameters: String) -> (res: ToolDefinition)
        ensures
            res@ == doc_search_definition(parameters@),
    {
        ToolDefinition {
            name: String::from_str(self.tool_name()),
            description: String::from_str(self.tool_description()),
            parameters,
        }
    }

    /// Runs a call of the tool on its parameters as read from the call's
    /// JSON arguments, or on the reason they could not be read: the answer as
    /// JSON text (a JSON string), or the message of the failure.
    pub fn tool_execute(&self, args: std::result::Result<DocSearchToolArgs, String>) -> (res:
        Result<String, String>)
        ensures
            match args {
                Ok(_) => res matches Ok(t) && t@ == json::json_string_text(doc_search_answer()) && t@
                    == seq!['"'] + doc_search_answer() + seq!['"'],
                Err(reason) => res matches Err(m) && m@ == doc_search_parse_error(reason@),
            },
    {
        match args {
            Ok(parsed) => match self.execute(parsed) {
                Ok(answer) => {
                    proof {
                        lemma_answer_needs_no_escape();
                    }
                    Ok(json_string(answer.as_str()))
                },
                Err(e) => Err(e),
            },
            Err(reason) => {
                let mut message = String::from_str("Unable to parse params for ");
                message.append(self.tool_name());
                message.append(": ");
                message.append(reason.as_str());
                Err(message)
            },
        }
    }
}

} // verus!
