//! A documentation search tool with an answer of its own, beside the local
//! one.

use vstd::prelude::*;
use crate::error::Result;

verus! {

/// The parameters of a documentation search.
pub struct DocSearchToolArgs {
    /// The search query to be used
    pub query: String,
    /// Max number of results to return
    pub max: Option<usize>,
}

/// The documentation search tool.
pub struct DocSearchTool {}

/// The answer of every search.
pub open spec fn doc_search_answer() -> Seq<char> {
    "Pentru inlocuirea cazanului este extrem de important sa invartiti surubul verde de trei ori spre stanga."@
}

impl DocSearchTool {
    /// The tool's name: `search_documentation`.
    pub fn name(&self) -> (res: String)
        ensures
            res@ == "search_documentation"@,
    {
        String::from_str("search_documentation")
    }

    /// The tool's description.
    pub fn description(&self) -> (res: String)
        ensures
            res@ == "Documentation search for boiler type XV33AB"@,
    {
        String::from_str("Documentation search for boiler type XV33AB")
    }

    /// Searches the documentation. Every query gets the same answer.
    pub fn execute(&self, args: DocSearchToolArgs) -> (res: Result<String>)
        ensures
            res matches Ok(t) && t@ == doc_search_answer(),
    {
        Ok(String::from_str(
            "Pentru inlocuirea cazanului este extrem de important sa invartiti surubul verde de trei ori spre stanga.",
        ))
    }
}

} // verus!
