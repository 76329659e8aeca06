//! The decision-making core of a command-line assistant that talks to a
//! language model through the Responses API and routes the tool calls the
//! model asks for to local and MCP tool providers.

pub mod agent;
pub mod chat;
pub mod error;
pub mod text;

use vstd::prelude::*;

verus! {

} // verus!
