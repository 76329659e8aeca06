//! The errors of the agent.

use vstd::prelude::*;

verus! {

pub type Result<T> = std::result::Result<T, Error>;

/// An error of the agent, with its description.
pub enum Error {
    Generic(String),
    OpenAI(String),
    Serde(String),
    Tool(String),
}

pub enum ErrorView {
    Generic(Seq<char>),
    OpenAI(Seq<char>),
    Serde(Seq<char>),
    Tool(Seq<char>),
}

impl View for Error {
    type V = ErrorView;

    open spec fn view(&self) -> ErrorView {
        match self {
            Error::Generic(t) => ErrorView::Generic(t@),
            Error::OpenAI(t) => ErrorView::OpenAI(t@),
            Error::Serde(t) => ErrorView::Serde(t@),
            Error::Tool(t) => ErrorView::Tool(t@),
        }
    }
}

/// The outside errors that the agent turns into its own.
#[derive(Clone, Copy, PartialEq, Eq, Structural)]
pub enum ErrorSource {
    /// An error of the model's API client.
    OpenAI,
    /// A web search tool that could not be built.
    WebSearchToolArgs,
    /// A function tool that could not be built.
    FunctionToolArgs,
    /// JSON that could not be read or written.
    SerdeJson,
}

/// The error that an outside error of `source`, described by `detail`,
/// becomes.
pub open spec fn converted_error(source: ErrorSource, detail: Seq<char>) -> ErrorView {
    match source {
        ErrorSource::OpenAI => ErrorView::OpenAI("OpenAIError: "@ + detail),
        ErrorSource::WebSearchToolArgs => ErrorView::OpenAI("WebSearchToolArgsError: "@ + detail),
        ErrorSource::FunctionToolArgs => ErrorView::OpenAI("FunctionToolArgsError: "@ + detail),
        ErrorSource::SerdeJson => ErrorView::Serde("SerdeJson: "@ + detail),
    }
}

/// The text that describes an error to the user.
pub open spec fn error_message(e: ErrorView) -> Seq<char> {
    match e {
        ErrorView::Generic(t) => "Generic error: "@ + t,
        ErrorView::OpenAI(t) => "OpenAI error: "@ + t,
        ErrorView::Serde(t) => "Serde error: "@ + t,
        ErrorView::Tool(t) => "Tool error: "@ + t,
    }
}

fn prefixed(prefix: &str, text: &str) -> (res: String)
    ensures
        res@ == prefix@ + text@,
{
    let mut res = String::from_str(prefix);
    res.append(text);
    res
}

impl Error {
    /// The error that an outside error of `source`, described by `detail`
    /// (its debug text), becomes.
    pub fn converted(source: ErrorSource, detail: &str) -> (res: Error)
        ensures
            res@ == converted_error(source, detail@),
    {
        match source {
            ErrorSource::OpenAI => Error::OpenAI(prefixed("OpenAIError: ", detail)),
            ErrorSource::WebSearchToolArgs => Error::OpenAI(
                prefixed("WebSearchToolArgsError: ", detail),
            ),
            ErrorSource::FunctionToolArgs => Error::OpenAI(
                prefixed("FunctionToolArgsError: ", detail),
            ),
            ErrorSource::SerdeJson => Error::Serde(prefixed("SerdeJson: ", detail)),
        }
    }

    /// The text that describes the error to the user.
    pub fn message(&self) -> (res: String)
        ensures
            res@ == error_message(self@),
    {
        match self {
            Error::Generic(t) => prefixed("Generic error: ", t.as_str()),
            Error::OpenAI(t) => prefixed("OpenAI error: ", t.as_str()),
            Error::Serde(t) => prefixed("Serde error: ", t.as_str()),
            Error::Tool(t) => prefixed("Tool error: ", t.as_str()),
        }
    }
}

} // verus!
