//! The parts of a Responses API exchange that the agent reads and writes:
//! what comes back from the model, what goes into the conversation history,
//! and the request that is sent.

use vstd::prelude::*;

verus! {

/// One piece of a message from the model.
pub enum MessageContent {
    OutputText(String),
    Refusal(String),
}

pub enum MessageContentView {
    OutputText(Seq<char>),
    Refusal(Seq<char>),
}

impl View for MessageContent {
    type V = MessageContentView;

    open spec fn view(&self) -> MessageContentView {
        match self {
            MessageContent::OutputText(t) => MessageContentView::OutputText(t@),
            MessageContent::Refusal(t) => MessageContentView::Refusal(t@),
        }
    }
}

impl MessageContent {
    pub fn copy(&self) -> (res: Self)
        ensures
            res@ == self@,
    {
        match self {
            MessageContent::OutputText(t) => MessageContent::OutputText(t.clone()),
            MessageContent::Refusal(t) => MessageContent::Refusal(t.clone()),
        }
    }
}

/// A message from the model.
pub struct OutputMessage {
    pub content: Vec<MessageContent>,
}

impl View for OutputMessage {
    type V = Seq<MessageContentView>;

    open spec fn view(&self) -> Seq<MessageContentView> {
        self.content@.map_values(|c: MessageContent| c@)
    }
}

impl OutputMessage {
    pub fn copy(&self) -> (res: Self)
        ensures
            res@ == self@,
    {
        let mut content: Vec<MessageContent> = Vec::new();
        let n = self.content.len();
        for i in 0..n
            invariant
                n == self.content.len(),
                content@.len() == i,
                forall|j: int| 0 <= j < i ==> #[trigger] content@[j]@ == self.content@[j]@,
        {
            content.push(self.content[i].copy());
        }
        let res = OutputMessage { content };
        assert(res@ =~= self@);
        res
    }
}

/// What a web search call did.
#[allow(inconsistent_fields)]
pub enum WebSearchAction {
    Search { query: String },
    OpenPage { url: Option<String> },
    Find { url: String, pattern: String },
    FindInPage { url: String, pattern: String },
}

#[allow(inconsistent_fields)]
pub enum WebSearchActionView {
    Search { query: Seq<char> },
    OpenPage { url: Option<Seq<char>> },
    Find { url: Seq<char>, pattern: Seq<char> },
    FindInPage { url: Seq<char>, pattern: Seq<char> },
}

pub open spec fn option_text_view(o: Option<String>) -> Option<Seq<char>> {
    match o {
        Some(t) => Some(t@),
        None => None,
    }
}

pub fn copy_option_text(o: &Option<String>) -> (res: Option<String>)
    ensures
        option_text_view(res) == option_text_view(*o),
{
    match o {
        Some(t) => Some(t.clone()),
        None => None,
    }
}

impl View for WebSearchAction {
    type V = WebSearchActionView;

    open spec fn view(&self) -> WebSearchActionView {
        match self {
            WebSearchAction::Search { query } => WebSearchActionView::Search { query: query@ },
            WebSearchAction::OpenPage { url } => WebSearchActionView::OpenPage {
                url: option_text_view(*url),
            },
            WebSearchAction::Find { url, pattern } => WebSearchActionView::Find {
                url: url@,
                pattern: pattern@,
            },
            WebSearchAction::FindInPage { url, pattern } => WebSearchActionView::FindInPage {
                url: url@,
                pattern: pattern@,
            },
        }
    }
}

impl WebSearchAction {
    pub fn copy(&self) -> (res: Self)
        ensures
            res@ == self@,
    {
        match self {
            WebSearchAction::Search { query } => WebSearchAction::Search { query: query.clone() },
            WebSearchAction::OpenPage { url } => WebSearchAction::OpenPage {
                url: copy_option_text(url),
            },
            WebSearchAction::Find { url, pattern } => WebSearchAction::Find {
                url: url.clone(),
                pattern: pattern.clone(),
            },
            WebSearchAction::FindInPage { url, pattern } => WebSearchAction::FindInPage {
                url: url.clone(),
                pattern: pattern.clone(),
            },
        }
    }
}

/// A web search the model ran.
pub struct WebSearchToolCall {
    pub action: Option<WebSearchAction>,
}

impl View for WebSearchToolCall {
    type V = Option<WebSearchActionView>;

    open spec fn view(&self) -> Option<WebSearchActionView> {
        match self.action {
            Some(a) => Some(a@),
            None => None,
        }
    }
}

impl WebSearchToolCall {
    pub fn copy(&self) -> (res: Self)
        ensures
            res@ == self@,
    {
        match &self.action {
            Some(a) => WebSearchToolCall { action: Some(a.copy()) },
            None => WebSearchToolCall { action: None },
        }
    }
}

pub open spec fn texts_view(v: Seq<String>) -> Seq<Seq<char>> {
    v.map_values(|t: String| t@)
}

pub fn copy_texts(v: &Vec<String>) -> (res: Vec<String>)
    ensures
        texts_view(res@) == texts_view(v@),
{
    let mut res: Vec<String> = Vec::new();
    let n = v.len();
    for i in 0..n
        invariant
            n == v.len(),
            res@.len() == i,
            forall|j: int| 0 <= j < i ==> #[trigger] res@[j]@ == v@[j]@,
    {
        res.push(v[i].clone());
    }
    assert(texts_view(res@) =~= texts_view(v@));
    res
}

/// The reasoning the model reports: summary texts and, optionally, the
/// reasoning texts themselves.
pub struct ReasoningItem {
    pub summary: Vec<String>,
    pub content: Option<Vec<String>>,
}

pub struct ReasoningView {
    pub summary: Seq<Seq<char>>,
    pub content: Option<Seq<Seq<char>>>,
}

impl View for ReasoningItem {
    type V = ReasoningView;

    open spec fn view(&self) -> ReasoningView {
        ReasoningView {
            summary: texts_view(self.summary@),
            content: match self.content {
                Some(c) => Some(texts_view(c@)),
                None => None,
            },
        }
    }
}

impl ReasoningItem {
    pub fn copy(&self) -> (res: Self)
        ensures
            res@ == self@,
    {
        let summary = copy_texts(&self.summary);
        let content = match &self.content {
            Some(c) => Some(copy_texts(c)),
            None => None,
        };
        ReasoningItem { summary, content }
    }
}

/// A call of a function tool that the model asks for.
pub struct FunctionToolCall {
    pub name: String,
    pub arguments: String,
    pub call_id: String,
}

pub struct FunctionToolCallView {
    pub name: Seq<char>,
    pub arguments: Seq<char>,
    pub call_id: Seq<char>,
}

impl View for FunctionToolCall {
    type V = FunctionToolCallView;

    open spec fn view(&self) -> FunctionToolCallView {
        FunctionToolCallView { name: self.name@, arguments: self.arguments@, call_id: self.call_id@ }
    }
}

impl FunctionToolCall {
    pub fn copy(&self) -> (res: Self)
        ensures
            res@ == self@,
    {
        FunctionToolCall {
            name: self.name.clone(),
            arguments: self.arguments.clone(),
            call_id: self.call_id.clone(),
        }
    }
}

/// One item of the model's output. `Other` stands for every kind of item the
/// agent does not handle and holds its description.
pub enum OutputItem {
    Message(OutputMessage),
    WebSearchCall(WebSearchToolCall),
    Reasoning(ReasoningItem),
    FunctionCall(FunctionToolCall),
    Other(String),
}

pub enum OutputItemView {
    Message(Seq<MessageContentView>),
    WebSearchCall(Option<WebSearchActionView>),
    Reasoning(ReasoningView),
    FunctionCall(FunctionToolCallView),
    Other(Seq<char>),
}

impl View for OutputItem {
    type V = OutputItemView;

    open spec fn view(&self) -> OutputItemView {
        match self {
            OutputItem::Message(m) => OutputItemView::Message(m@),
            OutputItem::WebSearchCall(w) => OutputItemView::WebSearchCall(w@),
            OutputItem::Reasoning(r) => OutputItemView::Reasoning(r@),
            OutputItem::FunctionCall(f) => OutputItemView::FunctionCall(f@),
            OutputItem::Other(d) => OutputItemView::Other(d@),
        }
    }
}

impl OutputItem {
    pub fn copy(&self) -> (res: Self)
        ensures
            res@ == self@,
    {
        match self {
            OutputItem::Message(m) => OutputItem::Message(m.copy()),
            OutputItem::WebSearchCall(w) => OutputItem::WebSearchCall(w.copy()),
            OutputItem::Reasoning(r) => OutputItem::Reasoning(r.copy()),
            OutputItem::FunctionCall(f) => OutputItem::FunctionCall(f.copy()),
            OutputItem::Other(d) => OutputItem::Other(d.clone()),
        }
    }
}

pub open spec fn outputs_view(v: Seq<OutputItem>) -> Seq<OutputItemView> {
    v.map_values(|o: OutputItem| o@)
}

/// Why a response is incomplete.
pub struct IncompleteDetails {
    pub reason: String,
}

/// Token counts of a response.
#[derive(Clone, Copy)]
pub struct ResponseUsage {
    pub input_tokens: u32,
    pub output_tokens: u32,
    pub total_tokens: u32,
}

/// A response of the model.
pub struct Response {
    pub output: Vec<OutputItem>,
    pub incomplete_details: Option<IncompleteDetails>,
    pub usage: Option<ResponseUsage>,
}

pub struct ResponseView {
    pub output: Seq<OutputItemView>,
    pub incomplete_reason: Option<Seq<char>>,
    pub usage: Option<ResponseUsage>,
}

impl View for Response {
    type V = ResponseView;

    open spec fn view(&self) -> ResponseView {
        ResponseView {
            output: outputs_view(self.output@),
            incomplete_reason: match self.incomplete_details {
                Some(d) => Some(d.reason@),
                None => None,
            },
            usage: self.usage,
        }
    }
}

/// One item of the conversation history: a question of the user, or an item
/// the model produced.
pub enum InputItem {
    UserMessage(String),
    Output(OutputItem),
}

pub enum InputItemView {
    UserMessage(Seq<char>),
    Output(OutputItemView),
}

impl View for InputItem {
    type V = InputItemView;

    open spec fn view(&self) -> InputItemView {
        match self {
            InputItem::UserMessage(t) => InputItemView::UserMessage(t@),
            InputItem::Output(o) => InputItemView::Output(o@),
        }
    }
}

impl InputItem {
    pub fn copy(&self) -> (res: Self)
        ensures
            res@ == self@,
    {
        match self {
            InputItem::UserMessage(t) => InputItem::UserMessage(t.clone()),
            InputItem::Output(o) => InputItem::Output(o.copy()),
        }
    }

    /// The history item that records an item of the model's output.
    pub fn from_output(item: OutputItem) -> (res: Self)
        ensures
            res@ == InputItemView::Output(item@),
    {
        InputItem::Output(item)
    }
}

pub open spec fn inputs_view(v: Seq<InputItem>) -> Seq<InputItemView> {
    v.map_values(|i: InputItem| i@)
}

/// How much the model should reason.
#[derive(Clone, Copy, PartialEq, Eq, Structural)]
pub enum ReasoningEffort {
    Minimal,
    Low,
    Medium,
    High,
}

/// Which reasoning summary the model should give.
#[derive(Clone, Copy, PartialEq, Eq, Structural)]
pub enum ReasoningSummary {
    Auto,
    Concise,
    Detailed,
}

/// A tool offered to the model.
pub enum Tool {
    Function { name: String, description: String, parameters: String },
    WebSearch,
}

pub enum ToolView {
    Function { name: Seq<char>, description: Seq<char>, parameters: Seq<char> },
    WebSearch,
}

impl View for Tool {
    type V = ToolView;

    open spec fn view(&self) -> ToolView {
        match self {
            Tool::Function { name, description, parameters } => ToolView::Function {
                name: name@,
                description: description@,
                parameters: parameters@,
            },
            Tool::WebSearch => ToolView::WebSearch,
        }
    }
}

pub open spec fn tools_view(v: Seq<Tool>) -> Seq<ToolView> {
    v.map_values(|t: Tool| t@)
}

/// A request to the model.
pub struct CreateResponse {
    pub model: String,
    pub reasoning_effort: ReasoningEffort,
    pub reasoning_summary: ReasoningSummary,
    pub tools: Vec<Tool>,
    pub input: Vec<InputItem>,
}

pub struct CreateResponseView {
    pub model: Seq<char>,
    pub reasoning_effort: ReasoningEffort,
    pub reasoning_summary: ReasoningSummary,
    pub tools: Seq<ToolView>,
    pub input: Seq<InputItemView>,
}

impl View for CreateResponse {
    type V = CreateResponseView;

    open spec fn view(&self) -> CreateResponseView {
        CreateResponseView {
            model: self.model@,
            reasoning_effort: self.reasoning_effort,
            reasoning_summary: self.reasoning_summary,
            tools: tools_view(self.tools@),
            input: inputs_view(self.input@),
        }
    }
}

} // verus!
