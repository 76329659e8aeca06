//! The agent: it keeps the conversation, asks the model, reads the answer and
//! hands the tool calls the model asks for to the tools.
//!
//! Talking to the model and running tools is done by the caller: the agent
//! tells what to do next (`AgentAction`) and is told what came of it.

pub mod memory;
pub mod responses;
pub mod tools;

use vstd::prelude::*;
use crate::error::{Error, ErrorView, Result};
use crate::text::{self, decimal_text, trim};
use memory::AgentMemory;
use responses::{
    CreateResponse, CreateResponseView, FunctionToolCall, FunctionToolCallView, InputItem,
    InputItemView, MessageContent, MessageContentView, OutputItem, OutputItemView, OutputMessage,
    ReasoningEffort, ReasoningItem, ReasoningSummary, Response, ResponseUsage, ResponseView,
    WebSearchAction, WebSearchActionView, WebSearchToolCall,
};
use tools::{AgentTools, AgentToolsView, ToolCallPlan, ToolCallPlanView};
use tools::mcp_client::McpTools;

verus! {

/// The line that sets the parts of an answer apart: ten dashes.
pub open spec fn rule() -> Seq<char> {
    "----------"@
}

pub open spec fn content_text(c: MessageContentView) -> Seq<char> {
    match c {
        MessageContentView::OutputText(t) => t,
        MessageContentView::Refusal(t) => t,
    }
}

/// The text of a message: the texts and refusals of its parts, joined.
pub open spec fn message_text(cs: Seq<MessageContentView>) -> Seq<char>
    decreases cs.len(),
{
    if cs.len() == 0 {
        Seq::empty()
    } else {
        message_text(cs.drop_last()) + content_text(cs.last())
    }
}

/// The text an output item contributes: a message's text; nothing for the
/// other items.
pub open spec fn item_text(item: OutputItemView) -> Seq<char> {
    match item {
        OutputItemView::Message(cs) => message_text(cs),
        _ => Seq::empty(),
    }
}

/// An item's part of the answer: its text without white space at either end,
/// after a rule and on lines of its own; nothing where that text is empty.
pub open spec fn item_report(item: OutputItemView) -> Seq<char> {
    let t = text::trimmed(item_text(item));
    if t.len() == 0 {
        Seq::empty()
    } else {
        rule() + "\n"@ + t + "\n"@
    }
}

pub open spec fn outputs_report(items: Seq<OutputItemView>) -> Seq<char>
    decreases items.len(),
{
    if items.len() == 0 {
        Seq::empty()
    } else {
        outputs_report(items.drop_last()) + item_report(items.last())
    }
}

/// The answer's note on why it is incomplete, where it is.
pub open spec fn incomplete_report(reason: Option<Seq<char>>) -> Seq<char> {
    match reason {
        Some(r) => "\n"@ + rule() + "\nIncomplete answer reason: "@ + r,
        None => Seq::empty(),
    }
}

/// The answer's note on the tokens used, where the response tells them.
pub open spec fn usage_report(usage: Option<ResponseUsage>) -> Seq<char> {
    match usage {
        Some(u) => "\n"@ + rule() + "\nUsage total: "@ + text::decimal(u.total_tokens as nat)
            + ", input: "@ + text::decimal(u.input_tokens as nat) + ", output: "@ + text::decimal(
            u.output_tokens as nat,
        ),
        None => Seq::empty(),
    }
}

/// The answer the agent gives for a response: the parts of its output items
/// in order, then the note on incompleteness, then the note on usage.
pub open spec fn response_text(r: ResponseView) -> Seq<char> {
    outputs_report(r.output) + incomplete_report(r.incomplete_reason) + usage_report(r.usage)
}

/// The last function call among the items.
pub open spec fn last_function_call(items: Seq<OutputItemView>) -> Option<FunctionToolCallView>
    decreases items.len(),
{
    if items.len() == 0 {
        None
    } else {
        match items.last() {
            OutputItemView::FunctionCall(fc) => Some(fc),
            _ => last_function_call(items.drop_last()),
        }
    }
}

/// The collected calls after the items are read: only the last function call
/// among them, or those collected before where there is none.
pub open spec fn requests_after(before: Seq<FunctionToolCallView>, items: Seq<OutputItemView>) -> Seq<
    FunctionToolCallView,
> {
    match last_function_call(items) {
        Some(fc) => seq![fc],
        None => before,
    }
}

/// What is logged of a web search the model ran.
pub open spec fn web_search_note(action: WebSearchActionView) -> Seq<char> {
    "WebSearchToolCall: "@ + match action {
        WebSearchActionView::Search { query } => "Search ("@ + query + ")"@,
        WebSearchActionView::OpenPage { url } => "OpenPage ("@ + match url {
            Some(u) => u,
            None => Seq::empty(),
        } + ")"@,
        WebSearchActionView::Find { url, pattern } => "Find ("@ + url + " : "@ + pattern + ")"@,
        WebSearchActionView::FindInPage { url, pattern } => "FindInPage "@ + url + " : "@ + pattern,
    }
}

/// One line per text, each text after `summary: `.
pub open spec fn summary_lines(texts: Seq<Seq<char>>) -> Seq<char>
    decreases texts.len(),
{
    if texts.len() == 0 {
        Seq::empty()
    } else {
        summary_lines(texts.drop_last()) + "summary: "@ + texts.last() + "\n"@
    }
}

/// The lines of a reasoning item: its summaries, then its reasoning texts.
pub open spec fn reasoning_lines(summary: Seq<Seq<char>>, content: Option<Seq<Seq<char>>>) -> Seq<
    char,
> {
    summary_lines(summary) + match content {
        Some(c) => summary_lines(c),
        None => Seq::empty(),
    }
}

/// What is logged of an output item, where anything is.
pub open spec fn output_item_note(item: OutputItemView) -> Option<Seq<char>> {
    match item {
        OutputItemView::Message(_) => None,
        OutputItemView::WebSearchCall(action) => match action {
            Some(a) => Some(web_search_note(a)),
            None => None,
        },
        OutputItemView::Reasoning(r) => {
            let lines = reasoning_lines(r.summary, r.content);
            if text::trimmed(lines).len() == 0 {
                None
            } else {
                Some("===== REASONING START =====\n"@ + lines + "===== REASONING END ======"@)
            }
        },
        OutputItemView::FunctionCall(fc) => Some("Received FunctionToolCall request for "@ + fc.name),
        OutputItemView::Other(d) => Some("Unimplemented: "@ + d),
    }
}

/// Where the agent stands in answering a question.
#[derive(Clone, Copy, PartialEq, Eq, Structural)]
pub enum AgentPhase {
    /// Not answering a question.
    Idle,
    /// A request was handed out; the model's response is awaited.
    AwaitingResponse,
    /// Tool calls were handed out; their end is awaited.
    AwaitingTools,
}

/// What the caller is to do next.
pub enum AgentAction {
    /// Send this request to the model and hand its response to
    /// `receive_response`.
    SendRequest(CreateResponse),
    /// Run these tool calls and then call `tools_executed`.
    ExecuteTools(Vec<ToolCallPlan>),
    /// The question is answered with this text.
    Answer(String),
}

pub enum AgentActionView {
    SendRequest(CreateResponseView),
    ExecuteTools(Seq<ToolCallPlanView>),
    Answer(Seq<char>),
}

impl View for AgentAction {
    type V = AgentActionView;

    open spec fn view(&self) -> AgentActionView {
        match self {
            AgentAction::SendRequest(r) => AgentActionView::SendRequest(r@),
            AgentAction::ExecuteTools(p) => AgentActionView::ExecuteTools(tools::plans_view(p@)),
            AgentAction::Answer(t) => AgentActionView::Answer(t@),
        }
    }
}

/// The agent.
pub struct Agent {
    model: String,
    memory: AgentMemory,
    tools: AgentTools,
    max_loops: u32,
    temp_response: String,
    done: bool,
    current_iteration: u32,
    phase: AgentPhase,
}

pub struct AgentView {
    pub model: Seq<char>,
    pub memory: Seq<InputItemView>,
    pub tools: AgentToolsView,
    pub max_loops: u32,
    pub temp_response: Seq<char>,
    pub done: bool,
    pub current_iteration: u32,
    pub phase: AgentPhase,
}

impl AgentView {
    /// The tools are valid, and while a question is being answered its one
    /// round has begun and not yet been counted.
    pub open spec fn valid(self) -> bool {
        &&& self.tools.valid()
        &&& self.phase != AgentPhase::Idle ==> self.done && self.current_iteration == 0
    }
}

impl View for Agent {
    type V = AgentView;

    closed spec fn view(&self) -> AgentView {
        AgentView {
            model: self.model@,
            memory: self.memory@,
            tools: self.tools@,
            max_loops: self.max_loops,
            temp_response: self.temp_response@,
            done: self.done,
            current_iteration: self.current_iteration,
            phase: self.phase,
        }
    }
}

/// The request the agent sends: its model, low reasoning effort with an
/// automatic summary, the tools it offers, and the whole conversation.
pub open spec fn request_for(a: AgentView) -> CreateResponseView {
    CreateResponseView {
        model: a.model,
        reasoning_effort: ReasoningEffort::Low,
        reasoning_summary: ReasoningSummary::Auto,
        tools: tools::offered_tools(a.tools),
        input: a.memory,
    }
}

/// The head of the request loop: a round begins while the loop is not done
/// (and marks it done), else the answer so far is given.
pub open spec fn loop_head(a: AgentView) -> (AgentView, AgentActionView) {
    if !a.done {
        let b = AgentView { done: true, phase: AgentPhase::AwaitingResponse, ..a };
        (b, AgentActionView::SendRequest(request_for(b)))
    } else {
        (AgentView { phase: AgentPhase::Idle, ..a }, AgentActionView::Answer(a.temp_response))
    }
}

/// The agent and its next action once a question is asked.
pub open spec fn after_question(a: AgentView, question: Seq<char>) -> (AgentView, AgentActionView) {
    loop_head(
        AgentView {
            memory: a.memory.push(InputItemView::UserMessage(question)),
            done: false,
            current_iteration: 0,
            ..a
        },
    )
}

/// The agent after it has read a response.
pub open spec fn read_response(a: AgentView, r: ResponseView) -> AgentView {
    AgentView {
        memory: a.memory + memory::outputs_as_inputs(r.output),
        tools: AgentToolsView { requests: requests_after(a.tools.requests, r.output), ..a.tools },
        temp_response: response_text(r),
        ..a
    }
}

/// The agent and its next action once a response has come: the calls the
/// response asked for are run.
pub open spec fn after_response(a: AgentView, r: ResponseView) -> (AgentView, AgentActionView) {
    let b = AgentView { phase: AgentPhase::AwaitingTools, ..read_response(a, r) };
    (b, AgentActionView::ExecuteTools(tools::planned_calls(b.tools.providers, b.tools.requests)))
}

/// The agent and its next action once the tool calls have ended: the round
/// is counted, and the loop stops where the rounds exceed the limit, else
/// goes back to its head.
pub open spec fn after_tools(a: AgentView) -> (AgentView, AgentActionView) {
    let b = AgentView { current_iteration: (a.current_iteration + 1) as u32, ..a };
    if b.current_iteration > b.max_loops {
        (AgentView { phase: AgentPhase::Idle, ..b }, AgentActionView::Answer(b.temp_response))
    } else {
        loop_head(b)
    }
}

/// The error for a model name that cannot be read from the environment.
pub open spec fn model_missing_error(reason: Seq<char>) -> ErrorView {
    ErrorView::Generic("LLM_MODEL variable not defined: "@ + reason)
}

/// The answer to a response is its output's part, then the note on why it is
/// incomplete where it is incomplete, then the note on usage where it tells
/// its usage; each note stands whether or not the other does.
pub proof fn lemma_answer_notes(r: ResponseView)
    ensures
        ({
            let t = response_text(r);
            let head = outputs_report(r.output);
            match (r.incomplete_reason, r.usage) {
                (None, None) => t == head,
                (Some(reason), None) => t == head + "\n----------\nIncomplete answer reason: "@
                    + reason,
                (None, Some(u)) => t == head + "\n----------\nUsage total: "@ + text::decimal(
                    u.total_tokens as nat,
                ) + ", input: "@ + text::decimal(u.input_tokens as nat) + ", output: "@
                    + text::decimal(u.output_tokens as nat),
                (Some(reason), Some(u)) => t == head + "\n----------\nIncomplete answer reason: "@
                    + reason + "\n----------\nUsage total: "@ + text::decimal(u.total_tokens as nat)
                    + ", input: "@ + text::decimal(u.input_tokens as nat) + ", output: "@
                    + text::decimal(u.output_tokens as nat),
            }
        }),
{
    reveal_strlit("\n");
    reveal_strlit("----------");
    reveal_strlit("\n----------\nIncomplete answer reason: ");
    reveal_strlit("\nIncomplete answer reason: ");
    reveal_strlit("\n----------\nUsage total: ");
    reveal_strlit("\nUsage total: ");
    let t = response_text(r);
    let head = outputs_report(r.output);
    assert("\n"@ + rule() + "\nIncomplete answer reason: "@ =~= "\n----------\nIncomplete answer reason: "@);
    assert("\n"@ + rule() + "\nUsage total: "@ =~= "\n----------\nUsage total: "@);
    match r.incomplete_reason {
        Some(reason) => {
            assert(incomplete_report(r.incomplete_reason) =~= "\n----------\nIncomplete answer reason: "@ + reason);
        },
        None => {},
    }
    match r.usage {
        Some(u) => {
            assert(usage_report(r.usage) =~= "\n----------\nUsage total: "@ + text::decimal(
                u.total_tokens as nat,
            ) + ", input: "@ + text::decimal(u.input_tokens as nat) + ", output: "@ + text::decimal(
                u.output_tokens as nat,
            ));
        },
        None => {},
    }
    assert(t =~= head + incomplete_report(r.incomplete_reason) + usage_report(r.usage));
}

/// The output's part of an answer is made item by item: the part of a
/// sequence of items is the parts of its halves, one after the other, and
/// the part of one item is its text without white space at either end, after
/// a rule and on a line of its own, or nothing where that text is blank.
pub proof fn lemma_outputs_report(a: Seq<OutputItemView>, b: Seq<OutputItemView>, x: OutputItemView)
    ensures
        outputs_report(a + b) == outputs_report(a) + outputs_report(b),
        outputs_report(seq![x]) == if text::trimmed(item_text(x)).len() == 0 {
            Seq::<char>::empty()
        } else {
            "----------\n"@ + text::trimmed(item_text(x)) + "\n"@
        },
    decreases b.len(),
{
    reveal_strlit("----------\n");
    reveal_strlit("----------");
    reveal_strlit("\n");
    assert(rule() + "\n"@ =~= "----------\n"@);
    assert(seq![x].drop_last() =~= Seq::<OutputItemView>::empty());
    if b.len() == 0 {
        assert(a + b =~= a);
        assert(outputs_report(a) + Seq::<char>::empty() =~= outputs_report(a));
    } else {
        lemma_outputs_report(a, b.drop_last(), x);
        assert((a + b).drop_last() =~= a + b.drop_last());
        assert((a + b).last() == b.last());
        assert(outputs_report(a + b) =~= outputs_report(a) + outputs_report(b));
    }
    assert(seq![x].last() == x);
    assert(outputs_report(Seq::<OutputItemView>::empty()) == Seq::<char>::empty());
    assert(outputs_report(seq![x]) =~= Seq::<char>::empty() + item_report(x));
    assert(outputs_report(seq![x]) =~= item_report(x));
    if text::trimmed(item_text(x)).len() != 0 {
        assert(item_report(x) =~= "----------\n"@ + text::trimmed(item_text(x)) + "\n"@);
    }
}

/// Every request the agent hands out offers every tool the agent has, and
/// carries the whole conversation: whether it is the first request of a
/// conversation or a later one, and whatever the conversation holds.
pub proof fn lemma_requests_offer_the_tools(a: AgentView, question: Seq<char>)
    ensures
        after_question(a, question).1 == AgentActionView::SendRequest(
            CreateResponseView {
                model: a.model,
                reasoning_effort: ReasoningEffort::Low,
                reasoning_summary: ReasoningSummary::Auto,
                tools: tools::offered_tools(a.tools),
                input: a.memory.push(InputItemView::UserMessage(question)),
            },
        ),
        !a.done ==> loop_head(a).1 == AgentActionView::SendRequest(
            CreateResponseView {
                model: a.model,
                reasoning_effort: ReasoningEffort::Low,
                reasoning_summary: ReasoningSummary::Auto,
                tools: tools::offered_tools(a.tools),
                input: a.memory,
            },
        ),
{
}

/// A question is answered after exactly one request to the model, whatever
/// the limit on rounds: the request carries the whole conversation with the
/// question last, the calls the response asks for are handed out once, and
/// the answer is the text made of that response. The response's items join
/// the conversation after the question.
pub proof fn lemma_one_round_per_question(a: AgentView, question: Seq<char>, r: ResponseView)
    requires
        a.valid(),
    ensures
        ({
            let a1 = after_question(a, question).0;
            let x1 = after_question(a, question).1;
            let a2 = after_response(a1, r).0;
            let x2 = after_response(a1, r).1;
            let a3 = after_tools(a2).0;
            let x3 = after_tools(a2).1;
            &&& x1 == AgentActionView::SendRequest(request_for(a1))
            &&& request_for(a1).input == a.memory.push(InputItemView::UserMessage(question))
            &&& a1.phase == AgentPhase::AwaitingResponse
            &&& x2 == AgentActionView::ExecuteTools(
                tools::planned_calls(a2.tools.providers, a2.tools.requests),
            )
            &&& a2.phase == AgentPhase::AwaitingTools
            &&& x3 == AgentActionView::Answer(response_text(r))
            &&& a3.phase == AgentPhase::Idle
            &&& a3.memory == a.memory.push(InputItemView::UserMessage(question))
                + memory::outputs_as_inputs(r.output)
        }),
{
}

impl Agent {
    /// An agent for the model named `model`, with an empty conversation, the
    /// local tools and those of the MCP server, no web search, and at most
    /// three rounds per question; where the model's name could not be read
    /// (`model` holds the reason), an error.
    pub fn build(model: std::result::Result<String, String>, doc_search_parameters: String, mcp: McpTools) -> (res: Result<Agent>)
        ensures
            match model {
                Ok(m) => res matches Ok(a) && {
                    &&& a@.model == m@
                    &&& a@.memory == Seq::<InputItemView>::empty()
                    &&& a@.tools.web_search == false
                    &&& a@.tools.requests == Seq::<FunctionToolCallView>::empty()
                    &&& a@.tools.providers == tools::insert_provider(
                        tools::insert_provider(
                            Seq::empty(),
                            tools::local_provider(doc_search_parameters@),
                        ),
                        tools::ProviderView { local: false, ..mcp@ },
                    )
                    &&& a@.max_loops == 3
                    &&& a@.temp_response == Seq::<char>::empty()
                    &&& a@.phase == AgentPhase::Idle
                    &&& a@.valid()
                },
                Err(reason) => res matches Err(e) && e@ == model_missing_error(reason@),
            },
    {
        match Self::model_from_environment(model) {
            Ok(model) => {
                let tools = AgentTools::new().with_web_search(false).build(
                    doc_search_parameters,
                    mcp,
                );
                let memory = AgentMemory::new();
                Ok(
                    Agent {
                        model,
                        memory,
                        tools,
                        max_loops: 3,
                        temp_response: String::new(),
                        done: true,
                        current_iteration: 0,
                        phase: AgentPhase::Idle,
                    },
                )
            },
            Err(e) => Err(e),
        }
    }

    /// The model's name as read from the environment, or, where it could
    /// not be read (`model` holds the reason), the error that says so.
    pub fn model_from_environment(model: std::result::Result<String, String>) -> (res: Result<String>)
        ensures
            match model {
                Ok(m) => res matches Ok(n) && n@ == m@,
                Err(reason) => res matches Err(e) && e@ == model_missing_error(reason@),
            },
    {
        match model {
            Ok(name) => Ok(name),
            Err(reason) => {
                let mut message = String::from_str("LLM_MODEL variable not defined: ");
                message.append(reason.as_str());
                Err(Error::Generic(message))
            },
        }
    }

    /// Where the agent stands.
    pub fn phase(&self) -> (res: AgentPhase)
        ensures
            res == self@.phase,
    {
        self.phase
    }

    /// Adds the question to the conversation and begins the request loop for
    /// it: the first request is handed out.
    pub fn ask_one(&mut self, question: &str) -> (res: AgentAction)
        requires
            old(self)@.valid(),
        ensures
            (final(self)@, res@) == after_question(old(self)@, question@),
            final(self)@.valid(),
    {
        self.memory.add_item(InputItem::UserMessage(String::from_str(question)));
        self.done = false;
        self.current_iteration = 0;
        self.process_one_request()
    }

    /// The head of the request loop: while the loop is not done a round
    /// begins (and marks it done) with a request, else the answer so far is
    /// given.
    fn process_one_request(&mut self) -> (res: AgentAction)
        requires
            old(self)@.tools.valid(),
            !old(self)@.done ==> old(self)@.current_iteration == 0,
        ensures
            (final(self)@, res@) == loop_head(old(self)@),
            final(self)@.valid(),
    {
        if !self.done {
            self.done = true;
            self.phase = AgentPhase::AwaitingResponse;
            let request = self.build_request();
            AgentAction::SendRequest(request)
        } else {
            self.phase = AgentPhase::Idle;
            AgentAction::Answer(self.build_final_output())
        }
    }

    /// Reads the model's response and hands out the tool calls it asks for.
    pub fn receive_response(&mut self, response: &Response) -> (res: AgentAction)
        requires
            old(self)@.valid(),
            old(self)@.phase == AgentPhase::AwaitingResponse,
        ensures
            (final(self)@, res@) == after_response(old(self)@, response@),
            final(self)@.valid(),
    {
        self.process_response(response);
        self.phase = AgentPhase::AwaitingTools;
        AgentAction::ExecuteTools(self.execute_tools())
    }

    /// Counts the round whose tool calls have ended and goes on with the
    /// request loop.
    pub fn tools_executed(&mut self) -> (res: AgentAction)
        requires
            old(self)@.valid(),
            old(self)@.phase == AgentPhase::AwaitingTools,
        ensures
            (final(self)@, res@) == after_tools(old(self)@),
            final(self)@.valid(),
    {
        self.current_iteration = self.current_iteration + 1;
        if self.current_iteration > self.max_loops {
            self.phase = AgentPhase::Idle;
            AgentAction::Answer(self.build_final_output())
        } else {
            self.process_one_request()
        }
    }

    /// Makes the answer to the response: the text of its output items,
    /// trimmed and set apart by rules, the reason it is incomplete, and the
    /// tokens it used. The response's items are added to the conversation,
    /// and a function call among them is collected for running.
    fn process_response(&mut self, response: &Response)
        ensures
            final(self)@ == read_response(old(self)@, response@),
    {
        let ghost items = response@.output;
        let ghost start = self@;
        self.temp_response = String::new();
        self.memory.history_from_response(response);
        let ghost after_memory = self@;
        let n = response.output.len();
        assert(items.subrange(0, 0) =~= Seq::<OutputItemView>::empty());
        for i in 0..n
            invariant
                n == items.len(),
                items == response@.output,
                self@ == (AgentView {
                    tools: AgentToolsView {
                        requests: requests_after(start.tools.requests, items.subrange(0, i as int)),
                        ..start.tools
                    },
                    temp_response: outputs_report(items.subrange(0, i as int)),
                    ..after_memory
                }),
        {
            let item = &response.output[i];
            assert(items[i as int] == item@);
            assert(items.subrange(0, i + 1).drop_last() =~= items.subrange(0, i as int));
            let text = self.process_output_item(item);
            let trimmed = trim(text.as_str());
            if trimmed.as_str().unicode_len() > 0 {
                self.temp_response.append("----------");
                self.temp_response.append("\n");
                self.temp_response.append(trimmed.as_str());
                self.temp_response.append("\n");
            }
            assert(self.temp_response@ =~= outputs_report(items.subrange(0, i + 1)));
        }
        assert(items.subrange(0, n as int) =~= items);
        match &response.incomplete_details {
            Some(incomplete) => {
                self.temp_response.append("\n");
                self.temp_response.append("----------");
                self.temp_response.append("\nIncomplete answer reason: ");
                self.temp_response.append(incomplete.reason.as_str());
            },
            None => {},
        }
        match &response.usage {
            Some(usage) => {
                self.temp_response.append("\n");
                self.temp_response.append("----------");
                self.temp_response.append("\nUsage total: ");
                self.temp_response.append(decimal_text(usage.total_tokens).as_str());
                self.temp_response.append(", input: ");
                self.temp_response.append(decimal_text(usage.input_tokens).as_str());
                self.temp_response.append(", output: ");
                self.temp_response.append(decimal_text(usage.output_tokens).as_str());
            },
            None => {},
        }
        assert(self.temp_response@ =~= response_text(response@));
    }

    /// The answer so far.
    fn build_final_output(&self) -> (res: String)
        ensures
            res@ == self@.temp_response,
    {
        self.temp_response.clone()
    }

    /// The request to send: the agent's model, low reasoning effort with an
    /// automatic summary, the tools offered, and the whole conversation.
    fn build_request(&self) -> (res: CreateResponse)
        ensures
            res@ == request_for(self@),
    {
        let mut request = CreateResponse {
            model: self.model.clone(),
            reasoning_effort: ReasoningEffort::Low,
            reasoning_summary: ReasoningSummary::Auto,
            tools: self.tools.get_tools(),
            input: Vec::new(),
        };
        self.memory.history_to_request(&mut request);
        request
    }

    /// The text an output item contributes to the answer; a function call is
    /// collected for running.
    fn process_output_item(&mut self, item: &OutputItem) -> (res: String)
        ensures
            res@ == item_text(item@),
            final(self)@ == (AgentView {
                tools: AgentToolsView {
                    requests: match item@ {
                        OutputItemView::FunctionCall(fc) => seq![fc],
                        _ => old(self)@.tools.requests,
                    },
                    ..old(self)@.tools
                },
                ..old(self)@
            }),
    {
        match item {
            OutputItem::Message(message) => Self::output_message_text(message),
            OutputItem::FunctionCall(function_call) => {
                self.handle_function_call(function_call);
                String::new()
            },
            _ => String::new(),
        }
    }

    /// The text of a message: the texts and refusals of its parts, joined.
    pub fn output_message_text(message: &OutputMessage) -> (res: String)
        ensures
            res@ == message_text(message@),
    {
        let mut output = String::new();
        let n = message.content.len();
        for i in 0..n
            invariant
                n == message.content@.len(),
                output@ == message_text(message@.subrange(0, i as int)),
        {
            assert(message@.subrange(0, i + 1).drop_last() =~= message@.subrange(0, i as int));
            match &message.content[i] {
                MessageContent::OutputText(t) => output.append(t.as_str()),
                MessageContent::Refusal(t) => output.append(t.as_str()),
            }
        }
        assert(message@.subrange(0, n as int) =~= message@);
        output
    }

    /// What is logged of a web search the model ran, where it tells its
    /// action.
    pub fn handle_web_search_call(web_search_tool_call: &WebSearchToolCall) -> (res: Option<String>)
        ensures
            match web_search_tool_call@ {
                Some(a) => res matches Some(t) && t@ == web_search_note(a),
                None => res is None,
            },
    {
        match &web_search_tool_call.action {
            Some(action) => {
                let mut buf = String::from_str("WebSearchToolCall: ");
                match action {
                    WebSearchAction::Search { query } => {
                        buf.append("Search (");
                        buf.append(query.as_str());
                        buf.append(")");
                    },
                    WebSearchAction::OpenPage { url } => {
                        buf.append("OpenPage (");
                        match url {
                            Some(u) => buf.append(u.as_str()),
                            None => {},
                        }
                        buf.append(")");
                    },
                    WebSearchAction::Find { url, pattern } => {
                        buf.append("Find (");
                        buf.append(url.as_str());
                        buf.append(" : ");
                        buf.append(pattern.as_str());
                        buf.append(")");
                    },
                    WebSearchAction::FindInPage { url, pattern } => {
                        buf.append("FindInPage ");
                        buf.append(url.as_str());
                        buf.append(" : ");
                        buf.append(pattern.as_str());
                    },
                }
                assert(buf@ =~= web_search_note(action@));
                Some(buf)
            },
            None => None,
        }
    }

    fn append_summary_lines(buf: &mut String, texts: &Vec<String>)
        ensures
            final(buf)@ == old(buf)@ + summary_lines(responses::texts_view(texts@)),
    {
        let ghost tv = responses::texts_view(texts@);
        let n = texts.len();
        assert(tv.subrange(0, 0) =~= Seq::<Seq<char>>::empty());
        assert(old(buf)@ + Seq::<char>::empty() =~= old(buf)@);
        for i in 0..n
            invariant
                n == texts@.len(),
                tv == responses::texts_view(texts@),
                buf@ == old(buf)@ + summary_lines(tv.subrange(0, i as int)),
        {
            assert(tv.subrange(0, i + 1).drop_last() =~= tv.subrange(0, i as int));
            buf.append("summary: ");
            buf.append(texts[i].as_str());
            buf.append("\n");
            assert(buf@ =~= old(buf)@ + summary_lines(tv.subrange(0, i + 1)));
        }
        assert(tv.subrange(0, n as int) =~= tv);
    }

    /// What is logged of the model's reasoning: its summaries and reasoning
    /// texts, one per line, between a start and an end marker; nothing where
    /// those lines are only white space.
    pub fn handle_reasoning(reasoning: &ReasoningItem) -> (res: Option<String>)
        ensures
            responses::option_text_view(res) == output_item_note(OutputItemView::Reasoning(reasoning@)),
    {
        let mut buf = String::new();
        Self::append_summary_lines(&mut buf, &reasoning.summary);
        match &reasoning.content {
            Some(content) => Self::append_summary_lines(&mut buf, content),
            None => {},
        }
        assert(buf@ =~= reasoning_lines(reasoning@.summary, reasoning@.content));
        let trimmed = trim(buf.as_str());
        if trimmed.as_str().unicode_len() == 0 {
            None
        } else {
            let mut note = String::from_str("===== REASONING START =====\n");
            note.append(buf.as_str());
            note.append("===== REASONING END ======");
            Some(note)
        }
    }

    /// What is logged of an output item as it is read, where anything is:
    /// nothing for a message.
    pub fn output_item_note(item: &OutputItem) -> (res: Option<String>)
        ensures
            responses::option_text_view(res) == output_item_note(item@),
    {
        match item {
            OutputItem::Message(_) => None,
            OutputItem::WebSearchCall(call) => Self::handle_web_search_call(call),
            OutputItem::Reasoning(reasoning) => Self::handle_reasoning(reasoning),
            OutputItem::FunctionCall(function_call) => {
                let mut note = String::from_str("Received FunctionToolCall request for ");
                note.append(function_call.name.as_str());
                Some(note)
            },
            OutputItem::Other(description) => {
                let mut note = String::from_str("Unimplemented: ");
                note.append(description.as_str());
                Some(note)
            },
        }
    }

    /// Collects the function call for running.
    fn handle_function_call(&mut self, function_call: &FunctionToolCall)
        ensures
            final(self)@ == (AgentView {
                tools: AgentToolsView { requests: seq![function_call@], ..old(self)@.tools },
                ..old(self)@
            }),
    {
        self.tools.collect_execution_request(function_call);
    }

    /// The tool calls to run for the collected requests.
    fn execute_tools(&self) -> (res: Vec<ToolCallPlan>)
        ensures
            tools::plans_view(res@) == tools::planned_calls(
                self@.tools.providers,
                self@.tools.requests,
            ),
    {
        self.tools.execute_collected_requests()
    }
}

} // verus!
