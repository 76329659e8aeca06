use chat_agent::agent::memory::AgentMemory;
use chat_agent::agent::responses::{
    CreateResponse, FunctionToolCall, IncompleteDetails, InputItem, MessageContent, OutputItem,
    OutputMessage, ReasoningEffort, ReasoningItem, ReasoningSummary, Response, ResponseUsage,
    Tool, WebSearchAction, WebSearchToolCall,
};
use chat_agent::agent::tools::mcp_client::{McpTool, McpTools};
use chat_agent::agent::tools::ToolCallPlan;
use chat_agent::agent::{Agent, AgentAction, AgentPhase};
use chat_agent::error::Error;

fn message(parts: Vec<MessageContent>) -> OutputItem {
    OutputItem::Message(OutputMessage { content: parts })
}

fn text(t: &str) -> MessageContent {
    MessageContent::OutputText(t.to_string())
}

fn call(name: &str, arguments: &str, call_id: &str) -> FunctionToolCall {
    FunctionToolCall {
        name: name.to_string(),
        arguments: arguments.to_string(),
        call_id: call_id.to_string(),
    }
}

fn mcp_tools() -> McpTools {
    McpTools::build(
        Some("srv".to_string()),
        vec![McpTool::from_mcp_tool(
            "echo".to_string(),
            Some("Echoes".to_string()),
            "{\"type\":\"object\"}".to_string(),
        )],
    )
}

fn agent() -> Agent {
    match Agent::build(Ok("gpt-test".to_string()), "{}".to_string(), mcp_tools()) {
        Ok(a) => a,
        Err(_) => panic!("agent not built"),
    }
}

fn request_of(action: AgentAction) -> CreateResponse {
    match action {
        AgentAction::SendRequest(r) => r,
        _ => panic!("expected a request"),
    }
}

fn plans_of(action: AgentAction) -> Vec<ToolCallPlan> {
    match action {
        AgentAction::ExecuteTools(p) => p,
        _ => panic!("expected tool calls"),
    }
}

fn answer_of(action: AgentAction) -> String {
    match action {
        AgentAction::Answer(t) => t,
        _ => panic!("expected an answer"),
    }
}

#[test]
fn build_fails_without_model_name() {
    match Agent::build(Err("NotPresent".to_string()), "{}".to_string(), mcp_tools()) {
        Err(Error::Generic(t)) => assert_eq!(t, "LLM_MODEL variable not defined: NotPresent"),
        _ => panic!("expected a generic error"),
    }
}

#[test]
fn first_request_carries_model_tools_and_question() {
    let mut a = agent();
    assert!(matches!(a.phase(), AgentPhase::Idle));
    let req = request_of(a.ask_one("How do I replace the boiler?"));
    assert!(matches!(a.phase(), AgentPhase::AwaitingResponse));
    assert_eq!(req.model, "gpt-test");
    assert!(matches!(req.reasoning_effort, ReasoningEffort::Low));
    assert!(matches!(req.reasoning_summary, ReasoningSummary::Auto));
    let names: Vec<String> = req
        .tools
        .iter()
        .map(|t| match t {
            Tool::Function { name, .. } => name.clone(),
            Tool::WebSearch => "web".to_string(),
        })
        .collect();
    assert_eq!(names, vec!["local__search_documentation".to_string(), "srv__echo".to_string()]);
    assert_eq!(req.input.len(), 1);
    match &req.input[0] {
        InputItem::UserMessage(q) => assert_eq!(q, "How do I replace the boiler?"),
        _ => panic!("expected the question"),
    }
}

#[test]
fn one_round_gives_the_answer() {
    let mut a = agent();
    let _ = request_of(a.ask_one("hi"));
    let response = Response {
        output: vec![
            message(vec![text("  Hello"), text(" there  ")]),
            OutputItem::FunctionCall(call("local__search_documentation", "{\"query\":\"x\"}", "c1")),
            message(vec![text("   ")]),
        ],
        incomplete_details: Some(IncompleteDetails { reason: "max_output_tokens".to_string() }),
        usage: Some(ResponseUsage { input_tokens: 12, output_tokens: 30, total_tokens: 42 }),
    };
    let plans = plans_of(a.receive_response(&response));
    assert!(matches!(a.phase(), AgentPhase::AwaitingTools));
    assert_eq!(plans.len(), 1);
    assert_eq!(plans[0].provider, "local");
    assert_eq!(plans[0].function, "search_documentation");
    assert_eq!(plans[0].call_id, "c1");
    assert_eq!(plans[0].arguments_text, "{\"query\":\"x\"}");
    let answer = answer_of(a.tools_executed());
    assert!(matches!(a.phase(), AgentPhase::Idle));
    assert_eq!(
        answer,
        "----------\nHello there\n\n----------\nIncomplete answer reason: max_output_tokens\n----------\nUsage total: 42, input: 12, output: 30"
    );
}

#[test]
fn second_question_sends_whole_conversation() {
    let mut a = agent();
    let _ = a.ask_one("first");
    let response = Response {
        output: vec![message(vec![text("one")])],
        incomplete_details: None,
        usage: None,
    };
    let _ = a.receive_response(&response);
    assert_eq!(answer_of(a.tools_executed()), "----------\none\n");
    let req = request_of(a.ask_one("second"));
    assert_eq!(req.input.len(), 3);
    assert!(matches!(&req.input[0], InputItem::UserMessage(q) if q == "first"));
    assert!(matches!(&req.input[1], InputItem::Output(OutputItem::Message(_))));
    assert!(matches!(&req.input[2], InputItem::UserMessage(q) if q == "second"));
}

#[test]
fn empty_response_gives_empty_answer() {
    let mut a = agent();
    let _ = a.ask_one("q");
    let response = Response { output: vec![], incomplete_details: None, usage: None };
    let plans = plans_of(a.receive_response(&response));
    assert!(plans.is_empty());
    assert_eq!(answer_of(a.tools_executed()), "");
}

#[test]
fn call_with_invalid_json_arguments_is_not_run() {
    let mut a = agent();
    let _ = a.ask_one("q");
    let response = Response {
        output: vec![OutputItem::FunctionCall(call("srv__echo", "{not json", "c2"))],
        incomplete_details: None,
        usage: None,
    };
    assert!(plans_of(a.receive_response(&response)).is_empty());
}

#[test]
fn only_the_last_call_of_a_response_is_run() {
    let mut a = agent();
    let _ = a.ask_one("q");
    let response = Response {
        output: vec![
            OutputItem::FunctionCall(call("srv__echo", "{}", "c1")),
            OutputItem::FunctionCall(call("local__search_documentation", "{}", "c2")),
        ],
        incomplete_details: None,
        usage: None,
    };
    let plans = plans_of(a.receive_response(&response));
    assert_eq!(plans.len(), 1);
    assert_eq!(plans[0].call_id, "c2");
}

#[test]
fn collected_call_is_run_again_when_no_new_call_comes() {
    let mut a = agent();
    let _ = a.ask_one("q1");
    let first = Response {
        output: vec![OutputItem::FunctionCall(call("srv__echo", "{}", "c1"))],
        incomplete_details: None,
        usage: None,
    };
    let _ = a.receive_response(&first);
    let _ = a.tools_executed();
    let _ = a.ask_one("q2");
    let second = Response { output: vec![message(vec![text("ok")])], incomplete_details: None, usage: None };
    let plans = plans_of(a.receive_response(&second));
    assert_eq!(plans.len(), 1);
    assert_eq!(plans[0].call_id, "c1");
}

#[test]
fn message_text_joins_texts_and_refusals() {
    let m = OutputMessage {
        content: vec![text("a"), MessageContent::Refusal("b".to_string()), text("c")],
    };
    assert_eq!(Agent::output_message_text(&m), "abc");
}

#[test]
fn web_search_notes() {
    let search = WebSearchToolCall { action: Some(WebSearchAction::Search { query: "boiler".to_string() }) };
    assert_eq!(Agent::handle_web_search_call(&search), Some("WebSearchToolCall: Search (boiler)".to_string()));
    let open = WebSearchToolCall { action: Some(WebSearchAction::OpenPage { url: None }) };
    assert_eq!(Agent::handle_web_search_call(&open), Some("WebSearchToolCall: OpenPage ()".to_string()));
    let find = WebSearchToolCall {
        action: Some(WebSearchAction::Find { url: "u".to_string(), pattern: "p".to_string() }),
    };
    assert_eq!(Agent::handle_web_search_call(&find), Some("WebSearchToolCall: Find (u : p)".to_string()));
    let find_in_page = WebSearchToolCall {
        action: Some(WebSearchAction::FindInPage { url: "u".to_string(), pattern: "p".to_string() }),
    };
    assert_eq!(
        Agent::handle_web_search_call(&find_in_page),
        Some("WebSearchToolCall: FindInPage u : p".to_string())
    );
    assert_eq!(Agent::handle_web_search_call(&WebSearchToolCall { action: None }), None);
}

#[test]
fn reasoning_notes() {
    let r = ReasoningItem {
        summary: vec!["think".to_string()],
        content: Some(vec!["deeper".to_string()]),
    };
    assert_eq!(
        Agent::handle_reasoning(&r),
        Some("===== REASONING START =====\nsummary: think\nsummary: deeper\n===== REASONING END ======".to_string())
    );
    let empty = ReasoningItem { summary: vec![], content: None };
    assert_eq!(Agent::handle_reasoning(&empty), None);
}

#[test]
fn output_item_notes() {
    assert_eq!(Agent::output_item_note(&message(vec![text("x")])), None);
    assert_eq!(
        Agent::output_item_note(&OutputItem::FunctionCall(call("srv__echo", "{}", "c"))),
        Some("Received FunctionToolCall request for srv__echo".to_string())
    );
    assert_eq!(
        Agent::output_item_note(&OutputItem::Other("ImageGenerationCall".to_string())),
        Some("Unimplemented: ImageGenerationCall".to_string())
    );
}

#[test]
fn memory_keeps_items_in_order() {
    let mut m = AgentMemory::new();
    m.add_item(InputItem::UserMessage("q".to_string()));
    let response = Response {
        output: vec![message(vec![text("a")]), OutputItem::Other("x".to_string())],
        incomplete_details: None,
        usage: None,
    };
    m.history_from_response(&response);
    let mut req = CreateResponse {
        model: "m".to_string(),
        reasoning_effort: ReasoningEffort::Low,
        reasoning_summary: ReasoningSummary::Auto,
        tools: vec![],
        input: vec![],
    };
    m.history_to_request(&mut req);
    assert_eq!(req.input.len(), 3);
    assert!(matches!(&req.input[0], InputItem::UserMessage(q) if q == "q"));
    assert!(matches!(&req.input[1], InputItem::Output(OutputItem::Message(_))));
    assert!(matches!(&req.input[2], InputItem::Output(OutputItem::Other(d)) if d == "x"));
    assert_eq!(req.model, "m");
}
