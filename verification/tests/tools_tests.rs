use chat_agent::agent::responses::{FunctionToolCall, Tool};
use chat_agent::agent::tools::local::doc_search_tool::{DocSearchTool, DocSearchToolArgs};
use chat_agent::agent::tools::local::LocalTools;
use chat_agent::agent::tools::doc_search_tool::{DocSearchTool as OtherDocSearchTool, DocSearchToolArgs as OtherDocSearchToolArgs};
use chat_agent::agent::tools::mcp_client::{McpTool, McpTools, McpTransport};
use chat_agent::agent::tools::{AgentTools, ToolCallResult, ToolProvider};

fn mcp(name: Option<&str>, tools: &[(&str, Option<&str>)]) -> McpTools {
    McpTools::build(
        name.map(|n| n.to_string()),
        tools
            .iter()
            .map(|(n, d)| McpTool::from_mcp_tool(n.to_string(), d.map(|d| d.to_string()), "{}".to_string()))
            .collect(),
    )
}

fn tool_names(tools: &[Tool]) -> Vec<String> {
    tools
        .iter()
        .map(|t| match t {
            Tool::Function { name, .. } => name.clone(),
            Tool::WebSearch => "<web>".to_string(),
        })
        .collect()
}

fn call(name: &str, arguments: &str, call_id: &str) -> FunctionToolCall {
    FunctionToolCall { name: name.to_string(), arguments: arguments.to_string(), call_id: call_id.to_string() }
}

fn built() -> AgentTools {
    AgentTools::new().with_web_search(false).build("{\"type\":\"object\"}".to_string(), mcp(Some("srv"), &[("echo", None), ("sum", Some("Adds"))]))
}

#[test]
fn new_tools_offer_nothing() {
    assert!(AgentTools::new().get_tools().is_empty());
}

#[test]
fn web_search_tool_comes_last_when_enabled() {
    let tools = built().with_web_search(true).get_tools();
    assert_eq!(tool_names(&tools), vec!["local__search_documentation", "srv__echo", "srv__sum", "<web>"]);
    let tools = built().get_tools();
    assert_eq!(tool_names(&tools), vec!["local__search_documentation", "srv__echo", "srv__sum"]);
}

#[test]
fn offered_tools_carry_descriptions_and_parameters() {
    let tools = built().get_tools();
    match &tools[0] {
        Tool::Function { description, parameters, .. } => {
            assert_eq!(description, "Documentation search for boiler type XV33AB");
            assert_eq!(parameters, "{\"type\":\"object\"}");
        }
        _ => panic!("expected a function tool"),
    }
    match &tools[1] {
        Tool::Function { description, .. } => assert_eq!(description, ""),
        _ => panic!("expected a function tool"),
    }
}

#[test]
fn provider_of_same_name_is_replaced_in_place() {
    let mut tools = built();
    tools.add_provider(ToolProvider::Mcp(mcp(Some("local"), &[("other", None)])));
    assert_eq!(tool_names(&tools.get_tools()), vec!["local__other", "srv__echo", "srv__sum"]);
}

#[test]
fn offered_tools_are_routed_back() {
    let mut tools = built();
    for (i, name) in tool_names(&tools.get_tools()).iter().enumerate() {
        let id = format!("c{}", i);
        tools.collect_execution_request(&call(name, "{\"a\":1}", &id));
        let plans = tools.execute_collected_requests();
        assert_eq!(plans.len(), 1);
        assert_eq!(format!("{}__{}", plans[0].provider, plans[0].function), *name);
        assert_eq!(plans[0].call_id, id);
        assert_eq!(plans[0].arguments_text, "{\"a\":1}");
        assert_eq!(plans[0].local, plans[0].provider == "local");
        let plan = tools.execute_collected_requests().pop().unwrap();
        assert_eq!(plan.arguments.into_value(), serde_json::from_str::<serde_json::Value>("{\"a\":1}").unwrap());
    }
}

#[test]
fn unroutable_calls_are_dropped() {
    let mut tools = built();
    for name in ["nosep", "missing__echo", "srv__missing", "local_search_documentation"] {
        tools.collect_execution_request(&call(name, "{}", "c"));
        assert!(tools.execute_collected_requests().is_empty(), "{}", name);
    }
    tools.collect_execution_request(&call("srv__echo", "not json", "c"));
    assert!(tools.execute_collected_requests().is_empty());
}

#[test]
fn collecting_keeps_only_the_last_call() {
    let mut tools = built();
    tools.collect_execution_request(&call("srv__echo", "{}", "first"));
    tools.collect_execution_request(&call("srv__sum", "{}", "second"));
    let plans = tools.execute_collected_requests();
    assert_eq!(plans.len(), 1);
    assert_eq!(plans[0].call_id, "second");
    assert_eq!(plans[0].function, "sum");
}

#[test]
fn outputs_of_failed_calls_are_dropped() {
    let results = vec![
        ToolCallResult { call_id: "a".to_string(), result: Ok("1".to_string()) },
        ToolCallResult { call_id: "b".to_string(), result: Err("boom".to_string()) },
        ToolCallResult { call_id: "c".to_string(), result: Ok("3".to_string()) },
    ];
    let outputs = AgentTools::collect_outputs(results);
    assert_eq!(outputs.len(), 2);
    assert_eq!((outputs[0].call_id.as_str(), outputs[0].output.as_str()), ("a", "1"));
    assert_eq!((outputs[1].call_id.as_str(), outputs[1].output.as_str()), ("c", "3"));
}

#[test]
fn mcp_server_config_starts_local_server() {
    let config = AgentTools::mcp_server_config();
    match config.transport {
        McpTransport::Stdio { command, args } => {
            assert_eq!(command, "../mcp/target/debug/mcp-server");
            assert_eq!(args, vec!["stdio".to_string()]);
        }
        McpTransport::Http { .. } => panic!("expected stdio"),
    }
}

#[test]
fn mcp_tools_keep_the_last_tool_of_a_name() {
    let tools = mcp(None, &[("a", Some("first")), ("b", None), ("a", Some("second"))]);
    assert_eq!(tools.name(), "unnamed");
    let list = tools.tool_list();
    assert_eq!(list.len(), 2);
    assert_eq!(list[0].name, "a");
    assert_eq!(list[0].description, "second");
    assert_eq!(list[1].name, "b");
    assert_eq!(tools.get("a").map(|t| t.description), Some("second".to_string()));
    assert!(tools.get("c").is_none());
}

#[test]
fn mcp_tool_without_description_gets_empty_one() {
    let t = McpTool::from_mcp_tool("x".to_string(), None, "{\"p\":1}".to_string());
    assert_eq!(t.tool_name(), "x");
    assert_eq!(t.tool_description(), "");
    assert_eq!(t.tool_parameters(), "{\"p\":1}");
}

#[test]
fn local_tools_hold_the_doc_search() {
    let local = LocalTools::build("{}".to_string());
    assert_eq!(local.name(), "local");
    let list = local.tool_list();
    assert_eq!(list.len(), 1);
    assert_eq!(list[0].name, "search_documentation");
    assert!(local.get("search_documentation").is_some());
    assert!(local.get("other").is_none());
}

#[test]
fn doc_search_answers_every_query_alike() {
    let tool = DocSearchTool {};
    assert_eq!(tool.tool_name(), "search_documentation");
    assert_eq!(tool.tool_description(), "Documentation search for boiler type XV33AB");
    let args = DocSearchToolArgs { query: "x".to_string(), max: Some(3) };
    assert_eq!(tool.execute(args), Ok("invarte surubul verde de trei ori la stanga".to_string()));
    let args = DocSearchToolArgs { query: "y".to_string(), max: None };
    assert_eq!(tool.tool_execute(Ok(args)), Ok("\"invarte surubul verde de trei ori la stanga\"".to_string()));
}

#[test]
fn doc_search_reports_unreadable_parameters() {
    let tool = DocSearchTool {};
    assert_eq!(
        tool.tool_execute(Err("missing field `query`".to_string())),
        Err("Unable to parse params for search_documentation: missing field `query`".to_string())
    );
}

#[test]
fn other_doc_search_tool_answers() {
    let tool = OtherDocSearchTool {};
    assert_eq!(tool.name(), "search_documentation");
    assert_eq!(tool.description(), "Documentation search for boiler type XV33AB");
    match tool.execute(OtherDocSearchToolArgs { query: "q".to_string(), max: None }) {
        Ok(t) => assert_eq!(t, "Pentru inlocuirea cazanului este extrem de important sa invartiti surubul verde de trei ori spre stanga."),
        Err(_) => panic!("expected an answer"),
    }
}

#[test]
fn mcp_call_takes_object_arguments_only() {
    let mut tools = built();
    tools.collect_execution_request(&call("srv__echo", "{\"x\":\"y\"}", "c1"));
    let plan = tools.execute_collected_requests().pop().unwrap();
    assert!(!plan.local);
    match plan.into_mcp_call() {
        Ok((name, members)) => {
            assert_eq!(name, "echo");
            assert_eq!(members.into_members().get("x"), Some(&serde_json::Value::from("y")));
        }
        Err(_) => panic!("expected object arguments"),
    }
    tools.collect_execution_request(&call("srv__echo", "[1, 2]", "c2"));
    let plan = tools.execute_collected_requests().pop().unwrap();
    match plan.into_mcp_call() {
        Err(m) => assert_eq!(m, "MCP invalid arguments"),
        Ok(_) => panic!("expected a refusal"),
    }
}

#[test]
fn local_provider_replaced_by_mcp_server_is_not_local() {
    let mut tools = built();
    tools.add_provider(ToolProvider::Mcp(mcp(Some("local"), &[("search_documentation", None)])));
    tools.collect_execution_request(&call("local__search_documentation", "{}", "c"));
    let plans = tools.execute_collected_requests();
    assert_eq!(plans.len(), 1);
    assert!(!plans[0].local);
}

#[test]
fn json_string_quotes_and_escapes() {
    assert_eq!(chat_agent::agent::tools::json::json_string("plain"), "\"plain\"");
    assert_eq!(chat_agent::agent::tools::json::json_string("a\"b\\c\n"), "\"a\\\"b\\\\c\\n\"");
}

#[test]
fn arguments_are_read_from_their_own_call() {
    let mut tools = built();
    tools.collect_execution_request(&call("srv__echo", "{\"k\": [1, 2]}", "c1"));
    let first = tools.execute_collected_requests().pop().unwrap();
    tools.collect_execution_request(&call("srv__echo", "{\"k\": 3}", "c2"));
    let second = tools.execute_collected_requests().pop().unwrap();
    assert_eq!(first.arguments.into_value(), serde_json::from_str::<serde_json::Value>("{\"k\": [1, 2]}").unwrap());
    assert_eq!(second.arguments.into_value(), serde_json::from_str::<serde_json::Value>("{\"k\": 3}").unwrap());
}
