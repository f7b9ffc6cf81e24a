use anet_mcp_server::example::ExampleTool;
use anet_mcp_server::json::{Fields, Json};
use anet_mcp_server::server::Planned;
use anet_mcp_server::text::{from_value, to_value};
use anet_mcp_server::transport::{reply_line, reply_message, BusAction, LineAction};
use anet_mcp_server::{
    Content, ErrorKind, JsonRpcRequest, McpError, Server, ServerBuilder, Tool, ToolDefinition,
    ToolError, Tools,
};

fn server() -> Server<(), ExampleTool> {
    ServerBuilder::new().transport(()).add_tool(ExampleTool).build().unwrap()
}

fn request(id: Option<&str>, method: &str, params: Option<&str>) -> JsonRpcRequest {
    JsonRpcRequest {
        jsonrpc: "2.0".to_string(),
        id: id.map(|s| s.to_string()),
        method: method.to_string(),
        params: params.map(|p| Json::parse(p).unwrap()),
    }
}

#[test]
fn the_plan_for_a_registered_tool_is_a_call_with_its_arguments() {
    let planned = server().plan(request(
        Some("5"),
        "callTool",
        Some("{\"name\":\"example_tool\",\"arguments\":{\"param\":\"p\"}}"),
    ));
    match planned {
        Planned::Call { id, tool, input } => {
            assert_eq!(id.as_deref(), Some("5"));
            assert_eq!(tool, 0);
            assert_eq!(input.unwrap().to_text().unwrap(), "{\"param\":\"p\"}");
        }
        Planned::Reply(_) => panic!("expected a call"),
    }
}

#[test]
fn the_plan_for_a_call_without_arguments_hands_nothing_over() {
    let planned =
        server().plan(request(None, "callTool", Some("{\"name\":\"example_tool\"}")));
    match planned {
        Planned::Call { id, tool, input } => {
            assert!(id.is_none());
            assert_eq!(tool, 0);
            assert!(input.is_none());
        }
        Planned::Reply(_) => panic!("expected a call"),
    }
}

#[test]
fn the_plan_for_everything_else_is_a_reply() {
    let server = server();
    for (method, params) in [
        ("initialize", None),
        ("listTools", None),
        ("callTool", Some("{\"name\":\"nobody\"}")),
        ("callTool", None),
        ("listResources", None),
        ("readResource", None),
        ("listPrompts", None),
        ("getPrompt", None),
        ("unknown", None),
    ] {
        match server.plan(request(Some("1"), method, params)) {
            Planned::Reply(response) => assert_eq!(response.id.as_deref(), Some("1")),
            Planned::Call { .. } => panic!("expected a reply for {}", method),
        }
    }
}

#[test]
fn finish_puts_the_blocks_under_content() {
    let blocks = vec![
        Content::Text { text: "one".to_string() },
        Content::Text { text: "two".to_string() },
    ];
    let response = Server::<(), ExampleTool>::finish(Some("2".to_string()), Ok(blocks));
    assert_eq!(response.id.as_deref(), Some("2"));
    assert!(response.error.is_none());
    assert_eq!(
        response.result.unwrap().to_text().unwrap(),
        "{\"content\":[{\"text\":\"one\",\"type\":\"text\"},{\"text\":\"two\",\"type\":\"text\"}]}"
    );
    let response = Server::<(), ExampleTool>::finish(None, Ok(vec![]));
    assert_eq!(response.result.unwrap().to_text().unwrap(), "{\"content\":[]}");
}

#[test]
fn finish_turns_a_failure_into_an_error() {
    let response = Server::<(), ExampleTool>::finish(None, Err(ToolError::new("it broke")));
    assert!(response.result.is_none());
    let error = response.error.unwrap();
    assert_eq!(error.code, ErrorKind::ToolExecutionError.code());
    assert_eq!(error.code, -32002);
    assert_eq!(error.message, "it broke");
    let outcome = Server::<(), ExampleTool>::call_tool_result(Err(ToolError::new("no")));
    assert_eq!(outcome.unwrap_err().kind, ErrorKind::ToolExecutionError);
}

#[test]
fn respond_wraps_a_result_or_an_error() {
    let ok = Server::<(), ExampleTool>::respond(Some("r".to_string()), Ok(Json::integer(4)));
    assert_eq!(ok.jsonrpc, "2.0");
    assert_eq!(ok.result.unwrap().as_i64(), Some(4));
    assert!(ok.error.is_none());
    let failed = Server::<(), ExampleTool>::respond(None, Err(McpError::tool_not_found("t")));
    assert!(failed.result.is_none());
    assert_eq!(failed.error.unwrap().code, -32001);
}

#[test]
fn a_tool_is_found_by_its_name_and_by_its_place() {
    let mut tools = Tools::new();
    assert_eq!(tools.index_of("example_tool"), None);
    assert!(tools.tool_at(0).is_none());
    tools.add(ExampleTool);
    assert_eq!(tools.index_of("example_tool"), Some(0));
    assert_eq!(tools.index_of("example"), None);
    assert_eq!(tools.tool_at(0).map(|tool| tool.name()), Some("example_tool".to_string()));
    assert!(tools.tool_at(1).is_none());
}

#[test]
fn a_tool_is_registered_under_the_definition_given() {
    let mut tools = Tools::new();
    let schema = Json::parse("{\"type\":\"null\"}").unwrap();
    tools.register(
        ToolDefinition {
            name: "alias".to_string(),
            description: "another name".to_string(),
            input_schema: schema,
        },
        ExampleTool,
    );
    tools.add(ExampleTool);
    let names: Vec<String> = tools.list().into_iter().map(|d| d.name).collect();
    assert_eq!(names, vec!["alias".to_string(), "example_tool".to_string()]);
    assert_eq!(tools.index_of("alias"), Some(0));
    assert_eq!(tools.index_of("example_tool"), Some(1));
    let args = Json::parse("{\"param\":\"v\"}").unwrap();
    match &tools.call("alias", Some(args)).unwrap()[0] {
        Content::Text { text } => assert_eq!(text, "Tool executed with param: v"),
    }
}

#[test]
fn the_example_tool_says_what_it_is() {
    assert_eq!(ExampleTool.name(), "example_tool");
    assert_eq!(ExampleTool.description(), "An example tool");
    assert_eq!(
        ExampleTool.input_schema().to_text().unwrap(),
        "{\"properties\":{\"param\":{\"type\":\"string\"}},\"required\":[\"param\"],\"type\":\"object\"}"
    );
    assert_eq!(ExampleTool.call(None).unwrap_err().message, "Missing 'param' in input");
    let not_text = Json::parse("{\"param\":1}").unwrap();
    assert_eq!(
        ExampleTool.call(Some(not_text)).unwrap_err().message,
        "Missing 'param' in input"
    );
    match &ExampleTool::run(Some(Json::parse("{\"param\":\"\"}").unwrap())).unwrap()[0] {
        Content::Text { text } => assert_eq!(text, "Tool executed with param: "),
    }
}

#[test]
fn a_document_goes_to_a_value_and_back() {
    let source = "{\"a\":[1,2.5,\"x\",null,false,{\"b\":{}}],\"c\":-9}";
    let value: serde_json::Value = serde_json::from_str(source).unwrap();
    let json = from_value(value.clone());
    assert_eq!(json.get("c").and_then(|v| v.as_i64()), Some(-9));
    assert!(matches!(json.get("a"), Some(Json::Array(items)) if items.len() == 6));
    assert_eq!(to_value(&json), value);
    let built = Json::Object(vec![
        ("k".to_string(), Json::string("first")),
        ("k".to_string(), Json::string("second")),
    ]);
    let expected: serde_json::Value = serde_json::from_str("{\"k\":\"second\"}").unwrap();
    assert_eq!(to_value(&built), expected);
}

#[test]
fn fields_replace_what_was_under_a_key() {
    let mut fields = Fields::new();
    fields.put("a", Json::integer(1));
    fields.put("b", Json::Null);
    fields.put("a", Json::integer(2));
    let json = fields.into_json();
    assert_eq!(json.get("a").and_then(|v| v.as_i64()), Some(2));
    assert_eq!(json.to_text().unwrap(), "{\"a\":2,\"b\":null}");
    assert_eq!(Fields::new().into_json().to_text().unwrap(), "{}");
    assert_eq!(Json::array(vec![Json::Null, Json::integer(3)]).to_text().unwrap(), "[null,3]");
}

#[test]
fn a_response_becomes_a_line_or_a_message() {
    let response = Server::<(), ExampleTool>::respond(Some("1".to_string()), Ok(Json::Null));
    match reply_line(&response) {
        LineAction::Reply(text) => {
            assert_eq!(text, "{\"id\":\"1\",\"jsonrpc\":\"2.0\",\"result\":null}\n")
        }
        other => panic!("expected a reply, got {:?}", other),
    }
    match reply_message(Some("inbox".to_string()), &response) {
        BusAction::Publish { subject, payload } => {
            assert_eq!(subject, "inbox");
            assert_eq!(payload, "{\"id\":\"1\",\"jsonrpc\":\"2.0\",\"result\":null}");
        }
        other => panic!("expected a publish, got {:?}", other),
    }
    assert!(matches!(reply_message(None, &response), BusAction::Discard));
}
