use anet_mcp_server::json::Json;
use anet_mcp_server::transport::{decode_request, encode_response};
use anet_mcp_server::{
    Content, ErrorKind, JsonRpcError, JsonRpcRequest, JsonRpcResponse, McpError, Prompt,
    PromptArgument, Resource, Server, ServerCapabilities, ServerInfo, ToolDefinition,
};
use anet_mcp_server::example::ExampleTool;

fn text(json: &Json) -> String {
    json.to_text().unwrap()
}

fn same_fields(left: &JsonRpcResponse, right: &JsonRpcResponse) -> bool {
    left.jsonrpc == right.jsonrpc
        && left.id == right.id
        && left.result.as_ref().map(text) == right.result.as_ref().map(text)
        && match (&left.error, &right.error) {
            (None, None) => true,
            (Some(a), Some(b)) => {
                a.code == b.code
                    && a.message == b.message
                    && a.data.as_ref().map(text) == b.data.as_ref().map(text)
            }
            _ => false,
        }
}

#[test]
fn parse_reads_an_object_and_get_finds_its_fields() {
    let doc = Json::parse("{\"name\": \"echo\", \"n\": 3, \"deep\": {\"x\": [1.5, \"s\"]}}").unwrap();
    assert_eq!(doc.get_str("name"), Some("echo"));
    assert_eq!(doc.get("n").and_then(|v| v.as_i64()), Some(3));
    assert_eq!(doc.get("n").and_then(|v| v.as_str()), None);
    assert!(doc.get("missing").is_none());
    assert!(matches!(doc.get("deep"), Some(Json::Object(_))));
    assert!(Json::string("x").get("name").is_none());
}

#[test]
fn parse_refuses_what_is_no_json() {
    assert!(Json::parse("").is_none());
    assert!(Json::parse("{").is_none());
    assert!(Json::parse("{} {}").is_none());
    assert!(Json::parse_bytes(&[0x22, 0xff, 0x22]).is_none());
    assert!(Json::parse("  [1, 2]  \n").is_some());
}

#[test]
fn the_last_of_two_entries_with_one_key_counts() {
    let doc = Json::Object(vec![
        ("k".to_string(), Json::integer(1)),
        ("other".to_string(), Json::Null),
        ("k".to_string(), Json::integer(2)),
    ]);
    assert_eq!(doc.get("k").and_then(|v| v.as_i64()), Some(2));
    assert_eq!(text(&doc), "{\"k\":2,\"other\":null}");
    let read = Json::parse("{\"k\":1,\"k\":2}").unwrap();
    assert_eq!(read.get("k").and_then(|v| v.as_i64()), Some(2));
}

#[test]
fn to_text_writes_compact_json() {
    let doc = Json::Object(vec![(
        "a".to_string(),
        Json::Array(vec![Json::Null, Json::Bool(true), Json::integer(-7), Json::string("q\"")]),
    )]);
    assert_eq!(text(&doc), "{\"a\":[null,true,-7,\"q\\\"\"]}");
    assert_eq!(text(&Json::empty_object()), "{}");
    assert_eq!(text(&Json::empty_array()), "[]");
}

#[test]
fn text_that_is_read_is_written_back() {
    let source = "{\"a\":[1,2.5,-3,1e+300,\"x\",null,true,{\"b\":{}}],\"z\":18446744073709551615}";
    let doc = Json::parse(source).unwrap();
    assert_eq!(text(&doc), source);
    assert_eq!(text(&doc.clone()), source);
}

#[test]
fn debug_text_is_the_debug_text_of_the_value() {
    let source = "{\"a\":[1,\"x\",null],\"b\":false}";
    let doc = Json::parse(source).unwrap();
    let value: serde_json::Value = serde_json::from_str(source).unwrap();
    assert_eq!(doc.debug_text(), format!("{:?}", value));
    assert_eq!(Json::string("s").debug_text(), "String(\"s\")");
    assert_eq!(Json::Null.debug_text(), "Null");
}

#[test]
fn integers_are_read_back() {
    assert_eq!(Json::integer(i64::MIN).as_i64(), Some(i64::MIN));
    assert_eq!(Json::integer(i64::MAX).as_i64(), Some(i64::MAX));
    assert_eq!(Json::integer(0).as_i64(), Some(0));
    assert_eq!(Json::parse("1.0").unwrap().as_i64(), None);
    assert_eq!(Json::parse("18446744073709551615").unwrap().as_i64(), None);
    assert_eq!(Json::Bool(true).as_i64(), None);
}

#[test]
fn every_kind_has_its_own_code() {
    let kinds = [
        ErrorKind::MethodNotFound,
        ErrorKind::InvalidParams,
        ErrorKind::ToolNotFound,
        ErrorKind::ToolExecutionError,
        ErrorKind::TransportDecodeError,
        ErrorKind::TransportIoError,
    ];
    for kind in kinds {
        assert_eq!(ErrorKind::from_code(kind.code()), Some(kind));
    }
    assert_eq!(ErrorKind::MethodNotFound.code(), -32601);
    assert_eq!(ErrorKind::InvalidParams.code(), -32602);
    assert_eq!(ErrorKind::from_code(0), None);
    assert_eq!(ErrorKind::from_code(-32603), None);
}

#[test]
fn failures_have_their_messages() {
    assert_eq!(McpError::method_not_found("m").to_string(), "Method not found: m");
    assert_eq!(McpError::missing_param("uri").to_string(), "Missing 'uri' in params");
    assert_eq!(McpError::tool_not_found("t").to_string(), "Tool t not found");
    assert_eq!(McpError::tool_failed("boom".to_string()).to_string(), "boom");
    assert_eq!(McpError::undecodable().kind, ErrorKind::TransportDecodeError);
    assert_eq!(McpError::unwritable().kind, ErrorKind::TransportIoError);
    assert_eq!(McpError::new(ErrorKind::InvalidParams, "x".to_string()).kind, ErrorKind::InvalidParams);
}

#[test]
fn a_response_with_a_result_has_no_error_key() {
    let response = JsonRpcResponse {
        jsonrpc: "2.0".to_string(),
        id: Some("1".to_string()),
        result: Some(Json::parse("{\"tools\":[]}").unwrap()),
        error: None,
    };
    let written = encode_response(&response).unwrap();
    assert_eq!(written, "{\"id\":\"1\",\"jsonrpc\":\"2.0\",\"result\":{\"tools\":[]}}");
    let json = response.to_json();
    assert!(json.get("error").is_none());
    assert!(json.get("result").is_some());
}

#[test]
fn a_response_with_an_error_has_no_result_key() {
    let response = Server::<(), ExampleTool>::respond(None, Err(McpError::missing_param("name")));
    let json = response.to_json();
    assert!(json.get("result").is_none());
    assert!(json.get("id").is_none());
    assert_eq!(
        text(&json),
        "{\"error\":{\"code\":-32602,\"message\":\"Missing 'name' in params\"},\"jsonrpc\":\"2.0\"}"
    );
}

#[test]
fn a_response_is_read_back_as_it_was_written() {
    let responses = vec![
        JsonRpcResponse {
            jsonrpc: "2.0".to_string(),
            id: Some("1".to_string()),
            result: Some(Json::parse("{\"content\":[{\"type\":\"text\",\"text\":\"x\"}]}").unwrap()),
            error: None,
        },
        JsonRpcResponse {
            jsonrpc: "2.0".to_string(),
            id: None,
            result: Some(Json::Null),
            error: None,
        },
        JsonRpcResponse {
            jsonrpc: "1.0".to_string(),
            id: Some(String::new()),
            result: None,
            error: Some(JsonRpcError { code: -32601, message: "m".to_string(), data: None }),
        },
        JsonRpcResponse {
            jsonrpc: "2.0".to_string(),
            id: Some("9".to_string()),
            result: None,
            error: Some(JsonRpcError {
                code: i32::MIN,
                message: String::new(),
                data: Some(Json::parse("[1,{\"a\":null}]").unwrap()),
            }),
        },
    ];
    for response in responses {
        let written = encode_response(&response).unwrap();
        let read = JsonRpcResponse::from_json(&Json::parse(&written).unwrap()).unwrap();
        assert!(same_fields(&read, &response));
        let direct = JsonRpcResponse::from_json(&response.to_json()).unwrap();
        assert!(same_fields(&direct, &response));
    }
}

#[test]
fn a_response_with_both_or_neither_is_not_read() {
    let both = "{\"jsonrpc\":\"2.0\",\"result\":1,\"error\":{\"code\":1,\"message\":\"m\"}}";
    assert!(JsonRpcResponse::from_json(&Json::parse(both).unwrap()).is_none());
    let neither = "{\"jsonrpc\":\"2.0\",\"id\":\"1\"}";
    assert!(JsonRpcResponse::from_json(&Json::parse(neither).unwrap()).is_none());
    let bad_error = "{\"jsonrpc\":\"2.0\",\"error\":{\"code\":\"1\",\"message\":\"m\"}}";
    assert!(JsonRpcResponse::from_json(&Json::parse(bad_error).unwrap()).is_none());
    let wide_code = "{\"jsonrpc\":\"2.0\",\"error\":{\"code\":2147483648,\"message\":\"m\"}}";
    assert!(JsonRpcResponse::from_json(&Json::parse(wide_code).unwrap()).is_none());
    let null_error = "{\"jsonrpc\":\"2.0\",\"error\":null}";
    assert!(JsonRpcResponse::from_json(&Json::parse(null_error).unwrap()).is_none());
}

#[test]
fn an_error_is_read_back_as_it_was_written() {
    let error = JsonRpcError {
        code: 2147483647,
        message: "m".to_string(),
        data: Some(Json::string("d")),
    };
    let read = JsonRpcError::from_json(&error.to_json()).unwrap();
    assert_eq!(read.code, 2147483647);
    assert_eq!(read.message, "m");
    assert_eq!(read.data.as_ref().map(text), Some("\"d\"".to_string()));
    assert!(JsonRpcError::from_json(&Json::parse("{\"code\":1}").unwrap()).is_none());
    assert!(JsonRpcError::from_json(&Json::parse("[]").unwrap()).is_none());
}

#[test]
fn a_request_is_read_from_its_document() {
    let request = decode_request(
        b"{\"jsonrpc\":\"2.0\",\"id\":\"1\",\"method\":\"callTool\",\"params\":{\"name\":\"echo\"},\"extra\":1}",
    )
    .unwrap();
    assert_eq!(request.jsonrpc, "2.0");
    assert_eq!(request.id.as_deref(), Some("1"));
    assert_eq!(request.method, "callTool");
    assert_eq!(request.params.as_ref().map(text), Some("{\"name\":\"echo\"}".to_string()));
}

#[test]
fn a_request_may_leave_id_and_params_out() {
    let request = decode_request(b"{\"jsonrpc\":\"2.0\",\"method\":\"m\"}").unwrap();
    assert!(request.id.is_none());
    assert!(request.params.is_none());
    let request =
        decode_request(b"{\"jsonrpc\":\"2.0\",\"method\":\"m\",\"id\":null,\"params\":null}").unwrap();
    assert!(request.id.is_none());
    assert!(request.params.is_none());
    let request = decode_request(b"{\"jsonrpc\":\"x\",\"method\":\"\",\"params\":[1]}").unwrap();
    assert_eq!(request.jsonrpc, "x");
    assert_eq!(request.params.as_ref().map(text), Some("[1]".to_string()));
}

#[test]
fn what_is_no_request_is_not_read() {
    assert!(decode_request(b"").is_none());
    assert!(decode_request(b"null").is_none());
    assert!(decode_request(b"{\"method\":\"m\"}").is_none());
    assert!(decode_request(b"{\"jsonrpc\":\"2.0\"}").is_none());
    assert!(decode_request(b"{\"jsonrpc\":2,\"method\":\"m\"}").is_none());
    assert!(decode_request(b"{\"jsonrpc\":\"2.0\",\"method\":\"m\",\"id\":1}").is_none());
    assert!(decode_request(b"[\"2.0\",\"1\",\"m\",{}]").is_none());
    assert!(JsonRpcRequest::from_json(&Json::Null).is_none());
}

#[test]
fn a_content_block_is_tagged_with_its_type() {
    let block = Content::Text { text: "x".to_string() };
    assert_eq!(text(&block.to_json()), "{\"text\":\"x\",\"type\":\"text\"}");
    assert_eq!(text(&Content::list_to_json(&vec![])), "[]");
    assert_eq!(
        text(&Content::list_to_json(&vec![block.clone(), Content::Text { text: String::new() }])),
        "[{\"text\":\"x\",\"type\":\"text\"},{\"text\":\"\",\"type\":\"text\"}]"
    );
}

#[test]
fn a_tool_definition_writes_its_schema_under_input_schema() {
    let definition = ToolDefinition {
        name: "n".to_string(),
        description: "d".to_string(),
        input_schema: Json::parse("{\"type\":\"object\"}").unwrap(),
    };
    assert_eq!(
        text(&definition.to_json()),
        "{\"description\":\"d\",\"inputSchema\":{\"type\":\"object\"},\"name\":\"n\"}"
    );
    assert_eq!(text(&ToolDefinition::list_to_json(&vec![])), "[]");
}

#[test]
fn capabilities_leave_out_only_the_two_optional_ones() {
    let none = ServerCapabilities {
        tools: None,
        prompts: None,
        resources: None,
        notification_options: None,
        experimental_capabilities: None,
    };
    assert_eq!(text(&none.to_json()), "{\"prompts\":null,\"resources\":null,\"tools\":null}");
    let all = ServerCapabilities {
        tools: Some(Json::empty_object()),
        prompts: Some(Json::Bool(false)),
        resources: Some(Json::integer(1)),
        notification_options: Some(Json::empty_object()),
        experimental_capabilities: Some(Json::Null),
    };
    assert_eq!(
        text(&all.to_json()),
        "{\"experimental_capabilities\":null,\"notification_options\":{},\"prompts\":false,\"resources\":1,\"tools\":{}}"
    );
    let info = ServerInfo {
        server_name: "s".to_string(),
        server_version: "v".to_string(),
        capabilities: none,
    };
    assert_eq!(
        text(&info.to_json()),
        "{\"capabilities\":{\"prompts\":null,\"resources\":null,\"tools\":null},\"server_name\":\"s\",\"server_version\":\"v\"}"
    );
}

#[test]
fn resources_and_prompts_have_their_documents() {
    let resource = Resource {
        uri: "u".to_string(),
        name: "n".to_string(),
        description: "d".to_string(),
        mime_type: "text/plain".to_string(),
    };
    assert_eq!(
        text(&resource.to_json()),
        "{\"description\":\"d\",\"mimeType\":\"text/plain\",\"name\":\"n\",\"uri\":\"u\"}"
    );
    let argument =
        PromptArgument { name: "a".to_string(), description: "ad".to_string(), required: true };
    assert_eq!(
        text(&argument.to_json()),
        "{\"description\":\"ad\",\"name\":\"a\",\"required\":true}"
    );
    let prompt = Prompt {
        name: "p".to_string(),
        description: "pd".to_string(),
        arguments: vec![argument],
    };
    assert_eq!(
        text(&prompt.to_json()),
        "{\"arguments\":[{\"description\":\"ad\",\"name\":\"a\",\"required\":true}],\"description\":\"pd\",\"name\":\"p\"}"
    );
}
