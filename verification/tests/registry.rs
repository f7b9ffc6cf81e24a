use anet_mcp_server::json::Json;
use anet_mcp_server::server::BuildError;
use anet_mcp_server::{Content, ErrorKind, Server, ServerBuilder, Tool, ToolError, Tools};

struct Named {
    name: &'static str,
    description: &'static str,
    says: &'static str,
}

impl Tool for Named {
    fn name(&self) -> String {
        self.name.to_string()
    }

    fn description(&self) -> String {
        self.description.to_string()
    }

    fn input_schema(&self) -> Json {
        Json::Object(vec![("type".to_string(), Json::string("object"))])
    }

    fn call(&self, input: Option<Json>) -> Result<Vec<Content>, ToolError> {
        if self.says.is_empty() {
            return Err(ToolError::new("broken"));
        }
        let seen = match input {
            Some(json) => json.to_text().unwrap(),
            None => "nothing".to_string(),
        };
        Ok(vec![
            Content::Text { text: self.says.to_string() },
            Content::Text { text: seen },
        ])
    }
}

fn texts(blocks: Vec<Content>) -> Vec<String> {
    blocks
        .into_iter()
        .map(|block| match block {
            Content::Text { text } => text,
        })
        .collect()
}

#[test]
fn a_new_registry_lists_nothing() {
    let tools: Tools<Named> = Tools::new();
    assert!(tools.list().is_empty());
}

#[test]
fn two_tools_with_different_names_are_both_listed() {
    let mut tools = Tools::new();
    tools.add(Named { name: "a", description: "first", says: "A" });
    tools.add(Named { name: "b", description: "second", says: "B" });
    let listed = tools.list();
    let names: Vec<&str> = listed.iter().map(|d| d.name.as_str()).collect();
    assert_eq!(names, vec!["a", "b"]);
    assert_eq!(listed[0].description, "first");
    assert_eq!(listed[1].description, "second");
    assert_eq!(listed[0].input_schema.to_text().unwrap(), "{\"type\":\"object\"}");
}

#[test]
fn registering_a_name_again_replaces_the_tool() {
    let mut tools = Tools::new();
    tools.add(Named { name: "a", description: "old", says: "old A" });
    tools.add(Named { name: "b", description: "second", says: "B" });
    tools.add(Named { name: "a", description: "new", says: "new A" });
    let listed = tools.list();
    assert_eq!(listed.len(), 2);
    assert_eq!(listed.iter().filter(|d| d.name == "a").count(), 1);
    let a = listed.iter().find(|d| d.name == "a").unwrap();
    assert_eq!(a.description, "new");
    assert_eq!(texts(tools.call("a", None).unwrap())[0], "new A");
    assert_eq!(texts(tools.call("b", None).unwrap())[0], "B");
}

#[test]
fn the_order_of_the_list_is_stable() {
    let mut tools = Tools::new();
    for name in ["z", "m", "a", "q"] {
        tools.add(Named { name, description: "", says: "x" });
    }
    let first: Vec<String> = tools.list().into_iter().map(|d| d.name).collect();
    let second: Vec<String> = tools.list().into_iter().map(|d| d.name).collect();
    assert_eq!(first, second);
    assert_eq!(first, vec!["z", "m", "a", "q"]);
}

#[test]
fn a_call_hands_back_the_tools_blocks_unchanged() {
    let mut tools = Tools::new();
    tools.add(Named { name: "a", description: "", says: "hello" });
    let args = Json::parse("{\"k\":[1,2,{\"deep\":\"v\"}]}").unwrap();
    let blocks = texts(tools.call("a", Some(args)).unwrap());
    assert_eq!(blocks, vec!["hello".to_string(), "{\"k\":[1,2,{\"deep\":\"v\"}]}".to_string()]);
    let blocks = texts(tools.call("a", None).unwrap());
    assert_eq!(blocks, vec!["hello".to_string(), "nothing".to_string()]);
}

#[test]
fn a_call_of_an_absent_name_fails_with_tool_not_found() {
    let mut tools = Tools::new();
    tools.add(Named { name: "a", description: "", says: "hello" });
    let error = tools.call("A", None).unwrap_err();
    assert_eq!(error.kind, ErrorKind::ToolNotFound);
    assert_eq!(error.message, "Tool A not found");
    let empty: Tools<Named> = Tools::new();
    assert_eq!(empty.call("a", None).unwrap_err().kind, ErrorKind::ToolNotFound);
}

#[test]
fn a_call_of_a_failing_tool_fails_with_tool_execution_error() {
    let mut tools = Tools::new();
    tools.add(Named { name: "a", description: "", says: "" });
    let error = tools.call("a", None).unwrap_err();
    assert_eq!(error.kind, ErrorKind::ToolExecutionError);
    assert_eq!(error.message, "broken");
}

#[test]
fn what_a_tool_returned_is_handed_back_as_it_is() {
    let ok = Tools::<Named>::outcome(Ok(vec![Content::Text { text: "t".to_string() }]));
    assert_eq!(texts(ok.unwrap()), vec!["t".to_string()]);
    let failed = Tools::<Named>::outcome(Err(ToolError::new("why")));
    let error = failed.unwrap_err();
    assert_eq!(error.kind, ErrorKind::ToolExecutionError);
    assert_eq!(error.to_string(), "why");
}

#[test]
fn a_build_without_a_transport_fails() {
    let built: Result<Server<(), Named>, BuildError> = ServerBuilder::new().name("n").build();
    match built {
        Err(error) => {
            assert_eq!(error, BuildError::MissingTransport);
            assert_eq!(error.to_string(), "Transport is required");
        }
        Ok(_) => panic!("a server without a transport"),
    }
}

#[test]
fn a_build_keeps_what_was_set() {
    let server: Server<u8, Named> = ServerBuilder::new()
        .transport(7)
        .name("mine")
        .version("9.9")
        .add_tool(Named { name: "a", description: "old", says: "x" })
        .add_tool(Named { name: "a", description: "new", says: "x" })
        .build()
        .unwrap();
    assert_eq!(*server.transport(), 7);
    assert_eq!(server.name(), "mine");
    assert_eq!(server.version(), "9.9");
    let listed = server.tools().list();
    assert_eq!(listed.len(), 1);
    assert_eq!(listed[0].description, "new");
    assert!(server.capabilities().tools.is_some());
    assert!(server.capabilities().prompts.is_none());
}

#[test]
fn a_builder_has_defaults() {
    let server: Server<(), Named> = Server::builder(()).build().unwrap();
    assert_eq!(server.name(), "mcp-server");
    assert_eq!(server.version(), "0.1.0");
    let capabilities = server.capabilities();
    assert_eq!(capabilities.tools.as_ref().unwrap().to_text().unwrap(), "{}");
    assert!(capabilities.prompts.is_none());
    assert!(capabilities.resources.is_none());
    assert!(capabilities.notification_options.is_none());
    assert!(capabilities.experimental_capabilities.is_none());
    assert!(server.tools().list().is_empty());
}
