//! The server: its identity, its tools, and the dispatcher that answers a
//! request with exactly one response.

use crate::bridge::json_debug;
use crate::error::{method_not_found, missing_param, tool_not_found, McpError, McpErrorView};
use crate::json::{Fields, Json, JsonView};
use crate::tools::{
    call_outcome, definitions_of, entry, has_tool, outcome_view, position, registered,
    returned_view, EntryView, Tool, ToolError, Tools,
};
use crate::types::{
    content_json, contents_json, server_info_json, tool_definitions_json, Content, ContentView,
    JsonRpcError, JsonRpcErrorView, JsonRpcRequest, JsonRpcRequestView, JsonRpcResponse,
    JsonRpcResponseView, ServerCapabilities, ServerCapabilitiesView, ServerInfoView,
    ToolDefinition, ToolDefinitionView,
};
use vstd::pervasive::unreached;
use vstd::prelude::*;
use vstd::string::StringExecFns;

verus! {

/// The model of a server: its transport, its identity, what it advertises,
/// and its tools in the registry's order.
pub struct ServerView<X, T> {
    pub transport: X,
    pub name: Seq<char>,
    pub version: Seq<char>,
    pub capabilities: ServerCapabilitiesView,
    pub tools: Seq<EntryView<T>>,
}

/// What the dispatcher does with a request: reply at once, or call a tool
/// and reply with what it returns.
pub enum Plan {
    Reply(Result<JsonView, McpErrorView>),
    Call { tool: int, input: Option<JsonView> },
}

/// What the server does with a request, ready to be carried out: the
/// response, or the call to make first.
#[derive(Debug)]
pub enum Planned {
    /// Send this response.
    Reply(JsonRpcResponse),
    /// Call the tool that stands at `tool` in the registry's order with
    /// `input`, and send the response that [`Server::finish`] gives for
    /// `id` and what the tool returns.
    Call { id: Option<String>, tool: usize, input: Option<Json> },
}

/// The model of a [`Planned`].
pub enum PlannedView {
    Reply(JsonRpcResponseView),
    Call { id: Option<Seq<char>>, tool: int, input: Option<JsonView> },
}

impl View for Planned {
    type V = PlannedView;

    open spec fn view(&self) -> PlannedView {
        match self {
            Planned::Reply(response) => PlannedView::Reply(response@),
            Planned::Call { id, tool, input } => PlannedView::Call {
                id: id.deep_view(),
                tool: *tool as int,
                input: input.deep_view(),
            },
        }
    }
}

/// The error of a response for a failure: the code of its kind, its message,
/// and no data.
pub open spec fn rpc_error(error: McpErrorView) -> JsonRpcErrorView {
    JsonRpcErrorView { code: error.kind.spec_code(), message: error.message, data: None }
}

/// The response to a request with identifier `id`: the result where there is
/// one, the error otherwise.
pub open spec fn reply(
    id: Option<Seq<char>>,
    outcome: Result<JsonView, McpErrorView>,
) -> JsonRpcResponseView {
    match outcome {
        Ok(result) => JsonRpcResponseView {
            jsonrpc: "2.0"@,
            id,
            result: Some(result),
            error: None,
        },
        Err(error) => JsonRpcResponseView {
            jsonrpc: "2.0"@,
            id,
            result: None,
            error: Some(rpc_error(error)),
        },
    }
}

/// The parameters of a request: an object without entries where it names
/// none.
pub open spec fn params_of(params: Option<JsonView>) -> JsonView {
    match params {
        Some(json) => json,
        None => JsonView::Object(Map::empty()),
    }
}

/// The result of `listResources`: no resources, and no cursor.
pub open spec fn list_resources_result() -> JsonView {
    JsonView::Object(
        map![
            "resources"@ => JsonView::Array(Seq::empty()),
            "next_cursor"@ => JsonView::Null,
            "meta"@ => JsonView::Null
        ],
    )
}

/// The result of `listPrompts`: no prompts.
pub open spec fn list_prompts_result() -> JsonView {
    JsonView::Object(map!["prompts"@ => JsonView::Array(Seq::empty())])
}

/// The outcome of `readResource`: a text that names the `uri` asked for.
pub open spec fn read_resource_outcome(params: JsonView) -> Result<JsonView, McpErrorView> {
    match params.text_field("uri"@) {
        Some(uri) => Ok(JsonView::Str("Resource content for "@ + uri)),
        None => Err(missing_param("uri"@)),
    }
}

/// The result of `getPrompt` for a prompt's name and its arguments: a
/// description, and one message of the user with a text block.
pub open spec fn prompt_result(name: Seq<char>, arguments: JsonView) -> JsonView {
    let block = JsonView::Object(
        map![
            "type"@ => JsonView::Str("text"@),
            "text"@ => JsonView::Str("Prompt with args: "@ + json_debug(arguments))
        ],
    );
    let message = JsonView::Object(
        map!["role"@ => JsonView::Str("user"@), "content"@ => block],
    );
    JsonView::Object(
        map![
            "description"@ => JsonView::Str("Prompt '"@ + name + "'"@),
            "messages"@ => JsonView::Array(seq![message])
        ],
    )
}

/// The outcome of `getPrompt`: it needs a string under `name` and a value
/// under `arguments`.
pub open spec fn get_prompt_outcome(params: JsonView) -> Result<JsonView, McpErrorView> {
    match params.text_field("name"@) {
        None => Err(missing_param("name"@)),
        Some(name) => match params.field("arguments"@) {
            None => Err(missing_param("arguments"@)),
            Some(arguments) => Ok(prompt_result(name, arguments)),
        },
    }
}

/// The result of `callTool` for what the tool returned: its blocks under
/// `content`, or its failure.
pub open spec fn call_reply(returned: Result<Seq<ContentView>, Seq<char>>) -> Result<
    JsonView,
    McpErrorView,
> {
    match call_outcome(returned) {
        Ok(blocks) => Ok(JsonView::Object(map!["content"@ => contents_json(blocks)])),
        Err(error) => Err(error),
    }
}

/// What `callTool` does: it needs a string under `name` that names a
/// registered tool, and hands that tool what stands under `arguments`.
pub open spec fn call_tool_plan<T>(tools: Seq<EntryView<T>>, params: JsonView) -> Plan {
    match params.text_field("name"@) {
        None => Plan::Reply(Err(missing_param("name"@))),
        Some(name) => if has_tool(tools, name) {
            Plan::Call { tool: position(tools, name), input: params.field("arguments"@) }
        } else {
            Plan::Reply(Err(tool_not_found(name)))
        },
    }
}

impl<X, T: Tool> ServerView<X, T> {
    /// What the server says of itself.
    pub open spec fn info(self) -> ServerInfoView {
        ServerInfoView {
            server_name: self.name,
            server_version: self.version,
            capabilities: self.capabilities,
        }
    }

    /// The result of `listTools`: the definitions of the registered tools.
    pub open spec fn list_tools_result(self) -> JsonView {
        JsonView::Object(map!["tools"@ => tool_definitions_json(definitions_of(self.tools))])
    }

    /// What the dispatcher does with a request for `method` with `params`.
    /// The method's name is compared as it is, letter for letter.
    pub open spec fn plan(self, method: Seq<char>, params: JsonView) -> Plan {
        if method == "initialize"@ {
            Plan::Reply(Ok(server_info_json(self.info())))
        } else if method == "listTools"@ {
            Plan::Reply(Ok(self.list_tools_result()))
        } else if method == "callTool"@ {
            call_tool_plan(self.tools, params)
        } else if method == "listResources"@ {
            Plan::Reply(Ok(list_resources_result()))
        } else if method == "readResource"@ {
            Plan::Reply(read_resource_outcome(params))
        } else if method == "listPrompts"@ {
            Plan::Reply(Ok(list_prompts_result()))
        } else if method == "getPrompt"@ {
            Plan::Reply(get_prompt_outcome(params))
        } else {
            Plan::Reply(Err(method_not_found(method)))
        }
    }

    /// What the server does with `request`, ready to be carried out.
    pub open spec fn planned(self, request: JsonRpcRequestView) -> PlannedView {
        match self.plan(request.method, params_of(request.params)) {
            Plan::Reply(outcome) => PlannedView::Reply(reply(request.id, outcome)),
            Plan::Call { tool, input } => PlannedView::Call { id: request.id, tool, input },
        }
    }

    /// `response` is an answer to `request`: the reply that the plan fixes,
    /// or the reply for something that the called tool may return for the
    /// plan's input.
    pub open spec fn answers(
        self,
        request: JsonRpcRequestView,
        response: JsonRpcResponseView,
    ) -> bool {
        match self.plan(request.method, params_of(request.params)) {
            Plan::Reply(outcome) => response == reply(request.id, outcome),
            Plan::Call { tool, input } => exists|returned: Result<Seq<ContentView>, Seq<char>>|
                #![trigger call_reply(returned)]
                self.tools[tool].tool.may_return(input, returned) && response == reply(
                    request.id,
                    call_reply(returned),
                ),
        }
    }
}

/// The model of a handler's outcome.
pub open spec fn result_view(outcome: Result<Json, McpError>) -> Result<JsonView, McpErrorView> {
    match outcome {
        Ok(json) => Ok(json@),
        Err(error) => Err(error@),
    }
}

/// Whether `text` is the string `literal`.
fn is(text: &String, literal: &str) -> (same: bool)
    ensures
        same == (text@ == literal@),
{
    let wanted = literal.to_owned();
    *text == wanted
}

/// A server: one transport, the registry of its tools, its name and
/// version, and what it advertises.
pub struct Server<X, T: Tool> {
    transport: X,
    tools: Tools<T>,
    server_name: String,
    server_version: String,
    capabilities: ServerCapabilities,
}

impl<X, T: Tool> View for Server<X, T> {
    type V = ServerView<X, T>;

    closed spec fn view(&self) -> ServerView<X, T> {
        ServerView {
            transport: self.transport,
            name: self.server_name@,
            version: self.server_version@,
            capabilities: self.capabilities@,
            tools: self.tools@,
        }
    }
}

impl<X, T: Tool> Server<X, T> {
    /// A builder for a server on `transport`, with the defaults of
    /// [`ServerBuilder::new`] for everything else.
    pub fn builder(transport: X) -> (builder: ServerBuilder<X, T>)
        ensures
            builder@ == (ServerBuilderView { transport: Some(transport), ..default_builder::<X, T>() }),
    {
        ServerBuilder::new().transport(transport)
    }

    /// The transport that the server was built on.
    pub fn transport(&self) -> (transport: &X)
        ensures
            *transport == self@.transport,
    {
        &self.transport
    }

    /// The registry of the server's tools.
    pub fn tools(&self) -> (tools: &Tools<T>)
        ensures
            tools@ == self@.tools,
    {
        &self.tools
    }

    /// The server's name.
    pub fn name(&self) -> (name: &String)
        ensures
            name@ == self@.name,
    {
        &self.server_name
    }

    /// The server's version.
    pub fn version(&self) -> (version: &String)
        ensures
            version@ == self@.version,
    {
        &self.server_version
    }

    /// What the server advertises.
    pub fn capabilities(&self) -> (capabilities: &ServerCapabilities)
        ensures
            capabilities@ == self@.capabilities,
    {
        &self.capabilities
    }

    /// The response to a request with identifier `id` whose handler ended
    /// with `outcome`.
    pub fn respond(id: Option<String>, outcome: Result<Json, McpError>) -> (response:
        JsonRpcResponse)
        ensures
            response@ == reply(id.deep_view(), result_view(outcome)),
    {
        match outcome {
            Ok(result) => JsonRpcResponse {
                jsonrpc: "2.0".to_owned(),
                id,
                result: Some(result),
                error: None,
            },
            Err(error) => JsonRpcResponse {
                jsonrpc: "2.0".to_owned(),
                id,
                result: None,
                error: Some(
                    JsonRpcError { code: error.kind.code(), message: error.message, data: None },
                ),
            },
        }
    }

    /// The result of `callTool` for what the tool returned.
    pub fn call_tool_result(returned: Result<Vec<Content>, ToolError>) -> (outcome: Result<
        Json,
        McpError,
    >)
        ensures
            result_view(outcome) == call_reply(returned_view(returned)),
    {
        Self::wrap_content(Tools::<T>::outcome(returned))
    }

    /// Puts the blocks that a call handed back under `content`.
    fn wrap_content(handed: Result<Vec<Content>, McpError>) -> (outcome: Result<Json, McpError>)
        ensures
            result_view(outcome) == (match outcome_view(handed) {
                Ok(blocks) => Ok(JsonView::Object(map!["content"@ => contents_json(blocks)])),
                Err(error) => Err(error),
            }),
    {
        match handed {
            Ok(blocks) => {
                let mut fields = Fields::new();
                fields.put("content", Content::list_to_json(&blocks));
                Ok(fields.into_json())
            },
            Err(error) => Err(error),
        }
    }

    fn handle_initialize(&self, params: &Json) -> (outcome: Result<Json, McpError>)
        ensures
            result_view(outcome) == Ok::<JsonView, McpErrorView>(server_info_json(self@.info())),
    {
        let mut fields = Fields::new();
        fields.put("server_name", Json::Str(self.server_name.clone()));
        fields.put("server_version", Json::Str(self.server_version.clone()));
        fields.put("capabilities", self.capabilities.to_json());
        Ok(fields.into_json())
    }

    fn handle_list_tools(&self, params: &Json) -> (outcome: Result<Json, McpError>)
        ensures
            result_view(outcome) == Ok::<JsonView, McpErrorView>(self@.list_tools_result()),
    {
        let definitions = self.tools.list();
        let mut fields = Fields::new();
        fields.put("tools", ToolDefinition::list_to_json(&definitions));
        Ok(fields.into_json())
    }

    /// Finds the tool that `callTool` names and the input to hand to it.
    fn handle_call_tool(&self, params: &Json) -> (found: Result<(usize, Option<Json>), McpError>)
        ensures
            match call_tool_plan(self@.tools, params@) {
                Plan::Reply(fixed) => found matches Err(error) && fixed == Err::<
                    JsonView,
                    McpErrorView,
                >(error@),
                Plan::Call { tool, input } => found matches Ok((at, given)) && at == tool
                    && given.deep_view() == input && at < self@.tools.len(),
            },
    {
        let name = match params.get_str("name") {
            Some(name) => name,
            None => {
                return Err(McpError::missing_param("name"));
            },
        };
        match self.tools.index_of(name) {
            Some(at) => {
                let arguments = match params.get("arguments") {
                    Some(value) => Some(value.duplicate()),
                    None => None,
                };
                Ok((at, arguments))
            },
            None => Err(McpError::tool_not_found(name)),
        }
    }

    fn handle_list_resources(&self, params: &Json) -> (outcome: Result<Json, McpError>)
        ensures
            result_view(outcome) == Ok::<JsonView, McpErrorView>(list_resources_result()),
    {
        let mut fields = Fields::new();
        fields.put("resources", Json::empty_array());
        fields.put("next_cursor", Json::Null);
        fields.put("meta", Json::Null);
        Ok(fields.into_json())
    }

    fn handle_read_resource(&self, params: &Json) -> (outcome: Result<Json, McpError>)
        ensures
            result_view(outcome) == read_resource_outcome(params@),
    {
        match params.get_str("uri") {
            Some(uri) => Ok(Json::Str("Resource content for ".to_owned().concat(uri))),
            None => Err(McpError::missing_param("uri")),
        }
    }

    fn handle_list_prompts(&self, params: &Json) -> (outcome: Result<Json, McpError>)
        ensures
            result_view(outcome) == Ok::<JsonView, McpErrorView>(list_prompts_result()),
    {
        let mut fields = Fields::new();
        fields.put("prompts", Json::empty_array());
        Ok(fields.into_json())
    }

    fn handle_get_prompt(&self, params: &Json) -> (outcome: Result<Json, McpError>)
        ensures
            result_view(outcome) == get_prompt_outcome(params@),
    {
        let name = match params.get_str("name") {
            Some(name) => name,
            None => {
                return Err(McpError::missing_param("name"));
            },
        };
        let arguments = match params.get("arguments") {
            Some(arguments) => arguments,
            None => {
                return Err(McpError::missing_param("arguments"));
            },
        };
        let shown = arguments.debug_text();
        let mut block = Fields::new();
        block.put("type", Json::string("text"));
        block.put("text", Json::Str("Prompt with args: ".to_owned().concat(shown.as_str())));
        let mut message = Fields::new();
        message.put("role", Json::string("user"));
        message.put("content", block.into_json());
        let mut messages: Vec<Json> = Vec::new();
        messages.push(message.into_json());
        let listed = Json::array(messages);
        assert(listed@->Array_0 =~= seq![messages@[0]@]);
        let mut fields = Fields::new();
        fields.put("description", Json::Str("Prompt '".to_owned().concat(name).concat("'")));
        fields.put("messages", listed);
        Ok(fields.into_json())
    }

    /// Decides what to do with a request: the response to send, or the one
    /// call of a tool to make first. No tool is called here.
    pub fn plan(&self, req: JsonRpcRequest) -> (planned: Planned)
        ensures
            planned@ == self@.planned(req@),
            planned matches Planned::Call { tool, .. } ==> tool < self@.tools.len(),
    {
        let JsonRpcRequest { jsonrpc, id, method, params } = req;
        let params = match params {
            Some(json) => json,
            None => Json::empty_object(),
        };
        let outcome = if is(&method, "initialize") {
            self.handle_initialize(&params)
        } else if is(&method, "listTools") {
            self.handle_list_tools(&params)
        } else if is(&method, "callTool") {
            match self.handle_call_tool(&params) {
                Ok((tool, input)) => {
                    return Planned::Call { id, tool, input };
                },
                Err(error) => Err(error),
            }
        } else if is(&method, "listResources") {
            self.handle_list_resources(&params)
        } else if is(&method, "readResource") {
            self.handle_read_resource(&params)
        } else if is(&method, "listPrompts") {
            self.handle_list_prompts(&params)
        } else if is(&method, "getPrompt") {
            self.handle_get_prompt(&params)
        } else {
            Err(McpError::method_not_found(method.as_str()))
        };
        Planned::Reply(Self::respond(id, outcome))
    }

    /// The response to a `callTool` request with identifier `id` for what
    /// the tool returned: its blocks under `content`, unchanged and in
    /// order, or its failure as an error.
    pub fn finish(id: Option<String>, returned: Result<Vec<Content>, ToolError>) -> (response:
        JsonRpcResponse)
        ensures
            response@ == reply(id.deep_view(), call_reply(returned_view(returned))),
    {
        Self::respond(id, Self::call_tool_result(returned))
    }

    /// Answers a request with exactly one response, whatever happens: a
    /// failure becomes a response with an error. The response has the
    /// request's identifier, the version tag `2.0`, and either a result or
    /// an error.
    ///
    /// The response is the one that [`Server::plan`] fixes. Where the plan
    /// is a call, the tool is called once with the plan's input, and the
    /// response is what [`Server::finish`] gives for what it returned.
    pub fn handle_request(&self, req: JsonRpcRequest) -> (response: JsonRpcResponse)
        ensures
            self@.answers(req@, response@),
            response@.id == req@.id,
            response@.jsonrpc == "2.0"@,
            response@.well_formed(),
    {
        match self.plan(req) {
            Planned::Reply(response) => response,
            Planned::Call { id, tool, input } => {
                match self.tools.tool_at(tool) {
                    Some(found) => {
                        let returned = found.call(input);
                        let response = Self::finish(id, returned);
                        assert(self@.tools[tool as int].tool.may_return(
                            input.deep_view(),
                            returned_view(returned),
                        ) && response@ == reply(req@.id, call_reply(returned_view(returned))));
                        response
                    },
                    None => unreached(),
                }
            },
        }
    }
}

/// Every answer to a request has the request's identifier and the version
/// tag `2.0`, and carries either a result or an error, never both and never
/// neither.
pub proof fn law_answer_echoes_id<X, T: Tool>(
    server: ServerView<X, T>,
    request: JsonRpcRequestView,
    response: JsonRpcResponseView,
)
    requires
        server.answers(request, response),
    ensures
        response.id == request.id,
        response.jsonrpc == "2.0"@,
        response.well_formed(),
{
}

/// A call of a tool that is not registered is answered with `ToolNotFound`,
/// and no tool is called. A call of a registered tool is answered with the
/// blocks that the tool returned, under `content`, every block in its place.
pub proof fn law_call_tool<X, T: Tool>(
    server: ServerView<X, T>,
    id: Option<Seq<char>>,
    params: JsonView,
    name: Seq<char>,
    blocks: Seq<ContentView>,
)
    requires
        params.text_field("name"@) == Some(name),
    ensures
        !has_tool(server.tools, name) ==> server.plan("callTool"@, params) == Plan::Reply(
            Err(tool_not_found(name)),
        ),
        has_tool(server.tools, name) ==> server.plan("callTool"@, params) == (Plan::Call {
            tool: position(server.tools, name),
            input: params.field("arguments"@),
        }),
        reply(id, call_reply(Ok(blocks))).result == Some(
            JsonView::Object(map!["content"@ => contents_json(blocks)]),
        ),
        contents_json(blocks)->Array_0.len() == blocks.len(),
        forall|i: int|
            0 <= i < blocks.len() ==> #[trigger] contents_json(blocks)->Array_0[i]
                == content_json(blocks[i]),
{
    reveal_strlit("callTool");
    reveal_strlit("initialize");
    reveal_strlit("listTools");
    assert("callTool"@.len() == 8);
    assert("initialize"@.len() == 10);
    assert("listTools"@.len() == 9);
}

/// Why a server could not be built.
#[derive(Clone, Copy, Debug, PartialEq, Eq, Structural)]
pub enum BuildError {
    /// No transport was given.
    MissingTransport,
}

impl BuildError {
    /// The error as it is shown to a reader.
    pub fn to_string(&self) -> (text: String)
        ensures
            text@ == "Transport is required"@,
    {
        "Transport is required".to_owned()
    }
}

/// The model of a builder: what was set so far.
pub struct ServerBuilderView<X, T> {
    pub transport: Option<X>,
    pub name: Seq<char>,
    pub version: Seq<char>,
    pub capabilities: ServerCapabilitiesView,
    pub tools: Seq<EntryView<T>>,
}

/// What a server advertises where nothing was set: tools, with no metadata,
/// and nothing else.
pub open spec fn default_capabilities() -> ServerCapabilitiesView {
    ServerCapabilitiesView {
        tools: Some(JsonView::Object(Map::empty())),
        prompts: None,
        resources: None,
        notification_options: None,
        experimental_capabilities: None,
    }
}

/// A builder on which nothing was set: no transport, no tools, the name
/// `mcp-server`, the version `0.1.0`, and the default capabilities.
pub open spec fn default_builder<X, T>() -> ServerBuilderView<X, T> {
    ServerBuilderView {
        transport: None,
        name: "mcp-server"@,
        version: "0.1.0"@,
        capabilities: default_capabilities(),
        tools: Seq::empty(),
    }
}

/// Collects what a server is made of.
pub struct ServerBuilder<X, T: Tool> {
    transport: Option<X>,
    tools: Tools<T>,
    server_name: String,
    server_version: String,
    capabilities: ServerCapabilities,
}

impl<X, T: Tool> View for ServerBuilder<X, T> {
    type V = ServerBuilderView<X, T>;

    closed spec fn view(&self) -> ServerBuilderView<X, T> {
        ServerBuilderView {
            transport: self.transport,
            name: self.server_name@,
            version: self.server_version@,
            capabilities: self.capabilities@,
            tools: self.tools@,
        }
    }
}

impl<X, T: Tool> ServerBuilder<X, T> {
    /// A builder on which nothing was set.
    pub fn new() -> (builder: ServerBuilder<X, T>)
        ensures
            builder@ == default_builder::<X, T>(),
    {
        ServerBuilder {
            transport: None,
            tools: Tools::new(),
            server_name: "mcp-server".to_owned(),
            server_version: "0.1.0".to_owned(),
            capabilities: ServerCapabilities {
                tools: Some(Json::empty_object()),
                prompts: None,
                resources: None,
                notification_options: None,
                experimental_capabilities: None,
            },
        }
    }

    /// Sets the transport.
    pub fn transport(self, transport: X) -> (builder: ServerBuilder<X, T>)
        ensures
            builder@ == (ServerBuilderView { transport: Some(transport), ..self@ }),
    {
        let mut builder = self;
        builder.transport = Some(transport);
        builder
    }

    /// Sets the server's name.
    pub fn name(self, name: &str) -> (builder: ServerBuilder<X, T>)
        ensures
            builder@ == (ServerBuilderView { name: name@, ..self@ }),
    {
        let mut builder = self;
        builder.server_name = name.to_owned();
        builder
    }

    /// Sets the server's version.
    pub fn version(self, version: &str) -> (builder: ServerBuilder<X, T>)
        ensures
            builder@ == (ServerBuilderView { version: version@, ..self@ }),
    {
        let mut builder = self;
        builder.server_version = version.to_owned();
        builder
    }

    /// Sets what the server advertises.
    pub fn capabilities(self, capabilities: ServerCapabilities) -> (builder: ServerBuilder<X, T>)
        ensures
            builder@ == (ServerBuilderView { capabilities: capabilities@, ..self@ }),
    {
        let mut builder = self;
        builder.capabilities = capabilities;
        builder
    }

    /// Registers a tool under the name, the description and the schema that
    /// it gives when it is asked now. A tool that was registered under that
    /// name before is replaced.
    pub fn add_tool(self, tool: T) -> (builder: ServerBuilder<X, T>)
        ensures
            exists|definition: ToolDefinitionView|
                builder@ == (ServerBuilderView {
                    tools: registered(self@.tools, #[trigger] entry(definition, tool)),
                    ..self@
                }),
    {
        let mut builder = self;
        let ghost before = builder.tools@;
        builder.tools.add(tool);
        proof {
            let definition = choose|definition: ToolDefinitionView|
                builder.tools@ == registered(before, #[trigger] entry(definition, tool));
            assert(builder@ == (ServerBuilderView {
                tools: registered(self@.tools, entry(definition, tool)),
                ..self@
            }));
        }
        builder
    }

    /// Builds the server. The transport is the one thing that must have been
    /// set: without it the build fails.
    pub fn build(self) -> (built: Result<Server<X, T>, BuildError>)
        ensures
            match built {
                Ok(server) => self@.transport == Some(server@.transport) && server@.name
                    == self@.name && server@.version == self@.version && server@.capabilities
                    == self@.capabilities && server@.tools == self@.tools,
                Err(error) => self@.transport is None && error == BuildError::MissingTransport,
            },
    {
        match self.transport {
            Some(transport) => Ok(
                Server {
                    transport,
                    tools: self.tools,
                    server_name: self.server_name,
                    server_version: self.server_version,
                    capabilities: self.capabilities,
                },
            ),
            None => Err(BuildError::MissingTransport),
        }
    }
}

} // verus!
