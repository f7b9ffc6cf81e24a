//! The protocol's data and its shape on the wire.
//!
//! Each type has a model (its view) and a function that says which JSON
//! document stands for it. Requests, responses and errors can also be read
//! back from a document.

use crate::json::{Fields, Json, JsonView};
use vstd::prelude::*;

verus! {

/// A request: the protocol's version tag, the identifier that the response
/// will echo, the method's name and its parameters.
#[derive(Debug, Clone)]
pub struct JsonRpcRequest {
    pub jsonrpc: String,
    pub id: Option<String>,
    pub method: String,
    pub params: Option<Json>,
}

/// A response: the version tag, the identifier of the request, and either a
/// result or an error.
#[derive(Debug, Clone)]
pub struct JsonRpcResponse {
    pub jsonrpc: String,
    pub id: Option<String>,
    pub result: Option<Json>,
    pub error: Option<JsonRpcError>,
}

/// An error in a response.
#[derive(Debug, Clone)]
pub struct JsonRpcError {
    pub code: i32,
    pub message: String,
    pub data: Option<Json>,
}

/// What a server says of itself when a client initializes.
#[derive(Debug, Clone)]
pub struct ServerInfo {
    pub server_name: String,
    pub server_version: String,
    pub capabilities: ServerCapabilities,
}

/// What a server advertises. Each capability is absent or present with its
/// own metadata.
#[derive(Debug, Clone)]
pub struct ServerCapabilities {
    pub tools: Option<Json>,
    pub prompts: Option<Json>,
    pub resources: Option<Json>,
    pub notification_options: Option<Json>,
    pub experimental_capabilities: Option<Json>,
}

/// A tool as a client sees it: its name, what it does, and the schema of its
/// input.
#[derive(Debug, Clone)]
pub struct ToolDefinition {
    pub name: String,
    pub description: String,
    pub input_schema: Json,
}

/// A resource that a server offers.
#[derive(Debug, Clone)]
pub struct Resource {
    pub uri: String,
    pub name: String,
    pub description: String,
    pub mime_type: String,
}

/// A prompt that a server offers.
#[derive(Debug, Clone)]
pub struct Prompt {
    pub name: String,
    pub description: String,
    pub arguments: Vec<PromptArgument>,
}

/// An argument of a prompt.
#[derive(Debug, Clone)]
pub struct PromptArgument {
    pub name: String,
    pub description: String,
    pub required: bool,
}

/// A block of what a tool returns. Text is the one kind there is; the `type`
/// tag on the wire leaves room for others.
#[derive(Debug, Clone)]
pub enum Content {
    Text { text: String },
}

/// The model of a [`JsonRpcRequest`].
pub struct JsonRpcRequestView {
    pub jsonrpc: Seq<char>,
    pub id: Option<Seq<char>>,
    pub method: Seq<char>,
    pub params: Option<JsonView>,
}

/// The model of a [`JsonRpcResponse`].
pub struct JsonRpcResponseView {
    pub jsonrpc: Seq<char>,
    pub id: Option<Seq<char>>,
    pub result: Option<JsonView>,
    pub error: Option<JsonRpcErrorView>,
}

/// The model of a [`JsonRpcError`].
pub struct JsonRpcErrorView {
    pub code: i32,
    pub message: Seq<char>,
    pub data: Option<JsonView>,
}

/// The model of a [`ServerInfo`].
pub struct ServerInfoView {
    pub server_name: Seq<char>,
    pub server_version: Seq<char>,
    pub capabilities: ServerCapabilitiesView,
}

/// The model of a [`ServerCapabilities`].
pub struct ServerCapabilitiesView {
    pub tools: Option<JsonView>,
    pub prompts: Option<JsonView>,
    pub resources: Option<JsonView>,
    pub notification_options: Option<JsonView>,
    pub experimental_capabilities: Option<JsonView>,
}

/// The model of a [`ToolDefinition`].
pub struct ToolDefinitionView {
    pub name: Seq<char>,
    pub description: Seq<char>,
    pub input_schema: JsonView,
}

/// The model of a [`Resource`].
pub struct ResourceView {
    pub uri: Seq<char>,
    pub name: Seq<char>,
    pub description: Seq<char>,
    pub mime_type: Seq<char>,
}

/// The model of a [`Prompt`].
pub struct PromptView {
    pub name: Seq<char>,
    pub description: Seq<char>,
    pub arguments: Seq<PromptArgumentView>,
}

/// The model of a [`PromptArgument`].
pub struct PromptArgumentView {
    pub name: Seq<char>,
    pub description: Seq<char>,
    pub required: bool,
}

/// The model of a [`Content`] block.
pub enum ContentView {
    Text { text: Seq<char> },
}

impl View for JsonRpcRequest {
    type V = JsonRpcRequestView;

    open spec fn view(&self) -> JsonRpcRequestView {
        JsonRpcRequestView {
            jsonrpc: self.jsonrpc@,
            id: self.id.deep_view(),
            method: self.method@,
            params: self.params.deep_view(),
        }
    }
}

impl View for JsonRpcError {
    type V = JsonRpcErrorView;

    open spec fn view(&self) -> JsonRpcErrorView {
        JsonRpcErrorView { code: self.code, message: self.message@, data: self.data.deep_view() }
    }
}

impl DeepView for JsonRpcError {
    type V = JsonRpcErrorView;

    open spec fn deep_view(&self) -> JsonRpcErrorView {
        self@
    }
}

impl View for JsonRpcResponse {
    type V = JsonRpcResponseView;

    open spec fn view(&self) -> JsonRpcResponseView {
        JsonRpcResponseView {
            jsonrpc: self.jsonrpc@,
            id: self.id.deep_view(),
            result: self.result.deep_view(),
            error: self.error.deep_view(),
        }
    }
}

impl View for ServerCapabilities {
    type V = ServerCapabilitiesView;

    open spec fn view(&self) -> ServerCapabilitiesView {
        ServerCapabilitiesView {
            tools: self.tools.deep_view(),
            prompts: self.prompts.deep_view(),
            resources: self.resources.deep_view(),
            notification_options: self.notification_options.deep_view(),
            experimental_capabilities: self.experimental_capabilities.deep_view(),
        }
    }
}

impl View for ServerInfo {
    type V = ServerInfoView;

    open spec fn view(&self) -> ServerInfoView {
        ServerInfoView {
            server_name: self.server_name@,
            server_version: self.server_version@,
            capabilities: self.capabilities@,
        }
    }
}

impl View for ToolDefinition {
    type V = ToolDefinitionView;

    open spec fn view(&self) -> ToolDefinitionView {
        ToolDefinitionView {
            name: self.name@,
            description: self.description@,
            input_schema: self.input_schema@,
        }
    }
}

impl DeepView for ToolDefinition {
    type V = ToolDefinitionView;

    open spec fn deep_view(&self) -> ToolDefinitionView {
        self@
    }
}

impl View for Resource {
    type V = ResourceView;

    open spec fn view(&self) -> ResourceView {
        ResourceView {
            uri: self.uri@,
            name: self.name@,
            description: self.description@,
            mime_type: self.mime_type@,
        }
    }
}

impl View for PromptArgument {
    type V = PromptArgumentView;

    open spec fn view(&self) -> PromptArgumentView {
        PromptArgumentView {
            name: self.name@,
            description: self.description@,
            required: self.required,
        }
    }
}

impl DeepView for PromptArgument {
    type V = PromptArgumentView;

    open spec fn deep_view(&self) -> PromptArgumentView {
        self@
    }
}

impl View for Prompt {
    type V = PromptView;

    open spec fn view(&self) -> PromptView {
        PromptView {
            name: self.name@,
            description: self.description@,
            arguments: self.arguments.deep_view(),
        }
    }
}

impl View for Content {
    type V = ContentView;

    open spec fn view(&self) -> ContentView {
        match self {
            Content::Text { text } => ContentView::Text { text: text@ },
        }
    }
}

impl DeepView for Content {
    type V = ContentView;

    open spec fn deep_view(&self) -> ContentView {
        self@
    }
}

/// The document of a value that may be absent: `null` stands for absence.
pub open spec fn or_null(value: Option<JsonView>) -> JsonView {
    match value {
        Some(json) => json,
        None => JsonView::Null,
    }
}

/// `fields` with `value` under `key`, where there is a value.
pub open spec fn with_optional(
    fields: Map<Seq<char>, JsonView>,
    key: Seq<char>,
    value: Option<JsonView>,
) -> Map<Seq<char>, JsonView> {
    match value {
        Some(json) => fields.insert(key, json),
        None => fields,
    }
}

/// The document of a content block: its kind under `type`, then what the
/// kind holds.
pub open spec fn content_json(content: ContentView) -> JsonView {
    match content {
        ContentView::Text { text } => JsonView::Object(
            map!["type"@ => JsonView::Str("text"@), "text"@ => JsonView::Str(text)],
        ),
    }
}

/// The documents of a list of content blocks, in order.
pub open spec fn contents_json(blocks: Seq<ContentView>) -> JsonView {
    JsonView::Array(Seq::new(blocks.len(), |i: int| content_json(blocks[i])))
}

/// The document of a tool definition. The schema goes under `inputSchema`.
pub open spec fn tool_definition_json(definition: ToolDefinitionView) -> JsonView {
    JsonView::Object(
        map![
            "name"@ => JsonView::Str(definition.name),
            "description"@ => JsonView::Str(definition.description),
            "inputSchema"@ => definition.input_schema
        ],
    )
}

/// The documents of a list of tool definitions, in order.
pub open spec fn tool_definitions_json(definitions: Seq<ToolDefinitionView>) -> JsonView {
    JsonView::Array(Seq::new(definitions.len(), |i: int| tool_definition_json(definitions[i])))
}

/// The document of a capability declaration. `tools`, `prompts` and
/// `resources` are always there, `null` where the capability is absent; the
/// other two are left out where they are absent.
pub open spec fn capabilities_json(capabilities: ServerCapabilitiesView) -> JsonView {
    let base = map![
        "tools"@ => or_null(capabilities.tools),
        "prompts"@ => or_null(capabilities.prompts),
        "resources"@ => or_null(capabilities.resources)
    ];
    let noted = with_optional(base, "notification_options"@, capabilities.notification_options);
    JsonView::Object(
        with_optional(noted, "experimental_capabilities"@, capabilities.experimental_capabilities),
    )
}

/// The document of a server's description of itself.
pub open spec fn server_info_json(info: ServerInfoView) -> JsonView {
    JsonView::Object(
        map![
            "server_name"@ => JsonView::Str(info.server_name),
            "server_version"@ => JsonView::Str(info.server_version),
            "capabilities"@ => capabilities_json(info.capabilities)
        ],
    )
}

/// The document of a resource. The media type goes under `mimeType`.
pub open spec fn resource_json(resource: ResourceView) -> JsonView {
    JsonView::Object(
        map![
            "uri"@ => JsonView::Str(resource.uri),
            "name"@ => JsonView::Str(resource.name),
            "description"@ => JsonView::Str(resource.description),
            "mimeType"@ => JsonView::Str(resource.mime_type)
        ],
    )
}

/// The document of a prompt's argument.
pub open spec fn prompt_argument_json(argument: PromptArgumentView) -> JsonView {
    JsonView::Object(
        map![
            "name"@ => JsonView::Str(argument.name),
            "description"@ => JsonView::Str(argument.description),
            "required"@ => JsonView::Bool(argument.required)
        ],
    )
}

/// The document of a prompt.
pub open spec fn prompt_json(prompt: PromptView) -> JsonView {
    JsonView::Object(
        map![
            "name"@ => JsonView::Str(prompt.name),
            "description"@ => JsonView::Str(prompt.description),
            "arguments"@ => JsonView::Array(
                Seq::new(prompt.arguments.len(), |i: int| prompt_argument_json(prompt.arguments[i])),
            )
        ],
    )
}

/// The document of an error. `data` is left out where there is none.
pub open spec fn error_json(error: JsonRpcErrorView) -> JsonView {
    let base = map![
        "code"@ => JsonView::Integer(error.code as i64),
        "message"@ => JsonView::Str(error.message)
    ];
    JsonView::Object(with_optional(base, "data"@, error.data))
}

/// The document of a response. `id`, `result` and `error` are left out where
/// they are absent, so an absent one is never written as `null`.
pub open spec fn response_json(response: JsonRpcResponseView) -> JsonView {
    let base = map!["jsonrpc"@ => JsonView::Str(response.jsonrpc)];
    let identified = match response.id {
        Some(id) => base.insert("id"@, JsonView::Str(id)),
        None => base,
    };
    let answered = with_optional(identified, "result"@, response.result);
    JsonView::Object(
        match response.error {
            Some(error) => answered.insert("error"@, error_json(error)),
            None => answered,
        },
    )
}

/// The string under `key` that may be left out: absent and `null` both mean
/// that there is none. `None` where something else than a string is there.
pub open spec fn optional_text(json: JsonView, key: Seq<char>) -> Option<Option<Seq<char>>> {
    match json.field(key) {
        None => Some(None),
        Some(JsonView::Null) => Some(None),
        Some(JsonView::Str(text)) => Some(Some(text)),
        Some(_) => None,
    }
}

/// The value under `key` that may be left out: absent and `null` both mean
/// that there is none.
pub open spec fn optional_value(json: JsonView, key: Seq<char>) -> Option<JsonView> {
    match json.field(key) {
        None => None,
        Some(JsonView::Null) => None,
        Some(value) => Some(value),
    }
}

/// The request that a document stands for: an object with a string under
/// `jsonrpc`, a string under `method`, and nothing but a string under `id`.
/// `None` for every other document.
pub open spec fn request_of_json(json: JsonView) -> Option<JsonRpcRequestView> {
    match (json.text_field("jsonrpc"@), optional_text(json, "id"@), json.text_field("method"@)) {
        (Some(jsonrpc), Some(id), Some(method)) => Some(
            JsonRpcRequestView { jsonrpc, id, method, params: optional_value(json, "params"@) },
        ),
        _ => None,
    }
}

/// The integer under `key`, where it is one that fits in an `i32`.
pub open spec fn code_field(json: JsonView, key: Seq<char>) -> Option<i32> {
    match json.field(key) {
        Some(JsonView::Integer(i)) => if i32::MIN <= i <= i32::MAX {
            Some(i as i32)
        } else {
            None
        },
        _ => None,
    }
}

/// The error that a document stands for: an object with an integer under
/// `code` and a string under `message`. `None` for every other document.
pub open spec fn error_of_json(json: JsonView) -> Option<JsonRpcErrorView> {
    match (code_field(json, "code"@), json.text_field("message"@)) {
        (Some(code), Some(message)) => Some(
            JsonRpcErrorView { code, message, data: json.field("data"@) },
        ),
        _ => None,
    }
}

/// The response that a document stands for: an object with a string under
/// `jsonrpc`, nothing but a string under `id`, and either a value under
/// `result` or an error under `error`, not both. `None` for every other
/// document.
pub open spec fn response_of_json(json: JsonView) -> Option<JsonRpcResponseView> {
    match (json.text_field("jsonrpc"@), optional_text(json, "id"@)) {
        (Some(jsonrpc), Some(id)) => match (json.field("result"@), json.field("error"@)) {
            (Some(result), None) => Some(
                JsonRpcResponseView { jsonrpc, id, result: Some(result), error: None },
            ),
            (None, Some(failure)) => match error_of_json(failure) {
                Some(error) => Some(
                    JsonRpcResponseView { jsonrpc, id, result: None, error: Some(error) },
                ),
                None => None,
            },
            _ => None,
        },
        _ => None,
    }
}

impl JsonRpcResponseView {
    /// A response carries a result or an error, not both and not neither.
    pub open spec fn well_formed(self) -> bool {
        self.result is Some <==> self.error is None
    }
}

/// The keys of a response and of an error are different strings.
proof fn lemma_wire_keys()
    ensures
        "jsonrpc"@ != "id"@,
        "jsonrpc"@ != "result"@,
        "jsonrpc"@ != "error"@,
        "id"@ != "result"@,
        "id"@ != "error"@,
        "result"@ != "error"@,
        "code"@ != "message"@,
        "code"@ != "data"@,
        "message"@ != "data"@,
{
    reveal_strlit("jsonrpc");
    reveal_strlit("id");
    reveal_strlit("result");
    reveal_strlit("error");
    reveal_strlit("code");
    reveal_strlit("message");
    reveal_strlit("data");
    assert("jsonrpc"@.len() == 7);
    assert("id"@.len() == 2);
    assert("result"@.len() == 6);
    assert("error"@.len() == 5);
    assert("message"@.len() == 7);
    assert("code"@[0] != "data"@[0]);
}

/// Reading the document of an error gives the error back.
pub proof fn law_error_round_trip(error: JsonRpcErrorView)
    ensures
        error_of_json(error_json(error)) == Some(error),
{
    lemma_wire_keys();
}

/// Reading the document of a response gives the response back, in every
/// field.
pub proof fn law_response_round_trip(response: JsonRpcResponseView)
    requires
        response.well_formed(),
    ensures
        response_of_json(response_json(response)) == Some(response),
{
    lemma_wire_keys();
    if response.error is Some {
        law_error_round_trip(response.error->0);
    }
}

/// The document of a response has `result` where the response has a result
/// and `error` where it has an error, and never `null` in place of an absent
/// one: exactly one of the two keys is there.
pub proof fn law_response_carries_exactly_one(response: JsonRpcResponseView)
    requires
        response.well_formed(),
    ensures
        response_json(response).field("result"@) == response.result,
        response_json(response).field("error"@) is Some <==> response.error is Some,
        response_json(response).field("result"@) is Some <==> response_json(response).field(
            "error"@,
        ) is None,
{
    lemma_wire_keys();
}

/// The document of a value that may be absent.
fn or_null_json(value: &Option<Json>) -> (json: Json)
    ensures
        json@ == or_null(value.deep_view()),
{
    match value {
        Some(json) => json.duplicate(),
        None => Json::Null,
    }
}

/// Puts a value under `key` where there is one.
fn put_optional(fields: &mut Fields, key: &str, value: &Option<Json>)
    ensures
        final(fields)@ == with_optional(old(fields)@, key@, value.deep_view()),
{
    match value {
        Some(json) => fields.put(key, json.duplicate()),
        None => {},
    }
}

/// The string under `key`.
fn text_field(json: &Json, key: &str) -> (text: Option<String>)
    ensures
        text.deep_view() == json@.text_field(key@),
{
    match json.get(key) {
        Some(value) => match value.as_str() {
            Some(text) => Some(text.to_owned()),
            None => None,
        },
        None => None,
    }
}

/// The string under `key` that may be left out.
fn optional_text_field(json: &Json, key: &str) -> (text: Option<Option<String>>)
    ensures
        text.deep_view() == optional_text(json@, key@),
{
    match json.get(key) {
        None => Some(None),
        Some(Json::Null) => Some(None),
        Some(Json::Str(text)) => Some(Some(text.clone())),
        Some(_) => None,
    }
}

impl Content {
    /// The document that stands for this block.
    pub fn to_json(&self) -> (json: Json)
        ensures
            json@ == content_json(self@),
    {
        match self {
            Content::Text { text } => {
                let mut fields = Fields::new();
                fields.put("type", Json::string("text"));
                fields.put("text", Json::Str(text.clone()));
                fields.into_json()
            },
        }
    }

    /// The document that stands for a list of blocks.
    pub fn list_to_json(blocks: &Vec<Content>) -> (json: Json)
        ensures
            json@ == contents_json(blocks.deep_view()),
    {
        let mut items: Vec<Json> = Vec::new();
        let mut i: usize = 0;
        while i < blocks.len()
            invariant
                i <= blocks.len(),
                items.len() == i,
                forall|j: int| 0 <= j < i ==> (#[trigger] items@[j])@ == content_json(blocks@[j]@),
            decreases blocks.len() - i,
        {
            items.push(blocks[i].to_json());
            i = i + 1;
        }
        let json = Json::array(items);
        assert(json@ =~= contents_json(blocks.deep_view())) by {
            assert(json@->Array_0 =~= contents_json(blocks.deep_view())->Array_0);
        }
        json
    }
}

impl ToolDefinition {
    /// The document that stands for this definition.
    pub fn to_json(&self) -> (json: Json)
        ensures
            json@ == tool_definition_json(self@),
    {
        let mut fields = Fields::new();
        fields.put("name", Json::Str(self.name.clone()));
        fields.put("description", Json::Str(self.description.clone()));
        fields.put("inputSchema", self.input_schema.duplicate());
        fields.into_json()
    }

    /// The document that stands for a list of definitions.
    pub fn list_to_json(definitions: &Vec<ToolDefinition>) -> (json: Json)
        ensures
            json@ == tool_definitions_json(definitions.deep_view()),
    {
        let mut items: Vec<Json> = Vec::new();
        let mut i: usize = 0;
        while i < definitions.len()
            invariant
                i <= definitions.len(),
                items.len() == i,
                forall|j: int|
                    0 <= j < i ==> (#[trigger] items@[j])@ == tool_definition_json(
                        definitions@[j]@,
                    ),
            decreases definitions.len() - i,
        {
            items.push(definitions[i].to_json());
            i = i + 1;
        }
        let json = Json::array(items);
        assert(json@ =~= tool_definitions_json(definitions.deep_view())) by {
            assert(json@->Array_0 =~= tool_definitions_json(definitions.deep_view())->Array_0);
        }
        json
    }
}

impl ServerCapabilities {
    /// The document that stands for this declaration.
    pub fn to_json(&self) -> (json: Json)
        ensures
            json@ == capabilities_json(self@),
    {
        let mut fields = Fields::new();
        fields.put("tools", or_null_json(&self.tools));
        fields.put("prompts", or_null_json(&self.prompts));
        fields.put("resources", or_null_json(&self.resources));
        put_optional(&mut fields, "notification_options", &self.notification_options);
        put_optional(&mut fields, "experimental_capabilities", &self.experimental_capabilities);
        fields.into_json()
    }
}

impl ServerInfo {
    /// The document that stands for this description.
    pub fn to_json(&self) -> (json: Json)
        ensures
            json@ == server_info_json(self@),
    {
        let mut fields = Fields::new();
        fields.put("server_name", Json::Str(self.server_name.clone()));
        fields.put("server_version", Json::Str(self.server_version.clone()));
        fields.put("capabilities", self.capabilities.to_json());
        fields.into_json()
    }
}

impl Resource {
    /// The document that stands for this resource.
    pub fn to_json(&self) -> (json: Json)
        ensures
            json@ == resource_json(self@),
    {
        let mut fields = Fields::new();
        fields.put("uri", Json::Str(self.uri.clone()));
        fields.put("name", Json::Str(self.name.clone()));
        fields.put("description", Json::Str(self.description.clone()));
        fields.put("mimeType", Json::Str(self.mime_type.clone()));
        fields.into_json()
    }
}

impl PromptArgument {
    /// The document that stands for this argument.
    pub fn to_json(&self) -> (json: Json)
        ensures
            json@ == prompt_argument_json(self@),
    {
        let mut fields = Fields::new();
        fields.put("name", Json::Str(self.name.clone()));
        fields.put("description", Json::Str(self.description.clone()));
        fields.put("required", Json::Bool(self.required));
        fields.into_json()
    }
}

impl Prompt {
    /// The document that stands for this prompt.
    pub fn to_json(&self) -> (json: Json)
        ensures
            json@ == prompt_json(self@),
    {
        let mut items: Vec<Json> = Vec::new();
        let mut i: usize = 0;
        while i < self.arguments.len()
            invariant
                i <= self.arguments.len(),
                items.len() == i,
                forall|j: int|
                    0 <= j < i ==> (#[trigger] items@[j])@ == prompt_argument_json(
                        self.arguments@[j]@,
                    ),
            decreases self.arguments.len() - i,
        {
            items.push(self.arguments[i].to_json());
            i = i + 1;
        }
        let arguments = Json::array(items);
        assert(arguments@->Array_0 =~= Seq::new(
            self@.arguments.len(),
            |i: int| prompt_argument_json(self@.arguments[i]),
        ));
        let mut fields = Fields::new();
        fields.put("name", Json::Str(self.name.clone()));
        fields.put("description", Json::Str(self.description.clone()));
        fields.put("arguments", arguments);
        fields.into_json()
    }
}

impl JsonRpcError {
    /// The document that stands for this error.
    pub fn to_json(&self) -> (json: Json)
        ensures
            json@ == error_json(self@),
    {
        let mut fields = Fields::new();
        fields.put("code", Json::integer(self.code as i64));
        fields.put("message", Json::Str(self.message.clone()));
        put_optional(&mut fields, "data", &self.data);
        fields.into_json()
    }

    /// The error that `json` stands for, and `None` where it stands for none.
    pub fn from_json(json: &Json) -> (error: Option<JsonRpcError>)
        ensures
            error.deep_view() == error_of_json(json@),
    {
        let code = match json.get("code") {
            Some(value) => match value.as_i64() {
                Some(integer) => if -2147483648 <= integer && integer <= 2147483647 {
                    integer as i32
                } else {
                    return None;
                },
                None => {
                    return None;
                },
            },
            None => {
                return None;
            },
        };
        let message = match text_field(json, "message") {
            Some(text) => text,
            None => {
                return None;
            },
        };
        let data = match json.get("data") {
            Some(value) => Some(value.duplicate()),
            None => None,
        };
        Some(JsonRpcError { code, message, data })
    }
}

impl JsonRpcResponse {
    /// The document that stands for this response.
    pub fn to_json(&self) -> (json: Json)
        ensures
            json@ == response_json(self@),
    {
        let mut fields = Fields::new();
        fields.put("jsonrpc", Json::Str(self.jsonrpc.clone()));
        match &self.id {
            Some(id) => fields.put("id", Json::Str(id.clone())),
            None => {},
        }
        put_optional(&mut fields, "result", &self.result);
        match &self.error {
            Some(error) => fields.put("error", error.to_json()),
            None => {},
        }
        fields.into_json()
    }

    /// The response that `json` stands for, and `None` where it stands for
    /// none.
    pub fn from_json(json: &Json) -> (response: Option<JsonRpcResponse>)
        ensures
            match response {
                Some(read) => response_of_json(json@) == Some(read@),
                None => response_of_json(json@) is None,
            },
    {
        let jsonrpc = match text_field(json, "jsonrpc") {
            Some(text) => text,
            None => {
                return None;
            },
        };
        let id = match optional_text_field(json, "id") {
            Some(id) => id,
            None => {
                return None;
            },
        };
        match (json.get("result"), json.get("error")) {
            (Some(result), None) => Some(
                JsonRpcResponse { jsonrpc, id, result: Some(result.duplicate()), error: None },
            ),
            (None, Some(failure)) => match JsonRpcError::from_json(failure) {
                Some(error) => Some(JsonRpcResponse { jsonrpc, id, result: None, error: Some(error) }),
                None => None,
            },
            _ => None,
        }
    }
}

impl JsonRpcRequest {
    /// The request that `json` stands for, and `None` where it stands for
    /// none.
    pub fn from_json(json: &Json) -> (request: Option<JsonRpcRequest>)
        ensures
            match request {
                Some(read) => request_of_json(json@) == Some(read@),
                None => request_of_json(json@) is None,
            },
    {
        let jsonrpc = match text_field(json, "jsonrpc") {
            Some(text) => text,
            None => {
                return None;
            },
        };
        let id = match optional_text_field(json, "id") {
            Some(id) => id,
            None => {
                return None;
            },
        };
        let method = match text_field(json, "method") {
            Some(text) => text,
            None => {
                return None;
            },
        };
        let params = match json.get("params") {
            None => None,
            Some(Json::Null) => None,
            Some(value) => Some(value.duplicate()),
        };
        Some(JsonRpcRequest { jsonrpc, id, method, params })
    }
}

} // verus!
