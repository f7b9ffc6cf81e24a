//! A small tool, to show what a tool looks like.

use crate::json::{Fields, Json, JsonView};
use crate::tools::{returned_view, Tool, ToolError};
use crate::types::{Content, ContentView};
use vstd::prelude::*;
use vstd::string::StringExecFns;

verus! {

/// A tool that takes a string under `param` and says that it ran with it.
#[derive(Clone, Copy, Debug)]
pub struct ExampleTool;

/// The schema of the example tool's input: an object that must have a
/// string under `param`.
pub open spec fn example_schema() -> JsonView {
    JsonView::Object(
        map![
            "type"@ => JsonView::Str("object"@),
            "properties"@ => JsonView::Object(
                map!["param"@ => JsonView::Object(map!["type"@ => JsonView::Str("string"@)])],
            ),
            "required"@ => JsonView::Array(seq![JsonView::Str("param"@)])
        ],
    )
}

/// What the example tool returns for an input: one text block that names
/// the string under `param`, or a failure where there is no such string.
pub open spec fn example_outcome(input: Option<JsonView>) -> Result<Seq<ContentView>, Seq<char>> {
    match input {
        Some(json) => match json.text_field("param"@) {
            Some(param) => Ok(
                seq![ContentView::Text { text: "Tool executed with param: "@ + param }],
            ),
            None => Err("Missing 'param' in input"@),
        },
        None => Err("Missing 'param' in input"@),
    }
}

impl ExampleTool {
    /// The tool's name.
    pub fn tool_name() -> (name: String)
        ensures
            name@ == "example_tool"@,
    {
        "example_tool".to_owned()
    }

    /// What the tool does.
    pub fn tool_description() -> (description: String)
        ensures
            description@ == "An example tool"@,
    {
        "An example tool".to_owned()
    }

    /// The schema of the tool's input.
    pub fn schema() -> (schema: Json)
        ensures
            schema@ == example_schema(),
    {
        let mut kind = Fields::new();
        kind.put("type", Json::string("string"));
        let mut properties = Fields::new();
        properties.put("param", kind.into_json());
        let mut required: Vec<Json> = Vec::new();
        required.push(Json::string("param"));
        let listed = Json::array(required);
        assert(listed@->Array_0 =~= seq![JsonView::Str("param"@)]);
        let mut fields = Fields::new();
        fields.put("type", Json::string("object"));
        fields.put("properties", properties.into_json());
        fields.put("required", listed);
        fields.into_json()
    }

    /// Runs the tool on `input`.
    pub fn run(input: Option<Json>) -> (returned: Result<Vec<Content>, ToolError>)
        ensures
            returned_view(returned) == example_outcome(input.deep_view()),
    {
        let param = match &input {
            Some(json) => match json.get_str("param") {
                Some(text) => text,
                None => {
                    return Err(ToolError::new("Missing 'param' in input"));
                },
            },
            None => {
                return Err(ToolError::new("Missing 'param' in input"));
            },
        };
        let mut blocks: Vec<Content> = Vec::new();
        blocks.push(Content::Text { text: "Tool executed with param: ".to_owned().concat(param) });
        assert(blocks.deep_view() =~= seq![
            ContentView::Text { text: "Tool executed with param: "@ + param@ },
        ]);
        Ok(blocks)
    }
}

impl Tool for ExampleTool {
    open spec fn may_return(
        &self,
        input: Option<JsonView>,
        returned: Result<Seq<ContentView>, Seq<char>>,
    ) -> bool {
        returned == example_outcome(input)
    }

    /// The name under which the tool is registered and called.
    fn name(&self) -> (name: String)
        ensures
            name@ == "example_tool"@,
    {
        ExampleTool::tool_name()
    }

    /// What the tool does, as clients are told.
    fn description(&self) -> (description: String)
        ensures
            description@ == "An example tool"@,
    {
        ExampleTool::tool_description()
    }

    /// The schema of the tool's input, as clients are told.
    fn input_schema(&self) -> (schema: Json)
        ensures
            schema@ == example_schema(),
    {
        ExampleTool::schema()
    }

    fn call(&self, input: Option<Json>) -> (returned: Result<Vec<Content>, ToolError>) {
        ExampleTool::run(input)
    }
}

} // verus!
