//! Core types of tools: logs, response formats, errors, JSON schemas and parameters.

use crate::ids::Uuid;
use crate::json::JsonValue;
use crate::provider::{LlmTool, LlmToolType};
use crate::text::{push_str, str_eq};
use vstd::prelude::*;

verus! {

/// Tool logging stream chunk
#[derive(Debug)]
pub enum ToolLog {
    Result(String),
    Log(String),
    Debug(String),
    Error(String),
}

impl ToolLog {
    /// The name of the server-sent event that carries the chunk.
    pub fn event_name(&self) -> (r: &'static str)
        ensures
            r@ == match *self {
                ToolLog::Result(_) => "result"@,
                ToolLog::Log(_) => "log"@,
                ToolLog::Debug(_) => "debug"@,
                ToolLog::Error(_) => "error"@,
            },
    {
        match self {
            ToolLog::Result(_) => "result",
            ToolLog::Log(_) => "log",
            ToolLog::Debug(_) => "debug",
            ToolLog::Error(_) => "error",
        }
    }

    /// The data of the chunk.
    pub fn data(&self) -> (r: &str)
        ensures
            r@ == match *self {
                ToolLog::Result(d) => d@,
                ToolLog::Log(d) => d@,
                ToolLog::Debug(d) => d@,
                ToolLog::Error(d) => d@,
            },
    {
        match self {
            ToolLog::Result(d) => d.as_str(),
            ToolLog::Log(d) => d.as_str(),
            ToolLog::Debug(d) => d.as_str(),
            ToolLog::Error(d) => d.as_str(),
        }
    }
}

/// The format of the tool response
#[derive(Debug, Clone, Copy, PartialEq, Eq, Structural)]
pub enum ToolResponseFormat {
    Text,
    Json,
    Markdown,
}

impl Default for ToolResponseFormat {
    fn default() -> (r: Self)
        ensures
            r == ToolResponseFormat::Text,
    {
        ToolResponseFormat::Text
    }
}

/// Tool-related errors. Errors of `serde_json` and of I/O are held by their messages.
#[derive(Debug)]
pub enum ToolError {
    InvalidJsonSchema(String),
    InvalidConfiguration(String),
    InvalidParameters(String),
    ToolNotFound,
    ToolCallNotFound,
    FormattingError(String),
    SerializationError(String),
    ToolExecutionError(String),
    Cancelled(String),
    Io(String),
}

/// Standard result type for all tool operations
pub type ToolResult<T> = Result<T, ToolError>;

/// The message of a tool error.
pub open spec fn tool_error_message(e: ToolError) -> Seq<char> {
    match e {
        ToolError::InvalidJsonSchema(s) => "Invalid JSON schema: "@ + s@,
        ToolError::InvalidConfiguration(s) => "Invalid configuration: "@ + s@,
        ToolError::InvalidParameters(s) => "Input parameters don't match JSON schema: "@ + s@,
        ToolError::ToolNotFound => "Tool not found"@,
        ToolError::ToolCallNotFound => "Tool call not found"@,
        ToolError::FormattingError(s) => "Formatting error: "@ + s@,
        ToolError::SerializationError(_) => "Serialization error"@,
        ToolError::ToolExecutionError(s) => "Tool execution error: "@ + s@,
        ToolError::Cancelled(s) => "Tool execution cancelled: "@ + s@,
        ToolError::Io(s) => "IO error: "@ + s@,
    }
}

fn prefixed(prefix: &str, s: &str) -> (r: String)
    ensures
        r@ == prefix@ + s@,
{
    let mut r = prefix.to_string();
    push_str(&mut r, s);
    r
}

impl ToolError {
    /// The message of the error.
    pub fn message(&self) -> (r: String)
        ensures
            r@ == tool_error_message(*self),
    {
        match self {
            ToolError::InvalidJsonSchema(s) => prefixed("Invalid JSON schema: ", s.as_str()),
            ToolError::InvalidConfiguration(s) => prefixed("Invalid configuration: ", s.as_str()),
            ToolError::InvalidParameters(s) => prefixed(
                "Input parameters don't match JSON schema: ",
                s.as_str(),
            ),
            ToolError::ToolNotFound => "Tool not found".to_string(),
            ToolError::ToolCallNotFound => "Tool call not found".to_string(),
            ToolError::FormattingError(s) => prefixed("Formatting error: ", s.as_str()),
            ToolError::SerializationError(_) => "Serialization error".to_string(),
            ToolError::ToolExecutionError(s) => prefixed("Tool execution error: ", s.as_str()),
            ToolError::Cancelled(s) => prefixed("Tool execution cancelled: ", s.as_str()),
            ToolError::Io(s) => prefixed("IO error: ", s.as_str()),
        }
    }
}

/// JSON schema for tool input parameters
#[derive(Debug)]
pub struct ToolJsonSchema {
    pub schema_type: ToolJsonSchemaType,
    pub properties: Vec<(String, JsonValue)>,
    pub required: Option<Vec<String>>,
    pub additional_properties: Option<bool>,
}

/// Type of a tool's JSON schema: always an object.
#[derive(Debug, Clone, Copy, PartialEq, Eq, Structural)]
pub enum ToolJsonSchemaType {
    Object,
}

/// Tool input parameters: names and values.
pub type ToolParameters = Vec<(String, JsonValue)>;

/// Position of the first parameter of the given name, if any.
pub open spec fn param_position(params: Seq<(String, JsonValue)>, name: Seq<char>) -> Option<int>
    decreases params.len(),
{
    if params.len() == 0 {
        None
    } else if params[0].0@ == name {
        Some(0)
    } else {
        match param_position(params.skip(1), name) {
            Some(i) => Some(i + 1),
            None => None,
        }
    }
}

proof fn lemma_param_position(params: Seq<(String, JsonValue)>, name: Seq<char>)
    ensures
        match param_position(params, name) {
            Some(i) => 0 <= i < params.len() && params[i].0@ == name && forall|j: int|
                0 <= j < i ==> params[j].0@ != name,
            None => forall|j: int| 0 <= j < params.len() ==> params[j].0@ != name,
        },
    decreases params.len(),
{
    if params.len() > 0 {
        lemma_param_position(params.skip(1), name);
        if params[0].0@ != name {
            assert forall|j: int| 0 < j < params.len() implies params[j] == params.skip(1)[j - 1] by {}
        }
    }
}

/// The value of the parameter of the given name (the first one, if there are several).
pub fn get_param<'a>(params: &'a ToolParameters, name: &str) -> (r: Option<&'a JsonValue>)
    ensures
        match param_position(params@, name@) {
            Some(i) => r == Some(&params@[i].1),
            None => r is None,
        },
{
    proof {
        lemma_param_position(params@, name@);
    }
    for i in 0..params.len()
        invariant
            forall|j: int| 0 <= j < i ==> params@[j].0@ != name@,
            match param_position(params@, name@) {
                Some(k) => 0 <= k < params@.len() && params@[k].0@ == name@ && forall|j: int|
                    0 <= j < k ==> params@[j].0@ != name@,
                None => forall|j: int| 0 <= j < params@.len() ==> params@[j].0@ != name@,
            },
    {
        if str_eq(params[i].0.as_str(), name) {
            return Some(&params[i].1);
        }
    }
    None
}

/// An LLM tool, with its texts taken by their characters.
pub struct ToolDesc {
    pub name: Seq<char>,
    pub description: Seq<char>,
    pub input_schema: Seq<char>,
    pub tool_id: Uuid,
    pub tool_type: LlmToolType,
}

pub open spec fn tool_desc(t: LlmTool) -> ToolDesc {
    ToolDesc {
        name: t.name@,
        description: t.description@,
        input_schema: t.input_schema@,
        tool_id: t.tool_id,
        tool_type: t.tool_type,
    }
}

pub open spec fn tool_descs(ts: Seq<LlmTool>) -> Seq<ToolDesc> {
    ts.map_values(|t: LlmTool| tool_desc(t))
}

/// Make an LLM tool.
pub fn make_tool(name: &str, description: &str, input_schema: &str, tool_id: Uuid, tool_type: LlmToolType) -> (r:
    LlmTool)
    ensures
        tool_desc(r) == (ToolDesc {
            name: name@,
            description: description@,
            input_schema: input_schema@,
            tool_id,
            tool_type,
        }),
{
    LlmTool {
        name: name.to_string(),
        description: description.to_string(),
        input_schema: input_schema.to_string(),
        tool_id,
        tool_type,
    }
}

} // verus!
