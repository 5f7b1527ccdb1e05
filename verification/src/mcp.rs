//! A tool that an MCP server provides.
use crate::definition::{description_or_empty, ToolDefinition};
use crate::error::{McpToolError, ToolError};
use crate::json::{object_from_str, object_in, object_to_value, JsonObject};
use crate::model::{CallToolRequestParam, CallToolResult, ToolInfo};
use crate::tool::{McpToolDyn, ToolDyn};
use vstd::prelude::*;
use vstd::string::StringExecFns;

verus! {

/// A tool that an MCP server provides, with the client `C` through which it is reached.
///
/// A call has two halves around the exchange with the server: what is sent is
/// [`McpTool::call`] or [`McpTool::call_mcp`], and what the answer comes to is
/// [`call_outcome`] or [`call_mcp_outcome`].
pub struct McpTool<C> {
    definition: ToolInfo,
    client: C,
}

/// The arguments that a text stands for: the object that it holds, and none where it holds
/// `null` or is not read as an object at all.
pub open spec fn arguments_in(text: Seq<char>) -> Option<JsonObject> {
    match object_in(text) {
        Some(object) => object,
        None => None,
    }
}

/// Whether `request` calls the tool that a server lists as `info` with the arguments that `args`
/// stands for.
pub open spec fn calls(request: CallToolRequestParam, info: ToolInfo, args: Seq<char>) -> bool {
    &&& request.name@ == info.name@
    &&& request.arguments == arguments_in(args)
}

impl<C> McpTool<C> {
    /// What the server says of the tool.
    pub closed spec fn info(self) -> ToolInfo {
        self.definition
    }

    /// The client through which the tool is reached.
    pub closed spec fn reached_through(self) -> C {
        self.client
    }

    /// The tool that a server lists as `definition` and that is reached through `client`.
    pub fn from_mcp_server(definition: ToolInfo, client: C) -> (tool: Self)
        ensures
            tool.info() == definition,
            tool.reached_through() == client,
    {
        McpTool { definition, client }
    }

    /// The client through which the tool is reached.
    pub fn client(&self) -> (client: &C)
        ensures
            *client == self.reached_through(),
    {
        &self.client
    }

    /// The name of the tool.
    pub fn name(&self) -> (name: String)
        ensures
            name@ == self.info().name@,
    {
        self.definition.name.clone()
    }

    /// The definition of the tool, which is the same for every prompt.
    pub fn definition(&self, _prompt: String) -> (definition: ToolDefinition)
        ensures
            definition.describes(self.info()),
    {
        ToolDefinition {
            name: self.definition.name.clone(),
            description: description_or_empty(&self.definition.description),
            parameters: object_to_value(&self.definition.input_schema),
        }
    }

    /// What is sent to the server, given what reading the arguments came to. Arguments that
    /// could not be read are left out.
    pub fn request(&self, arguments: Result<Option<JsonObject>, serde_json::Error>) -> (request:
        CallToolRequestParam)
        ensures
            request.name@ == self.info().name@,
            request.arguments == match arguments {
                Ok(arguments) => arguments,
                Err(_) => None,
            },
    {
        let arguments = match arguments {
            Ok(arguments) => arguments,
            Err(_) => None,
        };
        CallToolRequestParam { name: self.definition.name.clone(), arguments }
    }

    /// What is sent to the server to call the tool with `args`. The answer goes to
    /// [`call_outcome`].
    pub fn call(&self, args: String) -> (request: CallToolRequestParam)
        ensures
            calls(request, self.info(), args@),
    {
        self.request(object_from_str(args.as_str()))
    }

    /// What is sent to the server to call the tool with `args`. The answer goes to
    /// [`call_mcp_outcome`].
    pub fn call_mcp(&self, args: String) -> (request: CallToolRequestParam)
        ensures
            calls(request, self.info(), args@),
    {
        self.request(object_from_str(args.as_str()))
    }
}

/// What is awaited is the server's answer to a request, so the request is handed back. The answer
/// goes to [`call_outcome`].
impl<C: 'static> ToolDyn for McpTool<C> {
    type DefinitionFuture<'a> = ToolDefinition;

    type CallFuture<'a> = CallToolRequestParam;

    fn name(&self) -> (name: String)
        ensures
            name@ == self.info().name@,
    {
        self.name()
    }

    fn definition<'a>(&'a self, prompt: String) -> (definition: ToolDefinition)
        ensures
            definition.describes(self.info()),
    {
        self.definition(prompt)
    }

    fn call<'a>(&'a self, args: String) -> (request: CallToolRequestParam)
        ensures
            calls(request, self.info(), args@),
    {
        self.call(args)
    }
}

/// The answer to a request goes to [`call_mcp_outcome`], and from there to
/// [`crate::tool::mcp_output`] where an output is asked for.
impl<C: 'static> McpToolDyn for McpTool<C> {
    type McpFuture<'a> = CallToolRequestParam;

    type OutputFuture<'a> = CallToolRequestParam;

    fn call_mcp<'a>(&'a self, args: String) -> (request: CallToolRequestParam)
        ensures
            calls(request, self.info(), args@),
    {
        self.call_mcp(args)
    }

    fn call_mcp_output<'a>(&'a self, args: String) -> (request: CallToolRequestParam)
        ensures
            calls(request, self.info(), args@),
    {
        self.call_mcp(args)
    }
}

impl<C: Clone> Clone for McpTool<C> {
    fn clone(&self) -> (copy: Self)
        ensures
            copy.info() == self.info(),
            cloned::<C>(self.reached_through(), copy.reached_through()),
    {
        McpTool { definition: self.definition.clone(), client: self.client.clone() }
    }
}

/// Puts `label` before what the service said of its failure.
fn service_failure(label: &str, failure: &str) -> (error: McpToolError)
    ensures
        error@ == label@ + failure@,
{
    let mut text = String::new();
    text.append(label);
    text.append(failure);
    McpToolError::new(text)
}

/// The index of the first item for which an answer comes to nothing. There is none in an answer
/// that is marked as failed; in any other it is an item that has no rendering as text.
pub fn unsupported_item(result: &CallToolResult) -> (index: Option<usize>)
    ensures
        match index {
            Some(index) => {
                &&& !result.failed()
                &&& index < result.content@.len()
                &&& !result.content@[index as int].raw.renderable()
                &&& forall|i: int|
                    0 <= i < index ==> (#[trigger] result.content@[i]).raw.renderable()
            },
            None => result.failed() || result.renderable(),
        },
{
    if let Some(true) = result.is_error {
        None
    } else {
        result.first_unrenderable()
    }
}

/// Whether `outcome` is what a call comes to, given what came back: the rendering of an answer,
/// and an error where there was none or it is marked as failed.
pub open spec fn comes_to(
    answer: Result<CallToolResult, String>,
    outcome: Result<String, ToolError<McpToolError>>,
) -> bool {
    match (answer, outcome) {
        (Err(failure), Err(ToolError::ToolCallError(error))) => error@
            == "Tool returned an error: "@ + failure@,
        (Ok(result), Err(ToolError::ToolCallError(error))) => result.failed() && error@
            == result.failure(),
        (Ok(result), Ok(text)) => !result.failed() && text@ == result.rendering(),
        _ => false,
    }
}

/// What a call comes to, given what came back: the server's answer, or how the service words
/// its failure to get one.
///
/// An answer that is not marked as failed comes to the rendering of its items, so each of them
/// must have one; see [`unsupported_item`].
pub fn call_outcome(answer: Result<CallToolResult, String>) -> (outcome: Result<
    String,
    ToolError<McpToolError>,
>)
    requires
        answer matches Ok(result) ==> result.failed() || result.renderable(),
    ensures
        comes_to(answer, outcome),
{
    match answer {
        Err(failure) => Err(
            ToolError::from(service_failure("Tool returned an error: ", failure.as_str())),
        ),
        Ok(result) => {
            if let Some(true) = result.is_error {
                Err(ToolError::from(McpToolError::new(result.failure_message())))
            } else {
                Ok(result.render())
            }
        },
    }
}

/// Whether `outcome` is what a call that keeps the whole answer comes to, given what came back:
/// the answer, and an error where there was none.
pub open spec fn comes_to_whole(
    answer: Result<CallToolResult, String>,
    outcome: Result<CallToolResult, ToolError<McpToolError>>,
) -> bool {
    match (answer, outcome) {
        (Err(failure), Err(ToolError::ToolCallError(error))) => error@ == "Tool call failed: "@
            + failure@,
        (Ok(result), Ok(kept)) => kept == result,
        _ => false,
    }
}

/// What a call that keeps the whole answer comes to, given what came back: the server's answer,
/// or how the service words its failure to get one.
pub fn call_mcp_outcome(answer: Result<CallToolResult, String>) -> (outcome: Result<
    CallToolResult,
    ToolError<McpToolError>,
>)
    ensures
        comes_to_whole(answer, outcome),
{
    match answer {
        Err(failure) => Err(
            ToolError::from(service_failure("Tool call failed: ", failure.as_str())),
        ),
        Ok(result) => Ok(result),
    }
}

} // verus!
