//! Tools, and the kinds in which a tool set holds them.
//!
//! Describing and calling a tool may have to wait, so both hand back what is to be awaited: a
//! tool names the types of these in its associated types. What was awaited then goes to the
//! function that says what follows from it.
use crate::error::ToolError;
use crate::model::CallToolResult;
use crate::output::ToolOutput;
use vstd::prelude::*;

verus! {

/// A tool with arguments and output of its own types.
///
/// A call reads the arguments from JSON, calls the tool and writes its output as JSON. Between
/// these steps stand [`begin_call`], [`called`] and [`written`].
pub trait Tool: Sized {
    /// The name of the tool. It should be unique.
    const NAME: &'static str;

    /// The error type of the tool.
    type Error;

    /// The arguments type of the tool.
    type Args;

    /// The output type of the tool.
    type Output;

    /// What is awaited for the definition.
    type DefinitionFuture<'a> where Self: 'a;

    /// What is awaited for the output of a call.
    type CallFuture<'a> where Self: 'a;

    /// The name of the tool.
    fn name(&self) -> (name: String)
        default_ensures
            name@ == Self::NAME@,
    {
        Self::NAME.to_string()
    }

    /// Asks for the definition of the tool, which may be tailored to the prompt of the user.
    fn definition<'a>(&'a self, prompt: String) -> Self::DefinitionFuture<'a>;

    /// Calls the tool.
    fn call<'a>(&'a self, args: Self::Args) -> Self::CallFuture<'a>;
}

/// A tool that can be kept in a vector store and retrieved from it.
pub trait ToolEmbedding: Tool {
    /// The error type of [`ToolEmbedding::init`].
    type InitError;

    /// What is saved with the tool and loaded again: its configuration and local context.
    type Context;

    /// What the tool is given when it is set up: clients, keys and the like.
    type State;

    /// The documents by which the tool is found, or none if it is not to be retrieved.
    fn embedding_docs(&self) -> Vec<String>;

    /// The context of the tool.
    fn context(&self) -> Self::Context;

    /// Sets the tool up from a state and a context.
    fn init(state: Self::State, context: Self::Context) -> Result<Self, Self::InitError>;
}

/// Whether `begun` is what beginning a call may hand back: what the tool hands back for the
/// arguments, or why they could not be read.
pub open spec fn may_begin<'a, T: Tool>(
    tool: &'a T,
    args: Result<T::Args, serde_json::Error>,
    begun: Result<T::CallFuture<'a>, ToolError<T::Error>>,
) -> bool {
    match (args, begun) {
        (Ok(args), Ok(future)) => call_ensures(T::call, (tool, args), future),
        (Err(error), Err(ToolError::JsonError(returned))) => returned == error,
        _ => false,
    }
}

/// Begins a call, given what reading the arguments came to.
pub fn begin_call<'a, T: Tool>(
    tool: &'a T,
    args: Result<T::Args, serde_json::Error>,
) -> (begun: Result<T::CallFuture<'a>, ToolError<T::Error>>)
    ensures
        may_begin(tool, args, begun),
{
    match args {
        Ok(args) => Ok(tool.call(args)),
        Err(error) => Err(ToolError::JsonError(error)),
    }
}

/// What is to be written as JSON, given what the tool returned.
pub open spec fn output_to_write<O, E>(returned: Result<O, E>) -> Result<O, ToolError<E>> {
    match returned {
        Ok(output) => Ok(output),
        Err(error) => Err(ToolError::ToolCallError(error)),
    }
}

/// What is to be written as JSON, given what the tool returned.
pub fn called<O, E>(returned: Result<O, E>) -> (output: Result<O, ToolError<E>>)
    ensures
        output == output_to_write(returned),
{
    match returned {
        Ok(output) => Ok(output),
        Err(error) => Err(ToolError::ToolCallError(error)),
    }
}

/// What the call comes to, given what writing the output came to.
pub open spec fn text_of_output<E>(json: Result<String, serde_json::Error>) -> Result<
    String,
    ToolError<E>,
> {
    match json {
        Ok(json) => Ok(json),
        Err(error) => Err(ToolError::JsonError(error)),
    }
}

/// What the call comes to, given what writing the output came to.
pub fn written<E>(json: Result<String, serde_json::Error>) -> (outcome: Result<
    String,
    ToolError<E>,
>)
    ensures
        outcome == text_of_output::<E>(json),
{
    match json {
        Ok(json) => Ok(json),
        Err(error) => Err(ToolError::JsonError(error)),
    }
}

/// A tool that takes its arguments and returns its output as text.
pub trait ToolDyn {
    /// What is awaited for the definition.
    type DefinitionFuture<'a> where Self: 'a;

    /// What is awaited for the output of a call.
    type CallFuture<'a> where Self: 'a;

    /// The name of the tool.
    fn name(&self) -> String;

    /// Asks for the definition of the tool.
    fn definition<'a>(&'a self, prompt: String) -> Self::DefinitionFuture<'a>;

    /// Calls the tool.
    fn call<'a>(&'a self, args: String) -> Self::CallFuture<'a>;
}

/// A tool that can be embedded, with its context as JSON.
pub trait ToolEmbeddingDyn: ToolDyn {
    /// The context of the tool.
    fn context(&self) -> Result<serde_json::Value, serde_json::Error>;

    /// The documents by which the tool is found.
    fn embedding_docs(&self) -> Vec<String>;
}

/// A tool that can return the whole answer of an MCP server.
pub trait McpToolDyn: ToolDyn {
    /// What is awaited for the answer.
    type McpFuture<'a> where Self: 'a;

    /// What is awaited for the answer as an output.
    type OutputFuture<'a> where Self: 'a;

    /// Calls the tool for the whole answer: every item, annotations and structured content
    /// among them.
    fn call_mcp<'a>(&'a self, args: String) -> Self::McpFuture<'a>;

    /// Calls the tool for the whole answer as an output; see [`mcp_output`].
    fn call_mcp_output<'a>(&'a self, args: String) -> Self::OutputFuture<'a>;
}

/// The output that keeps a whole answer, given what [`McpToolDyn::call_mcp`] came to.
pub open spec fn answer_as_output<X>(answer: Result<CallToolResult, ToolError<X>>) -> Result<
    ToolOutput,
    ToolError<X>,
> {
    match answer {
        Ok(result) => Ok(ToolOutput::Mcp(result)),
        Err(error) => Err(error),
    }
}

/// The output that keeps a whole answer, given what [`McpToolDyn::call_mcp`] came to.
pub fn mcp_output<X>(answer: Result<CallToolResult, ToolError<X>>) -> (output: Result<
    ToolOutput,
    ToolError<X>,
>)
    ensures
        output == answer_as_output(answer),
{
    match answer {
        Ok(result) => Ok(ToolOutput::Mcp(result)),
        Err(error) => Err(error),
    }
}

/// Something that depends on the kind of a tool.
#[derive(Debug)]
pub enum ByKind<A, B, C> {
    Simple(A),
    Embedding(B),
    Mcp(C),
}

impl<A> ByKind<A, A, A> {
    /// What is the same type for every kind.
    pub open spec fn inner(self) -> A {
        match self {
            ByKind::Simple(inner) => inner,
            ByKind::Embedding(inner) => inner,
            ByKind::Mcp(inner) => inner,
        }
    }

    /// Takes out what is the same type for every kind.
    pub fn into_inner(self) -> (inner: A)
        ensures
            inner == self.inner(),
    {
        match self {
            ByKind::Simple(inner) => inner,
            ByKind::Embedding(inner) => inner,
            ByKind::Mcp(inner) => inner,
        }
    }
}

/// A tool of one of three kinds.
pub enum ToolType<S, E, M> {
    Simple(Box<S>),
    Embedding(Box<E>),
    Mcp(Box<M>),
}

/// Whether `name` is what `tool` may give as its name.
pub open spec fn may_be_named<T: ToolDyn>(tool: &T, name: Seq<char>) -> bool {
    exists|given: String| given@ == name && #[trigger] call_ensures(T::name, (tool,), given)
}

impl<S: ToolDyn, E: ToolEmbeddingDyn, M: McpToolDyn> ToolType<S, E, M> {
    /// Whether `name` is what the tool may give as its name.
    pub open spec fn may_be_named(self, name: Seq<char>) -> bool {
        match self {
            ToolType::Simple(tool) => may_be_named(&*tool, name),
            ToolType::Embedding(tool) => may_be_named(&*tool, name),
            ToolType::Mcp(tool) => may_be_named(&*tool, name),
        }
    }

    /// Whether `pending` is what asking the tool for its definition may hand back.
    pub open spec fn may_define<'a>(
        self,
        prompt: String,
        pending: ByKind<S::DefinitionFuture<'a>, E::DefinitionFuture<'a>, M::DefinitionFuture<'a>>,
    ) -> bool {
        match (self, pending) {
            (ToolType::Simple(tool), ByKind::Simple(future)) => call_ensures(
                S::definition,
                (&*tool, prompt),
                future,
            ),
            (ToolType::Embedding(tool), ByKind::Embedding(future)) => call_ensures(
                E::definition,
                (&*tool, prompt),
                future,
            ),
            (ToolType::Mcp(tool), ByKind::Mcp(future)) => call_ensures(
                M::definition,
                (&*tool, prompt),
                future,
            ),
            _ => false,
        }
    }

    /// Whether `pending` is what calling the tool may hand back.
    pub open spec fn may_call<'a>(
        self,
        args: String,
        pending: ByKind<S::CallFuture<'a>, E::CallFuture<'a>, M::CallFuture<'a>>,
    ) -> bool {
        match (self, pending) {
            (ToolType::Simple(tool), ByKind::Simple(future)) => call_ensures(
                S::call,
                (&*tool, args),
                future,
            ),
            (ToolType::Embedding(tool), ByKind::Embedding(future)) => call_ensures(
                E::call,
                (&*tool, args),
                future,
            ),
            (ToolType::Mcp(tool), ByKind::Mcp(future)) => call_ensures(
                M::call,
                (&*tool, args),
                future,
            ),
            _ => false,
        }
    }

    /// Whether `pending` is what calling the tool for an output may hand back. An MCP tool is
    /// asked for its whole answer.
    pub open spec fn may_call_mcp<'a>(
        self,
        args: String,
        pending: ByKind<S::CallFuture<'a>, E::CallFuture<'a>, M::OutputFuture<'a>>,
    ) -> bool {
        match (self, pending) {
            (ToolType::Simple(tool), ByKind::Simple(future)) => call_ensures(
                S::call,
                (&*tool, args),
                future,
            ),
            (ToolType::Embedding(tool), ByKind::Embedding(future)) => call_ensures(
                E::call,
                (&*tool, args),
                future,
            ),
            (ToolType::Mcp(tool), ByKind::Mcp(future)) => call_ensures(
                M::call_mcp_output,
                (&*tool, args),
                future,
            ),
            _ => false,
        }
    }

    /// The name of the tool.
    pub fn name(&self) -> (name: String)
        ensures
            self.may_be_named(name@),
    {
        match self {
            ToolType::Simple(tool) => tool.name(),
            ToolType::Embedding(tool) => tool.name(),
            ToolType::Mcp(tool) => tool.name(),
        }
    }

    /// Asks for the definition of the tool.
    pub fn definition<'a>(&'a self, prompt: String) -> (pending: ByKind<
        S::DefinitionFuture<'a>,
        E::DefinitionFuture<'a>,
        M::DefinitionFuture<'a>,
    >)
        ensures
            self.may_define(prompt, pending),
    {
        match self {
            ToolType::Simple(tool) => ByKind::Simple(tool.definition(prompt)),
            ToolType::Embedding(tool) => ByKind::Embedding(tool.definition(prompt)),
            ToolType::Mcp(tool) => ByKind::Mcp(tool.definition(prompt)),
        }
    }

    /// Calls the tool.
    pub fn call<'a>(&'a self, args: String) -> (pending: ByKind<
        S::CallFuture<'a>,
        E::CallFuture<'a>,
        M::CallFuture<'a>,
    >)
        ensures
            self.may_call(args, pending),
    {
        match self {
            ToolType::Simple(tool) => ByKind::Simple(tool.call(args)),
            ToolType::Embedding(tool) => ByKind::Embedding(tool.call(args)),
            ToolType::Mcp(tool) => ByKind::Mcp(tool.call(args)),
        }
    }

    /// Calls the tool for an output: text, or for an MCP tool the whole answer. What came back
    /// goes to [`call_output`].
    pub fn call_mcp<'a>(&'a self, args: String) -> (pending: ByKind<
        S::CallFuture<'a>,
        E::CallFuture<'a>,
        M::OutputFuture<'a>,
    >)
        ensures
            self.may_call_mcp(args, pending),
    {
        match self {
            ToolType::Simple(tool) => ByKind::Simple(tool.call(args)),
            ToolType::Embedding(tool) => ByKind::Embedding(tool.call(args)),
            ToolType::Mcp(tool) => ByKind::Mcp(tool.call_mcp_output(args)),
        }
    }
}

impl<S, E, M> ToolType<S, E, M> {
    /// Whether this is an MCP tool.
    pub fn is_mcp(&self) -> (mcp: bool)
        ensures
            mcp == (self is Mcp),
    {
        match self {
            ToolType::Mcp(_) => true,
            _ => false,
        }
    }
}

/// The output of a call, given what [`ToolType::call_mcp`] came to: for an MCP tool its own
/// output, and for any other the text that it returned.
pub open spec fn output_of<X>(
    returned: ByKind<
        Result<String, ToolError<X>>,
        Result<String, ToolError<X>>,
        Result<ToolOutput, ToolError<X>>,
    >,
) -> Result<ToolOutput, ToolError<X>> {
    match returned {
        ByKind::Simple(Ok(text)) => Ok(ToolOutput::Text(text)),
        ByKind::Simple(Err(error)) => Err(error),
        ByKind::Embedding(Ok(text)) => Ok(ToolOutput::Text(text)),
        ByKind::Embedding(Err(error)) => Err(error),
        ByKind::Mcp(output) => output,
    }
}

/// The text that a tool outside MCP returned, as an output.
fn text_output<X>(returned: Result<String, ToolError<X>>) -> (output: Result<
    ToolOutput,
    ToolError<X>,
>)
    ensures
        output == match returned {
            Ok(text) => Ok::<ToolOutput, ToolError<X>>(ToolOutput::Text(text)),
            Err(error) => Err::<ToolOutput, ToolError<X>>(error),
        },
{
    match returned {
        Ok(text) => Ok(ToolOutput::Text(text)),
        Err(error) => Err(error),
    }
}

/// The output of a call, given what [`ToolType::call_mcp`] came to.
pub fn call_output<X>(
    returned: ByKind<
        Result<String, ToolError<X>>,
        Result<String, ToolError<X>>,
        Result<ToolOutput, ToolError<X>>,
    >,
) -> (output: Result<ToolOutput, ToolError<X>>)
    ensures
        output == output_of(returned),
{
    match returned {
        ByKind::Simple(returned) => text_output(returned),
        ByKind::Embedding(returned) => text_output(returned),
        ByKind::Mcp(output) => output,
    }
}

} // verus!
