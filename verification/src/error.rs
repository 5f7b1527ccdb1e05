//! How calls and tool sets fail.
use crate::json::{displays, error_message};
use vstd::prelude::*;
use vstd::string::StringExecFns;

verus! {

/// An error that words itself for a reader.
pub trait ErrorMessage {
    /// The error in words.
    fn message(&self) -> String;
}

/// Whether `text` is how `error` may word itself.
pub open spec fn may_say<E: ErrorMessage>(error: &E, text: Seq<char>) -> bool {
    exists|said: String| said@ == text && #[trigger] call_ensures(E::message, (error,), said)
}

/// Puts `label` before `text`.
fn labelled(label: &str, text: &str) -> (message: String)
    ensures
        message@ == label@ + text@,
{
    let mut message = String::new();
    message.append(label);
    message.append(text);
    message
}

/// The failure of a call to an MCP tool.
#[derive(Debug)]
pub struct McpToolError(String);

impl View for McpToolError {
    type V = Seq<char>;

    /// What went wrong.
    closed spec fn view(&self) -> Seq<char> {
        self.0@
    }
}

impl McpToolError {
    /// The failure that `text` tells of.
    pub fn new(text: String) -> (error: Self)
        ensures
            error@ == text@,
    {
        McpToolError(text)
    }
}

impl ErrorMessage for McpToolError {
    fn message(&self) -> (text: String)
        ensures
            text@ == "MCP tool error: "@ + self@,
    {
        labelled("MCP tool error: ", self.0.as_str())
    }
}

/// The failure of a call to a tool whose own errors are of type `E`.
#[derive(Debug)]
pub enum ToolError<E> {
    /// The error that the tool returned.
    ToolCallError(E),
    /// The arguments could not be read, or the output not written.
    JsonError(serde_json::Error),
}

impl<E: ErrorMessage> ErrorMessage for ToolError<E> {
    fn message(&self) -> (text: String)
        ensures
            match *self {
                ToolError::ToolCallError(error) => exists|inner: Seq<char>| #[trigger]
                    may_say(&error, inner) && text@ == "ToolCallError: "@ + inner,
                ToolError::JsonError(error) => exists|inner: Seq<char>| #[trigger]
                    displays(error, inner) && text@ == "JsonError: "@ + inner,
            },
    {
        match self {
            ToolError::ToolCallError(error) => {
                let inner = error.message();
                assert(may_say(error, inner@));
                labelled("ToolCallError: ", inner.as_str())
            },
            ToolError::JsonError(error) => {
                let inner = error_message(error);
                labelled("JsonError: ", inner.as_str())
            },
        }
    }
}

impl From<McpToolError> for ToolError<McpToolError> {
    fn from(error: McpToolError) -> (wrapped: Self) {
        ToolError::ToolCallError(error)
    }
}

impl vstd::std_specs::convert::FromSpecImpl<McpToolError> for ToolError<McpToolError> {
    open spec fn obeys_from_spec() -> bool {
        true
    }

    open spec fn from_spec(error: McpToolError) -> Self {
        ToolError::ToolCallError(error)
    }
}

impl<E> From<serde_json::Error> for ToolError<E> {
    fn from(error: serde_json::Error) -> (wrapped: Self) {
        ToolError::JsonError(error)
    }
}

impl<E> vstd::std_specs::convert::FromSpecImpl<serde_json::Error> for ToolError<E> {
    open spec fn obeys_from_spec() -> bool {
        true
    }

    open spec fn from_spec(error: serde_json::Error) -> Self {
        ToolError::JsonError(error)
    }
}

/// The failure of a request to a tool set.
#[derive(Debug)]
pub enum ToolSetError<E> {
    /// The tool was called and failed.
    ToolCallError(ToolError<E>),
    /// There is no tool of this name.
    ToolNotFoundError(String),
    /// Something could not be written as JSON.
    JsonError(serde_json::Error),
    /// The call was interrupted, as a turn of several steps may be.
    Interrupted,
}

impl<E> ToolSetError<E> {
    /// Whether this says that there is no tool of this name.
    pub open spec fn is_not_found(self, toolname: Seq<char>) -> bool {
        self matches ToolSetError::ToolNotFoundError(name) && name@ == toolname
    }
}

impl<E: ErrorMessage> ErrorMessage for ToolSetError<E> {
    fn message(&self) -> (text: String)
        ensures
            match *self {
                ToolSetError::ToolCallError(error) => exists|inner: Seq<char>| #[trigger]
                    may_say(&error, inner) && text@ == "ToolCallError: "@ + inner,
                ToolSetError::ToolNotFoundError(name) => text@ == "ToolNotFoundError: "@ + name@,
                ToolSetError::JsonError(error) => exists|inner: Seq<char>| #[trigger]
                    displays(error, inner) && text@ == "JsonError: "@ + inner,
                ToolSetError::Interrupted => text@ == "Tool call interrupted"@,
            },
    {
        match self {
            ToolSetError::ToolCallError(error) => {
                let inner = error.message();
                assert(may_say(error, inner@));
                labelled("ToolCallError: ", inner.as_str())
            },
            ToolSetError::ToolNotFoundError(name) => labelled("ToolNotFoundError: ", name.as_str()),
            ToolSetError::JsonError(error) => {
                let inner = error_message(error);
                labelled("JsonError: ", inner.as_str())
            },
            ToolSetError::Interrupted => "Tool call interrupted".to_string(),
        }
    }
}

impl<E> From<ToolError<E>> for ToolSetError<E> {
    fn from(error: ToolError<E>) -> (wrapped: Self) {
        ToolSetError::ToolCallError(error)
    }
}

impl<E> vstd::std_specs::convert::FromSpecImpl<ToolError<E>> for ToolSetError<E> {
    open spec fn obeys_from_spec() -> bool {
        true
    }

    open spec fn from_spec(error: ToolError<E>) -> Self {
        ToolSetError::ToolCallError(error)
    }
}

impl<E> From<serde_json::Error> for ToolSetError<E> {
    fn from(error: serde_json::Error) -> (wrapped: Self) {
        ToolSetError::JsonError(error)
    }
}

impl<E> vstd::std_specs::convert::FromSpecImpl<serde_json::Error> for ToolSetError<E> {
    open spec fn obeys_from_spec() -> bool {
        true
    }

    open spec fn from_spec(error: serde_json::Error) -> Self {
        ToolSetError::JsonError(error)
    }
}

/// Why a tool has no schema to embed: its context could not be written as JSON.
#[derive(Debug)]
pub struct EmbedError(pub serde_json::Error);

impl ErrorMessage for EmbedError {
    fn message(&self) -> (text: String)
        ensures
            displays(self.0, text@),
    {
        error_message(&self.0)
    }
}

} // verus!
