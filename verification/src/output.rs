//! What a call to a tool gives back.
use crate::model::CallToolResult;
use crate::text::joined;
use vstd::prelude::*;

verus! {

/// Output from a tool call: plain text, or the whole answer of an MCP server.
#[derive(Debug)]
pub enum ToolOutput {
    /// The text that a tool outside MCP returned.
    Text(String),
    /// The answer of an MCP tool, all of its content kept.
    Mcp(CallToolResult),
}

impl ToolOutput {
    /// The output as text. For an MCP answer these are its texts, a line break between them;
    /// items of other kinds are left out.
    pub open spec fn text(self) -> Seq<char> {
        match self {
            ToolOutput::Text(text) => text@,
            ToolOutput::Mcp(result) => joined(result.texts(), "\n"@),
        }
    }

    /// Whether this is an MCP answer that its server marked as failed.
    pub open spec fn failed(self) -> bool {
        match self {
            ToolOutput::Text(_) => false,
            ToolOutput::Mcp(result) => result.failed(),
        }
    }

    /// Whether two outputs hold the same.
    pub open spec fn same_as(self, other: ToolOutput) -> bool {
        match (self, other) {
            (ToolOutput::Text(a), ToolOutput::Text(b)) => a == b,
            (ToolOutput::Mcp(a), ToolOutput::Mcp(b)) => a.same_as(b),
            _ => false,
        }
    }

    /// The output as text. What an MCP answer holds besides text is in [`ToolOutput::as_mcp`].
    pub fn as_text(&self) -> (text: String)
        ensures
            text@ == self.text(),
    {
        match self {
            ToolOutput::Text(text) => text.clone(),
            ToolOutput::Mcp(result) => result.joined_texts(),
        }
    }

    /// Whether this is an MCP answer.
    pub fn is_mcp(&self) -> (mcp: bool)
        ensures
            mcp == (self is Mcp),
    {
        match self {
            ToolOutput::Text(_) => false,
            ToolOutput::Mcp(_) => true,
        }
    }

    /// The MCP answer, if this is one.
    pub fn as_mcp(&self) -> (result: Option<&CallToolResult>)
        ensures
            result == match *self {
                ToolOutput::Text(_) => None,
                ToolOutput::Mcp(result) => Some(&result),
            },
    {
        match self {
            ToolOutput::Mcp(result) => Some(result),
            _ => None,
        }
    }

    /// Whether this is an MCP answer that its server marked as failed.
    pub fn is_error(&self) -> (error: bool)
        ensures
            error == self.failed(),
    {
        match self {
            ToolOutput::Text(_) => false,
            ToolOutput::Mcp(result) => result.is_error.unwrap_or(false),
        }
    }
}

impl Clone for ToolOutput {
    fn clone(&self) -> (copy: Self)
        ensures
            copy.same_as(*self),
    {
        match self {
            ToolOutput::Text(text) => ToolOutput::Text(text.clone()),
            ToolOutput::Mcp(result) => ToolOutput::Mcp(result.clone()),
        }
    }
}

impl From<String> for ToolOutput {
    fn from(text: String) -> (output: Self) {
        ToolOutput::Text(text)
    }
}

impl vstd::std_specs::convert::FromSpecImpl<String> for ToolOutput {
    open spec fn obeys_from_spec() -> bool {
        true
    }

    open spec fn from_spec(text: String) -> Self {
        ToolOutput::Text(text)
    }
}

impl From<CallToolResult> for ToolOutput {
    fn from(result: CallToolResult) -> (output: Self) {
        ToolOutput::Mcp(result)
    }
}

impl vstd::std_specs::convert::FromSpecImpl<CallToolResult> for ToolOutput {
    open spec fn obeys_from_spec() -> bool {
        true
    }

    open spec fn from_spec(result: CallToolResult) -> Self {
        ToolOutput::Mcp(result)
    }
}

} // verus!
