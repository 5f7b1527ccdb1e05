//! Tools that a language model can call, and sets of them.
//!
//! A [`toolset::ToolSet`] holds tools by name and calls them; [`mcp::McpTool`] is a tool that an
//! MCP server provides; [`output::ToolOutput`] is what a call gives back. Tools run
//! asynchronously: the functions of this library say what is to be awaited and what follows from
//! what came back, and whoever uses them awaits it.
pub mod answer_laws;
pub mod builder;
pub mod definition;
pub mod document;
pub mod error;
pub mod json;
pub mod laws;
pub mod mcp;
pub mod model;
pub mod naming;
pub mod output;
pub mod run;
pub mod schema;
pub mod set_laws;
pub mod text;
pub mod tool;
pub mod tool_laws;
pub mod toolset;
