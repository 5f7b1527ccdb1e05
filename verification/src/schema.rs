//! What is embedded of a tool.
use crate::error::EmbedError;
use crate::tool::ToolEmbeddingDyn;
use vstd::prelude::*;

verus! {

/// A tool as it is embedded, so that all documents of an embedding are of one type.
#[derive(Debug)]
pub struct ToolSchema {
    /// The name of the tool.
    pub name: String,
    /// The context of the tool.
    pub context: serde_json::Value,
    /// The documents by which the tool is found.
    pub embedding_docs: Vec<String>,
}

impl ToolSchema {
    /// Whether this holds what `tool` may say of itself.
    pub open spec fn may_be_of<E: ToolEmbeddingDyn>(self, tool: &E) -> bool {
        &&& call_ensures(E::name, (tool,), self.name)
        &&& call_ensures(E::context, (tool,), Ok(self.context))
        &&& call_ensures(E::embedding_docs, (tool,), self.embedding_docs)
    }

    /// The schema of `tool`, unless its context is not to be had.
    pub fn of_tool<E: ToolEmbeddingDyn>(tool: &E) -> (schema: Result<ToolSchema, EmbedError>)
        ensures
            match schema {
                Ok(schema) => schema.may_be_of(tool),
                Err(error) => call_ensures(E::context, (tool,), Err(error.0)),
            },
    {
        let name = tool.name();
        match tool.context() {
            Ok(context) => Ok(ToolSchema { name, context, embedding_docs: tool.embedding_docs() }),
            Err(error) => Err(EmbedError(error)),
        }
    }
}

} // verus!
