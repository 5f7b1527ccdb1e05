//! What a model is told of a tool.
use crate::json::{object_into_value, object_value};
use crate::model::ToolInfo;
use vstd::prelude::*;

verus! {

/// A tool as it is described to a model.
#[derive(Debug)]
pub struct ToolDefinition {
    /// The name to call the tool by.
    pub name: String,
    /// What the tool does.
    pub description: String,
    /// The JSON schema of the tool's arguments.
    pub parameters: serde_json::Value,
}

impl ToolDefinition {
    /// Whether this is how the tool that a server lists as `info` is described: by its name, by
    /// its description or by an empty one, and by its schema.
    pub open spec fn describes(self, info: ToolInfo) -> bool {
        &&& self.name@ == info.name@
        &&& self.description@ == match info.description {
            Some(description) => description@,
            None => Seq::empty(),
        }
        &&& self.parameters == object_value(info.input_schema)
    }
}

/// A description, or an empty text where there is none.
pub(crate) fn description_or_empty(description: &Option<String>) -> (text: String)
    ensures
        text@ == match *description {
            Some(description) => description@,
            None => Seq::empty(),
        },
{
    match description {
        Some(description) => description.clone(),
        None => String::new(),
    }
}

impl From<&ToolInfo> for ToolDefinition {
    fn from(info: &ToolInfo) -> (definition: Self)
        ensures
            definition.describes(*info),
    {
        ToolDefinition {
            name: info.name.clone(),
            description: description_or_empty(&info.description),
            parameters: object_into_value(info.input_schema.clone()),
        }
    }
}

/// A description that is missing becomes a new string, of which a spec function knows the
/// characters alone: the conversion is specified by [`ToolDefinition::describes`].
impl vstd::std_specs::convert::FromSpecImpl<&ToolInfo> for ToolDefinition {
    open spec fn obeys_from_spec() -> bool {
        false
    }

    open spec fn from_spec(info: &ToolInfo) -> Self {
        arbitrary()
    }
}

impl From<ToolInfo> for ToolDefinition {
    fn from(info: ToolInfo) -> (definition: Self)
        ensures
            definition.describes(info),
    {
        ToolDefinition::from(&info)
    }
}

/// Specified as the conversion from a reference is.
impl vstd::std_specs::convert::FromSpecImpl<ToolInfo> for ToolDefinition {
    open spec fn obeys_from_spec() -> bool {
        false
    }

    open spec fn from_spec(info: ToolInfo) -> Self {
        arbitrary()
    }
}

} // verus!
