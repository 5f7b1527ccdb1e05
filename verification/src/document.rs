//! Documents about tools.
use std::collections::HashMap;
use vstd::prelude::*;
use vstd::string::StringExecFns;

verus! {

/// A document that is given to a model.
#[derive(Debug)]
pub struct Document {
    /// By what the document is known.
    pub id: String,
    /// What the document says.
    pub text: String,
    /// What else is known of the document.
    pub additional_props: HashMap<String, String>,
}

/// What a document says of a tool: its name and its definition.
pub open spec fn text_on_tool(name: Seq<char>, definition: Seq<char>) -> Seq<char> {
    "Tool: "@ + name + "\nDefinition: \n"@ + definition
}

impl Document {
    /// Whether this is the document on the tool `name` with `definition`.
    pub open spec fn is_on_tool(self, name: Seq<char>, definition: Seq<char>) -> bool {
        &&& self.id@ == name
        &&& self.text@ == text_on_tool(name, definition)
        &&& self.additional_props@ == Map::<String, String>::empty()
    }

    /// The document on the tool `name`, whose definition is given as JSON.
    pub fn on_tool(name: String, definition: String) -> (document: Document)
        ensures
            document.is_on_tool(name@, definition@),
    {
        let mut text = String::new();
        text.append("Tool: ");
        text.append(name.as_str());
        text.append("\nDefinition: \n");
        text.append(definition.as_str());
        Document { id: name, text, additional_props: HashMap::new() }
    }
}

} // verus!
