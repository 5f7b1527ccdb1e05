//! What an MCP server says of a tool and answers to a call.
//!
//! The types follow `rmcp::model` in names and fields. Parts that nothing here reads, such as
//! metadata and annotations, are carried through unchanged.
use crate::json::JsonObject;
use crate::text::{join, joined, views};
use vstd::prelude::*;
use vstd::string::StringExecFns;

verus! {

/// `rmcp::model::Annotations`, for whom an item is meant and how much it matters.
#[verifier::external_type_specification]
#[verifier::external_body]
pub struct ExAnnotations(rmcp::model::Annotations);

/// `rmcp::model::RawResource`, a resource that an item points to.
#[verifier::external_type_specification]
#[verifier::external_body]
pub struct ExRawResource(rmcp::model::RawResource);

/// `clone` of `rmcp::model::Annotations` gives the same annotations again.
pub assume_specification[ <rmcp::model::Annotations as Clone>::clone ](
    annotations: &rmcp::model::Annotations,
) -> (copy: rmcp::model::Annotations)
    ensures
        copy == *annotations,
;

/// `clone` of `rmcp::model::RawResource` gives the same resource again.
pub assume_specification[ <rmcp::model::RawResource as Clone>::clone ](
    resource: &rmcp::model::RawResource,
) -> (copy: rmcp::model::RawResource)
    ensures
        copy == *resource,
;

/// A tool as its server lists it.
#[derive(Debug)]
pub struct ToolInfo {
    /// The name that the server knows the tool by.
    pub name: String,
    /// What the tool does, for the model that may call it.
    pub description: Option<String>,
    /// The JSON schema of the tool's arguments.
    pub input_schema: JsonObject,
}

/// A call as it is put to a server.
#[derive(Debug)]
pub struct CallToolRequestParam {
    /// The tool to call.
    pub name: String,
    /// What to call it with.
    pub arguments: Option<JsonObject>,
}

/// A text.
#[derive(Debug)]
pub struct RawTextContent {
    pub text: String,
    pub meta: Option<JsonObject>,
}

/// An image.
#[derive(Debug)]
pub struct RawImageContent {
    /// The image in base64.
    pub data: String,
    pub mime_type: String,
    pub meta: Option<JsonObject>,
}

/// A sound.
#[derive(Debug)]
pub struct RawAudioContent {
    /// The sound in base64.
    pub data: String,
    pub mime_type: String,
}

/// What is in a resource.
#[derive(Debug)]
pub enum ResourceContents {
    TextResourceContents {
        uri: String,
        mime_type: Option<String>,
        text: String,
        meta: Option<JsonObject>,
    },
    BlobResourceContents {
        uri: String,
        mime_type: Option<String>,
        blob: String,
        meta: Option<JsonObject>,
    },
}

/// A resource with its contents.
#[derive(Debug)]
pub struct RawEmbeddedResource {
    pub meta: Option<JsonObject>,
    pub resource: ResourceContents,
}

/// One item of an answer.
#[derive(Debug)]
pub enum RawContent {
    Text(RawTextContent),
    Image(RawImageContent),
    Resource(RawEmbeddedResource),
    Audio(RawAudioContent),
    ResourceLink(rmcp::model::RawResource),
}

/// One item of an answer, with its annotations.
#[derive(Debug)]
pub struct Content {
    pub raw: RawContent,
    pub annotations: Option<rmcp::model::Annotations>,
}

/// The answer to a call.
#[derive(Debug)]
pub struct CallToolResult {
    pub content: Vec<Content>,
    pub structured_content: Option<serde_json::Value>,
    /// Whether the call failed; a server may leave this open.
    pub is_error: Option<bool>,
    pub meta: Option<JsonObject>,
}

impl Clone for ToolInfo {
    fn clone(&self) -> (copy: Self)
        ensures
            copy == *self,
    {
        ToolInfo {
            name: self.name.clone(),
            description: self.description.clone(),
            input_schema: self.input_schema.clone(),
        }
    }
}

impl Clone for RawTextContent {
    fn clone(&self) -> (copy: Self)
        ensures
            copy == *self,
    {
        RawTextContent { text: self.text.clone(), meta: self.meta.clone() }
    }
}

impl Clone for RawImageContent {
    fn clone(&self) -> (copy: Self)
        ensures
            copy == *self,
    {
        RawImageContent {
            data: self.data.clone(),
            mime_type: self.mime_type.clone(),
            meta: self.meta.clone(),
        }
    }
}

impl Clone for RawAudioContent {
    fn clone(&self) -> (copy: Self)
        ensures
            copy == *self,
    {
        RawAudioContent { data: self.data.clone(), mime_type: self.mime_type.clone() }
    }
}

impl Clone for ResourceContents {
    fn clone(&self) -> (copy: Self)
        ensures
            copy == *self,
    {
        match self {
            ResourceContents::TextResourceContents { uri, mime_type, text, meta } => {
                ResourceContents::TextResourceContents {
                    uri: uri.clone(),
                    mime_type: mime_type.clone(),
                    text: text.clone(),
                    meta: meta.clone(),
                }
            },
            ResourceContents::BlobResourceContents { uri, mime_type, blob, meta } => {
                ResourceContents::BlobResourceContents {
                    uri: uri.clone(),
                    mime_type: mime_type.clone(),
                    blob: blob.clone(),
                    meta: meta.clone(),
                }
            },
        }
    }
}

impl Clone for RawEmbeddedResource {
    fn clone(&self) -> (copy: Self)
        ensures
            copy == *self,
    {
        RawEmbeddedResource { meta: self.meta.clone(), resource: self.resource.clone() }
    }
}

impl Clone for RawContent {
    fn clone(&self) -> (copy: Self)
        ensures
            copy == *self,
    {
        match self {
            RawContent::Text(text) => RawContent::Text(text.clone()),
            RawContent::Image(image) => RawContent::Image(image.clone()),
            RawContent::Resource(embedded) => RawContent::Resource(embedded.clone()),
            RawContent::Audio(audio) => RawContent::Audio(audio.clone()),
            RawContent::ResourceLink(resource) => RawContent::ResourceLink(resource.clone()),
        }
    }
}

impl Clone for Content {
    fn clone(&self) -> (copy: Self)
        ensures
            copy == *self,
    {
        Content { raw: self.raw.clone(), annotations: self.annotations.clone() }
    }
}

impl Clone for CallToolResult {
    fn clone(&self) -> (copy: Self)
        ensures
            copy.same_as(*self),
    {
        let copy = CallToolResult {
            content: self.content.clone(),
            structured_content: self.structured_content.clone(),
            is_error: self.is_error,
            meta: self.meta.clone(),
        };
        assert(copy.content@ =~= self.content@);
        copy
    }
}

/// How a rendered resource begins: with its MIME type, where it has one.
pub open spec fn mime_prefix(mime_type: Option<String>) -> Seq<char> {
    match mime_type {
        Some(mime_type) => "data:"@ + mime_type@ + ";"@,
        None => Seq::empty(),
    }
}

/// Renders a resource of this MIME type, at this address, with this body.
fn render_resource(mime_type: &Option<String>, uri: &String, body: &String) -> (text: String)
    ensures
        text@ == mime_prefix(*mime_type) + uri@ + ":"@ + body@,
{
    let mut text = String::new();
    if let Some(mime_type) = mime_type {
        text.append("data:");
        text.append(mime_type.as_str());
        text.append(";");
    }
    text.append(uri.as_str());
    text.append(":");
    text.append(body.as_str());
    text
}

impl ResourceContents {
    /// The contents as one text: an optional MIME type, the address, and what is there.
    pub open spec fn rendering(self) -> Seq<char> {
        match self {
            ResourceContents::TextResourceContents { uri, mime_type, text, .. } => {
                mime_prefix(mime_type) + uri@ + ":"@ + text@
            },
            ResourceContents::BlobResourceContents { uri, mime_type, blob, .. } => {
                mime_prefix(mime_type) + uri@ + ":"@ + blob@
            },
        }
    }

    /// Renders the contents as one text.
    pub fn render(&self) -> (text: String)
        ensures
            text@ == self.rendering(),
    {
        match self {
            ResourceContents::TextResourceContents { uri, mime_type, text, .. } => render_resource(
                mime_type,
                uri,
                text,
            ),
            ResourceContents::BlobResourceContents { uri, mime_type, blob, .. } => render_resource(
                mime_type,
                uri,
                blob,
            ),
        }
    }
}

impl RawContent {
    /// Whether the item has a rendering as text. Sounds and links have none.
    pub open spec fn renderable(self) -> bool {
        self is Text || self is Image || self is Resource
    }

    /// The item as text.
    pub open spec fn rendering(self) -> Seq<char>
        recommends
            self.renderable(),
    {
        match self {
            RawContent::Text(text) => text.text@,
            RawContent::Image(image) => "data:"@ + image.mime_type@ + ";base64,"@ + image.data@,
            RawContent::Resource(embedded) => embedded.resource.rendering(),
            _ => Seq::empty(),
        }
    }

    /// The text, if the item is one.
    pub fn as_text(&self) -> (text: Option<&RawTextContent>)
        ensures
            text == match *self {
                RawContent::Text(text) => Some(&text),
                _ => None,
            },
    {
        match self {
            RawContent::Text(text) => Some(text),
            _ => None,
        }
    }

    /// Whether the item has a rendering as text.
    pub fn is_renderable(&self) -> (renderable: bool)
        ensures
            renderable == self.renderable(),
    {
        match self {
            RawContent::Text(_) | RawContent::Image(_) | RawContent::Resource(_) => true,
            _ => false,
        }
    }

    /// Renders the item as text.
    pub fn render(&self) -> (text: String)
        requires
            self.renderable(),
        ensures
            text@ == self.rendering(),
    {
        match self {
            RawContent::Text(text) => text.text.clone(),
            RawContent::Image(image) => {
                let mut text = String::new();
                text.append("data:");
                text.append(image.mime_type.as_str());
                text.append(";base64,");
                text.append(image.data.as_str());
                text
            },
            RawContent::Resource(embedded) => embedded.resource.render(),
            _ => String::new(),
        }
    }
}

impl CallToolResult {
    /// Whether two answers hold the same.
    pub open spec fn same_as(self, other: CallToolResult) -> bool {
        &&& self.content@ == other.content@
        &&& self.structured_content == other.structured_content
        &&& self.is_error == other.is_error
        &&& self.meta == other.meta
    }

    /// Whether the server marked the call as failed.
    pub open spec fn failed(self) -> bool {
        self.is_error == Some(true)
    }

    /// Whether every item is a text.
    pub open spec fn only_texts(self) -> bool {
        forall|i: int| 0 <= i < self.content@.len() ==> (#[trigger] self.content@[i]).raw is Text
    }

    /// Whether every item has a rendering as text.
    pub open spec fn renderable(self) -> bool {
        forall|i: int|
            0 <= i < self.content@.len() ==> (#[trigger] self.content@[i]).raw.renderable()
    }

    /// The texts among the items, in order.
    pub open spec fn texts(self) -> Seq<Seq<char>> {
        texts_in(self.content@)
    }

    /// All items as one text, with nothing between them.
    pub open spec fn rendering(self) -> Seq<char> {
        rendering_of(self.content@)
    }

    /// What a failed call says went wrong: its texts, a line break between them, unless some
    /// item is not a text.
    pub open spec fn failure(self) -> Seq<char> {
        if self.only_texts() {
            joined(self.texts(), "\n"@)
        } else {
            "No message returned"@
        }
    }

    /// The texts among the items, a line break between them.
    pub fn joined_texts(&self) -> (text: String)
        ensures
            text@ == joined(self.texts(), "\n"@),
    {
        let mut texts: Vec<String> = Vec::new();
        let mut i: usize = 0;
        while i < self.content.len()
            invariant
                i <= self.content.len(),
                views(texts@) == texts_in(self.content@.take(i as int)),
            decreases self.content.len() - i,
        {
            let ghost before = texts@;
            proof {
                lemma_texts_in_next(self.content@, i as int);
            }
            if let Some(text) = self.content[i].raw.as_text() {
                texts.push(text.text.clone());
                assert(views(texts@) =~= views(before).push(text.text@));
            }
            i += 1;
        }
        assert(self.content@.take(i as int) =~= self.content@);
        join(&texts, "\n")
    }

    /// What a failed call says went wrong.
    pub fn failure_message(&self) -> (text: String)
        ensures
            text@ == self.failure(),
    {
        let mut i: usize = 0;
        while i < self.content.len()
            invariant
                i <= self.content.len(),
                forall|j: int| 0 <= j < i ==> (#[trigger] self.content@[j]).raw is Text,
            decreases self.content.len() - i,
        {
            if self.content[i].raw.as_text().is_none() {
                assert(!(self.content@[i as int].raw is Text));
                return "No message returned".to_string();
            }
            i += 1;
        }
        self.joined_texts()
    }

    /// Renders all items as one text.
    pub fn render(&self) -> (text: String)
        requires
            self.renderable(),
        ensures
            text@ == self.rendering(),
    {
        let ghost rendered = |item: Content| item.raw.rendering();
        let mut text = String::new();
        let mut i: usize = 0;
        while i < self.content.len()
            invariant
                i <= self.content.len(),
                self.renderable(),
                rendered == (|item: Content| item.raw.rendering()),
                text@ == self.content@.take(i as int).map_values(rendered).flatten(),
            decreases self.content.len() - i,
        {
            let rendering = self.content[i].raw.render();
            proof {
                let before = self.content@.take(i as int).map_values(rendered);
                assert(self.content@.take(i + 1).map_values(rendered) =~= before.push(rendering@));
                before.lemma_flatten_push(rendering@);
            }
            text.append(rendering.as_str());
            i += 1;
        }
        assert(self.content@.take(i as int) =~= self.content@);
        text
    }

    /// The index of the first item that has no rendering as text.
    pub fn first_unrenderable(&self) -> (index: Option<usize>)
        ensures
            match index {
                Some(index) => {
                    &&& index < self.content@.len()
                    &&& !self.content@[index as int].raw.renderable()
                    &&& forall|i: int|
                        0 <= i < index ==> (#[trigger] self.content@[i]).raw.renderable()
                },
                None => self.renderable(),
            },
    {
        let mut i: usize = 0;
        while i < self.content.len()
            invariant
                i <= self.content.len(),
                forall|j: int| 0 <= j < i ==> (#[trigger] self.content@[j]).raw.renderable(),
            decreases self.content.len() - i,
        {
            if !self.content[i].raw.is_renderable() {
                return Some(i);
            }
            i += 1;
        }
        None
    }
}

/// All of `items` as one text, with nothing between them.
pub open spec fn rendering_of(items: Seq<Content>) -> Seq<char> {
    items.map_values(|item: Content| item.raw.rendering()).flatten()
}

/// The texts among `items`, in order.
pub open spec fn texts_in(items: Seq<Content>) -> Seq<Seq<char>> {
    items.filter(|item: Content| item.raw is Text).map_values(
        |item: Content| item.raw->Text_0.text@,
    )
}

/// Taking one more item adds its text, if it is one.
pub proof fn lemma_texts_in_next(items: Seq<Content>, i: int)
    requires
        0 <= i < items.len(),
    ensures
        texts_in(items.take(i + 1)) == match items[i].raw {
            RawContent::Text(text) => texts_in(items.take(i)).push(text.text@),
            _ => texts_in(items.take(i)),
        },
{
    reveal(Seq::filter);
    let longer = items.take(i + 1);
    assert(longer.drop_last() =~= items.take(i));
    assert(longer.last() == items[i]);
    match items[i].raw {
        RawContent::Text(text) => {
            assert(texts_in(longer) =~= texts_in(items.take(i)).push(text.text@));
        },
        _ => {},
    }
}

} // verus!
