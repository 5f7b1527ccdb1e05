//! What holds of the answers of a server, said of what the functions take and give back.
use crate::error::{ErrorMessage, McpToolError, ToolError};
use crate::mcp::{call_mcp_outcome, call_outcome, unsupported_item};
use crate::model::{
    lemma_texts_in_next, texts_in, CallToolResult, Content, RawAudioContent, RawContent,
    RawEmbeddedResource, RawImageContent, RawTextContent, ResourceContents, ToolInfo,
};
use crate::output::ToolOutput;
use crate::text::{join, lemma_joined_push, views};
use vstd::prelude::*;

verus! {

/// Texts that begin and end alike are the same only if what is between them is.
proof fn lemma_between(head: Seq<char>, one: Seq<char>, other: Seq<char>, tail: Seq<char>)
    requires
        head + one + tail == head + other + tail,
    ensures
        one == other,
{
    assert((head + one + tail).len() == (head + other + tail).len());
    assert((head + one + tail).subrange(head.len() as int, (head + one).len() as int) =~= one);
    assert((head + other + tail).subrange(head.len() as int, (head + other).len() as int)
        =~= other);
}

/// There are no texts among items exactly where no item is a text.
proof fn lemma_no_texts(items: Seq<Content>)
    ensures
        texts_in(items).len() == 0 <==> forall|i: int|
            0 <= i < items.len() ==> !((#[trigger] items[i]).raw is Text),
    decreases items.len(),
{
    if items.len() == 0 {
        reveal(Seq::filter);
    } else {
        let fewer = items.drop_last();
        let last = items.len() - 1;
        lemma_no_texts(fewer);
        lemma_texts_in_next(items, last);
        assert(items.take(last) =~= fewer);
        assert(items.take(last + 1) =~= items);
        assert(forall|i: int| 0 <= i < last ==> fewer[i] == items[i]);
        if texts_in(items).len() == 0 {
            assert(texts_in(fewer).len() == 0);
            assert forall|i: int| 0 <= i < items.len() implies !((#[trigger]
            items[i]).raw is Text) by {
                if i < last {
                    assert(!(fewer[i].raw is Text));
                }
            }
        }
        if forall|i: int| 0 <= i < items.len() ==> !((#[trigger] items[i]).raw is Text) {
            assert forall|i: int| 0 <= i < fewer.len() implies !((#[trigger]
            fewer[i]).raw is Text) by {
                assert(!(items[i].raw is Text));
            }
            assert(!(items[last].raw is Text));
        }
    }
}

/// A text renders as itself.
pub proof fn law_text_renders_as_itself(content: RawTextContent, text: String)
    requires
        call_ensures(RawContent::render, (&RawContent::Text(content),), text),
    ensures
        text@ == content.text@,
{
}

/// An image renders as `data:`, its own MIME type, `;base64,` and its data.
pub proof fn law_image_renders_with_its_type(image: RawImageContent, text: String)
    requires
        call_ensures(RawContent::render, (&RawContent::Image(image),), text),
    ensures
        text@ == "data:"@ + image.mime_type@ + ";base64,"@ + image.data@,
{
}

/// Images with the same data and different MIME types render differently, and so do images of the
/// same MIME type with different data.
pub proof fn law_images_render_apart(
    one: RawImageContent,
    other: RawImageContent,
    first: String,
    second: String,
)
    requires
        call_ensures(RawContent::render, (&RawContent::Image(one),), first),
        call_ensures(RawContent::render, (&RawContent::Image(other),), second),
    ensures
        one.data@ == other.data@ && one.mime_type@ != other.mime_type@ ==> first@ != second@,
        one.mime_type@ == other.mime_type@ && one.data@ != other.data@ ==> first@ != second@,
{
    if first@ == second@ && one.data@ == other.data@ {
        let tail = ";base64,"@ + one.data@;
        assert("data:"@ + one.mime_type@ + tail =~= first@);
        assert("data:"@ + other.mime_type@ + tail =~= second@);
        lemma_between("data:"@, one.mime_type@, other.mime_type@, tail);
    }
    if first@ == second@ && one.mime_type@ == other.mime_type@ {
        let head = "data:"@ + one.mime_type@ + ";base64,"@;
        assert(head + one.data@ + Seq::<char>::empty() =~= first@);
        assert(head + other.data@ + Seq::<char>::empty() =~= second@);
        lemma_between(head, one.data@, other.data@, Seq::empty());
    }
}

/// A resource renders as its address, a colon and its body, whether this is text or binary data.
/// Where the MIME type is known, `data:`, the type and a semicolon come first.
pub proof fn law_resource_renders_with_its_address(
    embedded: RawEmbeddedResource,
    text: String,
    whole: String,
)
    requires
        call_ensures(ResourceContents::render, (&embedded.resource,), text),
        call_ensures(RawContent::render, (&RawContent::Resource(embedded),), whole),
    ensures
        whole@ == text@,
        match embedded.resource {
            ResourceContents::TextResourceContents {
                uri,
                mime_type: Some(mime_type),
                text: body,
                ..
            } => text@ == "data:"@ + mime_type@ + ";"@ + uri@ + ":"@ + body@,
            ResourceContents::TextResourceContents { uri, mime_type: None, text: body, .. } => text@
                == uri@ + ":"@ + body@,
            ResourceContents::BlobResourceContents {
                uri,
                mime_type: Some(mime_type),
                blob,
                ..
            } => text@ == "data:"@ + mime_type@ + ";"@ + uri@ + ":"@ + blob@,
            ResourceContents::BlobResourceContents { uri, mime_type: None, blob, .. } => text@
                == uri@ + ":"@ + blob@,
        },
{
    match embedded.resource {
        ResourceContents::TextResourceContents { uri, mime_type: None, text: body, .. } => {
            assert(text@ =~= uri@ + ":"@ + body@);
        },
        ResourceContents::BlobResourceContents { uri, mime_type: None, blob, .. } => {
            assert(text@ =~= uri@ + ":"@ + blob@);
        },
        _ => {},
    }
}

/// Texts, images and resources can be rendered; sounds and links cannot.
pub proof fn law_kinds_that_render(item: RawContent, renderable: bool)
    requires
        call_ensures(RawContent::is_renderable, (&item,), renderable),
    ensures
        match item {
            RawContent::Text(_) => renderable,
            RawContent::Image(_) => renderable,
            RawContent::Resource(_) => renderable,
            RawContent::Audio(_) => !renderable,
            RawContent::ResourceLink(_) => !renderable,
        },
{
}

/// An item is taken as a text only if it is one, and then it is this text.
pub proof fn law_item_as_text(item: RawContent, text: Option<&RawTextContent>)
    requires
        call_ensures(RawContent::as_text, (&item,), text),
    ensures
        match item {
            RawContent::Text(content) => text == Some(&content),
            _ => text is None,
        },
{
}

/// An answer without items comes to an empty text in every way.
pub proof fn law_nothing_comes_to_nothing(
    result: CallToolResult,
    rendered: String,
    texts: String,
    output: String,
    failure: String,
)
    requires
        result.content@.len() == 0,
        call_ensures(CallToolResult::render, (&result,), rendered),
        call_ensures(CallToolResult::joined_texts, (&result,), texts),
        call_ensures(ToolOutput::as_text, (&ToolOutput::Mcp(result),), output),
        call_ensures(CallToolResult::failure_message, (&result,), failure),
    ensures
        rendered@.len() == 0,
        texts@.len() == 0,
        output@.len() == 0,
        failure@.len() == 0,
{
    lemma_no_texts(result.content@);
    let items = result.content@.map_values(|item: Content| item.raw.rendering());
    assert(items =~= Seq::empty());
    assert(rendered@ =~= Seq::empty());
}

/// Of an answer with one item more, the rendering is that of the others, and then that of this
/// item. Nothing but the items matters, and of these their annotations do not.
pub proof fn law_rendering_grows_by_items(
    fewer: CallToolResult,
    item: Content,
    result: CallToolResult,
    before: String,
    added: String,
    after: String,
)
    requires
        result.content@ == fewer.content@.push(item),
        call_ensures(CallToolResult::render, (&fewer,), before),
        call_ensures(RawContent::render, (&item.raw,), added),
        call_ensures(CallToolResult::render, (&result,), after),
    ensures
        after@ == before@ + added@,
{
    let rendered = |item: Content| item.raw.rendering();
    let items = fewer.content@.map_values(rendered);
    assert(result.content@.map_values(rendered) =~= items.push(added@));
    items.lemma_flatten_push(added@);
}

/// Of an answer with one item more, the text is that of the others where the item is no text.
/// Where it is one, it comes at the end, after a line break if there was a text before it.
pub proof fn law_texts_grow_by_texts(
    fewer: CallToolResult,
    item: Content,
    result: CallToolResult,
    before: String,
    after: String,
)
    requires
        result.content@ == fewer.content@.push(item),
        call_ensures(CallToolResult::joined_texts, (&fewer,), before),
        call_ensures(CallToolResult::joined_texts, (&result,), after),
    ensures
        match item.raw {
            RawContent::Text(content) => after@ == if exists|i: int|
                0 <= i < fewer.content@.len() && (#[trigger] fewer.content@[i]).raw is Text {
                before@ + "\n"@ + content.text@
            } else {
                content.text@
            },
            _ => after@ == before@,
        },
{
    let n = fewer.content@.len() as int;
    lemma_texts_in_next(result.content@, n);
    assert(result.content@.take(n) =~= fewer.content@);
    assert(result.content@.take(n + 1) =~= result.content@);
    lemma_no_texts(fewer.content@);
    if let RawContent::Text(content) = item.raw {
        lemma_joined_push(texts_in(fewer.content@), content.text@, "\n"@);
    }
}

/// The text of an output is the text that a tool returned, and for an answer the texts in it.
pub proof fn law_text_of_an_output(
    text: String,
    result: CallToolResult,
    of_text: String,
    of_answer: String,
    texts: String,
)
    requires
        call_ensures(ToolOutput::as_text, (&ToolOutput::Text(text),), of_text),
        call_ensures(ToolOutput::as_text, (&ToolOutput::Mcp(result),), of_answer),
        call_ensures(CallToolResult::joined_texts, (&result,), texts),
    ensures
        of_text@ == text@,
        of_answer@ == texts@,
{
}

/// A failure is told by the texts of the answer. Where an item is no text, there is no message.
pub proof fn law_failure_is_told_by_texts(
    result: CallToolResult,
    failure: String,
    texts: String,
)
    requires
        call_ensures(CallToolResult::failure_message, (&result,), failure),
        call_ensures(CallToolResult::joined_texts, (&result,), texts),
    ensures
        failure@ == if exists|i: int|
            0 <= i < result.content@.len() && !((#[trigger] result.content@[i]).raw is Text) {
            "No message returned"@
        } else {
            texts@
        },
{
}

/// An answer counts as failed exactly where its server marked it so, whatever else it holds. A
/// text never does.
pub proof fn law_marked_answers_are_errors(
    text: String,
    result: CallToolResult,
    of_text: bool,
    of_answer: bool,
)
    requires
        call_ensures(ToolOutput::is_error, (&ToolOutput::Text(text),), of_text),
        call_ensures(ToolOutput::is_error, (&ToolOutput::Mcp(result),), of_answer),
    ensures
        !of_text,
        of_answer <==> result.is_error == Some(true),
        result.failed() <==> result.is_error == Some(true),
        ToolOutput::Mcp(result).failed() <==> result.is_error == Some(true),
        !ToolOutput::Text(text).failed(),
{
}

/// A call fails on an answer exactly where its server marked it as failed, and then says what the
/// answer says went wrong. Any other answer comes to its rendering.
pub proof fn law_call_fails_on_marked_answers(
    result: CallToolResult,
    outcome: Result<String, ToolError<McpToolError>>,
    message: String,
    failure: String,
    rendered: String,
)
    requires
        result.is_error == Some(true) || forall|i: int|
            0 <= i < result.content@.len() ==> !((#[trigger] result.content@[i]).raw is Audio) && !(
            result.content@[i].raw is ResourceLink),
        call_ensures(call_outcome, (Ok(result),), outcome),
        outcome matches Err(ToolError::ToolCallError(error)) ==> call_ensures(
            <McpToolError as ErrorMessage>::message,
            (&error,),
            message,
        ),
        call_ensures(CallToolResult::failure_message, (&result,), failure),
        call_ensures(CallToolResult::render, (&result,), rendered),
    ensures
        outcome is Err <==> result.is_error == Some(true),
        outcome is Err ==> outcome->Err_0 is ToolCallError,
        outcome is Err ==> message@ == "MCP tool error: "@ + failure@,
        outcome matches Ok(text) ==> text@ == rendered@,
{
}

/// Where no answer came, a call fails in the words of the service, and says whether the whole
/// answer had been asked for.
pub proof fn law_call_without_answer_fails(
    failure: String,
    outcome: Result<String, ToolError<McpToolError>>,
    whole: Result<CallToolResult, ToolError<McpToolError>>,
    message: String,
    whole_message: String,
)
    requires
        call_ensures(call_outcome, (Err(failure),), outcome),
        call_ensures(call_mcp_outcome, (Err(failure),), whole),
        outcome matches Err(ToolError::ToolCallError(error)) ==> call_ensures(
            <McpToolError as ErrorMessage>::message,
            (&error,),
            message,
        ),
        whole matches Err(ToolError::ToolCallError(error)) ==> call_ensures(
            <McpToolError as ErrorMessage>::message,
            (&error,),
            whole_message,
        ),
    ensures
        outcome is Err && outcome->Err_0 is ToolCallError,
        message@ == "MCP tool error: "@ + ("Tool returned an error: "@ + failure@),
        whole is Err && whole->Err_0 is ToolCallError,
        whole_message@ == "MCP tool error: "@ + ("Tool call failed: "@ + failure@),
{
}

/// A call that keeps the whole answer comes to every answer as it is.
pub proof fn law_whole_answer_is_the_answer(
    result: CallToolResult,
    outcome: Result<CallToolResult, ToolError<McpToolError>>,
)
    requires
        call_ensures(call_mcp_outcome, (Ok(result),), outcome),
    ensures
        outcome == Ok::<CallToolResult, ToolError<McpToolError>>(result),
{
}

/// An item for which an answer comes to nothing is the first sound or link of an answer that is
/// not marked as failed.
pub proof fn law_unsupported_item_is_the_first(
    result: CallToolResult,
    unsupported: Option<usize>,
    unrenderable: Option<usize>,
)
    requires
        call_ensures(unsupported_item, (&result,), unsupported),
        call_ensures(CallToolResult::first_unrenderable, (&result,), unrenderable),
    ensures
        unsupported == if result.is_error == Some(true) {
            None
        } else {
            unrenderable
        },
        match unrenderable {
            Some(index) => {
                &&& index < result.content@.len()
                &&& result.content@[index as int].raw is Audio
                    || result.content@[index as int].raw is ResourceLink
                &&& forall|i: int|
                    0 <= i < index ==> !((#[trigger] result.content@[i]).raw is Audio) && !(
                    result.content@[i].raw is ResourceLink)
            },
            None => forall|i: int|
                0 <= i < result.content@.len() ==> !((#[trigger] result.content@[i]).raw is Audio)
                    && !(result.content@[i].raw is ResourceLink),
        },
{
    if let (Some(a), Some(b)) = (unsupported, unrenderable) {
        if a < b {
            assert(result.content@[a as int].raw.renderable());
        }
        if b < a {
            assert(result.content@[b as int].raw.renderable());
        }
    }
    if let (Some(a), None) = (unsupported, unrenderable) {
        assert(result.content@[a as int].raw.renderable());
    }
    if let (None, Some(b)) = (unsupported, unrenderable) {
        if result.is_error != Some(true) {
            assert(result.content@[b as int].raw.renderable());
        }
    }
    match unrenderable {
        Some(index) => {
            assert forall|i: int| 0 <= i < index implies !((#[trigger]
            result.content@[i]).raw is Audio) && !(result.content@[i].raw is ResourceLink) by {
                assert(result.content@[i].raw.renderable());
            }
        },
        None => {
            assert forall|i: int| 0 <= i < result.content@.len() implies !((#[trigger]
            result.content@[i]).raw is Audio) && !(result.content@[i].raw is ResourceLink) by {
                assert(result.content@[i].raw.renderable());
            }
        },
    }
}

/// An output tells whether it is an answer, and gives back the answer that it was made of. One
/// that was made of a text is none.
pub proof fn law_output_gives_back_the_answer(
    text: String,
    result: CallToolResult,
    of_text: ToolOutput,
    of_answer: ToolOutput,
    text_is_mcp: bool,
    answer_is_mcp: bool,
    no_answer: Option<&CallToolResult>,
    answer: Option<&CallToolResult>,
)
    requires
        call_ensures(<ToolOutput as From<String>>::from, (text,), of_text),
        call_ensures(<ToolOutput as From<CallToolResult>>::from, (result,), of_answer),
        call_ensures(ToolOutput::is_mcp, (&of_text,), text_is_mcp),
        call_ensures(ToolOutput::is_mcp, (&of_answer,), answer_is_mcp),
        call_ensures(ToolOutput::as_mcp, (&of_text,), no_answer),
        call_ensures(ToolOutput::as_mcp, (&of_answer,), answer),
    ensures
        of_text == ToolOutput::Text(text),
        of_answer == ToolOutput::Mcp(result),
        !text_is_mcp,
        answer_is_mcp,
        no_answer is None,
        answer == Some(&result),
{
}

/// A copy of an output or of an answer holds all that the original holds.
pub proof fn law_copies_hold_all(
    result: CallToolResult,
    copied: CallToolResult,
    output: ToolOutput,
    copy: ToolOutput,
)
    requires
        call_ensures(<CallToolResult as Clone>::clone, (&result,), copied),
        call_ensures(<ToolOutput as Clone>::clone, (&output,), copy),
    ensures
        copied.content@ == result.content@,
        copied.structured_content == result.structured_content,
        copied.is_error == result.is_error,
        copied.meta == result.meta,
        match output {
            ToolOutput::Text(text) => copy == ToolOutput::Text(text),
            ToolOutput::Mcp(original) => {
                &&& copy matches ToolOutput::Mcp(whole)
                &&& whole.content@ == original.content@
                &&& whole.structured_content == original.structured_content
                &&& whole.is_error == original.is_error
                &&& whole.meta == original.meta
            },
        },
{
}

/// A copy of a part of an answer, or of what a server lists of a tool, is the same.
pub proof fn law_copies_of_parts_are_the_same()
    ensures
        forall|part: ToolInfo, copy: ToolInfo| #[trigger]
            call_ensures(<ToolInfo as Clone>::clone, (&part,), copy) ==> copy == part,
        forall|part: RawTextContent, copy: RawTextContent| #[trigger]
            call_ensures(<RawTextContent as Clone>::clone, (&part,), copy) ==> copy == part,
        forall|part: RawImageContent, copy: RawImageContent| #[trigger]
            call_ensures(<RawImageContent as Clone>::clone, (&part,), copy) ==> copy == part,
        forall|part: RawAudioContent, copy: RawAudioContent| #[trigger]
            call_ensures(<RawAudioContent as Clone>::clone, (&part,), copy) ==> copy == part,
        forall|part: ResourceContents, copy: ResourceContents| #[trigger]
            call_ensures(<ResourceContents as Clone>::clone, (&part,), copy) ==> copy == part,
        forall|part: RawEmbeddedResource, copy: RawEmbeddedResource| #[trigger]
            call_ensures(<RawEmbeddedResource as Clone>::clone, (&part,), copy) ==> copy == part,
        forall|part: RawContent, copy: RawContent| #[trigger]
            call_ensures(<RawContent as Clone>::clone, (&part,), copy) ==> copy == part,
        forall|part: Content, copy: Content| #[trigger]
            call_ensures(<Content as Clone>::clone, (&part,), copy) ==> copy == part,
{
}

/// Joining no parts gives an empty text. One part more comes at the end, after the separator
/// where it is not the first.
pub proof fn law_joining_grows_by_parts(
    fewer: Vec<String>,
    part: String,
    parts: Vec<String>,
    separator: &str,
    before: String,
    after: String,
)
    requires
        parts@ == fewer@.push(part),
        call_ensures(join, (&fewer, separator), before),
        call_ensures(join, (&parts, separator), after),
    ensures
        fewer@.len() == 0 ==> before@.len() == 0,
        after@ == if fewer@.len() == 0 {
            part@
        } else {
            before@ + separator@ + part@
        },
{
    assert(views(parts@) =~= views(fewer@).push(part@));
    lemma_joined_push(views(fewer@), part@, separator@);
}

/// What a failure of a call to an MCP tool tells of is what it was made with.
pub proof fn law_mcp_failure_tells_its_text(text: String, error: McpToolError, message: String)
    requires
        call_ensures(McpToolError::new, (text,), error),
        call_ensures(<McpToolError as ErrorMessage>::message, (&error,), message),
    ensures
        message@ == "MCP tool error: "@ + text@,
{
}

/// An item can be rendered where it is a text, an image or a resource, and an answer where all its
/// items can. A call takes every such answer, every answer that is marked as failed, and that
/// there was none.
pub proof fn law_what_renders_is_taken(item: RawContent, result: CallToolResult, failure: String)
    ensures
        item is Text || item is Image || item is Resource ==> call_requires(
            RawContent::render,
            (&item,),
        ),
        (forall|i: int|
            0 <= i < result.content@.len() ==> !((#[trigger] result.content@[i]).raw is Audio) && !(
            result.content@[i].raw is ResourceLink)) ==> call_requires(
            CallToolResult::render,
            (&result,),
        ) && call_requires(call_outcome, (Ok(result),)),
        result.is_error == Some(true) ==> call_requires(call_outcome, (Ok(result),)),
        call_requires(call_outcome, (Err(failure),)),
{
}

/// All else that is asked of items, answers, outputs and texts is asked of any of them.
pub proof fn law_all_answers_are_taken(
    item: RawContent,
    contents: ResourceContents,
    result: CallToolResult,
    answer: Result<CallToolResult, String>,
    output: ToolOutput,
    parts: Vec<String>,
    text: String,
    separator: &str,
    error: McpToolError,
)
    ensures
        call_requires(RawContent::as_text, (&item,)),
        call_requires(RawContent::is_renderable, (&item,)),
        call_requires(ResourceContents::render, (&contents,)),
        call_requires(CallToolResult::joined_texts, (&result,)),
        call_requires(CallToolResult::failure_message, (&result,)),
        call_requires(CallToolResult::first_unrenderable, (&result,)),
        call_requires(unsupported_item, (&result,)),
        call_requires(call_mcp_outcome, (answer,)),
        call_requires(ToolOutput::as_text, (&output,)),
        call_requires(ToolOutput::is_mcp, (&output,)),
        call_requires(ToolOutput::as_mcp, (&output,)),
        call_requires(ToolOutput::is_error, (&output,)),
        call_requires(join, (&parts, separator)),
        call_requires(McpToolError::new, (text,)),
        call_requires(<McpToolError as ErrorMessage>::message, (&error,)),
{
}

} // verus!
