//! What holds of single tools, said of what the functions take and give back.
use crate::definition::ToolDefinition;
use crate::document::Document;
use crate::error::{EmbedError, ErrorMessage, McpToolError, ToolError, ToolSetError};
use crate::json::{error_message, object_in, object_value, JsonObject};
use crate::mcp::McpTool;
use crate::model::{CallToolRequestParam, CallToolResult, ToolInfo};
use crate::output::ToolOutput;
use crate::schema::ToolSchema;
use crate::tool::{
    begin_call, call_output, called, mcp_output, written, ByKind, McpToolDyn, Tool, ToolDyn,
    ToolEmbeddingDyn, ToolType,
};
use vstd::prelude::*;

verus! {

/// A tool of any kind has the name that the tool itself gives.
pub proof fn law_name_is_that_of_the_tool<S: ToolDyn, E: ToolEmbeddingDyn, M: McpToolDyn>(
    tool: ToolType<S, E, M>,
    returned: String,
    name: Seq<char>,
)
    requires
        (call_ensures(ToolType::<S, E, M>::name, (&tool,), returned) && name == returned@)
            || tool.may_be_named(name),
    ensures
        match tool {
            ToolType::Simple(tool) => exists|given: String|
                given@ == name && #[trigger] call_ensures(S::name, (&*tool,), given),
            ToolType::Embedding(tool) => exists|given: String|
                given@ == name && #[trigger] call_ensures(E::name, (&*tool,), given),
            ToolType::Mcp(tool) => exists|given: String|
                given@ == name && #[trigger] call_ensures(M::name, (&*tool,), given),
        },
{
}

/// A tool of any kind is described by the tool itself, for exactly the prompt that was given.
pub proof fn law_tool_is_asked_with_the_prompt<
    'a,
    S: ToolDyn,
    E: ToolEmbeddingDyn,
    M: McpToolDyn,
>(
    tool: &'a ToolType<S, E, M>,
    prompt: String,
    pending: ByKind<S::DefinitionFuture<'a>, E::DefinitionFuture<'a>, M::DefinitionFuture<'a>>,
)
    requires
        call_ensures(ToolType::<S, E, M>::definition, (tool, prompt), pending),
    ensures
        match *tool {
            ToolType::Simple(tool) => pending matches ByKind::Simple(future) && call_ensures(
                S::definition,
                (&*tool, prompt),
                future,
            ),
            ToolType::Embedding(tool) => pending matches ByKind::Embedding(future) && call_ensures(
                E::definition,
                (&*tool, prompt),
                future,
            ),
            ToolType::Mcp(tool) => pending matches ByKind::Mcp(future) && call_ensures(
                M::definition,
                (&*tool, prompt),
                future,
            ),
        },
{
}

/// What a call of a tool of any kind hands back is what the tool's own call hands back for
/// exactly the arguments that were given.
pub proof fn law_tool_is_called_with_the_arguments<
    'a,
    S: ToolDyn,
    E: ToolEmbeddingDyn,
    M: McpToolDyn,
>(
    tool: &'a ToolType<S, E, M>,
    args: String,
    pending: ByKind<S::CallFuture<'a>, E::CallFuture<'a>, M::CallFuture<'a>>,
)
    requires
        call_ensures(ToolType::<S, E, M>::call, (tool, args), pending) || tool.may_call(
            args,
            pending,
        ),
    ensures
        match *tool {
            ToolType::Simple(tool) => pending matches ByKind::Simple(future) && call_ensures(
                S::call,
                (&*tool, args),
                future,
            ),
            ToolType::Embedding(tool) => pending matches ByKind::Embedding(future) && call_ensures(
                E::call,
                (&*tool, args),
                future,
            ),
            ToolType::Mcp(tool) => pending matches ByKind::Mcp(future) && call_ensures(
                M::call,
                (&*tool, args),
                future,
            ),
        },
{
}

/// What a call for an output hands back is, for a tool outside MCP, what the tool's own call
/// hands back for exactly the arguments that were given, and for an MCP tool what its call for
/// the whole answer does.
pub proof fn law_tool_is_called_for_an_output_with_the_arguments<
    'a,
    S: ToolDyn,
    E: ToolEmbeddingDyn,
    M: McpToolDyn,
>(
    tool: &'a ToolType<S, E, M>,
    args: String,
    pending: ByKind<S::CallFuture<'a>, E::CallFuture<'a>, M::OutputFuture<'a>>,
)
    requires
        call_ensures(ToolType::<S, E, M>::call_mcp, (tool, args), pending) || tool.may_call_mcp(
            args,
            pending,
        ),
    ensures
        match *tool {
            ToolType::Simple(tool) => pending matches ByKind::Simple(future) && call_ensures(
                S::call,
                (&*tool, args),
                future,
            ),
            ToolType::Embedding(tool) => pending matches ByKind::Embedding(future) && call_ensures(
                E::call,
                (&*tool, args),
                future,
            ),
            ToolType::Mcp(tool) => pending matches ByKind::Mcp(future) && call_ensures(
                M::call_mcp_output,
                (&*tool, args),
                future,
            ),
        },
{
}

/// For a tool outside MCP it makes no difference whether its text or an output is asked for.
pub proof fn law_text_and_output_are_one_call<
    'a,
    S: ToolDyn,
    E: ToolEmbeddingDyn,
    M: McpToolDyn,
>(
    tool: ToolType<S, E, M>,
    args: String,
    simple: S::CallFuture<'a>,
    embedding: E::CallFuture<'a>,
)
    requires
        !(tool is Mcp),
    ensures
        tool.may_call(args, ByKind::Simple(simple)) <==> tool.may_call_mcp(
            args,
            ByKind::Simple(simple),
        ),
        tool.may_call(args, ByKind::Embedding(embedding)) <==> tool.may_call_mcp(
            args,
            ByKind::Embedding(embedding),
        ),
{
}

/// A tool is an MCP tool where it is held as one.
pub proof fn law_mcp_tools_are_told_apart<S, E, M>(tool: ToolType<S, E, M>, mcp: bool)
    requires
        call_ensures(ToolType::<S, E, M>::is_mcp, (&tool,), mcp),
    ensures
        match tool {
            ToolType::Simple(_) => !mcp,
            ToolType::Embedding(_) => !mcp,
            ToolType::Mcp(_) => mcp,
        },
{
}

/// What depends on the kind of a tool is taken out whatever the kind.
pub proof fn law_inner_is_taken_out<A>(inner: A, simple: A, embedding: A, mcp: A)
    requires
        call_ensures(ByKind::<A, A, A>::into_inner, (ByKind::Simple(inner),), simple),
        call_ensures(ByKind::<A, A, A>::into_inner, (ByKind::Embedding(inner),), embedding),
        call_ensures(ByKind::<A, A, A>::into_inner, (ByKind::Mcp(inner),), mcp),
    ensures
        simple == inner,
        embedding == inner,
        mcp == inner,
{
}

/// A call begins by calling the tool with the arguments that were read. Where they could not be
/// read it fails for this reason.
pub proof fn law_call_begins_with_what_was_read<'a, T: Tool>(
    tool: &'a T,
    args: Result<T::Args, serde_json::Error>,
    begun: Result<T::CallFuture<'a>, ToolError<T::Error>>,
)
    requires
        call_ensures(begin_call::<T>, (tool, args), begun),
    ensures
        match args {
            Ok(args) => begun matches Ok(future) && call_ensures(T::call, (tool, args), future),
            Err(error) => begun == Err::<T::CallFuture<'a>, ToolError<T::Error>>(
                ToolError::JsonError(error),
            ),
        },
{
}

/// What a tool returned is written as it is, and the text of this is what the call comes to. The
/// error of the tool, or of writing, is kept.
pub proof fn law_call_ends_with_what_was_written<O, E>(
    returned: Result<O, E>,
    output: Result<O, ToolError<E>>,
    json: Result<String, serde_json::Error>,
    outcome: Result<String, ToolError<E>>,
)
    requires
        call_ensures(called::<O, E>, (returned,), output),
        call_ensures(written::<E>, (json,), outcome),
    ensures
        match returned {
            Ok(returned) => output == Ok::<O, ToolError<E>>(returned),
            Err(error) => output == Err::<O, ToolError<E>>(ToolError::ToolCallError(error)),
        },
        match json {
            Ok(text) => outcome == Ok::<String, ToolError<E>>(text),
            Err(error) => outcome == Err::<String, ToolError<E>>(ToolError::JsonError(error)),
        },
{
}

/// The output of a call is the text that a tool outside MCP returned, and the whole answer of an
/// MCP tool. A failure is handed on as it is.
pub proof fn law_output_is_what_came_back<X>(
    text: Result<String, ToolError<X>>,
    answer: Result<CallToolResult, ToolError<X>>,
    whole: Result<ToolOutput, ToolError<X>>,
    simple: Result<ToolOutput, ToolError<X>>,
    embedding: Result<ToolOutput, ToolError<X>>,
    mcp: Result<ToolOutput, ToolError<X>>,
)
    requires
        call_ensures(mcp_output::<X>, (answer,), whole),
        call_ensures(call_output::<X>, (ByKind::Simple(text),), simple),
        call_ensures(call_output::<X>, (ByKind::Embedding(text),), embedding),
        call_ensures(call_output::<X>, (ByKind::Mcp(whole),), mcp),
    ensures
        match text {
            Ok(text) => simple == Ok::<ToolOutput, ToolError<X>>(ToolOutput::Text(text)),
            Err(error) => simple == Err::<ToolOutput, ToolError<X>>(error),
        },
        embedding == simple,
        match answer {
            Ok(result) => mcp == Ok::<ToolOutput, ToolError<X>>(ToolOutput::Mcp(result)),
            Err(error) => mcp == Err::<ToolOutput, ToolError<X>>(error),
        },
        whole == mcp,
{
}

/// A tool of a server has the name that the server lists, is reached through the client that it
/// was given, and is described as the server lists it, whatever the prompt. A missing description
/// is an empty one.
pub proof fn law_mcp_tool_is_what_is_listed<C: 'static>(
    info: ToolInfo,
    client: C,
    tool: McpTool<C>,
    through: &C,
    name: String,
    dyn_name: String,
    prompt: String,
    definition: ToolDefinition,
    dyn_definition: ToolDefinition,
)
    requires
        call_ensures(McpTool::<C>::from_mcp_server, (info, client), tool),
        call_ensures(McpTool::<C>::client, (&tool,), through),
        call_ensures(McpTool::<C>::name, (&tool,), name),
        call_ensures(<McpTool<C> as ToolDyn>::name, (&tool,), dyn_name),
        call_ensures(McpTool::<C>::definition, (&tool, prompt), definition),
        call_ensures(<McpTool<C> as ToolDyn>::definition, (&tool, prompt), dyn_definition),
    ensures
        *through == client,
        name@ == info.name@,
        dyn_name@ == info.name@,
        definition.name@ == info.name@,
        info.description matches Some(description) ==> definition.description@ == description@,
        info.description is None ==> definition.description@.len() == 0,
        definition.parameters == object_value(info.input_schema),
        dyn_definition.name@ == definition.name@,
        dyn_definition.description@ == definition.description@,
        dyn_definition.parameters == definition.parameters,
{
}

/// A tool of a server is called under the name that the server lists, with the object that the
/// arguments hold, in whatever way it is called. There are none where they hold `null` or could
/// not be read.
pub proof fn law_mcp_tool_sends_what_it_was_given<C: 'static>(
    info: ToolInfo,
    client: C,
    tool: McpTool<C>,
    args: String,
    request: CallToolRequestParam,
)
    requires
        call_ensures(McpTool::<C>::from_mcp_server, (info, client), tool),
        call_ensures(McpTool::<C>::call, (&tool, args), request) || call_ensures(
            McpTool::<C>::call_mcp,
            (&tool, args),
            request,
        ) || call_ensures(<McpTool<C> as ToolDyn>::call, (&tool, args), request) || call_ensures(
            <McpTool<C> as McpToolDyn>::call_mcp,
            (&tool, args),
            request,
        ) || call_ensures(<McpTool<C> as McpToolDyn>::call_mcp_output, (&tool, args), request),
    ensures
        request.name@ == info.name@,
        match object_in(args@) {
            Some(Some(object)) => request.arguments == Some(object),
            Some(None) => request.arguments is None,
            None => request.arguments is None,
        },
{
}

/// A request has the arguments that were read, and none where they could not be read.
pub proof fn law_request_has_what_was_read<C>(
    info: ToolInfo,
    client: C,
    tool: McpTool<C>,
    arguments: Result<Option<JsonObject>, serde_json::Error>,
    request: CallToolRequestParam,
)
    requires
        call_ensures(McpTool::<C>::from_mcp_server, (info, client), tool),
        call_ensures(McpTool::<C>::request, (&tool, arguments), request),
    ensures
        request.name@ == info.name@,
        arguments matches Ok(arguments) ==> request.arguments == arguments,
        arguments is Err ==> request.arguments is None,
{
}

/// A copy of a tool of a server has the same name, and a copy of the client.
pub proof fn law_copied_mcp_tool_is_the_same<C: Clone>(
    tool: McpTool<C>,
    copy: McpTool<C>,
    name: String,
    copied_name: String,
    client: &C,
    copied_client: &C,
)
    requires
        call_ensures(<McpTool<C> as Clone>::clone, (&tool,), copy),
        call_ensures(McpTool::<C>::name, (&tool,), name),
        call_ensures(McpTool::<C>::name, (&copy,), copied_name),
        call_ensures(McpTool::<C>::client, (&tool,), client),
        call_ensures(McpTool::<C>::client, (&copy,), copied_client),
    ensures
        copy.info() == tool.info(),
        copied_name@ == name@,
        cloned::<C>(*client, *copied_client),
{
}

/// What a server lists of a tool becomes a definition of the same name, description and schema.
pub proof fn law_definition_says_what_is_listed(
    info: ToolInfo,
    by_reference: ToolDefinition,
    by_value: ToolDefinition,
)
    requires
        call_ensures(<ToolDefinition as From<&ToolInfo>>::from, (&info,), by_reference),
        call_ensures(<ToolDefinition as From<ToolInfo>>::from, (info,), by_value),
    ensures
        by_reference.name@ == info.name@,
        info.description matches Some(description) ==> by_reference.description@ == description@,
        info.description is None ==> by_reference.description@.len() == 0,
        by_reference.parameters == object_value(info.input_schema),
        by_value.name@ == by_reference.name@,
        by_value.description@ == by_reference.description@,
        by_value.parameters == by_reference.parameters,
{
}

/// A schema has what the tool says of itself, and there is none only where the tool has no
/// context to give.
pub proof fn law_schema_says_what_the_tool_says<E: ToolEmbeddingDyn>(
    tool: &E,
    schema: Result<ToolSchema, EmbedError>,
)
    requires
        call_ensures(ToolSchema::of_tool::<E>, (tool,), schema),
    ensures
        match schema {
            Ok(schema) => {
                &&& call_ensures(E::name, (tool,), schema.name)
                &&& call_ensures(E::context, (tool,), Ok(schema.context))
                &&& call_ensures(E::embedding_docs, (tool,), schema.embedding_docs)
            },
            Err(error) => call_ensures(E::context, (tool,), Err(error.0)),
        },
{
}

/// A document on a tool is known by the tool's name. Its text begins with this name, behind
/// `Tool: `, ends with the whole definition, on a line of its own behind `Definition: `, and has
/// nothing else.
pub proof fn law_document_has_name_and_definition(
    name: String,
    definition: String,
    document: Document,
)
    requires
        call_ensures(Document::on_tool, (name, definition), document),
    ensures
        document.id@ == name@,
        document.text@.len() == "Tool: "@.len() + name@.len() + "\nDefinition: \n"@.len()
            + definition@.len(),
        document.text@.take("Tool: "@.len() + name@.len() as int) == "Tool: "@ + name@,
        document.text@.skip(document.text@.len() - definition@.len()) == definition@,
        document.text@.subrange(
            "Tool: "@.len() + name@.len() as int,
            document.text@.len() - definition@.len(),
        ) == "\nDefinition: \n"@,
        document.additional_props@ == Map::<String, String>::empty(),
{
}

/// Documents on tools of one name say different things where the definitions differ, and so do
/// documents with one definition on tools of different names.
pub proof fn law_documents_say_what_is_defined(
    name: String,
    definition: String,
    document: Document,
    other_name: String,
    other_definition: String,
    other: Document,
)
    requires
        call_ensures(Document::on_tool, (name, definition), document),
        call_ensures(Document::on_tool, (other_name, other_definition), other),
    ensures
        name@ == other_name@ && definition@ != other_definition@ ==> document.text@ != other.text@,
        name@ != other_name@ && definition@ == other_definition@ ==> document.text@ != other.text@,
        name@ != other_name@ ==> document.id@ != other.id@,
{
    law_document_has_name_and_definition(name, definition, document);
    law_document_has_name_and_definition(other_name, other_definition, other);
    if document.text@ == other.text@ {
        if name@ == other_name@ {
            assert(definition@ == other_definition@);
        }
        if definition@ == other_definition@ {
            assert("Tool: "@ + name@ == "Tool: "@ + other_name@);
            assert(("Tool: "@ + name@).skip("Tool: "@.len() as int) =~= name@);
            assert(("Tool: "@ + other_name@).skip("Tool: "@.len() as int) =~= other_name@);
        }
    }
}

/// The error of a tool, of JSON and of a call keep what they are made of.
pub proof fn law_errors_keep_their_cause<E>(
    mcp: McpToolError,
    json: serde_json::Error,
    call: ToolError<E>,
    of_mcp: ToolError<McpToolError>,
    of_json: ToolError<E>,
    of_call: ToolSetError<E>,
    of_json_too: ToolSetError<E>,
)
    requires
        call_ensures(<ToolError<McpToolError> as From<McpToolError>>::from, (mcp,), of_mcp),
        call_ensures(<ToolError<E> as From<serde_json::Error>>::from, (json,), of_json),
        call_ensures(<ToolSetError<E> as From<ToolError<E>>>::from, (call,), of_call),
        call_ensures(<ToolSetError<E> as From<serde_json::Error>>::from, (json,), of_json_too),
    ensures
        of_mcp == ToolError::ToolCallError(mcp),
        of_json == ToolError::<E>::JsonError(json),
        of_call == ToolSetError::ToolCallError(call),
        of_json_too == ToolSetError::<E>::JsonError(json),
{
}

/// The error of a call says of which kind it is, and then what its cause says.
pub proof fn law_call_error_says_its_cause<E: ErrorMessage>(error: ToolError<E>, text: String)
    requires
        call_ensures(<ToolError<E> as ErrorMessage>::message, (&error,), text),
    ensures
        match error {
            ToolError::ToolCallError(cause) => exists|said: String| #[trigger]
                call_ensures(E::message, (&cause,), said) && text@ == "ToolCallError: "@ + said@,
            ToolError::JsonError(cause) => exists|shown: String| #[trigger]
                vstd::string::to_string_from_display_ensures::<serde_json::Error>(&cause, shown)
                    && text@ == "JsonError: "@ + shown@,
        },
{
}

/// The error of a request to a set says of which kind it is, and then what its cause says or
/// which name is unknown.
pub proof fn law_request_error_says_its_cause<E: ErrorMessage>(
    error: ToolSetError<E>,
    text: String,
)
    requires
        call_ensures(<ToolSetError<E> as ErrorMessage>::message, (&error,), text),
    ensures
        match error {
            ToolSetError::ToolCallError(cause) => exists|said: String| #[trigger]
                call_ensures(<ToolError<E> as ErrorMessage>::message, (&cause,), said) && text@
                    == "ToolCallError: "@ + said@,
            ToolSetError::ToolNotFoundError(name) => text@ == "ToolNotFoundError: "@ + name@,
            ToolSetError::JsonError(cause) => exists|shown: String| #[trigger]
                vstd::string::to_string_from_display_ensures::<serde_json::Error>(&cause, shown)
                    && text@ == "JsonError: "@ + shown@,
            ToolSetError::Interrupted => text@ == "Tool call interrupted"@,
        },
{
}

/// The error of embedding, and a JSON error that is quoted, say what displaying the error gives.
pub proof fn law_json_error_says_what_it_displays(
    error: serde_json::Error,
    message: String,
    text: String,
)
    requires
        call_ensures(<EmbedError as ErrorMessage>::message, (&EmbedError(error),), message),
        call_ensures(error_message, (&error,), text),
    ensures
        exists|shown: String| #[trigger]
            vstd::string::to_string_from_display_ensures::<serde_json::Error>(&error, shown)
                && message@ == shown@,
        exists|shown: String| #[trigger]
            vstd::string::to_string_from_display_ensures::<serde_json::Error>(&error, shown)
                && text@ == shown@,
{
}

/// A tool of any kind can be asked and called with any text, and whatever came back is taken.
pub proof fn law_all_texts_are_taken<S: ToolDyn, E: ToolEmbeddingDyn, M: McpToolDyn, T: Tool, X, A>(
    tool: ToolType<S, E, M>,
    typed: T,
    text: String,
    args: Result<T::Args, serde_json::Error>,
    returned: Result<A, X>,
    json: Result<String, serde_json::Error>,
    answer: Result<CallToolResult, ToolError<X>>,
    output: ByKind<
        Result<String, ToolError<X>>,
        Result<String, ToolError<X>>,
        Result<ToolOutput, ToolError<X>>,
    >,
    inner: ByKind<A, A, A>,
)
    ensures
        call_requires(ToolType::<S, E, M>::name, (&tool,)),
        call_requires(ToolType::<S, E, M>::definition, (&tool, text)),
        call_requires(ToolType::<S, E, M>::call, (&tool, text)),
        call_requires(ToolType::<S, E, M>::call_mcp, (&tool, text)),
        call_requires(ToolType::<S, E, M>::is_mcp, (&tool,)),
        call_requires(begin_call::<T>, (&typed, args)),
        call_requires(called::<A, X>, (returned,)),
        call_requires(written::<X>, (json,)),
        call_requires(mcp_output::<X>, (answer,)),
        call_requires(call_output::<X>, (output,)),
        call_requires(ByKind::<A, A, A>::into_inner, (inner,)),
{
}

/// Every tool that a server may list can be made, described and called with any text, and a
/// document can be made of any name and definition.
pub proof fn law_all_listed_tools_are_taken<C: 'static, E: ToolEmbeddingDyn>(
    info: ToolInfo,
    client: C,
    tool: McpTool<C>,
    arguments: Result<Option<JsonObject>, serde_json::Error>,
    text: String,
    definition: String,
    embedded: E,
    error: serde_json::Error,
)
    ensures
        call_requires(McpTool::<C>::from_mcp_server, (info, client)),
        call_requires(McpTool::<C>::client, (&tool,)),
        call_requires(McpTool::<C>::name, (&tool,)),
        call_requires(McpTool::<C>::definition, (&tool, text)),
        call_requires(McpTool::<C>::request, (&tool, arguments)),
        call_requires(McpTool::<C>::call, (&tool, text)),
        call_requires(McpTool::<C>::call_mcp, (&tool, text)),
        call_requires(ToolSchema::of_tool::<E>, (&embedded,)),
        call_requires(Document::on_tool, (text, definition)),
        call_requires(error_message, (&error,)),
{
}

} // verus!
