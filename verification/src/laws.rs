//! What holds of the library as a whole.
use crate::definition::ToolDefinition;
use crate::document::Document;
use crate::error::{McpToolError, ToolError, ToolSetError};
use crate::mcp::{calls, comes_to, comes_to_whole, McpTool};
use crate::model::{
    lemma_texts_in_next, rendering_of, texts_in, CallToolRequestParam, CallToolResult, Content,
    ToolInfo,
};
use crate::naming::{adds, goes_through, holds_all, may_name, own_names, reaches, under_names};
use crate::output::ToolOutput;
use crate::run::are_on_first;
use crate::text::{joined, lemma_joined_push};
use crate::tool::{
    answer_as_output, may_begin, output_of, output_to_write, text_of_output, ByKind, McpToolDyn,
    Tool, ToolDyn, ToolEmbeddingDyn, ToolType,
};
use crate::toolset::{outcome_of_request, ToolSet};
use vstd::prelude::*;
use vstd::std_specs::convert::FromSpec;

verus! {

/// A tool that was added is reached under a name that it gave, and requests for every other name
/// reach what they reached before.
pub proof fn law_added_tool_is_reached<S: ToolDyn, E: ToolEmbeddingDyn, M: McpToolDyn>(
    before: Map<Seq<char>, ToolType<S, E, M>>,
    tool: ToolType<S, E, M>,
    after: Map<Seq<char>, ToolType<S, E, M>>,
)
    requires
        adds(before, tool, after),
    ensures
        exists|name: Seq<char>|
            {
                &&& #[trigger] tool.may_be_named(name)
                &&& reaches(after, name) == Some(tool)
                &&& forall|other: Seq<char>|
                    other != name ==> #[trigger] reaches(after, other) == reaches(before, other)
            },
{
    let name = choose|name: Seq<char>| #[trigger]
        tool.may_be_named(name) && after == before.insert(name, tool);
    assert(tool.may_be_named(name));
    assert(reaches(after, name) == Some(tool));
}

/// A tool that gives but one name is added under this name.
pub proof fn law_added_under_its_name<S: ToolDyn, E: ToolEmbeddingDyn, M: McpToolDyn>(
    before: Map<Seq<char>, ToolType<S, E, M>>,
    tool: ToolType<S, E, M>,
    after: Map<Seq<char>, ToolType<S, E, M>>,
    name: Seq<char>,
)
    requires
        adds(before, tool, after),
        forall|given: Seq<char>| #[trigger] tool.may_be_named(given) ==> given == name,
    ensures
        after == before.insert(name, tool),
{
}

/// A tool that was deleted is not reached any more, every other tool still is, and the set has
/// one tool fewer if there was one of this name.
pub proof fn law_deleted_tool_is_not_reached<T>(set: Map<Seq<char>, T>, name: Seq<char>)
    requires
        set.dom().finite(),
    ensures
        reaches(set.remove(name), name) is None,
        forall|other: Seq<char>|
            other != name ==> #[trigger] reaches(set.remove(name), other) == reaches(set, other),
        set.remove(name).len() == set.len() - if reaches(set, name) is Some {
            1int
        } else {
            0int
        },
{
    if !set.contains_key(name) {
        assert(set.remove(name) =~= set);
    }
}

/// Deleting twice is deleting once.
pub proof fn law_deletion_is_idempotent<T>(set: Map<Seq<char>, T>, name: Seq<char>)
    ensures
        set.remove(name).remove(name) == set.remove(name),
{
    assert(set.remove(name).remove(name) =~= set.remove(name));
}

/// Deleting a tool undoes adding it, where there was no tool of its name.
pub proof fn law_deletion_undoes_addition<T>(set: Map<Seq<char>, T>, name: Seq<char>, tool: T)
    requires
        reaches(set, name) is None,
    ensures
        set.insert(name, tool).remove(name) == set,
{
    assert(set.insert(name, tool).remove(name) =~= set);
}

/// In a merged set a name reaches the tool of the set that was merged in, and where that has
/// none, the tool that was there.
pub proof fn law_merged_set_prefers_the_added<T>(
    set: Map<Seq<char>, T>,
    added: Map<Seq<char>, T>,
    name: Seq<char>,
)
    ensures
        reaches(set.union_prefer_right(added), name) == match reaches(added, name) {
            Some(tool) => Some(tool),
            None => reaches(set, name),
        },
{
}

/// Merging an empty set in changes nothing, and merging into an empty set gives what was merged
/// in.
pub proof fn law_merging_with_nothing<T>(set: Map<Seq<char>, T>)
    ensures
        set.union_prefer_right(Map::empty()) == set,
        Map::<Seq<char>, T>::empty().union_prefer_right(set) == set,
{
    assert(set.union_prefer_right(Map::empty()) =~= set);
    assert(Map::<Seq<char>, T>::empty().union_prefer_right(set) =~= set);
}

/// Merging sets one after the other is merging them into one first.
pub proof fn law_merging_is_associative<T>(
    first: Map<Seq<char>, T>,
    second: Map<Seq<char>, T>,
    third: Map<Seq<char>, T>,
)
    ensures
        first.union_prefer_right(second).union_prefer_right(third) == first.union_prefer_right(
            second.union_prefer_right(third),
        ),
{
    assert(first.union_prefer_right(second).union_prefer_right(third)
        =~= first.union_prefer_right(second.union_prefer_right(third)));
}

/// Of tools that are put under one name the last is reached.
pub proof fn law_last_tool_of_a_name_is_reached<T>(
    names: Seq<Seq<char>>,
    tools: Seq<T>,
    last: int,
)
    requires
        names.len() == tools.len(),
        0 <= last < names.len(),
        forall|i: int| last < i < names.len() ==> names[i] != names[last],
    ensures
        reaches(under_names(names, tools), names[last]) == Some(tools[last]),
    decreases tools.len(),
{
    if last < tools.len() - 1 {
        law_last_tool_of_a_name_is_reached(names.drop_last(), tools.drop_last(), last);
    }
}

/// The names under which tools are reached are those that the tools were put under.
pub proof fn law_names_that_reach<T>(names: Seq<Seq<char>>, tools: Seq<T>)
    requires
        names.len() == tools.len(),
    ensures
        forall|name: Seq<char>| #[trigger]
            reaches(under_names(names, tools), name) is Some <==> names.contains(name),
    decreases tools.len(),
{
    if tools.len() > 0 {
        law_names_that_reach(names.drop_last(), tools.drop_last());
        assert forall|name: Seq<char>| #[trigger]
            reaches(under_names(names, tools), name) is Some <==> names.contains(name) by {
            let rest = reaches(under_names(names.drop_last(), tools.drop_last()), name);
            if names.contains(name) && name != names.last() {
                let i = choose|i: int| 0 <= i < names.len() && names[i] == name;
                assert(names.drop_last()[i] == name);
                assert(rest is Some);
            }
            if names.drop_last().contains(name) {
                let i = choose|i: int|
                    0 <= i < names.drop_last().len() && names.drop_last()[i] == name;
                assert(names[i] == name);
            }
            if name == names.last() {
                assert(names[names.len() - 1] == name);
            }
        }
    }
}

/// A set has as many tools as there are names that they were put under: no more than the tools
/// that were put into it, and exactly as many if no name came twice.
pub proof fn law_size_of_a_set<T>(names: Seq<Seq<char>>, tools: Seq<T>)
    requires
        names.len() == tools.len(),
    ensures
        under_names(names, tools).dom() == names.to_set(),
        under_names(names, tools).dom().finite(),
        under_names(names, tools).len() == names.to_set().len(),
        under_names(names, tools).len() <= tools.len(),
        under_names(names, tools).len() == tools.len() <==> names.no_duplicates(),
{
    law_names_that_reach(names, tools);
    let set = under_names(names, tools);
    assert(set.dom() =~= names.to_set()) by {
        assert forall|name: Seq<char>| set.dom().contains(name) <==> names.to_set().contains(
            name,
        ) by {
            assert(reaches(set, name) is Some <==> names.contains(name));
        }
    }
    vstd::seq_lib::seq_to_set_is_finite(names);
    names.lemma_cardinality_of_set();
    if names.no_duplicates() {
        names.unique_seq_to_set();
    } else if set.len() == tools.len() {
        names.lemma_no_dup_set_cardinality();
    }
}

/// Two sets that were made of the same tools in the same order are the same, if each tool gives
/// but one name: making a set at once and building it step by step come to the same.
pub proof fn law_same_tools_make_the_same_set<S: ToolDyn, E: ToolEmbeddingDyn, M: McpToolDyn>(
    one: Map<Seq<char>, ToolType<S, E, M>>,
    other: Map<Seq<char>, ToolType<S, E, M>>,
    tools: Seq<ToolType<S, E, M>>,
)
    requires
        holds_all(one, tools),
        holds_all(other, tools),
        forall|i: int, a: Seq<char>, b: Seq<char>|
            0 <= i < tools.len() && #[trigger] tools[i].may_be_named(a)
                && #[trigger] tools[i].may_be_named(b) ==> a == b,
    ensures
        one == other,
{
    let a = choose|names: Seq<Seq<char>>| #[trigger]
        may_name(names, tools) && one == under_names(names, tools);
    let b = choose|names: Seq<Seq<char>>| #[trigger]
        may_name(names, tools) && other == under_names(names, tools);
    assert forall|i: int| 0 <= i < tools.len() implies a[i] == b[i] by {
        assert(tools[i].may_be_named(a[i]));
        assert(tools[i].may_be_named(b[i]));
    }
    assert(a =~= b);
}

/// A set without tools has none under a name that it does not give.
pub proof fn law_own_names_of_nothing<S: ToolDyn, E: ToolEmbeddingDyn, M: McpToolDyn>()
    ensures
        own_names(Map::<Seq<char>, ToolType<S, E, M>>::empty()),
{
}

/// In a set that was made of tools, at once or step by step, every tool stands under a name that
/// it gave.
pub proof fn law_own_names_of_all<S: ToolDyn, E: ToolEmbeddingDyn, M: McpToolDyn>(
    set: Map<Seq<char>, ToolType<S, E, M>>,
    tools: Seq<ToolType<S, E, M>>,
)
    requires
        holds_all(set, tools),
    ensures
        own_names(set),
    decreases tools.len(),
{
    let names = choose|names: Seq<Seq<char>>| #[trigger]
        may_name(names, tools) && set == under_names(names, tools);
    if tools.len() > 0 {
        let earlier = under_names(names.drop_last(), tools.drop_last());
        assert forall|i: int| 0 <= i < tools.len() - 1 implies (#[trigger]
        tools.drop_last()[i]).may_be_named(names.drop_last()[i]) by {
            assert(tools[i].may_be_named(names[i]));
        }
        assert(may_name(names.drop_last(), tools.drop_last()));
        law_own_names_of_all(earlier, tools.drop_last());
        assert(tools[tools.len() - 1].may_be_named(names[names.len() - 1]));
    }
}

/// Adding a tool keeps every tool under a name that it gives.
pub proof fn law_own_names_after_adding<S: ToolDyn, E: ToolEmbeddingDyn, M: McpToolDyn>(
    before: Map<Seq<char>, ToolType<S, E, M>>,
    tool: ToolType<S, E, M>,
    after: Map<Seq<char>, ToolType<S, E, M>>,
)
    requires
        own_names(before),
        adds(before, tool, after),
    ensures
        own_names(after),
{
}

/// Deleting a tool keeps every other tool under a name that it gives.
pub proof fn law_own_names_after_deleting<S: ToolDyn, E: ToolEmbeddingDyn, M: McpToolDyn>(
    set: Map<Seq<char>, ToolType<S, E, M>>,
    name: Seq<char>,
)
    requires
        own_names(set),
    ensures
        own_names(set.remove(name)),
{
}

/// Merging two sets keeps every tool under a name that it gives.
pub proof fn law_own_names_after_merging<S: ToolDyn, E: ToolEmbeddingDyn, M: McpToolDyn>(
    set: Map<Seq<char>, ToolType<S, E, M>>,
    added: Map<Seq<char>, ToolType<S, E, M>>,
)
    requires
        own_names(set),
        own_names(added),
    ensures
        own_names(set.union_prefer_right(added)),
{
}

/// Where each tool gives but one name, the documents on the tools of a set are known by the names
/// under which the tools are reached, each by another.
pub proof fn law_documents_are_known_apart<S: ToolDyn, E: ToolEmbeddingDyn, M: McpToolDyn>(
    set: ToolSet<S, E, M>,
    documents: Seq<Document>,
)
    requires
        goes_through(set.order(), set@.dom()),
        own_names(set@),
        are_on_first(documents, set.tools()),
        documents.len() == set.tools().len(),
        forall|i: int, a: Seq<char>, b: Seq<char>|
            0 <= i < set.tools().len() && #[trigger] set.tools()[i].may_be_named(a)
                && #[trigger] set.tools()[i].may_be_named(b) ==> a == b,
    ensures
        documents.map_values(|document: Document| document.id@) == set.order(),
        forall|i: int, j: int|
            0 <= i < documents.len() && 0 <= j < documents.len() && i != j ==> (
            #[trigger] documents[i]).id@ != (#[trigger] documents[j]).id@,
{
    let ids = documents.map_values(|document: Document| document.id@);
    assert forall|i: int| 0 <= i < documents.len() implies #[trigger] ids[i] == set.order()[i] by {
        let name = set.order()[i];
        assert(set.order().contains(name));
        assert(set@.contains_key(name));
        assert(set.tools()[i].may_be_named(name));
        assert(set.tools()[i].may_be_named(documents[i].id@));
    }
    assert(ids =~= set.order());
    assert forall|i: int, j: int|
        0 <= i < documents.len() && 0 <= j < documents.len() && i != j implies (#[trigger]
    documents[i]).id@ != (#[trigger] documents[j]).id@ by {
        assert(ids[i] == documents[i].id@ && ids[j] == documents[j].id@);
    }
}

/// A call of a tool with arguments and output of its own types comes to a text only if its
/// arguments were read, the tool returned an output and this was written. It fails with the
/// error of the tool only if the tool returned that, and with a JSON error only if reading or
/// writing failed with it.
pub proof fn law_call_comes_to_the_first_failure<'a, T: Tool>(
    tool: &'a T,
    args: Result<T::Args, serde_json::Error>,
    begun: Result<T::CallFuture<'a>, ToolError<T::Error>>,
    returned: Result<T::Output, T::Error>,
    json: Result<String, serde_json::Error>,
)
    requires
        may_begin(tool, args, begun),
    ensures
        ({
            let outcome = match begun {
                Err(error) => Err(error),
                Ok(_) => match output_to_write(returned) {
                    Err(error) => Err(error),
                    Ok(_) => text_of_output::<T::Error>(json),
                },
            };
            match (args, returned, json) {
                (Err(error), _, _) => outcome == Err::<String, ToolError<T::Error>>(
                    ToolError::JsonError(error),
                ),
                (Ok(_), Err(error), _) => outcome == Err::<String, ToolError<T::Error>>(
                    ToolError::ToolCallError(error),
                ),
                (Ok(_), Ok(_), Err(error)) => outcome == Err::<String, ToolError<T::Error>>(
                    ToolError::JsonError(error),
                ),
                (Ok(_), Ok(_), Ok(text)) => outcome == Ok::<String, ToolError<T::Error>>(text),
            }
        }),
{
}

/// A text becomes an output whose text it is, and which is neither an MCP answer nor an error.
pub proof fn law_text_becomes_output(text: String)
    ensures
        <ToolOutput as FromSpec<String>>::from_spec(text).text() == text@,
        <ToolOutput as FromSpec<String>>::from_spec(text) is Text,
        !<ToolOutput as FromSpec<String>>::from_spec(text).failed(),
{
}

/// An answer becomes an output that keeps it whole, and which is an error where the answer is
/// marked as failed.
pub proof fn law_answer_becomes_output(result: CallToolResult)
    ensures
        <ToolOutput as FromSpec<CallToolResult>>::from_spec(result) == ToolOutput::Mcp(result),
        <ToolOutput as FromSpec<CallToolResult>>::from_spec(result).text() == joined(
            result.texts(),
            "\n"@,
        ),
        <ToolOutput as FromSpec<CallToolResult>>::from_spec(result).failed() == result.failed(),
{
}

/// A tool outside MCP that returned a text has this text for its output, whether or not it was
/// asked for a whole answer; an MCP tool has its whole answer for its output.
pub proof fn law_output_by_kind<X>(text: String, result: CallToolResult)
    ensures
        output_of::<X>(ByKind::Simple(Ok(text))) matches Ok(output) && output is Text
            && output.text() == text@,
        output_of::<X>(ByKind::Embedding(Ok(text))) matches Ok(output) && output is Text
            && output.text() == text@,
        output_of::<X>(ByKind::Mcp(answer_as_output(Ok(result)))) == Ok::<
            ToolOutput,
            ToolError<X>,
        >(ToolOutput::Mcp(result)),
{
}

/// The failure of a tool is handed on as it is, whatever the kind of the tool.
pub proof fn law_failure_is_handed_on<X>(error: ToolError<X>)
    ensures
        output_of::<X>(ByKind::Simple(Err(error))) == Err::<ToolOutput, ToolError<X>>(error),
        output_of::<X>(ByKind::Embedding(Err(error))) == Err::<ToolOutput, ToolError<X>>(error),
        output_of::<X>(ByKind::Mcp(answer_as_output(Err(error)))) == Err::<
            ToolOutput,
            ToolError<X>,
        >(error),
{
}

/// A tool that a server provides is reached, once it was added to a set, under the name that the
/// server lists.
pub proof fn law_mcp_tool_is_reached<S: ToolDyn, E: ToolEmbeddingDyn, C: 'static>(
    before: Map<Seq<char>, ToolType<S, E, McpTool<C>>>,
    tool: McpTool<C>,
    after: Map<Seq<char>, ToolType<S, E, McpTool<C>>>,
)
    requires
        adds(before, ToolType::Mcp(Box::new(tool)), after),
    ensures
        after == before.insert(tool.info().name@, ToolType::Mcp(Box::new(tool))),
        reaches(after, tool.info().name@) == Some(
            ToolType::<S, E, McpTool<C>>::Mcp(Box::new(tool)),
        ),
{
}

/// Whether or not the whole answer is asked for, a call in a set of a tool that a server provides
/// puts the tool's own request to the server.
pub proof fn law_mcp_tool_puts_its_request<'a, S: ToolDyn, E: ToolEmbeddingDyn, C: 'static>(
    tool: McpTool<C>,
    args: String,
    pending: ByKind<S::CallFuture<'a>, E::CallFuture<'a>, CallToolRequestParam>,
)
    ensures
        ToolType::<S, E, McpTool<C>>::Mcp(Box::new(tool)).may_call(args, pending) ==> (
        pending matches ByKind::Mcp(request) && calls(request, tool.info(), args@)),
        ToolType::<S, E, McpTool<C>>::Mcp(Box::new(tool)).may_call_mcp(args, pending) ==> (
        pending matches ByKind::Mcp(request) && calls(request, tool.info(), args@)),
{
}

/// A request in a set for the output of a tool that a server provides comes to the server's whole
/// answer, unchanged and also where it is marked as failed. It fails only where no answer came,
/// and then says so in the words of the service.
pub proof fn law_mcp_tool_answers_whole<'a, S: ToolDyn, E: ToolEmbeddingDyn, C: 'static>(
    before: Map<Seq<char>, ToolType<S, E, McpTool<C>>>,
    tool: McpTool<C>,
    after: Map<Seq<char>, ToolType<S, E, McpTool<C>>>,
    args: String,
    pending: ByKind<S::CallFuture<'a>, E::CallFuture<'a>, CallToolRequestParam>,
    answer: Result<CallToolResult, String>,
    outcome: Result<CallToolResult, ToolError<McpToolError>>,
)
    requires
        adds(before, ToolType::Mcp(Box::new(tool)), after),
        reaches(after, tool.info().name@) matches Some(reached) && reached.may_call_mcp(
            args,
            pending,
        ),
        comes_to_whole(answer, outcome),
    ensures
        pending matches ByKind::Mcp(request) && calls(request, tool.info(), args@),
        ({
            let output = outcome_of_request(output_of(ByKind::Mcp(answer_as_output(outcome))));
            match answer {
                Ok(result) => output == Ok::<ToolOutput, ToolSetError<McpToolError>>(
                    ToolOutput::Mcp(result),
                ),
                Err(failure) => {
                    &&& output matches Err(ToolSetError::ToolCallError(
                        ToolError::ToolCallError(error),
                    ))
                    &&& error@ == "Tool call failed: "@ + failure@
                },
            }
        }),
{
    law_mcp_tool_is_reached(before, tool, after);
    law_mcp_tool_puts_its_request::<S, E, C>(tool, args, pending);
}

/// A request in a set for the text of a tool that a server provides comes to the rendering of the
/// server's answer. It fails on an answer that is marked as failed, with what this says went
/// wrong, and where no answer came, in the words of the service.
pub proof fn law_mcp_tool_answers_with_text<'a, S: ToolDyn, E: ToolEmbeddingDyn, C: 'static>(
    before: Map<Seq<char>, ToolType<S, E, McpTool<C>>>,
    tool: McpTool<C>,
    after: Map<Seq<char>, ToolType<S, E, McpTool<C>>>,
    args: String,
    pending: ByKind<S::CallFuture<'a>, E::CallFuture<'a>, CallToolRequestParam>,
    answer: Result<CallToolResult, String>,
    outcome: Result<String, ToolError<McpToolError>>,
)
    requires
        adds(before, ToolType::Mcp(Box::new(tool)), after),
        reaches(after, tool.info().name@) matches Some(reached) && reached.may_call(args, pending),
        answer matches Ok(result) ==> result.failed() || result.renderable(),
        comes_to(answer, outcome),
    ensures
        pending matches ByKind::Mcp(request) && calls(request, tool.info(), args@),
        match (answer, outcome_of_request(outcome)) {
            (Ok(result), Ok(text)) => !result.failed() && text@ == result.rendering(),
            (Ok(result), Err(ToolSetError::ToolCallError(ToolError::ToolCallError(error)))) => {
                &&& result.failed()
                &&& error@ == result.failure()
            },
            (Err(failure), Err(ToolSetError::ToolCallError(ToolError::ToolCallError(error)))) =>
            error@ == "Tool returned an error: "@ + failure@,
            _ => false,
        },
{
    law_mcp_tool_is_reached(before, tool, after);
    law_mcp_tool_puts_its_request::<S, E, C>(tool, args, pending);
}

/// In a set, a tool that a server provides is described as the server lists it.
pub proof fn law_mcp_tool_is_described<'a, S: ToolDyn, E: ToolEmbeddingDyn, C: 'static>(
    tool: McpTool<C>,
    prompt: String,
    pending: ByKind<S::DefinitionFuture<'a>, E::DefinitionFuture<'a>, ToolDefinition>,
)
    requires
        ToolType::<S, E, McpTool<C>>::Mcp(Box::new(tool)).may_define(prompt, pending),
    ensures
        pending matches ByKind::Mcp(definition) && definition.describes(tool.info()),
{
}

/// Where all items are texts, the texts of an answer are theirs, item by item.
pub proof fn law_texts_of_texts(items: Seq<Content>)
    requires
        forall|i: int| 0 <= i < items.len() ==> (#[trigger] items[i]).raw is Text,
    ensures
        texts_in(items) == items.map_values(|item: Content| item.raw->Text_0.text@),
    decreases items.len(),
{
    let text = |item: Content| item.raw->Text_0.text@;
    if items.len() == 0 {
        reveal(Seq::filter);
        assert(texts_in(items) =~= items.map_values(text));
    } else {
        let fewer = items.drop_last();
        law_texts_of_texts(fewer);
        lemma_texts_in_next(items, items.len() - 1);
        assert(items.take(items.len() - 1) =~= fewer);
        assert(items.take(items.len() as int) =~= items);
        assert(items.last().raw is Text);
        assert(texts_in(items) =~= items.map_values(text));
    }
}

/// What a failed call says went wrong is the text of its answer, where all items are texts.
pub proof fn law_failure_is_the_text(result: CallToolResult)
    requires
        result.only_texts(),
    ensures
        result.failure() == ToolOutput::Mcp(result).text(),
{
}

/// An answer of texts alone can be rendered: to its texts, with nothing between them.
pub proof fn law_rendering_of_texts(result: CallToolResult)
    requires
        result.only_texts(),
    ensures
        result.renderable(),
        result.rendering() == result.texts().flatten(),
{
    law_texts_of_texts(result.content@);
    assert(result.content@.map_values(|item: Content| item.raw.rendering()) =~= result.texts());
}

/// An answer of one text comes to this text, whether the call keeps the whole answer or not.
pub proof fn law_one_text_is_the_same_either_way(result: CallToolResult)
    requires
        result.content@.len() == 1,
        result.content@[0].raw is Text,
    ensures
        result.rendering() == result.content@[0].raw->Text_0.text@,
        ToolOutput::Mcp(result).text() == result.rendering(),
{
    law_texts_of_texts(result.content@);
    law_rendering_of_texts(result);
    let text = result.content@[0].raw->Text_0.text@;
    assert(result.texts() =~= seq![text]);
    result.texts().lemma_flatten_one_element();
    lemma_joined_push(Seq::empty(), text, "\n"@);
    assert(Seq::<Seq<char>>::empty().push(text) =~= seq![text]);
}

/// Rendering items one after the other is rendering them together.
pub proof fn law_rendering_goes_item_by_item(first: Seq<Content>, second: Seq<Content>)
    ensures
        rendering_of(first + second) == rendering_of(first) + rendering_of(second),
{
    let rendered = |item: Content| item.raw.rendering();
    assert((first + second).map_values(rendered) =~= first.map_values(rendered)
        + second.map_values(rendered));
    vstd::seq_lib::lemma_flatten_concat(first.map_values(rendered), second.map_values(rendered));
}

/// A server is sent the same for the same tool and arguments, whether the call keeps the whole
/// answer or not.
pub proof fn law_one_request_of_a_call(
    one: CallToolRequestParam,
    other: CallToolRequestParam,
    info: ToolInfo,
    args: Seq<char>,
)
    requires
        calls(one, info, args),
        calls(other, info, args),
    ensures
        one.name@ == other.name@,
        one.arguments == other.arguments,
{
}

/// A tool that a server lists is described in one way only.
pub proof fn law_one_definition_of_a_listed_tool(
    one: ToolDefinition,
    other: ToolDefinition,
    info: ToolInfo,
)
    requires
        one.describes(info),
        other.describes(info),
    ensures
        one.name@ == other.name@,
        one.description@ == other.description@,
        one.parameters == other.parameters,
{
}

} // verus!
