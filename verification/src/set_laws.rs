//! What holds of sets of tools, said of what the functions take and give back.
//!
//! The view of a set is the map from names to tools. The first law ties it to what a set shows of
//! itself; the others say what making and changing a set does to it.
use crate::builder::ToolSetBuilder;
use crate::definition::ToolDefinition;
use crate::document::Document;
use crate::error::{EmbedError, ToolError, ToolSetError};
use crate::naming::{as_simple, goes_through, lemma_push_contains, may_name, under_names};
use crate::run::{is_on, DefinitionRun, DocumentRun};
use crate::schema::ToolSchema;
use crate::tool::{ByKind, McpToolDyn, ToolDyn, ToolEmbeddingDyn, ToolType};
use crate::toolset::{embedding_among, fails_after, request_outcome, ToolSet};
use vstd::prelude::*;

verus! {

/// A set gives the tool that stands under a name, says whether there is one, and counts its
/// tools.
pub proof fn law_set_shows_what_it_holds<S: ToolDyn, E: ToolEmbeddingDyn, M: McpToolDyn>(
    set: &ToolSet<S, E, M>,
    name: &str,
    found: Option<&ToolType<S, E, M>>,
    contained: bool,
    len: usize,
)
    requires
        call_ensures(ToolSet::<S, E, M>::get, (set, name), found),
        call_ensures(ToolSet::<S, E, M>::contains, (set, name), contained),
        call_ensures(ToolSet::<S, E, M>::len, (set,), len),
    ensures
        found is Some <==> set@.contains_key(name@),
        found matches Some(tool) ==> *tool == set@[name@],
        contained <==> found is Some,
        set@.dom().finite(),
        len == set@.dom().len(),
{
}

/// A new set has no tools, and a new builder has none for a set.
pub proof fn law_new_set_has_no_tools<S: ToolDyn, E: ToolEmbeddingDyn, M: McpToolDyn>(
    set: ToolSet<S, E, M>,
    builder: ToolSetBuilder<S, E, M>,
    other: ToolSetBuilder<S, E, M>,
)
    requires
        call_ensures(<ToolSet<S, E, M> as Default>::default, (), set),
        call_ensures(ToolSet::<S, E, M>::builder, (), builder),
        call_ensures(<ToolSetBuilder<S, E, M> as Default>::default, (), other),
    ensures
        forall|name: Seq<char>| !(#[trigger] set@.contains_key(name)),
        builder@.len() == 0,
        other@.len() == 0,
{
}

/// A simple tool that is added to a set, boxed or not, is held as such under a name that it gave.
/// Under every other name there is what there was.
pub proof fn law_added_simple_tool_is_held<S: ToolDyn, E: ToolEmbeddingDyn, M: McpToolDyn>(
    set: &mut ToolSet<S, E, M>,
    tool: S,
)
    requires
        call_ensures(ToolSet::<S, E, M>::add_tool, (set, tool), ()) || call_ensures(
            ToolSet::<S, E, M>::add_tool_boxed,
            (set, Box::new(tool)),
            (),
        ),
    ensures
        exists|name: String| #[trigger]
            call_ensures(S::name, (&tool,), name) && {
                &&& final(set)@.contains_key(name@)
                &&& final(set)@[name@] == ToolType::<S, E, M>::Simple(Box::new(tool))
                &&& forall|other: Seq<char>|
                    other != name@ ==> (#[trigger] final(set)@.contains_key(other)
                        <==> old(set)@.contains_key(other))
                &&& forall|other: Seq<char>|
                    other != name@ && old(set)@.contains_key(other) ==> #[trigger] final(
                        set
                    )@[other] == old(set)@[other]
            },
{
    let held = ToolType::<S, E, M>::Simple(Box::new(tool));
    let under = choose|name: Seq<char>| #[trigger]
        held.may_be_named(name) && final(set)@ == old(set)@.insert(name, held);
    let name = choose|name: String|
        name@ == under && #[trigger] call_ensures(S::name, (&tool,), name);
    assert(call_ensures(S::name, (&tool,), name));
}

/// An MCP tool that is added to a set, boxed or not, is held as such under a name that it gave.
/// Under every other name there is what there was.
pub proof fn law_added_mcp_tool_is_held<S: ToolDyn, E: ToolEmbeddingDyn, M: McpToolDyn>(
    set: &mut ToolSet<S, E, M>,
    tool: M,
)
    requires
        call_ensures(ToolSet::<S, E, M>::add_mcp_tool, (set, tool), ()) || call_ensures(
            ToolSet::<S, E, M>::add_mcp_tool_boxed,
            (set, Box::new(tool)),
            (),
        ),
    ensures
        exists|name: String| #[trigger]
            call_ensures(M::name, (&tool,), name) && {
                &&& final(set)@.contains_key(name@)
                &&& final(set)@[name@] == ToolType::<S, E, M>::Mcp(Box::new(tool))
                &&& forall|other: Seq<char>|
                    other != name@ ==> (#[trigger] final(set)@.contains_key(other)
                        <==> old(set)@.contains_key(other))
                &&& forall|other: Seq<char>|
                    other != name@ && old(set)@.contains_key(other) ==> #[trigger] final(
                        set
                    )@[other] == old(set)@[other]
            },
{
    let held = ToolType::<S, E, M>::Mcp(Box::new(tool));
    let under = choose|name: Seq<char>| #[trigger]
        held.may_be_named(name) && final(set)@ == old(set)@.insert(name, held);
    let name = choose|name: String|
        name@ == under && #[trigger] call_ensures(M::name, (&tool,), name);
    assert(call_ensures(M::name, (&tool,), name));
}

/// Deleting leaves no tool under the name, and what there was under every other.
pub proof fn law_deleted_name_holds_nothing<S: ToolDyn, E: ToolEmbeddingDyn, M: McpToolDyn>(
    set: &mut ToolSet<S, E, M>,
    name: &str,
)
    requires
        call_ensures(ToolSet::<S, E, M>::delete_tool, (set, name), ()),
    ensures
        !final(set)@.contains_key(name@),
        forall|other: Seq<char>|
            other != name@ ==> (#[trigger] final(set)@.contains_key(other)
                <==> old(set)@.contains_key(other)),
        forall|other: Seq<char>|
            other != name@ && old(set)@.contains_key(other) ==> #[trigger] final(set)@[other]
                == old(set)@[other],
{
}

/// After merging, a name of the set that was merged in holds the tool of that set, and any other
/// name what it held.
pub proof fn law_merged_names_hold_the_added<S: ToolDyn, E: ToolEmbeddingDyn, M: McpToolDyn>(
    set: &mut ToolSet<S, E, M>,
    added: ToolSet<S, E, M>,
)
    requires
        call_ensures(ToolSet::<S, E, M>::add_tools, (set, added), ()),
    ensures
        forall|name: Seq<char>| #[trigger]
            final(set)@.contains_key(name) <==> old(set)@.contains_key(name) || added@.contains_key(
                name,
            ),
        forall|name: Seq<char>|
            added@.contains_key(name) ==> #[trigger] final(set)@[name] == added@[name],
        forall|name: Seq<char>|
            old(set)@.contains_key(name) && !added@.contains_key(name)
                ==> #[trigger] final(set)@[name] == old(set)@[name],
{
}

/// Names that tools may give are names of which there are strings that the tools return.
proof fn lemma_names_are_given<S: ToolDyn, E: ToolEmbeddingDyn, M: McpToolDyn>(
    names: Seq<Seq<char>>,
    tools: Seq<ToolType<S, E, M>>,
) -> (given: Seq<String>)
    requires
        may_name(names, tools),
    ensures
        given.len() == tools.len(),
        forall|i: int| 0 <= i < tools.len() ==> (#[trigger] given[i])@ == names[i],
        forall|i: int|
            #![trigger given[i]]
            0 <= i < tools.len() ==> match tools[i] {
                ToolType::Simple(tool) => call_ensures(S::name, (&*tool,), given[i]),
                ToolType::Embedding(tool) => call_ensures(E::name, (&*tool,), given[i]),
                ToolType::Mcp(tool) => call_ensures(M::name, (&*tool,), given[i]),
            },
{
    let given = Seq::new(
        tools.len(),
        |i: int|
            match tools[i] {
                ToolType::Simple(tool) => choose|name: String|
                    name@ == names[i] && #[trigger] call_ensures(S::name, (&*tool,), name),
                ToolType::Embedding(tool) => choose|name: String|
                    name@ == names[i] && #[trigger] call_ensures(E::name, (&*tool,), name),
                ToolType::Mcp(tool) => choose|name: String|
                    name@ == names[i] && #[trigger] call_ensures(M::name, (&*tool,), name),
            },
    );
    assert forall|i: int|
        #![trigger given[i]]
        0 <= i < tools.len() implies given[i]@ == names[i] && match tools[i] {
        ToolType::Simple(tool) => call_ensures(S::name, (&*tool,), given[i]),
        ToolType::Embedding(tool) => call_ensures(E::name, (&*tool,), given[i]),
        ToolType::Mcp(tool) => call_ensures(M::name, (&*tool,), given[i]),
    } by {
        assert(tools[i].may_be_named(names[i]));
    }
    given
}

/// What tools put under names come to, name by name.
proof fn lemma_under_names<T>(names: Seq<Seq<char>>, tools: Seq<T>)
    requires
        names.len() == tools.len(),
    ensures
        forall|name: Seq<char>| #[trigger]
            under_names(names, tools).contains_key(name) <==> names.contains(name),
        forall|i: int|
            #![trigger names[i]]
            0 <= i < names.len() && (forall|j: int|
                i < j < names.len() ==> #[trigger] names[j] != names[i]) ==> under_names(
                names,
                tools,
            )[names[i]] == tools[i],
    decreases tools.len(),
{
    if tools.len() > 0 {
        let fewer = names.drop_last();
        let last = names.len() - 1;
        lemma_under_names(fewer, tools.drop_last());
        assert(names =~= fewer.push(names.last()));
        assert forall|name: Seq<char>| #[trigger]
            under_names(names, tools).contains_key(name) <==> names.contains(name) by {
            lemma_push_contains(fewer, names.last(), name);
            assert(under_names(fewer, tools.drop_last()).contains_key(name) <==> fewer.contains(
                name,
            ));
        }
        assert forall|i: int|
            #![trigger names[i]]
            0 <= i < names.len() && (forall|j: int|
                i < j < names.len() ==> #[trigger] names[j] != names[i]) implies under_names(
            names,
            tools,
        )[names[i]] == tools[i] by {
            if i < last {
                assert(names[last] != names[i]);
                assert(fewer[i] == names[i]);
                assert forall|j: int| i < j < fewer.len() implies #[trigger] fewer[j]
                    != fewer[i] by {
                    assert(names[j] != names[i]);
                }
            }
        }
    }
}

/// A set that is made of simple tools holds each of them under a name that it gave, unless a
/// later one gave the same name, and nothing else.
pub proof fn law_set_holds_the_tools_it_is_made_of<
    S: ToolDyn,
    E: ToolEmbeddingDyn,
    M: McpToolDyn,
>(tools: Vec<S>, set: ToolSet<S, E, M>)
    requires
        call_ensures(ToolSet::<S, E, M>::from_tools, (tools,), set),
    ensures
        exists|names: Seq<String>|
            {
                &&& #[trigger] names.len() == tools@.len()
                &&& forall|i: int|
                    0 <= i < tools@.len() ==> call_ensures(
                        S::name,
                        (&tools@[i],),
                        #[trigger] names[i],
                    )
                &&& forall|name: Seq<char>| #[trigger]
                    set@.contains_key(name) <==> exists|i: int|
                        0 <= i < names.len() && (#[trigger] names[i])@ == name
                &&& forall|i: int|
                    #![trigger names[i]]
                    0 <= i < names.len() && (forall|j: int|
                        i < j < names.len() ==> (#[trigger] names[j])@ != names[i]@)
                        ==> set@[names[i]@] == ToolType::<S, E, M>::Simple(Box::new(tools@[i]))
            },
{
    let held = as_simple::<S, E, M>(tools@);
    let under = choose|names: Seq<Seq<char>>| #[trigger]
        may_name(names, held) && set@ == under_names(names, held);
    let names = lemma_names_are_given(under, held);
    lemma_under_names(under, held);
    assert(names.len() == tools@.len());
    assert forall|i: int| 0 <= i < tools@.len() implies call_ensures(
        S::name,
        (&tools@[i],),
        #[trigger] names[i],
    ) by {
        assert(held[i] == ToolType::<S, E, M>::Simple(Box::new(tools@[i])));
    }
    assert forall|name: Seq<char>| #[trigger]
        set@.contains_key(name) <==> exists|i: int|
            0 <= i < names.len() && (#[trigger] names[i])@ == name by {
        if under.contains(name) {
            let i = choose|i: int| 0 <= i < under.len() && under[i] == name;
            assert(names[i]@ == name);
        }
        if exists|i: int| 0 <= i < names.len() && (#[trigger] names[i])@ == name {
            let i = choose|i: int| 0 <= i < names.len() && (#[trigger] names[i])@ == name;
            assert(under[i] == name);
        }
    }
    assert forall|i: int|
        #![trigger names[i]]
        0 <= i < names.len() && (forall|j: int|
            i < j < names.len() ==> (#[trigger] names[j])@ != names[i]@) implies set@[names[i]@]
        == ToolType::<S, E, M>::Simple(Box::new(tools@[i])) by {
        assert forall|j: int| i < j < under.len() implies #[trigger] under[j] != under[i] by {
            assert(names[j]@ != names[i]@);
        }
        assert(under_names(under, held)[under[i]] == held[i]);
    }
}

/// A set that is built holds each tool of the builder under a name that it gave, unless a later
/// one gave the same name, and nothing else. A builder takes tools in order, each as it is.
pub proof fn law_built_set_holds_the_tools<S: ToolDyn, E: ToolEmbeddingDyn, M: McpToolDyn>(
    builder: ToolSetBuilder<S, E, M>,
    set: ToolSet<S, E, M>,
)
    requires
        call_ensures(ToolSetBuilder::<S, E, M>::build, (builder,), set),
    ensures
        exists|names: Seq<String>|
            {
                &&& #[trigger] names.len() == builder@.len()
                &&& forall|i: int|
                    #![trigger names[i]]
                    0 <= i < names.len() ==> match builder@[i] {
                        ToolType::Simple(tool) => call_ensures(S::name, (&*tool,), names[i]),
                        ToolType::Embedding(tool) => call_ensures(E::name, (&*tool,), names[i]),
                        ToolType::Mcp(tool) => call_ensures(M::name, (&*tool,), names[i]),
                    }
                &&& forall|name: Seq<char>| #[trigger]
                    set@.contains_key(name) <==> exists|i: int|
                        0 <= i < names.len() && (#[trigger] names[i])@ == name
                &&& forall|i: int|
                    #![trigger names[i]]
                    0 <= i < names.len() && (forall|j: int|
                        i < j < names.len() ==> (#[trigger] names[j])@ != names[i]@)
                        ==> set@[names[i]@] == builder@[i]
            },
{
    let held = builder@;
    let under = choose|names: Seq<Seq<char>>| #[trigger]
        may_name(names, held) && set@ == under_names(names, held);
    let names = lemma_names_are_given(under, held);
    lemma_under_names(under, held);
    assert(names.len() == builder@.len());
    assert forall|name: Seq<char>| #[trigger]
        set@.contains_key(name) <==> exists|i: int|
            0 <= i < names.len() && (#[trigger] names[i])@ == name by {
        if under.contains(name) {
            let i = choose|i: int| 0 <= i < under.len() && under[i] == name;
            assert(names[i]@ == name);
        }
        if exists|i: int| 0 <= i < names.len() && (#[trigger] names[i])@ == name {
            let i = choose|i: int| 0 <= i < names.len() && (#[trigger] names[i])@ == name;
            assert(under[i] == name);
        }
    }
    assert forall|i: int|
        #![trigger names[i]]
        0 <= i < names.len() && (forall|j: int|
            i < j < names.len() ==> (#[trigger] names[j])@ != names[i]@) implies set@[names[i]@]
        == builder@[i] by {
        assert forall|j: int| i < j < under.len() implies #[trigger] under[j] != under[i] by {
            assert(names[j]@ != names[i]@);
        }
        assert(under_names(under, held)[under[i]] == held[i]);
    }
}

/// A builder takes a simple tool, or one that can be embedded, as such and after the others.
pub proof fn law_builder_takes_tools_in_order<S: ToolDyn, E: ToolEmbeddingDyn, M: McpToolDyn>(
    builder: ToolSetBuilder<S, E, M>,
    simple: S,
    with_simple: ToolSetBuilder<S, E, M>,
    embedding: E,
    with_embedding: ToolSetBuilder<S, E, M>,
)
    requires
        call_ensures(ToolSetBuilder::<S, E, M>::static_tool, (builder, simple), with_simple),
        call_ensures(
            ToolSetBuilder::<S, E, M>::dynamic_tool,
            (builder, embedding),
            with_embedding,
        ),
    ensures
        with_simple@.len() == builder@.len() + 1,
        with_simple@.drop_last() == builder@,
        with_simple@.last() == ToolType::<S, E, M>::Simple(Box::new(simple)),
        with_embedding@.len() == builder@.len() + 1,
        with_embedding@.drop_last() == builder@,
        with_embedding@.last() == ToolType::<S, E, M>::Embedding(Box::new(embedding)),
{
}

/// A call in a set is handed to the tool that stands under the name, with exactly the arguments
/// that were given, and what that tool's own call hands back is handed back. Where there is no
/// tool, the call fails with the name.
pub proof fn law_set_calls_the_tool_of_the_name<
    'a,
    S: ToolDyn,
    E: ToolEmbeddingDyn,
    M: McpToolDyn,
    X,
>(
    set: &'a ToolSet<S, E, M>,
    name: &str,
    args: String,
    found: Option<&'a ToolType<S, E, M>>,
    pending: Result<
        ByKind<S::CallFuture<'a>, E::CallFuture<'a>, M::CallFuture<'a>>,
        ToolSetError<X>,
    >,
)
    requires
        call_ensures(ToolSet::<S, E, M>::get, (set, name), found),
        call_ensures(ToolSet::<S, E, M>::call::<X>, (set, name, args), pending),
    ensures
        match found {
            None => pending matches Err(ToolSetError::ToolNotFoundError(unknown)) && unknown@
                == name@,
            Some(ToolType::Simple(tool)) => pending matches Ok(ByKind::Simple(future))
                && call_ensures(S::call, (&**tool, args), future),
            Some(ToolType::Embedding(tool)) => pending matches Ok(ByKind::Embedding(future))
                && call_ensures(E::call, (&**tool, args), future),
            Some(ToolType::Mcp(tool)) => pending matches Ok(ByKind::Mcp(future)) && call_ensures(
                M::call,
                (&**tool, args),
                future,
            ),
        },
{
}

/// A call in a set for an output is handed to the tool that stands under the name, with exactly
/// the arguments that were given; an MCP tool is asked for its whole answer. Where there is no
/// tool, the call fails with the name.
pub proof fn law_set_calls_the_tool_of_the_name_for_an_output<
    'a,
    S: ToolDyn,
    E: ToolEmbeddingDyn,
    M: McpToolDyn,
    X,
>(
    set: &'a ToolSet<S, E, M>,
    name: &str,
    args: String,
    found: Option<&'a ToolType<S, E, M>>,
    pending: Result<
        ByKind<S::CallFuture<'a>, E::CallFuture<'a>, M::OutputFuture<'a>>,
        ToolSetError<X>,
    >,
)
    requires
        call_ensures(ToolSet::<S, E, M>::get, (set, name), found),
        call_ensures(ToolSet::<S, E, M>::call_mcp::<X>, (set, name, args), pending),
    ensures
        match found {
            None => pending matches Err(ToolSetError::ToolNotFoundError(unknown)) && unknown@
                == name@,
            Some(ToolType::Simple(tool)) => pending matches Ok(ByKind::Simple(future))
                && call_ensures(S::call, (&**tool, args), future),
            Some(ToolType::Embedding(tool)) => pending matches Ok(ByKind::Embedding(future))
                && call_ensures(E::call, (&**tool, args), future),
            Some(ToolType::Mcp(tool)) => pending matches Ok(ByKind::Mcp(future)) && call_ensures(
                M::call_mcp_output,
                (&**tool, args),
                future,
            ),
        },
{
}

/// A request to a set comes to what the tool came to; its failure is the failure of a call.
pub proof fn law_request_comes_to_what_the_tool_did<T, X>(
    returned: Result<T, ToolError<X>>,
    outcome: Result<T, ToolSetError<X>>,
)
    requires
        call_ensures(request_outcome::<T, X>, (returned,), outcome),
    ensures
        match returned {
            Ok(output) => outcome == Ok::<T, ToolSetError<X>>(output),
            Err(error) => outcome == Err::<T, ToolSetError<X>>(ToolSetError::ToolCallError(error)),
        },
{
}

/// A set is gone through name by name, each name once, and the tools that are met are those that
/// stand under these names.
pub proof fn law_set_is_gone_through_once<S: ToolDyn, E: ToolEmbeddingDyn, M: McpToolDyn>(
    set: &ToolSet<S, E, M>,
    index: usize,
    met: Option<&ToolType<S, E, M>>,
)
    requires
        call_ensures(ToolSet::<S, E, M>::nth, (set, index), met),
    ensures
        forall|i: int, j: int|
            0 <= i < j < set.order().len() ==> #[trigger] set.order()[i]
                != #[trigger] set.order()[j],
        forall|i: int|
            0 <= i < set.order().len() ==> set@.contains_key(#[trigger] set.order()[i]),
        forall|name: Seq<char>| #[trigger]
            set@.contains_key(name) ==> exists|i: int|
                0 <= i < set.order().len() && #[trigger] set.order()[i] == name,
        met is Some <==> index < set.order().len(),
        met matches Some(tool) ==> *tool == set@[set.order()[index as int]],
        set.tools().len() == set.order().len(),
        forall|i: int|
            0 <= i < set.order().len() ==> #[trigger] set.tools()[i] == set@[set.order()[i]],
{
    let order = set.order();
    assert forall|i: int| 0 <= i < order.len() implies set@.contains_key(#[trigger] order[i]) by {
        assert(order.contains(order[i]));
    }
    assert forall|name: Seq<char>| #[trigger] set@.contains_key(name) implies exists|i: int|
        0 <= i < order.len() && #[trigger] order[i] == name by {
        assert(order.contains(name));
    }
}

/// The tools that can be embedded among those under the names of `order`, with the names that
/// they stand under.
proof fn lemma_embedded_names<S, E, M>(
    held: Map<Seq<char>, ToolType<S, E, M>>,
    order: Seq<Seq<char>>,
    tools: Seq<ToolType<S, E, M>>,
) -> (names: Seq<Seq<char>>)
    requires
        order.no_duplicates(),
        tools.len() == order.len(),
        forall|i: int| 0 <= i < order.len() ==> #[trigger] tools[i] == held[order[i]],
    ensures
        names.no_duplicates(),
        forall|name: Seq<char>| #[trigger]
            names.contains(name) <==> order.contains(name) && held[name] is Embedding,
        names.len() == embedding_among(tools).len(),
        forall|i: int|
            0 <= i < names.len() ==> held[#[trigger] names[i]] is Embedding
                && *held[names[i]]->Embedding_0 == embedding_among(tools)[i],
    decreases order.len(),
{
    reveal(Seq::filter);
    if order.len() == 0 {
        Seq::empty()
    } else {
        let last = order.len() - 1;
        let fewer = order.drop_last();
        let rest = tools.drop_last();
        assert forall|i: int| 0 <= i < fewer.len() implies #[trigger] rest[i] == held[fewer[i]] by {
            assert(tools[i] == held[order[i]]);
        }
        let names = lemma_embedded_names(held, fewer, rest);
        assert(order =~= fewer.push(order.last()));
        assert(tools[last] == held[order[last]]);
        assert forall|name: Seq<char>| #[trigger]
            order.contains(name) <==> fewer.contains(name) || name == order.last() by {
            lemma_push_contains(fewer, order.last(), name);
        }
        if fewer.contains(order.last()) {
            let i = choose|i: int| 0 <= i < fewer.len() && fewer[i] == order.last();
            assert(order[i] == order[last]);
        }
        if held[order.last()] is Embedding {
            let more = names.push(order.last());
            assert(embedding_among(tools) =~= embedding_among(rest).push(
                *tools.last()->Embedding_0,
            ));
            assert forall|name: Seq<char>| #[trigger]
                more.contains(name) <==> order.contains(name) && held[name] is Embedding by {
                lemma_push_contains(names, order.last(), name);
                assert(names.contains(name) <==> fewer.contains(name) && held[name] is Embedding);
                assert(order.contains(name) <==> fewer.contains(name) || name == order.last());
            }
            assert forall|i: int, j: int|
                0 <= i < more.len() && 0 <= j < more.len() && i != j implies more[i]
                != more[j] by {
                if i < names.len() {
                    assert(names.contains(names[i]));
                }
                if j < names.len() {
                    assert(names.contains(names[j]));
                }
            }
            assert forall|i: int| 0 <= i < more.len() implies held[#[trigger] more[i]] is Embedding
                && *held[more[i]]->Embedding_0 == embedding_among(tools)[i] by {
                if i < names.len() {
                    assert(more[i] == names[i]);
                }
            }
            more
        } else {
            assert(embedding_among(tools) =~= embedding_among(rest));
            assert forall|name: Seq<char>| #[trigger]
                names.contains(name) <==> order.contains(name) && held[name] is Embedding by {
                assert(names.contains(name) <==> fewer.contains(name) && held[name] is Embedding);
                assert(order.contains(name) <==> fewer.contains(name) || name == order.last());
            }
            names
        }
    }
}

/// The tools of a set that can be embedded are those that stand under some name and can be: each
/// of them is there, once for each name that it stands under, and there is no other.
pub proof fn law_embedding_tools_are_those_held<S: ToolDyn, E: ToolEmbeddingDyn, M: McpToolDyn>(
    set: ToolSet<S, E, M>,
)
    requires
        goes_through(set.order(), set@.dom()),
    ensures
        forall|name: Seq<char>| #[trigger]
            set@.contains_key(name) && set@[name] is Embedding ==> set.embedding_tools().contains(
                *set@[name]->Embedding_0,
            ),
        forall|tool: E| #[trigger]
            set.embedding_tools().contains(tool) ==> exists|name: Seq<char>| #[trigger]
                set@.contains_key(name) && set@[name] == ToolType::<S, E, M>::Embedding(
                    Box::new(tool),
                ),
        set.embedding_tools().len() == set@.dom().filter(
            |name: Seq<char>| set@[name] is Embedding,
        ).len(),
{
    let order = set.order();
    let embedded = set.embedding_tools();
    let names = lemma_embedded_names(set@, order, set.tools());
    assert forall|name: Seq<char>| #[trigger]
        set@.contains_key(name) && set@[name] is Embedding implies embedded.contains(
        *set@[name]->Embedding_0,
    ) by {
        assert(order.contains(name));
        assert(names.contains(name));
        let i = choose|i: int| 0 <= i < names.len() && names[i] == name;
        assert(embedded[i] == *set@[names[i]]->Embedding_0);
    }
    assert forall|tool: E| #[trigger] embedded.contains(tool) implies exists|name: Seq<char>|
        #[trigger] set@.contains_key(name) && set@[name] == ToolType::<S, E, M>::Embedding(
            Box::new(tool),
        ) by {
        let i = choose|i: int| 0 <= i < embedded.len() && embedded[i] == tool;
        let name = names[i];
        assert(names.contains(name));
        assert(order.contains(name));
        assert(set@.contains_key(name));
    }
    lemma_embedded_count(set, names);
}

/// As many names hold tools that can be embedded as there are in a list of these names.
proof fn lemma_embedded_count<S: ToolDyn, E: ToolEmbeddingDyn, M: McpToolDyn>(
    set: ToolSet<S, E, M>,
    names: Seq<Seq<char>>,
)
    requires
        goes_through(set.order(), set@.dom()),
        names.no_duplicates(),
        forall|name: Seq<char>| #[trigger]
            names.contains(name) <==> set.order().contains(name) && set@[name] is Embedding,
    ensures
        names.len() == set@.dom().filter(|name: Seq<char>| set@[name] is Embedding).len(),
{
    names.unique_seq_to_set();
    let embedded = set@.dom().filter(|name: Seq<char>| set@[name] is Embedding);
    assert forall|name: Seq<char>| names.to_set().contains(name) <==> embedded.contains(name) by {
        assert(names.contains(name) <==> set.order().contains(name) && set@[name] is Embedding);
        assert(set.order().contains(name) <==> set@.dom().contains(name));
    }
    assert(names.to_set() =~= embedded);
}

/// There is a schema for each name under which a tool stands that can be embedded, with what this
/// tool says of itself, and there are no others.
pub proof fn law_schemas_are_of_all_that_embed<S: ToolDyn, E: ToolEmbeddingDyn, M: McpToolDyn>(
    set: &ToolSet<S, E, M>,
    schemas: Vec<ToolSchema>,
)
    requires
        call_ensures(ToolSet::<S, E, M>::schemas, (set,), Ok(schemas)),
    ensures
        exists|names: Seq<Seq<char>>|
            {
                &&& #[trigger] names.no_duplicates()
                &&& names.len() == schemas@.len()
                &&& forall|name: Seq<char>| #[trigger]
                    names.contains(name) <==> set@.contains_key(name) && set@[name] is Embedding
                &&& forall|i: int|
                    #![trigger names[i]]
                    0 <= i < names.len() ==> {
                        let tool = set@[names[i]]->Embedding_0;
                        &&& call_ensures(E::name, (&*tool,), schemas@[i].name)
                        &&& call_ensures(E::context, (&*tool,), Ok(schemas@[i].context))
                        &&& call_ensures(E::embedding_docs, (&*tool,), schemas@[i].embedding_docs)
                    }
            },
        schemas@.len() == set@.dom().filter(|name: Seq<char>| set@[name] is Embedding).len(),
{
    let order = set.order();
    let names = lemma_embedded_names(set@, order, set.tools());
    assert forall|name: Seq<char>| #[trigger]
        names.contains(name) <==> set@.contains_key(name) && set@[name] is Embedding by {
        assert(order.contains(name) <==> set@.dom().contains(name));
    }
    assert forall|i: int|
        #![trigger names[i]]
        0 <= i < names.len() implies {
        let tool = set@[names[i]]->Embedding_0;
        &&& call_ensures(E::name, (&*tool,), schemas@[i].name)
        &&& call_ensures(E::context, (&*tool,), Ok(schemas@[i].context))
        &&& call_ensures(E::embedding_docs, (&*tool,), schemas@[i].embedding_docs)
    } by {
        assert(schemas@[i].may_be_of(&set.embedding_tools()[i]));
    }
    lemma_embedded_count(*set, names);
}

/// There are no schemas only where a tool stands under some name that can be embedded and has no
/// context to give, for just the reason that is returned.
pub proof fn law_schemas_fail_by_a_tool<S: ToolDyn, E: ToolEmbeddingDyn, M: McpToolDyn>(
    set: &ToolSet<S, E, M>,
    error: EmbedError,
)
    requires
        call_ensures(ToolSet::<S, E, M>::schemas, (set,), Err(error)),
    ensures
        exists|name: Seq<char>| #[trigger]
            set@.contains_key(name) && (set@[name] matches ToolType::Embedding(tool)
                && call_ensures(E::context, (&*tool,), Err(error.0))),
{
    let order = set.order();
    let embedded = set.embedding_tools();
    let names = lemma_embedded_names(set@, order, set.tools());
    let schemas = choose|schemas: Seq<ToolSchema>| #[trigger]
        fails_after(schemas, embedded, error);
    let name = names[schemas.len() as int];
    assert(names.contains(name));
    assert(order.contains(name));
    assert(set@.contains_key(name));
    assert(*set@[name]->Embedding_0 == embedded[schemas.len() as int]);
}

/// Definitions are gathered from the beginning of a set, and in the order in which they come, one
/// of each tool.
pub proof fn law_definitions_are_gathered<'a, S: ToolDyn, E: ToolEmbeddingDyn, M: McpToolDyn, X>(
    set: &'a ToolSet<S, E, M>,
    begun: DefinitionRun<'a, S, E, M>,
    run: &mut DefinitionRun<'a, S, E, M>,
    definition: ToolDefinition,
    finished: DefinitionRun<'a, S, E, M>,
    definitions: Result<Vec<ToolDefinition>, ToolSetError<X>>,
)
    requires
        call_ensures(ToolSet::<S, E, M>::get_tool_definitions, (set,), begun),
        call_ensures(DefinitionRun::<'a, S, E, M>::accept, (run, definition), ()),
        call_ensures(DefinitionRun::<'a, S, E, M>::finish::<X>, (finished,), definitions),
    ensures
        begun.set() == *set,
        begun.definitions().len() == 0,
        final(run).set() == old(run).set(),
        final(run).definitions().len() == old(run).definitions().len() + 1,
        final(run).definitions().drop_last() == old(run).definitions(),
        final(run).definitions().last() == definition,
        definitions matches Ok(gathered) && gathered@ == finished.definitions(),
        finished.definitions().len() == finished.set().order().len(),
{
}

/// While definitions are gathered, the tool that is asked next is the one that comes after as
/// many others as have been asked. It is asked without a prompt. When all have been asked, none
/// is.
pub proof fn law_next_tool_is_asked_for_its_definition<
    'a,
    S: ToolDyn,
    E: ToolEmbeddingDyn,
    M: McpToolDyn,
>(
    run: &DefinitionRun<'a, S, E, M>,
    pending: Option<
        ByKind<S::DefinitionFuture<'a>, E::DefinitionFuture<'a>, M::DefinitionFuture<'a>>,
    >,
)
    requires
        call_ensures(DefinitionRun::<'a, S, E, M>::next, (run,), pending),
    ensures
        pending is Some <==> run.definitions().len() < run.set().order().len(),
        pending matches Some(pending) ==> exists|prompt: String| #[trigger]
            prompt@.len() == 0 && match run.set()@[run.set().order()[run.definitions().len() as int]]
            {
                ToolType::Simple(tool) => pending matches ByKind::Simple(future) && call_ensures(
                    S::definition,
                    (&*tool, prompt),
                    future,
                ),
                ToolType::Embedding(tool) => pending matches ByKind::Embedding(future)
                    && call_ensures(E::definition, (&*tool, prompt), future),
                ToolType::Mcp(tool) => pending matches ByKind::Mcp(future) && call_ensures(
                    M::definition,
                    (&*tool, prompt),
                    future,
                ),
            },
{
    if let Some(pending) = pending {
        let tool = run.set().tools()[run.definitions().len() as int];
        let prompt = choose|prompt: String|
            prompt@.len() == 0 && #[trigger] tool.may_define(prompt, pending);
        assert(prompt@.len() == 0);
    }
}

/// While documents are made, the tool that is asked next is the one that comes after as many
/// others as there are documents. It is asked for its name, and for its definition without a
/// prompt. When there is a document on each, none is asked.
pub proof fn law_next_tool_is_asked_for_its_document<
    'a,
    S: ToolDyn,
    E: ToolEmbeddingDyn,
    M: McpToolDyn,
>(
    run: &mut DocumentRun<'a, S, E, M>,
    pending: Option<
        ByKind<S::DefinitionFuture<'a>, E::DefinitionFuture<'a>, M::DefinitionFuture<'a>>,
    >,
)
    requires
        call_ensures(DocumentRun::<'a, S, E, M>::next, (run,), pending),
    ensures
        final(run).set() == old(run).set(),
        final(run).documents() == old(run).documents(),
        pending is Some <==> old(run).documents().len() < old(run).set().order().len(),
        pending is Some <==> final(run).asked() is Some,
        pending matches Some(pending) ==> exists|name: String, prompt: String|
            #![trigger name@, prompt@]
            final(run).asked() == Some(name@) && prompt@.len() == 0 && match old(run).set()@[old(
                run
            ).set().order()[old(run).documents().len() as int]] {
                ToolType::Simple(tool) => call_ensures(S::name, (&*tool,), name) && (
                pending matches ByKind::Simple(future) && call_ensures(
                    S::definition,
                    (&*tool, prompt),
                    future,
                )),
                ToolType::Embedding(tool) => call_ensures(E::name, (&*tool,), name) && (
                pending matches ByKind::Embedding(future) && call_ensures(
                    E::definition,
                    (&*tool, prompt),
                    future,
                )),
                ToolType::Mcp(tool) => call_ensures(M::name, (&*tool,), name) && (
                pending matches ByKind::Mcp(future) && call_ensures(
                    M::definition,
                    (&*tool, prompt),
                    future,
                )),
            },
{
    if let Some(pending) = pending {
        let tool = old(run).set().tools()[old(run).documents().len() as int];
        let asked = final(run).asked()->Some_0;
        let prompt = choose|prompt: String|
            prompt@.len() == 0 && #[trigger] tool.may_define(prompt, pending);
        let name = match tool {
            ToolType::Simple(tool) => choose|name: String|
                name@ == asked && #[trigger] call_ensures(S::name, (&*tool,), name),
            ToolType::Embedding(tool) => choose|name: String|
                name@ == asked && #[trigger] call_ensures(E::name, (&*tool,), name),
            ToolType::Mcp(tool) => choose|name: String|
                name@ == asked && #[trigger] call_ensures(M::name, (&*tool,), name),
        };
        assert(tool.may_be_named(asked));
        assert(name@ == asked && prompt@.len() == 0);
    }
}

/// Making documents begins with none. A definition that was written makes a document at the end,
/// known by the name of the tool that was asked, whose text has this name behind `Tool: ` and
/// ends with the whole definition behind `Definition: `. One that could not be written is a
/// failure for just this reason, and makes none.
pub proof fn law_definition_makes_a_document<
    'a,
    S: ToolDyn,
    E: ToolEmbeddingDyn,
    M: McpToolDyn,
    X,
>(
    set: &'a ToolSet<S, E, M>,
    begun: DocumentRun<'a, S, E, M>,
    asking: bool,
    run: &mut DocumentRun<'a, S, E, M>,
    definition: Result<String, serde_json::Error>,
    made: Result<(), ToolSetError<X>>,
)
    requires
        call_ensures(ToolSet::<S, E, M>::documents, (set,), begun),
        call_ensures(DocumentRun::<'a, S, E, M>::is_asking, (&*old(run),), asking),
        old(run).asked() is Some,
        call_ensures(DocumentRun::<'a, S, E, M>::accept::<X>, (run, definition), made),
    ensures
        begun.set() == *set,
        begun.documents().len() == 0,
        begun.asked() is None,
        asking <==> old(run).asked() is Some,
        final(run).set() == old(run).set(),
        final(run).asked() is None,
        match definition {
            Ok(definition) => {
                let name = old(run).asked()->Some_0;
                let document = final(run).documents().last();
                &&& made is Ok
                &&& final(run).documents().len() == old(run).documents().len() + 1
                &&& final(run).documents().drop_last() == old(run).documents()
                &&& document.id@ == name
                &&& document.text@ == "Tool: "@ + name + "\nDefinition: \n"@ + definition@
                &&& document.text@.skip(document.text@.len() - definition@.len()) == definition@
                &&& document.additional_props@ == Map::<String, String>::empty()
            },
            Err(error) => {
                &&& made == Err::<(), ToolSetError<X>>(ToolSetError::JsonError(error))
                &&& final(run).documents() == old(run).documents()
            },
        },
{
    if let Ok(definition) = definition {
        let document = final(run).documents().last();
        assert(document.text@.skip(document.text@.len() - definition@.len()) =~= definition@);
    }
}

/// The documents that were made are given in the end, one on each tool and in the order of the
/// set. Each is known by a name that its tool gave, and its text begins with this name behind
/// `Tool: `.
pub proof fn law_there_is_a_document_on_each_tool<
    'a,
    S: ToolDyn,
    E: ToolEmbeddingDyn,
    M: McpToolDyn,
    X,
>(
    run: DocumentRun<'a, S, E, M>,
    documents: Result<Vec<Document>, ToolSetError<X>>,
    i: int,
)
    requires
        call_ensures(DocumentRun::<'a, S, E, M>::finish::<X>, (run,), documents),
        0 <= i < run.set().order().len(),
    ensures
        documents matches Ok(made) && made@ == run.documents(),
        run.documents().len() == run.set().order().len(),
        match run.set()@[run.set().order()[i]] {
            ToolType::Simple(tool) => exists|name: String|
                name@ == run.documents()[i].id@ && #[trigger] call_ensures(
                    S::name,
                    (&*tool,),
                    name,
                ),
            ToolType::Embedding(tool) => exists|name: String|
                name@ == run.documents()[i].id@ && #[trigger] call_ensures(
                    E::name,
                    (&*tool,),
                    name,
                ),
            ToolType::Mcp(tool) => exists|name: String|
                name@ == run.documents()[i].id@ && #[trigger] call_ensures(
                    M::name,
                    (&*tool,),
                    name,
                ),
        },
        ("Tool: "@ + run.documents()[i].id@ + "\nDefinition: \n"@).is_prefix_of(
            run.documents()[i].text@,
        ),
{
    let document = run.documents()[i];
    assert(is_on(document, run.set().tools()[i]));
    let definition = choose|definition: Seq<char>| #[trigger]
        document.is_on_tool(document.id@, definition);
    assert(document.text@ == "Tool: "@ + document.id@ + "\nDefinition: \n"@ + definition);
}

/// A set can be asked for any name, called with any text and gone through at any time.
pub proof fn law_all_names_are_taken<S: ToolDyn, E: ToolEmbeddingDyn, M: McpToolDyn, T, X>(
    set: &ToolSet<S, E, M>,
    name: &str,
    args: String,
    index: usize,
    returned: Result<T, ToolError<X>>,
)
    ensures
        call_requires(ToolSet::<S, E, M>::contains, (set, name)),
        call_requires(ToolSet::<S, E, M>::len, (set,)),
        call_requires(ToolSet::<S, E, M>::get, (set, name)),
        call_requires(ToolSet::<S, E, M>::nth, (set, index)),
        call_requires(ToolSet::<S, E, M>::call::<X>, (set, name, args)),
        call_requires(ToolSet::<S, E, M>::call_mcp::<X>, (set, name, args)),
        call_requires(ToolSet::<S, E, M>::get_tool_definitions, (set,)),
        call_requires(ToolSet::<S, E, M>::documents, (set,)),
        call_requires(ToolSet::<S, E, M>::schemas, (set,)),
        call_requires(request_outcome::<T, X>, (returned,)),
{
}

/// Any tool can be added to a set or built into one, any name deleted from it, and any set merged
/// in.
pub proof fn law_all_tools_are_taken<S: ToolDyn, E: ToolEmbeddingDyn, M: McpToolDyn>(
    set: &mut ToolSet<S, E, M>,
    added: ToolSet<S, E, M>,
    builder: ToolSetBuilder<S, E, M>,
    simple: S,
    embedding: E,
    mcp: M,
    tools: Vec<S>,
    name: &str,
)
    ensures
        call_requires(ToolSet::<S, E, M>::builder, ()),
        call_requires(ToolSet::<S, E, M>::from_tools, (tools,)),
        call_requires(ToolSet::<S, E, M>::add_tool, (set, simple)),
        call_requires(ToolSet::<S, E, M>::add_tool_boxed, (set, Box::new(simple))),
        call_requires(ToolSet::<S, E, M>::add_mcp_tool, (set, mcp)),
        call_requires(ToolSet::<S, E, M>::add_mcp_tool_boxed, (set, Box::new(mcp))),
        call_requires(ToolSet::<S, E, M>::delete_tool, (set, name)),
        call_requires(ToolSet::<S, E, M>::add_tools, (set, added)),
        call_requires(ToolSetBuilder::<S, E, M>::static_tool, (builder, simple)),
        call_requires(ToolSetBuilder::<S, E, M>::dynamic_tool, (builder, embedding)),
        call_requires(ToolSetBuilder::<S, E, M>::build, (builder,)),
{
}

/// A run goes on as long as there is a tool that it has not been through, and then it ends.
pub proof fn law_runs_go_on_to_the_end<'a, S: ToolDyn, E: ToolEmbeddingDyn, M: McpToolDyn, X>(
    definitions: &mut DefinitionRun<'a, S, E, M>,
    definition: ToolDefinition,
    documents: &mut DocumentRun<'a, S, E, M>,
    written: Result<String, serde_json::Error>,
)
    ensures
        call_requires(DefinitionRun::<'a, S, E, M>::next, (&*old(definitions),)),
        if old(definitions).definitions().len() < old(definitions).set().order().len() {
            call_requires(DefinitionRun::<'a, S, E, M>::accept, (definitions, definition))
        } else {
            call_requires(DefinitionRun::<'a, S, E, M>::finish::<X>, (*old(definitions),))
        },
        call_requires(DocumentRun::<'a, S, E, M>::next, (documents,)),
        call_requires(DocumentRun::<'a, S, E, M>::is_asking, (&*old(documents),)),
        old(documents).asked() is Some ==> call_requires(
            DocumentRun::<'a, S, E, M>::accept::<X>,
            (documents, written),
        ),
        old(documents).documents().len() >= old(documents).set().order().len() ==> call_requires(
            DocumentRun::<'a, S, E, M>::finish::<X>,
            (*old(documents),),
        ),
{
}

} // verus!
