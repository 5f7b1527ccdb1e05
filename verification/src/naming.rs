//! Names of tools, and what they lead to in a set.
use crate::tool::{McpToolDyn, ToolDyn, ToolEmbeddingDyn, ToolType};
use vstd::prelude::*;

verus! {

/// Whether `order` goes through `names`, each of them once.
pub open spec fn goes_through(order: Seq<Seq<char>>, names: Set<Seq<char>>) -> bool {
    &&& order.no_duplicates()
    &&& forall|name: Seq<char>| #[trigger] order.contains(name) <==> names.contains(name)
}

/// The tool that a request for `name` reaches in a set.
pub open spec fn reaches<T>(set: Map<Seq<char>, T>, name: Seq<char>) -> Option<T> {
    if set.contains_key(name) {
        Some(set[name])
    } else {
        None
    }
}

/// Going through the names of a finite map takes as many steps as it has names.
pub(crate) proof fn lemma_steps<T>(order: Seq<Seq<char>>, set: Map<Seq<char>, T>)
    requires
        goes_through(order, set.dom()),
    ensures
        order.len() == set.len(),
        set.dom().finite(),
{
    order.unique_seq_to_set();
    vstd::seq_lib::seq_to_set_is_finite(order);
    assert(order.to_set() =~= set.dom());
}

/// Whether every tool of `set` stands under a name that it may give.
pub open spec fn own_names<S: ToolDyn, E: ToolEmbeddingDyn, M: McpToolDyn>(
    set: Map<Seq<char>, ToolType<S, E, M>>,
) -> bool {
    forall|name: Seq<char>| #[trigger] set.contains_key(name) ==> set[name].may_be_named(name)
}

/// Whether `after` is `before` with `tool` under a name that it may give.
pub open spec fn adds<S: ToolDyn, E: ToolEmbeddingDyn, M: McpToolDyn>(
    before: Map<Seq<char>, ToolType<S, E, M>>,
    tool: ToolType<S, E, M>,
    after: Map<Seq<char>, ToolType<S, E, M>>,
) -> bool {
    exists|name: Seq<char>| #[trigger]
        tool.may_be_named(name) && after == before.insert(name, tool)
}

/// `tools` put under `names`, one after the other: where a name comes again, the later tool
/// stays.
pub open spec fn under_names<T>(names: Seq<Seq<char>>, tools: Seq<T>) -> Map<Seq<char>, T>
    recommends
        names.len() == tools.len(),
    decreases tools.len(),
{
    if tools.len() == 0 {
        Map::empty()
    } else {
        under_names(names.drop_last(), tools.drop_last()).insert(names.last(), tools.last())
    }
}

/// Whether `names` are names that `tools` may give.
pub open spec fn may_name<S: ToolDyn, E: ToolEmbeddingDyn, M: McpToolDyn>(
    names: Seq<Seq<char>>,
    tools: Seq<ToolType<S, E, M>>,
) -> bool {
    &&& names.len() == tools.len()
    &&& forall|i: int|
        0 <= i < tools.len() ==> (#[trigger] tools[i]).may_be_named(names[i])
}

/// Whether `set` is what putting `tools` one after the other under their names may come to.
pub open spec fn holds_all<S: ToolDyn, E: ToolEmbeddingDyn, M: McpToolDyn>(
    set: Map<Seq<char>, ToolType<S, E, M>>,
    tools: Seq<ToolType<S, E, M>>,
) -> bool {
    exists|names: Seq<Seq<char>>| #[trigger]
        may_name(names, tools) && set == under_names(names, tools)
}

/// Going on to one more tool.
pub(crate) proof fn lemma_holds_all_next<S: ToolDyn, E: ToolEmbeddingDyn, M: McpToolDyn>(
    before: Map<Seq<char>, ToolType<S, E, M>>,
    tools: Seq<ToolType<S, E, M>>,
    tool: ToolType<S, E, M>,
    after: Map<Seq<char>, ToolType<S, E, M>>,
)
    requires
        holds_all(before, tools),
        adds(before, tool, after),
    ensures
        holds_all(after, tools.push(tool)),
{
    let names = choose|names: Seq<Seq<char>>| #[trigger]
        may_name(names, tools) && before == under_names(names, tools);
    let name = choose|name: Seq<char>| #[trigger]
        tool.may_be_named(name) && after == before.insert(name, tool);
    assert(names.push(name).drop_last() =~= names);
    assert(tools.push(tool).drop_last() =~= tools);
    assert(may_name(names.push(name), tools.push(tool)));
}

/// Simple tools, as a set holds them.
pub open spec fn as_simple<S, E, M>(tools: Seq<S>) -> Seq<ToolType<S, E, M>> {
    tools.map_values(|tool: S| ToolType::<S, E, M>::Simple(Box::new(tool)))
}

/// A sequence holds what it held before, and what was pushed.
pub(crate) proof fn lemma_push_contains<T>(items: Seq<T>, pushed: T, item: T)
    ensures
        items.push(pushed).contains(item) <==> items.contains(item) || item == pushed,
{
    if items.contains(item) {
        let i = choose|i: int| 0 <= i < items.len() && items[i] == item;
        assert(items.push(pushed)[i] == item);
    }
    if item == pushed {
        assert(items.push(pushed)[items.len() as int] == item);
    }
}

/// Going through one more name.
pub(crate) proof fn lemma_goes_through_more(
    order: Seq<Seq<char>>,
    names: Set<Seq<char>>,
    name: Seq<char>,
)
    requires
        goes_through(order, names),
        !names.contains(name),
    ensures
        goes_through(order.push(name), names.insert(name)),
{
    assert forall|other: Seq<char>| #[trigger]
        order.push(name).contains(other) <==> names.insert(name).contains(other) by {
        lemma_push_contains(order, name, other);
    }
    assert(order.push(name).no_duplicates()) by {
        assert forall|i: int, j: int|
            0 <= i < order.len() + 1 && 0 <= j < order.len() + 1 && i != j implies order.push(
            name,
        )[i] != order.push(name)[j] by {
            if i < order.len() {
                assert(order.contains(order[i]));
            }
            if j < order.len() {
                assert(order.contains(order[j]));
            }
        }
    }
}

/// Leaving out one name.
pub(crate) proof fn lemma_goes_through_fewer(
    order: Seq<Seq<char>>,
    names: Set<Seq<char>>,
    index: int,
)
    requires
        goes_through(order, names),
        0 <= index < order.len(),
    ensures
        goes_through(order.remove(index), names.remove(order[index])),
{
    let fewer = order.remove(index);
    assert forall|other: Seq<char>| #[trigger]
        fewer.contains(other) <==> names.remove(order[index]).contains(other) by {
        if fewer.contains(other) {
            let i = choose|i: int| 0 <= i < fewer.len() && fewer[i] == other;
            let j = if i < index { i } else { i + 1 };
            assert(order[j] == other);
            assert(order.contains(other));
        }
        if names.contains(other) && other != order[index] {
            assert(order.contains(other));
            let j = choose|j: int| 0 <= j < order.len() && order[j] == other;
            let i = if j < index { j } else { j - 1 };
            assert(fewer[i] == other);
        }
    }
}

} // verus!
