//! Sets of tools, each under its name.
use crate::builder::ToolSetBuilder;
use crate::definition::ToolDefinition;
use crate::document::Document;
use crate::error::{EmbedError, ToolError, ToolSetError};
use crate::naming::{
    adds, as_simple, goes_through, holds_all, lemma_goes_through_fewer, lemma_goes_through_more,
    lemma_holds_all_next, lemma_push_contains, lemma_steps, may_name, own_names, reaches,
};
use crate::run::{DefinitionRun, DocumentRun};
use crate::schema::ToolSchema;
use crate::text::views;
use crate::tool::{ByKind, McpToolDyn, ToolDyn, ToolEmbeddingDyn, ToolType};
use vstd::hash_map::StringHashMap;
use vstd::prelude::*;

verus! {

/// A set of tools, each under the name that it gave when it was added.
///
/// Simple tools are of type `S`, tools that can be embedded of type `E`, and MCP tools of type
/// `M`. The view of a set is the map from names to tools.
#[verifier::reject_recursive_types(S)]
#[verifier::reject_recursive_types(E)]
#[verifier::reject_recursive_types(M)]
pub struct ToolSet<S: ToolDyn, E: ToolEmbeddingDyn, M: McpToolDyn> {
    tools: StringHashMap<ToolType<S, E, M>>,
    names: Vec<String>,
}

impl<S: ToolDyn, E: ToolEmbeddingDyn, M: McpToolDyn> View for ToolSet<S, E, M> {
    type V = Map<Seq<char>, ToolType<S, E, M>>;

    closed spec fn view(&self) -> Map<Seq<char>, ToolType<S, E, M>> {
        self.tools@
    }
}

impl<S: ToolDyn, E: ToolEmbeddingDyn, M: McpToolDyn> Default for ToolSet<S, E, M> {
    /// A set without tools.
    fn default() -> (set: Self)
        ensures
            set@ == Map::<Seq<char>, ToolType<S, E, M>>::empty(),
    {
        ToolSet { tools: StringHashMap::new(), names: Vec::new() }
    }
}

/// Where `name` stands among `names`.
fn position(names: &Vec<String>, name: &str) -> (index: Option<usize>)
    ensures
        match index {
            Some(index) => index < names@.len() && names@[index as int]@ == name@,
            None => !views(names@).contains(name@),
        },
{
    let wanted = name.to_string();
    let mut i: usize = 0;
    while i < names.len()
        invariant
            i <= names.len(),
            wanted@ == name@,
            forall|j: int| 0 <= j < i ==> (#[trigger] names@[j])@ != name@,
        decreases names.len() - i,
    {
        if names[i] == wanted {
            return Some(i);
        }
        i += 1;
    }
    None
}

impl<S: ToolDyn, E: ToolEmbeddingDyn, M: McpToolDyn> ToolSet<S, E, M> {
    /// The names are listed once each, and every tool stands under a name of its own.
    #[verifier::type_invariant]
    spec fn is_named(self) -> bool {
        &&& goes_through(views(self.names@), self.tools@.dom())
        &&& own_names(self.tools@)
    }

    /// The order in which the set is gone through.
    pub closed spec fn order(self) -> Seq<Seq<char>> {
        views(self.names@)
    }

    /// Puts `tool` under `name`, in place of the tool that was there.
    pub(crate) fn insert(&mut self, name: String, tool: ToolType<S, E, M>)
        requires
            tool.may_be_named(name@),
        ensures
            final(self)@ == old(self)@.insert(name@, tool),
    {
        let mut taken = ToolSet::default();
        std::mem::swap(self, &mut taken);
        proof {
            use_type_invariant(&taken);
        }
        let ToolSet { mut tools, mut names } = taken;
        let ghost before = names@;
        if !tools.contains_key(name.as_str()) {
            names.push(name.clone());
            proof {
                assert(views(names@) =~= views(before).push(name@));
                lemma_goes_through_more(views(before), tools@.dom(), name@);
            }
        } else {
            assert(tools@.dom().insert(name@) =~= tools@.dom());
        }
        tools.insert(name, tool);
        *self = ToolSet { tools, names };
    }

    /// Whether the set has a tool of this name.
    pub fn contains(&self, toolname: &str) -> (found: bool)
        ensures
            found == (reaches(self@, toolname@) is Some),
    {
        self.tools.contains_key(toolname)
    }

    /// The number of tools in the set.
    pub fn len(&self) -> (len: usize)
        ensures
            len == self@.len(),
            self@.dom().finite(),
    {
        proof {
            use_type_invariant(self);
            lemma_steps(self.order(), self@);
        }
        self.tools.len()
    }

    /// The tool of this name.
    pub fn get(&self, toolname: &str) -> (tool: Option<&ToolType<S, E, M>>)
        ensures
            tool == match reaches(self@, toolname@) {
                Some(tool) => Some(&tool),
                None => None,
            },
            tool matches Some(tool) ==> tool.may_be_named(toolname@),
    {
        proof {
            use_type_invariant(self);
        }
        self.tools.get(toolname)
    }

    /// Removes the tool of this name, if there is one.
    pub fn delete_tool(&mut self, tool_name: &str)
        ensures
            final(self)@ == old(self)@.remove(tool_name@),
    {
        let mut taken = ToolSet::default();
        std::mem::swap(self, &mut taken);
        proof {
            use_type_invariant(&taken);
        }
        let ToolSet { mut tools, mut names } = taken;
        let ghost before = names@;
        match position(&names, tool_name) {
            Some(index) => {
                names.remove(index);
                proof {
                    assert(views(names@) =~= views(before).remove(index as int));
                    lemma_goes_through_fewer(views(before), tools@.dom(), index as int);
                }
            },
            None => {
                assert(tools@.dom().remove(tool_name@) =~= tools@.dom());
            },
        }
        tools.remove(tool_name);
        *self = ToolSet { tools, names };
    }

    /// Puts the tools of `toolset` into this set. Where both have a tool of one name, that of
    /// `toolset` stays.
    pub fn add_tools(&mut self, toolset: ToolSet<S, E, M>)
        ensures
            final(self)@ == old(self)@.union_prefer_right(toolset@),
    {
        let mut taken = ToolSet::default();
        std::mem::swap(self, &mut taken);
        proof {
            use_type_invariant(&taken);
            use_type_invariant(&toolset);
        }
        let ToolSet { mut tools, mut names } = taken;
        let ToolSet { tools: added, names: added_names } = toolset;
        let ghost own = tools@.dom();
        let ghost reached = own;
        let mut i: usize = 0;
        while i < added_names.len()
            invariant
                i <= added_names.len(),
                own == tools@.dom(),
                goes_through(views(names@), reached),
                goes_through(views(added_names@), added@.dom()),
                forall|name: Seq<char>| #[trigger]
                    reached.contains(name) <==> own.contains(name) || views(
                        added_names@,
                    ).take(i as int).contains(name),
            decreases added_names.len() - i,
        {
            let ghost next = views(added_names@)[i as int];
            let ghost before = names@;
            proof {
                let taken_names = views(added_names@).take(i as int);
                assert(views(added_names@).take(i + 1) =~= taken_names.push(next));
                assert forall|name: Seq<char>| taken_names.push(next).contains(name)
                    <==> taken_names.contains(name) || name == next by {
                    lemma_push_contains(taken_names, next, name);
                }
                if taken_names.contains(next) {
                    let j = choose|j: int| 0 <= j < taken_names.len() && taken_names[j] == next;
                    assert(views(added_names@)[j] == views(added_names@)[i as int]);
                }
            }
            if !tools.contains_key(added_names[i].as_str()) {
                names.push(added_names[i].clone());
                proof {
                    assert(views(names@) =~= views(before).push(next));
                    lemma_goes_through_more(views(before), reached, next);
                    reached = reached.insert(next);
                }
            }
            i += 1;
        }
        proof {
            assert(views(added_names@).take(i as int) =~= views(added_names@));
            assert(reached =~= tools@.union_prefer_right(added@).dom());
        }
        tools.union_prefer_right(added);
        *self = ToolSet { tools, names };
    }
}

impl<S: ToolDyn, E: ToolEmbeddingDyn, M: McpToolDyn> ToolSet<S, E, M> {
    /// The tools in the order in which the set is gone through.
    pub open spec fn tools(self) -> Seq<ToolType<S, E, M>> {
        self.order().map_values(|name: Seq<char>| self@[name])
    }

    /// The tools that can be embedded, in the order in which the set is gone through.
    pub open spec fn embedding_tools(self) -> Seq<E> {
        embedding_among(self.tools())
    }

    /// Begins to gather the definitions of the tools.
    pub fn get_tool_definitions<'a>(&'a self) -> (run: DefinitionRun<'a, S, E, M>)
        ensures
            run.set() == *self,
            run.definitions() == Seq::<ToolDefinition>::empty(),
            goes_through(self.order(), self@.dom()),
            own_names(self@),
            self.tools().len() == self@.len(),
    {
        proof {
            use_type_invariant(self);
            lemma_steps(self.order(), self@);
        }
        DefinitionRun::new(self)
    }

    /// The tool that comes after `index` others.
    fn at(&self, index: usize) -> (tool: &ToolType<S, E, M>)
        requires
            index < self.tools().len(),
        ensures
            *tool == self.tools()[index as int],
    {
        proof {
            use_type_invariant(self);
            assert(self.order().contains(self.order()[index as int]));
        }
        match self.tools.get(self.names[index].as_str()) {
            Some(tool) => tool,
            None => vstd::pervasive::unreached(),
        }
    }

    /// The tool that comes after `index` others when the set is gone through.
    pub fn nth(&self, index: usize) -> (tool: Option<&ToolType<S, E, M>>)
        ensures
            goes_through(self.order(), self@.dom()),
            own_names(self@),
            match tool {
                Some(tool) => index < self.tools().len() && *tool == self.tools()[index as int],
                None => index >= self.tools().len(),
            },
    {
        proof {
            use_type_invariant(self);
        }
        if index < self.names.len() {
            Some(self.at(index))
        } else {
            None
        }
    }
}

/// The tools among `tools` that can be embedded, in order.
pub open spec fn embedding_among<S, E, M>(tools: Seq<ToolType<S, E, M>>) -> Seq<E> {
    tools.filter(|tool: ToolType<S, E, M>| tool is Embedding).map_values(
        |tool: ToolType<S, E, M>| *tool->Embedding_0,
    )
}

/// Taking one more tool adds it, if it can be embedded.
proof fn lemma_embedding_among_next<S, E, M>(tools: Seq<ToolType<S, E, M>>, i: int)
    requires
        0 <= i < tools.len(),
    ensures
        embedding_among(tools.take(i + 1)) == match tools[i] {
            ToolType::Embedding(tool) => embedding_among(tools.take(i)).push(*tool),
            _ => embedding_among(tools.take(i)),
        },
{
    reveal(Seq::filter);
    let longer = tools.take(i + 1);
    assert(longer.drop_last() =~= tools.take(i));
    match tools[i] {
        ToolType::Embedding(tool) => {
            assert(embedding_among(longer) =~= embedding_among(tools.take(i)).push(*tool));
        },
        _ => {},
    }
}

impl<S: ToolDyn, E: ToolEmbeddingDyn, M: McpToolDyn> ToolSet<S, E, M> {
    /// A set of simple tools. Of tools with one name the last stays.
    pub fn from_tools(tools: Vec<S>) -> (set: Self)
        ensures
            holds_all(set@, as_simple::<S, E, M>(tools@)),
    {
        let mut set: ToolSet<S, E, M> = ToolSet::default();
        let ghost all = tools@;
        assert(may_name(Seq::empty(), as_simple::<S, E, M>(all.take(0))));
        for tool in iter: tools
            invariant
                iter.seq() == all,
                holds_all(set@, as_simple::<S, E, M>(all.take(iter.index()))),
        {
            let ghost before = set@;
            let ghost i = iter.index();
            set.add_tool(tool);
            proof {
                let earlier = as_simple::<S, E, M>(all.take(i));
                let held = ToolType::<S, E, M>::Simple(Box::new(tool));
                lemma_holds_all_next(before, earlier, held, set@);
                assert(as_simple::<S, E, M>(all.take(i + 1)) =~= earlier.push(held));
            }
        }
        assert(all.take(all.len() as int) =~= all);
        set
    }

    /// A builder of a set.
    pub fn builder() -> (builder: ToolSetBuilder<S, E, M>)
        ensures
            builder@ == Seq::<ToolType<S, E, M>>::empty(),
    {
        ToolSetBuilder::default()
    }

    /// Adds a simple tool, in place of the tool that has its name.
    pub fn add_tool(&mut self, tool: S)
        ensures
            adds(old(self)@, ToolType::Simple(Box::new(tool)), final(self)@),
    {
        self.add_tool_boxed(Box::new(tool));
    }

    /// Adds a simple tool that is boxed already, in place of the tool that has its name.
    pub fn add_tool_boxed(&mut self, tool: Box<S>)
        ensures
            adds(old(self)@, ToolType::Simple(tool), final(self)@),
    {
        let name = tool.name();
        proof {
            assert(ToolType::<S, E, M>::Simple(tool).may_be_named(name@));
        }
        self.insert(name, ToolType::Simple(tool));
    }

    /// Adds an MCP tool, in place of the tool that has its name. It is kept as such, so that
    /// [`ToolSet::call_mcp`] has its whole answer.
    pub fn add_mcp_tool(&mut self, tool: M)
        ensures
            adds(old(self)@, ToolType::Mcp(Box::new(tool)), final(self)@),
    {
        self.add_mcp_tool_boxed(Box::new(tool));
    }

    /// Adds an MCP tool that is boxed already, in place of the tool that has its name.
    pub fn add_mcp_tool_boxed(&mut self, tool: Box<M>)
        ensures
            adds(old(self)@, ToolType::Mcp(tool), final(self)@),
    {
        let name = tool.name();
        proof {
            assert(ToolType::<S, E, M>::Mcp(tool).may_be_named(name@));
        }
        self.insert(name, ToolType::Mcp(tool));
    }

    /// Calls the tool of this name. What came back goes to [`request_outcome`].
    pub fn call<'a, X>(&'a self, toolname: &str, args: String) -> (pending: Result<
        ByKind<S::CallFuture<'a>, E::CallFuture<'a>, M::CallFuture<'a>>,
        ToolSetError<X>,
    >)
        ensures
            match pending {
                Ok(pending) => reaches(self@, toolname@) matches Some(tool) && tool.may_call(
                    args,
                    pending,
                ),
                Err(error) => reaches(self@, toolname@) is None && error.is_not_found(toolname@),
            },
    {
        match self.get(toolname) {
            Some(tool) => Ok(tool.call(args)),
            None => Err(ToolSetError::ToolNotFoundError(toolname.to_string())),
        }
    }

    /// Calls the tool of this name for an output: text, or for an MCP tool the whole answer.
    /// What came back goes to [`crate::tool::call_output`] and then to [`request_outcome`].
    pub fn call_mcp<'a, X>(&'a self, toolname: &str, args: String) -> (pending: Result<
        ByKind<S::CallFuture<'a>, E::CallFuture<'a>, M::OutputFuture<'a>>,
        ToolSetError<X>,
    >)
        ensures
            match pending {
                Ok(pending) => reaches(self@, toolname@) matches Some(tool) && tool.may_call_mcp(
                    args,
                    pending,
                ),
                Err(error) => reaches(self@, toolname@) is None && error.is_not_found(toolname@),
            },
    {
        match self.get(toolname) {
            Some(tool) => Ok(tool.call_mcp(args)),
            None => Err(ToolSetError::ToolNotFoundError(toolname.to_string())),
        }
    }

    /// Begins to make documents on the tools.
    pub fn documents<'a>(&'a self) -> (run: DocumentRun<'a, S, E, M>)
        ensures
            run.set() == *self,
            run.documents() == Seq::<Document>::empty(),
            run.asked() is None,
            goes_through(self.order(), self@.dom()),
            own_names(self@),
            self.tools().len() == self@.len(),
    {
        proof {
            use_type_invariant(self);
            lemma_steps(self.order(), self@);
        }
        DocumentRun::new(self)
    }

    /// The schemas of the tools that can be embedded, unless the context of one of them is not
    /// to be had.
    pub fn schemas(&self) -> (schemas: Result<Vec<ToolSchema>, EmbedError>)
        ensures
            goes_through(self.order(), self@.dom()),
            own_names(self@),
            match schemas {
                Ok(schemas) => may_be_schemas(schemas@, self.embedding_tools()),
                Err(error) => may_fail(self.embedding_tools(), error),
            },
    {
        proof {
            use_type_invariant(self);
        }
        let ghost tools = self.tools();
        let mut schemas: Vec<ToolSchema> = Vec::new();
        let mut i: usize = 0;
        assert(embedding_among(tools.take(0)) =~= Seq::empty()) by {
            reveal(Seq::filter);
        }
        while i < self.names.len()
            invariant
                i <= tools.len(),
                tools == self.tools(),
                may_be_schemas(schemas@, embedding_among(tools.take(i as int))),
                goes_through(self.order(), self@.dom()),
                own_names(self@),
            decreases tools.len() - i,
        {
            proof {
                lemma_embedding_among_next(tools, i as int);
            }
            if let ToolType::Embedding(tool) = self.at(i) {
                match ToolSchema::of_tool(&**tool) {
                    Ok(schema) => {
                        schemas.push(schema);
                    },
                    Err(error) => {
                        proof {
                            let earlier = embedding_among(tools.take(i as int));
                            let all = self.embedding_tools();
                            let n = earlier.len() as int;
                            lemma_embedding_among_prefix(tools, i + 1);
                            assert(all.take(n + 1) =~= earlier.push(**tool));
                            assert(all[n] == all.take(n + 1)[n]);
                            assert(all.take(n) =~= earlier);
                            assert(fails_after(schemas@, all, error));
                            assert(may_fail(all, error));
                        }
                        return Err(error);
                    },
                }
            }
            i += 1;
        }
        assert(tools.take(i as int) =~= tools);
        Ok(schemas)
    }
}

/// The tools that can be embedded among the first are the first of those among all.
proof fn lemma_embedding_among_prefix<S, E, M>(tools: Seq<ToolType<S, E, M>>, n: int)
    requires
        0 <= n <= tools.len(),
    ensures
        embedding_among(tools.take(n)).is_prefix_of(embedding_among(tools)),
    decreases tools.len() - n,
{
    if n == tools.len() {
        assert(tools.take(n) =~= tools);
    } else {
        lemma_embedding_among_next(tools, n);
        lemma_embedding_among_prefix(tools, n + 1);
    }
}

/// Whether `schemas` hold what `tools` may say of themselves, one for each.
pub open spec fn may_be_schemas<E: ToolEmbeddingDyn>(
    schemas: Seq<ToolSchema>,
    tools: Seq<E>,
) -> bool {
    &&& schemas.len() == tools.len()
    &&& forall|i: int|
        0 <= i < tools.len() ==> (#[trigger] schemas[i]).may_be_of(&tools[i])
}

/// Whether the first of `tools` may give `schemas`, and the tool after them may then fail to
/// give its context, with `error`.
pub open spec fn fails_after<E: ToolEmbeddingDyn>(
    schemas: Seq<ToolSchema>,
    tools: Seq<E>,
    error: EmbedError,
) -> bool {
    &&& schemas.len() < tools.len()
    &&& may_be_schemas(schemas, tools.take(schemas.len() as int))
    &&& call_ensures(E::context, (&tools[schemas.len() as int],), Err(error.0))
}

/// Whether the schemas of `tools` may not be had because of `error`.
pub open spec fn may_fail<E: ToolEmbeddingDyn>(tools: Seq<E>, error: EmbedError) -> bool {
    exists|schemas: Seq<ToolSchema>| #[trigger] fails_after(schemas, tools, error)
}

/// What a request to a tool set comes to, given what the tool came to.
pub open spec fn outcome_of_request<T, X>(returned: Result<T, ToolError<X>>) -> Result<
    T,
    ToolSetError<X>,
> {
    match returned {
        Ok(output) => Ok(output),
        Err(error) => Err(ToolSetError::ToolCallError(error)),
    }
}

/// What a request to a tool set comes to, given what the tool came to.
pub fn request_outcome<T, X>(returned: Result<T, ToolError<X>>) -> (outcome: Result<
    T,
    ToolSetError<X>,
>)
    ensures
        outcome == outcome_of_request(returned),
{
    match returned {
        Ok(output) => Ok(output),
        Err(error) => Err(ToolSetError::from(error)),
    }
}

} // verus!
