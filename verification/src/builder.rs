//! Building a tool set step by step.
use crate::naming::{adds, holds_all, lemma_holds_all_next, may_name};
use crate::tool::{McpToolDyn, ToolDyn, ToolEmbeddingDyn, ToolType};
use crate::toolset::ToolSet;
use vstd::prelude::*;

verus! {

/// Gathers tools for a set.
///
/// The view of a builder is the tools in the order in which they came.
pub struct ToolSetBuilder<S, E, M> {
    tools: Vec<ToolType<S, E, M>>,
}

impl<S, E, M> View for ToolSetBuilder<S, E, M> {
    type V = Seq<ToolType<S, E, M>>;

    closed spec fn view(&self) -> Seq<ToolType<S, E, M>> {
        self.tools@
    }
}

impl<S, E, M> Default for ToolSetBuilder<S, E, M> {
    /// A builder without tools.
    fn default() -> (builder: Self)
        ensures
            builder@ == Seq::<ToolType<S, E, M>>::empty(),
    {
        ToolSetBuilder { tools: Vec::new() }
    }
}

impl<S: ToolDyn, E: ToolEmbeddingDyn, M: McpToolDyn> ToolSetBuilder<S, E, M> {
    /// Adds a simple tool.
    pub fn static_tool(self, tool: S) -> (builder: Self)
        ensures
            builder@ == self@.push(ToolType::Simple(Box::new(tool))),
    {
        let mut tools = self.tools;
        tools.push(ToolType::Simple(Box::new(tool)));
        ToolSetBuilder { tools }
    }

    /// Adds a tool that can be embedded.
    pub fn dynamic_tool(self, tool: E) -> (builder: Self)
        ensures
            builder@ == self@.push(ToolType::Embedding(Box::new(tool))),
    {
        let mut tools = self.tools;
        tools.push(ToolType::Embedding(Box::new(tool)));
        ToolSetBuilder { tools }
    }

    /// The set of the tools that were added. Of tools with one name the last stays.
    pub fn build(self) -> (set: ToolSet<S, E, M>)
        ensures
            holds_all(set@, self@),
    {
        let mut set: ToolSet<S, E, M> = ToolSet::default();
        let ghost all = self@;
        assert(may_name(Seq::empty(), all.take(0)));
        for tool in iter: self.tools
            invariant
                iter.seq() == all,
                holds_all(set@, all.take(iter.index())),
        {
            let ghost before = set@;
            let ghost i = iter.index();
            let name = tool.name();
            set.insert(name, tool);
            proof {
                assert(adds(before, tool, set@));
                lemma_holds_all_next(before, all.take(i), tool, set@);
                assert(all.take(i + 1) =~= all.take(i).push(tool));
            }
        }
        assert(all.take(all.len() as int) =~= all);
        set
    }
}

} // verus!
