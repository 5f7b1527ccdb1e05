//! Going through a tool set, one definition at a time.
//!
//! A tool is asked for its definition only when that of the tool before it is there. A run says
//! what is to be awaited next, takes what came of it, and gives what was gathered in the end.
use crate::definition::ToolDefinition;
use crate::document::Document;
use crate::error::ToolSetError;
use crate::naming::{goes_through, own_names};
use crate::tool::{ByKind, McpToolDyn, ToolDyn, ToolEmbeddingDyn, ToolType};
use crate::toolset::ToolSet;
use vstd::prelude::*;

verus! {

/// Whether `pending` is what asking `tool` for its definition without a prompt may hand back.
pub open spec fn may_define_unprompted<'a, S: ToolDyn, E: ToolEmbeddingDyn, M: McpToolDyn>(
    tool: ToolType<S, E, M>,
    pending: ByKind<S::DefinitionFuture<'a>, E::DefinitionFuture<'a>, M::DefinitionFuture<'a>>,
) -> bool {
    exists|prompt: String| prompt@.len() == 0 && #[trigger] tool.may_define(prompt, pending)
}

/// Gathers the definitions of the tools of a set.
#[verifier::reject_recursive_types(S)]
#[verifier::reject_recursive_types(E)]
#[verifier::reject_recursive_types(M)]
pub struct DefinitionRun<'a, S: ToolDyn, E: ToolEmbeddingDyn, M: McpToolDyn> {
    set: &'a ToolSet<S, E, M>,
    definitions: Vec<ToolDefinition>,
}

impl<'a, S: ToolDyn, E: ToolEmbeddingDyn, M: McpToolDyn> DefinitionRun<'a, S, E, M> {
    /// There are no more definitions than tools.
    #[verifier::type_invariant]
    spec fn keeps_to_the_set(self) -> bool {
        self.definitions@.len() <= self.set.tools().len()
    }

    /// The set that is gone through.
    pub closed spec fn set(self) -> ToolSet<S, E, M> {
        *self.set
    }

    /// The definitions that came so far.
    pub closed spec fn definitions(self) -> Seq<ToolDefinition> {
        self.definitions@
    }

    /// Whether there is a tool whose definition has not come.
    pub open spec fn goes_on(self) -> bool {
        self.definitions().len() < self.set().tools().len()
    }

    /// Begins to go through `set`.
    pub(crate) fn new(set: &'a ToolSet<S, E, M>) -> (run: Self)
        ensures
            run.set() == *set,
            run.definitions() == Seq::<ToolDefinition>::empty(),
    {
        DefinitionRun { set, definitions: Vec::new() }
    }

    /// Takes the definition of the tool that was asked last.
    pub fn accept(&mut self, definition: ToolDefinition)
        requires
            old(self).goes_on(),
        ensures
            final(self).set() == old(self).set(),
            final(self).definitions() == old(self).definitions().push(definition),
    {
        let mut definitions: Vec<ToolDefinition> = Vec::new();
        std::mem::swap(&mut definitions, &mut self.definitions);
        definitions.push(definition);
        self.definitions = definitions;
    }

    /// The definitions that came, one of each tool.
    pub fn finish<X>(self) -> (definitions: Result<Vec<ToolDefinition>, ToolSetError<X>>)
        requires
            !self.goes_on(),
        ensures
            definitions matches Ok(definitions) && definitions@ == self.definitions(),
            self.definitions().len() == self.set().tools().len(),
    {
        proof {
            use_type_invariant(&self);
        }
        Ok(self.definitions)
    }

    /// Asks the next tool for its definition, if there is one left.
    pub fn next(&self) -> (pending: Option<
        ByKind<S::DefinitionFuture<'a>, E::DefinitionFuture<'a>, M::DefinitionFuture<'a>>,
    >)
        ensures
            match pending {
                Some(pending) => self.goes_on() && may_define_unprompted(
                    self.set().tools()[self.definitions().len() as int],
                    pending,
                ),
                None => self.definitions().len() == self.set().tools().len(),
            },
    {
        proof {
            use_type_invariant(self);
        }
        match self.set.nth(self.definitions.len()) {
            Some(tool) => Some(tool.definition(String::new())),
            None => None,
        }
    }
}

/// Whether `document` is on `tool`: it is known by a name of the tool, and tells this name and
/// some definition.
pub open spec fn is_on<S: ToolDyn, E: ToolEmbeddingDyn, M: McpToolDyn>(
    document: Document,
    tool: ToolType<S, E, M>,
) -> bool {
    &&& tool.may_be_named(document.id@)
    &&& exists|definition: Seq<char>| #[trigger] document.is_on_tool(document.id@, definition)
}

/// Whether `documents` are on the first of `tools`, one on each.
pub open spec fn are_on_first<S: ToolDyn, E: ToolEmbeddingDyn, M: McpToolDyn>(
    documents: Seq<Document>,
    tools: Seq<ToolType<S, E, M>>,
) -> bool {
    &&& documents.len() <= tools.len()
    &&& forall|i: int| 0 <= i < documents.len() ==> is_on(#[trigger] documents[i], tools[i])
}

/// Gathers documents on the tools of a set.
#[verifier::reject_recursive_types(S)]
#[verifier::reject_recursive_types(E)]
#[verifier::reject_recursive_types(M)]
pub struct DocumentRun<'a, S: ToolDyn, E: ToolEmbeddingDyn, M: McpToolDyn> {
    set: &'a ToolSet<S, E, M>,
    documents: Vec<Document>,
    asked: Option<String>,
}

impl<'a, S: ToolDyn, E: ToolEmbeddingDyn, M: McpToolDyn> DocumentRun<'a, S, E, M> {
    /// The documents are on the first tools of a set in which every tool stands under a name of
    /// its own, and the tool that was asked is the next one.
    #[verifier::type_invariant]
    spec fn keeps_to_the_set(self) -> bool {
        &&& goes_through(self.set.order(), self.set@.dom())
        &&& own_names(self.set@)
        &&& are_on_first(self.documents@, self.set.tools())
        &&& self.asked matches Some(name) ==> {
            &&& self.documents@.len() < self.set.tools().len()
            &&& self.set.tools()[self.documents@.len() as int].may_be_named(name@)
        }
    }

    /// The set that is gone through.
    pub closed spec fn set(self) -> ToolSet<S, E, M> {
        *self.set
    }

    /// The documents that were made so far.
    pub closed spec fn documents(self) -> Seq<Document> {
        self.documents@
    }

    /// The name of the tool that was asked for its definition, until this came.
    pub closed spec fn asked(self) -> Option<Seq<char>> {
        match self.asked {
            Some(name) => Some(name@),
            None => None,
        }
    }

    /// Whether there is a tool on which no document was made.
    pub open spec fn goes_on(self) -> bool {
        self.documents().len() < self.set().tools().len()
    }

    /// Begins to go through `set`.
    pub(crate) fn new(set: &'a ToolSet<S, E, M>) -> (run: Self)
        requires
            goes_through(set.order(), set@.dom()),
            own_names(set@),
        ensures
            run.set() == *set,
            run.documents() == Seq::<Document>::empty(),
            run.asked() is None,
    {
        DocumentRun { set, documents: Vec::new(), asked: None }
    }

    /// Whether a tool was asked for its definition that did not come yet.
    pub fn is_asking(&self) -> (asking: bool)
        ensures
            asking == (self.asked() is Some),
    {
        self.asked.is_some()
    }

    /// Takes what writing the definition of the tool that was asked came to, and makes a
    /// document of it.
    pub fn accept<X>(&mut self, definition: Result<String, serde_json::Error>) -> (made: Result<
        (),
        ToolSetError<X>,
    >)
        requires
            old(self).asked() is Some,
        ensures
            final(self).set() == old(self).set(),
            final(self).asked() is None,
            match (definition, made) {
                (Ok(definition), Ok(())) => {
                    &&& final(self).documents().len() == old(self).documents().len() + 1
                    &&& final(self).documents().drop_last() == old(self).documents()
                    &&& final(self).documents().last().is_on_tool(
                        old(self).asked()->Some_0,
                        definition@,
                    )
                },
                (Err(error), Err(ToolSetError::JsonError(returned))) => {
                    &&& returned == error
                    &&& final(self).documents() == old(self).documents()
                },
                _ => false,
            },
    {
        proof {
            use_type_invariant(&*self);
        }
        let mut asked: Option<String> = None;
        std::mem::swap(&mut asked, &mut self.asked);
        match (asked, definition) {
            (Some(name), Ok(definition)) => {
                let document = Document::on_tool(name, definition);
                let mut documents: Vec<Document> = Vec::new();
                std::mem::swap(&mut documents, &mut self.documents);
                documents.push(document);
                assert(documents@.drop_last() =~= old(self).documents@);
                assert(document.is_on_tool(document.id@, definition@));
                self.documents = documents;
                Ok(())
            },
            (_, Err(error)) => Err(ToolSetError::from(error)),
            (None, Ok(_)) => Ok(()),
        }
    }

    /// The documents that were made, one on each tool.
    pub fn finish<X>(self) -> (documents: Result<Vec<Document>, ToolSetError<X>>)
        requires
            !self.goes_on(),
        ensures
            documents matches Ok(documents) && documents@ == self.documents(),
            self.documents().len() == self.set().tools().len(),
            are_on_first(self.documents(), self.set().tools()),
            goes_through(self.set().order(), self.set()@.dom()),
            own_names(self.set()@),
    {
        proof {
            use_type_invariant(&self);
        }
        Ok(self.documents)
    }

    /// Asks the next tool for its name and its definition, if there is one left.
    pub fn next(&mut self) -> (pending: Option<
        ByKind<S::DefinitionFuture<'a>, E::DefinitionFuture<'a>, M::DefinitionFuture<'a>>,
    >)
        ensures
            final(self).set() == old(self).set(),
            final(self).documents() == old(self).documents(),
            match pending {
                Some(pending) => {
                    let tool = old(self).set().tools()[old(self).documents().len() as int];
                    &&& old(self).goes_on()
                    &&& final(self).asked() matches Some(name)
                    &&& tool.may_be_named(name)
                    &&& may_define_unprompted(tool, pending)
                },
                None => {
                    &&& old(self).documents().len() == old(self).set().tools().len()
                    &&& final(self).asked() is None
                },
            },
    {
        proof {
            use_type_invariant(&*self);
        }
        match self.set.nth(self.documents.len()) {
            Some(tool) => {
                self.asked = Some(tool.name());
                Some(tool.definition(String::new()))
            },
            None => {
                self.asked = None;
                None
            },
        }
    }
}

} // verus!
