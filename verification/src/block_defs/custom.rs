//! Custom procedures: definitions, calls and signatures.
use vstd::prelude::*;
use crate::blocks::{Block, Links};
use crate::error::{outcome, DecodeError};
use crate::json::{find, lookup, Json, JsonView};
use crate::raw::clone_link;

verus! {

/// Heads the body of a custom procedure; `block` names its prototype.
#[derive(Debug, Clone, PartialEq)]
pub struct ProceduresDefinition {
    pub block: String,
    pub prev: Option<String>,
    pub next: Option<String>,
}

/// The mathematical model of [`ProceduresDefinition`].
pub ghost struct ProceduresDefinitionView {
    pub block: Seq<char>,
    pub prev: Option<Seq<char>>,
    pub next: Option<Seq<char>>,
}

impl DeepView for ProceduresDefinition {
    type V = ProceduresDefinitionView;

    open spec fn deep_view(&self) -> ProceduresDefinitionView {
        ProceduresDefinitionView {
            block: self.block.deep_view(),
            prev: self.prev.deep_view(),
            next: self.next.deep_view(),
        }
    }
}

impl Block for ProceduresDefinition {
    open spec fn links(&self) -> Links {
        Links { prev: self.prev.deep_view(), next: self.next.deep_view() }
    }

    fn prev(&self) -> (id: Option<String>) {
        clone_link(&self.prev)
    }

    fn next(&self) -> (id: Option<String>) {
        clone_link(&self.next)
    }
}

/// Calls a custom procedure.
#[derive(Debug, Clone, PartialEq)]
pub struct ProceduresCall {
    pub prev: Option<String>,
    pub next: Option<String>,
}

impl DeepView for ProceduresCall {
    type V = Links;

    open spec fn deep_view(&self) -> Links {
        Links { prev: self.prev.deep_view(), next: self.next.deep_view() }
    }
}

impl Block for ProceduresCall {
    open spec fn links(&self) -> Links {
        Links { prev: self.prev.deep_view(), next: self.next.deep_view() }
    }

    fn prev(&self) -> (id: Option<String>) {
        clone_link(&self.prev)
    }

    fn next(&self) -> (id: Option<String>) {
        clone_link(&self.next)
    }
}

/// Declares the signature of a custom procedure.
#[derive(Debug, Clone, PartialEq)]
pub struct ProceduresPrototype {
    pub mutation: Mutation,
    pub prev: Option<String>,
    pub next: Option<String>,
}

/// The mathematical model of [`ProceduresPrototype`].
pub ghost struct ProceduresPrototypeView {
    pub mutation: MutationView,
    pub prev: Option<Seq<char>>,
    pub next: Option<Seq<char>>,
}

impl DeepView for ProceduresPrototype {
    type V = ProceduresPrototypeView;

    open spec fn deep_view(&self) -> ProceduresPrototypeView {
        ProceduresPrototypeView {
            mutation: self.mutation.deep_view(),
            prev: self.prev.deep_view(),
            next: self.next.deep_view(),
        }
    }
}

impl Block for ProceduresPrototype {
    open spec fn links(&self) -> Links {
        Links { prev: self.prev.deep_view(), next: self.next.deep_view() }
    }

    fn prev(&self) -> (id: Option<String>) {
        clone_link(&self.prev)
    }

    fn next(&self) -> (id: Option<String>) {
        clone_link(&self.next)
    }
}

/// Declares a custom procedure in the editor.
#[derive(Debug, Clone, PartialEq)]
pub struct ProceduresDeclaration {
    pub prev: Option<String>,
    pub next: Option<String>,
}

impl DeepView for ProceduresDeclaration {
    type V = Links;

    open spec fn deep_view(&self) -> Links {
        Links { prev: self.prev.deep_view(), next: self.next.deep_view() }
    }
}

impl Block for ProceduresDeclaration {
    open spec fn links(&self) -> Links {
        Links { prev: self.prev.deep_view(), next: self.next.deep_view() }
    }

    fn prev(&self) -> (id: Option<String>) {
        clone_link(&self.prev)
    }

    fn next(&self) -> (id: Option<String>) {
        clone_link(&self.next)
    }
}

/// The signature of a custom procedure, as its prototype record carries it.
///
/// Everything but `warp` is kept as it came: the format writes the argument
/// lists as text that holds a list, and nothing here looks inside.
#[derive(Debug, Clone, PartialEq)]
pub struct Mutation {
    pub tag_name: Option<Json>,
    pub proccode: Option<Json>,
    pub argument_names: Option<Json>,
    pub argument_ids: Option<Json>,
    pub argument_defaults: Option<Json>,
    /// Whether the procedure runs without screen refresh.
    pub warp: bool,
    pub children: Option<Json>,
}

/// The mathematical model of [`Mutation`].
pub ghost struct MutationView {
    pub tag_name: Option<JsonView>,
    pub proccode: Option<JsonView>,
    pub argument_names: Option<JsonView>,
    pub argument_ids: Option<JsonView>,
    pub argument_defaults: Option<JsonView>,
    pub warp: bool,
    pub children: Option<JsonView>,
}

impl DeepView for Mutation {
    type V = MutationView;

    open spec fn deep_view(&self) -> MutationView {
        MutationView {
            tag_name: self.tag_name.deep_view(),
            proccode: self.proccode.deep_view(),
            argument_names: self.argument_names.deep_view(),
            argument_ids: self.argument_ids.deep_view(),
            argument_defaults: self.argument_defaults.deep_view(),
            warp: self.warp,
            children: self.children.deep_view(),
        }
    }
}

/// Copies an entry that was looked up.
fn keep(entry: Option<&Json>) -> (kept: Option<Json>)
    ensures
        kept.deep_view() == entry.deep_view(),
{
    match entry {
        Some(value) => Some(value.clone()),
        None => None,
    }
}

/// Decodes the signature payload of a procedure prototype.
pub struct MutationVisitor;

impl MutationVisitor {
    /// What a payload decodes to. The payload must be a mapping with a
    /// boolean under `warp`; every other entry is optional.
    pub open spec fn visited(payload: JsonView) -> Result<MutationView, DecodeError> {
        match payload {
            JsonView::Object(entries) => match lookup(entries, "warp"@) {
                Some(JsonView::Bool(warp)) => Ok(
                    MutationView {
                        tag_name: lookup(entries, "tagName"@),
                        proccode: lookup(entries, "proccode"@),
                        argument_names: lookup(entries, "argumentnames"@),
                        argument_ids: lookup(entries, "argumentids"@),
                        argument_defaults: lookup(entries, "argumentdefaults"@),
                        warp,
                        children: lookup(entries, "children"@),
                    },
                ),
                _ => Err(DecodeError::MissingWarpFlag),
            },
            _ => Err(DecodeError::MissingWarpFlag),
        }
    }

    /// Decodes a payload.
    pub fn visit_map(payload: &Json) -> (r: Result<Mutation, DecodeError>)
        ensures
            outcome(r) == Self::visited(payload@),
    {
        match payload {
            Json::Object(entries) => {
                proof {
                    Json::lemma_object_model(*entries);
                }
                match find(entries, "warp") {
                    Some(Json::Bool(warp)) => Ok(
                        Mutation {
                            tag_name: keep(find(entries, "tagName")),
                            proccode: keep(find(entries, "proccode")),
                            argument_names: keep(find(entries, "argumentnames")),
                            argument_ids: keep(find(entries, "argumentids")),
                            argument_defaults: keep(find(entries, "argumentdefaults")),
                            warp: *warp,
                            children: keep(find(entries, "children")),
                        },
                    ),
                    _ => Err(DecodeError::MissingWarpFlag),
                }
            },
            _ => Err(DecodeError::MissingWarpFlag),
        }
    }
}
} // verus!
