//! The mathematical content of the records that cross the boundary.
//!
//! A plugin-facing record and the engine's record of the same thing are two
//! representations of one value; the types here are that value. Contracts
//! throughout the crate are stated over them.

use vstd::prelude::*;

verus! {

/// Options of one resolution request as the engine holds them.
#[verifier::ext_equal]
pub struct ResolveArgsModel {
    pub is_entry: bool,
    pub kind: crate::engine::ImportKind,
}

/// Options of one resolution request as a plugin sees them: the kind is a label.
#[verifier::ext_equal]
pub struct ResolveArgsLabelled {
    pub is_entry: bool,
    pub kind: Seq<char>,
}

/// A resolved specifier. `external` unset means: the engine decides.
#[verifier::ext_equal]
pub struct ResolvedIdModel {
    pub id: Seq<char>,
    pub external: Option<bool>,
}

#[verifier::ext_equal]
pub struct SourceMapModel {
    pub mappings: Seq<char>,
    pub names: Seq<Seq<char>>,
    pub source_root: Option<Seq<char>>,
    pub sources: Seq<Seq<char>>,
    pub sources_content: Seq<Seq<char>>,
}

/// The source of a module: its code and, where known, the map back to what
/// the code was made from.
#[verifier::ext_equal]
pub struct SourceModel {
    pub code: Seq<char>,
    pub map: Option<SourceMapModel>,
}

/// What is known of a chunk before it is rendered.
#[verifier::ext_equal]
pub struct PreRenderedChunkModel {
    pub is_entry: bool,
    pub is_dynamic_entry: bool,
    pub facade_module_id: Option<Seq<char>>,
    pub module_ids: Seq<Seq<char>>,
    pub exports: Seq<Seq<char>>,
}

#[verifier::ext_equal]
pub struct RenderedModuleModel {
    pub code: Option<Seq<char>>,
}

/// A rendered chunk: what was known before rendering, the file it goes to,
/// and its modules, each under its module id.
#[verifier::ext_equal]
pub struct RenderedChunkModel {
    pub chunk: PreRenderedChunkModel,
    pub file_name: Seq<char>,
    pub modules: Seq<(Seq<char>, RenderedModuleModel)>,
}

impl RenderedChunkModel {
    /// The module ids under which `modules` holds an entry, in stored order.
    pub open spec fn module_keys(self) -> Seq<Seq<char>> {
        Seq::new(self.modules.len(), |i: int| self.modules[i].0)
    }

    /// No module id has two entries.
    pub open spec fn keys_unique(self) -> bool {
        forall|i: int, j: int|
            0 <= i < j < self.modules.len() ==> self.modules[i].0 != self.modules[j].0
    }

    /// `modules` read as a mapping from module id to module.
    pub open spec fn module_map(self) -> Map<Seq<char>, RenderedModuleModel> {
        Map::new(
            |id: Seq<char>| exists|i: int| 0 <= i < self.modules.len() && self.modules[i].0 == id,
            |id: Seq<char>|
                {
                    let i = choose|i: int| 0 <= i < self.modules.len() && self.modules[i].0 == id;
                    self.modules[i].1
                },
        )
    }
}

/// The views of the strings of `v`, in order.
pub open spec fn texts(v: Seq<String>) -> Seq<Seq<char>> {
    Seq::new(v.len(), |i: int| v[i]@)
}

pub open spec fn text_of(s: Option<String>) -> Option<Seq<char>> {
    match s {
        Some(s) => Some(s@),
        None => None,
    }
}

} // verus!
