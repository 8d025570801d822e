//! The plugin-facing records: the arguments a hook is called with and the
//! values it may return. Each is a snapshot, built just before a hook is
//! called or taken from what it returned; none is shared with the engine.

use crate::engine::is_import_kind_label;
use crate::model::{
    text_of, texts, PreRenderedChunkModel, RenderedChunkModel, RenderedModuleModel,
    ResolveArgsLabelled, ResolvedIdModel, SourceMapModel, SourceModel,
};
use crate::table::ModuleTable;
use vstd::prelude::*;

verus! {

/// The options a resolve-id hook is called with.
#[derive(Clone, Debug, PartialEq, Eq)]
pub struct HookResolveIdArgsOptions {
    pub is_entry: bool,
    pub kind: String,
}

impl View for HookResolveIdArgsOptions {
    type V = ResolveArgsLabelled;

    open spec fn view(&self) -> ResolveArgsLabelled {
        ResolveArgsLabelled { is_entry: self.is_entry, kind: self.kind@ }
    }
}

impl HookResolveIdArgsOptions {
    /// `kind` is one of the labels of the import kinds.
    pub open spec fn well_formed(&self) -> bool {
        is_import_kind_label(self.kind@)
    }
}

impl Default for HookResolveIdArgsOptions {
    fn default() -> (r: Self)
        ensures
            r@ == (ResolveArgsLabelled { is_entry: false, kind: Seq::empty() }),
    {
        HookResolveIdArgsOptions { is_entry: false, kind: String::new() }
    }
}

/// What a resolve-id hook returns when it resolves the specifier.
#[derive(Clone, Debug, PartialEq, Eq)]
pub struct ResolveIdResult {
    pub id: String,
    pub external: Option<bool>,
}

impl View for ResolveIdResult {
    type V = ResolvedIdModel;

    open spec fn view(&self) -> ResolvedIdModel {
        ResolvedIdModel { id: self.id@, external: self.external }
    }
}

impl Default for ResolveIdResult {
    fn default() -> (r: Self)
        ensures
            r@ == (ResolvedIdModel { id: Seq::empty(), external: None }),
    {
        ResolveIdResult { id: String::new(), external: None }
    }
}

#[derive(Clone, Debug, PartialEq, Eq)]
pub struct SourceMap {
    pub mappings: String,
    pub names: Vec<String>,
    pub source_root: Option<String>,
    pub sources: Vec<String>,
    pub sources_content: Vec<String>,
}

impl View for SourceMap {
    type V = SourceMapModel;

    open spec fn view(&self) -> SourceMapModel {
        SourceMapModel {
            mappings: self.mappings@,
            names: texts(self.names@),
            source_root: text_of(self.source_root),
            sources: texts(self.sources@),
            sources_content: texts(self.sources_content@),
        }
    }
}

impl Default for SourceMap {
    fn default() -> (r: Self)
        ensures
            r@ == (SourceMapModel {
                mappings: Seq::empty(),
                names: Seq::empty(),
                source_root: None,
                sources: Seq::empty(),
                sources_content: Seq::empty(),
            }),
    {
        SourceMap {
            mappings: String::new(),
            names: Vec::new(),
            source_root: None,
            sources: Vec::new(),
            sources_content: Vec::new(),
        }
    }
}

/// What a load hook or a transform hook returns when it supplies source.
#[derive(Clone, Debug, PartialEq, Eq)]
pub struct SourceResult {
    pub code: String,
    pub map: Option<SourceMap>,
}

impl View for SourceResult {
    type V = SourceModel;

    open spec fn view(&self) -> SourceModel {
        SourceModel {
            code: self.code@,
            map: match self.map {
                Some(map) => Some(map@),
                None => None,
            },
        }
    }
}

impl Default for SourceResult {
    fn default() -> (r: Self)
        ensures
            r@ == (SourceModel { code: Seq::empty(), map: None }),
    {
        SourceResult { code: String::new(), map: None }
    }
}

/// What a render-chunk hook returns when it replaces the chunk's code.
#[derive(Clone, Debug, PartialEq, Eq)]
pub struct HookRenderChunkOutput {
    pub code: String,
}

impl View for HookRenderChunkOutput {
    type V = Seq<char>;

    open spec fn view(&self) -> Seq<char> {
        self.code@
    }
}

impl Default for HookRenderChunkOutput {
    fn default() -> (r: Self)
        ensures
            r@ == Seq::<char>::empty(),
    {
        HookRenderChunkOutput { code: String::new() }
    }
}

/// A chunk as a hook sees it before the chunk is rendered.
#[derive(Clone, Debug, PartialEq, Eq)]
pub struct PreRenderedChunk {
    pub is_entry: bool,
    pub is_dynamic_entry: bool,
    pub facade_module_id: Option<String>,
    pub module_ids: Vec<String>,
    pub exports: Vec<String>,
}

impl View for PreRenderedChunk {
    type V = PreRenderedChunkModel;

    open spec fn view(&self) -> PreRenderedChunkModel {
        PreRenderedChunkModel {
            is_entry: self.is_entry,
            is_dynamic_entry: self.is_dynamic_entry,
            facade_module_id: text_of(self.facade_module_id),
            module_ids: texts(self.module_ids@),
            exports: texts(self.exports@),
        }
    }
}

impl Default for PreRenderedChunk {
    fn default() -> (r: Self)
        ensures
            r@ == (PreRenderedChunkModel {
                is_entry: false,
                is_dynamic_entry: false,
                facade_module_id: None,
                module_ids: Seq::empty(),
                exports: Seq::empty(),
            }),
    {
        PreRenderedChunk {
            is_entry: false,
            is_dynamic_entry: false,
            facade_module_id: None,
            module_ids: Vec::new(),
            exports: Vec::new(),
        }
    }
}

/// A rendered module as a hook sees it.
#[derive(Clone, Debug, PartialEq, Eq)]
pub struct BindingRenderedModule {
    pub code: Option<String>,
}

impl View for BindingRenderedModule {
    type V = RenderedModuleModel;

    open spec fn view(&self) -> RenderedModuleModel {
        RenderedModuleModel { code: text_of(self.code) }
    }
}

/// The modules of `entries`, each under the view of its id, in order.
pub open spec fn binding_modules(entries: Seq<(String, BindingRenderedModule)>) -> Seq<
    (Seq<char>, RenderedModuleModel),
> {
    Seq::new(entries.len(), |i: int| (entries[i].0@, entries[i].1@))
}

/// A rendered chunk as a hook sees it. `modules` holds one entry for each
/// module id and never leaves the process.
#[derive(Clone, Debug, PartialEq, Eq)]
pub struct RenderedChunk {
    pub is_entry: bool,
    pub is_dynamic_entry: bool,
    pub facade_module_id: Option<String>,
    pub module_ids: Vec<String>,
    pub exports: Vec<String>,
    pub file_name: String,
    pub modules: ModuleTable<BindingRenderedModule>,
}

impl View for RenderedChunk {
    type V = RenderedChunkModel;

    open spec fn view(&self) -> RenderedChunkModel {
        RenderedChunkModel {
            chunk: PreRenderedChunkModel {
                is_entry: self.is_entry,
                is_dynamic_entry: self.is_dynamic_entry,
                facade_module_id: text_of(self.facade_module_id),
                module_ids: texts(self.module_ids@),
                exports: texts(self.exports@),
            },
            file_name: self.file_name@,
            modules: binding_modules(self.modules.entries()),
        }
    }
}

impl Default for RenderedChunk {
    fn default() -> (r: Self)
        ensures
            r@ == (RenderedChunkModel {
                chunk: PreRenderedChunkModel {
                    is_entry: false,
                    is_dynamic_entry: false,
                    facade_module_id: None,
                    module_ids: Seq::empty(),
                    exports: Seq::empty(),
                },
                file_name: Seq::empty(),
                modules: Seq::empty(),
            }),
    {
        RenderedChunk {
            is_entry: false,
            is_dynamic_entry: false,
            facade_module_id: None,
            module_ids: Vec::new(),
            exports: Vec::new(),
            file_name: String::new(),
            modules: ModuleTable::new(),
        }
    }
}

} // verus!
