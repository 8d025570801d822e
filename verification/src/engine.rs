//! The engine's own records: what the bundling engine hands to the boundary
//! before a hook is called, and what it takes back afterwards.

use crate::model::{
    text_of, texts, PreRenderedChunkModel, RenderedChunkModel, RenderedModuleModel,
    ResolveArgsModel, ResolvedIdModel, SourceMapModel, SourceModel,
};
use crate::table::ModuleTable;
use vstd::prelude::*;

verus! {

/// How a module came to be imported.
#[derive(Clone, Copy, Debug, PartialEq, Eq, Structural)]
pub enum ImportKind {
    Import,
    DynamicImport,
    Require,
}

impl ImportKind {
    /// The label under which plugins see this kind.
    pub open spec fn spec_label(self) -> Seq<char> {
        match self {
            ImportKind::Import => "import-statement"@,
            ImportKind::DynamicImport => "dynamic-import"@,
            ImportKind::Require => "require-call"@,
        }
    }

    pub fn label(self) -> (label: String)
        ensures
            label@ == self.spec_label(),
    {
        match self {
            ImportKind::Import => "import-statement".to_owned(),
            ImportKind::DynamicImport => "dynamic-import".to_owned(),
            ImportKind::Require => "require-call".to_owned(),
        }
    }
}

/// `s` is the label of some import kind.
pub open spec fn is_import_kind_label(s: Seq<char>) -> bool {
    exists|kind: ImportKind| s == #[trigger] kind.spec_label()
}

/// Two kinds with one label are one kind.
pub proof fn lemma_labels_distinct(a: ImportKind, b: ImportKind)
    requires
        a.spec_label() == b.spec_label(),
    ensures
        a == b,
{
    reveal_strlit("import-statement");
    reveal_strlit("dynamic-import");
    reveal_strlit("require-call");
    assert("import-statement"@.len() == 16);
    assert("dynamic-import"@.len() == 14);
    assert("require-call"@.len() == 12);
}

/// The options of a resolution request.
#[derive(Clone, Copy, Debug, PartialEq, Eq)]
pub struct EngineResolveIdArgsOptions {
    pub is_entry: bool,
    pub kind: ImportKind,
}

impl View for EngineResolveIdArgsOptions {
    type V = ResolveArgsModel;

    open spec fn view(&self) -> ResolveArgsModel {
        ResolveArgsModel { is_entry: self.is_entry, kind: self.kind }
    }
}

/// What a resolve-id hook decided.
#[derive(Clone, Debug, PartialEq, Eq)]
pub struct HookResolveIdOutput {
    pub id: String,
    pub external: Option<bool>,
}

impl View for HookResolveIdOutput {
    type V = ResolvedIdModel;

    open spec fn view(&self) -> ResolvedIdModel {
        ResolvedIdModel { id: self.id@, external: self.external }
    }
}

#[derive(Clone, Debug, PartialEq, Eq)]
pub struct EngineSourceMap {
    pub mappings: String,
    pub names: Vec<String>,
    pub source_root: Option<String>,
    pub sources: Vec<String>,
    pub sources_content: Vec<String>,
}

impl View for EngineSourceMap {
    type V = SourceMapModel;

    open spec fn view(&self) -> SourceMapModel {
        SourceMapModel {
            mappings: self.mappings@,
            names: texts(self.names@),
            source_root: text_of(self.source_root),
            sources: texts(self.sources@),
            sources_content: texts(self.sources_content@),
        }
    }
}

/// The source record of a module, as a load or a transform hook supplies it.
#[derive(Clone, Debug, PartialEq, Eq)]
pub struct HookLoadOutput {
    pub code: String,
    pub map: Option<EngineSourceMap>,
}

impl View for HookLoadOutput {
    type V = SourceModel;

    open spec fn view(&self) -> SourceModel {
        SourceModel {
            code: self.code@,
            map: match self.map {
                Some(map) => Some(map@),
                None => None,
            },
        }
    }
}

/// The code by which a render-chunk hook replaces a chunk's code.
#[derive(Clone, Debug, PartialEq, Eq)]
pub struct EngineRenderChunkOutput {
    pub code: String,
}

impl View for EngineRenderChunkOutput {
    type V = Seq<char>;

    open spec fn view(&self) -> Seq<char> {
        self.code@
    }
}

#[derive(Clone, Debug, PartialEq, Eq)]
pub struct EnginePreRenderedChunk {
    pub is_entry: bool,
    pub is_dynamic_entry: bool,
    pub facade_module_id: Option<String>,
    pub module_ids: Vec<String>,
    pub exports: Vec<String>,
}

impl View for EnginePreRenderedChunk {
    type V = PreRenderedChunkModel;

    open spec fn view(&self) -> PreRenderedChunkModel {
        PreRenderedChunkModel {
            is_entry: self.is_entry,
            is_dynamic_entry: self.is_dynamic_entry,
            facade_module_id: text_of(self.facade_module_id),
            module_ids: texts(self.module_ids@),
            exports: texts(self.exports@),
        }
    }
}

#[derive(Clone, Debug, PartialEq, Eq)]
pub struct EngineRenderedModule {
    pub code: Option<String>,
}

impl View for EngineRenderedModule {
    type V = RenderedModuleModel;

    open spec fn view(&self) -> RenderedModuleModel {
        RenderedModuleModel { code: text_of(self.code) }
    }
}

/// The modules of `entries`, each under the view of its id, in order.
pub open spec fn engine_modules(entries: Seq<(String, EngineRenderedModule)>) -> Seq<
    (Seq<char>, RenderedModuleModel),
> {
    Seq::new(entries.len(), |i: int| (entries[i].0@, entries[i].1@))
}

/// A rendered chunk. `modules` holds one entry for each module id.
#[derive(Clone, Debug, PartialEq, Eq)]
pub struct EngineRenderedChunk {
    pub is_entry: bool,
    pub is_dynamic_entry: bool,
    pub facade_module_id: Option<String>,
    pub module_ids: Vec<String>,
    pub exports: Vec<String>,
    pub file_name: String,
    pub modules: ModuleTable<EngineRenderedModule>,
}

impl View for EngineRenderedChunk {
    type V = RenderedChunkModel;

    open spec fn view(&self) -> RenderedChunkModel {
        RenderedChunkModel {
            chunk: PreRenderedChunkModel {
                is_entry: self.is_entry,
                is_dynamic_entry: self.is_dynamic_entry,
                facade_module_id: text_of(self.facade_module_id),
                module_ids: texts(self.module_ids@),
                exports: texts(self.exports@),
            },
            file_name: self.file_name@,
            modules: engine_modules(self.modules.entries()),
        }
    }
}

} // verus!
