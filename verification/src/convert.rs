//! The conversions between the plugin-facing records and the engine's own.
//!
//! Every conversion is total: it copies required fields as they are, hands an
//! optional field on as the same optional value, and converts sequences and
//! keyed entries one by one, in order. None of them judges what it carries.
//!
//! What a hook returns is converted into the engine's record of it. What a
//! hook is only shown (the options of a request, the chunk descriptors) is
//! converted from the engine's record; the chunk descriptors can be taken back
//! as well.

use crate::engine::{
    lemma_labels_distinct, EnginePreRenderedChunk, EngineRenderChunkOutput, EngineRenderedChunk,
    EngineRenderedModule, EngineResolveIdArgsOptions, EngineSourceMap, HookLoadOutput,
    HookResolveIdOutput,
};
use crate::model::{ResolveArgsLabelled, ResolveArgsModel};
use crate::schema::{
    BindingRenderedModule, HookRenderChunkOutput, HookResolveIdArgsOptions, PreRenderedChunk,
    RenderedChunk, ResolveIdResult, SourceMap, SourceResult,
};
use crate::table::{distinct_ids, ModuleTable};
use vstd::prelude::*;
use vstd::std_specs::convert::FromSpecImpl;

verus! {

/// The options of a request as a plugin sees them: the kind under its label.
pub open spec fn labelled(args: ResolveArgsModel) -> ResolveArgsLabelled {
    ResolveArgsLabelled { is_entry: args.is_entry, kind: args.kind.spec_label() }
}

impl FromSpecImpl<EngineResolveIdArgsOptions> for HookResolveIdArgsOptions {
    /// A string cannot be built in ghost code, so what `from` returns is
    /// stated by its own contract, over the view.
    open spec fn obeys_from_spec() -> bool {
        false
    }

    open spec fn from_spec(value: EngineResolveIdArgsOptions) -> Self {
        choose|ret: Self| ret@ == labelled(value@)
    }
}

impl From<EngineResolveIdArgsOptions> for HookResolveIdArgsOptions {
    fn from(value: EngineResolveIdArgsOptions) -> (ret: Self)
        ensures
            ret@ == labelled(value@),
            ret.well_formed(),
    {
        HookResolveIdArgsOptions { is_entry: value.is_entry, kind: value.kind.label() }
    }
}

/// What a plugin is shown of a request tells the request: two requests shown
/// alike are one request. Nothing is lost under the label.
pub proof fn lemma_labelled_loses_nothing(a: ResolveArgsModel, b: ResolveArgsModel)
    requires
        labelled(a) == labelled(b),
    ensures
        a == b,
{
    lemma_labels_distinct(a.kind, b.kind);
}

/// The engine's record of what a resolve-id hook returned.
pub open spec fn resolved_output(value: ResolveIdResult) -> HookResolveIdOutput {
    HookResolveIdOutput { id: value.id, external: value.external }
}

impl FromSpecImpl<ResolveIdResult> for HookResolveIdOutput {
    open spec fn obeys_from_spec() -> bool {
        true
    }

    open spec fn from_spec(value: ResolveIdResult) -> Self {
        resolved_output(value)
    }
}

impl From<ResolveIdResult> for HookResolveIdOutput {
    fn from(value: ResolveIdResult) -> (ret: Self)
        ensures
            ret == resolved_output(value),
            ret@ == value@,
    {
        HookResolveIdOutput { id: value.id, external: value.external }
    }
}

/// The plugin-facing record of a resolution the engine holds.
pub open spec fn resolve_result(value: HookResolveIdOutput) -> ResolveIdResult {
    ResolveIdResult { id: value.id, external: value.external }
}

impl FromSpecImpl<HookResolveIdOutput> for ResolveIdResult {
    open spec fn obeys_from_spec() -> bool {
        true
    }

    open spec fn from_spec(value: HookResolveIdOutput) -> Self {
        resolve_result(value)
    }
}

impl From<HookResolveIdOutput> for ResolveIdResult {
    fn from(value: HookResolveIdOutput) -> (ret: Self)
        ensures
            ret == resolve_result(value),
            ret@ == value@,
    {
        ResolveIdResult { id: value.id, external: value.external }
    }
}

/// A resolve-id result taken into the engine's record and back is the result
/// it was: the same `id`, and the same `external`, unset where it was unset.
pub proof fn lemma_resolve_result_round_trip(value: ResolveIdResult)
    ensures
        resolve_result(resolved_output(value)) == value,
        resolved_output(value).id == value.id,
        resolved_output(value).external == value.external,
        resolved_output(value)@ == value@,
        resolve_result(resolved_output(value))@ == value@,
{
}

/// The engine's source map with the fields of `value`.
pub open spec fn engine_source_map(value: SourceMap) -> EngineSourceMap {
    EngineSourceMap {
        mappings: value.mappings,
        names: value.names,
        source_root: value.source_root,
        sources: value.sources,
        sources_content: value.sources_content,
    }
}

impl FromSpecImpl<SourceMap> for EngineSourceMap {
    open spec fn obeys_from_spec() -> bool {
        true
    }

    open spec fn from_spec(value: SourceMap) -> Self {
        engine_source_map(value)
    }
}

impl From<SourceMap> for EngineSourceMap {
    fn from(value: SourceMap) -> (ret: Self)
        ensures
            ret == engine_source_map(value),
            ret@ == value@,
    {
        EngineSourceMap {
            mappings: value.mappings,
            names: value.names,
            source_root: value.source_root,
            sources: value.sources,
            sources_content: value.sources_content,
        }
    }
}

/// The engine's source record of what a load or a transform hook returned.
pub open spec fn load_output(value: SourceResult) -> HookLoadOutput {
    HookLoadOutput {
        code: value.code,
        map: match value.map {
            Some(map) => Some(engine_source_map(map)),
            None => None,
        },
    }
}

impl FromSpecImpl<SourceResult> for HookLoadOutput {
    open spec fn obeys_from_spec() -> bool {
        true
    }

    open spec fn from_spec(value: SourceResult) -> Self {
        load_output(value)
    }
}

impl From<SourceResult> for HookLoadOutput {
    fn from(value: SourceResult) -> (ret: Self)
        ensures
            ret == load_output(value),
            ret@ == value@,
    {
        let map = match value.map {
            Some(map) => Some(EngineSourceMap::from(map)),
            None => None,
        };
        HookLoadOutput { code: value.code, map }
    }
}

/// The engine's record of what a render-chunk hook returned.
pub open spec fn render_chunk_output(value: HookRenderChunkOutput) -> EngineRenderChunkOutput {
    EngineRenderChunkOutput { code: value.code }
}

impl FromSpecImpl<HookRenderChunkOutput> for EngineRenderChunkOutput {
    open spec fn obeys_from_spec() -> bool {
        true
    }

    open spec fn from_spec(value: HookRenderChunkOutput) -> Self {
        render_chunk_output(value)
    }
}

impl From<HookRenderChunkOutput> for EngineRenderChunkOutput {
    fn from(value: HookRenderChunkOutput) -> (ret: Self)
        ensures
            ret == render_chunk_output(value),
            ret@ == value@,
    {
        EngineRenderChunkOutput { code: value.code }
    }
}

/// The plugin-facing descriptor of a chunk the engine is about to render.
pub open spec fn pre_rendered_chunk(value: EnginePreRenderedChunk) -> PreRenderedChunk {
    PreRenderedChunk {
        is_entry: value.is_entry,
        is_dynamic_entry: value.is_dynamic_entry,
        facade_module_id: value.facade_module_id,
        module_ids: value.module_ids,
        exports: value.exports,
    }
}

impl FromSpecImpl<EnginePreRenderedChunk> for PreRenderedChunk {
    open spec fn obeys_from_spec() -> bool {
        true
    }

    open spec fn from_spec(value: EnginePreRenderedChunk) -> Self {
        pre_rendered_chunk(value)
    }
}

impl From<EnginePreRenderedChunk> for PreRenderedChunk {
    fn from(value: EnginePreRenderedChunk) -> (ret: Self)
        ensures
            ret == pre_rendered_chunk(value),
            ret@ == value@,
    {
        PreRenderedChunk {
            is_entry: value.is_entry,
            is_dynamic_entry: value.is_dynamic_entry,
            facade_module_id: value.facade_module_id,
            module_ids: value.module_ids,
            exports: value.exports,
        }
    }
}

/// The engine's record of a plugin-facing chunk descriptor.
pub open spec fn engine_pre_rendered_chunk(value: PreRenderedChunk) -> EnginePreRenderedChunk {
    EnginePreRenderedChunk {
        is_entry: value.is_entry,
        is_dynamic_entry: value.is_dynamic_entry,
        facade_module_id: value.facade_module_id,
        module_ids: value.module_ids,
        exports: value.exports,
    }
}

impl FromSpecImpl<PreRenderedChunk> for EnginePreRenderedChunk {
    open spec fn obeys_from_spec() -> bool {
        true
    }

    open spec fn from_spec(value: PreRenderedChunk) -> Self {
        engine_pre_rendered_chunk(value)
    }
}

impl From<PreRenderedChunk> for EnginePreRenderedChunk {
    fn from(value: PreRenderedChunk) -> (ret: Self)
        ensures
            ret == engine_pre_rendered_chunk(value),
            ret@ == value@,
    {
        EnginePreRenderedChunk {
            is_entry: value.is_entry,
            is_dynamic_entry: value.is_dynamic_entry,
            facade_module_id: value.facade_module_id,
            module_ids: value.module_ids,
            exports: value.exports,
        }
    }
}

/// A chunk descriptor shown to a plugin and taken back is the engine's
/// descriptor it was made from, and the other way round.
pub proof fn lemma_pre_rendered_chunk_round_trip(
    engine: EnginePreRenderedChunk,
    shown: PreRenderedChunk,
)
    ensures
        engine_pre_rendered_chunk(pre_rendered_chunk(engine)) == engine,
        pre_rendered_chunk(engine_pre_rendered_chunk(shown)) == shown,
        pre_rendered_chunk(engine)@ == engine@,
        engine_pre_rendered_chunk(shown)@ == shown@,
{
}

/// The plugin-facing descriptor of a rendered module.
pub open spec fn binding_module(value: EngineRenderedModule) -> BindingRenderedModule {
    BindingRenderedModule { code: value.code }
}

impl FromSpecImpl<EngineRenderedModule> for BindingRenderedModule {
    open spec fn obeys_from_spec() -> bool {
        true
    }

    open spec fn from_spec(value: EngineRenderedModule) -> Self {
        binding_module(value)
    }
}

impl From<EngineRenderedModule> for BindingRenderedModule {
    fn from(value: EngineRenderedModule) -> (ret: Self)
        ensures
            ret == binding_module(value),
            ret@ == value@,
    {
        BindingRenderedModule { code: value.code }
    }
}

/// The engine's record of a plugin-facing module descriptor.
pub open spec fn engine_module(value: BindingRenderedModule) -> EngineRenderedModule {
    EngineRenderedModule { code: value.code }
}

impl FromSpecImpl<BindingRenderedModule> for EngineRenderedModule {
    open spec fn obeys_from_spec() -> bool {
        true
    }

    open spec fn from_spec(value: BindingRenderedModule) -> Self {
        engine_module(value)
    }
}

impl From<BindingRenderedModule> for EngineRenderedModule {
    fn from(value: BindingRenderedModule) -> (ret: Self)
        ensures
            ret == engine_module(value),
            ret@ == value@,
    {
        EngineRenderedModule { code: value.code }
    }
}

/// `shown` holds the entries of `engine`: as many, under the same ids, each
/// module converted, at the same positions.
pub open spec fn same_entries(
    shown: Seq<(String, BindingRenderedModule)>,
    engine: Seq<(String, EngineRenderedModule)>,
) -> bool {
    &&& shown.len() == engine.len()
    &&& forall|i: int|
        0 <= i < engine.len() ==> (#[trigger] shown[i]).0 == engine[i].0 && shown[i].1
            == binding_module(engine[i].1)
}

/// The table of `modules`, each module converted, under the same ids and in
/// the same order.
fn binding_table(modules: ModuleTable<EngineRenderedModule>) -> (out: ModuleTable<
    BindingRenderedModule,
>)
    ensures
        same_entries(out.entries(), modules.entries()),
        distinct_ids(out.entries()),
{
    let entries = modules.into_entries();
    let mut out: Vec<(String, BindingRenderedModule)> = Vec::new();
    for entry in it: entries.into_iter()
        invariant
            it.seq() == entries@,
            out@.len() == it.index(),
            forall|i: int|
                0 <= i < it.index() ==> (#[trigger] out@[i]).0 == entries@[i].0 && out@[i].1
                    == binding_module(entries@[i].1),
    {
        let (id, module) = entry;
        out.push((id, BindingRenderedModule::from(module)));
    }
    proof {
        assert forall|a: int, b: int| 0 <= a < b < out@.len() implies (#[trigger] out@[a]).0@ != (
        #[trigger] out@[b]).0@ by {
            assert(entries@[a].0@ != entries@[b].0@);
        }
    }
    ModuleTable::from_distinct(out)
}

/// The table of `modules`, each module converted, under the same ids and in
/// the same order.
fn engine_table(modules: ModuleTable<BindingRenderedModule>) -> (out: ModuleTable<
    EngineRenderedModule,
>)
    ensures
        same_entries(modules.entries(), out.entries()),
        distinct_ids(out.entries()),
{
    let entries = modules.into_entries();
    let mut out: Vec<(String, EngineRenderedModule)> = Vec::new();
    for entry in it: entries.into_iter()
        invariant
            it.seq() == entries@,
            out@.len() == it.index(),
            forall|i: int|
                0 <= i < it.index() ==> (#[trigger] entries@[i]).0 == out@[i].0 && entries@[i].1
                    == binding_module(out@[i].1),
    {
        let (id, module) = entry;
        out.push((id, EngineRenderedModule::from(module)));
    }
    proof {
        assert forall|a: int, b: int| 0 <= a < b < out@.len() implies (#[trigger] out@[a]).0@ != (
        #[trigger] out@[b]).0@ by {
            assert(entries@[a].0@ != entries@[b].0@);
        }
    }
    ModuleTable::from_distinct(out)
}

/// `shown` is the plugin-facing descriptor of the rendered chunk `engine`:
/// every field but `modules` is the engine's own value, and `modules` holds
/// the engine's entries.
pub open spec fn shows(shown: RenderedChunk, engine: EngineRenderedChunk) -> bool {
    &&& shown.is_entry == engine.is_entry
    &&& shown.is_dynamic_entry == engine.is_dynamic_entry
    &&& shown.facade_module_id == engine.facade_module_id
    &&& shown.module_ids == engine.module_ids
    &&& shown.exports == engine.exports
    &&& shown.file_name == engine.file_name
    &&& same_entries(shown.modules.entries(), engine.modules.entries())
}

impl FromSpecImpl<EngineRenderedChunk> for RenderedChunk {
    /// A table cannot be built in ghost code, so what `from` returns is
    /// stated by its own contract.
    open spec fn obeys_from_spec() -> bool {
        false
    }

    open spec fn from_spec(value: EngineRenderedChunk) -> Self {
        choose|ret: Self| shows(ret, value)
    }
}

impl From<EngineRenderedChunk> for RenderedChunk {
    fn from(value: EngineRenderedChunk) -> (ret: Self)
        ensures
            shows(ret, value),
            ret@ == value@,
            ret@.keys_unique(),
    {
        let modules = binding_table(value.modules);
        RenderedChunk {
            is_entry: value.is_entry,
            is_dynamic_entry: value.is_dynamic_entry,
            facade_module_id: value.facade_module_id,
            module_ids: value.module_ids,
            exports: value.exports,
            file_name: value.file_name,
            modules,
        }
    }
}

impl FromSpecImpl<RenderedChunk> for EngineRenderedChunk {
    /// A table cannot be built in ghost code, so what `from` returns is
    /// stated by its own contract.
    open spec fn obeys_from_spec() -> bool {
        false
    }

    open spec fn from_spec(value: RenderedChunk) -> Self {
        choose|ret: Self| shows(value, ret)
    }
}

impl From<RenderedChunk> for EngineRenderedChunk {
    fn from(value: RenderedChunk) -> (ret: Self)
        ensures
            shows(value, ret),
            ret@ == value@,
            ret@.keys_unique(),
    {
        let modules = engine_table(value.modules);
        EngineRenderedChunk {
            is_entry: value.is_entry,
            is_dynamic_entry: value.is_dynamic_entry,
            facade_module_id: value.facade_module_id,
            module_ids: value.module_ids,
            exports: value.exports,
            file_name: value.file_name,
            modules,
        }
    }
}

/// Conversion keeps order. Where `shown` is the descriptor of `engine`, the
/// module ids, the exports and the module entries of the two are as many, and
/// at every position `shown` holds what `engine` holds there; nothing moves,
/// and an id that had one entry still has one.
pub proof fn lemma_rendered_chunk_keeps_order(shown: RenderedChunk, engine: EngineRenderedChunk)
    requires
        shows(shown, engine),
    ensures
        shown@ == engine@,
        shown.module_ids@.len() == engine.module_ids@.len(),
        forall|i: int|
            0 <= i < engine.module_ids@.len() ==> #[trigger] shown.module_ids@[i]
                == engine.module_ids@[i],
        shown.exports@.len() == engine.exports@.len(),
        forall|i: int|
            0 <= i < engine.exports@.len() ==> #[trigger] shown.exports@[i] == engine.exports@[i],
        shown@.module_keys() == engine@.module_keys(),
        shown@.keys_unique() == engine@.keys_unique(),
        shown@.module_map() == engine@.module_map(),
{
}

} // verus!
