//! The hooks a plugin may implement, and the registration by which a plugin
//! says which of them it does implement.

use vstd::prelude::*;

verus! {

/// A lifecycle point at which plugins are called.
#[derive(Clone, Copy, Debug, PartialEq, Eq, Structural)]
pub enum HookKind {
    /// Called once, when the pipeline starts.
    BuildStart,
    /// Called for each import specifier; may resolve it.
    ResolveId,
    /// Called for each module that needs source; may supply it.
    Load,
    /// Called for each loaded module; may replace its source.
    Transform,
    /// Called once, when the pipeline has completed or failed.
    BuildEnd,
    /// Called for each chunk before it is written; may replace its code.
    RenderChunk,
    /// Called after rendering, before anything is written.
    GenerateBundle,
    /// Called after the files are written.
    WriteBundle,
}

/// A phase of the pipeline. Every hook belongs to one.
#[derive(Clone, Copy, Debug, PartialEq, Eq, Structural)]
pub enum Stage {
    Build,
    Resolve,
    Load,
    Transform,
    Render,
    Emit,
}

impl Stage {
    pub open spec fn spec_name(self) -> Seq<char> {
        match self {
            Stage::Build => "build"@,
            Stage::Resolve => "resolve"@,
            Stage::Load => "load"@,
            Stage::Transform => "transform"@,
            Stage::Render => "render"@,
            Stage::Emit => "emit"@,
        }
    }

    /// The name by which a failure report names this stage.
    pub fn name(self) -> (name: String)
        ensures
            name@ == self.spec_name(),
    {
        match self {
            Stage::Build => "build".to_owned(),
            Stage::Resolve => "resolve".to_owned(),
            Stage::Load => "load".to_owned(),
            Stage::Transform => "transform".to_owned(),
            Stage::Render => "render".to_owned(),
            Stage::Emit => "emit".to_owned(),
        }
    }
}

/// What a stage makes of the values its hooks return.
#[derive(Clone, Copy, Debug, PartialEq, Eq, Structural)]
pub enum Effect {
    /// Nothing is taken back from the hook.
    Observes,
    /// The first value returned is taken in place of the engine's own work,
    /// and no further plugin is asked.
    Supplies,
    /// Each value returned replaces what the next plugin is handed.
    Replaces,
}

impl HookKind {
    pub open spec fn spec_stage(self) -> Stage {
        match self {
            HookKind::BuildStart => Stage::Build,
            HookKind::ResolveId => Stage::Resolve,
            HookKind::Load => Stage::Load,
            HookKind::Transform => Stage::Transform,
            HookKind::BuildEnd => Stage::Build,
            HookKind::RenderChunk => Stage::Render,
            HookKind::GenerateBundle => Stage::Emit,
            HookKind::WriteBundle => Stage::Emit,
        }
    }

    /// The stage this hook belongs to.
    #[verifier::when_used_as_spec(spec_stage)]
    pub fn stage(self) -> (stage: Stage)
        ensures
            stage == self.spec_stage(),
    {
        match self {
            HookKind::BuildStart => Stage::Build,
            HookKind::ResolveId => Stage::Resolve,
            HookKind::Load => Stage::Load,
            HookKind::Transform => Stage::Transform,
            HookKind::BuildEnd => Stage::Build,
            HookKind::RenderChunk => Stage::Render,
            HookKind::GenerateBundle => Stage::Emit,
            HookKind::WriteBundle => Stage::Emit,
        }
    }

    pub open spec fn spec_effect(self) -> Effect {
        match self {
            HookKind::ResolveId | HookKind::Load => Effect::Supplies,
            HookKind::Transform | HookKind::RenderChunk => Effect::Replaces,
            _ => Effect::Observes,
        }
    }

    /// What becomes of the values this hook returns.
    #[verifier::when_used_as_spec(spec_effect)]
    pub fn effect(self) -> (effect: Effect)
        ensures
            effect == self.spec_effect(),
    {
        match self {
            HookKind::ResolveId | HookKind::Load => Effect::Supplies,
            HookKind::Transform | HookKind::RenderChunk => Effect::Replaces,
            _ => Effect::Observes,
        }
    }

    pub open spec fn spec_name(self) -> Seq<char> {
        match self {
            HookKind::BuildStart => "build-start"@,
            HookKind::ResolveId => "resolve-id"@,
            HookKind::Load => "load"@,
            HookKind::Transform => "transform"@,
            HookKind::BuildEnd => "build-end"@,
            HookKind::RenderChunk => "render-chunk"@,
            HookKind::GenerateBundle => "generate-bundle"@,
            HookKind::WriteBundle => "write-bundle"@,
        }
    }

    /// The name by which a failure report names this hook.
    pub fn name(self) -> (name: String)
        ensures
            name@ == self.spec_name(),
    {
        match self {
            HookKind::BuildStart => "build-start".to_owned(),
            HookKind::ResolveId => "resolve-id".to_owned(),
            HookKind::Load => "load".to_owned(),
            HookKind::Transform => "transform".to_owned(),
            HookKind::BuildEnd => "build-end".to_owned(),
            HookKind::RenderChunk => "render-chunk".to_owned(),
            HookKind::GenerateBundle => "generate-bundle".to_owned(),
            HookKind::WriteBundle => "write-bundle".to_owned(),
        }
    }
}

/// A plugin's implementation of one hook, by the reference under which the
/// caller of the hooks keeps it.
#[derive(Clone, Copy, Debug, PartialEq, Eq, Structural)]
pub struct HookHandle {
    pub id: u32,
}

/// A plugin's registration: its name, and a handle for each hook it
/// implements. A hook without a handle is one the plugin takes no interest in.
#[derive(Clone, Debug, PartialEq, Eq)]
pub struct PluginOptions {
    pub name: String,
    pub build_start: Option<HookHandle>,
    pub resolve_id: Option<HookHandle>,
    pub load: Option<HookHandle>,
    pub transform: Option<HookHandle>,
    pub build_end: Option<HookHandle>,
    pub render_chunk: Option<HookHandle>,
    pub generate_bundle: Option<HookHandle>,
    pub write_bundle: Option<HookHandle>,
}

/// A registration as dispatch sees it: a name and the hooks implemented, each
/// with its handle.
#[verifier::ext_equal]
pub struct PluginModel {
    pub name: Seq<char>,
    pub handles: Map<HookKind, HookHandle>,
}

impl PluginModel {
    pub open spec fn implements(self, hook: HookKind) -> bool {
        self.handles.dom().contains(hook)
    }

    /// The plugin implements no hook at all.
    pub open spec fn inert(self) -> bool {
        forall|hook: HookKind| !self.implements(hook)
    }
}

impl PluginOptions {
    pub open spec fn spec_hook(&self, hook: HookKind) -> Option<HookHandle> {
        match hook {
            HookKind::BuildStart => self.build_start,
            HookKind::ResolveId => self.resolve_id,
            HookKind::Load => self.load,
            HookKind::Transform => self.transform,
            HookKind::BuildEnd => self.build_end,
            HookKind::RenderChunk => self.render_chunk,
            HookKind::GenerateBundle => self.generate_bundle,
            HookKind::WriteBundle => self.write_bundle,
        }
    }

    /// The handle of this plugin's implementation of `hook`, if it has one.
    #[verifier::when_used_as_spec(spec_hook)]
    pub fn hook(&self, hook: HookKind) -> (handle: Option<HookHandle>)
        ensures
            handle == self.spec_hook(hook),
            handle is Some <==> self@.implements(hook),
            handle is Some ==> handle->0 == self@.handles[hook],
    {
        match hook {
            HookKind::BuildStart => self.build_start,
            HookKind::ResolveId => self.resolve_id,
            HookKind::Load => self.load,
            HookKind::Transform => self.transform,
            HookKind::BuildEnd => self.build_end,
            HookKind::RenderChunk => self.render_chunk,
            HookKind::GenerateBundle => self.generate_bundle,
            HookKind::WriteBundle => self.write_bundle,
        }
    }

    /// Whether this plugin implements `hook`.
    pub fn implements(&self, hook: HookKind) -> (yes: bool)
        ensures
            yes == self@.implements(hook),
    {
        self.hook(hook).is_some()
    }

    /// A registration may be entered under its name: the name is not empty.
    pub open spec fn spec_is_named(&self) -> bool {
        self.name@.len() > 0
    }

    #[verifier::when_used_as_spec(spec_is_named)]
    pub fn is_named(&self) -> (yes: bool)
        ensures
            yes == self.spec_is_named(),
    {
        !self.name.as_str().is_empty()
    }
}

impl View for PluginOptions {
    type V = PluginModel;

    open spec fn view(&self) -> PluginModel {
        PluginModel {
            name: self.name@,
            handles: Map::new(
                |hook: HookKind| self.spec_hook(hook) is Some,
                |hook: HookKind| self.spec_hook(hook)->0,
            ),
        }
    }
}

impl Default for PluginOptions {
    /// The registration without a name and without a hook.
    fn default() -> (r: Self)
        ensures
            r.name@ == Seq::<char>::empty(),
            r.build_start is None,
            r.resolve_id is None,
            r.load is None,
            r.transform is None,
            r.build_end is None,
            r.render_chunk is None,
            r.generate_bundle is None,
            r.write_bundle is None,
            r@.inert(),
    {
        PluginOptions {
            name: String::new(),
            build_start: None,
            resolve_id: None,
            load: None,
            transform: None,
            build_end: None,
            render_chunk: None,
            generate_bundle: None,
            write_bundle: None,
        }
    }
}

} // verus!
