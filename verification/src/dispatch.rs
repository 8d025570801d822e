//! What a stage makes of the replies of the plugins it calls.
//!
//! Calling a hook is the caller's work: it is asynchronous and leaves this
//! crate. What is decided here is which plugin is called next (see the
//! registry), what a reply means, and what the replies of a whole stage add up
//! to for one subject: one specifier, one module, one chunk. A stage for one
//! subject depends on nothing but the registry, the subject and the replies to
//! it, so no subject's outcome can touch another's.

use crate::convert::{load_output, render_chunk_output, resolved_output};
use crate::engine::{EngineRenderChunkOutput, HookLoadOutput, HookResolveIdOutput};
use crate::hooks::{HookKind, PluginModel, PluginOptions, Stage};
use crate::model::text_of;
use crate::registry::{
    invocation_order, lemma_inert_plugins_are_never_invoked, lemma_invocation_order, PluginRegistry,
};
use crate::schema::{HookRenderChunkOutput, RenderedChunk, ResolveIdResult, SourceResult};
use vstd::prelude::*;
use vstd::string::StringExecFns;

verus! {

/// How a call of a hook ended.
#[derive(Clone, Debug, PartialEq, Eq)]
pub enum HookReply<T> {
    /// The hook completed and returned nothing.
    Absent,
    /// The hook completed and returned a value of the shape owed.
    Value(T),
    /// The hook's own computation failed; the reason it gave.
    Failed(String),
    /// The hook returned a value of another shape than owed; the required
    /// field that is missing or wrong.
    Malformed(String),
}

/// Where a failure happened: the plugin, its hook, the hook's stage, and the
/// subject the stage was working on, where it has one.
#[derive(Clone, Debug, PartialEq, Eq)]
pub struct HookContext {
    pub plugin: String,
    pub hook: HookKind,
    pub stage: Stage,
    pub subject: Option<String>,
}

/// A failure of a stage for its subject.
#[derive(Clone, Debug, PartialEq, Eq)]
pub enum HookError {
    /// The hook's own computation failed.
    HookInvocationFailure { context: HookContext, reason: String },
    /// The hook returned a value that lacks a required field or has the
    /// wrong shape.
    SchemaViolation { context: HookContext, field: String },
}

#[verifier::ext_equal]
pub struct HookContextModel {
    pub plugin: Seq<char>,
    pub hook: HookKind,
    pub stage: Stage,
    pub subject: Option<Seq<char>>,
}

#[verifier::ext_equal]
pub enum HookErrorModel {
    HookInvocationFailure { context: HookContextModel, reason: Seq<char> },
    SchemaViolation { context: HookContextModel, field: Seq<char> },
}

impl View for HookContext {
    type V = HookContextModel;

    open spec fn view(&self) -> HookContextModel {
        HookContextModel {
            plugin: self.plugin@,
            hook: self.hook,
            stage: self.stage,
            subject: text_of(self.subject),
        }
    }
}

impl View for HookError {
    type V = HookErrorModel;

    open spec fn view(&self) -> HookErrorModel {
        match self {
            HookError::HookInvocationFailure { context, reason } => {
                HookErrorModel::HookInvocationFailure { context: context@, reason: reason@ }
            },
            HookError::SchemaViolation { context, field } => {
                HookErrorModel::SchemaViolation { context: context@, field: field@ }
            },
        }
    }
}

impl HookError {
    pub open spec fn spec_context(&self) -> HookContext {
        match self {
            HookError::HookInvocationFailure { context, .. } => *context,
            HookError::SchemaViolation { context, .. } => *context,
        }
    }

    /// Where the failure happened.
    pub fn context(&self) -> (context: &HookContext)
        ensures
            *context == self.spec_context(),
    {
        match self {
            HookError::HookInvocationFailure { context, .. } => context,
            HookError::SchemaViolation { context, .. } => context,
        }
    }
}

/// Where a failure happened, in words: the plugin, the hook, the stage and,
/// where there is one, the subject.
pub open spec fn place_of(context: HookContextModel) -> Seq<char> {
    let place = "plugin "@ + context.plugin + ": hook "@ + context.hook.spec_name() + " in stage "@
        + context.stage.spec_name();
    match context.subject {
        Some(subject) => place + " for "@ + subject,
        None => place,
    }
}

/// The report of a failure: where it happened, then what failed.
pub open spec fn message_of(error: HookErrorModel) -> Seq<char> {
    match error {
        HookErrorModel::HookInvocationFailure { context, reason } => place_of(context)
            + " failed: "@ + reason,
        HookErrorModel::SchemaViolation { context, field } => place_of(context)
            + " returned a value without a valid field "@ + field,
    }
}

/// The error text a build-end hook is called with: empty where the build
/// succeeded, the report of the failure where it failed.
pub open spec fn build_end_text(failure: Option<HookErrorModel>) -> Seq<char> {
    match failure {
        Some(error) => message_of(error),
        None => Seq::empty(),
    }
}

impl HookContext {
    /// Where the failure happened, in words.
    pub fn place(&self) -> (text: String)
        ensures
            text@ == place_of(self@),
    {
        let mut text = "plugin ".to_owned();
        text.append(self.plugin.as_str());
        text.append(": hook ");
        text.append(self.hook.name().as_str());
        text.append(" in stage ");
        text.append(self.stage.name().as_str());
        match &self.subject {
            Some(subject) => {
                text.append(" for ");
                text.append(subject.as_str());
            },
            None => {},
        }
        text
    }
}

impl HookError {
    /// The report of the failure: it names the plugin, the hook, the stage
    /// and the subject, and says what failed.
    pub fn message(&self) -> (text: String)
        ensures
            text@ == message_of(self@),
    {
        match self {
            HookError::HookInvocationFailure { context, reason } => {
                let mut text = context.place();
                text.append(" failed: ");
                text.append(reason.as_str());
                text
            },
            HookError::SchemaViolation { context, field } => {
                let mut text = context.place();
                text.append(" returned a value without a valid field ");
                text.append(field.as_str());
                text
            },
        }
    }
}

/// The error text to call the build-end hooks with once the build has ended.
pub fn build_end_argument(failure: Option<&HookError>) -> (text: String)
    ensures
        text@ == build_end_text(
            match failure {
                Some(error) => Some(error@),
                None => None,
            },
        ),
{
    match failure {
        Some(error) => error.message(),
        None => String::new(),
    }
}

/// The text of a subject, where there is one.
pub open spec fn subject_text(subject: Option<&str>) -> Option<Seq<char>> {
    match subject {
        Some(subject) => Some(subject@),
        None => None,
    }
}

/// The context of a call of `hook` of `plugin` for `subject`.
pub open spec fn context_of(plugin: PluginModel, hook: HookKind, subject: Option<Seq<char>>)
    -> HookContextModel {
    HookContextModel { plugin: plugin.name, hook, stage: hook.spec_stage(), subject }
}

/// What a reply means: nothing, a value, or the failure of the stage, which
/// names the plugin, the hook, the stage and the subject.
pub open spec fn settled<T>(
    plugin: PluginModel,
    hook: HookKind,
    subject: Option<Seq<char>>,
    reply: HookReply<T>,
) -> Result<Option<T>, HookErrorModel> {
    match reply {
        HookReply::Absent => Ok(None),
        HookReply::Value(value) => Ok(Some(value)),
        HookReply::Failed(reason) => Err(
            HookErrorModel::HookInvocationFailure {
                context: context_of(plugin, hook, subject),
                reason: reason@,
            },
        ),
        HookReply::Malformed(field) => Err(
            HookErrorModel::SchemaViolation {
                context: context_of(plugin, hook, subject),
                field: field@,
            },
        ),
    }
}

/// `got` is what was `owed`: the same value, or an error with the same content.
pub open spec fn agrees<T>(got: Result<T, HookError>, owed: Result<T, HookErrorModel>) -> bool {
    match got {
        Ok(value) => owed == Ok::<T, HookErrorModel>(value),
        Err(error) => owed == Err::<T, HookErrorModel>(error@),
    }
}

/// Turns the reply of `plugin` to a call of its `hook` for `subject` into
/// what the stage goes on with: the value returned, if any, or the failure
/// to report. A value is handed on untouched; nothing of a failed call is.
pub fn settle<T>(plugin: &PluginOptions, hook: HookKind, subject: Option<&str>, reply: HookReply<T>)
    -> (outcome: Result<Option<T>, HookError>)
    ensures
        agrees(outcome, settled(plugin@, hook, subject_text(subject), reply)),
{
    match reply {
        HookReply::Absent => Ok(None),
        HookReply::Value(value) => Ok(Some(value)),
        HookReply::Failed(reason) => Err(
            HookError::HookInvocationFailure { context: context(plugin, hook, subject), reason },
        ),
        HookReply::Malformed(field) => Err(
            HookError::SchemaViolation { context: context(plugin, hook, subject), field },
        ),
    }
}

fn context(plugin: &PluginOptions, hook: HookKind, subject: Option<&str>) -> (context: HookContext)
    ensures
        context@ == context_of(plugin@, hook, subject_text(subject)),
{
    let subject = match subject {
        Some(subject) => Some(subject.to_owned()),
        None => None,
    };
    HookContext { plugin: plugin.name.clone(), hook, stage: hook.stage(), subject }
}

/// The number of calls a stage makes for `hook` when it has `replies` to go
/// by: one for each plugin implementing the hook, as far as there are replies.
pub open spec fn calls<T>(plugins: Seq<PluginModel>, hook: HookKind, replies: Seq<HookReply<T>>)
    -> int {
    if invocation_order(plugins, hook).len() <= replies.len() {
        invocation_order(plugins, hook).len() as int
    } else {
        replies.len() as int
    }
}

/// The plugin whose reply `replies[k]` is: the `k`-th in the order of invocation.
pub open spec fn called(plugins: Seq<PluginModel>, hook: HookKind, k: int) -> PluginModel {
    plugins[invocation_order(plugins, hook)[k]]
}

/// The outcome, from the `k`-th call on, of a stage whose first value
/// returned is taken and ends the stage. A failure ends it too.
pub open spec fn first_supplied<T>(
    plugins: Seq<PluginModel>,
    hook: HookKind,
    subject: Option<Seq<char>>,
    replies: Seq<HookReply<T>>,
    k: int,
) -> Result<Option<T>, HookErrorModel>
    decreases calls(plugins, hook, replies) - k,
{
    if k < 0 || k >= calls(plugins, hook, replies) {
        Ok(None)
    } else {
        match settled(called(plugins, hook, k), hook, subject, replies[k]) {
            Ok(None) => first_supplied(plugins, hook, subject, replies, k + 1),
            decided => decided,
        }
    }
}

/// The outcome of the first `n` calls of a stage that calls every plugin in
/// turn: what each returned, or the first failure.
pub open spec fn each_returned<T>(
    plugins: Seq<PluginModel>,
    hook: HookKind,
    subject: Option<Seq<char>>,
    replies: Seq<HookReply<T>>,
    n: nat,
) -> Result<Seq<Option<T>>, HookErrorModel>
    decreases n,
{
    if n == 0 {
        Ok(Seq::empty())
    } else {
        match each_returned(plugins, hook, subject, replies, (n - 1) as nat) {
            Err(error) => Err(error),
            Ok(returned) => match settled(
                called(plugins, hook, n - 1),
                hook,
                subject,
                replies[n - 1],
            ) {
                Err(error) => Err(error),
                Ok(value) => Ok(returned.push(value)),
            },
        }
    }
}

/// The source after a transform hook has replied: what the hook returned,
/// or the source as it was where the hook returned nothing.
pub open spec fn transformed(current: HookLoadOutput, result: Option<SourceResult>)
    -> HookLoadOutput {
    match result {
        Some(result) => load_output(result),
        None => current,
    }
}

/// The source after the transform hooks have replied in turn, each to the
/// source the one before it left.
pub open spec fn transform_chain(source: HookLoadOutput, results: Seq<Option<SourceResult>>)
    -> HookLoadOutput {
    results.fold_left(
        source,
        |current: HookLoadOutput, result: Option<SourceResult>| transformed(current, result),
    )
}

/// The code of a chunk after a render-chunk hook has replied.
pub open spec fn rendered(code: String, result: Option<HookRenderChunkOutput>) -> String {
    match result {
        Some(result) => render_chunk_output(result).code,
        None => code,
    }
}

/// The code of a chunk after the render-chunk hooks have replied in turn.
pub open spec fn render_chunk_chain(code: String, results: Seq<Option<HookRenderChunkOutput>>)
    -> String {
    results.fold_left(
        code,
        |code: String, result: Option<HookRenderChunkOutput>| rendered(code, result),
    )
}

/// Takes the result of one transform hook into the source of its module.
pub fn transform_step(current: HookLoadOutput, result: Option<SourceResult>) -> (next:
    HookLoadOutput)
    ensures
        next == transformed(current, result),
        result is Some ==> next@ == result->0@,
        result is None ==> next == current,
{
    match result {
        Some(result) => HookLoadOutput::from(result),
        None => current,
    }
}

/// Takes the results of the transform hooks, in the order in which the hooks
/// were called, into the source of their module.
pub fn transform_chain_of(source: HookLoadOutput, results: Vec<Option<SourceResult>>) -> (out:
    HookLoadOutput)
    ensures
        out == transform_chain(source, results@),
{
    let mut current = source;
    for result in it: results.into_iter()
        invariant
            it.seq() == results@,
            current == transform_chain(source, results@.take(it.index())),
    {
        proof {
            let i = it.index();
            assert(results@.take(i + 1).drop_last() == results@.take(i));
        }
        current = transform_step(current, result);
    }
    proof {
        assert(results@.take(results@.len() as int) == results@);
    }
    current
}

/// Takes the result of one render-chunk hook into the code of its chunk.
pub fn render_chunk_step(code: String, result: Option<HookRenderChunkOutput>) -> (next: String)
    ensures
        next == rendered(code, result),
        result is Some ==> next@ == result->0@,
        result is None ==> next == code,
{
    match result {
        Some(result) => EngineRenderChunkOutput::from(result).code,
        None => code,
    }
}

/// Takes the results of the render-chunk hooks, in the order in which the
/// hooks were called, into the code of their chunk.
pub fn render_chunk_chain_of(code: String, results: Vec<Option<HookRenderChunkOutput>>) -> (out:
    String)
    ensures
        out == render_chunk_chain(code, results@),
{
    let mut current = code;
    for result in it: results.into_iter()
        invariant
            it.seq() == results@,
            current == render_chunk_chain(code, results@.take(it.index())),
    {
        proof {
            let i = it.index();
            assert(results@.take(i + 1).drop_last() == results@.take(i));
        }
        current = render_chunk_step(current, result);
    }
    proof {
        assert(results@.take(results@.len() as int) == results@);
    }
    current
}

impl PluginRegistry {
    /// A stage of a hook whose first returned value is taken. `replies`
    /// holds, in the order of invocation, how the calls ended. The outcome is
    /// the first value returned, nothing where every call returned nothing, or
    /// the failure of the first call that failed before a value was returned.
    /// Replies after the one that decides are not read.
    pub fn run_first<T>(&self, hook: HookKind, subject: Option<&str>, replies: Vec<HookReply<T>>)
        -> (outcome: Result<Option<T>, HookError>)
        ensures
            agrees(outcome, first_supplied(self@, hook, subject_text(subject), replies@, 0)),
    {
        let order = self.invocation_order(hook);
        let mut k: usize = 0;
        proof {
            lemma_invocation_order(self@, hook);
        }
        for reply in it: replies.into_iter()
            invariant
                it.seq() == replies@,
                k == it.index(),
                order@.len() == invocation_order(self@, hook).len(),
                forall|j: int|
                    0 <= j < order@.len() ==> (#[trigger] order@[j]) as int == invocation_order(
                        self@,
                        hook,
                    )[j],
                forall|j: int|
                    0 <= j < invocation_order(self@, hook).len() ==> 0 <= (
                    #[trigger] invocation_order(self@, hook)[j]) < self@.len(),
                first_supplied(self@, hook, subject_text(subject), replies@, 0) == first_supplied(
                    self@,
                    hook,
                    subject_text(subject),
                    replies@,
                    k as int,
                ),
        {
            if k >= order.len() {
                return Ok(None);
            }
            let plugin = self.get(order[k]);
            match settle(plugin.unwrap(), hook, subject, reply) {
                Ok(None) => {},
                decided => {
                    return decided;
                },
            }
            k += 1;
        }
        Ok(None)
    }

    /// A stage of a hook that is called on every plugin implementing it.
    /// `replies` holds, in the order of invocation, how the calls ended. The
    /// outcome is what each call returned, in that order, or the failure of
    /// the first call that failed; then nothing of what was returned is kept.
    pub fn run_each<T>(&self, hook: HookKind, subject: Option<&str>, replies: Vec<HookReply<T>>)
        -> (outcome: Result<Vec<Option<T>>, HookError>)
        ensures
            match outcome {
                Ok(returned) => each_returned(
                    self@,
                    hook,
                    subject_text(subject),
                    replies@,
                    calls(self@, hook, replies@) as nat,
                ) == Ok::<Seq<Option<T>>, HookErrorModel>(returned@),
                Err(error) => each_returned(
                    self@,
                    hook,
                    subject_text(subject),
                    replies@,
                    calls(self@, hook, replies@) as nat,
                ) == Err::<Seq<Option<T>>, HookErrorModel>(error@),
            },
    {
        let order = self.invocation_order(hook);
        let mut returned: Vec<Option<T>> = Vec::new();
        let mut k: usize = 0;
        proof {
            lemma_invocation_order(self@, hook);
        }
        for reply in it: replies.into_iter()
            invariant
                it.seq() == replies@,
                k == it.index() || k == order@.len(),
                k <= it.index(),
                k <= order@.len(),
                order@.len() == invocation_order(self@, hook).len(),
                forall|j: int|
                    0 <= j < order@.len() ==> (#[trigger] order@[j]) as int == invocation_order(
                        self@,
                        hook,
                    )[j],
                forall|j: int|
                    0 <= j < invocation_order(self@, hook).len() ==> 0 <= (
                    #[trigger] invocation_order(self@, hook)[j]) < self@.len(),
                each_returned(self@, hook, subject_text(subject), replies@, k as nat) == Ok::<
                    Seq<Option<T>>,
                    HookErrorModel,
                >(returned@),
        {
            if k < order.len() {
                let plugin = self.get(order[k]);
                match settle(plugin.unwrap(), hook, subject, reply) {
                    Ok(value) => {
                        returned.push(value);
                    },
                    Err(error) => {
                        proof {
                            lemma_failure_stands(
                                self@,
                                hook,
                                subject_text(subject),
                                replies@,
                                (k + 1) as nat,
                                calls(self@, hook, replies@) as nat,
                            );
                        }
                        return Err(error);
                    },
                }
                k += 1;
            }
        }
        Ok(returned)
    }

    /// The resolve-id stage for one specifier: the resolution of the first
    /// plugin that resolved it, taken into the engine's record, or nothing,
    /// and then the engine resolves the specifier as it would have without
    /// plugins.
    pub fn resolve_id(&self, specifier: &str, replies: Vec<HookReply<ResolveIdResult>>) -> (outcome:
        Result<Option<HookResolveIdOutput>, HookError>)
        ensures
            agrees(
                outcome,
                match first_supplied(self@, HookKind::ResolveId, Some(specifier@), replies@, 0) {
                    Ok(Some(result)) => Ok(Some(resolved_output(result))),
                    Ok(None) => Ok(None),
                    Err(error) => Err(error),
                },
            ),
    {
        match self.run_first(HookKind::ResolveId, Some(specifier), replies) {
            Ok(Some(result)) => Ok(Some(HookResolveIdOutput::from(result))),
            Ok(None) => Ok(None),
            Err(error) => Err(error),
        }
    }

    /// The load stage for one module: the source of the first plugin that
    /// supplied it, taken into the engine's record, or nothing, and then the
    /// engine loads the module as it would have without plugins.
    pub fn load(&self, id: &str, replies: Vec<HookReply<SourceResult>>) -> (outcome: Result<
        Option<HookLoadOutput>,
        HookError,
    >)
        ensures
            agrees(
                outcome,
                match first_supplied(self@, HookKind::Load, Some(id@), replies@, 0) {
                    Ok(Some(result)) => Ok(Some(load_output(result))),
                    Ok(None) => Ok(None),
                    Err(error) => Err(error),
                },
            ),
    {
        match self.run_first(HookKind::Load, Some(id), replies) {
            Ok(Some(result)) => Ok(Some(HookLoadOutput::from(result))),
            Ok(None) => Ok(None),
            Err(error) => Err(error),
        }
    }

    /// The transform stage for one module: `source` as the transform hooks
    /// leave it, each having replied to what the one before it left.
    pub fn transform(&self, id: &str, source: HookLoadOutput, replies: Vec<HookReply<SourceResult>>)
        -> (outcome: Result<HookLoadOutput, HookError>)
        ensures
            agrees(
                outcome,
                match each_returned(
                    self@,
                    HookKind::Transform,
                    Some(id@),
                    replies@,
                    calls(self@, HookKind::Transform, replies@) as nat,
                ) {
                    Ok(results) => Ok(transform_chain(source, results)),
                    Err(error) => Err(error),
                },
            ),
    {
        match self.run_each(HookKind::Transform, Some(id), replies) {
            Ok(results) => Ok(transform_chain_of(source, results)),
            Err(error) => Err(error),
        }
    }

    /// The render-chunk stage for one chunk: `code` as the render-chunk hooks
    /// leave it. A failure names the chunk by its file.
    pub fn render_chunk(
        &self,
        chunk: &RenderedChunk,
        code: String,
        replies: Vec<HookReply<HookRenderChunkOutput>>,
    ) -> (outcome: Result<String, HookError>)
        ensures
            agrees(
                outcome,
                match each_returned(
                    self@,
                    HookKind::RenderChunk,
                    Some(chunk.file_name@),
                    replies@,
                    calls(self@, HookKind::RenderChunk, replies@) as nat,
                ) {
                    Ok(results) => Ok(render_chunk_chain(code, results)),
                    Err(error) => Err(error),
                },
            ),
    {
        match self.run_each(HookKind::RenderChunk, Some(chunk.file_name.as_str()), replies) {
            Ok(results) => Ok(render_chunk_chain_of(code, results)),
            Err(error) => Err(error),
        }
    }

    /// A stage of a hook from which nothing is taken back: the plugins are
    /// told, in the order of invocation, and the outcome is the failure of
    /// the first call that failed, if one did.
    pub fn notify(&self, hook: HookKind, replies: Vec<HookReply<()>>) -> (outcome: Result<
        (),
        HookError,
    >)
        ensures
            agrees(
                outcome,
                match each_returned(
                    self@,
                    hook,
                    None,
                    replies@,
                    calls(self@, hook, replies@) as nat,
                ) {
                    Ok(_) => Ok(()),
                    Err(error) => Err(error),
                },
            ),
    {
        match self.run_each(hook, None, replies) {
            Ok(_) => Ok(()),
            Err(error) => Err(error),
        }
    }
}

/// Once a call has failed, the stage has failed: further calls change nothing.
pub proof fn lemma_failure_stands<T>(
    plugins: Seq<PluginModel>,
    hook: HookKind,
    subject: Option<Seq<char>>,
    replies: Seq<HookReply<T>>,
    n: nat,
    m: nat,
)
    requires
        n <= m,
        each_returned(plugins, hook, subject, replies, n) is Err,
    ensures
        each_returned(plugins, hook, subject, replies, m) == each_returned(
            plugins,
            hook,
            subject,
            replies,
            n,
        ),
    decreases m,
{
    if n < m {
        lemma_failure_stands(plugins, hook, subject, replies, n, (m - 1) as nat);
    }
}

/// A chain of transform hooks, step by step. Before any hook has replied the
/// source is the one the chain began with. After the `i`-th reply its code is
/// the code that hook returned or, where the hook returned nothing, the code
/// as the replies before it left it. After the last reply it is the outcome
/// of the chain.
pub proof fn lemma_transform_chain_steps(
    source: HookLoadOutput,
    results: Seq<Option<SourceResult>>,
    i: int,
)
    requires
        0 <= i < results.len(),
    ensures
        transform_chain(source, results.take(0)) == source,
        transform_chain(source, results.take(i + 1)) == transformed(
            transform_chain(source, results.take(i)),
            results[i],
        ),
        transform_chain(source, results.take(i + 1)).code@ == match results[i] {
            Some(result) => result.code@,
            None => transform_chain(source, results.take(i)).code@,
        },
        transform_chain(source, results.take(results.len() as int)) == transform_chain(
            source,
            results,
        ),
{
    assert(results.take(i + 1).drop_last() == results.take(i));
    assert(results.take(results.len() as int) == results);
}

/// The last value among `results`, if any of them is a value.
pub open spec fn last_returned<T>(results: Seq<Option<T>>) -> Option<T>
    decreases results.len(),
{
    if results.len() == 0 {
        None
    } else if results.last() is Some {
        results.last()
    } else {
        last_returned(results.drop_last())
    }
}

/// Of a chain of transform hooks the last result stands: the outcome is what
/// the last hook that returned a value returned, and the source the chain
/// began with where none returned one.
pub proof fn lemma_transform_chain_last_stands(
    source: HookLoadOutput,
    results: Seq<Option<SourceResult>>,
)
    ensures
        transform_chain(source, results) == match last_returned(results) {
            Some(result) => load_output(result),
            None => source,
        },
    decreases results.len(),
{
    if results.len() > 0 {
        lemma_transform_chain_last_stands(source, results.drop_last());
    }
}

/// Of a chain of render-chunk hooks the last result stands, and after each
/// reply the code is the code that hook returned or the code as it was.
pub proof fn lemma_render_chunk_chain_steps(
    code: String,
    results: Seq<Option<HookRenderChunkOutput>>,
    i: int,
)
    requires
        0 <= i < results.len(),
    ensures
        render_chunk_chain(code, results.take(0)) == code,
        render_chunk_chain(code, results.take(i + 1)) == rendered(
            render_chunk_chain(code, results.take(i)),
            results[i],
        ),
        render_chunk_chain(code, results.take(results.len() as int)) == render_chunk_chain(
            code,
            results,
        ),
{
    assert(results.take(i + 1).drop_last() == results.take(i));
    assert(results.take(results.len() as int) == results);
}

/// Where every plugin called returned nothing, the stage supplies nothing,
/// whatever the plugins, the hook and the subject: the engine then does its
/// own work on the request as it stands.
pub proof fn lemma_nothing_returned_falls_through<T>(
    plugins: Seq<PluginModel>,
    hook: HookKind,
    subject: Option<Seq<char>>,
    replies: Seq<HookReply<T>>,
    k: int,
)
    requires
        forall|j: int| 0 <= j < replies.len() ==> #[trigger] replies[j] is Absent,
    ensures
        first_supplied(plugins, hook, subject, replies, k) == Ok::<Option<T>, HookErrorModel>(
            None,
        ),
    decreases calls(plugins, hook, replies) - k,
{
    if 0 <= k < calls(plugins, hook, replies) {
        lemma_nothing_returned_falls_through(plugins, hook, subject, replies, k + 1);
    }
}

/// Plugins that implement no hook leave every stage as it is without
/// plugins: no call is made, nothing is supplied and nothing is replaced.
pub proof fn lemma_inert_plugins_change_nothing<T>(
    plugins: Seq<PluginModel>,
    hook: HookKind,
    subject: Option<Seq<char>>,
    replies: Seq<HookReply<T>>,
)
    requires
        forall|i: int| 0 <= i < plugins.len() ==> (#[trigger] plugins[i]).inert(),
    ensures
        calls(plugins, hook, replies) == 0,
        first_supplied(plugins, hook, subject, replies, 0) == Ok::<Option<T>, HookErrorModel>(
            None,
        ),
        first_supplied(plugins, hook, subject, replies, 0) == first_supplied(
            Seq::<PluginModel>::empty(),
            hook,
            subject,
            replies,
            0,
        ),
        each_returned(plugins, hook, subject, replies, calls(plugins, hook, replies) as nat)
            == Ok::<Seq<Option<T>>, HookErrorModel>(Seq::empty()),
        each_returned(plugins, hook, subject, replies, calls(plugins, hook, replies) as nat)
            == each_returned(
            Seq::<PluginModel>::empty(),
            hook,
            subject,
            replies,
            calls(Seq::<PluginModel>::empty(), hook, replies) as nat,
        ),
{
    lemma_inert_plugins_are_never_invoked(plugins, hook);
}

/// Where no call is made, a source and a chunk's code stay what they were.
pub proof fn lemma_empty_chain_changes_nothing(source: HookLoadOutput, code: String)
    ensures
        transform_chain(source, Seq::empty()) == source,
        render_chunk_chain(code, Seq::empty()) == code,
{
}

/// A failure is reported once and in full. In a stage that takes the first
/// value, where the calls before the `k`-th returned nothing and the `k`-th
/// failed or returned a malformed value, the outcome is that failure: it
/// names the plugin called, the hook, the hook's stage and the subject, and
/// carries the reason or the field. No reply after it is read.
pub proof fn lemma_first_failure_ends_supply<T>(
    plugins: Seq<PluginModel>,
    hook: HookKind,
    subject: Option<Seq<char>>,
    replies: Seq<HookReply<T>>,
    k: int,
)
    requires
        0 <= k < calls(plugins, hook, replies),
        forall|j: int| 0 <= j < k ==> #[trigger] replies[j] is Absent,
        replies[k] is Failed || replies[k] is Malformed,
    ensures
        first_supplied(plugins, hook, subject, replies, 0) is Err,
        first_supplied(plugins, hook, subject, replies, 0) == settled(
            called(plugins, hook, k),
            hook,
            subject,
            replies[k],
        ),
        replies[k] matches HookReply::Failed(reason) ==> first_supplied(
            plugins,
            hook,
            subject,
            replies,
            0,
        ) == Err::<Option<T>, HookErrorModel>(
            HookErrorModel::HookInvocationFailure {
                context: HookContextModel {
                    plugin: called(plugins, hook, k).name,
                    hook,
                    stage: hook.spec_stage(),
                    subject,
                },
                reason: reason@,
            },
        ),
{
    lemma_supply_skips_nothing(plugins, hook, subject, replies, 0, k);
}

/// Calls that returned nothing decide nothing: the stage goes on with the next.
proof fn lemma_supply_skips_nothing<T>(
    plugins: Seq<PluginModel>,
    hook: HookKind,
    subject: Option<Seq<char>>,
    replies: Seq<HookReply<T>>,
    from: int,
    k: int,
)
    requires
        0 <= from <= k < calls(plugins, hook, replies),
        forall|j: int| from <= j < k ==> #[trigger] replies[j] is Absent,
    ensures
        first_supplied(plugins, hook, subject, replies, from) == first_supplied(
            plugins,
            hook,
            subject,
            replies,
            k,
        ),
    decreases k - from,
{
    if from < k {
        lemma_supply_skips_nothing(plugins, hook, subject, replies, from + 1, k);
    }
}

/// In a stage that calls every plugin, where no call before the `k`-th failed
/// and the `k`-th failed or returned a malformed value, the outcome is that
/// failure, in full, and nothing that was returned before it.
pub proof fn lemma_first_failure_ends_chain<T>(
    plugins: Seq<PluginModel>,
    hook: HookKind,
    subject: Option<Seq<char>>,
    replies: Seq<HookReply<T>>,
    k: int,
)
    requires
        0 <= k < calls(plugins, hook, replies),
        forall|j: int|
            0 <= j < k ==> (#[trigger] replies[j]) is Absent || replies[j] is Value,
        replies[k] is Failed || replies[k] is Malformed,
    ensures
        each_returned(
            plugins,
            hook,
            subject,
            replies,
            calls(plugins, hook, replies) as nat,
        ) is Err,
        each_returned(
            plugins,
            hook,
            subject,
            replies,
            calls(plugins, hook, replies) as nat,
        )->Err_0 == settled(called(plugins, hook, k), hook, subject, replies[k])->Err_0,
        replies[k] matches HookReply::Failed(reason) ==> each_returned(
            plugins,
            hook,
            subject,
            replies,
            calls(plugins, hook, replies) as nat,
        )->Err_0 == (HookErrorModel::HookInvocationFailure {
            context: HookContextModel {
                plugin: called(plugins, hook, k).name,
                hook,
                stage: hook.spec_stage(),
                subject,
            },
            reason: reason@,
        }),
{
    lemma_chain_goes_on(plugins, hook, subject, replies, k as nat);
    lemma_failure_stands(
        plugins,
        hook,
        subject,
        replies,
        (k + 1) as nat,
        calls(plugins, hook, replies) as nat,
    );
}

/// Calls that did not fail do not end the stage.
proof fn lemma_chain_goes_on<T>(
    plugins: Seq<PluginModel>,
    hook: HookKind,
    subject: Option<Seq<char>>,
    replies: Seq<HookReply<T>>,
    n: nat,
)
    requires
        n <= calls(plugins, hook, replies),
        forall|j: int|
            0 <= j < n ==> (#[trigger] replies[j]) is Absent || replies[j] is Value,
    ensures
        each_returned(plugins, hook, subject, replies, n) is Ok,
        each_returned(plugins, hook, subject, replies, n)->Ok_0.len() == n,
    decreases n,
{
    if n > 0 {
        lemma_chain_goes_on(plugins, hook, subject, replies, (n - 1) as nat);
        assert(replies[n - 1] is Absent || replies[n - 1] is Value);
    }
}

} // verus!
