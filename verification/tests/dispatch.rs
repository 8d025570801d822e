use plugin_boundary::dispatch::{
    build_end_argument, render_chunk_chain_of, render_chunk_step, settle, transform_chain_of,
    transform_step, HookContext, HookError, HookReply,
};
use plugin_boundary::engine::{EngineSourceMap, HookLoadOutput, HookResolveIdOutput};
use plugin_boundary::hooks::{HookHandle, HookKind, PluginOptions, Stage};
use plugin_boundary::registry::PluginRegistry;
use plugin_boundary::schema::{
    HookRenderChunkOutput, RenderedChunk, ResolveIdResult, SourceMap, SourceResult,
};

fn plugin(name: &str, hooks: &[HookKind]) -> PluginOptions {
    let mut plugin = PluginOptions { name: name.to_string(), ..PluginOptions::default() };
    for (n, hook) in hooks.iter().enumerate() {
        let handle = Some(HookHandle { id: n as u32 });
        match hook {
            HookKind::BuildStart => plugin.build_start = handle,
            HookKind::ResolveId => plugin.resolve_id = handle,
            HookKind::Load => plugin.load = handle,
            HookKind::Transform => plugin.transform = handle,
            HookKind::BuildEnd => plugin.build_end = handle,
            HookKind::RenderChunk => plugin.render_chunk = handle,
            HookKind::GenerateBundle => plugin.generate_bundle = handle,
            HookKind::WriteBundle => plugin.write_bundle = handle,
        }
    }
    plugin
}

fn registry(plugins: Vec<PluginOptions>) -> PluginRegistry {
    let mut registry = PluginRegistry::new();
    for plugin in plugins {
        assert!(registry.register(plugin).is_some());
    }
    registry
}

fn chunk(file_name: &str) -> RenderedChunk {
    RenderedChunk { file_name: file_name.to_string(), ..RenderedChunk::default() }
}

fn source(code: &str) -> SourceResult {
    SourceResult { code: code.to_string(), map: None }
}

fn loaded(code: &str) -> HookLoadOutput {
    HookLoadOutput { code: code.to_string(), map: None }
}

fn small_map(mappings: &str) -> SourceMap {
    SourceMap {
        mappings: mappings.to_string(),
        names: vec!["n".to_string()],
        source_root: None,
        sources: vec!["s.js".to_string()],
        sources_content: vec!["content".to_string()],
    }
}

fn failure(plugin: &str, hook: HookKind, stage: Stage, subject: Option<&str>, reason: &str) -> HookError {
    HookError::HookInvocationFailure {
        context: HookContext {
            plugin: plugin.to_string(),
            hook,
            stage,
            subject: subject.map(|s| s.to_string()),
        },
        reason: reason.to_string(),
    }
}

#[test]
fn settle_hands_a_value_on() {
    let p = plugin("p", &[HookKind::Load]);
    assert_eq!(settle(&p, HookKind::Load, Some("m"), HookReply::Value(7u32)), Ok(Some(7)));
    assert_eq!(settle(&p, HookKind::Load, Some("m"), HookReply::<u32>::Absent), Ok(None));
}

#[test]
fn settle_reports_a_failed_call_with_its_context() {
    let p = plugin("json", &[HookKind::Load]);
    let outcome = settle(&p, HookKind::Load, Some("m"), HookReply::<u32>::Failed("boom".to_string()));
    assert_eq!(outcome, Err(failure("json", HookKind::Load, Stage::Load, Some("m"), "boom")));
    let error = outcome.unwrap_err();
    assert_eq!(error.context().plugin, "json");
    assert_eq!(error.context().hook.name(), "load");
    assert_eq!(error.context().stage, Stage::Load);
    assert_eq!(error.context().subject.as_deref(), Some("m"));
}

#[test]
fn settle_reports_a_malformed_value_with_the_field() {
    let p = plugin("alias", &[HookKind::ResolveId]);
    let outcome =
        settle(&p, HookKind::ResolveId, Some("x"), HookReply::<ResolveIdResult>::Malformed("id".to_string()));
    assert_eq!(
        outcome,
        Err(HookError::SchemaViolation {
            context: HookContext {
                plugin: "alias".to_string(),
                hook: HookKind::ResolveId,
                stage: Stage::Resolve,
                subject: Some("x".to_string()),
            },
            field: "id".to_string(),
        })
    );
}

#[test]
fn settle_without_a_subject_reports_none() {
    let p = plugin("banner", &[HookKind::BuildStart]);
    let outcome = settle(&p, HookKind::BuildStart, None, HookReply::<()>::Failed("no".to_string()));
    assert_eq!(outcome, Err(failure("banner", HookKind::BuildStart, Stage::Build, None, "no")));
}

#[test]
fn resolve_id_hook_returning_nothing_falls_through() {
    let r = registry(vec![plugin("p", &[HookKind::ResolveId])]);
    let specifier = "x".to_string();
    let importer = Some("y".to_string());
    let outcome = r.resolve_id(&specifier, vec![HookReply::Absent]);
    assert_eq!(outcome, Ok(None));
    assert_eq!(specifier, "x");
    assert_eq!(importer, Some("y".to_string()));
}

#[test]
fn resolve_id_takes_the_first_resolution() {
    let r = registry(vec![
        plugin("a", &[HookKind::ResolveId]),
        plugin("skipped", &[HookKind::Load]),
        plugin("b", &[HookKind::ResolveId]),
        plugin("c", &[HookKind::ResolveId]),
    ]);
    let outcome = r.resolve_id(
        "x",
        vec![
            HookReply::Absent,
            HookReply::Value(ResolveIdResult { id: "/b/x.js".to_string(), external: Some(true) }),
            HookReply::Value(ResolveIdResult { id: "/c/x.js".to_string(), external: None }),
        ],
    );
    assert_eq!(
        outcome,
        Ok(Some(HookResolveIdOutput { id: "/b/x.js".to_string(), external: Some(true) }))
    );
}

#[test]
fn resolve_id_does_not_read_replies_after_the_deciding_one() {
    let r = registry(vec![plugin("a", &[HookKind::ResolveId]), plugin("b", &[HookKind::ResolveId])]);
    let outcome = r.resolve_id(
        "x",
        vec![
            HookReply::Value(ResolveIdResult { id: "/a/x.js".to_string(), external: None }),
            HookReply::Failed("never asked".to_string()),
        ],
    );
    assert_eq!(outcome, Ok(Some(HookResolveIdOutput { id: "/a/x.js".to_string(), external: None })));
}

#[test]
fn resolve_id_without_plugins_falls_through() {
    let r = PluginRegistry::new();
    assert_eq!(r.resolve_id("x", Vec::new()), Ok(None));
    assert_eq!(
        r.resolve_id("x", vec![HookReply::Value(ResolveIdResult { id: "q".to_string(), external: None })]),
        Ok(None)
    );
}

#[test]
fn load_takes_the_first_source_supplied() {
    let r = registry(vec![plugin("a", &[HookKind::Load]), plugin("b", &[HookKind::Load])]);
    let supplied = SourceResult { code: "from b".to_string(), map: Some(small_map("AAAA")) };
    let outcome = r.load("m", vec![HookReply::Absent, HookReply::Value(supplied)]);
    let taken = outcome.unwrap().unwrap();
    assert_eq!(taken.code, "from b");
    assert_eq!(
        taken.map,
        Some(EngineSourceMap {
            mappings: "AAAA".to_string(),
            names: vec!["n".to_string()],
            source_root: None,
            sources: vec!["s.js".to_string()],
            sources_content: vec!["content".to_string()],
        })
    );
}

#[test]
fn load_failure_names_module_hook_and_plugin() {
    let r = registry(vec![
        plugin("quiet", &[HookKind::Load]),
        plugin("not-a-loader", &[HookKind::Transform]),
        plugin("broken", &[HookKind::Load]),
        plugin("late", &[HookKind::Load]),
    ]);
    let outcome = r.load(
        "m",
        vec![
            HookReply::Absent,
            HookReply::Failed("disk on fire".to_string()),
            HookReply::Value(source("too late")),
        ],
    );
    assert_eq!(outcome, Err(failure("broken", HookKind::Load, Stage::Load, Some("m"), "disk on fire")));
    let error = outcome.unwrap_err();
    assert!(matches!(error, HookError::HookInvocationFailure { .. }));
    assert_eq!(error.context().subject.as_deref(), Some("m"));
    assert_eq!(error.context().hook.name(), "load");
    assert_eq!(error.context().plugin, "broken");
}

#[test]
fn load_failure_of_one_module_leaves_another_alone() {
    let r = registry(vec![plugin("loader", &[HookKind::Load])]);
    let before = r.load("other", vec![HookReply::Value(source("ok"))]);
    let failed = r.load("m", vec![HookReply::Failed("boom".to_string())]);
    let after = r.load("other", vec![HookReply::Value(source("ok"))]);
    assert!(failed.is_err());
    assert_eq!(before, Ok(Some(loaded("ok"))));
    assert_eq!(after, before);
    assert_eq!(r.len(), 1);
}

#[test]
fn load_reports_a_missing_required_field() {
    let r = registry(vec![plugin("sloppy", &[HookKind::Load])]);
    let outcome = r.load("m", vec![HookReply::Malformed("code".to_string())]);
    assert_eq!(
        outcome,
        Err(HookError::SchemaViolation {
            context: HookContext {
                plugin: "sloppy".to_string(),
                hook: HookKind::Load,
                stage: Stage::Load,
                subject: Some("m".to_string()),
            },
            field: "code".to_string(),
        })
    );
}

#[test]
fn transform_step_replaces_or_keeps() {
    assert_eq!(transform_step(loaded("c0"), Some(source("c1"))), loaded("c1"));
    assert_eq!(transform_step(loaded("c0"), None), loaded("c0"));
    let kept = HookLoadOutput { code: "c0".to_string(), map: Some(small_map(";;").into()) };
    assert_eq!(transform_step(kept.clone(), None), kept);
    let replaced = transform_step(kept, Some(source("c1")));
    assert_eq!(replaced, loaded("c1"));
}

#[test]
fn transform_chain_follows_each_result() {
    assert_eq!(transform_chain_of(loaded("c0"), Vec::new()), loaded("c0"));
    assert_eq!(transform_chain_of(loaded("c0"), vec![None, None]), loaded("c0"));
    assert_eq!(
        transform_chain_of(loaded("c0"), vec![Some(source("c1")), None, Some(source("c3")), None]),
        loaded("c3")
    );
    let results = vec![Some(source("c1")), None, Some(source("c3")), None, Some(source("c5"))];
    let expected = ["c0", "c1", "c1", "c3", "c3", "c5"];
    for n in 0..=results.len() {
        let after = transform_chain_of(loaded("c0"), results[..n].to_vec());
        assert_eq!(after.code, expected[n]);
    }
}

#[test]
fn transform_stage_chains_in_registration_order() {
    let r = registry(vec![
        plugin("a", &[HookKind::Transform]),
        plugin("idle", &[]),
        plugin("b", &[HookKind::Transform, HookKind::Load]),
        plugin("c", &[HookKind::Transform]),
    ]);
    let outcome = r.transform(
        "m",
        loaded("c0"),
        vec![HookReply::Value(source("c1")), HookReply::Absent, HookReply::Value(source("c3"))],
    );
    assert_eq!(outcome, Ok(loaded("c3")));
    let outcome = r.transform(
        "m",
        loaded("c0"),
        vec![HookReply::Value(source("c1")), HookReply::Absent, HookReply::Absent],
    );
    assert_eq!(outcome, Ok(loaded("c1")));
    let outcome = r.transform("m", loaded("c0"), vec![HookReply::Absent; 3]);
    assert_eq!(outcome, Ok(loaded("c0")));
}

#[test]
fn transform_failure_discards_what_was_returned_before() {
    let r = registry(vec![plugin("a", &[HookKind::Transform]), plugin("b", &[HookKind::Transform])]);
    let outcome = r.transform(
        "m",
        loaded("c0"),
        vec![HookReply::Value(source("c1")), HookReply::Failed("syntax".to_string())],
    );
    assert_eq!(outcome, Err(failure("b", HookKind::Transform, Stage::Transform, Some("m"), "syntax")));
}

#[test]
fn transform_reports_the_first_of_two_failures() {
    let r = registry(vec![plugin("a", &[HookKind::Transform]), plugin("b", &[HookKind::Transform])]);
    let outcome = r.transform(
        "m",
        loaded("c0"),
        vec![HookReply::Failed("first".to_string()), HookReply::Failed("second".to_string())],
    );
    assert_eq!(outcome, Err(failure("a", HookKind::Transform, Stage::Transform, Some("m"), "first")));
}

#[test]
fn render_chunk_step_replaces_or_keeps() {
    let replaced = render_chunk_step(
        "old".to_string(),
        Some(HookRenderChunkOutput { code: "new".to_string() }),
    );
    assert_eq!(replaced, "new");
    assert_eq!(render_chunk_step("old".to_string(), None), "old");
}

#[test]
fn render_chunk_chain_keeps_the_last_code_returned() {
    let results = vec![
        None,
        Some(HookRenderChunkOutput { code: "one".to_string() }),
        Some(HookRenderChunkOutput { code: "two".to_string() }),
        None,
    ];
    assert_eq!(render_chunk_chain_of("zero".to_string(), results), "two");
    assert_eq!(render_chunk_chain_of("zero".to_string(), vec![None]), "zero");
    assert_eq!(render_chunk_chain_of("zero".to_string(), Vec::new()), "zero");
}

#[test]
fn render_chunk_stage_replaces_the_code() {
    let r = registry(vec![plugin("min", &[HookKind::RenderChunk]), plugin("banner", &[HookKind::RenderChunk])]);
    let outcome = r.render_chunk(
        &chunk("main.js"),
        "let a = 1;".to_string(),
        vec![
            HookReply::Value(HookRenderChunkOutput { code: "let a=1".to_string() }),
            HookReply::Value(HookRenderChunkOutput { code: "/*!*/let a=1".to_string() }),
        ],
    );
    assert_eq!(outcome, Ok("/*!*/let a=1".to_string()));
    let outcome = r.render_chunk(
        &chunk("main.js"),
        "let a = 1;".to_string(),
        vec![HookReply::Absent, HookReply::Malformed("code".to_string())],
    );
    assert_eq!(
        outcome,
        Err(HookError::SchemaViolation {
            context: HookContext {
                plugin: "banner".to_string(),
                hook: HookKind::RenderChunk,
                stage: Stage::Render,
                subject: Some("main.js".to_string()),
            },
            field: "code".to_string(),
        })
    );
}

#[test]
fn notify_reports_only_failures() {
    let r = registry(vec![plugin("a", &[HookKind::BuildStart]), plugin("b", &[HookKind::BuildStart, HookKind::WriteBundle])]);
    assert_eq!(r.notify(HookKind::BuildStart, vec![HookReply::Absent, HookReply::Absent]), Ok(()));
    assert_eq!(r.notify(HookKind::BuildStart, vec![HookReply::Value(()), HookReply::Absent]), Ok(()));
    assert_eq!(
        r.notify(HookKind::BuildStart, vec![HookReply::Absent, HookReply::Failed("late".to_string())]),
        Err(failure("b", HookKind::BuildStart, Stage::Build, None, "late"))
    );
    assert_eq!(
        r.notify(HookKind::WriteBundle, vec![HookReply::Failed("full".to_string())]),
        Err(failure("b", HookKind::WriteBundle, Stage::Emit, None, "full"))
    );
    assert_eq!(r.notify(HookKind::BuildEnd, vec![HookReply::Failed("nobody".to_string())]), Ok(()));
}

#[test]
fn run_each_returns_what_each_call_returned() {
    let r = registry(vec![plugin("a", &[HookKind::GenerateBundle]), plugin("b", &[HookKind::GenerateBundle])]);
    let outcome = r.run_each(
        HookKind::GenerateBundle,
        None,
        vec![HookReply::Value(1u8), HookReply::Absent, HookReply::Value(3u8)],
    );
    assert_eq!(outcome, Ok(vec![Some(1), None]));
    let outcome = r.run_each(HookKind::GenerateBundle, None, vec![HookReply::Value(1u8)]);
    assert_eq!(outcome, Ok(vec![Some(1)]));
}

#[test]
fn run_first_returns_the_first_value() {
    let r = registry(vec![plugin("a", &[HookKind::Load]), plugin("b", &[HookKind::Load])]);
    assert_eq!(
        r.run_first(HookKind::Load, Some("m"), vec![HookReply::Absent, HookReply::Value(2u8)]),
        Ok(Some(2))
    );
    assert_eq!(r.run_first(HookKind::Load, Some("m"), vec![HookReply::<u8>::Absent]), Ok(None));
    assert_eq!(r.run_first(HookKind::Transform, Some("m"), vec![HookReply::Value(2u8)]), Ok(None));
}

#[test]
fn registrations_without_hooks_change_nothing() {
    let idle = registry(vec![plugin("idle", &[]), plugin("idle-too", &[])]);
    let none = PluginRegistry::new();
    for r in [&idle, &none] {
        assert_eq!(r.resolve_id("x", vec![HookReply::Failed("unasked".to_string())]), Ok(None));
        assert_eq!(r.load("m", vec![HookReply::Value(source("unasked"))]), Ok(None));
        assert_eq!(
            r.transform("m", loaded("c0"), vec![HookReply::Value(source("unasked"))]),
            Ok(loaded("c0"))
        );
        assert_eq!(
            r.render_chunk(
                &chunk("main.js"),
                "code".to_string(),
                vec![HookReply::Failed("unasked".to_string())]
            ),
            Ok("code".to_string())
        );
        assert_eq!(r.notify(HookKind::BuildEnd, vec![HookReply::Failed("unasked".to_string())]), Ok(()));
    }
}

#[test]
fn a_failure_report_names_plugin_hook_stage_and_subject() {
    let error = failure("json", HookKind::Load, Stage::Load, Some("m"), "disk on fire");
    assert_eq!(error.context().place(), "plugin json: hook load in stage load for m");
    assert_eq!(
        error.message(),
        "plugin json: hook load in stage load for m failed: disk on fire"
    );
}

#[test]
fn a_failure_report_without_a_subject_leaves_it_out() {
    let error = failure("banner", HookKind::WriteBundle, Stage::Emit, None, "full");
    assert_eq!(error.message(), "plugin banner: hook write-bundle in stage emit failed: full");
}

#[test]
fn a_schema_violation_report_names_the_field() {
    let error = HookError::SchemaViolation {
        context: HookContext {
            plugin: "alias".to_string(),
            hook: HookKind::ResolveId,
            stage: Stage::Resolve,
            subject: Some("x".to_string()),
        },
        field: "id".to_string(),
    };
    assert_eq!(
        error.message(),
        "plugin alias: hook resolve-id in stage resolve for x returned a value without a valid field id"
    );
}

#[test]
fn build_end_is_told_nothing_on_success_and_the_report_on_failure() {
    assert_eq!(build_end_argument(None), "");
    let error = failure("a", HookKind::Transform, Stage::Transform, Some("m"), "syntax");
    assert_eq!(
        build_end_argument(Some(&error)),
        "plugin a: hook transform in stage transform for m failed: syntax"
    );
    let r = registry(vec![plugin("a", &[HookKind::Transform])]);
    let outcome = r.transform("m", loaded("c0"), vec![HookReply::Failed("syntax".to_string())]);
    assert_eq!(
        build_end_argument(outcome.as_ref().err()),
        "plugin a: hook transform in stage transform for m failed: syntax"
    );
    let outcome = r.transform("m", loaded("c0"), vec![HookReply::Absent]);
    assert_eq!(build_end_argument(outcome.as_ref().err()), "");
}
