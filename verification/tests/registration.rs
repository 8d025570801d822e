use plugin_boundary::hooks::{Effect, HookHandle, HookKind, PluginOptions, Stage};
use plugin_boundary::registry::PluginRegistry;

const ALL_HOOKS: [HookKind; 8] = [
    HookKind::BuildStart,
    HookKind::ResolveId,
    HookKind::Load,
    HookKind::Transform,
    HookKind::BuildEnd,
    HookKind::RenderChunk,
    HookKind::GenerateBundle,
    HookKind::WriteBundle,
];

fn named(name: &str) -> PluginOptions {
    PluginOptions { name: name.to_string(), ..PluginOptions::default() }
}

#[test]
fn every_hook_has_its_stage() {
    assert_eq!(HookKind::BuildStart.stage(), Stage::Build);
    assert_eq!(HookKind::ResolveId.stage(), Stage::Resolve);
    assert_eq!(HookKind::Load.stage(), Stage::Load);
    assert_eq!(HookKind::Transform.stage(), Stage::Transform);
    assert_eq!(HookKind::BuildEnd.stage(), Stage::Build);
    assert_eq!(HookKind::RenderChunk.stage(), Stage::Render);
    assert_eq!(HookKind::GenerateBundle.stage(), Stage::Emit);
    assert_eq!(HookKind::WriteBundle.stage(), Stage::Emit);
}

#[test]
fn every_hook_has_its_name() {
    let names: Vec<String> = ALL_HOOKS.iter().map(|hook| hook.name()).collect();
    assert_eq!(
        names,
        vec![
            "build-start",
            "resolve-id",
            "load",
            "transform",
            "build-end",
            "render-chunk",
            "generate-bundle",
            "write-bundle"
        ]
    );
}

#[test]
fn every_stage_has_its_name() {
    let stages =
        [Stage::Build, Stage::Resolve, Stage::Load, Stage::Transform, Stage::Render, Stage::Emit];
    let names: Vec<String> = stages.iter().map(|stage| stage.name()).collect();
    assert_eq!(names, vec!["build", "resolve", "load", "transform", "render", "emit"]);
}

#[test]
fn every_hook_has_its_effect() {
    assert_eq!(HookKind::BuildStart.effect(), Effect::Observes);
    assert_eq!(HookKind::ResolveId.effect(), Effect::Supplies);
    assert_eq!(HookKind::Load.effect(), Effect::Supplies);
    assert_eq!(HookKind::Transform.effect(), Effect::Replaces);
    assert_eq!(HookKind::BuildEnd.effect(), Effect::Observes);
    assert_eq!(HookKind::RenderChunk.effect(), Effect::Replaces);
    assert_eq!(HookKind::GenerateBundle.effect(), Effect::Observes);
    assert_eq!(HookKind::WriteBundle.effect(), Effect::Observes);
}

#[test]
fn default_registration_implements_nothing() {
    let plugin = PluginOptions::default();
    assert!(plugin.name.is_empty());
    assert!(!plugin.is_named());
    for hook in ALL_HOOKS {
        assert!(!plugin.implements(hook));
        assert_eq!(plugin.hook(hook), None);
    }
}

#[test]
fn hooks_are_independent_of_each_other() {
    for (n, present) in ALL_HOOKS.iter().enumerate() {
        let handle = HookHandle { id: n as u32 + 10 };
        let mut plugin = named("one-hook");
        match present {
            HookKind::BuildStart => plugin.build_start = Some(handle),
            HookKind::ResolveId => plugin.resolve_id = Some(handle),
            HookKind::Load => plugin.load = Some(handle),
            HookKind::Transform => plugin.transform = Some(handle),
            HookKind::BuildEnd => plugin.build_end = Some(handle),
            HookKind::RenderChunk => plugin.render_chunk = Some(handle),
            HookKind::GenerateBundle => plugin.generate_bundle = Some(handle),
            HookKind::WriteBundle => plugin.write_bundle = Some(handle),
        }
        for hook in ALL_HOOKS {
            assert_eq!(plugin.implements(hook), hook == *present);
            assert_eq!(plugin.hook(hook), if hook == *present { Some(handle) } else { None });
        }
    }
}

#[test]
fn a_registration_without_a_name_is_refused() {
    let mut registry = PluginRegistry::new();
    assert_eq!(registry.register(PluginOptions::default()), None);
    assert_eq!(registry.len(), 0);
    let mut nameless = named("");
    nameless.load = Some(HookHandle { id: 1 });
    assert_eq!(registry.register(nameless), None);
    assert_eq!(registry.len(), 0);
    assert_eq!(registry.next_implementing(HookKind::Load, 0), None);
}

#[test]
fn registrations_are_kept_in_order() {
    let mut registry = PluginRegistry::new();
    assert_eq!(registry.register(named("first")), Some(0));
    assert_eq!(registry.register(named("")), None);
    assert_eq!(registry.register(named("second")), Some(1));
    assert_eq!(registry.register(named("first")), Some(2));
    assert_eq!(registry.len(), 3);
    assert_eq!(registry.get(0).map(|p| p.name.as_str()), Some("first"));
    assert_eq!(registry.get(1).map(|p| p.name.as_str()), Some("second"));
    assert_eq!(registry.get(2).map(|p| p.name.as_str()), Some("first"));
    assert!(registry.get(3).is_none());
}

#[test]
fn get_returns_the_registration_as_entered() {
    let mut registry = PluginRegistry::new();
    let mut plugin = named("alias");
    plugin.resolve_id = Some(HookHandle { id: 77 });
    registry.register(plugin.clone());
    assert_eq!(registry.get(0), Some(&plugin));
}

fn mixed_registry() -> PluginRegistry {
    let mut registry = PluginRegistry::new();
    let mut a = named("a");
    a.transform = Some(HookHandle { id: 1 });
    let mut b = named("b");
    b.load = Some(HookHandle { id: 2 });
    let mut c = named("c");
    c.transform = Some(HookHandle { id: 3 });
    c.load = Some(HookHandle { id: 4 });
    let d = named("d");
    let mut e = named("e");
    e.transform = Some(HookHandle { id: 5 });
    for plugin in [a, b, c, d, e] {
        assert!(registry.register(plugin).is_some());
    }
    registry
}

#[test]
fn invocation_order_is_registration_order() {
    let registry = mixed_registry();
    assert_eq!(registry.invocation_order(HookKind::Transform), vec![0, 2, 4]);
    assert_eq!(registry.invocation_order(HookKind::Load), vec![1, 2]);
    assert_eq!(registry.invocation_order(HookKind::ResolveId), Vec::<usize>::new());
}

#[test]
fn next_implementing_finds_the_first_from_a_position() {
    let registry = mixed_registry();
    assert_eq!(registry.next_implementing(HookKind::Transform, 0), Some(0));
    assert_eq!(registry.next_implementing(HookKind::Transform, 1), Some(2));
    assert_eq!(registry.next_implementing(HookKind::Transform, 2), Some(2));
    assert_eq!(registry.next_implementing(HookKind::Transform, 3), Some(4));
    assert_eq!(registry.next_implementing(HookKind::Transform, 5), None);
    assert_eq!(registry.next_implementing(HookKind::Transform, usize::MAX), None);
    assert_eq!(registry.next_implementing(HookKind::Load, 0), Some(1));
    assert_eq!(registry.next_implementing(HookKind::Load, 3), None);
    assert_eq!(registry.next_implementing(HookKind::BuildEnd, 0), None);
}

#[test]
fn walking_next_implementing_gives_the_invocation_order() {
    let registry = mixed_registry();
    for hook in ALL_HOOKS {
        let mut walked = Vec::new();
        let mut from = 0;
        while let Some(position) = registry.next_implementing(hook, from) {
            walked.push(position);
            from = position + 1;
        }
        assert_eq!(walked, registry.invocation_order(hook));
    }
}

#[test]
fn plugins_without_hooks_are_never_invoked() {
    let mut registry = PluginRegistry::new();
    registry.register(named("idle"));
    registry.register(named("idle-too"));
    let none = PluginRegistry::new();
    for hook in ALL_HOOKS {
        assert!(registry.invocation_order(hook).is_empty());
        assert_eq!(registry.invocation_order(hook), none.invocation_order(hook));
        assert_eq!(registry.next_implementing(hook, 0), None);
    }
}
