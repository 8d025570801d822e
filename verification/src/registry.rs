//! The ordered list of registered plugins, and the order in which a stage
//! calls the hooks of those that implement its hook.

use crate::hooks::{HookKind, PluginModel, PluginOptions};
use vstd::prelude::*;

verus! {

/// The positions, among the first `n` of `plugins`, of those that implement
/// `hook`, in ascending order.
pub open spec fn invoked_among(plugins: Seq<PluginModel>, hook: HookKind, n: nat) -> Seq<int>
    decreases n,
{
    if n == 0 {
        Seq::empty()
    } else {
        let before = invoked_among(plugins, hook, (n - 1) as nat);
        if n <= plugins.len() && plugins[n - 1].implements(hook) {
            before.push(n - 1)
        } else {
            before
        }
    }
}

/// The positions of the plugins that a stage calls for `hook`, in the order
/// in which it calls them: registration order.
pub open spec fn invocation_order(plugins: Seq<PluginModel>, hook: HookKind) -> Seq<int> {
    invoked_among(plugins, hook, plugins.len())
}

/// The first position from `from` on whose plugin implements `hook`.
pub open spec fn next_implementing(plugins: Seq<PluginModel>, hook: HookKind, from: int) -> Option<
    int,
>
    decreases plugins.len() - from,
{
    if from < 0 || from >= plugins.len() {
        None
    } else if plugins[from].implements(hook) {
        Some(from)
    } else {
        next_implementing(plugins, hook, from + 1)
    }
}

/// What `invoked_among` holds: positions below `n`, ascending, of plugins
/// that implement `hook`, and every such position.
pub proof fn lemma_invoked_among(plugins: Seq<PluginModel>, hook: HookKind, n: nat)
    requires
        n <= plugins.len(),
    ensures
        invoked_among(plugins, hook, n).len() <= n,
        forall|k: int|
            0 <= k < invoked_among(plugins, hook, n).len() ==> {
                let i = #[trigger] invoked_among(plugins, hook, n)[k];
                0 <= i < n && plugins[i].implements(hook)
            },
        forall|k: int, l: int|
            0 <= k < l < invoked_among(plugins, hook, n).len() ==> invoked_among(
                plugins,
                hook,
                n,
            )[k] < invoked_among(plugins, hook, n)[l],
        forall|i: int|
            0 <= i < n && (#[trigger] plugins[i]).implements(hook) ==> invoked_among(
                plugins,
                hook,
                n,
            ).contains(i),
    decreases n,
{
    if n > 0 {
        let before = invoked_among(plugins, hook, (n - 1) as nat);
        lemma_invoked_among(plugins, hook, (n - 1) as nat);
        let now = invoked_among(plugins, hook, n);
        assert forall|i: int|
            0 <= i < n && (#[trigger] plugins[i]).implements(hook) implies now.contains(i) by {
            if i < n - 1 {
                let k = choose|k: int| 0 <= k < before.len() && before[k] == i;
                assert(now[k] == i);
            } else {
                assert(now[now.len() - 1] == i);
            }
        }
    }
}

/// The order of invocation is registration order: the positions called for
/// `hook` ascend, each is that of a plugin implementing `hook`, and no plugin
/// implementing `hook` is left out.
pub proof fn lemma_invocation_order(plugins: Seq<PluginModel>, hook: HookKind)
    ensures
        forall|k: int|
            0 <= k < invocation_order(plugins, hook).len() ==> {
                let i = #[trigger] invocation_order(plugins, hook)[k];
                0 <= i < plugins.len() && plugins[i].implements(hook)
            },
        forall|k: int, l: int|
            0 <= k < l < invocation_order(plugins, hook).len() ==> invocation_order(
                plugins,
                hook,
            )[k] < invocation_order(plugins, hook)[l],
        forall|i: int|
            0 <= i < plugins.len() && (#[trigger] plugins[i]).implements(hook)
                ==> invocation_order(plugins, hook).contains(i),
{
    lemma_invoked_among(plugins, hook, plugins.len());
}

/// Plugins that implement no hook are never called: whatever the hook, the
/// order of invocation is empty, as it is where no plugin is registered.
pub proof fn lemma_inert_plugins_are_never_invoked(plugins: Seq<PluginModel>, hook: HookKind)
    requires
        forall|i: int| 0 <= i < plugins.len() ==> (#[trigger] plugins[i]).inert(),
    ensures
        invocation_order(plugins, hook) == Seq::<int>::empty(),
        invocation_order(plugins, hook) == invocation_order(Seq::<PluginModel>::empty(), hook),
        next_implementing(plugins, hook, 0) is None,
{
    lemma_inert_among(plugins, hook, plugins.len());
    lemma_next_implementing(plugins, hook, 0);
}

proof fn lemma_inert_among(plugins: Seq<PluginModel>, hook: HookKind, n: nat)
    requires
        n <= plugins.len(),
        forall|i: int| 0 <= i < plugins.len() ==> (#[trigger] plugins[i]).inert(),
    ensures
        invoked_among(plugins, hook, n) == Seq::<int>::empty(),
    decreases n,
{
    if n > 0 {
        lemma_inert_among(plugins, hook, (n - 1) as nat);
        assert(plugins[n - 1].inert());
    }
}

/// What `next_implementing` finds: the least position from `from` on whose
/// plugin implements `hook`, and nothing only where there is none.
pub proof fn lemma_next_implementing(plugins: Seq<PluginModel>, hook: HookKind, from: int)
    requires
        0 <= from,
    ensures
        match next_implementing(plugins, hook, from) {
            Some(i) => {
                &&& from <= i < plugins.len()
                &&& plugins[i].implements(hook)
                &&& forall|j: int| from <= j < i ==> !(#[trigger] plugins[j]).implements(hook)
            },
            None => forall|j: int|
                from <= j < plugins.len() ==> !(#[trigger] plugins[j]).implements(hook),
        },
    decreases plugins.len() - from,
{
    if from < plugins.len() && !plugins[from].implements(hook) {
        lemma_next_implementing(plugins, hook, from + 1);
    }
}

/// Where the `k`-th call of a stage stops, looking on finds the next: from
/// the position after the plugin called last (from the start, before any
/// call), the next plugin implementing `hook` is the `k`-th in the order of
/// invocation, and there is none once all of them have been called.
pub proof fn lemma_looking_on_follows_invocation_order(
    plugins: Seq<PluginModel>,
    hook: HookKind,
    k: int,
)
    requires
        0 <= k <= invocation_order(plugins, hook).len(),
    ensures
        next_implementing(
            plugins,
            hook,
            if k == 0 {
                0
            } else {
                invocation_order(plugins, hook)[k - 1] + 1
            },
        ) == if k < invocation_order(plugins, hook).len() {
            Some(invocation_order(plugins, hook)[k])
        } else {
            None
        },
{
    let order = invocation_order(plugins, hook);
    let from = if k == 0 {
        0
    } else {
        order[k - 1] + 1
    };
    lemma_invocation_order(plugins, hook);
    if k > 0 {
        assert(0 <= order[k - 1]);
    }
    lemma_next_implementing(plugins, hook, from);
    match next_implementing(plugins, hook, from) {
        Some(i) => {
            assert(plugins[i].implements(hook));
            assert(order.contains(i));
            let m = choose|m: int| 0 <= m < order.len() && order[m] == i;
            if m < k {
                if m < k - 1 {
                    assert(order[m] < order[k - 1]);
                }
                assert(false);
            }
            if k < m {
                assert(order[k] < order[m]);
            }
            if k > 0 {
                assert(order[k - 1] < order[k]);
            }
            assert(from <= order[k]);
            assert(plugins[order[k]].implements(hook));
        },
        None => {
            if k < order.len() {
                if k > 0 {
                    assert(order[k - 1] < order[k]);
                }
                assert(plugins[order[k]].implements(hook));
                assert(false);
            }
        },
    }
}

/// The plugins of a build, in the order in which they were registered.
/// Every registered plugin has a name.
pub struct PluginRegistry {
    plugins: Vec<PluginOptions>,
}

impl View for PluginRegistry {
    type V = Seq<PluginModel>;

    closed spec fn view(&self) -> Seq<PluginModel> {
        Seq::new(self.plugins@.len(), |i: int| self.plugins@[i]@)
    }
}

impl PluginRegistry {
    #[verifier::type_invariant]
    spec fn all_named(&self) -> bool {
        forall|i: int| 0 <= i < self.plugins@.len() ==> (#[trigger] self.plugins@[i]).is_named()
    }

    /// The registrations themselves, in registration order.
    pub closed spec fn registrations(&self) -> Seq<PluginOptions> {
        self.plugins@
    }

    /// The registry without a plugin.
    pub fn new() -> (registry: Self)
        ensures
            registry@ == Seq::<PluginModel>::empty(),
            registry.registrations() == Seq::<PluginOptions>::empty(),
    {
        PluginRegistry { plugins: Vec::new() }
    }

    /// Enters `plugin` after the plugins registered so far and returns its
    /// position. A registration without a name is refused: nothing is
    /// returned and the registry stays as it was.
    pub fn register(&mut self, plugin: PluginOptions) -> (position: Option<usize>)
        ensures
            plugin.is_named() ==> position == Some(old(self)@.len() as usize)
                && final(self).registrations() == old(self).registrations().push(plugin)
                && final(self)@ == old(self)@.push(plugin@),
            !plugin.is_named() ==> position is None && final(self).registrations() == old(
                self,
            ).registrations() && final(self)@ == old(self)@,
    {
        if plugin.is_named() {
            proof {
                use_type_invariant(&*self);
            }
            let position = self.plugins.len();
            let mut plugins: Vec<PluginOptions> = Vec::new();
            std::mem::swap(&mut plugins, &mut self.plugins);
            plugins.push(plugin);
            self.plugins = plugins;
            Some(position)
        } else {
            None
        }
    }

    /// The number of registered plugins.
    pub fn len(&self) -> (n: usize)
        ensures
            n == self@.len(),
    {
        self.plugins.len()
    }

    /// The plugin registered at `position`, if there is one. It has a name.
    pub fn get(&self, position: usize) -> (plugin: Option<&PluginOptions>)
        ensures
            position < self@.len() ==> {
                &&& plugin is Some
                &&& *plugin->0 == self.registrations()[position as int]
                &&& plugin->0@ == self@[position as int]
                &&& plugin->0.is_named()
            },
            position >= self@.len() ==> plugin is None,
    {
        if position < self.plugins.len() {
            proof {
                use_type_invariant(self);
            }
            Some(&self.plugins[position])
        } else {
            None
        }
    }

    /// The position of the next plugin to call for `hook`, looking from
    /// `from` on; nothing where no plugin from there on implements it.
    pub fn next_implementing(&self, hook: HookKind, from: usize) -> (next: Option<usize>)
        ensures
            next is Some <==> next_implementing(self@, hook, from as int) is Some,
            next is Some ==> next->0 as int == next_implementing(self@, hook, from as int)->0,
            match next {
                Some(position) => {
                    &&& from <= position < self@.len()
                    &&& self@[position as int].implements(hook)
                    &&& forall|j: int|
                        from <= j < position ==> !(#[trigger] self@[j]).implements(hook)
                },
                None => forall|j: int|
                    from <= j < self@.len() ==> !(#[trigger] self@[j]).implements(hook),
            },
    {
        let mut position = from;
        while position < self.plugins.len()
            invariant
                from <= position,
                next_implementing(self@, hook, from as int) == next_implementing(
                    self@,
                    hook,
                    position as int,
                ),
            decreases self.plugins.len() - position,
        {
            if self.plugins[position].implements(hook) {
                proof {
                    lemma_next_implementing(self@, hook, from as int);
                }
                return Some(position);
            }
            position += 1;
        }
        proof {
            lemma_next_implementing(self@, hook, from as int);
        }
        None
    }

    /// The positions of the plugins that a stage calls for `hook`, in the
    /// order in which it calls them.
    pub fn invocation_order(&self, hook: HookKind) -> (order: Vec<usize>)
        ensures
            order@.len() == invocation_order(self@, hook).len(),
            forall|k: int|
                0 <= k < order@.len() ==> (#[trigger] order@[k]) as int == invocation_order(
                    self@,
                    hook,
                )[k],
            forall|k: int|
                0 <= k < order@.len() ==> {
                    &&& (#[trigger] order@[k]) < self@.len()
                    &&& self@[order@[k] as int].implements(hook)
                },
            forall|k: int, l: int| 0 <= k < l < order@.len() ==> order@[k] < order@[l],
    {
        proof {
            lemma_invocation_order(self@, hook);
        }
        let mut order: Vec<usize> = Vec::new();
        let mut position: usize = 0;
        while position < self.plugins.len()
            invariant
                position <= self.plugins@.len(),
                order@.len() == invoked_among(self@, hook, position as nat).len(),
                forall|k: int|
                    0 <= k < order@.len() ==> (#[trigger] order@[k]) as int == invoked_among(
                        self@,
                        hook,
                        position as nat,
                    )[k],
            decreases self.plugins.len() - position,
        {
            if self.plugins[position].implements(hook) {
                order.push(position);
            }
            position += 1;
        }
        order
    }
}

} // verus!
