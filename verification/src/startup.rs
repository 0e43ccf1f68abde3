//! What carrying out the steps of a start makes of the process, and the laws
//! of a start.

use crate::config::LinchConfigView;
use crate::guard::{spec_init_sentry, GuardSlot, SentryOptions, SentryOptionsView};
use crate::plugins::{
    core_plugins, desktop_steps, plugin_steps, sentry_steps, steps_view, Plugin, Step, StepView,
};
use vstd::prelude::*;

verus! {

/// The process as a start leaves it.
pub struct HostState {
    /// The client whose guard the guard slot holds, told by the options it
    /// was opened with. `None` while the slot is empty.
    pub client: Option<SentryOptionsView>,
    /// The plugins registered with the host application, in the order of
    /// their registration.
    pub plugins: Seq<Plugin>,
}

/// The process after `step` was carried out: a client that is opened takes
/// the guard slot, whatever the slot held; a plugin that is registered comes
/// after those registered before.
pub open spec fn after_step(state: HostState, step: StepView) -> HostState {
    match step {
        StepView::Sentry(options) => HostState { client: Some(options), plugins: state.plugins },
        StepView::Plugin(plugin) => HostState {
            client: state.client,
            plugins: state.plugins.push(plugin),
        },
    }
}

/// The process after `steps` were carried out, one after the other.
pub open spec fn after_steps(state: HostState, steps: Seq<StepView>) -> HostState
    decreases steps.len(),
{
    if steps.len() == 0 {
        state
    } else {
        after_step(after_steps(state, steps.drop_last()), steps.last())
    }
}

/// A host that carries steps out on plain values. In place of a client's
/// guard it keeps the options that the client was to be opened with, and it
/// lists the plugins that it was asked to register.
pub struct RecordingHost {
    guard: GuardSlot<SentryOptions>,
    plugins: Vec<Plugin>,
}

impl View for RecordingHost {
    type V = HostState;

    closed spec fn view(&self) -> HostState {
        HostState {
            client: match self.guard@ {
                Some(options) => Some(options@),
                None => None,
            },
            plugins: self.plugins@,
        }
    }
}

impl RecordingHost {
    /// A host with an empty guard slot and no plugin registered.
    pub fn new() -> (host: Self)
        ensures
            host@ == (HostState { client: None, plugins: Seq::empty() }),
    {
        RecordingHost { guard: GuardSlot::new(), plugins: Vec::new() }
    }

    /// Carries out `steps`, one after the other.
    pub fn carry_out(&mut self, steps: &Vec<Step>)
        ensures
            final(self)@ == after_steps(old(self)@, steps_view(steps@)),
    {
        let ghost all = steps_view(steps@);
        let mut done: usize = 0;
        while done < steps.len()
            invariant
                done <= steps.len(),
                all == steps_view(steps@),
                self@ == after_steps(old(self)@, all.take(done as int)),
            decreases steps.len() - done,
        {
            proof {
                assert(all.take(done + 1).drop_last() =~= all.take(done as int));
                assert(all.take(done + 1).last() == steps[done as int]@);
            }
            match &steps[done] {
                Step::Sentry(options) => self.guard.store(options.clone()),
                Step::Plugin(plugin) => self.plugins.push(*plugin),
            }
            done = done + 1;
        }
        assert(all.take(done as int) =~= all);
    }

    /// The options of the client whose guard is in the guard slot, if one is
    /// there.
    pub fn client(&self) -> (client: Option<&SentryOptions>)
        ensures
            match client {
                Some(options) => self@.client == Some(options@),
                None => self@.client is None,
            },
    {
        self.guard.guard()
    }

    /// The plugins registered, in the order of their registration.
    pub fn plugins(&self) -> (plugins: &Vec<Plugin>)
        ensures
            plugins@ == self@.plugins,
    {
        &self.plugins
    }
}

/// Carrying out `first` and then `second` is carrying out the two in a row.
pub proof fn lemma_after_steps_concat(state: HostState, first: Seq<StepView>, second: Seq<StepView>)
    ensures
        after_steps(state, first + second) == after_steps(after_steps(state, first), second),
    decreases second.len(),
{
    if second.len() == 0 {
        assert(first + second =~= first);
    } else {
        assert((first + second).drop_last() =~= first + second.drop_last());
        assert((first + second).last() == second.last());
        lemma_after_steps_concat(state, first, second.drop_last());
    }
}

/// Registration steps register their plugins, in their order, after those
/// registered before, and leave the guard slot as it is.
pub proof fn lemma_after_plugin_steps(state: HostState, plugins: Seq<Plugin>)
    ensures
        after_steps(state, plugin_steps(plugins)) == (HostState {
            client: state.client,
            plugins: state.plugins + plugins,
        }),
    decreases plugins.len(),
{
    if plugins.len() == 0 {
        assert(state.plugins + plugins =~= state.plugins);
    } else {
        assert(plugin_steps(plugins).drop_last() =~= plugin_steps(plugins.drop_last()));
        assert(plugin_steps(plugins).last() == StepView::Plugin(plugins.last()));
        lemma_after_plugin_steps(state, plugins.drop_last());
        assert(state.plugins + plugins =~= (state.plugins + plugins.drop_last()).push(
            plugins.last(),
        ));
    }
}

/// Every plugin is among the core plugins, and none is there twice.
pub proof fn lemma_core_plugins_each_once()
    ensures
        core_plugins().no_duplicates(),
        forall|plugin: Plugin| core_plugins().contains(plugin),
{
    let core = core_plugins();
    assert forall|plugin: Plugin| core.contains(plugin) by {
        match plugin {
            Plugin::Fs => assert(core[0] == plugin),
            Plugin::Sql => assert(core[1] == plugin),
            Plugin::Updater => assert(core[2] == plugin),
            Plugin::Shell => assert(core[3] == plugin),
            Plugin::Dialog => assert(core[4] == plugin),
            Plugin::Opener => assert(core[5] == plugin),
            Plugin::Process => assert(core[6] == plugin),
        }
    }
}

/// Adding the core plugins registers each of them once, in their fixed
/// order, after whatever was registered before. The guard slot stays as it
/// is.
pub proof fn lemma_core_plugins_registered(state: HostState)
    ensures
        after_steps(state, plugin_steps(core_plugins())) == (HostState {
            client: state.client,
            plugins: state.plugins + core_plugins(),
        }),
        core_plugins().no_duplicates(),
        forall|plugin: Plugin| core_plugins().contains(plugin),
{
    lemma_after_plugin_steps(state, core_plugins());
    lemma_core_plugins_each_once();
}

/// Without a DSN, or with an empty one, no client is opened and the guard
/// slot stays as it is, also through a full start.
pub proof fn lemma_no_dsn_keeps_guard_slot(
    state: HostState,
    config: LinchConfigView,
    debug_build: bool,
)
    requires
        config.sentry_dsn is None || config.sentry_dsn == Some(Seq::<char>::empty()),
    ensures
        spec_init_sentry(config, debug_build) is None,
        after_steps(state, sentry_steps(config, debug_build)) == state,
        after_steps(state, desktop_steps(config, debug_build)).client == state.client,
{
    assert(sentry_steps(config, debug_build) =~= Seq::empty());
    assert(desktop_steps(config, debug_build) =~= plugin_steps(core_plugins()));
    lemma_after_plugin_steps(state, core_plugins());
}

/// With a DSN that is not empty, a full start leaves the guard of the client
/// that was asked for in the guard slot, and the core plugins registered
/// after those registered before. The client comes first: its guard is in
/// the slot from the first step on, and no plugin is registered before it.
pub proof fn lemma_guard_before_plugins(state: HostState, config: LinchConfigView, debug_build: bool)
    requires
        config.has_dsn(),
    ensures
        after_steps(state, desktop_steps(config, debug_build)) == (HostState {
            client: spec_init_sentry(config, debug_build),
            plugins: state.plugins + core_plugins(),
        }),
        spec_init_sentry(config, debug_build) is Some,
        desktop_steps(config, debug_build).first() == StepView::Sentry(
            spec_init_sentry(config, debug_build)->0,
        ),
        after_steps(state, desktop_steps(config, debug_build).take(1)).plugins == state.plugins,
        forall|done: int|
            1 <= done <= desktop_steps(config, debug_build).len() ==> (#[trigger] after_steps(
                state,
                desktop_steps(config, debug_build).take(done),
            )).client == spec_init_sentry(config, debug_build),
{
    let client = spec_init_sentry(config, debug_build);
    let open = sentry_steps(config, debug_build);
    let all = desktop_steps(config, debug_build);
    let opened = HostState { client, plugins: state.plugins };
    assert(open =~= seq![StepView::Sentry(client->0)]);
    assert(after_steps(state, open) == opened) by {
        assert(open.drop_last() =~= Seq::empty());
        assert(after_steps(state, open.drop_last()) == state);
    }
    lemma_after_steps_concat(state, open, plugin_steps(core_plugins()));
    lemma_after_plugin_steps(opened, core_plugins());
    assert(all.take(1) =~= open);
    assert forall|done: int| 1 <= done <= all.len() implies (#[trigger] after_steps(
        state,
        all.take(done),
    )).client == client by {
        let registered = core_plugins().take(done - 1);
        assert(all.take(done) =~= open + plugin_steps(registered));
        lemma_after_steps_concat(state, open, plugin_steps(registered));
        lemma_after_plugin_steps(opened, registered);
    }
}

/// Where a second client is opened, its guard takes the slot: whatever the
/// first configuration asked for, the slot holds the guard of the client that
/// the second one asked for.
pub proof fn lemma_last_client_wins(
    state: HostState,
    first: LinchConfigView,
    first_debug_build: bool,
    second: LinchConfigView,
    second_debug_build: bool,
)
    requires
        second.has_dsn(),
    ensures
        after_steps(
            state,
            sentry_steps(first, first_debug_build) + sentry_steps(second, second_debug_build),
        ).client == spec_init_sentry(second, second_debug_build),
        after_steps(
            state,
            desktop_steps(first, first_debug_build) + desktop_steps(second, second_debug_build),
        ).client == spec_init_sentry(second, second_debug_build),
{
    let after_first = after_steps(state, sentry_steps(first, first_debug_build));
    lemma_after_steps_concat(
        state,
        sentry_steps(first, first_debug_build),
        sentry_steps(second, second_debug_build),
    );
    let open = sentry_steps(second, second_debug_build);
    assert(open =~= seq![StepView::Sentry(spec_init_sentry(second, second_debug_build)->0)]);
    assert(open.drop_last() =~= Seq::empty());
    assert(after_steps(after_first, open.drop_last()) == after_first);

    let after_first_start = after_steps(state, desktop_steps(first, first_debug_build));
    lemma_after_steps_concat(
        state,
        desktop_steps(first, first_debug_build),
        desktop_steps(second, second_debug_build),
    );
    lemma_guard_before_plugins(after_first_start, second, second_debug_build);
}

} // verus!
