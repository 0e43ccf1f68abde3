//! The plugins of the desktop core, and the steps by which an application is
//! started with them.

use crate::config::{LinchConfig, LinchConfigView};
use crate::guard::{init_sentry, spec_init_sentry, SentryOptions, SentryOptionsView};
use vstd::prelude::*;

verus! {

/// A plugin that the host application can be asked to register.
#[derive(Debug, Clone, Copy, PartialEq, Eq, Structural)]
pub enum Plugin {
    /// Access to the file system.
    Fs,
    /// SQL databases (SQLite).
    Sql,
    /// Updates of the application itself.
    Updater,
    /// Running commands in a shell.
    Shell,
    /// Native dialogs.
    Dialog,
    /// Opening files and addresses with the system's applications.
    Opener,
    /// Control over the application's own process.
    Process,
}

/// The plugins of the desktop core, in the order in which they are
/// registered.
pub open spec fn core_plugins() -> Seq<Plugin> {
    seq![
        Plugin::Fs,
        Plugin::Sql,
        Plugin::Updater,
        Plugin::Shell,
        Plugin::Dialog,
        Plugin::Opener,
        Plugin::Process,
    ]
}

/// One thing that the application does while it starts.
#[derive(Debug, Clone, PartialEq, Eq)]
pub enum Step {
    /// Open the error-reporting client with these options, and put its guard
    /// into the guard slot.
    Sentry(SentryOptions),
    /// Register this plugin with the host application.
    Plugin(Plugin),
}

/// A [`Step`] as a mathematical value.
pub enum StepView {
    Sentry(SentryOptionsView),
    Plugin(Plugin),
}

impl View for Step {
    type V = StepView;

    open spec fn view(&self) -> StepView {
        match self {
            Step::Sentry(options) => StepView::Sentry(options@),
            Step::Plugin(plugin) => StepView::Plugin(*plugin),
        }
    }
}

/// The steps in `steps`, each as a mathematical value.
pub open spec fn steps_view(steps: Seq<Step>) -> Seq<StepView> {
    steps.map_values(|step: Step| step@)
}

/// One registration step for each of `plugins`, in their order.
pub open spec fn plugin_steps(plugins: Seq<Plugin>) -> Seq<StepView> {
    plugins.map_values(|plugin: Plugin| StepView::Plugin(plugin))
}

/// The step that opens the client `config` asks for, where it asks for one.
pub open spec fn sentry_steps(config: LinchConfigView, debug_build: bool) -> Seq<StepView> {
    match spec_init_sentry(config, debug_build) {
        Some(options) => seq![StepView::Sentry(options)],
        None => Seq::empty(),
    }
}

/// The steps of a full start: the error-reporting client first, where
/// `config` asks for one, then the core plugins.
pub open spec fn desktop_steps(config: LinchConfigView, debug_build: bool) -> Seq<StepView> {
    sentry_steps(config, debug_build) + plugin_steps(core_plugins())
}

/// What an application is asked to do while it starts, step by step. The
/// application carries the steps out in their order.
#[derive(Debug, Clone, PartialEq, Eq)]
pub struct Builder {
    steps: Vec<Step>,
}

impl View for Builder {
    type V = Seq<StepView>;

    closed spec fn view(&self) -> Seq<StepView> {
        steps_view(self.steps@)
    }
}

impl Builder {
    /// A builder that asks for nothing yet.
    pub fn new() -> (builder: Self)
        ensures
            builder@ == Seq::<StepView>::empty(),
    {
        Builder { steps: Vec::new() }
    }

    /// Asks for the error-reporting client to be opened with `options`.
    pub fn sentry(self, options: SentryOptions) -> (builder: Self)
        ensures
            builder@ == self@.push(StepView::Sentry(options@)),
    {
        let mut steps = self.steps;
        steps.push(Step::Sentry(options));
        Builder { steps }
    }

    /// Asks for `plugin` to be registered. Nothing is made of a plugin that
    /// was asked for before: what the host application does with a second
    /// registration is the host's matter.
    pub fn plugin(self, plugin: Plugin) -> (builder: Self)
        ensures
            builder@ == self@.push(StepView::Plugin(plugin)),
    {
        let mut steps = self.steps;
        steps.push(Step::Plugin(plugin));
        Builder { steps }
    }

    /// The steps asked for so far, in the order in which they are to be
    /// carried out.
    pub fn steps(&self) -> (steps: &Vec<Step>)
        ensures
            steps_view(steps@) == self@,
    {
        &self.steps
    }
}

impl Default for Builder {
    fn default() -> (builder: Self)
        ensures
            builder@ == Seq::<StepView>::empty(),
    {
        Builder::new()
    }
}

/// Extension trait for the builder.
pub trait LinchDesktopExt: Sized {
    /// Add Linch Desktop Core functionality to the builder.
    ///
    /// This adds:
    /// - Sentry error reporting (if configured)
    /// - File system plugin
    /// - SQL plugin (SQLite)
    /// - Updater plugin
    /// - Shell plugin
    /// - Dialog plugin
    /// - Opener plugin
    /// - Process plugin
    fn with_linch_desktop(self, config: LinchConfig, debug_build: bool) -> Self;

    /// Add only the core plugins without Sentry.
    fn with_linch_plugins(self) -> Self;
}

impl LinchDesktopExt for Builder {
    fn with_linch_desktop(self, config: LinchConfig, debug_build: bool) -> (builder: Self)
        ensures
            builder@ == self@ + desktop_steps(config@, debug_build),
    {
        let builder = match init_sentry(&config, debug_build) {
            Some(options) => self.sentry(options),
            None => self,
        };
        builder.with_linch_plugins()
    }

    fn with_linch_plugins(self) -> (builder: Self)
        ensures
            builder@ == self@ + plugin_steps(core_plugins()),
    {
        self.plugin(Plugin::Fs)
            .plugin(Plugin::Sql)
            .plugin(Plugin::Updater)
            .plugin(Plugin::Shell)
            .plugin(Plugin::Dialog)
            .plugin(Plugin::Opener)
            .plugin(Plugin::Process)
    }
}

} // verus!
