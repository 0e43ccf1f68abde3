//! # Linch Desktop Core
//!
//! The start-up rules of a Linch desktop application, stated and proved:
//! how its configuration is resolved, when an error-reporting client is
//! opened and with which options, and which plugins the host application is
//! asked to register, in which order.
//!
//! The library decides; it performs nothing itself. What it decides is a
//! sequence of [`Step`]s, which the application carries out against its host
//! framework and its error-reporting backend.

use vstd::prelude::*;

pub mod commands;
pub mod config;
pub mod guard;
pub mod plugins;
pub mod startup;

pub use config::{dsn_view, LinchConfig, LinchConfigView, SAMPLE_RATE_ALL, SAMPLE_RATE_NONE};
pub use guard::{init_sentry, GuardSlot, SentryOptions, SentryOptionsView};
pub use plugins::{desktop_steps, Builder, LinchDesktopExt, Plugin, Step, StepView};
pub use startup::{HostState, RecordingHost};

verus! {

/// Create a configured builder with Linch Desktop Core, from what the build's
/// environment holds: `dsn` is the DSN found there, if any, and `debug_build`
/// tells a debug build from a release build.
///
/// This returns a configured builder that you can further customize before
/// its steps are carried out.
pub fn create_builder(dsn: Option<&str>, debug_build: bool) -> (builder: Builder)
    ensures
        builder@ == desktop_steps(
            LinchConfigView::from_env(dsn_view(dsn), debug_build),
            debug_build,
        ),
{
    Builder::default().with_linch_desktop(LinchConfig::from_env(dsn, debug_build), debug_build)
}

} // verus!
