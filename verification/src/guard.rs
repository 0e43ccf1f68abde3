//! The error-reporting client: whether one is opened, with which options, and
//! where its guard is kept while the application runs.

use crate::commands::{release_name, spec_release_name};
use crate::config::{LinchConfig, LinchConfigView, SAMPLE_RATE_NONE};
use vstd::prelude::*;

verus! {

/// What the error-reporting backend is handed to open a client.
#[derive(Debug, PartialEq, Eq)]
pub struct SentryOptions {
    /// The endpoint to report to. Not empty where [`init_sentry`] made the
    /// options.
    pub dsn: String,
    /// The release that reports are filed under.
    pub release: String,
    /// The share of reports that is sent, a single-precision float held by
    /// its bits.
    pub sample_rate: u32,
}

/// [`SentryOptions`] as a mathematical value.
pub struct SentryOptionsView {
    pub dsn: Seq<char>,
    pub release: Seq<char>,
    pub sample_rate: u32,
}

impl View for SentryOptions {
    type V = SentryOptionsView;

    open spec fn view(&self) -> SentryOptionsView {
        SentryOptionsView {
            dsn: self.dsn@,
            release: self.release@,
            sample_rate: self.sample_rate,
        }
    }
}

impl Clone for SentryOptions {
    fn clone(&self) -> (options: Self)
        ensures
            options == *self,
    {
        SentryOptions {
            dsn: self.dsn.clone(),
            release: self.release.clone(),
            sample_rate: self.sample_rate,
        }
    }
}

/// The sample rate that the backend is handed: a debug build sends nothing,
/// whatever was configured; a release build sends what was configured, bit
/// for bit.
pub open spec fn effective_sample_rate(configured: u32, debug_build: bool) -> u32 {
    if debug_build {
        SAMPLE_RATE_NONE
    } else {
        configured
    }
}

/// The client that `config` asks for: none without a DSN or with an empty
/// one; else one for that DSN, filed under this package's release, at the
/// effective sample rate.
pub open spec fn spec_init_sentry(config: LinchConfigView, debug_build: bool) -> Option<
    SentryOptionsView,
> {
    if config.has_dsn() {
        Some(
            SentryOptionsView {
                dsn: config.sentry_dsn->0,
                release: spec_release_name(),
                sample_rate: effective_sample_rate(config.sentry_sample_rate, debug_build),
            },
        )
    } else {
        None
    }
}

/// Initialize Sentry for error reporting: decides whether a client is to be
/// opened, and with which options. `debug_build` tells a debug build from a
/// release build.
///
/// The caller opens the client for the options returned and keeps its guard
/// in a [`GuardSlot`].
pub fn init_sentry(config: &LinchConfig, debug_build: bool) -> (options: Option<SentryOptions>)
    ensures
        options is Some <==> config@.has_dsn(),
        match options {
            Some(options) => spec_init_sentry(config@, debug_build) == Some(options@),
            None => spec_init_sentry(config@, debug_build) is None,
        },
        options matches Some(options) ==> {
            &&& options.dsn@ == config@.sentry_dsn->0
            &&& debug_build ==> options.sample_rate == SAMPLE_RATE_NONE
            &&& !debug_build ==> options.sample_rate == config.sentry_sample_rate
        },
{
    let dsn = match &config.sentry_dsn {
        Some(dsn) => dsn,
        None => {
            return None;
        },
    };

    if dsn.as_str().is_empty() {
        return None;
    }

    let sample_rate: u32 = if debug_build {
        SAMPLE_RATE_NONE  // Don't send in debug builds
    } else {
        config.sentry_sample_rate
    };

    Some(SentryOptions { dsn: dsn.clone(), release: release_name(), sample_rate })
}

/// The place where the guard of the error-reporting client is kept alive for
/// the lifetime of the application. It holds one guard at most.
pub struct GuardSlot<G> {
    guard: Option<G>,
}

impl<G> View for GuardSlot<G> {
    type V = Option<G>;

    closed spec fn view(&self) -> Option<G> {
        self.guard
    }
}

impl<G> GuardSlot<G> {
    /// An empty slot.
    pub fn new() -> (slot: Self)
        ensures
            slot@ is None,
    {
        GuardSlot { guard: None }
    }

    /// Puts `guard` into the slot, over whatever it held: the guard that was
    /// there before is dropped. The slot is borrowed for itself alone while
    /// this runs, so no two stores meet.
    pub fn store(&mut self, guard: G)
        ensures
            final(self)@ == Some(guard),
    {
        self.guard = Some(guard);
    }

    /// The guard that the slot holds, if any.
    pub fn guard(&self) -> (guard: Option<&G>)
        ensures
            match guard {
                Some(guard) => self@ == Some(*guard),
                None => self@ is None,
            },
    {
        self.guard.as_ref()
    }
}

} // verus!
