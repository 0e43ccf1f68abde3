//! The configuration of the desktop core.

use vstd::prelude::*;

verus! {

/// The sample rate `1.0`, as the bits of a single-precision float: every
/// report is sent.
pub const SAMPLE_RATE_ALL: u32 = 0x3F80_0000;

/// The sample rate `0.0`, as the bits of a single-precision float: no report
/// is sent.
pub const SAMPLE_RATE_NONE: u32 = 0;

/// Configuration for Linch Desktop Core.
#[derive(Debug, PartialEq, Eq)]
pub struct LinchConfig {
    /// Sentry DSN for error reporting. `None` and the empty string both mean
    /// that error reporting is off.
    pub sentry_dsn: Option<String>,
    /// Sentry sample rate, a single-precision float between `0.0` and `1.0`
    /// held by its bits. The library never computes with it: it hands the
    /// bits on as they are, or puts [`SAMPLE_RATE_NONE`] in their place.
    pub sentry_sample_rate: u32,
    /// Enable devtools in debug mode.
    pub enable_devtools: bool,
}

/// A [`LinchConfig`] as a mathematical value.
pub struct LinchConfigView {
    pub sentry_dsn: Option<Seq<char>>,
    pub sentry_sample_rate: u32,
    pub enable_devtools: bool,
}

impl View for LinchConfig {
    type V = LinchConfigView;

    open spec fn view(&self) -> LinchConfigView {
        LinchConfigView {
            sentry_dsn: match self.sentry_dsn {
                Some(dsn) => Some(dsn@),
                None => None,
            },
            sentry_sample_rate: self.sentry_sample_rate,
            enable_devtools: self.enable_devtools,
        }
    }
}

/// The DSN that the build's environment holds, as a mathematical value.
pub open spec fn dsn_view(dsn: Option<&str>) -> Option<Seq<char>> {
    match dsn {
        Some(dsn) => Some(dsn@),
        None => None,
    }
}

impl LinchConfigView {
    /// Whether the configuration names an endpoint to report to: a DSN that
    /// is present and not empty.
    pub open spec fn has_dsn(self) -> bool {
        self.sentry_dsn matches Some(dsn) && dsn.len() > 0
    }

    /// The configuration that the build's environment gives: the DSN as it
    /// was found there, every report sampled, devtools in debug builds only.
    pub open spec fn from_env(dsn: Option<Seq<char>>, debug_build: bool) -> LinchConfigView {
        LinchConfigView {
            sentry_dsn: dsn,
            sentry_sample_rate: SAMPLE_RATE_ALL,
            enable_devtools: debug_build,
        }
    }
}

impl LinchConfig {
    /// Create a new config with defaults: no DSN, every report sampled,
    /// devtools on.
    pub fn new() -> (config: Self)
        ensures
            config@ == (LinchConfigView {
                sentry_dsn: None,
                sentry_sample_rate: SAMPLE_RATE_ALL,
                enable_devtools: true,
            }),
    {
        LinchConfig { sentry_dsn: None, sentry_sample_rate: SAMPLE_RATE_ALL, enable_devtools: true }
    }

    /// Set Sentry DSN. Any string is taken, the empty one too.
    pub fn sentry_dsn(self, dsn: &str) -> (config: Self)
        ensures
            config@ == (LinchConfigView { sentry_dsn: Some(dsn@), ..self@ }),
    {
        LinchConfig {
            sentry_dsn: Some(dsn.to_owned()),
            sentry_sample_rate: self.sentry_sample_rate,
            enable_devtools: self.enable_devtools,
        }
    }

    /// Set Sentry sample rate, given by the bits of a single-precision float.
    /// Every bit pattern is taken as it is: a rate outside `0.0..=1.0` is the
    /// caller's to avoid.
    pub fn sentry_sample_rate(self, rate: u32) -> (config: Self)
        ensures
            config@ == (LinchConfigView { sentry_sample_rate: rate, ..self@ }),
    {
        LinchConfig {
            sentry_dsn: self.sentry_dsn,
            sentry_sample_rate: rate,
            enable_devtools: self.enable_devtools,
        }
    }

    /// Enable/disable devtools.
    pub fn enable_devtools(self, enable: bool) -> (config: Self)
        ensures
            config@ == (LinchConfigView { enable_devtools: enable, ..self@ }),
    {
        LinchConfig {
            sentry_dsn: self.sentry_dsn,
            sentry_sample_rate: self.sentry_sample_rate,
            enable_devtools: enable,
        }
    }

    /// Create config from what the build's environment holds: `dsn` is the
    /// DSN found there, if any, and `debug_build` tells a debug build from a
    /// release build.
    pub fn from_env(dsn: Option<&str>, debug_build: bool) -> (config: Self)
        ensures
            config@ == LinchConfigView::from_env(dsn_view(dsn), debug_build),
    {
        LinchConfig {
            sentry_dsn: match dsn {
                Some(dsn) => Some(dsn.to_owned()),
                None => None,
            },
            sentry_sample_rate: SAMPLE_RATE_ALL,
            enable_devtools: debug_build,
        }
    }
}

impl Default for LinchConfig {
    /// The all-zero configuration: no DSN, no report sampled, devtools off.
    fn default() -> (config: Self)
        ensures
            config@ == (LinchConfigView {
                sentry_dsn: None,
                sentry_sample_rate: SAMPLE_RATE_NONE,
                enable_devtools: false,
            }),
    {
        LinchConfig { sentry_dsn: None, sentry_sample_rate: SAMPLE_RATE_NONE, enable_devtools: false }
    }
}

impl Clone for LinchConfig {
    fn clone(&self) -> (config: Self)
        ensures
            config == *self,
    {
        LinchConfig {
            sentry_dsn: match &self.sentry_dsn {
                Some(dsn) => Some(dsn.clone()),
                None => None,
            },
            sentry_sample_rate: self.sentry_sample_rate,
            enable_devtools: self.enable_devtools,
        }
    }
}

} // verus!
