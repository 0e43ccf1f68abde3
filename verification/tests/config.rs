use linch_desktop_core::{LinchConfig, SAMPLE_RATE_ALL, SAMPLE_RATE_NONE};

#[test]
fn sample_rate_constants_are_the_bits_of_one_and_zero() {
    assert_eq!(SAMPLE_RATE_ALL, 1.0f32.to_bits());
    assert_eq!(SAMPLE_RATE_NONE, 0.0f32.to_bits());
    assert_eq!(f32::from_bits(SAMPLE_RATE_ALL), 1.0);
    assert_eq!(f32::from_bits(SAMPLE_RATE_NONE), 0.0);
}

#[test]
fn new_has_no_dsn_samples_everything_and_enables_devtools() {
    let config = LinchConfig::new();
    assert_eq!(config.sentry_dsn, None);
    assert_eq!(f32::from_bits(config.sentry_sample_rate), 1.0);
    assert!(config.enable_devtools);
}

#[test]
fn default_is_all_zero() {
    let config = LinchConfig::default();
    assert_eq!(config.sentry_dsn, None);
    assert_eq!(f32::from_bits(config.sentry_sample_rate), 0.0);
    assert!(!config.enable_devtools);
}

#[test]
fn sentry_dsn_sets_the_dsn_and_nothing_else() {
    let config = LinchConfig::new().sentry_dsn("https://key@example.invalid/42");
    assert_eq!(config.sentry_dsn.as_deref(), Some("https://key@example.invalid/42"));
    assert_eq!(config.sentry_sample_rate, SAMPLE_RATE_ALL);
    assert!(config.enable_devtools);
}

#[test]
fn sentry_dsn_takes_the_empty_string() {
    let config = LinchConfig::new().sentry_dsn("");
    assert_eq!(config.sentry_dsn, Some(String::new()));
}

#[test]
fn sentry_dsn_replaces_an_earlier_dsn() {
    let config = LinchConfig::new().sentry_dsn("first").sentry_dsn("second");
    assert_eq!(config.sentry_dsn.as_deref(), Some("second"));
}

#[test]
fn sentry_sample_rate_sets_the_rate_and_nothing_else() {
    let config = LinchConfig::new().sentry_dsn("dsn").sentry_sample_rate(0.25f32.to_bits());
    assert_eq!(f32::from_bits(config.sentry_sample_rate), 0.25);
    assert_eq!(config.sentry_dsn.as_deref(), Some("dsn"));
    assert!(config.enable_devtools);
}

#[test]
fn sentry_sample_rate_takes_rates_outside_the_unit_interval() {
    for rate in [1.5f32, -0.5, 100.0, f32::INFINITY, f32::MIN] {
        let config = LinchConfig::new().sentry_sample_rate(rate.to_bits());
        assert_eq!(config.sentry_sample_rate, rate.to_bits());
        assert_eq!(f32::from_bits(config.sentry_sample_rate), rate);
    }
    let config = LinchConfig::new().sentry_sample_rate(f32::NAN.to_bits());
    assert_eq!(config.sentry_sample_rate, f32::NAN.to_bits());
    assert_eq!(LinchConfig::new().sentry_sample_rate(u32::MAX).sentry_sample_rate, u32::MAX);
}

#[test]
fn enable_devtools_sets_the_flag_and_nothing_else() {
    let config = LinchConfig::new().sentry_dsn("dsn").enable_devtools(false);
    assert!(!config.enable_devtools);
    assert_eq!(config.sentry_dsn.as_deref(), Some("dsn"));
    assert_eq!(config.sentry_sample_rate, SAMPLE_RATE_ALL);
    assert!(config.enable_devtools(true).enable_devtools);
}

#[test]
fn from_env_without_dsn_in_a_debug_build() {
    let config = LinchConfig::from_env(None, true);
    assert_eq!(config.sentry_dsn, None);
    assert_eq!(f32::from_bits(config.sentry_sample_rate), 1.0);
    assert!(config.enable_devtools);
    assert_eq!(
        config,
        LinchConfig { sentry_dsn: None, sentry_sample_rate: 1.0f32.to_bits(), enable_devtools: true }
    );
}

#[test]
fn from_env_without_dsn_in_a_release_build() {
    let config = LinchConfig::from_env(None, false);
    assert_eq!(config.sentry_dsn, None);
    assert_eq!(f32::from_bits(config.sentry_sample_rate), 1.0);
    assert!(!config.enable_devtools);
}

#[test]
fn from_env_with_dsn() {
    let debug = LinchConfig::from_env(Some("https://key@example.invalid/1"), true);
    assert_eq!(debug.sentry_dsn.as_deref(), Some("https://key@example.invalid/1"));
    assert_eq!(f32::from_bits(debug.sentry_sample_rate), 1.0);
    assert!(debug.enable_devtools);

    let release = LinchConfig::from_env(Some("https://key@example.invalid/1"), false);
    assert_eq!(release.sentry_dsn.as_deref(), Some("https://key@example.invalid/1"));
    assert_eq!(f32::from_bits(release.sentry_sample_rate), 1.0);
    assert!(!release.enable_devtools);
}

#[test]
fn from_env_keeps_an_empty_dsn_as_it_is() {
    let config = LinchConfig::from_env(Some(""), false);
    assert_eq!(config.sentry_dsn, Some(String::new()));
}

#[test]
fn clone_is_equal_to_its_source() {
    let config = LinchConfig::new()
        .sentry_dsn("https://key@example.invalid/7")
        .sentry_sample_rate(0.5f32.to_bits())
        .enable_devtools(false);
    let copy = config.clone();
    assert_eq!(copy, config);
    assert_eq!(LinchConfig::new().clone(), LinchConfig::new());
}
