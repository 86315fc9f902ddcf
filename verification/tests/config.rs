use profcollectd::config::{
    get_device_config, Config, ConfigError, CONFIG_FILE, DEFAULT_COLLECTION_INTERVAL_SECS,
    DEFAULT_SAMPLING_PERIOD_MS, PROFILE_OUTPUT_DIR, REPORT_OUTPUT_DIR, TRACE_OUTPUT_DIR,
};
use profcollectd::timespan::TimeSpan;

fn sample(interval_secs: u64, period_ms: u64) -> Config {
    Config::new(
        String::from("build/1"),
        TimeSpan::from_secs(interval_secs),
        TimeSpan::from_millis(period_ms),
        String::from("/t/"),
        String::from("/p/"),
        String::from("filter"),
    )
    .unwrap()
}

#[test]
fn defaults_apply_where_no_flag_is_set() {
    let config = Config::read_config(String::new(), None, None).unwrap();
    assert_eq!(config.collection_interval(), TimeSpan::from_secs(600));
    assert_eq!(config.sampling_period(), TimeSpan::from_millis(500));
    assert_eq!(config.trace_output_dir(), "/data/misc/profcollectd/trace/");
    assert_eq!(config.profile_output_dir(), "/data/misc/profcollectd/output/");
    assert_eq!(config.binary_filter(), "");
    assert_eq!(config.build_fingerprint(), "");
}

#[test]
fn default_values_are_ten_minutes_and_half_a_second() {
    assert_eq!(DEFAULT_COLLECTION_INTERVAL_SECS, 600);
    assert_eq!(DEFAULT_SAMPLING_PERIOD_MS, 500);
}

#[test]
fn fixed_paths() {
    assert_eq!(TRACE_OUTPUT_DIR, "/data/misc/profcollectd/trace/");
    assert_eq!(PROFILE_OUTPUT_DIR, "/data/misc/profcollectd/output/");
    assert_eq!(REPORT_OUTPUT_DIR, "/data/misc/profcollectd/report/");
    assert_eq!(CONFIG_FILE, "/data/misc/profcollectd/config.json");
}

#[test]
fn flags_are_read_in_seconds_and_milliseconds() {
    let config = Config::read_config(String::from("fp"), Some("10"), Some("100")).unwrap();
    assert_eq!(config.collection_interval().as_millis(), 10_000);
    assert_eq!(config.sampling_period().as_millis(), 100);
    assert_eq!(config.build_fingerprint(), "fp");
}

#[test]
fn one_flag_may_be_set_without_the_other() {
    let config = Config::read_config(String::new(), Some("1"), None).unwrap();
    assert_eq!(config.collection_interval().as_millis(), 1000);
    assert_eq!(config.sampling_period().as_millis(), 500);
    let config = Config::read_config(String::new(), None, Some("250")).unwrap();
    assert_eq!(config.collection_interval().as_millis(), 600_000);
    assert_eq!(config.sampling_period().as_millis(), 250);
}

#[test]
fn a_malformed_interval_is_refused() {
    assert_eq!(
        Config::read_config(String::new(), Some("ten"), Some("100")).err(),
        Some(ConfigError::MalformedCollectionInterval)
    );
    assert_eq!(
        Config::read_config(String::new(), Some(""), None).err(),
        Some(ConfigError::MalformedCollectionInterval)
    );
}

#[test]
fn a_malformed_period_is_refused() {
    assert_eq!(
        Config::read_config(String::new(), Some("10"), Some("1e3")).err(),
        Some(ConfigError::MalformedSamplingPeriod)
    );
}

#[test]
fn a_malformed_interval_is_named_before_a_malformed_period() {
    assert_eq!(
        Config::read_config(String::new(), Some("x"), Some("y")).err(),
        Some(ConfigError::MalformedCollectionInterval)
    );
}

#[test]
fn a_zero_interval_is_refused() {
    assert_eq!(
        Config::read_config(String::new(), Some("0"), Some("100")).err(),
        Some(ConfigError::ZeroCollectionInterval)
    );
}

#[test]
fn a_zero_period_is_refused() {
    assert_eq!(
        Config::read_config(String::new(), Some("10"), Some("0")).err(),
        Some(ConfigError::ZeroSamplingPeriod)
    );
}

#[test]
fn a_period_longer_than_the_interval_is_refused() {
    assert_eq!(
        Config::read_config(String::new(), Some("1"), Some("1001")).err(),
        Some(ConfigError::SamplingOutlastsInterval)
    );
}

#[test]
fn a_period_as_long_as_the_interval_is_accepted() {
    let config = Config::read_config(String::new(), Some("1"), Some("1000")).unwrap();
    assert_eq!(config.sampling_period().as_millis(), 1000);
    assert_eq!(config.collection_interval().as_millis(), 1000);
}

#[test]
fn the_largest_interval_is_accepted() {
    let config =
        Config::read_config(String::new(), Some("18446744073709551615"), Some("500")).unwrap();
    assert_eq!(config.collection_interval().as_millis(), (u64::MAX as u128) * 1000);
    assert_eq!(
        Config::read_config(String::new(), Some("18446744073709551616"), Some("500")).err(),
        Some(ConfigError::MalformedCollectionInterval)
    );
}

#[test]
fn new_checks_the_spans() {
    let make = |interval: TimeSpan, period: TimeSpan| {
        Config::new(
            String::new(),
            interval,
            period,
            String::from("/t"),
            String::from("/p"),
            String::new(),
        )
    };
    assert_eq!(
        make(TimeSpan::from_secs(0), TimeSpan::from_millis(1)).err(),
        Some(ConfigError::ZeroCollectionInterval)
    );
    assert_eq!(
        make(TimeSpan::from_secs(0), TimeSpan::from_millis(0)).err(),
        Some(ConfigError::ZeroCollectionInterval)
    );
    assert_eq!(
        make(TimeSpan::from_secs(1), TimeSpan::from_millis(0)).err(),
        Some(ConfigError::ZeroSamplingPeriod)
    );
    assert_eq!(
        make(TimeSpan::from_millis(100), TimeSpan::from_millis(101)).err(),
        Some(ConfigError::SamplingOutlastsInterval)
    );
    assert!(make(TimeSpan::from_millis(100), TimeSpan::from_millis(100)).is_ok());
}

#[test]
fn new_keeps_what_it_is_given() {
    let config = sample(7, 300);
    assert_eq!(config.build_fingerprint(), "build/1");
    assert_eq!(config.collection_interval(), TimeSpan::from_secs(7));
    assert_eq!(config.sampling_period(), TimeSpan::from_millis(300));
    assert_eq!(config.trace_output_dir(), "/t/");
    assert_eq!(config.profile_output_dir(), "/p/");
    assert_eq!(config.binary_filter(), "filter");
}

#[test]
fn configurations_compare_by_value() {
    assert!(sample(7, 300) == sample(7, 300));
    assert!(sample(7, 300) != sample(8, 300));
    assert!(sample(7, 300) != sample(7, 301));
    let other_dir = Config::new(
        String::from("build/1"),
        TimeSpan::from_secs(7),
        TimeSpan::from_millis(300),
        String::from("/t/"),
        String::from("/q/"),
        String::from("filter"),
    )
    .unwrap();
    assert!(sample(7, 300) != other_dir);
}

#[test]
fn a_clone_is_equal_to_its_original() {
    let config = sample(7, 300);
    assert!(config.clone() == config);
}

#[test]
fn device_flag_falls_back_to_the_default() {
    assert_eq!(get_device_config(None, 600), Some(600));
    assert_eq!(get_device_config(Some("30"), 600), Some(30));
    assert_eq!(get_device_config(Some("thirty"), 600), None);
}
