//! The configuration of a collection cycle.

use crate::text::{parse_u64, parse_u64_spec};
use crate::timespan::TimeSpan;
use vstd::prelude::*;
use vstd::string::*;

verus! {

/// Where trace artifacts are written.
pub const TRACE_OUTPUT_DIR: &'static str = "/data/misc/profcollectd/trace/";

/// Where profiles are written.
pub const PROFILE_OUTPUT_DIR: &'static str = "/data/misc/profcollectd/output/";

/// Where the report is written.
pub const REPORT_OUTPUT_DIR: &'static str = "/data/misc/profcollectd/report/";

/// Where the configuration of the last start is kept.
pub const CONFIG_FILE: &'static str = "/data/misc/profcollectd/config.json";

/// The collection interval where the device sets none, in seconds.
pub const DEFAULT_COLLECTION_INTERVAL_SECS: u64 = 600;

/// The sampling period where the device sets none, in milliseconds.
pub const DEFAULT_SAMPLING_PERIOD_MS: u64 = 500;

/// Why a configuration was refused.
#[derive(Clone, Copy, Debug, PartialEq, Eq, Structural)]
pub enum ConfigError {
    /// The collection interval flag is no number of seconds.
    MalformedCollectionInterval,
    /// The sampling period flag is no number of milliseconds.
    MalformedSamplingPeriod,
    /// The collection interval is zero.
    ZeroCollectionInterval,
    /// The sampling period is zero.
    ZeroSamplingPeriod,
    /// The sampling period is longer than the collection interval.
    SamplingOutlastsInterval,
}

/// What a `Config` holds. The two spans are in milliseconds.
pub struct ConfigView {
    pub build_fingerprint: Seq<char>,
    pub collection_interval: nat,
    pub sampling_period: nat,
    pub trace_output_dir: Seq<char>,
    pub profile_output_dir: Seq<char>,
    pub binary_filter: Seq<char>,
}

/// What is wrong with a pair of spans, given in milliseconds, if anything.
pub open spec fn span_fault(collection_interval: nat, sampling_period: nat) -> Option<
    ConfigError,
> {
    if collection_interval == 0 {
        Some(ConfigError::ZeroCollectionInterval)
    } else if sampling_period == 0 {
        Some(ConfigError::ZeroSamplingPeriod)
    } else if sampling_period > collection_interval {
        Some(ConfigError::SamplingOutlastsInterval)
    } else {
        None
    }
}

/// The number a device flag stands for: the default where the flag is not
/// set, the numeral's value where it holds one that fits in 64 bits, and
/// nothing otherwise.
pub open spec fn flag_value(flag: Option<Seq<char>>, default: u64) -> Option<u64> {
    match flag {
        None => Some(default),
        Some(text) => parse_u64_spec(text),
    }
}

/// The configuration that the device flags describe, or why there is none.
pub open spec fn config_from_flags(
    build_fingerprint: Seq<char>,
    collection_interval: Option<Seq<char>>,
    sampling_period: Option<Seq<char>>,
) -> Result<ConfigView, ConfigError> {
    match flag_value(collection_interval, DEFAULT_COLLECTION_INTERVAL_SECS) {
        None => Err(ConfigError::MalformedCollectionInterval),
        Some(secs) => match flag_value(sampling_period, DEFAULT_SAMPLING_PERIOD_MS) {
            None => Err(ConfigError::MalformedSamplingPeriod),
            Some(millis) => match span_fault(secs as nat * 1000, millis as nat) {
                Some(fault) => Err(fault),
                None => Ok(
                    ConfigView {
                        build_fingerprint,
                        collection_interval: secs as nat * 1000,
                        sampling_period: millis as nat,
                        trace_output_dir: TRACE_OUTPUT_DIR@,
                        profile_output_dir: PROFILE_OUTPUT_DIR@,
                        binary_filter: Seq::empty(),
                    },
                ),
            },
        },
    }
}

/// The value of a device flag, as `flag_value` defines it.
///
/// `flag` is the flag's text, or `None` where the device does not set it.
pub fn get_device_config(flag: Option<&str>, default: u64) -> (value: Option<u64>)
    ensures
        value == flag_value(
            match flag {
                Some(text) => Some(text@),
                None => None,
            },
            default,
        ),
{
    match flag {
        None => Some(default),
        Some(text) => parse_u64(text),
    }
}

/// The settings of one collection cycle.
///
/// Both spans are positive and the sampling period is no longer than the
/// collection interval.
#[derive(Debug)]
pub struct Config {
    build_fingerprint: String,
    collection_interval: TimeSpan,
    sampling_period: TimeSpan,
    trace_output_dir: String,
    profile_output_dir: String,
    binary_filter: String,
}

impl View for Config {
    type V = ConfigView;

    closed spec fn view(&self) -> ConfigView {
        ConfigView {
            build_fingerprint: self.build_fingerprint@,
            collection_interval: self.collection_interval@,
            sampling_period: self.sampling_period@,
            trace_output_dir: self.trace_output_dir@,
            profile_output_dir: self.profile_output_dir@,
            binary_filter: self.binary_filter@,
        }
    }
}

impl Config {
    #[verifier::type_invariant]
    spec fn spans_in_order(self) -> bool {
        span_fault(self.collection_interval@, self.sampling_period@) is None
    }

    /// Puts a configuration together, or says what is wrong with its spans.
    pub fn new(
        build_fingerprint: String,
        collection_interval: TimeSpan,
        sampling_period: TimeSpan,
        trace_output_dir: String,
        profile_output_dir: String,
        binary_filter: String,
    ) -> (config: Result<Config, ConfigError>)
        ensures
            match config {
                Ok(c) => span_fault(collection_interval@, sampling_period@) is None && c@ == (
                ConfigView {
                    build_fingerprint: build_fingerprint@,
                    collection_interval: collection_interval@,
                    sampling_period: sampling_period@,
                    trace_output_dir: trace_output_dir@,
                    profile_output_dir: profile_output_dir@,
                    binary_filter: binary_filter@,
                }),
                Err(e) => span_fault(collection_interval@, sampling_period@) == Some(e),
            },
    {
        if collection_interval.is_zero() {
            return Err(ConfigError::ZeroCollectionInterval);
        }
        if sampling_period.is_zero() {
            return Err(ConfigError::ZeroSamplingPeriod);
        }
        if !sampling_period.no_longer_than(&collection_interval) {
            return Err(ConfigError::SamplingOutlastsInterval);
        }
        Ok(
            Config {
                build_fingerprint,
                collection_interval,
                sampling_period,
                trace_output_dir,
                profile_output_dir,
                binary_filter,
            },
        )
    }

    /// The configuration that the device flags describe.
    ///
    /// `collection_interval` is the flag's text in seconds and
    /// `sampling_period` the flag's text in milliseconds, each `None` where
    /// the device does not set it. The directories are the fixed ones and
    /// the binary filter is empty.
    pub fn read_config(
        build_fingerprint: String,
        collection_interval: Option<&str>,
        sampling_period: Option<&str>,
    ) -> (config: Result<Config, ConfigError>)
        ensures
            match config {
                Ok(c) => Ok::<ConfigView, ConfigError>(c@),
                Err(e) => Err(e),
            } == config_from_flags(
                build_fingerprint@,
                match collection_interval {
                    Some(text) => Some(text@),
                    None => None,
                },
                match sampling_period {
                    Some(text) => Some(text@),
                    None => None,
                },
            ),
    {
        let secs = match get_device_config(collection_interval, DEFAULT_COLLECTION_INTERVAL_SECS) {
            Some(secs) => secs,
            None => {
                return Err(ConfigError::MalformedCollectionInterval);
            },
        };
        let millis = match get_device_config(sampling_period, DEFAULT_SAMPLING_PERIOD_MS) {
            Some(millis) => millis,
            None => {
                return Err(ConfigError::MalformedSamplingPeriod);
            },
        };
        Config::new(
            build_fingerprint,
            TimeSpan::from_secs(secs),
            TimeSpan::from_millis(millis),
            String::from_str(TRACE_OUTPUT_DIR),
            String::from_str(PROFILE_OUTPUT_DIR),
            String::new(),
        )
    }

    /// The identifier of the build the configuration was made on.
    pub fn build_fingerprint(&self) -> (text: &str)
        ensures
            text@ == self@.build_fingerprint,
    {
        self.build_fingerprint.as_str()
    }

    /// The time between two periodic captures.
    pub fn collection_interval(&self) -> (span: TimeSpan)
        ensures
            span@ == self@.collection_interval,
            span@ > 0,
    {
        proof {
            use_type_invariant(self);
        }
        self.collection_interval
    }

    /// The time one capture samples for.
    pub fn sampling_period(&self) -> (span: TimeSpan)
        ensures
            span@ == self@.sampling_period,
            0 < span@ <= self@.collection_interval,
    {
        proof {
            use_type_invariant(self);
        }
        self.sampling_period
    }

    /// The directory trace artifacts are written to.
    pub fn trace_output_dir(&self) -> (dir: &str)
        ensures
            dir@ == self@.trace_output_dir,
    {
        self.trace_output_dir.as_str()
    }

    /// The directory profiles are written to.
    pub fn profile_output_dir(&self) -> (dir: &str)
        ensures
            dir@ == self@.profile_output_dir,
    {
        self.profile_output_dir.as_str()
    }

    /// The filter on binaries that conversions apply.
    pub fn binary_filter(&self) -> (filter: &str)
        ensures
            filter@ == self@.binary_filter,
    {
        self.binary_filter.as_str()
    }
}

impl PartialEq for Config {
    fn eq(&self, other: &Config) -> (same: bool) {
        self.build_fingerprint == other.build_fingerprint
            && self.collection_interval.same_length(&other.collection_interval)
            && self.sampling_period.same_length(&other.sampling_period)
            && self.trace_output_dir == other.trace_output_dir
            && self.profile_output_dir == other.profile_output_dir
            && self.binary_filter == other.binary_filter
    }
}

impl vstd::std_specs::cmp::PartialEqSpecImpl for Config {
    open spec fn obeys_eq_spec() -> bool {
        true
    }

    open spec fn eq_spec(&self, other: &Config) -> bool {
        self@ == other@
    }
}

impl Clone for Config {
    fn clone(&self) -> (copy: Config)
        ensures
            copy@ == self@,
    {
        proof {
            use_type_invariant(self);
        }
        Config {
            build_fingerprint: self.build_fingerprint.clone(),
            collection_interval: self.collection_interval,
            sampling_period: self.sampling_period,
            trace_output_dir: self.trace_output_dir.clone(),
            profile_output_dir: self.profile_output_dir.clone(),
            binary_filter: self.binary_filter.clone(),
        }
    }
}

} // verus!
