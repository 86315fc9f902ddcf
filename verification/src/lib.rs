//! Collection scheduling for on-device profile traces.

pub mod artifact;
pub mod config;
pub mod dummy_trace_provider;
pub mod processing;
pub mod report;
pub mod scheduler;
pub mod service;
pub mod simpleperf_etm_trace_provider;
pub mod text;
pub mod timespan;
pub mod trace_provider;
pub mod tracing_subscriber;
