use profcollectd::artifact::DirEntry;
use profcollectd::dummy_trace_provider::{
    DummyTraceProvider, DUMMY_PROFILE_EXTENSION, DUMMY_TRACEFILE_EXTENSION,
};
use profcollectd::processing::{Converter, ProcessAction, ProcessError};
use profcollectd::simpleperf_etm_trace_provider::{
    SimpleperfEtmTraceProvider, SupportCheck, ETM_PROFILE_EXTENSION, ETM_TRACEFILE_EXTENSION,
    WAIT_ETM_SUPPORT_CHECK_PERIOD_MS, WAIT_ETM_SUPPORT_TIMEOUT_MS,
};
use profcollectd::text::parse_u64;
use profcollectd::timespan::TimeSpan;
use profcollectd::trace_provider::{
    construct_file_name, current_stamp, get_trace_provider, stamp_of, Capture, InitError,
    Provider, RecordScope, TraceProvider,
};

fn file(name: &str) -> DirEntry {
    DirEntry { name: String::from(name), is_file: true }
}

#[test]
fn hardware_support_selects_the_etm_provider() {
    let provider = get_trace_provider(true, false).unwrap();
    assert_eq!(provider, Provider::SimpleperfEtm(SimpleperfEtmTraceProvider {}));
    assert_eq!(provider.get_name(), "simpleperf_etm");
}

#[test]
fn hardware_support_wins_over_the_fallback() {
    let provider = get_trace_provider(true, true).unwrap();
    assert_eq!(provider.get_name(), "simpleperf_etm");
}

#[test]
fn the_fallback_is_selected_without_hardware_support() {
    let provider = get_trace_provider(false, true).unwrap();
    assert_eq!(provider, Provider::Dummy(DummyTraceProvider {}));
    assert_eq!(provider.get_name(), "dummy");
}

#[test]
fn no_provider_without_support_and_without_fallback() {
    assert_eq!(get_trace_provider(false, false), Err(InitError {}));
    assert_eq!(InitError {}.message(), "No trace provider available for this device.");
}

#[test]
fn provider_names() {
    assert_eq!(SimpleperfEtmTraceProvider {}.get_name(), "simpleperf_etm");
    assert_eq!(DummyTraceProvider {}.get_name(), "dummy");
}

#[test]
fn extensions() {
    assert_eq!(ETM_TRACEFILE_EXTENSION, "etmtrace");
    assert_eq!(ETM_PROFILE_EXTENSION, "data");
    assert_eq!(DUMMY_TRACEFILE_EXTENSION, "dummytrace");
    assert_eq!(DUMMY_PROFILE_EXTENSION, "dummyprofile");
}

#[test]
fn the_dummy_is_always_supported() {
    assert!(DummyTraceProvider::supported());
}

#[test]
fn etm_support_is_given_as_soon_as_reported() {
    assert_eq!(SimpleperfEtmTraceProvider::supported(true, 0), SupportCheck::Supported);
    assert_eq!(SimpleperfEtmTraceProvider::supported(true, 5000), SupportCheck::Supported);
    assert_eq!(SimpleperfEtmTraceProvider::supported(true, 10000), SupportCheck::Supported);
    assert_eq!(SimpleperfEtmTraceProvider::supported(true, u64::MAX), SupportCheck::Supported);
}

#[test]
fn etm_support_is_checked_again_within_the_window() {
    assert_eq!(
        SimpleperfEtmTraceProvider::supported(false, 0),
        SupportCheck::CheckAgain { after_ms: 100 }
    );
    assert_eq!(
        SimpleperfEtmTraceProvider::supported(false, 9999),
        SupportCheck::CheckAgain { after_ms: 100 }
    );
}

#[test]
fn etm_support_is_given_up_after_the_window() {
    assert_eq!(SimpleperfEtmTraceProvider::supported(false, 10000), SupportCheck::Unsupported);
    assert_eq!(SimpleperfEtmTraceProvider::supported(false, 10001), SupportCheck::Unsupported);
    assert_eq!(SimpleperfEtmTraceProvider::supported(false, u64::MAX), SupportCheck::Unsupported);
}

#[test]
fn support_window_constants() {
    assert_eq!(WAIT_ETM_SUPPORT_TIMEOUT_MS, 10_000);
    assert_eq!(WAIT_ETM_SUPPORT_CHECK_PERIOD_MS, 100);
}

#[test]
fn a_device_that_never_reports_support_is_checked_101_times() {
    let mut waited: u64 = 0;
    let mut checks: u32 = 0;
    let verdict = loop {
        checks += 1;
        match SimpleperfEtmTraceProvider::supported(false, waited) {
            SupportCheck::CheckAgain { after_ms } => waited += after_ms,
            other => break other,
        }
    };
    assert_eq!(verdict, SupportCheck::Unsupported);
    assert_eq!(checks, 101);
    assert_eq!(waited, 10_000);
}

#[test]
fn a_device_that_reports_support_late_is_still_supported() {
    let mut waited: u64 = 0;
    let mut checks: u32 = 0;
    let verdict = loop {
        checks += 1;
        match SimpleperfEtmTraceProvider::supported(checks == 100, waited) {
            SupportCheck::CheckAgain { after_ms } => waited += after_ms,
            other => break other,
        }
    };
    assert_eq!(verdict, SupportCheck::Supported);
    assert_eq!(waited, 9900);
}

#[test]
fn etm_trace_request_at_a_given_second() {
    let request = SimpleperfEtmTraceProvider {}.trace_at(
        "/data/misc/profcollectd/trace/",
        "manual",
        &TimeSpan::from_millis(500),
        1700000000,
    );
    assert_eq!(request.trace_file, "/data/misc/profcollectd/trace/1700000000_manual.etmtrace");
    assert_eq!(request.sampling_period, TimeSpan::from_millis(500));
    assert_eq!(request.capture, Capture::Simpleperf { scope: RecordScope::Both });
}

#[test]
fn dummy_trace_request_at_a_given_second() {
    let request =
        DummyTraceProvider {}.trace_at("/tmp/trace", "boot", &TimeSpan::from_secs(1), 42);
    assert_eq!(request.trace_file, "/tmp/trace/42_boot.dummytrace");
    assert_eq!(request.sampling_period, TimeSpan::from_secs(1));
    assert_eq!(request.capture, Capture::Placeholder);
}

#[test]
fn a_tag_with_a_dot_stays_whole_in_the_name() {
    let request =
        SimpleperfEtmTraceProvider {}.trace_at("/t", "v1.2", &TimeSpan::from_millis(1), 7);
    assert_eq!(request.trace_file, "/t/7_v1.2.etmtrace");
}

#[test]
fn the_selected_provider_asks_as_its_kind_does() {
    let etm = Provider::SimpleperfEtm(SimpleperfEtmTraceProvider {});
    let dummy = Provider::Dummy(DummyTraceProvider {});
    let period = TimeSpan::from_millis(500);
    assert_eq!(
        etm.trace_at("/t/", "x", &period, 9),
        SimpleperfEtmTraceProvider {}.trace_at("/t/", "x", &period, 9)
    );
    assert_eq!(
        dummy.trace_at("/t/", "x", &period, 9),
        DummyTraceProvider {}.trace_at("/t/", "x", &period, 9)
    );
}

#[test]
fn a_trace_requested_now_is_stamped_with_the_clock() {
    let before = current_stamp();
    let request =
        SimpleperfEtmTraceProvider {}.trace("/t/", "manual", &TimeSpan::from_millis(500));
    let after = current_stamp();
    assert!(request.trace_file.starts_with("/t/"));
    assert!(request.trace_file.ends_with("_manual.etmtrace"));
    let stamp = &request.trace_file["/t/".len()..request.trace_file.len() - "_manual.etmtrace".len()];
    let secs = parse_u64(stamp).unwrap();
    assert!(before <= secs && secs <= after);
    assert_eq!(request.capture, Capture::Simpleperf { scope: RecordScope::Both });
}

#[test]
fn a_file_name_constructed_now_ends_in_the_tag() {
    let before = current_stamp();
    let name = construct_file_name("boot");
    let after = current_stamp();
    assert!(name.ends_with("_boot"));
    let secs = parse_u64(&name[..name.len() - "_boot".len()]).unwrap();
    assert!(before <= secs && secs <= after);
}

#[test]
fn the_clock_is_past_the_year_2020() {
    assert!(current_stamp() > 1_577_836_800);
}

#[test]
fn the_dummy_plans_its_own_traces() {
    let listing = vec![file("2_b.etmtrace"), file("1_a.dummytrace"), file("3_c.dummyprofile")];
    let run = DummyTraceProvider {}.process(Some(&listing), "/t/", "/p/", "");
    assert_eq!(
        run.next_action(),
        ProcessAction::Convert {
            trace_file: String::from("/t/1_a.dummytrace"),
            profile_file: String::from("/p/1_a.dummyprofile"),
            binary_filter: String::new(),
            converter: Converter::Copy,
        }
    );
}

#[test]
fn the_dummy_has_nothing_to_do_in_an_empty_directory() {
    let run = DummyTraceProvider {}.process(Some(&vec![]), "/t/", "/p/", "");
    assert!(run.is_finished());
    assert_eq!(run.next_action(), ProcessAction::Finish { failure: None });
}

#[test]
fn a_trace_directory_that_cannot_be_listed_gives_a_failed_run() {
    let failure = Some(ProcessError::Unlisted { trace_dir: String::from("/t/") });
    let etm = SimpleperfEtmTraceProvider {}.process(None, "/t/", "/p/", "bin");
    assert!(etm.is_finished());
    assert_eq!(etm.next_action(), ProcessAction::Finish { failure: failure.clone() });
    let dummy = DummyTraceProvider {}.process(None, "/t/", "/p/", "");
    assert!(dummy.is_finished());
    assert_eq!(dummy.next_action(), ProcessAction::Finish { failure });
}

#[test]
fn a_trace_requested_from_the_dummy_is_found_by_processing() {
    let provider = DummyTraceProvider {};
    let request = provider.trace_at("/t/", "boot", &TimeSpan::from_millis(500), 42);
    assert_eq!(request.capture, Capture::Placeholder);
    let name = request.trace_file.strip_prefix("/t/").unwrap();
    let run = provider.process(Some(&vec![file(name)]), "/t/", "/p/", "");
    assert_eq!(
        run.next_action(),
        ProcessAction::Convert {
            trace_file: String::from("/t/42_boot.dummytrace"),
            profile_file: String::from("/p/42_boot.dummyprofile"),
            binary_filter: String::new(),
            converter: Converter::Copy,
        }
    );
}

#[test]
fn the_etm_provider_plans_its_own_traces() {
    let listing = vec![file("1_a.dummytrace"), file("2_b.etmtrace"), file("3_c.data")];
    let run = SimpleperfEtmTraceProvider {}.process(Some(&listing), "/t/", "/p/", "bin");
    assert_eq!(
        run.next_action(),
        ProcessAction::Convert {
            trace_file: String::from("/t/2_b.etmtrace"),
            profile_file: String::from("/p/2_b.data"),
            binary_filter: String::from("bin"),
            converter: Converter::Simpleperf,
        }
    );
}

#[test]
fn a_requested_trace_is_found_by_processing() {
    let provider = SimpleperfEtmTraceProvider {};
    let request = provider.trace_at("/t/", "manual", &TimeSpan::from_millis(500), 1700000000);
    let name = request.trace_file.strip_prefix("/t/").unwrap();
    let run = provider.process(Some(&vec![file(name)]), "/t/", "/p/", "");
    assert_eq!(
        run.next_action(),
        ProcessAction::Convert {
            trace_file: request.trace_file.clone(),
            profile_file: String::from("/p/1700000000_manual.data"),
            binary_filter: String::new(),
            converter: Converter::Simpleperf,
        }
    );
}

#[test]
fn a_reading_of_the_clock_is_the_stamp() {
    assert_eq!(stamp_of(Some(1700000000)), 1700000000);
    assert_eq!(stamp_of(Some(0)), 0);
    assert_eq!(stamp_of(Some(u64::MAX)), u64::MAX);
}

#[test]
fn a_clock_before_the_epoch_stamps_zero() {
    assert_eq!(stamp_of(None), 0);
}
