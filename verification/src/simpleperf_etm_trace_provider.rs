//! The provider backed by ARM Coresight ETM, recorded with simpleperf.

use crate::artifact::{
    add_extension, dotless, file_name_at, join_path, joined, lemma_extension_added,
    lemma_stamped_name_embeds_tag, stamped_name, with_extension, DirEntry, DirEntryView,
};
use crate::processing::{
    conversion_of, is_trace, plan_conversions, planned, Converter, ConversionView, ProcessRun,
};
use crate::timespan::TimeSpan;
use crate::trace_provider::{
    trace_file_at, Capture, RecordScope, TraceProvider, TraceRequest,
    TraceRequestView,
};
use vstd::prelude::*;
use vstd::string::*;

verus! {

/// The extension of ETM traces.
pub const ETM_TRACEFILE_EXTENSION: &'static str = "etmtrace";

/// The extension of the profiles made from ETM traces.
pub const ETM_PROFILE_EXTENSION: &'static str = "data";

/// How long to wait for the device to report ETM support, in milliseconds.
pub const WAIT_ETM_SUPPORT_TIMEOUT_MS: u64 = 10000;

/// How long to wait between two checks for ETM support, in milliseconds.
pub const WAIT_ETM_SUPPORT_CHECK_PERIOD_MS: u64 = 100;

/// What follows from one check for ETM support.
#[derive(Clone, Copy, Debug, PartialEq, Eq, Structural)]
pub enum SupportCheck {
    /// The device supports ETM.
    Supported,
    /// The window has passed without support being reported.
    Unsupported,
    /// Check again after waiting this many milliseconds.
    CheckAgain { after_ms: u64 },
}

/// What follows from a check that found the device `ready` or not after
/// `waited_ms` milliseconds of waiting.
pub open spec fn support_check(ready: bool, waited_ms: nat) -> SupportCheck {
    if ready {
        SupportCheck::Supported
    } else if waited_ms >= WAIT_ETM_SUPPORT_TIMEOUT_MS {
        SupportCheck::Unsupported
    } else {
        SupportCheck::CheckAgain { after_ms: WAIT_ETM_SUPPORT_CHECK_PERIOD_MS }
    }
}

/// The number of checks after which the window has passed.
pub open spec fn checks_in_window() -> nat {
    (WAIT_ETM_SUPPORT_TIMEOUT_MS / WAIT_ETM_SUPPORT_CHECK_PERIOD_MS) as nat
}

/// The wait for ETM support is bounded: a check made after the waits that
/// earlier checks asked for never asks for a further wait once the window's
/// number of checks has gone by.
pub proof fn lemma_support_window_is_bounded(ready: bool, checks_before: nat)
    requires
        checks_before >= checks_in_window(),
    ensures
        support_check(ready, checks_before * (WAIT_ETM_SUPPORT_CHECK_PERIOD_MS as nat))
            != (SupportCheck::CheckAgain { after_ms: WAIT_ETM_SUPPORT_CHECK_PERIOD_MS }),
        support_check(ready, checks_before * (WAIT_ETM_SUPPORT_CHECK_PERIOD_MS as nat))
            == (if ready {
            SupportCheck::Supported
        } else {
            SupportCheck::Unsupported
        }),
{
    assert(checks_before * 100 >= 10000) by (nonlinear_arith)
        requires
            checks_before >= 100,
    ;
}

/// A trace recorded on request is found when the trace directory is
/// processed, and its profile keeps its name: the stamp and the tag, with the
/// profile extension in place of the trace extension.
pub proof fn lemma_recorded_trace_is_processed(
    trace_dir: Seq<char>,
    profile_dir: Seq<char>,
    tag: Seq<char>,
    secs: nat,
)
    ensures
        ({
            let name = with_extension(stamped_name(secs, tag), ETM_TRACEFILE_EXTENSION@);
            &&& is_trace(DirEntryView { name, is_file: true }, ETM_TRACEFILE_EXTENSION@)
            &&& conversion_of(name, trace_dir, profile_dir, ETM_PROFILE_EXTENSION@).trace_file
                == trace_file_at(trace_dir, tag, ETM_TRACEFILE_EXTENSION@, secs)
            &&& conversion_of(name, trace_dir, profile_dir, ETM_PROFILE_EXTENSION@).profile_file
                == joined(
                profile_dir,
                with_extension(stamped_name(secs, tag), ETM_PROFILE_EXTENSION@),
            )
        }),
{
    reveal_strlit("etmtrace");
    let ext = ETM_TRACEFILE_EXTENSION@;
    assert(dotless(ext)) by {
        assert(ext.len() == 8);
        assert(ext[0] != '.' && ext[1] != '.' && ext[2] != '.' && ext[3] != '.');
        assert(ext[4] != '.' && ext[5] != '.' && ext[6] != '.' && ext[7] != '.');
    }
    lemma_stamped_name_embeds_tag(secs, tag);
    lemma_extension_added(stamped_name(secs, tag), ext);
}

/// The provider that records ETM traces with simpleperf.
#[derive(Clone, Copy, Debug, PartialEq, Eq, Structural)]
pub struct SimpleperfEtmTraceProvider {}

impl TraceProvider for SimpleperfEtmTraceProvider {
    open spec fn name(&self) -> Seq<char> {
        "simpleperf_etm"@
    }

    open spec fn request_at(
        &self,
        trace_dir: Seq<char>,
        tag: Seq<char>,
        sampling_period: nat,
        secs: nat,
    ) -> TraceRequestView {
        TraceRequestView {
            trace_file: trace_file_at(trace_dir, tag, ETM_TRACEFILE_EXTENSION@, secs),
            sampling_period,
            capture: Capture::Simpleperf { scope: RecordScope::Both },
        }
    }

    open spec fn plan_for(
        &self,
        listing: Seq<DirEntryView>,
        trace_dir: Seq<char>,
        profile_dir: Seq<char>,
    ) -> Seq<ConversionView> {
        planned(listing, trace_dir, profile_dir, ETM_TRACEFILE_EXTENSION@, ETM_PROFILE_EXTENSION@)
    }

    open spec fn converter(&self) -> Converter {
        Converter::Simpleperf
    }

    fn get_name(&self) -> (name: &'static str) {
        "simpleperf_etm"
    }

    fn trace_at(&self, trace_dir: &str, tag: &str, sampling_period: &TimeSpan, secs: u64) -> (request:
        TraceRequest) {
        let name = file_name_at(secs, tag);
        let file = add_extension(name.as_str(), ETM_TRACEFILE_EXTENSION);
        TraceRequest {
            trace_file: join_path(trace_dir, file.as_str()),
            sampling_period: *sampling_period,
            capture: Capture::Simpleperf { scope: RecordScope::Both },
        }
    }

    fn process(
        &self,
        listing: Option<&Vec<DirEntry>>,
        trace_dir: &str,
        profile_dir: &str,
        binary_filter: &str,
    ) -> (run: ProcessRun) {
        match listing {
            Some(entries) => {
                let plan = plan_conversions(
                    entries,
                    trace_dir,
                    profile_dir,
                    ETM_TRACEFILE_EXTENSION,
                    ETM_PROFILE_EXTENSION,
                );
                ProcessRun::new(plan, String::from_str(binary_filter), Converter::Simpleperf)
            },
            None => ProcessRun::unlisted(
                trace_dir,
                String::from_str(binary_filter),
                Converter::Simpleperf,
            ),
        }
    }
}

impl SimpleperfEtmTraceProvider {
    /// Decides what follows from one check for ETM support.
    ///
    /// `ready` is what the device reported just now, `waited_ms` the time
    /// spent waiting since the first check. Support is taken as given the
    /// moment the device reports it, and as absent once the window of
    /// `WAIT_ETM_SUPPORT_TIMEOUT_MS` has passed without it; in between the
    /// caller waits `WAIT_ETM_SUPPORT_CHECK_PERIOD_MS` and checks again.
    pub fn supported(ready: bool, waited_ms: u64) -> (check: SupportCheck)
        ensures
            check == support_check(ready, waited_ms as nat),
    {
        if ready {
            SupportCheck::Supported
        } else if waited_ms >= WAIT_ETM_SUPPORT_TIMEOUT_MS {
            SupportCheck::Unsupported
        } else {
            SupportCheck::CheckAgain { after_ms: WAIT_ETM_SUPPORT_CHECK_PERIOD_MS }
        }
    }
}

} // verus!
