//! The interface of a trace provider, and the choice of one.

use crate::artifact::{file_name_at, joined, stamped_name, with_extension, DirEntry, DirEntryView};
use crate::dummy_trace_provider::{DummyTraceProvider, DUMMY_TRACEFILE_EXTENSION};
use crate::processing::{entry_views, Converter, ConversionView, ProcessRun, ProcessRunView};
use crate::simpleperf_etm_trace_provider::{SimpleperfEtmTraceProvider, ETM_TRACEFILE_EXTENSION};
use crate::text::decimal;
use crate::timespan::TimeSpan;
use vstd::prelude::*;

verus! {

/// Which side of the system a recording covers.
#[derive(Clone, Copy, Debug, PartialEq, Eq, Structural)]
pub enum RecordScope {
    Userspace,
    Kernel,
    Both,
}

/// How a trace request is to be carried out. Either way the caller leaves
/// one new artifact behind: the file that the request names.
#[derive(Clone, Copy, Debug, PartialEq, Eq, Structural)]
pub enum Capture {
    /// Record with simpleperf over the given scope.
    Simpleperf { scope: RecordScope },
    /// Create the artifact, empty: there is nothing to record.
    Placeholder,
}

/// A capture to perform: where the artifact goes, for how long to sample, and how.
#[derive(Clone, Debug, PartialEq, Eq)]
pub struct TraceRequest {
    pub trace_file: String,
    pub sampling_period: TimeSpan,
    pub capture: Capture,
}

/// What a `TraceRequest` holds.
pub struct TraceRequestView {
    pub trace_file: Seq<char>,
    pub sampling_period: nat,
    pub capture: Capture,
}

impl View for TraceRequest {
    type V = TraceRequestView;

    open spec fn view(&self) -> TraceRequestView {
        TraceRequestView {
            trace_file: self.trace_file@,
            sampling_period: self.sampling_period@,
            capture: self.capture,
        }
    }
}

/// The path of the artifact asked for at second `secs` under `tag`: in
/// `trace_dir`, named by the second and the tag, with the extension `ext`.
pub open spec fn trace_file_at(
    trace_dir: Seq<char>,
    tag: Seq<char>,
    ext: Seq<char>,
    secs: nat,
) -> Seq<char> {
    joined(trace_dir, with_extension(stamped_name(secs, tag), ext))
}

/// No trace provider is available on this device.
#[derive(Clone, Copy, Debug, PartialEq, Eq, Structural)]
pub struct InitError {}

impl InitError {
    /// The error in words.
    pub fn message(&self) -> (text: &'static str)
        ensures
            text@ == "No trace provider available for this device."@,
    {
        "No trace provider available for this device."
    }
}

/// A way of capturing traces and of turning them into profiles.
pub trait TraceProvider {
    /// The provider's name.
    spec fn name(&self) -> Seq<char>;

    /// The request made for `tag` at second `secs`.
    spec fn request_at(
        &self,
        trace_dir: Seq<char>,
        tag: Seq<char>,
        sampling_period: nat,
        secs: nat,
    ) -> TraceRequestView;

    /// The conversions planned for a listing of the trace directory.
    spec fn plan_for(
        &self,
        listing: Seq<DirEntryView>,
        trace_dir: Seq<char>,
        profile_dir: Seq<char>,
    ) -> Seq<ConversionView>;

    /// How the provider turns a trace into a profile.
    spec fn converter(&self) -> Converter;

    /// The provider's name, which callers may show.
    fn get_name(&self) -> (name: &'static str)
        ensures
            name@ == self.name(),
    ;

    /// The request to capture one trace under `tag`, as made at second `secs`
    /// after the epoch.
    fn trace_at(&self, trace_dir: &str, tag: &str, sampling_period: &TimeSpan, secs: u64) -> (request:
        TraceRequest)
        ensures
            request@ == self.request_at(trace_dir@, tag@, sampling_period@, secs as nat),
    ;

    /// The request to capture one trace under `tag` now. The artifact is named
    /// after the second the system clock shows.
    fn trace(&self, trace_dir: &str, tag: &str, sampling_period: &TimeSpan) -> (request:
        TraceRequest)
        ensures
            exists|secs: nat|
                request@ == #[trigger] self.request_at(trace_dir@, tag@, sampling_period@, secs),
    {
        let secs = current_stamp();
        let request = self.trace_at(trace_dir, tag, sampling_period, secs);
        assert(request@ == self.request_at(trace_dir@, tag@, sampling_period@, secs as nat));
        request
    }

    /// Starts the processing of `trace_dir`. `listing` is what the directory
    /// holds, or `None` where it could not be listed: the run then asks for
    /// nothing and ends with that failure.
    fn process(
        &self,
        listing: Option<&Vec<DirEntry>>,
        trace_dir: &str,
        profile_dir: &str,
        binary_filter: &str,
    ) -> (run: ProcessRun)
        ensures
            run@ == (match listing {
                Some(entries) => ProcessRunView::start(
                    self.plan_for(entry_views(entries@), trace_dir@, profile_dir@),
                    binary_filter@,
                    self.converter(),
                ),
                None => ProcessRunView::unlisted(trace_dir@, binary_filter@, self.converter()),
            }),
    ;
}

/// The provider in use.
#[derive(Clone, Copy, Debug, PartialEq, Eq, Structural)]
pub enum Provider {
    SimpleperfEtm(SimpleperfEtmTraceProvider),
    Dummy(DummyTraceProvider),
}

impl TraceProvider for Provider {
    open spec fn name(&self) -> Seq<char> {
        match self {
            Provider::SimpleperfEtm(p) => p.name(),
            Provider::Dummy(p) => p.name(),
        }
    }

    open spec fn request_at(
        &self,
        trace_dir: Seq<char>,
        tag: Seq<char>,
        sampling_period: nat,
        secs: nat,
    ) -> TraceRequestView {
        match self {
            Provider::SimpleperfEtm(p) => p.request_at(trace_dir, tag, sampling_period, secs),
            Provider::Dummy(p) => p.request_at(trace_dir, tag, sampling_period, secs),
        }
    }

    open spec fn plan_for(
        &self,
        listing: Seq<DirEntryView>,
        trace_dir: Seq<char>,
        profile_dir: Seq<char>,
    ) -> Seq<ConversionView> {
        match self {
            Provider::SimpleperfEtm(p) => p.plan_for(listing, trace_dir, profile_dir),
            Provider::Dummy(p) => p.plan_for(listing, trace_dir, profile_dir),
        }
    }

    open spec fn converter(&self) -> Converter {
        match self {
            Provider::SimpleperfEtm(p) => p.converter(),
            Provider::Dummy(p) => p.converter(),
        }
    }

    fn get_name(&self) -> (name: &'static str) {
        match self {
            Provider::SimpleperfEtm(p) => p.get_name(),
            Provider::Dummy(p) => p.get_name(),
        }
    }

    fn trace_at(&self, trace_dir: &str, tag: &str, sampling_period: &TimeSpan, secs: u64) -> (request:
        TraceRequest) {
        match self {
            Provider::SimpleperfEtm(p) => p.trace_at(trace_dir, tag, sampling_period, secs),
            Provider::Dummy(p) => p.trace_at(trace_dir, tag, sampling_period, secs),
        }
    }

    fn process(
        &self,
        listing: Option<&Vec<DirEntry>>,
        trace_dir: &str,
        profile_dir: &str,
        binary_filter: &str,
    ) -> (run: ProcessRun) {
        match self {
            Provider::SimpleperfEtm(p) => p.process(listing, trace_dir, profile_dir, binary_filter),
            Provider::Dummy(p) => p.process(listing, trace_dir, profile_dir, binary_filter),
        }
    }
}

/// The extension that a provider gives the artifacts it asks for.
pub open spec fn trace_extension(provider: Provider) -> Seq<char> {
    match provider {
        Provider::SimpleperfEtm(_) => ETM_TRACEFILE_EXTENSION@,
        Provider::Dummy(_) => DUMMY_TRACEFILE_EXTENSION@,
    }
}

/// A request names one artifact. It lies in the trace directory, and its
/// name holds the tag, whole, between the stamp with its underscore and the
/// provider's extension.
pub proof fn lemma_request_names_tag(
    provider: Provider,
    trace_dir: Seq<char>,
    tag: Seq<char>,
    sampling_period: nat,
    secs: nat,
)
    ensures
        ({
            let request = provider.request_at(trace_dir, tag, sampling_period, secs);
            let name = with_extension(stamped_name(secs, tag), trace_extension(provider));
            let at = decimal(secs).len() as int + 1;
            &&& request.trace_file == joined(trace_dir, name)
            &&& request.sampling_period == sampling_period
            &&& at + tag.len() <= name.len()
            &&& name.subrange(at, at + tag.len()) == tag
        }),
{
    let name = with_extension(stamped_name(secs, tag), trace_extension(provider));
    let at = decimal(secs).len() as int + 1;
    assert(name.subrange(at, at + tag.len()) =~= tag);
}

/// The provider chosen for a device: the hardware-assisted one where the
/// device supports it, else the dummy where the build enables it as a
/// fallback, else none.
pub open spec fn chosen_provider(etm_supported: bool, fallback_enabled: bool) -> Option<Provider> {
    if etm_supported {
        Some(Provider::SimpleperfEtm(SimpleperfEtmTraceProvider {  }))
    } else if fallback_enabled {
        Some(Provider::Dummy(DummyTraceProvider {  }))
    } else {
        None
    }
}

/// Chooses the trace provider.
///
/// `etm_supported` says whether the device reported ETM support within the
/// window that `SimpleperfEtmTraceProvider::supported` allows;
/// `fallback_enabled` says whether the build enables the dummy provider.
pub fn get_trace_provider(etm_supported: bool, fallback_enabled: bool) -> (provider: Result<
    Provider,
    InitError,
>)
    ensures
        provider == match chosen_provider(etm_supported, fallback_enabled) {
            Some(p) => Ok::<Provider, InitError>(p),
            None => Err::<Provider, InitError>(InitError {  }),
        },
{
    if etm_supported {
        return Ok(Provider::SimpleperfEtm(SimpleperfEtmTraceProvider {  }));
    }
    if fallback_enabled && DummyTraceProvider::supported() {
        return Ok(Provider::Dummy(DummyTraceProvider {  }));
    }
    Err(InitError {  })
}

/// Reads the system clock through `SystemTime::elapsed` on `UNIX_EPOCH` and
/// hands back the whole seconds since the epoch, or `None` where the clock
/// stands before it. Nothing is claimed of the value: it is the time.
#[verifier::external_body]
fn seconds_since_epoch() -> (secs: Option<u64>) {
    match std::time::UNIX_EPOCH.elapsed() {
        Ok(since) => Some(since.as_secs()),
        Err(_) => None,
    }
}

/// The second to stamp an artifact with, as the system clock shows it now.
/// Nothing is said of the value: every second is one the clock may show.
pub fn current_stamp() -> (secs: u64) {
    stamp_of(seconds_since_epoch())
}

/// The stamp that a reading of the clock gives: the seconds read, or zero
/// for a clock that stands before the epoch.
pub open spec fn stamp_for(reading: Option<u64>) -> u64 {
    match reading {
        Some(secs) => secs,
        None => 0,
    }
}

/// The second to stamp an artifact with, given what the clock read: the
/// seconds since the epoch, or `None` where the clock stands before it.
pub fn stamp_of(reading: Option<u64>) -> (secs: u64)
    ensures
        secs == stamp_for(reading),
{
    match reading {
        Some(secs) => secs,
        None => 0,
    }
}

/// The name of an artifact requested now under `tag`, before any extension:
/// the current second, an underscore and the tag.
pub fn construct_file_name(tag: &str) -> (name: String)
    ensures
        exists|secs: nat| name@ == #[trigger] stamped_name(secs, tag@),
{
    let secs = current_stamp();
    let name = file_name_at(secs, tag);
    assert(name@ == stamped_name(secs as nat, tag@));
    name
}

} // verus!
