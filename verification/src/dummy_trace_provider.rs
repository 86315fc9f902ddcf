//! A provider that records nothing, for development and testing.
//!
//! It goes through the motions: every request asks for an empty artifact,
//! and processing turns each such artifact into a profile that is a copy of it.

use crate::artifact::{
    add_extension, dotless, file_name_at, join_path, joined, lemma_extension_added,
    lemma_stamped_name_embeds_tag, stamped_name, with_extension, DirEntry, DirEntryView,
};
use crate::processing::{
    conversion_of, is_trace, plan_conversions, planned, Converter, ConversionView, ProcessRun,
};
use crate::timespan::TimeSpan;
use crate::trace_provider::{
    trace_file_at, Capture, TraceProvider, TraceRequest, TraceRequestView,
};
use vstd::prelude::*;
use vstd::string::*;

verus! {

/// The extension of the artifacts the dummy provider asks for.
pub const DUMMY_TRACEFILE_EXTENSION: &'static str = "dummytrace";

/// The extension of the profiles made from them.
pub const DUMMY_PROFILE_EXTENSION: &'static str = "dummyprofile";

/// An artifact asked for by the dummy provider is found when the trace
/// directory is processed, and its profile keeps its name: the stamp and the
/// tag, with the profile extension in place of the trace extension.
pub proof fn lemma_dummy_trace_is_processed(
    trace_dir: Seq<char>,
    profile_dir: Seq<char>,
    tag: Seq<char>,
    secs: nat,
)
    ensures
        ({
            let name = with_extension(stamped_name(secs, tag), DUMMY_TRACEFILE_EXTENSION@);
            &&& is_trace(DirEntryView { name, is_file: true }, DUMMY_TRACEFILE_EXTENSION@)
            &&& conversion_of(name, trace_dir, profile_dir, DUMMY_PROFILE_EXTENSION@).trace_file
                == trace_file_at(trace_dir, tag, DUMMY_TRACEFILE_EXTENSION@, secs)
            &&& conversion_of(name, trace_dir, profile_dir, DUMMY_PROFILE_EXTENSION@).profile_file
                == joined(
                profile_dir,
                with_extension(stamped_name(secs, tag), DUMMY_PROFILE_EXTENSION@),
            )
        }),
{
    reveal_strlit("dummytrace");
    let ext = DUMMY_TRACEFILE_EXTENSION@;
    assert(dotless(ext)) by {
        assert(ext.len() == 10);
        assert(ext[0] != '.' && ext[1] != '.' && ext[2] != '.' && ext[3] != '.');
        assert(ext[4] != '.' && ext[5] != '.' && ext[6] != '.' && ext[7] != '.');
        assert(ext[8] != '.' && ext[9] != '.');
    }
    lemma_stamped_name_embeds_tag(secs, tag);
    lemma_extension_added(stamped_name(secs, tag), ext);
}

/// The provider that asks for an empty artifact on every request.
#[derive(Clone, Copy, Debug, PartialEq, Eq, Structural)]
pub struct DummyTraceProvider {}

impl TraceProvider for DummyTraceProvider {
    open spec fn name(&self) -> Seq<char> {
        "dummy"@
    }

    open spec fn request_at(
        &self,
        trace_dir: Seq<char>,
        tag: Seq<char>,
        sampling_period: nat,
        secs: nat,
    ) -> TraceRequestView {
        TraceRequestView {
            trace_file: trace_file_at(trace_dir, tag, DUMMY_TRACEFILE_EXTENSION@, secs),
            sampling_period,
            capture: Capture::Placeholder,
        }
    }

    open spec fn plan_for(
        &self,
        listing: Seq<DirEntryView>,
        trace_dir: Seq<char>,
        profile_dir: Seq<char>,
    ) -> Seq<ConversionView> {
        planned(
            listing,
            trace_dir,
            profile_dir,
            DUMMY_TRACEFILE_EXTENSION@,
            DUMMY_PROFILE_EXTENSION@,
        )
    }

    open spec fn converter(&self) -> Converter {
        Converter::Copy
    }

    fn get_name(&self) -> (name: &'static str) {
        "dummy"
    }

    fn trace_at(&self, trace_dir: &str, tag: &str, sampling_period: &TimeSpan, secs: u64) -> (request:
        TraceRequest) {
        let name = file_name_at(secs, tag);
        let file = add_extension(name.as_str(), DUMMY_TRACEFILE_EXTENSION);
        TraceRequest {
            trace_file: join_path(trace_dir, file.as_str()),
            sampling_period: *sampling_period,
            capture: Capture::Placeholder,
        }
    }

    fn process(
        &self,
        listing: Option<&Vec<DirEntry>>,
        trace_dir: &str,
        profile_dir: &str,
        binary_filter: &str,
    ) -> (run: ProcessRun) {
        match listing {
            Some(entries) => {
                let plan = plan_conversions(
                    entries,
                    trace_dir,
                    profile_dir,
                    DUMMY_TRACEFILE_EXTENSION,
                    DUMMY_PROFILE_EXTENSION,
                );
                ProcessRun::new(plan, String::from_str(binary_filter), Converter::Copy)
            },
            None => ProcessRun::unlisted(
                trace_dir,
                String::from_str(binary_filter),
                Converter::Copy,
            ),
        }
    }
}

impl DummyTraceProvider {
    /// Whether the provider works on this device: it always does.
    pub fn supported() -> (yes: bool)
        ensures
            yes,
    {
        true
    }
}

} // verus!
