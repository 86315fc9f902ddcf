//! Turning trace artifacts into profiles.
//!
//! Processing is planned from a listing of the trace directory and then run
//! one step at a time: the caller performs each step and reports how it went.
//! Every planned trace is attempted, a trace is removed only once it has been
//! converted, and the run ends with the earliest failure, if there was one.

use crate::artifact::{
    join_path, joined, has_extension, named_with, replace_extension, retitled, DirEntry,
    DirEntryView,
};
use vstd::prelude::*;
use vstd::string::*;

verus! {

/// One trace to convert and the profile to write.
#[derive(Clone, Debug, PartialEq, Eq)]
pub struct Conversion {
    pub trace_file: String,
    pub profile_file: String,
}

/// What a `Conversion` holds.
pub struct ConversionView {
    pub trace_file: Seq<char>,
    pub profile_file: Seq<char>,
}

impl View for Conversion {
    type V = ConversionView;

    open spec fn view(&self) -> ConversionView {
        ConversionView { trace_file: self.trace_file@, profile_file: self.profile_file@ }
    }
}

/// The two steps taken for one trace.
#[derive(Clone, Copy, Debug, PartialEq, Eq, Structural)]
pub enum ProcessStage {
    /// Converting the trace into a profile.
    Converting,
    /// Removing the trace after its conversion.
    Removing,
}

/// How a trace is turned into a profile.
#[derive(Clone, Copy, Debug, PartialEq, Eq, Structural)]
pub enum Converter {
    /// simpleperf reads the trace and writes the profile.
    Simpleperf,
    /// The profile is a copy of the trace.
    Copy,
}

/// Why a run of processing failed.
#[derive(Debug, PartialEq, Eq)]
pub enum ProcessError {
    /// The trace directory could not be listed, so nothing was attempted.
    Unlisted { trace_dir: String },
    /// A step taken for the trace `trace_file` failed.
    Failed { trace_file: String, stage: ProcessStage },
}

/// What a `ProcessError` holds.
pub enum ProcessErrorView {
    Unlisted { trace_dir: Seq<char> },
    Failed { trace_file: Seq<char>, stage: ProcessStage },
}

impl View for ProcessError {
    type V = ProcessErrorView;

    open spec fn view(&self) -> ProcessErrorView {
        match self {
            ProcessError::Unlisted { trace_dir } => ProcessErrorView::Unlisted {
                trace_dir: trace_dir@,
            },
            ProcessError::Failed { trace_file, stage } => ProcessErrorView::Failed {
                trace_file: trace_file@,
                stage: *stage,
            },
        }
    }
}

impl Clone for ProcessError {
    fn clone(&self) -> (copy: ProcessError)
        ensures
            copy@ == self@,
    {
        match self {
            ProcessError::Unlisted { trace_dir } => ProcessError::Unlisted {
                trace_dir: trace_dir.clone(),
            },
            ProcessError::Failed { trace_file, stage } => ProcessError::Failed {
                trace_file: trace_file.clone(),
                stage: *stage,
            },
        }
    }
}

/// What the caller is to do next.
#[derive(Debug, PartialEq, Eq)]
pub enum ProcessAction {
    /// Convert `trace_file` into `profile_file` by `converter`, keeping what
    /// `binary_filter` selects.
    Convert { trace_file: String, profile_file: String, binary_filter: String, converter: Converter },
    /// Remove `trace_file`, which has been converted.
    Remove { trace_file: String },
    /// Nothing is left to do; `failure` is the earliest step that failed.
    Finish { failure: Option<ProcessError> },
}

/// What a `ProcessAction` holds.
pub enum ProcessActionView {
    Convert {
        trace_file: Seq<char>,
        profile_file: Seq<char>,
        binary_filter: Seq<char>,
        converter: Converter,
    },
    Remove { trace_file: Seq<char> },
    Finish { failure: Option<ProcessErrorView> },
}

impl View for ProcessAction {
    type V = ProcessActionView;

    open spec fn view(&self) -> ProcessActionView {
        match self {
            ProcessAction::Convert { trace_file, profile_file, binary_filter, converter } => {
                ProcessActionView::Convert {
                    trace_file: trace_file@,
                    profile_file: profile_file@,
                    binary_filter: binary_filter@,
                    converter: *converter,
                }
            },
            ProcessAction::Remove { trace_file } => ProcessActionView::Remove {
                trace_file: trace_file@,
            },
            ProcessAction::Finish { failure } => ProcessActionView::Finish {
                failure: match failure {
                    Some(e) => Some(e@),
                    None => None,
                },
            },
        }
    }
}

/// The entries of a listing, each by its view.
pub open spec fn entry_views(listing: Seq<DirEntry>) -> Seq<DirEntryView> {
    listing.map_values(|e: DirEntry| e@)
}

/// The conversions of a plan, each by its view.
pub open spec fn conversion_views(plan: Seq<Conversion>) -> Seq<ConversionView> {
    plan.map_values(|c: Conversion| c@)
}

/// Whether a directory entry is a trace artifact with the extension `trace_ext`.
pub open spec fn is_trace(entry: DirEntryView, trace_ext: Seq<char>) -> bool {
    entry.is_file && named_with(entry.name, trace_ext)
}

/// The conversion of the trace `name`: from the trace directory into the
/// profile directory, under the same name with the profile extension.
pub open spec fn conversion_of(
    name: Seq<char>,
    trace_dir: Seq<char>,
    profile_dir: Seq<char>,
    profile_ext: Seq<char>,
) -> ConversionView {
    ConversionView {
        trace_file: joined(trace_dir, name),
        profile_file: joined(profile_dir, retitled(name, profile_ext)),
    }
}

/// The trace artifacts of a listing, in its order.
pub open spec fn traces_in(listing: Seq<DirEntryView>, trace_ext: Seq<char>) -> Seq<
    DirEntryView,
> {
    listing.filter(|e: DirEntryView| is_trace(e, trace_ext))
}

/// What is left of a listing once its trace artifacts are gone.
pub open spec fn without_traces(listing: Seq<DirEntryView>, trace_ext: Seq<char>) -> Seq<
    DirEntryView,
> {
    listing.filter(|e: DirEntryView| !is_trace(e, trace_ext))
}

/// The plan for a listing: one conversion for each trace artifact, in the
/// listing's order.
pub open spec fn planned(
    listing: Seq<DirEntryView>,
    trace_dir: Seq<char>,
    profile_dir: Seq<char>,
    trace_ext: Seq<char>,
    profile_ext: Seq<char>,
) -> Seq<ConversionView> {
    traces_in(listing, trace_ext).map_values(
        |e: DirEntryView| conversion_of(e.name, trace_dir, profile_dir, profile_ext),
    )
}

/// Plans the processing of a trace directory from its listing.
///
/// Regular files whose extension is `trace_ext` are traces; each is planned
/// once, in the order of the listing, and everything else is left alone.
pub fn plan_conversions(
    listing: &Vec<DirEntry>,
    trace_dir: &str,
    profile_dir: &str,
    trace_ext: &str,
    profile_ext: &str,
) -> (plan: Vec<Conversion>)
    ensures
        conversion_views(plan@) == planned(
            entry_views(listing@),
            trace_dir@,
            profile_dir@,
            trace_ext@,
            profile_ext@,
        ),
{
    let mut plan: Vec<Conversion> = Vec::new();
    let ghost views = entry_views(listing@);
    let ghost wanted = |e: DirEntryView| is_trace(e, trace_ext@);
    let ghost convert = |e: DirEntryView|
        conversion_of(e.name, trace_dir@, profile_dir@, profile_ext@);
    let mut i: usize = 0;
    assert(views.take(0) =~= Seq::<DirEntryView>::empty());
    assert(conversion_views(plan@) =~= views.take(0).filter(wanted).map_values(convert));
    while i < listing.len()
        invariant
            i <= listing.len(),
            views == entry_views(listing@),
            wanted == |e: DirEntryView| is_trace(e, trace_ext@),
            convert == |e: DirEntryView|
                conversion_of(e.name, trace_dir@, profile_dir@, profile_ext@),
            conversion_views(plan@) == views.take(i as int).filter(wanted).map_values(convert),
        decreases listing.len() - i,
    {
        let entry = &listing[i];
        let ghost before = views.take(i as int);
        let ghost old_plan = plan@;
        proof {
            assert(views.take(i + 1) =~= before.push(entry@));
            before.lemma_filter_push(entry@, wanted);
        }
        if entry.is_file && has_extension(entry.name.as_str(), trace_ext) {
            let trace_file = join_path(trace_dir, entry.name.as_str());
            let profile_name = replace_extension(entry.name.as_str(), profile_ext);
            let profile_file = join_path(profile_dir, profile_name.as_str());
            plan.push(Conversion { trace_file, profile_file });
            assert(conversion_views(plan@) =~= conversion_views(old_plan).push(
                convert(entry@),
            ));
            assert(before.filter(wanted).push(entry@).map_values(convert) =~= before.filter(
                wanted,
            ).map_values(convert).push(convert(entry@)));
        }
        i = i + 1;
    }
    assert(views.take(listing.len() as int) =~= views);
    plan
}

/// Where a run of processing stands.
pub struct ProcessRunView {
    /// The conversions to attempt, in order.
    pub plan: Seq<ConversionView>,
    /// The filter handed to every conversion.
    pub binary_filter: Seq<char>,
    /// How every conversion is carried out.
    pub converter: Converter,
    /// How many conversions are done with.
    pub cursor: nat,
    /// The step that the conversion at `cursor` is at.
    pub stage: ProcessStage,
    /// The earliest step that failed.
    pub failure: Option<ProcessErrorView>,
}

impl ProcessRunView {
    /// The run that has `plan` before it and nothing behind it.
    pub open spec fn start(
        plan: Seq<ConversionView>,
        binary_filter: Seq<char>,
        converter: Converter,
    ) -> ProcessRunView {
        ProcessRunView {
            plan,
            binary_filter,
            converter,
            cursor: 0,
            stage: ProcessStage::Converting,
            failure: None,
        }
    }

    /// The run over a trace directory that could not be listed: nothing is
    /// planned, and it has failed before it began.
    pub open spec fn unlisted(
        trace_dir: Seq<char>,
        binary_filter: Seq<char>,
        converter: Converter,
    ) -> ProcessRunView {
        ProcessRunView {
            plan: Seq::empty(),
            binary_filter,
            converter,
            cursor: 0,
            stage: ProcessStage::Converting,
            failure: Some(ProcessErrorView::Unlisted { trace_dir }),
        }
    }

    /// Whether every conversion is done with.
    pub open spec fn finished(self) -> bool {
        self.cursor >= self.plan.len()
    }

    /// The step to take now.
    pub open spec fn action(self) -> ProcessActionView {
        if self.finished() {
            ProcessActionView::Finish { failure: self.failure }
        } else if self.stage == ProcessStage::Converting {
            ProcessActionView::Convert {
                trace_file: self.plan[self.cursor as int].trace_file,
                profile_file: self.plan[self.cursor as int].profile_file,
                binary_filter: self.binary_filter,
                converter: self.converter,
            }
        } else {
            ProcessActionView::Remove { trace_file: self.plan[self.cursor as int].trace_file }
        }
    }

    /// The failure on record once the current step has failed: the one
    /// already there, or else this one.
    pub open spec fn failure_with(self) -> Option<ProcessErrorView> {
        match self.failure {
            Some(e) => Some(e),
            None => Some(
                ProcessErrorView::Failed {
                    trace_file: self.plan[self.cursor as int].trace_file,
                    stage: self.stage,
                },
            ),
        }
    }

    /// The run after the current step was taken and `succeeded` or not.
    ///
    /// A converted trace is removed next; a trace whose conversion failed is
    /// kept and the run moves on; after a removal, whether or not it
    /// succeeded, the run moves on. A finished run stays as it is.
    pub open spec fn after(self, succeeded: bool) -> ProcessRunView {
        if self.finished() {
            self
        } else if self.stage == ProcessStage::Converting && succeeded {
            ProcessRunView { stage: ProcessStage::Removing, ..self }
        } else {
            ProcessRunView {
                cursor: self.cursor + 1,
                stage: ProcessStage::Converting,
                failure: if succeeded {
                    self.failure
                } else {
                    self.failure_with()
                },
                ..self
            }
        }
    }

    /// An upper bound on the steps still to take.
    pub open spec fn steps_left(self) -> nat {
        if self.finished() {
            0
        } else if self.stage == ProcessStage::Converting {
            (2 * (self.plan.len() - self.cursor)) as nat
        } else {
            (2 * (self.plan.len() - self.cursor) - 1) as nat
        }
    }

    /// The run after the steps were taken whose outcomes are `outcomes`, in order.
    pub open spec fn after_all(self, outcomes: Seq<bool>) -> ProcessRunView
        decreases outcomes.len(),
    {
        if outcomes.len() == 0 {
            self
        } else {
            self.after(outcomes[0]).after_all(outcomes.drop_first())
        }
    }

    /// The steps asked for while the outcomes `outcomes` were reported, in order.
    pub open spec fn asked(self, outcomes: Seq<bool>) -> Seq<ProcessActionView>
        decreases outcomes.len(),
    {
        if outcomes.len() == 0 {
            Seq::empty()
        } else {
            seq![self.action()] + self.after(outcomes[0]).asked(outcomes.drop_first())
        }
    }
}

/// The steps of a run in which nothing fails: each conversion, followed by the
/// removal of its trace.
pub open spec fn smooth_steps(
    plan: Seq<ConversionView>,
    binary_filter: Seq<char>,
    converter: Converter,
) -> Seq<ProcessActionView> {
    Seq::new(
        2 * plan.len(),
        |k: int|
            if k % 2 == 0 {
                ProcessActionView::Convert {
                    trace_file: plan[k / 2].trace_file,
                    profile_file: plan[k / 2].profile_file,
                    binary_filter,
                    converter,
                }
            } else {
                ProcessActionView::Remove { trace_file: plan[k / 2].trace_file }
            },
    )
}

/// A run of processing in progress.
#[derive(Debug)]
pub struct ProcessRun {
    plan: Vec<Conversion>,
    binary_filter: String,
    converter: Converter,
    cursor: usize,
    stage: ProcessStage,
    failure: Option<ProcessError>,
}

impl View for ProcessRun {
    type V = ProcessRunView;

    closed spec fn view(&self) -> ProcessRunView {
        ProcessRunView {
            plan: conversion_views(self.plan@),
            binary_filter: self.binary_filter@,
            converter: self.converter,
            cursor: self.cursor as nat,
            stage: self.stage,
            failure: match self.failure {
                Some(e) => Some(e@),
                None => None,
            },
        }
    }
}

impl ProcessRun {
    #[verifier::type_invariant]
    spec fn cursor_in_plan(self) -> bool {
        self.cursor <= self.plan.len()
    }

    /// Starts a run over `plan`.
    pub fn new(plan: Vec<Conversion>, binary_filter: String, converter: Converter) -> (run:
        ProcessRun)
        ensures
            run@ == ProcessRunView::start(conversion_views(plan@), binary_filter@, converter),
    {
        ProcessRun {
            plan,
            binary_filter,
            converter,
            cursor: 0,
            stage: ProcessStage::Converting,
            failure: None,
        }
    }

    /// The run over the trace directory `trace_dir` that could not be
    /// listed: it asks for nothing and ends with that failure.
    pub fn unlisted(trace_dir: &str, binary_filter: String, converter: Converter) -> (run:
        ProcessRun)
        ensures
            run@ == ProcessRunView::unlisted(trace_dir@, binary_filter@, converter),
            run@.finished(),
            run@.action() == (ProcessActionView::Finish {
                failure: Some(ProcessErrorView::Unlisted { trace_dir: trace_dir@ }),
            }),
    {
        let plan: Vec<Conversion> = Vec::new();
        assert(conversion_views(plan@) =~= Seq::<ConversionView>::empty());
        ProcessRun {
            plan,
            binary_filter,
            converter,
            cursor: 0,
            stage: ProcessStage::Converting,
            failure: Some(ProcessError::Unlisted { trace_dir: String::from_str(trace_dir) }),
        }
    }

    /// Whether nothing is left to do.
    pub fn is_finished(&self) -> (done: bool)
        ensures
            done == self@.finished(),
    {
        self.cursor >= self.plan.len()
    }

    /// The step to take now.
    pub fn next_action(&self) -> (action: ProcessAction)
        ensures
            action@ == self@.action(),
    {
        proof {
            use_type_invariant(self);
        }
        if self.cursor >= self.plan.len() {
            let failure = match &self.failure {
                Some(e) => Some(e.clone()),
                None => None,
            };
            ProcessAction::Finish { failure }
        } else {
            let current = &self.plan[self.cursor];
            assert(conversion_views(self.plan@)[self.cursor as int] == current@);
            match self.stage {
                ProcessStage::Converting => ProcessAction::Convert {
                    trace_file: current.trace_file.clone(),
                    profile_file: current.profile_file.clone(),
                    binary_filter: self.binary_filter.clone(),
                    converter: self.converter,
                },
                ProcessStage::Removing => ProcessAction::Remove {
                    trace_file: current.trace_file.clone(),
                },
            }
        }
    }

    /// Records how the step last handed out went.
    pub fn record(&mut self, succeeded: bool)
        ensures
            final(self)@ == old(self)@.after(succeeded),
    {
        proof {
            use_type_invariant(&*self);
        }
        if self.cursor >= self.plan.len() {
            return ;
        }
        assert(conversion_views(self.plan@)[self.cursor as int] == self.plan@[self.cursor as int]@);
        match self.stage {
            ProcessStage::Converting => {
                if succeeded {
                    self.stage = ProcessStage::Removing;
                    return ;
                }
            },
            ProcessStage::Removing => {},
        }
        if !succeeded && self.failure.is_none() {
            let trace_file = self.plan[self.cursor].trace_file.clone();
            self.failure = Some(ProcessError::Failed { trace_file, stage: self.stage });
        }
        self.cursor = self.cursor + 1;
        self.stage = ProcessStage::Converting;
    }
}

/// Every step that is reported brings an unfinished run closer to its end.
pub proof fn lemma_run_progresses(run: ProcessRunView, succeeded: bool)
    requires
        !run.finished(),
    ensures
        run.after(succeeded).steps_left() < run.steps_left(),
        run.after(succeeded).plan == run.plan,
{
}

/// The failure on record is the earliest: once there is one, no later step changes it.
pub proof fn lemma_first_failure_stays(run: ProcessRunView, succeeded: bool)
    requires
        run.failure is Some,
    ensures
        run.after(succeeded).failure == run.failure,
{
}

/// A run over an empty plan is finished at once, with nothing to do and no failure.
pub proof fn lemma_empty_plan_is_noop(binary_filter: Seq<char>, converter: Converter)
    ensures
        ProcessRunView::start(Seq::empty(), binary_filter, converter).finished(),
        ProcessRunView::start(Seq::empty(), binary_filter, converter).action() == (
        ProcessActionView::Finish { failure: None }),
{
}

/// An empty trace directory gives an empty plan.
pub proof fn lemma_empty_listing_plans_nothing(
    trace_dir: Seq<char>,
    profile_dir: Seq<char>,
    trace_ext: Seq<char>,
    profile_ext: Seq<char>,
)
    ensures
        planned(Seq::empty(), trace_dir, profile_dir, trace_ext, profile_ext) == Seq::<
            ConversionView,
        >::empty(),
{
    assert(planned(Seq::empty(), trace_dir, profile_dir, trace_ext, profile_ext) =~= Seq::<
        ConversionView,
    >::empty());
}

/// The plan has one conversion for each trace artifact of the listing: the
/// trace itself, out of the trace directory, into a profile of the same name
/// with the profile extension.
pub proof fn lemma_plan_covers_traces(
    listing: Seq<DirEntryView>,
    trace_dir: Seq<char>,
    profile_dir: Seq<char>,
    trace_ext: Seq<char>,
    profile_ext: Seq<char>,
)
    ensures
        planned(listing, trace_dir, profile_dir, trace_ext, profile_ext).len() == traces_in(
            listing,
            trace_ext,
        ).len(),
        forall|i: int|
            0 <= i < traces_in(listing, trace_ext).len() ==> #[trigger] planned(
                listing,
                trace_dir,
                profile_dir,
                trace_ext,
                profile_ext,
            )[i] == conversion_of(
                traces_in(listing, trace_ext)[i].name,
                trace_dir,
                profile_dir,
                profile_ext,
            ),
        forall|i: int|
            0 <= i < traces_in(listing, trace_ext).len() ==> is_trace(
                #[trigger] traces_in(listing, trace_ext)[i],
                trace_ext,
            ) && listing.contains(traces_in(listing, trace_ext)[i]),
{
    broadcast use vstd::seq_lib::group_filter_ensures;

    let wanted = |e: DirEntryView| is_trace(e, trace_ext);
    let traces = traces_in(listing, trace_ext);
    assert forall|i: int| 0 <= i < traces.len() implies is_trace(#[trigger] traces[i], trace_ext)
        && listing.contains(traces[i]) by {
        assert(wanted(listing.filter(wanted)[i]));
        listing.lemma_filter_contains_rev(wanted, traces[i]);
    }
}

/// Once the traces of a listing are gone, planning again finds nothing to do.
pub proof fn lemma_second_pass_plans_nothing(
    listing: Seq<DirEntryView>,
    trace_dir: Seq<char>,
    profile_dir: Seq<char>,
    trace_ext: Seq<char>,
    profile_ext: Seq<char>,
)
    ensures
        planned(
            without_traces(listing, trace_ext),
            trace_dir,
            profile_dir,
            trace_ext,
            profile_ext,
        ) == Seq::<ConversionView>::empty(),
{
    let wanted = |e: DirEntryView| is_trace(e, trace_ext);
    let unwanted = |e: DirEntryView| !is_trace(e, trace_ext);
    let rest = without_traces(listing, trace_ext);
    assert forall|j: int| 0 <= j < rest.len() implies !wanted(#[trigger] rest[j]) by {
        listing.lemma_filter_pred(unwanted, j);
    }
    rest.lemma_all_neg_filter_empty(wanted);
    assert(planned(rest, trace_dir, profile_dir, trace_ext, profile_ext) =~= Seq::<
        ConversionView,
    >::empty());
}

/// When every step succeeds, a run asks for the conversion of each planned
/// trace followed by its removal, in the plan's order, and ends without a
/// failure.
pub proof fn lemma_smooth_run(
    plan: Seq<ConversionView>,
    binary_filter: Seq<char>,
    converter: Converter,
)
    ensures
        ProcessRunView::start(plan, binary_filter, converter).asked(
            Seq::new(2 * plan.len(), |k: int| true),
        ) == smooth_steps(plan, binary_filter, converter),
        ProcessRunView::start(plan, binary_filter, converter).after_all(
            Seq::new(2 * plan.len(), |k: int| true),
        ).finished(),
        ProcessRunView::start(plan, binary_filter, converter).after_all(
            Seq::new(2 * plan.len(), |k: int| true),
        ).failure is None,
{
    let run = ProcessRunView::start(plan, binary_filter, converter);
    lemma_smooth_from(run, 0);
    assert(Seq::new((2 * plan.len() - 0) as nat, |k: int| true) =~= Seq::new(
        2 * plan.len(),
        |k: int| true,
    ));
    assert(smooth_steps(plan, binary_filter, converter).skip(0) =~= smooth_steps(
        plan,
        binary_filter,
        converter,
    ));
}

/// The rest of a run in which every step succeeds, from any point reached without failure.
proof fn lemma_smooth_from(run: ProcessRunView, done: nat)
    requires
        done <= 2 * run.plan.len(),
        run.cursor == done / 2,
        run.stage == (if done % 2 == 0 {
            ProcessStage::Converting
        } else {
            ProcessStage::Removing
        }),
        run.failure is None,
    ensures
        run.asked(Seq::new((2 * run.plan.len() - done) as nat, |k: int| true)) == smooth_steps(
            run.plan,
            run.binary_filter,
            run.converter,
        ).skip(done as int),
        run.after_all(Seq::new((2 * run.plan.len() - done) as nat, |k: int| true)).finished(),
        run.after_all(
            Seq::new((2 * run.plan.len() - done) as nat, |k: int| true),
        ).failure is None,
    decreases 2 * run.plan.len() - done,
{
    let left = (2 * run.plan.len() - done) as nat;
    let outcomes = Seq::new(left, |k: int| true);
    let steps = smooth_steps(run.plan, run.binary_filter, run.converter);
    if left == 0 {
        assert(run.asked(outcomes) =~= steps.skip(done as int));
    } else {
        let next = run.after(true);
        lemma_smooth_from(next, done + 1);
        let fewer = Seq::new((left - 1) as nat, |k: int| true);
        assert(outcomes.drop_first() =~= fewer);
        assert(run.action() == steps[done as int]);
        assert(steps.skip(done as int) =~= seq![steps[done as int]] + steps.skip(done as int + 1));
    }
}

} // verus!
