//! The scheduler of trace collection.
//!
//! The scheduler holds the trace provider chosen at start and knows whether
//! periodic collection is on. It decides; the caller acts on what it hands
//! out: the task to run in the background, the capture to perform, the
//! processing to start.

use crate::artifact::DirEntry;
use crate::config::{Config, ConfigView};
use crate::processing::{entry_views, ProcessRun, ProcessRunView};
use crate::timespan::TimeSpan;
use crate::trace_provider::{
    chosen_provider, current_stamp, get_trace_provider, InitError, Provider, TraceProvider,
    TraceRequest, TraceRequestView,
};
use vstd::prelude::*;

verus! {

/// The tag of the captures that periodic collection makes.
pub const PERIODIC_TAG: &'static str = "periodic";

/// Why the scheduler refused a call, or what went wrong carrying one out.
#[derive(Clone, Copy, Debug, PartialEq, Eq, Structural)]
pub enum SchedulerError {
    /// Periodic collection was asked for while it was on.
    AlreadyScheduled,
    /// Periodic collection was called off while it was off.
    NotScheduled,
    /// A capture was attempted and failed.
    CaptureFailure,
}

impl SchedulerError {
    /// The error in words.
    pub fn message(&self) -> (text: &'static str)
        ensures
            text@ == match self {
                SchedulerError::AlreadyScheduled => "Already scheduled."@,
                SchedulerError::NotScheduled => "Not scheduled."@,
                SchedulerError::CaptureFailure => "Trace capture failed."@,
            },
    {
        match self {
            SchedulerError::AlreadyScheduled => "Already scheduled.",
            SchedulerError::NotScheduled => "Not scheduled.",
            SchedulerError::CaptureFailure => "Trace capture failed.",
        }
    }
}

/// Whether periodic collection is on.
#[derive(Clone, Copy, Debug, PartialEq, Eq, Structural)]
pub enum SchedulerState {
    /// No background task is running.
    Idle,
    /// A background task is running and waits for its cancellation.
    Scheduled,
}

/// The two calls that change the scheduler's state.
#[derive(Clone, Copy, Debug, PartialEq, Eq, Structural)]
pub enum Call {
    Schedule,
    Terminate,
}

/// Whether `call` is in order in `state`: scheduling while idle, terminating
/// while scheduled.
pub open spec fn in_order(state: SchedulerState, call: Call) -> bool {
    match call {
        Call::Schedule => state == SchedulerState::Idle,
        Call::Terminate => state == SchedulerState::Scheduled,
    }
}

/// The other state.
pub open spec fn flipped(state: SchedulerState) -> SchedulerState {
    match state {
        SchedulerState::Idle => SchedulerState::Scheduled,
        SchedulerState::Scheduled => SchedulerState::Idle,
    }
}

/// The error that `call` meets in `state`, if it is out of order.
pub open spec fn refusal(state: SchedulerState, call: Call) -> Option<SchedulerError> {
    if in_order(state, call) {
        None
    } else {
        match call {
            Call::Schedule => Some(SchedulerError::AlreadyScheduled),
            Call::Terminate => Some(SchedulerError::NotScheduled),
        }
    }
}

/// The state that `call` leaves behind: the other one where the call is in
/// order, the same one where it is refused.
pub open spec fn state_after(state: SchedulerState, call: Call) -> SchedulerState {
    if in_order(state, call) {
        flipped(state)
    } else {
        state
    }
}

/// The state after a sequence of calls.
pub open spec fn state_after_all(state: SchedulerState, calls: Seq<Call>) -> SchedulerState
    decreases calls.len(),
{
    if calls.len() == 0 {
        state
    } else {
        state_after(state_after_all(state, calls.drop_last()), calls.last())
    }
}

/// The state that the calls in order leave behind, the refused ones skipped.
pub open spec fn transitions_folded(state: SchedulerState, calls: Seq<Call>) -> SchedulerState
    decreases calls.len(),
{
    if calls.len() == 0 {
        state
    } else {
        let before = transitions_folded(state, calls.drop_last());
        if in_order(before, calls.last()) {
            flipped(before)
        } else {
            before
        }
    }
}

/// What the `i`-th call of a sequence is answered with: nothing where it is
/// carried out, its error where it is refused.
pub open spec fn answer(state: SchedulerState, calls: Seq<Call>, i: int) -> Option<
    SchedulerError,
> {
    refusal(state_after_all(state, calls.take(i)), calls[i])
}

/// After any sequence of calls the scheduler is in the state that folding
/// the transitions gives; a call is refused exactly where it is out of
/// order, with the error of its kind, and a refused call changes nothing.
pub proof fn lemma_calls_fold(state: SchedulerState, calls: Seq<Call>)
    ensures
        state_after_all(state, calls) == transitions_folded(state, calls),
        forall|i: int|
            0 <= i < calls.len() ==> (#[trigger] answer(state, calls, i) is Some) == !in_order(
                state_after_all(state, calls.take(i)),
                calls[i],
            ),
        forall|i: int|
            0 <= i < calls.len() && calls[i] == Call::Schedule && answer(state, calls, i) is Some
                ==> #[trigger] answer(state, calls, i) == Some(SchedulerError::AlreadyScheduled),
        forall|i: int|
            0 <= i < calls.len() && calls[i] == Call::Terminate && answer(state, calls, i) is Some
                ==> #[trigger] answer(state, calls, i) == Some(SchedulerError::NotScheduled),
        forall|i: int|
            0 <= i < calls.len() && answer(state, calls, i) is Some ==> #[trigger] state_after_all(
                state,
                calls.take(i + 1),
            ) == state_after_all(state, calls.take(i)),
    decreases calls.len(),
{
    if calls.len() > 0 {
        lemma_calls_fold(state, calls.drop_last());
    }
    assert forall|i: int|
        0 <= i < calls.len() && answer(state, calls, i) is Some implies #[trigger] state_after_all(
        state,
        calls.take(i + 1),
    ) == state_after_all(state, calls.take(i)) by {
        let upto = calls.take(i + 1);
        assert(upto.drop_last() =~= calls.take(i));
        assert(upto.last() == calls[i]);
    }
}

/// After a sequence of calls that is not empty, collection is on exactly if
/// the last call was to schedule.
pub proof fn lemma_last_call_decides(state: SchedulerState, calls: Seq<Call>)
    requires
        calls.len() > 0,
    ensures
        state_after_all(state, calls) == (if calls.last() == Call::Schedule {
            SchedulerState::Scheduled
        } else {
            SchedulerState::Idle
        }),
{
}

/// How a wait for the cancellation of a periodic task ended.
#[derive(Clone, Copy, Debug, PartialEq, Eq, Structural)]
pub enum WaitOutcome {
    /// The collection interval passed without a signal.
    TimedOut,
    /// The cancellation signal arrived.
    Cancelled,
}

/// What a periodic task does after a wait.
#[derive(Debug, PartialEq, Eq)]
pub enum WorkerStep {
    /// Perform this capture, then wait again.
    Capture(TraceRequest),
    /// Leave the loop: the task is over.
    Exit,
}

/// What a `WorkerStep` holds.
pub enum WorkerStepView {
    Capture(TraceRequestView),
    Exit,
}

impl View for WorkerStep {
    type V = WorkerStepView;

    open spec fn view(&self) -> WorkerStepView {
        match self {
            WorkerStep::Capture(request) => WorkerStepView::Capture(request@),
            WorkerStep::Exit => WorkerStepView::Exit,
        }
    }
}

/// The step that follows a wait which ended in `outcome` at second `secs`:
/// a capture under the periodic tag after a timeout, the exit after the signal.
pub open spec fn step_after_wait(
    config: ConfigView,
    provider: Provider,
    outcome: WaitOutcome,
    secs: nat,
) -> WorkerStepView {
    match outcome {
        WaitOutcome::Cancelled => WorkerStepView::Exit,
        WaitOutcome::TimedOut => WorkerStepView::Capture(
            provider.request_at(
                config.trace_output_dir,
                PERIODIC_TAG@,
                config.sampling_period,
                secs,
            ),
        ),
    }
}

/// The background task of periodic collection: a snapshot of the
/// configuration it was scheduled with, and the provider.
///
/// The task waits for its cancellation for one collection interval at a
/// time, and captures a trace each time the wait runs out.
#[derive(Debug)]
pub struct PeriodicTask {
    config: Config,
    trace_provider: Provider,
}

impl PeriodicTask {
    /// The configuration the task was scheduled with.
    pub closed spec fn config(&self) -> ConfigView {
        self.config@
    }

    /// The provider the task captures with.
    pub closed spec fn provider(&self) -> Provider {
        self.trace_provider
    }

    /// How long to wait for the cancellation signal before the next capture.
    pub fn wait(&self) -> (span: TimeSpan)
        ensures
            span@ == self.config().collection_interval,
            span@ > 0,
    {
        self.config.collection_interval()
    }

    /// The step after a wait that ended in `outcome` at second `secs`.
    pub fn on_wait_at(&self, outcome: WaitOutcome, secs: u64) -> (step: WorkerStep)
        ensures
            step@ == step_after_wait(self.config(), self.provider(), outcome, secs as nat),
    {
        match outcome {
            WaitOutcome::Cancelled => WorkerStep::Exit,
            WaitOutcome::TimedOut => {
                let period = self.config.sampling_period();
                WorkerStep::Capture(
                    self.trace_provider.trace_at(
                        self.config.trace_output_dir(),
                        PERIODIC_TAG,
                        &period,
                        secs,
                    ),
                )
            },
        }
    }

    /// The step after a wait that ended in `outcome` just now.
    pub fn on_wait(&self, outcome: WaitOutcome) -> (step: WorkerStep)
        ensures
            exists|secs: nat|
                step@ == #[trigger] step_after_wait(self.config(), self.provider(), outcome, secs),
            outcome == WaitOutcome::Cancelled ==> step@ == WorkerStepView::Exit,
    {
        let secs = current_stamp();
        let step = self.on_wait_at(outcome, secs);
        assert(step@ == step_after_wait(self.config(), self.provider(), outcome, secs as nat));
        step
    }
}

/// Whether processing runs while the caller waits.
#[derive(Clone, Copy, Debug, PartialEq, Eq, Structural)]
pub enum Dispatch {
    /// The caller runs the processing and waits for its end.
    Inline,
    /// The processing is handed to the background; the caller does not wait.
    Detached,
}

/// Processing to start: how to dispatch it, and on which directories.
#[derive(Debug)]
pub struct ProcessRequest {
    dispatch: Dispatch,
    config: Config,
    trace_provider: Provider,
}

impl ProcessRequest {
    /// How the processing is dispatched.
    pub closed spec fn dispatching(&self) -> Dispatch {
        self.dispatch
    }

    /// The configuration whose directories are processed.
    pub closed spec fn config(&self) -> ConfigView {
        self.config@
    }

    /// The provider that plans the processing.
    pub closed spec fn provider(&self) -> Provider {
        self.trace_provider
    }

    /// How the processing is dispatched.
    pub fn dispatch(&self) -> (dispatch: Dispatch)
        ensures
            dispatch == self.dispatching(),
    {
        self.dispatch
    }

    /// The directory whose listing `start` takes.
    pub fn trace_dir(&self) -> (dir: &str)
        ensures
            dir@ == self.config().trace_output_dir,
    {
        self.config.trace_output_dir()
    }

    /// Starts the processing of the trace directory. `listing` is what the
    /// directory holds, or `None` where it could not be listed: the run then
    /// asks for nothing and ends with that failure.
    pub fn start(&self, listing: Option<&Vec<DirEntry>>) -> (run: ProcessRun)
        ensures
            run@ == (match listing {
                Some(entries) => ProcessRunView::start(
                    self.provider().plan_for(
                        entry_views(entries@),
                        self.config().trace_output_dir,
                        self.config().profile_output_dir,
                    ),
                    self.config().binary_filter,
                    self.provider().converter(),
                ),
                None => ProcessRunView::unlisted(
                    self.config().trace_output_dir,
                    self.config().binary_filter,
                    self.provider().converter(),
                ),
            }),
    {
        self.trace_provider.process(
            listing,
            self.config.trace_output_dir(),
            self.config.profile_output_dir(),
            self.config.binary_filter(),
        )
    }
}

/// What a capture attempt that `captured` or not amounts to for its caller.
pub fn capture_result(captured: bool) -> (result: Result<(), SchedulerError>)
    ensures
        result == (if captured {
            Ok::<(), SchedulerError>(())
        } else {
            Err::<(), SchedulerError>(SchedulerError::CaptureFailure)
        }),
{
    if captured {
        Ok(())
    } else {
        Err(SchedulerError::CaptureFailure)
    }
}

/// The scheduler: the provider chosen at start, and whether periodic
/// collection is on.
#[derive(Debug)]
pub struct Scheduler {
    state: SchedulerState,
    trace_provider: Provider,
}

impl Scheduler {
    /// Whether periodic collection is on.
    pub closed spec fn state(&self) -> SchedulerState {
        self.state
    }

    /// The provider chosen at start.
    pub closed spec fn provider(&self) -> Provider {
        self.trace_provider
    }

    /// A scheduler for this device, idle, with the provider that
    /// `get_trace_provider` chooses; the error where it chooses none.
    pub fn new(etm_supported: bool, fallback_enabled: bool) -> (scheduler: Result<
        Scheduler,
        InitError,
    >)
        ensures
            match scheduler {
                Ok(s) => chosen_provider(etm_supported, fallback_enabled) == Some(s.provider())
                    && s.state() == SchedulerState::Idle,
                Err(e) => chosen_provider(etm_supported, fallback_enabled) is None,
            },
    {
        match get_trace_provider(etm_supported, fallback_enabled) {
            Ok(trace_provider) => Ok(Scheduler { state: SchedulerState::Idle, trace_provider }),
            Err(e) => Err(e),
        }
    }

    /// Whether periodic collection is on.
    pub fn is_scheduled(&self) -> (scheduled: bool)
        ensures
            scheduled == (self.state() == SchedulerState::Scheduled),
    {
        match self.state {
            SchedulerState::Scheduled => true,
            SchedulerState::Idle => false,
        }
    }

    /// Turns periodic collection on.
    ///
    /// While collection is on the call is refused and changes nothing.
    /// Otherwise the scheduler hands out the task to run in the background,
    /// which holds a copy of `config` and the provider.
    pub fn schedule_periodic(&mut self, config: &Config) -> (task: Result<
        PeriodicTask,
        SchedulerError,
    >)
        ensures
            final(self).state() == state_after(old(self).state(), Call::Schedule),
            final(self).provider() == old(self).provider(),
            match task {
                Ok(t) => refusal(old(self).state(), Call::Schedule) is None && t.config()
                    == config@ && t.provider() == old(self).provider(),
                Err(e) => refusal(old(self).state(), Call::Schedule) == Some(e),
            },
    {
        if self.is_scheduled() {
            return Err(SchedulerError::AlreadyScheduled);
        }
        self.state = SchedulerState::Scheduled;
        Ok(PeriodicTask { config: config.clone(), trace_provider: self.trace_provider })
    }

    /// Turns periodic collection off.
    ///
    /// While collection is off the call is refused and changes nothing.
    /// Otherwise the caller is to signal the background task, without waiting
    /// for it: no further capture starts once the task has seen the signal.
    pub fn terminate_periodic(&mut self) -> (done: Result<(), SchedulerError>)
        ensures
            final(self).state() == state_after(old(self).state(), Call::Terminate),
            final(self).provider() == old(self).provider(),
            match done {
                Ok(_) => refusal(old(self).state(), Call::Terminate) is None,
                Err(e) => refusal(old(self).state(), Call::Terminate) == Some(e),
            },
    {
        if !self.is_scheduled() {
            return Err(SchedulerError::NotScheduled);
        }
        self.state = SchedulerState::Idle;
        Ok(())
    }

    /// The request for one capture under `tag`, as made at second `secs`.
    pub fn one_shot_at(&self, config: &Config, tag: &str, secs: u64) -> (request: TraceRequest)
        ensures
            request@ == self.provider().request_at(
                config@.trace_output_dir,
                tag@,
                config@.sampling_period,
                secs as nat,
            ),
    {
        let period = config.sampling_period();
        self.trace_provider.trace_at(config.trace_output_dir(), tag, &period, secs)
    }

    /// The request for one capture under `tag` now, whether or not periodic
    /// collection is on.
    pub fn one_shot(&self, config: &Config, tag: &str) -> (request: TraceRequest)
        ensures
            exists|secs: nat|
                request@ == #[trigger] self.provider().request_at(
                    config@.trace_output_dir,
                    tag@,
                    config@.sampling_period,
                    secs,
                ),
    {
        let secs = current_stamp();
        let request = self.one_shot_at(config, tag, secs);
        assert(request@ == self.provider().request_at(
            config@.trace_output_dir,
            tag@,
            config@.sampling_period,
            secs as nat,
        ));
        request
    }

    /// The processing to start on the directories of `config`: run inline
    /// where the caller is `blocking`, detached where it is not.
    pub fn process(&self, config: &Config, blocking: bool) -> (request: ProcessRequest)
        ensures
            request.dispatching() == (if blocking {
                Dispatch::Inline
            } else {
                Dispatch::Detached
            }),
            request.config() == config@,
            request.provider() == self.provider(),
    {
        let dispatch = if blocking {
            Dispatch::Inline
        } else {
            Dispatch::Detached
        };
        ProcessRequest { dispatch, config: config.clone(), trace_provider: self.trace_provider }
    }

    /// The name of the provider in use.
    pub fn get_trace_provider_name(&self) -> (name: &'static str)
        ensures
            name@ == self.provider().name(),
    {
        self.trace_provider.get_name()
    }
}

} // verus!
