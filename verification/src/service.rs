//! The collection service: the configuration and the scheduler behind one
//! door, and the answers it gives to the outside.
//!
//! The service is one value that holds both. Whoever owns it puts it behind
//! a single lock, so that no call sees the configuration of one moment with
//! the scheduler of another. Every failure leaves through the same narrow
//! status.

use crate::artifact::DirEntry;
use crate::config::{Config, ConfigView, CONFIG_FILE, REPORT_OUTPUT_DIR};
use crate::processing::{entry_views, ProcessError};
use crate::report::{plan_report, report_sources, source_views, PackError, ReportPlan, REPORT_FILE_NAME};
use crate::artifact::joined;
use crate::scheduler::{
    capture_result, refusal, state_after, Call, Dispatch, PeriodicTask, ProcessRequest, Scheduler,
    SchedulerState,
};
use crate::trace_provider::{chosen_provider, InitError, Provider, TraceProvider, TraceRequest};
use vstd::prelude::*;
use vstd::string::*;

verus! {

/// The one error code that leaves the service.
pub const SERVICE_SPECIFIC_ERROR: i32 = 1;

/// The status that a failed call is answered with.
#[derive(Clone, Copy, Debug, PartialEq, Eq, Structural)]
pub struct Status {
    /// The service specific error code.
    pub service_specific_error: i32,
}

/// The status for a failure described by `msg`. The text stays behind: every
/// failure is answered with the same code.
pub fn err_msg_to_binder_status(msg: &str) -> (status: Status)
    ensures
        status == (Status { service_specific_error: SERVICE_SPECIFIC_ERROR }),
{
    Status { service_specific_error: SERVICE_SPECIFIC_ERROR }
}

/// A step to take on the directories before the service starts.
#[derive(Clone, Debug, PartialEq, Eq)]
pub enum StartupAction {
    /// Remove the directory and all it holds; it may be absent.
    RemoveDirAll { dir: String },
    /// Create the directory, empty.
    CreateDir { dir: String },
    /// Write the service's configuration to the file.
    WriteConfig { file: String },
}

/// What a `StartupAction` holds.
pub enum StartupActionView {
    RemoveDirAll { dir: Seq<char> },
    CreateDir { dir: Seq<char> },
    WriteConfig { file: Seq<char> },
}

impl View for StartupAction {
    type V = StartupActionView;

    open spec fn view(&self) -> StartupActionView {
        match self {
            StartupAction::RemoveDirAll { dir } => StartupActionView::RemoveDirAll { dir: dir@ },
            StartupAction::CreateDir { dir } => StartupActionView::CreateDir { dir: dir@ },
            StartupAction::WriteConfig { file } => StartupActionView::WriteConfig { file: file@ },
        }
    }
}

/// The startup actions, each by its view.
pub open spec fn action_views(actions: Seq<StartupAction>) -> Seq<StartupActionView> {
    actions.map_values(|a: StartupAction| a@)
}

/// Whether the configuration has changed since it was last kept: none was
/// kept, or a different one.
pub open spec fn drifted(persisted: Option<ConfigView>, current: ConfigView) -> bool {
    persisted != Some(current)
}

/// What to do at startup. After a change of configuration the artifacts of
/// earlier sessions are invalid: both output directories are removed and
/// made anew, and the new configuration is kept. Without a change nothing is
/// touched.
pub open spec fn startup_steps(persisted: Option<ConfigView>, current: ConfigView) -> Seq<
    StartupActionView,
> {
    if drifted(persisted, current) {
        seq![
            StartupActionView::RemoveDirAll { dir: current.profile_output_dir },
            StartupActionView::RemoveDirAll { dir: current.trace_output_dir },
            StartupActionView::CreateDir { dir: current.profile_output_dir },
            StartupActionView::CreateDir { dir: current.trace_output_dir },
            StartupActionView::WriteConfig { file: CONFIG_FILE@ },
        ]
    } else {
        Seq::empty()
    }
}

/// What the service keeps on disk, as far as startup is concerned: the
/// directories with the names of the files in each, and the configuration
/// kept from the last start.
pub struct Storage {
    pub dirs: Map<Seq<char>, Set<Seq<char>>>,
    pub kept: Option<ConfigView>,
}

/// The storage after one startup action, taken by a service with the
/// configuration `current`.
pub open spec fn storage_after(
    storage: Storage,
    action: StartupActionView,
    current: ConfigView,
) -> Storage {
    match action {
        StartupActionView::RemoveDirAll { dir } => Storage {
            dirs: storage.dirs.remove(dir),
            ..storage
        },
        StartupActionView::CreateDir { dir } => if storage.dirs.contains_key(dir) {
            storage
        } else {
            Storage { dirs: storage.dirs.insert(dir, Set::empty()), ..storage }
        },
        StartupActionView::WriteConfig { file } => Storage { kept: Some(current), ..storage },
    }
}

/// The storage after a sequence of startup actions.
pub open spec fn storage_after_all(
    storage: Storage,
    actions: Seq<StartupActionView>,
    current: ConfigView,
) -> Storage
    decreases actions.len(),
{
    if actions.len() == 0 {
        storage
    } else {
        storage_after(
            storage_after_all(storage, actions.drop_last(), current),
            actions.last(),
            current,
        )
    }
}

/// A start after a change of configuration leaves the trace directory and
/// the profile directory in place and empty, keeps the new configuration, and
/// touches no other directory. A start without a change leaves everything as
/// it was.
pub proof fn lemma_startup_invalidates_on_drift(
    storage: Storage,
    persisted: Option<ConfigView>,
    current: ConfigView,
)
    ensures
        drifted(persisted, current) ==> {
            let after = storage_after_all(storage, startup_steps(persisted, current), current);
            &&& after.dirs.contains_key(current.trace_output_dir)
            &&& after.dirs[current.trace_output_dir] == Set::<Seq<char>>::empty()
            &&& after.dirs.contains_key(current.profile_output_dir)
            &&& after.dirs[current.profile_output_dir] == Set::<Seq<char>>::empty()
            &&& after.kept == Some(current)
            &&& after.dirs.remove(current.trace_output_dir).remove(current.profile_output_dir)
                == storage.dirs.remove(current.trace_output_dir).remove(
                current.profile_output_dir,
            )
        },
        !drifted(persisted, current) ==> storage_after_all(
            storage,
            startup_steps(persisted, current),
            current,
        ) == storage,
{
    if drifted(persisted, current) {
        let steps = startup_steps(persisted, current);
        let s4 = steps.drop_last();
        let s3 = s4.drop_last();
        let s2 = s3.drop_last();
        let s1 = s2.drop_last();
        let s0 = s1.drop_last();
        let a0 = storage_after_all(storage, s0, current);
        let a1 = storage_after_all(storage, s1, current);
        let a2 = storage_after_all(storage, s2, current);
        let a3 = storage_after_all(storage, s3, current);
        let a4 = storage_after_all(storage, s4, current);
        let a5 = storage_after_all(storage, steps, current);
        assert(a0 == storage);
        assert(a1 == storage_after(a0, steps[0], current));
        assert(a2 == storage_after(a1, steps[1], current));
        assert(a3 == storage_after(a2, steps[2], current));
        assert(a4 == storage_after(a3, steps[3], current));
        assert(a5 == storage_after(a4, steps[4], current));
        assert(a5.dirs.remove(current.trace_output_dir).remove(current.profile_output_dir)
            =~= storage.dirs.remove(current.trace_output_dir).remove(
            current.profile_output_dir,
        ));
    }
}

/// The collection service.
#[derive(Debug)]
pub struct ProfcollectdBinderService {
    config: Config,
    scheduler: Scheduler,
}

impl ProfcollectdBinderService {
    /// The configuration of this start.
    pub closed spec fn config(&self) -> ConfigView {
        self.config@
    }

    /// Whether periodic collection is on.
    pub closed spec fn state(&self) -> SchedulerState {
        self.scheduler.state()
    }

    /// The trace provider in use.
    pub closed spec fn provider(&self) -> Provider {
        self.scheduler.provider()
    }

    /// Sets the service up for this start.
    ///
    /// `config` is the configuration of this start and `persisted` the one
    /// kept from the last, if one was kept and could be read. Where no trace
    /// provider is available there is no service, and nothing is to be
    /// touched. Otherwise the service comes with the steps to take on the
    /// directories before it is put to use.
    pub fn new(
        etm_supported: bool,
        fallback_enabled: bool,
        config: Config,
        persisted: Option<&Config>,
    ) -> (started: Result<(ProfcollectdBinderService, Vec<StartupAction>), InitError>)
        ensures
            match started {
                Ok((service, actions)) => {
                    &&& chosen_provider(etm_supported, fallback_enabled) == Some(
                        service.provider(),
                    )
                    &&& service.state() == SchedulerState::Idle
                    &&& service.config() == config@
                    &&& action_views(actions@) == startup_steps(
                        match persisted {
                            Some(p) => Some(p@),
                            None => None,
                        },
                        config@,
                    )
                },
                Err(_) => chosen_provider(etm_supported, fallback_enabled) is None,
            },
    {
        let scheduler = match Scheduler::new(etm_supported, fallback_enabled) {
            Ok(scheduler) => scheduler,
            Err(e) => {
                return Err(e);
            },
        };
        let unchanged = match persisted {
            Some(p) => *p == config,
            None => false,
        };
        let mut actions: Vec<StartupAction> = Vec::new();
        if !unchanged {
            actions.push(
                StartupAction::RemoveDirAll { dir: String::from_str(config.profile_output_dir()) },
            );
            actions.push(
                StartupAction::RemoveDirAll { dir: String::from_str(config.trace_output_dir()) },
            );
            actions.push(
                StartupAction::CreateDir { dir: String::from_str(config.profile_output_dir()) },
            );
            actions.push(
                StartupAction::CreateDir { dir: String::from_str(config.trace_output_dir()) },
            );
            actions.push(StartupAction::WriteConfig { file: String::from_str(CONFIG_FILE) });
        }
        assert(action_views(actions@) =~= startup_steps(
            match persisted {
                Some(p) => Some(p@),
                None => None,
            },
            config@,
        ));
        Ok((ProfcollectdBinderService { config, scheduler }, actions))
    }

    /// The configuration of this start.
    pub fn configuration(&self) -> (config: &Config)
        ensures
            config@ == self.config(),
    {
        &self.config
    }

    /// Turns periodic collection on, with the configuration of this start.
    pub fn schedule(&mut self) -> (task: Result<PeriodicTask, Status>)
        ensures
            final(self).state() == state_after(old(self).state(), Call::Schedule),
            final(self).provider() == old(self).provider(),
            final(self).config() == old(self).config(),
            match task {
                Ok(t) => refusal(old(self).state(), Call::Schedule) is None && t.config() == old(
                    self,
                ).config() && t.provider() == old(self).provider(),
                Err(status) => refusal(old(self).state(), Call::Schedule) is Some
                    && status.service_specific_error == SERVICE_SPECIFIC_ERROR,
            },
    {
        match self.scheduler.schedule_periodic(&self.config) {
            Ok(task) => Ok(task),
            Err(e) => Err(err_msg_to_binder_status(e.message())),
        }
    }

    /// Turns periodic collection off.
    pub fn terminate(&mut self) -> (done: Result<(), Status>)
        ensures
            final(self).state() == state_after(old(self).state(), Call::Terminate),
            final(self).provider() == old(self).provider(),
            final(self).config() == old(self).config(),
            match done {
                Ok(_) => refusal(old(self).state(), Call::Terminate) is None,
                Err(status) => refusal(old(self).state(), Call::Terminate) is Some
                    && status.service_specific_error == SERVICE_SPECIFIC_ERROR,
            },
    {
        match self.scheduler.terminate_periodic() {
            Ok(()) => Ok(()),
            Err(e) => Err(err_msg_to_binder_status(e.message())),
        }
    }

    /// The request for one capture under `tag`, now.
    pub fn trace_once(&self, tag: &str) -> (request: Result<TraceRequest, Status>)
        ensures
            match request {
                Ok(r) => exists|secs: nat|
                    r@ == #[trigger] self.provider().request_at(
                        self.config().trace_output_dir,
                        tag@,
                        self.config().sampling_period,
                        secs,
                    ),
                Err(_) => false,
            },
    {
        let request = self.scheduler.one_shot(&self.config, tag);
        proof {
            let secs = choose|secs: nat|
                request@ == #[trigger] self.scheduler.provider().request_at(
                    self.config@.trace_output_dir,
                    tag@,
                    self.config@.sampling_period,
                    secs,
                );
            assert(request@ == self.provider().request_at(
                self.config().trace_output_dir,
                tag@,
                self.config().sampling_period,
                secs,
            ));
        }
        Ok(request)
    }

    /// The answer to `trace_once` once its capture was attempted.
    pub fn trace_once_done(&self, captured: bool) -> (done: Result<(), Status>)
        ensures
            match done {
                Ok(_) => captured,
                Err(status) => !captured && status.service_specific_error
                    == SERVICE_SPECIFIC_ERROR,
            },
    {
        match capture_result(captured) {
            Ok(()) => Ok(()),
            Err(e) => Err(err_msg_to_binder_status(e.message())),
        }
    }

    /// The processing to start, inline or detached.
    pub fn process(&self, blocking: bool) -> (request: Result<ProcessRequest, Status>)
        ensures
            match request {
                Ok(r) => r.dispatching() == (if blocking {
                    Dispatch::Inline
                } else {
                    Dispatch::Detached
                }) && r.config() == self.config() && r.provider() == self.provider(),
                Err(_) => false,
            },
    {
        Ok(self.scheduler.process(&self.config, blocking))
    }

    /// The answer to `process` once an inline run has ended with `failure` or without.
    pub fn process_done(&self, failure: &Option<ProcessError>) -> (done: Result<(), Status>)
        ensures
            match done {
                Ok(_) => failure is None,
                Err(status) => failure is Some && status.service_specific_error
                    == SERVICE_SPECIFIC_ERROR,
            },
    {
        match failure {
            None => Ok(()),
            Some(_) => Err(err_msg_to_binder_status("Failed to process traces.")),
        }
    }

    /// The first half of a report: the processing to run, inline.
    pub fn report(&self) -> (request: Result<ProcessRequest, Status>)
        ensures
            match request {
                Ok(r) => r.dispatching() == Dispatch::Inline && r.config() == self.config()
                    && r.provider() == self.provider(),
                Err(_) => false,
            },
    {
        self.process(true)
    }

    /// The second half of a report, once processing has ended.
    ///
    /// Where processing failed there is no report. Otherwise the report is
    /// planned from `listing`, the listing of the profile directory taken
    /// after processing.
    pub fn report_after_processing(
        &self,
        failure: &Option<ProcessError>,
        listing: &Vec<DirEntry>,
    ) -> (plan: Result<ReportPlan, Status>)
        ensures
            match plan {
                Ok(p) => failure is None && p.archive@ == joined(
                    REPORT_OUTPUT_DIR@,
                    REPORT_FILE_NAME@,
                ) && source_views(p.sources@) == report_sources(
                    entry_views(listing@),
                    self.config().profile_output_dir,
                ),
                Err(status) => failure is Some && status.service_specific_error
                    == SERVICE_SPECIFIC_ERROR,
            },
    {
        match self.process_done(failure) {
            Ok(()) => Ok(plan_report(listing, self.config.profile_output_dir(), REPORT_OUTPUT_DIR)),
            Err(status) => Err(status),
        }
    }

    /// The answer to `report` once packing has ended in `packed`.
    pub fn report_done(&self, packed: Result<Vec<u8>, PackError>) -> (archive: Result<
        Vec<u8>,
        Status,
    >)
        ensures
            match archive {
                Ok(bytes) => packed == Ok::<Vec<u8>, PackError>(bytes),
                Err(status) => packed is Err && status.service_specific_error
                    == SERVICE_SPECIFIC_ERROR,
            },
    {
        match packed {
            Ok(bytes) => Ok(bytes),
            Err(_) => Err(err_msg_to_binder_status("Failed to pack the report.")),
        }
    }

    /// The name of the trace provider in use.
    pub fn get_supported_provider(&self) -> (name: Result<String, Status>)
        ensures
            match name {
                Ok(n) => n@ == self.provider().name(),
                Err(_) => false,
            },
    {
        Ok(String::from_str(self.scheduler.get_trace_provider_name()))
    }
}

} // verus!
