use profcollectd::artifact::DirEntry;
use profcollectd::config::Config;
use profcollectd::processing::{Converter, ProcessAction, ProcessError};
use profcollectd::scheduler::{
    capture_result, Dispatch, Scheduler, SchedulerError, WaitOutcome, WorkerStep, PERIODIC_TAG,
};
use profcollectd::timespan::TimeSpan;
use profcollectd::trace_provider::{Capture, InitError, RecordScope};

fn config(interval_ms: u64, period_ms: u64) -> Config {
    Config::new(
        String::from("fp"),
        TimeSpan::from_millis(interval_ms),
        TimeSpan::from_millis(period_ms),
        String::from("/t/"),
        String::from("/p/"),
        String::from("bin"),
    )
    .unwrap()
}

#[test]
fn no_scheduler_without_a_provider() {
    assert_eq!(Scheduler::new(false, false).err(), Some(InitError {}));
}

#[test]
fn the_fallback_is_reported_by_name() {
    let scheduler = Scheduler::new(false, true).unwrap();
    assert_eq!(scheduler.get_trace_provider_name(), "dummy");
}

#[test]
fn the_etm_provider_is_reported_by_name() {
    assert_eq!(Scheduler::new(true, false).unwrap().get_trace_provider_name(), "simpleperf_etm");
    assert_eq!(Scheduler::new(true, true).unwrap().get_trace_provider_name(), "simpleperf_etm");
}

#[test]
fn a_new_scheduler_is_idle() {
    assert!(!Scheduler::new(true, false).unwrap().is_scheduled());
}

#[test]
fn scheduling_turns_collection_on() {
    let mut scheduler = Scheduler::new(true, false).unwrap();
    assert!(scheduler.schedule_periodic(&config(1000, 100)).is_ok());
    assert!(scheduler.is_scheduled());
}

#[test]
fn scheduling_twice_is_refused_and_changes_nothing() {
    let mut scheduler = Scheduler::new(true, false).unwrap();
    scheduler.schedule_periodic(&config(1000, 100)).unwrap();
    assert_eq!(
        scheduler.schedule_periodic(&config(1000, 100)).err(),
        Some(SchedulerError::AlreadyScheduled)
    );
    assert!(scheduler.is_scheduled());
}

#[test]
fn terminating_while_idle_is_refused_and_changes_nothing() {
    let mut scheduler = Scheduler::new(true, false).unwrap();
    assert_eq!(scheduler.terminate_periodic(), Err(SchedulerError::NotScheduled));
    assert!(!scheduler.is_scheduled());
}

#[test]
fn terminating_turns_collection_off() {
    let mut scheduler = Scheduler::new(true, false).unwrap();
    scheduler.schedule_periodic(&config(1000, 100)).unwrap();
    assert_eq!(scheduler.terminate_periodic(), Ok(()));
    assert!(!scheduler.is_scheduled());
    assert_eq!(scheduler.terminate_periodic(), Err(SchedulerError::NotScheduled));
}

#[test]
fn collection_can_be_scheduled_again_after_it_was_terminated() {
    let mut scheduler = Scheduler::new(false, true).unwrap();
    scheduler.schedule_periodic(&config(1000, 100)).unwrap();
    scheduler.terminate_periodic().unwrap();
    assert!(scheduler.schedule_periodic(&config(2000, 100)).is_ok());
    assert!(scheduler.is_scheduled());
}

#[test]
fn every_sequence_of_calls_folds_the_transitions() {
    // Each bit of `word` is one call: 1 schedules, 0 terminates.
    let cfg = config(1000, 100);
    for length in 0..8u32 {
        for word in 0..(1u32 << length) {
            let mut scheduler = Scheduler::new(true, false).unwrap();
            let mut expected = false;
            for i in 0..length {
                let schedule = (word >> i) & 1 == 1;
                if schedule {
                    let answer = scheduler.schedule_periodic(&cfg).err();
                    if expected {
                        assert_eq!(answer, Some(SchedulerError::AlreadyScheduled));
                    } else {
                        assert_eq!(answer, None);
                        expected = true;
                    }
                } else {
                    let answer = scheduler.terminate_periodic().err();
                    if expected {
                        assert_eq!(answer, None);
                        expected = false;
                    } else {
                        assert_eq!(answer, Some(SchedulerError::NotScheduled));
                    }
                }
                assert_eq!(scheduler.is_scheduled(), expected);
            }
        }
    }
}

#[test]
fn error_messages() {
    assert_eq!(SchedulerError::AlreadyScheduled.message(), "Already scheduled.");
    assert_eq!(SchedulerError::NotScheduled.message(), "Not scheduled.");
    assert_eq!(SchedulerError::CaptureFailure.message(), "Trace capture failed.");
}

#[test]
fn the_periodic_tag() {
    assert_eq!(PERIODIC_TAG, "periodic");
}

#[test]
fn the_task_waits_one_collection_interval() {
    let mut scheduler = Scheduler::new(true, false).unwrap();
    let task = scheduler.schedule_periodic(&config(100, 50)).unwrap();
    assert_eq!(task.wait(), TimeSpan::from_millis(100));
}

#[test]
fn the_task_captures_when_the_wait_runs_out() {
    let mut scheduler = Scheduler::new(true, false).unwrap();
    let task = scheduler.schedule_periodic(&config(100, 50)).unwrap();
    match task.on_wait_at(WaitOutcome::TimedOut, 1700000000) {
        WorkerStep::Capture(request) => {
            assert_eq!(request.trace_file, "/t/1700000000_periodic.etmtrace");
            assert_eq!(request.sampling_period, TimeSpan::from_millis(50));
            assert_eq!(request.capture, Capture::Simpleperf { scope: RecordScope::Both });
        }
        WorkerStep::Exit => panic!("the task left without a signal"),
    }
}

#[test]
fn the_task_leaves_on_the_signal() {
    let mut scheduler = Scheduler::new(true, false).unwrap();
    let task = scheduler.schedule_periodic(&config(100, 50)).unwrap();
    assert_eq!(task.on_wait_at(WaitOutcome::Cancelled, 1700000000), WorkerStep::Exit);
    assert_eq!(task.on_wait(WaitOutcome::Cancelled), WorkerStep::Exit);
}

#[test]
fn the_task_stamps_captures_with_the_clock() {
    let mut scheduler = Scheduler::new(false, true).unwrap();
    let task = scheduler.schedule_periodic(&config(100, 50)).unwrap();
    match task.on_wait(WaitOutcome::TimedOut) {
        WorkerStep::Capture(request) => {
            assert!(request.trace_file.starts_with("/t/"));
            assert!(request.trace_file.ends_with("_periodic.dummytrace"));
            assert_eq!(request.capture, Capture::Placeholder);
        }
        WorkerStep::Exit => panic!("the task left without a signal"),
    }
}

#[test]
fn the_task_keeps_the_configuration_it_was_scheduled_with() {
    let mut scheduler = Scheduler::new(true, false).unwrap();
    let task = scheduler.schedule_periodic(&config(100, 50)).unwrap();
    scheduler.terminate_periodic().unwrap();
    let later = scheduler.schedule_periodic(&config(900, 70)).unwrap();
    assert_eq!(task.wait(), TimeSpan::from_millis(100));
    assert_eq!(later.wait(), TimeSpan::from_millis(900));
}

#[test]
fn terminating_before_the_first_cycle_leaves_no_capture() {
    // Scheduled with an interval of 100 ms and terminated after 50 ms: the
    // first wait of the task ends with the signal, not with a timeout.
    let mut scheduler = Scheduler::new(true, false).unwrap();
    let task = scheduler.schedule_periodic(&config(100, 50)).unwrap();
    assert_eq!(task.wait(), TimeSpan::from_millis(100));
    scheduler.terminate_periodic().unwrap();
    let mut captures: Vec<String> = Vec::new();
    let mut waits = vec![WaitOutcome::Cancelled].into_iter();
    loop {
        match task.on_wait(waits.next().unwrap()) {
            WorkerStep::Capture(request) => captures.push(request.trace_file),
            WorkerStep::Exit => break,
        }
    }
    assert!(captures.is_empty());
    assert!(!scheduler.is_scheduled());
}

#[test]
fn the_task_captures_once_for_each_interval_that_passes() {
    let mut scheduler = Scheduler::new(true, false).unwrap();
    let task = scheduler.schedule_periodic(&config(100, 50)).unwrap();
    let waits = vec![
        WaitOutcome::TimedOut,
        WaitOutcome::TimedOut,
        WaitOutcome::TimedOut,
        WaitOutcome::Cancelled,
    ];
    let mut captures = 0;
    let mut left = false;
    for (i, outcome) in waits.into_iter().enumerate() {
        match task.on_wait_at(outcome, 100 + i as u64) {
            WorkerStep::Capture(request) => {
                assert_eq!(request.trace_file, format!("/t/{}_periodic.etmtrace", 100 + i));
                captures += 1;
            }
            WorkerStep::Exit => left = true,
        }
    }
    assert_eq!(captures, 3);
    assert!(left);
}

#[test]
fn one_shot_asks_for_one_capture_under_its_tag() {
    let scheduler = Scheduler::new(true, false).unwrap();
    let request = scheduler.one_shot_at(&config(1000, 250), "boot", 1700000001);
    assert_eq!(request.trace_file, "/t/1700000001_boot.etmtrace");
    assert_eq!(request.sampling_period, TimeSpan::from_millis(250));
}

#[test]
fn one_shot_now_embeds_the_tag() {
    let scheduler = Scheduler::new(true, false).unwrap();
    let request = scheduler.one_shot(&config(1000, 250), "manual");
    assert!(request.trace_file.starts_with("/t/"));
    assert!(request.trace_file.ends_with("_manual.etmtrace"));
    assert_eq!(request.sampling_period, TimeSpan::from_millis(250));
}

#[test]
fn one_shot_does_not_depend_on_the_schedule() {
    let mut scheduler = Scheduler::new(true, false).unwrap();
    let idle = scheduler.one_shot_at(&config(1000, 250), "x", 5);
    scheduler.schedule_periodic(&config(1000, 250)).unwrap();
    let scheduled = scheduler.one_shot_at(&config(1000, 250), "x", 5);
    assert_eq!(idle, scheduled);
    assert!(scheduler.is_scheduled());
}

#[test]
fn a_failed_capture_is_an_error_for_its_caller() {
    assert_eq!(capture_result(true), Ok(()));
    assert_eq!(capture_result(false), Err(SchedulerError::CaptureFailure));
}

#[test]
fn blocking_processing_runs_inline() {
    let scheduler = Scheduler::new(true, false).unwrap();
    assert_eq!(scheduler.process(&config(1000, 250), true).dispatch(), Dispatch::Inline);
    assert_eq!(scheduler.process(&config(1000, 250), false).dispatch(), Dispatch::Detached);
}

#[test]
fn processing_is_planned_on_the_directories_of_the_configuration() {
    let scheduler = Scheduler::new(true, false).unwrap();
    let request = scheduler.process(&config(1000, 250), true);
    assert_eq!(request.trace_dir(), "/t/");
    let listing = vec![DirEntry { name: String::from("3_x.etmtrace"), is_file: true }];
    let run = request.start(Some(&listing));
    assert_eq!(
        run.next_action(),
        ProcessAction::Convert {
            trace_file: String::from("/t/3_x.etmtrace"),
            profile_file: String::from("/p/3_x.data"),
            binary_filter: String::from("bin"),
            converter: Converter::Simpleperf,
        }
    );
}

#[test]
fn processing_a_directory_that_cannot_be_listed_fails_at_once() {
    let scheduler = Scheduler::new(true, false).unwrap();
    let run = scheduler.process(&config(1000, 250), true).start(None);
    assert!(run.is_finished());
    assert_eq!(
        run.next_action(),
        ProcessAction::Finish {
            failure: Some(ProcessError::Unlisted { trace_dir: String::from("/t/") })
        }
    );
}

#[test]
fn one_shot_with_the_fallback_asks_for_the_artifact() {
    let scheduler = Scheduler::new(false, true).unwrap();
    let request = scheduler.one_shot_at(&config(1000, 250), "boot", 7);
    assert_eq!(request.trace_file, "/t/7_boot.dummytrace");
    assert_eq!(request.capture, Capture::Placeholder);
}

#[test]
fn processing_with_the_dummy_leaves_the_traces_of_others_alone() {
    let scheduler = Scheduler::new(false, true).unwrap();
    let listing = vec![DirEntry { name: String::from("3_x.etmtrace"), is_file: true }];
    let run = scheduler.process(&config(1000, 250), false).start(Some(&listing));
    assert_eq!(run.next_action(), ProcessAction::Finish { failure: None });
}
