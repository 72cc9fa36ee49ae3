//! Runs on worker threads, hosted by a pipeline that only pretends.

use std::cell::RefCell;
use std::collections::VecDeque;
use std::rc::Rc;
use std::time::Duration;

use gstsmith_app::drive::{BusMessage, DriveAction, DriveEvent};
use gstsmith_app::error::{Failure, PipelineState};
use gstsmith_app::runtime::{stop, stop_log, Cleanup, Run, RunAction, RunEvent};
use gstsmith_app::{PipelineExit, PipelineRunner, RunError, ShutdownMode};

/// What the pretended pipeline does when it is called, and what was done to it.
struct Pipeline {
    state: PipelineState,
    refuses_playing: bool,
    refuses_null: bool,
    has_bus: bool,
    takes_eos: bool,
    /// Whether an EOS event that was taken comes out on the bus.
    returns_eos: bool,
    messages: VecDeque<BusMessage>,
    closes: bool,
    null_calls: usize,
    eos_calls: usize,
}

type Handle = Rc<RefCell<Pipeline>>;

fn pipeline() -> Handle {
    Rc::new(RefCell::new(Pipeline {
        state: PipelineState::Null,
        refuses_playing: false,
        refuses_null: false,
        has_bus: true,
        takes_eos: true,
        returns_eos: true,
        messages: VecDeque::new(),
        closes: false,
        null_calls: 0,
        eos_calls: 0,
    }))
}

fn refused() -> Result<(), String> {
    Err("Element failed to change its state".to_string())
}

fn set_playing(pipeline: &Handle) -> Result<(), String> {
    let mut p = pipeline.borrow_mut();
    if p.refuses_playing {
        return refused();
    }
    p.state = PipelineState::Playing;
    Ok(())
}

fn set_null(pipeline: &Handle) -> Result<(), String> {
    let mut p = pipeline.borrow_mut();
    p.null_calls += 1;
    if p.refuses_null {
        return refused();
    }
    p.state = PipelineState::Null;
    Ok(())
}

/// Holds the cleanup of a run, and performs it when it is dropped.
struct Guard {
    pipeline: Handle,
    cleanup: Cleanup,
}

impl Drop for Guard {
    fn drop(&mut self) {
        if self.cleanup.is_armed() {
            let _cleanup = set_null(&self.pipeline);
        }
    }
}

/// Performs the action that is due and reports it; `false` once there is nothing to do or
/// nothing to report.
fn perform(guard: &mut Guard, run: &mut Run, shutdown: &mut bool) -> bool {
    let pipeline = guard.pipeline.clone();
    let event = match run.action() {
        RunAction::AwaitPoll => {
            assert!(run.step(RunEvent::Polled));
            guard.cleanup = run.cleanup();
            return true;
        }
        RunAction::Start => RunEvent::Started(set_playing(&pipeline)),
        RunAction::OpenBus => RunEvent::BusOpened(pipeline.borrow().has_bus),
        RunAction::Drive(DriveAction::AwaitShutdownOrMessage) => {
            if *shutdown {
                *shutdown = false;
                RunEvent::Drive(DriveEvent::Shutdown)
            } else {
                let message = pipeline.borrow_mut().messages.pop_front();
                if message.is_none() && !pipeline.borrow().closes {
                    return false;
                }
                RunEvent::Drive(DriveEvent::Message(message))
            }
        }
        RunAction::Drive(DriveAction::SendEos { deadline_runs, .. }) => {
            assert!(deadline_runs);
            let mut p = pipeline.borrow_mut();
            p.eos_calls += 1;
            if p.takes_eos && p.returns_eos {
                p.messages.push_back(BusMessage::Eos);
            }
            RunEvent::Drive(DriveEvent::EosSent(p.takes_eos))
        }
        RunAction::Drive(DriveAction::AwaitDrained) => {
            let message = pipeline.borrow_mut().messages.pop_front();
            if message.is_none() && !pipeline.borrow().closes {
                RunEvent::Drive(DriveEvent::DeadlineElapsed("deadline has elapsed".to_string()))
            } else {
                RunEvent::Drive(DriveEvent::Message(message))
            }
        }
        RunAction::Drive(DriveAction::Finish) => unreachable!(),
        RunAction::Stop => {
            guard.cleanup = run.cleanup();
            RunEvent::Stopped(set_null(&pipeline))
        }
        RunAction::Return => return false,
    };
    assert!(run.step(event));
    true
}

fn host(runner: PipelineRunner<Handle>, shutdown: bool) -> Result<PipelineExit, RunError> {
    let (pipeline, mut run) = runner.run();
    let mut guard = Guard { pipeline, cleanup: run.cleanup() };
    let mut shutdown = shutdown;
    while perform(&mut guard, &mut run, &mut shutdown) {}
    run.finish().expect("the run is over")
}

fn error_message() -> BusMessage {
    BusMessage::Error {
        source: Some("/GstPipeline:pipeline0/GstIdentity:identity0".to_string()),
        error: "Failed after iterations as requested.".to_string(),
        debug: Some("gstidentity.c(790)".to_string()),
    }
}

#[test]
fn runs_to_eos_and_returns_pipeline_to_null() {
    let pipeline = pipeline();
    pipeline.borrow_mut().messages.push_back(BusMessage::Other);
    pipeline.borrow_mut().messages.push_back(BusMessage::Eos);

    let exit = host(PipelineRunner::new(pipeline.clone()), false).expect("pipeline runs to EOS");

    assert_eq!(exit, PipelineExit::Eos);
    assert_eq!(pipeline.borrow().state, PipelineState::Null);
    assert_eq!(pipeline.borrow().null_calls, 1);
    assert_eq!(pipeline.borrow().eos_calls, 0);
}

#[test]
fn stops_immediately_when_shutdown_is_requested() {
    let pipeline = pipeline();

    let exit =
        host(PipelineRunner::new(pipeline.clone()), true).expect("pipeline handles shutdown");

    assert_eq!(exit, PipelineExit::Shutdown);
    assert_eq!(pipeline.borrow().state, PipelineState::Null);
    assert_eq!(pipeline.borrow().eos_calls, 0);
}

#[test]
fn drains_eos_when_shutdown_requests_finalization() {
    let pipeline = pipeline();
    let runner = PipelineRunner::new(pipeline.clone()).shutdown_mode(ShutdownMode::Eos {
        timeout: Duration::from_secs(2),
    });

    let exit = host(runner, true).expect("pipeline drains EOS");

    assert_eq!(exit, PipelineExit::Shutdown);
    assert_eq!(pipeline.borrow().state, PipelineState::Null);
    assert_eq!(pipeline.borrow().eos_calls, 1);
}

#[test]
fn reports_bus_errors_and_still_returns_pipeline_to_null() {
    let pipeline = pipeline();
    pipeline.borrow_mut().messages.push_back(error_message());

    let err = host(PipelineRunner::new(pipeline.clone()), false)
        .expect_err("identity produces a pipeline error");

    assert!(err.message().contains("pipeline error"));
    assert_eq!(
        err.message(),
        "pipeline error from /GstPipeline:pipeline0/GstIdentity:identity0: \
         Failed after iterations as requested. (gstidentity.c(790))"
    );
    assert_eq!(err.full_message(), err.message());
    assert_eq!(pipeline.borrow().state, PipelineState::Null);
}

#[test]
fn cancelling_a_running_pipeline_returns_it_to_null() {
    let pipeline = pipeline();
    let (handle, mut run) = PipelineRunner::new(pipeline.clone()).run();
    let mut guard = Guard { pipeline: handle, cleanup: run.cleanup() };
    let mut shutdown = false;
    while perform(&mut guard, &mut run, &mut shutdown) {
        guard.cleanup = run.cleanup();
    }

    assert_eq!(pipeline.borrow().state, PipelineState::Playing);
    assert_eq!(run.cleanup(), Cleanup::Now);
    drop(run);
    drop(guard);
    assert_eq!(pipeline.borrow().state, PipelineState::Null);
    assert_eq!(pipeline.borrow().null_calls, 1);
}

#[test]
fn cancellation_during_startup_cleans_up_after_startup_finishes() {
    let pipeline = pipeline();
    let (handle, mut run) = PipelineRunner::new(pipeline.clone()).run();
    assert!(run.step(RunEvent::Polled));
    let guard = Guard { pipeline: handle, cleanup: run.cleanup() };
    assert_eq!(run.action(), RunAction::Start);
    assert_eq!(guard.cleanup, Cleanup::AfterStartup);

    // The worker owns the guard; the run is cancelled before the worker gets anywhere.
    drop(run);
    assert_eq!(pipeline.borrow().null_calls, 0);
    set_playing(&guard.pipeline).expect("startup finishes");
    assert_eq!(pipeline.borrow().state, PipelineState::Playing);
    drop(guard);
    assert_eq!(pipeline.borrow().state, PipelineState::Null);
    assert_eq!(pipeline.borrow().null_calls, 1);
}

#[test]
fn slow_teardown_keeps_the_executor_responsive_and_survives_cancellation() {
    let pipeline = pipeline();
    let (handle, mut run) = PipelineRunner::new(pipeline.clone()).run();
    let mut guard = Guard { pipeline: handle, cleanup: run.cleanup() };
    let mut shutdown = true;
    while run.action() != RunAction::Stop {
        assert!(perform(&mut guard, &mut run, &mut shutdown));
    }

    // The stop is scheduled and takes its time.
    guard.cleanup = run.cleanup();
    assert_eq!(guard.cleanup, Cleanup::Scheduled);
    let run = run.finish().expect_err("teardown still waits for the streaming thread");
    drop(run);
    drop(guard);
    assert_eq!(pipeline.borrow().null_calls, 0);
    set_null(&pipeline).expect("the scheduled stop runs");
    assert_eq!(pipeline.borrow().state, PipelineState::Null);
    assert_eq!(pipeline.borrow().null_calls, 1);
}

#[test]
fn eos_timeout_still_returns_pipeline_to_null() {
    let pipeline = pipeline();
    pipeline.borrow_mut().returns_eos = false;
    let runner = PipelineRunner::new(pipeline.clone()).shutdown_mode(ShutdownMode::Eos {
        timeout: Duration::from_millis(20),
    });

    let err = host(runner, true).expect_err("EOS cannot reach the bus");

    assert!(err.message().contains("timed out while draining"));
    assert_eq!(
        err.full_message(),
        "timed out while draining the pipeline after shutdown: deadline has elapsed"
    );
    assert_eq!(pipeline.borrow().state, PipelineState::Null);
}

#[test]
fn deadline_can_elapse_while_eos_is_sent() {
    let (_, mut run) = PipelineRunner::new(())
        .shutdown_mode(ShutdownMode::Eos { timeout: Duration::from_secs(1) })
        .run();
    assert!(run.step(RunEvent::Polled));
    assert!(run.step(RunEvent::Started(Ok(()))));
    assert!(run.step(RunEvent::BusOpened(true)));
    assert!(run.step(RunEvent::Drive(DriveEvent::Shutdown)));
    assert_eq!(
        run.action(),
        RunAction::Drive(DriveAction::SendEos {
            timeout: Duration::from_secs(1),
            deadline_runs: true,
        })
    );
    assert!(run.step(RunEvent::Drive(DriveEvent::DeadlineElapsed("late".to_string()))));
    assert_eq!(run.action(), RunAction::Stop);
    assert!(run.step(RunEvent::Stopped(Ok(()))));
    assert_eq!(
        run.finish(),
        Ok(Err(RunError::One(Failure::DrainTimedOut { cause: "late".to_string() })))
    );
}

#[test]
fn startup_failure_is_reported_and_the_pipeline_is_stopped() {
    let pipeline = pipeline();
    pipeline.borrow_mut().refuses_playing = true;

    let err = host(PipelineRunner::new(pipeline.clone()), false).expect_err("startup fails");

    assert_eq!(err.message(), "setting the pipeline to Playing");
    assert_eq!(
        err.full_message(),
        "setting the pipeline to Playing: Element failed to change its state"
    );
    assert_eq!(pipeline.borrow().null_calls, 1);
}

#[test]
fn missing_bus_is_reported_and_the_pipeline_is_stopped() {
    let pipeline = pipeline();
    pipeline.borrow_mut().has_bus = false;

    let err = host(PipelineRunner::new(pipeline.clone()), false).expect_err("there is no bus");

    assert_eq!(err, RunError::One(Failure::NoBus));
    assert_eq!(err.full_message(), "getting the pipeline message bus");
    assert_eq!(pipeline.borrow().state, PipelineState::Null);
}

#[test]
fn closed_bus_is_reported() {
    let pipeline = pipeline();
    pipeline.borrow_mut().closes = true;

    let err = host(PipelineRunner::new(pipeline.clone()), false).expect_err("the bus closes");

    assert_eq!(err.message(), "pipeline message bus closed unexpectedly");
    assert_eq!(pipeline.borrow().state, PipelineState::Null);
}

#[test]
fn closed_bus_while_draining_is_reported() {
    let pipeline = pipeline();
    pipeline.borrow_mut().closes = true;
    pipeline.borrow_mut().returns_eos = false;
    let runner = PipelineRunner::new(pipeline.clone()).shutdown_mode(ShutdownMode::Eos {
        timeout: Duration::from_secs(2),
    });

    let err = host(runner, true).expect_err("the bus closes");

    assert_eq!(err.message(), "pipeline message bus closed while draining EOS");
}

#[test]
fn rejected_eos_is_reported() {
    let pipeline = pipeline();
    pipeline.borrow_mut().takes_eos = false;
    let runner = PipelineRunner::new(pipeline.clone()).shutdown_mode(ShutdownMode::Eos {
        timeout: Duration::from_secs(2),
    });

    let err = host(runner, true).expect_err("EOS is rejected");

    assert_eq!(err.message(), "pipeline rejected the shutdown EOS event");
    assert_eq!(pipeline.borrow().state, PipelineState::Null);
}

#[test]
fn error_while_draining_is_reported() {
    let pipeline = pipeline();
    pipeline.borrow_mut().messages.push_back(BusMessage::Other);
    pipeline.borrow_mut().messages.push_back(BusMessage::Error {
        source: None,
        error: "no space left".to_string(),
        debug: None,
    });
    let runner = PipelineRunner::new(pipeline.clone()).shutdown_mode(ShutdownMode::Eos {
        timeout: Duration::from_secs(2),
    });

    let err = host(runner, true).expect_err("draining fails");

    assert_eq!(err.message(), "pipeline error from unknown: no space left ()");
    assert_eq!(pipeline.borrow().eos_calls, 1);
}

#[test]
fn failed_stop_after_a_good_run_is_reported() {
    let pipeline = pipeline();
    pipeline.borrow_mut().messages.push_back(BusMessage::Eos);
    pipeline.borrow_mut().refuses_null = true;

    let err = host(PipelineRunner::new(pipeline.clone()), false).expect_err("the stop fails");

    assert_eq!(err.message(), "setting the pipeline to Null");
    assert_eq!(
        err.full_message(),
        "setting the pipeline to Null: Element failed to change its state"
    );
    assert_eq!(pipeline.borrow().null_calls, 1);
}

#[test]
fn failed_run_and_failed_stop_are_reported_together() {
    let pipeline = pipeline();
    pipeline.borrow_mut().refuses_playing = true;
    pipeline.borrow_mut().refuses_null = true;

    let err = host(PipelineRunner::new(pipeline.clone()), false).expect_err("both fail");

    let text = "setting the pipeline to Playing: Element failed to change its state; \
                additionally failed to stop the pipeline: \
                setting the pipeline to Null: Element failed to change its state";
    assert_eq!(err.message(), text);
    assert_eq!(err.full_message(), text);
}

#[test]
fn events_that_are_not_awaited_change_nothing() {
    let (_, mut run) = PipelineRunner::new(()).run();
    assert!(!run.step(RunEvent::Stopped(Ok(()))));
    assert!(!run.step(RunEvent::Started(Ok(()))));
    assert_eq!(run.action(), RunAction::AwaitPoll);
    assert!(run.step(RunEvent::Polled));
    assert!(!run.step(RunEvent::Polled));
    assert!(!run.step(RunEvent::Drive(DriveEvent::Shutdown)));
    assert_eq!(run.action(), RunAction::Start);
    assert!(run.step(RunEvent::Started(Ok(()))));
    assert!(!run.step(RunEvent::Started(Ok(()))));
    assert_eq!(run.action(), RunAction::OpenBus);
    assert!(run.step(RunEvent::BusOpened(true)));
    assert!(!run.step(RunEvent::Drive(DriveEvent::EosSent(true))));
    assert_eq!(run.action(), RunAction::Drive(DriveAction::AwaitShutdownOrMessage));
}

#[test]
fn ignored_messages_leave_no_trace() {
    for noise in [0usize, 1, 5] {
        let pipeline = pipeline();
        for _ in 0..noise {
            pipeline.borrow_mut().messages.push_back(BusMessage::Other);
        }
        pipeline.borrow_mut().messages.push_back(BusMessage::Eos);
        assert_eq!(host(PipelineRunner::new(pipeline), false), Ok(PipelineExit::Eos));
    }
}

#[test]
fn longest_run_takes_seven_events_and_then_no_more() {
    let (_, mut run) = PipelineRunner::new(())
        .shutdown_mode(ShutdownMode::Eos { timeout: Duration::from_secs(1) })
        .run();
    let eos = || RunEvent::Drive(DriveEvent::Message(Some(BusMessage::Eos)));
    assert!(run.step(RunEvent::Polled));
    assert!(run.step(RunEvent::Started(Ok(()))));
    assert!(run.step(RunEvent::BusOpened(true)));
    assert!(run.step(RunEvent::Drive(DriveEvent::Shutdown)));
    assert!(run.step(RunEvent::Drive(DriveEvent::EosSent(true))));
    assert!(run.step(eos()));
    assert!(run.step(RunEvent::Stopped(Ok(()))));
    assert_eq!(run.action(), RunAction::Return);
    assert!(!run.step(eos()));
    assert!(!run.step(RunEvent::Stopped(Err("again".to_string()))));
    assert_eq!(run.finish(), Ok(Ok(PipelineExit::Shutdown)));
}

#[test]
fn dropping_a_run_that_was_never_polled_leaves_the_pipeline_alone() {
    let pipeline = pipeline();
    pipeline.borrow_mut().state = PipelineState::Ready;
    let (handle, run) = PipelineRunner::new(pipeline.clone()).run();
    let guard = Guard { pipeline: handle, cleanup: run.cleanup() };
    assert_eq!(run.action(), RunAction::AwaitPoll);
    assert_eq!(guard.cleanup, Cleanup::NotOwed);

    drop(run);
    drop(guard);
    assert_eq!(pipeline.borrow().null_calls, 0);
    assert_eq!(pipeline.borrow().state, PipelineState::Ready);
}

#[test]
fn failed_stop_is_logged_and_a_good_one_is_not() {
    assert_eq!(stop(Ok(())), Ok(()));
    assert_eq!(stop_log(&Ok(())), None);

    let failure = stop(refused()).expect_err("the stop is refused");
    assert_eq!(failure.message(), "setting the pipeline to Null");
    let line = "pipeline cleanup failed: setting the pipeline to Null: \
                Element failed to change its state";
    assert_eq!(stop_log(&refused()), Some(line.to_string()));
    assert_eq!(failure.cleanup_report(), line);
}
