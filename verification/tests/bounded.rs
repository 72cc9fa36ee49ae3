//! Runs whose teardown has a deadline.

use std::time::Duration;

use gstsmith_app::bounded::{stop, PipelineRunner, Run, RunAction, RunEvent};
use gstsmith_app::clock::clock_nanoseconds;
use gstsmith_app::drive::{BusMessage, DriveAction, DriveEvent};
use gstsmith_app::error::{Failure, PipelineState};
use gstsmith_app::{PipelineExit, RunError, ShutdownMode};

fn settled(current: PipelineState) -> RunEvent {
    RunEvent::Settled { change: Ok(()), current, pending: PipelineState::VoidPending }
}

/// A run whose pipeline plays.
fn playing(runner: PipelineRunner<()>) -> Run {
    let (_, mut run) = runner.run();
    assert_eq!(run.action(), RunAction::OpenBus);
    assert!(run.step(RunEvent::BusOpened(true)));
    assert_eq!(run.action(), RunAction::Start);
    assert!(run.step(RunEvent::Started(Ok(()))));
    assert_eq!(run.action(), RunAction::Drive(DriveAction::AwaitShutdownOrMessage));
    run
}

#[test]
fn bounded_run_ends_with_eos_once_null_is_reached() {
    let mut run = playing(PipelineRunner::new(()));
    assert!(run.step(RunEvent::Drive(DriveEvent::Message(Some(BusMessage::Eos)))));
    assert_eq!(run.action(), RunAction::Stop);
    assert!(run.step(RunEvent::Stopped(Ok(()))));
    assert_eq!(run.action(), RunAction::AwaitNull { nanoseconds: 5_000_000_000 });
    assert!(run.step(settled(PipelineState::Null)));
    assert_eq!(run.action(), RunAction::Return);
    assert_eq!(run.finish(), Ok(Ok(PipelineExit::Eos)));
}

#[test]
fn state_change_timeout_is_waited_for() {
    let runner = PipelineRunner::new(())
        .state_change_timeout(Duration::from_millis(1500))
        .shutdown_mode(ShutdownMode::Immediate);
    let mut run = playing(runner);
    assert!(run.step(RunEvent::Drive(DriveEvent::Shutdown)));
    assert!(run.step(RunEvent::Stopped(Ok(()))));
    assert_eq!(run.action(), RunAction::AwaitNull { nanoseconds: 1_500_000_000 });
    assert!(run.step(settled(PipelineState::Null)));
    assert_eq!(run.finish(), Ok(Ok(PipelineExit::Shutdown)));
}

#[test]
fn deadline_does_not_run_while_eos_is_sent() {
    let runner = PipelineRunner::new(())
        .shutdown_mode(ShutdownMode::Eos { timeout: Duration::from_secs(4) });
    let mut run = playing(runner);
    assert!(run.step(RunEvent::Drive(DriveEvent::Shutdown)));
    assert_eq!(
        run.action(),
        RunAction::Drive(DriveAction::SendEos {
            timeout: Duration::from_secs(4),
            deadline_runs: false,
        })
    );
    assert!(!run.step(RunEvent::Drive(DriveEvent::DeadlineElapsed("late".to_string()))));
    assert!(run.step(RunEvent::Drive(DriveEvent::EosSent(true))));
    assert_eq!(run.action(), RunAction::Drive(DriveAction::AwaitDrained));
    assert!(run.step(RunEvent::Drive(DriveEvent::DeadlineElapsed("late".to_string()))));
    assert!(run.step(RunEvent::Stopped(Ok(()))));
    assert!(run.step(settled(PipelineState::Null)));
    let err = run.finish().expect("the run is over").expect_err("draining times out");
    assert_eq!(
        err.full_message(),
        "timed out while draining the pipeline after shutdown: late"
    );
}

#[test]
fn bounded_run_drains_eos() {
    let runner = PipelineRunner::new(())
        .shutdown_mode(ShutdownMode::Eos { timeout: Duration::from_secs(4) });
    let mut run = playing(runner);
    assert!(run.step(RunEvent::Drive(DriveEvent::Shutdown)));
    assert!(run.step(RunEvent::Drive(DriveEvent::EosSent(true))));
    assert!(run.step(RunEvent::Drive(DriveEvent::Message(Some(BusMessage::Other)))));
    assert!(run.step(RunEvent::Drive(DriveEvent::Message(Some(BusMessage::Eos)))));
    assert!(run.step(RunEvent::Stopped(Ok(()))));
    assert!(run.step(settled(PipelineState::Null)));
    assert_eq!(run.finish(), Ok(Ok(PipelineExit::Shutdown)));
}

#[test]
fn bounded_run_without_a_bus_never_starts() {
    let (_, mut run) = PipelineRunner::new(()).run();
    assert!(run.step(RunEvent::BusOpened(false)));
    assert_eq!(run.action(), RunAction::Stop);
    assert!(run.step(RunEvent::Stopped(Ok(()))));
    assert!(run.step(settled(PipelineState::Null)));
    assert_eq!(run.finish(), Ok(Err(RunError::One(Failure::NoBus))));
}

#[test]
fn bounded_run_reports_a_refused_start_and_a_refused_stop() {
    let (_, mut run) = PipelineRunner::new(()).run();
    assert!(run.step(RunEvent::BusOpened(true)));
    assert!(run.step(RunEvent::Started(Err("a".to_string()))));
    assert!(run.step(RunEvent::Stopped(Err("b".to_string()))));
    assert_eq!(run.action(), RunAction::Return);
    let err = run.finish().expect("the run is over").expect_err("both fail");
    assert_eq!(
        err.message(),
        "setting the pipeline to Playing: a; additionally failed to stop the pipeline: \
         setting the pipeline to Null: b"
    );
}

#[test]
fn pipeline_that_does_not_reach_null_is_reported() {
    let mut run = playing(PipelineRunner::new(()));
    assert!(run.step(RunEvent::Drive(DriveEvent::Shutdown)));
    assert!(run.step(RunEvent::Stopped(Ok(()))));
    assert!(run.step(RunEvent::Settled {
        change: Ok(()),
        current: PipelineState::Paused,
        pending: PipelineState::Null,
    }));
    let err = run.finish().expect("the run is over").expect_err("it hangs");
    assert_eq!(err.message(), "pipeline did not reach Null (current=Paused, pending=Null)");
    assert_eq!(err.full_message(), err.message());
}

#[test]
fn failed_wait_for_null_is_reported() {
    let err = stop(
        Err("Element failed to change its state".to_string()),
        PipelineState::Ready,
        PipelineState::VoidPending,
    )
    .expect_err("the state change failed");
    assert_eq!(
        err.message(),
        "waiting for the pipeline to reach Null (current=Ready, pending=VoidPending)"
    );
    assert_eq!(
        err.full_message(),
        "waiting for the pipeline to reach Null (current=Ready, pending=VoidPending): \
         Element failed to change its state"
    );
    assert_eq!(stop(Ok(()), PipelineState::Null, PipelineState::Playing), Ok(()));
}

#[test]
fn nanoseconds_saturate() {
    assert_eq!(clock_nanoseconds(Duration::from_secs(5)), 5_000_000_000);
    assert_eq!(clock_nanoseconds(Duration::new(1, 7)), 1_000_000_007);
    assert_eq!(clock_nanoseconds(Duration::ZERO), 0);
    assert_eq!(clock_nanoseconds(Duration::from_nanos(u64::MAX)), u64::MAX);
    assert_eq!(clock_nanoseconds(Duration::MAX), u64::MAX);
}
