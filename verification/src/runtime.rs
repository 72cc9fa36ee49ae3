//! The runner whose native calls run on worker threads.
//!
//! A [`Run`] does nothing until it is polled for the first time. From then on it starts
//! the pipeline, opens its bus, drives it, stops it and then returns. The stop is owed
//! from that first poll on: when the run is dropped before it asked for the stop itself,
//! whoever holds the [`Cleanup`] asks for it instead. Teardown has no deadline of its own.
use vstd::prelude::*;

use crate::drive::{Drive, DriveAction, DriveEvent, DrivePhase};
use crate::error::{Failure, RunError};
use crate::outcome::join;

pub use crate::drive::{PipelineExit, ShutdownMode};

verus! {

/// Drives one pipeline until EOS, failure, or application shutdown.
pub struct PipelineRunner<P> {
    pipeline: P,
    shutdown_mode: ShutdownMode,
}

impl<P> PipelineRunner<P> {
    /// The pipeline that will be run.
    pub closed spec fn handle(self) -> P {
        self.pipeline
    }

    /// How application shutdown will be handled.
    pub closed spec fn mode(self) -> ShutdownMode {
        self.shutdown_mode
    }

    /// Create a runner that stops immediately on application shutdown.
    #[must_use]
    pub fn new(pipeline: P) -> (r: Self)
        ensures
            r.handle() == pipeline,
            r.mode() == ShutdownMode::Immediate,
    {
        PipelineRunner { pipeline, shutdown_mode: ShutdownMode::Immediate }
    }

    /// Set how application shutdown should be handled.
    #[must_use]
    pub fn shutdown_mode(self, mode: ShutdownMode) -> (r: Self)
        ensures
            r.handle() == self.handle(),
            r.mode() == mode,
    {
        PipelineRunner { pipeline: self.pipeline, shutdown_mode: mode }
    }

    /// Prepare to run the pipeline: gives the pipeline to the host together with the run
    /// that says what to do with it once it is polled.
    pub fn run(self) -> (r: (P, Run))
        ensures
            r.0 == self.handle(),
            r.1 == run_start(self.mode()),
    {
        (self.pipeline, Run { mode: self.shutdown_mode, phase: RunPhase::Created })
    }
}

/// How far a run has come.
#[derive(Debug, PartialEq, Eq)]
pub enum RunPhase {
    /// Nobody has polled the run yet.
    Created,
    /// A worker thread takes the pipeline to `Playing`.
    Starting,
    /// The pipeline plays and its bus is fetched.
    OpeningBus,
    /// The pipeline runs.
    Driving(Drive),
    /// The pipeline's way to `Null` is scheduled on a worker thread.
    Stopping { outcome: Result<PipelineExit, Failure> },
    /// The run is over.
    Finished { result: Result<PipelineExit, RunError> },
}

/// What a host reports to a run. A failed call is reported with the text of its error.
#[derive(Debug, PartialEq, Eq)]
pub enum RunEvent {
    /// The run was polled for the first time.
    Polled,
    /// The call that takes the pipeline to `Playing` returned.
    Started(Result<(), String>),
    /// The bus was asked for; the flag tells whether the pipeline has one.
    BusOpened(bool),
    /// Something happened to the running pipeline.
    Drive(DriveEvent),
    /// The call that takes the pipeline to `Null` returned.
    Stopped(Result<(), String>),
}

/// What a run asks of its host.
#[derive(Clone, Copy, Debug, PartialEq, Eq)]
pub enum RunAction {
    /// Nothing, until the run is polled.
    AwaitPoll,
    /// Take the pipeline to `Playing` on a worker thread, which holds the cleanup until
    /// the call returns.
    Start,
    /// Fetch the pipeline's bus.
    OpenBus,
    /// Do what the drive asks for.
    Drive(DriveAction),
    /// Schedule the pipeline's way to `Null` on a worker thread, give up the cleanup,
    /// and wait for the call to return.
    Stop,
    /// Return the result.
    Return,
}

/// One pipeline on its way from its start to its end.
#[derive(Debug, PartialEq, Eq)]
pub struct Run {
    /// How application shutdown is handled.
    pub mode: ShutdownMode,
    /// How far the run has come.
    pub phase: RunPhase,
}

/// A run that was not polled yet.
pub open spec fn run_start(mode: ShutdownMode) -> Run {
    Run { mode, phase: RunPhase::Created }
}

/// What the end of the call that stops the pipeline means.
pub open spec fn stop_result(set_null: Result<(), String>) -> Result<(), Failure> {
    match set_null {
        Ok(()) => Ok(()),
        Err(cause) => Err(Failure::Stop { cause }),
    }
}

/// Judges the call that took the pipeline to `Null`.
pub fn stop(set_null: Result<(), String>) -> (r: Result<(), Failure>)
    ensures
        r == stop_result(set_null),
{
    match set_null {
        Ok(()) => Ok(()),
        Err(cause) => Err(Failure::Stop { cause }),
    }
}

/// What is logged about the call that took the pipeline to `Null`: one line if it failed,
/// nothing if it did not.
pub fn stop_log(set_null: &Result<(), String>) -> (r: Option<String>)
    ensures
        match stop_result(*set_null) {
            Ok(_) => r is None,
            Err(failure) => r matches Some(line) && line@ == crate::error::cleanup_report_text(
                failure,
            ),
        },
{
    match set_null {
        Ok(()) => None,
        Err(cause) => Some(Failure::Stop { cause: cause.clone() }.cleanup_report()),
    }
}

/// The phase that a drive leaves the run in: a decided drive makes way for the stop.
pub open spec fn driving(drive: Drive) -> RunPhase {
    match drive.phase {
        DrivePhase::Decided { outcome } => RunPhase::Stopping { outcome },
        _ => RunPhase::Driving(drive),
    }
}

/// Whether a run waits for this event.
pub open spec fn run_expects(run: Run, event: RunEvent) -> bool {
    match (run.phase, event) {
        (RunPhase::Created, RunEvent::Polled) => true,
        (RunPhase::Starting, RunEvent::Started(_)) => true,
        (RunPhase::OpeningBus, RunEvent::BusOpened(_)) => true,
        (RunPhase::Driving(drive), RunEvent::Drive(e)) => crate::drive::drive_expects(drive, e),
        (RunPhase::Stopping { .. }, RunEvent::Stopped(_)) => true,
        _ => false,
    }
}

/// The phase that an event leads to: one the run does not wait for changes nothing.
pub open spec fn run_next_phase(run: Run, event: RunEvent) -> RunPhase {
    match (run.phase, event) {
        (RunPhase::Created, RunEvent::Polled) => RunPhase::Starting,
        (RunPhase::Starting, RunEvent::Started(Ok(()))) => RunPhase::OpeningBus,
        (RunPhase::Starting, RunEvent::Started(Err(cause))) => RunPhase::Stopping {
            outcome: Err(Failure::Startup { cause }),
        },
        (RunPhase::OpeningBus, RunEvent::BusOpened(has_bus)) => if has_bus {
            RunPhase::Driving(crate::drive::drive_start(run.mode, true))
        } else {
            RunPhase::Stopping { outcome: Err(Failure::NoBus) }
        },
        (RunPhase::Driving(drive), RunEvent::Drive(e)) => if crate::drive::drive_expects(
            drive,
            e,
        ) {
            driving(crate::drive::drive_step(drive, e))
        } else {
            run.phase
        },
        (RunPhase::Stopping { outcome }, RunEvent::Stopped(set_null)) => RunPhase::Finished {
            result: crate::outcome::run_result(outcome, stop_result(set_null)),
        },
        _ => run.phase,
    }
}

/// What becomes of a run when it is told of an event.
pub open spec fn run_step(run: Run, event: RunEvent) -> Run {
    Run { phase: run_next_phase(run, event), ..run }
}

/// What a run asks for in its present phase.
pub open spec fn run_action(run: Run) -> RunAction {
    match run.phase {
        RunPhase::Created => RunAction::AwaitPoll,
        RunPhase::Starting => RunAction::Start,
        RunPhase::OpeningBus => RunAction::OpenBus,
        RunPhase::Driving(drive) => RunAction::Drive(crate::drive::drive_action(drive)),
        RunPhase::Stopping { .. } => RunAction::Stop,
        RunPhase::Finished { .. } => RunAction::Return,
    }
}

/// Who still has to ask for the pipeline's stop if the run goes no further.
#[derive(Clone, Copy, Debug, PartialEq, Eq, Structural)]
pub enum Cleanup {
    /// Nobody: the pipeline was not touched yet.
    NotOwed,
    /// The start that is still going on, once it is done: the pipeline is not stopped
    /// before it was started.
    AfterStartup,
    /// Whoever drops the run, at once.
    Now,
    /// Nobody: the stop is scheduled already.
    Scheduled,
}

impl Cleanup {
    /// Whether dropping the holder of this cleanup must ask for the stop.
    pub open spec fn armed(self) -> bool {
        self == Cleanup::AfterStartup || self == Cleanup::Now
    }

    /// Tells whether dropping the holder of this cleanup must ask for the stop.
    pub fn is_armed(&self) -> (r: bool)
        ensures
            r == self.armed(),
    {
        match self {
            Cleanup::NotOwed => false,
            Cleanup::AfterStartup => true,
            Cleanup::Now => true,
            Cleanup::Scheduled => false,
        }
    }
}

/// The cleanup that a run owes in its present phase.
pub open spec fn run_cleanup(run: Run) -> Cleanup {
    match run.phase {
        RunPhase::Created => Cleanup::NotOwed,
        RunPhase::Starting => Cleanup::AfterStartup,
        RunPhase::OpeningBus => Cleanup::Now,
        RunPhase::Driving(_) => Cleanup::Now,
        RunPhase::Stopping { .. } => Cleanup::Scheduled,
        RunPhase::Finished { .. } => Cleanup::Scheduled,
    }
}

fn enter_drive(drive: Drive) -> (r: RunPhase)
    ensures
        r == driving(drive),
{
    match drive.phase {
        DrivePhase::Decided { outcome } => RunPhase::Stopping { outcome },
        phase => RunPhase::Driving(
            Drive { mode: drive.mode, deadline_covers_send: drive.deadline_covers_send, phase },
        ),
    }
}

impl Run {
    /// What the host has to do next.
    pub fn action(&self) -> (r: RunAction)
        ensures
            r == run_action(*self),
    {
        match &self.phase {
            RunPhase::Created => RunAction::AwaitPoll,
            RunPhase::Starting => RunAction::Start,
            RunPhase::OpeningBus => RunAction::OpenBus,
            RunPhase::Driving(drive) => RunAction::Drive(drive.action()),
            RunPhase::Stopping { .. } => RunAction::Stop,
            RunPhase::Finished { .. } => RunAction::Return,
        }
    }

    /// Who has to ask for the stop if the run is dropped now.
    pub fn cleanup(&self) -> (r: Cleanup)
        ensures
            r == run_cleanup(*self),
    {
        match &self.phase {
            RunPhase::Created => Cleanup::NotOwed,
            RunPhase::Starting => Cleanup::AfterStartup,
            RunPhase::OpeningBus => Cleanup::Now,
            RunPhase::Driving(_) => Cleanup::Now,
            RunPhase::Stopping { .. } => Cleanup::Scheduled,
            RunPhase::Finished { .. } => Cleanup::Scheduled,
        }
    }

    /// Takes an event into account. The result tells whether the run waited for it; if
    /// not, the run stays as it was.
    pub fn step(&mut self, event: RunEvent) -> (expected: bool)
        ensures
            *final(self) == run_step(*old(self), event),
            expected == run_expects(*old(self), event),
    {
        let mut phase = RunPhase::Created;
        std::mem::swap(&mut phase, &mut self.phase);
        let (next, expected) = match (phase, event) {
            (RunPhase::Created, RunEvent::Polled) => (RunPhase::Starting, true),
            (RunPhase::Starting, RunEvent::Started(Ok(()))) => (RunPhase::OpeningBus, true),
            (RunPhase::Starting, RunEvent::Started(Err(cause))) => (
                RunPhase::Stopping { outcome: Err(Failure::Startup { cause }) },
                true,
            ),
            (RunPhase::OpeningBus, RunEvent::BusOpened(has_bus)) => if has_bus {
                (RunPhase::Driving(Drive::new(self.mode, true)), true)
            } else {
                (RunPhase::Stopping { outcome: Err(Failure::NoBus) }, true)
            },
            (RunPhase::Driving(drive), RunEvent::Drive(e)) => {
                let mut drive = drive;
                if drive.step(e) {
                    (enter_drive(drive), true)
                } else {
                    (RunPhase::Driving(drive), false)
                }
            },
            (RunPhase::Stopping { outcome }, RunEvent::Stopped(set_null)) => (
                RunPhase::Finished { result: join(outcome, stop(set_null)) },
                true,
            ),
            (phase, _) => (phase, false),
        };
        self.phase = next;
        expected
    }

    /// The result, once the run is over; before that, the run itself.
    pub fn finish(self) -> (r: Result<Result<PipelineExit, RunError>, Run>)
        ensures
            match self.phase {
                RunPhase::Finished { result } => r == Ok::<
                    Result<PipelineExit, RunError>,
                    Run,
                >(result),
                _ => r == Err::<Result<PipelineExit, RunError>, Run>(self),
            },
    {
        match self.phase {
            RunPhase::Finished { result } => Ok(result),
            phase => Err(Run { mode: self.mode, phase }),
        }
    }
}

}
