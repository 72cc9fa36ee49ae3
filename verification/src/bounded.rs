//! The runner whose teardown has a deadline.
//!
//! A [`Run`] opens the bus, starts the pipeline, drives it and stops it, then waits for
//! the pipeline to reach `Null`, for five seconds unless told otherwise.
use std::time::Duration;
use vstd::prelude::*;

use crate::clock::clock_nanoseconds;
use crate::drive::{Drive, DriveAction, DriveEvent, DrivePhase};
use crate::error::{Failure, PipelineState, RunError};
use crate::outcome::join;

pub use crate::drive::{PipelineExit, ShutdownMode};

verus! {

/// Drives one pipeline until EOS, failure, or application shutdown.
pub struct PipelineRunner<P> {
    pipeline: P,
    shutdown_mode: ShutdownMode,
    state_change_timeout: Duration,
}

impl<P> PipelineRunner<P> {
    /// The pipeline that will be run.
    pub closed spec fn handle(self) -> P {
        self.pipeline
    }

    /// How application shutdown will be handled.
    pub closed spec fn mode(self) -> ShutdownMode {
        self.shutdown_mode
    }

    /// How long the wait for `Null` may take.
    pub closed spec fn timeout(self) -> Duration {
        self.state_change_timeout
    }

    /// Create a runner that stops immediately on application shutdown, and waits for
    /// `Null` for five seconds at most.
    #[must_use]
    pub fn new(pipeline: P) -> (r: Self)
        ensures
            r.handle() == pipeline,
            r.mode() == ShutdownMode::Immediate,
            crate::clock::duration_nanos(r.timeout()) == 5_000_000_000,
    {
        PipelineRunner {
            pipeline,
            shutdown_mode: ShutdownMode::Immediate,
            state_change_timeout: Duration::from_secs(5),
        }
    }

    /// Set how application shutdown should be handled.
    #[must_use]
    pub fn shutdown_mode(self, mode: ShutdownMode) -> (r: Self)
        ensures
            r.handle() == self.handle(),
            r.mode() == mode,
            r.timeout() == self.timeout(),
    {
        PipelineRunner {
            pipeline: self.pipeline,
            shutdown_mode: mode,
            state_change_timeout: self.state_change_timeout,
        }
    }

    /// Set the maximum time to wait for the pipeline to reach `Null`.
    #[must_use]
    pub fn state_change_timeout(self, timeout: Duration) -> (r: Self)
        ensures
            r.handle() == self.handle(),
            r.mode() == self.mode(),
            r.timeout() == timeout,
    {
        PipelineRunner {
            pipeline: self.pipeline,
            shutdown_mode: self.shutdown_mode,
            state_change_timeout: timeout,
        }
    }

    /// Begin to run the pipeline: gives the pipeline to the host together with the run
    /// that says what to do with it.
    pub fn run(self) -> (r: (P, Run))
        ensures
            r.0 == self.handle(),
            r.1 == run_start(self.mode(), self.timeout()),
    {
        (
            self.pipeline,
            Run {
                mode: self.shutdown_mode,
                state_change_timeout: self.state_change_timeout,
                phase: RunPhase::OpeningBus,
            },
        )
    }
}

/// How far a run has come.
#[derive(Debug, PartialEq, Eq)]
pub enum RunPhase {
    /// The pipeline's bus is fetched.
    OpeningBus,
    /// The pipeline is taken to `Playing`.
    Starting,
    /// The pipeline runs.
    Driving(Drive),
    /// The pipeline is asked to go to `Null`.
    Stopping { outcome: Result<PipelineExit, Failure> },
    /// The pipeline agreed, and is waited for.
    AwaitingNull { outcome: Result<PipelineExit, Failure> },
    /// The run is over.
    Finished { result: Result<PipelineExit, RunError> },
}

/// What a host reports to a run. A failed call is reported with the text of its error.
#[derive(Debug, PartialEq, Eq)]
pub enum RunEvent {
    /// The bus was asked for; the flag tells whether the pipeline has one.
    BusOpened(bool),
    /// The call that takes the pipeline to `Playing` returned.
    Started(Result<(), String>),
    /// Something happened to the running pipeline.
    Drive(DriveEvent),
    /// The call that asks the pipeline to go to `Null` returned.
    Stopped(Result<(), String>),
    /// The wait for `Null` ended, with or without an error, in these states.
    Settled { change: Result<(), String>, current: PipelineState, pending: PipelineState },
}

/// What a run asks of its host.
#[derive(Clone, Copy, Debug, PartialEq, Eq)]
pub enum RunAction {
    /// Fetch the pipeline's bus.
    OpenBus,
    /// Take the pipeline to `Playing`.
    Start,
    /// Do what the drive asks for.
    Drive(DriveAction),
    /// Ask the pipeline to go to `Null`.
    Stop,
    /// Wait for the pipeline's state change, for so many nanoseconds at most.
    AwaitNull { nanoseconds: u64 },
    /// Return the result.
    Return,
}

/// One pipeline on its way from its start to its end.
#[derive(Debug, PartialEq, Eq)]
pub struct Run {
    /// How application shutdown is handled.
    pub mode: ShutdownMode,
    /// How long the wait for `Null` may take.
    pub state_change_timeout: Duration,
    /// How far the run has come.
    pub phase: RunPhase,
}

/// A run that has just begun.
pub open spec fn run_start(mode: ShutdownMode, state_change_timeout: Duration) -> Run {
    Run { mode, state_change_timeout, phase: RunPhase::OpeningBus }
}

/// What the end of the wait for `Null` means: the state change must not have failed,
/// and the pipeline must be in `Null`.
pub open spec fn settle_result(
    change: Result<(), String>,
    current: PipelineState,
    pending: PipelineState,
) -> Result<(), Failure> {
    match change {
        Err(cause) => Err(Failure::AwaitNull { current, pending, cause }),
        Ok(()) => if current == PipelineState::Null {
            Ok(())
        } else {
            Err(Failure::NotNull { current, pending })
        },
    }
}

/// Judges the end of the wait for `Null`.
pub fn stop(change: Result<(), String>, current: PipelineState, pending: PipelineState) -> (r:
    Result<(), Failure>)
    ensures
        r == settle_result(change, current, pending),
{
    match change {
        Err(cause) => Err(Failure::AwaitNull { current, pending, cause }),
        Ok(()) => if current != PipelineState::Null {
            Err(Failure::NotNull { current, pending })
        } else {
            Ok(())
        },
    }
}

/// The phase that a drive leaves the run in: a decided drive makes way for the stop.
pub open spec fn driving(drive: Drive) -> RunPhase {
    match drive.phase {
        DrivePhase::Decided { outcome } => RunPhase::Stopping { outcome },
        _ => RunPhase::Driving(drive),
    }
}

/// Whether a run waits for this event.
pub open spec fn run_expects(run: Run, event: RunEvent) -> bool {
    match (run.phase, event) {
        (RunPhase::OpeningBus, RunEvent::BusOpened(_)) => true,
        (RunPhase::Starting, RunEvent::Started(_)) => true,
        (RunPhase::Driving(drive), RunEvent::Drive(e)) => crate::drive::drive_expects(drive, e),
        (RunPhase::Stopping { .. }, RunEvent::Stopped(_)) => true,
        (RunPhase::AwaitingNull { .. }, RunEvent::Settled { .. }) => true,
        _ => false,
    }
}

/// The phase that an event leads to: one the run does not wait for changes nothing.
pub open spec fn run_next_phase(run: Run, event: RunEvent) -> RunPhase {
    match (run.phase, event) {
        (RunPhase::OpeningBus, RunEvent::BusOpened(has_bus)) => if has_bus {
            RunPhase::Starting
        } else {
            RunPhase::Stopping { outcome: Err(Failure::NoBus) }
        },
        (RunPhase::Starting, RunEvent::Started(Ok(()))) => RunPhase::Driving(
            crate::drive::drive_start(run.mode, false),
        ),
        (RunPhase::Starting, RunEvent::Started(Err(cause))) => RunPhase::Stopping {
            outcome: Err(Failure::Startup { cause }),
        },
        (RunPhase::Driving(drive), RunEvent::Drive(e)) => if crate::drive::drive_expects(
            drive,
            e,
        ) {
            driving(crate::drive::drive_step(drive, e))
        } else {
            run.phase
        },
        (RunPhase::Stopping { outcome }, RunEvent::Stopped(Ok(()))) => RunPhase::AwaitingNull {
            outcome,
        },
        (RunPhase::Stopping { outcome }, RunEvent::Stopped(Err(cause))) => RunPhase::Finished {
            result: crate::outcome::run_result(outcome, Err(Failure::Stop { cause })),
        },
        (
            RunPhase::AwaitingNull { outcome },
            RunEvent::Settled { change, current, pending },
        ) => RunPhase::Finished {
            result: crate::outcome::run_result(outcome, settle_result(change, current, pending)),
        },
        _ => run.phase,
    }
}

/// What becomes of a run when it is told of an event.
pub open spec fn run_step(run: Run, event: RunEvent) -> Run {
    Run { phase: run_next_phase(run, event), ..run }
}

/// What a run asks for in its present phase.
pub open spec fn run_action(run: Run) -> RunAction {
    match run.phase {
        RunPhase::OpeningBus => RunAction::OpenBus,
        RunPhase::Starting => RunAction::Start,
        RunPhase::Driving(drive) => RunAction::Drive(crate::drive::drive_action(drive)),
        RunPhase::Stopping { .. } => RunAction::Stop,
        RunPhase::AwaitingNull { .. } => RunAction::AwaitNull {
            nanoseconds: crate::clock::saturated(
                crate::clock::duration_nanos(run.state_change_timeout),
            ),
        },
        RunPhase::Finished { .. } => RunAction::Return,
    }
}

fn enter_drive(drive: Drive) -> (r: RunPhase)
    ensures
        r == driving(drive),
{
    match drive.phase {
        DrivePhase::Decided { outcome } => RunPhase::Stopping { outcome },
        phase => RunPhase::Driving(
            Drive { mode: drive.mode, deadline_covers_send: drive.deadline_covers_send, phase },
        ),
    }
}

impl Run {
    /// What the host has to do next.
    pub fn action(&self) -> (r: RunAction)
        ensures
            r == run_action(*self),
    {
        match &self.phase {
            RunPhase::OpeningBus => RunAction::OpenBus,
            RunPhase::Starting => RunAction::Start,
            RunPhase::Driving(drive) => RunAction::Drive(drive.action()),
            RunPhase::Stopping { .. } => RunAction::Stop,
            RunPhase::AwaitingNull { .. } => RunAction::AwaitNull {
                nanoseconds: clock_nanoseconds(self.state_change_timeout),
            },
            RunPhase::Finished { .. } => RunAction::Return,
        }
    }

    /// Takes an event into account. The result tells whether the run waited for it; if
    /// not, the run stays as it was.
    pub fn step(&mut self, event: RunEvent) -> (expected: bool)
        ensures
            *final(self) == run_step(*old(self), event),
            expected == run_expects(*old(self), event),
    {
        let mut phase = RunPhase::Starting;
        std::mem::swap(&mut phase, &mut self.phase);
        let (next, expected) = match (phase, event) {
            (RunPhase::OpeningBus, RunEvent::BusOpened(has_bus)) => if has_bus {
                (RunPhase::Starting, true)
            } else {
                (RunPhase::Stopping { outcome: Err(Failure::NoBus) }, true)
            },
            (RunPhase::Starting, RunEvent::Started(Ok(()))) => (
                RunPhase::Driving(Drive::new(self.mode, false)),
                true,
            ),
            (RunPhase::Starting, RunEvent::Started(Err(cause))) => (
                RunPhase::Stopping { outcome: Err(Failure::Startup { cause }) },
                true,
            ),
            (RunPhase::Driving(drive), RunEvent::Drive(e)) => {
                let mut drive = drive;
                if drive.step(e) {
                    (enter_drive(drive), true)
                } else {
                    (RunPhase::Driving(drive), false)
                }
            },
            (RunPhase::Stopping { outcome }, RunEvent::Stopped(Ok(()))) => (
                RunPhase::AwaitingNull { outcome },
                true,
            ),
            (RunPhase::Stopping { outcome }, RunEvent::Stopped(Err(cause))) => (
                RunPhase::Finished { result: join(outcome, Err(Failure::Stop { cause })) },
                true,
            ),
            (
                RunPhase::AwaitingNull { outcome },
                RunEvent::Settled { change, current, pending },
            ) => (
                RunPhase::Finished { result: join(outcome, stop(change, current, pending)) },
                true,
            ),
            (phase, _) => (phase, false),
        };
        self.phase = next;
        expected
    }

    /// The result, once the run is over; before that, the run itself.
    pub fn finish(self) -> (r: Result<Result<PipelineExit, RunError>, Run>)
        ensures
            match self.phase {
                RunPhase::Finished { result } => r == Ok::<
                    Result<PipelineExit, RunError>,
                    Run,
                >(result),
                _ => r == Err::<Result<PipelineExit, RunError>, Run>(self),
            },
    {
        match self.phase {
            RunPhase::Finished { result } => Ok(result),
            phase => Err(
                Run { mode: self.mode, state_change_timeout: self.state_change_timeout, phase },
            ),
        }
    }
}

}
