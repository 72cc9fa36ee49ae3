//! The running part of a pipeline's life: from the moment it plays until it is decided
//! how the run ends.
//!
//! A [`Drive`] watches the bus and the shutdown request at once. It ends on EOS, on a
//! pipeline error, or on shutdown, and after a shutdown it drains EOS first where the
//! [`ShutdownMode`] says so.
use std::time::Duration;
use vstd::prelude::*;

use crate::error::Failure;

verus! {

/// Why a pipeline runner stopped.
#[derive(Clone, Copy, Debug, PartialEq, Eq, Structural)]
pub enum PipelineExit {
    /// The pipeline produced an end-of-stream message.
    Eos,
    /// The shutdown that the application provided was requested.
    Shutdown,
}

/// How a running pipeline should stop after shutdown is requested.
#[derive(Clone, Copy, Debug, PartialEq, Eq)]
pub enum ShutdownMode {
    /// Stop immediately by taking the pipeline to `Null`.
    ///
    /// This is appropriate for live outputs that have no trailer to finalise.
    Immediate,
    /// Send EOS and wait for it to return on the bus, for the supplied time at most.
    ///
    /// This is appropriate for muxers and file outputs that need to write a trailer
    /// before the pipeline is stopped. The teardown that follows is no part of this
    /// time.
    Eos { timeout: Duration },
}

/// What a run reads off a message of the pipeline's bus.
#[derive(Debug, PartialEq, Eq)]
pub enum BusMessage {
    /// The stream ended.
    Eos,
    /// An element reported an error: its path in the pipeline where it has one, the
    /// error and what it added for debugging.
    Error { source: Option<String>, error: String, debug: Option<String> },
    /// Any other message.
    Other,
}

/// What a message means for the run: an error ends it with that error, EOS ends it
/// well, and no other message ends it.
pub open spec fn terminal(message: BusMessage) -> Result<Option<PipelineExit>, Failure> {
    match message {
        BusMessage::Eos => Ok(Some(PipelineExit::Eos)),
        BusMessage::Error { source, error, debug } => Err(
            Failure::Pipeline { source, error, debug },
        ),
        BusMessage::Other => Ok(None),
    }
}

/// Tells whether a message ends the run, and how.
pub fn terminal_message(message: BusMessage) -> (r: Result<Option<PipelineExit>, Failure>)
    ensures
        r == terminal(message),
{
    match message {
        BusMessage::Eos => Ok(Some(PipelineExit::Eos)),
        BusMessage::Error { source, error, debug } => Err(
            Failure::Pipeline { source, error, debug },
        ),
        BusMessage::Other => Ok(None),
    }
}

/// How far a drive has come.
#[derive(Debug, PartialEq, Eq)]
pub enum DrivePhase {
    /// Waits for a shutdown request or a bus message, whichever comes first.
    Watching,
    /// Shutdown was requested and the EOS event is being sent.
    SendingEos { timeout: Duration },
    /// The EOS event was taken, and the drive waits for it to come out on the bus.
    Draining,
    /// It is decided how the run ends.
    Decided { outcome: Result<PipelineExit, Failure> },
}

/// What a host reports to a drive.
#[derive(Debug, PartialEq, Eq)]
pub enum DriveEvent {
    /// The application asked for shutdown.
    Shutdown,
    /// The bus handed out its next message; `None` if it closed.
    Message(Option<BusMessage>),
    /// The EOS event was sent; the flag tells whether the pipeline took it.
    EosSent(bool),
    /// The time for draining is over; the text is the timer's own account of it.
    DeadlineElapsed(String),
}

/// What a drive asks of its host.
#[derive(Clone, Copy, Debug, PartialEq, Eq)]
pub enum DriveAction {
    /// Wait for the shutdown request and for the next bus message, and report the
    /// first of them.
    AwaitShutdownOrMessage,
    /// Send the EOS event into the pipeline. Draining may take `timeout`; where
    /// `deadline_runs` holds that time starts before the event is sent, otherwise
    /// once the event was taken.
    SendEos { timeout: Duration, deadline_runs: bool },
    /// Wait for the next bus message until the deadline.
    AwaitDrained,
    /// Nothing: the outcome can be read.
    Finish,
}

/// The phase that a shutdown request leads to.
pub open spec fn after_shutdown(mode: ShutdownMode) -> DrivePhase {
    match mode {
        ShutdownMode::Immediate => DrivePhase::Decided { outcome: Ok(PipelineExit::Shutdown) },
        ShutdownMode::Eos { timeout } => DrivePhase::SendingEos { timeout },
    }
}

/// The phase that the answer to the EOS event leads to.
pub open spec fn after_eos_sent(taken: bool) -> DrivePhase {
    if taken {
        DrivePhase::Draining
    } else {
        DrivePhase::Decided { outcome: Err(Failure::EosRejected) }
    }
}

/// The phase that a bus message leads to while the pipeline runs.
pub open spec fn after_message(message: Option<BusMessage>) -> DrivePhase {
    match message {
        None => DrivePhase::Decided { outcome: Err(Failure::BusClosed) },
        Some(m) => match terminal(m) {
            Ok(Some(exit)) => DrivePhase::Decided { outcome: Ok(exit) },
            Ok(None) => DrivePhase::Watching,
            Err(failure) => DrivePhase::Decided { outcome: Err(failure) },
        },
    }
}

/// What a bus message means while EOS drains: `None` if the wait goes on, otherwise
/// how the drain ended.
pub open spec fn drained(message: Option<BusMessage>) -> Option<Result<(), Failure>> {
    match message {
        None => Some(Err(Failure::DrainClosed)),
        Some(m) => match terminal(m) {
            Ok(Some(_)) => Some(Ok(())),
            Ok(None) => None,
            Err(failure) => Some(Err(failure)),
        },
    }
}

/// The phase that a bus message leads to while EOS drains. A drained run counts as
/// shut down, although EOS ended it.
pub open spec fn after_drain_message(message: Option<BusMessage>) -> DrivePhase {
    match drained(message) {
        None => DrivePhase::Draining,
        Some(Ok(())) => DrivePhase::Decided { outcome: Ok(PipelineExit::Shutdown) },
        Some(Err(failure)) => DrivePhase::Decided { outcome: Err(failure) },
    }
}

/// Decides what a shutdown request leads to.
pub fn handle_shutdown(mode: ShutdownMode) -> (r: DrivePhase)
    ensures
        r == after_shutdown(mode),
{
    match mode {
        ShutdownMode::Immediate => DrivePhase::Decided { outcome: Ok(PipelineExit::Shutdown) },
        ShutdownMode::Eos { timeout } => DrivePhase::SendingEos { timeout },
    }
}

/// Takes one message of the bus while EOS drains, and tells whether the wait is over.
pub fn wait_for_eos(message: Option<BusMessage>) -> (r: Option<Result<(), Failure>>)
    ensures
        r == drained(message),
{
    let m = match message {
        None => return Some(Err(Failure::DrainClosed)),
        Some(m) => m,
    };
    match terminal_message(m) {
        Ok(Some(_)) => Some(Ok(())),
        Ok(None) => None,
        Err(failure) => Some(Err(failure)),
    }
}

/// Takes one message of the bus while the pipeline runs.
pub fn watch(message: Option<BusMessage>) -> (r: DrivePhase)
    ensures
        r == after_message(message),
{
    match message {
        None => DrivePhase::Decided { outcome: Err(Failure::BusClosed) },
        Some(m) => match terminal_message(m) {
            Ok(Some(exit)) => DrivePhase::Decided { outcome: Ok(exit) },
            Ok(None) => DrivePhase::Watching,
            Err(failure) => DrivePhase::Decided { outcome: Err(failure) },
        },
    }
}

/// A running pipeline, as far as deciding about its end is concerned.
#[derive(Debug, PartialEq, Eq)]
pub struct Drive {
    /// What a shutdown request leads to.
    pub mode: ShutdownMode,
    /// Whether the time for draining starts before the EOS event is sent, so that it
    /// can run out while the pipeline still handles the event.
    pub deadline_covers_send: bool,
    /// How far the drive has come.
    pub phase: DrivePhase,
}

/// Whether a drive waits for this event.
pub open spec fn drive_expects(drive: Drive, event: DriveEvent) -> bool {
    match drive.phase {
        DrivePhase::Watching => event is Shutdown || event is Message,
        DrivePhase::SendingEos { .. } => event is EosSent || (drive.deadline_covers_send
            && event is DeadlineElapsed),
        DrivePhase::Draining => event is Message || event is DeadlineElapsed,
        DrivePhase::Decided { .. } => false,
    }
}

/// The phase that an awaited event leads to.
pub open spec fn drive_next_phase(drive: Drive, event: DriveEvent) -> DrivePhase {
    match event {
        DriveEvent::Shutdown => after_shutdown(drive.mode),
        DriveEvent::Message(message) => if drive.phase is Watching {
            after_message(message)
        } else {
            after_drain_message(message)
        },
        DriveEvent::EosSent(taken) => after_eos_sent(taken),
        DriveEvent::DeadlineElapsed(cause) => DrivePhase::Decided {
            outcome: Err(Failure::DrainTimedOut { cause }),
        },
    }
}

/// What becomes of a drive when it is told of an event: one it does not wait for
/// changes nothing.
pub open spec fn drive_step(drive: Drive, event: DriveEvent) -> Drive {
    if drive_expects(drive, event) {
        Drive { phase: drive_next_phase(drive, event), ..drive }
    } else {
        drive
    }
}

/// What a drive asks for in its present phase.
pub open spec fn drive_action(drive: Drive) -> DriveAction {
    match drive.phase {
        DrivePhase::Watching => DriveAction::AwaitShutdownOrMessage,
        DrivePhase::SendingEos { timeout } => DriveAction::SendEos {
            timeout,
            deadline_runs: drive.deadline_covers_send,
        },
        DrivePhase::Draining => DriveAction::AwaitDrained,
        DrivePhase::Decided { .. } => DriveAction::Finish,
    }
}

/// A drive that has just begun.
pub open spec fn drive_start(mode: ShutdownMode, deadline_covers_send: bool) -> Drive {
    Drive { mode, deadline_covers_send, phase: DrivePhase::Watching }
}

impl Drive {
    /// Begins to watch a pipeline.
    pub fn new(mode: ShutdownMode, deadline_covers_send: bool) -> (r: Self)
        ensures
            r == drive_start(mode, deadline_covers_send),
    {
        Drive { mode, deadline_covers_send, phase: DrivePhase::Watching }
    }

    /// What the host has to do next.
    pub fn action(&self) -> (r: DriveAction)
        ensures
            r == drive_action(*self),
    {
        match &self.phase {
            DrivePhase::Watching => DriveAction::AwaitShutdownOrMessage,
            DrivePhase::SendingEos { timeout } => DriveAction::SendEos {
                timeout: *timeout,
                deadline_runs: self.deadline_covers_send,
            },
            DrivePhase::Draining => DriveAction::AwaitDrained,
            DrivePhase::Decided { .. } => DriveAction::Finish,
        }
    }

    /// Takes an event into account. The result tells whether the drive waited for it;
    /// if not, the drive stays as it was.
    pub fn step(&mut self, event: DriveEvent) -> (expected: bool)
        ensures
            *final(self) == drive_step(*old(self), event),
            expected == drive_expects(*old(self), event),
    {
        let next = match (&self.phase, event) {
            (DrivePhase::Watching, DriveEvent::Shutdown) => handle_shutdown(self.mode),
            (DrivePhase::Watching, DriveEvent::Message(message)) => watch(message),
            (DrivePhase::SendingEos { .. }, DriveEvent::EosSent(taken)) => if taken {
                DrivePhase::Draining
            } else {
                DrivePhase::Decided { outcome: Err(Failure::EosRejected) }
            },
            (DrivePhase::SendingEos { .. }, DriveEvent::DeadlineElapsed(cause)) => {
                if !self.deadline_covers_send {
                    return false;
                }
                DrivePhase::Decided { outcome: Err(Failure::DrainTimedOut { cause }) }
            },
            (DrivePhase::Draining, DriveEvent::Message(message)) => match wait_for_eos(message) {
                None => DrivePhase::Draining,
                Some(Ok(())) => DrivePhase::Decided { outcome: Ok(PipelineExit::Shutdown) },
                Some(Err(failure)) => DrivePhase::Decided { outcome: Err(failure) },
            },
            (DrivePhase::Draining, DriveEvent::DeadlineElapsed(cause)) => DrivePhase::Decided {
                outcome: Err(Failure::DrainTimedOut { cause }),
            },
            _ => return false,
        };
        self.phase = next;
        true
    }
}

}
