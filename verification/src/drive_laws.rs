//! What holds of every drive.
use vstd::prelude::*;

use crate::drive::{
    BusMessage, Drive, DriveAction, DriveEvent, DrivePhase, PipelineExit, ShutdownMode,
};
use crate::error::{Failure, RunError};

verus! {

/// How an event ends a drive in this mode, given whether shutdown was requested by then
/// (the event itself counts); `None` if it does not end it.
pub open spec fn ended_by(
    mode: ShutdownMode,
    shutdown_requested: bool,
    event: DriveEvent,
) -> Option<Result<PipelineExit, Failure>> {
    match event {
        DriveEvent::Shutdown => match mode {
            ShutdownMode::Immediate => Some(Ok(PipelineExit::Shutdown)),
            ShutdownMode::Eos { .. } => None,
        },
        DriveEvent::Message(Some(BusMessage::Eos)) => Some(
            Ok(
                if shutdown_requested {
                    PipelineExit::Shutdown
                } else {
                    PipelineExit::Eos
                },
            ),
        ),
        DriveEvent::Message(Some(BusMessage::Error { source, error, debug })) => Some(
            Err(Failure::Pipeline { source, error, debug }),
        ),
        DriveEvent::Message(Some(BusMessage::Other)) => None,
        DriveEvent::Message(None) => Some(
            Err(
                if shutdown_requested {
                    Failure::DrainClosed
                } else {
                    Failure::BusClosed
                },
            ),
        ),
        DriveEvent::EosSent(taken) => if taken {
            None
        } else {
            Some(Err(Failure::EosRejected))
        },
        DriveEvent::DeadlineElapsed(cause) => Some(Err(Failure::DrainTimedOut { cause })),
    }
}

/// Whether a drive in this mode can be in its phase, given whether shutdown was
/// requested: before that it watches, after it the drive sends EOS or drains, and it
/// does either only in the mode that asks for it.
pub open spec fn drive_inv(drive: Drive, mode: ShutdownMode, shutdown_requested: bool) -> bool {
    &&& drive.mode == mode
    &&& match drive.phase {
        DrivePhase::Watching => !shutdown_requested,
        DrivePhase::SendingEos { timeout } => shutdown_requested && mode == (ShutdownMode::Eos {
            timeout,
        }),
        DrivePhase::Draining => shutdown_requested && mode is Eos,
        DrivePhase::Decided { .. } => true,
    }
}

/// Every awaited event keeps a drive in order, and decides it exactly if it is one that
/// ends it, and then with the outcome that the event stands for.
pub proof fn law_drive_ends(
    drive: Drive,
    mode: ShutdownMode,
    shutdown_requested: bool,
    event: DriveEvent,
)
    requires
        drive_inv(drive, mode, shutdown_requested),
        crate::drive::drive_expects(drive, event),
    ensures
        ({
            let requested = shutdown_requested || event is Shutdown;
            let next = crate::drive::drive_step(drive, event);
            &&& drive_inv(next, mode, requested)
            &&& next.deadline_covers_send == drive.deadline_covers_send
            &&& match next.phase {
                DrivePhase::Decided { outcome } => ended_by(mode, requested, event) == Some(
                    outcome,
                ),
                _ => ended_by(mode, requested, event) is None,
            }
        }),
{
}

/// Whether an event is an answer to what a drive asked its host for. Whoever waits for the
/// application and the bus can be told of either, and of any message; the deadline can
/// pass only while it runs.
pub open spec fn drive_answers(action: DriveAction, event: DriveEvent) -> bool {
    match event {
        DriveEvent::Shutdown => action is AwaitShutdownOrMessage,
        DriveEvent::Message(_) => action is AwaitShutdownOrMessage || action is AwaitDrained,
        DriveEvent::EosSent(_) => action is SendEos,
        DriveEvent::DeadlineElapsed(_) => action is AwaitDrained || (
        action matches DriveAction::SendEos { deadline_runs, .. } && deadline_runs),
    }
}

/// What a drive asks for and what it waits for belong together: it takes into account every
/// answer to what it asked for, whatever the answer holds, and nothing else.
pub proof fn law_drive_awaits_every_answer(drive: Drive, event: DriveEvent)
    ensures
        crate::drive::drive_expects(drive, event) <==> drive_answers(
            crate::drive::drive_action(drive),
            event,
        ),
        !drive_answers(crate::drive::drive_action(drive), event) ==> crate::drive::drive_step(
            drive,
            event,
        ) == drive,
{
}

/// A drive that is not decided listens. While it watches, a shutdown request and every
/// message of the bus are awaited, in either mode; while EOS is sent, either answer of the
/// pipeline is; while EOS drains, every message is, and the end of the time for it.
pub proof fn law_drive_listens(
    drive: Drive,
    message: Option<BusMessage>,
    taken: bool,
    cause: String,
)
    ensures
        drive.phase is Watching ==> crate::drive::drive_expects(drive, DriveEvent::Shutdown)
            && crate::drive::drive_expects(drive, DriveEvent::Message(message)),
        drive.phase is SendingEos ==> crate::drive::drive_expects(
            drive,
            DriveEvent::EosSent(taken),
        ),
        drive.phase is Draining ==> crate::drive::drive_expects(drive, DriveEvent::Message(message))
            && crate::drive::drive_expects(drive, DriveEvent::DeadlineElapsed(cause)),
        drive.phase is Decided <==> crate::drive::drive_action(drive) is Finish,
{
}

/// Whatever happens to a drive, it keeps how it handles shutdown and when the time for
/// draining starts.
pub proof fn law_drive_keeps_its_orders(drive: Drive, event: DriveEvent)
    ensures
        crate::drive::drive_step(drive, event).mode == drive.mode,
        crate::drive::drive_step(drive, event).deadline_covers_send == drive.deadline_covers_send,
{
}

/// A drive that has just begun watches, in the mode and with the deadline that it was given.
pub proof fn law_drive_begins(mode: ShutdownMode, deadline_covers_send: bool, drive: Drive)
    requires
        call_ensures(Drive::new, (mode, deadline_covers_send), drive),
    ensures
        drive.mode == mode,
        drive.deadline_covers_send == deadline_covers_send,
        drive.phase is Watching,
        drive == crate::drive::drive_start(mode, deadline_covers_send),
        crate::drive::drive_action(drive) is AwaitShutdownOrMessage,
{
}

/// An error on the bus decides a drive that watches or drains, at once and in either mode,
/// with all that the error says.
pub proof fn law_error_decides(
    drive: Drive,
    source: Option<String>,
    error: String,
    debug: Option<String>,
)
    requires
        drive.phase is Watching || drive.phase is Draining,
    ensures
        ({
            let event = DriveEvent::Message(Some(BusMessage::Error { source, error, debug }));
            &&& crate::drive::drive_expects(drive, event)
            &&& crate::drive::drive_step(drive, event).phase == (DrivePhase::Decided {
                outcome: Err(Failure::Pipeline { source, error, debug }),
            })
        }),
{
}

/// EOS on the bus ends a drive well: as EOS while it watches, as the shutdown that was
/// requested while it drains.
pub proof fn law_eos_decides(drive: Drive)
    requires
        drive.phase is Watching || drive.phase is Draining,
    ensures
        ({
            let event = DriveEvent::Message(Some(BusMessage::Eos));
            &&& crate::drive::drive_expects(drive, event)
            &&& crate::drive::drive_step(drive, event).phase == (DrivePhase::Decided {
                outcome: Ok(
                    if drive.phase is Watching {
                        PipelineExit::Eos
                    } else {
                        PipelineExit::Shutdown
                    },
                ),
            })
        }),
{
}

/// A bus that closes is a failure, and it is told whether EOS was draining then.
pub proof fn law_closed_bus_decides(drive: Drive)
    requires
        drive.phase is Watching || drive.phase is Draining,
    ensures
        ({
            let event = DriveEvent::Message(None);
            &&& crate::drive::drive_expects(drive, event)
            &&& crate::drive::drive_step(drive, event).phase == (DrivePhase::Decided {
                outcome: Err(
                    if drive.phase is Watching {
                        Failure::BusClosed
                    } else {
                        Failure::DrainClosed
                    },
                ),
            })
        }),
{
}

/// A shutdown request ends a drive at once or makes it ask for EOS, as its mode says, with
/// the time for draining that the mode gives. EOS that the pipeline takes is waited for, EOS
/// that it does not take is a failure.
pub proof fn law_shutdown_drains(drive: Drive, taken: bool)
    requires
        drive.phase is Watching,
    ensures
        ({
            let asked = crate::drive::drive_step(drive, DriveEvent::Shutdown);
            let sent = crate::drive::drive_step(asked, DriveEvent::EosSent(taken));
            match drive.mode {
                ShutdownMode::Immediate => asked.phase == (DrivePhase::Decided {
                    outcome: Ok(PipelineExit::Shutdown),
                }),
                ShutdownMode::Eos { timeout } => {
                    &&& crate::drive::drive_action(asked) == (DriveAction::SendEos {
                        timeout,
                        deadline_runs: drive.deadline_covers_send,
                    })
                    &&& taken ==> crate::drive::drive_action(sent) is AwaitDrained
                    &&& !taken ==> sent.phase == (DrivePhase::Decided {
                        outcome: Err(Failure::EosRejected),
                    })
                },
            }
        }),
{
}

/// The answer to the EOS event decides in every drive that sends it, whatever time it has.
pub proof fn law_eos_answer(drive: Drive, taken: bool)
    requires
        drive.phase is SendingEos,
    ensures
        ({
            let next = crate::drive::drive_step(drive, DriveEvent::EosSent(taken));
            &&& taken ==> next.phase is Draining
            &&& !taken ==> next.phase == (DrivePhase::Decided {
                outcome: Err(Failure::EosRejected),
            })
        }),
{
}

/// A deadline that passes while it runs ends the drive with the timer's account of it. It
/// runs while EOS drains, and while EOS is sent only where it covers that too.
pub proof fn law_deadline_decides(drive: Drive, cause: String)
    ensures
        ({
            let next = crate::drive::drive_step(drive, DriveEvent::DeadlineElapsed(cause));
            let sending = drive.phase is SendingEos && drive.deadline_covers_send;
            if drive.phase is Draining || sending {
                next.phase == (DrivePhase::Decided {
                    outcome: Err(Failure::DrainTimedOut { cause }),
                })
            } else {
                next == drive
            }
        }),
{
}

/// A drive asks for what its phase needs: to wait, to send EOS in the time that is set for
/// it, to wait until it comes out, or for nothing more.
pub proof fn law_drive_asks(drive: Drive)
    ensures
        crate::drive::drive_action(drive) is AwaitShutdownOrMessage <==> drive.phase is Watching,
        forall|timeout: std::time::Duration, deadline_runs: bool|
            crate::drive::drive_action(drive) == (DriveAction::SendEos { timeout, deadline_runs })
                <==> drive.phase == (DrivePhase::SendingEos { timeout }) && deadline_runs
                == drive.deadline_covers_send,
        crate::drive::drive_action(drive) is AwaitDrained <==> drive.phase is Draining,
        crate::drive::drive_action(drive) is Finish <==> drive.phase is Decided,
{
}

/// The operations of a drive do what is said here of drives: a call of `step` takes the drive
/// on as [`crate::drive::drive_step`] does and tells whether the event was awaited, and a call
/// of `action` gives what the drive asks for.
pub proof fn law_drive_operations()
    ensures
        forall|drive: &mut Drive, event: DriveEvent, expected: bool| #[trigger]
            call_ensures(Drive::step, (drive, event), expected) ==> {
                &&& *final(drive) == crate::drive::drive_step(*drive, event)
                &&& expected == crate::drive::drive_expects(*drive, event)
            },
        forall|drive: &Drive, action: DriveAction| #[trigger]
            call_ensures(Drive::action, (drive,), action) ==> action == crate::drive::drive_action(
                *drive,
            ),
{
}

/// A call of `step` on a drive that watches or drains, told of an error on the bus, leaves
/// the drive decided with that error.
pub proof fn law_step_reports_errors()
    ensures
        forall|
            drive: &mut Drive,
            source: Option<String>,
            error: String,
            debug: Option<String>,
            expected: bool,
        | #[trigger]
            call_ensures(
                Drive::step,
                (drive, DriveEvent::Message(Some(BusMessage::Error { source, error, debug }))),
                expected,
            ) && ((*drive).phase is Watching || (*drive).phase is Draining) ==> {
                &&& expected
                &&& (*final(drive)).phase == (DrivePhase::Decided {
                    outcome: Err(Failure::Pipeline { source, error, debug }),
                })
            },
{
}

/// Of all messages only EOS and errors end a run: EOS well, an error with all that it says.
pub proof fn law_terminal_messages(
    message: BusMessage,
    r: Result<Option<PipelineExit>, Failure>,
)
    requires
        call_ensures(crate::drive::terminal_message, (message,), r),
    ensures
        r == crate::drive::terminal(message),
        r is Err <==> message is Error,
        message matches BusMessage::Error { source, error, debug } ==> r == Err::<
            Option<PipelineExit>,
            Failure,
        >(Failure::Pipeline { source, error, debug }),
        message is Eos ==> r == Ok::<Option<PipelineExit>, Failure>(Some(PipelineExit::Eos)),
        message is Other ==> r == Ok::<Option<PipelineExit>, Failure>(None),
{
}

/// A message is read alike while the pipeline runs and while EOS drains: the same messages
/// end the wait, and an error is reported the same. Only EOS, and a bus that closes, come
/// under another name.
pub proof fn law_messages_are_read_alike(
    message: Option<BusMessage>,
    watched: DrivePhase,
    drained: Option<Result<(), Failure>>,
)
    requires
        call_ensures(crate::drive::watch, (message,), watched),
        call_ensures(crate::drive::wait_for_eos, (message,), drained),
    ensures
        message matches Some(m) && m is Other ==> watched is Watching && drained is None,
        message matches Some(m) && m is Eos ==> watched == (DrivePhase::Decided {
            outcome: Ok(PipelineExit::Eos),
        }) && drained is Some && drained->0 is Ok,
        message matches Some(BusMessage::Error { source, error, debug }) ==> {
            let failure = Failure::Pipeline { source, error, debug };
            &&& watched == (DrivePhase::Decided { outcome: Err(failure) })
            &&& drained == Some(Err::<(), Failure>(failure))
        },
        message is None ==> {
            &&& watched == (DrivePhase::Decided { outcome: Err(Failure::BusClosed) })
            &&& drained == Some(Err::<(), Failure>(Failure::DrainClosed))
        },
{
}

/// A shutdown request leads to what the mode says.
pub proof fn law_shutdown_is_handled(mode: ShutdownMode, phase: DrivePhase)
    requires
        call_ensures(crate::drive::handle_shutdown, (mode,), phase),
    ensures
        mode is Immediate ==> phase == (DrivePhase::Decided {
            outcome: Ok(PipelineExit::Shutdown),
        }),
        mode matches ShutdownMode::Eos { timeout } ==> phase == (DrivePhase::SendingEos {
            timeout,
        }),
{
}

/// A message that is neither EOS nor an error changes nothing, at any time.
pub proof fn law_other_messages_are_ignored(drive: Drive)
    ensures
        crate::drive::drive_step(drive, DriveEvent::Message(Some(BusMessage::Other))) == drive,
{
}

/// In immediate mode a shutdown request ends the drive at once, and nothing is sent into
/// the pipeline.
pub proof fn law_immediate_shutdown(drive: Drive)
    requires
        drive.phase is Watching,
        drive.mode is Immediate,
    ensures
        crate::drive::drive_step(drive, DriveEvent::Shutdown).phase == (DrivePhase::Decided {
            outcome: Ok(PipelineExit::Shutdown),
        }),
{
}

/// A decided drive stays decided, whatever it is told.
pub proof fn law_decision_is_permanent(drive: Drive, event: DriveEvent)
    requires
        drive.phase is Decided,
    ensures
        crate::drive::drive_step(drive, event) == drive,
{
}

/// How many awaited events, other messages not counted, a drive can still take before it
/// is decided.
pub open spec fn drive_rank(drive: Drive) -> nat {
    match drive.phase {
        DrivePhase::Watching => 3,
        DrivePhase::SendingEos { .. } => 2,
        DrivePhase::Draining => 1,
        DrivePhase::Decided { .. } => 0,
    }
}

/// Every awaited event, unless it is a message that is ignored, brings the drive closer
/// to its decision.
pub proof fn law_drive_progress(drive: Drive, event: DriveEvent)
    requires
        crate::drive::drive_expects(drive, event),
        event != DriveEvent::Message(Some(BusMessage::Other)),
    ensures
        drive_rank(crate::drive::drive_step(drive, event)) < drive_rank(drive),
{
}

/// No failure is lost when the end of a run and that of its cleanup become one result: it is
/// good exactly if both are, and then with the run's exit; a single failure is told alone, two
/// are told together, each in its place.
pub proof fn law_no_failure_is_lost(
    outcome: Result<PipelineExit, Failure>,
    cleanup: Result<(), Failure>,
    r: Result<PipelineExit, RunError>,
)
    requires
        call_ensures(crate::outcome::join, (outcome, cleanup), r),
    ensures
        r == crate::outcome::run_result(outcome, cleanup),
        r is Ok <==> outcome is Ok && cleanup is Ok,
        r is Ok ==> r->Ok_0 == outcome->Ok_0,
        outcome is Err && cleanup is Ok ==> r == Err::<PipelineExit, RunError>(
            RunError::One(outcome->Err_0),
        ),
        outcome is Ok && cleanup is Err ==> r == Err::<PipelineExit, RunError>(
            RunError::One(cleanup->Err_0),
        ),
        outcome is Err && cleanup is Err ==> r == Err::<PipelineExit, RunError>(
            RunError::Both { outcome: outcome->Err_0, cleanup: cleanup->Err_0 },
        ),
{
}

/// The full account of an error begins with its message.
pub proof fn law_message_comes_first(error: RunError)
    ensures
        error.text().is_prefix_of(error.full_text()),
{
    assert(error.full_text().subrange(0, error.text().len() as int) =~= error.text());
}

/// When the run and its cleanup both fail, the message tells both in full.
pub proof fn law_both_failures_are_told(outcome: Failure, cleanup: Failure)
    ensures
        ({
            let text = RunError::Both { outcome, cleanup }.text();
            &&& outcome.full_text().is_prefix_of(text)
            &&& cleanup.full_text().is_suffix_of(text)
        }),
{
    let text = RunError::Both { outcome, cleanup }.text();
    assert(text.subrange(0, outcome.full_text().len() as int) =~= outcome.full_text());
    assert(text.subrange(text.len() - cleanup.full_text().len(), text.len() as int)
        =~= cleanup.full_text());
}

}
