//! What holds of every run on worker threads, from its creation on.
use vstd::prelude::*;

use crate::drive::{BusMessage, DriveAction, DriveEvent, DrivePhase, PipelineExit, ShutdownMode};
use crate::error::{Failure, RunError};
use crate::runtime::{Cleanup, PipelineRunner, Run, RunAction, RunEvent, RunPhase};

verus! {

/// The run in this mode after it was told of these events.
pub open spec fn run_after(mode: ShutdownMode, events: Seq<RunEvent>) -> Run
    decreases events.len(),
{
    if events.len() == 0 {
        crate::runtime::run_start(mode)
    } else {
        crate::runtime::run_step(run_after(mode, events.drop_last()), events.last())
    }
}

/// Whether each of the events was awaited when it came.
pub open spec fn awaited(mode: ShutdownMode, events: Seq<RunEvent>) -> bool
    decreases events.len(),
{
    events.len() == 0 || (awaited(mode, events.drop_last()) && crate::runtime::run_expects(
        run_after(mode, events.drop_last()),
        events.last(),
    ))
}

/// Everything the run has asked for up to now: one action at its start, and one after
/// each awaited event.
pub open spec fn asked(mode: ShutdownMode, events: Seq<RunEvent>) -> Seq<RunAction>
    decreases events.len(),
{
    if events.len() == 0 {
        seq![crate::runtime::run_action(run_after(mode, events))]
    } else if crate::runtime::run_expects(run_after(mode, events.drop_last()), events.last()) {
        asked(mode, events.drop_last()).push(crate::runtime::run_action(run_after(mode, events)))
    } else {
        asked(mode, events.drop_last())
    }
}

/// The action that takes the pipeline to `Null`.
pub open spec fn is_stop() -> spec_fn(RunAction) -> bool {
    |action: RunAction| action is Stop
}

/// The action that takes the pipeline to `Playing`.
pub open spec fn is_start() -> spec_fn(RunAction) -> bool {
    |action: RunAction| action is Start
}

/// The action that sends EOS into the pipeline.
pub open spec fn is_send_eos() -> spec_fn(RunAction) -> bool {
    |action: RunAction| action matches RunAction::Drive(a) && a is SendEos
}

/// Whether the application asked for shutdown among these events.
pub open spec fn shutdown_requested(events: Seq<RunEvent>) -> bool {
    events.contains(RunEvent::Drive(DriveEvent::Shutdown))
}

/// Whether an event reports a stop that went well.
pub open spec fn stopped_well(event: RunEvent) -> bool {
    event matches RunEvent::Stopped(set_null) && set_null is Ok
}

/// Whether a run that drives keeps its drive undecided; the decision always leads on.
pub open spec fn run_inv(run: Run) -> bool {
    run.phase matches RunPhase::Driving(drive) ==> {
        &&& !(drive.phase is Decided)
        &&& drive.mode == run.mode
        &&& drive.deadline_covers_send
    }
}

/// In every state of a run its drive is undecided, handles shutdown as the run was told
/// to, and counts the sending of EOS into the time for draining.
pub proof fn law_run_in_order(mode: ShutdownMode, events: Seq<RunEvent>)
    ensures
        run_inv(run_after(mode, events)),
        run_after(mode, events).mode == mode,
    decreases events.len(),
{
    if events.len() > 0 {
        law_run_in_order(mode, events.drop_last());
    }
}

/// Whether the run was polled among these events.
pub open spec fn polled(events: Seq<RunEvent>) -> bool {
    events.contains(RunEvent::Polled)
}

/// A run that was never polled has asked for nothing and owes nothing: dropping it leaves
/// the pipeline alone. The first poll changes that.
pub proof fn law_unpolled_run_leaves_the_pipeline_alone(mode: ShutdownMode, events: Seq<RunEvent>)
    ensures
        !polled(events) <==> asked(mode, events) =~= seq![RunAction::AwaitPoll],
        !polled(events) <==> crate::runtime::run_cleanup(run_after(mode, events))
            == Cleanup::NotOwed,
        !polled(events) <==> run_after(mode, events).phase is Created,
    decreases events.len(),
{
    if events.len() > 0 {
        let before = events.drop_last();
        law_unpolled_run_leaves_the_pipeline_alone(mode, before);
        crate::trace::lemma_contains_drop_last(events, RunEvent::Polled);
        lemma_last_asked(mode, before);
        if crate::runtime::run_expects(run_after(mode, before), events.last()) {
            assert(asked(mode, events).len() >= 2);
        }
    }
}

/// The pipeline is asked to go to `Null` exactly once in the life of a run that was polled,
/// no matter when that life ends: either the run has asked for it, or dropping the run does.
/// A run that was never polled does not ask for it, dropped or not.
pub proof fn law_stopped_exactly_once(mode: ShutdownMode, events: Seq<RunEvent>)
    ensures
        crate::trace::count(asked(mode, events), is_stop()) + (if crate::runtime::run_cleanup(
            run_after(mode, events),
        ).armed() {
            1nat
        } else {
            0nat
        }) == if polled(events) {
            1nat
        } else {
            0nat
        },
    decreases events.len(),
{
    let run = run_after(mode, events);
    law_unpolled_run_leaves_the_pipeline_alone(mode, events);
    if events.len() == 0 {
        crate::trace::lemma_count_one(crate::runtime::run_action(run), is_stop());
    } else {
        let before = events.drop_last();
        law_stopped_exactly_once(mode, before);
        law_unpolled_run_leaves_the_pipeline_alone(mode, before);
        if crate::runtime::run_expects(run_after(mode, before), events.last()) {
            crate::trace::lemma_count_push(
                asked(mode, before),
                crate::runtime::run_action(run),
                is_stop(),
            );
        }
    }
}

/// A run that is over has stopped the pipeline: that was the last thing it asked for
/// before it returned, and it asked for it once.
pub proof fn law_null_before_return(mode: ShutdownMode, events: Seq<RunEvent>)
    requires
        run_after(mode, events).phase is Finished,
    ensures
        ({
            let actions = asked(mode, events);
            &&& actions.len() >= 2
            &&& actions[actions.len() - 1] == RunAction::Return
            &&& actions[actions.len() - 2] == RunAction::Stop
            &&& crate::trace::count(actions, is_stop()) == 1
        }),
    decreases events.len(),
{
    law_stopped_exactly_once(mode, events);
    law_unpolled_run_leaves_the_pipeline_alone(mode, events);
    let before = events.drop_last();
    if crate::runtime::run_expects(run_after(mode, before), events.last()) {
        lemma_last_asked(mode, before);
        let actions = asked(mode, events);
        assert(actions[actions.len() - 2] == asked(mode, before).last());
    } else {
        law_null_before_return(mode, before);
    }
}

proof fn lemma_last_asked(mode: ShutdownMode, events: Seq<RunEvent>)
    ensures
        asked(mode, events).len() > 0,
        asked(mode, events).last() == crate::runtime::run_action(run_after(mode, events)),
    decreases events.len(),
{
    if events.len() > 0 {
        lemma_last_asked(mode, events.drop_last());
    }
}

/// A run that is polled starts the pipeline before it asks for anything else, and once only.
pub proof fn law_started_first_and_once(mode: ShutdownMode, events: Seq<RunEvent>)
    ensures
        asked(mode, events).len() > 0,
        asked(mode, events)[0] == RunAction::AwaitPoll,
        asked(mode, events).len() > 1 ==> asked(mode, events)[1] == RunAction::Start,
        crate::trace::count(asked(mode, events), is_start()) == if polled(events) {
            1nat
        } else {
            0nat
        },
    decreases events.len(),
{
    let run = run_after(mode, events);
    law_unpolled_run_leaves_the_pipeline_alone(mode, events);
    if events.len() == 0 {
        crate::trace::lemma_count_one(crate::runtime::run_action(run), is_start());
    } else {
        let before = events.drop_last();
        law_started_first_and_once(mode, before);
        law_unpolled_run_leaves_the_pipeline_alone(mode, before);
        lemma_last_asked(mode, before);
        if crate::runtime::run_expects(run_after(mode, before), events.last()) {
            crate::trace::lemma_count_push(
                asked(mode, before),
                crate::runtime::run_action(run),
                is_start(),
            );
            if asked(mode, before).len() == 1 {
                assert(asked(mode, before) =~= seq![RunAction::AwaitPoll]);
            }
        }
    }
}

/// While the call that starts the pipeline has not returned, and only then, the cleanup
/// is left to that call, so a dropped run never stops the pipeline before its start.
pub proof fn law_cleanup_follows_startup(mode: ShutdownMode, events: Seq<RunEvent>)
    ensures
        (crate::runtime::run_cleanup(run_after(mode, events)) == Cleanup::AfterStartup) <==> (
        asked(mode, events) =~= seq![RunAction::AwaitPoll, RunAction::Start]),
    decreases events.len(),
{
    law_unpolled_run_leaves_the_pipeline_alone(mode, events);
    if events.len() > 0 {
        let before = events.drop_last();
        law_cleanup_follows_startup(mode, before);
        law_unpolled_run_leaves_the_pipeline_alone(mode, before);
        law_started_first_and_once(mode, before);
        lemma_last_asked(mode, before);
        if crate::runtime::run_expects(run_after(mode, before), events.last()) {
            if asked(mode, before).len() == 1 {
                assert(asked(mode, before) =~= seq![RunAction::AwaitPoll]);
            } else {
                assert(asked(mode, events).len() >= 3);
            }
        }
    }
}

/// An action that sends EOS is in order if shutdown was requested and the mode says that EOS
/// is drained, and if it names the time for draining that the mode gives, which
/// runs while EOS is sent.
pub open spec fn eos_in_order(mode: ShutdownMode, requested: bool, action: RunAction) -> bool {
    action matches RunAction::Drive(DriveAction::SendEos { timeout, deadline_runs }) ==> {
        &&& requested
        &&& mode == (ShutdownMode::Eos { timeout })
        &&& deadline_runs
    }
}

/// EOS is sent into the pipeline at most once, only after the application asked for
/// shutdown, and only in the mode that says so, with that mode's time for draining.
pub proof fn law_eos_only_after_shutdown(mode: ShutdownMode, events: Seq<RunEvent>)
    ensures
        crate::trace::count(asked(mode, events), is_send_eos()) <= 1,
        forall|i: int| #![trigger asked(mode, events)[i]]
            0 <= i < asked(mode, events).len() ==> eos_in_order(
                mode,
                shutdown_requested(events),
                asked(mode, events)[i],
            ),
{
    lemma_eos(mode, events);
}

proof fn lemma_eos(mode: ShutdownMode, events: Seq<RunEvent>)
    ensures
        run_after(mode, events).mode == mode,
        crate::trace::count(asked(mode, events), is_send_eos()) <= 1,
        match run_after(mode, events).phase {
            RunPhase::Created => crate::trace::count(
                asked(mode, events),
                is_send_eos(),
            ) == 0,
            RunPhase::Starting => crate::trace::count(
                asked(mode, events),
                is_send_eos(),
            ) == 0,
            RunPhase::OpeningBus => crate::trace::count(
                asked(mode, events),
                is_send_eos(),
            ) == 0,
            RunPhase::Driving(drive) => {
                &&& drive.mode == mode
                &&& drive.deadline_covers_send
                &&& !(drive.phase is Decided)
                &&& drive.phase is Watching ==> crate::trace::count(
                    asked(mode, events),
                    is_send_eos(),
                ) == 0
                &&& drive.phase matches DrivePhase::SendingEos { timeout } ==> mode == (
                ShutdownMode::Eos { timeout }) && shutdown_requested(events)
            },
            _ => true,
        },
        forall|i: int| #![trigger asked(mode, events)[i]]
            0 <= i < asked(mode, events).len() ==> eos_in_order(
                mode,
                shutdown_requested(events),
                asked(mode, events)[i],
            ),
    decreases events.len(),
{
    let run = run_after(mode, events);
    if events.len() == 0 {
        crate::trace::lemma_count_one(crate::runtime::run_action(run), is_send_eos());
    } else {
        let before = events.drop_last();
        lemma_eos(mode, before);
        crate::trace::lemma_contains_drop_last(
            events,
            RunEvent::Drive(DriveEvent::Shutdown),
        );
        if crate::runtime::run_expects(run_after(mode, before), events.last()) {
            crate::trace::lemma_count_push(
                asked(mode, before),
                crate::runtime::run_action(run),
                is_send_eos(),
            );
            assert forall|i: int| #![trigger asked(mode, events)[i]]
                0 <= i < asked(mode, events).len() implies eos_in_order(
                mode,
                shutdown_requested(events),
                asked(mode, events)[i],
            ) by {
                if i < asked(mode, before).len() {
                    assert(asked(mode, events)[i] == asked(mode, before)[i]);
                }
            }
        }
    }
}

/// How an event ends the part of a run that precedes its stop, given whether shutdown was
/// requested by then; `None` if it does not end it.
pub open spec fn outcome_of(
    mode: ShutdownMode,
    requested: bool,
    event: RunEvent,
) -> Option<Result<PipelineExit, Failure>> {
    match event {
        RunEvent::Started(Err(cause)) => Some(Err(Failure::Startup { cause })),
        RunEvent::BusOpened(false) => Some(Err(Failure::NoBus)),
        RunEvent::Drive(e) => crate::drive_laws::ended_by(mode, requested, e),
        _ => None,
    }
}

proof fn lemma_outcome(mode: ShutdownMode, events: Seq<RunEvent>)
    requires
        awaited(mode, events),
    ensures
        run_after(mode, events).mode == mode,
        match run_after(mode, events).phase {
            RunPhase::Created => events.len() == 0,
            RunPhase::Starting => !shutdown_requested(events),
            RunPhase::OpeningBus => !shutdown_requested(events),
            RunPhase::Driving(drive) => !(drive.phase is Decided) && crate::drive_laws::drive_inv(
                drive,
                mode,
                shutdown_requested(events),
            ),
            RunPhase::Stopping { outcome } => events.len() > 0 && outcome_of(
                mode,
                shutdown_requested(events),
                events.last(),
            ) == Some(outcome),
            RunPhase::Finished { result } => {
                &&& events.len() >= 2
                &&& events.last() matches RunEvent::Stopped(set_null)
                &&& outcome_of(
                    mode,
                    shutdown_requested(events),
                    events[events.len() - 2],
                ) matches Some(outcome)
                &&& result == crate::outcome::run_result(
                    outcome,
                    crate::runtime::stop_result(set_null),
                )
            },
        },
    decreases events.len(),
{
    if events.len() > 0 {
        let before = events.drop_last();
        lemma_outcome(mode, before);
        crate::trace::lemma_contains_drop_last(
            events,
            RunEvent::Drive(DriveEvent::Shutdown),
        );
        let run = run_after(mode, before);
        match (run.phase, events.last()) {
            (RunPhase::Driving(drive), RunEvent::Drive(e)) => {
                crate::drive_laws::law_drive_ends(
                    drive,
                    mode,
                    shutdown_requested(before),
                    e,
                );
            },
            (RunPhase::Stopping { .. }, _) => {
                assert(events[events.len() - 2] == before.last());
            },
            _ => {},
        }
    }
}

/// Each event that ends the course of a run leads to the stop at once, with the outcome that
/// it stands for, and no other event does.
pub proof fn law_stop_follows_the_end(
    mode: ShutdownMode,
    events: Seq<RunEvent>,
    event: RunEvent,
)
    requires
        awaited(mode, events),
        crate::runtime::run_expects(run_after(mode, events), event),
        !(run_after(mode, events).phase is Stopping),
    ensures
        ({
            let next = run_after(mode, events.push(event));
            match outcome_of(mode, shutdown_requested(events.push(event)), event) {
                Some(outcome) => next.phase == (RunPhase::Stopping { outcome }),
                None => !(next.phase is Stopping),
            }
        }),
{
    assert(events.push(event).drop_last() =~= events);
    lemma_outcome(mode, events);
    lemma_outcome(mode, events.push(event));
    crate::trace::lemma_contains_drop_last(
        events.push(event),
        RunEvent::Drive(DriveEvent::Shutdown),
    );
    if let RunPhase::Driving(drive) = run_after(mode, events).phase {
        crate::drive_laws::law_drive_ends(
            drive,
            mode,
            shutdown_requested(events),
            event->Drive_0,
        );
    }
}

/// The result of a run that is over follows from its last two events: the one that ended
/// it, and the one that reports its stop. Either failure is reported, and both if both
/// happened.
pub proof fn law_result(mode: ShutdownMode, events: Seq<RunEvent>)
    requires
        awaited(mode, events),
        run_after(mode, events).phase is Finished,
    ensures
        events.len() >= 2,
        events.last() is Stopped,
        outcome_of(mode, shutdown_requested(events), events[events.len() - 2]) is Some,
        run_after(mode, events).phase->result == crate::outcome::run_result(
            outcome_of(mode, shutdown_requested(events), events[events.len() - 2])->0,
            crate::runtime::stop_result(events.last()->Stopped_0),
        ),
{
    lemma_outcome(mode, events);
}

/// A run ends with EOS exactly if EOS came on the bus before any shutdown request, and the
/// stop went well.
pub proof fn law_exit_eos(mode: ShutdownMode, events: Seq<RunEvent>)
    requires
        awaited(mode, events),
        run_after(mode, events).phase is Finished,
    ensures
        (run_after(mode, events).phase->result == Ok::<PipelineExit, RunError>(PipelineExit::Eos))
            <==> {
            &&& !shutdown_requested(events)
            &&& events[events.len() - 2] == RunEvent::Drive(
                DriveEvent::Message(Some(BusMessage::Eos)),
            )
            &&& stopped_well(events.last())
        },
{
    lemma_outcome(mode, events);
}

/// A run ends with shutdown exactly if the application asked for it, the stop went well
/// and, in the mode that drains, EOS came out on the bus in between.
pub proof fn law_exit_shutdown(mode: ShutdownMode, events: Seq<RunEvent>)
    requires
        awaited(mode, events),
        run_after(mode, events).phase is Finished,
    ensures
        (run_after(mode, events).phase->result == Ok::<PipelineExit, RunError>(
            PipelineExit::Shutdown,
        )) <==> {
            &&& shutdown_requested(events)
            &&& stopped_well(events.last())
            &&& events[events.len() - 2] == (match mode {
                ShutdownMode::Immediate => RunEvent::Drive(DriveEvent::Shutdown),
                ShutdownMode::Eos { .. } => RunEvent::Drive(
                    DriveEvent::Message(Some(BusMessage::Eos)),
                ),
            })
        },
{
    lemma_outcome(mode, events);
    if mode is Immediate && shutdown_requested(events) {
        lemma_immediate(mode, events);
    }
}

proof fn lemma_immediate(mode: ShutdownMode, events: Seq<RunEvent>)
    requires
        awaited(mode, events),
        mode is Immediate,
        shutdown_requested(events),
    ensures
        match run_after(mode, events).phase {
            RunPhase::Stopping { .. } => events.last() == RunEvent::Drive(DriveEvent::Shutdown),
            RunPhase::Finished { .. } => events[events.len() - 2] == RunEvent::Drive(
                DriveEvent::Shutdown,
            ),
            _ => false,
        },
    decreases events.len(),
{
    let before = events.drop_last();
    crate::trace::lemma_contains_drop_last(
        events,
        RunEvent::Drive(DriveEvent::Shutdown),
    );
    lemma_outcome(mode, before);
    if shutdown_requested(before) {
        lemma_immediate(mode, before);
        assert(events[events.len() - 2] == before.last());
    }
}

/// Messages that are neither EOS nor errors leave no trace: a run that is told of one more
/// of them, at any time, goes the same way.
pub proof fn law_other_messages_leave_no_trace(
    mode: ShutdownMode,
    before: Seq<RunEvent>,
    after: Seq<RunEvent>,
)
    ensures
        run_after(
            mode,
            before + seq![RunEvent::Drive(DriveEvent::Message(Some(BusMessage::Other)))] + after,
        ) == run_after(mode, before + after),
    decreases after.len(),
{
    let other = RunEvent::Drive(DriveEvent::Message(Some(BusMessage::Other)));
    let with = before + seq![other] + after;
    let without = before + after;
    if after.len() == 0 {
        assert(with.drop_last() =~= before);
        assert(without =~= before);
        law_run_in_order(mode, before);
    } else {
        assert(with.drop_last() =~= before + seq![other] + after.drop_last());
        assert(without.drop_last() =~= before + after.drop_last());
        law_other_messages_leave_no_trace(mode, before, after.drop_last());
    }
}

/// Whether an event is an answer to what a run asked its host for.
pub open spec fn answers(action: RunAction, event: RunEvent) -> bool {
    match event {
        RunEvent::Polled => action is AwaitPoll,
        RunEvent::Started(_) => action is Start,
        RunEvent::BusOpened(_) => action is OpenBus,
        RunEvent::Drive(e) => {
            &&& action matches RunAction::Drive(a)
            &&& crate::drive_laws::drive_answers(a, e)
        },
        RunEvent::Stopped(_) => action is Stop,
    }
}

/// What a run asks for and what it waits for belong together: it takes into account every
/// answer to what it asked for, whatever the answer holds, and nothing else.
pub proof fn law_awaits_every_answer(run: Run, event: RunEvent)
    ensures
        crate::runtime::run_expects(run, event) <==> answers(
            crate::runtime::run_action(run),
            event,
        ),
        !answers(crate::runtime::run_action(run), event) ==> crate::runtime::run_step(
            run,
            event,
        ) == run,
{
    if let RunPhase::Driving(drive) = run.phase {
        if let RunEvent::Drive(e) = event {
            crate::drive_laws::law_drive_awaits_every_answer(drive, e);
        }
    }
}

/// A run that plays listens: whenever its host waits for the application and the bus, the
/// run takes a shutdown request and every message into account, in either mode; whenever it
/// waits for EOS to come out, every message and the end of the time for it; whenever it
/// sends EOS, either answer.
pub proof fn law_run_listens(
    mode: ShutdownMode,
    events: Seq<RunEvent>,
    message: Option<BusMessage>,
    taken: bool,
    cause: String,
)
    ensures
        ({
            let run = run_after(mode, events);
            let action = crate::runtime::run_action(run);
            let expects = |e: DriveEvent| crate::runtime::run_expects(run, RunEvent::Drive(e));
            &&& action == RunAction::Drive(DriveAction::AwaitShutdownOrMessage) ==> expects(
                DriveEvent::Shutdown,
            ) && expects(DriveEvent::Message(message))
            &&& action == RunAction::Drive(DriveAction::AwaitDrained) ==> expects(
                DriveEvent::Message(message),
            ) && expects(DriveEvent::DeadlineElapsed(cause))
            &&& is_send_eos()(action) ==> expects(DriveEvent::EosSent(taken))
        }),
{
    law_run_in_order(mode, events);
}

/// What a host is to do next, given what it was asked for and what it answered; `None` if the
/// answer is none to that. A failure on the way, EOS, an error and a closed bus all lead to
/// the stop, other messages to nothing new.
pub open spec fn asked_next(
    mode: ShutdownMode,
    action: RunAction,
    event: RunEvent,
) -> Option<RunAction> {
    match (action, event) {
        (RunAction::AwaitPoll, RunEvent::Polled) => Some(RunAction::Start),
        (RunAction::Start, RunEvent::Started(Ok(_))) => Some(RunAction::OpenBus),
        (RunAction::OpenBus, RunEvent::BusOpened(true)) => Some(
            RunAction::Drive(DriveAction::AwaitShutdownOrMessage),
        ),
        (RunAction::Start, RunEvent::Started(Err(_))) => Some(RunAction::Stop),
        (RunAction::OpenBus, RunEvent::BusOpened(false)) => Some(RunAction::Stop),
        (
            RunAction::Drive(DriveAction::AwaitShutdownOrMessage),
            RunEvent::Drive(DriveEvent::Shutdown),
        ) => Some(
            match mode {
                ShutdownMode::Immediate => RunAction::Stop,
                ShutdownMode::Eos { timeout } => RunAction::Drive(
                    DriveAction::SendEos { timeout, deadline_runs: true },
                ),
            },
        ),
        (
            RunAction::Drive(DriveAction::SendEos { .. }),
            RunEvent::Drive(DriveEvent::EosSent(taken)),
        ) => Some(
            if taken {
                RunAction::Drive(DriveAction::AwaitDrained)
            } else {
                RunAction::Stop
            },
        ),
        (
            RunAction::Drive(DriveAction::SendEos { .. }),
            RunEvent::Drive(DriveEvent::DeadlineElapsed(_)),
        ) => Some(RunAction::Stop),
        (
            RunAction::Drive(DriveAction::AwaitDrained),
            RunEvent::Drive(DriveEvent::DeadlineElapsed(_)),
        ) => Some(RunAction::Stop),
        (RunAction::Drive(a), RunEvent::Drive(DriveEvent::Message(message))) => if a
            is AwaitShutdownOrMessage || a is AwaitDrained {
            Some(
                if message is Some && message->0 is Other {
                    action
                } else {
                    RunAction::Stop
                },
            )
        } else {
            None
        },
        (RunAction::Stop, RunEvent::Stopped(_)) => Some(RunAction::Return),
        _ => None,
    }
}

/// What a run asks for next follows from what it asked for and what it was told, in every
/// state that it can be in. What is no answer changes nothing.
pub proof fn law_asks_in_turn(
    mode: ShutdownMode,
    events: Seq<RunEvent>,
    event: RunEvent,
)
    ensures
        ({
            let run = run_after(mode, events);
            let next = run_after(mode, events.push(event));
            match asked_next(mode, crate::runtime::run_action(run), event) {
                Some(action) => {
                    &&& crate::runtime::run_expects(run, event)
                    &&& crate::runtime::run_action(next) == action
                },
                None => {
                    &&& !crate::runtime::run_expects(run, event)
                    &&& next == run
                },
            }
        }),
{
    assert(events.push(event).drop_last() =~= events);
    lemma_eos(mode, events);
    law_run_in_order(mode, events);
    let run = run_after(mode, events);
    law_awaits_every_answer(run, event);
    if let RunPhase::Driving(drive) = run.phase {
        if let RunEvent::Drive(e) = event {
            crate::drive_laws::law_drive_asks(crate::drive::drive_step(drive, e));
        }
    }
}

/// An error that an element posts ends a run that plays or drains, at once and in either
/// mode: the pipeline is stopped, and the result tells the element's error, together with what
/// went wrong in the stop.
pub proof fn law_error_ends_the_run(
    mode: ShutdownMode,
    events: Seq<RunEvent>,
    source: Option<String>,
    error: String,
    debug: Option<String>,
    set_null: Result<(), String>,
)
    requires
        ({
            let action = crate::runtime::run_action(run_after(mode, events));
            action == RunAction::Drive(DriveAction::AwaitShutdownOrMessage) || action
                == RunAction::Drive(DriveAction::AwaitDrained)
        }),
    ensures
        ({
            let message = BusMessage::Error { source, error, debug };
            let failure = Failure::Pipeline { source, error, debug };
            let told = events.push(RunEvent::Drive(DriveEvent::Message(Some(message))));
            let stopped = run_after(mode, told.push(RunEvent::Stopped(set_null)));
            &&& crate::runtime::run_action(run_after(mode, told)) == RunAction::Stop
            &&& crate::runtime::run_action(stopped) == RunAction::Return
            &&& set_null is Ok ==> stopped.phase == (RunPhase::Finished {
                result: Err(RunError::One(failure)),
            })
            &&& set_null matches Err(cause) ==> stopped.phase == (RunPhase::Finished {
                result: Err(RunError::Both { outcome: failure, cleanup: Failure::Stop { cause } }),
            })
        }),
{
    let message = BusMessage::Error { source, error, debug };
    let told = events.push(RunEvent::Drive(DriveEvent::Message(Some(message))));
    assert(told.drop_last() =~= events);
    let stopped = told.push(RunEvent::Stopped(set_null));
    assert(stopped.drop_last() =~= told);
    law_run_in_order(mode, events);
}

/// The result of a run that is over tells every failure that happened to it and no other, in
/// terms of the events alone: how it ended, and what became of the stop.
pub proof fn law_result_tells_everything(
    mode: ShutdownMode,
    events: Seq<RunEvent>,
)
    requires
        awaited(mode, events),
        run_after(mode, events).phase is Finished,
    ensures
        ({
            let result = run_after(mode, events).phase->result;
            let outcome = outcome_of(mode, shutdown_requested(events), events[events.len() - 2])->0;
            match events.last()->Stopped_0 {
                Ok(_) => match outcome {
                    Ok(exit) => result == Ok::<PipelineExit, RunError>(exit),
                    Err(failure) => result == Err::<PipelineExit, RunError>(RunError::One(failure)),
                },
                Err(cause) => match outcome {
                    Ok(_) => result == Err::<PipelineExit, RunError>(
                        RunError::One(Failure::Stop { cause }),
                    ),
                    Err(failure) => result == Err::<PipelineExit, RunError>(
                        RunError::Both { outcome: failure, cleanup: Failure::Stop { cause } },
                    ),
                },
            }
        }),
{
    lemma_outcome(mode, events);
}

/// The operations of a run do what is said here of runs: a call of `step` takes the run on as
/// [`crate::runtime::run_step`] does and tells whether the event was awaited, `action` gives what
/// the run asks for, and `finish` gives the result exactly when the run asks to return.
pub proof fn law_run_operations()
    ensures
        forall|run: &mut Run, event: RunEvent, expected: bool| #[trigger]
            call_ensures(Run::step, (run, event), expected) ==> {
                &&& *final(run) == crate::runtime::run_step(*run, event)
                &&& expected == crate::runtime::run_expects(*run, event)
            },
        forall|run: &Run, action: RunAction| #[trigger]
            call_ensures(Run::action, (run,), action) ==> action == crate::runtime::run_action(
                *run,
            ),
        forall|run: Run, r: Result<Result<PipelineExit, RunError>, Run>| #[trigger]
            call_ensures(Run::finish, (run,), r) ==> {
                &&& r is Ok <==> crate::runtime::run_action(run) == RunAction::Return
                &&& r is Ok ==> r->Ok_0 == run.phase->result
                &&& r is Err ==> r->Err_0 == run
            },
        forall|run: &Run, cleanup: Cleanup| #[trigger]
            call_ensures(Run::cleanup, (run,), cleanup) ==> cleanup == crate::runtime::run_cleanup(
                *run,
            ),
        forall|cleanup: &Cleanup, armed: bool| #[trigger]
            call_ensures(Cleanup::is_armed, (cleanup,), armed) ==> (armed <==> (*cleanup
                == Cleanup::AfterStartup || *cleanup == Cleanup::Now)),
{
}

/// A runner hands out the pipeline it was made with, and a run that handles shutdown as the
/// runner was told last, or immediately if it was told nothing. The run waits to be polled.
pub proof fn law_runner<P>(
    pipeline: P,
    mode: ShutdownMode,
    plain: PipelineRunner<P>,
    told: PipelineRunner<P>,
    a: (P, Run),
    b: (P, Run),
)
    requires
        call_ensures(PipelineRunner::<P>::new, (pipeline,), plain),
        call_ensures(PipelineRunner::<P>::shutdown_mode, (plain, mode), told),
        call_ensures(PipelineRunner::<P>::run, (plain,), a),
        call_ensures(PipelineRunner::<P>::run, (told,), b),
    ensures
        a.0 == pipeline,
        b.0 == pipeline,
        a.1 == run_after(ShutdownMode::Immediate, Seq::empty()),
        b.1 == run_after(mode, Seq::empty()),
        a.1.mode is Immediate,
        b.1.mode == mode,
        crate::runtime::run_action(b.1) == RunAction::AwaitPoll,
{
}

/// A stop that fails is judged a failure with the cause that was told, and is logged in one
/// line that tells it; a stop that goes well is neither.
pub proof fn law_failed_stop_is_told(
    set_null: Result<(), String>,
    judged: Result<(), Failure>,
    logged: Option<String>,
)
    requires
        call_ensures(crate::runtime::stop, (set_null,), judged),
        call_ensures(crate::runtime::stop_log, (&set_null,), logged),
    ensures
        set_null is Ok ==> judged is Ok && logged is None,
        set_null matches Err(cause) ==> {
            &&& judged == Err::<(), Failure>(Failure::Stop { cause })
            &&& logged is Some
            &&& logged->0@ == "pipeline cleanup failed: "@ + ("setting the pipeline to Null"@
                + ": "@ + cause@)
        },
{
}

/// How many awaited events, other messages not counted, a run can still take.
pub open spec fn run_rank(run: Run) -> nat {
    match run.phase {
        RunPhase::Created => 7,
        RunPhase::Starting => 6,
        RunPhase::OpeningBus => 5,
        RunPhase::Driving(drive) => crate::drive_laws::drive_rank(drive) + 1,
        RunPhase::Stopping { .. } => 1,
        RunPhase::Finished { .. } => 0,
    }
}

/// Every awaited event, unless it is a message that is ignored, brings a run closer to its
/// end.
pub proof fn law_progress(run: Run, event: RunEvent)
    requires
        crate::runtime::run_expects(run, event),
        event != RunEvent::Drive(DriveEvent::Message(Some(BusMessage::Other))),
    ensures
        run_rank(crate::runtime::run_step(run, event)) < run_rank(run),
{
}

/// A run waits for something until it is over, and for nothing after.
pub proof fn law_waits_until_finished(mode: ShutdownMode, events: Seq<RunEvent>)
    ensures
        (run_after(mode, events).phase is Finished) <==> (forall|event: RunEvent|
            !crate::runtime::run_expects(run_after(mode, events), event)),
{
    law_run_in_order(mode, events);
    let run = run_after(mode, events);
    if !(run.phase is Finished) {
        let event = match run.phase {
            RunPhase::Created => RunEvent::Polled,
            RunPhase::Starting => RunEvent::Started(Ok(())),
            RunPhase::OpeningBus => RunEvent::BusOpened(true),
            RunPhase::Driving(drive) => if drive.phase is SendingEos {
                RunEvent::Drive(DriveEvent::EosSent(true))
            } else {
                RunEvent::Drive(DriveEvent::Message(None))
            },
            _ => RunEvent::Stopped(Ok(())),
        };
        assert(crate::runtime::run_expects(run, event));
    }
}

}
