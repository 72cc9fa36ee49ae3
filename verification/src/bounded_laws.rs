//! What holds of every run whose teardown has a deadline, from its start on.
use std::time::Duration;
use vstd::prelude::*;

use crate::bounded::{PipelineRunner, Run, RunAction, RunEvent, RunPhase};
use crate::drive::{BusMessage, DriveAction, DriveEvent, DrivePhase, PipelineExit, ShutdownMode};
use crate::error::{Failure, PipelineState, RunError};

verus! {

/// The run in this mode after it was told of these events.
pub open spec fn run_after(mode: ShutdownMode, wait: Duration, events: Seq<RunEvent>) -> Run
    decreases events.len(),
{
    if events.len() == 0 {
        crate::bounded::run_start(mode, wait)
    } else {
        crate::bounded::run_step(run_after(mode, wait, events.drop_last()), events.last())
    }
}

/// Whether each of the events was awaited when it came.
pub open spec fn awaited(mode: ShutdownMode, wait: Duration, events: Seq<RunEvent>) -> bool
    decreases events.len(),
{
    events.len() == 0 || (awaited(mode, wait, events.drop_last()) && crate::bounded::run_expects(
        run_after(mode, wait, events.drop_last()),
        events.last(),
    ))
}

/// Everything the run has asked for up to now: one action at its start, and one after
/// each awaited event.
pub open spec fn asked(mode: ShutdownMode, wait: Duration, events: Seq<RunEvent>) -> Seq<RunAction>
    decreases events.len(),
{
    if events.len() == 0 {
        seq![crate::bounded::run_action(run_after(mode, wait, events))]
    } else if crate::bounded::run_expects(
        run_after(mode, wait, events.drop_last()),
        events.last(),
    ) {
        asked(mode, wait, events.drop_last()).push(
            crate::bounded::run_action(run_after(mode, wait, events)),
        )
    } else {
        asked(mode, wait, events.drop_last())
    }
}

/// The action that takes the pipeline to `Null`.
pub open spec fn is_stop() -> spec_fn(RunAction) -> bool {
    |action: RunAction| action is Stop
}

/// The action that takes the pipeline to `Playing`.
pub open spec fn is_start() -> spec_fn(RunAction) -> bool {
    |action: RunAction| action is Start
}

/// The action that sends EOS into the pipeline.
pub open spec fn is_send_eos() -> spec_fn(RunAction) -> bool {
    |action: RunAction| action matches RunAction::Drive(a) && a is SendEos
}

/// Whether the application asked for shutdown among these events.
pub open spec fn shutdown_requested(events: Seq<RunEvent>) -> bool {
    events.contains(RunEvent::Drive(DriveEvent::Shutdown))
}

/// Whether an event reports that the pipeline reached `Null`.
pub open spec fn stopped_well(event: RunEvent) -> bool {
    event matches RunEvent::Settled { change, current, .. } && change is Ok && current
        == PipelineState::Null
}

/// What the last event of a run says about the stop: the pipeline refused it, or it was
/// waited for.
pub open spec fn cleanup_of(event: RunEvent) -> Result<(), Failure> {
    match event {
        RunEvent::Stopped(Err(cause)) => Err(Failure::Stop { cause }),
        RunEvent::Settled { change, current, pending } => crate::bounded::settle_result(
            change,
            current,
            pending,
        ),
        _ => Ok(()),
    }
}

/// Where the event stands that ended what precedes the stop of a run that is over: behind
/// it come the answer to the stop and, where there was one, the wait.
pub open spec fn ending(events: Seq<RunEvent>) -> int {
    if events.last() is Settled {
        events.len() - 3
    } else {
        events.len() - 2
    }
}

/// Whether a run that drives keeps its drive undecided; the decision always leads on.
pub open spec fn run_inv(run: Run) -> bool {
    run.phase matches RunPhase::Driving(drive) ==> {
        &&& !(drive.phase is Decided)
        &&& drive.mode == run.mode
        &&& !drive.deadline_covers_send
    }
}

/// In every state of a run its drive is undecided, handles shutdown as the run was told
/// to, and lets the time for draining start once EOS was sent.
pub proof fn law_run_in_order(mode: ShutdownMode, wait: Duration, events: Seq<RunEvent>)
    ensures
        run_inv(run_after(mode, wait, events)),
        run_after(mode, wait, events).mode == mode,
        run_after(mode, wait, events).state_change_timeout == wait,
    decreases events.len(),
{
    if events.len() > 0 {
        law_run_in_order(mode, wait, events.drop_last());
    }
}

/// Whether the run has come to the stop of the pipeline.
pub open spec fn past_drive(run: Run) -> bool {
    run.phase is Stopping || run.phase is AwaitingNull || run.phase is Finished
}

/// The pipeline is asked to go to `Null` once the drive is over, and once only.
pub proof fn law_stopped_at_most_once(mode: ShutdownMode, wait: Duration, events: Seq<RunEvent>)
    ensures
        crate::trace::count(asked(mode, wait, events), is_stop()) == if past_drive(
            run_after(mode, wait, events),
        ) {
            1nat
        } else {
            0nat
        },
    decreases events.len(),
{
    let run = run_after(mode, wait, events);
    if events.len() == 0 {
        crate::trace::lemma_count_one(crate::bounded::run_action(run), is_stop());
    } else {
        let before = events.drop_last();
        law_stopped_at_most_once(mode, wait, before);
        if crate::bounded::run_expects(run_after(mode, wait, before), events.last()) {
            crate::trace::lemma_count_push(
                asked(mode, wait, before),
                crate::bounded::run_action(run),
                is_stop(),
            );
        }
    }
}

/// A run that is over has asked the pipeline to go to `Null`, once. Before it returned it
/// asked for nothing else but the wait for `Null`.
pub proof fn law_null_before_return(mode: ShutdownMode, wait: Duration, events: Seq<RunEvent>)
    requires
        run_after(mode, wait, events).phase is Finished,
    ensures
        ({
            let actions = asked(mode, wait, events);
            &&& actions.len() >= 2
            &&& actions[actions.len() - 1] == RunAction::Return
            &&& crate::trace::count(actions, is_stop()) == 1
            &&& actions[actions.len() - 2] == RunAction::Stop || {
                &&& actions.len() >= 3
                &&& actions[actions.len() - 2] is AwaitNull
                &&& actions[actions.len() - 3] == RunAction::Stop
            }
        }),
    decreases events.len(),
{
    law_stopped_at_most_once(mode, wait, events);
    let before = events.drop_last();
    if crate::bounded::run_expects(run_after(mode, wait, before), events.last()) {
        lemma_last_asked(mode, wait, before);
        let actions = asked(mode, wait, events);
        assert(actions[actions.len() - 2] == asked(mode, wait, before).last());
        if run_after(mode, wait, before).phase is AwaitingNull {
            lemma_stop_before_wait(mode, wait, before);
        }
    } else {
        law_null_before_return(mode, wait, before);
    }
}

proof fn lemma_stop_before_wait(mode: ShutdownMode, wait: Duration, events: Seq<RunEvent>)
    requires
        run_after(mode, wait, events).phase is AwaitingNull,
    ensures
        asked(mode, wait, events).len() >= 2,
        asked(mode, wait, events)[asked(mode, wait, events).len() - 2] == RunAction::Stop,
    decreases events.len(),
{
    let before = events.drop_last();
    lemma_last_asked(mode, wait, before);
    if !crate::bounded::run_expects(run_after(mode, wait, before), events.last()) {
        lemma_stop_before_wait(mode, wait, before);
    }
}

/// Whether so many nanoseconds are the duration, or all that 64 bits can hold of it.
pub open spec fn wait_is(wait: Duration, nanoseconds: u64) -> bool {
    &&& crate::clock::duration_nanos(wait) <= u64::MAX ==> nanoseconds
        == crate::clock::duration_nanos(wait)
    &&& crate::clock::duration_nanos(wait) > u64::MAX ==> nanoseconds == u64::MAX
}

/// Whenever a run waits for `Null`, it waits for the time that the runner was given, in
/// nanoseconds, as many as 64 bits can hold.
pub proof fn law_wait_is_bounded(mode: ShutdownMode, wait: Duration, events: Seq<RunEvent>)
    ensures
        forall|i: int| #![trigger asked(mode, wait, events)[i]]
            0 <= i < asked(mode, wait, events).len() ==> (asked(
                mode,
                wait,
                events,
            )[i] matches RunAction::AwaitNull { nanoseconds } ==> wait_is(wait, nanoseconds)),
    decreases events.len(),
{
    law_run_in_order(mode, wait, events);
    if events.len() > 0 {
        let before = events.drop_last();
        law_wait_is_bounded(mode, wait, before);
        assert forall|i: int| #![trigger asked(mode, wait, events)[i]]
            0 <= i < asked(mode, wait, events).len() implies (asked(
            mode,
            wait,
            events,
        )[i] matches RunAction::AwaitNull { nanoseconds } ==> wait_is(wait, nanoseconds)) by {
            if i < asked(mode, wait, before).len() {
                assert(asked(mode, wait, events)[i] == asked(mode, wait, before)[i]);
            }
        }
    }
}

proof fn lemma_last_asked(mode: ShutdownMode, wait: Duration, events: Seq<RunEvent>)
    ensures
        asked(mode, wait, events).len() > 0,
        asked(mode, wait, events).last() == crate::bounded::run_action(
            run_after(mode, wait, events),
        ),
    decreases events.len(),
{
    if events.len() > 0 {
        lemma_last_asked(mode, wait, events.drop_last());
    }
}

/// The pipeline's bus is fetched before anything else, and the pipeline is started at most
/// once.
pub proof fn law_started_at_most_once(mode: ShutdownMode, wait: Duration, events: Seq<RunEvent>)
    ensures
        asked(mode, wait, events).len() > 0,
        asked(mode, wait, events)[0] == RunAction::OpenBus,
        crate::trace::count(asked(mode, wait, events), is_start()) <= 1,
{
    lemma_started(mode, wait, events);
}

proof fn lemma_started(mode: ShutdownMode, wait: Duration, events: Seq<RunEvent>)
    ensures
        asked(mode, wait, events).len() > 0,
        asked(mode, wait, events)[0] == RunAction::OpenBus,
        crate::trace::count(asked(mode, wait, events), is_start()) <= 1,
        run_after(mode, wait, events).phase is OpeningBus ==> crate::trace::count(
            asked(mode, wait, events),
            is_start(),
        ) == 0,
    decreases events.len(),
{
    let run = run_after(mode, wait, events);
    if events.len() == 0 {
        crate::trace::lemma_count_one(crate::bounded::run_action(run), is_start());
    } else {
        let before = events.drop_last();
        lemma_started(mode, wait, before);
        if crate::bounded::run_expects(run_after(mode, wait, before), events.last()) {
            crate::trace::lemma_count_push(
                asked(mode, wait, before),
                crate::bounded::run_action(run),
                is_start(),
            );
        }
    }
}

/// An action that sends EOS is in order if shutdown was requested and the mode says that EOS
/// is drained, and if it names the time for draining that the mode gives, which
/// does not run while EOS is sent.
pub open spec fn eos_in_order(mode: ShutdownMode, requested: bool, action: RunAction) -> bool {
    action matches RunAction::Drive(DriveAction::SendEos { timeout, deadline_runs }) ==> {
        &&& requested
        &&& mode == (ShutdownMode::Eos { timeout })
        &&& !deadline_runs
    }
}

/// EOS is sent into the pipeline at most once, only after the application asked for
/// shutdown, and only in the mode that says so, with that mode's time for draining.
pub proof fn law_eos_only_after_shutdown(mode: ShutdownMode, wait: Duration, events: Seq<RunEvent>)
    ensures
        crate::trace::count(asked(mode, wait, events), is_send_eos()) <= 1,
        forall|i: int| #![trigger asked(mode, wait, events)[i]]
            0 <= i < asked(mode, wait, events).len() ==> eos_in_order(
                mode,
                shutdown_requested(events),
                asked(mode, wait, events)[i],
            ),
{
    lemma_eos(mode, wait, events);
}

proof fn lemma_eos(mode: ShutdownMode, wait: Duration, events: Seq<RunEvent>)
    ensures
        run_after(mode, wait, events).mode == mode,
        crate::trace::count(asked(mode, wait, events), is_send_eos()) <= 1,
        match run_after(mode, wait, events).phase {
            RunPhase::Starting => crate::trace::count(
                asked(mode, wait, events),
                is_send_eos(),
            ) == 0,
            RunPhase::OpeningBus => crate::trace::count(
                asked(mode, wait, events),
                is_send_eos(),
            ) == 0,
            RunPhase::Driving(drive) => {
                &&& drive.mode == mode
                &&& !drive.deadline_covers_send
                &&& !(drive.phase is Decided)
                &&& drive.phase is Watching ==> crate::trace::count(
                    asked(mode, wait, events),
                    is_send_eos(),
                ) == 0
                &&& drive.phase matches DrivePhase::SendingEos { timeout } ==> mode == (
                ShutdownMode::Eos { timeout }) && shutdown_requested(events)
            },
            _ => true,
        },
        forall|i: int| #![trigger asked(mode, wait, events)[i]]
            0 <= i < asked(mode, wait, events).len() ==> eos_in_order(
                mode,
                shutdown_requested(events),
                asked(mode, wait, events)[i],
            ),
    decreases events.len(),
{
    let run = run_after(mode, wait, events);
    if events.len() == 0 {
        crate::trace::lemma_count_one(crate::bounded::run_action(run), is_send_eos());
    } else {
        let before = events.drop_last();
        lemma_eos(mode, wait, before);
        crate::trace::lemma_contains_drop_last(
            events,
            RunEvent::Drive(DriveEvent::Shutdown),
        );
        if crate::bounded::run_expects(run_after(mode, wait, before), events.last()) {
            crate::trace::lemma_count_push(
                asked(mode, wait, before),
                crate::bounded::run_action(run),
                is_send_eos(),
            );
            assert forall|i: int| #![trigger asked(mode, wait, events)[i]]
                0 <= i < asked(mode, wait, events).len() implies eos_in_order(
                mode,
                shutdown_requested(events),
                asked(mode, wait, events)[i],
            ) by {
                if i < asked(mode, wait, before).len() {
                    assert(asked(mode, wait, events)[i] == asked(mode, wait, before)[i]);
                }
            }
        }
    }
}

/// How an event ends the part of a run that precedes its stop, given whether shutdown was
/// requested by then; `None` if it does not end it.
pub open spec fn outcome_of(
    mode: ShutdownMode,
    requested: bool,
    event: RunEvent,
) -> Option<Result<PipelineExit, Failure>> {
    match event {
        RunEvent::Started(Err(cause)) => Some(Err(Failure::Startup { cause })),
        RunEvent::BusOpened(false) => Some(Err(Failure::NoBus)),
        RunEvent::Drive(e) => crate::drive_laws::ended_by(mode, requested, e),
        _ => None,
    }
}

proof fn lemma_outcome(mode: ShutdownMode, wait: Duration, events: Seq<RunEvent>)
    requires
        awaited(mode, wait, events),
    ensures
        run_after(mode, wait, events).mode == mode,
        match run_after(mode, wait, events).phase {
            RunPhase::OpeningBus => !shutdown_requested(events),
            RunPhase::Starting => !shutdown_requested(events),
            RunPhase::Driving(drive) => !(drive.phase is Decided) && crate::drive_laws::drive_inv(
                drive,
                mode,
                shutdown_requested(events),
            ),
            RunPhase::Stopping { outcome } => events.len() > 0 && outcome_of(
                mode,
                shutdown_requested(events),
                events.last(),
            ) == Some(outcome),
            RunPhase::AwaitingNull { outcome } => {
                &&& events.len() >= 2
                &&& events.last() matches RunEvent::Stopped(set_null)
                &&& set_null is Ok
                &&& outcome_of(mode, shutdown_requested(events), events[events.len() - 2]) == Some(
                    outcome,
                )
            },
            RunPhase::Finished { result } => {
                &&& 0 <= ending(events)
                &&& events.last() is Settled || (events.last() matches RunEvent::Stopped(set_null)
                    && set_null is Err)
                &&& outcome_of(
                    mode,
                    shutdown_requested(events),
                    events[ending(events)],
                ) matches Some(outcome)
                &&& result == crate::outcome::run_result(outcome, cleanup_of(events.last()))
            },
        },
    decreases events.len(),
{
    if events.len() > 0 {
        let before = events.drop_last();
        lemma_outcome(mode, wait, before);
        crate::trace::lemma_contains_drop_last(
            events,
            RunEvent::Drive(DriveEvent::Shutdown),
        );
        let run = run_after(mode, wait, before);
        match (run.phase, events.last()) {
            (RunPhase::Driving(drive), RunEvent::Drive(e)) => {
                crate::drive_laws::law_drive_ends(
                    drive,
                    mode,
                    shutdown_requested(before),
                    e,
                );
            },
            (RunPhase::Stopping { .. }, _) => {
                assert(events[events.len() - 2] == before.last());
            },
            (RunPhase::AwaitingNull { .. }, _) => {
                assert(events[events.len() - 3] == before[before.len() - 2]);
            },
            _ => {},
        }
    }
}

/// Each event that ends the course of a run leads to the stop at once, with the outcome that
/// it stands for, and no other event does.
pub proof fn law_stop_follows_the_end(
    mode: ShutdownMode,
    wait: Duration,
    events: Seq<RunEvent>,
    event: RunEvent,
)
    requires
        awaited(mode, wait, events),
        crate::bounded::run_expects(run_after(mode, wait, events), event),
        !past_drive(run_after(mode, wait, events)),
    ensures
        ({
            let next = run_after(mode, wait, events.push(event));
            match outcome_of(mode, shutdown_requested(events.push(event)), event) {
                Some(outcome) => next.phase == (RunPhase::Stopping { outcome }),
                None => !(next.phase is Stopping),
            }
        }),
{
    assert(events.push(event).drop_last() =~= events);
    lemma_outcome(mode, wait, events);
    lemma_outcome(mode, wait, events.push(event));
    crate::trace::lemma_contains_drop_last(
        events.push(event),
        RunEvent::Drive(DriveEvent::Shutdown),
    );
    if let RunPhase::Driving(drive) = run_after(mode, wait, events).phase {
        crate::drive_laws::law_drive_ends(
            drive,
            mode,
            shutdown_requested(events),
            event->Drive_0,
        );
    }
}

/// The result of a run that is over follows from the event that ended it and from what
/// became of the stop. Either failure is reported, and both if both happened.
pub proof fn law_result(mode: ShutdownMode, wait: Duration, events: Seq<RunEvent>)
    requires
        awaited(mode, wait, events),
        run_after(mode, wait, events).phase is Finished,
    ensures
        0 <= ending(events),
        outcome_of(mode, shutdown_requested(events), events[ending(events)]) is Some,
        run_after(mode, wait, events).phase->result == crate::outcome::run_result(
            outcome_of(mode, shutdown_requested(events), events[ending(events)])->0,
            cleanup_of(events.last()),
        ),
{
    lemma_outcome(mode, wait, events);
}

/// A run that ends well has seen its pipeline in `Null`.
pub proof fn law_success_means_null(mode: ShutdownMode, wait: Duration, events: Seq<RunEvent>)
    requires
        awaited(mode, wait, events),
        run_after(mode, wait, events).phase is Finished,
        run_after(mode, wait, events).phase->result is Ok,
    ensures
        stopped_well(events.last()),
{
    lemma_outcome(mode, wait, events);
}

/// A run ends with EOS exactly if EOS came on the bus before any shutdown request, and the
/// stop went well.
pub proof fn law_exit_eos(mode: ShutdownMode, wait: Duration, events: Seq<RunEvent>)
    requires
        awaited(mode, wait, events),
        run_after(mode, wait, events).phase is Finished,
    ensures
        (run_after(mode, wait, events).phase->result == Ok::<PipelineExit, RunError>(
            PipelineExit::Eos,
        )) <==> {
            &&& !shutdown_requested(events)
            &&& events[ending(events)] == RunEvent::Drive(
                DriveEvent::Message(Some(BusMessage::Eos)),
            )
            &&& stopped_well(events.last())
        },
{
    lemma_outcome(mode, wait, events);
}

/// A run ends with shutdown exactly if the application asked for it, the stop went well
/// and, in the mode that drains, EOS came out on the bus in between.
pub proof fn law_exit_shutdown(mode: ShutdownMode, wait: Duration, events: Seq<RunEvent>)
    requires
        awaited(mode, wait, events),
        run_after(mode, wait, events).phase is Finished,
    ensures
        (run_after(mode, wait, events).phase->result == Ok::<PipelineExit, RunError>(
            PipelineExit::Shutdown,
        )) <==> {
            &&& shutdown_requested(events)
            &&& stopped_well(events.last())
            &&& events[ending(events)] == (match mode {
                ShutdownMode::Immediate => RunEvent::Drive(DriveEvent::Shutdown),
                ShutdownMode::Eos { .. } => RunEvent::Drive(
                    DriveEvent::Message(Some(BusMessage::Eos)),
                ),
            })
        },
{
    lemma_outcome(mode, wait, events);
    if mode is Immediate && shutdown_requested(events) {
        lemma_immediate(mode, wait, events);
    }
}

proof fn lemma_immediate(mode: ShutdownMode, wait: Duration, events: Seq<RunEvent>)
    requires
        awaited(mode, wait, events),
        mode is Immediate,
        shutdown_requested(events),
    ensures
        match run_after(mode, wait, events).phase {
            RunPhase::Stopping { .. } => events.last() == RunEvent::Drive(DriveEvent::Shutdown),
            RunPhase::AwaitingNull { .. } => events[events.len() - 2] == RunEvent::Drive(
                DriveEvent::Shutdown,
            ),
            RunPhase::Finished { .. } => events[ending(events)] == RunEvent::Drive(
                DriveEvent::Shutdown,
            ),
            _ => false,
        },
    decreases events.len(),
{
    let before = events.drop_last();
    crate::trace::lemma_contains_drop_last(
        events,
        RunEvent::Drive(DriveEvent::Shutdown),
    );
    lemma_outcome(mode, wait, before);
    if shutdown_requested(before) {
        lemma_immediate(mode, wait, before);
        assert(events[events.len() - 2] == before.last());
        if run_after(mode, wait, before).phase is AwaitingNull {
            assert(events[events.len() - 3] == before[before.len() - 2]);
        }
    }
}

/// Messages that are neither EOS nor errors leave no trace: a run that is told of one more
/// of them, at any time, goes the same way.
pub proof fn law_other_messages_leave_no_trace(
    mode: ShutdownMode,
    wait: Duration,
    before: Seq<RunEvent>,
    after: Seq<RunEvent>,
)
    ensures
        run_after(
            mode,
            wait,
            before + seq![RunEvent::Drive(DriveEvent::Message(Some(BusMessage::Other)))] + after,
        ) == run_after(mode, wait, before + after),
    decreases after.len(),
{
    let other = RunEvent::Drive(DriveEvent::Message(Some(BusMessage::Other)));
    let with = before + seq![other] + after;
    let without = before + after;
    if after.len() == 0 {
        assert(with.drop_last() =~= before);
        assert(without =~= before);
        law_run_in_order(mode, wait, before);
    } else {
        assert(with.drop_last() =~= before + seq![other] + after.drop_last());
        assert(without.drop_last() =~= before + after.drop_last());
        law_other_messages_leave_no_trace(mode, wait, before, after.drop_last());
    }
}

/// Whether an event is an answer to what a run asked its host for.
pub open spec fn answers(action: RunAction, event: RunEvent) -> bool {
    match event {
        RunEvent::Started(_) => action is Start,
        RunEvent::BusOpened(_) => action is OpenBus,
        RunEvent::Drive(e) => {
            &&& action matches RunAction::Drive(a)
            &&& crate::drive_laws::drive_answers(a, e)
        },
        RunEvent::Stopped(_) => action is Stop,
        RunEvent::Settled { .. } => action is AwaitNull,
    }
}

/// What a run asks for and what it waits for belong together: it takes into account every
/// answer to what it asked for, whatever the answer holds, and nothing else.
pub proof fn law_awaits_every_answer(run: Run, event: RunEvent)
    ensures
        crate::bounded::run_expects(run, event) <==> answers(
            crate::bounded::run_action(run),
            event,
        ),
        !answers(crate::bounded::run_action(run), event) ==> crate::bounded::run_step(
            run,
            event,
        ) == run,
{
    if let RunPhase::Driving(drive) = run.phase {
        if let RunEvent::Drive(e) = event {
            crate::drive_laws::law_drive_awaits_every_answer(drive, e);
        }
    }
}

/// A run that plays listens: whenever its host waits for the application and the bus, the
/// run takes a shutdown request and every message into account, in either mode; whenever it
/// waits for EOS to come out, every message and the end of the time for it; whenever it
/// sends EOS, either answer.
pub proof fn law_run_listens(
    mode: ShutdownMode,
    wait: Duration,
    events: Seq<RunEvent>,
    message: Option<BusMessage>,
    taken: bool,
    cause: String,
)
    ensures
        ({
            let run = run_after(mode, wait, events);
            let action = crate::bounded::run_action(run);
            let expects = |e: DriveEvent| crate::bounded::run_expects(run, RunEvent::Drive(e));
            &&& action == RunAction::Drive(DriveAction::AwaitShutdownOrMessage) ==> expects(
                DriveEvent::Shutdown,
            ) && expects(DriveEvent::Message(message))
            &&& action == RunAction::Drive(DriveAction::AwaitDrained) ==> expects(
                DriveEvent::Message(message),
            ) && expects(DriveEvent::DeadlineElapsed(cause))
            &&& is_send_eos()(action) ==> expects(DriveEvent::EosSent(taken))
        }),
{
    law_run_in_order(mode, wait, events);
}

/// What a host is to do next, given what it was asked for and what it answered; `None` if the
/// answer is none to that. A failure on the way, EOS, an error and a closed bus all lead to
/// the stop, other messages to nothing new.
pub open spec fn asked_next(
    mode: ShutdownMode,
    wait: Duration,
    action: RunAction,
    event: RunEvent,
) -> Option<RunAction> {
    match (action, event) {
        (RunAction::OpenBus, RunEvent::BusOpened(true)) => Some(RunAction::Start),
        (RunAction::Start, RunEvent::Started(Ok(_))) => Some(
            RunAction::Drive(DriveAction::AwaitShutdownOrMessage),
        ),
        (RunAction::Start, RunEvent::Started(Err(_))) => Some(RunAction::Stop),
        (RunAction::OpenBus, RunEvent::BusOpened(false)) => Some(RunAction::Stop),
        (
            RunAction::Drive(DriveAction::AwaitShutdownOrMessage),
            RunEvent::Drive(DriveEvent::Shutdown),
        ) => Some(
            match mode {
                ShutdownMode::Immediate => RunAction::Stop,
                ShutdownMode::Eos { timeout } => RunAction::Drive(
                    DriveAction::SendEos { timeout, deadline_runs: false },
                ),
            },
        ),
        (
            RunAction::Drive(DriveAction::SendEos { .. }),
            RunEvent::Drive(DriveEvent::EosSent(taken)),
        ) => Some(
            if taken {
                RunAction::Drive(DriveAction::AwaitDrained)
            } else {
                RunAction::Stop
            },
        ),
        (
            RunAction::Drive(DriveAction::AwaitDrained),
            RunEvent::Drive(DriveEvent::DeadlineElapsed(_)),
        ) => Some(RunAction::Stop),
        (RunAction::Drive(a), RunEvent::Drive(DriveEvent::Message(message))) => if a
            is AwaitShutdownOrMessage || a is AwaitDrained {
            Some(
                if message is Some && message->0 is Other {
                    action
                } else {
                    RunAction::Stop
                },
            )
        } else {
            None
        },
        (RunAction::Stop, RunEvent::Stopped(Ok(_))) => Some(
            RunAction::AwaitNull {
                nanoseconds: if crate::clock::duration_nanos(wait) <= u64::MAX {
                    crate::clock::duration_nanos(wait) as u64
                } else {
                    u64::MAX
                },
            },
        ),
        (RunAction::Stop, RunEvent::Stopped(Err(_))) => Some(RunAction::Return),
        (RunAction::AwaitNull { .. }, RunEvent::Settled { .. }) => Some(RunAction::Return),
        _ => None,
    }
}

/// What a run asks for next follows from what it asked for and what it was told, in every
/// state that it can be in. What is no answer changes nothing.
pub proof fn law_asks_in_turn(
    mode: ShutdownMode,
    wait: Duration,
    events: Seq<RunEvent>,
    event: RunEvent,
)
    ensures
        ({
            let run = run_after(mode, wait, events);
            let next = run_after(mode, wait, events.push(event));
            match asked_next(mode, wait, crate::bounded::run_action(run), event) {
                Some(action) => {
                    &&& crate::bounded::run_expects(run, event)
                    &&& crate::bounded::run_action(next) == action
                },
                None => {
                    &&& !crate::bounded::run_expects(run, event)
                    &&& next == run
                },
            }
        }),
{
    assert(events.push(event).drop_last() =~= events);
    lemma_eos(mode, wait, events);
    law_run_in_order(mode, wait, events);
    let run = run_after(mode, wait, events);
    law_awaits_every_answer(run, event);
    if let RunPhase::Driving(drive) = run.phase {
        if let RunEvent::Drive(e) = event {
            crate::drive_laws::law_drive_asks(crate::drive::drive_step(drive, e));
        }
    }
}

/// An error that an element posts ends a run that plays or drains, at once and in either
/// mode: the pipeline is stopped, and the result tells the element's error, together with what
/// went wrong in the stop.
pub proof fn law_error_ends_the_run(
    mode: ShutdownMode,
    wait: Duration,
    events: Seq<RunEvent>,
    source: Option<String>,
    error: String,
    debug: Option<String>,
    set_null: Result<(), String>,
    change: Result<(), String>,
    current: PipelineState,
    pending: PipelineState,
)
    requires
        ({
            let action = crate::bounded::run_action(run_after(mode, wait, events));
            action == RunAction::Drive(DriveAction::AwaitShutdownOrMessage) || action
                == RunAction::Drive(DriveAction::AwaitDrained)
        }),
    ensures
        ({
            let message = BusMessage::Error { source, error, debug };
            let failure = Failure::Pipeline { source, error, debug };
            let told = events.push(RunEvent::Drive(DriveEvent::Message(Some(message))));
            let stopped = told.push(RunEvent::Stopped(set_null));
            let settled = stopped.push(RunEvent::Settled { change, current, pending });
            let run = run_after(mode, wait, stopped);
            let end = run_after(mode, wait, settled);
            &&& crate::bounded::run_action(run_after(mode, wait, told)) == RunAction::Stop
            &&& set_null matches Err(cause) ==> run.phase == (RunPhase::Finished {
                result: Err(RunError::Both { outcome: failure, cleanup: Failure::Stop { cause } }),
            })
            &&& set_null is Ok ==> crate::bounded::run_action(run) is AwaitNull
            &&& set_null is Ok ==> crate::bounded::run_action(end) == RunAction::Return
            &&& set_null is Ok && change is Ok && current is Null ==> end.phase == (
            RunPhase::Finished { result: Err(RunError::One(failure)) })
            &&& set_null is Ok && change is Ok && !(current is Null) ==> end.phase == (
            RunPhase::Finished {
                result: Err(
                    RunError::Both {
                        outcome: failure,
                        cleanup: Failure::NotNull { current, pending },
                    },
                ),
            })
            &&& set_null is Ok && change is Err ==> end.phase == (RunPhase::Finished {
                result: Err(
                    RunError::Both {
                        outcome: failure,
                        cleanup: Failure::AwaitNull { current, pending, cause: change->Err_0 },
                    },
                ),
            })
        }),
{
    let message = BusMessage::Error { source, error, debug };
    let told = events.push(RunEvent::Drive(DriveEvent::Message(Some(message))));
    assert(told.drop_last() =~= events);
    let stopped = told.push(RunEvent::Stopped(set_null));
    assert(stopped.drop_last() =~= told);
    assert(stopped.push(RunEvent::Settled { change, current, pending }).drop_last() =~= stopped);
    law_run_in_order(mode, wait, events);
}

/// The result of a run that is over tells every failure that happened to it and no other, in
/// terms of the events alone: how it ended, and what became of the stop.
pub proof fn law_result_tells_everything(
    mode: ShutdownMode,
    wait: Duration,
    events: Seq<RunEvent>,
)
    requires
        awaited(mode, wait, events),
        run_after(mode, wait, events).phase is Finished,
    ensures
        ({
            let result = run_after(mode, wait, events).phase->result;
            let outcome = outcome_of(mode, shutdown_requested(events), events[ending(events)])->0;
            let cleanup = match events.last() {
                RunEvent::Stopped(Err(cause)) => Some(Failure::Stop { cause }),
                RunEvent::Settled { change: Err(cause), current, pending } => Some(
                    Failure::AwaitNull { current, pending, cause },
                ),
                RunEvent::Settled { change: Ok(_), current, pending } => if current is Null {
                    None
                } else {
                    Some(Failure::NotNull { current, pending })
                },
                _ => None,
            };
            match (outcome, cleanup) {
                (Ok(exit), None) => result == Ok::<PipelineExit, RunError>(exit),
                (Err(failure), None) => result == Err::<PipelineExit, RunError>(
                    RunError::One(failure),
                ),
                (Ok(_), Some(failure)) => result == Err::<PipelineExit, RunError>(
                    RunError::One(failure),
                ),
                (Err(outcome), Some(cleanup)) => result == Err::<PipelineExit, RunError>(
                    RunError::Both { outcome, cleanup },
                ),
            }
        }),
{
    lemma_outcome(mode, wait, events);
}

/// The operations of a run do what is said here of runs: a call of `step` takes the run on as
/// [`crate::bounded::run_step`] does and tells whether the event was awaited, `action` gives what
/// the run asks for, and `finish` gives the result exactly when the run asks to return.
pub proof fn law_run_operations()
    ensures
        forall|run: &mut Run, event: RunEvent, expected: bool| #[trigger]
            call_ensures(Run::step, (run, event), expected) ==> {
                &&& *final(run) == crate::bounded::run_step(*run, event)
                &&& expected == crate::bounded::run_expects(*run, event)
            },
        forall|run: &Run, action: RunAction| #[trigger]
            call_ensures(Run::action, (run,), action) ==> action == crate::bounded::run_action(
                *run,
            ),
        forall|run: Run, r: Result<Result<PipelineExit, RunError>, Run>| #[trigger]
            call_ensures(Run::finish, (run,), r) ==> {
                &&& r is Ok <==> crate::bounded::run_action(run) == RunAction::Return
                &&& r is Ok ==> r->Ok_0 == run.phase->result
                &&& r is Err ==> r->Err_0 == run
            },
{
}

/// A runner hands out the pipeline it was made with, and a run that handles shutdown and
/// waits for `Null` as the runner was told: immediately and for five seconds if it was told
/// nothing. What it is told of the one does not change the other.
pub proof fn law_runner<P>(
    pipeline: P,
    mode: ShutdownMode,
    wait: Duration,
    plain: PipelineRunner<P>,
    with_mode: PipelineRunner<P>,
    with_wait: PipelineRunner<P>,
    with_both: PipelineRunner<P>,
    a: (P, Run),
    b: (P, Run),
    c: (P, Run),
    d: (P, Run),
)
    requires
        call_ensures(PipelineRunner::<P>::new, (pipeline,), plain),
        call_ensures(PipelineRunner::<P>::shutdown_mode, (plain, mode), with_mode),
        call_ensures(PipelineRunner::<P>::state_change_timeout, (plain, wait), with_wait),
        call_ensures(PipelineRunner::<P>::state_change_timeout, (with_mode, wait), with_both),
        call_ensures(PipelineRunner::<P>::run, (plain,), a),
        call_ensures(PipelineRunner::<P>::run, (with_mode,), b),
        call_ensures(PipelineRunner::<P>::run, (with_wait,), c),
        call_ensures(PipelineRunner::<P>::run, (with_both,), d),
    ensures
        a.0 == pipeline && b.0 == pipeline && c.0 == pipeline && d.0 == pipeline,
        a.1.mode is Immediate,
        crate::clock::duration_nanos(a.1.state_change_timeout) == 5_000_000_000,
        b.1 == run_after(mode, a.1.state_change_timeout, Seq::empty()),
        c.1 == run_after(ShutdownMode::Immediate, wait, Seq::empty()),
        d.1 == run_after(mode, wait, Seq::empty()),
        d.1.mode == mode,
        d.1.state_change_timeout == wait,
        crate::bounded::run_action(a.1) == RunAction::OpenBus,
{
}

/// The end of the wait is good exactly if the state change did not fail and the pipeline is
/// in `Null`, whatever is pending; otherwise it tells the states, and the cause if there is
/// one.
pub proof fn law_wait_is_judged(
    change: Result<(), String>,
    current: PipelineState,
    pending: PipelineState,
    r: Result<(), Failure>,
)
    requires
        call_ensures(crate::bounded::stop, (change, current, pending), r),
    ensures
        r is Ok <==> change is Ok && current is Null,
        change matches Err(cause) ==> r == Err::<(), Failure>(
            Failure::AwaitNull { current, pending, cause },
        ),
        change is Ok && !(current is Null) ==> r == Err::<(), Failure>(
            Failure::NotNull { current, pending },
        ),
{
}

/// Whenever a run is asked what to do while it waits for `Null`, it names the nanoseconds of
/// the time that it was given, whatever time that is, and the largest count of 64 bits only
/// if they do not fit.
pub proof fn law_wait_is_the_given_time()
    ensures
        forall|run: &Run, action: RunAction| #[trigger]
            call_ensures(Run::action, (run,), action) && (*run).phase is AwaitingNull ==> {
                let given = crate::clock::duration_nanos((*run).state_change_timeout);
                &&& action is AwaitNull
                &&& given <= u64::MAX ==> action->nanoseconds == given
                &&& given > u64::MAX ==> action->nanoseconds == u64::MAX
            },
{
}

/// How many awaited events, other messages not counted, a run can still take.
pub open spec fn run_rank(run: Run) -> nat {
    match run.phase {
        RunPhase::OpeningBus => 7,
        RunPhase::Starting => 6,
        RunPhase::Driving(drive) => crate::drive_laws::drive_rank(drive) + 2,
        RunPhase::Stopping { .. } => 2,
        RunPhase::AwaitingNull { .. } => 1,
        RunPhase::Finished { .. } => 0,
    }
}

/// Every awaited event, unless it is a message that is ignored, brings a run closer to its
/// end.
pub proof fn law_progress(run: Run, event: RunEvent)
    requires
        crate::bounded::run_expects(run, event),
        event != RunEvent::Drive(DriveEvent::Message(Some(BusMessage::Other))),
    ensures
        run_rank(crate::bounded::run_step(run, event)) < run_rank(run),
{
}

/// A run waits for something until it is over, and for nothing after.
pub proof fn law_waits_until_finished(mode: ShutdownMode, wait: Duration, events: Seq<RunEvent>)
    ensures
        (run_after(mode, wait, events).phase is Finished) <==> (forall|event: RunEvent|
            !crate::bounded::run_expects(run_after(mode, wait, events), event)),
{
    law_run_in_order(mode, wait, events);
    let run = run_after(mode, wait, events);
    if !(run.phase is Finished) {
        let event = match run.phase {
            RunPhase::Starting => RunEvent::Started(Ok(())),
            RunPhase::OpeningBus => RunEvent::BusOpened(true),
            RunPhase::Driving(drive) => if drive.phase is SendingEos {
                RunEvent::Drive(DriveEvent::EosSent(true))
            } else {
                RunEvent::Drive(DriveEvent::Message(None))
            },
            RunPhase::AwaitingNull { .. } => RunEvent::Settled {
                change: Ok(()),
                current: PipelineState::Null,
                pending: PipelineState::VoidPending,
            },
            _ => RunEvent::Stopped(Ok(())),
        };
        assert(crate::bounded::run_expects(run, event));
    }
}

}
