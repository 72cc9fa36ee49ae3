//! What holds of the text in which failures are reported.
use vstd::prelude::*;

use crate::error::{ComposeError, Failure, InitError, PipelineState, RunError};

verus! {

/// A failure with a cause is told as its headline, a colon and the cause, and one without as
/// its headline alone. The cause is handed out as it was told.
pub proof fn law_failure_is_told_in_full(
    failure: &Failure,
    message: String,
    full: String,
    cause: Option<&String>,
    report: String,
)
    requires
        call_ensures(Failure::message, (failure,), message),
        call_ensures(Failure::full_message, (failure,), full),
        call_ensures(Failure::cause, (failure,), cause),
        call_ensures(Failure::cleanup_report, (failure,), report),
    ensures
        message@ == failure.text(),
        full@ == failure.full_text(),
        full@ == match cause {
            Some(c) => message@ + ": "@ + c@,
            None => message@,
        },
        report@ == "pipeline cleanup failed: "@ + full@,
        cause is Some <==> (failure is Startup || failure is DrainTimedOut || failure is Stop
            || failure is AwaitNull),
        failure matches Failure::Startup { cause: c } ==> cause->0@ == c@,
        failure matches Failure::DrainTimedOut { cause: c } ==> cause->0@ == c@,
        failure matches Failure::Stop { cause: c } ==> cause->0@ == c@,
        failure matches Failure::AwaitNull { cause: c, .. } ==> cause->0@ == c@,
{
}

/// Each stage of a run has its own headline.
pub proof fn law_headlines(cause: String)
    ensures
        (Failure::Startup { cause }).text() == "setting the pipeline to Playing"@,
        Failure::NoBus.text() == "getting the pipeline message bus"@,
        Failure::BusClosed.text() == "pipeline message bus closed unexpectedly"@,
        Failure::EosRejected.text() == "pipeline rejected the shutdown EOS event"@,
        Failure::DrainClosed.text() == "pipeline message bus closed while draining EOS"@,
        (Failure::DrainTimedOut { cause }).text()
            == "timed out while draining the pipeline after shutdown"@,
        (Failure::Stop { cause }).text() == "setting the pipeline to Null"@,
{
}

/// An error of an element is told with the element's path, the error and what was added for
/// debugging, in that order and each in full. Without a path the source is called unknown,
/// without debugging information its place stays empty.
pub proof fn law_pipeline_error_is_told(
    source: Option<String>,
    error: String,
    debug: Option<String>,
)
    ensures
        ({
            let from = if source is Some {
                source->0@
            } else {
                "unknown"@
            };
            let added = if debug is Some {
                debug->0@
            } else {
                Seq::empty()
            };
            let failure = Failure::Pipeline { source, error, debug };
            &&& failure.text() == "pipeline error from "@ + from + ": "@ + error@ + " ("@ + added
                + ")"@
            &&& failure.full_text() == failure.text()
        }),
{
}

/// A wait that did not end in `Null` is told with the state that the pipeline is in and the
/// one that it is on its way to, by their names.
pub proof fn law_states_are_told(current: PipelineState, pending: PipelineState, cause: String)
    ensures
        ({
            let states = " (current="@ + current.text() + ", pending="@ + pending.text() + ")"@;
            &&& Failure::NotNull { current, pending }.text() == "pipeline did not reach Null"@
                + states
            &&& Failure::AwaitNull { current, pending, cause }.text()
                == "waiting for the pipeline to reach Null"@ + states
        }),
        PipelineState::VoidPending.text() == "VoidPending"@,
        PipelineState::Null.text() == "Null"@,
        PipelineState::Ready.text() == "Ready"@,
        PipelineState::Paused.text() == "Paused"@,
        PipelineState::Playing.text() == "Playing"@,
        forall|state: &PipelineState, name: &'static str| #[trigger]
            call_ensures(PipelineState::name, (state,), name) ==> name@ == state.text(),
{
}

/// A single failure of a run is told as that failure is; when the cleanup failed too, both are
/// told in full in one message.
pub proof fn law_run_error_is_told_in_full(
    error: &RunError,
    message: String,
    full: String,
    cause: Option<&String>,
)
    requires
        call_ensures(RunError::message, (error,), message),
        call_ensures(RunError::full_message, (error,), full),
        call_ensures(RunError::cause, (error,), cause),
    ensures
        message@ == error.text(),
        full@ == error.full_text(),
        error matches RunError::One(failure) ==> {
            &&& message@ == failure.text()
            &&& full@ == failure.full_text()
            &&& cause is Some <==> failure.cause_text() is Some
            &&& cause is Some ==> cause->0@ == failure.cause_text()->0
        },
        error matches RunError::Both { outcome, cleanup } ==> {
            &&& message@ == outcome.full_text()
                + "; additionally failed to stop the pipeline: "@ + cleanup.full_text()
            &&& full@ == message@
            &&& cause is None
        },
{
}

/// A failed initialisation is told with what GStreamer said, and only a failed one is told.
pub proof fn law_failed_init_is_told(
    initialised: Result<(), String>,
    r: Result<(), InitError>,
    message: String,
    full: String,
)
    requires
        call_ensures(crate::init, (initialised,), r),
        r is Err ==> call_ensures(InitError::message, (&r->Err_0,), message),
        r is Err ==> call_ensures(InitError::full_message, (&r->Err_0,), full),
    ensures
        r is Ok <==> initialised is Ok,
        initialised matches Err(cause) ==> {
            &&& r->Err_0.cause == cause
            &&& message@ == "initializing GStreamer"@
            &&& full@ == "initializing GStreamer"@ + ": "@ + cause@
        },
{
}

/// What could not be put together is told with every name that it concerns, and with the
/// cause where there is one.
pub proof fn law_compose_error_is_told(
    factory: String,
    name: String,
    element: String,
    pad: String,
    bin: String,
    cause: String,
)
    ensures
        (ComposeError::CreateElement { factory, name, cause }).full_text() == "creating element '"@
            + factory@ + "' (named '"@ + name@ + "')"@ + ": "@ + cause@,
        (ComposeError::NoStaticPad { element, pad }).full_text() == "element '"@ + element@
            + "' has no static '"@ + pad@ + "' pad to ghost"@,
        (ComposeError::CreateGhost { pad, element, cause }).full_text() == "creating "@ + pad@
            + " ghost pad for '"@ + element@ + "'"@ + ": "@ + cause@,
        (ComposeError::AddGhost { pad, bin, cause }).full_text() == "adding "@ + pad@
            + " ghost pad to bin '"@ + bin@ + "'"@ + ": "@ + cause@,
        (ComposeError::NotDynamic { element }).full_text() == "element '"@ + element@
            + "' has no dynamic (sometimes) src pad, so pad-added would never fire"@,
{
}

/// The message of such an error is its full account without the cause.
pub proof fn law_compose_error_has_its_cause(
    error: &ComposeError,
    message: String,
    full: String,
    cause: Option<&String>,
)
    requires
        call_ensures(ComposeError::message, (error,), message),
        call_ensures(ComposeError::full_message, (error,), full),
        call_ensures(ComposeError::cause, (error,), cause),
    ensures
        full@ == error.full_text(),
        full@ == match cause {
            Some(c) => message@ + ": "@ + c@,
            None => message@,
        },
        error matches ComposeError::CreateElement { cause: c, .. } ==> cause is Some && cause->0@
            == c@,
        error matches ComposeError::CreateGhost { cause: c, .. } ==> cause is Some && cause->0@
            == c@,
        error matches ComposeError::AddGhost { cause: c, .. } ==> cause is Some && cause->0@ == c@,
        error is NoStaticPad || error is NotDynamic ==> cause is None,
{
}

}
