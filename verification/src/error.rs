//! What can go wrong, and the text in which it is reported.
//!
//! Every error has a headline, which says what was being done, and may have a cause,
//! which says why that failed. `message` renders the headline, `full_message` the
//! headline followed by `": "` and the cause.
use vstd::prelude::*;

verus! {

/// A state that a pipeline can be in, or be on its way to.
#[derive(Clone, Copy, Debug, PartialEq, Eq, Structural)]
pub enum PipelineState {
    /// No state change is pending.
    VoidPending,
    /// The initial state, and the one a stopped pipeline is in.
    Null,
    /// Resources are allocated.
    Ready,
    /// Data is prerolled but does not flow.
    Paused,
    /// Data flows.
    Playing,
}

impl PipelineState {
    /// The state's name as it appears in error messages.
    pub open spec fn text(self) -> Seq<char> {
        match self {
            PipelineState::VoidPending => "VoidPending"@,
            PipelineState::Null => "Null"@,
            PipelineState::Ready => "Ready"@,
            PipelineState::Paused => "Paused"@,
            PipelineState::Playing => "Playing"@,
        }
    }

    /// The state's name.
    pub fn name(&self) -> (r: &'static str)
        ensures
            r@ == self.text(),
    {
        match self {
            PipelineState::VoidPending => "VoidPending",
            PipelineState::Null => "Null",
            PipelineState::Ready => "Ready",
            PipelineState::Paused => "Paused",
            PipelineState::Playing => "Playing",
        }
    }
}

/// The headline, and behind it `": "` and the cause where there is one.
pub open spec fn with_cause(headline: Seq<char>, cause: Option<Seq<char>>) -> Seq<char> {
    match cause {
        Some(c) => headline + ": "@ + c,
        None => headline,
    }
}

/// Adds a cause to a headline.
fn add_cause(headline: String, cause: Option<&String>) -> (r: String)
    ensures
        r@ == with_cause(
            headline@,
            match cause {
                Some(c) => Some(c@),
                None => None,
            },
        ),
{
    let mut r = headline;
    if let Some(c) = cause {
        r.append(": ");
        r.append(c.as_str());
    }
    r
}

/// A single failure of one stage of a pipeline's life.
#[derive(Debug, PartialEq, Eq)]
pub enum Failure {
    /// The pipeline refused to go to `Playing`.
    Startup { cause: String },
    /// The pipeline has no message bus.
    NoBus,
    /// The message bus ended while the pipeline was running.
    BusClosed,
    /// The pipeline did not take the EOS event that was to drain it.
    EosRejected,
    /// The message bus ended while EOS was draining.
    DrainClosed,
    /// EOS did not come back in time.
    DrainTimedOut { cause: String },
    /// The pipeline posted an error on its bus.
    Pipeline { source: Option<String>, error: String, debug: Option<String> },
    /// The pipeline refused to go to `Null`.
    Stop { cause: String },
    /// Waiting for `Null` failed.
    AwaitNull { current: PipelineState, pending: PipelineState, cause: String },
    /// The wait for `Null` ended in another state.
    NotNull { current: PipelineState, pending: PipelineState },
}

/// The part of a message that names the current and the pending state.
pub open spec fn states_text(current: PipelineState, pending: PipelineState) -> Seq<char> {
    " (current="@ + current.text() + ", pending="@ + pending.text() + ")"@
}

fn states_message(current: PipelineState, pending: PipelineState) -> (r: String)
    ensures
        r@ == states_text(current, pending),
{
    let mut r = " (current=".to_owned();
    r.append(current.name());
    r.append(", pending=");
    r.append(pending.name());
    r.append(")");
    r
}

/// The headline of an error that the element at `source` posted: an unknown source
/// is called so, absent debug information is empty.
pub open spec fn pipeline_error_text(
    source: Option<Seq<char>>,
    error: Seq<char>,
    debug: Option<Seq<char>>,
) -> Seq<char> {
    let source = match source {
        Some(s) => s,
        None => "unknown"@,
    };
    let debug = match debug {
        Some(d) => d,
        None => Seq::empty(),
    };
    "pipeline error from "@ + source + ": "@ + error + " ("@ + debug + ")"@
}

fn pipeline_error_message(source: &Option<String>, error: &String, debug: &Option<String>) -> (r:
    String)
    ensures
        r@ == pipeline_error_text(
            match source {
                Some(s) => Some(s@),
                None => None,
            },
            error@,
            match debug {
                Some(d) => Some(d@),
                None => None,
            },
        ),
{
    let mut r = "pipeline error from ".to_owned();
    match source {
        Some(s) => r.append(s.as_str()),
        None => r.append("unknown"),
    }
    r.append(": ");
    r.append(error.as_str());
    r.append(" (");
    if let Some(d) = debug {
        r.append(d.as_str());
    }
    r.append(")");
    r
}

impl Failure {
    /// What was being done when the failure happened.
    pub open spec fn text(self) -> Seq<char> {
        match self {
            Failure::Startup { .. } => "setting the pipeline to Playing"@,
            Failure::NoBus => "getting the pipeline message bus"@,
            Failure::BusClosed => "pipeline message bus closed unexpectedly"@,
            Failure::EosRejected => "pipeline rejected the shutdown EOS event"@,
            Failure::DrainClosed => "pipeline message bus closed while draining EOS"@,
            Failure::DrainTimedOut { .. } =>
                "timed out while draining the pipeline after shutdown"@,
            Failure::Pipeline { source, error, debug } => pipeline_error_text(
                match source {
                    Some(s) => Some(s@),
                    None => None,
                },
                error@,
                match debug {
                    Some(d) => Some(d@),
                    None => None,
                },
            ),
            Failure::Stop { .. } => "setting the pipeline to Null"@,
            Failure::AwaitNull { current, pending, .. } =>
                "waiting for the pipeline to reach Null"@ + states_text(current, pending),
            Failure::NotNull { current, pending } =>
                "pipeline did not reach Null"@ + states_text(current, pending),
        }
    }

    /// Why it failed, where something else gave a reason.
    pub open spec fn cause_text(self) -> Option<Seq<char>> {
        match self {
            Failure::Startup { cause } => Some(cause@),
            Failure::DrainTimedOut { cause } => Some(cause@),
            Failure::Stop { cause } => Some(cause@),
            Failure::AwaitNull { cause, .. } => Some(cause@),
            _ => None,
        }
    }

    /// The headline with its cause.
    pub open spec fn full_text(self) -> Seq<char> {
        with_cause(self.text(), self.cause_text())
    }

    /// Renders the headline alone.
    pub fn message(&self) -> (r: String)
        ensures
            r@ == self.text(),
    {
        match self {
            Failure::Startup { .. } => "setting the pipeline to Playing".to_owned(),
            Failure::NoBus => "getting the pipeline message bus".to_owned(),
            Failure::BusClosed => "pipeline message bus closed unexpectedly".to_owned(),
            Failure::EosRejected => "pipeline rejected the shutdown EOS event".to_owned(),
            Failure::DrainClosed => "pipeline message bus closed while draining EOS".to_owned(),
            Failure::DrainTimedOut { .. } =>
                "timed out while draining the pipeline after shutdown".to_owned(),
            Failure::Pipeline { source, error, debug } => pipeline_error_message(
                source,
                error,
                debug,
            ),
            Failure::Stop { .. } => "setting the pipeline to Null".to_owned(),
            Failure::AwaitNull { current, pending, .. } => {
                let mut r = "waiting for the pipeline to reach Null".to_owned();
                r.append(states_message(*current, *pending).as_str());
                r
            },
            Failure::NotNull { current, pending } => {
                let mut r = "pipeline did not reach Null".to_owned();
                r.append(states_message(*current, *pending).as_str());
                r
            },
        }
    }

    /// The cause, where there is one.
    pub fn cause(&self) -> (r: Option<&String>)
        ensures
            match r {
                Some(c) => self.cause_text() == Some(c@),
                None => self.cause_text() is None,
            },
    {
        match self {
            Failure::Startup { cause } => Some(cause),
            Failure::DrainTimedOut { cause } => Some(cause),
            Failure::Stop { cause } => Some(cause),
            Failure::AwaitNull { cause, .. } => Some(cause),
            _ => None,
        }
    }

    /// Renders the headline and the cause.
    pub fn full_message(&self) -> (r: String)
        ensures
            r@ == self.full_text(),
    {
        add_cause(self.message(), self.cause())
    }

    /// Renders the line that is logged when this failure is one of a cleanup.
    pub fn cleanup_report(&self) -> (r: String)
        ensures
            r@ == cleanup_report_text(*self),
    {
        let mut r = "pipeline cleanup failed: ".to_owned();
        r.append(self.full_message().as_str());
        r
    }
}

/// The line that is logged when the cleanup of a pipeline fails.
pub open spec fn cleanup_report_text(failure: Failure) -> Seq<char> {
    "pipeline cleanup failed: "@ + failure.full_text()
}

/// Why a run did not end well.
#[derive(Debug, PartialEq, Eq)]
pub enum RunError {
    /// The run or its cleanup failed, and the other one did not.
    One(Failure),
    /// The run failed, and so did the cleanup that followed it.
    Both { outcome: Failure, cleanup: Failure },
}

impl RunError {
    /// What the caller of a run is told first.
    pub open spec fn text(self) -> Seq<char> {
        match self {
            RunError::One(failure) => failure.text(),
            RunError::Both { outcome, cleanup } => outcome.full_text()
                + "; additionally failed to stop the pipeline: "@ + cleanup.full_text(),
        }
    }

    /// The cause behind a single failure; two failures are told in full at once.
    pub open spec fn cause_text(self) -> Option<Seq<char>> {
        match self {
            RunError::One(failure) => failure.cause_text(),
            RunError::Both { .. } => None,
        }
    }

    /// All that the caller of a run can be told.
    pub open spec fn full_text(self) -> Seq<char> {
        with_cause(self.text(), self.cause_text())
    }

    /// Renders the error without the cause of a single failure.
    pub fn message(&self) -> (r: String)
        ensures
            r@ == self.text(),
    {
        match self {
            RunError::One(failure) => failure.message(),
            RunError::Both { outcome, cleanup } => {
                let mut r = outcome.full_message();
                r.append("; additionally failed to stop the pipeline: ");
                r.append(cleanup.full_message().as_str());
                r
            },
        }
    }

    /// The cause, where there is one beside the message.
    pub fn cause(&self) -> (r: Option<&String>)
        ensures
            match r {
                Some(c) => self.cause_text() == Some(c@),
                None => self.cause_text() is None,
            },
    {
        match self {
            RunError::One(failure) => failure.cause(),
            RunError::Both { .. } => None,
        }
    }

    /// Renders the error in full.
    pub fn full_message(&self) -> (r: String)
        ensures
            r@ == self.full_text(),
    {
        add_cause(self.message(), self.cause())
    }
}

/// GStreamer could not be initialised.
#[derive(Debug, PartialEq, Eq)]
pub struct InitError {
    /// What GStreamer said.
    pub cause: String,
}

impl InitError {
    /// What was being done.
    pub open spec fn text(self) -> Seq<char> {
        "initializing GStreamer"@
    }

    /// The headline with its cause.
    pub open spec fn full_text(self) -> Seq<char> {
        with_cause(self.text(), Some(self.cause@))
    }

    /// Renders the headline alone.
    pub fn message(&self) -> (r: String)
        ensures
            r@ == self.text(),
    {
        "initializing GStreamer".to_owned()
    }

    /// Renders the headline and the cause.
    pub fn full_message(&self) -> (r: String)
        ensures
            r@ == self.full_text(),
    {
        add_cause(self.message(), Some(&self.cause))
    }
}

/// Why a part of a pipeline could not be put together.
#[derive(Debug, PartialEq, Eq)]
pub enum ComposeError {
    /// No element could be made.
    CreateElement { factory: String, name: String, cause: String },
    /// An element lacks the pad that was to be exposed.
    NoStaticPad { element: String, pad: String },
    /// No ghost pad could be made for an element's pad.
    CreateGhost { pad: String, element: String, cause: String },
    /// A bin did not take its ghost pad.
    AddGhost { pad: String, bin: String, cause: String },
    /// An element can never add a source pad.
    NotDynamic { element: String },
}

impl ComposeError {
    /// What was being done, or what is wrong.
    pub open spec fn text(self) -> Seq<char> {
        match self {
            ComposeError::CreateElement { factory, name, .. } => "creating element '"@ + factory@
                + "' (named '"@ + name@ + "')"@,
            ComposeError::NoStaticPad { element, pad } => "element '"@ + element@
                + "' has no static '"@ + pad@ + "' pad to ghost"@,
            ComposeError::CreateGhost { pad, element, .. } => "creating "@ + pad@
                + " ghost pad for '"@ + element@ + "'"@,
            ComposeError::AddGhost { pad, bin, .. } => "adding "@ + pad@ + " ghost pad to bin '"@
                + bin@ + "'"@,
            ComposeError::NotDynamic { element } => "element '"@ + element@
                + "' has no dynamic (sometimes) src pad, so pad-added would never fire"@,
        }
    }

    /// Why it failed, where something else gave a reason.
    pub open spec fn cause_text(self) -> Option<Seq<char>> {
        match self {
            ComposeError::CreateElement { cause, .. } => Some(cause@),
            ComposeError::CreateGhost { cause, .. } => Some(cause@),
            ComposeError::AddGhost { cause, .. } => Some(cause@),
            _ => None,
        }
    }

    /// The headline with its cause.
    pub open spec fn full_text(self) -> Seq<char> {
        with_cause(self.text(), self.cause_text())
    }

    /// Renders the headline alone.
    pub fn message(&self) -> (r: String)
        ensures
            r@ == self.text(),
    {
        match self {
            ComposeError::CreateElement { factory, name, .. } => {
                let mut r = "creating element '".to_owned();
                r.append(factory.as_str());
                r.append("' (named '");
                r.append(name.as_str());
                r.append("')");
                r
            },
            ComposeError::NoStaticPad { element, pad } => {
                let mut r = "element '".to_owned();
                r.append(element.as_str());
                r.append("' has no static '");
                r.append(pad.as_str());
                r.append("' pad to ghost");
                r
            },
            ComposeError::CreateGhost { pad, element, .. } => {
                let mut r = "creating ".to_owned();
                r.append(pad.as_str());
                r.append(" ghost pad for '");
                r.append(element.as_str());
                r.append("'");
                r
            },
            ComposeError::AddGhost { pad, bin, .. } => {
                let mut r = "adding ".to_owned();
                r.append(pad.as_str());
                r.append(" ghost pad to bin '");
                r.append(bin.as_str());
                r.append("'");
                r
            },
            ComposeError::NotDynamic { element } => {
                let mut r = "element '".to_owned();
                r.append(element.as_str());
                r.append("' has no dynamic (sometimes) src pad, so pad-added would never fire");
                r
            },
        }
    }

    /// The cause, where there is one.
    pub fn cause(&self) -> (r: Option<&String>)
        ensures
            match r {
                Some(c) => self.cause_text() == Some(c@),
                None => self.cause_text() is None,
            },
    {
        match self {
            ComposeError::CreateElement { cause, .. } => Some(cause),
            ComposeError::CreateGhost { cause, .. } => Some(cause),
            ComposeError::AddGhost { cause, .. } => Some(cause),
            _ => None,
        }
    }

    /// Renders the headline and the cause.
    pub fn full_message(&self) -> (r: String)
        ensures
            r@ == self.full_text(),
    {
        add_cause(self.message(), self.cause())
    }
}

}
