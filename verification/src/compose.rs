//! Static composition helpers for code-wired GStreamer pipelines.
//!
//! These helpers cover the small, repetitive parts of assembling a pipeline by hand:
//! naming elements and reporting the ones that cannot be made, exposing a bin's ghost
//! pads, and deferring a link until a dynamic source pad appears. They only construct. No
//! helper asks for a bin to be added to a pipeline, holds a pipeline, or carries
//! application policy.
//!
//! By convention a bin exposes static ghost pads named after its role: a transform bin
//! exposes `sink` and `src`, a source bin exposes `src`, and a sink bin exposes `sink`.
use vstd::prelude::*;

use crate::error::ComposeError;

verus! {

/// An element that is to be made: by which factory, and under which name.
#[derive(Debug, PartialEq, Eq)]
pub struct ElementRequest {
    /// The factory that makes it.
    pub factory: String,
    /// The name it gets.
    pub name: String,
}

impl ElementRequest {
    /// Takes what the factory gave back: the element itself, or the factory's error with
    /// the factory and the name put before it.
    pub fn finish<E>(self, built: Result<E, String>) -> (r: Result<E, ComposeError>)
        ensures
            match built {
                Ok(element) => r == Ok::<E, ComposeError>(element),
                Err(cause) => r == Err::<E, ComposeError>(
                    ComposeError::CreateElement { factory: self.factory, name: self.name, cause },
                ),
            },
    {
        match built {
            Ok(element) => Ok(element),
            Err(cause) => Err(
                ComposeError::CreateElement { factory: self.factory, name: self.name, cause },
            ),
        }
    }
}

/// Asks for a named element.
pub fn make(factory: &str, name: &str) -> (r: ElementRequest)
    ensures
        r.factory@ == factory@,
        r.name@ == name@,
{
    ElementRequest { factory: factory.to_owned(), name: name.to_owned() }
}

/// A group of elements that can be assembled into a bin.
///
/// An implementation makes its child elements, adds and links them, and exposes any ghost
/// pads, and gives back a bin that has **not** yet been added to a pipeline. The caller
/// links that bin like any other element.
///
/// Naming stays with the implementation. Names are unique within a parent bin, so an
/// implementation that may be built more than once into the same pipeline takes a name in
/// its constructor and derives the bin's and its children's names from it, for which a
/// [`BinBase`] serves.
pub trait PipelineBin {
    /// What a finished bin is.
    type Bin;

    /// Why a bin could not be built.
    type Error;

    /// Build the bin with its children added, linked, and ghost pads exposed.
    fn build(&self) -> Result<Self::Bin, Self::Error>;
}

/// A new, empty bin that is to be made.
#[derive(Debug, PartialEq, Eq)]
pub struct BinRequest {
    /// The name it gets.
    pub name: String,
}

/// A name that a bin embeds to name itself and its children consistently.
///
/// It keeps the bin's name in one place and derives the children's names from it, so that
/// a bin can be built more than once into the same pipeline.
#[derive(Clone, Debug)]
pub struct BinBase {
    name: String,
}

/// The name of a bin's child: the bin's name, a dash and the suffix.
pub open spec fn child_name(base: Seq<char>, suffix: Seq<char>) -> Seq<char> {
    base + "-"@ + suffix
}

impl BinBase {
    /// The bin's name.
    pub closed spec fn base(self) -> Seq<char> {
        self.name@
    }

    /// Create a base that names a bin and its children after `name`.
    #[must_use]
    pub fn new(name: String) -> (r: Self)
        ensures
            r.base() == name@,
    {
        BinBase { name }
    }

    /// The bin's name.
    #[must_use]
    pub fn name(&self) -> (r: &str)
        ensures
            r@ == self.base(),
    {
        self.name.as_str()
    }

    /// Derive a child element's name as `"<bin>-<suffix>"`.
    #[must_use]
    pub fn child(&self, suffix: &str) -> (r: String)
        ensures
            r@ == child_name(self.base(), suffix@),
    {
        let mut r = self.name.clone();
        r.append("-");
        r.append(suffix);
        r
    }

    /// Asks for a new empty bin named after this base.
    #[must_use]
    pub fn bin(&self) -> (r: BinRequest)
        ensures
            r.name@ == self.base(),
    {
        BinRequest { name: self.name.clone() }
    }

    /// Asks for a child element, named `"<bin>-<suffix>"`.
    pub fn make(&self, factory: &str, suffix: &str) -> (r: ElementRequest)
        ensures
            r.factory@ == factory@,
            r.name@ == child_name(self.base(), suffix@),
    {
        make(factory, self.child(suffix).as_str())
    }
}

/// How far the exposure of a pad has come.
#[derive(Debug, PartialEq, Eq)]
pub enum GhostPhase {
    /// The element's static pad is looked up.
    Finding,
    /// A ghost pad for it is made.
    Building,
    /// The ghost pad is added to the bin.
    Adding,
    /// It is done, or has failed.
    Done { result: Result<(), ComposeError> },
}

/// What a host reports to the exposure of a pad. A failed call is reported with the text of
/// its error.
#[derive(Debug, PartialEq, Eq)]
pub enum GhostEvent {
    /// The pad was looked up; the flag tells whether the element has it.
    Found(bool),
    /// The ghost pad was made, or could not be.
    Built(Result<(), String>),
    /// The bin took the ghost pad, or did not.
    Added(Result<(), String>),
}

/// What the exposure of a pad asks of its host.
#[derive(Clone, Copy, Debug, PartialEq, Eq, Structural)]
pub enum GhostAction {
    /// Look up the element's static pad of the name in question.
    Find,
    /// Make a ghost pad of the same name, with that pad as its target.
    Build,
    /// Add the ghost pad to the bin.
    Add,
    /// Return the result.
    Return,
}

/// The exposure of an element's static pad on its bin, under the same name.
#[derive(Debug, PartialEq, Eq)]
pub struct GhostPad {
    /// The name of the bin that gets the ghost pad.
    pub bin: String,
    /// The name of the element whose pad is exposed.
    pub element: String,
    /// The name of the pad, and of its ghost.
    pub pad: String,
    /// How far the exposure has come.
    pub phase: GhostPhase,
}

/// Whether the exposure waits for this event.
pub open spec fn ghost_expects(task: GhostPad, event: GhostEvent) -> bool {
    match task.phase {
        GhostPhase::Finding => event is Found,
        GhostPhase::Building => event is Built,
        GhostPhase::Adding => event is Added,
        GhostPhase::Done { .. } => false,
    }
}

/// The phase that an event leads to: one that is not awaited changes nothing.
pub open spec fn ghost_next_phase(task: GhostPad, event: GhostEvent) -> GhostPhase {
    match (task.phase, event) {
        (GhostPhase::Finding, GhostEvent::Found(true)) => GhostPhase::Building,
        (GhostPhase::Finding, GhostEvent::Found(false)) => GhostPhase::Done {
            result: Err(ComposeError::NoStaticPad { element: task.element, pad: task.pad }),
        },
        (GhostPhase::Building, GhostEvent::Built(Ok(()))) => GhostPhase::Adding,
        (GhostPhase::Building, GhostEvent::Built(Err(cause))) => GhostPhase::Done {
            result: Err(ComposeError::CreateGhost { pad: task.pad, element: task.element, cause }),
        },
        (GhostPhase::Adding, GhostEvent::Added(Ok(()))) => GhostPhase::Done { result: Ok(()) },
        (GhostPhase::Adding, GhostEvent::Added(Err(cause))) => GhostPhase::Done {
            result: Err(ComposeError::AddGhost { pad: task.pad, bin: task.bin, cause }),
        },
        _ => task.phase,
    }
}

/// What becomes of the exposure when it is told of an event.
pub open spec fn ghost_step(task: GhostPad, event: GhostEvent) -> GhostPad {
    GhostPad { phase: ghost_next_phase(task, event), ..task }
}

/// What the exposure asks for in its present phase.
pub open spec fn ghost_action(task: GhostPad) -> GhostAction {
    match task.phase {
        GhostPhase::Finding => GhostAction::Find,
        GhostPhase::Building => GhostAction::Build,
        GhostPhase::Adding => GhostAction::Add,
        GhostPhase::Done { .. } => GhostAction::Return,
    }
}

/// Begins to expose an element's static pad on its bin.
pub fn ghost_pad(bin: &str, element: &str, pad: &str) -> (r: GhostPad)
    ensures
        r.bin@ == bin@,
        r.element@ == element@,
        r.pad@ == pad@,
        r.phase is Finding,
{
    GhostPad {
        bin: bin.to_owned(),
        element: element.to_owned(),
        pad: pad.to_owned(),
        phase: GhostPhase::Finding,
    }
}

/// Begins to expose an element's static `src` pad as a ghost `src` pad on the bin.
pub fn ghost_src(bin: &str, element: &str) -> (r: GhostPad)
    ensures
        r.bin@ == bin@,
        r.element@ == element@,
        r.pad@ == "src"@,
        r.phase is Finding,
{
    ghost_pad(bin, element, "src")
}

/// Begins to expose an element's static `sink` pad as a ghost `sink` pad on the bin.
pub fn ghost_sink(bin: &str, element: &str) -> (r: GhostPad)
    ensures
        r.bin@ == bin@,
        r.element@ == element@,
        r.pad@ == "sink"@,
        r.phase is Finding,
{
    ghost_pad(bin, element, "sink")
}

impl GhostPad {
    /// What the host has to do next.
    pub fn action(&self) -> (r: GhostAction)
        ensures
            r == ghost_action(*self),
            r == match self.phase {
                GhostPhase::Finding => GhostAction::Find,
                GhostPhase::Building => GhostAction::Build,
                GhostPhase::Adding => GhostAction::Add,
                GhostPhase::Done { .. } => GhostAction::Return,
            },
    {
        match &self.phase {
            GhostPhase::Finding => GhostAction::Find,
            GhostPhase::Building => GhostAction::Build,
            GhostPhase::Adding => GhostAction::Add,
            GhostPhase::Done { .. } => GhostAction::Return,
        }
    }

    /// Takes an event into account. The result tells whether it was awaited; if not, the
    /// exposure stays as it was.
    pub fn step(&mut self, event: GhostEvent) -> (expected: bool)
        ensures
            *final(self) == ghost_step(*old(self), event),
            expected == ghost_expects(*old(self), event),
    {
        let next = match (&self.phase, event) {
            (GhostPhase::Finding, GhostEvent::Found(found)) => if found {
                GhostPhase::Building
            } else {
                GhostPhase::Done {
                    result: Err(
                        ComposeError::NoStaticPad {
                            element: self.element.clone(),
                            pad: self.pad.clone(),
                        },
                    ),
                }
            },
            (GhostPhase::Building, GhostEvent::Built(built)) => match built {
                Ok(()) => GhostPhase::Adding,
                Err(cause) => GhostPhase::Done {
                    result: Err(
                        ComposeError::CreateGhost {
                            pad: self.pad.clone(),
                            element: self.element.clone(),
                            cause,
                        },
                    ),
                },
            },
            (GhostPhase::Adding, GhostEvent::Added(added)) => match added {
                Ok(()) => GhostPhase::Done { result: Ok(()) },
                Err(cause) => GhostPhase::Done {
                    result: Err(
                        ComposeError::AddGhost {
                            pad: self.pad.clone(),
                            bin: self.bin.clone(),
                            cause,
                        },
                    ),
                },
            },
            _ => return false,
        };
        self.phase = next;
        true
    }

    /// The result, once the exposure is done; before that, the exposure itself.
    pub fn finish(self) -> (r: Result<Result<(), ComposeError>, GhostPad>)
        ensures
            match self.phase {
                GhostPhase::Done { result } => r == Ok::<Result<(), ComposeError>, GhostPad>(
                    result,
                ),
                _ => r == Err::<Result<(), ComposeError>, GhostPad>(self),
            },
    {
        match self.phase {
            GhostPhase::Done { result } => Ok(result),
            phase => Err(
                GhostPad { bin: self.bin, element: self.element, pad: self.pad, phase },
            ),
        }
    }
}

/// Which way data flows through a pad.
#[derive(Clone, Copy, Debug, PartialEq, Eq, Structural)]
pub enum PadDirection {
    /// Not known.
    Unknown,
    /// Out of the element.
    Src,
    /// Into the element.
    Sink,
}

/// When an element has a pad.
#[derive(Clone, Copy, Debug, PartialEq, Eq, Structural)]
pub enum PadPresence {
    /// At all times.
    Always,
    /// Once the element finds that it needs it.
    Sometimes,
    /// When it is asked for.
    Request,
}

/// A kind of pad that a factory's elements can have.
#[derive(Clone, Copy, Debug, PartialEq, Eq, Structural)]
pub struct PadTemplate {
    /// Which way data flows.
    pub direction: PadDirection,
    /// When the pad exists.
    pub presence: PadPresence,
}

/// An element that is to be the source of a dynamic link.
#[derive(Debug, PartialEq, Eq)]
pub struct SourceElement {
    /// The element's name.
    pub name: String,
    /// The pad templates of the element's factory; `None` if it has no factory.
    pub templates: Option<Vec<PadTemplate>>,
}

/// Whether the element's factory declares a source pad that appears sometimes.
pub open spec fn emits_sometimes_src(src: SourceElement) -> bool {
    src.templates matches Some(templates) && exists|i: int|
        0 <= i < templates@.len() && #[trigger] templates@[i] == (PadTemplate {
            direction: PadDirection::Src,
            presence: PadPresence::Sometimes,
        })
}

/// Whether `src`'s factory declares a `Sometimes` source pad template. Without one, no
/// source pad is ever added to the element.
pub fn emits_sometimes_src_pad(src: &SourceElement) -> (r: bool)
    ensures
        r == emits_sometimes_src(*src),
{
    let templates = match &src.templates {
        None => return false,
        Some(templates) => templates,
    };
    let mut i: usize = 0;
    while i < templates.len()
        invariant
            0 <= i <= templates@.len(),
            src.templates == Some(*templates),
            forall|j: int|
                0 <= j < i ==> #[trigger] templates@[j] != (PadTemplate {
                    direction: PadDirection::Src,
                    presence: PadPresence::Sometimes,
                }),
        decreases templates@.len() - i,
    {
        let template = templates[i];
        if template.direction == PadDirection::Src && template.presence == PadPresence::Sometimes {
            assert(templates@[i as int] == template);
            return true;
        }
        i += 1;
    }
    false
}

/// A link that waits for its source pad: which sink pad it goes to, which capabilities the
/// source pad must be able to have, and what the link is called in messages.
#[derive(Debug)]
pub struct DynamicLink<P, C> {
    /// The pad that is linked to.
    pub sink_pad: P,
    /// The capabilities that are wanted; `None` if any will do.
    pub want_caps: Option<C>,
    /// The name of the logical link.
    pub label: String,
}

/// Prepares to link a dynamic (`Sometimes`) source pad of `src` to `sink_pad` when it
/// appears, and rejects an element that can never add one.
pub fn connect_dynamic<P, C>(
    src: &SourceElement,
    sink_pad: P,
    want_caps: Option<C>,
    label: String,
) -> (r: Result<DynamicLink<P, C>, ComposeError>)
    ensures
        r == if emits_sometimes_src(*src) {
            Ok::<DynamicLink<P, C>, ComposeError>(DynamicLink { sink_pad, want_caps, label })
        } else {
            Err::<DynamicLink<P, C>, ComposeError>(ComposeError::NotDynamic { element: src.name })
        },
{
    if !emits_sometimes_src_pad(src) {
        return Err(ComposeError::NotDynamic { element: src.name.clone() });
    }
    Ok(DynamicLink { sink_pad, want_caps, label })
}

/// What became of a pad that was added to the source element.
#[derive(Debug, PartialEq, Eq)]
pub enum PadVerdict {
    /// The pad is none of the link's business.
    Ignored,
    /// The pad was linked.
    Linked,
    /// The pad should have been linked but could not be: this goes to the pipeline's bus,
    /// because the streaming thread on which it happens has no caller to tell.
    Failed { cause: String },
}

/// How far the treatment of an added pad has come.
#[derive(Debug, PartialEq, Eq)]
pub enum PadPhase {
    /// The capabilities that the pad has negotiated are compared with the wanted ones.
    ComparingCurrent,
    /// It has negotiated none yet, so those that it can have are compared.
    ComparingPossible,
    /// The pad matches, and it is seen whether the sink pad is still free.
    CheckingSink,
    /// The pad is linked to the sink pad.
    Linking,
    /// It is decided.
    Done { verdict: PadVerdict },
}

/// What a host reports about an added pad.
#[derive(Debug, PartialEq, Eq)]
pub enum PadEvent {
    /// Whether the pad's current capabilities intersect the wanted ones; `None` if the pad
    /// has no current ones.
    Current(Option<bool>),
    /// Whether the capabilities that the pad can have intersect the wanted ones.
    Possible(bool),
    /// Whether the sink pad is linked already.
    SinkLinked(bool),
    /// The pads were linked, or could not be.
    Linked(Result<(), String>),
}

/// What the treatment of an added pad asks of its host.
#[derive(Clone, Copy, Debug, PartialEq, Eq, Structural)]
pub enum PadAction {
    /// Compare the pad's current capabilities with the wanted ones.
    CompareCurrent,
    /// Query the capabilities that the pad can have and compare them with the wanted ones.
    ComparePossible,
    /// See whether the sink pad is linked.
    CheckSink,
    /// Link the pad to the sink pad.
    Link,
    /// Nothing, unless the verdict is a failure, which is posted on the bus.
    Conclude,
}

/// The phase in which the treatment of an added pad begins: only source pads are
/// considered, and capabilities only where some are wanted.
pub open spec fn pad_start(wants_caps: bool, direction: PadDirection) -> PadPhase {
    if direction != PadDirection::Src {
        PadPhase::Done { verdict: PadVerdict::Ignored }
    } else if wants_caps {
        PadPhase::ComparingCurrent
    } else {
        PadPhase::CheckingSink
    }
}

/// The phase behind a comparison of capabilities.
pub open spec fn pad_compared(intersects: bool) -> PadPhase {
    if intersects {
        PadPhase::CheckingSink
    } else {
        PadPhase::Done { verdict: PadVerdict::Ignored }
    }
}

/// The phase that an event leads to: one that is not awaited changes nothing.
pub open spec fn pad_step(phase: PadPhase, event: PadEvent) -> PadPhase {
    match (phase, event) {
        (PadPhase::ComparingCurrent, PadEvent::Current(current)) => match current {
            Some(intersects) => pad_compared(intersects),
            None => PadPhase::ComparingPossible,
        },
        (PadPhase::ComparingPossible, PadEvent::Possible(intersects)) => pad_compared(intersects),
        (PadPhase::CheckingSink, PadEvent::SinkLinked(linked)) => if linked {
            PadPhase::Done { verdict: PadVerdict::Ignored }
        } else {
            PadPhase::Linking
        },
        (PadPhase::Linking, PadEvent::Linked(result)) => PadPhase::Done {
            verdict: match result {
                Ok(()) => PadVerdict::Linked,
                Err(cause) => PadVerdict::Failed { cause },
            },
        },
        _ => phase,
    }
}

/// What the treatment of an added pad asks for in its present phase.
pub open spec fn pad_action(phase: PadPhase) -> PadAction {
    match phase {
        PadPhase::ComparingCurrent => PadAction::CompareCurrent,
        PadPhase::ComparingPossible => PadAction::ComparePossible,
        PadPhase::CheckingSink => PadAction::CheckSink,
        PadPhase::Linking => PadAction::Link,
        PadPhase::Done { .. } => PadAction::Conclude,
    }
}

impl PadPhase {
    /// What the host has to do next.
    pub fn action(&self) -> (r: PadAction)
        ensures
            r == pad_action(*self),
            r == match self {
                PadPhase::ComparingCurrent => PadAction::CompareCurrent,
                PadPhase::ComparingPossible => PadAction::ComparePossible,
                PadPhase::CheckingSink => PadAction::CheckSink,
                PadPhase::Linking => PadAction::Link,
                PadPhase::Done { .. } => PadAction::Conclude,
            },
    {
        match self {
            PadPhase::ComparingCurrent => PadAction::CompareCurrent,
            PadPhase::ComparingPossible => PadAction::ComparePossible,
            PadPhase::CheckingSink => PadAction::CheckSink,
            PadPhase::Linking => PadAction::Link,
            PadPhase::Done { .. } => PadAction::Conclude,
        }
    }

    fn compared(intersects: bool) -> (r: Self)
        ensures
            r == pad_compared(intersects),
    {
        if intersects {
            PadPhase::CheckingSink
        } else {
            PadPhase::Done { verdict: PadVerdict::Ignored }
        }
    }

    /// Takes an event into account; one that is not awaited changes nothing.
    pub fn step(self, event: PadEvent) -> (r: Self)
        ensures
            r == pad_step(self, event),
    {
        match (self, event) {
            (PadPhase::ComparingCurrent, PadEvent::Current(Some(intersects))) => Self::compared(
                intersects,
            ),
            (PadPhase::ComparingCurrent, PadEvent::Current(None)) => PadPhase::ComparingPossible,
            (PadPhase::ComparingPossible, PadEvent::Possible(intersects)) => Self::compared(
                intersects,
            ),
            (PadPhase::CheckingSink, PadEvent::SinkLinked(linked)) => if linked {
                PadPhase::Done { verdict: PadVerdict::Ignored }
            } else {
                PadPhase::Linking
            },
            (PadPhase::Linking, PadEvent::Linked(Ok(()))) => PadPhase::Done {
                verdict: PadVerdict::Linked,
            },
            (PadPhase::Linking, PadEvent::Linked(Err(cause))) => PadPhase::Done {
                verdict: PadVerdict::Failed { cause },
            },
            (phase, _) => phase,
        }
    }
}

/// What is posted on the bus when a dynamic link cannot be made.
pub open spec fn link_failure_text(label: Seq<char>, cause: Seq<char>) -> Seq<char> {
    "failed to link dynamic pad for "@ + label + ": "@ + cause
}

impl<P, C> DynamicLink<P, C> {
    /// Begins to treat a pad that was added to the source element.
    pub fn pad_added(&self, direction: PadDirection) -> (r: PadPhase)
        ensures
            r == pad_start(self.want_caps is Some, direction),
    {
        if direction != PadDirection::Src {
            return PadPhase::Done { verdict: PadVerdict::Ignored };
        }
        match &self.want_caps {
            Some(_) => PadPhase::ComparingCurrent,
            None => PadPhase::CheckingSink,
        }
    }

    /// Renders the failure to link, with the name of the logical link.
    pub fn link_failure(&self, cause: &str) -> (r: String)
        ensures
            r@ == link_failure_text(self.label@, cause@),
    {
        let mut r = "failed to link dynamic pad for ".to_owned();
        r.append(self.label.as_str());
        r.append(": ");
        r.append(cause);
        r
    }
}

}
