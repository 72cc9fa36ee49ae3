//! The composition helpers, hosted by elements that only pretend.

use gstsmith_app::compose::{
    emits_sometimes_src_pad, ghost_pad, ElementRequest, GhostAction, GhostEvent, GhostPad,
    PadAction, PadDirection, PadEvent, PadPhase, PadPresence, PadTemplate, PadVerdict,
    SourceElement,
};
use gstsmith_app::drive::{BusMessage, DriveEvent};
use gstsmith_app::error::PipelineState;
use gstsmith_app::runtime::{RunAction, RunEvent};
use gstsmith_app::{
    connect_dynamic, ghost_sink, ghost_src, init, make, BinBase, ComposeError, InitError,
    PipelineBin, PipelineExit, PipelineRunner,
};

struct Element {
    name: String,
    pads: Vec<(&'static str, PadDirection)>,
}

struct Bin {
    name: String,
    children: Vec<Element>,
    ghosts: Vec<(String, PadDirection)>,
}

/// Builds the few elements that the pretended registry knows.
fn registry(request: ElementRequest) -> Result<Element, ComposeError> {
    let both = vec![("sink", PadDirection::Sink), ("src", PadDirection::Src)];
    let built = match request.factory.as_str() {
        "videoconvert" | "videoscale" => Ok(both),
        "fakesink" => Ok(vec![("sink", PadDirection::Sink)]),
        _ => Err("Failed to find element factory".to_string()),
    };
    let name = request.name.clone();
    request.finish(built.map(|pads| Element { name, pads }))
}

fn expose(task: GhostPad, bin: &mut Bin, element: &Element) -> Result<(), ComposeError> {
    let mut task = task;
    loop {
        let target = element.pads.iter().find(|pad| pad.0 == task.pad);
        let event = match task.action() {
            GhostAction::Find => GhostEvent::Found(target.is_some()),
            GhostAction::Build => GhostEvent::Built(Ok(())),
            GhostAction::Add => {
                if bin.ghosts.iter().any(|ghost| ghost.0 == task.pad) {
                    GhostEvent::Added(Err("Failed to add pad".to_string()))
                } else {
                    let direction = target.expect("the pad was found").1;
                    bin.ghosts.push((task.pad.clone(), direction));
                    GhostEvent::Added(Ok(()))
                }
            }
            GhostAction::Return => return task.finish().expect("the exposure is done"),
        };
        assert!(task.step(event));
    }
}

struct Transform {
    base: BinBase,
}

impl Transform {
    fn new(name: &str) -> Self {
        Self { base: BinBase::new(name.to_string()) }
    }
}

impl PipelineBin for Transform {
    type Bin = Bin;
    type Error = ComposeError;

    fn build(&self) -> Result<Bin, ComposeError> {
        let mut bin =
            Bin { name: self.base.bin().name, children: Vec::new(), ghosts: Vec::new() };
        let convert = registry(self.base.make("videoconvert", "convert"))?;
        let scale = registry(self.base.make("videoscale", "scale"))?;
        let sink = ghost_sink(&bin.name, &convert.name);
        expose(sink, &mut bin, &convert)?;
        let src = ghost_src(&bin.name, &scale.name);
        expose(src, &mut bin, &scale)?;
        bin.children.push(convert);
        bin.children.push(scale);
        Ok(bin)
    }
}

fn videotestsrc() -> SourceElement {
    SourceElement {
        name: "videotestsrc0".to_string(),
        templates: Some(vec![PadTemplate {
            direction: PadDirection::Src,
            presence: PadPresence::Always,
        }]),
    }
}

fn decodebin() -> SourceElement {
    SourceElement {
        name: "decodebin0".to_string(),
        templates: Some(vec![
            PadTemplate { direction: PadDirection::Sink, presence: PadPresence::Always },
            PadTemplate { direction: PadDirection::Src, presence: PadPresence::Sometimes },
        ]),
    }
}

#[test]
fn bin_base_names_the_bin_and_its_children() {
    let base = BinBase::new("source".to_string());
    assert_eq!(base.name(), "source");
    assert_eq!(base.child("convert"), "source-convert");
    assert_eq!(base.bin().name, "source");

    let child = registry(base.make("fakesink", "sink")).expect("fakesink is available");
    assert_eq!(child.name, "source-sink");
}

#[test]
fn make_builds_a_named_element() {
    let element = registry(make("fakesink", "named-sink")).expect("fakesink is available");

    assert_eq!(element.name, "named-sink");
}

#[test]
fn make_reports_the_factory_on_failure() {
    let err = match registry(make("definitely-not-a-real-factory", "x")) {
        Ok(_) => panic!("unknown factory fails to build"),
        Err(err) => err,
    };

    assert!(err.message().contains("definitely-not-a-real-factory"));
    assert_eq!(
        err.message(),
        "creating element 'definitely-not-a-real-factory' (named 'x')"
    );
    assert_eq!(
        err.full_message(),
        "creating element 'definitely-not-a-real-factory' (named 'x'): \
         Failed to find element factory"
    );
}

#[test]
fn ghost_pads_expose_named_directional_pads() {
    let bin = Transform::new("transform").build().expect("transform bin builds");

    let sink = bin.ghosts.iter().find(|ghost| ghost.0 == "sink");
    let src = bin.ghosts.iter().find(|ghost| ghost.0 == "src");
    assert_eq!(sink.expect("bin exposes a sink ghost pad").1, PadDirection::Sink);
    assert_eq!(src.expect("bin exposes a src ghost pad").1, PadDirection::Src);
    assert_eq!(bin.name, "transform");
    assert_eq!(bin.children[0].name, "transform-convert");
    assert_eq!(bin.children[1].name, "transform-scale");
}

#[test]
fn composed_bin_runs_to_eos() {
    let transform = Transform::new("transform").build().expect("transform bin builds");
    let (bins, mut run) = PipelineRunner::new(vec![transform]).run();
    assert_eq!(bins[0].name, "transform");
    let mut state = PipelineState::Null;
    let mut messages = vec![BusMessage::Eos, BusMessage::Other];
    loop {
        let event = match run.action() {
            RunAction::AwaitPoll => RunEvent::Polled,
            RunAction::Start => {
                state = PipelineState::Playing;
                RunEvent::Started(Ok(()))
            }
            RunAction::OpenBus => RunEvent::BusOpened(true),
            RunAction::Drive(_) => {
                assert_eq!(state, PipelineState::Playing);
                RunEvent::Drive(DriveEvent::Message(messages.pop()))
            }
            RunAction::Stop => {
                state = PipelineState::Null;
                RunEvent::Stopped(Ok(()))
            }
            RunAction::Return => break,
        };
        assert!(run.step(event));
    }

    let exit = run.finish().expect("the run is over").expect("composed pipeline runs to EOS");
    assert_eq!(exit, PipelineExit::Eos);
    assert_eq!(state, PipelineState::Null);
}

#[test]
fn connect_dynamic_rejects_static_only_sources() {
    let err = connect_dynamic(
        &videotestsrc(),
        "static-sink:sink",
        None::<&str>,
        "videotestsrc -> sink".to_string(),
    )
    .expect_err("a static-only source is rejected");

    assert!(err.message().contains("sometimes"));
    assert_eq!(
        err.message(),
        "element 'videotestsrc0' has no dynamic (sometimes) src pad, \
         so pad-added would never fire"
    );
}

#[test]
fn connect_dynamic_accepts_dynamic_sources() {
    let link = connect_dynamic(
        &decodebin(),
        "dynamic-sink:sink",
        None::<&str>,
        "decodebin -> sink".to_string(),
    )
    .expect("a dynamic source is accepted");
    assert_eq!(link.sink_pad, "dynamic-sink:sink");
    assert_eq!(link.label, "decodebin -> sink");
}

#[test]
fn connect_dynamic_queries_caps_before_negotiation() {
    let link = connect_dynamic(
        &decodebin(),
        "dynamic-sink:sink",
        Some("video/x-raw"),
        "decodebin -> sink".to_string(),
    )
    .expect("a dynamic source is accepted");

    let phase = link.pad_added(PadDirection::Src);
    assert_eq!(phase.action(), PadAction::CompareCurrent);
    let phase = phase.step(PadEvent::Current(None));
    assert_eq!(phase.action(), PadAction::ComparePossible);
    let phase = phase.step(PadEvent::Possible(true));
    assert_eq!(phase.action(), PadAction::CheckSink);
    let phase = phase.step(PadEvent::SinkLinked(false));
    assert_eq!(phase.action(), PadAction::Link);
    let phase = phase.step(PadEvent::Linked(Ok(())));
    assert_eq!(phase, PadPhase::Done { verdict: PadVerdict::Linked });
    assert_eq!(phase.action(), PadAction::Conclude);
}

#[test]
fn init_reports_what_failed() {
    assert_eq!(init(Ok(())), Ok(()));
    let err = init(Err("no display".to_string())).expect_err("it fails");
    assert_eq!(err, InitError { cause: "no display".to_string() });
    assert_eq!(err.message(), "initializing GStreamer");
    assert_eq!(err.full_message(), "initializing GStreamer: no display");
}

#[test]
fn missing_static_pad_is_reported() {
    let mut bin = Bin { name: "b".to_string(), children: Vec::new(), ghosts: Vec::new() };
    let sink = Element { name: "s".to_string(), pads: vec![("sink", PadDirection::Sink)] };
    let task = ghost_src("b", "s");
    let err = expose(task, &mut bin, &sink).expect_err("fakesink has no src pad");
    assert_eq!(err.full_message(), "element 's' has no static 'src' pad to ghost");
    assert!(bin.ghosts.is_empty());
}

#[test]
fn second_ghost_of_the_same_name_is_reported() {
    let mut bin = Bin { name: "b".to_string(), children: Vec::new(), ghosts: Vec::new() };
    let sink = Element { name: "s".to_string(), pads: vec![("sink", PadDirection::Sink)] };
    expose(ghost_sink("b", "s"), &mut bin, &sink).expect("the first is taken");
    let err = expose(ghost_sink("b", "s"), &mut bin, &sink).expect_err("the second is not");
    assert_eq!(err.message(), "adding sink ghost pad to bin 'b'");
    assert_eq!(err.full_message(), "adding sink ghost pad to bin 'b': Failed to add pad");
}

#[test]
fn ghost_that_cannot_be_made_is_reported() {
    let mut task = ghost_pad("b", "e", "sink");
    assert!(!task.step(GhostEvent::Added(Ok(()))));
    assert!(task.step(GhostEvent::Found(true)));
    assert!(task.step(GhostEvent::Built(Err("no target".to_string()))));
    assert!(!task.step(GhostEvent::Added(Ok(()))));
    let err = task.finish().expect("it is done").expect_err("it failed");
    assert_eq!(err.full_message(), "creating sink ghost pad for 'e': no target");
}

#[test]
fn only_sometimes_source_templates_count() {
    assert!(emits_sometimes_src_pad(&decodebin()));
    assert!(!emits_sometimes_src_pad(&videotestsrc()));
    let mut src = decodebin();
    src.templates = None;
    assert!(!emits_sometimes_src_pad(&src));
    src.templates = Some(vec![
        PadTemplate { direction: PadDirection::Sink, presence: PadPresence::Sometimes },
        PadTemplate { direction: PadDirection::Src, presence: PadPresence::Request },
    ]);
    assert!(!emits_sometimes_src_pad(&src));
}

#[test]
fn pads_that_do_not_match_are_ignored() {
    let any = connect_dynamic(&decodebin(), (), None::<()>, "l".to_string()).expect("dynamic");
    let some = connect_dynamic(&decodebin(), (), Some(()), "l".to_string()).expect("dynamic");
    let ignored = PadPhase::Done { verdict: PadVerdict::Ignored };

    assert_eq!(any.pad_added(PadDirection::Sink), ignored);
    assert_eq!(any.pad_added(PadDirection::Unknown), ignored);
    assert_eq!(any.pad_added(PadDirection::Src).action(), PadAction::CheckSink);
    let phase = some.pad_added(PadDirection::Src);
    assert_eq!(phase.step(PadEvent::Current(Some(false))), ignored);
    let phase = some.pad_added(PadDirection::Src).step(PadEvent::Current(None));
    assert_eq!(phase.step(PadEvent::Possible(false)), ignored);
    let phase = some.pad_added(PadDirection::Src).step(PadEvent::Current(Some(true)));
    assert_eq!(phase.step(PadEvent::SinkLinked(true)), ignored);
}

#[test]
fn failed_dynamic_link_is_put_into_words() {
    let link = connect_dynamic(&decodebin(), (), None::<()>, "rtspsrc -> depay".to_string())
        .expect("dynamic");
    let phase = link
        .pad_added(PadDirection::Src)
        .step(PadEvent::SinkLinked(false))
        .step(PadEvent::Linked(Err("no common format".to_string())));
    assert_eq!(
        phase,
        PadPhase::Done { verdict: PadVerdict::Failed { cause: "no common format".to_string() } }
    );
    assert_eq!(
        link.link_failure("no common format"),
        "failed to link dynamic pad for rtspsrc -> depay: no common format"
    );
}

#[test]
fn first_matching_pad_takes_the_link() {
    let link = connect_dynamic(&decodebin(), (), Some(()), "l".to_string()).expect("dynamic");
    let mut linked = false;
    let mut chosen = Vec::new();
    for (i, intersects) in [false, true, true].iter().enumerate() {
        let phase = link
            .pad_added(PadDirection::Src)
            .step(PadEvent::Current(Some(*intersects)))
            .step(PadEvent::SinkLinked(linked))
            .step(PadEvent::Linked(Ok(())));
        if phase == (PadPhase::Done { verdict: PadVerdict::Linked }) {
            linked = true;
            chosen.push(i);
        }
    }
    assert_eq!(chosen, vec![1]);
}

#[test]
fn instances_of_a_bin_do_not_share_names() {
    let a = BinBase::new("a".to_string());
    let b = BinBase::new("b".to_string());
    assert_ne!(a.child("convert"), b.child("convert"));
    assert_ne!(a.child("convert"), a.child("scale"));
    assert_eq!(a.child(""), "a-");
}
