//! What holds of the composition helpers.
use vstd::prelude::*;

use crate::compose::{
    BinBase, BinRequest, DynamicLink, ElementRequest, GhostAction, GhostEvent, GhostPad,
    GhostPhase, PadAction, PadDirection, PadEvent, PadPhase, PadPresence, PadTemplate, PadVerdict,
    SourceElement,
};
use crate::error::ComposeError;

verus! {

/// Children of one bin have different names if their suffixes differ.
pub proof fn law_siblings_have_distinct_names(base: Seq<char>, a: Seq<char>, b: Seq<char>)
    requires
        a != b,
    ensures
        crate::compose::child_name(base, a) != crate::compose::child_name(base, b),
{
    let x = crate::compose::child_name(base, a);
    let y = crate::compose::child_name(base, b);
    if x == y {
        let start = (base + "-"@).len() as int;
        assert(x.subrange(start, x.len() as int) =~= a);
        assert(y.subrange(start, y.len() as int) =~= b);
    }
}

/// The same child of two bins has different names if the bins' names differ.
pub proof fn law_instances_have_distinct_names(a: Seq<char>, b: Seq<char>, suffix: Seq<char>)
    requires
        a != b,
    ensures
        crate::compose::child_name(a, suffix) != crate::compose::child_name(b, suffix),
{
    let x = crate::compose::child_name(a, suffix);
    let y = crate::compose::child_name(b, suffix);
    if x == y {
        assert(x.len() == a.len() + "-"@.len() + suffix.len());
        assert(y.len() == b.len() + "-"@.len() + suffix.len());
        assert(x.subrange(0, a.len() as int) =~= a);
        assert(y.subrange(0, b.len() as int) =~= b);
    }
}

/// A child's name begins with its bin's name and is never the same.
pub proof fn law_child_is_named_after_bin(base: Seq<char>, suffix: Seq<char>)
    ensures
        base.is_prefix_of(crate::compose::child_name(base, suffix)),
        base != crate::compose::child_name(base, suffix),
{
    reveal_strlit("-");
    let name = crate::compose::child_name(base, suffix);
    assert(name.subrange(0, base.len() as int) =~= base);
    assert(name.len() > base.len());
}

/// A child's name is its bin's name, one dash and the suffix, with nothing changed or left
/// out, whatever the two are.
pub proof fn law_child_name_keeps_both_parts(base: Seq<char>, suffix: Seq<char>)
    ensures
        ({
            let name = crate::compose::child_name(base, suffix);
            &&& name.len() == base.len() + 1 + suffix.len()
            &&& name.take(base.len() as int) =~= base
            &&& name[base.len() as int] == '-'
            &&& name.skip((base.len() + 1) as int) =~= suffix
        }),
{
    reveal_strlit("-");
}

/// A bin and its children are named after what the base was made with, and a child is asked
/// for from the factory that was named.
pub proof fn law_names_come_from_the_base(
    name: String,
    base: BinBase,
    factory: &str,
    suffix: &str,
    own: &str,
    child: String,
    bin: BinRequest,
    element: ElementRequest,
)
    requires
        call_ensures(BinBase::new, (name,), base),
        call_ensures(BinBase::name, (&base,), own),
        call_ensures(BinBase::child, (&base, suffix), child),
        call_ensures(BinBase::bin, (&base,), bin),
        call_ensures(BinBase::make, (&base, factory, suffix), element),
    ensures
        own@ == name@,
        bin.name@ == name@,
        child@ == name@ + seq!['-'] + suffix@,
        element.name@ == child@,
        element.factory@ == factory@,
{
    reveal_strlit("-");
    assert("-"@ =~= seq!['-']);
}

/// An element is asked for under the name and from the factory that were given. What the
/// factory makes is handed on, and its error is told with both.
pub proof fn law_element_or_error<E>(
    factory: &str,
    name: &str,
    request: ElementRequest,
    built: Result<E, String>,
    r: Result<E, ComposeError>,
)
    requires
        call_ensures(crate::compose::make, (factory, name), request),
        call_ensures(ElementRequest::finish::<E>, (request, built), r),
    ensures
        request.factory@ == factory@,
        request.name@ == name@,
        built is Ok ==> r is Ok && r->Ok_0 == built->Ok_0,
        built is Err ==> r is Err && r->Err_0 == (ComposeError::CreateElement {
            factory: request.factory,
            name: request.name,
            cause: built->Err_0,
        }),
{
}

/// What the exposure of a pad comes to, given whether the element has the pad, whether a
/// ghost can be made for it, and whether the bin takes the ghost: the first thing that goes
/// wrong is reported.
pub open spec fn ghost_result(
    task: GhostPad,
    found: bool,
    built: Result<(), String>,
    added: Result<(), String>,
) -> Result<(), ComposeError> {
    if !found {
        Err(ComposeError::NoStaticPad { element: task.element, pad: task.pad })
    } else {
        match (built, added) {
            (Err(cause), _) => Err(
                ComposeError::CreateGhost { pad: task.pad, element: task.element, cause },
            ),
            (Ok(_), Err(cause)) => Err(
                ComposeError::AddGhost { pad: task.pad, bin: task.bin, cause },
            ),
            (Ok(_), Ok(_)) => Ok(()),
        }
    }
}

/// Three answers settle every exposure of a pad. It succeeds exactly if all three are good,
/// and otherwise fails with the first that is not; the answers behind that one change
/// nothing.
pub proof fn law_ghost_pad(
    task: GhostPad,
    found: bool,
    built: Result<(), String>,
    added: Result<(), String>,
)
    requires
        task.phase is Finding,
    ensures
        ({
            let a = crate::compose::ghost_step(task, GhostEvent::Found(found));
            let b = crate::compose::ghost_step(a, GhostEvent::Built(built));
            let c = crate::compose::ghost_step(b, GhostEvent::Added(added));
            c.phase == (GhostPhase::Done { result: ghost_result(task, found, built, added) })
        }),
{
}

/// Whether an event is an answer to what the exposure of a pad asked its host for.
pub open spec fn ghost_answers(action: GhostAction, event: GhostEvent) -> bool {
    match event {
        GhostEvent::Found(_) => action is Find,
        GhostEvent::Built(_) => action is Build,
        GhostEvent::Added(_) => action is Add,
    }
}

/// What an exposure asks for and what it waits for belong together: it takes into account
/// every answer to what it asked for and nothing else, and it keeps the names it was given.
pub proof fn law_ghost_awaits_every_answer(task: GhostPad, event: GhostEvent)
    ensures
        ({
            let next = crate::compose::ghost_step(task, event);
            let answers = ghost_answers(crate::compose::ghost_action(task), event);
            &&& crate::compose::ghost_expects(task, event) <==> answers
            &&& !answers ==> next == task
            &&& answers ==> crate::compose::ghost_action(next) != crate::compose::ghost_action(task)
            &&& next.bin == task.bin
            &&& next.element == task.element
            &&& next.pad == task.pad
        }),
{
}

/// An exposure goes on by one step for each good answer: the pad that was found gets a ghost,
/// the ghost that was made is added, and with the ghost that was added it is done. It goes
/// there in no other way.
pub proof fn law_ghost_goes_step_by_step(task: GhostPad, event: GhostEvent)
    ensures
        ({
            let next = crate::compose::ghost_step(task, event);
            let now = crate::compose::ghost_action(task);
            let then = crate::compose::ghost_action(next);
            &&& (now != GhostAction::Build && then == GhostAction::Build) <==> (now
                == GhostAction::Find && event == GhostEvent::Found(true))
            &&& (now != GhostAction::Add && then == GhostAction::Add) <==> (now
                == GhostAction::Build && event is Built && event->Built_0 is Ok)
            &&& (now != GhostAction::Return && next.phase is Done && next.phase->result is Ok)
                <==> (now == GhostAction::Add && event is Added && event->Added_0 is Ok)
            &&& then == GhostAction::Find ==> now == GhostAction::Find
            &&& then == GhostAction::Return <==> next.phase is Done
        }),
{
}

/// A bad answer ends an exposure at once, with what went wrong and the names that it went
/// wrong with.
pub proof fn law_ghost_fails_with_its_answer(task: GhostPad, event: GhostEvent)
    requires
        ghost_answers(crate::compose::ghost_action(task), event),
    ensures
        ({
            let next = crate::compose::ghost_step(task, event);
            &&& event == GhostEvent::Found(false) ==> next.phase == (GhostPhase::Done {
                result: Err(ComposeError::NoStaticPad { element: task.element, pad: task.pad }),
            })
            &&& event matches GhostEvent::Built(Err(cause)) ==> next.phase == (GhostPhase::Done {
                result: Err(
                    ComposeError::CreateGhost { pad: task.pad, element: task.element, cause },
                ),
            })
            &&& event matches GhostEvent::Added(Err(cause)) ==> next.phase == (GhostPhase::Done {
                result: Err(ComposeError::AddGhost { pad: task.pad, bin: task.bin, cause }),
            })
        }),
{
}

/// The exposure after it was told of these events.
pub open spec fn ghost_after(task: GhostPad, events: Seq<GhostEvent>) -> GhostPad
    decreases events.len(),
{
    if events.len() == 0 {
        task
    } else {
        crate::compose::ghost_step(ghost_after(task, events.drop_last()), events.last())
    }
}

/// Whether the event at this place tells that the pad was found, as was asked for then.
pub open spec fn found_at(task: GhostPad, events: Seq<GhostEvent>, i: int) -> bool {
    &&& 0 <= i < events.len()
    &&& events[i] == GhostEvent::Found(true)
    &&& crate::compose::ghost_action(ghost_after(task, events.take(i))) == GhostAction::Find
}

/// Whether the event at this place tells that the ghost was made, as was asked for then.
pub open spec fn built_at(task: GhostPad, events: Seq<GhostEvent>, i: int) -> bool {
    &&& 0 <= i < events.len()
    &&& events[i] is Built && events[i]->Built_0 is Ok
    &&& crate::compose::ghost_action(ghost_after(task, events.take(i))) == GhostAction::Build
}

/// Whether the event at this place tells that the bin took the ghost, as was asked for then.
pub open spec fn added_at(task: GhostPad, events: Seq<GhostEvent>, i: int) -> bool {
    &&& 0 <= i < events.len()
    &&& events[i] is Added && events[i]->Added_0 is Ok
    &&& crate::compose::ghost_action(ghost_after(task, events.take(i))) == GhostAction::Add
}

/// Whatever an exposure is told, in whatever order: a ghost is asked for only once the pad
/// was found, its addition only once the ghost was made, and it succeeds only once the pad
/// was found, the ghost made and the ghost added, one after the other and each when asked for.
pub proof fn law_ghost_in_order(task: GhostPad, events: Seq<GhostEvent>)
    requires
        task.phase is Finding,
    ensures
        ({
            let now = ghost_after(task, events);
            &&& crate::compose::ghost_action(now) == GhostAction::Build ==> exists|i: int|
                found_at(task, events, i)
            &&& crate::compose::ghost_action(now) == GhostAction::Add ==> exists|i: int, j: int|
                i < j && #[trigger] found_at(task, events, i) && #[trigger] built_at(
                    task,
                    events,
                    j,
                )
            &&& now.phase is Done && now.phase->result is Ok ==> exists|i: int, j: int, k: int|
                i < j < k && #[trigger] found_at(task, events, i) && #[trigger] built_at(
                    task,
                    events,
                    j,
                ) && #[trigger] added_at(task, events, k)
        }),
    decreases events.len(),
{
    if events.len() > 0 {
        let before = events.drop_last();
        let last = events.len() - 1;
        law_ghost_in_order(task, before);
        assert(events.take(last) =~= before);
        assert forall|i: int| 0 <= i < before.len() implies #[trigger] before.take(i)
            == events.take(i) by {
            assert(before.take(i) =~= events.take(i));
        }
        assert forall|i: int| found_at(task, before, i) implies found_at(task, events, i) by {
            assert(before.take(i) == events.take(i));
        }
        assert forall|i: int| built_at(task, before, i) implies built_at(task, events, i) by {
            assert(before.take(i) == events.take(i));
        }
        assert forall|i: int| added_at(task, before, i) implies added_at(task, events, i) by {
            assert(before.take(i) == events.take(i));
        }
        let was = ghost_after(task, before);
        match was.phase {
            GhostPhase::Finding => {
                if events.last() == GhostEvent::Found(true) {
                    assert(found_at(task, events, last));
                }
            },
            GhostPhase::Building => {
                let i = choose|i: int| found_at(task, before, i);
                assert(found_at(task, events, i));
                if events.last() is Built && events.last()->Built_0 is Ok {
                    assert(built_at(task, events, last));
                }
            },
            GhostPhase::Adding => {
                let (i, j) = choose|i: int, j: int|
                    i < j && #[trigger] found_at(task, before, i) && #[trigger] built_at(
                        task,
                        before,
                        j,
                    );
                assert(found_at(task, events, i) && built_at(task, events, j));
                if events.last() is Added && events.last()->Added_0 is Ok {
                    assert(added_at(task, events, last));
                }
            },
            GhostPhase::Done { result } => {
                if result is Ok {
                    let (i, j, k) = choose|i: int, j: int, k: int|
                        i < j < k && #[trigger] found_at(task, before, i) && #[trigger] built_at(
                            task,
                            before,
                            j,
                        ) && #[trigger] added_at(task, before, k);
                    assert(found_at(task, events, i) && built_at(task, events, j) && added_at(
                        task,
                        events,
                        k,
                    ));
                }
            },
        }
    }
}

/// What a host that performs what it is asked for answers, given whether the element has the
/// pad, whether a ghost can be made for it, and whether the bin takes the ghost.
pub open spec fn ghost_answer(
    action: GhostAction,
    found: bool,
    built: Result<(), String>,
    added: Result<(), String>,
) -> GhostEvent {
    match action {
        GhostAction::Find => GhostEvent::Found(found),
        GhostAction::Build => GhostEvent::Built(built),
        _ => GhostEvent::Added(added),
    }
}

/// A host that answers what it is asked for is asked to find the pad, to make a ghost for
/// it if it was found, and to add the ghost if it was made; then it has the result.
pub proof fn law_ghost_hosted(
    task: GhostPad,
    found: bool,
    built: Result<(), String>,
    added: Result<(), String>,
)
    requires
        task.phase is Finding,
    ensures
        ({
            let ask = |t: GhostPad| crate::compose::ghost_action(t);
            let a = crate::compose::ghost_step(task, ghost_answer(ask(task), found, built, added));
            let b = crate::compose::ghost_step(a, ghost_answer(ask(a), found, built, added));
            let c = crate::compose::ghost_step(b, ghost_answer(ask(b), found, built, added));
            &&& ask(task) == GhostAction::Find
            &&& ask(a) == if found {
                GhostAction::Build
            } else {
                GhostAction::Return
            }
            &&& ask(b) == if found && built is Ok {
                GhostAction::Add
            } else {
                GhostAction::Return
            }
            &&& c.phase == (GhostPhase::Done { result: ghost_result(task, found, built, added) })
            &&& c.phase->result is Ok <==> found && built is Ok && added is Ok
        }),
{
}

/// The operations of an exposure do what is said here of exposures, and it begins with the
/// names it was given, for a pad called `src` or `sink`.
pub proof fn law_ghost_operations(bin: &str, element: &str, pad: &str)
    ensures
        forall|task: &mut GhostPad, event: GhostEvent, expected: bool| #[trigger]
            call_ensures(GhostPad::step, (task, event), expected) ==> {
                &&& *final(task) == crate::compose::ghost_step(*task, event)
                &&& expected == crate::compose::ghost_expects(*task, event)
            },
        forall|task: &GhostPad, action: GhostAction| #[trigger]
            call_ensures(GhostPad::action, (task,), action) ==> action
                == crate::compose::ghost_action(*task),
        forall|task: GhostPad, r: Result<Result<(), ComposeError>, GhostPad>| #[trigger]
            call_ensures(GhostPad::finish, (task,), r) ==> {
                &&& r is Ok <==> crate::compose::ghost_action(task) == GhostAction::Return
                &&& r is Ok ==> r->Ok_0 == task.phase->result
                &&& r is Err ==> r->Err_0 == task
            },
        forall|task: GhostPad| #[trigger]
            call_ensures(crate::compose::ghost_pad, (bin, element, pad), task) ==> {
                &&& task.bin@ == bin@ && task.element@ == element@ && task.pad@ == pad@
                &&& task.phase is Finding
            },
        forall|task: GhostPad| #[trigger]
            call_ensures(crate::compose::ghost_src, (bin, element), task) ==> {
                &&& task.bin@ == bin@ && task.element@ == element@ && task.pad@ == "src"@
                &&& task.phase is Finding
            },
        forall|task: GhostPad| #[trigger]
            call_ensures(crate::compose::ghost_sink, (bin, element), task) ==> {
                &&& task.bin@ == bin@ && task.element@ == element@ && task.pad@ == "sink"@
                &&& task.phase is Finding
            },
{
}

/// Whether pads of this kind are source pads that an element has only sometimes.
pub open spec fn is_sometimes_src(template: PadTemplate) -> bool {
    template.direction is Src && template.presence is Sometimes
}

/// One template for a source pad that appears sometimes is enough, wherever it stands among
/// the factory's templates and whatever the others are.
pub proof fn law_one_sometimes_src_is_enough(src: SourceElement, k: int)
    requires
        src.templates is Some,
        0 <= k < src.templates->0@.len(),
        src.templates->0@[k].direction is Src,
        src.templates->0@[k].presence is Sometimes,
    ensures
        crate::compose::emits_sometimes_src(src),
{
    let template = src.templates->0@[k];
    assert(template == (PadTemplate {
        direction: PadDirection::Src,
        presence: PadPresence::Sometimes,
    }));
}

/// Without such a template, or without a factory, no source pad is ever added.
pub proof fn law_without_sometimes_src_none(src: SourceElement)
    requires
        src.templates matches Some(templates) ==> forall|k: int|
            0 <= k < templates@.len() ==> !is_sometimes_src(#[trigger] templates@[k]),
    ensures
        !crate::compose::emits_sometimes_src(src),
{
    if let Some(templates) = src.templates {
        assert forall|k: int| 0 <= k < templates@.len() implies #[trigger] templates@[k] != (
        PadTemplate { direction: PadDirection::Src, presence: PadPresence::Sometimes }) by {
            assert(!is_sometimes_src(templates@[k]));
        }
    }
}

/// The order of a factory's templates, and how often each occurs, does not matter.
pub proof fn law_template_order_does_not_matter(a: SourceElement, b: SourceElement)
    requires
        a.templates is Some,
        b.templates is Some,
        forall|t: PadTemplate| #[trigger]
            a.templates->0@.contains(t) <==> b.templates->0@.contains(t),
    ensures
        crate::compose::emits_sometimes_src(a) == crate::compose::emits_sometimes_src(b),
{
    let dynamic = PadTemplate { direction: PadDirection::Src, presence: PadPresence::Sometimes };
    assert(a.templates->0@.contains(dynamic) <==> b.templates->0@.contains(dynamic));
}

/// A source is accepted exactly if its factory has a template, at any place, for a source pad
/// that appears sometimes; the link then goes to the sink pad, with the capabilities and
/// under the label that were given. Any other source is rejected by its name.
pub proof fn law_dynamic_source_is_accepted<P, C>(
    src: &SourceElement,
    sink_pad: P,
    want_caps: Option<C>,
    label: String,
    r: Result<DynamicLink<P, C>, ComposeError>,
)
    requires
        call_ensures(
            crate::compose::connect_dynamic::<P, C>,
            (src, sink_pad, want_caps, label),
            r,
        ),
    ensures
        r is Ok <==> (src.templates is Some && exists|k: int|
            0 <= k < src.templates->0@.len() && is_sometimes_src(#[trigger] src.templates->0@[k])),
        r is Ok ==> r->Ok_0 == (DynamicLink { sink_pad, want_caps, label }),
        r is Err ==> r->Err_0 == (ComposeError::NotDynamic { element: src.name }),
{
    if exists|k: int|
        src.templates is Some && 0 <= k < src.templates->0@.len() && is_sometimes_src(
            #[trigger] src.templates->0@[k],
        ) {
        let k = choose|k: int|
            src.templates is Some && 0 <= k < src.templates->0@.len() && is_sometimes_src(
                #[trigger] src.templates->0@[k],
            );
        law_one_sometimes_src_is_enough(*src, k);
    } else {
        law_without_sometimes_src_none(*src);
    }
}

/// The question about the templates is answered as the link decides.
pub proof fn law_dynamic_source_is_recognised(src: &SourceElement, r: bool)
    requires
        call_ensures(crate::compose::emits_sometimes_src_pad, (src,), r),
    ensures
        r <==> (src.templates is Some && exists|k: int|
            0 <= k < src.templates->0@.len() && is_sometimes_src(#[trigger] src.templates->0@[k])),
{
    if exists|k: int|
        src.templates is Some && 0 <= k < src.templates->0@.len() && is_sometimes_src(
            #[trigger] src.templates->0@[k],
        ) {
        let k = choose|k: int|
            src.templates is Some && 0 <= k < src.templates->0@.len() && is_sometimes_src(
                #[trigger] src.templates->0@[k],
            );
        law_one_sometimes_src_is_enough(*src, k);
    } else {
        law_without_sometimes_src_none(*src);
    }
}

/// All that can be learned about an added pad: its direction, whether its current
/// capabilities intersect the wanted ones (`None` if it has no current ones), whether those
/// that it can have do, and what an attempt to link it gives.
pub struct PadFacts {
    pub direction: PadDirection,
    pub current: Option<bool>,
    pub possible: bool,
    pub link: Result<(), String>,
}

/// Whether a pad is one that the link waits for. A pad without current capabilities is
/// judged by those that it can have.
pub open spec fn pad_matches(wants_caps: bool, pad: PadFacts) -> bool {
    &&& pad.direction == PadDirection::Src
    &&& wants_caps ==> match pad.current {
        Some(intersects) => intersects,
        None => pad.possible,
    }
}

/// What becomes of a pad: it is linked if it matches and the sink pad is free.
pub open spec fn pad_verdict(wants_caps: bool, sink_linked: bool, pad: PadFacts) -> PadVerdict {
    if pad_matches(wants_caps, pad) && !sink_linked {
        match pad.link {
            Ok(_) => PadVerdict::Linked,
            Err(cause) => PadVerdict::Failed { cause },
        }
    } else {
        PadVerdict::Ignored
    }
}

/// The answers that a pad's facts give settle its treatment, with the verdict that the facts
/// call for.
pub proof fn law_pad_verdict(wants_caps: bool, sink_linked: bool, pad: PadFacts)
    ensures
        ({
            let start = crate::compose::pad_start(wants_caps, pad.direction);
            let a = crate::compose::pad_step(start, PadEvent::Current(pad.current));
            let b = crate::compose::pad_step(a, PadEvent::Possible(pad.possible));
            let c = crate::compose::pad_step(b, PadEvent::SinkLinked(sink_linked));
            let d = crate::compose::pad_step(c, PadEvent::Linked(pad.link));
            d == (PadPhase::Done { verdict: pad_verdict(wants_caps, sink_linked, pad) })
        }),
{
}

/// Whether the sink pad is linked after these pads were added one after the other, given
/// that it was free before.
pub open spec fn sink_linked_after(wants_caps: bool, pads: Seq<PadFacts>) -> bool
    decreases pads.len(),
{
    if pads.len() == 0 {
        false
    } else {
        let before = sink_linked_after(wants_caps, pads.drop_last());
        before || pad_verdict(wants_caps, before, pads.last()) is Linked
    }
}

/// Whether a pad matches and can be linked.
pub open spec fn pad_linkable(wants_caps: bool, pad: PadFacts) -> bool {
    pad_matches(wants_caps, pad) && pad.link is Ok
}

/// Of all pads that are ever added, the link goes to the first that matches and can be
/// linked, and to no other.
pub proof fn law_first_matching_pad_is_linked(wants_caps: bool, pads: Seq<PadFacts>, i: int)
    requires
        0 <= i < pads.len(),
    ensures
        (pad_verdict(wants_caps, sink_linked_after(wants_caps, pads.take(i)), pads[i]) is Linked)
            <==> (pad_linkable(wants_caps, pads[i]) && forall|j: int|
            0 <= j < i ==> !pad_linkable(wants_caps, #[trigger] pads[j])),
{
    lemma_sink_linked(wants_caps, pads.take(i));
    let before = pads.take(i);
    assert(forall|j: int| 0 <= j < i ==> before[j] == pads[j]);
    if exists|j: int| 0 <= j < before.len() && pad_linkable(wants_caps, before[j]) {
        let j = choose|j: int| 0 <= j < before.len() && pad_linkable(wants_caps, before[j]);
        assert(pad_linkable(wants_caps, pads[j]));
    }
    if exists|j: int| 0 <= j < i && pad_linkable(wants_caps, pads[j]) {
        let j = choose|j: int| 0 <= j < i && pad_linkable(wants_caps, pads[j]);
        assert(pad_linkable(wants_caps, before[j]));
    }
}

proof fn lemma_sink_linked(wants_caps: bool, pads: Seq<PadFacts>)
    ensures
        sink_linked_after(wants_caps, pads) <==> exists|j: int|
            0 <= j < pads.len() && pad_linkable(wants_caps, #[trigger] pads[j]),
    decreases pads.len(),
{
    if pads.len() > 0 {
        let before = pads.drop_last();
        lemma_sink_linked(wants_caps, before);
        if sink_linked_after(wants_caps, before) {
            let j = choose|j: int|
                0 <= j < before.len() && pad_linkable(wants_caps, #[trigger] before[j]);
            assert(pad_linkable(wants_caps, pads[j]));
        } else if sink_linked_after(wants_caps, pads) {
            assert(pad_linkable(wants_caps, pads[pads.len() - 1]));
        }
        if exists|j: int| 0 <= j < pads.len() && pad_linkable(wants_caps, #[trigger] pads[j]) {
            let j = choose|j: int|
                0 <= j < pads.len() && pad_linkable(wants_caps, #[trigger] pads[j]);
            if j < before.len() {
                assert(before[j] == pads[j]);
            }
        }
    }
}

/// Whether an event is an answer to what the treatment of an added pad asked its host for.
pub open spec fn pad_answers(action: PadAction, event: PadEvent) -> bool {
    match event {
        PadEvent::Current(_) => action is CompareCurrent,
        PadEvent::Possible(_) => action is ComparePossible,
        PadEvent::SinkLinked(_) => action is CheckSink,
        PadEvent::Linked(_) => action is Link,
    }
}

/// The treatment of a pad goes on with every answer to what it asked for, and with nothing
/// else.
pub proof fn law_pad_awaits_every_answer(phase: PadPhase, event: PadEvent)
    ensures
        ({
            let next = crate::compose::pad_step(phase, event);
            let answers = pad_answers(crate::compose::pad_action(phase), event);
            &&& !answers ==> next == phase
            &&& answers ==> crate::compose::pad_action(next) != crate::compose::pad_action(phase)
            &&& crate::compose::pad_action(phase) is Conclude <==> phase is Done
        }),
{
}

/// A link is asked for only if the sink pad was looked at and found free, and it is looked at
/// only once the pad's capabilities were found to intersect, where they count.
pub proof fn law_link_only_to_a_free_sink(phase: PadPhase, event: PadEvent)
    ensures
        ({
            let now = crate::compose::pad_action(phase);
            let then = crate::compose::pad_action(crate::compose::pad_step(phase, event));
            &&& (now != PadAction::Link && then == PadAction::Link) <==> (now
                == PadAction::CheckSink && event == PadEvent::SinkLinked(false))
            &&& (now != PadAction::CheckSink && then == PadAction::CheckSink) <==> ((now
                == PadAction::CompareCurrent && event == PadEvent::Current(Some(true))) || (now
                == PadAction::ComparePossible && event == PadEvent::Possible(true)))
            &&& (now != PadAction::ComparePossible && then == PadAction::ComparePossible) <==> (now
                == PadAction::CompareCurrent && event == PadEvent::Current(None))
            &&& then == PadAction::CompareCurrent ==> now == PadAction::CompareCurrent
        }),
{
}

/// How the treatment of a pad ends: with the result of the link if there was one, and with
/// nothing done if the capabilities do not intersect or the sink pad is taken.
pub proof fn law_pad_ends(phase: PadPhase, event: PadEvent)
    requires
        pad_answers(crate::compose::pad_action(phase), event),
    ensures
        ({
            let next = crate::compose::pad_step(phase, event);
            let ignored = PadPhase::Done { verdict: PadVerdict::Ignored };
            match event {
                PadEvent::Current(current) => next == ignored <==> current == Some(false),
                PadEvent::Possible(intersects) => next == ignored <==> !intersects,
                PadEvent::SinkLinked(linked) => next == ignored <==> linked,
                PadEvent::Linked(Ok(_)) => next == (PadPhase::Done {
                    verdict: PadVerdict::Linked,
                }),
                PadEvent::Linked(Err(cause)) => next == (PadPhase::Done {
                    verdict: PadVerdict::Failed { cause },
                }),
            }
        }),
{
}

/// What a host that performs what it is asked for answers.
pub open spec fn pad_answer(action: PadAction, sink_linked: bool, pad: PadFacts) -> PadEvent {
    match action {
        PadAction::CompareCurrent => PadEvent::Current(pad.current),
        PadAction::ComparePossible => PadEvent::Possible(pad.possible),
        PadAction::CheckSink => PadEvent::SinkLinked(sink_linked),
        _ => PadEvent::Linked(pad.link),
    }
}

/// How far the treatment of an added pad has come after so many answers of such a host, who
/// answers until there is nothing left to do.
pub open spec fn pad_hosted(
    wants_caps: bool,
    sink_linked: bool,
    pad: PadFacts,
    turns: nat,
) -> PadPhase
    decreases turns,
{
    if turns == 0 {
        crate::compose::pad_start(wants_caps, pad.direction)
    } else {
        let before = pad_hosted(wants_caps, sink_linked, pad, (turns - 1) as nat);
        if crate::compose::pad_action(before) is Conclude {
            before
        } else {
            crate::compose::pad_step(
                before,
                pad_answer(crate::compose::pad_action(before), sink_linked, pad),
            )
        }
    }
}

/// What a host is asked for, at any time: to compare capabilities only of a source pad where
/// some are wanted, and possible ones only of a pad that has no current ones; to look at the
/// sink pad only for a pad that matches; to link only such a pad to a sink pad that is free,
/// and only right after looking. When there is nothing left to do the verdict is the one
/// that the facts call for.
pub proof fn law_pad_asks(wants_caps: bool, sink_linked: bool, pad: PadFacts, turns: nat)
    ensures
        ({
            let now = pad_hosted(wants_caps, sink_linked, pad, turns);
            match crate::compose::pad_action(now) {
                PadAction::CompareCurrent => {
                    &&& turns == 0
                    &&& pad.direction is Src
                    &&& wants_caps
                },
                PadAction::ComparePossible => {
                    &&& turns == 1
                    &&& pad.direction is Src
                    &&& wants_caps
                    &&& pad.current is None
                },
                PadAction::CheckSink => turns <= 2 && pad_matches(wants_caps, pad),
                PadAction::Link => {
                    &&& 0 < turns <= 3
                    &&& pad_matches(wants_caps, pad)
                    &&& !sink_linked
                    &&& crate::compose::pad_action(
                        pad_hosted(wants_caps, sink_linked, pad, (turns - 1) as nat),
                    ) == PadAction::CheckSink
                },
                PadAction::Conclude => now == (PadPhase::Done {
                    verdict: pad_verdict(wants_caps, sink_linked, pad),
                }),
            }
        }),
    decreases turns,
{
    if turns > 0 {
        law_pad_asks(wants_caps, sink_linked, pad, (turns - 1) as nat);
    }
}

/// Four answers at most settle the treatment of a pad, with the verdict that the facts call
/// for: a source pad whose capabilities are wanted is linked if the sink pad is free, the
/// link's failure is told, and any other pad is left alone.
pub proof fn law_pad_hosted(wants_caps: bool, sink_linked: bool, pad: PadFacts)
    ensures
        ({
            let end = pad_hosted(wants_caps, sink_linked, pad, 4);
            let wanted = pad.direction is Src && (!wants_caps || pad.current == Some(true) || (
            pad.current is None && pad.possible));
            &&& end is Done
            &&& end->verdict is Linked <==> wanted && !sink_linked && pad.link is Ok
            &&& end->verdict is Failed <==> wanted && !sink_linked && pad.link is Err
            &&& end->verdict is Failed ==> end->verdict->cause == pad.link->Err_0
            &&& end->verdict is Ignored <==> !wanted || sink_linked
        }),
{
    law_pad_asks(wants_caps, sink_linked, pad, 4);
}

/// Of all pads that are ever added to a source, the host links the first that matches and can
/// be linked, and no other; a pad that comes later is left alone.
pub proof fn law_host_links_first_matching_pad(wants_caps: bool, pads: Seq<PadFacts>, i: int)
    requires
        0 <= i < pads.len(),
    ensures
        ({
            let end = pad_hosted(
                wants_caps,
                sink_linked_after(wants_caps, pads.take(i)),
                pads[i],
                4,
            );
            &&& end == (PadPhase::Done { verdict: PadVerdict::Linked }) <==> (pad_linkable(
                wants_caps,
                pads[i],
            ) && forall|j: int| 0 <= j < i ==> !pad_linkable(wants_caps, #[trigger] pads[j]))
            &&& (exists|j: int| 0 <= j < i && pad_linkable(wants_caps, #[trigger] pads[j])) ==> end
                == (PadPhase::Done { verdict: PadVerdict::Ignored })
        }),
{
    law_pad_hosted(wants_caps, sink_linked_after(wants_caps, pads.take(i)), pads[i]);
    law_pad_asks(wants_caps, sink_linked_after(wants_caps, pads.take(i)), pads[i], 4);
    law_first_matching_pad_is_linked(wants_caps, pads, i);
    lemma_sink_linked(wants_caps, pads.take(i));
    if exists|j: int| 0 <= j < i && pad_linkable(wants_caps, #[trigger] pads[j]) {
        let j = choose|j: int| 0 <= j < i && pad_linkable(wants_caps, #[trigger] pads[j]);
        assert(pads.take(i)[j] == pads[j]);
        assert(pad_linkable(wants_caps, pads.take(i)[j]));
    }
}

/// The operations on an added pad do what is said here of such pads; capabilities count where
/// the link was made with some.
pub proof fn law_pad_operations<P, C>(link: &DynamicLink<P, C>)
    ensures
        forall|direction: PadDirection, phase: PadPhase| #[trigger]
            call_ensures(DynamicLink::<P, C>::pad_added, (link, direction), phase) ==> phase
                == crate::compose::pad_start(link.want_caps is Some, direction),
        forall|phase: PadPhase, event: PadEvent, next: PadPhase| #[trigger]
            call_ensures(PadPhase::step, (phase, event), next) ==> next == crate::compose::pad_step(
                phase,
                event,
            ),
        forall|phase: &PadPhase, action: PadAction| #[trigger]
            call_ensures(PadPhase::action, (phase,), action) ==> action
                == crate::compose::pad_action(*phase),
        forall|cause: &str, r: String| #[trigger]
            call_ensures(DynamicLink::<P, C>::link_failure, (link, cause), r) ==> r@
                == "failed to link dynamic pad for "@ + link.label@ + ": "@ + cause@,
{
}

/// The full account of an error begins with its message.
pub proof fn law_message_comes_first(error: ComposeError)
    ensures
        error.text().is_prefix_of(error.full_text()),
{
    assert(error.full_text().subrange(0, error.text().len() as int) =~= error.text());
}

}
