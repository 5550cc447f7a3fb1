//! What a finished run holds: the stretches of its parts, in whatever stands around them.
use vstd::prelude::*;

use crate::aws::AwsSweepTargetView;
use crate::duties::failure_brings;
use crate::question;
use crate::question::QuestionView;
use crate::runs::{happened, law_steps_run_in_order, run, some_of, Event};
use crate::script::{for_each_spec, ActionView, ReplyView, RuleView, ScriptView, StepView};
use crate::settings::Config;
use crate::sweep::for_each_target_spec;

verus! {

// ---------------------------------------------------------------------------------------------
// Stretches
// ---------------------------------------------------------------------------------------------
/// Whether some events in a row are of a kind.
pub open spec fn has_stretch(events: Seq<Event>, kind: spec_fn(Seq<Event>) -> bool) -> bool {
    exists|i: int, j: int|
        0 <= i <= j <= events.len() && kind(#[trigger] events.subrange(i, j))
}

/// Whether the events of a script that comes to its end are of a kind, whatever the replies are.
pub open spec fn finishes(
    cfg: Config,
    s: ScriptView,
    kind: spec_fn(Seq<Event>) -> bool,
) -> bool {
    forall|replies: Seq<ReplyView>|
        (#[trigger] run(cfg, s.steps, replies)).left is Some ==> kind(
            run(cfg, s.steps, replies).events,
        )
}

/// Whether a script that comes to its end has a stretch of a kind, whatever the replies are.
pub open spec fn holds(cfg: Config, s: ScriptView, kind: spec_fn(Seq<Event>) -> bool) -> bool {
    forall|replies: Seq<ReplyView>|
        (#[trigger] run(cfg, s.steps, replies)).left is Some ==> has_stretch(
            run(cfg, s.steps, replies).events,
            kind,
        )
}

proof fn stretch_stays(
    a: Seq<Event>,
    b: Seq<Event>,
    c: Seq<Event>,
    kind: spec_fn(Seq<Event>) -> bool,
)
    requires
        has_stretch(b, kind),
    ensures
        has_stretch(a + b + c, kind),
{
    let (i, j) = choose|i: int, j: int| 0 <= i <= j <= b.len() && kind(#[trigger] b.subrange(i, j));
    let all = a + b + c;
    assert(all.subrange(a.len() + i, a.len() + j) =~= b.subrange(i, j));
}

/// The whole run is a stretch of it.
pub proof fn holds_whole(cfg: Config, s: ScriptView, kind: spec_fn(Seq<Event>) -> bool)
    requires
        finishes(cfg, s, kind),
    ensures
        holds(cfg, s, kind),
{
    assert forall|replies: Seq<ReplyView>|
        (#[trigger] run(cfg, s.steps, replies)).left is Some implies has_stretch(
        run(cfg, s.steps, replies).events,
        kind,
    ) by {
        let events = run(cfg, s.steps, replies).events;
        assert(events.subrange(0, events.len() as int) =~= events);
    }
}

proof fn holds_concat(
    cfg: Config,
    s: Seq<StepView>,
    t: Seq<StepView>,
    kind: spec_fn(Seq<Event>) -> bool,
)
    requires
        holds(cfg, ScriptView { steps: s }, kind) || holds(cfg, ScriptView { steps: t }, kind),
    ensures
        holds(cfg, ScriptView { steps: s + t }, kind),
{
    assert forall|replies: Seq<ReplyView>|
        (#[trigger] run(cfg, s + t, replies)).left is Some implies has_stretch(
        run(cfg, s + t, replies).events,
        kind,
    ) by {
        law_steps_run_in_order(cfg, s, t, replies);
        let a = run(cfg, s, replies);
        let left = a.left->0;
        let b = run(cfg, t, left);
        let none = Seq::<Event>::empty();
        if holds(cfg, ScriptView { steps: s }, kind) {
            stretch_stays(none, a.events, b.events, kind);
            assert(none + a.events + b.events =~= a.events + b.events);
        } else {
            stretch_stays(a.events, b.events, none, kind);
            assert(a.events + b.events + none =~= a.events + b.events);
        }
    }
}

/// One script after the other.
pub broadcast proof fn holds_join(
    cfg: Config,
    s: ScriptView,
    t: ScriptView,
    kind: spec_fn(Seq<Event>) -> bool,
)
    requires
        holds(cfg, s, kind) || holds(cfg, t, kind),
    ensures
        #[trigger] holds(cfg, s.join(t), kind),
{
    holds_concat(cfg, s.steps, t.steps, kind);
}

/// A line after the script.
pub broadcast proof fn holds_say(
    cfg: Config,
    s: ScriptView,
    text: Seq<char>,
    kind: spec_fn(Seq<Event>) -> bool,
)
    requires
        holds(cfg, s, kind),
    ensures
        #[trigger] holds(cfg, s.say(text), kind),
{
    assert(s.say(text).steps =~= s.steps + seq![StepView::Say(text)]);
    holds_concat(cfg, s.steps, seq![StepView::Say(text)], kind);
}

/// An action after the script.
pub broadcast proof fn holds_perform(
    cfg: Config,
    s: ScriptView,
    action: ActionView,
    rule: RuleView,
    kind: spec_fn(Seq<Event>) -> bool,
)
    requires
        holds(cfg, s, kind),
    ensures
        #[trigger] holds(cfg, s.perform(action, rule), kind),
{
    assert(s.perform(action, rule).steps =~= s.steps + seq![StepView::Do(action, rule)]);
    holds_concat(cfg, s.steps, seq![StepView::Do(action, rule)], kind);
}

/// A question after the script.
pub broadcast proof fn holds_ask(
    cfg: Config,
    s: ScriptView,
    q: QuestionView,
    kind: spec_fn(Seq<Event>) -> bool,
)
    requires
        holds(cfg, s, kind) || holds(cfg, ScriptView::new().ask(q), kind),
    ensures
        #[trigger] holds(cfg, s.ask(q), kind),
{
    assert(s.ask(q).steps =~= s.steps + seq![StepView::Ask(q)]);
    assert(ScriptView::new().ask(q).steps =~= seq![StepView::Ask(q)]);
    holds_concat(cfg, s.steps, seq![StepView::Ask(q)], kind);
}

pub broadcast group group_holds {
    holds_join,
    holds_say,
    holds_perform,
    holds_ask,
}

/// The script of one item of a list.
pub proof fn holds_each(
    cfg: Config,
    items: Seq<Seq<char>>,
    one: spec_fn(Seq<char>) -> ScriptView,
    kind: spec_fn(Seq<Event>) -> bool,
    item: Seq<char>,
)
    requires
        items.contains(item),
        holds(cfg, one(item), kind),
    ensures
        holds(cfg, for_each_spec(items, one), kind),
    decreases items.len(),
{
    if item != items.last() {
        let i = choose|i: int| 0 <= i < items.len() && items[i] == item;
        assert(items.drop_last()[i] == item);
        holds_each(cfg, items.drop_last(), one, kind, item);
    }
    holds_join(cfg, for_each_spec(items.drop_last(), one), one(items.last()), kind);
}

/// The script of one sweep target.
pub proof fn holds_each_target(
    cfg: Config,
    targets: Seq<AwsSweepTargetView>,
    one: spec_fn(AwsSweepTargetView) -> ScriptView,
    kind: spec_fn(Seq<Event>) -> bool,
    target: AwsSweepTargetView,
)
    requires
        targets.contains(target),
        holds(cfg, one(target), kind),
    ensures
        holds(cfg, for_each_target_spec(targets, one), kind),
    decreases targets.len(),
{
    if target != targets.last() {
        let i = choose|i: int| 0 <= i < targets.len() && targets[i] == target;
        assert(targets.drop_last()[i] == target);
        holds_each_target(cfg, targets.drop_last(), one, kind, target);
    }
    holds_join(cfg, for_each_target_spec(targets.drop_last(), one), one(targets.last()), kind);
}

// ---------------------------------------------------------------------------------------------
// Questions
// ---------------------------------------------------------------------------------------------
/// That an action is performed first, and that what follows is as its reply asks.
pub open spec fn answered(
    action: ActionView,
    rest: spec_fn(ReplyView, Seq<Event>) -> bool,
) -> spec_fn(Seq<Event>) -> bool {
    |events: Seq<Event>|
        events.len() > 0 && match events[0] {
            Event::Performed(a, reply) => a == action && rest(reply, events.skip(1)),
            _ => false,
        }
}

/// A question whose every answer is as its reply asks.
pub proof fn question_is_answered(
    cfg: Config,
    q: QuestionView,
    rest: spec_fn(ReplyView, Seq<Event>) -> bool,
)
    requires
        forall|reply: ReplyView|
            finishes(
                cfg,
                #[trigger] question::answer_spec(cfg, q, reply),
                |events: Seq<Event>| rest(reply, events),
            ),
    ensures
        finishes(cfg, ScriptView::new().ask(q), answered(question::action_spec(cfg, q), rest)),
        holds(cfg, ScriptView::new().ask(q), answered(question::action_spec(cfg, q), rest)),
{
    let one = ScriptView::new().ask(q);
    let kind = answered(question::action_spec(cfg, q), rest);
    assert forall|replies: Seq<ReplyView>|
        (#[trigger] run(cfg, one.steps, replies)).left is Some implies kind(
        run(cfg, one.steps, replies).events,
    ) by {
        let s = question::answer_spec(cfg, q, replies[0]);
        let asked = |events: Seq<Event>| rest(replies[0], events);
        assert(one.steps =~= seq![StepView::Ask(q)]);
        assert(s.steps + one.steps.skip(1) =~= s.steps);
        let r = run(cfg, s.steps, replies.skip(1));
        assert(finishes(cfg, s, asked));
        assert(asked(r.events));
        assert(run(cfg, one.steps, replies).events.skip(1) =~= r.events);
    }
    holds_whole(cfg, one, kind);
}

/// A question all of whose answers have a stretch of a kind.
pub proof fn holds_question(cfg: Config, q: QuestionView, kind: spec_fn(Seq<Event>) -> bool)
    requires
        forall|reply: ReplyView| holds(cfg, #[trigger] question::answer_spec(cfg, q, reply), kind),
    ensures
        holds(cfg, ScriptView::new().ask(q), kind),
{
    let one = ScriptView::new().ask(q);
    assert forall|replies: Seq<ReplyView>|
        (#[trigger] run(cfg, one.steps, replies)).left is Some implies has_stretch(
        run(cfg, one.steps, replies).events,
        kind,
    ) by {
        let s = question::answer_spec(cfg, q, replies[0]);
        assert(one.steps =~= seq![StepView::Ask(q)]);
        assert(s.steps + one.steps.skip(1) =~= s.steps);
        let r = run(cfg, s.steps, replies.skip(1));
        assert(holds(cfg, s, kind));
        let asked = seq![Event::Performed(question::action_spec(cfg, q), replies[0])];
        stretch_stays(asked, r.events, Seq::empty(), kind);
        assert(run(cfg, one.steps, replies).events =~= asked + r.events + Seq::<Event>::empty());
    }
}

/// A script that ends the run comes to no end of its own.
pub proof fn failing_holds(cfg: Config, s: ScriptView, kind: spec_fn(Seq<Event>) -> bool)
    requires
        some_of(s, |step: StepView| step is Fail),
    ensures
        holds(cfg, s, kind),
        finishes(cfg, s, kind),
{
    let none = |e: Event| false;
    failure_brings(cfg, s, none);
    assert forall|replies: Seq<ReplyView>|
        (#[trigger] run(cfg, s.steps, replies)).left is Some implies false by {
        assert(happened(run(cfg, s.steps, replies).events, none));
    }
}

} // verus!
