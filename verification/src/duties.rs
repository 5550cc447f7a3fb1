//! What follows what in a run, and why a run fails.
use vstd::prelude::*;

use crate::question;
use crate::question::QuestionView;
use crate::runs::{
    all_of, all_steps, brings, group_some_of, guards, happened, law_steps_run_in_order,
    lemma_left_is_shorter, owed_brings, owes, performs, precedes, run, some_of, supplies, Event,
    Run,
};
use crate::script::{ActionView, CommandView, ReplyView, RuleView, ScriptView, StepView};
use crate::session::judge_spec;
use crate::settings::Config;

verus! {

// ---------------------------------------------------------------------------------------------
// What follows an event
// ---------------------------------------------------------------------------------------------
/// Whether after each event of a kind the rest of the run is as it should be. What should be is said
/// of the events after it, and of whether the run came to its end.
pub open spec fn led(
    r: Run,
    trigger: spec_fn(Event) -> bool,
    rest: spec_fn(Seq<Event>, bool) -> bool,
) -> bool {
    forall|i: int|
        0 <= i < r.events.len() && trigger(#[trigger] r.events[i]) ==> rest(
            r.events.skip(i + 1),
            r.left is Some,
        )
}

/// Whether after each event of a kind the rest of the run is as it should be, whatever the replies
/// are.
pub open spec fn leads(
    cfg: Config,
    todo: Seq<StepView>,
    trigger: spec_fn(Event) -> bool,
    rest: spec_fn(Seq<Event>, bool) -> bool,
) -> bool {
    forall|replies: Seq<ReplyView>| led(#[trigger] run(cfg, todo, replies), trigger, rest)
}

/// Whether the whole run is as it should be, whatever the replies are.
pub open spec fn does(
    cfg: Config,
    todo: Seq<StepView>,
    rest: spec_fn(Seq<Event>, bool) -> bool,
) -> bool {
    forall|replies: Seq<ReplyView>|
        rest((#[trigger] run(cfg, todo, replies)).events, run(cfg, todo, replies).left is Some)
}

/// Whether what should be stays so, whatever else happens once it has come to its end.
pub open spec fn lasting(rest: spec_fn(Seq<Event>, bool) -> bool) -> bool {
    forall|a: Seq<Event>, b: Seq<Event>, end: bool|
        rest(a, true) ==> #[trigger] rest(a + b, end)
}

/// What should be of a duty: it is done before any action of a kind, and in any case before the end.
pub open spec fn duty(
    done: spec_fn(Event) -> bool,
    stop: spec_fn(ActionView) -> bool,
) -> spec_fn(Seq<Event>, bool) -> bool {
    |events: Seq<Event>, end: bool|
        precedes(events, done, stop) && (end ==> happened(events, done))
}

/// What should be of a duty stays so.
pub proof fn duty_is_lasting(done: spec_fn(Event) -> bool, stop: spec_fn(ActionView) -> bool)
    ensures
        lasting(duty(done, stop)),
{
    let rest = duty(done, stop);
    assert forall|a: Seq<Event>, b: Seq<Event>, end: bool| rest(a, true) implies #[trigger] rest(
        a + b,
        end,
    ) by {
        let both = a + b;
        let k = choose|k: int| 0 <= k < a.len() && done(#[trigger] a[k]);
        assert(both[k] == a[k]);
        assert forall|i: int| 0 <= i < both.len() && performs(#[trigger] both[i], stop) implies happened(
            both.take(i),
            done,
        ) by {
            if i < a.len() {
                assert(both[i] == a[i]);
                assert(both.take(i) =~= a.take(i));
            } else {
                assert(both.take(i)[k] == a[k]);
            }
        }
    }
}

/// A script that brings a duty, and does it before any action of a kind, does the duty.
pub proof fn duty_is_done(
    cfg: Config,
    todo: Seq<StepView>,
    done: spec_fn(Event) -> bool,
    stop: spec_fn(ActionView) -> bool,
)
    requires
        brings(cfg, todo, done),
        guards(cfg, todo, done, stop),
    ensures
        does(cfg, todo, duty(done, stop)),
{
}

proof fn led_concat(
    a: Run,
    b: Run,
    trigger: spec_fn(Event) -> bool,
    rest: spec_fn(Seq<Event>, bool) -> bool,
)
    requires
        a.left is Some,
        lasting(rest),
        led(a, trigger, rest),
        led(b, trigger, rest),
    ensures
        led(Run { events: a.events + b.events, left: b.left }, trigger, rest),
{
    let both = Run { events: a.events + b.events, left: b.left };
    assert forall|i: int| 0 <= i < both.events.len() && trigger(#[trigger] both.events[i]) implies rest(
        both.events.skip(i + 1),
        both.left is Some,
    ) by {
        if i < a.events.len() {
            assert(both.events[i] == a.events[i]);
            assert(both.events.skip(i + 1) =~= a.events.skip(i + 1) + b.events);
            assert(rest(a.events.skip(i + 1), true));
        } else {
            let j = i - a.events.len();
            assert(both.events[i] == b.events[j]);
            assert(both.events.skip(i + 1) =~= b.events.skip(j + 1));
        }
    }
}

/// One list of steps after the other.
pub proof fn leads_concat(
    cfg: Config,
    s: Seq<StepView>,
    t: Seq<StepView>,
    trigger: spec_fn(Event) -> bool,
    rest: spec_fn(Seq<Event>, bool) -> bool,
)
    requires
        lasting(rest),
        leads(cfg, s, trigger, rest),
        leads(cfg, t, trigger, rest),
    ensures
        leads(cfg, s + t, trigger, rest),
{
    assert forall|replies: Seq<ReplyView>| led(#[trigger] run(cfg, s + t, replies), trigger, rest) by {
        law_steps_run_in_order(cfg, s, t, replies);
        let a = run(cfg, s, replies);
        assert(led(a, trigger, rest));
        if let Some(left) = a.left {
            assert(led(run(cfg, t, left), trigger, rest));
            led_concat(a, run(cfg, t, left), trigger, rest);
        }
    }
}

proof fn led_after(
    r: Run,
    e: Event,
    trigger: spec_fn(Event) -> bool,
    rest: spec_fn(Seq<Event>, bool) -> bool,
)
    requires
        led(r, trigger, rest),
        trigger(e) ==> rest(r.events, r.left is Some),
    ensures
        led(r.after(e), trigger, rest),
{
    let all = r.after(e);
    assert forall|i: int| 0 <= i < all.events.len() && trigger(#[trigger] all.events[i]) implies rest(
        all.events.skip(i + 1),
        all.left is Some,
    ) by {
        if i == 0 {
            assert(all.events.skip(1) =~= r.events);
        } else {
            assert(all.events[i] == r.events[i - 1]);
            assert(all.events.skip(i + 1) =~= r.events.skip(i));
        }
    }
}

/// A question after whose reply all is as it should be.
pub proof fn leads_question(
    cfg: Config,
    q: QuestionView,
    trigger: spec_fn(Event) -> bool,
    rest: spec_fn(Seq<Event>, bool) -> bool,
)
    requires
        forall|reply: ReplyView|
            leads(cfg, (#[trigger] question::answer_spec(cfg, q, reply)).steps, trigger, rest),
        forall|reply: ReplyView|
            trigger(Event::Performed(question::action_spec(cfg, q), reply)) ==> does(
                cfg,
                (#[trigger] question::answer_spec(cfg, q, reply)).steps,
                rest,
            ),
    ensures
        leads(cfg, seq![StepView::Ask(q)], trigger, rest),
{
    let one = seq![StepView::Ask(q)];
    assert forall|replies: Seq<ReplyView>| led(#[trigger] run(cfg, one, replies), trigger, rest) by {
        if replies.len() > 0 {
            let s = question::answer_spec(cfg, q, replies[0]);
            assert(s.steps + one.skip(1) =~= s.steps);
            let r = run(cfg, s.steps, replies.skip(1));
            assert(leads(cfg, s.steps, trigger, rest));
            assert(led(r, trigger, rest));
            led_after(
                r,
                Event::Performed(question::action_spec(cfg, q), replies[0]),
                trigger,
                rest,
            );
        }
    }
}

/// Whether steps of a kind lead to steps of that kind alone, none of which is an event of another
/// kind but for the questions after which all is as it should be.
pub open spec fn dutiful(
    cfg: Config,
    kind: spec_fn(StepView) -> bool,
    trigger: spec_fn(Event) -> bool,
    rest: spec_fn(Seq<Event>, bool) -> bool,
) -> bool {
    &&& forall|e: Event| #[trigger] trigger(e) ==> e is Performed
    &&& forall|failure: crate::failure::FailureView| (#[trigger] kind(StepView::Fail(failure)))
    &&& forall|text: Seq<char>| (#[trigger] kind(StepView::Report(text)))
    &&& forall|a: ActionView, rule: RuleView, reply: ReplyView|
        #![trigger kind(StepView::Do(a, rule)), trigger(Event::Performed(a, reply))]
        kind(StepView::Do(a, rule)) ==> !trigger(Event::Performed(a, reply))
    &&& forall|q: QuestionView|
        (#[trigger] kind(StepView::Ask(q))) ==> {
            ||| leads(cfg, seq![StepView::Ask(q)], trigger, rest)
            ||| forall|reply: ReplyView|
                !trigger(Event::Performed(question::action_spec(cfg, q), reply)) && all_of(
                    #[trigger] question::answer_spec(cfg, q, reply),
                    kind,
                )
        }
}

proof fn all_concat(s: Seq<StepView>, t: Seq<StepView>, kind: spec_fn(StepView) -> bool)
    requires
        all_steps(s, kind),
        all_steps(t, kind),
    ensures
        all_steps(s + t, kind),
{
}

proof fn dutiful_run(
    cfg: Config,
    kind: spec_fn(StepView) -> bool,
    trigger: spec_fn(Event) -> bool,
    rest: spec_fn(Seq<Event>, bool) -> bool,
    todo: Seq<StepView>,
    replies: Seq<ReplyView>,
)
    requires
        lasting(rest),
        dutiful(cfg, kind, trigger, rest),
        all_steps(todo, kind),
    ensures
        led(run(cfg, todo, replies), trigger, rest),
    decreases replies.len(), todo.len(),
{
    if todo.len() > 0 {
        let later = todo.skip(1);
        assert(all_steps(later, kind)) by {
            assert forall|i: int| 0 <= i < later.len() implies kind(#[trigger] later[i]) by {
                assert(later[i] == todo[i + 1]);
            }
        }
        assert(kind(todo[0]));
        match todo[0] {
            StepView::Say(text) => {
                dutiful_run(cfg, kind, trigger, rest, later, replies);
                assert(!trigger(Event::Said(text)));
                led_after(run(cfg, later, replies), Event::Said(text), trigger, rest);
            },
            StepView::Report(text) => {
                dutiful_run(cfg, kind, trigger, rest, later, replies);
                assert(!trigger(Event::Reported(text)));
                led_after(run(cfg, later, replies), Event::Reported(text), trigger, rest);
            },
            StepView::Fail(failure) => {
                assert(!trigger(Event::Failed(failure)));
            },
            StepView::Do(a, rule) => {
                if replies.len() > 0 {
                    let more = judge_spec(a, rule, replies[0]).steps;
                    all_concat(more, later, kind);
                    dutiful_run(cfg, kind, trigger, rest, more + later, replies.skip(1));
                    assert(!trigger(Event::Performed(a, replies[0])));
                    led_after(
                        run(cfg, more + later, replies.skip(1)),
                        Event::Performed(a, replies[0]),
                        trigger,
                        rest,
                    );
                }
            },
            StepView::Ask(q) => {
                if replies.len() > 0 {
                    let one = seq![StepView::Ask(q)];
                    if leads(cfg, one, trigger, rest) {
                        assert(todo =~= one + later);
                        law_steps_run_in_order(cfg, one, later, replies);
                        lemma_left_is_shorter(cfg, one, replies);
                        let a = run(cfg, one, replies);
                        assert(led(a, trigger, rest));
                        if let Some(left) = a.left {
                            dutiful_run(cfg, kind, trigger, rest, later, left);
                            led_concat(a, run(cfg, later, left), trigger, rest);
                        }
                    } else {
                        let s = question::answer_spec(cfg, q, replies[0]);
                        assert(all_of(s, kind));
                        all_concat(s.steps, later, kind);
                        dutiful_run(cfg, kind, trigger, rest, s.steps + later, replies.skip(1));
                        led_after(
                            run(cfg, s.steps + later, replies.skip(1)),
                            Event::Performed(question::action_spec(cfg, q), replies[0]),
                            trigger,
                            rest,
                        );
                    }
                }
            },
        }
    }
}

/// After steps of a dutiful kind all is as it should be.
pub proof fn dutiful_leads(
    cfg: Config,
    kind: spec_fn(StepView) -> bool,
    trigger: spec_fn(Event) -> bool,
    rest: spec_fn(Seq<Event>, bool) -> bool,
    todo: Seq<StepView>,
)
    requires
        lasting(rest),
        dutiful(cfg, kind, trigger, rest),
        all_steps(todo, kind),
    ensures
        leads(cfg, todo, trigger, rest),
{
    assert forall|replies: Seq<ReplyView>| led(#[trigger] run(cfg, todo, replies), trigger, rest) by {
        dutiful_run(cfg, kind, trigger, rest, todo, replies);
    }
}

/// What a list of steps does stays done where others follow.
pub proof fn does_concat(
    cfg: Config,
    s: Seq<StepView>,
    t: Seq<StepView>,
    rest: spec_fn(Seq<Event>, bool) -> bool,
)
    requires
        lasting(rest),
        does(cfg, s, rest),
    ensures
        does(cfg, s + t, rest),
{
    assert forall|replies: Seq<ReplyView>|
        rest(
            (#[trigger] run(cfg, s + t, replies)).events,
            run(cfg, s + t, replies).left is Some,
        ) by {
        law_steps_run_in_order(cfg, s, t, replies);
        let a = run(cfg, s, replies);
        assert(rest(a.events, a.left is Some));
        if let Some(left) = a.left {
            assert(rest(a.events + run(cfg, t, left).events, run(cfg, t, left).left is Some));
        }
    }
}

/// Whether an event is the first of a kind.
pub open spec fn first_at(events: Seq<Event>, j: int, mark: spec_fn(Event) -> bool) -> bool {
    &&& 0 <= j < events.len()
    &&& mark(events[j])
    &&& forall|k: int| 0 <= k < j ==> !mark(#[trigger] events[k])
}

/// What should be of an event and of what follows the first of its kind: it comes before any action
/// of another kind, and in any case before the end.
pub open spec fn next(
    mark: spec_fn(Event) -> bool,
    stop: spec_fn(ActionView) -> bool,
    rest: spec_fn(Event, Seq<Event>, bool) -> bool,
) -> spec_fn(Seq<Event>, bool) -> bool {
    |events: Seq<Event>, end: bool|
        duty(mark, stop)(events, end) && forall|j: int| #[trigger]
            first_at(events, j, mark) ==> rest(events[j], events.skip(j + 1), end)
}

/// What should be of an event and of what follows it stays so.
pub proof fn next_is_lasting(
    mark: spec_fn(Event) -> bool,
    stop: spec_fn(ActionView) -> bool,
    rest: spec_fn(Event, Seq<Event>, bool) -> bool,
)
    requires
        forall|e: Event, a: Seq<Event>, b: Seq<Event>, end: bool|
            #![trigger rest(e, a + b, end)]
            rest(e, a, true) ==> rest(e, a + b, end),
    ensures
        lasting(next(mark, stop, rest)),
{
    let all = next(mark, stop, rest);
    duty_is_lasting(mark, stop);
    assert forall|a: Seq<Event>, b: Seq<Event>, end: bool| all(a, true) implies #[trigger] all(
        a + b,
        end,
    ) by {
        let both = a + b;
        assert(duty(mark, stop)(both, end));
        let k = choose|k: int| 0 <= k < a.len() && mark(#[trigger] a[k]);
        assert forall|j: int| #[trigger] first_at(both, j, mark) implies rest(
            both[j],
            both.skip(j + 1),
            end,
        ) by {
            if j > k {
                assert(!mark(both[k]));
            }
            assert(both[j] == a[j]);
            assert(first_at(a, j, mark)) by {
                assert forall|i: int| 0 <= i < j implies !mark(#[trigger] a[i]) by {
                    assert(both[i] == a[i]);
                }
            }
            assert(both.skip(j + 1) =~= a.skip(j + 1) + b);
        }
    }
}

/// A question that is the event itself.
pub proof fn next_is_asked(
    cfg: Config,
    q: QuestionView,
    mark: spec_fn(Event) -> bool,
    stop: spec_fn(ActionView) -> bool,
    rest: spec_fn(Event, Seq<Event>, bool) -> bool,
)
    requires
        !stop(question::action_spec(cfg, q)),
        forall|reply: ReplyView|
            #![trigger question::answer_spec(cfg, q, reply)]
            mark(Event::Performed(question::action_spec(cfg, q), reply)) && does(
                cfg,
                question::answer_spec(cfg, q, reply).steps,
                |events: Seq<Event>, end: bool|
                    rest(Event::Performed(question::action_spec(cfg, q), reply), events, end),
            ),
    ensures
        does(cfg, seq![StepView::Ask(q)], next(mark, stop, rest)),
{
    let one = seq![StepView::Ask(q)];
    let all = next(mark, stop, rest);
    assert forall|replies: Seq<ReplyView>|
        all((#[trigger] run(cfg, one, replies)).events, run(cfg, one, replies).left is Some) by {
        let events = run(cfg, one, replies).events;
        let end = run(cfg, one, replies).left is Some;
        if replies.len() > 0 {
            let s = question::answer_spec(cfg, q, replies[0]);
            let e = Event::Performed(question::action_spec(cfg, q), replies[0]);
            assert(s.steps + one.skip(1) =~= s.steps);
            let r = run(cfg, s.steps, replies.skip(1));
            assert(mark(e));
            let follow = |later: Seq<Event>, over: bool| rest(e, later, over);
            assert(does(cfg, s.steps, follow));
            assert(follow(r.events, r.left is Some));
            assert(events[0] == e);
            assert(events.skip(1) =~= r.events);
            assert forall|i: int| 0 <= i < events.len() && performs(#[trigger] events[i], stop) implies happened(
                events.take(i),
                mark,
            ) by {
                assert(i > 0);
                assert(events.take(i)[0] == e);
            }
            assert forall|j: int| #[trigger] first_at(events, j, mark) implies rest(
                events[j],
                events.skip(j + 1),
                end,
            ) by {
                if j > 0 {
                    assert(!mark(events[0]));
                }
            }
        }
    }
}

/// A line is no such event.
pub proof fn next_after_line(
    cfg: Config,
    text: Seq<char>,
    todo: Seq<StepView>,
    mark: spec_fn(Event) -> bool,
    stop: spec_fn(ActionView) -> bool,
    rest: spec_fn(Event, Seq<Event>, bool) -> bool,
)
    requires
        !mark(Event::Said(text)),
        does(cfg, todo, next(mark, stop, rest)),
    ensures
        does(cfg, seq![StepView::Say(text)] + todo, next(mark, stop, rest)),
{
    let all = next(mark, stop, rest);
    let whole = seq![StepView::Say(text)] + todo;
    assert forall|replies: Seq<ReplyView>|
        all((#[trigger] run(cfg, whole, replies)).events, run(cfg, whole, replies).left is Some) by {
        assert(whole.skip(1) =~= todo);
        let r = run(cfg, todo, replies);
        let events = run(cfg, whole, replies).events;
        let end = r.left is Some;
        assert(all(r.events, end));
        assert(events =~= seq![Event::Said(text)] + r.events);
        assert forall|i: int| 0 <= i < events.len() && performs(#[trigger] events[i], stop) implies happened(
            events.take(i),
            mark,
        ) by {
            assert(i > 0);
            assert(events[i] == r.events[i - 1]);
            let k = choose|k: int|
                0 <= k < r.events.take(i - 1).len() && mark(#[trigger] r.events.take(i - 1)[k]);
            assert(events.take(i)[k + 1] == r.events.take(i - 1)[k]);
        }
        if end {
            let k = choose|k: int| 0 <= k < r.events.len() && mark(#[trigger] r.events[k]);
            assert(events[k + 1] == r.events[k]);
        }
        assert forall|j: int| #[trigger] first_at(events, j, mark) implies rest(
            events[j],
            events.skip(j + 1),
            end,
        ) by {
            assert(j > 0);
            assert(events[j] == r.events[j - 1]);
            assert(first_at(r.events, j - 1, mark)) by {
                assert forall|i: int| 0 <= i < j - 1 implies !mark(#[trigger] r.events[i]) by {
                    assert(events[i + 1] == r.events[i]);
                }
            }
            assert(events.skip(j + 1) =~= r.events.skip(j));
        }
    }
}

/// A question, and the steps after it, after whose reply all is as it should be.
pub proof fn leads_question_and(
    cfg: Config,
    q: QuestionView,
    todo: Seq<StepView>,
    trigger: spec_fn(Event) -> bool,
    rest: spec_fn(Seq<Event>, bool) -> bool,
)
    requires
        lasting(rest),
        leads(cfg, todo, trigger, rest),
        forall|reply: ReplyView|
            leads(cfg, (#[trigger] question::answer_spec(cfg, q, reply)).steps, trigger, rest),
        forall|reply: ReplyView|
            trigger(Event::Performed(question::action_spec(cfg, q), reply)) ==> does(
                cfg,
                (#[trigger] question::answer_spec(cfg, q, reply)).steps + todo,
                rest,
            ),
    ensures
        leads(cfg, seq![StepView::Ask(q)] + todo, trigger, rest),
{
    let whole = seq![StepView::Ask(q)] + todo;
    assert forall|replies: Seq<ReplyView>| led(#[trigger] run(cfg, whole, replies), trigger, rest) by {
        if replies.len() > 0 {
            let s = question::answer_spec(cfg, q, replies[0]);
            assert(whole.skip(1) =~= todo);
            let r = run(cfg, s.steps + todo, replies.skip(1));
            assert(leads(cfg, s.steps, trigger, rest));
            leads_concat(cfg, s.steps, todo, trigger, rest);
            assert(led(r, trigger, rest));
            led_after(
                r,
                Event::Performed(question::action_spec(cfg, q), replies[0]),
                trigger,
                rest,
            );
        }
    }
}

// ---------------------------------------------------------------------------------------------
// Actions that a run owes
// ---------------------------------------------------------------------------------------------
/// That an action of a kind is performed with success.
pub open spec fn done(wanted: spec_fn(ActionView) -> bool) -> spec_fn(Event) -> bool {
    |e: Event|
        match e {
            Event::Performed(a, reply) => wanted(a) && reply.ok,
            _ => false,
        }
}

/// That an action of a kind is performed, with success or not.
pub open spec fn tried(wanted: spec_fn(ActionView) -> bool) -> spec_fn(Event) -> bool {
    |e: Event|
        match e {
            Event::Performed(a, _) => wanted(a),
            _ => false,
        }
}

/// A step that ends the run, or performs an action of a kind and ends the run unless it succeeds.
pub open spec fn demands(wanted: spec_fn(ActionView) -> bool) -> spec_fn(StepView) -> bool {
    |step: StepView|
        match step {
            StepView::Fail(_) => true,
            StepView::Do(a, rule) => wanted(a) && !(rule is Ignore) && !(rule is Warn),
            _ => false,
        }
}

/// A step that ends the run, or performs an action of a kind.
pub open spec fn tries(wanted: spec_fn(ActionView) -> bool) -> spec_fn(StepView) -> bool {
    |step: StepView|
        match step {
            StepView::Fail(_) => true,
            StepView::Do(a, _) => wanted(a),
            _ => false,
        }
}

/// A script that demands an action brings its success.
pub proof fn demanded_is_done(cfg: Config, s: ScriptView, wanted: spec_fn(ActionView) -> bool)
    requires
        some_of(s, demands(wanted)),
    ensures
        supplies(cfg, s, done(wanted)),
{
    let kind = demands(wanted);
    assert(owes(cfg, kind, done(wanted))) by {
        assert forall|a: ActionView, rule: RuleView, reply: ReplyView| kind(
            StepView::Do(a, rule),
        ) implies done(wanted)(Event::Performed(a, reply)) || some_of(
            #[trigger] judge_spec(a, rule, reply),
            kind,
        ) by {
            broadcast use group_some_of;

        }
    }
    owed_brings(cfg, kind, done(wanted), s.steps);
}

/// A script that tries an action brings it.
pub proof fn tried_is_performed(cfg: Config, s: ScriptView, wanted: spec_fn(ActionView) -> bool)
    requires
        some_of(s, tries(wanted)),
    ensures
        supplies(cfg, s, tried(wanted)),
{
    owed_brings(cfg, tries(wanted), tried(wanted), s.steps);
}

/// A question brings what each of its answers brings, or what happens with it.
pub proof fn brings_question(cfg: Config, q: QuestionView, first: spec_fn(Event) -> bool)
    requires
        forall|reply: ReplyView|
            first(Event::Performed(question::action_spec(cfg, q), reply)) || supplies(
                cfg,
                #[trigger] question::answer_spec(cfg, q, reply),
                first,
            ),
    ensures
        brings(cfg, seq![StepView::Ask(q)], first),
{
    let one = seq![StepView::Ask(q)];
    assert forall|replies: Seq<ReplyView>|
        (#[trigger] run(cfg, one, replies)).left is Some implies happened(
        run(cfg, one, replies).events,
        first,
    ) by {
        let s = question::answer_spec(cfg, q, replies[0]);
        let e = Event::Performed(question::action_spec(cfg, q), replies[0]);
        let events = run(cfg, one, replies).events;
        assert(s.steps + one.skip(1) =~= s.steps);
        let r = run(cfg, s.steps, replies.skip(1));
        assert(events[0] == e);
        if !first(e) {
            assert(supplies(cfg, s, first));
            let k = choose|k: int| 0 <= k < r.events.len() && first(#[trigger] r.events[k]);
            assert(events[k + 1] == r.events[k]);
        }
    }
}

/// A script that ends the run brings anything.
pub proof fn failure_brings(cfg: Config, s: ScriptView, first: spec_fn(Event) -> bool)
    requires
        some_of(s, |step: StepView| step is Fail),
    ensures
        supplies(cfg, s, first),
{
    owed_brings(cfg, |step: StepView| step is Fail, first, s.steps);
}

/// Whether a command has an option with a value.
pub open spec fn has_option(c: CommandView, option: Seq<char>, value: Seq<char>) -> bool {
    exists|i: int|
        0 <= i < c.args.len() - 1 && #[trigger] c.args[i] == option && c.args[i + 1] == value
}

/// The last two arguments.
pub broadcast proof fn has_option_now(c: CommandView, option: Seq<char>, value: Seq<char>)
    ensures
        #[trigger] has_option(c.arg(option).arg(value), option, value),
{
    let all = c.arg(option).arg(value);
    assert(all.args[all.args.len() - 2] == option);
}

/// Arguments before the last one.
pub broadcast proof fn has_option_still(
    c: CommandView,
    arg: Seq<char>,
    option: Seq<char>,
    value: Seq<char>,
)
    requires
        has_option(c, option, value),
    ensures
        #[trigger] has_option(c.arg(arg), option, value),
{
    let i = choose|i: int|
        0 <= i < c.args.len() - 1 && #[trigger] c.args[i] == option && c.args[i + 1] == value;
    assert(c.arg(arg).args[i] == c.args[i]);
    assert(c.arg(arg).args[i + 1] == c.args[i + 1]);
}

pub broadcast group group_has_option {
    has_option_now,
    has_option_still,
}

// ---------------------------------------------------------------------------------------------
// Why a run fails
// ---------------------------------------------------------------------------------------------
/// Whether a run fails only after an event that is a reason to.
pub open spec fn justified(events: Seq<Event>, reason: spec_fn(Event) -> bool) -> bool {
    forall|i: int|
        0 <= i < events.len() && #[trigger] events[i] is Failed ==> happened(
            events.take(i),
            reason,
        )
}

/// Whether steps of a kind lead to steps of that kind alone, or to a reason to fail.
pub open spec fn reasonable(
    cfg: Config,
    kind: spec_fn(StepView) -> bool,
    reason: spec_fn(Event) -> bool,
) -> bool {
    &&& forall|failure: crate::failure::FailureView| !(#[trigger] kind(StepView::Fail(failure)))
    &&& forall|text: Seq<char>| (#[trigger] kind(StepView::Report(text)))
    &&& forall|a: ActionView, rule: RuleView, reply: ReplyView|
        #![trigger kind(StepView::Do(a, rule)), judge_spec(a, rule, reply)]
        kind(StepView::Do(a, rule)) ==> reason(Event::Performed(a, reply)) || all_of(
            judge_spec(a, rule, reply),
            kind,
        )
    &&& forall|q: QuestionView, reply: ReplyView|
        kind(StepView::Ask(q)) ==> reason(
            Event::Performed(question::action_spec(cfg, q), reply),
        ) || all_of(#[trigger] question::answer_spec(cfg, q, reply), kind)
}

proof fn justified_after(events: Seq<Event>, e: Event, reason: spec_fn(Event) -> bool)
    requires
        e !is Failed,
        reason(e) || justified(events, reason),
    ensures
        justified(seq![e] + events, reason),
{
    let all = seq![e] + events;
    assert forall|i: int| 0 <= i < all.len() && #[trigger] all[i] is Failed implies happened(
        all.take(i),
        reason,
    ) by {
        assert(i > 0);
        if reason(e) {
            assert(all.take(i)[0] == e);
        } else {
            assert(all[i] == events[i - 1]);
            let k = choose|k: int|
                0 <= k < events.take(i - 1).len() && reason(#[trigger] events.take(i - 1)[k]);
            assert(all.take(i)[k + 1] == events.take(i - 1)[k]);
        }
    }
}

/// A run of steps of a reasonable kind fails only after a reason to.
pub proof fn reasonable_run(
    cfg: Config,
    kind: spec_fn(StepView) -> bool,
    reason: spec_fn(Event) -> bool,
    todo: Seq<StepView>,
    replies: Seq<ReplyView>,
)
    requires
        reasonable(cfg, kind, reason),
        all_steps(todo, kind),
    ensures
        justified(run(cfg, todo, replies).events, reason),
    decreases replies.len(), todo.len(),
{
    if todo.len() > 0 {
        let later = todo.skip(1);
        assert(all_steps(later, kind)) by {
            assert forall|i: int| 0 <= i < later.len() implies kind(#[trigger] later[i]) by {
                assert(later[i] == todo[i + 1]);
            }
        }
        assert(kind(todo[0]));
        match todo[0] {
            StepView::Say(text) => {
                reasonable_run(cfg, kind, reason, later, replies);
                justified_after(run(cfg, later, replies).events, Event::Said(text), reason);
            },
            StepView::Report(text) => {
                reasonable_run(cfg, kind, reason, later, replies);
                justified_after(run(cfg, later, replies).events, Event::Reported(text), reason);
            },
            StepView::Fail(failure) => {},
            StepView::Do(a, rule) => {
                if replies.len() > 0 {
                    let e = Event::Performed(a, replies[0]);
                    let more = judge_spec(a, rule, replies[0]);
                    if !reason(e) {
                        assert(all_of(more, kind));
                        all_concat(more.steps, later, kind);
                        reasonable_run(cfg, kind, reason, more.steps + later, replies.skip(1));
                    }
                    justified_after(
                        run(cfg, more.steps + later, replies.skip(1)).events,
                        e,
                        reason,
                    );
                }
            },
            StepView::Ask(q) => {
                if replies.len() > 0 {
                    let e = Event::Performed(question::action_spec(cfg, q), replies[0]);
                    let s = question::answer_spec(cfg, q, replies[0]);
                    if !reason(e) {
                        assert(all_of(s, kind));
                        all_concat(s.steps, later, kind);
                        reasonable_run(cfg, kind, reason, s.steps + later, replies.skip(1));
                    }
                    justified_after(
                        run(cfg, s.steps + later, replies.skip(1)).events,
                        e,
                        reason,
                    );
                }
            },
        }
    }
}

} // verus!
