//! Runs: everything that can happen while a script runs, whatever the replies are.
use vstd::prelude::*;

use crate::failure::FailureView;
use crate::question;
use crate::question::QuestionView;
use crate::script::{for_each_spec, ActionView, ReplyView, RuleView, ScriptView, StepView};
use crate::session::{judge_spec, MoveView, SessionView};
use crate::settings::Config;

verus! {

/// Something that happens in a run.
pub enum Event {
    Said(Seq<char>),
    Reported(Seq<char>),
    Performed(ActionView, ReplyView),
    Failed(FailureView),
}

/// What happens in a run, and the replies that are left once it has come to its end. A run that
/// fails, or that waits for a reply that does not come, has no end.
pub struct Run {
    pub events: Seq<Event>,
    pub left: Option<Seq<ReplyView>>,
}

impl Run {
    /// The run before which something else happens.
    pub open spec fn after(self, event: Event) -> Run {
        Run { events: seq![event] + self.events, left: self.left }
    }
}

/// The run of a list of steps on a list of replies.
pub open spec fn run(cfg: Config, todo: Seq<StepView>, replies: Seq<ReplyView>) -> Run
    decreases replies.len(), todo.len(),
{
    if todo.len() == 0 {
        Run { events: Seq::empty(), left: Some(replies) }
    } else {
        match todo[0] {
            StepView::Say(text) => run(cfg, todo.skip(1), replies).after(Event::Said(text)),
            StepView::Report(text) => run(cfg, todo.skip(1), replies).after(Event::Reported(text)),
            StepView::Fail(failure) => Run { events: seq![Event::Failed(failure)], left: None },
            StepView::Do(action, rule) => if replies.len() == 0 {
                Run { events: Seq::empty(), left: None }
            } else {
                run(
                    cfg,
                    judge_spec(action, rule, replies[0]).steps + todo.skip(1),
                    replies.skip(1),
                ).after(Event::Performed(action, replies[0]))
            },
            StepView::Ask(q) => if replies.len() == 0 {
                Run { events: Seq::empty(), left: None }
            } else {
                run(
                    cfg,
                    question::answer_spec(cfg, q, replies[0]).steps + todo.skip(1),
                    replies.skip(1),
                ).after(Event::Performed(question::action_spec(cfg, q), replies[0]))
            },
        }
    }
}

/// A session makes the moves of the run of its steps: it prints what is said and reported, performs
/// what is performed, fails where the run fails, and finishes where the run is at its end.
pub proof fn law_session_follows_run(cfg: Config, s: SessionView, replies: Seq<ReplyView>)
    requires
        s.current is None,
    ensures
        ({
            let next = s.moved(cfg);
            let rest = run(cfg, s.todo, replies);
            match s.next_move() {
                MoveView::Print(text) => rest == run(cfg, next.todo, replies).after(
                    Event::Said(text),
                ),
                MoveView::PrintError(text) => rest == run(cfg, next.todo, replies).after(
                    Event::Reported(text),
                ),
                MoveView::Act => replies.len() > 0 ==> match next.current {
                    Some((action, _)) => rest == run(
                        cfg,
                        next.settled(cfg, replies[0]).todo,
                        replies.skip(1),
                    ).after(Event::Performed(action, replies[0])),
                    None => false,
                },
                MoveView::Finished => rest == (Run {
                    events: Seq::empty(),
                    left: Some(replies),
                }),
                MoveView::Failed(failure) => rest == (Run {
                    events: seq![Event::Failed(failure)],
                    left: None,
                }) && next.todo.len() == 0,
            }
        }),
{
}

/// The run of one list of steps and after it of another.
pub open spec fn followed_by(cfg: Config, first: Run, todo: Seq<StepView>) -> Run {
    match first.left {
        Some(left) => {
            let second = run(cfg, todo, left);
            Run { events: first.events + second.events, left: second.left }
        },
        None => first,
    }
}

/// Steps run one after the other: the second list begins where the first has come to its end, and
/// not at all where the first fails.
pub proof fn law_steps_run_in_order(
    cfg: Config,
    first: Seq<StepView>,
    second: Seq<StepView>,
    replies: Seq<ReplyView>,
)
    ensures
        run(cfg, first + second, replies) == followed_by(cfg, run(cfg, first, replies), second),
    decreases replies.len(), first.len(),
{
    let both = run(cfg, first + second, replies);
    let split = followed_by(cfg, run(cfg, first, replies), second);
    if first.len() == 0 {
        assert(first + second =~= second);
        assert(split.events =~= both.events);
    } else {
        assert((first + second)[0] == first[0]);
        assert((first + second).skip(1) =~= first.skip(1) + second);
        match first[0] {
            StepView::Say(_) => {
                law_steps_run_in_order(cfg, first.skip(1), second, replies);
            },
            StepView::Report(_) => {
                law_steps_run_in_order(cfg, first.skip(1), second, replies);
            },
            StepView::Fail(_) => {},
            StepView::Do(action, rule) => {
                if replies.len() > 0 {
                    let more = judge_spec(action, rule, replies[0]).steps;
                    assert(more + (first.skip(1) + second) =~= (more + first.skip(1)) + second);
                    law_steps_run_in_order(cfg, more + first.skip(1), second, replies.skip(1));
                }
            },
            StepView::Ask(q) => {
                if replies.len() > 0 {
                    let more = question::answer_spec(cfg, q, replies[0]).steps;
                    assert(more + (first.skip(1) + second) =~= (more + first.skip(1)) + second);
                    law_steps_run_in_order(cfg, more + first.skip(1), second, replies.skip(1));
                }
            },
        }
        assert(split.events =~= both.events);
    }
}

/// A run uses its replies from the first on, and never more than there are.
pub proof fn lemma_left_is_shorter(cfg: Config, todo: Seq<StepView>, replies: Seq<ReplyView>)
    ensures
        match run(cfg, todo, replies).left {
            Some(left) => left.len() <= replies.len(),
            None => true,
        },
    decreases replies.len(), todo.len(),
{
    if todo.len() > 0 {
        match todo[0] {
            StepView::Say(_) => lemma_left_is_shorter(cfg, todo.skip(1), replies),
            StepView::Report(_) => lemma_left_is_shorter(cfg, todo.skip(1), replies),
            StepView::Fail(_) => {},
            StepView::Do(action, rule) => if replies.len() > 0 {
                lemma_left_is_shorter(
                    cfg,
                    judge_spec(action, rule, replies[0]).steps + todo.skip(1),
                    replies.skip(1),
                );
            },
            StepView::Ask(q) => if replies.len() > 0 {
                lemma_left_is_shorter(
                    cfg,
                    question::answer_spec(cfg, q, replies[0]).steps + todo.skip(1),
                    replies.skip(1),
                );
            },
        }
    }
}

/// A run that fails does nothing more: its error is the last thing that happens.
pub proof fn law_nothing_follows_an_error(
    cfg: Config,
    todo: Seq<StepView>,
    replies: Seq<ReplyView>,
    i: int,
)
    requires
        0 <= i < run(cfg, todo, replies).events.len(),
        run(cfg, todo, replies).events[i] is Failed,
    ensures
        i == run(cfg, todo, replies).events.len() - 1,
        run(cfg, todo, replies).left is None,
    decreases replies.len(), todo.len(),
{
    if todo.len() > 0 {
        match todo[0] {
            StepView::Say(_) => law_nothing_follows_an_error(cfg, todo.skip(1), replies, i - 1),
            StepView::Report(_) => law_nothing_follows_an_error(cfg, todo.skip(1), replies, i - 1),
            StepView::Fail(_) => {},
            StepView::Do(action, rule) => if replies.len() > 0 {
                law_nothing_follows_an_error(
                    cfg,
                    judge_spec(action, rule, replies[0]).steps + todo.skip(1),
                    replies.skip(1),
                    i - 1,
                );
            },
            StepView::Ask(q) => if replies.len() > 0 {
                law_nothing_follows_an_error(
                    cfg,
                    question::answer_spec(cfg, q, replies[0]).steps + todo.skip(1),
                    replies.skip(1),
                    i - 1,
                );
            },
        }
    }
}

// ---------------------------------------------------------------------------------------------
// What all steps have in common
// ---------------------------------------------------------------------------------------------
/// Whether all steps of a script are of a kind.
pub open spec fn all_of(s: ScriptView, kind: spec_fn(StepView) -> bool) -> bool {
    all_steps(s.steps, kind)
}

/// Whether all steps of a list are of a kind.
pub open spec fn all_steps(steps: Seq<StepView>, kind: spec_fn(StepView) -> bool) -> bool {
    forall|i: int| 0 <= i < steps.len() ==> kind(#[trigger] steps[i])
}

/// All steps of the empty script are of any kind.
pub broadcast proof fn all_of_new(kind: spec_fn(StepView) -> bool)
    ensures
        #[trigger] all_of(ScriptView::new(), kind),
{
}

/// One more line.
pub broadcast proof fn all_of_say(s: ScriptView, text: Seq<char>, kind: spec_fn(StepView) -> bool)
    requires
        all_of(s, kind),
        kind(StepView::Say(text)),
    ensures
        #[trigger] all_of(s.say(text), kind),
{
}

/// One more line on standard error.
pub broadcast proof fn all_of_report(
    s: ScriptView,
    text: Seq<char>,
    kind: spec_fn(StepView) -> bool,
)
    requires
        all_of(s, kind),
        kind(StepView::Report(text)),
    ensures
        #[trigger] all_of(s.report(text), kind),
{
}

/// One more action.
pub broadcast proof fn all_of_perform(
    s: ScriptView,
    action: ActionView,
    rule: RuleView,
    kind: spec_fn(StepView) -> bool,
)
    requires
        all_of(s, kind),
        kind(StepView::Do(action, rule)),
    ensures
        #[trigger] all_of(s.perform(action, rule), kind),
{
}

/// One more question.
pub broadcast proof fn all_of_ask(
    s: ScriptView,
    q: QuestionView,
    kind: spec_fn(StepView) -> bool,
)
    requires
        all_of(s, kind),
        kind(StepView::Ask(q)),
    ensures
        #[trigger] all_of(s.ask(q), kind),
{
}

/// One more error.
pub broadcast proof fn all_of_fail(
    s: ScriptView,
    message: Seq<char>,
    kind: spec_fn(StepView) -> bool,
)
    requires
        all_of(s, kind),
        kind(StepView::Fail(FailureView::new(message))),
    ensures
        #[trigger] all_of(s.fail(message), kind),
{
}

/// One more error, with its causes.
pub broadcast proof fn all_of_fail_with(
    s: ScriptView,
    failure: FailureView,
    kind: spec_fn(StepView) -> bool,
)
    requires
        all_of(s, kind),
        kind(StepView::Fail(failure)),
    ensures
        #[trigger] all_of(s.fail_with(failure), kind),
{
}

/// One script after the other.
pub broadcast proof fn all_of_join(
    s: ScriptView,
    t: ScriptView,
    kind: spec_fn(StepView) -> bool,
)
    requires
        all_of(s, kind),
        all_of(t, kind),
    ensures
        #[trigger] all_of(s.join(t), kind),
{
}

/// The scripts of the items of a list.
pub broadcast proof fn all_of_each(
    items: Seq<Seq<char>>,
    one: spec_fn(Seq<char>) -> ScriptView,
    kind: spec_fn(StepView) -> bool,
)
    requires
        forall|item: Seq<char>| all_of(#[trigger] one(item), kind),
    ensures
        #[trigger] all_of(for_each_spec(items, one), kind),
    decreases items.len(),
{
    if items.len() > 0 {
        all_of_each(items.drop_last(), one, kind);
        assert(all_of(one(items.last()), kind));
        all_of_join(for_each_spec(items.drop_last(), one), one(items.last()), kind);
    }
}

pub broadcast group group_all_of {
    all_of_new,
    all_of_each,
    all_of_say,
    all_of_report,
    all_of_perform,
    all_of_ask,
    all_of_fail,
    all_of_fail_with,
    all_of_join,
}

/// Whether some step of a script is of a kind.
pub open spec fn some_of(s: ScriptView, kind: spec_fn(StepView) -> bool) -> bool {
    some_step(s.steps, kind)
}

/// Whether some step of a list is of a kind.
pub open spec fn some_step(steps: Seq<StepView>, kind: spec_fn(StepView) -> bool) -> bool {
    exists|i: int| 0 <= i < steps.len() && kind(#[trigger] steps[i])
}

proof fn some_of_step(s: ScriptView, step: StepView, kind: spec_fn(StepView) -> bool)
    requires
        some_of(s, kind) || kind(step),
    ensures
        some_of(s.step(step), kind),
{
    let steps = s.step(step).steps;
    if kind(step) {
        assert(steps[steps.len() - 1] == step);
    } else {
        let i = choose|i: int| 0 <= i < s.steps.len() && kind(#[trigger] s.steps[i]);
        assert(steps[i] == s.steps[i]);
    }
}

/// One more line.
pub broadcast proof fn some_of_say(s: ScriptView, text: Seq<char>, kind: spec_fn(StepView) -> bool)
    requires
        some_of(s, kind) || kind(StepView::Say(text)),
    ensures
        #[trigger] some_of(s.say(text), kind),
{
    some_of_step(s, StepView::Say(text), kind);
}

/// One more line on standard error.
pub broadcast proof fn some_of_report(
    s: ScriptView,
    text: Seq<char>,
    kind: spec_fn(StepView) -> bool,
)
    requires
        some_of(s, kind) || kind(StepView::Report(text)),
    ensures
        #[trigger] some_of(s.report(text), kind),
{
    some_of_step(s, StepView::Report(text), kind);
}

/// One more action.
pub broadcast proof fn some_of_perform(
    s: ScriptView,
    action: ActionView,
    rule: RuleView,
    kind: spec_fn(StepView) -> bool,
)
    requires
        some_of(s, kind) || kind(StepView::Do(action, rule)),
    ensures
        #[trigger] some_of(s.perform(action, rule), kind),
{
    some_of_step(s, StepView::Do(action, rule), kind);
}

/// One more question.
pub broadcast proof fn some_of_ask(
    s: ScriptView,
    q: QuestionView,
    kind: spec_fn(StepView) -> bool,
)
    requires
        some_of(s, kind) || kind(StepView::Ask(q)),
    ensures
        #[trigger] some_of(s.ask(q), kind),
{
    some_of_step(s, StepView::Ask(q), kind);
}

/// One more error.
pub broadcast proof fn some_of_fail(
    s: ScriptView,
    message: Seq<char>,
    kind: spec_fn(StepView) -> bool,
)
    requires
        some_of(s, kind) || kind(StepView::Fail(FailureView::new(message))),
    ensures
        #[trigger] some_of(s.fail(message), kind),
{
    some_of_step(s, StepView::Fail(FailureView::new(message)), kind);
}

/// One more error, with its causes.
pub broadcast proof fn some_of_fail_with(
    s: ScriptView,
    failure: FailureView,
    kind: spec_fn(StepView) -> bool,
)
    requires
        some_of(s, kind) || kind(StepView::Fail(failure)),
    ensures
        #[trigger] some_of(s.fail_with(failure), kind),
{
    some_of_step(s, StepView::Fail(failure), kind);
}

/// One script after the other.
pub broadcast proof fn some_of_join(
    s: ScriptView,
    t: ScriptView,
    kind: spec_fn(StepView) -> bool,
)
    requires
        some_of(s, kind) || some_of(t, kind),
    ensures
        #[trigger] some_of(s.join(t), kind),
{
    let steps = s.join(t).steps;
    if some_of(s, kind) {
        let i = choose|i: int| 0 <= i < s.steps.len() && kind(#[trigger] s.steps[i]);
        assert(steps[i] == s.steps[i]);
    } else {
        let i = choose|i: int| 0 <= i < t.steps.len() && kind(#[trigger] t.steps[i]);
        assert(steps[s.steps.len() + i] == t.steps[i]);
    }
}

/// The script of one item of a list.
pub proof fn some_of_each(
    items: Seq<Seq<char>>,
    one: spec_fn(Seq<char>) -> ScriptView,
    kind: spec_fn(StepView) -> bool,
    i: int,
)
    requires
        0 <= i < items.len(),
        some_of(one(items[i]), kind),
    ensures
        some_of(for_each_spec(items, one), kind),
    decreases items.len(),
{
    let start = for_each_spec(items.drop_last(), one);
    if i < items.len() - 1 {
        some_of_each(items.drop_last(), one, kind, i);
    }
    some_of_join(start, one(items.last()), kind);
}

pub broadcast group group_some_of {
    some_of_say,
    some_of_report,
    some_of_perform,
    some_of_ask,
    some_of_fail,
    some_of_fail_with,
    some_of_join,
}

// ---------------------------------------------------------------------------------------------
// What happens before what
// ---------------------------------------------------------------------------------------------
/// Whether the event is an action of a kind.
pub open spec fn performs(event: Event, action: spec_fn(ActionView) -> bool) -> bool {
    match event {
        Event::Performed(a, _) => action(a),
        _ => false,
    }
}

/// Whether an event of a kind has happened.
pub open spec fn happened(events: Seq<Event>, first: spec_fn(Event) -> bool) -> bool {
    exists|i: int| 0 <= i < events.len() && first(#[trigger] events[i])
}

/// Whether an event of one kind has happened before each action of another.
pub open spec fn precedes(
    events: Seq<Event>,
    first: spec_fn(Event) -> bool,
    action: spec_fn(ActionView) -> bool,
) -> bool {
    forall|i: int|
        0 <= i < events.len() && performs(#[trigger] events[i], action) ==> happened(
            events.take(i),
            first,
        )
}

/// Whether an event of one kind happens before each action of another, whatever the replies are.
pub open spec fn guards(
    cfg: Config,
    todo: Seq<StepView>,
    first: spec_fn(Event) -> bool,
    action: spec_fn(ActionView) -> bool,
) -> bool {
    forall|replies: Seq<ReplyView>|
        precedes((#[trigger] run(cfg, todo, replies)).events, first, action)
}

/// Whether an event of a kind happens in every run that comes to its end.
pub open spec fn brings(cfg: Config, todo: Seq<StepView>, first: spec_fn(Event) -> bool) -> bool {
    forall|replies: Seq<ReplyView>|
        (#[trigger] run(cfg, todo, replies)).left is Some ==> happened(
            run(cfg, todo, replies).events,
            first,
        )
}

proof fn happened_concat(a: Seq<Event>, b: Seq<Event>, first: spec_fn(Event) -> bool)
    requires
        happened(a, first) || happened(b, first),
    ensures
        happened(a + b, first),
{
    if happened(a, first) {
        let i = choose|i: int| 0 <= i < a.len() && first(#[trigger] a[i]);
        assert((a + b)[i] == a[i]);
    } else {
        let i = choose|i: int| 0 <= i < b.len() && first(#[trigger] b[i]);
        assert((a + b)[a.len() + i] == b[i]);
    }
}

proof fn precedes_concat(
    a: Seq<Event>,
    b: Seq<Event>,
    first: spec_fn(Event) -> bool,
    action: spec_fn(ActionView) -> bool,
)
    requires
        precedes(a, first, action),
        happened(a, first) || precedes(b, first, action),
    ensures
        precedes(a + b, first, action),
{
    assert forall|i: int|
        0 <= i < (a + b).len() && performs(#[trigger] (a + b)[i], action) implies happened(
        (a + b).take(i),
        first,
    ) by {
        if i < a.len() {
            assert((a + b)[i] == a[i]);
            assert((a + b).take(i) =~= a.take(i));
        } else {
            assert((a + b)[i] == b[i - a.len()]);
            assert((a + b).take(i) =~= a + b.take(i - a.len()));
            happened_concat(a, b.take(i - a.len()), first);
        }
    }
}

/// What holds of two lists of steps holds of them one after the other. Once the first list brings
/// the event, nothing is asked of the second.
pub proof fn guards_concat(
    cfg: Config,
    s: Seq<StepView>,
    t: Seq<StepView>,
    first: spec_fn(Event) -> bool,
    action: spec_fn(ActionView) -> bool,
)
    requires
        guards(cfg, s, first, action),
        brings(cfg, s, first) || guards(cfg, t, first, action),
    ensures
        guards(cfg, s + t, first, action),
{
    assert forall|replies: Seq<ReplyView>|
        precedes((#[trigger] run(cfg, s + t, replies)).events, first, action) by {
        law_steps_run_in_order(cfg, s, t, replies);
        let a = run(cfg, s, replies);
        if let Some(left) = a.left {
            precedes_concat(a.events, run(cfg, t, left).events, first, action);
        }
    }
}

/// What one of two lists of steps brings, they bring one after the other.
pub proof fn brings_concat(
    cfg: Config,
    s: Seq<StepView>,
    t: Seq<StepView>,
    first: spec_fn(Event) -> bool,
)
    requires
        brings(cfg, s, first) || brings(cfg, t, first),
    ensures
        brings(cfg, s + t, first),
{
    assert forall|replies: Seq<ReplyView>|
        (#[trigger] run(cfg, s + t, replies)).left is Some implies happened(
        run(cfg, s + t, replies).events,
        first,
    ) by {
        law_steps_run_in_order(cfg, s, t, replies);
        let a = run(cfg, s, replies);
        if let Some(left) = a.left {
            let b = run(cfg, t, left);
            happened_concat(a.events, b.events, first);
        }
    }
}

/// Whether steps of a kind lead to steps of that kind alone, and to an action only after an event:
/// each question is answered by such steps, or is guarded by itself.
pub open spec fn tame(
    cfg: Config,
    kind: spec_fn(StepView) -> bool,
    first: spec_fn(Event) -> bool,
    action: spec_fn(ActionView) -> bool,
) -> bool {
    &&& forall|failure: FailureView| (#[trigger] kind(StepView::Fail(failure)))
    &&& forall|text: Seq<char>| (#[trigger] kind(StepView::Report(text)))
    &&& forall|a: ActionView, rule: RuleView| (#[trigger] kind(StepView::Do(a, rule))) ==> !action(a)
    &&& forall|q: QuestionView|
        (#[trigger] kind(StepView::Ask(q))) ==> {
            ||| guards(cfg, seq![StepView::Ask(q)], first, action)
            ||| !action(question::action_spec(cfg, q)) && forall|reply: ReplyView|
                all_of(#[trigger] question::answer_spec(cfg, q, reply), kind)
        }
}

proof fn all_steps_concat(s: Seq<StepView>, t: Seq<StepView>, kind: spec_fn(StepView) -> bool)
    requires
        all_steps(s, kind),
        all_steps(t, kind),
    ensures
        all_steps(s + t, kind),
{
}

proof fn tame_run(
    cfg: Config,
    kind: spec_fn(StepView) -> bool,
    first: spec_fn(Event) -> bool,
    action: spec_fn(ActionView) -> bool,
    todo: Seq<StepView>,
    replies: Seq<ReplyView>,
)
    requires
        tame(cfg, kind, first, action),
        all_steps(todo, kind),
    ensures
        precedes(run(cfg, todo, replies).events, first, action),
    decreases replies.len(), todo.len(),
{
    let all = run(cfg, todo, replies).events;
    if todo.len() > 0 {
        let rest = todo.skip(1);
        assert(all_steps(rest, kind)) by {
            assert forall|i: int| 0 <= i < rest.len() implies kind(#[trigger] rest[i]) by {
                assert(rest[i] == todo[i + 1]);
            }
        }
        assert(kind(todo[0]));
        match todo[0] {
            StepView::Say(text) => {
                tame_run(cfg, kind, first, action, rest, replies);
                precedes_concat(
                    seq![Event::Said(text)],
                    run(cfg, rest, replies).events,
                    first,
                    action,
                );
            },
            StepView::Report(text) => {
                tame_run(cfg, kind, first, action, rest, replies);
                precedes_concat(
                    seq![Event::Reported(text)],
                    run(cfg, rest, replies).events,
                    first,
                    action,
                );
            },
            StepView::Fail(_) => {},
            StepView::Do(a, rule) => {
                if replies.len() > 0 {
                    let more = judge_spec(a, rule, replies[0]).steps;
                    all_steps_concat(more, rest, kind);
                    tame_run(cfg, kind, first, action, more + rest, replies.skip(1));
                    precedes_concat(
                        seq![Event::Performed(a, replies[0])],
                        run(cfg, more + rest, replies.skip(1)).events,
                        first,
                        action,
                    );
                }
            },
            StepView::Ask(q) => {
                if replies.len() > 0 {
                    let one = seq![StepView::Ask(q)];
                    if guards(cfg, one, first, action) {
                        assert(todo =~= one + rest);
                        law_steps_run_in_order(cfg, one, rest, replies);
                        lemma_left_is_shorter(cfg, one, replies);
                        let a = run(cfg, one, replies);
                        if let Some(left) = a.left {
                            tame_run(cfg, kind, first, action, rest, left);
                            precedes_concat(
                                a.events,
                                run(cfg, rest, left).events,
                                first,
                                action,
                            );
                        }
                    } else {
                        let s = question::answer_spec(cfg, q, replies[0]);
                        assert(all_of(s, kind));
                        all_steps_concat(s.steps, rest, kind);
                        tame_run(cfg, kind, first, action, s.steps + rest, replies.skip(1));
                        precedes_concat(
                            seq![Event::Performed(question::action_spec(cfg, q), replies[0])],
                            run(cfg, s.steps + rest, replies.skip(1)).events,
                            first,
                            action,
                        );
                    }
                }
            },
        }
    }
}

/// Steps of a tame kind are guarded.
pub proof fn tame_guards(
    cfg: Config,
    kind: spec_fn(StepView) -> bool,
    first: spec_fn(Event) -> bool,
    action: spec_fn(ActionView) -> bool,
    todo: Seq<StepView>,
)
    requires
        tame(cfg, kind, first, action),
        all_steps(todo, kind),
    ensures
        guards(cfg, todo, first, action),
{
    assert forall|replies: Seq<ReplyView>|
        precedes((#[trigger] run(cfg, todo, replies)).events, first, action) by {
        tame_run(cfg, kind, first, action, todo, replies);
    }
}

/// Whether a step of a kind owes an event: the event happens with it, or a step of that kind comes
/// after it.
pub open spec fn owes(
    cfg: Config,
    kind: spec_fn(StepView) -> bool,
    first: spec_fn(Event) -> bool,
) -> bool {
    &&& forall|text: Seq<char>| !(#[trigger] kind(StepView::Say(text)))
    &&& forall|text: Seq<char>| !(#[trigger] kind(StepView::Report(text)))
    &&& forall|a: ActionView, rule: RuleView, reply: ReplyView|
        kind(StepView::Do(a, rule)) ==> first(Event::Performed(a, reply)) || some_of(
            #[trigger] judge_spec(a, rule, reply),
            kind,
        )
    &&& forall|q: QuestionView, reply: ReplyView|
        kind(StepView::Ask(q)) ==> first(
            Event::Performed(question::action_spec(cfg, q), reply),
        ) || some_of(#[trigger] question::answer_spec(cfg, q, reply), kind)
}

proof fn some_step_concat(s: Seq<StepView>, t: Seq<StepView>, kind: spec_fn(StepView) -> bool)
    requires
        some_step(s, kind) || some_step(t, kind),
    ensures
        some_step(s + t, kind),
{
    some_of_join(ScriptView { steps: s }, ScriptView { steps: t }, kind);
}

proof fn owed_run(
    cfg: Config,
    kind: spec_fn(StepView) -> bool,
    first: spec_fn(Event) -> bool,
    todo: Seq<StepView>,
    replies: Seq<ReplyView>,
)
    requires
        owes(cfg, kind, first),
        some_step(todo, kind),
    ensures
        run(cfg, todo, replies).left is Some ==> happened(run(cfg, todo, replies).events, first),
    decreases replies.len(), todo.len(),
{
    let rest = todo.skip(1);
    assert(!kind(todo[0]) ==> some_step(rest, kind)) by {
        if !kind(todo[0]) {
            let i = choose|i: int| 0 <= i < todo.len() && kind(#[trigger] todo[i]);
            assert(rest[i - 1] == todo[i]);
        }
    }
    match todo[0] {
        StepView::Say(text) => {
            owed_run(cfg, kind, first, rest, replies);
            if happened(run(cfg, rest, replies).events, first) {
                happened_concat(seq![Event::Said(text)], run(cfg, rest, replies).events, first);
            }
        },
        StepView::Report(text) => {
            owed_run(cfg, kind, first, rest, replies);
            if happened(run(cfg, rest, replies).events, first) {
                happened_concat(
                    seq![Event::Reported(text)],
                    run(cfg, rest, replies).events,
                    first,
                );
            }
        },
        StepView::Fail(_) => {},
        StepView::Do(a, rule) => {
            if replies.len() > 0 {
                let more = judge_spec(a, rule, replies[0]).steps;
                let now = Event::Performed(a, replies[0]);
                owed_next(cfg, kind, first, now, more, rest, replies);
            }
        },
        StepView::Ask(q) => {
            if replies.len() > 0 {
                let more = question::answer_spec(cfg, q, replies[0]).steps;
                let now = Event::Performed(question::action_spec(cfg, q), replies[0]);
                owed_next(cfg, kind, first, now, more, rest, replies);
            }
        },
    }
}

proof fn owed_next(
    cfg: Config,
    kind: spec_fn(StepView) -> bool,
    first: spec_fn(Event) -> bool,
    now: Event,
    more: Seq<StepView>,
    rest: Seq<StepView>,
    replies: Seq<ReplyView>,
)
    requires
        owes(cfg, kind, first),
        replies.len() > 0,
        first(now) || some_step(more, kind) || some_step(rest, kind),
    ensures
        ({
            let later = run(cfg, more + rest, replies.skip(1));
            later.left is Some ==> happened(later.after(now).events, first)
        }),
    decreases replies.len(), 0int,
{
    let later = run(cfg, more + rest, replies.skip(1));
    if first(now) {
        assert(seq![now][0] == now);
        happened_concat(seq![now], later.events, first);
    } else {
        some_step_concat(more, rest, kind);
        owed_run(cfg, kind, first, more + rest, replies.skip(1));
        if later.left is Some {
            happened_concat(seq![now], later.events, first);
        }
    }
}

/// Steps of which one owes an event bring it.
pub proof fn owed_brings(
    cfg: Config,
    kind: spec_fn(StepView) -> bool,
    first: spec_fn(Event) -> bool,
    todo: Seq<StepView>,
)
    requires
        owes(cfg, kind, first),
        some_step(todo, kind),
    ensures
        brings(cfg, todo, first),
{
    assert forall|replies: Seq<ReplyView>|
        (#[trigger] run(cfg, todo, replies)).left is Some implies happened(
        run(cfg, todo, replies).events,
        first,
    ) by {
        owed_run(cfg, kind, first, todo, replies);
    }
}

// ---------------------------------------------------------------------------------------------
// Guards, script by script
// ---------------------------------------------------------------------------------------------
/// Whether a script is guarded.
pub open spec fn guarded(
    cfg: Config,
    s: ScriptView,
    first: spec_fn(Event) -> bool,
    action: spec_fn(ActionView) -> bool,
) -> bool {
    guards(cfg, s.steps, first, action)
}

/// Whether a script brings an event.
pub open spec fn supplies(cfg: Config, s: ScriptView, first: spec_fn(Event) -> bool) -> bool {
    brings(cfg, s.steps, first)
}

/// A question is guarded where its action needs no guard, and where the event happens with it or
/// what follows is guarded.
pub proof fn guarded_question(
    cfg: Config,
    q: QuestionView,
    first: spec_fn(Event) -> bool,
    action: spec_fn(ActionView) -> bool,
)
    requires
        !action(question::action_spec(cfg, q)),
        forall|reply: ReplyView|
            first(Event::Performed(question::action_spec(cfg, q), reply)) || guarded(
                cfg,
                #[trigger] question::answer_spec(cfg, q, reply),
                first,
                action,
            ),
    ensures
        guards(cfg, seq![StepView::Ask(q)], first, action),
{
    let one = seq![StepView::Ask(q)];
    assert forall|replies: Seq<ReplyView>|
        precedes((#[trigger] run(cfg, one, replies)).events, first, action) by {
        if replies.len() > 0 {
            let s = question::answer_spec(cfg, q, replies[0]);
            let now = seq![Event::Performed(question::action_spec(cfg, q), replies[0])];
            assert(first(now[0]) || guarded(cfg, s, first, action));
            assert(s.steps + one.skip(1) =~= s.steps);
            precedes_concat(
                now,
                run(cfg, s.steps, replies.skip(1)).events,
                first,
                action,
            );
        }
    }
}

/// The script without steps.
pub broadcast proof fn guarded_new(
    cfg: Config,
    first: spec_fn(Event) -> bool,
    action: spec_fn(ActionView) -> bool,
)
    ensures
        #[trigger] guarded(cfg, ScriptView::new(), first, action),
{
}

proof fn guarded_step(
    cfg: Config,
    s: ScriptView,
    step: StepView,
    first: spec_fn(Event) -> bool,
    action: spec_fn(ActionView) -> bool,
)
    requires
        guarded(cfg, s, first, action),
        supplies(cfg, s, first) || guards(cfg, seq![step], first, action),
    ensures
        guarded(cfg, s.step(step), first, action),
{
    guards_concat(cfg, s.steps, seq![step], first, action);
    assert(s.step(step).steps =~= s.steps + seq![step]);
}

proof fn quiet_step(
    cfg: Config,
    step: StepView,
    first: spec_fn(Event) -> bool,
    action: spec_fn(ActionView) -> bool,
)
    requires
        match step {
            StepView::Ask(_) => false,
            StepView::Do(a, _) => !action(a),
            _ => true,
        },
    ensures
        guards(cfg, seq![step], first, action),
{
    let kind = |other: StepView|
        match other {
            StepView::Ask(_) => false,
            StepView::Do(a, _) => !action(a),
            _ => true,
        };
    tame_guards(cfg, kind, first, action, seq![step]);
}

/// One more line.
pub broadcast proof fn guarded_say(
    cfg: Config,
    s: ScriptView,
    text: Seq<char>,
    first: spec_fn(Event) -> bool,
    action: spec_fn(ActionView) -> bool,
)
    requires
        guarded(cfg, s, first, action),
    ensures
        #[trigger] guarded(cfg, s.say(text), first, action),
{
    quiet_step(cfg, StepView::Say(text), first, action);
    guarded_step(cfg, s, StepView::Say(text), first, action);
}

/// One more line on standard error.
pub broadcast proof fn guarded_report(
    cfg: Config,
    s: ScriptView,
    text: Seq<char>,
    first: spec_fn(Event) -> bool,
    action: spec_fn(ActionView) -> bool,
)
    requires
        guarded(cfg, s, first, action),
    ensures
        #[trigger] guarded(cfg, s.report(text), first, action),
{
    quiet_step(cfg, StepView::Report(text), first, action);
    guarded_step(cfg, s, StepView::Report(text), first, action);
}

/// One more error.
pub broadcast proof fn guarded_fail(
    cfg: Config,
    s: ScriptView,
    message: Seq<char>,
    first: spec_fn(Event) -> bool,
    action: spec_fn(ActionView) -> bool,
)
    requires
        guarded(cfg, s, first, action),
    ensures
        #[trigger] guarded(cfg, s.fail(message), first, action),
{
    quiet_step(cfg, StepView::Fail(FailureView::new(message)), first, action);
    guarded_step(cfg, s, StepView::Fail(FailureView::new(message)), first, action);
}

/// One more error, with its causes.
pub broadcast proof fn guarded_fail_with(
    cfg: Config,
    s: ScriptView,
    failure: FailureView,
    first: spec_fn(Event) -> bool,
    action: spec_fn(ActionView) -> bool,
)
    requires
        guarded(cfg, s, first, action),
    ensures
        #[trigger] guarded(cfg, s.fail_with(failure), first, action),
{
    quiet_step(cfg, StepView::Fail(failure), first, action);
    guarded_step(cfg, s, StepView::Fail(failure), first, action);
}

/// One more action.
pub broadcast proof fn guarded_perform(
    cfg: Config,
    s: ScriptView,
    a: ActionView,
    rule: RuleView,
    first: spec_fn(Event) -> bool,
    action: spec_fn(ActionView) -> bool,
)
    requires
        guarded(cfg, s, first, action),
        supplies(cfg, s, first) || !action(a),
    ensures
        #[trigger] guarded(cfg, s.perform(a, rule), first, action),
{
    if !action(a) {
        quiet_step(cfg, StepView::Do(a, rule), first, action);
    }
    guarded_step(cfg, s, StepView::Do(a, rule), first, action);
}

/// One more question.
pub broadcast proof fn guarded_ask(
    cfg: Config,
    s: ScriptView,
    q: QuestionView,
    first: spec_fn(Event) -> bool,
    action: spec_fn(ActionView) -> bool,
)
    requires
        guarded(cfg, s, first, action),
        supplies(cfg, s, first) || guards(cfg, seq![StepView::Ask(q)], first, action),
    ensures
        #[trigger] guarded(cfg, s.ask(q), first, action),
{
    guarded_step(cfg, s, StepView::Ask(q), first, action);
}

/// One script after the other.
pub broadcast proof fn guarded_join(
    cfg: Config,
    s: ScriptView,
    t: ScriptView,
    first: spec_fn(Event) -> bool,
    action: spec_fn(ActionView) -> bool,
)
    requires
        guarded(cfg, s, first, action),
        supplies(cfg, s, first) || guarded(cfg, t, first, action),
    ensures
        #[trigger] guarded(cfg, s.join(t), first, action),
{
    guards_concat(cfg, s.steps, t.steps, first, action);
}

proof fn supplies_step(cfg: Config, s: ScriptView, step: StepView, first: spec_fn(Event) -> bool)
    requires
        supplies(cfg, s, first) || brings(cfg, seq![step], first),
    ensures
        supplies(cfg, s.step(step), first),
{
    brings_concat(cfg, s.steps, seq![step], first);
    assert(s.step(step).steps =~= s.steps + seq![step]);
}

/// One more line.
pub broadcast proof fn supplies_say(
    cfg: Config,
    s: ScriptView,
    text: Seq<char>,
    first: spec_fn(Event) -> bool,
)
    requires
        supplies(cfg, s, first),
    ensures
        #[trigger] supplies(cfg, s.say(text), first),
{
    supplies_step(cfg, s, StepView::Say(text), first);
}

/// One more action.
pub broadcast proof fn supplies_perform(
    cfg: Config,
    s: ScriptView,
    a: ActionView,
    rule: RuleView,
    first: spec_fn(Event) -> bool,
)
    requires
        supplies(cfg, s, first),
    ensures
        #[trigger] supplies(cfg, s.perform(a, rule), first),
{
    supplies_step(cfg, s, StepView::Do(a, rule), first);
}

/// One more question.
pub broadcast proof fn supplies_ask(
    cfg: Config,
    s: ScriptView,
    q: QuestionView,
    first: spec_fn(Event) -> bool,
)
    requires
        supplies(cfg, s, first) || brings(cfg, seq![StepView::Ask(q)], first),
    ensures
        #[trigger] supplies(cfg, s.ask(q), first),
{
    supplies_step(cfg, s, StepView::Ask(q), first);
}

/// One script after the other.
pub broadcast proof fn supplies_join(
    cfg: Config,
    s: ScriptView,
    t: ScriptView,
    first: spec_fn(Event) -> bool,
)
    requires
        supplies(cfg, s, first) || supplies(cfg, t, first),
    ensures
        #[trigger] supplies(cfg, s.join(t), first),
{
    brings_concat(cfg, s.steps, t.steps, first);
}

pub broadcast group group_guarded {
    guarded_new,
    guarded_say,
    guarded_report,
    guarded_fail,
    guarded_fail_with,
    guarded_perform,
    guarded_ask,
    guarded_join,
    supplies_say,
    supplies_perform,
    supplies_ask,
    supplies_join,
}

// ---------------------------------------------------------------------------------------------
// Runs that do not fail
// ---------------------------------------------------------------------------------------------
/// Whether steps of a kind lead to steps of that kind alone, none of which fails.
pub open spec fn steady(cfg: Config, kind: spec_fn(StepView) -> bool) -> bool {
    &&& forall|failure: FailureView| !(#[trigger] kind(StepView::Fail(failure)))
    &&& forall|text: Seq<char>| (#[trigger] kind(StepView::Report(text)))
    &&& forall|a: ActionView, rule: RuleView|
        (#[trigger] kind(StepView::Do(a, rule))) ==> rule is Ignore || rule is Warn
    &&& forall|q: QuestionView, reply: ReplyView|
        kind(StepView::Ask(q)) ==> all_of(#[trigger] question::answer_spec(cfg, q, reply), kind)
}

/// A run of steps of a steady kind does not fail: it comes to its end, unless it waits for a reply
/// that does not come.
pub proof fn steady_run(
    cfg: Config,
    kind: spec_fn(StepView) -> bool,
    todo: Seq<StepView>,
    replies: Seq<ReplyView>,
)
    requires
        steady(cfg, kind),
        all_steps(todo, kind),
    ensures
        !happened(run(cfg, todo, replies).events, |e: Event| e is Failed),
    decreases replies.len(), todo.len(),
{
    let events = run(cfg, todo, replies).events;
    if todo.len() > 0 {
        let rest = todo.skip(1);
        assert(all_steps(rest, kind)) by {
            assert forall|i: int| 0 <= i < rest.len() implies kind(#[trigger] rest[i]) by {
                assert(rest[i] == todo[i + 1]);
            }
        }
        assert(kind(todo[0]));
        let more = match todo[0] {
            StepView::Do(a, rule) => judge_spec(a, rule, replies[0]).steps,
            StepView::Ask(q) => question::answer_spec(cfg, q, replies[0]).steps,
            _ => Seq::empty(),
        };
        match todo[0] {
            StepView::Say(_) => steady_run(cfg, kind, rest, replies),
            StepView::Report(_) => steady_run(cfg, kind, rest, replies),
            StepView::Fail(_) => {},
            _ => if replies.len() > 0 {
                if let StepView::Ask(q) = todo[0] {
                    assert(all_of(question::answer_spec(cfg, q, replies[0]), kind));
                }
                all_steps_concat(more, rest, kind);
                steady_run(cfg, kind, more + rest, replies.skip(1));
            },
        }
        if happened(events, |e: Event| e is Failed) {
            let i = choose|i: int|
                0 <= i < events.len() && (|e: Event| e is Failed)(#[trigger] events[i]);
            assert(i > 0);
            let later = match todo[0] {
                StepView::Say(_) => run(cfg, rest, replies).events,
                StepView::Report(_) => run(cfg, rest, replies).events,
                _ => run(cfg, more + rest, replies.skip(1)).events,
            };
            assert(later[i - 1] == events[i]);
        }
    }
}

} // verus!
