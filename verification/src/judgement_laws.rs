//! What becomes of a run once an action is performed, rule by rule.
use vstd::prelude::*;

use crate::failure::FailureView;
use crate::runs::{run, Event, Run};
use crate::script::{ActionView, CommandView, ReplyView, RuleView, StepView};
use crate::session::judge_spec;
use crate::settings::Config;

verus! {

/// The run of one action under a rule.
pub open spec fn one_action(
    cfg: Config,
    action: ActionView,
    rule: RuleView,
    reply: ReplyView,
) -> Run {
    run(cfg, seq![StepView::Do(action, rule)], seq![reply])
}

/// Whether a run performed the action and came to its end without another word.
pub open spec fn goes_on(r: Run, action: ActionView, reply: ReplyView) -> bool {
    r.left is Some && r.events == seq![Event::Performed(action, reply)]
}

/// Whether a run performed the action and failed with an error.
pub open spec fn fails_with(r: Run, action: ActionView, reply: ReplyView, f: FailureView) -> bool {
    r.left is None && r.events == seq![Event::Performed(action, reply), Event::Failed(f)]
}

/// A cause, where there is a text.
pub open spec fn cause(text: Seq<char>) -> Seq<Seq<char>> {
    if text.len() > 0 {
        seq![text]
    } else {
        Seq::empty()
    }
}

/// The error of a command: that it could not be started, and why; how it ended otherwise; and where
/// nothing tells how, what it printed.
pub open spec fn error_of_command(c: CommandView, reply: ReplyView) -> FailureView {
    if !reply.spawned {
        FailureView {
            message: "failed to spawn '"@ + c.program + "'"@,
            causes: cause(reply.stderr),
        }
    } else if reply.status.len() > 0 {
        FailureView {
            message: "'"@ + c.line() + "' failed with "@ + reply.status,
            causes: Seq::empty(),
        }
    } else {
        FailureView { message: reply.stderr, causes: Seq::empty() }
    }
}

/// The error of an action.
pub open spec fn error_of(action: ActionView, reply: ReplyView) -> FailureView {
    match action.command() {
        Some(c) => error_of_command(c, reply),
        None => FailureView { message: reply.stderr, causes: Seq::empty() },
    }
}

proof fn judged(cfg: Config, action: ActionView, rule: RuleView, reply: ReplyView)
    ensures
        ({
            let more = judge_spec(action, rule, reply).steps;
            one_action(cfg, action, rule, reply) == run(cfg, more, Seq::empty()).after(
                Event::Performed(action, reply),
            )
        }),
{
    let one = seq![StepView::Do(action, rule)];
    let more = judge_spec(action, rule, reply).steps;
    assert(more + one.skip(1) =~= more);
    assert(seq![reply].skip(1) =~= Seq::<ReplyView>::empty());
}

/// An action that succeeds lets the run go on, whatever the rule is.
pub proof fn law_success_goes_on(
    cfg: Config,
    action: ActionView,
    rule: RuleView,
    reply: ReplyView,
)
    requires
        reply.ok,
    ensures
        goes_on(one_action(cfg, action, rule, reply), action, reply),
{
    judged(cfg, action, rule, reply);
    let r = one_action(cfg, action, rule, reply);
    assert(judge_spec(action, rule, reply).steps =~= Seq::<StepView>::empty());
    assert(r.events =~= seq![Event::Performed(action, reply)]);
}

/// An action that fails is passed over where its failure is to be ignored, and reported with the
/// given line where it is to be warned of; the run goes on in both cases.
pub proof fn law_failure_is_passed_over(
    cfg: Config,
    action: ActionView,
    line: Seq<char>,
    reply: ReplyView,
)
    requires
        !reply.ok,
    ensures
        goes_on(one_action(cfg, action, RuleView::Ignore, reply), action, reply),
        ({
            let r = one_action(cfg, action, RuleView::Warn(line), reply);
            r.left is Some && r.events == seq![
                Event::Performed(action, reply),
                Event::Reported(line),
            ]
        }),
{
    judged(cfg, action, RuleView::Ignore, reply);
    let a = one_action(cfg, action, RuleView::Ignore, reply);
    assert(judge_spec(action, RuleView::Ignore, reply).steps =~= Seq::<StepView>::empty());
    assert(a.events =~= seq![Event::Performed(action, reply)]);
    judged(cfg, action, RuleView::Warn(line), reply);
    let b = one_action(cfg, action, RuleView::Warn(line), reply);
    let more = judge_spec(action, RuleView::Warn(line), reply).steps;
    assert(more =~= seq![StepView::Report(line)]);
    let none = Seq::<ReplyView>::empty();
    assert(more.skip(1) =~= Seq::<StepView>::empty());
    assert(run(cfg, more, none) == run(cfg, more.skip(1), none).after(Event::Reported(line)));
    assert(b.events =~= seq![Event::Performed(action, reply), Event::Reported(line)]);
}

/// An action that fails ends the run where it is required to succeed. The error is that of the
/// action; or a message over it; or a message over what was printed, or over a path and what was
/// printed; or what was printed alone.
pub proof fn law_failure_ends_the_run(
    cfg: Config,
    action: ActionView,
    message: Seq<char>,
    reply: ReplyView,
)
    requires
        !reply.ok,
    ensures
        fails_with(
            one_action(cfg, action, RuleView::Require, reply),
            action,
            reply,
            error_of(action, reply),
        ),
        fails_with(
            one_action(cfg, action, RuleView::Explain(message), reply),
            action,
            reply,
            (FailureView {
                message,
                causes: seq![error_of(action, reply).message] + error_of(action, reply).causes,
            }),
        ),
        fails_with(
            one_action(cfg, action, RuleView::Expect(message), reply),
            action,
            reply,
            (FailureView { message, causes: cause(reply.stderr) }),
        ),
        fails_with(
            one_action(cfg, action, RuleView::ExpectAt(message), reply),
            action,
            reply,
            (FailureView { message: message + reply.stdout, causes: cause(reply.stderr) }),
        ),
        fails_with(
            one_action(cfg, action, RuleView::Relay, reply),
            action,
            reply,
            (FailureView { message: reply.stderr, causes: Seq::empty() }),
        ),
{
    let f = error_of(action, reply);
    assert(crate::session::action_failure_spec(action, reply) =~= f) by {
        if let Some(c) = action.command() {
            because_is(c, reply);
        }
    }
    ends(cfg, action, RuleView::Require, reply, f);
    let g = FailureView { message, causes: seq![f.message] + f.causes };
    ends(cfg, action, RuleView::Explain(message), reply, g);
    let h = FailureView { message, causes: cause(reply.stderr) };
    assert(FailureView::because(message, reply.stderr) =~= h);
    ends(cfg, action, RuleView::Expect(message), reply, h);
    let k = FailureView { message: message + reply.stdout, causes: cause(reply.stderr) };
    assert(FailureView::because(message + reply.stdout, reply.stderr) =~= k);
    ends(cfg, action, RuleView::ExpectAt(message), reply, k);
    let l = FailureView { message: reply.stderr, causes: Seq::empty() };
    ends(cfg, action, RuleView::Relay, reply, l);
}

proof fn because_is(c: CommandView, reply: ReplyView)
    ensures
        crate::script::failure_spec(c, reply) == error_of_command(c, reply),
{
    assert(crate::script::failure_spec(c, reply).causes =~= error_of_command(c, reply).causes);
}

proof fn ends(
    cfg: Config,
    action: ActionView,
    rule: RuleView,
    reply: ReplyView,
    f: FailureView,
)
    requires
        judge_spec(action, rule, reply).steps =~= seq![StepView::Fail(f)],
    ensures
        fails_with(one_action(cfg, action, rule, reply), action, reply, f),
{
    judged(cfg, action, rule, reply);
    let r = one_action(cfg, action, rule, reply);
    let end = run(cfg, seq![StepView::Fail(f)], Seq::empty());
    assert(end.events =~= seq![Event::Failed(f)]);
    assert(r.events =~= seq![Event::Performed(action, reply), Event::Failed(f)]);
}

} // verus!
