//! How a teardown waits: it asks again until what it deleted is gone, and gives up no sooner than the
//! time that it was given is over.
use vstd::prelude::*;

use crate::cleanup_laws::{is_action, step_of};
use crate::duties::{
    demanded_is_done, demands, does, done, duty, duty_is_done, justified, reasonable,
    reasonable_run, tried, tried_is_performed,
};
use crate::kube::{law_workloads_of_a_listing, workloads_spec, K8sTargetView};
use crate::question;
use crate::question::QuestionView;
use crate::runs::{
    all_of, group_all_of, group_guarded, group_some_of, guarded, happened, run, some_of_each,
    supplies, tame_guards, Event,
};
use crate::script::{
    command, for_each_spec, ActionView, CommandView, ReplyView, RuleView, ScriptView, StepView,
};
use crate::settings::Config;
use crate::stretches::{answered, finishes, group_holds, holds, question_is_answered};
use crate::teardown;
use crate::teardown::TeardownQuestionView;
use crate::text::{contains_spec, is_blank_spec, lowercase_spec, names_spec};

verus! {

/// kubectl, bound to a target.
pub open spec fn kubectl_to(target: K8sTargetView) -> CommandView {
    match target {
        K8sTargetView::Kind { context } => command("kubectl"@).arg("--context"@).arg(context),
        K8sTargetView::SelfManaged { kubeconfig } => command("kubectl"@)
            .arg("--kubeconfig"@).arg(kubeconfig),
    }
}

/// The listing of the CAPI clusters of a target.
pub open spec fn lists_all(target: K8sTargetView) -> ActionView {
    ActionView::Inspect(
        kubectl_to(target)
            .arg("get"@).arg("clusters"@).arg("-A"@).arg("-o"@).arg("name"@)
            .arg("--request-timeout=30s"@),
    )
}

/// The deletion of a CAPI cluster.
pub open spec fn deletes_listed(target: K8sTargetView, name: Seq<char>) -> ActionView {
    ActionView::Run(
        kubectl_to(target).arg("delete"@).arg("cluster"@).arg(name).arg("--ignore-not-found"@),
    )
}

/// Whether a listing succeeded.
pub open spec fn has_listed(reply: ReplyView) -> bool {
    reply.ok && !is_blank_spec(reply.stdout)
}

/// Whether a listing succeeded and shows a cluster other than the management cluster.
pub open spec fn workload_left(reply: ReplyView, mgmt: Seq<char>) -> bool {
    has_listed(reply) && exists|name: Seq<char>| #[trigger]
        names_spec(reply.stdout).contains(name) && name != mgmt
}

/// All that a query printed, in lower case.
pub open spec fn printed(reply: ReplyView) -> Seq<char> {
    lowercase_spec(reply.stdout + "\n"@ + reply.stderr)
}

/// Whether a listing failed, and not because the API server knows no such resource.
pub open spec fn is_unknown(reply: ReplyView) -> bool {
    !reply.ok && !contains_spec(printed(reply), "the server doesn't have a resource type"@)
}

/// Whether the query for one resource failed, and not because there is none.
pub open spec fn is_unknown_one(reply: ReplyView) -> bool {
    is_unknown(reply) && !contains_spec(printed(reply), "not found"@) && !contains_spec(
        printed(reply),
        "notfound"@,
    )
}

// ---------------------------------------------------------------------------------------------
// The workload clusters on AWS
// ---------------------------------------------------------------------------------------------
/// The wait for the workload clusters on AWS.
pub open spec fn aws_wait(
    target: K8sTargetView,
    mgmt_cluster: Seq<char>,
    timeout: u64,
    force: bool,
) -> Seq<StepView> {
    seq![
        StepView::Ask(
            QuestionView::Teardown(
                TeardownQuestionView::AwsClustersGone { target, mgmt_cluster, timeout, force },
            ),
        ),
    ]
}

proof fn listing_is_read(reply: ReplyView, mgmt: Seq<char>)
    ensures
        workload_left(reply, mgmt) <==> has_listed(reply) && workloads_spec(
            reply.stdout,
            mgmt,
        ).len() > 0,
        forall|name: Seq<char>|
            #![trigger workloads_spec(reply.stdout, mgmt).contains(name)]
            #![trigger names_spec(reply.stdout).contains(name)]
            workloads_spec(reply.stdout, mgmt).contains(name) <==> names_spec(
                reply.stdout,
            ).contains(name) && name != mgmt,
{
    law_workloads_of_a_listing(reply.stdout, mgmt);
    let left = workloads_spec(reply.stdout, mgmt);
    if left.len() > 0 {
        assert(left.contains(left[0]));
    }
    if workload_left(reply, mgmt) {
        let name = choose|name: Seq<char>| #[trigger]
            names_spec(reply.stdout).contains(name) && name != mgmt;
        assert(left.contains(name));
    }
}

/// While a listing succeeds, shows a workload cluster and came before the time is over, the wait goes
/// on: it says so, sleeps 30 seconds, and is then the very same wait on the replies that follow.
pub proof fn law_aws_wait_goes_on(
    cfg: Config,
    target: K8sTargetView,
    mgmt_cluster: Seq<char>,
    timeout: u64,
    force: bool,
    replies: Seq<ReplyView>,
)
    requires
        replies.len() >= 2,
        workload_left(replies[0], mgmt_cluster),
        replies[0].elapsed < timeout,
    ensures
        ({
            let wait = aws_wait(target, mgmt_cluster, timeout, force);
            let now = run(cfg, wait, replies);
            let again = run(cfg, wait, replies.skip(2));
            &&& now.left == again.left
            &&& now.events.len() == again.events.len() + 3
            &&& now.events[0] == Event::Performed(lists_all(target), replies[0])
            &&& now.events[1] is Said
            &&& now.events[2] == Event::Performed(ActionView::Sleep(30), replies[1])
            &&& now.events.skip(3) == again.events
        }),
{
    let wait = aws_wait(target, mgmt_cluster, timeout, force);
    let q = QuestionView::Teardown(
        TeardownQuestionView::AwsClustersGone { target, mgmt_cluster, timeout, force },
    );
    listing_is_read(replies[0], mgmt_cluster);
    assert(question::action_spec(cfg, q) == lists_all(target));
    let s = question::answer_spec(cfg, q, replies[0]).steps;
    assert(s + wait.skip(1) =~= s);
    assert(s.len() == 3);
    let later = replies.skip(1);
    let asleep = s.skip(1);
    assert(asleep[0] == StepView::Do(ActionView::Sleep(30), RuleView::Ignore));
    assert(Seq::<StepView>::empty() + asleep.skip(1) =~= wait);
    assert(later.skip(1) =~= replies.skip(2));
    let again = run(cfg, wait, replies.skip(2));
    let slept = run(cfg, asleep, later);
    assert(crate::session::judge_spec(ActionView::Sleep(30), RuleView::Ignore, later[0]).steps
        =~= Seq::<StepView>::empty());
    assert(slept == again.after(Event::Performed(ActionView::Sleep(30), later[0])));
    let said = run(cfg, s, later);
    assert(run(cfg, wait, replies).events.skip(3) =~= again.events);
}

/// The wait ends without an error as soon as a listing succeeds and shows no workload cluster,
/// however often it was asked before: as long as each listing before succeeded and came before the
/// time was over, nothing fails.
pub proof fn law_aws_wait_ends_when_they_are_gone(
    cfg: Config,
    target: K8sTargetView,
    mgmt_cluster: Seq<char>,
    timeout: u64,
    force: bool,
    replies: Seq<ReplyView>,
    polls: int,
)
    requires
        0 <= polls,
        replies.len() > 2 * polls,
        forall|i: int|
            #![trigger replies[2 * i]]
            0 <= i < polls ==> workload_left(replies[2 * i], mgmt_cluster) && replies[2
                * i].elapsed < timeout,
        replies[2 * polls].ok,
        !workload_left(replies[2 * polls], mgmt_cluster),
    ensures
        run(cfg, aws_wait(target, mgmt_cluster, timeout, force), replies).left == Some(
            replies.skip(2 * polls + 1),
        ),
        !happened(
            run(cfg, aws_wait(target, mgmt_cluster, timeout, force), replies).events,
            |e: Event| e is Failed,
        ),
    decreases polls,
{
    let wait = aws_wait(target, mgmt_cluster, timeout, force);
    let failed = |e: Event| e is Failed;
    if polls == 0 {
        let q = QuestionView::Teardown(
            TeardownQuestionView::AwsClustersGone { target, mgmt_cluster, timeout, force },
        );
        assert(replies[2 * polls] == replies[0]);
        listing_is_read(replies[0], mgmt_cluster);
        let s = question::answer_spec(cfg, q, replies[0]).steps;
        assert(s + wait.skip(1) =~= s);
        assert(s.len() == 1 && s[0] is Say);
        let told = run(cfg, s, replies.skip(1));
        assert(s.skip(1) =~= Seq::<StepView>::empty());
        assert(run(cfg, s.skip(1), replies.skip(1)).left == Some(replies.skip(1)));
        assert(told.left == Some(replies.skip(1)));
    } else {
        assert(replies[0] == replies[2 * 0int]);
        law_aws_wait_goes_on(cfg, target, mgmt_cluster, timeout, force, replies);
        let later = replies.skip(2);
        assert forall|i: int|
            #![trigger later[2 * i]]
            0 <= i < polls - 1 implies workload_left(later[2 * i], mgmt_cluster) && later[2
                * i].elapsed < timeout by {
            assert(later[2 * i] == replies[2 * (i + 1)]);
        }
        assert(later[2 * (polls - 1)] == replies[2 * polls]);
        law_aws_wait_ends_when_they_are_gone(
            cfg,
            target,
            mgmt_cluster,
            timeout,
            force,
            later,
            polls - 1,
        );
        assert(later.skip(2 * (polls - 1) + 1) =~= replies.skip(2 * polls + 1));
        let now = run(cfg, wait, replies).events;
        let again = run(cfg, wait, later).events;
        assert(!happened(again, failed));
        assert forall|k: int| 0 <= k < now.len() implies !failed(#[trigger] now[k]) by {
            if k >= 3 {
                assert(now[k] == now.skip(3)[k - 3]);
                assert(!failed(again[k - 3]));
            }
        }
    }
}

/// What is a reason to give up on the workload clusters: a listing that fails, or one that succeeds,
/// came when the time was over and still shows a workload cluster.
pub open spec fn gives_up(
    target: K8sTargetView,
    mgmt_cluster: Seq<char>,
    timeout: u64,
) -> spec_fn(Event) -> bool {
    |e: Event|
        match e {
            Event::Performed(a, reply) => a == lists_all(target) && (is_unknown(reply) || (
            workload_left(reply, mgmt_cluster) && reply.elapsed >= timeout)),
            _ => false,
        }
}

/// The deletion of the workload clusters fails for no other reason than a listing that fails, or one
/// that still shows a workload cluster when the time is over.
pub proof fn law_aws_deletion_gives_up_late(
    cfg: Config,
    target: K8sTargetView,
    mgmt_cluster: Seq<char>,
    timeout: u64,
    force: bool,
    replies: Seq<ReplyView>,
)
    ensures
        justified(
            run(
                cfg,
                teardown::delete_aws_workload_clusters_spec(
                    target,
                    mgmt_cluster,
                    timeout,
                    force,
                ).steps,
                replies,
            ).events,
            gives_up(target, mgmt_cluster, timeout),
        ),
{
    broadcast use group_all_of;

    let s = teardown::delete_aws_workload_clusters_spec(target, mgmt_cluster, timeout, force);
    let reason = gives_up(target, mgmt_cluster, timeout);
    let first = QuestionView::Teardown(
        TeardownQuestionView::AwsClusters { target, mgmt_cluster, timeout, force },
    );
    let next = QuestionView::Teardown(
        TeardownQuestionView::AwsClustersGone { target, mgmt_cluster, timeout, force },
    );
    let kind = |step: StepView|
        match step {
            StepView::Fail(_) => false,
            StepView::Do(_, rule) => rule is Ignore,
            StepView::Ask(q) => q == first || q == next,
            _ => true,
        };
    assert(reasonable(cfg, kind, reason)) by {
        assert forall|q: QuestionView, reply: ReplyView| kind(StepView::Ask(q)) implies reason(
            Event::Performed(question::action_spec(cfg, q), reply),
        ) || all_of(#[trigger] question::answer_spec(cfg, q, reply), kind) by {
            listing_is_read(reply, mgmt_cluster);
            assert(question::action_spec(cfg, q) == lists_all(target));
            let one = |item: Seq<char>| teardown::delete_cluster_spec(item, target);
            assert forall|item: Seq<char>| all_of(#[trigger] one(item), kind) by {}
        }
    }
    assert(all_of(s, kind));
    reasonable_run(cfg, kind, reason, s.steps, replies);
}

/// Each workload cluster of the first listing is deleted, before the wait begins and in any case
/// before the end.
pub proof fn law_listed_workloads_are_deleted(
    cfg: Config,
    target: K8sTargetView,
    mgmt_cluster: Seq<char>,
    timeout: u64,
    force: bool,
    reply: ReplyView,
    name: Seq<char>,
)
    requires
        has_listed(reply),
        names_spec(reply.stdout).contains(name),
        name != mgmt_cluster,
    ensures
        teardown::delete_aws_workload_clusters_spec(target, mgmt_cluster, timeout, force).steps.last()
            == StepView::Ask(
            QuestionView::Teardown(
                TeardownQuestionView::AwsClusters { target, mgmt_cluster, timeout, force },
            ),
        ),
        question::action_spec(
            cfg,
            QuestionView::Teardown(
                TeardownQuestionView::AwsClusters { target, mgmt_cluster, timeout, force },
            ),
        ) == lists_all(target),
        does(
            cfg,
            question::answer_spec(
                cfg,
                QuestionView::Teardown(
                    TeardownQuestionView::AwsClusters { target, mgmt_cluster, timeout, force },
                ),
                reply,
            ).steps,
            duty(
                tried(is_action(deletes_listed(target, name))),
                |a: ActionView| a is Clock || a is Sleep,
            ),
        ),
{
    broadcast use {group_guarded, group_all_of};

    let q = QuestionView::Teardown(
        TeardownQuestionView::AwsClusters { target, mgmt_cluster, timeout, force },
    );
    let s = question::answer_spec(cfg, q, reply);
    let first = tried(is_action(deletes_listed(target, name)));
    let stop = |a: ActionView| a is Clock || a is Sleep;
    listing_is_read(reply, mgmt_cluster);
    let left = workloads_spec(reply.stdout, mgmt_cluster);
    assert(left.contains(name));
    assert(left.len() > 0);
    let i = choose|i: int| 0 <= i < left.len() && left[i] == name;
    let one = |item: Seq<char>| teardown::delete_cluster_spec(item, target);
    let each = for_each_spec(left, one);
    let wanted = step_of(deletes_listed(target, name));
    assert(wanted(one(name).steps.last()));
    some_of_each(left, one, wanted, i);
    tried_is_performed(cfg, each, is_action(deletes_listed(target, name)));
    let calm = |step: StepView|
        match step {
            StepView::Ask(_) => false,
            StepView::Do(a, _) => !stop(a),
            _ => true,
        };
    assert forall|item: Seq<char>| all_of(#[trigger] one(item), calm) by {}
    assert(all_of(each, calm));
    tame_guards(cfg, calm, first, stop, each.steps);
    assert(supplies(cfg, each, first));
    assert(guarded(cfg, each, first, stop));
    let start = ScriptView::new().join(each);
    assert(start.steps =~= each.steps);
    assert(guarded(cfg, s, first, stop));
    assert(supplies(cfg, s, first));
    duty_is_done(cfg, s.steps, first, stop);
}

// ---------------------------------------------------------------------------------------------
// Workload clusters in Docker
// ---------------------------------------------------------------------------------------------
/// The query for one CAPI cluster.
pub open spec fn asks_cluster(target: K8sTargetView, cluster: Seq<char>) -> ActionView {
    ActionView::Inspect(
        kubectl_to(target)
            .arg("get"@).arg("cluster"@).arg(cluster).arg("-n"@).arg("default"@)
            .arg("--request-timeout=30s"@),
    )
}

/// The deletion of one CAPI cluster, without a wait.
pub open spec fn deletes_one(target: K8sTargetView, cluster: Seq<char>) -> ActionView {
    ActionView::Run(
        kubectl_to(target)
            .arg("delete"@).arg("cluster"@).arg(cluster).arg("-n"@).arg("default"@)
            .arg("--wait=false"@),
    )
}

/// The wait for a workload cluster in Docker.
pub open spec fn capd_wait(target: K8sTargetView, cluster: Seq<char>, timeout: u64) -> Seq<StepView> {
    seq![
        StepView::Ask(
            QuestionView::Teardown(TeardownQuestionView::WorkloadGone { target, cluster, timeout }),
        ),
    ]
}

/// While the cluster is there and the time is not over, the wait goes on: it sleeps 10 seconds, and
/// is then the very same wait on the replies that follow.
pub proof fn law_capd_wait_goes_on(
    cfg: Config,
    target: K8sTargetView,
    cluster: Seq<char>,
    timeout: u64,
    replies: Seq<ReplyView>,
)
    requires
        replies.len() >= 2,
        has_listed(replies[0]),
        replies[0].elapsed < timeout,
    ensures
        ({
            let wait = capd_wait(target, cluster, timeout);
            let now = run(cfg, wait, replies);
            let again = run(cfg, wait, replies.skip(2));
            &&& now.left == again.left
            &&& now.events == seq![
                Event::Performed(asks_cluster(target, cluster), replies[0]),
                Event::Performed(ActionView::Sleep(10), replies[1]),
            ] + again.events
        }),
{
    let wait = capd_wait(target, cluster, timeout);
    let q = QuestionView::Teardown(TeardownQuestionView::WorkloadGone { target, cluster, timeout });
    assert(question::action_spec(cfg, q) == asks_cluster(target, cluster));
    let s = question::answer_spec(cfg, q, replies[0]).steps;
    assert(s + wait.skip(1) =~= s);
    let later = replies.skip(1);
    assert(s[0] == StepView::Do(ActionView::Sleep(10), RuleView::Ignore));
    assert(Seq::<StepView>::empty() + s.skip(1) =~= wait);
    assert(later.skip(1) =~= replies.skip(2));
    let again = run(cfg, wait, replies.skip(2));
    assert(crate::session::judge_spec(ActionView::Sleep(10), RuleView::Ignore, later[0]).steps
        =~= Seq::<StepView>::empty());
    let slept = run(cfg, s, later);
    assert(slept == again.after(Event::Performed(ActionView::Sleep(10), later[0])));
    assert(run(cfg, wait, replies).events =~= seq![
        Event::Performed(asks_cluster(target, cluster), replies[0]),
        Event::Performed(ActionView::Sleep(10), replies[1]),
    ] + again.events);
}

/// What is a reason to give up on a workload cluster in Docker: its state is unknown, its deletion
/// fails, or it is still there when the time is over.
pub open spec fn gives_up_on(
    target: K8sTargetView,
    cluster: Seq<char>,
    timeout: u64,
) -> spec_fn(Event) -> bool {
    |e: Event|
        match e {
            Event::Performed(a, reply) => {
                ||| a == asks_cluster(target, cluster) && is_unknown_one(reply)
                ||| a == asks_cluster(target, cluster) && has_listed(reply) && reply.elapsed
                    >= timeout
                ||| a == deletes_one(target, cluster) && !reply.ok
            },
            _ => false,
        }
}

/// The deletion of a workload cluster in Docker fails for no other reason than an unknown state, a
/// refused deletion, or a cluster that is still there when the time is over.
pub proof fn law_capd_deletion_gives_up_late(
    cfg: Config,
    target: K8sTargetView,
    cluster: Seq<char>,
    timeout: u64,
    replies: Seq<ReplyView>,
)
    ensures
        justified(
            run(
                cfg,
                teardown::delete_capi_workload_spec(cluster, target, timeout).steps,
                replies,
            ).events,
            gives_up_on(target, cluster, timeout),
        ),
{
    broadcast use group_all_of;

    let s = teardown::delete_capi_workload_spec(cluster, target, timeout);
    let reason = gives_up_on(target, cluster, timeout);
    let first = QuestionView::Teardown(
        TeardownQuestionView::WorkloadState { target, cluster, timeout },
    );
    let next = QuestionView::Teardown(
        TeardownQuestionView::WorkloadGone { target, cluster, timeout },
    );
    let kind = |step: StepView|
        match step {
            StepView::Fail(_) => false,
            StepView::Do(a, rule) => rule is Ignore || a == deletes_one(target, cluster),
            StepView::Ask(q) => q == first || q == next,
            _ => true,
        };
    assert(reasonable(cfg, kind, reason)) by {
        assert forall|q: QuestionView, reply: ReplyView| kind(StepView::Ask(q)) implies reason(
            Event::Performed(question::action_spec(cfg, q), reply),
        ) || all_of(#[trigger] question::answer_spec(cfg, q, reply), kind) by {
            assert(question::action_spec(cfg, q) == asks_cluster(target, cluster));
        }
    }
    assert(all_of(s, kind));
    reasonable_run(cfg, kind, reason, s.steps, replies);
}

/// A workload cluster in Docker that is there is deleted.
pub proof fn law_present_workload_is_deleted(
    cfg: Config,
    target: K8sTargetView,
    cluster: Seq<char>,
    timeout: u64,
)
    ensures
        holds(
            cfg,
            teardown::delete_capi_workload_spec(cluster, target, timeout),
            answered(
                asks_cluster(target, cluster),
                |reply: ReplyView, events: Seq<Event>|
                    has_listed(reply) ==> happened(
                        events,
                        done(is_action(deletes_one(target, cluster))),
                    ),
            ),
        ),
{
    broadcast use {group_holds, group_some_of};

    let q = QuestionView::Teardown(
        TeardownQuestionView::WorkloadState { target, cluster, timeout },
    );
    let rest = |reply: ReplyView, events: Seq<Event>|
        has_listed(reply) ==> happened(events, done(is_action(deletes_one(target, cluster))));
    assert(question::action_spec(cfg, q) == asks_cluster(target, cluster));
    assert forall|reply: ReplyView|
        finishes(
            cfg,
            #[trigger] question::answer_spec(cfg, q, reply),
            |events: Seq<Event>| rest(reply, events),
        ) by {
        let s = question::answer_spec(cfg, q, reply);
        if has_listed(reply) {
            let wanted = is_action(deletes_one(target, cluster));
            assert(demands(wanted)(s.steps[0]));
            demanded_is_done(cfg, s, wanted);
        }
    }
    question_is_answered(cfg, q, rest);
}

// ---------------------------------------------------------------------------------------------
// Hardware
// ---------------------------------------------------------------------------------------------
/// The wait for the clusters that hold hardware.
pub open spec fn hardware_wait(target: K8sTargetView, timeout: u64) -> Seq<StepView> {
    seq![
        StepView::Ask(
            QuestionView::Teardown(TeardownQuestionView::HardwareGone { target, timeout }),
        ),
    ]
}

/// While a cluster is listed and the time is not over, the wait goes on: it says so, sleeps 30
/// seconds, and is then the very same wait on the replies that follow.
pub proof fn law_hardware_wait_goes_on(
    cfg: Config,
    target: K8sTargetView,
    timeout: u64,
    replies: Seq<ReplyView>,
)
    requires
        replies.len() >= 2,
        has_listed(replies[0]),
        replies[0].elapsed < timeout,
    ensures
        ({
            let wait = hardware_wait(target, timeout);
            let now = run(cfg, wait, replies);
            let again = run(cfg, wait, replies.skip(2));
            &&& now.left == again.left
            &&& now.events.len() == again.events.len() + 3
            &&& now.events[0] == Event::Performed(lists_all(target), replies[0])
            &&& now.events[1] is Said
            &&& now.events[2] == Event::Performed(ActionView::Sleep(30), replies[1])
            &&& now.events.skip(3) == again.events
        }),
{
    let wait = hardware_wait(target, timeout);
    let q = QuestionView::Teardown(TeardownQuestionView::HardwareGone { target, timeout });
    assert(question::action_spec(cfg, q) == lists_all(target));
    let s = question::answer_spec(cfg, q, replies[0]).steps;
    assert(s + wait.skip(1) =~= s);
    assert(s.len() == 3);
    let later = replies.skip(1);
    let asleep = s.skip(1);
    assert(asleep[0] == StepView::Do(ActionView::Sleep(30), RuleView::Ignore));
    assert(Seq::<StepView>::empty() + asleep.skip(1) =~= wait);
    assert(later.skip(1) =~= replies.skip(2));
    let again = run(cfg, wait, replies.skip(2));
    let slept = run(cfg, asleep, later);
    assert(crate::session::judge_spec(ActionView::Sleep(30), RuleView::Ignore, later[0]).steps
        =~= Seq::<StepView>::empty());
    assert(slept == again.after(Event::Performed(ActionView::Sleep(30), later[0])));
    let said = run(cfg, s, later);
    assert(run(cfg, wait, replies).events.skip(3) =~= again.events);
}

/// What is a reason to give up on the release of hardware: a listing that fails, or one that still
/// shows a cluster when the time is over.
pub open spec fn gives_up_release(target: K8sTargetView, timeout: u64) -> spec_fn(Event) -> bool {
    |e: Event|
        match e {
            Event::Performed(a, reply) => a == lists_all(target) && (is_unknown(reply) || (
            has_listed(reply) && reply.elapsed >= timeout)),
            _ => false,
        }
}

/// The release of hardware fails for no other reason than a listing that fails, or one that still
/// shows a cluster when the time is over.
pub proof fn law_release_gives_up_late(
    cfg: Config,
    target: K8sTargetView,
    timeout: u64,
    replies: Seq<ReplyView>,
)
    ensures
        justified(
            run(
                cfg,
                seq![
                    StepView::Ask(
                        QuestionView::Teardown(
                            TeardownQuestionView::HardwareClusters { target, timeout },
                        ),
                    ),
                ],
                replies,
            ).events,
            gives_up_release(target, timeout),
        ),
{
    broadcast use group_all_of;

    let reason = gives_up_release(target, timeout);
    let first = QuestionView::Teardown(TeardownQuestionView::HardwareClusters { target, timeout });
    let next = QuestionView::Teardown(TeardownQuestionView::HardwareGone { target, timeout });
    let kind = |step: StepView|
        match step {
            StepView::Fail(_) => false,
            StepView::Do(_, rule) => rule is Ignore,
            StepView::Ask(q) => q == first || q == next,
            _ => true,
        };
    assert(reasonable(cfg, kind, reason)) by {
        assert forall|q: QuestionView, reply: ReplyView| kind(StepView::Ask(q)) implies reason(
            Event::Performed(question::action_spec(cfg, q), reply),
        ) || all_of(#[trigger] question::answer_spec(cfg, q, reply), kind) by {
            assert(question::action_spec(cfg, q) == lists_all(target));
            let one = |item: Seq<char>| teardown::release_cluster_spec(item, target);
            assert forall|item: Seq<char>| all_of(#[trigger] one(item), kind) by {}
        }
    }
    reasonable_run(cfg, kind, reason, seq![StepView::Ask(first)], replies);
}

/// Each cluster of the first listing is deleted, before the wait begins and in any case before the
/// end.
pub proof fn law_listed_hardware_is_released(
    cfg: Config,
    target: K8sTargetView,
    timeout: u64,
    reply: ReplyView,
    name: Seq<char>,
)
    requires
        has_listed(reply),
        names_spec(reply.stdout).contains(name),
    ensures
        question::action_spec(
            cfg,
            QuestionView::Teardown(TeardownQuestionView::HardwareClusters { target, timeout }),
        ) == lists_all(target),
        does(
            cfg,
            question::answer_spec(
                cfg,
                QuestionView::Teardown(TeardownQuestionView::HardwareClusters { target, timeout }),
                reply,
            ).steps,
            duty(
                tried(is_action(deletes_listed(target, name))),
                |a: ActionView| a is Clock || a is Sleep,
            ),
        ),
{
    broadcast use {group_guarded, group_all_of};

    let q = QuestionView::Teardown(TeardownQuestionView::HardwareClusters { target, timeout });
    let s = question::answer_spec(cfg, q, reply);
    let first = tried(is_action(deletes_listed(target, name)));
    let stop = |a: ActionView| a is Clock || a is Sleep;
    let found = names_spec(reply.stdout);
    let i = choose|i: int| 0 <= i < found.len() && found[i] == name;
    let one = |item: Seq<char>| teardown::release_cluster_spec(item, target);
    let each = for_each_spec(found, one);
    let wanted = step_of(deletes_listed(target, name));
    assert(wanted(one(name).steps.last()));
    some_of_each(found, one, wanted, i);
    tried_is_performed(cfg, each, is_action(deletes_listed(target, name)));
    let calm = |step: StepView|
        match step {
            StepView::Ask(_) => false,
            StepView::Do(a, _) => !stop(a),
            _ => true,
        };
    assert forall|item: Seq<char>| all_of(#[trigger] one(item), calm) by {}
    assert(all_of(each, calm));
    tame_guards(cfg, calm, first, stop, each.steps);
    assert(supplies(cfg, each, first));
    assert(guarded(cfg, each, first, stop));
    let start = ScriptView::new().join(each);
    assert(start.steps =~= each.steps);
    assert(guarded(cfg, s, first, stop));
    assert(supplies(cfg, s, first));
    duty_is_done(cfg, s.steps, first, stop);
}

} // verus!
