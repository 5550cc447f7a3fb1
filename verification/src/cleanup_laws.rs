//! What the orphan sweep does about what it finds: what a query shows to be there is deleted, under
//! the very name that was asked for.
use vstd::prelude::*;

use crate::aws::{aws_sweep_targets_spec, AwsSweepTargetView};
use crate::duties::{tried, tried_is_performed, tries};
use crate::question;
use crate::question::QuestionView;
use crate::runs::{group_some_of, happened, run, some_of, some_of_each, some_of_join, Event};
use crate::script::{
    command, for_each_spec, ActionView, CommandView, ReplyView, ScriptView, StepView,
};
use crate::settings::Config;
use crate::stretches::{
    answered, finishes, group_holds, has_stretch, holds, holds_each_target, holds_whole,
    question_is_answered,
};
use crate::sweep;
use crate::sweep::{
    cleanup_cfn_stack_spec, cleanup_eks_cluster_spec, cleanup_nodegroups_spec,
    cleanup_pod_identity_associations_spec, cleanup_rds_instance_spec, sweep_spec,
    wait_eks_cluster_deleted_spec, wait_nodegroups_deleted_spec, SweepQuestionView,
};
use crate::text::{trim_spec, words_spec};

verus! {

// ---------------------------------------------------------------------------------------------
// What is done about what is found
// ---------------------------------------------------------------------------------------------
/// The very action.
pub open spec fn is_action(action: ActionView) -> spec_fn(ActionView) -> bool {
    |a: ActionView| a == action
}

/// Whether an action is performed.
pub open spec fn performed(events: Seq<Event>, action: ActionView) -> bool {
    happened(events, tried(is_action(action)))
}

/// A step that performs the very action.
pub open spec fn step_of(action: ActionView) -> spec_fn(StepView) -> bool {
    tries(is_action(action))
}

/// That something is done where the reply shows that the resource is there.
pub open spec fn if_there(
    kind: spec_fn(Seq<Event>) -> bool,
) -> spec_fn(ReplyView, Seq<Event>) -> bool {
    |reply: ReplyView, events: Seq<Event>| reply.ok ==> kind(events)
}

/// That an action is performed.
pub open spec fn performing(action: ActionView) -> spec_fn(Seq<Event>) -> bool {
    |events: Seq<Event>| performed(events, action)
}

/// That something is done about each word of the reply.
pub open spec fn for_listed(
    one: spec_fn(Seq<char>) -> ActionView,
) -> spec_fn(ReplyView, Seq<Event>) -> bool {
    |reply: ReplyView, events: Seq<Event>|
        forall|name: Seq<char>| #[trigger]
            words_spec(reply.stdout).contains(name) ==> performed(events, one(name))
}

/// A script with a step that performs the action performs it.
pub proof fn steps_perform(cfg: Config, s: ScriptView, action: ActionView)
    requires
        some_of(s, step_of(action)),
    ensures
        finishes(cfg, s, performing(action)),
{
    tried_is_performed(cfg, s, is_action(action));
}

/// Scripts that do something about each item.
pub proof fn items_perform(
    cfg: Config,
    s: ScriptView,
    items: Seq<Seq<char>>,
    script: spec_fn(Seq<char>) -> ScriptView,
    one: spec_fn(Seq<char>) -> ActionView,
)
    requires
        forall|name: Seq<char>| some_of(#[trigger] script(name), step_of(one(name))),
        s == ScriptView::new().join(for_each_spec(items, script)),
    ensures
        forall|name: Seq<char>| #[trigger]
            items.contains(name) ==> finishes(cfg, s, performing(one(name))),
{
    assert forall|name: Seq<char>| #[trigger] items.contains(name) implies finishes(
        cfg,
        s,
        performing(one(name)),
    ) by {
        let i = choose|i: int| 0 <= i < items.len() && items[i] == name;
        assert(some_of(script(name), step_of(one(name))));
        some_of_each(items, script, step_of(one(name)), i);
        some_of_join(ScriptView::new(), for_each_spec(items, script), step_of(one(name)));
        steps_perform(cfg, s, one(name));
    }
}

/// A question that does something about each word of its reply.
pub proof fn list_is_done(
    cfg: Config,
    q: SweepQuestionView,
    script: spec_fn(Seq<char>) -> ScriptView,
    one: spec_fn(Seq<char>) -> ActionView,
)
    requires
        forall|name: Seq<char>| some_of(#[trigger] script(name), step_of(one(name))),
        forall|reply: ReplyView|
            (#[trigger] sweep::answer_spec(cfg, q, reply)) == ScriptView::new().join(
                for_each_spec(words_spec(reply.stdout), script),
            ),
    ensures
        finishes(
            cfg,
            ScriptView::new().ask(QuestionView::Sweep(q)),
            answered(sweep::action_spec(cfg, q), for_listed(one)),
        ),
{
    let asked = QuestionView::Sweep(q);
    assert forall|reply: ReplyView|
        finishes(
            cfg,
            #[trigger] question::answer_spec(cfg, asked, reply),
            |events: Seq<Event>| for_listed(one)(reply, events),
        ) by {
        let s = sweep::answer_spec(cfg, q, reply);
        assert(question::answer_spec(cfg, asked, reply) == s);
        items_perform(cfg, s, words_spec(reply.stdout), script, one);
        let kind = |events: Seq<Event>| for_listed(one)(reply, events);
        assert forall|replies: Seq<ReplyView>|
            (#[trigger] run(cfg, s.steps, replies)).left is Some implies kind(
            run(cfg, s.steps, replies).events,
        ) by {
            let events = run(cfg, s.steps, replies).events;
            assert forall|name: Seq<char>| #[trigger]
                words_spec(reply.stdout).contains(name) implies performed(events, one(name)) by {
                assert(finishes(cfg, s, performing(one(name))));
                assert(performing(one(name))(events));
            }
        }
    }
    question_is_answered(cfg, asked, for_listed(one));
}

/// A question that does something where the reply shows that the resource is there.
pub proof fn gate_is_done(cfg: Config, q: SweepQuestionView, kind: spec_fn(Seq<Event>) -> bool)
    requires
        forall|reply: ReplyView|
            reply.ok ==> finishes(cfg, #[trigger] sweep::answer_spec(cfg, q, reply), kind),
    ensures
        finishes(
            cfg,
            ScriptView::new().ask(QuestionView::Sweep(q)),
            answered(sweep::action_spec(cfg, q), if_there(kind)),
        ),
{
    let asked = QuestionView::Sweep(q);
    assert forall|reply: ReplyView|
        finishes(
            cfg,
            #[trigger] question::answer_spec(cfg, asked, reply),
            |events: Seq<Event>| if_there(kind)(reply, events),
        ) by {
        let s = sweep::answer_spec(cfg, q, reply);
        assert(question::answer_spec(cfg, asked, reply) == s);
        if reply.ok {
            assert(finishes(cfg, s, kind));
        }
    }
    question_is_answered(cfg, asked, if_there(kind));
}

/// The AWS CLI in a region.
pub open spec fn aws_in(region: Seq<char>) -> CommandView {
    command("aws"@).arg("--region"@).arg(region)
}

/// The query for the EKS cluster of a target.
pub open spec fn describes_cluster(target: AwsSweepTargetView) -> ActionView {
    ActionView::Quiet(
        command("aws"@)
            .arg("eks"@).arg("describe-cluster"@).arg("--name"@).arg(target.eks_cluster_name)
            .arg("--region"@).arg(target.region).arg("--output"@).arg("json"@),
    )
}

// ---------------------------------------------------------------------------------------------
// EKS
// ---------------------------------------------------------------------------------------------
/// The deletion of the EKS cluster of a target.
pub open spec fn deletes_cluster(target: AwsSweepTargetView) -> ActionView {
    ActionView::Quiet(
        aws_in(target.region)
            .arg("eks"@).arg("delete-cluster"@).arg("--name"@).arg(target.eks_cluster_name),
    )
}

/// That the cluster which was described is deleted where it is there, and said to be missing
/// otherwise.
pub open spec fn cluster_goes(target: AwsSweepTargetView) -> spec_fn(
    ReplyView,
    Seq<Event>,
) -> bool {
    |reply: ReplyView, events: Seq<Event>|
        if reply.ok {
            performed(events, deletes_cluster(target))
        } else {
            events =~= seq![
                Event::Said(
                    "✓   EKS cluster "@ + target.eks_cluster_name + " not found in "@
                        + target.region,
                ),
            ]
        }
}

proof fn cluster_unit(cfg: Config, target: AwsSweepTargetView)
    ensures
        finishes(
            cfg,
            cleanup_eks_cluster_spec(target),
            answered(describes_cluster(target), cluster_goes(target)),
        ),
{
    broadcast use group_some_of;

    let q = QuestionView::Sweep(SweepQuestionView::ClusterGate { target });
    let rest = cluster_goes(target);
    assert(question::action_spec(cfg, q) == describes_cluster(target));
    assert forall|reply: ReplyView|
        finishes(
            cfg,
            #[trigger] question::answer_spec(cfg, q, reply),
            |events: Seq<Event>| rest(reply, events),
        ) by {
        let s = question::answer_spec(cfg, q, reply);
        if reply.ok {
            assert(step_of(deletes_cluster(target))(s.steps.last()));
            assert(some_of(s, step_of(deletes_cluster(target))));
            steps_perform(cfg, s, deletes_cluster(target));
            assert forall|replies: Seq<ReplyView>|
                (#[trigger] run(cfg, s.steps, replies)).left is Some implies rest(
                reply,
                run(cfg, s.steps, replies).events,
            ) by {
                assert(performing(deletes_cluster(target))(run(cfg, s.steps, replies).events));
            }
        } else {
            assert forall|replies: Seq<ReplyView>|
                (#[trigger] run(cfg, s.steps, replies)).left is Some implies rest(
                reply,
                run(cfg, s.steps, replies).events,
            ) by {
                reveal_with_fuel(run, 2);
            }
        }
    }
    question_is_answered(cfg, q, rest);
}

/// For every target and every sweep that comes to its end: where the query before the deletion shows
/// that the EKS cluster is there, the very cluster that was described is deleted afterwards; where
/// it shows none, the sweep says so and goes on.
pub proof fn law_described_clusters_are_deleted(
    cfg: Config,
    target: AwsSweepTargetView,
    replies: Seq<ReplyView>,
)
    requires
        aws_sweep_targets_spec(*cfg.environment).contains(target),
        run(cfg, sweep_spec(cfg).steps, replies).left is Some,
    ensures
        has_stretch(
            run(cfg, sweep_spec(cfg).steps, replies).events,
            answered(describes_cluster(target), cluster_goes(target)),
        ),
        finishes(
            cfg,
            cleanup_eks_cluster_spec(target),
            answered(describes_cluster(target), cluster_goes(target)),
        ),
{
    broadcast use group_holds;

    let kind = answered(describes_cluster(target), cluster_goes(target));
    let one = |t: AwsSweepTargetView| cleanup_eks_cluster_spec(t);
    cluster_unit(cfg, target);
    holds_whole(cfg, one(target), kind);
    holds_each_target(cfg, aws_sweep_targets_spec(*cfg.environment), one, kind, target);
    assert(holds(cfg, sweep_spec(cfg), kind));
}

/// A sweep that comes to its end, and to which no query says that the EKS cluster of a target is
/// missing, deletes that cluster.
pub proof fn law_existing_clusters_are_deleted(
    cfg: Config,
    target: AwsSweepTargetView,
    replies: Seq<ReplyView>,
)
    requires
        aws_sweep_targets_spec(*cfg.environment).contains(target),
        run(cfg, sweep_spec(cfg).steps, replies).left is Some,
        forall|i: int|
            0 <= i < run(cfg, sweep_spec(cfg).steps, replies).events.len()
                ==> match #[trigger] run(cfg, sweep_spec(cfg).steps, replies).events[i] {
                Event::Performed(a, reply) => a == describes_cluster(target) ==> reply.ok,
                _ => true,
            },
    ensures
        performed(run(cfg, sweep_spec(cfg).steps, replies).events, deletes_cluster(target)),
{
    let events = run(cfg, sweep_spec(cfg).steps, replies).events;
    let kind = answered(describes_cluster(target), cluster_goes(target));
    law_described_clusters_are_deleted(cfg, target, replies);
    let (i, j) = choose|i: int, j: int|
        0 <= i <= j <= events.len() && kind(#[trigger] events.subrange(i, j));
    let part = events.subrange(i, j);
    assert(part[0] == events[i]);
    let first = tried(is_action(deletes_cluster(target)));
    let later = part.skip(1);
    let k = choose|k: int| 0 <= k < later.len() && first(#[trigger] later[k]);
    assert(events[i + 1 + k] == later[k]);
}

/// The listing of the pod identity associations of the cluster of a target.
pub open spec fn lists_associations(target: AwsSweepTargetView) -> ActionView {
    ActionView::Lossy(
        aws_in(target.region)
            .arg("eks"@).arg("list-pod-identity-associations"@).arg("--cluster-name"@)
            .arg(target.eks_cluster_name).arg("--query"@).arg("associations[].associationId"@)
            .arg("--output"@).arg("text"@),
    )
}

/// The deletion of a pod identity association.
pub open spec fn deletes_association(target: AwsSweepTargetView) -> spec_fn(Seq<char>) -> ActionView {
    |id: Seq<char>|
        ActionView::Quiet(
            aws_in(target.region)
                .arg("eks"@).arg("delete-pod-identity-association"@).arg("--cluster-name"@)
                .arg(target.eks_cluster_name).arg("--association-id"@).arg(id),
        )
}

/// That the pod identity associations of a cluster that is there are listed, and each of them is
/// deleted.
pub open spec fn associations_go(target: AwsSweepTargetView) -> spec_fn(Seq<Event>) -> bool {
    answered(
        describes_cluster(target),
        if_there(answered(lists_associations(target), for_listed(deletes_association(target)))),
    )
}

/// The listing of the node groups of the cluster of a target.
pub open spec fn lists_nodegroups(target: AwsSweepTargetView) -> ActionView {
    ActionView::Lossy(
        aws_in(target.region)
            .arg("eks"@).arg("list-nodegroups"@).arg("--cluster-name"@)
            .arg(target.eks_cluster_name).arg("--query"@).arg("nodegroups[]"@).arg("--output"@)
            .arg("text"@),
    )
}

/// The deletion of a node group.
pub open spec fn deletes_nodegroup(target: AwsSweepTargetView) -> spec_fn(Seq<char>) -> ActionView {
    |group: Seq<char>|
        ActionView::Quiet(
            aws_in(target.region)
                .arg("eks"@).arg("delete-nodegroup"@).arg("--cluster-name"@)
                .arg(target.eks_cluster_name).arg("--nodegroup-name"@).arg(group),
        )
}

/// The wait until a node group is gone.
pub open spec fn awaits_nodegroup(target: AwsSweepTargetView) -> spec_fn(Seq<char>) -> ActionView {
    |group: Seq<char>|
        ActionView::Quiet(
            aws_in(target.region)
                .arg("eks"@).arg("wait"@).arg("nodegroup-deleted"@).arg("--cluster-name"@)
                .arg(target.eks_cluster_name).arg("--nodegroup-name"@).arg(group),
        )
}

/// That something is done about each node group of a cluster that is there.
pub open spec fn for_nodegroups(
    target: AwsSweepTargetView,
    one: spec_fn(Seq<char>) -> ActionView,
) -> spec_fn(Seq<Event>) -> bool {
    answered(
        describes_cluster(target),
        if_there(answered(lists_nodegroups(target), for_listed(one))),
    )
}

/// The wait until the EKS cluster of a target is gone.
pub open spec fn awaits_cluster(target: AwsSweepTargetView) -> ActionView {
    ActionView::Quiet(
        aws_in(target.region)
            .arg("eks"@).arg("wait"@).arg("cluster-deleted"@).arg("--name"@)
            .arg(target.eks_cluster_name),
    )
}

proof fn associations_unit(cfg: Config, target: AwsSweepTargetView)
    ensures
        finishes(cfg, cleanup_pod_identity_associations_spec(target), associations_go(target)),
{
    broadcast use group_some_of;

    let gate = SweepQuestionView::PodIdentityGate { target };
    let list = SweepQuestionView::PodIdentities { target };
    let script = |item: Seq<char>| sweep::delete_pod_identity_spec(item, target);
    let one = deletes_association(target);
    assert(sweep::action_spec(cfg, list) == lists_associations(target));
    assert forall|name: Seq<char>| some_of(#[trigger] script(name), step_of(one(name))) by {
        assert(step_of(one(name))(script(name).steps.last()));
    }
    list_is_done(cfg, list, script, one);
    gate_is_done(cfg, gate, answered(lists_associations(target), for_listed(one)));
}

proof fn nodegroups_unit(cfg: Config, target: AwsSweepTargetView)
    ensures
        finishes(
            cfg,
            cleanup_nodegroups_spec(target),
            for_nodegroups(target, deletes_nodegroup(target)),
        ),
{
    broadcast use group_some_of;

    let gate = SweepQuestionView::NodegroupGate { target };
    let list = SweepQuestionView::Nodegroups { target };
    let script = |item: Seq<char>| sweep::delete_nodegroup_spec(item, target);
    let one = deletes_nodegroup(target);
    assert(sweep::action_spec(cfg, list) == lists_nodegroups(target));
    assert forall|name: Seq<char>| some_of(#[trigger] script(name), step_of(one(name))) by {
        assert(step_of(one(name))(script(name).steps.last()));
    }
    list_is_done(cfg, list, script, one);
    gate_is_done(cfg, gate, answered(lists_nodegroups(target), for_listed(one)));
}

proof fn nodegroup_waits_unit(cfg: Config, target: AwsSweepTargetView)
    ensures
        finishes(
            cfg,
            wait_nodegroups_deleted_spec(target),
            for_nodegroups(target, awaits_nodegroup(target)),
        ),
{
    broadcast use group_some_of;

    let gate = SweepQuestionView::NodegroupWaitGate { target };
    let list = SweepQuestionView::NodegroupsLeft { target };
    let script = |item: Seq<char>| sweep::await_nodegroup_spec(item, target);
    let one = awaits_nodegroup(target);
    assert(sweep::action_spec(cfg, list) == lists_nodegroups(target));
    assert forall|name: Seq<char>| some_of(#[trigger] script(name), step_of(one(name))) by {
        assert(step_of(one(name))(script(name).steps.last()));
    }
    list_is_done(cfg, list, script, one);
    gate_is_done(cfg, gate, answered(lists_nodegroups(target), for_listed(one)));
}

proof fn cluster_wait_unit(cfg: Config, target: AwsSweepTargetView)
    ensures
        finishes(
            cfg,
            wait_eks_cluster_deleted_spec(target),
            answered(describes_cluster(target), if_there(performing(awaits_cluster(target)))),
        ),
{
    let q = SweepQuestionView::ClusterWaitGate { target };
    let one = awaits_cluster(target);
    assert forall|reply: ReplyView| reply.ok implies finishes(
        cfg,
        #[trigger] sweep::answer_spec(cfg, q, reply),
        performing(one),
    ) by {
        let s = sweep::answer_spec(cfg, q, reply);
        assert(step_of(one)(s.steps.last()));
        steps_perform(cfg, s, one);
    }
    gate_is_done(cfg, q, performing(one));
}

/// For every target and every sweep that comes to its end: where the queries show that the EKS
/// cluster is there, its pod identity associations and node groups are listed and each one that is
/// listed is deleted; and the sweep waits for each node group that is left and for the cluster.
pub proof fn law_parts_of_described_clusters_are_deleted(
    cfg: Config,
    target: AwsSweepTargetView,
    replies: Seq<ReplyView>,
)
    requires
        aws_sweep_targets_spec(*cfg.environment).contains(target),
        run(cfg, sweep_spec(cfg).steps, replies).left is Some,
    ensures
        ({
            let events = run(cfg, sweep_spec(cfg).steps, replies).events;
            &&& has_stretch(events, associations_go(target))
            &&& has_stretch(events, for_nodegroups(target, deletes_nodegroup(target)))
            &&& has_stretch(events, for_nodegroups(target, awaits_nodegroup(target)))
            &&& has_stretch(
                events,
                answered(describes_cluster(target), if_there(performing(awaits_cluster(target)))),
            )
        }),
        finishes(cfg, cleanup_pod_identity_associations_spec(target), associations_go(target)),
        finishes(
            cfg,
            cleanup_nodegroups_spec(target),
            for_nodegroups(target, deletes_nodegroup(target)),
        ),
        finishes(
            cfg,
            wait_nodegroups_deleted_spec(target),
            for_nodegroups(target, awaits_nodegroup(target)),
        ),
        finishes(
            cfg,
            wait_eks_cluster_deleted_spec(target),
            answered(describes_cluster(target), if_there(performing(awaits_cluster(target)))),
        ),
{
    broadcast use group_holds;

    let targets = aws_sweep_targets_spec(*cfg.environment);
    let nodes = |t: AwsSweepTargetView| sweep::sweep_nodes_spec(t);
    let a = associations_go(target);
    associations_unit(cfg, target);
    holds_whole(cfg, cleanup_pod_identity_associations_spec(target), a);
    holds_each_target(cfg, targets, nodes, a, target);
    assert(holds(cfg, sweep_spec(cfg), a));
    let b = for_nodegroups(target, deletes_nodegroup(target));
    nodegroups_unit(cfg, target);
    holds_whole(cfg, cleanup_nodegroups_spec(target), b);
    holds_each_target(cfg, targets, nodes, b, target);
    assert(holds(cfg, sweep_spec(cfg), b));
    let waits = |t: AwsSweepTargetView| wait_nodegroups_deleted_spec(t);
    let c = for_nodegroups(target, awaits_nodegroup(target));
    nodegroup_waits_unit(cfg, target);
    holds_whole(cfg, waits(target), c);
    holds_each_target(cfg, targets, waits, c, target);
    assert(holds(cfg, sweep_spec(cfg), c));
    let last = |t: AwsSweepTargetView| wait_eks_cluster_deleted_spec(t);
    let d = answered(describes_cluster(target), if_there(performing(awaits_cluster(target))));
    cluster_wait_unit(cfg, target);
    holds_whole(cfg, last(target), d);
    holds_each_target(cfg, targets, last, d, target);
    assert(holds(cfg, sweep_spec(cfg), d));
}

// ---------------------------------------------------------------------------------------------
// RDS and CloudFormation
// ---------------------------------------------------------------------------------------------
/// The query for the RDS instance of a target.
pub open spec fn describes_instance(target: AwsSweepTargetView) -> CommandView {
    aws_in(target.region)
        .arg("rds"@).arg("describe-db-instances"@).arg("--db-instance-identifier"@)
        .arg(target.rds_instance)
}

/// The deletion of the RDS instance of a target.
pub open spec fn deletes_instance(target: AwsSweepTargetView) -> ActionView {
    ActionView::Quiet(
        aws_in(target.region)
            .arg("rds"@).arg("delete-db-instance"@).arg("--db-instance-identifier"@)
            .arg(target.rds_instance).arg("--skip-final-snapshot"@)
            .arg("--delete-automated-backups"@),
    )
}

/// That an instance is deleted unless it is already being deleted.
pub open spec fn unless_deleting(target: AwsSweepTargetView) -> spec_fn(
    ReplyView,
    Seq<Event>,
) -> bool {
    |reply: ReplyView, events: Seq<Event>|
        trim_spec(reply.stdout) == "deleting"@ || performed(events, deletes_instance(target))
}

/// That the status of an instance that is there is read, and the instance is deleted unless it is
/// already being deleted.
pub open spec fn instance_goes(target: AwsSweepTargetView) -> spec_fn(Seq<Event>) -> bool {
    answered(
        ActionView::Quiet(describes_instance(target)),
        if_there(
            answered(
                ActionView::Lossy(
                    describes_instance(target)
                        .arg("--query"@).arg("DBInstances[0].DBInstanceStatus"@).arg("--output"@)
                        .arg("text"@),
                ),
                unless_deleting(target),
            ),
        ),
    )
}

proof fn instance_unit(cfg: Config, target: AwsSweepTargetView)
    ensures
        finishes(cfg, cleanup_rds_instance_spec(target), instance_goes(target)),
{
    let gate = SweepQuestionView::RdsGate { target };
    let status = SweepQuestionView::RdsStatus { target };
    let asked = QuestionView::Sweep(status);
    let rest = unless_deleting(target);
    assert forall|reply: ReplyView|
        finishes(
            cfg,
            #[trigger] question::answer_spec(cfg, asked, reply),
            |events: Seq<Event>| rest(reply, events),
        ) by {
        let s = question::answer_spec(cfg, asked, reply);
        if trim_spec(reply.stdout) != "deleting"@ {
            assert(step_of(deletes_instance(target))(s.steps.last()));
            steps_perform(cfg, s, deletes_instance(target));
            assert forall|replies: Seq<ReplyView>|
                (#[trigger] run(cfg, s.steps, replies)).left is Some implies rest(
                reply,
                run(cfg, s.steps, replies).events,
            ) by {
                assert(performing(deletes_instance(target))(run(cfg, s.steps, replies).events));
            }
        }
    }
    question_is_answered(cfg, asked, rest);
    gate_is_done(cfg, gate, answered(sweep::action_spec(cfg, status), rest));
}

/// For every target and every sweep that comes to its end: an RDS instance that is there is deleted,
/// without a last snapshot, unless its status shows that it is already being deleted.
pub proof fn law_described_instances_are_deleted(
    cfg: Config,
    target: AwsSweepTargetView,
    replies: Seq<ReplyView>,
)
    requires
        aws_sweep_targets_spec(*cfg.environment).contains(target),
        run(cfg, sweep_spec(cfg).steps, replies).left is Some,
    ensures
        has_stretch(run(cfg, sweep_spec(cfg).steps, replies).events, instance_goes(target)),
        finishes(cfg, cleanup_rds_instance_spec(target), instance_goes(target)),
{
    broadcast use group_holds;

    let one = |t: AwsSweepTargetView| cleanup_rds_instance_spec(t);
    let kind = instance_goes(target);
    instance_unit(cfg, target);
    holds_whole(cfg, one(target), kind);
    holds_each_target(cfg, aws_sweep_targets_spec(*cfg.environment), one, kind, target);
    assert(holds(cfg, sweep_spec(cfg), kind));
}

/// That a CloudFormation stack that is there is deleted.
pub open spec fn stack_goes(stack: Seq<char>, region: Seq<char>) -> spec_fn(Seq<Event>) -> bool {
    answered(
        ActionView::Quiet(
            command("aws"@)
                .arg("cloudformation"@).arg("describe-stacks"@).arg("--stack-name"@).arg(stack)
                .arg("--region"@).arg(region),
        ),
        if_there(
            performing(
                ActionView::Quiet(
                    command("aws"@)
                        .arg("cloudformation"@).arg("delete-stack"@).arg("--stack-name"@).arg(stack)
                        .arg("--region"@).arg(region),
                ),
            ),
        ),
    )
}

proof fn stack_unit(cfg: Config, stack: Seq<char>, region: Seq<char>)
    ensures
        finishes(cfg, cleanup_cfn_stack_spec(stack, region), stack_goes(stack, region)),
{
    let q = SweepQuestionView::StackGate { stack, region };
    let one = ActionView::Quiet(
        command("aws"@)
            .arg("cloudformation"@).arg("delete-stack"@).arg("--stack-name"@).arg(stack)
            .arg("--region"@).arg(region),
    );
    assert forall|reply: ReplyView| reply.ok implies finishes(
        cfg,
        #[trigger] sweep::answer_spec(cfg, q, reply),
        performing(one),
    ) by {
        let s = sweep::answer_spec(cfg, q, reply);
        assert(step_of(one)(s.steps.last()));
        steps_perform(cfg, s, one);
    }
    gate_is_done(cfg, q, performing(one));
}

/// For every target and every sweep that comes to its end: the CloudFormation stack of the
/// repository is deleted in the region of the target where it is there.
pub proof fn law_described_stacks_are_deleted(
    cfg: Config,
    target: AwsSweepTargetView,
    replies: Seq<ReplyView>,
)
    requires
        aws_sweep_targets_spec(*cfg.environment).contains(target),
        cfg.repo.teardown.cfn_stack_name is Some,
        run(cfg, sweep_spec(cfg).steps, replies).left is Some,
    ensures
        has_stretch(
            run(cfg, sweep_spec(cfg).steps, replies).events,
            stack_goes(cfg.repo.teardown.cfn_stack_name->0@, target.region),
        ),
{
    broadcast use group_holds;

    let stack = cfg.repo.teardown.cfn_stack_name->0@;
    let one = |t: AwsSweepTargetView| sweep::sweep_stack_spec(t, stack);
    let kind = stack_goes(stack, target.region);
    stack_unit(cfg, stack, target.region);
    holds_whole(cfg, one(target), kind);
    holds_each_target(cfg, aws_sweep_targets_spec(*cfg.environment), one, kind, target);
    assert(holds(cfg, sweep::sweep_stacks_spec(cfg), kind));
    assert(holds(cfg, sweep_spec(cfg), kind));
}

} // verus!
