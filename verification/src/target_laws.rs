//! What the teardown does to a Kubernetes cluster, it does to the selected target.
use vstd::prelude::*;

use crate::commands::{helm_on_spec, kubectl_on_spec};
use crate::kube::{law_workloads_of_a_listing, workloads_spec, K8sTargetView};
use crate::question;
use crate::question::QuestionView;
use crate::runs::{
    all_of, group_all_of, happened, performs, precedes, run, tame, tame_guards, Event,
};
use crate::script::{ActionView, CommandView, ReplyView, ScriptView, StepView};
use crate::settings::Config;
use crate::teardown;
use crate::teardown::{ProviderKind, TeardownQuestionView};

verus! {

/// Whether a list of arguments begins with others.
pub open spec fn begins_with(args: Seq<Seq<char>>, start: Seq<Seq<char>>) -> bool {
    start.len() <= args.len() && args.take(start.len() as int) == start
}

/// Whether a command is bound to a target: kubectl or helm, with the arguments that select it.
#[verifier::opaque]
pub open spec fn on_target(c: CommandView, target: K8sTargetView) -> bool {
    ||| c.program == "kubectl"@ && begins_with(c.args, target.prefix())
    ||| c.program == "helm"@ && begins_with(c.args, target.helm_prefix())
}

/// kubectl on a target.
pub broadcast proof fn kubectl_is_on_target(target: K8sTargetView)
    ensures
        #[trigger] on_target(kubectl_on_spec(target), target),
{
    reveal(on_target);
    let args = kubectl_on_spec(target).args;
    assert(args =~= target.prefix());
    assert(args.take(args.len() as int) =~= args);
}

/// helm on a target.
pub broadcast proof fn helm_is_on_target(target: K8sTargetView)
    ensures
        #[trigger] on_target(helm_on_spec(target), target),
{
    reveal(on_target);
    let args = helm_on_spec(target).args;
    assert(args =~= target.helm_prefix());
    assert(args.take(args.len() as int) =~= args);
}

/// One more argument.
pub broadcast proof fn still_on_target(c: CommandView, arg: Seq<char>, target: K8sTargetView)
    requires
        on_target(c, target),
    ensures
        #[trigger] on_target(c.arg(arg), target),
{
    reveal(on_target);
    let args = c.arg(arg).args;
    let n = target.prefix().len() as int;
    let m = target.helm_prefix().len() as int;
    if c.program == "kubectl"@ && begins_with(c.args, target.prefix()) {
        assert(args.take(n) =~= c.args.take(n));
    } else {
        assert(args.take(m) =~= c.args.take(m));
    }
}

/// The target that a question is about.
pub open spec fn target_of(q: QuestionView) -> Option<K8sTargetView> {
    match q {
        QuestionView::Teardown(q) => match q {
            TeardownQuestionView::FluxKustomizations { target } => Some(target),
            TeardownQuestionView::Suspended { target, .. } => Some(target),
            TeardownQuestionView::WorkloadState { target, .. } => Some(target),
            TeardownQuestionView::WorkloadGone { target, .. } => Some(target),
            TeardownQuestionView::AwsClusters { target, .. } => Some(target),
            TeardownQuestionView::AwsClustersGone { target, .. } => Some(target),
            TeardownQuestionView::HardwareClusters { target, .. } => Some(target),
            TeardownQuestionView::HardwareGone { target, .. } => Some(target),
            TeardownQuestionView::Providers { target, .. } => Some(target),
            TeardownQuestionView::ProvidersLeft { target, .. } => Some(target),
            TeardownQuestionView::HelmStatus { target, .. } => Some(target),
            TeardownQuestionView::HelmUninstall { target, .. } => Some(target),
            _ => None,
        },
        _ => None,
    }
}

/// Whether an action runs no command but one that is bound to a target.
pub open spec fn reaches(action: ActionView, target: K8sTargetView) -> bool {
    match action.command() {
        Some(c) => on_target(c, target),
        None => true,
    }
}

/// A step that runs commands on a target alone.
pub open spec fn bound(step: StepView, target: K8sTargetView) -> bool {
    match step {
        StepView::Do(action, _) => reaches(action, target),
        StepView::Ask(q) => target_of(q) == Some(target),
        _ => true,
    }
}

/// A question about a target is answered by a command that is bound to it, and so is what follows.
pub proof fn law_answers_stay_on_target(
    cfg: Config,
    q: QuestionView,
    target: K8sTargetView,
    reply: ReplyView,
)
    requires
        target_of(q) == Some(target),
    ensures
        reaches(question::action_spec(cfg, q), target),
        all_of(question::answer_spec(cfg, q, reply), |step: StepView| bound(step, target)),
{
    actions_stay_on_target(cfg, q, target);
    answers_stay_on_target(cfg, q, target, reply);
}

proof fn actions_stay_on_target(cfg: Config, q: QuestionView, target: K8sTargetView)
    requires
        target_of(q) == Some(target),
    ensures
        reaches(question::action_spec(cfg, q), target),
{
    broadcast use {kubectl_is_on_target, helm_is_on_target, still_on_target};

}

proof fn bound_after_flux_kustomizations(target: K8sTargetView, reply: ReplyView)
    ensures
        all_of(
            teardown::after_flux_kustomizations_spec(target, reply),
            |step: StepView| bound(step, target),
        ),
{
    broadcast use {group_all_of, kubectl_is_on_target, helm_is_on_target, still_on_target};

}

proof fn bound_after_suspended(
    target: K8sTargetView,
    rest: Seq<Seq<char>>,
    failed: bool,
    reply: ReplyView,
)
    ensures
        all_of(
            teardown::after_suspended_spec(target, rest, failed, reply),
            |step: StepView| bound(step, target),
        ),
{
    broadcast use {group_all_of, kubectl_is_on_target, helm_is_on_target, still_on_target};

}

proof fn bound_after_workload_state(
    target: K8sTargetView,
    cluster: Seq<char>,
    timeout: u64,
    reply: ReplyView,
)
    ensures
        all_of(
            teardown::after_workload_state_spec(target, cluster, timeout, reply),
            |step: StepView| bound(step, target),
        ),
{
    broadcast use {group_all_of, kubectl_is_on_target, helm_is_on_target, still_on_target};

}

proof fn bound_after_workload_gone(
    target: K8sTargetView,
    cluster: Seq<char>,
    timeout: u64,
    reply: ReplyView,
)
    ensures
        all_of(
            teardown::after_workload_gone_spec(target, cluster, timeout, reply),
            |step: StepView| bound(step, target),
        ),
{
    broadcast use {group_all_of, kubectl_is_on_target, helm_is_on_target, still_on_target};

}

proof fn bound_after_aws_clusters(
    target: K8sTargetView,
    mgmt_cluster: Seq<char>,
    timeout: u64,
    force: bool,
    reply: ReplyView,
)
    ensures
        all_of(
            teardown::after_aws_clusters_spec(target, mgmt_cluster, timeout, force, reply),
            |step: StepView| bound(step, target),
        ),
{
    broadcast use {group_all_of, kubectl_is_on_target, helm_is_on_target, still_on_target};

}

proof fn bound_after_aws_clusters_gone(
    target: K8sTargetView,
    mgmt_cluster: Seq<char>,
    timeout: u64,
    force: bool,
    reply: ReplyView,
)
    ensures
        all_of(
            teardown::after_aws_clusters_gone_spec(target, mgmt_cluster, timeout, force, reply),
            |step: StepView| bound(step, target),
        ),
{
    broadcast use {group_all_of, kubectl_is_on_target, helm_is_on_target, still_on_target};

}

proof fn bound_after_hardware_clusters(target: K8sTargetView, timeout: u64, reply: ReplyView)
    ensures
        all_of(
            teardown::after_hardware_clusters_spec(target, timeout, reply),
            |step: StepView| bound(step, target),
        ),
{
    broadcast use {group_all_of, kubectl_is_on_target, helm_is_on_target, still_on_target};

}

proof fn bound_after_hardware_gone(target: K8sTargetView, timeout: u64, reply: ReplyView)
    ensures
        all_of(
            teardown::after_hardware_gone_spec(target, timeout, reply),
            |step: StepView| bound(step, target),
        ),
{
    broadcast use {group_all_of, kubectl_is_on_target, helm_is_on_target, still_on_target};

}

proof fn bound_after_providers(
    target: K8sTargetView,
    timeout: u64,
    kind: ProviderKind,
    deleted: bool,
    reply: ReplyView,
)
    ensures
        all_of(
            teardown::after_providers_spec(target, timeout, kind, deleted, reply),
            |step: StepView| bound(step, target),
        ),
{
    broadcast use {group_all_of, kubectl_is_on_target, helm_is_on_target, still_on_target};

}

proof fn bound_after_providers_left(
    target: K8sTargetView,
    timeout: u64,
    kind: ProviderKind,
    remaining: u64,
    reply: ReplyView,
)
    ensures
        all_of(
            teardown::after_providers_left_spec(target, timeout, kind, remaining, reply),
            |step: StepView| bound(step, target),
        ),
{
    broadcast use {group_all_of, kubectl_is_on_target, helm_is_on_target, still_on_target};

}

proof fn bound_after_helm_status(target: K8sTargetView, release: Seq<char>, reply: ReplyView)
    ensures
        all_of(
            teardown::after_helm_status_spec(target, release, reply),
            |step: StepView| bound(step, target),
        ),
{
    broadcast use {group_all_of, kubectl_is_on_target, helm_is_on_target, still_on_target};

}

proof fn bound_after_helm_uninstall(target: K8sTargetView, release: Seq<char>, reply: ReplyView)
    ensures
        all_of(
            teardown::after_helm_uninstall_spec(release, reply),
            |step: StepView| bound(step, target),
        ),
{
    broadcast use {group_all_of, kubectl_is_on_target, helm_is_on_target, still_on_target};

}

proof fn answers_stay_on_target(
    cfg: Config,
    q: QuestionView,
    target: K8sTargetView,
    reply: ReplyView,
)
    requires
        target_of(q) == Some(target),
    ensures
        all_of(question::answer_spec(cfg, q, reply), |step: StepView| bound(step, target)),
{
    if let QuestionView::Teardown(asked) = q {
        match asked {
            TeardownQuestionView::FluxKustomizations { .. } => {
                bound_after_flux_kustomizations(target, reply)
            },
            TeardownQuestionView::Suspended { rest, failed, .. } => {
                bound_after_suspended(target, rest, failed, reply)
            },
            TeardownQuestionView::WorkloadState { cluster, timeout, .. } => {
                bound_after_workload_state(target, cluster, timeout, reply)
            },
            TeardownQuestionView::WorkloadGone { cluster, timeout, .. } => {
                bound_after_workload_gone(target, cluster, timeout, reply)
            },
            TeardownQuestionView::AwsClusters { mgmt_cluster, timeout, force, .. } => {
                bound_after_aws_clusters(target, mgmt_cluster, timeout, force, reply)
            },
            TeardownQuestionView::AwsClustersGone { mgmt_cluster, timeout, force, .. } => {
                bound_after_aws_clusters_gone(target, mgmt_cluster, timeout, force, reply)
            },
            TeardownQuestionView::HardwareClusters { timeout, .. } => {
                bound_after_hardware_clusters(target, timeout, reply)
            },
            TeardownQuestionView::HardwareGone { timeout, .. } => {
                bound_after_hardware_gone(target, timeout, reply)
            },
            TeardownQuestionView::Providers { timeout, kind, deleted, .. } => {
                bound_after_providers(target, timeout, kind, deleted, reply)
            },
            TeardownQuestionView::ProvidersLeft { timeout, kind, remaining, .. } => {
                bound_after_providers_left(target, timeout, kind, remaining, reply)
            },
            TeardownQuestionView::HelmStatus { release, .. } => {
                bound_after_helm_status(target, release, reply)
            },
            TeardownQuestionView::HelmUninstall { release, .. } => {
                bound_after_helm_uninstall(target, release, reply)
            },
            _ => {},
        }
    }
}

/// The steps of the teardown that touch a cluster are bound to the target that they are given.
pub proof fn law_steps_are_bound(
    cfg: Config,
    target: K8sTargetView,
    workloads: Seq<Seq<char>>,
    mgmt_cluster: Seq<char>,
    timeout: u64,
    force: bool,
)
    ensures
        ({
            let kind = |step: StepView| bound(step, target);
            &&& all_of(teardown::suspend_flux_spec(target), kind)
            &&& all_of(teardown::delete_capi_workloads_spec(target, workloads, timeout), kind)
            &&& all_of(
                teardown::delete_aws_workload_clusters_spec(target, mgmt_cluster, timeout, force),
                kind,
            )
            &&& all_of(teardown::delete_capi_providers_spec(target, timeout), kind)
            &&& all_of(teardown::uninstall_helm_and_secrets_spec(cfg, target), kind)
        }),
{
    broadcast use {group_all_of, kubectl_is_on_target, helm_is_on_target, still_on_target};

}

/// A run of steps that are bound to a target runs kubectl and helm on that target alone, whatever
/// the replies are: the current context of the operator decides nothing.
pub proof fn law_commands_reach_the_target(
    cfg: Config,
    s: ScriptView,
    target: K8sTargetView,
    replies: Seq<ReplyView>,
    i: int,
)
    requires
        all_of(s, |step: StepView| bound(step, target)),
        0 <= i < run(cfg, s.steps, replies).events.len(),
    ensures
        match run(cfg, s.steps, replies).events[i] {
            Event::Performed(action, _) => reaches(action, target),
            _ => true,
        },
{
    let kind = |step: StepView| bound(step, target);
    let never = |e: Event| false;
    let astray = |a: ActionView| !reaches(a, target);
    assert(tame(cfg, kind, never, astray)) by {
        assert forall|q: QuestionView| (#[trigger] kind(StepView::Ask(q))) implies !astray(
            question::action_spec(cfg, q),
        ) && forall|reply: ReplyView|
            all_of(#[trigger] question::answer_spec(cfg, q, reply), kind) by {
            assert forall|reply: ReplyView|
                all_of(#[trigger] question::answer_spec(cfg, q, reply), kind) && !astray(
                    question::action_spec(cfg, q),
                ) by {
                law_answers_stay_on_target(cfg, q, target, reply);
            }
            assert(all_of(question::answer_spec(cfg, q, arbitrary()), kind));
        }
    }
    tame_guards(cfg, kind, never, astray, s.steps);
    let events = run(cfg, s.steps, replies).events;
    assert(precedes(events, never, astray));
    assert(!happened(events.take(i), never));
    assert(!performs(events[i], astray));
}

// ---------------------------------------------------------------------------------------------
// The management cluster
// ---------------------------------------------------------------------------------------------
/// kubectl, deleting one CAPI cluster of a target.
pub open spec fn deletes_cluster(target: K8sTargetView, cluster: Seq<char>) -> ActionView {
    ActionView::Run(
        kubectl_on_spec(target).arg("delete"@).arg("cluster"@).arg(cluster).arg(
            "--ignore-not-found"@,
        ),
    )
}

/// When the workload clusters of an AWS environment are deleted, the management cluster is spared.
pub proof fn law_management_cluster_is_spared(
    cfg: Config,
    target: K8sTargetView,
    mgmt_cluster: Seq<char>,
    timeout: u64,
    force: bool,
    reply: ReplyView,
)
    ensures
        all_of(
            teardown::after_aws_clusters_spec(target, mgmt_cluster, timeout, force, reply),
            |step: StepView|
                match step {
                    StepView::Do(action, _) => action != deletes_cluster(target, mgmt_cluster),
                    _ => true,
                },
        ),
{
    broadcast use group_all_of;

    let kind = |step: StepView|
        match step {
            StepView::Do(action, _) => action != deletes_cluster(target, mgmt_cluster),
            _ => true,
        };
    let left = workloads_spec(reply.stdout, mgmt_cluster);
    law_workloads_of_a_listing(reply.stdout, mgmt_cluster);
    each_spares(left, target, mgmt_cluster);
}

proof fn each_spares(items: Seq<Seq<char>>, target: K8sTargetView, mgmt_cluster: Seq<char>)
    requires
        !items.contains(mgmt_cluster),
    ensures
        all_of(
            crate::script::for_each_spec(
                items,
                |item: Seq<char>| teardown::delete_cluster_spec(item, target),
            ),
            |step: StepView|
                match step {
                    StepView::Do(action, _) => action != deletes_cluster(target, mgmt_cluster),
                    _ => true,
                },
        ),
    decreases items.len(),
{
    broadcast use group_all_of;

    if items.len() > 0 {
        let start = items.drop_last();
        assert(!start.contains(mgmt_cluster)) by {
            if start.contains(mgmt_cluster) {
                let k = choose|k: int| 0 <= k < start.len() && start[k] == mgmt_cluster;
                assert(items[k] == mgmt_cluster);
            }
        }
        each_spares(start, target, mgmt_cluster);
        let last = items.last();
        assert(items[items.len() - 1] == last);
        let c = kubectl_on_spec(target).arg("delete"@).arg("cluster"@);
        let a = c.arg(last).arg("--ignore-not-found"@);
        let b = c.arg(mgmt_cluster).arg("--ignore-not-found"@);
        assert(a.args[c.args.len() as int] == last);
        assert(b.args[c.args.len() as int] == mgmt_cluster);
    }
}

} // verus!
