//! What holds of the orphan sweep as a whole.
use vstd::prelude::*;

use crate::aws::AwsSweepTargetView;
use crate::question;
use crate::question::QuestionView;
use crate::runs::{
    all_of, all_of_join, group_all_of, happened, run, steady, steady_run, Event,
};
use crate::script::{ActionView, CommandView, ReplyView, ScriptView, StepView};
use crate::settings::Config;
use crate::sweep;
use crate::sweep::{for_each_target_spec, sweep_spec, SweepQuestionView};

verus! {

/// A best-effort step of the sweep: it never fails, runs nothing but the AWS CLI, and asks nothing
/// but what the sweep asks.
pub open spec fn best_effort(step: StepView) -> bool {
    match step {
        StepView::Say(_) => true,
        StepView::Report(_) => true,
        StepView::Do(action, rule) => (rule is Ignore || rule is Warn) && runs_aws(action),
        StepView::Ask(q) => q is Sweep,
        StepView::Fail(_) => false,
    }
}

/// Whether the action runs the AWS CLI.
pub open spec fn runs_aws(action: ActionView) -> bool {
    match action.command() {
        Some(c) => c.program == "aws"@,
        None => false,
    }
}

/// The scripts of the sweep targets.
pub broadcast proof fn all_of_each_target(
    targets: Seq<AwsSweepTargetView>,
    one: spec_fn(AwsSweepTargetView) -> ScriptView,
    kind: spec_fn(StepView) -> bool,
)
    requires
        forall|target: AwsSweepTargetView| all_of(#[trigger] one(target), kind),
    ensures
        #[trigger] all_of(for_each_target_spec(targets, one), kind),
    decreases targets.len(),
{
    if targets.len() > 0 {
        all_of_each_target(targets.drop_last(), one, kind);
        assert(all_of(one(targets.last()), kind));
        all_of_join(for_each_target_spec(targets.drop_last(), one), one(targets.last()), kind);
    }
}

/// To answer a question of the sweep, nothing but the AWS CLI is run.
pub proof fn law_sweep_asks_aws(cfg: Config, q: SweepQuestionView)
    ensures
        runs_aws(sweep::action_spec(cfg, q)),
{
}

/// Every step that follows from an answer is a best-effort step, whatever the reply is.
pub proof fn law_sweep_answers_are_best_effort(cfg: Config, q: SweepQuestionView, reply: ReplyView)
    ensures
        all_of(sweep::answer_spec(cfg, q, reply), |step: StepView| best_effort(step)),
{
    broadcast use {group_all_of, all_of_each_target};

}

/// Every step of the sweep is a best-effort step.
pub proof fn law_sweep_is_best_effort(cfg: Config)
    ensures
        all_of(sweep_spec(cfg), |step: StepView| best_effort(step)),
{
    broadcast use {group_all_of, all_of_each_target};

}

/// The sweep never fails, whatever the replies are: no failure of a unit ends the run.
pub proof fn law_sweep_never_fails(cfg: Config, replies: Seq<ReplyView>)
    ensures
        !happened(run(cfg, sweep_spec(cfg).steps, replies).events, |e: Event| e is Failed),
{
    let kind = |step: StepView| best_effort(step);
    law_sweep_is_best_effort(cfg);
    assert(steady(cfg, kind)) by {
        assert forall|q: QuestionView, reply: ReplyView| kind(StepView::Ask(q)) implies all_of(
            #[trigger] question::answer_spec(cfg, q, reply),
            kind,
        ) by {
            if let QuestionView::Sweep(asked) = q {
                law_sweep_answers_are_best_effort(cfg, asked, reply);
            }
        }
    }
    steady_run(cfg, kind, sweep_spec(cfg).steps, replies);
}

// ---------------------------------------------------------------------------------------------
// Regions
// ---------------------------------------------------------------------------------------------
/// Whether a command names a region.
pub open spec fn in_region(c: CommandView, region: Seq<char>) -> bool {
    exists|i: int|
        0 <= i < c.args.len() - 1 && #[trigger] c.args[i] == "--region"@ && c.args[i + 1] == region
}

/// The region that was just named.
pub broadcast proof fn in_region_now(c: CommandView, region: Seq<char>)
    ensures
        #[trigger] in_region(c.arg("--region"@).arg(region), region),
{
    let args = c.arg("--region"@).arg(region).args;
    assert(args[args.len() - 2] == "--region"@);
}

/// The region that was named before.
pub broadcast proof fn in_region_still(c: CommandView, arg: Seq<char>, region: Seq<char>)
    requires
        in_region(c, region),
    ensures
        #[trigger] in_region(c.arg(arg), region),
{
    let i = choose|i: int|
        0 <= i < c.args.len() - 1 && #[trigger] c.args[i] == "--region"@ && c.args[i + 1] == region;
    assert(c.arg(arg).args[i] == c.args[i]);
    assert(c.arg(arg).args[i + 1] == c.args[i + 1]);
}

/// The region in which a question is asked; IAM and the account belong to none.
pub open spec fn region_of(q: SweepQuestionView) -> Option<Seq<char>> {
    match q {
        SweepQuestionView::PodIdentityGate { target } => Some(target.region),
        SweepQuestionView::PodIdentities { target } => Some(target.region),
        SweepQuestionView::NodegroupGate { target } => Some(target.region),
        SweepQuestionView::Nodegroups { target } => Some(target.region),
        SweepQuestionView::NodegroupWaitGate { target } => Some(target.region),
        SweepQuestionView::NodegroupsLeft { target } => Some(target.region),
        SweepQuestionView::ClusterGate { target } => Some(target.region),
        SweepQuestionView::ClusterWaitGate { target } => Some(target.region),
        SweepQuestionView::RdsGate { target } => Some(target.region),
        SweepQuestionView::RdsStatus { target } => Some(target.region),
        SweepQuestionView::BucketGate { region, .. } => Some(region),
        SweepQuestionView::BucketBatch { region, .. } => Some(region),
        SweepQuestionView::BucketPurge { region, .. } => Some(region),
        SweepQuestionView::StackGate { region, .. } => Some(region),
        SweepQuestionView::Vpcs { target } => Some(target.region),
        SweepQuestionView::VpcNats { region, .. } => Some(region),
        SweepQuestionView::VpcAddresses { region, .. } => Some(region),
        SweepQuestionView::VpcSubnets { region, .. } => Some(region),
        SweepQuestionView::VpcGateways { region, .. } => Some(region),
        SweepQuestionView::VpcMainTable { region, .. } => Some(region),
        SweepQuestionView::VpcTables { region, .. } => Some(region),
        SweepQuestionView::VpcGroups { region, .. } => Some(region),
        SweepQuestionView::GroupIngress { region, .. } => Some(region),
        SweepQuestionView::GroupEgress { region, .. } => Some(region),
        _ => None,
    }
}

/// A step that stays within a region: its command names the region, and so does the question that
/// it asks.
pub open spec fn within(step: StepView, region: Seq<char>) -> bool {
    match step {
        StepView::Say(_) => true,
        StepView::Report(_) => true,
        StepView::Do(action, _) => match action.command() {
            Some(c) => in_region(c, region),
            None => false,
        },
        StepView::Ask(q) => match q {
            QuestionView::Sweep(asked) => region_of(asked) == Some(region),
            _ => false,
        },
        StepView::Fail(_) => false,
    }
}

proof fn questions_name_the_region(cfg: Config, q: SweepQuestionView, region: Seq<char>)
    requires
        region_of(q) == Some(region),
    ensures
        match sweep::action_spec(cfg, q).command() {
            Some(c) => in_region(c, region),
            None => false,
        },
{
    broadcast use {in_region_now, in_region_still};

}

#[verifier::rlimit(60)]
#[verifier::spinoff_prover]
proof fn answers_stay_in_region(
    cfg: Config,
    q: SweepQuestionView,
    region: Seq<char>,
    reply: ReplyView,
)
    requires
        region_of(q) == Some(region),
    ensures
        all_of(sweep::answer_spec(cfg, q, reply), |step: StepView| within(step, region)),
{
    broadcast use {group_all_of, in_region_now, in_region_still};

}

/// A question that is asked in a region is answered by a command that names the region, and what
/// follows stays within the region.
pub proof fn law_sweep_stays_in_region(
    cfg: Config,
    q: SweepQuestionView,
    region: Seq<char>,
    reply: ReplyView,
)
    requires
        region_of(q) == Some(region),
    ensures
        match sweep::action_spec(cfg, q).command() {
            Some(c) => in_region(c, region),
            None => false,
        },
        all_of(sweep::answer_spec(cfg, q, reply), |step: StepView| within(step, region)),
{
    questions_name_the_region(cfg, q, region);
    answers_stay_in_region(cfg, q, region, reply);
}

/// What is swept of one cluster stays within the region of the cluster, but for its IAM roles.
pub proof fn law_units_stay_in_region(
    target: AwsSweepTargetView,
    pattern: Seq<char>,
    account: Seq<char>,
    stack: Seq<char>,
)
    ensures
        ({
            let kind = |step: StepView| within(step, target.region);
            &&& all_of(sweep::sweep_nodes_spec(target), kind)
            &&& all_of(sweep::wait_nodegroups_deleted_spec(target), kind)
            &&& all_of(sweep::cleanup_eks_cluster_spec(target), kind)
            &&& all_of(sweep::wait_eks_cluster_deleted_spec(target), kind)
            &&& all_of(sweep::cleanup_rds_instance_spec(target), kind)
            &&& all_of(sweep::cleanup_vpc_resources_spec(target), kind)
            &&& all_of(sweep::sweep_bucket_spec(target, pattern, account), kind)
            &&& all_of(sweep::sweep_stack_spec(target, stack), kind)
        }),
{
    broadcast use {group_all_of, in_region_now, in_region_still};

}

} // verus!
