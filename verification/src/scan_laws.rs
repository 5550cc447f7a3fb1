//! What a discovery makes of queries that fail, and what its report holds.
use vstd::prelude::*;

use crate::aws::{aws_sweep_targets_spec, AwsSweepTargetView};
use crate::config::{AwsWorkload, Environment};
use crate::discovery_laws::settled_by;
use crate::json::JsonTree;
use crate::orphans::{
    buckets_spec, conclusion_spec, gateways_spec, plan_spec, refusal_spec, DiscoveryReportView,
    DiscoveryView, LookupView, OrphanFindingView, Scan,
};
use crate::script::ReplyView;
use crate::settings::Config;
use crate::text::{contains_spec, ends_with_spec, lowercase_spec};

verus! {

// ---------------------------------------------------------------------------------------------
// Queries that fail
// ---------------------------------------------------------------------------------------------
/// What the AWS CLI prints where a resource that a query names does not exist.
pub open spec fn says_missing(lookup: LookupView) -> Option<Seq<char>> {
    match lookup {
        LookupView::Cluster { .. } => Some("ResourceNotFoundException"@),
        LookupView::Nodegroups { .. } => Some("ResourceNotFoundException"@),
        LookupView::Nodegroup { .. } => Some("ResourceNotFoundException"@),
        LookupView::Instance { .. } => Some("DBInstanceNotFound"@),
        _ => None,
    }
}

/// Whether a query failed because the resource that it names does not exist, whatever the case of
/// the letters.
pub open spec fn is_missing(lookup: LookupView, reply: ReplyView) -> bool {
    reply.spawned && !reply.ok && match says_missing(lookup) {
        Some(marker) => contains_spec(lowercase_spec(reply.stderr), lowercase_spec(marker)),
        None => false,
    }
}

/// A resource that does not exist is neither found nor an error, and nothing more is asked about it.
pub proof fn law_missing_resources_are_passed_over(d: DiscoveryView, reply: ReplyView)
    requires
        d.todo.len() > 0,
        is_missing(d.todo[0], reply),
    ensures
        d.settled(reply).report == d.report,
        d.settled(reply).todo == d.todo.skip(1),
{
    let markers = crate::orphans::lowered(d.todo[0].markers());
    assert(d.todo[0].markers() =~= seq![says_missing(d.todo[0])->0]);
    assert(markers[0] == lowercase_spec(says_missing(d.todo[0])->0));
    assert(d.settled(reply).report.findings =~= d.report.findings);
    assert(d.settled(reply).todo =~= d.todo.skip(1));
}

/// A query that fails for another reason adds one error, which ends with what the AWS CLI printed.
/// It adds no finding, but for the VPC of which the gateways could not be listed, whose age is then
/// unknown.
pub proof fn law_failed_queries_are_errors(d: DiscoveryView, reply: ReplyView)
    requires
        d.todo.len() > 0,
        !reply.ok,
        !is_missing(d.todo[0], reply),
    ensures
        ({
            let after = d.settled(reply).report;
            &&& after.errors.len() == d.report.errors.len() + 1
            &&& after.errors.drop_last() == d.report.errors
            &&& ends_with_spec(after.errors.last(), reply.stderr)
            &&& match d.todo[0] {
                LookupView::Gateways { target, vpc } => after.findings == d.report.findings.push(
                    crate::discovery_laws::resource(d.scan, "VPC"@, target, vpc, None),
                ),
                _ => after.findings == d.report.findings,
            }
            &&& d.todo[0] != LookupView::Account ==> d.settled(reply).todo == d.todo.skip(1)
        }),
{
    let lookup = d.todo[0];
    let markers = crate::orphans::lowered(lookup.markers());
    match says_missing(lookup) {
        Some(marker) => {
            assert(lookup.markers() =~= seq![marker]);
            assert(markers =~= seq![lowercase_spec(marker)]);
        },
        None => {
            assert(markers.len() == 0);
        },
    }
    let after = d.settled(reply).report;
    assert(after.errors.drop_last() =~= d.report.errors);
    let text = lookup.error(reply.stderr);
    assert(after.errors.last() == text);
    let n = text.len() - reply.stderr.len();
    assert(text.subrange(n, text.len() as int) =~= reply.stderr);
    assert(d.settled(reply).todo =~= d.next_lookups(
        lookup,
        crate::orphans::aws_probe_spec(reply, lookup.markers()),
    ) + d.todo.skip(1));
    if lookup != LookupView::Account {
        assert(d.settled(reply).todo =~= d.todo.skip(1));
    }
    assert(after.findings =~= d.report.findings + lookup.known(d.scan));
}

// ---------------------------------------------------------------------------------------------
// What is in the report
// ---------------------------------------------------------------------------------------------
/// Whether a finding is one of a target: it names the region and the cluster of the target.
pub open spec fn is_of(f: OrphanFindingView, target: AwsSweepTargetView) -> bool {
    f.region == target.region && f.cluster == target.cluster_name
}

/// Whether each finding is one of a target of a list.
pub open spec fn are_of(findings: Seq<OrphanFindingView>, targets: Seq<AwsSweepTargetView>) -> bool {
    forall|i: int| 0 <= i < findings.len() ==> is_of_one(#[trigger] findings[i], targets)
}

/// Whether a finding is one of a target of a list.
pub open spec fn is_of_one(f: OrphanFindingView, targets: Seq<AwsSweepTargetView>) -> bool {
    exists|k: int| 0 <= k < targets.len() && is_of(f, #[trigger] targets[k])
}

/// Whether each query is about a target of a list.
pub open spec fn ask_about(todo: Seq<LookupView>, targets: Seq<AwsSweepTargetView>) -> bool {
    forall|i: int| 0 <= i < todo.len() ==> asks_about(#[trigger] todo[i], targets)
}

/// Whether a query is about a target of a list.
pub open spec fn asks_about(lookup: LookupView, targets: Seq<AwsSweepTargetView>) -> bool {
    match lookup {
        LookupView::Account => true,
        LookupView::Cluster { target } => targets.contains(target),
        LookupView::Nodegroups { target } => targets.contains(target),
        LookupView::Nodegroup { target, .. } => targets.contains(target),
        LookupView::Instance { target } => targets.contains(target),
        LookupView::Vpcs { target } => targets.contains(target),
        LookupView::Gateways { target, .. } => targets.contains(target),
        LookupView::Addresses { target } => targets.contains(target),
        LookupView::Buckets { target, .. } => targets.contains(target),
    }
}

/// Whether each finding is one of a target.
pub open spec fn all_of_one(findings: Seq<OrphanFindingView>, target: AwsSweepTargetView) -> bool {
    forall|i: int| 0 <= i < findings.len() ==> is_of(#[trigger] findings[i], target)
}

proof fn gateways_are_of(scan: Scan, target: AwsSweepTargetView, gateways: Seq<JsonTree>)
    ensures
        all_of_one(gateways_spec(scan, target, gateways), target),
    decreases gateways.len(),
{
    if gateways.len() > 0 {
        gateways_are_of(scan, target, gateways.drop_last());
    }
}

proof fn buckets_are_of(
    scan: Scan,
    target: AwsSweepTargetView,
    account_id: Seq<char>,
    buckets: Seq<JsonTree>,
)
    ensures
        all_of_one(buckets_spec(scan, target, account_id, buckets), target),
    decreases buckets.len(),
{
    if buckets.len() > 0 {
        buckets_are_of(scan, target, account_id, buckets.drop_last());
    }
}

proof fn findings_are_of(
    lookup: LookupView,
    scan: Scan,
    output: Seq<char>,
    targets: Seq<AwsSweepTargetView>,
)
    requires
        asks_about(lookup, targets),
    ensures
        are_of(lookup.findings(scan, output), targets),
        are_of(lookup.known(scan), targets),
{
    let target = match lookup {
        LookupView::Account => arbitrary(),
        LookupView::Cluster { target } => target,
        LookupView::Nodegroups { target } => target,
        LookupView::Nodegroup { target, .. } => target,
        LookupView::Instance { target } => target,
        LookupView::Vpcs { target } => target,
        LookupView::Gateways { target, .. } => target,
        LookupView::Addresses { target } => target,
        LookupView::Buckets { target, .. } => target,
    };
    if lookup != LookupView::Account {
        let k = choose|k: int| 0 <= k < targets.len() && targets[k] == target;
        assert forall|gateways: Seq<JsonTree>|
            all_of_one(#[trigger] gateways_spec(scan, target, gateways), target) by {
            gateways_are_of(scan, target, gateways);
        }
        assert forall|account_id: Seq<char>, buckets: Seq<JsonTree>|
            all_of_one(#[trigger] buckets_spec(scan, target, account_id, buckets), target) by {
            buckets_are_of(scan, target, account_id, buckets);
        }
        let found = lookup.findings(scan, output);
        assert(all_of_one(found, target));
        assert forall|i: int| 0 <= i < found.len() implies is_of_one(
            #[trigger] found[i],
            targets,
        ) by {
            assert(is_of(found[i], targets[k]));
        }
        let known = lookup.known(scan);
        assert(all_of_one(known, target));
        assert forall|i: int| 0 <= i < known.len() implies is_of_one(
            #[trigger] known[i],
            targets,
        ) by {
            assert(is_of(known[i], targets[k]));
        }
    }
}

proof fn plan_asks_about(
    some: Seq<AwsSweepTargetView>,
    account_id: Seq<char>,
    targets: Seq<AwsSweepTargetView>,
)
    requires
        forall|target: AwsSweepTargetView| #[trigger]
            some.contains(target) ==> targets.contains(target),
    ensures
        ask_about(plan_spec(some, account_id), targets),
    decreases some.len(),
{
    if some.len() > 0 {
        let start = some.drop_last();
        assert(some.contains(some.last()));
        assert forall|target: AwsSweepTargetView| #[trigger] start.contains(target) implies
            targets.contains(target) by {
            let i = choose|i: int| 0 <= i < start.len() && start[i] == target;
            assert(some[i] == target);
            assert(some.contains(target));
        }
        plan_asks_about(start, account_id, targets);
    }
}

proof fn step_is_about_targets(d: DiscoveryView, reply: ReplyView)
    requires
        ask_about(d.todo, d.targets),
        are_of(d.report.findings, d.targets),
    ensures
        ask_about(d.settled(reply).todo, d.targets),
        are_of(d.settled(reply).report.findings, d.targets),
        d.settled(reply).targets == d.targets,
{
    if d.todo.len() > 0 {
        let lookup = d.todo[0];
        let result = crate::orphans::aws_probe_spec(reply, lookup.markers());
        assert(asks_about(lookup, d.targets));
        findings_are_of(lookup, d.scan, reply.stdout, d.targets);
        let before = d.report.findings;
        let after = d.settled(reply).report.findings;
        assert forall|i: int| 0 <= i < after.len() implies is_of_one(
            #[trigger] after[i],
            d.targets,
        ) by {
            if i < before.len() {
                assert(after[i] == before[i]);
            } else {
                let added = after.skip(before.len() as int);
                assert(after[i] == added[i - before.len()]);
                assert(added =~= lookup.findings(d.scan, reply.stdout) || added =~= lookup.known(
                    d.scan,
                ));
            }
        }
        let more = d.next_lookups(lookup, result);
        plan_asks_about(d.targets, d.reported(lookup, result).account_id, d.targets);
        assert(ask_about(more, d.targets));
        let todo = more + d.todo.skip(1);
        assert forall|i: int| 0 <= i < todo.len() implies asks_about(
            #[trigger] todo[i],
            d.targets,
        ) by {
            if i < more.len() {
                assert(todo[i] == more[i]);
            } else {
                assert(todo[i] == d.todo[i - more.len() + 1]);
            }
        }
    }
}

/// Every finding of a discovery is one of a target: it names the region and the cluster of a target
/// that was to be scanned, whatever the replies are.
pub proof fn law_findings_are_of_targets(
    targets: Seq<AwsSweepTargetView>,
    scan: Scan,
    replies: Seq<ReplyView>,
)
    ensures
        are_of(settled_by(DiscoveryView::begun(targets, scan), replies).report.findings, targets),
{
    let d = DiscoveryView::begun(targets, scan);
    assert(ask_about(d.todo, targets));
    all_steps_are_about_targets(d, replies);
}

proof fn all_steps_are_about_targets(d: DiscoveryView, replies: Seq<ReplyView>)
    requires
        ask_about(d.todo, d.targets),
        are_of(d.report.findings, d.targets),
    ensures
        ask_about(settled_by(d, replies).todo, d.targets),
        are_of(settled_by(d, replies).report.findings, d.targets),
        settled_by(d, replies).targets == d.targets,
    decreases replies.len(),
{
    if replies.len() > 0 {
        step_is_about_targets(d, replies[0]);
        all_steps_are_about_targets(d.settled(replies[0]), replies.skip(1));
    }
}

/// A discovery whose report has an error ends in an error, and one whose report has none does not.
pub proof fn law_errors_are_told(report: DiscoveryReportView)
    ensures
        conclusion_spec(report) is Some <==> report.errors.len() > 0,
{
}

/// A discovery is refused where the environment has no AWS workload, and nowhere else.
pub proof fn law_discovery_needs_workloads(cfg: Config)
    ensures
        refusal_spec(cfg) is Some <==> cfg.environment.teardown.aws_workloads@.len() == 0,
{
}

// ---------------------------------------------------------------------------------------------
// The targets
// ---------------------------------------------------------------------------------------------
/// Every AWS workload of an environment is a target, under the names that it has there; the
/// management cluster is one where both of its AWS names are configured; and nothing else is.
pub proof fn law_targets_of_an_environment(env: Environment, target: AwsSweepTargetView)
    ensures
        aws_sweep_targets_spec(env).contains(target) <==> {
            ||| exists|i: int|
                0 <= i < env.teardown.aws_workloads@.len() && names_target(
                    #[trigger] env.teardown.aws_workloads@[i],
                    target,
                )
            ||| names_management_cluster(env, target)
        },
{
    let all = aws_sweep_targets_spec(env);
    let workloads = env.teardown.aws_workloads@;
    let mapped = workloads.map_values(|w: AwsWorkload| AwsSweepTargetView::from_workload(w));
    if all.contains(target) {
        let i = choose|i: int| 0 <= i < all.len() && all[i] == target;
        if i < workloads.len() {
            assert(all[i] == mapped[i]);
            assert(names_target(workloads[i], target));
        }
    }
    if exists|i: int|
        0 <= i < workloads.len() && names_target(#[trigger] workloads[i], target) {
        let i = choose|i: int|
            0 <= i < workloads.len() && names_target(#[trigger] workloads[i], target);
        assert(all[i] == mapped[i]);
        assert(mapped[i] == target);
    }
    if names_management_cluster(env, target) {
        assert(all[workloads.len() as int] == target);
    }
}

/// Whether a target has the names of a workload.
pub open spec fn names_target(w: AwsWorkload, target: AwsSweepTargetView) -> bool {
    &&& target.region == w.region@
    &&& target.cluster_name == w.cluster_name@
    &&& target.eks_cluster_name == w.eks_cluster_name@
    &&& target.rds_instance == w.rds_instance@
}

/// Whether a target has the names of the management cluster.
pub open spec fn names_management_cluster(env: Environment, target: AwsSweepTargetView) -> bool {
    &&& env.teardown.mgmt_eks_cluster_name is Some
    &&& env.teardown.mgmt_iam_role_prefix is Some
    &&& target.eks_cluster_name == env.teardown.mgmt_eks_cluster_name->0@
    &&& target.cluster_name == env.teardown.mgmt_iam_role_prefix->0@
    &&& target.rds_instance == "krops-"@ + env.teardown.mgmt_iam_role_prefix->0@ + "-db"@
    &&& target.region == crate::aws::mgmt_region_spec(env.mgmt_cluster@)
}

} // verus!
