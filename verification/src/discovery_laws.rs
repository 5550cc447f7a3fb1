//! What holds of every discovery of orphans: each resource of each target is asked for, and what the
//! replies show is reported.
use vstd::prelude::*;

use crate::aws::AwsSweepTargetView;
use crate::calendar::parse_iso8601_spec;
use crate::json::{json_document, JsonTree};
use crate::orphans::{
    law_data_bucket_is_reported, law_gateways_are_reported, oldest_spec, plan_spec, DiscoveryView,
    LookupView, OrphanFindingView, Scan,
};
use crate::script::{command, CommandView, ReplyView};
use crate::text::{trim_spec, words_spec};

verus! {

// ---------------------------------------------------------------------------------------------
// Discoveries, reply by reply
// ---------------------------------------------------------------------------------------------
/// A discovery after a list of replies.
pub open spec fn settled_by(d: DiscoveryView, replies: Seq<ReplyView>) -> DiscoveryView
    decreases replies.len(),
{
    if replies.len() == 0 {
        d
    } else {
        settled_by(d.settled(replies[0]), replies.skip(1))
    }
}

/// A discovery once that many of the replies have come.
pub open spec fn stage(d: DiscoveryView, replies: Seq<ReplyView>, k: int) -> DiscoveryView {
    settled_by(d, replies.take(k))
}

/// Whether a discovery has come to its end.
pub open spec fn is_over(d: DiscoveryView, replies: Seq<ReplyView>) -> bool {
    settled_by(d, replies).todo.len() == 0
}

/// Whether a reply is that to a command.
pub open spec fn asks(d: DiscoveryView, replies: Seq<ReplyView>, k: int, c: CommandView) -> bool {
    &&& 0 <= k < replies.len()
    &&& stage(d, replies, k).todo.len() > 0
    &&& stage(d, replies, k).todo[0].command() == c
}

/// Whether a reply is that to a lookup.
spec fn looks_up(d: DiscoveryView, replies: Seq<ReplyView>, k: int, lookup: LookupView) -> bool {
    &&& 0 <= k < replies.len()
    &&& stage(d, replies, k).todo.len() > 0
    &&& stage(d, replies, k).todo[0] == lookup
}

proof fn stage_of_next(d: DiscoveryView, replies: Seq<ReplyView>, k: int)
    requires
        0 <= k < replies.len(),
    ensures
        stage(d, replies, k + 1) == stage(d.settled(replies[0]), replies.skip(1), k),
{
    assert(replies.take(k + 1).skip(1) =~= replies.skip(1).take(k));
}

proof fn stage_settles(d: DiscoveryView, replies: Seq<ReplyView>, k: int)
    requires
        0 <= k < replies.len(),
    ensures
        stage(d, replies, k + 1) == stage(d, replies, k).settled(replies[k]),
    decreases k,
{
    stage_of_next(d, replies, k);
    if k == 0 {
        assert(replies.skip(1).take(0) =~= Seq::empty());
        assert(replies.take(0) =~= Seq::empty());
    } else {
        let later = replies.skip(1);
        stage_settles(d.settled(replies[0]), later, k - 1);
        stage_of_next(d, replies, k - 1);
    }
}

proof fn settled_splits(d: DiscoveryView, replies: Seq<ReplyView>, k: int)
    requires
        0 <= k <= replies.len(),
    ensures
        settled_by(d, replies) == settled_by(stage(d, replies, k), replies.skip(k)),
    decreases k,
{
    if k == 0 {
        assert(replies.take(0) =~= Seq::empty());
        assert(replies.skip(0) =~= replies);
    } else {
        settled_splits(d.settled(replies[0]), replies.skip(1), k - 1);
        stage_of_next(d, replies, k - 1);
        assert(replies.skip(1).skip(k - 1) =~= replies.skip(k));
    }
}

/// Everything that is to be looked up is looked up before a discovery ends.
proof fn is_looked_up(d: DiscoveryView, replies: Seq<ReplyView>, lookup: LookupView) -> (k: int)
    requires
        d.todo.contains(lookup),
        is_over(d, replies),
    ensures
        looks_up(d, replies, k, lookup),
    decreases replies.len(),
{
    if d.todo[0] == lookup {
        assert(replies.take(0) =~= Seq::empty());
        0
    } else {
        let i = choose|i: int| 0 <= i < d.todo.len() && d.todo[i] == lookup;
        let later = d.settled(replies[0]);
        let before = later.todo.len() - d.todo.skip(1).len();
        assert(later.todo[before + i - 1] == d.todo.skip(1)[i - 1]);
        assert(later.todo.contains(lookup));
        let k = is_looked_up(later, replies.skip(1), lookup);
        stage_of_next(d, replies, k);
        k + 1
    }
}

/// What is looked up after a stage is looked up in the discovery.
proof fn is_looked_up_later(
    d: DiscoveryView,
    replies: Seq<ReplyView>,
    k: int,
    lookup: LookupView,
) -> (j: int)
    requires
        0 <= k <= replies.len(),
        stage(d, replies, k).todo.contains(lookup),
        is_over(d, replies),
    ensures
        k <= j,
        looks_up(d, replies, j, lookup),
{
    settled_splits(d, replies, k);
    let j = is_looked_up(stage(d, replies, k), replies.skip(k), lookup);
    let at = replies.skip(k).take(j);
    settled_splits(d, replies.take(k + j), k);
    assert(replies.take(k + j).take(k) =~= replies.take(k));
    assert(replies.take(k + j).skip(k) =~= at);
    k + j
}

proof fn findings_stay(d: DiscoveryView, replies: Seq<ReplyView>, f: OrphanFindingView)
    requires
        d.report.findings.contains(f),
    ensures
        settled_by(d, replies).report.findings.contains(f),
        settled_by(d, replies).scan == d.scan,
    decreases replies.len(),
{
    if replies.len() > 0 {
        let later = d.settled(replies[0]);
        let i = choose|i: int| 0 <= i < d.report.findings.len() && d.report.findings[i] == f;
        if d.todo.len() > 0 {
            assert(later.report.findings[i] == f);
        }
        findings_stay(later, replies.skip(1), f);
    }
}

proof fn scan_stays(d: DiscoveryView, replies: Seq<ReplyView>)
    ensures
        settled_by(d, replies).scan == d.scan,
        settled_by(d, replies).targets == d.targets,
    decreases replies.len(),
{
    if replies.len() > 0 {
        scan_stays(d.settled(replies[0]), replies.skip(1));
    }
}

// ---------------------------------------------------------------------------------------------
// What is asked and what is reported
// ---------------------------------------------------------------------------------------------
/// The AWS CLI, without its pager.
pub open spec fn quiet_aws(c: CommandView) -> CommandView {
    c.var("AWS_PAGER"@, ""@)
}

/// A resource as it is reported: an orphan where it is older than the least age, or where its age is
/// unknown.
pub open spec fn resource(
    scan: Scan,
    kind: Seq<char>,
    target: AwsSweepTargetView,
    id: Seq<char>,
    created_at: Option<i64>,
) -> OrphanFindingView {
    OrphanFindingView {
        kind,
        region: target.region,
        id,
        cluster: target.cluster_name,
        created_at,
        is_orphan: match created_at {
            Some(created) => scan.at - created > scan.min_age_hours * 3600,
            None => true,
        },
    }
}

/// Whether a resource is reported by the reply to a query, as the one resource that the reply adds,
/// and is in the report at the end.
pub open spec fn adds(
    d: DiscoveryView,
    replies: Seq<ReplyView>,
    k: int,
    f: OrphanFindingView,
) -> bool {
    &&& stage(d, replies, k + 1).report.findings == stage(d, replies, k).report.findings.push(f)
    &&& settled_by(d, replies).report.findings.contains(f)
}

/// The second that a member of a JSON object tells, where it is a text that tells one.
pub open spec fn told(object: JsonTree, member: Seq<char>) -> Option<i64> {
    match object.get(member) {
        Some(JsonTree::Text(text)) => match parse_iso8601_spec(text) {
            Some(second) => Some(second as i64),
            None => None,
        },
        _ => None,
    }
}

proof fn is_planned(targets: Seq<AwsSweepTargetView>, account_id: Seq<char>, target: AwsSweepTargetView)
    requires
        targets.contains(target),
    ensures
        plan_spec(targets, account_id).contains(LookupView::Cluster { target }),
        plan_spec(targets, account_id).contains(LookupView::Nodegroups { target }),
        plan_spec(targets, account_id).contains(LookupView::Instance { target }),
        plan_spec(targets, account_id).contains(LookupView::Vpcs { target }),
        plan_spec(targets, account_id).contains(LookupView::Addresses { target }),
        account_id.len() > 0 ==> plan_spec(targets, account_id).contains(
            LookupView::Buckets { target, account_id },
        ),
    decreases targets.len(),
{
    let plan = plan_spec(targets, account_id);
    let start = plan_spec(targets.drop_last(), account_id);
    let n = start.len() as int;
    if targets.last() == target {
        assert(plan[n] == LookupView::Cluster { target });
        assert(plan[n + 1] == LookupView::Nodegroups { target });
        assert(plan[n + 2] == LookupView::Instance { target });
        assert(plan[n + 3] == LookupView::Vpcs { target });
        assert(plan[n + 4] == LookupView::Addresses { target });
        if account_id.len() > 0 {
            assert(plan[n + 5] == LookupView::Buckets { target, account_id });
        }
    } else {
        let i = choose|i: int| 0 <= i < targets.len() && targets[i] == target;
        assert(targets.drop_last()[i] == target);
        is_planned(targets.drop_last(), account_id, target);
        assert forall|lookup: LookupView| start.contains(lookup) implies #[trigger] plan.contains(
            lookup,
        ) by {
            let j = choose|j: int| 0 <= j < start.len() && start[j] == lookup;
            assert(plan[j] == lookup);
        }
    }
}

/// The account as a discovery learns it from its first reply; nothing where it does not.
pub open spec fn account_of(reply: ReplyView) -> Seq<char> {
    if reply.spawned && reply.ok {
        trim_spec(reply.stdout)
    } else {
        Seq::empty()
    }
}

proof fn is_planned_first(
    targets: Seq<AwsSweepTargetView>,
    scan: Scan,
    replies: Seq<ReplyView>,
    target: AwsSweepTargetView,
)
    requires
        targets.contains(target),
        is_over(DiscoveryView::begun(targets, scan), replies),
    ensures
        replies.len() > 0,
        ({
            let d = DiscoveryView::begun(targets, scan);
            let account_id = account_of(replies[0]);
            let todo = stage(d, replies, 1).todo;
            &&& todo.contains(LookupView::Cluster { target })
            &&& todo.contains(LookupView::Nodegroups { target })
            &&& todo.contains(LookupView::Instance { target })
            &&& todo.contains(LookupView::Vpcs { target })
            &&& todo.contains(LookupView::Addresses { target })
            &&& account_id.len() > 0 ==> todo.contains(LookupView::Buckets { target, account_id })
        }),
{
    let d = DiscoveryView::begun(targets, scan);
    assert(replies.len() > 0) by {
        if replies.len() == 0 {
            assert(settled_by(d, replies).todo.len() == 1);
        }
    }
    stage_settles(d, replies, 0);
    assert(replies.take(0) =~= Seq::empty());
    let later = d.settled(replies[0]);
    assert(d.todo[0] == LookupView::Account);
    assert(d.todo.skip(1) =~= Seq::empty());
    assert(later.report.account_id =~= account_of(replies[0]));
    is_planned(targets, later.report.account_id, target);
    assert(later.todo =~= plan_spec(targets, later.report.account_id));
}

proof fn is_added(d: DiscoveryView, replies: Seq<ReplyView>, k: int, f: OrphanFindingView)
    requires
        0 <= k < replies.len(),
        stage(d, replies, k + 1).report.findings == stage(d, replies, k).report.findings.push(f),
    ensures
        adds(d, replies, k, f),
{
    let found = stage(d, replies, k + 1).report.findings;
    assert(found[found.len() - 1] == f);
    settled_splits(d, replies, k + 1);
    findings_stay(stage(d, replies, k + 1), replies.skip(k + 1), f);
}

/// A discovery asks for the RDS instance of each target by its name. Where it is described, one
/// resource is reported: the instance of that name, of that cluster, with the moment that the first
/// described instance tells.
pub proof fn law_instances_are_reported(
    targets: Seq<AwsSweepTargetView>,
    scan: Scan,
    replies: Seq<ReplyView>,
    target: AwsSweepTargetView,
) -> (k: int)
    requires
        targets.contains(target),
        is_over(DiscoveryView::begun(targets, scan), replies),
    ensures
        ({
            let d = DiscoveryView::begun(targets, scan);
            &&& asks(
                d,
                replies,
                k,
                quiet_aws(
                    command("aws"@)
                        .arg("rds"@).arg("describe-db-instances"@).arg("--db-instance-identifier"@)
                        .arg(target.rds_instance).arg("--region"@).arg(target.region)
                        .arg("--output"@).arg("json"@),
                ),
            )
            &&& replies[k].spawned && replies[k].ok ==> match json_document(replies[k].stdout) {
                Some(document) => adds(
                    d,
                    replies,
                    k,
                    resource(
                        scan,
                        "RDS Instance"@,
                        target,
                        target.rds_instance,
                        match document.get("DBInstances"@) {
                            Some(JsonTree::Items(items)) => if items.len() > 0 {
                                told(items[0], "InstanceCreateTime"@)
                            } else {
                                None
                            },
                            _ => None,
                        },
                    ),
                ),
                None => true,
            }
        }),
{
    let d = DiscoveryView::begun(targets, scan);
    is_planned_first(targets, scan, replies, target);
    let k = is_looked_up_later(d, replies, 1, LookupView::Instance { target });
    stage_settles(d, replies, k);
    scan_stays(d, replies.take(k));
    if replies[k].spawned && replies[k].ok && json_document(replies[k].stdout) is Some {
        let now = stage(d, replies, k);
        let later = stage(d, replies, k + 1);
        let found = later.report.findings;
        assert(found =~= now.report.findings.push(found.last()));
        is_added(d, replies, k, found.last());
    }
    k
}

/// A discovery asks for the EKS cluster of each target by its name. Where it is described, one
/// resource is reported: the cluster of that name, with the moment that the description tells.
pub proof fn law_eks_clusters_are_reported(
    targets: Seq<AwsSweepTargetView>,
    scan: Scan,
    replies: Seq<ReplyView>,
    target: AwsSweepTargetView,
) -> (k: int)
    requires
        targets.contains(target),
        is_over(DiscoveryView::begun(targets, scan), replies),
    ensures
        ({
            let d = DiscoveryView::begun(targets, scan);
            &&& asks(
                d,
                replies,
                k,
                quiet_aws(
                    command("aws"@)
                        .arg("eks"@).arg("describe-cluster"@).arg("--name"@)
                        .arg(target.eks_cluster_name).arg("--region"@).arg(target.region)
                        .arg("--output"@).arg("json"@),
                ),
            )
            &&& replies[k].spawned && replies[k].ok ==> match json_document(replies[k].stdout) {
                Some(document) => adds(
                    d,
                    replies,
                    k,
                    resource(
                        scan,
                        "EKS Cluster"@,
                        target,
                        target.eks_cluster_name,
                        match document.get("cluster"@) {
                            Some(object) => told(object, "createdAt"@),
                            None => None,
                        },
                    ),
                ),
                None => true,
            }
        }),
{
    let d = DiscoveryView::begun(targets, scan);
    is_planned_first(targets, scan, replies, target);
    let k = is_looked_up_later(d, replies, 1, LookupView::Cluster { target });
    stage_settles(d, replies, k);
    scan_stays(d, replies.take(k));
    if replies[k].spawned && replies[k].ok && json_document(replies[k].stdout) is Some {
        let now = stage(d, replies, k);
        let later = stage(d, replies, k + 1);
        let found = later.report.findings;
        assert(found =~= now.report.findings.push(found.last()));
        is_added(d, replies, k, found.last());
    }
    k
}

/// A discovery lists the node groups of the EKS cluster of each target.
pub proof fn law_nodegroups_are_listed(
    targets: Seq<AwsSweepTargetView>,
    scan: Scan,
    replies: Seq<ReplyView>,
    target: AwsSweepTargetView,
) -> (k: int)
    requires
        targets.contains(target),
        is_over(DiscoveryView::begun(targets, scan), replies),
    ensures
        asks(
            DiscoveryView::begun(targets, scan),
            replies,
            k,
            quiet_aws(
                command("aws"@)
                    .arg("eks"@).arg("list-nodegroups"@).arg("--cluster-name"@)
                    .arg(target.eks_cluster_name).arg("--region"@).arg(target.region)
                    .arg("--query"@).arg("nodegroups[]"@).arg("--output"@).arg("text"@),
            ),
        ),
        replies[k].spawned && replies[k].ok ==> forall|name: Seq<char>| #[trigger]
            words_spec(replies[k].stdout).contains(name) ==> nodegroup_is_reported(
                targets,
                scan,
                replies,
                target,
                name,
            ),
{
    let d = DiscoveryView::begun(targets, scan);
    is_planned_first(targets, scan, replies, target);
    let k = is_looked_up_later(d, replies, 1, LookupView::Nodegroups { target });
    stage_settles(d, replies, k);
    if replies[k].spawned && replies[k].ok {
        let names = words_spec(replies[k].stdout);
        assert forall|name: Seq<char>| #[trigger] names.contains(name) implies nodegroup_is_reported(
            targets,
            scan,
            replies,
            target,
            name,
        ) by {
            let i = choose|i: int| 0 <= i < names.len() && names[i] == name;
            let todo = stage(d, replies, k + 1).todo;
            assert(todo[i] == LookupView::Nodegroup { target, name });
            let j = is_looked_up_later(d, replies, k + 1, LookupView::Nodegroup { target, name });
            stage_settles(d, replies, j);
            scan_stays(d, replies.take(j));
            if replies[j].spawned && replies[j].ok && json_document(replies[j].stdout) is Some {
                let now = stage(d, replies, j);
                let found = stage(d, replies, j + 1).report.findings;
                assert(found =~= now.report.findings.push(found.last()));
                is_added(d, replies, j, found.last());
            }
            assert(asks(d, replies, j, describes_nodegroup(target, name)));
        }
    }
    k
}

/// Describes a node group.
pub open spec fn describes_nodegroup(target: AwsSweepTargetView, name: Seq<char>) -> CommandView {
    quiet_aws(
        command("aws"@)
            .arg("eks"@).arg("describe-nodegroup"@).arg("--cluster-name"@)
            .arg(target.eks_cluster_name).arg("--nodegroup-name"@).arg(name).arg("--region"@)
            .arg(target.region).arg("--output"@).arg("json"@),
    )
}

/// Whether a node group is asked for by its name and, where it is described, reported as one resource
/// with the moment that the description tells.
pub open spec fn nodegroup_is_reported(
    targets: Seq<AwsSweepTargetView>,
    scan: Scan,
    replies: Seq<ReplyView>,
    target: AwsSweepTargetView,
    name: Seq<char>,
) -> bool {
    let d = DiscoveryView::begun(targets, scan);
    exists|k: int| #[trigger]
        asks(d, replies, k, describes_nodegroup(target, name)) && (replies[k].spawned
            && replies[k].ok ==> match json_document(replies[k].stdout) {
            Some(document) => adds(
                d,
                replies,
                k,
                resource(
                    scan,
                    "EKS Node Group"@,
                    target,
                    name,
                    match document.get("nodegroup"@) {
                        Some(object) => told(object, "createdAt"@),
                        None => None,
                    },
                ),
            ),
            None => true,
        })
}

/// Lists the NAT gateways of a VPC.
pub open spec fn lists_gateways(target: AwsSweepTargetView, vpc: Seq<char>) -> CommandView {
    quiet_aws(
        command("aws"@)
            .arg("ec2"@).arg("describe-nat-gateways"@).arg("--filters"@)
            .arg("Name=vpc-id,Values="@ + vpc).arg("Name=state,Values=pending,available"@)
            .arg("--region"@).arg(target.region).arg("--query"@)
            .arg("NatGateways[].{Id: NatGatewayId, CreateTime: CreateTime}"@).arg("--output"@)
            .arg("json"@),
    )
}

/// The moments that the NAT gateways of a list tell.
pub open spec fn moments(gateways: Seq<JsonTree>) -> Seq<Option<i64>> {
    gateways.map_values(|gateway: JsonTree| told(gateway, "CreateTime"@))
}

/// Whether a moment is the oldest of a list: it is one of them, and none is before it; no moment
/// where none is told.
pub open spec fn is_oldest(oldest: Option<i64>, told_of: Seq<Option<i64>>) -> bool {
    match oldest {
        Some(at) => told_of.contains(Some(at)) && forall|i: int|
            0 <= i < told_of.len() ==> match #[trigger] told_of[i] {
                Some(other) => at <= other,
                None => true,
            },
        None => forall|i: int| 0 <= i < told_of.len() ==> (#[trigger] told_of[i]) is None,
    }
}

proof fn oldest_is_oldest(gateways: Seq<JsonTree>)
    ensures
        is_oldest(oldest_spec(gateways), moments(gateways)),
    decreases gateways.len(),
{
    if gateways.len() > 0 {
        let start = gateways.drop_last();
        oldest_is_oldest(start);
        let all = moments(gateways);
        let before = moments(start);
        let last = told(gateways.last(), "CreateTime"@);
        assert(all[gateways.len() - 1] == last);
        assert forall|i: int| 0 <= i < before.len() implies #[trigger] all[i] == before[i] by {}
        let oldest = oldest_spec(gateways);
        match oldest_spec(start) {
            Some(at) => {
                let k = choose|k: int| 0 <= k < before.len() && before[k] == Some(at);
                assert(all[k] == Some(at));
            },
            None => {},
        }
        assert forall|i: int| 0 <= i < all.len() implies match (oldest, #[trigger] all[i]) {
            (Some(at), Some(other)) => at <= other,
            (None, Some(_)) => false,
            _ => true,
        } by {
            if i < before.len() {
                assert(all[i] == before[i]);
            }
        }
    }
}

/// Whether a VPC is asked about and reported: it is in the report whatever comes of the query for
/// its NAT gateways, and where they are listed it is as old as the oldest of them, and each that has
/// an identifier is reported too.
pub open spec fn vpc_is_reported(
    targets: Seq<AwsSweepTargetView>,
    scan: Scan,
    replies: Seq<ReplyView>,
    target: AwsSweepTargetView,
    vpc: Seq<char>,
) -> bool {
    let d = DiscoveryView::begun(targets, scan);
    let findings = settled_by(d, replies).report.findings;
    exists|k: int| #[trigger]
        asks(d, replies, k, lists_gateways(target, vpc)) && if replies[k].spawned && replies[k].ok {
            match json_document(replies[k].stdout) {
                Some(JsonTree::Items(gateways)) => {
                    &&& exists|oldest: Option<i64>|
                        is_oldest(oldest, moments(gateways)) && findings.contains(
                            #[trigger] resource(scan, "VPC"@, target, vpc, oldest),
                        )
                    &&& forall|i: int, id: Seq<char>|
                        0 <= i < gateways.len() && (#[trigger] gateways[i]).get("Id"@) == Some(
                            JsonTree::Text(id),
                        ) ==> findings.contains(
                            #[trigger] resource(
                                scan,
                                "NAT Gateway"@,
                                target,
                                id,
                                told(gateways[i], "CreateTime"@),
                            ),
                        )
                },
                _ => true,
            }
        } else {
            findings.contains(resource(scan, "VPC"@, target, vpc, None))
        }
}

proof fn gateways_stay(
    d: DiscoveryView,
    replies: Seq<ReplyView>,
    k: int,
    scan: Scan,
    target: AwsSweepTargetView,
    vpc: Seq<char>,
    gateways: Seq<JsonTree>,
)
    requires
        looks_up(d, replies, k, LookupView::Gateways { target, vpc }),
        d.scan == scan,
        replies[k].spawned && replies[k].ok,
        json_document(replies[k].stdout) == Some(JsonTree::Items(gateways)),
    ensures
        settled_by(d, replies).report.findings.contains(
            resource(scan, "VPC"@, target, vpc, oldest_spec(gateways)),
        ),
        forall|i: int, id: Seq<char>|
            0 <= i < gateways.len() && (#[trigger] gateways[i]).get("Id"@) == Some(
                JsonTree::Text(id),
            ) ==> settled_by(d, replies).report.findings.contains(
                #[trigger] resource(
                    scan,
                    "NAT Gateway"@,
                    target,
                    id,
                    told(gateways[i], "CreateTime"@),
                ),
            ),
{
    stage_settles(d, replies, k);
    scan_stays(d, replies.take(k));
    settled_splits(d, replies, k + 1);
    let now = stage(d, replies, k).report.findings;
    let later = stage(d, replies, k + 1).report.findings;
    let lookup = LookupView::Gateways { target, vpc };
    let found = lookup.findings(scan, replies[k].stdout);
    assert(later =~= now + found);
    let first = resource(scan, "VPC"@, target, vpc, oldest_spec(gateways));
    assert(found[0] == first);
    assert(later[now.len() as int] == first);
    findings_stay(stage(d, replies, k + 1), replies.skip(k + 1), first);
    assert forall|i: int, id: Seq<char>|
        0 <= i < gateways.len() && (#[trigger] gateways[i]).get("Id"@) == Some(
            JsonTree::Text(id),
        ) implies settled_by(d, replies).report.findings.contains(
        #[trigger] resource(scan, "NAT Gateway"@, target, id, told(gateways[i], "CreateTime"@)),
    ) by {
        let f = resource(scan, "NAT Gateway"@, target, id, told(gateways[i], "CreateTime"@));
        law_gateways_are_reported(scan, target, vpc, replies[k].stdout, gateways, i, id);
        let j = choose|j: int| 0 <= j < found.len() && found[j] == f;
        assert(later[now.len() + j] == f);
        findings_stay(stage(d, replies, k + 1), replies.skip(k + 1), f);
    }
}

/// A discovery lists the VPCs of each target by their ownership tag, and each that is listed is
/// reported with its NAT gateways.
pub proof fn law_vpcs_are_reported(
    targets: Seq<AwsSweepTargetView>,
    scan: Scan,
    replies: Seq<ReplyView>,
    target: AwsSweepTargetView,
) -> (k: int)
    requires
        targets.contains(target),
        is_over(DiscoveryView::begun(targets, scan), replies),
    ensures
        asks(
            DiscoveryView::begun(targets, scan),
            replies,
            k,
            quiet_aws(
                command("aws"@)
                    .arg("ec2"@).arg("describe-vpcs"@).arg("--filters"@)
                    .arg(
                        "Name=tag-key,Values="@ + ("sigs.k8s.io/cluster-api-provider-aws/cluster/"@
                            + target.cluster_name),
                    )
                    .arg("--region"@).arg(target.region).arg("--query"@).arg("Vpcs[].VpcId"@)
                    .arg("--output"@).arg("text"@),
            ),
        ),
        replies[k].spawned && replies[k].ok ==> forall|vpc: Seq<char>| #[trigger]
            words_spec(replies[k].stdout).contains(vpc) ==> vpc_is_reported(
                targets,
                scan,
                replies,
                target,
                vpc,
            ),
{
    let d = DiscoveryView::begun(targets, scan);
    is_planned_first(targets, scan, replies, target);
    let k = is_looked_up_later(d, replies, 1, LookupView::Vpcs { target });
    stage_settles(d, replies, k);
    if replies[k].spawned && replies[k].ok {
        let vpcs = words_spec(replies[k].stdout);
        assert forall|vpc: Seq<char>| #[trigger] vpcs.contains(vpc) implies vpc_is_reported(
            targets,
            scan,
            replies,
            target,
            vpc,
        ) by {
            let i = choose|i: int| 0 <= i < vpcs.len() && vpcs[i] == vpc;
            let todo = stage(d, replies, k + 1).todo;
            let lookup = LookupView::Gateways { target, vpc };
            assert(todo[i] == lookup);
            let j = is_looked_up_later(d, replies, k + 1, lookup);
            stage_settles(d, replies, j);
            scan_stays(d, replies.take(j));
            assert(asks(d, replies, j, lists_gateways(target, vpc)));
            if replies[j].spawned && replies[j].ok {
                if let Some(JsonTree::Items(gateways)) = json_document(replies[j].stdout) {
                    oldest_is_oldest(gateways);
                    gateways_stay(d, replies, j, scan, target, vpc, gateways);
                }
            } else {
                let now = stage(d, replies, j).report.findings;
                let later = stage(d, replies, j + 1).report.findings;
                let f = resource(scan, "VPC"@, target, vpc, None);
                assert(later =~= now.push(f));
                is_added(d, replies, j, f);
            }
        }
    }
    k
}

/// A discovery lists the Elastic IPs of each target by their ownership tag, and each that is listed
/// is reported, as an orphan, for when it was allocated is unknown.
pub proof fn law_addresses_are_reported(
    targets: Seq<AwsSweepTargetView>,
    scan: Scan,
    replies: Seq<ReplyView>,
    target: AwsSweepTargetView,
) -> (k: int)
    requires
        targets.contains(target),
        is_over(DiscoveryView::begun(targets, scan), replies),
    ensures
        asks(
            DiscoveryView::begun(targets, scan),
            replies,
            k,
            quiet_aws(
                command("aws"@)
                    .arg("ec2"@).arg("describe-addresses"@).arg("--filters"@)
                    .arg(
                        "Name=tag-key,Values="@ + ("sigs.k8s.io/cluster-api-provider-aws/cluster/"@
                            + target.cluster_name),
                    )
                    .arg("--region"@).arg(target.region).arg("--query"@)
                    .arg("Addresses[].AllocationId"@).arg("--output"@).arg("text"@),
            ),
        ),
        replies[k].spawned && replies[k].ok ==> forall|id: Seq<char>| #[trigger]
            words_spec(replies[k].stdout).contains(id) ==> settled_by(
                DiscoveryView::begun(targets, scan),
                replies,
            ).report.findings.contains(resource(scan, "Elastic IP"@, target, id, None)),
{
    let d = DiscoveryView::begun(targets, scan);
    is_planned_first(targets, scan, replies, target);
    let k = is_looked_up_later(d, replies, 1, LookupView::Addresses { target });
    stage_settles(d, replies, k);
    scan_stays(d, replies.take(k));
    settled_splits(d, replies, k + 1);
    if replies[k].spawned && replies[k].ok {
        let ids = words_spec(replies[k].stdout);
        let now = stage(d, replies, k).report.findings;
        let later = stage(d, replies, k + 1).report.findings;
        assert forall|id: Seq<char>| #[trigger] ids.contains(id) implies settled_by(
            d,
            replies,
        ).report.findings.contains(resource(scan, "Elastic IP"@, target, id, None)) by {
            let f = resource(scan, "Elastic IP"@, target, id, None);
            let i = choose|i: int| 0 <= i < ids.len() && ids[i] == id;
            assert(later[now.len() + i] == f);
            findings_stay(stage(d, replies, k + 1), replies.skip(k + 1), f);
        }
    }
    k
}

/// The name of the data bucket of a cluster in an account.
pub open spec fn data_bucket(account_id: Seq<char>, target: AwsSweepTargetView) -> Seq<char> {
    "krops-"@ + account_id + "-"@ + target.cluster_name + "-data"@
}

/// Where the account is known, a discovery lists its buckets for each target, and the data bucket of
/// the cluster is reported where it is listed.
pub proof fn law_data_buckets_are_found(
    targets: Seq<AwsSweepTargetView>,
    scan: Scan,
    replies: Seq<ReplyView>,
    target: AwsSweepTargetView,
) -> (k: int)
    requires
        targets.contains(target),
        is_over(DiscoveryView::begun(targets, scan), replies),
        replies.len() > 0,
        account_of(replies[0]).len() > 0,
    ensures
        asks(
            DiscoveryView::begun(targets, scan),
            replies,
            k,
            quiet_aws(
                command("aws"@)
                    .arg("s3api"@).arg("list-buckets"@).arg("--output"@).arg("json"@),
            ),
        ),
        replies[k].spawned && replies[k].ok ==> match json_document(replies[k].stdout) {
            Some(document) => match document.get("Buckets"@) {
                Some(JsonTree::Items(buckets)) => forall|i: int|
                    0 <= i < buckets.len() && (#[trigger] buckets[i]).get("Name"@) == Some(
                        JsonTree::Text(data_bucket(account_of(replies[0]), target)),
                    ) ==> settled_by(
                        DiscoveryView::begun(targets, scan),
                        replies,
                    ).report.findings.contains(
                        resource(
                            scan,
                            "S3 Bucket"@,
                            target,
                            data_bucket(account_of(replies[0]), target),
                            told(buckets[i], "CreationDate"@),
                        ),
                    ),
                _ => true,
            },
            None => true,
        },
{
    let d = DiscoveryView::begun(targets, scan);
    let account_id = account_of(replies[0]);
    is_planned_first(targets, scan, replies, target);
    let lookup = LookupView::Buckets { target, account_id };
    let k = is_looked_up_later(d, replies, 1, lookup);
    stage_settles(d, replies, k);
    scan_stays(d, replies.take(k));
    settled_splits(d, replies, k + 1);
    if replies[k].spawned && replies[k].ok {
        let name = "krops-"@ + account_id + "-"@ + target.cluster_name + "-data"@;
        let now = stage(d, replies, k).report.findings;
        let later = stage(d, replies, k + 1).report.findings;
        let found = lookup.findings(scan, replies[k].stdout);
        assert(later =~= now + found);
        if let Some(document) = json_document(replies[k].stdout) {
            if let Some(JsonTree::Items(buckets)) = document.get("Buckets"@) {
                assert forall|i: int|
                    0 <= i < buckets.len() && (#[trigger] buckets[i]).get("Name"@) == Some(
                        JsonTree::Text(name),
                    ) implies settled_by(d, replies).report.findings.contains(
                    resource(scan, "S3 Bucket"@, target, name, told(buckets[i], "CreationDate"@)),
                ) by {
                    let f = resource(
                        scan,
                        "S3 Bucket"@,
                        target,
                        name,
                        told(buckets[i], "CreationDate"@),
                    );
                    law_data_bucket_is_reported(
                        scan,
                        target,
                        account_id,
                        replies[k].stdout,
                        document,
                        buckets,
                        i,
                    );
                    let j = choose|j: int| 0 <= j < found.len() && found[j] == f;
                    assert(later[now.len() + j] == f);
                    findings_stay(stage(d, replies, k + 1), replies.skip(k + 1), f);
                }
            }
        }
    }
    k
}

} // verus!
