//! What the orphan sweep does about VPCs: each one that is tagged as a cluster's own is taken apart
//! and deleted.
use vstd::prelude::*;

use crate::aws::{aws_sweep_targets_spec, AwsSweepTargetView};
use crate::cleanup_laws::{
    for_listed, list_is_done, performed, performing, step_of, steps_perform,
};
use crate::question;
use crate::question::QuestionView;
use crate::runs::{run, some_of, some_of_each, some_of_join, Event};
use crate::script::{command, for_each_spec, ActionView, CommandView, ReplyView, ScriptView};
use crate::settings::Config;
use crate::stretches::{
    answered, finishes, group_holds, has_stretch, holds, holds_each, holds_each_target, holds_whole,
    question_is_answered,
};
use crate::sweep;
use crate::sweep::{cleanup_vpc_resources_spec, sweep_spec, SweepQuestionView};
use crate::text::{trim_spec, words_spec};

verus! {

/// The AWS CLI, at work on EC2 in a region.
pub open spec fn ec2(verb: Seq<char>, region: Seq<char>) -> CommandView {
    command("aws"@).arg("ec2"@).arg(verb).arg("--region"@).arg(region)
}

/// An action on one thing of EC2, which an option names.
pub open spec fn on_one(verb: Seq<char>, region: Seq<char>, option: Seq<char>) -> spec_fn(
    Seq<char>,
) -> ActionView {
    |id: Seq<char>| ActionView::Quiet(ec2(verb, region).arg(option).arg(id))
}

/// A listing, as text.
pub open spec fn listing(c: CommandView, query: Seq<char>) -> ActionView {
    ActionView::Lossy(c.arg("--query"@).arg(query).arg("--output"@).arg("text"@))
}

// ---------------------------------------------------------------------------------------------
// Parts of a VPC
// ---------------------------------------------------------------------------------------------
/// The listing of the NAT gateways of a VPC that are not deleted yet.
pub open spec fn lists_nats(vpc: Seq<char>, region: Seq<char>) -> ActionView {
    listing(
        ec2("describe-nat-gateways"@, region)
            .arg("--filter"@).arg("Name=vpc-id,Values="@ + vpc)
            .arg("Name=state,Values=pending,available,deleting"@),
        "NatGateways[].NatGatewayId"@,
    )
}

/// The wait until a NAT gateway is gone.
pub open spec fn awaits_nat(region: Seq<char>) -> spec_fn(Seq<char>) -> ActionView {
    |id: Seq<char>|
        ActionView::Quiet(
            command("aws"@)
                .arg("ec2"@).arg("wait"@).arg("nat-gateway-deleted"@).arg("--region"@).arg(region)
                .arg("--nat-gateway-ids"@).arg(id),
        )
}

/// The listing of the addresses with a tag.
pub open spec fn lists_addresses(region: Seq<char>, tag: Seq<char>) -> ActionView {
    listing(
        ec2("describe-addresses"@, region)
            .arg("--filters"@).arg("Name=tag:"@ + tag + ",Values=owned"@),
        "Addresses[].AllocationId"@,
    )
}

/// The listing of the subnets of a VPC.
pub open spec fn lists_subnets(vpc: Seq<char>, region: Seq<char>) -> ActionView {
    listing(
        ec2("describe-subnets"@, region).arg("--filters"@).arg("Name=vpc-id,Values="@ + vpc),
        "Subnets[].SubnetId"@,
    )
}

/// The listing of the internet gateways of a VPC.
pub open spec fn lists_gateways(vpc: Seq<char>, region: Seq<char>) -> ActionView {
    listing(
        ec2("describe-internet-gateways"@, region)
            .arg("--filters"@).arg("Name=attachment.vpc-id,Values="@ + vpc),
        "InternetGateways[].InternetGatewayId"@,
    )
}

/// The detachment of an internet gateway from its VPC.
pub open spec fn detaches_gateway(vpc: Seq<char>, region: Seq<char>) -> spec_fn(
    Seq<char>,
) -> ActionView {
    |id: Seq<char>|
        ActionView::Quiet(
            ec2("detach-internet-gateway"@, region)
                .arg("--internet-gateway-id"@).arg(id).arg("--vpc-id"@).arg(vpc),
        )
}

/// The query for the main route table of a VPC.
pub open spec fn asks_main_table(vpc: Seq<char>, region: Seq<char>) -> ActionView {
    listing(
        ec2("describe-route-tables"@, region)
            .arg("--filters"@).arg("Name=vpc-id,Values="@ + vpc).arg("Name=main,Values=true"@),
        "RouteTables[0].RouteTableId"@,
    )
}

/// The listing of the route tables of a VPC.
pub open spec fn lists_tables(vpc: Seq<char>, region: Seq<char>) -> ActionView {
    listing(
        ec2("describe-route-tables"@, region).arg("--filters"@).arg("Name=vpc-id,Values="@ + vpc),
        "RouteTables[].RouteTableId"@,
    )
}

/// That each listed route table but the main one is deleted.
pub open spec fn tables_but_main_go(main: Seq<char>, region: Seq<char>) -> spec_fn(
    ReplyView,
    Seq<Event>,
) -> bool {
    |reply: ReplyView, events: Seq<Event>|
        forall|table: Seq<char>| #[trigger]
            words_spec(reply.stdout).contains(table) && table != main ==> performed(
                events,
                on_one("delete-route-table"@, region, "--route-table-id"@)(table),
            )
}

/// That the main route table is asked for, and each listed one but that is deleted.
pub open spec fn tables_go(vpc: Seq<char>, region: Seq<char>) -> spec_fn(
    ReplyView,
    Seq<Event>,
) -> bool {
    |reply: ReplyView, events: Seq<Event>|
        answered(
            lists_tables(vpc, region),
            tables_but_main_go(trim_spec(reply.stdout), region),
        )(events)
}

/// The listing of the security groups of a VPC but the default one.
pub open spec fn lists_groups(vpc: Seq<char>, region: Seq<char>) -> ActionView {
    listing(
        ec2("describe-security-groups"@, region)
            .arg("--filters"@).arg("Name=vpc-id,Values="@ + vpc),
        "SecurityGroups[?GroupName!=`default`].GroupId"@,
    )
}

/// The query for the rules of a security group.
pub open spec fn asks_rules(group: Seq<char>, region: Seq<char>, query: Seq<char>) -> ActionView {
    ActionView::Lossy(
        ec2("describe-security-groups"@, region)
            .arg("--group-ids"@).arg(group).arg("--query"@).arg(query).arg("--output"@)
            .arg("json"@),
    )
}

/// The revocation of rules of a security group.
pub open spec fn revokes(
    verb: Seq<char>,
    group: Seq<char>,
    region: Seq<char>,
    rules: Seq<char>,
) -> ActionView {
    ActionView::Quiet(
        ec2(verb, region).arg("--group-id"@).arg(group).arg("--ip-permissions"@).arg(rules),
    )
}

/// That the rules of a group are revoked as they were listed, where there are any.
pub open spec fn rules_go(verb: Seq<char>, group: Seq<char>, region: Seq<char>) -> spec_fn(
    ReplyView,
    Seq<Event>,
) -> bool {
    |reply: ReplyView, events: Seq<Event>|
        {
            let rules = trim_spec(reply.stdout);
            rules.len() > 0 && rules != "[]"@ ==> performed(
                events,
                revokes(verb, group, region, rules),
            )
        }
}

/// That each listed group loses its rules and is deleted.
pub open spec fn groups_go(region: Seq<char>) -> spec_fn(ReplyView, Seq<Event>) -> bool {
    |reply: ReplyView, events: Seq<Event>|
        forall|group: Seq<char>| #[trigger]
            words_spec(reply.stdout).contains(group) ==> {
                &&& has_stretch(
                    events,
                    answered(
                        asks_rules(group, region, "SecurityGroups[0].IpPermissions"@),
                        rules_go("revoke-security-group-ingress"@, group, region),
                    ),
                )
                &&& has_stretch(
                    events,
                    answered(
                        asks_rules(group, region, "SecurityGroups[0].IpPermissionsEgress"@),
                        rules_go("revoke-security-group-egress"@, group, region),
                    ),
                )
                &&& performed(
                    events,
                    on_one("delete-security-group"@, region, "--group-id"@)(group),
                )
            }
}

/// That all parts of a VPC are listed and go, the tagged addresses are released, and the VPC is
/// deleted.
pub open spec fn vpc_goes(vpc: Seq<char>, region: Seq<char>, tag: Seq<char>) -> spec_fn(
    Seq<Event>,
) -> bool {
    |events: Seq<Event>|
        {
            &&& has_stretch(
                events,
                answered(
                    lists_nats(vpc, region),
                    for_listed(on_one("delete-nat-gateway"@, region, "--nat-gateway-id"@)),
                ),
            )
            &&& has_stretch(
                events,
                answered(lists_nats(vpc, region), for_listed(awaits_nat(region))),
            )
            &&& has_stretch(
                events,
                answered(
                    lists_addresses(region, tag),
                    for_listed(on_one("release-address"@, region, "--allocation-id"@)),
                ),
            )
            &&& has_stretch(
                events,
                answered(
                    lists_subnets(vpc, region),
                    for_listed(on_one("delete-subnet"@, region, "--subnet-id"@)),
                ),
            )
            &&& has_stretch(
                events,
                answered(lists_gateways(vpc, region), for_listed(detaches_gateway(vpc, region))),
            )
            &&& has_stretch(
                events,
                answered(
                    lists_gateways(vpc, region),
                    for_listed(
                        on_one("delete-internet-gateway"@, region, "--internet-gateway-id"@),
                    ),
                ),
            )
            &&& has_stretch(events, answered(asks_main_table(vpc, region), tables_go(vpc, region)))
            &&& has_stretch(events, answered(lists_groups(vpc, region), groups_go(region)))
            &&& performed(events, on_one("delete-vpc"@, region, "--vpc-id"@)(vpc))
        }
}

/// A question on its own.
pub open spec fn asking(q: SweepQuestionView) -> ScriptView {
    ScriptView::new().ask(QuestionView::Sweep(q))
}

proof fn list_is_held(
    cfg: Config,
    q: SweepQuestionView,
    script: spec_fn(Seq<char>) -> ScriptView,
    one: spec_fn(Seq<char>) -> ActionView,
)
    requires
        forall|name: Seq<char>| some_of(#[trigger] script(name), step_of(one(name))),
        forall|reply: ReplyView|
            (#[trigger] sweep::answer_spec(cfg, q, reply)) == ScriptView::new().join(
                for_each_spec(words_spec(reply.stdout), script),
            ),
    ensures
        holds(cfg, asking(q), answered(sweep::action_spec(cfg, q), for_listed(one))),
{
    list_is_done(cfg, q, script, one);
    holds_whole(cfg, asking(q), answered(sweep::action_spec(cfg, q), for_listed(one)));
}

proof fn nats_go(cfg: Config, vpc: Seq<char>, region: Seq<char>)
    ensures
        holds(
            cfg,
            asking(SweepQuestionView::VpcNats { vpc, region }),
            answered(
                lists_nats(vpc, region),
                for_listed(on_one("delete-nat-gateway"@, region, "--nat-gateway-id"@)),
            ),
        ),
        holds(
            cfg,
            asking(SweepQuestionView::VpcNats { vpc, region }),
            answered(lists_nats(vpc, region), for_listed(awaits_nat(region))),
        ),
{
    let sq = SweepQuestionView::VpcNats { vpc, region };
    let q = QuestionView::Sweep(sq);
    let delete = |item: Seq<char>| sweep::delete_nat_spec(item, region);
    let wait = |item: Seq<char>| sweep::await_nat_spec(item, region);
    let deleting = on_one("delete-nat-gateway"@, region, "--nat-gateway-id"@);
    let waiting = awaits_nat(region);
    assert forall|reply: ReplyView|
        finishes(
            cfg,
            #[trigger] question::answer_spec(cfg, q, reply),
            |events: Seq<Event>| for_listed(deleting)(reply, events),
        ) && finishes(
            cfg,
            question::answer_spec(cfg, q, reply),
            |events: Seq<Event>| for_listed(waiting)(reply, events),
        ) by {
        let s = question::answer_spec(cfg, q, reply);
        let nats = words_spec(reply.stdout);
        let first = ScriptView::new().join(for_each_spec(nats, delete));
        assert(s == first.join(for_each_spec(nats, wait)));
        assert forall|replies: Seq<ReplyView>|
            (#[trigger] run(cfg, s.steps, replies)).left is Some implies for_listed(deleting)(
            reply,
            run(cfg, s.steps, replies).events,
        ) && for_listed(waiting)(reply, run(cfg, s.steps, replies).events) by {
            let events = run(cfg, s.steps, replies).events;
            assert forall|name: Seq<char>| #[trigger] nats.contains(name) implies performed(
                events,
                deleting(name),
            ) && performed(events, waiting(name)) by {
                let i = choose|i: int| 0 <= i < nats.len() && nats[i] == name;
                assert(step_of(deleting(name))(delete(name).steps.last()));
                some_of_each(nats, delete, step_of(deleting(name)), i);
                some_of_join(
                    ScriptView::new(),
                    for_each_spec(nats, delete),
                    step_of(deleting(name)),
                );
                some_of_join(first, for_each_spec(nats, wait), step_of(deleting(name)));
                steps_perform(cfg, s, deleting(name));
                assert(performing(deleting(name))(events));
                assert(step_of(waiting(name))(wait(name).steps.last()));
                some_of_each(nats, wait, step_of(waiting(name)), i);
                some_of_join(first, for_each_spec(nats, wait), step_of(waiting(name)));
                steps_perform(cfg, s, waiting(name));
                assert(performing(waiting(name))(events));
            }
        }
    }
    assert(question::action_spec(cfg, q) == lists_nats(vpc, region));
    question_is_answered(cfg, q, for_listed(deleting));
    question_is_answered(cfg, q, for_listed(waiting));
}

proof fn addresses_and_subnets_go(cfg: Config, vpc: Seq<char>, region: Seq<char>, tag: Seq<char>)
    ensures
        holds(
            cfg,
            asking(SweepQuestionView::VpcAddresses { region, tag }),
            answered(
                lists_addresses(region, tag),
                for_listed(on_one("release-address"@, region, "--allocation-id"@)),
            ),
        ),
        holds(
            cfg,
            asking(SweepQuestionView::VpcSubnets { vpc, region }),
            answered(
                lists_subnets(vpc, region),
                for_listed(on_one("delete-subnet"@, region, "--subnet-id"@)),
            ),
        ),
{
    let a = SweepQuestionView::VpcAddresses { region, tag };
    let release = |item: Seq<char>| sweep::release_address_spec(item, region);
    let releasing = on_one("release-address"@, region, "--allocation-id"@);
    assert forall|name: Seq<char>| some_of(#[trigger] release(name), step_of(releasing(name))) by {
        assert(step_of(releasing(name))(release(name).steps.last()));
    }
    list_is_held(cfg, a, release, releasing);
    assert(sweep::action_spec(cfg, a) == lists_addresses(region, tag));
    let b = SweepQuestionView::VpcSubnets { vpc, region };
    let delete = |item: Seq<char>| sweep::delete_subnet_spec(item, region);
    let deleting = on_one("delete-subnet"@, region, "--subnet-id"@);
    assert forall|name: Seq<char>| some_of(#[trigger] delete(name), step_of(deleting(name))) by {
        assert(step_of(deleting(name))(delete(name).steps.last()));
    }
    list_is_held(cfg, b, delete, deleting);
    assert(sweep::action_spec(cfg, b) == lists_subnets(vpc, region));
}

proof fn gateways_go(cfg: Config, vpc: Seq<char>, region: Seq<char>)
    ensures
        holds(
            cfg,
            asking(SweepQuestionView::VpcGateways { vpc, region }),
            answered(lists_gateways(vpc, region), for_listed(detaches_gateway(vpc, region))),
        ),
        holds(
            cfg,
            asking(SweepQuestionView::VpcGateways { vpc, region }),
            answered(
                lists_gateways(vpc, region),
                for_listed(on_one("delete-internet-gateway"@, region, "--internet-gateway-id"@)),
            ),
        ),
{
    let q = SweepQuestionView::VpcGateways { vpc, region };
    let script = |item: Seq<char>| sweep::delete_gateway_spec(item, vpc, region);
    let detaching = detaches_gateway(vpc, region);
    assert forall|name: Seq<char>| some_of(#[trigger] script(name), step_of(detaching(name))) by {
        assert(step_of(detaching(name))(script(name).steps[1]));
    }
    list_is_held(cfg, q, script, detaching);
    let deleting = on_one("delete-internet-gateway"@, region, "--internet-gateway-id"@);
    assert forall|name: Seq<char>| some_of(#[trigger] script(name), step_of(deleting(name))) by {
        assert(step_of(deleting(name))(script(name).steps[3]));
    }
    list_is_held(cfg, q, script, deleting);
    assert(sweep::action_spec(cfg, q) == lists_gateways(vpc, region));
}

proof fn other_tables_go(cfg: Config, vpc: Seq<char>, region: Seq<char>, main: Seq<char>)
    ensures
        finishes(
            cfg,
            asking(SweepQuestionView::VpcTables { vpc, region, main }),
            answered(lists_tables(vpc, region), tables_but_main_go(main, region)),
        ),
{
    let q = QuestionView::Sweep(SweepQuestionView::VpcTables { vpc, region, main });
    let rest = tables_but_main_go(main, region);
    let script = |item: Seq<char>| sweep::delete_route_table_spec(item, main, region);
    let deleting = on_one("delete-route-table"@, region, "--route-table-id"@);
    assert forall|reply: ReplyView|
        finishes(
            cfg,
            #[trigger] question::answer_spec(cfg, q, reply),
            |events: Seq<Event>| rest(reply, events),
        ) by {
        let s = question::answer_spec(cfg, q, reply);
        let found = words_spec(reply.stdout);
        assert(s == ScriptView::new().join(for_each_spec(found, script)));
        assert forall|replies: Seq<ReplyView>|
            (#[trigger] run(cfg, s.steps, replies)).left is Some implies rest(
            reply,
            run(cfg, s.steps, replies).events,
        ) by {
            let events = run(cfg, s.steps, replies).events;
            assert forall|name: Seq<char>| #[trigger]
                found.contains(name) && name != main implies performed(events, deleting(name)) by {
                let i = choose|i: int| 0 <= i < found.len() && found[i] == name;
                assert(step_of(deleting(name))(script(name).steps.last()));
                some_of_each(found, script, step_of(deleting(name)), i);
                some_of_join(
                    ScriptView::new(),
                    for_each_spec(found, script),
                    step_of(deleting(name)),
                );
                steps_perform(cfg, s, deleting(name));
                assert(performing(deleting(name))(events));
            }
        }
    }
    question_is_answered(cfg, q, rest);
    assert(question::action_spec(cfg, q) == lists_tables(vpc, region));
}

proof fn all_tables_go(cfg: Config, vpc: Seq<char>, region: Seq<char>)
    ensures
        holds(
            cfg,
            asking(SweepQuestionView::VpcMainTable { vpc, region }),
            answered(asks_main_table(vpc, region), tables_go(vpc, region)),
        ),
{
    let q = QuestionView::Sweep(SweepQuestionView::VpcMainTable { vpc, region });
    let rest = tables_go(vpc, region);
    assert forall|reply: ReplyView|
        finishes(
            cfg,
            #[trigger] question::answer_spec(cfg, q, reply),
            |events: Seq<Event>| rest(reply, events),
        ) by {
        other_tables_go(cfg, vpc, region, trim_spec(reply.stdout));
    }
    question_is_answered(cfg, q, rest);
    assert(question::action_spec(cfg, q) == asks_main_table(vpc, region));
}

proof fn group_rules_go(cfg: Config, group: Seq<char>, region: Seq<char>)
    ensures
        holds(
            cfg,
            asking(SweepQuestionView::GroupIngress { group, region }),
            answered(
                asks_rules(group, region, "SecurityGroups[0].IpPermissions"@),
                rules_go("revoke-security-group-ingress"@, group, region),
            ),
        ),
        holds(
            cfg,
            asking(SweepQuestionView::GroupEgress { group, region }),
            answered(
                asks_rules(group, region, "SecurityGroups[0].IpPermissionsEgress"@),
                rules_go("revoke-security-group-egress"@, group, region),
            ),
        ),
{
    let ingress = SweepQuestionView::GroupIngress { group, region };
    assert forall|reply: ReplyView|
        ({
            let rules = trim_spec(reply.stdout);
            rules.len() > 0 && rules != "[]"@ ==> some_of(
                #[trigger] sweep::answer_spec(cfg, ingress, reply),
                step_of(revokes("revoke-security-group-ingress"@, group, region, rules)),
            )
        }) by {
        let rules = trim_spec(reply.stdout);
        let s = sweep::answer_spec(cfg, ingress, reply);
        if rules.len() > 0 && rules != "[]"@ {
            let one = revokes("revoke-security-group-ingress"@, group, region, rules);
            assert(step_of(one)(s.steps.last()));
        }
    }
    rules_go_one_way(
        cfg,
        ingress,
        "revoke-security-group-ingress"@,
        group,
        region,
    );
    let egress = SweepQuestionView::GroupEgress { group, region };
    assert forall|reply: ReplyView|
        ({
            let rules = trim_spec(reply.stdout);
            rules.len() > 0 && rules != "[]"@ ==> some_of(
                #[trigger] sweep::answer_spec(cfg, egress, reply),
                step_of(revokes("revoke-security-group-egress"@, group, region, rules)),
            )
        }) by {
        let rules = trim_spec(reply.stdout);
        let s = sweep::answer_spec(cfg, egress, reply);
        if rules.len() > 0 && rules != "[]"@ {
            let one = revokes("revoke-security-group-egress"@, group, region, rules);
            assert(step_of(one)(s.steps.last()));
        }
    }
    rules_go_one_way(
        cfg,
        egress,
        "revoke-security-group-egress"@,
        group,
        region,
    );
}

proof fn rules_go_one_way(
    cfg: Config,
    q: SweepQuestionView,
    verb: Seq<char>,
    group: Seq<char>,
    region: Seq<char>,
)
    requires
        forall|reply: ReplyView|
            ({
                let rules = trim_spec(reply.stdout);
                rules.len() > 0 && rules != "[]"@ ==> some_of(
                    #[trigger] sweep::answer_spec(cfg, q, reply),
                    step_of(revokes(verb, group, region, rules)),
                )
            }),
    ensures
        holds(
            cfg,
            asking(q),
            answered(sweep::action_spec(cfg, q), rules_go(verb, group, region)),
        ),
{
    let asked = QuestionView::Sweep(q);
    let rest = rules_go(verb, group, region);
    assert forall|reply: ReplyView|
        finishes(
            cfg,
            #[trigger] question::answer_spec(cfg, asked, reply),
            |events: Seq<Event>| rest(reply, events),
        ) by {
        let s = sweep::answer_spec(cfg, q, reply);
        assert(question::answer_spec(cfg, asked, reply) == s);
        let rules = trim_spec(reply.stdout);
        if rules.len() > 0 && rules != "[]"@ {
            let one = revokes(verb, group, region, rules);
            steps_perform(cfg, s, one);
            assert forall|replies: Seq<ReplyView>|
                (#[trigger] run(cfg, s.steps, replies)).left is Some implies rest(
                reply,
                run(cfg, s.steps, replies).events,
            ) by {
                assert(performing(one)(run(cfg, s.steps, replies).events));
            }
        }
    }
    question_is_answered(cfg, asked, rest);
}

proof fn all_groups_go(cfg: Config, vpc: Seq<char>, region: Seq<char>)
    ensures
        holds(
            cfg,
            asking(SweepQuestionView::VpcGroups { vpc, region }),
            answered(lists_groups(vpc, region), groups_go(region)),
        ),
{
    broadcast use group_holds;

    let q = QuestionView::Sweep(SweepQuestionView::VpcGroups { vpc, region });
    let rest = groups_go(region);
    let strip = |item: Seq<char>| sweep::strip_group_spec(item, region);
    let delete = |item: Seq<char>| sweep::delete_group_spec(item, region);
    let deleting = on_one("delete-security-group"@, region, "--group-id"@);
    assert forall|reply: ReplyView|
        finishes(
            cfg,
            #[trigger] question::answer_spec(cfg, q, reply),
            |events: Seq<Event>| rest(reply, events),
        ) by {
        let s = question::answer_spec(cfg, q, reply);
        let groups = words_spec(reply.stdout);
        let first = ScriptView::new().join(for_each_spec(groups, strip));
        assert(s == first.join(for_each_spec(groups, delete)));
        assert forall|replies: Seq<ReplyView>|
            (#[trigger] run(cfg, s.steps, replies)).left is Some implies rest(
            reply,
            run(cfg, s.steps, replies).events,
        ) by {
            let events = run(cfg, s.steps, replies).events;
            assert forall|group: Seq<char>| #[trigger] groups.contains(group) implies ({
                &&& has_stretch(
                    events,
                    answered(
                        asks_rules(group, region, "SecurityGroups[0].IpPermissions"@),
                        rules_go("revoke-security-group-ingress"@, group, region),
                    ),
                )
                &&& has_stretch(
                    events,
                    answered(
                        asks_rules(group, region, "SecurityGroups[0].IpPermissionsEgress"@),
                        rules_go("revoke-security-group-egress"@, group, region),
                    ),
                )
                &&& performed(events, deleting(group))
            }) by {
                let a = answered(
                    asks_rules(group, region, "SecurityGroups[0].IpPermissions"@),
                    rules_go("revoke-security-group-ingress"@, group, region),
                );
                let b = answered(
                    asks_rules(group, region, "SecurityGroups[0].IpPermissionsEgress"@),
                    rules_go("revoke-security-group-egress"@, group, region),
                );
                group_rules_go(cfg, group, region);
                assert(holds(cfg, strip(group), a));
                holds_each(cfg, groups, strip, a, group);
                assert(holds(cfg, s, a));
                assert(holds(cfg, strip(group), b));
                holds_each(cfg, groups, strip, b, group);
                assert(holds(cfg, s, b));
                let i = choose|i: int| 0 <= i < groups.len() && groups[i] == group;
                assert(step_of(deleting(group))(delete(group).steps.last()));
                some_of_each(groups, delete, step_of(deleting(group)), i);
                some_of_join(first, for_each_spec(groups, delete), step_of(deleting(group)));
                steps_perform(cfg, s, deleting(group));
                assert(performing(deleting(group))(events));
            }
        }
    }
    question_is_answered(cfg, q, rest);
    assert(question::action_spec(cfg, q) == lists_groups(vpc, region));
}

/// A VPC is taken apart and deleted: all of its parts that are listed go.
#[verifier::rlimit(60)]
pub proof fn law_vpcs_are_taken_apart(
    cfg: Config,
    vpc: Seq<char>,
    region: Seq<char>,
    tag: Seq<char>,
)
    ensures
        finishes(cfg, sweep::cleanup_vpc_spec(vpc, region, tag), vpc_goes(vpc, region, tag)),
{
    broadcast use group_holds;

    let s = sweep::cleanup_vpc_spec(vpc, region, tag);
    let kind = vpc_goes(vpc, region, tag);
    nats_go(cfg, vpc, region);
    addresses_and_subnets_go(cfg, vpc, region, tag);
    gateways_go(cfg, vpc, region);
    all_tables_go(cfg, vpc, region);
    all_groups_go(cfg, vpc, region);
    assert(holds(
        cfg,
        s,
        answered(
            lists_nats(vpc, region),
            for_listed(on_one("delete-nat-gateway"@, region, "--nat-gateway-id"@)),
        ),
    ));
    assert(holds(cfg, s, answered(lists_nats(vpc, region), for_listed(awaits_nat(region)))));
    assert(holds(
        cfg,
        s,
        answered(
            lists_addresses(region, tag),
            for_listed(on_one("release-address"@, region, "--allocation-id"@)),
        ),
    ));
    assert(holds(
        cfg,
        s,
        answered(
            lists_subnets(vpc, region),
            for_listed(on_one("delete-subnet"@, region, "--subnet-id"@)),
        ),
    ));
    assert(holds(
        cfg,
        s,
        answered(lists_gateways(vpc, region), for_listed(detaches_gateway(vpc, region))),
    ));
    assert(holds(
        cfg,
        s,
        answered(
            lists_gateways(vpc, region),
            for_listed(on_one("delete-internet-gateway"@, region, "--internet-gateway-id"@)),
        ),
    ));
    assert(holds(cfg, s, answered(asks_main_table(vpc, region), tables_go(vpc, region))));
    assert(holds(cfg, s, answered(lists_groups(vpc, region), groups_go(region))));
    let last = on_one("delete-vpc"@, region, "--vpc-id"@)(vpc);
    assert(step_of(last)(s.steps.last()));
    steps_perform(cfg, s, last);
    assert forall|replies: Seq<ReplyView>|
        (#[trigger] run(cfg, s.steps, replies)).left is Some implies kind(
        run(cfg, s.steps, replies).events,
    ) by {
        assert(performing(last)(run(cfg, s.steps, replies).events));
    }
}

// ---------------------------------------------------------------------------------------------
// The VPCs of a target
// ---------------------------------------------------------------------------------------------
/// The tag of what Cluster API made for a cluster.
pub open spec fn owner_tag(target: AwsSweepTargetView) -> Seq<char> {
    "sigs.k8s.io/cluster-api-provider-aws/cluster/"@ + target.cluster_name
}

/// The listing of the VPCs that are tagged as a cluster's own.
pub open spec fn lists_vpcs(target: AwsSweepTargetView) -> ActionView {
    listing(
        ec2("describe-vpcs"@, target.region)
            .arg("--filters"@).arg("Name=tag:"@ + owner_tag(target) + ",Values=owned"@),
        "Vpcs[].VpcId"@,
    )
}

/// That each listed VPC goes.
pub open spec fn vpcs_go(target: AwsSweepTargetView) -> spec_fn(ReplyView, Seq<Event>) -> bool {
    |reply: ReplyView, events: Seq<Event>|
        forall|vpc: Seq<char>| #[trigger]
            words_spec(reply.stdout).contains(vpc) ==> has_stretch(
                events,
                vpc_goes(vpc, target.region, owner_tag(target)),
            )
}

proof fn vpcs_unit(cfg: Config, target: AwsSweepTargetView)
    ensures
        finishes(
            cfg,
            cleanup_vpc_resources_spec(target),
            answered(lists_vpcs(target), vpcs_go(target)),
        ),
{
    let q = QuestionView::Sweep(SweepQuestionView::Vpcs { target });
    let rest = vpcs_go(target);
    let one = |item: Seq<char>| sweep::cleanup_listed_vpc_spec(item, target);
    assert forall|reply: ReplyView|
        finishes(
            cfg,
            #[trigger] question::answer_spec(cfg, q, reply),
            |events: Seq<Event>| rest(reply, events),
        ) by {
        let s = question::answer_spec(cfg, q, reply);
        let found = words_spec(reply.stdout);
        assert(s == ScriptView::new().join(for_each_spec(found, one)));
        assert forall|vpc: Seq<char>| #[trigger] found.contains(vpc) implies holds(
            cfg,
            s,
            vpc_goes(vpc, target.region, owner_tag(target)),
        ) by {
            broadcast use group_holds;

            let kind = vpc_goes(vpc, target.region, owner_tag(target));
            law_vpcs_are_taken_apart(cfg, vpc, target.region, owner_tag(target));
            holds_whole(
                cfg,
                sweep::cleanup_vpc_spec(vpc, target.region, owner_tag(target)),
                kind,
            );
            assert(holds(cfg, one(vpc), kind));
            holds_each(cfg, found, one, kind, vpc);
        }
    }
    question_is_answered(cfg, q, rest);
    assert(question::action_spec(cfg, q) == lists_vpcs(target));
}

/// For every target and every sweep that comes to its end: the VPCs that are tagged as the cluster's
/// own are listed, and each one that is listed is taken apart and deleted.
pub proof fn law_vpcs_of_targets_are_deleted(
    cfg: Config,
    target: AwsSweepTargetView,
    replies: Seq<ReplyView>,
)
    requires
        aws_sweep_targets_spec(*cfg.environment).contains(target),
        run(cfg, sweep_spec(cfg).steps, replies).left is Some,
    ensures
        has_stretch(
            run(cfg, sweep_spec(cfg).steps, replies).events,
            answered(lists_vpcs(target), vpcs_go(target)),
        ),
{
    broadcast use group_holds;

    let one = |t: AwsSweepTargetView| cleanup_vpc_resources_spec(t);
    let kind = answered(lists_vpcs(target), vpcs_go(target));
    vpcs_unit(cfg, target);
    holds_whole(cfg, one(target), kind);
    holds_each_target(cfg, aws_sweep_targets_spec(*cfg.environment), one, kind, target);
    assert(holds(cfg, sweep_spec(cfg), kind));
}

} // verus!
