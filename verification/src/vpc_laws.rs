//! What holds of every cleanup of a VPC: its parts go in the order of their dependencies.
use vstd::prelude::*;

use crate::question;
use crate::question::QuestionView;
use crate::runs::{
    all_of, group_all_of, group_guarded, group_some_of, guarded, guarded_question, guards,
    law_steps_run_in_order, owed_brings, owes, performs, precedes, run, some_of, some_of_each,
    supplies, tame, tame_guards, Event,
};
use crate::script::{command, for_each_spec, ActionView, ReplyView, RuleView, ScriptView, StepView};
use crate::settings::Config;
use crate::sweep;
use crate::sweep::SweepQuestionView;
use crate::text::{is_nothing_spec, trim_spec, words_spec};

verus! {

// ---------------------------------------------------------------------------------------------
// The order of the parts
// ---------------------------------------------------------------------------------------------
/// The place of an operation on EC2 in the order in which the parts of a VPC go: its NAT gateways,
/// the wait for them, its addresses, subnets, internet gateways and route tables, the rules of its
/// security groups, the groups, and the VPC itself. An operation that reads has no place.
pub open spec fn rank(operation: Seq<char>) -> int {
    if operation == "delete-nat-gateway"@ {
        1
    } else if operation == "wait"@ {
        2
    } else if operation == "release-address"@ {
        3
    } else if operation == "delete-subnet"@ {
        4
    } else if operation == "detach-internet-gateway"@
        || operation == "delete-internet-gateway"@ {
        5
    } else if operation == "delete-route-table"@ {
        6
    } else if operation == "revoke-security-group-ingress"@
        || operation == "revoke-security-group-egress"@ {
        7
    } else if operation == "delete-security-group"@ {
        8
    } else if operation == "delete-vpc"@ {
        9
    } else {
        0
    }
}

/// The place of an action in the order in which the parts of a VPC go; zero where it has none.
pub open spec fn place(action: ActionView) -> int {
    match action.command() {
        Some(c) => if c.program == "aws"@ && c.args.len() > 1 && c.args[0] == "ec2"@ {
            rank(c.args[1])
        } else {
            0
        },
        None => 0,
    }
}

/// The place of an event in the order in which the parts of a VPC go; zero where it has none.
pub open spec fn place_of(event: Event) -> int {
    match event {
        Event::Performed(action, _) => place(action),
        _ => 0,
    }
}

/// The places of the operations that the cleanup of a VPC uses.
pub proof fn lemma_ranks()
    ensures
        rank("delete-nat-gateway"@) == 1,
        rank("wait"@) == 2,
        rank("release-address"@) == 3,
        rank("delete-subnet"@) == 4,
        rank("detach-internet-gateway"@) == 5,
        rank("delete-internet-gateway"@) == 5,
        rank("delete-route-table"@) == 6,
        rank("revoke-security-group-ingress"@) == 7,
        rank("revoke-security-group-egress"@) == 7,
        rank("delete-security-group"@) == 8,
        rank("delete-vpc"@) == 9,
        rank("describe-nat-gateways"@) == 0,
        rank("describe-addresses"@) == 0,
        rank("describe-subnets"@) == 0,
        rank("describe-internet-gateways"@) == 0,
        rank("describe-route-tables"@) == 0,
        rank("describe-security-groups"@) == 0,
{
    reveal_strlit("delete-nat-gateway");
    reveal_strlit("wait");
    reveal_strlit("release-address");
    reveal_strlit("delete-subnet");
    reveal_strlit("detach-internet-gateway");
    reveal_strlit("delete-internet-gateway");
    reveal_strlit("delete-route-table");
    reveal_strlit("revoke-security-group-ingress");
    reveal_strlit("revoke-security-group-egress");
    reveal_strlit("delete-security-group");
    reveal_strlit("delete-vpc");
    reveal_strlit("describe-nat-gateways");
    reveal_strlit("describe-addresses");
    reveal_strlit("describe-subnets");
    reveal_strlit("describe-internet-gateways");
    reveal_strlit("describe-route-tables");
    reveal_strlit("describe-security-groups");
    assert("delete-nat-gateway"@.len() == 18 && "delete-nat-gateway"@[2] == 'l');
    assert("wait"@.len() == 4 && "wait"@[2] == 'i');
    assert("release-address"@.len() == 15 && "release-address"@[2] == 'l');
    assert("delete-subnet"@.len() == 13 && "delete-subnet"@[2] == 'l');
    assert("detach-internet-gateway"@.len() == 23 && "detach-internet-gateway"@[2] == 't');
    assert("delete-internet-gateway"@.len() == 23 && "delete-internet-gateway"@[2] == 'l');
    assert("delete-route-table"@.len() == 18 && "delete-route-table"@[2] == 'l');
    assert("revoke-security-group-ingress"@.len() == 29 && "revoke-security-group-ingress"@[2] == 'v');
    assert("revoke-security-group-egress"@.len() == 28 && "revoke-security-group-egress"@[2] == 'v');
    assert("delete-security-group"@.len() == 21 && "delete-security-group"@[2] == 'l');
    assert("delete-vpc"@.len() == 10 && "delete-vpc"@[2] == 'l');
    assert("describe-nat-gateways"@.len() == 21 && "describe-nat-gateways"@[2] == 's');
    assert("describe-addresses"@.len() == 18 && "describe-addresses"@[2] == 's');
    assert("describe-subnets"@.len() == 16 && "describe-subnets"@[2] == 's');
    assert("describe-internet-gateways"@.len() == 26 && "describe-internet-gateways"@[2] == 's');
    assert("describe-route-tables"@.len() == 21 && "describe-route-tables"@[2] == 's');
    assert("describe-security-groups"@.len() == 24 && "describe-security-groups"@[2] == 's');
    assert("delete-nat-gateway"@[7] == 'n' && "delete-route-table"@[7] == 'r');
}

/// Whether events with a place stand in the order of their places, from one place to another.
pub open spec fn in_order(events: Seq<Event>, from: int, to: int) -> bool {
    &&& forall|i: int|
        0 <= i < events.len() && place_of(#[trigger] events[i]) != 0 ==> from <= place_of(events[i])
            <= to
    &&& forall|i: int, j: int|
        0 <= i < j < events.len() && place_of(#[trigger] events[i]) != 0 && place_of(
            #[trigger] events[j],
        ) != 0 ==> place_of(events[i]) <= place_of(events[j])
}

/// Whether steps keep the order, from one place to another, whatever the replies are.
pub open spec fn keeps(cfg: Config, todo: Seq<StepView>, from: int, to: int) -> bool {
    forall|replies: Seq<ReplyView>|
        in_order((#[trigger] run(cfg, todo, replies)).events, from, to)
}

proof fn order_concat(a: Seq<Event>, b: Seq<Event>, from: int, until: int, since: int, to: int)
    requires
        from <= until <= since <= to,
        in_order(a, from, until),
        in_order(b, since, to),
    ensures
        in_order(a + b, from, to),
{
    let both = a + b;
    assert forall|i: int| 0 <= i < both.len() && place_of(#[trigger] both[i]) != 0 implies from
        <= place_of(both[i]) <= to by {
        if i < a.len() {
            assert(both[i] == a[i]);
        } else {
            assert(both[i] == b[i - a.len()]);
        }
    }
    assert forall|i: int, j: int|
        0 <= i < j < both.len() && place_of(#[trigger] both[i]) != 0 && place_of(
            #[trigger] both[j],
        ) != 0 implies place_of(both[i]) <= place_of(both[j]) by {
        if i < a.len() {
            assert(both[i] == a[i]);
        } else {
            assert(both[i] == b[i - a.len()]);
        }
        if j < a.len() {
            assert(both[j] == a[j]);
        } else {
            assert(both[j] == b[j - a.len()]);
        }
    }
}

proof fn keeps_concat(
    cfg: Config,
    s: Seq<StepView>,
    t: Seq<StepView>,
    from: int,
    until: int,
    since: int,
    to: int,
)
    requires
        from <= until <= since <= to,
        keeps(cfg, s, from, until),
        keeps(cfg, t, since, to),
    ensures
        keeps(cfg, s + t, from, to),
{
    assert forall|replies: Seq<ReplyView>|
        in_order((#[trigger] run(cfg, s + t, replies)).events, from, to) by {
        law_steps_run_in_order(cfg, s, t, replies);
        let a = run(cfg, s, replies);
        assert(in_order(a.events, from, until));
        if let Some(left) = a.left {
            assert(in_order(run(cfg, t, left).events, since, to));
            order_concat(a.events, run(cfg, t, left).events, from, until, since, to);
        }
    }
}

proof fn keeps_ask(
    cfg: Config,
    s: ScriptView,
    q: QuestionView,
    from: int,
    until: int,
    since: int,
    to: int,
)
    requires
        from <= until <= since <= to,
        keeps(cfg, s.steps, from, until),
        place(question::action_spec(cfg, q)) == 0,
        forall|reply: ReplyView|
            keeps(cfg, (#[trigger] question::answer_spec(cfg, q, reply)).steps, since, to),
    ensures
        keeps(cfg, s.ask(q).steps, from, to),
{
    let one = seq![StepView::Ask(q)];
    assert forall|replies: Seq<ReplyView>|
        in_order((#[trigger] run(cfg, one, replies)).events, since, to) by {
        if replies.len() > 0 {
            let answer = question::answer_spec(cfg, q, replies[0]);
            let now = seq![Event::Performed(question::action_spec(cfg, q), replies[0])];
            let later = run(cfg, answer.steps, replies.skip(1)).events;
            assert(answer.steps + one.skip(1) =~= answer.steps);
            assert(keeps(cfg, answer.steps, since, to));
            assert(in_order(later, since, to));
            order_concat(now, later, since, since, since, to);
        }
    }
    keeps_concat(cfg, s.steps, one, from, until, since, to);
    assert(s.ask(q).steps =~= s.steps + one);
}

/// A step at one place.
pub open spec fn at_place(step: StepView, at: int) -> bool {
    match step {
        StepView::Do(action, _) => place(action) == 0 || place(action) == at,
        StepView::Ask(QuestionView::Sweep(q)) => match q {
            SweepQuestionView::VpcTables { .. } => at == 6,
            SweepQuestionView::GroupIngress { .. } => at == 7,
            SweepQuestionView::GroupEgress { .. } => at == 7,
            _ => false,
        },
        StepView::Ask(_) => false,
        _ => true,
    }
}

proof fn one_place(cfg: Config, s: ScriptView, at: int)
    requires
        all_of(s, |step: StepView| at_place(step, at)),
    ensures
        keeps(cfg, s.steps, at, at),
{
    let kind = |step: StepView| at_place(step, at);
    let never = |e: Event| false;
    let action = |a: ActionView| place(a) != 0 && place(a) != at;
    lemma_ranks();
    assert(tame(cfg, kind, never, action)) by {
        assert forall|q: QuestionView| (#[trigger] kind(StepView::Ask(q))) implies !action(
            question::action_spec(cfg, q),
        ) && forall|reply: ReplyView|
            all_of(#[trigger] question::answer_spec(cfg, q, reply), kind) by {
            assert forall|reply: ReplyView|
                all_of(#[trigger] question::answer_spec(cfg, q, reply), kind) by {
                broadcast use group_all_of;

            }
        }
    }
    tame_guards(cfg, kind, never, action, s.steps);
    assert forall|replies: Seq<ReplyView>|
        in_order((#[trigger] run(cfg, s.steps, replies)).events, at, at) by {
        let events = run(cfg, s.steps, replies).events;
        assert(precedes(events, never, action));
        assert forall|i: int| 0 <= i < events.len() && place_of(#[trigger] events[i]) != 0 implies at
            <= place_of(events[i]) <= at by {
            if place_of(events[i]) != at {
                assert(performs(events[i], action));
            }
        }
    }
}

proof fn nats_keep_order(cfg: Config, region: Seq<char>, reply: ReplyView)
    ensures
        keeps(cfg, sweep::after_vpc_nats_spec(region, reply).steps, 1, 2),
{
    let nats = words_spec(reply.stdout);
    let deleted = for_each_spec(nats, |item: Seq<char>| sweep::delete_nat_spec(item, region));
    let awaited = for_each_spec(nats, |item: Seq<char>| sweep::await_nat_spec(item, region));
    lemma_ranks();
    assert(all_of(deleted, |step: StepView| at_place(step, 1))) by {
        broadcast use group_all_of;

    }
    assert(all_of(awaited, |step: StepView| at_place(step, 2))) by {
        broadcast use group_all_of;

    }
    one_place(cfg, deleted, 1);
    one_place(cfg, awaited, 2);
    keeps_concat(cfg, deleted.steps, awaited.steps, 1, 1, 2, 2);
    assert(sweep::after_vpc_nats_spec(region, reply).steps =~= deleted.steps + awaited.steps);
}

proof fn groups_keep_order(cfg: Config, region: Seq<char>, reply: ReplyView)
    ensures
        keeps(cfg, sweep::after_vpc_groups_spec(region, reply).steps, 7, 8),
{
    let groups = words_spec(reply.stdout);
    let stripped = for_each_spec(groups, |item: Seq<char>| sweep::strip_group_spec(item, region));
    let deleted = for_each_spec(groups, |item: Seq<char>| sweep::delete_group_spec(item, region));
    lemma_ranks();
    assert(all_of(stripped, |step: StepView| at_place(step, 7))) by {
        broadcast use group_all_of;

    }
    assert(all_of(deleted, |step: StepView| at_place(step, 8))) by {
        broadcast use group_all_of;

    }
    one_place(cfg, stripped, 7);
    one_place(cfg, deleted, 8);
    keeps_concat(cfg, stripped.steps, deleted.steps, 7, 7, 8, 8);
    assert(sweep::after_vpc_groups_spec(region, reply).steps =~= stripped.steps + deleted.steps);
}

proof fn parts_keep_order(cfg: Config, vpc: Seq<char>, region: Seq<char>, reply: ReplyView)
    ensures
        keeps(cfg, sweep::after_vpc_addresses_spec(region, reply).steps, 3, 3),
        keeps(cfg, sweep::after_vpc_subnets_spec(region, reply).steps, 4, 4),
        keeps(cfg, sweep::after_vpc_gateways_spec(vpc, region, reply).steps, 5, 5),
        keeps(cfg, sweep::after_vpc_main_table_spec(vpc, region, reply).steps, 6, 6),
{
    broadcast use group_all_of;

    lemma_ranks();
    one_place(cfg, sweep::after_vpc_addresses_spec(region, reply), 3);
    one_place(cfg, sweep::after_vpc_subnets_spec(region, reply), 4);
    one_place(cfg, sweep::after_vpc_gateways_spec(vpc, region, reply), 5);
    one_place(cfg, sweep::after_vpc_main_table_spec(vpc, region, reply), 6);
}

/// The parts of a VPC go in the order of their dependencies, whatever the replies are: no NAT gateway
/// is deleted after an address is released, no address is released after a subnet is deleted, and so
/// on through the internet gateways, the route tables, the rules of the security groups and the
/// groups. Nothing goes after the VPC.
pub proof fn law_vpc_parts_go_in_order(
    cfg: Config,
    vpc: Seq<char>,
    region: Seq<char>,
    tag: Seq<char>,
    replies: Seq<ReplyView>,
    i: int,
    j: int,
)
    requires
        0 <= i < j < run(cfg, sweep::cleanup_vpc_spec(vpc, region, tag).steps, replies).events.len(),
    ensures
        ({
            let events = run(
                cfg,
                sweep::cleanup_vpc_spec(vpc, region, tag).steps,
                replies,
            ).events;
            place_of(events[i]) != 0 && place_of(events[j]) != 0 ==> place_of(events[i]) <= place_of(
                events[j],
            )
        }),
{
    let nats = QuestionView::Sweep(SweepQuestionView::VpcNats { vpc, region });
    let addresses = QuestionView::Sweep(SweepQuestionView::VpcAddresses { region, tag });
    let subnets = QuestionView::Sweep(SweepQuestionView::VpcSubnets { vpc, region });
    let gateways = QuestionView::Sweep(SweepQuestionView::VpcGateways { vpc, region });
    let main = QuestionView::Sweep(SweepQuestionView::VpcMainTable { vpc, region });
    let groups = QuestionView::Sweep(SweepQuestionView::VpcGroups { vpc, region });
    lemma_ranks();
    assert forall|reply: ReplyView|
        keeps(cfg, (#[trigger] question::answer_spec(cfg, nats, reply)).steps, 1, 2) by {
        nats_keep_order(cfg, region, reply);
    }
    assert forall|reply: ReplyView|
        keeps(cfg, (#[trigger] question::answer_spec(cfg, addresses, reply)).steps, 3, 3) by {
        parts_keep_order(cfg, vpc, region, reply);
    }
    assert forall|reply: ReplyView|
        keeps(cfg, (#[trigger] question::answer_spec(cfg, subnets, reply)).steps, 4, 4) by {
        parts_keep_order(cfg, vpc, region, reply);
    }
    assert forall|reply: ReplyView|
        keeps(cfg, (#[trigger] question::answer_spec(cfg, gateways, reply)).steps, 5, 5) by {
        parts_keep_order(cfg, vpc, region, reply);
    }
    assert forall|reply: ReplyView|
        keeps(cfg, (#[trigger] question::answer_spec(cfg, main, reply)).steps, 6, 6) by {
        parts_keep_order(cfg, vpc, region, reply);
    }
    assert forall|reply: ReplyView|
        keeps(cfg, (#[trigger] question::answer_spec(cfg, groups, reply)).steps, 7, 8) by {
        groups_keep_order(cfg, region, reply);
    }
    let s0 = ScriptView::new();
    let s1 = s0.ask(nats);
    let s2 = s1.ask(addresses);
    let s3 = s2.ask(subnets);
    let s4 = s3.ask(gateways);
    let s5 = s4.ask(main);
    let s6 = s5.ask(groups);
    assert(keeps(cfg, s0.steps, 1, 1));
    keeps_ask(cfg, s0, nats, 1, 1, 1, 2);
    keeps_ask(cfg, s1, addresses, 1, 2, 3, 3);
    keeps_ask(cfg, s2, subnets, 1, 3, 4, 4);
    keeps_ask(cfg, s3, gateways, 1, 4, 5, 5);
    keeps_ask(cfg, s4, main, 1, 5, 6, 6);
    keeps_ask(cfg, s5, groups, 1, 6, 7, 8);
    let whole = sweep::cleanup_vpc_spec(vpc, region, tag);
    let end = ScriptView { steps: whole.steps.skip(s6.steps.len() as int) };
    assert(all_of(end, |step: StepView| at_place(step, 9)));
    one_place(cfg, end, 9);
    keeps_concat(cfg, s6.steps, end.steps, 1, 8, 9, 9);
    assert(whole.steps =~= s6.steps + end.steps);
    assert(in_order(run(cfg, whole.steps, replies).events, 1, 9));
}

// ---------------------------------------------------------------------------------------------
// Before a part goes
// ---------------------------------------------------------------------------------------------
/// Deletes a security group.
pub open spec fn deletes_group(group: Seq<char>, region: Seq<char>) -> ActionView {
    ActionView::Quiet(
        command("aws"@)
            .arg("ec2"@).arg("delete-security-group"@).arg("--region"@).arg(region)
            .arg("--group-id"@).arg(group),
    )
}

/// Revokes rules of a security group: `operation` is the one for its ingress or its egress rules.
pub open spec fn revokes(
    operation: Seq<char>,
    group: Seq<char>,
    region: Seq<char>,
    rules: Seq<char>,
) -> ActionView {
    ActionView::Quiet(
        command("aws"@)
            .arg("ec2"@).arg(operation).arg("--region"@).arg(region).arg("--group-id"@).arg(group)
            .arg("--ip-permissions"@).arg(rules),
    )
}

/// Whether the event settles the ingress rules of a security group: they are revoked, or a listing
/// shows none.
pub open spec fn settles_ingress(
    cfg: Config,
    event: Event,
    group: Seq<char>,
    region: Seq<char>,
) -> bool {
    match event {
        Event::Performed(action, reply) => {
            ||| exists|rules: Seq<char>|
                action == #[trigger] revokes("revoke-security-group-ingress"@, group, region, rules)
            ||| action == sweep::action_spec(cfg, SweepQuestionView::GroupIngress { group, region })
                && shows_no_rules(reply)
        },
        _ => false,
    }
}

/// Whether the event settles the egress rules of a security group: they are revoked, or a listing
/// shows none.
pub open spec fn settles_egress(
    cfg: Config,
    event: Event,
    group: Seq<char>,
    region: Seq<char>,
) -> bool {
    match event {
        Event::Performed(action, reply) => {
            ||| exists|rules: Seq<char>|
                action == #[trigger] revokes("revoke-security-group-egress"@, group, region, rules)
            ||| action == sweep::action_spec(cfg, SweepQuestionView::GroupEgress { group, region })
                && shows_no_rules(reply)
        },
        _ => false,
    }
}

/// Whether a listing of rules shows none.
pub open spec fn shows_no_rules(reply: ReplyView) -> bool {
    let rules = trim_spec(reply.stdout);
    rules == "[]"@ || is_nothing_spec(rules)
}

/// A step of the cleanup of a VPC that does not lead to an action.
spec fn spares(step: StepView, action: ActionView) -> bool {
    match step {
        StepView::Do(other, _) => other != action,
        StepView::Ask(QuestionView::Sweep(q)) => match q {
            SweepQuestionView::VpcNats { .. } => place(action) > 2,
            SweepQuestionView::VpcAddresses { .. } => place(action) != 3,
            SweepQuestionView::VpcSubnets { .. } => place(action) != 4,
            SweepQuestionView::VpcGateways { .. } => place(action) != 5,
            SweepQuestionView::VpcMainTable { .. } => place(action) != 6,
            SweepQuestionView::VpcTables { .. } => place(action) != 6,
            SweepQuestionView::VpcGroups { .. } => place(action) < 7,
            SweepQuestionView::GroupIngress { .. } => place(action) != 7,
            SweepQuestionView::GroupEgress { .. } => place(action) != 7,
            _ => false,
        },
        StepView::Ask(_) => false,
        _ => true,
    }
}

proof fn spares_is_tame(cfg: Config, first: spec_fn(Event) -> bool, action: ActionView)
    requires
        place(action) != 0,
    ensures
        tame(cfg, |step: StepView| spares(step, action), first, |a: ActionView| a == action),
{
    let kind = |step: StepView| spares(step, action);
    let wanted = |a: ActionView| a == action;
    lemma_ranks();
    assert forall|q: QuestionView| (#[trigger] kind(StepView::Ask(q))) implies !wanted(
        question::action_spec(cfg, q),
    ) && forall|reply: ReplyView|
        all_of(#[trigger] question::answer_spec(cfg, q, reply), kind) by {
        assert(place(question::action_spec(cfg, q)) == 0);
        assert forall|reply: ReplyView|
            all_of(#[trigger] question::answer_spec(cfg, q, reply), kind) by {
            broadcast use group_all_of;

        }
    }
}

proof fn spared(cfg: Config, s: ScriptView, first: spec_fn(Event) -> bool, action: ActionView)
    requires
        place(action) != 0,
        all_of(s, |step: StepView| spares(step, action)),
    ensures
        guarded(cfg, s, first, |a: ActionView| a == action),
{
    spares_is_tame(cfg, first, action);
    tame_guards(
        cfg,
        |step: StepView| spares(step, action),
        first,
        |a: ActionView| a == action,
        s.steps,
    );
}

proof fn stripping_settles_ingress(
    cfg: Config,
    groups: Seq<Seq<char>>,
    group: Seq<char>,
    region: Seq<char>,
)
    requires
        groups.contains(group),
    ensures
        supplies(
            cfg,
            for_each_spec(groups, |item: Seq<char>| sweep::strip_group_spec(item, region)),
            |e: Event| settles_ingress(cfg, e, group, region),
        ),
{
    let first = |e: Event| settles_ingress(cfg, e, group, region);
    let q = QuestionView::Sweep(SweepQuestionView::GroupIngress { group, region });
    let kind = |step: StepView|
        match step {
            StepView::Ask(other) => other == q,
            StepView::Do(action, _) => exists|rules: Seq<char>|
                action == #[trigger] revokes("revoke-security-group-ingress"@, group, region, rules),
            _ => false,
        };
    assert(owes(cfg, kind, first)) by {
        assert forall|other: QuestionView, reply: ReplyView| kind(StepView::Ask(other)) implies first(
            Event::Performed(question::action_spec(cfg, other), reply),
        ) || some_of(#[trigger] question::answer_spec(cfg, other, reply), kind) by {
            broadcast use group_some_of;

            let action = revokes(
                "revoke-security-group-ingress"@,
                group,
                region,
                trim_spec(reply.stdout),
            );
            assert(kind(StepView::Do(action, RuleView::Ignore)));
        }
    }
    let one = |item: Seq<char>| sweep::strip_group_spec(item, region);
    let k = choose|k: int| 0 <= k < groups.len() && groups[k] == group;
    assert(some_of(one(groups[k]), kind)) by {
        broadcast use group_some_of;

    }
    some_of_each(groups, one, kind, k);
    owed_brings(cfg, kind, first, for_each_spec(groups, one).steps);
}

proof fn stripping_settles_egress(
    cfg: Config,
    groups: Seq<Seq<char>>,
    group: Seq<char>,
    region: Seq<char>,
)
    requires
        groups.contains(group),
    ensures
        supplies(
            cfg,
            for_each_spec(groups, |item: Seq<char>| sweep::strip_group_spec(item, region)),
            |e: Event| settles_egress(cfg, e, group, region),
        ),
{
    let first = |e: Event| settles_egress(cfg, e, group, region);
    let q = QuestionView::Sweep(SweepQuestionView::GroupEgress { group, region });
    let kind = |step: StepView|
        match step {
            StepView::Ask(other) => other == q,
            StepView::Do(action, _) => exists|rules: Seq<char>|
                action == #[trigger] revokes("revoke-security-group-egress"@, group, region, rules),
            _ => false,
        };
    assert(owes(cfg, kind, first)) by {
        assert forall|other: QuestionView, reply: ReplyView| kind(StepView::Ask(other)) implies first(
            Event::Performed(question::action_spec(cfg, other), reply),
        ) || some_of(#[trigger] question::answer_spec(cfg, other, reply), kind) by {
            broadcast use group_some_of;

            let action = revokes(
                "revoke-security-group-egress"@,
                group,
                region,
                trim_spec(reply.stdout),
            );
            assert(kind(StepView::Do(action, RuleView::Ignore)));
        }
    }
    let one = |item: Seq<char>| sweep::strip_group_spec(item, region);
    let k = choose|k: int| 0 <= k < groups.len() && groups[k] == group;
    assert(some_of(one(groups[k]), kind)) by {
        broadcast use group_some_of;

    }
    some_of_each(groups, one, kind, k);
    owed_brings(cfg, kind, first, for_each_spec(groups, one).steps);
}

proof fn others_are_deleted(groups: Seq<Seq<char>>, group: Seq<char>, region: Seq<char>)
    requires
        !groups.contains(group),
    ensures
        all_of(
            for_each_spec(groups, |item: Seq<char>| sweep::delete_group_spec(item, region)),
            |step: StepView| spares(step, deletes_group(group, region)),
        ),
    decreases groups.len(),
{
    broadcast use group_all_of;

    if groups.len() > 0 {
        let start = groups.drop_last();
        assert(!start.contains(group)) by {
            if start.contains(group) {
                let k = choose|k: int| 0 <= k < start.len() && start[k] == group;
                assert(groups[k] == group);
            }
        }
        others_are_deleted(start, group, region);
        let last = groups.last();
        assert(groups[groups.len() - 1] == last);
        let other = deletes_group(last, region);
        assert(other != deletes_group(group, region)) by {
            assert(other.command()->0.args[5] == last);
            assert(deletes_group(group, region).command()->0.args[5] == group);
        }
    }
}

/// The answer to which groups there are is guarded by an event that stripping a group brings.
proof fn groups_are_guarded(
    cfg: Config,
    group: Seq<char>,
    region: Seq<char>,
    reply: ReplyView,
    first: spec_fn(Event) -> bool,
)
    requires
        words_spec(reply.stdout).contains(group) ==> supplies(
            cfg,
            for_each_spec(
                words_spec(reply.stdout),
                |item: Seq<char>| sweep::strip_group_spec(item, region),
            ),
            first,
        ),
    ensures
        guarded(
            cfg,
            sweep::after_vpc_groups_spec(region, reply),
            first,
            |a: ActionView| a == deletes_group(group, region),
        ),
{
    let groups = words_spec(reply.stdout);
    let action = deletes_group(group, region);
    let stripped = for_each_spec(groups, |item: Seq<char>| sweep::strip_group_spec(item, region));
    let deleted = for_each_spec(groups, |item: Seq<char>| sweep::delete_group_spec(item, region));
    lemma_ranks();
    assert(all_of(stripped, |step: StepView| spares(step, action))) by {
        broadcast use group_all_of;

    }
    spared(cfg, stripped, first, action);
    if !groups.contains(group) {
        others_are_deleted(groups, group, region);
        spared(cfg, deleted, first, action);
    }
    broadcast use group_guarded;

    assert(supplies(cfg, ScriptView::new().join(stripped), first) || guarded(
        cfg,
        deleted,
        first,
        |a: ActionView| a == action,
    ));
}

/// What guards the answer to which gateways, or which groups, there are guards the cleanup of the VPC.
proof fn cleanup_is_guarded(
    cfg: Config,
    vpc: Seq<char>,
    region: Seq<char>,
    tag: Seq<char>,
    first: spec_fn(Event) -> bool,
    action: ActionView,
    q: QuestionView,
)
    requires
        place(action) == 5 && q == QuestionView::Sweep(
            SweepQuestionView::VpcGateways { vpc, region },
        ) || place(action) == 8 && q == QuestionView::Sweep(
            SweepQuestionView::VpcGroups { vpc, region },
        ),
        forall|reply: ReplyView|
            guarded(
                cfg,
                #[trigger] question::answer_spec(cfg, q, reply),
                first,
                |a: ActionView| a == action,
            ),
    ensures
        guarded(
            cfg,
            sweep::cleanup_vpc_spec(vpc, region, tag),
            first,
            |a: ActionView| a == action,
        ),
{
    let wanted = |a: ActionView| a == action;
    let kind = |step: StepView| spares(step, action) || step == StepView::Ask(q);
    lemma_ranks();
    spares_is_tame(cfg, first, action);
    guarded_question(cfg, q, first, wanted);
    let spare = |step: StepView| spares(step, action);
    assert(tame(cfg, kind, first, wanted)) by {
        assert forall|a: ActionView, rule: RuleView|
            (#[trigger] kind(StepView::Do(a, rule))) implies !wanted(a) by {
            assert(spare(StepView::Do(a, rule)));
        }
        assert forall|other: QuestionView| (#[trigger] kind(StepView::Ask(other))) implies {
            ||| guards(cfg, seq![StepView::Ask(other)], first, wanted)
            ||| !wanted(question::action_spec(cfg, other)) && forall|reply: ReplyView|
                all_of(#[trigger] question::answer_spec(cfg, other, reply), kind)
        } by {
            if other != q {
                let alone = ScriptView { steps: seq![StepView::Ask(other)] };
                assert(all_of(alone, spare));
                spared(cfg, alone, first, action);
            }
        }
    }
    assert(all_of(sweep::cleanup_vpc_spec(vpc, region, tag), kind)) by {
        broadcast use group_all_of;

    }
    tame_guards(cfg, kind, first, wanted, sweep::cleanup_vpc_spec(vpc, region, tag).steps);
}

/// No security group of a VPC is deleted before its rules are gone, whatever the replies are: its
/// ingress rules are revoked, or a listing shows none, and so its egress rules. Groups refer to each
/// other by their rules, so a group that still has some keeps others from going.
pub proof fn law_rules_are_revoked_first(
    cfg: Config,
    vpc: Seq<char>,
    region: Seq<char>,
    tag: Seq<char>,
    group: Seq<char>,
    replies: Seq<ReplyView>,
)
    ensures
        precedes(
            run(cfg, sweep::cleanup_vpc_spec(vpc, region, tag).steps, replies).events,
            |e: Event| settles_ingress(cfg, e, group, region),
            |a: ActionView| a == deletes_group(group, region),
        ),
        precedes(
            run(cfg, sweep::cleanup_vpc_spec(vpc, region, tag).steps, replies).events,
            |e: Event| settles_egress(cfg, e, group, region),
            |a: ActionView| a == deletes_group(group, region),
        ),
{
    let action = deletes_group(group, region);
    let wanted = |a: ActionView| a == action;
    let q = QuestionView::Sweep(SweepQuestionView::VpcGroups { vpc, region });
    let ingress = |e: Event| settles_ingress(cfg, e, group, region);
    let egress = |e: Event| settles_egress(cfg, e, group, region);
    lemma_ranks();
    assert(place(action) == 8);
    assert forall|reply: ReplyView|
        guarded(cfg, #[trigger] question::answer_spec(cfg, q, reply), ingress, wanted) by {
        if words_spec(reply.stdout).contains(group) {
            stripping_settles_ingress(cfg, words_spec(reply.stdout), group, region);
        }
        groups_are_guarded(cfg, group, region, reply, ingress);
    }
    assert forall|reply: ReplyView|
        guarded(cfg, #[trigger] question::answer_spec(cfg, q, reply), egress, wanted) by {
        if words_spec(reply.stdout).contains(group) {
            stripping_settles_egress(cfg, words_spec(reply.stdout), group, region);
        }
        groups_are_guarded(cfg, group, region, reply, egress);
    }
    cleanup_is_guarded(cfg, vpc, region, tag, ingress, action, q);
    cleanup_is_guarded(cfg, vpc, region, tag, egress, action, q);
}

/// Detaches an internet gateway from a VPC.
pub open spec fn detaches_gateway(
    gateway: Seq<char>,
    vpc: Seq<char>,
    region: Seq<char>,
) -> ActionView {
    ActionView::Quiet(
        command("aws"@)
            .arg("ec2"@).arg("detach-internet-gateway"@).arg("--region"@).arg(region)
            .arg("--internet-gateway-id"@).arg(gateway).arg("--vpc-id"@).arg(vpc),
    )
}

/// Deletes an internet gateway.
pub open spec fn deletes_gateway(gateway: Seq<char>, region: Seq<char>) -> ActionView {
    ActionView::Quiet(
        command("aws"@)
            .arg("ec2"@).arg("delete-internet-gateway"@).arg("--region"@).arg(region)
            .arg("--internet-gateway-id"@).arg(gateway),
    )
}

/// Whether the event detaches an internet gateway from a VPC.
pub open spec fn detached(
    event: Event,
    gateway: Seq<char>,
    vpc: Seq<char>,
    region: Seq<char>,
) -> bool {
    match event {
        Event::Performed(action, _) => action == detaches_gateway(gateway, vpc, region),
        _ => false,
    }
}

proof fn gateway_is_guarded(
    cfg: Config,
    item: Seq<char>,
    gateway: Seq<char>,
    vpc: Seq<char>,
    region: Seq<char>,
)
    ensures
        guarded(
            cfg,
            sweep::delete_gateway_spec(item, vpc, region),
            |e: Event| detached(e, gateway, vpc, region),
            |a: ActionView| a == deletes_gateway(gateway, region),
        ),
{
    broadcast use group_guarded;

    let first = |e: Event| detached(e, gateway, vpc, region);
    let wanted = |a: ActionView| a == deletes_gateway(gateway, region);
    let detach = detaches_gateway(item, vpc, region);
    assert(!wanted(detach)) by {
        assert(detach.command()->0.args.len() == 8);
        assert(deletes_gateway(gateway, region).command()->0.args.len() == 6);
    }
    let start = ScriptView::new()
        .say(">>>     Detaching internet gateway: "@ + item)
        .perform(detach, RuleView::Ignore);
    if item == gateway {
        let kind = |step: StepView| step == StepView::Do(detach, RuleView::Ignore);
        assert(some_of(start, kind)) by {
            broadcast use group_some_of;

        }
        owed_brings(cfg, kind, first, start.steps);
        assert(supplies(cfg, start, first));
    } else {
        assert(!wanted(deletes_gateway(item, region))) by {
            assert(deletes_gateway(item, region).command()->0.args[5] == item);
            assert(deletes_gateway(gateway, region).command()->0.args[5] == gateway);
        }
    }
    assert(guarded(
        cfg,
        start.say(">>>     Deleting internet gateway: "@ + item).perform(
            deletes_gateway(item, region),
            RuleView::Ignore,
        ),
        first,
        wanted,
    ));
}

proof fn gateways_are_guarded(
    cfg: Config,
    items: Seq<Seq<char>>,
    gateway: Seq<char>,
    vpc: Seq<char>,
    region: Seq<char>,
)
    ensures
        guarded(
            cfg,
            for_each_spec(
                items,
                |item: Seq<char>| sweep::delete_gateway_spec(item, vpc, region),
            ),
            |e: Event| detached(e, gateway, vpc, region),
            |a: ActionView| a == deletes_gateway(gateway, region),
        ),
    decreases items.len(),
{
    broadcast use group_guarded;

    if items.len() > 0 {
        gateways_are_guarded(cfg, items.drop_last(), gateway, vpc, region);
        gateway_is_guarded(cfg, items.last(), gateway, vpc, region);
    }
}

/// No internet gateway is deleted before it is detached from its VPC, whatever the replies are.
pub proof fn law_gateways_are_detached_first(
    cfg: Config,
    vpc: Seq<char>,
    region: Seq<char>,
    tag: Seq<char>,
    gateway: Seq<char>,
    replies: Seq<ReplyView>,
)
    ensures
        precedes(
            run(cfg, sweep::cleanup_vpc_spec(vpc, region, tag).steps, replies).events,
            |e: Event| detached(e, gateway, vpc, region),
            |a: ActionView| a == deletes_gateway(gateway, region),
        ),
{
    let action = deletes_gateway(gateway, region);
    let wanted = |a: ActionView| a == action;
    let first = |e: Event| detached(e, gateway, vpc, region);
    let q = QuestionView::Sweep(SweepQuestionView::VpcGateways { vpc, region });
    lemma_ranks();
    assert(place(action) == 5);
    assert forall|reply: ReplyView|
        guarded(cfg, #[trigger] question::answer_spec(cfg, q, reply), first, wanted) by {
        broadcast use group_guarded;

        gateways_are_guarded(cfg, words_spec(reply.stdout), gateway, vpc, region);
    }
    cleanup_is_guarded(cfg, vpc, region, tag, first, action, q);
}

} // verus!
