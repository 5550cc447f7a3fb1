//! What the orphan sweep does about S3 buckets: it empties them batch by batch, and deletes them.
use vstd::prelude::*;

use crate::aws::{aws_sweep_targets_spec, AwsSweepTargetView};
use crate::cleanup_laws::{gate_is_done, if_there, is_action, performed};
use crate::duties::tried;
use crate::question;
use crate::question::QuestionView;
use crate::runs::{happened, run, Event};
use crate::script::{command, ActionView, CommandView, ReplyView, StepView};
use crate::settings::Config;
use crate::stretches::{
    answered, finishes, group_holds, has_stretch, holds, holds_each_target, holds_whole,
    question_is_answered,
};
use crate::sweep;
use crate::sweep::{cleanup_s3_bucket_spec, sweep_spec, SweepQuestionView};
use crate::text::{contains_spec, replace_spec, trim_spec};

verus! {

/// The AWS CLI, at work on a bucket.
pub open spec fn s3api(verb: Seq<char>, bucket: Seq<char>, region: Seq<char>) -> CommandView {
    command("aws"@)
        .arg("s3api"@).arg(verb).arg("--bucket"@).arg(bucket).arg("--region"@).arg(region)
}

/// The listing of a batch of the object versions and delete markers of a bucket.
pub open spec fn lists_batch(bucket: Seq<char>, region: Seq<char>) -> ActionView {
    ActionView::Lossy(
        s3api("list-object-versions"@, bucket, region)
            .arg("--max-items"@).arg("500"@).arg("--query"@)
            .arg(
                "{Objects: [Versions, DeleteMarkers][][].{Key: Key, VersionId: VersionId}, Quiet: `true`}"@,
            )
            .arg("--output"@).arg("json"@),
    )
}

/// The deletion of a batch of objects.
pub open spec fn purges(bucket: Seq<char>, region: Seq<char>, batch: Seq<char>) -> ActionView {
    ActionView::Feed(
        s3api("delete-objects"@, bucket, region).arg("--delete"@).arg("fileb:///dev/stdin"@),
        batch,
    )
}

/// The deletion of a bucket.
pub open spec fn deletes_bucket(bucket: Seq<char>, region: Seq<char>) -> ActionView {
    ActionView::Quiet(s3api("delete-bucket"@, bucket, region))
}

/// Whether each batch that holds a key is purged as it was listed, right after its listing, and each
/// purge that succeeds is followed by the next listing.
pub open spec fn batches_are_purged(
    events: Seq<Event>,
    bucket: Seq<char>,
    region: Seq<char>,
) -> bool {
    &&& forall|i: int|
        0 <= i < events.len() ==> match #[trigger] events[i] {
            Event::Performed(a, reply) => a == lists_batch(bucket, region) && contains_spec(
                reply.stdout,
                "\"Key\""@,
            ) ==> i + 1 < events.len() && tried(is_action(purges(bucket, region, reply.stdout)))(
                events[i + 1],
            ),
            _ => true,
        }
    &&& forall|i: int|
        0 <= i < events.len() ==> match #[trigger] events[i] {
            Event::Performed(a, reply) => a is Feed && reply.ok ==> i + 1 < events.len() && tried(
                is_action(lists_batch(bucket, region)),
            )(events[i + 1]),
            _ => true,
        }
}

/// That a bucket is listed, emptied and deleted.
pub open spec fn bucket_emptied(bucket: Seq<char>, region: Seq<char>) -> spec_fn(
    Seq<Event>,
) -> bool {
    |events: Seq<Event>|
        {
            &&& performed(events, lists_batch(bucket, region))
            &&& batches_are_purged(events, bucket, region)
            &&& performed(events, deletes_bucket(bucket, region))
        }
}

proof fn purged_before(
    before: Event,
    events: Seq<Event>,
    bucket: Seq<char>,
    region: Seq<char>,
)
    requires
        batches_are_purged(events, bucket, region),
        match before {
            Event::Performed(a, reply) => {
                &&& a == lists_batch(bucket, region) && contains_spec(
                    reply.stdout,
                    "\"Key\""@,
                ) ==> events.len() > 0 && tried(is_action(purges(bucket, region, reply.stdout)))(
                    events[0],
                )
                &&& a is Feed && reply.ok ==> events.len() > 0 && tried(
                    is_action(lists_batch(bucket, region)),
                )(events[0])
            },
            _ => true,
        },
    ensures
        batches_are_purged(seq![before] + events, bucket, region),
{
    let all = seq![before] + events;
    assert forall|i: int| 0 < i < all.len() implies #[trigger] all[i] == events[i - 1] && (i + 1
        < all.len() ==> all[i + 1] == events[i]) by {}
    assert(all.len() > 1 ==> all[1] == events[0]);
}

proof fn happened_before(before: Event, events: Seq<Event>, first: spec_fn(Event) -> bool)
    requires
        happened(events, first) || first(before),
    ensures
        happened(seq![before] + events, first),
{
    let all = seq![before] + events;
    assert(all[0] == before);
    if happened(events, first) {
        let k = choose|k: int| 0 <= k < events.len() && first(#[trigger] events[k]);
        assert(all[k + 1] == events[k]);
    }
}

proof fn end_run(cfg: Config, bucket: Seq<char>, region: Seq<char>, replies: Seq<ReplyView>)
    ensures
        ({
            let r = run(cfg, sweep::delete_bucket_spec(bucket, region).steps, replies);
            r.left is Some ==> batches_are_purged(r.events, bucket, region) && performed(
                r.events,
                deletes_bucket(bucket, region),
            )
        }),
{
    reveal_with_fuel(run, 4);
    let s = sweep::delete_bucket_spec(bucket, region);
    let r = run(cfg, s.steps, replies);
    if r.left is Some {
        assert(s.steps.len() == 2);
        assert(s.steps.skip(1)[0] == s.steps[1]);
        assert(tried(is_action(deletes_bucket(bucket, region)))(r.events[1]));
        assert(forall|i: int|
            0 <= i < r.events.len() ==> match #[trigger] r.events[i] {
                Event::Performed(a, _) => a is Quiet,
                _ => true,
            });
    }
}

proof fn batch_run(cfg: Config, bucket: Seq<char>, region: Seq<char>, replies: Seq<ReplyView>)
    ensures
        ({
            let q = QuestionView::Sweep(SweepQuestionView::BucketBatch { bucket, region });
            let r = run(cfg, seq![StepView::Ask(q)], replies);
            r.left is Some ==> bucket_emptied(bucket, region)(r.events) && tried(
                is_action(lists_batch(bucket, region)),
            )(r.events[0])
        }),
    decreases replies.len(),
{
    let q = QuestionView::Sweep(SweepQuestionView::BucketBatch { bucket, region });
    let one = seq![StepView::Ask(q)];
    let r = run(cfg, one, replies);
    if r.left is Some {
        let deleted = tried(is_action(deletes_bucket(bucket, region)));
        let listed = Event::Performed(lists_batch(bucket, region), replies[0]);
        let s = question::answer_spec(cfg, q, replies[0]);
        assert(s.steps + one.skip(1) =~= s.steps);
        let rest = run(cfg, s.steps, replies.skip(1));
        assert(r.events == seq![listed] + rest.events);
        assert(r.events[0] == listed);
        if contains_spec(replies[0].stdout, "\"Key\""@) {
            let batch = replies[0].stdout;
            let p = QuestionView::Sweep(SweepQuestionView::BucketPurge { bucket, region, batch });
            let left = replies.skip(1);
            assert(s.steps =~= seq![StepView::Ask(p)]);
            let t = question::answer_spec(cfg, p, left[0]);
            assert(t.steps + s.steps.skip(1) =~= t.steps);
            let end = run(cfg, t.steps, left.skip(1));
            let purged = Event::Performed(purges(bucket, region, batch), left[0]);
            assert(rest.events == seq![purged] + end.events);
            assert(rest.events[0] == purged);
            if left[0].ok {
                assert(t.steps =~= one);
                batch_run(cfg, bucket, region, left.skip(1));
            } else {
                let d = sweep::delete_bucket_spec(bucket, region);
                let told = Event::Reported("!   Failed to purge objects from "@ + bucket);
                assert(t.steps.skip(1) =~= d.steps);
                end_run(cfg, bucket, region, left.skip(1));
                let last = run(cfg, d.steps, left.skip(1));
                assert(end.events == seq![told] + last.events);
                purged_before(told, last.events, bucket, region);
                happened_before(told, last.events, deleted);
            }
            purged_before(purged, end.events, bucket, region);
            happened_before(purged, end.events, deleted);
        } else {
            end_run(cfg, bucket, region, replies.skip(1));
        }
        purged_before(listed, rest.events, bucket, region);
        happened_before(listed, rest.events, deleted);
        happened_before(
            listed,
            rest.events,
            tried(is_action(lists_batch(bucket, region))),
        );
    }
}

/// That a bucket that is there is emptied and deleted.
pub open spec fn bucket_goes(bucket: Seq<char>, region: Seq<char>) -> spec_fn(Seq<Event>) -> bool {
    answered(
        ActionView::Quiet(s3api("head-bucket"@, bucket, region)),
        if_there(bucket_emptied(bucket, region)),
    )
}

/// A bucket that is there is emptied and deleted: batches are listed until one holds no key or a
/// purge fails, each batch that holds a key is purged as it was listed, and in the end the bucket is
/// deleted.
pub proof fn law_existing_buckets_are_emptied(cfg: Config, bucket: Seq<char>, region: Seq<char>)
    ensures
        finishes(cfg, cleanup_s3_bucket_spec(bucket, region), bucket_goes(bucket, region)),
{
    let q = SweepQuestionView::BucketGate { bucket, region };
    let kind = bucket_emptied(bucket, region);
    assert forall|reply: ReplyView| reply.ok implies finishes(
        cfg,
        #[trigger] sweep::answer_spec(cfg, q, reply),
        kind,
    ) by {
        let s = sweep::answer_spec(cfg, q, reply);
        let b = QuestionView::Sweep(SweepQuestionView::BucketBatch { bucket, region });
        let line = ">>>   Emptying S3 bucket: "@ + bucket + " (all versions and delete markers)"@;
        assert forall|replies: Seq<ReplyView>|
            (#[trigger] run(cfg, s.steps, replies)).left is Some implies kind(
            run(cfg, s.steps, replies).events,
        ) by {
            assert(s.steps[0] == StepView::Say(line));
            assert(s.steps.skip(1) =~= seq![StepView::Ask(b)]);
            batch_run(cfg, bucket, region, replies);
            let r = run(cfg, s.steps.skip(1), replies);
            let said = Event::Said(line);
            assert(run(cfg, s.steps, replies).events == seq![said] + r.events);
            purged_before(said, r.events, bucket, region);
            happened_before(said, r.events, tried(is_action(deletes_bucket(bucket, region))));
            happened_before(said, r.events, tried(is_action(lists_batch(bucket, region))));
        }
    }
    gate_is_done(cfg, q, kind);
}

/// That the bucket of a target goes, where the account is known: its name is the pattern with the
/// account and the cluster put in.
pub open spec fn bucket_of_goes(pattern: Seq<char>, target: AwsSweepTargetView) -> spec_fn(
    ReplyView,
    Seq<Event>,
) -> bool {
    |reply: ReplyView, events: Seq<Event>|
        trim_spec(reply.stdout).len() > 0 ==> has_stretch(
            events,
            bucket_goes(
                replace_spec(
                    replace_spec(pattern, "{account_id}"@, trim_spec(reply.stdout)),
                    "{cluster_name}"@,
                    target.cluster_name,
                ),
                target.region,
            ),
        )
}

/// The query for the account.
pub open spec fn asks_account() -> ActionView {
    ActionView::Lossy(
        command("aws"@)
            .arg("sts"@).arg("get-caller-identity"@).arg("--query"@).arg("Account"@)
            .arg("--output"@).arg("text"@),
    )
}

/// For every target and every sweep that comes to its end: the account is asked for, and where it is
/// known, the data bucket of the target in that account is emptied and deleted where it is there.
pub proof fn law_buckets_of_targets_are_emptied(
    cfg: Config,
    target: AwsSweepTargetView,
    replies: Seq<ReplyView>,
)
    requires
        aws_sweep_targets_spec(*cfg.environment).contains(target),
        cfg.repo.teardown.s3_bucket_pattern is Some,
        run(cfg, sweep_spec(cfg).steps, replies).left is Some,
    ensures
        has_stretch(
            run(cfg, sweep_spec(cfg).steps, replies).events,
            answered(
                asks_account(),
                bucket_of_goes(cfg.repo.teardown.s3_bucket_pattern->0@, target),
            ),
        ),
{
    broadcast use group_holds;

    let pattern = cfg.repo.teardown.s3_bucket_pattern->0@;
    let q = QuestionView::Sweep(SweepQuestionView::Account);
    let rest = bucket_of_goes(pattern, target);
    let targets = aws_sweep_targets_spec(*cfg.environment);
    assert forall|reply: ReplyView|
        finishes(
            cfg,
            #[trigger] question::answer_spec(cfg, q, reply),
            |events: Seq<Event>| rest(reply, events),
        ) by {
        let s = question::answer_spec(cfg, q, reply);
        let account = trim_spec(reply.stdout);
        if account.len() > 0 {
            let one = |t: AwsSweepTargetView| sweep::sweep_bucket_spec(t, pattern, account);
            let bucket = replace_spec(
                replace_spec(pattern, "{account_id}"@, account),
                "{cluster_name}"@,
                target.cluster_name,
            );
            let kind = bucket_goes(bucket, target.region);
            law_existing_buckets_are_emptied(cfg, bucket, target.region);
            holds_whole(cfg, one(target), kind);
            holds_each_target(cfg, targets, one, kind, target);
            assert(holds(cfg, s, kind));
        }
    }
    question_is_answered(cfg, q, rest);
    assert(holds(cfg, sweep_spec(cfg), answered(asks_account(), rest)));
}

} // verus!
