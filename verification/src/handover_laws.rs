//! What holds of every pivot once the inventory is moved: what was moved is taken up on the
//! management cluster before the kind cluster goes.
use vstd::prelude::*;

use crate::bootstrap;
use crate::bootstrap::BootstrapQuestionView;
use crate::config::MoveFallback;
use crate::context::PreflightView;
use crate::duties::{
    does, does_concat, done, duty, duty_is_done, duty_is_lasting, dutiful, dutiful_leads, lasting,
    leads, leads_concat, leads_question, leads_question_and, led, next, next_after_line,
    next_is_asked, next_is_lasting, tried, tried_is_performed, tries,
};
use crate::engine::EngineQuestionView;
use crate::json::{json_text, JsonTree};
use crate::move_laws::{
    answers_move_nothing, preparation, preparation_prepares, preparing, unmoved,
};
use crate::pivot;
use crate::pivot::PivotQuestionView;
use crate::question;
use crate::question::QuestionView;
use crate::rerun_laws::{
    actions_create_nothing, lemma_other_words, moves_inventory,
};
use crate::runs::{
    all_of, all_of_join, group_all_of, group_guarded, group_some_of, guarded, owed_brings, owes,
    run, some_of, some_of_each, supplies, tame, tame_guards, Event,
};
use crate::script::{command, ActionView, CommandView, ReplyView, RuleView, ScriptView, StepView};
use crate::settings::Config;
use crate::text::entries_spec;

verus! {

// ---------------------------------------------------------------------------------------------
// Actions
// ---------------------------------------------------------------------------------------------
/// kubectl on the management cluster.
pub open spec fn target_kubectl(cfg: Config) -> CommandView {
    command("kubectl"@).arg("--kubeconfig"@).arg(cfg.mgmt_kubeconfig@)
}

/// Deletes the kind cluster.
pub open spec fn deletes_kind(action: ActionView) -> bool {
    match action.command() {
        Some(c) => c.program == "kind"@ && c.args.len() > 0 && c.args[0] == "delete"@,
        None => false,
    }
}

/// Lists the Clusters on the management cluster.
pub open spec fn lists_clusters(cfg: Config) -> ActionView {
    ActionView::Lossy(
        target_kubectl(cfg)
            .arg("get"@).arg("clusters"@).arg("-n"@).arg(cfg.repo.bootstrap.mgmt_namespace@)
            .arg("-o"@).arg("name"@),
    )
}

/// Unpauses one Cluster on the management cluster.
pub open spec fn unpauses(cfg: Config, name: Seq<char>) -> ActionView {
    ActionView::Quiet(
        target_kubectl(cfg)
            .arg("patch"@).arg(name).arg("-n"@).arg(cfg.repo.bootstrap.mgmt_namespace@)
            .arg("--type"@).arg("merge"@).arg("-p"@)
            .arg(
                json_text(
                    JsonTree::object().with(
                        "spec"@,
                        JsonTree::object().with("paused"@, JsonTree::Bool(false)),
                    ),
                ),
            ),
    )
}

/// That the inventory is moved with success.
pub open spec fn moved() -> spec_fn(Event) -> bool {
    done(|a: ActionView| moves_inventory(a))
}

/// That the Clusters on the management cluster are listed.
pub open spec fn listed(cfg: Config) -> spec_fn(Event) -> bool {
    tried(|a: ActionView| a == lists_clusters(cfg))
}

/// What should be once a listing of the Clusters on the management cluster shows one: it is unpaused
/// before the kind cluster goes, and in any case before the end.
pub open spec fn taken_up(cfg: Config, name: Seq<char>) -> spec_fn(Event, Seq<Event>, bool) -> bool {
    |e: Event, events: Seq<Event>, end: bool|
        match e {
            Event::Performed(_, reply) => entries_spec(reply.stdout).contains(name) ==> duty(
                tried(|a: ActionView| a == unpauses(cfg, name)),
                |a: ActionView| deletes_kind(a),
            )(events, end),
            _ => true,
        }
}

// ---------------------------------------------------------------------------------------------
// From the first step of a bootstrap to the move
// ---------------------------------------------------------------------------------------------
/// The steps that follow the move where the inventory is moved.
pub open spec fn after_move_steps(cfg: Config) -> ScriptView {
    ScriptView { steps: pivot::pivot_suspend_and_move_spec(cfg).steps.skip(4) }
}

/// The steps that follow the move.
pub open spec fn remainder(cfg: Config, preflight: PreflightView, registry_config: Seq<char>) -> ScriptView {
    after_move_steps(cfg)
        .join(pivot::pivot_seed_target_spec(cfg, preflight, registry_config))
        .join(pivot::pivot_delete_bootstrap_cluster_spec(cfg))
}

/// A step that follows the move: the inventory is not moved again.
spec fn settling(step: StepView) -> bool {
    match step {
        StepView::Do(action, _) => !moves_inventory(action),
        StepView::Ask(q) => match q {
            QuestionView::Pivot(PivotQuestionView::MovedClusters) => true,
            QuestionView::Pivot(PivotQuestionView::Fallback { .. }) => true,
            QuestionView::Pivot(PivotQuestionView::TargetClusters) => true,
            QuestionView::Pivot(PivotQuestionView::FinalRegistry) => true,
            QuestionView::Pivot(PivotQuestionView::MgmtContext) => true,
            QuestionView::Bootstrap(BootstrapQuestionView::ControllersReady { resume, .. }) => {
                resume is None
            },
            QuestionView::Engine(EngineQuestionView::ToolboxId { joining, .. }) => !joining,
            _ => false,
        },
        _ => true,
    }
}

/// A step that follows the move and does not delete the kind cluster.
spec fn seeding(step: StepView) -> bool {
    match step {
        StepView::Do(action, _) => !deletes_kind(action) && !moves_inventory(action),
        StepView::Ask(QuestionView::Pivot(q)) => q is MovedClusters || q is Fallback,
        StepView::Ask(QuestionView::Bootstrap(_)) => settling(step),
        StepView::Ask(_) => false,
        _ => true,
    }
}

proof fn lemma_kind_words()
    ensures
        "kubectl"@ != "kind"@,
        "helm"@ != "kind"@,
        "mise"@ != "kind"@,
        "clusterctl"@ != "kind"@,
{
    reveal_strlit("kubectl");
    reveal_strlit("kind");
    reveal_strlit("helm");
    reveal_strlit("mise");
    reveal_strlit("clusterctl");
    assert("kubectl"@[1] == 'u' && "kind"@[1] == 'i' && "helm"@[1] == 'e' && "mise"@[0] == 'm'
        && "kind"@[0] == 'k' && "clusterctl"@[0] == 'c');
}

proof fn settling_answers(cfg: Config, q: QuestionView, reply: ReplyView)
    requires
        settling(StepView::Ask(q)),
    ensures
        !moves_inventory(question::action_spec(cfg, q)),
        all_of(question::answer_spec(cfg, q, reply), |step: StepView| settling(step)),
{
    broadcast use group_all_of;

    lemma_other_words();
}

proof fn settling_leads(cfg: Config, s: ScriptView, rest: spec_fn(Seq<Event>, bool) -> bool)
    requires
        lasting(rest),
        all_of(s, |step: StepView| settling(step)),
    ensures
        leads(cfg, s.steps, moved(), rest),
{
    let kind = |step: StepView| settling(step);
    assert(dutiful(cfg, kind, moved(), rest)) by {
        assert forall|q: QuestionView| (#[trigger] kind(StepView::Ask(q))) implies {
            ||| leads(cfg, seq![StepView::Ask(q)], moved(), rest)
            ||| forall|reply: ReplyView|
                !moved()(Event::Performed(question::action_spec(cfg, q), reply)) && all_of(
                    #[trigger] question::answer_spec(cfg, q, reply),
                    kind,
                )
        } by {
            assert forall|reply: ReplyView|
                !moved()(Event::Performed(question::action_spec(cfg, q), reply)) && all_of(
                    #[trigger] question::answer_spec(cfg, q, reply),
                    kind,
                ) by {
                settling_answers(cfg, q, reply);
            }
        }
    }
    dutiful_leads(cfg, kind, moved(), rest, s.steps);
}

proof fn preparing_leads(cfg: Config, s: ScriptView, rest: spec_fn(Seq<Event>, bool) -> bool)
    requires
        lasting(rest),
        all_of(s, |step: StepView| preparing(step)),
    ensures
        leads(cfg, s.steps, moved(), rest),
{
    let kind = |step: StepView| preparing(step);
    lemma_other_words();
    assert(dutiful(cfg, kind, moved(), rest)) by {
        assert forall|q: QuestionView| (#[trigger] kind(StepView::Ask(q))) implies {
            ||| leads(cfg, seq![StepView::Ask(q)], moved(), rest)
            ||| forall|reply: ReplyView|
                !moved()(Event::Performed(question::action_spec(cfg, q), reply)) && all_of(
                    #[trigger] question::answer_spec(cfg, q, reply),
                    kind,
                )
        } by {
            assert forall|reply: ReplyView|
                !moved()(Event::Performed(question::action_spec(cfg, q), reply)) && all_of(
                    #[trigger] question::answer_spec(cfg, q, reply),
                    kind,
                ) by {
                broadcast use group_all_of;

            }
        }
    }
    dutiful_leads(cfg, kind, moved(), rest, s.steps);
}

proof fn fallbacks_seed(items: Seq<MoveFallback>)
    ensures
        all_of(pivot::fallbacks_spec(items), |step: StepView| seeding(step)),
    decreases items.len(),
{
    broadcast use group_all_of;

    if items.len() > 0 {
        fallbacks_seed(items.drop_last());
    }
}

#[verifier::rlimit(40)]
#[verifier::spinoff_prover]
proof fn after_move_seeds(cfg: Config)
    ensures
        all_of(after_move_steps(cfg), |step: StepView| seeding(step)),
{
    let kind = |step: StepView| seeding(step);
    lemma_other_words();
    lemma_kind_words();
    fallbacks_seed(cfg.environment.move_fallbacks@);
    let all = pivot::pivot_suspend_and_move_spec(cfg).steps;
    let tail = pivot::fallbacks_spec(cfg.environment.move_fallbacks@).steps;
    assert forall|i: int| 0 <= i < after_move_steps(cfg).steps.len() implies kind(
        #[trigger] after_move_steps(cfg).steps[i],
    ) by {
        assert(after_move_steps(cfg).steps[i] == all[i + 4]);
        if i >= 4 {
            assert(all[i + 4] == tail[i - 4]);
            assert(kind(tail[i - 4]));
        }
    }
}

#[verifier::rlimit(80)]
#[verifier::spinoff_prover]
proof fn target_seeds(cfg: Config, preflight: PreflightView, registry_config: Seq<char>)
    ensures
        all_of(
            pivot::pivot_seed_target_spec(cfg, preflight, registry_config),
            |step: StepView| seeding(step),
        ),
{
    broadcast use group_all_of;

    lemma_other_words();
    lemma_kind_words();
}

proof fn seeds(cfg: Config, preflight: PreflightView, registry_config: Seq<char>)
    ensures
        all_of(
            after_move_steps(cfg).join(
                pivot::pivot_seed_target_spec(cfg, preflight, registry_config),
            ),
            |step: StepView| seeding(step),
        ),
{
    after_move_seeds(cfg);
    target_seeds(cfg, preflight, registry_config);
    all_of_join(
        after_move_steps(cfg),
        pivot::pivot_seed_target_spec(cfg, preflight, registry_config),
        |step: StepView| seeding(step),
    );
}

proof fn remainder_settles(cfg: Config, preflight: PreflightView, registry_config: Seq<char>)
    ensures
        all_of(remainder(cfg, preflight, registry_config), |step: StepView| settling(step)),
{
    broadcast use group_all_of;

    let kind = |step: StepView| settling(step);
    let start = after_move_steps(cfg).join(
        pivot::pivot_seed_target_spec(cfg, preflight, registry_config),
    );
    seeds(cfg, preflight, registry_config);
    assert(all_of(start, kind)) by {
        assert forall|i: int| 0 <= i < start.steps.len() implies kind(#[trigger] start.steps[i]) by {
            assert((|step: StepView| seeding(step))(start.steps[i]));
        }
    }
    lemma_other_words();
    assert(all_of(pivot::pivot_delete_bootstrap_cluster_spec(cfg), kind));
}

#[verifier::rlimit(40)]
#[verifier::spinoff_prover]
proof fn preparation_leads(
    cfg: Config,
    preflight: PreflightView,
    rest: spec_fn(Seq<Event>, bool) -> bool,
)
    requires
        lasting(rest),
        forall|registry_config: Seq<char>|
            does(cfg, (#[trigger] remainder(cfg, preflight, registry_config)).steps, rest),
    ensures
        leads(cfg, seq![StepView::Ask(preparation(preflight))], moved(), rest),
{
    let q = preparation(preflight);
    let asked = QuestionView::Pivot(PivotQuestionView::Move);
    lemma_other_words();
    assert forall|reply: ReplyView|
        leads(cfg, (#[trigger] question::answer_spec(cfg, q, reply)).steps, moved(), rest) by {
        let answer = question::answer_spec(cfg, q, reply);
        if reply.ok {
            let installed = pivot::pivot_install_capi_in_target_spec(cfg, reply.stdout);
            let all = pivot::pivot_suspend_and_move_spec(cfg);
            let start = ScriptView { steps: all.steps.take(3) };
            let end = remainder(cfg, preflight, reply.stdout);
            preparation_prepares(cfg, reply.stdout);
            preparing_leads(cfg, installed, rest);
            assert(all_of(start, |step: StepView| preparing(step)));
            preparing_leads(cfg, start, rest);
            remainder_settles(cfg, preflight, reply.stdout);
            settling_leads(cfg, end, rest);
            assert forall|moving: ReplyView|
                leads(
                    cfg,
                    (#[trigger] question::answer_spec(cfg, asked, moving)).steps,
                    moved(),
                    rest,
                ) by {
                broadcast use group_all_of;

                preparing_leads(cfg, question::answer_spec(cfg, asked, moving), rest);
            }
            assert forall|moving: ReplyView|
                moved()(
                    Event::Performed(question::action_spec(cfg, asked), moving),
                ) implies does(
                cfg,
                (#[trigger] question::answer_spec(cfg, asked, moving)).steps + end.steps,
                rest,
            ) by {
                assert(question::answer_spec(cfg, asked, moving).steps + end.steps =~= end.steps);
            }
            leads_question_and(cfg, asked, end.steps, moved(), rest);
            leads_concat(cfg, installed.steps, start.steps, moved(), rest);
            leads_concat(
                cfg,
                installed.steps + start.steps,
                seq![StepView::Ask(asked)] + end.steps,
                moved(),
                rest,
            );
            assert(all.steps =~= start.steps + seq![StepView::Ask(asked)] + after_move_steps(
                cfg,
            ).steps);
            assert(answer.steps =~= installed.steps + start.steps + (seq![StepView::Ask(asked)]
                + end.steps));
        } else {
            broadcast use group_all_of;

            preparing_leads(cfg, answer, rest);
        }
    }
    actions_create_nothing(cfg, q);
    leads_question(cfg, q, moved(), rest);
}

/// What the steps after the move do follows each move of a bootstrap.
pub proof fn bootstrap_leads(cfg: Config, rest: spec_fn(Seq<Event>, bool) -> bool)
    requires
        lasting(rest),
        forall|preflight: PreflightView, registry_config: Seq<char>|
            does(cfg, (#[trigger] remainder(cfg, preflight, registry_config)).steps, rest),
    ensures
        leads(cfg, bootstrap::run_bootstrap_spec(cfg).steps, moved(), rest),
{
    let kind = |step: StepView| unmoved(step);
    assert(dutiful(cfg, kind, moved(), rest)) by {
        assert forall|q: QuestionView| (#[trigger] kind(StepView::Ask(q))) implies {
            ||| leads(cfg, seq![StepView::Ask(q)], moved(), rest)
            ||| forall|reply: ReplyView|
                !moved()(Event::Performed(question::action_spec(cfg, q), reply)) && all_of(
                    #[trigger] question::answer_spec(cfg, q, reply),
                    kind,
                )
        } by {
            match q {
                QuestionView::Pivot(PivotQuestionView::PivotRegistryConfig { preflight }) => {
                    assert(q == preparation(preflight));
                    preparation_leads(cfg, preflight, rest);
                },
                _ => {
                    actions_create_nothing(cfg, q);
                    assert forall|reply: ReplyView|
                        !moved()(Event::Performed(question::action_spec(cfg, q), reply)) && all_of(
                            #[trigger] question::answer_spec(cfg, q, reply),
                            kind,
                        ) by {
                        answers_move_nothing(cfg, q, reply);
                    }
                },
            }
        }
    }
    lemma_other_words();
    let s = bootstrap::run_bootstrap_spec(cfg);
    assert(all_of(s, kind)) by {
        broadcast use group_all_of;

    }
    dutiful_leads(cfg, kind, moved(), rest, s.steps);
}

// ---------------------------------------------------------------------------------------------
// The laws
// ---------------------------------------------------------------------------------------------
/// Every Cluster that was moved is unpaused: once the inventory has been moved with success, the
/// Clusters on the management cluster are listed, and each that the listing shows is patched there
/// with `{"spec":{"paused":false}}`, before the kind cluster is deleted and before the run ends.
pub proof fn law_moved_clusters_are_unpaused(
    cfg: Config,
    name: Seq<char>,
    replies: Seq<ReplyView>,
)
    ensures
        led(
            run(cfg, bootstrap::run_bootstrap_spec(cfg).steps, replies),
            moved(),
            next(listed(cfg), |a: ActionView| deletes_kind(a), taken_up(cfg, name)),
        ),
{
    let mark = listed(cfg);
    let stop = |a: ActionView| deletes_kind(a);
    let follow = taken_up(cfg, name);
    let rest = next(mark, stop, follow);
    let unpaused = |a: ActionView| a == unpauses(cfg, name);
    let q = QuestionView::Pivot(PivotQuestionView::MovedClusters);
    let action = question::action_spec(cfg, q);
    assert forall|e: Event, a: Seq<Event>, b: Seq<Event>, end: bool|
        #![trigger follow(e, a + b, end)]
        follow(e, a, true) implies follow(e, a + b, end) by {
        duty_is_lasting(tried(unpaused), stop);
        if duty(tried(unpaused), stop)(a, true) {
            assert(duty(tried(unpaused), stop)(a + b, end));
        }
    }
    next_is_lasting(mark, stop, follow);
    lemma_kind_words();
    assert forall|reply: ReplyView|
        #![trigger question::answer_spec(cfg, q, reply)]
        mark(Event::Performed(action, reply)) && does(
            cfg,
            question::answer_spec(cfg, q, reply).steps,
            |events: Seq<Event>, end: bool| follow(Event::Performed(action, reply), events, end),
        ) by {
        let found = entries_spec(reply.stdout);
        let s = question::answer_spec(cfg, q, reply);
        if found.contains(name) {
            let i = choose|i: int| 0 <= i < found.len() && found[i] == name;
            let one = |item: Seq<char>| pivot::unpause_cluster_spec(item, cfg);
            let kind = tries(unpaused);
            assert(some_of(s, kind)) by {
                broadcast use group_some_of;

                assert(some_of(one(found[i]), kind));
                some_of_each(found, one, kind, i);
            }
            tried_is_performed(cfg, s, unpaused);
            seeding_answers(cfg, q, reply);
            seeding_is_guarded(cfg, s, tried(unpaused));
            duty_is_done(cfg, s.steps, tried(unpaused), stop);
            assert forall|later: Seq<ReplyView>|
                follow(
                    Event::Performed(action, reply),
                    (#[trigger] run(cfg, s.steps, later)).events,
                    run(cfg, s.steps, later).left is Some,
                ) by {
                assert(duty(tried(unpaused), stop)(
                    run(cfg, s.steps, later).events,
                    run(cfg, s.steps, later).left is Some,
                ));
            }
        }
    }
    next_is_asked(cfg, q, mark, stop, follow);
    let say = ">>> Unpausing moved Clusters on the target..."@;
    next_after_line(cfg, say, seq![StepView::Ask(q)], mark, stop, follow);
    assert forall|preflight: PreflightView, registry_config: Seq<char>|
        does(cfg, (#[trigger] remainder(cfg, preflight, registry_config)).steps, rest) by {
        let all = remainder(cfg, preflight, registry_config).steps;
        let start = seq![StepView::Say(say)] + seq![StepView::Ask(q)];
        does_concat(cfg, start, all.skip(2), rest);
        assert(all =~= start + all.skip(2));
    }
    bootstrap_leads(cfg, rest);
}

proof fn seeding_is_guarded(cfg: Config, s: ScriptView, first: spec_fn(Event) -> bool)
    requires
        all_of(s, |step: StepView| seeding(step)),
    ensures
        guarded(cfg, s, first, |a: ActionView| deletes_kind(a)),
{
    let kind = |step: StepView| seeding(step);
    let stop = |a: ActionView| deletes_kind(a);
    assert(tame(cfg, kind, first, stop)) by {
        assert forall|q: QuestionView| (#[trigger] kind(StepView::Ask(q))) implies !stop(
            question::action_spec(cfg, q),
        ) && forall|reply: ReplyView|
            all_of(#[trigger] question::answer_spec(cfg, q, reply), kind) by {
            let some: ReplyView = arbitrary();
            seeding_answers(cfg, q, some);
            assert forall|reply: ReplyView|
                all_of(#[trigger] question::answer_spec(cfg, q, reply), kind) by {
                seeding_answers(cfg, q, reply);
            }
        }
    }
    tame_guards(cfg, kind, first, stop, s.steps);
}

proof fn seeding_answers(cfg: Config, q: QuestionView, reply: ReplyView)
    requires
        seeding(StepView::Ask(q)),
    ensures
        !deletes_kind(question::action_spec(cfg, q)),
        all_of(question::answer_spec(cfg, q, reply), |step: StepView| seeding(step)),
{
    broadcast use group_all_of;

    lemma_other_words();
    lemma_kind_words();
}

// ---------------------------------------------------------------------------------------------
// From the first step of a pivot to the move
// ---------------------------------------------------------------------------------------------
/// A step of a pivot before the preparation of the target.
spec fn arriving(step: StepView) -> bool {
    match step {
        StepView::Do(action, _) => !moves_inventory(action),
        StepView::Ask(QuestionView::Pivot(q)) => match q {
            PivotQuestionView::PivotContext => true,
            PivotQuestionView::PivotCluster => true,
            PivotQuestionView::PivotRegistry => true,
            PivotQuestionView::MgmtSecret { .. } => true,
            PivotQuestionView::MgmtKubeconfig { .. } => true,
            PivotQuestionView::MgmtPort { .. } => true,
            PivotQuestionView::MgmtCurrent => true,
            _ => false,
        },
        StepView::Ask(_) => false,
        _ => true,
    }
}

proof fn arriving_answers(cfg: Config, q: QuestionView, reply: ReplyView)
    requires
        arriving(StepView::Ask(q)),
    ensures
        !moves_inventory(question::action_spec(cfg, q)),
        all_of(question::answer_spec(cfg, q, reply), |step: StepView| arriving(step)),
{
    broadcast use group_all_of;

    lemma_other_words();
}

/// The steps of a pivot before the preparation of the target.
pub open spec fn arrival(cfg: Config, preflight: PreflightView) -> ScriptView {
    ScriptView { steps: pivot::run_pivot_spec(cfg, preflight).steps.drop_last() }
}

proof fn arrival_arrives(cfg: Config, preflight: PreflightView)
    ensures
        all_of(arrival(cfg, preflight), |step: StepView| arriving(step)),
        pivot::run_pivot_spec(cfg, preflight) == arrival(cfg, preflight).ask(
            preparation(preflight),
        ),
{
    let kind = |step: StepView| arriving(step);
    lemma_other_words();
    let whole = ScriptView::new().ask(QuestionView::Pivot(PivotQuestionView::PivotContext)).ask(
        QuestionView::Pivot(PivotQuestionView::PivotCluster),
    ).join(
        if cfg.is_local_spec() {
            ScriptView::new().ask(QuestionView::Pivot(PivotQuestionView::PivotRegistry))
        } else {
            ScriptView::new()
        },
    ).join(pivot::pivot_wait_for_management_cluster_spec(cfg)).join(
        pivot::pivot_export_kubeconfig_spec(cfg, preflight.engine),
    );
    assert(whole.ask(preparation(preflight)) == pivot::run_pivot_spec(cfg, preflight));
    assert(arrival(cfg, preflight).steps =~= whole.steps);
    assert(all_of(whole, kind)) by {
        broadcast use group_all_of;

    }
}

/// What the steps after the move do follows each move of a pivot.
pub proof fn pivot_leads(
    cfg: Config,
    preflight: PreflightView,
    rest: spec_fn(Seq<Event>, bool) -> bool,
)
    requires
        lasting(rest),
        forall|registry_config: Seq<char>|
            does(cfg, (#[trigger] remainder(cfg, preflight, registry_config)).steps, rest),
    ensures
        leads(cfg, pivot::run_pivot_spec(cfg, preflight).steps, moved(), rest),
{
    let kind = |step: StepView| arriving(step);
    arrival_arrives(cfg, preflight);
    assert(dutiful(cfg, kind, moved(), rest)) by {
        assert forall|q: QuestionView| (#[trigger] kind(StepView::Ask(q))) implies {
            ||| leads(cfg, seq![StepView::Ask(q)], moved(), rest)
            ||| forall|reply: ReplyView|
                !moved()(Event::Performed(question::action_spec(cfg, q), reply)) && all_of(
                    #[trigger] question::answer_spec(cfg, q, reply),
                    kind,
                )
        } by {
            assert forall|reply: ReplyView|
                !moved()(Event::Performed(question::action_spec(cfg, q), reply)) && all_of(
                    #[trigger] question::answer_spec(cfg, q, reply),
                    kind,
                ) by {
                arriving_answers(cfg, q, reply);
            }
        }
    }
    let start = arrival(cfg, preflight).steps;
    dutiful_leads(cfg, kind, moved(), rest, start);
    preparation_leads(cfg, preflight, rest);
    leads_concat(cfg, start, seq![StepView::Ask(preparation(preflight))], moved(), rest);
    assert(pivot::run_pivot_spec(cfg, preflight).steps =~= start + seq![
        StepView::Ask(preparation(preflight)),
    ]);
}

/// What the steps before the preparation of the target bring happens before the move of a pivot.
pub proof fn arrival_is_guarded(
    cfg: Config,
    preflight: PreflightView,
    first: spec_fn(Event) -> bool,
)
    requires
        supplies(cfg, arrival(cfg, preflight), first),
    ensures
        guarded(
            cfg,
            pivot::run_pivot_spec(cfg, preflight),
            first,
            |a: ActionView| moves_inventory(a),
        ),
{
    let kind = |step: StepView| arriving(step);
    let action = |a: ActionView| moves_inventory(a);
    arrival_arrives(cfg, preflight);
    assert(tame(cfg, kind, first, action)) by {
        assert forall|q: QuestionView| (#[trigger] kind(StepView::Ask(q))) implies !action(
            question::action_spec(cfg, q),
        ) && forall|reply: ReplyView|
            all_of(#[trigger] question::answer_spec(cfg, q, reply), kind) by {
            let some: ReplyView = arbitrary();
            arriving_answers(cfg, q, some);
            assert forall|reply: ReplyView|
                all_of(#[trigger] question::answer_spec(cfg, q, reply), kind) by {
                arriving_answers(cfg, q, reply);
            }
        }
    }
    tame_guards(cfg, kind, first, action, arrival(cfg, preflight).steps);
    broadcast use group_guarded;

    assert(guarded(cfg, arrival(cfg, preflight).ask(preparation(preflight)), first, action));
}

/// A duty that the steps after the move do, before the kind cluster goes.
pub proof fn handover_duty(
    cfg: Config,
    preflight: PreflightView,
    first: spec_fn(Event) -> bool,
)
    requires
        forall|registry_config: Seq<char>|
            supplies(
                cfg,
                (#[trigger] handover(cfg, preflight, registry_config)),
                first,
            ),
    ensures
        leads(
            cfg,
            pivot::run_pivot_spec(cfg, preflight).steps,
            moved(),
            duty(first, |a: ActionView| deletes_kind(a)),
        ),
{
    let stop = |a: ActionView| deletes_kind(a);
    let rest = duty(first, stop);
    duty_is_lasting(first, stop);
    assert forall|registry_config: Seq<char>|
        does(cfg, (#[trigger] remainder(cfg, preflight, registry_config)).steps, rest) by {
        let s = handover(cfg, preflight, registry_config);
        seeds(cfg, preflight, registry_config);
        seeding_is_guarded(cfg, s, first);
        duty_is_done(cfg, s.steps, first, stop);
        does_concat(cfg, s.steps, pivot::pivot_delete_bootstrap_cluster_spec(cfg).steps, rest);
    }
    pivot_leads(cfg, preflight, rest);
}

/// The steps that follow the move, up to the deletion of the kind cluster.
pub open spec fn handover(
    cfg: Config,
    preflight: PreflightView,
    registry_config: Seq<char>,
) -> ScriptView {
    after_move_steps(cfg).join(pivot::pivot_seed_target_spec(cfg, preflight, registry_config))
}

// ---------------------------------------------------------------------------------------------
// What the target gets after the move
// ---------------------------------------------------------------------------------------------
/// That an object that the move may miss is on the management cluster: it is found there, or its
/// manifest is applied there with success.
pub open spec fn is_there(cfg: Config, fallback: MoveFallback) -> spec_fn(Event) -> bool {
    done(
        |a: ActionView|
            {
                ||| a == ActionView::Quiet(
                    target_kubectl(cfg)
                        .arg("get"@).arg(fallback.resource@).arg(fallback.name@).arg("-n"@)
                        .arg(cfg.repo.bootstrap.mgmt_namespace@),
                )
                ||| a == ActionView::Run(
                    target_kubectl(cfg).arg("apply"@).arg("-f"@).arg(fallback.manifest@),
                )
            },
    )
}

proof fn fallback_is_asked(items: Seq<MoveFallback>, k: int, kind: spec_fn(StepView) -> bool)
    requires
        0 <= k < items.len(),
        kind(
            StepView::Ask(
                QuestionView::Pivot(
                    PivotQuestionView::Fallback {
                        resource: items[k].resource@,
                        name: items[k].name@,
                        manifest: items[k].manifest@,
                    },
                ),
            ),
        ),
    ensures
        some_of(pivot::fallbacks_spec(items), kind),
    decreases items.len(),
{
    broadcast use group_some_of;

    if k < items.len() - 1 {
        fallback_is_asked(items.drop_last(), k, kind);
    }
}

/// After the move, each object that the move may miss is found on the management cluster, or its
/// manifest is applied there with success, before the kind cluster is deleted and before the run
/// ends.
pub proof fn law_missing_objects_are_applied(
    cfg: Config,
    preflight: PreflightView,
    k: int,
    replies: Seq<ReplyView>,
)
    requires
        0 <= k < cfg.environment.move_fallbacks@.len(),
    ensures
        led(
            run(cfg, pivot::run_pivot_spec(cfg, preflight).steps, replies),
            moved(),
            duty(
                is_there(cfg, cfg.environment.move_fallbacks@[k]),
                |a: ActionView| deletes_kind(a),
            ),
        ),
{
    let items = cfg.environment.move_fallbacks@;
    let fallback = items[k];
    let first = is_there(cfg, fallback);
    let q = QuestionView::Pivot(
        PivotQuestionView::Fallback {
            resource: fallback.resource@,
            name: fallback.name@,
            manifest: fallback.manifest@,
        },
    );
    let applies = ActionView::Run(
        target_kubectl(cfg).arg("apply"@).arg("-f"@).arg(fallback.manifest@),
    );
    let kind = |step: StepView|
        step is Fail || step == StepView::Ask(q) || step == StepView::Do(
            applies,
            RuleView::Require,
        );
    assert(owes(cfg, kind, first)) by {
        broadcast use group_some_of;

    }
    assert forall|registry_config: Seq<char>|
        supplies(cfg, (#[trigger] handover(cfg, preflight, registry_config)), first) by {
        let s = handover(cfg, preflight, registry_config);
        fallback_is_asked(items, k, kind);
        let tail = pivot::fallbacks_spec(items).steps;
        let all = pivot::pivot_suspend_and_move_spec(cfg).steps;
        let i = choose|i: int| 0 <= i < tail.len() && kind(#[trigger] tail[i]);
        assert(after_move_steps(cfg).steps =~= all.skip(4));
        assert(all[i + 8] == tail[i]);
        assert(after_move_steps(cfg).steps[i + 4] == tail[i]);
        assert(s.steps[i + 4] == tail[i]);
        owed_brings(cfg, kind, first, s.steps);
    }
    handover_duty(cfg, preflight, first);
}

} // verus!
