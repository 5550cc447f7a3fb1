//! What holds of the bootstrap and its pivot as a whole: the kind cluster is deleted last.
use vstd::prelude::*;

use crate::bootstrap;
use crate::bootstrap::{registry_url_spec, BootstrapQuestionView};
use crate::context::PreflightView;
use crate::engine;
use crate::engine::EngineQuestionView;
use crate::pivot;
use crate::pivot::{pivot_suspend_and_move_spec, run_pivot_spec, PivotQuestionView};
use crate::preflight;
use crate::preflight::PreflightQuestionView;
use crate::question;
use crate::question::QuestionView;
use crate::runs::{
    all_of, all_steps, group_all_of, group_guarded, group_some_of, guarded, guarded_question,
    guards, happened, owed_brings, owes, performs, precedes, run, some_of, supplies, tame,
    tame_guards, Event,
};
use crate::script::{command, request, ActionView, ReplyView, ScriptView, StepView};
use crate::settings::Config;
use crate::teardown_laws::{deletes_kind, lemma_names};
use crate::text::entries_spec;

verus! {

proof fn lemma_more_names()
    ensures
        "clusterctl"@ != "kind"@,
        "mise"@ != "kind"@,
        "flux"@ != "kind"@,
        "sops"@ != "kind"@,
        "export"@ != "delete"@,
        "create"@ != "delete"@,
        "run"@ != "delete"@,
        "start"@ != "delete"@,
        "inspect"@ != "delete"@,
        "port"@ != "delete"@,
{
    reveal_strlit("kind");
    reveal_strlit("delete");
    reveal_strlit("clusterctl");
    reveal_strlit("mise");
    reveal_strlit("flux");
    reveal_strlit("sops");
    reveal_strlit("export");
    reveal_strlit("create");
    reveal_strlit("run");
    reveal_strlit("start");
    reveal_strlit("inspect");
    reveal_strlit("port");
    assert("kind"@[0] == 'k' && "delete"@.len() == 6 && "delete"@[0] == 'd');
    assert("clusterctl"@[0] == 'c' && "mise"@[0] == 'm' && "flux"@[0] == 'f' && "sops"@[0] == 's');
    assert("export"@[0] == 'e' && "create"@[0] == 'c' && "run"@.len() == 3);
    assert("start"@.len() == 5 && "inspect"@.len() == 7 && "port"@.len() == 4);
}

// ---------------------------------------------------------------------------------------------
// Before the kind cluster may go
// ---------------------------------------------------------------------------------------------
/// The questions of a bootstrap and its pivot that do not by themselves lead to the end of the kind
/// cluster.
pub open spec fn leads_on(q: QuestionView) -> bool {
    match q {
        QuestionView::Preflight(_) => true,
        QuestionView::Bootstrap(_) => true,
        QuestionView::Engine(q) => match q {
            EngineQuestionView::DockerInfo { seeker } => seeker is Preflight,
            EngineQuestionView::DockerVersion { seeker } => seeker is Preflight,
            EngineQuestionView::PodmanInfo { seeker } => seeker is Preflight,
            EngineQuestionView::NamedEngine { .. } => false,
            _ => true,
        },
        QuestionView::Pivot(q) => match q {
            PivotQuestionView::PivotRegistryConfig { .. } => false,
            PivotQuestionView::TargetClusters => false,
            _ => true,
        },
        _ => false,
    }
}

/// A step that neither deletes the kind cluster nor asks a question that may.
pub open spec fn plain(step: StepView) -> bool {
    match step {
        StepView::Do(action, _) => !deletes_kind(action),
        StepView::Ask(q) => leads_on(q),
        _ => true,
    }
}

/// A step before the inventory is moved; only a run that pivots asks for more than plain steps do.
pub open spec fn opening(cfg: Config, step: StepView) -> bool {
    ||| plain(step)
    ||| cfg.bootstrap_pivot && is_preparation(step)
}

/// Whether the step asks for what the preparation of the target needs.
pub open spec fn is_preparation(step: StepView) -> bool {
    match step {
        StepView::Ask(QuestionView::Pivot(q)) => q is PivotRegistryConfig,
        _ => false,
    }
}

/// A step once the target is being prepared; only a run that deletes asks for more than plain steps
/// do.
pub open spec fn finishing(cfg: Config, step: StepView) -> bool {
    ||| plain(step)
    ||| !cfg.pivot_skip_delete && step == StepView::Ask(
        QuestionView::Pivot(PivotQuestionView::TargetClusters),
    )
}

proof fn leading_actions(cfg: Config, q: QuestionView)
    requires
        leads_on(q),
    ensures
        !deletes_kind(question::action_spec(cfg, q)),
{
    lemma_names();
    lemma_more_names();
}

#[verifier::rlimit(60)]
proof fn leading_engine(cfg: Config, q: EngineQuestionView, reply: ReplyView)
    requires
        !cfg.recreate,
        leads_on(QuestionView::Engine(q)),
    ensures
        all_of(engine::answer_spec(cfg, q, reply), |step: StepView| opening(cfg, step)),
{
    broadcast use group_all_of;

    lemma_names();
    lemma_more_names();
}

#[verifier::rlimit(60)]
proof fn leading_preflight(cfg: Config, q: PreflightQuestionView, reply: ReplyView)
    requires
        !cfg.recreate,
    ensures
        all_of(preflight::answer_spec(cfg, q, reply), |step: StepView| opening(cfg, step)),
{
    broadcast use group_all_of;

    lemma_names();
    lemma_more_names();
}

proof fn leading_kind_clusters(cfg: Config, engine_sock: Seq<char>, reply: ReplyView)
    requires
        !cfg.recreate,
    ensures
        all_of(
            bootstrap::after_kind_clusters_spec(cfg, engine_sock, reply),
            |step: StepView| opening(cfg, step),
        ),
{
    broadcast use group_all_of;

    lemma_names();
    lemma_more_names();
}

proof fn leading_kind_context(cfg: Config, reply: ReplyView)
    requires
        !cfg.recreate,
    ensures
        all_of(bootstrap::after_kind_context_spec(cfg, reply), |step: StepView| opening(cfg, step)),
{
    broadcast use group_all_of;

    lemma_names();
    lemma_more_names();
}

proof fn leading_kind_export(cfg: Config, reply: ReplyView)
    requires
        !cfg.recreate,
    ensures
        all_of(bootstrap::after_kind_export_spec(cfg, reply), |step: StepView| opening(cfg, step)),
{
    broadcast use group_all_of;

    lemma_names();
    lemma_more_names();
}

proof fn leading_kind_health_context(cfg: Config, reply: ReplyView)
    requires
        !cfg.recreate,
    ensures
        all_of(
            bootstrap::after_kind_health_context_spec(cfg, reply),
            |step: StepView| opening(cfg, step),
        ),
{
    broadcast use group_all_of;

    lemma_names();
    lemma_more_names();
}

proof fn leading_kind_health_nodes(cfg: Config, reply: ReplyView)
    requires
        !cfg.recreate,
    ensures
        all_of(
            bootstrap::after_kind_health_nodes_spec(cfg, reply),
            |step: StepView| opening(cfg, step),
        ),
{
    broadcast use group_all_of;

    lemma_names();
    lemma_more_names();
}

proof fn leading_registry_listed(cfg: Config, engine: Seq<char>, reply: ReplyView)
    requires
        !cfg.recreate,
    ensures
        all_of(
            bootstrap::after_registry_listed_spec(cfg, engine, reply),
            |step: StepView| opening(cfg, step),
        ),
{
    broadcast use group_all_of;

    lemma_names();
    lemma_more_names();
}

proof fn leading_registry_port(cfg: Config, engine: Seq<char>, reply: ReplyView)
    requires
        !cfg.recreate,
    ensures
        all_of(
            bootstrap::after_registry_port_spec(cfg, engine, reply),
            |step: StepView| opening(cfg, step),
        ),
{
    broadcast use group_all_of;

    lemma_names();
    lemma_more_names();
}

proof fn leading_registry_network(
    cfg: Config,
    engine: Seq<char>,
    port_matches: bool,
    reply: ReplyView,
)
    requires
        !cfg.recreate,
    ensures
        all_of(
            bootstrap::after_registry_network_spec(cfg, engine, port_matches, reply),
            |step: StepView| opening(cfg, step),
        ),
{
    broadcast use group_all_of;

    lemma_names();
    lemma_more_names();
}

proof fn leading_registry_running(cfg: Config, engine: Seq<char>, reply: ReplyView)
    requires
        !cfg.recreate,
    ensures
        all_of(
            bootstrap::after_registry_running_spec(cfg, engine, reply),
            |step: StepView| opening(cfg, step),
        ),
{
    broadcast use group_all_of;

    lemma_names();
    lemma_more_names();
}

proof fn leading_registry_probe(cfg: Config, attempt: u32, reply: ReplyView)
    requires
        !cfg.recreate,
    ensures
        all_of(
            bootstrap::after_registry_probe_spec(cfg, attempt, reply),
            |step: StepView| opening(cfg, step),
        ),
{
    broadcast use group_all_of;

    lemma_names();
    lemma_more_names();
}

proof fn leading_registry_config(cfg: Config, preflight: PreflightView, reply: ReplyView)
    requires
        !cfg.recreate,
    ensures
        all_of(
            bootstrap::after_registry_config_spec(cfg, preflight, reply),
            |step: StepView| opening(cfg, step),
        ),
{
    broadcast use group_all_of;

    lemma_names();
    lemma_more_names();
}

proof fn opening_pivot(cfg: Config, preflight: PreflightView)
    requires
        cfg.bootstrap_pivot,
    ensures
        all_of(run_pivot_spec(cfg, preflight), |step: StepView| opening(cfg, step)),
{
    broadcast use group_all_of;

    lemma_names();
    lemma_more_names();
}

proof fn opening_watch(cfg: Config, engine: Seq<char>)
    ensures
        all_of(
            bootstrap::watch_local_reconciliation_spec(cfg, engine),
            |step: StepView| opening(cfg, step),
        ),
{
    broadcast use group_all_of;

}

proof fn opening_completion(cfg: Config, preflight: PreflightView)
    ensures
        all_of(bootstrap::completion_spec(cfg, preflight), |step: StepView| opening(cfg, step)),
{
    broadcast use group_all_of;

}

proof fn opening_finish(cfg: Config, preflight: PreflightView, ready: bool)
    ensures
        all_of(
            bootstrap::finish_bootstrap_spec(cfg, preflight, ready),
            |step: StepView| opening(cfg, step),
        ),
{
    broadcast use group_all_of;

    opening_watch(cfg, preflight.engine);
    opening_completion(cfg, preflight);
    if cfg.bootstrap_pivot {
        opening_pivot(cfg, preflight);
    }
}

proof fn leading_controllers_ready(
    cfg: Config,
    kubeconfig: Option<Seq<char>>,
    resume: Option<PreflightView>,
    reply: ReplyView,
)
    ensures
        all_of(
            bootstrap::after_controllers_ready_spec(cfg, kubeconfig, resume, reply),
            |step: StepView| opening(cfg, step),
        ),
{
    broadcast use group_all_of;

    lemma_names();
    if let Some(preflight) = resume {
        opening_finish(cfg, preflight, true);
        opening_finish(cfg, preflight, false);
    }
}

proof fn leading_flux_apps_created(cfg: Config, left: u32, reply: ReplyView)
    requires
        !cfg.recreate,
    ensures
        all_of(
            bootstrap::after_flux_apps_created_spec(left, reply),
            |step: StepView| opening(cfg, step),
        ),
{
    broadcast use group_all_of;

    lemma_names();
    lemma_more_names();
}

proof fn leading_flux_apps_ready(cfg: Config, reply: ReplyView)
    requires
        !cfg.recreate,
    ensures
        all_of(
            bootstrap::after_flux_apps_ready_spec(cfg, reply),
            |step: StepView| opening(cfg, step),
        ),
{
    broadcast use group_all_of;

    lemma_names();
    lemma_more_names();
}

proof fn leading_workload_file(cfg: Config, engine: Seq<char>, reply: ReplyView)
    requires
        !cfg.recreate,
    ensures
        all_of(
            bootstrap::after_workload_file_spec(engine, reply),
            |step: StepView| opening(cfg, step),
        ),
{
    broadcast use group_all_of;

    lemma_names();
    lemma_more_names();
}

proof fn leading_workload_kubeconfig(
    cfg: Config,
    engine: Seq<char>,
    path: Seq<char>,
    reply: ReplyView,
)
    requires
        !cfg.recreate,
    ensures
        all_of(
            bootstrap::after_workload_kubeconfig_spec(cfg, engine, path, reply),
            |step: StepView| opening(cfg, step),
        ),
{
    broadcast use group_all_of;

    lemma_names();
    lemma_more_names();
}

proof fn leading_workload_port(cfg: Config, engine: Seq<char>, path: Seq<char>, reply: ReplyView)
    requires
        !cfg.recreate,
    ensures
        all_of(
            bootstrap::after_workload_port_spec(cfg, engine, path, reply),
            |step: StepView| opening(cfg, step),
        ),
{
    broadcast use group_all_of;

    lemma_names();
    lemma_more_names();
}

proof fn leading_workload_flux_created(cfg: Config, path: Seq<char>, left: u32, reply: ReplyView)
    requires
        !cfg.recreate,
    ensures
        all_of(
            bootstrap::after_workload_flux_created_spec(path, left, reply),
            |step: StepView| opening(cfg, step),
        ),
{
    broadcast use group_all_of;

    lemma_names();
    lemma_more_names();
}

proof fn leading_workload_ready(cfg: Config, path: Seq<char>, reply: ReplyView)
    requires
        !cfg.recreate,
    ensures
        all_of(
            bootstrap::after_workload_ready_spec(cfg, path, reply),
            |step: StepView| opening(cfg, step),
        ),
{
    broadcast use group_all_of;

    lemma_names();
    lemma_more_names();
}

proof fn leading_bootstrap(cfg: Config, q: BootstrapQuestionView, reply: ReplyView)
    requires
        !cfg.recreate,
    ensures
        all_of(bootstrap::answer_spec(cfg, q, reply), |step: StepView| opening(cfg, step)),
{
    match q {
        BootstrapQuestionView::KindClusters { engine_sock } => {
            leading_kind_clusters(cfg, engine_sock, reply)
        },
        BootstrapQuestionView::KindContext => leading_kind_context(cfg, reply),
        BootstrapQuestionView::KindExport => leading_kind_export(cfg, reply),
        BootstrapQuestionView::KindHealthContext => leading_kind_health_context(cfg, reply),
        BootstrapQuestionView::KindHealthNodes => leading_kind_health_nodes(cfg, reply),
        BootstrapQuestionView::RegistryListed { engine } => {
            leading_registry_listed(cfg, engine, reply)
        },
        BootstrapQuestionView::RegistryPort { engine } => leading_registry_port(cfg, engine, reply),
        BootstrapQuestionView::RegistryNetwork { engine, port_matches } => {
            leading_registry_network(cfg, engine, port_matches, reply)
        },
        BootstrapQuestionView::RegistryRunning { engine } => {
            leading_registry_running(cfg, engine, reply)
        },
        BootstrapQuestionView::RegistryProbe { attempt } => {
            leading_registry_probe(cfg, attempt, reply)
        },
        BootstrapQuestionView::RegistryConfig { preflight } => {
            leading_registry_config(cfg, preflight, reply)
        },
        BootstrapQuestionView::ControllersReady { kubeconfig, resume } => {
            leading_controllers_ready(cfg, kubeconfig, resume, reply)
        },
        BootstrapQuestionView::FluxAppsCreated { left } => {
            leading_flux_apps_created(cfg, left, reply)
        },
        BootstrapQuestionView::FluxAppsReady => leading_flux_apps_ready(cfg, reply),
        BootstrapQuestionView::WorkloadFile { engine } => leading_workload_file(cfg, engine, reply),
        BootstrapQuestionView::WorkloadKubeconfig { engine, path } => {
            leading_workload_kubeconfig(cfg, engine, path, reply)
        },
        BootstrapQuestionView::WorkloadPort { engine, path } => {
            leading_workload_port(cfg, engine, path, reply)
        },
        BootstrapQuestionView::WorkloadFluxCreated { path, left } => {
            leading_workload_flux_created(cfg, path, left, reply)
        },
        BootstrapQuestionView::WorkloadReady { path } => leading_workload_ready(cfg, path, reply),
    }
}

#[verifier::rlimit(60)]
proof fn leading_pivot(cfg: Config, q: PivotQuestionView, reply: ReplyView)
    requires
        leads_on(QuestionView::Pivot(q)),
    ensures
        all_of(pivot::answer_spec(cfg, q, reply), |step: StepView| plain(step)),
{
    broadcast use group_all_of;

    lemma_names();
    lemma_more_names();
}

proof fn finishing_pivot(cfg: Config, preflight: PreflightView, reply: ReplyView)
    ensures
        all_of(
            pivot::after_pivot_registry_config_spec(cfg, preflight, reply),
            |step: StepView| finishing(cfg, step),
        ),
{
    broadcast use group_all_of;

    plain_preparation(cfg, reply.stdout);
    plain_seed(cfg, preflight, reply.stdout);
    finishing_all(pivot::pivot_install_capi_in_target_spec(cfg, reply.stdout), cfg);
    finishing_all(pivot_suspend_and_move_spec(cfg), cfg);
    finishing_all(pivot::pivot_seed_target_spec(cfg, preflight, reply.stdout), cfg);
}

proof fn finishing_all(s: ScriptView, cfg: Config)
    requires
        all_of(s, |step: StepView| plain(step)),
    ensures
        all_of(s, |step: StepView| finishing(cfg, step)),
{
    assert forall|i: int| 0 <= i < s.steps.len() implies finishing(cfg, #[trigger] s.steps[i]) by {
        assert((|step: StepView| plain(step))(s.steps[i]));
    }
}

proof fn plain_fallbacks(items: Seq<crate::config::MoveFallback>)
    ensures
        all_of(pivot::fallbacks_spec(items), |step: StepView| plain(step)),
    decreases items.len(),
{
    broadcast use group_all_of;

    if items.len() > 0 {
        plain_fallbacks(items.drop_last());
    }
}

proof fn plain_preparation(cfg: Config, registry_config: Seq<char>)
    ensures
        all_of(
            pivot::pivot_install_capi_in_target_spec(cfg, registry_config),
            |step: StepView| plain(step),
        ),
        all_of(pivot_suspend_and_move_spec(cfg), |step: StepView| plain(step)),
{
    broadcast use group_all_of;

    lemma_names();
    lemma_more_names();
    plain_fallbacks(cfg.environment.move_fallbacks@);
}

proof fn plain_seed(cfg: Config, preflight: PreflightView, registry_config: Seq<char>)
    ensures
        all_of(
            pivot::pivot_seed_target_spec(cfg, preflight, registry_config),
            |step: StepView| plain(step),
        ),
{
    broadcast use group_all_of;

    lemma_names();
    lemma_more_names();
}

// ---------------------------------------------------------------------------------------------
// What happens before the kind cluster is deleted
// ---------------------------------------------------------------------------------------------
/// Whether the event is the move of the inventory to the management cluster, with success.
pub open spec fn moved(cfg: Config, event: Event) -> bool {
    match event {
        Event::Performed(action, reply) => {
            &&& action == ActionView::Run(
                command("clusterctl"@).arg("move"@).arg("--to-kubeconfig"@).arg(
                    cfg.mgmt_kubeconfig@,
                ).arg("-n"@).arg(cfg.repo.bootstrap.mgmt_namespace@),
            )
            &&& reply.ok
        },
        _ => false,
    }
}

/// Whether the event is a listing that shows Clusters on the management cluster.
pub open spec fn target_owns_clusters(cfg: Config, event: Event) -> bool {
    match event {
        Event::Performed(action, reply) => {
            &&& action == ActionView::Lossy(
                command("kubectl"@).arg("--kubeconfig"@).arg(cfg.mgmt_kubeconfig@).arg("get"@).arg(
                    "clusters"@,
                ).arg("-n"@).arg(cfg.repo.bootstrap.mgmt_namespace@).arg("-o"@).arg("name"@),
            )
            &&& entries_spec(reply.stdout).len() > 0
        },
        _ => false,
    }
}

/// Whether the event is a response of the local registry that shows that it is serving.
pub open spec fn registry_serves(cfg: Config, event: Event) -> bool {
    match event {
        Event::Performed(action, reply) => {
            &&& action == ActionView::Get(request(registry_url_spec(cfg)))
            &&& reply.ok
            &&& reply.http < 400
        },
        _ => false,
    }
}

proof fn leading_answers(cfg: Config, q: QuestionView, reply: ReplyView)
    requires
        !cfg.recreate,
        leads_on(q),
    ensures
        all_of(question::answer_spec(cfg, q, reply), |step: StepView| opening(cfg, step)),
{
    match q {
        QuestionView::Engine(asked) => leading_engine(cfg, asked, reply),
        QuestionView::Preflight(asked) => leading_preflight(cfg, asked, reply),
        QuestionView::Bootstrap(asked) => leading_bootstrap(cfg, asked, reply),
        QuestionView::Pivot(asked) => {
            leading_pivot(cfg, asked, reply);
            let s = question::answer_spec(cfg, q, reply);
            assert forall|i: int| 0 <= i < s.steps.len() implies opening(
                cfg,
                #[trigger] s.steps[i],
            ) by {
                assert((|step: StepView| plain(step))(s.steps[i]));
            }
        },
        _ => {},
    }
}

proof fn opening_bootstrap(cfg: Config)
    ensures
        all_of(bootstrap::run_bootstrap_spec(cfg), |step: StepView| opening(cfg, step)),
{
    broadcast use group_all_of;

    lemma_names();
    lemma_more_names();
}

/// A step of a run that moves the inventory and afterwards deletes the kind cluster.
pub open spec fn of_bootstrap(cfg: Config, step: StepView) -> bool {
    opening(cfg, step) || cfg.bootstrap_pivot && finishing(cfg, step)
}

/// What is guarded at the question for the Clusters of the target is guarded from the first step of
/// the bootstrap on.
proof fn bootstrap_is_guarded(cfg: Config, first: spec_fn(Event) -> bool)
    requires
        !cfg.recreate,
        cfg.bootstrap_pivot && !cfg.pivot_skip_delete ==> guards(
            cfg,
            seq![StepView::Ask(QuestionView::Pivot(PivotQuestionView::TargetClusters))],
            first,
            |a: ActionView| deletes_kind(a),
        ),
    ensures
        guarded(cfg, bootstrap::run_bootstrap_spec(cfg), first, |a: ActionView| deletes_kind(a)),
{
    let kind = |step: StepView| of_bootstrap(cfg, step);
    let action = |a: ActionView| deletes_kind(a);
    let s = bootstrap::run_bootstrap_spec(cfg);
    assert(tame(cfg, kind, first, action)) by {
        assert forall|q: QuestionView| (#[trigger] kind(StepView::Ask(q))) implies {
            ||| guards(cfg, seq![StepView::Ask(q)], first, action)
            ||| !action(question::action_spec(cfg, q)) && forall|reply: ReplyView|
                all_of(#[trigger] question::answer_spec(cfg, q, reply), kind)
        } by {
            if leads_on(q) {
                leading_actions(cfg, q);
                assert forall|reply: ReplyView|
                    all_of(#[trigger] question::answer_spec(cfg, q, reply), kind) by {
                    leading_answers(cfg, q, reply);
                    let s = question::answer_spec(cfg, q, reply);
                    assert forall|i: int| 0 <= i < s.steps.len() implies kind(
                        #[trigger] s.steps[i],
                    ) by {
                        assert((|step: StepView| opening(cfg, step))(s.steps[i]));
                    }
                }
            } else if is_preparation(StepView::Ask(q)) {
                assert forall|reply: ReplyView|
                    all_of(#[trigger] question::answer_spec(cfg, q, reply), kind) by {
                    if let QuestionView::Pivot(
                        PivotQuestionView::PivotRegistryConfig { preflight },
                    ) = q {
                        finishing_pivot(cfg, preflight, reply);
                    }
                    let s = question::answer_spec(cfg, q, reply);
                    assert forall|i: int| 0 <= i < s.steps.len() implies kind(
                        #[trigger] s.steps[i],
                    ) by {
                        assert((|step: StepView| finishing(cfg, step))(s.steps[i]));
                    }
                }
            }
        }
    }
    opening_bootstrap(cfg);
    assert(all_steps(s.steps, kind)) by {
        assert forall|i: int| 0 <= i < s.steps.len() implies kind(#[trigger] s.steps[i]) by {
            assert((|step: StepView| opening(cfg, step))(s.steps[i]));
        }
    }
    tame_guards(cfg, kind, first, action, s.steps);
}

/// A bootstrap that is not to recreate the kind cluster, and that does not pivot or keeps the kind
/// cluster after its pivot, never deletes it, whatever the replies are.
pub proof fn law_kind_cluster_is_kept(cfg: Config, replies: Seq<ReplyView>, i: int)
    requires
        !cfg.recreate,
        !cfg.bootstrap_pivot || cfg.pivot_skip_delete,
        0 <= i < run(cfg, bootstrap::run_bootstrap_spec(cfg).steps, replies).events.len(),
    ensures
        match run(cfg, bootstrap::run_bootstrap_spec(cfg).steps, replies).events[i] {
            Event::Performed(action, _) => !deletes_kind(action),
            _ => true,
        },
{
    let never = |e: Event| false;
    let action = |a: ActionView| deletes_kind(a);
    bootstrap_is_guarded(cfg, never);
    let events = run(cfg, bootstrap::run_bootstrap_spec(cfg).steps, replies).events;
    assert(precedes(events, never, action));
    assert(!happened(events.take(i), never));
    assert(!performs(events[i], action));
}

/// A bootstrap that is not to recreate the kind cluster deletes it only after a listing has shown
/// that the management cluster owns Clusters, whatever the replies are.
pub proof fn law_target_owns_clusters_first(cfg: Config, replies: Seq<ReplyView>)
    requires
        !cfg.recreate,
    ensures
        precedes(
            run(cfg, bootstrap::run_bootstrap_spec(cfg).steps, replies).events,
            |e: Event| target_owns_clusters(cfg, e),
            |a: ActionView| deletes_kind(a),
        ),
{
    broadcast use group_guarded;

    let first = |e: Event| target_owns_clusters(cfg, e);
    let action = |a: ActionView| deletes_kind(a);
    let q = QuestionView::Pivot(PivotQuestionView::TargetClusters);
    lemma_names();
    guarded_question(cfg, q, first, action);
    bootstrap_is_guarded(cfg, first);
}

/// In the local environment, a bootstrap that is not to recreate the kind cluster deletes it only
/// after the local registry has shown that it is serving, whatever the replies are.
pub proof fn law_registry_serves_first(cfg: Config, replies: Seq<ReplyView>)
    requires
        !cfg.recreate,
        cfg.is_local_spec(),
    ensures
        precedes(
            run(cfg, bootstrap::run_bootstrap_spec(cfg).steps, replies).events,
            |e: Event| registry_serves(cfg, e),
            |a: ActionView| deletes_kind(a),
        ),
{
    broadcast use {group_guarded, group_some_of};

    let first = |e: Event| registry_serves(cfg, e);
    let action = |a: ActionView| deletes_kind(a);
    let q = QuestionView::Pivot(PivotQuestionView::TargetClusters);
    let registry = QuestionView::Pivot(PivotQuestionView::FinalRegistry);
    let one = seq![StepView::Ask(registry)];
    let kind = |step: StepView|
        match step {
            StepView::Fail(_) => true,
            StepView::Ask(asked) => asked == registry,
            _ => false,
        };
    lemma_names();
    assert(owes(cfg, kind, first));
    assert(some_of(ScriptView { steps: one }, kind)) by {
        assert(kind(one[0]));
    }
    owed_brings(cfg, kind, first, one);
    guarded_question(cfg, registry, first, action);
    guarded_question(cfg, q, first, action);
    bootstrap_is_guarded(cfg, first);
}

/// A bootstrap that is not to recreate the kind cluster deletes it only after the inventory has been
/// moved to the management cluster with success, whatever the replies are.
pub proof fn law_inventory_is_moved_first(cfg: Config, replies: Seq<ReplyView>)
    requires
        !cfg.recreate,
    ensures
        precedes(
            run(cfg, bootstrap::run_bootstrap_spec(cfg).steps, replies).events,
            |e: Event| moved(cfg, e),
            |a: ActionView| deletes_kind(a),
        ),
{
    let first = |e: Event| moved(cfg, e);
    let action = |a: ActionView| deletes_kind(a);
    let kind = |step: StepView| opening(cfg, step);
    let s = bootstrap::run_bootstrap_spec(cfg);
    assert(tame(cfg, kind, first, action)) by {
        assert forall|q: QuestionView| (#[trigger] kind(StepView::Ask(q))) implies {
            ||| guards(cfg, seq![StepView::Ask(q)], first, action)
            ||| !action(question::action_spec(cfg, q)) && forall|reply: ReplyView|
                all_of(#[trigger] question::answer_spec(cfg, q, reply), kind)
        } by {
            if leads_on(q) {
                leading_actions(cfg, q);
                assert forall|reply: ReplyView|
                    all_of(#[trigger] question::answer_spec(cfg, q, reply), kind) by {
                    leading_answers(cfg, q, reply);
                }
            } else {
                if let QuestionView::Pivot(
                    PivotQuestionView::PivotRegistryConfig { preflight },
                ) = q {
                    preparation_is_guarded(cfg, preflight);
                }
            }
        }
    }
    opening_bootstrap(cfg);
    tame_guards(cfg, kind, first, action, s.steps);
}

proof fn plain_is_guarded(cfg: Config, s: ScriptView, first: spec_fn(Event) -> bool)
    requires
        all_of(s, |step: StepView| plain(step)),
        all_of(s, |step: StepView| asks_the_pivot(step)),
    ensures
        guarded(cfg, s, first, |a: ActionView| deletes_kind(a)),
{
    let kind = |step: StepView| plain(step) && asks_the_pivot(step);
    let action = |a: ActionView| deletes_kind(a);
    assert(tame(cfg, kind, first, action)) by {
        assert forall|q: QuestionView| (#[trigger] kind(StepView::Ask(q))) implies !action(
            question::action_spec(cfg, q),
        ) && forall|reply: ReplyView|
            all_of(#[trigger] question::answer_spec(cfg, q, reply), kind) by {
            leading_actions(cfg, q);
            assert forall|reply: ReplyView|
                all_of(#[trigger] question::answer_spec(cfg, q, reply), kind) by {
                if let QuestionView::Pivot(asked) = q {
                    leading_pivot(cfg, asked, reply);
                    asking_pivot(cfg, asked, reply);
                    let s = question::answer_spec(cfg, q, reply);
                    assert forall|i: int| 0 <= i < s.steps.len() implies kind(
                        #[trigger] s.steps[i],
                    ) by {
                        assert((|step: StepView| plain(step))(s.steps[i]));
                        assert((|step: StepView| asks_the_pivot(step))(s.steps[i]));
                    }
                }
            }
        }
    }
    assert forall|i: int| 0 <= i < s.steps.len() implies kind(#[trigger] s.steps[i]) by {
        assert((|step: StepView| plain(step))(s.steps[i]));
        assert((|step: StepView| asks_the_pivot(step))(s.steps[i]));
    }
    tame_guards(cfg, kind, first, action, s.steps);
}

/// A step that asks nothing but what the pivot asks.
pub open spec fn asks_the_pivot(step: StepView) -> bool {
    match step {
        StepView::Ask(q) => q is Pivot,
        _ => true,
    }
}

#[verifier::rlimit(60)]
proof fn asking_pivot(cfg: Config, q: PivotQuestionView, reply: ReplyView)
    requires
        leads_on(QuestionView::Pivot(q)),
    ensures
        all_of(pivot::answer_spec(cfg, q, reply), |step: StepView| asks_the_pivot(step)),
{
    broadcast use group_all_of;

}

proof fn asking_fallbacks(items: Seq<crate::config::MoveFallback>)
    ensures
        all_of(pivot::fallbacks_spec(items), |step: StepView| asks_the_pivot(step)),
    decreases items.len(),
{
    broadcast use group_all_of;

    if items.len() > 0 {
        asking_fallbacks(items.drop_last());
    }
}

proof fn asking_preparation(cfg: Config, registry_config: Seq<char>)
    ensures
        all_of(
            pivot::pivot_install_capi_in_target_spec(cfg, registry_config),
            |step: StepView| asks_the_pivot(step),
        ),
        all_of(pivot_suspend_and_move_spec(cfg), |step: StepView| asks_the_pivot(step)),
{
    broadcast use group_all_of;

    asking_fallbacks(cfg.environment.move_fallbacks@);
}

proof fn preparation_is_guarded(cfg: Config, preflight: PreflightView)
    ensures
        guards(
            cfg,
            seq![
                StepView::Ask(
                    QuestionView::Pivot(PivotQuestionView::PivotRegistryConfig { preflight }),
                ),
            ],
            |e: Event| moved(cfg, e),
            |a: ActionView| deletes_kind(a),
        ),
{
    broadcast use {group_guarded, group_some_of};

    let first = |e: Event| moved(cfg, e);
    let action = |a: ActionView| deletes_kind(a);
    let q = QuestionView::Pivot(PivotQuestionView::PivotRegistryConfig { preflight });
    let owing = QuestionView::Pivot(PivotQuestionView::Move);
    let kind = |step: StepView|
        match step {
            StepView::Fail(_) => true,
            StepView::Ask(asked) => asked == owing,
            _ => false,
        };
    let s = pivot_suspend_and_move_spec(cfg);
    assert(owes(cfg, kind, first));
    assert(some_of(s, kind));
    owed_brings(cfg, kind, first, s.steps);
    assert(supplies(cfg, s, first));
    assert forall|reply: ReplyView|
        guarded(cfg, #[trigger] question::answer_spec(cfg, q, reply), first, action) by {
        let installed = pivot::pivot_install_capi_in_target_spec(cfg, reply.stdout);
        plain_preparation(cfg, reply.stdout);
        asking_preparation(cfg, reply.stdout);
        plain_is_guarded(cfg, installed, first);
        plain_is_guarded(cfg, s, first);
    }
    guarded_question(cfg, q, first, action);
}

} // verus!
