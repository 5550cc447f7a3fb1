//! What holds of every run that finds a kind cluster from an earlier run: it is reused.
use vstd::prelude::*;

use crate::bootstrap;
use crate::bootstrap::BootstrapQuestionView;
use crate::context::PreflightView;
use crate::engine;
use crate::engine::EngineQuestionView;
use crate::pivot;
use crate::pivot::PivotQuestionView;
use crate::preflight;
use crate::preflight::PreflightQuestionView;
use crate::question;
use crate::question::QuestionView;
use crate::runs::{
    all_of, group_all_of, guarded, guarded_question, guards, precedes, run, tame,
    tame_guards, Event,
};
use crate::script::{command, ActionView, ReplyView, ScriptView, StepView};
use crate::settings::Config;
use crate::text::has_line_spec;

verus! {

/// Whether the action creates a kind cluster.
pub open spec fn creates_kind(action: ActionView) -> bool {
    match action.command() {
        Some(c) => c.program == "kind"@ && c.args.len() > 0 && c.args[0] == "create"@,
        None => false,
    }
}

/// Whether the action moves the CAPI inventory.
pub open spec fn moves_inventory(action: ActionView) -> bool {
    match action.command() {
        Some(c) => c.program == "clusterctl"@ && c.args.len() > 0 && c.args[0] == "move"@,
        None => false,
    }
}

/// Whether the event is a listing of the kind clusters that does not show the bootstrap cluster.
pub open spec fn shows_no_cluster(cfg: Config, event: Event) -> bool {
    match event {
        Event::Performed(action, reply) => {
            &&& action == ActionView::Lossy(command("kind"@).arg("get"@).arg("clusters"@))
            &&& !has_line_spec(reply.stdout, cfg.repo.bootstrap.kind_cluster@)
        },
        _ => false,
    }
}

pub proof fn lemma_other_words()
    ensures
        "kubectl"@ != "kind"@,
        "helm"@ != "kind"@,
        "clusterctl"@ != "kind"@,
        "mise"@ != "kind"@,
        "flux"@ != "kind"@,
        "sops"@ != "kind"@,
        "docker"@ != "kind"@,
        "podman"@ != "kind"@,
        "kubectl"@ != "clusterctl"@,
        "helm"@ != "clusterctl"@,
        "mise"@ != "clusterctl"@,
        "flux"@ != "clusterctl"@,
        "sops"@ != "clusterctl"@,
        "docker"@ != "clusterctl"@,
        "podman"@ != "clusterctl"@,
        "kind"@ != "clusterctl"@,
        "get"@ != "create"@,
        "export"@ != "create"@,
        "delete"@ != "create"@,
        "info"@ != "create"@,
        "network"@ != "create"@,
        "ps"@ != "create"@,
        "rm"@ != "create"@,
        "port"@ != "create"@,
        "inspect"@ != "create"@,
        "start"@ != "create"@,
        "run"@ != "create"@,
        "describe"@ != "create"@,
        "move"@ != "create"@,
        "get"@ != "move"@,
        "export"@ != "move"@,
        "delete"@ != "move"@,
        "info"@ != "move"@,
        "network"@ != "move"@,
        "ps"@ != "move"@,
        "rm"@ != "move"@,
        "port"@ != "move"@,
        "inspect"@ != "move"@,
        "start"@ != "move"@,
        "run"@ != "move"@,
        "describe"@ != "move"@,
        "create"@ != "move"@,
        "--version"@ != "move"@,
{
    reveal_strlit("kind");
    reveal_strlit("create");
    reveal_strlit("move");
    reveal_strlit("describe");
    reveal_strlit("--version");
    reveal_strlit("kubectl");
    reveal_strlit("helm");
    reveal_strlit("clusterctl");
    reveal_strlit("mise");
    reveal_strlit("flux");
    reveal_strlit("sops");
    reveal_strlit("docker");
    reveal_strlit("podman");
    reveal_strlit("get");
    reveal_strlit("export");
    reveal_strlit("delete");
    reveal_strlit("info");
    reveal_strlit("network");
    reveal_strlit("ps");
    reveal_strlit("rm");
    reveal_strlit("port");
    reveal_strlit("inspect");
    reveal_strlit("start");
    reveal_strlit("run");
    assert("kind"@.len() == 4 && "kind"@[0] == 'k');
    assert("create"@.len() == 6 && "create"@[0] == 'c');
    assert("move"@.len() == 4 && "move"@[0] == 'm');
    assert("describe"@.len() == 8 && "describe"@[0] == 'd');
    assert("--version"@.len() == 9 && "--version"@[0] == '-');
    assert("kubectl"@.len() == 7 && "kubectl"@[0] == 'k');
    assert("helm"@.len() == 4 && "helm"@[0] == 'h');
    assert("clusterctl"@.len() == 10 && "clusterctl"@[0] == 'c');
    assert("mise"@.len() == 4 && "mise"@[0] == 'm');
    assert("flux"@.len() == 4 && "flux"@[0] == 'f');
    assert("sops"@.len() == 4 && "sops"@[0] == 's');
    assert("docker"@.len() == 6 && "docker"@[0] == 'd');
    assert("podman"@.len() == 6 && "podman"@[0] == 'p');
    assert("get"@.len() == 3 && "get"@[0] == 'g');
    assert("export"@.len() == 6 && "export"@[0] == 'e');
    assert("delete"@.len() == 6 && "delete"@[0] == 'd');
    assert("info"@.len() == 4 && "info"@[0] == 'i');
    assert("network"@.len() == 7 && "network"@[0] == 'n');
    assert("ps"@.len() == 2 && "ps"@[0] == 'p');
    assert("rm"@.len() == 2 && "rm"@[0] == 'r');
    assert("port"@.len() == 4 && "port"@[0] == 'p');
    assert("inspect"@.len() == 7 && "inspect"@[0] == 'i');
    assert("start"@.len() == 5 && "start"@[0] == 's');
    assert("run"@.len() == 3 && "run"@[0] == 'r');
}

// ---------------------------------------------------------------------------------------------
// Steps that create no cluster
// ---------------------------------------------------------------------------------------------
/// The questions of a bootstrap and its pivot.
pub open spec fn of_bootstrap(q: QuestionView) -> bool {
    match q {
        QuestionView::Preflight(_) => true,
        QuestionView::Bootstrap(_) => true,
        QuestionView::Pivot(_) => true,
        QuestionView::Engine(q) => match q {
            EngineQuestionView::DockerInfo { seeker } => seeker is Preflight,
            EngineQuestionView::DockerVersion { seeker } => seeker is Preflight,
            EngineQuestionView::PodmanInfo { seeker } => seeker is Preflight,
            EngineQuestionView::NamedEngine { .. } => false,
            _ => true,
        },
        _ => false,
    }
}

/// Whether the question is the one that moves the inventory.
pub open spec fn is_move(q: QuestionView) -> bool {
    match q {
        QuestionView::Pivot(asked) => asked is Move,
        _ => false,
    }
}

/// A step of a bootstrap or its pivot that neither creates a kind cluster nor moves the inventory.
pub open spec fn building(step: StepView) -> bool {
    match step {
        StepView::Do(action, _) => !creates_kind(action) && !moves_inventory(action),
        StepView::Ask(q) => of_bootstrap(q) && !is_move(q),
        _ => true,
    }
}

/// A step of a bootstrap or its pivot that creates no kind cluster.
pub open spec fn pivoting(step: StepView) -> bool {
    building(step) || step == StepView::Ask(QuestionView::Pivot(PivotQuestionView::Move))
}

/// The questions that the reuse of a kind cluster asks.
pub open spec fn of_reuse(q: QuestionView) -> bool {
    match q {
        QuestionView::Bootstrap(q) => match q {
            BootstrapQuestionView::KindContext => true,
            BootstrapQuestionView::KindExport => true,
            BootstrapQuestionView::KindHealthContext => true,
            BootstrapQuestionView::KindHealthNodes => true,
            _ => false,
        },
        QuestionView::Engine(q) => match q {
            EngineQuestionView::ToolboxId { .. } => true,
            EngineQuestionView::Member { .. } => true,
            EngineQuestionView::Connect { .. } => true,
            EngineQuestionView::MemberAfter { .. } => true,
            EngineQuestionView::KindKubeconfig { .. } => true,
            _ => false,
        },
        _ => false,
    }
}

/// A step of the reuse of a kind cluster.
pub open spec fn reusing(step: StepView) -> bool {
    match step {
        StepView::Do(action, _) => !creates_kind(action),
        StepView::Ask(q) => of_reuse(q),
        _ => true,
    }
}

pub proof fn actions_create_nothing(cfg: Config, q: QuestionView)
    requires
        of_bootstrap(q),
    ensures
        !creates_kind(question::action_spec(cfg, q)),
        moves_inventory(question::action_spec(cfg, q)) ==> is_move(q),
{
    lemma_other_words();
}

proof fn builds_kind_context(cfg: Config, reply: ReplyView)
    ensures
        all_of(bootstrap::after_kind_context_spec(cfg, reply), |step: StepView| building(step)),
{
    broadcast use group_all_of;

    lemma_other_words();
}

proof fn builds_kind_export(cfg: Config, reply: ReplyView)
    ensures
        all_of(bootstrap::after_kind_export_spec(cfg, reply), |step: StepView| building(step)),
{
    broadcast use group_all_of;

    lemma_other_words();
}

proof fn builds_kind_health_context(cfg: Config, reply: ReplyView)
    ensures
        all_of(
            bootstrap::after_kind_health_context_spec(cfg, reply),
            |step: StepView| building(step),
        ),
{
    broadcast use group_all_of;

    lemma_other_words();
}

proof fn builds_kind_health_nodes(cfg: Config, reply: ReplyView)
    ensures
        all_of(
            bootstrap::after_kind_health_nodes_spec(cfg, reply),
            |step: StepView| building(step),
        ),
{
    broadcast use group_all_of;

    lemma_other_words();
}

proof fn builds_registry_listed(cfg: Config, engine: Seq<char>, reply: ReplyView)
    ensures
        all_of(
            bootstrap::after_registry_listed_spec(cfg, engine, reply),
            |step: StepView| building(step),
        ),
{
    broadcast use group_all_of;

    lemma_other_words();
}

proof fn builds_registry_port(cfg: Config, engine: Seq<char>, reply: ReplyView)
    ensures
        all_of(
            bootstrap::after_registry_port_spec(cfg, engine, reply),
            |step: StepView| building(step),
        ),
{
    broadcast use group_all_of;

    lemma_other_words();
}

proof fn builds_registry_network(
    cfg: Config,
    engine: Seq<char>,
    port_matches: bool,
    reply: ReplyView,
)
    ensures
        all_of(
            bootstrap::after_registry_network_spec(cfg, engine, port_matches, reply),
            |step: StepView| building(step),
        ),
{
    broadcast use group_all_of;

    lemma_other_words();
}

proof fn builds_registry_running(cfg: Config, engine: Seq<char>, reply: ReplyView)
    ensures
        all_of(
            bootstrap::after_registry_running_spec(cfg, engine, reply),
            |step: StepView| building(step),
        ),
{
    broadcast use group_all_of;

    lemma_other_words();
}

proof fn builds_registry_probe(cfg: Config, attempt: u32, reply: ReplyView)
    ensures
        all_of(
            bootstrap::after_registry_probe_spec(cfg, attempt, reply),
            |step: StepView| building(step),
        ),
{
    broadcast use group_all_of;

    lemma_other_words();
}

proof fn builds_registry_config(cfg: Config, preflight: PreflightView, reply: ReplyView)
    ensures
        all_of(
            bootstrap::after_registry_config_spec(cfg, preflight, reply),
            |step: StepView| building(step),
        ),
{
    broadcast use group_all_of;

    lemma_other_words();
}

proof fn builds_flux_apps_created(left: u32, reply: ReplyView)
    ensures
        all_of(
            bootstrap::after_flux_apps_created_spec(left, reply),
            |step: StepView| building(step),
        ),
{
    broadcast use group_all_of;

    lemma_other_words();
}

proof fn builds_flux_apps_ready(cfg: Config, reply: ReplyView)
    ensures
        all_of(bootstrap::after_flux_apps_ready_spec(cfg, reply), |step: StepView| building(step)),
{
    broadcast use group_all_of;

    lemma_other_words();
}

proof fn builds_workload_file(engine: Seq<char>, reply: ReplyView)
    ensures
        all_of(bootstrap::after_workload_file_spec(engine, reply), |step: StepView| building(step)),
{
    broadcast use group_all_of;

    lemma_other_words();
}

proof fn builds_workload_kubeconfig(
    cfg: Config,
    engine: Seq<char>,
    path: Seq<char>,
    reply: ReplyView,
)
    ensures
        all_of(
            bootstrap::after_workload_kubeconfig_spec(cfg, engine, path, reply),
            |step: StepView| building(step),
        ),
{
    broadcast use group_all_of;

    lemma_other_words();
}

proof fn builds_workload_port(cfg: Config, engine: Seq<char>, path: Seq<char>, reply: ReplyView)
    ensures
        all_of(
            bootstrap::after_workload_port_spec(cfg, engine, path, reply),
            |step: StepView| building(step),
        ),
{
    broadcast use group_all_of;

    lemma_other_words();
}

proof fn builds_workload_flux_created(path: Seq<char>, left: u32, reply: ReplyView)
    ensures
        all_of(
            bootstrap::after_workload_flux_created_spec(path, left, reply),
            |step: StepView| building(step),
        ),
{
    broadcast use group_all_of;

    lemma_other_words();
}

proof fn builds_workload_ready(cfg: Config, path: Seq<char>, reply: ReplyView)
    ensures
        all_of(
            bootstrap::after_workload_ready_spec(cfg, path, reply),
            |step: StepView| building(step),
        ),
{
    broadcast use group_all_of;

    lemma_other_words();
}

proof fn builds_pivot_start(cfg: Config, preflight: PreflightView)
    ensures
        all_of(pivot::run_pivot_spec(cfg, preflight), |step: StepView| building(step)),
{
    broadcast use group_all_of;

    lemma_other_words();
}

proof fn builds_watch(cfg: Config, engine: Seq<char>)
    ensures
        all_of(
            bootstrap::watch_local_reconciliation_spec(cfg, engine),
            |step: StepView| building(step),
        ),
{
    broadcast use group_all_of;

}

proof fn builds_completion(cfg: Config, preflight: PreflightView)
    ensures
        all_of(bootstrap::completion_spec(cfg, preflight), |step: StepView| building(step)),
{
    broadcast use group_all_of;

}

proof fn builds_finish(cfg: Config, preflight: PreflightView, ready: bool)
    ensures
        all_of(
            bootstrap::finish_bootstrap_spec(cfg, preflight, ready),
            |step: StepView| building(step),
        ),
{
    broadcast use group_all_of;

    builds_watch(cfg, preflight.engine);
    builds_completion(cfg, preflight);
    builds_pivot_start(cfg, preflight);
}

proof fn builds_controllers_ready(
    cfg: Config,
    kubeconfig: Option<Seq<char>>,
    resume: Option<PreflightView>,
    reply: ReplyView,
)
    ensures
        all_of(
            bootstrap::after_controllers_ready_spec(cfg, kubeconfig, resume, reply),
            |step: StepView| building(step),
        ),
{
    broadcast use group_all_of;

    lemma_other_words();
    if let Some(preflight) = resume {
        builds_finish(cfg, preflight, true);
        builds_finish(cfg, preflight, false);
    }
}

proof fn builds_bootstrap(cfg: Config, q: BootstrapQuestionView, reply: ReplyView)
    requires
        !(q is KindClusters),
    ensures
        all_of(bootstrap::answer_spec(cfg, q, reply), |step: StepView| building(step)),
{
    match q {
        BootstrapQuestionView::KindClusters { .. } => {},
        BootstrapQuestionView::KindContext => builds_kind_context(cfg, reply),
        BootstrapQuestionView::KindExport => builds_kind_export(cfg, reply),
        BootstrapQuestionView::KindHealthContext => builds_kind_health_context(cfg, reply),
        BootstrapQuestionView::KindHealthNodes => builds_kind_health_nodes(cfg, reply),
        BootstrapQuestionView::RegistryListed { engine } => {
            builds_registry_listed(cfg, engine, reply)
        },
        BootstrapQuestionView::RegistryPort { engine } => builds_registry_port(cfg, engine, reply),
        BootstrapQuestionView::RegistryNetwork { engine, port_matches } => {
            builds_registry_network(cfg, engine, port_matches, reply)
        },
        BootstrapQuestionView::RegistryRunning { engine } => {
            builds_registry_running(cfg, engine, reply)
        },
        BootstrapQuestionView::RegistryProbe { attempt } => {
            builds_registry_probe(cfg, attempt, reply)
        },
        BootstrapQuestionView::RegistryConfig { preflight } => {
            builds_registry_config(cfg, preflight, reply)
        },
        BootstrapQuestionView::ControllersReady { kubeconfig, resume } => {
            builds_controllers_ready(cfg, kubeconfig, resume, reply)
        },
        BootstrapQuestionView::FluxAppsCreated { left } => builds_flux_apps_created(left, reply),
        BootstrapQuestionView::FluxAppsReady => builds_flux_apps_ready(cfg, reply),
        BootstrapQuestionView::WorkloadFile { engine } => builds_workload_file(engine, reply),
        BootstrapQuestionView::WorkloadKubeconfig { engine, path } => {
            builds_workload_kubeconfig(cfg, engine, path, reply)
        },
        BootstrapQuestionView::WorkloadPort { engine, path } => {
            builds_workload_port(cfg, engine, path, reply)
        },
        BootstrapQuestionView::WorkloadFluxCreated { path, left } => {
            builds_workload_flux_created(path, left, reply)
        },
        BootstrapQuestionView::WorkloadReady { path } => builds_workload_ready(cfg, path, reply),
    }
}

#[verifier::rlimit(60)]
proof fn builds_engine(cfg: Config, q: EngineQuestionView, reply: ReplyView)
    requires
        of_bootstrap(QuestionView::Engine(q)),
    ensures
        all_of(engine::answer_spec(cfg, q, reply), |step: StepView| building(step)),
{
    broadcast use group_all_of;

    lemma_other_words();
}

#[verifier::rlimit(60)]
proof fn builds_preflight(cfg: Config, q: PreflightQuestionView, reply: ReplyView)
    ensures
        all_of(preflight::answer_spec(cfg, q, reply), |step: StepView| building(step)),
{
    broadcast use group_all_of;

    lemma_other_words();
}

proof fn builds_fallbacks(items: Seq<crate::config::MoveFallback>)
    ensures
        all_of(pivot::fallbacks_spec(items), |step: StepView| building(step)),
    decreases items.len(),
{
    broadcast use group_all_of;

    if items.len() > 0 {
        builds_fallbacks(items.drop_last());
    }
}

proof fn pivots(s: ScriptView)
    requires
        all_of(s, |step: StepView| building(step)),
    ensures
        all_of(s, |step: StepView| pivoting(step)),
{
    assert forall|i: int| 0 <= i < s.steps.len() implies pivoting(#[trigger] s.steps[i]) by {
        assert((|step: StepView| building(step))(s.steps[i]));
    }
}

proof fn builds_preparation(cfg: Config, registry_config: Seq<char>)
    ensures
        all_of(
            pivot::pivot_install_capi_in_target_spec(cfg, registry_config),
            |step: StepView| building(step),
        ),
        all_of(pivot::pivot_suspend_and_move_spec(cfg), |step: StepView| pivoting(step)),
{
    broadcast use group_all_of;

    lemma_other_words();
    builds_fallbacks(cfg.environment.move_fallbacks@);
    pivots(pivot::fallbacks_spec(cfg.environment.move_fallbacks@));
}

proof fn builds_seed(cfg: Config, preflight: PreflightView, registry_config: Seq<char>)
    ensures
        all_of(
            pivot::pivot_seed_target_spec(cfg, preflight, registry_config),
            |step: StepView| building(step),
        ),
{
    broadcast use group_all_of;

    lemma_other_words();
}

proof fn builds_target(cfg: Config, preflight: PreflightView, reply: ReplyView)
    ensures
        all_of(
            pivot::after_pivot_registry_config_spec(cfg, preflight, reply),
            |step: StepView| pivoting(step),
        ),
{
    broadcast use group_all_of;

    builds_preparation(cfg, reply.stdout);
    builds_seed(cfg, preflight, reply.stdout);
    pivots(pivot::pivot_install_capi_in_target_spec(cfg, reply.stdout));
    pivots(pivot::pivot_seed_target_spec(cfg, preflight, reply.stdout));
}

#[verifier::rlimit(60)]
proof fn builds_pivot(cfg: Config, q: PivotQuestionView, reply: ReplyView)
    requires
        !(q is PivotRegistryConfig),
    ensures
        all_of(pivot::answer_spec(cfg, q, reply), |step: StepView| building(step)),
{
    broadcast use group_all_of;

    lemma_other_words();
}

pub proof fn answers_build(cfg: Config, q: QuestionView, reply: ReplyView)
    requires
        of_bootstrap(q),
        match q {
            QuestionView::Bootstrap(asked) => !(asked is KindClusters),
            QuestionView::Pivot(asked) => !(asked is PivotRegistryConfig),
            _ => true,
        },
    ensures
        all_of(question::answer_spec(cfg, q, reply), |step: StepView| building(step)),
{
    match q {
        QuestionView::Engine(asked) => builds_engine(cfg, asked, reply),
        QuestionView::Preflight(asked) => builds_preflight(cfg, asked, reply),
        QuestionView::Bootstrap(asked) => builds_bootstrap(cfg, asked, reply),
        QuestionView::Pivot(asked) => builds_pivot(cfg, asked, reply),
        _ => {},
    }
}

proof fn answers_pivot(cfg: Config, q: QuestionView, reply: ReplyView)
    requires
        of_bootstrap(q),
        !(q matches QuestionView::Bootstrap(asked) && asked is KindClusters),
    ensures
        all_of(question::answer_spec(cfg, q, reply), |step: StepView| pivoting(step)),
{
    match q {
        QuestionView::Pivot(PivotQuestionView::PivotRegistryConfig { preflight }) => {
            builds_target(cfg, preflight, reply);
        },
        _ => {
            answers_build(cfg, q, reply);
            pivots(question::answer_spec(cfg, q, reply));
        },
    }
}

// ---------------------------------------------------------------------------------------------
// The reuse of a cluster
// ---------------------------------------------------------------------------------------------
#[verifier::rlimit(60)]
proof fn answers_reuse(cfg: Config, q: QuestionView, reply: ReplyView)
    requires
        of_reuse(q),
    ensures
        all_of(question::answer_spec(cfg, q, reply), |step: StepView| reusing(step)),
{
    broadcast use group_all_of;

    lemma_other_words();
}

proof fn reuse_is_guarded(cfg: Config, first: spec_fn(Event) -> bool)
    ensures
        guarded(cfg, bootstrap::reuse_kind_spec(cfg), first, |a: ActionView| creates_kind(a)),
{
    broadcast use group_all_of;

    let kind = |step: StepView| reusing(step);
    let action = |a: ActionView| creates_kind(a);
    assert(tame(cfg, kind, first, action)) by {
        assert forall|q: QuestionView| (#[trigger] kind(StepView::Ask(q))) implies {
            ||| guards(cfg, seq![StepView::Ask(q)], first, action)
            ||| !action(question::action_spec(cfg, q)) && forall|reply: ReplyView|
                all_of(#[trigger] question::answer_spec(cfg, q, reply), kind)
        } by {
            actions_create_nothing(cfg, q);
            assert forall|reply: ReplyView|
                all_of(#[trigger] question::answer_spec(cfg, q, reply), kind) by {
                answers_reuse(cfg, q, reply);
            }
        }
    }
    lemma_other_words();
    let s = bootstrap::reuse_kind_spec(cfg);
    assert(all_of(s, kind));
    tame_guards(cfg, kind, first, action, s.steps);
}

/// A bootstrap that is not to recreate the kind cluster creates one only after a listing has shown
/// that there is none of its name, whatever the replies are: an existing cluster is reused.
pub proof fn law_existing_cluster_is_reused(cfg: Config, replies: Seq<ReplyView>)
    requires
        !cfg.recreate,
    ensures
        precedes(
            run(cfg, bootstrap::run_bootstrap_spec(cfg).steps, replies).events,
            |e: Event| shows_no_cluster(cfg, e),
            |a: ActionView| creates_kind(a),
        ),
{
    broadcast use group_all_of;

    let first = |e: Event| shows_no_cluster(cfg, e);
    let action = |a: ActionView| creates_kind(a);
    let kind = |step: StepView| pivoting(step);
    assert(tame(cfg, kind, first, action)) by {
        assert forall|q: QuestionView| (#[trigger] kind(StepView::Ask(q))) implies {
            ||| guards(cfg, seq![StepView::Ask(q)], first, action)
            ||| !action(question::action_spec(cfg, q)) && forall|reply: ReplyView|
                all_of(#[trigger] question::answer_spec(cfg, q, reply), kind)
        } by {
            actions_create_nothing(cfg, q);
            if q matches QuestionView::Bootstrap(asked) && asked is KindClusters {
                reuse_is_guarded(cfg, first);
                guarded_question(cfg, q, first, action);
            } else {
                assert forall|reply: ReplyView|
                    all_of(#[trigger] question::answer_spec(cfg, q, reply), kind) by {
                    answers_pivot(cfg, q, reply);
                }
            }
        }
    }
    lemma_other_words();
    let s = bootstrap::run_bootstrap_spec(cfg);
    assert(all_of(s, kind));
    tame_guards(cfg, kind, first, action, s.steps);
}

} // verus!
