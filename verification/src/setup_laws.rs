//! What holds of every bootstrap of an environment that has a task for its kind cluster: nothing is
//! installed before the task has succeeded.
use vstd::prelude::*;

use crate::bootstrap;
use crate::bootstrap::BootstrapQuestionView;
use crate::context::{GithubContextView, PreflightView};
use crate::engine;
use crate::engine::EngineQuestionView;
use crate::question;
use crate::question::QuestionView;
use crate::runs::{
    all_of, group_all_of, group_guarded, group_some_of, guarded, guarded_question, guards,
    owed_brings, owes, precedes, run, some_of, supplies, tame, tame_guards, Event,
};
use crate::script::{command, ActionView, ReplyView, RuleView, StepView};
use crate::settings::Config;

verus! {

/// Whether the action installs a chart: the Flux Operator is the first that is installed.
pub open spec fn installs_chart(action: ActionView) -> bool {
    match action.command() {
        Some(c) => c.program == "helm"@ && c.args.len() > 0 && c.args[0] == "upgrade"@,
        None => false,
    }
}

/// mise, running a task in the environment.
pub open spec fn run_task(cfg: Config, task: Seq<char>) -> ActionView {
    ActionView::Run(command("mise"@).arg("-E"@).arg(cfg.profile@).arg("run"@).arg(task))
}

/// Whether the event is the success of a task.
pub open spec fn task_succeeds(cfg: Config, task: Seq<char>, event: Event) -> bool {
    match event {
        Event::Performed(action, reply) => action == run_task(cfg, task) && reply.ok,
        _ => false,
    }
}

proof fn lemma_programs()
    ensures
        "kubectl"@ != "helm"@,
        "kind"@ != "helm"@,
        "mise"@ != "helm"@,
        "docker"@ != "helm"@,
        "podman"@ != "helm"@,
        "info"@ != "upgrade"@,
        "network"@ != "upgrade"@,
        "--version"@ != "upgrade"@,
        "ps"@ != "upgrade"@,
        "port"@ != "upgrade"@,
{
    reveal_strlit("helm");
    reveal_strlit("upgrade");
    reveal_strlit("kubectl");
    reveal_strlit("kind");
    reveal_strlit("mise");
    reveal_strlit("docker");
    reveal_strlit("podman");
    reveal_strlit("info");
    reveal_strlit("network");
    reveal_strlit("--version");
    reveal_strlit("ps");
    reveal_strlit("port");
    assert("helm"@.len() == 4 && "helm"@[0] == 'h');
    assert("upgrade"@.len() == 7 && "upgrade"@[0] == 'u');
    assert("kubectl"@.len() == 7 && "kubectl"@[0] == 'k');
    assert("kind"@.len() == 4 && "kind"@[0] == 'k');
    assert("mise"@.len() == 4 && "mise"@[0] == 'm');
    assert("docker"@.len() == 6 && "docker"@[0] == 'd');
    assert("podman"@.len() == 6 && "podman"@[0] == 'p');
    assert("info"@.len() == 4 && "info"@[0] == 'i');
    assert("network"@.len() == 7 && "network"@[0] == 'n');
    assert("--version"@.len() == 9 && "--version"@[0] == '-');
    assert("ps"@.len() == 2 && "ps"@[0] == 'p');
    assert("port"@.len() == 4 && "port"@[0] == 'p');
}

// ---------------------------------------------------------------------------------------------
// The kind cluster
// ---------------------------------------------------------------------------------------------
/// A step while the kind cluster is created or reused.
pub open spec fn of_cluster(step: StepView) -> bool {
    match step {
        StepView::Do(action, _) => !installs_chart(action),
        StepView::Ask(QuestionView::Bootstrap(q)) => match q {
            BootstrapQuestionView::KindClusters { .. } => true,
            BootstrapQuestionView::KindContext => true,
            BootstrapQuestionView::KindExport => true,
            BootstrapQuestionView::KindHealthContext => true,
            BootstrapQuestionView::KindHealthNodes => true,
            _ => false,
        },
        StepView::Ask(QuestionView::Engine(q)) => match q {
            EngineQuestionView::ToolboxId { .. } => true,
            EngineQuestionView::Member { .. } => true,
            EngineQuestionView::Connect { .. } => true,
            EngineQuestionView::MemberAfter { .. } => true,
            EngineQuestionView::KindKubeconfig { .. } => true,
            _ => false,
        },
        StepView::Ask(_) => false,
        _ => true,
    }
}

#[verifier::rlimit(60)]
proof fn cluster_answers(cfg: Config, q: QuestionView, reply: ReplyView)
    requires
        of_cluster(StepView::Ask(q)),
    ensures
        !installs_chart(question::action_spec(cfg, q)),
        all_of(question::answer_spec(cfg, q, reply), |step: StepView| of_cluster(step)),
{
    broadcast use group_all_of;

    lemma_programs();
}

proof fn cluster_is_guarded(cfg: Config, engine_sock: Seq<char>, first: spec_fn(Event) -> bool)
    ensures
        guarded(
            cfg,
            bootstrap::ensure_kind_cluster_spec(engine_sock),
            first,
            |a: ActionView| installs_chart(a),
        ),
{
    broadcast use group_all_of;

    let kind = |step: StepView| of_cluster(step);
    let action = |a: ActionView| installs_chart(a);
    assert(tame(cfg, kind, first, action)) by {
        assert forall|q: QuestionView| (#[trigger] kind(StepView::Ask(q))) implies !action(
            question::action_spec(cfg, q),
        ) && forall|reply: ReplyView|
            all_of(#[trigger] question::answer_spec(cfg, q, reply), kind) by {
            let some: ReplyView = arbitrary();
            cluster_answers(cfg, q, some);
            assert forall|reply: ReplyView|
                all_of(#[trigger] question::answer_spec(cfg, q, reply), kind) by {
                cluster_answers(cfg, q, reply);
            }
        }
    }
    let s = bootstrap::ensure_kind_cluster_spec(engine_sock);
    assert(all_of(s, kind));
    tame_guards(cfg, kind, first, action, s.steps);
}

// ---------------------------------------------------------------------------------------------
// The preflight
// ---------------------------------------------------------------------------------------------
proof fn task_is_supplied(cfg: Config, task: Seq<char>)
    requires
        cfg.environment.post_kind_create_task matches Some(name) && name@ == task,
    ensures
        supplies(
            cfg,
            bootstrap::post_kind_create_spec(cfg),
            |e: Event| task_succeeds(cfg, task, e),
        ),
{
    broadcast use group_some_of;

    let first = |e: Event| task_succeeds(cfg, task, e);
    let kind = |step: StepView|
        step is Fail || step == StepView::Do(run_task(cfg, task), RuleView::Require);
    let s = bootstrap::post_kind_create_spec(cfg);
    assert(owes(cfg, kind, first));
    assert(some_of(s, kind));
    owed_brings(cfg, kind, first, s.steps);
}

proof fn bootstrap_is_guarded(cfg: Config, task: Seq<char>, preflight: PreflightView)
    requires
        cfg.environment.post_kind_create_task matches Some(name) && name@ == task,
    ensures
        guarded(
            cfg,
            bootstrap::after_preflight_spec(cfg, preflight),
            |e: Event| task_succeeds(cfg, task, e),
            |a: ActionView| installs_chart(a),
        ),
{
    broadcast use group_guarded;

    let first = |e: Event| task_succeeds(cfg, task, e);
    let action = |a: ActionView| installs_chart(a);
    lemma_programs();
    task_is_supplied(cfg, task);
    cluster_is_guarded(cfg, preflight.engine_sock, first);
    assert(guarded(cfg, bootstrap::post_kind_create_spec(cfg), first, action));
}

/// A step of the preflight.
pub open spec fn of_preflight(step: StepView) -> bool {
    match step {
        StepView::Do(action, _) => !installs_chart(action),
        StepView::Ask(QuestionView::Preflight(_)) => true,
        StepView::Ask(QuestionView::Engine(q)) => match q {
            EngineQuestionView::DockerInfo { seeker } => seeker is Preflight,
            EngineQuestionView::DockerVersion { seeker } => seeker is Preflight,
            EngineQuestionView::PodmanInfo { seeker } => seeker is Preflight,
            EngineQuestionView::Reachable { .. } => true,
            EngineQuestionView::PodmanSocket { .. } => true,
            _ => false,
        },
        StepView::Ask(_) => false,
        _ => true,
    }
}

#[verifier::rlimit(60)]
proof fn preflight_answers(cfg: Config, q: QuestionView, reply: ReplyView)
    requires
        of_preflight(StepView::Ask(q)),
    ensures
        !installs_chart(question::action_spec(cfg, q)),
        match q {
            QuestionView::Engine(EngineQuestionView::Reachable { .. }) => true,
            QuestionView::Engine(EngineQuestionView::PodmanSocket { .. }) => true,
            _ => all_of(question::answer_spec(cfg, q, reply), |step: StepView| of_preflight(step)),
        },
{
    broadcast use group_all_of;

    lemma_programs();
}

proof fn socket_is_guarded(
    cfg: Config,
    task: Seq<char>,
    github: Option<GithubContextView>,
    engine: Seq<char>,
)
    requires
        cfg.environment.post_kind_create_task matches Some(name) && name@ == task,
    ensures
        guards(
            cfg,
            seq![
                StepView::Ask(
                    QuestionView::Engine(EngineQuestionView::PodmanSocket { github, engine }),
                ),
            ],
            |e: Event| task_succeeds(cfg, task, e),
            |a: ActionView| installs_chart(a),
        ),
{
    let first = |e: Event| task_succeeds(cfg, task, e);
    let action = |a: ActionView| installs_chart(a);
    let q = QuestionView::Engine(EngineQuestionView::PodmanSocket { github, engine });
    let some: ReplyView = arbitrary();
    preflight_answers(cfg, q, some);
    assert forall|reply: ReplyView|
        guarded(cfg, #[trigger] question::answer_spec(cfg, q, reply), first, action) by {
        broadcast use group_guarded;

        let sock = engine::podman_socket_spec(reply.stdout);
        bootstrap_is_guarded(cfg, task, engine::preflight_result(cfg, github, engine, sock));
        bootstrap_is_guarded(
            cfg,
            task,
            engine::preflight_result(cfg, github, engine, "/run/podman/podman.sock"@),
        );
    }
    guarded_question(cfg, q, first, action);
}

proof fn engine_is_guarded(
    cfg: Config,
    task: Seq<char>,
    github: Option<GithubContextView>,
    engine: Seq<char>,
)
    requires
        cfg.environment.post_kind_create_task matches Some(name) && name@ == task,
    ensures
        guards(
            cfg,
            seq![
                StepView::Ask(
                    QuestionView::Engine(EngineQuestionView::Reachable { github, engine }),
                ),
            ],
            |e: Event| task_succeeds(cfg, task, e),
            |a: ActionView| installs_chart(a),
        ),
{
    let first = |e: Event| task_succeeds(cfg, task, e);
    let action = |a: ActionView| installs_chart(a);
    let q = QuestionView::Engine(EngineQuestionView::Reachable { github, engine });
    let some: ReplyView = arbitrary();
    preflight_answers(cfg, q, some);
    assert forall|reply: ReplyView|
        guarded(cfg, #[trigger] question::answer_spec(cfg, q, reply), first, action) by {
        broadcast use group_guarded;

        socket_is_guarded(cfg, task, github, engine);
        bootstrap_is_guarded(
            cfg,
            task,
            engine::preflight_result(cfg, github, engine, "/var/run/docker.sock"@),
        );
        bootstrap_is_guarded(
            cfg,
            task,
            engine::preflight_result(cfg, github, engine, "/run/podman/podman.sock"@),
        );
    }
    guarded_question(cfg, q, first, action);
}

/// Where an environment has a task for its kind cluster, a chart is installed only after the task
/// has succeeded, whatever the replies are; the Flux Operator is among the charts. This holds where
/// the kind cluster is created and where it is reused.
pub proof fn law_task_succeeds_first(cfg: Config, replies: Seq<ReplyView>)
    requires
        cfg.environment.post_kind_create_task is Some,
    ensures
        precedes(
            run(cfg, bootstrap::run_bootstrap_spec(cfg).steps, replies).events,
            |e: Event| task_succeeds(cfg, cfg.environment.post_kind_create_task->0@, e),
            |a: ActionView| installs_chart(a),
        ),
{
    broadcast use group_all_of;

    let task = cfg.environment.post_kind_create_task->0@;
    let first = |e: Event| task_succeeds(cfg, task, e);
    let action = |a: ActionView| installs_chart(a);
    let kind = |step: StepView| of_preflight(step);
    assert(tame(cfg, kind, first, action)) by {
        assert forall|q: QuestionView| (#[trigger] kind(StepView::Ask(q))) implies {
            ||| guards(cfg, seq![StepView::Ask(q)], first, action)
            ||| !action(question::action_spec(cfg, q)) && forall|reply: ReplyView|
                all_of(#[trigger] question::answer_spec(cfg, q, reply), kind)
        } by {
            match q {
                QuestionView::Engine(EngineQuestionView::Reachable { github, engine }) => {
                    engine_is_guarded(cfg, task, github, engine);
                },
                QuestionView::Engine(EngineQuestionView::PodmanSocket { github, engine }) => {
                    socket_is_guarded(cfg, task, github, engine);
                },
                _ => {
                    let some: ReplyView = arbitrary();
                    preflight_answers(cfg, q, some);
                    assert forall|reply: ReplyView|
                        all_of(#[trigger] question::answer_spec(cfg, q, reply), kind) by {
                        preflight_answers(cfg, q, reply);
                    }
                },
            }
        }
    }
    let s = bootstrap::run_bootstrap_spec(cfg);
    assert(all_of(s, kind));
    tame_guards(cfg, kind, first, action, s.steps);
}

/// The command that installs the Flux Operator installs a chart.
pub proof fn law_flux_operator_is_a_chart(
    cfg: Config,
    version: Seq<char>,
    registry_config: Seq<char>,
    kubeconfig: Option<Seq<char>>,
)
    ensures
        installs_chart(
            ActionView::Run(
                bootstrap::flux_operator_command_spec(cfg, version, registry_config, kubeconfig),
            ),
        ),
{
}

} // verus!
