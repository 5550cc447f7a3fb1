//! Which way a run takes: how it goes on after a reply, and what it refuses from the start.
use vstd::prelude::*;

use crate::bootstrap;
use crate::bootstrap::BootstrapQuestionView;
use crate::checks::{capd_recorded_endpoint_spec, extract_workload_port_spec};
use crate::cleanup_laws::is_action;
use crate::cluster_laws::ask_bootstrap;
use crate::context::{PreflightView, SeekerView, TeardownConfigView};
use crate::demolition_laws::{ask_for, asked_once, provider_resource};
use crate::duties::{demanded_is_done, demands, done};
use crate::engine;
use crate::engine::EngineQuestionView;
use crate::engine_laws::{
    asks_engine, asks_version, engine_named, law_toolbox_joins_the_network, toolbox_is_member,
};
use crate::handover_laws::target_kubectl;
use crate::kube::K8sTargetView;
use crate::patience_laws::{has_listed, is_unknown, kubectl_to};
use crate::pivot;
use crate::pivot::PivotQuestionView;
use crate::question;
use crate::question::QuestionView;
use crate::runs::{group_some_of, happened, run, Event, Run};
use crate::script::{command, ActionView, ReplyView, RuleView, ScriptView, StepView};
use crate::session::judge_spec;
use crate::settings::Config;
use crate::stretches::{
    answered, failing_holds, finishes, group_holds, holds, holds_whole, question_is_answered,
};
use crate::teardown;
use crate::teardown::{ProviderKind, TeardownQuestionView};
use crate::text::{entries_spec, has_line_spec};

verus! {

// ---------------------------------------------------------------------------------------------
// The bootstrap
// ---------------------------------------------------------------------------------------------
/// The wait for the controllers of Flux.
pub open spec fn awaits_controllers(cfg: Config) -> ActionView {
    ActionView::Run(
        command("kubectl"@)
            .arg("wait"@).arg("--namespace"@).arg(cfg.repo.bootstrap.flux_namespace@)
            .arg("--for=condition=ready"@).arg("pod"@)
            .arg("--selector=app.kubernetes.io/part-of=flux"@).arg("--timeout=90s"@),
    )
}

/// The listing of the pods of Flux.
pub open spec fn lists_pods(cfg: Config) -> ActionView {
    ActionView::Run(
        command("kubectl"@)
            .arg("get"@).arg("pods"@).arg("--namespace"@).arg(cfg.repo.bootstrap.flux_namespace@),
    )
}

/// Controllers that are not ready in time do not end a bootstrap: it warns, lists the pods and goes
/// on to the same end as with controllers that are ready, where it says so.
pub proof fn law_slow_controllers_are_passed_over(
    cfg: Config,
    preflight: PreflightView,
    replies: Seq<ReplyView>,
)
    requires
        replies.len() >= 2,
    ensures
        ({
            let r = run(
                cfg,
                ask_bootstrap(
                    BootstrapQuestionView::ControllersReady {
                        kubeconfig: None,
                        resume: Some(preflight),
                    },
                ).steps,
                replies,
            );
            let asked = Event::Performed(awaits_controllers(cfg), replies[0]);
            if replies[0].ok {
                r == run(
                    cfg,
                    bootstrap::finish_bootstrap_spec(cfg, preflight, true).steps,
                    replies.skip(1),
                ).after(asked)
            } else {
                let on = run(
                    cfg,
                    bootstrap::finish_bootstrap_spec(cfg, preflight, false).steps,
                    replies.skip(2),
                );
                r.left == on.left && r.events.len() == on.events.len() + 3 && r.events[0] == asked
                    && r.events[1] is Reported && r.events[2] == Event::Performed(
                    lists_pods(cfg),
                    replies[1],
                ) && r.events.skip(3) == on.events
            }
        }),
{
    let q = QuestionView::Bootstrap(
        BootstrapQuestionView::ControllersReady { kubeconfig: None, resume: Some(preflight) },
    );
    asked_once(cfg, q, replies);
    let s = question::answer_spec(cfg, q, replies[0]).steps;
    let later = replies.skip(1);
    if !replies[0].ok {
        let end = bootstrap::finish_bootstrap_spec(cfg, preflight, false);
        let pods = lists_pods(cfg);
        let warned = run(cfg, s, later);
        let listed = s.skip(1);
        assert(s[0] is Report);
        assert(listed[0] == StepView::Do(pods, RuleView::Ignore));
        assert(judge_spec(pods, RuleView::Ignore, later[0]).steps =~= Seq::<StepView>::empty());
        assert(Seq::<StepView>::empty() + listed.skip(1) =~= end.steps);
        assert(later.skip(1) =~= replies.skip(2));
        let on = run(cfg, end.steps, replies.skip(2));
        assert(run(cfg, listed, later) == on.after(Event::Performed(pods, later[0])));
        let r = run(
            cfg,
            ask_bootstrap(
                BootstrapQuestionView::ControllersReady {
                    kubeconfig: None,
                    resume: Some(preflight),
                },
            ).steps,
            replies,
        );
        assert(r.events.skip(3) =~= on.events);
    }
}

/// The export of the kubeconfig of the kind cluster.
pub open spec fn exports_kind(cfg: Config) -> ActionView {
    ActionView::Quiet(
        command("kind"@)
            .arg("export"@).arg("kubeconfig"@).arg("--name"@)
            .arg(cfg.repo.bootstrap.kind_cluster@),
    )
}

/// That a missing context is exported.
pub open spec fn context_is_exported(cfg: Config) -> spec_fn(ReplyView, Seq<Event>) -> bool {
    |reply: ReplyView, events: Seq<Event>|
        reply.ok || happened(events, done(is_action(exports_kind(cfg))))
}

/// Where the context of a kind cluster that is reused cannot be used, its kubeconfig is exported with
/// success before the bootstrap goes on.
pub proof fn law_missing_context_is_exported(cfg: Config)
    ensures
        holds(
            cfg,
            bootstrap::reuse_kind_spec(cfg),
            answered(
                ActionView::Quiet(
                    command("kubectl"@)
                        .arg("config"@).arg("use-context"@).arg(cfg.repo.bootstrap.kind_context@),
                ),
                context_is_exported(cfg),
            ),
        ),
{
    broadcast use {group_holds, group_some_of};

    let q = QuestionView::Bootstrap(BootstrapQuestionView::KindContext);
    let export = QuestionView::Bootstrap(BootstrapQuestionView::KindExport);
    let rest = context_is_exported(cfg);
    let first = done(is_action(exports_kind(cfg)));
    assert forall|reply: ReplyView|
        first(Event::Performed(question::action_spec(cfg, export), reply))
            || crate::runs::supplies(
            cfg,
            #[trigger] question::answer_spec(cfg, export, reply),
            first,
        ) by {
        if !reply.ok {
            let s = question::answer_spec(cfg, export, reply);
            assert(s.steps[0] is Fail);
            crate::duties::failure_brings(cfg, s, first);
        }
    }
    crate::duties::brings_question(cfg, export, first);
    assert forall|reply: ReplyView|
        finishes(
            cfg,
            #[trigger] question::answer_spec(cfg, q, reply),
            |events: Seq<Event>| rest(reply, events),
        ) by {
        let s = question::answer_spec(cfg, q, reply);
        if !reply.ok {
            let start = ScriptView { steps: s.steps.take(1) };
            assert(s.steps =~= start.steps + seq![StepView::Ask(export)]);
            crate::runs::brings_concat(cfg, start.steps, seq![StepView::Ask(export)], first);
        }
    }
    question_is_answered(cfg, q, rest);
}

/// In the toolbox, a kind cluster that is created or reused is joined: the toolbox is on its network.
pub proof fn law_toolbox_joins_the_kind_cluster(cfg: Config, engine_sock: Seq<char>)
    requires
        cfg.toolbox,
    ensures
        ({
            let engine = match cfg.container_engine {
                Some(named) => named@,
                None => "docker"@,
            };
            let joined = answered(ActionView::ReadFile("/etc/hostname"@), toolbox_is_member(engine));
            &&& holds(cfg, bootstrap::create_kind_spec(cfg, engine_sock), joined)
            &&& holds(cfg, bootstrap::reuse_kind_spec(cfg), joined)
        }),
{
    broadcast use group_holds;

    let engine = match cfg.container_engine {
        Some(named) => named@,
        None => "docker"@,
    };
    let joined = answered(ActionView::ReadFile("/etc/hostname"@), toolbox_is_member(engine));
    law_toolbox_joins_the_network(cfg, engine);
    holds_whole(cfg, engine::toolbox_join_kind_network_spec(cfg, engine), joined);
    assert(holds(cfg, bootstrap::toolbox_enter_spec(cfg), joined));
}

/// Points the workload cluster of a kubeconfig at a server.
pub open spec fn points_workload_at(path: Seq<char>, server: Seq<char>) -> ActionView {
    ActionView::Capture(
        command("kubectl"@)
            .arg("config"@).arg("set-cluster"@).arg("local-workload"@).arg("--server="@ + server)
            .arg("--kubeconfig="@ + path),
    )
}

/// That the workload cluster is reached at the published port.
pub open spec fn workload_is_at_port(path: Seq<char>) -> spec_fn(ReplyView, Seq<Event>) -> bool {
    |reply: ReplyView, events: Seq<Event>|
        match extract_workload_port_spec(reply.stdout) {
            Some(port) => reply.ok && happened(
                events,
                done(is_action(points_workload_at(path, "https://127.0.0.1:"@ + port))),
            ),
            None => false,
        }
}

/// That the kubeconfig of the workload cluster is written as it was given; and that the workload
/// cluster is reached at the published port outside the toolbox, and at the endpoint that is recorded
/// there inside of it.
pub open spec fn workload_is_reached(cfg: Config, engine: Seq<char>, path: Seq<char>) -> spec_fn(
    ReplyView,
    Seq<Event>,
) -> bool {
    |reply: ReplyView, events: Seq<Event>|
        {
            &&& reply.ok
            &&& happened(events, done(is_action(ActionView::WriteFile(path, reply.stdout))))
            &&& if cfg.profile@ == "local-host"@ && !cfg.toolbox {
                crate::stretches::has_stretch(
                    events,
                    answered(
                        ActionView::Capture(
                            command(engine)
                                .arg("port"@).arg("local-workload-lb"@).arg("6443/tcp"@),
                        ),
                        workload_is_at_port(path),
                    ),
                )
            } else {
                match capd_recorded_endpoint_spec(reply.stdout) {
                    Some(server) => happened(
                        events,
                        done(is_action(points_workload_at(path, server))),
                    ),
                    None => false,
                }
            }
        }
}

/// The workload cluster is watched through a kubeconfig that is written as it was given, and at the
/// endpoint at which it can be reached.
pub proof fn law_workload_is_reached(cfg: Config, engine: Seq<char>, path: Seq<char>)
    ensures
        finishes(
            cfg,
            ask_bootstrap(BootstrapQuestionView::WorkloadKubeconfig { engine, path }),
            answered(
                ActionView::Capture(
                    command("clusterctl"@).arg("get"@).arg("kubeconfig"@).arg("local-workload"@),
                ),
                workload_is_reached(cfg, engine, path),
            ),
        ),
{
    broadcast use {group_some_of, group_holds};

    let port = QuestionView::Bootstrap(BootstrapQuestionView::WorkloadPort { engine, path });
    let at_port = workload_is_at_port(path);
    assert forall|reply: ReplyView|
        finishes(
            cfg,
            #[trigger] question::answer_spec(cfg, port, reply),
            |events: Seq<Event>| at_port(reply, events),
        ) by {
        let s = question::answer_spec(cfg, port, reply);
        match extract_workload_port_spec(reply.stdout) {
            Some(found) if reply.ok => {
                let wanted = is_action(points_workload_at(path, "https://127.0.0.1:"@ + found));
                assert(demands(wanted)(s.steps[0]));
                demanded_is_done(cfg, s, wanted);
            },
            _ => {
                assert(s.steps[0] is Fail);
                failing_holds(cfg, s, |events: Seq<Event>| at_port(reply, events));
            },
        }
    }
    question_is_answered(cfg, port, at_port);
    let q = QuestionView::Bootstrap(BootstrapQuestionView::WorkloadKubeconfig { engine, path });
    let rest = workload_is_reached(cfg, engine, path);
    assert forall|reply: ReplyView|
        finishes(
            cfg,
            #[trigger] question::answer_spec(cfg, q, reply),
            |events: Seq<Event>| rest(reply, events),
        ) by {
        let s = question::answer_spec(cfg, q, reply);
        if !reply.ok {
            assert(s.steps[0] is Fail);
            failing_holds(cfg, s, |events: Seq<Event>| rest(reply, events));
        } else {
            let write = is_action(ActionView::WriteFile(path, reply.stdout));
            assert(demands(write)(s.steps[0]));
            demanded_is_done(cfg, s, write);
            if !(cfg.profile@ == "local-host"@ && !cfg.toolbox) {
                match capd_recorded_endpoint_spec(reply.stdout) {
                    Some(server) => {
                        let wanted = is_action(points_workload_at(path, server));
                        assert(demands(wanted)(s.steps[1]));
                        demanded_is_done(cfg, s, wanted);
                    },
                    None => {
                        assert(s.steps[1] is Fail);
                        failing_holds(cfg, s, |events: Seq<Event>| rest(reply, events));
                    },
                }
            } else {
                let wanted = answered(
                    ActionView::Capture(
                        command(engine).arg("port"@).arg("local-workload-lb"@).arg("6443/tcp"@),
                    ),
                    at_port,
                );
                assert(holds(cfg, s, wanted));
            }
        }
    }
    question_is_answered(cfg, q, rest);
}

// ---------------------------------------------------------------------------------------------
// The pivot
// ---------------------------------------------------------------------------------------------
/// That the management cluster is reached at the published port.
pub open spec fn target_is_at_port(cfg: Config) -> spec_fn(ReplyView, Seq<Event>) -> bool {
    |reply: ReplyView, events: Seq<Event>|
        match extract_workload_port_spec(reply.stdout) {
            Some(port) => reply.ok && happened(
                events,
                done(
                    is_action(
                        ActionView::Run(
                            target_kubectl(cfg)
                                .arg("config"@).arg("set-cluster"@)
                                .arg(cfg.environment.mgmt_cluster@)
                                .arg("--server=https://127.0.0.1:"@ + port),
                        ),
                    ),
                ),
            ),
            None => false,
        }
}

/// In the local environment outside the toolbox, the exported kubeconfig is pointed at the published
/// port of the management cluster.
pub proof fn law_target_is_at_its_port(cfg: Config, engine: Seq<char>)
    requires
        cfg.profile@ == "local-host"@,
        !cfg.toolbox,
    ensures
        holds(
            cfg,
            pivot::pivot_export_kubeconfig_spec(cfg, engine),
            answered(
                ActionView::Capture(
                    command(engine)
                        .arg("port"@).arg(cfg.environment.mgmt_cluster@ + "-lb"@).arg("6443/tcp"@),
                ),
                target_is_at_port(cfg),
            ),
        ),
{
    broadcast use {group_some_of, group_holds};

    let port = QuestionView::Pivot(PivotQuestionView::MgmtPort { engine });
    let rest = target_is_at_port(cfg);
    assert forall|reply: ReplyView|
        finishes(
            cfg,
            #[trigger] question::answer_spec(cfg, port, reply),
            |events: Seq<Event>| rest(reply, events),
        ) by {
        let s = question::answer_spec(cfg, port, reply);
        match extract_workload_port_spec(reply.stdout) {
            Some(found) if reply.ok => {
                let wanted = is_action(
                    ActionView::Run(
                        target_kubectl(cfg)
                            .arg("config"@).arg("set-cluster"@).arg(cfg.environment.mgmt_cluster@)
                            .arg("--server=https://127.0.0.1:"@ + found),
                    ),
                );
                assert(demands(wanted)(s.steps[0]));
                demanded_is_done(cfg, s, wanted);
            },
            _ => {
                assert(s.steps[0] is Fail);
                failing_holds(cfg, s, |events: Seq<Event>| rest(reply, events));
            },
        }
    }
    question_is_answered(cfg, port, rest);
    let kind = answered(
        ActionView::Capture(
            command(engine)
                .arg("port"@).arg(cfg.environment.mgmt_cluster@ + "-lb"@).arg("6443/tcp"@),
        ),
        rest,
    );
    let q = QuestionView::Pivot(PivotQuestionView::MgmtKubeconfig { engine });
    assert forall|reply: ReplyView|
        holds(cfg, #[trigger] question::answer_spec(cfg, q, reply), kind) by {
        let s = question::answer_spec(cfg, q, reply);
        if !reply.ok {
            assert(s.steps[0] is Fail);
            failing_holds(cfg, s, kind);
        }
    }
    crate::stretches::holds_question(cfg, q, kind);
}

// ---------------------------------------------------------------------------------------------
// The teardown
// ---------------------------------------------------------------------------------------------
/// The listing of the kind clusters, for its success or for its output.
pub open spec fn asks_kind(shown: bool) -> ActionView {
    let c = command("kind"@).arg("get"@).arg("clusters"@);
    if shown {
        ActionView::Lossy(c)
    } else {
        ActionView::Quiet(c)
    }
}

/// The teardown of a local host works on the kind cluster where kind answers and lists it; otherwise
/// it works on the management cluster where its kubeconfig is there, and on none otherwise.
pub proof fn law_local_host_is_found(
    cfg: Config,
    knobs: TeardownConfigView,
    engine: Option<Seq<char>>,
    replies: Seq<ReplyView>,
)
    requires
        replies.len() >= 3,
    ensures
        ({
            let r = run(cfg, teardown::teardown_local_spec(cfg, knobs, engine).steps, replies);
            let asked = Event::Performed(asks_kind(false), replies[0]);
            let listed = Event::Performed(asks_kind(true), replies[1]);
            let file = ActionView::Exists(knobs.mgmt_kubeconfig);
            if replies[0].ok && has_line_spec(
                replies[1].stdout,
                cfg.repo.bootstrap.kind_cluster@,
            ) {
                r == run(
                    cfg,
                    teardown::teardown_local_kind_spec(cfg, engine).steps,
                    replies.skip(2),
                ).after(listed).after(asked)
            } else if replies[0].ok {
                r == run(
                    cfg,
                    teardown::teardown_local_pivoted_spec(cfg, knobs, engine, replies[2].ok).steps,
                    replies.skip(3),
                ).after(Event::Performed(file, replies[2])).after(listed).after(asked)
            } else {
                r == run(
                    cfg,
                    teardown::teardown_local_pivoted_spec(cfg, knobs, engine, replies[1].ok).steps,
                    replies.skip(2),
                ).after(Event::Performed(file, replies[1])).after(asked)
            }
        }),
{
    let answers = QuestionView::Teardown(TeardownQuestionView::KindAnswers { knobs, engine });
    let present = QuestionView::Teardown(TeardownQuestionView::KindPresent { knobs, engine });
    let file = QuestionView::Teardown(TeardownQuestionView::LocalMgmtFile { knobs, engine });
    asked_once(cfg, answers, replies);
    assert(replies.skip(1).skip(1) =~= replies.skip(2));
    assert(replies.skip(2).skip(1) =~= replies.skip(3));
    if replies[0].ok {
        asked_once(cfg, present, replies.skip(1));
        asked_once(cfg, file, replies.skip(2));
    } else {
        asked_once(cfg, file, replies.skip(1));
    }
}

/// Where the operator names no engine, the teardown of a local host works with Docker if it runs (or
/// Podman, if that is what answers to its name), with Podman if only that runs, and with none, after
/// a warning, if neither does.
pub proof fn law_teardown_takes_the_running_engine(
    cfg: Config,
    knobs: TeardownConfigView,
    replies: Seq<ReplyView>,
)
    requires
        cfg.container_engine is None,
        replies.len() >= 2,
    ensures
        ({
            let r = run(cfg, engine::detect_engine_spec(cfg, knobs).steps, replies);
            let first = Event::Performed(asks_engine("docker"@), replies[0]);
            let named = Some(engine_named(replies[1].stdout));
            let podman = Some("podman"@);
            let none: Option<Seq<char>> = None;
            if replies[0].ok {
                r == run(
                    cfg,
                    teardown::teardown_local_spec(cfg, knobs, named).steps,
                    replies.skip(2),
                ).after(Event::Performed(asks_version(), replies[1])).after(first)
            } else if replies[1].ok {
                r == run(
                    cfg,
                    teardown::teardown_local_spec(cfg, knobs, podman).steps,
                    replies.skip(2),
                ).after(Event::Performed(asks_engine("podman"@), replies[1])).after(first)
            } else {
                let on = run(
                    cfg,
                    teardown::teardown_local_spec(cfg, knobs, none).steps,
                    replies.skip(2),
                );
                r.left == on.left && r.events.len() == on.events.len() + 3
                    && r.events[2] is Reported && r.events.skip(3) == on.events
            }
        }),
{
    reveal_strlit("");
    let seeker = SeekerView::Teardown { knobs };
    let docker = QuestionView::Engine(EngineQuestionView::DockerInfo { seeker });
    let version = QuestionView::Engine(EngineQuestionView::DockerVersion { seeker });
    let podman = QuestionView::Engine(EngineQuestionView::PodmanInfo { seeker });
    asked_once(cfg, docker, replies);
    assert(replies.skip(1).skip(1) =~= replies.skip(2));
    if replies[0].ok {
        asked_once(cfg, version, replies.skip(1));
    } else {
        asked_once(cfg, podman, replies.skip(1));
        if !replies[1].ok {
            let none: Option<Seq<char>> = None;
            let plain = teardown::teardown_local_spec(cfg, knobs, none);
            let s = question::answer_spec(cfg, podman, replies[1]).steps;
            assert(s[0] is Report);
            assert(s.skip(1) =~= plain.steps);
            let warned = run(cfg, s, replies.skip(2));
            let on = run(cfg, plain.steps, replies.skip(2));
            let r = run(cfg, engine::detect_engine_spec(cfg, knobs).steps, replies);
            assert(r.events.skip(3) =~= on.events);
        }
    }
}

/// Whether a run fails before it performs anything.
pub open spec fn refused(r: Run) -> bool {
    r.left is None && forall|i: int|
        0 <= i < r.events.len() ==> !((#[trigger] r.events[i]) is Performed)
}

/// A teardown of AWS alone is refused without the AWS CLI, and where the environment is local or
/// releases hardware: nothing is performed then.
pub proof fn law_aws_only_is_refused(
    cfg: Config,
    knobs: TeardownConfigView,
    aws: bool,
    replies: Seq<ReplyView>,
)
    requires
        knobs.aws_only,
        !aws || cfg.profile@ == "local-host"@ || cfg.environment.teardown.hardware_release,
    ensures
        refused(run(cfg, teardown::teardown_preflight_spec(cfg, knobs, aws).steps, replies)),
{
    let s = teardown::teardown_preflight_spec(cfg, knobs, aws).steps;
    reveal_with_fuel(run, 2);
    if aws {
        assert(s.len() == 2 && s[0] is Say && s[1] is Fail);
        assert(s.skip(1)[0] is Fail);
    } else {
        assert(s.len() == 1 && s[0] is Fail);
    }
}

/// The wait for the providers, from a kind of provider on, with some counted.
pub open spec fn providers_wait(
    target: K8sTargetView,
    timeout: u64,
    kind: ProviderKind,
    remaining: u64,
) -> Seq<StepView> {
    ask_for(TeardownQuestionView::ProvidersLeft { target, timeout, kind, remaining }).steps
}

/// The listing of the providers of a kind that are left.
pub open spec fn lists_left(target: K8sTargetView, kind: ProviderKind) -> ActionView {
    ActionView::Inspect(
        kubectl_to(target)
            .arg("get"@).arg(provider_resource(kind)).arg("-A"@).arg("--no-headers"@)
            .arg("--request-timeout=30s"@),
    )
}

/// How many providers a listing shows.
pub open spec fn shown(reply: ReplyView) -> int {
    if has_listed(reply) {
        entries_spec(reply.stdout).len() as int
    } else {
        0
    }
}

/// The wait for the providers counts what is left of one kind after the other. Once all kinds are
/// counted it ends if none is left, or if the time is over; else it sleeps 15 seconds and counts anew
/// from the first kind. A listing that fails ends the run.
pub proof fn law_providers_are_counted(
    cfg: Config,
    target: K8sTargetView,
    timeout: u64,
    kind: ProviderKind,
    remaining: u64,
    replies: Seq<ReplyView>,
)
    requires
        replies.len() >= 2,
        remaining + shown(replies[0]) <= u64::MAX,
    ensures
        ({
            let r = run(cfg, providers_wait(target, timeout, kind, remaining), replies);
            let listed = Event::Performed(lists_left(target, kind), replies[0]);
            let total = (remaining + shown(replies[0])) as u64;
            let next = match kind {
                ProviderKind::Addon => ProviderKind::ControlPlane,
                ProviderKind::ControlPlane => ProviderKind::Bootstrap,
                ProviderKind::Bootstrap => ProviderKind::Infrastructure,
                _ => ProviderKind::Core,
            };
            if is_unknown(replies[0]) {
                r.left is None && r.events.len() == 2 && r.events[1] is Failed
            } else if kind != ProviderKind::Core {
                r == run(
                    cfg,
                    providers_wait(target, timeout, next, total),
                    replies.skip(1),
                ).after(listed)
            } else if total == 0 || replies[0].elapsed >= timeout {
                r.left == Some(replies.skip(1)) && r.events.len() == 2 && r.events[0] == listed && (
                total == 0 <==> r.events[1] is Said)
            } else {
                let again = run(
                    cfg,
                    providers_wait(target, timeout, ProviderKind::Addon, 0),
                    replies.skip(2),
                );
                r.left == again.left && r.events.len() == again.events.len() + 3 && r.events[0]
                    == listed && r.events[2] == Event::Performed(
                    ActionView::Sleep(15),
                    replies[1],
                ) && r.events.skip(3) == again.events
            }
        }),
{
    let q = QuestionView::Teardown(
        TeardownQuestionView::ProvidersLeft { target, timeout, kind, remaining },
    );
    crate::demolition_laws::helm_is_bound(target);
    assert(kind.resource_spec() == provider_resource(kind));
    assert(question::action_spec(cfg, q) == lists_left(target, kind));
    asked_once(cfg, q, replies);
    let r = run(cfg, providers_wait(target, timeout, kind, remaining), replies);
    let s = question::answer_spec(cfg, q, replies[0]).steps;
    let later = replies.skip(1);
    let rest = run(cfg, s, later);
    let total = (remaining + shown(replies[0])) as u64;
    if is_unknown(replies[0]) {
        assert(s.len() == 1 && s[0] is Fail);
    } else if kind == ProviderKind::Core {
        if total == 0 || replies[0].elapsed >= timeout {
            assert(s.len() == 1);
            assert(s.skip(1) =~= Seq::<StepView>::empty());
            assert(run(cfg, s.skip(1), later).left == Some(later));
        } else {
            let asleep = s.skip(1);
            let start = providers_wait(target, timeout, ProviderKind::Addon, 0);
            assert(s[0] is Say);
            assert(asleep[0] == StepView::Do(ActionView::Sleep(15), RuleView::Ignore));
            assert(judge_spec(ActionView::Sleep(15), RuleView::Ignore, later[0]).steps
                =~= Seq::<StepView>::empty());
            assert(Seq::<StepView>::empty() + asleep.skip(1) =~= start);
            assert(later.skip(1) =~= replies.skip(2));
            let again = run(cfg, start, replies.skip(2));
            assert(run(cfg, asleep, later) == again.after(
                Event::Performed(ActionView::Sleep(15), later[0]),
            ));
            assert(r.events.skip(3) =~= again.events);
        }
    }
}

// ---------------------------------------------------------------------------------------------
// The whole teardown
// ---------------------------------------------------------------------------------------------
/// A teardown that is not manual turns the pager of the AWS CLI off, looks for the AWS CLI, and goes
/// on with what it found.
pub proof fn law_teardown_looks_for_the_cli(
    cfg: Config,
    knobs: TeardownConfigView,
    replies: Seq<ReplyView>,
)
    requires
        cfg.environment.teardown.manual is None,
        replies.len() >= 2,
    ensures
        run(cfg, teardown::run_teardown_spec(cfg, knobs).steps, replies) == run(
            cfg,
            teardown::teardown_preflight_spec(cfg, knobs, replies[1].ok).steps,
            replies.skip(2),
        ).after(Event::Performed(ActionView::Find("aws"@), replies[1])).after(
            Event::Performed(ActionView::SetVar("AWS_PAGER"@, ""@), replies[0]),
        ),
{
    let q = QuestionView::Teardown(TeardownQuestionView::AwsCli { knobs });
    let s = teardown::run_teardown_spec(cfg, knobs).steps;
    let set = ActionView::SetVar("AWS_PAGER"@, ""@);
    let later = replies.skip(1);
    assert(s[0] == StepView::Do(set, RuleView::Ignore));
    assert(judge_spec(set, RuleView::Ignore, replies[0]).steps =~= Seq::<StepView>::empty());
    assert(Seq::<StepView>::empty() + s.skip(1) =~= ScriptView::new().ask(q).steps);
    asked_once(cfg, q, later);
    assert(later.skip(1) =~= replies.skip(2));
}

/// After its preflight a teardown does all that its mode does: that of a local host looks for an
/// engine, that of AWS alone sweeps without a host, and every other one looks for its host, on which
/// it releases hardware where the environment holds some, and works on AWS otherwise.
pub proof fn law_teardown_takes_its_mode(
    cfg: Config,
    knobs: TeardownConfigView,
    aws: bool,
    host: crate::kube::ControllerHost,
    kind: spec_fn(Seq<Event>) -> bool,
)
    ensures
        ({
            let whole = teardown::teardown_preflight_spec(cfg, knobs, aws);
            let local = cfg.profile@ == "local-host"@;
            let hardware = cfg.environment.teardown.hardware_release;
            let none = crate::kube::ControllerHost::Unreachable;
            &&& local && !knobs.aws_only && holds(
                cfg,
                engine::detect_engine_spec(cfg, knobs),
                kind,
            ) ==> holds(cfg, whole, kind)
            &&& !local && !knobs.aws_only && holds(
                cfg,
                teardown::discover_controller_host_spec(knobs, aws),
                kind,
            ) ==> holds(cfg, whole, kind)
            &&& !local && !hardware && knobs.aws_only && aws && holds(
                cfg,
                teardown::teardown_aws_spec(cfg, knobs, aws, none),
                kind,
            ) ==> holds(cfg, whole, kind)
            &&& hardware && holds(
                cfg,
                teardown::release_hardware_spec(cfg, knobs, host),
                kind,
            ) ==> holds(cfg, teardown::host_found_spec(cfg, knobs, aws, host), kind)
            &&& !hardware && holds(
                cfg,
                teardown::teardown_aws_spec(cfg, knobs, aws, host),
                kind,
            ) ==> holds(cfg, teardown::host_found_spec(cfg, knobs, aws, host), kind)
        }),
{
    broadcast use group_holds;

}

/// Whether a run performs an action and goes on, and says so if it succeeded and reports it if not.
pub open spec fn tells(r: Run, action: ActionView, reply: ReplyView) -> bool {
    &&& r.left is Some
    &&& r.events.len() == 2
    &&& r.events[0] == Event::Performed(action, reply)
    &&& if reply.ok {
        r.events[1] is Said
    } else {
        r.events[1] is Reported
    }
}

proof fn outcome_is_told(cfg: Config, q: TeardownQuestionView, reply: ReplyView)
    requires
        ({
            let s = teardown::answer_spec(cfg, q, reply).steps;
            s.len() == 1 && if reply.ok {
                s[0] is Say
            } else {
                s[0] is Report
            }
        }),
    ensures
        tells(
            run(cfg, ask_for(q).steps, seq![reply]),
            teardown::action_spec(cfg, q),
            reply,
        ),
{
    let asked = QuestionView::Teardown(q);
    let replies = seq![reply];
    asked_once(cfg, asked, replies);
    let s = question::answer_spec(cfg, asked, reply).steps;
    let later = replies.skip(1);
    let told = run(cfg, s, later);
    assert(s.skip(1) =~= Seq::<StepView>::empty());
    assert(run(cfg, s.skip(1), later).left is Some);
}

/// What a teardown removes is best effort, and each outcome is told: a success is said and a failure
/// is reported, of a Helm release, of the kind cluster, of containers and of the registry.
pub proof fn law_outcomes_are_told(
    cfg: Config,
    target: K8sTargetView,
    engine: Seq<char>,
    name: Seq<char>,
    names: Seq<Seq<char>>,
    reply: ReplyView,
)
    ensures
        ({
            let release = TeardownQuestionView::HelmUninstall { target, release: name };
            let kind = TeardownQuestionView::KindDelete;
            let containers = TeardownQuestionView::ContainersRemoved { engine, names };
            let registry = TeardownQuestionView::RegistryRemoved { engine, name };
            let replies = seq![reply];
            &&& tells(
                run(cfg, ask_for(release).steps, replies),
                teardown::action_spec(cfg, release),
                reply,
            )
            &&& tells(
                run(cfg, ask_for(kind).steps, replies),
                teardown::action_spec(cfg, kind),
                reply,
            )
            &&& tells(
                run(cfg, ask_for(containers).steps, replies),
                teardown::action_spec(cfg, containers),
                reply,
            )
            &&& tells(
                run(cfg, ask_for(registry).steps, replies),
                teardown::action_spec(cfg, registry),
                reply,
            )
        }),
{
    outcome_is_told(cfg, TeardownQuestionView::HelmUninstall { target, release: name }, reply);
    outcome_is_told(cfg, TeardownQuestionView::KindDelete, reply);
    outcome_is_told(cfg, TeardownQuestionView::ContainersRemoved { engine, names }, reply);
    outcome_is_told(cfg, TeardownQuestionView::RegistryRemoved { engine, name }, reply);
}

} // verus!
