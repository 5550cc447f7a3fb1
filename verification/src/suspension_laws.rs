//! What holds of every teardown: Flux is suspended before a cluster is deleted, so that nothing is
//! created anew.
use vstd::prelude::*;

use crate::commands::kubectl_on_spec;
use crate::context::{SeekerView, TeardownConfigView};
use crate::engine;
use crate::engine::EngineQuestionView;
use crate::kube::{probe_spec, ControllerHost, K8sTargetView, ProbeOutcome};
use crate::question;
use crate::question::QuestionView;
use crate::runs::{
    all_of, group_all_of, group_guarded, group_some_of, guarded, guarded_question, owed_brings,
    owes, precedes, run, some_of, supplies, tame, tame_guards, Event,
};
use crate::script::{ActionView, CommandView, ReplyView, RuleView, ScriptView, StepView};
use crate::settings::Config;
use crate::sweep;
use crate::sweep_laws::{
    best_effort, law_sweep_answers_are_best_effort, law_sweep_asks_aws, law_sweep_is_best_effort,
};
use crate::teardown;
use crate::teardown::{resolve_target_spec, TeardownQuestionView};
use crate::teardown_laws::{
    deletes_kind, finds_host, lemma_names, search_is_guarded, teardown_is_guarded,
};
use crate::text::names_spec;

verus! {

/// Whether the action deletes a cluster: the kind cluster, or a CAPI cluster of a target.
pub open spec fn deletes_cluster(action: ActionView) -> bool {
    ||| deletes_kind(action)
    ||| match action.command() {
        Some(c) => {
            &&& c.program == "kubectl"@
            &&& c.args.len() > 3
            &&& c.args[0] == "--context"@ || c.args[0] == "--kubeconfig"@
            &&& c.args[2] == "delete"@
            &&& c.args[3] == "cluster"@
        },
        None => false,
    }
}

proof fn lemma_kubectl_words()
    ensures
        "aws"@ != "kubectl"@,
        "helm"@ != "kubectl"@,
        "kind"@ != "kubectl"@,
        "docker"@ != "kubectl"@,
        "podman"@ != "kubectl"@,
        "ps"@ != "--context"@,
        "ps"@ != "--kubeconfig"@,
        "rm"@ != "--context"@,
        "rm"@ != "--kubeconfig"@,
        "network"@ != "--context"@,
        "network"@ != "--kubeconfig"@,
        "info"@ != "--context"@,
        "info"@ != "--kubeconfig"@,
        "config"@ != "--context"@,
        "config"@ != "--kubeconfig"@,
        "--version"@ != "--context"@,
        "--version"@ != "--kubeconfig"@,
        "get"@ != "delete"@,
        "patch"@ != "delete"@,
        "cluster-info"@ != "delete"@,
{
    reveal_strlit("kubectl");
    reveal_strlit("delete");
    reveal_strlit("--context");
    reveal_strlit("--kubeconfig");
    reveal_strlit("aws");
    reveal_strlit("helm");
    reveal_strlit("kind");
    reveal_strlit("docker");
    reveal_strlit("podman");
    reveal_strlit("ps");
    reveal_strlit("rm");
    reveal_strlit("network");
    reveal_strlit("info");
    reveal_strlit("config");
    reveal_strlit("--version");
    reveal_strlit("get");
    reveal_strlit("patch");
    reveal_strlit("cluster-info");
    assert("kubectl"@.len() == 7 && "kubectl"@[0] == 'k');
    assert("delete"@.len() == 6 && "delete"@[0] == 'd');
    assert("--context"@.len() == 9 && "--context"@[0] == '-');
    assert("--kubeconfig"@.len() == 12 && "--kubeconfig"@[0] == '-');
    assert("aws"@.len() == 3 && "aws"@[0] == 'a');
    assert("helm"@.len() == 4 && "helm"@[0] == 'h');
    assert("kind"@.len() == 4 && "kind"@[0] == 'k');
    assert("docker"@.len() == 6 && "docker"@[0] == 'd');
    assert("podman"@.len() == 6 && "podman"@[0] == 'p');
    assert("ps"@.len() == 2 && "ps"@[0] == 'p');
    assert("rm"@.len() == 2 && "rm"@[0] == 'r');
    assert("network"@.len() == 7 && "network"@[0] == 'n');
    assert("config"@.len() == 6 && "config"@[0] == 'c');
    assert("info"@.len() == 4 && "info"@[0] == 'i');
    assert("--version"@.len() == 9 && "--version"@[0] == '-');
    assert("get"@.len() == 3 && "get"@[0] == 'g');
    assert("patch"@.len() == 5 && "patch"@[0] == 'p');
    assert("cluster-info"@.len() == 12 && "cluster-info"@[0] == 'c');
    assert("--version"@[2] == 'v' && "--context"@[2] == 'c');
}

// ---------------------------------------------------------------------------------------------
// Steps that delete no cluster
// ---------------------------------------------------------------------------------------------
/// The questions of the teardown that never lead to the deletion of a cluster.
pub open spec fn spares_clusters(q: QuestionView) -> bool {
    match q {
        QuestionView::Sweep(_) => true,
        QuestionView::Engine(q) => match q {
            EngineQuestionView::ToolboxId { .. } => true,
            EngineQuestionView::Member { .. } => true,
            EngineQuestionView::Connect { .. } => true,
            EngineQuestionView::MemberAfter { .. } => true,
            EngineQuestionView::KindKubeconfig { .. } => true,
            _ => false,
        },
        QuestionView::Teardown(q) => match q {
            TeardownQuestionView::FluxKustomizations { .. } => true,
            TeardownQuestionView::Suspended { .. } => true,
            TeardownQuestionView::MgmtContainers { .. } => true,
            TeardownQuestionView::ContainersRemoved { .. } => true,
            TeardownQuestionView::RegistryThere { .. } => true,
            TeardownQuestionView::RegistryRemoved { .. } => true,
            _ => false,
        },
        _ => false,
    }
}

/// A step that neither deletes a cluster nor leads to it.
pub open spec fn sparing(step: StepView) -> bool {
    match step {
        StepView::Do(action, _) => !deletes_cluster(action),
        StepView::Ask(q) => spares_clusters(q),
        _ => true,
    }
}

proof fn sparing_question(cfg: Config, q: QuestionView, reply: ReplyView)
    requires
        spares_clusters(q),
    ensures
        !deletes_cluster(question::action_spec(cfg, q)),
        all_of(question::answer_spec(cfg, q, reply), |step: StepView| sparing(step)),
{
    broadcast use group_all_of;

    lemma_names();
    lemma_kubectl_words();
    if let QuestionView::Sweep(asked) = q {
        law_sweep_asks_aws(cfg, asked);
        law_sweep_answers_are_best_effort(cfg, asked, reply);
        swept_is_sparing(question::answer_spec(cfg, q, reply));
    }
}

proof fn swept_is_sparing(s: ScriptView)
    requires
        all_of(s, |step: StepView| best_effort(step)),
    ensures
        all_of(s, |step: StepView| sparing(step)),
{
    lemma_names();
    lemma_kubectl_words();
    assert forall|i: int| 0 <= i < s.steps.len() implies sparing(#[trigger] s.steps[i]) by {
        assert((|step: StepView| best_effort(step))(s.steps[i]));
    }
}

proof fn sparing_is_guarded(cfg: Config, s: ScriptView, first: spec_fn(Event) -> bool)
    requires
        all_of(s, |step: StepView| sparing(step)),
    ensures
        guarded(cfg, s, first, |a: ActionView| deletes_cluster(a)),
{
    let kind = |step: StepView| sparing(step);
    let action = |a: ActionView| deletes_cluster(a);
    assert(tame(cfg, kind, first, action)) by {
        assert forall|q: QuestionView| (#[trigger] kind(StepView::Ask(q))) implies !action(
            question::action_spec(cfg, q),
        ) && forall|reply: ReplyView|
            all_of(#[trigger] question::answer_spec(cfg, q, reply), kind) by {
            let some: ReplyView = arbitrary();
            sparing_question(cfg, q, some);
            assert forall|reply: ReplyView|
                all_of(#[trigger] question::answer_spec(cfg, q, reply), kind) by {
                sparing_question(cfg, q, reply);
            }
        }
    }
    tame_guards(cfg, kind, first, action, s.steps);
}

// ---------------------------------------------------------------------------------------------
// The suspension of Flux
// ---------------------------------------------------------------------------------------------
/// kubectl, listing the Kustomizations of a target.
pub open spec fn list_flux(target: K8sTargetView) -> CommandView {
    kubectl_on_spec(target).arg("get"@).arg("kustomizations.kustomize.toolkit.fluxcd.io"@).arg(
        "-n"@,
    ).arg("flux-system"@).arg("-o"@).arg("name"@).arg("--request-timeout=30s"@)
}

/// kubectl, suspending one Kustomization of a target.
pub open spec fn suspend_one(target: K8sTargetView, name: Seq<char>) -> CommandView {
    kubectl_on_spec(target).arg("patch"@).arg("kustomization/"@ + name).arg("-n"@).arg(
        "flux-system"@,
    ).arg("--type"@).arg("merge"@).arg("-p"@).arg("{\"spec\":{\"suspend\":true}}"@)
}

/// Whether the event is a listing of the Kustomizations whose outcome is known, and shows what holds.
pub open spec fn lists_flux(event: Event, holds: spec_fn(Seq<Seq<char>>) -> bool) -> bool {
    match event {
        Event::Performed(ActionView::Inspect(c), reply) => {
            let outcome = probe_spec(reply.ok, reply.stdout, reply.stderr, false);
            &&& exists|target: K8sTargetView| c == #[trigger] list_flux(target)
            &&& outcome != ProbeOutcome::Error
            &&& holds(
                if outcome == ProbeOutcome::Present {
                    names_spec(reply.stdout)
                } else {
                    Seq::empty()
                },
            )
        },
        _ => false,
    }
}

/// Whether the event is that a Kustomization is told to be suspended.
pub open spec fn suspends(event: Event, name: Seq<char>) -> bool {
    match event {
        Event::Performed(ActionView::Run(c), _) => exists|target: K8sTargetView|
            c == #[trigger] suspend_one(target, name),
        _ => false,
    }
}

/// Whether the event settles a Kustomization: it is told to be suspended, or a listing whose outcome
/// is known does not show it.
pub open spec fn settles(event: Event, name: Seq<char>) -> bool {
    ||| suspends(event, name)
    ||| lists_flux(event, |found: Seq<Seq<char>>| !found.contains(name))
}

/// A step that owes the suspension of a Kustomization.
pub open spec fn owes_suspension(step: StepView, wanted: Seq<char>) -> bool {
    match step {
        StepView::Fail(_) => true,
        StepView::Ask(QuestionView::Teardown(q)) => match q {
            TeardownQuestionView::FluxKustomizations { .. } => true,
            TeardownQuestionView::Suspended { name, rest, .. } => name == wanted || rest.contains(
                wanted,
            ),
            _ => false,
        },
        _ => false,
    }
}

proof fn rest_owes(target: K8sTargetView, rest: Seq<Seq<char>>, failed: bool, wanted: Seq<char>)
    requires
        rest.contains(wanted),
    ensures
        some_of(
            teardown::suspend_next_spec(target, rest, failed),
            |step: StepView| owes_suspension(step, wanted),
        ),
{
    broadcast use group_some_of;

    let i = choose|i: int| 0 <= i < rest.len() && rest[i] == wanted;
    if i > 0 {
        assert(rest.skip(1)[i - 1] == wanted);
    }
}

proof fn flux_is_supplied(cfg: Config, target: K8sTargetView, name: Seq<char>)
    ensures
        supplies(cfg, teardown::suspend_flux_spec(target), |e: Event| settles(e, name)),
        supplies(
            cfg,
            teardown::suspend_flux_spec(target),
            |e: Event| lists_flux(e, |found: Seq<Seq<char>>| true),
        ),
{
    let first = |e: Event| settles(e, name);
    let kind = |step: StepView| owes_suspension(step, name);
    let s = teardown::suspend_flux_spec(target);
    assert(owes(cfg, kind, first)) by {
        assert forall|q: QuestionView, reply: ReplyView| kind(StepView::Ask(q)) implies first(
            Event::Performed(question::action_spec(cfg, q), reply),
        ) || some_of(#[trigger] question::answer_spec(cfg, q, reply), kind) by {
            broadcast use group_some_of;

            if let QuestionView::Teardown(asked) = q {
                match asked {
                    TeardownQuestionView::FluxKustomizations { target } => {
                        assert(question::action_spec(cfg, q) == ActionView::Inspect(
                            list_flux(target),
                        ));
                        let found = names_spec(reply.stdout);
                        if found.contains(name) {
                            rest_owes(target, found, false, name);
                        }
                    },
                    TeardownQuestionView::Suspended { target, name: asked, rest, failed } => {
                        assert(question::action_spec(cfg, q) == ActionView::Run(
                            suspend_one(target, asked),
                        ));
                        if asked != name {
                            rest_owes(target, rest, failed || !reply.ok, name);
                        }
                    },
                    _ => {},
                }
            }
        }
    }
    assert(some_of(s, kind)) by {
        broadcast use group_some_of;

    }
    owed_brings(cfg, kind, first, s.steps);
    let listed = |e: Event| lists_flux(e, |found: Seq<Seq<char>>| true);
    let listing = |step: StepView| lists_or_fails(step);
    assert(owes(cfg, listing, listed)) by {
        assert forall|q: QuestionView, reply: ReplyView| listing(StepView::Ask(q)) implies listed(
            Event::Performed(question::action_spec(cfg, q), reply),
        ) || some_of(#[trigger] question::answer_spec(cfg, q, reply), listing) by {
            broadcast use group_some_of;

            if let QuestionView::Teardown(
                TeardownQuestionView::FluxKustomizations { target },
            ) = q {
                assert(question::action_spec(cfg, q) == ActionView::Inspect(list_flux(target)));
            }
        }
    }
    assert(some_of(s, listing)) by {
        broadcast use group_some_of;

    }
    owed_brings(cfg, listing, listed, s.steps);
}

/// A step that ends the run or lists the Kustomizations.
pub open spec fn lists_or_fails(step: StepView) -> bool {
    match step {
        StepView::Fail(_) => true,
        StepView::Ask(QuestionView::Teardown(q)) => q is FluxKustomizations,
        _ => false,
    }
}

// ---------------------------------------------------------------------------------------------
// AWS and bare metal
// ---------------------------------------------------------------------------------------------
proof fn host_is_guarded(
    cfg: Config,
    knobs: TeardownConfigView,
    aws: bool,
    host: ControllerHost,
    first: spec_fn(Event) -> bool,
)
    requires
        knobs.aws_only ==> host == ControllerHost::Unreachable,
        forall|target: K8sTargetView|
            supplies(cfg, #[trigger] teardown::suspend_flux_spec(target), first),
    ensures
        guarded(
            cfg,
            teardown::host_found_spec(cfg, knobs, aws, host),
            first,
            |a: ActionView| deletes_cluster(a),
        ),
        guarded(
            cfg,
            teardown::teardown_aws_spec(cfg, knobs, aws, host),
            first,
            |a: ActionView| deletes_cluster(a),
        ),
{
    if let Some(target) = resolve_target_spec(host, cfg, knobs) {
        broadcast use group_guarded;

        let suspended = teardown::suspend_flux_spec(target);
        assert(all_of(suspended, |step: StepView| sparing(step))) by {
            broadcast use group_all_of;

        }
        sparing_is_guarded(cfg, suspended, first);
        assert(supplies(cfg, suspended, first));
    } else {
        let s = teardown::teardown_aws_spec(cfg, knobs, aws, host);
        let released = teardown::release_hardware_spec(cfg, knobs, host);
        assert(all_of(s, |step: StepView| sparing(step))) by {
            broadcast use group_all_of;

            law_sweep_is_best_effort(cfg);
            swept_is_sparing(sweep::sweep_spec(cfg));
        }
        assert(all_of(released, |step: StepView| sparing(step))) by {
            broadcast use group_all_of;

        }
        sparing_is_guarded(cfg, s, first);
        sparing_is_guarded(cfg, released, first);
    }
}

proof fn search_deletes_nothing(cfg: Config, knobs: TeardownConfigView)
    ensures
        forall|q: QuestionView|
            finds_host(q, knobs) ==> !deletes_cluster(#[trigger] question::action_spec(cfg, q)),
{
    lemma_names();
    lemma_kubectl_words();
}

proof fn remote_is_guarded(
    cfg: Config,
    knobs: TeardownConfigView,
    first: spec_fn(Event) -> bool,
)
    requires
        !cfg.is_local_spec(),
        forall|target: K8sTargetView|
            supplies(cfg, #[trigger] teardown::suspend_flux_spec(target), first),
    ensures
        guarded(
            cfg,
            teardown::run_teardown_spec(cfg, knobs),
            first,
            |a: ActionView| deletes_cluster(a),
        ),
{
    let action = |a: ActionView| deletes_cluster(a);
    search_deletes_nothing(cfg, knobs);
    assert forall|aws: bool|
        guarded(cfg, #[trigger] teardown::teardown_mode_spec(cfg, knobs, aws), first, action) by {
        broadcast use group_guarded;

        if knobs.aws_only {
            host_is_guarded(cfg, knobs, aws, ControllerHost::Unreachable, first);
        } else {
            assert forall|aws: bool, host: ControllerHost|
                guarded(
                    cfg,
                    #[trigger] teardown::host_found_spec(cfg, knobs, aws, host),
                    first,
                    action,
                ) by {
                host_is_guarded(cfg, knobs, aws, host, first);
            }
            let q = QuestionView::Teardown(TeardownQuestionView::Contexts { knobs, aws });
            search_is_guarded(cfg, knobs, q, first, action);
        }
    }
    teardown_is_guarded(cfg, knobs, first, action);
}

/// In an environment that is not the local one, a teardown deletes a cluster only after the
/// Kustomizations of Flux have been listed with a known outcome, and each of them has been told to
/// be suspended, whatever the replies are. Of any name, that is: the Kustomization has been told to
/// be suspended, or the listing has not shown it.
pub proof fn law_flux_is_suspended_first(
    cfg: Config,
    knobs: TeardownConfigView,
    name: Seq<char>,
    replies: Seq<ReplyView>,
)
    requires
        !cfg.is_local_spec(),
    ensures
        ({
            let events = run(cfg, teardown::run_teardown_spec(cfg, knobs).steps, replies).events;
            &&& precedes(
                events,
                |e: Event| lists_flux(e, |found: Seq<Seq<char>>| true),
                |a: ActionView| deletes_cluster(a),
            )
            &&& precedes(
                events,
                |e: Event| settles(e, name),
                |a: ActionView| deletes_cluster(a),
            )
        }),
{
    let listed = |e: Event| lists_flux(e, |found: Seq<Seq<char>>| true);
    let settled = |e: Event| settles(e, name);
    assert forall|target: K8sTargetView|
        supplies(cfg, #[trigger] teardown::suspend_flux_spec(target), listed) by {
        flux_is_supplied(cfg, target, name);
    }
    assert forall|target: K8sTargetView|
        supplies(cfg, #[trigger] teardown::suspend_flux_spec(target), settled) by {
        flux_is_supplied(cfg, target, name);
    }
    remote_is_guarded(cfg, knobs, listed);
    remote_is_guarded(cfg, knobs, settled);
}

// ---------------------------------------------------------------------------------------------
// The local environment
// ---------------------------------------------------------------------------------------------
proof fn workload_is_suspended(cfg: Config, target: K8sTargetView)
    ensures
        supplies(
            cfg,
            teardown::suspend_workload_spec(target),
            |e: Event| suspends(e, "docker-workload-cluster"@),
        ),
        all_of(teardown::suspend_workload_spec(target), |step: StepView| sparing(step)),
{
    let name = "docker-workload-cluster"@;
    let first = |e: Event| suspends(e, name);
    let c = suspend_one(target, name);
    let kind = |step: StepView| step == StepView::Do(ActionView::Run(c), RuleView::Ignore);
    let s = teardown::suspend_workload_spec(target);
    assert("kustomization/docker-workload-cluster"@ =~= "kustomization/"@ + name) by {
        reveal_strlit("kustomization/docker-workload-cluster");
        reveal_strlit("kustomization/");
        reveal_strlit("docker-workload-cluster");
    }
    assert(some_of(s, kind)) by {
        broadcast use group_some_of;

    }
    assert(owes(cfg, kind, first));
    owed_brings(cfg, kind, first, s.steps);
    assert(all_of(s, |step: StepView| sparing(step))) by {
        broadcast use group_all_of;

        lemma_names();
        lemma_kubectl_words();
    }
}

proof fn local_kind_is_guarded(cfg: Config, engine: Option<Seq<char>>)
    ensures
        guarded(
            cfg,
            teardown::teardown_local_kind_spec(cfg, engine),
            |e: Event| suspends(e, "docker-workload-cluster"@),
            |a: ActionView| deletes_cluster(a),
        ),
{
    broadcast use group_guarded;

    let first = |e: Event| suspends(e, "docker-workload-cluster"@);
    let target = K8sTargetView::Kind { context: cfg.repo.bootstrap.kind_context@ };
    let entered = teardown::enter_with_spec(cfg, engine);
    lemma_names();
    lemma_kubectl_words();
    assert(all_of(entered, |step: StepView| sparing(step))) by {
        broadcast use group_all_of;

    }
    sparing_is_guarded(cfg, entered, first);
    workload_is_suspended(cfg, target);
    sparing_is_guarded(cfg, teardown::suspend_workload_spec(target), first);
}

proof fn local_is_guarded(cfg: Config, knobs: TeardownConfigView, engine: Option<Seq<char>>)
    ensures
        guarded(
            cfg,
            teardown::teardown_local_spec(cfg, knobs, engine),
            |e: Event| suspends(e, "docker-workload-cluster"@),
            |a: ActionView| deletes_cluster(a),
        ),
{
    broadcast use group_guarded;

    let first = |e: Event| suspends(e, "docker-workload-cluster"@);
    let action = |a: ActionView| deletes_cluster(a);
    let file = QuestionView::Teardown(TeardownQuestionView::LocalMgmtFile { knobs, engine });
    let present = QuestionView::Teardown(TeardownQuestionView::KindPresent { knobs, engine });
    let answers = QuestionView::Teardown(TeardownQuestionView::KindAnswers { knobs, engine });
    let target = K8sTargetView::SelfManaged { kubeconfig: knobs.mgmt_kubeconfig };
    lemma_names();
    lemma_kubectl_words();
    workload_is_suspended(cfg, target);
    sparing_is_guarded(cfg, teardown::suspend_workload_spec(target), first);
    assert forall|reply: ReplyView|
        guarded(cfg, #[trigger] question::answer_spec(cfg, file, reply), first, action) by {
        if !reply.ok {
            let s = question::answer_spec(cfg, file, reply);
            assert(all_of(s, |step: StepView| sparing(step))) by {
                broadcast use group_all_of;

            }
            sparing_is_guarded(cfg, s, first);
        }
    }
    guarded_question(cfg, file, first, action);
    local_kind_is_guarded(cfg, engine);
    guarded_question(cfg, present, first, action);
    guarded_question(cfg, answers, first, action);
}

proof fn detection_is_guarded(cfg: Config, knobs: TeardownConfigView)
    ensures
        guarded(
            cfg,
            engine::detect_engine_spec(cfg, knobs),
            |e: Event| suspends(e, "docker-workload-cluster"@),
            |a: ActionView| deletes_cluster(a),
        ),
{
    broadcast use group_guarded;

    let first = |e: Event| suspends(e, "docker-workload-cluster"@);
    let action = |a: ActionView| deletes_cluster(a);
    let seeker = SeekerView::Teardown { knobs };
    let named = QuestionView::Engine(
        EngineQuestionView::NamedEngine { knobs, engine: engine::operator_engine_spec(cfg) },
    );
    let docker = QuestionView::Engine(EngineQuestionView::DockerInfo { seeker });
    let version = QuestionView::Engine(EngineQuestionView::DockerVersion { seeker });
    let podman = QuestionView::Engine(EngineQuestionView::PodmanInfo { seeker });
    lemma_names();
    lemma_kubectl_words();
    assert forall|engine: Option<Seq<char>>|
        guarded(
            cfg,
            #[trigger] teardown::teardown_local_spec(cfg, knobs, engine),
            first,
            action,
        ) by {
        local_is_guarded(cfg, knobs, engine);
    }
    guarded_question(cfg, named, first, action);
    guarded_question(cfg, version, first, action);
    guarded_question(cfg, podman, first, action);
    guarded_question(cfg, docker, first, action);
}

/// In the local environment, a teardown deletes a cluster only after the Kustomization of the
/// workload cluster has been told to be suspended, whatever the replies are.
pub proof fn law_workload_is_suspended_first(
    cfg: Config,
    knobs: TeardownConfigView,
    replies: Seq<ReplyView>,
)
    requires
        cfg.is_local_spec(),
    ensures
        precedes(
            run(cfg, teardown::run_teardown_spec(cfg, knobs).steps, replies).events,
            |e: Event| suspends(e, "docker-workload-cluster"@),
            |a: ActionView| deletes_cluster(a),
        ),
{
    broadcast use group_guarded;

    let first = |e: Event| suspends(e, "docker-workload-cluster"@);
    let action = |a: ActionView| deletes_cluster(a);
    detection_is_guarded(cfg, knobs);
    teardown_is_guarded(cfg, knobs, first, action);
}

} // verus!
