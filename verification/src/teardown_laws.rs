//! What holds of the teardown as a whole: the host of the controllers outlives what they manage.
use vstd::prelude::*;

use crate::commands::kubectl_on_spec;
use crate::context::{SeekerView, TeardownConfigView};
use crate::engine;
use crate::engine::EngineQuestionView;
use crate::failure::FailureView;
use crate::kube::{probe_spec, ControllerHost, K8sTargetView, ProbeOutcome};
use crate::question;
use crate::question::QuestionView;
use crate::runs::{
    all_of, group_all_of, group_guarded, group_some_of, guarded, guarded_question, guards,
    owed_brings, owes, precedes, run, some_of, some_of_each, supplies, tame, tame_guards, Event,
};
use crate::script::{command, ActionView, CommandView, ReplyView, ScriptView, StepView};
use crate::settings::Config;
use crate::sweep;
use crate::sweep_laws::{
    best_effort, law_sweep_answers_are_best_effort, law_sweep_asks_aws, law_sweep_is_best_effort,
};
use crate::teardown;
use crate::teardown::{
    delete_workloads_spec, host_found_spec, remaining_spec, resolve_target_spec, run_teardown_spec,
    teardown_aws_spec, TeardownQuestionView,
};
use crate::text::texts;

verus! {

/// Whether the action deletes a kind cluster.
pub open spec fn deletes_kind(action: ActionView) -> bool {
    match action.command() {
        Some(c) => c.program == "kind"@ && c.args.len() > 0 && c.args[0] == "delete"@,
        None => false,
    }
}

/// kubectl, listing the CAPI clusters of a target.
pub open spec fn list_clusters(target: K8sTargetView) -> CommandView {
    kubectl_on_spec(target).arg("get"@).arg("clusters"@).arg("-A"@).arg("-o"@).arg("name"@).arg(
        "--request-timeout=30s"@,
    )
}

/// Whether the event is a listing that succeeded and shows no cluster but the management cluster.
pub open spec fn workloads_gone(event: Event, mgmt_cluster: Seq<char>) -> bool {
    match event {
        Event::Performed(ActionView::Inspect(c), reply) => {
            let outcome = probe_spec(reply.ok, reply.stdout, reply.stderr, false);
            &&& exists|target: K8sTargetView| c == #[trigger] list_clusters(target)
            &&& outcome != ProbeOutcome::Error
            &&& remaining_spec(outcome, reply.stdout, mgmt_cluster).len() == 0
        },
        _ => false,
    }
}

// ---------------------------------------------------------------------------------------------
// Steps that delete no kind cluster
// ---------------------------------------------------------------------------------------------
/// The names of the programs and of their first arguments are different texts.
pub proof fn lemma_names()
    ensures
        "kubectl"@ != "kind"@,
        "helm"@ != "kind"@,
        "aws"@ != "kind"@,
        "docker"@ != "kind"@,
        "podman"@ != "kind"@,
        "info"@ != "delete"@,
        "get"@ != "delete"@,
        "network"@ != "delete"@,
        "ps"@ != "delete"@,
        "rm"@ != "delete"@,
{
    reveal_strlit("kubectl");
    reveal_strlit("kind");
    reveal_strlit("helm");
    reveal_strlit("aws");
    reveal_strlit("docker");
    reveal_strlit("podman");
    reveal_strlit("delete");
    reveal_strlit("info");
    reveal_strlit("get");
    reveal_strlit("network");
    reveal_strlit("ps");
    reveal_strlit("rm");
    assert("kind"@.len() == 4 && "kind"@[0] == 'k' && "delete"@.len() == 6);
    assert("kubectl"@.len() == 7 && "helm"@[0] == 'h' && "aws"@.len() == 3);
    assert("docker"@.len() == 6 && "podman"@.len() == 6);
    assert("info"@.len() == 4 && "get"@.len() == 3 && "network"@.len() == 7);
    assert("ps"@.len() == 2 && "rm"@.len() == 2);
}

/// The questions of the teardown that never lead to the deletion of a kind cluster.
pub open spec fn spares_kind(q: QuestionView) -> bool {
    match q {
        QuestionView::Sweep(_) => true,
        QuestionView::Engine(q) => match q {
            EngineQuestionView::ToolboxId { .. } => true,
            EngineQuestionView::Member { .. } => true,
            EngineQuestionView::Connect { .. } => true,
            EngineQuestionView::MemberAfter { .. } => true,
            EngineQuestionView::KindKubeconfig { .. } => true,
            _ => false,
        },
        QuestionView::Teardown(q) => match q {
            TeardownQuestionView::TeardownTool { .. } => true,
            TeardownQuestionView::FluxKustomizations { .. } => true,
            TeardownQuestionView::Suspended { .. } => true,
            TeardownQuestionView::WorkloadState { .. } => true,
            TeardownQuestionView::WorkloadGone { .. } => true,
            TeardownQuestionView::AwsClusters { .. } => true,
            TeardownQuestionView::AwsClustersGone { .. } => true,
            TeardownQuestionView::HardwareClusters { .. } => true,
            TeardownQuestionView::HardwareGone { .. } => true,
            TeardownQuestionView::Providers { .. } => true,
            TeardownQuestionView::ProvidersLeft { .. } => true,
            TeardownQuestionView::HelmStatus { .. } => true,
            TeardownQuestionView::HelmUninstall { .. } => true,
            TeardownQuestionView::MgmtContainers { .. } => true,
            TeardownQuestionView::ContainersRemoved { .. } => true,
            TeardownQuestionView::RegistryThere { .. } => true,
            TeardownQuestionView::RegistryRemoved { .. } => true,
            _ => false,
        },
        _ => false,
    }
}

/// A step that neither deletes a kind cluster nor leads to it.
pub open spec fn harmless(step: StepView) -> bool {
    match step {
        StepView::Do(action, _) => !deletes_kind(action),
        StepView::Ask(q) => spares_kind(q),
        _ => true,
    }
}

proof fn sparing_actions(cfg: Config, q: QuestionView)
    requires
        spares_kind(q),
    ensures
        !deletes_kind(question::action_spec(cfg, q)),
{
    lemma_names();
    if let QuestionView::Sweep(asked) = q {
        law_sweep_asks_aws(cfg, asked);
    }
}

#[verifier::rlimit(60)]
proof fn sparing_engine(cfg: Config, q: EngineQuestionView, reply: ReplyView)
    requires
        spares_kind(QuestionView::Engine(q)),
    ensures
        all_of(engine::answer_spec(cfg, q, reply), |step: StepView| harmless(step)),
{
    broadcast use group_all_of;

    lemma_names();
}

#[verifier::rlimit(60)]
proof fn sparing_teardown(cfg: Config, q: TeardownQuestionView, reply: ReplyView)
    requires
        spares_kind(QuestionView::Teardown(q)),
    ensures
        all_of(teardown::answer_spec(cfg, q, reply), |step: StepView| harmless(step)),
{
    broadcast use group_all_of;

    lemma_names();
}

proof fn sparing_answers(cfg: Config, q: QuestionView, reply: ReplyView)
    requires
        spares_kind(q),
    ensures
        all_of(question::answer_spec(cfg, q, reply), |step: StepView| harmless(step)),
{
    match q {
        QuestionView::Engine(asked) => sparing_engine(cfg, asked, reply),
        QuestionView::Teardown(asked) => sparing_teardown(cfg, asked, reply),
        QuestionView::Sweep(asked) => {
            lemma_names();
            law_sweep_answers_are_best_effort(cfg, asked, reply);
            let s = question::answer_spec(cfg, q, reply);
            assert forall|i: int| 0 <= i < s.steps.len() implies harmless(#[trigger] s.steps[i]) by {
                assert((|step: StepView| best_effort(step))(s.steps[i]));
            }
        },
        _ => {},
    }
}

proof fn harmless_is_tame(cfg: Config, first: spec_fn(Event) -> bool)
    ensures
        tame(cfg, |step: StepView| harmless(step), first, |a: ActionView| deletes_kind(a)),
{
    let kind = |step: StepView| harmless(step);
    assert forall|q: QuestionView| (#[trigger] kind(StepView::Ask(q))) implies !deletes_kind(
        question::action_spec(cfg, q),
    ) && forall|reply: ReplyView|
        all_of(#[trigger] question::answer_spec(cfg, q, reply), kind) by {
        sparing_actions(cfg, q);
        assert forall|reply: ReplyView|
            all_of(#[trigger] question::answer_spec(cfg, q, reply), kind) by {
            sparing_answers(cfg, q, reply);
        }
    }
}

/// A script of harmless steps deletes no kind cluster.
pub proof fn harmless_is_guarded(cfg: Config, s: ScriptView, first: spec_fn(Event) -> bool)
    requires
        all_of(s, |step: StepView| harmless(step)),
    ensures
        guarded(cfg, s, first, |a: ActionView| deletes_kind(a)),
{
    harmless_is_tame(cfg, first);
    tame_guards(cfg, |step: StepView| harmless(step), first, |a: ActionView| deletes_kind(a), s.steps);
}

// ---------------------------------------------------------------------------------------------
// AWS
// ---------------------------------------------------------------------------------------------
/// A step that owes the confirmation that the workload clusters are gone.
pub open spec fn owes_confirmation(step: StepView, mgmt: Seq<char>) -> bool {
    match step {
        StepView::Fail(_) => true,
        StepView::Ask(QuestionView::Teardown(q)) => match q {
            TeardownQuestionView::AwsClusters { mgmt_cluster, force, .. } => mgmt_cluster == mgmt
                && !force,
            TeardownQuestionView::AwsClustersGone { mgmt_cluster, force, .. } => mgmt_cluster
                == mgmt && !force,
            _ => false,
        },
        _ => false,
    }
}

proof fn confirmation_is_owed(cfg: Config, mgmt: Seq<char>)
    ensures
        owes(cfg, |step: StepView| owes_confirmation(step, mgmt), |e: Event| workloads_gone(e, mgmt)),
{
    broadcast use group_some_of;

    let kind = |step: StepView| owes_confirmation(step, mgmt);
    let first = |e: Event| workloads_gone(e, mgmt);
    assert forall|q: QuestionView, reply: ReplyView| kind(StepView::Ask(q)) implies first(
        Event::Performed(question::action_spec(cfg, q), reply),
    ) || some_of(#[trigger] question::answer_spec(cfg, q, reply), kind) by {
        if let QuestionView::Teardown(asked) = q {
            match asked {
                TeardownQuestionView::AwsClusters { target, .. } => {
                    assert(question::action_spec(cfg, q) == ActionView::Inspect(
                        list_clusters(target),
                    ));
                },
                TeardownQuestionView::AwsClustersGone { target, .. } => {
                    assert(question::action_spec(cfg, q) == ActionView::Inspect(
                        list_clusters(target),
                    ));
                },
                _ => {},
            }
        }
    }
}

/// Unless its removal is forced, the host of an AWS environment outlives the workload clusters: the
/// deletion of the workload clusters comes to its end only once a listing has shown them gone.
pub proof fn law_aws_workloads_are_confirmed_gone(
    cfg: Config,
    target: K8sTargetView,
    mgmt_cluster: Seq<char>,
    timeout: u64,
)
    ensures
        supplies(
            cfg,
            teardown::delete_aws_workload_clusters_spec(target, mgmt_cluster, timeout, false),
            |e: Event| workloads_gone(e, mgmt_cluster),
        ),
{
    broadcast use group_some_of;

    let kind = |step: StepView| owes_confirmation(step, mgmt_cluster);
    let s = teardown::delete_aws_workload_clusters_spec(target, mgmt_cluster, timeout, false);
    confirmation_is_owed(cfg, mgmt_cluster);
    assert(some_of(s, kind));
    owed_brings(cfg, kind, |e: Event| workloads_gone(e, mgmt_cluster), s.steps);
}

#[verifier::rlimit(40)]
proof fn aws_is_guarded(cfg: Config, knobs: TeardownConfigView, aws: bool, host: ControllerHost)
    requires
        !knobs.force_host_delete,
        knobs.aws_only ==> host == ControllerHost::Unreachable,
    ensures
        guarded(
            cfg,
            teardown_aws_spec(cfg, knobs, aws, host),
            |e: Event| workloads_gone(e, cfg.environment.mgmt_cluster@),
            |a: ActionView| deletes_kind(a),
        ),
{
    broadcast use group_guarded;

    let mgmt = cfg.environment.mgmt_cluster@;
    let first = |e: Event| workloads_gone(e, mgmt);
    let start = delete_workloads_spec(cfg, knobs, host);
    assert(all_of(start, |step: StepView| harmless(step))) by {
        broadcast use group_all_of;

    }
    harmless_is_guarded(cfg, start, first);
    if host == ControllerHost::Unreachable {
        let s = teardown_aws_spec(cfg, knobs, aws, host);
        assert(all_of(s, |step: StepView| harmless(step))) by {
            broadcast use group_all_of;

            lemma_names();
            law_sweep_is_best_effort(cfg);
            let swept = sweep::sweep_spec(cfg);
            assert forall|i: int| 0 <= i < swept.steps.len() implies harmless(
                #[trigger] swept.steps[i],
            ) by {
                assert((|step: StepView| best_effort(step))(swept.steps[i]));
            }
        }
        harmless_is_guarded(cfg, s, first);
    } else {
        if let Some(target) = resolve_target_spec(host, cfg, knobs) {
            law_aws_workloads_are_confirmed_gone(
                cfg,
                target,
                mgmt,
                knobs.cluster_delete_timeout,
            );
            assert(supplies(cfg, start, first));
        }
    }
}

/// The questions by which the teardown finds the host of the controllers.
pub open spec fn finds_host(q: QuestionView, knobs: TeardownConfigView) -> bool {
    match q {
        QuestionView::Teardown(q) => match q {
            TeardownQuestionView::Contexts { knobs: k, .. } => k == knobs,
            TeardownQuestionView::KindInfo { knobs: k, .. } => k == knobs,
            TeardownQuestionView::MgmtFile { knobs: k, .. } => k == knobs,
            TeardownQuestionView::MgmtInfo { knobs: k, .. } => k == knobs,
            _ => false,
        },
        _ => false,
    }
}

/// How often the teardown asks at most until it knows the host of the controllers.
pub open spec fn questions_left(q: QuestionView) -> nat {
    match q {
        QuestionView::Teardown(q) => match q {
            TeardownQuestionView::Contexts { .. } => 4,
            TeardownQuestionView::KindInfo { .. } => 3,
            TeardownQuestionView::MgmtFile { .. } => 2,
            _ => 1,
        },
        _ => 0,
    }
}

/// What is guarded once the host is known is guarded from the search for the host on.
pub proof fn search_is_guarded(
    cfg: Config,
    knobs: TeardownConfigView,
    q: QuestionView,
    first: spec_fn(Event) -> bool,
    action: spec_fn(ActionView) -> bool,
)
    requires
        finds_host(q, knobs),
        forall|asked: QuestionView|
            finds_host(asked, knobs) ==> !action(#[trigger] question::action_spec(cfg, asked)),
        forall|aws: bool, host: ControllerHost|
            guarded(cfg, #[trigger] host_found_spec(cfg, knobs, aws, host), first, action),
    ensures
        guards(cfg, seq![StepView::Ask(q)], first, action),
    decreases questions_left(q),
{
    broadcast use group_guarded;

    assert forall|reply: ReplyView|
        guarded(cfg, #[trigger] question::answer_spec(cfg, q, reply), first, action) by {
        if let QuestionView::Teardown(asked) = q {
            match asked {
                TeardownQuestionView::Contexts { aws, .. } => {
                    let next = TeardownQuestionView::KindInfo { knobs, aws };
                    let other = TeardownQuestionView::MgmtFile { knobs, aws };
                    search_is_guarded(cfg, knobs, QuestionView::Teardown(next), first, action);
                    search_is_guarded(cfg, knobs, QuestionView::Teardown(other), first, action);
                },
                TeardownQuestionView::KindInfo { aws, .. } => {
                    let other = TeardownQuestionView::MgmtFile { knobs, aws };
                    search_is_guarded(cfg, knobs, QuestionView::Teardown(other), first, action);
                },
                TeardownQuestionView::MgmtFile { aws, .. } => {
                    let next = TeardownQuestionView::MgmtInfo { knobs, aws };
                    search_is_guarded(cfg, knobs, QuestionView::Teardown(next), first, action);
                },
                _ => {},
            }
        }
    }
    guarded_question(cfg, q, first, action);
}

proof fn tool_is_guarded(
    cfg: Config,
    tool: Seq<char>,
    first: spec_fn(Event) -> bool,
    action: spec_fn(ActionView) -> bool,
)
    requires
        !action(ActionView::Find(tool)),
    ensures
        guards(
            cfg,
            seq![StepView::Ask(QuestionView::Teardown(TeardownQuestionView::TeardownTool { tool }))],
            first,
            action,
        ),
{
    broadcast use group_guarded;

    let q = QuestionView::Teardown(TeardownQuestionView::TeardownTool { tool });
    guarded_question(cfg, q, first, action);
}

/// What is guarded once the tools are checked is guarded from the first step of the teardown on.
pub proof fn teardown_is_guarded(
    cfg: Config,
    knobs: TeardownConfigView,
    first: spec_fn(Event) -> bool,
    action: spec_fn(ActionView) -> bool,
)
    requires
        forall|a: ActionView| (#[trigger] a.command()) is None ==> !action(a),
        forall|aws: bool|
            guarded(cfg, #[trigger] teardown::teardown_mode_spec(cfg, knobs, aws), first, action),
    ensures
        guarded(cfg, run_teardown_spec(cfg, knobs), first, action),
{
    broadcast use group_guarded;

    assert(ActionView::Find("kind"@).command() is None);
    assert(ActionView::Find("helm"@).command() is None);
    assert(ActionView::Find("kubectl"@).command() is None);
    assert(ActionView::Find("xargs"@).command() is None);
    assert(ActionView::Find("aws"@).command() is None);
    assert(ActionView::SetVar("AWS_PAGER"@, ""@).command() is None);
    tool_is_guarded(cfg, "kind"@, first, action);
    tool_is_guarded(cfg, "helm"@, first, action);
    tool_is_guarded(cfg, "kubectl"@, first, action);
    tool_is_guarded(cfg, "xargs"@, first, action);
    let q = QuestionView::Teardown(TeardownQuestionView::AwsCli { knobs });
    assert forall|reply: ReplyView|
        guarded(cfg, #[trigger] question::answer_spec(cfg, q, reply), first, action) by {
        assert(question::answer_spec(cfg, q, reply) == teardown::teardown_preflight_spec(
            cfg,
            knobs,
            reply.ok,
        ));
    }
    guarded_question(cfg, q, first, action);
}

/// In an AWS environment, a teardown that is not forced deletes the kind cluster only after a
/// listing has succeeded and shown no cluster but the management cluster, whatever the replies are.
pub proof fn law_aws_host_outlives_workloads(
    cfg: Config,
    knobs: TeardownConfigView,
    replies: Seq<ReplyView>,
)
    requires
        !cfg.is_local_spec(),
        !cfg.environment.teardown.hardware_release,
        !knobs.force_host_delete,
    ensures
        precedes(
            run(cfg, run_teardown_spec(cfg, knobs).steps, replies).events,
            |e: Event| workloads_gone(e, cfg.environment.mgmt_cluster@),
            |a: ActionView| deletes_kind(a),
        ),
{
    broadcast use group_guarded;

    let first = |e: Event| workloads_gone(e, cfg.environment.mgmt_cluster@);
    let action = |a: ActionView| deletes_kind(a);
    assert forall|aws: bool|
        guarded(cfg, #[trigger] teardown::teardown_mode_spec(cfg, knobs, aws), first, action) by {
        if knobs.aws_only {
            aws_is_guarded(cfg, knobs, aws, ControllerHost::Unreachable);
        } else {
            assert forall|aws: bool, host: ControllerHost|
                guarded(cfg, #[trigger] host_found_spec(cfg, knobs, aws, host), first, action) by {
                aws_is_guarded(cfg, knobs, aws, host);
            }
            let q = QuestionView::Teardown(TeardownQuestionView::Contexts { knobs, aws });
            lemma_names();
            search_is_guarded(cfg, knobs, q, first, action);
        }
    }
    teardown_is_guarded(cfg, knobs, first, action);
}

// ---------------------------------------------------------------------------------------------
// Bare metal
// ---------------------------------------------------------------------------------------------
/// Whether the event is a listing that succeeded and shows no cluster.
pub open spec fn clusters_gone(event: Event) -> bool {
    match event {
        Event::Performed(ActionView::Inspect(c), reply) => {
            &&& exists|target: K8sTargetView| c == #[trigger] list_clusters(target)
            &&& probe_spec(reply.ok, reply.stdout, reply.stderr, false) == ProbeOutcome::Absent
        },
        _ => false,
    }
}

/// A step that owes the confirmation that no cluster is left.
pub open spec fn owes_release(step: StepView) -> bool {
    match step {
        StepView::Fail(_) => true,
        StepView::Ask(QuestionView::Teardown(q)) => match q {
            TeardownQuestionView::HardwareClusters { .. } => true,
            TeardownQuestionView::HardwareGone { .. } => true,
            _ => false,
        },
        _ => false,
    }
}

proof fn release_is_owed(cfg: Config)
    ensures
        owes(cfg, |step: StepView| owes_release(step), |e: Event| clusters_gone(e)),
{
    broadcast use group_some_of;

    let kind = |step: StepView| owes_release(step);
    let first = |e: Event| clusters_gone(e);
    assert forall|q: QuestionView, reply: ReplyView| kind(StepView::Ask(q)) implies first(
        Event::Performed(question::action_spec(cfg, q), reply),
    ) || some_of(#[trigger] question::answer_spec(cfg, q, reply), kind) by {
        if let QuestionView::Teardown(asked) = q {
            match asked {
                TeardownQuestionView::HardwareClusters { target, .. } => {
                    assert(question::action_spec(cfg, q) == ActionView::Inspect(
                        list_clusters(target),
                    ));
                },
                TeardownQuestionView::HardwareGone { target, .. } => {
                    assert(question::action_spec(cfg, q) == ActionView::Inspect(
                        list_clusters(target),
                    ));
                },
                _ => {},
            }
        }
    }
}

proof fn release_is_guarded(cfg: Config, knobs: TeardownConfigView, host: ControllerHost)
    ensures
        guarded(
            cfg,
            teardown::release_hardware_spec(cfg, knobs, host),
            |e: Event| clusters_gone(e),
            |a: ActionView| deletes_kind(a),
        ),
{
    broadcast use group_guarded;

    let first = |e: Event| clusters_gone(e);
    let action = |a: ActionView| deletes_kind(a);
    if let Some(target) = resolve_target_spec(host, cfg, knobs) {
        let suspended = teardown::suspend_flux_spec(target);
        assert(all_of(suspended, |step: StepView| harmless(step))) by {
            broadcast use group_all_of;

        }
        harmless_is_guarded(cfg, suspended, first);
        let q = QuestionView::Teardown(
            TeardownQuestionView::HardwareClusters {
                target,
                timeout: knobs.cluster_delete_timeout,
            },
        );
        let one = seq![StepView::Ask(q)];
        harmless_is_tame(cfg, first);
        tame_guards(cfg, |step: StepView| harmless(step), first, action, one);
        release_is_owed(cfg);
        assert(some_of(ScriptView { steps: one }, |step: StepView| owes_release(step))) by {
            assert((|step: StepView| owes_release(step))(one[0]));
        }
        owed_brings(cfg, |step: StepView| owes_release(step), first, one);
    }
}

/// On bare metal, a teardown deletes the kind cluster only after a listing has succeeded and shown
/// no cluster, whatever the replies are.
pub proof fn law_hardware_is_released_first(
    cfg: Config,
    knobs: TeardownConfigView,
    replies: Seq<ReplyView>,
)
    requires
        !cfg.is_local_spec(),
        cfg.environment.teardown.hardware_release,
    ensures
        precedes(
            run(cfg, run_teardown_spec(cfg, knobs).steps, replies).events,
            |e: Event| clusters_gone(e),
            |a: ActionView| deletes_kind(a),
        ),
{
    broadcast use group_guarded;

    let first = |e: Event| clusters_gone(e);
    let action = |a: ActionView| deletes_kind(a);
    assert forall|aws: bool|
        guarded(cfg, #[trigger] teardown::teardown_mode_spec(cfg, knobs, aws), first, action) by {
        assert forall|aws: bool, host: ControllerHost|
            guarded(cfg, #[trigger] host_found_spec(cfg, knobs, aws, host), first, action) by {
            release_is_guarded(cfg, knobs, host);
        }
        let q = QuestionView::Teardown(TeardownQuestionView::Contexts { knobs, aws });
        lemma_names();
        search_is_guarded(cfg, knobs, q, first, action);
    }
    teardown_is_guarded(cfg, knobs, first, action);
}

// ---------------------------------------------------------------------------------------------
// The local environment
// ---------------------------------------------------------------------------------------------
/// kubectl, looking for a CAPD workload cluster of a target.
pub open spec fn get_workload(target: K8sTargetView, cluster: Seq<char>) -> CommandView {
    kubectl_on_spec(target).arg("get"@).arg("cluster"@).arg(cluster).arg("-n"@).arg("default"@).arg(
        "--request-timeout=30s"@,
    )
}

/// Whether the event is a query that says that a CAPD workload cluster is not there.
pub open spec fn workload_gone(event: Event, cluster: Seq<char>) -> bool {
    match event {
        Event::Performed(ActionView::Inspect(c), reply) => {
            &&& exists|target: K8sTargetView| c == #[trigger] get_workload(target, cluster)
            &&& probe_spec(reply.ok, reply.stdout, reply.stderr, true) == ProbeOutcome::Absent
        },
        _ => false,
    }
}

/// A step that owes the confirmation that a CAPD workload cluster is gone.
pub open spec fn owes_workload(step: StepView, wanted: Seq<char>) -> bool {
    match step {
        StepView::Fail(_) => true,
        StepView::Ask(QuestionView::Teardown(q)) => match q {
            TeardownQuestionView::WorkloadState { cluster, .. } => cluster == wanted,
            TeardownQuestionView::WorkloadGone { cluster, .. } => cluster == wanted,
            _ => false,
        },
        _ => false,
    }
}

proof fn workload_is_owed(cfg: Config, cluster: Seq<char>)
    ensures
        owes(
            cfg,
            |step: StepView| owes_workload(step, cluster),
            |e: Event| workload_gone(e, cluster),
        ),
{
    broadcast use group_some_of;

    let kind = |step: StepView| owes_workload(step, cluster);
    let first = |e: Event| workload_gone(e, cluster);
    assert forall|q: QuestionView, reply: ReplyView| kind(StepView::Ask(q)) implies first(
        Event::Performed(question::action_spec(cfg, q), reply),
    ) || some_of(#[trigger] question::answer_spec(cfg, q, reply), kind) by {
        if let QuestionView::Teardown(asked) = q {
            match asked {
                TeardownQuestionView::WorkloadState { target, .. } => {
                    assert(question::action_spec(cfg, q) == ActionView::Inspect(
                        get_workload(target, cluster),
                    ));
                },
                TeardownQuestionView::WorkloadGone { target, .. } => {
                    assert(question::action_spec(cfg, q) == ActionView::Inspect(
                        get_workload(target, cluster),
                    ));
                },
                _ => {},
            }
        }
    }
}

/// The deletion of the CAPD workload clusters comes to its end only once each of them has been
/// found gone.
pub proof fn law_capd_workloads_are_confirmed_gone(
    cfg: Config,
    target: K8sTargetView,
    workloads: Seq<Seq<char>>,
    timeout: u64,
    i: int,
)
    requires
        0 <= i < workloads.len(),
    ensures
        supplies(
            cfg,
            teardown::delete_capi_workloads_spec(target, workloads, timeout),
            |e: Event| workload_gone(e, workloads[i]),
        ),
{
    broadcast use group_some_of;

    let kind = |step: StepView| owes_workload(step, workloads[i]);
    let one = |item: Seq<char>| teardown::delete_capi_workload_spec(item, target, timeout);
    let s = teardown::delete_capi_workloads_spec(target, workloads, timeout);
    workload_is_owed(cfg, workloads[i]);
    assert(some_of(one(workloads[i]), kind));
    some_of_each(workloads, one, kind, i);
    assert(some_of(s, kind));
    owed_brings(cfg, kind, |e: Event| workload_gone(e, workloads[i]), s.steps);
}

proof fn local_kind_is_guarded(cfg: Config, engine: Option<Seq<char>>, i: int)
    requires
        0 <= i < cfg.environment.teardown.capi_workloads@.len(),
    ensures
        ({
            let workload = texts(cfg.environment.teardown.capi_workloads@)[i];
            guarded(
                cfg,
                teardown::teardown_local_kind_spec(cfg, engine),
                |e: Event| workload_gone(e, workload),
                |a: ActionView| deletes_kind(a),
            )
        }),
{
    broadcast use group_guarded;

    let workloads = texts(cfg.environment.teardown.capi_workloads@);
    let first = |e: Event| workload_gone(e, workloads[i]);
    let target = K8sTargetView::Kind { context: cfg.repo.bootstrap.kind_context@ };
    let entered = teardown::enter_with_spec(cfg, engine);
    let deleted = teardown::delete_capi_workloads_spec(target, workloads, 300);
    lemma_names();
    assert(all_of(entered, |step: StepView| harmless(step))) by {
        broadcast use group_all_of;

    }
    harmless_is_guarded(cfg, entered, first);
    assert(all_of(deleted, |step: StepView| harmless(step))) by {
        broadcast use group_all_of;

    }
    harmless_is_guarded(cfg, deleted, first);
    law_capd_workloads_are_confirmed_gone(cfg, target, workloads, 300, i);
}

proof fn local_is_guarded(
    cfg: Config,
    knobs: TeardownConfigView,
    engine: Option<Seq<char>>,
    i: int,
)
    requires
        0 <= i < cfg.environment.teardown.capi_workloads@.len(),
    ensures
        ({
            let workload = texts(cfg.environment.teardown.capi_workloads@)[i];
            guarded(
                cfg,
                teardown::teardown_local_spec(cfg, knobs, engine),
                |e: Event| workload_gone(e, workload),
                |a: ActionView| deletes_kind(a),
            )
        }),
{
    broadcast use group_guarded;

    let workloads = texts(cfg.environment.teardown.capi_workloads@);
    let first = |e: Event| workload_gone(e, workloads[i]);
    let action = |a: ActionView| deletes_kind(a);
    let file = QuestionView::Teardown(TeardownQuestionView::LocalMgmtFile { knobs, engine });
    let present = QuestionView::Teardown(TeardownQuestionView::KindPresent { knobs, engine });
    let answers = QuestionView::Teardown(TeardownQuestionView::KindAnswers { knobs, engine });
    lemma_names();
    assert forall|reply: ReplyView|
        guarded(cfg, #[trigger] question::answer_spec(cfg, file, reply), first, action) by {
        let s = question::answer_spec(cfg, file, reply);
        assert(all_of(s, |step: StepView| harmless(step))) by {
            broadcast use group_all_of;

        }
        harmless_is_guarded(cfg, s, first);
    }
    guarded_question(cfg, file, first, action);
    local_kind_is_guarded(cfg, engine, i);
    guarded_question(cfg, present, first, action);
    guarded_question(cfg, answers, first, action);
}

proof fn detection_is_guarded(cfg: Config, knobs: TeardownConfigView, i: int)
    requires
        0 <= i < cfg.environment.teardown.capi_workloads@.len(),
    ensures
        ({
            let workload = texts(cfg.environment.teardown.capi_workloads@)[i];
            guarded(
                cfg,
                engine::detect_engine_spec(cfg, knobs),
                |e: Event| workload_gone(e, workload),
                |a: ActionView| deletes_kind(a),
            )
        }),
{
    broadcast use group_guarded;

    let workloads = texts(cfg.environment.teardown.capi_workloads@);
    let first = |e: Event| workload_gone(e, workloads[i]);
    let action = |a: ActionView| deletes_kind(a);
    let seeker = SeekerView::Teardown { knobs };
    let named = QuestionView::Engine(
        EngineQuestionView::NamedEngine { knobs, engine: engine::operator_engine_spec(cfg) },
    );
    let docker = QuestionView::Engine(EngineQuestionView::DockerInfo { seeker });
    let version = QuestionView::Engine(EngineQuestionView::DockerVersion { seeker });
    let podman = QuestionView::Engine(EngineQuestionView::PodmanInfo { seeker });
    lemma_names();
    assert forall|engine: Option<Seq<char>>|
        guarded(
            cfg,
            #[trigger] teardown::teardown_local_spec(cfg, knobs, engine),
            first,
            action,
        ) by {
        local_is_guarded(cfg, knobs, engine, i);
    }
    guarded_question(cfg, named, first, action);
    guarded_question(cfg, version, first, action);
    guarded_question(cfg, podman, first, action);
    guarded_question(cfg, docker, first, action);
}

/// In the local environment, a teardown deletes the kind cluster only after each of its CAPD
/// workload clusters has been found gone, whatever the replies are.
pub proof fn law_local_host_outlives_workloads(
    cfg: Config,
    knobs: TeardownConfigView,
    i: int,
    replies: Seq<ReplyView>,
)
    requires
        cfg.is_local_spec(),
        0 <= i < cfg.environment.teardown.capi_workloads@.len(),
    ensures
        ({
            let workload = texts(cfg.environment.teardown.capi_workloads@)[i];
            precedes(
                run(cfg, run_teardown_spec(cfg, knobs).steps, replies).events,
                |e: Event| workload_gone(e, workload),
                |a: ActionView| deletes_kind(a),
            )
        }),
{
    broadcast use group_guarded;

    let workloads = texts(cfg.environment.teardown.capi_workloads@);
    let first = |e: Event| workload_gone(e, workloads[i]);
    let action = |a: ActionView| deletes_kind(a);
    detection_is_guarded(cfg, knobs, i);
    teardown_is_guarded(cfg, knobs, first, action);
}

// ---------------------------------------------------------------------------------------------
// Refusals
// ---------------------------------------------------------------------------------------------
/// A teardown that an environment declares manual is refused with the text of the environment, and
/// nothing is performed.
pub proof fn law_manual_teardown_is_refused(
    cfg: Config,
    knobs: TeardownConfigView,
    replies: Seq<ReplyView>,
)
    requires
        cfg.environment.teardown.manual is Some,
    ensures
        run(cfg, run_teardown_spec(cfg, knobs).steps, replies).events == seq![
            Event::Failed(
                FailureView::new(
                    "teardown is manual for the '"@ + cfg.profile@ + "' environment:\n"@
                        + cfg.environment.teardown.manual->0@,
                ),
            ),
        ],
{
}

/// A query whose outcome is unknown ends the run with an error: neither a deletion nor another
/// question follows from it.
pub proof fn law_unknown_state_ends_the_run(
    cfg: Config,
    q: TeardownQuestionView,
    reply: ReplyView,
)
    requires
        match q {
            TeardownQuestionView::FluxKustomizations { .. } => true,
            TeardownQuestionView::AwsClusters { .. } => true,
            TeardownQuestionView::HardwareClusters { .. } => true,
            TeardownQuestionView::HardwareGone { .. } => true,
            TeardownQuestionView::Providers { .. } => true,
            TeardownQuestionView::ProvidersLeft { .. } => true,
            _ => false,
        },
        probe_spec(reply.ok, reply.stdout, reply.stderr, false) == ProbeOutcome::Error,
    ensures
        all_of(teardown::answer_spec(cfg, q, reply), |step: StepView| step is Fail),
        teardown::answer_spec(cfg, q, reply).steps.len() == 1,
{
    broadcast use group_all_of;

}

/// A query for one workload cluster whose outcome is unknown ends the run with an error.
pub proof fn law_unknown_workload_ends_the_run(
    cfg: Config,
    q: TeardownQuestionView,
    reply: ReplyView,
)
    requires
        match q {
            TeardownQuestionView::WorkloadState { .. } => true,
            TeardownQuestionView::WorkloadGone { .. } => true,
            _ => false,
        },
        probe_spec(reply.ok, reply.stdout, reply.stderr, true) == ProbeOutcome::Error,
    ensures
        all_of(teardown::answer_spec(cfg, q, reply), |step: StepView| step is Fail),
        teardown::answer_spec(cfg, q, reply).steps.len() == 1,
{
    broadcast use group_all_of;

}

} // verus!
