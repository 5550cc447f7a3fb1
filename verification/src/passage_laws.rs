//! What a pivot does on its way: what must be before the move, what the target gets before and after
//! it, and what is left at the end.
use vstd::prelude::*;

use crate::bootstrap;
use crate::checks::parse_duration_seconds_spec;
use crate::cleanup_laws::is_action;
use crate::cluster_laws::{
    end_brings, publishes, push_publishes, registry_answers, sleeps_and_asks,
};
use crate::context::PreflightView;
use crate::demolition_laws::deletes_kind_cluster;
use crate::duties::{brings_question, demanded_is_done, demands, done, duty, failure_brings, led};
use crate::handover_laws::{
    arrival, arrival_is_guarded, deletes_kind, handover, handover_duty, moved, target_kubectl,
};
use crate::install_laws::{
    applies_age_key, applies_token, awaits_instance, installs_instance, installs_operator,
    instance_is_demanded, named_by, opaque_secret, operator_is_demanded, pinned,
    secrets_are_demanded,
};
use crate::json::{json_text, JsonTree};
use crate::move_laws::preparation_is_guarded;
use crate::pivot;
use crate::pivot::PivotQuestionView;
use crate::question;
use crate::question::QuestionView;
use crate::rerun_laws::moves_inventory;
use crate::runs::{
    brings, group_guarded, group_some_of, happened, owed_brings, owes, precedes, run, some_of,
    some_of_each, supplies, Event,
};
use crate::script::{command, ActionView, ReplyView, RuleView, ScriptView, StepView};
use crate::settings::Config;
use crate::text::{texts, trim_end_spec, trim_spec};

verus! {

/// A question on its own.
pub open spec fn ask_pivot(q: PivotQuestionView) -> ScriptView {
    ScriptView::new().ask(QuestionView::Pivot(q))
}

/// A question that fails unless its reply is as it should be brings such a reply.
proof fn good_reply_is_had(cfg: Config, q: PivotQuestionView, first: spec_fn(Event) -> bool)
    requires
        forall|reply: ReplyView|
            first(Event::Performed(pivot::action_spec(cfg, q), reply)) || some_of(
                #[trigger] pivot::answer_spec(cfg, q, reply),
                |step: StepView| step is Fail,
            ),
    ensures
        supplies(cfg, ask_pivot(q), first),
{
    let asked = QuestionView::Pivot(q);
    assert forall|reply: ReplyView|
        first(Event::Performed(question::action_spec(cfg, asked), reply)) || supplies(
            cfg,
            #[trigger] question::answer_spec(cfg, asked, reply),
            first,
        ) by {
        let s = pivot::answer_spec(cfg, q, reply);
        assert(question::answer_spec(cfg, asked, reply) == s);
        if !first(Event::Performed(pivot::action_spec(cfg, q), reply)) {
            failure_brings(cfg, s, first);
        }
    }
    brings_question(cfg, asked, first);
    assert(ask_pivot(q).steps =~= seq![StepView::Ask(asked)]);
}

proof fn arrival_is(cfg: Config, preflight: PreflightView)
    ensures
        arrival(cfg, preflight).steps == ScriptView::new().ask(
            QuestionView::Pivot(PivotQuestionView::PivotContext),
        ).ask(QuestionView::Pivot(PivotQuestionView::PivotCluster)).join(
            if cfg.profile@ == "local-host"@ {
                ScriptView::new().ask(QuestionView::Pivot(PivotQuestionView::PivotRegistry))
            } else {
                ScriptView::new()
            },
        ).join(pivot::pivot_wait_for_management_cluster_spec(cfg)).join(
            pivot::pivot_export_kubeconfig_spec(cfg, preflight.engine),
        ).steps,
{
    let whole = ScriptView::new().ask(QuestionView::Pivot(PivotQuestionView::PivotContext)).ask(
        QuestionView::Pivot(PivotQuestionView::PivotCluster),
    ).join(
        if cfg.profile@ == "local-host"@ {
            ScriptView::new().ask(QuestionView::Pivot(PivotQuestionView::PivotRegistry))
        } else {
            ScriptView::new()
        },
    ).join(pivot::pivot_wait_for_management_cluster_spec(cfg)).join(
        pivot::pivot_export_kubeconfig_spec(cfg, preflight.engine),
    );
    let q = QuestionView::Pivot(PivotQuestionView::PivotRegistryConfig { preflight });
    assert(whole.ask(q) == pivot::run_pivot_spec(cfg, preflight));
    assert(arrival(cfg, preflight).steps =~= whole.steps);
}

// ---------------------------------------------------------------------------------------------
// Before the move
// ---------------------------------------------------------------------------------------------
/// That the current context is the one from which the inventory is to be moved.
pub open spec fn context_is_right(cfg: Config) -> spec_fn(Event) -> bool {
    |e: Event|
        match e {
            Event::Performed(a, reply) => a == ActionView::Lossy(
                command("kubectl"@).arg("config"@).arg("current-context"@),
            ) && trim_spec(reply.stdout) == cfg.bootstrap_kubecontext@,
            _ => false,
        }
}

/// The query for the management cluster in the kind cluster.
pub open spec fn asks_management_cluster(cfg: Config) -> ActionView {
    ActionView::Quiet(
        command("kubectl"@)
            .arg("get"@).arg("cluster"@).arg(cfg.environment.mgmt_cluster@).arg("-n"@)
            .arg(cfg.repo.bootstrap.mgmt_namespace@),
    )
}

/// A pivot moves the inventory only once it has seen that the current context is the configured one,
/// that the management cluster is in it, and, in the local environment, that the registry answers.
pub proof fn law_source_is_checked_before_the_move(
    cfg: Config,
    preflight: PreflightView,
    replies: Seq<ReplyView>,
)
    ensures
        ({
            let events = run(cfg, pivot::run_pivot_spec(cfg, preflight).steps, replies).events;
            let moves = |a: ActionView| moves_inventory(a);
            &&& precedes(events, context_is_right(cfg), moves)
            &&& precedes(events, done(is_action(asks_management_cluster(cfg))), moves)
            &&& cfg.profile@ == "local-host"@ ==> precedes(events, registry_answers(cfg), moves)
        }),
{
    broadcast use {group_guarded, group_some_of};

    arrival_is(cfg, preflight);
    let a = context_is_right(cfg);
    good_reply_is_had(cfg, PivotQuestionView::PivotContext, a);
    assert(supplies(cfg, arrival(cfg, preflight), a));
    arrival_is_guarded(cfg, preflight, a);
    let b = done(is_action(asks_management_cluster(cfg)));
    good_reply_is_had(cfg, PivotQuestionView::PivotCluster, b);
    assert(supplies(cfg, arrival(cfg, preflight), b));
    arrival_is_guarded(cfg, preflight, b);
    if cfg.profile@ == "local-host"@ {
        let c = registry_answers(cfg);
        good_reply_is_had(cfg, PivotQuestionView::PivotRegistry, c);
        assert(supplies(cfg, arrival(cfg, preflight), c));
        arrival_is_guarded(cfg, preflight, c);
    }
}

/// The query for the kubeconfig secret of the management cluster.
pub open spec fn asks_kubeconfig_secret(cfg: Config) -> ActionView {
    ActionView::Quiet(
        command("kubectl"@)
            .arg("get"@).arg("secret/"@ + cfg.environment.mgmt_cluster@ + "-kubeconfig"@)
            .arg("-n"@).arg(cfg.repo.bootstrap.mgmt_namespace@),
    )
}

/// The export of the kubeconfig of the management cluster.
pub open spec fn exports_kubeconfig(cfg: Config) -> ActionView {
    ActionView::Capture(
        command("clusterctl"@)
            .arg("get"@).arg("kubeconfig"@).arg(cfg.environment.mgmt_cluster@).arg("-n"@)
            .arg(cfg.repo.bootstrap.mgmt_namespace@),
    )
}

/// That the kubeconfig is written as a text, or was exported as another one.
pub open spec fn kubeconfig_is_written(cfg: Config, text: Seq<char>) -> spec_fn(Event) -> bool {
    |e: Event|
        match e {
            Event::Performed(a, reply) => reply.ok && {
                ||| a == ActionView::WriteFile(cfg.mgmt_kubeconfig@, text)
                ||| a == exports_kubeconfig(cfg) && reply.stdout != text
            },
            _ => false,
        }
}

/// That the context of the kubeconfig is renamed from a name, or had another name.
pub open spec fn context_is_renamed(cfg: Config, name: Seq<char>) -> spec_fn(Event) -> bool {
    |e: Event|
        match e {
            Event::Performed(a, reply) => reply.ok && {
                ||| a == ActionView::Run(
                    target_kubectl(cfg)
                        .arg("config"@).arg("rename-context"@).arg(name)
                        .arg(cfg.repo.bootstrap.mgmt_context@),
                )
                ||| a == ActionView::Capture(
                    target_kubectl(cfg).arg("config"@).arg("current-context"@),
                ) && trim_spec(reply.stdout) != name
            },
            _ => false,
        }
}

/// The wait for the nodes of the management cluster.
pub open spec fn awaits_target_nodes(cfg: Config) -> ActionView {
    ActionView::Run(
        target_kubectl(cfg)
            .arg("wait"@).arg("--for=condition=Ready"@).arg("node"@).arg("--all"@)
            .arg("--timeout=15m"@),
    )
}

proof fn secret_is_awaited(cfg: Config)
    ensures
        supplies(
            cfg,
            pivot::pivot_wait_for_management_cluster_spec(cfg),
            done(is_action(asks_kubeconfig_secret(cfg))),
        ),
{
    broadcast use group_some_of;

    let first = done(is_action(asks_kubeconfig_secret(cfg)));
    let kind = |step: StepView|
        match step {
            StepView::Fail(_) => true,
            StepView::Ask(QuestionView::Pivot(q)) => q is MgmtSecret,
            _ => false,
        };
    assert(owes(cfg, kind, first));
    let s = pivot::pivot_wait_for_management_cluster_spec(cfg);
    assert(kind(s.steps[1]));
    owed_brings(cfg, kind, first, s.steps);
}

proof fn kubeconfig_is_exported(cfg: Config, engine: Seq<char>, text: Seq<char>)
    ensures
        supplies(
            cfg,
            ask_pivot(PivotQuestionView::MgmtKubeconfig { engine }),
            kubeconfig_is_written(cfg, text),
        ),
        supplies(
            cfg,
            ask_pivot(PivotQuestionView::MgmtKubeconfig { engine }),
            done(is_action(ActionView::Restrict(cfg.mgmt_kubeconfig@))),
        ),
{
    broadcast use group_some_of;

    let q = QuestionView::Pivot(PivotQuestionView::MgmtKubeconfig { engine });
    let a = kubeconfig_is_written(cfg, text);
    let write = is_action(ActionView::WriteFile(cfg.mgmt_kubeconfig@, text));
    let restrict = is_action(ActionView::Restrict(cfg.mgmt_kubeconfig@));
    assert(ask_pivot(PivotQuestionView::MgmtKubeconfig { engine }).steps =~= seq![StepView::Ask(q)]);
    assert forall|reply: ReplyView|
        a(Event::Performed(question::action_spec(cfg, q), reply)) || supplies(
            cfg,
            #[trigger] question::answer_spec(cfg, q, reply),
            a,
        ) by {
        let s = question::answer_spec(cfg, q, reply);
        if !reply.ok {
            assert(s.steps[0] is Fail);
            failure_brings(cfg, s, a);
        } else if reply.stdout == text {
            assert(demands(write)(s.steps[0]));
            demanded_is_done(cfg, s, write);
            assert forall|replies: Seq<ReplyView>|
                (#[trigger] run(cfg, s.steps, replies)).left is Some implies happened(
                run(cfg, s.steps, replies).events,
                a,
            ) by {
                let events = run(cfg, s.steps, replies).events;
                let k = choose|k: int| 0 <= k < events.len() && done(write)(#[trigger] events[k]);
                assert(a(events[k]));
            }
        }
    }
    brings_question(cfg, q, a);
    assert forall|reply: ReplyView|
        supplies(cfg, #[trigger] question::answer_spec(cfg, q, reply), done(restrict)) by {
        let s = question::answer_spec(cfg, q, reply);
        if reply.ok {
            assert(demands(restrict)(s.steps[1]));
            demanded_is_done(cfg, s, restrict);
        } else {
            assert(s.steps[0] is Fail);
            failure_brings(cfg, s, done(restrict));
        }
    }
    brings_question(cfg, q, done(restrict));
}

proof fn context_gets_its_name(cfg: Config, name: Seq<char>)
    ensures
        supplies(cfg, ask_pivot(PivotQuestionView::MgmtCurrent), context_is_renamed(cfg, name)),
{
    broadcast use group_some_of;

    let q = QuestionView::Pivot(PivotQuestionView::MgmtCurrent);
    let a = context_is_renamed(cfg, name);
    let rename = is_action(
        ActionView::Run(
            target_kubectl(cfg)
                .arg("config"@).arg("rename-context"@).arg(name)
                .arg(cfg.repo.bootstrap.mgmt_context@),
        ),
    );
    assert(ask_pivot(PivotQuestionView::MgmtCurrent).steps =~= seq![StepView::Ask(q)]);
    assert forall|reply: ReplyView|
        a(Event::Performed(question::action_spec(cfg, q), reply)) || supplies(
            cfg,
            #[trigger] question::answer_spec(cfg, q, reply),
            a,
        ) by {
        let s = question::answer_spec(cfg, q, reply);
        if !reply.ok {
            assert(s.steps[0] is Fail);
            failure_brings(cfg, s, a);
        } else if trim_spec(reply.stdout) == name {
            assert(demands(rename)(s.steps[0]));
            demanded_is_done(cfg, s, rename);
            assert forall|replies: Seq<ReplyView>|
                (#[trigger] run(cfg, s.steps, replies)).left is Some implies happened(
                run(cfg, s.steps, replies).events,
                a,
            ) by {
                let events = run(cfg, s.steps, replies).events;
                let k = choose|k: int| 0 <= k < events.len() && done(rename)(#[trigger] events[k]);
                assert(a(events[k]));
            }
        }
    }
    brings_question(cfg, q, a);
}

/// A pivot moves the inventory only once the management cluster has its kubeconfig secret, the
/// kubeconfig that was exported has been written to its file as it was exported and the file is
/// restricted, its context has been renamed to the configured name, and the nodes are ready.
pub proof fn law_target_is_reached_before_the_move(
    cfg: Config,
    preflight: PreflightView,
    text: Seq<char>,
    name: Seq<char>,
    replies: Seq<ReplyView>,
)
    ensures
        ({
            let events = run(cfg, pivot::run_pivot_spec(cfg, preflight).steps, replies).events;
            let moves = |a: ActionView| moves_inventory(a);
            &&& precedes(events, done(is_action(asks_kubeconfig_secret(cfg))), moves)
            &&& precedes(events, kubeconfig_is_written(cfg, text), moves)
            &&& precedes(
                events,
                done(is_action(ActionView::Restrict(cfg.mgmt_kubeconfig@))),
                moves,
            )
            &&& precedes(events, context_is_renamed(cfg, name), moves)
            &&& precedes(events, done(is_action(awaits_target_nodes(cfg))), moves)
        }),
{
    broadcast use {group_guarded, group_some_of};

    arrival_is(cfg, preflight);
    secret_is_awaited(cfg);
    let a = done(is_action(asks_kubeconfig_secret(cfg)));
    assert(supplies(cfg, arrival(cfg, preflight), a));
    arrival_is_guarded(cfg, preflight, a);
    let engine = preflight.engine;
    kubeconfig_is_exported(cfg, engine, text);
    let b = kubeconfig_is_written(cfg, text);
    assert(supplies(cfg, pivot::pivot_export_kubeconfig_spec(cfg, engine), b));
    assert(supplies(cfg, arrival(cfg, preflight), b));
    arrival_is_guarded(cfg, preflight, b);
    let c = done(is_action(ActionView::Restrict(cfg.mgmt_kubeconfig@)));
    assert(supplies(cfg, pivot::pivot_export_kubeconfig_spec(cfg, engine), c));
    assert(supplies(cfg, arrival(cfg, preflight), c));
    arrival_is_guarded(cfg, preflight, c);
    context_gets_its_name(cfg, name);
    let d = context_is_renamed(cfg, name);
    assert(supplies(cfg, pivot::pivot_export_kubeconfig_spec(cfg, engine), d));
    assert(supplies(cfg, arrival(cfg, preflight), d));
    arrival_is_guarded(cfg, preflight, d);
    let nodes = is_action(awaits_target_nodes(cfg));
    let exported = pivot::pivot_export_kubeconfig_spec(cfg, engine);
    assert(demands(nodes)(exported.steps.last()));
    demanded_is_done(cfg, exported, nodes);
    assert(supplies(cfg, arrival(cfg, preflight), done(nodes)));
    arrival_is_guarded(cfg, preflight, done(nodes));
}

// ---------------------------------------------------------------------------------------------
// What the target gets before the move
// ---------------------------------------------------------------------------------------------
/// The installation of a chart of a repository in the target.
pub open spec fn chart_install(
    cfg: Config,
    release: Seq<char>,
    chart: Seq<char>,
    repository: Seq<char>,
    version: Seq<char>,
    namespace: Seq<char>,
    setting: Seq<char>,
    registry_config: Seq<char>,
) -> ActionView {
    ActionView::Run(
        command("helm"@)
            .arg("upgrade"@).arg("--install"@).arg(release).arg(chart).arg("--repo"@)
            .arg(repository).arg("--version"@).arg(version).arg("--namespace"@).arg(namespace)
            .arg("--create-namespace"@).arg("--wait"@).arg("--set"@).arg(setting)
            .arg("--registry-config"@).arg(registry_config).arg("--kubeconfig"@)
            .arg(cfg.mgmt_kubeconfig@),
    )
}

/// The installation of cert-manager, in the version that the configuration pins.
pub open spec fn cert_manager_install(cfg: Config, registry_config: Seq<char>) -> ActionView {
    chart_install(
        cfg,
        "cert-manager"@,
        "cert-manager"@,
        "https://charts.jetstack.io"@,
        pinned(cfg, "cert-manager"@),
        "cert-manager"@,
        "crds.enabled=true"@,
        registry_config,
    )
}

/// The installation of the CAPI operator, in the version that the configuration pins.
pub open spec fn capi_operator_install(cfg: Config, registry_config: Seq<char>) -> ActionView {
    chart_install(
        cfg,
        "capi-operator"@,
        "cluster-api-operator"@,
        "https://kubernetes-sigs.github.io/cluster-api-operator"@,
        pinned(cfg, "capi-operator"@),
        "capi-operator-system"@,
        "cert-manager.enabled=false"@,
        registry_config,
    )
}

/// Installs cert-manager.
pub open spec fn installs_cert_manager(cfg: Config) -> spec_fn(ActionView) -> bool {
    |a: ActionView|
        exists|registry_config: Seq<char>| a == #[trigger] cert_manager_install(
            cfg,
            registry_config,
        )
}

/// Installs the CAPI operator.
pub open spec fn installs_capi_operator(cfg: Config) -> spec_fn(ActionView) -> bool {
    |a: ActionView|
        exists|registry_config: Seq<char>| a == #[trigger] capi_operator_install(
            cfg,
            registry_config,
        )
}

/// The application of a manifest to the target.
pub open spec fn applies_to_target(cfg: Config, manifest: Seq<char>) -> ActionView {
    ActionView::Run(target_kubectl(cfg).arg("apply"@).arg("-f"@).arg(manifest))
}

/// The wait for providers in a namespace of the target.
pub open spec fn awaits_provider(
    cfg: Config,
    providers: Seq<Seq<char>>,
    namespace: Seq<char>,
) -> ActionView {
    ActionView::Run(
        target_kubectl(cfg)
            .arg("wait"@).arg("--for=condition=Ready"@).with_args(providers).arg("-n"@)
            .arg(namespace).arg("--timeout=15m"@),
    )
}

/// What both charts being pinned demands of the preparation, happens before the move.
proof fn prepared_first(cfg: Config, wanted: spec_fn(ActionView) -> bool)
    requires
        forall|registry_config: Seq<char>|
            some_of(
                #[trigger] pivot::pivot_install_capi_in_target_spec(cfg, registry_config),
                demands(wanted),
            ),
    ensures
        forall|replies: Seq<ReplyView>|
            precedes(
                #[trigger] run(cfg, bootstrap::run_bootstrap_spec(cfg).steps, replies).events,
                done(wanted),
                |a: ActionView| moves_inventory(a),
            ),
{
    assert forall|registry_config: Seq<char>|
        supplies(
            cfg,
            #[trigger] pivot::pivot_install_capi_in_target_spec(cfg, registry_config),
            done(wanted),
        ) by {
        demanded_is_done(
            cfg,
            pivot::pivot_install_capi_in_target_spec(cfg, registry_config),
            wanted,
        );
    }
    preparation_is_guarded(cfg, done(wanted));
}

/// What the operator part of the preparation demands, the preparation demands.
proof fn operator_part(cfg: Config, wanted: spec_fn(ActionView) -> bool)
    requires
        forall|version: Seq<char>, registry_config: Seq<char>|
            some_of(
                #[trigger] pivot::install_capi_operator_spec(cfg, version, registry_config),
                demands(wanted),
            ),
    ensures
        forall|registry_config: Seq<char>|
            some_of(
                #[trigger] pivot::pivot_install_capi_in_target_spec(cfg, registry_config),
                demands(wanted),
            ),
{
    broadcast use group_some_of;

    assert forall|registry_config: Seq<char>|
        some_of(
            #[trigger] pivot::pivot_install_capi_in_target_spec(cfg, registry_config),
            demands(wanted),
        ) by {
        let s = pivot::pivot_install_capi_in_target_spec(cfg, registry_config);
        match bootstrap::chart_result(cfg, "cert-manager"@) {
            Ok(version) => {
                match bootstrap::chart_result(cfg, "capi-operator"@) {
                    Ok(operator) => {
                        assert(some_of(
                            pivot::install_capi_operator_spec(cfg, operator, registry_config),
                            demands(wanted),
                        ));
                    },
                    Err(message) => {
                        let failing = ScriptView::new().fail(message);
                        assert(demands(wanted)(failing.steps[0]));
                        assert(some_of(failing, demands(wanted)));
                    },
                }
            },
            Err(message) => {
                assert(demands(wanted)(s.steps[0]));
            },
        }
    }
}

/// A bootstrap that pivots moves the inventory only once cert-manager and the CAPI operator are
/// installed in the target, each in the version that the configuration pins.
pub proof fn law_operators_are_installed_before_the_move(cfg: Config, replies: Seq<ReplyView>)
    ensures
        ({
            let events = run(cfg, bootstrap::run_bootstrap_spec(cfg).steps, replies).events;
            let moves = |a: ActionView| moves_inventory(a);
            &&& precedes(events, done(installs_cert_manager(cfg)), moves)
            &&& precedes(events, done(installs_capi_operator(cfg)), moves)
        }),
{
    broadcast use group_some_of;

    let a = installs_cert_manager(cfg);
    assert forall|registry_config: Seq<char>|
        some_of(
            #[trigger] pivot::pivot_install_capi_in_target_spec(cfg, registry_config),
            demands(a),
        ) by {
        let s = pivot::pivot_install_capi_in_target_spec(cfg, registry_config);
        match bootstrap::chart_result(cfg, "cert-manager"@) {
            Ok(version) => {
                assert(a(cert_manager_install(cfg, registry_config)));
                assert(demands(a)(s.steps[1]));
            },
            Err(message) => {
                assert(demands(a)(s.steps[0]));
            },
        }
    }
    prepared_first(cfg, a);
    let b = installs_capi_operator(cfg);
    assert forall|registry_config: Seq<char>|
        some_of(
            #[trigger] pivot::pivot_install_capi_in_target_spec(cfg, registry_config),
            demands(b),
        ) by {
        let s = pivot::pivot_install_capi_in_target_spec(cfg, registry_config);
        match bootstrap::chart_result(cfg, "cert-manager"@) {
            Ok(version) => {
                match bootstrap::chart_result(cfg, "capi-operator"@) {
                    Ok(operator) => {
                        assert(b(capi_operator_install(cfg, registry_config)));
                        assert(demands(b)(s.steps[3]));
                    },
                    Err(_) => {
                        assert(demands(b)(s.steps[2]));
                    },
                }
            },
            Err(message) => {
                assert(demands(b)(s.steps[0]));
            },
        }
    }
    prepared_first(cfg, b);
}

/// A bootstrap that pivots moves the inventory only once each provider manifest of the environment
/// has been applied to the target, and the target has all providers ready: the core, bootstrap and
/// control plane providers, the infrastructure provider of the environment, and the Helm add-on.
pub proof fn law_providers_are_ready_before_the_move(
    cfg: Config,
    i: int,
    replies: Seq<ReplyView>,
)
    requires
        0 <= i < cfg.environment.provider_manifests@.len(),
    ensures
        ({
            let events = run(cfg, bootstrap::run_bootstrap_spec(cfg).steps, replies).events;
            let moves = |a: ActionView| moves_inventory(a);
            let core = awaits_provider(cfg, seq!["coreprovider/cluster-api"@], "capi-system"@);
            let kubeadm = awaits_provider(
                cfg,
                seq!["bootstrapprovider/kubeadm"@, "controlplaneprovider/kubeadm"@],
                "capi-system"@,
            );
            let infra = awaits_provider(
                cfg,
                seq!["infrastructureprovider/"@ + cfg.environment.infra_provider_name@],
                cfg.environment.infra_provider_namespace@,
            );
            let addon = awaits_provider(cfg, seq!["addonprovider/helm"@], "caaph-system"@);
            let manifest = cfg.environment.provider_manifests@[i]@;
            &&& precedes(events, done(is_action(applies_to_target(cfg, manifest))), moves)
            &&& precedes(events, done(is_action(core)), moves)
            &&& precedes(events, done(is_action(kubeadm)), moves)
            &&& precedes(events, done(is_action(infra)), moves)
            &&& precedes(events, done(is_action(addon)), moves)
        }),
{
    let core = awaits_provider(cfg, seq!["coreprovider/cluster-api"@], "capi-system"@);
    let kubeadm = awaits_provider(
        cfg,
        seq!["bootstrapprovider/kubeadm"@, "controlplaneprovider/kubeadm"@],
        "capi-system"@,
    );
    let infra = awaits_provider(
        cfg,
        seq!["infrastructureprovider/"@ + cfg.environment.infra_provider_name@],
        cfg.environment.infra_provider_namespace@,
    );
    let addon = awaits_provider(cfg, seq!["addonprovider/helm"@], "caaph-system"@);
    let waits = pivot::await_providers_spec(cfg);
    provider_wait(cfg, core, 1);
    provider_wait(cfg, kubeadm, 2);
    provider_wait(cfg, infra, 3);
    provider_wait(cfg, addon, 4);
    let manifest = cfg.environment.provider_manifests@[i]@;
    let all = texts(cfg.environment.provider_manifests@);
    let one = |item: Seq<char>| pivot::apply_file_spec(item, cfg.mgmt_kubeconfig@);
    let wanted = is_action(applies_to_target(cfg, manifest));
    assert forall|version: Seq<char>, registry_config: Seq<char>|
        some_of(
            #[trigger] pivot::install_capi_operator_spec(cfg, version, registry_config),
            demands(wanted),
        ) by {
        broadcast use group_some_of;

        assert(all[i] == manifest);
        assert(demands(wanted)(one(manifest).steps[0]));
        some_of_each(all, one, demands(wanted), i);
    }
    operator_part(cfg, wanted);
    prepared_first(cfg, wanted);
}

proof fn provider_wait(cfg: Config, action: ActionView, at: int)
    requires
        1 <= at <= 4,
        action is Run,
        pivot::await_providers_spec(cfg).steps[at] is Do,
        (pivot::await_providers_spec(cfg).steps[at]->Do_0) is Run,
        (pivot::await_providers_spec(cfg).steps[at]->Do_0)->Run_0.args =~= action->Run_0.args,
        (pivot::await_providers_spec(cfg).steps[at]->Do_0)->Run_0.vars =~= action->Run_0.vars,
        action->Run_0.program == "kubectl"@,
    ensures
        forall|replies: Seq<ReplyView>|
            precedes(
                #[trigger] run(cfg, bootstrap::run_bootstrap_spec(cfg).steps, replies).events,
                done(is_action(action)),
                |a: ActionView| moves_inventory(a),
            ),
{
    let wanted = is_action(action);
    assert forall|version: Seq<char>, registry_config: Seq<char>|
        some_of(
            #[trigger] pivot::install_capi_operator_spec(cfg, version, registry_config),
            demands(wanted),
        ) by {
        broadcast use group_some_of;

        let waits = pivot::await_providers_spec(cfg);
        assert(demands(wanted)(waits.steps[at]));
        assert(some_of(waits, demands(wanted)));
    }
    operator_part(cfg, wanted);
    prepared_first(cfg, wanted);
}

/// The CAPA credentials as a secret of the target.
pub open spec fn applies_credentials(cfg: Config, credentials: Seq<char>) -> ActionView {
    ActionView::Feed(
        target_kubectl(cfg).arg("apply"@).arg("-f"@).arg("-"@),
        json_text(
            opaque_secret(
                "aws-credentials"@,
                "capa-system"@,
                JsonTree::object().with("AWS_B64ENCODED_CREDENTIALS"@, JsonTree::Text(credentials)),
            ),
        ),
    )
}

/// That credentials are applied to the target, or other ones were made.
pub open spec fn credentials_are_applied(cfg: Config, credentials: Seq<char>) -> spec_fn(
    Event,
) -> bool {
    |e: Event|
        match e {
            Event::Performed(a, reply) => reply.ok && {
                ||| a == applies_credentials(cfg, credentials)
                ||| a == ActionView::Capture(
                    command("mise"@)
                        .arg("-E"@).arg("aws"@).arg("run"@).arg("aws-credentials"@),
                ) && trim_end_spec(reply.stdout) != credentials
            },
            _ => false,
        }
}

/// On AWS, a bootstrap that pivots moves the inventory only once the CAPA credentials have been made
/// and applied to the target as they were made.
pub proof fn law_credentials_are_applied_before_the_move(
    cfg: Config,
    credentials: Seq<char>,
    replies: Seq<ReplyView>,
)
    requires
        cfg.profile@ == "aws"@,
    ensures
        precedes(
            run(cfg, bootstrap::run_bootstrap_spec(cfg).steps, replies).events,
            credentials_are_applied(cfg, credentials),
            |a: ActionView| moves_inventory(a),
        ),
{
    let first = credentials_are_applied(cfg, credentials);
    let q = QuestionView::Pivot(PivotQuestionView::AwsCredentials);
    let wanted = is_action(applies_credentials(cfg, credentials));
    assert forall|reply: ReplyView|
        first(Event::Performed(question::action_spec(cfg, q), reply)) || supplies(
            cfg,
            #[trigger] question::answer_spec(cfg, q, reply),
            first,
        ) by {
        broadcast use group_some_of;

        let s = question::answer_spec(cfg, q, reply);
        if !reply.ok {
            assert(s.steps[0] is Fail);
            failure_brings(cfg, s, first);
        } else if trim_end_spec(reply.stdout) == credentials {
            assert(demands(wanted)(s.steps[0]));
            demanded_is_done(cfg, s, wanted);
            assert forall|replies: Seq<ReplyView>|
                (#[trigger] run(cfg, s.steps, replies)).left is Some implies happened(
                run(cfg, s.steps, replies).events,
                first,
            ) by {
                let events = run(cfg, s.steps, replies).events;
                let k = choose|k: int|
                    0 <= k < events.len() && done(wanted)(#[trigger] events[k]);
                assert(first(events[k]));
            }
        }
    }
    brings_question(cfg, q, first);
    assert(ScriptView::new().ask(q).steps =~= seq![StepView::Ask(q)]);
    assert forall|registry_config: Seq<char>|
        supplies(
            cfg,
            #[trigger] pivot::pivot_install_capi_in_target_spec(cfg, registry_config),
            first,
        ) by {
        broadcast use {group_guarded, group_some_of};

        let s = pivot::pivot_install_capi_in_target_spec(cfg, registry_config);
        assert(supplies(cfg, pivot::aws_credentials_spec(cfg), first));
        match bootstrap::chart_result(cfg, "cert-manager"@) {
            Ok(version) => {
                match bootstrap::chart_result(cfg, "capi-operator"@) {
                    Ok(operator) => {
                        assert(supplies(
                            cfg,
                            pivot::install_capi_operator_spec(cfg, operator, registry_config),
                            first,
                        ));
                        assert(supplies(cfg, s, first));
                    },
                    Err(_) => {
                        assert(s.steps[2] is Fail);
                        failure_brings(cfg, s, first);
                    },
                }
            },
            Err(message) => {
                assert(s.steps[0] is Fail);
                failure_brings(cfg, s, first);
            },
        }
    }
    preparation_is_guarded(cfg, first);
}

// ---------------------------------------------------------------------------------------------
// After the move
// ---------------------------------------------------------------------------------------------
/// After the move, before the kind cluster goes and in any case before the end, the target gets the
/// Flux Operator and a FluxInstance that syncs from the configured source and becomes ready; where
/// the source is on GitHub, it gets both secrets; and in the local environment the artifact is
/// published once more.
pub proof fn law_target_gets_flux(cfg: Config, preflight: PreflightView, replies: Seq<ReplyView>)
    requires
        named_by(cfg, preflight.github),
    ensures
        ({
            let r = run(cfg, pivot::run_pivot_spec(cfg, preflight).steps, replies);
            let stop = |a: ActionView| deletes_kind(a);
            let target = Some(cfg.mgmt_kubeconfig@);
            &&& led(r, moved(), duty(done(installs_operator(cfg, target)), stop))
            &&& led(r, moved(), duty(done(installs_instance(cfg, target)), stop))
            &&& led(r, moved(), duty(done(awaits_instance(cfg, target)), stop))
            &&& preflight.github is Some ==> led(
                r,
                moved(),
                duty(done(applies_token(cfg, target)), stop),
            )
            &&& preflight.github is Some ==> led(
                r,
                moved(),
                duty(done(applies_age_key(cfg, target)), stop),
            )
            &&& cfg.profile@ == "local-host"@ ==> led(
                r,
                moved(),
                duty(done(publishes(cfg)), stop),
            )
        }),
{
    broadcast use group_some_of;

    let target = Some(cfg.mgmt_kubeconfig@);
    let a = installs_operator(cfg, target);
    let b = installs_instance(cfg, target);
    let c = awaits_instance(cfg, target);
    assert forall|registry_config: Seq<char>|
        some_of(
            #[trigger] pivot::pivot_seed_target_spec(cfg, preflight, registry_config),
            demands(a),
        ) by {
        operator_is_demanded(cfg, registry_config, target);
    }
    seeded(cfg, preflight, a);
    assert forall|registry_config: Seq<char>|
        some_of(
            #[trigger] pivot::pivot_seed_target_spec(cfg, preflight, registry_config),
            demands(b),
        ) by {
        instance_is_demanded(cfg, preflight.github, registry_config, target, None);
    }
    seeded(cfg, preflight, b);
    assert forall|registry_config: Seq<char>|
        some_of(
            #[trigger] pivot::pivot_seed_target_spec(cfg, preflight, registry_config),
            demands(c),
        ) by {
        instance_is_demanded(cfg, preflight.github, registry_config, target, None);
    }
    seeded(cfg, preflight, c);
    if let Some(github) = preflight.github {
        secrets_are_demanded(cfg, github, target);
        seeded(cfg, preflight, applies_token(cfg, target));
        seeded(cfg, preflight, applies_age_key(cfg, target));
    }
    if cfg.profile@ == "local-host"@ {
        let d = publishes(cfg);
        assert forall|registry_config: Seq<char>|
            some_of(
                #[trigger] pivot::pivot_seed_target_spec(cfg, preflight, registry_config),
                demands(d),
            ) by {
            push_publishes(cfg);
            let pushing = ScriptView::new().say(
                ">>> Publishing the current checkout as the OCI artifact..."@,
            ).perform(ActionView::Run(bootstrap::oci_push_spec(cfg)), RuleView::Require);
            assert(demands(d)(pushing.steps[1]));
            assert(some_of(pushing, demands(d)));
        }
        seeded(cfg, preflight, d);
    }
}

/// What the seeding of the target demands is done after the move.
proof fn seeded(cfg: Config, preflight: PreflightView, wanted: spec_fn(ActionView) -> bool)
    requires
        forall|registry_config: Seq<char>|
            some_of(
                #[trigger] pivot::pivot_seed_target_spec(cfg, preflight, registry_config),
                demands(wanted),
            ),
    ensures
        forall|replies: Seq<ReplyView>|
            led(
                #[trigger] run(cfg, pivot::run_pivot_spec(cfg, preflight).steps, replies),
                moved(),
                duty(done(wanted), |a: ActionView| deletes_kind(a)),
            ),
{
    broadcast use group_some_of;

    assert forall|registry_config: Seq<char>|
        supplies(cfg, (#[trigger] handover(cfg, preflight, registry_config)), done(wanted)) by {
        let s = handover(cfg, preflight, registry_config);
        assert(some_of(
            pivot::pivot_seed_target_spec(cfg, preflight, registry_config),
            demands(wanted),
        ));
        demanded_is_done(cfg, s, wanted);
    }
    handover_duty(cfg, preflight, done(wanted));
}

// ---------------------------------------------------------------------------------------------
// The end
// ---------------------------------------------------------------------------------------------
/// The move of the inventory to the management cluster.
pub open spec fn moves_to_target(cfg: Config) -> ActionView {
    ActionView::Run(
        command("clusterctl"@)
            .arg("move"@).arg("--to-kubeconfig"@).arg(cfg.mgmt_kubeconfig@).arg("-n"@)
            .arg(cfg.repo.bootstrap.mgmt_namespace@),
    )
}

/// What the move brings, or the end of a pivot, a bootstrap that pivots brings.
proof fn pivot_brings(cfg: Config, first: spec_fn(Event) -> bool)
    requires
        cfg.bootstrap_pivot,
        supplies(cfg, pivot::pivot_suspend_and_move_spec(cfg), first) || supplies(
            cfg,
            pivot::pivot_delete_bootstrap_cluster_spec(cfg),
            first,
        ),
    ensures
        brings(cfg, bootstrap::run_bootstrap_spec(cfg).steps, first),
{
    assert forall|preflight: PreflightView, ready: bool| named_by(
        cfg,
        preflight.github,
    ) implies supplies(
        cfg,
        #[trigger] bootstrap::finish_bootstrap_spec(cfg, preflight, ready),
        first,
    ) by {
        broadcast use {group_guarded, group_some_of};

        let q = QuestionView::Pivot(PivotQuestionView::PivotRegistryConfig { preflight });
        assert forall|reply: ReplyView|
            supplies(cfg, #[trigger] question::answer_spec(cfg, q, reply), first) by {
            let s = question::answer_spec(cfg, q, reply);
            if !reply.ok {
                assert(s.steps[0] is Fail);
                failure_brings(cfg, s, first);
            }
        }
        brings_question(cfg, q, first);
        assert(supplies(cfg, pivot::run_pivot_spec(cfg, preflight), first));
    }
    end_brings(cfg, first);
}

/// A bootstrap that pivots and comes to its end has moved the inventory, with success, to the
/// management cluster and out of its namespace.
pub proof fn law_pivot_moves_the_inventory(cfg: Config)
    requires
        cfg.bootstrap_pivot,
    ensures
        brings(
            cfg,
            bootstrap::run_bootstrap_spec(cfg).steps,
            done(is_action(moves_to_target(cfg))),
        ),
{
    broadcast use {group_guarded, group_some_of};

    let first = done(is_action(moves_to_target(cfg)));
    good_reply_is_had(cfg, PivotQuestionView::Move, first);
    assert(supplies(cfg, pivot::pivot_suspend_and_move_spec(cfg), first));
    pivot_brings(cfg, first);
}

/// A bootstrap that pivots and comes to its end has deleted the kind cluster, with success, unless it
/// is to be kept.
pub proof fn law_pivot_deletes_the_kind_cluster(cfg: Config)
    requires
        cfg.bootstrap_pivot,
        !cfg.pivot_skip_delete,
    ensures
        brings(
            cfg,
            bootstrap::run_bootstrap_spec(cfg).steps,
            done(is_action(deletes_kind_cluster(cfg))),
        ),
{
    broadcast use {group_guarded, group_some_of};

    let wanted = is_action(deletes_kind_cluster(cfg));
    let first = done(wanted);
    let q = PivotQuestionView::TargetClusters;
    let asked = QuestionView::Pivot(q);
    assert forall|reply: ReplyView|
        supplies(cfg, #[trigger] question::answer_spec(cfg, asked, reply), first) by {
        let s = question::answer_spec(cfg, asked, reply);
        if crate::text::entries_spec(reply.stdout).len() == 0 {
            assert(s.steps[1] is Fail);
            failure_brings(cfg, s, first);
        } else {
            let last = pivot::delete_bootstrap_kind_spec(cfg);
            let start = ScriptView::new().say(">>> Deleting the kind bootstrap cluster..."@).join(
                bootstrap::toolbox_exit_spec(cfg),
            );
            let n = start.steps.len() as int;
            assert(demands(wanted)(last.steps[n]));
            assert(some_of(last, demands(wanted)));
            demanded_is_done(cfg, last, wanted);
            assert(supplies(cfg, s, first));
        }
    }
    brings_question(cfg, asked, first);
    assert(pivot::pivot_delete_bootstrap_cluster_spec(cfg).steps =~= seq![StepView::Ask(asked)]);
    pivot_brings(cfg, first);
}

/// The wait for the kubeconfig secret, with some requests left.
pub open spec fn secret_wait(left: u64) -> Seq<StepView> {
    seq![StepView::Ask(QuestionView::Pivot(PivotQuestionView::MgmtSecret { left }))]
}

/// The kubeconfig secret is asked for again after the configured pause while it is missing and
/// requests are left, and its presence ends the wait. The wait starts with as many requests left as
/// the pause fits into the time, and with one at least.
pub proof fn law_kubeconfig_secret_is_asked_again(
    cfg: Config,
    left: u64,
    replies: Seq<ReplyView>,
)
    requires
        replies.len() >= 2,
    ensures
        parse_duration_seconds_spec(cfg.mgmt_ready_timeout@) matches Ok(timeout) ==> (
        cfg.mgmt_poll_interval > 0 && timeout >= cfg.mgmt_poll_interval && timeout / (
        cfg.mgmt_poll_interval as int) <= u64::MAX
            ==> pivot::pivot_wait_for_management_cluster_spec(cfg).steps[1] == secret_wait(
            (timeout / (cfg.mgmt_poll_interval as int)) as u64,
        )[0]),
        parse_duration_seconds_spec(cfg.mgmt_ready_timeout@) matches Ok(timeout) ==> (
        cfg.mgmt_poll_interval == 0 || 0 <= timeout < cfg.mgmt_poll_interval
            ==> pivot::pivot_wait_for_management_cluster_spec(cfg).steps[1] == secret_wait(1)[0]),
        ({
            let now = run(cfg, secret_wait(left), replies);
            &&& replies[0].ok ==> now.left == Some(replies.skip(1)) && now.events == seq![
                Event::Performed(asks_kubeconfig_secret(cfg), replies[0]),
            ]
            &&& !replies[0].ok && left > 0 ==> now == run(
                cfg,
                secret_wait((left - 1) as u64),
                replies.skip(2),
            ).after(
                Event::Performed(ActionView::Sleep(cfg.mgmt_poll_interval), replies[1]),
            ).after(Event::Performed(asks_kubeconfig_secret(cfg), replies[0]))
        }),
{
    let q = QuestionView::Pivot(PivotQuestionView::MgmtSecret { left });
    let one = secret_wait(left);
    assert(question::action_spec(cfg, q) == asks_kubeconfig_secret(cfg));
    let s = question::answer_spec(cfg, q, replies[0]).steps;
    assert(s + one.skip(1) =~= s);
    let rest = run(cfg, s, replies.skip(1));
    if replies[0].ok {
        assert(s =~= Seq::<StepView>::empty());
        assert(run(cfg, one, replies).events =~= seq![
            Event::Performed(asks_kubeconfig_secret(cfg), replies[0]),
        ]);
    } else if left > 0 {
        let next = QuestionView::Pivot(PivotQuestionView::MgmtSecret { left: (left - 1) as u64 });
        sleeps_and_asks(cfg, q, cfg.mgmt_poll_interval, next, replies);
    }
    if let Ok(timeout) = parse_duration_seconds_spec(cfg.mgmt_ready_timeout@) {
        let interval = cfg.mgmt_poll_interval as int;
        if interval > 0 && timeout >= interval {
            assert(timeout / interval >= 1) by (nonlinear_arith)
                requires
                    interval > 0,
                    timeout >= interval,
            ;
        }
        if interval > 0 && 0 <= timeout < interval {
            assert(timeout / interval == 0) by (nonlinear_arith)
                requires
                    interval > 0,
                    0 <= timeout < interval,
            ;
        }
    }
}

} // verus!
