//! What a teardown takes down: what it finds on the controller host goes, and so does the host.
use vstd::prelude::*;

use crate::cleanup_laws::{is_action, performed, performing, step_of, steps_perform};
use crate::duties::{brings_question, tried};
use crate::context::TeardownConfigView;
use crate::kube::{ControllerHost, K8sTargetView};
use crate::patience_laws::{has_listed, kubectl_to};
use crate::question;
use crate::question::QuestionView;
use crate::runs::{
    group_guarded, group_some_of, happened, run, some_of, some_of_each, some_of_join, supplies,
    Event,
};
use crate::script::{
    command, for_each_spec, ActionView, CommandView, ReplyView, ScriptView, StepView,
};
use crate::settings::Config;
use crate::stretches::{
    answered, failing_holds, finishes, group_holds, has_stretch, holds, holds_each, holds_join,
    holds_question, holds_whole, question_is_answered,
};
use crate::sweep::sweep_spec;
use crate::teardown;
use crate::teardown::{ProviderKind, TeardownQuestionView};
use crate::text::{
    contains_spec, entries_spec, has_line_spec, is_blank_spec, split_once_spec, starts_with_spec,
    texts,
};

verus! {

/// A question on its own.
pub open spec fn ask_for(q: TeardownQuestionView) -> ScriptView {
    ScriptView::new().ask(QuestionView::Teardown(q))
}

/// A question after whose reply, where it is as it should be, an action is performed.
proof fn reply_is_acted_on(
    cfg: Config,
    q: TeardownQuestionView,
    when: spec_fn(ReplyView) -> bool,
    action: ActionView,
)
    requires
        forall|reply: ReplyView|
            when(reply) ==> supplies(
                cfg,
                #[trigger] teardown::answer_spec(cfg, q, reply),
                tried(is_action(action)),
            ),
    ensures
        finishes(
            cfg,
            ask_for(q),
            answered(teardown::action_spec(cfg, q), performing_when(when, action)),
        ),
        holds(
            cfg,
            ask_for(q),
            answered(teardown::action_spec(cfg, q), performing_when(when, action)),
        ),
{
    let asked = QuestionView::Teardown(q);
    let rest = performing_when(when, action);
    assert forall|reply: ReplyView|
        finishes(
            cfg,
            #[trigger] question::answer_spec(cfg, asked, reply),
            |events: Seq<Event>| rest(reply, events),
        ) by {
        let s = teardown::answer_spec(cfg, q, reply);
        assert(question::answer_spec(cfg, asked, reply) == s);
        if when(reply) {
            assert(supplies(cfg, s, tried(is_action(action))));
        }
    }
    question_is_answered(cfg, asked, rest);
}

/// That an action is performed where the reply is of a kind.
pub open spec fn performing_when(when: spec_fn(ReplyView) -> bool, action: ActionView) -> spec_fn(
    ReplyView,
    Seq<Event>,
) -> bool {
    |reply: ReplyView, events: Seq<Event>| when(reply) ==> performed(events, action)
}

// ---------------------------------------------------------------------------------------------
// Helm releases and secrets
// ---------------------------------------------------------------------------------------------
/// helm, bound to a target.
pub open spec fn helm_to(target: K8sTargetView) -> CommandView {
    match target {
        K8sTargetView::Kind { context } => command("helm"@).arg("--kube-context"@).arg(context),
        K8sTargetView::SelfManaged { kubeconfig } => command("helm"@)
            .arg("--kubeconfig"@).arg(kubeconfig),
    }
}

/// Whether the status of a release shows that it is installed.
pub open spec fn is_installed() -> spec_fn(ReplyView) -> bool {
    |reply: ReplyView|
        !is_blank_spec(reply.stdout) && !contains_spec(reply.stdout, "not found"@)
            && !contains_spec(reply.stdout, "Error"@)
}

/// That a Helm release is uninstalled where its status shows that it is installed.
pub open spec fn release_goes(release: Seq<char>, target: K8sTargetView) -> spec_fn(
    Seq<Event>,
) -> bool {
    answered(
        ActionView::Lossy(
            helm_to(target).arg("status"@).arg(release).arg("-n"@).arg("flux-system"@),
        ),
        performing_when(
            is_installed(),
            ActionView::Run(
                helm_to(target)
                    .arg("uninstall"@).arg(release).arg("--namespace"@).arg("flux-system"@)
                    .arg("--wait"@).arg("--timeout"@).arg("5m0s"@),
            ),
        ),
    )
}

/// kubectl and helm are bound to a target by an option and its value.
pub proof fn helm_is_bound(target: K8sTargetView)
    ensures
        crate::commands::helm_on_spec(target) == helm_to(target),
        crate::commands::kubectl_on_spec(target) == kubectl_to(target),
{
    assert(crate::commands::helm_on_spec(target).args =~= helm_to(target).args);
    assert(crate::commands::kubectl_on_spec(target).args =~= kubectl_to(target).args);
}

/// A Helm release that is installed is uninstalled.
pub proof fn law_releases_are_uninstalled(cfg: Config, release: Seq<char>, target: K8sTargetView)
    ensures
        holds(cfg, teardown::uninstall_helm_spec(release, target), release_goes(release, target)),
{
    broadcast use {group_guarded, group_holds};

    let status = TeardownQuestionView::HelmStatus { target, release };
    let removal = TeardownQuestionView::HelmUninstall { target, release };
    let action = ActionView::Run(
        helm_to(target)
            .arg("uninstall"@).arg(release).arg("--namespace"@).arg("flux-system"@)
            .arg("--wait"@).arg("--timeout"@).arg("5m0s"@),
    );
    let first = tried(is_action(action));
    helm_is_bound(target);
    assert(teardown::action_spec(cfg, removal) == action);
    brings_question(cfg, QuestionView::Teardown(removal), first);
    assert forall|reply: ReplyView| is_installed()(reply) implies supplies(
        cfg,
        #[trigger] teardown::answer_spec(cfg, status, reply),
        first,
    ) by {
        assert(teardown::answer_spec(cfg, status, reply).steps =~= seq![
            StepView::Ask(QuestionView::Teardown(removal)),
        ]);
    }
    reply_is_acted_on(cfg, status, is_installed(), action);
}

/// The deletion of a secret.
pub open spec fn deletes_secret(
    target: K8sTargetView,
    secret: Seq<char>,
    namespace: Seq<char>,
) -> ActionView {
    ActionView::Run(
        kubectl_to(target)
            .arg("delete"@).arg("secret"@).arg(secret).arg("-n"@).arg(namespace)
            .arg("--ignore-not-found"@),
    )
}

/// The clean-up of a host uninstalls both Helm releases of Flux where they are installed, and deletes
/// the three secrets, each in its namespace.
pub proof fn law_host_is_cleaned(cfg: Config, target: K8sTargetView, replies: Seq<ReplyView>)
    requires
        cfg.repo.bootstrap.github_pat_secret@ != "aws-credentials"@,
        cfg.repo.bootstrap.sops_age_secret@ != "aws-credentials"@,
        run(cfg, teardown::uninstall_helm_and_secrets_spec(cfg, target).steps, replies).left is Some,
    ensures
        ({
            let events = run(
                cfg,
                teardown::uninstall_helm_and_secrets_spec(cfg, target).steps,
                replies,
            ).events;
            let flux = cfg.repo.bootstrap.flux_namespace@;
            &&& has_stretch(events, release_goes("flux"@, target))
            &&& has_stretch(events, release_goes("flux-operator"@, target))
            &&& performed(
                events,
                deletes_secret(target, cfg.repo.bootstrap.github_pat_secret@, flux),
            )
            &&& performed(
                events,
                deletes_secret(target, cfg.repo.bootstrap.sops_age_secret@, flux),
            )
            &&& performed(events, deletes_secret(target, "aws-credentials"@, "capa-system"@))
        }),
{
    broadcast use {group_holds, group_some_of};

    let s = teardown::uninstall_helm_and_secrets_spec(cfg, target);
    let flux = cfg.repo.bootstrap.flux_namespace@;
    helm_is_bound(target);
    law_releases_are_uninstalled(cfg, "flux"@, target);
    law_releases_are_uninstalled(cfg, "flux-operator"@, target);
    assert(holds(cfg, s, release_goes("flux"@, target)));
    assert(holds(cfg, s, release_goes("flux-operator"@, target)));
    let a = deletes_secret(target, cfg.repo.bootstrap.github_pat_secret@, flux);
    let pat = teardown::delete_secret_spec(cfg, cfg.repo.bootstrap.github_pat_secret@, target);
    assert(step_of(a)(pat.steps.last()));
    assert(some_of(pat, step_of(a)));
    steps_perform(cfg, s, a);
    let b = deletes_secret(target, cfg.repo.bootstrap.sops_age_secret@, flux);
    let age = teardown::delete_secret_spec(cfg, cfg.repo.bootstrap.sops_age_secret@, target);
    assert(step_of(b)(age.steps.last()));
    assert(some_of(age, step_of(b)));
    steps_perform(cfg, s, b);
    let c = deletes_secret(target, "aws-credentials"@, "capa-system"@);
    let keys = teardown::delete_secret_spec(cfg, "aws-credentials"@, target);
    assert(step_of(c)(keys.steps.last()));
    assert(some_of(keys, step_of(c)));
    steps_perform(cfg, s, c);
    let events = run(cfg, s.steps, replies).events;
    assert(performing(a)(events));
    assert(performing(b)(events));
    assert(performing(c)(events));
}

// ---------------------------------------------------------------------------------------------
// Providers
// ---------------------------------------------------------------------------------------------
/// The resource of a kind of provider.
pub open spec fn provider_resource(kind: ProviderKind) -> Seq<char> {
    match kind {
        ProviderKind::Addon => "addonproviders"@ + ".operator.cluster.x-k8s.io"@,
        ProviderKind::ControlPlane => "controlplaneproviders"@ + ".operator.cluster.x-k8s.io"@,
        ProviderKind::Bootstrap => "bootstrapproviders"@ + ".operator.cluster.x-k8s.io"@,
        ProviderKind::Infrastructure => "infrastructureproviders"@ + ".operator.cluster.x-k8s.io"@,
        ProviderKind::Core => "coreproviders"@ + ".operator.cluster.x-k8s.io"@,
    }
}

/// The listing of the providers of a kind, each as its namespace and its name.
pub open spec fn lists_providers(target: K8sTargetView, kind: ProviderKind) -> ActionView {
    ActionView::Inspect(
        kubectl_to(target)
            .arg("get"@).arg(provider_resource(kind)).arg("-A"@).arg("-o"@)
            .arg(
                "jsonpath={range .items[*]}{.metadata.namespace}/{.metadata.name}{\"\\n\"}{end}"@,
            )
            .arg("--request-timeout=30s"@),
    )
}

/// The deletion of a provider.
pub open spec fn deletes_provider(
    target: K8sTargetView,
    kind: ProviderKind,
    namespace: Seq<char>,
    name: Seq<char>,
) -> ActionView {
    ActionView::Run(
        kubectl_to(target)
            .arg("delete"@).arg(provider_resource(kind)).arg(name).arg("-n"@).arg(namespace)
            .arg("--ignore-not-found"@),
    )
}

/// That each listed provider is deleted in its namespace.
pub open spec fn providers_go(target: K8sTargetView, kind: ProviderKind) -> spec_fn(
    ReplyView,
    Seq<Event>,
) -> bool {
    |reply: ReplyView, events: Seq<Event>|
        has_listed(reply) ==> forall|namespace: Seq<char>, name: Seq<char>|
            !namespace.contains('/') && entries_spec(reply.stdout).contains(
                #[trigger] (namespace + "/"@ + name),
            ) ==> performed(events, deletes_provider(target, kind, namespace, name))
}

proof fn split_at_first_slash(namespace: Seq<char>, name: Seq<char>)
    requires
        !namespace.contains('/'),
    ensures
        split_once_spec(namespace + "/"@ + name, '/') == Some((namespace, name)),
    decreases namespace.len(),
{
    reveal_strlit("/");
    let all = namespace + "/"@ + name;
    if namespace.len() == 0 {
        assert(all.skip(1) =~= name);
        assert(namespace =~= Seq::<char>::empty());
    } else {
        assert(namespace.contains(namespace[0]));
        let later = namespace.skip(1);
        assert forall|c: char| later.contains(c) implies namespace.contains(c) by {
            let k = choose|k: int| 0 <= k < later.len() && later[k] == c;
            assert(namespace[k + 1] == c);
        }
        split_at_first_slash(later, name);
        assert(all.skip(1) =~= later + "/"@ + name);
        assert(seq![all[0]] + later =~= namespace);
    }
}

/// How many kinds of providers come after a kind.
pub open spec fn kinds_after(kind: ProviderKind) -> nat {
    match kind {
        ProviderKind::Addon => 4,
        ProviderKind::ControlPlane => 3,
        ProviderKind::Bootstrap => 2,
        ProviderKind::Infrastructure => 1,
        ProviderKind::Core => 0,
    }
}

proof fn kind_of_providers_goes(
    cfg: Config,
    target: K8sTargetView,
    timeout: u64,
    kind: ProviderKind,
    deleted: bool,
)
    ensures
        holds(
            cfg,
            ask_for(TeardownQuestionView::Providers { target, timeout, kind, deleted }),
            answered(lists_providers(target, kind), providers_go(target, kind)),
        ),
{
    let tq = TeardownQuestionView::Providers { target, timeout, kind, deleted };
    let q = QuestionView::Teardown(tq);
    let rest = providers_go(target, kind);
    helm_is_bound(target);
    assert(kind.resource_spec() == provider_resource(kind));
    assert(question::action_spec(cfg, q) == lists_providers(target, kind));
    assert forall|reply: ReplyView|
        finishes(
            cfg,
            #[trigger] question::answer_spec(cfg, q, reply),
            |events: Seq<Event>| rest(reply, events),
        ) by {
        let s = question::answer_spec(cfg, q, reply);
        if has_listed(reply) {
            let found = entries_spec(reply.stdout);
            let one = |item: Seq<char>| teardown::delete_provider_spec(item, target, kind);
            let each = for_each_spec(found, one);
            let start = ScriptView::new().join(each);
            let end = teardown::next_provider_spec(
                target,
                timeout,
                kind,
                deleted || found.len() > 0,
            );
            assert(s == start.join(end));
            assert forall|replies: Seq<ReplyView>|
                (#[trigger] run(cfg, s.steps, replies)).left is Some implies rest(
                reply,
                run(cfg, s.steps, replies).events,
            ) by {
                let events = run(cfg, s.steps, replies).events;
                assert forall|namespace: Seq<char>, name: Seq<char>|
                    !namespace.contains('/') && found.contains(
                        #[trigger] (namespace + "/"@ + name),
                    ) implies performed(
                    events,
                    deletes_provider(target, kind, namespace, name),
                ) by {
                    let item = namespace + "/"@ + name;
                    let a = deletes_provider(target, kind, namespace, name);
                    split_at_first_slash(namespace, name);
                    let i = choose|i: int| 0 <= i < found.len() && found[i] == item;
                    assert(step_of(a)(one(item).steps.last()));
                    some_of_each(found, one, step_of(a), i);
                    some_of_join(ScriptView::new(), each, step_of(a));
                    some_of_join(start, end, step_of(a));
                    steps_perform(cfg, s, a);
                    assert(performing(a)(events));
                }
            }
        }
    }
    question_is_answered(cfg, q, rest);
}

proof fn all_later_providers_go(
    cfg: Config,
    target: K8sTargetView,
    timeout: u64,
    at: ProviderKind,
    deleted: bool,
    kind: ProviderKind,
)
    requires
        kinds_after(kind) <= kinds_after(at),
    ensures
        holds(
            cfg,
            ask_for(TeardownQuestionView::Providers { target, timeout, kind: at, deleted }),
            answered(lists_providers(target, kind), providers_go(target, kind)),
        ),
    decreases kinds_after(at),
{
    broadcast use group_some_of;

    if at == kind {
        kind_of_providers_goes(cfg, target, timeout, kind, deleted);
    } else {
        let tq = TeardownQuestionView::Providers { target, timeout, kind: at, deleted };
        let q = QuestionView::Teardown(tq);
        let wanted = answered(lists_providers(target, kind), providers_go(target, kind));
        assert forall|reply: ReplyView|
            holds(cfg, #[trigger] question::answer_spec(cfg, q, reply), wanted) by {
            let s = question::answer_spec(cfg, q, reply);
            let outcome = crate::kube::probe_spec(reply.ok, reply.stdout, reply.stderr, false);
            if outcome == crate::kube::ProbeOutcome::Error {
                assert(s.steps[0] is Fail);
                failing_holds(cfg, s, wanted);
            } else {
                let found = teardown::listed_spec(outcome, reply.stdout);
                let after = deleted || found.len() > 0;
                let next = at.next_spec()->0;
                let one = |item: Seq<char>| teardown::delete_provider_spec(item, target, at);
                let start = ScriptView::new().join(for_each_spec(found, one));
                let end = teardown::next_provider_spec(target, timeout, at, after);
                all_later_providers_go(cfg, target, timeout, next, after, kind);
                assert(end == ask_for(
                    TeardownQuestionView::Providers { target, timeout, kind: next, deleted: after },
                ));
                assert(s == start.join(end));
                holds_join(cfg, start, end, wanted);
            }
        }
        holds_question(cfg, q, wanted);
    }
}

/// The providers of every kind are listed, and each one that is listed is deleted in its namespace.
pub proof fn law_listed_providers_are_deleted(
    cfg: Config,
    target: K8sTargetView,
    timeout: u64,
    kind: ProviderKind,
    replies: Seq<ReplyView>,
)
    requires
        run(cfg, teardown::delete_capi_providers_spec(target, timeout).steps, replies).left is Some,
    ensures
        has_stretch(
            run(cfg, teardown::delete_capi_providers_spec(target, timeout).steps, replies).events,
            answered(lists_providers(target, kind), providers_go(target, kind)),
        ),
{
    broadcast use group_holds;

    let wanted = answered(lists_providers(target, kind), providers_go(target, kind));
    all_later_providers_go(cfg, target, timeout, ProviderKind::Addon, false, kind);
    assert(holds(cfg, teardown::delete_capi_providers_spec(target, timeout), wanted));
}

// ---------------------------------------------------------------------------------------------
// Containers
// ---------------------------------------------------------------------------------------------
/// That the registry container is removed where it is listed.
pub open spec fn registry_goes(engine: Seq<char>, name: Seq<char>) -> spec_fn(Seq<Event>) -> bool {
    answered(
        ActionView::Lossy(
            command(engine)
                .arg("ps"@).arg("-a"@).arg("--filter"@).arg("name=^"@ + name + "$"@)
                .arg("--format"@).arg("{{.Names}}"@),
        ),
        performing_when(
            |reply: ReplyView| has_line_spec(reply.stdout, name),
            ActionView::Run(command(engine).arg("rm"@).arg("-f"@).arg(name)),
        ),
    )
}

/// The registry container is removed where it is listed.
pub proof fn law_registry_is_removed(cfg: Config, engine: Seq<char>, name: Seq<char>)
    ensures
        finishes(
            cfg,
            teardown::remove_registry_container_spec(Some(engine), name),
            registry_goes(engine, name),
        ),
{
    broadcast use group_guarded;

    let there = TeardownQuestionView::RegistryThere { engine, name };
    let removal = TeardownQuestionView::RegistryRemoved { engine, name };
    let action = ActionView::Run(command(engine).arg("rm"@).arg("-f"@).arg(name));
    let first = tried(is_action(action));
    let when = |reply: ReplyView| has_line_spec(reply.stdout, name);
    assert(teardown::action_spec(cfg, removal) == action);
    brings_question(cfg, QuestionView::Teardown(removal), first);
    assert forall|reply: ReplyView| when(reply) implies supplies(
        cfg,
        #[trigger] teardown::answer_spec(cfg, there, reply),
        first,
    ) by {
        assert(seq![StepView::Ask(QuestionView::Teardown(removal))] =~= ScriptView::new().ask(
            QuestionView::Teardown(removal),
        ).steps);
        let line = ">>> Removing local registry container '"@ + name + "'..."@;
        let s = teardown::answer_spec(cfg, there, reply);
        assert(s.steps =~= ScriptView::new().say(line).join(
            ScriptView::new().ask(QuestionView::Teardown(removal)),
        ).steps);
        assert(supplies(cfg, ScriptView::new().ask(QuestionView::Teardown(removal)), first));
        assert(supplies(
            cfg,
            ScriptView::new().say(line).join(
                ScriptView::new().ask(QuestionView::Teardown(removal)),
            ),
            first,
        ));
    }
    reply_is_acted_on(cfg, there, when, action);
}

/// The deletion of the kind cluster.
pub open spec fn deletes_kind_cluster(cfg: Config) -> ActionView {
    ActionView::Run(
        command("kind"@)
            .arg("delete"@).arg("cluster"@).arg("--name"@).arg(cfg.repo.bootstrap.kind_cluster@),
    )
}

proof fn kind_delete_brings(cfg: Config)
    ensures
        supplies(
            cfg,
            ask_for(TeardownQuestionView::KindDelete),
            tried(is_action(deletes_kind_cluster(cfg))),
        ),
{
    let q = QuestionView::Teardown(TeardownQuestionView::KindDelete);
    assert(question::action_spec(cfg, q) == deletes_kind_cluster(cfg));
    brings_question(cfg, q, tried(is_action(deletes_kind_cluster(cfg))));
    assert(ask_for(TeardownQuestionView::KindDelete).steps =~= seq![StepView::Ask(q)]);
}

/// A teardown whose controllers run on the kind cluster deletes the kind cluster before it ends,
/// whatever the environment is: on AWS unless only AWS is to be cleaned, on a local host, and where
/// hardware is released.
pub proof fn law_kind_host_is_deleted(
    cfg: Config,
    knobs: TeardownConfigView,
    aws: bool,
    engine: Option<Seq<char>>,
)
    ensures
        !knobs.aws_only ==> supplies(
            cfg,
            teardown::teardown_aws_spec(cfg, knobs, aws, ControllerHost::Kind),
            tried(is_action(deletes_kind_cluster(cfg))),
        ),
        supplies(
            cfg,
            teardown::release_hardware_spec(cfg, knobs, ControllerHost::Kind),
            tried(is_action(deletes_kind_cluster(cfg))),
        ),
        supplies(
            cfg,
            teardown::teardown_local_kind_spec(cfg, engine),
            tried(is_action(deletes_kind_cluster(cfg))),
        ),
{
    broadcast use group_guarded;

    kind_delete_brings(cfg);
    let first = tried(is_action(deletes_kind_cluster(cfg)));
    let q = QuestionView::Teardown(TeardownQuestionView::KindDelete);
    assert(supplies(cfg, ScriptView::new().ask(q), first));
    if !knobs.aws_only {
        let guard = crate::kube::HostGuard::resolve_spec(true, knobs.force_host_delete);
        assert(guard != crate::kube::HostGuard::Refuse);
        assert(supplies(
            cfg,
            teardown::remove_host_spec(cfg, ControllerHost::Kind, guard),
            first,
        ));
        assert(supplies(
            cfg,
            teardown::teardown_aws_spec(cfg, knobs, aws, ControllerHost::Kind),
            first,
        ));
    }
    assert(supplies(
        cfg,
        teardown::release_hardware_spec(cfg, knobs, ControllerHost::Kind),
        first,
    ));
    assert(supplies(cfg, teardown::teardown_local_kind_spec(cfg, engine), first));
}

/// A teardown on AWS does all that the sweep does, where the AWS CLI is there, and whatever became of
/// the controller host.
pub proof fn law_aws_teardown_sweeps(
    cfg: Config,
    knobs: TeardownConfigView,
    host: ControllerHost,
    kind: spec_fn(Seq<Event>) -> bool,
)
    requires
        holds(cfg, sweep_spec(cfg), kind),
    ensures
        holds(cfg, teardown::teardown_aws_spec(cfg, knobs, true, host), kind),
{
    broadcast use group_holds;

    assert(holds(cfg, teardown::teardown_aws_spec(cfg, knobs, true, host), kind));
}

/// The host on which a teardown works.
pub open spec fn host_target(cfg: Config, knobs: TeardownConfigView, host: ControllerHost) -> Option<
    K8sTargetView,
> {
    match host {
        ControllerHost::Kind => Some(
            K8sTargetView::Kind { context: cfg.repo.bootstrap.kind_context@ },
        ),
        ControllerHost::SelfManaged => Some(
            K8sTargetView::SelfManaged { kubeconfig: knobs.mgmt_kubeconfig },
        ),
        ControllerHost::Unreachable => None,
    }
}

/// A teardown on AWS whose controller host can be reached deletes the workload clusters on that host,
/// with the time and the force that it was given; and unless the sweep deletes the management
/// cluster itself, it cleans the host of providers, releases and secrets.
pub proof fn law_aws_teardown_works_on_the_host(
    cfg: Config,
    knobs: TeardownConfigView,
    aws: bool,
    host: ControllerHost,
    kind: spec_fn(Seq<Event>) -> bool,
)
    requires
        host_target(cfg, knobs, host) is Some,
    ensures
        ({
            let target = host_target(cfg, knobs, host)->0;
            let whole = teardown::teardown_aws_spec(cfg, knobs, aws, host);
            let swept = aws && host is SelfManaged
                && cfg.environment.teardown.mgmt_eks_cluster_name is Some
                && cfg.environment.teardown.mgmt_iam_role_prefix is Some;
            &&& !knobs.aws_only && holds(
                cfg,
                teardown::delete_aws_workload_clusters_spec(
                    target,
                    cfg.environment.mgmt_cluster@,
                    knobs.cluster_delete_timeout,
                    knobs.force_host_delete,
                ),
                kind,
            ) ==> holds(cfg, whole, kind)
            &&& !swept && holds(
                cfg,
                teardown::delete_capi_providers_spec(target, knobs.provider_delete_timeout),
                kind,
            ) ==> holds(cfg, whole, kind)
            &&& !swept && holds(
                cfg,
                teardown::uninstall_helm_and_secrets_spec(cfg, target),
                kind,
            ) ==> holds(cfg, whole, kind)
        }),
{
    broadcast use group_holds;

}

/// The removal of containers, of which one has a name and all have a prefix.
pub open spec fn removes_container(
    engine: Seq<char>,
    prefix: Seq<char>,
    name: Seq<char>,
) -> spec_fn(ActionView) -> bool {
    |a: ActionView|
        match a {
            ActionView::Run(c) => {
                &&& c.program == engine
                &&& c.args.len() > 2
                &&& c.args[0] == "rm"@
                &&& c.args[1] == "-f"@
                &&& c.args.skip(2).contains(name)
                &&& forall|i: int|
                    2 <= i < c.args.len() ==> starts_with_spec(#[trigger] c.args[i], prefix)
            },
            _ => false,
        }
}

/// That each listed container whose name has a prefix is removed, and no other with it.
pub open spec fn containers_go(engine: Seq<char>, prefix: Seq<char>) -> spec_fn(
    ReplyView,
    Seq<Event>,
) -> bool {
    |reply: ReplyView, events: Seq<Event>|
        forall|name: Seq<char>|
            has_line_spec(reply.stdout, name) && #[trigger] starts_with_spec(name, prefix)
                ==> happened(events, tried(removes_container(engine, prefix, name)))
}

/// The containers of a management cluster that are listed are removed, and no others with them.
pub proof fn law_containers_are_removed(cfg: Config, engine: Seq<char>, prefix: Seq<char>)
    ensures
        finishes(
            cfg,
            teardown::remove_local_mgmt_containers_spec(engine, prefix),
            answered(
                ActionView::Lossy(
                    command(engine).arg("ps"@).arg("-a"@).arg("--format"@).arg("{{.Names}}"@),
                ),
                containers_go(engine, prefix),
            ),
        ),
{
    let q = QuestionView::Teardown(TeardownQuestionView::MgmtContainers { engine, prefix });
    let rest = containers_go(engine, prefix);
    assert forall|reply: ReplyView|
        finishes(
            cfg,
            #[trigger] question::answer_spec(cfg, q, reply),
            |events: Seq<Event>| rest(reply, events),
        ) by {
        let s = question::answer_spec(cfg, q, reply);
        let names = teardown::prefixed_spec(reply.stdout, prefix);
        let removal = QuestionView::Teardown(
            TeardownQuestionView::ContainersRemoved { engine, names },
        );
        assert forall|name: Seq<char>|
            has_line_spec(reply.stdout, name) && #[trigger] starts_with_spec(
                name,
                prefix,
            ) implies supplies(cfg, s, tried(removes_container(engine, prefix, name))) by {
            let lines = crate::checks::trimmed_lines(reply.stdout);
            let pred = |line: Seq<char>| starts_with_spec(line, prefix);
            let first = tried(removes_container(engine, prefix, name));
            let all = crate::text::lines_spec(reply.stdout);
            let i = choose|i: int|
                0 <= i < all.len() && crate::text::trim_spec(#[trigger] all[i]) == name;
            assert(lines[i] == name);
            lines.lemma_filter_contains_rev(pred, name);
            assert(names.contains(name));
            let c = command(engine).arg("rm"@).arg("-f"@).with_args(names);
            assert(question::action_spec(cfg, removal) == ActionView::Run(c));
            assert(c.args.skip(2) =~= names);
            assert forall|j: int| 2 <= j < c.args.len() implies starts_with_spec(
                #[trigger] c.args[j],
                prefix,
            ) by {
                lines.lemma_filter_pred(pred, j - 2);
                assert(c.args[j] == names[j - 2]);
            }
            assert(removes_container(engine, prefix, name)(ActionView::Run(c)));
            brings_question(cfg, removal, first);
            let start = ScriptView { steps: s.steps.take(1) };
            assert(s.steps =~= start.steps + seq![StepView::Ask(removal)]);
            crate::runs::brings_concat(cfg, start.steps, seq![StepView::Ask(removal)], first);
        }
    }
    question_is_answered(cfg, q, rest);
}

// ---------------------------------------------------------------------------------------------
// The search for the controller host
// ---------------------------------------------------------------------------------------------
/// The listing of the contexts.
pub open spec fn lists_contexts() -> ActionView {
    ActionView::Lossy(
        command("kubectl"@).arg("config"@).arg("get-contexts"@).arg("-o"@).arg("name"@),
    )
}

/// The query whether the API server of a host answers.
pub open spec fn asks_host(option: Seq<char>, value: Seq<char>) -> ActionView {
    ActionView::Quiet(
        command("kubectl"@)
            .arg(option).arg(value).arg("cluster-info"@).arg("--request-timeout=10s"@),
    )
}

/// Whether the kind cluster is the controller host: its context is listed, and its API server
/// answers.
pub open spec fn kind_is_host(cfg: Config, replies: Seq<ReplyView>) -> bool {
    has_line_spec(replies[0].stdout, cfg.repo.bootstrap.kind_context@) && replies[1].ok
}

/// The run of one question.
pub proof fn asked_once(cfg: Config, q: QuestionView, replies: Seq<ReplyView>)
    requires
        replies.len() > 0,
    ensures
        run(cfg, ScriptView::new().ask(q).steps, replies) == run(
            cfg,
            question::answer_spec(cfg, q, replies[0]).steps,
            replies.skip(1),
        ).after(Event::Performed(question::action_spec(cfg, q), replies[0])),
{
    let one = ScriptView::new().ask(q).steps;
    assert(one =~= seq![StepView::Ask(q)]);
    let s = question::answer_spec(cfg, q, replies[0]).steps;
    assert(s + one.skip(1) =~= s);
}

/// Where the kind context is listed and its API server answers, the teardown goes on with the kind
/// cluster as its controller host.
pub proof fn law_kind_host_is_found(
    cfg: Config,
    knobs: TeardownConfigView,
    aws: bool,
    replies: Seq<ReplyView>,
)
    requires
        replies.len() >= 2,
        kind_is_host(cfg, replies),
    ensures
        ({
            let r = run(cfg, teardown::discover_controller_host_spec(knobs, aws).steps, replies);
            let on = run(
                cfg,
                teardown::host_found_spec(cfg, knobs, aws, ControllerHost::Kind).steps,
                replies.skip(2),
            );
            &&& r.left == on.left
            &&& r.events == seq![
                Event::Performed(lists_contexts(), replies[0]),
                Event::Performed(
                    asks_host("--context"@, cfg.repo.bootstrap.kind_context@),
                    replies[1],
                ),
            ] + on.events
        }),
{
    let contexts = QuestionView::Teardown(TeardownQuestionView::Contexts { knobs, aws });
    let info = QuestionView::Teardown(TeardownQuestionView::KindInfo { knobs, aws });
    asked_once(cfg, contexts, replies);
    asked_once(cfg, info, replies.skip(1));
    assert(replies.skip(1).skip(1) =~= replies.skip(2));
    let on = run(
        cfg,
        teardown::host_found_spec(cfg, knobs, aws, ControllerHost::Kind).steps,
        replies.skip(2),
    );
    let r = run(cfg, teardown::discover_controller_host_spec(knobs, aws).steps, replies);
    assert(r.events =~= seq![
        Event::Performed(lists_contexts(), replies[0]),
        Event::Performed(asks_host("--context"@, cfg.repo.bootstrap.kind_context@), replies[1]),
    ] + on.events);
}

/// Where the kind context is not listed, the teardown goes on with the management cluster as its
/// controller host if its kubeconfig is there and its API server answers, and with none otherwise.
pub proof fn law_management_host_is_found(
    cfg: Config,
    knobs: TeardownConfigView,
    aws: bool,
    replies: Seq<ReplyView>,
)
    requires
        replies.len() >= 3,
        !has_line_spec(replies[0].stdout, cfg.repo.bootstrap.kind_context@),
    ensures
        ({
            let r = run(cfg, teardown::discover_controller_host_spec(knobs, aws).steps, replies);
            let listed = Event::Performed(lists_contexts(), replies[0]);
            let there = Event::Performed(ActionView::Exists(cfg.mgmt_kubeconfig@), replies[1]);
            let asked = Event::Performed(
                asks_host("--kubeconfig"@, cfg.mgmt_kubeconfig@),
                replies[2],
            );
            let host = if replies[2].ok {
                ControllerHost::SelfManaged
            } else {
                ControllerHost::Unreachable
            };
            let none = ControllerHost::Unreachable;
            if replies[1].ok {
                let on = run(
                    cfg,
                    teardown::host_found_spec(cfg, knobs, aws, host).steps,
                    replies.skip(3),
                );
                r.left == on.left && r.events == seq![listed, there, asked] + on.events
            } else {
                let on = run(
                    cfg,
                    teardown::host_found_spec(cfg, knobs, aws, none).steps,
                    replies.skip(2),
                );
                r.left == on.left && r.events == seq![listed, there] + on.events
            }
        }),
{
    let contexts = QuestionView::Teardown(TeardownQuestionView::Contexts { knobs, aws });
    let file = QuestionView::Teardown(TeardownQuestionView::MgmtFile { knobs, aws });
    let info = QuestionView::Teardown(TeardownQuestionView::MgmtInfo { knobs, aws });
    let none = ControllerHost::Unreachable;
    asked_once(cfg, contexts, replies);
    asked_once(cfg, file, replies.skip(1));
    assert(replies.skip(1).skip(1) =~= replies.skip(2));
    let r = run(cfg, teardown::discover_controller_host_spec(knobs, aws).steps, replies);
    let listed = Event::Performed(lists_contexts(), replies[0]);
    let there = Event::Performed(ActionView::Exists(cfg.mgmt_kubeconfig@), replies[1]);
    if replies[1].ok {
        asked_once(cfg, info, replies.skip(2));
        assert(replies.skip(2).skip(1) =~= replies.skip(3));
        let asked = Event::Performed(
            asks_host("--kubeconfig"@, cfg.mgmt_kubeconfig@),
            replies[2],
        );
        let host = if replies[2].ok {
            ControllerHost::SelfManaged
        } else {
            ControllerHost::Unreachable
        };
        let on = run(
            cfg,
            teardown::host_found_spec(cfg, knobs, aws, host).steps,
            replies.skip(3),
        );
        assert(r.events =~= seq![listed, there, asked] + on.events);
    } else {
        let on = run(
            cfg,
            teardown::host_found_spec(cfg, knobs, aws, none).steps,
            replies.skip(2),
        );
        assert(r.events =~= seq![listed, there] + on.events);
    }
}

/// The teardown of a local host deletes each workload cluster that the environment names, on the
/// kind cluster where that is there, and on the management cluster otherwise; and it removes the
/// registry.
pub proof fn law_local_teardown_works_on_the_host(
    cfg: Config,
    knobs: TeardownConfigView,
    engine: Seq<char>,
    i: int,
    kind: spec_fn(Seq<Event>) -> bool,
)
    requires
        0 <= i < cfg.environment.teardown.capi_workloads@.len(),
    ensures
        ({
            let cluster = cfg.environment.teardown.capi_workloads@[i]@;
            let here = K8sTargetView::Kind { context: cfg.repo.bootstrap.kind_context@ };
            let there = K8sTargetView::SelfManaged { kubeconfig: knobs.mgmt_kubeconfig };
            let on_kind = teardown::teardown_local_kind_spec(cfg, Some(engine));
            &&& holds(cfg, teardown::delete_capi_workload_spec(cluster, here, 300), kind) ==> holds(
                cfg,
                on_kind,
                kind,
            )
            &&& holds(cfg, teardown::delete_capi_workload_spec(cluster, there, 300), kind) ==> holds(
                cfg,
                teardown::teardown_local_pivoted_spec(cfg, knobs, Some(engine), true),
                kind,
            )
            &&& holds(cfg, on_kind, registry_goes(engine, cfg.repo.bootstrap.registry_name@))
            &&& forall|reachable: bool|
                holds(
                    cfg,
                    #[trigger] teardown::teardown_local_pivoted_spec(
                        cfg,
                        knobs,
                        Some(engine),
                        reachable,
                    ),
                    registry_goes(engine, cfg.repo.bootstrap.registry_name@),
                )
        }),
{
    broadcast use group_holds;

    let cluster = cfg.environment.teardown.capi_workloads@[i]@;
    let all = texts(cfg.environment.teardown.capi_workloads@);
    assert(all[i] == cluster);
    let here = K8sTargetView::Kind { context: cfg.repo.bootstrap.kind_context@ };
    let there = K8sTargetView::SelfManaged { kubeconfig: knobs.mgmt_kubeconfig };
    let one = |item: Seq<char>| teardown::delete_capi_workload_spec(item, here, 300);
    let other = |item: Seq<char>| teardown::delete_capi_workload_spec(item, there, 300);
    if holds(cfg, one(cluster), kind) {
        holds_each(cfg, all, one, kind, cluster);
        assert(holds(cfg, teardown::delete_capi_workloads_spec(here, all, 300), kind));
    }
    if holds(cfg, other(cluster), kind) {
        holds_each(cfg, all, other, kind, cluster);
        assert(holds(cfg, teardown::delete_capi_workloads_spec(there, all, 300), kind));
    }
    let name = cfg.repo.bootstrap.registry_name@;
    law_registry_is_removed(cfg, engine, name);
    holds_whole(
        cfg,
        teardown::remove_registry_container_spec(Some(engine), name),
        registry_goes(engine, name),
    );
}

} // verus!
