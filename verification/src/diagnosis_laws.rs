//! What a run shows of a wait that failed, before it fails.
use vstd::prelude::*;

use crate::bootstrap;
use crate::bootstrap::BootstrapQuestionView;
use crate::cleanup_laws::performed;
use crate::cluster_laws::ask_bootstrap;
use crate::context::PreflightView;
use crate::demolition_laws::asked_once;
use crate::duties::{demanded_is_done, demands, done, group_has_option, has_option, tried};
use crate::install_laws::{named_by, operator_install};
use crate::passage_laws::ask_pivot;
use crate::pivot::PivotQuestionView;
use crate::question;
use crate::question::QuestionView;
use crate::runs::{group_some_of, happened, run, some_of, Event};
use crate::script::{command, ActionView, ReplyView, RuleView, ScriptView, StepView};
use crate::session::judge_spec;
use crate::settings::Config;
use crate::stretches::{answered, failing_holds, finishes, question_is_answered};

verus! {

// ---------------------------------------------------------------------------------------------
// Waits that fail
// ---------------------------------------------------------------------------------------------
/// Whether a run fails, and an action was performed before.
pub open spec fn fails_after(r: crate::runs::Run, action: ActionView) -> bool {
    r.left is None && r.events.len() > 0 && r.events.last() is Failed && performed(
        r.events,
        action,
    )
}

/// A question that is answered with a line, an action and an error.
proof fn action_is_shown(
    cfg: Config,
    q: QuestionView,
    action: ActionView,
    replies: Seq<ReplyView>,
)
    requires
        replies.len() >= 2,
        ({
            let s = question::answer_spec(cfg, q, replies[0]).steps;
            s.len() == 3 && s[0] is Report && s[1] == StepView::Do(action, RuleView::Ignore)
                && s[2] is Fail
        }),
    ensures
        fails_after(run(cfg, ScriptView::new().ask(q).steps, replies), action),
{
    asked_once(cfg, q, replies);
    let s = question::answer_spec(cfg, q, replies[0]).steps;
    let later = replies.skip(1);
    failing_part(cfg, s, action, later);
    let r = run(cfg, ScriptView::new().ask(q).steps, replies);
    let rest = run(cfg, s, later);
    assert(r.events.last() == rest.events.last());
    let first = tried(crate::cleanup_laws::is_action(action));
    let k = choose|k: int| 0 <= k < rest.events.len() && first(#[trigger] rest.events[k]);
    assert(r.events[k + 1] == rest.events[k]);
}

proof fn failing_part(cfg: Config, s: Seq<StepView>, action: ActionView, replies: Seq<ReplyView>)
    requires
        replies.len() >= 1,
        s.len() == 3,
        s[0] is Report,
        s[1] == StepView::Do(action, RuleView::Ignore),
        s[2] is Fail,
    ensures
        fails_after(run(cfg, s, replies), action),
{
    let r = run(cfg, s, replies);
    let acting = s.skip(1);
    let failing = seq![s[2]];
    assert(judge_spec(action, RuleView::Ignore, replies[0]).steps =~= Seq::<StepView>::empty());
    assert(Seq::<StepView>::empty() + acting.skip(1) =~= failing);
    assert(acting[0] == s[1]);
    let end = run(cfg, failing, replies.skip(1));
    let acted = run(cfg, acting, replies);
    assert(acted == end.after(Event::Performed(action, replies[0])));
    assert(end.events.len() == 1 && end.events[0] is Failed);
    assert(r.events.len() == 3);
    assert(r.events[2] == end.events[0]);
    assert(r.events[1] == Event::Performed(action, replies[0]));
    assert(tried(crate::cleanup_laws::is_action(action))(r.events[1]));
}

/// The listing of the Kustomizations of Flux.
pub open spec fn shows_kustomizations() -> ActionView {
    ActionView::Run(command("flux"@).arg("get"@).arg("kustomizations"@))
}

/// A local environment that is not reconciled in time, and a workload cluster that is not, end the
/// bootstrap, which shows the Kustomizations first.
pub proof fn law_missed_reconciliation_is_shown(
    cfg: Config,
    path: Seq<char>,
    replies: Seq<ReplyView>,
)
    requires
        replies.len() >= 2,
        !replies[0].ok,
    ensures
        fails_after(
            run(cfg, ask_bootstrap(BootstrapQuestionView::FluxAppsReady).steps, replies),
            shows_kustomizations(),
        ),
        fails_after(
            run(cfg, ask_bootstrap(BootstrapQuestionView::WorkloadReady { path }).steps, replies),
            ActionView::Run(
                command("flux"@)
                    .arg("get"@).arg("kustomizations"@).arg("--kubeconfig"@).arg(path)
                    .arg("--all-namespaces"@),
            ),
        ),
{
    let a = QuestionView::Bootstrap(BootstrapQuestionView::FluxAppsReady);
    action_is_shown(cfg, a, shows_kustomizations(), replies);
    let b = QuestionView::Bootstrap(BootstrapQuestionView::WorkloadReady { path });
    action_is_shown(
        cfg,
        b,
        ActionView::Run(
            command("flux"@)
                .arg("get"@).arg("kustomizations"@).arg("--kubeconfig"@).arg(path)
                .arg("--all-namespaces"@),
        ),
        replies,
    );
}

/// A management cluster without a kubeconfig in time ends the pivot, which shows the cluster first.
pub proof fn law_missing_kubeconfig_is_shown(cfg: Config, replies: Seq<ReplyView>)
    requires
        replies.len() >= 2,
        !replies[0].ok,
    ensures
        fails_after(
            run(cfg, ask_pivot(PivotQuestionView::MgmtSecret { left: 0 }).steps, replies),
            ActionView::Run(
                command("kubectl"@)
                    .arg("describe"@).arg("cluster"@).arg(cfg.environment.mgmt_cluster@)
                    .arg("-n"@).arg(cfg.repo.bootstrap.mgmt_namespace@),
            ),
        ),
{
    let q = QuestionView::Pivot(PivotQuestionView::MgmtSecret { left: 0 });
    action_is_shown(
        cfg,
        q,
        ActionView::Run(
            command("kubectl"@)
                .arg("describe"@).arg("cluster"@).arg(cfg.environment.mgmt_cluster@).arg("-n"@)
                .arg(cfg.repo.bootstrap.mgmt_namespace@),
        ),
        replies,
    );
}

/// A Kustomization that is still missing at the last request ends the bootstrap, which shows what is
/// there first.
pub proof fn law_missing_kustomizations_are_shown(
    cfg: Config,
    path: Seq<char>,
    replies: Seq<ReplyView>,
)
    requires
        replies.len() >= 3,
        !replies[0].ok,
    ensures
        fails_after(
            run(
                cfg,
                ask_bootstrap(BootstrapQuestionView::FluxAppsCreated { left: 1 }).steps,
                replies,
            ),
            shows_kustomizations(),
        ),
        fails_after(
            run(
                cfg,
                ask_bootstrap(BootstrapQuestionView::WorkloadFluxCreated { path, left: 1 }).steps,
                replies,
            ),
            ActionView::Run(
                command("kubectl"@)
                    .arg("--kubeconfig"@).arg(path).arg("get"@).arg("pods"@).arg("--namespace"@)
                    .arg("flux-system"@),
            ),
        ),
{
    let a = QuestionView::Bootstrap(BootstrapQuestionView::FluxAppsCreated { left: 1 });
    last_request(cfg, a, shows_kustomizations(), replies);
    let b = QuestionView::Bootstrap(BootstrapQuestionView::WorkloadFluxCreated { path, left: 1 });
    last_request(
        cfg,
        b,
        ActionView::Run(
            command("kubectl"@)
                .arg("--kubeconfig"@).arg(path).arg("get"@).arg("pods"@).arg("--namespace"@)
                .arg("flux-system"@),
        ),
        replies,
    );
}

proof fn last_request(
    cfg: Config,
    q: QuestionView,
    action: ActionView,
    replies: Seq<ReplyView>,
)
    requires
        replies.len() >= 3,
        ({
            let s = question::answer_spec(cfg, q, replies[0]).steps;
            s.len() == 4 && s[0] == StepView::Do(ActionView::Sleep(2), RuleView::Ignore)
                && s[1] is Report && s[2] == StepView::Do(action, RuleView::Ignore) && s[3] is Fail
        }),
    ensures
        fails_after(run(cfg, ScriptView::new().ask(q).steps, replies), action),
{
    asked_once(cfg, q, replies);
    let s = question::answer_spec(cfg, q, replies[0]).steps;
    let later = replies.skip(1);
    let sleep = ActionView::Sleep(2);
    assert(judge_spec(sleep, RuleView::Ignore, later[0]).steps =~= Seq::<StepView>::empty());
    let rest = seq![s[1], s[2], s[3]];
    assert(Seq::<StepView>::empty() + s.skip(1) =~= rest);
    failing_part(cfg, rest, action, later.skip(1));
    let end = run(cfg, rest, later.skip(1));
    let slept = run(cfg, s, later);
    assert(slept == end.after(Event::Performed(sleep, later[0])));
    let r = run(cfg, ScriptView::new().ask(q).steps, replies);
    assert(r.events.last() == end.events.last());
    let first = tried(crate::cleanup_laws::is_action(action));
    let k = choose|k: int| 0 <= k < end.events.len() && first(#[trigger] end.events[k]);
    assert(r.events[k + 2] == end.events[k]);
}

// ---------------------------------------------------------------------------------------------
// The registry configuration of Helm
// ---------------------------------------------------------------------------------------------
/// The installation of a FluxInstance with a registry configuration.
pub open spec fn instance_with(path: Seq<char>) -> spec_fn(ActionView) -> bool {
    |a: ActionView|
        match a {
            ActionView::Run(c) => c.program == "helm"@ && has_option(
                c,
                "--registry-config"@,
                path,
            ) && has_option(c, "--install"@, "flux"@),
            _ => false,
        }
}

/// That both charts of Flux are installed with the registry configuration that was made.
pub open spec fn charts_use_it(cfg: Config) -> spec_fn(ReplyView, Seq<Event>) -> bool {
    |reply: ReplyView, events: Seq<Event>|
        {
            &&& reply.ok
            &&& happened(
                events,
                done(|a: ActionView| a == operator_install(cfg, reply.stdout, None)),
            )
            &&& happened(events, done(instance_with(reply.stdout)))
        }
}

/// Helm installs both charts of Flux with an empty registry configuration of its own, not with that
/// of the operator.
pub proof fn law_registry_configuration_is_empty(cfg: Config, preflight: PreflightView)
    requires
        named_by(cfg, preflight.github),
    ensures
        finishes(
            cfg,
            ask_bootstrap(BootstrapQuestionView::RegistryConfig { preflight }),
            answered(ActionView::TempFile("{}\n"@), charts_use_it(cfg)),
        ),
{
    broadcast use {group_some_of, group_has_option};

    let q = QuestionView::Bootstrap(BootstrapQuestionView::RegistryConfig { preflight });
    let rest = charts_use_it(cfg);
    assert forall|reply: ReplyView|
        finishes(
            cfg,
            #[trigger] question::answer_spec(cfg, q, reply),
            |events: Seq<Event>| rest(reply, events),
        ) by {
        let s = question::answer_spec(cfg, q, reply);
        if reply.ok {
            let a = |x: ActionView| x == operator_install(cfg, reply.stdout, None);
            let b = instance_with(reply.stdout);
            let operator = bootstrap::install_flux_operator_spec(cfg, reply.stdout, None);
            assert(demands(a)(operator.steps[1]));
            assert(some_of(operator, demands(a)));
            assert(some_of(s, demands(a)));
            demanded_is_done(cfg, s, a);
            let instance = bootstrap::install_flux_instance_spec(
                cfg,
                preflight.github,
                reply.stdout,
                None,
                Some(preflight),
            );
            assert(demands(b)(instance.steps[1]));
            assert(some_of(instance, demands(b)));
            assert(some_of(s, demands(b)));
            demanded_is_done(cfg, s, b);
        } else {
            assert(s.steps[0] is Fail);
            failing_holds(cfg, s, |events: Seq<Event>| rest(reply, events));
        }
    }
    question_is_answered(cfg, q, rest);
}

} // verus!
