//! What is asked for before anything is changed, and what is left in order on the way.
use vstd::prelude::*;

use crate::bootstrap;
use crate::bootstrap::BootstrapQuestionView;
use crate::checks::{
    first_after, parse_github_repo_spec, required_tools_spec, validate_age_key_spec,
};
use crate::cleanup_laws::is_action;
use crate::cluster_laws::sleeps_and_asks;
use crate::config::SyncSource;
use crate::demolition_laws::asked_once;
use crate::duties::{
    brings_question, demanded_is_done, demands, done, failure_brings, tried, tried_is_performed,
    tries,
};
use crate::engine;
use crate::engine_laws::{
    law_toolbox_joins_the_network, law_toolbox_leaves_the_network, toolbox_is_member,
    toolbox_leaves,
};
use crate::install_laws::tools_bring;
use crate::pivot;
use crate::preflight;
use crate::preflight::PreflightQuestionView;
use crate::question;
use crate::question::QuestionView;
use crate::runs::{brings, group_some_of, run, supplies, Event};
use crate::script::{command, request, ActionView, ReplyView, ScriptView, StepView};
use crate::settings::Config;
use crate::stretches::{answered, group_holds, holds, holds_whole};
use crate::teardown;
use crate::text::{lines_spec, replace_spec, starts_with_spec};

verus! {

// ---------------------------------------------------------------------------------------------
// The preflight
// ---------------------------------------------------------------------------------------------
/// A bootstrap needs five tools, and where it publishes an artifact it needs two more; no others.
pub proof fn law_required_tools(sync: SyncSource, tool: Seq<char>)
    ensures
        required_tools_spec(sync).contains(tool) <==> {
            ||| tool == "kind"@
            ||| tool == "helm"@
            ||| tool == "kubectl"@
            ||| tool == "clusterctl"@
            ||| tool == "mise"@
            ||| sync == SyncSource::Oci && (tool == "flux"@ || tool == "curl"@)
        },
{
    let tools = required_tools_spec(sync);
    assert(tools[0] == "kind"@);
    assert(tools[1] == "helm"@);
    assert(tools[2] == "kubectl"@);
    assert(tools[3] == "clusterctl"@);
    assert(tools[4] == "mise"@);
    if sync == SyncSource::Oci {
        assert(tools[5] == "flux"@);
        assert(tools[6] == "curl"@);
    }
}

/// The request for the branch of a repository, with the token of the operator.
pub open spec fn asks_branch(cfg: Config, repo: Seq<char>, token: Seq<char>) -> ActionView {
    ActionView::Get(
        request(
            "https://api.github.com/repos/"@ + repo + "/branches/"@ + replace_spec(
                cfg.repo.bootstrap.git_branch@,
                "/"@,
                "%2F"@,
            ),
        )
            .header("Accept"@, "application/vnd.github+json"@)
            .header("Authorization"@, "Bearer "@ + token),
    )
}

/// That the branch of the repository that the operator names is there, for the token that the
/// operator gives.
pub open spec fn branch_is_there(cfg: Config) -> spec_fn(Event) -> bool {
    |e: Event|
        match e {
            Event::Performed(a, reply) => {
                &&& cfg.git_repo_url is Some
                &&& cfg.github_token is Some
                &&& parse_github_repo_spec(cfg.git_repo_url->0@) is Some
                &&& a == asks_branch(
                    cfg,
                    parse_github_repo_spec(cfg.git_repo_url->0@)->0,
                    cfg.github_token->0@,
                )
                &&& reply.http == 200
            },
            _ => false,
        }
}

/// A bootstrap from GitHub that comes to its end has seen that the configured branch of the
/// repository is there for the token.
pub proof fn law_branch_is_looked_up(cfg: Config)
    requires
        cfg.environment.sync == SyncSource::Github,
    ensures
        brings(cfg, bootstrap::run_bootstrap_spec(cfg).steps, branch_is_there(cfg)),
{
    broadcast use group_some_of;

    let first = branch_is_there(cfg);
    let s = preflight::preflight_github_spec(cfg);
    assert(supplies(cfg, s, first)) by {
        match (cfg.github_token, cfg.git_repo_url) {
            (Some(token), Some(url)) => {
                match parse_github_repo_spec(url@) {
                    Some(repo) => {
                        let q = QuestionView::Preflight(
                            PreflightQuestionView::Branch { repo, url: url@, token: token@ },
                        );
                        assert(question::action_spec(cfg, q) == asks_branch(cfg, repo, token@));
                        assert forall|reply: ReplyView|
                            first(Event::Performed(question::action_spec(cfg, q), reply))
                                || supplies(
                                cfg,
                                #[trigger] question::answer_spec(cfg, q, reply),
                                first,
                            ) by {
                            if reply.http != 200 {
                                let t = question::answer_spec(cfg, q, reply);
                                assert(t.steps[0] is Fail);
                                failure_brings(cfg, t, first);
                            }
                        }
                        brings_question(cfg, q, first);
                        assert(s.steps =~= seq![StepView::Ask(q)]);
                    },
                    None => {
                        assert(s.steps[0] is Fail);
                        failure_brings(cfg, s, first);
                    },
                }
            },
            _ => {
                assert(s.steps[0] is Fail);
                failure_brings(cfg, s, first);
            },
        }
    }
    tools_bring(cfg, required_tools_spec(cfg.environment.sync), Seq::empty(), first);
}

proof fn prefixed_line_is_found(all: Seq<Seq<char>>, prefix: Seq<char>)
    ensures
        first_after(all, prefix) is Some <==> exists|i: int|
            0 <= i < all.len() && starts_with_spec(#[trigger] all[i], prefix),
    decreases all.len(),
{
    if all.len() > 0 && !starts_with_spec(all[0], prefix) {
        let rest = all.skip(1);
        prefixed_line_is_found(rest, prefix);
        if first_after(rest, prefix) is Some {
            let i = choose|i: int|
                0 <= i < rest.len() && starts_with_spec(#[trigger] rest[i], prefix);
            assert(all[i + 1] == rest[i]);
        }
        if exists|i: int| 0 <= i < all.len() && starts_with_spec(#[trigger] all[i], prefix) {
            let i = choose|i: int| 0 <= i < all.len() && starts_with_spec(#[trigger] all[i], prefix);
            assert(rest[i - 1] == all[i]);
        }
    } else if all.len() > 0 {
        assert(starts_with_spec(all[0], prefix));
    }
}

/// Whether a line of a text starts with a prefix.
pub open spec fn some_line_starts(content: Seq<char>, prefix: Seq<char>) -> bool {
    exists|i: int|
        0 <= i < lines_spec(content).len() && starts_with_spec(
            #[trigger] lines_spec(content)[i],
            prefix,
        )
}

/// An age key file without the secret key, the public key or the date of its creation ends the
/// bootstrap as soon as it is read.
pub proof fn law_invalid_age_keys_are_refused(
    cfg: Config,
    url: Seq<char>,
    token: Seq<char>,
    replies: Seq<ReplyView>,
)
    requires
        replies.len() > 0,
        ({
            let content = replies[0].stdout;
            ||| !some_line_starts(content, "AGE-SECRET-KEY-"@)
            ||| !some_line_starts(content, "# public key:"@)
            ||| !some_line_starts(content, "# created:"@)
        }),
    ensures
        ({
            let r = run(
                cfg,
                ScriptView::new().ask(
                    QuestionView::Preflight(PreflightQuestionView::AgeKey { url, token }),
                ).steps,
                replies,
            );
            &&& r.left is None
            &&& r.events.len() == 2
            &&& r.events[0] == Event::Performed(
                ActionView::ReadFile(cfg.age_key_file@),
                replies[0],
            )
            &&& r.events[1] is Failed
        }),
{
    let q = QuestionView::Preflight(PreflightQuestionView::AgeKey { url, token });
    let content = replies[0].stdout;
    prefixed_line_is_found(lines_spec(content), "AGE-SECRET-KEY-"@);
    prefixed_line_is_found(lines_spec(content), "# public key:"@);
    prefixed_line_is_found(lines_spec(content), "# created:"@);
    assert(validate_age_key_spec(content).len() > 0);
    asked_once(cfg, q, replies);
    let s = question::answer_spec(cfg, q, replies[0]).steps;
    assert(s.len() == 1 && s[0] is Fail);
    let end = run(cfg, s, replies.skip(1));
}

// ---------------------------------------------------------------------------------------------
// The toolbox
// ---------------------------------------------------------------------------------------------
/// In the toolbox, the network of a kind cluster is left before the cluster is deleted: where it is
/// recreated, where a pivot deletes it, and where a teardown does.
pub proof fn law_toolbox_leaves_the_kind_cluster(
    cfg: Config,
    engine_sock: Seq<char>,
    engine: Seq<char>,
)
    requires
        cfg.toolbox,
    ensures
        ({
            let named = match cfg.container_engine {
                Some(name) => name@,
                None => "docker"@,
            };
            let hostname = ActionView::ReadFile("/etc/hostname"@);
            let left = answered(hostname, toolbox_leaves(named));
            &&& holds(cfg, bootstrap::recreate_kind_spec(cfg, engine_sock), left)
            &&& holds(cfg, pivot::delete_bootstrap_kind_spec(cfg), left)
            &&& holds(
                cfg,
                teardown::teardown_local_kind_spec(cfg, Some(engine)),
                answered(hostname, toolbox_leaves(engine)),
            )
            &&& holds(
                cfg,
                teardown::teardown_local_kind_spec(cfg, Some(engine)),
                answered(hostname, toolbox_is_member(engine)),
            )
        }),
{
    broadcast use group_holds;

    let named = match cfg.container_engine {
        Some(name) => name@,
        None => "docker"@,
    };
    let hostname = ActionView::ReadFile("/etc/hostname"@);
    let left = answered(hostname, toolbox_leaves(named));
    law_toolbox_leaves_the_network(cfg, named);
    holds_whole(cfg, engine::toolbox_leave_kind_network_spec(cfg, named), left);
    assert(holds(cfg, bootstrap::toolbox_exit_spec(cfg), left));
    law_toolbox_leaves_the_network(cfg, engine);
    holds_whole(
        cfg,
        engine::toolbox_leave_kind_network_spec(cfg, engine),
        answered(hostname, toolbox_leaves(engine)),
    );
    law_toolbox_joins_the_network(cfg, engine);
    holds_whole(
        cfg,
        engine::toolbox_join_kind_network_spec(cfg, engine),
        answered(hostname, toolbox_is_member(engine)),
    );
    assert(holds(
        cfg,
        teardown::enter_with_spec(cfg, Some(engine)),
        answered(hostname, toolbox_is_member(engine)),
    ));
}

/// The teardown of a local host on the kind cluster switches to its context.
pub proof fn law_local_teardown_uses_the_kind_context(cfg: Config, engine: Option<Seq<char>>)
    ensures
        supplies(
            cfg,
            teardown::teardown_local_kind_spec(cfg, engine),
            tried(
                is_action(
                    ActionView::Run(
                        command("kubectl"@)
                            .arg("config"@).arg("use-context"@)
                            .arg(cfg.repo.bootstrap.kind_context@),
                    ),
                ),
            ),
        ),
{
    broadcast use group_some_of;

    let action = ActionView::Run(
        command("kubectl"@)
            .arg("config"@).arg("use-context"@).arg(cfg.repo.bootstrap.kind_context@),
    );
    let s = teardown::teardown_local_kind_spec(cfg, engine);
    let n = teardown::enter_with_spec(cfg, engine).steps.len() as int;
    assert(tries(is_action(action))(s.steps[n]));
    tried_is_performed(cfg, s, is_action(action));
}

// ---------------------------------------------------------------------------------------------
// The watch of the workload cluster
// ---------------------------------------------------------------------------------------------
/// The wait for the Kustomization of a workload cluster, with some requests left.
pub open spec fn workload_flux_wait(path: Seq<char>, left: u32) -> Seq<StepView> {
    seq![
        StepView::Ask(
            QuestionView::Bootstrap(BootstrapQuestionView::WorkloadFluxCreated { path, left }),
        ),
    ]
}

/// The query for the Kustomization of a workload cluster.
pub open spec fn asks_workload_flux(path: Seq<char>) -> ActionView {
    ActionView::Quiet(
        command("kubectl"@)
            .arg("--kubeconfig"@).arg(path).arg("get"@).arg("kustomization"@).arg("flux-system"@)
            .arg("--namespace"@).arg("flux-system"@),
    )
}

/// The Kustomization of the workload cluster is asked for again after two seconds while it is missing
/// and requests are left, and its presence ends the wait. The watch starts with 60 requests.
pub proof fn law_workload_flux_is_asked_again(
    cfg: Config,
    path: Seq<char>,
    server: Seq<char>,
    left: u32,
    replies: Seq<ReplyView>,
)
    requires
        replies.len() >= 2,
    ensures
        bootstrap::watch_workload_spec(cfg, path, server).steps[1] == workload_flux_wait(
            path,
            60,
        )[0],
        ({
            let now = run(cfg, workload_flux_wait(path, left), replies);
            &&& replies[0].ok ==> now.left == Some(replies.skip(1)) && now.events == seq![
                Event::Performed(asks_workload_flux(path), replies[0]),
            ]
            &&& !replies[0].ok && left > 1 ==> now == run(
                cfg,
                workload_flux_wait(path, (left - 1) as u32),
                replies.skip(2),
            ).after(Event::Performed(ActionView::Sleep(2), replies[1])).after(
                Event::Performed(asks_workload_flux(path), replies[0]),
            )
        }),
{
    let q = QuestionView::Bootstrap(BootstrapQuestionView::WorkloadFluxCreated { path, left });
    let one = workload_flux_wait(path, left);
    assert(question::action_spec(cfg, q) == asks_workload_flux(path));
    let s = question::answer_spec(cfg, q, replies[0]).steps;
    assert(s + one.skip(1) =~= s);
    let rest = run(cfg, s, replies.skip(1));
    if replies[0].ok {
        assert(s =~= Seq::<StepView>::empty());
        assert(run(cfg, one, replies).events =~= seq![
            Event::Performed(asks_workload_flux(path), replies[0]),
        ]);
    } else if left > 1 {
        let next = QuestionView::Bootstrap(
            BootstrapQuestionView::WorkloadFluxCreated { path, left: (left - 1) as u32 },
        );
        sleeps_and_asks(cfg, q, 2, next, replies);
    }
}

/// The errors of Flux on the workload cluster are followed while the workload cluster is awaited,
/// once its controllers are ready.
pub proof fn law_workload_errors_are_followed(cfg: Config, path: Seq<char>, server: Seq<char>)
    ensures
        ({
            let s = bootstrap::watch_workload_spec(cfg, path, server);
            let ready = ActionView::Run(
                command("kubectl"@)
                    .arg("--kubeconfig"@).arg(path).arg("wait"@).arg("pod"@).arg("--namespace"@)
                    .arg("flux-system"@).arg("--selector=app.kubernetes.io/part-of=flux"@)
                    .arg("--for=condition=Ready"@)
                    .arg("--timeout="@ + cfg.local_reconcile_timeout@),
            );
            let logs = ActionView::Follow(
                command("flux"@)
                    .arg("logs"@).arg("--kubeconfig"@).arg(path).arg("--all-namespaces"@)
                    .arg("--follow"@).arg("--level=error"@).arg("--since=10m"@),
            );
            &&& supplies(cfg, s, done(is_action(ready)))
            &&& supplies(cfg, s, done(is_action(logs)))
            &&& supplies(cfg, s, tried(is_action(ActionView::Unfollow)))
        }),
{
    broadcast use group_some_of;

    let s = bootstrap::watch_workload_spec(cfg, path, server);
    let ready = ActionView::Run(
        command("kubectl"@)
            .arg("--kubeconfig"@).arg(path).arg("wait"@).arg("pod"@).arg("--namespace"@)
            .arg("flux-system"@).arg("--selector=app.kubernetes.io/part-of=flux"@)
            .arg("--for=condition=Ready"@).arg("--timeout="@ + cfg.local_reconcile_timeout@),
    );
    let logs = ActionView::Follow(
        command("flux"@)
            .arg("logs"@).arg("--kubeconfig"@).arg(path).arg("--all-namespaces"@)
            .arg("--follow"@).arg("--level=error"@).arg("--since=10m"@),
    );
    assert(demands(is_action(ready))(s.steps[3]));
    demanded_is_done(cfg, s, is_action(ready));
    assert(demands(is_action(logs))(s.steps[4]));
    demanded_is_done(cfg, s, is_action(logs));
    assert(tries(is_action(ActionView::Unfollow))(s.steps[6]));
    tried_is_performed(cfg, s, is_action(ActionView::Unfollow));
}

} // verus!
