//! What holds of the preflight of a bootstrap: everything is checked before anything is changed, and
//! what is secret stays off the command lines.
use vstd::prelude::*;

use crate::bootstrap;
use crate::bootstrap::run_bootstrap_spec;
use crate::checks::required_tools_spec;
use crate::config::SyncSource;
use crate::context::{GithubContextView, SeekerView, TeardownConfigView};
use crate::engine;
use crate::engine::{resolve_engine_spec, select_engine_spec, EngineQuestionView};
use crate::pivot;
use crate::preflight::{next_tool_spec, preflight_github_spec, PreflightQuestionView};
use crate::question;
use crate::question::QuestionView;
use crate::runs::{
    brings, group_guarded, group_some_of, guarded, guarded_question, guards, owed_brings, owes,
    precedes, run, some_step, Event,
};
use crate::script::{command, ActionView, ReplyView, ScriptView, StepView};
use crate::settings::Config;
use crate::teardown::{run_teardown_spec, TeardownQuestionView};

verus! {

/// Whether an action may change anything. To look for a tool, at a file or at a URL, and to ask an
/// engine for its state or its version, changes nothing.
pub open spec fn changes(action: ActionView) -> bool {
    match action {
        ActionView::Find(_) => false,
        ActionView::IsFile(_) => false,
        ActionView::Exists(_) => false,
        ActionView::ReadFile(_) => false,
        ActionView::Get(_) => false,
        _ => match action.command() {
            Some(c) => !(c.args.len() > 0 && (c.args[0] == "info"@ || c.args[0] == "--version"@)),
            None => true,
        },
    }
}

/// Whether the event finds a tool on `PATH`.
pub open spec fn found(event: Event, tool: Seq<char>) -> bool {
    match event {
        Event::Performed(action, reply) => action == ActionView::Find(tool) && reply.ok,
        _ => false,
    }
}

proof fn missing_tool_is_guarded(
    cfg: Config,
    wanted: Seq<char>,
    tool: Seq<char>,
    rest: Seq<Seq<char>>,
    missing: Seq<Seq<char>>,
)
    requires
        tool == wanted || rest.contains(wanted) || missing.contains(wanted),
    ensures
        guards(
            cfg,
            seq![
                StepView::Ask(
                    QuestionView::Preflight(PreflightQuestionView::Tool { tool, rest, missing }),
                ),
            ],
            |e: Event| found(e, wanted),
            |a: ActionView| changes(a),
        ),
    decreases rest.len(),
{
    broadcast use group_guarded;

    let first = |e: Event| found(e, wanted);
    let action = |a: ActionView| changes(a);
    let q = QuestionView::Preflight(PreflightQuestionView::Tool { tool, rest, missing });
    assert forall|reply: ReplyView|
        first(Event::Performed(question::action_spec(cfg, q), reply)) || guarded(
            cfg,
            #[trigger] question::answer_spec(cfg, q, reply),
            first,
            action,
        ) by {
        let lacking = if reply.ok {
            missing
        } else {
            missing.push(tool)
        };
        if !(tool == wanted && reply.ok) {
            if tool == wanted {
                assert(lacking[lacking.len() - 1] == wanted);
            } else if missing.contains(wanted) {
                let k = choose|k: int| 0 <= k < missing.len() && missing[k] == wanted;
                assert(lacking[k] == wanted);
            }
            if rest.len() > 0 {
                if rest.contains(wanted) && rest[0] != wanted {
                    let k = choose|k: int| 0 <= k < rest.len() && rest[k] == wanted;
                    assert(rest.skip(1)[k - 1] == wanted);
                }
                missing_tool_is_guarded(cfg, wanted, rest[0], rest.skip(1), lacking);
            } else {
                assert(lacking.contains(wanted));
            }
        }
    }
    guarded_question(cfg, q, first, action);
}

/// A bootstrap changes nothing before each tool that its environment requires has been found on
/// `PATH`, whatever the replies are.
pub proof fn law_tools_are_found_first(cfg: Config, k: int, replies: Seq<ReplyView>)
    requires
        0 <= k < required_tools_spec(cfg.environment.sync).len(),
    ensures
        precedes(
            run(cfg, run_bootstrap_spec(cfg).steps, replies).events,
            |e: Event| found(e, required_tools_spec(cfg.environment.sync)[k]),
            |a: ActionView| changes(a),
        ),
{
    broadcast use group_guarded;

    let tools = required_tools_spec(cfg.environment.sync);
    if k > 0 {
        assert(tools.skip(1)[k - 1] == tools[k]);
    }
    missing_tool_is_guarded(cfg, tools[k], tools[0], tools.skip(1), Seq::empty());
    assert(guarded(
        cfg,
        run_bootstrap_spec(cfg),
        |e: Event| found(e, tools[k]),
        |a: ActionView| changes(a),
    ));
}

/// What is guarded once all tools are found is guarded from the first tool on.
proof fn tools_are_guarded(
    cfg: Config,
    tool: Seq<char>,
    rest: Seq<Seq<char>>,
    missing: Seq<Seq<char>>,
    first: spec_fn(Event) -> bool,
)
    requires
        guarded(
            cfg,
            next_tool_spec(cfg, Seq::empty(), Seq::empty()),
            first,
            |a: ActionView| changes(a),
        ),
    ensures
        guards(
            cfg,
            seq![
                StepView::Ask(
                    QuestionView::Preflight(PreflightQuestionView::Tool { tool, rest, missing }),
                ),
            ],
            first,
            |a: ActionView| changes(a),
        ),
    decreases rest.len(),
{
    broadcast use group_guarded;

    let action = |a: ActionView| changes(a);
    let q = QuestionView::Preflight(PreflightQuestionView::Tool { tool, rest, missing });
    assert forall|reply: ReplyView|
        guarded(cfg, #[trigger] question::answer_spec(cfg, q, reply), first, action) by {
        let lacking = if reply.ok {
            missing
        } else {
            missing.push(tool)
        };
        if rest.len() > 0 {
            tools_are_guarded(cfg, rest[0], rest.skip(1), lacking, first);
        } else if lacking.len() == 0 {
            assert(rest =~= Seq::empty());
            assert(lacking =~= Seq::empty());
        }
    }
    guarded_question(cfg, q, first, action);
}

proof fn bootstrap_is_checked(cfg: Config, first: spec_fn(Event) -> bool)
    requires
        guarded(
            cfg,
            next_tool_spec(cfg, Seq::empty(), Seq::empty()),
            first,
            |a: ActionView| changes(a),
        ),
    ensures
        guarded(cfg, run_bootstrap_spec(cfg), first, |a: ActionView| changes(a)),
{
    broadcast use group_guarded;

    let tools = required_tools_spec(cfg.environment.sync);
    tools_are_guarded(cfg, tools[0], tools.skip(1), Seq::empty(), first);
}

/// Whether the event shows that the branch of the repository can be read.
pub open spec fn branch_is_readable(event: Event) -> bool {
    match event {
        Event::Performed(ActionView::Get(_), reply) => reply.http == 200,
        _ => false,
    }
}

/// Where Flux syncs from GitHub, a bootstrap changes nothing before the branch of the repository has
/// been read with success, whatever the replies are.
pub proof fn law_branch_is_read_first(cfg: Config, replies: Seq<ReplyView>)
    requires
        cfg.environment.sync == SyncSource::Github,
    ensures
        precedes(
            run(cfg, run_bootstrap_spec(cfg).steps, replies).events,
            |e: Event| branch_is_readable(e),
            |a: ActionView| changes(a),
        ),
{
    broadcast use group_guarded;

    let first = |e: Event| branch_is_readable(e);
    let action = |a: ActionView| changes(a);
    let s = preflight_github_spec(cfg);
    assert(guarded(cfg, s, first, action)) by {
        if let (Some(token), Some(url)) = (cfg.github_token, cfg.git_repo_url) {
            if let Some(repo) = crate::checks::parse_github_repo_spec(url@) {
                let q = QuestionView::Preflight(
                    PreflightQuestionView::Branch { repo, url: url@, token: token@ },
                );
                guarded_question(cfg, q, first, action);
            }
        }
    }
    bootstrap_is_checked(cfg, first);
}

/// Whether the event shows that a container engine is running.
pub open spec fn engine_answers(event: Event) -> bool {
    match event {
        Event::Performed(ActionView::Quiet(c), reply) => {
            &&& c == command("docker"@).arg("info"@) || c == command("podman"@).arg("info"@)
            &&& reply.ok
        },
        _ => false,
    }
}

proof fn engine_is_guarded(cfg: Config, github: Option<GithubContextView>)
    ensures
        guarded(
            cfg,
            resolve_engine_spec(cfg, github),
            |e: Event| engine_answers(e),
            |a: ActionView| changes(a),
        ),
{
    broadcast use group_guarded;

    let first = |e: Event| engine_answers(e);
    let action = |a: ActionView| changes(a);
    let seeker = SeekerView::Preflight { github };
    let docker = QuestionView::Engine(EngineQuestionView::DockerInfo { seeker });
    let podman = QuestionView::Engine(EngineQuestionView::PodmanInfo { seeker });
    assert forall|engine: Seq<char>|
        guarded(cfg, #[trigger] select_engine_spec(github, engine), first, action) by {
        if engine == "docker"@ || engine == "podman"@ {
            let q = QuestionView::Engine(EngineQuestionView::Reachable { github, engine });
            guarded_question(cfg, q, first, action);
        }
    }
    guarded_question(cfg, podman, first, action);
    guarded_question(cfg, docker, first, action);
}

/// A bootstrap changes nothing before a container engine has answered, whatever the replies are.
pub proof fn law_engine_answers_first(cfg: Config, replies: Seq<ReplyView>)
    ensures
        precedes(
            run(cfg, run_bootstrap_spec(cfg).steps, replies).events,
            |e: Event| engine_answers(e),
            |a: ActionView| changes(a),
        ),
{
    broadcast use group_guarded;

    let first = |e: Event| engine_answers(e);
    let action = |a: ActionView| changes(a);
    assert forall|github: Option<GithubContextView>|
        guarded(cfg, #[trigger] resolve_engine_spec(cfg, github), first, action) by {
        engine_is_guarded(cfg, github);
    }
    if cfg.environment.sync == SyncSource::Github {
        let s = preflight_github_spec(cfg);
        assert(guarded(cfg, s, first, action)) by {
            if let (Some(token), Some(url)) = (cfg.github_token, cfg.git_repo_url) {
                if let Some(repo) = crate::checks::parse_github_repo_spec(url@) {
                    let branch = QuestionView::Preflight(
                        PreflightQuestionView::Branch { repo, url: url@, token: token@ },
                    );
                    let there = QuestionView::Preflight(
                        PreflightQuestionView::AgeKeyThere { url: url@, token: token@ },
                    );
                    let key = QuestionView::Preflight(
                        PreflightQuestionView::AgeKey { url: url@, token: token@ },
                    );
                    guarded_question(cfg, key, first, action);
                    guarded_question(cfg, there, first, action);
                    guarded_question(cfg, branch, first, action);
                }
            }
        }
    }
    bootstrap_is_checked(cfg, first);
}

/// The socket that the operator names wins over the one that was detected.
pub proof fn law_named_socket_wins(
    cfg: Config,
    github: Option<GithubContextView>,
    engine: Seq<char>,
    detected: Seq<char>,
)
    requires
        cfg.engine_sock is Some,
    ensures
        engine::preflight_result(cfg, github, engine, detected).engine_sock == cfg.engine_sock->0@,
{
}

// ---------------------------------------------------------------------------------------------
// Teardown
// ---------------------------------------------------------------------------------------------
/// Whether an action may change anything outside of this process.
pub open spec fn touches(action: ActionView) -> bool {
    changes(action) && !(action is SetVar)
}

/// The tools that a teardown needs, unless it sweeps AWS alone.
pub open spec fn teardown_tools(cfg: Config) -> Set<Seq<char>> {
    if cfg.is_local_spec() || cfg.environment.teardown.hardware_release {
        set!["kind"@, "kubectl"@]
    } else {
        set!["kind"@, "helm"@, "kubectl"@, "xargs"@]
    }
}

proof fn teardown_tool_is_guarded(cfg: Config, tool: Seq<char>, wanted: Seq<char>)
    ensures
        ({
            let one = seq![
                StepView::Ask(
                    QuestionView::Teardown(TeardownQuestionView::TeardownTool { tool }),
                ),
            ];
            &&& guards(cfg, one, |e: Event| found(e, wanted), |a: ActionView| touches(a))
            &&& tool == wanted ==> brings(cfg, one, |e: Event| found(e, wanted))
        }),
{
    broadcast use {group_guarded, group_some_of};

    let q = QuestionView::Teardown(TeardownQuestionView::TeardownTool { tool });
    let one = seq![StepView::Ask(q)];
    let first = |e: Event| found(e, wanted);
    guarded_question(cfg, q, first, |a: ActionView| touches(a));
    if tool == wanted {
        let kind = |step: StepView|
            match step {
                StepView::Fail(_) => true,
                StepView::Ask(asked) => asked == q,
                _ => false,
            };
        assert(owes(cfg, kind, first));
        assert(some_step(one, kind)) by {
            assert(kind(one[0]));
        }
        owed_brings(cfg, kind, first, one);
    }
}

/// A teardown changes nothing before each tool that it needs has been found on `PATH`, whatever the
/// replies are.
pub proof fn law_teardown_tools_are_found_first(
    cfg: Config,
    knobs: TeardownConfigView,
    tool: Seq<char>,
    replies: Seq<ReplyView>,
)
    requires
        !knobs.aws_only,
        teardown_tools(cfg).contains(tool),
    ensures
        precedes(
            run(cfg, run_teardown_spec(cfg, knobs).steps, replies).events,
            |e: Event| found(e, tool),
            |a: ActionView| touches(a),
        ),
{
    broadcast use group_guarded;

    let first = |e: Event| found(e, tool);
    let action = |a: ActionView| touches(a);
    let q = QuestionView::Teardown(TeardownQuestionView::AwsCli { knobs });
    teardown_tool_is_guarded(cfg, "kind"@, tool);
    teardown_tool_is_guarded(cfg, "helm"@, tool);
    teardown_tool_is_guarded(cfg, "kubectl"@, tool);
    teardown_tool_is_guarded(cfg, "xargs"@, tool);
    guarded_question(cfg, q, first, action);
    assert(guarded(cfg, run_teardown_spec(cfg, knobs), first, action));
}

// ---------------------------------------------------------------------------------------------
// Secrets
// ---------------------------------------------------------------------------------------------
/// What can be seen of a step: everything but what is fed to a command on its standard input.
pub open spec fn seen(step: StepView) -> StepView {
    match step {
        StepView::Do(ActionView::Feed(c, _), rule) => StepView::Do(
            ActionView::Feed(c, Seq::empty()),
            rule,
        ),
        _ => step,
    }
}

/// What can be seen of a script.
pub open spec fn seen_of(s: ScriptView) -> Seq<StepView> {
    s.steps.map_values(|step: StepView| seen(step))
}

/// Neither the token nor the age key can be seen in a command line or in what is printed when the
/// Secrets are created: whatever they are, the same can be seen.
pub proof fn law_secrets_cannot_be_seen(
    cfg: Config,
    github: GithubContextView,
    other: GithubContextView,
    kubeconfig: Option<Seq<char>>,
)
    ensures
        seen_of(bootstrap::create_github_secrets_spec(cfg, github, kubeconfig)) == seen_of(
            bootstrap::create_github_secrets_spec(cfg, other, kubeconfig),
        ),
{
    let a = seen_of(bootstrap::create_github_secrets_spec(cfg, github, kubeconfig));
    let b = seen_of(bootstrap::create_github_secrets_spec(cfg, other, kubeconfig));
    assert(a =~= b);
}

/// Neither the token nor the age key can be seen when Flux is installed: of the GitHub context the
/// URL of the repository is seen alone.
pub proof fn law_flux_instance_shows_no_secret(
    cfg: Config,
    github: GithubContextView,
    other: GithubContextView,
    version: Seq<char>,
    registry_config: Seq<char>,
    kubeconfig: Option<Seq<char>>,
)
    requires
        github.git_repo_url == other.git_repo_url,
    ensures
        bootstrap::flux_instance_command_spec(
            cfg,
            Some(github),
            version,
            registry_config,
            kubeconfig,
        ) == bootstrap::flux_instance_command_spec(
            cfg,
            Some(other),
            version,
            registry_config,
            kubeconfig,
        ),
{
}

/// Neither the AWS credentials nor what a SOPS manifest holds can be seen when they are applied.
pub proof fn law_applied_secrets_cannot_be_seen(
    cfg: Config,
    manifest: Seq<char>,
    reply: ReplyView,
    other: ReplyView,
)
    requires
        reply.ok && other.ok,
    ensures
        seen_of(pivot::after_aws_credentials_spec(cfg, reply)) == seen_of(
            pivot::after_aws_credentials_spec(cfg, other),
        ),
        seen_of(pivot::after_sops_secret_spec(cfg, manifest, reply)) == seen_of(
            pivot::after_sops_secret_spec(cfg, manifest, other),
        ),
{
    assert(seen_of(pivot::after_aws_credentials_spec(cfg, reply)) =~= seen_of(
        pivot::after_aws_credentials_spec(cfg, other),
    ));
    assert(seen_of(pivot::after_sops_secret_spec(cfg, manifest, reply)) =~= seen_of(
        pivot::after_sops_secret_spec(cfg, manifest, other),
    ));
}

} // verus!
