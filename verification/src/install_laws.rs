//! What holds of every bootstrap that comes to its end: what it installs, and from where Flux syncs.
use vstd::prelude::*;

use crate::bootstrap;
use crate::bootstrap::BootstrapQuestionView;
use crate::checks::extract_age_pubkey_spec;
use crate::config::SyncSource;
use crate::context::{GithubContextView, PreflightView, SeekerView};
use crate::duties::{
    brings_question, demanded_is_done, demands, done, failure_brings, group_has_option, has_option,
};
use crate::engine;
use crate::engine::EngineQuestionView;
use crate::json::{json_text, JsonTree};
use crate::preflight;
use crate::preflight::PreflightQuestionView;
use crate::question;
use crate::question::QuestionView;
use crate::runs::{
    brings, group_guarded, group_some_of, happened, run, some_of, supplies, Event,
};
use crate::script::{command, ActionView, CommandView, ReplyView};
use crate::settings::Config;

verus! {

// ---------------------------------------------------------------------------------------------
// From the first step of a bootstrap to the installation
// ---------------------------------------------------------------------------------------------
/// Whether a GitHub context is the one that the configuration names: there is one exactly where Flux
/// syncs from GitHub, with the repository, the user and the token of the configuration.
pub open spec fn named_by(cfg: Config, github: Option<GithubContextView>) -> bool {
    match github {
        Some(context) => {
            &&& cfg.environment.sync == SyncSource::Github
            &&& cfg.git_repo_url is Some && context.git_repo_url == cfg.git_repo_url->0@
            &&& cfg.github_token is Some && context.github_token == cfg.github_token->0@
            &&& context.github_user == cfg.github_user@
        },
        None => cfg.environment.sync != SyncSource::Github,
    }
}

/// Whether what follows the preflight brings an event, whatever the preflight found.
pub open spec fn installation_brings(cfg: Config, first: spec_fn(Event) -> bool) -> bool {
    forall|preflight: PreflightView|
        named_by(cfg, preflight.github) ==> supplies(
            cfg,
            #[trigger] bootstrap::after_preflight_spec(cfg, preflight),
            first,
        )
}

proof fn engine_brings(
    cfg: Config,
    github: Option<GithubContextView>,
    name: Seq<char>,
    first: spec_fn(Event) -> bool,
)
    requires
        forall|preflight: PreflightView|
            preflight.github == github ==> supplies(
                cfg,
                #[trigger] bootstrap::after_preflight_spec(cfg, preflight),
                first,
            ),
    ensures
        supplies(cfg, engine::select_engine_spec(github, name), first),
{
    let reachable = QuestionView::Engine(EngineQuestionView::Reachable { github, engine: name });
    let socket = QuestionView::Engine(EngineQuestionView::PodmanSocket { github, engine: name });
    assert forall|reply: ReplyView|
        supplies(cfg, #[trigger] question::answer_spec(cfg, socket, reply), first) by {
        broadcast use group_guarded;

        let sock = engine::podman_socket_spec(reply.stdout);
        let a = engine::engine_resolved_spec(cfg, github, name, "/run/podman/podman.sock"@);
        let b = engine::engine_resolved_spec(cfg, github, name, sock);
        assert(supplies(cfg, a, first));
        assert(supplies(cfg, b, first));
    }
    brings_question(cfg, socket, first);
    assert forall|reply: ReplyView|
        supplies(cfg, #[trigger] question::answer_spec(cfg, reachable, reply), first) by {
        broadcast use group_guarded;
        broadcast use group_some_of;

        let s = question::answer_spec(cfg, reachable, reply);
        let a = engine::engine_resolved_spec(cfg, github, name, "/var/run/docker.sock"@);
        let b = engine::engine_resolved_spec(cfg, github, name, "/run/podman/podman.sock"@);
        assert(supplies(cfg, a, first));
        assert(supplies(cfg, b, first));
        if !reply.ok {
            failure_brings(cfg, s, first);
        }
    }
    brings_question(cfg, reachable, first);
    let s = engine::select_engine_spec(github, name);
    broadcast use group_guarded;
    broadcast use group_some_of;

    if name != "docker"@ && name != "podman"@ {
        failure_brings(cfg, s, first);
    }
}

proof fn resolution_brings(
    cfg: Config,
    github: Option<GithubContextView>,
    first: spec_fn(Event) -> bool,
)
    requires
        forall|preflight: PreflightView|
            preflight.github == github ==> supplies(
                cfg,
                #[trigger] bootstrap::after_preflight_spec(cfg, preflight),
                first,
            ),
    ensures
        supplies(cfg, engine::resolve_engine_spec(cfg, github), first),
{
    broadcast use group_guarded;

    let seeker = SeekerView::Preflight { github };
    let docker = QuestionView::Engine(EngineQuestionView::DockerInfo { seeker });
    let version = QuestionView::Engine(EngineQuestionView::DockerVersion { seeker });
    let podman = QuestionView::Engine(EngineQuestionView::PodmanInfo { seeker });
    assert forall|reply: ReplyView|
        supplies(cfg, #[trigger] question::answer_spec(cfg, version, reply), first) by {
        let name = engine::engine_of_version_spec(crate::text::lowercase_spec(reply.stdout));
        engine_brings(cfg, github, name, first);
    }
    brings_question(cfg, version, first);
    assert forall|reply: ReplyView|
        supplies(cfg, #[trigger] question::answer_spec(cfg, podman, reply), first) by {
        broadcast use group_some_of;

        engine_brings(cfg, github, "podman"@, first);
        if !reply.ok {
            failure_brings(cfg, question::answer_spec(cfg, podman, reply), first);
        }
    }
    brings_question(cfg, podman, first);
    assert forall|reply: ReplyView|
        supplies(cfg, #[trigger] question::answer_spec(cfg, docker, reply), first) by {}
    brings_question(cfg, docker, first);
    if let Some(name) = cfg.container_engine {
        engine_brings(cfg, github, name@, first);
    }
}

/// The context of GitHub that the content of an age key file gives.
pub open spec fn context_of(cfg: Config, content: Seq<char>) -> Option<GithubContextView> {
    match preflight::age_pubkey_spec(cfg, content) {
        Some(pubkey) => Some(
            GithubContextView {
                git_repo_url: cfg.git_repo_url->0@,
                github_user: cfg.github_user@,
                github_token: cfg.github_token->0@,
                age_key_content: content,
                age_pubkey: pubkey,
            },
        ),
        None => None,
    }
}

/// That the age key file is read.
pub open spec fn key_read(cfg: Config, reply: ReplyView) -> Event {
    Event::Performed(ActionView::ReadFile(cfg.age_key_file@), reply)
}

/// What a bootstrap brings with each content of the age key file, the preflight of a source on GitHub
/// brings.
proof fn key_brings(cfg: Config, first: spec_fn(Event) -> bool)
    requires
        forall|read: ReplyView|
            first(#[trigger] key_read(cfg, read))
                || !read.ok || context_of(cfg, read.stdout) is None || supplies(
                cfg,
                engine::resolve_engine_spec(cfg, context_of(cfg, read.stdout)),
                first,
            ),
    ensures
        supplies(cfg, preflight::preflight_github_spec(cfg), first),
{
    broadcast use group_guarded;

    let s = preflight::preflight_github_spec(cfg);
    if cfg.git_repo_url is Some && cfg.github_token is Some {
        let url = cfg.git_repo_url->0@;
        let token = cfg.github_token->0@;
        let key = QuestionView::Preflight(PreflightQuestionView::AgeKey { url, token });
        let there = QuestionView::Preflight(PreflightQuestionView::AgeKeyThere { url, token });
        assert forall|reply: ReplyView|
            first(Event::Performed(question::action_spec(cfg, key), reply)) || supplies(
                cfg,
                #[trigger] question::answer_spec(cfg, key, reply),
                first,
            ) by {
            broadcast use group_some_of;

            let answer = question::answer_spec(cfg, key, reply);
            let read = key_read(cfg, reply);
            assert(question::action_spec(cfg, key) == ActionView::ReadFile(cfg.age_key_file@));
            if !first(read) {
                let github = context_of(cfg, reply.stdout);
                if !reply.ok || github is None || preflight::check_age_key_spec(
                    cfg,
                    url,
                    token,
                    reply.stdout,
                ) != engine::resolve_engine_spec(cfg, github) {
                    failure_brings(cfg, answer, first);
                }
            }
        }
        brings_question(cfg, key, first);
        assert forall|reply: ReplyView|
            supplies(cfg, #[trigger] question::answer_spec(cfg, there, reply), first) by {
            broadcast use group_some_of;

            if !reply.ok {
                failure_brings(cfg, question::answer_spec(cfg, there, reply), first);
            }
        }
        brings_question(cfg, there, first);
        match crate::checks::parse_github_repo_spec(url) {
            Some(repo) => {
                let branch = QuestionView::Preflight(
                    PreflightQuestionView::Branch { repo, url, token },
                );
                assert forall|reply: ReplyView|
                    supplies(cfg, #[trigger] question::answer_spec(cfg, branch, reply), first) by {
                    broadcast use group_some_of;

                    if reply.http != 200 {
                        failure_brings(cfg, question::answer_spec(cfg, branch, reply), first);
                    }
                }
                brings_question(cfg, branch, first);
            },
            None => {
                broadcast use group_some_of;

                failure_brings(cfg, s, first);
            },
        }
    } else {
        broadcast use group_some_of;

        failure_brings(cfg, s, first);
    }
}

proof fn github_brings(cfg: Config, first: spec_fn(Event) -> bool)
    requires
        installation_brings(cfg, first),
        cfg.environment.sync == SyncSource::Github,
    ensures
        supplies(cfg, preflight::preflight_github_spec(cfg), first),
{
    if cfg.git_repo_url is Some && cfg.github_token is Some {
        assert forall|read: ReplyView|
            first(#[trigger] key_read(cfg, read))
                || !read.ok || context_of(cfg, read.stdout) is None || supplies(
                cfg,
                engine::resolve_engine_spec(cfg, context_of(cfg, read.stdout)),
                first,
            ) by {
            if context_of(cfg, read.stdout) is Some {
                resolution_brings(cfg, context_of(cfg, read.stdout), first);
            }
        }
        key_brings(cfg, first);
    } else {
        broadcast use group_some_of;

        failure_brings(cfg, preflight::preflight_github_spec(cfg), first);
    }
}

/// What follows the tools brings, the search for the tools brings.
pub proof fn tools_bring(
    cfg: Config,
    rest: Seq<Seq<char>>,
    missing: Seq<Seq<char>>,
    first: spec_fn(Event) -> bool,
)
    requires
        cfg.environment.sync == SyncSource::Github ==> supplies(
            cfg,
            preflight::preflight_github_spec(cfg),
            first,
        ),
        cfg.environment.sync != SyncSource::Github ==> supplies(
            cfg,
            engine::resolve_engine_spec(cfg, None),
            first,
        ),
    ensures
        supplies(cfg, preflight::next_tool_spec(cfg, rest, missing), first),
    decreases rest.len(),
{
    broadcast use group_guarded;

    if rest.len() > 0 {
        let q = QuestionView::Preflight(
            PreflightQuestionView::Tool { tool: rest[0], rest: rest.skip(1), missing },
        );
        assert forall|reply: ReplyView|
            supplies(cfg, #[trigger] question::answer_spec(cfg, q, reply), first) by {
            tools_bring(cfg, rest.skip(1), missing, first);
            tools_bring(cfg, rest.skip(1), missing.push(rest[0]), first);
        }
        brings_question(cfg, q, first);
    } else if missing.len() > 0 {
        broadcast use group_some_of;

        failure_brings(cfg, preflight::next_tool_spec(cfg, rest, missing), first);
    }
}

/// What follows the preflight brings, a bootstrap brings.
pub proof fn bootstrap_brings(cfg: Config, first: spec_fn(Event) -> bool)
    requires
        installation_brings(cfg, first),
    ensures
        brings(cfg, bootstrap::run_bootstrap_spec(cfg).steps, first),
{
    if cfg.environment.sync == SyncSource::Github {
        github_brings(cfg, first);
    } else {
        resolution_brings(cfg, None, first);
    }
    tools_bring(
        cfg,
        crate::checks::required_tools_spec(cfg.environment.sync),
        Seq::empty(),
        first,
    );
}

// ---------------------------------------------------------------------------------------------
// The age key
// ---------------------------------------------------------------------------------------------
/// The public key that goes with the content of an age key file: the one that the operator names, and
/// the one in the content otherwise.
pub open spec fn public_key_of(cfg: Config, content: Seq<char>) -> Option<Seq<char>> {
    match cfg.age_public_key {
        Some(named) => if named@.len() > 0 {
            Some(named@)
        } else {
            extract_age_pubkey_spec(content)
        },
        None => extract_age_pubkey_spec(content),
    }
}

/// That the content of the age key file is applied under its public key, or that another content was
/// read.
pub open spec fn age_key_arrives(cfg: Config, content: Seq<char>, pubkey: Seq<char>) -> spec_fn(
    Event,
) -> bool {
    |e: Event|
        match e {
            Event::Performed(a, reply) => reply.ok && {
                ||| a == age_applied(cfg, None, pubkey, content)
                ||| a == ActionView::ReadFile(cfg.age_key_file@) && (reply.stdout != content
                    || public_key_of(cfg, content) != Some(pubkey))
            },
            _ => false,
        }
}

/// A bootstrap from GitHub that comes to its end has applied the age key to the cluster: the content
/// of the age key file as it was read, under the public key that goes with it.
pub proof fn law_age_key_arrives(cfg: Config, content: Seq<char>, pubkey: Seq<char>)
    requires
        cfg.environment.sync == SyncSource::Github,
    ensures
        brings(
            cfg,
            bootstrap::run_bootstrap_spec(cfg).steps,
            age_key_arrives(cfg, content, pubkey),
        ),
{
    let first = age_key_arrives(cfg, content, pubkey);
    if cfg.git_repo_url is Some && cfg.github_token is Some {
        assert forall|read: ReplyView|
            first(#[trigger] key_read(cfg, read))
                || !read.ok || context_of(cfg, read.stdout) is None || supplies(
                cfg,
                engine::resolve_engine_spec(cfg, context_of(cfg, read.stdout)),
                first,
            ) by {
            let e = key_read(cfg, read);
            let github = context_of(cfg, read.stdout);
            if !first(e) && read.ok && github is Some {
                assert(read.stdout == content && github->0.age_pubkey == pubkey);
                assert forall|preflight: PreflightView| preflight.github == github implies supplies(
                    cfg,
                    #[trigger] bootstrap::after_preflight_spec(cfg, preflight),
                    first,
                ) by {
                    key_is_installed(cfg, preflight, content, pubkey);
                }
                resolution_brings(cfg, github, first);
            }
        }
        key_brings(cfg, first);
    } else {
        broadcast use group_some_of;

        failure_brings(cfg, preflight::preflight_github_spec(cfg), first);
    }
    tools_bring(
        cfg,
        crate::checks::required_tools_spec(cfg.environment.sync),
        Seq::empty(),
        first,
    );
}

proof fn key_is_installed(
    cfg: Config,
    preflight: PreflightView,
    content: Seq<char>,
    pubkey: Seq<char>,
)
    requires
        preflight.github is Some,
        named_by(cfg, preflight.github),
        preflight.github->0.age_key_content == content,
        preflight.github->0.age_pubkey == pubkey,
    ensures
        supplies(
            cfg,
            bootstrap::after_preflight_spec(cfg, preflight),
            age_key_arrives(cfg, content, pubkey),
        ),
{
    broadcast use group_guarded;

    let first = age_key_arrives(cfg, content, pubkey);
    let wanted = |a: ActionView| a == age_applied(cfg, None, pubkey, content);
    let q = QuestionView::Bootstrap(BootstrapQuestionView::RegistryConfig { preflight });
    assert forall|reply: ReplyView|
        supplies(cfg, #[trigger] question::answer_spec(cfg, q, reply), first) by {
        broadcast use group_some_of;

        let s = bootstrap::after_registry_config_spec(cfg, preflight, reply);
        if reply.ok {
            secrets_are_demanded(cfg, preflight.github->0, None);
            assert(some_of(s, demands(wanted)));
            demanded_is_done(cfg, s, wanted);
            assert forall|replies: Seq<ReplyView>|
                (#[trigger] run(cfg, s.steps, replies)).left is Some implies happened(
                run(cfg, s.steps, replies).events,
                first,
            ) by {
                let events = run(cfg, s.steps, replies).events;
                let k = choose|k: int|
                    0 <= k < events.len() && done(wanted)(#[trigger] events[k]);
                assert(first(events[k]));
            }
        } else {
            failure_brings(cfg, s, first);
        }
    }
    brings_question(cfg, q, first);
}

// ---------------------------------------------------------------------------------------------
// The installation
// ---------------------------------------------------------------------------------------------
/// What is demanded where Flux is installed is done in every bootstrap that comes to its end.
proof fn installation_demands(cfg: Config, wanted: spec_fn(ActionView) -> bool)
    requires
        forall|preflight: PreflightView, reply: ReplyView|
            named_by(cfg, preflight.github) && reply.ok ==> some_of(
                #[trigger] bootstrap::after_registry_config_spec(cfg, preflight, reply),
                demands(wanted),
            ),
    ensures
        brings(cfg, bootstrap::run_bootstrap_spec(cfg).steps, done(wanted)),
{
    let first = done(wanted);
    assert forall|preflight: PreflightView| named_by(cfg, preflight.github) implies supplies(
        cfg,
        #[trigger] bootstrap::after_preflight_spec(cfg, preflight),
        first,
    ) by {
        broadcast use group_guarded;

        let q = QuestionView::Bootstrap(BootstrapQuestionView::RegistryConfig { preflight });
        assert forall|reply: ReplyView|
            supplies(cfg, #[trigger] question::answer_spec(cfg, q, reply), first) by {
            broadcast use group_some_of;

            let s = bootstrap::after_registry_config_spec(cfg, preflight, reply);
            if reply.ok {
                demanded_is_done(cfg, s, wanted);
            } else {
                failure_brings(cfg, s, first);
            }
        }
        brings_question(cfg, q, first);
    }
    bootstrap_brings(cfg, first);
}

/// The chart version that the configuration pins.
pub open spec fn pinned(cfg: Config, chart: Seq<char>) -> Seq<char> {
    cfg.repo.chart_version(chart)->0
}

/// Installs the Flux Operator in a cluster: the one of a kubeconfig, or the current one.
pub open spec fn installs_operator(
    cfg: Config,
    kubeconfig: Option<Seq<char>>,
) -> spec_fn(ActionView) -> bool {
    |a: ActionView|
        exists|registry_config: Seq<char>| a == #[trigger] operator_install(
            cfg,
            registry_config,
            kubeconfig,
        )
}

/// Installs the Flux Operator.
pub open spec fn operator_install(
    cfg: Config,
    registry_config: Seq<char>,
    kubeconfig: Option<Seq<char>>,
) -> ActionView {
    let c = command("helm"@)
        .arg("upgrade"@).arg("--install"@).arg("flux-operator"@)
        .arg("oci://ghcr.io/controlplaneio-fluxcd/charts/flux-operator"@).arg("--version"@)
        .arg(pinned(cfg, "flux-operator"@)).arg("--namespace"@)
        .arg(cfg.repo.bootstrap.flux_namespace@).arg("--create-namespace"@).arg("--wait"@)
        .arg("--timeout"@).arg("10m"@).arg("--registry-config"@).arg(registry_config);
    ActionView::Run(
        match kubeconfig {
            Some(path) => c.arg("--kubeconfig"@).arg(path),
            None => c,
        },
    )
}

/// The script that installs the Flux Operator demands it.
pub proof fn operator_is_demanded(
    cfg: Config,
    registry_config: Seq<char>,
    kubeconfig: Option<Seq<char>>,
)
    ensures
        some_of(
            bootstrap::install_flux_operator_spec(cfg, registry_config, kubeconfig),
            demands(installs_operator(cfg, kubeconfig)),
        ),
{
    broadcast use group_some_of;

    let wanted = operator_install(cfg, registry_config, kubeconfig);
    assert(installs_operator(cfg, kubeconfig)(wanted));
}

/// A bootstrap that comes to its end has installed the Flux Operator in the kind cluster, with
/// success, in the version that the configuration pins.
pub proof fn law_flux_operator_is_installed(cfg: Config, replies: Seq<ReplyView>)
    ensures
        ({
            let r = run(cfg, bootstrap::run_bootstrap_spec(cfg).steps, replies);
            r.left is Some ==> happened(r.events, done(installs_operator(cfg, None)))
        }),
{
    let wanted = installs_operator(cfg, None);
    assert forall|preflight: PreflightView, reply: ReplyView|
        named_by(cfg, preflight.github) && reply.ok implies some_of(
        #[trigger] bootstrap::after_registry_config_spec(cfg, preflight, reply),
        demands(wanted),
    ) by {
        broadcast use group_some_of;

        operator_is_demanded(cfg, reply.stdout, None);
    }
    installation_demands(cfg, wanted);
}

/// kubectl in a cluster: the one of a kubeconfig, or the current one.
pub open spec fn kubectl_in(kubeconfig: Option<Seq<char>>) -> CommandView {
    match kubeconfig {
        Some(path) => command("kubectl"@).arg("--kubeconfig"@).arg(path),
        None => command("kubectl"@),
    }
}

/// An opaque Secret, as JSON.
pub open spec fn opaque_secret(
    name: Seq<char>,
    namespace: Seq<char>,
    data: JsonTree,
) -> JsonTree {
    JsonTree::object()
        .with("apiVersion"@, JsonTree::Text("v1"@))
        .with("kind"@, JsonTree::Text("Secret"@))
        .with(
            "metadata"@,
            JsonTree::object()
                .with("name"@, JsonTree::Text(name))
                .with("namespace"@, JsonTree::Text(namespace)),
        )
        .with("type"@, JsonTree::Text("Opaque"@))
        .with("stringData"@, data)
}

/// Applies the Secret with which Flux pulls from GitHub: the user and the token of the configuration.
pub open spec fn applies_token(
    cfg: Config,
    kubeconfig: Option<Seq<char>>,
) -> spec_fn(ActionView) -> bool {
    |a: ActionView|
        a == ActionView::Feed(
            kubectl_in(kubeconfig).arg("apply"@).arg("-f"@).arg("-"@),
            json_text(
                opaque_secret(
                    cfg.repo.bootstrap.github_pat_secret@,
                    cfg.repo.bootstrap.flux_namespace@,
                    JsonTree::object()
                        .with("username"@, JsonTree::Text(cfg.github_user@))
                        .with("password"@, JsonTree::Text(cfg.github_token->0@)),
                ),
            ),
        )
}

/// Applies the Secret with which Flux decrypts: an age key under the name of a public key.
pub open spec fn age_applied(
    cfg: Config,
    kubeconfig: Option<Seq<char>>,
    pubkey: Seq<char>,
    content: Seq<char>,
) -> ActionView {
    ActionView::Feed(
        kubectl_in(kubeconfig).arg("apply"@).arg("-f"@).arg("-"@),
        json_text(
            opaque_secret(
                cfg.repo.bootstrap.sops_age_secret@,
                cfg.repo.bootstrap.flux_namespace@,
                JsonTree::object().with(
                    "keys."@ + pubkey + ".agekey"@,
                    JsonTree::Text(content),
                ),
            ),
        ),
    )
}

/// Applies the Secret with which Flux decrypts.
pub open spec fn applies_age_key(
    cfg: Config,
    kubeconfig: Option<Seq<char>>,
) -> spec_fn(ActionView) -> bool {
    |a: ActionView|
        exists|pubkey: Seq<char>, content: Seq<char>| a == #[trigger] age_applied(
            cfg,
            kubeconfig,
            pubkey,
            content,
        )
}

/// The script that creates the Secrets demands both.
pub proof fn secrets_are_demanded(
    cfg: Config,
    github: GithubContextView,
    kubeconfig: Option<Seq<char>>,
)
    requires
        named_by(cfg, Some(github)),
    ensures
        some_of(
            bootstrap::create_secrets_spec(cfg, Some(github), kubeconfig),
            demands(applies_token(cfg, kubeconfig)),
        ),
        some_of(
            bootstrap::create_secrets_spec(cfg, Some(github), kubeconfig),
            demands(applies_age_key(cfg, kubeconfig)),
        ),
        some_of(
            bootstrap::create_secrets_spec(cfg, Some(github), kubeconfig),
            demands(
                |a: ActionView|
                    a == age_applied(cfg, kubeconfig, github.age_pubkey, github.age_key_content),
            ),
        ),
{
    broadcast use group_some_of;

    let applied = age_applied(cfg, kubeconfig, github.age_pubkey, github.age_key_content);
    assert(applies_age_key(cfg, kubeconfig)(applied));
}

/// A bootstrap that syncs from GitHub and comes to its end has applied the Secrets with which Flux
/// pulls and decrypts, with success.
pub proof fn law_secrets_are_created(cfg: Config, replies: Seq<ReplyView>)
    requires
        cfg.environment.sync == SyncSource::Github,
    ensures
        ({
            let r = run(cfg, bootstrap::run_bootstrap_spec(cfg).steps, replies);
            r.left is Some ==> {
                &&& happened(r.events, done(applies_token(cfg, None)))
                &&& happened(r.events, done(applies_age_key(cfg, None)))
            }
        }),
{
    let token = applies_token(cfg, None);
    let key = applies_age_key(cfg, None);
    assert forall|preflight: PreflightView, reply: ReplyView|
        named_by(cfg, preflight.github) && reply.ok implies some_of(
        #[trigger] bootstrap::after_registry_config_spec(cfg, preflight, reply),
        demands(token),
    ) && some_of(bootstrap::after_registry_config_spec(cfg, preflight, reply), demands(key)) by {
        broadcast use group_some_of;

        secrets_are_demanded(cfg, preflight.github->0, None);
    }
    installation_demands(cfg, token);
    installation_demands(cfg, key);
}

/// Whether a command installs the FluxInstance in the pinned version.
pub open spec fn is_instance_install(cfg: Config, c: CommandView) -> bool {
    &&& c.program == "helm"@
    &&& c.args.len() > 4
    &&& c.args[0] == "upgrade"@ && c.args[1] == "--install"@ && c.args[2] == "flux"@
    &&& c.args[3] == "oci://ghcr.io/controlplaneio-fluxcd/charts/flux-instance"@
    &&& has_option(c, "--version"@, pinned(cfg, "flux-operator"@))
    &&& has_option(c, "--namespace"@, cfg.repo.bootstrap.flux_namespace@)
}

/// Whether a command lets Flux sync as the configuration says: from the branch of the repository, or
/// from the artifact in the local registry; of the path of the environment.
pub open spec fn syncs(cfg: Config, c: CommandView) -> bool {
    &&& has_option(c, "--set"@, "instance.sync.path="@ + cfg.environment.sync_path@)
    &&& if cfg.environment.sync == SyncSource::Github {
        &&& has_option(c, "--set"@, "instance.sync.kind=GitRepository"@)
        &&& has_option(c, "--set"@, "instance.sync.url="@ + cfg.git_repo_url->0@)
        &&& has_option(
            c,
            "--set"@,
            "instance.sync.ref=refs/heads/"@ + cfg.repo.bootstrap.git_branch@,
        )
        &&& has_option(
            c,
            "--set"@,
            "instance.sync.pullSecret="@ + cfg.repo.bootstrap.github_pat_secret@,
        )
    } else {
        &&& has_option(c, "--set"@, "instance.sync.kind=OCIRepository"@)
        &&& has_option(
            c,
            "--set"@,
            "instance.sync.url=oci://"@ + cfg.repo.bootstrap.registry_name@ + ":5000/"@
                + cfg.oci_repository@,
        )
        &&& has_option(c, "--set"@, "instance.sync.ref="@ + cfg.oci_tag@)
    }
}

/// Installs the FluxInstance as the configuration says.
pub open spec fn installs_instance(
    cfg: Config,
    kubeconfig: Option<Seq<char>>,
) -> spec_fn(ActionView) -> bool {
    |a: ActionView|
        match a {
            ActionView::Run(c) => is_instance_install(cfg, c) && syncs(cfg, c) && match kubeconfig {
                Some(path) => has_option(c, "--kubeconfig"@, path),
                None => true,
            },
            _ => false,
        }
}

/// The command that installs the FluxInstance lets Flux sync as the configuration says, whatever the
/// OCI settings are where it syncs from GitHub, and whatever the Git settings are where it does not.
pub proof fn law_flux_syncs_from_the_source(
    cfg: Config,
    github: Option<GithubContextView>,
    registry_config: Seq<char>,
    kubeconfig: Option<Seq<char>>,
)
    requires
        named_by(cfg, github),
    ensures
        installs_instance(cfg, kubeconfig)(
            ActionView::Run(
                bootstrap::flux_instance_command_spec(
                    cfg,
                    github,
                    pinned(cfg, "flux-operator"@),
                    registry_config,
                    kubeconfig,
                ),
            ),
        ),
{
    broadcast use group_has_option;

    let base = bootstrap::flux_instance_base(
        cfg,
        pinned(cfg, "flux-operator"@),
        registry_config,
        kubeconfig,
    );
    assert(has_option(base, "--version"@, pinned(cfg, "flux-operator"@)));
    assert(has_option(base, "--namespace"@, cfg.repo.bootstrap.flux_namespace@));
}

/// Two configurations that install the same FluxInstance where Flux syncs from GitHub: they agree in
/// the repository configuration, the environment and the GitHub context, and in nothing else.
pub proof fn law_oci_settings_do_not_matter(
    a: Config,
    b: Config,
    github: GithubContextView,
    version: Seq<char>,
    registry_config: Seq<char>,
    kubeconfig: Option<Seq<char>>,
)
    requires
        a.repo.bootstrap == b.repo.bootstrap,
        a.environment.sync_path@ == b.environment.sync_path@,
    ensures
        bootstrap::flux_instance_command_spec(a, Some(github), version, registry_config, kubeconfig)
            == bootstrap::flux_instance_command_spec(
            b,
            Some(github),
            version,
            registry_config,
            kubeconfig,
        ),
{
}

/// Two configurations that install the same FluxInstance where Flux syncs from the local registry:
/// they agree in the names of the registry and of the artifact, in the namespace and in the path, and
/// in nothing else.
pub proof fn law_git_settings_do_not_matter(
    a: Config,
    b: Config,
    version: Seq<char>,
    registry_config: Seq<char>,
    kubeconfig: Option<Seq<char>>,
)
    requires
        a.repo.bootstrap.flux_namespace@ == b.repo.bootstrap.flux_namespace@,
        a.repo.bootstrap.registry_name@ == b.repo.bootstrap.registry_name@,
        a.environment.sync_path@ == b.environment.sync_path@,
        a.oci_repository@ == b.oci_repository@,
        a.oci_tag@ == b.oci_tag@,
    ensures
        bootstrap::flux_instance_command_spec(a, None, version, registry_config, kubeconfig)
            == bootstrap::flux_instance_command_spec(b, None, version, registry_config, kubeconfig),
{
}

/// The script that installs the FluxInstance demands it, and demands that it becomes ready.
pub proof fn instance_is_demanded(
    cfg: Config,
    github: Option<GithubContextView>,
    registry_config: Seq<char>,
    kubeconfig: Option<Seq<char>>,
    resume: Option<PreflightView>,
)
    requires
        named_by(cfg, github),
    ensures
        some_of(
            bootstrap::install_flux_instance_spec(
                cfg,
                github,
                registry_config,
                kubeconfig,
                resume,
            ),
            demands(installs_instance(cfg, kubeconfig)),
        ),
        some_of(
            bootstrap::install_flux_instance_spec(
                cfg,
                github,
                registry_config,
                kubeconfig,
                resume,
            ),
            demands(awaits_instance(cfg, kubeconfig)),
        ),
{
    broadcast use group_some_of;

    law_flux_syncs_from_the_source(cfg, github, registry_config, kubeconfig);
}

/// Waits until the FluxInstance is ready.
pub open spec fn awaits_instance(
    cfg: Config,
    kubeconfig: Option<Seq<char>>,
) -> spec_fn(ActionView) -> bool {
    |a: ActionView|
        a == ActionView::Run(
            kubectl_in(kubeconfig)
                .arg("wait"@).arg("fluxinstance/flux"@).arg("--namespace"@)
                .arg(cfg.repo.bootstrap.flux_namespace@).arg("--for=condition=Ready"@)
                .arg("--timeout=10m"@),
        )
}

/// A bootstrap that comes to its end has installed the FluxInstance in the kind cluster with success,
/// syncing as the configuration says, and has seen it ready.
pub proof fn law_flux_instance_is_installed(cfg: Config, replies: Seq<ReplyView>)
    ensures
        ({
            let r = run(cfg, bootstrap::run_bootstrap_spec(cfg).steps, replies);
            r.left is Some ==> {
                &&& happened(r.events, done(installs_instance(cfg, None)))
                &&& happened(r.events, done(awaits_instance(cfg, None)))
            }
        }),
{
    let installed = installs_instance(cfg, None);
    let ready = awaits_instance(cfg, None);
    assert forall|preflight: PreflightView, reply: ReplyView|
        named_by(cfg, preflight.github) && reply.ok implies some_of(
        #[trigger] bootstrap::after_registry_config_spec(cfg, preflight, reply),
        demands(installed),
    ) && some_of(bootstrap::after_registry_config_spec(cfg, preflight, reply), demands(ready)) by {
        broadcast use group_some_of;

        instance_is_demanded(cfg, preflight.github, reply.stdout, None, Some(preflight));
    }
    installation_demands(cfg, installed);
    installation_demands(cfg, ready);
}

} // verus!
