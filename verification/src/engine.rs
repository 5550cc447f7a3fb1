//! The container engine: which one runs, where its socket is, and how the toolbox joins the
//! network of the kind cluster.
use vstd::prelude::*;

use crate::bootstrap::{after_preflight, after_preflight_spec};
use crate::checks::{
    internal_kind_kubeconfig_args, toolbox_kubeconfig_path, toolbox_kubeconfig_path_spec,
};
use crate::context::{
    GithubContext, GithubContextView, Preflight, PreflightView, Seeker, SeekerView, TeardownConfig,
    TeardownConfigView, github_context_copy, github_context_view,
};
use crate::failure::{Failure, FailureView};
use crate::question::{Question, QuestionView};
use crate::script::{
    Action, ActionView, Command, CommandView, Reply, ReplyView, Rule, RuleView, Script, ScriptView,
    command, failure, failure_spec,
};
use crate::settings::Config;
use crate::teardown::{teardown_local, teardown_local_spec};
use crate::text::{
    cat2, cat3, cat4, cat7, contains, contains_spec, is_nothing, is_nothing_spec, list, lowercase,
    lowercase_spec, optional, same, trim, trim_end, trim_end_spec, trim_prefixes,
    trim_prefixes_spec, trim_spec,
};

verus! {

/// The engine whose lower-case version line this is. The `docker` command can be Podman.
pub open spec fn engine_of_version_spec(lower: Seq<char>) -> Seq<char> {
    if contains_spec(lower, "podman"@) {
        "podman"@
    } else {
        "docker"@
    }
}

/// The engine whose lower-case version line this is. The `docker` command can be Podman.
pub fn engine_of_version(lower: &str) -> (r: String)
    ensures
        r@ == engine_of_version_spec(lower@),
{
    if contains(lower, "podman") {
        "podman".to_owned()
    } else {
        "docker".to_owned()
    }
}

/// The socket path that `podman info` prints, without its scheme.
pub open spec fn podman_socket_spec(printed: Seq<char>) -> Seq<char> {
    trim_prefixes_spec(trim_spec(printed), "unix://"@)
}

/// The socket path that `podman info` prints, without its scheme.
pub fn podman_socket(printed: &str) -> (r: String)
    ensures
        r@ == podman_socket_spec(printed@),
{
    trim_prefixes(trim(printed).as_str(), "unix://")
}

/// The toolbox container's own ID, which the engine writes to `/etc/hostname`; empty where it
/// cannot be read.
pub open spec fn toolbox_container_id_spec(reply: ReplyView) -> Seq<char> {
    if reply.ok {
        trim_spec(reply.stdout)
    } else {
        ""@
    }
}

/// The toolbox container's own ID, which the engine writes to `/etc/hostname`; empty where it
/// cannot be read.
pub fn toolbox_container_id(reply: &Reply) -> (r: String)
    ensures
        r@ == toolbox_container_id_spec(reply@),
{
    if reply.ok {
        trim(reply.stdout.as_str())
    } else {
        "".to_owned()
    }
}

/// kind, printing the internal kubeconfig of the cluster.
pub open spec fn kind_kubeconfig_spec(cfg: Config) -> CommandView {
    command("kind"@).arg("get"@).arg("kubeconfig"@).arg("--internal"@).arg("--name"@).arg(
        cfg.repo.bootstrap.kind_cluster@,
    )
}

/// kind, printing the internal kubeconfig of the cluster.
pub fn kind_kubeconfig(cfg: &Config) -> (c: Command)
    ensures
        c@ == kind_kubeconfig_spec(*cfg),
{
    let args = list(&internal_kind_kubeconfig_args(cfg.repo.bootstrap.kind_cluster.as_str()));
    let c = Command::new("kind").with_args(&args);
    assert(c@.args =~= kind_kubeconfig_spec(*cfg).args);
    c
}

/// The value to which `CONTAINER_HOST` is set: inside the toolbox the mounted socket, unless the
/// operator has set the variable.
pub open spec fn toolbox_container_host_spec(toolbox: bool, operator_set: bool) -> Option<
    Seq<char>,
> {
    if toolbox && !operator_set {
        Some("unix:///var/run/docker.sock"@)
    } else {
        None
    }
}

/// The value to which `CONTAINER_HOST` is set: inside the toolbox the mounted socket, unless the
/// operator has set the variable.
pub fn toolbox_container_host(toolbox: bool, operator_set: bool) -> (r: Option<String>)
    ensures
        optional(r) == toolbox_container_host_spec(toolbox, operator_set),
{
    if toolbox && !operator_set {
        Some("unix:///var/run/docker.sock".to_owned())
    } else {
        None
    }
}

/// The engine with which the toolbox attaches itself to a network; outside the toolbox there is
/// none.
pub open spec fn network_engine_spec(cfg: Config) -> Option<Seq<char>> {
    if !cfg.toolbox {
        None
    } else {
        match cfg.container_engine {
            Some(engine) => Some(engine@),
            None => Some("docker"@),
        }
    }
}

/// The engine with which the toolbox attaches itself to a network; outside the toolbox there is
/// none.
pub fn network_engine(cfg: &Config) -> (r: Option<String>)
    ensures
        optional(r) == network_engine_spec(*cfg),
{
    if !cfg.toolbox {
        None
    } else {
        match &cfg.container_engine {
            Some(engine) => Some(engine.clone()),
            None => Some("docker".to_owned()),
        }
    }
}

/// How the run goes on once it is known which engine runs, if any.
pub open spec fn engine_found_spec(
    cfg: Config,
    seeker: SeekerView,
    engine: Option<Seq<char>>,
) -> ScriptView {
    match seeker {
        SeekerView::Preflight { github } => match engine {
            Some(engine) => select_engine_spec(github, engine),
            None => ScriptView::new().fail(
                "No running container engine found (tried docker and podman)"@,
            ),
        },
        SeekerView::Teardown { knobs } => match engine {
            Some(_) => teardown_local_spec(cfg, knobs, engine),
            None => ScriptView::new().report(
                ">>> WARNING: No running container engine found; registry cleanup will be skipped"@,
            ).join(teardown_local_spec(cfg, knobs, engine)),
        },
    }
}

/// How the run goes on once it is known which engine runs, if any.
pub fn engine_found(cfg: &Config, seeker: &Seeker, engine: &Option<String>) -> (s: Script)
    ensures
        s@ == engine_found_spec(*cfg, seeker@, optional(*engine)),
{
    match seeker {
        Seeker::Preflight { github } => match engine {
            Some(engine) => select_engine(github, engine.as_str()),
            None => Script::new().fail(
                "No running container engine found (tried docker and podman)".to_owned(),
            ),
        },
        Seeker::Teardown { knobs } => match engine {
            Some(_) => teardown_local(cfg, knobs, engine),
            None => Script::new().report(
                ">>> WARNING: No running container engine found; registry cleanup will be skipped".to_owned(),
            ).join(teardown_local(cfg, knobs, engine)),
        },
    }
}

/// What the preflight gathered, once the engine and its socket are known. A socket that the
/// operator names wins over the detected one.
pub open spec fn preflight_result(
    cfg: Config,
    github: Option<GithubContextView>,
    engine: Seq<char>,
    detected: Seq<char>,
) -> PreflightView {
    PreflightView {
        engine,
        engine_sock: match cfg.engine_sock {
            Some(sock) => sock@,
            None => detected,
        },
        github,
    }
}

/// How the bootstrap goes on once the engine and its socket are known.
pub open spec fn engine_resolved_spec(
    cfg: Config,
    github: Option<GithubContextView>,
    engine: Seq<char>,
    detected: Seq<char>,
) -> ScriptView {
    after_preflight_spec(cfg, preflight_result(cfg, github, engine, detected))
}

/// How the bootstrap goes on once the engine and its socket are known.
pub fn engine_resolved(
    cfg: &Config,
    github: &Option<GithubContext>,
    engine: &str,
    detected: &str,
) -> (s: Script)
    ensures
        s@ == engine_resolved_spec(*cfg, github_context_view(*github), engine@, detected@),
{
    let preflight = Preflight {
        engine: engine.to_owned(),
        engine_sock: match &cfg.engine_sock {
            Some(sock) => sock.clone(),
            None => detected.to_owned(),
        },
        github: github_context_copy(github),
    };
    after_preflight(cfg, &preflight)
}

/// The questions of this module.
pub enum EngineQuestion {
    /// Is Docker running?
    DockerInfo { seeker: Seeker },
    /// Is it Podman that answers to the name of Docker?
    DockerVersion { seeker: Seeker },
    /// Is Podman running?
    PodmanInfo { seeker: Seeker },
    /// Is the engine that the operator named for the teardown running?
    NamedEngine { knobs: TeardownConfig, engine: String },
    /// Does the selected engine answer?
    Reachable { github: Option<GithubContext>, engine: String },
    /// Where is the socket of the Podman API?
    PodmanSocket { github: Option<GithubContext>, engine: String },
    /// Which container is the toolbox?
    ToolboxId { engine: String, joining: bool },
    /// Is the container attached to the network already?
    Member { engine: String, network: String, id: String },
    /// Could the container be attached to the network?
    Connect { engine: String, network: String, id: String },
    /// Is the container attached to the network after the attempt failed?
    MemberAfter { engine: String, network: String, id: String, status: String, stderr: String },
    /// What is the internal kubeconfig of the kind cluster?
    KindKubeconfig { path: String },
}

/// The model of a question of this module.
pub enum EngineQuestionView {
    DockerInfo { seeker: SeekerView },
    DockerVersion { seeker: SeekerView },
    PodmanInfo { seeker: SeekerView },
    NamedEngine { knobs: TeardownConfigView, engine: Seq<char> },
    Reachable { github: Option<GithubContextView>, engine: Seq<char> },
    PodmanSocket { github: Option<GithubContextView>, engine: Seq<char> },
    ToolboxId { engine: Seq<char>, joining: bool },
    Member { engine: Seq<char>, network: Seq<char>, id: Seq<char> },
    Connect { engine: Seq<char>, network: Seq<char>, id: Seq<char> },
    MemberAfter {
        engine: Seq<char>,
        network: Seq<char>,
        id: Seq<char>,
        status: Seq<char>,
        stderr: Seq<char>,
    },
    KindKubeconfig { path: Seq<char> },
}

impl View for EngineQuestion {
    type V = EngineQuestionView;

    open spec fn view(&self) -> EngineQuestionView {
        match *self {
            EngineQuestion::DockerInfo { seeker } => EngineQuestionView::DockerInfo {
                seeker: seeker@,
            },
            EngineQuestion::DockerVersion { seeker } => EngineQuestionView::DockerVersion {
                seeker: seeker@,
            },
            EngineQuestion::PodmanInfo { seeker } => EngineQuestionView::PodmanInfo {
                seeker: seeker@,
            },
            EngineQuestion::NamedEngine { knobs, engine } => {
                EngineQuestionView::NamedEngine { knobs: knobs@, engine: engine@ }
            },
            EngineQuestion::Reachable { github, engine } => EngineQuestionView::Reachable {
                github: github_context_view(github),
                engine: engine@,
            },
            EngineQuestion::PodmanSocket { github, engine } => {
                EngineQuestionView::PodmanSocket {
                    github: github_context_view(github),
                    engine: engine@,
                }
            },
            EngineQuestion::ToolboxId { engine, joining } => {
                EngineQuestionView::ToolboxId { engine: engine@, joining }
            },
            EngineQuestion::Member { engine, network, id } => {
                EngineQuestionView::Member { engine: engine@, network: network@, id: id@ }
            },
            EngineQuestion::Connect { engine, network, id } => {
                EngineQuestionView::Connect { engine: engine@, network: network@, id: id@ }
            },
            EngineQuestion::MemberAfter { engine, network, id, status, stderr } => {
                EngineQuestionView::MemberAfter {
                    engine: engine@,
                    network: network@,
                    id: id@,
                    status: status@,
                    stderr: stderr@,
                }
            },
            EngineQuestion::KindKubeconfig { path } => EngineQuestionView::KindKubeconfig {
                path: path@,
            },
        }
    }
}

/// What is done to find the answer to a question.
pub open spec fn action_spec(cfg: Config, question: EngineQuestionView) -> ActionView {
    match question {
        EngineQuestionView::DockerInfo { .. } => ActionView::Quiet(command("docker"@).arg("info"@)),
        EngineQuestionView::DockerVersion { .. } => ActionView::Lossy(
            command("docker"@).arg("--version"@),
        ),
        EngineQuestionView::PodmanInfo { .. } => ActionView::Quiet(command("podman"@).arg("info"@)),
        EngineQuestionView::NamedEngine { engine, .. } => ActionView::Quiet(
            command(engine).arg("info"@),
        ),
        EngineQuestionView::Reachable { engine, .. } => ActionView::Quiet(
            command(engine).arg("info"@),
        ),
        EngineQuestionView::PodmanSocket { .. } => ActionView::Lossy(
            command("podman"@).arg("info"@).arg("--format"@).arg("{{.Host.RemoteSocket.Path}}"@),
        ),
        EngineQuestionView::ToolboxId { .. } => ActionView::ReadFile("/etc/hostname"@),
        EngineQuestionView::Member { engine, network, .. } => {
            ActionView::Lossy(command(engine).arg("network"@).arg("inspect"@).arg(network))
        },
        EngineQuestionView::Connect { engine, network, id } => {
            ActionView::Inspect(
                command(engine).arg("network"@).arg("connect"@).arg(network).arg(id),
            )
        },
        EngineQuestionView::MemberAfter { engine, network, .. } => {
            ActionView::Lossy(command(engine).arg("network"@).arg("inspect"@).arg(network))
        },
        EngineQuestionView::KindKubeconfig { .. } => ActionView::Capture(kind_kubeconfig_spec(cfg)),
    }
}

/// What is done to find the answer to a question.
pub fn action(cfg: &Config, question: &EngineQuestion) -> (a: Action)
    ensures
        a@ == action_spec(*cfg, question@),
{
    match question {
        EngineQuestion::DockerInfo { .. } => Action::Quiet(Command::new("docker").arg("info")),
        EngineQuestion::DockerVersion { .. } => Action::Lossy(
            Command::new("docker").arg("--version"),
        ),
        EngineQuestion::PodmanInfo { .. } => Action::Quiet(Command::new("podman").arg("info")),
        EngineQuestion::NamedEngine { engine, .. } => Action::Quiet(
            Command::new(engine.as_str()).arg("info"),
        ),
        EngineQuestion::Reachable { engine, .. } => Action::Quiet(
            Command::new(engine.as_str()).arg("info"),
        ),
        EngineQuestion::PodmanSocket { .. } => Action::Lossy(
            Command::new("podman").arg("info").arg("--format").arg("{{.Host.RemoteSocket.Path}}"),
        ),
        EngineQuestion::ToolboxId { .. } => Action::ReadFile("/etc/hostname".to_owned()),
        EngineQuestion::Member { engine, network, .. } => Action::Lossy(
            Command::new(engine.as_str()).arg("network").arg("inspect").arg(network.as_str()),
        ),
        EngineQuestion::Connect { engine, network, id } => Action::Inspect(
            Command::new(engine.as_str())
                .arg("network").arg("connect").arg(network.as_str()).arg(id.as_str()),
        ),
        EngineQuestion::MemberAfter { engine, network, .. } => {
            Action::Lossy(
                Command::new(engine.as_str()).arg("network").arg("inspect").arg(network.as_str()),
            )
        },
        EngineQuestion::KindKubeconfig { .. } => Action::Capture(kind_kubeconfig(cfg)),
    }
}

/// How the run goes on after: is Docker running?
pub open spec fn after_docker_info_spec(seeker: SeekerView, reply: ReplyView) -> ScriptView {
    if reply.ok {
        ScriptView::new()
            .ask(QuestionView::Engine(EngineQuestionView::DockerVersion { seeker }))
    } else {
        ScriptView::new()
            .ask(QuestionView::Engine(EngineQuestionView::PodmanInfo { seeker }))
    }
}

/// How the run goes on after: is Docker running?
pub fn after_docker_info(seeker: &Seeker, reply: &Reply) -> (s: Script)
    ensures
        s@ == after_docker_info_spec(seeker@, reply@),
{
    if reply.ok {
        Script::new()
            .ask(Question::Engine(EngineQuestion::DockerVersion { seeker: seeker.copy() }))
    } else {
        Script::new()
            .ask(Question::Engine(EngineQuestion::PodmanInfo { seeker: seeker.copy() }))
    }
}

/// How the run goes on after: is it Podman that answers to the name of Docker?
pub open spec fn after_docker_version_spec(
    cfg: Config,
    seeker: SeekerView,
    reply: ReplyView,
) -> ScriptView {
    let engine = Some(engine_of_version_spec(lowercase_spec(reply.stdout)));
    engine_found_spec(cfg, seeker, engine)
}

/// How the run goes on after: is it Podman that answers to the name of Docker?
pub fn after_docker_version(cfg: &Config, seeker: &Seeker, reply: &Reply) -> (s: Script)
    ensures
        s@ == after_docker_version_spec(*cfg, seeker@, reply@),
{
    let engine = Some(engine_of_version(lowercase(reply.stdout.as_str()).as_str()));
    engine_found(cfg, seeker, &engine)
}

/// How the run goes on after: is Podman running?
pub open spec fn after_podman_info_spec(
    cfg: Config,
    seeker: SeekerView,
    reply: ReplyView,
) -> ScriptView {
    let engine = if reply.ok {
        Some("podman"@)
    } else {
        None
    };
    engine_found_spec(cfg, seeker, engine)
}

/// How the run goes on after: is Podman running?
pub fn after_podman_info(cfg: &Config, seeker: &Seeker, reply: &Reply) -> (s: Script)
    ensures
        s@ == after_podman_info_spec(*cfg, seeker@, reply@),
{
    let engine = if reply.ok {
        Some("podman".to_owned())
    } else {
        None
    };
    engine_found(cfg, seeker, &engine)
}

/// How the run goes on after: is the engine that the operator named for the teardown running?
pub open spec fn after_named_engine_spec(
    cfg: Config,
    knobs: TeardownConfigView,
    engine: Seq<char>,
    reply: ReplyView,
) -> ScriptView {
    let found = if reply.ok {
        Some(engine)
    } else {
        None
    };
    if reply.ok {
        teardown_local_spec(cfg, knobs, found)
    } else {
        ScriptView::new()
            .report(
                ">>> WARNING: "@ + engine + " is unavailable; registry cleanup will be skipped"@,
            )
            .join(teardown_local_spec(cfg, knobs, found))
    }
}

/// How the run goes on after: is the engine that the operator named for the teardown running?
pub fn after_named_engine(
    cfg: &Config,
    knobs: &TeardownConfig,
    engine: &str,
    reply: &Reply,
) -> (s: Script)
    ensures
        s@ == after_named_engine_spec(*cfg, knobs@, engine@, reply@),
{
    let found = if reply.ok {
        Some(engine.to_owned())
    } else {
        None
    };
    if reply.ok {
        teardown_local(cfg, knobs, &found)
    } else {
        Script::new()
            .report(
                cat3(">>> WARNING: ", engine, " is unavailable; registry cleanup will be skipped"),
            )
            .join(teardown_local(cfg, knobs, &found))
    }
}

/// How the run goes on after: does the selected engine answer?
pub open spec fn after_reachable_spec(
    cfg: Config,
    github: Option<GithubContextView>,
    engine: Seq<char>,
    reply: ReplyView,
) -> ScriptView {
    if engine == "docker"@ {
        if reply.ok {
            engine_resolved_spec(cfg, github, engine, "/var/run/docker.sock"@)
        } else {
            ScriptView::new()
                .fail("Docker daemon not running"@)
        }
    } else if reply.ok {
        ScriptView::new()
            .perform(ActionView::SetVar("KIND_EXPERIMENTAL_PROVIDER"@, "podman"@), RuleView::Ignore)
            .join(
                if cfg.toolbox {
                    engine_resolved_spec(cfg, github, engine, "/run/podman/podman.sock"@)
                } else {
                    ScriptView::new()
                        .ask(
                            QuestionView::Engine(
                                EngineQuestionView::PodmanSocket { github, engine },
                            ),
                        )
                },
            )
    } else {
        ScriptView::new()
            .fail("Podman is not running (is 'podman machine' started?)"@)
    }
}

/// How the run goes on after: does the selected engine answer?
pub fn after_reachable(
    cfg: &Config,
    github: &Option<GithubContext>,
    engine: &str,
    reply: &Reply,
) -> (s: Script)
    ensures
        s@ == after_reachable_spec(*cfg, github_context_view(*github), engine@, reply@),
{
    if same(engine, "docker") {
        if reply.ok {
            engine_resolved(cfg, github, engine, "/var/run/docker.sock")
        } else {
            Script::new()
                .fail("Docker daemon not running".to_owned())
        }
    } else if reply.ok {
        Script::new()
            .perform(
                Action::SetVar("KIND_EXPERIMENTAL_PROVIDER".to_owned(), "podman".to_owned()),
                Rule::Ignore,
            )
            .join(
                if cfg.toolbox {
                    engine_resolved(cfg, github, engine, "/run/podman/podman.sock")
                } else {
                    Script::new()
                        .ask(
                            Question::Engine(
                                EngineQuestion::PodmanSocket {
                                    github: github_context_copy(github),
                                    engine: engine.to_owned(),
                                },
                            ),
                        )
                },
            )
    } else {
        Script::new()
            .fail("Podman is not running (is 'podman machine' started?)".to_owned())
    }
}

/// How the run goes on after: where is the socket of the Podman API?
pub open spec fn after_podman_socket_spec(
    cfg: Config,
    github: Option<GithubContextView>,
    engine: Seq<char>,
    reply: ReplyView,
) -> ScriptView {
    let sock = podman_socket_spec(reply.stdout);
    if is_nothing_spec(sock) {
        ScriptView::new()
            .report(
                ">>> WARNING: Could not detect the podman API socket path; assuming /run/podman/podman.sock"@,
            )
            .join(engine_resolved_spec(cfg, github, engine, "/run/podman/podman.sock"@))
    } else {
        engine_resolved_spec(cfg, github, engine, sock)
    }
}

/// How the run goes on after: where is the socket of the Podman API?
pub fn after_podman_socket(
    cfg: &Config,
    github: &Option<GithubContext>,
    engine: &str,
    reply: &Reply,
) -> (s: Script)
    ensures
        s@ == after_podman_socket_spec(*cfg, github_context_view(*github), engine@, reply@),
{
    let sock = podman_socket(reply.stdout.as_str());
    if is_nothing(sock.as_str()) {
        Script::new()
            .report(
                ">>> WARNING: Could not detect the podman API socket path; assuming /run/podman/podman.sock".to_owned(),
            )
            .join(engine_resolved(cfg, github, engine, "/run/podman/podman.sock"))
    } else {
        engine_resolved(cfg, github, engine, sock.as_str())
    }
}

/// How the run goes on after: which container is the toolbox?
pub open spec fn after_toolbox_id_spec(
    engine: Seq<char>,
    joining: bool,
    reply: ReplyView,
) -> ScriptView {
    let id = toolbox_container_id_spec(reply);
    if is_nothing_spec(id) {
        if joining {
            ScriptView::new()
                .fail(
                    "KROPS_TOOLBOX=1 but /etc/hostname is unreadable; cannot join the kind network"@,
                )
        } else {
            ScriptView::new()
        }
    } else if joining {
        join_network_spec(engine, "kind"@, id)
    } else {
        ScriptView::new()
            .perform(
                ActionView::Run(
                    command(engine).arg("network"@).arg("disconnect"@).arg("kind"@).arg(id),
                ),
                RuleView::Ignore,
            )
    }
}

/// How the run goes on after: which container is the toolbox?
pub fn after_toolbox_id(engine: &str, joining: bool, reply: &Reply) -> (s: Script)
    ensures
        s@ == after_toolbox_id_spec(engine@, joining, reply@),
{
    let id = toolbox_container_id(reply);
    if is_nothing(id.as_str()) {
        if joining {
            Script::new()
                .fail(
                    "KROPS_TOOLBOX=1 but /etc/hostname is unreadable; cannot join the kind network".to_owned(),
                )
        } else {
            Script::new()
        }
    } else if joining {
        join_network(engine, "kind", id.as_str())
    } else {
        Script::new()
            .perform(
                Action::Run(
                    Command::new(engine)
                        .arg("network").arg("disconnect").arg("kind").arg(id.as_str()),
                ),
                Rule::Ignore,
            )
    }
}

/// How the run goes on after: is the container attached to the network already?
pub open spec fn after_member_spec(
    engine: Seq<char>,
    network: Seq<char>,
    id: Seq<char>,
    reply: ReplyView,
) -> ScriptView {
    if contains_spec(reply.stdout, id) {
        ScriptView::new()
    } else {
        ScriptView::new()
            .ask(QuestionView::Engine(EngineQuestionView::Connect { engine, network, id }))
    }
}

/// How the run goes on after: is the container attached to the network already?
pub fn after_member(engine: &str, network: &str, id: &str, reply: &Reply) -> (s: Script)
    ensures
        s@ == after_member_spec(engine@, network@, id@, reply@),
{
    if contains(reply.stdout.as_str(), id) {
        Script::new()
    } else {
        Script::new()
            .ask(
                Question::Engine(
                    EngineQuestion::Connect {
                        engine: engine.to_owned(),
                        network: network.to_owned(),
                        id: id.to_owned(),
                    },
                ),
            )
    }
}

/// How the run goes on after: could the container be attached to the network?
pub open spec fn after_connect_spec(
    engine: Seq<char>,
    network: Seq<char>,
    id: Seq<char>,
    reply: ReplyView,
) -> ScriptView {
    if !reply.spawned {
        ScriptView::new()
            .fail_with(
                FailureView::because("failed to spawn '"@ + engine + "'"@, reply.stderr),
            )
    } else if reply.ok {
        ScriptView::new()
    } else {
        ScriptView::new()
            .ask(
                QuestionView::Engine(
                    EngineQuestionView::MemberAfter {
                        engine,
                        network,
                        id,
                        status: reply.status,
                        stderr: reply.stderr,
                    },
                ),
            )
    }
}

/// How the run goes on after: could the container be attached to the network?
pub fn after_connect(engine: &str, network: &str, id: &str, reply: &Reply) -> (s: Script)
    ensures
        s@ == after_connect_spec(engine@, network@, id@, reply@),
{
    if !reply.spawned {
        Script::new()
            .fail_with(
                Failure::because(cat3("failed to spawn '", engine, "'"), reply.stderr.as_str()),
            )
    } else if reply.ok {
        Script::new()
    } else {
        Script::new()
            .ask(
                Question::Engine(
                    EngineQuestion::MemberAfter {
                        engine: engine.to_owned(),
                        network: network.to_owned(),
                        id: id.to_owned(),
                        status: reply.status.clone(),
                        stderr: reply.stderr.clone(),
                    },
                ),
            )
    }
}

/// How the run goes on after: is the container attached to the network after the attempt failed?
pub open spec fn after_member_after_spec(
    engine: Seq<char>,
    network: Seq<char>,
    id: Seq<char>,
    status: Seq<char>,
    stderr: Seq<char>,
    reply: ReplyView,
) -> ScriptView {
    let why = trim_end_spec(stderr);
    if contains_spec(reply.stdout, id) {
        ScriptView::new()
    } else {
        ScriptView::new()
            .fail(
                "'"@ + engine + " network connect "@ + network + " "@ + id + "' failed with "@
                    + status + ":\n"@ + why,
            )
    }
}

/// How the run goes on after: is the container attached to the network after the attempt failed?
pub fn after_member_after(
    engine: &str,
    network: &str,
    id: &str,
    status: &str,
    stderr: &str,
    reply: &Reply,
) -> (s: Script)
    ensures
        s@ == after_member_after_spec(engine@, network@, id@, status@, stderr@, reply@),
{
    let why = trim_end(stderr);
    if contains(reply.stdout.as_str(), id) {
        Script::new()
    } else {
        Script::new()
            .fail(
                cat7(
                    cat4("'", engine, " network connect ", network).as_str(),
                    " ",
                    id,
                    "' failed with ",
                    status,
                    ":\n",
                    why.as_str(),
                ),
            )
    }
}

/// How the run goes on after: what is the internal kubeconfig of the kind cluster?
pub open spec fn after_kind_kubeconfig_spec(
    cfg: Config,
    path: Seq<char>,
    reply: ReplyView,
) -> ScriptView {
    if reply.ok {
        ScriptView::new()
            .perform(
                ActionView::MakeParent(path),
                RuleView::ExpectAt("failed to create "@),
            )
            .perform(
                ActionView::WriteFile(path, reply.stdout),
                RuleView::Expect("failed to write "@ + path),
            )
            .perform(ActionView::Restrict(path), RuleView::Expect("failed to chmod 600 "@ + path))
    } else {
        ScriptView::new()
            .fail_with(failure_spec(kind_kubeconfig_spec(cfg), reply))
    }
}

/// How the run goes on after: what is the internal kubeconfig of the kind cluster?
pub fn after_kind_kubeconfig(cfg: &Config, path: &str, reply: &Reply) -> (s: Script)
    ensures
        s@ == after_kind_kubeconfig_spec(*cfg, path@, reply@),
{
    if reply.ok {
        Script::new()
            .perform(
                Action::MakeParent(path.to_owned()),
                Rule::ExpectAt("failed to create ".to_owned()),
            )
            .perform(
                Action::WriteFile(path.to_owned(), reply.stdout.clone()),
                Rule::Expect(cat2("failed to write ", path)),
            )
            .perform(
                Action::Restrict(path.to_owned()),
                Rule::Expect(cat2("failed to chmod 600 ", path)),
            )
    } else {
        Script::new()
            .fail_with(failure(&kind_kubeconfig(cfg), reply))
    }
}

/// How the run goes on once a question is answered.
pub open spec fn answer_spec(
    cfg: Config,
    question: EngineQuestionView,
    reply: ReplyView,
) -> ScriptView {
    match question {
        EngineQuestionView::DockerInfo { seeker } => after_docker_info_spec(seeker, reply),
        EngineQuestionView::DockerVersion { seeker } => after_docker_version_spec(
            cfg,
            seeker,
            reply,
        ),
        EngineQuestionView::PodmanInfo { seeker } => after_podman_info_spec(cfg, seeker, reply),
        EngineQuestionView::NamedEngine { knobs, engine } => {
            after_named_engine_spec(cfg, knobs, engine, reply)
        },
        EngineQuestionView::Reachable { github, engine } => after_reachable_spec(
            cfg,
            github,
            engine,
            reply,
        ),
        EngineQuestionView::PodmanSocket { github, engine } => {
            after_podman_socket_spec(cfg, github, engine, reply)
        },
        EngineQuestionView::ToolboxId { engine, joining } => {
            after_toolbox_id_spec(engine, joining, reply)
        },
        EngineQuestionView::Member { engine, network, id } => {
            after_member_spec(engine, network, id, reply)
        },
        EngineQuestionView::Connect { engine, network, id } => {
            after_connect_spec(engine, network, id, reply)
        },
        EngineQuestionView::MemberAfter { engine, network, id, status, stderr } => {
            after_member_after_spec(engine, network, id, status, stderr, reply)
        },
        EngineQuestionView::KindKubeconfig { path } => after_kind_kubeconfig_spec(cfg, path, reply),
    }
}

/// How the run goes on once a question is answered.
pub fn answer(cfg: &Config, question: &EngineQuestion, reply: &Reply) -> (s: Script)
    ensures
        s@ == answer_spec(*cfg, question@, reply@),
{
    match question {
        EngineQuestion::DockerInfo { seeker } => after_docker_info(seeker, reply),
        EngineQuestion::DockerVersion { seeker } => after_docker_version(cfg, seeker, reply),
        EngineQuestion::PodmanInfo { seeker } => after_podman_info(cfg, seeker, reply),
        EngineQuestion::NamedEngine { knobs, engine } => after_named_engine(
            cfg,
            knobs,
            engine.as_str(),
            reply,
        ),
        EngineQuestion::Reachable { github, engine } => after_reachable(
            cfg,
            github,
            engine.as_str(),
            reply,
        ),
        EngineQuestion::PodmanSocket { github, engine } => after_podman_socket(
            cfg,
            github,
            engine.as_str(),
            reply,
        ),
        EngineQuestion::ToolboxId { engine, joining } => after_toolbox_id(
            engine.as_str(),
            *joining,
            reply,
        ),
        EngineQuestion::Member { engine, network, id } => after_member(
            engine.as_str(),
            network.as_str(),
            id.as_str(),
            reply,
        ),
        EngineQuestion::Connect { engine, network, id } => after_connect(
            engine.as_str(),
            network.as_str(),
            id.as_str(),
            reply,
        ),
        EngineQuestion::MemberAfter { engine, network, id, status, stderr } => {
            after_member_after(
                engine.as_str(),
                network.as_str(),
                id.as_str(),
                status.as_str(),
                stderr.as_str(),
                reply,
            )
        },
        EngineQuestion::KindKubeconfig { path } => after_kind_kubeconfig(cfg, path.as_str(), reply),
    }
}

/// Checks the engine that was found or named.
pub open spec fn select_engine_spec(
    github: Option<GithubContextView>,
    engine: Seq<char>,
) -> ScriptView {
    if engine == "docker"@ || engine == "podman"@ {
        ScriptView::new()
            .ask(QuestionView::Engine(EngineQuestionView::Reachable { github, engine }))
    } else {
        ScriptView::new()
            .fail("Unsupported CONTAINER_ENGINE '"@ + engine + "' (expected 'docker' or 'podman')"@)
    }
}

/// Checks the engine that was found or named.
pub fn select_engine(github: &Option<GithubContext>, engine: &str) -> (s: Script)
    ensures
        s@ == select_engine_spec(github_context_view(*github), engine@),
{
    if same(engine, "docker") || same(engine, "podman") {
        Script::new()
            .ask(
                Question::Engine(
                    EngineQuestion::Reachable {
                        github: github_context_copy(github),
                        engine: engine.to_owned(),
                    },
                ),
            )
    } else {
        Script::new()
            .fail(
                cat3("Unsupported CONTAINER_ENGINE '", engine, "' (expected 'docker' or 'podman')"),
            )
    }
}

/// Finds the engine and its socket for a bootstrap. An engine that the operator names is not looked
/// for.
pub open spec fn resolve_engine_spec(cfg: Config, github: Option<GithubContextView>) -> ScriptView {
    match cfg.container_engine {
        Some(engine) => {
            select_engine_spec(github, engine@)
        },
        None => {
            ScriptView::new()
                .ask(
                    QuestionView::Engine(
                        EngineQuestionView::DockerInfo { seeker: SeekerView::Preflight { github } },
                    ),
                )
        },
    }
}

/// Finds the engine and its socket for a bootstrap. An engine that the operator names is not looked
/// for.
pub fn resolve_engine(cfg: &Config, github: &Option<GithubContext>) -> (s: Script)
    ensures
        s@ == resolve_engine_spec(*cfg, github_context_view(*github)),
{
    match &cfg.container_engine {
        Some(engine) => {
            select_engine(github, engine.as_str())
        },
        None => {
            Script::new()
                .ask(
                    Question::Engine(
                        EngineQuestion::DockerInfo {
                            seeker: Seeker::Preflight { github: github_context_copy(github) },
                        },
                    ),
                )
        },
    }
}

/// Finds the engine for a teardown of the local environment, which goes on without one too.
pub open spec fn detect_engine_spec(cfg: Config, knobs: TeardownConfigView) -> ScriptView {
    if named_engine_spec(cfg) {
        ScriptView::new()
            .ask(
                QuestionView::Engine(
                    EngineQuestionView::NamedEngine { knobs, engine: operator_engine_spec(cfg) },
                ),
            )
    } else {
        ScriptView::new()
            .ask(
                QuestionView::Engine(
                    EngineQuestionView::DockerInfo { seeker: SeekerView::Teardown { knobs } },
                ),
            )
    }
}

/// Finds the engine for a teardown of the local environment, which goes on without one too.
pub fn detect_engine(cfg: &Config, knobs: &TeardownConfig) -> (s: Script)
    ensures
        s@ == detect_engine_spec(*cfg, knobs@),
{
    if named_engine(cfg) {
        Script::new()
            .ask(
                Question::Engine(
                    EngineQuestion::NamedEngine {
                        knobs: knobs.copy(),
                        engine: operator_engine(cfg),
                    },
                ),
            )
    } else {
        Script::new()
            .ask(
                Question::Engine(
                    EngineQuestion::DockerInfo { seeker: Seeker::Teardown { knobs: knobs.copy() } },
                ),
            )
    }
}

/// The engine that the operator named, or an empty text.
pub open spec fn operator_engine_spec(cfg: Config) -> Seq<char> {
    match cfg.container_engine {
        Some(engine) => engine@,
        None => ""@,
    }
}

/// The engine that the operator named, or an empty text.
pub fn operator_engine(cfg: &Config) -> (r: String)
    ensures
        r@ == operator_engine_spec(*cfg),
{
    match &cfg.container_engine {
        Some(engine) => engine.clone(),
        None => "".to_owned(),
    }
}

/// Whether the operator named an engine.
pub open spec fn named_engine_spec(cfg: Config) -> bool {
    !is_nothing_spec(operator_engine_spec(cfg))
}

/// Whether the operator named an engine.
pub fn named_engine(cfg: &Config) -> (r: bool)
    ensures
        r == named_engine_spec(*cfg),
{
    !is_nothing(operator_engine(cfg).as_str())
}

/// Attaches a container to a network. A container that is attached already is left alone.
pub open spec fn join_network_spec(
    engine: Seq<char>,
    network: Seq<char>,
    id: Seq<char>,
) -> ScriptView {
    ScriptView::new()
        .ask(QuestionView::Engine(EngineQuestionView::Member { engine, network, id }))
}

/// Attaches a container to a network. A container that is attached already is left alone.
pub fn join_network(engine: &str, network: &str, id: &str) -> (s: Script)
    ensures
        s@ == join_network_spec(engine@, network@, id@),
{
    Script::new()
        .ask(
            Question::Engine(
                EngineQuestion::Member {
                    engine: engine.to_owned(),
                    network: network.to_owned(),
                    id: id.to_owned(),
                },
            ),
        )
}

/// Attaches the toolbox to the kind network, on which the API server and the registry go by name.
/// Outside the toolbox nothing is done.
pub open spec fn toolbox_join_kind_network_spec(cfg: Config, engine: Seq<char>) -> ScriptView {
    if cfg.toolbox {
        ScriptView::new()
            .ask(QuestionView::Engine(EngineQuestionView::ToolboxId { engine, joining: true }))
    } else {
        ScriptView::new()
    }
}

/// Attaches the toolbox to the kind network, on which the API server and the registry go by name.
/// Outside the toolbox nothing is done.
pub fn toolbox_join_kind_network(cfg: &Config, engine: &str) -> (s: Script)
    ensures
        s@ == toolbox_join_kind_network_spec(*cfg, engine@),
{
    if cfg.toolbox {
        Script::new()
            .ask(
                Question::Engine(
                    EngineQuestion::ToolboxId { engine: engine.to_owned(), joining: true },
                ),
            )
    } else {
        Script::new()
    }
}

/// Detaches the toolbox from the kind network, which would outlive its cluster otherwise. Outside
/// the toolbox nothing is done.
pub open spec fn toolbox_leave_kind_network_spec(cfg: Config, engine: Seq<char>) -> ScriptView {
    if cfg.toolbox {
        ScriptView::new()
            .ask(QuestionView::Engine(EngineQuestionView::ToolboxId { engine, joining: false }))
    } else {
        ScriptView::new()
    }
}

/// Detaches the toolbox from the kind network, which would outlive its cluster otherwise. Outside
/// the toolbox nothing is done.
pub fn toolbox_leave_kind_network(cfg: &Config, engine: &str) -> (s: Script)
    ensures
        s@ == toolbox_leave_kind_network_spec(*cfg, engine@),
{
    if cfg.toolbox {
        Script::new()
            .ask(
                Question::Engine(
                    EngineQuestion::ToolboxId { engine: engine.to_owned(), joining: false },
                ),
            )
    } else {
        Script::new()
    }
}

/// Puts the internal kubeconfig of the kind cluster into the file that `KUBECONFIG` names. Outside
/// the toolbox nothing is done.
pub open spec fn select_toolbox_kind_kubeconfig_spec(cfg: Config) -> ScriptView {
    match toolbox_kubeconfig_path_spec(cfg.toolbox, optional(cfg.kubeconfig)) {
        Ok(path) => {
            match path {
                Some(file) => {
                    ScriptView::new()
                        .ask(
                            QuestionView::Engine(EngineQuestionView::KindKubeconfig { path: file }),
                        )
                },
                None => {
                    ScriptView::new()
                },
            }
        },
        Err(message) => {
            ScriptView::new().fail(message)
        },
    }
}

/// Puts the internal kubeconfig of the kind cluster into the file that `KUBECONFIG` names. Outside
/// the toolbox nothing is done.
pub fn select_toolbox_kind_kubeconfig(cfg: &Config) -> (s: Script)
    ensures
        s@ == select_toolbox_kind_kubeconfig_spec(*cfg),
{
    match toolbox_path(cfg) {
        Ok(path) => {
            match path {
                Some(file) => {
                    Script::new()
                        .ask(
                            Question::Engine(EngineQuestion::KindKubeconfig { path: file.clone() }),
                        )
                },
                None => {
                    Script::new()
                },
            }
        },
        Err(message) => {
            Script::new().fail(message)
        },
    }
}

/// The file that `KUBECONFIG` must name inside the toolbox.
fn toolbox_path(cfg: &Config) -> (r: Result<Option<String>, String>)
    ensures
        match toolbox_kubeconfig_path_spec(cfg.toolbox, optional(cfg.kubeconfig)) {
            Ok(path) => r is Ok && optional(r->Ok_0) == path,
            Err(message) => r is Err && r->Err_0@ == message,
        },
{
    toolbox_kubeconfig_path(
        cfg.toolbox,
        match &cfg.kubeconfig {
            Some(path) => Some(path.as_str()),
            None => None,
        },
    )
}

} // verus!
