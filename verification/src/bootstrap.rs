//! The bootstrap: the kind cluster, the local registry, Flux, and the watch of the first
//! reconciliation.
use vstd::prelude::*;

use crate::json;
use crate::checks::{
    capd_recorded_endpoint, capd_recorded_endpoint_spec, extract_workload_port,
    extract_workload_port_spec, render_kind_config, render_kind_config_spec,
};
use crate::commands::{kubectl_cmd, kubectl_cmd_spec};
use crate::config::SyncSource;
use crate::context::{
    GithubContext, GithubContextView, Preflight, PreflightView, github_context_view, preflight_copy,
    preflight_view,
};
use crate::engine::{
    network_engine, network_engine_spec, select_toolbox_kind_kubeconfig,
    select_toolbox_kind_kubeconfig_spec, toolbox_join_kind_network, toolbox_join_kind_network_spec,
    toolbox_leave_kind_network, toolbox_leave_kind_network_spec,
};
use crate::json::{JsonTree, json_document, json_text, json_tree, textual};
use crate::number::{decimal, decimal_spec, parse_unsigned, parse_unsigned_spec};
use crate::pivot::{run_pivot, run_pivot_spec};
use crate::preflight::{preflight_checks, preflight_checks_spec};
use crate::question::{Question, QuestionView};
use crate::script::{
    command, failure, failure_spec, file_failure, file_failure_spec, request, Action, ActionView,
    Command, CommandView, Reply, ReplyView, Request, Rule, RuleView, Script, ScriptView,
};
use crate::settings::{Config, runs_github_preflight};
use crate::text::{
    cat2, cat3, cat4, cat5, cat6, cat7, contains, contains_spec, copy_optional, has_line,
    has_line_spec, optional,
};

verus! {

/// Whether the published port of the registry is the configured one.
pub open spec fn port_matches_spec(cfg: Config, printed: Seq<char>) -> bool {
    match extract_workload_port_spec(printed) {
        Some(port) => parse_unsigned_spec(port, u16::MAX as int) == Some(cfg.registry_port as int),
        None => false,
    }
}

/// Whether the published port of the registry is the configured one.
pub fn port_matches(cfg: &Config, printed: &str) -> (r: bool)
    ensures
        r == port_matches_spec(*cfg, printed@),
{
    match extract_workload_port(printed) {
        Some(port) => match parse_unsigned(port.as_str(), u16::MAX as u64) {
            Some(port) => port == cfg.registry_port as u64,
            None => false,
        },
        None => false,
    }
}

/// The HTTP statuses that are worth another attempt.
pub open spec fn is_transient_spec(status: u16) -> bool {
    status == 408 || status == 429 || status == 500 || status == 502 || status == 503 || status
        == 504
}

/// Whether an HTTP status is worth another attempt.
pub fn is_transient(status: u16) -> (r: bool)
    ensures
        r == is_transient_spec(status),
{
    status == 408 || status == 429 || status == 500 || status == 502 || status == 503 || status
        == 504
}

/// The URL at which the local registry answers when it is ready.
pub open spec fn registry_url_spec(cfg: Config) -> Seq<char> {
    "http://"@ + cfg.registry_endpoint_spec().0 + ":"@ + decimal_spec(
        cfg.registry_endpoint_spec().1,
    ) + "/v2/"@
}

/// The URL at which the local registry answers when it is ready.
pub fn registry_url(cfg: &Config) -> (r: String)
    ensures
        r@ == registry_url_spec(*cfg),
{
    let (host, port) = cfg.registry_endpoint();
    cat5("http://", host.as_str(), ":", decimal(port as u64).as_str(), "/v2/")
}

/// The host of the local registry, as this process names it.
pub fn registry_host(cfg: &Config) -> (r: String)
    ensures
        r@ == cfg.registry_endpoint_spec().0,
{
    cfg.registry_endpoint().0
}

/// The port of the local registry, as this process reaches it.
pub fn registry_port_text(cfg: &Config) -> (r: String)
    ensures
        r@ == decimal_spec(cfg.registry_endpoint_spec().1),
{
    decimal(cfg.registry_endpoint().1 as u64)
}

/// The task that publishes the checkout as OCI artifact, with the resolved endpoint and name.
pub open spec fn oci_push_spec(cfg: Config) -> CommandView {
    command("mise"@).arg("-E"@).arg(cfg.profile@).arg("run"@).arg("oci-push"@).var(
        "REGISTRY_PORT"@,
        decimal_spec(cfg.registry_endpoint_spec().1),
    ).var("REGISTRY_HOST"@, cfg.registry_endpoint_spec().0).var(
        "OCI_REPOSITORY"@,
        cfg.oci_repository@,
    ).var("OCI_TAG"@, cfg.oci_tag@)
}

/// The task that publishes the checkout as OCI artifact, with the resolved endpoint and name.
pub fn oci_push(cfg: &Config) -> (c: Command)
    ensures
        c@ == oci_push_spec(*cfg),
{
    Command::new("mise").arg("-E").arg(cfg.profile.as_str()).arg("run").arg("oci-push").var(
        "REGISTRY_PORT",
        registry_port_text(cfg).as_str(),
    ).var("REGISTRY_HOST", registry_host(cfg).as_str()).var(
        "OCI_REPOSITORY",
        cfg.oci_repository.as_str(),
    ).var("OCI_TAG", cfg.oci_tag.as_str())
}

/// The ConfigMap that tells the cluster about the local registry.
pub open spec fn registry_manifest_spec(registry_name: Seq<char>) -> JsonTree {
    JsonTree::object().with("apiVersion"@, JsonTree::Text("v1"@)).with(
        "kind"@,
        JsonTree::Text("ConfigMap"@),
    ).with(
        "metadata"@,
        JsonTree::object().with("name"@, JsonTree::Text("local-registry-config"@)).with(
            "namespace"@,
            JsonTree::Text("kube-system"@),
        ),
    ).with(
        "data"@,
        JsonTree::object().with("registry-url"@, JsonTree::Text(registry_name + ":5000"@)),
    )
}

/// The ConfigMap that tells the cluster about the local registry.
pub fn registry_manifest(registry_name: &str) -> (r: serde_json::Value)
    ensures
        json_tree(r) == registry_manifest_spec(registry_name@),
{
    let metadata = json::with(
        json::with(json::object(), "name", json::string("local-registry-config")),
        "namespace",
        json::string("kube-system"),
    );
    let data = json::with(
        json::object(),
        "registry-url",
        json::string(cat2(registry_name, ":5000").as_str()),
    );
    let manifest = json::with(
        json::with(json::object(), "apiVersion", json::string("v1")),
        "kind",
        json::string("ConfigMap"),
    );
    json::with(json::with(manifest, "metadata", metadata), "data", data)
}

/// An Opaque Secret with the given members.
pub open spec fn secret_manifest_spec(
    name: Seq<char>,
    namespace: Seq<char>,
    data: JsonTree,
) -> JsonTree {
    JsonTree::object().with("apiVersion"@, JsonTree::Text("v1"@)).with(
        "kind"@,
        JsonTree::Text("Secret"@),
    ).with(
        "metadata"@,
        JsonTree::object().with("name"@, JsonTree::Text(name)).with(
            "namespace"@,
            JsonTree::Text(namespace),
        ),
    ).with("type"@, JsonTree::Text("Opaque"@)).with("stringData"@, data)
}

/// An Opaque Secret with the given members.
pub fn secret_manifest(name: &str, namespace: &str, data: serde_json::Value) -> (r:
    serde_json::Value)
    ensures
        json_tree(r) == secret_manifest_spec(name@, namespace@, json_tree(data)),
{
    let metadata = json::with(
        json::with(json::object(), "name", json::string(name)),
        "namespace",
        json::string(namespace),
    );
    let manifest = json::with(
        json::with(json::object(), "apiVersion", json::string("v1")),
        "kind",
        json::string("Secret"),
    );
    json::with(
        json::with(
            json::with(manifest, "metadata", metadata),
            "type",
            json::string("Opaque"),
        ),
        "stringData",
        data,
    )
}

/// A Secret is made of texts where its members are.
pub proof fn lemma_secret_is_textual(name: Seq<char>, namespace: Seq<char>, data: JsonTree)
    requires
        data is Fields,
        textual(data, 7),
    ensures
        textual(secret_manifest_spec(name, namespace, data), 8),
{
    let metadata = JsonTree::object().with("name"@, JsonTree::Text(name)).with(
        "namespace"@,
        JsonTree::Text(namespace),
    );
    assert(textual(metadata, 7)) by {
        assert(textual(JsonTree::Text(name), 6));
        assert(textual(JsonTree::Text(namespace), 6));
    }
    assert(textual(JsonTree::Text("v1"@), 7));
    assert(textual(JsonTree::Text("Secret"@), 7));
    assert(textual(JsonTree::Text("Opaque"@), 7));
}

/// The basic-auth Secret with which Flux clones the repository.
pub open spec fn pat_secret_spec(cfg: Config, github: GithubContextView) -> JsonTree {
    secret_manifest_spec(
        cfg.repo.bootstrap.github_pat_secret@,
        cfg.repo.bootstrap.flux_namespace@,
        JsonTree::object().with("username"@, JsonTree::Text(github.github_user)).with(
            "password"@,
            JsonTree::Text(github.github_token),
        ),
    )
}

/// The basic-auth Secret with which Flux clones the repository.
pub fn pat_secret(cfg: &Config, github: &GithubContext) -> (r: serde_json::Value)
    ensures
        json_tree(r) == pat_secret_spec(*cfg, github@),
{
    secret_manifest(
        cfg.repo.bootstrap.github_pat_secret.as_str(),
        cfg.repo.bootstrap.flux_namespace.as_str(),
        json::with(
            json::with(json::object(), "username", json::string(github.github_user.as_str())),
            "password",
            json::string(github.github_token.as_str()),
        ),
    )
}

/// The Secret with which Flux decrypts manifests. Its key is named after the public key.
pub open spec fn age_secret_spec(cfg: Config, github: GithubContextView) -> JsonTree {
    secret_manifest_spec(
        cfg.repo.bootstrap.sops_age_secret@,
        cfg.repo.bootstrap.flux_namespace@,
        JsonTree::object().with(
            "keys."@ + github.age_pubkey + ".agekey"@,
            JsonTree::Text(github.age_key_content),
        ),
    )
}

/// The Secret with which Flux decrypts manifests. Its key is named after the public key.
pub fn age_secret(cfg: &Config, github: &GithubContext) -> (r: serde_json::Value)
    ensures
        json_tree(r) == age_secret_spec(*cfg, github@),
{
    secret_manifest(
        cfg.repo.bootstrap.sops_age_secret.as_str(),
        cfg.repo.bootstrap.flux_namespace.as_str(),
        json::with(
            json::object(),
            cat3("keys.", github.age_pubkey.as_str(), ".agekey").as_str(),
            json::string(github.age_key_content.as_str()),
        ),
    )
}

/// The two Secrets of an environment that syncs from GitHub; none of another.
pub open spec fn create_secrets_spec(
    cfg: Config,
    github: Option<GithubContextView>,
    kubeconfig: Option<Seq<char>>,
) -> ScriptView {
    match github {
        Some(github) => create_github_secrets_spec(cfg, github, kubeconfig),
        None => ScriptView::new(),
    }
}

/// The two Secrets of an environment that syncs from GitHub; none of another.
pub fn create_secrets(
    cfg: &Config,
    github: &Option<GithubContext>,
    kubeconfig: &Option<String>,
) -> (s: Script)
    ensures
        s@ == create_secrets_spec(*cfg, github_context_view(*github), optional(*kubeconfig)),
{
    match github {
        Some(github) => create_github_secrets(cfg, github, kubeconfig),
        None => Script::new(),
    }
}

/// How a bootstrap goes on once its FluxInstance is installed; a pivot has nothing to resume.
pub open spec fn resume_bootstrap_spec(
    cfg: Config,
    resume: Option<PreflightView>,
    controllers_ready: bool,
) -> ScriptView {
    match resume {
        Some(preflight) => finish_bootstrap_spec(cfg, preflight, controllers_ready),
        None => ScriptView::new(),
    }
}

/// How a bootstrap goes on once its FluxInstance is installed; a pivot has nothing to resume.
pub fn resume_bootstrap(
    cfg: &Config,
    resume: &Option<Preflight>,
    controllers_ready: bool,
) -> (s: Script)
    ensures
        s@ == resume_bootstrap_spec(*cfg, preflight_view(*resume), controllers_ready),
{
    match resume {
        Some(preflight) => finish_bootstrap(cfg, preflight, controllers_ready),
        None => Script::new(),
    }
}

/// The URL from which an environment that syncs from GitHub reconciles.
pub open spec fn source_url(github: Option<GithubContextView>) -> Seq<char> {
    match github {
        Some(github) => github.git_repo_url,
        None => ""@,
    }
}

fn source_url_of(github: &Option<GithubContext>) -> (r: String)
    ensures
        r@ == source_url(github_context_view(*github)),
{
    match github {
        Some(github) => github.git_repo_url.clone(),
        None => "".to_owned(),
    }
}

/// helm, installing the FluxInstance, up to the source that it syncs from.
pub open spec fn flux_instance_base(
    cfg: Config,
    version: Seq<char>,
    registry_config: Seq<char>,
    kubeconfig: Option<Seq<char>>,
) -> CommandView {
    let c = command("helm"@).arg("upgrade"@).arg("--install"@).arg("flux"@).arg(
        "oci://ghcr.io/controlplaneio-fluxcd/charts/flux-instance"@,
    ).arg("--version"@).arg(version).arg("--namespace"@).arg(
        cfg.repo.bootstrap.flux_namespace@,
    ).arg("--wait=legacy"@).arg("--timeout"@).arg("10m"@).arg("--set"@).arg(
        "instance.cluster.type=kubernetes"@,
    ).arg("--set"@).arg("instance.cluster.size=small"@).arg("--set"@).arg(
        "instance.cluster.multitenant=false"@,
    ).arg("--set"@).arg("instance.cluster.networkPolicy=true"@).arg("--set"@).arg(
        "instance.cluster.domain=cluster.local"@,
    ).arg("--registry-config"@).arg(registry_config);
    match kubeconfig {
        Some(path) => c.arg("--kubeconfig"@).arg(path),
        None => c,
    }
}

/// helm, installing the FluxInstance that syncs from GitHub, or from the local registry.
pub open spec fn flux_instance_command_spec(
    cfg: Config,
    github: Option<GithubContextView>,
    version: Seq<char>,
    registry_config: Seq<char>,
    kubeconfig: Option<Seq<char>>,
) -> CommandView {
    let c = flux_instance_base(cfg, version, registry_config, kubeconfig);
    match github {
        Some(github) => c.arg("--set"@).arg("instance.sync.kind=GitRepository"@).arg("--set"@).arg(
            "instance.sync.url="@ + github.git_repo_url,
        ).arg("--set"@).arg(
            "instance.sync.ref=refs/heads/"@ + cfg.repo.bootstrap.git_branch@,
        ).arg("--set"@).arg("instance.sync.path="@ + cfg.environment.sync_path@).arg("--set"@).arg(
            "instance.sync.pullSecret="@ + cfg.repo.bootstrap.github_pat_secret@,
        ),
        None => c.arg("--set"@).arg("instance.sync.kind=OCIRepository"@).arg("--set"@).arg(
            "instance.sync.url=oci://"@ + cfg.repo.bootstrap.registry_name@ + ":5000/"@
                + cfg.oci_repository@,
        ).arg("--set"@).arg("instance.sync.ref="@ + cfg.oci_tag@).arg("--set"@).arg(
            "instance.sync.path="@ + cfg.environment.sync_path@,
        ).arg("--set-json"@).arg(
            "instance.kustomize.patches=[{\"patch\":\"- op: add\\n  path: /spec/insecure\\n  value: true\",\"target\":{\"kind\":\"OCIRepository\"}}]"@,
        ),
    }
}

/// helm, installing the FluxInstance that syncs from GitHub, or from the local registry.
pub fn flux_instance_command(
    cfg: &Config,
    github: &Option<GithubContext>,
    version: &str,
    registry_config: &str,
    kubeconfig: &Option<String>,
) -> (c: Command)
    ensures
        c@ == flux_instance_command_spec(
            *cfg,
            github_context_view(*github),
            version@,
            registry_config@,
            optional(*kubeconfig),
        ),
{
    let base = Command::new("helm").arg("upgrade").arg("--install").arg("flux").arg(
        "oci://ghcr.io/controlplaneio-fluxcd/charts/flux-instance",
    ).arg("--version").arg(version).arg("--namespace").arg(
        cfg.repo.bootstrap.flux_namespace.as_str(),
    ).arg("--wait=legacy").arg("--timeout").arg("10m").arg("--set").arg(
        "instance.cluster.type=kubernetes",
    ).arg("--set").arg("instance.cluster.size=small").arg("--set").arg(
        "instance.cluster.multitenant=false",
    ).arg("--set").arg("instance.cluster.networkPolicy=true").arg("--set").arg(
        "instance.cluster.domain=cluster.local",
    ).arg("--registry-config").arg(registry_config);
    let c = match kubeconfig {
        Some(path) => base.arg("--kubeconfig").arg(path.as_str()),
        None => base,
    };
    let sync_path = cat2("instance.sync.path=", cfg.environment.sync_path.as_str());
    match github {
        Some(github) => {
            let url = cat2("instance.sync.url=", github.git_repo_url.as_str());
            let branch = cat2(
                "instance.sync.ref=refs/heads/",
                cfg.repo.bootstrap.git_branch.as_str(),
            );
            let secret = cat2(
                "instance.sync.pullSecret=",
                cfg.repo.bootstrap.github_pat_secret.as_str(),
            );
            c.arg("--set").arg("instance.sync.kind=GitRepository").arg("--set").arg(
                url.as_str(),
            ).arg("--set").arg(branch.as_str()).arg("--set").arg(sync_path.as_str()).arg(
                "--set",
            ).arg(secret.as_str())
        },
        None => {
            let url = cat4(
                "instance.sync.url=oci://",
                cfg.repo.bootstrap.registry_name.as_str(),
                ":5000/",
                cfg.oci_repository.as_str(),
            );
            let tag = cat2("instance.sync.ref=", cfg.oci_tag.as_str());
            c.arg("--set").arg("instance.sync.kind=OCIRepository").arg("--set").arg(
                url.as_str(),
            ).arg("--set").arg(tag.as_str()).arg("--set").arg(sync_path.as_str()).arg(
                "--set-json",
            ).arg(
                "instance.kustomize.patches=[{\"patch\":\"- op: add\\n  path: /spec/insecure\\n  value: true\",\"target\":{\"kind\":\"OCIRepository\"}}]",
            )
        },
    }
}

/// The questions of this module.
pub enum BootstrapQuestion {
    /// Which kind clusters are there?
    KindClusters { engine_sock: String },
    /// Does the kubeconfig have the context of the existing cluster?
    KindContext,
    /// Could the kubeconfig of the existing cluster be exported?
    KindExport,
    /// Can the context of the existing cluster be selected?
    KindHealthContext,
    /// Are the nodes of the existing cluster ready?
    KindHealthNodes,
    /// Is there a container with the name of the registry?
    RegistryListed { engine: String },
    /// At which port is the registry published?
    RegistryPort { engine: String },
    /// To which networks is the registry attached?
    RegistryNetwork { engine: String, port_matches: bool },
    /// Is the container of the registry running?
    RegistryRunning { engine: String },
    /// Does the API of the registry answer at this attempt?
    RegistryProbe { attempt: u32 },
    /// Where is the anonymous registry configuration for helm?
    RegistryConfig { preflight: Preflight },
    /// Are the Flux controllers ready?
    ControllersReady { kubeconfig: Option<String>, resume: Option<Preflight> },
    /// Has Flux created the final Kustomization, with this many attempts left?
    FluxAppsCreated { left: u32 },
    /// Did the local reconciliation complete?
    FluxAppsReady,
    /// Where is the temporary kubeconfig of the workload cluster?
    WorkloadFile { engine: String },
    /// What is the kubeconfig of the workload cluster?
    WorkloadKubeconfig { engine: String, path: String },
    /// At which port is the API server of the workload cluster published?
    WorkloadPort { engine: String, path: String },
    /// Does the workload cluster have its Flux Kustomization, with this many attempts left?
    WorkloadFluxCreated { path: String, left: u32 },
    /// Did the reconciliation of the workload cluster complete?
    WorkloadReady { path: String },
}

/// The model of a question of this module.
pub enum BootstrapQuestionView {
    KindClusters { engine_sock: Seq<char> },
    KindContext,
    KindExport,
    KindHealthContext,
    KindHealthNodes,
    RegistryListed { engine: Seq<char> },
    RegistryPort { engine: Seq<char> },
    RegistryNetwork { engine: Seq<char>, port_matches: bool },
    RegistryRunning { engine: Seq<char> },
    RegistryProbe { attempt: u32 },
    RegistryConfig { preflight: PreflightView },
    ControllersReady { kubeconfig: Option<Seq<char>>, resume: Option<PreflightView> },
    FluxAppsCreated { left: u32 },
    FluxAppsReady,
    WorkloadFile { engine: Seq<char> },
    WorkloadKubeconfig { engine: Seq<char>, path: Seq<char> },
    WorkloadPort { engine: Seq<char>, path: Seq<char> },
    WorkloadFluxCreated { path: Seq<char>, left: u32 },
    WorkloadReady { path: Seq<char> },
}

impl View for BootstrapQuestion {
    type V = BootstrapQuestionView;

    open spec fn view(&self) -> BootstrapQuestionView {
        match *self {
            BootstrapQuestion::KindClusters { engine_sock } => {
                BootstrapQuestionView::KindClusters { engine_sock: engine_sock@ }
            },
            BootstrapQuestion::KindContext => BootstrapQuestionView::KindContext,
            BootstrapQuestion::KindExport => BootstrapQuestionView::KindExport,
            BootstrapQuestion::KindHealthContext => BootstrapQuestionView::KindHealthContext,
            BootstrapQuestion::KindHealthNodes => BootstrapQuestionView::KindHealthNodes,
            BootstrapQuestion::RegistryListed { engine } => BootstrapQuestionView::RegistryListed {
                engine: engine@,
            },
            BootstrapQuestion::RegistryPort { engine } => BootstrapQuestionView::RegistryPort {
                engine: engine@,
            },
            BootstrapQuestion::RegistryNetwork { engine, port_matches } => {
                BootstrapQuestionView::RegistryNetwork { engine: engine@, port_matches }
            },
            BootstrapQuestion::RegistryRunning { engine } => {
                BootstrapQuestionView::RegistryRunning { engine: engine@ }
            },
            BootstrapQuestion::RegistryProbe { attempt } => BootstrapQuestionView::RegistryProbe {
                attempt,
            },
            BootstrapQuestion::RegistryConfig { preflight } => {
                BootstrapQuestionView::RegistryConfig { preflight: preflight@ }
            },
            BootstrapQuestion::ControllersReady { kubeconfig, resume } => {
                BootstrapQuestionView::ControllersReady {
                    kubeconfig: optional(kubeconfig),
                    resume: preflight_view(resume),
                }
            },
            BootstrapQuestion::FluxAppsCreated { left } => BootstrapQuestionView::FluxAppsCreated {
                left,
            },
            BootstrapQuestion::FluxAppsReady => BootstrapQuestionView::FluxAppsReady,
            BootstrapQuestion::WorkloadFile { engine } => BootstrapQuestionView::WorkloadFile {
                engine: engine@,
            },
            BootstrapQuestion::WorkloadKubeconfig { engine, path } => {
                BootstrapQuestionView::WorkloadKubeconfig { engine: engine@, path: path@ }
            },
            BootstrapQuestion::WorkloadPort { engine, path } => {
                BootstrapQuestionView::WorkloadPort { engine: engine@, path: path@ }
            },
            BootstrapQuestion::WorkloadFluxCreated { path, left } => {
                BootstrapQuestionView::WorkloadFluxCreated { path: path@, left }
            },
            BootstrapQuestion::WorkloadReady { path } => BootstrapQuestionView::WorkloadReady {
                path: path@,
            },
        }
    }
}

/// What is done to find the answer to a question.
pub open spec fn action_spec(cfg: Config, question: BootstrapQuestionView) -> ActionView {
    match question {
        BootstrapQuestionView::KindClusters { .. } => ActionView::Lossy(
            command("kind"@).arg("get"@).arg("clusters"@),
        ),
        BootstrapQuestionView::KindContext => ActionView::Quiet(
            command("kubectl"@)
                .arg("config"@).arg("use-context"@).arg(cfg.repo.bootstrap.kind_context@),
        ),
        BootstrapQuestionView::KindExport => ActionView::Quiet(
            command("kind"@)
                .arg("export"@).arg("kubeconfig"@).arg("--name"@)
                .arg(cfg.repo.bootstrap.kind_cluster@),
        ),
        BootstrapQuestionView::KindHealthContext => ActionView::Quiet(
            command("kubectl"@)
                .arg("config"@).arg("use-context"@).arg(cfg.repo.bootstrap.kind_context@),
        ),
        BootstrapQuestionView::KindHealthNodes => ActionView::Quiet(
            command("kubectl"@)
                .arg("wait"@).arg("--for=condition=Ready"@).arg("node"@).arg("--all"@)
                .arg("--timeout=120s"@),
        ),
        BootstrapQuestionView::RegistryListed { engine } => ActionView::Lossy(
            command(engine)
                .arg("ps"@).arg("-a"@).arg("--filter"@)
                .arg("name=^"@ + cfg.repo.bootstrap.registry_name@ + "$"@).arg("--format"@)
                .arg("{{.Names}}"@),
        ),
        BootstrapQuestionView::RegistryPort { engine } => ActionView::Lossy(
            command(engine).arg("port"@).arg(cfg.repo.bootstrap.registry_name@).arg("5000/tcp"@),
        ),
        BootstrapQuestionView::RegistryNetwork { engine, .. } => {
            ActionView::Lossy(
                command(engine)
                    .arg("inspect"@).arg(cfg.repo.bootstrap.registry_name@).arg("--format"@)
                    .arg("{{json .NetworkSettings.Networks}}"@),
            )
        },
        BootstrapQuestionView::RegistryRunning { engine } => {
            ActionView::Lossy(
                command(engine)
                    .arg("ps"@).arg("--filter"@)
                    .arg("name=^"@ + cfg.repo.bootstrap.registry_name@ + "$"@).arg("--format"@)
                    .arg("{{.Names}}"@),
            )
        },
        BootstrapQuestionView::RegistryProbe { .. } => ActionView::Get(
            request(registry_url_spec(cfg)),
        ),
        BootstrapQuestionView::RegistryConfig { .. } => ActionView::TempFile("{}\n"@),
        BootstrapQuestionView::ControllersReady { kubeconfig, .. } => {
            ActionView::Run(
                kubectl_cmd_spec(kubeconfig)
                    .arg("wait"@).arg("--namespace"@).arg(cfg.repo.bootstrap.flux_namespace@)
                    .arg("--for=condition=ready"@).arg("pod"@)
                    .arg("--selector=app.kubernetes.io/part-of=flux"@).arg("--timeout=90s"@),
            )
        },
        BootstrapQuestionView::FluxAppsCreated { .. } => ActionView::Quiet(
            command("kubectl"@)
                .arg("get"@).arg("kustomization"@).arg("flux-apps"@).arg("--namespace"@)
                .arg(cfg.repo.bootstrap.flux_namespace@),
        ),
        BootstrapQuestionView::FluxAppsReady => ActionView::Run(
            command("kubectl"@)
                .arg("wait"@).arg("kustomization/flux-apps"@).arg("--namespace"@)
                .arg(cfg.repo.bootstrap.flux_namespace@).arg("--for=condition=Ready"@)
                .arg("--timeout="@ + cfg.local_reconcile_timeout@),
        ),
        BootstrapQuestionView::WorkloadFile { .. } => ActionView::TempFile(""@),
        BootstrapQuestionView::WorkloadKubeconfig { .. } => ActionView::Capture(
            command("clusterctl"@).arg("get"@).arg("kubeconfig"@).arg("local-workload"@),
        ),
        BootstrapQuestionView::WorkloadPort { engine, .. } => {
            ActionView::Capture(
                command(engine).arg("port"@).arg("local-workload-lb"@).arg("6443/tcp"@),
            )
        },
        BootstrapQuestionView::WorkloadFluxCreated { path, .. } => {
            ActionView::Quiet(
                command("kubectl"@)
                    .arg("--kubeconfig"@).arg(path).arg("get"@).arg("kustomization"@)
                    .arg("flux-system"@).arg("--namespace"@).arg("flux-system"@),
            )
        },
        BootstrapQuestionView::WorkloadReady { path } => ActionView::Run(
            command("kubectl"@)
                .arg("--kubeconfig"@).arg(path).arg("wait"@).arg("kustomization/flux-system"@)
                .arg("--namespace"@).arg("flux-system"@).arg("--for=condition=Ready"@)
                .arg("--timeout="@ + cfg.local_reconcile_timeout@),
        ),
    }
}

/// What is done to find the answer to a question.
pub fn action(cfg: &Config, question: &BootstrapQuestion) -> (a: Action)
    ensures
        a@ == action_spec(*cfg, question@),
{
    match question {
        BootstrapQuestion::KindClusters { .. } => Action::Lossy(
            Command::new("kind").arg("get").arg("clusters"),
        ),
        BootstrapQuestion::KindContext => Action::Quiet(
            Command::new("kubectl")
                .arg("config").arg("use-context").arg(cfg.repo.bootstrap.kind_context.as_str()),
        ),
        BootstrapQuestion::KindExport => Action::Quiet(
            Command::new("kind")
                .arg("export").arg("kubeconfig").arg("--name")
                .arg(cfg.repo.bootstrap.kind_cluster.as_str()),
        ),
        BootstrapQuestion::KindHealthContext => Action::Quiet(
            Command::new("kubectl")
                .arg("config").arg("use-context").arg(cfg.repo.bootstrap.kind_context.as_str()),
        ),
        BootstrapQuestion::KindHealthNodes => Action::Quiet(
            Command::new("kubectl")
                .arg("wait").arg("--for=condition=Ready").arg("node").arg("--all")
                .arg("--timeout=120s"),
        ),
        BootstrapQuestion::RegistryListed { engine } => Action::Lossy(
            Command::new(engine.as_str())
                .arg("ps").arg("-a").arg("--filter")
                .arg(cat3("name=^", cfg.repo.bootstrap.registry_name.as_str(), "$").as_str())
                .arg("--format").arg("{{.Names}}"),
        ),
        BootstrapQuestion::RegistryPort { engine } => Action::Lossy(
            Command::new(engine.as_str())
                .arg("port").arg(cfg.repo.bootstrap.registry_name.as_str()).arg("5000/tcp"),
        ),
        BootstrapQuestion::RegistryNetwork { engine, .. } => {
            Action::Lossy(
                Command::new(engine.as_str())
                    .arg("inspect").arg(cfg.repo.bootstrap.registry_name.as_str()).arg("--format")
                    .arg("{{json .NetworkSettings.Networks}}"),
            )
        },
        BootstrapQuestion::RegistryRunning { engine } => Action::Lossy(
            Command::new(engine.as_str())
                .arg("ps").arg("--filter")
                .arg(cat3("name=^", cfg.repo.bootstrap.registry_name.as_str(), "$").as_str())
                .arg("--format").arg("{{.Names}}"),
        ),
        BootstrapQuestion::RegistryProbe { .. } => Action::Get(Request::new(registry_url(cfg))),
        BootstrapQuestion::RegistryConfig { .. } => Action::TempFile("{}\n".to_owned()),
        BootstrapQuestion::ControllersReady { kubeconfig, .. } => {
            Action::Run(
                kubectl_cmd(kubeconfig)
                    .arg("wait").arg("--namespace").arg(cfg.repo.bootstrap.flux_namespace.as_str())
                    .arg("--for=condition=ready").arg("pod")
                    .arg("--selector=app.kubernetes.io/part-of=flux").arg("--timeout=90s"),
            )
        },
        BootstrapQuestion::FluxAppsCreated { .. } => Action::Quiet(
            Command::new("kubectl")
                .arg("get").arg("kustomization").arg("flux-apps").arg("--namespace")
                .arg(cfg.repo.bootstrap.flux_namespace.as_str()),
        ),
        BootstrapQuestion::FluxAppsReady => Action::Run(
            Command::new("kubectl")
                .arg("wait").arg("kustomization/flux-apps").arg("--namespace")
                .arg(cfg.repo.bootstrap.flux_namespace.as_str()).arg("--for=condition=Ready")
                .arg(cat2("--timeout=", cfg.local_reconcile_timeout.as_str()).as_str()),
        ),
        BootstrapQuestion::WorkloadFile { .. } => Action::TempFile("".to_owned()),
        BootstrapQuestion::WorkloadKubeconfig { .. } => Action::Capture(
            Command::new("clusterctl").arg("get").arg("kubeconfig").arg("local-workload"),
        ),
        BootstrapQuestion::WorkloadPort { engine, .. } => Action::Capture(
            Command::new(engine.as_str()).arg("port").arg("local-workload-lb").arg("6443/tcp"),
        ),
        BootstrapQuestion::WorkloadFluxCreated { path, .. } => {
            Action::Quiet(
                Command::new("kubectl")
                    .arg("--kubeconfig").arg(path.as_str()).arg("get").arg("kustomization")
                    .arg("flux-system").arg("--namespace").arg("flux-system"),
            )
        },
        BootstrapQuestion::WorkloadReady { path } => Action::Run(
            Command::new("kubectl")
                .arg("--kubeconfig").arg(path.as_str()).arg("wait").arg("kustomization/flux-system")
                .arg("--namespace").arg("flux-system").arg("--for=condition=Ready")
                .arg(cat2("--timeout=", cfg.local_reconcile_timeout.as_str()).as_str()),
        ),
    }
}

/// How the run goes on after: which kind clusters are there?
pub open spec fn after_kind_clusters_spec(
    cfg: Config,
    engine_sock: Seq<char>,
    reply: ReplyView,
) -> ScriptView {
    if has_line_spec(reply.stdout, cfg.repo.bootstrap.kind_cluster@) {
        if cfg.recreate {
            recreate_kind_spec(cfg, engine_sock)
        } else {
            reuse_kind_spec(cfg)
        }
    } else {
        create_kind_spec(cfg, engine_sock)
    }
}

/// How the run goes on after: which kind clusters are there?
pub fn after_kind_clusters(cfg: &Config, engine_sock: &str, reply: &Reply) -> (s: Script)
    ensures
        s@ == after_kind_clusters_spec(*cfg, engine_sock@, reply@),
{
    if has_line(reply.stdout.as_str(), cfg.repo.bootstrap.kind_cluster.as_str()) {
        if cfg.recreate {
            recreate_kind(cfg, engine_sock)
        } else {
            reuse_kind(cfg)
        }
    } else {
        create_kind(cfg, engine_sock)
    }
}

/// How the run goes on after: does the kubeconfig have the context of the existing cluster?
pub open spec fn after_kind_context_spec(cfg: Config, reply: ReplyView) -> ScriptView {
    if reply.ok {
        ScriptView::new()
    } else {
        ScriptView::new()
            .say(
                ">>> Context '"@ + cfg.repo.bootstrap.kind_context@
                    + "' missing from kubeconfig; exporting it..."@,
            )
            .ask(QuestionView::Bootstrap(BootstrapQuestionView::KindExport))
    }
}

/// How the run goes on after: does the kubeconfig have the context of the existing cluster?
pub fn after_kind_context(cfg: &Config, reply: &Reply) -> (s: Script)
    ensures
        s@ == after_kind_context_spec(*cfg, reply@),
{
    if reply.ok {
        Script::new()
    } else {
        Script::new()
            .say(
                cat3(
                    ">>> Context '",
                    cfg.repo.bootstrap.kind_context.as_str(),
                    "' missing from kubeconfig; exporting it...",
                ),
            )
            .ask(Question::Bootstrap(BootstrapQuestion::KindExport))
    }
}

/// How the run goes on after: could the kubeconfig of the existing cluster be exported?
pub open spec fn after_kind_export_spec(cfg: Config, reply: ReplyView) -> ScriptView {
    if reply.ok {
        ScriptView::new()
    } else {
        ScriptView::new()
            .fail(
                "failed to export kubeconfig for existing cluster '"@
                    + cfg.repo.bootstrap.kind_cluster@ + "'; rerun with --recreate to replace it"@,
            )
    }
}

/// How the run goes on after: could the kubeconfig of the existing cluster be exported?
pub fn after_kind_export(cfg: &Config, reply: &Reply) -> (s: Script)
    ensures
        s@ == after_kind_export_spec(*cfg, reply@),
{
    if reply.ok {
        Script::new()
    } else {
        Script::new()
            .fail(
                cat3(
                    "failed to export kubeconfig for existing cluster '",
                    cfg.repo.bootstrap.kind_cluster.as_str(),
                    "'; rerun with --recreate to replace it",
                ),
            )
    }
}

/// How the run goes on after: can the context of the existing cluster be selected?
pub open spec fn after_kind_health_context_spec(cfg: Config, reply: ReplyView) -> ScriptView {
    if reply.ok {
        ScriptView::new()
            .ask(QuestionView::Bootstrap(BootstrapQuestionView::KindHealthNodes))
    } else {
        ScriptView::new()
            .fail(
                "existing kind cluster '"@ + cfg.repo.bootstrap.kind_cluster@
                    + "' is not healthy (context unreachable or nodes not Ready within 120s); rerun with --recreate to replace it"@,
            )
    }
}

/// How the run goes on after: can the context of the existing cluster be selected?
pub fn after_kind_health_context(cfg: &Config, reply: &Reply) -> (s: Script)
    ensures
        s@ == after_kind_health_context_spec(*cfg, reply@),
{
    if reply.ok {
        Script::new()
            .ask(Question::Bootstrap(BootstrapQuestion::KindHealthNodes))
    } else {
        Script::new()
            .fail(
                cat3(
                    "existing kind cluster '",
                    cfg.repo.bootstrap.kind_cluster.as_str(),
                    "' is not healthy (context unreachable or nodes not Ready within 120s); rerun with --recreate to replace it",
                ),
            )
    }
}

/// How the run goes on after: are the nodes of the existing cluster ready?
pub open spec fn after_kind_health_nodes_spec(cfg: Config, reply: ReplyView) -> ScriptView {
    if reply.ok {
        ScriptView::new()
            .say(
                ">>> Existing cluster '"@ + cfg.repo.bootstrap.kind_cluster@
                    + "' is healthy; continuing."@,
            )
    } else {
        ScriptView::new()
            .fail(
                "existing kind cluster '"@ + cfg.repo.bootstrap.kind_cluster@
                    + "' is not healthy (context unreachable or nodes not Ready within 120s); rerun with --recreate to replace it"@,
            )
    }
}

/// How the run goes on after: are the nodes of the existing cluster ready?
pub fn after_kind_health_nodes(cfg: &Config, reply: &Reply) -> (s: Script)
    ensures
        s@ == after_kind_health_nodes_spec(*cfg, reply@),
{
    if reply.ok {
        Script::new()
            .say(
                cat3(
                    ">>> Existing cluster '",
                    cfg.repo.bootstrap.kind_cluster.as_str(),
                    "' is healthy; continuing.",
                ),
            )
    } else {
        Script::new()
            .fail(
                cat3(
                    "existing kind cluster '",
                    cfg.repo.bootstrap.kind_cluster.as_str(),
                    "' is not healthy (context unreachable or nodes not Ready within 120s); rerun with --recreate to replace it",
                ),
            )
    }
}

/// How the run goes on after: is there a container with the name of the registry?
pub open spec fn after_registry_listed_spec(
    cfg: Config,
    engine: Seq<char>,
    reply: ReplyView,
) -> ScriptView {
    if has_line_spec(reply.stdout, cfg.repo.bootstrap.registry_name@) {
        ScriptView::new()
            .ask(QuestionView::Bootstrap(BootstrapQuestionView::RegistryPort { engine }))
    } else {
        ScriptView::new()
            .say("    Creating registry container '"@ + cfg.repo.bootstrap.registry_name@ + "'..."@)
            .perform(
                ActionView::Capture(
                    command(engine)
                        .arg("run"@).arg("-d"@).arg("--name"@)
                        .arg(cfg.repo.bootstrap.registry_name@).arg("--network"@).arg("kind"@)
                        .arg("-p"@)
                        .arg("127.0.0.1:"@ + decimal_spec(cfg.registry_port as int) + ":5000"@)
                        .arg("registry:2"@),
                ),
                RuleView::Require,
            )
            .say(
                "    Registry created and running: "@ + cfg.repo.bootstrap.registry_name@
                    + ":5000"@,
            )
    }
}

/// How the run goes on after: is there a container with the name of the registry?
pub fn after_registry_listed(cfg: &Config, engine: &str, reply: &Reply) -> (s: Script)
    ensures
        s@ == after_registry_listed_spec(*cfg, engine@, reply@),
{
    if has_line(reply.stdout.as_str(), cfg.repo.bootstrap.registry_name.as_str()) {
        Script::new()
            .ask(Question::Bootstrap(BootstrapQuestion::RegistryPort { engine: engine.to_owned() }))
    } else {
        Script::new()
            .say(
                cat3(
                    "    Creating registry container '",
                    cfg.repo.bootstrap.registry_name.as_str(),
                    "'...",
                ),
            )
            .perform(
                Action::Capture(
                    Command::new(engine)
                        .arg("run").arg("-d").arg("--name")
                        .arg(cfg.repo.bootstrap.registry_name.as_str()).arg("--network").arg("kind")
                        .arg("-p")
                        .arg(
                            cat3(
                                "127.0.0.1:",
                                decimal(cfg.registry_port as u64).as_str(),
                                ":5000",
                            ).as_str(),
                        )
                        .arg("registry:2"),
                ),
                Rule::Require,
            )
            .say(
                cat3(
                    "    Registry created and running: ",
                    cfg.repo.bootstrap.registry_name.as_str(),
                    ":5000",
                ),
            )
    }
}

/// How the run goes on after: at which port is the registry published?
pub open spec fn after_registry_port_spec(
    cfg: Config,
    engine: Seq<char>,
    reply: ReplyView,
) -> ScriptView {
    ScriptView::new()
        .ask(
            QuestionView::Bootstrap(
                BootstrapQuestionView::RegistryNetwork {
                    engine,
                    port_matches: port_matches_spec(cfg, reply.stdout),
                },
            ),
        )
}

/// How the run goes on after: at which port is the registry published?
pub fn after_registry_port(cfg: &Config, engine: &str, reply: &Reply) -> (s: Script)
    ensures
        s@ == after_registry_port_spec(*cfg, engine@, reply@),
{
    Script::new()
        .ask(
            Question::Bootstrap(
                BootstrapQuestion::RegistryNetwork {
                    engine: engine.to_owned(),
                    port_matches: port_matches(cfg, reply.stdout.as_str()),
                },
            ),
        )
}

/// How the run goes on after: to which networks is the registry attached?
pub open spec fn after_registry_network_spec(
    cfg: Config,
    engine: Seq<char>,
    port_matches: bool,
    reply: ReplyView,
) -> ScriptView {
    if port_matches && contains_spec(reply.stdout, "\"kind\""@) {
        ScriptView::new()
            .ask(QuestionView::Bootstrap(BootstrapQuestionView::RegistryRunning { engine }))
    } else {
        ScriptView::new()
            .say("    Existing registry misconfigured (port or network); recreating..."@)
            .perform(
                ActionView::Run(
                    command(engine).arg("rm"@).arg("-f"@).arg(cfg.repo.bootstrap.registry_name@),
                ),
                RuleView::Require,
            )
            .perform(
                ActionView::Capture(
                    command(engine)
                        .arg("run"@).arg("-d"@).arg("--name"@)
                        .arg(cfg.repo.bootstrap.registry_name@).arg("--network"@).arg("kind"@)
                        .arg("-p"@)
                        .arg("127.0.0.1:"@ + decimal_spec(cfg.registry_port as int) + ":5000"@)
                        .arg("registry:2"@),
                ),
                RuleView::Require,
            )
            .say("    Registry recreated: "@ + cfg.repo.bootstrap.registry_name@ + ":5000"@)
    }
}

/// How the run goes on after: to which networks is the registry attached?
pub fn after_registry_network(
    cfg: &Config,
    engine: &str,
    port_matches: bool,
    reply: &Reply,
) -> (s: Script)
    ensures
        s@ == after_registry_network_spec(*cfg, engine@, port_matches, reply@),
{
    if port_matches && contains(reply.stdout.as_str(), "\"kind\"") {
        Script::new()
            .ask(
                Question::Bootstrap(
                    BootstrapQuestion::RegistryRunning { engine: engine.to_owned() },
                ),
            )
    } else {
        Script::new()
            .say("    Existing registry misconfigured (port or network); recreating...".to_owned())
            .perform(
                Action::Run(
                    Command::new(engine)
                        .arg("rm").arg("-f").arg(cfg.repo.bootstrap.registry_name.as_str()),
                ),
                Rule::Require,
            )
            .perform(
                Action::Capture(
                    Command::new(engine)
                        .arg("run").arg("-d").arg("--name")
                        .arg(cfg.repo.bootstrap.registry_name.as_str()).arg("--network").arg("kind")
                        .arg("-p")
                        .arg(
                            cat3(
                                "127.0.0.1:",
                                decimal(cfg.registry_port as u64).as_str(),
                                ":5000",
                            ).as_str(),
                        )
                        .arg("registry:2"),
                ),
                Rule::Require,
            )
            .say(
                cat3(
                    "    Registry recreated: ",
                    cfg.repo.bootstrap.registry_name.as_str(),
                    ":5000",
                ),
            )
    }
}

/// How the run goes on after: is the container of the registry running?
pub open spec fn after_registry_running_spec(
    cfg: Config,
    engine: Seq<char>,
    reply: ReplyView,
) -> ScriptView {
    if has_line_spec(reply.stdout, cfg.repo.bootstrap.registry_name@) {
        ScriptView::new()
            .say("    Registry already running: "@ + cfg.repo.bootstrap.registry_name@ + ":5000"@)
    } else {
        ScriptView::new()
            .say("    Restarting stopped registry..."@)
            .perform(
                ActionView::Capture(
                    command(engine).arg("start"@).arg(cfg.repo.bootstrap.registry_name@),
                ),
                RuleView::Require,
            )
            .say("    Registry restarted: "@ + cfg.repo.bootstrap.registry_name@ + ":5000"@)
    }
}

/// How the run goes on after: is the container of the registry running?
pub fn after_registry_running(cfg: &Config, engine: &str, reply: &Reply) -> (s: Script)
    ensures
        s@ == after_registry_running_spec(*cfg, engine@, reply@),
{
    if has_line(reply.stdout.as_str(), cfg.repo.bootstrap.registry_name.as_str()) {
        Script::new()
            .say(
                cat3(
                    "    Registry already running: ",
                    cfg.repo.bootstrap.registry_name.as_str(),
                    ":5000",
                ),
            )
    } else {
        Script::new()
            .say("    Restarting stopped registry...".to_owned())
            .perform(
                Action::Capture(
                    Command::new(engine)
                        .arg("start").arg(cfg.repo.bootstrap.registry_name.as_str()),
                ),
                Rule::Require,
            )
            .say(
                cat3(
                    "    Registry restarted: ",
                    cfg.repo.bootstrap.registry_name.as_str(),
                    ":5000",
                ),
            )
    }
}

/// How the run goes on after: does the API of the registry answer at this attempt?
pub open spec fn after_registry_probe_spec(
    cfg: Config,
    attempt: u32,
    reply: ReplyView,
) -> ScriptView {
    let url = registry_url_spec(cfg);
    if reply.ok && reply.http < 400 {
        ScriptView::new()
    } else if reply.ok && !is_transient_spec(reply.http) {
        ScriptView::new()
            .fail(
                "local registry at "@ + url + " returned "@ + decimal_spec(
                    reply.http as int,
                ) + "; not retrying"@,
            )
    } else if attempt < cfg.registry_ready_retries {
        ScriptView::new()
            .perform(ActionView::Sleep(1), RuleView::Ignore)
            .ask(
                QuestionView::Bootstrap(
                    BootstrapQuestionView::RegistryProbe { attempt: (attempt + 1) as u32 },
                ),
            )
    } else {
        ScriptView::new()
            .fail("local registry did not become ready at "@ + url)
    }
}

/// How the run goes on after: does the API of the registry answer at this attempt?
pub fn after_registry_probe(cfg: &Config, attempt: u32, reply: &Reply) -> (s: Script)
    ensures
        s@ == after_registry_probe_spec(*cfg, attempt, reply@),
{
    let url = registry_url(cfg);
    if reply.ok && reply.http < 400 {
        Script::new()
    } else if reply.ok && !is_transient(reply.http) {
        Script::new()
            .fail(
                cat5(
                    "local registry at ",
                    url.as_str(),
                    " returned ",
                    decimal(reply.http as u64).as_str(),
                    "; not retrying",
                ),
            )
    } else if attempt < cfg.registry_ready_retries {
        Script::new()
            .perform(Action::Sleep(1), Rule::Ignore)
            .ask(Question::Bootstrap(BootstrapQuestion::RegistryProbe { attempt: attempt + 1 }))
    } else {
        Script::new()
            .fail(cat2("local registry did not become ready at ", url.as_str()))
    }
}

/// How the run goes on after: where is the anonymous registry configuration for helm?
pub open spec fn after_registry_config_spec(
    cfg: Config,
    preflight: PreflightView,
    reply: ReplyView,
) -> ScriptView {
    if reply.ok {
        ScriptView::new()
            .join(install_flux_operator_spec(cfg, reply.stdout, None))
            .join(create_secrets_spec(cfg, preflight.github, None))
            .join(
                install_flux_instance_spec(
                    cfg,
                    preflight.github,
                    reply.stdout,
                    None,
                    Some(preflight),
                ),
            )
    } else {
        ScriptView::new()
            .fail_with(file_failure_spec("failed to create temp registry config"@, reply))
    }
}

/// How the run goes on after: where is the anonymous registry configuration for helm?
pub fn after_registry_config(cfg: &Config, preflight: &Preflight, reply: &Reply) -> (s: Script)
    ensures
        s@ == after_registry_config_spec(*cfg, preflight@, reply@),
{
    if reply.ok {
        Script::new()
            .join(install_flux_operator(cfg, reply.stdout.as_str(), &None))
            .join(create_secrets(cfg, &preflight.github, &None))
            .join(
                install_flux_instance(
                    cfg,
                    &preflight.github,
                    reply.stdout.as_str(),
                    &None,
                    &Some(preflight.copy()),
                ),
            )
    } else {
        Script::new()
            .fail_with(file_failure("failed to create temp registry config", reply))
    }
}

/// How the run goes on after: are the Flux controllers ready?
pub open spec fn after_controllers_ready_spec(
    cfg: Config,
    kubeconfig: Option<Seq<char>>,
    resume: Option<PreflightView>,
    reply: ReplyView,
) -> ScriptView {
    if reply.ok {
        resume_bootstrap_spec(cfg, resume, true)
    } else {
        ScriptView::new()
            .report("WARNING: not all Flux controllers became ready within 90s:"@)
            .perform(
                ActionView::Run(
                    kubectl_cmd_spec(kubeconfig)
                        .arg("get"@).arg("pods"@).arg("--namespace"@)
                        .arg(cfg.repo.bootstrap.flux_namespace@),
                ),
                RuleView::Ignore,
            )
            .join(resume_bootstrap_spec(cfg, resume, false))
    }
}

/// How the run goes on after: are the Flux controllers ready?
pub fn after_controllers_ready(
    cfg: &Config,
    kubeconfig: &Option<String>,
    resume: &Option<Preflight>,
    reply: &Reply,
) -> (s: Script)
    ensures
        s@ == after_controllers_ready_spec(
            *cfg,
            optional(*kubeconfig),
            preflight_view(*resume),
            reply@,
        ),
{
    if reply.ok {
        resume_bootstrap(cfg, resume, true)
    } else {
        Script::new()
            .report("WARNING: not all Flux controllers became ready within 90s:".to_owned())
            .perform(
                Action::Run(
                    kubectl_cmd(kubeconfig)
                        .arg("get").arg("pods").arg("--namespace")
                        .arg(cfg.repo.bootstrap.flux_namespace.as_str()),
                ),
                Rule::Ignore,
            )
            .join(resume_bootstrap(cfg, resume, false))
    }
}

/// How the run goes on after: has Flux created the final Kustomization, with this many attempts
/// left?
pub open spec fn after_flux_apps_created_spec(left: u32, reply: ReplyView) -> ScriptView {
    if reply.ok {
        ScriptView::new()
    } else if left > 1 {
        ScriptView::new()
            .perform(ActionView::Sleep(2), RuleView::Ignore)
            .ask(
                QuestionView::Bootstrap(
                    BootstrapQuestionView::FluxAppsCreated { left: (left - 1) as u32 },
                ),
            )
    } else {
        ScriptView::new()
            .perform(ActionView::Sleep(2), RuleView::Ignore)
            .report("ERROR: flux-apps Kustomization was not created within 2 minutes"@)
            .perform(
                ActionView::Run(command("flux"@).arg("get"@).arg("kustomizations"@)),
                RuleView::Ignore,
            )
            .fail("flux-apps Kustomization missing"@)
    }
}

/// How the run goes on after: has Flux created the final Kustomization, with this many attempts
/// left?
pub fn after_flux_apps_created(left: u32, reply: &Reply) -> (s: Script)
    ensures
        s@ == after_flux_apps_created_spec(left, reply@),
{
    if reply.ok {
        Script::new()
    } else if left > 1 {
        Script::new()
            .perform(Action::Sleep(2), Rule::Ignore)
            .ask(Question::Bootstrap(BootstrapQuestion::FluxAppsCreated { left: left - 1 }))
    } else {
        Script::new()
            .perform(Action::Sleep(2), Rule::Ignore)
            .report("ERROR: flux-apps Kustomization was not created within 2 minutes".to_owned())
            .perform(
                Action::Run(Command::new("flux").arg("get").arg("kustomizations")),
                Rule::Ignore,
            )
            .fail("flux-apps Kustomization missing".to_owned())
    }
}

/// How the run goes on after: did the local reconciliation complete?
pub open spec fn after_flux_apps_ready_spec(cfg: Config, reply: ReplyView) -> ScriptView {
    if reply.ok {
        ScriptView::new()
    } else {
        ScriptView::new()
            .report(
                "ERROR: local-host reconciliation did not complete within "@
                    + cfg.local_reconcile_timeout@,
            )
            .perform(
                ActionView::Run(command("flux"@).arg("get"@).arg("kustomizations"@)),
                RuleView::Ignore,
            )
            .fail("local-host reconciliation timed out"@)
    }
}

/// How the run goes on after: did the local reconciliation complete?
pub fn after_flux_apps_ready(cfg: &Config, reply: &Reply) -> (s: Script)
    ensures
        s@ == after_flux_apps_ready_spec(*cfg, reply@),
{
    if reply.ok {
        Script::new()
    } else {
        Script::new()
            .report(
                cat2(
                    "ERROR: local-host reconciliation did not complete within ",
                    cfg.local_reconcile_timeout.as_str(),
                ),
            )
            .perform(
                Action::Run(Command::new("flux").arg("get").arg("kustomizations")),
                Rule::Ignore,
            )
            .fail("local-host reconciliation timed out".to_owned())
    }
}

/// How the run goes on after: where is the temporary kubeconfig of the workload cluster?
pub open spec fn after_workload_file_spec(engine: Seq<char>, reply: ReplyView) -> ScriptView {
    if reply.ok {
        ScriptView::new()
            .ask(
                QuestionView::Bootstrap(
                    BootstrapQuestionView::WorkloadKubeconfig { engine, path: reply.stdout },
                ),
            )
    } else {
        ScriptView::new()
            .fail_with(file_failure_spec("failed to create temp kubeconfig"@, reply))
    }
}

/// How the run goes on after: where is the temporary kubeconfig of the workload cluster?
pub fn after_workload_file(engine: &str, reply: &Reply) -> (s: Script)
    ensures
        s@ == after_workload_file_spec(engine@, reply@),
{
    if reply.ok {
        Script::new()
            .ask(
                Question::Bootstrap(
                    BootstrapQuestion::WorkloadKubeconfig {
                        engine: engine.to_owned(),
                        path: reply.stdout.clone(),
                    },
                ),
            )
    } else {
        Script::new()
            .fail_with(file_failure("failed to create temp kubeconfig", reply))
    }
}

/// How the run goes on after: what is the kubeconfig of the workload cluster?
pub open spec fn after_workload_kubeconfig_spec(
    cfg: Config,
    engine: Seq<char>,
    path: Seq<char>,
    reply: ReplyView,
) -> ScriptView {
    if reply.ok {
        ScriptView::new()
            .perform(ActionView::WriteFile(path, reply.stdout), RuleView::Relay)
            .join(
                if cfg.should_rewrite_capd_endpoint_spec() {
                    ScriptView::new()
                        .ask(
                            QuestionView::Bootstrap(
                                BootstrapQuestionView::WorkloadPort { engine, path },
                            ),
                        )
                } else {
                    match capd_recorded_endpoint_spec(reply.stdout) {
                        Some(server) => {
                            watch_workload_spec(cfg, path, server)
                        },
                        None => {
                            ScriptView::new()
                                .fail(
                                    "cannot read the local-workload endpoint from the CAPD kubeconfig"@,
                                )
                        },
                    }
                },
            )
    } else {
        ScriptView::new()
            .fail_with(
                failure_spec(
                    command("clusterctl"@).arg("get"@).arg("kubeconfig"@).arg("local-workload"@),
                    reply,
                ),
            )
    }
}

/// How the run goes on after: what is the kubeconfig of the workload cluster?
pub fn after_workload_kubeconfig(
    cfg: &Config,
    engine: &str,
    path: &str,
    reply: &Reply,
) -> (s: Script)
    ensures
        s@ == after_workload_kubeconfig_spec(*cfg, engine@, path@, reply@),
{
    if reply.ok {
        Script::new()
            .perform(Action::WriteFile(path.to_owned(), reply.stdout.clone()), Rule::Relay)
            .join(
                if cfg.should_rewrite_capd_endpoint() {
                    Script::new()
                        .ask(
                            Question::Bootstrap(
                                BootstrapQuestion::WorkloadPort {
                                    engine: engine.to_owned(),
                                    path: path.to_owned(),
                                },
                            ),
                        )
                } else {
                    match capd_recorded_endpoint(reply.stdout.as_str()) {
                        Some(server) => {
                            watch_workload(cfg, path, server.as_str())
                        },
                        None => {
                            Script::new()
                                .fail(
                                    "cannot read the local-workload endpoint from the CAPD kubeconfig".to_owned(),
                                )
                        },
                    }
                },
            )
    } else {
        Script::new()
            .fail_with(
                failure(
                    &Command::new("clusterctl").arg("get").arg("kubeconfig").arg("local-workload"),
                    reply,
                ),
            )
    }
}

/// How the run goes on after: at which port is the API server of the workload cluster published?
pub open spec fn after_workload_port_spec(
    cfg: Config,
    engine: Seq<char>,
    path: Seq<char>,
    reply: ReplyView,
) -> ScriptView {
    if reply.ok {
        match extract_workload_port_spec(reply.stdout) {
            Some(port) => {
                watch_workload_spec(cfg, path, "https://127.0.0.1:"@ + port)
            },
            None => {
                ScriptView::new()
                    .fail("cannot determine the local-workload API server port"@)
            },
        }
    } else {
        ScriptView::new()
            .fail_with(
                failure_spec(
                    command(engine).arg("port"@).arg("local-workload-lb"@).arg("6443/tcp"@),
                    reply,
                ),
            )
    }
}

/// How the run goes on after: at which port is the API server of the workload cluster published?
pub fn after_workload_port(cfg: &Config, engine: &str, path: &str, reply: &Reply) -> (s: Script)
    ensures
        s@ == after_workload_port_spec(*cfg, engine@, path@, reply@),
{
    if reply.ok {
        match extract_workload_port(reply.stdout.as_str()) {
            Some(port) => {
                watch_workload(cfg, path, cat2("https://127.0.0.1:", port.as_str()).as_str())
            },
            None => {
                Script::new()
                    .fail("cannot determine the local-workload API server port".to_owned())
            },
        }
    } else {
        Script::new()
            .fail_with(
                failure(
                    &Command::new(engine).arg("port").arg("local-workload-lb").arg("6443/tcp"),
                    reply,
                ),
            )
    }
}

/// How the run goes on after: does the workload cluster have its Flux Kustomization, with this many
/// attempts left?
pub open spec fn after_workload_flux_created_spec(
    path: Seq<char>,
    left: u32,
    reply: ReplyView,
) -> ScriptView {
    if reply.ok {
        ScriptView::new()
    } else if left > 1 {
        ScriptView::new()
            .perform(ActionView::Sleep(2), RuleView::Ignore)
            .ask(
                QuestionView::Bootstrap(
                    BootstrapQuestionView::WorkloadFluxCreated { path, left: (left - 1) as u32 },
                ),
            )
    } else {
        ScriptView::new()
            .perform(ActionView::Sleep(2), RuleView::Ignore)
            .report("ERROR: workload Flux Kustomization was not created within 2 minutes"@)
            .perform(
                ActionView::Run(
                    command("kubectl"@)
                        .arg("--kubeconfig"@).arg(path).arg("get"@).arg("pods"@).arg("--namespace"@)
                        .arg("flux-system"@),
                ),
                RuleView::Ignore,
            )
            .fail("workload Flux Kustomization missing"@)
    }
}

/// How the run goes on after: does the workload cluster have its Flux Kustomization, with this many
/// attempts left?
pub fn after_workload_flux_created(path: &str, left: u32, reply: &Reply) -> (s: Script)
    ensures
        s@ == after_workload_flux_created_spec(path@, left, reply@),
{
    if reply.ok {
        Script::new()
    } else if left > 1 {
        Script::new()
            .perform(Action::Sleep(2), Rule::Ignore)
            .ask(
                Question::Bootstrap(
                    BootstrapQuestion::WorkloadFluxCreated {
                        path: path.to_owned(),
                        left: left - 1,
                    },
                ),
            )
    } else {
        Script::new()
            .perform(Action::Sleep(2), Rule::Ignore)
            .report(
                "ERROR: workload Flux Kustomization was not created within 2 minutes".to_owned(),
            )
            .perform(
                Action::Run(
                    Command::new("kubectl")
                        .arg("--kubeconfig").arg(path).arg("get").arg("pods").arg("--namespace")
                        .arg("flux-system"),
                ),
                Rule::Ignore,
            )
            .fail("workload Flux Kustomization missing".to_owned())
    }
}

/// How the run goes on after: did the reconciliation of the workload cluster complete?
pub open spec fn after_workload_ready_spec(
    cfg: Config,
    path: Seq<char>,
    reply: ReplyView,
) -> ScriptView {
    if reply.ok {
        ScriptView::new()
    } else {
        ScriptView::new()
            .report(
                "ERROR: workload reconciliation did not complete within "@
                    + cfg.local_reconcile_timeout@,
            )
            .perform(
                ActionView::Run(
                    command("flux"@)
                        .arg("get"@).arg("kustomizations"@).arg("--kubeconfig"@).arg(path)
                        .arg("--all-namespaces"@),
                ),
                RuleView::Ignore,
            )
            .fail("workload reconciliation timed out"@)
    }
}

/// How the run goes on after: did the reconciliation of the workload cluster complete?
pub fn after_workload_ready(cfg: &Config, path: &str, reply: &Reply) -> (s: Script)
    ensures
        s@ == after_workload_ready_spec(*cfg, path@, reply@),
{
    if reply.ok {
        Script::new()
    } else {
        Script::new()
            .report(
                cat2(
                    "ERROR: workload reconciliation did not complete within ",
                    cfg.local_reconcile_timeout.as_str(),
                ),
            )
            .perform(
                Action::Run(
                    Command::new("flux")
                        .arg("get").arg("kustomizations").arg("--kubeconfig").arg(path)
                        .arg("--all-namespaces"),
                ),
                Rule::Ignore,
            )
            .fail("workload reconciliation timed out".to_owned())
    }
}

/// How the run goes on once a question is answered.
pub open spec fn answer_spec(
    cfg: Config,
    question: BootstrapQuestionView,
    reply: ReplyView,
) -> ScriptView {
    match question {
        BootstrapQuestionView::KindClusters { engine_sock } => {
            after_kind_clusters_spec(cfg, engine_sock, reply)
        },
        BootstrapQuestionView::KindContext => after_kind_context_spec(cfg, reply),
        BootstrapQuestionView::KindExport => after_kind_export_spec(cfg, reply),
        BootstrapQuestionView::KindHealthContext => after_kind_health_context_spec(cfg, reply),
        BootstrapQuestionView::KindHealthNodes => after_kind_health_nodes_spec(cfg, reply),
        BootstrapQuestionView::RegistryListed { engine } => after_registry_listed_spec(
            cfg,
            engine,
            reply,
        ),
        BootstrapQuestionView::RegistryPort { engine } => after_registry_port_spec(
            cfg,
            engine,
            reply,
        ),
        BootstrapQuestionView::RegistryNetwork { engine, port_matches } => {
            after_registry_network_spec(cfg, engine, port_matches, reply)
        },
        BootstrapQuestionView::RegistryRunning { engine } => {
            after_registry_running_spec(cfg, engine, reply)
        },
        BootstrapQuestionView::RegistryProbe { attempt } => after_registry_probe_spec(
            cfg,
            attempt,
            reply,
        ),
        BootstrapQuestionView::RegistryConfig { preflight } => {
            after_registry_config_spec(cfg, preflight, reply)
        },
        BootstrapQuestionView::ControllersReady { kubeconfig, resume } => {
            after_controllers_ready_spec(cfg, kubeconfig, resume, reply)
        },
        BootstrapQuestionView::FluxAppsCreated { left } => after_flux_apps_created_spec(
            left,
            reply,
        ),
        BootstrapQuestionView::FluxAppsReady => after_flux_apps_ready_spec(cfg, reply),
        BootstrapQuestionView::WorkloadFile { engine } => after_workload_file_spec(engine, reply),
        BootstrapQuestionView::WorkloadKubeconfig { engine, path } => {
            after_workload_kubeconfig_spec(cfg, engine, path, reply)
        },
        BootstrapQuestionView::WorkloadPort { engine, path } => {
            after_workload_port_spec(cfg, engine, path, reply)
        },
        BootstrapQuestionView::WorkloadFluxCreated { path, left } => {
            after_workload_flux_created_spec(path, left, reply)
        },
        BootstrapQuestionView::WorkloadReady { path } => after_workload_ready_spec(
            cfg,
            path,
            reply,
        ),
    }
}

/// How the run goes on once a question is answered.
pub fn answer(cfg: &Config, question: &BootstrapQuestion, reply: &Reply) -> (s: Script)
    ensures
        s@ == answer_spec(*cfg, question@, reply@),
{
    match question {
        BootstrapQuestion::KindClusters { engine_sock } => after_kind_clusters(
            cfg,
            engine_sock.as_str(),
            reply,
        ),
        BootstrapQuestion::KindContext => after_kind_context(cfg, reply),
        BootstrapQuestion::KindExport => after_kind_export(cfg, reply),
        BootstrapQuestion::KindHealthContext => after_kind_health_context(cfg, reply),
        BootstrapQuestion::KindHealthNodes => after_kind_health_nodes(cfg, reply),
        BootstrapQuestion::RegistryListed { engine } => after_registry_listed(
            cfg,
            engine.as_str(),
            reply,
        ),
        BootstrapQuestion::RegistryPort { engine } => after_registry_port(
            cfg,
            engine.as_str(),
            reply,
        ),
        BootstrapQuestion::RegistryNetwork { engine, port_matches } => {
            after_registry_network(cfg, engine.as_str(), *port_matches, reply)
        },
        BootstrapQuestion::RegistryRunning { engine } => after_registry_running(
            cfg,
            engine.as_str(),
            reply,
        ),
        BootstrapQuestion::RegistryProbe { attempt } => after_registry_probe(cfg, *attempt, reply),
        BootstrapQuestion::RegistryConfig { preflight } => after_registry_config(
            cfg,
            preflight,
            reply,
        ),
        BootstrapQuestion::ControllersReady { kubeconfig, resume } => {
            after_controllers_ready(cfg, kubeconfig, resume, reply)
        },
        BootstrapQuestion::FluxAppsCreated { left } => after_flux_apps_created(*left, reply),
        BootstrapQuestion::FluxAppsReady => after_flux_apps_ready(cfg, reply),
        BootstrapQuestion::WorkloadFile { engine } => after_workload_file(engine.as_str(), reply),
        BootstrapQuestion::WorkloadKubeconfig { engine, path } => {
            after_workload_kubeconfig(cfg, engine.as_str(), path.as_str(), reply)
        },
        BootstrapQuestion::WorkloadPort { engine, path } => after_workload_port(
            cfg,
            engine.as_str(),
            path.as_str(),
            reply,
        ),
        BootstrapQuestion::WorkloadFluxCreated { path, left } => {
            after_workload_flux_created(path.as_str(), *left, reply)
        },
        BootstrapQuestion::WorkloadReady { path } => after_workload_ready(
            cfg,
            path.as_str(),
            reply,
        ),
    }
}

/// A bootstrap from its first check on.
pub open spec fn run_bootstrap_spec(cfg: Config) -> ScriptView {
    preflight_checks_spec(cfg)
}

/// A bootstrap from its first check on.
pub fn run_bootstrap(cfg: &Config) -> (s: Script)
    ensures
        s@ == run_bootstrap_spec(*cfg),
{
    preflight_checks(cfg)
}

/// The bootstrap after its preflight.
pub open spec fn after_preflight_spec(cfg: Config, preflight: PreflightView) -> ScriptView {
    ScriptView::new()
        .say(
            ">>> Using container engine: "@ + preflight.engine + " (socket: "@
                + preflight.engine_sock + ")"@,
        )
        .join(ensure_kind_cluster_spec(preflight.engine_sock))
        .join(post_kind_create_spec(cfg))
        .join(
            if cfg.is_local_spec() {
                bootstrap_local_registry_spec(cfg, preflight.engine)
            } else {
                ScriptView::new()
            },
        )
        .ask(QuestionView::Bootstrap(BootstrapQuestionView::RegistryConfig { preflight }))
}

/// The bootstrap after its preflight.
pub fn after_preflight(cfg: &Config, preflight: &Preflight) -> (s: Script)
    ensures
        s@ == after_preflight_spec(*cfg, preflight@),
{
    Script::new()
        .say(
            cat5(
                ">>> Using container engine: ",
                preflight.engine.as_str(),
                " (socket: ",
                preflight.engine_sock.as_str(),
                ")",
            ),
        )
        .join(ensure_kind_cluster(preflight.engine_sock.as_str()))
        .join(post_kind_create(cfg))
        .join(
            if cfg.is_local() {
                bootstrap_local_registry(cfg, preflight.engine.as_str())
            } else {
                Script::new()
            },
        )
        .ask(Question::Bootstrap(BootstrapQuestion::RegistryConfig { preflight: preflight.copy() }))
}

/// Ensures that the kind cluster exists and is healthy. An existing cluster is reused, unless it is
/// to be recreated.
pub open spec fn ensure_kind_cluster_spec(engine_sock: Seq<char>) -> ScriptView {
    ScriptView::new()
        .ask(QuestionView::Bootstrap(BootstrapQuestionView::KindClusters { engine_sock }))
}

/// Ensures that the kind cluster exists and is healthy. An existing cluster is reused, unless it is
/// to be recreated.
pub fn ensure_kind_cluster(engine_sock: &str) -> (s: Script)
    ensures
        s@ == ensure_kind_cluster_spec(engine_sock@),
{
    Script::new()
        .ask(
            Question::Bootstrap(
                BootstrapQuestion::KindClusters { engine_sock: engine_sock.to_owned() },
            ),
        )
}

/// The task that an environment runs once the kind cluster exists, whether it was created or
/// reused.
pub open spec fn post_kind_create_spec(cfg: Config) -> ScriptView {
    match cfg.environment.post_kind_create_task {
        Some(task) => {
            ScriptView::new()
                .perform(
                    ActionView::Run(
                        command("mise"@).arg("-E"@).arg(cfg.profile@).arg("run"@).arg(task@),
                    ),
                    RuleView::Require,
                )
        },
        None => {
            ScriptView::new()
        },
    }
}

/// The task that an environment runs once the kind cluster exists, whether it was created or
/// reused.
pub fn post_kind_create(cfg: &Config) -> (s: Script)
    ensures
        s@ == post_kind_create_spec(*cfg),
{
    match &cfg.environment.post_kind_create_task {
        Some(task) => {
            Script::new()
                .perform(
                    Action::Run(
                        Command::new("mise")
                            .arg("-E").arg(cfg.profile.as_str()).arg("run").arg(task.as_str()),
                    ),
                    Rule::Require,
                )
        },
        None => {
            Script::new()
        },
    }
}

/// Attaches the toolbox to the network of the kind cluster.
pub open spec fn toolbox_enter_spec(cfg: Config) -> ScriptView {
    match network_engine_spec(cfg) {
        Some(engine) => {
            toolbox_join_kind_network_spec(cfg, engine)
        },
        None => {
            ScriptView::new()
        },
    }
}

/// Attaches the toolbox to the network of the kind cluster.
pub fn toolbox_enter(cfg: &Config) -> (s: Script)
    ensures
        s@ == toolbox_enter_spec(*cfg),
{
    match network_engine(cfg) {
        Some(engine) => {
            toolbox_join_kind_network(cfg, engine.as_str())
        },
        None => {
            Script::new()
        },
    }
}

/// Detaches the toolbox from the network of the kind cluster.
pub open spec fn toolbox_exit_spec(cfg: Config) -> ScriptView {
    match network_engine_spec(cfg) {
        Some(engine) => {
            toolbox_leave_kind_network_spec(cfg, engine)
        },
        None => {
            ScriptView::new()
        },
    }
}

/// Detaches the toolbox from the network of the kind cluster.
pub fn toolbox_exit(cfg: &Config) -> (s: Script)
    ensures
        s@ == toolbox_exit_spec(*cfg),
{
    match network_engine(cfg) {
        Some(engine) => {
            toolbox_leave_kind_network(cfg, engine.as_str())
        },
        None => {
            Script::new()
        },
    }
}

/// Reuses the existing kind cluster once it has proved healthy.
pub open spec fn reuse_kind_spec(cfg: Config) -> ScriptView {
    ScriptView::new()
        .say(
            ">>> Reusing existing kind cluster '"@ + cfg.repo.bootstrap.kind_cluster@
                + "' (pass --recreate to replace it)..."@,
        )
        .say(">>> Validating existing cluster health..."@)
        .join(toolbox_enter_spec(cfg))
        .join(
            if cfg.toolbox {
                select_toolbox_kind_kubeconfig_spec(cfg)
            } else {
                ScriptView::new()
            },
        )
        .ask(QuestionView::Bootstrap(BootstrapQuestionView::KindContext))
        .ask(QuestionView::Bootstrap(BootstrapQuestionView::KindHealthContext))
}

/// Reuses the existing kind cluster once it has proved healthy.
pub fn reuse_kind(cfg: &Config) -> (s: Script)
    ensures
        s@ == reuse_kind_spec(*cfg),
{
    Script::new()
        .say(
            cat3(
                ">>> Reusing existing kind cluster '",
                cfg.repo.bootstrap.kind_cluster.as_str(),
                "' (pass --recreate to replace it)...",
            ),
        )
        .say(">>> Validating existing cluster health...".to_owned())
        .join(toolbox_enter(cfg))
        .join(
            if cfg.toolbox {
                select_toolbox_kind_kubeconfig(cfg)
            } else {
                Script::new()
            },
        )
        .ask(Question::Bootstrap(BootstrapQuestion::KindContext))
        .ask(Question::Bootstrap(BootstrapQuestion::KindHealthContext))
}

/// Deletes the existing kind cluster and creates it anew.
pub open spec fn recreate_kind_spec(cfg: Config, engine_sock: Seq<char>) -> ScriptView {
    ScriptView::new()
        .say(
            ">>> Cluster '"@ + cfg.repo.bootstrap.kind_cluster@
                + "' exists and --recreate was given – recreating..."@,
        )
        .join(toolbox_exit_spec(cfg))
        .perform(
            ActionView::Run(
                command("kind"@)
                    .arg("delete"@).arg("cluster"@).arg("--name"@)
                    .arg(cfg.repo.bootstrap.kind_cluster@),
            ),
            RuleView::Require,
        )
        .join(create_kind_spec(cfg, engine_sock))
}

/// Deletes the existing kind cluster and creates it anew.
pub fn recreate_kind(cfg: &Config, engine_sock: &str) -> (s: Script)
    ensures
        s@ == recreate_kind_spec(*cfg, engine_sock@),
{
    Script::new()
        .say(
            cat3(
                ">>> Cluster '",
                cfg.repo.bootstrap.kind_cluster.as_str(),
                "' exists and --recreate was given – recreating...",
            ),
        )
        .join(toolbox_exit(cfg))
        .perform(
            Action::Run(
                Command::new("kind")
                    .arg("delete").arg("cluster").arg("--name")
                    .arg(cfg.repo.bootstrap.kind_cluster.as_str()),
            ),
            Rule::Require,
        )
        .join(create_kind(cfg, engine_sock))
}

/// Creates the kind cluster and waits for its node.
pub open spec fn create_kind_spec(cfg: Config, engine_sock: Seq<char>) -> ScriptView {
    let config = render_kind_config_spec(
        cfg.is_local_spec(),
        cfg.registry_port as int,
        engine_sock,
        cfg.repo.bootstrap.registry_name@,
    );
    ScriptView::new()
        .say(">>> Creating kind cluster '"@ + cfg.repo.bootstrap.kind_cluster@ + "'..."@)
        .perform(
            ActionView::Feed(
                command("kind"@)
                    .arg("create"@).arg("cluster"@).arg("--name"@)
                    .arg(cfg.repo.bootstrap.kind_cluster@).arg("--config"@).arg("-"@),
                config,
            ),
            RuleView::Require,
        )
        .join(toolbox_enter_spec(cfg))
        .join(select_toolbox_kind_kubeconfig_spec(cfg))
        .say(">>> Waiting for cluster node to be ready..."@)
        .perform(
            ActionView::Run(
                command("kubectl"@)
                    .arg("config"@).arg("use-context"@).arg(cfg.repo.bootstrap.kind_context@),
            ),
            RuleView::Require,
        )
        .perform(
            ActionView::Run(
                command("kubectl"@)
                    .arg("wait"@).arg("--for=condition=Ready"@).arg("node"@).arg("--all"@)
                    .arg("--timeout=120s"@),
            ),
            RuleView::Require,
        )
}

/// Creates the kind cluster and waits for its node.
pub fn create_kind(cfg: &Config, engine_sock: &str) -> (s: Script)
    ensures
        s@ == create_kind_spec(*cfg, engine_sock@),
{
    let config = render_kind_config(
        cfg.is_local(),
        cfg.registry_port,
        engine_sock,
        cfg.repo.bootstrap.registry_name.as_str(),
    );
    Script::new()
        .say(cat3(">>> Creating kind cluster '", cfg.repo.bootstrap.kind_cluster.as_str(), "'..."))
        .perform(
            Action::Feed(
                Command::new("kind")
                    .arg("create").arg("cluster").arg("--name")
                    .arg(cfg.repo.bootstrap.kind_cluster.as_str()).arg("--config").arg("-"),
                config.clone(),
            ),
            Rule::Require,
        )
        .join(toolbox_enter(cfg))
        .join(select_toolbox_kind_kubeconfig(cfg))
        .say(">>> Waiting for cluster node to be ready...".to_owned())
        .perform(
            Action::Run(
                Command::new("kubectl")
                    .arg("config").arg("use-context").arg(cfg.repo.bootstrap.kind_context.as_str()),
            ),
            Rule::Require,
        )
        .perform(
            Action::Run(
                Command::new("kubectl")
                    .arg("wait").arg("--for=condition=Ready").arg("node").arg("--all")
                    .arg("--timeout=120s"),
            ),
            Rule::Require,
        )
}

/// The local registry: its container, its API, the ConfigMap that announces it, and the first
/// artifact.
pub open spec fn bootstrap_local_registry_spec(cfg: Config, engine: Seq<char>) -> ScriptView {
    let host = cfg.registry_endpoint_spec().0;
    let port = decimal_spec(cfg.registry_endpoint_spec().1);
    let manifest = json_text(registry_manifest_spec(cfg.repo.bootstrap.registry_name@));
    ScriptView::new()
        .say(">>> Bootstrapping local container registry..."@)
        .ask(QuestionView::Bootstrap(BootstrapQuestionView::RegistryListed { engine }))
        .say(">>> Waiting for local registry API at "@ + host + ":"@ + port + "..."@)
        .ask(QuestionView::Bootstrap(BootstrapQuestionView::RegistryProbe { attempt: 0 }))
        .perform(
            ActionView::Feed(command("kubectl"@).arg("apply"@).arg("-f"@).arg("-"@), manifest),
            RuleView::Require,
        )
        .say(">>> Publishing initial OCI artifact from the local Git checkout..."@)
        .perform(ActionView::Run(oci_push_spec(cfg)), RuleView::Require)
        .say(
            ">>> Initial OCI artifact is available at oci://localhost:"@ + decimal_spec(
                cfg.registry_port as int,
            ) + "/"@ + cfg.oci_repository@ + ":"@ + cfg.oci_tag@,
        )
}

/// The local registry: its container, its API, the ConfigMap that announces it, and the first
/// artifact.
pub fn bootstrap_local_registry(cfg: &Config, engine: &str) -> (s: Script)
    ensures
        s@ == bootstrap_local_registry_spec(*cfg, engine@),
{
    let host = registry_host(cfg);
    let port = registry_port_text(cfg);
    let manifest = json::compact(&registry_manifest(cfg.repo.bootstrap.registry_name.as_str()));
    Script::new()
        .say(">>> Bootstrapping local container registry...".to_owned())
        .ask(Question::Bootstrap(BootstrapQuestion::RegistryListed { engine: engine.to_owned() }))
        .say(
            cat5(
                ">>> Waiting for local registry API at ",
                host.as_str(),
                ":",
                port.as_str(),
                "...",
            ),
        )
        .ask(Question::Bootstrap(BootstrapQuestion::RegistryProbe { attempt: 0 }))
        .perform(
            Action::Feed(Command::new("kubectl").arg("apply").arg("-f").arg("-"), manifest.clone()),
            Rule::Require,
        )
        .say(">>> Publishing initial OCI artifact from the local Git checkout...".to_owned())
        .perform(Action::Run(oci_push(cfg)), Rule::Require)
        .say(
            cat6(
                ">>> Initial OCI artifact is available at oci://localhost:",
                decimal(cfg.registry_port as u64).as_str(),
                "/",
                cfg.oci_repository.as_str(),
                ":",
                cfg.oci_tag.as_str(),
            ),
        )
}

/// Installs the Flux Operator at its pinned version.
pub open spec fn install_flux_operator_spec(
    cfg: Config,
    registry_config: Seq<char>,
    kubeconfig: Option<Seq<char>>,
) -> ScriptView {
    ScriptView::new()
        .say(">>> Installing Flux Operator..."@)
        .join(
            match chart_result(cfg, "flux-operator"@) {
                Ok(version) => {
                    ScriptView::new()
                        .perform(
                            ActionView::Run(
                                flux_operator_command_spec(
                                    cfg,
                                    version,
                                    registry_config,
                                    kubeconfig,
                                ),
                            ),
                            RuleView::Require,
                        )
                },
                Err(message) => {
                    ScriptView::new().fail(message)
                },
            },
        )
}

/// Installs the Flux Operator at its pinned version.
pub fn install_flux_operator(
    cfg: &Config,
    registry_config: &str,
    kubeconfig: &Option<String>,
) -> (s: Script)
    ensures
        s@ == install_flux_operator_spec(*cfg, registry_config@, optional(*kubeconfig)),
{
    Script::new()
        .say(">>> Installing Flux Operator...".to_owned())
        .join(
            match cfg.repo.chart("flux-operator") {
                Ok(version) => {
                    Script::new()
                        .perform(
                            Action::Run(
                                flux_operator_command(
                                    cfg,
                                    version.as_str(),
                                    registry_config,
                                    kubeconfig,
                                ),
                            ),
                            Rule::Require,
                        )
                },
                Err(message) => {
                    Script::new().fail(message)
                },
            },
        )
}

/// The pinned version of a chart, or the error that names the chart.
pub open spec fn chart_result(cfg: Config, name: Seq<char>) -> Result<Seq<char>, Seq<char>> {
    match cfg.repo.chart_version(name) {
        Some(version) => Ok(version),
        None => Err("charts."@ + name + " missing from bootstrap.toml"@),
    }
}

/// helm, installing the Flux Operator.
pub open spec fn flux_operator_command_spec(
    cfg: Config,
    version: Seq<char>,
    registry_config: Seq<char>,
    kubeconfig: Option<Seq<char>>,
) -> CommandView {
    let c = command("helm"@).arg("upgrade"@).arg("--install"@).arg("flux-operator"@).arg(
        "oci://ghcr.io/controlplaneio-fluxcd/charts/flux-operator"@,
    ).arg("--version"@).arg(version).arg("--namespace"@).arg(
        cfg.repo.bootstrap.flux_namespace@,
    ).arg("--create-namespace"@).arg("--wait"@).arg("--timeout"@).arg("10m"@).arg(
        "--registry-config"@,
    ).arg(registry_config);
    match kubeconfig {
        Some(path) => c.arg("--kubeconfig"@).arg(path),
        None => c,
    }
}

/// helm, installing the Flux Operator.
pub fn flux_operator_command(
    cfg: &Config,
    version: &str,
    registry_config: &str,
    kubeconfig: &Option<String>,
) -> (c: Command)
    ensures
        c@ == flux_operator_command_spec(*cfg, version@, registry_config@, optional(*kubeconfig)),
{
    let c = Command::new("helm").arg("upgrade").arg("--install").arg("flux-operator").arg(
        "oci://ghcr.io/controlplaneio-fluxcd/charts/flux-operator",
    ).arg("--version").arg(version).arg("--namespace").arg(
        cfg.repo.bootstrap.flux_namespace.as_str(),
    ).arg("--create-namespace").arg("--wait").arg("--timeout").arg("10m").arg(
        "--registry-config",
    ).arg(registry_config);
    match kubeconfig {
        Some(path) => c.arg("--kubeconfig").arg(path.as_str()),
        None => c,
    }
}

/// The PAT Secret and the age Secret. Both travel on standard input, and never on a command line.
pub open spec fn create_github_secrets_spec(
    cfg: Config,
    github: GithubContextView,
    kubeconfig: Option<Seq<char>>,
) -> ScriptView {
    let pat = json_text(pat_secret_spec(cfg, github));
    let age = json_text(age_secret_spec(cfg, github));
    ScriptView::new()
        .say(
            ">>> Creating GitHub PAT credentials secret in "@ + cfg.repo.bootstrap.flux_namespace@
                + "..."@,
        )
        .perform(
            ActionView::Feed(kubectl_cmd_spec(kubeconfig).arg("apply"@).arg("-f"@).arg("-"@), pat),
            RuleView::Require,
        )
        .say(
            ">>> Creating sops-age decryption secret in "@ + cfg.repo.bootstrap.flux_namespace@
                + "..."@,
        )
        .perform(
            ActionView::Run(
                kubectl_cmd_spec(kubeconfig)
                    .arg("delete"@).arg("secret"@).arg(cfg.repo.bootstrap.sops_age_secret@)
                    .arg("-n"@).arg(cfg.repo.bootstrap.flux_namespace@).arg("--ignore-not-found"@),
            ),
            RuleView::Require,
        )
        .perform(
            ActionView::Feed(kubectl_cmd_spec(kubeconfig).arg("apply"@).arg("-f"@).arg("-"@), age),
            RuleView::Require,
        )
}

/// The PAT Secret and the age Secret. Both travel on standard input, and never on a command line;
/// what is read there is the Secret, whatever characters it holds.
pub fn create_github_secrets(
    cfg: &Config,
    github: &GithubContext,
    kubeconfig: &Option<String>,
) -> (s: Script)
    ensures
        s@ == create_github_secrets_spec(*cfg, github@, optional(*kubeconfig)),
        json_document(json_text(pat_secret_spec(*cfg, github@))) == Some(
            pat_secret_spec(*cfg, github@),
        ),
        json_document(json_text(age_secret_spec(*cfg, github@))) == Some(
            age_secret_spec(*cfg, github@),
        ),
{
    proof {
        let name = cfg.repo.bootstrap.github_pat_secret@;
        let age = cfg.repo.bootstrap.sops_age_secret@;
        let namespace = cfg.repo.bootstrap.flux_namespace@;
        assert(textual(JsonTree::Text(github@.github_user), 6));
        assert(textual(JsonTree::Text(github@.github_token), 6));
        assert(textual(JsonTree::Text(github@.age_key_content), 6));
        lemma_secret_is_textual(
            name,
            namespace,
            JsonTree::object().with("username"@, JsonTree::Text(github@.github_user)).with(
                "password"@,
                JsonTree::Text(github@.github_token),
            ),
        );
        lemma_secret_is_textual(
            age,
            namespace,
            JsonTree::object().with(
                "keys."@ + github@.age_pubkey + ".agekey"@,
                JsonTree::Text(github@.age_key_content),
            ),
        );
    }
    let pat = json::compact(&pat_secret(cfg, github));
    let age = json::compact(&age_secret(cfg, github));
    Script::new()
        .say(
            cat3(
                ">>> Creating GitHub PAT credentials secret in ",
                cfg.repo.bootstrap.flux_namespace.as_str(),
                "...",
            ),
        )
        .perform(
            Action::Feed(kubectl_cmd(kubeconfig).arg("apply").arg("-f").arg("-"), pat.clone()),
            Rule::Require,
        )
        .say(
            cat3(
                ">>> Creating sops-age decryption secret in ",
                cfg.repo.bootstrap.flux_namespace.as_str(),
                "...",
            ),
        )
        .perform(
            Action::Run(
                kubectl_cmd(kubeconfig)
                    .arg("delete").arg("secret").arg(cfg.repo.bootstrap.sops_age_secret.as_str())
                    .arg("-n").arg(cfg.repo.bootstrap.flux_namespace.as_str())
                    .arg("--ignore-not-found"),
            ),
            Rule::Require,
        )
        .perform(
            Action::Feed(kubectl_cmd(kubeconfig).arg("apply").arg("-f").arg("-"), age.clone()),
            Rule::Require,
        )
}

/// Installs the FluxInstance at its pinned version, and waits for it and for its controllers.
pub open spec fn install_flux_instance_spec(
    cfg: Config,
    github: Option<GithubContextView>,
    registry_config: Seq<char>,
    kubeconfig: Option<Seq<char>>,
    resume: Option<PreflightView>,
) -> ScriptView {
    ScriptView::new()
        .say(">>> Installing FluxInstance via Helm..."@)
        .join(
            match chart_result(cfg, "flux-operator"@) {
                Ok(version) => {
                    ScriptView::new()
                        .perform(
                            ActionView::Run(
                                flux_instance_command_spec(
                                    cfg,
                                    github,
                                    version,
                                    registry_config,
                                    kubeconfig,
                                ),
                            ),
                            RuleView::Require,
                        )
                        .say(">>> Waiting for FluxInstance reconciliation to complete..."@)
                        .perform(
                            ActionView::Run(
                                kubectl_cmd_spec(kubeconfig)
                                    .arg("wait"@).arg("fluxinstance/flux"@).arg("--namespace"@)
                                    .arg(cfg.repo.bootstrap.flux_namespace@)
                                    .arg("--for=condition=Ready"@).arg("--timeout=10m"@),
                            ),
                            RuleView::Require,
                        )
                        .say(">>> Waiting for Flux controllers to be ready..."@)
                        .ask(
                            QuestionView::Bootstrap(
                                BootstrapQuestionView::ControllersReady { kubeconfig, resume },
                            ),
                        )
                },
                Err(message) => {
                    ScriptView::new().fail(message)
                },
            },
        )
}

/// Installs the FluxInstance at its pinned version, and waits for it and for its controllers.
pub fn install_flux_instance(
    cfg: &Config,
    github: &Option<GithubContext>,
    registry_config: &str,
    kubeconfig: &Option<String>,
    resume: &Option<Preflight>,
) -> (s: Script)
    ensures
        s@ == install_flux_instance_spec(
            *cfg,
            github_context_view(*github),
            registry_config@,
            optional(*kubeconfig),
            preflight_view(*resume),
        ),
{
    Script::new()
        .say(">>> Installing FluxInstance via Helm...".to_owned())
        .join(
            match cfg.repo.chart("flux-operator") {
                Ok(version) => {
                    Script::new()
                        .perform(
                            Action::Run(
                                flux_instance_command(
                                    cfg,
                                    github,
                                    version.as_str(),
                                    registry_config,
                                    kubeconfig,
                                ),
                            ),
                            Rule::Require,
                        )
                        .say(
                            ">>> Waiting for FluxInstance reconciliation to complete...".to_owned(),
                        )
                        .perform(
                            Action::Run(
                                kubectl_cmd(kubeconfig)
                                    .arg("wait").arg("fluxinstance/flux").arg("--namespace")
                                    .arg(cfg.repo.bootstrap.flux_namespace.as_str())
                                    .arg("--for=condition=Ready").arg("--timeout=10m"),
                            ),
                            Rule::Require,
                        )
                        .say(">>> Waiting for Flux controllers to be ready...".to_owned())
                        .ask(
                            Question::Bootstrap(
                                BootstrapQuestion::ControllersReady {
                                    kubeconfig: copy_optional(kubeconfig),
                                    resume: preflight_copy(resume),
                                },
                            ),
                        )
                },
                Err(message) => {
                    Script::new().fail(message)
                },
            },
        )
}

/// The bootstrap after its FluxInstance is installed: the local watch, the closing messages, and
/// the pivot unless it is switched off.
pub open spec fn finish_bootstrap_spec(
    cfg: Config,
    preflight: PreflightView,
    controllers_ready: bool,
) -> ScriptView {
    ScriptView::new()
        .join(
            if cfg.is_local_spec() {
                watch_local_reconciliation_spec(cfg, preflight.engine)
            } else {
                ScriptView::new()
            },
        )
        .say(""@)
        .join(
            if controllers_ready {
                ScriptView::new()
            } else {
                ScriptView::new()
                    .say(
                        ">>> Bootstrap finished WITH WARNINGS: Flux controllers were not all ready; check 'kubectl -n flux-system get pods' before relying on the cluster"@,
                    )
            },
        )
        .join(completion_spec(cfg, preflight))
        .join(
            if cfg.bootstrap_pivot {
                run_pivot_spec(cfg, preflight)
            } else {
                ScriptView::new()
            },
        )
}

/// The bootstrap after its FluxInstance is installed: the local watch, the closing messages, and
/// the pivot unless it is switched off.
pub fn finish_bootstrap(cfg: &Config, preflight: &Preflight, controllers_ready: bool) -> (s: Script)
    ensures
        s@ == finish_bootstrap_spec(*cfg, preflight@, controllers_ready),
{
    Script::new()
        .join(
            if cfg.is_local() {
                watch_local_reconciliation(cfg, preflight.engine.as_str())
            } else {
                Script::new()
            },
        )
        .say("".to_owned())
        .join(
            if controllers_ready {
                Script::new()
            } else {
                Script::new()
                    .say(
                        ">>> Bootstrap finished WITH WARNINGS: Flux controllers were not all ready; check 'kubectl -n flux-system get pods' before relying on the cluster".to_owned(),
                    )
            },
        )
        .join(completion(cfg, preflight))
        .join(
            if cfg.bootstrap_pivot {
                run_pivot(cfg, preflight)
            } else {
                Script::new()
            },
        )
}

/// The closing messages of a bootstrap.
pub open spec fn completion_spec(cfg: Config, preflight: PreflightView) -> ScriptView {
    let url = source_url(preflight.github);
    if cfg.environment.sync == SyncSource::Github {
        ScriptView::new()
            .say(">>> Bootstrap complete! Flux is now reconciling from "@ + url)
            .say(">>> Watch progress with: flux get kustomizations --watch"@)
    } else {
        ScriptView::new()
            .say(">>> Bootstrap complete: Flux is reconciling from the local OCI artifact"@)
            .say(
                ">>> Local registry: localhost:"@ + decimal_spec(
                    cfg.registry_port as int,
                ) + " (cluster endpoint: "@ + cfg.repo.bootstrap.registry_name@ + ":5000)"@,
            )
            .say(
                ">>> OCI source: oci://"@ + cfg.repo.bootstrap.registry_name@ + ":5000/"@
                    + cfg.oci_repository@ + ":"@ + cfg.oci_tag@ + " (path: "@
                    + cfg.environment.sync_path@ + ")"@,
            )
            .say(">>> Watch progress with: flux get sources oci --watch"@)
            .say(">>> No AWS resources were provisioned"@)
    }
}

/// The closing messages of a bootstrap.
pub fn completion(cfg: &Config, preflight: &Preflight) -> (s: Script)
    ensures
        s@ == completion_spec(*cfg, preflight@),
{
    let url = source_url_of(&preflight.github);
    if runs_github_preflight(cfg) {
        Script::new()
            .say(cat2(">>> Bootstrap complete! Flux is now reconciling from ", url.as_str()))
            .say(">>> Watch progress with: flux get kustomizations --watch".to_owned())
    } else {
        Script::new()
            .say(
                ">>> Bootstrap complete: Flux is reconciling from the local OCI artifact".to_owned(),
            )
            .say(
                cat5(
                    ">>> Local registry: localhost:",
                    decimal(cfg.registry_port as u64).as_str(),
                    " (cluster endpoint: ",
                    cfg.repo.bootstrap.registry_name.as_str(),
                    ":5000)",
                ),
            )
            .say(
                cat7(
                    cat3(
                        ">>> OCI source: oci://",
                        cfg.repo.bootstrap.registry_name.as_str(),
                        ":5000/",
                    ).as_str(),
                    cfg.oci_repository.as_str(),
                    ":",
                    cfg.oci_tag.as_str(),
                    " (path: ",
                    cfg.environment.sync_path.as_str(),
                    ")",
                ),
            )
            .say(">>> Watch progress with: flux get sources oci --watch".to_owned())
            .say(">>> No AWS resources were provisioned".to_owned())
    }
}

/// Watches the first reconciliation of the local environment and of its workload cluster.
pub open spec fn watch_local_reconciliation_spec(cfg: Config, engine: Seq<char>) -> ScriptView {
    ScriptView::new()
        .say(""@)
        .say(">>> Step 5: Flux reconciliation progress"@)
        .ask(QuestionView::Bootstrap(BootstrapQuestionView::FluxAppsCreated { left: 60 }))
        .say(">>> Waiting until the local workload cluster and Flux addons are ready..."@)
        .ask(QuestionView::Bootstrap(BootstrapQuestionView::FluxAppsReady))
        .say(""@)
        .say(">>> Workload cluster Flux reconciliation errors"@)
        .ask(QuestionView::Bootstrap(BootstrapQuestionView::WorkloadFile { engine }))
}

/// Watches the first reconciliation of the local environment and of its workload cluster.
pub fn watch_local_reconciliation(cfg: &Config, engine: &str) -> (s: Script)
    ensures
        s@ == watch_local_reconciliation_spec(*cfg, engine@),
{
    Script::new()
        .say("".to_owned())
        .say(">>> Step 5: Flux reconciliation progress".to_owned())
        .ask(Question::Bootstrap(BootstrapQuestion::FluxAppsCreated { left: 60 }))
        .say(">>> Waiting until the local workload cluster and Flux addons are ready...".to_owned())
        .ask(Question::Bootstrap(BootstrapQuestion::FluxAppsReady))
        .say("".to_owned())
        .say(">>> Workload cluster Flux reconciliation errors".to_owned())
        .ask(Question::Bootstrap(BootstrapQuestion::WorkloadFile { engine: engine.to_owned() }))
}

/// Points the kubeconfig of the workload cluster at its API server and watches its reconciliation,
/// with its errors on the terminal.
pub open spec fn watch_workload_spec(
    cfg: Config,
    path: Seq<char>,
    server: Seq<char>,
) -> ScriptView {
    ScriptView::new()
        .perform(
            ActionView::Capture(
                command("kubectl"@)
                    .arg("config"@).arg("set-cluster"@).arg("local-workload"@)
                    .arg("--server="@ + server).arg("--kubeconfig="@ + path),
            ),
            RuleView::Require,
        )
        .ask(QuestionView::Bootstrap(BootstrapQuestionView::WorkloadFluxCreated { path, left: 60 }))
        .say(">>> Waiting for workload Flux controllers to be ready..."@)
        .perform(
            ActionView::Run(
                command("kubectl"@)
                    .arg("--kubeconfig"@).arg(path).arg("wait"@).arg("pod"@).arg("--namespace"@)
                    .arg("flux-system"@).arg("--selector=app.kubernetes.io/part-of=flux"@)
                    .arg("--for=condition=Ready"@)
                    .arg("--timeout="@ + cfg.local_reconcile_timeout@),
            ),
            RuleView::Require,
        )
        .perform(
            ActionView::Follow(
                command("flux"@)
                    .arg("logs"@).arg("--kubeconfig"@).arg(path).arg("--all-namespaces"@)
                    .arg("--follow"@).arg("--level=error"@).arg("--since=10m"@),
            ),
            RuleView::Expect("failed to spawn 'flux logs'"@),
        )
        .ask(QuestionView::Bootstrap(BootstrapQuestionView::WorkloadReady { path }))
        .perform(ActionView::Unfollow, RuleView::Ignore)
}

/// Points the kubeconfig of the workload cluster at its API server and watches its reconciliation,
/// with its errors on the terminal.
pub fn watch_workload(cfg: &Config, path: &str, server: &str) -> (s: Script)
    ensures
        s@ == watch_workload_spec(*cfg, path@, server@),
{
    Script::new()
        .perform(
            Action::Capture(
                Command::new("kubectl")
                    .arg("config").arg("set-cluster").arg("local-workload")
                    .arg(cat2("--server=", server).as_str())
                    .arg(cat2("--kubeconfig=", path).as_str()),
            ),
            Rule::Require,
        )
        .ask(
            Question::Bootstrap(
                BootstrapQuestion::WorkloadFluxCreated { path: path.to_owned(), left: 60 },
            ),
        )
        .say(">>> Waiting for workload Flux controllers to be ready...".to_owned())
        .perform(
            Action::Run(
                Command::new("kubectl")
                    .arg("--kubeconfig").arg(path).arg("wait").arg("pod").arg("--namespace")
                    .arg("flux-system").arg("--selector=app.kubernetes.io/part-of=flux")
                    .arg("--for=condition=Ready")
                    .arg(cat2("--timeout=", cfg.local_reconcile_timeout.as_str()).as_str()),
            ),
            Rule::Require,
        )
        .perform(
            Action::Follow(
                Command::new("flux")
                    .arg("logs").arg("--kubeconfig").arg(path).arg("--all-namespaces")
                    .arg("--follow").arg("--level=error").arg("--since=10m"),
            ),
            Rule::Expect("failed to spawn 'flux logs'".to_owned()),
        )
        .ask(Question::Bootstrap(BootstrapQuestion::WorkloadReady { path: path.to_owned() }))
        .perform(Action::Unfollow, Rule::Ignore)
}

} // verus!
