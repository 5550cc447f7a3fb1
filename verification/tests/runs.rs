use krops_bootstrap::bootstrap::{
    create_github_secrets, finish_bootstrap, flux_instance_command, registry_manifest,
    run_bootstrap,
};
use krops_bootstrap::context::{GithubContext, Preflight, Seeker, TeardownConfig};
use krops_bootstrap::engine::{
    after_docker_version, detect_engine, join_network, resolve_engine, toolbox_container_host,
    toolbox_leave_kind_network,
};
use krops_bootstrap::kube::K8sTarget;
use krops_bootstrap::pivot::{attempts, pivot_delete_bootstrap_cluster, run_pivot};
use krops_bootstrap::preflight::preflight_checks;
use krops_bootstrap::script::{failure, Action, Command, Reply, Rule, Script};
use krops_bootstrap::session::{judge, Move, Session};
use krops_bootstrap::settings::{Cli, Config, Variables};
use krops_bootstrap::sweep::{cleanup_vpc, sweep};
use krops_bootstrap::teardown::{
    delete_aws_workload_clusters, delete_capi_providers, delete_capi_workloads, run_teardown,
    suspend_flux, uninstall_helm,
};
use indexmap::IndexMap;
use krops_bootstrap::config::{
    AwsWorkload, BootstrapConfig, BootstrapSection, Environment, MoveFallback, SyncSource,
    TeardownEnv, TeardownSection,
};

type Sections = IndexMap<String, IndexMap<String, toml::Value>>;

fn text(value: Option<&toml::Value>) -> Option<String> {
    value.and_then(|v| v.as_str()).map(String::from)
}

fn texts(value: Option<&toml::Value>) -> Vec<String> {
    match value.and_then(|v| v.as_array()) {
        Some(items) => items.iter().map(|v| v.as_str().unwrap().to_string()).collect(),
        None => Vec::new(),
    }
}

fn tables(value: Option<&toml::Value>) -> Vec<toml::Value> {
    match value.and_then(|v| v.as_array()) {
        Some(items) => items.clone(),
        None => Vec::new(),
    }
}

fn named(table: &toml::Value, name: &str) -> String {
    table.get(name).and_then(|v| v.as_str()).unwrap().to_string()
}

fn environment_from(table: &toml::Value) -> Environment {
    let mut teardown = TeardownEnv::default();
    if let Some(section) = table.get("teardown") {
        teardown.capi_workloads = texts(section.get("capi-workloads"));
        teardown.mgmt_container_prefix = text(section.get("mgmt-container-prefix"));
        teardown.mgmt_eks_cluster_name = text(section.get("mgmt-eks-cluster-name"));
        teardown.mgmt_iam_role_prefix = text(section.get("mgmt-iam-role-prefix"));
        teardown.hardware_release = section
            .get("hardware-release")
            .and_then(|v| v.as_bool())
            .unwrap_or(false);
        teardown.manual = text(section.get("manual"));
        teardown.aws_workloads = tables(section.get("aws-workloads"))
            .iter()
            .map(|w| AwsWorkload {
                region: named(w, "region"),
                cluster_name: named(w, "cluster-name"),
                eks_cluster_name: named(w, "eks-cluster-name"),
                rds_instance: named(w, "rds-instance"),
            })
            .collect();
    }
    Environment {
        kind: named(table, "kind"),
        sync: match named(table, "sync").as_str() {
            "github" => SyncSource::Github,
            "oci" => SyncSource::Oci,
            other => panic!("sync {other}"),
        },
        sync_path: named(table, "sync-path"),
        mgmt_cluster: named(table, "mgmt-cluster"),
        mgmt_ready_timeout: named(table, "mgmt-ready-timeout"),
        infra_provider_namespace: named(table, "infra-provider-namespace"),
        infra_provider_name: named(table, "infra-provider-name"),
        provider_manifests: texts(table.get("provider-manifests")),
        move_fallbacks: tables(table.get("move-fallbacks"))
            .iter()
            .map(|f| MoveFallback {
                resource: named(f, "resource"),
                name: named(f, "name"),
                manifest: named(f, "manifest"),
            })
            .collect(),
        pivot_sops_secrets: texts(table.get("pivot-sops-secrets")),
        post_kind_create_task: text(table.get("post-kind-create-task")),
        pivot_manifests: texts(table.get("pivot-manifests")),
        teardown,
    }
}

fn read(document: &str) -> BootstrapConfig {
    let sections: Sections = toml::from_str(document).unwrap();
    let bootstrap = &sections["bootstrap"];
    let global = |name: &str| bootstrap[name].as_str().unwrap().to_string();
    let mut teardown = TeardownSection::default();
    if let Some(section) = sections.get("teardown") {
        teardown.cfn_stack_name = text(section.get("cfn-stack-name"));
        teardown.global_iam_roles = texts(section.get("global-iam-roles"));
        teardown.global_iam_users = texts(section.get("global-iam-users"));
        teardown.s3_bucket_pattern = text(section.get("s3-bucket-pattern"));
    }
    BootstrapConfig {
        bootstrap: BootstrapSection {
            default_environment: global("default-environment"),
            git_branch: global("git-branch"),
            kind_cluster: global("kind-cluster"),
            kind_context: global("kind-context"),
            registry_name: global("registry-name"),
            flux_namespace: global("flux-namespace"),
            github_pat_secret: global("github-pat-secret"),
            sops_age_secret: global("sops-age-secret"),
            mgmt_namespace: global("mgmt-namespace"),
            mgmt_context: global("mgmt-context"),
        },
        charts: sections["charts"]
            .iter()
            .map(|(name, version)| (name.clone(), version.as_str().unwrap().to_string()))
            .collect(),
        teardown,
        environments: sections["environments"]
            .iter()
            .map(|(name, table)| (name.clone(), environment_from(table)))
            .collect(),
    }
}

const REPOSITORY: &str = r##"
[bootstrap]
default-environment = "aws"
git-branch = "main"
kind-cluster = "mgmt"
kind-context = "kind-mgmt"
registry-name = "krops-registry"
flux-namespace = "flux-system"
github-pat-secret = "flux-github-pat"
sops-age-secret = "sops-age"
mgmt-namespace = "default"
mgmt-context = "krops-mgmt"

[charts]
flux-operator = "0.58.0"
flux-instance = "0.58.0"
cert-manager = "v1.18.2"
capi-operator = "0.24.0"

[teardown]
cfn-stack-name = "cluster-api-provider-aws-sigs-k8s-io"
global-iam-roles = ["nodes.cluster-api-provider-aws.sigs.k8s.io"]
global-iam-users = ["bootstrapper.cluster-api-provider-aws.sigs.k8s.io"]
s3-bucket-pattern = "krops-{account_id}-{cluster_name}-data"

[environments.local-host]
kind = "local-host"
sync = "oci"
sync-path = "mgmt/local-host"
mgmt-cluster = "local-management"
mgmt-ready-timeout = "15m"
infra-provider-namespace = "capd-system"
infra-provider-name = "docker"
provider-manifests = ["mgmt/local-host/capi-providers/capd-system/providers.yaml"]

[environments.local-host.teardown]
capi-workloads = ["local-workload"]
mgmt-container-prefix = "local-management"

[environments.aws]
kind = "aws"
sync = "github"
sync-path = "mgmt/aws"
mgmt-cluster = "eu-north-1-management"
mgmt-ready-timeout = "40m"
infra-provider-namespace = "capa-system"
infra-provider-name = "aws"
provider-manifests = [
  "mgmt/aws/capi-providers/capi-system/namespace.yaml",
  "mgmt/aws/capi-providers/capi-system/providers.yaml",
  "mgmt/aws/capi-providers/capa-system/namespace.yaml",
  "mgmt/aws/capi-providers/capa-system/providers.yaml",
  "mgmt/aws/capi-providers/caaph-system/namespace.yaml",
  "mgmt/aws/capi-providers/caaph-system/addon-provider.yaml",
]

[[environments.aws.move-fallbacks]]
resource = "awsclustercontrolleridentities.infrastructure.cluster.x-k8s.io"
name = "default"
manifest = "mgmt/aws/infrastructure/aws-identity/identity.yaml"

[environments.aws.teardown]
mgmt-eks-cluster-name = "default_eu-north-1-management-control-plane"
mgmt-iam-role-prefix = "eu-north-1-management"

[[environments.aws.teardown.aws-workloads]]
region = "eu-north-1"
cluster-name = "eu-north-1-workload"
eks-cluster-name = "default_eu-north-1-workload-control-plane"
rds-instance = "eu-north-1-workload-db"

[environments.local-talos]
kind = "local-talos"
sync = "github"
sync-path = "mgmt/local-talos"
mgmt-cluster = "talos-management"
mgmt-ready-timeout = "30m"
infra-provider-namespace = "tinkerbell-system"
infra-provider-name = "tinkerbell"
provider-manifests = []

[environments.local-talos.teardown]
hardware-release = true
"##;

fn repository() -> BootstrapConfig {
    let config = read(REPOSITORY);
    config.validate().unwrap();
    config
}

fn variables(pairs: &[(&str, &str)]) -> Variables {
    Variables {
        entries: pairs
            .iter()
            .map(|(name, value)| (name.to_string(), value.to_string()))
            .collect(),
    }
}

fn cli(profile: Option<&str>) -> Cli {
    Cli {
        profile: profile.map(String::from),
        recreate: false,
    }
}

fn home() -> Option<String> {
    Some("/home/op".to_string())
}

fn config_from<'a>(
    repo: &'a BootstrapConfig,
    profile: Option<&str>,
    pairs: &[(&str, &str)],
) -> Config<'a> {
    match Config::from_env(&cli(profile), repo, &variables(pairs), &home()) {
        Ok(config) => config,
        Err(failure) => panic!("{failure:?}"),
    }
}

/// What one run did.
struct Seen {
    said: Vec<String>,
    reported: Vec<String>,
    lines: Vec<String>,
    failed: Option<String>,
    causes: Vec<String>,
}

impl Seen {
    fn ran(&self, part: &str) -> bool {
        self.lines.iter().any(|line| line.contains(part))
    }

    fn at(&self, part: &str) -> usize {
        match self.lines.iter().position(|line| line.contains(part)) {
            Some(index) => index,
            None => panic!("'{part}' did not run: {:?}", self.lines),
        }
    }

    fn last(&self, part: &str) -> usize {
        match self.lines.iter().rposition(|line| line.contains(part)) {
            Some(index) => index,
            None => panic!("'{part}' did not run: {:?}", self.lines),
        }
    }

    fn count(&self, part: &str) -> usize {
        self.lines.iter().filter(|line| line.contains(part)).count()
    }

    fn says(&self, part: &str) -> bool {
        self.said.iter().any(|line| line.contains(part))
    }

    fn reports(&self, part: &str) -> bool {
        self.reported.iter().any(|line| line.contains(part))
    }
}

fn command_of(action: &Action) -> Option<&Command> {
    match action {
        Action::Run(c) | Action::Quiet(c) | Action::Capture(c) | Action::Lossy(c) => Some(c),
        Action::Inspect(c) | Action::Follow(c) | Action::Feed(c, _) => Some(c),
        _ => None,
    }
}

fn line_of(action: &Action) -> String {
    match action {
        Action::Unfollow => "unfollow".to_string(),
        Action::Find(tool) => format!("find {tool}"),
        Action::Get(request) => format!("get {}", request.url),
        Action::Sleep(seconds) => format!("sleep {seconds}"),
        Action::Clock => "clock".to_string(),
        Action::ReadFile(path) => format!("read {path}"),
        Action::IsFile(path) => format!("is file {path}"),
        Action::Exists(path) => format!("exists {path}"),
        Action::MakeParent(path) => format!("parent {path}"),
        Action::WriteFile(path, _) => format!("write {path}"),
        Action::Restrict(path) => format!("restrict {path}"),
        Action::TempFile(_) => "temporary file".to_string(),
        Action::SetVar(name, value) => format!("set {name}={value}"),
        other => command_of(other).unwrap().line(),
    }
}

fn drive(cfg: &Config, script: Script, respond: &mut dyn FnMut(&Action) -> Reply) -> Seen {
    let mut seen = Seen {
        said: Vec::new(),
        reported: Vec::new(),
        lines: Vec::new(),
        failed: None,
        causes: Vec::new(),
    };
    let mut session = Session::new(cfg, script);
    for _ in 0..20_000 {
        match session.advance() {
            Move::Print(text) => seen.said.push(text),
            Move::PrintError(text) => seen.reported.push(text),
            Move::Finished => return seen,
            Move::Failed(failure) => {
                seen.failed = Some(failure.message);
                seen.causes = failure.causes;
                return seen;
            }
            Move::Act => {
                let action = session.action().unwrap();
                seen.lines.push(line_of(action));
                let reply = respond(action);
                session.settle(&reply);
            }
        }
    }
    panic!("the run does not end: {:?}", &seen.lines[seen.lines.len() - 10..])
}

fn reply(ok: bool, stdout: &str, stderr: &str) -> Reply {
    Reply {
        spawned: true,
        ok,
        status: if ok { "exit status: 0" } else { "exit status: 1" }.to_string(),
        stdout: stdout.to_string(),
        stderr: stderr.to_string(),
        http: 0,
        elapsed: 0,
    }
}

fn fine(stdout: &str) -> Reply {
    reply(true, stdout, "")
}

fn broken(stderr: &str) -> Reply {
    reply(false, "", stderr)
}

/// A process that was not started, or a file that was not created.
fn lost(stderr: &str) -> Reply {
    let mut reply = broken(stderr);
    reply.spawned = false;
    reply.status.clear();
    reply
}

fn unsatisfied(_: &Action) -> Reply {
    broken("The request could not be satisfied\n")
}

fn context(name: &str) -> K8sTarget {
    K8sTarget::Kind {
        context: name.to_string(),
    }
}

fn knobs(pairs: &[(&str, &str)]) -> TeardownConfig {
    TeardownConfig::from_env(&variables(pairs), &home()).unwrap()
}

fn no_github() -> Option<GithubContext> {
    None
}

// Container engines

#[test]
fn ensure_toolbox_container_host_sets_default_only_in_toolbox() {
    assert!(toolbox_container_host(false, false).is_none());
    assert_eq!(
        toolbox_container_host(true, false).unwrap(),
        "unix:///var/run/docker.sock"
    );
}

#[test]
fn ensure_toolbox_container_host_never_overrides_operator_value() {
    assert!(toolbox_container_host(true, true).is_none());
    assert!(toolbox_container_host(false, true).is_none());
}

/// Resolves the engine as a bootstrap does; the run is cut short after that.
fn resolve(pairs: &[(&str, &str)], respond: &mut dyn FnMut(&str) -> Reply) -> Seen {
    let repo = repository();
    let cfg = config_from(&repo, Some("local-host"), pairs);
    let script = resolve_engine(&cfg, &no_github());
    drive(&cfg, script, &mut |action| {
        let line = line_of(action);
        if line.starts_with("docker") || line.starts_with("podman") || line.starts_with("set") {
            respond(&line)
        } else {
            broken("stop here")
        }
    })
}

#[test]
fn detect_running_prefers_docker() {
    let seen = resolve(&[], &mut |line| {
        if line.starts_with("docker") {
            fine("")
        } else {
            broken("")
        }
    });
    assert!(seen.says("Using container engine: docker "));
    assert!(!seen.ran("podman"));
}

#[test]
fn detect_running_recognizes_podman_docker_shim() {
    let seen = resolve(&[("ENGINE_SOCK", "/s")], &mut |line| match line {
        "docker info" => fine(""),
        "docker --version" => fine("podman version 5.5.0\n"),
        _ => fine(""),
    });
    assert!(seen.says("Using container engine: podman (socket: /s)"));
}

#[test]
fn detect_running_falls_back_to_podman() {
    let seen = resolve(&[("ENGINE_SOCK", "/s")], &mut |line| {
        if line.starts_with("docker") {
            broken("")
        } else {
            fine("")
        }
    });
    assert!(seen.says("Using container engine: podman (socket: /s)"));
}

#[test]
fn detect_running_none_when_unreachable() {
    let seen = resolve(&[], &mut |_| broken(""));
    assert_eq!(
        seen.failed.unwrap(),
        "No running container engine found (tried docker and podman)"
    );
}

#[test]
fn resolve_docker_uses_standard_socket() {
    let seen = resolve(&[("CONTAINER_ENGINE", "docker")], &mut |line| {
        if line.starts_with("docker") {
            fine("")
        } else {
            broken("")
        }
    });
    assert!(seen.says(">>> Using container engine: docker (socket: /var/run/docker.sock)"));
}

#[test]
fn resolve_podman_inside_toolbox_never_queries_podman_info() {
    let seen = resolve(
        &[("CONTAINER_ENGINE", "podman"), ("KROPS_TOOLBOX", "1")],
        &mut |line| {
            if line.starts_with("podman info --format") {
                fine("unix:///var/run/docker.sock\n")
            } else {
                fine("")
            }
        },
    );
    assert!(seen.says("(socket: /run/podman/podman.sock)"));
    assert!(!seen.ran("podman info --format"));
    assert!(seen.ran("set KIND_EXPERIMENTAL_PROVIDER=podman"));
}

#[test]
fn resolve_podman_outside_toolbox_queries_podman_info() {
    let seen = resolve(&[("CONTAINER_ENGINE", "podman")], &mut |line| {
        if line.starts_with("podman info --format") {
            fine("unix:///run/user/1000/podman/podman.sock\n")
        } else {
            fine("")
        }
    });
    assert!(seen.says("(socket: /run/user/1000/podman/podman.sock)"));
}

#[test]
fn resolve_engine_sock_override_wins() {
    let seen = resolve(
        &[("CONTAINER_ENGINE", "docker"), ("ENGINE_SOCK", "/custom/sock")],
        &mut |_| fine(""),
    );
    assert!(seen.says("(socket: /custom/sock)"));
}

#[test]
fn resolve_bails_on_unsupported_engine() {
    let seen = resolve(&[("CONTAINER_ENGINE", "lxc")], &mut |_| fine(""));
    assert_eq!(
        seen.failed.unwrap(),
        "Unsupported CONTAINER_ENGINE 'lxc' (expected 'docker' or 'podman')"
    );
}

#[test]
fn resolve_bails_when_selected_engine_unreachable() {
    let seen = resolve(&[("CONTAINER_ENGINE", "docker")], &mut |_| broken(""));
    assert_eq!(seen.failed.unwrap(), "Docker daemon not running");
    let seen = resolve(&[("CONTAINER_ENGINE", "podman")], &mut |_| broken(""));
    assert_eq!(
        seen.failed.unwrap(),
        "Podman is not running (is 'podman machine' started?)"
    );
}

#[test]
fn the_version_is_compared_in_lower_case() {
    let repo = repository();
    let cfg = config_from(&repo, Some("local-host"), &[("ENGINE_SOCK", "/s")]);
    let seeker = Seeker::Preflight { github: None };
    let script = after_docker_version(&cfg, &seeker, &fine("PODMAN version 5.5.0\n"));
    let seen = drive(&cfg, script, &mut |action| match line_of(action).as_str() {
        "podman info" => fine(""),
        _ => broken("stop here"),
    });
    assert!(seen.says("Using container engine: podman"));
}

fn join(respond: &mut dyn FnMut(&str) -> Reply) -> Seen {
    let repo = repository();
    let cfg = config_from(&repo, Some("local-host"), &[("KROPS_TOOLBOX", "1")]);
    let script = join_network("docker", "kind", "abc123");
    drive(&cfg, script, &mut |action| respond(&line_of(action)))
}

#[test]
fn join_network_treats_existing_membership_as_success() {
    let seen = join(&mut |line| {
        if line.contains("network inspect") {
            fine("[{\"Containers\":{\"abc123\":{}}}]\n")
        } else {
            broken("")
        }
    });
    assert!(seen.failed.is_none());
    assert!(!seen.ran("connect"));
}

#[test]
fn join_network_connects_when_absent() {
    let seen = join(&mut |line| {
        if line.contains("network inspect") {
            fine("[{\"Containers\":{}}]\n")
        } else {
            fine("")
        }
    });
    assert!(seen.failed.is_none());
    assert!(seen.ran("network connect kind abc123"));
}

#[test]
fn join_network_propagates_genuine_failure() {
    let seen = join(&mut |line| {
        if line.contains("network inspect") {
            fine("[{\"Containers\":{}}]\n")
        } else {
            broken("no such network\n")
        }
    });
    assert!(seen.failed.unwrap().contains("no such network"));
}

#[test]
fn a_container_that_joined_meanwhile_is_attached() {
    let mut inspections = 0;
    let seen = join(&mut |line| {
        if line.contains("network inspect") {
            inspections += 1;
            if inspections == 1 {
                fine("[{\"Containers\":{}}]\n")
            } else {
                fine("[{\"Containers\":{\"abc123\":{}}}]\n")
            }
        } else {
            broken("endpoint exists already\n")
        }
    });
    assert!(seen.failed.is_none());
}

#[test]
fn the_toolbox_leaves_the_network_by_its_host_name() {
    let repo = repository();
    let cfg = config_from(&repo, Some("local-host"), &[("KROPS_TOOLBOX", "1")]);
    let script = toolbox_leave_kind_network(&cfg, "docker");
    let seen = drive(&cfg, script, &mut |action| match action {
        Action::ReadFile(path) => {
            assert_eq!(path, "/etc/hostname");
            fine("toolbox-7\n")
        }
        _ => broken("not attached"),
    });
    assert!(seen.failed.is_none());
    assert!(seen.ran("docker network disconnect kind toolbox-7"));
}

#[test]
fn a_teardown_goes_on_without_an_engine() {
    let repo = repository();
    let cfg = config_from(&repo, Some("local-host"), &[]);
    let script = detect_engine(&cfg, &knobs(&[]));
    let seen = drive(&cfg, script, &mut |_| broken(""));
    assert!(seen.ran("docker info"));
    assert!(seen.ran("podman info"));
    assert_ne!(
        seen.failed.as_deref(),
        Some("No running container engine found (tried docker and podman)")
    );
}

// Teardown

fn on_target(script: Script, respond: &mut dyn FnMut(&Action) -> Reply) -> Seen {
    let repo = repository();
    let cfg = config_from(&repo, Some("aws"), &[]);
    drive(&cfg, script, respond)
}

#[test]
fn failed_get_does_not_read_as_gone_for_capd_workloads() {
    let script = delete_capi_workloads(&context("ctx"), &vec!["w".to_string()], 30);
    let seen = on_target(script, &mut unsatisfied);
    let message = seen.failed.unwrap();
    assert!(message.contains("cannot confirm the state of CAPD workload cluster 'w'"));
}

#[test]
fn failed_discovery_does_not_report_aws_clusters_gone() {
    let script = delete_aws_workload_clusters(&context("ctx"), "mgmt", 30, false);
    assert!(on_target(script, &mut unsatisfied).failed.is_some());
    let script = delete_aws_workload_clusters(&context("ctx"), "mgmt", 30, true);
    assert!(on_target(script, &mut unsatisfied).failed.is_some());
}

/// Lists the management cluster and a workload first, and answers the polls as told.
fn aws_wait(force: bool, poll: &dyn Fn() -> Reply) -> Seen {
    let script = delete_aws_workload_clusters(&context("ctx"), "mgmt", 600, force);
    let mut listings = 0;
    on_target(script, &mut |action| {
        let line = line_of(action);
        if line.contains("get") && line.contains("clusters") {
            listings += 1;
            if listings == 1 {
                fine("cluster.cluster.x-k8s.io/mgmt\ncluster.cluster.x-k8s.io/w1\n")
            } else {
                poll()
            }
        } else {
            fine("")
        }
    })
}

#[test]
fn failed_poll_returns_false_during_aws_wait() {
    let poll = || broken("The request could not be satisfied\n");
    let seen = aws_wait(false, &poll);
    assert!(seen.ran("delete"));
    assert!(seen
        .failed
        .unwrap()
        .starts_with("teardown aborted: CAPI workload clusters did not finish deleting"));
    assert!(aws_wait(true, &poll).failed.is_none());
}

#[test]
fn confirmed_gone_still_returns_true_for_aws() {
    let seen = aws_wait(false, &|| fine("cluster.cluster.x-k8s.io/mgmt\n"));
    assert!(seen.failed.is_none());
    assert!(seen.ran("delete cluster w1"));
    assert!(!seen.ran("delete cluster mgmt"));
}

#[test]
fn the_aws_wait_ends_when_its_time_is_over() {
    let late = || {
        let mut late = fine("cluster.cluster.x-k8s.io/mgmt\ncluster.cluster.x-k8s.io/w1\n");
        late.elapsed = 601;
        late
    };
    let seen = aws_wait(false, &late);
    assert!(seen.failed.unwrap().starts_with("teardown aborted"));
}

#[test]
fn kind_target_binds_the_explicit_context_not_the_current_one() {
    let seen = on_target(suspend_flux(&context("kind-mgmt")), &mut |_| fine(""));
    assert!(seen.failed.is_none());
    assert!(seen.ran("--context kind-mgmt"));
    assert!(!seen.ran("--kubeconfig"));
}

#[test]
fn self_managed_target_binds_the_kubeconfig() {
    let target = K8sTarget::SelfManaged {
        kubeconfig: "/tmp/mgmt.yaml".to_string(),
    };
    let seen = on_target(suspend_flux(&target), &mut |_| fine(""));
    assert!(seen.failed.is_none());
    assert!(seen.ran("--kubeconfig /tmp/mgmt.yaml"));
    assert!(!seen.ran("--context"));
}

#[test]
fn helm_targets_kind_with_kube_context_not_bare_context() {
    let seen = on_target(uninstall_helm("flux", &context("ctx")), &mut |_| {
        fine("NAME: flux\nSTATUS: deployed\n")
    });
    assert!(seen.ran("--kube-context ctx"));
    assert!(!seen
        .lines
        .iter()
        .any(|line| line.split_whitespace().any(|word| word == "--context")));
    assert!(seen.ran("uninstall flux"));
}

#[test]
fn failed_flux_listing_aborts_suspension() {
    let seen = on_target(suspend_flux(&context("ctx")), &mut unsatisfied);
    assert!(seen
        .failed
        .unwrap()
        .contains("cannot list the Flux Kustomizations"));
}

#[test]
fn failed_provider_listing_aborts_provider_deletion() {
    let seen = on_target(delete_capi_providers(&context("ctx"), 30), &mut unsatisfied);
    assert!(seen
        .failed
        .unwrap()
        .contains("cannot list the CAPI addonproviders providers"));
}

#[test]
fn probe_passes_the_request_timeout_to_kubectl() {
    let script = delete_aws_workload_clusters(&context("ctx"), "mgmt", 30, false);
    let seen = on_target(script, &mut |_| fine(""));
    assert!(seen.failed.is_none());
    assert!(seen.ran("--request-timeout=30s"));
    let script = delete_capi_workloads(&context("ctx"), &vec!["w".to_string()], 30);
    let seen = on_target(script, &mut |_| fine(""));
    assert!(seen.ran("--request-timeout=30s"));
}

// Whole runs

const AGE_KEY: &str = "# created: 2026-01-01T00:00:00+02:00\n# public key: age1qqqqqqqqqqqqqqqqqqqqqqqqqqqqqqqqqqqqqqqqqqqqqqqqqqqqqqqqqq\nAGE-SECRET-KEY-1SECRETSECRETSECRET\n";

const GITHUB: &[(&str, &str)] = &[
    ("GITHUB_TOKEN", "ghp_token"),
    ("GIT_REPO_URL", "https://github.com/polarsquad/krops.git"),
];

/// A world in which everything that a bootstrap does succeeds.
fn helpful(action: &Action) -> Reply {
    let line = line_of(action);
    match action {
        Action::Get(_) => {
            let mut found = fine("");
            found.http = 200;
            found
        }
        Action::ReadFile(_) => fine(AGE_KEY),
        Action::TempFile(_) => fine("/tmp/config.json"),
        Action::Capture(_) | Action::Lossy(_) => match line.as_str() {
            "kubectl config current-context" => fine("kind-mgmt\n"),
            "docker --version" => fine("Docker version 28.0.1, build 068a01e\n"),
            "docker port krops-registry 5000/tcp" => fine("127.0.0.1:5001\n"),
            "docker port local-workload-lb 6443/tcp" => fine("0.0.0.0:32771\n"),
            "docker port local-management-lb 6443/tcp" => fine("0.0.0.0:32772\n"),
            _ if line.contains("get clusters -n default") => {
                fine("cluster.cluster.x-k8s.io/eu-north-1-management\n")
            }
            _ if line.starts_with("clusterctl get kubeconfig") => {
                fine("clusters:\n- cluster:\n    server: https://172.18.0.4:6443\n")
            }
            _ if line.contains("config current-context") => fine("admin@mgmt\n"),
            _ if line.contains("get kustomizations") => {
                fine("kustomization.kustomize.toolkit.fluxcd.io/flux-system\n")
            }
            _ => fine(""),
        },
        _ => fine(""),
    }
}

#[test]
fn an_aws_bootstrap_pivots_and_removes_kind_last() {
    let repo = repository();
    let cfg = config_from(&repo, Some("aws"), GITHUB);
    let seen = drive(&cfg, run_bootstrap(&cfg), &mut helpful);
    assert_eq!(seen.failed, None);
    for tool in ["kind", "helm", "kubectl", "clusterctl", "mise"] {
        assert!(seen.at(&format!("find {tool}")) < seen.at("get https://api.github.com"));
    }
    assert!(seen.ran("get https://api.github.com/repos/polarsquad/krops/branches/main"));
    assert!(seen.at("get https://api.github.com") < seen.at("kind create cluster"));
    assert!(seen.at("kind create cluster") < seen.at("clusterctl move"));
    assert!(seen.at("clusterctl move") < seen.last("get clusters -n default"));
    assert!(seen.last("get clusters -n default") < seen.at("kind delete cluster"));
    assert_eq!(seen.count("kind delete cluster"), 1);
    assert!(!seen.lines.iter().any(|line| line.contains("ghp_token")));
    assert!(!seen.lines.iter().any(|line| line.contains("AGE-SECRET-KEY")));
    assert!(seen.says(">>> Pivot complete: the management cluster is self-managed."));
}

#[test]
fn a_bootstrap_without_pivot_keeps_kind() {
    let repo = repository();
    let mut pairs = GITHUB.to_vec();
    pairs.push(("BOOTSTRAP_PIVOT", "0"));
    let cfg = config_from(&repo, Some("aws"), &pairs);
    let seen = drive(&cfg, run_bootstrap(&cfg), &mut helpful);
    assert_eq!(seen.failed, None);
    assert!(!seen.ran("clusterctl move"));
    assert!(!seen.ran("kind delete cluster"));
}

/// A world in which there is a kind cluster already.
fn bootstrapped(action: &Action) -> Reply {
    match line_of(action).as_str() {
        "kind get clusters" => fine("other\nmgmt\n"),
        _ => helpful(action),
    }
}

#[test]
fn an_existing_cluster_is_reused() {
    let repo = repository();
    let mut pairs = GITHUB.to_vec();
    pairs.push(("BOOTSTRAP_PIVOT", "0"));
    let cfg = config_from(&repo, Some("aws"), &pairs);
    let seen = drive(&cfg, run_bootstrap(&cfg), &mut bootstrapped);
    assert_eq!(seen.failed, None);
    assert!(!seen.ran("kind create"));
    assert!(!seen.ran("kind delete"));
    assert!(seen.says(">>> Reusing existing kind cluster 'mgmt'"));
    let seen = drive(&cfg, run_bootstrap(&cfg), &mut |action| {
        if line_of(action).contains("kubectl wait --for=condition=Ready node") {
            broken("")
        } else {
            bootstrapped(action)
        }
    });
    assert_eq!(
        seen.failed.unwrap(),
        "existing kind cluster 'mgmt' is not healthy (context unreachable or nodes not Ready within 120s); rerun with --recreate to replace it"
    );
    assert!(!seen.lines.iter().any(|line| line.starts_with("kind create")));
}

#[test]
fn an_existing_cluster_is_recreated_on_demand() {
    let repo = repository();
    let mut pairs = GITHUB.to_vec();
    pairs.push(("BOOTSTRAP_PIVOT", "0"));
    let mut cfg = config_from(&repo, Some("aws"), &pairs);
    cfg.recreate = true;
    let seen = drive(&cfg, run_bootstrap(&cfg), &mut bootstrapped);
    assert_eq!(seen.failed, None);
    assert!(seen.at("kind delete cluster --name mgmt") < seen.at("kind create cluster"));
}

#[test]
fn a_kept_kind_cluster_is_not_deleted() {
    let repo = repository();
    let mut pairs = GITHUB.to_vec();
    pairs.push(("PIVOT_SKIP_DELETE", "1"));
    let cfg = config_from(&repo, Some("aws"), &pairs);
    let seen = drive(&cfg, run_bootstrap(&cfg), &mut helpful);
    assert_eq!(seen.failed, None);
    assert!(seen.ran("clusterctl move"));
    assert!(!seen.ran("kind delete cluster"));
    assert!(seen.says("PIVOT_SKIP_DELETE=1: keeping the kind bootstrap cluster"));
}

#[test]
fn a_local_bootstrap_serves_its_registry_first() {
    let repo = repository();
    let cfg = config_from(&repo, Some("local-host"), &[("CONTAINER_ENGINE", "docker")]);
    let seen = drive(&cfg, run_bootstrap(&cfg), &mut helpful);
    assert_eq!(seen.failed, None);
    assert!(!seen.ran("api.github.com"));
    assert!(seen.ran("find flux"));
    assert!(seen.ran("find curl"));
    assert!(seen.at("get http://localhost:5001/v2/") < seen.at("clusterctl move"));
    assert!(seen.last("get http://localhost:5001/v2/") < seen.at("kind delete cluster"));
}

#[test]
fn missing_tools_are_named_together() {
    let repo = repository();
    let cfg = config_from(&repo, Some("aws"), GITHUB);
    let seen = drive(&cfg, preflight_checks(&cfg), &mut |action| match action {
        Action::Find(tool) if tool == "helm" || tool == "mise" => broken(""),
        other => helpful(other),
    });
    assert_eq!(
        seen.failed.unwrap(),
        "missing required tools in PATH: helm, mise"
    );
    assert_eq!(seen.lines.len(), 5);
}

#[test]
fn the_github_preflight_names_what_is_missing() {
    let repo = repository();
    let refusal = |pairs: &[(&str, &str)], world: &mut dyn FnMut(&Action) -> Reply| {
        let cfg = config_from(&repo, Some("aws"), pairs);
        drive(&cfg, preflight_checks(&cfg), world).failed.unwrap()
    };
    assert_eq!(
        refusal(&[], &mut helpful),
        "GITHUB_TOKEN must be set (a PAT with read access to the repo)"
    );
    assert_eq!(
        refusal(&[("GITHUB_TOKEN", "t")], &mut helpful),
        "GIT_REPO_URL must be set"
    );
    assert_eq!(
        refusal(
            &[("GITHUB_TOKEN", "t"), ("GIT_REPO_URL", "git@github.com:a/b.git")],
            &mut helpful
        ),
        "GIT_REPO_URL must be an HTTPS GitHub repository URL"
    );
    assert_eq!(
        refusal(GITHUB, &mut |action| match action {
            Action::Get(_) => {
                let mut lost = broken("");
                lost.http = 404;
                lost
            }
            other => helpful(other),
        }),
        "GitHub repository or branch 'main' is unavailable at 'https://github.com/polarsquad/krops.git' (HTTP 404)"
    );
    assert!(refusal(GITHUB, &mut |action| match action {
        Action::IsFile(_) => broken(""),
        other => helpful(other),
    })
    .starts_with("age key file not found at 'age.agekey'."));
    assert_eq!(
        refusal(GITHUB, &mut |action| match action {
            Action::ReadFile(_) => broken("denied"),
            other => helpful(other),
        }),
        "failed to read 'age.agekey'"
    );
    assert_eq!(
        refusal(GITHUB, &mut |action| match action {
            Action::ReadFile(_) => fine("# created: now\nAGE-SECRET-KEY-1X\n"),
            other => helpful(other),
        })
        .lines()
        .last(),
        Some("       Missing: # public key: comment")
    );
}

#[test]
fn a_branch_with_a_slash_is_one_path_segment() {
    let mut repo = repository();
    repo.bootstrap.git_branch = "team/next".to_string();
    let cfg = config_from(&repo, Some("aws"), GITHUB);
    let seen = drive(&cfg, preflight_checks(&cfg), &mut |action| match action {
        Action::Get(_) => broken(""),
        other => helpful(other),
    });
    assert!(seen.ran("branches/team%2Fnext"));
    assert!(seen.failed.unwrap().ends_with("(HTTP 0)"));
}

fn preflight() -> Preflight {
    Preflight {
        engine: "docker".to_string(),
        engine_sock: "/var/run/docker.sock".to_string(),
        github: Some(GithubContext {
            git_repo_url: "https://github.com/polarsquad/krops".to_string(),
            github_user: "git".to_string(),
            github_token: "ghp_token".to_string(),
            age_key_content: AGE_KEY.to_string(),
            age_pubkey: "age1q".to_string(),
        }),
    }
}

#[test]
fn kind_is_kept_while_the_target_owns_no_clusters() {
    let repo = repository();
    let cfg = config_from(&repo, Some("aws"), &[]);
    let script = pivot_delete_bootstrap_cluster(&cfg);
    let seen = drive(&cfg, script, &mut |_| fine("\n"));
    assert_eq!(
        seen.failed.as_deref(),
        Some("no Clusters on the management cluster; refusing to delete kind")
    );
    assert!(!seen.ran("kind delete"));
}

#[test]
fn a_pivot_refuses_another_context() {
    let repo = repository();
    let cfg = config_from(&repo, Some("aws"), &[]);
    let seen = drive(&cfg, run_pivot(&cfg, &preflight()), &mut |action| {
        match line_of(action).as_str() {
            "kubectl config current-context" => fine("elsewhere\n"),
            _ => helpful(action),
        }
    });
    let message = seen.failed.unwrap();
    assert!(message.contains("current kubectl context is 'elsewhere', expected 'kind-mgmt'"));
    assert_eq!(seen.lines.len(), 1);
}

#[test]
fn a_pivot_waits_for_the_management_cluster_until_its_time_is_over() {
    assert_eq!(attempts(2400, 10), 240);
    assert_eq!(attempts(5, 10), 1);
    let repo = repository();
    let cfg = config_from(
        &repo,
        Some("aws"),
        &[("MGMT_READY_TIMEOUT", "30s"), ("MGMT_POLL_INTERVAL", "10")],
    );
    let seen = drive(&cfg, run_pivot(&cfg, &preflight()), &mut |action| {
        if line_of(action).contains("secret/eu-north-1-management-kubeconfig") {
            broken("")
        } else {
            helpful(action)
        }
    });
    assert!(seen
        .failed
        .as_deref()
        .unwrap()
        .starts_with("management cluster kubeconfig not available within "));
    assert_eq!(seen.count("secret/eu-north-1-management-kubeconfig"), 4);
    assert!(!seen.ran("clusterctl move"));
}

#[test]
fn placeholders_without_a_value_stop_the_pivot() {
    let mut document = REPOSITORY.to_string();
    document = document.replace(
        "infra-provider-name = \"aws\"\n",
        "infra-provider-name = \"aws\"\npivot-manifests = [\"mgmt/aws/creds.yaml\"]\n",
    );
    let repo = read(&document);
    let cfg = config_from(&repo, Some("aws"), &[]);
    let world = |listing: &'static str| {
        move |action: &Action| {
            let line = line_of(action);
            if line.contains("configmaps") {
                fine(listing)
            } else if line == "read mgmt/aws/creds.yaml" {
                fine("tenant: ${TENANT}\n")
            } else {
                helpful(action)
            }
        }
    };
    let seen = drive(
        &cfg,
        run_pivot(&cfg, &preflight()),
        &mut world("{\"items\":[{\"data\":{}}]}"),
    );
    let message = seen.failed.as_deref().unwrap();
    assert!(message.starts_with("no ConfigMap in "), "{message}");
    assert!(message.contains("TENANT"));
    assert!(!seen.ran("clusterctl move"));
    let seen = drive(
        &cfg,
        run_pivot(&cfg, &preflight()),
        &mut world("{\"items\":[{\"data\":{\"TENANT\":\"t-1\"}}]}"),
    );
    assert_eq!(seen.failed, None);
}

#[test]
fn a_placeholder_without_a_value_moves_nothing_in_a_bootstrap() {
    let repo = read(&REPOSITORY.replace(
        "infra-provider-name = \"aws\"\n",
        "infra-provider-name = \"aws\"\npivot-manifests = [\"mgmt/aws/creds.yaml\"]\n",
    ));
    let cfg = config_from(&repo, Some("aws"), GITHUB);
    let bootstrap = |listing: &'static str| {
        let mut fed: Vec<(usize, String)> = Vec::new();
        let mut count = 0;
        let seen = drive(&cfg, run_bootstrap(&cfg), &mut |action| {
            let line = line_of(action);
            if let Action::Feed(_, text) = action {
                fed.push((count, text.clone()));
            }
            count += 1;
            if line.contains("configmaps") {
                fine(listing)
            } else if line == "read mgmt/aws/creds.yaml" {
                fine("tenant: ${TENANT}\n")
            } else {
                helpful(action)
            }
        });
        (seen, fed)
    };
    let (seen, _) = bootstrap("{\"items\":[]}");
    assert!(seen.failed.is_some());
    assert!(!seen.ran("clusterctl move"));
    let (seen, fed) = bootstrap("{\"items\":[{\"data\":{\"TENANT\":\"t-1\"}}]}");
    assert_eq!(seen.failed, None);
    let applied = fed.iter().find(|(_, text)| text == "tenant: t-1\n").unwrap().0;
    assert!(applied < seen.at("clusterctl move"));
}

#[test]
fn secrets_are_applied_before_the_move() {
    let repo = read(&REPOSITORY.replace(
        "infra-provider-name = \"aws\"\n",
        "infra-provider-name = \"aws\"\npivot-sops-secrets = [\"mgmt/aws/secret.yaml\"]\n",
    ));
    let cfg = config_from(&repo, Some("aws"), GITHUB);
    let mut fed: Vec<(usize, String)> = Vec::new();
    let mut count = 0;
    let seen = drive(&cfg, run_bootstrap(&cfg), &mut |action| {
        if let Action::Feed(_, text) = action {
            fed.push((count, text.clone()));
        }
        count += 1;
        match line_of(action).as_str() {
            "sops --decrypt mgmt/aws/secret.yaml" => fine("kind: Secret\n"),
            _ => helpful(action),
        }
    });
    assert_eq!(seen.failed, None);
    let applied = fed.iter().find(|(_, text)| text == "kind: Secret\n").unwrap().0;
    assert!(seen.at("sops --decrypt mgmt/aws/secret.yaml") < applied);
    assert!(applied < seen.at("clusterctl move"));
    let seen = drive(&cfg, run_bootstrap(&cfg), &mut |action| {
        match line_of(action).as_str() {
            "sops --decrypt mgmt/aws/secret.yaml" => broken("no key"),
            _ => helpful(action),
        }
    });
    assert!(seen.failed.is_some());
    assert!(!seen.ran("clusterctl move"));
}

#[test]
fn flux_in_kind_is_suspended_before_the_move() {
    let repo = repository();
    let cfg = config_from(&repo, Some("aws"), GITHUB);
    let patch = "kubectl patch kustomization.kustomize.toolkit.fluxcd.io/flux-system -n flux-system";
    let seen = drive(&cfg, run_bootstrap(&cfg), &mut helpful);
    assert_eq!(seen.failed, None);
    assert!(seen.at(patch) < seen.at("clusterctl move"));
    let seen = drive(&cfg, run_bootstrap(&cfg), &mut |action| {
        if line_of(action).starts_with(patch) {
            broken("conflict")
        } else {
            helpful(action)
        }
    });
    assert!(seen.failed.is_some());
    assert!(!seen.ran("clusterctl move"));
}

#[test]
fn charts_are_installed_after_the_task_of_the_kind_cluster() {
    let repo = read(&REPOSITORY.replace(
        "infra-provider-name = \"aws\"\n",
        "infra-provider-name = \"aws\"\npost-kind-create-task = \"setup-network\"\n",
    ));
    let mut pairs = GITHUB.to_vec();
    pairs.push(("BOOTSTRAP_PIVOT", "0"));
    let cfg = config_from(&repo, Some("aws"), &pairs);
    let seen = drive(&cfg, run_bootstrap(&cfg), &mut helpful);
    assert_eq!(seen.failed, None);
    assert!(seen.at("kind create cluster") < seen.at("run setup-network"));
    assert!(seen.at("run setup-network") < seen.at("helm upgrade"));
    let seen = drive(&cfg, run_bootstrap(&cfg), &mut bootstrapped);
    assert!(seen.at("run setup-network") < seen.at("helm upgrade"));
    let seen = drive(&cfg, run_bootstrap(&cfg), &mut |action| {
        if line_of(action).contains("run setup-network") {
            broken("")
        } else {
            helpful(action)
        }
    });
    assert!(seen.failed.is_some());
    assert!(!seen.ran("helm upgrade"));
}

#[test]
fn secrets_reach_kubectl_on_standard_input() {
    let repo = repository();
    let cfg = config_from(&repo, Some("aws"), &[]);
    let github = preflight().github.unwrap();
    let script = create_github_secrets(&cfg, &github, &None);
    let mut fed: Vec<String> = Vec::new();
    let seen = drive(&cfg, script, &mut |action| {
        if let Action::Feed(_, text) = action {
            fed.push(text.clone());
        }
        fine("")
    });
    assert_eq!(seen.failed, None);
    assert!(!seen.ran("ghp_token"));
    assert!(!seen.ran("AGE-SECRET-KEY"));
    assert!(fed.iter().any(|text| text.contains("ghp_token")));
    assert!(fed.iter().any(|text| text.contains("AGE-SECRET-KEY")));
    for text in &fed {
        let parsed: serde_json::Value = serde_json::from_str(text).unwrap();
        assert_eq!(parsed["kind"], "Secret");
    }
}

#[test]
fn the_flux_instance_syncs_from_the_declared_source() {
    let repo = repository();
    let aws = config_from(&repo, Some("aws"), &[]);
    let line = flux_instance_command(&aws, &preflight().github, "0.58.0", "/tmp/c.json", &None)
        .line();
    assert!(line.contains("https://github.com/polarsquad/krops"));
    assert!(line.contains("mgmt/aws"));
    assert!(line.contains("flux-github-pat"));
    assert!(!line.contains("ghp_token"));
    let local = config_from(&repo, Some("local-host"), &[]);
    let line = flux_instance_command(&local, &None, "0.58.0", "/tmp/c.json", &None).line();
    assert!(line.contains("OCIRepository"));
    assert!(line.contains("krops-registry"));
}

#[test]
fn the_registry_is_known_to_the_cluster() {
    let manifest = registry_manifest("krops-registry");
    assert_eq!(manifest["apiVersion"], "v1");
    assert!(manifest.to_string().contains("krops-registry"));
    assert_eq!(
        serde_json::from_str::<serde_json::Value>(&manifest.to_string()).unwrap(),
        manifest
    );
}

#[test]
fn a_bootstrap_reports_controllers_that_are_not_ready() {
    let repo = repository();
    let cfg = config_from(&repo, Some("aws"), &[("BOOTSTRAP_PIVOT", "0")]);
    let seen = drive(&cfg, finish_bootstrap(&cfg, &preflight(), false), &mut helpful);
    assert!(!seen.ran("clusterctl move"));
    let ready = drive(&cfg, finish_bootstrap(&cfg, &preflight(), true), &mut helpful);
    assert_ne!(
        (seen.said, seen.reported, seen.failed),
        (ready.said, ready.reported, ready.failed)
    );
}

// Whole teardowns

#[test]
fn a_manual_teardown_does_nothing() {
    let document = REPOSITORY.replace(
        "hardware-release = true",
        "hardware-release = true\nmanual = \"by hand\"",
    );
    let repo = read(&document);
    let cfg = config_from(&repo, Some("local-talos"), &[]);
    let seen = drive(&cfg, run_teardown(&cfg, &knobs(&[])), &mut helpful);
    assert_eq!(
        seen.failed.unwrap(),
        "teardown is manual for the 'local-talos' environment:\nby hand"
    );
    assert!(seen.lines.is_empty());
}

#[test]
fn aws_only_needs_the_aws_profile_and_the_aws_cli() {
    let repo = repository();
    let refusal = |profile: &str, found: bool| {
        let cfg = config_from(&repo, Some(profile), &[]);
        let script = run_teardown(&cfg, &knobs(&[("AWS_ONLY", "1")]));
        let seen = drive(&cfg, script, &mut |_| reply(found, "", ""));
        seen.failed
    };
    assert_eq!(
        refusal("aws", false).unwrap(),
        "aws CLI not found in PATH (required for AWS_ONLY mode)"
    );
    assert!(refusal("local-host", true)
        .unwrap()
        .starts_with("AWS_ONLY=1 cannot be combined with the local-host profile"));
    assert!(refusal("local-talos", true)
        .unwrap()
        .starts_with("AWS_ONLY=1 cannot be combined with the local-talos profile"));
    assert_eq!(refusal("aws", true), None);
}

#[test]
fn aws_only_touches_no_cluster() {
    let repo = repository();
    let cfg = config_from(&repo, Some("aws"), &[]);
    let script = run_teardown(&cfg, &knobs(&[("AWS_ONLY", "1")]));
    let seen = drive(&cfg, script, &mut |_| fine(""));
    assert_eq!(seen.failed, None);
    assert!(!seen.ran("kubectl"));
    assert!(!seen.ran("kind"));
    assert!(seen.ran("aws eks"));
}

#[test]
fn a_missing_teardown_tool_is_named() {
    let repo = repository();
    let refusal = |profile: &str, lost: &str| {
        let cfg = config_from(&repo, Some(profile), &[]);
        let seen = drive(&cfg, run_teardown(&cfg, &knobs(&[])), &mut |action| {
            match action {
                Action::Find(tool) if tool == lost => broken(""),
                _ => fine(""),
            }
        });
        seen.failed
    };
    assert_eq!(refusal("aws", "helm").unwrap(), "helm not found in PATH");
    assert_eq!(refusal("local-host", "kind").unwrap(), "kind not found in PATH");
    assert_eq!(refusal("local-talos", "helm"), None);
}

/// A world with a kind controller host whose workloads go away when they are deleted.
fn kind_host(cluster: &'static str, stubborn: bool) -> impl FnMut(&Action) -> Reply {
    let mut deleted = false;
    move |action: &Action| {
        let line = line_of(action);
        if line.contains("config get-contexts") {
            fine("kind-mgmt\n")
        } else if line.contains("get clusters -A -o name") {
            if deleted && !stubborn {
                fine("cluster.cluster.x-k8s.io/eu-north-1-management\n")
            } else {
                let mut listed = fine(&format!("cluster.cluster.x-k8s.io/{cluster}\n"));
                listed.elapsed = 5000;
                listed
            }
        } else if line.contains(&format!("delete cluster {cluster}")) {
            deleted = true;
            fine("")
        } else {
            fine("")
        }
    }
}

#[test]
fn an_aws_teardown_removes_the_host_after_the_workloads() {
    let repo = repository();
    let cfg = config_from(&repo, Some("aws"), &[]);
    let script = run_teardown(&cfg, &knobs(&[]));
    let seen = drive(&cfg, script, &mut kind_host("eu-north-1-workload", false));
    assert_eq!(seen.failed, None);
    let gone = seen.last("get clusters -A -o name");
    assert!(seen.at("delete cluster eu-north-1-workload") < gone);
    assert!(gone < seen.at("kind delete cluster --name mgmt"));
    assert!(!seen.ran("delete cluster eu-north-1-management"));
}

#[test]
fn flux_is_suspended_before_a_cluster_is_deleted() {
    let repo = repository();
    for (profile, cluster) in [("aws", "eu-north-1-workload"), ("local-talos", "talos-workload")] {
        let cfg = config_from(&repo, Some(profile), &[]);
        let teardown = |flux: &dyn Fn() -> Reply| {
            let mut deleted = false;
            drive(&cfg, run_teardown(&cfg, &knobs(&[])), &mut |action| {
                let line = line_of(action);
                if line.contains("config get-contexts") {
                    fine("kind-mgmt\n")
                } else if line.contains("get kustomizations") {
                    flux()
                } else if line.contains("get clusters -A -o name") && !deleted {
                    fine(&format!("cluster.cluster.x-k8s.io/{cluster}\n"))
                } else {
                    deleted = deleted || line.contains("delete cluster");
                    fine("")
                }
            })
        };
        let listed = || fine("kustomization.kustomize.toolkit.fluxcd.io/apps\n");
        let seen = teardown(&listed);
        assert_eq!(seen.failed, None, "{profile}");
        let suspended = seen.at("--context kind-mgmt patch kustomization/apps");
        assert!(suspended < seen.at("--context kind-mgmt delete cluster"), "{profile}");
        let seen = teardown(&|| broken("connection refused"));
        assert!(seen.failed.is_some(), "{profile}");
        assert!(!seen.ran("delete cluster"), "{profile}");
    }
}

#[test]
fn a_stubborn_workload_keeps_the_host() {
    let repo = repository();
    let cfg = config_from(&repo, Some("aws"), &[]);
    let script = run_teardown(&cfg, &knobs(&[]));
    let seen = drive(&cfg, script, &mut kind_host("eu-north-1-workload", true));
    assert!(seen.failed.as_deref().unwrap().starts_with("teardown aborted"));
    assert!(!seen.ran("kind delete"));
    assert!(!seen.ran("aws eks delete"));
    assert!(seen.says("[\"eu-north-1-workload\"]") || seen.reports("[\"eu-north-1-workload\"]"));
}

#[test]
fn force_removes_the_host_anyway() {
    let repo = repository();
    let cfg = config_from(&repo, Some("aws"), &[]);
    let script = run_teardown(&cfg, &knobs(&[("FORCE_KIND_DELETE", "1")]));
    let seen = drive(&cfg, script, &mut kind_host("eu-north-1-workload", true));
    assert_eq!(seen.failed, None);
    assert!(seen.ran("kind delete cluster --name mgmt"));
}

#[test]
fn a_local_teardown_removes_kind_after_the_workload() {
    let repo = repository();
    let cfg = config_from(&repo, Some("local-host"), &[]);
    let mut deleted = false;
    let seen = drive(&cfg, run_teardown(&cfg, &knobs(&[])), &mut |action| {
        let line = line_of(action);
        if line == "kind get clusters" {
            fine("mgmt\n")
        } else if line.contains("delete cluster local-workload") {
            deleted = true;
            fine("")
        } else if line.contains("get cluster local-workload") {
            if deleted {
                broken("Error from server (NotFound): clusters \"local-workload\" not found")
            } else {
                fine("local-workload\n")
            }
        } else {
            fine("")
        }
    });
    assert_eq!(seen.failed, None);
    let suspended = seen.at("--context kind-mgmt patch kustomization/docker-workload-cluster");
    assert!(suspended < seen.at("delete cluster local-workload"));
    assert!(seen.at("delete cluster local-workload") < seen.last("get cluster local-workload"));
    assert!(seen.last("get cluster local-workload") < seen.at("kind delete cluster --name mgmt"));
    assert!(seen.ran("krops-registry"));
}

#[test]
fn hardware_is_released_before_kind_is_deleted() {
    let repo = repository();
    let cfg = config_from(&repo, Some("local-talos"), &[]);
    let script = run_teardown(&cfg, &knobs(&[]));
    let mut listings = 0;
    let seen = drive(&cfg, script, &mut |action| {
        let line = line_of(action);
        if line.contains("config get-contexts") {
            fine("kind-mgmt\n")
        } else if line.contains("get clusters -A -o name") {
            listings += 1;
            if listings == 1 {
                fine("cluster.cluster.x-k8s.io/talos-management\n")
            } else {
                fine("")
            }
        } else {
            fine("")
        }
    });
    assert_eq!(seen.failed, None);
    assert!(seen.last("get clusters -A -o name") < seen.at("kind delete cluster"));
    assert!(seen.says("The machine was NOT wiped"));
    assert!(!seen.ran("aws eks"));
}

#[test]
fn nothing_is_released_without_a_controller_host() {
    let repo = repository();
    let cfg = config_from(&repo, Some("local-talos"), &[]);
    let seen = drive(&cfg, run_teardown(&cfg, &knobs(&[])), &mut |action| match action {
        Action::Find(_) => fine(""),
        _ => broken(""),
    });
    assert_eq!(seen.failed, None);
    assert!(seen.says(">>> No reachable controller host; nothing to release"));
    assert!(!seen.ran("delete"));
}

// The sweep

#[test]
fn a_sweep_survives_every_failure_and_stays_in_its_regions() {
    let repo = repository();
    let cfg = config_from(&repo, Some("aws"), &[]);
    let worlds: [fn(&Action) -> Reply; 3] = [
        |_| broken("AccessDenied"),
        |_| fine(""),
        |action| match action {
            Action::Lossy(_) | Action::Capture(_) | Action::Inspect(_) => fine("found-1\tfound-2\n"),
            _ => broken("DependencyViolation"),
        },
    ];
    for mut world in worlds {
        let seen = drive(&cfg, sweep(&cfg), &mut world);
        assert_eq!(seen.failed, None);
        for line in &seen.lines {
            if let Some((_, region)) = line.split_once("--region ") {
                assert!(region.starts_with("eu-north-1"), "{line}");
            }
            assert!(line.starts_with("aws ") || line.starts_with("sleep "), "{line}");
        }
    }
}

#[test]
fn a_sweep_empties_a_vpc_before_it_deletes_it() {
    let repo = repository();
    let cfg = config_from(&repo, Some("aws"), &[]);
    let seen = drive(&cfg, sweep(&cfg), &mut |action| {
        let line = line_of(action);
        if line.contains("describe-vpcs") {
            fine("vpc-1\n")
        } else if line.contains("describe-subnets") {
            fine("subnet-1\tsubnet-2\n")
        } else {
            fine("")
        }
    });
    assert_eq!(seen.failed, None);
    assert!(seen.at("delete-subnet --region eu-north-1 --subnet-id subnet-1") < seen.at("delete-vpc --region eu-north-1 --vpc-id vpc-1"));
    assert!(seen.ran("delete-subnet --region eu-north-1 --subnet-id subnet-2"));
}

#[test]
fn the_parts_of_a_vpc_go_in_order() {
    let repo = repository();
    let cfg = config_from(&repo, Some("aws"), &[]);
    let script = cleanup_vpc("vpc-1", "eu-north-1", "owned-by-krops");
    let seen = drive(&cfg, script, &mut |action| {
        let line = line_of(action);
        if line.contains("describe-nat-gateways") {
            fine("nat-1\tnat-2\n")
        } else if line.contains("describe-addresses") {
            fine("eipalloc-1\n")
        } else if line.contains("describe-subnets") {
            fine("subnet-1\n")
        } else if line.contains("describe-internet-gateways") {
            fine("igw-1\tigw-2\n")
        } else if line.contains("describe-route-tables") {
            if line.contains("main") {
                fine("rtb-main\n")
            } else {
                fine("rtb-main\trtb-1\n")
            }
        } else if line.contains("IpPermissionsEgress") {
            fine("[]\n")
        } else if line.contains("IpPermissions") {
            fine("[{\"FromPort\":443}]\n")
        } else if line.contains("describe-security-groups") {
            fine("sg-1\tsg-2\n")
        } else {
            broken("DependencyViolation")
        }
    });
    assert_eq!(seen.failed, None);
    let changes: Vec<&str> = seen
        .lines
        .iter()
        .filter(|line| !line.contains("describe-"))
        .map(|line| line.as_str())
        .collect();
    assert_eq!(
        changes,
        vec![
            "aws ec2 delete-nat-gateway --region eu-north-1 --nat-gateway-id nat-1",
            "aws ec2 delete-nat-gateway --region eu-north-1 --nat-gateway-id nat-2",
            "aws ec2 wait nat-gateway-deleted --region eu-north-1 --nat-gateway-ids nat-1",
            "aws ec2 wait nat-gateway-deleted --region eu-north-1 --nat-gateway-ids nat-2",
            "aws ec2 release-address --region eu-north-1 --allocation-id eipalloc-1",
            "aws ec2 delete-subnet --region eu-north-1 --subnet-id subnet-1",
            "aws ec2 detach-internet-gateway --region eu-north-1 --internet-gateway-id igw-1 --vpc-id vpc-1",
            "aws ec2 delete-internet-gateway --region eu-north-1 --internet-gateway-id igw-1",
            "aws ec2 detach-internet-gateway --region eu-north-1 --internet-gateway-id igw-2 --vpc-id vpc-1",
            "aws ec2 delete-internet-gateway --region eu-north-1 --internet-gateway-id igw-2",
            "aws ec2 delete-route-table --region eu-north-1 --route-table-id rtb-1",
            "aws ec2 revoke-security-group-ingress --region eu-north-1 --group-id sg-1 --ip-permissions [{\"FromPort\":443}]",
            "aws ec2 revoke-security-group-ingress --region eu-north-1 --group-id sg-2 --ip-permissions [{\"FromPort\":443}]",
            "aws ec2 delete-security-group --region eu-north-1 --group-id sg-1",
            "aws ec2 delete-security-group --region eu-north-1 --group-id sg-2",
            "aws ec2 delete-vpc --region eu-north-1 --vpc-id vpc-1",
        ]
    );
    assert!(seen.last("IpPermissionsEgress") < seen.at("delete-security-group"));
}

// Sessions

#[test]
fn nothing_follows_an_error() {
    let repo = repository();
    let cfg = config_from(&repo, Some("aws"), &[]);
    let first = Command::new("false").arg("now");
    let second = Command::new("true");
    let script = Script::new()
        .say("before".to_string())
        .perform(Action::Run(first), Rule::Require)
        .say("after".to_string())
        .perform(Action::Run(second), Rule::Require);
    let seen = drive(&cfg, script, &mut |_| broken(""));
    assert_eq!(seen.said, vec!["before"]);
    assert_eq!(seen.lines, vec!["false now"]);
    assert!(seen.failed.is_some());
}

#[test]
fn steps_run_in_order() {
    let repo = repository();
    let cfg = config_from(&repo, Some("aws"), &[]);
    let script = Script::new()
        .say("a".to_string())
        .report("b".to_string())
        .perform(Action::Sleep(1), Rule::Ignore)
        .join(Script::new().say("c".to_string()).fail("d".to_string()).say("e".to_string()));
    let mut session = Session::new(&cfg, script);
    assert!(matches!(session.advance(), Move::Print(text) if text == "a"));
    assert!(matches!(session.advance(), Move::PrintError(text) if text == "b"));
    assert!(session.action().is_none());
    assert!(matches!(session.advance(), Move::Act));
    assert!(matches!(session.action(), Some(Action::Sleep(1))));
    session.settle(&broken("late"));
    assert!(matches!(session.advance(), Move::Print(text) if text == "c"));
    assert!(matches!(session.advance(), Move::Failed(failure) if failure.message == "d" && failure.causes.is_empty()));
}

#[test]
fn a_failed_command_is_named_by_its_program() {
    let command = Command::new("kubectl").arg("apply").arg("-f").arg("x.yaml");
    let failed = failure(&command, &broken("ignored"));
    assert_eq!(failed.message, "'kubectl apply -f x.yaml' failed with exit status: 1");
    assert!(failed.causes.is_empty());
    let lost = failure(&command, &lost("No such file or directory (os error 2)"));
    assert_eq!(lost.message, "failed to spawn 'kubectl'");
    assert_eq!(lost.causes, vec!["No such file or directory (os error 2)"]);
    let mut cut = broken("Broken pipe (os error 32)");
    cut.status.clear();
    let cut = failure(&command, &cut);
    assert_eq!(cut.message, "Broken pipe (os error 32)");
    assert!(cut.causes.is_empty());
    let action = Action::Run(command);
    assert!(judge(&action, &Rule::Require, &fine("")).steps.is_empty());
    assert_eq!(judge(&action, &Rule::Require, &broken("")).steps.len(), 1);
    assert!(judge(&action, &Rule::Ignore, &broken("")).steps.is_empty());
}

#[test]
fn an_error_keeps_its_causes() {
    let repo = repository();
    let cfg = config_from(&repo, Some("aws"), &[]);
    let ended = |action: Action, rule: Rule, reply: Reply| {
        let seen = drive(&cfg, Script::new().perform(action, rule), &mut |_| Reply {
            stdout: reply.stdout.clone(),
            stderr: reply.stderr.clone(),
            status: reply.status.clone(),
            ..reply
        });
        (seen.failed.unwrap(), seen.causes)
    };
    let delete = || Action::Run(Command::new("kubectl").arg("delete"));
    assert_eq!(
        ended(delete(), Rule::Explain("outer".to_string()), broken("")),
        (
            "outer".to_string(),
            vec!["'kubectl delete' failed with exit status: 1".to_string()]
        )
    );
    assert_eq!(
        ended(delete(), Rule::Explain("outer".to_string()), lost("ENOENT")),
        (
            "outer".to_string(),
            vec!["failed to spawn 'kubectl'".to_string(), "ENOENT".to_string()]
        )
    );
    let write = || Action::WriteFile("/x".to_string(), "y".to_string());
    assert_eq!(
        ended(write(), Rule::Expect("failed to write /x".to_string()), broken("EACCES")),
        ("failed to write /x".to_string(), vec!["EACCES".to_string()])
    );
    assert_eq!(
        ended(write(), Rule::Expect("failed to write /x".to_string()), broken("")),
        ("failed to write /x".to_string(), Vec::new())
    );
    assert_eq!(
        ended(write(), Rule::Relay, broken("EACCES")),
        ("EACCES".to_string(), Vec::new())
    );
    let parent = Action::MakeParent("/a/b".to_string());
    assert_eq!(
        ended(parent, Rule::ExpectAt("failed to create ".to_string()), reply(false, "/a", "EACCES")),
        ("failed to create /a".to_string(), vec!["EACCES".to_string()])
    );
}

#[test]
fn a_workload_that_cannot_be_deleted_is_named_over_the_command() {
    let seen = on_target(
        delete_capi_workloads(&context("kind-mgmt"), &vec!["w".to_string()], 300),
        &mut |action| {
            if line_of(action).contains("delete cluster") {
                broken("")
            } else {
                fine("w\n")
            }
        },
    );
    assert_eq!(seen.failed.unwrap(), "failed to delete workload cluster 'w'");
    assert_eq!(
        seen.causes,
        vec!["'kubectl --context kind-mgmt delete cluster w -n default --wait=false' failed with exit status: 1"]
    );
}

#[test]
fn a_file_that_cannot_be_made_says_why() {
    let repo = repository();
    let mut pairs = GITHUB.to_vec();
    pairs.push(("BOOTSTRAP_PIVOT", "0"));
    let cfg = config_from(&repo, Some("aws"), &pairs);
    let bootstrap = |temporary: &dyn Fn() -> Reply| {
        drive(&cfg, run_bootstrap(&cfg), &mut |action| match action {
            Action::TempFile(_) => temporary(),
            other => helpful(other),
        })
    };
    let seen = bootstrap(&|| lost("No space left on device"));
    assert_eq!(seen.failed.unwrap(), "failed to create temp registry config");
    assert_eq!(seen.causes, vec!["No space left on device"]);
    let seen = bootstrap(&|| broken("No space left on device"));
    assert_eq!(seen.failed.unwrap(), "No space left on device");
    assert!(seen.causes.is_empty());
    let seen = drive(&cfg, run_bootstrap(&cfg), &mut |action| match action {
        Action::ReadFile(_) => broken("Permission denied (os error 13)"),
        other => helpful(other),
    });
    assert_eq!(seen.failed.unwrap(), "failed to read 'age.agekey'");
    assert_eq!(seen.causes, vec!["Permission denied (os error 13)"]);
}

#[test]
fn an_engine_that_is_not_started_says_why() {
    let seen = join(&mut |line| {
        if line.contains("network connect") {
            lost("No such file or directory (os error 2)")
        } else {
            fine("")
        }
    });
    assert!(seen.failed.unwrap().starts_with("failed to spawn '"));
    assert_eq!(seen.causes, vec!["No such file or directory (os error 2)"]);
}
