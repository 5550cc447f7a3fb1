use krops_bootstrap::bootstrap::{age_secret, pat_secret};
use krops_bootstrap::checks::{extract_age_pubkey, required_tools};
use krops_bootstrap::context::GithubContext;
use krops_bootstrap::failure::Failure;
use krops_bootstrap::number::unsigned_reason;
use krops_bootstrap::settings::{
    default_mgmt_kubeconfig, join_path, resolve_environment, runs_github_preflight, Cli, Config,
    Variables,
};
use indexmap::IndexMap;
use krops_bootstrap::config::{
    AwsWorkload, BootstrapConfig, BootstrapSection, Environment, MoveFallback, SyncSource,
    TeardownEnv, TeardownSection,
};

type Sections = IndexMap<String, IndexMap<String, toml::Value>>;

fn text(value: Option<&toml::Value>) -> Option<String> {
    value.and_then(|v| v.as_str()).map(String::from)
}

fn texts(value: Option<&toml::Value>) -> Vec<String> {
    match value.and_then(|v| v.as_array()) {
        Some(items) => items.iter().map(|v| v.as_str().unwrap().to_string()).collect(),
        None => Vec::new(),
    }
}

fn tables(value: Option<&toml::Value>) -> Vec<toml::Value> {
    match value.and_then(|v| v.as_array()) {
        Some(items) => items.clone(),
        None => Vec::new(),
    }
}

fn named(table: &toml::Value, name: &str) -> String {
    table.get(name).and_then(|v| v.as_str()).unwrap().to_string()
}

fn environment_from(table: &toml::Value) -> Environment {
    let mut teardown = TeardownEnv::default();
    if let Some(section) = table.get("teardown") {
        teardown.capi_workloads = texts(section.get("capi-workloads"));
        teardown.mgmt_container_prefix = text(section.get("mgmt-container-prefix"));
        teardown.mgmt_eks_cluster_name = text(section.get("mgmt-eks-cluster-name"));
        teardown.mgmt_iam_role_prefix = text(section.get("mgmt-iam-role-prefix"));
        teardown.hardware_release = section
            .get("hardware-release")
            .and_then(|v| v.as_bool())
            .unwrap_or(false);
        teardown.manual = text(section.get("manual"));
        teardown.aws_workloads = tables(section.get("aws-workloads"))
            .iter()
            .map(|w| AwsWorkload {
                region: named(w, "region"),
                cluster_name: named(w, "cluster-name"),
                eks_cluster_name: named(w, "eks-cluster-name"),
                rds_instance: named(w, "rds-instance"),
            })
            .collect();
    }
    Environment {
        kind: named(table, "kind"),
        sync: match named(table, "sync").as_str() {
            "github" => SyncSource::Github,
            "oci" => SyncSource::Oci,
            other => panic!("sync {other}"),
        },
        sync_path: named(table, "sync-path"),
        mgmt_cluster: named(table, "mgmt-cluster"),
        mgmt_ready_timeout: named(table, "mgmt-ready-timeout"),
        infra_provider_namespace: named(table, "infra-provider-namespace"),
        infra_provider_name: named(table, "infra-provider-name"),
        provider_manifests: texts(table.get("provider-manifests")),
        move_fallbacks: tables(table.get("move-fallbacks"))
            .iter()
            .map(|f| MoveFallback {
                resource: named(f, "resource"),
                name: named(f, "name"),
                manifest: named(f, "manifest"),
            })
            .collect(),
        pivot_sops_secrets: texts(table.get("pivot-sops-secrets")),
        post_kind_create_task: text(table.get("post-kind-create-task")),
        pivot_manifests: texts(table.get("pivot-manifests")),
        teardown,
    }
}

fn read(document: &str) -> BootstrapConfig {
    let sections: Sections = toml::from_str(document).unwrap();
    let bootstrap = &sections["bootstrap"];
    let global = |name: &str| bootstrap[name].as_str().unwrap().to_string();
    let mut teardown = TeardownSection::default();
    if let Some(section) = sections.get("teardown") {
        teardown.cfn_stack_name = text(section.get("cfn-stack-name"));
        teardown.global_iam_roles = texts(section.get("global-iam-roles"));
        teardown.global_iam_users = texts(section.get("global-iam-users"));
        teardown.s3_bucket_pattern = text(section.get("s3-bucket-pattern"));
    }
    BootstrapConfig {
        bootstrap: BootstrapSection {
            default_environment: global("default-environment"),
            git_branch: global("git-branch"),
            kind_cluster: global("kind-cluster"),
            kind_context: global("kind-context"),
            registry_name: global("registry-name"),
            flux_namespace: global("flux-namespace"),
            github_pat_secret: global("github-pat-secret"),
            sops_age_secret: global("sops-age-secret"),
            mgmt_namespace: global("mgmt-namespace"),
            mgmt_context: global("mgmt-context"),
        },
        charts: sections["charts"]
            .iter()
            .map(|(name, version)| (name.clone(), version.as_str().unwrap().to_string()))
            .collect(),
        teardown,
        environments: sections["environments"]
            .iter()
            .map(|(name, table)| (name.clone(), environment_from(table)))
            .collect(),
    }
}

const REPOSITORY: &str = r##"
[bootstrap]
default-environment = "aws"
git-branch = "main"
kind-cluster = "mgmt"
kind-context = "kind-mgmt"
registry-name = "krops-registry"
flux-namespace = "flux-system"
github-pat-secret = "flux-github-pat"
sops-age-secret = "sops-age"
mgmt-namespace = "default"
mgmt-context = "krops-mgmt"

[charts]
flux-operator = "0.58.0"
flux-instance = "0.58.0"
cert-manager = "v1.18.2"
capi-operator = "0.24.0"

[teardown]
cfn-stack-name = "cluster-api-provider-aws-sigs-k8s-io"
global-iam-roles = ["nodes.cluster-api-provider-aws.sigs.k8s.io"]
global-iam-users = ["bootstrapper.cluster-api-provider-aws.sigs.k8s.io"]
s3-bucket-pattern = "krops-{account_id}-{cluster_name}-data"

[environments.local-host]
kind = "local-host"
sync = "oci"
sync-path = "mgmt/local-host"
mgmt-cluster = "local-management"
mgmt-ready-timeout = "15m"
infra-provider-namespace = "capd-system"
infra-provider-name = "docker"
provider-manifests = ["mgmt/local-host/capi-providers/capd-system/providers.yaml"]

[environments.local-host.teardown]
capi-workloads = ["local-workload"]
mgmt-container-prefix = "local-management"

[environments.aws]
kind = "aws"
sync = "github"
sync-path = "mgmt/aws"
mgmt-cluster = "eu-north-1-management"
mgmt-ready-timeout = "40m"
infra-provider-namespace = "capa-system"
infra-provider-name = "aws"
provider-manifests = [
  "mgmt/aws/capi-providers/capi-system/namespace.yaml",
  "mgmt/aws/capi-providers/capi-system/providers.yaml",
  "mgmt/aws/capi-providers/capa-system/namespace.yaml",
  "mgmt/aws/capi-providers/capa-system/providers.yaml",
  "mgmt/aws/capi-providers/caaph-system/namespace.yaml",
  "mgmt/aws/capi-providers/caaph-system/addon-provider.yaml",
]

[[environments.aws.move-fallbacks]]
resource = "awsclustercontrolleridentities.infrastructure.cluster.x-k8s.io"
name = "default"
manifest = "mgmt/aws/infrastructure/aws-identity/identity.yaml"

[environments.aws.teardown]
mgmt-eks-cluster-name = "default_eu-north-1-management-control-plane"
mgmt-iam-role-prefix = "eu-north-1-management"

[[environments.aws.teardown.aws-workloads]]
region = "eu-north-1"
cluster-name = "eu-north-1-workload"
eks-cluster-name = "default_eu-north-1-workload-control-plane"
rds-instance = "eu-north-1-workload-db"

[environments.local-talos]
kind = "local-talos"
sync = "github"
sync-path = "mgmt/local-talos"
mgmt-cluster = "talos-management"
mgmt-ready-timeout = "30m"
infra-provider-namespace = "tinkerbell-system"
infra-provider-name = "tinkerbell"
provider-manifests = []

[environments.local-talos.teardown]
hardware-release = true
"##;

fn repository() -> BootstrapConfig {
    let config = read(REPOSITORY);
    config.validate().unwrap();
    config
}

fn variables(pairs: &[(&str, &str)]) -> Variables {
    Variables {
        entries: pairs
            .iter()
            .map(|(name, value)| (name.to_string(), value.to_string()))
            .collect(),
    }
}

fn cli(profile: Option<&str>) -> Cli {
    Cli {
        profile: profile.map(String::from),
        recreate: false,
    }
}

fn home() -> Option<String> {
    Some("/home/op".to_string())
}

fn config_from<'a>(
    repo: &'a BootstrapConfig,
    profile: Option<&str>,
    pairs: &[(&str, &str)],
) -> Config<'a> {
    match Config::from_env(&cli(profile), repo, &variables(pairs), &home()) {
        Ok(config) => config,
        Err(failure) => panic!("{failure:?}"),
    }
}

fn refusal(profile: &str, pairs: &[(&str, &str)]) -> Failure {
    let repo = repository();
    let found = Config::from_env(&cli(Some(profile)), &repo, &variables(pairs), &home());
    found.err().unwrap()
}

fn refused(profile: &str, pairs: &[(&str, &str)]) -> String {
    refusal(profile, pairs).message
}

#[test]
fn cli_rejects_unknown_profile() {
    let repo = repository();
    assert!(Config::from_env(&cli(Some("bogus")), &repo, &variables(&[]), &home()).is_err());
}

#[test]
fn config_defaults_match_script() {
    let repo = repository();
    let cfg = config_from(&repo, Some("local-host"), &[]);
    assert_eq!(cfg.profile, "local-host");
    assert!(!cfg.recreate);
    assert_eq!(cfg.registry_port, 5001);
    assert_eq!(cfg.registry_ready_retries, 120);
    assert_eq!(cfg.local_reconcile_timeout, "15m");
    assert_eq!(cfg.github_user, "git");
    assert_eq!(cfg.age_key_file, "age.agekey");
    assert_eq!(cfg.oci_repository, "krops");
    assert_eq!(cfg.oci_tag, "latest");
    assert!(cfg.container_engine.is_none());
    assert!(cfg.git_repo_url.is_none());
    assert!(cfg.github_token.is_none());
    assert!(cfg.age_public_key.is_none());
    assert!(cfg.bootstrap_pivot);
    assert!(!cfg.pivot_skip_delete);
    assert_eq!(cfg.mgmt_ready_timeout, "15m");
    assert_eq!(cfg.mgmt_poll_interval, 10);
    assert_eq!(cfg.bootstrap_kubecontext, "kind-mgmt");
    assert_eq!(cfg.mgmt_kubeconfig, default_mgmt_kubeconfig(&home()));
    assert_eq!(cfg.environment.mgmt_cluster, "local-management");
    assert_eq!(cfg.environment.sync_path, "mgmt/local-host");
    assert_eq!(
        (
            cfg.environment.infra_provider_namespace.as_str(),
            cfg.environment.infra_provider_name.as_str()
        ),
        ("capd-system", "docker")
    );
    assert_eq!(cfg.repo.bootstrap.registry_name, "krops-registry");
    assert_eq!(cfg.repo.bootstrap.flux_namespace, "flux-system");
    assert_eq!(cfg.repo.bootstrap.mgmt_namespace, "default");
    assert_eq!(cfg.repo.charts["flux-operator"], "0.58.0");
}

#[test]
fn config_reads_env_knobs_with_script_semantics() {
    let repo = repository();
    let cfg = config_from(
        &repo,
        None,
        &[
            ("REGISTRY_PORT", "5500"),
            ("LOCAL_RECONCILE_TIMEOUT", "30m"),
            ("GITHUB_USER", ""),
            ("OCI_TAG", "dev"),
        ],
    );
    assert_eq!(cfg.profile, "aws");
    assert_eq!(cfg.registry_port, 5500);
    assert_eq!(cfg.local_reconcile_timeout, "30m");
    assert_eq!(cfg.github_user, "git");
    assert_eq!(cfg.oci_tag, "dev");
    assert_eq!(cfg.mgmt_ready_timeout, "40m");
}

#[test]
fn config_reads_pivot_knobs_with_script_semantics() {
    let repo = repository();
    let cfg = config_from(
        &repo,
        Some("aws"),
        &[
            ("BOOTSTRAP_PIVOT", "0"),
            ("PIVOT_SKIP_DELETE", "1"),
            ("MGMT_READY_TIMEOUT", "25m"),
            ("MGMT_POLL_INTERVAL", "5"),
            ("MGMT_KUBECONFIG", "/tmp/mgmt.yaml"),
            ("BOOTSTRAP_KUBECONTEXT", "other-ctx"),
        ],
    );
    assert!(!cfg.bootstrap_pivot);
    assert!(cfg.pivot_skip_delete);
    assert_eq!(cfg.mgmt_ready_timeout, "25m");
    assert_eq!(cfg.mgmt_poll_interval, 5);
    assert_eq!(cfg.mgmt_kubeconfig, "/tmp/mgmt.yaml");
    assert_eq!(cfg.bootstrap_kubecontext, "other-ctx");
}

#[test]
fn config_reads_toolbox_runtime_knobs() {
    let repo = repository();
    let cfg = config_from(
        &repo,
        Some("local-host"),
        &[
            ("KROPS_TOOLBOX", "1"),
            ("ENGINE_SOCK", "/run/user/501/podman/podman.sock"),
        ],
    );
    assert!(cfg.toolbox);
    assert_eq!(
        cfg.engine_sock.as_deref(),
        Some("/run/user/501/podman/podman.sock")
    );
    assert_eq!(cfg.registry_endpoint(), ("krops-registry".into(), 5000));
    assert!(!cfg.should_rewrite_capd_endpoint());
}

#[test]
fn host_runtime_keeps_localhost_endpoints() {
    let repo = repository();
    let cfg = config_from(&repo, Some("local-host"), &[]);
    assert!(!cfg.toolbox);
    assert!(cfg.engine_sock.is_none());
    assert_eq!(cfg.registry_endpoint(), ("localhost".into(), 5001));
    assert!(cfg.should_rewrite_capd_endpoint());
}

#[test]
fn sync_source_is_config_driven() {
    let repo = repository();
    assert_eq!(
        repo.environment("aws").unwrap().sync,
        SyncSource::Github,
        "aws must declare sync = \"github\""
    );
    assert_eq!(
        repo.environment("local-talos").unwrap().sync,
        SyncSource::Github,
        "local-talos must declare sync = \"github\""
    );
    assert_eq!(
        repo.environment("local-host").unwrap().sync,
        SyncSource::Oci,
        "local-host must declare sync = \"oci\""
    );
}

#[test]
fn github_preflight_runs_for_github_sync_environments() {
    let repo = repository();
    assert!(runs_github_preflight(&config_from(&repo, Some("aws"), &[])));
    assert!(runs_github_preflight(&config_from(&repo, Some("local-talos"), &[])));
    assert!(!runs_github_preflight(&config_from(&repo, Some("local-host"), &[])));
}

#[test]
fn required_tools_match_the_sync_surface() {
    let repo = repository();
    let base = ["kind", "helm", "kubectl", "clusterctl", "mise"];
    assert_eq!(required_tools(repo.environment("aws").unwrap()), base);
    assert_eq!(required_tools(repo.environment("local-talos").unwrap()), base);
    let local = required_tools(repo.environment("local-host").unwrap());
    assert!(local.len() > base.len());
    assert!(local.contains(&"flux"));
    assert!(local.contains(&"curl"));
}

#[test]
fn required_tools_cover_every_invoked_binary() {
    let repo = repository();
    let aws = required_tools(repo.environment("aws").unwrap());
    assert_eq!(aws, vec!["kind", "helm", "kubectl", "clusterctl", "mise"]);
    let local = required_tools(repo.environment("local-host").unwrap());
    assert_eq!(
        local,
        vec![
            "kind",
            "helm",
            "kubectl",
            "clusterctl",
            "mise",
            "flux",
            "curl"
        ]
    );
}

#[test]
fn config_rejects_invalid_poll_interval() {
    let err = refused("aws", &[("MGMT_POLL_INTERVAL", "often")]);
    assert!(err.contains("MGMT_POLL_INTERVAL"));
}

#[test]
fn config_rejects_zero_poll_interval() {
    let err = refused("aws", &[("MGMT_POLL_INTERVAL", "0")]);
    assert!(err.contains("MGMT_POLL_INTERVAL"));
}

#[test]
fn config_rejects_invalid_ready_timeout() {
    let err = refused("aws", &[("MGMT_READY_TIMEOUT", "abc")]);
    assert!(err.contains("MGMT_READY_TIMEOUT"));
}

#[test]
fn config_rejects_non_numeric_registry_port() {
    let err = refused("local-host", &[("REGISTRY_PORT", "not-a-port")]);
    assert!(err.contains("REGISTRY_PORT"));
    assert!(refused("local-host", &[("REGISTRY_PORT", "65536")]).contains("REGISTRY_PORT"));
}

#[test]
fn config_file_carries_the_git_layout() {
    let repo = repository();
    let cfg = config_from(&repo, Some("aws"), &[]);
    assert_eq!(cfg.environment.mgmt_cluster, "eu-north-1-management");
    assert_eq!(
        cfg.environment.provider_manifests,
        vec![
            "mgmt/aws/capi-providers/capi-system/namespace.yaml",
            "mgmt/aws/capi-providers/capi-system/providers.yaml",
            "mgmt/aws/capi-providers/capa-system/namespace.yaml",
            "mgmt/aws/capi-providers/capa-system/providers.yaml",
            "mgmt/aws/capi-providers/caaph-system/namespace.yaml",
            "mgmt/aws/capi-providers/caaph-system/addon-provider.yaml",
        ]
    );
    assert_eq!(cfg.environment.move_fallbacks.len(), 1);
    assert_eq!(
        cfg.environment.move_fallbacks[0].manifest,
        "mgmt/aws/infrastructure/aws-identity/identity.yaml"
    );

    let cfg = config_from(&repo, Some("local-host"), &[]);
    assert_eq!(cfg.environment.mgmt_cluster, "local-management");
    assert!(cfg.environment.move_fallbacks.is_empty());
}

#[test]
fn config_reads_environments_in_file_order() {
    let repo = repository();
    let err = resolve_environment(Some("bogus"), None, &repo).unwrap_err();
    assert_eq!(
        err.to_string(),
        "unsupported profile 'bogus' (expected 'local-host' or 'aws' or 'local-talos')"
    );
}

#[test]
fn environment_resolution_matches_script_precedence() {
    let repo = repository();
    assert_eq!(
        resolve_environment(Some("aws"), Some("local-host"), &repo).unwrap(),
        "aws"
    );
    assert_eq!(
        resolve_environment(Some("local-host"), Some("aws"), &repo).unwrap(),
        "local-host"
    );
    assert_eq!(
        resolve_environment(Some(""), Some("local-host"), &repo).unwrap(),
        "local-host"
    );
    assert_eq!(resolve_environment(Some(""), None, &repo).unwrap(), "aws");
    assert_eq!(
        resolve_environment(None, Some("aws"), &repo).unwrap(),
        "aws"
    );
    assert_eq!(resolve_environment(None, None, &repo).unwrap(), "aws");
    assert_eq!(
        resolve_environment(Some("bogus"), Some("local-host"), &repo)
            .unwrap_err()
            .to_string(),
        "unsupported profile 'bogus' (expected 'local-host' or 'aws' or 'local-talos')"
    );
}

#[test]
fn an_empty_profile_counts_as_none() {
    let repo = repository();
    assert_eq!(
        resolve_environment(Some(""), Some(""), &repo).unwrap(),
        "aws"
    );
    assert_eq!(
        resolve_environment(None, Some(""), &repo).unwrap(),
        "aws"
    );
    let cfg = config_from(&repo, Some(""), &[]);
    assert_eq!(cfg.profile, "aws");
    let cfg = config_from(&repo, Some(""), &[("KROPS_PROFILE", "")]);
    assert_eq!(cfg.profile, "aws");
    let cfg = config_from(&repo, Some(""), &[("KROPS_PROFILE", "local-host")]);
    assert_eq!(cfg.profile, "local-host");
    let cfg = config_from(&repo, Some("local-talos"), &[("KROPS_PROFILE", "")]);
    assert_eq!(cfg.profile, "local-talos");
}

const VALID_AGE_KEY: &str = "# created: 2026-01-01T00:00:00+02:00\n# public key: age1qqqqqqqqqqqqqqqqqqqqqqqqqqqqqqqqqqqqqqqqqqqqqqqqqqqqqqqqqq\nAGE-SECRET-KEY-1SECRETSECRETSECRET\n";

fn github_context(token: &str, pubkey: &str) -> GithubContext {
    GithubContext {
        git_repo_url: "https://github.com/polarsquad/krops".into(),
        github_user: "git".into(),
        github_token: token.into(),
        age_key_content: VALID_AGE_KEY.into(),
        age_pubkey: pubkey.into(),
    }
}

#[test]
fn secret_manifests_keep_secrets_off_argv() {
    let repo = repository();
    let cfg = config_from(&repo, Some("aws"), &[]);
    let manifest = pat_secret(&cfg, &github_context("ghp_secret\"with'quotes", "age1q"));
    let rendered = manifest.to_string();
    assert!(rendered.contains("ghp_secret\\\"with'quotes"));
    let parsed: serde_json::Value = serde_json::from_str(&rendered).unwrap();
    assert_eq!(parsed["stringData"]["password"], "ghp_secret\"with'quotes");
    assert_eq!(parsed["stringData"]["username"], "git");
    assert_eq!(parsed["apiVersion"], "v1");
    assert_eq!(parsed["kind"], "Secret");
    assert_eq!(parsed["type"], "Opaque");
    assert_eq!(parsed["metadata"]["name"], "flux-github-pat");
    assert_eq!(parsed["metadata"]["namespace"], "flux-system");
}

#[test]
fn sops_age_secret_key_name_embeds_pubkey() {
    let repo = repository();
    let cfg = config_from(&repo, Some("aws"), &[]);
    let pubkey = extract_age_pubkey(VALID_AGE_KEY).unwrap();
    let manifest = age_secret(&cfg, &github_context("t", &pubkey));
    assert!(manifest["stringData"]
        .as_object()
        .unwrap()
        .contains_key(&format!("keys.{pubkey}.agekey")));
    assert_eq!(
        manifest["stringData"][&format!("keys.{pubkey}.agekey")],
        VALID_AGE_KEY
    );
}

#[test]
fn a_teardown_reads_its_profile_like_a_bootstrap() {
    let repo = repository();
    let named = Some("local-host".to_string());
    let cfg = Config::for_teardown(&named, &repo, &variables(&[]), &home());
    assert_eq!(cfg.ok().unwrap().profile, "local-host");
    let vars = variables(&[("KROPS_PROFILE", "aws")]);
    let cfg = Config::for_teardown(&named, &repo, &vars, &home());
    assert_eq!(cfg.ok().unwrap().profile, "aws");
    let cfg = Config::for_teardown(&None, &repo, &variables(&[]), &home());
    assert_eq!(cfg.ok().unwrap().profile, "aws");
}

#[test]
fn paths_below_the_home_are_joined() {
    assert_eq!(join_path("/home/op", ".kube/x"), "/home/op/.kube/x");
    assert_eq!(
        default_mgmt_kubeconfig(&home()),
        "/home/op/.kube/krops-mgmt.yaml"
    );
}

#[test]
fn every_number_of_the_environment_is_checked() {
    assert_eq!(
        refused("local-host", &[("REGISTRY_READY_RETRIES", "many")]),
        "REGISTRY_READY_RETRIES must be a non-negative integer"
    );
    assert_eq!(
        refused("aws", &[("REGISTRY_PORT", "x")]),
        "REGISTRY_PORT must be a port number (1-65535)"
    );
    assert_eq!(
        refused("aws", &[("MGMT_READY_TIMEOUT", "soon")]),
        "MGMT_READY_TIMEOUT must be a duration (40m, 2h, 90s, or bare seconds)"
    );
    assert_eq!(
        refused("aws", &[("MGMT_POLL_INTERVAL", "-1")]),
        "MGMT_POLL_INTERVAL must be a positive integer"
    );
    assert_eq!(
        refused("aws", &[("MGMT_POLL_INTERVAL", "0")]),
        "MGMT_POLL_INTERVAL must be a positive integer, got 0"
    );
}

#[test]
fn a_refused_setting_says_why() {
    let why = |name: &str, value: &str| refusal("aws", &[(name, value)]).causes;
    for value in ["x", "+", "-", "-1", "1x", "65536", "99999999x", "6553x", "\u{661}", " 1"] {
        let reason = value.parse::<u16>().unwrap_err().to_string();
        assert_eq!(why("REGISTRY_PORT", value), vec![reason], "{value}");
    }
    for value in ["many", "4294967296", "4294967296x", "429496729x"] {
        let reason = value.parse::<u32>().unwrap_err().to_string();
        assert_eq!(why("REGISTRY_READY_RETRIES", value), vec![reason], "{value}");
    }
    for value in ["often", "18446744073709551616", "18446744073709551615x"] {
        let reason = value.parse::<u64>().unwrap_err().to_string();
        assert_eq!(why("MGMT_POLL_INTERVAL", value), vec![reason], "{value}");
    }
    assert_eq!(
        why("MGMT_READY_TIMEOUT", "soon"),
        vec!["invalid duration 'soon' (expected forms like 40m, 2h, 90s, or bare seconds)"]
    );
    assert_eq!(
        why("MGMT_READY_TIMEOUT", "18446744073709551616m"),
        vec![
            "duration '18446744073709551616m' overflows",
            "number too large to fit in target type",
        ]
    );
    assert!(why("MGMT_POLL_INTERVAL", "0").is_empty());
    assert!(refusal("bogus", &[]).causes.is_empty());
}

#[test]
fn a_text_that_is_no_number_says_why() {
    for value in ["", "+", "++1", "12a", "256", "300x", "25x", "+256", "000256", "0x10"] {
        assert_eq!(
            unsigned_reason(value, 255),
            value.parse::<u8>().unwrap_err().to_string(),
            "{value}"
        );
    }
}
