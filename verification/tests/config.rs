use indexmap::IndexMap;
use krops_bootstrap::config::{
    AwsWorkload, BootstrapConfig, BootstrapSection, Environment, MoveFallback, SyncSource,
    TeardownEnv, TeardownSection,
};

type Sections = IndexMap<String, IndexMap<String, toml::Value>>;

fn text(value: Option<&toml::Value>) -> Option<String> {
    value.and_then(|v| v.as_str()).map(String::from)
}

fn texts(value: Option<&toml::Value>) -> Vec<String> {
    match value.and_then(|v| v.as_array()) {
        Some(items) => items.iter().map(|v| v.as_str().unwrap().to_string()).collect(),
        None => Vec::new(),
    }
}

fn tables(value: Option<&toml::Value>) -> Vec<toml::Value> {
    match value.and_then(|v| v.as_array()) {
        Some(items) => items.clone(),
        None => Vec::new(),
    }
}

fn named(table: &toml::Value, name: &str) -> String {
    table.get(name).and_then(|v| v.as_str()).unwrap().to_string()
}

fn environment_from(table: &toml::Value) -> Environment {
    let mut teardown = TeardownEnv::default();
    if let Some(section) = table.get("teardown") {
        teardown.capi_workloads = texts(section.get("capi-workloads"));
        teardown.mgmt_container_prefix = text(section.get("mgmt-container-prefix"));
        teardown.mgmt_eks_cluster_name = text(section.get("mgmt-eks-cluster-name"));
        teardown.mgmt_iam_role_prefix = text(section.get("mgmt-iam-role-prefix"));
        teardown.hardware_release = section
            .get("hardware-release")
            .and_then(|v| v.as_bool())
            .unwrap_or(false);
        teardown.manual = text(section.get("manual"));
        teardown.aws_workloads = tables(section.get("aws-workloads"))
            .iter()
            .map(|w| AwsWorkload {
                region: named(w, "region"),
                cluster_name: named(w, "cluster-name"),
                eks_cluster_name: named(w, "eks-cluster-name"),
                rds_instance: named(w, "rds-instance"),
            })
            .collect();
    }
    Environment {
        kind: named(table, "kind"),
        sync: match named(table, "sync").as_str() {
            "github" => SyncSource::Github,
            "oci" => SyncSource::Oci,
            other => panic!("sync {other}"),
        },
        sync_path: named(table, "sync-path"),
        mgmt_cluster: named(table, "mgmt-cluster"),
        mgmt_ready_timeout: named(table, "mgmt-ready-timeout"),
        infra_provider_namespace: named(table, "infra-provider-namespace"),
        infra_provider_name: named(table, "infra-provider-name"),
        provider_manifests: texts(table.get("provider-manifests")),
        move_fallbacks: tables(table.get("move-fallbacks"))
            .iter()
            .map(|f| MoveFallback {
                resource: named(f, "resource"),
                name: named(f, "name"),
                manifest: named(f, "manifest"),
            })
            .collect(),
        pivot_sops_secrets: texts(table.get("pivot-sops-secrets")),
        post_kind_create_task: text(table.get("post-kind-create-task")),
        pivot_manifests: texts(table.get("pivot-manifests")),
        teardown,
    }
}

fn read(document: &str) -> BootstrapConfig {
    let sections: Sections = toml::from_str(document).unwrap();
    let bootstrap = &sections["bootstrap"];
    let global = |name: &str| bootstrap[name].as_str().unwrap().to_string();
    let mut teardown = TeardownSection::default();
    if let Some(section) = sections.get("teardown") {
        teardown.cfn_stack_name = text(section.get("cfn-stack-name"));
        teardown.global_iam_roles = texts(section.get("global-iam-roles"));
        teardown.global_iam_users = texts(section.get("global-iam-users"));
        teardown.s3_bucket_pattern = text(section.get("s3-bucket-pattern"));
    }
    BootstrapConfig {
        bootstrap: BootstrapSection {
            default_environment: global("default-environment"),
            git_branch: global("git-branch"),
            kind_cluster: global("kind-cluster"),
            kind_context: global("kind-context"),
            registry_name: global("registry-name"),
            flux_namespace: global("flux-namespace"),
            github_pat_secret: global("github-pat-secret"),
            sops_age_secret: global("sops-age-secret"),
            mgmt_namespace: global("mgmt-namespace"),
            mgmt_context: global("mgmt-context"),
        },
        charts: sections["charts"]
            .iter()
            .map(|(name, version)| (name.clone(), version.as_str().unwrap().to_string()))
            .collect(),
        teardown,
        environments: sections["environments"]
            .iter()
            .map(|(name, table)| (name.clone(), environment_from(table)))
            .collect(),
    }
}

const MINIMAL: &str = r##"
[bootstrap]
default-environment = "aws"
git-branch = "main"
kind-cluster = "mgmt"
kind-context = "kind-mgmt"
registry-name = "krops-registry"
flux-namespace = "flux-system"
github-pat-secret = "flux-github-pat"
sops-age-secret = "sops-age"
mgmt-namespace = "default"
mgmt-context = "krops-mgmt"

[charts]
flux-operator = "0.58.0"

[environments.local-host]
kind = "local-host"
sync = "oci"
sync-path = "mgmt/local-host"
mgmt-cluster = "local-management"
mgmt-ready-timeout = "15m"
infra-provider-namespace = "capd-system"
infra-provider-name = "docker"
provider-manifests = []

[environments.aws]
kind = "aws"
sync = "github"
sync-path = "mgmt/aws"
mgmt-cluster = "eu-north-1-management"
mgmt-ready-timeout = "40m"
infra-provider-namespace = "capa-system"
infra-provider-name = "aws"
provider-manifests = []

[[environments.aws.move-fallbacks]]
resource = "awsclustercontrolleridentities.infrastructure.cluster.x-k8s.io"
name = "default"
manifest = "mgmt/aws/infrastructure/aws-identity/identity.yaml"
"##;

fn parse(text: &str) -> Result<BootstrapConfig, String> {
    let config = read(text);
    config.validate()?;
    Ok(config)
}

#[test]
fn parses_and_resolves_environments() {
    let config = parse(MINIMAL).unwrap();
    assert_eq!(config.bootstrap.git_branch, "main");
    assert_eq!(config.bootstrap.default_environment, "aws");
    assert_eq!(config.charts["flux-operator"], "0.58.0");

    let aws = config.environment("aws").unwrap();
    assert_eq!(aws.mgmt_cluster, "eu-north-1-management");
    assert_eq!(aws.sync, SyncSource::Github);
    assert_eq!(aws.move_fallbacks.len(), 1);
    assert_eq!(aws.move_fallbacks[0].name, "default");

    let local = config.environment("local-host").unwrap();
    assert!(local.move_fallbacks.is_empty());
    assert_eq!(local.sync, SyncSource::Oci);
    assert_eq!(
        (
            local.infra_provider_namespace.as_str(),
            local.infra_provider_name.as_str()
        ),
        ("capd-system", "docker")
    );
}

#[test]
fn environment_order_preserved_from_file() {
    let config = parse(MINIMAL).unwrap();
    let msg = config.unsupported_message("bogus");
    assert_eq!(
        msg,
        "unsupported profile 'bogus' (expected 'local-host' or 'aws')"
    );
}

#[test]
fn unknown_environment_error_lists_file_order() {
    let config = parse(MINIMAL).unwrap();
    let err = config.environment("talos-local").unwrap_err();
    assert_eq!(
        err.to_string(),
        "unsupported profile 'talos-local' (expected 'local-host' or 'aws')"
    );
}

#[test]
fn rejects_kind_section_mismatch() {
    let bad = MINIMAL.replace(
        "[environments.aws]\nkind = \"aws\"",
        "[environments.aws]\nkind = \"local-host\"",
    );
    assert!(parse(&bad).is_err());
    assert_eq!(
        parse(&bad).unwrap_err(),
        "environments.aws kind 'local-host' must match its section name"
    );
}

#[test]
fn rejects_unknown_default_environment() {
    let bad = MINIMAL.replace(
        "default-environment = \"aws\"",
        "default-environment = \"gcp\"",
    );
    assert!(parse(&bad).is_err());
    assert_eq!(
        parse(&bad).unwrap_err(),
        "bootstrap.default-environment 'gcp' is not an [environments.*] section"
    );
}

#[test]
fn rejects_empty_environments() {
    let bad = MINIMAL.split("[environments.local-host]").next().unwrap();
    let empty = format!("{bad}[environments]\n");
    let config = read(&empty);
    assert!(config.validate().is_err());
    assert_eq!(
        config.validate().unwrap_err(),
        "no [environments.*] sections in bootstrap config"
    );
}

#[test]
fn parses_pivot_sops_secrets_and_manual_teardown() {
    let text = format!(
        "{MINIMAL}\n[environments.azure]\nkind = \"azure\"\nsync = \"github\"\n\
         sync-path = \"mgmt/azure\"\nmgmt-cluster = \"swedencentral-management\"\n\
         mgmt-ready-timeout = \"40m\"\ninfra-provider-namespace = \"capz-system\"\n\
         infra-provider-name = \"azure\"\nprovider-manifests = []\n\
         pivot-sops-secrets = [\"mgmt/azure/x.sops.yaml\"]\n\
         [environments.azure.teardown]\nmanual = \"do it by hand\"\n"
    );
    let config = parse(&text).unwrap();
    let azure = config.environment("azure").unwrap();
    assert_eq!(azure.pivot_sops_secrets, vec!["mgmt/azure/x.sops.yaml"]);
    assert_eq!(azure.teardown.manual.as_deref(), Some("do it by hand"));
    let aws = config.environment("aws").unwrap();
    assert!(aws.pivot_sops_secrets.is_empty());
    assert!(aws.teardown.manual.is_none());
}

#[test]
fn parses_post_kind_create_task_and_pivot_manifests() {
    let text = format!(
        "{MINIMAL}\n[environments.azure]\nkind = \"azure\"\nsync = \"github\"\n\
         sync-path = \"mgmt/azure\"\nmgmt-cluster = \"swedencentral-management\"\n\
         mgmt-ready-timeout = \"40m\"\ninfra-provider-namespace = \"capz-system\"\n\
         infra-provider-name = \"azure\"\nprovider-manifests = []\n\
         post-kind-create-task = \"arc-federate\"\n\
         pivot-manifests = [\"mgmt/azure/infrastructure/azure-identity/aso-credentials.yaml\"]\n"
    );
    let config = parse(&text).unwrap();
    let azure = config.environment("azure").unwrap();
    assert_eq!(azure.post_kind_create_task.as_deref(), Some("arc-federate"));
    assert_eq!(
        azure.pivot_manifests,
        vec!["mgmt/azure/infrastructure/azure-identity/aso-credentials.yaml"]
    );
    let aws = config.environment("aws").unwrap();
    assert!(aws.post_kind_create_task.is_none());
    assert!(aws.pivot_manifests.is_empty());
}

#[test]
fn charts_are_found_by_name() {
    let config = parse(MINIMAL).unwrap();
    assert_eq!(config.chart("flux-operator").unwrap(), "0.58.0");
    assert_eq!(
        config.chart("cert-manager").unwrap_err(),
        "charts.cert-manager missing from bootstrap.toml"
    );
}

#[test]
fn the_config_path_can_be_overridden() {
    assert_eq!(BootstrapConfig::locate(None), "bootstrap.toml");
    assert_eq!(BootstrapConfig::locate(Some("".to_string())), "bootstrap.toml");
    assert_eq!(
        BootstrapConfig::locate(Some("/etc/krops.toml".to_string())),
        "/etc/krops.toml"
    );
}
