use krops_bootstrap::aws::AwsSweepTarget;
use krops_bootstrap::calendar::parse_iso8601;
use krops_bootstrap::manifest::{filled_in, provided, unfilled};
use krops_bootstrap::orphans::{
    aws_probe, conclude, discover_with, is_bucket_of, is_orphan, run_orphans, Discovery,
    DiscoveryReport, OrphanFinding, OrphansConfig, ProbeResult,
};
use krops_bootstrap::report::{age_hours, orphan_count, render_markdown, report_value, to_json};
use krops_bootstrap::script::Reply;
use krops_bootstrap::settings::{Cli, Config, Variables};
use indexmap::IndexMap;
use krops_bootstrap::config::{
    AwsWorkload, BootstrapConfig, BootstrapSection, Environment, MoveFallback, SyncSource,
    TeardownEnv, TeardownSection,
};

type Sections = IndexMap<String, IndexMap<String, toml::Value>>;

fn text(value: Option<&toml::Value>) -> Option<String> {
    value.and_then(|v| v.as_str()).map(String::from)
}

fn texts(value: Option<&toml::Value>) -> Vec<String> {
    match value.and_then(|v| v.as_array()) {
        Some(items) => items.iter().map(|v| v.as_str().unwrap().to_string()).collect(),
        None => Vec::new(),
    }
}

fn tables(value: Option<&toml::Value>) -> Vec<toml::Value> {
    match value.and_then(|v| v.as_array()) {
        Some(items) => items.clone(),
        None => Vec::new(),
    }
}

fn named(table: &toml::Value, name: &str) -> String {
    table.get(name).and_then(|v| v.as_str()).unwrap().to_string()
}

fn environment_from(table: &toml::Value) -> Environment {
    let mut teardown = TeardownEnv::default();
    if let Some(section) = table.get("teardown") {
        teardown.capi_workloads = texts(section.get("capi-workloads"));
        teardown.mgmt_container_prefix = text(section.get("mgmt-container-prefix"));
        teardown.mgmt_eks_cluster_name = text(section.get("mgmt-eks-cluster-name"));
        teardown.mgmt_iam_role_prefix = text(section.get("mgmt-iam-role-prefix"));
        teardown.hardware_release = section
            .get("hardware-release")
            .and_then(|v| v.as_bool())
            .unwrap_or(false);
        teardown.manual = text(section.get("manual"));
        teardown.aws_workloads = tables(section.get("aws-workloads"))
            .iter()
            .map(|w| AwsWorkload {
                region: named(w, "region"),
                cluster_name: named(w, "cluster-name"),
                eks_cluster_name: named(w, "eks-cluster-name"),
                rds_instance: named(w, "rds-instance"),
            })
            .collect();
    }
    Environment {
        kind: named(table, "kind"),
        sync: match named(table, "sync").as_str() {
            "github" => SyncSource::Github,
            "oci" => SyncSource::Oci,
            other => panic!("sync {other}"),
        },
        sync_path: named(table, "sync-path"),
        mgmt_cluster: named(table, "mgmt-cluster"),
        mgmt_ready_timeout: named(table, "mgmt-ready-timeout"),
        infra_provider_namespace: named(table, "infra-provider-namespace"),
        infra_provider_name: named(table, "infra-provider-name"),
        provider_manifests: texts(table.get("provider-manifests")),
        move_fallbacks: tables(table.get("move-fallbacks"))
            .iter()
            .map(|f| MoveFallback {
                resource: named(f, "resource"),
                name: named(f, "name"),
                manifest: named(f, "manifest"),
            })
            .collect(),
        pivot_sops_secrets: texts(table.get("pivot-sops-secrets")),
        post_kind_create_task: text(table.get("post-kind-create-task")),
        pivot_manifests: texts(table.get("pivot-manifests")),
        teardown,
    }
}

fn read(document: &str) -> BootstrapConfig {
    let sections: Sections = toml::from_str(document).unwrap();
    let bootstrap = &sections["bootstrap"];
    let global = |name: &str| bootstrap[name].as_str().unwrap().to_string();
    let mut teardown = TeardownSection::default();
    if let Some(section) = sections.get("teardown") {
        teardown.cfn_stack_name = text(section.get("cfn-stack-name"));
        teardown.global_iam_roles = texts(section.get("global-iam-roles"));
        teardown.global_iam_users = texts(section.get("global-iam-users"));
        teardown.s3_bucket_pattern = text(section.get("s3-bucket-pattern"));
    }
    BootstrapConfig {
        bootstrap: BootstrapSection {
            default_environment: global("default-environment"),
            git_branch: global("git-branch"),
            kind_cluster: global("kind-cluster"),
            kind_context: global("kind-context"),
            registry_name: global("registry-name"),
            flux_namespace: global("flux-namespace"),
            github_pat_secret: global("github-pat-secret"),
            sops_age_secret: global("sops-age-secret"),
            mgmt_namespace: global("mgmt-namespace"),
            mgmt_context: global("mgmt-context"),
        },
        charts: sections["charts"]
            .iter()
            .map(|(name, version)| (name.clone(), version.as_str().unwrap().to_string()))
            .collect(),
        teardown,
        environments: sections["environments"]
            .iter()
            .map(|(name, table)| (name.clone(), environment_from(table)))
            .collect(),
    }
}

const REPOSITORY: &str = r##"
[bootstrap]
default-environment = "aws"
git-branch = "main"
kind-cluster = "mgmt"
kind-context = "kind-mgmt"
registry-name = "krops-registry"
flux-namespace = "flux-system"
github-pat-secret = "flux-github-pat"
sops-age-secret = "sops-age"
mgmt-namespace = "default"
mgmt-context = "krops-mgmt"

[charts]
flux-operator = "0.58.0"
flux-instance = "0.58.0"
cert-manager = "v1.18.2"
capi-operator = "0.24.0"

[teardown]
cfn-stack-name = "cluster-api-provider-aws-sigs-k8s-io"
global-iam-roles = ["nodes.cluster-api-provider-aws.sigs.k8s.io"]
global-iam-users = ["bootstrapper.cluster-api-provider-aws.sigs.k8s.io"]
s3-bucket-pattern = "krops-{account_id}-{cluster_name}-data"

[environments.local-host]
kind = "local-host"
sync = "oci"
sync-path = "mgmt/local-host"
mgmt-cluster = "local-management"
mgmt-ready-timeout = "15m"
infra-provider-namespace = "capd-system"
infra-provider-name = "docker"
provider-manifests = ["mgmt/local-host/capi-providers/capd-system/providers.yaml"]

[environments.local-host.teardown]
capi-workloads = ["local-workload"]
mgmt-container-prefix = "local-management"

[environments.aws]
kind = "aws"
sync = "github"
sync-path = "mgmt/aws"
mgmt-cluster = "eu-north-1-management"
mgmt-ready-timeout = "40m"
infra-provider-namespace = "capa-system"
infra-provider-name = "aws"
provider-manifests = [
  "mgmt/aws/capi-providers/capi-system/namespace.yaml",
  "mgmt/aws/capi-providers/capi-system/providers.yaml",
  "mgmt/aws/capi-providers/capa-system/namespace.yaml",
  "mgmt/aws/capi-providers/capa-system/providers.yaml",
  "mgmt/aws/capi-providers/caaph-system/namespace.yaml",
  "mgmt/aws/capi-providers/caaph-system/addon-provider.yaml",
]

[[environments.aws.move-fallbacks]]
resource = "awsclustercontrolleridentities.infrastructure.cluster.x-k8s.io"
name = "default"
manifest = "mgmt/aws/infrastructure/aws-identity/identity.yaml"

[environments.aws.teardown]
mgmt-eks-cluster-name = "default_eu-north-1-management-control-plane"
mgmt-iam-role-prefix = "eu-north-1-management"

[[environments.aws.teardown.aws-workloads]]
region = "eu-north-1"
cluster-name = "eu-north-1-workload"
eks-cluster-name = "default_eu-north-1-workload-control-plane"
rds-instance = "eu-north-1-workload-db"

[environments.local-talos]
kind = "local-talos"
sync = "github"
sync-path = "mgmt/local-talos"
mgmt-cluster = "talos-management"
mgmt-ready-timeout = "30m"
infra-provider-namespace = "tinkerbell-system"
infra-provider-name = "tinkerbell"
provider-manifests = []

[environments.local-talos.teardown]
hardware-release = true
"##;

fn repository() -> BootstrapConfig {
    let config = read(REPOSITORY);
    config.validate().unwrap();
    config
}

fn variables(pairs: &[(&str, &str)]) -> Variables {
    Variables {
        entries: pairs
            .iter()
            .map(|(name, value)| (name.to_string(), value.to_string()))
            .collect(),
    }
}

fn cli(profile: Option<&str>) -> Cli {
    Cli {
        profile: profile.map(String::from),
        recreate: false,
    }
}

fn home() -> Option<String> {
    Some("/home/op".to_string())
}

fn config_from<'a>(
    repo: &'a BootstrapConfig,
    profile: Option<&str>,
    pairs: &[(&str, &str)],
) -> Config<'a> {
    match Config::from_env(&cli(profile), repo, &variables(pairs), &home()) {
        Ok(config) => config,
        Err(failure) => panic!("{failure:?}"),
    }
}

fn reply(ok: bool, stdout: &str, stderr: &str) -> Reply {
    Reply {
        spawned: true,
        ok,
        status: if ok { "exit status: 0" } else { "exit status: 254" }.to_string(),
        stdout: stdout.to_string(),
        stderr: stderr.to_string(),
        http: 0,
        elapsed: 0,
    }
}

fn target() -> AwsSweepTarget {
    AwsSweepTarget {
        region: "eu-north-1".to_string(),
        cluster_name: "eu-north-1-workload".to_string(),
        eks_cluster_name: "default_eu-north-1-workload-control-plane".to_string(),
        rds_instance: "eu-north-1-workload-db".to_string(),
    }
}

const NOW: i64 = 1_767_225_600;

fn run(
    mut discovery: Discovery,
    respond: &mut dyn FnMut(&str) -> Reply,
) -> (DiscoveryReport, Vec<String>) {
    let mut lines = Vec::new();
    while let Some(command) = discovery.next() {
        assert_eq!(command.vars, vec![("AWS_PAGER".to_string(), "".to_string())]);
        let line = command.line();
        discovery.settle(&respond(&line));
        lines.push(line);
        assert!(lines.len() < 1000);
    }
    (discovery.report, lines)
}

#[test]
fn a_probe_tells_absence_from_failure() {
    let markers = vec!["ResourceNotFoundException".to_string()];
    assert!(matches!(
        aws_probe(&reply(true, "out", ""), &markers),
        ProbeResult::Present(text) if text == "out"
    ));
    assert!(matches!(
        aws_probe(&reply(false, "", "an error (RESOURCENOTFOUNDEXCEPTION) occurred"), &markers),
        ProbeResult::Absent
    ));
    assert!(matches!(
        aws_probe(&reply(false, "", "AccessDenied"), &markers),
        ProbeResult::Error(text) if text.contains("AccessDenied")
    ));
    assert!(matches!(
        aws_probe(&reply(false, "", "NotFound"), &Vec::new()),
        ProbeResult::Error(_)
    ));
}

#[test]
fn age_decides_what_an_orphan_is() {
    assert!(is_orphan(None, NOW, 24));
    assert!(is_orphan(Some(NOW - 25 * 3600), NOW, 24));
    assert!(!is_orphan(Some(NOW - 23 * 3600), NOW, 24));
    assert!(!is_orphan(Some(NOW + 3600), NOW, 24));
    assert!(!is_orphan(Some(i64::MAX), i64::MIN, u64::MAX));
    assert_eq!(age_hours(Some(NOW - 7199), NOW), Some(1));
    assert_eq!(age_hours(Some(NOW - 7200), NOW), Some(2));
    assert_eq!(age_hours(None, NOW), None);
}

#[test]
fn a_discovery_reads_everything_of_a_target() {
    let discovery = discover_with(vec![target()], 24, NOW);
    let (report, lines) = run(discovery, &mut |line| {
        if line.contains("get-caller-identity") {
            reply(true, "123456789012\n", "")
        } else if line.contains("describe-cluster ") {
            reply(true, "{\"cluster\":{\"createdAt\":\"2025-12-01T00:00:00Z\"}}", "")
        } else if line.contains("list-nodegroups") {
            reply(true, "pool-1\n", "")
        } else if line.contains("describe-nodegroup ") {
            reply(true, "{\"nodegroup\":{\"createdAt\":\"2025-12-31T23:00:00Z\"}}", "")
        } else if line.contains("describe-db-instances") {
            reply(false, "", "An error occurred (DBInstanceNotFound)")
        } else if line.contains("describe-vpcs") {
            reply(true, "vpc-1\n", "")
        } else if line.contains("describe-nat-gateways") {
            reply(
                true,
                "[{\"Id\":\"nat-1\",\"CreateTime\":\"2025-12-01T00:00:00Z\"},{\"Id\":\"nat-2\",\"CreateTime\":\"2025-12-31T23:00:00Z\"},{\"CreateTime\":\"2025-12-31T23:00:00Z\"}]",
                "",
            )
        } else if line.contains("describe-addresses") {
            reply(true, "eipalloc-1\teipalloc-2\n", "")
        } else {
            assert_eq!(line, "aws s3api list-buckets --output json");
            reply(
                true,
                "{\"Buckets\":[{\"Name\":\"krops-123456789012-eu-north-1-workload-data\",\"CreationDate\":\"2025-06-01T00:00:00Z\"},{\"Name\":\"krops-210987654321-eu-north-1-workload-data\",\"CreationDate\":\"2025-06-01T00:00:00Z\"},{\"Name\":\"other\"}]}",
                "",
            )
        }
    });
    assert_eq!(report.account_id, "123456789012");
    assert!(report.errors.is_empty(), "{:?}", report.errors);
    assert_eq!(report.scanned_at, NOW);
    let seen: Vec<(&str, &str, bool)> = report
        .findings
        .iter()
        .map(|f| (f.kind.as_str(), f.id.as_str(), f.is_orphan))
        .collect();
    assert_eq!(
        seen,
        vec![
            ("EKS Cluster", "default_eu-north-1-workload-control-plane", true),
            ("EKS Node Group", "pool-1", false),
            ("VPC", "vpc-1", true),
            ("NAT Gateway", "nat-1", true),
            ("NAT Gateway", "nat-2", false),
            ("Elastic IP", "eipalloc-1", true),
            ("Elastic IP", "eipalloc-2", true),
            ("S3 Bucket", "krops-123456789012-eu-north-1-workload-data", true),
        ]
    );
    let cluster = &report.findings[0];
    assert_eq!(cluster.created_at, parse_iso8601("2025-12-01T00:00:00Z"));
    assert_eq!(cluster.region, "eu-north-1");
    assert_eq!(cluster.cluster, "eu-north-1-workload");
    assert_eq!(report.findings[3].created_at, parse_iso8601("2025-12-01T00:00:00Z"));
    assert_eq!(report.findings[5].created_at, None);
    for line in &lines {
        assert!(!line.contains("delete"), "{line}");
        assert!(!line.contains("put-"), "{line}");
    }
    assert!(lines.contains(&"aws ec2 describe-addresses --filters Name=tag-key,Values=sigs.k8s.io/cluster-api-provider-aws/cluster/eu-north-1-workload --region eu-north-1 --query Addresses[].AllocationId --output text".to_string()), "{lines:?}");
    assert!(conclude(&report).is_ok());
    assert_eq!(orphan_count(&report.findings), 6);
    let markdown = render_markdown(&report, NOW, 24);
    assert!(markdown.contains("| NAT Gateway | eu-north-1 | nat-1 |"), "{markdown}");
    assert!(markdown.contains("| Elastic IP | eu-north-1 | eipalloc-2 |"), "{markdown}");
}

#[test]
fn a_bucket_belongs_to_a_cluster_by_its_name() {
    let account = "123456789012";
    let cluster = "eu-north-1-workload";
    assert!(is_bucket_of("krops-123456789012-eu-north-1-workload-data", account, cluster));
    assert!(is_bucket_of("krops-eu-north-1-workload-logs", account, cluster));
    assert!(is_bucket_of("eu-north-1-workload-logs", account, cluster));
    assert!(!is_bucket_of("krops-210987654321-eu-north-1-workload-data", account, cluster));
    assert!(!is_bucket_of("krops-123456789012-eu-north-1-management-data", account, cluster));
    assert!(!is_bucket_of("krops-123456789012-eu-north-1-workload", account, cluster));
    assert!(!is_bucket_of("my-eu-north-1-workload-data", account, cluster));
}

#[test]
fn addresses_that_cannot_be_listed_are_an_error() {
    let discovery = discover_with(vec![target()], 24, NOW);
    let (report, _) = run(discovery, &mut |line| {
        if line.contains("describe-addresses") {
            reply(false, "", "AccessDenied")
        } else if line.contains("get-caller-identity") {
            reply(true, "123456789012\n", "")
        } else {
            reply(true, "", "")
        }
    });
    assert_eq!(report.errors.len(), 1, "{:?}", report.errors);
    assert!(report.errors[0]
        .starts_with("Elastic IP discovery for cluster eu-north-1-workload: "));
    assert!(conclude(&report).is_err());
}

#[test]
fn unknown_outcomes_fail_the_discovery() {
    let discovery = discover_with(vec![target()], 24, NOW);
    let (report, _) = run(discovery, &mut |line| {
        if line.contains("get-caller-identity") {
            reply(true, "123456789012\n", "")
        } else {
            reply(false, "", "AccessDenied")
        }
    });
    assert!(report.findings.is_empty());
    assert!(report
        .errors
        .iter()
        .any(|e| e.starts_with("EKS cluster default_eu-north-1-workload-control-plane: ")));
    assert!(report
        .errors
        .iter()
        .any(|e| e.starts_with("RDS instance eu-north-1-workload-db: ")));
    assert_eq!(
        conclude(&report).unwrap_err(),
        format!(
            "Orphan discovery completed with {} error(s); see report above",
            report.errors.len()
        )
    );
}

#[test]
fn a_discovery_needs_the_account() {
    let discovery = discover_with(vec![target()], 24, NOW);
    let (report, _) = run(discovery, &mut |_| reply(false, "", "ExpiredToken"));
    assert!(report.errors[0].starts_with("Failed to get account ID: "));
    assert!(conclude(&report).is_err());
}

fn sample() -> DiscoveryReport {
    DiscoveryReport {
        account_id: "123456789012".to_string(),
        findings: vec![
            OrphanFinding {
                kind: "VPC".to_string(),
                region: "eu-north-1".to_string(),
                id: "vpc-1".to_string(),
                cluster: "w".to_string(),
                created_at: None,
                is_orphan: true,
            },
            OrphanFinding {
                kind: "EKS Cluster".to_string(),
                region: "eu-north-1".to_string(),
                id: "c \"1\"".to_string(),
                cluster: "w".to_string(),
                created_at: Some(NOW - 3600),
                is_orphan: false,
            },
        ],
        errors: vec!["S3 bucket listing: no".to_string()],
        scanned_at: NOW,
    }
}

#[test]
fn a_report_is_pretty_json() {
    let text = to_json(&sample(), NOW, 24);
    assert_eq!(
        text,
        "{\n  \"account_id\": \"123456789012\",\n  \"errors\": [\n    \"S3 bucket listing: no\"\n  ],\n  \"findings\": [\n    {\n      \"age_hours\": null,\n      \"cluster\": \"w\",\n      \"created_at\": null,\n      \"id\": \"vpc-1\",\n      \"is_orphan\": true,\n      \"kind\": \"VPC\",\n      \"region\": \"eu-north-1\"\n    },\n    {\n      \"age_hours\": 1,\n      \"cluster\": \"w\",\n      \"created_at\": 1767222000,\n      \"id\": \"c \\\"1\\\"\",\n      \"is_orphan\": false,\n      \"kind\": \"EKS Cluster\",\n      \"region\": \"eu-north-1\"\n    }\n  ],\n  \"min_age_hours\": 24,\n  \"orphan_count\": 1,\n  \"recent_count\": 1,\n  \"scanned_at\": 1767225600\n}"
    );
    let value = report_value(&sample(), NOW, 24);
    assert_eq!(serde_json::from_str::<serde_json::Value>(&text).unwrap(), value);
    assert_eq!(value["orphan_count"], 1);
    assert_eq!(value["recent_count"], 1);
}

#[test]
fn a_report_is_markdown() {
    let text = render_markdown(&sample(), NOW, 24);
    assert_eq!(
        text,
        "# AWS e2e Orphan Report\n\n**Account**: 123456789012\n**Scanned**: 2026-01-01 00:00:00 UTC\n**Min Age**: 24 hours\n\n**Orphans found: 1** (Recent: 1)\n\n| Kind | Region | ID | Cluster | Age (h) | Status |\n|------|--------|----|---------|---------|---------|\n| VPC | eu-north-1 | vpc-1 | w | - | Unknown |\n\n## Errors\n\n- S3 bucket listing: no\n\n## Remediation\n\nRun teardown to remove orphaned resources:\n```\nAWS_ONLY=1 mise run teardown aws\n```\n\n**Note**: This report does not scan IAM roles/users or CloudFormation stacks (usually free).\n"
    );
    let mut quiet = sample();
    quiet.findings.remove(0);
    quiet.errors.clear();
    assert!(render_markdown(&quiet, NOW, 24).contains(
        "**All resources are recent** (no orphans, 1 resources < 24 hours old)\n\n## Remediation"
    ));
    quiet.findings.clear();
    assert!(render_markdown(&quiet, NOW, 24).contains("**No resources found.**\n\n## Remediation"));
}

#[test]
fn only_environments_with_aws_workloads_are_scanned() {
    let repo = repository();
    let ocfg = OrphansConfig::from_env(&variables(&[]));
    let local = config_from(&repo, Some("local-host"), &[]);
    assert_eq!(
        run_orphans(&local, &ocfg, NOW).err().unwrap(),
        "Orphan discovery is only supported for the 'aws' profile.\n       The 'local-host' profile has no AWS workloads to scan."
    );
    let aws = config_from(&repo, Some("aws"), &[]);
    let discovery = run_orphans(&aws, &ocfg, NOW).ok().unwrap();
    assert_eq!(discovery.targets.len(), 2);
}

#[test]
fn the_discovery_reads_its_settings() {
    let ocfg = OrphansConfig::from_env(&variables(&[]));
    assert_eq!(ocfg.min_age_hours, 6);
    assert!(ocfg.report_json.is_none());
    let ocfg = OrphansConfig::from_env(&variables(&[
        ("ORPHAN_MIN_AGE_HOURS", "48"),
        ("ORPHAN_REPORT_JSON", "/tmp/r.json"),
    ]));
    assert_eq!(ocfg.min_age_hours, 48);
    assert_eq!(ocfg.report_json.as_deref(), Some("/tmp/r.json"));
    let ocfg = OrphansConfig::from_env(&variables(&[("ORPHAN_MIN_AGE_HOURS", "soon")]));
    assert_eq!(ocfg.min_age_hours, 6);
}

// Placeholders

const LISTING: &str = "{\"items\":[{\"data\":{\"A\":\"one\"}},{},{\"data\":{\"A\":\"later\",\"B\":\"two\",\"N\":3}}]}";

#[test]
fn placeholders_are_filled_in() {
    assert_eq!(filled_in("a: ${A}, b: ${B}", LISTING), "a: one, b: two");
    assert_eq!(unfilled("a: ${A}, b: ${B}", LISTING), Vec::<String>::new());
    assert_eq!(unfilled("${A} ${MISSING} ${N}", LISTING), vec!["MISSING", "N"]);
    assert_eq!(unfilled("${A}", "no json"), vec!["A"]);
}

#[test]
fn plain_text_stays() {
    assert_eq!(filled_in("plain: $A {B} ü", LISTING), "plain: $A {B} ü");
    assert!(unfilled("plain: $A {B} ü", LISTING).is_empty());
}

#[test]
fn values_come_from_the_first_config_map_that_has_one() {
    let listing = serde_json::from_str::<serde_json::Value>(LISTING).ok();
    assert_eq!(provided(&listing, "A").as_deref(), Some("one"));
    assert_eq!(provided(&listing, "B").as_deref(), Some("two"));
    assert_eq!(provided(&listing, "N"), None);
    assert_eq!(provided(&None, "A"), None);
}
