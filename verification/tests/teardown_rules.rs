use krops_bootstrap::aws::{
    capa_tag_key, manual_teardown_refusal, mgmt_region, s3_bucket_name, AwsSweepTarget,
};
use krops_bootstrap::config::TeardownEnv;
use krops_bootstrap::context::TeardownConfig;
use krops_bootstrap::kube::{
    classify, parse_workloads, probe, HostGuard, K8sTarget, ProbeOutcome,
};
use krops_bootstrap::settings::Variables;
use krops_bootstrap::teardown::{
    count_left, prefixed, provider_parts, release_missing, ProviderKind, NS_NAME_JSONPATH,
};

fn variables(pairs: &[(&str, &str)]) -> Variables {
    Variables {
        entries: pairs
            .iter()
            .map(|(name, value)| (name.to_string(), value.to_string()))
            .collect(),
    }
}

fn home() -> Option<String> {
    Some("/home/op".to_string())
}

#[test]
fn manual_teardown_is_refused_with_text() {
    let td = TeardownEnv {
        manual: Some("hand".into()),
        ..Default::default()
    };
    let msg = manual_teardown_refusal("azure", &td).unwrap();
    assert!(msg.starts_with("teardown is manual for the 'azure' environment:"));
    assert!(msg.ends_with("hand"));
    assert!(manual_teardown_refusal("aws", &TeardownEnv::default()).is_none());
}

#[test]
fn guard_resolves_the_script_contract() {
    assert_eq!(HostGuard::resolve(true, false), HostGuard::ConfirmedGone);
    assert_eq!(HostGuard::resolve(false, false), HostGuard::Refuse);
    assert_eq!(HostGuard::resolve(false, true), HostGuard::Forced);
    assert_eq!(HostGuard::resolve(true, true), HostGuard::Forced);
}

#[test]
fn refusal_message_keeps_the_script_wording() {
    let msg = HostGuard::refusal_message("the management cluster");
    assert!(msg.contains("Refusing to delete the management cluster"));
    assert!(msg.contains("FORCE_KIND_DELETE=1"));
    assert!(msg.contains("kubectl get clusters -A' is empty"));
}

#[test]
fn s3_bucket_name_substitutes_the_config_pattern() {
    assert_eq!(
        s3_bucket_name(
            "krops-{account_id}-{cluster_name}-data",
            "123456789012",
            "eu-north-1-workload"
        ),
        "krops-123456789012-eu-north-1-workload-data"
    );
}

#[test]
fn capa_tag_key_matches_the_provider_format() {
    assert_eq!(
        capa_tag_key("eu-north-1-workload"),
        "sigs.k8s.io/cluster-api-provider-aws/cluster/eu-north-1-workload"
    );
}

#[test]
fn aws_sweep_target_derives_the_mgmt_entry() {
    let t = AwsSweepTarget::mgmt(
        "eu-north-1",
        "eu-north-1-management",
        "default_eu-north-1-management-control-plane",
    );
    assert_eq!(t.capa_tag_key(), capa_tag_key("eu-north-1-management"));
    assert_eq!(
        t.bucket_name("krops-{account_id}-{cluster_name}-data", "acct"),
        "krops-acct-eu-north-1-management-data"
    );
}

#[test]
fn ns_name_jsonpath_bytes_match_the_live_verified_form() {
    assert_eq!(
        NS_NAME_JSONPATH,
        "jsonpath={range .items[*]}{.metadata.namespace}/{.metadata.name}{\"\\n\"}{end}"
    );
    assert_eq!(NS_NAME_JSONPATH.matches('\\').count(), 1);
}

#[test]
fn teardown_knobs_follow_shell_boolean_semantics() {
    let on = |v: Option<&str>| {
        let vars = match v {
            Some(value) => variables(&[("AWS_ONLY", value)]),
            None => variables(&[]),
        };
        TeardownConfig::from_env(&vars, &home()).unwrap().aws_only
    };
    assert!(on(Some("1")));
    assert!(!on(Some("0")));
    assert!(!on(Some("true")));
    assert!(!on(None));
}

#[test]
fn teardown_timeouts_parse_and_default() {
    let cfg = TeardownConfig::from_env(&variables(&[]), &home()).unwrap();
    assert_eq!(cfg.cluster_delete_timeout, 1200);
    assert_eq!(cfg.provider_delete_timeout, 300);
    assert_eq!(cfg.mgmt_kubeconfig, "/home/op/.kube/krops-mgmt.yaml");
    let cfg =
        TeardownConfig::from_env(&variables(&[("CLUSTER_DELETE_TIMEOUT", "60")]), &home()).unwrap();
    assert_eq!(cfg.cluster_delete_timeout, 60);
}

#[test]
fn teardown_rejects_non_numeric_timeouts() {
    assert!(TeardownConfig::from_env(
        &variables(&[("CLUSTER_DELETE_TIMEOUT", "forever")]),
        &home()
    )
    .is_err());
    assert_eq!(
        TeardownConfig::from_env(&variables(&[("PROVIDER_DELETE_TIMEOUT", "-1")]), &home())
            .unwrap_err()
            .message,
        "PROVIDER_DELETE_TIMEOUT must be a number of seconds"
    );
    assert_eq!(
        TeardownConfig::from_env(&variables(&[("PROVIDER_DELETE_TIMEOUT", "-1")]), &home())
            .unwrap_err()
            .causes,
        vec!["invalid digit found in string"]
    );
}

#[test]
fn teardown_needs_a_home() {
    assert_eq!(
        TeardownConfig::from_env(&variables(&[]), &None).unwrap_err().message,
        "HOME is not set; cannot locate the management kubeconfig"
    );
}

#[test]
fn targets_select_a_cluster_for_kubectl_and_for_helm() {
    let kind = K8sTarget::Kind {
        context: "kind-mgmt".into(),
    };
    assert_eq!(kind.prefix(), vec!["--context", "kind-mgmt"]);
    assert_eq!(kind.helm_prefix(), vec!["--kube-context", "kind-mgmt"]);
    let own = K8sTarget::SelfManaged {
        kubeconfig: "/tmp/mgmt.yaml".into(),
    };
    assert_eq!(own.prefix(), vec!["--kubeconfig", "/tmp/mgmt.yaml"]);
    assert_eq!(own.helm_prefix(), vec!["--kubeconfig", "/tmp/mgmt.yaml"]);
}

#[test]
fn probe_classifies_absent_present_and_error() {
    assert_eq!(probe(true, "", "", false), ProbeOutcome::Absent);
    assert_eq!(probe(true, "name1\n", "", false), ProbeOutcome::Present);
    assert_eq!(
        probe(
            false,
            "",
            "Error from server (NotFound): clusters not found\n",
            true
        ),
        ProbeOutcome::Absent
    );
    assert_eq!(
        probe(false, "", "The request could not be satisfied\n", false),
        ProbeOutcome::Error
    );
}

#[test]
fn missing_resource_type_reads_as_confirmed_absence() {
    let stderr = "error: the server doesn't have a resource type \"addonproviders\"\n";
    assert_eq!(probe(false, "", stderr, false), ProbeOutcome::Absent);
    assert_eq!(probe(false, "", stderr, true), ProbeOutcome::Absent);
}

#[test]
fn not_found_is_no_absence_of_a_list_whatever_its_case() {
    assert_eq!(
        probe(false, "", "Error from server (NotFound): x", false),
        ProbeOutcome::Error
    );
    assert_eq!(probe(false, "NOT FOUND", "", true), ProbeOutcome::Absent);
    assert_eq!(classify(false, "", "not found", true), ProbeOutcome::Absent);
    assert_eq!(classify(false, "", "NOT FOUND", true), ProbeOutcome::Error);
}

#[test]
fn workloads_are_sorted_distinct_and_without_the_management_cluster() {
    let listing = "cluster.cluster.x-k8s.io/w2\n cluster.cluster.x-k8s.io/mgmt \ncluster.cluster.x-k8s.io/w1\nw2\n";
    assert_eq!(parse_workloads(listing, "mgmt"), vec!["w1", "w2"]);
    assert!(parse_workloads("cluster.cluster.x-k8s.io/mgmt\n", "mgmt").is_empty());
}

#[test]
fn the_region_of_the_management_cluster_is_in_its_name() {
    assert_eq!(mgmt_region("eu-north-1-management"), "eu-north-1");
    assert_eq!(mgmt_region("short"), "short");
}

#[test]
fn providers_without_a_namespace_are_in_the_default_one() {
    assert_eq!(
        provider_parts("capa-system/aws"),
        ("capa-system".to_string(), "aws".to_string())
    );
    assert_eq!(
        provider_parts("aws"),
        ("default".to_string(), "aws".to_string())
    );
}

#[test]
fn providers_are_counted_kind_by_kind() {
    assert_eq!(ProviderKind::Addon.next(), Some(ProviderKind::ControlPlane));
    assert_eq!(ProviderKind::Core.next(), None);
    assert_eq!(
        ProviderKind::Core.resource(),
        "coreproviders.operator.cluster.x-k8s.io"
    );
    assert_eq!(count_left(ProbeOutcome::Present, "a 1\n\nb 2\n", 3), 5);
    assert_eq!(count_left(ProbeOutcome::Absent, "", 3), 3);
    assert_eq!(
        count_left(ProbeOutcome::Present, "a\n", u64::MAX),
        u64::MAX
    );
}

#[test]
fn containers_are_picked_by_prefix() {
    assert_eq!(
        prefixed("local-management-lb\nother\n local-management-cp-0 \n", "local-management"),
        vec!["local-management-lb", "local-management-cp-0"]
    );
}

#[test]
fn a_release_without_a_status_is_not_installed() {
    assert!(release_missing(""));
    assert!(release_missing("Error: release: not found"));
    assert!(!release_missing("NAME: flux\nSTATUS: deployed"));
}
