use krops_bootstrap::checks::{
    capd_recorded_endpoint, extract_age_pubkey, extract_workload_port,
    internal_kind_kubeconfig_args, parse_duration_seconds, parse_github_repo, render_kind_config,
    suspend_patch, toolbox_kubeconfig_path, unpause_patch, validate_age_key,
};

const VALID_AGE_KEY: &str = "# created: 2026-01-01T00:00:00+02:00\n# public key: age1qqqqqqqqqqqqqqqqqqqqqqqqqqqqqqqqqqqqqqqqqqqqqqqqqqqqqqqqqq\nAGE-SECRET-KEY-1SECRETSECRETSECRET\n";

#[test]
fn toolbox_kind_kubeconfig_uses_one_explicit_file() {
    assert_eq!(
        toolbox_kubeconfig_path(true, Some("/state/kind.yaml")).unwrap(),
        Some("/state/kind.yaml".to_string())
    );
    assert!(toolbox_kubeconfig_path(true, None)
        .unwrap_err()
        .to_string()
        .contains("KUBECONFIG"));
    assert!(toolbox_kubeconfig_path(true, Some("/a:/b"))
        .unwrap_err()
        .to_string()
        .contains("single file"));
    assert_eq!(toolbox_kubeconfig_path(false, None).unwrap(), None);
    assert!(toolbox_kubeconfig_path(true, Some("")).is_err());
}

#[test]
fn internal_kind_kubeconfig_command_targets_the_named_cluster() {
    assert_eq!(
        internal_kind_kubeconfig_args("mgmt"),
        ["get", "kubeconfig", "--internal", "--name", "mgmt"]
    );
}

#[test]
fn pivot_duration_parsing_matches_script_arithmetic() {
    assert_eq!(parse_duration_seconds("40m").unwrap(), 2400);
    assert_eq!(parse_duration_seconds("15m").unwrap(), 900);
    assert_eq!(parse_duration_seconds("90s").unwrap(), 90);
    assert_eq!(parse_duration_seconds("2h").unwrap(), 7200);
    assert_eq!(parse_duration_seconds("1200").unwrap(), 1200); // bare seconds
    assert_eq!(parse_duration_seconds(" 30m ").unwrap(), 1800); // trimmed
    for bad in ["", "m", "40x", "4-0m", "forty"] {
        assert!(parse_duration_seconds(bad).is_err(), "{bad:?}");
    }
}

#[test]
fn durations_that_overflow_are_errors() {
    assert_eq!(
        parse_duration_seconds("18446744073709551615").unwrap(),
        u64::MAX
    );
    assert_eq!(
        parse_duration_seconds("18446744073709551616").unwrap_err().message,
        "duration '18446744073709551616' overflows"
    );
    assert_eq!(
        parse_duration_seconds("18446744073709551616").unwrap_err().causes,
        vec!["number too large to fit in target type"]
    );
    assert_eq!(
        parse_duration_seconds("18446744073709551615h").unwrap_err().message,
        "duration '18446744073709551615h' overflows"
    );
    assert_eq!(
        parse_duration_seconds("forty").unwrap_err().message,
        "invalid duration 'forty' (expected forms like 40m, 2h, 90s, or bare seconds)"
    );
}

#[test]
fn parse_github_repo_accepts_https_urls() {
    for url in [
        "https://github.com/polarsquad/krops",
        "https://github.com/polarsquad/krops/",
        "https://github.com/polarsquad/krops.git",
    ] {
        assert_eq!(
            parse_github_repo(url).as_deref(),
            Some("polarsquad/krops"),
            "{url}"
        );
    }
}

#[test]
fn parse_github_repo_rejects_bad_urls() {
    for url in [
        "git@github.com:polarsquad/krops.git",
        "https://gitlab.com/polarsquad/krops",
        "https://github.com/polarsquad",
        "https://github.com//krops",
        "https://github.com/polarsquad/",
        "",
    ] {
        assert_eq!(parse_github_repo(url), None, "{url}");
    }
}

#[test]
fn github_urls_with_deeper_paths_are_rejected() {
    assert_eq!(parse_github_repo("https://github.com/a/b/c"), None);
    assert_eq!(
        parse_github_repo("https://github.com/a/b.git.git//").as_deref(),
        Some("a/b")
    );
}

#[test]
fn age_key_validation_passes_valid_file() {
    assert!(validate_age_key(VALID_AGE_KEY).is_empty());
    assert_eq!(
        extract_age_pubkey(VALID_AGE_KEY).as_deref(),
        Some("age1qqqqqqqqqqqqqqqqqqqqqqqqqqqqqqqqqqqqqqqqqqqqqqqqqqqqqqqqqq")
    );
}

#[test]
fn age_key_validation_reports_all_missing_fields() {
    let missing = validate_age_key("garbage\n");
    assert_eq!(
        missing,
        vec![
            "# created: header",
            "# public key: comment",
            "AGE-SECRET-KEY- line"
        ]
    );
    let missing = validate_age_key("# created: now\nAGE-SECRET-KEY-1X\n");
    assert_eq!(missing, vec!["# public key: comment"]);
}

#[test]
fn an_empty_public_key_comment_yields_no_key() {
    assert_eq!(extract_age_pubkey("# public key:   \n"), None);
    assert_eq!(extract_age_pubkey("# public key: \n# public key: age1x\n"), None);
}

#[test]
fn extract_workload_port_parses_engine_output() {
    assert_eq!(
        extract_workload_port("0.0.0.0:32771\n[::]:32771\n").as_deref(),
        Some("32771")
    );
    assert_eq!(
        extract_workload_port("127.0.0.1:6443\n").as_deref(),
        Some("6443")
    );
    assert_eq!(extract_workload_port(""), None);
    assert_eq!(extract_workload_port("garbage\n"), None);
    assert_eq!(extract_workload_port("0.0.0.0:\n"), None);
}

#[test]
fn recorded_endpoint_is_the_first_server_line() {
    let kubeconfig = "apiVersion: v1\nclusters:\n- cluster:\n    server: https://172.18.0.5:6443\n  name: x\n";
    assert_eq!(
        capd_recorded_endpoint(kubeconfig).as_deref(),
        Some("https://172.18.0.5:6443")
    );
    assert_eq!(capd_recorded_endpoint("apiVersion: v1\n"), None);
    assert_eq!(capd_recorded_endpoint("server:\nserver: x\n").as_deref(), Some("x"));
}

#[test]
fn kind_config_includes_registry_patch_for_local_host_only() {
    let local = render_kind_config(true, 5001, "/var/run/docker.sock", "krops-registry");
    assert!(local.contains("containerdConfigPatches"));
    assert!(local.contains("localhost:5001"));
    assert!(local.contains("http://krops-registry:5000"));
    assert!(local.contains("hostPath: /var/run/docker.sock"));

    let aws = render_kind_config(false, 5001, "/var/run/docker.sock", "krops-registry");
    assert!(!aws.contains("containerdConfigPatches"));
    assert!(aws.contains("kind: Cluster"));
    assert!(aws.contains("role: control-plane"));
}

#[test]
fn kind_config_text_is_exact() {
    assert_eq!(
        render_kind_config(true, 5001, "/sock", "reg"),
        "kind: Cluster\napiVersion: kind.x-k8s.io/v1alpha4\ncontainerdConfigPatches:\n  - |-\n    [plugins.\"io.containerd.grpc.v1.cri\".registry.mirrors.\"localhost:5001\"]\n      endpoint = [\"http://reg:5000\"]\nnodes:\n  - role: control-plane\n    extraMounts:\n      - hostPath: /sock\n        containerPath: /var/run/docker.sock\n"
    );
}

#[test]
fn suspend_and_unpause_patch_payloads_match_script() {
    assert_eq!(suspend_patch().to_string(), r#"{"spec":{"suspend":true}}"#);
    assert_eq!(unpause_patch().to_string(), r#"{"spec":{"paused":false}}"#);
}
