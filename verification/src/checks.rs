//! Pure checks and readings of the texts that the tools print and the operator supplies.
use vstd::prelude::*;

use crate::config::{Environment, SyncSource};
use crate::failure::{Failure, FailureView};
use crate::json::{boolean, json_tree, object, with, JsonTree};
use crate::number::{
    all_digits, all_digits_spec, decimal, decimal_spec, number_spec, parse_unsigned,
    unsigned_reason, unsigned_reason_spec,
};
use crate::text::{
    after_last, after_last_spec, cat3, cat5, first_line, first_line_spec, is_nothing, lines,
    lines_spec, optional, push_text, split_once, split_once_spec, starts_with_spec, strip_prefix,
    strip_prefix_spec, strip_suffix, strip_suffix_spec, strs, texts, trim, trim_spec, trim_suffixes,
    trim_suffixes_spec,
};

verus! {

/// The `owner/repo` of an HTTPS GitHub repository URL, without trailing slashes and `.git`.
pub open spec fn parse_github_repo_spec(url: Seq<char>) -> Option<Seq<char>> {
    match strip_prefix_spec(url, "https://github.com/"@) {
        Some(rest) => {
            let repo = trim_suffixes_spec(trim_suffixes_spec(rest, "/"@), ".git"@);
            match split_once_spec(repo, '/') {
                Some((owner, name)) => if owner.len() == 0 || name.len() == 0 || split_once_spec(
                    name,
                    '/',
                ) is Some {
                    None
                } else {
                    Some(repo)
                },
                None => None,
            }
        },
        None => None,
    }
}

/// Parse `owner/repo` out of an HTTPS GitHub repository URL.
pub fn parse_github_repo(url: &str) -> (r: Option<String>)
    ensures
        optional(r) == parse_github_repo_spec(url@),
{
    match strip_prefix(url, "https://github.com/") {
        Some(rest) => {
            let repo = trim_suffixes(trim_suffixes(rest.as_str(), "/").as_str(), ".git");
            match split_once(repo.as_str(), '/') {
                Some((owner, name)) => {
                    if is_nothing(owner.as_str()) || is_nothing(name.as_str()) {
                        return None;
                    }
                    match split_once(name.as_str(), '/') {
                        Some(_) => None,
                        None => Some(repo),
                    }
                },
                None => None,
            }
        },
        None => None,
    }
}

/// What follows the prefix on the first of the lines that begins with it.
pub open spec fn first_after(all: Seq<Seq<char>>, prefix: Seq<char>) -> Option<Seq<char>>
    decreases all.len(),
{
    if all.len() == 0 {
        None
    } else if starts_with_spec(all[0], prefix) {
        Some(all[0].skip(prefix.len() as int))
    } else {
        first_after(all.skip(1), prefix)
    }
}

/// What follows the prefix on the first of the lines that begins with it.
fn find_after(all: &Vec<String>, prefix: &str) -> (r: Option<String>)
    ensures
        optional(r) == first_after(texts(all@), prefix@),
{
    let mut i: usize = 0;
    assert(texts(all@).skip(0) =~= texts(all@));
    while i < all.len()
        invariant
            i <= all.len(),
            first_after(texts(all@).skip(i as int), prefix@) == first_after(texts(all@), prefix@),
        decreases all.len() - i,
    {
        assert(texts(all@).skip(i as int)[0] == all@[i as int]@);
        assert(texts(all@).skip(i as int).skip(1) =~= texts(all@).skip(i + 1));
        match strip_prefix(all[i].as_str(), prefix) {
            Some(rest) => {
                return Some(rest);
            },
            None => {},
        }
        i = i + 1;
    }
    None
}

/// The text without the white space around it, where that leaves something.
pub open spec fn filled(text: Option<Seq<char>>) -> Option<Seq<char>> {
    match text {
        Some(text) if trim_spec(text).len() > 0 => Some(trim_spec(text)),
        _ => None,
    }
}

fn fill(text: Option<String>) -> (r: Option<String>)
    ensures
        optional(r) == filled(optional(text)),
{
    match text {
        Some(text) => {
            let trimmed = trim(text.as_str());
            if is_nothing(trimmed.as_str()) {
                None
            } else {
                Some(trimmed)
            }
        },
        None => None,
    }
}

/// Whether a line of the text begins with the prefix.
pub open spec fn has_prefixed_line(content: Seq<char>, prefix: Seq<char>) -> bool {
    first_after(lines_spec(content), prefix) is Some
}

/// The required fields that an age key file lacks: the creation header, the public key comment and
/// the secret key line, in this order.
pub open spec fn validate_age_key_spec(content: Seq<char>) -> Seq<Seq<char>> {
    let created = if has_prefixed_line(content, "# created:"@) {
        Seq::empty()
    } else {
        Seq::empty().push("# created: header"@)
    };
    let public = if has_prefixed_line(content, "# public key:"@) {
        created
    } else {
        created.push("# public key: comment"@)
    };
    if has_prefixed_line(content, "AGE-SECRET-KEY-"@) {
        public
    } else {
        public.push("AGE-SECRET-KEY- line"@)
    }
}

/// Validate an age key file's three required fields; returns the missing field names.
pub fn validate_age_key(content: &str) -> (missing: Vec<String>)
    ensures
        texts(missing@) == validate_age_key_spec(content@),
{
    let all = lines(content);
    let mut missing: Vec<String> = Vec::new();
    assert(texts(missing@) =~= Seq::empty());
    if find_after(&all, "# created:").is_none() {
        push_text(&mut missing, "# created: header".to_owned());
    }
    if find_after(&all, "# public key:").is_none() {
        push_text(&mut missing, "# public key: comment".to_owned());
    }
    if find_after(&all, "AGE-SECRET-KEY-").is_none() {
        push_text(&mut missing, "AGE-SECRET-KEY- line".to_owned());
    }
    missing
}

/// The public key in an age key file: what its first public key comment holds.
pub open spec fn extract_age_pubkey_spec(content: Seq<char>) -> Option<Seq<char>> {
    filled(first_after(lines_spec(content), "# public key: "@))
}

/// Extract the public key from a validated age key file.
pub fn extract_age_pubkey(content: &str) -> (r: Option<String>)
    ensures
        optional(r) == extract_age_pubkey_spec(content@),
{
    fill(find_after(&lines(content), "# public key: "))
}

/// The host port in the first line of `<engine> port` output: the digits after its last colon.
pub open spec fn extract_workload_port_spec(port_output: Seq<char>) -> Option<Seq<char>> {
    match first_line_spec(port_output) {
        Some(line) => match filled(Some(after_last_spec(line, ':'))) {
            Some(port) if all_digits_spec(port) => Some(port),
            _ => None,
        },
        None => None,
    }
}

/// Extract the numeric host port from `<engine> port` output ("0.0.0.0:32771").
pub fn extract_workload_port(port_output: &str) -> (r: Option<String>)
    ensures
        optional(r) == extract_workload_port_spec(port_output@),
{
    match first_line(port_output) {
        Some(line) => match fill(Some(after_last(line.as_str(), ':'))) {
            Some(port) => if all_digits(port.as_str()) {
                Some(port)
            } else {
                None
            },
            None => None,
        },
        None => None,
    }
}

/// The file that `KUBECONFIG` must name inside the toolbox; outside there is none.
pub open spec fn toolbox_kubeconfig_path_spec(
    toolbox: bool,
    kubeconfig: Option<Seq<char>>,
) -> Result<Option<Seq<char>>, Seq<char>> {
    if !toolbox {
        Ok(None)
    } else {
        match kubeconfig {
            Some(path) if path.len() > 0 => if split_once_spec(path, ':') is Some {
                Err("KUBECONFIG must name a single file when KROPS_TOOLBOX=1"@)
            } else {
                Ok(Some(path))
            },
            _ => Err("KUBECONFIG must name one writable file when KROPS_TOOLBOX=1"@),
        }
    }
}

/// The file that `KUBECONFIG` must name inside the toolbox; outside there is none.
pub fn toolbox_kubeconfig_path(toolbox: bool, kubeconfig: Option<&str>) -> (r: Result<
    Option<String>,
    String,
>)
    ensures
        match toolbox_kubeconfig_path_spec(
            toolbox,
            match kubeconfig {
                Some(path) => Some(path@),
                None => None,
            },
        ) {
            Ok(path) => r is Ok && optional(r->Ok_0) == path,
            Err(message) => r is Err && r->Err_0@ == message,
        },
{
    if !toolbox {
        return Ok(None);
    }
    match kubeconfig {
        Some(path) => {
            if is_nothing(path) {
                return Err(
                    "KUBECONFIG must name one writable file when KROPS_TOOLBOX=1".to_owned(),
                );
            }
            match split_once(path, ':') {
                Some(_) => Err("KUBECONFIG must name a single file when KROPS_TOOLBOX=1".to_owned()),
                None => Ok(Some(path.to_owned())),
            }
        },
        None => Err("KUBECONFIG must name one writable file when KROPS_TOOLBOX=1".to_owned()),
    }
}

/// The arguments with which kind prints the internal kubeconfig of a cluster.
pub fn internal_kind_kubeconfig_args<'a>(name: &'a str) -> (r: [&'a str; 5])
    ensures
        strs(r@) == seq!["get"@, "kubeconfig"@, "--internal"@, "--name"@, name@],
{
    let r = ["get", "kubeconfig", "--internal", "--name", name];
    assert(strs(r@) =~= seq!["get"@, "kubeconfig"@, "--internal"@, "--name"@, name@]);
    r
}

/// The lines of a text, without the white space around them.
pub open spec fn trimmed_lines(text: Seq<char>) -> Seq<Seq<char>> {
    lines_spec(text).map_values(|line: Seq<char>| trim_spec(line))
}

/// The `server:` endpoint recorded in a kubeconfig: what its first such line holds.
pub open spec fn capd_recorded_endpoint_spec(kubeconfig: Seq<char>) -> Option<Seq<char>> {
    filled(first_after(trimmed_lines(kubeconfig), "server: "@))
}

/// The `server:` endpoint recorded in a CAPD-exported kubeconfig.
pub fn capd_recorded_endpoint(kubeconfig: &str) -> (r: Option<String>)
    ensures
        optional(r) == capd_recorded_endpoint_spec(kubeconfig@),
{
    let all = lines(kubeconfig);
    let mut trimmed: Vec<String> = Vec::new();
    let mut i: usize = 0;
    assert(texts(all@).len() == all.len());
    assert(texts(trimmed@) =~= trimmed_lines(kubeconfig@).take(0));
    while i < all.len()
        invariant
            i <= all.len(),
            texts(all@) == lines_spec(kubeconfig@),
            texts(trimmed@) == trimmed_lines(kubeconfig@).take(i as int),
        decreases all.len() - i,
    {
        let line = trim(all[i].as_str());
        assert(texts(all@)[i as int] == all@[i as int]@);
        assert(trimmed_lines(kubeconfig@).take(i + 1) =~= trimmed_lines(kubeconfig@).take(
            i as int,
        ).push(line@));
        push_text(&mut trimmed, line);
        i = i + 1;
    }
    assert(trimmed_lines(kubeconfig@).take(all.len() as int) =~= trimmed_lines(kubeconfig@));
    fill(find_after(&trimmed, "server: "))
}

/// The kind cluster configuration: one control-plane node with the engine's socket mounted, and for
/// the local environment the registry mirror.
pub open spec fn render_kind_config_spec(
    is_local: bool,
    registry_port: int,
    engine_sock: Seq<char>,
    registry_name: Seq<char>,
) -> Seq<char> {
    let registry_patch = if is_local {
        "containerdConfigPatches:\n  - |-\n    [plugins.\"io.containerd.grpc.v1.cri\".registry.mirrors.\"localhost:"@
            + decimal_spec(registry_port) + "\"]\n      endpoint = [\"http://"@ + registry_name
            + ":5000\"]\n"@
    } else {
        ""@
    };
    "kind: Cluster\napiVersion: kind.x-k8s.io/v1alpha4\n"@ + registry_patch
        + "nodes:\n  - role: control-plane\n    extraMounts:\n      - hostPath: "@ + engine_sock
        + "\n        containerPath: /var/run/docker.sock\n"@
}

/// Render the kind cluster config.
pub fn render_kind_config(
    is_local: bool,
    registry_port: u16,
    engine_sock: &str,
    registry_name: &str,
) -> (r: String)
    ensures
        r@ == render_kind_config_spec(is_local, registry_port as int, engine_sock@, registry_name@),
{
    let registry_patch = if is_local {
        cat5(
            "containerdConfigPatches:\n  - |-\n    [plugins.\"io.containerd.grpc.v1.cri\".registry.mirrors.\"localhost:",
            decimal(registry_port as u64).as_str(),
            "\"]\n      endpoint = [\"http://",
            registry_name,
            ":5000\"]\n",
        )
    } else {
        "".to_owned()
    };
    cat5(
        "kind: Cluster\napiVersion: kind.x-k8s.io/v1alpha4\n",
        registry_patch.as_str(),
        "nodes:\n  - role: control-plane\n    extraMounts:\n      - hostPath: ",
        engine_sock,
        "\n        containerPath: /var/run/docker.sock\n",
    )
}

/// The digits of a duration and the seconds of its unit.
pub open spec fn duration_parts(s: Seq<char>) -> (Seq<char>, int) {
    match (
        strip_suffix_spec(s, "h"@),
        strip_suffix_spec(s, "m"@),
        strip_suffix_spec(s, "s"@),
    ) {
        (Some(digits), _, _) => (digits, 3600),
        (None, Some(digits), _) => (digits, 60),
        (None, None, Some(digits)) => (digits, 1),
        _ => (s, 1),
    }
}

/// The seconds of a duration such as `40m`, `2h`, `90s` or a bare second count, or why it is none.
pub open spec fn parse_duration_seconds_spec(input: Seq<char>) -> Result<int, FailureView> {
    let (digits, unit) = duration_parts(trim_spec(input));
    if digits.len() == 0 || !all_digits_spec(digits) {
        Err(
            FailureView::new(
                "invalid duration '"@ + input
                    + "' (expected forms like 40m, 2h, 90s, or bare seconds)"@,
            ),
        )
    } else if number_spec(digits) > u64::MAX {
        Err(
            FailureView::because(
                "duration '"@ + input + "' overflows"@,
                unsigned_reason_spec(digits, u64::MAX as int),
            ),
        )
    } else if number_spec(digits) * unit > u64::MAX {
        Err(FailureView::new("duration '"@ + input + "' overflows"@))
    } else {
        Ok(number_spec(digits) * unit)
    }
}

/// Parse a duration: `40m`, `2h`, `90s`, or a bare second count.
pub fn parse_duration_seconds(input: &str) -> (r: Result<u64, Failure>)
    ensures
        match r {
            Ok(n) => parse_duration_seconds_spec(input@) == Ok::<int, FailureView>(n as int),
            Err(failure) => parse_duration_seconds_spec(input@) == Err::<int, FailureView>(
                failure@,
            ),
        },
{
    let s = trim(input);
    let mut unit: u64 = 1;
    let mut digits = s.clone();
    match strip_suffix(s.as_str(), "h") {
        Some(d) => {
            digits = d;
            unit = 3600;
        },
        None => match strip_suffix(s.as_str(), "m") {
            Some(d) => {
                digits = d;
                unit = 60;
            },
            None => match strip_suffix(s.as_str(), "s") {
                Some(d) => {
                    digits = d;
                },
                None => {},
            },
        },
    }
    if is_nothing(digits.as_str()) || !all_digits(digits.as_str()) {
        return Err(
            Failure::new(
                cat3(
                    "invalid duration '",
                    input,
                    "' (expected forms like 40m, 2h, 90s, or bare seconds)",
                ),
            ),
        );
    }
    proof {
        assert(crate::number::is_digit_spec(digits@[0]));
        crate::number::number_natural(digits@);
    }
    match parse_unsigned(digits.as_str(), u64::MAX) {
        Some(n) => {
            let total: u128 = n as u128 * unit as u128;
            if total > u64::MAX as u128 {
                Err(Failure::new(cat3("duration '", input, "' overflows")))
            } else {
                Ok(total as u64)
            }
        },
        None => {
            Err(
                Failure::because(
                    cat3("duration '", input, "' overflows"),
                    unsigned_reason(digits.as_str(), u64::MAX).as_str(),
                ),
            )
        },
    }
}

/// The merge patch that suspends a Flux Kustomization.
pub open spec fn suspend_patch_spec() -> JsonTree {
    JsonTree::object().with("spec"@, JsonTree::object().with("suspend"@, JsonTree::Bool(true)))
}

/// The merge patch that suspends a Flux Kustomization.
pub fn suspend_patch() -> (r: serde_json::Value)
    ensures
        json_tree(r) == suspend_patch_spec(),
{
    with(object(), "spec", with(object(), "suspend", boolean(true)))
}

/// The merge patch that unpauses a moved Cluster.
pub open spec fn unpause_patch_spec() -> JsonTree {
    JsonTree::object().with("spec"@, JsonTree::object().with("paused"@, JsonTree::Bool(false)))
}

/// The merge patch that unpauses a moved Cluster.
pub fn unpause_patch() -> (r: serde_json::Value)
    ensures
        json_tree(r) == unpause_patch_spec(),
{
    with(object(), "spec", with(object(), "paused", boolean(false)))
}

/// The tools that every environment needs on `PATH`, and those that publishing and watching an OCI
/// source needs besides.
pub open spec fn required_tools_spec(sync: SyncSource) -> Seq<Seq<char>> {
    if sync == SyncSource::Oci {
        seq!["kind"@, "helm"@, "kubectl"@, "clusterctl"@, "mise"@, "flux"@, "curl"@]
    } else {
        seq!["kind"@, "helm"@, "kubectl"@, "clusterctl"@, "mise"@]
    }
}

/// Tools required on PATH for the given environment's sync source.
pub fn required_tools(env: &Environment) -> (tools: Vec<&'static str>)
    ensures
        strs(tools@) == required_tools_spec(env.sync),
{
    let mut tools: Vec<&'static str> = Vec::new();
    tools.push("kind");
    tools.push("helm");
    tools.push("kubectl");
    tools.push("clusterctl");
    tools.push("mise");
    if env.sync == SyncSource::Oci {
        tools.push("flux");
        tools.push("curl");
    }
    assert(strs(tools@) =~= required_tools_spec(env.sync));
    tools
}

} // verus!
