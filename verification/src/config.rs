//! The repository's bootstrap configuration, `bootstrap.toml`.
use indexmap::IndexMap;
use vstd::prelude::*;

use crate::text::{cat3, join, join_spec, push_text, same, texts};

verus! {

/// `indexmap::IndexMap`, a map that keeps the order in which its keys came; Verus sees nothing
/// inside it.
#[verifier::external_type_specification]
#[verifier::external_body]
#[verifier::reject_recursive_types(K)]
#[verifier::reject_recursive_types(V)]
#[verifier::reject_recursive_types(S)]
pub struct ExIndexMap<K, V, S>(IndexMap<K, V, S>);

/// Root of the parsed `bootstrap.toml`.
#[derive(Debug)]
pub struct BootstrapConfig {
    pub bootstrap: BootstrapSection,
    pub charts: IndexMap<String, String>,
    /// Teardown constants: the names of the AWS orphan sweep.
    pub teardown: TeardownSection,
    /// Environments keyed by section name, in file order.
    pub environments: IndexMap<String, Environment>,
}

/// Global names carried in `[bootstrap]`.
#[derive(Debug)]
pub struct BootstrapSection {
    pub default_environment: String,
    pub git_branch: String,
    pub kind_cluster: String,
    pub kind_context: String,
    pub registry_name: String,
    pub flux_namespace: String,
    pub github_pat_secret: String,
    pub sops_age_secret: String,
    pub mgmt_namespace: String,
    pub mgmt_context: String,
}

/// Where an environment's FluxInstance pulls its configuration from.
#[derive(Clone, Copy, Debug, PartialEq, Eq, Structural)]
pub enum SyncSource {
    /// A GitRepository on GitHub, authenticated by the PAT secret.
    Github,
    /// An OCI artifact that is published from the checkout to the local registry.
    Oci,
}

/// One `[environments.<name>]` section.
#[derive(Clone, Debug)]
pub struct Environment {
    pub kind: String,
    pub sync: SyncSource,
    pub sync_path: String,
    pub mgmt_cluster: String,
    pub mgmt_ready_timeout: String,
    pub infra_provider_namespace: String,
    pub infra_provider_name: String,
    pub provider_manifests: Vec<String>,
    pub move_fallbacks: Vec<MoveFallback>,
    /// SOPS-encrypted manifests that the pivot decrypts and applies to the target before the move.
    pub pivot_sops_secrets: Vec<String>,
    /// Mise task that is run once the kind bootstrap cluster exists.
    pub post_kind_create_task: Option<String>,
    /// Plain manifests that are applied to the pivot target before the move.
    pub pivot_manifests: Vec<String>,
    /// Teardown constants of this environment.
    pub teardown: TeardownEnv,
}

/// One `[[environments.<name>.move-fallbacks]]` entry.
#[derive(Clone, Debug)]
pub struct MoveFallback {
    pub resource: String,
    pub name: String,
    pub manifest: String,
}

/// Global `[teardown]` constants.
#[derive(Clone, Debug)]
pub struct TeardownSection {
    /// CloudFormation stack created by `clusterawsadm bootstrap iam`.
    pub cfn_stack_name: Option<String>,
    /// Region-independent IAM roles.
    pub global_iam_roles: Vec<String>,
    /// Region-independent IAM users.
    pub global_iam_users: Vec<String>,
    /// S3 bucket name pattern with `{account_id}` and `{cluster_name}` placeholders.
    pub s3_bucket_pattern: Option<String>,
}

/// One `[[environments.<name>.teardown.aws-workloads]]` entry: the AWS resources that a workload
/// cluster owns.
#[derive(Clone, Debug)]
pub struct AwsWorkload {
    /// AWS region the cluster's resources live in.
    pub region: String,
    /// Kubernetes Cluster name.
    pub cluster_name: String,
    /// EKS cluster name.
    pub eks_cluster_name: String,
    /// RDS instance identifier.
    pub rds_instance: String,
}

/// Per-environment teardown constants.
#[derive(Clone, Debug)]
pub struct TeardownEnv {
    /// AWS workload clusters that this environment manages.
    pub aws_workloads: Vec<AwsWorkload>,
    /// CAPD workload clusters to delete before the management cluster.
    pub capi_workloads: Vec<String>,
    /// Name prefix of the self-managed management cluster's containers.
    pub mgmt_container_prefix: Option<String>,
    /// The management cluster's own EKS cluster name.
    pub mgmt_eks_cluster_name: Option<String>,
    /// The management cluster's own IAM role prefix.
    pub mgmt_iam_role_prefix: Option<String>,
    /// Bare-metal semantics: deleting the CAPI objects releases the hardware.
    pub hardware_release: bool,
    /// Teardown is not automated: refuse to run and print this text instead.
    pub manual: Option<String>,
}

/// The charts and their versions, in file order.
pub uninterp spec fn chart_entries(charts: IndexMap<String, String>) -> Seq<(Seq<char>, Seq<char>)>;

/// The environments and their sections, in file order.
pub uninterp spec fn environment_entries(environments: IndexMap<String, Environment>) -> Seq<
    (Seq<char>, Environment),
>;

/// The value of the entry with the given key.
pub open spec fn find_entry<V>(entries: Seq<(Seq<char>, V)>, key: Seq<char>) -> Option<V>
    decreases entries.len(),
{
    if entries.len() == 0 {
        None
    } else if entries[0].0 == key {
        Some(entries[0].1)
    } else {
        find_entry(entries.skip(1), key)
    }
}

/// `IndexMap::get`: the version of the chart of that name.
#[verifier::external_body]
fn get_chart<'a>(charts: &'a IndexMap<String, String>, name: &str) -> (r: Option<&'a String>)
    ensures
        match r {
            Some(version) => find_entry(chart_entries(*charts), name@) == Some(version@),
            None => find_entry(chart_entries(*charts), name@) is None,
        },
{
    charts.get(name)
}

/// `IndexMap::get`: the section of the environment of that name.
#[verifier::external_body]
fn get_environment<'a>(environments: &'a IndexMap<String, Environment>, name: &str) -> (r: Option<
    &'a Environment,
>)
    ensures
        match r {
            Some(environment) => find_entry(environment_entries(*environments), name@) == Some(
                *environment,
            ),
            None => find_entry(environment_entries(*environments), name@) is None,
        },
{
    environments.get(name)
}

/// `IndexMap::len`: how many environments there are.
#[verifier::external_body]
fn count_environments(environments: &IndexMap<String, Environment>) -> (r: usize)
    ensures
        r == environment_entries(*environments).len(),
{
    environments.len()
}

/// `IndexMap::get_index`: the name and the section of the environment at that place.
#[verifier::external_body]
fn environment_at(environments: &IndexMap<String, Environment>, at: usize) -> (r: Option<
    (&String, &Environment),
>)
    ensures
        match r {
            Some((name, environment)) => at < environment_entries(*environments).len()
                && environment_entries(*environments)[at as int] == (name@, *environment),
            None => at >= environment_entries(*environments).len(),
        },
{
    environments.get_index(at)
}

impl Default for TeardownSection {
    fn default() -> (r: Self)
        ensures
            r.cfn_stack_name is None,
            r.global_iam_roles@ == Seq::<String>::empty(),
            r.global_iam_users@ == Seq::<String>::empty(),
            r.s3_bucket_pattern is None,
    {
        TeardownSection {
            cfn_stack_name: None,
            global_iam_roles: Vec::new(),
            global_iam_users: Vec::new(),
            s3_bucket_pattern: None,
        }
    }
}

impl Default for TeardownEnv {
    fn default() -> (r: Self)
        ensures
            r.aws_workloads@ == Seq::<AwsWorkload>::empty(),
            r.capi_workloads@ == Seq::<String>::empty(),
            r.mgmt_container_prefix is None,
            r.mgmt_eks_cluster_name is None,
            r.mgmt_iam_role_prefix is None,
            !r.hardware_release,
            r.manual is None,
    {
        TeardownEnv {
            aws_workloads: Vec::new(),
            capi_workloads: Vec::new(),
            mgmt_container_prefix: None,
            mgmt_eks_cluster_name: None,
            mgmt_iam_role_prefix: None,
            hardware_release: false,
            manual: None,
        }
    }
}

/// The names of the environments in single quotes, in file order.
pub open spec fn quoted_names(entries: Seq<(Seq<char>, Environment)>) -> Seq<Seq<char>> {
    entries.map_values(|entry: (Seq<char>, Environment)| "'"@ + entry.0 + "'"@)
}

/// Whether every environment's kind is its section name.
pub open spec fn kinds_match(entries: Seq<(Seq<char>, Environment)>) -> bool {
    forall|i: int| 0 <= i < entries.len() ==> (#[trigger] entries[i]).1.kind@ == entries[i].0
}

/// Whether the environment at `at` is the first whose kind is not its section name.
pub open spec fn first_mismatch(entries: Seq<(Seq<char>, Environment)>, at: int) -> bool {
    0 <= at < entries.len() && entries[at].1.kind@ != entries[at].0 && forall|i: int|
        0 <= i < at ==> (#[trigger] entries[i]).1.kind@ == entries[i].0
}

impl BootstrapConfig {
    /// The environments and their sections, in file order.
    pub open spec fn entries(self) -> Seq<(Seq<char>, Environment)> {
        environment_entries(self.environments)
    }

    /// The section of the environment of that name.
    pub open spec fn find(self, name: Seq<char>) -> Option<Environment> {
        find_entry(self.entries(), name)
    }

    /// The version of the chart of that name.
    pub open spec fn chart_version(self, name: Seq<char>) -> Option<Seq<char>> {
        find_entry(chart_entries(self.charts), name)
    }

    /// The configuration is usable: there are environments, each names itself, and the default is
    /// one of them.
    pub open spec fn valid(self) -> bool {
        self.entries().len() > 0 && kinds_match(self.entries()) && self.find(
            self.bootstrap.default_environment@,
        ) is Some
    }

    /// The config path: the value of `BOOTSTRAP_CONFIG` when it is set and not empty, else
    /// `bootstrap.toml` in the working directory.
    pub fn locate(bootstrap_config: Option<String>) -> (r: String)
        ensures
            r@ == match bootstrap_config {
                Some(path) if path@.len() > 0 => path@,
                _ => "bootstrap.toml"@,
            },
    {
        match bootstrap_config {
            Some(path) => if crate::text::is_nothing(path.as_str()) {
                "bootstrap.toml".to_owned()
            } else {
                path
            },
            None => "bootstrap.toml".to_owned(),
        }
    }

    /// Cross-field validation that is done after parsing.
    pub fn validate(&self) -> (r: Result<(), String>)
        ensures
            r is Ok <==> self.valid(),
            match r {
                Ok(_) => true,
                Err(message) => {
                    let entries = self.entries();
                    let default = self.bootstrap.default_environment@;
                    if entries.len() == 0 {
                        message@ == "no [environments.*] sections in bootstrap config"@
                    } else if kinds_match(entries) {
                        message@ == "bootstrap.default-environment '"@ + default
                            + "' is not an [environments.*] section"@
                    } else {
                        exists|at: int| #[trigger]
                            first_mismatch(entries, at) && message@ == "environments."@
                                + entries[at].0 + " kind '"@ + entries[at].1.kind@
                                + "' must match its section name"@
                    }
                },
            },
    {
        let count = count_environments(&self.environments);
        if count == 0 {
            return Err("no [environments.*] sections in bootstrap config".to_owned());
        }
        let mut i: usize = 0;
        while i < count
            invariant
                i <= count,
                count == self.entries().len(),
                forall|j: int|
                    0 <= j < i ==> (#[trigger] self.entries()[j]).1.kind@ == self.entries()[j].0,
            decreases count - i,
        {
            match environment_at(&self.environments, i) {
                Some((name, environment)) => {
                    if !same(environment.kind.as_str(), name.as_str()) {
                        assert(first_mismatch(self.entries(), i as int));
                        return Err(
                            crate::text::cat5(
                                "environments.",
                                name.as_str(),
                                " kind '",
                                environment.kind.as_str(),
                                "' must match its section name",
                            ),
                        );
                    }
                },
                None => {},
            }
            i = i + 1;
        }
        let default = self.bootstrap.default_environment.as_str();
        match get_environment(&self.environments, default) {
            Some(_) => Ok(()),
            None => Err(
                cat3(
                    "bootstrap.default-environment '",
                    default,
                    "' is not an [environments.*] section",
                ),
            ),
        }
    }

    /// Resolve an environment by name; the error lists the valid names in file order.
    pub fn environment(&self, name: &str) -> (r: Result<&Environment, String>)
        ensures
            match r {
                Ok(environment) => self.find(name@) == Some(*environment),
                Err(message) => self.find(name@) is None && message@
                    == self.unsupported_message_spec(name@),
            },
    {
        match get_environment(&self.environments, name) {
            Some(environment) => Ok(environment),
            None => Err(self.unsupported_message(name)),
        }
    }

    /// The error message for an unknown environment name: it lists the valid names in file order.
    pub open spec fn unsupported_message_spec(self, name: Seq<char>) -> Seq<char> {
        "unsupported profile '"@ + name + "' (expected "@ + join_spec(
            quoted_names(self.entries()),
            " or "@,
        ) + ")"@
    }

    /// The error message for an unknown environment name: it lists the valid names in file order.
    pub fn unsupported_message(&self, name: &str) -> (r: String)
        ensures
            r@ == self.unsupported_message_spec(name@),
    {
        let count = count_environments(&self.environments);
        let mut names: Vec<String> = Vec::new();
        let mut i: usize = 0;
        assert(texts(names@) =~= quoted_names(self.entries()).take(0));
        while i < count
            invariant
                i <= count,
                count == self.entries().len(),
                texts(names@) == quoted_names(self.entries()).take(i as int),
            decreases count - i,
        {
            match environment_at(&self.environments, i) {
                Some((name, environment)) => {
                    assert(quoted_names(self.entries()).take(i + 1) =~= quoted_names(
                        self.entries(),
                    ).take(i as int).push("'"@ + name@ + "'"@));
                    push_text(&mut names, cat3("'", name.as_str(), "'"));
                },
                None => {},
            }
            i = i + 1;
        }
        assert(quoted_names(self.entries()).take(count as int) =~= quoted_names(self.entries()));
        crate::text::cat5(
            "unsupported profile '",
            name,
            "' (expected ",
            join(&names, " or ").as_str(),
            ")",
        )
    }

    /// The pinned version of a chart; the error names the chart.
    pub fn chart(&self, name: &str) -> (r: Result<String, String>)
        ensures
            match r {
                Ok(version) => self.chart_version(name@) == Some(version@),
                Err(message) => self.chart_version(name@) is None && message@ == "charts."@ + name@
                    + " missing from bootstrap.toml"@,
            },
    {
        match get_chart(&self.charts, name) {
            Some(version) => Ok(version.clone()),
            None => Err(cat3("charts.", name, " missing from bootstrap.toml")),
        }
    }
}

} // verus!
