//! The run configuration: the command line, the repository configuration and the environment.
use vstd::prelude::*;

use crate::checks::{parse_duration_seconds, parse_duration_seconds_spec};
use crate::config::{BootstrapConfig, Environment, SyncSource};
use crate::failure::{Failure, FailureView};
use crate::number::{parse_unsigned, parse_unsigned_spec, unsigned_reason, unsigned_reason_spec};
use crate::text::{cat2, cat3, ends_with, ends_with_spec, is_nothing, optional, same};

verus! {

pub const DEFAULT_REGISTRY_PORT: u16 = 5001;

pub const DEFAULT_REGISTRY_READY_RETRIES: u32 = 120;

pub const DEFAULT_MGMT_POLL_INTERVAL: u64 = 10;

/// The names and values of the process environment.
pub struct Variables {
    pub entries: Vec<(String, String)>,
}

impl Variables {
    /// The value of the first entry of that name, from `from` on, where it is not empty.
    pub open spec fn value_from(self, name: Seq<char>, from: int) -> Option<Seq<char>>
        decreases self.entries@.len() - from,
    {
        if from < 0 || from >= self.entries@.len() {
            None
        } else if self.entries@[from].0@ == name {
            if self.entries@[from].1@.len() > 0 {
                Some(self.entries@[from].1@)
            } else {
                None
            }
        } else {
            self.value_from(name, from + 1)
        }
    }

    /// The value of a variable; an empty value counts as none.
    pub open spec fn value_spec(self, name: Seq<char>) -> Option<Seq<char>> {
        self.value_from(name, 0)
    }

    /// The value of a variable, or the default where it is unset or empty.
    pub open spec fn value_or_spec(self, name: Seq<char>, default: Seq<char>) -> Seq<char> {
        match self.value_spec(name) {
            Some(value) => value,
            None => default,
        }
    }

    /// Whether the variable has the literal value `1`.
    pub open spec fn enabled_spec(self, name: Seq<char>) -> bool {
        self.value_spec(name) == Some("1"@)
    }

    /// The number that a variable holds, or the default where it is unset or empty; none where its
    /// value is no number up to `max`.
    pub open spec fn number_spec(self, name: Seq<char>, default: int, max: int) -> Option<int> {
        match self.value_spec(name) {
            Some(value) => parse_unsigned_spec(value, max),
            None => Some(default),
        }
    }

    /// Why the value of a variable is no number up to `max`, where it is none.
    pub open spec fn number_reason_spec(self, name: Seq<char>, max: int) -> Seq<char> {
        match self.value_spec(name) {
            Some(value) => unsigned_reason_spec(value, max),
            None => Seq::empty(),
        }
    }

    /// The value of a variable; an empty value counts as none.
    pub fn value(&self, name: &str) -> (r: Option<String>)
        ensures
            optional(r) == self.value_spec(name@),
    {
        let mut i: usize = 0;
        while i < self.entries.len()
            invariant
                i <= self.entries.len(),
                self.value_from(name@, i as int) == self.value_spec(name@),
            decreases self.entries.len() - i,
        {
            if same(self.entries[i].0.as_str(), name) {
                return if is_nothing(self.entries[i].1.as_str()) {
                    None
                } else {
                    Some(self.entries[i].1.clone())
                };
            }
            i = i + 1;
        }
        None
    }

    /// The value of a variable, or the default where it is unset or empty.
    pub fn value_or(&self, name: &str, default: &str) -> (r: String)
        ensures
            r@ == self.value_or_spec(name@, default@),
    {
        match self.value(name) {
            Some(value) => value,
            None => default.to_owned(),
        }
    }

    /// Whether the variable has the literal value `1`.
    pub fn enabled(&self, name: &str) -> (r: bool)
        ensures
            r == self.enabled_spec(name@),
    {
        match self.value(name) {
            Some(value) => same(value.as_str(), "1"),
            None => false,
        }
    }

    /// The number that a variable holds, or the default where it is unset or empty; where its value
    /// is no number up to `max`, why it is none.
    pub fn number(&self, name: &str, default: u64, max: u64) -> (r: Result<u64, String>)
        ensures
            match r {
                Ok(n) => self.number_spec(name@, default as int, max as int) == Some(n as int) && (
                default <= max ==> n <= max),
                Err(reason) => self.number_spec(name@, default as int, max as int) is None
                    && reason@ == self.number_reason_spec(name@, max as int),
            },
    {
        match self.value(name) {
            Some(value) => match parse_unsigned(value.as_str(), max) {
                Some(n) => Ok(n),
                None => Err(unsigned_reason(value.as_str(), max)),
            },
            None => Ok(default),
        }
    }
}

/// What the command line of a bootstrap run holds.
pub struct Cli {
    /// The deployment profile; `KROPS_PROFILE` takes precedence over it.
    pub profile: Option<String>,
    /// Delete and recreate an existing cluster instead of reusing it.
    pub recreate: bool,
}

/// The name of the active environment: a non-empty `KROPS_PROFILE`, else a non-empty positional
/// argument, else the default environment of the configuration.
pub open spec fn environment_name(
    env: Option<Seq<char>>,
    positional: Option<Seq<char>>,
    config: BootstrapConfig,
) -> Seq<char> {
    match (env, positional) {
        (Some(value), _) if value.len() > 0 => value,
        (_, Some(value)) if value.len() > 0 => value,
        _ => config.bootstrap.default_environment@,
    }
}

/// Resolve the active environment name. The name must be an `[environments.*]` section.
pub fn resolve_environment(env: Option<&str>, positional: Option<&str>, config: &BootstrapConfig) -> (r:
    Result<String, String>)
    ensures
        ({
            let name = environment_name(
                match env {
                    Some(value) => Some(value@),
                    None => None,
                },
                match positional {
                    Some(value) => Some(value@),
                    None => None,
                },
                *config,
            );
            match r {
                Ok(resolved) => config.find(name) is Some && resolved@ == name,
                Err(message) => config.find(name) is None && message@
                    == config.unsupported_message_spec(name),
            }
        }),
{
    let fallback = match positional {
        Some(value) => if is_nothing(value) {
            config.bootstrap.default_environment.as_str()
        } else {
            value
        },
        None => config.bootstrap.default_environment.as_str(),
    };
    let name = match env {
        Some(value) => if is_nothing(value) {
            fallback
        } else {
            value
        },
        None => fallback,
    };
    match config.environment(name) {
        Ok(_) => Ok(name.to_owned()),
        Err(message) => Err(message),
    }
}

/// A path below a directory: an empty directory adds nothing, and no slash is doubled.
pub open spec fn join_path_spec(dir: Seq<char>, below: Seq<char>) -> Seq<char> {
    if dir.len() == 0 {
        below
    } else if ends_with_spec(dir, "/"@) {
        dir + below
    } else {
        dir + "/"@ + below
    }
}

/// A path below a directory: an empty directory adds nothing, and no slash is doubled.
pub fn join_path(dir: &str, below: &str) -> (r: String)
    ensures
        r@ == join_path_spec(dir@, below@),
{
    if is_nothing(dir) {
        below.to_owned()
    } else if ends_with(dir, "/") {
        cat2(dir, below)
    } else {
        cat3(dir, "/", below)
    }
}

/// The default management kubeconfig path: `.kube/krops-mgmt.yaml` in the home directory.
pub open spec fn default_mgmt_kubeconfig_spec(home: Option<Seq<char>>) -> Seq<char> {
    join_path_spec(
        match home {
            Some(home) => home,
            None => ""@,
        },
        ".kube/krops-mgmt.yaml"@,
    )
}

/// The default management kubeconfig path: `.kube/krops-mgmt.yaml` in the home directory.
pub fn default_mgmt_kubeconfig(home: &Option<String>) -> (r: String)
    ensures
        r@ == default_mgmt_kubeconfig_spec(optional(*home)),
{
    match home {
        Some(home) => join_path(home.as_str(), ".kube/krops-mgmt.yaml"),
        None => {
            proof {
                reveal_strlit("");
            }
            join_path("", ".kube/krops-mgmt.yaml")
        },
    }
}

/// The resolved run configuration. Unset and empty variables both fall back to the default.
pub struct Config<'a> {
    /// The parsed `bootstrap.toml`.
    pub repo: &'a BootstrapConfig,
    /// The resolved `[environments.*]` section name.
    pub profile: String,
    /// The resolved environment section.
    pub environment: &'a Environment,
    pub recreate: bool,
    pub registry_port: u16,
    pub registry_ready_retries: u32,
    pub local_reconcile_timeout: String,
    pub container_engine: Option<String>,
    pub engine_sock: Option<String>,
    pub toolbox: bool,
    /// The value of `KUBECONFIG`.
    pub kubeconfig: Option<String>,
    pub git_repo_url: Option<String>,
    pub github_token: Option<String>,
    pub github_user: String,
    pub age_key_file: String,
    pub age_public_key: Option<String>,
    /// The age key that decrypts the secrets of the pivot.
    pub sops_age_key_file: String,
    pub oci_repository: String,
    pub oci_tag: String,
    pub bootstrap_pivot: bool,
    pub pivot_skip_delete: bool,
    pub mgmt_kubeconfig: String,
    pub mgmt_ready_timeout: String,
    pub mgmt_poll_interval: u64,
    pub bootstrap_kubecontext: String,
}

/// The name of the active environment of a bootstrap run.
pub open spec fn profile_spec(cli: Cli, repo: BootstrapConfig, vars: Variables) -> Seq<char> {
    environment_name(vars.value_spec("KROPS_PROFILE"@), optional(cli.profile), repo)
}

/// The readiness timeout of the management cluster: that of the environment section, unless
/// `MGMT_READY_TIMEOUT` overrides it.
pub open spec fn ready_timeout_spec(environment: Environment, vars: Variables) -> Seq<char> {
    vars.value_or_spec("MGMT_READY_TIMEOUT"@, environment.mgmt_ready_timeout@)
}

/// The error with which a bootstrap run refuses its configuration, if it does: the first setting
/// that is wrong, in this order.
pub open spec fn config_error(cli: Cli, repo: BootstrapConfig, vars: Variables) -> Option<
    FailureView,
> {
    let profile = profile_spec(cli, repo, vars);
    match repo.find(profile) {
        None => Some(FailureView::new(repo.unsupported_message_spec(profile))),
        Some(environment) => {
            if vars.number_spec("REGISTRY_PORT"@, 5001, u16::MAX as int) is None {
                Some(
                    FailureView::because(
                        "REGISTRY_PORT must be a port number (1-65535)"@,
                        vars.number_reason_spec("REGISTRY_PORT"@, u16::MAX as int),
                    ),
                )
            } else if vars.number_spec("REGISTRY_READY_RETRIES"@, 120, u32::MAX as int) is None {
                Some(
                    FailureView::because(
                        "REGISTRY_READY_RETRIES must be a non-negative integer"@,
                        vars.number_reason_spec("REGISTRY_READY_RETRIES"@, u32::MAX as int),
                    ),
                )
            } else {
                match parse_duration_seconds_spec(ready_timeout_spec(environment, vars)) {
                    Err(cause) => Some(
                        cause.under(
                            "MGMT_READY_TIMEOUT must be a duration (40m, 2h, 90s, or bare seconds)"@,
                        ),
                    ),
                    Ok(_) => match vars.number_spec("MGMT_POLL_INTERVAL"@, 10, u64::MAX as int) {
                        None => Some(
                            FailureView::because(
                                "MGMT_POLL_INTERVAL must be a positive integer"@,
                                vars.number_reason_spec("MGMT_POLL_INTERVAL"@, u64::MAX as int),
                            ),
                        ),
                        Some(interval) => if interval == 0 {
                            Some(
                                FailureView::new(
                                    "MGMT_POLL_INTERVAL must be a positive integer, got 0"@,
                                ),
                            )
                        } else {
                            None
                        },
                    },
                }
            }
        },
    }
}

impl<'a> Config<'a> {
    /// The configuration holds what the command line, the repository configuration, the variables
    /// and the home directory say.
    pub open spec fn resolved_from(
        self,
        cli: Cli,
        repo: BootstrapConfig,
        vars: Variables,
        home: Option<Seq<char>>,
    ) -> bool {
        &&& *self.repo == repo
        &&& self.profile@ == profile_spec(cli, repo, vars)
        &&& repo.find(self.profile@) == Some(*self.environment)
        &&& self.recreate == cli.recreate
        &&& vars.number_spec("REGISTRY_PORT"@, 5001, u16::MAX as int) == Some(
            self.registry_port as int,
        )
        &&& vars.number_spec("REGISTRY_READY_RETRIES"@, 120, u32::MAX as int) == Some(
            self.registry_ready_retries as int,
        )
        &&& self.local_reconcile_timeout@ == vars.value_or_spec("LOCAL_RECONCILE_TIMEOUT"@, "15m"@)
        &&& optional(self.container_engine) == vars.value_spec("CONTAINER_ENGINE"@)
        &&& optional(self.engine_sock) == vars.value_spec("ENGINE_SOCK"@)
        &&& self.toolbox == vars.enabled_spec("KROPS_TOOLBOX"@)
        &&& optional(self.kubeconfig) == vars.value_spec("KUBECONFIG"@)
        &&& optional(self.git_repo_url) == vars.value_spec("GIT_REPO_URL"@)
        &&& optional(self.github_token) == vars.value_spec("GITHUB_TOKEN"@)
        &&& self.github_user@ == vars.value_or_spec("GITHUB_USER"@, "git"@)
        &&& self.age_key_file@ == vars.value_or_spec("AGE_KEY_FILE"@, "age.agekey"@)
        &&& optional(self.age_public_key) == vars.value_spec("AGE_PUBLIC_KEY"@)
        &&& self.sops_age_key_file@ == vars.value_or_spec(
            "SOPS_AGE_KEY_FILE"@,
            vars.value_or_spec("AGE_KEY_FILE"@, "age.agekey"@),
        )
        &&& self.oci_repository@ == vars.value_or_spec("OCI_REPOSITORY"@, "krops"@)
        &&& self.oci_tag@ == vars.value_or_spec("OCI_TAG"@, "latest"@)
        &&& self.bootstrap_pivot == (vars.value_or_spec("BOOTSTRAP_PIVOT"@, "1"@) == "1"@)
        &&& self.pivot_skip_delete == vars.enabled_spec("PIVOT_SKIP_DELETE"@)
        &&& self.mgmt_kubeconfig@ == vars.value_or_spec(
            "MGMT_KUBECONFIG"@,
            default_mgmt_kubeconfig_spec(home),
        )
        &&& self.mgmt_ready_timeout@ == ready_timeout_spec(*self.environment, vars)
        &&& vars.number_spec("MGMT_POLL_INTERVAL"@, 10, u64::MAX as int) == Some(
            self.mgmt_poll_interval as int,
        )
        &&& self.mgmt_poll_interval > 0
        &&& self.bootstrap_kubecontext@ == vars.value_or_spec(
            "BOOTSTRAP_KUBECONTEXT"@,
            repo.bootstrap.kind_context@,
        )
    }

    /// Resolve the configuration of a bootstrap run. The settings of the pivot are checked here
    /// too, so that a wrong value fails at startup and not after the full bootstrap.
    pub fn from_env(
        cli: &Cli,
        repo: &'a BootstrapConfig,
        vars: &Variables,
        home: &Option<String>,
    ) -> (r: Result<Config<'a>, Failure>)
        ensures
            match config_error(*cli, *repo, *vars) {
                Some(failure) => r is Err && r->Err_0@ == failure,
                None => r is Ok && r->Ok_0.resolved_from(*cli, *repo, *vars, optional(*home)),
            },
    {
        let env_profile = vars.value("KROPS_PROFILE");
        let profile = match resolve_environment(
            match &env_profile {
                Some(value) => Some(value.as_str()),
                None => None,
            },
            match &cli.profile {
                Some(value) => Some(value.as_str()),
                None => None,
            },
            repo,
        ) {
            Ok(name) => name,
            Err(message) => {
                return Err(Failure::new(message));
            },
        };
        let environment = match repo.environment(profile.as_str()) {
            Ok(environment) => environment,
            Err(message) => {
                return Err(Failure::new(message));
            },
        };
        let registry_port: u16 = match vars.number("REGISTRY_PORT", 5001, u16::MAX as u64) {
            Ok(n) => n as u16,
            Err(reason) => {
                return Err(
                    Failure::because(
                        "REGISTRY_PORT must be a port number (1-65535)".to_owned(),
                        reason.as_str(),
                    ),
                );
            },
        };
        let registry_ready_retries: u32 = match vars.number(
            "REGISTRY_READY_RETRIES",
            120,
            u32::MAX as u64,
        ) {
            Ok(n) => n as u32,
            Err(reason) => {
                return Err(
                    Failure::because(
                        "REGISTRY_READY_RETRIES must be a non-negative integer".to_owned(),
                        reason.as_str(),
                    ),
                );
            },
        };
        let mgmt_ready_timeout = vars.value_or(
            "MGMT_READY_TIMEOUT",
            environment.mgmt_ready_timeout.as_str(),
        );
        match parse_duration_seconds(mgmt_ready_timeout.as_str()) {
            Ok(_) => {},
            Err(cause) => {
                return Err(
                    cause.under(
                        "MGMT_READY_TIMEOUT must be a duration (40m, 2h, 90s, or bare seconds)".to_owned(),
                    ),
                );
            },
        }
        let mgmt_poll_interval: u64 = match vars.number("MGMT_POLL_INTERVAL", 10, u64::MAX) {
            Ok(n) => n,
            Err(reason) => {
                return Err(
                    Failure::because(
                        "MGMT_POLL_INTERVAL must be a positive integer".to_owned(),
                        reason.as_str(),
                    ),
                );
            },
        };
        if mgmt_poll_interval == 0 {
            return Err(
                Failure::new("MGMT_POLL_INTERVAL must be a positive integer, got 0".to_owned()),
            );
        }
        let age_key_file = vars.value_or("AGE_KEY_FILE", "age.agekey");
        let sops_age_key_file = vars.value_or("SOPS_AGE_KEY_FILE", age_key_file.as_str());
        let pivot = vars.value_or("BOOTSTRAP_PIVOT", "1");
        Ok(
            Config {
                repo,
                profile,
                environment,
                recreate: cli.recreate,
                registry_port,
                registry_ready_retries,
                local_reconcile_timeout: vars.value_or("LOCAL_RECONCILE_TIMEOUT", "15m"),
                container_engine: vars.value("CONTAINER_ENGINE"),
                engine_sock: vars.value("ENGINE_SOCK"),
                toolbox: vars.enabled("KROPS_TOOLBOX"),
                kubeconfig: vars.value("KUBECONFIG"),
                git_repo_url: vars.value("GIT_REPO_URL"),
                github_token: vars.value("GITHUB_TOKEN"),
                github_user: vars.value_or("GITHUB_USER", "git"),
                age_key_file,
                age_public_key: vars.value("AGE_PUBLIC_KEY"),
                sops_age_key_file,
                oci_repository: vars.value_or("OCI_REPOSITORY", "krops"),
                oci_tag: vars.value_or("OCI_TAG", "latest"),
                bootstrap_pivot: same(pivot.as_str(), "1"),
                pivot_skip_delete: vars.enabled("PIVOT_SKIP_DELETE"),
                mgmt_kubeconfig: vars.value_or(
                    "MGMT_KUBECONFIG",
                    default_mgmt_kubeconfig(home).as_str(),
                ),
                mgmt_ready_timeout,
                mgmt_poll_interval,
                bootstrap_kubecontext: vars.value_or(
                    "BOOTSTRAP_KUBECONTEXT",
                    repo.bootstrap.kind_context.as_str(),
                ),
            },
        )
    }

    /// The configuration of a teardown: the environment, and of the settings those that the
    /// teardown reads; the rest has its defaults.
    pub open spec fn prepared_from(
        self,
        profile: Option<Seq<char>>,
        repo: BootstrapConfig,
        vars: Variables,
        home: Option<Seq<char>>,
    ) -> bool {
        &&& *self.repo == repo
        &&& self.profile@ == environment_name(vars.value_spec("KROPS_PROFILE"@), profile, repo)
        &&& repo.find(self.profile@) == Some(*self.environment)
        &&& !self.recreate
        &&& self.registry_port == 5001
        &&& self.registry_ready_retries == 120
        &&& self.local_reconcile_timeout@ == "15m"@
        &&& optional(self.container_engine) == vars.value_spec("CONTAINER_ENGINE"@)
        &&& optional(self.engine_sock) == vars.value_spec("ENGINE_SOCK"@)
        &&& self.toolbox == vars.enabled_spec("KROPS_TOOLBOX"@)
        &&& optional(self.kubeconfig) == vars.value_spec("KUBECONFIG"@)
        &&& self.git_repo_url is None
        &&& self.github_token is None
        &&& self.github_user@ == "git"@
        &&& self.age_key_file@ == "age.agekey"@
        &&& self.age_public_key is None
        &&& self.sops_age_key_file@ == "age.agekey"@
        &&& self.oci_repository@ == "krops"@
        &&& self.oci_tag@ == "latest"@
        &&& self.bootstrap_pivot
        &&& !self.pivot_skip_delete
        &&& self.mgmt_kubeconfig@ == vars.value_or_spec(
            "MGMT_KUBECONFIG"@,
            default_mgmt_kubeconfig_spec(home),
        )
        &&& self.mgmt_ready_timeout@ == ""@
        &&& self.mgmt_poll_interval == 10
        &&& self.bootstrap_kubecontext@ == ""@
    }

    /// Resolve the configuration of a teardown. The settings of a bootstrap are neither read nor
    /// checked.
    pub fn for_teardown(
        profile: &Option<String>,
        repo: &'a BootstrapConfig,
        vars: &Variables,
        home: &Option<String>,
    ) -> (r: Result<Config<'a>, String>)
        ensures
            ({
                let name = environment_name(
                    vars.value_spec("KROPS_PROFILE"@),
                    optional(*profile),
                    *repo,
                );
                match r {
                    Ok(cfg) => repo.find(name) is Some && cfg.prepared_from(
                        optional(*profile),
                        *repo,
                        *vars,
                        optional(*home),
                    ),
                    Err(message) => repo.find(name) is None && message@
                        == repo.unsupported_message_spec(name),
                }
            }),
    {
        let env_profile = vars.value("KROPS_PROFILE");
        let name = match resolve_environment(
            match &env_profile {
                Some(value) => Some(value.as_str()),
                None => None,
            },
            match profile {
                Some(value) => Some(value.as_str()),
                None => None,
            },
            repo,
        ) {
            Ok(name) => name,
            Err(message) => {
                return Err(message);
            },
        };
        let environment = match repo.environment(name.as_str()) {
            Ok(environment) => environment,
            Err(message) => {
                return Err(message);
            },
        };
        Ok(
            Config {
                repo,
                profile: name,
                environment,
                recreate: false,
                registry_port: 5001,
                registry_ready_retries: 120,
                local_reconcile_timeout: "15m".to_owned(),
                container_engine: vars.value("CONTAINER_ENGINE"),
                engine_sock: vars.value("ENGINE_SOCK"),
                toolbox: vars.enabled("KROPS_TOOLBOX"),
                kubeconfig: vars.value("KUBECONFIG"),
                git_repo_url: None,
                github_token: None,
                github_user: "git".to_owned(),
                age_key_file: "age.agekey".to_owned(),
                age_public_key: None,
                sops_age_key_file: "age.agekey".to_owned(),
                oci_repository: "krops".to_owned(),
                oci_tag: "latest".to_owned(),
                bootstrap_pivot: true,
                pivot_skip_delete: false,
                mgmt_kubeconfig: vars.value_or(
                    "MGMT_KUBECONFIG",
                    default_mgmt_kubeconfig(home).as_str(),
                ),
                mgmt_ready_timeout: "".to_owned(),
                mgmt_poll_interval: 10,
                bootstrap_kubecontext: "".to_owned(),
            },
        )
    }

    /// Whether the environment is the local one.
    pub open spec fn is_local_spec(self) -> bool {
        self.profile@ == "local-host"@
    }

    /// Whether the environment is the local one.
    pub fn is_local(&self) -> (r: bool)
        ensures
            r == self.is_local_spec(),
    {
        same(self.profile.as_str(), "local-host")
    }

    /// Where this process reaches the local registry: by its name on the kind network inside the
    /// toolbox, at the published port on the host.
    pub open spec fn registry_endpoint_spec(self) -> (Seq<char>, int) {
        if self.toolbox {
            (self.repo.bootstrap.registry_name@, 5000)
        } else {
            ("localhost"@, self.registry_port as int)
        }
    }

    /// Where this process reaches the local registry: by its name on the kind network inside the
    /// toolbox, at the published port on the host.
    pub fn registry_endpoint(&self) -> (r: (String, u16))
        ensures
            (r.0@, r.1 as int) == self.registry_endpoint_spec(),
    {
        if self.toolbox {
            (self.repo.bootstrap.registry_name.clone(), 5000)
        } else {
            ("localhost".to_owned(), self.registry_port)
        }
    }

    /// Whether a CAPD kubeconfig is pointed at the port that is published on the host. The toolbox
    /// shares the kind network, where the recorded endpoint resolves.
    pub open spec fn should_rewrite_capd_endpoint_spec(self) -> bool {
        self.is_local_spec() && !self.toolbox
    }

    /// Whether a CAPD kubeconfig is pointed at the port that is published on the host. The toolbox
    /// shares the kind network, where the recorded endpoint resolves.
    pub fn should_rewrite_capd_endpoint(&self) -> (r: bool)
        ensures
            r == self.should_rewrite_capd_endpoint_spec(),
    {
        self.is_local() && !self.toolbox
    }
}

/// Whether the GitHub and age checks must run: exactly for the environments that sync from GitHub.
pub fn runs_github_preflight(cfg: &Config) -> (r: bool)
    ensures
        r == (cfg.environment.sync == SyncSource::Github),
{
    cfg.environment.sync == SyncSource::Github
}

/// A non-empty `KROPS_PROFILE` wins over the positional argument, and a non-empty positional argument
/// over the default of the configuration. What is empty decides nothing, as if it were not given.
pub proof fn law_profile_precedence(
    value: Seq<char>,
    positional: Option<Seq<char>>,
    config: BootstrapConfig,
)
    ensures
        value.len() > 0 ==> environment_name(Some(value), positional, config) == value,
        environment_name(Some(Seq::empty()), positional, config) == environment_name(
            None,
            positional,
            config,
        ),
        value.len() > 0 ==> environment_name(None, Some(value), config) == value,
        environment_name(None, Some(Seq::empty()), config) == environment_name(None, None, config),
        environment_name(None, None, config) == config.bootstrap.default_environment@,
{
}

/// With a valid repository configuration and no variable set, a run without a profile argument is
/// accepted and takes the default environment, as long as that environment's readiness timeout is
/// a duration.
pub proof fn law_defaults_are_accepted(cli: Cli, repo: BootstrapConfig, vars: Variables)
    requires
        repo.valid(),
        cli.profile is None,
        forall|name: Seq<char>| #[trigger] vars.value_spec(name) is None,
        repo.find(repo.bootstrap.default_environment@) matches Some(environment)
            && parse_duration_seconds_spec(environment.mgmt_ready_timeout@) is Ok,
    ensures
        config_error(cli, repo, vars) is None,
        profile_spec(cli, repo, vars) == repo.bootstrap.default_environment@,
{
}

} // verus!
