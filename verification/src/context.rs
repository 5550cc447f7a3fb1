//! What a run has found out and carries on.
use vstd::prelude::*;

use crate::failure::{Failure, FailureView};
use crate::settings::Variables;
use crate::text::{cat2, optional};

verus! {

/// What the GitHub checks of the preflight gathered.
pub struct GithubContext {
    pub git_repo_url: String,
    pub github_user: String,
    pub github_token: String,
    pub age_key_content: String,
    pub age_pubkey: String,
}

/// The model of the GitHub context.
pub struct GithubContextView {
    pub git_repo_url: Seq<char>,
    pub github_user: Seq<char>,
    pub github_token: Seq<char>,
    pub age_key_content: Seq<char>,
    pub age_pubkey: Seq<char>,
}

impl View for GithubContext {
    type V = GithubContextView;

    open spec fn view(&self) -> GithubContextView {
        GithubContextView {
            git_repo_url: self.git_repo_url@,
            github_user: self.github_user@,
            github_token: self.github_token@,
            age_key_content: self.age_key_content@,
            age_pubkey: self.age_pubkey@,
        }
    }
}

impl GithubContext {
    /// The same context.
    pub fn copy(&self) -> (r: GithubContext)
        ensures
            r@ == self@,
    {
        GithubContext {
            git_repo_url: self.git_repo_url.clone(),
            github_user: self.github_user.clone(),
            github_token: self.github_token.clone(),
            age_key_content: self.age_key_content.clone(),
            age_pubkey: self.age_pubkey.clone(),
        }
    }
}

/// The model of an optional GitHub context.
pub open spec fn github_context_view(github: Option<GithubContext>) -> Option<GithubContextView> {
    match github {
        Some(github) => Some(github@),
        None => None,
    }
}

/// The same optional GitHub context.
pub fn github_context_copy(github: &Option<GithubContext>) -> (r: Option<GithubContext>)
    ensures
        github_context_view(r) == github_context_view(*github),
{
    match github {
        Some(github) => Some(github.copy()),
        None => None,
    }
}

/// What the preflight of a bootstrap gathered.
pub struct Preflight {
    pub engine: String,
    /// The engine's socket as the daemon sees it.
    pub engine_sock: String,
    /// Present exactly in the environments that sync from GitHub.
    pub github: Option<GithubContext>,
}

/// The model of the preflight.
pub struct PreflightView {
    pub engine: Seq<char>,
    pub engine_sock: Seq<char>,
    pub github: Option<GithubContextView>,
}

impl View for Preflight {
    type V = PreflightView;

    open spec fn view(&self) -> PreflightView {
        PreflightView {
            engine: self.engine@,
            engine_sock: self.engine_sock@,
            github: github_context_view(self.github),
        }
    }
}

impl Preflight {
    /// The same preflight.
    pub fn copy(&self) -> (r: Preflight)
        ensures
            r@ == self@,
    {
        Preflight {
            engine: self.engine.clone(),
            engine_sock: self.engine_sock.clone(),
            github: github_context_copy(&self.github),
        }
    }
}

/// The model of an optional preflight.
pub open spec fn preflight_view(preflight: Option<Preflight>) -> Option<PreflightView> {
    match preflight {
        Some(preflight) => Some(preflight@),
        None => None,
    }
}

/// The same optional preflight.
pub fn preflight_copy(preflight: &Option<Preflight>) -> (r: Option<Preflight>)
    ensures
        preflight_view(r) == preflight_view(*preflight),
{
    match preflight {
        Some(preflight) => Some(preflight.copy()),
        None => None,
    }
}

/// Resolved teardown knobs.
#[derive(Debug)]
pub struct TeardownConfig {
    /// `AWS_ONLY=1`: the orphan sweep only, no Kubernetes steps.
    pub aws_only: bool,
    /// `FORCE_KIND_DELETE=1`: remove the controller host unconditionally.
    pub force_host_delete: bool,
    pub cluster_delete_timeout: u64,
    pub provider_delete_timeout: u64,
    /// The kubeconfig of the management cluster after the pivot.
    pub mgmt_kubeconfig: String,
}

/// The model of the teardown knobs.
pub struct TeardownConfigView {
    pub aws_only: bool,
    pub force_host_delete: bool,
    pub cluster_delete_timeout: u64,
    pub provider_delete_timeout: u64,
    pub mgmt_kubeconfig: Seq<char>,
}

impl View for TeardownConfig {
    type V = TeardownConfigView;

    open spec fn view(&self) -> TeardownConfigView {
        TeardownConfigView {
            aws_only: self.aws_only,
            force_host_delete: self.force_host_delete,
            cluster_delete_timeout: self.cluster_delete_timeout,
            provider_delete_timeout: self.provider_delete_timeout,
            mgmt_kubeconfig: self.mgmt_kubeconfig@,
        }
    }
}

/// The error with which a teardown refuses its knobs, if it does: the first that is wrong, in
/// this order.
pub open spec fn teardown_error(vars: Variables, home: Option<Seq<char>>) -> Option<FailureView> {
    if home is None {
        Some(FailureView::new("HOME is not set; cannot locate the management kubeconfig"@))
    } else if vars.number_spec("CLUSTER_DELETE_TIMEOUT"@, 1200, u64::MAX as int) is None {
        Some(
            FailureView::because(
                "CLUSTER_DELETE_TIMEOUT"@ + " must be a number of seconds"@,
                vars.number_reason_spec("CLUSTER_DELETE_TIMEOUT"@, u64::MAX as int),
            ),
        )
    } else if vars.number_spec("PROVIDER_DELETE_TIMEOUT"@, 300, u64::MAX as int) is None {
        Some(
            FailureView::because(
                "PROVIDER_DELETE_TIMEOUT"@ + " must be a number of seconds"@,
                vars.number_reason_spec("PROVIDER_DELETE_TIMEOUT"@, u64::MAX as int),
            ),
        )
    } else {
        None
    }
}

impl TeardownConfig {
    /// The knobs hold what the variables and the home directory say.
    pub open spec fn resolved_from(self, vars: Variables, home: Option<Seq<char>>) -> bool {
        &&& self.aws_only == vars.enabled_spec("AWS_ONLY"@)
        &&& self.force_host_delete == vars.enabled_spec("FORCE_KIND_DELETE"@)
        &&& vars.number_spec("CLUSTER_DELETE_TIMEOUT"@, 1200, u64::MAX as int) == Some(
            self.cluster_delete_timeout as int,
        )
        &&& vars.number_spec("PROVIDER_DELETE_TIMEOUT"@, 300, u64::MAX as int) == Some(
            self.provider_delete_timeout as int,
        )
        &&& self.mgmt_kubeconfig@ == vars.value_or_spec(
            "MGMT_KUBECONFIG"@,
            crate::settings::default_mgmt_kubeconfig_spec(home),
        )
    }

    /// Resolve the knobs from the variables. An empty value counts as unset, and the literal `1`
    /// alone enables a switch.
    pub fn from_env(vars: &Variables, home: &Option<String>) -> (r: Result<Self, Failure>)
        ensures
            match teardown_error(*vars, optional(*home)) {
                Some(failure) => r is Err && r->Err_0@ == failure,
                None => r is Ok && r->Ok_0.resolved_from(*vars, optional(*home)),
            },
    {
        if home.is_none() {
            return Err(
                Failure::new(
                    "HOME is not set; cannot locate the management kubeconfig".to_owned(),
                ),
            );
        }
        let cluster_delete_timeout: u64 = match vars.number(
            "CLUSTER_DELETE_TIMEOUT",
            1200,
            u64::MAX,
        ) {
            Ok(n) => n,
            Err(reason) => {
                return Err(
                    Failure::because(
                        cat2("CLUSTER_DELETE_TIMEOUT", " must be a number of seconds"),
                        reason.as_str(),
                    ),
                );
            },
        };
        let provider_delete_timeout: u64 = match vars.number(
            "PROVIDER_DELETE_TIMEOUT",
            300,
            u64::MAX,
        ) {
            Ok(n) => n,
            Err(reason) => {
                return Err(
                    Failure::because(
                        cat2("PROVIDER_DELETE_TIMEOUT", " must be a number of seconds"),
                        reason.as_str(),
                    ),
                );
            },
        };
        Ok(
            TeardownConfig {
                aws_only: vars.enabled("AWS_ONLY"),
                force_host_delete: vars.enabled("FORCE_KIND_DELETE"),
                cluster_delete_timeout,
                provider_delete_timeout,
                mgmt_kubeconfig: vars.value_or(
                    "MGMT_KUBECONFIG",
                    crate::settings::default_mgmt_kubeconfig(home).as_str(),
                ),
            },
        )
    }

    /// The same knobs.
    pub fn copy(&self) -> (r: TeardownConfig)
        ensures
            r@ == self@,
    {
        TeardownConfig {
            aws_only: self.aws_only,
            force_host_delete: self.force_host_delete,
            cluster_delete_timeout: self.cluster_delete_timeout,
            provider_delete_timeout: self.provider_delete_timeout,
            mgmt_kubeconfig: self.mgmt_kubeconfig.clone(),
        }
    }
}

/// Who looks for a container engine, and what they carry on.
pub enum Seeker {
    /// The preflight of a bootstrap.
    Preflight { github: Option<GithubContext> },
    /// A teardown of the local environment.
    Teardown { knobs: TeardownConfig },
}

/// The model of a seeker.
pub enum SeekerView {
    Preflight { github: Option<GithubContextView> },
    Teardown { knobs: TeardownConfigView },
}

impl View for Seeker {
    type V = SeekerView;

    open spec fn view(&self) -> SeekerView {
        match *self {
            Seeker::Preflight { github } => SeekerView::Preflight {
                github: github_context_view(github),
            },
            Seeker::Teardown { knobs } => SeekerView::Teardown { knobs: knobs@ },
        }
    }
}

impl Seeker {
    /// The same seeker.
    pub fn copy(&self) -> (r: Seeker)
        ensures
            r@ == self@,
    {
        match self {
            Seeker::Preflight { github } => Seeker::Preflight {
                github: github_context_copy(github),
            },
            Seeker::Teardown { knobs } => Seeker::Teardown { knobs: knobs.copy() },
        }
    }
}

} // verus!
