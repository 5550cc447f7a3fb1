//! The AWS names that a cluster's resources go by.
use vstd::prelude::*;

use crate::config::{AwsWorkload, Environment, TeardownEnv};
use crate::text::{cat2, cat3, join, join_spec, replace, replace_spec, split, split_spec, texts};

verus! {

/// The CAPA ownership tag key of a cluster's VPCs and addresses.
pub open spec fn capa_tag_key_spec(cluster_name: Seq<char>) -> Seq<char> {
    "sigs.k8s.io/cluster-api-provider-aws/cluster/"@ + cluster_name
}

/// The CAPA ownership tag key of a cluster's VPCs and addresses.
pub fn capa_tag_key(cluster_name: &str) -> (r: String)
    ensures
        r@ == capa_tag_key_spec(cluster_name@),
{
    cat2("sigs.k8s.io/cluster-api-provider-aws/cluster/", cluster_name)
}

/// The S3 bucket name of a cluster: the pattern with the account put in, then the cluster.
pub open spec fn s3_bucket_name_spec(
    pattern: Seq<char>,
    account_id: Seq<char>,
    cluster_name: Seq<char>,
) -> Seq<char> {
    replace_spec(
        replace_spec(pattern, "{account_id}"@, account_id),
        "{cluster_name}"@,
        cluster_name,
    )
}

/// The S3 bucket name of a cluster: the pattern with the account put in, then the cluster.
pub fn s3_bucket_name(pattern: &str, account_id: &str, cluster_name: &str) -> (r: String)
    ensures
        r@ == s3_bucket_name_spec(pattern@, account_id@, cluster_name@),
{
    replace(
        replace(pattern, "{account_id}", account_id).as_str(),
        "{cluster_name}",
        cluster_name,
    )
}

/// One AWS workload, or the management cluster itself, as the names that the sweep needs.
#[derive(Clone, Debug)]
pub struct AwsSweepTarget {
    pub region: String,
    pub cluster_name: String,
    pub eks_cluster_name: String,
    pub rds_instance: String,
}

/// The model of a sweep target.
pub struct AwsSweepTargetView {
    pub region: Seq<char>,
    pub cluster_name: Seq<char>,
    pub eks_cluster_name: Seq<char>,
    pub rds_instance: Seq<char>,
}

impl View for AwsSweepTarget {
    type V = AwsSweepTargetView;

    open spec fn view(&self) -> AwsSweepTargetView {
        AwsSweepTargetView {
            region: self.region@,
            cluster_name: self.cluster_name@,
            eks_cluster_name: self.eks_cluster_name@,
            rds_instance: self.rds_instance@,
        }
    }
}

impl AwsSweepTargetView {
    /// The names of a workload.
    pub open spec fn from_workload(w: AwsWorkload) -> AwsSweepTargetView {
        AwsSweepTargetView {
            region: w.region@,
            cluster_name: w.cluster_name@,
            eks_cluster_name: w.eks_cluster_name@,
            rds_instance: w.rds_instance@,
        }
    }

    /// The names of the management cluster.
    pub open spec fn mgmt(
        region: Seq<char>,
        cluster_name: Seq<char>,
        eks_cluster_name: Seq<char>,
    ) -> AwsSweepTargetView {
        AwsSweepTargetView {
            region,
            cluster_name,
            eks_cluster_name,
            rds_instance: "krops-"@ + cluster_name + "-db"@,
        }
    }
}

impl AwsSweepTarget {
    /// The names of a workload.
    pub fn from_workload(w: &AwsWorkload) -> (r: Self)
        ensures
            r@ == AwsSweepTargetView::from_workload(*w),
    {
        AwsSweepTarget {
            region: w.region.clone(),
            cluster_name: w.cluster_name.clone(),
            eks_cluster_name: w.eks_cluster_name.clone(),
            rds_instance: w.rds_instance.clone(),
        }
    }

    /// The names of the management cluster. It owns no RDS instance; the sweep passes over an
    /// instance that is not there.
    pub fn mgmt(region: &str, cluster_name: &str, eks_cluster_name: &str) -> (r: Self)
        ensures
            r@ == AwsSweepTargetView::mgmt(region@, cluster_name@, eks_cluster_name@),
    {
        AwsSweepTarget {
            region: region.to_owned(),
            cluster_name: cluster_name.to_owned(),
            eks_cluster_name: eks_cluster_name.to_owned(),
            rds_instance: cat3("krops-", cluster_name, "-db"),
        }
    }

    /// The name of the cluster's S3 bucket.
    pub fn bucket_name(&self, pattern: &str, account_id: &str) -> (r: String)
        ensures
            r@ == s3_bucket_name_spec(pattern@, account_id@, self.cluster_name@),
    {
        s3_bucket_name(pattern, account_id, self.cluster_name.as_str())
    }

    /// The CAPA ownership tag key of the cluster.
    pub fn capa_tag_key(&self) -> (r: String)
        ensures
            r@ == capa_tag_key_spec(self.cluster_name@),
    {
        capa_tag_key(self.cluster_name.as_str())
    }

    /// The same target.
    pub fn copy(&self) -> (r: AwsSweepTarget)
        ensures
            r@ == self@,
    {
        AwsSweepTarget {
            region: self.region.clone(),
            cluster_name: self.cluster_name.clone(),
            eks_cluster_name: self.eks_cluster_name.clone(),
            rds_instance: self.rds_instance.clone(),
        }
    }
}

/// The models of a list of sweep targets.
pub open spec fn target_views(targets: Seq<AwsSweepTarget>) -> Seq<AwsSweepTargetView> {
    targets.map_values(|t: AwsSweepTarget| t@)
}

/// The region in the name of the management cluster: its first three parts.
pub open spec fn mgmt_region_spec(mgmt_cluster: Seq<char>) -> Seq<char> {
    let parts = split_spec(mgmt_cluster, '-');
    join_spec(
        if parts.len() > 3 {
            parts.take(3)
        } else {
            parts
        },
        "-"@,
    )
}

/// The region in the name of the management cluster: its first three parts.
pub fn mgmt_region(mgmt_cluster: &str) -> (r: String)
    ensures
        r@ == mgmt_region_spec(mgmt_cluster@),
{
    let mut parts = split(mgmt_cluster, '-');
    let ghost all = texts(parts@);
    if parts.len() > 3 {
        parts.truncate(3);
        assert(texts(parts@) =~= all.take(3));
    }
    join(&parts, "-")
}

/// The sweep targets of an environment: its workloads, then the management cluster where both of
/// its AWS names are configured.
pub open spec fn aws_sweep_targets_spec(env: Environment) -> Seq<AwsSweepTargetView> {
    let workloads = env.teardown.aws_workloads@.map_values(
        |w: AwsWorkload| AwsSweepTargetView::from_workload(w),
    );
    match (env.teardown.mgmt_eks_cluster_name, env.teardown.mgmt_iam_role_prefix) {
        (Some(eks), Some(prefix)) => workloads.push(
            AwsSweepTargetView::mgmt(mgmt_region_spec(env.mgmt_cluster@), prefix@, eks@),
        ),
        _ => workloads,
    }
}

/// The sweep targets of an environment: its workloads, then the management cluster where both of
/// its AWS names are configured.
pub fn aws_sweep_targets(env: &Environment) -> (r: Vec<AwsSweepTarget>)
    ensures
        target_views(r@) == aws_sweep_targets_spec(*env),
{
    let ghost workloads = env.teardown.aws_workloads@.map_values(
        |w: AwsWorkload| AwsSweepTargetView::from_workload(w),
    );
    let mut r: Vec<AwsSweepTarget> = Vec::new();
    let mut i: usize = 0;
    assert(target_views(r@) =~= workloads.take(0));
    while i < env.teardown.aws_workloads.len()
        invariant
            i <= env.teardown.aws_workloads.len(),
            workloads == env.teardown.aws_workloads@.map_values(
                |w: AwsWorkload| AwsSweepTargetView::from_workload(w),
            ),
            target_views(r@) == workloads.take(i as int),
        decreases env.teardown.aws_workloads.len() - i,
    {
        let target = AwsSweepTarget::from_workload(&env.teardown.aws_workloads[i]);
        let ghost now = r@.push(target);
        assert(target_views(now) =~= workloads.take(i + 1)) by {
            assert(target_views(now) =~= target_views(r@).push(target@));
            assert(workloads.take(i + 1) =~= workloads.take(i as int).push(workloads[i as int]));
        }
        r.push(target);
        i = i + 1;
    }
    assert(workloads.take(env.teardown.aws_workloads.len() as int) =~= workloads);
    match (&env.teardown.mgmt_eks_cluster_name, &env.teardown.mgmt_iam_role_prefix) {
        (Some(eks), Some(prefix)) => {
            let region = mgmt_region(env.mgmt_cluster.as_str());
            let target = AwsSweepTarget::mgmt(region.as_str(), prefix.as_str(), eks.as_str());
            let ghost before = r@;
            r.push(target);
            assert(target_views(r@) =~= target_views(before).push(target@));
        },
        _ => {},
    }
    r
}

/// The message that refuses the teardown of an environment that declares it manual.
pub open spec fn manual_teardown_refusal_spec(env_name: Seq<char>, td: TeardownEnv) -> Option<
    Seq<char>,
> {
    match td.manual {
        Some(text) => Some(
            "teardown is manual for the '"@ + env_name + "' environment:\n"@ + text@,
        ),
        None => None,
    }
}

/// Environments whose teardown is not automated declare a text; the run refuses before any
/// preflight or mutation and prints it.
pub fn manual_teardown_refusal(env_name: &str, td: &TeardownEnv) -> (r: Option<String>)
    ensures
        crate::text::optional(r) == manual_teardown_refusal_spec(env_name@, *td),
{
    match &td.manual {
        Some(text) => Some(
            crate::text::cat4(
                "teardown is manual for the '",
                env_name,
                "' environment:\n",
                text.as_str(),
            ),
        ),
        None => None,
    }
}

} // verus!
