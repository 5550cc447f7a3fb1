//! The AWS orphan sweep. Every unit passes over a resource that is not there, and no failure of a
//! unit ends the run.
use vstd::prelude::*;

use crate::aws::{
    AwsSweepTarget, AwsSweepTargetView, aws_sweep_targets, aws_sweep_targets_spec,
    capa_tag_key_spec, s3_bucket_name_spec, target_views,
};
use crate::question::{Question, QuestionView};
use crate::script::{
    Action, ActionView, Command, CommandView, Reply, ReplyView, Rule, RuleView, Script, ScriptView,
    command, for_each, for_each_spec,
};
use crate::settings::Config;
use crate::text::{
    cat2, cat3, cat4, cat5, cat7, contains, contains_spec, is_nothing, is_nothing_spec, same, texts,
    trim, trim_spec, words, words_spec,
};

verus! {

/// The scripts of the sweep targets, one after the other.
pub open spec fn for_each_target_spec(
    targets: Seq<AwsSweepTargetView>,
    one: spec_fn(AwsSweepTargetView) -> ScriptView,
) -> ScriptView
    decreases targets.len(),
{
    if targets.len() == 0 {
        ScriptView::new()
    } else {
        for_each_target_spec(targets.drop_last(), one).join(one(targets.last()))
    }
}

/// The scripts of the sweep targets, one after the other.
fn for_each_target(
    targets: &Vec<AwsSweepTarget>,
    one: impl Fn(&AwsSweepTarget) -> Script,
    Ghost(model): Ghost<spec_fn(AwsSweepTargetView) -> ScriptView>,
) -> (s: Script)
    requires
        forall|target: &AwsSweepTarget| one.requires((target,)),
        forall|target: &AwsSweepTarget, r: Script|
            one.ensures((target,), r) ==> r@ == model(target@),
    ensures
        s@ == for_each_target_spec(target_views(targets@), model),
{
    let mut s = Script::new();
    let mut i: usize = 0;
    let ghost all = target_views(targets@);
    assert(all.take(0) =~= Seq::empty());
    while i < targets.len()
        invariant
            i <= targets.len(),
            all == target_views(targets@),
            forall|target: &AwsSweepTarget| one.requires((target,)),
            forall|target: &AwsSweepTarget, r: Script|
                one.ensures((target,), r) ==> r@ == model(target@),
            s@ == for_each_target_spec(all.take(i as int), model),
        decreases targets.len() - i,
    {
        proof {
            assert(all.take(i + 1).drop_last() =~= all.take(i as int));
            assert(all.take(i + 1).last() == targets@[i as int]@);
        }
        s = s.join(one(&targets[i]));
        i = i + 1;
    }
    assert(all.take(targets.len() as int) =~= all);
    s
}

/// The AWS CLI, describing the EKS cluster of a target; it fails where there is none.
pub open spec fn describe_eks_cluster_spec(target: AwsSweepTargetView) -> CommandView {
    command("aws"@).arg("eks"@).arg("describe-cluster"@).arg("--name"@).arg(
        target.eks_cluster_name,
    ).arg("--region"@).arg(target.region).arg("--output"@).arg("json"@)
}

/// The AWS CLI, describing the EKS cluster of a target; it fails where there is none.
pub fn describe_eks_cluster(target: &AwsSweepTarget) -> (c: Command)
    ensures
        c@ == describe_eks_cluster_spec(target@),
{
    Command::new("aws").arg("eks").arg("describe-cluster").arg("--name").arg(
        target.eks_cluster_name.as_str(),
    ).arg("--region").arg(target.region.as_str()).arg("--output").arg("json")
}

/// The questions of this module.
pub enum SweepQuestion {
    /// Does the EKS cluster whose pod identity associations are swept exist?
    PodIdentityGate { target: AwsSweepTarget },
    /// Which pod identity associations does the EKS cluster have?
    PodIdentities { target: AwsSweepTarget },
    /// Does the EKS cluster whose nodegroups are swept exist?
    NodegroupGate { target: AwsSweepTarget },
    /// Which nodegroups does the EKS cluster have?
    Nodegroups { target: AwsSweepTarget },
    /// Does the EKS cluster whose nodegroups are waited for exist?
    NodegroupWaitGate { target: AwsSweepTarget },
    /// Which nodegroups does the EKS cluster still have?
    NodegroupsLeft { target: AwsSweepTarget },
    /// Does the EKS cluster that is swept exist?
    ClusterGate { target: AwsSweepTarget },
    /// Does the EKS cluster that is waited for exist?
    ClusterWaitGate { target: AwsSweepTarget },
    /// Does the RDS instance exist?
    RdsGate { target: AwsSweepTarget },
    /// Which state is the RDS instance in?
    RdsStatus { target: AwsSweepTarget },
    /// Does the S3 bucket exist?
    BucketGate { bucket: String, region: String },
    /// Which object versions and delete markers does the S3 bucket still hold?
    BucketBatch { bucket: String, region: String },
    /// Were the listed versions and delete markers of the S3 bucket removed?
    BucketPurge { bucket: String, region: String, batch: String },
    /// Does the IAM role exist?
    RoleGate { role: String },
    /// Which policies are attached to the IAM role?
    RolePolicies { role: String },
    /// Which instance profiles hold the IAM role?
    RoleProfiles { role: String },
    /// Which inline policies does the IAM role have?
    RoleInline { role: String },
    /// Which IAM roles have names that start with the cluster name?
    CapaRoles { prefix: String },
    /// Does the IAM user exist?
    UserGate { user: String },
    /// Which access keys does the IAM user have?
    UserKeys { user: String },
    /// Which inline policies does the IAM user have?
    UserInline { user: String },
    /// Does the CloudFormation stack exist?
    StackGate { stack: String, region: String },
    /// Which VPCs carry the ownership tag of the cluster?
    Vpcs { target: AwsSweepTarget },
    /// Which NAT gateways does the VPC have, those being deleted among them?
    VpcNats { vpc: String, region: String },
    /// Which Elastic IPs carry the ownership tag?
    VpcAddresses { region: String, tag: String },
    /// Which subnets does the VPC have?
    VpcSubnets { vpc: String, region: String },
    /// Which internet gateways are attached to the VPC?
    VpcGateways { vpc: String, region: String },
    /// Which route table is the main one of the VPC?
    VpcMainTable { vpc: String, region: String },
    /// Which route tables does the VPC have?
    VpcTables { vpc: String, region: String, main: String },
    /// Which security groups does the VPC have, besides the default one?
    VpcGroups { vpc: String, region: String },
    /// Which ingress rules does the security group have?
    GroupIngress { group: String, region: String },
    /// Which egress rules does the security group have?
    GroupEgress { group: String, region: String },
    /// Which AWS account is swept?
    Account,
}

/// The model of a question of this module.
pub enum SweepQuestionView {
    PodIdentityGate { target: AwsSweepTargetView },
    PodIdentities { target: AwsSweepTargetView },
    NodegroupGate { target: AwsSweepTargetView },
    Nodegroups { target: AwsSweepTargetView },
    NodegroupWaitGate { target: AwsSweepTargetView },
    NodegroupsLeft { target: AwsSweepTargetView },
    ClusterGate { target: AwsSweepTargetView },
    ClusterWaitGate { target: AwsSweepTargetView },
    RdsGate { target: AwsSweepTargetView },
    RdsStatus { target: AwsSweepTargetView },
    BucketGate { bucket: Seq<char>, region: Seq<char> },
    BucketBatch { bucket: Seq<char>, region: Seq<char> },
    BucketPurge { bucket: Seq<char>, region: Seq<char>, batch: Seq<char> },
    RoleGate { role: Seq<char> },
    RolePolicies { role: Seq<char> },
    RoleProfiles { role: Seq<char> },
    RoleInline { role: Seq<char> },
    CapaRoles { prefix: Seq<char> },
    UserGate { user: Seq<char> },
    UserKeys { user: Seq<char> },
    UserInline { user: Seq<char> },
    StackGate { stack: Seq<char>, region: Seq<char> },
    Vpcs { target: AwsSweepTargetView },
    VpcNats { vpc: Seq<char>, region: Seq<char> },
    VpcAddresses { region: Seq<char>, tag: Seq<char> },
    VpcSubnets { vpc: Seq<char>, region: Seq<char> },
    VpcGateways { vpc: Seq<char>, region: Seq<char> },
    VpcMainTable { vpc: Seq<char>, region: Seq<char> },
    VpcTables { vpc: Seq<char>, region: Seq<char>, main: Seq<char> },
    VpcGroups { vpc: Seq<char>, region: Seq<char> },
    GroupIngress { group: Seq<char>, region: Seq<char> },
    GroupEgress { group: Seq<char>, region: Seq<char> },
    Account,
}

impl View for SweepQuestion {
    type V = SweepQuestionView;

    open spec fn view(&self) -> SweepQuestionView {
        match *self {
            SweepQuestion::PodIdentityGate { target } => SweepQuestionView::PodIdentityGate {
                target: target@,
            },
            SweepQuestion::PodIdentities { target } => SweepQuestionView::PodIdentities {
                target: target@,
            },
            SweepQuestion::NodegroupGate { target } => SweepQuestionView::NodegroupGate {
                target: target@,
            },
            SweepQuestion::Nodegroups { target } => SweepQuestionView::Nodegroups {
                target: target@,
            },
            SweepQuestion::NodegroupWaitGate { target } => SweepQuestionView::NodegroupWaitGate {
                target: target@,
            },
            SweepQuestion::NodegroupsLeft { target } => SweepQuestionView::NodegroupsLeft {
                target: target@,
            },
            SweepQuestion::ClusterGate { target } => SweepQuestionView::ClusterGate {
                target: target@,
            },
            SweepQuestion::ClusterWaitGate { target } => SweepQuestionView::ClusterWaitGate {
                target: target@,
            },
            SweepQuestion::RdsGate { target } => SweepQuestionView::RdsGate { target: target@ },
            SweepQuestion::RdsStatus { target } => SweepQuestionView::RdsStatus { target: target@ },
            SweepQuestion::BucketGate { bucket, region } => SweepQuestionView::BucketGate {
                bucket: bucket@,
                region: region@,
            },
            SweepQuestion::BucketBatch { bucket, region } => {
                SweepQuestionView::BucketBatch { bucket: bucket@, region: region@ }
            },
            SweepQuestion::BucketPurge { bucket, region, batch } => {
                SweepQuestionView::BucketPurge { bucket: bucket@, region: region@, batch: batch@ }
            },
            SweepQuestion::RoleGate { role } => SweepQuestionView::RoleGate { role: role@ },
            SweepQuestion::RolePolicies { role } => SweepQuestionView::RolePolicies { role: role@ },
            SweepQuestion::RoleProfiles { role } => SweepQuestionView::RoleProfiles { role: role@ },
            SweepQuestion::RoleInline { role } => SweepQuestionView::RoleInline { role: role@ },
            SweepQuestion::CapaRoles { prefix } => SweepQuestionView::CapaRoles { prefix: prefix@ },
            SweepQuestion::UserGate { user } => SweepQuestionView::UserGate { user: user@ },
            SweepQuestion::UserKeys { user } => SweepQuestionView::UserKeys { user: user@ },
            SweepQuestion::UserInline { user } => SweepQuestionView::UserInline { user: user@ },
            SweepQuestion::StackGate { stack, region } => SweepQuestionView::StackGate {
                stack: stack@,
                region: region@,
            },
            SweepQuestion::Vpcs { target } => SweepQuestionView::Vpcs { target: target@ },
            SweepQuestion::VpcNats { vpc, region } => SweepQuestionView::VpcNats {
                vpc: vpc@,
                region: region@,
            },
            SweepQuestion::VpcAddresses { region, tag } => SweepQuestionView::VpcAddresses {
                region: region@,
                tag: tag@,
            },
            SweepQuestion::VpcSubnets { vpc, region } => SweepQuestionView::VpcSubnets {
                vpc: vpc@,
                region: region@,
            },
            SweepQuestion::VpcGateways { vpc, region } => SweepQuestionView::VpcGateways {
                vpc: vpc@,
                region: region@,
            },
            SweepQuestion::VpcMainTable { vpc, region } => SweepQuestionView::VpcMainTable {
                vpc: vpc@,
                region: region@,
            },
            SweepQuestion::VpcTables { vpc, region, main } => {
                SweepQuestionView::VpcTables { vpc: vpc@, region: region@, main: main@ }
            },
            SweepQuestion::VpcGroups { vpc, region } => SweepQuestionView::VpcGroups {
                vpc: vpc@,
                region: region@,
            },
            SweepQuestion::GroupIngress { group, region } => {
                SweepQuestionView::GroupIngress { group: group@, region: region@ }
            },
            SweepQuestion::GroupEgress { group, region } => SweepQuestionView::GroupEgress {
                group: group@,
                region: region@,
            },
            SweepQuestion::Account => SweepQuestionView::Account,
        }
    }
}

/// What is done to find the answer to a question.
pub open spec fn action_spec(cfg: Config, question: SweepQuestionView) -> ActionView {
    match question {
        SweepQuestionView::PodIdentityGate { target } => ActionView::Quiet(
            describe_eks_cluster_spec(target),
        ),
        SweepQuestionView::PodIdentities { target } => ActionView::Lossy(
            command("aws"@)
                .arg("--region"@).arg(target.region).arg("eks"@)
                .arg("list-pod-identity-associations"@).arg("--cluster-name"@)
                .arg(target.eks_cluster_name).arg("--query"@).arg("associations[].associationId"@)
                .arg("--output"@).arg("text"@),
        ),
        SweepQuestionView::NodegroupGate { target } => ActionView::Quiet(
            describe_eks_cluster_spec(target),
        ),
        SweepQuestionView::Nodegroups { target } => ActionView::Lossy(
            command("aws"@)
                .arg("--region"@).arg(target.region).arg("eks"@).arg("list-nodegroups"@)
                .arg("--cluster-name"@).arg(target.eks_cluster_name).arg("--query"@)
                .arg("nodegroups[]"@).arg("--output"@).arg("text"@),
        ),
        SweepQuestionView::NodegroupWaitGate { target } => ActionView::Quiet(
            describe_eks_cluster_spec(target),
        ),
        SweepQuestionView::NodegroupsLeft { target } => ActionView::Lossy(
            command("aws"@)
                .arg("--region"@).arg(target.region).arg("eks"@).arg("list-nodegroups"@)
                .arg("--cluster-name"@).arg(target.eks_cluster_name).arg("--query"@)
                .arg("nodegroups[]"@).arg("--output"@).arg("text"@),
        ),
        SweepQuestionView::ClusterGate { target } => ActionView::Quiet(
            describe_eks_cluster_spec(target),
        ),
        SweepQuestionView::ClusterWaitGate { target } => ActionView::Quiet(
            describe_eks_cluster_spec(target),
        ),
        SweepQuestionView::RdsGate { target } => ActionView::Quiet(
            command("aws"@)
                .arg("--region"@).arg(target.region).arg("rds"@).arg("describe-db-instances"@)
                .arg("--db-instance-identifier"@).arg(target.rds_instance),
        ),
        SweepQuestionView::RdsStatus { target } => ActionView::Lossy(
            command("aws"@)
                .arg("--region"@).arg(target.region).arg("rds"@).arg("describe-db-instances"@)
                .arg("--db-instance-identifier"@).arg(target.rds_instance).arg("--query"@)
                .arg("DBInstances[0].DBInstanceStatus"@).arg("--output"@).arg("text"@),
        ),
        SweepQuestionView::BucketGate { bucket, region } => ActionView::Quiet(
            command("aws"@)
                .arg("s3api"@).arg("head-bucket"@).arg("--bucket"@).arg(bucket).arg("--region"@)
                .arg(region),
        ),
        SweepQuestionView::BucketBatch { bucket, region } => {
            ActionView::Lossy(
                command("aws"@)
                    .arg("s3api"@).arg("list-object-versions"@).arg("--bucket"@).arg(bucket)
                    .arg("--region"@).arg(region).arg("--max-items"@).arg("500"@).arg("--query"@)
                    .arg(
                        "{Objects: [Versions, DeleteMarkers][][].{Key: Key, VersionId: VersionId}, Quiet: `true`}"@,
                    )
                    .arg("--output"@).arg("json"@),
            )
        },
        SweepQuestionView::BucketPurge { bucket, region, batch } => {
            ActionView::Feed(
                command("aws"@)
                    .arg("s3api"@).arg("delete-objects"@).arg("--bucket"@).arg(bucket)
                    .arg("--region"@).arg(region).arg("--delete"@).arg("fileb:///dev/stdin"@),
                batch,
            )
        },
        SweepQuestionView::RoleGate { role } => ActionView::Quiet(
            command("aws"@).arg("iam"@).arg("get-role"@).arg("--role-name"@).arg(role),
        ),
        SweepQuestionView::RolePolicies { role } => ActionView::Lossy(
            command("aws"@)
                .arg("iam"@).arg("list-attached-role-policies"@).arg("--role-name"@).arg(role)
                .arg("--query"@).arg("AttachedPolicies[].PolicyArn"@).arg("--output"@).arg("text"@),
        ),
        SweepQuestionView::RoleProfiles { role } => ActionView::Lossy(
            command("aws"@)
                .arg("iam"@).arg("list-instance-profiles-for-role"@).arg("--role-name"@).arg(role)
                .arg("--query"@).arg("InstanceProfiles[].InstanceProfileName"@).arg("--output"@)
                .arg("text"@),
        ),
        SweepQuestionView::RoleInline { role } => ActionView::Lossy(
            command("aws"@)
                .arg("iam"@).arg("list-role-policies"@).arg("--role-name"@).arg(role)
                .arg("--query"@).arg("PolicyNames[]"@).arg("--output"@).arg("text"@),
        ),
        SweepQuestionView::CapaRoles { prefix } => ActionView::Lossy(
            command("aws"@)
                .arg("iam"@).arg("list-roles"@).arg("--query"@)
                .arg("Roles[?starts_with(RoleName, `"@ + prefix + "`)].RoleName"@).arg("--output"@)
                .arg("text"@).arg("--max-items"@).arg("1000"@),
        ),
        SweepQuestionView::UserGate { user } => ActionView::Quiet(
            command("aws"@).arg("iam"@).arg("get-user"@).arg("--user-name"@).arg(user),
        ),
        SweepQuestionView::UserKeys { user } => ActionView::Lossy(
            command("aws"@)
                .arg("iam"@).arg("list-access-keys"@).arg("--user-name"@).arg(user).arg("--query"@)
                .arg("AccessKeyMetadata[].AccessKeyId"@).arg("--output"@).arg("text"@),
        ),
        SweepQuestionView::UserInline { user } => ActionView::Lossy(
            command("aws"@)
                .arg("iam"@).arg("list-user-policies"@).arg("--user-name"@).arg(user)
                .arg("--query"@).arg("PolicyNames[]"@).arg("--output"@).arg("text"@),
        ),
        SweepQuestionView::StackGate { stack, region } => ActionView::Quiet(
            command("aws"@)
                .arg("cloudformation"@).arg("describe-stacks"@).arg("--stack-name"@).arg(stack)
                .arg("--region"@).arg(region),
        ),
        SweepQuestionView::Vpcs { target } => ActionView::Lossy(
            command("aws"@)
                .arg("ec2"@).arg("describe-vpcs"@).arg("--region"@).arg(target.region)
                .arg("--filters"@)
                .arg("Name=tag:"@ + capa_tag_key_spec(target.cluster_name) + ",Values=owned"@)
                .arg("--query"@).arg("Vpcs[].VpcId"@).arg("--output"@).arg("text"@),
        ),
        SweepQuestionView::VpcNats { vpc, region } => ActionView::Lossy(
            command("aws"@)
                .arg("ec2"@).arg("describe-nat-gateways"@).arg("--region"@).arg(region)
                .arg("--filter"@).arg("Name=vpc-id,Values="@ + vpc)
                .arg("Name=state,Values=pending,available,deleting"@).arg("--query"@)
                .arg("NatGateways[].NatGatewayId"@).arg("--output"@).arg("text"@),
        ),
        SweepQuestionView::VpcAddresses { region, tag } => ActionView::Lossy(
            command("aws"@)
                .arg("ec2"@).arg("describe-addresses"@).arg("--region"@).arg(region)
                .arg("--filters"@).arg("Name=tag:"@ + tag + ",Values=owned"@).arg("--query"@)
                .arg("Addresses[].AllocationId"@).arg("--output"@).arg("text"@),
        ),
        SweepQuestionView::VpcSubnets { vpc, region } => ActionView::Lossy(
            command("aws"@)
                .arg("ec2"@).arg("describe-subnets"@).arg("--region"@).arg(region).arg("--filters"@)
                .arg("Name=vpc-id,Values="@ + vpc).arg("--query"@).arg("Subnets[].SubnetId"@)
                .arg("--output"@).arg("text"@),
        ),
        SweepQuestionView::VpcGateways { vpc, region } => ActionView::Lossy(
            command("aws"@)
                .arg("ec2"@).arg("describe-internet-gateways"@).arg("--region"@).arg(region)
                .arg("--filters"@).arg("Name=attachment.vpc-id,Values="@ + vpc).arg("--query"@)
                .arg("InternetGateways[].InternetGatewayId"@).arg("--output"@).arg("text"@),
        ),
        SweepQuestionView::VpcMainTable { vpc, region } => ActionView::Lossy(
            command("aws"@)
                .arg("ec2"@).arg("describe-route-tables"@).arg("--region"@).arg(region)
                .arg("--filters"@).arg("Name=vpc-id,Values="@ + vpc).arg("Name=main,Values=true"@)
                .arg("--query"@).arg("RouteTables[0].RouteTableId"@).arg("--output"@).arg("text"@),
        ),
        SweepQuestionView::VpcTables { vpc, region, .. } => ActionView::Lossy(
            command("aws"@)
                .arg("ec2"@).arg("describe-route-tables"@).arg("--region"@).arg(region)
                .arg("--filters"@).arg("Name=vpc-id,Values="@ + vpc).arg("--query"@)
                .arg("RouteTables[].RouteTableId"@).arg("--output"@).arg("text"@),
        ),
        SweepQuestionView::VpcGroups { vpc, region } => ActionView::Lossy(
            command("aws"@)
                .arg("ec2"@).arg("describe-security-groups"@).arg("--region"@).arg(region)
                .arg("--filters"@).arg("Name=vpc-id,Values="@ + vpc).arg("--query"@)
                .arg("SecurityGroups[?GroupName!=`default`].GroupId"@).arg("--output"@)
                .arg("text"@),
        ),
        SweepQuestionView::GroupIngress { group, region } => {
            ActionView::Lossy(
                command("aws"@)
                    .arg("ec2"@).arg("describe-security-groups"@).arg("--region"@).arg(region)
                    .arg("--group-ids"@).arg(group).arg("--query"@)
                    .arg("SecurityGroups[0].IpPermissions"@).arg("--output"@).arg("json"@),
            )
        },
        SweepQuestionView::GroupEgress { group, region } => ActionView::Lossy(
            command("aws"@)
                .arg("ec2"@).arg("describe-security-groups"@).arg("--region"@).arg(region)
                .arg("--group-ids"@).arg(group).arg("--query"@)
                .arg("SecurityGroups[0].IpPermissionsEgress"@).arg("--output"@).arg("json"@),
        ),
        SweepQuestionView::Account => ActionView::Lossy(
            command("aws"@)
                .arg("sts"@).arg("get-caller-identity"@).arg("--query"@).arg("Account"@)
                .arg("--output"@).arg("text"@),
        ),
    }
}

/// What is done to find the answer to a question.
pub fn action(cfg: &Config, question: &SweepQuestion) -> (a: Action)
    ensures
        a@ == action_spec(*cfg, question@),
{
    match question {
        SweepQuestion::PodIdentityGate { target } => Action::Quiet(describe_eks_cluster(target)),
        SweepQuestion::PodIdentities { target } => Action::Lossy(
            Command::new("aws")
                .arg("--region").arg(target.region.as_str()).arg("eks")
                .arg("list-pod-identity-associations").arg("--cluster-name")
                .arg(target.eks_cluster_name.as_str()).arg("--query")
                .arg("associations[].associationId").arg("--output").arg("text"),
        ),
        SweepQuestion::NodegroupGate { target } => Action::Quiet(describe_eks_cluster(target)),
        SweepQuestion::Nodegroups { target } => Action::Lossy(
            Command::new("aws")
                .arg("--region").arg(target.region.as_str()).arg("eks").arg("list-nodegroups")
                .arg("--cluster-name").arg(target.eks_cluster_name.as_str()).arg("--query")
                .arg("nodegroups[]").arg("--output").arg("text"),
        ),
        SweepQuestion::NodegroupWaitGate { target } => Action::Quiet(describe_eks_cluster(target)),
        SweepQuestion::NodegroupsLeft { target } => Action::Lossy(
            Command::new("aws")
                .arg("--region").arg(target.region.as_str()).arg("eks").arg("list-nodegroups")
                .arg("--cluster-name").arg(target.eks_cluster_name.as_str()).arg("--query")
                .arg("nodegroups[]").arg("--output").arg("text"),
        ),
        SweepQuestion::ClusterGate { target } => Action::Quiet(describe_eks_cluster(target)),
        SweepQuestion::ClusterWaitGate { target } => Action::Quiet(describe_eks_cluster(target)),
        SweepQuestion::RdsGate { target } => Action::Quiet(
            Command::new("aws")
                .arg("--region").arg(target.region.as_str()).arg("rds").arg("describe-db-instances")
                .arg("--db-instance-identifier").arg(target.rds_instance.as_str()),
        ),
        SweepQuestion::RdsStatus { target } => Action::Lossy(
            Command::new("aws")
                .arg("--region").arg(target.region.as_str()).arg("rds").arg("describe-db-instances")
                .arg("--db-instance-identifier").arg(target.rds_instance.as_str()).arg("--query")
                .arg("DBInstances[0].DBInstanceStatus").arg("--output").arg("text"),
        ),
        SweepQuestion::BucketGate { bucket, region } => Action::Quiet(
            Command::new("aws")
                .arg("s3api").arg("head-bucket").arg("--bucket").arg(bucket.as_str())
                .arg("--region").arg(region.as_str()),
        ),
        SweepQuestion::BucketBatch { bucket, region } => Action::Lossy(
            Command::new("aws")
                .arg("s3api").arg("list-object-versions").arg("--bucket").arg(bucket.as_str())
                .arg("--region").arg(region.as_str()).arg("--max-items").arg("500").arg("--query")
                .arg(
                    "{Objects: [Versions, DeleteMarkers][][].{Key: Key, VersionId: VersionId}, Quiet: `true`}",
                )
                .arg("--output").arg("json"),
        ),
        SweepQuestion::BucketPurge { bucket, region, batch } => {
            Action::Feed(
                Command::new("aws")
                    .arg("s3api").arg("delete-objects").arg("--bucket").arg(bucket.as_str())
                    .arg("--region").arg(region.as_str()).arg("--delete").arg("fileb:///dev/stdin"),
                batch.clone(),
            )
        },
        SweepQuestion::RoleGate { role } => Action::Quiet(
            Command::new("aws").arg("iam").arg("get-role").arg("--role-name").arg(role.as_str()),
        ),
        SweepQuestion::RolePolicies { role } => Action::Lossy(
            Command::new("aws")
                .arg("iam").arg("list-attached-role-policies").arg("--role-name").arg(role.as_str())
                .arg("--query").arg("AttachedPolicies[].PolicyArn").arg("--output").arg("text"),
        ),
        SweepQuestion::RoleProfiles { role } => Action::Lossy(
            Command::new("aws")
                .arg("iam").arg("list-instance-profiles-for-role").arg("--role-name")
                .arg(role.as_str()).arg("--query").arg("InstanceProfiles[].InstanceProfileName")
                .arg("--output").arg("text"),
        ),
        SweepQuestion::RoleInline { role } => Action::Lossy(
            Command::new("aws")
                .arg("iam").arg("list-role-policies").arg("--role-name").arg(role.as_str())
                .arg("--query").arg("PolicyNames[]").arg("--output").arg("text"),
        ),
        SweepQuestion::CapaRoles { prefix } => Action::Lossy(
            Command::new("aws")
                .arg("iam").arg("list-roles").arg("--query")
                .arg(
                    cat3(
                        "Roles[?starts_with(RoleName, `",
                        prefix.as_str(),
                        "`)].RoleName",
                    ).as_str(),
                )
                .arg("--output").arg("text").arg("--max-items").arg("1000"),
        ),
        SweepQuestion::UserGate { user } => Action::Quiet(
            Command::new("aws").arg("iam").arg("get-user").arg("--user-name").arg(user.as_str()),
        ),
        SweepQuestion::UserKeys { user } => Action::Lossy(
            Command::new("aws")
                .arg("iam").arg("list-access-keys").arg("--user-name").arg(user.as_str())
                .arg("--query").arg("AccessKeyMetadata[].AccessKeyId").arg("--output").arg("text"),
        ),
        SweepQuestion::UserInline { user } => Action::Lossy(
            Command::new("aws")
                .arg("iam").arg("list-user-policies").arg("--user-name").arg(user.as_str())
                .arg("--query").arg("PolicyNames[]").arg("--output").arg("text"),
        ),
        SweepQuestion::StackGate { stack, region } => Action::Quiet(
            Command::new("aws")
                .arg("cloudformation").arg("describe-stacks").arg("--stack-name")
                .arg(stack.as_str()).arg("--region").arg(region.as_str()),
        ),
        SweepQuestion::Vpcs { target } => Action::Lossy(
            Command::new("aws")
                .arg("ec2").arg("describe-vpcs").arg("--region").arg(target.region.as_str())
                .arg("--filters")
                .arg(cat3("Name=tag:", target.capa_tag_key().as_str(), ",Values=owned").as_str())
                .arg("--query").arg("Vpcs[].VpcId").arg("--output").arg("text"),
        ),
        SweepQuestion::VpcNats { vpc, region } => Action::Lossy(
            Command::new("aws")
                .arg("ec2").arg("describe-nat-gateways").arg("--region").arg(region.as_str())
                .arg("--filter").arg(cat2("Name=vpc-id,Values=", vpc.as_str()).as_str())
                .arg("Name=state,Values=pending,available,deleting").arg("--query")
                .arg("NatGateways[].NatGatewayId").arg("--output").arg("text"),
        ),
        SweepQuestion::VpcAddresses { region, tag } => Action::Lossy(
            Command::new("aws")
                .arg("ec2").arg("describe-addresses").arg("--region").arg(region.as_str())
                .arg("--filters").arg(cat3("Name=tag:", tag.as_str(), ",Values=owned").as_str())
                .arg("--query").arg("Addresses[].AllocationId").arg("--output").arg("text"),
        ),
        SweepQuestion::VpcSubnets { vpc, region } => Action::Lossy(
            Command::new("aws")
                .arg("ec2").arg("describe-subnets").arg("--region").arg(region.as_str())
                .arg("--filters").arg(cat2("Name=vpc-id,Values=", vpc.as_str()).as_str())
                .arg("--query").arg("Subnets[].SubnetId").arg("--output").arg("text"),
        ),
        SweepQuestion::VpcGateways { vpc, region } => Action::Lossy(
            Command::new("aws")
                .arg("ec2").arg("describe-internet-gateways").arg("--region").arg(region.as_str())
                .arg("--filters").arg(cat2("Name=attachment.vpc-id,Values=", vpc.as_str()).as_str())
                .arg("--query").arg("InternetGateways[].InternetGatewayId").arg("--output")
                .arg("text"),
        ),
        SweepQuestion::VpcMainTable { vpc, region } => Action::Lossy(
            Command::new("aws")
                .arg("ec2").arg("describe-route-tables").arg("--region").arg(region.as_str())
                .arg("--filters").arg(cat2("Name=vpc-id,Values=", vpc.as_str()).as_str())
                .arg("Name=main,Values=true").arg("--query").arg("RouteTables[0].RouteTableId")
                .arg("--output").arg("text"),
        ),
        SweepQuestion::VpcTables { vpc, region, .. } => Action::Lossy(
            Command::new("aws")
                .arg("ec2").arg("describe-route-tables").arg("--region").arg(region.as_str())
                .arg("--filters").arg(cat2("Name=vpc-id,Values=", vpc.as_str()).as_str())
                .arg("--query").arg("RouteTables[].RouteTableId").arg("--output").arg("text"),
        ),
        SweepQuestion::VpcGroups { vpc, region } => Action::Lossy(
            Command::new("aws")
                .arg("ec2").arg("describe-security-groups").arg("--region").arg(region.as_str())
                .arg("--filters").arg(cat2("Name=vpc-id,Values=", vpc.as_str()).as_str())
                .arg("--query").arg("SecurityGroups[?GroupName!=`default`].GroupId").arg("--output")
                .arg("text"),
        ),
        SweepQuestion::GroupIngress { group, region } => Action::Lossy(
            Command::new("aws")
                .arg("ec2").arg("describe-security-groups").arg("--region").arg(region.as_str())
                .arg("--group-ids").arg(group.as_str()).arg("--query")
                .arg("SecurityGroups[0].IpPermissions").arg("--output").arg("json"),
        ),
        SweepQuestion::GroupEgress { group, region } => Action::Lossy(
            Command::new("aws")
                .arg("ec2").arg("describe-security-groups").arg("--region").arg(region.as_str())
                .arg("--group-ids").arg(group.as_str()).arg("--query")
                .arg("SecurityGroups[0].IpPermissionsEgress").arg("--output").arg("json"),
        ),
        SweepQuestion::Account => Action::Lossy(
            Command::new("aws")
                .arg("sts").arg("get-caller-identity").arg("--query").arg("Account").arg("--output")
                .arg("text"),
        ),
    }
}

/// How the run goes on after: does the EKS cluster whose pod identity associations are swept exist?
pub open spec fn after_pod_identity_gate_spec(
    target: AwsSweepTargetView,
    reply: ReplyView,
) -> ScriptView {
    if reply.ok {
        ScriptView::new()
            .ask(QuestionView::Sweep(SweepQuestionView::PodIdentities { target }))
    } else {
        ScriptView::new()
            .say(
                "✓   EKS cluster "@ + target.eks_cluster_name + " not found in "@ + target.region
                    + " – no pod identity associations to clean"@,
            )
    }
}

/// How the run goes on after: does the EKS cluster whose pod identity associations are swept exist?
pub fn after_pod_identity_gate(target: &AwsSweepTarget, reply: &Reply) -> (s: Script)
    ensures
        s@ == after_pod_identity_gate_spec(target@, reply@),
{
    if reply.ok {
        Script::new()
            .ask(Question::Sweep(SweepQuestion::PodIdentities { target: target.copy() }))
    } else {
        Script::new()
            .say(
                cat5(
                    "✓   EKS cluster ",
                    target.eks_cluster_name.as_str(),
                    " not found in ",
                    target.region.as_str(),
                    " – no pod identity associations to clean",
                ),
            )
    }
}

/// How the run goes on after: which pod identity associations does the EKS cluster have?
pub open spec fn after_pod_identities_spec(
    target: AwsSweepTargetView,
    reply: ReplyView,
) -> ScriptView {
    let ids = words_spec(reply.stdout);
    ScriptView::new()
        .join(for_each_spec(ids, |item: Seq<char>| delete_pod_identity_spec(item, target)))
}

/// How the run goes on after: which pod identity associations does the EKS cluster have?
pub fn after_pod_identities(target: &AwsSweepTarget, reply: &Reply) -> (s: Script)
    ensures
        s@ == after_pod_identities_spec(target@, reply@),
{
    let ids = words(reply.stdout.as_str());
    Script::new()
        .join(for_each(
            &ids,
            |item: &str| -> (s: Script)
                ensures
                    s@ == delete_pod_identity_spec(item@, target@)
                { delete_pod_identity(item, target) },
            Ghost(|item: Seq<char>| delete_pod_identity_spec(item, target@)),
        ))
}

/// How the run goes on after: does the EKS cluster whose nodegroups are swept exist?
pub open spec fn after_nodegroup_gate_spec(
    target: AwsSweepTargetView,
    reply: ReplyView,
) -> ScriptView {
    if reply.ok {
        ScriptView::new()
            .ask(QuestionView::Sweep(SweepQuestionView::Nodegroups { target }))
    } else {
        ScriptView::new()
    }
}

/// How the run goes on after: does the EKS cluster whose nodegroups are swept exist?
pub fn after_nodegroup_gate(target: &AwsSweepTarget, reply: &Reply) -> (s: Script)
    ensures
        s@ == after_nodegroup_gate_spec(target@, reply@),
{
    if reply.ok {
        Script::new()
            .ask(Question::Sweep(SweepQuestion::Nodegroups { target: target.copy() }))
    } else {
        Script::new()
    }
}

/// How the run goes on after: which nodegroups does the EKS cluster have?
pub open spec fn after_nodegroups_spec(target: AwsSweepTargetView, reply: ReplyView) -> ScriptView {
    let groups = words_spec(reply.stdout);
    ScriptView::new()
        .join(for_each_spec(groups, |item: Seq<char>| delete_nodegroup_spec(item, target)))
}

/// How the run goes on after: which nodegroups does the EKS cluster have?
pub fn after_nodegroups(target: &AwsSweepTarget, reply: &Reply) -> (s: Script)
    ensures
        s@ == after_nodegroups_spec(target@, reply@),
{
    let groups = words(reply.stdout.as_str());
    Script::new()
        .join(for_each(
            &groups,
            |item: &str| -> (s: Script)
                ensures
                    s@ == delete_nodegroup_spec(item@, target@)
                { delete_nodegroup(item, target) },
            Ghost(|item: Seq<char>| delete_nodegroup_spec(item, target@)),
        ))
}

/// How the run goes on after: does the EKS cluster whose nodegroups are waited for exist?
pub open spec fn after_nodegroup_wait_gate_spec(
    target: AwsSweepTargetView,
    reply: ReplyView,
) -> ScriptView {
    if reply.ok {
        ScriptView::new()
            .ask(QuestionView::Sweep(SweepQuestionView::NodegroupsLeft { target }))
    } else {
        ScriptView::new()
    }
}

/// How the run goes on after: does the EKS cluster whose nodegroups are waited for exist?
pub fn after_nodegroup_wait_gate(target: &AwsSweepTarget, reply: &Reply) -> (s: Script)
    ensures
        s@ == after_nodegroup_wait_gate_spec(target@, reply@),
{
    if reply.ok {
        Script::new()
            .ask(Question::Sweep(SweepQuestion::NodegroupsLeft { target: target.copy() }))
    } else {
        Script::new()
    }
}

/// How the run goes on after: which nodegroups does the EKS cluster still have?
pub open spec fn after_nodegroups_left_spec(
    target: AwsSweepTargetView,
    reply: ReplyView,
) -> ScriptView {
    let groups = words_spec(reply.stdout);
    ScriptView::new()
        .join(for_each_spec(groups, |item: Seq<char>| await_nodegroup_spec(item, target)))
}

/// How the run goes on after: which nodegroups does the EKS cluster still have?
pub fn after_nodegroups_left(target: &AwsSweepTarget, reply: &Reply) -> (s: Script)
    ensures
        s@ == after_nodegroups_left_spec(target@, reply@),
{
    let groups = words(reply.stdout.as_str());
    Script::new()
        .join(for_each(
            &groups,
            |item: &str| -> (s: Script)
                ensures
                    s@ == await_nodegroup_spec(item@, target@)
                { await_nodegroup(item, target) },
            Ghost(|item: Seq<char>| await_nodegroup_spec(item, target@)),
        ))
}

/// How the run goes on after: does the EKS cluster that is swept exist?
pub open spec fn after_cluster_gate_spec(
    target: AwsSweepTargetView,
    reply: ReplyView,
) -> ScriptView {
    if reply.ok {
        ScriptView::new()
            .say(
                ">>>   Deleting EKS cluster: "@ + target.eks_cluster_name + " in "@ + target.region,
            )
            .perform(
                ActionView::Quiet(
                    command("aws"@)
                        .arg("--region"@).arg(target.region).arg("eks"@).arg("delete-cluster"@)
                        .arg("--name"@).arg(target.eks_cluster_name),
                ),
                RuleView::Warn(
                    "!   "@ + "Failed to delete EKS cluster "@ + target.eks_cluster_name,
                ),
            )
    } else {
        ScriptView::new()
            .say("✓   EKS cluster "@ + target.eks_cluster_name + " not found in "@ + target.region)
    }
}

/// How the run goes on after: does the EKS cluster that is swept exist?
pub fn after_cluster_gate(target: &AwsSweepTarget, reply: &Reply) -> (s: Script)
    ensures
        s@ == after_cluster_gate_spec(target@, reply@),
{
    if reply.ok {
        Script::new()
            .say(
                cat4(
                    ">>>   Deleting EKS cluster: ",
                    target.eks_cluster_name.as_str(),
                    " in ",
                    target.region.as_str(),
                ),
            )
            .perform(
                Action::Quiet(
                    Command::new("aws")
                        .arg("--region").arg(target.region.as_str()).arg("eks")
                        .arg("delete-cluster").arg("--name").arg(target.eks_cluster_name.as_str()),
                ),
                Rule::Warn(
                    cat3("!   ", "Failed to delete EKS cluster ", target.eks_cluster_name.as_str()),
                ),
            )
    } else {
        Script::new()
            .say(
                cat4(
                    "✓   EKS cluster ",
                    target.eks_cluster_name.as_str(),
                    " not found in ",
                    target.region.as_str(),
                ),
            )
    }
}

/// How the run goes on after: does the EKS cluster that is waited for exist?
pub open spec fn after_cluster_wait_gate_spec(
    target: AwsSweepTargetView,
    reply: ReplyView,
) -> ScriptView {
    if reply.ok {
        ScriptView::new()
            .say(
                ">>>   Waiting for EKS cluster "@ + target.eks_cluster_name
                    + " to finish deleting..."@,
            )
            .perform(
                ActionView::Quiet(
                    command("aws"@)
                        .arg("--region"@).arg(target.region).arg("eks"@).arg("wait"@)
                        .arg("cluster-deleted"@).arg("--name"@).arg(target.eks_cluster_name),
                ),
                RuleView::Warn(
                    "!   "@ + "Timed out waiting for EKS cluster "@ + target.eks_cluster_name,
                ),
            )
    } else {
        ScriptView::new()
    }
}

/// How the run goes on after: does the EKS cluster that is waited for exist?
pub fn after_cluster_wait_gate(target: &AwsSweepTarget, reply: &Reply) -> (s: Script)
    ensures
        s@ == after_cluster_wait_gate_spec(target@, reply@),
{
    if reply.ok {
        Script::new()
            .say(
                cat3(
                    ">>>   Waiting for EKS cluster ",
                    target.eks_cluster_name.as_str(),
                    " to finish deleting...",
                ),
            )
            .perform(
                Action::Quiet(
                    Command::new("aws")
                        .arg("--region").arg(target.region.as_str()).arg("eks").arg("wait")
                        .arg("cluster-deleted").arg("--name").arg(target.eks_cluster_name.as_str()),
                ),
                Rule::Warn(
                    cat3(
                        "!   ",
                        "Timed out waiting for EKS cluster ",
                        target.eks_cluster_name.as_str(),
                    ),
                ),
            )
    } else {
        Script::new()
    }
}

/// How the run goes on after: does the RDS instance exist?
pub open spec fn after_rds_gate_spec(target: AwsSweepTargetView, reply: ReplyView) -> ScriptView {
    if reply.ok {
        ScriptView::new()
            .ask(QuestionView::Sweep(SweepQuestionView::RdsStatus { target }))
    } else {
        ScriptView::new()
            .say("✓   RDS instance "@ + target.rds_instance + " not found in "@ + target.region)
    }
}

/// How the run goes on after: does the RDS instance exist?
pub fn after_rds_gate(target: &AwsSweepTarget, reply: &Reply) -> (s: Script)
    ensures
        s@ == after_rds_gate_spec(target@, reply@),
{
    if reply.ok {
        Script::new()
            .ask(Question::Sweep(SweepQuestion::RdsStatus { target: target.copy() }))
    } else {
        Script::new()
            .say(
                cat4(
                    "✓   RDS instance ",
                    target.rds_instance.as_str(),
                    " not found in ",
                    target.region.as_str(),
                ),
            )
    }
}

/// How the run goes on after: which state is the RDS instance in?
pub open spec fn after_rds_status_spec(target: AwsSweepTargetView, reply: ReplyView) -> ScriptView {
    if trim_spec(reply.stdout) == "deleting"@ {
        ScriptView::new()
            .say(
                ">>>   RDS instance "@ + target.rds_instance + " already deleting in "@
                    + target.region,
            )
    } else {
        ScriptView::new()
            .say(">>>   Deleting RDS instance: "@ + target.rds_instance + " in "@ + target.region)
            .perform(
                ActionView::Quiet(
                    command("aws"@)
                        .arg("--region"@).arg(target.region).arg("rds"@).arg("delete-db-instance"@)
                        .arg("--db-instance-identifier"@).arg(target.rds_instance)
                        .arg("--skip-final-snapshot"@).arg("--delete-automated-backups"@),
                ),
                RuleView::Warn("!   "@ + "Failed to delete RDS instance "@ + target.rds_instance),
            )
    }
}

/// How the run goes on after: which state is the RDS instance in?
pub fn after_rds_status(target: &AwsSweepTarget, reply: &Reply) -> (s: Script)
    ensures
        s@ == after_rds_status_spec(target@, reply@),
{
    if same(trim(reply.stdout.as_str()).as_str(), "deleting") {
        Script::new()
            .say(
                cat4(
                    ">>>   RDS instance ",
                    target.rds_instance.as_str(),
                    " already deleting in ",
                    target.region.as_str(),
                ),
            )
    } else {
        Script::new()
            .say(
                cat4(
                    ">>>   Deleting RDS instance: ",
                    target.rds_instance.as_str(),
                    " in ",
                    target.region.as_str(),
                ),
            )
            .perform(
                Action::Quiet(
                    Command::new("aws")
                        .arg("--region").arg(target.region.as_str()).arg("rds")
                        .arg("delete-db-instance").arg("--db-instance-identifier")
                        .arg(target.rds_instance.as_str()).arg("--skip-final-snapshot")
                        .arg("--delete-automated-backups"),
                ),
                Rule::Warn(
                    cat3("!   ", "Failed to delete RDS instance ", target.rds_instance.as_str()),
                ),
            )
    }
}

/// How the run goes on after: does the S3 bucket exist?
pub open spec fn after_bucket_gate_spec(
    bucket: Seq<char>,
    region: Seq<char>,
    reply: ReplyView,
) -> ScriptView {
    if reply.ok {
        ScriptView::new()
            .say(">>>   Emptying S3 bucket: "@ + bucket + " (all versions and delete markers)"@)
            .ask(QuestionView::Sweep(SweepQuestionView::BucketBatch { bucket, region }))
    } else {
        ScriptView::new()
            .say("✓   S3 bucket "@ + bucket + " not found"@)
    }
}

/// How the run goes on after: does the S3 bucket exist?
pub fn after_bucket_gate(bucket: &str, region: &str, reply: &Reply) -> (s: Script)
    ensures
        s@ == after_bucket_gate_spec(bucket@, region@, reply@),
{
    if reply.ok {
        Script::new()
            .say(cat3(">>>   Emptying S3 bucket: ", bucket, " (all versions and delete markers)"))
            .ask(
                Question::Sweep(
                    SweepQuestion::BucketBatch {
                        bucket: bucket.to_owned(),
                        region: region.to_owned(),
                    },
                ),
            )
    } else {
        Script::new()
            .say(cat3("✓   S3 bucket ", bucket, " not found"))
    }
}

/// How the run goes on after: which object versions and delete markers does the S3 bucket still
/// hold?
pub open spec fn after_bucket_batch_spec(
    bucket: Seq<char>,
    region: Seq<char>,
    reply: ReplyView,
) -> ScriptView {
    if contains_spec(reply.stdout, "\"Key\""@) {
        ScriptView::new()
            .ask(
                QuestionView::Sweep(
                    SweepQuestionView::BucketPurge { bucket, region, batch: reply.stdout },
                ),
            )
    } else {
        delete_bucket_spec(bucket, region)
    }
}

/// How the run goes on after: which object versions and delete markers does the S3 bucket still
/// hold?
pub fn after_bucket_batch(bucket: &str, region: &str, reply: &Reply) -> (s: Script)
    ensures
        s@ == after_bucket_batch_spec(bucket@, region@, reply@),
{
    if contains(reply.stdout.as_str(), "\"Key\"") {
        Script::new()
            .ask(
                Question::Sweep(
                    SweepQuestion::BucketPurge {
                        bucket: bucket.to_owned(),
                        region: region.to_owned(),
                        batch: reply.stdout.clone(),
                    },
                ),
            )
    } else {
        delete_bucket(bucket, region)
    }
}

/// How the run goes on after: were the listed versions and delete markers of the S3 bucket removed?
pub open spec fn after_bucket_purge_spec(
    bucket: Seq<char>,
    region: Seq<char>,
    reply: ReplyView,
) -> ScriptView {
    if reply.ok {
        ScriptView::new()
            .ask(QuestionView::Sweep(SweepQuestionView::BucketBatch { bucket, region }))
    } else {
        ScriptView::new()
            .report("!   Failed to purge objects from "@ + bucket)
            .join(delete_bucket_spec(bucket, region))
    }
}

/// How the run goes on after: were the listed versions and delete markers of the S3 bucket removed?
pub fn after_bucket_purge(bucket: &str, region: &str, reply: &Reply) -> (s: Script)
    ensures
        s@ == after_bucket_purge_spec(bucket@, region@, reply@),
{
    if reply.ok {
        Script::new()
            .ask(
                Question::Sweep(
                    SweepQuestion::BucketBatch {
                        bucket: bucket.to_owned(),
                        region: region.to_owned(),
                    },
                ),
            )
    } else {
        Script::new()
            .report(cat2("!   Failed to purge objects from ", bucket))
            .join(delete_bucket(bucket, region))
    }
}

/// How the run goes on after: does the IAM role exist?
pub open spec fn after_role_gate_spec(role: Seq<char>, reply: ReplyView) -> ScriptView {
    if reply.ok {
        ScriptView::new()
            .say(">>>   Deleting IAM role: "@ + role)
            .ask(QuestionView::Sweep(SweepQuestionView::RolePolicies { role }))
            .ask(QuestionView::Sweep(SweepQuestionView::RoleProfiles { role }))
            .ask(QuestionView::Sweep(SweepQuestionView::RoleInline { role }))
            .perform(
                ActionView::Quiet(
                    command("aws"@).arg("iam"@).arg("delete-role"@).arg("--role-name"@).arg(role),
                ),
                RuleView::Warn("!   "@ + "Failed to delete IAM role "@ + role),
            )
    } else {
        ScriptView::new()
    }
}

/// How the run goes on after: does the IAM role exist?
pub fn after_role_gate(role: &str, reply: &Reply) -> (s: Script)
    ensures
        s@ == after_role_gate_spec(role@, reply@),
{
    if reply.ok {
        Script::new()
            .say(cat2(">>>   Deleting IAM role: ", role))
            .ask(Question::Sweep(SweepQuestion::RolePolicies { role: role.to_owned() }))
            .ask(Question::Sweep(SweepQuestion::RoleProfiles { role: role.to_owned() }))
            .ask(Question::Sweep(SweepQuestion::RoleInline { role: role.to_owned() }))
            .perform(
                Action::Quiet(
                    Command::new("aws").arg("iam").arg("delete-role").arg("--role-name").arg(role),
                ),
                Rule::Warn(cat3("!   ", "Failed to delete IAM role ", role)),
            )
    } else {
        Script::new()
    }
}

/// How the run goes on after: which policies are attached to the IAM role?
pub open spec fn after_role_policies_spec(role: Seq<char>, reply: ReplyView) -> ScriptView {
    let found = words_spec(reply.stdout);
    ScriptView::new()
        .join(for_each_spec(found, |item: Seq<char>| detach_policy_spec(item, role)))
}

/// How the run goes on after: which policies are attached to the IAM role?
pub fn after_role_policies(role: &str, reply: &Reply) -> (s: Script)
    ensures
        s@ == after_role_policies_spec(role@, reply@),
{
    let found = words(reply.stdout.as_str());
    Script::new()
        .join(for_each(
            &found,
            |item: &str| -> (s: Script)
                ensures
                    s@ == detach_policy_spec(item@, role@)
                { detach_policy(item, role) },
            Ghost(|item: Seq<char>| detach_policy_spec(item, role@)),
        ))
}

/// How the run goes on after: which instance profiles hold the IAM role?
pub open spec fn after_role_profiles_spec(role: Seq<char>, reply: ReplyView) -> ScriptView {
    let found = words_spec(reply.stdout);
    ScriptView::new()
        .join(for_each_spec(found, |item: Seq<char>| delete_profile_spec(item, role)))
}

/// How the run goes on after: which instance profiles hold the IAM role?
pub fn after_role_profiles(role: &str, reply: &Reply) -> (s: Script)
    ensures
        s@ == after_role_profiles_spec(role@, reply@),
{
    let found = words(reply.stdout.as_str());
    Script::new()
        .join(for_each(
            &found,
            |item: &str| -> (s: Script)
                ensures
                    s@ == delete_profile_spec(item@, role@)
                { delete_profile(item, role) },
            Ghost(|item: Seq<char>| delete_profile_spec(item, role@)),
        ))
}

/// How the run goes on after: which inline policies does the IAM role have?
pub open spec fn after_role_inline_spec(role: Seq<char>, reply: ReplyView) -> ScriptView {
    let found = words_spec(reply.stdout);
    ScriptView::new()
        .join(for_each_spec(found, |item: Seq<char>| delete_role_policy_spec(item, role)))
}

/// How the run goes on after: which inline policies does the IAM role have?
pub fn after_role_inline(role: &str, reply: &Reply) -> (s: Script)
    ensures
        s@ == after_role_inline_spec(role@, reply@),
{
    let found = words(reply.stdout.as_str());
    Script::new()
        .join(for_each(
            &found,
            |item: &str| -> (s: Script)
                ensures
                    s@ == delete_role_policy_spec(item@, role@)
                { delete_role_policy(item, role) },
            Ghost(|item: Seq<char>| delete_role_policy_spec(item, role@)),
        ))
}

/// How the run goes on after: which IAM roles have names that start with the cluster name?
pub open spec fn after_capa_roles_spec(reply: ReplyView) -> ScriptView {
    let found = words_spec(reply.stdout);
    ScriptView::new()
        .join(for_each_spec(found, |item: Seq<char>| cleanup_listed_role_spec(item)))
}

/// How the run goes on after: which IAM roles have names that start with the cluster name?
pub fn after_capa_roles(reply: &Reply) -> (s: Script)
    ensures
        s@ == after_capa_roles_spec(reply@),
{
    let found = words(reply.stdout.as_str());
    Script::new()
        .join(for_each(
            &found,
            |item: &str| -> (s: Script)
                ensures
                    s@ == cleanup_listed_role_spec(item@)
                { cleanup_listed_role(item) },
            Ghost(|item: Seq<char>| cleanup_listed_role_spec(item)),
        ))
}

/// How the run goes on after: does the IAM user exist?
pub open spec fn after_user_gate_spec(user: Seq<char>, reply: ReplyView) -> ScriptView {
    if reply.ok {
        ScriptView::new()
            .say(">>>   Deleting IAM user: "@ + user)
            .perform(
                ActionView::Quiet(
                    command("aws"@)
                        .arg("iam"@).arg("delete-login-profile"@).arg("--user-name"@).arg(user),
                ),
                RuleView::Ignore,
            )
            .ask(QuestionView::Sweep(SweepQuestionView::UserKeys { user }))
            .ask(QuestionView::Sweep(SweepQuestionView::UserInline { user }))
            .perform(
                ActionView::Quiet(
                    command("aws"@).arg("iam"@).arg("delete-user"@).arg("--user-name"@).arg(user),
                ),
                RuleView::Warn("!   "@ + "Failed to delete IAM user "@ + user),
            )
    } else {
        ScriptView::new()
    }
}

/// How the run goes on after: does the IAM user exist?
pub fn after_user_gate(user: &str, reply: &Reply) -> (s: Script)
    ensures
        s@ == after_user_gate_spec(user@, reply@),
{
    if reply.ok {
        Script::new()
            .say(cat2(">>>   Deleting IAM user: ", user))
            .perform(
                Action::Quiet(
                    Command::new("aws")
                        .arg("iam").arg("delete-login-profile").arg("--user-name").arg(user),
                ),
                Rule::Ignore,
            )
            .ask(Question::Sweep(SweepQuestion::UserKeys { user: user.to_owned() }))
            .ask(Question::Sweep(SweepQuestion::UserInline { user: user.to_owned() }))
            .perform(
                Action::Quiet(
                    Command::new("aws").arg("iam").arg("delete-user").arg("--user-name").arg(user),
                ),
                Rule::Warn(cat3("!   ", "Failed to delete IAM user ", user)),
            )
    } else {
        Script::new()
    }
}

/// How the run goes on after: which access keys does the IAM user have?
pub open spec fn after_user_keys_spec(user: Seq<char>, reply: ReplyView) -> ScriptView {
    let found = words_spec(reply.stdout);
    ScriptView::new()
        .join(for_each_spec(found, |item: Seq<char>| delete_access_key_spec(item, user)))
}

/// How the run goes on after: which access keys does the IAM user have?
pub fn after_user_keys(user: &str, reply: &Reply) -> (s: Script)
    ensures
        s@ == after_user_keys_spec(user@, reply@),
{
    let found = words(reply.stdout.as_str());
    Script::new()
        .join(for_each(
            &found,
            |item: &str| -> (s: Script)
                ensures
                    s@ == delete_access_key_spec(item@, user@)
                { delete_access_key(item, user) },
            Ghost(|item: Seq<char>| delete_access_key_spec(item, user@)),
        ))
}

/// How the run goes on after: which inline policies does the IAM user have?
pub open spec fn after_user_inline_spec(user: Seq<char>, reply: ReplyView) -> ScriptView {
    let found = words_spec(reply.stdout);
    ScriptView::new()
        .join(for_each_spec(found, |item: Seq<char>| delete_user_policy_spec(item, user)))
}

/// How the run goes on after: which inline policies does the IAM user have?
pub fn after_user_inline(user: &str, reply: &Reply) -> (s: Script)
    ensures
        s@ == after_user_inline_spec(user@, reply@),
{
    let found = words(reply.stdout.as_str());
    Script::new()
        .join(for_each(
            &found,
            |item: &str| -> (s: Script)
                ensures
                    s@ == delete_user_policy_spec(item@, user@)
                { delete_user_policy(item, user) },
            Ghost(|item: Seq<char>| delete_user_policy_spec(item, user@)),
        ))
}

/// How the run goes on after: does the CloudFormation stack exist?
pub open spec fn after_stack_gate_spec(
    stack: Seq<char>,
    region: Seq<char>,
    reply: ReplyView,
) -> ScriptView {
    if reply.ok {
        ScriptView::new()
            .say(">>>   Deleting CFN stack: "@ + stack + " in "@ + region)
            .perform(
                ActionView::Quiet(
                    command("aws"@)
                        .arg("cloudformation"@).arg("delete-stack"@).arg("--stack-name"@).arg(stack)
                        .arg("--region"@).arg(region),
                ),
                RuleView::Warn("!   "@ + "Failed to delete CFN stack "@ + stack + " in "@ + region),
            )
    } else {
        ScriptView::new()
    }
}

/// How the run goes on after: does the CloudFormation stack exist?
pub fn after_stack_gate(stack: &str, region: &str, reply: &Reply) -> (s: Script)
    ensures
        s@ == after_stack_gate_spec(stack@, region@, reply@),
{
    if reply.ok {
        Script::new()
            .say(cat4(">>>   Deleting CFN stack: ", stack, " in ", region))
            .perform(
                Action::Quiet(
                    Command::new("aws")
                        .arg("cloudformation").arg("delete-stack").arg("--stack-name").arg(stack)
                        .arg("--region").arg(region),
                ),
                Rule::Warn(cat5("!   ", "Failed to delete CFN stack ", stack, " in ", region)),
            )
    } else {
        Script::new()
    }
}

/// How the run goes on after: which VPCs carry the ownership tag of the cluster?
pub open spec fn after_vpcs_spec(target: AwsSweepTargetView, reply: ReplyView) -> ScriptView {
    let found = words_spec(reply.stdout);
    ScriptView::new()
        .join(for_each_spec(found, |item: Seq<char>| cleanup_listed_vpc_spec(item, target)))
}

/// How the run goes on after: which VPCs carry the ownership tag of the cluster?
pub fn after_vpcs(target: &AwsSweepTarget, reply: &Reply) -> (s: Script)
    ensures
        s@ == after_vpcs_spec(target@, reply@),
{
    let found = words(reply.stdout.as_str());
    Script::new()
        .join(for_each(
            &found,
            |item: &str| -> (s: Script)
                ensures
                    s@ == cleanup_listed_vpc_spec(item@, target@)
                { cleanup_listed_vpc(item, target) },
            Ghost(|item: Seq<char>| cleanup_listed_vpc_spec(item, target@)),
        ))
}

/// How the run goes on after: which NAT gateways does the VPC have, those being deleted among them?
pub open spec fn after_vpc_nats_spec(region: Seq<char>, reply: ReplyView) -> ScriptView {
    let nats = words_spec(reply.stdout);
    ScriptView::new()
        .join(for_each_spec(nats, |item: Seq<char>| delete_nat_spec(item, region)))
        .join(for_each_spec(nats, |item: Seq<char>| await_nat_spec(item, region)))
}

/// How the run goes on after: which NAT gateways does the VPC have, those being deleted among them?
pub fn after_vpc_nats(region: &str, reply: &Reply) -> (s: Script)
    ensures
        s@ == after_vpc_nats_spec(region@, reply@),
{
    let nats = words(reply.stdout.as_str());
    Script::new()
        .join(for_each(
            &nats,
            |item: &str| -> (s: Script)
                ensures
                    s@ == delete_nat_spec(item@, region@)
                { delete_nat(item, region) },
            Ghost(|item: Seq<char>| delete_nat_spec(item, region@)),
        ))
        .join(for_each(
            &nats,
            |item: &str| -> (s: Script)
                ensures
                    s@ == await_nat_spec(item@, region@)
                { await_nat(item, region) },
            Ghost(|item: Seq<char>| await_nat_spec(item, region@)),
        ))
}

/// How the run goes on after: which Elastic IPs carry the ownership tag?
pub open spec fn after_vpc_addresses_spec(region: Seq<char>, reply: ReplyView) -> ScriptView {
    let found = words_spec(reply.stdout);
    ScriptView::new()
        .join(for_each_spec(found, |item: Seq<char>| release_address_spec(item, region)))
}

/// How the run goes on after: which Elastic IPs carry the ownership tag?
pub fn after_vpc_addresses(region: &str, reply: &Reply) -> (s: Script)
    ensures
        s@ == after_vpc_addresses_spec(region@, reply@),
{
    let found = words(reply.stdout.as_str());
    Script::new()
        .join(for_each(
            &found,
            |item: &str| -> (s: Script)
                ensures
                    s@ == release_address_spec(item@, region@)
                { release_address(item, region) },
            Ghost(|item: Seq<char>| release_address_spec(item, region@)),
        ))
}

/// How the run goes on after: which subnets does the VPC have?
pub open spec fn after_vpc_subnets_spec(region: Seq<char>, reply: ReplyView) -> ScriptView {
    let found = words_spec(reply.stdout);
    ScriptView::new()
        .join(for_each_spec(found, |item: Seq<char>| delete_subnet_spec(item, region)))
}

/// How the run goes on after: which subnets does the VPC have?
pub fn after_vpc_subnets(region: &str, reply: &Reply) -> (s: Script)
    ensures
        s@ == after_vpc_subnets_spec(region@, reply@),
{
    let found = words(reply.stdout.as_str());
    Script::new()
        .join(for_each(
            &found,
            |item: &str| -> (s: Script)
                ensures
                    s@ == delete_subnet_spec(item@, region@)
                { delete_subnet(item, region) },
            Ghost(|item: Seq<char>| delete_subnet_spec(item, region@)),
        ))
}

/// How the run goes on after: which internet gateways are attached to the VPC?
pub open spec fn after_vpc_gateways_spec(
    vpc: Seq<char>,
    region: Seq<char>,
    reply: ReplyView,
) -> ScriptView {
    let found = words_spec(reply.stdout);
    ScriptView::new()
        .join(for_each_spec(found, |item: Seq<char>| delete_gateway_spec(item, vpc, region)))
}

/// How the run goes on after: which internet gateways are attached to the VPC?
pub fn after_vpc_gateways(vpc: &str, region: &str, reply: &Reply) -> (s: Script)
    ensures
        s@ == after_vpc_gateways_spec(vpc@, region@, reply@),
{
    let found = words(reply.stdout.as_str());
    Script::new()
        .join(for_each(
            &found,
            |item: &str| -> (s: Script)
                ensures
                    s@ == delete_gateway_spec(item@, vpc@, region@)
                { delete_gateway(item, vpc, region) },
            Ghost(|item: Seq<char>| delete_gateway_spec(item, vpc@, region@)),
        ))
}

/// How the run goes on after: which route table is the main one of the VPC?
pub open spec fn after_vpc_main_table_spec(
    vpc: Seq<char>,
    region: Seq<char>,
    reply: ReplyView,
) -> ScriptView {
    let main = trim_spec(reply.stdout);
    ScriptView::new()
        .ask(QuestionView::Sweep(SweepQuestionView::VpcTables { vpc, region, main }))
}

/// How the run goes on after: which route table is the main one of the VPC?
pub fn after_vpc_main_table(vpc: &str, region: &str, reply: &Reply) -> (s: Script)
    ensures
        s@ == after_vpc_main_table_spec(vpc@, region@, reply@),
{
    let main = trim(reply.stdout.as_str());
    Script::new()
        .ask(
            Question::Sweep(
                SweepQuestion::VpcTables {
                    vpc: vpc.to_owned(),
                    region: region.to_owned(),
                    main: main.clone(),
                },
            ),
        )
}

/// How the run goes on after: which route tables does the VPC have?
pub open spec fn after_vpc_tables_spec(
    region: Seq<char>,
    main: Seq<char>,
    reply: ReplyView,
) -> ScriptView {
    let found = words_spec(reply.stdout);
    ScriptView::new()
        .join(for_each_spec(found, |item: Seq<char>| delete_route_table_spec(item, main, region)))
}

/// How the run goes on after: which route tables does the VPC have?
pub fn after_vpc_tables(region: &str, main: &str, reply: &Reply) -> (s: Script)
    ensures
        s@ == after_vpc_tables_spec(region@, main@, reply@),
{
    let found = words(reply.stdout.as_str());
    Script::new()
        .join(for_each(
            &found,
            |item: &str| -> (s: Script)
                ensures
                    s@ == delete_route_table_spec(item@, main@, region@)
                { delete_route_table(item, main, region) },
            Ghost(|item: Seq<char>| delete_route_table_spec(item, main@, region@)),
        ))
}

/// How the run goes on after: which security groups does the VPC have, besides the default one?
pub open spec fn after_vpc_groups_spec(region: Seq<char>, reply: ReplyView) -> ScriptView {
    let groups = words_spec(reply.stdout);
    ScriptView::new()
        .join(for_each_spec(groups, |item: Seq<char>| strip_group_spec(item, region)))
        .join(for_each_spec(groups, |item: Seq<char>| delete_group_spec(item, region)))
}

/// How the run goes on after: which security groups does the VPC have, besides the default one?
pub fn after_vpc_groups(region: &str, reply: &Reply) -> (s: Script)
    ensures
        s@ == after_vpc_groups_spec(region@, reply@),
{
    let groups = words(reply.stdout.as_str());
    Script::new()
        .join(for_each(
            &groups,
            |item: &str| -> (s: Script)
                ensures
                    s@ == strip_group_spec(item@, region@)
                { strip_group(item, region) },
            Ghost(|item: Seq<char>| strip_group_spec(item, region@)),
        ))
        .join(for_each(
            &groups,
            |item: &str| -> (s: Script)
                ensures
                    s@ == delete_group_spec(item@, region@)
                { delete_group(item, region) },
            Ghost(|item: Seq<char>| delete_group_spec(item, region@)),
        ))
}

/// How the run goes on after: which ingress rules does the security group have?
pub open spec fn after_group_ingress_spec(
    group: Seq<char>,
    region: Seq<char>,
    reply: ReplyView,
) -> ScriptView {
    let rules = trim_spec(reply.stdout);
    if rules != "[]"@ && !is_nothing_spec(rules) {
        ScriptView::new()
            .perform(
                ActionView::Quiet(
                    command("aws"@)
                        .arg("ec2"@).arg("revoke-security-group-ingress"@).arg("--region"@)
                        .arg(region).arg("--group-id"@).arg(group).arg("--ip-permissions"@)
                        .arg(rules),
                ),
                RuleView::Ignore,
            )
    } else {
        ScriptView::new()
    }
}

/// How the run goes on after: which ingress rules does the security group have?
pub fn after_group_ingress(group: &str, region: &str, reply: &Reply) -> (s: Script)
    ensures
        s@ == after_group_ingress_spec(group@, region@, reply@),
{
    let rules = trim(reply.stdout.as_str());
    if !same(rules.as_str(), "[]") && !is_nothing(rules.as_str()) {
        Script::new()
            .perform(
                Action::Quiet(
                    Command::new("aws")
                        .arg("ec2").arg("revoke-security-group-ingress").arg("--region").arg(region)
                        .arg("--group-id").arg(group).arg("--ip-permissions").arg(rules.as_str()),
                ),
                Rule::Ignore,
            )
    } else {
        Script::new()
    }
}

/// How the run goes on after: which egress rules does the security group have?
pub open spec fn after_group_egress_spec(
    group: Seq<char>,
    region: Seq<char>,
    reply: ReplyView,
) -> ScriptView {
    let rules = trim_spec(reply.stdout);
    if rules != "[]"@ && !is_nothing_spec(rules) {
        ScriptView::new()
            .perform(
                ActionView::Quiet(
                    command("aws"@)
                        .arg("ec2"@).arg("revoke-security-group-egress"@).arg("--region"@)
                        .arg(region).arg("--group-id"@).arg(group).arg("--ip-permissions"@)
                        .arg(rules),
                ),
                RuleView::Ignore,
            )
    } else {
        ScriptView::new()
    }
}

/// How the run goes on after: which egress rules does the security group have?
pub fn after_group_egress(group: &str, region: &str, reply: &Reply) -> (s: Script)
    ensures
        s@ == after_group_egress_spec(group@, region@, reply@),
{
    let rules = trim(reply.stdout.as_str());
    if !same(rules.as_str(), "[]") && !is_nothing(rules.as_str()) {
        Script::new()
            .perform(
                Action::Quiet(
                    Command::new("aws")
                        .arg("ec2").arg("revoke-security-group-egress").arg("--region").arg(region)
                        .arg("--group-id").arg(group).arg("--ip-permissions").arg(rules.as_str()),
                ),
                Rule::Ignore,
            )
    } else {
        Script::new()
    }
}

/// How the run goes on after: which AWS account is swept?
pub open spec fn after_account_spec(cfg: Config, reply: ReplyView) -> ScriptView {
    let account = trim_spec(reply.stdout);
    if is_nothing_spec(account) {
        ScriptView::new()
            .report("!   Could not determine AWS account ID – skipping S3 bucket cleanup"@)
    } else {
        cleanup_buckets_spec(cfg, account)
    }
}

/// How the run goes on after: which AWS account is swept?
pub fn after_account(cfg: &Config, reply: &Reply) -> (s: Script)
    ensures
        s@ == after_account_spec(*cfg, reply@),
{
    let account = trim(reply.stdout.as_str());
    if is_nothing(account.as_str()) {
        Script::new()
            .report(
                "!   Could not determine AWS account ID – skipping S3 bucket cleanup".to_owned(),
            )
    } else {
        cleanup_buckets(cfg, account.as_str())
    }
}

/// How the run goes on once a question is answered.
pub open spec fn answer_spec(
    cfg: Config,
    question: SweepQuestionView,
    reply: ReplyView,
) -> ScriptView {
    match question {
        SweepQuestionView::PodIdentityGate { target } => after_pod_identity_gate_spec(
            target,
            reply,
        ),
        SweepQuestionView::PodIdentities { target } => after_pod_identities_spec(target, reply),
        SweepQuestionView::NodegroupGate { target } => after_nodegroup_gate_spec(target, reply),
        SweepQuestionView::Nodegroups { target } => after_nodegroups_spec(target, reply),
        SweepQuestionView::NodegroupWaitGate { target } => after_nodegroup_wait_gate_spec(
            target,
            reply,
        ),
        SweepQuestionView::NodegroupsLeft { target } => after_nodegroups_left_spec(target, reply),
        SweepQuestionView::ClusterGate { target } => after_cluster_gate_spec(target, reply),
        SweepQuestionView::ClusterWaitGate { target } => after_cluster_wait_gate_spec(
            target,
            reply,
        ),
        SweepQuestionView::RdsGate { target } => after_rds_gate_spec(target, reply),
        SweepQuestionView::RdsStatus { target } => after_rds_status_spec(target, reply),
        SweepQuestionView::BucketGate { bucket, region } => after_bucket_gate_spec(
            bucket,
            region,
            reply,
        ),
        SweepQuestionView::BucketBatch { bucket, region } => {
            after_bucket_batch_spec(bucket, region, reply)
        },
        SweepQuestionView::BucketPurge { bucket, region, .. } => {
            after_bucket_purge_spec(bucket, region, reply)
        },
        SweepQuestionView::RoleGate { role } => after_role_gate_spec(role, reply),
        SweepQuestionView::RolePolicies { role } => after_role_policies_spec(role, reply),
        SweepQuestionView::RoleProfiles { role } => after_role_profiles_spec(role, reply),
        SweepQuestionView::RoleInline { role } => after_role_inline_spec(role, reply),
        SweepQuestionView::CapaRoles { .. } => after_capa_roles_spec(reply),
        SweepQuestionView::UserGate { user } => after_user_gate_spec(user, reply),
        SweepQuestionView::UserKeys { user } => after_user_keys_spec(user, reply),
        SweepQuestionView::UserInline { user } => after_user_inline_spec(user, reply),
        SweepQuestionView::StackGate { stack, region } => after_stack_gate_spec(
            stack,
            region,
            reply,
        ),
        SweepQuestionView::Vpcs { target } => after_vpcs_spec(target, reply),
        SweepQuestionView::VpcNats { region, .. } => after_vpc_nats_spec(region, reply),
        SweepQuestionView::VpcAddresses { region, .. } => after_vpc_addresses_spec(region, reply),
        SweepQuestionView::VpcSubnets { region, .. } => after_vpc_subnets_spec(region, reply),
        SweepQuestionView::VpcGateways { vpc, region } => after_vpc_gateways_spec(
            vpc,
            region,
            reply,
        ),
        SweepQuestionView::VpcMainTable { vpc, region } => after_vpc_main_table_spec(
            vpc,
            region,
            reply,
        ),
        SweepQuestionView::VpcTables { region, main, .. } => {
            after_vpc_tables_spec(region, main, reply)
        },
        SweepQuestionView::VpcGroups { region, .. } => after_vpc_groups_spec(region, reply),
        SweepQuestionView::GroupIngress { group, region } => {
            after_group_ingress_spec(group, region, reply)
        },
        SweepQuestionView::GroupEgress { group, region } => after_group_egress_spec(
            group,
            region,
            reply,
        ),
        SweepQuestionView::Account => after_account_spec(cfg, reply),
    }
}

/// How the run goes on once a question is answered.
pub fn answer(cfg: &Config, question: &SweepQuestion, reply: &Reply) -> (s: Script)
    ensures
        s@ == answer_spec(*cfg, question@, reply@),
{
    match question {
        SweepQuestion::PodIdentityGate { target } => after_pod_identity_gate(target, reply),
        SweepQuestion::PodIdentities { target } => after_pod_identities(target, reply),
        SweepQuestion::NodegroupGate { target } => after_nodegroup_gate(target, reply),
        SweepQuestion::Nodegroups { target } => after_nodegroups(target, reply),
        SweepQuestion::NodegroupWaitGate { target } => after_nodegroup_wait_gate(target, reply),
        SweepQuestion::NodegroupsLeft { target } => after_nodegroups_left(target, reply),
        SweepQuestion::ClusterGate { target } => after_cluster_gate(target, reply),
        SweepQuestion::ClusterWaitGate { target } => after_cluster_wait_gate(target, reply),
        SweepQuestion::RdsGate { target } => after_rds_gate(target, reply),
        SweepQuestion::RdsStatus { target } => after_rds_status(target, reply),
        SweepQuestion::BucketGate { bucket, region } => after_bucket_gate(
            bucket.as_str(),
            region.as_str(),
            reply,
        ),
        SweepQuestion::BucketBatch { bucket, region } => after_bucket_batch(
            bucket.as_str(),
            region.as_str(),
            reply,
        ),
        SweepQuestion::BucketPurge { bucket, region, .. } => {
            after_bucket_purge(bucket.as_str(), region.as_str(), reply)
        },
        SweepQuestion::RoleGate { role } => after_role_gate(role.as_str(), reply),
        SweepQuestion::RolePolicies { role } => after_role_policies(role.as_str(), reply),
        SweepQuestion::RoleProfiles { role } => after_role_profiles(role.as_str(), reply),
        SweepQuestion::RoleInline { role } => after_role_inline(role.as_str(), reply),
        SweepQuestion::CapaRoles { .. } => after_capa_roles(reply),
        SweepQuestion::UserGate { user } => after_user_gate(user.as_str(), reply),
        SweepQuestion::UserKeys { user } => after_user_keys(user.as_str(), reply),
        SweepQuestion::UserInline { user } => after_user_inline(user.as_str(), reply),
        SweepQuestion::StackGate { stack, region } => after_stack_gate(
            stack.as_str(),
            region.as_str(),
            reply,
        ),
        SweepQuestion::Vpcs { target } => after_vpcs(target, reply),
        SweepQuestion::VpcNats { region, .. } => after_vpc_nats(region.as_str(), reply),
        SweepQuestion::VpcAddresses { region, .. } => after_vpc_addresses(region.as_str(), reply),
        SweepQuestion::VpcSubnets { region, .. } => after_vpc_subnets(region.as_str(), reply),
        SweepQuestion::VpcGateways { vpc, region } => after_vpc_gateways(
            vpc.as_str(),
            region.as_str(),
            reply,
        ),
        SweepQuestion::VpcMainTable { vpc, region } => after_vpc_main_table(
            vpc.as_str(),
            region.as_str(),
            reply,
        ),
        SweepQuestion::VpcTables { region, main, .. } => after_vpc_tables(
            region.as_str(),
            main.as_str(),
            reply,
        ),
        SweepQuestion::VpcGroups { region, .. } => after_vpc_groups(region.as_str(), reply),
        SweepQuestion::GroupIngress { group, region } => after_group_ingress(
            group.as_str(),
            region.as_str(),
            reply,
        ),
        SweepQuestion::GroupEgress { group, region } => after_group_egress(
            group.as_str(),
            region.as_str(),
            reply,
        ),
        SweepQuestion::Account => after_account(cfg, reply),
    }
}

/// The pod identity associations of a cluster; they exist only while the EKS cluster does.
pub open spec fn cleanup_pod_identity_associations_spec(target: AwsSweepTargetView) -> ScriptView {
    ScriptView::new()
        .ask(QuestionView::Sweep(SweepQuestionView::PodIdentityGate { target }))
}

/// The pod identity associations of a cluster; they exist only while the EKS cluster does.
pub fn cleanup_pod_identity_associations(target: &AwsSweepTarget) -> (s: Script)
    ensures
        s@ == cleanup_pod_identity_associations_spec(target@),
{
    Script::new()
        .ask(Question::Sweep(SweepQuestion::PodIdentityGate { target: target.copy() }))
}

/// Deletes one pod identity association.
pub open spec fn delete_pod_identity_spec(id: Seq<char>, target: AwsSweepTargetView) -> ScriptView {
    ScriptView::new()
        .say(">>>   Deleting pod identity association: "@ + id)
        .perform(
            ActionView::Quiet(
                command("aws"@)
                    .arg("--region"@).arg(target.region).arg("eks"@)
                    .arg("delete-pod-identity-association"@).arg("--cluster-name"@)
                    .arg(target.eks_cluster_name).arg("--association-id"@).arg(id),
            ),
            RuleView::Warn("!   "@ + "Failed to delete pod identity association "@ + id),
        )
}

/// Deletes one pod identity association.
pub fn delete_pod_identity(id: &str, target: &AwsSweepTarget) -> (s: Script)
    ensures
        s@ == delete_pod_identity_spec(id@, target@),
{
    Script::new()
        .say(cat2(">>>   Deleting pod identity association: ", id))
        .perform(
            Action::Quiet(
                Command::new("aws")
                    .arg("--region").arg(target.region.as_str()).arg("eks")
                    .arg("delete-pod-identity-association").arg("--cluster-name")
                    .arg(target.eks_cluster_name.as_str()).arg("--association-id").arg(id),
            ),
            Rule::Warn(cat3("!   ", "Failed to delete pod identity association ", id)),
        )
}

/// The nodegroups of a cluster; EKS refuses to delete a cluster that has any.
pub open spec fn cleanup_nodegroups_spec(target: AwsSweepTargetView) -> ScriptView {
    ScriptView::new()
        .ask(QuestionView::Sweep(SweepQuestionView::NodegroupGate { target }))
}

/// The nodegroups of a cluster; EKS refuses to delete a cluster that has any.
pub fn cleanup_nodegroups(target: &AwsSweepTarget) -> (s: Script)
    ensures
        s@ == cleanup_nodegroups_spec(target@),
{
    Script::new()
        .ask(Question::Sweep(SweepQuestion::NodegroupGate { target: target.copy() }))
}

/// Deletes one nodegroup.
pub open spec fn delete_nodegroup_spec(group: Seq<char>, target: AwsSweepTargetView) -> ScriptView {
    ScriptView::new()
        .say(">>>   Deleting nodegroup: "@ + group)
        .perform(
            ActionView::Quiet(
                command("aws"@)
                    .arg("--region"@).arg(target.region).arg("eks"@).arg("delete-nodegroup"@)
                    .arg("--cluster-name"@).arg(target.eks_cluster_name).arg("--nodegroup-name"@)
                    .arg(group),
            ),
            RuleView::Warn("!   "@ + "Failed to delete nodegroup "@ + group),
        )
}

/// Deletes one nodegroup.
pub fn delete_nodegroup(group: &str, target: &AwsSweepTarget) -> (s: Script)
    ensures
        s@ == delete_nodegroup_spec(group@, target@),
{
    Script::new()
        .say(cat2(">>>   Deleting nodegroup: ", group))
        .perform(
            Action::Quiet(
                Command::new("aws")
                    .arg("--region").arg(target.region.as_str()).arg("eks").arg("delete-nodegroup")
                    .arg("--cluster-name").arg(target.eks_cluster_name.as_str())
                    .arg("--nodegroup-name").arg(group),
            ),
            Rule::Warn(cat3("!   ", "Failed to delete nodegroup ", group)),
        )
}

/// Waits until the nodegroups of a cluster are gone.
pub open spec fn wait_nodegroups_deleted_spec(target: AwsSweepTargetView) -> ScriptView {
    ScriptView::new()
        .ask(QuestionView::Sweep(SweepQuestionView::NodegroupWaitGate { target }))
}

/// Waits until the nodegroups of a cluster are gone.
pub fn wait_nodegroups_deleted(target: &AwsSweepTarget) -> (s: Script)
    ensures
        s@ == wait_nodegroups_deleted_spec(target@),
{
    Script::new()
        .ask(Question::Sweep(SweepQuestion::NodegroupWaitGate { target: target.copy() }))
}

/// Waits until one nodegroup is gone.
pub open spec fn await_nodegroup_spec(group: Seq<char>, target: AwsSweepTargetView) -> ScriptView {
    ScriptView::new()
        .say(">>>   Waiting for nodegroup "@ + group + " to finish deleting..."@)
        .perform(
            ActionView::Quiet(
                command("aws"@)
                    .arg("--region"@).arg(target.region).arg("eks"@).arg("wait"@)
                    .arg("nodegroup-deleted"@).arg("--cluster-name"@).arg(target.eks_cluster_name)
                    .arg("--nodegroup-name"@).arg(group),
            ),
            RuleView::Warn("!   "@ + "Timed out waiting for nodegroup "@ + group),
        )
}

/// Waits until one nodegroup is gone.
pub fn await_nodegroup(group: &str, target: &AwsSweepTarget) -> (s: Script)
    ensures
        s@ == await_nodegroup_spec(group@, target@),
{
    Script::new()
        .say(cat3(">>>   Waiting for nodegroup ", group, " to finish deleting..."))
        .perform(
            Action::Quiet(
                Command::new("aws")
                    .arg("--region").arg(target.region.as_str()).arg("eks").arg("wait")
                    .arg("nodegroup-deleted").arg("--cluster-name")
                    .arg(target.eks_cluster_name.as_str()).arg("--nodegroup-name").arg(group),
            ),
            Rule::Warn(cat3("!   ", "Timed out waiting for nodegroup ", group)),
        )
}

/// The EKS cluster itself.
pub open spec fn cleanup_eks_cluster_spec(target: AwsSweepTargetView) -> ScriptView {
    ScriptView::new()
        .ask(QuestionView::Sweep(SweepQuestionView::ClusterGate { target }))
}

/// The EKS cluster itself.
pub fn cleanup_eks_cluster(target: &AwsSweepTarget) -> (s: Script)
    ensures
        s@ == cleanup_eks_cluster_spec(target@),
{
    Script::new()
        .ask(Question::Sweep(SweepQuestion::ClusterGate { target: target.copy() }))
}

/// Waits until the EKS cluster is gone; its network interfaces block the cleanup of the VPC.
pub open spec fn wait_eks_cluster_deleted_spec(target: AwsSweepTargetView) -> ScriptView {
    ScriptView::new()
        .ask(QuestionView::Sweep(SweepQuestionView::ClusterWaitGate { target }))
}

/// Waits until the EKS cluster is gone; its network interfaces block the cleanup of the VPC.
pub fn wait_eks_cluster_deleted(target: &AwsSweepTarget) -> (s: Script)
    ensures
        s@ == wait_eks_cluster_deleted_spec(target@),
{
    Script::new()
        .ask(Question::Sweep(SweepQuestion::ClusterWaitGate { target: target.copy() }))
}

/// The RDS instance that its workload cluster left behind.
pub open spec fn cleanup_rds_instance_spec(target: AwsSweepTargetView) -> ScriptView {
    ScriptView::new()
        .ask(QuestionView::Sweep(SweepQuestionView::RdsGate { target }))
}

/// The RDS instance that its workload cluster left behind.
pub fn cleanup_rds_instance(target: &AwsSweepTarget) -> (s: Script)
    ensures
        s@ == cleanup_rds_instance_spec(target@),
{
    Script::new()
        .ask(Question::Sweep(SweepQuestion::RdsGate { target: target.copy() }))
}

/// An S3 bucket. It is versioned: every object version and delete marker is removed before the
/// bucket.
pub open spec fn cleanup_s3_bucket_spec(bucket: Seq<char>, region: Seq<char>) -> ScriptView {
    ScriptView::new()
        .ask(QuestionView::Sweep(SweepQuestionView::BucketGate { bucket, region }))
}

/// An S3 bucket. It is versioned: every object version and delete marker is removed before the
/// bucket.
pub fn cleanup_s3_bucket(bucket: &str, region: &str) -> (s: Script)
    ensures
        s@ == cleanup_s3_bucket_spec(bucket@, region@),
{
    Script::new()
        .ask(
            Question::Sweep(
                SweepQuestion::BucketGate { bucket: bucket.to_owned(), region: region.to_owned() },
            ),
        )
}

/// Deletes an S3 bucket.
pub open spec fn delete_bucket_spec(bucket: Seq<char>, region: Seq<char>) -> ScriptView {
    ScriptView::new()
        .say(">>>   Deleting S3 bucket: "@ + bucket)
        .perform(
            ActionView::Quiet(
                command("aws"@)
                    .arg("s3api"@).arg("delete-bucket"@).arg("--bucket"@).arg(bucket)
                    .arg("--region"@).arg(region),
            ),
            RuleView::Warn("!   "@ + "Failed to delete S3 bucket "@ + bucket),
        )
}

/// Deletes an S3 bucket.
pub fn delete_bucket(bucket: &str, region: &str) -> (s: Script)
    ensures
        s@ == delete_bucket_spec(bucket@, region@),
{
    Script::new()
        .say(cat2(">>>   Deleting S3 bucket: ", bucket))
        .perform(
            Action::Quiet(
                Command::new("aws")
                    .arg("s3api").arg("delete-bucket").arg("--bucket").arg(bucket).arg("--region")
                    .arg(region),
            ),
            Rule::Warn(cat3("!   ", "Failed to delete S3 bucket ", bucket)),
        )
}

/// An IAM role: its policies, its instance profiles, its inline policies, then the role.
pub open spec fn cleanup_iam_role_spec(role: Seq<char>) -> ScriptView {
    ScriptView::new()
        .ask(QuestionView::Sweep(SweepQuestionView::RoleGate { role }))
}

/// An IAM role: its policies, its instance profiles, its inline policies, then the role.
pub fn cleanup_iam_role(role: &str) -> (s: Script)
    ensures
        s@ == cleanup_iam_role_spec(role@),
{
    Script::new()
        .ask(Question::Sweep(SweepQuestion::RoleGate { role: role.to_owned() }))
}

/// Detaches one policy from an IAM role.
pub open spec fn detach_policy_spec(arn: Seq<char>, role: Seq<char>) -> ScriptView {
    ScriptView::new()
        .say(">>>     Detaching policy: "@ + arn)
        .perform(
            ActionView::Quiet(
                command("aws"@)
                    .arg("iam"@).arg("detach-role-policy"@).arg("--role-name"@).arg(role)
                    .arg("--policy-arn"@).arg(arn),
            ),
            RuleView::Ignore,
        )
}

/// Detaches one policy from an IAM role.
pub fn detach_policy(arn: &str, role: &str) -> (s: Script)
    ensures
        s@ == detach_policy_spec(arn@, role@),
{
    Script::new()
        .say(cat2(">>>     Detaching policy: ", arn))
        .perform(
            Action::Quiet(
                Command::new("aws")
                    .arg("iam").arg("detach-role-policy").arg("--role-name").arg(role)
                    .arg("--policy-arn").arg(arn),
            ),
            Rule::Ignore,
        )
}

/// Takes an IAM role out of an instance profile and deletes the profile.
pub open spec fn delete_profile_spec(profile: Seq<char>, role: Seq<char>) -> ScriptView {
    ScriptView::new()
        .say(">>>     Deleting instance profile: "@ + profile)
        .perform(
            ActionView::Quiet(
                command("aws"@)
                    .arg("iam"@).arg("remove-role-from-instance-profile"@)
                    .arg("--instance-profile-name"@).arg(profile).arg("--role-name"@).arg(role),
            ),
            RuleView::Ignore,
        )
        .perform(
            ActionView::Quiet(
                command("aws"@)
                    .arg("iam"@).arg("delete-instance-profile"@).arg("--instance-profile-name"@)
                    .arg(profile),
            ),
            RuleView::Ignore,
        )
}

/// Takes an IAM role out of an instance profile and deletes the profile.
pub fn delete_profile(profile: &str, role: &str) -> (s: Script)
    ensures
        s@ == delete_profile_spec(profile@, role@),
{
    Script::new()
        .say(cat2(">>>     Deleting instance profile: ", profile))
        .perform(
            Action::Quiet(
                Command::new("aws")
                    .arg("iam").arg("remove-role-from-instance-profile")
                    .arg("--instance-profile-name").arg(profile).arg("--role-name").arg(role),
            ),
            Rule::Ignore,
        )
        .perform(
            Action::Quiet(
                Command::new("aws")
                    .arg("iam").arg("delete-instance-profile").arg("--instance-profile-name")
                    .arg(profile),
            ),
            Rule::Ignore,
        )
}

/// Deletes one inline policy of an IAM role.
pub open spec fn delete_role_policy_spec(policy: Seq<char>, role: Seq<char>) -> ScriptView {
    ScriptView::new()
        .say(">>>     Deleting inline policy: "@ + policy)
        .perform(
            ActionView::Quiet(
                command("aws"@)
                    .arg("iam"@).arg("delete-role-policy"@).arg("--role-name"@).arg(role)
                    .arg("--policy-name"@).arg(policy),
            ),
            RuleView::Ignore,
        )
}

/// Deletes one inline policy of an IAM role.
pub fn delete_role_policy(policy: &str, role: &str) -> (s: Script)
    ensures
        s@ == delete_role_policy_spec(policy@, role@),
{
    Script::new()
        .say(cat2(">>>     Deleting inline policy: ", policy))
        .perform(
            Action::Quiet(
                Command::new("aws")
                    .arg("iam").arg("delete-role-policy").arg("--role-name").arg(role)
                    .arg("--policy-name").arg(policy),
            ),
            Rule::Ignore,
        )
}

/// The IAM roles that CAPA creates for a cluster: every role whose name starts with the cluster
/// name.
pub open spec fn cleanup_capa_iam_roles_spec(prefix: Seq<char>) -> ScriptView {
    ScriptView::new()
        .ask(QuestionView::Sweep(SweepQuestionView::CapaRoles { prefix }))
}

/// The IAM roles that CAPA creates for a cluster: every role whose name starts with the cluster
/// name.
pub fn cleanup_capa_iam_roles(prefix: &str) -> (s: Script)
    ensures
        s@ == cleanup_capa_iam_roles_spec(prefix@),
{
    Script::new()
        .ask(Question::Sweep(SweepQuestion::CapaRoles { prefix: prefix.to_owned() }))
}

/// One entry of a listing of IAM roles. An empty listing reads `None`.
pub open spec fn cleanup_listed_role_spec(role: Seq<char>) -> ScriptView {
    if role == "None"@ {
        ScriptView::new()
    } else {
        cleanup_iam_role_spec(role)
    }
}

/// One entry of a listing of IAM roles. An empty listing reads `None`.
pub fn cleanup_listed_role(role: &str) -> (s: Script)
    ensures
        s@ == cleanup_listed_role_spec(role@),
{
    if same(role, "None") {
        Script::new()
    } else {
        cleanup_iam_role(role)
    }
}

/// An IAM user: its login profile, its access keys, its inline policies, then the user.
pub open spec fn cleanup_iam_user_spec(user: Seq<char>) -> ScriptView {
    ScriptView::new()
        .ask(QuestionView::Sweep(SweepQuestionView::UserGate { user }))
}

/// An IAM user: its login profile, its access keys, its inline policies, then the user.
pub fn cleanup_iam_user(user: &str) -> (s: Script)
    ensures
        s@ == cleanup_iam_user_spec(user@),
{
    Script::new()
        .ask(Question::Sweep(SweepQuestion::UserGate { user: user.to_owned() }))
}

/// Deletes one access key of an IAM user.
pub open spec fn delete_access_key_spec(key: Seq<char>, user: Seq<char>) -> ScriptView {
    ScriptView::new()
        .say(">>>     Deleting access key: "@ + key)
        .perform(
            ActionView::Quiet(
                command("aws"@)
                    .arg("iam"@).arg("delete-access-key"@).arg("--user-name"@).arg(user)
                    .arg("--access-key-id"@).arg(key),
            ),
            RuleView::Ignore,
        )
}

/// Deletes one access key of an IAM user.
pub fn delete_access_key(key: &str, user: &str) -> (s: Script)
    ensures
        s@ == delete_access_key_spec(key@, user@),
{
    Script::new()
        .say(cat2(">>>     Deleting access key: ", key))
        .perform(
            Action::Quiet(
                Command::new("aws")
                    .arg("iam").arg("delete-access-key").arg("--user-name").arg(user)
                    .arg("--access-key-id").arg(key),
            ),
            Rule::Ignore,
        )
}

/// Deletes one inline policy of an IAM user.
pub open spec fn delete_user_policy_spec(policy: Seq<char>, user: Seq<char>) -> ScriptView {
    ScriptView::new()
        .perform(
            ActionView::Quiet(
                command("aws"@)
                    .arg("iam"@).arg("delete-user-policy"@).arg("--user-name"@).arg(user)
                    .arg("--policy-name"@).arg(policy),
            ),
            RuleView::Ignore,
        )
}

/// Deletes one inline policy of an IAM user.
pub fn delete_user_policy(policy: &str, user: &str) -> (s: Script)
    ensures
        s@ == delete_user_policy_spec(policy@, user@),
{
    Script::new()
        .perform(
            Action::Quiet(
                Command::new("aws")
                    .arg("iam").arg("delete-user-policy").arg("--user-name").arg(user)
                    .arg("--policy-name").arg(policy),
            ),
            Rule::Ignore,
        )
}

/// A CloudFormation stack.
pub open spec fn cleanup_cfn_stack_spec(stack: Seq<char>, region: Seq<char>) -> ScriptView {
    ScriptView::new()
        .ask(QuestionView::Sweep(SweepQuestionView::StackGate { stack, region }))
}

/// A CloudFormation stack.
pub fn cleanup_cfn_stack(stack: &str, region: &str) -> (s: Script)
    ensures
        s@ == cleanup_cfn_stack_spec(stack@, region@),
{
    Script::new()
        .ask(
            Question::Sweep(
                SweepQuestion::StackGate { stack: stack.to_owned(), region: region.to_owned() },
            ),
        )
}

/// The VPCs that carry the ownership tag of a cluster.
pub open spec fn cleanup_vpc_resources_spec(target: AwsSweepTargetView) -> ScriptView {
    ScriptView::new()
        .ask(QuestionView::Sweep(SweepQuestionView::Vpcs { target }))
}

/// The VPCs that carry the ownership tag of a cluster.
pub fn cleanup_vpc_resources(target: &AwsSweepTarget) -> (s: Script)
    ensures
        s@ == cleanup_vpc_resources_spec(target@),
{
    Script::new()
        .ask(Question::Sweep(SweepQuestion::Vpcs { target: target.copy() }))
}

/// One VPC of a cluster.
pub open spec fn cleanup_listed_vpc_spec(vpc: Seq<char>, target: AwsSweepTargetView) -> ScriptView {
    let tag = capa_tag_key_spec(target.cluster_name);
    ScriptView::new()
        .say(
            ">>>   Cleaning up VPC "@ + vpc + " in "@ + target.region + " (cluster: "@
                + target.cluster_name + ")"@,
        )
        .join(cleanup_vpc_spec(vpc, target.region, tag))
}

/// One VPC of a cluster.
pub fn cleanup_listed_vpc(vpc: &str, target: &AwsSweepTarget) -> (s: Script)
    ensures
        s@ == cleanup_listed_vpc_spec(vpc@, target@),
{
    let tag = target.capa_tag_key();
    Script::new()
        .say(
            cat7(
                ">>>   Cleaning up VPC ",
                vpc,
                " in ",
                target.region.as_str(),
                " (cluster: ",
                target.cluster_name.as_str(),
                ")",
            ),
        )
        .join(cleanup_vpc(vpc, target.region.as_str(), tag.as_str()))
}

/// A VPC in the order in which its parts depend on each other: NAT gateways, addresses, subnets,
/// internet gateways, route tables, security groups, then the VPC.
pub open spec fn cleanup_vpc_spec(vpc: Seq<char>, region: Seq<char>, tag: Seq<char>) -> ScriptView {
    ScriptView::new()
        .ask(QuestionView::Sweep(SweepQuestionView::VpcNats { vpc, region }))
        .ask(QuestionView::Sweep(SweepQuestionView::VpcAddresses { region, tag }))
        .ask(QuestionView::Sweep(SweepQuestionView::VpcSubnets { vpc, region }))
        .ask(QuestionView::Sweep(SweepQuestionView::VpcGateways { vpc, region }))
        .ask(QuestionView::Sweep(SweepQuestionView::VpcMainTable { vpc, region }))
        .ask(QuestionView::Sweep(SweepQuestionView::VpcGroups { vpc, region }))
        .say(">>>     Deleting VPC: "@ + vpc)
        .perform(
            ActionView::Quiet(
                command("aws"@)
                    .arg("ec2"@).arg("delete-vpc"@).arg("--region"@).arg(region).arg("--vpc-id"@)
                    .arg(vpc),
            ),
            RuleView::Warn("!   "@ + "Failed to delete VPC "@ + vpc),
        )
}

/// A VPC in the order in which its parts depend on each other: NAT gateways, addresses, subnets,
/// internet gateways, route tables, security groups, then the VPC.
pub fn cleanup_vpc(vpc: &str, region: &str, tag: &str) -> (s: Script)
    ensures
        s@ == cleanup_vpc_spec(vpc@, region@, tag@),
{
    Script::new()
        .ask(
            Question::Sweep(
                SweepQuestion::VpcNats { vpc: vpc.to_owned(), region: region.to_owned() },
            ),
        )
        .ask(
            Question::Sweep(
                SweepQuestion::VpcAddresses { region: region.to_owned(), tag: tag.to_owned() },
            ),
        )
        .ask(
            Question::Sweep(
                SweepQuestion::VpcSubnets { vpc: vpc.to_owned(), region: region.to_owned() },
            ),
        )
        .ask(
            Question::Sweep(
                SweepQuestion::VpcGateways { vpc: vpc.to_owned(), region: region.to_owned() },
            ),
        )
        .ask(
            Question::Sweep(
                SweepQuestion::VpcMainTable { vpc: vpc.to_owned(), region: region.to_owned() },
            ),
        )
        .ask(
            Question::Sweep(
                SweepQuestion::VpcGroups { vpc: vpc.to_owned(), region: region.to_owned() },
            ),
        )
        .say(cat2(">>>     Deleting VPC: ", vpc))
        .perform(
            Action::Quiet(
                Command::new("aws")
                    .arg("ec2").arg("delete-vpc").arg("--region").arg(region).arg("--vpc-id")
                    .arg(vpc),
            ),
            Rule::Warn(cat3("!   ", "Failed to delete VPC ", vpc)),
        )
}

/// Deletes one NAT gateway.
pub open spec fn delete_nat_spec(gateway: Seq<char>, region: Seq<char>) -> ScriptView {
    ScriptView::new()
        .say(">>>     Deleting NAT gateway: "@ + gateway)
        .perform(
            ActionView::Quiet(
                command("aws"@)
                    .arg("ec2"@).arg("delete-nat-gateway"@).arg("--region"@).arg(region)
                    .arg("--nat-gateway-id"@).arg(gateway),
            ),
            RuleView::Ignore,
        )
}

/// Deletes one NAT gateway.
pub fn delete_nat(gateway: &str, region: &str) -> (s: Script)
    ensures
        s@ == delete_nat_spec(gateway@, region@),
{
    Script::new()
        .say(cat2(">>>     Deleting NAT gateway: ", gateway))
        .perform(
            Action::Quiet(
                Command::new("aws")
                    .arg("ec2").arg("delete-nat-gateway").arg("--region").arg(region)
                    .arg("--nat-gateway-id").arg(gateway),
            ),
            Rule::Ignore,
        )
}

/// Waits until one NAT gateway is gone.
pub open spec fn await_nat_spec(gateway: Seq<char>, region: Seq<char>) -> ScriptView {
    ScriptView::new()
        .say(">>>     Waiting for NAT gateway "@ + gateway + " to finish deleting..."@)
        .perform(
            ActionView::Quiet(
                command("aws"@)
                    .arg("ec2"@).arg("wait"@).arg("nat-gateway-deleted"@).arg("--region"@)
                    .arg(region).arg("--nat-gateway-ids"@).arg(gateway),
            ),
            RuleView::Ignore,
        )
}

/// Waits until one NAT gateway is gone.
pub fn await_nat(gateway: &str, region: &str) -> (s: Script)
    ensures
        s@ == await_nat_spec(gateway@, region@),
{
    Script::new()
        .say(cat3(">>>     Waiting for NAT gateway ", gateway, " to finish deleting..."))
        .perform(
            Action::Quiet(
                Command::new("aws")
                    .arg("ec2").arg("wait").arg("nat-gateway-deleted").arg("--region").arg(region)
                    .arg("--nat-gateway-ids").arg(gateway),
            ),
            Rule::Ignore,
        )
}

/// Releases one Elastic IP.
pub open spec fn release_address_spec(address: Seq<char>, region: Seq<char>) -> ScriptView {
    ScriptView::new()
        .say(">>>     Releasing Elastic IP: "@ + address)
        .perform(
            ActionView::Quiet(
                command("aws"@)
                    .arg("ec2"@).arg("release-address"@).arg("--region"@).arg(region)
                    .arg("--allocation-id"@).arg(address),
            ),
            RuleView::Ignore,
        )
}

/// Releases one Elastic IP.
pub fn release_address(address: &str, region: &str) -> (s: Script)
    ensures
        s@ == release_address_spec(address@, region@),
{
    Script::new()
        .say(cat2(">>>     Releasing Elastic IP: ", address))
        .perform(
            Action::Quiet(
                Command::new("aws")
                    .arg("ec2").arg("release-address").arg("--region").arg(region)
                    .arg("--allocation-id").arg(address),
            ),
            Rule::Ignore,
        )
}

/// Deletes one subnet.
pub open spec fn delete_subnet_spec(subnet: Seq<char>, region: Seq<char>) -> ScriptView {
    ScriptView::new()
        .say(">>>     Deleting subnet: "@ + subnet)
        .perform(
            ActionView::Quiet(
                command("aws"@)
                    .arg("ec2"@).arg("delete-subnet"@).arg("--region"@).arg(region)
                    .arg("--subnet-id"@).arg(subnet),
            ),
            RuleView::Ignore,
        )
}

/// Deletes one subnet.
pub fn delete_subnet(subnet: &str, region: &str) -> (s: Script)
    ensures
        s@ == delete_subnet_spec(subnet@, region@),
{
    Script::new()
        .say(cat2(">>>     Deleting subnet: ", subnet))
        .perform(
            Action::Quiet(
                Command::new("aws")
                    .arg("ec2").arg("delete-subnet").arg("--region").arg(region).arg("--subnet-id")
                    .arg(subnet),
            ),
            Rule::Ignore,
        )
}

/// Detaches one internet gateway from a VPC and deletes it.
pub open spec fn delete_gateway_spec(
    gateway: Seq<char>,
    vpc: Seq<char>,
    region: Seq<char>,
) -> ScriptView {
    ScriptView::new()
        .say(">>>     Detaching internet gateway: "@ + gateway)
        .perform(
            ActionView::Quiet(
                command("aws"@)
                    .arg("ec2"@).arg("detach-internet-gateway"@).arg("--region"@).arg(region)
                    .arg("--internet-gateway-id"@).arg(gateway).arg("--vpc-id"@).arg(vpc),
            ),
            RuleView::Ignore,
        )
        .say(">>>     Deleting internet gateway: "@ + gateway)
        .perform(
            ActionView::Quiet(
                command("aws"@)
                    .arg("ec2"@).arg("delete-internet-gateway"@).arg("--region"@).arg(region)
                    .arg("--internet-gateway-id"@).arg(gateway),
            ),
            RuleView::Ignore,
        )
}

/// Detaches one internet gateway from a VPC and deletes it.
pub fn delete_gateway(gateway: &str, vpc: &str, region: &str) -> (s: Script)
    ensures
        s@ == delete_gateway_spec(gateway@, vpc@, region@),
{
    Script::new()
        .say(cat2(">>>     Detaching internet gateway: ", gateway))
        .perform(
            Action::Quiet(
                Command::new("aws")
                    .arg("ec2").arg("detach-internet-gateway").arg("--region").arg(region)
                    .arg("--internet-gateway-id").arg(gateway).arg("--vpc-id").arg(vpc),
            ),
            Rule::Ignore,
        )
        .say(cat2(">>>     Deleting internet gateway: ", gateway))
        .perform(
            Action::Quiet(
                Command::new("aws")
                    .arg("ec2").arg("delete-internet-gateway").arg("--region").arg(region)
                    .arg("--internet-gateway-id").arg(gateway),
            ),
            Rule::Ignore,
        )
}

/// Deletes one route table, unless it is the main one.
pub open spec fn delete_route_table_spec(
    table: Seq<char>,
    main: Seq<char>,
    region: Seq<char>,
) -> ScriptView {
    if table == main {
        ScriptView::new()
    } else {
        ScriptView::new()
            .say(">>>     Deleting route table: "@ + table)
            .perform(
                ActionView::Quiet(
                    command("aws"@)
                        .arg("ec2"@).arg("delete-route-table"@).arg("--region"@).arg(region)
                        .arg("--route-table-id"@).arg(table),
                ),
                RuleView::Ignore,
            )
    }
}

/// Deletes one route table, unless it is the main one.
pub fn delete_route_table(table: &str, main: &str, region: &str) -> (s: Script)
    ensures
        s@ == delete_route_table_spec(table@, main@, region@),
{
    if same(table, main) {
        Script::new()
    } else {
        Script::new()
            .say(cat2(">>>     Deleting route table: ", table))
            .perform(
                Action::Quiet(
                    Command::new("aws")
                        .arg("ec2").arg("delete-route-table").arg("--region").arg(region)
                        .arg("--route-table-id").arg(table),
                ),
                Rule::Ignore,
            )
    }
}

/// Removes the rules of one security group; the groups refer to each other.
pub open spec fn strip_group_spec(group: Seq<char>, region: Seq<char>) -> ScriptView {
    ScriptView::new()
        .ask(QuestionView::Sweep(SweepQuestionView::GroupIngress { group, region }))
        .ask(QuestionView::Sweep(SweepQuestionView::GroupEgress { group, region }))
}

/// Removes the rules of one security group; the groups refer to each other.
pub fn strip_group(group: &str, region: &str) -> (s: Script)
    ensures
        s@ == strip_group_spec(group@, region@),
{
    Script::new()
        .ask(
            Question::Sweep(
                SweepQuestion::GroupIngress { group: group.to_owned(), region: region.to_owned() },
            ),
        )
        .ask(
            Question::Sweep(
                SweepQuestion::GroupEgress { group: group.to_owned(), region: region.to_owned() },
            ),
        )
}

/// Deletes one security group.
pub open spec fn delete_group_spec(group: Seq<char>, region: Seq<char>) -> ScriptView {
    ScriptView::new()
        .say(">>>     Deleting security group: "@ + group)
        .perform(
            ActionView::Quiet(
                command("aws"@)
                    .arg("ec2"@).arg("delete-security-group"@).arg("--region"@).arg(region)
                    .arg("--group-id"@).arg(group),
            ),
            RuleView::Ignore,
        )
}

/// Deletes one security group.
pub fn delete_group(group: &str, region: &str) -> (s: Script)
    ensures
        s@ == delete_group_spec(group@, region@),
{
    Script::new()
        .say(cat2(">>>     Deleting security group: ", group))
        .perform(
            Action::Quiet(
                Command::new("aws")
                    .arg("ec2").arg("delete-security-group").arg("--region").arg(region)
                    .arg("--group-id").arg(group),
            ),
            Rule::Ignore,
        )
}

/// The pod identity associations and the nodegroups of a cluster.
pub open spec fn sweep_nodes_spec(target: AwsSweepTargetView) -> ScriptView {
    ScriptView::new()
        .say(">>>   ["@ + target.region + "] cluster: "@ + target.eks_cluster_name)
        .join(cleanup_pod_identity_associations_spec(target))
        .join(cleanup_nodegroups_spec(target))
}

/// The pod identity associations and the nodegroups of a cluster.
pub fn sweep_nodes(target: &AwsSweepTarget) -> (s: Script)
    ensures
        s@ == sweep_nodes_spec(target@),
{
    Script::new()
        .say(
            cat4(
                ">>>   [",
                target.region.as_str(),
                "] cluster: ",
                target.eks_cluster_name.as_str(),
            ),
        )
        .join(cleanup_pod_identity_associations(target))
        .join(cleanup_nodegroups(target))
}

/// The IAM roles that CAPA created for a cluster.
pub open spec fn sweep_roles_spec(target: AwsSweepTargetView) -> ScriptView {
    cleanup_capa_iam_roles_spec(target.cluster_name)
}

/// The IAM roles that CAPA created for a cluster.
pub fn sweep_roles(target: &AwsSweepTarget) -> (s: Script)
    ensures
        s@ == sweep_roles_spec(target@),
{
    cleanup_capa_iam_roles(target.cluster_name.as_str())
}

/// The S3 bucket of a cluster.
pub open spec fn sweep_bucket_spec(
    target: AwsSweepTargetView,
    pattern: Seq<char>,
    account: Seq<char>,
) -> ScriptView {
    let bucket = s3_bucket_name_spec(pattern, account, target.cluster_name);
    cleanup_s3_bucket_spec(bucket, target.region)
}

/// The S3 bucket of a cluster.
pub fn sweep_bucket(target: &AwsSweepTarget, pattern: &str, account: &str) -> (s: Script)
    ensures
        s@ == sweep_bucket_spec(target@, pattern@, account@),
{
    let bucket = target.bucket_name(pattern, account);
    cleanup_s3_bucket(bucket.as_str(), target.region.as_str())
}

/// The CloudFormation stack in the region of a cluster.
pub open spec fn sweep_stack_spec(target: AwsSweepTargetView, stack: Seq<char>) -> ScriptView {
    cleanup_cfn_stack_spec(stack, target.region)
}

/// The CloudFormation stack in the region of a cluster.
pub fn sweep_stack(target: &AwsSweepTarget, stack: &str) -> (s: Script)
    ensures
        s@ == sweep_stack_spec(target@, stack@),
{
    cleanup_cfn_stack(stack, target.region.as_str())
}

/// The S3 buckets of all clusters, where a name pattern is configured.
pub open spec fn cleanup_buckets_spec(cfg: Config, account: Seq<char>) -> ScriptView {
    let targets = aws_sweep_targets_spec(*cfg.environment);
    match cfg.repo.teardown.s3_bucket_pattern {
        Some(pattern) => {
            ScriptView::new()
                .join(
                    for_each_target_spec(
                        targets,
                        |target: AwsSweepTargetView| sweep_bucket_spec(target, pattern@, account),
                    ),
                )
        },
        None => {
            ScriptView::new()
        },
    }
}

/// The S3 buckets of all clusters, where a name pattern is configured.
pub fn cleanup_buckets(cfg: &Config, account: &str) -> (s: Script)
    ensures
        s@ == cleanup_buckets_spec(*cfg, account@),
{
    let targets = aws_sweep_targets(cfg.environment);
    match &cfg.repo.teardown.s3_bucket_pattern {
        Some(pattern) => {
            Script::new()
                .join(for_each_target(
                    &targets,
                    |target: &AwsSweepTarget| -> (s: Script)
                        ensures
                            s@ == sweep_bucket_spec(target@, pattern@, account@)
                        { sweep_bucket(target, pattern.as_str(), account) },
                    Ghost(
                        |target: AwsSweepTargetView| sweep_bucket_spec(target, pattern@, account@),
                    ),
                ))
        },
        None => {
            Script::new()
        },
    }
}

/// The CloudFormation stack in the regions of all clusters, where one is configured.
pub open spec fn sweep_stacks_spec(cfg: Config) -> ScriptView {
    let targets = aws_sweep_targets_spec(*cfg.environment);
    match cfg.repo.teardown.cfn_stack_name {
        Some(stack) => {
            ScriptView::new()
                .join(
                    for_each_target_spec(
                        targets,
                        |target: AwsSweepTargetView| sweep_stack_spec(target, stack@),
                    ),
                )
        },
        None => {
            ScriptView::new()
        },
    }
}

/// The CloudFormation stack in the regions of all clusters, where one is configured.
pub fn sweep_stacks(cfg: &Config) -> (s: Script)
    ensures
        s@ == sweep_stacks_spec(*cfg),
{
    let targets = aws_sweep_targets(cfg.environment);
    match &cfg.repo.teardown.cfn_stack_name {
        Some(stack) => {
            Script::new()
                .join(for_each_target(
                    &targets,
                    |target: &AwsSweepTarget| -> (s: Script)
                        ensures
                            s@ == sweep_stack_spec(target@, stack@)
                        { sweep_stack(target, stack.as_str()) },
                    Ghost(|target: AwsSweepTargetView| sweep_stack_spec(target, stack@)),
                ))
        },
        None => {
            Script::new()
        },
    }
}

/// The AWS orphan sweep: of every cluster first what the next step needs gone.
pub open spec fn sweep_spec(cfg: Config) -> ScriptView {
    let targets = aws_sweep_targets_spec(*cfg.environment);
    ScriptView::new()
        .say(">>> Cleaning up orphaned AWS resources..."@)
        .join(for_each_target_spec(targets, |target: AwsSweepTargetView| sweep_nodes_spec(target)))
        .join(
            for_each_target_spec(
                targets,
                |target: AwsSweepTargetView| wait_nodegroups_deleted_spec(target),
            ),
        )
        .join(
            for_each_target_spec(
                targets,
                |target: AwsSweepTargetView| cleanup_eks_cluster_spec(target),
            ),
        )
        .join(
            for_each_target_spec(
                targets,
                |target: AwsSweepTargetView| wait_eks_cluster_deleted_spec(target),
            ),
        )
        .join(
            for_each_target_spec(
                targets,
                |target: AwsSweepTargetView| cleanup_rds_instance_spec(target),
            ),
        )
        .join(
            for_each_target_spec(
                targets,
                |target: AwsSweepTargetView| cleanup_vpc_resources_spec(target),
            ),
        )
        .ask(QuestionView::Sweep(SweepQuestionView::Account))
        .join(for_each_target_spec(targets, |target: AwsSweepTargetView| sweep_roles_spec(target)))
        .join(
            for_each_spec(
                texts(cfg.repo.teardown.global_iam_roles@),
                |item: Seq<char>| cleanup_iam_role_spec(item),
            ),
        )
        .join(
            for_each_spec(
                texts(cfg.repo.teardown.global_iam_users@),
                |item: Seq<char>| cleanup_iam_user_spec(item),
            ),
        )
        .join(sweep_stacks_spec(cfg))
        .say("✓   AWS orphan cleanup complete"@)
}

/// The AWS orphan sweep: of every cluster first what the next step needs gone.
pub fn sweep(cfg: &Config) -> (s: Script)
    ensures
        s@ == sweep_spec(*cfg),
{
    let targets = aws_sweep_targets(cfg.environment);
    Script::new()
        .say(">>> Cleaning up orphaned AWS resources...".to_owned())
        .join(for_each_target(
            &targets,
            |target: &AwsSweepTarget| -> (s: Script)
                ensures
                    s@ == sweep_nodes_spec(target@)
                { sweep_nodes(target) },
            Ghost(|target: AwsSweepTargetView| sweep_nodes_spec(target)),
        ))
        .join(for_each_target(
            &targets,
            |target: &AwsSweepTarget| -> (s: Script)
                ensures
                    s@ == wait_nodegroups_deleted_spec(target@)
                { wait_nodegroups_deleted(target) },
            Ghost(|target: AwsSweepTargetView| wait_nodegroups_deleted_spec(target)),
        ))
        .join(for_each_target(
            &targets,
            |target: &AwsSweepTarget| -> (s: Script)
                ensures
                    s@ == cleanup_eks_cluster_spec(target@)
                { cleanup_eks_cluster(target) },
            Ghost(|target: AwsSweepTargetView| cleanup_eks_cluster_spec(target)),
        ))
        .join(for_each_target(
            &targets,
            |target: &AwsSweepTarget| -> (s: Script)
                ensures
                    s@ == wait_eks_cluster_deleted_spec(target@)
                { wait_eks_cluster_deleted(target) },
            Ghost(|target: AwsSweepTargetView| wait_eks_cluster_deleted_spec(target)),
        ))
        .join(for_each_target(
            &targets,
            |target: &AwsSweepTarget| -> (s: Script)
                ensures
                    s@ == cleanup_rds_instance_spec(target@)
                { cleanup_rds_instance(target) },
            Ghost(|target: AwsSweepTargetView| cleanup_rds_instance_spec(target)),
        ))
        .join(for_each_target(
            &targets,
            |target: &AwsSweepTarget| -> (s: Script)
                ensures
                    s@ == cleanup_vpc_resources_spec(target@)
                { cleanup_vpc_resources(target) },
            Ghost(|target: AwsSweepTargetView| cleanup_vpc_resources_spec(target)),
        ))
        .ask(Question::Sweep(SweepQuestion::Account))
        .join(for_each_target(
            &targets,
            |target: &AwsSweepTarget| -> (s: Script)
                ensures
                    s@ == sweep_roles_spec(target@)
                { sweep_roles(target) },
            Ghost(|target: AwsSweepTargetView| sweep_roles_spec(target)),
        ))
        .join(for_each(
            &cfg.repo.teardown.global_iam_roles,
            |item: &str| -> (s: Script)
                ensures
                    s@ == cleanup_iam_role_spec(item@)
                { cleanup_iam_role(item) },
            Ghost(|item: Seq<char>| cleanup_iam_role_spec(item)),
        ))
        .join(for_each(
            &cfg.repo.teardown.global_iam_users,
            |item: &str| -> (s: Script)
                ensures
                    s@ == cleanup_iam_user_spec(item@)
                { cleanup_iam_user(item) },
            Ghost(|item: Seq<char>| cleanup_iam_user_spec(item)),
        ))
        .join(sweep_stacks(cfg))
        .say("✓   AWS orphan cleanup complete".to_owned())
}

} // verus!
