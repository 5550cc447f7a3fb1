//! The teardown: everything that a bootstrap created is destroyed, in reverse order.
use vstd::prelude::*;

use crate::aws::{manual_teardown_refusal, manual_teardown_refusal_spec};
use crate::bootstrap::{toolbox_exit, toolbox_exit_spec};
use crate::checks::trimmed_lines;
use crate::commands::{helm_on, helm_on_spec, kubectl_on, kubectl_on_spec};
use crate::context::{TeardownConfig, TeardownConfigView};
use crate::engine::{
    detect_engine, detect_engine_spec, select_toolbox_kind_kubeconfig,
    select_toolbox_kind_kubeconfig_spec, toolbox_join_kind_network, toolbox_join_kind_network_spec,
    toolbox_leave_kind_network, toolbox_leave_kind_network_spec,
};
use crate::kube::{
    ControllerHost, HostGuard, K8sTarget, K8sTargetView, ProbeOutcome, parse_workloads, probe,
    probe_spec, workloads_spec,
};
use crate::number::{decimal, decimal_spec};
use crate::question::{Question, QuestionView};
use crate::script::{
    Action, ActionView, Command, Reply, ReplyView, Rule, RuleView, Script, ScriptView, command,
    for_each, for_each_spec,
};
use crate::settings::Config;
use crate::sweep::{sweep, sweep_spec};
use crate::text::{
    cat2, cat3, cat5, cat7, contains, contains_spec, copy_from, copy_optional, copy_texts,
    debug_list, debug_list_spec, entries, entries_spec, has_line, has_line_spec, is_blank,
    is_blank_spec, join, join_spec, lines, lines_spec, names, names_spec, optional, push_text, same,
    split_once, split_once_spec, starts_with, starts_with_spec, texts, trim,
};

verus! {

/// kubectl's jsonpath that prints `namespace/name` per line.
pub const NS_NAME_JSONPATH: &'static str =
    "jsonpath={range .items[*]}{.metadata.namespace}/{.metadata.name}{\"\\n\"}{end}";

/// The kinds of CAPI providers, in the order in which they are deleted.
#[derive(Clone, Copy, Debug, PartialEq, Eq, Structural)]
pub enum ProviderKind {
    Addon,
    ControlPlane,
    Bootstrap,
    Infrastructure,
    Core,
}

impl ProviderKind {
    /// The plural name of the kind.
    pub open spec fn name_spec(self) -> Seq<char> {
        match self {
            ProviderKind::Addon => "addonproviders"@,
            ProviderKind::ControlPlane => "controlplaneproviders"@,
            ProviderKind::Bootstrap => "bootstrapproviders"@,
            ProviderKind::Infrastructure => "infrastructureproviders"@,
            ProviderKind::Core => "coreproviders"@,
        }
    }

    /// The plural name of the kind.
    pub fn name(self) -> (r: String)
        ensures
            r@ == self.name_spec(),
    {
        match self {
            ProviderKind::Addon => "addonproviders".to_owned(),
            ProviderKind::ControlPlane => "controlplaneproviders".to_owned(),
            ProviderKind::Bootstrap => "bootstrapproviders".to_owned(),
            ProviderKind::Infrastructure => "infrastructureproviders".to_owned(),
            ProviderKind::Core => "coreproviders".to_owned(),
        }
    }

    /// The full name of the resource.
    pub open spec fn resource_spec(self) -> Seq<char> {
        self.name_spec() + ".operator.cluster.x-k8s.io"@
    }

    /// The full name of the resource.
    pub fn resource(self) -> (r: String)
        ensures
            r@ == self.resource_spec(),
    {
        cat2(self.name().as_str(), ".operator.cluster.x-k8s.io")
    }

    /// The kind that comes next.
    pub open spec fn next_spec(self) -> Option<ProviderKind> {
        match self {
            ProviderKind::Addon => Some(ProviderKind::ControlPlane),
            ProviderKind::ControlPlane => Some(ProviderKind::Bootstrap),
            ProviderKind::Bootstrap => Some(ProviderKind::Infrastructure),
            ProviderKind::Infrastructure => Some(ProviderKind::Core),
            ProviderKind::Core => None,
        }
    }

    /// The kind that comes next.
    pub fn next(self) -> (r: Option<ProviderKind>)
        ensures
            r == self.next_spec(),
    {
        match self {
            ProviderKind::Addon => Some(ProviderKind::ControlPlane),
            ProviderKind::ControlPlane => Some(ProviderKind::Bootstrap),
            ProviderKind::Bootstrap => Some(ProviderKind::Infrastructure),
            ProviderKind::Infrastructure => Some(ProviderKind::Core),
            ProviderKind::Core => None,
        }
    }
}

/// The workload clusters that a listing still shows.
pub open spec fn remaining_spec(
    outcome: ProbeOutcome,
    listing: Seq<char>,
    mgmt_cluster: Seq<char>,
) -> Seq<Seq<char>> {
    if outcome == ProbeOutcome::Present {
        workloads_spec(listing, mgmt_cluster)
    } else {
        Seq::empty()
    }
}

/// The workload clusters that a listing still shows.
pub fn remaining(outcome: ProbeOutcome, listing: &str, mgmt_cluster: &str) -> (r: Vec<String>)
    ensures
        texts(r@) == remaining_spec(outcome, listing@, mgmt_cluster@),
        r.len() == texts(r@).len(),
{
    if outcome == ProbeOutcome::Present {
        parse_workloads(listing, mgmt_cluster)
    } else {
        let none: Vec<String> = Vec::new();
        assert(texts(none@) =~= Seq::empty());
        none
    }
}

/// The entries that a listing shows.
pub open spec fn listed_spec(outcome: ProbeOutcome, listing: Seq<char>) -> Seq<Seq<char>> {
    if outcome == ProbeOutcome::Present {
        entries_spec(listing)
    } else {
        Seq::empty()
    }
}

/// The entries that a listing shows.
pub fn listed(outcome: ProbeOutcome, listing: &str) -> (r: Vec<String>)
    ensures
        texts(r@) == listed_spec(outcome, listing@),
        r.len() == texts(r@).len(),
{
    if outcome == ProbeOutcome::Present {
        entries(listing)
    } else {
        let none: Vec<String> = Vec::new();
        assert(texts(none@) =~= Seq::empty());
        none
    }
}

/// The providers counted so far and those that a listing shows, up to the largest number.
pub open spec fn count_left_spec(outcome: ProbeOutcome, listing: Seq<char>, remaining: u64) -> u64 {
    let sum = remaining + listed_spec(outcome, listing).len();
    if sum > u64::MAX {
        u64::MAX
    } else {
        sum as u64
    }
}

/// The providers counted so far and those that a listing shows, up to the largest number.
pub fn count_left(outcome: ProbeOutcome, listing: &str, remaining: u64) -> (r: u64)
    ensures
        r == count_left_spec(outcome, listing@, remaining),
{
    let found = listed(outcome, listing);
    let count: u64 = found.len() as u64;
    if count > u64::MAX - remaining {
        u64::MAX
    } else {
        remaining + count
    }
}

/// The entries of a listing that begin with the prefix; a blank line counts as an empty entry.
pub open spec fn prefixed_spec(listing: Seq<char>, prefix: Seq<char>) -> Seq<Seq<char>> {
    trimmed_lines(listing).filter(|name: Seq<char>| starts_with_spec(name, prefix))
}

/// The entries of a listing that begin with the prefix; a blank line counts as an empty entry.
pub fn prefixed(listing: &str, prefix: &str) -> (r: Vec<String>)
    ensures
        texts(r@) == prefixed_spec(listing@, prefix@),
        r.len() == texts(r@).len(),
{
    let all = lines(listing);
    let ghost trimmed = trimmed_lines(listing@);
    let ghost fits = |name: Seq<char>| starts_with_spec(name, prefix@);
    let mut r: Vec<String> = Vec::new();
    let mut i: usize = 0;
    assert(texts(all@).len() == all.len());
    proof {
        reveal_with_fuel(Seq::filter, 2);
        assert(trimmed.take(0) =~= Seq::empty());
        assert(texts(r@) =~= trimmed.take(0).filter(fits));
    }
    while i < all.len()
        invariant
            i <= all.len(),
            texts(all@) == lines_spec(listing@),
            trimmed == trimmed_lines(listing@),
            fits == (|name: Seq<char>| starts_with_spec(name, prefix@)),
            texts(r@) == trimmed.take(i as int).filter(fits),
        decreases all.len() - i,
    {
        let name = trim(all[i].as_str());
        proof {
            assert(texts(all@)[i as int] == all@[i as int]@);
            assert(trimmed.take(i + 1).drop_last() =~= trimmed.take(i as int));
            assert(trimmed.take(i + 1).last() == name@);
            reveal_with_fuel(Seq::filter, 2);
        }
        if starts_with(name.as_str(), prefix) {
            push_text(&mut r, name);
        }
        i = i + 1;
    }
    assert(trimmed.take(all.len() as int) =~= trimmed);
    r
}

/// Whether the status of a Helm release says that it is not installed.
pub open spec fn release_missing_spec(status: Seq<char>) -> bool {
    is_blank_spec(status) || contains_spec(status, "not found"@) || contains_spec(status, "Error"@)
}

/// Whether the status of a Helm release says that it is not installed.
pub fn release_missing(status: &str) -> (r: bool)
    ensures
        r == release_missing_spec(status@),
{
    is_blank(status) || contains(status, "not found") || contains(status, "Error")
}

/// The concrete target of a discovered controller host.
pub open spec fn resolve_target_spec(
    host: ControllerHost,
    cfg: Config,
    knobs: TeardownConfigView,
) -> Option<K8sTargetView> {
    match host {
        ControllerHost::Kind => Some(
            K8sTargetView::Kind { context: cfg.repo.bootstrap.kind_context@ },
        ),
        ControllerHost::SelfManaged => Some(
            K8sTargetView::SelfManaged { kubeconfig: knobs.mgmt_kubeconfig },
        ),
        ControllerHost::Unreachable => None,
    }
}

/// The concrete target of a discovered controller host.
pub fn resolve_target(host: ControllerHost, cfg: &Config, knobs: &TeardownConfig) -> (r: Option<
    K8sTarget,
>)
    ensures
        match r {
            Some(target) => resolve_target_spec(host, *cfg, knobs@) == Some(target@),
            None => resolve_target_spec(host, *cfg, knobs@) is None,
        },
{
    match host {
        ControllerHost::Kind => Some(
            K8sTarget::Kind { context: cfg.repo.bootstrap.kind_context.clone() },
        ),
        ControllerHost::SelfManaged => Some(
            K8sTarget::SelfManaged { kubeconfig: knobs.mgmt_kubeconfig.clone() },
        ),
        ControllerHost::Unreachable => None,
    }
}

/// Whether the sweep removes the management cluster that the controllers run in.
pub open spec fn mgmt_swept_spec(cfg: Config, aws: bool, host: ControllerHost) -> bool {
    aws && host == ControllerHost::SelfManaged
        && cfg.environment.teardown.mgmt_eks_cluster_name is Some
        && cfg.environment.teardown.mgmt_iam_role_prefix is Some
}

/// Whether the sweep removes the management cluster that the controllers run in.
pub fn mgmt_swept(cfg: &Config, aws: bool, host: ControllerHost) -> (r: bool)
    ensures
        r == mgmt_swept_spec(*cfg, aws, host),
{
    aws && host == ControllerHost::SelfManaged
        && cfg.environment.teardown.mgmt_eks_cluster_name.is_some()
        && cfg.environment.teardown.mgmt_iam_role_prefix.is_some()
}

/// The namespace that holds a bootstrap Secret.
pub open spec fn secret_namespace_spec(cfg: Config, secret: Seq<char>) -> Seq<char> {
    if secret == "aws-credentials"@ {
        "capa-system"@
    } else {
        cfg.repo.bootstrap.flux_namespace@
    }
}

/// The namespace that holds a bootstrap Secret.
pub fn secret_namespace(cfg: &Config, secret: &str) -> (r: String)
    ensures
        r@ == secret_namespace_spec(*cfg, secret@),
{
    if same(secret, "aws-credentials") {
        "capa-system".to_owned()
    } else {
        cfg.repo.bootstrap.flux_namespace.clone()
    }
}

/// Suspends the next Kustomization, or reports once there is none left. A failure is reported and
/// does not end the run.
pub open spec fn suspend_next_spec(
    target: K8sTargetView,
    rest: Seq<Seq<char>>,
    failed: bool,
) -> ScriptView {
    if rest.len() > 0 {
        ScriptView::new().ask(
            QuestionView::Teardown(
                TeardownQuestionView::Suspended {
                    target,
                    name: rest[0],
                    rest: rest.skip(1),
                    failed,
                },
            ),
        )
    } else if failed {
        ScriptView::new().report(
            "!   Could not suspend some Kustomizations – continuing anyway"@,
        ).say("✓   Flux Kustomizations suspended"@)
    } else {
        ScriptView::new().say("✓   Flux Kustomizations suspended"@)
    }
}

/// Suspends the next Kustomization, or reports once there is none left. A failure is reported and
/// does not end the run.
pub fn suspend_next(target: &K8sTarget, rest: &Vec<String>, failed: bool) -> (s: Script)
    ensures
        s@ == suspend_next_spec(target@, texts(rest@), failed),
{
    assert(texts(rest@).len() == rest.len());
    if rest.len() > 0 {
        Script::new().ask(
            Question::Teardown(
                TeardownQuestion::Suspended {
                    target: target.copy(),
                    name: rest[0].clone(),
                    rest: copy_from(rest, 1),
                    failed,
                },
            ),
        )
    } else if failed {
        Script::new().report(
            "!   Could not suspend some Kustomizations – continuing anyway".to_owned(),
        ).say("✓   Flux Kustomizations suspended".to_owned())
    } else {
        Script::new().say("✓   Flux Kustomizations suspended".to_owned())
    }
}

/// The namespace and the name of a provider in a listing; a provider without a namespace is in the
/// default one.
pub open spec fn provider_parts_spec(object: Seq<char>) -> (Seq<char>, Seq<char>) {
    match split_once_spec(object, '/') {
        Some((namespace, name)) => (namespace, name),
        None => ("default"@, object),
    }
}

/// The namespace and the name of a provider in a listing; a provider without a namespace is in the
/// default one.
pub fn provider_parts(object: &str) -> (r: (String, String))
    ensures
        (r.0@, r.1@) == provider_parts_spec(object@),
{
    match split_once(object, '/') {
        Some((namespace, name)) => (namespace, name),
        None => ("default".to_owned(), object.to_owned()),
    }
}

/// Deletes one provider.
pub open spec fn delete_provider_spec(
    object: Seq<char>,
    target: K8sTargetView,
    kind: ProviderKind,
) -> ScriptView {
    let (namespace, name) = provider_parts_spec(object);
    ScriptView::new().say(
        ">>>   Deleting "@ + kind.name_spec() + ": "@ + name + " (namespace: "@ + namespace + ")"@,
    ).perform(
        ActionView::Run(
            kubectl_on_spec(target).arg("delete"@).arg(kind.resource_spec()).arg(name).arg(
                "-n"@,
            ).arg(namespace).arg("--ignore-not-found"@),
        ),
        RuleView::Ignore,
    )
}

/// Deletes one provider.
pub fn delete_provider(object: &str, target: &K8sTarget, kind: ProviderKind) -> (s: Script)
    ensures
        s@ == delete_provider_spec(object@, target@, kind),
{
    let (namespace, name) = provider_parts(object);
    Script::new().say(
        cat7(
            ">>>   Deleting ",
            kind.name().as_str(),
            ": ",
            name.as_str(),
            " (namespace: ",
            namespace.as_str(),
            ")",
        ),
    ).perform(
        Action::Run(
            kubectl_on(target).arg("delete").arg(kind.resource().as_str()).arg(name.as_str()).arg(
                "-n",
            ).arg(namespace.as_str()).arg("--ignore-not-found"),
        ),
        Rule::Ignore,
    )
}

/// The questions of this module.
pub enum TeardownQuestion {
    /// Is the AWS CLI on `PATH`?
    AwsCli { knobs: TeardownConfig },
    /// Is a tool that the teardown needs on `PATH`?
    TeardownTool { tool: String },
    /// Which contexts does the kubeconfig have?
    Contexts { knobs: TeardownConfig, aws: bool },
    /// Does the kind cluster answer?
    KindInfo { knobs: TeardownConfig, aws: bool },
    /// Is there a kubeconfig of the management cluster?
    MgmtFile { knobs: TeardownConfig, aws: bool },
    /// Does the management cluster answer?
    MgmtInfo { knobs: TeardownConfig, aws: bool },
    /// Which Flux Kustomizations does the controller host have?
    FluxKustomizations { target: K8sTarget },
    /// Could the Kustomization be suspended?
    Suspended { target: K8sTarget, name: String, rest: Vec<String>, failed: bool },
    /// Does the CAPD workload cluster exist?
    WorkloadState { target: K8sTarget, cluster: String, timeout: u64 },
    /// Is the CAPD workload cluster gone?
    WorkloadGone { target: K8sTarget, cluster: String, timeout: u64 },
    /// Which CAPI clusters are there besides the management cluster?
    AwsClusters { target: K8sTarget, mgmt_cluster: String, timeout: u64, force: bool },
    /// Are the workload clusters gone?
    AwsClustersGone { target: K8sTarget, mgmt_cluster: String, timeout: u64, force: bool },
    /// Which CAPI clusters hold hardware?
    HardwareClusters { target: K8sTarget, timeout: u64 },
    /// Are the CAPI clusters that held hardware gone?
    HardwareGone { target: K8sTarget, timeout: u64 },
    /// Which CAPI providers of this kind are there?
    Providers { target: K8sTarget, timeout: u64, kind: ProviderKind, deleted: bool },
    /// How many CAPI providers of this kind are left?
    ProvidersLeft { target: K8sTarget, timeout: u64, kind: ProviderKind, remaining: u64 },
    /// Is the Helm release installed?
    HelmStatus { target: K8sTarget, release: String },
    /// Could the Helm release be uninstalled?
    HelmUninstall { target: K8sTarget, release: String },
    /// Does kind list its clusters?
    KindAnswers { knobs: TeardownConfig, engine: Option<String> },
    /// Is the kind cluster among them?
    KindPresent { knobs: TeardownConfig, engine: Option<String> },
    /// Is there a kubeconfig of the self-managed local management cluster?
    LocalMgmtFile { knobs: TeardownConfig, engine: Option<String> },
    /// Could the kind cluster be deleted?
    KindDelete,
    /// Which containers does the engine have?
    MgmtContainers { engine: String, prefix: String },
    /// Could the containers of the management cluster be removed?
    ContainersRemoved { engine: String, names: Vec<String> },
    /// Is there a container of the registry to remove?
    RegistryThere { engine: String, name: String },
    /// Could the container of the registry be removed?
    RegistryRemoved { engine: String, name: String },
}

/// The model of a question of this module.
pub enum TeardownQuestionView {
    AwsCli { knobs: TeardownConfigView },
    TeardownTool { tool: Seq<char> },
    Contexts { knobs: TeardownConfigView, aws: bool },
    KindInfo { knobs: TeardownConfigView, aws: bool },
    MgmtFile { knobs: TeardownConfigView, aws: bool },
    MgmtInfo { knobs: TeardownConfigView, aws: bool },
    FluxKustomizations { target: K8sTargetView },
    Suspended { target: K8sTargetView, name: Seq<char>, rest: Seq<Seq<char>>, failed: bool },
    WorkloadState { target: K8sTargetView, cluster: Seq<char>, timeout: u64 },
    WorkloadGone { target: K8sTargetView, cluster: Seq<char>, timeout: u64 },
    AwsClusters { target: K8sTargetView, mgmt_cluster: Seq<char>, timeout: u64, force: bool },
    AwsClustersGone { target: K8sTargetView, mgmt_cluster: Seq<char>, timeout: u64, force: bool },
    HardwareClusters { target: K8sTargetView, timeout: u64 },
    HardwareGone { target: K8sTargetView, timeout: u64 },
    Providers { target: K8sTargetView, timeout: u64, kind: ProviderKind, deleted: bool },
    ProvidersLeft { target: K8sTargetView, timeout: u64, kind: ProviderKind, remaining: u64 },
    HelmStatus { target: K8sTargetView, release: Seq<char> },
    HelmUninstall { target: K8sTargetView, release: Seq<char> },
    KindAnswers { knobs: TeardownConfigView, engine: Option<Seq<char>> },
    KindPresent { knobs: TeardownConfigView, engine: Option<Seq<char>> },
    LocalMgmtFile { knobs: TeardownConfigView, engine: Option<Seq<char>> },
    KindDelete,
    MgmtContainers { engine: Seq<char>, prefix: Seq<char> },
    ContainersRemoved { engine: Seq<char>, names: Seq<Seq<char>> },
    RegistryThere { engine: Seq<char>, name: Seq<char> },
    RegistryRemoved { engine: Seq<char>, name: Seq<char> },
}

impl View for TeardownQuestion {
    type V = TeardownQuestionView;

    open spec fn view(&self) -> TeardownQuestionView {
        match *self {
            TeardownQuestion::AwsCli { knobs } => TeardownQuestionView::AwsCli { knobs: knobs@ },
            TeardownQuestion::TeardownTool { tool } => TeardownQuestionView::TeardownTool {
                tool: tool@,
            },
            TeardownQuestion::Contexts { knobs, aws } => TeardownQuestionView::Contexts {
                knobs: knobs@,
                aws,
            },
            TeardownQuestion::KindInfo { knobs, aws } => TeardownQuestionView::KindInfo {
                knobs: knobs@,
                aws,
            },
            TeardownQuestion::MgmtFile { knobs, aws } => TeardownQuestionView::MgmtFile {
                knobs: knobs@,
                aws,
            },
            TeardownQuestion::MgmtInfo { knobs, aws } => TeardownQuestionView::MgmtInfo {
                knobs: knobs@,
                aws,
            },
            TeardownQuestion::FluxKustomizations { target } => {
                TeardownQuestionView::FluxKustomizations { target: target@ }
            },
            TeardownQuestion::Suspended { target, name, rest, failed } => {
                TeardownQuestionView::Suspended {
                    target: target@,
                    name: name@,
                    rest: texts(rest@),
                    failed,
                }
            },
            TeardownQuestion::WorkloadState { target, cluster, timeout } => {
                TeardownQuestionView::WorkloadState { target: target@, cluster: cluster@, timeout }
            },
            TeardownQuestion::WorkloadGone { target, cluster, timeout } => {
                TeardownQuestionView::WorkloadGone { target: target@, cluster: cluster@, timeout }
            },
            TeardownQuestion::AwsClusters { target, mgmt_cluster, timeout, force } => {
                TeardownQuestionView::AwsClusters {
                    target: target@,
                    mgmt_cluster: mgmt_cluster@,
                    timeout,
                    force,
                }
            },
            TeardownQuestion::AwsClustersGone { target, mgmt_cluster, timeout, force } => {
                TeardownQuestionView::AwsClustersGone {
                    target: target@,
                    mgmt_cluster: mgmt_cluster@,
                    timeout,
                    force,
                }
            },
            TeardownQuestion::HardwareClusters { target, timeout } => {
                TeardownQuestionView::HardwareClusters { target: target@, timeout }
            },
            TeardownQuestion::HardwareGone { target, timeout } => {
                TeardownQuestionView::HardwareGone { target: target@, timeout }
            },
            TeardownQuestion::Providers { target, timeout, kind, deleted } => {
                TeardownQuestionView::Providers { target: target@, timeout, kind, deleted }
            },
            TeardownQuestion::ProvidersLeft { target, timeout, kind, remaining } => {
                TeardownQuestionView::ProvidersLeft { target: target@, timeout, kind, remaining }
            },
            TeardownQuestion::HelmStatus { target, release } => {
                TeardownQuestionView::HelmStatus { target: target@, release: release@ }
            },
            TeardownQuestion::HelmUninstall { target, release } => {
                TeardownQuestionView::HelmUninstall { target: target@, release: release@ }
            },
            TeardownQuestion::KindAnswers { knobs, engine } => {
                TeardownQuestionView::KindAnswers { knobs: knobs@, engine: optional(engine) }
            },
            TeardownQuestion::KindPresent { knobs, engine } => {
                TeardownQuestionView::KindPresent { knobs: knobs@, engine: optional(engine) }
            },
            TeardownQuestion::LocalMgmtFile { knobs, engine } => {
                TeardownQuestionView::LocalMgmtFile { knobs: knobs@, engine: optional(engine) }
            },
            TeardownQuestion::KindDelete => TeardownQuestionView::KindDelete,
            TeardownQuestion::MgmtContainers { engine, prefix } => {
                TeardownQuestionView::MgmtContainers { engine: engine@, prefix: prefix@ }
            },
            TeardownQuestion::ContainersRemoved { engine, names } => {
                TeardownQuestionView::ContainersRemoved { engine: engine@, names: texts(names@) }
            },
            TeardownQuestion::RegistryThere { engine, name } => {
                TeardownQuestionView::RegistryThere { engine: engine@, name: name@ }
            },
            TeardownQuestion::RegistryRemoved { engine, name } => {
                TeardownQuestionView::RegistryRemoved { engine: engine@, name: name@ }
            },
        }
    }
}

/// What is done to find the answer to a question.
pub open spec fn action_spec(cfg: Config, question: TeardownQuestionView) -> ActionView {
    match question {
        TeardownQuestionView::AwsCli { .. } => ActionView::Find("aws"@),
        TeardownQuestionView::TeardownTool { tool } => ActionView::Find(tool),
        TeardownQuestionView::Contexts { .. } => ActionView::Lossy(
            command("kubectl"@).arg("config"@).arg("get-contexts"@).arg("-o"@).arg("name"@),
        ),
        TeardownQuestionView::KindInfo { .. } => ActionView::Quiet(
            command("kubectl"@)
                .arg("--context"@).arg(cfg.repo.bootstrap.kind_context@).arg("cluster-info"@)
                .arg("--request-timeout=10s"@),
        ),
        TeardownQuestionView::MgmtFile { .. } => ActionView::Exists(cfg.mgmt_kubeconfig@),
        TeardownQuestionView::MgmtInfo { .. } => ActionView::Quiet(
            command("kubectl"@)
                .arg("--kubeconfig"@).arg(cfg.mgmt_kubeconfig@).arg("cluster-info"@)
                .arg("--request-timeout=10s"@),
        ),
        TeardownQuestionView::FluxKustomizations { target } => {
            ActionView::Inspect(
                kubectl_on_spec(target)
                    .arg("get"@).arg("kustomizations.kustomize.toolkit.fluxcd.io"@).arg("-n"@)
                    .arg("flux-system"@).arg("-o"@).arg("name"@).arg("--request-timeout=30s"@),
            )
        },
        TeardownQuestionView::Suspended { target, name, .. } => {
            ActionView::Run(
                kubectl_on_spec(target)
                    .arg("patch"@).arg("kustomization/"@ + name).arg("-n"@).arg("flux-system"@)
                    .arg("--type"@).arg("merge"@).arg("-p"@).arg("{\"spec\":{\"suspend\":true}}"@),
            )
        },
        TeardownQuestionView::WorkloadState { target, cluster, .. } => {
            ActionView::Inspect(
                kubectl_on_spec(target)
                    .arg("get"@).arg("cluster"@).arg(cluster).arg("-n"@).arg("default"@)
                    .arg("--request-timeout=30s"@),
            )
        },
        TeardownQuestionView::WorkloadGone { target, cluster, .. } => {
            ActionView::Inspect(
                kubectl_on_spec(target)
                    .arg("get"@).arg("cluster"@).arg(cluster).arg("-n"@).arg("default"@)
                    .arg("--request-timeout=30s"@),
            )
        },
        TeardownQuestionView::AwsClusters { target, .. } => {
            ActionView::Inspect(
                kubectl_on_spec(target)
                    .arg("get"@).arg("clusters"@).arg("-A"@).arg("-o"@).arg("name"@)
                    .arg("--request-timeout=30s"@),
            )
        },
        TeardownQuestionView::AwsClustersGone { target, .. } => {
            ActionView::Inspect(
                kubectl_on_spec(target)
                    .arg("get"@).arg("clusters"@).arg("-A"@).arg("-o"@).arg("name"@)
                    .arg("--request-timeout=30s"@),
            )
        },
        TeardownQuestionView::HardwareClusters { target, .. } => {
            ActionView::Inspect(
                kubectl_on_spec(target)
                    .arg("get"@).arg("clusters"@).arg("-A"@).arg("-o"@).arg("name"@)
                    .arg("--request-timeout=30s"@),
            )
        },
        TeardownQuestionView::HardwareGone { target, .. } => {
            ActionView::Inspect(
                kubectl_on_spec(target)
                    .arg("get"@).arg("clusters"@).arg("-A"@).arg("-o"@).arg("name"@)
                    .arg("--request-timeout=30s"@),
            )
        },
        TeardownQuestionView::Providers { target, kind, .. } => {
            ActionView::Inspect(
                kubectl_on_spec(target)
                    .arg("get"@).arg(kind.resource_spec()).arg("-A"@).arg("-o"@)
                    .arg(NS_NAME_JSONPATH@).arg("--request-timeout=30s"@),
            )
        },
        TeardownQuestionView::ProvidersLeft { target, kind, .. } => {
            ActionView::Inspect(
                kubectl_on_spec(target)
                    .arg("get"@).arg(kind.resource_spec()).arg("-A"@).arg("--no-headers"@)
                    .arg("--request-timeout=30s"@),
            )
        },
        TeardownQuestionView::HelmStatus { target, release } => {
            ActionView::Lossy(
                helm_on_spec(target).arg("status"@).arg(release).arg("-n"@).arg("flux-system"@),
            )
        },
        TeardownQuestionView::HelmUninstall { target, release } => {
            ActionView::Run(
                helm_on_spec(target)
                    .arg("uninstall"@).arg(release).arg("--namespace"@).arg("flux-system"@)
                    .arg("--wait"@).arg("--timeout"@).arg("5m0s"@),
            )
        },
        TeardownQuestionView::KindAnswers { .. } => ActionView::Quiet(
            command("kind"@).arg("get"@).arg("clusters"@),
        ),
        TeardownQuestionView::KindPresent { .. } => ActionView::Lossy(
            command("kind"@).arg("get"@).arg("clusters"@),
        ),
        TeardownQuestionView::LocalMgmtFile { knobs, .. } => {
            ActionView::Exists(knobs.mgmt_kubeconfig)
        },
        TeardownQuestionView::KindDelete => ActionView::Run(
            command("kind"@)
                .arg("delete"@).arg("cluster"@).arg("--name"@)
                .arg(cfg.repo.bootstrap.kind_cluster@),
        ),
        TeardownQuestionView::MgmtContainers { engine, .. } => {
            ActionView::Lossy(
                command(engine).arg("ps"@).arg("-a"@).arg("--format"@).arg("{{.Names}}"@),
            )
        },
        TeardownQuestionView::ContainersRemoved { engine, names } => {
            ActionView::Run(command(engine).arg("rm"@).arg("-f"@).with_args(names))
        },
        TeardownQuestionView::RegistryThere { engine, name } => {
            ActionView::Lossy(
                command(engine)
                    .arg("ps"@).arg("-a"@).arg("--filter"@).arg("name=^"@ + name + "$"@)
                    .arg("--format"@).arg("{{.Names}}"@),
            )
        },
        TeardownQuestionView::RegistryRemoved { engine, name } => {
            ActionView::Run(command(engine).arg("rm"@).arg("-f"@).arg(name))
        },
    }
}

/// What is done to find the answer to a question.
pub fn action(cfg: &Config, question: &TeardownQuestion) -> (a: Action)
    ensures
        a@ == action_spec(*cfg, question@),
{
    match question {
        TeardownQuestion::AwsCli { .. } => Action::Find("aws".to_owned()),
        TeardownQuestion::TeardownTool { tool } => Action::Find(tool.clone()),
        TeardownQuestion::Contexts { .. } => Action::Lossy(
            Command::new("kubectl").arg("config").arg("get-contexts").arg("-o").arg("name"),
        ),
        TeardownQuestion::KindInfo { .. } => Action::Quiet(
            Command::new("kubectl")
                .arg("--context").arg(cfg.repo.bootstrap.kind_context.as_str()).arg("cluster-info")
                .arg("--request-timeout=10s"),
        ),
        TeardownQuestion::MgmtFile { .. } => Action::Exists(cfg.mgmt_kubeconfig.clone()),
        TeardownQuestion::MgmtInfo { .. } => Action::Quiet(
            Command::new("kubectl")
                .arg("--kubeconfig").arg(cfg.mgmt_kubeconfig.as_str()).arg("cluster-info")
                .arg("--request-timeout=10s"),
        ),
        TeardownQuestion::FluxKustomizations { target } => Action::Inspect(
            kubectl_on(target)
                .arg("get").arg("kustomizations.kustomize.toolkit.fluxcd.io").arg("-n")
                .arg("flux-system").arg("-o").arg("name").arg("--request-timeout=30s"),
        ),
        TeardownQuestion::Suspended { target, name, .. } => Action::Run(
            kubectl_on(target)
                .arg("patch").arg(cat2("kustomization/", name.as_str()).as_str()).arg("-n")
                .arg("flux-system").arg("--type").arg("merge").arg("-p")
                .arg("{\"spec\":{\"suspend\":true}}"),
        ),
        TeardownQuestion::WorkloadState { target, cluster, .. } => {
            Action::Inspect(
                kubectl_on(target)
                    .arg("get").arg("cluster").arg(cluster.as_str()).arg("-n").arg("default")
                    .arg("--request-timeout=30s"),
            )
        },
        TeardownQuestion::WorkloadGone { target, cluster, .. } => {
            Action::Inspect(
                kubectl_on(target)
                    .arg("get").arg("cluster").arg(cluster.as_str()).arg("-n").arg("default")
                    .arg("--request-timeout=30s"),
            )
        },
        TeardownQuestion::AwsClusters { target, .. } => {
            Action::Inspect(
                kubectl_on(target)
                    .arg("get").arg("clusters").arg("-A").arg("-o").arg("name")
                    .arg("--request-timeout=30s"),
            )
        },
        TeardownQuestion::AwsClustersGone { target, .. } => {
            Action::Inspect(
                kubectl_on(target)
                    .arg("get").arg("clusters").arg("-A").arg("-o").arg("name")
                    .arg("--request-timeout=30s"),
            )
        },
        TeardownQuestion::HardwareClusters { target, .. } => {
            Action::Inspect(
                kubectl_on(target)
                    .arg("get").arg("clusters").arg("-A").arg("-o").arg("name")
                    .arg("--request-timeout=30s"),
            )
        },
        TeardownQuestion::HardwareGone { target, .. } => {
            Action::Inspect(
                kubectl_on(target)
                    .arg("get").arg("clusters").arg("-A").arg("-o").arg("name")
                    .arg("--request-timeout=30s"),
            )
        },
        TeardownQuestion::Providers { target, kind, .. } => {
            Action::Inspect(
                kubectl_on(target)
                    .arg("get").arg(kind.resource().as_str()).arg("-A").arg("-o")
                    .arg(NS_NAME_JSONPATH).arg("--request-timeout=30s"),
            )
        },
        TeardownQuestion::ProvidersLeft { target, kind, .. } => {
            Action::Inspect(
                kubectl_on(target)
                    .arg("get").arg(kind.resource().as_str()).arg("-A").arg("--no-headers")
                    .arg("--request-timeout=30s"),
            )
        },
        TeardownQuestion::HelmStatus { target, release } => Action::Lossy(
            helm_on(target).arg("status").arg(release.as_str()).arg("-n").arg("flux-system"),
        ),
        TeardownQuestion::HelmUninstall { target, release } => {
            Action::Run(
                helm_on(target)
                    .arg("uninstall").arg(release.as_str()).arg("--namespace").arg("flux-system")
                    .arg("--wait").arg("--timeout").arg("5m0s"),
            )
        },
        TeardownQuestion::KindAnswers { .. } => Action::Quiet(
            Command::new("kind").arg("get").arg("clusters"),
        ),
        TeardownQuestion::KindPresent { .. } => Action::Lossy(
            Command::new("kind").arg("get").arg("clusters"),
        ),
        TeardownQuestion::LocalMgmtFile { knobs, .. } => Action::Exists(
            knobs.mgmt_kubeconfig.clone(),
        ),
        TeardownQuestion::KindDelete => Action::Run(
            Command::new("kind")
                .arg("delete").arg("cluster").arg("--name")
                .arg(cfg.repo.bootstrap.kind_cluster.as_str()),
        ),
        TeardownQuestion::MgmtContainers { engine, .. } => Action::Lossy(
            Command::new(engine.as_str()).arg("ps").arg("-a").arg("--format").arg("{{.Names}}"),
        ),
        TeardownQuestion::ContainersRemoved { engine, names } => {
            Action::Run(Command::new(engine.as_str()).arg("rm").arg("-f").with_args(names))
        },
        TeardownQuestion::RegistryThere { engine, name } => Action::Lossy(
            Command::new(engine.as_str())
                .arg("ps").arg("-a").arg("--filter")
                .arg(cat3("name=^", name.as_str(), "$").as_str()).arg("--format").arg("{{.Names}}"),
        ),
        TeardownQuestion::RegistryRemoved { engine, name } => {
            Action::Run(Command::new(engine.as_str()).arg("rm").arg("-f").arg(name.as_str()))
        },
    }
}

/// How the run goes on after: is the AWS CLI on `PATH`?
pub open spec fn after_aws_cli_spec(
    cfg: Config,
    knobs: TeardownConfigView,
    reply: ReplyView,
) -> ScriptView {
    teardown_preflight_spec(cfg, knobs, reply.ok)
}

/// How the run goes on after: is the AWS CLI on `PATH`?
pub fn after_aws_cli(cfg: &Config, knobs: &TeardownConfig, reply: &Reply) -> (s: Script)
    ensures
        s@ == after_aws_cli_spec(*cfg, knobs@, reply@),
{
    teardown_preflight(cfg, knobs, reply.ok)
}

/// How the run goes on after: is a tool that the teardown needs on `PATH`?
pub open spec fn after_teardown_tool_spec(tool: Seq<char>, reply: ReplyView) -> ScriptView {
    if reply.ok {
        ScriptView::new()
    } else {
        ScriptView::new()
            .fail(tool + " not found in PATH"@)
    }
}

/// How the run goes on after: is a tool that the teardown needs on `PATH`?
pub fn after_teardown_tool(tool: &str, reply: &Reply) -> (s: Script)
    ensures
        s@ == after_teardown_tool_spec(tool@, reply@),
{
    if reply.ok {
        Script::new()
    } else {
        Script::new()
            .fail(cat2(tool, " not found in PATH"))
    }
}

/// How the run goes on after: which contexts does the kubeconfig have?
pub open spec fn after_contexts_spec(
    cfg: Config,
    knobs: TeardownConfigView,
    aws: bool,
    reply: ReplyView,
) -> ScriptView {
    if has_line_spec(reply.stdout, cfg.repo.bootstrap.kind_context@) {
        ScriptView::new()
            .ask(QuestionView::Teardown(TeardownQuestionView::KindInfo { knobs, aws }))
    } else {
        ScriptView::new()
            .ask(QuestionView::Teardown(TeardownQuestionView::MgmtFile { knobs, aws }))
    }
}

/// How the run goes on after: which contexts does the kubeconfig have?
pub fn after_contexts(cfg: &Config, knobs: &TeardownConfig, aws: bool, reply: &Reply) -> (s: Script)
    ensures
        s@ == after_contexts_spec(*cfg, knobs@, aws, reply@),
{
    if has_line(reply.stdout.as_str(), cfg.repo.bootstrap.kind_context.as_str()) {
        Script::new()
            .ask(Question::Teardown(TeardownQuestion::KindInfo { knobs: knobs.copy(), aws }))
    } else {
        Script::new()
            .ask(Question::Teardown(TeardownQuestion::MgmtFile { knobs: knobs.copy(), aws }))
    }
}

/// How the run goes on after: does the kind cluster answer?
pub open spec fn after_kind_info_spec(
    cfg: Config,
    knobs: TeardownConfigView,
    aws: bool,
    reply: ReplyView,
) -> ScriptView {
    if reply.ok {
        host_found_spec(cfg, knobs, aws, ControllerHost::Kind)
    } else {
        ScriptView::new()
            .ask(QuestionView::Teardown(TeardownQuestionView::MgmtFile { knobs, aws }))
    }
}

/// How the run goes on after: does the kind cluster answer?
pub fn after_kind_info(
    cfg: &Config,
    knobs: &TeardownConfig,
    aws: bool,
    reply: &Reply,
) -> (s: Script)
    ensures
        s@ == after_kind_info_spec(*cfg, knobs@, aws, reply@),
{
    if reply.ok {
        host_found(cfg, knobs, aws, ControllerHost::Kind)
    } else {
        Script::new()
            .ask(Question::Teardown(TeardownQuestion::MgmtFile { knobs: knobs.copy(), aws }))
    }
}

/// How the run goes on after: is there a kubeconfig of the management cluster?
pub open spec fn after_mgmt_file_spec(
    cfg: Config,
    knobs: TeardownConfigView,
    aws: bool,
    reply: ReplyView,
) -> ScriptView {
    if reply.ok {
        ScriptView::new()
            .ask(QuestionView::Teardown(TeardownQuestionView::MgmtInfo { knobs, aws }))
    } else {
        host_found_spec(cfg, knobs, aws, ControllerHost::Unreachable)
    }
}

/// How the run goes on after: is there a kubeconfig of the management cluster?
pub fn after_mgmt_file(
    cfg: &Config,
    knobs: &TeardownConfig,
    aws: bool,
    reply: &Reply,
) -> (s: Script)
    ensures
        s@ == after_mgmt_file_spec(*cfg, knobs@, aws, reply@),
{
    if reply.ok {
        Script::new()
            .ask(Question::Teardown(TeardownQuestion::MgmtInfo { knobs: knobs.copy(), aws }))
    } else {
        host_found(cfg, knobs, aws, ControllerHost::Unreachable)
    }
}

/// How the run goes on after: does the management cluster answer?
pub open spec fn after_mgmt_info_spec(
    cfg: Config,
    knobs: TeardownConfigView,
    aws: bool,
    reply: ReplyView,
) -> ScriptView {
    if reply.ok {
        host_found_spec(cfg, knobs, aws, ControllerHost::SelfManaged)
    } else {
        host_found_spec(cfg, knobs, aws, ControllerHost::Unreachable)
    }
}

/// How the run goes on after: does the management cluster answer?
pub fn after_mgmt_info(
    cfg: &Config,
    knobs: &TeardownConfig,
    aws: bool,
    reply: &Reply,
) -> (s: Script)
    ensures
        s@ == after_mgmt_info_spec(*cfg, knobs@, aws, reply@),
{
    if reply.ok {
        host_found(cfg, knobs, aws, ControllerHost::SelfManaged)
    } else {
        host_found(cfg, knobs, aws, ControllerHost::Unreachable)
    }
}

/// How the run goes on after: which Flux Kustomizations does the controller host have?
pub open spec fn after_flux_kustomizations_spec(
    target: K8sTargetView,
    reply: ReplyView,
) -> ScriptView {
    let outcome = probe_spec(reply.ok, reply.stdout, reply.stderr, false);
    if outcome == ProbeOutcome::Absent {
        ScriptView::new()
            .say("!   No Flux Kustomizations found – skipping suspension"@)
    } else if outcome == ProbeOutcome::Error {
        ScriptView::new()
            .fail(
                "cannot list the Flux Kustomizations to suspend them; aborting before any deletion (re-run once 'kubectl get kustomizations -n flux-system' works)"@,
            )
    } else {
        let found = names_spec(reply.stdout);
        suspend_next_spec(target, found, false)
    }
}

/// How the run goes on after: which Flux Kustomizations does the controller host have?
pub fn after_flux_kustomizations(target: &K8sTarget, reply: &Reply) -> (s: Script)
    ensures
        s@ == after_flux_kustomizations_spec(target@, reply@),
{
    let outcome = probe(reply.ok, reply.stdout.as_str(), reply.stderr.as_str(), false);
    if outcome == ProbeOutcome::Absent {
        Script::new()
            .say("!   No Flux Kustomizations found – skipping suspension".to_owned())
    } else if outcome == ProbeOutcome::Error {
        Script::new()
            .fail(
                "cannot list the Flux Kustomizations to suspend them; aborting before any deletion (re-run once 'kubectl get kustomizations -n flux-system' works)".to_owned(),
            )
    } else {
        let found = names(reply.stdout.as_str());
        suspend_next(target, &found, false)
    }
}

/// How the run goes on after: could the Kustomization be suspended?
pub open spec fn after_suspended_spec(
    target: K8sTargetView,
    rest: Seq<Seq<char>>,
    failed: bool,
    reply: ReplyView,
) -> ScriptView {
    suspend_next_spec(target, rest, failed || !reply.ok)
}

/// How the run goes on after: could the Kustomization be suspended?
pub fn after_suspended(
    target: &K8sTarget,
    rest: &Vec<String>,
    failed: bool,
    reply: &Reply,
) -> (s: Script)
    ensures
        s@ == after_suspended_spec(target@, texts(rest@), failed, reply@),
{
    suspend_next(target, rest, failed || !reply.ok)
}

/// How the run goes on after: does the CAPD workload cluster exist?
pub open spec fn after_workload_state_spec(
    target: K8sTargetView,
    cluster: Seq<char>,
    timeout: u64,
    reply: ReplyView,
) -> ScriptView {
    let outcome = probe_spec(reply.ok, reply.stdout, reply.stderr, true);
    if outcome == ProbeOutcome::Absent {
        ScriptView::new()
            .say("!   Cluster '"@ + cluster + "' not found – skipping"@)
    } else if outcome == ProbeOutcome::Error {
        ScriptView::new()
            .fail(
                "cannot confirm the state of CAPD workload cluster '"@ + cluster
                    + "'; leaving the management cluster intact (re-run once 'kubectl get cluster "@
                    + cluster + " -n default' works)"@,
            )
    } else {
        ScriptView::new()
            .perform(
                ActionView::Run(
                    kubectl_on_spec(target)
                        .arg("delete"@).arg("cluster"@).arg(cluster).arg("-n"@).arg("default"@)
                        .arg("--wait=false"@),
                ),
                RuleView::Explain("failed to delete workload cluster '"@ + cluster + "'"@),
            )
            .perform(ActionView::Clock, RuleView::Ignore)
            .ask(
                QuestionView::Teardown(
                    TeardownQuestionView::WorkloadGone { target, cluster, timeout },
                ),
            )
    }
}

/// How the run goes on after: does the CAPD workload cluster exist?
pub fn after_workload_state(
    target: &K8sTarget,
    cluster: &str,
    timeout: u64,
    reply: &Reply,
) -> (s: Script)
    ensures
        s@ == after_workload_state_spec(target@, cluster@, timeout, reply@),
{
    let outcome = probe(reply.ok, reply.stdout.as_str(), reply.stderr.as_str(), true);
    if outcome == ProbeOutcome::Absent {
        Script::new()
            .say(cat3("!   Cluster '", cluster, "' not found – skipping"))
    } else if outcome == ProbeOutcome::Error {
        Script::new()
            .fail(
                cat5(
                    "cannot confirm the state of CAPD workload cluster '",
                    cluster,
                    "'; leaving the management cluster intact (re-run once 'kubectl get cluster ",
                    cluster,
                    " -n default' works)",
                ),
            )
    } else {
        Script::new()
            .perform(
                Action::Run(
                    kubectl_on(target)
                        .arg("delete").arg("cluster").arg(cluster).arg("-n").arg("default")
                        .arg("--wait=false"),
                ),
                Rule::Explain(cat3("failed to delete workload cluster '", cluster, "'")),
            )
            .perform(Action::Clock, Rule::Ignore)
            .ask(
                Question::Teardown(
                    TeardownQuestion::WorkloadGone {
                        target: target.copy(),
                        cluster: cluster.to_owned(),
                        timeout,
                    },
                ),
            )
    }
}

/// How the run goes on after: is the CAPD workload cluster gone?
pub open spec fn after_workload_gone_spec(
    target: K8sTargetView,
    cluster: Seq<char>,
    timeout: u64,
    reply: ReplyView,
) -> ScriptView {
    let outcome = probe_spec(reply.ok, reply.stdout, reply.stderr, true);
    if outcome == ProbeOutcome::Absent {
        ScriptView::new()
            .say("✓   CAPD workload cluster '"@ + cluster + "' deleted"@)
    } else if outcome == ProbeOutcome::Error {
        ScriptView::new()
            .fail(
                "cannot confirm the deletion of CAPD workload cluster '"@ + cluster
                    + "'; leaving the management cluster intact (the cluster may still be deleting; re-run once the query works)"@,
            )
    } else if reply.elapsed >= timeout {
        ScriptView::new()
            .fail(
                "CAPD workload cluster '"@ + cluster + "' did not finish deleting within "@
                    + decimal_spec(
                    timeout as int,
                ) + "s; leaving the management cluster intact"@,
            )
    } else {
        ScriptView::new()
            .perform(ActionView::Sleep(10), RuleView::Ignore)
            .ask(
                QuestionView::Teardown(
                    TeardownQuestionView::WorkloadGone { target, cluster, timeout },
                ),
            )
    }
}

/// How the run goes on after: is the CAPD workload cluster gone?
pub fn after_workload_gone(
    target: &K8sTarget,
    cluster: &str,
    timeout: u64,
    reply: &Reply,
) -> (s: Script)
    ensures
        s@ == after_workload_gone_spec(target@, cluster@, timeout, reply@),
{
    let outcome = probe(reply.ok, reply.stdout.as_str(), reply.stderr.as_str(), true);
    if outcome == ProbeOutcome::Absent {
        Script::new()
            .say(cat3("✓   CAPD workload cluster '", cluster, "' deleted"))
    } else if outcome == ProbeOutcome::Error {
        Script::new()
            .fail(
                cat3(
                    "cannot confirm the deletion of CAPD workload cluster '",
                    cluster,
                    "'; leaving the management cluster intact (the cluster may still be deleting; re-run once the query works)",
                ),
            )
    } else if reply.elapsed >= timeout {
        Script::new()
            .fail(
                cat5(
                    "CAPD workload cluster '",
                    cluster,
                    "' did not finish deleting within ",
                    decimal(timeout as u64).as_str(),
                    "s; leaving the management cluster intact",
                ),
            )
    } else {
        Script::new()
            .perform(Action::Sleep(10), Rule::Ignore)
            .ask(
                Question::Teardown(
                    TeardownQuestion::WorkloadGone {
                        target: target.copy(),
                        cluster: cluster.to_owned(),
                        timeout,
                    },
                ),
            )
    }
}

/// How the run goes on after: which CAPI clusters are there besides the management cluster?
pub open spec fn after_aws_clusters_spec(
    target: K8sTargetView,
    mgmt_cluster: Seq<char>,
    timeout: u64,
    force: bool,
    reply: ReplyView,
) -> ScriptView {
    let outcome = probe_spec(reply.ok, reply.stdout, reply.stderr, false);
    let left = remaining_spec(outcome, reply.stdout, mgmt_cluster);
    if outcome == ProbeOutcome::Error {
        ScriptView::new()
            .fail(
                "cannot list CAPI clusters to confirm workload deletion; leaving the management cluster and CAPA controller intact (re-run once 'kubectl get clusters -A' works)"@,
            )
    } else if left.len() == 0 {
        ScriptView::new()
            .say(">>> No CAPI workload clusters found – skipping cluster deletion"@)
    } else {
        ScriptView::new()
            .join(for_each_spec(left, |item: Seq<char>| delete_cluster_spec(item, target)))
            .say(
                ">>> Waiting up to "@ + decimal_spec(
                    timeout as int,
                ) + "s for the workload clusters to be deleted..."@,
            )
            .say(">>> (This typically takes 15–25 minutes while CAPA tears down AWS resources)"@)
            .perform(ActionView::Clock, RuleView::Ignore)
            .ask(
                QuestionView::Teardown(
                    TeardownQuestionView::AwsClustersGone { target, mgmt_cluster, timeout, force },
                ),
            )
    }
}

/// How the run goes on after: which CAPI clusters are there besides the management cluster?
pub fn after_aws_clusters(
    target: &K8sTarget,
    mgmt_cluster: &str,
    timeout: u64,
    force: bool,
    reply: &Reply,
) -> (s: Script)
    ensures
        s@ == after_aws_clusters_spec(target@, mgmt_cluster@, timeout, force, reply@),
{
    let outcome = probe(reply.ok, reply.stdout.as_str(), reply.stderr.as_str(), false);
    let left = remaining(outcome, reply.stdout.as_str(), mgmt_cluster);
    if outcome == ProbeOutcome::Error {
        Script::new()
            .fail(
                "cannot list CAPI clusters to confirm workload deletion; leaving the management cluster and CAPA controller intact (re-run once 'kubectl get clusters -A' works)".to_owned(),
            )
    } else if left.len() == 0 {
        Script::new()
            .say(">>> No CAPI workload clusters found – skipping cluster deletion".to_owned())
    } else {
        Script::new()
            .join(for_each(
                &left,
                |item: &str| -> (s: Script)
                    ensures
                        s@ == delete_cluster_spec(item@, target@)
                    { delete_cluster(item, target) },
                Ghost(|item: Seq<char>| delete_cluster_spec(item, target@)),
            ))
            .say(
                cat3(
                    ">>> Waiting up to ",
                    decimal(timeout as u64).as_str(),
                    "s for the workload clusters to be deleted...",
                ),
            )
            .say(
                ">>> (This typically takes 15–25 minutes while CAPA tears down AWS resources)".to_owned(),
            )
            .perform(Action::Clock, Rule::Ignore)
            .ask(
                Question::Teardown(
                    TeardownQuestion::AwsClustersGone {
                        target: target.copy(),
                        mgmt_cluster: mgmt_cluster.to_owned(),
                        timeout,
                        force,
                    },
                ),
            )
    }
}

/// How the run goes on after: are the workload clusters gone?
pub open spec fn after_aws_clusters_gone_spec(
    target: K8sTargetView,
    mgmt_cluster: Seq<char>,
    timeout: u64,
    force: bool,
    reply: ReplyView,
) -> ScriptView {
    let outcome = probe_spec(reply.ok, reply.stdout, reply.stderr, false);
    let left = remaining_spec(outcome, reply.stdout, mgmt_cluster);
    let shown = debug_list_spec(left);
    if outcome == ProbeOutcome::Error {
        ScriptView::new()
            .report("!   Failed to list CAPI clusters while waiting for workload deletion"@)
            .report("!   (auth, forbidden, or API error). The workload state is UNKNOWN."@)
            .report("!   ABORTING teardown. The management cluster and CAPA controller have been"@)
            .report("!   left intact so AWS resources can continue to deprovision. Re-run this"@)
            .report("!   once 'kubectl get clusters -A' works (or FORCE_KIND_DELETE=1 to"@)
            .report("!   force-delete the management cluster and accept orphaned AWS resources)."@)
            .join(unconfirmed_spec(force))
    } else if left.len() == 0 {
        ScriptView::new()
            .say("✓   All CAPI workload clusters deleted"@)
    } else if reply.elapsed >= timeout {
        ScriptView::new()
            .report(
                "!   Timed out waiting for CAPI clusters to be deleted after "@ + decimal_spec(
                    reply.elapsed as int,
                ) + "s"@,
            )
            .report("!   The following clusters still exist: "@ + shown)
            .report("!   ABORTING teardown. The management cluster and CAPA controller have been"@)
            .report("!   left intact so AWS resources can continue to deprovision. Re-run this"@)
            .report("!   once 'kubectl get clusters -A' is empty (or FORCE_KIND_DELETE=1 to"@)
            .report("!   force-delete the management cluster and accept orphaned AWS resources)."@)
            .join(unconfirmed_spec(force))
    } else {
        ScriptView::new()
            .say(
                ">>>   "@ + decimal_spec(
                    left.len() as int,
                ) + " cluster(s) still deleting... ("@ + decimal_spec(
                    reply.elapsed as int,
                ) + "s elapsed, checking again in 30s)"@,
            )
            .perform(ActionView::Sleep(30), RuleView::Ignore)
            .ask(
                QuestionView::Teardown(
                    TeardownQuestionView::AwsClustersGone { target, mgmt_cluster, timeout, force },
                ),
            )
    }
}

/// How the run goes on after: are the workload clusters gone?
pub fn after_aws_clusters_gone(
    target: &K8sTarget,
    mgmt_cluster: &str,
    timeout: u64,
    force: bool,
    reply: &Reply,
) -> (s: Script)
    ensures
        s@ == after_aws_clusters_gone_spec(target@, mgmt_cluster@, timeout, force, reply@),
{
    let outcome = probe(reply.ok, reply.stdout.as_str(), reply.stderr.as_str(), false);
    let left = remaining(outcome, reply.stdout.as_str(), mgmt_cluster);
    let shown = debug_list(&left);
    if outcome == ProbeOutcome::Error {
        Script::new()
            .report(
                "!   Failed to list CAPI clusters while waiting for workload deletion".to_owned(),
            )
            .report(
                "!   (auth, forbidden, or API error). The workload state is UNKNOWN.".to_owned(),
            )
            .report(
                "!   ABORTING teardown. The management cluster and CAPA controller have been".to_owned(),
            )
            .report(
                "!   left intact so AWS resources can continue to deprovision. Re-run this".to_owned(),
            )
            .report(
                "!   once 'kubectl get clusters -A' works (or FORCE_KIND_DELETE=1 to".to_owned(),
            )
            .report(
                "!   force-delete the management cluster and accept orphaned AWS resources).".to_owned(),
            )
            .join(unconfirmed(force))
    } else if left.len() == 0 {
        Script::new()
            .say("✓   All CAPI workload clusters deleted".to_owned())
    } else if reply.elapsed >= timeout {
        Script::new()
            .report(
                cat3(
                    "!   Timed out waiting for CAPI clusters to be deleted after ",
                    decimal(reply.elapsed as u64).as_str(),
                    "s",
                ),
            )
            .report(cat2("!   The following clusters still exist: ", shown.as_str()))
            .report(
                "!   ABORTING teardown. The management cluster and CAPA controller have been".to_owned(),
            )
            .report(
                "!   left intact so AWS resources can continue to deprovision. Re-run this".to_owned(),
            )
            .report(
                "!   once 'kubectl get clusters -A' is empty (or FORCE_KIND_DELETE=1 to".to_owned(),
            )
            .report(
                "!   force-delete the management cluster and accept orphaned AWS resources).".to_owned(),
            )
            .join(unconfirmed(force))
    } else {
        Script::new()
            .say(
                cat5(
                    ">>>   ",
                    decimal(left.len() as u64).as_str(),
                    " cluster(s) still deleting... (",
                    decimal(reply.elapsed as u64).as_str(),
                    "s elapsed, checking again in 30s)",
                ),
            )
            .perform(Action::Sleep(30), Rule::Ignore)
            .ask(
                Question::Teardown(
                    TeardownQuestion::AwsClustersGone {
                        target: target.copy(),
                        mgmt_cluster: mgmt_cluster.to_owned(),
                        timeout,
                        force,
                    },
                ),
            )
    }
}

/// How the run goes on after: which CAPI clusters hold hardware?
pub open spec fn after_hardware_clusters_spec(
    target: K8sTargetView,
    timeout: u64,
    reply: ReplyView,
) -> ScriptView {
    let outcome = probe_spec(reply.ok, reply.stdout, reply.stderr, false);
    if outcome == ProbeOutcome::Error {
        ScriptView::new()
            .fail(
                "cannot confirm the state of the CAPI clusters on the local-talos host; the Hardware is not released and the management cluster was left intact (re-run once 'kubectl get clusters -A' works)"@,
            )
    } else if outcome == ProbeOutcome::Absent {
        ScriptView::new()
            .say(">>> No CAPI clusters found; nothing to release"@)
    } else {
        let found = names_spec(reply.stdout);
        ScriptView::new()
            .join(for_each_spec(found, |item: Seq<char>| release_cluster_spec(item, target)))
            .say(
                ">>> Waiting up to "@ + decimal_spec(
                    timeout as int,
                ) + "s for the clusters to be deleted..."@,
            )
            .perform(ActionView::Clock, RuleView::Ignore)
            .ask(QuestionView::Teardown(TeardownQuestionView::HardwareGone { target, timeout }))
    }
}

/// How the run goes on after: which CAPI clusters hold hardware?
pub fn after_hardware_clusters(target: &K8sTarget, timeout: u64, reply: &Reply) -> (s: Script)
    ensures
        s@ == after_hardware_clusters_spec(target@, timeout, reply@),
{
    let outcome = probe(reply.ok, reply.stdout.as_str(), reply.stderr.as_str(), false);
    if outcome == ProbeOutcome::Error {
        Script::new()
            .fail(
                "cannot confirm the state of the CAPI clusters on the local-talos host; the Hardware is not released and the management cluster was left intact (re-run once 'kubectl get clusters -A' works)".to_owned(),
            )
    } else if outcome == ProbeOutcome::Absent {
        Script::new()
            .say(">>> No CAPI clusters found; nothing to release".to_owned())
    } else {
        let found = names(reply.stdout.as_str());
        Script::new()
            .join(for_each(
                &found,
                |item: &str| -> (s: Script)
                    ensures
                        s@ == release_cluster_spec(item@, target@)
                    { release_cluster(item, target) },
                Ghost(|item: Seq<char>| release_cluster_spec(item, target@)),
            ))
            .say(
                cat3(
                    ">>> Waiting up to ",
                    decimal(timeout as u64).as_str(),
                    "s for the clusters to be deleted...",
                ),
            )
            .perform(Action::Clock, Rule::Ignore)
            .ask(
                Question::Teardown(
                    TeardownQuestion::HardwareGone { target: target.copy(), timeout },
                ),
            )
    }
}

/// How the run goes on after: are the CAPI clusters that held hardware gone?
pub open spec fn after_hardware_gone_spec(
    target: K8sTargetView,
    timeout: u64,
    reply: ReplyView,
) -> ScriptView {
    let outcome = probe_spec(reply.ok, reply.stdout, reply.stderr, false);
    if outcome == ProbeOutcome::Error {
        ScriptView::new()
            .fail(
                "cannot confirm the deletion of the CAPI clusters on the local-talos host; the Hardware is not released and the management cluster was left intact (re-run once 'kubectl get clusters -A' works)"@,
            )
    } else if outcome == ProbeOutcome::Absent {
        ScriptView::new()
            .say("✓   All CAPI clusters deleted; Hardware released to the pool"@)
    } else if reply.elapsed >= timeout {
        ScriptView::new()
            .fail(
                "timed out waiting for the CAPI clusters to delete; the Hardware is not released and the management cluster was left intact (re-run once 'kubectl get clusters -A' is empty)"@,
            )
    } else {
        ScriptView::new()
            .say(">>>   clusters still deleting..."@)
            .perform(ActionView::Sleep(30), RuleView::Ignore)
            .ask(QuestionView::Teardown(TeardownQuestionView::HardwareGone { target, timeout }))
    }
}

/// How the run goes on after: are the CAPI clusters that held hardware gone?
pub fn after_hardware_gone(target: &K8sTarget, timeout: u64, reply: &Reply) -> (s: Script)
    ensures
        s@ == after_hardware_gone_spec(target@, timeout, reply@),
{
    let outcome = probe(reply.ok, reply.stdout.as_str(), reply.stderr.as_str(), false);
    if outcome == ProbeOutcome::Error {
        Script::new()
            .fail(
                "cannot confirm the deletion of the CAPI clusters on the local-talos host; the Hardware is not released and the management cluster was left intact (re-run once 'kubectl get clusters -A' works)".to_owned(),
            )
    } else if outcome == ProbeOutcome::Absent {
        Script::new()
            .say("✓   All CAPI clusters deleted; Hardware released to the pool".to_owned())
    } else if reply.elapsed >= timeout {
        Script::new()
            .fail(
                "timed out waiting for the CAPI clusters to delete; the Hardware is not released and the management cluster was left intact (re-run once 'kubectl get clusters -A' is empty)".to_owned(),
            )
    } else {
        Script::new()
            .say(">>>   clusters still deleting...".to_owned())
            .perform(Action::Sleep(30), Rule::Ignore)
            .ask(
                Question::Teardown(
                    TeardownQuestion::HardwareGone { target: target.copy(), timeout },
                ),
            )
    }
}

/// How the run goes on after: which CAPI providers of this kind are there?
pub open spec fn after_providers_spec(
    target: K8sTargetView,
    timeout: u64,
    kind: ProviderKind,
    deleted: bool,
    reply: ReplyView,
) -> ScriptView {
    let outcome = probe_spec(reply.ok, reply.stdout, reply.stderr, false);
    let name = kind.name_spec();
    let resource = kind.resource_spec();
    let found = listed_spec(outcome, reply.stdout);
    if outcome == ProbeOutcome::Error {
        ScriptView::new()
            .fail(
                "cannot list the CAPI "@ + name
                    + " providers to confirm their state; aborting (re-run once 'kubectl get "@
                    + resource + " -A' works)"@,
            )
    } else {
        ScriptView::new()
            .join(for_each_spec(found, |item: Seq<char>| delete_provider_spec(item, target, kind)))
            .join(next_provider_spec(target, timeout, kind, deleted || found.len() > 0))
    }
}

/// How the run goes on after: which CAPI providers of this kind are there?
pub fn after_providers(
    target: &K8sTarget,
    timeout: u64,
    kind: ProviderKind,
    deleted: bool,
    reply: &Reply,
) -> (s: Script)
    ensures
        s@ == after_providers_spec(target@, timeout, kind, deleted, reply@),
{
    let outcome = probe(reply.ok, reply.stdout.as_str(), reply.stderr.as_str(), false);
    let name = kind.name();
    let resource = kind.resource();
    let found = listed(outcome, reply.stdout.as_str());
    if outcome == ProbeOutcome::Error {
        Script::new()
            .fail(
                cat5(
                    "cannot list the CAPI ",
                    name.as_str(),
                    " providers to confirm their state; aborting (re-run once 'kubectl get ",
                    resource.as_str(),
                    " -A' works)",
                ),
            )
    } else {
        Script::new()
            .join(for_each(
                &found,
                |item: &str| -> (s: Script)
                    ensures
                        s@ == delete_provider_spec(item@, target@, kind)
                    { delete_provider(item, target, kind) },
                Ghost(|item: Seq<char>| delete_provider_spec(item, target@, kind)),
            ))
            .join(next_provider(target, timeout, kind, deleted || found.len() > 0))
    }
}

/// How the run goes on after: how many CAPI providers of this kind are left?
pub open spec fn after_providers_left_spec(
    target: K8sTargetView,
    timeout: u64,
    kind: ProviderKind,
    remaining: u64,
    reply: ReplyView,
) -> ScriptView {
    let outcome = probe_spec(reply.ok, reply.stdout, reply.stderr, false);
    let resource = kind.resource_spec();
    let total = count_left_spec(outcome, reply.stdout, remaining);
    if outcome == ProbeOutcome::Error {
        ScriptView::new()
            .fail(
                "cannot confirm the removal of the CAPI providers; aborting (re-run once 'kubectl get "@
                    + resource + " -A' works)"@,
            )
    } else {
        next_count_spec(target, timeout, kind, total, reply.elapsed)
    }
}

/// How the run goes on after: how many CAPI providers of this kind are left?
pub fn after_providers_left(
    target: &K8sTarget,
    timeout: u64,
    kind: ProviderKind,
    remaining: u64,
    reply: &Reply,
) -> (s: Script)
    ensures
        s@ == after_providers_left_spec(target@, timeout, kind, remaining, reply@),
{
    let outcome = probe(reply.ok, reply.stdout.as_str(), reply.stderr.as_str(), false);
    let resource = kind.resource();
    let total = count_left(outcome, reply.stdout.as_str(), remaining);
    if outcome == ProbeOutcome::Error {
        Script::new()
            .fail(
                cat3(
                    "cannot confirm the removal of the CAPI providers; aborting (re-run once 'kubectl get ",
                    resource.as_str(),
                    " -A' works)",
                ),
            )
    } else {
        next_count(target, timeout, kind, total, reply.elapsed)
    }
}

/// How the run goes on after: is the Helm release installed?
pub open spec fn after_helm_status_spec(
    target: K8sTargetView,
    release: Seq<char>,
    reply: ReplyView,
) -> ScriptView {
    if release_missing_spec(reply.stdout) {
        ScriptView::new()
            .say("!   "@ + release + " Helm release not found – skipping"@)
    } else {
        ScriptView::new()
            .ask(QuestionView::Teardown(TeardownQuestionView::HelmUninstall { target, release }))
    }
}

/// How the run goes on after: is the Helm release installed?
pub fn after_helm_status(target: &K8sTarget, release: &str, reply: &Reply) -> (s: Script)
    ensures
        s@ == after_helm_status_spec(target@, release@, reply@),
{
    if release_missing(reply.stdout.as_str()) {
        Script::new()
            .say(cat3("!   ", release, " Helm release not found – skipping"))
    } else {
        Script::new()
            .ask(
                Question::Teardown(
                    TeardownQuestion::HelmUninstall {
                        target: target.copy(),
                        release: release.to_owned(),
                    },
                ),
            )
    }
}

/// How the run goes on after: could the Helm release be uninstalled?
pub open spec fn after_helm_uninstall_spec(release: Seq<char>, reply: ReplyView) -> ScriptView {
    if reply.ok {
        ScriptView::new()
            .say("✓   "@ + release + " Helm release uninstalled"@)
    } else {
        ScriptView::new()
            .report("!   "@ + release + " Helm release could not be uninstalled"@)
    }
}

/// How the run goes on after: could the Helm release be uninstalled?
pub fn after_helm_uninstall(release: &str, reply: &Reply) -> (s: Script)
    ensures
        s@ == after_helm_uninstall_spec(release@, reply@),
{
    if reply.ok {
        Script::new()
            .say(cat3("✓   ", release, " Helm release uninstalled"))
    } else {
        Script::new()
            .report(cat3("!   ", release, " Helm release could not be uninstalled"))
    }
}

/// How the run goes on after: does kind list its clusters?
pub open spec fn after_kind_answers_spec(
    knobs: TeardownConfigView,
    engine: Option<Seq<char>>,
    reply: ReplyView,
) -> ScriptView {
    if reply.ok {
        ScriptView::new()
            .ask(QuestionView::Teardown(TeardownQuestionView::KindPresent { knobs, engine }))
    } else {
        ScriptView::new()
            .ask(QuestionView::Teardown(TeardownQuestionView::LocalMgmtFile { knobs, engine }))
    }
}

/// How the run goes on after: does kind list its clusters?
pub fn after_kind_answers(
    knobs: &TeardownConfig,
    engine: &Option<String>,
    reply: &Reply,
) -> (s: Script)
    ensures
        s@ == after_kind_answers_spec(knobs@, optional(*engine), reply@),
{
    if reply.ok {
        Script::new()
            .ask(
                Question::Teardown(
                    TeardownQuestion::KindPresent {
                        knobs: knobs.copy(),
                        engine: copy_optional(engine),
                    },
                ),
            )
    } else {
        Script::new()
            .ask(
                Question::Teardown(
                    TeardownQuestion::LocalMgmtFile {
                        knobs: knobs.copy(),
                        engine: copy_optional(engine),
                    },
                ),
            )
    }
}

/// How the run goes on after: is the kind cluster among them?
pub open spec fn after_kind_present_spec(
    cfg: Config,
    knobs: TeardownConfigView,
    engine: Option<Seq<char>>,
    reply: ReplyView,
) -> ScriptView {
    if has_line_spec(reply.stdout, cfg.repo.bootstrap.kind_cluster@) {
        teardown_local_kind_spec(cfg, engine)
    } else {
        ScriptView::new()
            .ask(QuestionView::Teardown(TeardownQuestionView::LocalMgmtFile { knobs, engine }))
    }
}

/// How the run goes on after: is the kind cluster among them?
pub fn after_kind_present(
    cfg: &Config,
    knobs: &TeardownConfig,
    engine: &Option<String>,
    reply: &Reply,
) -> (s: Script)
    ensures
        s@ == after_kind_present_spec(*cfg, knobs@, optional(*engine), reply@),
{
    if has_line(reply.stdout.as_str(), cfg.repo.bootstrap.kind_cluster.as_str()) {
        teardown_local_kind(cfg, engine)
    } else {
        Script::new()
            .ask(
                Question::Teardown(
                    TeardownQuestion::LocalMgmtFile {
                        knobs: knobs.copy(),
                        engine: copy_optional(engine),
                    },
                ),
            )
    }
}

/// How the run goes on after: is there a kubeconfig of the self-managed local management cluster?
pub open spec fn after_local_mgmt_file_spec(
    cfg: Config,
    knobs: TeardownConfigView,
    engine: Option<Seq<char>>,
    reply: ReplyView,
) -> ScriptView {
    teardown_local_pivoted_spec(cfg, knobs, engine, reply.ok)
}

/// How the run goes on after: is there a kubeconfig of the self-managed local management cluster?
pub fn after_local_mgmt_file(
    cfg: &Config,
    knobs: &TeardownConfig,
    engine: &Option<String>,
    reply: &Reply,
) -> (s: Script)
    ensures
        s@ == after_local_mgmt_file_spec(*cfg, knobs@, optional(*engine), reply@),
{
    teardown_local_pivoted(cfg, knobs, engine, reply.ok)
}

/// How the run goes on after: could the kind cluster be deleted?
pub open spec fn after_kind_delete_spec(cfg: Config, reply: ReplyView) -> ScriptView {
    if reply.ok {
        ScriptView::new()
            .say("✓   kind cluster '"@ + cfg.repo.bootstrap.kind_cluster@ + "' deleted"@)
    } else {
        ScriptView::new()
            .report("!   kind cluster could not be deleted – it may already be gone"@)
    }
}

/// How the run goes on after: could the kind cluster be deleted?
pub fn after_kind_delete(cfg: &Config, reply: &Reply) -> (s: Script)
    ensures
        s@ == after_kind_delete_spec(*cfg, reply@),
{
    if reply.ok {
        Script::new()
            .say(cat3("✓   kind cluster '", cfg.repo.bootstrap.kind_cluster.as_str(), "' deleted"))
    } else {
        Script::new()
            .report("!   kind cluster could not be deleted – it may already be gone".to_owned())
    }
}

/// How the run goes on after: which containers does the engine have?
pub open spec fn after_mgmt_containers_spec(
    engine: Seq<char>,
    prefix: Seq<char>,
    reply: ReplyView,
) -> ScriptView {
    let found = prefixed_spec(reply.stdout, prefix);
    let shown = join_spec(found, ", "@);
    if found.len() == 0 {
        ScriptView::new()
            .say(">>> No '"@ + prefix + "*' containers found – management cluster already gone"@)
    } else {
        ScriptView::new()
            .say(">>> Removing self-managed management cluster containers: "@ + shown)
            .ask(
                QuestionView::Teardown(
                    TeardownQuestionView::ContainersRemoved { engine, names: found },
                ),
            )
    }
}

/// How the run goes on after: which containers does the engine have?
pub fn after_mgmt_containers(engine: &str, prefix: &str, reply: &Reply) -> (s: Script)
    ensures
        s@ == after_mgmt_containers_spec(engine@, prefix@, reply@),
{
    let found = prefixed(reply.stdout.as_str(), prefix);
    let shown = join(&found, ", ");
    if found.len() == 0 {
        Script::new()
            .say(cat3(">>> No '", prefix, "*' containers found – management cluster already gone"))
    } else {
        Script::new()
            .say(cat2(">>> Removing self-managed management cluster containers: ", shown.as_str()))
            .ask(
                Question::Teardown(
                    TeardownQuestion::ContainersRemoved {
                        engine: engine.to_owned(),
                        names: copy_texts(&found),
                    },
                ),
            )
    }
}

/// How the run goes on after: could the containers of the management cluster be removed?
pub open spec fn after_containers_removed_spec(reply: ReplyView) -> ScriptView {
    if reply.ok {
        ScriptView::new()
            .say("✓   management cluster containers removed"@)
    } else {
        ScriptView::new()
            .report("!   some management cluster containers could not be removed"@)
    }
}

/// How the run goes on after: could the containers of the management cluster be removed?
pub fn after_containers_removed(reply: &Reply) -> (s: Script)
    ensures
        s@ == after_containers_removed_spec(reply@),
{
    if reply.ok {
        Script::new()
            .say("✓   management cluster containers removed".to_owned())
    } else {
        Script::new()
            .report("!   some management cluster containers could not be removed".to_owned())
    }
}

/// How the run goes on after: is there a container of the registry to remove?
pub open spec fn after_registry_there_spec(
    engine: Seq<char>,
    name: Seq<char>,
    reply: ReplyView,
) -> ScriptView {
    if has_line_spec(reply.stdout, name) {
        ScriptView::new()
            .say(">>> Removing local registry container '"@ + name + "'..."@)
            .ask(QuestionView::Teardown(TeardownQuestionView::RegistryRemoved { engine, name }))
    } else {
        ScriptView::new()
    }
}

/// How the run goes on after: is there a container of the registry to remove?
pub fn after_registry_there(engine: &str, name: &str, reply: &Reply) -> (s: Script)
    ensures
        s@ == after_registry_there_spec(engine@, name@, reply@),
{
    if has_line(reply.stdout.as_str(), name) {
        Script::new()
            .say(cat3(">>> Removing local registry container '", name, "'..."))
            .ask(
                Question::Teardown(
                    TeardownQuestion::RegistryRemoved {
                        engine: engine.to_owned(),
                        name: name.to_owned(),
                    },
                ),
            )
    } else {
        Script::new()
    }
}

/// How the run goes on after: could the container of the registry be removed?
pub open spec fn after_registry_removed_spec(name: Seq<char>, reply: ReplyView) -> ScriptView {
    if reply.ok {
        ScriptView::new()
            .say("✓   registry container '"@ + name + "' removed"@)
    } else {
        ScriptView::new()
            .report("!   registry container could not be removed"@)
    }
}

/// How the run goes on after: could the container of the registry be removed?
pub fn after_registry_removed(name: &str, reply: &Reply) -> (s: Script)
    ensures
        s@ == after_registry_removed_spec(name@, reply@),
{
    if reply.ok {
        Script::new()
            .say(cat3("✓   registry container '", name, "' removed"))
    } else {
        Script::new()
            .report("!   registry container could not be removed".to_owned())
    }
}

/// How the run goes on once a question is answered.
pub open spec fn answer_spec(
    cfg: Config,
    question: TeardownQuestionView,
    reply: ReplyView,
) -> ScriptView {
    match question {
        TeardownQuestionView::AwsCli { knobs } => after_aws_cli_spec(cfg, knobs, reply),
        TeardownQuestionView::TeardownTool { tool } => after_teardown_tool_spec(tool, reply),
        TeardownQuestionView::Contexts { knobs, aws } => after_contexts_spec(
            cfg,
            knobs,
            aws,
            reply,
        ),
        TeardownQuestionView::KindInfo { knobs, aws } => after_kind_info_spec(
            cfg,
            knobs,
            aws,
            reply,
        ),
        TeardownQuestionView::MgmtFile { knobs, aws } => after_mgmt_file_spec(
            cfg,
            knobs,
            aws,
            reply,
        ),
        TeardownQuestionView::MgmtInfo { knobs, aws } => after_mgmt_info_spec(
            cfg,
            knobs,
            aws,
            reply,
        ),
        TeardownQuestionView::FluxKustomizations { target } => {
            after_flux_kustomizations_spec(target, reply)
        },
        TeardownQuestionView::Suspended { target, rest, failed, .. } => {
            after_suspended_spec(target, rest, failed, reply)
        },
        TeardownQuestionView::WorkloadState { target, cluster, timeout } => {
            after_workload_state_spec(target, cluster, timeout, reply)
        },
        TeardownQuestionView::WorkloadGone { target, cluster, timeout } => {
            after_workload_gone_spec(target, cluster, timeout, reply)
        },
        TeardownQuestionView::AwsClusters { target, mgmt_cluster, timeout, force } => {
            after_aws_clusters_spec(target, mgmt_cluster, timeout, force, reply)
        },
        TeardownQuestionView::AwsClustersGone { target, mgmt_cluster, timeout, force } => {
            after_aws_clusters_gone_spec(target, mgmt_cluster, timeout, force, reply)
        },
        TeardownQuestionView::HardwareClusters { target, timeout } => {
            after_hardware_clusters_spec(target, timeout, reply)
        },
        TeardownQuestionView::HardwareGone { target, timeout } => {
            after_hardware_gone_spec(target, timeout, reply)
        },
        TeardownQuestionView::Providers { target, timeout, kind, deleted } => {
            after_providers_spec(target, timeout, kind, deleted, reply)
        },
        TeardownQuestionView::ProvidersLeft { target, timeout, kind, remaining } => {
            after_providers_left_spec(target, timeout, kind, remaining, reply)
        },
        TeardownQuestionView::HelmStatus { target, release } => {
            after_helm_status_spec(target, release, reply)
        },
        TeardownQuestionView::HelmUninstall { release, .. } => {
            after_helm_uninstall_spec(release, reply)
        },
        TeardownQuestionView::KindAnswers { knobs, engine } => {
            after_kind_answers_spec(knobs, engine, reply)
        },
        TeardownQuestionView::KindPresent { knobs, engine } => {
            after_kind_present_spec(cfg, knobs, engine, reply)
        },
        TeardownQuestionView::LocalMgmtFile { knobs, engine } => {
            after_local_mgmt_file_spec(cfg, knobs, engine, reply)
        },
        TeardownQuestionView::KindDelete => after_kind_delete_spec(cfg, reply),
        TeardownQuestionView::MgmtContainers { engine, prefix } => {
            after_mgmt_containers_spec(engine, prefix, reply)
        },
        TeardownQuestionView::ContainersRemoved { .. } => after_containers_removed_spec(reply),
        TeardownQuestionView::RegistryThere { engine, name } => {
            after_registry_there_spec(engine, name, reply)
        },
        TeardownQuestionView::RegistryRemoved { name, .. } => {
            after_registry_removed_spec(name, reply)
        },
    }
}

/// How the run goes on once a question is answered.
pub fn answer(cfg: &Config, question: &TeardownQuestion, reply: &Reply) -> (s: Script)
    ensures
        s@ == answer_spec(*cfg, question@, reply@),
{
    match question {
        TeardownQuestion::AwsCli { knobs } => after_aws_cli(cfg, knobs, reply),
        TeardownQuestion::TeardownTool { tool } => after_teardown_tool(tool.as_str(), reply),
        TeardownQuestion::Contexts { knobs, aws } => after_contexts(cfg, knobs, *aws, reply),
        TeardownQuestion::KindInfo { knobs, aws } => after_kind_info(cfg, knobs, *aws, reply),
        TeardownQuestion::MgmtFile { knobs, aws } => after_mgmt_file(cfg, knobs, *aws, reply),
        TeardownQuestion::MgmtInfo { knobs, aws } => after_mgmt_info(cfg, knobs, *aws, reply),
        TeardownQuestion::FluxKustomizations { target } => after_flux_kustomizations(target, reply),
        TeardownQuestion::Suspended { target, rest, failed, .. } => {
            after_suspended(target, rest, *failed, reply)
        },
        TeardownQuestion::WorkloadState { target, cluster, timeout } => {
            after_workload_state(target, cluster.as_str(), *timeout, reply)
        },
        TeardownQuestion::WorkloadGone { target, cluster, timeout } => {
            after_workload_gone(target, cluster.as_str(), *timeout, reply)
        },
        TeardownQuestion::AwsClusters { target, mgmt_cluster, timeout, force } => {
            after_aws_clusters(target, mgmt_cluster.as_str(), *timeout, *force, reply)
        },
        TeardownQuestion::AwsClustersGone { target, mgmt_cluster, timeout, force } => {
            after_aws_clusters_gone(target, mgmt_cluster.as_str(), *timeout, *force, reply)
        },
        TeardownQuestion::HardwareClusters { target, timeout } => {
            after_hardware_clusters(target, *timeout, reply)
        },
        TeardownQuestion::HardwareGone { target, timeout } => {
            after_hardware_gone(target, *timeout, reply)
        },
        TeardownQuestion::Providers { target, timeout, kind, deleted } => {
            after_providers(target, *timeout, *kind, *deleted, reply)
        },
        TeardownQuestion::ProvidersLeft { target, timeout, kind, remaining } => {
            after_providers_left(target, *timeout, *kind, *remaining, reply)
        },
        TeardownQuestion::HelmStatus { target, release } => after_helm_status(
            target,
            release.as_str(),
            reply,
        ),
        TeardownQuestion::HelmUninstall { release, .. } => after_helm_uninstall(
            release.as_str(),
            reply,
        ),
        TeardownQuestion::KindAnswers { knobs, engine } => after_kind_answers(knobs, engine, reply),
        TeardownQuestion::KindPresent { knobs, engine } => after_kind_present(
            cfg,
            knobs,
            engine,
            reply,
        ),
        TeardownQuestion::LocalMgmtFile { knobs, engine } => {
            after_local_mgmt_file(cfg, knobs, engine, reply)
        },
        TeardownQuestion::KindDelete => after_kind_delete(cfg, reply),
        TeardownQuestion::MgmtContainers { engine, prefix } => {
            after_mgmt_containers(engine.as_str(), prefix.as_str(), reply)
        },
        TeardownQuestion::ContainersRemoved { .. } => after_containers_removed(reply),
        TeardownQuestion::RegistryThere { engine, name } => after_registry_there(
            engine.as_str(),
            name.as_str(),
            reply,
        ),
        TeardownQuestion::RegistryRemoved { name, .. } => after_registry_removed(
            name.as_str(),
            reply,
        ),
    }
}

/// A teardown from its first check on. An environment that declares its teardown manual is refused
/// before anything else.
pub open spec fn run_teardown_spec(cfg: Config, knobs: TeardownConfigView) -> ScriptView {
    match manual_teardown_refusal_spec(cfg.profile@, cfg.environment.teardown) {
        Some(refusal) => {
            ScriptView::new()
                .fail(refusal)
        },
        None => {
            ScriptView::new()
                .perform(ActionView::SetVar("AWS_PAGER"@, ""@), RuleView::Ignore)
                .ask(QuestionView::Teardown(TeardownQuestionView::AwsCli { knobs }))
        },
    }
}

/// A teardown from its first check on. An environment that declares its teardown manual is refused
/// before anything else.
pub fn run_teardown(cfg: &Config, knobs: &TeardownConfig) -> (s: Script)
    ensures
        s@ == run_teardown_spec(*cfg, knobs@),
{
    match manual_teardown_refusal(cfg.profile.as_str(), &cfg.environment.teardown) {
        Some(refusal) => {
            Script::new()
                .fail(refusal.clone())
        },
        None => {
            Script::new()
                .perform(Action::SetVar("AWS_PAGER".to_owned(), "".to_owned()), Rule::Ignore)
                .ask(Question::Teardown(TeardownQuestion::AwsCli { knobs: knobs.copy() }))
        },
    }
}

/// Says whether there is an AWS CLI.
pub open spec fn aws_cli_note_spec(aws: bool) -> ScriptView {
    if aws {
        ScriptView::new()
            .say(">>> aws CLI available"@)
    } else {
        ScriptView::new()
            .report("!   aws CLI not found – AWS orphan cleanup (step 4) will be skipped"@)
    }
}

/// Says whether there is an AWS CLI.
pub fn aws_cli_note(aws: bool) -> (s: Script)
    ensures
        s@ == aws_cli_note_spec(aws),
{
    if aws {
        Script::new()
            .say(">>> aws CLI available".to_owned())
    } else {
        Script::new()
            .report(
                "!   aws CLI not found – AWS orphan cleanup (step 4) will be skipped".to_owned(),
            )
    }
}

/// The tools that the mode of the teardown needs. A missing tool ends the run before anything is
/// destroyed.
pub open spec fn teardown_preflight_spec(
    cfg: Config,
    knobs: TeardownConfigView,
    aws: bool,
) -> ScriptView {
    if knobs.aws_only {
        if aws {
            ScriptView::new()
                .say(">>> AWS_ONLY mode – k8s tools not required"@)
                .join(teardown_mode_spec(cfg, knobs, aws))
        } else {
            ScriptView::new()
                .fail("aws CLI not found in PATH (required for AWS_ONLY mode)"@)
        }
    } else if cfg.is_local_spec() {
        ScriptView::new()
            .ask(QuestionView::Teardown(TeardownQuestionView::TeardownTool { tool: "kind"@ }))
            .ask(QuestionView::Teardown(TeardownQuestionView::TeardownTool { tool: "kubectl"@ }))
            .join(
                if aws {
                    ScriptView::new()
                } else {
                    ScriptView::new()
                        .report(
                            "!   aws CLI not found – AWS orphan cleanup (step 4) will be skipped"@,
                        )
                },
            )
            .join(teardown_mode_spec(cfg, knobs, aws))
    } else if cfg.environment.teardown.hardware_release {
        ScriptView::new()
            .ask(QuestionView::Teardown(TeardownQuestionView::TeardownTool { tool: "kind"@ }))
            .ask(QuestionView::Teardown(TeardownQuestionView::TeardownTool { tool: "kubectl"@ }))
            .join(aws_cli_note_spec(aws))
            .join(teardown_mode_spec(cfg, knobs, aws))
    } else {
        ScriptView::new()
            .ask(QuestionView::Teardown(TeardownQuestionView::TeardownTool { tool: "kind"@ }))
            .ask(QuestionView::Teardown(TeardownQuestionView::TeardownTool { tool: "helm"@ }))
            .ask(QuestionView::Teardown(TeardownQuestionView::TeardownTool { tool: "kubectl"@ }))
            .ask(QuestionView::Teardown(TeardownQuestionView::TeardownTool { tool: "xargs"@ }))
            .join(aws_cli_note_spec(aws))
            .join(teardown_mode_spec(cfg, knobs, aws))
    }
}

/// The tools that the mode of the teardown needs. A missing tool ends the run before anything is
/// destroyed.
pub fn teardown_preflight(cfg: &Config, knobs: &TeardownConfig, aws: bool) -> (s: Script)
    ensures
        s@ == teardown_preflight_spec(*cfg, knobs@, aws),
{
    if knobs.aws_only {
        if aws {
            Script::new()
                .say(">>> AWS_ONLY mode – k8s tools not required".to_owned())
                .join(teardown_mode(cfg, knobs, aws))
        } else {
            Script::new()
                .fail("aws CLI not found in PATH (required for AWS_ONLY mode)".to_owned())
        }
    } else if cfg.is_local() {
        Script::new()
            .ask(Question::Teardown(TeardownQuestion::TeardownTool { tool: "kind".to_owned() }))
            .ask(Question::Teardown(TeardownQuestion::TeardownTool { tool: "kubectl".to_owned() }))
            .join(
                if aws {
                    Script::new()
                } else {
                    Script::new()
                        .report(
                            "!   aws CLI not found – AWS orphan cleanup (step 4) will be skipped".to_owned(),
                        )
                },
            )
            .join(teardown_mode(cfg, knobs, aws))
    } else if cfg.environment.teardown.hardware_release {
        Script::new()
            .ask(Question::Teardown(TeardownQuestion::TeardownTool { tool: "kind".to_owned() }))
            .ask(Question::Teardown(TeardownQuestion::TeardownTool { tool: "kubectl".to_owned() }))
            .join(aws_cli_note(aws))
            .join(teardown_mode(cfg, knobs, aws))
    } else {
        Script::new()
            .ask(Question::Teardown(TeardownQuestion::TeardownTool { tool: "kind".to_owned() }))
            .ask(Question::Teardown(TeardownQuestion::TeardownTool { tool: "helm".to_owned() }))
            .ask(Question::Teardown(TeardownQuestion::TeardownTool { tool: "kubectl".to_owned() }))
            .ask(Question::Teardown(TeardownQuestion::TeardownTool { tool: "xargs".to_owned() }))
            .join(aws_cli_note(aws))
            .join(teardown_mode(cfg, knobs, aws))
    }
}

/// The teardown of the local environment, of bare metal, or of AWS.
pub open spec fn teardown_mode_spec(
    cfg: Config,
    knobs: TeardownConfigView,
    aws: bool,
) -> ScriptView {
    if cfg.is_local_spec() {
        if knobs.aws_only {
            ScriptView::new()
                .fail(
                    "AWS_ONLY=1 cannot be combined with the local-host profile\n       Use the AWS profile for AWS-only orphan cleanup"@,
                )
        } else {
            detect_engine_spec(cfg, knobs)
        }
    } else if cfg.environment.teardown.hardware_release {
        if knobs.aws_only {
            ScriptView::new()
                .fail(
                    "AWS_ONLY=1 cannot be combined with the local-talos profile\n       There is no AWS orphan sweep for operator-owned hardware"@,
                )
        } else {
            discover_controller_host_spec(knobs, aws)
        }
    } else if knobs.aws_only {
        teardown_aws_spec(cfg, knobs, aws, ControllerHost::Unreachable)
    } else {
        discover_controller_host_spec(knobs, aws)
    }
}

/// The teardown of the local environment, of bare metal, or of AWS.
pub fn teardown_mode(cfg: &Config, knobs: &TeardownConfig, aws: bool) -> (s: Script)
    ensures
        s@ == teardown_mode_spec(*cfg, knobs@, aws),
{
    if cfg.is_local() {
        if knobs.aws_only {
            Script::new()
                .fail(
                    "AWS_ONLY=1 cannot be combined with the local-host profile\n       Use the AWS profile for AWS-only orphan cleanup".to_owned(),
                )
        } else {
            detect_engine(cfg, knobs)
        }
    } else if cfg.environment.teardown.hardware_release {
        if knobs.aws_only {
            Script::new()
                .fail(
                    "AWS_ONLY=1 cannot be combined with the local-talos profile\n       There is no AWS orphan sweep for operator-owned hardware".to_owned(),
                )
        } else {
            discover_controller_host(knobs, aws)
        }
    } else if knobs.aws_only {
        teardown_aws(cfg, knobs, aws, ControllerHost::Unreachable)
    } else {
        discover_controller_host(knobs, aws)
    }
}

/// Finds out where the CAPI controllers run: in the kind cluster, where it has a context and
/// answers; else in the management cluster, where its kubeconfig exists and it answers; else
/// nowhere.
pub open spec fn discover_controller_host_spec(knobs: TeardownConfigView, aws: bool) -> ScriptView {
    ScriptView::new()
        .ask(QuestionView::Teardown(TeardownQuestionView::Contexts { knobs, aws }))
}

/// Finds out where the CAPI controllers run: in the kind cluster, where it has a context and
/// answers; else in the management cluster, where its kubeconfig exists and it answers; else
/// nowhere.
pub fn discover_controller_host(knobs: &TeardownConfig, aws: bool) -> (s: Script)
    ensures
        s@ == discover_controller_host_spec(knobs@, aws),
{
    Script::new()
        .ask(Question::Teardown(TeardownQuestion::Contexts { knobs: knobs.copy(), aws }))
}

/// The teardown once it is known where the controllers run.
pub open spec fn host_found_spec(
    cfg: Config,
    knobs: TeardownConfigView,
    aws: bool,
    host: ControllerHost,
) -> ScriptView {
    if cfg.environment.teardown.hardware_release {
        release_hardware_spec(cfg, knobs, host)
    } else {
        teardown_aws_spec(cfg, knobs, aws, host)
    }
}

/// The teardown once it is known where the controllers run.
pub fn host_found(
    cfg: &Config,
    knobs: &TeardownConfig,
    aws: bool,
    host: ControllerHost,
) -> (s: Script)
    ensures
        s@ == host_found_spec(*cfg, knobs@, aws, host),
{
    if cfg.environment.teardown.hardware_release {
        release_hardware(cfg, knobs, host)
    } else {
        teardown_aws(cfg, knobs, aws, host)
    }
}

/// Suspends the Flux Kustomizations of the controller host, so that nothing recreates what is
/// deleted.
pub open spec fn suspend_flux_spec(target: K8sTargetView) -> ScriptView {
    ScriptView::new()
        .say(">>> Suspending Flux Kustomizations to prevent re-reconciliation..."@)
        .ask(QuestionView::Teardown(TeardownQuestionView::FluxKustomizations { target }))
}

/// Suspends the Flux Kustomizations of the controller host, so that nothing recreates what is
/// deleted.
pub fn suspend_flux(target: &K8sTarget) -> (s: Script)
    ensures
        s@ == suspend_flux_spec(target@),
{
    Script::new()
        .say(">>> Suspending Flux Kustomizations to prevent re-reconciliation...".to_owned())
        .ask(Question::Teardown(TeardownQuestion::FluxKustomizations { target: target.copy() }))
}

/// Deletes the CAPD workload clusters, each with a wait until it is gone.
pub open spec fn delete_capi_workloads_spec(
    target: K8sTargetView,
    workloads: Seq<Seq<char>>,
    timeout: u64,
) -> ScriptView {
    ScriptView::new()
        .join(
            for_each_spec(
                workloads,
                |item: Seq<char>| delete_capi_workload_spec(item, target, timeout),
            ),
        )
}

/// Deletes the CAPD workload clusters, each with a wait until it is gone.
pub fn delete_capi_workloads(
    target: &K8sTarget,
    workloads: &Vec<String>,
    timeout: u64,
) -> (s: Script)
    ensures
        s@ == delete_capi_workloads_spec(target@, texts(workloads@), timeout),
{
    Script::new()
        .join(for_each(
            workloads,
            |item: &str| -> (s: Script)
                ensures
                    s@ == delete_capi_workload_spec(item@, target@, timeout)
                { delete_capi_workload(item, target, timeout) },
            Ghost(|item: Seq<char>| delete_capi_workload_spec(item, target@, timeout)),
        ))
}

/// Deletes one CAPD workload cluster and waits until it is gone.
pub open spec fn delete_capi_workload_spec(
    cluster: Seq<char>,
    target: K8sTargetView,
    timeout: u64,
) -> ScriptView {
    ScriptView::new()
        .say(">>> Deleting CAPD workload cluster '"@ + cluster + "'..."@)
        .ask(
            QuestionView::Teardown(
                TeardownQuestionView::WorkloadState { target, cluster, timeout },
            ),
        )
}

/// Deletes one CAPD workload cluster and waits until it is gone.
pub fn delete_capi_workload(cluster: &str, target: &K8sTarget, timeout: u64) -> (s: Script)
    ensures
        s@ == delete_capi_workload_spec(cluster@, target@, timeout),
{
    Script::new()
        .say(cat3(">>> Deleting CAPD workload cluster '", cluster, "'..."))
        .ask(
            Question::Teardown(
                TeardownQuestion::WorkloadState {
                    target: target.copy(),
                    cluster: cluster.to_owned(),
                    timeout,
                },
            ),
        )
}

/// Deletes every CAPI cluster but the management cluster, and waits until only that is left.
pub open spec fn delete_aws_workload_clusters_spec(
    target: K8sTargetView,
    mgmt_cluster: Seq<char>,
    timeout: u64,
    force: bool,
) -> ScriptView {
    ScriptView::new()
        .say(">>> Discovering CAPI Cluster resources..."@)
        .ask(
            QuestionView::Teardown(
                TeardownQuestionView::AwsClusters { target, mgmt_cluster, timeout, force },
            ),
        )
}

/// Deletes every CAPI cluster but the management cluster, and waits until only that is left.
pub fn delete_aws_workload_clusters(
    target: &K8sTarget,
    mgmt_cluster: &str,
    timeout: u64,
    force: bool,
) -> (s: Script)
    ensures
        s@ == delete_aws_workload_clusters_spec(target@, mgmt_cluster@, timeout, force),
{
    Script::new()
        .say(">>> Discovering CAPI Cluster resources...".to_owned())
        .ask(
            Question::Teardown(
                TeardownQuestion::AwsClusters {
                    target: target.copy(),
                    mgmt_cluster: mgmt_cluster.to_owned(),
                    timeout,
                    force,
                },
            ),
        )
}

/// Deletes one CAPI cluster.
pub open spec fn delete_cluster_spec(cluster: Seq<char>, target: K8sTargetView) -> ScriptView {
    ScriptView::new()
        .say(">>>   Deleting cluster: "@ + cluster)
        .perform(
            ActionView::Run(
                kubectl_on_spec(target)
                    .arg("delete"@).arg("cluster"@).arg(cluster).arg("--ignore-not-found"@),
            ),
            RuleView::Ignore,
        )
}

/// Deletes one CAPI cluster.
pub fn delete_cluster(cluster: &str, target: &K8sTarget) -> (s: Script)
    ensures
        s@ == delete_cluster_spec(cluster@, target@),
{
    Script::new()
        .say(cat2(">>>   Deleting cluster: ", cluster))
        .perform(
            Action::Run(
                kubectl_on(target)
                    .arg("delete").arg("cluster").arg(cluster).arg("--ignore-not-found"),
            ),
            Rule::Ignore,
        )
}

/// Deletes one CAPI cluster, which releases its hardware.
pub open spec fn release_cluster_spec(cluster: Seq<char>, target: K8sTargetView) -> ScriptView {
    ScriptView::new()
        .say(">>> Deleting CAPI cluster '"@ + cluster + "' (Hardware release)..."@)
        .perform(
            ActionView::Run(
                kubectl_on_spec(target)
                    .arg("delete"@).arg("cluster"@).arg(cluster).arg("--ignore-not-found"@),
            ),
            RuleView::Ignore,
        )
}

/// Deletes one CAPI cluster, which releases its hardware.
pub fn release_cluster(cluster: &str, target: &K8sTarget) -> (s: Script)
    ensures
        s@ == release_cluster_spec(cluster@, target@),
{
    Script::new()
        .say(cat3(">>> Deleting CAPI cluster '", cluster, "' (Hardware release)..."))
        .perform(
            Action::Run(
                kubectl_on(target)
                    .arg("delete").arg("cluster").arg(cluster).arg("--ignore-not-found"),
            ),
            Rule::Ignore,
        )
}

/// What becomes of a teardown whose workload clusters are not confirmed gone: it ends, unless the
/// removal of the controller host is forced.
pub open spec fn unconfirmed_spec(force: bool) -> ScriptView {
    if force {
        ScriptView::new()
    } else {
        ScriptView::new()
            .fail(
                "teardown aborted: CAPI workload clusters did not finish deleting; the management cluster and CAPA controller were left intact so AWS resources can continue deprovisioning"@,
            )
    }
}

/// What becomes of a teardown whose workload clusters are not confirmed gone: it ends, unless the
/// removal of the controller host is forced.
pub fn unconfirmed(force: bool) -> (s: Script)
    ensures
        s@ == unconfirmed_spec(force),
{
    if force {
        Script::new()
    } else {
        Script::new()
            .fail(
                "teardown aborted: CAPI workload clusters did not finish deleting; the management cluster and CAPA controller were left intact so AWS resources can continue deprovisioning".to_owned(),
            )
    }
}

/// Asks for the providers of the next kind, or waits for those that were deleted.
pub open spec fn next_provider_spec(
    target: K8sTargetView,
    timeout: u64,
    kind: ProviderKind,
    deleted: bool,
) -> ScriptView {
    match kind.next_spec() {
        Some(next) => {
            ScriptView::new()
                .ask(
                    QuestionView::Teardown(
                        TeardownQuestionView::Providers { target, timeout, kind: next, deleted },
                    ),
                )
        },
        None => {
            if deleted {
                ScriptView::new()
                    .say(
                        ">>> Waiting up to "@ + decimal_spec(
                            timeout as int,
                        ) + "s for CAPI providers to be removed..."@,
                    )
                    .perform(ActionView::Clock, RuleView::Ignore)
                    .ask(
                        QuestionView::Teardown(
                            TeardownQuestionView::ProvidersLeft {
                                target,
                                timeout,
                                kind: ProviderKind::Addon,
                                remaining: 0,
                            },
                        ),
                    )
            } else {
                ScriptView::new()
                    .say("!   CAPI Operator CRDs not present – skipping provider deletion"@)
            }
        },
    }
}

/// Asks for the providers of the next kind, or waits for those that were deleted.
pub fn next_provider(
    target: &K8sTarget,
    timeout: u64,
    kind: ProviderKind,
    deleted: bool,
) -> (s: Script)
    ensures
        s@ == next_provider_spec(target@, timeout, kind, deleted),
{
    match kind.next() {
        Some(next) => {
            Script::new()
                .ask(
                    Question::Teardown(
                        TeardownQuestion::Providers {
                            target: target.copy(),
                            timeout,
                            kind: next,
                            deleted,
                        },
                    ),
                )
        },
        None => {
            if deleted {
                Script::new()
                    .say(
                        cat3(
                            ">>> Waiting up to ",
                            decimal(timeout as u64).as_str(),
                            "s for CAPI providers to be removed...",
                        ),
                    )
                    .perform(Action::Clock, Rule::Ignore)
                    .ask(
                        Question::Teardown(
                            TeardownQuestion::ProvidersLeft {
                                target: target.copy(),
                                timeout,
                                kind: ProviderKind::Addon,
                                remaining: 0,
                            },
                        ),
                    )
            } else {
                Script::new()
                    .say(
                        "!   CAPI Operator CRDs not present – skipping provider deletion".to_owned(),
                    )
            }
        },
    }
}

/// Counts the providers of the next kind, or decides once all are counted.
pub open spec fn next_count_spec(
    target: K8sTargetView,
    timeout: u64,
    kind: ProviderKind,
    total: u64,
    elapsed: u64,
) -> ScriptView {
    match kind.next_spec() {
        Some(next) => {
            ScriptView::new()
                .ask(
                    QuestionView::Teardown(
                        TeardownQuestionView::ProvidersLeft {
                            target,
                            timeout,
                            kind: next,
                            remaining: total,
                        },
                    ),
                )
        },
        None => {
            if total == 0 {
                ScriptView::new()
                    .say("✓   All CAPI providers removed"@)
            } else if elapsed >= timeout {
                ScriptView::new()
                    .report(
                        "!   Timed out waiting for CAPI providers to be removed – continuing anyway"@,
                    )
            } else {
                ScriptView::new()
                    .say(">>>   "@ + decimal_spec(total as int) + " provider(s) still removing..."@)
                    .perform(ActionView::Sleep(15), RuleView::Ignore)
                    .ask(
                        QuestionView::Teardown(
                            TeardownQuestionView::ProvidersLeft {
                                target,
                                timeout,
                                kind: ProviderKind::Addon,
                                remaining: 0,
                            },
                        ),
                    )
            }
        },
    }
}

/// Counts the providers of the next kind, or decides once all are counted.
pub fn next_count(
    target: &K8sTarget,
    timeout: u64,
    kind: ProviderKind,
    total: u64,
    elapsed: u64,
) -> (s: Script)
    ensures
        s@ == next_count_spec(target@, timeout, kind, total, elapsed),
{
    match kind.next() {
        Some(next) => {
            Script::new()
                .ask(
                    Question::Teardown(
                        TeardownQuestion::ProvidersLeft {
                            target: target.copy(),
                            timeout,
                            kind: next,
                            remaining: total,
                        },
                    ),
                )
        },
        None => {
            if total == 0 {
                Script::new()
                    .say("✓   All CAPI providers removed".to_owned())
            } else if elapsed >= timeout {
                Script::new()
                    .report(
                        "!   Timed out waiting for CAPI providers to be removed – continuing anyway".to_owned(),
                    )
            } else {
                Script::new()
                    .say(
                        cat3(
                            ">>>   ",
                            decimal(total as u64).as_str(),
                            " provider(s) still removing...",
                        ),
                    )
                    .perform(Action::Sleep(15), Rule::Ignore)
                    .ask(
                        Question::Teardown(
                            TeardownQuestion::ProvidersLeft {
                                target: target.copy(),
                                timeout,
                                kind: ProviderKind::Addon,
                                remaining: 0,
                            },
                        ),
                    )
            }
        },
    }
}

/// Deletes the CAPI providers and waits until they are removed.
pub open spec fn delete_capi_providers_spec(target: K8sTargetView, timeout: u64) -> ScriptView {
    ScriptView::new()
        .say(">>> Deleting CAPI providers..."@)
        .ask(
            QuestionView::Teardown(
                TeardownQuestionView::Providers {
                    target,
                    timeout,
                    kind: ProviderKind::Addon,
                    deleted: false,
                },
            ),
        )
}

/// Deletes the CAPI providers and waits until they are removed.
pub fn delete_capi_providers(target: &K8sTarget, timeout: u64) -> (s: Script)
    ensures
        s@ == delete_capi_providers_spec(target@, timeout),
{
    Script::new()
        .say(">>> Deleting CAPI providers...".to_owned())
        .ask(
            Question::Teardown(
                TeardownQuestion::Providers {
                    target: target.copy(),
                    timeout,
                    kind: ProviderKind::Addon,
                    deleted: false,
                },
            ),
        )
}

/// Uninstalls one Helm release.
pub open spec fn uninstall_helm_spec(release: Seq<char>, target: K8sTargetView) -> ScriptView {
    ScriptView::new()
        .say(">>> Uninstalling "@ + release + " Helm release..."@)
        .ask(QuestionView::Teardown(TeardownQuestionView::HelmStatus { target, release }))
}

/// Uninstalls one Helm release.
pub fn uninstall_helm(release: &str, target: &K8sTarget) -> (s: Script)
    ensures
        s@ == uninstall_helm_spec(release@, target@),
{
    Script::new()
        .say(cat3(">>> Uninstalling ", release, " Helm release..."))
        .ask(
            Question::Teardown(
                TeardownQuestion::HelmStatus { target: target.copy(), release: release.to_owned() },
            ),
        )
}

/// Deletes one bootstrap Secret.
pub open spec fn delete_secret_spec(
    cfg: Config,
    secret: Seq<char>,
    target: K8sTargetView,
) -> ScriptView {
    let namespace = secret_namespace_spec(cfg, secret);
    ScriptView::new()
        .perform(
            ActionView::Run(
                kubectl_on_spec(target)
                    .arg("delete"@).arg("secret"@).arg(secret).arg("-n"@).arg(namespace)
                    .arg("--ignore-not-found"@),
            ),
            RuleView::Ignore,
        )
}

/// Deletes one bootstrap Secret.
pub fn delete_secret(cfg: &Config, secret: &str, target: &K8sTarget) -> (s: Script)
    ensures
        s@ == delete_secret_spec(*cfg, secret@, target@),
{
    let namespace = secret_namespace(cfg, secret);
    Script::new()
        .perform(
            Action::Run(
                kubectl_on(target)
                    .arg("delete").arg("secret").arg(secret).arg("-n").arg(namespace.as_str())
                    .arg("--ignore-not-found"),
            ),
            Rule::Ignore,
        )
}

/// Uninstalls the bootstrap Helm releases and deletes the bootstrap Secrets.
pub open spec fn uninstall_helm_and_secrets_spec(cfg: Config, target: K8sTargetView) -> ScriptView {
    ScriptView::new()
        .join(uninstall_helm_spec("flux"@, target))
        .join(uninstall_helm_spec("flux-operator"@, target))
        .say(">>> Deleting GitHub PAT and SOPS age secrets..."@)
        .join(delete_secret_spec(cfg, cfg.repo.bootstrap.github_pat_secret@, target))
        .join(delete_secret_spec(cfg, cfg.repo.bootstrap.sops_age_secret@, target))
        .join(delete_secret_spec(cfg, "aws-credentials"@, target))
        .say("✓   Secrets deleted (or were already absent)"@)
}

/// Uninstalls the bootstrap Helm releases and deletes the bootstrap Secrets.
pub fn uninstall_helm_and_secrets(cfg: &Config, target: &K8sTarget) -> (s: Script)
    ensures
        s@ == uninstall_helm_and_secrets_spec(*cfg, target@),
{
    Script::new()
        .join(uninstall_helm("flux", target))
        .join(uninstall_helm("flux-operator", target))
        .say(">>> Deleting GitHub PAT and SOPS age secrets...".to_owned())
        .join(delete_secret(cfg, cfg.repo.bootstrap.github_pat_secret.as_str(), target))
        .join(delete_secret(cfg, cfg.repo.bootstrap.sops_age_secret.as_str(), target))
        .join(delete_secret(cfg, "aws-credentials", target))
        .say("✓   Secrets deleted (or were already absent)".to_owned())
}

/// Removes the containers of the self-managed local management cluster.
pub open spec fn remove_local_mgmt_containers_spec(
    engine: Seq<char>,
    prefix: Seq<char>,
) -> ScriptView {
    ScriptView::new()
        .ask(QuestionView::Teardown(TeardownQuestionView::MgmtContainers { engine, prefix }))
}

/// Removes the containers of the self-managed local management cluster.
pub fn remove_local_mgmt_containers(engine: &str, prefix: &str) -> (s: Script)
    ensures
        s@ == remove_local_mgmt_containers_spec(engine@, prefix@),
{
    Script::new()
        .ask(
            Question::Teardown(
                TeardownQuestion::MgmtContainers {
                    engine: engine.to_owned(),
                    prefix: prefix.to_owned(),
                },
            ),
        )
}

/// Removes the container of the local registry, where there is an engine.
pub open spec fn remove_registry_container_spec(
    engine: Option<Seq<char>>,
    name: Seq<char>,
) -> ScriptView {
    match engine {
        Some(engine) => {
            ScriptView::new()
                .ask(QuestionView::Teardown(TeardownQuestionView::RegistryThere { engine, name }))
        },
        None => {
            ScriptView::new()
                .say("!   Container engine unavailable; registry cleanup skipped"@)
        },
    }
}

/// Removes the container of the local registry, where there is an engine.
pub fn remove_registry_container(engine: &Option<String>, name: &str) -> (s: Script)
    ensures
        s@ == remove_registry_container_spec(optional(*engine), name@),
{
    match engine {
        Some(engine) => {
            Script::new()
                .ask(
                    Question::Teardown(
                        TeardownQuestion::RegistryThere {
                            engine: engine.clone(),
                            name: name.to_owned(),
                        },
                    ),
                )
        },
        None => {
            Script::new()
                .say("!   Container engine unavailable; registry cleanup skipped".to_owned())
        },
    }
}

/// The end of a teardown.
pub open spec fn closing_spec() -> ScriptView {
    ScriptView::new()
        .say(""@)
        .say("✓ Teardown complete."@)
}

/// The end of a teardown.
pub fn closing() -> (s: Script)
    ensures
        s@ == closing_spec(),
{
    Script::new()
        .say("".to_owned())
        .say("✓ Teardown complete.".to_owned())
}

/// The teardown of the local environment.
pub open spec fn teardown_local_spec(
    cfg: Config,
    knobs: TeardownConfigView,
    engine: Option<Seq<char>>,
) -> ScriptView {
    ScriptView::new()
        .ask(QuestionView::Teardown(TeardownQuestionView::KindAnswers { knobs, engine }))
}

/// The teardown of the local environment.
pub fn teardown_local(cfg: &Config, knobs: &TeardownConfig, engine: &Option<String>) -> (s: Script)
    ensures
        s@ == teardown_local_spec(*cfg, knobs@, optional(*engine)),
{
    Script::new()
        .ask(
            Question::Teardown(
                TeardownQuestion::KindAnswers {
                    knobs: knobs.copy(),
                    engine: copy_optional(engine),
                },
            ),
        )
}

/// Lets the toolbox reach the kind cluster, where there is an engine.
pub open spec fn enter_with_spec(cfg: Config, engine: Option<Seq<char>>) -> ScriptView {
    if cfg.toolbox {
        match engine {
            Some(engine) => {
                ScriptView::new()
                    .join(toolbox_join_kind_network_spec(cfg, engine))
                    .join(select_toolbox_kind_kubeconfig_spec(cfg))
            },
            None => {
                ScriptView::new()
            },
        }
    } else {
        ScriptView::new()
    }
}

/// Lets the toolbox reach the kind cluster, where there is an engine.
pub fn enter_with(cfg: &Config, engine: &Option<String>) -> (s: Script)
    ensures
        s@ == enter_with_spec(*cfg, optional(*engine)),
{
    if cfg.toolbox {
        match engine {
            Some(engine) => {
                Script::new()
                    .join(toolbox_join_kind_network(cfg, engine.as_str()))
                    .join(select_toolbox_kind_kubeconfig(cfg))
            },
            None => {
                Script::new()
            },
        }
    } else {
        Script::new()
    }
}

/// Detaches the toolbox from the kind network, where there is an engine.
pub open spec fn exit_with_spec(cfg: Config, engine: Option<Seq<char>>) -> ScriptView {
    if cfg.toolbox {
        match engine {
            Some(engine) => {
                toolbox_leave_kind_network_spec(cfg, engine)
            },
            None => {
                ScriptView::new()
            },
        }
    } else {
        ScriptView::new()
    }
}

/// Detaches the toolbox from the kind network, where there is an engine.
pub fn exit_with(cfg: &Config, engine: &Option<String>) -> (s: Script)
    ensures
        s@ == exit_with_spec(*cfg, optional(*engine)),
{
    if cfg.toolbox {
        match engine {
            Some(engine) => {
                toolbox_leave_kind_network(cfg, engine.as_str())
            },
            None => {
                Script::new()
            },
        }
    } else {
        Script::new()
    }
}

/// Suspends the Kustomization of the workload cluster, so that Flux does not create the cluster anew
/// while its machines are removed.
pub open spec fn suspend_workload_spec(target: K8sTargetView) -> ScriptView {
    ScriptView::new()
        .perform(
            ActionView::Run(
                kubectl_on_spec(target)
                    .arg("patch"@).arg("kustomization/docker-workload-cluster"@).arg("-n"@)
                    .arg("flux-system"@).arg("--type"@).arg("merge"@).arg("-p"@)
                    .arg("{\"spec\":{\"suspend\":true}}"@),
            ),
            RuleView::Ignore,
        )
}

/// Suspends the Kustomization of the workload cluster, so that Flux does not create the cluster anew
/// while its machines are removed.
pub fn suspend_workload(target: &K8sTarget) -> (s: Script)
    ensures
        s@ == suspend_workload_spec(target@),
{
    Script::new()
        .perform(
            Action::Run(
                kubectl_on(target)
                    .arg("patch").arg("kustomization/docker-workload-cluster").arg("-n")
                    .arg("flux-system").arg("--type").arg("merge").arg("-p")
                    .arg("{\"spec\":{\"suspend\":true}}"),
            ),
            Rule::Ignore,
        )
}

/// The teardown of the local environment before the pivot: the workload clusters, then the kind
/// cluster.
pub open spec fn teardown_local_kind_spec(cfg: Config, engine: Option<Seq<char>>) -> ScriptView {
    let target = K8sTargetView::Kind { context: cfg.repo.bootstrap.kind_context@ };
    ScriptView::new()
        .join(enter_with_spec(cfg, engine))
        .perform(
            ActionView::Run(
                command("kubectl"@)
                    .arg("config"@).arg("use-context"@).arg(cfg.repo.bootstrap.kind_context@),
            ),
            RuleView::Ignore,
        )
        .join(suspend_workload_spec(target))
        .join(
            delete_capi_workloads_spec(
                target,
                texts(cfg.environment.teardown.capi_workloads@),
                300,
            ),
        )
        .say(">>> Deleting kind management cluster '"@ + cfg.repo.bootstrap.kind_cluster@ + "'..."@)
        .join(exit_with_spec(cfg, engine))
        .ask(QuestionView::Teardown(TeardownQuestionView::KindDelete))
        .join(remove_registry_container_spec(engine, cfg.repo.bootstrap.registry_name@))
        .join(closing_spec())
}

/// The teardown of the local environment before the pivot: the workload clusters, then the kind
/// cluster.
pub fn teardown_local_kind(cfg: &Config, engine: &Option<String>) -> (s: Script)
    ensures
        s@ == teardown_local_kind_spec(*cfg, optional(*engine)),
{
    let target = K8sTarget::Kind { context: cfg.repo.bootstrap.kind_context.clone() };
    Script::new()
        .join(enter_with(cfg, engine))
        .perform(
            Action::Run(
                Command::new("kubectl")
                    .arg("config").arg("use-context").arg(cfg.repo.bootstrap.kind_context.as_str()),
            ),
            Rule::Ignore,
        )
        .join(suspend_workload(&target))
        .join(delete_capi_workloads(&target, &cfg.environment.teardown.capi_workloads, 300))
        .say(
            cat3(
                ">>> Deleting kind management cluster '",
                cfg.repo.bootstrap.kind_cluster.as_str(),
                "'...",
            ),
        )
        .join(exit_with(cfg, engine))
        .ask(Question::Teardown(TeardownQuestion::KindDelete))
        .join(remove_registry_container(engine, cfg.repo.bootstrap.registry_name.as_str()))
        .join(closing())
}

/// The teardown of the local environment after the pivot: the workload clusters, then the
/// containers of the management cluster.
pub open spec fn teardown_local_pivoted_spec(
    cfg: Config,
    knobs: TeardownConfigView,
    engine: Option<Seq<char>>,
    reachable: bool,
) -> ScriptView {
    let target = K8sTargetView::SelfManaged { kubeconfig: knobs.mgmt_kubeconfig };
    ScriptView::new()
        .join(
            if reachable {
                ScriptView::new()
                    .join(suspend_workload_spec(target))
                    .join(
                        delete_capi_workloads_spec(
                            target,
                            texts(cfg.environment.teardown.capi_workloads@),
                            300,
                        ),
                    )
            } else {
                ScriptView::new()
                    .say(">>> No reachable management cluster; skipping CAPI workload deletion"@)
            },
        )
        .join(remove_mgmt_containers_spec(cfg, engine))
        .join(remove_registry_container_spec(engine, cfg.repo.bootstrap.registry_name@))
        .join(closing_spec())
}

/// The teardown of the local environment after the pivot: the workload clusters, then the
/// containers of the management cluster.
pub fn teardown_local_pivoted(
    cfg: &Config,
    knobs: &TeardownConfig,
    engine: &Option<String>,
    reachable: bool,
) -> (s: Script)
    ensures
        s@ == teardown_local_pivoted_spec(*cfg, knobs@, optional(*engine), reachable),
{
    let target = K8sTarget::SelfManaged { kubeconfig: knobs.mgmt_kubeconfig.clone() };
    Script::new()
        .join(
            if reachable {
                Script::new()
                    .join(suspend_workload(&target))
                    .join(
                        delete_capi_workloads(
                            &target,
                            &cfg.environment.teardown.capi_workloads,
                            300,
                        ),
                    )
            } else {
                Script::new()
                    .say(
                        ">>> No reachable management cluster; skipping CAPI workload deletion".to_owned(),
                    )
            },
        )
        .join(remove_mgmt_containers(cfg, engine))
        .join(remove_registry_container(engine, cfg.repo.bootstrap.registry_name.as_str()))
        .join(closing())
}

/// Removes the containers of the management cluster, where a name prefix is configured and there is
/// an engine.
pub open spec fn remove_mgmt_containers_spec(cfg: Config, engine: Option<Seq<char>>) -> ScriptView {
    match cfg.environment.teardown.mgmt_container_prefix {
        Some(prefix) => {
            match engine {
                Some(engine) => {
                    remove_local_mgmt_containers_spec(engine, prefix@)
                },
                None => {
                    ScriptView::new()
                        .say(
                            "!   Container engine unavailable; management container cleanup skipped"@,
                        )
                },
            }
        },
        None => {
            ScriptView::new()
        },
    }
}

/// Removes the containers of the management cluster, where a name prefix is configured and there is
/// an engine.
pub fn remove_mgmt_containers(cfg: &Config, engine: &Option<String>) -> (s: Script)
    ensures
        s@ == remove_mgmt_containers_spec(*cfg, optional(*engine)),
{
    match &cfg.environment.teardown.mgmt_container_prefix {
        Some(prefix) => {
            match engine {
                Some(engine) => {
                    remove_local_mgmt_containers(engine.as_str(), prefix.as_str())
                },
                None => {
                    Script::new()
                        .say(
                            "!   Container engine unavailable; management container cleanup skipped".to_owned(),
                        )
                },
            }
        },
        None => {
            Script::new()
        },
    }
}

/// The teardown of bare metal: every CAPI cluster is deleted, which releases the hardware. The
/// machine is not wiped.
pub open spec fn release_hardware_spec(
    cfg: Config,
    knobs: TeardownConfigView,
    host: ControllerHost,
) -> ScriptView {
    match resolve_target_spec(host, cfg, knobs) {
        Some(target) => {
            ScriptView::new()
                .join(suspend_flux_spec(target))
                .ask(
                    QuestionView::Teardown(
                        TeardownQuestionView::HardwareClusters {
                            target,
                            timeout: knobs.cluster_delete_timeout,
                        },
                    ),
                )
                .join(
                    if host == ControllerHost::Kind {
                        ScriptView::new()
                            .say(
                                ">>> Deleting kind bootstrap cluster '"@
                                    + cfg.repo.bootstrap.kind_cluster@ + "'..."@,
                            )
                            .join(toolbox_exit_spec(cfg))
                            .ask(QuestionView::Teardown(TeardownQuestionView::KindDelete))
                    } else {
                        ScriptView::new()
                    },
                )
                .join(closing_spec())
                .say("!   The machine was NOT wiped: it still runs Talos. Re-use it or"@)
                .say("!   PXE-boot it fresh (issue #105 teardown semantics)."@)
        },
        None => {
            ScriptView::new()
                .say(">>> No reachable controller host; nothing to release"@)
                .join(closing_spec())
        },
    }
}

/// The teardown of bare metal: every CAPI cluster is deleted, which releases the hardware. The
/// machine is not wiped.
pub fn release_hardware(cfg: &Config, knobs: &TeardownConfig, host: ControllerHost) -> (s: Script)
    ensures
        s@ == release_hardware_spec(*cfg, knobs@, host),
{
    match resolve_target(host, cfg, knobs) {
        Some(target) => {
            Script::new()
                .join(suspend_flux(&target))
                .ask(
                    Question::Teardown(
                        TeardownQuestion::HardwareClusters {
                            target: target.copy(),
                            timeout: knobs.cluster_delete_timeout,
                        },
                    ),
                )
                .join(
                    if host == ControllerHost::Kind {
                        Script::new()
                            .say(
                                cat3(
                                    ">>> Deleting kind bootstrap cluster '",
                                    cfg.repo.bootstrap.kind_cluster.as_str(),
                                    "'...",
                                ),
                            )
                            .join(toolbox_exit(cfg))
                            .ask(Question::Teardown(TeardownQuestion::KindDelete))
                    } else {
                        Script::new()
                    },
                )
                .join(closing())
                .say("!   The machine was NOT wiped: it still runs Talos. Re-use it or".to_owned())
                .say("!   PXE-boot it fresh (issue #105 teardown semantics).".to_owned())
        },
        None => {
            Script::new()
                .say(">>> No reachable controller host; nothing to release".to_owned())
                .join(closing())
        },
    }
}

/// The teardown of AWS: the workload clusters, the orphan sweep, the providers and Helm releases,
/// then the controller host under its guard.
pub open spec fn teardown_aws_spec(
    cfg: Config,
    knobs: TeardownConfigView,
    aws: bool,
    host: ControllerHost,
) -> ScriptView {
    ScriptView::new()
        .join(
            if !knobs.aws_only && host == ControllerHost::Unreachable {
                ScriptView::new()
                    .report("!   Cannot reach the management cluster. It may already be gone."@)
                    .report(
                        "!   Running AWS orphan cleanup only. To skip this warning, set AWS_ONLY=1."@,
                    )
                    .say(""@)
            } else {
                ScriptView::new()
            },
        )
        .join(delete_workloads_spec(cfg, knobs, host))
        .join(
            if aws {
                sweep_spec(cfg)
            } else {
                ScriptView::new()
            },
        )
        .join(clean_host_spec(cfg, knobs, aws, host))
        .join(
            if knobs.aws_only {
                ScriptView::new()
            } else {
                remove_host_spec(cfg, host, HostGuard::resolve_spec(true, knobs.force_host_delete))
            },
        )
        .join(closing_spec())
}

/// The teardown of AWS: the workload clusters, the orphan sweep, the providers and Helm releases,
/// then the controller host under its guard.
pub fn teardown_aws(
    cfg: &Config,
    knobs: &TeardownConfig,
    aws: bool,
    host: ControllerHost,
) -> (s: Script)
    ensures
        s@ == teardown_aws_spec(*cfg, knobs@, aws, host),
{
    Script::new()
        .join(
            if !knobs.aws_only && host == ControllerHost::Unreachable {
                Script::new()
                    .report(
                        "!   Cannot reach the management cluster. It may already be gone.".to_owned(),
                    )
                    .report(
                        "!   Running AWS orphan cleanup only. To skip this warning, set AWS_ONLY=1.".to_owned(),
                    )
                    .say("".to_owned())
            } else {
                Script::new()
            },
        )
        .join(delete_workloads(cfg, knobs, host))
        .join(
            if aws {
                sweep(cfg)
            } else {
                Script::new()
            },
        )
        .join(clean_host(cfg, knobs, aws, host))
        .join(
            if knobs.aws_only {
                Script::new()
            } else {
                remove_host(cfg, host, HostGuard::resolve(true, knobs.force_host_delete))
            },
        )
        .join(closing())
}

/// The Kubernetes side of the AWS teardown, up to the confirmation that the workload clusters are
/// gone.
pub open spec fn delete_workloads_spec(
    cfg: Config,
    knobs: TeardownConfigView,
    host: ControllerHost,
) -> ScriptView {
    if knobs.aws_only {
        ScriptView::new()
    } else {
        match resolve_target_spec(host, cfg, knobs) {
            Some(target) => {
                ScriptView::new()
                    .join(suspend_flux_spec(target))
                    .join(
                        delete_aws_workload_clusters_spec(
                            target,
                            cfg.environment.mgmt_cluster@,
                            knobs.cluster_delete_timeout,
                            knobs.force_host_delete,
                        ),
                    )
            },
            None => {
                ScriptView::new()
                    .say(">>> No reachable management cluster – skipping k8s steps"@)
            },
        }
    }
}

/// The Kubernetes side of the AWS teardown, up to the confirmation that the workload clusters are
/// gone.
pub fn delete_workloads(cfg: &Config, knobs: &TeardownConfig, host: ControllerHost) -> (s: Script)
    ensures
        s@ == delete_workloads_spec(*cfg, knobs@, host),
{
    if knobs.aws_only {
        Script::new()
    } else {
        match resolve_target(host, cfg, knobs) {
            Some(target) => {
                Script::new()
                    .join(suspend_flux(&target))
                    .join(
                        delete_aws_workload_clusters(
                            &target,
                            cfg.environment.mgmt_cluster.as_str(),
                            knobs.cluster_delete_timeout,
                            knobs.force_host_delete,
                        ),
                    )
            },
            None => {
                Script::new()
                    .say(">>> No reachable management cluster – skipping k8s steps".to_owned())
            },
        }
    }
}

/// The providers, the Helm releases and the Secrets of a controller host that is still there.
pub open spec fn clean_host_spec(
    cfg: Config,
    knobs: TeardownConfigView,
    aws: bool,
    host: ControllerHost,
) -> ScriptView {
    match resolve_target_spec(host, cfg, knobs) {
        Some(target) => {
            if mgmt_swept_spec(cfg, aws, host) {
                ScriptView::new()
                    .say(
                        "!   Management cluster removed by the sweep – provider and Helm cleanup skipped"@,
                    )
            } else {
                ScriptView::new()
                    .join(delete_capi_providers_spec(target, knobs.provider_delete_timeout))
                    .join(uninstall_helm_and_secrets_spec(cfg, target))
            }
        },
        None => {
            ScriptView::new()
        },
    }
}

/// The providers, the Helm releases and the Secrets of a controller host that is still there.
pub fn clean_host(
    cfg: &Config,
    knobs: &TeardownConfig,
    aws: bool,
    host: ControllerHost,
) -> (s: Script)
    ensures
        s@ == clean_host_spec(*cfg, knobs@, aws, host),
{
    match resolve_target(host, cfg, knobs) {
        Some(target) => {
            if mgmt_swept(cfg, aws, host) {
                Script::new()
                    .say(
                        "!   Management cluster removed by the sweep – provider and Helm cleanup skipped".to_owned(),
                    )
            } else {
                Script::new()
                    .join(delete_capi_providers(&target, knobs.provider_delete_timeout))
                    .join(uninstall_helm_and_secrets(cfg, &target))
            }
        },
        None => {
            Script::new()
        },
    }
}

/// Removes the controller host, unless the guard refuses.
pub open spec fn remove_host_spec(
    cfg: Config,
    host: ControllerHost,
    guard: HostGuard,
) -> ScriptView {
    if guard == HostGuard::Refuse {
        ScriptView::new()
            .report(""@)
            .report(HostGuard::refusal_message_spec("the management cluster"@))
    } else if host == ControllerHost::Kind {
        ScriptView::new()
            .say(
                ">>> Deleting kind management cluster '"@ + cfg.repo.bootstrap.kind_cluster@
                    + "'..."@,
            )
            .join(toolbox_exit_spec(cfg))
            .ask(QuestionView::Teardown(TeardownQuestionView::KindDelete))
    } else if host == ControllerHost::SelfManaged {
        ScriptView::new()
            .say(">>> Management cluster removed via the AWS orphan sweep"@)
    } else {
        ScriptView::new()
            .say(">>> No controller host to remove"@)
    }
}

/// Removes the controller host, unless the guard refuses.
pub fn remove_host(cfg: &Config, host: ControllerHost, guard: HostGuard) -> (s: Script)
    ensures
        s@ == remove_host_spec(*cfg, host, guard),
{
    if guard == HostGuard::Refuse {
        Script::new()
            .report("".to_owned())
            .report(HostGuard::refusal_message("the management cluster"))
    } else if host == ControllerHost::Kind {
        Script::new()
            .say(
                cat3(
                    ">>> Deleting kind management cluster '",
                    cfg.repo.bootstrap.kind_cluster.as_str(),
                    "'...",
                ),
            )
            .join(toolbox_exit(cfg))
            .ask(Question::Teardown(TeardownQuestion::KindDelete))
    } else if host == ControllerHost::SelfManaged {
        Script::new()
            .say(">>> Management cluster removed via the AWS orphan sweep".to_owned())
    } else {
        Script::new()
            .say(">>> No controller host to remove".to_owned())
    }
}

} // verus!
