//! The pivot: the CAPI inventory moves from the kind cluster into the self-managed management
//! cluster, and the kind cluster is deleted once that has demonstrably happened.
use vstd::prelude::*;

use crate::failure::{Failure, FailureView};
use crate::json;
use crate::bootstrap::{
    chart_result, create_secrets, create_secrets_spec, install_flux_instance,
    install_flux_instance_spec, install_flux_operator, install_flux_operator_spec,
    lemma_secret_is_textual, oci_push, oci_push_spec, registry_url, registry_url_spec,
    secret_manifest, secret_manifest_spec, toolbox_exit, toolbox_exit_spec,
};
use crate::checks::{
    extract_workload_port, extract_workload_port_spec, parse_duration_seconds,
    parse_duration_seconds_spec, suspend_patch, suspend_patch_spec, unpause_patch,
    unpause_patch_spec,
};
use crate::config::MoveFallback;
use crate::context::{Preflight, PreflightView};
use crate::json::{JsonTree, json_document, json_text, json_tree, textual};
use crate::manifest::{filled_in, filled_in_spec, unfilled, unfilled_spec};
use crate::number::{decimal, decimal_spec};
use crate::question::{Question, QuestionView};
use crate::script::{
    command, failure, failure_spec, file_failure, file_failure_spec, for_each, for_each_spec,
    request, Action, ActionView, Command, CommandView, Reply, ReplyView, Request, Rule, RuleView,
    Script, ScriptView,
};
use crate::session::Move;
use crate::settings::Config;
use crate::text::{
    cat2, cat3, cat5, cat7, entries, entries_spec, join, join_spec, same, texts, trim, trim_end,
    trim_end_spec, trim_spec,
};

verus! {

/// clusterctl, printing the kubeconfig of the management cluster.
pub open spec fn mgmt_kubeconfig_command_spec(cfg: Config) -> CommandView {
    command("clusterctl"@)
        .arg("get"@).arg("kubeconfig"@).arg(cfg.environment.mgmt_cluster@).arg("-n"@)
        .arg(cfg.repo.bootstrap.mgmt_namespace@)
}

/// clusterctl, printing the kubeconfig of the management cluster.
pub fn mgmt_kubeconfig_command(cfg: &Config) -> (c: Command)
    ensures
        c@ == mgmt_kubeconfig_command_spec(*cfg),
{
    Command::new("clusterctl")
        .arg("get").arg("kubeconfig").arg(cfg.environment.mgmt_cluster.as_str()).arg("-n")
        .arg(cfg.repo.bootstrap.mgmt_namespace.as_str())
}

/// The engine, printing the published port of the management cluster.
pub open spec fn mgmt_port_command_spec(cfg: Config, engine: Seq<char>) -> CommandView {
    command(engine).arg("port"@).arg(cfg.environment.mgmt_cluster@ + "-lb"@).arg("6443/tcp"@)
}

/// The engine, printing the published port of the management cluster.
pub fn mgmt_port_command(cfg: &Config, engine: &str) -> (c: Command)
    ensures
        c@ == mgmt_port_command_spec(*cfg, engine@),
{
    Command::new(engine)
        .arg("port").arg(cat2(cfg.environment.mgmt_cluster.as_str(), "-lb").as_str())
        .arg("6443/tcp")
}

/// kubectl, printing the context of the exported kubeconfig.
pub open spec fn mgmt_current_command_spec(cfg: Config) -> CommandView {
    command("kubectl"@)
        .arg("--kubeconfig"@).arg(cfg.mgmt_kubeconfig@).arg("config"@).arg("current-context"@)
}

/// kubectl, printing the context of the exported kubeconfig.
pub fn mgmt_current_command(cfg: &Config) -> (c: Command)
    ensures
        c@ == mgmt_current_command_spec(*cfg),
{
    Command::new("kubectl")
        .arg("--kubeconfig").arg(cfg.mgmt_kubeconfig.as_str()).arg("config").arg("current-context")
}

/// sops, decrypting a manifest with the age key of the operator.
pub open spec fn decrypt_command_spec(cfg: Config, manifest: Seq<char>) -> CommandView {
    command("sops"@)
        .arg("--decrypt"@).arg(manifest).var("SOPS_AGE_KEY_FILE"@, cfg.sops_age_key_file@)
}

/// sops, decrypting a manifest with the age key of the operator.
pub fn decrypt_command(cfg: &Config, manifest: &str) -> (c: Command)
    ensures
        c@ == decrypt_command_spec(*cfg, manifest@),
{
    Command::new("sops")
        .arg("--decrypt").arg(manifest).var("SOPS_AGE_KEY_FILE", cfg.sops_age_key_file.as_str())
}

/// kubectl, printing the ConfigMaps in the Flux namespace of the kind cluster.
pub open spec fn variables_command_spec(cfg: Config) -> CommandView {
    command("kubectl"@)
        .arg("get"@).arg("configmaps"@).arg("-n"@).arg(cfg.repo.bootstrap.flux_namespace@)
        .arg("-o"@).arg("json"@)
}

/// kubectl, printing the ConfigMaps in the Flux namespace of the kind cluster.
pub fn variables_command(cfg: &Config) -> (c: Command)
    ensures
        c@ == variables_command_spec(*cfg),
{
    Command::new("kubectl")
        .arg("get").arg("configmaps").arg("-n").arg(cfg.repo.bootstrap.flux_namespace.as_str())
        .arg("-o").arg("json")
}

/// The task that prints the AWS credentials.
pub open spec fn credentials_command_spec(cfg: Config) -> CommandView {
    command("mise"@).arg("-E"@).arg(cfg.profile@).arg("run"@).arg("aws-credentials"@)
}

/// The task that prints the AWS credentials.
pub fn credentials_command(cfg: &Config) -> (c: Command)
    ensures
        c@ == credentials_command_spec(*cfg),
{
    Command::new("mise").arg("-E").arg(cfg.profile.as_str()).arg("run").arg("aws-credentials")
}

/// The Secret that holds the AWS credentials for CAPA.
pub open spec fn credentials_secret_spec(credentials: Seq<char>) -> JsonTree {
    secret_manifest_spec(
        "aws-credentials"@,
        "capa-system"@,
        JsonTree::object().with("AWS_B64ENCODED_CREDENTIALS"@, JsonTree::Text(credentials)),
    )
}

/// The Secret that holds the AWS credentials for CAPA.
pub fn credentials_secret(credentials: &str) -> (r: serde_json::Value)
    ensures
        json_tree(r) == credentials_secret_spec(credentials@),
{
    secret_manifest(
        "aws-credentials",
        "capa-system",
        json::with(json::object(), "AWS_B64ENCODED_CREDENTIALS", json::string(credentials)),
    )
}

/// How often the kubeconfig of the management cluster is waited for: as often as the poll interval
/// fits into the timeout, and at least once.
pub open spec fn attempts_spec(timeout: int, interval: int) -> int {
    if interval == 0 || timeout / interval < 1 {
        1
    } else {
        timeout / interval
    }
}

/// How often the kubeconfig of the management cluster is waited for.
pub fn attempts(timeout: u64, interval: u64) -> (r: u64)
    ensures
        r == attempts_spec(timeout as int, interval as int),
{
    if interval == 0 || timeout / interval < 1 {
        1
    } else {
        timeout / interval
    }
}

/// Waits for the kubeconfig of the management cluster: it exists once the control plane has an
/// endpoint.
pub open spec fn pivot_wait_for_management_cluster_spec(cfg: Config) -> ScriptView {
    let waiting = ScriptView::new().say(
        ">>> Waiting for the management cluster kubeconfig (timeout: "@ + cfg.mgmt_ready_timeout@
            + ")..."@,
    );
    match parse_duration_seconds_spec(cfg.mgmt_ready_timeout@) {
        Ok(timeout) => waiting.ask(
            QuestionView::Pivot(
                PivotQuestionView::MgmtSecret {
                    left: attempts_spec(timeout, cfg.mgmt_poll_interval as int) as u64,
                },
            ),
        ).perform(
            ActionView::Run(
                command("clusterctl"@).arg("describe"@).arg("cluster"@).arg(
                    cfg.environment.mgmt_cluster@,
                ).arg("-n"@).arg(cfg.repo.bootstrap.mgmt_namespace@),
            ),
            RuleView::Ignore,
        ),
        Err(failure) => waiting.fail_with(failure),
    }
}

/// Waits for the kubeconfig of the management cluster: it exists once the control plane has an
/// endpoint.
pub fn pivot_wait_for_management_cluster(cfg: &Config) -> (s: Script)
    ensures
        s@ == pivot_wait_for_management_cluster_spec(*cfg),
{
    let waiting = Script::new().say(
        cat3(
            ">>> Waiting for the management cluster kubeconfig (timeout: ",
            cfg.mgmt_ready_timeout.as_str(),
            ")...",
        ),
    );
    match parse_duration_seconds(cfg.mgmt_ready_timeout.as_str()) {
        Ok(timeout) => waiting.ask(
            Question::Pivot(
                PivotQuestion::MgmtSecret { left: attempts(timeout, cfg.mgmt_poll_interval) },
            ),
        ).perform(
            Action::Run(
                Command::new("clusterctl").arg("describe").arg("cluster").arg(
                    cfg.environment.mgmt_cluster.as_str(),
                ).arg("-n").arg(cfg.repo.bootstrap.mgmt_namespace.as_str()),
            ),
            Rule::Ignore,
        ),
        Err(failure) => waiting.fail_with(failure),
    }
}

/// The objects that are applied from the checkout where the move did not bring them.
pub open spec fn fallbacks_spec(fallbacks: Seq<MoveFallback>) -> ScriptView
    decreases fallbacks.len(),
{
    if fallbacks.len() == 0 {
        ScriptView::new()
    } else {
        let last = fallbacks.last();
        fallbacks_spec(fallbacks.drop_last()).ask(
            QuestionView::Pivot(
                PivotQuestionView::Fallback {
                    resource: last.resource@,
                    name: last.name@,
                    manifest: last.manifest@,
                },
            ),
        )
    }
}

/// The objects that are applied from the checkout where the move did not bring them.
pub fn fallbacks(items: &Vec<MoveFallback>) -> (s: Script)
    ensures
        s@ == fallbacks_spec(items@),
{
    let mut s = Script::new();
    let mut i: usize = 0;
    assert(items@.take(0) =~= Seq::empty());
    while i < items.len()
        invariant
            i <= items.len(),
            s@ == fallbacks_spec(items@.take(i as int)),
        decreases items.len() - i,
    {
        proof {
            assert(items@.take(i + 1).drop_last() =~= items@.take(i as int));
        }
        s = s.ask(
            Question::Pivot(
                PivotQuestion::Fallback {
                    resource: items[i].resource.clone(),
                    name: items[i].name.clone(),
                    manifest: items[i].manifest.clone(),
                },
            ),
        );
        i = i + 1;
    }
    assert(items@.take(items.len() as int) =~= items@);
    s
}

/// Applies a manifest to the target once its placeholders are filled from the ConfigMaps of a
/// listing. A placeholder without a value ends the run before anything is applied.
pub open spec fn apply_manifest_spec(
    cfg: Config,
    manifest: Seq<char>,
    content: Seq<char>,
    listing: Seq<char>,
) -> ScriptView {
    let missing = unfilled_spec(content, listing);
    if missing.len() > 0 {
        ScriptView::new().fail(
            "no ConfigMap in "@ + cfg.repo.bootstrap.flux_namespace@ + " provides "@ + join_spec(
                missing,
                ", "@,
            ) + " for '"@ + manifest + "'"@,
        )
    } else {
        ScriptView::new().perform(
            ActionView::Feed(
                command("kubectl"@).arg("--kubeconfig"@).arg(cfg.mgmt_kubeconfig@).arg("apply"@).arg(
                    "-f"@,
                ).arg("-"@),
                filled_in_spec(content, listing),
            ),
            RuleView::Require,
        )
    }
}

/// Applies a manifest to the target once its placeholders are filled from the ConfigMaps of a
/// listing. A placeholder without a value ends the run before anything is applied.
pub fn apply_manifest(
    cfg: &Config,
    manifest: &str,
    content: &str,
    listing: &str,
) -> (s: Script)
    ensures
        s@ == apply_manifest_spec(*cfg, manifest@, content@, listing@),
{
    let missing = unfilled(content, listing);
    assert(texts(missing@).len() == missing.len());
    if missing.len() > 0 {
        Script::new().fail(
            cat7(
                "no ConfigMap in ",
                cfg.repo.bootstrap.flux_namespace.as_str(),
                " provides ",
                join(&missing, ", ").as_str(),
                " for '",
                manifest,
                "'",
            ),
        )
    } else {
        Script::new().perform(
            Action::Feed(
                Command::new("kubectl").arg("--kubeconfig").arg(cfg.mgmt_kubeconfig.as_str()).arg(
                    "apply",
                ).arg("-f").arg("-"),
                filled_in(content, listing),
            ),
            Rule::Require,
        )
    }
}

/// The questions of this module.
pub enum PivotQuestion {
    /// Which context does kubectl use?
    PivotContext,
    /// Is the management Cluster defined in the kind cluster?
    PivotCluster,
    /// Is the local registry serving before the pivot?
    PivotRegistry,
    /// Does the management cluster have its kubeconfig, with this many waits left?
    MgmtSecret { left: u64 },
    /// What is the kubeconfig of the management cluster?
    MgmtKubeconfig { engine: String },
    /// At which port is the API server of the management cluster published?
    MgmtPort { engine: String },
    /// Which context does the exported kubeconfig use?
    MgmtCurrent,
    /// Where is the anonymous registry configuration for the installs in the target?
    PivotRegistryConfig { preflight: Preflight },
    /// What does the encrypted manifest hold?
    SopsSecret { manifest: String },
    /// Which values do the ConfigMaps of the kind cluster provide?
    PivotVariables,
    /// What does the manifest hold?
    PivotManifest { manifest: String, listing: String },
    /// What are the AWS credentials of the operator?
    AwsCredentials,
    /// Which Kustomizations does the kind cluster have?
    SourceKustomizations,
    /// Did the inventory move?
    Move,
    /// Which Clusters are on the target after the move?
    MovedClusters,
    /// Did the object come over with the move?
    Fallback { resource: String, name: String, manifest: String },
    /// Which Clusters does the management cluster own before the kind cluster is deleted?
    TargetClusters,
    /// Is the local registry serving before the kind cluster is deleted?
    FinalRegistry,
    /// Can kubectl switch to the management context?
    MgmtContext,
}

/// The model of a question of this module.
pub enum PivotQuestionView {
    PivotContext,
    PivotCluster,
    PivotRegistry,
    MgmtSecret { left: u64 },
    MgmtKubeconfig { engine: Seq<char> },
    MgmtPort { engine: Seq<char> },
    MgmtCurrent,
    PivotRegistryConfig { preflight: PreflightView },
    SopsSecret { manifest: Seq<char> },
    PivotVariables,
    PivotManifest { manifest: Seq<char>, listing: Seq<char> },
    AwsCredentials,
    SourceKustomizations,
    Move,
    MovedClusters,
    Fallback { resource: Seq<char>, name: Seq<char>, manifest: Seq<char> },
    TargetClusters,
    FinalRegistry,
    MgmtContext,
}

impl View for PivotQuestion {
    type V = PivotQuestionView;

    open spec fn view(&self) -> PivotQuestionView {
        match *self {
            PivotQuestion::PivotContext => PivotQuestionView::PivotContext,
            PivotQuestion::PivotCluster => PivotQuestionView::PivotCluster,
            PivotQuestion::PivotRegistry => PivotQuestionView::PivotRegistry,
            PivotQuestion::MgmtSecret { left } => PivotQuestionView::MgmtSecret { left },
            PivotQuestion::MgmtKubeconfig { engine } => PivotQuestionView::MgmtKubeconfig {
                engine: engine@,
            },
            PivotQuestion::MgmtPort { engine } => PivotQuestionView::MgmtPort { engine: engine@ },
            PivotQuestion::MgmtCurrent => PivotQuestionView::MgmtCurrent,
            PivotQuestion::PivotRegistryConfig { preflight } => {
                PivotQuestionView::PivotRegistryConfig { preflight: preflight@ }
            },
            PivotQuestion::SopsSecret { manifest } => PivotQuestionView::SopsSecret {
                manifest: manifest@,
            },
            PivotQuestion::PivotVariables => PivotQuestionView::PivotVariables,
            PivotQuestion::PivotManifest { manifest, listing } => {
                PivotQuestionView::PivotManifest { manifest: manifest@, listing: listing@ }
            },
            PivotQuestion::AwsCredentials => PivotQuestionView::AwsCredentials,
            PivotQuestion::SourceKustomizations => PivotQuestionView::SourceKustomizations,
            PivotQuestion::Move => PivotQuestionView::Move,
            PivotQuestion::MovedClusters => PivotQuestionView::MovedClusters,
            PivotQuestion::Fallback { resource, name, manifest } => {
                PivotQuestionView::Fallback {
                    resource: resource@,
                    name: name@,
                    manifest: manifest@,
                }
            },
            PivotQuestion::TargetClusters => PivotQuestionView::TargetClusters,
            PivotQuestion::FinalRegistry => PivotQuestionView::FinalRegistry,
            PivotQuestion::MgmtContext => PivotQuestionView::MgmtContext,
        }
    }
}

/// What is done to find the answer to a question.
pub open spec fn action_spec(cfg: Config, question: PivotQuestionView) -> ActionView {
    match question {
        PivotQuestionView::PivotContext => ActionView::Lossy(
            command("kubectl"@).arg("config"@).arg("current-context"@),
        ),
        PivotQuestionView::PivotCluster => ActionView::Quiet(
            command("kubectl"@)
                .arg("get"@).arg("cluster"@).arg(cfg.environment.mgmt_cluster@).arg("-n"@)
                .arg(cfg.repo.bootstrap.mgmt_namespace@),
        ),
        PivotQuestionView::PivotRegistry => ActionView::Get(request(registry_url_spec(cfg))),
        PivotQuestionView::MgmtSecret { .. } => ActionView::Quiet(
            command("kubectl"@)
                .arg("get"@).arg("secret/"@ + cfg.environment.mgmt_cluster@ + "-kubeconfig"@)
                .arg("-n"@).arg(cfg.repo.bootstrap.mgmt_namespace@),
        ),
        PivotQuestionView::MgmtKubeconfig { .. } => ActionView::Capture(
            mgmt_kubeconfig_command_spec(cfg),
        ),
        PivotQuestionView::MgmtPort { engine } => ActionView::Capture(
            mgmt_port_command_spec(cfg, engine),
        ),
        PivotQuestionView::MgmtCurrent => ActionView::Capture(mgmt_current_command_spec(cfg)),
        PivotQuestionView::PivotRegistryConfig { .. } => ActionView::TempFile("{}\n"@),
        PivotQuestionView::SopsSecret { manifest } => ActionView::Capture(
            decrypt_command_spec(cfg, manifest),
        ),
        PivotQuestionView::PivotVariables => ActionView::Capture(variables_command_spec(cfg)),
        PivotQuestionView::PivotManifest { manifest, .. } => ActionView::ReadFile(manifest),
        PivotQuestionView::AwsCredentials => ActionView::Capture(credentials_command_spec(cfg)),
        PivotQuestionView::SourceKustomizations => ActionView::Lossy(
            command("kubectl"@)
                .arg("get"@).arg("kustomizations"@).arg("-n"@)
                .arg(cfg.repo.bootstrap.flux_namespace@).arg("-o"@).arg("name"@),
        ),
        PivotQuestionView::Move => ActionView::Run(
            command("clusterctl"@)
                .arg("move"@).arg("--to-kubeconfig"@).arg(cfg.mgmt_kubeconfig@).arg("-n"@)
                .arg(cfg.repo.bootstrap.mgmt_namespace@),
        ),
        PivotQuestionView::MovedClusters => ActionView::Lossy(
            command("kubectl"@)
                .arg("--kubeconfig"@).arg(cfg.mgmt_kubeconfig@).arg("get"@).arg("clusters"@)
                .arg("-n"@).arg(cfg.repo.bootstrap.mgmt_namespace@).arg("-o"@).arg("name"@),
        ),
        PivotQuestionView::Fallback { resource, name, .. } => {
            ActionView::Quiet(
                command("kubectl"@)
                    .arg("--kubeconfig"@).arg(cfg.mgmt_kubeconfig@).arg("get"@).arg(resource)
                    .arg(name).arg("-n"@).arg(cfg.repo.bootstrap.mgmt_namespace@),
            )
        },
        PivotQuestionView::TargetClusters => ActionView::Lossy(
            command("kubectl"@)
                .arg("--kubeconfig"@).arg(cfg.mgmt_kubeconfig@).arg("get"@).arg("clusters"@)
                .arg("-n"@).arg(cfg.repo.bootstrap.mgmt_namespace@).arg("-o"@).arg("name"@),
        ),
        PivotQuestionView::FinalRegistry => ActionView::Get(request(registry_url_spec(cfg))),
        PivotQuestionView::MgmtContext => ActionView::Quiet(
            command("kubectl"@)
                .arg("config"@).arg("use-context"@).arg(cfg.repo.bootstrap.mgmt_context@),
        ),
    }
}

/// What is done to find the answer to a question.
pub fn action(cfg: &Config, question: &PivotQuestion) -> (a: Action)
    ensures
        a@ == action_spec(*cfg, question@),
{
    match question {
        PivotQuestion::PivotContext => Action::Lossy(
            Command::new("kubectl").arg("config").arg("current-context"),
        ),
        PivotQuestion::PivotCluster => Action::Quiet(
            Command::new("kubectl")
                .arg("get").arg("cluster").arg(cfg.environment.mgmt_cluster.as_str()).arg("-n")
                .arg(cfg.repo.bootstrap.mgmt_namespace.as_str()),
        ),
        PivotQuestion::PivotRegistry => Action::Get(Request::new(registry_url(cfg))),
        PivotQuestion::MgmtSecret { .. } => Action::Quiet(
            Command::new("kubectl")
                .arg("get")
                .arg(cat3("secret/", cfg.environment.mgmt_cluster.as_str(), "-kubeconfig").as_str())
                .arg("-n").arg(cfg.repo.bootstrap.mgmt_namespace.as_str()),
        ),
        PivotQuestion::MgmtKubeconfig { .. } => Action::Capture(mgmt_kubeconfig_command(cfg)),
        PivotQuestion::MgmtPort { engine } => Action::Capture(
            mgmt_port_command(cfg, engine.as_str()),
        ),
        PivotQuestion::MgmtCurrent => Action::Capture(mgmt_current_command(cfg)),
        PivotQuestion::PivotRegistryConfig { .. } => Action::TempFile("{}\n".to_owned()),
        PivotQuestion::SopsSecret { manifest } => Action::Capture(
            decrypt_command(cfg, manifest.as_str()),
        ),
        PivotQuestion::PivotVariables => Action::Capture(variables_command(cfg)),
        PivotQuestion::PivotManifest { manifest, .. } => Action::ReadFile(manifest.clone()),
        PivotQuestion::AwsCredentials => Action::Capture(credentials_command(cfg)),
        PivotQuestion::SourceKustomizations => Action::Lossy(
            Command::new("kubectl")
                .arg("get").arg("kustomizations").arg("-n")
                .arg(cfg.repo.bootstrap.flux_namespace.as_str()).arg("-o").arg("name"),
        ),
        PivotQuestion::Move => Action::Run(
            Command::new("clusterctl")
                .arg("move").arg("--to-kubeconfig").arg(cfg.mgmt_kubeconfig.as_str()).arg("-n")
                .arg(cfg.repo.bootstrap.mgmt_namespace.as_str()),
        ),
        PivotQuestion::MovedClusters => Action::Lossy(
            Command::new("kubectl")
                .arg("--kubeconfig").arg(cfg.mgmt_kubeconfig.as_str()).arg("get").arg("clusters")
                .arg("-n").arg(cfg.repo.bootstrap.mgmt_namespace.as_str()).arg("-o").arg("name"),
        ),
        PivotQuestion::Fallback { resource, name, .. } => Action::Quiet(
            Command::new("kubectl")
                .arg("--kubeconfig").arg(cfg.mgmt_kubeconfig.as_str()).arg("get")
                .arg(resource.as_str()).arg(name.as_str()).arg("-n")
                .arg(cfg.repo.bootstrap.mgmt_namespace.as_str()),
        ),
        PivotQuestion::TargetClusters => Action::Lossy(
            Command::new("kubectl")
                .arg("--kubeconfig").arg(cfg.mgmt_kubeconfig.as_str()).arg("get").arg("clusters")
                .arg("-n").arg(cfg.repo.bootstrap.mgmt_namespace.as_str()).arg("-o").arg("name"),
        ),
        PivotQuestion::FinalRegistry => Action::Get(Request::new(registry_url(cfg))),
        PivotQuestion::MgmtContext => Action::Quiet(
            Command::new("kubectl")
                .arg("config").arg("use-context").arg(cfg.repo.bootstrap.mgmt_context.as_str()),
        ),
    }
}

/// How the run goes on after: which context does kubectl use?
pub open spec fn after_pivot_context_spec(cfg: Config, reply: ReplyView) -> ScriptView {
    let current = trim_spec(reply.stdout);
    if current == cfg.bootstrap_kubecontext@ {
        ScriptView::new()
    } else {
        ScriptView::new()
            .report(
                "ERROR: current kubectl context is '"@ + current + "', expected '"@
                    + cfg.bootstrap_kubecontext@ + "'."@,
            )
            .report("       The kind bootstrap cluster must be the move SOURCE."@)
            .report("       Fix with: kubectl config use-context "@ + cfg.bootstrap_kubecontext@)
            .fail(
                "current kubectl context is '"@ + current + "', expected '"@
                    + cfg.bootstrap_kubecontext@ + "'"@,
            )
    }
}

/// How the run goes on after: which context does kubectl use?
pub fn after_pivot_context(cfg: &Config, reply: &Reply) -> (s: Script)
    ensures
        s@ == after_pivot_context_spec(*cfg, reply@),
{
    let current = trim(reply.stdout.as_str());
    if same(current.as_str(), cfg.bootstrap_kubecontext.as_str()) {
        Script::new()
    } else {
        Script::new()
            .report(
                cat5(
                    "ERROR: current kubectl context is '",
                    current.as_str(),
                    "', expected '",
                    cfg.bootstrap_kubecontext.as_str(),
                    "'.",
                ),
            )
            .report("       The kind bootstrap cluster must be the move SOURCE.".to_owned())
            .report(
                cat2(
                    "       Fix with: kubectl config use-context ",
                    cfg.bootstrap_kubecontext.as_str(),
                ),
            )
            .fail(
                cat5(
                    "current kubectl context is '",
                    current.as_str(),
                    "', expected '",
                    cfg.bootstrap_kubecontext.as_str(),
                    "'",
                ),
            )
    }
}

/// How the run goes on after: is the management Cluster defined in the kind cluster?
pub open spec fn after_pivot_cluster_spec(cfg: Config, reply: ReplyView) -> ScriptView {
    if reply.ok {
        ScriptView::new()
    } else {
        ScriptView::new()
            .report(
                "ERROR: Cluster '"@ + cfg.environment.mgmt_cluster@
                    + "' not found in the bootstrap cluster."@,
            )
            .report("       The management cluster definition must be reconciled first:"@)
            .report("       aws:        merged to main, Flux-in-kind creates it (~15-25 min)"@)
            .report("       local-host: mise -E local-host run oci-push, then wait ~2 min"@)
            .fail(
                "Cluster '"@ + cfg.environment.mgmt_cluster@
                    + "' not found in the bootstrap cluster"@,
            )
    }
}

/// How the run goes on after: is the management Cluster defined in the kind cluster?
pub fn after_pivot_cluster(cfg: &Config, reply: &Reply) -> (s: Script)
    ensures
        s@ == after_pivot_cluster_spec(*cfg, reply@),
{
    if reply.ok {
        Script::new()
    } else {
        Script::new()
            .report(
                cat3(
                    "ERROR: Cluster '",
                    cfg.environment.mgmt_cluster.as_str(),
                    "' not found in the bootstrap cluster.",
                ),
            )
            .report("       The management cluster definition must be reconciled first:".to_owned())
            .report(
                "       aws:        merged to main, Flux-in-kind creates it (~15-25 min)".to_owned(),
            )
            .report(
                "       local-host: mise -E local-host run oci-push, then wait ~2 min".to_owned(),
            )
            .fail(
                cat3(
                    "Cluster '",
                    cfg.environment.mgmt_cluster.as_str(),
                    "' not found in the bootstrap cluster",
                ),
            )
    }
}

/// How the run goes on after: is the local registry serving before the pivot?
pub open spec fn after_pivot_registry_spec(cfg: Config, reply: ReplyView) -> ScriptView {
    if reply.ok && reply.http < 400 {
        ScriptView::new()
    } else {
        ScriptView::new()
            .report(
                "ERROR: local registry is unavailable at localhost:"@ + decimal_spec(
                    cfg.registry_port as int,
                ),
            )
            .report("       The management cluster's Flux syncs from it; it must stay running."@)
            .fail(
                "local registry is unavailable at localhost:"@ + decimal_spec(
                    cfg.registry_port as int,
                ),
            )
    }
}

/// How the run goes on after: is the local registry serving before the pivot?
pub fn after_pivot_registry(cfg: &Config, reply: &Reply) -> (s: Script)
    ensures
        s@ == after_pivot_registry_spec(*cfg, reply@),
{
    if reply.ok && reply.http < 400 {
        Script::new()
    } else {
        Script::new()
            .report(
                cat2(
                    "ERROR: local registry is unavailable at localhost:",
                    decimal(cfg.registry_port as u64).as_str(),
                ),
            )
            .report(
                "       The management cluster's Flux syncs from it; it must stay running.".to_owned(),
            )
            .fail(
                cat2(
                    "local registry is unavailable at localhost:",
                    decimal(cfg.registry_port as u64).as_str(),
                ),
            )
    }
}

/// How the run goes on after: does the management cluster have its kubeconfig, with this many waits
/// left?
pub open spec fn after_mgmt_secret_spec(cfg: Config, left: u64, reply: ReplyView) -> ScriptView {
    if reply.ok {
        ScriptView::new()
    } else if left > 0 {
        ScriptView::new()
            .perform(ActionView::Sleep(cfg.mgmt_poll_interval), RuleView::Ignore)
            .ask(QuestionView::Pivot(PivotQuestionView::MgmtSecret { left: (left - 1) as u64 }))
    } else {
        ScriptView::new()
            .report(
                "ERROR: management cluster kubeconfig not available within "@
                    + cfg.mgmt_ready_timeout@,
            )
            .perform(
                ActionView::Run(
                    command("kubectl"@)
                        .arg("describe"@).arg("cluster"@).arg(cfg.environment.mgmt_cluster@)
                        .arg("-n"@).arg(cfg.repo.bootstrap.mgmt_namespace@),
                ),
                RuleView::Ignore,
            )
            .fail("management cluster kubeconfig not available within "@ + cfg.mgmt_ready_timeout@)
    }
}

/// How the run goes on after: does the management cluster have its kubeconfig, with this many waits
/// left?
pub fn after_mgmt_secret(cfg: &Config, left: u64, reply: &Reply) -> (s: Script)
    ensures
        s@ == after_mgmt_secret_spec(*cfg, left, reply@),
{
    if reply.ok {
        Script::new()
    } else if left > 0 {
        Script::new()
            .perform(Action::Sleep(cfg.mgmt_poll_interval), Rule::Ignore)
            .ask(Question::Pivot(PivotQuestion::MgmtSecret { left: left - 1 }))
    } else {
        Script::new()
            .report(
                cat2(
                    "ERROR: management cluster kubeconfig not available within ",
                    cfg.mgmt_ready_timeout.as_str(),
                ),
            )
            .perform(
                Action::Run(
                    Command::new("kubectl")
                        .arg("describe").arg("cluster").arg(cfg.environment.mgmt_cluster.as_str())
                        .arg("-n").arg(cfg.repo.bootstrap.mgmt_namespace.as_str()),
                ),
                Rule::Ignore,
            )
            .fail(
                cat2(
                    "management cluster kubeconfig not available within ",
                    cfg.mgmt_ready_timeout.as_str(),
                ),
            )
    }
}

/// How the run goes on after: what is the kubeconfig of the management cluster?
pub open spec fn after_mgmt_kubeconfig_spec(
    cfg: Config,
    engine: Seq<char>,
    reply: ReplyView,
) -> ScriptView {
    if reply.ok {
        ScriptView::new()
            .perform(
                ActionView::WriteFile(cfg.mgmt_kubeconfig@, reply.stdout),
                RuleView::Expect("failed to write "@ + cfg.mgmt_kubeconfig@),
            )
            .perform(
                ActionView::Restrict(cfg.mgmt_kubeconfig@),
                RuleView::Expect("failed to chmod 600 "@ + cfg.mgmt_kubeconfig@),
            )
            .join(
                if cfg.should_rewrite_capd_endpoint_spec() {
                    ScriptView::new()
                        .ask(QuestionView::Pivot(PivotQuestionView::MgmtPort { engine }))
                } else {
                    ScriptView::new()
                },
            )
    } else {
        ScriptView::new()
            .fail_with(failure_spec(mgmt_kubeconfig_command_spec(cfg), reply))
    }
}

/// How the run goes on after: what is the kubeconfig of the management cluster?
pub fn after_mgmt_kubeconfig(cfg: &Config, engine: &str, reply: &Reply) -> (s: Script)
    ensures
        s@ == after_mgmt_kubeconfig_spec(*cfg, engine@, reply@),
{
    if reply.ok {
        Script::new()
            .perform(
                Action::WriteFile(cfg.mgmt_kubeconfig.clone(), reply.stdout.clone()),
                Rule::Expect(cat2("failed to write ", cfg.mgmt_kubeconfig.as_str())),
            )
            .perform(
                Action::Restrict(cfg.mgmt_kubeconfig.clone()),
                Rule::Expect(cat2("failed to chmod 600 ", cfg.mgmt_kubeconfig.as_str())),
            )
            .join(
                if cfg.should_rewrite_capd_endpoint() {
                    Script::new()
                        .ask(Question::Pivot(PivotQuestion::MgmtPort { engine: engine.to_owned() }))
                } else {
                    Script::new()
                },
            )
    } else {
        Script::new()
            .fail_with(failure(&mgmt_kubeconfig_command(cfg), reply))
    }
}

/// How the run goes on after: at which port is the API server of the management cluster published?
pub open spec fn after_mgmt_port_spec(
    cfg: Config,
    engine: Seq<char>,
    reply: ReplyView,
) -> ScriptView {
    if reply.ok {
        match extract_workload_port_spec(reply.stdout) {
            Some(port) => {
                ScriptView::new()
                    .perform(
                        ActionView::Run(
                            command("kubectl"@)
                                .arg("--kubeconfig"@).arg(cfg.mgmt_kubeconfig@).arg("config"@)
                                .arg("set-cluster"@).arg(cfg.environment.mgmt_cluster@)
                                .arg("--server=https://127.0.0.1:"@ + port),
                        ),
                        RuleView::Require,
                    )
            },
            None => {
                ScriptView::new()
                    .fail(
                        "cannot determine the "@ + cfg.environment.mgmt_cluster@
                            + " API server port"@,
                    )
            },
        }
    } else {
        ScriptView::new()
            .fail_with(failure_spec(mgmt_port_command_spec(cfg, engine), reply))
    }
}

/// How the run goes on after: at which port is the API server of the management cluster published?
pub fn after_mgmt_port(cfg: &Config, engine: &str, reply: &Reply) -> (s: Script)
    ensures
        s@ == after_mgmt_port_spec(*cfg, engine@, reply@),
{
    if reply.ok {
        match extract_workload_port(reply.stdout.as_str()) {
            Some(port) => {
                Script::new()
                    .perform(
                        Action::Run(
                            Command::new("kubectl")
                                .arg("--kubeconfig").arg(cfg.mgmt_kubeconfig.as_str()).arg("config")
                                .arg("set-cluster").arg(cfg.environment.mgmt_cluster.as_str())
                                .arg(cat2("--server=https://127.0.0.1:", port.as_str()).as_str()),
                        ),
                        Rule::Require,
                    )
            },
            None => {
                Script::new()
                    .fail(
                        cat3(
                            "cannot determine the ",
                            cfg.environment.mgmt_cluster.as_str(),
                            " API server port",
                        ),
                    )
            },
        }
    } else {
        Script::new()
            .fail_with(failure(&mgmt_port_command(cfg, engine), reply))
    }
}

/// How the run goes on after: which context does the exported kubeconfig use?
pub open spec fn after_mgmt_current_spec(cfg: Config, reply: ReplyView) -> ScriptView {
    if reply.ok {
        let current = trim_spec(reply.stdout);
        ScriptView::new()
            .perform(
                ActionView::Run(
                    command("kubectl"@)
                        .arg("--kubeconfig"@).arg(cfg.mgmt_kubeconfig@).arg("config"@)
                        .arg("rename-context"@).arg(current).arg(cfg.repo.bootstrap.mgmt_context@),
                ),
                RuleView::Require,
            )
    } else {
        ScriptView::new()
            .fail_with(failure_spec(mgmt_current_command_spec(cfg), reply))
    }
}

/// How the run goes on after: which context does the exported kubeconfig use?
pub fn after_mgmt_current(cfg: &Config, reply: &Reply) -> (s: Script)
    ensures
        s@ == after_mgmt_current_spec(*cfg, reply@),
{
    if reply.ok {
        let current = trim(reply.stdout.as_str());
        Script::new()
            .perform(
                Action::Run(
                    Command::new("kubectl")
                        .arg("--kubeconfig").arg(cfg.mgmt_kubeconfig.as_str()).arg("config")
                        .arg("rename-context").arg(current.as_str())
                        .arg(cfg.repo.bootstrap.mgmt_context.as_str()),
                ),
                Rule::Require,
            )
    } else {
        Script::new()
            .fail_with(failure(&mgmt_current_command(cfg), reply))
    }
}

/// How the run goes on after: where is the anonymous registry configuration for the installs in the
/// target?
pub open spec fn after_pivot_registry_config_spec(
    cfg: Config,
    preflight: PreflightView,
    reply: ReplyView,
) -> ScriptView {
    if reply.ok {
        ScriptView::new()
            .join(pivot_install_capi_in_target_spec(cfg, reply.stdout))
            .join(pivot_suspend_and_move_spec(cfg))
            .join(pivot_seed_target_spec(cfg, preflight, reply.stdout))
            .join(pivot_delete_bootstrap_cluster_spec(cfg))
    } else {
        ScriptView::new()
            .fail_with(file_failure_spec("failed to create temp registry config"@, reply))
    }
}

/// How the run goes on after: where is the anonymous registry configuration for the installs in the
/// target?
pub fn after_pivot_registry_config(
    cfg: &Config,
    preflight: &Preflight,
    reply: &Reply,
) -> (s: Script)
    ensures
        s@ == after_pivot_registry_config_spec(*cfg, preflight@, reply@),
{
    if reply.ok {
        Script::new()
            .join(pivot_install_capi_in_target(cfg, reply.stdout.as_str()))
            .join(pivot_suspend_and_move(cfg))
            .join(pivot_seed_target(cfg, preflight, reply.stdout.as_str()))
            .join(pivot_delete_bootstrap_cluster(cfg))
    } else {
        Script::new()
            .fail_with(file_failure("failed to create temp registry config", reply))
    }
}

/// How the run goes on after: what does the encrypted manifest hold?
pub open spec fn after_sops_secret_spec(
    cfg: Config,
    manifest: Seq<char>,
    reply: ReplyView,
) -> ScriptView {
    if reply.ok {
        ScriptView::new()
            .perform(
                ActionView::Feed(
                    command("kubectl"@)
                        .arg("--kubeconfig"@).arg(cfg.mgmt_kubeconfig@).arg("apply"@).arg("-f"@)
                        .arg("-"@),
                    reply.stdout,
                ),
                RuleView::Require,
            )
    } else {
        ScriptView::new()
            .fail_with(failure_spec(decrypt_command_spec(cfg, manifest), reply))
    }
}

/// How the run goes on after: what does the encrypted manifest hold?
pub fn after_sops_secret(cfg: &Config, manifest: &str, reply: &Reply) -> (s: Script)
    ensures
        s@ == after_sops_secret_spec(*cfg, manifest@, reply@),
{
    if reply.ok {
        Script::new()
            .perform(
                Action::Feed(
                    Command::new("kubectl")
                        .arg("--kubeconfig").arg(cfg.mgmt_kubeconfig.as_str()).arg("apply")
                        .arg("-f").arg("-"),
                    reply.stdout.clone(),
                ),
                Rule::Require,
            )
    } else {
        Script::new()
            .fail_with(failure(&decrypt_command(cfg, manifest), reply))
    }
}

/// How the run goes on after: which values do the ConfigMaps of the kind cluster provide?
pub open spec fn after_pivot_variables_spec(cfg: Config, reply: ReplyView) -> ScriptView {
    if reply.ok {
        ScriptView::new()
            .join(
                for_each_spec(
                    texts(cfg.environment.pivot_manifests@),
                    |item: Seq<char>| ask_manifest_spec(item, reply.stdout),
                ),
            )
    } else {
        ScriptView::new()
            .fail_with(failure_spec(variables_command_spec(cfg), reply))
    }
}

/// How the run goes on after: which values do the ConfigMaps of the kind cluster provide?
pub fn after_pivot_variables(cfg: &Config, reply: &Reply) -> (s: Script)
    ensures
        s@ == after_pivot_variables_spec(*cfg, reply@),
{
    if reply.ok {
        Script::new()
            .join(for_each(
                &cfg.environment.pivot_manifests,
                |item: &str| -> (s: Script)
                    ensures
                        s@ == ask_manifest_spec(item@, reply.stdout@)
                    { ask_manifest(item, reply.stdout.as_str()) },
                Ghost(|item: Seq<char>| ask_manifest_spec(item, reply.stdout@)),
            ))
    } else {
        Script::new()
            .fail_with(failure(&variables_command(cfg), reply))
    }
}

/// How the run goes on after: what does the manifest hold?
pub open spec fn after_pivot_manifest_spec(
    cfg: Config,
    manifest: Seq<char>,
    listing: Seq<char>,
    reply: ReplyView,
) -> ScriptView {
    if reply.ok {
        apply_manifest_spec(cfg, manifest, reply.stdout, listing)
    } else {
        ScriptView::new()
            .fail_with(
                FailureView::because("failed to read '"@ + manifest + "'"@, reply.stderr),
            )
    }
}

/// How the run goes on after: what does the manifest hold?
pub fn after_pivot_manifest(
    cfg: &Config,
    manifest: &str,
    listing: &str,
    reply: &Reply,
) -> (s: Script)
    ensures
        s@ == after_pivot_manifest_spec(*cfg, manifest@, listing@, reply@),
{
    if reply.ok {
        apply_manifest(cfg, manifest, reply.stdout.as_str(), listing)
    } else {
        Script::new()
            .fail_with(
                Failure::because(cat3("failed to read '", manifest, "'"), reply.stderr.as_str()),
            )
    }
}

/// How the run goes on after: what are the AWS credentials of the operator?
pub open spec fn after_aws_credentials_spec(cfg: Config, reply: ReplyView) -> ScriptView {
    if reply.ok {
        let manifest = json_text(credentials_secret_spec(trim_end_spec(reply.stdout)));
        ScriptView::new()
            .perform(
                ActionView::Feed(
                    command("kubectl"@)
                        .arg("--kubeconfig"@).arg(cfg.mgmt_kubeconfig@).arg("apply"@).arg("-f"@)
                        .arg("-"@),
                    manifest,
                ),
                RuleView::Require,
            )
    } else {
        ScriptView::new()
            .fail_with(failure_spec(credentials_command_spec(cfg), reply))
    }
}

/// How the run goes on after: what are the AWS credentials of the operator?
pub fn after_aws_credentials(cfg: &Config, reply: &Reply) -> (s: Script)
    ensures
        s@ == after_aws_credentials_spec(*cfg, reply@),
        reply.ok ==> json_document(
            json_text(credentials_secret_spec(trim_end_spec(reply@.stdout))),
        ) == Some(credentials_secret_spec(trim_end_spec(reply@.stdout))),
{
    if reply.ok {
        proof {
            let credentials = trim_end_spec(reply@.stdout);
            assert(textual(JsonTree::Text(credentials), 6));
            lemma_secret_is_textual(
                "aws-credentials"@,
                "capa-system"@,
                JsonTree::object().with(
                    "AWS_B64ENCODED_CREDENTIALS"@,
                    JsonTree::Text(credentials),
                ),
            );
        }
        let manifest = json::compact(&credentials_secret(trim_end(reply.stdout.as_str()).as_str()));
        Script::new()
            .perform(
                Action::Feed(
                    Command::new("kubectl")
                        .arg("--kubeconfig").arg(cfg.mgmt_kubeconfig.as_str()).arg("apply")
                        .arg("-f").arg("-"),
                    manifest.clone(),
                ),
                Rule::Require,
            )
    } else {
        Script::new()
            .fail_with(failure(&credentials_command(cfg), reply))
    }
}

/// How the run goes on after: which Kustomizations does the kind cluster have?
pub open spec fn after_source_kustomizations_spec(cfg: Config, reply: ReplyView) -> ScriptView {
    let found = entries_spec(reply.stdout);
    ScriptView::new()
        .join(
            for_each_spec(
                found,
                |item: Seq<char>| suspend_kustomization_spec(
                    item,
                    cfg.repo.bootstrap.flux_namespace@,
                ),
            ),
        )
}

/// How the run goes on after: which Kustomizations does the kind cluster have?
pub fn after_source_kustomizations(cfg: &Config, reply: &Reply) -> (s: Script)
    ensures
        s@ == after_source_kustomizations_spec(*cfg, reply@),
{
    let found = entries(reply.stdout.as_str());
    Script::new()
        .join(for_each(
            &found,
            |item: &str| -> (s: Script)
                ensures
                    s@ == suspend_kustomization_spec(item@, cfg.repo.bootstrap.flux_namespace@)
                { suspend_kustomization(item, cfg.repo.bootstrap.flux_namespace.as_str()) },
            Ghost(
                |item: Seq<char>| suspend_kustomization_spec(
                    item,
                    cfg.repo.bootstrap.flux_namespace@,
                ),
            ),
        ))
}

/// How the run goes on after: did the inventory move?
pub open spec fn after_move_spec(reply: ReplyView) -> ScriptView {
    if reply.ok {
        ScriptView::new()
    } else {
        ScriptView::new()
            .report(""@)
            .report("ERROR: clusterctl move failed."@)
            .report("       The move is re-runnable: objects are deleted from the source only"@)
            .report("       after they were created on the target, so kind stays authoritative."@)
            .report("       NEVER delete moved Cluster / AWSManaged* / MachinePool / Dev* objects"@)
            .report("       on the target to work around a failure — the provider would"@)
            .report("       deprovision the real infrastructure. See docs/operations.md"@)
            .report("       'Pivot recovery'."@)
            .fail("clusterctl move failed"@)
    }
}

/// How the run goes on after: did the inventory move?
pub fn after_move(reply: &Reply) -> (s: Script)
    ensures
        s@ == after_move_spec(reply@),
{
    if reply.ok {
        Script::new()
    } else {
        Script::new()
            .report("".to_owned())
            .report("ERROR: clusterctl move failed.".to_owned())
            .report(
                "       The move is re-runnable: objects are deleted from the source only".to_owned(),
            )
            .report(
                "       after they were created on the target, so kind stays authoritative.".to_owned(),
            )
            .report(
                "       NEVER delete moved Cluster / AWSManaged* / MachinePool / Dev* objects".to_owned(),
            )
            .report("       on the target to work around a failure — the provider would".to_owned())
            .report("       deprovision the real infrastructure. See docs/operations.md".to_owned())
            .report("       'Pivot recovery'.".to_owned())
            .fail("clusterctl move failed".to_owned())
    }
}

/// How the run goes on after: which Clusters are on the target after the move?
pub open spec fn after_moved_clusters_spec(cfg: Config, reply: ReplyView) -> ScriptView {
    let found = entries_spec(reply.stdout);
    ScriptView::new()
        .join(for_each_spec(found, |item: Seq<char>| unpause_cluster_spec(item, cfg)))
}

/// How the run goes on after: which Clusters are on the target after the move?
pub fn after_moved_clusters(cfg: &Config, reply: &Reply) -> (s: Script)
    ensures
        s@ == after_moved_clusters_spec(*cfg, reply@),
{
    let found = entries(reply.stdout.as_str());
    Script::new()
        .join(for_each(
            &found,
            |item: &str| -> (s: Script)
                ensures
                    s@ == unpause_cluster_spec(item@, *cfg)
                { unpause_cluster(item, cfg) },
            Ghost(|item: Seq<char>| unpause_cluster_spec(item, *cfg)),
        ))
}

/// How the run goes on after: did the object come over with the move?
pub open spec fn after_fallback_spec(
    cfg: Config,
    resource: Seq<char>,
    name: Seq<char>,
    manifest: Seq<char>,
    reply: ReplyView,
) -> ScriptView {
    if reply.ok {
        ScriptView::new()
    } else {
        ScriptView::new()
            .say(
                ">>> "@ + resource + " '"@ + name
                    + "' missing after the move; applying from Git..."@,
            )
            .perform(
                ActionView::Run(
                    command("kubectl"@)
                        .arg("--kubeconfig"@).arg(cfg.mgmt_kubeconfig@).arg("apply"@).arg("-f"@)
                        .arg(manifest),
                ),
                RuleView::Require,
            )
    }
}

/// How the run goes on after: did the object come over with the move?
pub fn after_fallback(
    cfg: &Config,
    resource: &str,
    name: &str,
    manifest: &str,
    reply: &Reply,
) -> (s: Script)
    ensures
        s@ == after_fallback_spec(*cfg, resource@, name@, manifest@, reply@),
{
    if reply.ok {
        Script::new()
    } else {
        Script::new()
            .say(
                cat5(
                    ">>> ",
                    resource,
                    " '",
                    name,
                    "' missing after the move; applying from Git...",
                ),
            )
            .perform(
                Action::Run(
                    Command::new("kubectl")
                        .arg("--kubeconfig").arg(cfg.mgmt_kubeconfig.as_str()).arg("apply")
                        .arg("-f").arg(manifest),
                ),
                Rule::Require,
            )
    }
}

/// How the run goes on after: which Clusters does the management cluster own before the kind
/// cluster is deleted?
pub open spec fn after_target_clusters_spec(cfg: Config, reply: ReplyView) -> ScriptView {
    let found = entries_spec(reply.stdout);
    if found.len() == 0 {
        ScriptView::new()
            .report("ERROR: no Clusters on the management cluster; refusing to delete kind."@)
            .fail("no Clusters on the management cluster; refusing to delete kind"@)
    } else {
        ScriptView::new()
            .join(
                if cfg.is_local_spec() {
                    ScriptView::new()
                        .ask(QuestionView::Pivot(PivotQuestionView::FinalRegistry))
                } else {
                    ScriptView::new()
                },
            )
            .join(delete_bootstrap_kind_spec(cfg))
    }
}

/// How the run goes on after: which Clusters does the management cluster own before the kind
/// cluster is deleted?
pub fn after_target_clusters(cfg: &Config, reply: &Reply) -> (s: Script)
    ensures
        s@ == after_target_clusters_spec(*cfg, reply@),
{
    let found = entries(reply.stdout.as_str());
    if found.len() == 0 {
        Script::new()
            .report(
                "ERROR: no Clusters on the management cluster; refusing to delete kind.".to_owned(),
            )
            .fail("no Clusters on the management cluster; refusing to delete kind".to_owned())
    } else {
        Script::new()
            .join(
                if cfg.is_local() {
                    Script::new()
                        .ask(Question::Pivot(PivotQuestion::FinalRegistry))
                } else {
                    Script::new()
                },
            )
            .join(delete_bootstrap_kind(cfg))
    }
}

/// How the run goes on after: is the local registry serving before the kind cluster is deleted?
pub open spec fn after_final_registry_spec(reply: ReplyView) -> ScriptView {
    if reply.ok && reply.http < 400 {
        ScriptView::new()
    } else {
        ScriptView::new()
            .report(
                "ERROR: local registry unavailable; the management cluster's Flux depends on it."@,
            )
            .report("       Refusing to delete kind until it is serving."@)
            .fail("local registry unavailable; refusing to delete kind"@)
    }
}

/// How the run goes on after: is the local registry serving before the kind cluster is deleted?
pub fn after_final_registry(reply: &Reply) -> (s: Script)
    ensures
        s@ == after_final_registry_spec(reply@),
{
    if reply.ok && reply.http < 400 {
        Script::new()
    } else {
        Script::new()
            .report(
                "ERROR: local registry unavailable; the management cluster's Flux depends on it.".to_owned(),
            )
            .report("       Refusing to delete kind until it is serving.".to_owned())
            .fail("local registry unavailable; refusing to delete kind".to_owned())
    }
}

/// How the run goes on after: can kubectl switch to the management context?
pub open spec fn after_mgmt_context_spec(cfg: Config, reply: ReplyView) -> ScriptView {
    if reply.ok {
        ScriptView::new()
            .say(">>> kubectl context switched to "@ + cfg.repo.bootstrap.mgmt_context@)
    } else {
        ScriptView::new()
            .say(">>> To use it by default: export KUBECONFIG="@ + cfg.mgmt_kubeconfig@)
    }
}

/// How the run goes on after: can kubectl switch to the management context?
pub fn after_mgmt_context(cfg: &Config, reply: &Reply) -> (s: Script)
    ensures
        s@ == after_mgmt_context_spec(*cfg, reply@),
{
    if reply.ok {
        Script::new()
            .say(cat2(">>> kubectl context switched to ", cfg.repo.bootstrap.mgmt_context.as_str()))
    } else {
        Script::new()
            .say(cat2(">>> To use it by default: export KUBECONFIG=", cfg.mgmt_kubeconfig.as_str()))
    }
}

/// How the run goes on once a question is answered.
pub open spec fn answer_spec(
    cfg: Config,
    question: PivotQuestionView,
    reply: ReplyView,
) -> ScriptView {
    match question {
        PivotQuestionView::PivotContext => after_pivot_context_spec(cfg, reply),
        PivotQuestionView::PivotCluster => after_pivot_cluster_spec(cfg, reply),
        PivotQuestionView::PivotRegistry => after_pivot_registry_spec(cfg, reply),
        PivotQuestionView::MgmtSecret { left } => after_mgmt_secret_spec(cfg, left, reply),
        PivotQuestionView::MgmtKubeconfig { engine } => after_mgmt_kubeconfig_spec(
            cfg,
            engine,
            reply,
        ),
        PivotQuestionView::MgmtPort { engine } => after_mgmt_port_spec(cfg, engine, reply),
        PivotQuestionView::MgmtCurrent => after_mgmt_current_spec(cfg, reply),
        PivotQuestionView::PivotRegistryConfig { preflight } => {
            after_pivot_registry_config_spec(cfg, preflight, reply)
        },
        PivotQuestionView::SopsSecret { manifest } => after_sops_secret_spec(cfg, manifest, reply),
        PivotQuestionView::PivotVariables => after_pivot_variables_spec(cfg, reply),
        PivotQuestionView::PivotManifest { manifest, listing } => {
            after_pivot_manifest_spec(cfg, manifest, listing, reply)
        },
        PivotQuestionView::AwsCredentials => after_aws_credentials_spec(cfg, reply),
        PivotQuestionView::SourceKustomizations => after_source_kustomizations_spec(cfg, reply),
        PivotQuestionView::Move => after_move_spec(reply),
        PivotQuestionView::MovedClusters => after_moved_clusters_spec(cfg, reply),
        PivotQuestionView::Fallback { resource, name, manifest } => {
            after_fallback_spec(cfg, resource, name, manifest, reply)
        },
        PivotQuestionView::TargetClusters => after_target_clusters_spec(cfg, reply),
        PivotQuestionView::FinalRegistry => after_final_registry_spec(reply),
        PivotQuestionView::MgmtContext => after_mgmt_context_spec(cfg, reply),
    }
}

/// How the run goes on once a question is answered.
pub fn answer(cfg: &Config, question: &PivotQuestion, reply: &Reply) -> (s: Script)
    ensures
        s@ == answer_spec(*cfg, question@, reply@),
{
    match question {
        PivotQuestion::PivotContext => after_pivot_context(cfg, reply),
        PivotQuestion::PivotCluster => after_pivot_cluster(cfg, reply),
        PivotQuestion::PivotRegistry => after_pivot_registry(cfg, reply),
        PivotQuestion::MgmtSecret { left } => after_mgmt_secret(cfg, *left, reply),
        PivotQuestion::MgmtKubeconfig { engine } => after_mgmt_kubeconfig(
            cfg,
            engine.as_str(),
            reply,
        ),
        PivotQuestion::MgmtPort { engine } => after_mgmt_port(cfg, engine.as_str(), reply),
        PivotQuestion::MgmtCurrent => after_mgmt_current(cfg, reply),
        PivotQuestion::PivotRegistryConfig { preflight } => after_pivot_registry_config(
            cfg,
            preflight,
            reply,
        ),
        PivotQuestion::SopsSecret { manifest } => after_sops_secret(cfg, manifest.as_str(), reply),
        PivotQuestion::PivotVariables => after_pivot_variables(cfg, reply),
        PivotQuestion::PivotManifest { manifest, listing } => {
            after_pivot_manifest(cfg, manifest.as_str(), listing.as_str(), reply)
        },
        PivotQuestion::AwsCredentials => after_aws_credentials(cfg, reply),
        PivotQuestion::SourceKustomizations => after_source_kustomizations(cfg, reply),
        PivotQuestion::Move => after_move(reply),
        PivotQuestion::MovedClusters => after_moved_clusters(cfg, reply),
        PivotQuestion::Fallback { resource, name, manifest } => {
            after_fallback(cfg, resource.as_str(), name.as_str(), manifest.as_str(), reply)
        },
        PivotQuestion::TargetClusters => after_target_clusters(cfg, reply),
        PivotQuestion::FinalRegistry => after_final_registry(reply),
        PivotQuestion::MgmtContext => after_mgmt_context(cfg, reply),
    }
}

/// The pivot, phase after phase. Until its last phase the kind cluster stays authoritative.
pub open spec fn run_pivot_spec(cfg: Config, preflight: PreflightView) -> ScriptView {
    ScriptView::new()
        .ask(QuestionView::Pivot(PivotQuestionView::PivotContext))
        .ask(QuestionView::Pivot(PivotQuestionView::PivotCluster))
        .join(
            if cfg.is_local_spec() {
                ScriptView::new()
                    .ask(QuestionView::Pivot(PivotQuestionView::PivotRegistry))
            } else {
                ScriptView::new()
            },
        )
        .join(pivot_wait_for_management_cluster_spec(cfg))
        .join(pivot_export_kubeconfig_spec(cfg, preflight.engine))
        .ask(QuestionView::Pivot(PivotQuestionView::PivotRegistryConfig { preflight }))
}

/// The pivot, phase after phase. Until its last phase the kind cluster stays authoritative.
pub fn run_pivot(cfg: &Config, preflight: &Preflight) -> (s: Script)
    ensures
        s@ == run_pivot_spec(*cfg, preflight@),
{
    Script::new()
        .ask(Question::Pivot(PivotQuestion::PivotContext))
        .ask(Question::Pivot(PivotQuestion::PivotCluster))
        .join(
            if cfg.is_local() {
                Script::new()
                    .ask(Question::Pivot(PivotQuestion::PivotRegistry))
            } else {
                Script::new()
            },
        )
        .join(pivot_wait_for_management_cluster(cfg))
        .join(pivot_export_kubeconfig(cfg, preflight.engine.as_str()))
        .ask(Question::Pivot(PivotQuestion::PivotRegistryConfig { preflight: preflight.copy() }))
}

/// Exports the kubeconfig of the management cluster, readable for its owner alone, and waits for
/// the nodes.
pub open spec fn pivot_export_kubeconfig_spec(cfg: Config, engine: Seq<char>) -> ScriptView {
    ScriptView::new()
        .say(">>> Exporting management-cluster kubeconfig to "@ + cfg.mgmt_kubeconfig@ + "..."@)
        .perform(
            ActionView::MakeParent(cfg.mgmt_kubeconfig@),
            RuleView::ExpectAt("failed to create "@),
        )
        .ask(QuestionView::Pivot(PivotQuestionView::MgmtKubeconfig { engine }))
        .ask(QuestionView::Pivot(PivotQuestionView::MgmtCurrent))
        .say(">>> Waiting for management-cluster nodes to be ready..."@)
        .perform(
            ActionView::Run(
                command("kubectl"@)
                    .arg("--kubeconfig"@).arg(cfg.mgmt_kubeconfig@).arg("wait"@)
                    .arg("--for=condition=Ready"@).arg("node"@).arg("--all"@).arg("--timeout=15m"@),
            ),
            RuleView::Require,
        )
}

/// Exports the kubeconfig of the management cluster, readable for its owner alone, and waits for
/// the nodes.
pub fn pivot_export_kubeconfig(cfg: &Config, engine: &str) -> (s: Script)
    ensures
        s@ == pivot_export_kubeconfig_spec(*cfg, engine@),
{
    Script::new()
        .say(
            cat3(
                ">>> Exporting management-cluster kubeconfig to ",
                cfg.mgmt_kubeconfig.as_str(),
                "...",
            ),
        )
        .perform(
            Action::MakeParent(cfg.mgmt_kubeconfig.clone()),
            Rule::ExpectAt("failed to create ".to_owned()),
        )
        .ask(Question::Pivot(PivotQuestion::MgmtKubeconfig { engine: engine.to_owned() }))
        .ask(Question::Pivot(PivotQuestion::MgmtCurrent))
        .say(">>> Waiting for management-cluster nodes to be ready...".to_owned())
        .perform(
            Action::Run(
                Command::new("kubectl")
                    .arg("--kubeconfig").arg(cfg.mgmt_kubeconfig.as_str()).arg("wait")
                    .arg("--for=condition=Ready").arg("node").arg("--all").arg("--timeout=15m"),
            ),
            Rule::Require,
        )
}

/// Installs cert-manager, the CAPI operator and the providers in the target, and waits until they
/// are ready.
pub open spec fn pivot_install_capi_in_target_spec(
    cfg: Config,
    registry_config: Seq<char>,
) -> ScriptView {
    match chart_result(cfg, "cert-manager"@) {
        Ok(version) => {
            install_cert_manager_spec(cfg, version, registry_config)
        },
        Err(message) => {
            ScriptView::new().fail(message)
        },
    }
}

/// Installs cert-manager, the CAPI operator and the providers in the target, and waits until they
/// are ready.
pub fn pivot_install_capi_in_target(cfg: &Config, registry_config: &str) -> (s: Script)
    ensures
        s@ == pivot_install_capi_in_target_spec(*cfg, registry_config@),
{
    match cfg.repo.chart("cert-manager") {
        Ok(version) => {
            install_cert_manager(cfg, version.as_str(), registry_config)
        },
        Err(message) => {
            Script::new().fail(message)
        },
    }
}

/// Installs cert-manager in the target, then the CAPI operator.
pub open spec fn install_cert_manager_spec(
    cfg: Config,
    version: Seq<char>,
    registry_config: Seq<char>,
) -> ScriptView {
    ScriptView::new()
        .say(">>> Installing cert-manager "@ + version + " in the target..."@)
        .perform(
            ActionView::Run(
                command("helm"@)
                    .arg("upgrade"@).arg("--install"@).arg("cert-manager"@).arg("cert-manager"@)
                    .arg("--repo"@).arg("https://charts.jetstack.io"@).arg("--version"@)
                    .arg(version).arg("--namespace"@).arg("cert-manager"@)
                    .arg("--create-namespace"@).arg("--wait"@).arg("--set"@)
                    .arg("crds.enabled=true"@).arg("--registry-config"@).arg(registry_config)
                    .arg("--kubeconfig"@).arg(cfg.mgmt_kubeconfig@),
            ),
            RuleView::Require,
        )
        .join(
            match chart_result(cfg, "capi-operator"@) {
                Ok(operator) => {
                    install_capi_operator_spec(cfg, operator, registry_config)
                },
                Err(message) => {
                    ScriptView::new().fail(message)
                },
            },
        )
}

/// Installs cert-manager in the target, then the CAPI operator.
pub fn install_cert_manager(cfg: &Config, version: &str, registry_config: &str) -> (s: Script)
    ensures
        s@ == install_cert_manager_spec(*cfg, version@, registry_config@),
{
    Script::new()
        .say(cat3(">>> Installing cert-manager ", version, " in the target..."))
        .perform(
            Action::Run(
                Command::new("helm")
                    .arg("upgrade").arg("--install").arg("cert-manager").arg("cert-manager")
                    .arg("--repo").arg("https://charts.jetstack.io").arg("--version").arg(version)
                    .arg("--namespace").arg("cert-manager").arg("--create-namespace").arg("--wait")
                    .arg("--set").arg("crds.enabled=true").arg("--registry-config")
                    .arg(registry_config).arg("--kubeconfig").arg(cfg.mgmt_kubeconfig.as_str()),
            ),
            Rule::Require,
        )
        .join(
            match cfg.repo.chart("capi-operator") {
                Ok(operator) => {
                    install_capi_operator(cfg, operator.as_str(), registry_config)
                },
                Err(message) => {
                    Script::new().fail(message)
                },
            },
        )
}

/// Installs the CAPI operator in the target, then the providers.
pub open spec fn install_capi_operator_spec(
    cfg: Config,
    version: Seq<char>,
    registry_config: Seq<char>,
) -> ScriptView {
    ScriptView::new()
        .say(">>> Installing CAPI operator "@ + version + " in the target..."@)
        .perform(
            ActionView::Run(
                command("helm"@)
                    .arg("upgrade"@).arg("--install"@).arg("capi-operator"@)
                    .arg("cluster-api-operator"@).arg("--repo"@)
                    .arg("https://kubernetes-sigs.github.io/cluster-api-operator"@)
                    .arg("--version"@).arg(version).arg("--namespace"@).arg("capi-operator-system"@)
                    .arg("--create-namespace"@).arg("--wait"@).arg("--set"@)
                    .arg("cert-manager.enabled=false"@).arg("--registry-config"@)
                    .arg(registry_config).arg("--kubeconfig"@).arg(cfg.mgmt_kubeconfig@),
            ),
            RuleView::Require,
        )
        .say(">>> Applying provider CRs in the target..."@)
        .join(
            for_each_spec(
                texts(cfg.environment.provider_manifests@),
                |item: Seq<char>| apply_file_spec(item, cfg.mgmt_kubeconfig@),
            ),
        )
        .join(pivot_secrets_spec(cfg))
        .join(pivot_plain_manifests_spec(cfg))
        .join(aws_credentials_spec(cfg))
        .join(await_providers_spec(cfg))
}

/// Installs the CAPI operator in the target, then the providers.
pub fn install_capi_operator(cfg: &Config, version: &str, registry_config: &str) -> (s: Script)
    ensures
        s@ == install_capi_operator_spec(*cfg, version@, registry_config@),
{
    Script::new()
        .say(cat3(">>> Installing CAPI operator ", version, " in the target..."))
        .perform(
            Action::Run(
                Command::new("helm")
                    .arg("upgrade").arg("--install").arg("capi-operator")
                    .arg("cluster-api-operator").arg("--repo")
                    .arg("https://kubernetes-sigs.github.io/cluster-api-operator").arg("--version")
                    .arg(version).arg("--namespace").arg("capi-operator-system")
                    .arg("--create-namespace").arg("--wait").arg("--set")
                    .arg("cert-manager.enabled=false").arg("--registry-config").arg(registry_config)
                    .arg("--kubeconfig").arg(cfg.mgmt_kubeconfig.as_str()),
            ),
            Rule::Require,
        )
        .say(">>> Applying provider CRs in the target...".to_owned())
        .join(for_each(
            &cfg.environment.provider_manifests,
            |item: &str| -> (s: Script)
                ensures
                    s@ == apply_file_spec(item@, cfg.mgmt_kubeconfig@)
                { apply_file(item, cfg.mgmt_kubeconfig.as_str()) },
            Ghost(|item: Seq<char>| apply_file_spec(item, cfg.mgmt_kubeconfig@)),
        ))
        .join(pivot_secrets(cfg))
        .join(pivot_plain_manifests(cfg))
        .join(aws_credentials(cfg))
        .join(await_providers(cfg))
}

/// Applies one manifest of the checkout to the target.
pub open spec fn apply_file_spec(manifest: Seq<char>, kubeconfig: Seq<char>) -> ScriptView {
    ScriptView::new()
        .perform(
            ActionView::Run(
                command("kubectl"@)
                    .arg("--kubeconfig"@).arg(kubeconfig).arg("apply"@).arg("-f"@).arg(manifest),
            ),
            RuleView::Require,
        )
}

/// Applies one manifest of the checkout to the target.
pub fn apply_file(manifest: &str, kubeconfig: &str) -> (s: Script)
    ensures
        s@ == apply_file_spec(manifest@, kubeconfig@),
{
    Script::new()
        .perform(
            Action::Run(
                Command::new("kubectl")
                    .arg("--kubeconfig").arg(kubeconfig).arg("apply").arg("-f").arg(manifest),
            ),
            Rule::Require,
        )
}

/// The encrypted manifests that the target needs before the move.
pub open spec fn pivot_secrets_spec(cfg: Config) -> ScriptView {
    ScriptView::new()
        .join(
            for_each_spec(
                texts(cfg.environment.pivot_sops_secrets@),
                |item: Seq<char>| ask_secret_spec(item),
            ),
        )
}

/// The encrypted manifests that the target needs before the move.
pub fn pivot_secrets(cfg: &Config) -> (s: Script)
    ensures
        s@ == pivot_secrets_spec(*cfg),
{
    Script::new()
        .join(for_each(
            &cfg.environment.pivot_sops_secrets,
            |item: &str| -> (s: Script)
                ensures
                    s@ == ask_secret_spec(item@)
                { ask_secret(item) },
            Ghost(|item: Seq<char>| ask_secret_spec(item)),
        ))
}

/// One encrypted manifest that the target needs before the move.
pub open spec fn ask_secret_spec(manifest: Seq<char>) -> ScriptView {
    ScriptView::new()
        .ask(QuestionView::Pivot(PivotQuestionView::SopsSecret { manifest }))
}

/// One encrypted manifest that the target needs before the move.
pub fn ask_secret(manifest: &str) -> (s: Script)
    ensures
        s@ == ask_secret_spec(manifest@),
{
    Script::new()
        .ask(Question::Pivot(PivotQuestion::SopsSecret { manifest: manifest.to_owned() }))
}

/// The plain manifests that the target needs before the move.
pub open spec fn pivot_plain_manifests_spec(cfg: Config) -> ScriptView {
    if cfg.environment.pivot_manifests@.len() > 0 {
        ScriptView::new()
            .ask(QuestionView::Pivot(PivotQuestionView::PivotVariables))
    } else {
        ScriptView::new()
    }
}

/// The plain manifests that the target needs before the move.
pub fn pivot_plain_manifests(cfg: &Config) -> (s: Script)
    ensures
        s@ == pivot_plain_manifests_spec(*cfg),
{
    if cfg.environment.pivot_manifests.len() > 0 {
        Script::new()
            .ask(Question::Pivot(PivotQuestion::PivotVariables))
    } else {
        Script::new()
    }
}

/// One plain manifest that the target needs before the move.
pub open spec fn ask_manifest_spec(manifest: Seq<char>, listing: Seq<char>) -> ScriptView {
    ScriptView::new()
        .ask(QuestionView::Pivot(PivotQuestionView::PivotManifest { manifest, listing }))
}

/// One plain manifest that the target needs before the move.
pub fn ask_manifest(manifest: &str, listing: &str) -> (s: Script)
    ensures
        s@ == ask_manifest_spec(manifest@, listing@),
{
    Script::new()
        .ask(
            Question::Pivot(
                PivotQuestion::PivotManifest {
                    manifest: manifest.to_owned(),
                    listing: listing.to_owned(),
                },
            ),
        )
}

/// The credentials that CAPA needs in the target, in the aws environment.
pub open spec fn aws_credentials_spec(cfg: Config) -> ScriptView {
    if cfg.profile@ == "aws"@ {
        ScriptView::new()
            .say(">>> Creating CAPA credentials secret in capa-system..."@)
            .ask(QuestionView::Pivot(PivotQuestionView::AwsCredentials))
    } else {
        ScriptView::new()
    }
}

/// The credentials that CAPA needs in the target, in the aws environment.
pub fn aws_credentials(cfg: &Config) -> (s: Script)
    ensures
        s@ == aws_credentials_spec(*cfg),
{
    if same(cfg.profile.as_str(), "aws") {
        Script::new()
            .say(">>> Creating CAPA credentials secret in capa-system...".to_owned())
            .ask(Question::Pivot(PivotQuestion::AwsCredentials))
    } else {
        Script::new()
    }
}

/// Waits for the providers in the target, and lists the providers of both clusters.
pub open spec fn await_providers_spec(cfg: Config) -> ScriptView {
    ScriptView::new()
        .say(">>> Waiting for providers in the target..."@)
        .perform(
            ActionView::Run(
                command("kubectl"@)
                    .arg("--kubeconfig"@).arg(cfg.mgmt_kubeconfig@).arg("wait"@)
                    .arg("--for=condition=Ready"@).arg("coreprovider/cluster-api"@).arg("-n"@)
                    .arg("capi-system"@).arg("--timeout=15m"@),
            ),
            RuleView::Require,
        )
        .perform(
            ActionView::Run(
                command("kubectl"@)
                    .arg("--kubeconfig"@).arg(cfg.mgmt_kubeconfig@).arg("wait"@)
                    .arg("--for=condition=Ready"@).arg("bootstrapprovider/kubeadm"@)
                    .arg("controlplaneprovider/kubeadm"@).arg("-n"@).arg("capi-system"@)
                    .arg("--timeout=15m"@),
            ),
            RuleView::Require,
        )
        .perform(
            ActionView::Run(
                command("kubectl"@)
                    .arg("--kubeconfig"@).arg(cfg.mgmt_kubeconfig@).arg("wait"@)
                    .arg("--for=condition=Ready"@)
                    .arg("infrastructureprovider/"@ + cfg.environment.infra_provider_name@)
                    .arg("-n"@).arg(cfg.environment.infra_provider_namespace@)
                    .arg("--timeout=15m"@),
            ),
            RuleView::Require,
        )
        .perform(
            ActionView::Run(
                command("kubectl"@)
                    .arg("--kubeconfig"@).arg(cfg.mgmt_kubeconfig@).arg("wait"@)
                    .arg("--for=condition=Ready"@).arg("addonprovider/helm"@).arg("-n"@)
                    .arg("caaph-system"@).arg("--timeout=15m"@),
            ),
            RuleView::Require,
        )
        .say(">>> Source providers:"@)
        .perform(
            ActionView::Run(
                command("kubectl"@)
                    .arg("get"@)
                    .arg(
                        "coreproviders,bootstrapproviders,controlplaneproviders,infrastructureproviders,addonproviders"@,
                    )
                    .arg("-A"@),
            ),
            RuleView::Ignore,
        )
        .say(">>> Target providers:"@)
        .perform(
            ActionView::Run(
                command("kubectl"@)
                    .arg("--kubeconfig"@).arg(cfg.mgmt_kubeconfig@).arg("get"@)
                    .arg(
                        "coreproviders,bootstrapproviders,controlplaneproviders,infrastructureproviders,addonproviders"@,
                    )
                    .arg("-A"@),
            ),
            RuleView::Ignore,
        )
}

/// Waits for the providers in the target, and lists the providers of both clusters.
pub fn await_providers(cfg: &Config) -> (s: Script)
    ensures
        s@ == await_providers_spec(*cfg),
{
    Script::new()
        .say(">>> Waiting for providers in the target...".to_owned())
        .perform(
            Action::Run(
                Command::new("kubectl")
                    .arg("--kubeconfig").arg(cfg.mgmt_kubeconfig.as_str()).arg("wait")
                    .arg("--for=condition=Ready").arg("coreprovider/cluster-api").arg("-n")
                    .arg("capi-system").arg("--timeout=15m"),
            ),
            Rule::Require,
        )
        .perform(
            Action::Run(
                Command::new("kubectl")
                    .arg("--kubeconfig").arg(cfg.mgmt_kubeconfig.as_str()).arg("wait")
                    .arg("--for=condition=Ready").arg("bootstrapprovider/kubeadm")
                    .arg("controlplaneprovider/kubeadm").arg("-n").arg("capi-system")
                    .arg("--timeout=15m"),
            ),
            Rule::Require,
        )
        .perform(
            Action::Run(
                Command::new("kubectl")
                    .arg("--kubeconfig").arg(cfg.mgmt_kubeconfig.as_str()).arg("wait")
                    .arg("--for=condition=Ready")
                    .arg(
                        cat2(
                            "infrastructureprovider/",
                            cfg.environment.infra_provider_name.as_str(),
                        ).as_str(),
                    )
                    .arg("-n").arg(cfg.environment.infra_provider_namespace.as_str())
                    .arg("--timeout=15m"),
            ),
            Rule::Require,
        )
        .perform(
            Action::Run(
                Command::new("kubectl")
                    .arg("--kubeconfig").arg(cfg.mgmt_kubeconfig.as_str()).arg("wait")
                    .arg("--for=condition=Ready").arg("addonprovider/helm").arg("-n")
                    .arg("caaph-system").arg("--timeout=15m"),
            ),
            Rule::Require,
        )
        .say(">>> Source providers:".to_owned())
        .perform(
            Action::Run(
                Command::new("kubectl")
                    .arg("get")
                    .arg(
                        "coreproviders,bootstrapproviders,controlplaneproviders,infrastructureproviders,addonproviders",
                    )
                    .arg("-A"),
            ),
            Rule::Ignore,
        )
        .say(">>> Target providers:".to_owned())
        .perform(
            Action::Run(
                Command::new("kubectl")
                    .arg("--kubeconfig").arg(cfg.mgmt_kubeconfig.as_str()).arg("get")
                    .arg(
                        "coreproviders,bootstrapproviders,controlplaneproviders,infrastructureproviders,addonproviders",
                    )
                    .arg("-A"),
            ),
            Rule::Ignore,
        )
}

/// Suspends one Kustomization of the kind cluster.
pub open spec fn suspend_kustomization_spec(name: Seq<char>, namespace: Seq<char>) -> ScriptView {
    let patch = json_text(suspend_patch_spec());
    ScriptView::new()
        .perform(
            ActionView::Run(
                command("kubectl"@)
                    .arg("patch"@).arg(name).arg("-n"@).arg(namespace).arg("--type"@).arg("merge"@)
                    .arg("-p"@).arg(patch),
            ),
            RuleView::Require,
        )
}

/// Suspends one Kustomization of the kind cluster.
pub fn suspend_kustomization(name: &str, namespace: &str) -> (s: Script)
    ensures
        s@ == suspend_kustomization_spec(name@, namespace@),
{
    let patch = json::compact(&suspend_patch());
    Script::new()
        .perform(
            Action::Run(
                Command::new("kubectl")
                    .arg("patch").arg(name).arg("-n").arg(namespace).arg("--type").arg("merge")
                    .arg("-p").arg(patch.as_str()),
            ),
            Rule::Require,
        )
}

/// Unpauses one moved Cluster.
pub open spec fn unpause_cluster_spec(name: Seq<char>, cfg: Config) -> ScriptView {
    let patch = json_text(unpause_patch_spec());
    ScriptView::new()
        .perform(
            ActionView::Quiet(
                command("kubectl"@)
                    .arg("--kubeconfig"@).arg(cfg.mgmt_kubeconfig@).arg("patch"@).arg(name)
                    .arg("-n"@).arg(cfg.repo.bootstrap.mgmt_namespace@).arg("--type"@).arg("merge"@)
                    .arg("-p"@).arg(patch),
            ),
            RuleView::Ignore,
        )
}

/// Unpauses one moved Cluster.
pub fn unpause_cluster(name: &str, cfg: &Config) -> (s: Script)
    ensures
        s@ == unpause_cluster_spec(name@, *cfg),
{
    let patch = json::compact(&unpause_patch());
    Script::new()
        .perform(
            Action::Quiet(
                Command::new("kubectl")
                    .arg("--kubeconfig").arg(cfg.mgmt_kubeconfig.as_str()).arg("patch").arg(name)
                    .arg("-n").arg(cfg.repo.bootstrap.mgmt_namespace.as_str()).arg("--type")
                    .arg("merge").arg("-p").arg(patch.as_str()),
            ),
            Rule::Ignore,
        )
}

/// Suspends Flux in the kind cluster, moves the inventory, and unpauses the moved Clusters.
pub open spec fn pivot_suspend_and_move_spec(cfg: Config) -> ScriptView {
    ScriptView::new()
        .say(">>> Suspending Flux Kustomizations in the bootstrap cluster..."@)
        .ask(QuestionView::Pivot(PivotQuestionView::SourceKustomizations))
        .say(">>> Moving the CAPI inventory to the management cluster..."@)
        .ask(QuestionView::Pivot(PivotQuestionView::Move))
        .say(">>> Unpausing moved Clusters on the target..."@)
        .ask(QuestionView::Pivot(PivotQuestionView::MovedClusters))
        .say(">>> Clusters on the management cluster after the move:"@)
        .perform(
            ActionView::Run(
                command("kubectl"@)
                    .arg("--kubeconfig"@).arg(cfg.mgmt_kubeconfig@).arg("get"@).arg("clusters"@)
                    .arg("-n"@).arg(cfg.repo.bootstrap.mgmt_namespace@),
            ),
            RuleView::Require,
        )
        .join(fallbacks_spec(cfg.environment.move_fallbacks@))
}

/// Suspends Flux in the kind cluster, moves the inventory, and unpauses the moved Clusters.
pub fn pivot_suspend_and_move(cfg: &Config) -> (s: Script)
    ensures
        s@ == pivot_suspend_and_move_spec(*cfg),
{
    Script::new()
        .say(">>> Suspending Flux Kustomizations in the bootstrap cluster...".to_owned())
        .ask(Question::Pivot(PivotQuestion::SourceKustomizations))
        .say(">>> Moving the CAPI inventory to the management cluster...".to_owned())
        .ask(Question::Pivot(PivotQuestion::Move))
        .say(">>> Unpausing moved Clusters on the target...".to_owned())
        .ask(Question::Pivot(PivotQuestion::MovedClusters))
        .say(">>> Clusters on the management cluster after the move:".to_owned())
        .perform(
            Action::Run(
                Command::new("kubectl")
                    .arg("--kubeconfig").arg(cfg.mgmt_kubeconfig.as_str()).arg("get")
                    .arg("clusters").arg("-n").arg(cfg.repo.bootstrap.mgmt_namespace.as_str()),
            ),
            Rule::Require,
        )
        .join(fallbacks(&cfg.environment.move_fallbacks))
}

/// Seeds Flux on the target, as the bootstrap did on the kind cluster.
pub open spec fn pivot_seed_target_spec(
    cfg: Config,
    preflight: PreflightView,
    registry_config: Seq<char>,
) -> ScriptView {
    let kubeconfig = Some(cfg.mgmt_kubeconfig@);
    ScriptView::new()
        .join(
            if cfg.is_local_spec() {
                ScriptView::new()
                    .say(">>> Publishing the current checkout as the OCI artifact..."@)
                    .perform(ActionView::Run(oci_push_spec(cfg)), RuleView::Require)
            } else {
                ScriptView::new()
            },
        )
        .join(install_flux_operator_spec(cfg, registry_config, kubeconfig))
        .join(create_secrets_spec(cfg, preflight.github, kubeconfig))
        .join(install_flux_instance_spec(cfg, preflight.github, registry_config, kubeconfig, None))
        .say(">>> Kustomizations on the management cluster:"@)
        .perform(
            ActionView::Run(
                command("kubectl"@)
                    .arg("--kubeconfig"@).arg(cfg.mgmt_kubeconfig@).arg("get"@)
                    .arg("kustomizations"@).arg("-n"@).arg(cfg.repo.bootstrap.flux_namespace@),
            ),
            RuleView::Require,
        )
}

/// Seeds Flux on the target, as the bootstrap did on the kind cluster.
pub fn pivot_seed_target(cfg: &Config, preflight: &Preflight, registry_config: &str) -> (s: Script)
    ensures
        s@ == pivot_seed_target_spec(*cfg, preflight@, registry_config@),
{
    let kubeconfig = Some(cfg.mgmt_kubeconfig.clone());
    Script::new()
        .join(
            if cfg.is_local() {
                Script::new()
                    .say(">>> Publishing the current checkout as the OCI artifact...".to_owned())
                    .perform(Action::Run(oci_push(cfg)), Rule::Require)
            } else {
                Script::new()
            },
        )
        .join(install_flux_operator(cfg, registry_config, &kubeconfig))
        .join(create_secrets(cfg, &preflight.github, &kubeconfig))
        .join(install_flux_instance(cfg, &preflight.github, registry_config, &kubeconfig, &None))
        .say(">>> Kustomizations on the management cluster:".to_owned())
        .perform(
            Action::Run(
                Command::new("kubectl")
                    .arg("--kubeconfig").arg(cfg.mgmt_kubeconfig.as_str()).arg("get")
                    .arg("kustomizations").arg("-n")
                    .arg(cfg.repo.bootstrap.flux_namespace.as_str()),
            ),
            Rule::Require,
        )
}

/// Deletes the kind cluster, guarded: only once the management cluster owns Clusters and, in the
/// local environment, the registry is serving.
pub open spec fn pivot_delete_bootstrap_cluster_spec(cfg: Config) -> ScriptView {
    if cfg.pivot_skip_delete {
        ScriptView::new()
            .say(">>> PIVOT_SKIP_DELETE=1: keeping the kind bootstrap cluster for inspection"@)
    } else {
        ScriptView::new()
            .ask(QuestionView::Pivot(PivotQuestionView::TargetClusters))
    }
}

/// Deletes the kind cluster, guarded: only once the management cluster owns Clusters and, in the
/// local environment, the registry is serving.
pub fn pivot_delete_bootstrap_cluster(cfg: &Config) -> (s: Script)
    ensures
        s@ == pivot_delete_bootstrap_cluster_spec(*cfg),
{
    if cfg.pivot_skip_delete {
        Script::new()
            .say(
                ">>> PIVOT_SKIP_DELETE=1: keeping the kind bootstrap cluster for inspection".to_owned(),
            )
    } else {
        Script::new()
            .ask(Question::Pivot(PivotQuestion::TargetClusters))
    }
}

/// Deletes the kind cluster.
pub open spec fn delete_bootstrap_kind_spec(cfg: Config) -> ScriptView {
    ScriptView::new()
        .say(">>> Deleting the kind bootstrap cluster..."@)
        .join(toolbox_exit_spec(cfg))
        .perform(
            ActionView::Run(
                command("kind"@)
                    .arg("delete"@).arg("cluster"@).arg("--name"@)
                    .arg(cfg.repo.bootstrap.kind_cluster@),
            ),
            RuleView::Require,
        )
        .say(""@)
        .say(">>> Pivot complete: the management cluster is self-managed."@)
        .say(">>> Management kubeconfig: "@ + cfg.mgmt_kubeconfig@)
        .say(">>> Use with: KUBECONFIG="@ + cfg.mgmt_kubeconfig@ + " kubectl get clusters"@)
        .ask(QuestionView::Pivot(PivotQuestionView::MgmtContext))
}

/// Deletes the kind cluster.
pub fn delete_bootstrap_kind(cfg: &Config) -> (s: Script)
    ensures
        s@ == delete_bootstrap_kind_spec(*cfg),
{
    Script::new()
        .say(">>> Deleting the kind bootstrap cluster...".to_owned())
        .join(toolbox_exit(cfg))
        .perform(
            Action::Run(
                Command::new("kind")
                    .arg("delete").arg("cluster").arg("--name")
                    .arg(cfg.repo.bootstrap.kind_cluster.as_str()),
            ),
            Rule::Require,
        )
        .say("".to_owned())
        .say(">>> Pivot complete: the management cluster is self-managed.".to_owned())
        .say(cat2(">>> Management kubeconfig: ", cfg.mgmt_kubeconfig.as_str()))
        .say(
            cat3(
                ">>> Use with: KUBECONFIG=",
                cfg.mgmt_kubeconfig.as_str(),
                " kubectl get clusters",
            ),
        )
        .ask(Question::Pivot(PivotQuestion::MgmtContext))
}

} // verus!
