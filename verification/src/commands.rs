//! Commands that are bound to a Kubernetes target.
use vstd::prelude::*;

use crate::kube::{K8sTarget, K8sTargetView};
use crate::script::{command, Command, CommandView};
use crate::text::optional;

verus! {

/// kubectl, bound to a target.
pub open spec fn kubectl_on_spec(target: K8sTargetView) -> CommandView {
    command("kubectl"@).with_args(target.prefix())
}

/// kubectl, bound to a target.
pub fn kubectl_on(target: &K8sTarget) -> (c: Command)
    ensures
        c@ == kubectl_on_spec(target@),
{
    Command::new("kubectl").with_args(&target.prefix())
}

/// helm, bound to a target.
pub open spec fn helm_on_spec(target: K8sTargetView) -> CommandView {
    command("helm"@).with_args(target.helm_prefix())
}

/// helm, bound to a target.
pub fn helm_on(target: &K8sTarget) -> (c: Command)
    ensures
        c@ == helm_on_spec(target@),
{
    Command::new("helm").with_args(&target.helm_prefix())
}

/// kubectl with a kubeconfig of its own, or on the current context where there is none.
pub open spec fn kubectl_cmd_spec(kubeconfig: Option<Seq<char>>) -> CommandView {
    match kubeconfig {
        Some(path) => command("kubectl"@).arg("--kubeconfig"@).arg(path),
        None => command("kubectl"@),
    }
}

/// kubectl with a kubeconfig of its own, or on the current context where there is none.
pub fn kubectl_cmd(kubeconfig: &Option<String>) -> (c: Command)
    ensures
        c@ == kubectl_cmd_spec(optional(*kubeconfig)),
{
    match kubeconfig {
        Some(path) => Command::new("kubectl").arg("--kubeconfig").arg(path.as_str()),
        None => Command::new("kubectl"),
    }
}

} // verus!
