//! Kubernetes targets, what a query of them says, and the guard of the controller host.
use vstd::prelude::*;

use crate::text::{
    cat3, contains, contains_spec, is_blank, is_blank_spec, lowercase, lowercase_spec, names,
    names_spec, same, texts,
};

verus! {

/// Where the CAPI controllers, which the deletion guard protects, are running.
#[derive(Clone, Copy, Debug, PartialEq, Eq, Structural)]
pub enum ControllerHost {
    /// The kind bootstrap cluster.
    Kind,
    /// The self-managed management cluster, by its exported kubeconfig.
    SelfManaged,
    /// No reachable controller host.
    Unreachable,
}

/// A concrete Kubernetes target: the kind bootstrap context before the pivot, the self-managed
/// management kubeconfig after it. Neither relies on the caller's current context.
#[derive(Debug, Clone, PartialEq)]
pub enum K8sTarget {
    /// The kind bootstrap cluster, addressed by context name.
    Kind { context: String },
    /// The self-managed management cluster, by kubeconfig path.
    SelfManaged { kubeconfig: String },
}

/// The model of a Kubernetes target.
pub enum K8sTargetView {
    Kind { context: Seq<char> },
    SelfManaged { kubeconfig: Seq<char> },
}

impl View for K8sTarget {
    type V = K8sTargetView;

    open spec fn view(&self) -> K8sTargetView {
        match *self {
            K8sTarget::Kind { context } => K8sTargetView::Kind { context: context@ },
            K8sTarget::SelfManaged { kubeconfig } => K8sTargetView::SelfManaged {
                kubeconfig: kubeconfig@,
            },
        }
    }
}

impl K8sTargetView {
    /// The flag and the value that bind kubectl to the target.
    pub open spec fn prefix(self) -> Seq<Seq<char>> {
        match self {
            K8sTargetView::Kind { context } => Seq::empty().push("--context"@).push(context),
            K8sTargetView::SelfManaged { kubeconfig } => Seq::empty().push("--kubeconfig"@).push(
                kubeconfig,
            ),
        }
    }

    /// The flag and the value that bind helm to the target.
    pub open spec fn helm_prefix(self) -> Seq<Seq<char>> {
        match self {
            K8sTargetView::Kind { context } => Seq::empty().push("--kube-context"@).push(context),
            K8sTargetView::SelfManaged { kubeconfig } => Seq::empty().push("--kubeconfig"@).push(
                kubeconfig,
            ),
        }
    }
}

/// A list of two strings.
fn two(a: &str, b: &str) -> (v: Vec<String>)
    ensures
        texts(v@) == Seq::empty().push(a@).push(b@),
{
    let mut v: Vec<String> = Vec::new();
    v.push(a.to_owned());
    v.push(b.to_owned());
    assert(texts(v@) =~= Seq::empty().push(a@).push(b@));
    v
}

impl K8sTarget {
    /// `--context` / `--kubeconfig` argv prefix for kubectl.
    pub fn prefix(&self) -> (r: Vec<String>)
        ensures
            texts(r@) == self@.prefix(),
    {
        match self {
            K8sTarget::Kind { context } => two("--context", context.as_str()),
            K8sTarget::SelfManaged { kubeconfig } => two("--kubeconfig", kubeconfig.as_str()),
        }
    }

    /// `--kube-context` / `--kubeconfig` argv prefix for helm. Helm names the context flag
    /// `--kube-context`; the `--context` that kubectl accepts is an unknown flag to helm.
    pub fn helm_prefix(&self) -> (r: Vec<String>)
        ensures
            texts(r@) == self@.helm_prefix(),
    {
        match self {
            K8sTarget::Kind { context } => two("--kube-context", context.as_str()),
            K8sTarget::SelfManaged { kubeconfig } => two("--kubeconfig", kubeconfig.as_str()),
        }
    }

    /// The same target.
    pub fn copy(&self) -> (r: K8sTarget)
        ensures
            r@ == self@,
    {
        match self {
            K8sTarget::Kind { context } => K8sTarget::Kind { context: context.clone() },
            K8sTarget::SelfManaged { kubeconfig } => K8sTarget::SelfManaged {
                kubeconfig: kubeconfig.clone(),
            },
        }
    }
}

/// Guard state for removing the controller host: it is removed only once the CAPI clusters are
/// confirmed gone, or unconditionally by force.
#[derive(Clone, Copy, Debug, PartialEq, Eq, Structural)]
pub enum HostGuard {
    /// The clusters are gone: safe to remove the host.
    ConfirmedGone,
    /// Remove the host regardless of the risk of orphans.
    Forced,
    /// Refuse to remove the host, keep the controllers running.
    Refuse,
}

impl HostGuard {
    /// The guard: force decides first, then whether the clusters are gone.
    pub open spec fn resolve_spec(clusters_gone: bool, force: bool) -> HostGuard {
        if force {
            HostGuard::Forced
        } else if clusters_gone {
            HostGuard::ConfirmedGone
        } else {
            HostGuard::Refuse
        }
    }

    /// The guard: force decides first, then whether the clusters are gone.
    pub fn resolve(clusters_gone: bool, force: bool) -> (r: Self)
        ensures
            r == Self::resolve_spec(clusters_gone, force),
    {
        if force {
            HostGuard::Forced
        } else if clusters_gone {
            HostGuard::ConfirmedGone
        } else {
            HostGuard::Refuse
        }
    }

    /// The text of the refusal.
    pub open spec fn refusal_message_spec(host: Seq<char>) -> Seq<char> {
        "Refusing to delete "@ + host
            + ": CAPI clusters were not\nconfirmed deleted. Leaving the CAPI controller running so AWS resources can continue\ndeprovisioning. Re-run teardown once 'kubectl get clusters -A' is empty,\nor set FORCE_KIND_DELETE=1 to force-delete and accept orphaned AWS resources."@
    }

    /// The text of the refusal.
    pub fn refusal_message(host: &str) -> (r: String)
        ensures
            r@ == Self::refusal_message_spec(host@),
    {
        cat3(
            "Refusing to delete ",
            host,
            ": CAPI clusters were not\nconfirmed deleted. Leaving the CAPI controller running so AWS resources can continue\ndeprovisioning. Re-run teardown once 'kubectl get clusters -A' is empty,\nor set FORCE_KIND_DELETE=1 to force-delete and accept orphaned AWS resources.",
        )
    }
}

/// The host is removed exactly when the clusters are confirmed gone or the removal is forced.
pub proof fn law_guard_refuses_unconfirmed(clusters_gone: bool, force: bool)
    ensures
        HostGuard::resolve_spec(clusters_gone, force) == HostGuard::Refuse <==> !clusters_gone
            && !force,
{
}

// ---------------------------------------------------------------------------------------------
// Probes
// ---------------------------------------------------------------------------------------------
/// What a query says of a resource.
#[derive(Debug, Clone, Copy, PartialEq, Eq, Structural)]
pub enum ProbeOutcome {
    /// The query succeeded and found the resource.
    Present,
    /// The query succeeded and found nothing, a named lookup was answered that the resource does
    /// not exist, or the API server has no resource of that type.
    Absent,
    /// The query failed for another reason. Absence is not established.
    Error,
}

/// What a finished query says, given the lower-case text of everything that it printed. `single` is
/// true of the lookup of one named resource, for which "not found" is an answer; of a list it is a
/// failure.
pub open spec fn classify_spec(
    ok: bool,
    stdout: Seq<char>,
    printed_lower: Seq<char>,
    single: bool,
) -> ProbeOutcome {
    if ok {
        if is_blank_spec(stdout) {
            ProbeOutcome::Absent
        } else {
            ProbeOutcome::Present
        }
    } else if contains_spec(printed_lower, "the server doesn't have a resource type"@) {
        ProbeOutcome::Absent
    } else if single && (contains_spec(printed_lower, "not found"@) || contains_spec(
        printed_lower,
        "notfound"@,
    )) {
        ProbeOutcome::Absent
    } else {
        ProbeOutcome::Error
    }
}

/// What a finished query says, given the lower-case text of everything that it printed.
pub fn classify(ok: bool, stdout: &str, printed_lower: &str, single: bool) -> (r: ProbeOutcome)
    ensures
        r == classify_spec(ok, stdout@, printed_lower@, single),
{
    if ok {
        return if is_blank(stdout) {
            ProbeOutcome::Absent
        } else {
            ProbeOutcome::Present
        };
    }
    if contains(printed_lower, "the server doesn't have a resource type") {
        return ProbeOutcome::Absent;
    }
    if single && (contains(printed_lower, "not found") || contains(printed_lower, "notfound")) {
        return ProbeOutcome::Absent;
    }
    ProbeOutcome::Error
}

/// What a query says, given what it printed.
pub open spec fn probe_spec(
    ok: bool,
    stdout: Seq<char>,
    stderr: Seq<char>,
    single: bool,
) -> ProbeOutcome {
    classify_spec(ok, stdout, lowercase_spec(stdout + "\n"@ + stderr), single)
}

/// What a query says, given what it printed.
pub fn probe(ok: bool, stdout: &str, stderr: &str, single: bool) -> (r: ProbeOutcome)
    ensures
        r == probe_spec(ok, stdout@, stderr@, single),
{
    classify(ok, stdout, lowercase(cat3(stdout, "\n", stderr).as_str()).as_str(), single)
}

/// A failed query of a list reads as absence only where the API server answers that it has no
/// resource of that type; a successful query never reads as an error, and never as presence of
/// nothing.
pub proof fn law_failed_listing_is_not_absence(
    ok: bool,
    stdout: Seq<char>,
    printed_lower: Seq<char>,
)
    ensures
        !ok && !contains_spec(printed_lower, "the server doesn't have a resource type"@)
            ==> classify_spec(ok, stdout, printed_lower, false) == ProbeOutcome::Error,
        ok ==> classify_spec(ok, stdout, printed_lower, false) != ProbeOutcome::Error,
        classify_spec(ok, stdout, printed_lower, false) == ProbeOutcome::Present <==> ok
            && !is_blank_spec(stdout),
{
}

// ---------------------------------------------------------------------------------------------
// Workload clusters
// ---------------------------------------------------------------------------------------------
/// Whether one text comes before another in the order of their characters.
pub open spec fn before(a: Seq<char>, b: Seq<char>) -> bool
    decreases a.len(),
{
    if b.len() == 0 {
        false
    } else if a.len() == 0 {
        true
    } else if a[0] != b[0] {
        (a[0] as int) < (b[0] as int)
    } else {
        before(a.skip(1), b.skip(1))
    }
}

proof fn before_total(a: Seq<char>, b: Seq<char>)
    ensures
        before(a, b) || before(b, a) || a == b,
        !(before(a, b) && before(b, a)),
        !before(a, a),
    decreases a.len(),
{
    if a.len() > 0 && b.len() > 0 {
        before_total(a.skip(1), b.skip(1));
        if a[0] == b[0] && a.skip(1) == b.skip(1) {
            assert(a =~= seq![a[0]] + a.skip(1));
            assert(b =~= seq![b[0]] + b.skip(1));
            assert(a == b);
        }
        before_total(a.skip(1), a.skip(1));
    } else if a.len() == 0 && b.len() == 0 {
        assert(a =~= b);
    } else if a.len() > 0 {
        before_total(a.skip(1), a.skip(1));
    }
}

proof fn before_transitive(a: Seq<char>, b: Seq<char>, c: Seq<char>)
    requires
        before(a, b),
        before(b, c),
    ensures
        before(a, c),
    decreases a.len(),
{
    if a.len() > 0 && a[0] == b[0] && b[0] == c[0] {
        before_transitive(a.skip(1), b.skip(1), c.skip(1));
    }
}

/// Whether the texts stand in order, each before the next.
pub open spec fn ascending(items: Seq<Seq<char>>) -> bool {
    forall|i: int, j: int|
        0 <= i < j < items.len() ==> before(#[trigger] items[i], #[trigger] items[j])
}

/// Whether one text comes before another in the order of their characters.
fn is_before(a: &str, b: &str) -> (r: bool)
    ensures
        r == before(a@, b@),
{
    let v = crate::text::chars_of(a);
    let w = crate::text::chars_of(b);
    let mut i: usize = 0;
    assert(v@.skip(0) =~= a@ && w@.skip(0) =~= b@);
    while i < v.len() && i < w.len()
        invariant
            i <= v.len(),
            i <= w.len(),
            before(v@.skip(i as int), w@.skip(i as int)) == before(a@, b@),
        decreases v.len() - i,
    {
        assert(v@.skip(i as int).skip(1) =~= v@.skip(i + 1));
        assert(w@.skip(i as int).skip(1) =~= w@.skip(i + 1));
        if v[i] != w[i] {
            let x: char = v[i];
            let y: char = w[i];
            return x < y;
        }
        i = i + 1;
    }
    i < w.len()
}

/// The workload clusters of a listing: its names without the management cluster, in order and
/// without repetition.
pub open spec fn is_workloads_of(
    workloads: Seq<Seq<char>>,
    listing: Seq<char>,
    mgmt_cluster: Seq<char>,
) -> bool {
    &&& ascending(workloads)
    &&& forall|name: Seq<char>| #[trigger]
        workloads.contains(name) <==> names_spec(listing).contains(name) && name != mgmt_cluster
}

/// The workload clusters of a listing.
pub open spec fn workloads_spec(listing: Seq<char>, mgmt_cluster: Seq<char>) -> Seq<Seq<char>> {
    choose|workloads: Seq<Seq<char>>| is_workloads_of(workloads, listing, mgmt_cluster)
}

/// Two lists in order without repetition that hold the same texts are the same.
proof fn ascending_unique(a: Seq<Seq<char>>, b: Seq<Seq<char>>)
    requires
        ascending(a),
        ascending(b),
        forall|x: Seq<char>| #[trigger] a.contains(x) <==> b.contains(x),
    ensures
        a == b,
    decreases a.len(),
{
    if a.len() == 0 {
        if b.len() > 0 {
            assert(b.contains(b[0]));
            assert(a.contains(b[0]));
        }
        assert(a =~= b);
    } else {
        assert(a.contains(a[0]));
        assert(b.contains(a[0]));
        let k = choose|k: int| 0 <= k < b.len() && b[k] == a[0];
        assert(b.contains(b[0]));
        assert(a.contains(b[0]));
        let m = choose|m: int| 0 <= m < a.len() && a[m] == b[0];
        if k > 0 && m > 0 {
            assert(before(b[0], b[k]));
            assert(before(a[0], a[m]));
            before_total(a[0], b[0]);
        }
        before_total(a[0], a[0]);
        assert(a[0] == b[0]) by {
            if k == 0 {
            } else if m == 0 {
            }
        }
        assert forall|x: Seq<char>| #[trigger] a.skip(1).contains(x) <==> b.skip(1).contains(x) by {
            if a.skip(1).contains(x) {
                let i = choose|i: int| 0 <= i < a.skip(1).len() && a.skip(1)[i] == x;
                assert(a[i + 1] == x);
                assert(a.contains(x));
                assert(before(a[0], a[i + 1]));
                let j = choose|j: int| 0 <= j < b.len() && b[j] == x;
                before_total(x, x);
                assert(j > 0);
                assert(b.skip(1)[j - 1] == x);
            }
            if b.skip(1).contains(x) {
                let i = choose|i: int| 0 <= i < b.skip(1).len() && b.skip(1)[i] == x;
                assert(b[i + 1] == x);
                assert(b.contains(x));
                assert(a.contains(x));
                assert(before(b[0], b[i + 1]));
                let j = choose|j: int| 0 <= j < a.len() && a[j] == x;
                before_total(x, x);
                assert(j > 0);
                assert(a.skip(1)[j - 1] == x);
            }
        }
        assert(ascending(a.skip(1)));
        assert(ascending(b.skip(1)));
        ascending_unique(a.skip(1), b.skip(1));
        assert(a =~= seq![a[0]] + a.skip(1));
        assert(b =~= seq![b[0]] + b.skip(1));
    }
}

/// Puts a text into its place of an ascending list, unless it is there.
fn insert(items: &mut Vec<String>, item: String)
    requires
        ascending(texts(old(items)@)),
    ensures
        ascending(texts(final(items)@)),
        forall|x: Seq<char>| #[trigger]
            texts(final(items)@).contains(x) <==> texts(old(items)@).contains(x) || x == item@,
{
    let ghost all = texts(items@);
    let ghost new = item@;
    let mut i: usize = 0;
    while i < items.len() && is_before(items[i].as_str(), item.as_str())
        invariant
            i <= items.len(),
            all == texts(items@),
            item@ == new,
            forall|j: int| 0 <= j < i ==> before(#[trigger] all[j], new),
        decreases items.len() - i,
    {
        assert(all[i as int] == items@[i as int]@);
        i = i + 1;
    }
    if i < items.len() && same(items[i].as_str(), item.as_str()) {
        assert(all[i as int] == new);
        return;
    }
    proof {
        assert forall|j: int| i <= j < all.len() implies before(new, #[trigger] all[j]) by {
            assert(all[i as int] == items@[i as int]@);
            before_total(all[i as int], new);
            if j > i {
                assert(before(all[i as int], all[j]));
                before_transitive(new, all[i as int], all[j]);
            }
        }
    }
    items.insert(i, item);
    proof {
        let now = texts(items@);
        assert(now =~= all.insert(i as int, new));
        assert forall|a: int, b: int| 0 <= a < b < now.len() implies before(
            #[trigger] now[a],
            #[trigger] now[b],
        ) by {
            let a0 = if a < i {
                a
            } else {
                a - 1
            };
            let b0 = if b < i {
                b
            } else {
                b - 1
            };
            if a < i {
                assert(now[a] == all[a]);
            }
            if b > i {
                assert(now[b] == all[b - 1]);
            }
            if b < i {
                assert(now[b] == all[b]);
            }
            if a > i {
                assert(now[a] == all[a - 1]);
            }
        }
        assert forall|x: Seq<char>| #[trigger] now.contains(x) <==> all.contains(x) || x == new by {
            if all.contains(x) {
                let j = choose|j: int| 0 <= j < all.len() && all[j] == x;
                if j < i {
                    assert(now[j] == x);
                } else {
                    assert(now[j + 1] == x);
                }
            }
            if x == new {
                assert(now[i as int] == x);
            }
            if now.contains(x) {
                let j = choose|j: int| 0 <= j < now.len() && now[j] == x;
                if j < i {
                    assert(all[j] == x);
                } else if j > i {
                    assert(all[j - 1] == x);
                }
            }
        }
    }
}

/// Parse a `kubectl get clusters -A -o name` listing into the sorted, deduplicated set of workload
/// cluster names. The management cluster is the host and is excluded.
pub fn parse_workloads(listing: &str, mgmt_cluster: &str) -> (r: Vec<String>)
    ensures
        is_workloads_of(texts(r@), listing@, mgmt_cluster@),
        texts(r@) == workloads_spec(listing@, mgmt_cluster@),
{
    let all = names(listing);
    let ghost named = names_spec(listing@);
    let mut r: Vec<String> = Vec::new();
    let mut i: usize = 0;
    assert(named.len() == all.len());
    while i < all.len()
        invariant
            i <= all.len(),
            texts(all@) == named,
            named.len() == all.len(),
            ascending(texts(r@)),
            forall|name: Seq<char>| #[trigger]
                texts(r@).contains(name) <==> named.take(i as int).contains(name) && name
                    != mgmt_cluster@,
        decreases all.len() - i,
    {
        proof {
            assert(named[i as int] == all@[i as int]@);
            let next = named.take(i + 1);
            assert forall|name: Seq<char>| #[trigger] next.contains(name) <==> named.take(
                i as int,
            ).contains(name) || name == named[i as int] by {
                if next.contains(name) {
                    let j = choose|j: int| 0 <= j < next.len() && next[j] == name;
                    if j < i {
                        assert(named.take(i as int)[j] == name);
                    }
                }
                if named.take(i as int).contains(name) {
                    let j = choose|j: int|
                        0 <= j < named.take(i as int).len() && named.take(i as int)[j] == name;
                    assert(next[j] == name);
                }
                if name == named[i as int] {
                    assert(next[i as int] == name);
                }
            }
        }
        if !same(all[i].as_str(), mgmt_cluster) {
            insert(&mut r, all[i].clone());
        }
        i = i + 1;
    }
    proof {
        assert(named.take(all.len() as int) =~= named);
        let chosen = workloads_spec(listing@, mgmt_cluster@);
        assert(is_workloads_of(texts(r@), listing@, mgmt_cluster@));
        assert(is_workloads_of(chosen, listing@, mgmt_cluster@));
        ascending_unique(texts(r@), chosen);
    }
    r
}

/// An ascending list with one more text.
proof fn inserted(all: Seq<Seq<char>>, new: Seq<char>) -> (r: Seq<Seq<char>>)
    requires
        ascending(all),
    ensures
        ascending(r),
        forall|x: Seq<char>| #[trigger] r.contains(x) <==> all.contains(x) || x == new,
    decreases all.len(),
{
    if all.len() == 0 {
        let r = seq![new];
        assert(r[0] == new);
        r
    } else {
        before_total(all[0], new);
        let head = seq![all[0]];
        assert(all =~= head + all.skip(1));
        if all[0] == new {
            assert(all.contains(new));
            all
        } else if before(new, all[0]) {
            let r = seq![new] + all;
            assert forall|a: int, b: int| 0 <= a < b < r.len() implies before(
                #[trigger] r[a],
                #[trigger] r[b],
            ) by {
                if a == 0 && b > 1 {
                    before_transitive(new, all[0], all[b - 1]);
                }
            }
            assert(r[0] == new);
            assert forall|x: Seq<char>| all.contains(x) implies r.contains(x) by {
                let k = choose|k: int| 0 <= k < all.len() && all[k] == x;
                assert(r[k + 1] == x);
            }
            r
        } else {
            let tail = inserted(all.skip(1), new);
            let r = head + tail;
            assert forall|a: int, b: int| 0 <= a < b < r.len() implies before(
                #[trigger] r[a],
                #[trigger] r[b],
            ) by {
                if a == 0 {
                    assert(tail.contains(tail[b - 1]));
                    if all.skip(1).contains(tail[b - 1]) {
                        let k = choose|k: int|
                            0 <= k < all.skip(1).len() && all.skip(1)[k] == tail[b - 1];
                        assert(before(all[0], all[k + 1]));
                    }
                }
            }
            assert forall|x: Seq<char>| #[trigger] r.contains(x) <==> all.contains(x) || x
                == new by {
                if r.contains(x) {
                    let k = choose|k: int| 0 <= k < r.len() && r[k] == x;
                    if k > 0 {
                        assert(tail.contains(tail[k - 1]));
                        if all.skip(1).contains(x) {
                            let m = choose|m: int|
                                0 <= m < all.skip(1).len() && all.skip(1)[m] == x;
                            assert(all[m + 1] == x);
                        }
                    } else {
                        assert(all[0] == x);
                    }
                }
                if all.contains(x) || x == new {
                    if x == all[0] {
                        assert(r[0] == x);
                    } else {
                        if all.contains(x) {
                            let m = choose|m: int| 0 <= m < all.len() && all[m] == x;
                            assert(all.skip(1)[m - 1] == x);
                        }
                        assert(tail.contains(x));
                        let k = choose|k: int| 0 <= k < tail.len() && tail[k] == x;
                        assert(r[k + 1] == x);
                    }
                }
            }
            r
        }
    }
}

/// The texts of a list but one, in order and without repetition.
proof fn collected(items: Seq<Seq<char>>, but: Seq<char>) -> (r: Seq<Seq<char>>)
    ensures
        ascending(r),
        forall|x: Seq<char>| #[trigger] r.contains(x) <==> items.contains(x) && x != but,
    decreases items.len(),
{
    if items.len() == 0 {
        Seq::empty()
    } else {
        let start = items.drop_last();
        let r = collected(start, but);
        assert forall|x: Seq<char>| #[trigger] items.contains(x) <==> start.contains(x) || x
            == items.last() by {
            if items.contains(x) {
                let k = choose|k: int| 0 <= k < items.len() && items[k] == x;
                if k < start.len() {
                    assert(start[k] == x);
                }
            }
            if start.contains(x) {
                let k = choose|k: int| 0 <= k < start.len() && start[k] == x;
                assert(items[k] == x);
            }
        }
        if items.last() == but {
            r
        } else {
            inserted(r, items.last())
        }
    }
}

/// Every listing has workload clusters in this sense, and just one list of them.
pub proof fn law_workloads_of_a_listing(listing: Seq<char>, mgmt_cluster: Seq<char>)
    ensures
        is_workloads_of(workloads_spec(listing, mgmt_cluster), listing, mgmt_cluster),
        forall|other: Seq<Seq<char>>|
            is_workloads_of(other, listing, mgmt_cluster) ==> other == workloads_spec(
                listing,
                mgmt_cluster,
            ),
{
    let r = collected(names_spec(listing), mgmt_cluster);
    assert(is_workloads_of(r, listing, mgmt_cluster));
    let chosen = workloads_spec(listing, mgmt_cluster);
    assert forall|other: Seq<Seq<char>>| is_workloads_of(other, listing, mgmt_cluster) implies other
        == chosen by {
        ascending_unique(other, chosen);
    }
}

} // verus!
