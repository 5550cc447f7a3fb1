//! Orphan discovery: a read-only search for AWS resources that no cluster owns any more.
//!
//! A discovery is a list of lookups. It says which command comes next, takes what came of it, and
//! collects a report. Nothing is ever deleted.
use vstd::prelude::*;

use crate::aws::{
    aws_sweep_targets, aws_sweep_targets_spec, capa_tag_key_spec, target_views, AwsSweepTarget,
    AwsSweepTargetView,
};
use crate::calendar::{parse_iso8601, parse_iso8601_spec};
use crate::json;
use crate::json::{json_document, json_tree, json_trees, JsonTree};
use crate::script::{command, Command, CommandView, Reply, ReplyView};
use crate::settings::{Config, Variables};
use crate::text::{
    cat2, cat3, cat4, cat5, contains, contains_spec, is_nothing, lowercase, lowercase_spec, optional,
    push_text, starts_with, starts_with_spec, texts, trim, trim_spec, words, words_spec,
};

verus! {

// ---------------------------------------------------------------------------------------------
// Configuration
// ---------------------------------------------------------------------------------------------
/// Configuration for the orphan discovery run.
pub struct OrphansConfig {
    /// Minimum age in hours; a resource that is younger is recent and no orphan.
    pub min_age_hours: u64,
    /// The path to which the report is written as JSON, if it is.
    pub report_json: Option<String>,
}

impl OrphansConfig {
    /// The minimum age that the environment gives; six hours where it gives no number.
    pub open spec fn min_age_spec(vars: Variables) -> int {
        match vars.number_spec("ORPHAN_MIN_AGE_HOURS"@, 6, u64::MAX as int) {
            Some(hours) => hours,
            None => 6,
        }
    }

    /// Resolves the configuration from the process environment; an empty value counts as none.
    pub fn from_env(vars: &Variables) -> (r: Self)
        ensures
            r.min_age_hours == OrphansConfig::min_age_spec(*vars),
            optional(r.report_json) == vars.value_spec("ORPHAN_REPORT_JSON"@),
    {
        let min_age_hours: u64 = match vars.number("ORPHAN_MIN_AGE_HOURS", 6, u64::MAX) {
            Ok(hours) => hours,
            Err(_) => 6,
        };
        OrphansConfig { min_age_hours, report_json: vars.value("ORPHAN_REPORT_JSON") }
    }
}

// ---------------------------------------------------------------------------------------------
// Outcomes
// ---------------------------------------------------------------------------------------------
/// The outcome of an AWS API query.
#[derive(Debug, Clone)]
pub enum ProbeResult {
    /// The query succeeded, and printed this.
    Present(String),
    /// The query failed because there is nothing to be found.
    Absent,
    /// The query failed for another reason; nothing is known.
    Error(String),
}

/// The model of an outcome.
pub enum ProbeResultView {
    Present(Seq<char>),
    Absent,
    Error(Seq<char>),
}

impl View for ProbeResult {
    type V = ProbeResultView;

    open spec fn view(&self) -> ProbeResultView {
        match *self {
            ProbeResult::Present(output) => ProbeResultView::Present(output@),
            ProbeResult::Absent => ProbeResultView::Absent,
            ProbeResult::Error(error) => ProbeResultView::Error(error@),
        }
    }
}

/// The outcome of a query, given what it printed on standard error and the markers of absence, both
/// in lower case.
pub open spec fn outcome_spec(
    reply: ReplyView,
    stderr_lower: Seq<char>,
    markers_lower: Seq<Seq<char>>,
) -> ProbeResultView {
    if !reply.spawned {
        ProbeResultView::Error(reply.stderr)
    } else if reply.ok {
        ProbeResultView::Present(reply.stdout)
    } else if exists|i: int|
        0 <= i < markers_lower.len() && contains_spec(stderr_lower, #[trigger] markers_lower[i]) {
        ProbeResultView::Absent
    } else {
        ProbeResultView::Error(reply.stderr)
    }
}

/// The outcome of a query, given what it printed on standard error and the markers of absence, both
/// in lower case.
pub fn outcome(reply: &Reply, stderr_lower: &str, markers_lower: &Vec<String>) -> (r: ProbeResult)
    ensures
        r@ == outcome_spec(reply@, stderr_lower@, texts(markers_lower@)),
{
    if !reply.spawned {
        return ProbeResult::Error(reply.stderr.clone());
    }
    if reply.ok {
        return ProbeResult::Present(reply.stdout.clone());
    }
    let ghost markers = texts(markers_lower@);
    let mut i: usize = 0;
    while i < markers_lower.len()
        invariant
            i <= markers_lower.len(),
            markers == texts(markers_lower@),
            reply.spawned && !reply.ok,
            forall|j: int| 0 <= j < i ==> !contains_spec(stderr_lower@, #[trigger] markers[j]),
        decreases markers_lower.len() - i,
    {
        assert(markers[i as int] == markers_lower@[i as int]@);
        if contains(stderr_lower, markers_lower[i].as_str()) {
            return ProbeResult::Absent;
        }
        i = i + 1;
    }
    ProbeResult::Error(reply.stderr.clone())
}

/// The markers in lower case.
pub open spec fn lowered(markers: Seq<Seq<char>>) -> Seq<Seq<char>> {
    markers.map_values(|marker: Seq<char>| lowercase_spec(marker))
}

fn lower_all(markers: &Vec<String>) -> (r: Vec<String>)
    ensures
        texts(r@) == lowered(texts(markers@)),
{
    let mut r: Vec<String> = Vec::new();
    let mut i: usize = 0;
    assert(texts(r@) =~= lowered(texts(markers@)).take(0));
    while i < markers.len()
        invariant
            i <= markers.len(),
            texts(r@) == lowered(texts(markers@)).take(i as int),
        decreases markers.len() - i,
    {
        push_text(&mut r, lowercase(markers[i].as_str()));
        assert(lowered(texts(markers@)).take(i + 1) =~= lowered(texts(markers@)).take(
            i as int,
        ).push(lowercase_spec(markers@[i as int]@)));
        i = i + 1;
    }
    assert(lowered(texts(markers@)).take(markers.len() as int) =~= lowered(texts(markers@)));
    r
}

/// The outcome of a query: what it printed, where it succeeded; absence, where standard error holds
/// one of the markers, whatever the case of its letters; else the error.
pub open spec fn aws_probe_spec(reply: ReplyView, markers: Seq<Seq<char>>) -> ProbeResultView {
    outcome_spec(reply, lowercase_spec(reply.stderr), lowered(markers))
}

/// The outcome of a query: what it printed, where it succeeded; absence, where standard error holds
/// one of the markers, whatever the case of its letters; else the error.
pub fn aws_probe(reply: &Reply, not_found_markers: &Vec<String>) -> (r: ProbeResult)
    ensures
        r@ == aws_probe_spec(reply@, texts(not_found_markers@)),
{
    outcome(reply, lowercase(reply.stderr.as_str()).as_str(), &lower_all(not_found_markers))
}

// ---------------------------------------------------------------------------------------------
// Findings
// ---------------------------------------------------------------------------------------------
/// A single resource that was discovered.
#[derive(Debug, Clone)]
pub struct OrphanFinding {
    /// The kind of the resource.
    pub kind: String,
    /// The AWS region.
    pub region: String,
    /// The identifier of the resource.
    pub id: String,
    /// The name of the cluster that the resource belongs to.
    pub cluster: String,
    /// When the resource was created, in seconds since the epoch, where it is known.
    pub created_at: Option<i64>,
    /// Whether the resource is older than the minimum age, or of unknown age.
    pub is_orphan: bool,
}

/// The model of a finding.
pub struct OrphanFindingView {
    pub kind: Seq<char>,
    pub region: Seq<char>,
    pub id: Seq<char>,
    pub cluster: Seq<char>,
    pub created_at: Option<i64>,
    pub is_orphan: bool,
}

impl View for OrphanFinding {
    type V = OrphanFindingView;

    open spec fn view(&self) -> OrphanFindingView {
        OrphanFindingView {
            kind: self.kind@,
            region: self.region@,
            id: self.id@,
            cluster: self.cluster@,
            created_at: self.created_at,
            is_orphan: self.is_orphan,
        }
    }
}

/// The full discovery report.
#[derive(Debug, Clone)]
pub struct DiscoveryReport {
    /// The AWS account ID.
    pub account_id: String,
    /// All discovered resources, orphans and recent ones.
    pub findings: Vec<OrphanFinding>,
    /// The errors that prevented a complete discovery.
    pub errors: Vec<String>,
    /// When the discovery began, in seconds since the epoch.
    pub scanned_at: i64,
}

/// The model of a report.
pub struct DiscoveryReportView {
    pub account_id: Seq<char>,
    pub findings: Seq<OrphanFindingView>,
    pub errors: Seq<Seq<char>>,
    pub scanned_at: i64,
}

/// The models of a list of findings.
pub open spec fn finding_views(findings: Seq<OrphanFinding>) -> Seq<OrphanFindingView> {
    findings.map_values(|f: OrphanFinding| f@)
}

impl View for DiscoveryReport {
    type V = DiscoveryReportView;

    open spec fn view(&self) -> DiscoveryReportView {
        DiscoveryReportView {
            account_id: self.account_id@,
            findings: finding_views(self.findings@),
            errors: texts(self.errors@),
            scanned_at: self.scanned_at,
        }
    }
}

/// Whether a resource is an orphan at a moment: it is older than the minimum age, or its age is not
/// known.
pub open spec fn is_orphan_spec(created_at: Option<i64>, at: i64, min_age_hours: u64) -> bool {
    match created_at {
        Some(created) => at - created > min_age_hours * 3600,
        None => true,
    }
}

/// Whether a resource is an orphan at a moment.
pub fn is_orphan(created_at: Option<i64>, at: i64, min_age_hours: u64) -> (r: bool)
    ensures
        r == is_orphan_spec(created_at, at, min_age_hours),
{
    match created_at {
        Some(created) => at as i128 - created as i128 > min_age_hours as i128 * 3600,
        None => true,
    }
}

/// When a scan began, and the age below which a resource is recent.
#[derive(Debug, Clone, Copy)]
pub struct Scan {
    pub at: i64,
    pub min_age_hours: u64,
}

impl Scan {
    /// A resource of a cluster.
    pub open spec fn finding_spec(
        self,
        kind: Seq<char>,
        target: AwsSweepTargetView,
        id: Seq<char>,
        created_at: Option<i64>,
    ) -> OrphanFindingView {
        OrphanFindingView {
            kind,
            region: target.region,
            id,
            cluster: target.cluster_name,
            created_at,
            is_orphan: is_orphan_spec(created_at, self.at, self.min_age_hours),
        }
    }

    /// A resource of a cluster.
    pub fn finding(
        self,
        kind: &str,
        target: &AwsSweepTarget,
        id: &str,
        created_at: Option<i64>,
    ) -> (r: OrphanFinding)
        ensures
            r@ == self.finding_spec(kind@, target@, id@, created_at),
    {
        OrphanFinding {
            kind: kind.to_owned(),
            region: target.region.clone(),
            id: id.to_owned(),
            cluster: target.cluster_name.clone(),
            created_at,
            is_orphan: is_orphan(created_at, self.at, self.min_age_hours),
        }
    }
}

fn push_finding(findings: &mut Vec<OrphanFinding>, finding: OrphanFinding)
    ensures
        finding_views(final(findings)@) == finding_views(old(findings)@).push(finding@),
{
    findings.push(finding);
    assert(finding_views(findings@) =~= finding_views(old(findings)@).push(finding@));
}

// ---------------------------------------------------------------------------------------------
// What a query printed
// ---------------------------------------------------------------------------------------------
/// The moment that a timestamp denotes.
pub open spec fn moment(timestamp: Option<Seq<char>>) -> Option<i64> {
    match timestamp {
        Some(text) => match parse_iso8601_spec(text) {
            Some(seconds) => Some(seconds as i64),
            None => None,
        },
        None => None,
    }
}

/// The string member of an object.
pub open spec fn text_in(value: JsonTree, key: Seq<char>) -> Option<Seq<char>> {
    match value.get(key) {
        Some(member) => member.text(),
        None => None,
    }
}

fn moment_in(value: &serde_json::Value, key: &str) -> (r: Option<i64>)
    ensures
        r == moment(text_in(json_tree(*value), key@)),
{
    match json::get(value, key) {
        Some(member) => match member.as_str() {
            Some(text) => parse_iso8601(text),
            None => None,
        },
        None => None,
    }
}

/// When the object that a document holds under a name was created.
pub open spec fn created_in(document: JsonTree, name: Seq<char>) -> Option<i64> {
    match document.get(name) {
        Some(object) => moment(text_in(object, "createdAt"@)),
        None => None,
    }
}

fn created(document: &serde_json::Value, name: &str) -> (r: Option<i64>)
    ensures
        r == created_in(json_tree(*document), name@),
{
    match json::get(document, name) {
        Some(object) => moment_in(object, "createdAt"),
        None => None,
    }
}

/// When the first RDS instance of a document was created.
pub open spec fn instance_created_in(document: JsonTree) -> Option<i64> {
    match document.get("DBInstances"@) {
        Some(list) => match list.items() {
            Some(items) => if items.len() > 0 {
                moment(text_in(items[0], "InstanceCreateTime"@))
            } else {
                None
            },
            None => None,
        },
        None => None,
    }
}

fn instance_created(document: &serde_json::Value) -> (r: Option<i64>)
    ensures
        r == instance_created_in(json_tree(*document)),
{
    match json::get(document, "DBInstances") {
        Some(list) => match list.as_array() {
            Some(items) => {
                assert(json_trees(items@).len() == items.len());
                if items.len() > 0 {
                    assert(json_trees(items@)[0] == json_tree(items@[0]));
                    moment_in(&items[0], "InstanceCreateTime")
                } else {
                    None
                }
            },
            None => None,
        },
        None => None,
    }
}

/// The earlier of two moments; a moment that is not known is passed over.
pub open spec fn earlier_spec(a: Option<i64>, b: Option<i64>) -> Option<i64> {
    match (a, b) {
        (Some(x), Some(y)) => Some(
            if x <= y {
                x
            } else {
                y
            },
        ),
        (Some(x), None) => Some(x),
        (None, y) => y,
    }
}

fn earlier(a: Option<i64>, b: Option<i64>) -> (r: Option<i64>)
    ensures
        r == earlier_spec(a, b),
{
    match (a, b) {
        (Some(x), Some(y)) => Some(
            if x <= y {
                x
            } else {
                y
            },
        ),
        (Some(x), None) => Some(x),
        (None, y) => y,
    }
}

/// When the oldest NAT gateway of a list was created, of those whose moment is known.
pub open spec fn oldest_spec(gateways: Seq<JsonTree>) -> Option<i64>
    decreases gateways.len(),
{
    if gateways.len() == 0 {
        None
    } else {
        earlier_spec(
            oldest_spec(gateways.drop_last()),
            moment(text_in(gateways.last(), "CreateTime"@)),
        )
    }
}

fn oldest(gateways: &Vec<serde_json::Value>) -> (r: Option<i64>)
    ensures
        r == oldest_spec(json_trees(gateways@)),
{
    let ghost all = json_trees(gateways@);
    let mut r: Option<i64> = None;
    let mut i: usize = 0;
    assert(all.take(0) =~= Seq::empty());
    while i < gateways.len()
        invariant
            i <= gateways.len(),
            all == json_trees(gateways@),
            r == oldest_spec(all.take(i as int)),
        decreases gateways.len() - i,
    {
        proof {
            assert(all.take(i + 1).drop_last() =~= all.take(i as int));
            assert(all.take(i + 1).last() == json_tree(gateways@[i as int]));
        }
        r = earlier(r, moment_in(&gateways[i], "CreateTime"));
        i = i + 1;
    }
    assert(all.take(gateways.len() as int) =~= all);
    r
}

/// The NAT gateways of a list that have an identifier.
pub open spec fn gateways_spec(
    scan: Scan,
    target: AwsSweepTargetView,
    gateways: Seq<JsonTree>,
) -> Seq<OrphanFindingView>
    decreases gateways.len(),
{
    if gateways.len() == 0 {
        Seq::empty()
    } else {
        let start = gateways_spec(scan, target, gateways.drop_last());
        let gateway = gateways.last();
        match text_in(gateway, "Id"@) {
            Some(id) => start.push(
                scan.finding_spec(
                    "NAT Gateway"@,
                    target,
                    id,
                    moment(text_in(gateway, "CreateTime"@)),
                ),
            ),
            None => start,
        }
    }
}

fn gateway_findings(scan: Scan, target: &AwsSweepTarget, items: &Vec<serde_json::Value>) -> (r: Vec<
    OrphanFinding,
>)
    ensures
        finding_views(r@) == gateways_spec(scan, target@, json_trees(items@)),
{
    let ghost all = json_trees(items@);
    let mut r: Vec<OrphanFinding> = Vec::new();
    let mut i: usize = 0;
    assert(all.take(0) =~= Seq::empty());
    assert(finding_views(r@) =~= Seq::empty());
    while i < items.len()
        invariant
            i <= items.len(),
            all == json_trees(items@),
            finding_views(r@) == gateways_spec(scan, target@, all.take(i as int)),
        decreases items.len() - i,
    {
        proof {
            assert(all.take(i + 1).drop_last() =~= all.take(i as int));
            assert(all.take(i + 1).last() == json_tree(items@[i as int]));
        }
        match json::get(&items[i], "Id") {
            Some(member) => match member.as_str() {
                Some(id) => {
                    let at = moment_in(&items[i], "CreateTime");
                    push_finding(&mut r, scan.finding("NAT Gateway", target, id, at));
                },
                None => {},
            },
            None => {},
        }
        i = i + 1;
    }
    assert(all.take(items.len() as int) =~= all);
    r
}

/// The Elastic IPs of a list of identifiers. When an address was allocated is not known.
pub open spec fn addresses_spec(
    scan: Scan,
    target: AwsSweepTargetView,
    ids: Seq<Seq<char>>,
) -> Seq<OrphanFindingView> {
    ids.map_values(|id: Seq<char>| scan.finding_spec("Elastic IP"@, target, id, None))
}

fn address_findings(scan: Scan, target: &AwsSweepTarget, output: &str) -> (r: Vec<OrphanFinding>)
    ensures
        finding_views(r@) == addresses_spec(scan, target@, words_spec(output@)),
{
    let found = words(output);
    let ghost all = addresses_spec(scan, target@, words_spec(output@));
    let mut r: Vec<OrphanFinding> = Vec::new();
    let mut i: usize = 0;
    assert(finding_views(r@) =~= all.take(0));
    assert(texts(found@).len() == found.len());
    while i < found.len()
        invariant
            i <= found.len(),
            texts(found@) == words_spec(output@),
            texts(found@).len() == found.len(),
            all == addresses_spec(scan, target@, words_spec(output@)),
            finding_views(r@) == all.take(i as int),
        decreases found.len() - i,
    {
        assert(words_spec(output@)[i as int] == found@[i as int]@);
        let next = scan.finding("Elastic IP", target, found[i].as_str(), None);
        assert(all.take(i + 1) =~= all.take(i as int).push(next@));
        push_finding(&mut r, next);
        i = i + 1;
    }
    assert(all.take(found.len() as int) =~= all);
    r
}

/// Whether the name of a bucket marks it as a bucket of a cluster in an account.
pub open spec fn is_bucket_of_spec(
    bucket: Seq<char>,
    account_id: Seq<char>,
    cluster_name: Seq<char>,
) -> bool {
    ||| starts_with_spec(bucket, "krops-"@ + account_id + "-"@ + cluster_name + "-"@)
    ||| starts_with_spec(bucket, "krops-"@ + cluster_name + "-"@)
    ||| starts_with_spec(bucket, cluster_name + "-"@)
}

/// Whether the name of a bucket marks it as a bucket of a cluster in an account.
pub fn is_bucket_of(bucket: &str, account_id: &str, cluster_name: &str) -> (r: bool)
    ensures
        r == is_bucket_of_spec(bucket@, account_id@, cluster_name@),
{
    starts_with(bucket, cat5("krops-", account_id, "-", cluster_name, "-").as_str())
        || starts_with(bucket, cat3("krops-", cluster_name, "-").as_str())
        || starts_with(bucket, cat2(cluster_name, "-").as_str())
}

/// The buckets of a cluster among those of the account.
pub open spec fn buckets_spec(
    scan: Scan,
    target: AwsSweepTargetView,
    account_id: Seq<char>,
    buckets: Seq<JsonTree>,
) -> Seq<OrphanFindingView>
    decreases buckets.len(),
{
    if buckets.len() == 0 {
        Seq::empty()
    } else {
        let start = buckets_spec(scan, target, account_id, buckets.drop_last());
        let bucket = buckets.last();
        match text_in(bucket, "Name"@) {
            Some(name) => if is_bucket_of_spec(name, account_id, target.cluster_name) {
                start.push(
                    scan.finding_spec(
                        "S3 Bucket"@,
                        target,
                        name,
                        moment(text_in(bucket, "CreationDate"@)),
                    ),
                )
            } else {
                start
            },
            None => start,
        }
    }
}

fn buckets(
    scan: Scan,
    target: &AwsSweepTarget,
    account_id: &str,
    items: &Vec<serde_json::Value>,
) -> (r: Vec<OrphanFinding>)
    ensures
        finding_views(r@) == buckets_spec(scan, target@, account_id@, json_trees(items@)),
{
    let ghost all = json_trees(items@);
    let mut r: Vec<OrphanFinding> = Vec::new();
    let mut i: usize = 0;
    assert(all.take(0) =~= Seq::empty());
    assert(finding_views(r@) =~= Seq::empty());
    while i < items.len()
        invariant
            i <= items.len(),
            all == json_trees(items@),
            finding_views(r@) == buckets_spec(scan, target@, account_id@, all.take(i as int)),
        decreases items.len() - i,
    {
        proof {
            assert(all.take(i + 1).drop_last() =~= all.take(i as int));
            assert(all.take(i + 1).last() == json_tree(items@[i as int]));
        }
        match json::get(&items[i], "Name") {
            Some(member) => match member.as_str() {
                Some(name) => {
                    if is_bucket_of(name, account_id, target.cluster_name.as_str()) {
                        let at = moment_in(&items[i], "CreationDate");
                        push_finding(&mut r, scan.finding("S3 Bucket", target, name, at));
                    }
                },
                None => {},
            },
            None => {},
        }
        i = i + 1;
    }
    assert(all.take(items.len() as int) =~= all);
    r
}

// ---------------------------------------------------------------------------------------------
// Lookups
// ---------------------------------------------------------------------------------------------
/// One query of a discovery.
pub enum Lookup {
    /// The account.
    Account,
    /// The EKS cluster of a target.
    Cluster { target: AwsSweepTarget },
    /// The nodegroups of an EKS cluster.
    Nodegroups { target: AwsSweepTarget },
    /// One nodegroup.
    Nodegroup { target: AwsSweepTarget, name: String },
    /// The RDS instance of a target.
    Instance { target: AwsSweepTarget },
    /// The VPCs that carry the ownership tag of a target.
    Vpcs { target: AwsSweepTarget },
    /// The NAT gateways of a VPC.
    Gateways { target: AwsSweepTarget, vpc: String },
    /// The Elastic IPs that carry the ownership tag of a target.
    Addresses { target: AwsSweepTarget },
    /// The buckets of the account.
    Buckets { target: AwsSweepTarget, account_id: String },
}

/// The model of a lookup.
pub enum LookupView {
    Account,
    Cluster { target: AwsSweepTargetView },
    Nodegroups { target: AwsSweepTargetView },
    Nodegroup { target: AwsSweepTargetView, name: Seq<char> },
    Instance { target: AwsSweepTargetView },
    Vpcs { target: AwsSweepTargetView },
    Gateways { target: AwsSweepTargetView, vpc: Seq<char> },
    Addresses { target: AwsSweepTargetView },
    Buckets { target: AwsSweepTargetView, account_id: Seq<char> },
}

impl View for Lookup {
    type V = LookupView;

    open spec fn view(&self) -> LookupView {
        match *self {
            Lookup::Account => LookupView::Account,
            Lookup::Cluster { target } => LookupView::Cluster { target: target@ },
            Lookup::Nodegroups { target } => LookupView::Nodegroups { target: target@ },
            Lookup::Nodegroup { target, name } => LookupView::Nodegroup {
                target: target@,
                name: name@,
            },
            Lookup::Instance { target } => LookupView::Instance { target: target@ },
            Lookup::Vpcs { target } => LookupView::Vpcs { target: target@ },
            Lookup::Gateways { target, vpc } => LookupView::Gateways { target: target@, vpc: vpc@ },
            Lookup::Addresses { target } => LookupView::Addresses { target: target@ },
            Lookup::Buckets { target, account_id } => LookupView::Buckets {
                target: target@,
                account_id: account_id@,
            },
        }
    }
}

/// The models of a list of lookups.
pub open spec fn lookup_views(lookups: Seq<Lookup>) -> Seq<LookupView> {
    lookups.map_values(|l: Lookup| l@)
}

fn push_lookup(lookups: &mut Vec<Lookup>, lookup: Lookup)
    ensures
        lookup_views(final(lookups)@) == lookup_views(old(lookups)@).push(lookup@),
{
    lookups.push(lookup);
    assert(lookup_views(lookups@) =~= lookup_views(old(lookups)@).push(lookup@));
}

impl LookupView {
    /// The command of a lookup. The AWS CLI opens no pager.
    pub open spec fn command(self) -> CommandView {
        match self {
            LookupView::Account => command("aws"@).arg("sts"@).arg("get-caller-identity"@).arg(
                "--output"@,
            ).arg("text"@).arg("--query"@).arg("Account"@),
            LookupView::Cluster { target } => command("aws"@).arg("eks"@).arg(
                "describe-cluster"@,
            ).arg("--name"@).arg(target.eks_cluster_name).arg("--region"@).arg(target.region).arg(
                "--output"@,
            ).arg("json"@),
            LookupView::Nodegroups { target } => command("aws"@).arg("eks"@).arg(
                "list-nodegroups"@,
            ).arg("--cluster-name"@).arg(target.eks_cluster_name).arg("--region"@).arg(
                target.region,
            ).arg("--query"@).arg("nodegroups[]"@).arg("--output"@).arg("text"@),
            LookupView::Nodegroup { target, name } => command("aws"@).arg("eks"@).arg(
                "describe-nodegroup"@,
            ).arg("--cluster-name"@).arg(target.eks_cluster_name).arg("--nodegroup-name"@).arg(
                name,
            ).arg("--region"@).arg(target.region).arg("--output"@).arg("json"@),
            LookupView::Instance { target } => command("aws"@).arg("rds"@).arg(
                "describe-db-instances"@,
            ).arg("--db-instance-identifier"@).arg(target.rds_instance).arg("--region"@).arg(
                target.region,
            ).arg("--output"@).arg("json"@),
            LookupView::Vpcs { target } => command("aws"@).arg("ec2"@).arg("describe-vpcs"@).arg(
                "--filters"@,
            ).arg("Name=tag-key,Values="@ + capa_tag_key_spec(target.cluster_name)).arg(
                "--region"@,
            ).arg(target.region).arg("--query"@).arg("Vpcs[].VpcId"@).arg("--output"@).arg(
                "text"@,
            ),
            LookupView::Gateways { target, vpc } => command("aws"@).arg("ec2"@).arg(
                "describe-nat-gateways"@,
            ).arg("--filters"@).arg("Name=vpc-id,Values="@ + vpc).arg(
                "Name=state,Values=pending,available"@,
            ).arg("--region"@).arg(target.region).arg("--query"@).arg(
                "NatGateways[].{Id: NatGatewayId, CreateTime: CreateTime}"@,
            ).arg("--output"@).arg("json"@),
            LookupView::Addresses { target } => command("aws"@).arg("ec2"@).arg(
                "describe-addresses"@,
            ).arg("--filters"@).arg(
                "Name=tag-key,Values="@ + capa_tag_key_spec(target.cluster_name),
            ).arg("--region"@).arg(target.region).arg("--query"@).arg(
                "Addresses[].AllocationId"@,
            ).arg("--output"@).arg("text"@),
            LookupView::Buckets { .. } => command("aws"@).arg("s3api"@).arg("list-buckets"@).arg(
                "--output"@,
            ).arg("json"@),
        }.var("AWS_PAGER"@, ""@)
    }

    /// The texts on standard error that say that there is nothing to be found.
    pub open spec fn markers(self) -> Seq<Seq<char>> {
        match self {
            LookupView::Cluster { .. } => Seq::empty().push("ResourceNotFoundException"@),
            LookupView::Nodegroups { .. } => Seq::empty().push("ResourceNotFoundException"@),
            LookupView::Nodegroup { .. } => Seq::empty().push("ResourceNotFoundException"@),
            LookupView::Instance { .. } => Seq::empty().push("DBInstanceNotFound"@),
            _ => Seq::empty(),
        }
    }

    /// The line of the report for a query that failed.
    pub open spec fn error(self, error: Seq<char>) -> Seq<char> {
        match self {
            LookupView::Account => "Failed to get account ID: "@ + error,
            LookupView::Cluster { target } => "EKS cluster "@ + target.eks_cluster_name + ": "@
                + error,
            LookupView::Nodegroups { target } => "EKS nodegroups "@ + target.eks_cluster_name
                + ": "@ + error,
            LookupView::Nodegroup { target, name } => "EKS nodegroup "@ + target.eks_cluster_name
                + "/"@ + name + ": "@ + error,
            LookupView::Instance { target } => "RDS instance "@ + target.rds_instance + ": "@
                + error,
            LookupView::Vpcs { target } => "VPC discovery for cluster "@ + target.cluster_name
                + ": "@ + error,
            LookupView::Gateways { vpc, .. } => "VPC NAT discovery for "@ + vpc + ": "@ + error,
            LookupView::Addresses { target } => "Elastic IP discovery for cluster "@
                + target.cluster_name + ": "@ + error,
            LookupView::Buckets { .. } => "S3 bucket listing: "@ + error,
        }
    }

    /// The resources that the output of a query shows. An output that is no JSON document where one
    /// is due shows none.
    pub open spec fn findings(self, scan: Scan, output: Seq<char>) -> Seq<OrphanFindingView> {
        let none = Seq::<OrphanFindingView>::empty();
        match self {
            LookupView::Cluster { target } => match json_document(output) {
                Some(document) => none.push(
                    scan.finding_spec(
                        "EKS Cluster"@,
                        target,
                        target.eks_cluster_name,
                        created_in(document, "cluster"@),
                    ),
                ),
                None => none,
            },
            LookupView::Nodegroup { target, name } => match json_document(output) {
                Some(document) => none.push(
                    scan.finding_spec(
                        "EKS Node Group"@,
                        target,
                        name,
                        created_in(document, "nodegroup"@),
                    ),
                ),
                None => none,
            },
            LookupView::Instance { target } => match json_document(output) {
                Some(document) => none.push(
                    scan.finding_spec(
                        "RDS Instance"@,
                        target,
                        target.rds_instance,
                        instance_created_in(document),
                    ),
                ),
                None => none,
            },
            LookupView::Gateways { target, vpc } => match json_document(output) {
                Some(document) => match document.items() {
                    Some(gateways) => none.push(
                        scan.finding_spec("VPC"@, target, vpc, oldest_spec(gateways)),
                    ) + gateways_spec(scan, target, gateways),
                    None => none,
                },
                None => none,
            },
            LookupView::Addresses { target } => addresses_spec(scan, target, words_spec(output)),
            LookupView::Buckets { target, account_id } => match json_document(output) {
                Some(document) => match document.get("Buckets"@) {
                    Some(list) => match list.items() {
                        Some(buckets) => buckets_spec(scan, target, account_id, buckets),
                        None => none,
                    },
                    None => none,
                },
                None => none,
            },
            _ => none,
        }
    }

    /// The resources that are known although the query failed: a VPC whose NAT gateways could not
    /// be listed is there, and its age is not known.
    pub open spec fn known(self, scan: Scan) -> Seq<OrphanFindingView> {
        match self {
            LookupView::Gateways { target, vpc } => Seq::empty().push(
                scan.finding_spec("VPC"@, target, vpc, None),
            ),
            _ => Seq::empty(),
        }
    }

    /// The lookups that the output of a query leads to.
    pub open spec fn follow_ups(self, output: Seq<char>) -> Seq<LookupView> {
        match self {
            LookupView::Nodegroups { target } => words_spec(output).map_values(
                |name: Seq<char>| LookupView::Nodegroup { target, name },
            ),
            LookupView::Vpcs { target } => words_spec(output).map_values(
                |vpc: Seq<char>| LookupView::Gateways { target, vpc },
            ),
            _ => Seq::empty(),
        }
    }
}

impl Lookup {
    /// The command of a lookup. The AWS CLI opens no pager.
    pub fn command(&self) -> (c: Command)
        ensures
            c@ == self@.command(),
    {
        let c = match self {
            Lookup::Account => Command::new("aws").arg("sts").arg("get-caller-identity").arg(
                "--output",
            ).arg("text").arg("--query").arg("Account"),
            Lookup::Cluster { target } => Command::new("aws").arg("eks").arg(
                "describe-cluster",
            ).arg("--name").arg(target.eks_cluster_name.as_str()).arg("--region").arg(
                target.region.as_str(),
            ).arg("--output").arg("json"),
            Lookup::Nodegroups { target } => Command::new("aws").arg("eks").arg(
                "list-nodegroups",
            ).arg("--cluster-name").arg(target.eks_cluster_name.as_str()).arg("--region").arg(
                target.region.as_str(),
            ).arg("--query").arg("nodegroups[]").arg("--output").arg("text"),
            Lookup::Nodegroup { target, name } => Command::new("aws").arg("eks").arg(
                "describe-nodegroup",
            ).arg("--cluster-name").arg(target.eks_cluster_name.as_str()).arg(
                "--nodegroup-name",
            ).arg(name.as_str()).arg("--region").arg(target.region.as_str()).arg("--output").arg(
                "json",
            ),
            Lookup::Instance { target } => Command::new("aws").arg("rds").arg(
                "describe-db-instances",
            ).arg("--db-instance-identifier").arg(target.rds_instance.as_str()).arg("--region").arg(
                target.region.as_str(),
            ).arg("--output").arg("json"),
            Lookup::Vpcs { target } => Command::new("aws").arg("ec2").arg("describe-vpcs").arg(
                "--filters",
            ).arg(cat2("Name=tag-key,Values=", target.capa_tag_key().as_str()).as_str()).arg(
                "--region",
            ).arg(target.region.as_str()).arg("--query").arg("Vpcs[].VpcId").arg("--output").arg(
                "text",
            ),
            Lookup::Gateways { target, vpc } => Command::new("aws").arg("ec2").arg(
                "describe-nat-gateways",
            ).arg("--filters").arg(cat2("Name=vpc-id,Values=", vpc.as_str()).as_str()).arg(
                "Name=state,Values=pending,available",
            ).arg("--region").arg(target.region.as_str()).arg("--query").arg(
                "NatGateways[].{Id: NatGatewayId, CreateTime: CreateTime}",
            ).arg("--output").arg("json"),
            Lookup::Addresses { target } => Command::new("aws").arg("ec2").arg(
                "describe-addresses",
            ).arg("--filters").arg(
                cat2("Name=tag-key,Values=", target.capa_tag_key().as_str()).as_str(),
            ).arg("--region").arg(target.region.as_str()).arg("--query").arg(
                "Addresses[].AllocationId",
            ).arg("--output").arg("text"),
            Lookup::Buckets { .. } => Command::new("aws").arg("s3api").arg("list-buckets").arg(
                "--output",
            ).arg("json"),
        };
        c.var("AWS_PAGER", "")
    }

    /// The texts on standard error that say that there is nothing to be found.
    pub fn markers(&self) -> (r: Vec<String>)
        ensures
            texts(r@) == self@.markers(),
    {
        let mut r: Vec<String> = Vec::new();
        assert(texts(r@) =~= Seq::empty());
        match self {
            Lookup::Cluster { .. } => push_text(&mut r, "ResourceNotFoundException".to_owned()),
            Lookup::Nodegroups { .. } => push_text(&mut r, "ResourceNotFoundException".to_owned()),
            Lookup::Nodegroup { .. } => push_text(&mut r, "ResourceNotFoundException".to_owned()),
            Lookup::Instance { .. } => push_text(&mut r, "DBInstanceNotFound".to_owned()),
            _ => {},
        }
        r
    }

    /// The line of the report for a query that failed.
    pub fn error(&self, error: &str) -> (r: String)
        ensures
            r@ == self@.error(error@),
    {
        match self {
            Lookup::Account => cat2("Failed to get account ID: ", error),
            Lookup::Cluster { target } => cat4(
                "EKS cluster ",
                target.eks_cluster_name.as_str(),
                ": ",
                error,
            ),
            Lookup::Nodegroups { target } => cat4(
                "EKS nodegroups ",
                target.eks_cluster_name.as_str(),
                ": ",
                error,
            ),
            Lookup::Nodegroup { target, name } => crate::text::cat6(
                "EKS nodegroup ",
                target.eks_cluster_name.as_str(),
                "/",
                name.as_str(),
                ": ",
                error,
            ),
            Lookup::Instance { target } => cat4(
                "RDS instance ",
                target.rds_instance.as_str(),
                ": ",
                error,
            ),
            Lookup::Vpcs { target } => cat4(
                "VPC discovery for cluster ",
                target.cluster_name.as_str(),
                ": ",
                error,
            ),
            Lookup::Gateways { vpc, .. } => cat4("VPC NAT discovery for ", vpc.as_str(), ": ", error),
            Lookup::Addresses { target } => cat4(
                "Elastic IP discovery for cluster ",
                target.cluster_name.as_str(),
                ": ",
                error,
            ),
            Lookup::Buckets { .. } => cat2("S3 bucket listing: ", error),
        }
    }

    /// The resources that the output of a query shows.
    pub fn findings(&self, scan: Scan, output: &str) -> (r: Vec<OrphanFinding>)
        ensures
            finding_views(r@) == self@.findings(scan, output@),
    {
        let mut r: Vec<OrphanFinding> = Vec::new();
        assert(finding_views(r@) =~= Seq::empty());
        if let Lookup::Addresses { target } = self {
            return address_findings(scan, target, output);
        }
        let document = match json::parse(output) {
            Some(document) => document,
            None => {
                return r;
            },
        };
        match self {
            Lookup::Cluster { target } => {
                let at = created(&document, "cluster");
                let id = target.eks_cluster_name.as_str();
                push_finding(&mut r, scan.finding("EKS Cluster", target, id, at));
            },
            Lookup::Nodegroup { target, name } => {
                let at = created(&document, "nodegroup");
                push_finding(&mut r, scan.finding("EKS Node Group", target, name.as_str(), at));
            },
            Lookup::Instance { target } => {
                let at = instance_created(&document);
                let id = target.rds_instance.as_str();
                push_finding(&mut r, scan.finding("RDS Instance", target, id, at));
            },
            Lookup::Gateways { target, vpc } => match document.as_array() {
                Some(gateways) => {
                    push_finding(
                        &mut r,
                        scan.finding("VPC", target, vpc.as_str(), oldest(gateways)),
                    );
                    append_findings(&mut r, gateway_findings(scan, target, gateways));
                },
                None => {},
            },
            Lookup::Buckets { target, account_id } => match json::get(&document, "Buckets") {
                Some(list) => match list.as_array() {
                    Some(items) => {
                        return buckets(scan, target, account_id.as_str(), items);
                    },
                    None => {},
                },
                None => {},
            },
            _ => {},
        }
        r
    }

    /// The resources that are known although the query failed.
    pub fn known(&self, scan: Scan) -> (r: Vec<OrphanFinding>)
        ensures
            finding_views(r@) == self@.known(scan),
    {
        let mut r: Vec<OrphanFinding> = Vec::new();
        assert(finding_views(r@) =~= Seq::empty());
        match self {
            Lookup::Gateways { target, vpc } => push_finding(
                &mut r,
                scan.finding("VPC", target, vpc.as_str(), None),
            ),
            _ => {},
        }
        r
    }

    /// The lookups that the output of a query leads to.
    pub fn follow_ups(&self, output: &str) -> (r: Vec<Lookup>)
        ensures
            lookup_views(r@) == self@.follow_ups(output@),
    {
        let found = words(output);
        let ghost all = self@.follow_ups(output@);
        let mut r: Vec<Lookup> = Vec::new();
        assert(lookup_views(r@) =~= all.take(0));
        assert(texts(found@).len() == found.len());
        match self {
            Lookup::Nodegroups { target } => {
                let mut i: usize = 0;
                while i < found.len()
                    invariant
                        i <= found.len(),
                        texts(found@) == words_spec(output@),
                        texts(found@).len() == found.len(),
                        self@ == (LookupView::Nodegroups { target: target@ }),
                        all == self@.follow_ups(output@),
                        lookup_views(r@) == all.take(i as int),
                    decreases found.len() - i,
                {
                    assert(words_spec(output@)[i as int] == found@[i as int]@);
                    let next = Lookup::Nodegroup { target: target.copy(), name: found[i].clone() };
                    assert(all.take(i + 1) =~= all.take(i as int).push(next@));
                    push_lookup(&mut r, next);
                    i = i + 1;
                }
                assert(all.take(found.len() as int) =~= all);
            },
            Lookup::Vpcs { target } => {
                let mut i: usize = 0;
                while i < found.len()
                    invariant
                        i <= found.len(),
                        texts(found@) == words_spec(output@),
                        texts(found@).len() == found.len(),
                        self@ == (LookupView::Vpcs { target: target@ }),
                        all == self@.follow_ups(output@),
                        lookup_views(r@) == all.take(i as int),
                    decreases found.len() - i,
                {
                    assert(words_spec(output@)[i as int] == found@[i as int]@);
                    let next = Lookup::Gateways { target: target.copy(), vpc: found[i].clone() };
                    assert(all.take(i + 1) =~= all.take(i as int).push(next@));
                    push_lookup(&mut r, next);
                    i = i + 1;
                }
                assert(all.take(found.len() as int) =~= all);
            },
            _ => {
                assert(all.take(0) =~= all);
            },
        }
        r
    }
}

// ---------------------------------------------------------------------------------------------
// Discoveries
// ---------------------------------------------------------------------------------------------
/// The lookups of all targets, in their order. Without the account the buckets cannot be told apart
/// and are not looked for.
pub open spec fn plan_spec(
    targets: Seq<AwsSweepTargetView>,
    account_id: Seq<char>,
) -> Seq<LookupView>
    decreases targets.len(),
{
    if targets.len() == 0 {
        Seq::empty()
    } else {
        let target = targets.last();
        let start = plan_spec(targets.drop_last(), account_id).push(
            LookupView::Cluster { target },
        ).push(LookupView::Nodegroups { target }).push(LookupView::Instance { target }).push(
            LookupView::Vpcs { target },
        ).push(LookupView::Addresses { target });
        if account_id.len() > 0 {
            start.push(LookupView::Buckets { target, account_id })
        } else {
            start
        }
    }
}

fn plan(targets: &Vec<AwsSweepTarget>, account_id: &str) -> (r: Vec<Lookup>)
    ensures
        lookup_views(r@) == plan_spec(target_views(targets@), account_id@),
{
    let ghost all = target_views(targets@);
    let mut r: Vec<Lookup> = Vec::new();
    let mut i: usize = 0;
    assert(all.take(0) =~= Seq::empty());
    assert(lookup_views(r@) =~= Seq::empty());
    while i < targets.len()
        invariant
            i <= targets.len(),
            all == target_views(targets@),
            lookup_views(r@) == plan_spec(all.take(i as int), account_id@),
        decreases targets.len() - i,
    {
        proof {
            assert(all.take(i + 1).drop_last() =~= all.take(i as int));
            assert(all.take(i + 1).last() == targets@[i as int]@);
        }
        push_lookup(&mut r, Lookup::Cluster { target: targets[i].copy() });
        push_lookup(&mut r, Lookup::Nodegroups { target: targets[i].copy() });
        push_lookup(&mut r, Lookup::Instance { target: targets[i].copy() });
        push_lookup(&mut r, Lookup::Vpcs { target: targets[i].copy() });
        push_lookup(&mut r, Lookup::Addresses { target: targets[i].copy() });
        if !is_nothing(account_id) {
            push_lookup(
                &mut r,
                Lookup::Buckets { target: targets[i].copy(), account_id: account_id.to_owned() },
            );
        }
        i = i + 1;
    }
    assert(all.take(targets.len() as int) =~= all);
    r
}

/// A discovery that is under way.
pub struct Discovery {
    /// The lookups to come.
    pub todo: Vec<Lookup>,
    /// What is searched for.
    pub targets: Vec<AwsSweepTarget>,
    /// When the scan began, and the age below which a resource is recent.
    pub scan: Scan,
    /// What has been found so far.
    pub report: DiscoveryReport,
}

/// The model of a discovery.
pub struct DiscoveryView {
    pub todo: Seq<LookupView>,
    pub targets: Seq<AwsSweepTargetView>,
    pub scan: Scan,
    pub report: DiscoveryReportView,
}

impl View for Discovery {
    type V = DiscoveryView;

    open spec fn view(&self) -> DiscoveryView {
        DiscoveryView {
            todo: lookup_views(self.todo@),
            targets: target_views(self.targets@),
            scan: self.scan,
            report: self.report@,
        }
    }
}

impl DiscoveryView {
    /// A discovery that begins: the account comes first.
    pub open spec fn begun(targets: Seq<AwsSweepTargetView>, scan: Scan) -> DiscoveryView {
        DiscoveryView {
            todo: Seq::empty().push(LookupView::Account),
            targets,
            scan,
            report: DiscoveryReportView {
                account_id: Seq::empty(),
                findings: Seq::empty(),
                errors: Seq::empty(),
                scanned_at: scan.at,
            },
        }
    }

    /// The report after the outcome of a lookup.
    pub open spec fn reported(
        self,
        lookup: LookupView,
        result: ProbeResultView,
    ) -> DiscoveryReportView {
        match result {
            ProbeResultView::Present(output) => DiscoveryReportView {
                account_id: if lookup == LookupView::Account {
                    trim_spec(output)
                } else {
                    self.report.account_id
                },
                findings: self.report.findings + lookup.findings(self.scan, output),
                ..self.report
            },
            ProbeResultView::Absent => DiscoveryReportView {
                findings: self.report.findings + lookup.known(self.scan),
                errors: if lookup == LookupView::Account {
                    self.report.errors.push("Account ID lookup returned absent (impossible)"@)
                } else {
                    self.report.errors
                },
                ..self.report
            },
            ProbeResultView::Error(error) => DiscoveryReportView {
                findings: self.report.findings + lookup.known(self.scan),
                errors: self.report.errors.push(lookup.error(error)),
                ..self.report
            },
        }
    }

    /// The lookups that come next after the outcome of a lookup.
    pub open spec fn next_lookups(
        self,
        lookup: LookupView,
        result: ProbeResultView,
    ) -> Seq<LookupView> {
        if lookup == LookupView::Account {
            plan_spec(self.targets, self.reported(lookup, result).account_id)
        } else {
            match result {
                ProbeResultView::Present(output) => lookup.follow_ups(output),
                _ => Seq::empty(),
            }
        }
    }

    /// The discovery after the reply to its next command.
    pub open spec fn settled(self, reply: ReplyView) -> DiscoveryView {
        if self.todo.len() == 0 {
            self
        } else {
            let lookup = self.todo[0];
            let result = aws_probe_spec(reply, lookup.markers());
            DiscoveryView {
                todo: self.next_lookups(lookup, result) + self.todo.skip(1),
                report: self.reported(lookup, result),
                ..self
            }
        }
    }
}

fn append_findings(findings: &mut Vec<OrphanFinding>, more: Vec<OrphanFinding>)
    ensures
        finding_views(final(findings)@) == finding_views(old(findings)@) + finding_views(more@),
{
    let ghost before = finding_views(findings@);
    let ghost added = finding_views(more@);
    let mut more = more;
    findings.append(&mut more);
    assert(finding_views(findings@) =~= before + added);
}

impl Discovery {
    /// The next command of the discovery, or none once it is complete.
    pub fn next(&self) -> (r: Option<Command>)
        ensures
            match r {
                Some(c) => self@.todo.len() > 0 && c@ == self@.todo[0].command(),
                None => self@.todo.len() == 0,
            },
    {
        if self.todo.len() == 0 {
            None
        } else {
            assert(self@.todo[0] == self.todo@[0]@);
            Some(self.todo[0].command())
        }
    }

    /// Takes the reply to the next command.
    pub fn settle(&mut self, reply: &Reply)
        ensures
            final(self)@ == old(self)@.settled(reply@),
    {
        if self.todo.len() == 0 {
            return;
        }
        let ghost before = self@;
        let lookup = self.todo.remove(0);
        assert(lookup@ == before.todo[0]);
        assert(lookup_views(self.todo@) =~= before.todo.skip(1));
        let result = aws_probe(reply, &lookup.markers());
        let is_account: bool = match lookup {
            Lookup::Account => true,
            _ => false,
        };
        let mut more: Vec<Lookup> = Vec::new();
        assert(lookup_views(more@) =~= Seq::empty());
        match &result {
            ProbeResult::Present(output) => {
                if is_account {
                    self.report.account_id = trim(output.as_str());
                }
                append_findings(
                    &mut self.report.findings,
                    lookup.findings(self.scan, output.as_str()),
                );
                more = lookup.follow_ups(output.as_str());
            },
            ProbeResult::Absent => {
                append_findings(&mut self.report.findings, lookup.known(self.scan));
                if is_account {
                    push_text(
                        &mut self.report.errors,
                        "Account ID lookup returned absent (impossible)".to_owned(),
                    );
                }
            },
            ProbeResult::Error(error) => {
                append_findings(&mut self.report.findings, lookup.known(self.scan));
                push_text(&mut self.report.errors, lookup.error(error.as_str()));
            },
        }
        if is_account {
            more = plan(&self.targets, self.report.account_id.as_str());
        }
        let ghost next = lookup_views(more@);
        let ghost rest = lookup_views(self.todo@);
        more.append(&mut self.todo);
        self.todo = more;
        assert(lookup_views(self.todo@) =~= next + rest);
    }
}

/// Discovers the resources of all sweep targets.
pub fn discover_with(targets: Vec<AwsSweepTarget>, min_age_hours: u64, scanned_at: i64) -> (r:
    Discovery)
    ensures
        r@ == DiscoveryView::begun(
            target_views(targets@),
            Scan { at: scanned_at, min_age_hours },
        ),
{
    let mut todo: Vec<Lookup> = Vec::new();
    assert(lookup_views(todo@) =~= Seq::empty());
    push_lookup(&mut todo, Lookup::Account);
    let report = DiscoveryReport {
        account_id: String::new(),
        findings: Vec::new(),
        errors: Vec::new(),
        scanned_at,
    };
    assert(report@.findings =~= Seq::empty());
    assert(report@.errors =~= Seq::empty());
    Discovery { todo, targets, scan: Scan { at: scanned_at, min_age_hours }, report }
}

/// Why an environment has no orphan discovery, where it has none.
pub open spec fn refusal_spec(cfg: Config) -> Option<Seq<char>> {
    if cfg.environment.teardown.aws_workloads@.len() == 0 {
        Some(
            "Orphan discovery is only supported for the 'aws' profile.\n       The '"@
                + cfg.profile@ + "' profile has no AWS workloads to scan."@,
        )
    } else {
        None
    }
}

/// Begins the orphan discovery of an environment; one without AWS workloads is refused.
pub fn run_orphans(cfg: &Config, ocfg: &OrphansConfig, scanned_at: i64) -> (r: Result<
    Discovery,
    String,
>)
    ensures
        match (r, refusal_spec(*cfg)) {
            (Ok(discovery), None) => discovery@ == DiscoveryView::begun(
                aws_sweep_targets_spec(*cfg.environment),
                Scan { at: scanned_at, min_age_hours: ocfg.min_age_hours },
            ),
            (Err(message), Some(refusal)) => message@ == refusal,
            _ => false,
        },
{
    if cfg.environment.teardown.aws_workloads.len() == 0 {
        return Err(
            cat3(
                "Orphan discovery is only supported for the 'aws' profile.\n       The '",
                cfg.profile.as_str(),
                "' profile has no AWS workloads to scan.",
            ),
        );
    }
    Ok(discover_with(aws_sweep_targets(cfg.environment), ocfg.min_age_hours, scanned_at))
}

/// How a run ends once its report is out: errors fail it, orphans do not.
pub open spec fn conclusion_spec(report: DiscoveryReportView) -> Option<Seq<char>> {
    if report.errors.len() > 0 {
        Some(
            "Orphan discovery completed with "@ + crate::number::decimal_spec(
                report.errors.len() as int,
            ) + " error(s); see report above"@,
        )
    } else {
        None
    }
}

/// How a run ends once its report is out: errors fail it, orphans do not.
pub fn conclude(report: &DiscoveryReport) -> (r: Result<(), String>)
    ensures
        match (r, conclusion_spec(report@)) {
            (Ok(_), None) => true,
            (Err(message), Some(error)) => message@ == error,
            _ => false,
        },
{
    assert(texts(report.errors@).len() == report.errors.len());
    if report.errors.len() > 0 {
        Err(
            cat3(
                "Orphan discovery completed with ",
                crate::number::decimal(report.errors.len() as u64).as_str(),
                " error(s); see report above",
            ),
        )
    } else {
        Ok(())
    }
}

// ---------------------------------------------------------------------------------------------
// What holds of every discovery
// ---------------------------------------------------------------------------------------------
/// Every finding is judged by the one rule: it is an orphan where it is older than the minimum age,
/// or of unknown age.
pub open spec fn judged(findings: Seq<OrphanFindingView>, scan: Scan) -> bool {
    forall|i: int|
        0 <= i < findings.len() ==> (#[trigger] findings[i]).is_orphan == is_orphan_spec(
            findings[i].created_at,
            scan.at,
            scan.min_age_hours,
        )
}

proof fn buckets_are_judged(
    scan: Scan,
    target: AwsSweepTargetView,
    account_id: Seq<char>,
    buckets: Seq<JsonTree>,
)
    ensures
        judged(buckets_spec(scan, target, account_id, buckets), scan),
    decreases buckets.len(),
{
    if buckets.len() > 0 {
        buckets_are_judged(scan, target, account_id, buckets.drop_last());
    }
}

proof fn gateways_are_judged(scan: Scan, target: AwsSweepTargetView, gateways: Seq<JsonTree>)
    ensures
        judged(gateways_spec(scan, target, gateways), scan),
    decreases gateways.len(),
{
    if gateways.len() > 0 {
        gateways_are_judged(scan, target, gateways.drop_last());
    }
}

/// Every finding of a discovery is judged by the one rule, from its beginning on and after every
/// reply.
pub proof fn law_findings_are_judged(d: DiscoveryView, reply: ReplyView)
    ensures
        forall|targets: Seq<AwsSweepTargetView>, scan: Scan|
            judged((#[trigger] DiscoveryView::begun(targets, scan)).report.findings, scan),
        judged(d.report.findings, d.scan) ==> judged(d.settled(reply).report.findings, d.scan),
{
    if d.todo.len() > 0 {
        let lookup = d.todo[0];
        if let ProbeResultView::Present(output) = aws_probe_spec(reply, lookup.markers()) {
            if let LookupView::Gateways { target, .. } = lookup {
                if let Some(document) = json_document(output) {
                    if let Some(gateways) = document.items() {
                        gateways_are_judged(d.scan, target, gateways);
                    }
                }
            }
            if let LookupView::Buckets { target, account_id } = lookup {
                if let Some(document) = json_document(output) {
                    if let Some(list) = document.get("Buckets"@) {
                        if let Some(buckets) = list.items() {
                            buckets_are_judged(d.scan, target, account_id, buckets);
                        }
                    }
                }
            }
        }
    }
}

/// Nothing that was found is lost: every reply adds to the findings and to the errors.
pub proof fn law_reports_grow(d: DiscoveryView, reply: ReplyView)
    ensures
        d.report.findings.is_prefix_of(d.settled(reply).report.findings),
        d.report.errors.is_prefix_of(d.settled(reply).report.errors),
{
}

/// A query whose outcome is unknown is reported as an error, and one whose outcome is known is not.
pub proof fn law_unknown_outcomes_are_errors(d: DiscoveryView, reply: ReplyView)
    requires
        d.todo.len() > 0,
        d.todo[0] != LookupView::Account,
    ensures
        ({
            let lookup = d.todo[0];
            match aws_probe_spec(reply, lookup.markers()) {
                ProbeResultView::Error(error) => d.settled(reply).report.errors
                    == d.report.errors.push(lookup.error(error)),
                _ => d.settled(reply).report.errors == d.report.errors,
            }
        }),
{
}

proof fn gateways_are_listed(
    scan: Scan,
    target: AwsSweepTargetView,
    gateways: Seq<JsonTree>,
    i: int,
    id: Seq<char>,
)
    requires
        0 <= i < gateways.len(),
        text_in(gateways[i], "Id"@) == Some(id),
    ensures
        gateways_spec(scan, target, gateways).contains(
            scan.finding_spec(
                "NAT Gateway"@,
                target,
                id,
                moment(text_in(gateways[i], "CreateTime"@)),
            ),
        ),
    decreases gateways.len(),
{
    let found = scan.finding_spec(
        "NAT Gateway"@,
        target,
        id,
        moment(text_in(gateways[i], "CreateTime"@)),
    );
    let all = gateways_spec(scan, target, gateways);
    if i == gateways.len() - 1 {
        assert(all[all.len() - 1] == found);
    } else {
        let start = gateways_spec(scan, target, gateways.drop_last());
        gateways_are_listed(scan, target, gateways.drop_last(), i, id);
        let k = choose|k: int| 0 <= k < start.len() && start[k] == found;
        assert(all[k] == found);
    }
}

/// A listing of the NAT gateways of a VPC reports the VPC and each gateway that has an identifier.
pub proof fn law_gateways_are_reported(
    scan: Scan,
    target: AwsSweepTargetView,
    vpc: Seq<char>,
    output: Seq<char>,
    gateways: Seq<JsonTree>,
    i: int,
    id: Seq<char>,
)
    requires
        json_document(output) == Some(JsonTree::Items(gateways)),
        0 <= i < gateways.len(),
        text_in(gateways[i], "Id"@) == Some(id),
    ensures
        ({
            let findings = LookupView::Gateways { target, vpc }.findings(scan, output);
            &&& findings.contains(scan.finding_spec("VPC"@, target, vpc, oldest_spec(gateways)))
            &&& findings.contains(
                scan.finding_spec(
                    "NAT Gateway"@,
                    target,
                    id,
                    moment(text_in(gateways[i], "CreateTime"@)),
                ),
            )
        }),
{
    let findings = LookupView::Gateways { target, vpc }.findings(scan, output);
    let listed = gateways_spec(scan, target, gateways);
    let found = scan.finding_spec(
        "NAT Gateway"@,
        target,
        id,
        moment(text_in(gateways[i], "CreateTime"@)),
    );
    gateways_are_listed(scan, target, gateways, i, id);
    let k = choose|k: int| 0 <= k < listed.len() && listed[k] == found;
    assert(findings[0] == scan.finding_spec("VPC"@, target, vpc, oldest_spec(gateways)));
    assert(findings[k + 1] == found);
}

proof fn buckets_are_listed(
    scan: Scan,
    target: AwsSweepTargetView,
    account_id: Seq<char>,
    buckets: Seq<JsonTree>,
    i: int,
    name: Seq<char>,
)
    requires
        0 <= i < buckets.len(),
        text_in(buckets[i], "Name"@) == Some(name),
        is_bucket_of_spec(name, account_id, target.cluster_name),
    ensures
        buckets_spec(scan, target, account_id, buckets).contains(
            scan.finding_spec(
                "S3 Bucket"@,
                target,
                name,
                moment(text_in(buckets[i], "CreationDate"@)),
            ),
        ),
    decreases buckets.len(),
{
    let found = scan.finding_spec(
        "S3 Bucket"@,
        target,
        name,
        moment(text_in(buckets[i], "CreationDate"@)),
    );
    let all = buckets_spec(scan, target, account_id, buckets);
    if i == buckets.len() - 1 {
        assert(all[all.len() - 1] == found);
    } else {
        let start = buckets_spec(scan, target, account_id, buckets.drop_last());
        buckets_are_listed(scan, target, account_id, buckets.drop_last(), i, name);
        let k = choose|k: int| 0 <= k < start.len() && start[k] == found;
        assert(all[k] == found);
    }
}

/// The data bucket that a cluster has in an account is reported where the listing of the account's
/// buckets shows it.
pub proof fn law_data_bucket_is_reported(
    scan: Scan,
    target: AwsSweepTargetView,
    account_id: Seq<char>,
    output: Seq<char>,
    document: JsonTree,
    buckets: Seq<JsonTree>,
    i: int,
)
    requires
        json_document(output) == Some(document),
        document.get("Buckets"@) == Some(JsonTree::Items(buckets)),
        0 <= i < buckets.len(),
        text_in(buckets[i], "Name"@) == Some(
            "krops-"@ + account_id + "-"@ + target.cluster_name + "-data"@,
        ),
    ensures
        (LookupView::Buckets { target, account_id }).findings(scan, output).contains(
            scan.finding_spec(
                "S3 Bucket"@,
                target,
                "krops-"@ + account_id + "-"@ + target.cluster_name + "-data"@,
                moment(text_in(buckets[i], "CreationDate"@)),
            ),
        ),
{
    let name = "krops-"@ + account_id + "-"@ + target.cluster_name + "-data"@;
    let prefix = "krops-"@ + account_id + "-"@ + target.cluster_name + "-"@;
    reveal_strlit("-data");
    reveal_strlit("-");
    assert(name.take(prefix.len() as int) =~= prefix);
    assert(name.subrange(0, prefix.len() as int) =~= prefix);
    buckets_are_listed(scan, target, account_id, buckets, i, name);
}

/// The operations of the AWS CLI that a discovery uses: each of them reads and none changes
/// anything.
pub open spec fn reads(operation: Seq<char>) -> bool {
    ||| operation == "get-caller-identity"@
    ||| operation == "describe-cluster"@
    ||| operation == "list-nodegroups"@
    ||| operation == "describe-nodegroup"@
    ||| operation == "describe-db-instances"@
    ||| operation == "describe-vpcs"@
    ||| operation == "describe-nat-gateways"@
    ||| operation == "describe-addresses"@
    ||| operation == "list-buckets"@
}

/// A discovery runs the AWS CLI alone, and operations that read alone.
pub proof fn law_discovery_only_reads(lookup: LookupView)
    ensures
        lookup.command().program == "aws"@,
        lookup.command().args.len() >= 2,
        reads(lookup.command().args[1]),
{
}

} // verus!
