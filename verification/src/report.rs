//! The report of an orphan discovery, as Markdown and as JSON.
use vstd::prelude::*;

use crate::calendar::{format_epoch_utc, format_epoch_utc_spec};
use crate::json;
use crate::json::{json_pretty_text, json_tree, json_trees, JsonTree};
use crate::number::{decimal, decimal_spec, signed_spec};
use crate::orphans::{
    finding_views, DiscoveryReport, DiscoveryReportView, OrphanFinding, OrphanFindingView,
};
use crate::text::{cat2, cat3, cat5, cat7, texts};

verus! {

/// The age of a resource in whole hours. A resource whose creation is not known has none, nor has
/// one that was created an hour or more after the moment.
pub open spec fn age_hours_spec(created_at: Option<i64>, now: i64) -> Option<int> {
    match created_at {
        Some(created) => {
            let age = now - created;
            if age <= -3600 {
                None
            } else if age < 0 {
                Some(0)
            } else {
                Some(age / 3600)
            }
        },
        None => None,
    }
}

/// The age of a resource in whole hours.
pub fn age_hours(created_at: Option<i64>, now: i64) -> (r: Option<u64>)
    ensures
        match r {
            Some(hours) => age_hours_spec(created_at, now) == Some(hours as int) && hours
                <= i64::MAX,
            None => age_hours_spec(created_at, now) is None,
        },
{
    match created_at {
        Some(created) => {
            let age: i128 = now as i128 - created as i128;
            if age <= -3600 {
                None
            } else if age < 0 {
                Some(0)
            } else {
                Some((age / 3600) as u64)
            }
        },
        None => None,
    }
}

/// How many findings are orphans.
pub open spec fn orphan_count_spec(findings: Seq<OrphanFindingView>) -> int
    decreases findings.len(),
{
    if findings.len() == 0 {
        0
    } else {
        orphan_count_spec(findings.drop_last()) + if findings.last().is_orphan {
            1int
        } else {
            0int
        }
    }
}

/// Every finding is either an orphan or recent, and the report counts each once.
pub proof fn law_counts_add_up(findings: Seq<OrphanFindingView>)
    ensures
        0 <= orphan_count_spec(findings) <= findings.len(),
        orphan_count_spec(findings) == findings.filter(|f: OrphanFindingView| f.is_orphan).len(),
        findings.len() - orphan_count_spec(findings) == findings.filter(
            |f: OrphanFindingView| !f.is_orphan,
        ).len(),
    decreases findings.len(),
{
    reveal(Seq::filter);
    if findings.len() > 0 {
        law_counts_add_up(findings.drop_last());
    }
}

/// How many findings are orphans.
pub fn orphan_count(findings: &Vec<OrphanFinding>) -> (r: usize)
    ensures
        r == orphan_count_spec(finding_views(findings@)),
        r <= findings.len(),
{
    let ghost all = finding_views(findings@);
    let mut r: usize = 0;
    let mut i: usize = 0;
    assert(all.take(0) =~= Seq::empty());
    while i < findings.len()
        invariant
            i <= findings.len(),
            r <= i,
            all == finding_views(findings@),
            r == orphan_count_spec(all.take(i as int)),
        decreases findings.len() - i,
    {
        proof {
            assert(all.take(i + 1).drop_last() =~= all.take(i as int));
            assert(all.take(i + 1).last() == findings@[i as int]@);
        }
        if findings[i].is_orphan {
            r = r + 1;
        }
        i = i + 1;
    }
    assert(all.take(findings.len() as int) =~= all);
    r
}

// ---------------------------------------------------------------------------------------------
// Markdown
// ---------------------------------------------------------------------------------------------
/// The row of an orphan.
pub open spec fn row_spec(f: OrphanFindingView, now: i64) -> Seq<char> {
    let age = age_hours_spec(f.created_at, now);
    let shown = match age {
        Some(hours) => decimal_spec(hours),
        None => "-"@,
    };
    let status = match age {
        Some(hours) => decimal_spec(hours) + "h old"@,
        None => "Unknown"@,
    };
    "| "@ + f.kind + " | "@ + f.region + " | "@ + f.id + " | "@ + f.cluster + " | "@ + shown + " | "@
        + status + " |\n"@
}

fn row(f: &OrphanFinding, now: i64) -> (r: String)
    ensures
        r@ == row_spec(f@, now),
{
    let age = age_hours(f.created_at, now);
    let shown = match age {
        Some(hours) => decimal(hours),
        None => "-".to_owned(),
    };
    let status = match age {
        Some(hours) => cat2(decimal(hours).as_str(), "h old"),
        None => "Unknown".to_owned(),
    };
    let start = cat7(
        "| ",
        f.kind.as_str(),
        " | ",
        f.region.as_str(),
        " | ",
        f.id.as_str(),
        " | ",
    );
    cat7(
        start.as_str(),
        f.cluster.as_str(),
        " | ",
        shown.as_str(),
        " | ",
        status.as_str(),
        " |\n",
    )
}

/// The rows of the orphans, in the order of the findings.
pub open spec fn rows_spec(findings: Seq<OrphanFindingView>, now: i64) -> Seq<char>
    decreases findings.len(),
{
    if findings.len() == 0 {
        Seq::empty()
    } else if findings.last().is_orphan {
        rows_spec(findings.drop_last(), now) + row_spec(findings.last(), now)
    } else {
        rows_spec(findings.drop_last(), now)
    }
}

fn rows(findings: &Vec<OrphanFinding>, now: i64) -> (r: String)
    ensures
        r@ == rows_spec(finding_views(findings@), now),
{
    let ghost all = finding_views(findings@);
    let mut r = String::new();
    let mut i: usize = 0;
    assert(all.take(0) =~= Seq::empty());
    while i < findings.len()
        invariant
            i <= findings.len(),
            all == finding_views(findings@),
            r@ == rows_spec(all.take(i as int), now),
        decreases findings.len() - i,
    {
        proof {
            assert(all.take(i + 1).drop_last() =~= all.take(i as int));
            assert(all.take(i + 1).last() == findings@[i as int]@);
        }
        if findings[i].is_orphan {
            r.append(row(&findings[i], now).as_str());
        }
        i = i + 1;
    }
    assert(all.take(findings.len() as int) =~= all);
    r
}

/// One line per error.
pub open spec fn error_lines_spec(errors: Seq<Seq<char>>) -> Seq<char>
    decreases errors.len(),
{
    if errors.len() == 0 {
        Seq::empty()
    } else {
        error_lines_spec(errors.drop_last()) + ("- "@ + errors.last() + "\n"@)
    }
}

fn error_lines(errors: &Vec<String>) -> (r: String)
    ensures
        r@ == error_lines_spec(texts(errors@)),
{
    let ghost all = texts(errors@);
    let mut r = String::new();
    let mut i: usize = 0;
    assert(all.take(0) =~= Seq::empty());
    while i < errors.len()
        invariant
            i <= errors.len(),
            all == texts(errors@),
            r@ == error_lines_spec(all.take(i as int)),
        decreases errors.len() - i,
    {
        proof {
            assert(all.take(i + 1).drop_last() =~= all.take(i as int));
            assert(all.take(i + 1).last() == errors@[i as int]@);
        }
        r.append(cat3("- ", errors[i].as_str(), "\n").as_str());
        i = i + 1;
    }
    assert(all.take(errors.len() as int) =~= all);
    r
}

/// The account, the time of the scan, and the minimum age.
pub open spec fn header_spec(report: DiscoveryReportView, min_age_hours: u64) -> Seq<char> {
    "# AWS e2e Orphan Report\n\n**Account**: "@ + report.account_id + "\n**Scanned**: "@
        + format_epoch_utc_spec(report.scanned_at as int) + "\n**Min Age**: "@ + decimal_spec(
        min_age_hours as int,
    ) + " hours\n\n"@
}

fn header(report: &DiscoveryReport, min_age_hours: u64) -> (r: String)
    ensures
        r@ == header_spec(report@, min_age_hours),
{
    cat7(
        "# AWS e2e Orphan Report\n\n**Account**: ",
        report.account_id.as_str(),
        "\n**Scanned**: ",
        format_epoch_utc(report.scanned_at).as_str(),
        "\n**Min Age**: ",
        decimal(min_age_hours).as_str(),
        " hours\n\n",
    )
}

/// What was found: nothing at all, the orphans in a table, or recent resources alone.
pub open spec fn summary_spec(
    report: DiscoveryReportView,
    now: i64,
    min_age_hours: u64,
) -> Seq<char> {
    let orphans = orphan_count_spec(report.findings);
    let recent = report.findings.len() - orphans;
    if report.findings.len() == 0 && report.errors.len() == 0 {
        "**No resources found.**\n\n"@
    } else if orphans > 0 {
        "**Orphans found: "@ + decimal_spec(orphans) + "** (Recent: "@ + decimal_spec(recent)
            + ")\n\n| Kind | Region | ID | Cluster | Age (h) | Status |\n|------|--------|----|---------|---------|---------|\n"@
            + rows_spec(report.findings, now) + "\n"@
    } else if recent > 0 {
        "**All resources are recent** (no orphans, "@ + decimal_spec(recent) + " resources < "@
            + decimal_spec(min_age_hours as int) + " hours old)\n\n"@
    } else {
        ""@
    }
}

fn summary(report: &DiscoveryReport, now: i64, min_age_hours: u64) -> (r: String)
    ensures
        r@ == summary_spec(report@, now, min_age_hours),
{
    let orphans: usize = orphan_count(&report.findings);
    let recent: usize = report.findings.len() - orphans;
    assert(report@.findings.len() == report.findings.len());
    assert(report@.errors.len() == report.errors.len());
    if report.findings.len() == 0 && report.errors.len() == 0 {
        "**No resources found.**\n\n".to_owned()
    } else if orphans > 0 {
        cat7(
            "**Orphans found: ",
            decimal(orphans as u64).as_str(),
            "** (Recent: ",
            decimal(recent as u64).as_str(),
            ")\n\n| Kind | Region | ID | Cluster | Age (h) | Status |\n|------|--------|----|---------|---------|---------|\n",
            rows(&report.findings, now).as_str(),
            "\n",
        )
    } else if recent > 0 {
        cat5(
            "**All resources are recent** (no orphans, ",
            decimal(recent as u64).as_str(),
            " resources < ",
            decimal(min_age_hours).as_str(),
            " hours old)\n\n",
        )
    } else {
        "".to_owned()
    }
}

/// The errors, where there are any.
pub open spec fn errors_spec(errors: Seq<Seq<char>>) -> Seq<char> {
    if errors.len() > 0 {
        "## Errors\n\n"@ + error_lines_spec(errors) + "\n"@
    } else {
        ""@
    }
}

fn errors_section(errors: &Vec<String>) -> (r: String)
    ensures
        r@ == errors_spec(texts(errors@)),
{
    assert(texts(errors@).len() == errors.len());
    if errors.len() > 0 {
        cat3("## Errors\n\n", error_lines(errors).as_str(), "\n")
    } else {
        "".to_owned()
    }
}

/// The report as Markdown.
pub open spec fn render_markdown_spec(
    report: DiscoveryReportView,
    now: i64,
    min_age_hours: u64,
) -> Seq<char> {
    header_spec(report, min_age_hours) + summary_spec(report, now, min_age_hours) + errors_spec(
        report.errors,
    )
        + "## Remediation\n\nRun teardown to remove orphaned resources:\n```\nAWS_ONLY=1 mise run teardown aws\n```\n\n**Note**: This report does not scan IAM roles/users or CloudFormation stacks (usually free).\n"@
}

/// Renders the report as Markdown.
pub fn render_markdown(report: &DiscoveryReport, now: i64, min_age_hours: u64) -> (r: String)
    ensures
        r@ == render_markdown_spec(report@, now, min_age_hours),
{
    crate::text::cat4(
        header(report, min_age_hours).as_str(),
        summary(report, now, min_age_hours).as_str(),
        errors_section(&report.errors).as_str(),
        "## Remediation\n\nRun teardown to remove orphaned resources:\n```\nAWS_ONLY=1 mise run teardown aws\n```\n\n**Note**: This report does not scan IAM roles/users or CloudFormation stacks (usually free).\n",
    )
}

// ---------------------------------------------------------------------------------------------
// JSON
// ---------------------------------------------------------------------------------------------
/// A finding as JSON.
pub open spec fn finding_tree(f: OrphanFindingView, now: i64) -> JsonTree {
    let created = match f.created_at {
        Some(seconds) => JsonTree::Number(signed_spec(seconds as int)),
        None => JsonTree::Null,
    };
    let age = match age_hours_spec(f.created_at, now) {
        Some(hours) => JsonTree::Number(decimal_spec(hours)),
        None => JsonTree::Null,
    };
    JsonTree::object().with("kind"@, JsonTree::Text(f.kind)).with(
        "region"@,
        JsonTree::Text(f.region),
    ).with("id"@, JsonTree::Text(f.id)).with("cluster"@, JsonTree::Text(f.cluster)).with(
        "created_at"@,
        created,
    ).with("age_hours"@, age).with("is_orphan"@, JsonTree::Bool(f.is_orphan))
}

fn finding_json(f: &OrphanFinding, now: i64) -> (r: serde_json::Value)
    ensures
        json_tree(r) == finding_tree(f@, now),
{
    let created = match f.created_at {
        Some(seconds) => json::integer(seconds),
        None => json::null(),
    };
    let age = match age_hours(f.created_at, now) {
        Some(hours) => json::natural(hours),
        None => json::null(),
    };
    let r = json::with(json::object(), "kind", json::string(f.kind.as_str()));
    let r = json::with(r, "region", json::string(f.region.as_str()));
    let r = json::with(r, "id", json::string(f.id.as_str()));
    let r = json::with(r, "cluster", json::string(f.cluster.as_str()));
    let r = json::with(r, "created_at", created);
    let r = json::with(r, "age_hours", age);
    json::with(r, "is_orphan", json::boolean(f.is_orphan))
}

fn finding_list(findings: &Vec<OrphanFinding>, now: i64) -> (r: Vec<serde_json::Value>)
    ensures
        json_trees(r@) == finding_views(findings@).map_values(
            |f: OrphanFindingView| finding_tree(f, now),
        ),
{
    let ghost all = finding_views(findings@).map_values(
        |f: OrphanFindingView| finding_tree(f, now),
    );
    let mut r: Vec<serde_json::Value> = Vec::new();
    let mut i: usize = 0;
    assert(json_trees(r@) =~= all.take(0));
    while i < findings.len()
        invariant
            i <= findings.len(),
            all == finding_views(findings@).map_values(
                |f: OrphanFindingView| finding_tree(f, now),
            ),
            json_trees(r@) == all.take(i as int),
        decreases findings.len() - i,
    {
        let ghost before = r@;
        let value = finding_json(&findings[i], now);
        r.push(value);
        assert(json_trees(r@) =~= json_trees(before).push(json_tree(value)));
        assert(all.take(i + 1) =~= all.take(i as int).push(json_tree(value)));
        i = i + 1;
    }
    assert(all.take(findings.len() as int) =~= all);
    r
}

fn text_list(items: &Vec<String>) -> (r: Vec<serde_json::Value>)
    ensures
        json_trees(r@) == texts(items@).map_values(|text: Seq<char>| JsonTree::Text(text)),
{
    let ghost all = texts(items@).map_values(|text: Seq<char>| JsonTree::Text(text));
    let mut r: Vec<serde_json::Value> = Vec::new();
    let mut i: usize = 0;
    assert(json_trees(r@) =~= all.take(0));
    while i < items.len()
        invariant
            i <= items.len(),
            all == texts(items@).map_values(|text: Seq<char>| JsonTree::Text(text)),
            json_trees(r@) == all.take(i as int),
        decreases items.len() - i,
    {
        let ghost before = r@;
        let value = json::string(items[i].as_str());
        r.push(value);
        assert(json_trees(r@) =~= json_trees(before).push(json_tree(value)));
        assert(all.take(i + 1) =~= all.take(i as int).push(json_tree(value)));
        i = i + 1;
    }
    assert(all.take(items.len() as int) =~= all);
    r
}

/// The report as a JSON value.
pub open spec fn report_tree(
    report: DiscoveryReportView,
    now: i64,
    min_age_hours: u64,
) -> JsonTree {
    let orphans = orphan_count_spec(report.findings);
    let recent = report.findings.len() - orphans;
    JsonTree::object().with("account_id"@, JsonTree::Text(report.account_id)).with(
        "scanned_at"@,
        JsonTree::Number(signed_spec(report.scanned_at as int)),
    ).with("orphan_count"@, JsonTree::Number(decimal_spec(orphans))).with(
        "recent_count"@,
        JsonTree::Number(decimal_spec(recent)),
    ).with("min_age_hours"@, JsonTree::Number(decimal_spec(min_age_hours as int))).with(
        "findings"@,
        JsonTree::Items(
            report.findings.map_values(|f: OrphanFindingView| finding_tree(f, now)),
        ),
    ).with(
        "errors"@,
        JsonTree::Items(report.errors.map_values(|text: Seq<char>| JsonTree::Text(text))),
    )
}

/// The report as a JSON value.
pub fn report_value(report: &DiscoveryReport, now: i64, min_age_hours: u64) -> (r: serde_json::Value)
    ensures
        json_tree(r) == report_tree(report@, now, min_age_hours),
{
    let orphans: usize = orphan_count(&report.findings);
    let recent: usize = report.findings.len() - orphans;
    assert(report@.findings.len() == report.findings.len());
    let r = json::with(json::object(), "account_id", json::string(report.account_id.as_str()));
    let r = json::with(r, "scanned_at", json::integer(report.scanned_at));
    let r = json::with(r, "orphan_count", json::natural(orphans as u64));
    let r = json::with(r, "recent_count", json::natural(recent as u64));
    let r = json::with(r, "min_age_hours", json::natural(min_age_hours));
    let r = json::with(r, "findings", json::array(finding_list(&report.findings, now)));
    json::with(r, "errors", json::array(text_list(&report.errors)))
}

/// Renders the report as JSON; an empty object where that fails.
pub fn to_json(report: &DiscoveryReport, now: i64, min_age_hours: u64) -> (r: String)
    ensures
        r@ == match json_pretty_text(report_tree(report@, now, min_age_hours)) {
            Some(text) => text,
            None => "{}"@,
        },
{
    match json::pretty(&report_value(report, now, min_age_hours)) {
        Some(text) => text,
        None => "{}".to_owned(),
    }
}

} // verus!
