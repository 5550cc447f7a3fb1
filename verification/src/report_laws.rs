//! What a reader of a discovery report finds in it, and how a manifest is filled in.
use vstd::prelude::*;

use crate::json::{json_document, JsonTree};
use crate::manifest::{
    filled_from, filled_in_spec, is_name_char_spec, is_placeholder, name_end, provided_spec,
    unfilled_from, unfilled_spec,
};
use crate::number::decimal_spec;
use crate::orphans::{DiscoveryReportView, OrphanFindingView};
use crate::report::{
    age_hours_spec, error_lines_spec, errors_spec, header_spec, orphan_count_spec,
    render_markdown_spec, report_tree, row_spec, rows_spec, summary_spec,
};
use crate::text::{contains_spec, stands_at};
use crate::text_laws::law_contains;

verus! {

// ---------------------------------------------------------------------------------------------
// Ages
// ---------------------------------------------------------------------------------------------
/// The age of a resource is the number of whole hours since its creation; a moment that is less than
/// an hour ahead counts as now, and one further ahead tells no age, as does none.
pub proof fn law_ages(created: i64, now: i64, hours: int)
    requires
        0 <= hours,
    ensures
        hours * 3600 <= now - created < (hours + 1) * 3600 ==> age_hours_spec(
            Some(created),
            now,
        ) == Some(hours),
        -3600 < now - created < 0 ==> age_hours_spec(Some(created), now) == Some(0int),
        now - created <= -3600 ==> age_hours_spec(Some(created), now) is None,
        age_hours_spec(None, now) is None,
{
    let age = now - created;
    if hours * 3600 <= age < (hours + 1) * 3600 {
        assert(age / 3600 == hours) by (nonlinear_arith)
            requires
                hours * 3600 <= age,
                age < (hours + 1) * 3600,
        ;
    }
}

// ---------------------------------------------------------------------------------------------
// Markdown
// ---------------------------------------------------------------------------------------------
proof fn contains_is_kept(a: Seq<char>, b: Seq<char>, c: Seq<char>, part: Seq<char>)
    requires
        contains_spec(b, part),
    ensures
        contains_spec(a + b + c, part),
{
    let at = choose|at: int| #[trigger] stands_at(b, part, at);
    let all = a + b + c;
    assert(all.subrange(a.len() + at, a.len() + at + part.len()) =~= b.subrange(
        at,
        at + part.len(),
    ));
    assert(stands_at(all, part, a.len() + at));
}

/// The row of a resource in the table.
pub open spec fn table_row(f: OrphanFindingView, now: i64) -> Seq<char> {
    let about = "| "@ + f.kind + " | "@ + f.region + " | "@ + f.id + " | "@ + f.cluster + " | "@;
    match age_hours_spec(f.created_at, now) {
        Some(hours) => about + decimal_spec(hours) + " | "@ + (decimal_spec(hours) + "h old"@)
            + " |\n"@,
        None => about + "-"@ + " | "@ + "Unknown"@ + " |\n"@,
    }
}

proof fn row_is_listed(findings: Seq<OrphanFindingView>, now: i64, i: int)
    requires
        0 <= i < findings.len(),
        findings[i].is_orphan,
    ensures
        contains_spec(rows_spec(findings, now), table_row(findings[i], now)),
        orphan_count_spec(findings) > 0,
    decreases findings.len(),
{
    let start = findings.drop_last();
    let none = Seq::<char>::empty();
    let row = table_row(findings[i], now);
    orphans_are_counted(start);
    if i == findings.len() - 1 {
        assert(row_spec(findings.last(), now) =~= row);
        law_contains(rows_spec(start, now), row, none);
        assert(rows_spec(start, now) + row + none =~= rows_spec(findings, now));
    } else {
        assert(start[i] == findings[i]);
        row_is_listed(start, now, i);
        if findings.last().is_orphan {
            let last = row_spec(findings.last(), now);
            contains_is_kept(none, rows_spec(start, now), last, row);
            assert(none + rows_spec(start, now) + last =~= rows_spec(findings, now));
        }
    }
}

proof fn orphans_are_counted(findings: Seq<OrphanFindingView>)
    ensures
        0 <= orphan_count_spec(findings) <= findings.len(),
    decreases findings.len(),
{
    if findings.len() > 0 {
        orphans_are_counted(findings.drop_last());
    }
}

proof fn error_is_listed(errors: Seq<Seq<char>>, i: int)
    requires
        0 <= i < errors.len(),
    ensures
        contains_spec(error_lines_spec(errors), "- "@ + errors[i] + "\n"@),
    decreases errors.len(),
{
    let start = errors.drop_last();
    let none = Seq::<char>::empty();
    let line = "- "@ + errors[i] + "\n"@;
    if i == errors.len() - 1 {
        law_contains(error_lines_spec(start), line, none);
        assert(error_lines_spec(start) + line + none =~= error_lines_spec(errors));
    } else {
        assert(start[i] == errors[i]);
        error_is_listed(start, i);
        let last = "- "@ + errors.last() + "\n"@;
        contains_is_kept(none, error_lines_spec(start), last, line);
        assert(none + error_lines_spec(start) + last =~= error_lines_spec(errors));
    }
}

/// Every orphan has its row in the report: its kind, its region, its identifier, its cluster and its
/// age.
pub proof fn law_orphans_are_shown(
    report: DiscoveryReportView,
    now: i64,
    min_age_hours: u64,
    i: int,
)
    requires
        0 <= i < report.findings.len(),
        report.findings[i].is_orphan,
    ensures
        contains_spec(
            render_markdown_spec(report, now, min_age_hours),
            table_row(report.findings[i], now),
        ),
{
    let row = table_row(report.findings[i], now);
    row_is_listed(report.findings, now, i);
    let rows = rows_spec(report.findings, now);
    let summary = summary_spec(report, now, min_age_hours);
    let before = summary.take(summary.len() - rows.len() - "\n"@.len());
    assert(summary =~= before + rows + "\n"@);
    contains_is_kept(before, rows, "\n"@, row);
    in_the_report(report, now, min_age_hours, row);
}

proof fn in_the_report(
    report: DiscoveryReportView,
    now: i64,
    min_age_hours: u64,
    part: Seq<char>,
)
    requires
        contains_spec(summary_spec(report, now, min_age_hours), part) || contains_spec(
            errors_spec(report.errors),
            part,
        ),
    ensures
        contains_spec(render_markdown_spec(report, now, min_age_hours), part),
{
    let all = render_markdown_spec(report, now, min_age_hours);
    let head = header_spec(report, min_age_hours);
    let summary = summary_spec(report, now, min_age_hours);
    let errors = errors_spec(report.errors);
    let n = head.len() + summary.len() + errors.len();
    let tail = all.skip(n as int);
    assert(all =~= head + summary + (errors + tail));
    assert(all =~= (head + summary) + errors + tail);
    if contains_spec(summary, part) {
        contains_is_kept(head, summary, errors + tail, part);
    } else {
        contains_is_kept(head + summary, errors, tail, part);
    }
}

/// Every error has its line in the report.
pub proof fn law_errors_are_shown(
    report: DiscoveryReportView,
    now: i64,
    min_age_hours: u64,
    i: int,
)
    requires
        0 <= i < report.errors.len(),
    ensures
        contains_spec(
            render_markdown_spec(report, now, min_age_hours),
            "- "@ + report.errors[i] + "\n"@,
        ),
{
    let line = "- "@ + report.errors[i] + "\n"@;
    error_is_listed(report.errors, i);
    contains_is_kept("## Errors\n\n"@, error_lines_spec(report.errors), "\n"@, line);
    in_the_report(report, now, min_age_hours, line);
}

// ---------------------------------------------------------------------------------------------
// JSON
// ---------------------------------------------------------------------------------------------
/// The JSON of a report has the account, one element for each finding, and one for each error.
pub proof fn law_json_is_complete(report: DiscoveryReportView, now: i64, min_age_hours: u64)
    ensures
        ({
            let t = report_tree(report, now, min_age_hours);
            &&& t.get("account_id"@) == Some(JsonTree::Text(report.account_id))
            &&& t.get("findings"@) is Some && t.get("findings"@)->0.items() is Some
                && t.get("findings"@)->0.items()->0.len() == report.findings.len()
            &&& t.get("errors"@) is Some && t.get("errors"@)->0.items() is Some
                && t.get("errors"@)->0.items()->0.len() == report.errors.len()
        }),
{
    reveal_strlit("account_id");
    reveal_strlit("scanned_at");
    reveal_strlit("orphan_count");
    reveal_strlit("recent_count");
    reveal_strlit("min_age_hours");
    reveal_strlit("findings");
    reveal_strlit("errors");
    assert("findings"@.len() == 8 && "errors"@.len() == 6 && "account_id"@.len() == 10);
    assert("account_id"@[0] != "scanned_at"@[0]);
}

// ---------------------------------------------------------------------------------------------
// Placeholders
// ---------------------------------------------------------------------------------------------
proof fn name_ends_later(s: Seq<char>, n: int, from: int)
    requires
        0 <= n <= from,
        n <= s.len(),
    ensures
        name_end(s, from) == n + name_end(s.skip(n), from - n),
    decreases s.len() - from,
{
    if from < s.len() && is_name_char_spec(s[from]) {
        name_ends_later(s, n, from + 1);
        assert(s.skip(n)[from - n] == s[from]);
    } else if from < s.len() {
        assert(s.skip(n)[from - n] == s[from]);
    }
}

proof fn placeholder_is_later(s: Seq<char>, n: int, at: int)
    requires
        0 <= n <= at,
        n <= s.len(),
    ensures
        is_placeholder(s, at) == is_placeholder(s.skip(n), at - n),
{
    name_ends_later(s, n, at + 2);
    let t = s.skip(n);
    if at < s.len() {
        assert(t[at - n] == s[at]);
    }
    if at + 1 < s.len() {
        assert(t[at + 1 - n] == s[at + 1]);
    }
    let end = name_end(s, at + 2);
    if n <= end < s.len() {
        assert(t[end - n] == s[end]);
    }
}

proof fn name_end_grows(s: Seq<char>, from: int)
    ensures
        name_end(s, from) >= from,
    decreases s.len() - from,
{
    if 0 <= from < s.len() && is_name_char_spec(s[from]) {
        name_end_grows(s, from + 1);
    }
}

proof fn filled_later(s: Seq<char>, n: int, at: int, listing: Option<JsonTree>)
    requires
        0 <= n <= at,
        n <= s.len(),
    ensures
        filled_from(s, at, listing) == filled_from(s.skip(n), at - n, listing),
        unfilled_from(s, at, listing) == unfilled_from(s.skip(n), at - n, listing),
    decreases s.len() - at,
{
    if at < s.len() {
        let t = s.skip(n);
        placeholder_is_later(s, n, at);
        if is_placeholder(s, at) {
            let end = name_end(s, at + 2);
            name_ends_later(s, n, at + 2);
            filled_later(s, n, end + 1, listing);
            assert(s.subrange(at + 2, end) =~= t.subrange(at + 2 - n, end - n));
        } else {
            assert(t[at - n] == s[at]);
            filled_later(s, n, at + 1, listing);
        }
    }
}

/// Whether a text is a name of a placeholder.
pub open spec fn is_name(name: Seq<char>) -> bool {
    name.len() > 0 && forall|i: int| 0 <= i < name.len() ==> is_name_char_spec(#[trigger] name[i])
}

proof fn name_is_read(name: Seq<char>, rest: Seq<char>, from: int)
    requires
        is_name(name),
        0 <= from <= name.len(),
    ensures
        name_end(seq!['$', '{'] + name + seq!['}'] + rest, from + 2) == name.len() + 2,
    decreases name.len() - from,
{
    let all = seq!['$', '{'] + name + seq!['}'] + rest;
    if from < name.len() {
        assert(all[from + 2] == name[from]);
        name_is_read(name, rest, from + 1);
    } else {
        assert(all[from + 2] == '}');
    }
}

/// A manifest is filled in placeholder by placeholder: the placeholder of a name that a ConfigMap
/// provides becomes the value; one that none provides is told; and any other character stays.
pub proof fn law_placeholders(
    name: Seq<char>,
    c: char,
    rest: Seq<char>,
    listing: Seq<char>,
)
    requires
        is_name(name),
        c != '$',
    ensures
        ({
            let text = seq!['$', '{'] + name + seq!['}'] + rest;
            match provided_spec(json_document(listing), name) {
                Some(value) => {
                    &&& filled_in_spec(text, listing) == value + filled_in_spec(rest, listing)
                    &&& unfilled_spec(text, listing) == unfilled_spec(rest, listing)
                },
                None => unfilled_spec(text, listing) == seq![name] + unfilled_spec(rest, listing),
            }
        }),
        filled_in_spec(seq![c] + rest, listing) == seq![c] + filled_in_spec(rest, listing),
        unfilled_spec(seq![c] + rest, listing) == unfilled_spec(rest, listing),
{
    let tree = json_document(listing);
    let text = seq!['$', '{'] + name + seq!['}'] + rest;
    name_is_read(name, rest, 0);
    let end = name_end(text, 2);
    assert(text[0] == '$' && text[1] == '{' && text[end] == '}');
    assert(is_placeholder(text, 0));
    assert(text.subrange(2, end) =~= name);
    filled_later(text, end + 1, end + 1, tree);
    assert(text.skip(end + 1) =~= rest);
    let other = seq![c] + rest;
    assert(other[0] == c);
    filled_later(other, 1, 1, tree);
    assert(other.skip(1) =~= rest);
}

} // verus!
