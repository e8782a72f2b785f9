//! The anomalies that need no floating point: open critical tickets and
//! blocked projects.
use vstd::prelude::*;
use vstd::string::StringExecFns;
use crate::json::{Json, JsonValue, json_seq_view, json_view, lemma_seq_view};
use crate::server::op::{append_count, append_text, count_of, is_text_payload, text_of, text_payload, texted};
use crate::server::op::teams::labelled;
use crate::server::primitives::{McpPayload, strings_view};
use crate::text::{
    concat_all, decimal, lemma_concat_shows_parts, lemma_shows_extend, lemma_shows_whole, shows, str_eq, u64_to_text,
};

verus! {

/// The number of open critical tickets in the product data.
pub open spec fn critical_count(product: JsonValue) -> nat {
    count_of(product.at("open_tickets"@).at("critical"@))
}

/// The anomaly for open critical tickets, when there is any.
pub open spec fn critical_anomaly_spec(product: JsonValue) -> Option<Seq<char>> {
    if critical_count(product) > 0 {
        Some("[PRODUCT] "@ + decimal(critical_count(product)) + " critical ticket(s) open — immediate attention required"@)
    } else {
        None
    }
}

/// The anomaly for open critical tickets in the product data.
pub fn critical_tickets_anomaly(product: &Json) -> (r: Option<String>)
    ensures
        match r {
            Some(t) => critical_anomaly_spec(product@) == Some(t@),
            None => critical_anomaly_spec(product@) is None,
        },
{
    let tickets = match crate::server::op::at(product, "open_tickets") {
        Some(v) => v,
        None => &Json::Null,
    };
    let critical = crate::server::op::count_at(tickets, "critical");
    if critical > 0 {
        let mut t = String::from_str("[PRODUCT] ");
        let n = u64_to_text(critical);
        t.append(n.as_str());
        t.append(" critical ticket(s) open — immediate attention required");
        Some(t)
    } else {
        None
    }
}

/// The anomaly of a blocked project.
pub open spec fn blocked_line(p: JsonValue) -> Seq<char> {
    "[PROJECTS] '"@ + text_of(p.at("name"@), ""@) + "' ("@ + text_of(p.at("department"@), ""@)
        + ") is BLOCKED at "@ + decimal(count_of(p.at("completion_pct"@)))
        + "% completion — deadline: "@ + text_of(p.at("deadline"@), ""@)
}

/// The anomalies of the blocked projects, in order.
pub open spec fn blocked_lines(ps: Seq<JsonValue>) -> Seq<Seq<char>>
    decreases ps.len(),
{
    if ps.len() == 0 {
        Seq::empty()
    } else if ps.last().at("status"@).as_str() == Some("blocked"@) {
        blocked_lines(ps.drop_last()).push(blocked_line(ps.last()))
    } else {
        blocked_lines(ps.drop_last())
    }
}

/// The anomalies of the blocked projects of the projects data (none when
/// it has no `projects` array).
pub open spec fn blocked_anomalies_spec(projects: JsonValue) -> Seq<Seq<char>> {
    match projects.at("projects"@).as_array() {
        Some(ps) => blocked_lines(ps),
        None => Seq::empty(),
    }
}

fn is_blocked(p: &Json) -> (r: bool)
    ensures
        r == (p@.at("status"@).as_str() == Some("blocked"@)),
{
    match crate::server::op::at(p, "status") {
        Some(v) => match v.as_str() {
            Some(s) => str_eq(s, "blocked"),
            None => false,
        },
        None => false,
    }
}

/// The anomalies of the blocked projects.
pub fn blocked_project_anomalies(projects: &Json) -> (r: Vec<String>)
    ensures
        strings_view(r@) == blocked_anomalies_spec(projects@),
{
    let mut out: Vec<String> = Vec::new();
    let list = match crate::server::op::at(projects, "projects") {
        Some(v) => match v.as_array() {
            Some(a) => a,
            None => {
                assert(strings_view(out@) =~= Seq::<Seq<char>>::empty());
                return out;
            }
        },
        None => {
            assert(strings_view(out@) =~= Seq::<Seq<char>>::empty());
            return out;
        }
    };
    proof {
        lemma_seq_view(list@);
    }
    let ghost ps = json_seq_view(list@);
    let mut i: usize = 0;
    while i < list.len()
        invariant
            i <= list.len(),
            ps.len() == list@.len(),
            forall|j: int| 0 <= j < list@.len() ==> #[trigger] ps[j] == json_view(list@[j]),
            strings_view(out@) == blocked_lines(ps.take(i as int)),
        decreases list.len() - i,
    {
        let p = &list[i];
        assert(ps.take(i + 1).drop_last() =~= ps.take(i as int));
        assert(ps.take(i + 1).last() == p@);
        if is_blocked(p) {
            let mut line = String::from_str("[PROJECTS] '");
            append_text(&mut line, p, "name", "");
            line.append("' (");
            append_text(&mut line, p, "department", "");
            line.append(") is BLOCKED at ");
            append_count(&mut line, p, "completion_pct");
            line.append("% completion — deadline: ");
            append_text(&mut line, p, "deadline", "");
            let ghost before = out@;
            out.push(line);
            assert(strings_view(out@) =~= strings_view(before).push(blocked_line(p@)));
        }
        i = i + 1;
    }
    assert(ps.take(list.len() as int) =~= ps);
    out
}

/// The anomaly of a blocked project names it, with its department, the
/// completion at which it is blocked and its deadline, each read from its
/// member of the project.
#[verifier::spinoff_prover]
#[verifier::rlimit(60)]
pub proof fn law_blocked_line(p: JsonValue)
    ensures
        shows(blocked_line(p), texted("[PROJECTS] '"@, p, "name"@)),
        shows(blocked_line(p), texted("' ("@, p, "department"@)),
        shows(blocked_line(p), labelled(") is BLOCKED at "@, p, "completion_pct"@)),
        shows(blocked_line(p), texted("% completion — deadline: "@, p, "deadline"@)),
{
    reveal_strlit("");
    let parts = seq![
        texted("[PROJECTS] '"@, p, "name"@),
        texted("' ("@, p, "department"@),
        labelled(") is BLOCKED at "@, p, "completion_pct"@),
        texted("% completion — deadline: "@, p, "deadline"@),
    ];
    reveal_with_fuel(concat_all, 5);
    assert(concat_all(parts) =~= blocked_line(p));
    lemma_concat_shows_parts(parts);
    assert(shows(blocked_line(p), parts[0]) && shows(blocked_line(p), parts[1]));
    assert(shows(blocked_line(p), parts[2]) && shows(blocked_line(p), parts[3]));
}

/// The anomalies that need floating point to be found, each already
/// written (`None` when there is none): revenue change, budget variance,
/// churn change and uptime.
#[derive(Debug)]
pub struct AnomalyFindings {
    pub sales: Option<String>,
    pub finance: Option<String>,
    pub customers: Option<String>,
    pub uptime: Option<String>,
}

/// A line that may be missing, as a list of zero or one line.
pub open spec fn opt_line(o: Option<Seq<char>>) -> Seq<Seq<char>> {
    match o {
        Some(l) => seq![l],
        None => Seq::empty(),
    }
}

/// The model of a line that may be missing.
pub open spec fn opt_string(o: Option<String>) -> Option<Seq<char>> {
    match o {
        Some(s) => Some(s@),
        None => None,
    }
}

/// All anomalies, in the order sales, finance, customers, critical
/// tickets, uptime, blocked projects.
pub open spec fn anomaly_lines(f: AnomalyFindings, product: JsonValue, projects: JsonValue) -> Seq<Seq<char>> {
    opt_line(opt_string(f.sales)) + opt_line(opt_string(f.finance)) + opt_line(opt_string(f.customers))
        + opt_line(critical_anomaly_spec(product)) + opt_line(opt_string(f.uptime))
        + blocked_anomalies_spec(projects)
}

/// The lines joined with `sep` between each two.
pub open spec fn joined(lines: Seq<Seq<char>>, sep: Seq<char>) -> Seq<char>
    decreases lines.len(),
{
    if lines.len() == 0 {
        Seq::empty()
    } else if lines.len() == 1 {
        lines[0]
    } else {
        joined(lines.drop_last(), sep) + sep + lines.last()
    }
}

/// The anomaly report for a threshold written `threshold` (a percentage):
/// the anomalies one per line under a heading, or a note that there are
/// none.
pub open spec fn anomalies_text(lines: Seq<Seq<char>>, threshold: Seq<char>) -> Seq<char> {
    if lines.len() == 0 {
        "No anomalies detected above "@ + threshold + "% threshold. All metrics within normal range."@
    } else {
        "Anomalies detected (threshold: "@ + threshold + "%):\n\n"@ + joined(lines, "\n"@)
    }
}

fn push_line(lines: &mut Vec<String>, line: Option<String>)
    ensures
        strings_view(final(lines)@) == strings_view(old(lines)@) + opt_line(opt_string(line)),
{
    match line {
        Some(l) => {
            lines.push(l);
            assert(strings_view(final(lines)@) =~= strings_view(old(lines)@) + opt_line(opt_string(Some(l))));
        }
        None => {
            assert(strings_view(old(lines)@) + opt_line(opt_string(line)) =~= strings_view(old(lines)@));
        }
    }
}

/// The anomaly report: the anomalies found with floating point, those of
/// the product data (critical tickets) and of the projects data (blocked
/// projects), in their fixed order, for the threshold written `threshold`.
pub fn get_anomalies(findings: AnomalyFindings, product: &Json, projects: &Json, threshold: &str) -> (p: McpPayload)
    ensures
        is_text_payload(p, anomalies_text(anomaly_lines(findings, product@, projects@), threshold@)),
{
    let ghost f = findings;
    let mut lines: Vec<String> = Vec::new();
    assert(strings_view(lines@) =~= Seq::<Seq<char>>::empty());
    push_line(&mut lines, findings.sales);
    push_line(&mut lines, findings.finance);
    push_line(&mut lines, findings.customers);
    let critical = critical_tickets_anomaly(product);
    proof {
        assert(opt_string(critical) == critical_anomaly_spec(product@));
    }
    push_line(&mut lines, critical);
    push_line(&mut lines, findings.uptime);
    let blocked = blocked_project_anomalies(projects);
    let ghost before = strings_view(lines@);
    let mut k: usize = 0;
    while k < blocked.len()
        invariant
            k <= blocked.len(),
            strings_view(lines@) == before + strings_view(blocked@).take(k as int),
        decreases blocked.len() - k,
    {
        let ghost prev = lines@;
        let line = blocked[k].clone();
        assert(line@ == blocked@[k as int]@);
        lines.push(line);
        assert(lines@ =~= prev.push(line));
        assert(strings_view(lines@) =~= strings_view(prev).push(line@));
        assert(strings_view(blocked@).take(k + 1) =~= strings_view(blocked@).take(k as int).push(blocked@[k as int]@));
        assert(strings_view(lines@) =~= before + strings_view(blocked@).take(k + 1));
        k = k + 1;
    }
    assert(strings_view(blocked@).take(blocked.len() as int) =~= strings_view(blocked@));
    assert(strings_view(lines@) =~= anomaly_lines(f, product@, projects@));
    let ghost lv = strings_view(lines@);
    let text = if lines.len() == 0 {
        let mut t = String::from_str("No anomalies detected above ");
        t.append(threshold);
        t.append("% threshold. All metrics within normal range.");
        t
    } else {
        let mut t = String::from_str("Anomalies detected (threshold: ");
        t.append(threshold);
        t.append("%):\n\n");
        let ghost head = t@;
        let mut i: usize = 0;
        while i < lines.len()
            invariant
                i <= lines.len(),
                lv == strings_view(lines@),
                t@ == head + joined(lv.take(i as int), "\n"@),
            decreases lines.len() - i,
        {
            assert(lv.take(i + 1).drop_last() =~= lv.take(i as int));
            assert(lv.take(i + 1).last() == lines@[i as int]@);
            if i > 0 {
                t.append("\n");
            } else {
                assert(lv.take(1)[0] == lines@[0]@);
                assert(joined(lv.take(0), "\n"@) =~= Seq::<char>::empty());
            }
            t.append(lines[i].as_str());
            i = i + 1;
        }
        assert(lv.take(lines.len() as int) =~= lv);
        t
    };
    text_payload(text)
}

proof fn lemma_joined_shows(lines: Seq<Seq<char>>, sep: Seq<char>)
    ensures
        forall|i: int| 0 <= i < lines.len() ==> shows(joined(lines, sep), #[trigger] lines[i]),
    decreases lines.len(),
{
    if lines.len() == 1 {
        lemma_shows_whole(lines[0]);
    } else if lines.len() > 1 {
        let init = lines.drop_last();
        lemma_joined_shows(init, sep);
        assert forall|i: int| 0 <= i < lines.len() implies shows(joined(lines, sep), #[trigger] lines[i]) by {
            if i == lines.len() - 1 {
                lemma_shows_whole(lines.last());
                lemma_shows_extend(lines.last(), lines.last(), joined(init, sep) + sep, Seq::empty());
            } else {
                assert(init[i] == lines[i]);
                lemma_shows_extend(joined(init, sep), lines[i], Seq::empty(), sep + lines.last());
                assert(joined(init, sep) + (sep + lines.last()) =~= joined(init, sep) + sep + lines.last());
            }
        }
    }
}

proof fn lemma_blocked_lines(ps: Seq<JsonValue>)
    ensures
        forall|i: int| 0 <= i < ps.len() && ps[i].at("status"@).as_str() == Some("blocked"@)
            ==> blocked_lines(ps).contains(#[trigger] blocked_line(ps[i])),
        (forall|i: int| 0 <= i < ps.len() ==> (#[trigger] ps[i]).at("status"@).as_str() != Some("blocked"@))
            ==> blocked_lines(ps).len() == 0,
    decreases ps.len(),
{
    if ps.len() > 0 {
        let init = ps.drop_last();
        lemma_blocked_lines(init);
        assert forall|i: int| 0 <= i < ps.len() && ps[i].at("status"@).as_str() == Some("blocked"@)
            implies blocked_lines(ps).contains(#[trigger] blocked_line(ps[i])) by {
            if i == ps.len() - 1 {
                assert(blocked_lines(ps).last() == blocked_line(ps[i]));
            } else {
                assert(init[i] == ps[i]);
                let k = choose|k: int| 0 <= k < blocked_lines(init).len() && blocked_lines(init)[k] == blocked_line(ps[i]);
                if ps.last().at("status"@).as_str() == Some("blocked"@) {
                    assert(blocked_lines(ps)[k] == blocked_line(ps[i]));
                }
            }
        }
        if forall|i: int| 0 <= i < ps.len() ==> (#[trigger] ps[i]).at("status"@).as_str() != Some("blocked"@) {
            assert forall|i: int| 0 <= i < init.len() implies (#[trigger] init[i]).at("status"@).as_str() != Some("blocked"@) by {
                assert(init[i] == ps[i]);
            }
            assert(ps.last() == ps[ps.len() - 1]);
        }
    }
}

/// The heading of a report that has anomalies.
pub open spec fn anomalies_heading(threshold: Seq<char>) -> Seq<char> {
    "Anomalies detected (threshold: "@ + threshold + "%):\n\n"@
}

/// The report's text.
pub open spec fn anomaly_report(f: AnomalyFindings, product: JsonValue, projects: JsonValue, threshold: Seq<char>) -> Seq<char> {
    anomalies_text(anomaly_lines(f, product, projects), threshold)
}

/// The text starts with the heading of a report that has anomalies.
pub open spec fn under_heading(t: Seq<char>, threshold: Seq<char>) -> bool {
    let heading = "Anomalies detected (threshold: "@ + threshold + "%):\n\n"@;
    t.len() >= heading.len() && t.subrange(0, heading.len() as int) == heading
}

/// An anomaly line of a report shows in its text, under the heading.
proof fn lemma_line_reported(lines: Seq<Seq<char>>, threshold: Seq<char>, k: int)
    requires
        0 <= k < lines.len(),
    ensures
        under_heading(anomalies_text(lines, threshold), threshold),
        shows(anomalies_text(lines, threshold), lines[k]),
{
    let heading = anomalies_heading(threshold);
    let t = anomalies_text(lines, threshold);
    lemma_joined_shows(lines, "\n"@);
    assert(t == heading + joined(lines, "\n"@));
    assert(t.subrange(0, heading.len() as int) =~= heading);
    lemma_shows_extend(joined(lines, "\n"@), lines[k], heading, Seq::empty());
}

/// Every anomaly found is reported, under the heading with the threshold:
/// each of the four findings handed in, the open critical tickets (when
/// there is any) with their number, and each blocked project. When there
/// is none of these, the report is the note that all metrics are within
/// the normal range.
#[verifier::spinoff_prover]
#[verifier::rlimit(60)]
pub proof fn law_anomaly_report(f: AnomalyFindings, product: JsonValue, projects: JsonValue, threshold: Seq<char>, l: String)
    requires
        projects.at("projects"@).as_array() is Some,
    ensures
        (f.sales == Some(l) || f.finance == Some(l) || f.customers == Some(l) || f.uptime == Some(l))
            ==> under_heading(anomaly_report(f, product, projects, threshold), threshold)
            && shows(anomaly_report(f, product, projects, threshold), l@),
        critical_count(product) > 0 ==> under_heading(anomaly_report(f, product, projects, threshold), threshold)
            && shows(
                anomaly_report(f, product, projects, threshold),
                "[PRODUCT] "@ + decimal(critical_count(product)) + " critical ticket(s) open — immediate attention required"@,
            ),
        forall|i: int| 0 <= i < projects.at("projects"@).as_array().unwrap().len()
            && projects.at("projects"@).as_array().unwrap()[i].at("status"@).as_str() == Some("blocked"@)
            ==> under_heading(anomaly_report(f, product, projects, threshold), threshold)
            && shows(anomaly_report(f, product, projects, threshold), #[trigger] blocked_line(projects.at("projects"@).as_array().unwrap()[i])),
        (f.sales is None && f.finance is None && f.customers is None && f.uptime is None
            && critical_count(product) == 0
            && forall|i: int| 0 <= i < projects.at("projects"@).as_array().unwrap().len()
                ==> (#[trigger] projects.at("projects"@).as_array().unwrap()[i]).at("status"@).as_str() != Some("blocked"@))
            ==> anomaly_report(f, product, projects, threshold)
            == "No anomalies detected above "@ + threshold + "% threshold. All metrics within normal range."@,
{
    let lines = anomaly_lines(f, product, projects);
    let t = anomalies_text(lines, threshold);
    let ps = projects.at("projects"@).as_array().unwrap();
    lemma_blocked_lines(ps);
    let a = opt_line(opt_string(f.sales));
    let b = opt_line(opt_string(f.finance));
    let c = opt_line(opt_string(f.customers));
    let d = opt_line(critical_anomaly_spec(product));
    let e = opt_line(opt_string(f.uptime));
    let g = blocked_anomalies_spec(projects);
    assert(lines == a + b + c + d + e + g);
    if f.sales is None && f.finance is None && f.customers is None && f.uptime is None
        && critical_count(product) == 0
        && forall|i: int| 0 <= i < ps.len() ==> (#[trigger] ps[i]).at("status"@).as_str() != Some("blocked"@) {
        assert(g.len() == 0);
        assert(lines.len() == 0);
    }
    if f.sales == Some(l) {
        assert(lines[0] == l@);
        lemma_line_reported(lines, threshold, 0);
    }
    if f.finance == Some(l) {
        assert(lines[a.len() as int] == l@);
        lemma_line_reported(lines, threshold, a.len() as int);
    }
    if f.customers == Some(l) {
        assert(lines[(a.len() + b.len()) as int] == l@);
        lemma_line_reported(lines, threshold, (a.len() + b.len()) as int);
    }
    if f.uptime == Some(l) {
        assert(lines[(a.len() + b.len() + c.len() + d.len()) as int] == l@);
        lemma_line_reported(lines, threshold, (a.len() + b.len() + c.len() + d.len()) as int);
    }
    if critical_count(product) > 0 {
        let x = "[PRODUCT] "@ + decimal(critical_count(product)) + " critical ticket(s) open — immediate attention required"@;
        assert(lines[(a.len() + b.len() + c.len()) as int] == x);
        lemma_line_reported(lines, threshold, (a.len() + b.len() + c.len()) as int);
    }
    assert forall|i: int| 0 <= i < projects.at("projects"@).as_array().unwrap().len()
        && projects.at("projects"@).as_array().unwrap()[i].at("status"@).as_str() == Some("blocked"@)
        implies under_heading(anomaly_report(f, product, projects, threshold), threshold)
            && shows(anomaly_report(f, product, projects, threshold), #[trigger] blocked_line(projects.at("projects"@).as_array().unwrap()[i])) by {
        assert(g == blocked_lines(ps));
        assert(ps[i].at("status"@).as_str() == Some("blocked"@));
        assert(blocked_lines(ps).contains(blocked_line(ps[i])));
        let k = choose|k: int| 0 <= k < g.len() && g[k] == blocked_line(ps[i]);
        let n = (a.len() + b.len() + c.len() + d.len() + e.len() + k) as int;
        assert(lines[n] == blocked_line(ps[i]));
        lemma_line_reported(lines, threshold, n);
    }
}

} // verus!
