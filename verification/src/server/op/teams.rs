//! Team metrics: headcount and open vacancies.
use vstd::prelude::*;
use vstd::string::StringExecFns;
use crate::json::{Json, JsonValue};
use crate::server::op::{append_count, count_of, is_text_payload, text_payload};
use crate::server::primitives::{McpPayload, McpServerError};
use crate::text::{concat_all, decimal, lemma_concat_shows_parts, shows, str_eq};

verus! {

/// A count under its label, as a report shows it.
pub open spec fn labelled(label: Seq<char>, section: JsonValue, key: Seq<char>) -> Seq<char> {
    label + decimal(count_of(section.at(key)))
}

/// The headcount report of a `headcount` section.
pub open spec fn headcount_text(s: JsonValue) -> Seq<char> {
    let d = s.at("by_department"@);
    "Headcount:\n  Total:       "@ + decimal(count_of(s.at("total"@)))
        + "\n  Full-Time:   "@ + decimal(count_of(s.at("full_time"@)))
        + "\n  Contractors: "@ + decimal(count_of(s.at("contractors"@)))
        + "\n\nBy Department:\n  Engineering: "@ + decimal(count_of(d.at("Engineering"@)))
        + "\n  Sales:       "@ + decimal(count_of(d.at("Sales"@)))
        + "\n  Marketing:   "@ + decimal(count_of(d.at("Marketing"@)))
        + "\n  Operations:  "@ + decimal(count_of(d.at("Operations"@)))
        + "\n  HR:          "@ + decimal(count_of(d.at("HR"@)))
        + "\n  Finance:     "@ + decimal(count_of(d.at("Finance"@)))
        + "\n  Leadership:  "@ + decimal(count_of(d.at("Leadership"@)))
}

/// The vacancies report of a `vacancies` section.
pub open spec fn vacancies_text(s: JsonValue) -> Seq<char> {
    let d = s.at("by_department"@);
    "Vacancies:\n  Total Open:      "@ + decimal(count_of(s.at("total"@)))
        + "\n  Offers Pending:  "@ + decimal(count_of(s.at("offers_pending"@)))
        + "\n  Avg Fill Time:   "@ + decimal(count_of(s.at("avg_time_to_fill_days"@)))
        + " days\n\nBy Department:\n  Engineering:     "@ + decimal(count_of(d.at("Engineering"@)))
        + "\n  Sales:           "@ + decimal(count_of(d.at("Sales"@)))
        + "\n  Marketing:       "@ + decimal(count_of(d.at("Marketing"@)))
        + "\n  Operations:      "@ + decimal(count_of(d.at("Operations"@)))
}

/// The team report for `metric` from the teams data: the section of that
/// name must be there (not `null`) and be one of `headcount` and
/// `vacancies`.
pub open spec fn team_metrics_spec(metric: Seq<char>, data: JsonValue) -> Result<Seq<char>, McpServerError> {
    let section = data.at(metric);
    if section.is_null() {
        Err(McpServerError::CouldntGetCallArguments)
    } else if metric == "headcount"@ {
        Ok(headcount_text(section))
    } else if metric == "vacancies"@ {
        Ok(vacancies_text(section))
    } else {
        Err(McpServerError::CouldntGetCallArguments)
    }
}

fn headcount(s: &Json) -> (t: String)
    ensures
        t@ == headcount_text(s@),
{
    let d = match crate::server::op::at(s, "by_department") {
        Some(d) => d,
        None => &Json::Null,
    };
    let mut t = String::from_str("Headcount:\n  Total:       ");
    append_count(&mut t, s, "total");
    t.append("\n  Full-Time:   ");
    append_count(&mut t, s, "full_time");
    t.append("\n  Contractors: ");
    append_count(&mut t, s, "contractors");
    t.append("\n\nBy Department:\n  Engineering: ");
    append_count(&mut t, d, "Engineering");
    t.append("\n  Sales:       ");
    append_count(&mut t, d, "Sales");
    t.append("\n  Marketing:   ");
    append_count(&mut t, d, "Marketing");
    t.append("\n  Operations:  ");
    append_count(&mut t, d, "Operations");
    t.append("\n  HR:          ");
    append_count(&mut t, d, "HR");
    t.append("\n  Finance:     ");
    append_count(&mut t, d, "Finance");
    t.append("\n  Leadership:  ");
    append_count(&mut t, d, "Leadership");
    t
}

fn vacancies(s: &Json) -> (t: String)
    ensures
        t@ == vacancies_text(s@),
{
    let d = match crate::server::op::at(s, "by_department") {
        Some(d) => d,
        None => &Json::Null,
    };
    let mut t = String::from_str("Vacancies:\n  Total Open:      ");
    append_count(&mut t, s, "total");
    t.append("\n  Offers Pending:  ");
    append_count(&mut t, s, "offers_pending");
    t.append("\n  Avg Fill Time:   ");
    append_count(&mut t, s, "avg_time_to_fill_days");
    t.append(" days\n\nBy Department:\n  Engineering:     ");
    append_count(&mut t, d, "Engineering");
    t.append("\n  Sales:           ");
    append_count(&mut t, d, "Sales");
    t.append("\n  Marketing:       ");
    append_count(&mut t, d, "Marketing");
    t.append("\n  Operations:      ");
    append_count(&mut t, d, "Operations");
    t
}

/// The team report `metric` (`headcount` or `vacancies`) from the teams
/// data.
pub fn get_team_metrics(metric: &str, data: &Json) -> (r: Result<McpPayload, McpServerError>)
    ensures
        match r {
            Ok(p) => team_metrics_spec(metric@, data@) matches Ok(t) && is_text_payload(p, t),
            Err(e) => team_metrics_spec(metric@, data@) == Err::<Seq<char>, McpServerError>(e),
        },
{
    let section = match crate::server::op::at(data, metric) {
        Some(s) => s,
        None => {
            return Err(McpServerError::CouldntGetCallArguments);
        }
    };
    if section.is_null() {
        return Err(McpServerError::CouldntGetCallArguments);
    }
    let text = if str_eq(metric, "headcount") {
        headcount(section)
    } else if str_eq(metric, "vacancies") {
        vacancies(section)
    } else {
        return Err(McpServerError::CouldntGetCallArguments);
    };
    Ok(text_payload(text))
}

/// The vacancies report shows, under its label, each count of the
/// `vacancies` section: the open total, the pending offers, the average
/// time to fill (in days), and the open vacancies of each department.
#[verifier::spinoff_prover]
#[verifier::rlimit(60)]
pub proof fn law_vacancies_report(data: JsonValue)
    requires
        !data.at("vacancies"@).is_null(),
    ensures
        ({
            let s = data.at("vacancies"@);
            let d = s.at("by_department"@);
            team_metrics_spec("vacancies"@, data) matches Ok(t)
                && shows(t, labelled("Vacancies:\n  Total Open:      "@, s, "total"@))
                && shows(t, labelled("\n  Offers Pending:  "@, s, "offers_pending"@))
                && shows(t, labelled("\n  Avg Fill Time:   "@, s, "avg_time_to_fill_days"@))
                && shows(t, labelled(" days\n\nBy Department:\n  Engineering:     "@, d, "Engineering"@))
                && shows(t, labelled("\n  Sales:           "@, d, "Sales"@))
                && shows(t, labelled("\n  Marketing:       "@, d, "Marketing"@))
                && shows(t, labelled("\n  Operations:      "@, d, "Operations"@))
        }),
{
    let s = data.at("vacancies"@);
    let d = s.at("by_department"@);
    let t = vacancies_text(s);
    let parts = seq![
        labelled("Vacancies:\n  Total Open:      "@, s, "total"@),
        labelled("\n  Offers Pending:  "@, s, "offers_pending"@),
        labelled("\n  Avg Fill Time:   "@, s, "avg_time_to_fill_days"@),
        labelled(" days\n\nBy Department:\n  Engineering:     "@, d, "Engineering"@),
        labelled("\n  Sales:           "@, d, "Sales"@),
        labelled("\n  Marketing:       "@, d, "Marketing"@),
        labelled("\n  Operations:      "@, d, "Operations"@),
    ];
    reveal_with_fuel(concat_all, 8);
    assert(concat_all(parts) =~= t);
    lemma_concat_shows_parts(parts);
    assert(shows(t, parts[0]) && shows(t, parts[1]) && shows(t, parts[2]) && shows(t, parts[3]));
    assert(shows(t, parts[4]) && shows(t, parts[5]) && shows(t, parts[6]));
    reveal_strlit("vacancies");
    reveal_strlit("headcount");
    assert("vacancies"@ != "headcount"@) by {
        assert("vacancies"@[0] != "headcount"@[0]);
    }
}

/// The headcount report shows, under its label, each count of the
/// `headcount` section: the total, the full-time staff, the contractors,
/// and the headcount of each department.
#[verifier::spinoff_prover]
#[verifier::rlimit(60)]
pub proof fn law_headcount_report(data: JsonValue)
    requires
        !data.at("headcount"@).is_null(),
    ensures
        ({
            let s = data.at("headcount"@);
            let d = s.at("by_department"@);
            team_metrics_spec("headcount"@, data) matches Ok(t)
                && shows(t, labelled("Headcount:\n  Total:       "@, s, "total"@))
                && shows(t, labelled("\n  Full-Time:   "@, s, "full_time"@))
                && shows(t, labelled("\n  Contractors: "@, s, "contractors"@))
                && shows(t, labelled("\n\nBy Department:\n  Engineering: "@, d, "Engineering"@))
                && shows(t, labelled("\n  Sales:       "@, d, "Sales"@))
                && shows(t, labelled("\n  Marketing:   "@, d, "Marketing"@))
                && shows(t, labelled("\n  Operations:  "@, d, "Operations"@))
                && shows(t, labelled("\n  HR:          "@, d, "HR"@))
                && shows(t, labelled("\n  Finance:     "@, d, "Finance"@))
                && shows(t, labelled("\n  Leadership:  "@, d, "Leadership"@))
        }),
{
    let s = data.at("headcount"@);
    let d = s.at("by_department"@);
    let t = headcount_text(s);
    let parts = seq![
        labelled("Headcount:\n  Total:       "@, s, "total"@),
        labelled("\n  Full-Time:   "@, s, "full_time"@),
        labelled("\n  Contractors: "@, s, "contractors"@),
        labelled("\n\nBy Department:\n  Engineering: "@, d, "Engineering"@),
        labelled("\n  Sales:       "@, d, "Sales"@),
        labelled("\n  Marketing:   "@, d, "Marketing"@),
        labelled("\n  Operations:  "@, d, "Operations"@),
        labelled("\n  HR:          "@, d, "HR"@),
        labelled("\n  Finance:     "@, d, "Finance"@),
        labelled("\n  Leadership:  "@, d, "Leadership"@),
    ];
    reveal_with_fuel(concat_all, 11);
    assert(concat_all(parts) =~= t);
    lemma_concat_shows_parts(parts);
    assert(shows(t, parts[0]) && shows(t, parts[1]) && shows(t, parts[2]) && shows(t, parts[3]));
    assert(shows(t, parts[4]) && shows(t, parts[5]) && shows(t, parts[6]) && shows(t, parts[7]));
    assert(shows(t, parts[8]) && shows(t, parts[9]));
}

} // verus!
