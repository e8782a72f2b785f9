//! Customer metrics: the report on active customers (the churn and pipeline
//! reports show rates and amounts, which need floating point).
use vstd::prelude::*;
use vstd::string::StringExecFns;
use crate::json::{Json, JsonValue};
use crate::server::op::{append_count, count_of};
use crate::server::op::teams::labelled;
use crate::text::{concat_all, decimal, lemma_concat_shows_parts, shows};

verus! {

/// The report on active customers of an `active_customers` section.
pub open spec fn active_customers_spec(s: JsonValue) -> Seq<char> {
    "Active Customers:\n  Total:              "@ + decimal(count_of(s.at("total"@)))
        + "\n  Enterprise:         "@ + decimal(count_of(s.at("enterprise"@)))
        + "\n  Mid-Market:         "@ + decimal(count_of(s.at("mid_market"@)))
        + "\n  SMB:                "@ + decimal(count_of(s.at("smb"@)))
        + "\n  New This Month:     "@ + decimal(count_of(s.at("new_this_month"@)))
        + "\n  Churned This Month: "@ + decimal(count_of(s.at("churned_this_month"@)))
}

/// The report on active customers.
pub fn active_customers_text(s: &Json) -> (t: String)
    ensures
        t@ == active_customers_spec(s@),
{
    let mut t = String::from_str("Active Customers:\n  Total:              ");
    append_count(&mut t, s, "total");
    t.append("\n  Enterprise:         ");
    append_count(&mut t, s, "enterprise");
    t.append("\n  Mid-Market:         ");
    append_count(&mut t, s, "mid_market");
    t.append("\n  SMB:                ");
    append_count(&mut t, s, "smb");
    t.append("\n  New This Month:     ");
    append_count(&mut t, s, "new_this_month");
    t.append("\n  Churned This Month: ");
    append_count(&mut t, s, "churned_this_month");
    t
}

/// The report on active customers shows, under its label, each count of
/// the `active_customers` section: the total, the enterprise, mid-market
/// and small-business customers, and those won and lost this month.
#[verifier::spinoff_prover]
#[verifier::rlimit(60)]
pub proof fn law_active_customers_report(s: JsonValue)
    ensures
        shows(active_customers_spec(s), labelled("Active Customers:\n  Total:              "@, s, "total"@)),
        shows(active_customers_spec(s), labelled("\n  Enterprise:         "@, s, "enterprise"@)),
        shows(active_customers_spec(s), labelled("\n  Mid-Market:         "@, s, "mid_market"@)),
        shows(active_customers_spec(s), labelled("\n  SMB:                "@, s, "smb"@)),
        shows(active_customers_spec(s), labelled("\n  New This Month:     "@, s, "new_this_month"@)),
        shows(active_customers_spec(s), labelled("\n  Churned This Month: "@, s, "churned_this_month"@)),
{
    let t = active_customers_spec(s);
    let parts = seq![
        labelled("Active Customers:\n  Total:              "@, s, "total"@),
        labelled("\n  Enterprise:         "@, s, "enterprise"@),
        labelled("\n  Mid-Market:         "@, s, "mid_market"@),
        labelled("\n  SMB:                "@, s, "smb"@),
        labelled("\n  New This Month:     "@, s, "new_this_month"@),
        labelled("\n  Churned This Month: "@, s, "churned_this_month"@),
    ];
    reveal_with_fuel(concat_all, 7);
    assert(concat_all(parts) =~= t);
    lemma_concat_shows_parts(parts);
    assert(shows(t, parts[0]) && shows(t, parts[1]) && shows(t, parts[2]));
    assert(shows(t, parts[3]) && shows(t, parts[4]) && shows(t, parts[5]));
}

} // verus!
