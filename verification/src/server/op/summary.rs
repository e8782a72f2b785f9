//! The executive summary: which departments it covers, and the sections
//! that need no floating point.
use vstd::prelude::*;
use vstd::string::StringExecFns;
use crate::json::{Json, JsonValue, json_seq_view, json_view, lemma_seq_view};
use crate::server::op::{append_count, count_of, is_text_payload, text_payload};
use crate::server::primitives::{McpPayload, strings_view};
use crate::server::op::teams::labelled;
use crate::text::{
    concat_all, decimal, eq_ignore_ascii_case, eq_ignore_ascii_case_spec, lemma_concat_shows_parts, shows, str_eq,
    u64_to_text,
};

verus! {

/// The sections that the summary holds, in the order in which it shows them.
#[derive(Debug, Clone, Copy, PartialEq, Eq, Structural)]
pub struct SummaryPlan {
    pub sales: bool,
    pub finance: bool,
    pub customers: bool,
    pub team: bool,
    pub product: bool,
    pub projects: bool,
}

/// Every department is wanted when none is named (no list, or an empty one).
pub open spec fn include_all(departments: Option<Seq<Seq<char>>>) -> bool {
    match departments {
        None => true,
        Some(d) => d.len() == 0,
    }
}

/// The department `name` is wanted: every department is, or one of the
/// names given is `name` in any ASCII case.
pub open spec fn wants(departments: Option<Seq<Seq<char>>>, name: Seq<char>) -> bool {
    include_all(departments) || match departments {
        None => false,
        Some(d) => exists|i: int| 0 <= i < d.len() && eq_ignore_ascii_case_spec(#[trigger] d[i], name),
    }
}

/// The sections for the departments asked for; each section answers to
/// its Spanish and English names (the team also to `HR`).
pub open spec fn summary_plan_spec(departments: Option<Seq<Seq<char>>>) -> SummaryPlan {
    SummaryPlan {
        sales: wants(departments, "Ventas"@) || wants(departments, "Sales"@),
        finance: wants(departments, "Finanzas"@) || wants(departments, "Finance"@),
        customers: wants(departments, "Clientes"@) || wants(departments, "Customers"@),
        team: wants(departments, "Equipo"@) || wants(departments, "HR"@) || wants(departments, "Teams"@),
        product: wants(departments, "Producto"@) || wants(departments, "Product"@),
        projects: wants(departments, "Proyectos"@) || wants(departments, "Projects"@),
    }
}

/// The model of the departments asked for.
pub open spec fn departments_view(departments: Option<&Vec<String>>) -> Option<Seq<Seq<char>>> {
    match departments {
        Some(d) => Some(strings_view(d@)),
        None => None,
    }
}

fn wanted(departments: Option<&Vec<String>>, name: &str) -> (r: bool)
    ensures
        r == wants(departments_view(departments), name@),
{
    match departments {
        None => true,
        Some(d) => {
            if d.len() == 0 {
                return true;
            }
            let ghost dv = strings_view(d@);
            let mut i: usize = 0;
            while i < d.len()
                invariant
                    i <= d.len(),
                    dv == strings_view(d@),
                    departments == Some(d),
                    forall|j: int| 0 <= j < i ==> !eq_ignore_ascii_case_spec(#[trigger] dv[j], name@),
                decreases d.len() - i,
            {
                if eq_ignore_ascii_case(d[i].as_str(), name) {
                    assert(eq_ignore_ascii_case_spec(dv[i as int], name@));
                    return true;
                }
                i = i + 1;
            }
            false
        }
    }
}

/// Which sections the summary of `departments` holds.
pub fn summary_plan(departments: Option<&Vec<String>>) -> (p: SummaryPlan)
    ensures
        p == summary_plan_spec(departments_view(departments)),
{
    SummaryPlan {
        sales: wanted(departments, "Ventas") || wanted(departments, "Sales"),
        finance: wanted(departments, "Finanzas") || wanted(departments, "Finance"),
        customers: wanted(departments, "Clientes") || wanted(departments, "Customers"),
        team: wanted(departments, "Equipo") || wanted(departments, "HR") || wanted(departments, "Teams"),
        product: wanted(departments, "Producto") || wanted(departments, "Product"),
        projects: wanted(departments, "Proyectos") || wanted(departments, "Projects"),
    }
}

/// A summary of no named department (no list, or an empty one) holds
/// every section; naming a department by any of its names, in any ASCII
/// case, includes its section.
#[verifier::spinoff_prover]
#[verifier::rlimit(60)]
pub proof fn law_summary_sections(departments: Seq<Seq<char>>, i: int, name: Seq<char>)
    requires
        0 <= i < departments.len(),
        eq_ignore_ascii_case_spec(departments[i], name),
    ensures
        summary_plan_spec(None) == (SummaryPlan { sales: true, finance: true, customers: true, team: true, product: true, projects: true }),
        summary_plan_spec(Some(Seq::empty())) == summary_plan_spec(None),
        wants(Some(departments), name),
{
}

/// One of the departments `d` is `name`, in any ASCII case.
pub open spec fn names_department(d: Seq<Seq<char>>, name: Seq<char>) -> bool {
    exists|i: int| 0 <= i < d.len() && eq_ignore_ascii_case_spec(#[trigger] d[i], name)
}

/// A summary holds a department's section exactly when every department is
/// asked for (an empty list) or the department is named by its Spanish or
/// English name in any case (the team also as `HR`).
#[verifier::spinoff_prover]
#[verifier::rlimit(60)]
pub proof fn law_summary_names(d: Seq<Seq<char>>)
    ensures
        summary_plan_spec(Some(d)).sales <==> (d.len() == 0 || names_department(d, "Ventas"@)
            || names_department(d, "Sales"@)),
        summary_plan_spec(Some(d)).finance <==> (d.len() == 0 || names_department(d, "Finanzas"@)
            || names_department(d, "Finance"@)),
        summary_plan_spec(Some(d)).customers <==> (d.len() == 0 || names_department(d, "Clientes"@)
            || names_department(d, "Customers"@)),
        summary_plan_spec(Some(d)).team <==> (d.len() == 0 || names_department(d, "Equipo"@)
            || names_department(d, "HR"@) || names_department(d, "Teams"@)),
        summary_plan_spec(Some(d)).product <==> (d.len() == 0 || names_department(d, "Producto"@)
            || names_department(d, "Product"@)),
        summary_plan_spec(Some(d)).projects <==> (d.len() == 0 || names_department(d, "Proyectos"@)
            || names_department(d, "Projects"@)),
{
}

/// The team section, from the teams data.
pub open spec fn team_section_spec(data: JsonValue) -> Seq<char> {
    "\n[Team]\n  Headcount:       "@ + decimal(count_of(data.at("headcount"@).at("total"@)))
        + "\n  Open Vacancies:  "@ + decimal(count_of(data.at("vacancies"@).at("total"@)))
}

/// The team section of the summary.
pub fn team_section(data: &Json) -> (t: String)
    ensures
        t@ == team_section_spec(data@),
{
    let headcount = match crate::server::op::at(data, "headcount") {
        Some(v) => v,
        None => &Json::Null,
    };
    let vacancies = match crate::server::op::at(data, "vacancies") {
        Some(v) => v,
        None => &Json::Null,
    };
    let mut t = String::from_str("\n[Team]\n  Headcount:       ");
    append_count(&mut t, headcount, "total");
    t.append("\n  Open Vacancies:  ");
    append_count(&mut t, vacancies, "total");
    t
}

/// The number of projects whose `status` is the text `status`.
pub open spec fn status_count(ps: Seq<JsonValue>, status: Seq<char>) -> nat
    decreases ps.len(),
{
    if ps.len() == 0 {
        0
    } else {
        status_count(ps.drop_last(), status) + if ps.last().at("status"@).as_str() == Some(status) {
            1nat
        } else {
            0nat
        }
    }
}

/// The projects of the projects data (none when there is no array).
pub open spec fn projects_of(data: JsonValue) -> Seq<JsonValue> {
    match data.at("projects"@).as_array() {
        Some(ps) => ps,
        None => Seq::empty(),
    }
}

/// The projects section, from the projects data.
pub open spec fn projects_section_spec(data: JsonValue) -> Seq<char> {
    "\n[Projects]\n  In Progress:     "@ + decimal(status_count(projects_of(data), "in_progress"@))
        + "\n  Blocked:         "@ + decimal(status_count(projects_of(data), "blocked"@))
}

fn has_status(p: &Json, status: &str) -> (r: bool)
    ensures
        r == (p@.at("status"@).as_str() == Some(status@)),
{
    match crate::server::op::at(p, "status") {
        Some(v) => match v.as_str() {
            Some(s) => str_eq(s, status),
            None => false,
        },
        None => false,
    }
}

/// The projects section of the summary: how many projects are in progress
/// and how many are blocked.
pub fn projects_section(data: &Json) -> (t: String)
    ensures
        t@ == projects_section_spec(data@),
{
    let empty: Vec<Json> = Vec::new();
    let ghost empty_view = empty@;
    let projects = match crate::server::op::at(data, "projects") {
        Some(v) => match v.as_array() {
            Some(a) => a,
            None => &empty,
        },
        None => &empty,
    };
    proof {
        lemma_seq_view(projects@);
        lemma_seq_view(empty_view);
        assert(json_seq_view(empty_view) =~= Seq::<JsonValue>::empty());
    }
    let ghost ps = json_seq_view(projects@);
    assert(ps == projects_of(data@));
    let mut blocked: u64 = 0;
    let mut in_progress: u64 = 0;
    let mut i: usize = 0;
    while i < projects.len()
        invariant
            i <= projects.len(),
            ps.len() == projects@.len(),
            forall|j: int| 0 <= j < projects@.len() ==> #[trigger] ps[j] == json_view(projects@[j]),
            blocked == status_count(ps.take(i as int), "blocked"@),
            in_progress == status_count(ps.take(i as int), "in_progress"@),
            blocked <= i,
            in_progress <= i,
            projects.len() <= usize::MAX,
        decreases projects.len() - i,
    {
        let p = &projects[i];
        assert(ps.take(i + 1).drop_last() =~= ps.take(i as int));
        assert(ps.take(i + 1).last() == p@);
        if has_status(p, "blocked") {
            blocked = blocked + 1;
        }
        if has_status(p, "in_progress") {
            in_progress = in_progress + 1;
        }
        i = i + 1;
    }
    assert(ps.take(projects.len() as int) =~= ps);
    let mut t = String::from_str("\n[Projects]\n  In Progress:     ");
    let n = u64_to_text(in_progress);
    t.append(n.as_str());
    t.append("\n  Blocked:         ");
    let n = u64_to_text(blocked);
    t.append(n.as_str());
    t
}

/// The texts of the summary's sections; a section that is not asked for
/// is `None`.
#[derive(Debug)]
pub struct SummarySections {
    pub sales: Option<String>,
    pub finance: Option<String>,
    pub customers: Option<String>,
    pub team: Option<String>,
    pub product: Option<String>,
    pub projects: Option<String>,
}

/// The text of a section that may be missing.
pub open spec fn section_text(o: Option<String>) -> Seq<char> {
    match o {
        Some(s) => s@,
        None => Seq::empty(),
    }
}

/// The summary's text: its title, then the sections there are, in the order
/// sales, finance, customers, team, product, projects.
pub open spec fn summary_text(s: SummarySections) -> Seq<char> {
    "=== Executive Summary ==="@ + section_text(s.sales) + section_text(s.finance)
        + section_text(s.customers) + section_text(s.team) + section_text(s.product)
        + section_text(s.projects)
}

fn append_section(text: &mut String, section: &Option<String>)
    ensures
        final(text)@ == old(text)@ + section_text(*section),
{
    match section {
        Some(t) => text.append(t.as_str()),
        None => {
            assert(old(text)@ + section_text(*section) =~= old(text)@);
        }
    }
}

/// The summary: its title, then its sections in their fixed order.
pub fn assemble_summary(sections: &SummarySections) -> (p: McpPayload)
    ensures
        is_text_payload(p, summary_text(*sections)),
{
    let mut text = String::from_str("=== Executive Summary ===");
    append_section(&mut text, &sections.sales);
    append_section(&mut text, &sections.finance);
    append_section(&mut text, &sections.customers);
    append_section(&mut text, &sections.team);
    append_section(&mut text, &sections.product);
    append_section(&mut text, &sections.projects);
    text_payload(text)
}

/// The team section shows the total headcount and the total of open
/// vacancies, each under its label.
#[verifier::spinoff_prover]
#[verifier::rlimit(60)]
pub proof fn law_team_section(data: JsonValue)
    ensures
        shows(team_section_spec(data), labelled("\n[Team]\n  Headcount:       "@, data.at("headcount"@), "total"@)),
        shows(team_section_spec(data), labelled("\n  Open Vacancies:  "@, data.at("vacancies"@), "total"@)),
{
    let parts = seq![
        labelled("\n[Team]\n  Headcount:       "@, data.at("headcount"@), "total"@),
        labelled("\n  Open Vacancies:  "@, data.at("vacancies"@), "total"@),
    ];
    reveal_with_fuel(concat_all, 3);
    assert(concat_all(parts) =~= team_section_spec(data));
    lemma_concat_shows_parts(parts);
    assert(shows(concat_all(parts), parts[0]) && shows(concat_all(parts), parts[1]));
}

/// Whether a project's `status` is the text `status`.
pub open spec fn in_state(status: Seq<char>) -> spec_fn(JsonValue) -> bool {
    |p: JsonValue| p.at("status"@) == JsonValue::Str(status)
}

/// Counting projects of a status is filtering them by it.
proof fn lemma_status_count(ps: Seq<JsonValue>, status: Seq<char>)
    ensures
        status_count(ps, status) == ps.filter(in_state(status)).len(),
    decreases ps.len(),
{
    reveal(Seq::filter);
    if ps.len() > 0 {
        lemma_status_count(ps.drop_last(), status);
        assert((ps.last().at("status"@).as_str() == Some(status)) == in_state(status)(ps.last()));
    }
}

/// The projects section counts the projects of the `projects` array whose
/// `status` is `in_progress`, and those whose `status` is `blocked` (none
/// when there is no such array).
#[verifier::spinoff_prover]
#[verifier::rlimit(60)]
pub proof fn law_projects_section(data: JsonValue)
    ensures
        ({
            let ps = match data.at("projects"@) {
                JsonValue::Array(a) => a,
                _ => Seq::empty(),
            };
            projects_section_spec(data) == "\n[Projects]\n  In Progress:     "@ + decimal(ps.filter(in_state("in_progress"@)).len())
                + "\n  Blocked:         "@ + decimal(ps.filter(in_state("blocked"@)).len())
        }),
{
    lemma_status_count(projects_of(data), "in_progress"@);
    lemma_status_count(projects_of(data), "blocked"@);
}

/// The summary begins with its title, shows each section that it is given,
/// and holds nothing else.
#[verifier::spinoff_prover]
#[verifier::rlimit(60)]
pub proof fn law_summary_text(s: SummarySections)
    ensures
        summary_text(s).len() >= 25,
        summary_text(s).subrange(0, 25) == "=== Executive Summary ==="@,
        summary_text(s).len() == 25 + section_text(s.sales).len() + section_text(s.finance).len()
            + section_text(s.customers).len() + section_text(s.team).len() + section_text(s.product).len()
            + section_text(s.projects).len(),
        s.sales matches Some(t) ==> shows(summary_text(s), t@),
        s.finance matches Some(t) ==> shows(summary_text(s), t@),
        s.customers matches Some(t) ==> shows(summary_text(s), t@),
        s.team matches Some(t) ==> shows(summary_text(s), t@),
        s.product matches Some(t) ==> shows(summary_text(s), t@),
        s.projects matches Some(t) ==> shows(summary_text(s), t@),
{
    reveal_strlit("=== Executive Summary ===");
    let title = "=== Executive Summary ==="@;
    let parts = seq![
        title,
        section_text(s.sales),
        section_text(s.finance),
        section_text(s.customers),
        section_text(s.team),
        section_text(s.product),
        section_text(s.projects),
    ];
    reveal_with_fuel(concat_all, 8);
    assert(concat_all(parts) =~= summary_text(s));
    lemma_concat_shows_parts(parts);
    assert(shows(summary_text(s), parts[1]) && shows(summary_text(s), parts[2]) && shows(summary_text(s), parts[3]));
    assert(shows(summary_text(s), parts[4]) && shows(summary_text(s), parts[5]) && shows(summary_text(s), parts[6]));
    assert(summary_text(s).subrange(0, 25) =~= title);
}

} // verus!
