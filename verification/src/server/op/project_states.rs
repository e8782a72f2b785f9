//! Project status: the projects of one department, or all of them.
use vstd::prelude::*;
use vstd::string::StringExecFns;
use crate::json::{Json, JsonValue, json_seq_view, json_view, lemma_seq_view};
use crate::server::op::{append_count, append_text, count_of, is_text_payload, text_of, text_payload, texted};
use crate::server::op::teams::labelled;
use crate::server::primitives::{McpPayload, McpServerError};
use crate::text::{concat_all, decimal, lemma_concat_shows_parts, shows, str_eq};

verus! {

/// The project is listed: every project when no department is asked for,
/// else those whose `department` text is the one asked for (a project with
/// no such text counts as department `""`).
pub open spec fn project_selected(p: JsonValue, department: Option<Seq<char>>) -> bool {
    match department {
        None => true,
        Some(d) => text_of(p.at("department"@), ""@) == d,
    }
}

/// The line of one project.
pub open spec fn project_line(p: JsonValue) -> Seq<char> {
    "  ["@ + text_of(p.at("priority"@), ""@) + "] "@ + text_of(p.at("name"@), ""@) + " | "@
        + text_of(p.at("status"@), ""@) + " | "@ + decimal(count_of(p.at("completion_pct"@)))
        + "% done | Due: "@ + text_of(p.at("deadline"@), ""@) + "\n"@
}

/// The lines of the listed projects, in order.
pub open spec fn project_lines(ps: Seq<JsonValue>, department: Option<Seq<char>>) -> Seq<char>
    decreases ps.len(),
{
    if ps.len() == 0 {
        Seq::empty()
    } else {
        project_lines(ps.drop_last(), department) + if project_selected(ps.last(), department) {
            project_line(ps.last())
        } else {
            Seq::empty()
        }
    }
}

/// The number of listed projects.
pub open spec fn selected_count(ps: Seq<JsonValue>, department: Option<Seq<char>>) -> nat
    decreases ps.len(),
{
    if ps.len() == 0 {
        0
    } else {
        selected_count(ps.drop_last(), department) + if project_selected(ps.last(), department) {
            1nat
        } else {
            0nat
        }
    }
}

/// The first line of the report.
pub open spec fn projects_title(department: Option<Seq<char>>) -> Seq<char> {
    match department {
        Some(d) => "Projects — "@ + d + ":\n"@,
        None => "All Projects:\n"@,
    }
}

/// The project report: the `projects` array must be there, and some
/// project must be listed.
pub open spec fn project_status_spec(department: Option<Seq<char>>, data: JsonValue) -> Result<Seq<char>, McpServerError> {
    match data.at("projects"@).as_array() {
        None => Err(McpServerError::CouldntFullFilledResponse),
        Some(ps) => if selected_count(ps, department) == 0 {
            Err(McpServerError::CouldntGetCallArguments)
        } else {
            Ok(projects_title(department) + project_lines(ps, department))
        },
    }
}

fn selected(p: &Json, department: Option<&str>) -> (r: bool)
    ensures
        r == project_selected(p@, match department {
            Some(d) => Some(d@),
            None => None,
        }),
{
    match department {
        None => true,
        Some(d) => match crate::server::op::at(p, "department") {
            Some(v) => match v.as_str() {
                Some(s) => str_eq(s, d),
                None => str_eq("", d),
            },
            None => str_eq("", d),
        },
    }
}

fn append_line(text: &mut String, p: &Json)
    ensures
        final(text)@ == old(text)@ + project_line(p@),
{
    text.append("  [");
    append_text(text, p, "priority", "");
    text.append("] ");
    append_text(text, p, "name", "");
    text.append(" | ");
    append_text(text, p, "status", "");
    text.append(" | ");
    append_count(text, p, "completion_pct");
    text.append("% done | Due: ");
    append_text(text, p, "deadline", "");
    text.append("\n");
}

/// The status of the projects of `department`, or of all projects.
pub fn get_project_status(department: Option<&str>, data: &Json) -> (r: Result<McpPayload, McpServerError>)
    ensures
        ({
            let d = match department {
                Some(d) => Some(d@),
                None => None,
            };
            match r {
                Ok(p) => project_status_spec(d, data@) matches Ok(t) && is_text_payload(p, t),
                Err(e) => project_status_spec(d, data@) == Err::<Seq<char>, McpServerError>(e),
            }
        }),
{
    let ghost d = match department {
        Some(d) => Some(d@),
        None => None,
    };
    let projects = match crate::server::op::at(data, "projects") {
        Some(v) => match v.as_array() {
            Some(a) => a,
            None => {
                return Err(McpServerError::CouldntFullFilledResponse);
            }
        },
        None => {
            return Err(McpServerError::CouldntFullFilledResponse);
        }
    };
    let ghost ps = json_seq_view(projects@);
    proof {
        lemma_seq_view(projects@);
    }
    let mut lines = String::new();
    let mut count: usize = 0;
    let mut i: usize = 0;
    while i < projects.len()
        invariant
            i <= projects.len(),
            ps.len() == projects@.len(),
            d == (match department {
                Some(d) => Some(d@),
                None => None,
            }),
            forall|j: int| 0 <= j < projects@.len() ==> #[trigger] ps[j] == json_view(projects@[j]),
            lines@ == project_lines(ps.take(i as int), d),
            count == selected_count(ps.take(i as int), d),
            count <= i,
        decreases projects.len() - i,
    {
        let p = &projects[i];
        assert(ps.take(i + 1).drop_last() =~= ps.take(i as int));
        assert(ps.take(i + 1).last() == p@);
        if selected(p, department) {
            append_line(&mut lines, p);
            count = count + 1;
        }
        i = i + 1;
    }
    assert(ps.take(projects.len() as int) =~= ps);
    if count == 0 {
        return Err(McpServerError::CouldntGetCallArguments);
    }
    let mut text = match department {
        Some(dep) => {
            let mut t = String::from_str("Projects — ");
            t.append(dep);
            t.append(":\n");
            t
        }
        None => String::from_str("All Projects:\n"),
    };
    text.append(lines.as_str());
    Ok(text_payload(text))
}

/// Whether a report on `department` lists a project: every project when
/// no department is asked for; else one whose `department` is that text,
/// or, when the text asked for is empty, one with no `department` text.
pub open spec fn of_department(department: Option<Seq<char>>) -> spec_fn(JsonValue) -> bool {
    |p: JsonValue| match department {
        None => true,
        Some(name) => match p.at("department"@) {
            JsonValue::Str(t) => t == name,
            _ => name.len() == 0,
        },
    }
}

/// The line of each of `listed`, in order.
pub open spec fn lines_of(listed: Seq<JsonValue>) -> Seq<Seq<char>> {
    listed.map_values(|p: JsonValue| project_line(p))
}

/// The lines of a report are those of the projects it lists, and their
/// number is the number listed.
proof fn lemma_listed_projects(ps: Seq<JsonValue>, department: Option<Seq<char>>)
    ensures
        project_lines(ps, department) == concat_all(lines_of(ps.filter(of_department(department)))),
        selected_count(ps, department) == ps.filter(of_department(department)).len(),
    decreases ps.len(),
{
    reveal(Seq::filter);
    let pred = of_department(department);
    if ps.len() > 0 {
        let init = ps.drop_last();
        let last = ps.last();
        lemma_listed_projects(init, department);
        let f = init.filter(pred);
        assert(project_selected(last, department) == pred(last)) by {
            reveal_strlit("");
            if let Some(name) = department {
                if !(last.at("department"@) is Str) {
                    assert(name.len() == 0 ==> name =~= ""@);
                }
            }
        }
        if pred(last) {
            assert(ps.filter(pred) == f.push(last));
            assert(lines_of(f.push(last)) =~= lines_of(f).push(project_line(last)));
            assert(lines_of(f).push(project_line(last)).drop_last() =~= lines_of(f));
        } else {
            assert(ps.filter(pred) == f);
            assert(project_lines(ps, department) =~= project_lines(init, department));
        }
    }
}

/// The project report lists, in their order in the data, exactly the
/// projects of the department asked for (every project when none is), one
/// line each, under the title `Projects — <department>:` or
/// `All Projects:`. With no `projects` array the request cannot be
/// answered; with no project to list it is refused.
#[verifier::spinoff_prover]
#[verifier::rlimit(60)]
pub proof fn law_project_report(department: Option<Seq<char>>, data: JsonValue)
    ensures
        match data.at("projects"@) {
            JsonValue::Array(ps) => {
                let listed = ps.filter(of_department(department));
                let title = if let Some(name) = department {
                    "Projects — "@ + name + ":\n"@
                } else {
                    "All Projects:\n"@
                };
                if listed.len() == 0 {
                    project_status_spec(department, data) == Err::<Seq<char>, McpServerError>(McpServerError::CouldntGetCallArguments)
                } else {
                    project_status_spec(department, data) == Ok::<Seq<char>, McpServerError>(title + concat_all(lines_of(listed)))
                }
            },
            _ => project_status_spec(department, data) == Err::<Seq<char>, McpServerError>(McpServerError::CouldntFullFilledResponse),
        },
{
    if let JsonValue::Array(ps) = data.at("projects"@) {
        lemma_listed_projects(ps, department);
    }
}

/// The line of a project shows its priority, name, status, completion and
/// deadline, in that order, each read from its member of the project.
#[verifier::spinoff_prover]
#[verifier::rlimit(60)]
pub proof fn law_project_line(p: JsonValue)
    ensures
        shows(project_line(p), texted("  ["@, p, "priority"@) + texted("] "@, p, "name"@)),
        shows(project_line(p), texted(" | "@, p, "status"@) + labelled(" | "@, p, "completion_pct"@)),
        shows(project_line(p), texted("% done | Due: "@, p, "deadline"@) + "\n"@),
{
    reveal_strlit("");
    let parts = seq![
        texted("  ["@, p, "priority"@) + texted("] "@, p, "name"@),
        texted(" | "@, p, "status"@) + labelled(" | "@, p, "completion_pct"@),
        texted("% done | Due: "@, p, "deadline"@) + "\n"@,
    ];
    reveal_with_fuel(concat_all, 4);
    assert(concat_all(parts) =~= project_line(p));
    lemma_concat_shows_parts(parts);
    assert(shows(project_line(p), parts[0]) && shows(project_line(p), parts[1]) && shows(project_line(p), parts[2]));
}

} // verus!
