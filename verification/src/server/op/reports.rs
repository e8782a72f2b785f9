//! The decisions of the reports that show amounts and rates: which report
//! a tool shows, or which error it gives. (The reports themselves format
//! floating point and are written by the program.)
use vstd::prelude::*;
use crate::json::{Json, lemma_seq_view};
use crate::server::primitives::McpServerError;
use crate::text::str_eq;

verus! {

/// Picks the report `name` of a family: the section `name` of the data
/// must be there (not `null`), and `name` must be one of `choices`; the
/// result is its place among them.
pub fn select_report(name: &str, data: &Json, choices: &[&str]) -> (r: Result<usize, McpServerError>)
    ensures
        match r {
            Ok(i) => !data@.at(name@).is_null() && i < choices@.len() && choices@[i as int]@ == name@
                && forall|j: int| 0 <= j < i ==> (#[trigger] choices@[j])@ != name@,
            Err(e) => e == McpServerError::CouldntGetCallArguments && (data@.at(name@).is_null()
                || forall|j: int| 0 <= j < choices@.len() ==> (#[trigger] choices@[j])@ != name@),
        },
{
    let section = crate::server::op::at(data, name);
    let null = match section {
        Some(s) => s.is_null(),
        None => true,
    };
    if null {
        return Err(McpServerError::CouldntGetCallArguments);
    }
    let mut i: usize = 0;
    while i < choices.len()
        invariant
            i <= choices@.len(),
            !data@.at(name@).is_null(),
            forall|j: int| 0 <= j < i ==> (#[trigger] choices@[j])@ != name@,
        decreases choices.len() - i,
    {
        if str_eq(choices[i], name) {
            return Ok(i);
        }
        i = i + 1;
    }
    Err(McpServerError::CouldntGetCallArguments)
}

/// The sales figures of `period` must be in the sales data.
pub fn check_sales_period(period: &str, data: &Json) -> (r: Result<(), McpServerError>)
    ensures
        r is Ok <==> !data@.at("metrics"@).at(period@).at("current"@).is_null(),
        r matches Err(e) ==> e == McpServerError::CouldntGetCallArguments,
{
    let metrics = match crate::server::op::at(data, "metrics") {
        Some(m) => m,
        None => &Json::Null,
    };
    let figures = match crate::server::op::at(metrics, period) {
        Some(f) => f,
        None => &Json::Null,
    };
    let present = match crate::server::op::at(figures, "current") {
        Some(c) => !c.is_null(),
        None => false,
    };
    if present {
        Ok(())
    } else {
        Err(McpServerError::CouldntGetCallArguments)
    }
}

/// How many of the top products to show: `limit`, or as many as there are
/// if fewer; the `products` array must be there.
pub fn top_products_count(limit: usize, data: &Json) -> (r: Result<usize, McpServerError>)
    ensures
        match data@.at("products"@).as_array() {
            None => r == Err::<usize, McpServerError>(McpServerError::CouldntFullFilledResponse),
            Some(ps) => r == Ok::<usize, McpServerError>(if limit < ps.len() { limit } else { ps.len() as usize }),
        },
{
    match crate::server::op::at(data, "products") {
        Some(v) => match v.as_array() {
            Some(a) => {
                proof {
                    lemma_seq_view(a@);
                }
                let n = a.len();
                Ok(if limit < n { limit } else { n })
            }
            None => Err(McpServerError::CouldntFullFilledResponse),
        },
        None => Err(McpServerError::CouldntFullFilledResponse),
    }
}

} // verus!
