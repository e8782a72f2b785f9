//! The server's tools that read the company data and report on it.
use vstd::prelude::*;
use crate::json::{Json, JsonValue};
use crate::server::primitives::{ContentText, ContentType, McpPayload, ResultType};
use crate::text::{append_str, decimal, u64_to_text};

pub mod anomalies;
pub mod clients;
pub mod inventory;
pub mod project_states;
pub mod reports;
pub mod summary;
pub mod teams;

verus! {

/// `p` is a complete result holding the one text `t`.
pub open spec fn is_text_payload(p: McpPayload, t: Seq<char>) -> bool {
    &&& p.resultType == ResultType::complete
    &&& p.content@.len() == 1
    &&& p.content@[0].content_type == ContentType::text
    &&& p.content@[0].text@ == t
}

/// A complete result that holds one text.
pub fn text_payload(text: String) -> (p: McpPayload)
    ensures
        is_text_payload(p, text@),
{
    let mut content: Vec<ContentText> = Vec::new();
    content.push(ContentText { content_type: ContentType::text, text });
    McpPayload { resultType: ResultType::complete, content }
}

/// A count as a report shows it: `value.as_u64().unwrap_or(0)`.
pub open spec fn count_of(v: JsonValue) -> nat {
    match v.as_u64() {
        Some(n) => n as nat,
        None => 0,
    }
}

/// A text as a report shows it: `value.as_str().unwrap_or(default)`.
pub open spec fn text_of(v: JsonValue, default: Seq<char>) -> Seq<char> {
    match v.as_str() {
        Some(s) => s,
        None => default,
    }
}

/// A text member under its label, as a report shows it (nothing after the
/// label when the member is no text).
pub open spec fn texted(label: Seq<char>, section: JsonValue, key: Seq<char>) -> Seq<char> {
    label + match section.at(key) {
        JsonValue::Str(t) => t,
        _ => Seq::empty(),
    }
}

/// `value[key]` of the library's model, as `serde_json` indexes a value.
pub fn at<'a>(value: &'a Json, key: &str) -> (r: Option<&'a Json>)
    ensures
        match r {
            Some(v) => value@.at(key@) == v@,
            None => value@.at(key@) == JsonValue::Null,
        },
{
    value.get(key)
}

/// The count `section[key]`.
pub fn count_at(section: &Json, key: &str) -> (n: u64)
    ensures
        n as nat == count_of(section@.at(key@)),
{
    match at(section, key) {
        Some(v) => match v.as_u64() {
            Some(n) => n,
            None => 0,
        },
        None => 0,
    }
}

/// Appends the count `section[key]` to a report.
pub fn append_count(text: &mut String, section: &Json, key: &str)
    ensures
        final(text)@ == old(text)@ + decimal(count_of(section@.at(key@))),
{
    let n = count_at(section, key);
    let t = u64_to_text(n);
    append_str(text, t.as_str());
}

/// Appends the text `section[key]` (or `default`) to a report.
pub fn append_text(text: &mut String, section: &Json, key: &str, default: &str)
    ensures
        final(text)@ == old(text)@ + text_of(section@.at(key@), default@),
{
    match at(section, key) {
        Some(v) => match v.as_str() {
            Some(s) => append_str(text, s),
            None => append_str(text, default),
        },
        None => append_str(text, default),
    }
}

} // verus!
