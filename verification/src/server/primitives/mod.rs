//! JSON-RPC messages of the MCP protocol and the server's dispatch.
#![allow(non_camel_case_types, non_snake_case)]
use vstd::prelude::*;
use vstd::string::StringExecFns;
use crate::json::{Json, JsonValue, json_view, json_entries_view, lemma_entries_view};
use crate::text::str_eq;

verus! {

/// The method that starts a session.
pub const MCP_INITIALIZE_RAW: &'static str = "initialize";
/// The method that lists the tools.
pub const MCP_TOOLS_LIST_RAW: &'static str = "tools/list";
/// The method that calls a tool.
pub const MCP_TOOLS_CALL_RAW: &'static str = "tools/call";
/// The protocol version that the server speaks.
pub const MCP_PROTOCOL_VERSION: &'static str = "2024-11-05";
/// The JSON-RPC version of every message.
pub const JSONRPC_VERSION: &'static str = "2.0";
/// The server's name, as `initialize` reports it.
pub const SERVER_NAME: &'static str = "corpo_metrics";
/// The server's version, as `initialize` reports it.
pub const SERVER_VERSION: &'static str = "0.1.0";

/// The server; it keeps no state between requests.
pub struct McpServer;

/// A JSON-RPC message: a request that comes in, or a response that goes out.
#[derive(Debug)]
pub struct McpJson {
    pub jsonrpc: String,
    pub id: Option<u32>,
    pub method: Option<String>,
    pub params: Option<MCPCallparams>,
    pub result: Option<Json>,
    pub error: Option<McpJsonError>,
}

/// The error member of a JSON-RPC response.
#[derive(Debug)]
pub struct McpJsonError {
    pub code: i32,
    pub message: String,
}

/// The parameters of a `tools/call` request.
#[derive(Debug)]
pub struct MCPCallparams {
    pub name: Option<String>,
    pub arguments: Option<Json>,
}

/// Whether a tool's result is final.
#[derive(Debug, Clone, Copy, PartialEq, Eq, Structural)]
pub enum ResultType {
    complete,
    inputRequired,
    task,
}

/// The kind of a piece of content; only text so far.
#[derive(Debug, Clone, Copy, PartialEq, Eq, Structural)]
pub enum ContentType {
    text,
}

/// A piece of text content of a tool's result (its kind is written `type`
/// on the wire).
#[derive(Debug)]
pub struct ContentText {
    pub content_type: ContentType,
    pub text: String,
}

/// A list of tool names.
#[derive(Debug)]
pub struct McpToolListNames {
    pub names: Vec<String>,
}

/// The result of a tool call.
#[derive(Debug)]
pub struct McpPayload {
    pub resultType: ResultType,
    pub content: Vec<ContentText>,
}

/// The server's own errors.
#[derive(Debug, Clone, Copy, PartialEq, Eq, Structural)]
pub enum McpServerError {
    NotMethodSupply,
    CouldntFullFilledResponse,
    CouldntGetCallArguments,
}

/// An error that ends a request: one of the server's own, or any other
/// (reading a file, reading JSON), with its message.
#[derive(Debug)]
pub enum CallError {
    Server(McpServerError),
    Other(String),
}

/// The message of a server error.
pub open spec fn server_error_message(e: McpServerError) -> Seq<char> {
    match e {
        McpServerError::NotMethodSupply => "no method provided in request"@,
        McpServerError::CouldntFullFilledResponse => "unsupported method"@,
        McpServerError::CouldntGetCallArguments => "unknown tool name"@,
    }
}

/// The JSON-RPC error code of a server error.
pub open spec fn server_error_code(e: McpServerError) -> i32 {
    match e {
        McpServerError::NotMethodSupply => -32600i32,
        McpServerError::CouldntFullFilledResponse => -32601i32,
        McpServerError::CouldntGetCallArguments => -32602i32,
    }
}

/// The JSON-RPC error code of any error that ends a request.
pub open spec fn call_error_code(e: CallError) -> i32 {
    match e {
        CallError::Server(s) => server_error_code(s),
        CallError::Other(_) => -32603i32,
    }
}

/// The message of any error that ends a request.
pub open spec fn call_error_message(e: CallError) -> Seq<char> {
    match e {
        CallError::Server(s) => server_error_message(s),
        CallError::Other(m) => m@,
    }
}

impl McpServerError {
    /// The error's message.
    pub fn to_string(&self) -> (s: String)
        ensures
            s@ == server_error_message(*self),
    {
        match self {
            McpServerError::NotMethodSupply => String::from_str("no method provided in request"),
            McpServerError::CouldntFullFilledResponse => String::from_str("unsupported method"),
            McpServerError::CouldntGetCallArguments => String::from_str("unknown tool name"),
        }
    }
}

impl CallError {
    /// The error's message.
    pub fn to_string(&self) -> (s: String)
        ensures
            s@ == call_error_message(*self),
    {
        match self {
            CallError::Server(e) => e.to_string(),
            CallError::Other(m) => m.clone(),
        }
    }
}

impl McpServer {
    /// The JSON-RPC error code of an error: the server's own errors have
    /// their codes, any other error is an internal error.
    pub fn error_code(err: &CallError) -> (code: i32)
        ensures
            code == call_error_code(*err),
    {
        match err {
            CallError::Server(McpServerError::NotMethodSupply) => -32600i32,
            CallError::Server(McpServerError::CouldntFullFilledResponse) => -32601i32,
            CallError::Server(McpServerError::CouldntGetCallArguments) => -32602i32,
            CallError::Other(_) => -32603i32,
        }
    }

    /// A JSON-RPC error response.
    pub fn error_response(id: Option<u32>, code: i32, message: String) -> (r: McpJson)
        ensures
            r.jsonrpc@ == JSONRPC_VERSION@,
            r.id == id,
            r.method is None,
            r.params is None,
            r.result is None,
            r.error matches Some(e) && e.code == code && e.message@ == message@,
    {
        McpJson {
            jsonrpc: String::from_str(JSONRPC_VERSION),
            id,
            method: None,
            params: None,
            result: None,
            error: Some(McpJsonError { code, message }),
        }
    }

    /// A JSON-RPC success response that carries `result` (its id is set
    /// when the response is sent).
    pub fn result_response(result: Json) -> (r: McpJson)
        ensures
            r.jsonrpc@ == JSONRPC_VERSION@,
            r.id is None,
            r.method is None,
            r.params is None,
            r.result == Some(result),
            r.error is None,
    {
        McpJson {
            jsonrpc: String::from_str(JSONRPC_VERSION),
            id: None,
            method: None,
            params: None,
            result: Some(result),
            error: None,
        }
    }
}

/// A tool call, with its arguments read.
#[derive(Debug)]
#[allow(inconsistent_fields)]
pub enum ToolCall {
    SalesMetrics { period: String, compare_to_previous: bool },
    TopProducts { limit: u64 },
    FinancialStatus { category: String },
    CustomerMetrics { metric: String },
    ProjectStatus { department: Option<String> },
    TeamMetrics { metric: String },
    ProductHealth { metric: String },
    ExecutiveSummary { departments: Option<Vec<String>> },
    /// The threshold is the JSON number's text.
    Anomalies { threshold: String },
    InventoryLevels { category: Option<String> },
}

/// The model of a tool call.
#[allow(inconsistent_fields)]
pub enum ToolRequest {
    SalesMetrics { period: Seq<char>, compare_to_previous: bool },
    TopProducts { limit: u64 },
    FinancialStatus { category: Seq<char> },
    CustomerMetrics { metric: Seq<char> },
    ProjectStatus { department: Option<Seq<char>> },
    TeamMetrics { metric: Seq<char> },
    ProductHealth { metric: Seq<char> },
    ExecutiveSummary { departments: Option<Seq<Seq<char>>> },
    Anomalies { threshold: Seq<char> },
    InventoryLevels { category: Option<Seq<char>> },
}

/// The models of a list of strings.
pub open spec fn strings_view(v: Seq<String>) -> Seq<Seq<char>> {
    v.map_values(|s: String| s@)
}

/// The model of an optional string.
pub open spec fn opt_string_view(o: Option<String>) -> Option<Seq<char>> {
    match o {
        Some(s) => Some(s@),
        None => None,
    }
}

impl View for ToolCall {
    type V = ToolRequest;

    open spec fn view(&self) -> ToolRequest {
        match self {
            ToolCall::SalesMetrics { period, compare_to_previous } => ToolRequest::SalesMetrics {
                period: period@,
                compare_to_previous: *compare_to_previous,
            },
            ToolCall::TopProducts { limit } => ToolRequest::TopProducts { limit: *limit },
            ToolCall::FinancialStatus { category } => ToolRequest::FinancialStatus { category: category@ },
            ToolCall::CustomerMetrics { metric } => ToolRequest::CustomerMetrics { metric: metric@ },
            ToolCall::ProjectStatus { department } => ToolRequest::ProjectStatus {
                department: opt_string_view(*department),
            },
            ToolCall::TeamMetrics { metric } => ToolRequest::TeamMetrics { metric: metric@ },
            ToolCall::ProductHealth { metric } => ToolRequest::ProductHealth { metric: metric@ },
            ToolCall::ExecutiveSummary { departments } => ToolRequest::ExecutiveSummary {
                departments: match departments {
                    Some(d) => Some(strings_view(d@)),
                    None => None,
                },
            },
            ToolCall::Anomalies { threshold } => ToolRequest::Anomalies { threshold: threshold@ },
            ToolCall::InventoryLevels { category } => ToolRequest::InventoryLevels {
                category: opt_string_view(*category),
            },
        }
    }
}

/// The model of a call's `arguments`; absent arguments read as `null`.
pub open spec fn args_view(args: Option<Json>) -> JsonValue {
    match args {
        Some(a) => a@,
        None => JsonValue::Null,
    }
}

/// A required text argument.
pub open spec fn required_text(args: JsonValue, key: Seq<char>) -> Option<Seq<char>> {
    args.at(key).as_str()
}

/// An optional text argument: `Some(None)` when absent or `null`,
/// `None` when it is there but not a text.
pub open spec fn optional_text(args: JsonValue, key: Seq<char>) -> Option<Option<Seq<char>>> {
    match args.at(key) {
        JsonValue::Null => Some(None),
        JsonValue::Str(s) => Some(Some(s)),
        _ => None,
    }
}

/// An optional flag, `default` when absent or `null`.
pub open spec fn optional_flag(args: JsonValue, key: Seq<char>, default: bool) -> Option<bool> {
    match args.at(key) {
        JsonValue::Null => Some(default),
        JsonValue::Bool(b) => Some(b),
        _ => None,
    }
}

/// An optional non-negative integer, `default` when absent or `null`.
pub open spec fn optional_count(args: JsonValue, key: Seq<char>, default: u64) -> Option<u64> {
    match args.at(key) {
        JsonValue::Null => Some(default),
        v => v.as_u64(),
    }
}

/// An optional number, kept as its text; `default` when absent or `null`.
pub open spec fn optional_number(args: JsonValue, key: Seq<char>, default: Seq<char>) -> Option<Seq<char>> {
    match args.at(key) {
        JsonValue::Null => Some(default),
        JsonValue::Number(t) => Some(t),
        _ => None,
    }
}

/// The texts of a list of JSON values that are all texts.
pub open spec fn all_texts(a: Seq<JsonValue>) -> bool {
    forall|i: int| 0 <= i < a.len() ==> (#[trigger] a[i]) is Str
}

/// The texts held by a list of JSON texts.
pub open spec fn texts_of(a: Seq<JsonValue>) -> Seq<Seq<char>> {
    a.map_values(|v: JsonValue| match v {
        JsonValue::Str(s) => s,
        _ => Seq::empty(),
    })
}

/// An optional list of texts: `Some(None)` when absent or `null`, `None`
/// when it is there but not an array of texts.
pub open spec fn optional_text_list(args: JsonValue, key: Seq<char>) -> Option<Option<Seq<Seq<char>>>> {
    match args.at(key) {
        JsonValue::Null => Some(None),
        JsonValue::Array(a) => if all_texts(a) {
            Some(Some(texts_of(a)))
        } else {
            None
        },
        _ => None,
    }
}

/// The tool that a `tools/call` names, with its arguments read as the
/// README's table of tools lists them. An unknown tool, or a required
/// argument that is missing or of the wrong kind, is refused.
pub open spec fn route_tool(name: Seq<char>, args: JsonValue) -> Result<ToolRequest, McpServerError> {
    let bad = Err(McpServerError::CouldntGetCallArguments);
    if name == "get_sales_metrics"@ {
        match (required_text(args, "period"@), optional_flag(args, "compare_to_previous"@, false)) {
            (Some(period), Some(compare_to_previous)) => Ok(ToolRequest::SalesMetrics { period, compare_to_previous }),
            _ => bad,
        }
    } else if name == "get_top_products"@ {
        match optional_count(args, "limit"@, 5) {
            Some(limit) => Ok(ToolRequest::TopProducts { limit }),
            None => bad,
        }
    } else if name == "get_financial_status"@ {
        match required_text(args, "category"@) {
            Some(category) => Ok(ToolRequest::FinancialStatus { category }),
            None => bad,
        }
    } else if name == "get_customer_metrics"@ {
        match required_text(args, "metric"@) {
            Some(metric) => Ok(ToolRequest::CustomerMetrics { metric }),
            None => bad,
        }
    } else if name == "get_project_status"@ {
        match optional_text(args, "department"@) {
            Some(department) => Ok(ToolRequest::ProjectStatus { department }),
            None => bad,
        }
    } else if name == "get_team_metrics"@ {
        match required_text(args, "metric"@) {
            Some(metric) => Ok(ToolRequest::TeamMetrics { metric }),
            None => bad,
        }
    } else if name == "get_product_health"@ {
        match required_text(args, "metric"@) {
            Some(metric) => Ok(ToolRequest::ProductHealth { metric }),
            None => bad,
        }
    } else if name == "generate_executive_summary"@ {
        match optional_text_list(args, "departments"@) {
            Some(departments) => Ok(ToolRequest::ExecutiveSummary { departments }),
            None => bad,
        }
    } else if name == "get_anomalies"@ {
        match optional_number(args, "threshold"@, "20"@) {
            Some(threshold) => Ok(ToolRequest::Anomalies { threshold }),
            None => bad,
        }
    } else if name == "get_inventory_levels"@ {
        match optional_text(args, "category"@) {
            Some(category) => Ok(ToolRequest::InventoryLevels { category }),
            None => bad,
        }
    } else {
        bad
    }
}

/// The argument `key` of a call.
fn arg<'a>(args: &'a Option<Json>, key: &str) -> (r: Option<&'a Json>)
    ensures
        match r {
            Some(v) => args_view(*args).get(key@) == Some(v@),
            None => args_view(*args).get(key@) is None,
        },
{
    match args {
        Some(a) => a.get(key),
        None => None,
    }
}

fn read_required_text(args: &Option<Json>, key: &str) -> (r: Option<String>)
    ensures
        opt_string_view(r) == required_text(args_view(*args), key@),
{
    match arg(args, key) {
        Some(v) => match v.as_str() {
            Some(s) => Some(String::from_str(s)),
            None => None,
        },
        None => None,
    }
}

fn read_optional_text(args: &Option<Json>, key: &str) -> (r: Option<Option<String>>)
    ensures
        match r {
            Some(o) => optional_text(args_view(*args), key@) == Some(opt_string_view(o)),
            None => optional_text(args_view(*args), key@) is None,
        },
{
    match arg(args, key) {
        Some(Json::Null) => Some(None),
        Some(Json::Str(s)) => Some(Some(s.clone())),
        Some(_) => None,
        None => Some(None),
    }
}

fn read_optional_flag(args: &Option<Json>, key: &str, default: bool) -> (r: Option<bool>)
    ensures
        r == optional_flag(args_view(*args), key@, default),
{
    match arg(args, key) {
        Some(Json::Null) => Some(default),
        Some(Json::Bool(b)) => Some(*b),
        Some(_) => None,
        None => Some(default),
    }
}

fn read_optional_count(args: &Option<Json>, key: &str, default: u64) -> (r: Option<u64>)
    ensures
        r == optional_count(args_view(*args), key@, default),
{
    match arg(args, key) {
        Some(Json::Null) => Some(default),
        Some(v) => v.as_u64(),
        None => Some(default),
    }
}

fn read_optional_number(args: &Option<Json>, key: &str, default: &str) -> (r: Option<String>)
    ensures
        opt_string_view(r) == optional_number(args_view(*args), key@, default@),
{
    match arg(args, key) {
        Some(Json::Null) => Some(String::from_str(default)),
        Some(Json::Number(t)) => Some(t.clone()),
        Some(_) => None,
        None => Some(String::from_str(default)),
    }
}

fn read_optional_text_list(args: &Option<Json>, key: &str) -> (r: Option<Option<Vec<String>>>)
    ensures
        match r {
            Some(Some(v)) => optional_text_list(args_view(*args), key@) == Some(Some(strings_view(v@))),
            Some(None) => optional_text_list(args_view(*args), key@) == Some(None::<Seq<Seq<char>>>),
            None => optional_text_list(args_view(*args), key@) is None,
        },
{
    match arg(args, key) {
        Some(Json::Null) => Some(None),
        Some(Json::Array(items)) => {
            proof {
                crate::json::lemma_seq_view(items@);
            }
            let ghost a = crate::json::json_seq_view(items@);
            assert(args_view(*args).at(key@) == JsonValue::Array(a));
            let mut out: Vec<String> = Vec::new();
            let mut i: usize = 0;
            while i < items.len()
                invariant
                    i <= items.len(),
                    a.len() == items@.len(),
                    args_view(*args).at(key@) == JsonValue::Array(a),
                    forall|j: int| 0 <= j < items@.len() ==> #[trigger] a[j] == json_view(items@[j]),
                    out@.len() == i,
                    forall|j: int| 0 <= j < i ==> (#[trigger] a[j]) is Str,
                    forall|j: int| 0 <= j < i ==> a[j] == JsonValue::Str(#[trigger] out@[j]@),
                decreases items.len() - i,
            {
                match &items[i] {
                    Json::Str(s) => {
                        out.push(s.clone());
                    }
                    _ => {
                        assert(!all_texts(a)) by {
                            assert(!(a[i as int] is Str));
                        }
                        return None;
                    }
                }
                i = i + 1;
            }
            assert(all_texts(a));
            assert(strings_view(out@) =~= texts_of(a));
            Some(Some(out))
        }
        Some(_) => None,
        None => Some(None),
    }
}

/// Reads the arguments of the tool `name`.
pub fn route_tool_call(name: &str, args: &Option<Json>) -> (r: Result<ToolCall, McpServerError>)
    ensures
        match r {
            Ok(call) => route_tool(name@, args_view(*args)) == Ok::<ToolRequest, McpServerError>(call@),
            Err(e) => route_tool(name@, args_view(*args)) == Err::<ToolRequest, McpServerError>(e),
        },
{
    let bad = Err(McpServerError::CouldntGetCallArguments);
    if str_eq(name, "get_sales_metrics") {
        match (read_required_text(args, "period"), read_optional_flag(args, "compare_to_previous", false)) {
            (Some(period), Some(compare_to_previous)) => Ok(ToolCall::SalesMetrics { period, compare_to_previous }),
            _ => bad,
        }
    } else if str_eq(name, "get_top_products") {
        match read_optional_count(args, "limit", 5) {
            Some(limit) => Ok(ToolCall::TopProducts { limit }),
            None => bad,
        }
    } else if str_eq(name, "get_financial_status") {
        match read_required_text(args, "category") {
            Some(category) => Ok(ToolCall::FinancialStatus { category }),
            None => bad,
        }
    } else if str_eq(name, "get_customer_metrics") {
        match read_required_text(args, "metric") {
            Some(metric) => Ok(ToolCall::CustomerMetrics { metric }),
            None => bad,
        }
    } else if str_eq(name, "get_project_status") {
        match read_optional_text(args, "department") {
            Some(department) => Ok(ToolCall::ProjectStatus { department }),
            None => bad,
        }
    } else if str_eq(name, "get_team_metrics") {
        match read_required_text(args, "metric") {
            Some(metric) => Ok(ToolCall::TeamMetrics { metric }),
            None => bad,
        }
    } else if str_eq(name, "get_product_health") {
        match read_required_text(args, "metric") {
            Some(metric) => Ok(ToolCall::ProductHealth { metric }),
            None => bad,
        }
    } else if str_eq(name, "generate_executive_summary") {
        match read_optional_text_list(args, "departments") {
            Some(departments) => Ok(ToolCall::ExecutiveSummary { departments }),
            None => bad,
        }
    } else if str_eq(name, "get_anomalies") {
        match read_optional_number(args, "threshold", "20") {
            Some(threshold) => Ok(ToolCall::Anomalies { threshold }),
            None => bad,
        }
    } else if str_eq(name, "get_inventory_levels") {
        match read_optional_text(args, "category") {
            Some(category) => Ok(ToolCall::InventoryLevels { category }),
            None => bad,
        }
    } else {
        bad
    }
}

/// What the server still has to do before it can answer a request.
#[derive(Debug)]
pub enum McpWork {
    /// Read the listing of the tools.
    ListTools,
    /// Run a tool.
    CallTool(ToolCall),
}

/// The next step in answering a request.
#[derive(Debug)]
pub enum McpStep {
    /// The answer is known: send it, or send nothing (`None`).
    Reply(Option<McpJson>),
    /// Do the work, then answer with `McpServer::finish_response`.
    Work { is_notification: bool, id: Option<u32>, work: McpWork },
}

/// A request is a notification when it has no `id` member.
pub open spec fn notification_spec(payload: JsonValue) -> bool {
    payload.get("id"@) is None
}

/// The id that the response carries: the low 32 bits of the request's
/// `id` when that is a non-negative integer that fits a `u64`.
pub open spec fn request_id(payload: JsonValue) -> Option<u32> {
    match payload.get("id"@) {
        Some(v) => match v.as_u64() {
            Some(n) => Some(n as u32),
            None => None,
        },
        None => None,
    }
}

/// `resp` is the JSON-RPC error response with this id, code and message.
pub open spec fn is_error_response(resp: McpJson, id: Option<u32>, code: i32, message: Seq<char>) -> bool {
    &&& resp.jsonrpc@ == JSONRPC_VERSION@
    &&& resp.id == id
    &&& resp.method is None
    &&& resp.params is None
    &&& resp.result is None
    &&& resp.error matches Some(e) && e.code == code && e.message@ == message
}

/// `resp` is the JSON-RPC success response with this id and result.
pub open spec fn is_result_response(resp: McpJson, id: Option<u32>, result: JsonValue) -> bool {
    &&& resp.jsonrpc@ == JSONRPC_VERSION@
    &&& resp.id == id
    &&& resp.method is None
    &&& resp.params is None
    &&& resp.result matches Some(j) && j@ == result
    &&& resp.error is None
}

/// The answer to a request whose work ended with `outcome`: nothing for a
/// notification; else the outcome with the request's id, or the error
/// response for the error.
pub open spec fn answers(notif: bool, id: Option<u32>, outcome: Result<McpJson, CallError>, r: Option<McpJson>) -> bool {
    if notif {
        r is None
    } else {
        r matches Some(resp) && match outcome {
            Ok(o) => resp == McpJson { id: id, ..o },
            Err(e) => is_error_response(resp, id, call_error_code(e), call_error_message(e)),
        }
    }
}

/// The step is the answer to an error found before any work.
pub open spec fn replies_error(r: McpStep, notif: bool, id: Option<u32>, code: i32, message: Seq<char>) -> bool {
    if notif {
        r == McpStep::Reply(None)
    } else {
        r matches McpStep::Reply(Some(resp)) && is_error_response(resp, id, code, message)
    }
}

/// The step is the answer that carries `result`.
pub open spec fn replies_result(r: McpStep, notif: bool, id: Option<u32>, result: JsonValue) -> bool {
    if notif {
        r == McpStep::Reply(None)
    } else {
        r matches McpStep::Reply(Some(resp)) && is_result_response(resp, id, result)
    }
}

/// The result of `initialize`: the protocol version, the capabilities
/// (tools) and the server's name and version.
pub open spec fn initialize_result() -> JsonValue {
    JsonValue::Object(seq![
        ("capabilities"@, JsonValue::Object(seq![("tools"@, JsonValue::Object(Seq::empty()))])),
        ("protocolVersion"@, JsonValue::Str(MCP_PROTOCOL_VERSION@)),
        ("serverInfo"@, JsonValue::Object(seq![
            ("name"@, JsonValue::Str(SERVER_NAME@)),
            ("version"@, JsonValue::Str(SERVER_VERSION@)),
        ])),
    ])
}

/// What `handle_response` does with a request: `payload` is the request as
/// it came, `decoded` the request read as a `McpJson` (or the error that
/// reading gave).
pub open spec fn handle_response_post(payload: Json, decoded: Result<McpJson, String>, r: McpStep) -> bool {
    let notif = notification_spec(payload@);
    let id = request_id(payload@);
    match decoded {
        Err(msg) => replies_error(r, notif, id, -32600i32, msg@),
        Ok(req) => match req.method {
            None => replies_error(r, notif, id, -32600i32, "method not provided"@),
            Some(m) => if m@ == MCP_INITIALIZE_RAW@ {
                replies_result(r, notif, id, initialize_result())
            } else if m@ == MCP_TOOLS_CALL_RAW@ {
                match req.params {
                    None => replies_error(
                        r,
                        notif,
                        id,
                        server_error_code(McpServerError::CouldntFullFilledResponse),
                        server_error_message(McpServerError::CouldntFullFilledResponse),
                    ),
                    Some(p) => match p.name {
                        None => replies_error(
                            r,
                            notif,
                            id,
                            server_error_code(McpServerError::CouldntGetCallArguments),
                            server_error_message(McpServerError::CouldntGetCallArguments),
                        ),
                        Some(name) => match route_tool(name@, args_view(p.arguments)) {
                            Ok(t) => r matches McpStep::Work { is_notification, id: rid, work: McpWork::CallTool(c) }
                                && is_notification == notif && rid == id && c@ == t,
                            Err(e) => replies_error(r, notif, id, server_error_code(e), server_error_message(e)),
                        },
                    },
                }
            } else if m@ == MCP_TOOLS_LIST_RAW@ {
                r == McpStep::Work { is_notification: notif, id, work: McpWork::ListTools }
            } else {
                replies_error(
                    r,
                    notif,
                    id,
                    server_error_code(McpServerError::CouldntFullFilledResponse),
                    server_error_message(McpServerError::CouldntFullFilledResponse),
                )
            },
        },
    }
}

fn text(s: &str) -> (r: String)
    ensures
        r@ == s@,
{
    String::from_str(s)
}

impl McpServer {
    /// Answers a request: decides whether it is a notification and which id
    /// the answer carries, then dispatches on its method. `payload` is the
    /// request as it came; `decoded` is that request read as a `McpJson`,
    /// or the message of the error that reading gave.
    pub fn handle_response(payload: &Json, decoded: Result<McpJson, String>) -> (r: McpStep)
        ensures
            handle_response_post(*payload, decoded, r),
    {
        let id_member = payload.get("id");
        let is_notification = id_member.is_none();
        let id: Option<u32> = match id_member {
            Some(v) => match v.as_u64() {
                Some(n) => Some(n as u32),
                None => None,
            },
            None => None,
        };
        let json_rpc_request = match decoded {
            Ok(req) => req,
            Err(err) => {
                if is_notification {
                    return McpStep::Reply(None);
                }
                return McpStep::Reply(Some(McpServer::error_response(id, -32600, err)));
            }
        };
        let is_initialize;
        let is_call;
        let is_list;
        match &json_rpc_request.method {
            Some(method) => {
                is_initialize = str_eq(method.as_str(), MCP_INITIALIZE_RAW);
                is_call = str_eq(method.as_str(), MCP_TOOLS_CALL_RAW);
                is_list = str_eq(method.as_str(), MCP_TOOLS_LIST_RAW);
            }
            None => {
                if is_notification {
                    return McpStep::Reply(None);
                }
                return McpStep::Reply(
                    Some(McpServer::error_response(id, -32600, text("method not provided"))),
                );
            }
        }
        if is_initialize {
            let response = McpServer::mcp_initialize();
            McpStep::Reply(McpServer::finish_response(is_notification, id, Ok(response)))
        } else if is_call {
            match McpServer::mcp_call(&json_rpc_request) {
                Ok(call) => McpStep::Work { is_notification, id, work: McpWork::CallTool(call) },
                Err(e) => McpStep::Reply(
                    McpServer::finish_response(is_notification, id, Err(CallError::Server(e))),
                ),
            }
        } else if is_list {
            McpStep::Work { is_notification, id, work: McpWork::ListTools }
        } else {
            McpStep::Reply(
                McpServer::finish_response(
                    is_notification,
                    id,
                    Err(CallError::Server(McpServerError::CouldntFullFilledResponse)),
                ),
            )
        }
    }

    /// The answer to a request once its work is done: nothing for a
    /// notification, else the result with the request's id, or the error
    /// response for the error.
    pub fn finish_response(is_notification: bool, id: Option<u32>, result: Result<McpJson, CallError>) -> (r: Option<McpJson>)
        ensures
            answers(is_notification, id, result, r),
    {
        if is_notification {
            return None;
        }
        match result {
            Ok(mut response) => {
                response.id = id;
                Some(response)
            }
            Err(err) => {
                let code = McpServer::error_code(&err);
                Some(McpServer::error_response(id, code, err.to_string()))
            }
        }
    }

    /// The answer to `initialize`.
    pub fn mcp_initialize() -> (r: McpJson)
        ensures
            is_result_response(r, None, initialize_result()),
    {
        let empty: Vec<(String, Json)> = Vec::new();
        let ghost empty_view = empty@;
        let mut caps: Vec<(String, Json)> = Vec::new();
        caps.push((text("tools"), Json::Object(empty)));
        let mut info: Vec<(String, Json)> = Vec::new();
        info.push((text("name"), Json::Str(text(SERVER_NAME))));
        info.push((text("version"), Json::Str(text(SERVER_VERSION))));
        let mut top: Vec<(String, Json)> = Vec::new();
        top.push((text("capabilities"), Json::Object(caps)));
        top.push((text("protocolVersion"), Json::Str(text(MCP_PROTOCOL_VERSION))));
        top.push((text("serverInfo"), Json::Object(info)));
        proof {
            lemma_entries_view(caps@);
            lemma_entries_view(info@);
            lemma_entries_view(top@);
            assert(json_entries_view(empty_view) =~= Seq::empty());
            assert(json_entries_view(caps@) =~= seq![("tools"@, JsonValue::Object(Seq::empty()))]);
            assert(json_entries_view(info@) =~= seq![
                ("name"@, JsonValue::Str(SERVER_NAME@)),
                ("version"@, JsonValue::Str(SERVER_VERSION@)),
            ]);
            assert(json_view(top@[0].1) == JsonValue::Object(seq![("tools"@, JsonValue::Object(Seq::empty()))]));
            assert(json_view(top@[1].1) == JsonValue::Str(MCP_PROTOCOL_VERSION@));
            assert(json_view(top@[2].1) == JsonValue::Object(seq![
                ("name"@, JsonValue::Str(SERVER_NAME@)),
                ("version"@, JsonValue::Str(SERVER_VERSION@)),
            ]));
            assert(json_entries_view(top@) =~= seq![
                ("capabilities"@, JsonValue::Object(seq![("tools"@, JsonValue::Object(Seq::empty()))])),
                ("protocolVersion"@, JsonValue::Str(MCP_PROTOCOL_VERSION@)),
                ("serverInfo"@, JsonValue::Object(seq![
                    ("name"@, JsonValue::Str(SERVER_NAME@)),
                    ("version"@, JsonValue::Str(SERVER_VERSION@)),
                ])),
            ]);
        }
        let result = Json::Object(top);
        assert(result@ == initialize_result());
        McpServer::result_response(result)
    }

    /// The outcome of `tools/list`: the listing read from the tools file,
    /// or the message of the error that reading it gave.
    pub fn mcp_list(listing: Result<Json, String>) -> (r: Result<McpJson, CallError>)
        ensures
            match listing {
                Ok(v) => r matches Ok(resp) && is_result_response(resp, None, v@),
                Err(m) => r matches Err(CallError::Other(e)) && e@ == m@,
            },
    {
        match listing {
            Ok(v) => Ok(McpServer::result_response(v)),
            Err(m) => Err(CallError::Other(m)),
        }
    }

    /// The outcome of `tools/call`: the tool's result as JSON, or the error
    /// that the tool, or writing its result as JSON, gave.
    pub fn mcp_call_result(result: Result<Json, CallError>) -> (r: Result<McpJson, CallError>)
        ensures
            match result {
                Ok(v) => r matches Ok(resp) && is_result_response(resp, None, v@),
                Err(e) => r == Err::<McpJson, CallError>(e),
            },
    {
        match result {
            Ok(v) => Ok(McpServer::result_response(v)),
            Err(e) => Err(e),
        }
    }

    /// Reads the tool call of a `tools/call` request: a request without
    /// parameters is refused as unsupported, one whose parameters name no
    /// tool as naming no known tool, else its tool and arguments are read.
    pub fn mcp_call(json_rpc_request: &McpJson) -> (r: Result<ToolCall, McpServerError>)
        ensures
            match json_rpc_request.params {
                None => r == Err::<ToolCall, McpServerError>(McpServerError::CouldntFullFilledResponse),
                Some(p) => match p.name {
                    None => r == Err::<ToolCall, McpServerError>(McpServerError::CouldntGetCallArguments),
                    Some(name) => match r {
                        Ok(call) => route_tool(name@, args_view(p.arguments)) == Ok::<ToolRequest, McpServerError>(call@),
                        Err(e) => route_tool(name@, args_view(p.arguments)) == Err::<ToolRequest, McpServerError>(e),
                    },
                },
            },
    {
        match &json_rpc_request.params {
            None => Err(McpServerError::CouldntFullFilledResponse),
            Some(mcp_params) => match &mcp_params.name {
                None => Err(McpServerError::CouldntGetCallArguments),
                Some(name) => route_tool_call(name.as_str(), &mcp_params.arguments),
            },
        }
    }
}

/// The tool names of the README's table are told apart by their length
/// and their fifth, sixth and eighth characters.
proof fn lemma_tool_names_apart()
    ensures
        "get_sales_metrics"@.len() == 17,
        "get_top_products"@.len() == 16,
        "get_financial_status"@.len() == 20,
        "get_customer_metrics"@.len() == 20,
        "get_project_status"@.len() == 18,
        "get_team_metrics"@.len() == 16,
        "get_product_health"@.len() == 18,
        "generate_executive_summary"@.len() == 26,
        "get_anomalies"@.len() == 13,
        "get_inventory_levels"@.len() == 20,
        "get_top_products"@[5] == 'o',
        "get_team_metrics"@[5] == 'e',
        "get_financial_status"@[4] == 'f',
        "get_customer_metrics"@[4] == 'c',
        "get_inventory_levels"@[4] == 'i',
        "get_project_status"@[7] == 'j',
        "get_product_health"@[7] == 'd',
{
    reveal_strlit("get_sales_metrics");
    reveal_strlit("get_top_products");
    reveal_strlit("get_financial_status");
    reveal_strlit("get_customer_metrics");
    reveal_strlit("get_project_status");
    reveal_strlit("get_team_metrics");
    reveal_strlit("get_product_health");
    reveal_strlit("generate_executive_summary");
    reveal_strlit("get_anomalies");
    reveal_strlit("get_inventory_levels");
}

/// The tools of the README's table, each with its arguments: a required
/// text argument that is a text is taken as it is; an optional one that is
/// absent or `null` takes its default (`limit` 5, `threshold` 20,
/// `compare_to_previous` false, no department, no category, every
/// department); a name that is not in the table is refused.
#[verifier::spinoff_prover]
#[verifier::rlimit(60)]
pub proof fn law_tool_table(args: JsonValue, name: Seq<char>)
    ensures
        args.at("period"@) matches JsonValue::Str(p) ==> match args.at("compare_to_previous"@) {
            JsonValue::Null => route_tool("get_sales_metrics"@, args) == Ok::<ToolRequest, McpServerError>(
                ToolRequest::SalesMetrics { period: p, compare_to_previous: false },
            ),
            JsonValue::Bool(b) => route_tool("get_sales_metrics"@, args) == Ok::<ToolRequest, McpServerError>(
                ToolRequest::SalesMetrics { period: p, compare_to_previous: b },
            ),
            _ => true,
        },
        args.at("limit"@) is Null ==> route_tool("get_top_products"@, args) == Ok::<ToolRequest, McpServerError>(
            ToolRequest::TopProducts { limit: 5 },
        ),
        args.at("limit"@).as_u64() matches Some(n) ==> route_tool("get_top_products"@, args) == Ok::<ToolRequest, McpServerError>(
            ToolRequest::TopProducts { limit: n },
        ),
        args.at("category"@) matches JsonValue::Str(c) ==> route_tool("get_financial_status"@, args) == Ok::<ToolRequest, McpServerError>(
            ToolRequest::FinancialStatus { category: c },
        ),
        args.at("metric"@) matches JsonValue::Str(m) ==> route_tool("get_customer_metrics"@, args) == Ok::<ToolRequest, McpServerError>(
            ToolRequest::CustomerMetrics { metric: m },
        ),
        args.at("department"@) is Null ==> route_tool("get_project_status"@, args) == Ok::<ToolRequest, McpServerError>(
            ToolRequest::ProjectStatus { department: None },
        ),
        args.at("department"@) matches JsonValue::Str(d) ==> route_tool("get_project_status"@, args) == Ok::<ToolRequest, McpServerError>(
            ToolRequest::ProjectStatus { department: Some(d) },
        ),
        args.at("metric"@) matches JsonValue::Str(m) ==> route_tool("get_team_metrics"@, args) == Ok::<ToolRequest, McpServerError>(
            ToolRequest::TeamMetrics { metric: m },
        ),
        args.at("metric"@) matches JsonValue::Str(m) ==> route_tool("get_product_health"@, args) == Ok::<ToolRequest, McpServerError>(
            ToolRequest::ProductHealth { metric: m },
        ),
        args.at("departments"@) is Null ==> route_tool("generate_executive_summary"@, args) == Ok::<ToolRequest, McpServerError>(
            ToolRequest::ExecutiveSummary { departments: None },
        ),
        match args.at("departments"@) {
            JsonValue::Array(a) => (forall|i: int| 0 <= i < a.len() ==> (#[trigger] a[i]) is Str) ==> (
                route_tool("generate_executive_summary"@, args) matches Ok(ToolRequest::ExecutiveSummary { departments: Some(ds) })
                && ds.len() == a.len() && forall|i: int| 0 <= i < a.len() ==> a[i] == JsonValue::Str(#[trigger] ds[i])),
            _ => true,
        },
        args.at("threshold"@) is Null ==> route_tool("get_anomalies"@, args) == Ok::<ToolRequest, McpServerError>(
            ToolRequest::Anomalies { threshold: "20"@ },
        ),
        args.at("threshold"@) matches JsonValue::Number(t) ==> route_tool("get_anomalies"@, args) == Ok::<ToolRequest, McpServerError>(
            ToolRequest::Anomalies { threshold: t },
        ),
        args.at("category"@) is Null ==> route_tool("get_inventory_levels"@, args) == Ok::<ToolRequest, McpServerError>(
            ToolRequest::InventoryLevels { category: None },
        ),
        args.at("category"@) matches JsonValue::Str(c) ==> route_tool("get_inventory_levels"@, args) == Ok::<ToolRequest, McpServerError>(
            ToolRequest::InventoryLevels { category: Some(c) },
        ),
        !(args.at("period"@) is Str) ==> route_tool("get_sales_metrics"@, args) == Err::<ToolRequest, McpServerError>(McpServerError::CouldntGetCallArguments),
        !(args.at("category"@) is Str) ==> route_tool("get_financial_status"@, args) == Err::<ToolRequest, McpServerError>(McpServerError::CouldntGetCallArguments),
        !(args.at("metric"@) is Str) ==> route_tool("get_customer_metrics"@, args) == Err::<ToolRequest, McpServerError>(McpServerError::CouldntGetCallArguments),
        !(args.at("metric"@) is Str) ==> route_tool("get_team_metrics"@, args) == Err::<ToolRequest, McpServerError>(McpServerError::CouldntGetCallArguments),
        !(args.at("metric"@) is Str) ==> route_tool("get_product_health"@, args) == Err::<ToolRequest, McpServerError>(McpServerError::CouldntGetCallArguments),
        (name != "get_sales_metrics"@ && name != "get_top_products"@ && name != "get_financial_status"@
            && name != "get_customer_metrics"@ && name != "get_project_status"@ && name != "get_team_metrics"@
            && name != "get_product_health"@ && name != "generate_executive_summary"@ && name != "get_anomalies"@
            && name != "get_inventory_levels"@) ==> route_tool(name, args) == Err::<ToolRequest, McpServerError>(McpServerError::CouldntGetCallArguments),
{
    reveal_strlit("get_sales_metrics");
    reveal_strlit("get_top_products");
    reveal_strlit("get_financial_status");
    reveal_strlit("get_customer_metrics");
    reveal_strlit("get_project_status");
    reveal_strlit("get_team_metrics");
    reveal_strlit("get_product_health");
    reveal_strlit("generate_executive_summary");
    reveal_strlit("get_anomalies");
    reveal_strlit("get_inventory_levels");
    lemma_tool_names_apart();
    if let JsonValue::Array(a) = args.at("departments"@) {
        if forall|i: int| 0 <= i < a.len() ==> (#[trigger] a[i]) is Str {
            assert forall|i: int| 0 <= i < a.len() implies a[i] == JsonValue::Str(#[trigger] texts_of(a)[i]) by {
                assert(a[i] is Str);
            }
        }
    }
}

/// The request names the method `name`.
pub open spec fn names_method(req: McpJson, name: Seq<char>) -> bool {
    match req.method {
        Some(m) => m@ == name,
        None => false,
    }
}

/// The step is an immediate error answer with this code.
pub open spec fn refused_with(step: McpStep, code: i32) -> bool {
    match step {
        McpStep::Reply(Some(resp)) => match resp.error {
            Some(e) => e.code == code,
            None => false,
        },
        _ => false,
    }
}

/// The step is an immediate answer whose result gives this protocol
/// version and server name.
pub open spec fn introduces(step: McpStep, protocol: Seq<char>, name: Seq<char>) -> bool {
    match step {
        McpStep::Reply(Some(resp)) => match resp.result {
            Some(j) => j@.at("protocolVersion"@) == JsonValue::Str(protocol)
                && j@.at("serverInfo"@).at("name"@) == JsonValue::Str(name),
            None => false,
        },
        _ => false,
    }
}

/// The step is an immediate error answer with this code and message.
pub open spec fn refused_saying(step: McpStep, code: i32, message: Seq<char>) -> bool {
    match step {
        McpStep::Reply(Some(resp)) => match resp.error {
            Some(e) => e.code == code && e.message@ == message,
            None => false,
        },
        _ => false,
    }
}

/// The step is the work of running a tool.
pub open spec fn runs_tool(step: McpStep) -> bool {
    match step {
        McpStep::Work { is_notification: _, id: _, work: McpWork::CallTool(_) } => true,
        _ => false,
    }
}

/// What a `tools/call` request leads to: the work of running the tool
/// when it names a tool of the table with its arguments; a refusal with
/// code -32602 and the message `unknown tool name` when it names no tool,
/// or one that is not in the table or lacks its arguments; and with code
/// -32601 and the message `unsupported method` when it has no parameters.
pub open spec fn call_step_ok(req: McpJson, step: McpStep) -> bool {
    match req.params {
        Some(p) => match p.name {
            Some(n) => match route_tool(n@, args_view(p.arguments)) {
                Ok(_) => runs_tool(step),
                Err(_) => refused_saying(step, -32602i32, "unknown tool name"@),
            },
            None => refused_saying(step, -32602i32, "unknown tool name"@),
        },
        None => refused_saying(step, -32601i32, "unsupported method"@),
    }
}

/// A request with an id is dispatched on its method: `initialize` is
/// answered at once with protocol version `2024-11-05` and the server's
/// name `corpo_metrics`; `tools/list`, and a `tools/call` of a tool of the
/// table, are work to do for the request's id; a request without a method
/// is refused with code -32600, and one whose method is none of these
/// with code -32601 and the message `unsupported method`.
#[verifier::spinoff_prover]
#[verifier::rlimit(60)]
pub proof fn law_method_dispatch(payload: Json, req: McpJson, step: McpStep)
    requires
        handle_response_post(payload, Ok(req), step),
        !notification_spec(payload@),
    ensures
        req.method is None ==> refused_with(step, -32600i32),
        names_method(req, "initialize"@) ==> introduces(step, "2024-11-05"@, "corpo_metrics"@),
        names_method(req, "tools/list"@) ==> (step == (McpStep::Work {
            is_notification: false,
            id: request_id(payload@),
            work: McpWork::ListTools,
        })),
        names_method(req, "tools/call"@) ==> call_step_ok(req, step),
        (req.method is Some && !names_method(req, "initialize"@) && !names_method(req, "tools/list"@)
            && !names_method(req, "tools/call"@)) ==> refused_saying(step, -32601i32, "unsupported method"@),
{
    reveal_strlit("initialize");
    reveal_strlit("tools/list");
    reveal_strlit("tools/call");
    reveal_strlit("2024-11-05");
    reveal_strlit("corpo_metrics");
    reveal_strlit("protocolVersion");
    reveal_strlit("serverInfo");
    reveal_strlit("capabilities");
    reveal_strlit("name");
    reveal_strlit("version");
    reveal_with_fuel(crate::json::entries_lookup, 3);
    let r = initialize_result();
    let top = seq![
        ("capabilities"@, JsonValue::Object(seq![("tools"@, JsonValue::Object(Seq::empty()))])),
        ("protocolVersion"@, JsonValue::Str(MCP_PROTOCOL_VERSION@)),
        ("serverInfo"@, JsonValue::Object(seq![
            ("name"@, JsonValue::Str(SERVER_NAME@)),
            ("version"@, JsonValue::Str(SERVER_VERSION@)),
        ])),
    ];
    assert(r == JsonValue::Object(top));
    assert(top.drop_first()[0].0 == "protocolVersion"@);
    assert("capabilities"@.len() != "protocolVersion"@.len());
    assert(r.at("protocolVersion"@) == JsonValue::Str("2024-11-05"@));
    assert("capabilities"@.len() != "serverInfo"@.len());
    assert("protocolVersion"@.len() != "serverInfo"@.len());
    assert(top.drop_first().drop_first()[0].0 == "serverInfo"@);
    assert(r.at("serverInfo"@).at("name"@) == JsonValue::Str("corpo_metrics"@));
    assert("initialize"@[0] != "tools/list"@[0]);
    assert("initialize"@[0] != "tools/call"@[0]);
    assert("tools/list"@[6] != "tools/call"@[6]);
}

/// Each of the server's errors has a JSON-RPC code and a message of its
/// own: a request without a method is invalid (-32600, `no method
/// provided in request`), an unsupported method is not found (-32601,
/// `unsupported method`), a tool call that names no tool of the table has
/// invalid parameters (-32602, `unknown tool name`); any other failure is
/// an internal error (-32603) with its own message.
#[verifier::spinoff_prover]
#[verifier::rlimit(60)]
pub proof fn law_error_table(e: McpServerError, f: McpServerError, m: String)
    ensures
        e != f ==> server_error_code(e) != server_error_code(f) && server_error_message(e) != server_error_message(f),
        (server_error_code(e) == -32600i32 && server_error_message(e) == "no method provided in request"@)
            <==> e == McpServerError::NotMethodSupply,
        (server_error_code(e) == -32601i32 && server_error_message(e) == "unsupported method"@)
            <==> e == McpServerError::CouldntFullFilledResponse,
        (server_error_code(e) == -32602i32 && server_error_message(e) == "unknown tool name"@)
            <==> e == McpServerError::CouldntGetCallArguments,
        call_error_code(CallError::Server(e)) == server_error_code(e),
        call_error_message(CallError::Server(e)) == server_error_message(e),
        call_error_code(CallError::Other(m)) == -32603i32,
        call_error_message(CallError::Other(m)) == m@,
{
    reveal_strlit("no method provided in request");
    reveal_strlit("unsupported method");
    reveal_strlit("unknown tool name");
}

/// When the work of a request fails, the answer carries the error: a
/// failure of the server's own with its code and message, any other with
/// code -32603 (internal error) and the failure's message.
#[verifier::spinoff_prover]
#[verifier::rlimit(60)]
pub proof fn law_work_errors(id: Option<u32>, e: CallError, reply: Option<McpJson>)
    requires
        answers(false, id, Err(e), reply),
    ensures
        reply matches Some(resp) && (resp.error matches Some(err) && match e {
            CallError::Server(se) => err.code == server_error_code(se) && err.message@ == server_error_message(se),
            CallError::Other(m) => err.code == -32603i32 && err.message@ == m@,
        }),
{
}

/// A notification is never answered: handling it gives no reply, or work
/// whose finishing gives no reply, whatever the work's outcome.
#[verifier::spinoff_prover]
#[verifier::rlimit(60)]
pub proof fn law_notification_gets_no_reply(
    payload: Json,
    decoded: Result<McpJson, String>,
    step: McpStep,
    outcome: Result<McpJson, CallError>,
    reply: Option<McpJson>,
)
    requires
        handle_response_post(payload, decoded, step),
        notification_spec(payload@),
    ensures
        step is Reply ==> step == McpStep::Reply(None),
        step matches McpStep::Work { is_notification, id, work } ==> is_notification
            && (answers(is_notification, id, outcome, reply) ==> reply is None),
{
}

/// A request with an id is always answered, and the answer carries the
/// request's id and JSON-RPC version 2.0: when it is known at once, and
/// when it comes after the work (the version then is the work's, or 2.0
/// for an error).
#[verifier::spinoff_prover]
#[verifier::rlimit(60)]
pub proof fn law_request_gets_reply_with_its_id(
    payload: Json,
    decoded: Result<McpJson, String>,
    step: McpStep,
    outcome: Result<McpJson, CallError>,
    reply: Option<McpJson>,
)
    requires
        handle_response_post(payload, decoded, step),
        !notification_spec(payload@),
    ensures
        match step {
            McpStep::Reply(r) => (r matches Some(resp) && resp.id == request_id(payload@)
                && resp.jsonrpc@ == "2.0"@),
            McpStep::Work { is_notification, id, work } => !is_notification && id == request_id(payload@),
        },
        answers(false, request_id(payload@), outcome, reply) ==> (reply matches Some(resp)
            && resp.id == request_id(payload@)
            && match outcome {
                Ok(o) => resp.jsonrpc == o.jsonrpc,
                Err(_) => resp.jsonrpc@ == "2.0"@,
            }),
{
}

/// An answer given at once holds exactly one of a result and an error; an
/// answer after the work holds an error exactly when the work failed.
#[verifier::spinoff_prover]
#[verifier::rlimit(60)]
pub proof fn law_reply_has_result_or_error(
    payload: Json,
    decoded: Result<McpJson, String>,
    step: McpStep,
    notif: bool,
    id: Option<u32>,
    outcome: Result<McpJson, CallError>,
    reply: Option<McpJson>,
)
    requires
        handle_response_post(payload, decoded, step),
    ensures
        step matches McpStep::Reply(Some(resp)) ==> ((resp.result is Some) != (resp.error is Some)),
        answers(notif, id, outcome, reply) ==> match (outcome, reply) {
            (Err(_), Some(resp)) => resp.error is Some && resp.result is None,
            (Ok(o), Some(resp)) => resp.error == o.error && resp.result == o.result,
            _ => true,
        },
{
}

} // verus!
