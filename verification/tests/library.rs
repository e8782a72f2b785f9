use corpo_metrics::config::{Env, EnvError};
use corpo_metrics::http_engine::{
    check_content_type_headers, content_length, head_incomplete, json_response_head, process_head,
    push_head_byte, Header, HeadDecision, HttpServerErrors,
};
use corpo_metrics::json::Json;
use corpo_metrics::server::op::anomalies::{blocked_project_anomalies, critical_tickets_anomaly, get_anomalies, AnomalyFindings};
use corpo_metrics::server::op::clients::active_customers_text;
use corpo_metrics::server::op::inventory::{get_inventory_levels, InventoryCategory, InventoryData};
use corpo_metrics::server::op::project_states::get_project_status;
use corpo_metrics::server::op::reports::{check_sales_period, select_report, top_products_count};
use corpo_metrics::server::op::summary::{assemble_summary, projects_section, summary_plan, team_section, SummarySections};
use corpo_metrics::server::op::teams::get_team_metrics;
use corpo_metrics::server::primitives::{
    route_tool_call, CallError, McpJson, McpPayload, McpServer, McpServerError, McpStep, McpWork,
    MCPCallparams, ToolCall,
};
use corpo_metrics::text::{eq_ignore_ascii_case, parse_usize, u64_to_text};

fn st(s: &str) -> Json {
    Json::Str(s.to_string())
}

fn num(s: &str) -> Json {
    Json::Number(s.to_string())
}

fn obj(entries: Vec<(&str, Json)>) -> Json {
    Json::Object(entries.into_iter().map(|(k, v)| (k.to_string(), v)).collect())
}

fn request(method: Option<&str>, params: Option<MCPCallparams>) -> McpJson {
    McpJson {
        jsonrpc: "2.0".to_string(),
        id: None,
        method: method.map(|m| m.to_string()),
        params,
        result: None,
        error: None,
    }
}

fn payload_with_id(id: Json) -> Json {
    obj(vec![("jsonrpc", st("2.0")), ("id", id)])
}

fn reply_of(step: McpStep) -> Option<McpJson> {
    match step {
        McpStep::Reply(r) => r,
        McpStep::Work { .. } => panic!("expected a reply"),
    }
}

fn text_of(p: &McpPayload) -> &str {
    assert_eq!(p.content.len(), 1);
    &p.content[0].text
}

fn head(lines: &str) -> Vec<u8> {
    let mut v = Vec::new();
    for b in lines.bytes() {
        push_head_byte(&mut v, b);
    }
    v
}

#[test]
fn decimal_text_of_numbers() {
    assert_eq!(u64_to_text(0), "0");
    assert_eq!(u64_to_text(1234), "1234");
    assert_eq!(u64_to_text(u64::MAX), u64::MAX.to_string());
}

#[test]
fn parse_usize_reads_as_std_does() {
    for t in ["42", "+42", "007", "", "+", "-1", "4 2", "18446744073709551616", "18446744073709551615"] {
        assert_eq!(parse_usize(t), t.parse::<usize>().ok(), "text {:?}", t);
    }
}

#[test]
fn env_init_reads_host_and_port() {
    let env = Env::env_init(Some("127.0.0.1".to_string()), Some("8080".to_string())).unwrap();
    assert_eq!(env.host, "127.0.0.1");
    assert_eq!(env.port, 8080);
}

#[test]
fn env_init_defaults_and_errors() {
    let env = Env::env_init(None, None).unwrap();
    assert_eq!(env.host, "127.0.0.1");
    assert_eq!(env.port, 8080);
    let env = Env::env_init(None, Some("9000".to_string())).unwrap();
    assert_eq!((env.host.as_str(), env.port), ("127.0.0.1", 9000));
    let env = Env::env_init(Some("0.0.0.0".to_string()), None).unwrap();
    assert_eq!((env.host.as_str(), env.port), ("0.0.0.0", 8080));
    assert_eq!(Env::env_init(Some("h".to_string()), Some("80a".to_string())).unwrap_err(), EnvError::InvalidPort);
    assert_eq!(Env::env_init(None, Some("".to_string())).unwrap_err(), EnvError::InvalidPort);
}

#[test]
fn port_written_in_decimal_reads_back() {
    for p in [0usize, 1, 80, 8080, 65535] {
        let env = Env::env_init(Some("h".to_string()), Some(u64_to_text(p as u64))).unwrap();
        assert_eq!(env.port, p);
    }
}

#[test]
fn head_bytes_are_kept_in_utf8() {
    let mut v = Vec::new();
    push_head_byte(&mut v, b'A');
    push_head_byte(&mut v, 0xE9);
    assert_eq!(v, vec![b'A', 0xC3, 0xA9]);
    assert_eq!(String::from_utf8(v).unwrap(), "A\u{e9}");
}

#[test]
fn head_reading_stops_at_empty_line_or_limit() {
    assert!(head_incomplete(&head("GET / HTTP/1.1\r\n")));
    assert!(!head_incomplete(&head("GET / HTTP/1.1\r\n\r\n")));
    assert!(head_incomplete(&vec![b'a'; 8191]));
    assert!(!head_incomplete(&vec![b'a'; 8192]));
}

#[test]
fn json_request_head_gives_body_length() {
    let h = head("POST / HTTP/1.1\r\nContent-Type: application/json\r\nContent-Length: 17\r\n\r\n");
    assert_eq!(process_head(&h), HeadDecision::ReadBody(17));
}

#[test]
fn content_length_is_read_in_any_case_and_defaults_to_zero() {
    let h = head("POST / HTTP/1.1\r\nContent-Type: application/json\r\ncontent-LENGTH: 12\r\n\r\n");
    assert_eq!(process_head(&h), HeadDecision::ReadBody(12));
    let h = head("POST / HTTP/1.1\r\nContent-Type: application/json\r\n\r\n");
    assert_eq!(process_head(&h), HeadDecision::ReadBody(0));
    let h = head("POST / HTTP/1.1\r\nContent-Type: application/json\r\nContent-Length: abc\r\nContent-Length: 5\r\n\r\n");
    assert_eq!(process_head(&h), HeadDecision::ReadBody(0));
}

#[test]
fn content_type_must_match_exactly() {
    let h = head("POST / HTTP/1.1\r\ncontent-type: application/json\r\n\r\n");
    assert_eq!(process_head(&h), HeadDecision::Refuse(HttpServerErrors::IncorrectContentTypeHeader));
    let h = head("POST / HTTP/1.1\r\nContent-Type: application/json; charset=utf-8\r\n\r\n");
    assert_eq!(process_head(&h), HeadDecision::Refuse(HttpServerErrors::IncorrectContentTypeHeader));
}

#[test]
fn incomplete_head_is_dropped() {
    let h = head("POST / HTTP/1.1\r\nContent-Type: application/json\r\n");
    assert_eq!(process_head(&h), HeadDecision::Drop);
}

#[test]
fn header_checks_on_header_lists() {
    let headers = vec![
        Header { name: "Host".to_string(), value: b"x".to_vec() },
        Header { name: "Content-Type".to_string(), value: b"application/json".to_vec() },
        Header { name: "Content-Length".to_string(), value: b"+9".to_vec() },
    ];
    assert!(check_content_type_headers(&headers));
    assert_eq!(content_length(&headers), 9);
    assert!(!check_content_type_headers(&headers[..1].iter().map(|h| Header { name: h.name.clone(), value: h.value.clone() }).collect()));
}

#[test]
fn response_head_is_http_ok_with_json_type() {
    assert_eq!(json_response_head().unwrap(), "HTTP/1.1 200 OK\r\ncontent-type: application/json\r\n\r\n");
}

#[test]
fn initialize_answers_with_server_info() {
    let payload = payload_with_id(num("7"));
    let r = reply_of(McpServer::handle_response(&payload, Ok(request(Some("initialize"), None)))).unwrap();
    assert_eq!(r.jsonrpc, "2.0");
    assert_eq!(r.id, Some(7));
    assert!(r.error.is_none());
    let result = r.result.unwrap();
    let version = result.get("protocolVersion").unwrap().as_str().unwrap().to_string();
    assert_eq!(version, "2024-11-05");
    let info = result.get("serverInfo").unwrap();
    assert_eq!(info.get("name").unwrap().as_str(), Some("corpo_metrics"));
    assert!(result.get("capabilities").unwrap().get("tools").is_some());
}

#[test]
fn notification_gets_no_reply() {
    let payload = obj(vec![("jsonrpc", st("2.0")), ("method", st("initialize"))]);
    assert!(reply_of(McpServer::handle_response(&payload, Ok(request(Some("initialize"), None)))).is_none());
    assert!(reply_of(McpServer::handle_response(&payload, Err("bad".to_string()))).is_none());
    assert!(reply_of(McpServer::handle_response(&payload, Ok(request(Some("nope"), None)))).is_none());
    assert!(McpServer::finish_response(true, None, Err(CallError::Other("x".to_string()))).is_none());
}

#[test]
fn null_id_is_not_a_notification() {
    let payload = payload_with_id(Json::Null);
    let r = reply_of(McpServer::handle_response(&payload, Ok(request(Some("initialize"), None)))).unwrap();
    assert_eq!(r.id, None);
}

#[test]
fn large_id_keeps_its_low_bits() {
    // serde refuses such an id as a `u32`, so the request reads as an error;
    // the answer still carries the low 32 bits of the id
    let payload = payload_with_id(num("4294967297"));
    let decoded = Err("invalid value: integer `4294967297`, expected u32".to_string());
    let r = reply_of(McpServer::handle_response(&payload, decoded)).unwrap();
    assert_eq!(r.id, Some(1));
    assert_eq!(r.error.unwrap().code, -32600);
}

#[test]
fn unreadable_request_is_invalid() {
    let payload = payload_with_id(num("3"));
    let r = reply_of(McpServer::handle_response(&payload, Err("missing field `jsonrpc`".to_string()))).unwrap();
    let e = r.error.unwrap();
    assert_eq!(e.code, -32600);
    assert_eq!(e.message, "missing field `jsonrpc`");
    assert_eq!(r.id, Some(3));
    assert!(r.result.is_none());
}

#[test]
fn missing_method_is_invalid() {
    let payload = payload_with_id(num("4"));
    let r = reply_of(McpServer::handle_response(&payload, Ok(request(None, None)))).unwrap();
    let e = r.error.unwrap();
    assert_eq!(e.code, -32600);
    assert_eq!(e.message, "method not provided");
}

#[test]
fn unknown_method_is_unsupported() {
    let payload = payload_with_id(num("5"));
    let r = reply_of(McpServer::handle_response(&payload, Ok(request(Some("resources/list"), None)))).unwrap();
    let e = r.error.unwrap();
    assert_eq!(e.code, -32601);
    assert_eq!(e.message, "unsupported method");
}

#[test]
fn tools_list_is_work() {
    let payload = payload_with_id(num("6"));
    match McpServer::handle_response(&payload, Ok(request(Some("tools/list"), None))) {
        McpStep::Work { is_notification, id, work: McpWork::ListTools } => {
            assert!(!is_notification);
            assert_eq!(id, Some(6));
        }
        other => panic!("unexpected {:?}", other),
    }
}

#[test]
fn tools_call_without_params_is_unsupported() {
    let payload = payload_with_id(num("8"));
    let r = reply_of(McpServer::handle_response(&payload, Ok(request(Some("tools/call"), None)))).unwrap();
    assert_eq!(r.error.unwrap().code, -32601);
}

#[test]
fn tools_call_unknown_tool_is_invalid_params() {
    let payload = payload_with_id(num("9"));
    let params = MCPCallparams { name: Some("get_weather".to_string()), arguments: None };
    let r = reply_of(McpServer::handle_response(&payload, Ok(request(Some("tools/call"), Some(params))))).unwrap();
    let e = r.error.unwrap();
    assert_eq!(e.code, -32602);
    assert_eq!(e.message, "unknown tool name");
}

#[test]
fn tools_call_known_tool_is_work() {
    let payload = payload_with_id(num("10"));
    let params = MCPCallparams {
        name: Some("get_team_metrics".to_string()),
        arguments: Some(obj(vec![("metric", st("headcount"))])),
    };
    match McpServer::handle_response(&payload, Ok(request(Some("tools/call"), Some(params)))) {
        McpStep::Work { is_notification: false, id: Some(10), work: McpWork::CallTool(ToolCall::TeamMetrics { metric }) } => {
            assert_eq!(metric, "headcount");
        }
        other => panic!("unexpected {:?}", other),
    }
}

#[test]
fn finish_response_sets_id_or_reports_error() {
    let ok = McpServer::mcp_list(Ok(obj(vec![("tools", Json::Array(vec![]))]))).unwrap();
    let r = McpServer::finish_response(false, Some(11), Ok(ok)).unwrap();
    assert_eq!(r.id, Some(11));
    assert!(r.result.is_some() && r.error.is_none());
    let r = McpServer::finish_response(false, Some(12), Err(CallError::Other("No such file".to_string()))).unwrap();
    let e = r.error.unwrap();
    assert_eq!(e.code, -32603);
    assert_eq!(e.message, "No such file");
    let r = McpServer::finish_response(false, None, McpServer::mcp_call_result(Err(CallError::Server(McpServerError::CouldntGetCallArguments)))).unwrap();
    assert_eq!(r.error.unwrap().code, -32602);
}

#[test]
fn error_codes_and_messages() {
    let cases = [
        (McpServerError::NotMethodSupply, -32600, "no method provided in request"),
        (McpServerError::CouldntFullFilledResponse, -32601, "unsupported method"),
        (McpServerError::CouldntGetCallArguments, -32602, "unknown tool name"),
    ];
    for (e, code, msg) in cases {
        assert_eq!(McpServer::error_code(&CallError::Server(e)), code);
        assert_eq!(e.to_string(), msg);
    }
    assert_eq!(McpServer::error_code(&CallError::Other("x".to_string())), -32603);
    let r = McpServer::error_response(Some(1), -1, "m".to_string());
    assert_eq!(r.jsonrpc, "2.0");
    assert_eq!(r.error.unwrap().message, "m");
}

#[test]
fn tool_arguments_and_defaults() {
    let none = None;
    match route_tool_call("get_top_products", &none).unwrap() {
        ToolCall::TopProducts { limit } => assert_eq!(limit, 5),
        other => panic!("{:?}", other),
    }
    match route_tool_call("get_top_products", &Some(obj(vec![("limit", num("3"))]))).unwrap() {
        ToolCall::TopProducts { limit } => assert_eq!(limit, 3),
        other => panic!("{:?}", other),
    }
    match route_tool_call("get_anomalies", &none).unwrap() {
        ToolCall::Anomalies { threshold } => assert_eq!(threshold, "20"),
        other => panic!("{:?}", other),
    }
    match route_tool_call("get_sales_metrics", &Some(obj(vec![("period", st("month"))]))).unwrap() {
        ToolCall::SalesMetrics { period, compare_to_previous } => {
            assert_eq!(period, "month");
            assert!(!compare_to_previous);
        }
        other => panic!("{:?}", other),
    }
    match route_tool_call("generate_executive_summary", &Some(obj(vec![("departments", Json::Array(vec![st("Sales"), st("HR")]))]))).unwrap() {
        ToolCall::ExecutiveSummary { departments } => assert_eq!(departments.unwrap(), vec!["Sales".to_string(), "HR".to_string()]),
        other => panic!("{:?}", other),
    }
    assert_eq!(route_tool_call("get_sales_metrics", &none).unwrap_err(), McpServerError::CouldntGetCallArguments);
    assert_eq!(route_tool_call("get_top_products", &Some(obj(vec![("limit", st("3"))]))).unwrap_err(), McpServerError::CouldntGetCallArguments);
    assert_eq!(
        route_tool_call("generate_executive_summary", &Some(obj(vec![("departments", Json::Array(vec![num("1")]))]))).unwrap_err(),
        McpServerError::CouldntGetCallArguments
    );
    match route_tool_call("get_project_status", &none).unwrap() {
        ToolCall::ProjectStatus { department } => assert!(department.is_none()),
        other => panic!("{:?}", other),
    }
}

fn teams_data() -> Json {
    obj(vec![
        (
            "headcount",
            obj(vec![
                ("total", num("120")),
                ("full_time", num("100")),
                ("contractors", num("20")),
                ("by_department", obj(vec![("Engineering", num("50")), ("Sales", num("20"))])),
            ]),
        ),
        ("vacancies", obj(vec![("total", num("7")), ("offers_pending", num("2"))])),
    ])
}

#[test]
fn team_headcount_report() {
    let p = get_team_metrics("headcount", &teams_data()).unwrap();
    assert_eq!(
        text_of(&p),
        "Headcount:\n  Total:       120\n  Full-Time:   100\n  Contractors: 20\n\nBy Department:\n  Engineering: 50\n  Sales:       20\n  Marketing:   0\n  Operations:  0\n  HR:          0\n  Finance:     0\n  Leadership:  0"
    );
}

#[test]
fn team_vacancies_report_and_errors() {
    let p = get_team_metrics("vacancies", &teams_data()).unwrap();
    assert!(text_of(&p).starts_with("Vacancies:\n  Total Open:      7\n  Offers Pending:  2\n  Avg Fill Time:   0 days"));
    assert_eq!(get_team_metrics("payroll", &teams_data()).unwrap_err(), McpServerError::CouldntGetCallArguments);
    let data = obj(vec![("salaries", num("1"))]);
    assert_eq!(get_team_metrics("salaries", &data).unwrap_err(), McpServerError::CouldntGetCallArguments);
}

fn projects_data() -> Json {
    let p = |name: &str, dept: &str, status: &str, pct: &str| {
        obj(vec![
            ("name", st(name)),
            ("department", st(dept)),
            ("status", st(status)),
            ("priority", st("high")),
            ("completion_pct", num(pct)),
            ("deadline", st("2025-01-01")),
        ])
    };
    obj(vec![(
        "projects",
        Json::Array(vec![
            p("Atlas", "Engineering", "in_progress", "40"),
            p("Beacon", "Sales", "blocked", "10"),
            p("Comet", "Engineering", "blocked", "75"),
        ]),
    )])
}

#[test]
fn project_status_by_department() {
    let p = get_project_status(Some("Engineering"), &projects_data()).unwrap();
    assert_eq!(
        text_of(&p),
        "Projects \u{2014} Engineering:\n  [high] Atlas | in_progress | 40% done | Due: 2025-01-01\n  [high] Comet | blocked | 75% done | Due: 2025-01-01\n"
    );
    let all = get_project_status(None, &projects_data()).unwrap();
    assert!(text_of(&all).starts_with("All Projects:\n"));
    assert_eq!(text_of(&all).lines().count(), 4);
}

#[test]
fn project_status_errors() {
    assert_eq!(get_project_status(Some("Legal"), &projects_data()).unwrap_err(), McpServerError::CouldntGetCallArguments);
    assert_eq!(get_project_status(None, &obj(vec![])).unwrap_err(), McpServerError::CouldntFullFilledResponse);
    assert_eq!(
        get_project_status(None, &obj(vec![("projects", Json::Array(vec![]))])).unwrap_err(),
        McpServerError::CouldntGetCallArguments
    );
}

fn inventory() -> InventoryData {
    let c = |name: &str, a: &str| InventoryCategory {
        name: name.to_string(),
        available: a.to_string(),
        in_use: "1".to_string(),
        reserved: "2".to_string(),
        expiring_soon: "null".to_string(),
    };
    InventoryData { last_updated: None, categories: Some(vec![c("laptops", "5"), c("licenses", "40")]) }
}

#[test]
fn inventory_levels_one_or_all() {
    let p = get_inventory_levels(Some("licenses"), &inventory()).unwrap();
    assert_eq!(
        text_of(&p),
        "Inventory Levels (updated: N/A):\n\n  licenses:\n    Available:     40\n    In Use:        1\n    Reserved:      2\n    Expiring Soon: null\n"
    );
    let all = get_inventory_levels(None, &inventory()).unwrap();
    assert!(text_of(&all).contains("laptops:") && text_of(&all).contains("licenses:"));
    assert_eq!(get_inventory_levels(Some("desks"), &inventory()).unwrap_err(), McpServerError::CouldntGetCallArguments);
    let none = InventoryData { last_updated: Some("x".to_string()), categories: None };
    assert_eq!(get_inventory_levels(None, &none).unwrap_err(), McpServerError::CouldntFullFilledResponse);
}

#[test]
fn summary_covers_named_departments() {
    let all = summary_plan(None);
    assert!(all.sales && all.finance && all.customers && all.team && all.product && all.projects);
    let empty: Vec<String> = vec![];
    assert_eq!(summary_plan(Some(&empty)), all);
    let some = vec!["ventas".to_string(), "hr".to_string()];
    let plan = summary_plan(Some(&some));
    assert!(plan.sales && plan.team);
    assert!(!plan.finance && !plan.customers && !plan.product && !plan.projects);
    assert!(eq_ignore_ascii_case("PROYECTOS", "Proyectos"));
}

#[test]
fn summary_sections_without_floats() {
    assert_eq!(team_section(&teams_data()), "\n[Team]\n  Headcount:       120\n  Open Vacancies:  7");
    assert_eq!(projects_section(&projects_data()), "\n[Projects]\n  In Progress:     1\n  Blocked:         2");
    let sections = SummarySections {
        sales: Some("\n[Sales]".to_string()),
        finance: None,
        customers: None,
        team: Some("\n[Team]".to_string()),
        product: None,
        projects: Some("\n[Projects]".to_string()),
    };
    let p = assemble_summary(&sections);
    assert_eq!(text_of(&p), "=== Executive Summary ===\n[Sales]\n[Team]\n[Projects]");
}

#[test]
fn every_byte_is_kept_as_its_character() {
    let bytes: Vec<u8> = (0u8..=255).collect();
    let mut v = Vec::new();
    for b in &bytes {
        push_head_byte(&mut v, *b);
    }
    let expected: String = bytes.iter().map(|b| *b as char).collect();
    assert_eq!(String::from_utf8(v).unwrap(), expected);
}

#[test]
fn active_customers_report() {
    let s = obj(vec![("total", num("300")), ("enterprise", num("40")), ("smb", num("200"))]);
    assert_eq!(
        active_customers_text(&s),
        "Active Customers:\n  Total:              300\n  Enterprise:         40\n  Mid-Market:         0\n  SMB:                200\n  New This Month:     0\n  Churned This Month: 0"
    );
}

#[test]
fn critical_ticket_and_blocked_project_anomalies() {
    let product = obj(vec![("open_tickets", obj(vec![("critical", num("3"))]))]);
    assert_eq!(
        critical_tickets_anomaly(&product).unwrap(),
        "[PRODUCT] 3 critical ticket(s) open \u{2014} immediate attention required"
    );
    let calm = obj(vec![("open_tickets", obj(vec![("critical", num("0"))]))]);
    assert!(critical_tickets_anomaly(&calm).is_none());
    let lines = blocked_project_anomalies(&projects_data());
    assert_eq!(
        lines,
        vec![
            "[PROJECTS] 'Beacon' (Sales) is BLOCKED at 10% completion \u{2014} deadline: 2025-01-01".to_string(),
            "[PROJECTS] 'Comet' (Engineering) is BLOCKED at 75% completion \u{2014} deadline: 2025-01-01".to_string(),
        ]
    );
    assert!(blocked_project_anomalies(&obj(vec![])).is_empty());
}

#[test]
fn json_reads_as_serde_json_does() {
    let v = obj(vec![("a", num("18446744073709551615")), ("b", num("-1")), ("c", num("1.5")), ("d", st("x"))]);
    assert_eq!(v.get("a").unwrap().as_u64(), Some(u64::MAX));
    assert_eq!(v.get("b").unwrap().as_u64(), None);
    assert_eq!(v.get("c").unwrap().as_u64(), None);
    assert_eq!(v.get("d").unwrap().as_str(), Some("x"));
    assert!(v.get("e").is_none());
    assert!(st("x").get("a").is_none());
    assert!(Json::Null.is_null());
    assert_eq!(Json::Bool(true).as_bool(), Some(true));
}

#[test]
fn tools_call_without_tool_name_is_invalid_params() {
    let payload = payload_with_id(num("9"));
    let params = MCPCallparams { name: None, arguments: None };
    let r = reply_of(McpServer::handle_response(&payload, Ok(request(Some("tools/call"), Some(params))))).unwrap();
    assert_eq!(r.id, Some(9));
    assert!(r.result.is_none());
    let e = r.error.unwrap();
    assert_eq!(e.code, -32602);
    assert_eq!(e.message, "unknown tool name");
    let notification = obj(vec![("jsonrpc", st("2.0")), ("method", st("tools/call"))]);
    let params = MCPCallparams { name: None, arguments: None };
    assert!(reply_of(McpServer::handle_response(&notification, Ok(request(Some("tools/call"), Some(params))))).is_none());
}

#[test]
fn report_selection_of_float_reports() {
    let finance = obj(vec![("cash_flow", obj(vec![])), ("expenses", obj(vec![])), ("audit", num("1"))]);
    let choices = ["cash_flow", "expenses", "profit_margin", "budget_vs_actual"];
    assert_eq!(select_report("expenses", &finance, &choices), Ok(1));
    assert_eq!(select_report("profit_margin", &finance, &choices), Err(McpServerError::CouldntGetCallArguments));
    assert_eq!(select_report("audit", &finance, &choices), Err(McpServerError::CouldntGetCallArguments));
    let sales = obj(vec![("metrics", obj(vec![("month", obj(vec![("current", obj(vec![]))]))]))]);
    assert_eq!(check_sales_period("month", &sales), Ok(()));
    assert_eq!(check_sales_period("year", &sales), Err(McpServerError::CouldntGetCallArguments));
    let products = obj(vec![("products", Json::Array(vec![num("1"), num("2"), num("3")]))]);
    assert_eq!(top_products_count(5, &products), Ok(3));
    assert_eq!(top_products_count(2, &products), Ok(2));
    assert_eq!(top_products_count(2, &obj(vec![])), Err(McpServerError::CouldntFullFilledResponse));
}

#[test]
fn anomaly_report_order_and_empty_note() {
    let none = AnomalyFindings { sales: None, finance: None, customers: None, uptime: None };
    let calm = obj(vec![("open_tickets", obj(vec![("critical", num("0"))]))]);
    let p = get_anomalies(none, &calm, &obj(vec![]), "20");
    assert_eq!(text_of(&p), "No anomalies detected above 20% threshold. All metrics within normal range.");
    let findings = AnomalyFindings {
        sales: Some("[SALES] s".to_string()),
        finance: None,
        customers: Some("[CUSTOMERS] c".to_string()),
        uptime: Some("[PRODUCT] Uptime u".to_string()),
    };
    let product = obj(vec![("open_tickets", obj(vec![("critical", num("2"))]))]);
    let p = get_anomalies(findings, &product, &projects_data(), "15");
    assert_eq!(
        text_of(&p),
        "Anomalies detected (threshold: 15%):\n\n[SALES] s\n[CUSTOMERS] c\n[PRODUCT] 2 critical ticket(s) open \u{2014} immediate attention required\n[PRODUCT] Uptime u\n[PROJECTS] 'Beacon' (Sales) is BLOCKED at 10% completion \u{2014} deadline: 2025-01-01\n[PROJECTS] 'Comet' (Engineering) is BLOCKED at 75% completion \u{2014} deadline: 2025-01-01"
    );
}
