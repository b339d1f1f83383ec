use glean_mcp_test::host::sweep_details;
use glean_mcp_test::{
    create_host_controller, GleanConfig, GleanMCPInspector, GleanMcpError, HostCliController,
    HostOperationResult, ResponseData,
};

#[test]
fn host_results() {
    let s = HostOperationResult::new_success("assistant", "list", "ok");
    assert!(s.success && s.error.is_none() && s.details == "ok");
    let e = HostOperationResult::new_error("assistant", "list", "bad");
    assert!(!e.success && e.details.is_empty());
    assert_eq!(e.error.as_deref(), Some("bad"));
    let d = e.with_duration(std::time::Duration::from_millis(5));
    assert_eq!(d.duration, Some(std::time::Duration::from_millis(5)));
    assert_eq!(d.operation, "list");
}

#[test]
fn controller_paths() {
    assert_eq!(HostCliController::new("assistant", "asst", None).cli_path(), "asst");
    let c = HostCliController::new("assistant", "asst", Some("/x/asst".to_string()));
    assert_eq!(c.cli_path(), "/x/asst");
    assert_eq!(c.host_name(), "assistant");
    assert_eq!(HostCliController::with_path("h", "/y".to_string()).cli_path(), "/y");
    let c = HostCliController::candidate_paths("/home/u", "asst");
    assert_eq!(c[0], "/home/u/.asst/local/asst");
    assert_eq!(c[3], "asst");
    assert_eq!(c.len(), 4);
    let found = HostCliController::first_existing(&c, &vec![false, true, true, false]);
    assert_eq!(found.as_deref(), Some("/usr/local/bin/asst"));
    assert_eq!(HostCliController::first_existing(&c, &vec![false; 4]), None);
}

#[test]
fn unsupported_host() {
    match create_host_controller("cursor", "assistant", "asst", None) {
        Err(GleanMcpError::Host(m)) => {
            assert_eq!(m, "Unsupported host application: 'cursor'. Supported hosts: assistant")
        }
        _ => panic!("expected an error"),
    }
    assert!(create_host_controller("assistant", "assistant", "asst", None).is_ok());
}

#[test]
fn tool_through_host() {
    let h = HostCliController::new("assistant", "asst", None);
    let ok = HostCliController::execute_glean_tool("glean_default: ok", "glean_default", "chat", "hi");
    assert_eq!(
        ok.as_ref().ok().map(|s| s.as_str()),
        Some("Simulated execution of 'chat' tool with query 'hi' on server 'glean_default'")
    );
    let missing = HostCliController::execute_glean_tool("other", "glean_default", "chat", "hi");
    let r = h.tool_test_result("chat", missing);
    assert!(!r.success);
    assert_eq!(r.host, "assistant");
    assert_eq!(
        r.error.as_deref(),
        Some("Tool 'chat' failed: Host application error: MCP server 'glean_default' not found. Available servers: other")
    );
    let good = h.tool_test_result("chat", ok);
    assert!(good.success);
}

#[test]
fn server_listing_and_details() {
    let h = HostCliController::new("assistant", "asst", None);
    let l = h.server_listing(true, &vec!["a".to_string(), "b".to_string()], &vec![]);
    assert_eq!(l.ok().as_deref(), Some("a\nb"));
    let f = h.server_listing(false, &vec![], &vec!["nope".to_string()]);
    let r = h.operation_result("list_mcp_servers", "MCP servers: ", f);
    assert_eq!(r.error.as_deref(), Some("Host application error: asst mcp list failed: nope"));
    let d = sweep_details(&vec![("glean_search".to_string(), true), ("chat".to_string(), false)]);
    assert_eq!(d, "Tested 2 Glean tools, 1 successful:\nglean_search: ✅\nchat: ❌");
    assert_eq!(HostCliController::sample_tools().len(), 3);
}

#[test]
fn token_masking() {
    assert_eq!(glean_mcp_test::inspector::mask_token("abcdefghijkl"), "abcd...ijkl");
    assert_eq!(glean_mcp_test::inspector::mask_token("short"), "***");
    assert_eq!(glean_mcp_test::inspector::mask_token("12345678"), "***");
}

#[test]
fn error_messages() {
    assert_eq!(GleanMcpError::Process("x".to_string()).message(), "Process error: x");
    assert_eq!(GleanMcpError::Config("y".to_string()).message(), "Configuration error: y");
    let io = std::io::Error::new(std::io::ErrorKind::Other, "disk");
    assert_eq!(GleanMcpError::Io(io).message(), "IO error: disk");
}

#[test]
fn default_config() {
    let c = GleanConfig::default();
    assert_eq!(c.glean_instance.name, "scio-prod");
    assert_eq!(c.host_applications.len(), 2);
    assert_eq!(c.host_applications[1].0, "vscode");
    assert_eq!(c.host_applications[0].1.auth_method, "bridge");
    assert_eq!(c.tools_to_test.enterprise_tools.len(), 6);
}

#[test]
fn connectivity_verdicts() {
    assert_eq!(GleanMCPInspector::connectivity_verdict("{}401", false, true, ""), Ok(false));
    assert_eq!(GleanMCPInspector::connectivity_verdict("body\n401", false, true, ""), Ok(false));
    assert_eq!(
        GleanMCPInspector::connectivity_verdict("401", true, true, ""),
        Err("Authentication failed: Invalid or expired token".to_string())
    );
    assert_eq!(GleanMCPInspector::connectivity_verdict("x\n200", true, true, ""), Ok(true));
    assert_eq!(GleanMCPInspector::connectivity_verdict("x\n202\n", true, true, ""), Ok(true));
    assert_eq!(
        GleanMCPInspector::connectivity_verdict("403", false, true, ""),
        Err("Access forbidden: Insufficient permissions".to_string())
    );
    assert_eq!(
        GleanMCPInspector::connectivity_verdict("000", false, false, "timeout"),
        Err("HTTP 000: timeout".to_string())
    );
    assert_eq!(
        GleanMCPInspector::connectivity_verdict("", false, false, "refused"),
        Err("Connection failed: refused".to_string())
    );
}

#[test]
fn single_tool_call_and_listing_reports() {
    let r = GleanMCPInspector::tool_call_report(
        "search",
        "q",
        true,
        &vec!["{\"result\":[1]}".to_string()],
        &vec![],
    );
    assert!(r.success);
    assert_eq!(r.tool_results, Some(vec![("search".to_string(), true)]));
    let e = GleanMCPInspector::tool_call_report("search", "q", true, &vec!["Error!".to_string()], &vec![]);
    assert_eq!(e.error.as_deref(), Some("Server error: Error!"));
    let l = GleanMCPInspector::listing_report(true, &vec!["plain list".to_string()], &vec![]);
    assert!(matches!(l.inspector_data, Some(ResponseData::ListingText(ref t)) if t == "plain list"));
    let f = GleanMCPInspector::listing_report(true, &vec!["Failed hard".to_string()], &vec![]);
    assert_eq!(f.error.as_deref(), Some("Tool listing error: Failed hard"));
    let p = GleanMCPInspector::new(None, Some("t".to_string())).probe_command();
    assert_eq!(p.len(), 12);
    assert_eq!(p[10], "Authorization: Bearer t");
}

#[test]
fn listing_names_every_catalogued_tool() {
    let all = "{\"tools\":[{\"name\":\"search\"},{\"name\":\"chat\"},{\"name\":\"read_document\"},{\"name\":\"code_search\"},{\"name\":\"employee_search\"},{\"name\":\"gmail_search\"},{\"name\":\"outlook_search\"},{\"name\":\"meeting_lookup\"},{\"name\":\"web_browser\"},{\"name\":\"gemini_web_search\"}]}";
    let r = GleanMCPInspector::validate_glean_tools(all);
    assert!(r.success);
    assert!(r.error.is_none());
    assert_eq!(r.tool_results.as_ref().map(|v| v.len()), Some(10));
    let some = "{\"tools\":[{\"name\":\"chat\"},{\"name\":\"search\"},{\"name\":\"nope\"}]}";
    let r = GleanMCPInspector::validate_glean_tools(some);
    assert!(!r.success);
    assert_eq!(r.error.as_deref(), Some("Only 2/10 tools validated successfully"));
    let marks = r.tool_results.unwrap();
    assert_eq!(marks[0], ("search".to_string(), true));
    assert_eq!(marks[2], ("read_document".to_string(), false));
    let none = GleanMCPInspector::validate_glean_tools("null");
    assert_eq!(none.error.as_deref(), Some("Only 0/10 tools validated successfully"));
}

#[test]
fn json_error_message() {
    let e = serde_json::from_str::<serde_json::Value>("{").unwrap_err();
    let m = GleanMcpError::Json(e).message();
    assert!(m.starts_with("JSON error: EOF"));
}
