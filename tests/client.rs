use glean_mcp_test::rpc::{classify_tool_reply, tool_call_request, tool_list_request};
use glean_mcp_test::{AttemptOutcome, GleanMCPInspector, ResponseData};

fn lines(s: &[&str]) -> Vec<String> {
    s.iter().map(|l| l.to_string()).collect()
}

#[test]
fn reply_with_result_succeeds_with_result() {
    let out = lines(&["{\"jsonrpc\":\"2.0\",\"id\":1,\"result\":{\"ok\":true}}"]);
    let r = classify_tool_reply("search", "q", true, &out, &vec![]);
    match r {
        AttemptOutcome::Success(ResponseData::Json(v)) => assert_eq!(v, "{\"ok\":true}"),
        _ => panic!("expected success"),
    }
}

#[test]
fn reply_with_error_is_protocol_error() {
    let out = lines(&["{\"jsonrpc\":\"2.0\",\"id\":1,\"error\":{\"code\":-32601}}"]);
    let r = classify_tool_reply("search", "q", true, &out, &vec![]);
    match r {
        AttemptOutcome::ProtocolError(m) => assert_eq!(m, "MCP server error: {\"code\":-32601}"),
        _ => panic!("expected protocol error"),
    }
}

#[test]
fn reply_with_neither_member_is_whole_body() {
    let out = lines(&["{\"jsonrpc\":\"2.0\",\"id\":1}"]);
    let r = classify_tool_reply("search", "q", true, &out, &vec![]);
    match r {
        AttemptOutcome::Success(ResponseData::UnexpectedShape(v)) => {
            assert_eq!(v, "{\"jsonrpc\":\"2.0\",\"id\":1}");
        }
        _ => panic!("expected success"),
    }
}

#[test]
fn unparsed_body_with_signature_is_error() {
    let out = lines(&["<html>", "502 Server Error", "</html>"]);
    let r = classify_tool_reply("search", "q", true, &out, &vec![]);
    match r {
        AttemptOutcome::ProtocolError(m) => {
            assert_eq!(m, "Server error: <html>\n502 Server Error\n</html>")
        }
        _ => panic!("expected protocol error"),
    }
}

#[test]
fn unparsed_body_with_auth_failure_is_error() {
    let r = classify_tool_reply("chat", "q", true, &lines(&["Unauthorized"]), &vec![]);
    assert!(matches!(r, AttemptOutcome::ProtocolError(_)));
    let r = classify_tool_reply("chat", "q", true, &lines(&["got 403"]), &vec![]);
    assert!(matches!(r, AttemptOutcome::ProtocolError(_)));
}

#[test]
fn unparsed_plain_body_is_success() {
    let r = classify_tool_reply("chat", "hello", true, &lines(&["all good"]), &vec![]);
    match r {
        AttemptOutcome::Success(ResponseData::Plain { tool, query, response }) => {
            assert_eq!(tool, "chat");
            assert_eq!(query, "hello");
            assert_eq!(response, "all good");
        }
        _ => panic!("expected plain success"),
    }
}

#[test]
fn helper_failure_is_transport() {
    let r = classify_tool_reply("chat", "q", false, &vec![], &lines(&["curl: (6)", "no host"]));
    match r {
        AttemptOutcome::Transport(m) => assert_eq!(m, "MCP tool call failed: curl: (6)\nno host"),
        _ => panic!("expected transport failure"),
    }
}

#[test]
fn call_request_uses_argument_key() {
    assert_eq!(
        tool_call_request("chat", "hi \"you\""),
        "{\"id\":1,\"jsonrpc\":\"2.0\",\"method\":\"tools/call\",\"params\":{\"arguments\":{\"message\":\"hi \\\"you\\\"\"},\"name\":\"chat\"}}"
    );
    assert_eq!(
        tool_call_request("read_document", "u"),
        "{\"id\":1,\"jsonrpc\":\"2.0\",\"method\":\"tools/call\",\"params\":{\"arguments\":{\"url\":\"u\"},\"name\":\"read_document\"}}"
    );
    assert_eq!(
        tool_call_request("search", "q"),
        "{\"id\":1,\"jsonrpc\":\"2.0\",\"method\":\"tools/call\",\"params\":{\"arguments\":{\"query\":\"q\"},\"name\":\"search\"}}"
    );
}

#[test]
fn list_request_text() {
    assert_eq!(
        tool_list_request(),
        "{\"id\":1,\"jsonrpc\":\"2.0\",\"method\":\"tools/list\",\"params\":{}}"
    );
}

#[test]
fn inspector_url_and_commands() {
    let i = GleanMCPInspector::new(None, None);
    assert_eq!(i.server_url, "https://glean-dev-be.glean.com/mcp/default");
    let j = GleanMCPInspector::new(Some("acme"), Some("tok".to_string()));
    assert_eq!(j.server_url, "https://acme-be.glean.com/mcp/default");
    let args = j.list_tools_command();
    assert_eq!(args.len(), 14);
    assert_eq!(args[8], tool_list_request());
    assert_eq!(args[11], "-H");
    assert_eq!(args[12], "Authorization: Bearer tok");
    assert_eq!(args[13], "https://acme-be.glean.com/mcp/default");
    let plain = i.tool_call_command("search", "q");
    assert_eq!(plain.len(), 12);
    assert_eq!(plain[0], "-s");
    assert_eq!(plain[10], "30");
    assert_eq!(plain[8], tool_call_request("search", "q"));
}

#[test]
fn discovery_reads_result_tools() {
    let out = lines(&[
        "{\"jsonrpc\":\"2.0\",\"id\":1,\"result\":{\"tools\":[{\"name\":\"search\",\"description\":\"S\",\"inputSchema\":{\"type\":\"object\"}},{\"description\":\"nameless\"},{\"name\":\"chat\"}]}}",
    ]);
    let (t, fallback) = GleanMCPInspector::extract_tools_from_result(true, &out);
    assert!(!fallback);
    assert_eq!(t.len(), 2);
    assert_eq!(t[0].name, "search");
    assert_eq!(t[0].description.as_deref(), Some("S"));
    assert_eq!(t[0].schema.as_deref(), Some("{\"type\":\"object\"}"));
    assert_eq!(t[1].name, "chat");
    assert!(t[1].description.is_none());
}

#[test]
fn discovery_reads_top_level_tools_and_arrays() {
    let (t, _) = GleanMCPInspector::extract_tools_from_result(
        true,
        &lines(&["{\"tools\":[{\"name\":\"x\"}]}"]),
    );
    assert_eq!(t.len(), 1);
    assert_eq!(t[0].name, "x");
    let (a, _) = GleanMCPInspector::extract_tools_from_result(true, &lines(&["[{\"name\":\"y\"}]"]));
    assert_eq!(a.len(), 1);
    assert_eq!(a[0].name, "y");
}

#[test]
fn discovery_falls_back_to_catalogue() {
    let (bad, f1) = GleanMCPInspector::extract_tools_from_result(true, &lines(&["not json"]));
    assert_eq!(bad.len(), 10);
    assert!(f1);
    let (failed, f2) = GleanMCPInspector::extract_tools_from_result(false, &vec![]);
    assert_eq!(failed.len(), 10);
    assert!(f2);
    let (empty, f3) = GleanMCPInspector::extract_tools_from_result(
        true,
        &lines(&["{\"result\":{\"tools\":[]}}"]),
    );
    assert_eq!(empty.len(), 10);
    assert_eq!(empty[1].name, "chat");
    assert!(f3);
}

#[test]
fn discovery_skips_nameless_listing_for_catalogue() {
    let (t, fallback) = GleanMCPInspector::extract_tools_from_result(
        true,
        &lines(&["{\"result\":{\"tools\":[{\"name\":3},{\"description\":\"d\"}]}}"]),
    );
    assert!(fallback);
    assert_eq!(t.len(), 10);
    assert_eq!(t[0].name, "search");
}

#[test]
fn result_without_tools_is_not_probed_further() {
    let (t, fallback) = GleanMCPInspector::extract_tools_from_result(
        true,
        &lines(&["{\"result\":{},\"tools\":[{\"name\":\"x\"}]}"]),
    );
    assert!(fallback);
    assert_eq!(t.len(), 10);
}
