use glean_mcp_test::rpc::classify_tool_reply;
use glean_mcp_test::text::{contains_text, decimal_text, indent_lines, seconds_from_millis, trim_text};
use glean_mcp_test::{
    AllToolsTestResult, ExecutionSummary, GleanMCPInspector, ResponseData, ToolTestResult,
};

fn summary(ms: u64) -> ExecutionSummary {
    ExecutionSummary {
        start_time: "s".to_string(),
        end_time: "e".to_string(),
        total_duration_ms: ms,
        parallel_execution: true,
        timeout_settings: 60,
    }
}

#[test]
fn collapse_html_502() {
    assert_eq!(
        GleanMCPInspector::truncate_error_message("<html><body>502 Server Error</body></html>"),
        "Server error (502)"
    );
    assert_eq!(
        GleanMCPInspector::truncate_error_message("<!DOCTYPE html><p>oops</p>"),
        "Server error (HTML response)"
    );
    assert_eq!(GleanMCPInspector::truncate_error_message("500 Server Error"), "Server error (500)");
    assert_eq!(GleanMCPInspector::truncate_error_message("x 503 Server Error"), "Server error (503)");
}

#[test]
fn truncate_long_and_trim_short() {
    let long = "a".repeat(200);
    assert_eq!(GleanMCPInspector::truncate_error_message(&long), "a".repeat(150));
    assert_eq!(GleanMCPInspector::truncate_error_message("  spaced out \n"), "spaced out");
    let exact = "b".repeat(150);
    assert_eq!(GleanMCPInspector::truncate_error_message(&exact), exact);
}

#[test]
fn summary_line() {
    let results = vec![
        ToolTestResult::new_success(
            "a".to_string(),
            1,
            "q".to_string(),
            ResponseData::Json("null".to_string()),
        ),
        ToolTestResult::new_error("b".to_string(), 1, "q".to_string(), "e".to_string()),
        ToolTestResult::new_error("c".to_string(), 1, "q".to_string(), "e".to_string()),
    ];
    let r = AllToolsTestResult::from_results(results, summary(12345));
    assert_eq!(
        r.format_summary(),
        "🧪 Test Summary: 1/3 tools successful (33%)\n⏱️  Total time: 12.35s"
    );
    assert_eq!(r.format_output("summary", false, false), Some(r.format_summary()));
    assert_eq!(r.format_output("json", false, false), None);
}

#[test]
fn summary_of_empty_run() {
    let r = AllToolsTestResult::no_tools(summary(4));
    assert_eq!(r.format_summary(), "🧪 Test Summary: 0/0 tools successful (0%)\n⏱️  Total time: 0.00s");
}

#[test]
fn text_report_collapses_html_502() {
    let body = vec!["<html><head></head>".to_string(), "<body>502 Server Error</body></html>".to_string()];
    let outcome = classify_tool_reply("search", "remote work policy", true, &body, &vec![]);
    let t = ToolTestResult::from_outcome(
        "search".to_string(),
        "remote work policy".to_string(),
        outcome,
        1500,
    );
    let r = AllToolsTestResult::from_results(vec![t], summary(1600));
    let text = r.format_text(true, false);
    assert!(text.contains("    Error: Server error (502)\n"));
    assert!(text.contains("💥 Error Message:\n   Server error (502)\n"));
    assert!(!text.contains("<html>"));
}

#[test]
fn text_report_layout() {
    let ok = ToolTestResult::new_success(
        "search".to_string(),
        1234,
        "q1".to_string(),
        ResponseData::Plain {
            tool: "search".to_string(),
            query: "q1".to_string(),
            response: "hi".to_string(),
        },
    );
    let bad = ToolTestResult::new_error("chat".to_string(), 5, "q2".to_string(), "line1\nline2".to_string());
    let r = AllToolsTestResult::from_results(vec![ok, bad], summary(2000));
    let text = r.format_text(true, true);
    let expected = format!(
        "{}{}{}{}{}{}{}",
        "🧪 Glean MCP Tools Test Results\n==================================================\n📊 Overall Status: ❌ FAILED\n🔧 Tools Tested: 1/2 successful\n📈 Success Rate: 50%\n",
        "\n📋 Individual Tool Results:\n------------------------------\n",
        "  ✅ search (1.23s)\n    Query: \"q1\"\n    Validation: Response received successfully\n    Response Data:\n      {\n        \"query\": \"q1\",\n        \"response\": \"hi\",\n        \"success\": true,\n        \"tool\": \"search\"\n      }\n\n",
        "  ❌ chat (0.01s)\n    Query: \"q2\"\n    Error: line1\nline2\n\n",
        "\n⏱️  Execution Summary:\n--------------------\n   Total time: 2.00s\n   Parallel: Yes\n   Timeout per tool: 60s\n",
        "\n🚨 Detailed Error Reports:\n==================================================\n",
        "\n❌ chat - FAILED\n------------------------------\n🔍 Test Query: \"q2\"\n⏱️  Duration: 0.01s\n💥 Error Message:\n   line1\n   line2\n"
    );
    assert_eq!(text, expected);
}

#[test]
fn text_report_without_failures_or_verbosity() {
    let ok = ToolTestResult::new_success(
        "search".to_string(),
        999,
        "q".to_string(),
        ResponseData::Json("true".to_string()),
    );
    let r = AllToolsTestResult::from_results(vec![ok], summary(0));
    let text = r.format_text(false, false);
    assert!(text.contains("📊 Overall Status: ✅ SUCCESS\n"));
    assert!(text.contains("  ✅ search (1.00s)\n\n⏱️  Execution Summary:"));
    assert!(!text.contains("Detailed Error Reports"));
    assert_eq!(r.format_output("text", false, false), Some(text));
}

#[test]
fn global_error_is_shown() {
    let r = AllToolsTestResult::no_tools(summary(10));
    let text = r.format_text(false, false);
    assert!(text.contains("\n⚠️  Global Error: No tools found to test\n"));
    assert!(!text.contains("Success Rate"));
}

#[test]
fn seconds_with_two_decimals() {
    assert_eq!(seconds_from_millis(0), "0.00");
    assert_eq!(seconds_from_millis(4), "0.00");
    assert_eq!(seconds_from_millis(5), "0.01");
    assert_eq!(seconds_from_millis(1999), "2.00");
    assert_eq!(seconds_from_millis(61234), "61.23");
    assert_eq!(decimal_text(0), "0");
    assert_eq!(decimal_text(1234567890123), "1234567890123");
}

#[test]
fn text_helpers() {
    assert_eq!(trim_text("\t a b \u{3000}"), "a b");
    assert_eq!(trim_text("   "), "");
    assert!(contains_text("abcabd", "abd"));
    assert!(!contains_text("ab", "abc"));
    assert!(contains_text("x", ""));
    assert_eq!(indent_lines("a\nb\n", "> "), "> a\n> b\n");
    assert_eq!(indent_lines("", "> "), "");
    assert_eq!(indent_lines("a\n\nb", "-"), "-a\n-\n-b\n");
}

#[test]
fn debug_mode_shows_pretty_json_payload() {
    let ok = ToolTestResult::new_success(
        "search".to_string(),
        10,
        "q".to_string(),
        ResponseData::Json("{\"ok\":true}".to_string()),
    );
    let r = AllToolsTestResult::from_results(vec![ok], summary(0));
    let text = r.format_text(true, true);
    assert!(text.contains("    Response Data:\n      {\n        \"ok\": true\n      }\n\n"));
    let quiet = r.format_text(true, false);
    assert!(!quiet.contains("Response Data"));
}
