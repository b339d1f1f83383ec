use glean_mcp_test::rpc::classify_tool_reply;
use glean_mcp_test::{
    AllToolsTestResult, AttemptOutcome, ExecutionSummary, GleanMCPInspector, ResponseData,
    RetryRun, RetryStep, TestAllOptions, TestQueryGenerator, ToolTestResult,
};

fn summary(parallel: bool, timeout: u64) -> ExecutionSummary {
    ExecutionSummary {
        start_time: "2024-01-01T00:00:00+00:00".to_string(),
        end_time: "2024-01-01T00:00:01+00:00".to_string(),
        total_duration_ms: 1234,
        parallel_execution: parallel,
        timeout_settings: timeout,
    }
}

fn ok_payload() -> ResponseData {
    ResponseData::Json("{\"ok\":true}".to_string())
}

fn lines(s: &[&str]) -> Vec<String> {
    s.iter().map(|l| l.to_string()).collect()
}

fn options(selector: &str, parallel: bool) -> TestAllOptions {
    TestAllOptions {
        tools_filter: selector.to_string(),
        scenario: "quick".to_string(),
        parallel,
        max_concurrent: 2,
        timeout: 2,
        verbose: false,
        debug: false,
        format: "text".to_string(),
        retry_attempts: 1,
        retry_backoff_seconds: 1,
    }
}

#[test]
fn success_result_fields() {
    let r = ToolTestResult::new_success("search".to_string(), 15, "q".to_string(), ok_payload());
    assert!(r.success);
    assert!(r.response_data.is_some());
    assert!(r.error_message.is_none());
    assert_eq!(r.validation_details.as_deref(), Some("Response received successfully"));
    assert_eq!(r.response_time_ms, 15);
}

#[test]
fn error_result_fields() {
    let r = ToolTestResult::new_error("chat".to_string(), 7, "q".to_string(), "boom".to_string());
    assert!(!r.success);
    assert!(r.response_data.is_none());
    assert_eq!(r.error_message.as_deref(), Some("boom"));
    assert!(r.validation_details.is_none());
}

#[test]
fn timeout_result_uses_deadline() {
    let r = ToolTestResult::new_timeout("chat".to_string(), 2, "q".to_string());
    assert!(!r.success);
    assert_eq!(r.response_time_ms, 2000);
    assert_eq!(r.error_message.as_deref(), Some("Timeout after 2s"));
    let r = ToolTestResult::new_timeout("chat".to_string(), 60, "q".to_string());
    assert_eq!(r.response_time_ms, 60000);
    assert_eq!(r.error_message.as_deref(), Some("Timeout after 60s"));
}

#[test]
fn results_follow_outcomes() {
    let t = ToolTestResult::from_outcome("a".to_string(), "q".to_string(), AttemptOutcome::Timeout(3), 17);
    assert_eq!(t.response_time_ms, 3000);
    assert_eq!(t.error_message.as_deref(), Some("Timeout after 3s"));
    let p = ToolTestResult::from_outcome(
        "a".to_string(),
        "q".to_string(),
        AttemptOutcome::ProtocolError("bad".to_string()),
        17,
    );
    assert_eq!(p.response_time_ms, 17);
    assert_eq!(p.error_message.as_deref(), Some("bad"));
    let x = ToolTestResult::from_outcome(
        "a".to_string(),
        "q".to_string(),
        AttemptOutcome::Transport("gone".to_string()),
        9,
    );
    assert!(!x.success);
    assert_eq!(x.error_message.as_deref(), Some("gone"));
    let s = ToolTestResult::from_outcome("a".to_string(), "q".to_string(), AttemptOutcome::Success(ok_payload()), 5);
    assert!(s.success && s.response_data.is_some() && s.error_message.is_none());
}

#[test]
fn unexpected_shape_is_noted() {
    let reply = lines(&["{\"jsonrpc\":\"2.0\",\"id\":1}"]);
    let outcome = classify_tool_reply("search", "q", true, &reply, &vec![]);
    let r = ToolTestResult::from_outcome("search".to_string(), "q".to_string(), outcome, 3);
    assert!(r.success);
    assert_eq!(r.validation_details.as_deref(), Some("unexpected shape"));
}

#[test]
fn every_result_succeeds_iff_payload_without_error() {
    let all = vec![
        ToolTestResult::new_success("a".to_string(), 1, "q".to_string(), ok_payload()),
        ToolTestResult::new_error("b".to_string(), 1, "q".to_string(), "e".to_string()),
        ToolTestResult::new_timeout("c".to_string(), 1, "q".to_string()),
    ];
    for r in &all {
        assert_eq!(r.success, r.response_data.is_some() && r.error_message.is_none());
    }
}

#[test]
fn report_tallies() {
    let results = vec![
        ToolTestResult::new_success("a".to_string(), 1, "q".to_string(), ok_payload()),
        ToolTestResult::new_error("b".to_string(), 1, "q".to_string(), "e".to_string()),
        ToolTestResult::new_success("c".to_string(), 1, "q".to_string(), ok_payload()),
    ];
    let r = AllToolsTestResult::from_results(results, summary(false, 60));
    assert_eq!(r.total_tools, 3);
    assert_eq!(r.tool_results.len(), 3);
    assert_eq!(r.successful_tools, 2);
    assert_eq!(r.failed_tools, 1);
    assert!(!r.success);
    assert!(r.error.is_none());
}

#[test]
fn report_keys_results_by_name() {
    let results = vec![
        ToolTestResult::new_error("a".to_string(), 1, "q".to_string(), "e".to_string()),
        ToolTestResult::new_success("b".to_string(), 1, "q".to_string(), ok_payload()),
        ToolTestResult::new_success("a".to_string(), 2, "q".to_string(), ok_payload()),
    ];
    let r = AllToolsTestResult::from_results(results, summary(false, 60));
    assert_eq!(r.total_tools, 2);
    assert_eq!(r.tool_results[0].tool_name, "a");
    assert_eq!(r.tool_results[0].response_time_ms, 2);
    assert_eq!(r.successful_tools, 2);
    assert_eq!(r.failed_tools, 0);
    assert!(r.success);
}

#[test]
fn empty_report_succeeds_vacuously() {
    let r = AllToolsTestResult::from_results(vec![], summary(false, 60));
    assert_eq!(r.total_tools, 0);
    assert!(r.success);
}

#[test]
fn empty_selector_hit_aborts_the_run() {
    let out = lines(&["{\"result\":{\"tools\":[{\"name\":\"search\"},{\"name\":\"chat\"}]}}"]);
    let (found, _) = GleanMCPInspector::extract_tools_from_result(true, &out);
    assert_eq!(found.len(), 2);
    let chosen = GleanMCPInspector::filter_tools(&found, &options("gmail_search", false));
    assert!(chosen.is_empty());
    let r = AllToolsTestResult::no_tools(summary(false, 2));
    assert_eq!(r.total_tools, 0);
    assert_eq!(r.successful_tools, 0);
    assert_eq!(r.error.as_deref(), Some("No tools found to test"));
    assert!(!r.success);
}

#[test]
fn all_success_sweep() {
    let out = lines(&["{\"result\":{\"tools\":[{\"name\":\"search\"},{\"name\":\"chat\"}]}}"]);
    let (found, _) = GleanMCPInspector::extract_tools_from_result(true, &out);
    let chosen = GleanMCPInspector::filter_tools(&found, &options("all", true));
    assert_eq!(chosen.len(), 2);
    let mut results = Vec::new();
    for t in &chosen {
        let query = TestQueryGenerator::generate_test_query(&t.name);
        let mut run = RetryRun::new(1, 1);
        assert!(matches!(run.start(), RetryStep::Attempt));
        let reply = lines(&["{\"jsonrpc\":\"2.0\",\"id\":1,\"result\":{\"ok\":true}}"]);
        let outcome = classify_tool_reply(&t.name, &query, true, &reply, &vec![]);
        match run.record(outcome) {
            RetryStep::Finished(o) => {
                results.push(ToolTestResult::from_outcome(t.name.clone(), query, o, 42))
            }
            _ => panic!("expected the run to finish"),
        }
    }
    let r = AllToolsTestResult::from_results(results, summary(true, 60));
    assert_eq!(r.total_tools, 2);
    assert_eq!(r.successful_tools, 2);
    assert!(r.success);
    for t in &r.tool_results {
        assert!(t.response_data.is_some());
        assert!(t.response_time_ms > 0);
    }
}

#[test]
fn per_tool_timeout() {
    let mut run = RetryRun::new(1, 5);
    assert!(matches!(run.start(), RetryStep::Attempt));
    match run.record(AttemptOutcome::Timeout(2)) {
        RetryStep::Finished(o) => {
            let r = ToolTestResult::from_outcome("search".to_string(), "q".to_string(), o, 2100);
            assert!(!r.success);
            assert_eq!(r.response_time_ms, 2000);
            assert_eq!(r.error_message.as_deref(), Some("Timeout after 2s"));
        }
        _ => panic!("expected the run to finish"),
    }
}

#[test]
fn retry_recovers_after_transport_failure() {
    let mut run = RetryRun::new(2, 1);
    assert!(matches!(run.start(), RetryStep::Attempt));
    let pause = match run.record(AttemptOutcome::Transport("spawn failed".to_string())) {
        RetryStep::SleepThenAttempt(ms) => ms,
        _ => panic!("expected a pause"),
    };
    assert!(pause <= 1000);
    match run.record(AttemptOutcome::Success(ok_payload())) {
        RetryStep::Finished(AttemptOutcome::Success(_)) => {}
        _ => panic!("expected success"),
    }
    assert!(run.slept_ms <= 2000);
}

#[test]
fn retry_gives_up_with_last_failure() {
    let mut run = RetryRun::new(3, 1);
    assert!(matches!(run.start(), RetryStep::Attempt));
    let a = run.record(AttemptOutcome::Transport("one".to_string()));
    let b = run.record(AttemptOutcome::ProtocolError("two".to_string()));
    assert!(matches!(a, RetryStep::SleepThenAttempt(ms) if ms <= 1000));
    assert!(matches!(b, RetryStep::SleepThenAttempt(ms) if ms <= 2000));
    match run.record(AttemptOutcome::ProtocolError("three".to_string())) {
        RetryStep::Finished(AttemptOutcome::ProtocolError(m)) => assert_eq!(m, "three"),
        _ => panic!("expected the last failure"),
    }
    assert!(run.slept_ms <= 3000);
    assert!(run.slept_ms <= 1 * (8 - 2) * 1000);
}

#[test]
fn no_attempts_allowed() {
    let run = RetryRun::new(0, 5);
    match run.start() {
        RetryStep::Finished(AttemptOutcome::Transport(m)) => {
            assert_eq!(m, "All retry attempts failed")
        }
        _ => panic!("expected an immediate end"),
    }
}

#[test]
fn pauses_stay_within_the_schedule() {
    for _ in 0..50 {
        let mut run = RetryRun::new(4, 5);
        let mut total = 0u64;
        for k in 1..4u32 {
            match run.record(AttemptOutcome::Transport("x".to_string())) {
                RetryStep::SleepThenAttempt(ms) => {
                    assert!(ms <= 5 * 1000 * (1u64 << (k - 1)));
                    total += ms;
                }
                _ => panic!("expected a pause"),
            }
        }
        assert!(matches!(
            run.record(AttemptOutcome::Transport("x".to_string())),
            RetryStep::Finished(_)
        ));
        assert_eq!(total, run.slept_ms);
        assert!(total <= 5 * ((1u64 << 4) - 2) * 1000);
    }
}

#[test]
fn selection_or_abort() {
    let found = vec![glean_mcp_test::ToolInfo { name: "search".to_string(), description: None, schema: None }];
    match GleanMCPInspector::select_for_sweep(&found, &options("gmail_search", false), summary(false, 2)) {
        Err(r) => assert_eq!(r.error.as_deref(), Some("No tools found to test")),
        Ok(_) => panic!("expected the run to stop"),
    }
    match GleanMCPInspector::select_for_sweep(&found, &options("search", false), summary(false, 2)) {
        Ok(ts) => assert_eq!(ts.len(), 1),
        Err(_) => panic!("expected a tool"),
    }
}

#[test]
fn failed_results_carry_no_payload() {
    let t = ToolTestResult::from_outcome("a".to_string(), "q".to_string(), AttemptOutcome::Timeout(2), 1);
    assert!(t.response_data.is_none());
    let p = ToolTestResult::from_outcome("a".to_string(), "q".to_string(), AttemptOutcome::Transport("x".to_string()), 1);
    assert!(p.response_data.is_none());
}
