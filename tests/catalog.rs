use glean_mcp_test::inspector::default_tools;
use glean_mcp_test::{GleanMCPInspector, TestAllOptions, TestQueryGenerator, ToolInfo};

fn tool(name: &str) -> ToolInfo {
    ToolInfo { name: name.to_string(), description: None, schema: None }
}

fn options(selector: &str) -> TestAllOptions {
    TestAllOptions {
        tools_filter: selector.to_string(),
        scenario: "quick".to_string(),
        parallel: false,
        max_concurrent: 3,
        timeout: 60,
        verbose: false,
        debug: false,
        format: "text".to_string(),
        retry_attempts: 4,
        retry_backoff_seconds: 5,
    }
}

fn names(ts: &[ToolInfo]) -> Vec<String> {
    ts.iter().map(|t| t.name.clone()).collect()
}

#[test]
fn canned_queries_for_known_tools() {
    assert_eq!(TestQueryGenerator::generate_test_query("search"), "remote work policy");
    assert_eq!(
        TestQueryGenerator::generate_test_query("chat"),
        "What are the main benefits of using Glean?"
    );
    assert_eq!(
        TestQueryGenerator::generate_test_query("read_document"),
        "https://help.glean.com/en/articles/6248863-getting-started-with-glean"
    );
    assert_eq!(TestQueryGenerator::generate_test_query("gmail_search"), "from:noreply@glean.com");
    assert_eq!(
        TestQueryGenerator::generate_test_query("gemini_web_search"),
        "latest technology trends"
    );
}

#[test]
fn canned_query_for_unknown_tool() {
    assert_eq!(TestQueryGenerator::generate_test_query("weather"), "test query for weather");
    assert_eq!(TestQueryGenerator::generate_test_query(""), "test query for ");
}

#[test]
fn tool_categories() {
    assert_eq!(TestQueryGenerator::get_tool_category("search"), "core");
    assert_eq!(TestQueryGenerator::get_tool_category("read_document"), "core");
    assert_eq!(TestQueryGenerator::get_tool_category("web_browser"), "enterprise");
    assert_eq!(TestQueryGenerator::get_tool_category("meeting_lookup"), "enterprise");
    assert_eq!(TestQueryGenerator::get_tool_category("glean_search"), "unknown");
    assert_eq!(TestQueryGenerator::get_tool_category("Search"), "unknown");
}

#[test]
fn selector_all_keeps_everything() {
    let d = vec![tool("search"), tool("x"), tool("chat")];
    let r = GleanMCPInspector::filter_tools(&d, &options("all"));
    assert_eq!(names(&r), vec!["search", "x", "chat"]);
}

#[test]
fn selector_core_and_enterprise() {
    let d = vec![tool("search"), tool("code_search"), tool("chat"), tool("other")];
    let core = GleanMCPInspector::filter_tools(&d, &options("core"));
    assert_eq!(names(&core), vec!["search", "chat"]);
    let ent = GleanMCPInspector::filter_tools(&d, &options("enterprise"));
    assert_eq!(names(&ent), vec!["code_search"]);
}

#[test]
fn selector_without_hit_gives_nothing() {
    let d = vec![tool("search"), tool("chat")];
    let r = GleanMCPInspector::filter_tools(&d, &options("gmail_search"));
    assert!(r.is_empty());
}

#[test]
fn selector_list_drops_unknown_names() {
    let d = vec![tool("search")];
    let r = GleanMCPInspector::filter_tools(&d, &options("search, does_not_exist"));
    assert_eq!(names(&r), vec!["search"]);
}

#[test]
fn selector_list_keeps_discovery_order() {
    let d = vec![tool("search"), tool("chat"), tool("read_document")];
    let r = GleanMCPInspector::filter_tools(&d, &options(" read_document ,search"));
    assert_eq!(names(&r), vec!["search", "read_document"]);
}

#[test]
fn selecting_twice_selects_the_same() {
    let d = vec![tool("search"), tool("code_search"), tool("chat"), tool("zzz")];
    for sel in ["all", "core", "enterprise", "chat,zzz", "nothing"] {
        let once = GleanMCPInspector::filter_tools(&d, &options(sel));
        let twice = GleanMCPInspector::filter_tools(&once, &options(sel));
        assert_eq!(names(&once), names(&twice));
    }
}

#[test]
fn default_catalogue_has_ten_tools() {
    let d = default_tools();
    assert_eq!(d.len(), 10);
    assert_eq!(d[0].name, "search");
    assert_eq!(d[0].description.as_deref(), Some("Search Glean's content index"));
    assert_eq!(d[9].name, "gemini_web_search");
    assert!(d.iter().all(|t| t.schema.is_none()));
}

#[test]
fn duplicate_keeps_fields() {
    let t = ToolInfo {
        name: "search".to_string(),
        description: Some("d".to_string()),
        schema: Some("{\"type\":\"object\"}".to_string()),
    };
    let c = t.duplicate();
    assert_eq!(c.name, "search");
    assert_eq!(c.description, Some("d".to_string()));
    assert_eq!(c.schema, t.schema);
}
