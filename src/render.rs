//! The summary and text renderings of a run report.
use vstd::prelude::*;
use crate::inspector::{collapsed_error, GleanMCPInspector};
use crate::json::{json_string_literal, object_text, pair_texts, pretty_json, pretty_json_text, quote_json, write_object};
use crate::report::{AllToolsTestResult, ToolTestResult};
use crate::rpc::ResponseData;
use crate::text::{
    decimal, decimal_text, indent_lines, indented, lines_of, seconds_from_millis, seconds_text,
};

verus! {

/// Whole percent of successes, rounded down; zero for an empty run.
pub open spec fn success_percent(successful: nat, total: nat) -> nat {
    if total > 0 {
        (successful * 100) / total
    } else {
        0
    }
}

/// The two-line summary of a run.
pub open spec fn summary_text(r: AllToolsTestResult) -> Seq<char> {
    "🧪 Test Summary: "@ + decimal(r.successful_tools as nat) + "/"@ + decimal(
        r.total_tools as nat,
    ) + " tools successful ("@ + decimal(
        success_percent(r.successful_tools as nat, r.total_tools as nat),
    ) + "%)\n⏱️  Total time: "@ + seconds_text(r.execution_summary.total_duration_ms as nat)
        + "s"@
}

/// The JSON object that stands for a reply that was not JSON.
pub open spec fn plain_object(tool: Seq<char>, query: Seq<char>, response: Seq<char>) -> Seq<char> {
    object_text(
        seq![
            ("tool"@, json_string_literal(tool)),
            ("query"@, json_string_literal(query)),
            ("response"@, json_string_literal(response)),
            ("success"@, "true"@),
        ],
    )
}

/// The JSON object that stands for a tool listing that was not JSON.
pub open spec fn listing_object(response: Seq<char>) -> Seq<char> {
    object_text(
        seq![
            ("tools_response"@, json_string_literal(response)),
            ("success"@, "true"@),
            ("source"@, json_string_literal("mcp_inspector"@)),
        ],
    )
}

pub open spec fn status_mark(ok: bool) -> Seq<char> {
    if ok {
        "✅"@
    } else {
        "❌"@
    }
}

pub open spec fn rate_line(r: AllToolsTestResult) -> Seq<char> {
    if r.total_tools > 0 {
        "📈 Success Rate: "@ + decimal(
            success_percent(r.successful_tools as nat, r.total_tools as nat),
        ) + "%\n"@
    } else {
        seq![]
    }
}

/// The head of the text report: overall status and tallies.
pub open spec fn text_header(r: AllToolsTestResult) -> Seq<char> {
    "🧪 Glean MCP Tools Test Results\n==================================================\n📊 Overall Status: "@ + (if r.success {
        "✅ SUCCESS"@
    } else {
        "❌ FAILED"@
    }) + "\n🔧 Tools Tested: "@ + decimal(r.successful_tools as nat) + "/"@ + decimal(
        r.total_tools as nat,
    ) + " successful\n"@ + rate_line(r)
}

/// The error or validation line of a tool in verbose mode.
pub open spec fn verbose_detail(t: ToolTestResult) -> Seq<char> {
    if !t.success {
        match t.error_message {
            Some(e) => "    Error: "@ + collapsed_error(e@) + "\n"@,
            None => seq![],
        }
    } else {
        match t.validation_details {
            Some(v) => "    Validation: "@ + v@ + "\n"@,
            None => seq![],
        }
    }
}

/// The payload of a tool in debug mode, rendered as `payload`.
pub open spec fn debug_detail(t: ToolTestResult, debug: bool, payload: Seq<char>) -> Seq<char> {
    if debug && t.response_data is Some {
        "    Response Data:\n"@ + indented(lines_of(payload), "      "@)
    } else {
        seq![]
    }
}

/// One tool's entry in the list of results.
pub open spec fn tool_entry(t: ToolTestResult, verbose: bool, debug: bool, payload: Seq<char>) -> Seq<
    char,
> {
    "  "@ + status_mark(t.success) + " "@ + t.tool_name@ + " ("@ + seconds_text(
        t.response_time_ms as nat,
    ) + "s)\n"@ + if verbose {
        "    Query: \""@ + t.test_query@ + "\"\n"@ + verbose_detail(t) + debug_detail(
            t,
            debug,
            payload,
        ) + "\n"@
    } else {
        seq![]
    }
}

/// The entries of all tools, each with the payload rendering at its index.
pub open spec fn tool_entries(
    ts: Seq<ToolTestResult>,
    verbose: bool,
    debug: bool,
    payloads: Seq<Seq<char>>,
) -> Seq<char>
    decreases ts.len(),
{
    if ts.len() == 0 {
        seq![]
    } else {
        tool_entries(ts.drop_last(), verbose, debug, payloads.subrange(0, ts.len() - 1))
            + tool_entry(ts.last(), verbose, debug, payloads[ts.len() - 1])
    }
}

/// Timing, settings and any top-level error of the run.
pub open spec fn summary_section(r: AllToolsTestResult) -> Seq<char> {
    "\n⏱️  Execution Summary:\n--------------------\n   Total time: "@ + seconds_text(
        r.execution_summary.total_duration_ms as nat,
    ) + "s\n   Parallel: "@ + (if r.execution_summary.parallel_execution {
        "Yes"@
    } else {
        "No"@
    }) + "\n   Timeout per tool: "@ + decimal(r.execution_summary.timeout_settings as nat)
        + "s\n"@ + match r.error {
        Some(e) => "\n⚠️  Global Error: "@ + e@ + "\n"@,
        None => seq![],
    }
}

/// The detailed report of one failed tool.
pub open spec fn failure_entry(t: ToolTestResult) -> Seq<char> {
    "\n❌ "@ + t.tool_name@ + " - FAILED\n------------------------------\n🔍 Test Query: \""@ + t.test_query@
        + "\"\n⏱️  Duration: "@ + seconds_text(t.response_time_ms as nat) + "s\n"@
        + match t.error_message {
        Some(e) => "💥 Error Message:\n"@ + indented(lines_of(collapsed_error(e@)), "   "@),
        None => seq![],
    } + match t.validation_details {
        Some(v) => "🔬 Validation Details:\n"@ + indented(lines_of(v@), "   "@),
        None => seq![],
    }
}

/// The detailed reports of the failed tools among `ts`, in order.
pub open spec fn failure_entries(ts: Seq<ToolTestResult>) -> Seq<char>
    decreases ts.len(),
{
    if ts.len() == 0 {
        seq![]
    } else {
        failure_entries(ts.drop_last()) + if ts.last().success {
            seq![]
        } else {
            failure_entry(ts.last())
        }
    }
}

pub open spec fn any_failed(ts: Seq<ToolTestResult>) -> bool {
    exists|i: int| 0 <= i < ts.len() && !(#[trigger] ts[i]).success
}

/// The section of detailed failure reports, present when a tool failed.
pub open spec fn failure_section(ts: Seq<ToolTestResult>) -> Seq<char> {
    if any_failed(ts) {
        "\n🚨 Detailed Error Reports:\n==================================================\n"@ + failure_entries(ts)
    } else {
        seq![]
    }
}

/// The human-readable report, each tool's payload rendered as the text at
/// its index in `payloads`.
pub open spec fn text_report(
    r: AllToolsTestResult,
    verbose: bool,
    debug: bool,
    payloads: Seq<Seq<char>>,
) -> Seq<char> {
    text_header(r) + "\n📋 Individual Tool Results:\n------------------------------\n"@ + tool_entries(
        r.tool_results@,
        verbose,
        debug,
        payloads,
    ) + summary_section(r) + failure_section(r.tool_results@)
}

/// The JSON text of a payload.
pub open spec fn payload_json(d: ResponseData) -> Seq<char> {
    match d {
        ResponseData::Json(t) => t@,
        ResponseData::UnexpectedShape(t) => t@,
        ResponseData::Plain { tool, query, response } => plain_object(tool@, query@, response@),
        ResponseData::ListingText(response) => listing_object(response@),
    }
}

/// How a tool's payload is shown: its JSON indented; nothing without one.
pub open spec fn rendered_payload(t: ToolTestResult) -> Seq<char> {
    match t.response_data {
        Some(d) => pretty_json_text(payload_json(d)),
        None => seq![],
    }
}

fn percent_text(successful: usize, total: usize) -> (r: String)
    ensures
        r@ == decimal(success_percent(successful as nat, total as nat)),
{
    if total > 0 {
        let p: u128 = (successful as u128) * 100 / (total as u128);
        decimal_text(p)
    } else {
        decimal_text(0)
    }
}

fn rate_line_text(r: &AllToolsTestResult) -> (s: String)
    ensures
        s@ == rate_line(*r),
{
    if r.total_tools > 0 {
        let mut s = String::from_str("📈 Success Rate: ");
        let p = percent_text(r.successful_tools, r.total_tools);
        s.append(p.as_str());
        s.append("%\n");
        s
    } else {
        String::new()
    }
}

fn header_text(r: &AllToolsTestResult) -> (s: String)
    ensures
        s@ == text_header(*r),
{
    let mut s = String::from_str("🧪 Glean MCP Tools Test Results\n==================================================\n📊 Overall Status: ");
    s.append(
        if r.success {
            "✅ SUCCESS"
        } else {
            "❌ FAILED"
        },
    );
    s.append("\n🔧 Tools Tested: ");
    let a = decimal_text(r.successful_tools as u128);
    s.append(a.as_str());
    s.append("/");
    let b = decimal_text(r.total_tools as u128);
    s.append(b.as_str());
    s.append(" successful\n");
    let c = rate_line_text(r);
    s.append(c.as_str());
    s
}

fn verbose_detail_text(t: &ToolTestResult) -> (s: String)
    ensures
        s@ == verbose_detail(*t),
{
    if !t.success {
        match &t.error_message {
            Some(e) => {
                let mut s = String::from_str("    Error: ");
                let c = GleanMCPInspector::truncate_error_message(e.as_str());
                s.append(c.as_str());
                s.append("\n");
                s
            },
            None => String::new(),
        }
    } else {
        match &t.validation_details {
            Some(v) => {
                let mut s = String::from_str("    Validation: ");
                s.append(v.as_str());
                s.append("\n");
                s
            },
            None => String::new(),
        }
    }
}

fn tool_entry_text(t: &ToolTestResult, verbose: bool, debug: bool, payload: &String) -> (s: String)
    ensures
        s@ == tool_entry(*t, verbose, debug, payload@),
{
    let mut s = String::from_str("  ");
    s.append(
        if t.success {
            "✅"
        } else {
            "❌"
        },
    );
    s.append(" ");
    s.append(t.tool_name.as_str());
    s.append(" (");
    let secs = seconds_from_millis(t.response_time_ms);
    s.append(secs.as_str());
    s.append("s)\n");
    let detail = if verbose {
        let mut v = String::from_str("    Query: \"");
        v.append(t.test_query.as_str());
        v.append("\"\n");
        let d = verbose_detail_text(t);
        v.append(d.as_str());
        let dbg = if debug && t.response_data.is_some() {
            let mut x = String::from_str("    Response Data:\n");
            let body = indent_lines(payload.as_str(), "      ");
            x.append(body.as_str());
            x
        } else {
            String::new()
        };
        v.append(dbg.as_str());
        v.append("\n");
        v
    } else {
        String::new()
    };
    s.append(detail.as_str());
    s
}

fn summary_section_text(r: &AllToolsTestResult) -> (s: String)
    ensures
        s@ == summary_section(*r),
{
    let mut s = String::from_str("\n⏱️  Execution Summary:\n--------------------\n   Total time: ");
    let secs = seconds_from_millis(r.execution_summary.total_duration_ms);
    s.append(secs.as_str());
    s.append("s\n   Parallel: ");
    s.append(
        if r.execution_summary.parallel_execution {
            "Yes"
        } else {
            "No"
        },
    );
    s.append("\n   Timeout per tool: ");
    let t = decimal_text(r.execution_summary.timeout_settings as u128);
    s.append(t.as_str());
    s.append("s\n");
    let g = match &r.error {
        Some(e) => {
            let mut g = String::from_str("\n⚠️  Global Error: ");
            g.append(e.as_str());
            g.append("\n");
            g
        },
        None => String::new(),
    };
    s.append(g.as_str());
    s
}

fn failure_entry_text(t: &ToolTestResult) -> (s: String)
    ensures
        s@ == failure_entry(*t),
{
    let mut s = String::from_str("\n❌ ");
    s.append(t.tool_name.as_str());
    s.append(" - FAILED\n------------------------------\n🔍 Test Query: \"");
    s.append(t.test_query.as_str());
    s.append("\"\n⏱️  Duration: ");
    let secs = seconds_from_millis(t.response_time_ms);
    s.append(secs.as_str());
    s.append("s\n");
    let e = match &t.error_message {
        Some(e) => {
            let mut x = String::from_str("💥 Error Message:\n");
            let c = GleanMCPInspector::truncate_error_message(e.as_str());
            let body = indent_lines(c.as_str(), "   ");
            x.append(body.as_str());
            x
        },
        None => String::new(),
    };
    s.append(e.as_str());
    let v = match &t.validation_details {
        Some(v) => {
            let mut x = String::from_str("🔬 Validation Details:\n");
            let body = indent_lines(v.as_str(), "   ");
            x.append(body.as_str());
            x
        },
        None => String::new(),
    };
    s.append(v.as_str());
    s
}

fn member(key: &str, text: String) -> (r: (String, String))
    ensures
        r.0@ == key@,
        r.1 == text,
{
    (String::from_str(key), text)
}

/// The JSON text of a payload.
fn payload_json_text(d: &ResponseData) -> (s: String)
    ensures
        s@ == payload_json(*d),
{
    match d {
        ResponseData::Json(t) => t.clone(),
        ResponseData::UnexpectedShape(t) => t.clone(),
        ResponseData::Plain { tool, query, response } => {
            let mut ms: Vec<(String, String)> = Vec::new();
            ms.push(member("tool", quote_json(tool.as_str())));
            ms.push(member("query", quote_json(query.as_str())));
            ms.push(member("response", quote_json(response.as_str())));
            ms.push(member("success", String::from_str("true")));
            assert(pair_texts(ms@) =~= seq![
                ("tool"@, json_string_literal(tool@)),
                ("query"@, json_string_literal(query@)),
                ("response"@, json_string_literal(response@)),
                ("success"@, "true"@),
            ]);
            write_object(&ms)
        },
        ResponseData::ListingText(response) => {
            let mut ms: Vec<(String, String)> = Vec::new();
            ms.push(member("tools_response", quote_json(response.as_str())));
            ms.push(member("success", String::from_str("true")));
            ms.push(member("source", quote_json("mcp_inspector")));
            assert(pair_texts(ms@) =~= seq![
                ("tools_response"@, json_string_literal(response@)),
                ("success"@, "true"@),
                ("source"@, json_string_literal("mcp_inspector"@)),
            ]);
            write_object(&ms)
        },
    }
}

/// How a tool's payload is shown.
fn payload_text(t: &ToolTestResult) -> (s: String)
    ensures
        s@ == rendered_payload(*t),
{
    match &t.response_data {
        Some(d) => {
            let j = payload_json_text(d);
            pretty_json(j.as_str())
        },
        None => String::new(),
    }
}

impl AllToolsTestResult {
    /// The two-line summary: successes of total with the whole percent, and
    /// the run's time in seconds.
    pub fn format_summary(&self) -> (s: String)
        ensures
            s@ == summary_text(*self),
    {
        let mut s = String::from_str("🧪 Test Summary: ");
        let a = decimal_text(self.successful_tools as u128);
        s.append(a.as_str());
        s.append("/");
        let b = decimal_text(self.total_tools as u128);
        s.append(b.as_str());
        s.append(" tools successful (");
        let p = percent_text(self.successful_tools, self.total_tools);
        s.append(p.as_str());
        s.append("%)\n⏱️  Total time: ");
        let secs = seconds_from_millis(self.execution_summary.total_duration_ms);
        s.append(secs.as_str());
        s.append("s");
        s
    }

    /// The human-readable report, with each tool's payload rendered as the
    /// text at its index in `payloads`.
    pub fn format_text_with(&self, verbose: bool, debug: bool, payloads: &Vec<String>) -> (s:
        String)
        requires
            payloads.len() == self.tool_results.len(),
        ensures
            s@ == text_report(*self, verbose, debug, payloads@.map_values(|p: String| p@)),
    {
        let ghost ps = payloads@.map_values(|p: String| p@);
        let mut s = header_text(self);
        s.append("\n📋 Individual Tool Results:\n------------------------------\n");
        let ts = &self.tool_results;
        let mut entries = String::new();
        let mut i: usize = 0;
        while i < ts.len()
            invariant
                i <= ts.len(),
                payloads.len() == ts.len(),
                ps == payloads@.map_values(|p: String| p@),
                entries@ == tool_entries(ts@.subrange(0, i as int), verbose, debug, ps.subrange(0, i as int)),
            decreases ts.len() - i,
        {
            let e = tool_entry_text(&ts[i], verbose, debug, &payloads[i]);
            entries.append(e.as_str());
            proof {
                let sub = ts@.subrange(0, i + 1);
                assert(sub.drop_last() =~= ts@.subrange(0, i as int));
                assert(ps.subrange(0, i + 1).subrange(0, i as int) =~= ps.subrange(0, i as int));
            }
            i = i + 1;
        }
        proof {
            assert(ts@.subrange(0, ts.len() as int) =~= ts@);
            assert(ps.subrange(0, ts.len() as int) =~= ps);
        }
        s.append(entries.as_str());
        let sum = summary_section_text(self);
        s.append(sum.as_str());
        let mut failures = String::new();
        let mut failed = false;
        let mut j: usize = 0;
        while j < ts.len()
            invariant
                j <= ts.len(),
                failures@ == failure_entries(ts@.subrange(0, j as int)),
                failed == any_failed(ts@.subrange(0, j as int)),
            decreases ts.len() - j,
        {
            let ghost sub = ts@.subrange(0, j + 1);
            proof {
                assert(sub.drop_last() =~= ts@.subrange(0, j as int));
                assert(sub.last() == ts@[j as int]);
            }
            if !ts[j].success {
                let f = failure_entry_text(&ts[j]);
                failures.append(f.as_str());
                failed = true;
                assert(!sub[j as int].success);
            } else {
                assert(failures@ + Seq::<char>::empty() =~= failures@);
                assert(any_failed(sub) == any_failed(ts@.subrange(0, j as int))) by {
                    if any_failed(sub) {
                        let k = choose|k: int| 0 <= k < sub.len() && !(#[trigger] sub[k]).success;
                        assert(k < j);
                        assert(ts@.subrange(0, j as int)[k] == sub[k]);
                    }
                    if any_failed(ts@.subrange(0, j as int)) {
                        let k = choose|k: int|
                            0 <= k < j && !(#[trigger] ts@.subrange(0, j as int)[k]).success;
                        assert(sub[k] == ts@.subrange(0, j as int)[k]);
                    }
                }
            }
            j = j + 1;
        }
        let section = if failed {
            let mut x = String::from_str("\n🚨 Detailed Error Reports:\n==================================================\n");
            x.append(failures.as_str());
            x
        } else {
            String::new()
        };
        s.append(section.as_str());
        s
    }

    /// The human-readable report. Payloads are shown in debug mode as
    /// indented JSON.
    pub fn format_text(&self, verbose: bool, debug: bool) -> (s: String)
        ensures
            s@ == text_report(
                *self,
                verbose,
                debug,
                self.tool_results@.map_values(|t: ToolTestResult| rendered_payload(t)),
            ),
    {
        let ts = &self.tool_results;
        let mut payloads: Vec<String> = Vec::new();
        let mut i: usize = 0;
        while i < ts.len()
            invariant
                i <= ts.len(),
                payloads.len() == i,
                forall|k: int| 0 <= k < i ==> (#[trigger] payloads@[k])@ == rendered_payload(ts@[k]),
            decreases ts.len() - i,
        {
            let p = payload_text(&ts[i]);
            payloads.push(p);
            i = i + 1;
        }
        let s = self.format_text_with(verbose, debug, &payloads);
        assert(payloads@.map_values(|p: String| p@) =~= ts@.map_values(
            |t: ToolTestResult| rendered_payload(t),
        ));
        s
    }

    /// The report in the shape `format` names: `summary`, or the text report
    /// for any other name but `json`. A JSON document of the report is the
    /// caller's to serialise, so `json` gives `None`.
    pub fn format_output(&self, format: &str, verbose: bool, debug: bool) -> (s: Option<String>)
        ensures
            format@ == "json"@ ==> s is None,
            format@ == "summary"@ ==> (s matches Some(t) && t@ == summary_text(*self)),
            format@ != "json"@ && format@ != "summary"@ ==> (s matches Some(t) && t@ == text_report(
                *self,
                verbose,
                debug,
                self.tool_results@.map_values(|t: ToolTestResult| rendered_payload(t)),
            )),
    {
        proof {
            reveal_strlit("json");
            reveal_strlit("summary");
            assert("summary"@.len() != "json"@.len());
        }
        if crate::catalog::same_text(format, "json") {
            None
        } else if crate::catalog::same_text(format, "summary") {
            Some(self.format_summary())
        } else {
            Some(self.format_text(verbose, debug))
        }
    }
}

} // verus!
