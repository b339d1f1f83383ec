//! The sweep engine's entry points that need the target's address: request
//! commands, discovery, selection of tools, and the collapsing of errors.
use vstd::prelude::*;
use crate::catalog::{category_of, same_text, TestQueryGenerator};
use crate::json::{
    array_items, json_accepts, json_node, member_text, node_of, string_member, items_of, member_of,
    read_node, string_member_of, JsonNode,
};
use crate::report::{AllToolsTestResult, ExecutionSummary};
use crate::rpc::{
    opt_text, post_arguments, post_command, tool_call_body, tool_call_request, tool_list_body,
    tool_list_request,
};
use crate::text::{
    has_infix, joined, pieces, texts, trimmed, contains_text, join_lines, split_trimmed, trim_text,
};

verus! {

/// The longest error text shown before it is cut.
pub const MAX_ERROR_LENGTH: usize = 150;

/// An error message as the report shows it: server failures collapse to a
/// short tag, other texts are cut to `MAX_ERROR_LENGTH` characters and
/// trimmed.
pub open spec fn collapsed_error(e: Seq<char>) -> Seq<char> {
    if has_infix(e, "502 Server Error"@) {
        "Server error (502)"@
    } else if has_infix(e, "500 Server Error"@) {
        "Server error (500)"@
    } else if has_infix(e, "503 Server Error"@) {
        "Server error (503)"@
    } else if has_infix(e, "<html>"@) || has_infix(e, "<!DOCTYPE"@) {
        "Server error (HTML response)"@
    } else if e.len() > MAX_ERROR_LENGTH {
        trimmed(e.subrange(0, MAX_ERROR_LENGTH as int))
    } else {
        trimmed(e)
    }
}

/// A tool that the service advertises.
pub struct ToolInfo {
    pub name: String,
    pub description: Option<String>,
    /// The tool's input schema, as compact JSON text.
    pub schema: Option<String>,
}

/// One element of a tool listing, as read: its `name` and `description`
/// when they are strings, and its `inputSchema`.
pub struct ToolEntry {
    pub name: Option<String>,
    pub description: Option<String>,
    pub schema: Option<String>,
}

/// The settings of one sweep.
pub struct TestAllOptions {
    /// `all`, `core`, `enterprise`, or a comma-separated list of tool names.
    pub tools_filter: String,
    /// An advisory tag; the engine does not read it.
    pub scenario: String,
    pub parallel: bool,
    pub max_concurrent: usize,
    /// The deadline of one attempt, in seconds.
    pub timeout: u64,
    pub verbose: bool,
    pub debug: bool,
    pub format: String,
    /// Attempts per tool, the first one included.
    pub retry_attempts: u32,
    pub retry_backoff_seconds: u64,
}

/// Access to one remote MCP service.
pub struct GleanMCPInspector {
    pub server_url: String,
    pub auth_token: Option<String>,
}

/// The endpoint of a named instance.
pub open spec fn instance_url(instance: Seq<char>) -> Seq<char> {
    "https://"@ + instance + "-be.glean.com/mcp/default"@
}

/// The names that a comma-separated selector lists.
pub open spec fn requested_names(selector: Seq<char>) -> Seq<Seq<char>> {
    pieces(selector, ',').map_values(|p: Seq<char>| trimmed(p))
}

/// Whether `selector` selects the tool called `name`.
pub open spec fn selects(selector: Seq<char>, name: Seq<char>) -> bool {
    if selector == "all"@ {
        true
    } else if selector == "core"@ {
        category_of(name) == "core"@
    } else if selector == "enterprise"@ {
        category_of(name) == "enterprise"@
    } else {
        requested_names(selector).contains(name)
    }
}

/// The tools of `ts` that `selector` selects, in order.
pub open spec fn select_tools(ts: Seq<ToolInfo>, selector: Seq<char>) -> Seq<ToolInfo>
    decreases ts.len(),
{
    if ts.len() == 0 {
        seq![]
    } else {
        select_tools(ts.drop_last(), selector) + if selects(selector, ts.last().name@) {
            seq![ts.last()]
        } else {
            seq![]
        }
    }
}

/// The built-in catalogue: each known tool's name and short description.
pub open spec fn default_catalogue() -> Seq<(Seq<char>, Seq<char>)> {
    seq![
        ("search"@, "Search Glean's content index"@),
        ("chat"@, "Interact with Glean's AI assistant"@),
        ("read_document"@, "Read documents by ID/URL"@),
        ("code_search"@, "Search code repositories"@),
        ("employee_search"@, "Search people directory"@),
        ("gmail_search"@, "Search Gmail messages"@),
        ("outlook_search"@, "Search Outlook messages"@),
        ("meeting_lookup"@, "Find meeting information"@),
        ("web_browser"@, "Web browsing capability"@),
        ("gemini_web_search"@, "Web search capability"@),
    ]
}

/// `ts` is the built-in catalogue, without schemas.
pub open spec fn is_default_catalogue(ts: Seq<ToolInfo>) -> bool {
    &&& ts.len() == default_catalogue().len()
    &&& forall|i: int|
        0 <= i < ts.len() ==> {
            &&& (#[trigger] ts[i]).name@ == default_catalogue()[i].0
            &&& ts[i].description matches Some(d) && d@ == default_catalogue()[i].1
            &&& ts[i].schema is None
        }
}

/// The entries that carry a name, as tools, in order.
pub open spec fn named_entries(es: Seq<ToolEntry>) -> Seq<ToolInfo>
    decreases es.len(),
{
    if es.len() == 0 {
        seq![]
    } else {
        named_entries(es.drop_last()) + match es.last().name {
            Some(n) => seq![
                ToolInfo {
                    name: n,
                    description: es.last().description,
                    schema: es.last().schema,
                },
            ],
            None => seq![],
        }
    }
}

/// The tools a listing yields: its named entries, or the built-in catalogue
/// when there are none.
pub open spec fn listed_tools(r: Seq<ToolInfo>, es: Seq<ToolEntry>) -> bool {
    if named_entries(es).len() > 0 {
        r == named_entries(es)
    } else {
        is_default_catalogue(r)
    }
}

/// A copy of an optional string.
fn copy_text(o: &Option<String>) -> (r: Option<String>)
    ensures
        r == *o,
{
    match o {
        Some(t) => Some(t.clone()),
        None => None,
    }
}

impl ToolInfo {
    /// A copy of this tool.
    pub fn duplicate(&self) -> (r: ToolInfo)
        ensures
            r == *self,
    {
        ToolInfo {
            name: self.name.clone(),
            description: copy_text(&self.description),
            schema: copy_text(&self.schema),
        }
    }
}

fn catalogue_entry(name: &str, description: &str) -> (r: ToolInfo)
    ensures
        r.name@ == name@,
        r.description matches Some(d) && d@ == description@,
        r.schema is None,
{
    ToolInfo {
        name: String::from_str(name),
        description: Some(String::from_str(description)),
        schema: None,
    }
}

/// The built-in catalogue of tools.
pub fn default_tools() -> (r: Vec<ToolInfo>)
    ensures
        is_default_catalogue(r@),
{
    let mut v: Vec<ToolInfo> = Vec::new();
    v.push(catalogue_entry("search", "Search Glean's content index"));
    v.push(catalogue_entry("chat", "Interact with Glean's AI assistant"));
    v.push(catalogue_entry("read_document", "Read documents by ID/URL"));
    v.push(catalogue_entry("code_search", "Search code repositories"));
    v.push(catalogue_entry("employee_search", "Search people directory"));
    v.push(catalogue_entry("gmail_search", "Search Gmail messages"));
    v.push(catalogue_entry("outlook_search", "Search Outlook messages"));
    v.push(catalogue_entry("meeting_lookup", "Find meeting information"));
    v.push(catalogue_entry("web_browser", "Web browsing capability"));
    v.push(catalogue_entry("gemini_web_search", "Web search capability"));
    v
}

/// The tools that a listing's entries yield, and whether the built-in
/// catalogue stood in for them.
pub fn tools_from_entries(entries: Vec<ToolEntry>) -> (r: (Vec<ToolInfo>, bool))
    ensures
        listed_tools(r.0@, entries@),
        r.1 <==> named_entries(entries@).len() == 0,
        r.0@.len() > 0,
{
    let ghost all = entries@;
    let count_in: usize = entries.len();
    let mut rest = entries;
    let mut tools: Vec<ToolInfo> = Vec::new();
    let mut k: usize = 0;
    while rest.len() > 0
        invariant
            k + rest.len() == all.len(),
            all.len() == count_in,
            rest@ == all.subrange(k as int, all.len() as int),
            tools@ == named_entries(all.subrange(0, k as int)),
        decreases rest.len(),
    {
        let e = rest.remove(0);
        proof {
            assert(all.subrange(0, k + 1).drop_last() =~= all.subrange(0, k as int));
            assert(all.subrange(0, k + 1).last() == e);
            assert(rest@ =~= all.subrange(k + 1, all.len() as int));
        }
        match e.name {
            Some(n) => {
                tools.push(ToolInfo { name: n, description: e.description, schema: e.schema });
                assert(tools@ =~= named_entries(all.subrange(0, k + 1)));
            },
            None => {
                assert(tools@ =~= named_entries(all.subrange(0, k + 1)));
            },
        }
        k = k + 1;
    }
    proof {
        assert(all.subrange(0, k as int) =~= all);
    }
    if tools.len() == 0 {
        (default_tools(), true)
    } else {
        (tools, false)
    }
}

/// The elements of a listing reply: those of `result.tools` when the reply
/// has a `result`, else those of `tools`, else the reply's own when it is an
/// array; none when the probed value is not an array.
pub open spec fn listing_elements(reply: JsonNode) -> Seq<String> {
    let found = match member_text(reply, "result"@) {
        Some(res) => match node_of(res@) {
            Some(n) => array_items(member_text(n, "tools"@)),
            None => None,
        },
        None => match member_text(reply, "tools"@) {
            Some(t) => array_items(Some(t)),
            None => match reply {
                JsonNode::Array(a) => Some(a@),
                _ => None,
            },
        },
    };
    match found {
        Some(es) => es,
        None => seq![],
    }
}

/// One element of a listing, read: its `name` and `description` when they
/// are strings, and its `inputSchema`.
pub open spec fn entry_of_element(e: Seq<char>) -> ToolEntry {
    match node_of(e) {
        Some(n) => ToolEntry {
            name: string_member(n, "name"@),
            description: string_member(n, "description"@),
            schema: member_text(n, "inputSchema"@),
        },
        None => ToolEntry { name: None, description: None, schema: None },
    }
}

/// The entries of the elements of a listing.
pub open spec fn listing_entries(reply: JsonNode) -> Seq<ToolEntry> {
    listing_elements(reply).map_values(|e: String| entry_of_element(e@))
}

/// The elements of a listing reply.
fn listed_elements(reply: &JsonNode) -> (r: Vec<String>)
    ensures
        r@ == listing_elements(*reply),
{
    let found = match member_of(reply, "result") {
        Some(res) => match read_node(res.as_str()) {
            Some(n) => items_of(member_of(&n, "tools")),
            None => None,
        },
        None => match member_of(reply, "tools") {
            Some(t) => items_of(Some(t)),
            None => match reply {
                JsonNode::Array(a) => Some(a.clone()),
                _ => None,
            },
        },
    };
    match found {
        Some(es) => es,
        None => Vec::new(),
    }
}

/// One element of a listing, read.
fn read_entry(element: &String) -> (r: ToolEntry)
    ensures
        r == entry_of_element(element@),
{
    match read_node(element.as_str()) {
        Some(n) => ToolEntry {
            name: string_member_of(&n, "name"),
            description: string_member_of(&n, "description"),
            schema: member_of(&n, "inputSchema"),
        },
        None => ToolEntry { name: None, description: None, schema: None },
    }
}

/// Whether `name` is among `names`.
fn names_contain(names: &Vec<String>, name: &String) -> (r: bool)
    ensures
        r == texts(names@).contains(name@),
{
    let mut i: usize = 0;
    while i < names.len()
        invariant
            i <= names.len(),
            forall|k: int| 0 <= k < i ==> names@[k]@ != name@,
        decreases names.len() - i,
    {
        if names[i] == *name {
            assert(texts(names@)[i as int] == name@);
            return true;
        }
        i = i + 1;
    }
    assert(!texts(names@).contains(name@)) by {
        if texts(names@).contains(name@) {
            let k = choose|k: int| 0 <= k < texts(names@).len() && texts(names@)[k] == name@;
            assert(names@[k]@ == name@);
        }
    }
    false
}

proof fn lemma_selected_satisfy(ts: Seq<ToolInfo>, selector: Seq<char>)
    ensures
        forall|i: int|
            0 <= i < select_tools(ts, selector).len() ==> selects(
                selector,
                (#[trigger] select_tools(ts, selector)[i]).name@,
            ),
        select_tools(ts, selector).len() <= ts.len(),
    decreases ts.len(),
{
    if ts.len() > 0 {
        lemma_selected_satisfy(ts.drop_last(), selector);
        let a = select_tools(ts.drop_last(), selector);
        assert forall|i: int|
            0 <= i < select_tools(ts, selector).len() implies selects(
            selector,
            (#[trigger] select_tools(ts, selector)[i]).name@,
        ) by {
            if i < a.len() {
                assert(select_tools(ts, selector)[i] == a[i]);
            }
        }
    }
}

proof fn lemma_select_keeps_selected(ts: Seq<ToolInfo>, selector: Seq<char>)
    requires
        forall|i: int| 0 <= i < ts.len() ==> selects(selector, (#[trigger] ts[i]).name@),
    ensures
        select_tools(ts, selector) == ts,
    decreases ts.len(),
{
    if ts.len() > 0 {
        lemma_select_keeps_selected(ts.drop_last(), selector);
        assert(selects(selector, ts[ts.len() - 1].name@));
        assert(ts.drop_last() + seq![ts.last()] =~= ts);
    }
}

/// Selecting twice with the same selector selects what selecting once does.
pub proof fn lemma_select_idempotent(ts: Seq<ToolInfo>, selector: Seq<char>)
    ensures
        select_tools(select_tools(ts, selector), selector) == select_tools(ts, selector),
{
    lemma_selected_satisfy(ts, selector);
    lemma_select_keeps_selected(select_tools(ts, selector), selector);
}

impl GleanMCPInspector {
    /// An error message shortened for display.
    pub fn truncate_error_message(error: &str) -> (r: String)
        ensures
            r@ == collapsed_error(error@),
    {
        if contains_text(error, "502 Server Error") {
            String::from_str("Server error (502)")
        } else if contains_text(error, "500 Server Error") {
            String::from_str("Server error (500)")
        } else if contains_text(error, "503 Server Error") {
            String::from_str("Server error (503)")
        } else if contains_text(error, "<html>") || contains_text(error, "<!DOCTYPE") {
            String::from_str("Server error (HTML response)")
        } else if error.unicode_len() > MAX_ERROR_LENGTH {
            String::from_str(trim_text(error.substring_char(0, MAX_ERROR_LENGTH)))
        } else {
            String::from_str(trim_text(error))
        }
    }

    /// Access to the instance `instance_name` (by default `glean-dev`),
    /// with a bearer token when one is given.
    pub fn new(instance_name: Option<&str>, auth_token: Option<String>) -> (r: Self)
        ensures
            r.server_url@ == instance_url(
                match instance_name {
                    Some(n) => n@,
                    None => "glean-dev"@,
                },
            ),
            r.auth_token == auth_token,
    {
        let instance = match instance_name {
            Some(n) => n,
            None => "glean-dev",
        };
        let mut url = String::from_str("https://");
        url.append(instance);
        url.append("-be.glean.com/mcp/default");
        GleanMCPInspector { server_url: url, auth_token }
    }

    /// The helper arguments that call tool `tool_name` with `query`.
    pub fn tool_call_command(&self, tool_name: &str, query: &str) -> (r: Vec<String>)
        ensures
            texts(r@) == post_arguments(
                tool_call_body(tool_name@, query@),
                opt_text(self.auth_token),
                self.server_url@,
            ),
    {
        let body = tool_call_request(tool_name, query);
        post_command(body.as_str(), &self.auth_token, self.server_url.as_str())
    }

    /// The helper arguments that list the tools.
    pub fn list_tools_command(&self) -> (r: Vec<String>)
        ensures
            texts(r@) == post_arguments(
                tool_list_body(),
                opt_text(self.auth_token),
                self.server_url@,
            ),
    {
        let body = tool_list_request();
        post_command(body.as_str(), &self.auth_token, self.server_url.as_str())
    }

    /// The tools a `tools/list` reply yields, from the helper's exit status
    /// and standard output, and whether the built-in catalogue stood in for
    /// them because the reply failed, was not JSON, or listed no named tool.
    pub fn extract_tools_from_result(exit_ok: bool, stdout_lines: &Vec<String>) -> (r: (
        Vec<ToolInfo>,
        bool,
    ))
        ensures
            r.0@.len() > 0,
            r.1 ==> is_default_catalogue(r.0@),
            !exit_ok || !json_accepts(joined(texts(stdout_lines@))) ==> r.1,
            exit_ok && json_accepts(joined(texts(stdout_lines@))) ==> {
                let es = listing_entries(json_node(joined(texts(stdout_lines@))));
                listed_tools(r.0@, es) && (r.1 <==> named_entries(es).len() == 0)
            },
    {
        if !exit_ok {
            return (default_tools(), true);
        }
        let body = join_lines(stdout_lines);
        match read_node(body.as_str()) {
            None => (default_tools(), true),
            Some(reply) => {
                let elements = listed_elements(&reply);
                let mut entries: Vec<ToolEntry> = Vec::new();
                let mut i: usize = 0;
                while i < elements.len()
                    invariant
                        i <= elements.len(),
                        entries@ == elements@.subrange(0, i as int).map_values(
                            |e: String| entry_of_element(e@),
                        ),
                    decreases elements.len() - i,
                {
                    let e = read_entry(&elements[i]);
                    let ghost before = entries@;
                    entries.push(e);
                    proof {
                        assert(entries@ =~= elements@.subrange(0, i + 1).map_values(
                            |e: String| entry_of_element(e@),
                        ));
                    }
                    i = i + 1;
                }
                assert(elements@.subrange(0, elements.len() as int) =~= elements@);
                tools_from_entries(entries)
            },
        }
    }

    /// The tools a sweep exercises, or, when the selector selects none of
    /// the available tools, the report of a run that stopped there.
    pub fn select_for_sweep(
        available: &Vec<ToolInfo>,
        options: &TestAllOptions,
        summary: ExecutionSummary,
    ) -> (r: Result<Vec<ToolInfo>, AllToolsTestResult>)
        ensures
            select_tools(available@, options.tools_filter@).len() > 0 ==> (r matches Ok(ts) && ts@
                == select_tools(available@, options.tools_filter@)),
            select_tools(available@, options.tools_filter@).len() == 0 ==> (r matches Err(rep)
                && !rep.success && rep.total_tools == 0 && rep.successful_tools == 0
                && (rep.error matches Some(e) && e@ == "No tools found to test"@)
                && rep.execution_summary == summary),
    {
        let chosen = Self::filter_tools(available, options);
        if chosen.len() == 0 {
            Err(AllToolsTestResult::no_tools(summary))
        } else {
            Ok(chosen)
        }
    }

    /// The tools of `available` that the options' selector selects, in
    /// order; names a list does not match are passed over.
    pub fn filter_tools(available: &Vec<ToolInfo>, options: &TestAllOptions) -> (r: Vec<ToolInfo>)
        ensures
            r@ == select_tools(available@, options.tools_filter@),
    {
        let selector = options.tools_filter.as_str();
        let all = same_text(selector, "all");
        let core = same_text(selector, "core");
        let enterprise = same_text(selector, "enterprise");
        let requested = split_trimmed(selector, ',');
        let mut out: Vec<ToolInfo> = Vec::new();
        let mut i: usize = 0;
        while i < available.len()
            invariant
                i <= available.len(),
                all == (selector@ == "all"@),
                core == (selector@ == "core"@),
                enterprise == (selector@ == "enterprise"@),
                selector@ == options.tools_filter@,
                texts(requested@) == requested_names(selector@),
                out@ == select_tools(available@.subrange(0, i as int), selector@),
            decreases available.len() - i,
        {
            let t = &available[i];
            let chosen = if all {
                true
            } else if core {
                same_text(TestQueryGenerator::get_tool_category(t.name.as_str()), "core")
            } else if enterprise {
                same_text(TestQueryGenerator::get_tool_category(t.name.as_str()), "enterprise")
            } else {
                names_contain(&requested, &t.name)
            };
            proof {
                let sub = available@.subrange(0, i + 1);
                assert(sub.drop_last() =~= available@.subrange(0, i as int));
                assert(sub.last() == available@[i as int]);
            }
            if chosen {
                out.push(t.duplicate());
            } else {
                assert(out@ + seq![] =~= out@);
            }
            i = i + 1;
        }
        assert(available@.subrange(0, available.len() as int) =~= available@);
        out
    }
}

/// A token as shown to the operator: its first and last four characters
/// when it is longer than eight, else only stars.
pub open spec fn masked(token: Seq<char>) -> Seq<char> {
    if token.len() > 8 {
        token.subrange(0, 4) + "..."@ + token.subrange(token.len() - 4, token.len() as int)
    } else {
        "***"@
    }
}

/// The token as shown to the operator.
pub fn mask_token(token: &str) -> (r: String)
    ensures
        r@ == masked(token@),
{
    let n = token.unicode_len();
    if n > 8 {
        let mut r = String::from_str(token.substring_char(0, 4));
        r.append("...");
        r.append(token.substring_char(n - 4, n));
        r
    } else {
        String::from_str("***")
    }
}

} // verus!
