//! The collaborators around the sweep: the reachability probe, the single
//! tool call, and the raw tool listing, each judged from what the HTTPS
//! helper returned.
use vstd::prelude::*;
use crate::inspector::{default_catalogue, GleanMCPInspector};
use crate::json::{
    array_items, json_accepts, json_node, member_text, node_of, string_member, items_of, member_of,
    read_node, string_member_of,
};
use crate::rpc::{json_reply_outcome, opt_text, outcome_of_reply, AttemptOutcome, ResponseData};
use crate::text::{has_infix, joined, texts, chars_of, contains_text, join_lines};

verus! {

/// What a validation, a single tool call or a listing found.
pub struct InspectorResult {
    pub success: bool,
    /// Each tool judged, with whether it passed.
    pub tool_results: Option<Vec<(String, bool)>>,
    pub inspector_data: Option<ResponseData>,
    pub error: Option<String>,
}

impl InspectorResult {
    pub fn new_success(tool_results: Vec<(String, bool)>, inspector_data: ResponseData) -> (r: Self)
        ensures
            r.success,
            r.tool_results == Some(tool_results),
            r.inspector_data == Some(inspector_data),
            r.error is None,
    {
        InspectorResult {
            success: true,
            tool_results: Some(tool_results),
            inspector_data: Some(inspector_data),
            error: None,
        }
    }

    pub fn new_error(error: String) -> (r: Self)
        ensures
            !r.success,
            r.tool_results is None,
            r.inspector_data is None,
            r.error == Some(error),
    {
        InspectorResult { success: false, tool_results: None, inspector_data: None, error: Some(error) }
    }
}

/// The characters after the last line feed of `s`.
pub open spec fn after_last_line_feed(s: Seq<char>) -> Seq<char>
    decreases s.len(),
{
    if s.len() == 0 {
        s
    } else if s.last() == '\n' {
        seq![]
    } else {
        after_last_line_feed(s.drop_last()).push(s.last())
    }
}

/// The last line of `s`, if it has any line.
pub open spec fn last_line(s: Seq<char>) -> Option<Seq<char>> {
    if s.len() == 0 {
        None
    } else if s.last() == '\n' {
        Some(after_last_line_feed(s.drop_last()))
    } else {
        Some(after_last_line_feed(s))
    }
}

/// How a reachability probe ended: `Ok(authenticated)` when the service is
/// reachable, `Err(message)` when it is not usable.
pub open spec fn probe_verdict(
    r: Result<bool, String>,
    response: Seq<char>,
    has_token: bool,
    exit_ok: bool,
    error_output: Seq<char>,
) -> bool {
    match last_line(response) {
        Some(code) => if code == "401"@ && has_token {
            r matches Err(m) && m@ == "Authentication failed: Invalid or expired token"@
        } else if code == "403"@ {
            r matches Err(m) && m@ == "Access forbidden: Insufficient permissions"@
        } else if code != "401"@ && code != "200"@ && !(code == "202"@ && has_token) && !exit_ok {
            r matches Err(m) && m@ == "HTTP "@ + code + ": "@ + error_output
        } else {
            r == Ok::<bool, String>(has_token && (code == "200"@ || code == "202"@))
        },
        None => if !exit_ok {
            r matches Err(m) && m@ == "Connection failed: "@ + error_output
        } else {
            r == Ok::<bool, String>(false)
        },
    }
}

/// The arguments of the HTTPS helper for the reachability probe of `url`.
pub open spec fn probe_arguments(token: Option<Seq<char>>, url: Seq<char>) -> Seq<Seq<char>> {
    seq![
        "-s"@,
        "-w"@,
        "%{http_code}"@,
        "--max-time"@,
        "10"@,
        "-H"@,
        "Accept: application/json"@,
        "-H"@,
        "User-Agent: glean-mcp-test/0.1.0"@,
    ] + match token {
        Some(t) => seq!["-H"@, "Authorization: Bearer "@ + t],
        None => seq![],
    } + seq![url]
}

/// The last line of `s`.
fn last_line_of(s: &str) -> (r: Option<String>)
    ensures
        match last_line(s@) {
            Some(l) => r matches Some(t) && t@ == l,
            None => r is None,
        },
{
    let cs = chars_of(s);
    let n = cs.len();
    if n == 0 {
        return None;
    }
    let end: usize = if cs[n - 1] == '\n' {
        n - 1
    } else {
        n
    };
    let ghost head = s@.subrange(0, end as int);
    proof {
        if cs[n - 1] == '\n' {
            assert(s@.drop_last() =~= head);
        } else {
            assert(s@ =~= head);
        }
    }
    let mut start: usize = end;
    while start > 0 && cs[start - 1] != '\n'
        invariant
            cs@ == s@,
            n == s@.len(),
            start <= end <= n,
            head == s@.subrange(0, end as int),
            after_last_line_feed(head) == after_last_line_feed(s@.subrange(0, start as int))
                + s@.subrange(start as int, end as int),
        decreases start,
    {
        proof {
            let pre = s@.subrange(0, start as int);
            assert(pre.drop_last() =~= s@.subrange(0, start - 1));
            assert(s@.subrange(start - 1, end as int) =~= seq![pre.last()] + s@.subrange(
                start as int,
                end as int,
            ));
        }
        start = start - 1;
    }
    proof {
        let pre = s@.subrange(0, start as int);
        if start > 0 {
            assert(pre.last() == '\n');
        }
        assert(after_last_line_feed(pre) =~= seq![]);
        assert(after_last_line_feed(head) =~= s@.subrange(start as int, end as int));
    }
    Some(String::from_str(s.substring_char(start, end)))
}

impl GleanMCPInspector {
    /// The helper arguments of the reachability probe: a GET that writes the
    /// HTTP status code after the body.
    pub fn probe_command(&self) -> (r: Vec<String>)
        ensures
            texts(r@) == probe_arguments(opt_text(self.auth_token), self.server_url@),
    {
        let mut v: Vec<String> = Vec::new();
        v.push(String::from_str("-s"));
        v.push(String::from_str("-w"));
        v.push(String::from_str("%{http_code}"));
        v.push(String::from_str("--max-time"));
        v.push(String::from_str("10"));
        v.push(String::from_str("-H"));
        v.push(String::from_str("Accept: application/json"));
        v.push(String::from_str("-H"));
        v.push(String::from_str("User-Agent: glean-mcp-test/0.1.0"));
        match &self.auth_token {
            Some(t) => {
                v.push(String::from_str("-H"));
                v.push(String::from_str("Authorization: Bearer ").concat(t.as_str()));
            },
            None => {},
        }
        v.push(self.server_url.clone());
        assert(texts(v@) =~= probe_arguments(opt_text(self.auth_token), self.server_url@));
        v
    }

    /// Judges a reachability probe from what the helper wrote (the body,
    /// then the status code on the last line), whether a token was sent,
    /// the helper's exit status, and its error output. A `401` without a
    /// token is a healthy, protected service.
    pub fn connectivity_verdict(
        response: &str,
        has_token: bool,
        exit_ok: bool,
        error_output: &str,
    ) -> (r: Result<bool, String>)
        ensures
            probe_verdict(r, response@, has_token, exit_ok, error_output@),
    {
        proof {
            reveal_strlit("401");
            reveal_strlit("403");
            reveal_strlit("200");
            reveal_strlit("202");
        }
        match last_line_of(response) {
            Some(code) => {
                let c = code.as_str();
                let is401 = crate::catalog::same_text(c, "401");
                let is403 = crate::catalog::same_text(c, "403");
                let is200 = crate::catalog::same_text(c, "200");
                let is202 = crate::catalog::same_text(c, "202");
                if is401 && has_token {
                    Err(String::from_str("Authentication failed: Invalid or expired token"))
                } else if is403 {
                    Err(String::from_str("Access forbidden: Insufficient permissions"))
                } else if !is401 && !is200 && !(is202 && has_token) && !exit_ok {
                    let mut m = String::from_str("HTTP ");
                    m.append(c);
                    m.append(": ");
                    m.append(error_output);
                    Err(m)
                } else {
                    Ok(has_token && (is200 || is202))
                }
            },
            None => {
                if !exit_ok {
                    Err(String::from_str("Connection failed: ").concat(error_output))
                } else {
                    Ok(false)
                }
            },
        }
    }

    /// The report of one direct tool call, from the helper's exit status
    /// and output: the call's payload when it succeeded, else why it did not.
    pub fn tool_call_report(
        tool_name: &str,
        query: &str,
        exit_ok: bool,
        stdout_lines: &Vec<String>,
        stderr_lines: &Vec<String>,
    ) -> (r: InspectorResult)
        ensures
            !exit_ok ==> (!r.success && (r.error matches Some(m) && m@ == "MCP tool call failed: "@
                + joined(texts(stderr_lines@)))),
            exit_ok && !json_accepts(joined(texts(stdout_lines@))) ==> if call_error_signature(
                joined(texts(stdout_lines@)),
            ) {
                !r.success && (r.error matches Some(m) && m@ == "Server error: "@ + joined(
                    texts(stdout_lines@),
                ))
            } else {
                r.success && (r.inspector_data matches Some(ResponseData::Plain { tool, query: q, response })
                    && tool@ == tool_name@ && q@ == query@ && response@ == joined(
                    texts(stdout_lines@),
                ))
            },
            exit_ok && json_accepts(joined(texts(stdout_lines@))) ==> exists|o: AttemptOutcome|
                json_reply_outcome(o, joined(texts(stdout_lines@))) && reports(r, o),
            r.success ==> (r.tool_results matches Some(v) && v@.len() == 1 && v@[0].0@
                == tool_name@ && v@[0].1),
    {
        if !exit_ok {
            let err = join_lines(stderr_lines);
            return InspectorResult::new_error(
                String::from_str("MCP tool call failed: ").concat(err.as_str()),
            );
        }
        let body = join_lines(stdout_lines);
        let outcome = match read_node(body.as_str()) {
            None => {
                if looks_like_call_error(body.as_str()) {
                    AttemptOutcome::ProtocolError(
                        String::from_str("Server error: ").concat(body.as_str()),
                    )
                } else {
                    AttemptOutcome::Success(
                        ResponseData::Plain {
                            tool: String::from_str(tool_name),
                            query: String::from_str(query),
                            response: body,
                        },
                    )
                }
            },
            Some(node) => outcome_of_reply(&node, body),
        };
        let ghost o = outcome;
        let r = match outcome {
            AttemptOutcome::Success(d) => {
                let mut marks: Vec<(String, bool)> = Vec::new();
                marks.push((String::from_str(tool_name), true));
                InspectorResult::new_success(marks, d)
            },
            AttemptOutcome::ProtocolError(m) => InspectorResult::new_error(m),
            AttemptOutcome::Transport(m) => InspectorResult::new_error(m),
            AttemptOutcome::Timeout(_) => InspectorResult::new_error(
                String::from_str("Operation timed out"),
            ),
        };
        assert(reports(r, o));
        r
    }

    /// The report of a raw tool listing, from the helper's exit status and
    /// output.
    pub fn listing_report(exit_ok: bool, stdout_lines: &Vec<String>, stderr_lines: &Vec<String>) -> (r:
        InspectorResult)
        ensures
            !exit_ok ==> (!r.success && (r.error matches Some(m) && m@
                == "MCP Inspector tool listing failed: "@ + joined(texts(stderr_lines@)))),
            exit_ok && json_accepts(joined(texts(stdout_lines@))) ==> (r.success && (
            r.inspector_data matches Some(ResponseData::Json(t)) && t@ == joined(
                texts(stdout_lines@),
            ))),
            exit_ok && !json_accepts(joined(texts(stdout_lines@))) ==> if has_infix(
                joined(texts(stdout_lines@)),
                "error"@,
            ) || has_infix(joined(texts(stdout_lines@)), "Failed"@) {
                !r.success && (r.error matches Some(m) && m@ == "Tool listing error: "@ + joined(
                    texts(stdout_lines@),
                ))
            } else {
                r.success && (r.inspector_data matches Some(ResponseData::ListingText(t)) && t@
                    == joined(texts(stdout_lines@)))
            },
            r.success ==> (r.tool_results matches Some(v) && v@.len() == 1 && v@[0].0@
                == "tools_listed"@ && v@[0].1),
    {
        if !exit_ok {
            let err = join_lines(stderr_lines);
            return InspectorResult::new_error(
                String::from_str("MCP Inspector tool listing failed: ").concat(err.as_str()),
            );
        }
        let body = join_lines(stdout_lines);
        let mut marks: Vec<(String, bool)> = Vec::new();
        marks.push((String::from_str("tools_listed"), true));
        match read_node(body.as_str()) {
            Some(_) => InspectorResult::new_success(marks, ResponseData::Json(body)),
            None => {
                if contains_text(body.as_str(), "error") || contains_text(body.as_str(), "Failed") {
                    InspectorResult::new_error(
                        String::from_str("Tool listing error: ").concat(body.as_str()),
                    )
                } else {
                    InspectorResult::new_success(marks, ResponseData::ListingText(body))
                }
            },
        }
    }
}

/// `r` reports the outcome `o` of a direct tool call.
pub open spec fn reports(r: InspectorResult, o: AttemptOutcome) -> bool {
    match o {
        AttemptOutcome::Success(d) => r.success && r.inspector_data == Some(d),
        AttemptOutcome::ProtocolError(m) => !r.success && r.error == Some(m),
        AttemptOutcome::Transport(m) => !r.success && r.error == Some(m),
        AttemptOutcome::Timeout(_) => !r.success,
    }
}

/// A body of a direct tool call that is not JSON but reads like a failure.
pub open spec fn call_error_signature(body: Seq<char>) -> bool {
    has_infix(body, "error"@) || has_infix(body, "Error"@) || has_infix(body, "401"@) || has_infix(
        body,
        "403"@,
    )
}

fn looks_like_call_error(body: &str) -> (r: bool)
    ensures
        r == call_error_signature(body@),
{
    contains_text(body, "error") || contains_text(body, "Error") || contains_text(body, "401")
        || contains_text(body, "403")
}

/// Whether some listed name is `name`.
pub open spec fn listed(names: Seq<Option<String>>, name: Seq<char>) -> bool {
    exists|i: int| 0 <= i < names.len() && ((#[trigger] names[i]) matches Some(n) && n@ == name)
}

/// Each catalogued tool with whether the listing names it.
pub open spec fn presence(
    marks: Seq<(String, bool)>,
    names: Seq<Option<String>>,
) -> bool {
    &&& marks.len() == default_catalogue().len()
    &&& forall|i: int|
        0 <= i < marks.len() ==> (#[trigger] marks[i]).0@ == default_catalogue()[i].0
            && marks[i].1 == listed(names, default_catalogue()[i].0)
}

/// Whether some name in `names` is `name`.
fn is_listed(names: &Vec<Option<String>>, name: &str) -> (r: bool)
    ensures
        r == listed(names@, name@),
{
    let mut i: usize = 0;
    while i < names.len()
        invariant
            i <= names.len(),
            forall|k: int| 0 <= k < i ==> !((#[trigger] names@[k]) matches Some(n) && n@ == name@),
        decreases names.len() - i,
    {
        match &names[i] {
            Some(n) => {
                if crate::catalog::same_text(n.as_str(), name) {
                    return true;
                }
            },
            None => {},
        }
        i = i + 1;
    }
    false
}

/// Each catalogued tool, in catalogue order, with whether `names` lists it.
pub fn tool_presence(names: &Vec<Option<String>>) -> (r: Vec<(String, bool)>)
    ensures
        presence(r@, names@),
{
    let catalogue = crate::inspector::default_tools();
    let mut marks: Vec<(String, bool)> = Vec::new();
    let mut i: usize = 0;
    while i < catalogue.len()
        invariant
            i <= catalogue.len(),
            crate::inspector::is_default_catalogue(catalogue@),
            marks@.len() == i,
            forall|k: int|
                0 <= k < i ==> (#[trigger] marks@[k]).0@ == default_catalogue()[k].0
                    && marks@[k].1 == listed(names@, default_catalogue()[k].0),
        decreases catalogue.len() - i,
    {
        let name = catalogue[i].name.clone();
        let found = is_listed(names, name.as_str());
        marks.push((name, found));
        i = i + 1;
    }
    marks
}

/// The number of marks that are set.
pub open spec fn marked(marks: Seq<(String, bool)>) -> nat
    decreases marks.len(),
{
    if marks.len() == 0 {
        0
    } else {
        marked(marks.drop_last()) + if marks.last().1 {
            1nat
        } else {
            0nat
        }
    }
}

impl InspectorResult {
    /// The verdict on a listing's names: success when every catalogued tool
    /// is listed, else an error that counts them.
    pub fn from_presence(marks: Vec<(String, bool)>, inspector_data: ResponseData) -> (r: Self)
        requires
            marks@.len() == default_catalogue().len(),
        ensures
            r.tool_results == Some(marks),
            r.inspector_data == Some(inspector_data),
            r.success <==> marked(marks@) == marks@.len(),
            !r.success ==> (r.error matches Some(e) && e@ == "Only "@ + crate::text::decimal(
                marked(marks@),
            ) + "/10 tools validated successfully"@),
            r.success ==> r.error is None,
    {
        let mut count: usize = 0;
        let mut i: usize = 0;
        while i < marks.len()
            invariant
                i <= marks.len(),
                count == marked(marks@.subrange(0, i as int)),
                count <= i,
            decreases marks.len() - i,
        {
            proof {
                assert(marks@.subrange(0, i + 1).drop_last() =~= marks@.subrange(0, i as int));
            }
            if marks[i].1 {
                count = count + 1;
            }
            i = i + 1;
        }
        proof {
            assert(marks@.subrange(0, marks.len() as int) =~= marks@);
        }
        if count == marks.len() {
            InspectorResult::new_success(marks, inspector_data)
        } else {
            let mut e = String::from_str("Only ");
            let c = crate::text::decimal_text(count as u128);
            e.append(c.as_str());
            e.append("/10 tools validated successfully");
            InspectorResult {
                success: false,
                tool_results: Some(marks),
                inspector_data: Some(inspector_data),
                error: Some(e),
            }
        }
    }
}

/// The names that a listing document gives its tools, one per element of
/// its `tools` array, `None` where an element has no string name.
pub open spec fn listing_names(data: Seq<char>) -> Seq<Option<String>> {
    let elements = match node_of(data) {
        Some(n) => match array_items(member_text(n, "tools"@)) {
            Some(es) => es,
            None => seq![],
        },
        None => seq![],
    };
    elements.map_values(|e: String| name_of_element(e@))
}

pub open spec fn name_of_element(e: Seq<char>) -> Option<String> {
    match node_of(e) {
        Some(n) => string_member(n, "name"@),
        None => None,
    }
}

impl GleanMCPInspector {
    /// Checks that a listing document, given as JSON text, names every
    /// catalogued tool.
    pub fn validate_glean_tools(inspector_data: &str) -> (r: InspectorResult)
        ensures
            r.tool_results matches Some(marks) && presence(marks@, listing_names(inspector_data@)),
            r.success <==> (forall|i: int|
                0 <= i < default_catalogue().len() ==> listed(
                    listing_names(inspector_data@),
                    default_catalogue()[i].0,
                )),
            r.inspector_data matches Some(ResponseData::Json(t)) && t@ == inspector_data@,
    {
        let elements = match read_node(inspector_data) {
            Some(n) => match items_of(member_of(&n, "tools")) {
                Some(es) => es,
                None => Vec::new(),
            },
            None => Vec::new(),
        };
        let mut names: Vec<Option<String>> = Vec::new();
        let mut i: usize = 0;
        while i < elements.len()
            invariant
                i <= elements.len(),
                names@ == elements@.subrange(0, i as int).map_values(|e: String| name_of_element(e@)),
            decreases elements.len() - i,
        {
            let name = match read_node(elements[i].as_str()) {
                Some(n) => string_member_of(&n, "name"),
                None => None,
            };
            names.push(name);
            proof {
                assert(names@ =~= elements@.subrange(0, i + 1).map_values(
                    |e: String| name_of_element(e@),
                ));
            }
            i = i + 1;
        }
        assert(elements@.subrange(0, elements.len() as int) =~= elements@);
        assert(names@ =~= listing_names(inspector_data@));
        let marks = tool_presence(&names);
        let ghost m = marks@;
        proof {
            lemma_all_marked(m, names@);
        }
        let r = InspectorResult::from_presence(marks, ResponseData::Json(String::from_str(inspector_data)));
        r
    }
}

proof fn lemma_marked_bounded(marks: Seq<(String, bool)>)
    ensures
        marked(marks) <= marks.len(),
        marked(marks) == marks.len() <==> forall|i: int| 0 <= i < marks.len() ==> (#[trigger] marks[i]).1,
    decreases marks.len(),
{
    if marks.len() > 0 {
        lemma_marked_bounded(marks.drop_last());
        if marked(marks) == marks.len() {
            assert forall|i: int| 0 <= i < marks.len() implies (#[trigger] marks[i]).1 by {
                if i < marks.len() - 1 {
                    assert(marks.drop_last()[i] == marks[i]);
                }
            }
        }
        if forall|i: int| 0 <= i < marks.len() ==> (#[trigger] marks[i]).1 {
            assert forall|i: int| 0 <= i < marks.drop_last().len() implies (#[trigger] marks.drop_last()[i]).1 by {
                assert(marks.drop_last()[i] == marks[i]);
            }
            assert(marks[marks.len() - 1].1);
        }
    }
}

proof fn lemma_all_marked(marks: Seq<(String, bool)>, names: Seq<Option<String>>)
    requires
        presence(marks, names),
    ensures
        marked(marks) == marks.len() <==> forall|i: int|
            0 <= i < default_catalogue().len() ==> listed(names, default_catalogue()[i].0),
{
    lemma_marked_bounded(marks);
    if marked(marks) == marks.len() {
        assert forall|i: int| 0 <= i < default_catalogue().len() implies listed(
            names,
            default_catalogue()[i].0,
        ) by {
            assert(marks[i].1);
        }
    }
    if forall|i: int| 0 <= i < default_catalogue().len() ==> listed(names, default_catalogue()[i].0) {
        assert forall|i: int| 0 <= i < marks.len() implies (#[trigger] marks[i]).1 by {
            assert(listed(names, default_catalogue()[i].0));
        }
    }
}

} // verus!
