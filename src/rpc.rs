//! The JSON-RPC client's pure half: the request texts, the arguments of the
//! HTTPS helper process, and the classification of what came back.
use vstd::prelude::*;
use crate::catalog::argument_key_of;
use crate::json::{
    json_accepts, json_node, json_string_literal, member_text, object_text, pair_texts,
    member_of, quote_json, read_node, write_object, JsonNode,
};
use crate::text::{has_infix, joined, texts, contains_text, join_lines};

verus! {

/// What a successful attempt hands back.
pub enum ResponseData {
    /// The `result` member of a JSON-RPC reply, or another JSON document,
    /// as compact JSON text.
    Json(String),
    /// A JSON reply that had neither `result` nor `error`, as received.
    UnexpectedShape(String),
    /// A reply that was not JSON and carried no error signature.
    Plain { tool: String, query: String, response: String },
    /// A tool listing that was not JSON.
    ListingText(String),
}

/// The outcome of one attempt at one tool.
pub enum AttemptOutcome {
    Success(ResponseData),
    /// The server replied with a JSON-RPC error, or with a body that carries
    /// an error signature.
    ProtocolError(String),
    /// No reply came within the deadline, in seconds.
    Timeout(u64),
    /// The helper process failed before a reply was observed.
    Transport(String),
}

/// The request that calls tool `name` with `query`.
pub open spec fn tool_call_body(name: Seq<char>, query: Seq<char>) -> Seq<char> {
    object_text(
        seq![
            ("jsonrpc"@, json_string_literal("2.0"@)),
            ("id"@, "1"@),
            ("method"@, json_string_literal("tools/call"@)),
            (
                "params"@,
                object_text(
                    seq![
                        ("name"@, json_string_literal(name)),
                        (
                            "arguments"@,
                            object_text(seq![(argument_key_of(name), json_string_literal(query))]),
                        ),
                    ],
                ),
            ),
        ],
    )
}

/// The request that lists the tools.
pub open spec fn tool_list_body() -> Seq<char> {
    object_text(
        seq![
            ("jsonrpc"@, json_string_literal("2.0"@)),
            ("id"@, "1"@),
            ("method"@, json_string_literal("tools/list"@)),
            ("params"@, object_text(seq![])),
        ],
    )
}

/// The arguments of the HTTPS helper for one POST of `body` to `url`.
pub open spec fn post_arguments(body: Seq<char>, token: Option<Seq<char>>, url: Seq<char>) -> Seq<
    Seq<char>,
> {
    seq![
        "-s"@,
        "-X"@,
        "POST"@,
        "-H"@,
        "Content-Type: application/json"@,
        "-H"@,
        "Accept: application/json"@,
        "-d"@,
        body,
        "--max-time"@,
        "30"@,
    ] + match token {
        Some(t) => seq!["-H"@, "Authorization: Bearer "@ + t],
        None => seq![],
    } + seq![url]
}

/// A body that is not JSON but reads like a failure.
pub open spec fn error_signature(body: Seq<char>) -> bool {
    has_infix(body, "error"@) || has_infix(body, "Error"@) || has_infix(body, "401"@) || has_infix(
        body,
        "403"@,
    ) || has_infix(body, "Invalid Secret"@) || has_infix(body, "Not allowed"@) || has_infix(
        body,
        "Authentication"@,
    ) || has_infix(body, "Unauthorized"@)
}

/// `r` is the outcome owed for the JSON reply `whole` whose `result`
/// member is `result` and whose `error` member is `error_text`, both as
/// compact JSON text.
pub open spec fn parsed_outcome(
    r: AttemptOutcome,
    result: Option<String>,
    error_text: Option<String>,
    whole: Seq<char>,
) -> bool {
    match result {
        Some(v) => r == AttemptOutcome::Success(ResponseData::Json(v)),
        None => match error_text {
            Some(e) => r matches AttemptOutcome::ProtocolError(m) && m@ == "MCP server error: "@
                + e@,
            None => r matches AttemptOutcome::Success(ResponseData::UnexpectedShape(w)) && w@
                == whole,
        },
    }
}

/// `r` is the outcome owed for a JSON reply `body`.
pub open spec fn json_reply_outcome(r: AttemptOutcome, body: Seq<char>) -> bool {
    parsed_outcome(
        r,
        member_text(json_node(body), "result"@),
        member_text(json_node(body), "error"@),
        body,
    )
}

/// `r` is the outcome owed for a reply `body` that is not JSON.
pub open spec fn unparsed_outcome(
    r: AttemptOutcome,
    tool: Seq<char>,
    query: Seq<char>,
    body: Seq<char>,
) -> bool {
    if error_signature(body) {
        r matches AttemptOutcome::ProtocolError(m) && m@ == "Server error: "@ + body
    } else {
        r matches AttemptOutcome::Success(ResponseData::Plain { tool: t, query: q, response: b })
            && t@ == tool && q@ == query && b@ == body
    }
}

/// The view of an optional string.
pub open spec fn opt_text(o: Option<String>) -> Option<Seq<char>> {
    match o {
        Some(s) => Some(s@),
        None => None,
    }
}

fn member(key: &str, text: String) -> (r: (String, String))
    ensures
        r.0@ == key@,
        r.1 == text,
{
    (String::from_str(key), text)
}

/// The request body that calls tool `name` with `query`.
pub fn tool_call_request(name: &str, query: &str) -> (r: String)
    ensures
        r@ == tool_call_body(name@, query@),
{
    let key = if crate::catalog::same_text(name, "chat") {
        "message"
    } else if crate::catalog::same_text(name, "read_document") {
        "url"
    } else {
        "query"
    };
    let mut arguments: Vec<(String, String)> = Vec::new();
    arguments.push(member(key, quote_json(query)));
    let mut params: Vec<(String, String)> = Vec::new();
    params.push(member("name", quote_json(name)));
    params.push(member("arguments", write_object(&arguments)));
    let mut request: Vec<(String, String)> = Vec::new();
    request.push(member("jsonrpc", quote_json("2.0")));
    request.push(member("id", String::from_str("1")));
    request.push(member("method", quote_json("tools/call")));
    request.push(member("params", write_object(&params)));
    proof {
        assert(pair_texts(arguments@) =~= seq![(argument_key_of(name@), json_string_literal(query@))]);
        assert(pair_texts(params@) =~= seq![
            ("name"@, json_string_literal(name@)),
            ("arguments"@, object_text(seq![(argument_key_of(name@), json_string_literal(query@))])),
        ]);
    }
    let r = write_object(&request);
    assert(pair_texts(request@) =~= seq![
        ("jsonrpc"@, json_string_literal("2.0"@)),
        ("id"@, "1"@),
        ("method"@, json_string_literal("tools/call"@)),
        ("params"@, object_text(pair_texts(params@))),
    ]);
    r
}

/// The request body that lists the tools.
pub fn tool_list_request() -> (r: String)
    ensures
        r@ == tool_list_body(),
{
    let params: Vec<(String, String)> = Vec::new();
    let mut request: Vec<(String, String)> = Vec::new();
    request.push(member("jsonrpc", quote_json("2.0")));
    request.push(member("id", String::from_str("1")));
    request.push(member("method", quote_json("tools/list")));
    request.push(member("params", write_object(&params)));
    assert(pair_texts(params@) =~= seq![]);
    let r = write_object(&request);
    assert(pair_texts(request@) =~= seq![
        ("jsonrpc"@, json_string_literal("2.0"@)),
        ("id"@, "1"@),
        ("method"@, json_string_literal("tools/list"@)),
        ("params"@, object_text(seq![])),
    ]);
    r
}

/// The arguments of the HTTPS helper that POSTs `body` to `url`, with a
/// bearer token when one is configured.
pub fn post_command(body: &str, token: &Option<String>, url: &str) -> (r: Vec<String>)
    ensures
        texts(r@) == post_arguments(body@, opt_text(*token), url@),
{
    let mut v: Vec<String> = Vec::new();
    v.push(String::from_str("-s"));
    v.push(String::from_str("-X"));
    v.push(String::from_str("POST"));
    v.push(String::from_str("-H"));
    v.push(String::from_str("Content-Type: application/json"));
    v.push(String::from_str("-H"));
    v.push(String::from_str("Accept: application/json"));
    v.push(String::from_str("-d"));
    v.push(String::from_str(body));
    v.push(String::from_str("--max-time"));
    v.push(String::from_str("30"));
    match token {
        Some(t) => {
            v.push(String::from_str("-H"));
            v.push(String::from_str("Authorization: Bearer ").concat(t.as_str()));
        },
        None => {},
    }
    v.push(String::from_str(url));
    assert(texts(v@) =~= post_arguments(body@, opt_text(*token), url@));
    v
}

/// Whether a body that is not JSON carries an error signature.
pub fn looks_like_error(body: &str) -> (r: bool)
    ensures
        r == error_signature(body@),
{
    contains_text(body, "error") || contains_text(body, "Error") || contains_text(body, "401")
        || contains_text(body, "403") || contains_text(body, "Invalid Secret") || contains_text(
        body,
        "Not allowed",
    ) || contains_text(body, "Authentication") || contains_text(body, "Unauthorized")
}

/// The outcome of a reply that is not JSON.
pub fn outcome_of_unparsed(tool: &str, query: &str, body: String) -> (r: AttemptOutcome)
    ensures
        unparsed_outcome(r, tool@, query@, body@),
{
    if looks_like_error(body.as_str()) {
        AttemptOutcome::ProtocolError(String::from_str("Server error: ").concat(body.as_str()))
    } else {
        AttemptOutcome::Success(
            ResponseData::Plain {
                tool: String::from_str(tool),
                query: String::from_str(query),
                response: body,
            },
        )
    }
}

/// The outcome of a JSON reply, from the texts of its `result` and `error`
/// members and the reply itself.
pub fn outcome_of_parsed(
    result: Option<String>,
    error_text: Option<String>,
    whole: String,
) -> (r: AttemptOutcome)
    ensures
        parsed_outcome(r, result, error_text, whole@),
{
    match result {
        Some(v) => AttemptOutcome::Success(ResponseData::Json(v)),
        None => match error_text {
            Some(e) => AttemptOutcome::ProtocolError(
                String::from_str("MCP server error: ").concat(e.as_str()),
            ),
            None => AttemptOutcome::Success(ResponseData::UnexpectedShape(whole)),
        },
    }
}

/// The outcome of a JSON reply `body` whose node is `node`.
pub fn outcome_of_reply(node: &JsonNode, body: String) -> (r: AttemptOutcome)
    requires
        *node == json_node(body@),
    ensures
        json_reply_outcome(r, body@),
{
    let result = member_of(node, "result");
    let error_text = member_of(node, "error");
    outcome_of_parsed(result, error_text, body)
}

/// The outcome of one `tools/call`, from the helper's exit status and the
/// lines it wrote to standard output and standard error.
pub fn classify_tool_reply(
    tool: &str,
    query: &str,
    exit_ok: bool,
    stdout_lines: &Vec<String>,
    stderr_lines: &Vec<String>,
) -> (r: AttemptOutcome)
    ensures
        !exit_ok ==> (r matches AttemptOutcome::Transport(m) && m@ == "MCP tool call failed: "@
            + joined(texts(stderr_lines@))),
        exit_ok && !json_accepts(joined(texts(stdout_lines@))) ==> unparsed_outcome(
            r,
            tool@,
            query@,
            joined(texts(stdout_lines@)),
        ),
        exit_ok && json_accepts(joined(texts(stdout_lines@))) ==> json_reply_outcome(
            r,
            joined(texts(stdout_lines@)),
        ),
{
    if !exit_ok {
        let err = join_lines(stderr_lines);
        return AttemptOutcome::Transport(
            String::from_str("MCP tool call failed: ").concat(err.as_str()),
        );
    }
    let body = join_lines(stdout_lines);
    match read_node(body.as_str()) {
        None => outcome_of_unparsed(tool, query, body),
        Some(node) => outcome_of_reply(&node, body),
    }
}

/// A JSON reply with a `result` member succeeds with that member; one with
/// an `error` member and no `result` is a protocol error.
pub proof fn lemma_reply_members_decide(r: AttemptOutcome, body: Seq<char>)
    requires
        json_reply_outcome(r, body),
    ensures
        member_text(json_node(body), "result"@) matches Some(v) ==> r
            == AttemptOutcome::Success(ResponseData::Json(v)),
        member_text(json_node(body), "result"@) is None && member_text(json_node(body), "error"@)
            is Some ==> r is ProtocolError,
{
}

} // verus!
