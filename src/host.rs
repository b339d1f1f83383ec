//! Host applications that reach the service through their own MCP client,
//! driven through the host's command-line tool.
use vstd::prelude::*;
use crate::error::{GleanMcpError, Result, labelled};
use crate::text::{has_infix, joined, texts, contains_text, decimal, decimal_text, join_lines};

verus! {

/// The result of one operation against a host application.
pub struct HostOperationResult {
    pub success: bool,
    pub host: String,
    pub operation: String,
    pub details: String,
    pub error: Option<String>,
    pub duration: Option<std::time::Duration>,
}

impl HostOperationResult {
    pub fn new_success(host: &str, operation: &str, details: &str) -> (r: Self)
        ensures
            r.success,
            r.host@ == host@,
            r.operation@ == operation@,
            r.details@ == details@,
            r.error is None,
            r.duration is None,
    {
        HostOperationResult {
            success: true,
            host: String::from_str(host),
            operation: String::from_str(operation),
            details: String::from_str(details),
            error: None,
            duration: None,
        }
    }

    pub fn new_error(host: &str, operation: &str, error: &str) -> (r: Self)
        ensures
            !r.success,
            r.host@ == host@,
            r.operation@ == operation@,
            r.details@ == Seq::<char>::empty(),
            r.error matches Some(e) && e@ == error@,
            r.duration is None,
    {
        HostOperationResult {
            success: false,
            host: String::from_str(host),
            operation: String::from_str(operation),
            details: String::new(),
            error: Some(String::from_str(error)),
            duration: None,
        }
    }

    /// The same result, with the time the operation took.
    pub fn with_duration(self, duration: std::time::Duration) -> (r: Self)
        ensures
            r.success == self.success,
            r.host == self.host,
            r.operation == self.operation,
            r.details == self.details,
            r.error == self.error,
            r.duration == Some(duration),
    {
        let mut r = self;
        r.duration = Some(duration);
        r
    }
}

/// Drives a host application through its command-line tool.
pub struct HostCliController {
    host: String,
    cli_path: String,
}

/// The places where the command-line tool `cli` is looked for, in order.
pub open spec fn cli_candidates(home: Seq<char>, cli: Seq<char>) -> Seq<Seq<char>> {
    seq![
        home + "/."@ + cli + "/local/"@ + cli,
        "/usr/local/bin/"@ + cli,
        "/opt/homebrew/bin/"@ + cli,
        cli,
    ]
}

impl HostCliController {
    pub closed spec fn path(&self) -> Seq<char> {
        self.cli_path@
    }

    pub closed spec fn host(&self) -> Seq<char> {
        self.host@
    }

    /// A controller of host `host` for the tool that was located, or for
    /// `cli_name` on the search path when none was.
    pub fn new(host: &str, cli_name: &str, located: Option<String>) -> (r: Self)
        ensures
            r.host() == host@,
            r.path() == match located {
                Some(p) => p@,
                None => cli_name@,
            },
    {
        let cli_path = match located {
            Some(p) => p,
            None => String::from_str(cli_name),
        };
        HostCliController { host: String::from_str(host), cli_path }
    }

    /// A controller of host `host` for the tool at `cli_path`.
    pub fn with_path(host: &str, cli_path: String) -> (r: Self)
        ensures
            r.host() == host@,
            r.path() == cli_path@,
    {
        HostCliController { host: String::from_str(host), cli_path }
    }

    /// The tool this controller runs.
    pub fn cli_path(&self) -> (r: &str)
        ensures
            r@ == self.path(),
    {
        self.cli_path.as_str()
    }

    pub fn host_name(&self) -> (r: &str)
        ensures
            r@ == self.host(),
    {
        self.host.as_str()
    }

    /// The places where the tool `cli_name` is looked for, under the home
    /// directory `home` first.
    pub fn candidate_paths(home: &str, cli_name: &str) -> (r: Vec<String>)
        ensures
            texts(r@) == cli_candidates(home@, cli_name@),
    {
        let mut v: Vec<String> = Vec::new();
        let mut first = String::from_str(home);
        first.append("/.");
        first.append(cli_name);
        first.append("/local/");
        first.append(cli_name);
        v.push(first);
        v.push(String::from_str("/usr/local/bin/").concat(cli_name));
        v.push(String::from_str("/opt/homebrew/bin/").concat(cli_name));
        v.push(String::from_str(cli_name));
        assert(texts(v@) =~= cli_candidates(home@, cli_name@));
        v
    }

    /// The first candidate that exists, if any; `present[i]` tells whether
    /// `candidates[i]` does.
    pub fn first_existing(candidates: &Vec<String>, present: &Vec<bool>) -> (r: Option<String>)
        requires
            candidates.len() == present.len(),
        ensures
            r is None ==> forall|i: int| 0 <= i < present.len() ==> !present@[i],
            r is Some ==> exists|i: int|
                0 <= i < candidates.len() && present@[i] && r == Some(candidates@[i]) && forall|
                    j: int,
                | 0 <= j < i ==> !present@[j],
    {
        let mut i: usize = 0;
        while i < candidates.len()
            invariant
                i <= candidates.len(),
                candidates.len() == present.len(),
                forall|j: int| 0 <= j < i ==> !present@[j],
            decreases candidates.len() - i,
        {
            if present[i] {
                return Some(candidates[i].clone());
            }
            i = i + 1;
        }
        None
    }

    /// The arguments that list the configured MCP servers.
    pub fn list_arguments() -> (r: Vec<String>)
        ensures
            texts(r@) == seq!["mcp"@, "list"@],
    {
        let mut v: Vec<String> = Vec::new();
        v.push(String::from_str("mcp"));
        v.push(String::from_str("list"));
        assert(texts(v@) =~= seq!["mcp"@, "list"@]);
        v
    }

    /// The server listing, from the exit status of `mcp list` and the lines
    /// it wrote.
    pub fn server_listing(&self, exit_ok: bool, stdout_lines: &Vec<String>, stderr_lines: &Vec<String>) -> (r:
        Result<String>)
        ensures
            exit_ok ==> (r matches Ok(s) && s@ == joined(texts(stdout_lines@))),
            !exit_ok ==> (r matches Err(GleanMcpError::Host(m)) && m@ == self.path()
                + " mcp list failed: "@ + joined(texts(stderr_lines@))),
    {
        if exit_ok {
            Ok(join_lines(stdout_lines))
        } else {
            let err = join_lines(stderr_lines);
            let mut m = self.cli_path.clone();
            m.append(" mcp list failed: ");
            m.append(err.as_str());
            Err(GleanMcpError::Host(m))
        }
    }

    /// Runs tool `tool_name` with `query` on server `server_name`, given the
    /// server listing: the server must be listed.
    pub fn execute_glean_tool(
        server_list: &str,
        server_name: &str,
        tool_name: &str,
        query: &str,
    ) -> (r: Result<String>)
        ensures
            has_infix(server_list@, server_name@) ==> (r matches Ok(s) && s@
                == "Simulated execution of '"@ + tool_name@ + "' tool with query '"@ + query@
                + "' on server '"@ + server_name@ + "'"@),
            !has_infix(server_list@, server_name@) ==> (r matches Err(GleanMcpError::Host(m)) && m@
                == "MCP server '"@ + server_name@ + "' not found. Available servers: "@
                + server_list@),
    {
        if !contains_text(server_list, server_name) {
            let mut m = String::from_str("MCP server '");
            m.append(server_name);
            m.append("' not found. Available servers: ");
            m.append(server_list);
            return Err(GleanMcpError::Host(m));
        }
        let mut s = String::from_str("Simulated execution of '");
        s.append(tool_name);
        s.append("' tool with query '");
        s.append(query);
        s.append("' on server '");
        s.append(server_name);
        s.append("'");
        Ok(s)
    }

    /// The result of an operation whose output, on success, is shown after
    /// `prefix`.
    pub fn operation_result(&self, operation: &str, prefix: &str, outcome: Result<String>) -> (r:
        HostOperationResult)
        ensures
            r.host@ == self.host(),
            r.operation@ == operation@,
            r.duration is None,
            match outcome {
                Ok(out) => r.success && r.details@ == prefix@ + out@ && r.error is None,
                Err(e) => !r.success && (r.error matches Some(m) && labelled(e, m@)),
            },
    {
        match outcome {
            Ok(out) => {
                let details = String::from_str(prefix).concat(out.as_str());
                HostOperationResult::new_success(self.host.as_str(), operation, details.as_str())
            },
            Err(e) => {
                let m = e.message();
                HostOperationResult::new_error(self.host.as_str(), operation, m.as_str())
            },
        }
    }

    /// The result of running one tool through the host.
    pub fn tool_test_result(&self, tool_name: &str, outcome: Result<String>) -> (r:
        HostOperationResult)
        ensures
            r.host@ == self.host(),
            r.operation@ == "test_glean_tool"@,
            match outcome {
                Ok(out) => r.success && r.details@ == "Tool '"@ + tool_name@
                    + "' executed successfully: "@ + out@,
                Err(e) => !r.success && exists|m: Seq<char>|
                    labelled(e, m) && (r.error matches Some(t) && t@ == "Tool '"@ + tool_name@
                        + "' failed: "@ + m),
            },
    {
        match outcome {
            Ok(out) => {
                let mut d = String::from_str("Tool '");
                d.append(tool_name);
                d.append("' executed successfully: ");
                d.append(out.as_str());
                HostOperationResult::new_success(self.host.as_str(), "test_glean_tool", d.as_str())
            },
            Err(e) => {
                let m = e.message();
                let mut t = String::from_str("Tool '");
                t.append(tool_name);
                t.append("' failed: ");
                t.append(m.as_str());
                HostOperationResult::new_error(self.host.as_str(), "test_glean_tool", t.as_str())
            },
        }
    }

    /// The core tools exercised through the host, each with its sample query.
    pub fn sample_tools() -> (r: Vec<(String, String)>)
        ensures
            r@.len() == 3,
            r@[0].0@ == "glean_search"@ && r@[0].1@ == "remote work policy"@,
            r@[1].0@ == "chat"@ && r@[1].1@ == "What are the benefits of using Glean?"@,
            r@[2].0@ == "read_document"@ && r@[2].1@ == "https://docs.glean.com"@,
    {
        let mut v: Vec<(String, String)> = Vec::new();
        v.push((String::from_str("glean_search"), String::from_str("remote work policy")));
        v.push((String::from_str("chat"), String::from_str("What are the benefits of using Glean?")));
        v.push((String::from_str("read_document"), String::from_str("https://docs.glean.com")));
        v
    }
}

/// One line per tool: its name and a mark of success.
pub open spec fn tool_marks(rs: Seq<(Seq<char>, bool)>) -> Seq<Seq<char>> {
    rs.map_values(|t: (Seq<char>, bool)| t.0 + if t.1 { ": ✅"@ } else { ": ❌"@ })
}

/// The number of successes among `rs`.
pub open spec fn successes(rs: Seq<(Seq<char>, bool)>) -> nat
    decreases rs.len(),
{
    if rs.len() == 0 {
        0
    } else {
        successes(rs.drop_last()) + if rs.last().1 {
            1nat
        } else {
            0nat
        }
    }
}

pub open spec fn outcome_views(rs: Seq<(String, bool)>) -> Seq<(Seq<char>, bool)> {
    rs.map_values(|t: (String, bool)| (t.0@, t.1))
}

/// The details of a sweep through the host: how many tools were tried and
/// succeeded, then one line per tool.
pub fn sweep_details(outcomes: &Vec<(String, bool)>) -> (r: String)
    ensures
        r@ == "Tested "@ + decimal(outcomes@.len()) + " Glean tools, "@ + decimal(
            successes(outcome_views(outcomes@)),
        ) + " successful:\n"@ + joined(tool_marks(outcome_views(outcomes@))),
{
    let mut lines: Vec<String> = Vec::new();
    let mut count: usize = 0;
    let mut i: usize = 0;
    while i < outcomes.len()
        invariant
            i <= outcomes.len(),
            count == successes(outcome_views(outcomes@.subrange(0, i as int))),
            count <= i,
            texts(lines@) == tool_marks(outcome_views(outcomes@.subrange(0, i as int))),
        decreases outcomes.len() - i,
    {
        let ghost sub = outcomes@.subrange(0, i + 1);
        proof {
            assert(outcome_views(sub).drop_last() =~= outcome_views(outcomes@.subrange(0, i as int)));
        }
        let ghost before = lines@;
        let (name, ok) = (&outcomes[i].0, outcomes[i].1);
        let mark = if ok {
            ": ✅"
        } else {
            ": ❌"
        };
        let line = name.clone().concat(mark);
        let ghost line_view = line@;
        lines.push(line);
        if ok {
            count = count + 1;
        }
        proof {
            assert(outcome_views(sub)[i as int] == (name@, ok));
            assert(line_view == name@ + if ok { ": ✅"@ } else { ": ❌"@ });
            assert(texts(lines@) =~= texts(before).push(line_view));
            assert(texts(lines@) =~= tool_marks(outcome_views(sub)));
        }
        i = i + 1;
    }
    proof {
        assert(outcomes@.subrange(0, outcomes.len() as int) =~= outcomes@);
    }
    let mut r = String::from_str("Tested ");
    let n = decimal_text(outcomes.len() as u128);
    r.append(n.as_str());
    r.append(" Glean tools, ");
    let c = decimal_text(count as u128);
    r.append(c.as_str());
    r.append(" successful:\n");
    let body = join_lines(&lines);
    r.append(body.as_str());
    r
}

/// The controller for the named host application; `supported` is the one
/// host that can be driven, through its tool `cli_name`.
pub fn create_host_controller(host: &str, supported: &str, cli_name: &str, located: Option<String>) -> (r:
    Result<HostCliController>)
    ensures
        host@ == supported@ ==> (r matches Ok(c) && c.host() == host@ && c.path() == match located {
            Some(p) => p@,
            None => cli_name@,
        }),
        host@ != supported@ ==> (r matches Err(GleanMcpError::Host(m)) && m@
            == "Unsupported host application: '"@ + host@ + "'. Supported hosts: "@ + supported@),
{
    if crate::catalog::same_text(host, supported) {
        Ok(HostCliController::new(host, cli_name, located))
    } else {
        let mut m = String::from_str("Unsupported host application: '");
        m.append(host);
        m.append("'. Supported hosts: ");
        m.append(supported);
        Err(GleanMcpError::Host(m))
    }
}

} // verus!
