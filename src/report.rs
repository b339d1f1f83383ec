//! Per-tool results, their aggregation into a run report, and the report's
//! summary and text renderings.
use vstd::prelude::*;
use crate::rpc::{AttemptOutcome, ResponseData};
use crate::text::decimal;

verus! {

/// The result of exercising one tool.
pub struct ToolTestResult {
    pub tool_name: String,
    pub success: bool,
    pub response_time_ms: u64,
    pub test_query: String,
    pub response_data: Option<ResponseData>,
    pub error_message: Option<String>,
    pub validation_details: Option<String>,
}

/// Timing and settings of one run.
pub struct ExecutionSummary {
    pub start_time: String,
    pub end_time: String,
    pub total_duration_ms: u64,
    pub parallel_execution: bool,
    pub timeout_settings: u64,
}

impl ToolTestResult {
    /// A result succeeds exactly when it carries a payload and no error.
    pub open spec fn consistent(&self) -> bool {
        self.success <==> (self.response_data is Some && self.error_message is None)
    }

    pub fn new_success(
        tool_name: String,
        response_time_ms: u64,
        test_query: String,
        response_data: ResponseData,
    ) -> (r: Self)
        ensures
            r.tool_name == tool_name,
            r.success,
            r.response_time_ms == response_time_ms,
            r.test_query == test_query,
            r.response_data == Some(response_data),
            r.error_message is None,
            r.validation_details matches Some(v) && v@ == "Response received successfully"@,
            r.consistent(),
    {
        ToolTestResult {
            tool_name,
            success: true,
            response_time_ms,
            test_query,
            response_data: Some(response_data),
            error_message: None,
            validation_details: Some(String::from_str("Response received successfully")),
        }
    }

    pub fn new_error(
        tool_name: String,
        response_time_ms: u64,
        test_query: String,
        error: String,
    ) -> (r: Self)
        ensures
            r.tool_name == tool_name,
            !r.success,
            r.response_time_ms == response_time_ms,
            r.test_query == test_query,
            r.response_data is None,
            r.error_message == Some(error),
            r.validation_details is None,
            r.consistent(),
    {
        ToolTestResult {
            tool_name,
            success: false,
            response_time_ms,
            test_query,
            response_data: None,
            error_message: Some(error),
            validation_details: None,
        }
    }

    /// A tool that did not answer within `timeout_seconds`: its time is the
    /// whole deadline.
    pub fn new_timeout(tool_name: String, timeout_seconds: u64, test_query: String) -> (r: Self)
        requires
            timeout_seconds * 1000 <= u64::MAX,
        ensures
            r.tool_name == tool_name,
            !r.success,
            r.response_time_ms == timeout_seconds * 1000,
            r.test_query == test_query,
            r.response_data is None,
            r.error_message matches Some(m) && m@ == "Timeout after "@ + decimal(
                timeout_seconds as nat,
            ) + "s"@,
            r.validation_details is None,
            r.consistent(),
    {
        let mut m = String::from_str("Timeout after ");
        let secs = crate::text::decimal_text(timeout_seconds as u128);
        m.append(secs.as_str());
        m.append("s");
        ToolTestResult {
            tool_name,
            success: false,
            response_time_ms: timeout_seconds * 1000,
            test_query,
            response_data: None,
            error_message: Some(m),
            validation_details: None,
        }
    }

    /// The result of a tool whose last attempt ended with `outcome`, after
    /// `elapsed_ms` of its own time.
    pub fn from_outcome(
        tool_name: String,
        test_query: String,
        outcome: AttemptOutcome,
        elapsed_ms: u64,
    ) -> (r: Self)
        requires
            outcome matches AttemptOutcome::Timeout(t) ==> t * 1000 <= u64::MAX,
        ensures
            r.tool_name == tool_name,
            r.test_query == test_query,
            r.consistent(),
            match outcome {
                AttemptOutcome::Success(d) => r.success && r.response_data == Some(d)
                    && r.response_time_ms == elapsed_ms && (r.validation_details matches Some(v)
                    && v@ == success_note(d)),
                _ => failed_as(r, outcome, elapsed_ms),
            },
    {
        match outcome {
            AttemptOutcome::Success(d) => {
                let unexpected = match &d {
                    ResponseData::UnexpectedShape(_) => true,
                    _ => false,
                };
                let mut r = Self::new_success(tool_name, elapsed_ms, test_query, d);
                if unexpected {
                    r.validation_details = Some(String::from_str("unexpected shape"));
                }
                r
            },
            AttemptOutcome::ProtocolError(m) => Self::new_error(
                tool_name,
                elapsed_ms,
                test_query,
                m,
            ),
            AttemptOutcome::Transport(m) => Self::new_error(tool_name, elapsed_ms, test_query, m),
            AttemptOutcome::Timeout(t) => Self::new_timeout(tool_name, t, test_query),
        }
    }
}

/// `r` is the result of a tool whose last attempt failed with `outcome`
/// after `elapsed_ms`: no payload and no validation note, the failure's
/// message, and for a timeout the whole deadline as its time.
pub open spec fn failed_as(r: ToolTestResult, outcome: AttemptOutcome, elapsed_ms: u64) -> bool {
    &&& !r.success
    &&& r.response_data is None
    &&& r.validation_details is None
    &&& match outcome {
        AttemptOutcome::ProtocolError(m) => r.error_message == Some(m) && r.response_time_ms
            == elapsed_ms,
        AttemptOutcome::Transport(m) => r.error_message == Some(m) && r.response_time_ms
            == elapsed_ms,
        AttemptOutcome::Timeout(t) => r.response_time_ms == t * 1000 && (r.error_message matches Some(
            m,
        ) && m@ == "Timeout after "@ + decimal(t as nat) + "s"@),
        AttemptOutcome::Success(_) => false,
    }
}

/// A tool whose attempts ran out on a deadline of `t` seconds failed, took
/// `t * 1000` milliseconds, says `Timeout after <t>s`, and has no payload.
pub proof fn lemma_timeout_result(r: ToolTestResult, t: u64, elapsed_ms: u64)
    requires
        failed_as(r, AttemptOutcome::Timeout(t), elapsed_ms),
    ensures
        !r.success,
        r.response_time_ms == t * 1000,
        r.error_message matches Some(m) && m@ == "Timeout after "@ + decimal(t as nat) + "s"@,
        r.response_data is None,
        r.consistent(),
{
}

/// The validation note of a successful result: a JSON reply of neither
/// expected shape is flagged.
pub open spec fn success_note(d: ResponseData) -> Seq<char> {
    match d {
        ResponseData::UnexpectedShape(_) => "unexpected shape"@,
        _ => "Response received successfully"@,
    }
}

/// Index of the last result named `name`, or -1.
pub open spec fn name_index(m: Seq<ToolTestResult>, name: Seq<char>) -> int
    decreases m.len(),
{
    if m.len() == 0 {
        -1
    } else if m.last().tool_name@ == name {
        m.len() - 1
    } else {
        name_index(m.drop_last(), name)
    }
}

/// `m` with `r` stored under its tool name: it replaces a result of the same
/// name, or comes last.
pub open spec fn keyed_insert(m: Seq<ToolTestResult>, r: ToolTestResult) -> Seq<ToolTestResult> {
    let i = name_index(m, r.tool_name@);
    if i >= 0 {
        m.update(i, r)
    } else {
        m.push(r)
    }
}

/// The results keyed by tool name, in order of first appearance.
pub open spec fn keyed(rs: Seq<ToolTestResult>) -> Seq<ToolTestResult>
    decreases rs.len(),
{
    if rs.len() == 0 {
        seq![]
    } else {
        keyed_insert(keyed(rs.drop_last()), rs.last())
    }
}

/// No two results share a tool name.
pub open spec fn names_unique(m: Seq<ToolTestResult>) -> bool {
    forall|i: int, j: int|
        0 <= i < m.len() && 0 <= j < m.len() && i != j ==> #[trigger] m[i].tool_name@
            != #[trigger] m[j].tool_name@
}

/// The number of successful results.
pub open spec fn count_successful(m: Seq<ToolTestResult>) -> nat
    decreases m.len(),
{
    if m.len() == 0 {
        0
    } else {
        count_successful(m.drop_last()) + if m.last().success {
            1nat
        } else {
            0nat
        }
    }
}

pub proof fn lemma_count_successful_bounded(m: Seq<ToolTestResult>)
    ensures
        count_successful(m) <= m.len(),
    decreases m.len(),
{
    if m.len() > 0 {
        lemma_count_successful_bounded(m.drop_last());
    }
}

proof fn lemma_name_index(m: Seq<ToolTestResult>, name: Seq<char>)
    ensures
        -1 <= name_index(m, name) < m.len(),
        name_index(m, name) >= 0 ==> m[name_index(m, name)].tool_name@ == name,
        name_index(m, name) == -1 ==> forall|k: int| 0 <= k < m.len() ==> m[k].tool_name@ != name,
    decreases m.len(),
{
    if m.len() > 0 {
        lemma_name_index(m.drop_last(), name);
        if m.last().tool_name@ != name {
            assert forall|k: int| 0 <= k < m.len() - 1 implies m[k] == m.drop_last()[k] by {}
        }
    }
}

proof fn lemma_keyed_insert_unique(m: Seq<ToolTestResult>, r: ToolTestResult)
    requires
        names_unique(m),
    ensures
        names_unique(keyed_insert(m, r)),
{
    lemma_name_index(m, r.tool_name@);
    let k = keyed_insert(m, r);
    let i = name_index(m, r.tool_name@);
    if i < 0 {
        assert forall|a: int, b: int|
            0 <= a < k.len() && 0 <= b < k.len() && a != b implies #[trigger] k[a].tool_name@
            != #[trigger] k[b].tool_name@ by {
            if a < m.len() && b < m.len() {
                assert(m[a].tool_name@ != m[b].tool_name@);
            }
        }
    } else {
        assert forall|a: int, b: int|
            0 <= a < k.len() && 0 <= b < k.len() && a != b implies #[trigger] k[a].tool_name@
            != #[trigger] k[b].tool_name@ by {
            assert(m[a].tool_name@ != m[b].tool_name@);
        }
    }
}

/// The outcome of a whole run.
pub struct AllToolsTestResult {
    pub success: bool,
    pub total_tools: usize,
    pub successful_tools: usize,
    pub failed_tools: usize,
    /// One result per tool, keyed by tool name, in order of discovery.
    pub tool_results: Vec<ToolTestResult>,
    pub execution_summary: ExecutionSummary,
    /// Set only when the run stopped before any tool was tried.
    pub error: Option<String>,
}

impl AllToolsTestResult {
    /// The tallies agree with the results, and the results are keyed by
    /// tool name.
    pub open spec fn tallies_hold(&self) -> bool {
        &&& self.total_tools == self.tool_results@.len()
        &&& self.successful_tools == count_successful(self.tool_results@)
        &&& self.successful_tools + self.failed_tools == self.total_tools
        &&& self.error is None ==> (self.success <==> self.failed_tools == 0)
        &&& names_unique(self.tool_results@)
    }

    /// The report of a run that tried the tools whose results are `results`,
    /// a later result replacing an earlier one of the same tool.
    pub fn from_results(results: Vec<ToolTestResult>, execution_summary: ExecutionSummary) -> (r:
        Self)
        ensures
            r.tool_results@ == keyed(results@),
            r.total_tools == r.tool_results@.len(),
            r.successful_tools == count_successful(r.tool_results@),
            r.successful_tools + r.failed_tools == r.total_tools,
            r.success <==> r.failed_tools == 0,
            r.error is None,
            r.execution_summary == execution_summary,
            r.tallies_hold(),
    {
        let count_in: usize = results.len();
        let ghost all = results@;
        let mut rest = results;
        let mut m: Vec<ToolTestResult> = Vec::new();
        let mut successful: usize = 0;
        let mut k: usize = 0;
        while rest.len() > 0
            invariant
                k + rest.len() == all.len(),
                all.len() == count_in,
                m.len() <= k,
                rest@ == all.subrange(k as int, all.len() as int),
                m@ == keyed(all.subrange(0, k as int)),
                names_unique(m@),
                successful == count_successful(m@),
                successful <= m.len(),
            decreases rest.len(),
        {
            let r = rest.remove(0);
            proof {
                assert(all.subrange(0, k + 1).drop_last() =~= all.subrange(0, k as int));
                assert(all.subrange(0, k + 1).last() == r);
                assert(rest@ =~= all.subrange(k + 1, all.len() as int));
                lemma_name_index(m@, r.tool_name@);
                lemma_keyed_insert_unique(m@, r);
            }
            let ghost before = m@;
            match find_result(&m, &r.tool_name) {
                Some(i) => {
                    let was = m[i].success;
                    let now = r.success;
                    m.set(i, r);
                    proof {
                        lemma_count_update(before, i as int, m@[i as int]);
                        lemma_count_successful_bounded(m@);
                    }
                    if was && !now {
                        successful = successful - 1;
                    } else if !was && now {
                        successful = successful + 1;
                    }
                },
                None => {
                    let now = r.success;
                    m.push(r);
                    proof {
                        assert(m@.drop_last() =~= before);
                    }
                    if now {
                        successful = successful + 1;
                    }
                },
            }
            k = k + 1;
        }
        proof {
            assert(all.subrange(0, k as int) =~= all);
        }
        let total = m.len();
        AllToolsTestResult {
            success: successful == total,
            total_tools: total,
            successful_tools: successful,
            failed_tools: total - successful,
            tool_results: m,
            execution_summary,
            error: None,
        }
    }

    /// The report of a run that found no tools to try.
    pub fn no_tools(execution_summary: ExecutionSummary) -> (r: Self)
        ensures
            !r.success,
            r.total_tools == 0,
            r.successful_tools == 0,
            r.failed_tools == 0,
            r.tool_results@.len() == 0,
            r.error matches Some(e) && e@ == "No tools found to test"@,
            r.execution_summary == execution_summary,
            r.tallies_hold(),
    {
        AllToolsTestResult {
            success: false,
            total_tools: 0,
            successful_tools: 0,
            failed_tools: 0,
            tool_results: Vec::new(),
            execution_summary,
            error: Some(String::from_str("No tools found to test")),
        }
    }
}

proof fn lemma_count_update(m: Seq<ToolTestResult>, i: int, r: ToolTestResult)
    requires
        0 <= i < m.len(),
    ensures
        count_successful(m.update(i, r)) + (if m[i].success {
            1int
        } else {
            0int
        }) == count_successful(m) + (if r.success {
            1int
        } else {
            0int
        }),
    decreases m.len(),
{
    if i == m.len() - 1 {
        assert(m.update(i, r).drop_last() =~= m.drop_last());
    } else {
        lemma_count_update(m.drop_last(), i, r);
        assert(m.update(i, r).drop_last() =~= m.drop_last().update(i, r));
    }
}

/// The index of the last result named `name`, if any.
fn find_result(m: &Vec<ToolTestResult>, name: &String) -> (r: Option<usize>)
    ensures
        name_index(m@, name@) == match r {
            Some(i) => i as int,
            None => -1,
        },
{
    let mut j: usize = m.len();
    assert(m@.subrange(0, j as int) =~= m@);
    while j > 0
        invariant
            j <= m.len(),
            name_index(m@, name@) == name_index(m@.subrange(0, j as int), name@),
        decreases j,
    {
        proof {
            assert(m@.subrange(0, j as int).drop_last() =~= m@.subrange(0, j - 1));
        }
        if m[j - 1].tool_name == *name {
            return Some(j - 1);
        }
        j = j - 1;
    }
    None
}

/// For every report without a top-level error: the total is the number of
/// results, successes and failures add up to it, and the run succeeded
/// exactly when nothing failed.
pub proof fn lemma_report_tallies(r: AllToolsTestResult)
    requires
        r.tallies_hold(),
    ensures
        r.total_tools == r.tool_results@.len(),
        r.successful_tools + r.failed_tools == r.total_tools,
        r.error is None ==> (r.success <==> r.failed_tools == 0),
        r.successful_tools <= r.tool_results@.len(),
{
    lemma_count_successful_bounded(r.tool_results@);
}

} // verus!
