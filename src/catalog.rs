use vstd::prelude::*;

verus! {

/// The category a tool name belongs to.
pub open spec fn category_of(name: Seq<char>) -> Seq<char> {
    if name == "search"@ || name == "chat"@ || name == "read_document"@ {
        "core"@
    } else if name == "code_search"@ || name == "employee_search"@ || name == "gmail_search"@
        || name == "outlook_search"@ || name == "meeting_lookup"@ || name == "web_browser"@
        || name == "gemini_web_search"@ {
        "enterprise"@
    } else {
        "unknown"@
    }
}

/// The canned query sent to a tool of the given name.
pub open spec fn canned_query(name: Seq<char>) -> Seq<char> {
    if name == "search"@ {
        "remote work policy"@
    } else if name == "chat"@ {
        "What are the main benefits of using Glean?"@
    } else if name == "read_document"@ {
        "https://help.glean.com/en/articles/6248863-getting-started-with-glean"@
    } else if name == "code_search"@ {
        "function authenticate"@
    } else if name == "employee_search"@ {
        "engineering team"@
    } else if name == "gmail_search"@ {
        "from:noreply@glean.com"@
    } else if name == "outlook_search"@ {
        "subject:meeting notes"@
    } else if name == "meeting_lookup"@ {
        "weekly standup"@
    } else if name == "web_browser"@ {
        "https://www.glean.com"@
    } else if name == "gemini_web_search"@ {
        "latest technology trends"@
    } else {
        "test query for "@ + name
    }
}

/// The key under which a tool of the given name takes its argument.
pub open spec fn argument_key_of(name: Seq<char>) -> Seq<char> {
    if name == "chat"@ {
        "message"@
    } else if name == "read_document"@ {
        "url"@
    } else {
        "query"@
    }
}

/// Equality of two strings by their characters.
pub fn same_text(a: &str, b: &str) -> (r: bool)
    ensures
        r == (a@ == b@),
{
    let n = a.unicode_len();
    if n != b.unicode_len() {
        return false;
    }
    let mut i: usize = 0;
    while i < n
        invariant
            n == a@.len(),
            n == b@.len(),
            i <= n,
            forall|j: int| 0 <= j < i ==> a@[j] == b@[j],
        decreases n - i,
    {
        if a.get_char(i) != b.get_char(i) {
            return false;
        }
        i = i + 1;
    }
    assert(a@ =~= b@);
    true
}

pub struct TestQueryGenerator;

impl TestQueryGenerator {
    /// The canned query for a tool, or `test query for <name>` when the
    /// catalogue does not know the tool.
    pub fn generate_test_query(tool_name: &str) -> (r: String)
        ensures
            r@ == canned_query(tool_name@),
    {
        let q = if same_text(tool_name, "search") {
            "remote work policy"
        } else if same_text(tool_name, "chat") {
            "What are the main benefits of using Glean?"
        } else if same_text(tool_name, "read_document") {
            "https://help.glean.com/en/articles/6248863-getting-started-with-glean"
        } else if same_text(tool_name, "code_search") {
            "function authenticate"
        } else if same_text(tool_name, "employee_search") {
            "engineering team"
        } else if same_text(tool_name, "gmail_search") {
            "from:noreply@glean.com"
        } else if same_text(tool_name, "outlook_search") {
            "subject:meeting notes"
        } else if same_text(tool_name, "meeting_lookup") {
            "weekly standup"
        } else if same_text(tool_name, "web_browser") {
            "https://www.glean.com"
        } else if same_text(tool_name, "gemini_web_search") {
            "latest technology trends"
        } else {
            let prefix = String::from_str("test query for ");
            return prefix.concat(tool_name);
        };
        String::from_str(q)
    }

    /// The category of a tool: `core`, `enterprise` or `unknown`.
    pub fn get_tool_category(tool_name: &str) -> (r: &'static str)
        ensures
            r@ == category_of(tool_name@),
    {
        if same_text(tool_name, "search") || same_text(tool_name, "chat") || same_text(
            tool_name,
            "read_document",
        ) {
            "core"
        } else if same_text(tool_name, "code_search") || same_text(tool_name, "employee_search")
            || same_text(tool_name, "gmail_search") || same_text(tool_name, "outlook_search")
            || same_text(tool_name, "meeting_lookup") || same_text(tool_name, "web_browser")
            || same_text(tool_name, "gemini_web_search") {
            "enterprise"
        } else {
            "unknown"
        }
    }
}

} // verus!
