//! The framework's configuration, shown by the `config` command.
use vstd::prelude::*;

verus! {

pub struct GleanInstance {
    pub name: String,
    pub environment: String,
    pub server_url: String,
    pub chatgpt_url: String,
}

pub struct McpInspectorConfig {
    pub package: String,
    pub validation_required: bool,
    pub tools_to_validate: Vec<String>,
}

pub struct AuthConfig {
    pub method: String,
    pub oauth_scopes: Vec<String>,
}

pub struct ToolsConfig {
    pub core_tools: Vec<String>,
    pub enterprise_tools: Vec<String>,
}

pub struct HostConfig {
    pub auth_method: String,
    pub config_type: String,
    pub mcp_config_path: Option<String>,
    pub server_url: String,
    pub priority: String,
}

pub struct GleanConfig {
    pub glean_instance: GleanInstance,
    pub mcp_inspector: McpInspectorConfig,
    pub authentication: AuthConfig,
    pub tools_to_test: ToolsConfig,
    /// Settings per host application, keyed by the host's name.
    pub host_applications: Vec<(String, HostConfig)>,
}

/// The host names of a configuration, in order.
pub open spec fn host_names(hosts: Seq<(String, HostConfig)>) -> Seq<Seq<char>> {
    hosts.map_values(|h: (String, HostConfig)| h.0@)
}

fn strings(items: &[&str]) -> (r: Vec<String>)
    ensures
        r@.len() == items@.len(),
        forall|i: int| 0 <= i < items@.len() ==> (#[trigger] r@[i])@ == items@[i]@,
{
    let mut v: Vec<String> = Vec::new();
    let mut i: usize = 0;
    while i < items.len()
        invariant
            i <= items@.len(),
            v@.len() == i,
            forall|k: int| 0 <= k < i ==> (#[trigger] v@[k])@ == items@[k]@,
        decreases items@.len() - i,
    {
        v.push(String::from_str(items[i]));
        i = i + 1;
    }
    v
}

fn host_config(
    auth_method: &str,
    config_type: &str,
    mcp_config_path: Option<&str>,
    server_url: &str,
    priority: &str,
) -> (r: HostConfig)
    ensures
        r.auth_method@ == auth_method@,
        r.config_type@ == config_type@,
        match mcp_config_path {
            Some(p) => r.mcp_config_path matches Some(q) && q@ == p@,
            None => r.mcp_config_path is None,
        },
        r.server_url@ == server_url@,
        r.priority@ == priority@,
{
    HostConfig {
        auth_method: String::from_str(auth_method),
        config_type: String::from_str(config_type),
        mcp_config_path: match mcp_config_path {
            Some(p) => Some(String::from_str(p)),
            None => None,
        },
        server_url: String::from_str(server_url),
        priority: String::from_str(priority),
    }
}

impl Default for GleanConfig {
    /// The production instance, the OAuth scopes the service needs, the
    /// core and enterprise tools, and the editor host applications.
    fn default() -> (r: Self)
        ensures
            r.glean_instance.name@ == "scio-prod"@,
            r.glean_instance.server_url@ == "https://scio-prod.glean.com/mcp/default"@,
            r.mcp_inspector.validation_required,
            r.authentication.method@ == "oauth"@,
            r.tools_to_test.core_tools@.len() == 3,
            r.tools_to_test.enterprise_tools@.len() == 6,
            host_names(r.host_applications@) == seq!["cursor"@, "vscode"@],
    {
        let dev_url = "https://glean-dev-be.glean.com/mcp/default";
        let mut hosts: Vec<(String, HostConfig)> = Vec::new();
        hosts.push(
            (
                String::from_str("cursor"),
                host_config("bridge", "local", Some("~/.cursor/mcp.json"), dev_url, "P0"),
            ),
        );
        hosts.push(
            (
                String::from_str("vscode"),
                host_config("native", "global", Some("~/.vscode/settings.json"), dev_url, "P0"),
            ),
        );
        assert(host_names(hosts@) =~= seq!["cursor"@, "vscode"@]);
        GleanConfig {
            glean_instance: GleanInstance {
                name: String::from_str("scio-prod"),
                environment: String::from_str("production"),
                server_url: String::from_str("https://scio-prod.glean.com/mcp/default"),
                chatgpt_url: String::from_str("https://scio-prod.glean.com/mcp/chatgpt"),
            },
            mcp_inspector: McpInspectorConfig {
                package: String::from_str("@modelcontextprotocol/inspector"),
                validation_required: true,
                tools_to_validate: strings(&["glean_search", "chat", "read_document"]),
            },
            authentication: AuthConfig {
                method: String::from_str("oauth"),
                oauth_scopes: strings(&["MCP", "SEARCH", "TOOLS", "ENTITIES"]),
            },
            tools_to_test: ToolsConfig {
                core_tools: strings(&["glean_search", "chat", "read_document"]),
                enterprise_tools: strings(
                    &[
                        "code_search",
                        "employee_search",
                        "gmail_search",
                        "meeting_lookup",
                        "outlook_search",
                        "web_browser",
                    ],
                ),
            },
            host_applications: hosts,
        }
    }
}

} // verus!
