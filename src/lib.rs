//! Tool-sweep engine for exercising the tools that a remote MCP service
//! advertises: a catalogue of canned queries, selection of tools, the
//! decisions of the retry policy, classification of JSON-RPC replies, and
//! the aggregation and rendering of a run's results.

pub mod catalog;
pub mod config;
pub mod error;
pub mod host;
pub mod inspector;
pub mod json;
pub mod probe;
pub mod render;
pub mod report;
pub mod retry;
pub mod rpc;
pub mod text;

pub use catalog::TestQueryGenerator;
pub use config::{AuthConfig, GleanConfig, GleanInstance, HostConfig, McpInspectorConfig, ToolsConfig};
pub use error::{GleanMcpError, Result};
pub use host::{HostCliController, HostOperationResult, create_host_controller};
pub use inspector::{GleanMCPInspector, TestAllOptions, ToolEntry, ToolInfo};
pub use probe::InspectorResult;
pub use report::{AllToolsTestResult, ExecutionSummary, ToolTestResult};
pub use retry::{RetryRun, RetryStep};
pub use rpc::{AttemptOutcome, ResponseData};
