//! The library's error type.
use vstd::prelude::*;

verus! {

#[verifier::external_type_specification]
#[verifier::external_body]
pub struct ExIoError(std::io::Error);

#[verifier::external_type_specification]
#[verifier::external_body]
pub struct ExJsonError(serde_json::Error);

/// What can go wrong outside a single tool's attempts.
pub enum GleanMcpError {
    Inspector(String),
    Config(String),
    Auth(String),
    Host(String),
    Network(String),
    Validation(String),
    Io(std::io::Error),
    Json(serde_json::Error),
    Process(String),
}

pub type Result<T> = std::result::Result<T, GleanMcpError>;

/// Relies on the `Display` impl of `std::io::Error`: its message.
#[verifier::external_body]
fn io_error_text(e: &std::io::Error) -> String {
    e.to_string()
}

/// Relies on the `Display` impl of `serde_json::Error`: its message.
#[verifier::external_body]
fn json_error_text(e: &serde_json::Error) -> String {
    e.to_string()
}

/// The message of an error that carries its text: the kind's label, then
/// the text.
pub open spec fn labelled(e: GleanMcpError, text: Seq<char>) -> bool {
    match e {
        GleanMcpError::Inspector(m) => text == "MCP Inspector error: "@ + m@,
        GleanMcpError::Config(m) => text == "Configuration error: "@ + m@,
        GleanMcpError::Auth(m) => text == "Authentication error: "@ + m@,
        GleanMcpError::Host(m) => text == "Host application error: "@ + m@,
        GleanMcpError::Network(m) => text == "Network error: "@ + m@,
        GleanMcpError::Validation(m) => text == "Validation error: "@ + m@,
        GleanMcpError::Process(m) => text == "Process error: "@ + m@,
        GleanMcpError::Io(_) => "IO error: "@.is_prefix_of(text),
        GleanMcpError::Json(_) => "JSON error: "@.is_prefix_of(text),
    }
}

impl GleanMcpError {
    /// The error's message: its kind's label, then its text.
    pub fn message(&self) -> (r: String)
        ensures
            labelled(*self, r@),
    {
        let (label, text) = match self {
            GleanMcpError::Inspector(m) => ("MCP Inspector error: ", m.clone()),
            GleanMcpError::Config(m) => ("Configuration error: ", m.clone()),
            GleanMcpError::Auth(m) => ("Authentication error: ", m.clone()),
            GleanMcpError::Host(m) => ("Host application error: ", m.clone()),
            GleanMcpError::Network(m) => ("Network error: ", m.clone()),
            GleanMcpError::Validation(m) => ("Validation error: ", m.clone()),
            GleanMcpError::Io(e) => ("IO error: ", io_error_text(e)),
            GleanMcpError::Json(e) => ("JSON error: ", json_error_text(e)),
            GleanMcpError::Process(m) => ("Process error: ", m.clone()),
        };
        let r = String::from_str(label).concat(text.as_str());
        assert(label@.is_prefix_of(r@)) by {
            assert(r@.subrange(0, label@.len() as int) =~= label@);
        }
        r
    }
}

} // verus!
