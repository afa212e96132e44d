//! What the user asks of the proxy when it is started.
use crate::message::ProtocolVersion;
use vstd::prelude::*;
use vstd::string::*;

verus! {

/// The arguments of the program.
#[derive(Debug)]
pub struct Args {
    /// The URL of the SSE endpoint to connect to
    pub sse_url: Option<String>,
    /// Enable debug logging
    pub debug: bool,
    /// Maximum time to try reconnecting in seconds
    pub max_disconnected_time: Option<u64>,
    /// Initial retry interval in seconds. Default is 5 seconds
    pub initial_retry_interval: u64,
    /// Override the protocol version returned to the client
    pub override_protocol_version: Option<String>,
    /// Inline JSON describing the tools the proxy should advertise before the backend has
    /// connected. Accepts either a full `ListToolsResult` (`{"tools":[...]}`) or a bare
    /// tools array (`[...]`). Takes precedence over the URL-keyed on-disk cache; the
    /// on-disk cache is still refreshed whenever the backend returns a live `tools/list`
    /// response.
    pub tools: Option<String>,
}

/// Why the proxy cannot be started.
#[derive(Debug, PartialEq, Eq)]
pub enum StartupError {
    /// Neither the arguments nor the environment name a backend.
    MissingUrl,
    /// The protocol version to name to the client is not one that the proxy knows.
    UnsupportedProtocolVersion(String),
}

impl StartupError {
    /// What the user is told.
    pub fn message(&self) -> (text: String)
        ensures
            text@ == (match self {
                StartupError::MissingUrl => {
                    "Either the URL must be passed as the first argument or the SSE_URL environment variable must be set"@
                },
                StartupError::UnsupportedProtocolVersion(version) => {
                    "Unsupported protocol version: "@ + version@
                        + ". Supported versions are: 2024-11-05, 2025-03-26"@
                },
            }),
    {
        match self {
            StartupError::MissingUrl => "Either the URL must be passed as the first argument or the SSE_URL environment variable must be set".to_string(),
            StartupError::UnsupportedProtocolVersion(version) => {
                let mut text = "Unsupported protocol version: ".to_string();
                text.append(version.as_str());
                text.append(". Supported versions are: 2024-11-05, 2025-03-26");
                text
            },
        }
    }
}

/// The URL of the backend: the one given as an argument, else the one in the environment
/// variable `SSE_URL`.
pub fn backend_url(argument: Option<String>, environment: Option<String>) -> (url: Result<
    String,
    StartupError,
>)
    ensures
        url == (match (argument, environment) {
            (Some(u), _) => Ok(u),
            (None, Some(u)) => Ok(u),
            (None, None) => Err(StartupError::MissingUrl),
        }),
{
    match argument {
        Some(u) => Ok(u),
        None => match environment {
            Some(u) => Ok(u),
            None => Err(StartupError::MissingUrl),
        },
    }
}

/// Whether the proxy can name a protocol version to the client in place of the backend's.
pub open spec fn is_supported_version(version: Seq<char>) -> bool {
    version == "2024-11-05"@ || version == "2025-03-26"@
}

/// The protocol version that the proxy is told to name to the client, if it is told one.
pub fn parse_override(version: Option<String>) -> (parsed: Result<
    Option<ProtocolVersion>,
    StartupError,
>)
    ensures
        parsed == (match version {
            None => Ok(None),
            Some(v) => if is_supported_version(v@) {
                Ok(Some(ProtocolVersion { text: v }))
            } else {
                Err(StartupError::UnsupportedProtocolVersion(v))
            },
        }),
{
    match version {
        Some(v) => {
            if v == "2024-11-05".to_string() || v == "2025-03-26".to_string() {
                Ok(Some(ProtocolVersion { text: v }))
            } else {
                Err(StartupError::UnsupportedProtocolVersion(v))
            }
        },
        None => Ok(None),
    }
}

} // verus!
