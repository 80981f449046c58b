//! Agent-side plain types: command line, HTTP error codes, studio messages.
use vstd::prelude::*;

verus! {

/// Command-line options of the agent binary.
#[derive(Debug, Clone, Copy, PartialEq, Eq, Structural)]
pub struct AgentOptions {
    pub config: bool,
    pub command: Option<AgentCommands>,
}

/// Subcommands of the agent binary.
#[derive(Debug, Clone, Copy, PartialEq, Eq, Structural)]
pub enum AgentCommands {
    Did,
}

/// Error codes the HTTP surface reports.
#[derive(Debug, Clone, Copy, PartialEq, Eq, Structural)]
pub enum MiaXErrorCode {
    CreateIdentifierInternal,
}

impl MiaXErrorCode {
    /// The numeric code.
    pub fn code(&self) -> (r: u16)
        ensures
            r == 5004,
    {
        match self {
            MiaXErrorCode::CreateIdentifierInternal => 5004,
        }
    }

    /// The HTTP status of a code: codes from 5000 to 5999 are internal
    /// server errors.
    pub fn status_code(&self) -> (r: u16)
        ensures
            r == 500,
    {
        let code = self.code();
        assert(5000 <= code < 6000);
        500
    }
}

/// Access to the agent's own identity.
#[derive(Debug, Clone, Copy, PartialEq, Eq, Structural)]
pub struct DidAccessorImpl {}

/// Where the studio service is reached.
#[derive(Debug, Clone)]
pub struct StudioClientConfig {
    pub base_url: String,
}

/// An empty studio answer.
#[derive(Debug, Clone, Copy, PartialEq, Eq, Structural)]
pub struct EmptyResponse {}

/// A studio message: its id and the sealed DIDComm text.
#[derive(Debug, Clone)]
pub struct MessageResponse {
    pub id: String,
    pub raw_message: String,
}

/// Network settings pushed by the studio.
#[derive(Debug, Clone)]
pub struct NetworkResponse {
    pub secret_key: String,
    pub project_did: String,
    pub recipient_dids: Vec<String>,
    pub studio_endpoint: String,
    pub heartbeat: u64,
}

} // verus!
