//! Routing and forwarding failures, with the JSON-RPC style error code and
//! the HTTP status each maps to. Non-2xx upstream responses are relayed
//! verbatim and are not errors; `ProviderError` covers transport failure
//! only.

use vstd::prelude::*;
use vstd::string::StringExecFns;

verus! {

#[derive(Debug, Clone)]
pub enum AppError {
    ChainNotFound(String),
    NetworkNotFound(String),
    ProtocolMismatch(String),
    ProviderError(String),
    ParseError(String),
}

impl AppError {
    pub open spec fn spec_error_code(self) -> int {
        match self {
            AppError::ChainNotFound(_) => -32001,
            AppError::NetworkNotFound(_) => -32001,
            AppError::ProtocolMismatch(_) => -32002,
            AppError::ProviderError(_) => -32603,
            AppError::ParseError(_) => -32700,
        }
    }

    pub fn error_code(&self) -> (r: i64)
        ensures
            r == self.spec_error_code(),
    {
        match self {
            AppError::ChainNotFound(_) => -32001,
            AppError::NetworkNotFound(_) => -32001,
            AppError::ProtocolMismatch(_) => -32002,
            AppError::ProviderError(_) => -32603,
            AppError::ParseError(_) => -32700,
        }
    }

    pub open spec fn spec_status_code(self) -> u16 {
        match self {
            AppError::ProviderError(_) => 502,
            _ => 400,
        }
    }

    /// The HTTP status the failure is reported under: 502 for an upstream
    /// transport failure, 400 for everything request-local.
    pub fn status_code(&self) -> (r: u16)
        ensures
            r == self.spec_status_code(),
    {
        match self {
            AppError::ChainNotFound(_) => 400,
            AppError::NetworkNotFound(_) => 400,
            AppError::ProtocolMismatch(_) => 400,
            AppError::ProviderError(_) => 502,
            AppError::ParseError(_) => 400,
        }
    }

    pub open spec fn spec_message(self) -> Seq<char> {
        match self {
            AppError::ChainNotFound(s) => "Unknown chain: "@ + s@,
            AppError::NetworkNotFound(s) => "Unknown network: "@ + s@,
            AppError::ProtocolMismatch(s) => "Protocol mismatch: "@ + s@,
            AppError::ProviderError(s) => "Provider error: "@ + s@,
            AppError::ParseError(s) => "Parse error: "@ + s@,
        }
    }

    /// The human-readable message carried in the error envelope.
    pub fn message(&self) -> (r: String)
        ensures
            r@ == self.spec_message(),
    {
        match self {
            AppError::ChainNotFound(s) => String::from_str("Unknown chain: ").concat(s.as_str()),
            AppError::NetworkNotFound(s) => String::from_str("Unknown network: ").concat(
                s.as_str(),
            ),
            AppError::ProtocolMismatch(s) => String::from_str("Protocol mismatch: ").concat(
                s.as_str(),
            ),
            AppError::ProviderError(s) => String::from_str("Provider error: ").concat(s.as_str()),
            AppError::ParseError(s) => String::from_str("Parse error: ").concat(s.as_str()),
        }
    }
}

} // verus!
