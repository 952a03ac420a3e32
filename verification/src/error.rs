//! Adapter error types.
//!
//! All adapter subsystems surface errors through [`AdapterError`].  Each
//! variant carries enough context for callers to decide how to handle the
//! failure without inspecting opaque strings.

use vstd::prelude::*;
use vstd::string::*;

use crate::text::{decimal, u64_to_decimal};

verus! {

/// Unified error type for the adapters.
///
/// The two variants that wrap an outside error (`IoError`,
/// `SerializationError`) hold that error's message.
#[derive(Debug)]
pub enum AdapterError {
    /// An I/O operation failed within the adapter.
    IoError(String),
    /// The requested tool does not exist on this adapter.
    ToolNotFound { adapter_id: String, tool_name: String },
    /// The parameters supplied to a tool are invalid.
    InvalidParams { tool_name: String, reason: String },
    /// A tool invocation failed.
    ExecutionFailed { tool_name: String, reason: String },
    /// The adapter requires authentication that has not been configured.
    AuthRequired { adapter_id: String, provider: String },
    /// JSON serialization or deserialization failed.
    SerializationError(String),
    /// An operation exceeded its time limit.
    Timeout { seconds: u64, reason: String },
    /// Configuration error in adapter setup.
    ConfigError(String),
    /// Invalid input provided to adapter.
    InvalidInput(String),
    /// Execution error during adapter operation.
    ExecutionError(String),
    /// Catch-all for unexpected internal errors.
    Internal(String),
}

/// The human-readable text of an error.
pub open spec fn error_text(e: AdapterError) -> Seq<char> {
    match e {
        AdapterError::IoError(m) => "io error: "@ + m@,
        AdapterError::ToolNotFound { adapter_id, tool_name } => "tool not found: `"@ + tool_name@
            + "` on adapter `"@ + adapter_id@ + "`"@,
        AdapterError::InvalidParams { tool_name, reason } => "invalid parameters for tool `"@
            + tool_name@ + "`: "@ + reason@,
        AdapterError::ExecutionFailed { tool_name, reason } => "execution failed for tool `"@
            + tool_name@ + "`: "@ + reason@,
        AdapterError::AuthRequired { adapter_id, provider } =>
            "authentication required for adapter `"@ + adapter_id@ + "`: provider="@
                + provider@,
        AdapterError::SerializationError(m) => "serialization error: "@ + m@,
        AdapterError::Timeout { seconds, reason } => "timeout after "@ + decimal(seconds as nat)
            + "s: "@ + reason@,
        AdapterError::ConfigError(m) => "configuration error: "@ + m@,
        AdapterError::InvalidInput(m) => "invalid input: "@ + m@,
        AdapterError::ExecutionError(m) => "execution error: "@ + m@,
        AdapterError::Internal(m) => "internal adapter error: "@ + m@,
    }
}

/// Whether `e` is `InvalidParams` for `tool` with the given reason.
pub open spec fn is_invalid_params(e: AdapterError, tool: Seq<char>, reason: Seq<char>) -> bool {
    e matches AdapterError::InvalidParams { tool_name, reason: r } && tool_name@ == tool && r@
        == reason
}

/// Whether `e` is `ExecutionFailed` for `tool` with the given reason.
pub open spec fn is_execution_failed(e: AdapterError, tool: Seq<char>, reason: Seq<char>) -> bool {
    e matches AdapterError::ExecutionFailed { tool_name, reason: r } && tool_name@ == tool && r@
        == reason
}

/// Whether `e` is `AuthRequired` for the given adapter and provider.
pub open spec fn is_auth_required(e: AdapterError, adapter: Seq<char>, provider: Seq<char>) -> bool {
    e matches AdapterError::AuthRequired { adapter_id, provider: p } && adapter_id@ == adapter
        && p@ == provider
}

/// The reason text for a missing required string field.
pub open spec fn missing_field_reason(field: Seq<char>) -> Seq<char> {
    "missing required string field `"@ + field + "`"@
}

/// Builds `InvalidParams { tool_name, reason }`.
pub fn invalid_params(tool_name: &str, reason: String) -> (e: AdapterError)
    ensures
        is_invalid_params(e, tool_name@, reason@),
{
    AdapterError::InvalidParams { tool_name: String::from_str(tool_name), reason }
}

/// Builds `ExecutionFailed { tool_name, reason }`.
pub fn execution_failed(tool_name: &str, reason: String) -> (e: AdapterError)
    ensures
        is_execution_failed(e, tool_name@, reason@),
{
    AdapterError::ExecutionFailed { tool_name: String::from_str(tool_name), reason }
}

/// Builds `AuthRequired { adapter_id, provider }`.
pub fn auth_required(adapter_id: &str, provider: &str) -> (e: AdapterError)
    ensures
        is_auth_required(e, adapter_id@, provider@),
{
    AdapterError::AuthRequired {
        adapter_id: String::from_str(adapter_id),
        provider: String::from_str(provider),
    }
}

/// The reason text `missing required string field `<field>``.
pub fn missing_field(field: &str) -> (r: String)
    ensures
        r@ == missing_field_reason(field@),
{
    let mut r = String::from_str("missing required string field `");
    r.append(field);
    r.append("`");
    r
}

impl AdapterError {
    /// The error's message, as its `Display` text reads.
    pub fn to_string(&self) -> (r: String)
        ensures
            r@ == error_text(*self),
    {
        match self {
            AdapterError::IoError(m) => {
                let mut r = String::from_str("io error: ");
                r.append(m.as_str());
                r
            },
            AdapterError::ToolNotFound { adapter_id, tool_name } => {
                let mut r = String::from_str("tool not found: `");
                r.append(tool_name.as_str());
                r.append("` on adapter `");
                r.append(adapter_id.as_str());
                r.append("`");
                r
            },
            AdapterError::InvalidParams { tool_name, reason } => {
                let mut r = String::from_str("invalid parameters for tool `");
                r.append(tool_name.as_str());
                r.append("`: ");
                r.append(reason.as_str());
                r
            },
            AdapterError::ExecutionFailed { tool_name, reason } => {
                let mut r = String::from_str("execution failed for tool `");
                r.append(tool_name.as_str());
                r.append("`: ");
                r.append(reason.as_str());
                r
            },
            AdapterError::AuthRequired { adapter_id, provider } => {
                let mut r = String::from_str("authentication required for adapter `");
                r.append(adapter_id.as_str());
                r.append("`: provider=");
                r.append(provider.as_str());
                r
            },
            AdapterError::SerializationError(m) => {
                let mut r = String::from_str("serialization error: ");
                r.append(m.as_str());
                r
            },
            AdapterError::Timeout { seconds, reason } => {
                let mut r = String::from_str("timeout after ");
                let d = u64_to_decimal(*seconds);
                r.append(d.as_str());
                r.append("s: ");
                r.append(reason.as_str());
                r
            },
            AdapterError::ConfigError(m) => {
                let mut r = String::from_str("configuration error: ");
                r.append(m.as_str());
                r
            },
            AdapterError::InvalidInput(m) => {
                let mut r = String::from_str("invalid input: ");
                r.append(m.as_str());
                r
            },
            AdapterError::ExecutionError(m) => {
                let mut r = String::from_str("execution error: ");
                r.append(m.as_str());
                r
            },
            AdapterError::Internal(m) => {
                let mut r = String::from_str("internal adapter error: ");
                r.append(m.as_str());
                r
            },
        }
    }
}

} // verus!
