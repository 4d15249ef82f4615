//! The typed failures an operation can surface, and their classification
//! into the two user-visible categories: invalid input (the caller can fix
//! the parameters and retry) and internal (the caller should not retry
//! blindly).

use vstd::prelude::*;
use vstd::string::StringExecFns;

verus! {

/// Every failure an operation can report.
#[derive(Debug, PartialEq, Eq)]
pub enum McpRedisError {
    /// A failure reported by the backing store, message passed through
    /// verbatim.
    Redis(String),
    /// The requested instance name has no match in the registry.
    ConnectionNotFound(String),
    /// No name was given and more than one instance is configured.
    AmbiguousConnection,
    /// The named operation writes, and write mode is not enabled.
    ReadOnly(String),
    /// A local validation failure, such as a forbidden byte in a pattern.
    Other(String),
}

/// The two user-visible failure categories.
#[derive(PartialEq, Eq, Structural, Debug, Clone, Copy)]
pub enum ErrorClass {
    /// The caller can correct the parameters and retry.
    InvalidParams,
    /// An infrastructure failure; the caller should not retry blindly.
    InternalError,
}

/// The display text of an error.
pub open spec fn spec_message(e: McpRedisError) -> Seq<char> {
    match e {
        McpRedisError::Redis(m) => "Redis error: "@ + m@,
        McpRedisError::ConnectionNotFound(n) => "Connection not found: "@ + n@,
        McpRedisError::AmbiguousConnection => {
            "Ambiguous connection: multiple Redis instances connected, specify 'connection' parameter"@
        },
        McpRedisError::ReadOnly(op) => "Write operation rejected: '"@ + op@
            + "' requires --allow-write flag"@,
        McpRedisError::Other(m) => m@,
    }
}

impl McpRedisError {
    /// Which of the two user-visible categories this failure belongs to.
    /// Local validation failures are invalid input like the other
    /// caller-correctable failures: the caller can fix the parameters and
    /// retry. Only a store-reported failure is internal.
    pub fn to_mcp_error(&self) -> (c: ErrorClass)
        ensures
            c == ErrorClass::InvalidParams <==> (self is ConnectionNotFound
                || self is AmbiguousConnection || self is ReadOnly || self is Other),
            c == ErrorClass::InternalError <==> self is Redis,
    {
        match self {
            McpRedisError::ConnectionNotFound(_) | McpRedisError::AmbiguousConnection => {
                ErrorClass::InvalidParams
            },
            McpRedisError::ReadOnly(_) | McpRedisError::Other(_) => ErrorClass::InvalidParams,
            McpRedisError::Redis(_) => ErrorClass::InternalError,
        }
    }

    /// The display text of this failure.
    pub fn message(&self) -> (m: String)
        ensures
            m@ == spec_message(*self),
    {
        match self {
            McpRedisError::Redis(m) => "Redis error: ".to_owned().concat(m.as_str()),
            McpRedisError::ConnectionNotFound(n) => "Connection not found: ".to_owned().concat(
                n.as_str(),
            ),
            McpRedisError::AmbiguousConnection => {
                "Ambiguous connection: multiple Redis instances connected, specify 'connection' parameter".to_owned()
            },
            McpRedisError::ReadOnly(op) => "Write operation rejected: '".to_owned().concat(
                op.as_str(),
            ).concat("' requires --allow-write flag"),
            McpRedisError::Other(m) => m.clone(),
        }
    }
}

} // verus!
