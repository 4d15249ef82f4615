//! Per-operation input records. They arrive structurally validated (required
//! fields present); semantic validation happens inside the operations.

use vstd::prelude::*;

verus! {

/// Parameters for operations that take nothing but an optional instance name.
pub struct ConnectionParam {
    /// Connection name (optional if only one instance is connected).
    pub connection: Option<String>,
}

/// Parameters for the server-info operation.
pub struct InfoParams {
    /// Connection name (optional if only one instance is connected).
    pub connection: Option<String>,
    /// Info section to retrieve; all sections when absent.
    pub section: Option<String>,
}

/// Parameters for key enumeration, with or without types.
pub struct ScanParams {
    /// Connection name (optional if only one instance is connected).
    pub connection: Option<String>,
    /// Key pattern to match; every key when absent.
    pub pattern: Option<String>,
    /// Maximum number of keys to return.
    pub count: Option<u32>,
}

/// Parameters for operations on a single key.
pub struct KeyParams {
    /// Connection name (optional if only one instance is connected).
    pub connection: Option<String>,
    /// Key name to inspect.
    pub key: String,
}

/// Parameters for retrieving chosen fields of a field-map key.
pub struct HashFieldParams {
    /// Connection name (optional if only one instance is connected).
    pub connection: Option<String>,
    /// Hash key name.
    pub key: String,
    /// Comma-separated field names to retrieve.
    pub fields: String,
}

/// Parameters for retrieving a sub-range of an ordered-list key.
pub struct ListRangeParams {
    /// Connection name (optional if only one instance is connected).
    pub connection: Option<String>,
    /// List key name.
    pub key: String,
    /// Start index; 0 when absent.
    pub start: Option<i64>,
    /// Stop index, inclusive; -1 (end of list) when absent.
    pub stop: Option<i64>,
}

/// Parameters for retrieving members of a set or ordered-set key.
pub struct SetMembersParams {
    /// Connection name (optional if only one instance is connected).
    pub connection: Option<String>,
    /// Set or sorted set key name.
    pub key: String,
    /// Maximum number of members to return.
    pub count: Option<i64>,
}

/// Parameters for reading recent slow-operation log entries.
pub struct SlowlogParams {
    /// Connection name (optional if only one instance is connected).
    pub connection: Option<String>,
    /// Number of entries to return; 10 when absent.
    pub count: Option<u32>,
}

} // verus!
