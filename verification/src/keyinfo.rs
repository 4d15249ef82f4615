//! Key metadata: the classification of a key's remaining time-to-live and
//! the assembled metadata payload, with the documented best-effort defaults
//! for the optional probes.

use vstd::prelude::*;

verus! {

/// A key's remaining time-to-live, classified.
#[derive(PartialEq, Eq, Structural, Debug, Clone, Copy)]
pub enum TtlClass {
    /// The key exists and has no expiry (the store reports -1).
    NoExpiry,
    /// The key does not exist (the store reports -2).
    KeyNotFound,
    /// The remaining time in seconds, as the store reported it.
    Seconds(i64),
}

/// How a raw time-to-live report classifies.
pub open spec fn spec_classify_ttl(ttl: i64) -> TtlClass {
    if ttl == -1 {
        TtlClass::NoExpiry
    } else if ttl == -2 {
        TtlClass::KeyNotFound
    } else {
        TtlClass::Seconds(ttl)
    }
}

/// Classify a raw time-to-live report: -1 is no expiry, -2 is a missing key,
/// anything else is seconds remaining.
pub fn classify_ttl(ttl: i64) -> (c: TtlClass)
    ensures
        c == spec_classify_ttl(ttl),
{
    if ttl == -1 {
        TtlClass::NoExpiry
    } else if ttl == -2 {
        TtlClass::KeyNotFound
    } else {
        TtlClass::Seconds(ttl)
    }
}

/// The key metadata payload: reported type, classified time-to-live,
/// internal encoding, and approximate memory footprint.
#[derive(Debug, PartialEq, Eq)]
pub struct KeyInfoResult {
    pub key: String,
    pub key_type: String,
    pub ttl: TtlClass,
    pub encoding: String,
    pub memory_bytes: i64,
}

/// The assembled metadata payload. The encoding and memory probes are
/// best-effort: a failed encoding probe reports `"unknown"`, a failed memory
/// probe reports -1; neither failure aborts the operation.
pub fn key_info_result(
    key: String,
    key_type: String,
    ttl: i64,
    encoding: Option<String>,
    memory: Option<i64>,
) -> (r: KeyInfoResult)
    ensures
        r.key == key,
        r.key_type == key_type,
        r.ttl == spec_classify_ttl(ttl),
        encoding matches Some(e) ==> r.encoding == e,
        encoding is None ==> r.encoding@ == "unknown"@,
        memory matches Some(m) ==> r.memory_bytes == m,
        memory is None ==> r.memory_bytes == -1,
{
    let enc = match encoding {
        Some(e) => e,
        None => "unknown".to_owned(),
    };
    let mem = match memory {
        Some(m) => m,
        None => -1,
    };
    KeyInfoResult { key, key_type, ttl: classify_ttl(ttl), encoding: enc, memory_bytes: mem }
}

/// The key-count payload.
#[derive(Debug, PartialEq, Eq)]
pub struct DbSizeResult {
    pub dbsize: i64,
}

} // verus!
