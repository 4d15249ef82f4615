//! The sub-range retrieval for ordered-list keys: index defaulting and the
//! range payload.

use vstd::prelude::*;

verus! {

/// The resolved inclusive range a list fetch uses: start defaults to 0, stop
/// defaults to -1 (the end of the list).
pub fn list_range_bounds(start: Option<i64>, stop: Option<i64>) -> (r: (i64, i64))
    ensures
        r.0 == (match start {
            Some(s) => s,
            None => 0int as i64,
        }),
        r.1 == (match stop {
            Some(s) => s,
            None => -1int as i64,
        }),
{
    let s = match start {
        Some(s) => s,
        None => 0,
    };
    let e = match stop {
        Some(e) => e,
        None => -1,
    };
    (s, e)
}

/// The list-range payload: the key, the resolved bounds the fetch used, the
/// fetched elements in order, and their count.
#[derive(Debug, PartialEq, Eq)]
pub struct ListRangeResult {
    pub key: String,
    pub start: i64,
    pub stop: i64,
    pub elements: Vec<String>,
    pub count: usize,
}

/// The assembled list-range payload.
pub fn list_range_result(key: String, start: i64, stop: i64, elements: Vec<String>) -> (r:
    ListRangeResult)
    ensures
        r.key == key,
        r.start == start,
        r.stop == stop,
        r.elements@ == elements@,
        r.count == elements@.len(),
{
    let count = elements.len();
    ListRangeResult { key, start, stop, elements, count }
}

} // verus!
