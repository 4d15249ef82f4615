//! The bounded scanner and the enumeration-with-types pairing.

use mcp_redis::error::McpRedisError;
use mcp_redis::scan::effective_cap;
use mcp_redis::scan::pair_keys_with_types;
use mcp_redis::scan::scan_begin;
use mcp_redis::scan::scan_keys_result;
use mcp_redis::scan::scan_step;
use mcp_redis::scan::search_keys_result;
use mcp_redis::scan::MAX_SCAN_ITERATIONS;

fn strings(items: &[&str]) -> Vec<String> {
    items.iter().map(|s| s.to_string()).collect()
}

#[test]
fn test_effective_cap() {
    assert_eq!(effective_cap(None, 100), 100);
    assert_eq!(effective_cap(Some(10), 100), 10);
    assert_eq!(effective_cap(Some(500), 100), 100);
    assert_eq!(effective_cap(Some(0), 100), 0);
}

#[test]
fn test_scan_keys_empty() {
    let mut st = scan_begin("*", None, 100).expect("valid pattern");
    let done = scan_step(&mut st, 0, vec![]);
    assert!(done, "origin cursor ends the scan");
    let result = scan_keys_result("*", st);
    assert_eq!(result.count, 0, "empty keyspace gives 0 keys");
    assert!(result.keys.is_empty());
}

#[test]
fn test_scan_keys_with_data() {
    // A keyspace holding test:key1, test:key2, other:key; the store returns
    // all matches of "*" in one page.
    let mut st = scan_begin("*", None, 100).expect("valid pattern");
    let done = scan_step(&mut st, 0, strings(&["test:key1", "other:key", "test:key2"]));
    assert!(done);
    let result = scan_keys_result("*", st);
    assert_eq!(result.count, 3);

    // The same keyspace scanned with "test:*": the store reports only the
    // matching keys, here split over two pages.
    let mut st = scan_begin("test:*", None, 100).expect("valid pattern");
    assert!(!scan_step(&mut st, 7, strings(&["test:key1"])));
    assert!(scan_step(&mut st, 0, strings(&["test:key2"])));
    let result = scan_keys_result("test:*", st);
    assert_eq!(result.pattern, "test:*");
    assert_eq!(result.count, 2);
    let mut keys = result.keys.clone();
    keys.sort();
    assert_eq!(keys, strings(&["test:key1", "test:key2"]));
}

#[test]
fn test_scan_null_pattern_rejected_before_any_round_trip() {
    match scan_begin("bad\0pattern", None, 100) {
        Err(McpRedisError::Other(m)) => assert_eq!(m, "Pattern must not contain null bytes"),
        Ok(_) => panic!("a pattern with a null byte must be rejected"),
        Err(e) => panic!("wrong error: {:?}", e),
    }
}

#[test]
fn test_scan_result_capped_by_request() {
    let mut st = scan_begin("*", Some(2), 100).expect("valid pattern");
    let done = scan_step(&mut st, 5, strings(&["a", "b", "c", "d", "e"]));
    assert!(done, "reaching the cap ends the scan");
    let result = scan_keys_result("*", st);
    assert_eq!(result.count, 2);
    assert_eq!(result.keys, strings(&["a", "b"]));
}

#[test]
fn test_scan_request_cannot_exceed_server_cap() {
    let mut st = scan_begin("*", Some(500), 3).expect("valid pattern");
    let done = scan_step(&mut st, 0, strings(&["a", "b", "c", "d", "e"]));
    assert!(done);
    let result = scan_keys_result("*", st);
    assert_eq!(result.count, 3, "the server default caps the request");
}

#[test]
fn test_scan_safety_valve_stops_runaway_cursor() {
    let mut st = scan_begin("*", None, 100).expect("valid pattern");
    let mut rounds = 0usize;
    loop {
        // A pathological store that never returns the origin cursor and
        // never matches a key.
        let done = scan_step(&mut st, 1, vec![]);
        rounds += 1;
        if done {
            break;
        }
    }
    assert_eq!(rounds, MAX_SCAN_ITERATIONS);
}

#[test]
fn test_search_keys_pipeline() {
    // Keys search:str (a scalar) and search:hash (a field map): one batched
    // type lookup annotates them in input order.
    let keys = strings(&["search:str", "search:hash"]);
    let entries = pair_keys_with_types(keys, Some(strings(&["string", "hash"])));
    assert_eq!(entries.len(), 2);
    assert_eq!(entries[0].key, "search:str");
    assert_eq!(entries[0].key_type, "string");
    assert_eq!(entries[1].key, "search:hash");
    assert_eq!(entries[1].key_type, "hash");

    let result = search_keys_result("search:*", entries);
    assert_eq!(result.pattern, "search:*");
    assert_eq!(result.count, 2);
}

#[test]
fn test_search_keys_type_fallback() {
    // A failed batch lookup degrades to the sentinel type for every key
    // instead of propagating the error.
    let entries = pair_keys_with_types(strings(&["k1", "k2"]), None);
    assert_eq!(entries.len(), 2);
    assert_eq!(entries[0].key_type, "unknown");
    assert_eq!(entries[1].key_type, "unknown");
    assert_eq!(entries[0].key, "k1");
}

#[test]
fn test_search_keys_empty() {
    let entries = pair_keys_with_types(vec![], Some(vec![]));
    let result = search_keys_result("*", entries);
    assert_eq!(result.count, 0);
    assert!(result.keys.is_empty());
}
