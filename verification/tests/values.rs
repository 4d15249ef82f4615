//! The value normalizer, the set/ordered-set members operation, key
//! metadata, and list ranges.

use mcp_redis::keyinfo::classify_ttl;
use mcp_redis::keyinfo::key_info_result;
use mcp_redis::keyinfo::TtlClass;
use mcp_redis::listrange::list_range_bounds;
use mcp_redis::listrange::list_range_result;
use mcp_redis::members::set_members_absent;
use mcp_redis::members::set_members_plan;
use mcp_redis::members::set_members_result;
use mcp_redis::members::set_members_wrong_type;
use mcp_redis::members::zset_members_result;
use mcp_redis::members::SetMembersPlan;
use mcp_redis::members::SetMembersResult;
use mcp_redis::value::fetch_plan;
use mcp_redis::value::get_absent_result;
use mcp_redis::value::get_hash_result;
use mcp_redis::value::get_list_result;
use mcp_redis::value::get_set_result;
use mcp_redis::value::get_string_result;
use mcp_redis::value::get_unsupported_result;
use mcp_redis::value::get_zset_result;
use mcp_redis::value::FetchPlan;
use mcp_redis::value::FieldValue;
use mcp_redis::value::GetResult;
use mcp_redis::value::NormalizedValue;
use mcp_redis::value::ScoredMember;

fn strings(items: &[&str]) -> Vec<String> {
    items.iter().map(|s| s.to_string()).collect()
}

#[test]
fn test_fetch_plan_dispatch() {
    assert_eq!(fetch_plan("string"), FetchPlan::FetchString);
    assert_eq!(fetch_plan("list"), FetchPlan::FetchList);
    assert_eq!(fetch_plan("set"), FetchPlan::FetchSet);
    assert_eq!(fetch_plan("zset"), FetchPlan::FetchZSet);
    assert_eq!(fetch_plan("hash"), FetchPlan::FetchHash);
    assert_eq!(fetch_plan("none"), FetchPlan::Absent);
    assert_eq!(fetch_plan("stream"), FetchPlan::Unsupported);
    assert_eq!(fetch_plan(""), FetchPlan::Unsupported);
}

#[test]
fn test_get_string() {
    // A scalar key "mystr" holding "hello world".
    assert_eq!(fetch_plan("string"), FetchPlan::FetchString);
    let r = get_string_result("mystr".to_string(), "hello world".to_string());
    match r {
        GetResult::Value { key, key_type, value } => {
            assert_eq!(key, "mystr");
            assert_eq!(key_type, "string");
            assert_eq!(value, NormalizedValue::Text("hello world".to_string()));
        },
        GetResult::Absent { .. } => panic!("expected a value"),
    }
}

#[test]
fn test_get_hash() {
    // A field-map key with fields {field1: val1, field2: val2}.
    let fields = vec![
        FieldValue { field: "field1".to_string(), value: "val1".to_string() },
        FieldValue { field: "field2".to_string(), value: "val2".to_string() },
    ];
    let r = get_hash_result("myhash".to_string(), fields);
    match r {
        GetResult::Value { key, key_type, value } => {
            assert_eq!(key, "myhash");
            assert_eq!(key_type, "hash");
            match value {
                NormalizedValue::Fields(fs) => {
                    assert_eq!(fs.len(), 2);
                    assert_eq!(fs[0].field, "field1");
                    assert_eq!(fs[0].value, "val1");
                    assert_eq!(fs[1].field, "field2");
                    assert_eq!(fs[1].value, "val2");
                },
                other => panic!("expected Fields, got {:?}", other),
            }
        },
        GetResult::Absent { .. } => panic!("expected a value"),
    }
}

#[test]
fn test_get_list() {
    let r = get_list_result("mylist".to_string(), strings(&["a", "b", "c"]));
    match r {
        GetResult::Value { key_type, value, .. } => {
            assert_eq!(key_type, "list");
            assert_eq!(value, NormalizedValue::TextList(strings(&["a", "b", "c"])));
        },
        GetResult::Absent { .. } => panic!("expected a value"),
    }
}

#[test]
fn test_get_set() {
    let r = get_set_result("myset".to_string(), strings(&["x", "y"]));
    match r {
        GetResult::Value { key_type, value, .. } => {
            assert_eq!(key_type, "set");
            assert_eq!(value, NormalizedValue::TextSet(strings(&["x", "y"])));
        },
        GetResult::Absent { .. } => panic!("expected a value"),
    }
}

#[test]
fn test_get_zset() {
    let members = vec![
        ScoredMember { member: "one".to_string(), score_bits: 1.0f64.to_bits() },
        ScoredMember { member: "two".to_string(), score_bits: 2.0f64.to_bits() },
    ];
    let r = get_zset_result("myzset".to_string(), members);
    match r {
        GetResult::Value { key_type, value, .. } => {
            assert_eq!(key_type, "zset");
            match value {
                NormalizedValue::ScoredMembers(ms) => {
                    assert_eq!(ms.len(), 2);
                    assert_eq!(ms[0].member, "one");
                    assert_eq!(f64::from_bits(ms[0].score_bits), 1.0);
                },
                other => panic!("expected ScoredMembers, got {:?}", other),
            }
        },
        GetResult::Absent { .. } => panic!("expected a value"),
    }
}

#[test]
fn test_get_nonexistent() {
    // The absent outcome is a distinct valid payload, not a store error.
    assert_eq!(fetch_plan("none"), FetchPlan::Absent);
    let r = get_absent_result("does_not_exist".to_string());
    assert_eq!(r, GetResult::Absent { key: "does_not_exist".to_string() });
}

#[test]
fn test_get_unsupported_type() {
    let r = get_unsupported_result("mystream".to_string(), "stream".to_string());
    match r {
        GetResult::Value { key, key_type, value } => {
            assert_eq!(key, "mystream");
            assert_eq!(key_type, "stream");
            assert_eq!(value, NormalizedValue::Unsupported("stream".to_string()));
        },
        GetResult::Absent { .. } => panic!("expected a value"),
    }
}

#[test]
fn test_repeated_reads_identical() {
    // Two reads that see the same stored data produce identical payloads.
    let a = get_string_result("k".to_string(), "v".to_string());
    let b = get_string_result("k".to_string(), "v".to_string());
    assert_eq!(a, b);
    let fields = || vec![FieldValue { field: "f".to_string(), value: "v".to_string() }];
    assert_eq!(
        get_hash_result("h".to_string(), fields()),
        get_hash_result("h".to_string(), fields())
    );
}

#[test]
fn test_get_set_members() {
    // A set {alpha, beta, gamma} with no cap.
    assert_eq!(set_members_plan("set", None), SetMembersPlan::FetchSet);
    let r = set_members_result("myset".to_string(), strings(&["alpha", "beta", "gamma"]), None);
    match r {
        SetMembersResult::PlainSet { key, members, count } => {
            assert_eq!(key, "myset");
            assert_eq!(count, 3);
            assert_eq!(members, strings(&["alpha", "beta", "gamma"]));
        },
        other => panic!("expected PlainSet, got {:?}", other),
    }
}

#[test]
fn test_get_set_members_capped() {
    let r = set_members_result("myset".to_string(), strings(&["a", "b", "c"]), Some(2));
    match r {
        SetMembersResult::PlainSet { members, count, .. } => {
            assert_eq!(count, 2);
            assert_eq!(members, strings(&["a", "b"]));
        },
        other => panic!("expected PlainSet, got {:?}", other),
    }
    // A negative cap, like no cap, keeps the whole membership.
    let r = set_members_result("myset".to_string(), strings(&["a", "b", "c"]), Some(-1));
    match r {
        SetMembersResult::PlainSet { count, .. } => assert_eq!(count, 3),
        other => panic!("expected PlainSet, got {:?}", other),
    }
}

#[test]
fn test_get_zset_members() {
    // An ordered set {one: 1.0, two: 2.0, three: 3.0} with cap 2: the range
    // fetch runs 0..=1 and returns the first two ordered pairs.
    match set_members_plan("zset", Some(2)) {
        SetMembersPlan::FetchZSetRange { stop } => assert_eq!(stop, 1),
        other => panic!("expected FetchZSetRange, got {:?}", other),
    }
    let fetched = vec![
        ScoredMember { member: "one".to_string(), score_bits: 1.0f64.to_bits() },
        ScoredMember { member: "two".to_string(), score_bits: 2.0f64.to_bits() },
    ];
    let r = zset_members_result("myzset".to_string(), fetched);
    match r {
        SetMembersResult::ZSet { members, count, .. } => {
            assert_eq!(count, 2);
            assert_eq!(members[0].member, "one");
            assert!(f64::from_bits(members[0].score_bits) >= 0.0);
            assert!(f64::from_bits(members[1].score_bits) >= 0.0);
            assert_eq!(f64::from_bits(members[1].score_bits), 2.0);
        },
        other => panic!("expected ZSet, got {:?}", other),
    }
}

#[test]
fn test_get_zset_members_uncapped_plan() {
    match set_members_plan("zset", None) {
        SetMembersPlan::FetchZSetRange { stop } => assert_eq!(stop, -1),
        other => panic!("expected FetchZSetRange, got {:?}", other),
    }
}

#[test]
fn test_set_members_missing_and_wrong_type() {
    assert_eq!(set_members_plan("none", None), SetMembersPlan::ReportAbsent);
    assert_eq!(set_members_plan("string", None), SetMembersPlan::ReportWrongType);
    // The extreme cap is fine everywhere the stop index is never computed.
    assert_eq!(set_members_plan("none", Some(i64::MIN)), SetMembersPlan::ReportAbsent);
    assert_eq!(set_members_plan("string", Some(i64::MIN)), SetMembersPlan::ReportWrongType);
    assert_eq!(set_members_plan("set", Some(i64::MIN)), SetMembersPlan::FetchSet);
    match set_members_result("s".to_string(), strings(&["a", "b"]), Some(i64::MIN)) {
        SetMembersResult::PlainSet { count, .. } => assert_eq!(count, 2),
        other => panic!("expected PlainSet, got {:?}", other),
    }
    assert_eq!(
        set_members_absent("gone".to_string()),
        SetMembersResult::Absent { key: "gone".to_string() }
    );
    assert_eq!(
        set_members_wrong_type("k".to_string(), "list".to_string()),
        SetMembersResult::WrongType { key: "k".to_string(), key_type: "list".to_string() }
    );
}

#[test]
fn test_key_info() {
    // A freshly set scalar key: type string, no expiry.
    let r = key_info_result(
        "infokey".to_string(),
        "string".to_string(),
        -1,
        Some("embstr".to_string()),
        Some(56),
    );
    assert_eq!(r.key_type, "string");
    assert_eq!(r.ttl, TtlClass::NoExpiry);
    assert_eq!(r.encoding, "embstr");
    assert_eq!(r.memory_bytes, 56);
}

#[test]
fn test_ttl_classification() {
    assert_eq!(classify_ttl(-1), TtlClass::NoExpiry);
    assert_eq!(classify_ttl(-2), TtlClass::KeyNotFound);
    assert_eq!(classify_ttl(0), TtlClass::Seconds(0));
    assert_eq!(classify_ttl(3600), TtlClass::Seconds(3600));
}

#[test]
fn test_key_info_probe_defaults() {
    let r = key_info_result("k".to_string(), "string".to_string(), 5, None, None);
    assert_eq!(r.ttl, TtlClass::Seconds(5));
    assert_eq!(r.encoding, "unknown");
    assert_eq!(r.memory_bytes, -1);
}

#[test]
fn test_get_list_range() {
    // list1 = [a, b, c, d, e], range 1..=3.
    let (start, stop) = list_range_bounds(Some(1), Some(3));
    assert_eq!((start, stop), (1, 3));
    let r = list_range_result("list1".to_string(), start, stop, strings(&["b", "c", "d"]));
    assert_eq!(r.count, 3);
    assert_eq!(r.elements[0], "b");
    assert_eq!(r.elements[2], "d");
}

#[test]
fn test_get_list_range_full() {
    let (start, stop) = list_range_bounds(None, None);
    assert_eq!((start, stop), (0, -1));
    let r = list_range_result("list2".to_string(), start, stop, strings(&["x", "y", "z"]));
    assert_eq!(r.count, 3);
    assert_eq!(r.start, 0);
    assert_eq!(r.stop, -1);
}
