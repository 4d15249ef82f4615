//! Membership retrieval for set and ordered-set keys: dispatch on the key's
//! reported type, the caller-requested member cap, and the result payloads.
//!
//! The caller queries the key's type, asks [`set_members_plan`] what to do,
//! runs the one retrieval the plan names, and hands the raw reply to the
//! matching result function.

use vstd::prelude::*;

use crate::text::str_eq;
use crate::value::ScoredMember;

verus! {

/// What the members operation does for a reported key type.
#[derive(Debug, PartialEq, Eq)]
pub enum SetMembersPlan {
    /// An unordered set: fetch the full membership, cap it afterwards.
    FetchSet,
    /// An ordered set: fetch the range from 0 through `stop` with scores.
    FetchZSetRange { stop: i64 },
    /// The key does not exist; report the absent outcome, fetch nothing.
    ReportAbsent,
    /// Neither kind of set; report the mismatch, fetch nothing.
    ReportWrongType,
}

/// The inclusive stop index an ordered-set range fetch uses: one less than
/// the requested cap, or -1 (the whole range) when no cap was given. Note
/// the corner this creates: a cap of 0 gives stop -1, which the range fetch
/// reads as the whole range, while the plain-set cap takes 0 literally and
/// returns no members.
pub open spec fn spec_zset_stop(count: Option<i64>) -> int {
    match count {
        Some(c) => c - 1,
        None => -1,
    }
}

/// Which retrieval the members operation dispatches to for each reported
/// type.
pub open spec fn spec_set_members_plan(t: Seq<char>, count: Option<i64>) -> SetMembersPlan {
    if t == "set"@ {
        SetMembersPlan::FetchSet
    } else if t == "zset"@ {
        SetMembersPlan::FetchZSetRange { stop: spec_zset_stop(count) as i64 }
    } else if t == "none"@ {
        SetMembersPlan::ReportAbsent
    } else {
        SetMembersPlan::ReportWrongType
    }
}

/// Dispatch on the key's reported type: sets and ordered sets each get their
/// one retrieval; a missing key and any other type are reported without a
/// fetch. Only the ordered-set branch computes a stop index, so only there
/// must the cap leave room for the subtraction.
pub fn set_members_plan(key_type: &str, count: Option<i64>) -> (p: SetMembersPlan)
    requires
        key_type@ == "zset"@ ==> (count matches Some(c) ==> c > i64::MIN),
    ensures
        p == spec_set_members_plan(key_type@, count),
{
    if str_eq(key_type, "set") {
        SetMembersPlan::FetchSet
    } else if str_eq(key_type, "zset") {
        let stop: i64 = match count {
            Some(c) => c - 1,
            None => -1,
        };
        SetMembersPlan::FetchZSetRange { stop }
    } else if str_eq(key_type, "none") {
        SetMembersPlan::ReportAbsent
    } else {
        SetMembersPlan::ReportWrongType
    }
}

/// The members payload: one variant per outcome the operation can report.
#[allow(inconsistent_fields)]
#[derive(Debug, PartialEq, Eq)]
pub enum SetMembersResult {
    /// An unordered set's members, capped to the request.
    PlainSet { key: String, members: Vec<String>, count: usize },
    /// An ordered set's members with scores, in range order.
    ZSet { key: String, members: Vec<ScoredMember>, count: usize },
    /// The key does not exist.
    Absent { key: String },
    /// The key is neither a set nor an ordered set; carries its raw type.
    WrongType { key: String, key_type: String },
}

/// A set's membership capped to the request: the first `count` members when
/// a non-negative cap was given and the set is larger, the whole membership
/// otherwise (no cap, a cap past the end, or a negative cap).
pub open spec fn spec_limited_members(members: Seq<String>, count: Option<i64>) -> Seq<String> {
    match count {
        None => members,
        Some(c) => if c < 0 || c >= members.len() {
            members
        } else {
            members.take(c as int)
        },
    }
}

/// The payload of an unordered-set key: its membership capped to the
/// request, and the capped count.
pub fn set_members_result(key: String, members: Vec<String>, count: Option<i64>) -> (r:
    SetMembersResult)
    ensures
        r matches SetMembersResult::PlainSet { key: k, members: m, count: n } && k == key && m@
            == spec_limited_members(members@, count) && n == m@.len(),
{
    let ghost orig: Seq<String> = members@;
    let mut limited = members;
    if let Some(c) = count {
        if c >= 0 {
            let cap: usize = if c as u64 >= limited.len() as u64 {
                limited.len()
            } else {
                c as usize
            };
            limited.truncate(cap);
        }
    }
    proof {
        assert(limited@ =~= spec_limited_members(orig, count));
    }
    let n = limited.len();
    SetMembersResult::PlainSet { key, members: limited, count: n }
}

/// The payload of an ordered-set key: the fetched range with scores, in
/// order, and its count. The range fetch already applied the cap.
pub fn zset_members_result(key: String, members: Vec<ScoredMember>) -> (r: SetMembersResult)
    ensures
        r matches SetMembersResult::ZSet { key: k, members: m, count: n } && k == key && m@
            == members@ && n == members@.len(),
{
    let n = members.len();
    SetMembersResult::ZSet { key, members, count: n }
}

/// The payload of a members request on a key that does not exist.
pub fn set_members_absent(key: String) -> (r: SetMembersResult)
    ensures
        r matches SetMembersResult::Absent { key: k } && k == key,
{
    SetMembersResult::Absent { key }
}

/// The payload of a members request on a key of any other type, carrying the
/// raw type name for the report.
pub fn set_members_wrong_type(key: String, key_type: String) -> (r: SetMembersResult)
    ensures
        r matches SetMembersResult::WrongType { key: k, key_type: t } && k == key && t == key_type,
{
    SetMembersResult::WrongType { key, key_type }
}

} // verus!
