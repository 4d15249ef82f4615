//! The value normalizer: dispatch on a key's reported type to exactly one
//! follow-up retrieval command, and the uniform structured representation
//! the five native value shapes normalize into.
//!
//! The caller performs the round trips: it queries the key's type, asks
//! [`fetch_plan`] which retrieval the type calls for, runs that one command,
//! and hands the raw reply to the matching constructor.

use vstd::prelude::*;

use crate::text::str_eq;

verus! {

/// One member of an ordered set with its numeric score. The score is carried
/// as the bit pattern of the 64-bit floating-point number the store
/// reported, kept exact rather than re-serialized as text; a display layer
/// turns the bits back into the number.
#[derive(Debug, PartialEq, Eq)]
pub struct ScoredMember {
    pub member: String,
    pub score_bits: u64,
}

impl View for ScoredMember {
    type V = (Seq<char>, u64);

    open spec fn view(&self) -> (Seq<char>, u64) {
        (self.member@, self.score_bits)
    }
}

/// One field of a field-map key with its text value.
#[derive(Debug, PartialEq, Eq)]
pub struct FieldValue {
    pub field: String,
    pub value: String,
}

impl View for FieldValue {
    type V = (Seq<char>, Seq<char>);

    open spec fn view(&self) -> (Seq<char>, Seq<char>) {
        (self.field@, self.value@)
    }
}

/// The uniform structured value: a tagged union over the five native value
/// shapes, with a fallback variant carrying an unrecognized type name so new
/// store-side types degrade gracefully.
#[derive(Debug, PartialEq, Eq)]
pub enum NormalizedValue {
    /// A scalar text value.
    Text(String),
    /// The full ordered range of an ordered-list key.
    TextList(Vec<String>),
    /// The full membership of an unordered-set key; order not significant.
    TextSet(Vec<String>),
    /// The full ordered range of an ordered-set key, scores included.
    ScoredMembers(Vec<ScoredMember>),
    /// Every field of a field-map key; insertion order not significant.
    Fields(Vec<FieldValue>),
    /// An unrecognized reported type, carried through; nothing was fetched.
    Unsupported(String),
}

/// The mathematical content of a [`NormalizedValue`].
pub ghost enum NormalizedValueView {
    Text(Seq<char>),
    TextList(Seq<Seq<char>>),
    TextSet(Seq<Seq<char>>),
    ScoredMembers(Seq<(Seq<char>, u64)>),
    Fields(Seq<(Seq<char>, Seq<char>)>),
    Unsupported(Seq<char>),
}

impl View for NormalizedValue {
    type V = NormalizedValueView;

    open spec fn view(&self) -> NormalizedValueView {
        match self {
            NormalizedValue::Text(s) => NormalizedValueView::Text(s@),
            NormalizedValue::TextList(v) => NormalizedValueView::TextList(v.deep_view()),
            NormalizedValue::TextSet(v) => NormalizedValueView::TextSet(v.deep_view()),
            NormalizedValue::ScoredMembers(v) => NormalizedValueView::ScoredMembers(
                v@.map_values(|m: ScoredMember| m@),
            ),
            NormalizedValue::Fields(v) => NormalizedValueView::Fields(
                v@.map_values(|f: FieldValue| f@),
            ),
            NormalizedValue::Unsupported(t) => NormalizedValueView::Unsupported(t@),
        }
    }
}

/// The value-retrieval payload: either the key with its reported type and
/// normalized value, or the distinct absent outcome — a valid result the
/// caller can tell apart from a found-but-empty value, not an error.
#[derive(Debug, PartialEq, Eq)]
pub enum GetResult {
    Value { key: String, key_type: String, value: NormalizedValue },
    Absent { key: String },
}

/// The mathematical content of a [`GetResult`].
pub ghost enum GetResultView {
    Value { key: Seq<char>, key_type: Seq<char>, value: NormalizedValueView },
    Absent { key: Seq<char> },
}

impl View for GetResult {
    type V = GetResultView;

    open spec fn view(&self) -> GetResultView {
        match self {
            GetResult::Value { key, key_type, value } => GetResultView::Value {
                key: key@,
                key_type: key_type@,
                value: value@,
            },
            GetResult::Absent { key } => GetResultView::Absent { key: key@ },
        }
    }
}

/// The follow-up retrieval a reported type dispatches to.
#[derive(Debug, PartialEq, Eq)]
pub enum FetchPlan {
    /// A scalar: whole-value fetch.
    FetchString,
    /// An ordered list: full ordered range.
    FetchList,
    /// An unordered set: full membership.
    FetchSet,
    /// An ordered set: full ordered range including scores.
    FetchZSet,
    /// A field map: full field/value enumeration.
    FetchHash,
    /// The key does not exist; report the absent outcome, fetch nothing.
    Absent,
    /// An unrecognized type; report the fallback, fetch nothing.
    Unsupported,
}

/// Which retrieval each reported type name calls for.
pub open spec fn spec_fetch_plan(t: Seq<char>) -> FetchPlan {
    if t == "string"@ {
        FetchPlan::FetchString
    } else if t == "list"@ {
        FetchPlan::FetchList
    } else if t == "set"@ {
        FetchPlan::FetchSet
    } else if t == "zset"@ {
        FetchPlan::FetchZSet
    } else if t == "hash"@ {
        FetchPlan::FetchHash
    } else if t == "none"@ {
        FetchPlan::Absent
    } else {
        FetchPlan::Unsupported
    }
}

/// Dispatch on the key's reported type: exactly one follow-up retrieval
/// command, the absent outcome for a missing key, or the fallback for a type
/// this system does not recognize.
pub fn fetch_plan(key_type: &str) -> (p: FetchPlan)
    ensures
        p == spec_fetch_plan(key_type@),
{
    if str_eq(key_type, "string") {
        FetchPlan::FetchString
    } else if str_eq(key_type, "list") {
        FetchPlan::FetchList
    } else if str_eq(key_type, "set") {
        FetchPlan::FetchSet
    } else if str_eq(key_type, "zset") {
        FetchPlan::FetchZSet
    } else if str_eq(key_type, "hash") {
        FetchPlan::FetchHash
    } else if str_eq(key_type, "none") {
        FetchPlan::Absent
    } else {
        FetchPlan::Unsupported
    }
}

/// The payload of a scalar key: its whole text value.
pub fn get_string_result(key: String, v: String) -> (r: GetResult)
    ensures
        r@ == (GetResultView::Value {
            key: key@,
            key_type: "string"@,
            value: NormalizedValueView::Text(v@),
        }),
{
    GetResult::Value { key, key_type: "string".to_owned(), value: NormalizedValue::Text(v) }
}

/// The payload of an ordered-list key: its full range, in order.
pub fn get_list_result(key: String, items: Vec<String>) -> (r: GetResult)
    ensures
        r@ == (GetResultView::Value {
            key: key@,
            key_type: "list"@,
            value: NormalizedValueView::TextList(items.deep_view()),
        }),
{
    GetResult::Value { key, key_type: "list".to_owned(), value: NormalizedValue::TextList(items) }
}

/// The payload of an unordered-set key: its full membership.
pub fn get_set_result(key: String, members: Vec<String>) -> (r: GetResult)
    ensures
        r@ == (GetResultView::Value {
            key: key@,
            key_type: "set"@,
            value: NormalizedValueView::TextSet(members.deep_view()),
        }),
{
    GetResult::Value { key, key_type: "set".to_owned(), value: NormalizedValue::TextSet(members) }
}

/// The payload of an ordered-set key: its full ordered range with scores.
pub fn get_zset_result(key: String, members: Vec<ScoredMember>) -> (r: GetResult)
    ensures
        r@ == (GetResultView::Value {
            key: key@,
            key_type: "zset"@,
            value: NormalizedValueView::ScoredMembers(members@.map_values(|m: ScoredMember| m@)),
        }),
{
    GetResult::Value {
        key,
        key_type: "zset".to_owned(),
        value: NormalizedValue::ScoredMembers(members),
    }
}

/// The payload of a field-map key: every field with its text value.
pub fn get_hash_result(key: String, fields: Vec<FieldValue>) -> (r: GetResult)
    ensures
        r@ == (GetResultView::Value {
            key: key@,
            key_type: "hash"@,
            value: NormalizedValueView::Fields(fields@.map_values(|f: FieldValue| f@)),
        }),
{
    GetResult::Value { key, key_type: "hash".to_owned(), value: NormalizedValue::Fields(fields) }
}

/// The payload of a key that does not exist: the absent outcome, carrying
/// the key so the caller can report it.
pub fn get_absent_result(key: String) -> (r: GetResult)
    ensures
        r@ == (GetResultView::Absent { key: key@ }),
{
    GetResult::Absent { key }
}

/// The payload of a key whose reported type this system does not recognize:
/// the fallback, carrying the raw type name; nothing was fetched.
pub fn get_unsupported_result(key: String, key_type: String) -> (r: GetResult)
    ensures
        r@ == (GetResultView::Value {
            key: key@,
            key_type: key_type@,
            value: NormalizedValueView::Unsupported(key_type@),
        }),
{
    let raw = key_type.clone();
    GetResult::Value { key, key_type, value: NormalizedValue::Unsupported(raw) }
}

/// Law: retrieval output is a function of the key and the store's responses
/// alone, so repeated reads of an unmodified key return identical payloads —
/// two reads that saw the same reported type and the same raw value produce
/// payloads with the same content. The premise is exactly what the
/// constructors above ensure of each read.
pub proof fn lemma_retrieval_idempotent(r1: GetResult, r2: GetResult, v: GetResultView)
    requires
        r1@ == v,
        r2@ == v,
    ensures
        r1@ == r2@,
{
}

} // verus!
