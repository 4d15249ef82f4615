//! Retrieval of chosen fields from a field-map key: parsing the
//! comma-separated field-name list and pairing the names with the store's
//! per-field replies.

use vstd::prelude::*;

use crate::text::spec_split;
use crate::text::spec_trim;
use crate::text::split_and_trim;

verus! {

/// The requested field names: the comma-separated pieces of the parameter,
/// each trimmed of surrounding blanks, in request order.
pub fn parse_field_names(fields: &str) -> (r: Vec<String>)
    ensures
        r.deep_view() == spec_split(fields@, ',').map_values(|p: Seq<char>| spec_trim(p)),
{
    split_and_trim(fields, ',')
}

/// One requested field with the store's reply: its value when the field
/// exists, the empty string when it does not.
#[derive(Debug, PartialEq, Eq)]
pub struct HashFieldEntry {
    pub field: String,
    pub value: String,
    pub exists: bool,
}

/// The requested fields paired with the store's replies, in request order:
/// one entry per requested field, a missing field reported with an empty
/// value and `exists` false.
#[verifier::loop_isolation(false)]
pub fn pair_hash_fields(fields: Vec<String>, values: Vec<Option<String>>) -> (r: Vec<
    HashFieldEntry,
>)
    ensures
        r@.len() == (if fields@.len() <= values@.len() {
            fields@.len()
        } else {
            values@.len()
        }),
        forall|i: int|
            0 <= i < r@.len() ==> (#[trigger] r@[i]).field@ == fields@[i]@ && (match values@[i] {
                Some(v) => r@[i].value@ == v@ && r@[i].exists,
                None => r@[i].value@ == Seq::<char>::empty() && !r@[i].exists,
            }),
{
    let n = if fields.len() <= values.len() {
        fields.len()
    } else {
        values.len()
    };
    let mut out: Vec<HashFieldEntry> = Vec::new();
    for i in 0..n
        invariant
            out@.len() == i,
            forall|j: int|
                0 <= j < i ==> (#[trigger] out@[j]).field@ == fields@[j]@ && (match values@[j] {
                    Some(v) => out@[j].value@ == v@ && out@[j].exists,
                    None => out@[j].value@ == Seq::<char>::empty() && !out@[j].exists,
                }),
    {
        let entry = match &values[i] {
            Some(v) => HashFieldEntry { field: fields[i].clone(), value: v.clone(), exists: true },
            None => HashFieldEntry {
                field: fields[i].clone(),
                value: String::new(),
                exists: false,
            },
        };
        out.push(entry);
    }
    out
}

/// The chosen-fields payload: the key and the per-field entries in request
/// order.
#[derive(Debug, PartialEq, Eq)]
pub struct HashFieldsResult {
    pub key: String,
    pub fields: Vec<HashFieldEntry>,
}

} // verus!
