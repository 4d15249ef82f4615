//! The bounded scanner: cursor-driven enumeration of keys matching a glob
//! pattern, with a hard cap on both the result count and the number of
//! cursor round trips.
//!
//! The caller performs the store round trips: it starts a scan with
//! [`scan_begin`], feeds each page the store returned into [`scan_step`]
//! until that reports the scan done, and turns the final state into a result
//! with [`scan_keys_result`] or, paired with the keys' reported types, with
//! [`pair_keys_with_types`] and [`search_keys_result`].

use vstd::prelude::*;

use crate::error::McpRedisError;
use crate::server::validate_pattern;

verus! {

/// Maximum number of cursor round trips, a safety valve: enumeration over a
/// very large, sparse keyspace can require unboundedly many empty-looking
/// pages, and this ceiling bounds one call's work independently of cursor
/// behavior.
pub const MAX_SCAN_ITERATIONS: usize = 1000;

/// Transient, operation-scoped state of one enumeration call: the
/// accumulated keys, the opaque cursor token to send next (0 is the origin),
/// the round-trip counter, and the effective result cap.
pub struct ScanState {
    pub keys: Vec<String>,
    pub cursor: u64,
    pub iterations: usize,
    pub max_keys: u32,
}

impl ScanState {
    /// Whether enumeration stops: the cursor returned to the origin, the
    /// accumulated keys reached the cap, or the round-trip counter reached
    /// the safety ceiling — whichever comes first.
    pub open spec fn spec_done(self) -> bool {
        self.cursor == 0 || self.keys@.len() >= self.max_keys || self.iterations
            >= MAX_SCAN_ITERATIONS
    }
}

/// The result cap a scan works under: the caller-requested cap can only
/// shrink the result, never exceed the server-configured ceiling.
pub open spec fn spec_effective_cap(requested: Option<u32>, server_default: u32) -> u32 {
    let asked = match requested {
        Some(c) => c,
        None => server_default,
    };
    if asked < server_default {
        asked
    } else {
        server_default
    }
}

/// Largest number of keys a scan may return, from the caller's request and
/// the server's configured default cap.
pub fn effective_cap(requested: Option<u32>, server_default: u32) -> (cap: u32)
    ensures
        cap == spec_effective_cap(requested, server_default),
        cap <= server_default,
{
    let asked = match requested {
        Some(c) => c,
        None => server_default,
    };
    if asked < server_default {
        asked
    } else {
        server_default
    }
}

/// The accumulated keys truncated to the cap: a page can overshoot the cap,
/// since the page size is independent of it.
pub open spec fn truncated_keys(keys: Seq<String>, cap: int) -> Seq<String> {
    if keys.len() <= cap {
        keys
    } else {
        keys.take(cap)
    }
}

/// The state a scan starts from: no keys, the origin cursor, no round trips
/// taken, and the effective cap recorded. Fails, before any store round
/// trip, exactly when the pattern contains a null byte.
pub fn scan_begin(pattern: &str, requested: Option<u32>, server_default: u32) -> (r: Result<
    ScanState,
    McpRedisError,
>)
    ensures
        r is Ok <==> !pattern@.contains('\0'),
        pattern@.contains('\0') ==> (r matches Err(McpRedisError::Other(m)) && m@
            == "Pattern must not contain null bytes"@),
        r matches Ok(st) ==> st.keys@ =~= Seq::<String>::empty() && st.cursor == 0
            && st.iterations == 0 && st.max_keys == spec_effective_cap(requested, server_default),
{
    validate_pattern(pattern)?;
    Ok(
        ScanState {
            keys: Vec::new(),
            cursor: 0,
            iterations: 0,
            max_keys: effective_cap(requested, server_default),
        },
    )
}

/// One cursor round trip folded into the scan: the page's keys are appended,
/// the cursor advances to the value the store returned, and the round-trip
/// counter grows by one. Returns whether enumeration stops here.
pub fn scan_step(st: &mut ScanState, next_cursor: u64, batch: Vec<String>) -> (done: bool)
    requires
        old(st).iterations < MAX_SCAN_ITERATIONS,
    ensures
        final(st).keys@ == old(st).keys@ + batch@,
        final(st).cursor == next_cursor,
        final(st).iterations == old(st).iterations + 1,
        final(st).max_keys == old(st).max_keys,
        done == final(st).spec_done(),
{
    let mut page = batch;
    st.keys.append(&mut page);
    st.cursor = next_cursor;
    st.iterations = st.iterations + 1;
    st.cursor == 0 || st.keys.len() >= st.max_keys as usize || st.iterations
        >= MAX_SCAN_ITERATIONS
}

/// The enumeration payload: the pattern scanned for, the matched keys
/// truncated to the effective cap, and their count.
#[derive(Debug, PartialEq, Eq)]
pub struct ScanKeysResult {
    pub pattern: String,
    pub keys: Vec<String>,
    pub count: usize,
}

/// The finished scan's payload: the accumulated keys truncated to exactly
/// the effective cap.
pub fn scan_keys_result(pattern: &str, st: ScanState) -> (r: ScanKeysResult)
    ensures
        r.pattern@ == pattern@,
        r.keys@ == truncated_keys(st.keys@, st.max_keys as int),
        r.count == r.keys@.len(),
        r.keys@.len() <= st.max_keys,
        r.keys@.len() <= st.keys@.len(),
{
    let mut keys = st.keys;
    let cap = st.max_keys as usize;
    keys.truncate(cap);
    proof {
        if st.keys@.len() <= cap {
            assert(keys@ =~= st.keys@);
        }
    }
    let count = keys.len();
    ScanKeysResult { pattern: pattern.to_owned(), keys, count }
}

/// Law: a scan's result never holds more keys than the lesser of the
/// caller-requested cap and the server-configured default cap, whatever
/// pages the store returned — the empty keyspace included. The premises are
/// exactly what `scan_begin` (which records the cap), `scan_step` (which
/// preserves it), and `scan_keys_result` (which truncates to it) ensure.
pub proof fn lemma_scan_result_cap(
    requested: Option<u32>,
    server_default: u32,
    st: ScanState,
    r: ScanKeysResult,
)
    requires
        st.max_keys == spec_effective_cap(requested, server_default),
        r.keys@ == truncated_keys(st.keys@, st.max_keys as int),
    ensures
        r.keys@.len() <= spec_effective_cap(requested, server_default),
        requested matches Some(c) ==> r.keys@.len() <= c,
        r.keys@.len() <= server_default,
{
}

/// Law: a scan whose round-trip counter has reached the safety ceiling is
/// done, whatever the cursor or the accumulated keys — one call never issues
/// more than `MAX_SCAN_ITERATIONS` cursor round trips.
pub proof fn lemma_scan_safety_valve(st: ScanState)
    requires
        st.iterations >= MAX_SCAN_ITERATIONS,
    ensures
        st.spec_done(),
{
}

/// One enumerated key paired with its reported type name.
#[derive(Debug, PartialEq, Eq)]
pub struct KeyTypeEntry {
    pub key: String,
    pub key_type: String,
}

/// The enumeration-with-types payload.
#[derive(Debug, PartialEq, Eq)]
pub struct SearchKeysResult {
    pub pattern: String,
    pub keys: Vec<KeyTypeEntry>,
    pub count: usize,
}

/// The scanned keys paired with the types one batched round trip reported,
/// in key order. When the batch failed (`None`), every key is annotated with
/// the sentinel type `"unknown"` instead of propagating the error: the
/// annotation is best-effort, not atomic.
#[verifier::loop_isolation(false)]
pub fn pair_keys_with_types(keys: Vec<String>, types: Option<Vec<String>>) -> (r: Vec<
    KeyTypeEntry,
>)
    ensures
        types matches Some(t) ==> r@.len() == (if keys@.len() <= t@.len() {
            keys@.len()
        } else {
            t@.len()
        }),
        types matches Some(t) ==> forall|i: int|
            0 <= i < r@.len() ==> (#[trigger] r@[i]).key@ == keys@[i]@ && r@[i].key_type@
                == t@[i]@,
        types is None ==> r@.len() == keys@.len(),
        types is None ==> forall|i: int|
            0 <= i < r@.len() ==> (#[trigger] r@[i]).key@ == keys@[i]@ && r@[i].key_type@
                == "unknown"@,
{
    let mut out: Vec<KeyTypeEntry> = Vec::new();
    match types {
        Some(t) => {
            let n = if keys.len() <= t.len() {
                keys.len()
            } else {
                t.len()
            };
            for i in 0..n
                invariant
                    n <= keys@.len(),
                    n <= t@.len(),
                    out@.len() == i,
                    forall|j: int|
                        0 <= j < i ==> (#[trigger] out@[j]).key@ == keys@[j]@ && out@[j].key_type@
                            == t@[j]@,
            {
                out.push(KeyTypeEntry { key: keys[i].clone(), key_type: t[i].clone() });
            }
        },
        None => {
            let n = keys.len();
            for i in 0..n
                invariant
                    n == keys@.len(),
                    out@.len() == i,
                    forall|j: int|
                        0 <= j < i ==> (#[trigger] out@[j]).key@ == keys@[j]@ && out@[j].key_type@
                            == "unknown"@,
            {
                out.push(KeyTypeEntry { key: keys[i].clone(), key_type: "unknown".to_owned() });
            }
        },
    }
    out
}

/// The finished enumeration-with-types payload.
pub fn search_keys_result(pattern: &str, entries: Vec<KeyTypeEntry>) -> (r: SearchKeysResult)
    ensures
        r.pattern@ == pattern@,
        r.keys@ == entries@,
        r.count == entries@.len(),
{
    let count = entries.len();
    SearchKeysResult { pattern: pattern.to_owned(), keys: entries, count }
}

} // verus!
