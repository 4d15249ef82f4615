//! The slow-operation log: parsing the store's array-of-arrays reply into
//! structured entries. Each raw entry is a run of fields — identifier,
//! timestamp, duration, and the command's argument array — any of which the
//! store may omit or type otherwise; parsing substitutes the documented
//! defaults.

use vstd::prelude::*;
use vstd::string::StringExecFns;
use vstd::utf8::decode_utf8;
use vstd::utf8::valid_utf8;

verus! {

/// One argument of a logged command, as the store reported it: raw bytes, or
/// something other than a byte string.
#[derive(Debug, PartialEq, Eq)]
pub enum CommandArg {
    Data(Vec<u8>),
    Other,
}

/// One field of a raw slow-log entry: an integer, the command's argument
/// array, or something else.
#[derive(Debug, PartialEq, Eq)]
pub enum SlowlogField {
    Int(i64),
    Command(Vec<CommandArg>),
    Other,
}

/// One parsed slow-log entry.
#[derive(Debug, PartialEq, Eq)]
pub struct SlowlogEntry {
    pub id: i64,
    pub timestamp: i64,
    pub duration_us: i64,
    pub command: String,
}

/// The slow-log payload: the parsed entries and their count.
#[derive(Debug, PartialEq, Eq)]
pub struct SlowlogResult {
    pub entries: Vec<SlowlogEntry>,
    pub count: usize,
}

/// How many entries to ask the store for: the caller's count, or 10.
pub fn slowlog_fetch_count(count: Option<u32>) -> (r: u32)
    ensures
        r == (match count {
            Some(c) => c,
            None => 10u32,
        }),
{
    match count {
        Some(c) => c,
        None => 10,
    }
}

/// Relies on String::from_utf8: it succeeds exactly on valid UTF-8 and
/// decodes it, per vstd's model of UTF-8.
#[verifier::external_body]
fn bytes_to_string(b: &Vec<u8>) -> (r: Option<String>)
    ensures
        r is Some <==> valid_utf8(b@),
        r matches Some(s) ==> s@ == decode_utf8(b@),
{
    String::from_utf8(b.clone()).ok()
}

/// The arguments of a logged command that render as text: each valid-UTF-8
/// byte-string argument decoded, in order; other arguments are dropped.
pub open spec fn spec_rendered_args(args: Seq<CommandArg>) -> Seq<Seq<char>>
    decreases args.len(),
{
    if args.len() == 0 {
        Seq::empty()
    } else {
        let rest = spec_rendered_args(args.drop_last());
        match args.last() {
            CommandArg::Data(b) => if valid_utf8(b@) {
                rest.push(decode_utf8(b@))
            } else {
                rest
            },
            CommandArg::Other => rest,
        }
    }
}

/// The pieces joined with single spaces.
pub open spec fn spec_join_spaces(pieces: Seq<Seq<char>>) -> Seq<char>
    decreases pieces.len(),
{
    if pieces.len() == 0 {
        Seq::empty()
    } else if pieces.len() == 1 {
        pieces[0]
    } else {
        spec_join_spaces(pieces.drop_last()) + seq![' '] + pieces.last()
    }
}

/// The integer at position `i` of a raw entry, or the default where the
/// entry is shorter or holds something else there.
pub open spec fn spec_int_at(entry: Seq<SlowlogField>, i: int, default: i64) -> i64 {
    if 0 <= i < entry.len() {
        match entry[i] {
            SlowlogField::Int(v) => v,
            _ => default,
        }
    } else {
        default
    }
}

/// The command text of a raw entry: its argument array's rendered arguments
/// joined with spaces, or `"unknown"` where the fourth field is no argument
/// array.
pub open spec fn spec_command_at(entry: Seq<SlowlogField>) -> Seq<char> {
    if entry.len() > 3 {
        match entry[3] {
            SlowlogField::Command(args) => spec_join_spaces(spec_rendered_args(args@)),
            _ => "unknown"@,
        }
    } else {
        "unknown"@
    }
}

/// The integer at position `i` of a raw entry, or the default.
fn int_at(entry: &Vec<SlowlogField>, i: usize, default: i64) -> (r: i64)
    ensures
        r == spec_int_at(entry@, i as int, default),
{
    if i < entry.len() {
        match &entry[i] {
            SlowlogField::Int(v) => *v,
            _ => default,
        }
    } else {
        default
    }
}

/// A logged command's rendered arguments joined with single spaces.
#[verifier::loop_isolation(false)]
fn join_rendered_args(args: &Vec<CommandArg>) -> (r: String)
    ensures
        r@ == spec_join_spaces(spec_rendered_args(args@)),
{
    let mut out = String::new();
    let mut any = false;
    let n = args.len();
    for i in 0..n
        invariant
            n == args@.len(),
            out@ == spec_join_spaces(spec_rendered_args(args@.take(i as int))),
            any == (spec_rendered_args(args@.take(i as int)).len() > 0),
    {
        proof {
            assert(args@.take(i + 1).drop_last() =~= args@.take(i as int));
            assert(args@.take(i + 1).last() == args@[i as int]);
        }
        let ghost before = spec_rendered_args(args@.take(i as int));
        match &args[i] {
            CommandArg::Data(b) => {
                match bytes_to_string(b) {
                    Some(s) => {
                        if any {
                            out.append(" ");
                        }
                        out.append(s.as_str());
                        any = true;
                        proof {
                            let after = spec_rendered_args(args@.take(i + 1));
                            assert(after == before.push(s@));
                            if before.len() == 0 {
                                assert(after[0] == s@);
                                assert(out@ =~= spec_join_spaces(after));
                            } else {
                                assert(after.drop_last() =~= before);
                                reveal_strlit(" ");
                                assert(" "@ =~= seq![' ']);
                                assert(out@ =~= spec_join_spaces(before) + seq![' '] + s@);
                            }
                        }
                    },
                    None => {},
                }
            },
            CommandArg::Other => {},
        }
    }
    proof {
        assert(args@.take(n as int) =~= args@);
    }
    out
}

/// One raw entry parsed: identifier (default -1), timestamp (default 0),
/// duration in microseconds (default 0), and the command text.
pub fn parse_slowlog_entry(entry: &Vec<SlowlogField>) -> (r: SlowlogEntry)
    ensures
        r.id == spec_int_at(entry@, 0, -1i64),
        r.timestamp == spec_int_at(entry@, 1, 0),
        r.duration_us == spec_int_at(entry@, 2, 0),
        r.command@ == spec_command_at(entry@),
{
    let id = int_at(entry, 0, -1);
    let timestamp = int_at(entry, 1, 0);
    let duration_us = int_at(entry, 2, 0);
    let command: String = if entry.len() > 3 {
        match &entry[3] {
            SlowlogField::Command(args) => join_rendered_args(args),
            _ => "unknown".to_owned(),
        }
    } else {
        "unknown".to_owned()
    };
    SlowlogEntry { id, timestamp, duration_us, command }
}

/// The whole raw reply parsed, in order, and counted.
#[verifier::loop_isolation(false)]
pub fn parse_slowlog(raw: &Vec<Vec<SlowlogField>>) -> (r: SlowlogResult)
    ensures
        r.entries@.len() == raw@.len(),
        r.count == raw@.len(),
        forall|i: int|
            0 <= i < raw@.len() ==> {
                let e = #[trigger] r.entries@[i];
                e.id == spec_int_at(raw@[i]@, 0, -1i64) && e.timestamp == spec_int_at(raw@[i]@, 1, 0)
                    && e.duration_us == spec_int_at(raw@[i]@, 2, 0) && e.command@
                    == spec_command_at(raw@[i]@)
            },
{
    let mut entries: Vec<SlowlogEntry> = Vec::new();
    let n = raw.len();
    for i in 0..n
        invariant
            n == raw@.len(),
            entries@.len() == i,
            forall|j: int|
                0 <= j < i ==> {
                    let e = #[trigger] entries@[j];
                    e.id == spec_int_at(raw@[j]@, 0, -1i64) && e.timestamp == spec_int_at(
                        raw@[j]@,
                        1,
                        0,
                    ) && e.duration_us == spec_int_at(raw@[j]@, 2, 0) && e.command@
                        == spec_command_at(raw@[j]@)
                },
    {
        entries.push(parse_slowlog_entry(&raw[i]));
    }
    let count = entries.len();
    SlowlogResult { entries, count }
}

} // verus!
