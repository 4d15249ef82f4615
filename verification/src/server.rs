//! The connection registry and the operations' shared entry checks:
//! resolving an optional instance name to the unique matching connection,
//! the read-only guard, and pattern validation.
//!
//! The registry is generic over the handle type `C`, a live client handle to
//! one backing store instance; this crate never calls into the handle, it
//! only selects it.

use vstd::prelude::*;

use crate::error::McpRedisError;
use crate::text::contains_char;
use crate::text::str_eq;

verus! {

/// One configured backing-store instance: a unique display name, the
/// connection target with any embedded secret masked, and the live handle.
/// Created once at startup and immutable thereafter.
pub struct RedisConnection<C> {
    pub name: String,
    pub url_redacted: String,
    pub conn: C,
}

/// The ordered, immutable-after-startup collection of named connections,
/// together with the server-wide settings the operations need.
pub struct McpRedisServer<C> {
    pub connections: Vec<RedisConnection<C>>,
    pub allow_write: bool,
    pub scan_count: u32,
}

/// A `{name, url}` summary of one configured connection, for display.
#[derive(Debug, PartialEq, Eq)]
pub struct ConnectionInfo {
    pub name: String,
    pub url: String,
}

/// The index of the first registry entry with the given name, if any:
/// resolution is a linear search and the first exact match wins.
pub open spec fn first_match<C>(conns: Seq<RedisConnection<C>>, name: Seq<char>) -> Option<int>
    decreases conns.len(),
{
    if conns.len() == 0 {
        None
    } else if conns[0].name@ == name {
        Some(0int)
    } else {
        match first_match(conns.drop_first(), name) {
            Some(i) => Some(i + 1),
            None => None,
        }
    }
}

/// Law: resolving an existing name finds exactly the first entry carrying
/// that name, whatever the registry size; a name that no entry carries finds
/// nothing. Stated as: if the entries before `i` all differ from `name`,
/// then a match at `i` is the first match, and reaching the end without a
/// match means there is none.
pub proof fn lemma_first_match_characterization<C>(
    conns: Seq<RedisConnection<C>>,
    name: Seq<char>,
    i: int,
)
    requires
        0 <= i <= conns.len(),
        forall|j: int| 0 <= j < i ==> conns[j].name@ != name,
    ensures
        i < conns.len() && conns[i].name@ == name ==> first_match(conns, name) == Some(i),
        i == conns.len() ==> first_match(conns, name) is None,
    decreases i,
{
    if i > 0 {
        let rest = conns.drop_first();
        assert(forall|j: int| 0 <= j < i - 1 ==> rest[j].name@ != name);
        lemma_first_match_characterization(rest, name, i - 1);
    }
}

/// Law: in a registry of size 1, resolving with that connection's own name
/// finds exactly that entry, and any other name finds nothing. Together with
/// `resolve`'s contract for an absent name, resolving with no name returns
/// the same entry.
pub proof fn lemma_single_entry_resolution<C>(conns: Seq<RedisConnection<C>>, other: Seq<char>)
    requires
        conns.len() == 1,
    ensures
        first_match(conns, conns[0].name@) == Some(0int),
        other != conns[0].name@ ==> first_match(conns, other) is None,
{
    assert(first_match(conns, conns[0].name@) == Some(0int));
    if other != conns[0].name@ {
        assert(conns.drop_first().len() == 0);
        assert(first_match(conns.drop_first(), other) is None);
        assert(first_match(conns, other) is None);
    }
}

impl<C> McpRedisServer<C> {
    /// A registry over the given connections, immutable thereafter.
    pub fn new(connections: Vec<RedisConnection<C>>, allow_write: bool, scan_count: u32) -> (s:
        Self)
        ensures
            s.connections == connections,
            s.allow_write == allow_write,
            s.scan_count == scan_count,
    {
        McpRedisServer { connections, allow_write, scan_count }
    }

    /// The unique connection an operation targets. A present name selects the
    /// first entry with that exact name, or fails with `ConnectionNotFound`.
    /// An absent name selects the sole entry of a single-entry registry;
    /// with any other registry size the caller must disambiguate and the
    /// result is `AmbiguousConnection`.
    pub fn resolve<'a>(&'a self, name: Option<&str>) -> (r: Result<
        &'a RedisConnection<C>,
        McpRedisError,
    >)
        ensures
            match name {
                Some(n) => match first_match(self.connections@, n@) {
                    Some(i) => r matches Ok(c) && *c == self.connections@[i],
                    None => r matches Err(e) && (e matches McpRedisError::ConnectionNotFound(m)
                        && m@ == n@),
                },
                None => {
                    if self.connections@.len() == 1 {
                        r matches Ok(c) && *c == self.connections@[0]
                    } else {
                        r matches Err(e) && e is AmbiguousConnection
                    }
                },
            },
    {
        match name {
            Some(n) => {
                let len = self.connections.len();
                for i in 0..len
                    invariant
                        name == Some(n),
                        len == self.connections@.len(),
                        forall|j: int| 0 <= j < i ==> self.connections@[j].name@ != n@,
                {
                    if str_eq(self.connections[i].name.as_str(), n) {
                        proof {
                            lemma_first_match_characterization(self.connections@, n@, i as int);
                        }
                        return Ok(&self.connections[i]);
                    }
                }
                proof {
                    lemma_first_match_characterization(self.connections@, n@, len as int);
                }
                Err(McpRedisError::ConnectionNotFound(n.to_owned()))
            },
            None => {
                if self.connections.len() == 1 {
                    Ok(&self.connections[0])
                } else {
                    Err(McpRedisError::AmbiguousConnection)
                }
            },
        }
    }

    /// Guard for write operations: with write mode off, the named operation
    /// is rejected. All current operations are read-only; any future write
    /// operation calls this first.
    pub fn check_read_only(&self, operation: &str) -> (r: Result<(), McpRedisError>)
        ensures
            self.allow_write ==> r is Ok,
            !self.allow_write ==> (r matches Err(McpRedisError::ReadOnly(op)) && op@
                == operation@),
    {
        if !self.allow_write {
            return Err(McpRedisError::ReadOnly(operation.to_owned()));
        }
        Ok(())
    }

    /// The `{name, url}` summaries of every configured connection, in
    /// registry order.
    pub fn connection_summaries(&self) -> (r: Vec<ConnectionInfo>)
        ensures
            r@.len() == self.connections@.len(),
            forall|i: int|
                0 <= i < r@.len() ==> r@[i].name@ == self.connections@[i].name@ && r@[i].url@
                    == self.connections@[i].url_redacted@,
    {
        let mut out: Vec<ConnectionInfo> = Vec::new();
        let len = self.connections.len();
        for i in 0..len
            invariant
                len == self.connections@.len(),
                out@.len() == i,
                forall|j: int|
                    0 <= j < i ==> out@[j].name@ == self.connections@[j].name@ && out@[j].url@
                        == self.connections@[j].url_redacted@,
        {
            let c = &self.connections[i];
            out.push(ConnectionInfo { name: c.name.clone(), url: c.url_redacted.clone() });
        }
        out
    }
}

/// A pattern may not contain a null byte; the validation error comes before
/// any store round trip.
pub fn validate_pattern(pattern: &str) -> (r: Result<(), McpRedisError>)
    ensures
        r is Ok <==> !pattern@.contains('\0'),
        pattern@.contains('\0') ==> (r matches Err(McpRedisError::Other(m)) && m@
            == "Pattern must not contain null bytes"@),
{
    if contains_char(pattern, '\0') {
        Err(McpRedisError::Other("Pattern must not contain null bytes".to_owned()))
    } else {
        Ok(())
    }
}

} // verus!
