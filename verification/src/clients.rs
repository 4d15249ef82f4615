//! The connected-client summary: parsing the store's one-client-per-line
//! report, each line a space-separated run of `key=value` attributes.

use vstd::prelude::*;
use vstd::string::StrSliceExecFns;

use crate::text::find_char;
use crate::text::spec_find;
use crate::text::spec_split;
use crate::text::split_str;

verus! {

/// One `key=value` attribute of a connected client.
#[derive(Debug, PartialEq, Eq)]
pub struct ClientAttr {
    pub key: String,
    pub value: String,
}

impl View for ClientAttr {
    type V = (Seq<char>, Seq<char>);

    open spec fn view(&self) -> (Seq<char>, Seq<char>) {
        (self.key@, self.value@)
    }
}

/// One connected client: its attributes in line order.
#[derive(Debug, PartialEq, Eq)]
pub struct ClientInfo {
    pub attrs: Vec<ClientAttr>,
}

impl View for ClientInfo {
    type V = Seq<(Seq<char>, Seq<char>)>;

    open spec fn view(&self) -> Seq<(Seq<char>, Seq<char>)> {
        self.attrs@.map_values(|a: ClientAttr| a@)
    }
}

/// A piece split at its first `=`: the attribute name before it and the
/// value after it (later `=` signs belong to the value). A piece without `=`
/// is no attribute.
pub open spec fn spec_attr_of(piece: Seq<char>) -> Option<(Seq<char>, Seq<char>)> {
    match spec_find(piece, '=') {
        Some(i) => Some((piece.take(i), piece.skip(i + 1))),
        None => None,
    }
}

/// The attributes among the given pieces, in order; pieces without `=` are
/// dropped.
pub open spec fn spec_attrs_of(pieces: Seq<Seq<char>>) -> Seq<(Seq<char>, Seq<char>)>
    decreases pieces.len(),
{
    if pieces.len() == 0 {
        Seq::empty()
    } else {
        let rest = spec_attrs_of(pieces.drop_last());
        match spec_attr_of(pieces.last()) {
            Some(p) => rest.push(p),
            None => rest,
        }
    }
}

/// One client line's attributes: its space-separated pieces, each split at
/// its first `=`.
pub open spec fn spec_client_line(line: Seq<char>) -> Seq<(Seq<char>, Seq<char>)> {
    spec_attrs_of(spec_split(line, ' '))
}

/// A line without its trailing carriage return, if it carries one.
pub open spec fn spec_strip_cr(line: Seq<char>) -> Seq<char> {
    if line.len() > 0 && line.last() == '\r' {
        line.drop_last()
    } else {
        line
    }
}

/// The clients among the given lines, in order: each line without its
/// trailing carriage return, empty lines dropped, the rest parsed.
pub open spec fn spec_clients_of(lines: Seq<Seq<char>>) -> Seq<Seq<(Seq<char>, Seq<char>)>>
    decreases lines.len(),
{
    if lines.len() == 0 {
        Seq::empty()
    } else {
        let rest = spec_clients_of(lines.drop_last());
        let line = spec_strip_cr(lines.last());
        if line.len() == 0 {
            rest
        } else {
            rest.push(spec_client_line(line))
        }
    }
}

/// The whole report parsed: one client per non-empty line.
pub open spec fn spec_client_list(raw: Seq<char>) -> Seq<Seq<(Seq<char>, Seq<char>)>> {
    spec_clients_of(spec_split(raw, '\n'))
}

/// One client line parsed into its attributes, in order.
#[verifier::loop_isolation(false)]
pub fn parse_client_line(line: &str) -> (r: ClientInfo)
    ensures
        r@ == spec_client_line(line@),
{
    let pieces = split_str(line, ' ');
    let ghost pviews = pieces.deep_view();
    let mut attrs: Vec<ClientAttr> = Vec::new();
    let n = pieces.len();
    for i in 0..n
        invariant
            n == pieces@.len(),
            pviews == pieces.deep_view(),
            attrs@.map_values(|a: ClientAttr| a@) == spec_attrs_of(pviews.take(i as int)),
    {
        let piece = &pieces[i];
        proof {
            assert(pviews.take(i + 1).drop_last() =~= pviews.take(i as int));
            assert(pviews.take(i + 1).last() == pviews[i as int]);
            assert(pviews[i as int] == piece@);
        }
        match find_char(piece.as_str(), '=') {
            Some(eq) => {
                let len = piece.as_str().unicode_len();
                let key = piece.as_str().substring_char(0, eq).to_owned();
                let value = piece.as_str().substring_char(eq + 1, len).to_owned();
                proof {
                    assert(key@ =~= piece@.take(eq as int));
                    assert(value@ =~= piece@.skip(eq + 1));
                }
                attrs.push(ClientAttr { key, value });
                proof {
                    assert(attrs@.map_values(|a: ClientAttr| a@) =~= spec_attrs_of(
                        pviews.take(i + 1),
                    ));
                }
            },
            None => {
                proof {
                    assert(attrs@.map_values(|a: ClientAttr| a@) =~= spec_attrs_of(
                        pviews.take(i + 1),
                    ));
                }
            },
        }
    }
    proof {
        assert(pviews.take(n as int) =~= pviews);
    }
    ClientInfo { attrs }
}

/// The whole connected-client report parsed: one client per non-empty line,
/// in report order.
#[verifier::loop_isolation(false)]
pub fn parse_client_list(raw: &str) -> (r: Vec<ClientInfo>)
    ensures
        r@.map_values(|c: ClientInfo| c@) == spec_client_list(raw@),
{
    let lines = split_str(raw, '\n');
    let ghost lviews = lines.deep_view();
    let mut out: Vec<ClientInfo> = Vec::new();
    let n = lines.len();
    for i in 0..n
        invariant
            n == lines@.len(),
            lviews == lines.deep_view(),
            out@.map_values(|c: ClientInfo| c@) == spec_clients_of(lviews.take(i as int)),
    {
        proof {
            assert(lviews.take(i + 1).drop_last() =~= lviews.take(i as int));
            assert(lviews.take(i + 1).last() == lviews[i as int]);
            assert(lviews[i as int] == lines@[i as int]@);
        }
        let line = &lines[i];
        let len = line.as_str().unicode_len();
        let stripped: String = if len > 0 && line.as_str().get_char(len - 1) == '\r' {
            line.as_str().substring_char(0, len - 1).to_owned()
        } else {
            line.clone()
        };
        proof {
            assert(stripped@ =~= spec_strip_cr(line@));
        }
        if stripped.as_str().unicode_len() > 0 {
            let info = parse_client_line(stripped.as_str());
            out.push(info);
        }
        proof {
            assert(out@.map_values(|c: ClientInfo| c@) =~= spec_clients_of(lviews.take(i + 1)));
        }
    }
    proof {
        assert(lviews.take(n as int) =~= lviews);
    }
    out
}

/// The connected-client payload: the parsed clients and their count.
#[derive(Debug, PartialEq, Eq)]
pub struct ClientListResult {
    pub clients: Vec<ClientInfo>,
    pub count: usize,
}

/// The assembled connected-client payload.
pub fn client_list_result(clients: Vec<ClientInfo>) -> (r: ClientListResult)
    ensures
        r.clients@ == clients@,
        r.count == clients@.len(),
{
    let count = clients.len();
    ClientListResult { clients, count }
}

} // verus!
