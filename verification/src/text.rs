//! Character-level helpers over `&str`, with exact contracts over the
//! `Seq<char>` views.

use vstd::prelude::*;
use vstd::string::StrSliceExecFns;

verus! {

/// Whether two string slices hold the same characters.
pub fn str_eq(a: &str, b: &str) -> (r: bool)
    ensures
        r == (a@ == b@),
{
    let alen = a.unicode_len();
    let blen = b.unicode_len();
    if alen != blen {
        return false;
    }
    for i in 0..alen
        invariant
            alen == a@.len(),
            alen == b@.len(),
            forall|j: int| 0 <= j < i ==> a@[j] == b@[j],
    {
        if a.get_char(i) != b.get_char(i) {
            return false;
        }
    }
    proof {
        assert(a@ =~= b@);
    }
    true
}

/// The pieces of `s` between occurrences of `sep`, in order: one piece more
/// than there are separators, the empty string giving one empty piece.
pub open spec fn spec_split(s: Seq<char>, sep: char) -> Seq<Seq<char>>
    decreases s.len(),
{
    if s.len() == 0 {
        seq![Seq::<char>::empty()]
    } else if s.last() == sep {
        spec_split(s.drop_last(), sep).push(Seq::<char>::empty())
    } else {
        let r = spec_split(s.drop_last(), sep);
        r.update(r.len() - 1, r.last().push(s.last()))
    }
}

/// A split always has at least one piece.
pub proof fn lemma_split_len(s: Seq<char>, sep: char)
    ensures
        spec_split(s, sep).len() >= 1,
    decreases s.len(),
{
    if s.len() > 0 {
        lemma_split_len(s.drop_last(), sep);
    }
}

/// How one more character extends a split: a separator opens a new empty
/// piece, any other character extends the last piece.
pub proof fn lemma_split_push(p: Seq<char>, c: char, sep: char)
    ensures
        c == sep ==> spec_split(p.push(c), sep) == spec_split(p, sep).push(Seq::<char>::empty()),
        c != sep ==> spec_split(p.push(c), sep) == ({
            let r = spec_split(p, sep);
            r.update(r.len() - 1, r.last().push(c))
        }),
{
    let q = p.push(c);
    assert(q.drop_last() =~= p);
    assert(q.last() == c);
}

/// The string's pieces between occurrences of the separator, in order.
#[verifier::loop_isolation(false)]
pub fn split_str(s: &str, sep: char) -> (r: Vec<String>)
    ensures
        r.deep_view() == spec_split(s@, sep),
{
    let n = s.unicode_len();
    let mut out: Vec<String> = Vec::new();
    let mut start: usize = 0;
    proof {
        assert(s@.take(0) =~= Seq::<char>::empty());
        assert(s@.subrange(0, 0) =~= Seq::<char>::empty());
        assert(out.deep_view().push(s@.subrange(0, 0)) =~~= spec_split(s@.take(0), sep));
    }
    for i in 0..n
        invariant
            start <= i <= n,
            out.deep_view().push(s@.subrange(start as int, i as int)) == spec_split(
                s@.take(i as int),
                sep,
            ),
    {
        let c = s.get_char(i);
        proof {
            assert(s@.take(i + 1) =~= s@.take(i as int).push(s@[i as int]));
            lemma_split_push(s@.take(i as int), s@[i as int], sep);
        }
        if c == sep {
            let piece = s.substring_char(start, i).to_owned();
            out.push(piece);
            start = i + 1;
            proof {
                assert(s@.subrange(start as int, start as int) =~= Seq::<char>::empty());
                assert(out.deep_view().push(s@.subrange(start as int, start as int)) =~~= spec_split(
                    s@.take(i + 1),
                    sep,
                ));
            }
        } else {
            proof {
                let r = spec_split(s@.take(i as int), sep);
                lemma_split_len(s@.take(i as int), sep);
                assert(r.last() == s@.subrange(start as int, i as int));
                assert(s@.subrange(start as int, i + 1) =~= s@.subrange(start as int, i as int).push(
                    s@[i as int],
                ));
                assert(out.deep_view().push(s@.subrange(start as int, i + 1)) =~~= r.update(
                    r.len() - 1,
                    r.last().push(s@[i as int]),
                ));
            }
        }
    }
    let piece = s.substring_char(start, n).to_owned();
    out.push(piece);
    proof {
        assert(s@.take(n as int) =~= s@);
        assert(out.deep_view() =~~= spec_split(s@, sep));
    }
    out
}

/// The blank characters trimming removes: the characters with the Unicode
/// `White_Space` property.
pub open spec fn spec_is_blank(c: char) -> bool {
    let u = c as u32;
    (0x09 <= u && u <= 0x0D) || u == 0x20 || u == 0x85 || u == 0xA0 || u == 0x1680 || (0x2000 <= u
        && u <= 0x200A) || u == 0x2028 || u == 0x2029 || u == 0x202F || u == 0x205F || u == 0x3000
}

/// Whether trimming removes this character.
pub fn is_blank(c: char) -> (r: bool)
    ensures
        r == spec_is_blank(c),
{
    let u = c as u32;
    (0x09 <= u && u <= 0x0D) || u == 0x20 || u == 0x85 || u == 0xA0 || u == 0x1680 || (0x2000 <= u
        && u <= 0x200A) || u == 0x2028 || u == 0x2029 || u == 0x202F || u == 0x205F || u == 0x3000
}

/// The string without its leading blanks.
pub open spec fn spec_trim_start(s: Seq<char>) -> Seq<char>
    decreases s.len(),
{
    if s.len() == 0 {
        s
    } else if spec_is_blank(s[0]) {
        spec_trim_start(s.drop_first())
    } else {
        s
    }
}

/// The string without its trailing blanks.
pub open spec fn spec_trim_end(s: Seq<char>) -> Seq<char>
    decreases s.len(),
{
    if s.len() == 0 {
        s
    } else if spec_is_blank(s.last()) {
        spec_trim_end(s.drop_last())
    } else {
        s
    }
}

/// The string without its leading and trailing blanks.
pub open spec fn spec_trim(s: Seq<char>) -> Seq<char> {
    spec_trim_end(spec_trim_start(s))
}

/// Skipping leading blanks is what trimming the start means.
proof fn lemma_trim_start_skip(s: Seq<char>, a: int)
    requires
        0 <= a <= s.len(),
        forall|j: int| 0 <= j < a ==> spec_is_blank(s[j]),
    ensures
        spec_trim_start(s) == spec_trim_start(s.skip(a)),
    decreases a,
{
    if a == 0 {
        assert(s.skip(0) =~= s);
    } else {
        assert(spec_is_blank(s[0]));
        assert(s.drop_first() =~= s.skip(1));
        lemma_trim_start_skip(s.skip(1), a - 1);
        assert(s.skip(1).skip(a - 1) =~= s.skip(a));
    }
}

/// Dropping trailing blanks is what trimming the end means.
proof fn lemma_trim_end_take(s: Seq<char>, b: int)
    requires
        0 <= b <= s.len(),
        forall|j: int| b <= j < s.len() ==> spec_is_blank(s[j]),
    ensures
        spec_trim_end(s) == spec_trim_end(s.take(b)),
    decreases s.len() - b,
{
    if b == s.len() {
        assert(s.take(b) =~= s);
    } else {
        assert(spec_is_blank(s.last()));
        assert(s.drop_last() =~= s.take(s.len() - 1));
        lemma_trim_end_take(s.take(s.len() - 1), b);
        assert(s.take(s.len() - 1).take(b) =~= s.take(b));
    }
}

/// The string without its leading and trailing blanks.
#[verifier::loop_isolation(false)]
pub fn trim_str(s: &str) -> (r: String)
    ensures
        r@ == spec_trim(s@),
{
    let n = s.unicode_len();
    let mut a: usize = 0;
    while a < n && is_blank(s.get_char(a))
        invariant
            a <= n,
            forall|j: int| 0 <= j < a ==> spec_is_blank(s@[j]),
        decreases n - a,
    {
        a = a + 1;
    }
    proof {
        lemma_trim_start_skip(s@, a as int);
        if a < n {
            assert(spec_trim_start(s@.skip(a as int)) == s@.skip(a as int));
        } else {
            assert(s@.skip(a as int) =~= Seq::<char>::empty());
        }
    }
    let mut b: usize = n;
    while b > a && is_blank(s.get_char(b - 1))
        invariant
            a <= b <= n,
            forall|j: int| b <= j < n ==> spec_is_blank(s@[j]),
        decreases b,
    {
        b = b - 1;
    }
    let ghost tail = s@.skip(a as int);
    proof {
        assert(forall|j: int|
            b - a <= j < tail.len() ==> spec_is_blank(#[trigger] tail[j]) && tail[j] == s@[j
                + a]);
        lemma_trim_end_take(tail, b - a);
        if b > a {
            assert(!spec_is_blank(tail.take(b - a).last()));
            assert(spec_trim_end(tail.take(b - a)) == tail.take(b - a));
        } else {
            assert(tail.take(0) =~= Seq::<char>::empty());
        }
        assert(s@.subrange(a as int, b as int) =~= tail.take(b - a));
    }
    s.substring_char(a, b).to_owned()
}

/// The pieces of `s` between occurrences of `sep`, each without its leading
/// and trailing blanks, in order.
#[verifier::loop_isolation(false)]
pub fn split_and_trim(s: &str, sep: char) -> (r: Vec<String>)
    ensures
        r.deep_view() == spec_split(s@, sep).map_values(|p: Seq<char>| spec_trim(p)),
{
    let pieces = split_str(s, sep);
    let mut out: Vec<String> = Vec::new();
    let n = pieces.len();
    for i in 0..n
        invariant
            n == pieces@.len(),
            out@.len() == i,
            forall|j: int| 0 <= j < i ==> (#[trigger] out@[j])@ == spec_trim(pieces@[j]@),
    {
        out.push(trim_str(pieces[i].as_str()));
    }
    proof {
        let target = spec_split(s@, sep).map_values(|p: Seq<char>| spec_trim(p));
        assert forall|j: int| 0 <= j < out@.len() implies out.deep_view()[j] == target[j] by {
            assert(pieces.deep_view()[j] == pieces@[j]@);
        }
        assert(out.deep_view() =~~= target);
    }
    out
}

/// The index of the first occurrence of `c` in `s`, if any.
pub open spec fn spec_find(s: Seq<char>, c: char) -> Option<int>
    decreases s.len(),
{
    if s.len() == 0 {
        None
    } else if s[0] == c {
        Some(0int)
    } else {
        match spec_find(s.drop_first(), c) {
            Some(i) => Some(i + 1),
            None => None,
        }
    }
}

/// The first occurrence is where no earlier occurrence exists: if the
/// characters before `i` all differ from `c`, a hit at `i` is the first, and
/// reaching the end without one means there is none.
pub proof fn lemma_find_characterization(s: Seq<char>, c: char, i: int)
    requires
        0 <= i <= s.len(),
        forall|j: int| 0 <= j < i ==> s[j] != c,
    ensures
        i < s.len() && s[i] == c ==> spec_find(s, c) == Some(i),
        i == s.len() ==> spec_find(s, c) is None,
    decreases i,
{
    if i > 0 {
        let rest = s.drop_first();
        assert(forall|j: int| 0 <= j < i - 1 ==> rest[j] != c);
        lemma_find_characterization(rest, c, i - 1);
    }
}

/// The index of the first occurrence of `c` in `s`, if any.
#[verifier::loop_isolation(false)]
pub fn find_char(s: &str, c: char) -> (r: Option<usize>)
    ensures
        match r {
            Some(i) => spec_find(s@, c) == Some(i as int) && i < s@.len() && s@[i as int] == c,
            None => spec_find(s@, c) is None,
        },
{
    let n = s.unicode_len();
    for i in 0..n
        invariant
            n == s@.len(),
            forall|j: int| 0 <= j < i ==> s@[j] != c,
    {
        if s.get_char(i) == c {
            proof {
                lemma_find_characterization(s@, c, i as int);
            }
            return Some(i);
        }
    }
    proof {
        lemma_find_characterization(s@, c, n as int);
    }
    None
}

/// Whether the string contains the given character.
pub fn contains_char(s: &str, c: char) -> (r: bool)
    ensures
        r == s@.contains(c),
{
    let n = s.unicode_len();
    for i in 0..n
        invariant
            n == s@.len(),
            forall|j: int| 0 <= j < i ==> s@[j] != c,
    {
        if s.get_char(i) == c {
            assert(s@[i as int] == c);
            return true;
        }
    }
    assert(!s@.contains(c));
    false
}

} // verus!
