//! Versions of the store's schema: dotted numbers, compared part by part.

use crate::text::chars_of;
use std::cmp::Ordering;
use vstd::prelude::*;

verus! {

/// What `str::parse::<i32>` returns for a text: the number that it names,
/// or nothing where it reports an error.
pub uninterp spec fn i32_parsed(text: Seq<char>) -> Option<int>;

/// `str::parse::<i32>`.
#[verifier::external_body]
pub(crate) fn parse_i32(text: &str) -> (r: Option<i32>)
    ensures
        match r {
            Some(n) => i32_parsed(text@) == Some(n as int),
            None => i32_parsed(text@) is None,
        },
{
    text.parse::<i32>().ok()
}

/// Number of characters before the first dot of a text, or its length where
/// it has no dot.
pub open spec fn first_dot(s: Seq<char>) -> int
    decreases s.len(),
{
    if s.len() == 0 || s[0] == '.' {
        0
    } else {
        1 + first_dot(s.drop_first())
    }
}

/// The part of a dotted text at a place, counted from 0, or nothing where
/// the text has fewer parts.
pub open spec fn version_piece(s: Seq<char>, k: nat) -> Option<Seq<char>>
    decreases k,
{
    let d = first_dot(s);
    if k == 0 {
        Some(s.take(d))
    } else if d >= s.len() {
        None
    } else {
        version_piece(s.skip(d + 1), (k - 1) as nat)
    }
}

/// The number at a place of a version: zero for a part that is missing or
/// names no number.
pub open spec fn version_number(s: Seq<char>, k: nat) -> int {
    match version_piece(s, k) {
        Some(p) => match i32_parsed(p) {
            Some(n) => n,
            None => 0,
        },
        None => 0,
    }
}

/// Whether a version is older than another: its first three numbers come
/// first in the order of the dictionary.
pub open spec fn version_before(a: Seq<char>, b: Seq<char>) -> bool {
    let (a0, a1, a2) = (version_number(a, 0), version_number(a, 1), version_number(a, 2));
    let (b0, b1, b2) = (version_number(b, 0), version_number(b, 1), version_number(b, 2));
    a0 < b0 || (a0 == b0 && (a1 < b1 || (a1 == b1 && a2 < b2)))
}

/// A place before which no dot stands, and which holds a dot or ends the
/// text, is the place of the first dot.
proof fn lemma_first_dot(s: Seq<char>, d: int)
    requires
        0 <= d <= s.len(),
        forall|k: int| 0 <= k < d ==> s[k] != '.',
        d < s.len() ==> s[d] == '.',
    ensures
        first_dot(s) == d,
    decreases d,
{
    if d > 0 {
        let t = s.drop_first();
        assert forall|k: int| 0 <= k < d - 1 implies t[k] != '.' by {
            assert(t[k] == s[k + 1]);
        }
        if d - 1 < t.len() {
            assert(t[d - 1] == s[d]);
        }
        lemma_first_dot(t, d - 1);
    }
}

/// The end of the part that begins at a place of a text.
fn piece_end(chars: &Vec<char>, from: usize) -> (end: usize)
    requires
        from <= chars.len(),
    ensures
        from <= end <= chars.len(),
        first_dot(chars@.skip(from as int)) == end - from,
{
    let mut end: usize = from;
    while end < chars.len() && chars[end] != '.'
        invariant
            from <= end <= chars.len(),
            forall|k: int| from <= k < end ==> chars@[k] != '.',
        decreases chars.len() - end,
    {
        end += 1;
    }
    proof {
        let rest = chars@.skip(from as int);
        assert forall|k: int| 0 <= k < end - from implies rest[k] != '.' by {
            assert(rest[k] == chars@[k + from]);
        }
        lemma_first_dot(rest, (end - from) as int);
    }
    end
}

/// The number that a part of a text names, or zero.
fn piece_number(text: &str, from: usize, end: usize) -> (n: i32)
    requires
        from <= end <= text@.len(),
    ensures
        n == match i32_parsed(text@.subrange(from as int, end as int)) {
            Some(n) => n,
            None => 0,
        },
{
    match parse_i32(text.substring_char(from, end)) {
        Some(n) => n,
        None => 0,
    }
}

/// The first three numbers of a version.
pub fn version_numbers(version: &str) -> (r: (i32, i32, i32))
    ensures
        r.0 == version_number(version@, 0),
        r.1 == version_number(version@, 1),
        r.2 == version_number(version@, 2),
{
    proof {
        reveal_with_fuel(version_piece, 3);
    }
    let chars = chars_of(version);
    let n = chars.len();
    let ghost s = version@;
    let e0 = piece_end(&chars, 0);
    assert(s.skip(0) =~= s);
    assert(s.take(e0 as int) =~= s.subrange(0, e0 as int));
    let n0 = piece_number(version, 0, e0);
    if e0 >= n {
        return (n0, 0, 0);
    }
    let e1 = piece_end(&chars, e0 + 1);
    let ghost s1 = s.skip(e0 + 1);
    assert(s1.take(e1 - (e0 + 1)) =~= s.subrange(e0 + 1, e1 as int));
    let n1 = piece_number(version, e0 + 1, e1);
    if e1 >= n {
        return (n0, n1, 0);
    }
    let e2 = piece_end(&chars, e1 + 1);
    let ghost s2 = s1.skip(e1 - e0);
    assert(s2 =~= s.skip(e1 + 1));
    assert(s2.take(e2 - (e1 + 1)) =~= s.subrange(e1 + 1, e2 as int));
    let n2 = piece_number(version, e1 + 1, e2);
    (n0, n1, n2)
}

/// Whether a triple of numbers comes before another in the order of the
/// dictionary.
pub open spec fn numbers_before(a: (i32, i32, i32), b: (i32, i32, i32)) -> bool {
    a.0 < b.0 || (a.0 == b.0 && (a.1 < b.1 || (a.1 == b.1 && a.2 < b.2)))
}

/// Compares two triples of numbers in the order of the dictionary: the
/// first numbers decide, then the second, then the third.
pub fn compare_numbers(a: (i32, i32, i32), b: (i32, i32, i32)) -> (r: Ordering)
    ensures
        r == Ordering::Less <==> numbers_before(a, b),
        r == Ordering::Greater <==> numbers_before(b, a),
        r == Ordering::Equal <==> a == b,
{
    if a.0 != b.0 {
        if a.0 < b.0 {
            Ordering::Less
        } else {
            Ordering::Greater
        }
    } else if a.1 != b.1 {
        if a.1 < b.1 {
            Ordering::Less
        } else {
            Ordering::Greater
        }
    } else if a.2 != b.2 {
        if a.2 < b.2 {
            Ordering::Less
        } else {
            Ordering::Greater
        }
    } else {
        Ordering::Equal
    }
}

/// Compares two versions by their first three numbers.
pub fn compare_version(a: &str, b: &str) -> (r: Ordering)
    ensures
        r == Ordering::Less <==> version_before(a@, b@),
        r == Ordering::Greater <==> version_before(b@, a@),
{
    compare_numbers(version_numbers(a), version_numbers(b))
}

} // verus!
