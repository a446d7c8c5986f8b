//! Text helpers over the character view of strings: trimming, field
//! counting, case folding and comparison.

use vstd::prelude::*;
use vstd::utf8::{encode_utf8, encode_utf8_decode_utf8};

verus! {

/// Whether `char::is_whitespace` holds of a character.
pub uninterp spec fn unicode_whitespace(c: char) -> bool;

/// What `str::to_uppercase` returns for a text.
pub uninterp spec fn uppercased(s: Seq<char>) -> Seq<char>;

/// A printable ASCII character other than the space.
pub open spec fn is_ascii_graphic(c: char) -> bool {
    0x21 <= c as u32 <= 0x7e
}

/// An ASCII character that is no lowercase letter.
pub open spec fn is_ascii_without_lowercase(c: char) -> bool {
    c as u32 <= 0x7f && !('a' <= c <= 'z')
}

/// Whether every character of a text is ASCII and no lowercase letter.
pub open spec fn is_plain_upper(s: Seq<char>) -> bool {
    forall|i: int| 0 <= i < s.len() ==> is_ascii_without_lowercase(#[trigger] s[i])
}

/// Whether a character counts as whitespace: never a printable ASCII
/// character, and otherwise what Unicode says.
pub open spec fn white_space(c: char) -> bool {
    !is_ascii_graphic(c) && unicode_whitespace(c)
}

/// The uppercase form of a text: the text itself where it is ASCII without
/// lowercase letters, and otherwise what Unicode's mappings give.
pub open spec fn upper_text(s: Seq<char>) -> Seq<char> {
    if is_plain_upper(s) {
        s
    } else {
        uppercased(s)
    }
}

/// `char::is_whitespace`: the Unicode `White_Space` property. No printable
/// ASCII character other than the space has it.
#[verifier::external_body]
pub(crate) fn is_whitespace(c: char) -> (r: bool)
    ensures
        r == unicode_whitespace(c),
        r == white_space(c),
{
    c.is_whitespace()
}

/// `str::to_uppercase`: the text with every character replaced by its
/// uppercase mapping. A text of ASCII characters without lowercase letters
/// comes back unchanged.
#[verifier::external_body]
pub(crate) fn to_uppercase(s: &str) -> (r: String)
    ensures
        r@ == uppercased(s@),
        r@ == upper_text(s@),
{
    s.to_uppercase()
}

/// Whether two texts hold the same characters. The texts are compared
/// byte by byte: texts with the same bytes are the same text.
pub fn str_eq(a: &str, b: &str) -> (r: bool)
    ensures
        r == (a@ == b@),
{
    let x = a.as_bytes();
    let y = b.as_bytes();
    if x.len() != y.len() {
        return false;
    }
    let mut i: usize = 0;
    while i < x.len()
        invariant
            i <= x.len(),
            x.len() == y.len(),
            x@ == encode_utf8(a@),
            y@ == encode_utf8(b@),
            forall|k: int| 0 <= k < i ==> x@[k] == y@[k],
        decreases x.len() - i,
    {
        if x[i] != y[i] {
            return false;
        }
        i += 1;
    }
    proof {
        assert(x@ =~= y@);
        encode_utf8_decode_utf8(a@);
        encode_utf8_decode_utf8(b@);
    }
    true
}

/// `String::push` appends one character.
pub assume_specification[ String::push ](s: &mut String, c: char)
    ensures
        final(s)@ == old(s)@.push(c),
;

/// The characters of a text, in order.
pub fn chars_of(s: &str) -> (v: Vec<char>)
    ensures
        v@ == s@,
{
    let n = s.unicode_len();
    let mut v: Vec<char> = Vec::new();
    let mut i: usize = 0;
    while i < n
        invariant
            n == s@.len(),
            i <= n,
            v@ == s@.take(i as int),
        decreases n - i,
    {
        v.push(s.get_char(i));
        i += 1;
        assert(v@ =~= s@.take(i as int));
    }
    assert(s@.take(n as int) =~= s@);
    v
}

/// Number of whitespace characters at the start of a text.
pub open spec fn leading_whitespace(s: Seq<char>) -> nat
    decreases s.len(),
{
    if s.len() > 0 && white_space(s[0]) {
        1 + leading_whitespace(s.drop_first())
    } else {
        0
    }
}

/// Number of whitespace characters at the end of a text.
pub open spec fn trailing_whitespace(s: Seq<char>) -> nat
    decreases s.len(),
{
    if s.len() > 0 && white_space(s.last()) {
        1 + trailing_whitespace(s.drop_last())
    } else {
        0
    }
}

/// A text without its leading whitespace.
pub open spec fn trimmed_start(s: Seq<char>) -> Seq<char> {
    s.skip(leading_whitespace(s) as int)
}

/// A text without its leading and trailing whitespace.
pub open spec fn trimmed(s: Seq<char>) -> Seq<char> {
    let t = trimmed_start(s);
    t.take(t.len() - trailing_whitespace(t))
}

/// The leading whitespace of a text lies within the text, is whitespace
/// throughout, and ends before a character of another kind.
proof fn lemma_leading_whitespace_bound(s: Seq<char>)
    ensures
        leading_whitespace(s) <= s.len(),
        forall|k: int| 0 <= k < leading_whitespace(s) ==> white_space(#[trigger] s[k]),
        leading_whitespace(s) < s.len() ==> !white_space(s[leading_whitespace(s) as int]),
    decreases s.len(),
{
    if s.len() > 0 && white_space(s[0]) {
        let t = s.drop_first();
        lemma_leading_whitespace_bound(t);
        assert forall|k: int| 0 <= k < leading_whitespace(s) implies white_space(
            #[trigger] s[k],
        ) by {
            if k > 0 {
                assert(s[k] == t[k - 1]);
            }
        }
        if leading_whitespace(s) < s.len() {
            assert(s[leading_whitespace(s) as int] == t[leading_whitespace(t) as int]);
        }
    }
}

/// The trailing whitespace of a text lies within the text, is whitespace
/// throughout, and begins after a character of another kind.
proof fn lemma_trailing_whitespace_bound(s: Seq<char>)
    ensures
        trailing_whitespace(s) <= s.len(),
        forall|k: int|
            s.len() - trailing_whitespace(s) <= k < s.len() ==> white_space(#[trigger] s[k]),
        trailing_whitespace(s) < s.len() ==> !white_space(
            s[s.len() - trailing_whitespace(s) - 1],
        ),
    decreases s.len(),
{
    if s.len() > 0 && white_space(s.last()) {
        let t = s.drop_last();
        lemma_trailing_whitespace_bound(t);
        assert forall|k: int|
            s.len() - trailing_whitespace(s) <= k < s.len() implies white_space(
            #[trigger] s[k],
        ) by {
            if k < s.len() - 1 {
                assert(s[k] == t[k]);
            }
        }
        if trailing_whitespace(s) < s.len() {
            assert(s[s.len() - trailing_whitespace(s) - 1] == t[t.len() - trailing_whitespace(t)
                - 1]);
        }
    }
}

/// The leading whitespace of a text is the one run that ends before its
/// first character of another kind.
proof fn lemma_leading_whitespace_is(s: Seq<char>, i: int)
    requires
        0 <= i <= s.len(),
        forall|k: int| 0 <= k < i ==> white_space(#[trigger] s[k]),
        i < s.len() ==> !white_space(s[i]),
    ensures
        leading_whitespace(s) == i,
{
    lemma_leading_whitespace_bound(s);
    let l = leading_whitespace(s) as int;
    if l < i {
        assert(white_space(s[l]));
    } else if l > i {
        assert(white_space(s[i]));
    }
}

/// The trailing whitespace of a text is the one run that starts after its
/// last character of another kind.
proof fn lemma_trailing_whitespace_is(s: Seq<char>, n: int)
    requires
        0 <= n <= s.len(),
        forall|k: int| s.len() - n <= k < s.len() ==> white_space(#[trigger] s[k]),
        n < s.len() ==> !white_space(s[s.len() - n - 1]),
    ensures
        trailing_whitespace(s) == n,
{
    lemma_trailing_whitespace_bound(s);
    let l = trailing_whitespace(s) as int;
    if l < n {
        assert(white_space(s[s.len() - l - 1]));
    } else if l > n {
        assert(white_space(s[s.len() - n - 1]));
    }
}

/// A text that neither starts nor ends with whitespace is its own trimmed
/// form.
pub proof fn lemma_trimmed_of_tight(s: Seq<char>)
    requires
        s.len() > 0 ==> !white_space(s[0]) && !white_space(s.last()),
    ensures
        trimmed(s) == s,
{
    lemma_leading_whitespace_is(s, 0);
    assert(trimmed_start(s) =~= s);
    lemma_trailing_whitespace_is(s, 0);
    assert(trimmed(s) =~= s);
}

/// A trimmed text neither starts nor ends with whitespace.
pub proof fn lemma_trimmed_is_tight(s: Seq<char>)
    ensures
        trimmed(s).len() > 0 ==> !white_space(trimmed(s)[0]) && !white_space(
            trimmed(s).last(),
        ),
        trimmed(s).len() <= s.len(),
{
    lemma_leading_whitespace_bound(s);
    let t = trimmed_start(s);
    lemma_trailing_whitespace_bound(t);
    if trimmed(s).len() > 0 {
        assert(trimmed(s)[0] == t[0]);
        assert(t[0] == s[leading_whitespace(s) as int]);
        assert(trimmed(s).last() == t[t.len() - trailing_whitespace(t) - 1]);
    }
}

/// Trimming twice is trimming once.
pub proof fn lemma_trimmed_idempotent(s: Seq<char>)
    ensures
        trimmed(trimmed(s)) == trimmed(s),
{
    lemma_trimmed_is_tight(s);
    lemma_trimmed_of_tight(trimmed(s));
}

/// The text without leading and trailing whitespace, as `str::trim` gives it.
pub fn trim(s: &str) -> (r: &str)
    ensures
        r@ == trimmed(s@),
{
    let v = chars_of(s);
    let n = v.len();
    let mut i: usize = 0;
    while i < n && is_whitespace(v[i])
        invariant
            n == v@.len(),
            i <= n,
            forall|k: int| 0 <= k < i ==> white_space(#[trigger] v@[k]),
        decreases n - i,
    {
        i += 1;
    }
    let mut j: usize = n;
    while j > i && is_whitespace(v[j - 1])
        invariant
            n == v@.len(),
            i <= j <= n,
            forall|k: int| j <= k < n ==> white_space(#[trigger] v@[k]),
        decreases j,
    {
        j -= 1;
    }
    proof {
        lemma_leading_whitespace_is(v@, i as int);
        let t = trimmed_start(v@);
        assert(t.len() == n - i);
        assert forall|k: int| t.len() - (n - j) <= k < t.len() implies white_space(
            #[trigger] t[k],
        ) by {
            assert(t[k] == v@[k + i]);
        }
        if n - j < t.len() {
            assert(t[t.len() - (n - j) - 1] == v@[j - 1]);
        }
        lemma_trailing_whitespace_is(t, (n - j) as int);
        assert(trimmed(v@) =~= v@.subrange(i as int, j as int));
    }
    s.substring_char(i, j)
}

/// Number of maximal runs of non-whitespace characters in a text, counted
/// from the left; `inside` tells whether the character before the text
/// belongs to a run.
pub open spec fn field_runs(s: Seq<char>, inside: bool) -> nat
    decreases s.len(),
{
    if s.len() == 0 {
        0
    } else if white_space(s[0]) {
        field_runs(s.drop_first(), false)
    } else if inside {
        field_runs(s.drop_first(), true)
    } else {
        1 + field_runs(s.drop_first(), true)
    }
}

/// Number of whitespace-separated fields of a text.
pub open spec fn field_count(s: Seq<char>) -> nat {
    field_runs(s, false)
}

/// Counts the whitespace-separated fields of a text, as the length of
/// `str::split_whitespace` does.
pub fn count_fields(s: &str) -> (n: usize)
    ensures
        n == field_count(s@),
{
    let v = chars_of(s);
    let len = v.len();
    let mut count: usize = 0;
    let mut inside = false;
    let mut i: usize = 0;
    assert(v@.skip(0) =~= v@);
    while i < len
        invariant
            len == v@.len(),
            i <= len,
            count <= i,
            count + field_runs(v@.skip(i as int), inside) == field_count(v@),
        decreases len - i,
    {
        proof {
            let rest = v@.skip(i as int);
            assert(rest[0] == v@[i as int]);
            assert(rest.drop_first() =~= v@.skip(i + 1));
        }
        if is_whitespace(v[i]) {
            inside = false;
        } else {
            if !inside {
                count += 1;
            }
            inside = true;
        }
        i += 1;
    }
    assert(v@.skip(len as int).len() == 0);
    count
}

} // verus!
