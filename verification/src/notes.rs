//! Identifiers of sticky notes as they stand in the labels of windows: the
//! bytes of the identifier in hexadecimal digits behind a fixed prefix.

use crate::text::{chars_of, str_eq};
use vstd::prelude::*;
use vstd::utf8::{decode_utf8, encode_utf8, encode_utf8_decode_utf8, encode_utf8_valid_utf8, valid_utf8};

verus! {

/// The prefix of the label of a sticky note's window.
pub const STICKY_NOTE_ITEM_PREFIX: &'static str = "sticky-note-item-";

/// `String::from_utf8`: the text that the bytes encode, where they are
/// valid UTF-8, and else nothing.
#[verifier::external_body]
pub(crate) fn text_from_utf8(bytes: Vec<u8>) -> (r: Option<String>)
    ensures
        match r {
            Some(s) => valid_utf8(bytes@) && s@ == decode_utf8(bytes@),
            None => !valid_utf8(bytes@),
        },
{
    String::from_utf8(bytes).ok()
}

/// The hexadecimal digit of a number below 16, in small letters.
pub open spec fn hex_digit(n: int) -> char {
    if n == 0 {
        '0'
    } else if n == 1 {
        '1'
    } else if n == 2 {
        '2'
    } else if n == 3 {
        '3'
    } else if n == 4 {
        '4'
    } else if n == 5 {
        '5'
    } else if n == 6 {
        '6'
    } else if n == 7 {
        '7'
    } else if n == 8 {
        '8'
    } else if n == 9 {
        '9'
    } else if n == 10 {
        'a'
    } else if n == 11 {
        'b'
    } else if n == 12 {
        'c'
    } else if n == 13 {
        'd'
    } else if n == 14 {
        'e'
    } else {
        'f'
    }
}

/// The value of a hexadecimal digit, in small or capital letters.
pub open spec fn hex_value(c: char) -> Option<int> {
    if '0' <= c <= '9' {
        Some(c as u32 - '0' as u32)
    } else if 'a' <= c <= 'f' {
        Some(c as u32 - 'a' as u32 + 10)
    } else if 'A' <= c <= 'F' {
        Some(c as u32 - 'A' as u32 + 10)
    } else {
        None
    }
}

/// The byte that two characters name as a hexadecimal number: two digits,
/// or a plus sign and one digit.
pub open spec fn pair_value(high: char, low: char) -> Option<u8> {
    if high == '+' {
        match hex_value(low) {
            Some(l) => Some(l as u8),
            None => None,
        }
    } else {
        match (hex_value(high), hex_value(low)) {
            (Some(h), Some(l)) => Some((16 * h + l) as u8),
            _ => None,
        }
    }
}

/// The bytes of a sequence, each as two hexadecimal digits.
pub open spec fn hex_text(bytes: Seq<u8>) -> Seq<char>
    decreases bytes.len(),
{
    if bytes.len() == 0 {
        Seq::empty()
    } else {
        hex_text(bytes.drop_last()).push(hex_digit(bytes.last() as int / 16)).push(
            hex_digit(bytes.last() as int % 16),
        )
    }
}

/// The bytes that a text of even length names, pair by pair, or nothing
/// where a pair names no byte.
pub open spec fn pairs_bytes(s: Seq<char>) -> Option<Seq<u8>>
    decreases s.len(),
{
    if s.len() < 2 {
        Some(Seq::empty())
    } else {
        match pairs_bytes(s.take(s.len() - 2)) {
            None => None,
            Some(bytes) => match pair_value(s[s.len() - 2], s[s.len() - 1]) {
                Some(b) => Some(bytes.push(b)),
                None => None,
            },
        }
    }
}

/// The identifier that an encoded text stands for: the text decoded from
/// the bytes that the pairs of the text name. There is none where the text
/// has an odd length, where a pair names no byte, or where the bytes are no
/// valid UTF-8.
pub open spec fn note_id_decoded(encoded: Seq<char>) -> Option<Seq<char>> {
    if encoded.len() % 2 != 0 {
        None
    } else {
        match pairs_bytes(encoded) {
            None => None,
            Some(bytes) => if valid_utf8(bytes) {
                Some(decode_utf8(bytes))
            } else {
                None
            },
        }
    }
}

/// The hexadecimal digit of a number below 16.
fn hex_digit_of(n: u8) -> (c: char)
    requires
        n < 16,
    ensures
        c == hex_digit(n as int),
{
    if n == 0 {
        '0'
    } else if n == 1 {
        '1'
    } else if n == 2 {
        '2'
    } else if n == 3 {
        '3'
    } else if n == 4 {
        '4'
    } else if n == 5 {
        '5'
    } else if n == 6 {
        '6'
    } else if n == 7 {
        '7'
    } else if n == 8 {
        '8'
    } else if n == 9 {
        '9'
    } else if n == 10 {
        'a'
    } else if n == 11 {
        'b'
    } else if n == 12 {
        'c'
    } else if n == 13 {
        'd'
    } else if n == 14 {
        'e'
    } else {
        'f'
    }
}

/// The value of a hexadecimal digit.
fn hex_value_of(c: char) -> (r: Option<u8>)
    ensures
        match r {
            Some(v) => hex_value(c) == Some(v as int) && v < 16,
            None => hex_value(c) is None,
        },
{
    if '0' <= c && c <= '9' {
        Some((c as u32 - '0' as u32) as u8)
    } else if 'a' <= c && c <= 'f' {
        Some((c as u32 - 'a' as u32 + 10) as u8)
    } else if 'A' <= c && c <= 'F' {
        Some((c as u32 - 'A' as u32 + 10) as u8)
    } else {
        None
    }
}

/// The byte that two characters name.
fn pair_value_of(high: char, low: char) -> (r: Option<u8>)
    ensures
        r == pair_value(high, low),
{
    if high == '+' {
        hex_value_of(low)
    } else {
        match (hex_value_of(high), hex_value_of(low)) {
            (Some(h), Some(l)) => Some(16 * h + l),
            _ => None,
        }
    }
}

/// Writes the identifier of a note as the hexadecimal digits of its bytes.
pub fn encode_note_id(note_id: &str) -> (r: String)
    ensures
        r@ == hex_text(encode_utf8(note_id@)),
{
    let bytes = note_id.as_bytes_vec();
    let mut r = String::new();
    let mut i: usize = 0;
    assert(bytes@.take(0) =~= Seq::<u8>::empty());
    while i < bytes.len()
        invariant
            i <= bytes.len(),
            r@ == hex_text(bytes@.take(i as int)),
        decreases bytes.len() - i,
    {
        proof {
            let upto = bytes@.take(i + 1);
            assert(upto.drop_last() =~= bytes@.take(i as int));
            assert(upto.last() == bytes@[i as int]);
        }
        let b = bytes[i];
        r.push(hex_digit_of(b / 16));
        r.push(hex_digit_of(b % 16));
        i += 1;
    }
    assert(bytes@.take(bytes.len() as int) =~= bytes@);
    r
}

/// Reads the identifier of a note back from its hexadecimal digits.
pub fn decode_note_id(encoded: &str) -> (r: Option<String>)
    ensures
        match note_id_decoded(encoded@) {
            Some(id) => r matches Some(s) && s@ == id,
            None => r is None,
        },
{
    let chars = chars_of(encoded);
    let n = chars.len();
    if n % 2 != 0 {
        return None;
    }
    let mut bytes: Vec<u8> = Vec::new();
    let mut i: usize = 0;
    assert(chars@.take(0) =~= Seq::<char>::empty());
    while i < n
        invariant
            n == chars.len(),
            chars@ == encoded@,
            n % 2 == 0,
            i % 2 == 0,
            i <= n,
            pairs_bytes(chars@.take(i as int)) == Some(bytes@),
        decreases n - i,
    {
        proof {
            let upto = chars@.take(i + 2);
            assert(upto.take(upto.len() - 2) =~= chars@.take(i as int));
            assert(upto[upto.len() - 2] == chars@[i as int]);
            assert(upto[upto.len() - 1] == chars@[i + 1]);
            if pairs_bytes(upto) is None {
                lemma_pairs_fail(chars@, i + 2);
            }
        }
        match pair_value_of(chars[i], chars[i + 1]) {
            Some(b) => {
                bytes.push(b);
            },
            None => {
                return None;
            },
        }
        i += 2;
    }
    assert(chars@.take(n as int) =~= chars@);
    text_from_utf8(bytes)
}

/// Where a pair among the first of a text names no byte, the text names no
/// bytes.
proof fn lemma_pairs_fail(s: Seq<char>, n: int)
    requires
        0 <= n <= s.len(),
        n % 2 == 0,
        s.len() % 2 == 0,
        pairs_bytes(s.take(n)) is None,
    ensures
        pairs_bytes(s) is None,
    decreases s.len() - n,
{
    if n < s.len() {
        let next = s.take(n + 2);
        assert(next.take(next.len() - 2) =~= s.take(n));
        lemma_pairs_fail(s, n + 2);
    } else {
        assert(s.take(n) =~= s);
    }
}

/// The label of the window of a note: the prefix and the encoded
/// identifier.
pub fn sticky_note_item_label(note_id: &str) -> (r: String)
    ensures
        r@ == "sticky-note-item-"@ + hex_text(encode_utf8(note_id@)),
{
    let mut r = String::from_str("sticky-note-item-");
    r.append(encode_note_id(note_id).as_str());
    r
}

/// The name of the event that refreshes the window of a note.
pub fn sticky_note_item_refresh_event(note_id: &str) -> (r: String)
    ensures
        r@ == "sticky-note-item-refresh-"@ + hex_text(encode_utf8(note_id@)),
{
    let mut r = String::from_str("sticky-note-item-refresh-");
    r.append(encode_note_id(note_id).as_str());
    r
}

/// The identifier that the label of a window stands for: none for a label
/// without the prefix, else what the rest of the label decodes to.
pub open spec fn label_note_id(label: Seq<char>) -> Option<Seq<char>> {
    let prefix = "sticky-note-item-"@;
    if label.len() >= prefix.len() && label.take(prefix.len() as int) == prefix {
        note_id_decoded(label.skip(prefix.len() as int))
    } else {
        None
    }
}

/// Reads the identifier of a note off the label of its window.
pub fn note_id_from_item_label(label: &str) -> (r: Option<String>)
    ensures
        match label_note_id(label@) {
            Some(id) => r matches Some(s) && s@ == id,
            None => r is None,
        },
{
    let n = label.unicode_len();
    let p = "sticky-note-item-".unicode_len();
    if n < p {
        return None;
    }
    if !str_eq(label.substring_char(0, p), "sticky-note-item-") {
        return None;
    }
    assert(label@.subrange(0, p as int) =~= label@.take(p as int));
    assert(label@.subrange(p as int, n as int) =~= label@.skip(p as int));
    decode_note_id(label.substring_char(p, n))
}

/// The digits of a byte name that byte.
proof fn lemma_hex_pair(b: u8)
    ensures
        pair_value(hex_digit(b as int / 16), hex_digit(b as int % 16)) == Some(b),
{
    let h = b as int / 16;
    let l = b as int % 16;
    assert(hex_value(hex_digit(h)) == Some(h));
    assert(hex_value(hex_digit(l)) == Some(l));
    assert(hex_digit(h) != '+');
}

/// The hexadecimal digits of bytes name those bytes again.
pub proof fn lemma_hex_round_trip(bytes: Seq<u8>)
    ensures
        hex_text(bytes).len() == 2 * bytes.len(),
        pairs_bytes(hex_text(bytes)) == Some(bytes),
    decreases bytes.len(),
{
    if bytes.len() > 0 {
        let rest = bytes.drop_last();
        lemma_hex_round_trip(rest);
        let t = hex_text(bytes);
        assert(t.take(t.len() - 2) =~= hex_text(rest));
        lemma_hex_pair(bytes.last());
        assert(rest.push(bytes.last()) =~= bytes);
    }
}

/// An encoded identifier decodes to the identifier, and a label to the
/// identifier that it was made for.
pub proof fn lemma_note_id_round_trip(note_id: Seq<char>)
    ensures
        note_id_decoded(hex_text(encode_utf8(note_id))) == Some(note_id),
        label_note_id("sticky-note-item-"@ + hex_text(encode_utf8(note_id))) == Some(note_id),
{
    let bytes = encode_utf8(note_id);
    lemma_hex_round_trip(bytes);
    encode_utf8_valid_utf8(note_id);
    encode_utf8_decode_utf8(note_id);
    let prefix = "sticky-note-item-"@;
    let label = prefix + hex_text(bytes);
    assert(label.take(prefix.len() as int) =~= prefix);
    assert(label.skip(prefix.len() as int) =~= hex_text(bytes));
}

} // verus!
