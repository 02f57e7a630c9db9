//! The textual forms of a UUID, as functions on sequences of bytes and of
//! characters, and the facts that tie printing to parsing.

use vstd::prelude::*;
use vstd::utf8::{encode_utf8, is_ascii_chars, is_ascii_chars_encode_utf8};

verus! {

/// The ASCII code of `-`.
pub const HYPHEN: u8 = 0x2d;

/// The ASCII code of the lowercase hexadecimal digit that stands for `n`, a
/// value below 16.
pub open spec fn hex_digit(n: int) -> u8 {
    if n < 10 {
        (0x30 + n) as u8
    } else {
        (0x57 + n) as u8
    }
}

/// The value of an ASCII hexadecimal digit of either case, and -1 for every
/// other byte.
pub open spec fn hex_value(c: u8) -> int {
    if 0x30 <= c <= 0x39 {
        c - 0x30
    } else if 0x61 <= c <= 0x66 {
        c - 0x57
    } else if 0x41 <= c <= 0x46 {
        c - 0x37
    } else {
        -1
    }
}

/// Whether a byte is an ASCII hexadecimal digit.
pub open spec fn is_hex(c: u8) -> bool {
    hex_value(c) >= 0
}

/// Whether position `i` of the hyphenated form holds a hyphen.
pub open spec fn is_separator(i: int) -> bool {
    i == 8 || i == 13 || i == 18 || i == 23
}

/// The position in the hyphenated form of the `k`-th of the 32 digits.
pub open spec fn text_index(k: int) -> int {
    if k < 8 {
        k
    } else if k < 12 {
        k + 1
    } else if k < 16 {
        k + 2
    } else if k < 20 {
        k + 3
    } else {
        k + 4
    }
}

/// The number, among the 32 digits, of the digit at position `i` of the
/// hyphenated form.
pub open spec fn digit_index(i: int) -> int {
    if i < 8 {
        i
    } else if i < 13 {
        i - 1
    } else if i < 18 {
        i - 2
    } else if i < 23 {
        i - 3
    } else {
        i - 4
    }
}

/// The `k`-th half byte of `bytes`, the high half of each byte first.
pub open spec fn nibble(bytes: Seq<u8>, k: int) -> int {
    if k % 2 == 0 {
        bytes[k / 2] as int / 16
    } else {
        bytes[k / 2] as int % 16
    }
}

/// The canonical form of 16 bytes as ASCII codes: 36 of them, lowercase
/// hexadecimal digits in groups of 8, 4, 4, 4 and 12 with hyphens between.
pub open spec fn canonical_ascii(bytes: Seq<u8>) -> Seq<u8> {
    Seq::new(
        36,
        |i: int|
            if is_separator(i) {
                HYPHEN
            } else {
                hex_digit(nibble(bytes, digit_index(i)))
            },
    )
}

/// The canonical form of 16 bytes as text.
pub open spec fn canonical_text(bytes: Seq<u8>) -> Seq<char> {
    Seq::new(36, |i: int| canonical_ascii(bytes)[i] as char)
}

/// The 32 digits of a hyphenated form: 36 bytes with hyphens at 8, 13, 18
/// and 23. What the digits are is not looked at here.
pub open spec fn hyphenated_digits(s: Seq<u8>) -> Option<Seq<u8>> {
    if s.len() == 36 && s[8] == HYPHEN && s[13] == HYPHEN && s[18] == HYPHEN && s[23] == HYPHEN {
        Some(Seq::new(32, |k: int| s[text_index(k)]))
    } else {
        None
    }
}

/// An ASCII letter in lower case, any other byte as it is.
pub open spec fn ascii_lower(c: u8) -> u8 {
    if 0x41 <= c <= 0x5a {
        (c + 0x20) as u8
    } else {
        c
    }
}

/// The ASCII codes of `urn:uuid:`.
pub open spec fn urn_prefix() -> Seq<u8> {
    seq![0x75u8, 0x72u8, 0x6eu8, 0x3au8, 0x75u8, 0x75u8, 0x69u8, 0x64u8, 0x3au8]
}

/// Whether the first nine bytes of `s` read `urn:uuid:`, in either case.
pub open spec fn has_urn_prefix(s: Seq<u8>) -> bool {
    s.len() >= 9 && forall|i: int| 0 <= i < 9 ==> ascii_lower(#[trigger] s[i]) == urn_prefix()[i]
}

/// The 32 digits of an input in one of the four accepted shapes: 32 bytes,
/// all of them digits; 36 bytes, hyphenated; 38 bytes, hyphenated in braces;
/// 45 bytes, hyphenated behind `urn:uuid:`.
pub open spec fn uuid_digits(s: Seq<u8>) -> Option<Seq<u8>> {
    if s.len() == 32 {
        Some(s)
    } else if s.len() == 36 {
        hyphenated_digits(s)
    } else if s.len() == 38 && s[0] == 0x7b && s[37] == 0x7d {
        hyphenated_digits(s.subrange(1, 37))
    } else if s.len() == 45 && has_urn_prefix(s) {
        hyphenated_digits(s.subrange(9, 45))
    } else {
        None
    }
}

/// The 16 bytes that 32 hexadecimal digits spell, if all 32 are digits.
pub open spec fn decode_digits(d: Seq<u8>) -> Option<Seq<u8>> {
    if d.len() == 32 && forall|k: int| 0 <= k < 32 ==> is_hex(#[trigger] d[k]) {
        Some(Seq::new(16, |j: int| (hex_value(d[2 * j]) * 16 + hex_value(d[2 * j + 1])) as u8))
    } else {
        None
    }
}

/// The UUID that ASCII input spells, if it spells one.
pub open spec fn parse_ascii(s: Seq<u8>) -> Option<Seq<u8>> {
    match uuid_digits(s) {
        Some(d) => decode_digits(d),
        None => None,
    }
}

/// The UUID that a text spells, if it spells one: its UTF-8 bytes are read.
pub open spec fn parse_text(text: Seq<char>) -> Option<Seq<u8>> {
    parse_ascii(encode_utf8(text))
}

/// Whether all 16 bytes are zero.
pub open spec fn is_nil(bytes: Seq<u8>) -> bool {
    forall|i: int| 0 <= i < 16 ==> #[trigger] bytes[i] == 0
}

/// Whether all 16 bytes are 0xff.
pub open spec fn is_max(bytes: Seq<u8>) -> bool {
    forall|i: int| 0 <= i < 16 ==> #[trigger] bytes[i] == 0xff
}

/// The version field: the high half of byte 6.
pub open spec fn version_field(bytes: Seq<u8>) -> int {
    bytes[6] as int / 16
}

/// Whether the variant field, the two highest bits of byte 8, reads `10`.
pub open spec fn has_standard_variant(bytes: Seq<u8>) -> bool {
    bytes[8] as int / 64 == 2
}

/// The version of a UUID where it is a known one: 1 to 8 by the version
/// field alone, 0 for the nil UUID and 15 for the all-ones UUID only.
pub open spec fn known_version(bytes: Seq<u8>) -> Option<u8> {
    let n = version_field(bytes);
    if 1 <= n <= 8 {
        Some(n as u8)
    } else if n == 0 && is_nil(bytes) {
        Some(0u8)
    } else if n == 15 && is_max(bytes) {
        Some(15u8)
    } else {
        None
    }
}

/// The version of a UUID as a number, 0 where it has no known version.
pub open spec fn version_number(bytes: Seq<u8>) -> u8 {
    match known_version(bytes) {
        Some(v) => v,
        None => 0,
    }
}

/// A hexadecimal digit printed and read again is the same value.
pub proof fn lemma_hex_round_trip(n: int)
    requires
        0 <= n < 16,
    ensures
        is_hex(hex_digit(n)),
        hex_value(hex_digit(n)) == n,
{
}

/// The canonical form is ASCII, so its UTF-8 bytes are its characters.
pub proof fn lemma_canonical_text_bytes(bytes: Seq<u8>)
    ensures
        is_ascii_chars(canonical_text(bytes)),
        encode_utf8(canonical_text(bytes)) == canonical_ascii(bytes),
{
    let text = canonical_text(bytes);
    let ascii = canonical_ascii(bytes);
    assert forall|i: int| 0 <= i < 36 implies #[trigger] ascii[i] < 0x80 && text[i] as u8
        == ascii[i] by {}
    is_ascii_chars_encode_utf8(text);
}

/// Printing then parsing gives the bytes back.
pub proof fn lemma_canonical_parses(bytes: Seq<u8>)
    requires
        bytes.len() == 16,
    ensures
        parse_ascii(canonical_ascii(bytes)) == Some(bytes),
        parse_text(canonical_text(bytes)) == Some(bytes),
{
    let ascii = canonical_ascii(bytes);
    let d = hyphenated_digits(ascii)->0;
    assert forall|k: int| 0 <= k < 32 implies is_hex(#[trigger] d[k]) && hex_value(d[k]) == nibble(
        bytes,
        k,
    ) by {
        lemma_hex_round_trip(nibble(bytes, k));
    }
    let decoded = decode_digits(d)->0;
    assert forall|j: int| 0 <= j < 16 implies decoded[j] == bytes[j] by {}
    lemma_canonical_text_bytes(bytes);
}

/// Two UUIDs with the same canonical form are the same.
pub proof fn lemma_canonical_injective(a: Seq<u8>, b: Seq<u8>)
    requires
        a.len() == 16,
        b.len() == 16,
        canonical_text(a) == canonical_text(b),
    ensures
        a == b,
{
    lemma_canonical_parses(a);
    lemma_canonical_parses(b);
}

} // verus!
