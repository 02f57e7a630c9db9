//! Query parameters: the pairs of a query string, in the order in which it
//! gives them.

use vstd::prelude::*;
use vstd::slice::slice_subrange;
use vstd::utf8::encode_utf8;
use crate::std_calls::{from_utf8_lossy, lossy_text};
use crate::uuid_text::{hex_value, is_hex};

verus! {

pub const AMPERSAND: u8 = 0x26;

pub const EQUALS: u8 = 0x3d;

pub const PERCENT: u8 = 0x25;

pub const PLUS: u8 = 0x2b;

pub const SPACE: u8 = 0x20;

pub const QUESTION_MARK: u8 = 0x3f;

/// An ordered list of pairs of a key and a value. A key may come more than
/// once.
#[derive(Clone, Debug, PartialEq, Eq)]
pub struct URLSearchParams {
    pub pairs: Vec<(String, String)>,
}

/// What parameters are made from.
#[derive(Clone, Debug)]
pub enum SearchParamsInit {
    /// A query string, with or without its question mark.
    Query(String),
    /// Pairs as they are: the items of a list, or the properties of an
    /// object in their order.
    Pairs(Vec<(String, String)>),
}

/// Pairs of texts as pairs of their characters.
pub open spec fn pairs_view(pairs: Seq<(String, String)>) -> Seq<(Seq<char>, Seq<char>)> {
    Seq::new(pairs.len(), |i: int| (pairs[i].0@, pairs[i].1@))
}

/// Pairs of byte vectors as pairs of their bytes.
pub open spec fn byte_pairs_view(pairs: Seq<(Vec<u8>, Vec<u8>)>) -> Seq<(Seq<u8>, Seq<u8>)> {
    Seq::new(pairs.len(), |i: int| (pairs[i].0@, pairs[i].1@))
}

impl View for URLSearchParams {
    type V = Seq<(Seq<char>, Seq<char>)>;

    open spec fn view(&self) -> Seq<(Seq<char>, Seq<char>)> {
        pairs_view(self.pairs@)
    }
}

/// The first place at or behind `from` where `s` holds `sep`; the length of
/// `s` where it holds none there.
pub open spec fn find_from(s: Seq<u8>, sep: u8, from: int) -> int
    decreases s.len() - from,
{
    if from >= s.len() {
        s.len() as int
    } else if s[from] == sep {
        from
    } else {
        find_from(s, sep, from + 1)
    }
}

/// Whether an escape stands at place `k`: a percent sign and two
/// hexadecimal digits.
pub open spec fn is_escape(s: Seq<u8>, k: int) -> bool {
    s[k] == PERCENT && k + 2 < s.len() && is_hex(s[k + 1]) && is_hex(s[k + 2])
}

/// The byte that the escape at place `k` stands for.
pub open spec fn escaped_byte(s: Seq<u8>, k: int) -> u8 {
    (hex_value(s[k + 1]) * 16 + hex_value(s[k + 2])) as u8
}

/// A byte outside an escape: a plus sign stands for a space, every other
/// byte for itself.
pub open spec fn plain_byte(b: u8) -> u8 {
    if b == PLUS {
        SPACE
    } else {
        b
    }
}

/// What `s` stands for from place `k` on.
pub open spec fn form_decode_from(s: Seq<u8>, k: int) -> Seq<u8>
    decreases s.len() - k,
{
    if k < 0 || k >= s.len() {
        Seq::empty()
    } else if is_escape(s, k) {
        seq![escaped_byte(s, k)] + form_decode_from(s, k + 3)
    } else {
        seq![plain_byte(s[k])] + form_decode_from(s, k + 1)
    }
}

/// What a key or a value stands for: each escape for its byte, each plus
/// sign for a space. A percent sign that starts no escape stands for itself.
pub open spec fn form_decode(s: Seq<u8>) -> Seq<u8> {
    form_decode_from(s, 0)
}

/// The pair of one parameter: the key in front of the first equals sign and
/// the value behind it, or the whole as the key and an empty value where
/// there is no equals sign.
pub open spec fn pair_of(segment: Seq<u8>) -> (Seq<u8>, Seq<u8>) {
    let j = find_from(segment, EQUALS, 0);
    (
        form_decode(segment.subrange(0, j)),
        if j < segment.len() {
            form_decode(segment.subrange(j + 1, segment.len() as int))
        } else {
            Seq::empty()
        },
    )
}

/// The pairs of the parameters of `q` from place `start` on. Ampersands
/// part the parameters; nothing between two of them is no parameter.
pub open spec fn pairs_from(q: Seq<u8>, start: int) -> Seq<(Seq<u8>, Seq<u8>)>
    decreases q.len() - start,
{
    if start < 0 || start >= q.len() {
        Seq::empty()
    } else {
        let i = find_from(q, AMPERSAND, start);
        let rest = if start <= i < q.len() {
            pairs_from(q, i + 1)
        } else {
            Seq::empty()
        };
        if i <= start {
            rest
        } else {
            seq![pair_of(q.subrange(start, i))] + rest
        }
    }
}

/// The pairs of a query string without its question mark.
pub open spec fn query_pairs(q: Seq<u8>) -> Seq<(Seq<u8>, Seq<u8>)> {
    pairs_from(q, 0)
}

/// A query string without the question mark that it may start with.
pub open spec fn without_question_mark(q: Seq<u8>) -> Seq<u8> {
    if q.len() > 0 && q[0] == QUESTION_MARK {
        q.subrange(1, q.len() as int)
    } else {
        q
    }
}

/// Pairs of bytes as pairs of texts.
pub open spec fn text_pairs(pairs: Seq<(Seq<u8>, Seq<u8>)>) -> Seq<(Seq<char>, Seq<char>)> {
    Seq::new(pairs.len(), |i: int| (lossy_text(pairs[i].0), lossy_text(pairs[i].1)))
}

/// The parameters of a query string.
pub open spec fn query_params(query: Seq<char>) -> Seq<(Seq<char>, Seq<char>)> {
    text_pairs(query_pairs(without_question_mark(encode_utf8(query))))
}

/// Where `find_from` points: not in front of `from`, not behind the end, at
/// a separator unless at the end, and behind no separator since `from`.
pub proof fn lemma_find_from(s: Seq<u8>, sep: u8, from: int)
    requires
        0 <= from <= s.len(),
    ensures
        from <= find_from(s, sep, from) <= s.len(),
        find_from(s, sep, from) < s.len() ==> s[find_from(s, sep, from)] == sep,
        forall|k: int| from <= k < find_from(s, sep, from) ==> s[k] != sep,
    decreases s.len() - from,
{
    if from < s.len() && s[from] != sep {
        lemma_find_from(s, sep, from + 1);
    }
}

/// The first place at or behind `from` where `s` holds `sep`.
fn find(s: &[u8], sep: u8, from: usize) -> (r: usize)
    requires
        from <= s@.len(),
    ensures
        r == find_from(s@, sep, from as int),
        from <= r <= s@.len(),
{
    let mut i = from;
    while i < s.len() && s[i] != sep
        invariant
            from <= i <= s@.len(),
            find_from(s@, sep, from as int) == find_from(s@, sep, i as int),
        decreases s@.len() - i,
    {
        i += 1;
    }
    i
}

/// The value of a hexadecimal digit.
fn hex_digit_value(c: u8) -> (r: Option<u8>)
    ensures
        match r {
            Some(v) => is_hex(c) && v == hex_value(c),
            None => !is_hex(c),
        },
{
    if 0x30 <= c && c <= 0x39 {
        Some(c - 0x30)
    } else if 0x61 <= c && c <= 0x66 {
        Some(c - 0x57)
    } else if 0x41 <= c && c <= 0x46 {
        Some(c - 0x37)
    } else {
        None
    }
}

/// The byte of the escape at place `k`, where one stands there.
fn escape_at(s: &[u8], k: usize) -> (r: Option<u8>)
    requires
        k < s@.len(),
    ensures
        match r {
            Some(b) => is_escape(s@, k as int) && b == escaped_byte(s@, k as int),
            None => !is_escape(s@, k as int),
        },
{
    if s[k] != PERCENT || s.len() - k < 3 {
        return None;
    }
    match (hex_digit_value(s[k + 1]), hex_digit_value(s[k + 2])) {
        (Some(high), Some(low)) => Some(high * 16 + low),
        _ => None,
    }
}

/// What a key or a value stands for.
pub fn form_decoded(s: &[u8]) -> (r: Vec<u8>)
    ensures
        r@ == form_decode(s@),
{
    let mut out: Vec<u8> = Vec::new();
    let mut k: usize = 0;
    while k < s.len()
        invariant
            k <= s@.len(),
            out@ + form_decode_from(s@, k as int) == form_decode(s@),
        decreases s@.len() - k,
    {
        match escape_at(s, k) {
            Some(b) => {
                out.push(b);
                k += 3;
            },
            None => {
                out.push(if s[k] == PLUS {
                    SPACE
                } else {
                    s[k]
                });
                k += 1;
            },
        }
    }
    out
}

/// The pair of one parameter.
fn pair(segment: &[u8]) -> (r: (Vec<u8>, Vec<u8>))
    ensures
        (r.0@, r.1@) == pair_of(segment@),
{
    let j = find(segment, EQUALS, 0);
    let key = form_decoded(slice_subrange(segment, 0, j));
    let value = if j < segment.len() {
        form_decoded(slice_subrange(segment, j + 1, segment.len()))
    } else {
        Vec::new()
    };
    (key, value)
}

/// The pairs of a query string without its question mark, each key and
/// value as the bytes that it stands for.
pub fn parse_query(query: &[u8]) -> (r: Vec<(Vec<u8>, Vec<u8>)>)
    ensures
        byte_pairs_view(r@) == query_pairs(query@),
{
    let mut pairs: Vec<(Vec<u8>, Vec<u8>)> = Vec::new();
    let mut start: usize = 0;
    while start < query.len()
        invariant
            start <= query@.len(),
            byte_pairs_view(pairs@) + pairs_from(query@, start as int) == query_pairs(query@),
        decreases query@.len() - start,
    {
        let i = find(query, AMPERSAND, start);
        if i > start {
            pairs.push(pair(slice_subrange(query, start, i)));
        }
        if i < query.len() {
            start = i + 1;
        } else {
            start = i;
        }
    }
    pairs
}

/// What `build_search_params` makes: nothing from nothing, the parameters
/// of a query string, and pairs as they are.
pub open spec fn search_params_spec(init: Option<&SearchParamsInit>) -> Seq<
    (Seq<char>, Seq<char>),
> {
    match init {
        None => Seq::empty(),
        Some(SearchParamsInit::Query(query)) => query_params(query@),
        Some(SearchParamsInit::Pairs(pairs)) => pairs_view(pairs@),
    }
}

/// Pairs of bytes as parameters, in their order: each key and each value
/// as the text that its bytes encode.
pub fn params_of_bytes(pairs: &Vec<(Vec<u8>, Vec<u8>)>) -> (r: URLSearchParams)
    ensures
        r@ == text_pairs(byte_pairs_view(pairs@)),
{
    let mut texts: Vec<(String, String)> = Vec::new();
    let mut i: usize = 0;
    while i < pairs.len()
        invariant
            i <= pairs.len(),
            pairs_view(texts@) == text_pairs(byte_pairs_view(pairs@)).take(i as int),
        decreases pairs.len() - i,
    {
        let key = from_utf8_lossy(pairs[i].0.as_slice());
        let value = from_utf8_lossy(pairs[i].1.as_slice());
        texts.push((key, value));
        assert(text_pairs(byte_pairs_view(pairs@)).take(i as int + 1) =~= text_pairs(
            byte_pairs_view(pairs@),
        ).take(i as int).push((key@, value@)));
        i += 1;
    }
    URLSearchParams { pairs: texts }
}

/// The same pairs, in the same order.
fn same_pairs(pairs: &Vec<(String, String)>) -> (r: Vec<(String, String)>)
    ensures
        pairs_view(r@) == pairs_view(pairs@),
{
    let mut copy: Vec<(String, String)> = Vec::new();
    let mut i: usize = 0;
    while i < pairs.len()
        invariant
            i <= pairs.len(),
            pairs_view(copy@) == pairs_view(pairs@).take(i as int),
        decreases pairs.len() - i,
    {
        copy.push((pairs[i].0.clone(), pairs[i].1.clone()));
        assert(pairs_view(pairs@).take(i as int + 1) =~= pairs_view(pairs@).take(i as int).push(
            (pairs@[i as int].0@, pairs@[i as int].1@),
        ));
        i += 1;
    }
    copy
}

/// Makes parameters: none from nothing; from a query string its
/// parameters, in its order; from pairs the same pairs, in their order.
pub fn build_search_params(init: Option<&SearchParamsInit>) -> (r: URLSearchParams)
    ensures
        r@ == search_params_spec(init),
{
    match init {
        None => URLSearchParams { pairs: Vec::new() },
        Some(SearchParamsInit::Query(query)) => {
            let bytes = query.as_str().as_bytes();
            let bare = if bytes.len() > 0 && bytes[0] == QUESTION_MARK {
                slice_subrange(bytes, 1, bytes.len())
            } else {
                bytes
            };
            params_of_bytes(&parse_query(bare))
        },
        Some(SearchParamsInit::Pairs(pairs)) => URLSearchParams { pairs: same_pairs(pairs) },
    }
}

} // verus!
