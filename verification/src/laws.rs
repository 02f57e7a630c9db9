//! What holds of the operations whatever their inputs.

use vstd::prelude::*;
use vstd::utf8::encode_utf8;
use crate::failure::Failure;
use crate::ident::{input_bytes, Input};
use crate::module::all_declared;
use crate::search_params::{find_from, lemma_find_from, pairs_from, query_pairs, AMPERSAND};
use crate::url::{
    declared_names, is_generated, is_uuid, lemma_node_digits, lemma_stamped_version, no_uuid,
    node_digits, node_of, stringify_spec, uuid_of_input, uuidv3_spec, uuidv5_spec, v3_uuid,
    v5_uuid, version_spec,
};
use crate::uuid_calls::{v3_bytes, v5_bytes};
use crate::uuid_text::{
    canonical_text, lemma_canonical_injective, lemma_canonical_parses, parse_ascii, parse_text,
};

verus! {

/// The version 3 and the version 5 UUID of a name depend on the namespace's
/// UUID alone: whether it came as text, in which of its shapes, or as bytes
/// makes no difference, and equal inputs give equal results.
pub proof fn lemma_name_based_is_a_function(name: Seq<char>, a: Input, b: Input)
    requires
        uuid_of_input(a) == uuid_of_input(b),
    ensures
        uuidv3_spec(name, a) == uuidv3_spec(name, b),
        uuidv5_spec(name, a) == uuidv5_spec(name, b),
{
}

/// The version 3 and the version 5 UUID of a name in a namespace are never
/// the same text.
pub proof fn lemma_v3_differs_from_v5(name: Seq<char>, namespace: Input)
    ensures
        uuidv3_spec(name, namespace) is Ok ==> uuidv3_spec(name, namespace) != uuidv5_spec(
            name,
            namespace,
        ),
        uuidv3_spec(name, namespace) is Ok <==> uuid_of_input(namespace) is Some,
        uuidv5_spec(name, namespace) is Ok <==> uuid_of_input(namespace) is Some,
{
    if let Some(ns) = uuid_of_input(namespace) {
        let three = v3_uuid(ns, name);
        let five = v5_uuid(ns, name);
        lemma_stamped_version(v3_bytes(ns, encode_utf8(name)), 3);
        lemma_stamped_version(v5_bytes(ns, encode_utf8(name)), 5);
        if canonical_text(three) == canonical_text(five) {
            lemma_canonical_injective(three, five);
        }
    }
}

/// The text of an input that is one.
pub open spec fn input_text(value: Input) -> Seq<char> {
    match value {
        Input::Text(text) => text@,
        Input::Bytes(_) => Seq::empty(),
    }
}

/// A UUID as `uuidv1` or `uuidv4` makes it reads back: it is valid, it has
/// the version it was made with, and printing it again changes nothing.
pub proof fn lemma_generated_reads_back(value: Input, version: int)
    requires
        value is Text,
        is_generated(input_text(value), version),
        1 <= version <= 8,
    ensures
        is_uuid(input_text(value)),
        version_spec(input_text(value)) == Ok::<u8, Failure>(version as u8),
        stringify_spec(value, None) == Ok::<Seq<char>, Failure>(input_text(value)),
{
    let bytes = input_bytes(value);
    assert(bytes.subrange(0, bytes.len() as int) =~= bytes);
}

/// Sixteen raw bytes print as their canonical form, which reads back as the
/// same bytes; raw bytes of any other number are refused.
pub proof fn lemma_stringify_raw_bytes(value: Input)
    requires
        value is Bytes,
    ensures
        input_bytes(value).len() == 16 ==> stringify_spec(value, None) == Ok::<
            Seq<char>,
            Failure,
        >(canonical_text(input_bytes(value))),
        input_bytes(value).len() == 16 ==> parse_text(canonical_text(input_bytes(value))) == Some(
            input_bytes(value),
        ),
        input_bytes(value).len() != 16 ==> stringify_spec(value, None) == Err::<
            Seq<char>,
            Failure,
        >(no_uuid()),
{
    let bytes = input_bytes(value);
    assert(bytes.subrange(0, bytes.len() as int) =~= bytes);
    if bytes.len() == 16 {
        lemma_canonical_parses(bytes);
    }
}

/// A text that spells a UUID prints as the canonical form of that UUID, and
/// printing that form again changes nothing.
pub proof fn lemma_stringify_is_idempotent(value: Input, printed: Input)
    requires
        value is Text,
        printed is Text,
        stringify_spec(value, None) == Ok::<Seq<char>, Failure>(input_text(printed)),
    ensures
        stringify_spec(printed, None) == Ok::<Seq<char>, Failure>(input_text(printed)),
{
    let bytes = input_bytes(value);
    assert(bytes.subrange(0, bytes.len() as int) =~= bytes);
    let again = input_bytes(printed);
    assert(again.subrange(0, again.len() as int) =~= again);
    lemma_parsed_length(encode_utf8(input_text(value)));
    lemma_canonical_parses(parse_text(input_text(value))->0);
}

/// What parsing gives has 16 bytes.
proof fn lemma_parsed_length(s: Seq<u8>)
    ensures
        parse_ascii(s) matches Some(id) ==> id.len() == 16,
{
}

/// The last twelve digits of a time-based UUID spell its node, so two of
/// them with the same node end in the same twelve digits.
pub proof fn lemma_same_node_same_digits(a: Seq<char>, b: Seq<char>)
    requires
        is_generated(a, 1),
        is_generated(b, 1),
        node_of(a) == node_of(b),
    ensures
        a.subrange(24, 36) == node_digits(node_of(a)),
        a.subrange(24, 36) == b.subrange(24, 36),
{
    lemma_parsed_length(encode_utf8(a));
    lemma_parsed_length(encode_utf8(b));
    lemma_node_digits(parse_text(a)->0);
    lemma_node_digits(parse_text(b)->0);
}

/// Once the module has declared its names, whatever was declared before,
/// every name that it exports is declared.
pub proof fn lemma_declare_allows_evaluate(before: Seq<Seq<char>>)
    ensures
        all_declared(before + declared_names(), declared_names()),
{
    let names = declared_names();
    let all = before + names;
    assert forall|i: int| 0 <= i < names.len() implies all.contains(#[trigger] names[i]) by {
        assert(all[before.len() + i] == names[i]);
    }
}

/// `find_from` looks at nothing in front of the place it starts from: behind
/// a prefix it finds what it finds without, that much further on.
proof fn lemma_find_behind_prefix(prefix: Seq<u8>, b: Seq<u8>, sep: u8, k: int)
    requires
        0 <= k <= b.len(),
    ensures
        find_from(prefix + b, sep, prefix.len() + k) == prefix.len() + find_from(b, sep, k),
    decreases b.len() - k,
{
    if k < b.len() && b[k] != sep {
        lemma_find_behind_prefix(prefix, b, sep, k + 1);
    }
}

/// The parameters behind a prefix are those of what stands behind it.
proof fn lemma_pairs_behind_prefix(prefix: Seq<u8>, b: Seq<u8>, k: int)
    requires
        0 <= k <= b.len(),
    ensures
        pairs_from(prefix + b, prefix.len() + k) == pairs_from(b, k),
    decreases b.len() - k,
{
    let q = prefix + b;
    let n = prefix.len() as int;
    if k < b.len() {
        let i = find_from(b, AMPERSAND, k);
        lemma_find_from(b, AMPERSAND, k);
        lemma_find_behind_prefix(prefix, b, AMPERSAND, k);
        assert(q.subrange(n + k, n + i) =~= b.subrange(k, i));
        if i < b.len() {
            lemma_pairs_behind_prefix(prefix, b, i + 1);
        }
    }
}

/// In front of an ampersand that follows it, `a` is searched as it is
/// alone.
proof fn lemma_find_in_front(a: Seq<u8>, b: Seq<u8>, start: int)
    requires
        0 <= start <= a.len(),
    ensures
        find_from(a + seq![AMPERSAND] + b, AMPERSAND, start) == find_from(a, AMPERSAND, start),
    decreases a.len() - start,
{
    if start < a.len() && a[start] != AMPERSAND {
        lemma_find_in_front(a, b, start + 1);
    }
}

/// In front of an ampersand that follows it, the parameters of `a` are
/// found as in `a` alone, and those of what follows the ampersand after
/// them.
proof fn lemma_pairs_in_front(a: Seq<u8>, b: Seq<u8>, start: int)
    requires
        0 <= start <= a.len(),
    ensures
        pairs_from(a + seq![AMPERSAND] + b, start) == pairs_from(a, start) + pairs_from(b, 0),
    decreases a.len() - start,
{
    let q = a + seq![AMPERSAND] + b;
    let n = a.len() as int;
    let i = find_from(a, AMPERSAND, start);
    lemma_find_from(a, AMPERSAND, start);
    lemma_find_in_front(a, b, start);
    assert(q.subrange(start, i) =~= a.subrange(start, i));
    if i < n {
        lemma_pairs_in_front(a, b, i + 1);
    } else {
        lemma_pairs_behind_prefix(a + seq![AMPERSAND], b, 0);
    }
}

/// Order is kept: the parameters of two query strings joined by an
/// ampersand are those of the first, then those of the second.
pub proof fn lemma_query_pairs_concat(a: Seq<u8>, b: Seq<u8>)
    ensures
        query_pairs(a + seq![AMPERSAND] + b) == query_pairs(a) + query_pairs(b),
{
    lemma_pairs_in_front(a, b, 0);
}

} // verus!
