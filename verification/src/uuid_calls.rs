//! The calls into the `uuid` and `uuid_simd` crates. Each function here is
//! believed, not proved: its contract says what the crate's code does.

use vstd::prelude::*;
use crate::uuid_text::{
    canonical_text, has_standard_variant, known_version, parse_ascii, version_field,
};

verus! {

/// `uuid::Error`: why the crate read no UUID. Nothing of it is looked at.
#[verifier::external_type_specification]
#[verifier::external_body]
pub struct ExUuidError(uuid::Error);

/// The bytes of the version 3 UUID of a name in a namespace, as
/// `uuid::Uuid::new_v3` computes them from an MD5 digest.
pub uninterp spec fn v3_bytes(namespace: Seq<u8>, name: Seq<u8>) -> Seq<u8>;

/// The bytes of the version 5 UUID of a name in a namespace, as
/// `uuid::Uuid::new_v5` computes them from a SHA-1 digest.
pub uninterp spec fn v5_bytes(namespace: Seq<u8>, name: Seq<u8>) -> Seq<u8>;

/// The bytes of the namespace for domain names.
pub open spec fn namespace_dns_bytes() -> Seq<u8> {
    seq![
        0x6bu8, 0xa7u8, 0xb8u8, 0x10u8, 0x9du8, 0xadu8, 0x11u8, 0xd1u8,
        0x80u8, 0xb4u8, 0x00u8, 0xc0u8, 0x4fu8, 0xd4u8, 0x30u8, 0xc8u8,
    ]
}

/// The bytes of the namespace for URLs.
pub open spec fn namespace_url_bytes() -> Seq<u8> {
    seq![
        0x6bu8, 0xa7u8, 0xb8u8, 0x11u8, 0x9du8, 0xadu8, 0x11u8, 0xd1u8,
        0x80u8, 0xb4u8, 0x00u8, 0xc0u8, 0x4fu8, 0xd4u8, 0x30u8, 0xc8u8,
    ]
}

/// `uuid::Uuid::try_parse_ascii`: reads a UUID from bytes in one of the four
/// shapes that `parse_ascii` lists, digits of either case, and fails on any
/// other input.
#[verifier::external_body]
pub(crate) fn try_parse_ascii(input: &[u8]) -> (r: Result<[u8; 16], uuid::Error>)
    ensures
        match r {
            Ok(id) => parse_ascii(input@) == Some(id@),
            Err(_) => parse_ascii(input@).is_none(),
        },
{
    uuid::Uuid::try_parse_ascii(input).map(uuid::Uuid::into_bytes)
}

/// `uuid::Uuid::from_slice`: exactly 16 bytes make a UUID, which holds them
/// in their order; any other length is an error.
#[verifier::external_body]
pub(crate) fn from_slice(bytes: &[u8]) -> (r: Result<[u8; 16], uuid::Error>)
    ensures
        match r {
            Ok(id) => bytes@.len() == 16 && id@ == bytes@,
            Err(_) => bytes@.len() != 16,
        },
{
    uuid::Uuid::from_slice(bytes).map(uuid::Uuid::into_bytes)
}

/// `uuid::Uuid::get_version`: the version where the crate knows it, as the
/// number of its `Version`.
#[verifier::external_body]
pub(crate) fn get_version(id: &[u8; 16]) -> (r: Option<u8>)
    ensures
        r == known_version(id@),
{
    uuid::Uuid::from_bytes(*id).get_version().map(|v| v as u8)
}

/// `uuid::Uuid::now_v1`: a UUID from the clock and a counter. Of those only
/// the version and the variant are known; the last six bytes are the node.
/// The crate panics where the clock reads a time before 1970, or where the
/// system gives it no random bits for the counter.
#[verifier::external_body]
pub(crate) fn now_v1(node_id: &[u8; 6]) -> (r: [u8; 16])
    ensures
        version_field(r@) == 1,
        has_standard_variant(r@),
        r@.subrange(10, 16) == node_id@,
{
    uuid::Uuid::now_v1(node_id).into_bytes()
}

/// `uuid::Uuid::new_v3`: a digest of the namespace and the name, with the
/// version set to 3 and the variant to the standard one.
#[verifier::external_body]
pub(crate) fn new_v3(namespace: &[u8; 16], name: &[u8]) -> (r: [u8; 16])
    ensures
        r@ == v3_bytes(namespace@, name@),
        version_field(r@) == 3,
        has_standard_variant(r@),
{
    uuid::Uuid::new_v3(&uuid::Uuid::from_bytes(*namespace), name).into_bytes()
}

/// `uuid::Uuid::new_v4`: random bits, but for the version, 4, and the
/// standard variant. The crate panics where the system gives it no random
/// bits.
#[verifier::external_body]
pub(crate) fn new_v4() -> (r: [u8; 16])
    ensures
        version_field(r@) == 4,
        has_standard_variant(r@),
{
    uuid::Uuid::new_v4().into_bytes()
}

/// `uuid::Uuid::new_v5`: a digest of the namespace and the name, with the
/// version set to 5 and the variant to the standard one.
#[verifier::external_body]
pub(crate) fn new_v5(namespace: &[u8; 16], name: &[u8]) -> (r: [u8; 16])
    ensures
        r@ == v5_bytes(namespace@, name@),
        version_field(r@) == 5,
        has_standard_variant(r@),
{
    uuid::Uuid::new_v5(&uuid::Uuid::from_bytes(*namespace), name).into_bytes()
}

/// `uuid::Uuid::as_hyphenated`, printed: the canonical form.
#[verifier::external_body]
pub(crate) fn as_hyphenated(id: &[u8; 16]) -> (r: String)
    ensures
        r@ == canonical_text(id@),
{
    uuid::Uuid::from_bytes(*id).as_hyphenated().to_string()
}

/// `uuid_simd::UuidExt::format_hyphenated`, printed: the canonical form.
#[verifier::external_body]
pub(crate) fn format_hyphenated(id: &[u8; 16]) -> (r: String)
    ensures
        r@ == canonical_text(id@),
{
    uuid_simd::UuidExt::format_hyphenated(&uuid::Uuid::from_bytes(*id)).to_string()
}

/// `uuid::Uuid::NAMESPACE_DNS`.
#[verifier::external_body]
pub(crate) fn namespace_dns() -> (r: [u8; 16])
    ensures
        r@ == namespace_dns_bytes(),
{
    uuid::Uuid::NAMESPACE_DNS.into_bytes()
}

/// `uuid::Uuid::NAMESPACE_URL`.
#[verifier::external_body]
pub(crate) fn namespace_url() -> (r: [u8; 16])
    ensures
        r@ == namespace_url_bytes(),
{
    uuid::Uuid::NAMESPACE_URL.into_bytes()
}

} // verus!
