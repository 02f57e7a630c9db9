//! The call into the `ring` crate. It is believed, not proved.

use vstd::prelude::*;

verus! {

/// `ring::error::Unspecified`: the random source failed, without a reason.
#[verifier::external_type_specification]
#[verifier::external_body]
pub struct ExUnspecified(ring::error::Unspecified);

/// `ring::rand::SecureRandom::fill` on a `ring::rand::SystemRandom`: six
/// bytes from the system's random source, or its failure. Nothing is known
/// of the bytes.
#[verifier::external_body]
pub(crate) fn random_node() -> (r: Result<[u8; 6], ring::error::Unspecified>)
{
    let mut bytes = [0u8; 6];
    ring::rand::SecureRandom::fill(&ring::rand::SystemRandom::new(), &mut bytes)?;
    Ok(bytes)
}

} // verus!
