use vstd::prelude::*;

verus! {

/// The bits that every version-4 UUID fixes: the version nibble and the two
/// variant bits, in the UUID's big-endian 128-bit value.
pub open spec fn v4_fixed_bits_mask() -> u128 {
    0xF000C000000000000000u128
}

/// The value of the fixed bits of a version-4 UUID: version 4, variant RFC 4122.
pub open spec fn v4_fixed_bits() -> u128 {
    0x40008000000000000000u128
}

/// Draws a fresh random identifier with `uuid::Uuid::new_v4` and returns its
/// 128-bit big-endian value (`Uuid::as_u128`).
///
/// Trusted: the random bits are not described. What the contract claims is what
/// the `uuid` source shows for every outcome: `new_v4` masks the random value
/// so that the version nibble reads 4 and the variant bits read `10`.
/// `new_v4` panics when the operating system's random source fails; no
/// precondition can rule that out, and the contract does not.
#[verifier::external_body]
pub(crate) fn random_uuid() -> (id: u128)
    ensures
        id & v4_fixed_bits_mask() == v4_fixed_bits(),
{
    uuid::Uuid::new_v4().as_u128()
}

} // verus!
