//! Identity tokens: the values by which a program and its call targets are
//! told apart.

use vstd::prelude::*;

verus! {

/// A token minted once for a program or a call target. It is the 128 bits
/// of a UUID.
pub type Identity = u128;

/// Whether `bits` has the layout of a random (version 4) UUID: the version
/// field holds 4 and the variant field marks the RFC 4122 layout.
pub open spec fn is_random_layout(bits: Identity) -> bool {
    &&& ((bits >> 76) & 0xf) == 4
    &&& ((bits >> 62) & 0x3) == 2
}

/// Mints an identity.
///
/// Calls `uuid::Uuid::new_v4` and hands out the UUID's bits as
/// `uuid::Uuid::as_u128` gives them. The bits are drawn at random, so two
/// calls may hand out any two values, equal ones not excluded; all that is
/// claimed is the version and variant that `new_v4` stamps on every UUID
/// it makes. `new_v4` panics where the operating system has no random
/// bytes to give.
#[verifier::external_body]
pub(crate) fn fresh_identity() -> (id: Identity)
    ensures
        is_random_layout(id),
{
    uuid::Uuid::new_v4().as_u128()
}

} // verus!
