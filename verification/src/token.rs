//! Opaque credentials.

use vstd::prelude::*;

verus! {

/// A credential: 128 bits that are meant to be unguessable.
///
/// Login and invite credentials are both tokens. A token is the integer value
/// of a UUID, most significant byte first.
#[derive(Debug, Clone, Copy, PartialEq, Eq, Hash, Structural)]
pub struct Token(pub u128);

/// The bits of a UUID that hold its version and variant.
pub const VERSION_AND_VARIANT_MASK: u128 = 0x0000_0000_0000_f000_c000_0000_0000_0000u128;

/// What those bits hold in a random (version 4) UUID of the RFC's variant.
pub const RANDOM_VERSION_AND_VARIANT: u128 = 0x0000_0000_0000_4000_8000_0000_0000_0000u128;

impl Token {
    /// Whether the token has the shape of a random (version 4) UUID.
    pub open spec fn is_random(self) -> bool {
        self.0 & VERSION_AND_VARIANT_MASK == RANDOM_VERSION_AND_VARIANT
    }

    /// Whether the token has the shape of a random (version 4) UUID.
    pub fn has_random_shape(&self) -> (yes: bool)
        ensures
            yes == self.is_random(),
    {
        self.0 & VERSION_AND_VARIANT_MASK == RANDOM_VERSION_AND_VARIANT
    }

    /// Draws a new token from the operating system's random number generator.
    ///
    /// Two calls may return anything at all, the same token included, however
    /// unlikely; callers that need a token different from a given one have to
    /// compare.
    pub fn fresh() -> (token: Token)
        ensures
            token.is_random(),
    {
        Token(random_uuid())
    }
}

/// Calls `uuid::Uuid::new_v4` and takes the result's `as_u128`.
///
/// Trusted: of the random bits nothing is claimed, only that the version
/// and variant fields are the ones `new_v4` always sets.
#[verifier::external_body]
fn random_uuid() -> (bits: u128)
    ensures
        bits & VERSION_AND_VARIANT_MASK == RANDOM_VERSION_AND_VARIANT,
{
    uuid::Uuid::new_v4().as_u128()
}

} // verus!
