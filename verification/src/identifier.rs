//! Snapshot identifiers. An identifier is held as the 128-bit number of a
//! UUID; making a fresh one and reading one from text are left to the `uuid`
//! crate.

use std::str::FromStr;
use vstd::prelude::*;

verus! {

/// The identifier that names no snapshot.
pub const NIL_ID: u128 = 0;

/// The bits of an identifier that hold the UUID version and variant.
pub const VERSION_AND_VARIANT_MASK: u128 = 0x0000_0000_0000_F000_C000_0000_0000_0000;

/// Version 4 and the RFC variant, at their places in the number.
pub const RANDOM_VERSION_AND_VARIANT: u128 = 0x0000_0000_0000_4000_8000_0000_0000_0000;

/// Whether an identifier has the shape of a random (version 4) UUID.
pub open spec fn is_random_id(id: u128) -> bool {
    id & VERSION_AND_VARIANT_MASK == RANDOM_VERSION_AND_VARIANT
}

/// The identifier that the `uuid` crate reads from a text, as a number, or
/// `None` where it refuses the text.
pub uninterp spec fn parsed_uuid(text: Seq<char>) -> Option<u128>;

/// `uuid::Uuid::new_v4`, as a number. Trusted: the crate masks the version
/// and variant bits into whatever the random source gave, so every result
/// has the shape of a version 4 UUID. Nothing else is known of it; the
/// crate gives up with a panic if the system has no random bytes to give.
#[verifier::external_body]
pub(crate) fn new_random_id() -> (id: u128)
    ensures
        is_random_id(id),
{
    uuid::Uuid::new_v4().as_u128()
}

/// `uuid::Uuid::from_str`, with the result as a number. Trusted: what comes
/// back depends on the text alone, so it is given the name [`parsed_uuid`].
#[verifier::external_body]
pub(crate) fn parse_uuid(text: &str) -> (id: Option<u128>)
    ensures
        id == parsed_uuid(text@),
{
    match uuid::Uuid::from_str(text) {
        Ok(id) => Some(id.as_u128()),
        Err(_) => None,
    }
}

/// A random identifier is never the nil identifier.
pub proof fn lemma_random_id_is_not_nil(id: u128)
    requires
        is_random_id(id),
    ensures
        id != NIL_ID,
{
    assert(id & 0x0000_0000_0000_F000_C000_0000_0000_0000u128
        == 0x0000_0000_0000_4000_8000_0000_0000_0000u128 ==> id != 0u128) by (bit_vector);
}

} // verus!
