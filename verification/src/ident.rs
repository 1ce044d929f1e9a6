//! Record identifiers: 128-bit values in the layout of a random UUID.

use vstd::prelude::*;

verus! {

/// The bits of an identifier that hold its version and its variant.
pub const LAYOUT_MASK: u128 = 0x0000_0000_0000_f000_c000_0000_0000_0000;

/// What those bits hold in a random (version 4) identifier of the
/// standard variant.
pub const RANDOM_LAYOUT: u128 = 0x0000_0000_0000_4000_8000_0000_0000_0000;

/// Whether `id` is laid out as a random UUID: version nibble 4, variant
/// bits `10`. The other 122 bits are free.
pub open spec fn is_random_id(id: u128) -> bool {
    id & LAYOUT_MASK == RANDOM_LAYOUT
}

/// Tests the layout of an identifier.
pub fn has_random_layout(id: u128) -> (r: bool)
    ensures
        r == is_random_id(id),
{
    id & LAYOUT_MASK == RANDOM_LAYOUT
}

/// Calls `uuid::Uuid::new_v4` and hands back the identifier as the integer
/// that `Uuid::as_u128` gives for it.
///
/// Trusted: `new_v4` masks its random bits so that the version nibble is 4
/// and the variant bits are `10`. Nothing is claimed of the other bits, and
/// two calls may give the same value. The call panics if the operating
/// system cannot supply random bytes.
#[verifier::external_body]
pub(crate) fn draw_id() -> (id: u128)
    ensures
        is_random_id(id),
{
    uuid::Uuid::new_v4().as_u128()
}

} // verus!
