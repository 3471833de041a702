//! Record identifiers.

use crate::clock::{clock_reading, Timestamp};
use vstd::prelude::*;

verus! {

/// Whether `id` has the layout of a random (version 4) UUID: the version
/// field holds 4 and the variant field holds binary 10.
pub open spec fn is_random_id(id: u128) -> bool {
    id & 0xF000_C000_0000_0000_0000 == 0x4000_8000_0000_0000_0000
}

/// What holds of the identifier and the two readings of the clock with
/// which a record is made: the identifier is a random one, and the readings
/// are the clock's.
pub open spec fn fresh(id: u128, created_at: Timestamp, updated_at: Timestamp) -> bool {
    is_random_id(id) && clock_reading(created_at) && clock_reading(updated_at)
}

/// Draws a fresh identifier through `uuid::Uuid::new_v4`, as the 128-bit
/// number that its sixteen bytes write in big-endian order.
///
/// Trusted: whatever the random source yields, the version and variant
/// fields are set as for a version 4 UUID. Nothing is claimed of the other
/// 122 bits. `uuid` panics where the system's random source fails.
#[verifier::external_body]
pub(crate) fn new_id() -> (id: u128)
    ensures
        is_random_id(id),
{
    uuid::Uuid::new_v4().as_u128()
}

} // verus!
