//! Time-to-live policy of a relay.

use vstd::math::{max, min};
use vstd::prelude::*;

verus! {

/// The longest time, in seconds, that the relay holds a message: 28 days.
pub const MAX_TTL: u64 = 2419200;

/// The TTL that goes on the wire: the requested one, raised to the
/// configured floor and then capped at the relay's ceiling.
pub open spec fn effective_ttl(floor: int, requested: int) -> int {
    min(MAX_TTL as int, max(floor, requested))
}

/// Computes the TTL to send for a requested TTL under a configured floor.
pub fn clamp_ttl(floor: u64, requested: i64) -> (ttl: u64)
    ensures
        ttl as int == effective_ttl(floor as int, requested as int),
{
    let raised: u64 = if requested < 0 {
        floor
    } else {
        let asked: u64 = requested as u64;
        if asked < floor {
            floor
        } else {
            asked
        }
    };
    if raised > MAX_TTL {
        MAX_TTL
    } else {
        raised
    }
}

/// The TTL that goes on the wire never passes the ceiling; under the
/// ceiling it is never below the floor; and a request that lies between
/// floor and ceiling goes out as it is.
pub proof fn lemma_effective_ttl_bounds(floor: int, requested: int)
    ensures
        effective_ttl(floor, requested) <= MAX_TTL,
        floor <= MAX_TTL ==> floor <= effective_ttl(floor, requested),
        floor <= requested <= MAX_TTL ==> effective_ttl(floor, requested) == requested,
        requested < floor <= MAX_TTL ==> effective_ttl(floor, requested) == floor,
        requested > MAX_TTL ==> effective_ttl(floor, requested) == MAX_TTL,
{
}

} // verus!
