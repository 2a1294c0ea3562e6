//! The shrink policy: the heuristic consulted after every eviction to decide
//! whether the backing allocation should be released down to the used size.

use vstd::prelude::*;

verus! {

/// Element count at or below which the opportunistic shrink never runs: a
/// very small queue is not worth the reallocation thrash.
pub const SHRINK_LEN_FLOOR: usize = 4;

/// The opportunistic shrink heuristic: release unused backing capacity when
/// more than [`SHRINK_LEN_FLOOR`] elements are stored and either at most half
/// of the allocation is in use or the allocation exceeds the configured
/// limit.
pub open spec fn spec_should_shrink(len: nat, capacity: nat, limit: nat) -> bool {
    len > SHRINK_LEN_FLOOR && (len <= capacity / 2 || capacity > limit)
}

/// Decides whether the opportunistic shrink should release capacity.
pub fn should_shrink(len: usize, capacity: usize, limit: usize) -> (r: bool)
    ensures
        r == spec_should_shrink(len as nat, capacity as nat, limit as nat),
{
    let half_capacity: usize = if capacity == 0 {
        0
    } else {
        capacity / 2
    };
    len > SHRINK_LEN_FLOOR && (len <= half_capacity || capacity > limit)
}

} // verus!
