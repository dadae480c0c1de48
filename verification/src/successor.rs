//! The successor of a machine integer.

use vstd::prelude::*;

verus! {

/// The integer that follows `x`.
///
/// The largest `i32` has no successor of its type, so it is left out.
pub fn add_one(x: i32) -> (r: i32)
    requires
        x < i32::MAX,
    ensures
        r == x + 1,
{
    x + 1
}

} // verus!
