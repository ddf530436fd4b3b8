//! The rectangle exercise: an area from a pair of side lengths.

use vstd::prelude::*;

verus! {

/// The area of a rectangle given as `(width, height)`. The product must fit
/// in the result type.
pub fn area(dimension: (u32, u32)) -> (a: u32)
    requires
        dimension.0 * dimension.1 <= u32::MAX,
    ensures
        a == dimension.0 * dimension.1,
{
    dimension.0 * dimension.1
}

} // verus!
