//! Fixed-point planar vectors.

use vstd::prelude::*;

verus! {

/// A point or direction in the plane, in thousandths of a world unit.
#[derive(Clone, Copy, Debug, PartialEq, Eq, Structural)]
pub struct MilliVec2 {
    pub x: i64,
    pub y: i64,
}

impl MilliVec2 {
    pub open spec fn spec_zero() -> MilliVec2 {
        MilliVec2 { x: 0, y: 0 }
    }

    /// The origin.
    #[verifier::when_used_as_spec(spec_zero)]
    pub fn zero() -> (v: MilliVec2)
        ensures
            v == MilliVec2::spec_zero(),
    {
        MilliVec2 { x: 0, y: 0 }
    }
}

} // verus!
