//! A 3-component spatial value, used as the gravitational attractor location.

use vstd::prelude::*;

verus! {

/// A point in simulation space.
///
/// Components are held in fixed-point milli-units (1000 units = one device
/// unit), so that the attractor position passed to the gravitation kernel is
/// a plain value the verifier can reason about. The unverified driver
/// converts to the device's scalar type when it issues the dispatch.
#[derive(Clone, Copy, Debug, PartialEq, Eq, Structural)]
pub struct Point {
    pub x: i64,
    pub y: i64,
    pub z: i64,
}

impl Point {
    /// Builds a point from its three components.
    pub fn new(x: i64, y: i64, z: i64) -> (p: Point)
        ensures
            p == (Point { x, y, z }),
    {
        Point { x, y, z }
    }
}

} // verus!
