//! The draw commands that the sequencers hand to the renderer.

use vstd::prelude::*;

verus! {

/// Line colour of a circle, by palette name.
#[derive(Clone, Copy, Debug, PartialEq, Eq, Structural)]
pub enum Tint {
    Blue,
    Green,
}

/// One circle outline in the plane of the off-screen camera.
#[derive(Clone, Copy, Debug, PartialEq, Eq, Structural)]
pub struct Circle {
    pub center_x: i32,
    pub center_y: i32,
    pub radius: u32,
    pub tint: Tint,
}

impl Circle {
    /// The circle of the given radius around the origin.
    pub open spec fn centered(radius: u32, tint: Tint) -> Circle {
        Circle { center_x: 0, center_y: 0, radius, tint }
    }

    /// Builds the circle of the given radius around the origin.
    pub fn at_origin(radius: u32, tint: Tint) -> (circle: Circle)
        ensures
            circle == Circle::centered(radius, tint),
    {
        Circle { center_x: 0, center_y: 0, radius, tint }
    }
}

} // verus!
