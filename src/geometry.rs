use vstd::prelude::*;

verus! {

/// Size of the local display: columns and rows.
#[derive(Clone, Copy, Debug, PartialEq, Eq, Structural)]
pub struct Geometry {
    pub width: u16,
    pub height: u16,
}

impl Geometry {
    pub fn new(width: u16, height: u16) -> (g: Geometry)
        ensures
            g.width == width,
            g.height == height,
    {
        Geometry { width, height }
    }
}

} // verus!
