//! Sizes and shapes shared by several controls.

use vstd::prelude::*;

verus! {

#[derive(Debug, Clone, Copy, PartialEq, Eq, Structural)]
pub enum ControlSize {
    Sm,
    Md,
}

impl ControlSize {
    pub fn is_small(self) -> (r: bool)
        ensures
            r == (self == ControlSize::Sm),
    {
        match self {
            ControlSize::Sm => true,
            ControlSize::Md => false,
        }
    }
}

#[derive(Debug, Clone, Copy, PartialEq, Eq, Structural)]
pub enum InputWidth {
    Sm,
    Md,
    Lg,
}

/// The rounding of a rectangle's four corners, in points: north-west,
/// north-east, south-west and south-east.
#[derive(Debug, Clone, Copy, PartialEq, Eq, Structural)]
pub struct CornerRadii {
    pub nw: u8,
    pub ne: u8,
    pub sw: u8,
    pub se: u8,
}

impl CornerRadii {
    /// All four corners rounded alike.
    pub fn same(radius: u8) -> (r: CornerRadii)
        ensures
            r == (CornerRadii { nw: radius, ne: radius, sw: radius, se: radius }),
    {
        CornerRadii { nw: radius, ne: radius, sw: radius, se: radius }
    }

    /// Square corners.
    pub fn zero() -> (r: CornerRadii)
        ensures
            r == (CornerRadii { nw: 0, ne: 0, sw: 0, se: 0 }),
    {
        CornerRadii { nw: 0, ne: 0, sw: 0, se: 0 }
    }
}

} // verus!
