//! The edge a sidebar slides in from, and the corners it rounds.

use vstd::prelude::*;
use crate::common::CornerRadii;

verus! {

#[derive(Debug, Clone, Copy, PartialEq, Eq, Structural)]
pub enum SidebarSide {
    Left,
    Right,
}

impl Default for SidebarSide {
    fn default() -> (r: Self)
        ensures
            r == SidebarSide::Left,
    {
        SidebarSide::Left
    }
}

/// The rounding of a sidebar panel: only the corners on the side that faces
/// the content are rounded, by `radius`.
pub fn sidebar_corner_radius(side: SidebarSide, radius: u8) -> (r: CornerRadii)
    ensures
        r == (match side {
            SidebarSide::Left => CornerRadii { nw: 0, ne: radius, sw: 0, se: radius },
            SidebarSide::Right => CornerRadii { nw: radius, ne: 0, sw: radius, se: 0 },
        }),
{
    match side {
        SidebarSide::Left => CornerRadii { nw: 0, ne: radius, sw: 0, se: radius },
        SidebarSide::Right => CornerRadii { nw: radius, ne: 0, sw: radius, se: 0 },
    }
}

} // verus!
