//! Where a tooltip opens.

use vstd::prelude::*;

verus! {

#[derive(Debug, Clone, Copy, PartialEq, Eq, Structural)]
pub enum TooltipPlacement {
    Auto,
    Top,
    Right,
    Bottom,
    Left,
}

} // verus!
