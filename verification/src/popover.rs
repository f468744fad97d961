//! Where a popover opens relative to its trigger.

use vstd::prelude::*;

verus! {

#[derive(Debug, Clone, Copy, PartialEq, Eq, Structural)]
pub enum PopoverSide {
    Top,
    Right,
    Bottom,
    Left,
}

#[derive(Debug, Clone, Copy, PartialEq, Eq, Structural)]
pub enum PopoverAlign {
    Start,
    Center,
    End,
}

} // verus!
