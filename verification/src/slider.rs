//! The axis along which a number input is dragged.

use vstd::prelude::*;

verus! {

#[derive(Debug, Clone, Copy, PartialEq, Eq, Structural)]
pub enum NumberInputAxis {
    Horizontal,
    Vertical,
}

} // verus!
