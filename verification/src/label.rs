//! The tones and weights of a label.

use vstd::prelude::*;

verus! {

#[derive(Debug, Clone, Copy, PartialEq, Eq, Structural)]
pub enum LabelTone {
    Primary,
    Secondary,
    Muted,
    Destructive,
}

#[derive(Debug, Clone, Copy, PartialEq, Eq, Structural)]
pub enum LabelWeight {
    Regular,
    Semibold,
    Bold,
}

} // verus!
