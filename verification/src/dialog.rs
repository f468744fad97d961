//! The variants of a dialog.

use vstd::prelude::*;

verus! {

#[derive(Debug, Clone, Copy, PartialEq, Eq, Structural)]
pub enum DialogVariant {
    Default,
    Alert,
}

} // verus!
