//! The checkbox control's optional label.

use vstd::prelude::*;

verus! {

#[derive(Debug, Clone, Copy)]
pub struct Checkbox<'a> {
    pub label: Option<&'a str>,
}

impl<'a> Checkbox<'a> {
    pub fn new() -> (r: Self)
        ensures
            r == (Checkbox::<'a> { label: None }),
    {
        Checkbox { label: None }
    }

    pub fn label(self, label: &'a str) -> (r: Self)
        ensures
            r == (Checkbox { label: Some(label) }),
    {
        Checkbox { label: Some(label) }
    }
}

impl<'a> Default for Checkbox<'a> {
    fn default() -> (r: Self)
        ensures
            r == (Checkbox::<'a> { label: None }),
    {
        Checkbox::new()
    }
}

} // verus!
